//! Leases and the store that keeps them.
//!
//! A lease is a presence record with the second it was written at and the
//! seconds it lasts. The store is a `tinydb` database held in memory: the
//! host opens it from its file, hands it over, and writes it back when an
//! operation asks for that. Nothing here touches the file.

use crate::client::{ClientInfo, ClientInfoView};
use vstd::prelude::*;

verus! {

/// A presence record with the time it was written at, in seconds since the
/// Unix epoch, and the seconds it lasts. Once written it does not change.
#[derive(Debug, PartialEq, Eq, Hash)]
pub struct ClientInfoRecord {
    pub client_info: ClientInfo,
    pub record_time: i64,
    pub lifetime: u64,
}

/// The mathematical value of a [`ClientInfoRecord`].
pub struct ClientInfoRecordView {
    pub client_info: ClientInfoView,
    pub record_time: i64,
    pub lifetime: u64,
}

impl View for ClientInfoRecord {
    type V = ClientInfoRecordView;

    open spec fn view(&self) -> ClientInfoRecordView {
        ClientInfoRecordView {
            client_info: self.client_info@,
            record_time: self.record_time,
            lifetime: self.lifetime,
        }
    }
}

impl Clone for ClientInfoRecord {
    fn clone(&self) -> (copy: Self)
        ensures
            copy@ == self@,
    {
        Self {
            client_info: self.client_info.clone(),
            record_time: self.record_time,
            lifetime: self.lifetime,
        }
    }
}

impl ClientInfoRecord {
    /// A lease on `client_info` written at `now`.
    pub fn at(client_info: ClientInfo, lifetime: u64, now: i64) -> (record: Self)
        ensures
            record@ == (ClientInfoRecordView {
                client_info: client_info@,
                record_time: now,
                lifetime,
            }),
    {
        Self { client_info, record_time: now, lifetime }
    }

    /// A lease on `client_info` written at the present second of the
    /// system clock, whatever that is.
    pub fn new(client_info: ClientInfo, lifetime: u64) -> (record: Self)
        ensures
            record@.client_info == client_info@,
            record@.lifetime == lifetime,
    {
        Self::at(client_info, lifetime, now_seconds())
    }
}

/// Calls `chrono::Utc::now` and `DateTime::timestamp`: the seconds since the
/// Unix epoch on the system clock.
///
/// Trusted: nothing is claimed of the result. `Utc::now` panics on a clock
/// set before the epoch.
#[verifier::external_body]
pub(crate) fn now_seconds() -> i64 {
    chrono::Utc::now().timestamp()
}

/// Why the store did not do what it was asked.
#[derive(Clone, Copy, Debug, PartialEq, Eq, Structural)]
pub enum StoreError {
    /// The backing file could not be read or written, or does not hold a
    /// store.
    Io,
    /// The store refuses duplicates and holds an equal lease already.
    DuplicateKey,
    /// No lease matches.
    NotFound,
}

/// What a database keeps of a lease: identifier, account, password digest,
/// IPv4 and IPv6 addresses, time of writing, lifetime.
pub type LeaseRow = (u128, String, Option<String>, Vec<[u8; 4]>, Vec<[u8; 16]>, i64, u64);

/// `tinydb::Database`, the collection that keeps the leases in memory. It
/// is opaque here: what it holds is named by [`database_items`] and
/// [`database_is_strict`].
#[verifier::external_type_specification]
#[verifier::external_body]
#[verifier::reject_recursive_types(T)]
pub struct ExDatabase<T: std::hash::Hash + Eq>(tinydb::Database<T>);

/// `tinydb::error::DatabaseError`, what the database's methods fail with.
/// It is opaque here, and nothing is claimed of it.
#[verifier::external_type_specification]
#[verifier::external_body]
pub struct ExDatabaseError(tinydb::error::DatabaseError);

/// The leases that a database holds. It holds no lease twice.
pub uninterp spec fn database_items(db: tinydb::Database<LeaseRow>) -> Set<ClientInfoRecordView>;

/// Whether a database answers with an error when it is given a lease that
/// it holds already, rather than passing over it in silence.
pub uninterp spec fn database_is_strict(db: tinydb::Database<LeaseRow>) -> bool;

/// The mathematical value of a [`LeaseStore`]: the leases it holds and
/// whether it refuses duplicates.
pub struct LeaseStoreView {
    pub leases: Set<ClientInfoRecordView>,
    pub strict: bool,
}

impl LeaseStoreView {
    /// Whether some lease of the store is `account`'s.
    pub open spec fn has_account(self, account: Seq<char>) -> bool {
        exists|l: ClientInfoRecordView| #[trigger]
            self.leases.contains(l) && l.client_info.account == account
    }

    /// Whether some lease of the store lasts `lifetime` seconds.
    pub open spec fn has_lifetime(self, lifetime: u64) -> bool {
        exists|l: ClientInfoRecordView| #[trigger] self.leases.contains(l) && l.lifetime == lifetime
    }

    /// Whether the store answers an attempt to add `lease` with an error.
    pub open spec fn refuses(self, lease: ClientInfoRecordView) -> bool {
        self.strict && self.leases.contains(lease)
    }

    /// The store after an attempt to add `lease`.
    pub open spec fn with_lease(self, lease: ClientInfoRecordView) -> LeaseStoreView {
        if self.refuses(lease) {
            self
        } else {
            LeaseStoreView { leases: self.leases.insert(lease), ..self }
        }
    }

    /// The store after an attempt to remove `lease`.
    pub open spec fn without_lease(self, lease: ClientInfoRecordView) -> LeaseStoreView {
        LeaseStoreView { leases: self.leases.remove(lease), ..self }
    }
}

/// The leases of one backing file, as loaded.
pub struct LeaseStore {
    db: tinydb::Database<LeaseRow>,
}

impl View for LeaseStore {
    type V = LeaseStoreView;

    closed spec fn view(&self) -> LeaseStoreView {
        LeaseStoreView { leases: database_items(self.db), strict: database_is_strict(self.db) }
    }
}

impl LeaseStore {
    /// Takes over a database that the host has opened.
    pub fn from_database(db: tinydb::Database<LeaseRow>) -> (store: Self)
        ensures
            store@ == (LeaseStoreView {
                leases: database_items(db),
                strict: database_is_strict(db),
            }),
    {
        Self { db }
    }

    /// The database, for the host to write back.
    pub fn database(&self) -> (db: &tinydb::Database<LeaseRow>)
        ensures
            self@ == (LeaseStoreView {
                leases: database_items(*db),
                strict: database_is_strict(*db),
            }),
    {
        &self.db
    }

    /// Adds `record`. A store that refuses duplicates fails with
    /// `DuplicateKey` on a lease it holds already and stays as it was; any
    /// other store holds the lease afterwards, once.
    pub fn add(&mut self, record: ClientInfoRecord) -> (res: Result<(), StoreError>)
        ensures
            final(self)@ == old(self)@.with_lease(record@),
            res == if old(self)@.refuses(record@) {
                Err::<(), StoreError>(StoreError::DuplicateKey)
            } else {
                Ok::<(), StoreError>(())
            },
    {
        match db_add_item(&mut self.db, record) {
            Ok(()) => Ok(()),
            Err(_) => Err(StoreError::DuplicateKey),
        }
    }

    /// Removes the lease equal to `record` in every field. Fails with
    /// `NotFound`, and changes nothing, if the store holds no such lease.
    pub fn remove(&mut self, record: &ClientInfoRecord) -> (res: Result<(), StoreError>)
        ensures
            final(self)@ == old(self)@.without_lease(record@),
            res == if old(self)@.leases.contains(record@) {
                Ok::<(), StoreError>(())
            } else {
                Err::<(), StoreError>(StoreError::NotFound)
            },
    {
        match db_remove_item(&mut self.db, record) {
            Ok(()) => Ok(()),
            Err(_) => Err(StoreError::NotFound),
        }
    }

    /// Some lease of `account`, or `NotFound` if the store holds none.
    /// Where it holds several, which of them comes back is not fixed.
    pub fn query_by_account(&self, account: &str) -> (res: Result<ClientInfoRecord, StoreError>)
        ensures
            match res {
                Ok(record) => self@.leases.contains(record@) && record@.client_info.account
                    == account@,
                Err(e) => e == StoreError::NotFound && !self@.has_account(account@),
            },
    {
        match db_query_account(&self.db, account) {
            Ok(record) => Ok(record),
            Err(_) => Err(StoreError::NotFound),
        }
    }

    /// Some lease that lasts `lifetime` seconds, or `NotFound` if the store
    /// holds none. Where it holds several, which of them comes back is not
    /// fixed.
    pub fn query_by_lifetime(&self, lifetime: u64) -> (res: Result<ClientInfoRecord, StoreError>)
        ensures
            match res {
                Ok(record) => self@.leases.contains(record@) && record@.lifetime == lifetime,
                Err(e) => e == StoreError::NotFound && !self@.has_lifetime(lifetime),
            },
    {
        match db_query_lifetime(&self.db, lifetime) {
            Ok(record) => Ok(record),
            Err(_) => Err(StoreError::NotFound),
        }
    }
}

/// The value of what a search of the store came back with.
pub open spec fn found_view(found: Result<ClientInfoRecord, StoreError>) -> Result<
    ClientInfoRecordView,
    StoreError,
> {
    match found {
        Ok(record) => Ok(record@),
        Err(e) => Err(e),
    }
}

/// The value of a store that the host has tried to open.
pub open spec fn opened_view(opened: Result<LeaseStore, StoreError>) -> Result<
    LeaseStoreView,
    StoreError,
> {
    match opened {
        Ok(store) => Ok(store@),
        Err(e) => Err(e),
    }
}

/// Calls `Database::add_item`.
///
/// Trusted: a database that is strict about duplicates answers a lease it
/// holds already with an error (`DupeFound`, its only one) and keeps its
/// items; in every other case the call succeeds and the items are those
/// from before together with the lease. Strictness does not change.
#[verifier::external_body]
fn db_add_item(db: &mut tinydb::Database<LeaseRow>, record: ClientInfoRecord) -> (res: Result<
    (),
    tinydb::error::DatabaseError,
>)
    ensures
        database_is_strict(*final(db)) == database_is_strict(*old(db)),
        res is Err <==> database_is_strict(*old(db)) && database_items(*old(db)).contains(record@),
        res is Err ==> database_items(*final(db)) == database_items(*old(db)),
        res is Ok ==> database_items(*final(db)) == database_items(*old(db)).insert(record@),
{
    let ClientInfo { id, account, passwd, ipv4s, ipv6s } = record.client_info;
    db.add_item((id, account, passwd, ipv4s, ipv6s, record.record_time, record.lifetime))
}

/// Calls `Database::remove_item`.
///
/// Trusted: the call succeeds exactly if the database holds a lease equal
/// to `record` in every field, and then holds it no longer; it fails
/// otherwise (`ItemNotFound`, its only error). Nothing else changes.
#[verifier::external_body]
fn db_remove_item(db: &mut tinydb::Database<LeaseRow>, record: &ClientInfoRecord) -> (res: Result<
    (),
    tinydb::error::DatabaseError,
>)
    ensures
        database_is_strict(*final(db)) == database_is_strict(*old(db)),
        res is Ok <==> database_items(*old(db)).contains(record@),
        database_items(*final(db)) == database_items(*old(db)).remove(record@),
{
    let info = &record.client_info;
    let (account, passwd) = (info.account.clone(), info.passwd.clone());
    let (ipv4s, ipv6s) = (info.ipv4s.to_vec(), info.ipv6s.to_vec());
    db.remove_item(&(info.id, account, passwd, ipv4s, ipv6s, record.record_time, record.lifetime))
}

/// Calls `Database::query_item` with the account as the field to compare.
///
/// Trusted: the call walks the items in the order of their hash table and
/// hands out the first whose account equals `account`; it fails
/// (`ItemNotFound`, its only error) exactly if there is none.
#[verifier::external_body]
fn db_query_account(db: &tinydb::Database<LeaseRow>, account: &str) -> (res: Result<
    ClientInfoRecord,
    tinydb::error::DatabaseError,
>)
    ensures
        match res {
            Ok(record) => database_items(*db).contains(record@) && record@.client_info.account
                == account@,
            Err(_) => forall|l: ClientInfoRecordView| #[trigger]
                database_items(*db).contains(l) ==> l.client_info.account != account@,
        },
{
    let (id, account, passwd, ipv4s, ipv6s, record_time, lifetime) =
        db.query_item(|r: &LeaseRow| &r.1, account.to_owned())?.clone();
    let client_info = ClientInfo { id, account, passwd, ipv4s, ipv6s };
    Ok(ClientInfoRecord { client_info, record_time, lifetime })
}

/// Calls `Database::query_item` with the lifetime as the field to compare.
///
/// Trusted: the call walks the items in the order of their hash table and
/// hands out the first whose lifetime equals `lifetime`; it fails
/// (`ItemNotFound`, its only error) exactly if there is none.
#[verifier::external_body]
fn db_query_lifetime(db: &tinydb::Database<LeaseRow>, lifetime: u64) -> (res: Result<
    ClientInfoRecord,
    tinydb::error::DatabaseError,
>)
    ensures
        match res {
            Ok(record) => database_items(*db).contains(record@) && record@.lifetime == lifetime,
            Err(_) => forall|l: ClientInfoRecordView| #[trigger]
                database_items(*db).contains(l) ==> l.lifetime != lifetime,
        },
{
    let (id, account, passwd, ipv4s, ipv6s, record_time, lifetime) =
        db.query_item(|r: &LeaseRow| &r.6, lifetime)?.clone();
    let client_info = ClientInfo { id, account, passwd, ipv4s, ipv6s };
    Ok(ClientInfoRecord { client_info, record_time, lifetime })
}

} // verus!
