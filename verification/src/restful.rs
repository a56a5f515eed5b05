//! The three operations of the registry: who the registry is, the last
//! known presence of an account, and the registration of a presence.
//!
//! Each operation works on the store as the host has just opened it and
//! keeps nothing between calls. Where an operation has changed the store
//! it hands it back for the host to write out, and the answer depends on
//! how that went.

use crate::client::{digest_accepted, digest_of, opt_text, sha256, ClientInfo, ClientInfoView};
use crate::server::{
    GetClientInfoParams, GetClientInfoResponse, GetClientInfoResponseView, PostClientInfoResponse,
    PostClientInfoResponseView, ResponseMessage,
};
use crate::storage::{
    found_view, now_seconds, opened_view, ClientInfoRecord, ClientInfoRecordView, LeaseStore,
    LeaseStoreView, StoreError,
};
use crate::AppInfo;
use vstd::prelude::*;
use vstd::string::*;

verus! {

/// The name of the application.
pub const APP_NAME: &'static str = "Here";

/// The version of the application.
pub const APP_VERSION: &'static str = "0.1.0";

/// The seconds that every new lease lasts.
pub const DEFAULT_LIFETIME: u64 = 60;

/// How an operation ended, as the transport reports it.
#[derive(Clone, Copy, Debug, PartialEq, Eq, Structural)]
pub enum Status {
    Success,
    Forbidden,
    NotFound,
    ServerError,
}

impl Status {
    /// The HTTP status code.
    pub fn code(&self) -> (code: u16)
        ensures
            code == match *self {
                Status::Success => 200u16,
                Status::Forbidden => 403u16,
                Status::NotFound => 404u16,
                Status::ServerError => 500u16,
            },
    {
        match self {
            Status::Success => 200,
            Status::Forbidden => 403,
            Status::NotFound => 404,
            Status::ServerError => 500,
        }
    }
}

/// Name and version of the registry.
pub fn get_server_info() -> (reply: (Status, AppInfo))
    ensures
        reply.0 == Status::Success,
        reply.1.name@ == APP_NAME@,
        reply.1.version@ == APP_VERSION@,
{
    (Status::Success, AppInfo::new(APP_NAME, APP_VERSION))
}

/// The answer to a lookup of `account` before anything is known: it names
/// the account, is not ok, and hands back no credential.
pub open spec fn lookup_blank(account: Seq<char>) -> GetClientInfoResponseView {
    GetClientInfoResponseView {
        id: None,
        account,
        passwd: None,
        is_ok: false,
        message: None,
        data: None,
    }
}

/// The answer that turns a lookup of `account` down with `message`.
pub open spec fn lookup_refusal(account: Seq<char>, message: ResponseMessage)
    -> GetClientInfoResponseView {
    GetClientInfoResponseView { message: Some(message), ..lookup_blank(account) }
}

/// The answer to a lookup of `account` by a caller whose password, if it
/// gave one, has the digest `digest`, when the search of the store came
/// back with `found`.
///
/// No lease: not found. Any other failure of the store: a server fault.
/// A lease with a password and a caller without, or with another one:
/// forbidden. A lease without password and a caller without: ok, and no
/// data. A caller whose digest is the lease's: ok, with the record. A
/// lease without password accepts no password, so a caller that offers
/// one is turned down.
pub open spec fn lookup_reply(
    found: Result<ClientInfoRecordView, StoreError>,
    account: Seq<char>,
    digest: Option<Seq<char>>,
) -> (Status, GetClientInfoResponseView) {
    match found {
        Err(StoreError::NotFound) => (
            Status::NotFound,
            lookup_refusal(account, ResponseMessage::NotFound),
        ),
        Err(_) => (Status::ServerError, lookup_refusal(account, ResponseMessage::DatabaseError)),
        Ok(lease) => match digest {
            None => if lease.client_info.passwd is Some {
                (Status::Forbidden, lookup_refusal(account, ResponseMessage::InvalidPassword))
            } else {
                (
                    Status::Success,
                    GetClientInfoResponseView { is_ok: true, ..lookup_blank(account) },
                )
            },
            Some(d) => if digest_accepted(lease.client_info.passwd, d) {
                (
                    Status::Success,
                    GetClientInfoResponseView {
                        is_ok: true,
                        data: Some(lease.client_info),
                        ..lookup_blank(account)
                    },
                )
            } else {
                (Status::Forbidden, lookup_refusal(account, ResponseMessage::InvalidPassword))
            },
        },
    }
}

/// Whether `reply` is an answer that a lookup may give on a store opened
/// as `opened`: the answer for a store that failed where it could not be
/// opened, for no lease where it holds none of the account, and else the
/// answer for one of the account's leases in it.
pub open spec fn lookup_allows(
    opened: Result<LeaseStoreView, StoreError>,
    account: Seq<char>,
    digest: Option<Seq<char>>,
    reply: (Status, GetClientInfoResponseView),
) -> bool {
    match opened {
        Err(_) => reply == lookup_reply(Err(StoreError::Io), account, digest),
        Ok(store) => if store.has_account(account) {
            exists|l: ClientInfoRecordView| #[trigger]
                store.leases.contains(l) && l.client_info.account == account && reply
                    == lookup_reply(Ok(l), account, digest)
        } else {
            reply == lookup_reply(Err(StoreError::NotFound), account, digest)
        },
    }
}

/// Answers a lookup of `account`, given what the search of the store came
/// back with and the digest of the caller's password, if it gave one.
pub fn lookup_answer(
    found: Result<ClientInfoRecord, StoreError>,
    account: &str,
    digest: &Option<String>,
) -> (reply: (Status, GetClientInfoResponse))
    ensures
        (reply.0, reply.1@) == lookup_reply(found_view(found), account@, opt_text(*digest)),
{
    let blank = GetClientInfoResponse::new(None, account, None);
    match found {
        Err(StoreError::NotFound) => (
            Status::NotFound,
            blank.set_message(Some(ResponseMessage::NotFound)),
        ),
        Err(_) => (Status::ServerError, blank.set_message(Some(ResponseMessage::DatabaseError))),
        Ok(record) => match digest {
            None => if record.client_info.passwd.is_some() {
                (Status::Forbidden, blank.set_message(Some(ResponseMessage::InvalidPassword)))
            } else {
                (Status::Success, blank.set_ok(true))
            },
            Some(d) => if record.client_info.matches_digest(d) {
                (Status::Success, blank.set_ok(true).set_data(record.client_info))
            } else {
                (Status::Forbidden, blank.set_message(Some(ResponseMessage::InvalidPassword)))
            },
        },
    }
}

/// Looks up the presence of `params.account` in the store that the host
/// has just tried to open.
///
/// A store that could not be opened gives a server fault; a store
/// without a lease of the account gives not found; otherwise one lease of
/// the account is picked and the caller's password is held against it.
pub fn get_client_info(
    opened: &Result<LeaseStore, StoreError>,
    params: &GetClientInfoParams,
) -> (reply: (Status, GetClientInfoResponse))
    ensures
        lookup_allows(
            opened_view(*opened),
            params.account@,
            digest_of(opt_text(params.passwd)),
            (reply.0, reply.1@),
        ),
{
    let digest = match &params.passwd {
        Some(plaintext) => Some(sha256(plaintext.as_str())),
        None => None,
    };
    let found = match opened {
        Ok(store) => store.query_by_account(params.account.as_str()),
        Err(_) => Err(StoreError::Io),
    };
    lookup_answer(found, params.account.as_str(), &digest)
}

/// Whether every lease of `account` in the store gives a lookup with
/// `digest` the same answer.
pub open spec fn lookup_settled(
    store: LeaseStoreView,
    account: Seq<char>,
    digest: Option<Seq<char>>,
) -> bool {
    forall|a: ClientInfoRecordView, b: ClientInfoRecordView|
        #![trigger store.leases.contains(a), store.leases.contains(b)]
        store.leases.contains(a) && store.leases.contains(b) && a.client_info.account == account
            && b.client_info.account == account ==> lookup_reply(Ok(a), account, digest)
            == lookup_reply(Ok(b), account, digest)
}

/// Two lookups of one account with one password on a store that has not
/// changed give the same answer, as long as the leases of the account in
/// the store do not disagree on it.
pub proof fn lemma_lookup_repeatable(
    opened: Result<LeaseStoreView, StoreError>,
    account: Seq<char>,
    digest: Option<Seq<char>>,
    first: (Status, GetClientInfoResponseView),
    second: (Status, GetClientInfoResponseView),
)
    requires
        lookup_allows(opened, account, digest, first),
        lookup_allows(opened, account, digest, second),
        opened matches Ok(store) ==> lookup_settled(store, account, digest),
    ensures
        first == second,
{
}

/// A store that holds at most one lease of an account gives every lookup
/// of that account one answer.
pub proof fn lemma_one_lease_settles(
    store: LeaseStoreView,
    account: Seq<char>,
    digest: Option<Seq<char>>,
)
    requires
        forall|a: ClientInfoRecordView, b: ClientInfoRecordView|
            #![trigger store.leases.contains(a), store.leases.contains(b)]
            store.leases.contains(a) && store.leases.contains(b) && a.client_info.account
                == account && b.client_info.account == account ==> a == b,
    ensures
        lookup_settled(store, account, digest),
{
}

/// The password gate. A lease with a password is handed, whole, to the
/// caller whose digest is the lease's, and to nobody else: any other
/// digest, and none, is turned down as forbidden, not ok and without
/// data. A lease without password is confirmed, without data, to a caller
/// that gives no password.
pub proof fn lemma_password_gate(
    lease: ClientInfoRecordView,
    account: Seq<char>,
    digest: Option<Seq<char>>,
)
    ensures
        lease.client_info.passwd is Some && digest == lease.client_info.passwd ==> {
            let reply = lookup_reply(Ok(lease), account, digest);
            reply.0 == Status::Success && reply.1.is_ok && reply.1.data == Some(lease.client_info)
        },
        lease.client_info.passwd is Some && digest != lease.client_info.passwd ==> {
            let reply = lookup_reply(Ok(lease), account, digest);
            &&& reply.0 == Status::Forbidden
            &&& !reply.1.is_ok
            &&& reply.1.data is None
            &&& reply.1.message == Some(ResponseMessage::InvalidPassword)
        },
        lease.client_info.passwd is None && digest is None ==> {
            let reply = lookup_reply(Ok(lease), account, digest);
            reply.0 == Status::Success && reply.1.is_ok && reply.1.data is None
        },
{
}

/// A lease that carries the digest of a password is handed, whole, to the
/// caller that gives that password.
pub proof fn lemma_password_opens(
    lease: ClientInfoRecordView,
    account: Seq<char>,
    passwd_plaintext: Seq<char>,
)
    requires
        lease.client_info.passwd == digest_of(Some(passwd_plaintext)),
    ensures
        lookup_reply(Ok(lease), account, digest_of(Some(passwd_plaintext))) == (
            Status::Success,
            GetClientInfoResponseView {
                is_ok: true,
                data: Some(lease.client_info),
                ..lookup_blank(account)
            },
        ),
{
}

/// What a registration needs next.
pub enum PostStep {
    /// The store holds the new lease: the host writes the store out and
    /// reports how that went.
    Flush(LeaseStore),
    /// The registration is over with this answer.
    Reply(Status, PostClientInfoResponse),
}

/// The mathematical value of a [`PostStep`].
pub enum PostStepView {
    Flush(LeaseStoreView),
    Reply(Status, PostClientInfoResponseView),
}

impl View for PostStep {
    type V = PostStepView;

    open spec fn view(&self) -> PostStepView {
        match *self {
            PostStep::Flush(store) => PostStepView::Flush(store@),
            PostStep::Reply(status, resp) => PostStepView::Reply(status, resp@),
        }
    }
}

/// The answer to a registration of `info` before anything is known: not
/// ok, and no lifetime granted.
pub open spec fn post_blank(info: ClientInfoView) -> PostClientInfoResponseView {
    PostClientInfoResponseView {
        id: info.id,
        account: info.account,
        passwd: info.passwd,
        is_ok: false,
        message: None,
        lifetime: 0,
    }
}

/// The answer to a registration that the store has let down.
pub open spec fn post_failure(info: ClientInfoView) -> (Status, PostClientInfoResponseView) {
    (
        Status::ServerError,
        PostClientInfoResponseView {
            message: Some(ResponseMessage::DatabaseError),
            ..post_blank(info)
        },
    )
}

/// The answer to a registration that is in the store and on file.
pub open spec fn post_success(info: ClientInfoView) -> (Status, PostClientInfoResponseView) {
    (
        Status::Success,
        PostClientInfoResponseView { is_ok: true, lifetime: DEFAULT_LIFETIME, ..post_blank(info) },
    )
}

/// The lease that a registration of `info` at `now` writes: it lasts the
/// default lifetime, whatever the client asked for.
pub open spec fn new_lease(info: ClientInfoView, now: i64) -> ClientInfoRecordView {
    ClientInfoRecordView { client_info: info, record_time: now, lifetime: DEFAULT_LIFETIME }
}

/// The first step of a registration of `info` at `now`: a server fault
/// where the store could not be opened or refuses the lease, and else the
/// store with the new lease, to be written out.
pub open spec fn post_step(
    opened: Result<LeaseStoreView, StoreError>,
    info: ClientInfoView,
    now: i64,
) -> PostStepView {
    match opened {
        Err(_) => PostStepView::Reply(post_failure(info).0, post_failure(info).1),
        Ok(store) => if store.refuses(new_lease(info, now)) {
            PostStepView::Reply(post_failure(info).0, post_failure(info).1)
        } else {
            PostStepView::Flush(store.with_lease(new_lease(info, now)))
        },
    }
}

/// The answer to a registration of `info` whose store was written out
/// with the result `flushed`.
pub open spec fn post_reply(flushed: Result<(), StoreError>, info: ClientInfoView) -> (
    Status,
    PostClientInfoResponseView,
) {
    match flushed {
        Ok(_) => post_success(info),
        Err(_) => post_failure(info),
    }
}

fn post_failed(client_info: &ClientInfo) -> (reply: (Status, PostClientInfoResponse))
    ensures
        (reply.0, reply.1@) == post_failure(client_info@),
{
    let passwd = match &client_info.passwd {
        Some(p) => Some(p.clone()),
        None => None,
    };
    let resp = PostClientInfoResponse::new(client_info.id, client_info.account.as_str(), passwd);
    (Status::ServerError, resp.set_message(Some(ResponseMessage::DatabaseError)))
}

/// Registers `client_info` at the second `now` in the store that the host
/// has just tried to open. A registration always writes a new lease, and
/// a failure ends it at once.
pub fn post_client_info_at(
    opened: Result<LeaseStore, StoreError>,
    client_info: &ClientInfo,
    now: i64,
) -> (step: PostStep)
    ensures
        step@ == post_step(opened_view(opened), client_info@, now),
{
    match opened {
        Err(_) => {
            let reply = post_failed(client_info);
            PostStep::Reply(reply.0, reply.1)
        },
        Ok(store) => {
            let mut store = store;
            let record = ClientInfoRecord::at(client_info.clone(), DEFAULT_LIFETIME, now);
            match store.add(record) {
                Err(_) => {
                    let reply = post_failed(client_info);
                    PostStep::Reply(reply.0, reply.1)
                },
                Ok(()) => PostStep::Flush(store),
            }
        },
    }
}

/// Registers `client_info` at the present second of the system clock,
/// whatever that is.
pub fn post_client_info(opened: Result<LeaseStore, StoreError>, client_info: &ClientInfo) -> (step:
    PostStep)
    ensures
        exists|now: i64| step@ == #[trigger] post_step(opened_view(opened), client_info@, now),
{
    let now = now_seconds();
    post_client_info_at(opened, client_info, now)
}

/// Ends a registration of `client_info` whose store the host has tried to
/// write out: the lifetime granted where that went well, a server fault
/// where it did not.
pub fn post_client_info_flushed(
    flushed: &Result<(), StoreError>,
    client_info: &ClientInfo,
) -> (reply: (Status, PostClientInfoResponse))
    ensures
        (reply.0, reply.1@) == post_reply(*flushed, client_info@),
{
    match flushed {
        Err(_) => post_failed(client_info),
        Ok(_) => {
            let passwd = match &client_info.passwd {
                Some(p) => Some(p.clone()),
                None => None,
            };
            let resp = PostClientInfoResponse::new(
                client_info.id,
                client_info.account.as_str(),
                passwd,
            );
            (Status::Success, resp.set_ok(true).set_lifetime(DEFAULT_LIFETIME))
        },
    }
}

/// Registration always creates. Two registrations of one account, the
/// second on the store that the first has left, both end well and leave
/// both their leases in the store beside all that were there, provided
/// that the store refuses neither. Where the two leases differ in any
/// field, these are two leases: nothing is merged or updated.
pub proof fn lemma_registration_always_creates(
    store: LeaseStoreView,
    first: ClientInfoView,
    first_now: i64,
    second: ClientInfoView,
    second_now: i64,
)
    requires
        first.account == second.account,
        !store.refuses(new_lease(first, first_now)),
        !store.with_lease(new_lease(first, first_now)).refuses(new_lease(second, second_now)),
    ensures
        post_step(Ok(store), first, first_now) matches PostStepView::Flush(between)
            && post_step(Ok(between), second, second_now) matches PostStepView::Flush(after) && {
            &&& after.leases.contains(new_lease(first, first_now))
            &&& after.leases.contains(new_lease(second, second_now))
            &&& store.leases.subset_of(after.leases)
        },
        post_reply(Ok(()), first).0 == Status::Success,
        post_reply(Ok(()), first).1.is_ok,
        post_reply(Ok(()), second).0 == Status::Success,
        post_reply(Ok(()), second).1.is_ok,
{
}

/// A store that takes duplicates refuses no lease.
pub proof fn lemma_lenient_store_takes_all(store: LeaseStoreView, lease: ClientInfoRecordView)
    requires
        !store.strict,
    ensures
        !store.refuses(lease),
        !store.with_lease(lease).strict,
{
}

} // verus!
