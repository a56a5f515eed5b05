use here::client::{ClientInfo, IpAddress};
use here::storage::{ClientInfoRecord, LeaseStore, StoreError};

fn lenient() -> LeaseStore {
    LeaseStore::from_database(tinydb::Database::new("leases", None, false))
}

fn strict() -> LeaseStore {
    LeaseStore::from_database(tinydb::Database::new("leases", None, true))
}

fn lease(id: u128, account: &str, now: i64, lifetime: u64) -> ClientInfoRecord {
    let ips = vec![IpAddress::V4([10, 0, 0, 1]), IpAddress::V6([1; 16])];
    ClientInfoRecord::at(ClientInfo::new(id, account).set_ips(&ips), lifetime, now)
}

#[test]
fn record_at_keeps_what_it_is_given() {
    let record = ClientInfoRecord::at(ClientInfo::new(1, "alice"), 60, 1000);
    assert_eq!(record.client_info, ClientInfo::new(1, "alice"));
    assert_eq!(record.record_time, 1000);
    assert_eq!(record.lifetime, 60);
    assert_eq!(record.clone(), record);
}

#[test]
fn record_new_is_written_now() {
    let record = ClientInfoRecord::new(ClientInfo::new(1, "alice"), 5);
    assert_eq!(record.client_info, ClientInfo::new(1, "alice"));
    assert_eq!(record.lifetime, 5);
    // Later than the first of January 2020.
    assert!(record.record_time > 1_577_836_800);
}

#[test]
fn empty_store_finds_nothing() {
    let store = lenient();
    assert_eq!(store.query_by_account("alice"), Err(StoreError::NotFound));
    assert_eq!(store.query_by_lifetime(60), Err(StoreError::NotFound));
    assert!(store.database().items.is_empty());
}

#[test]
fn added_lease_is_found_by_account_and_by_lifetime() {
    let mut store = lenient();
    assert_eq!(store.add(lease(1, "alice", 1000, 60)), Ok(()));
    assert_eq!(store.add(lease(2, "bob", 1001, 5)), Ok(()));
    assert_eq!(store.query_by_account("alice"), Ok(lease(1, "alice", 1000, 60)));
    assert_eq!(store.query_by_account("bob"), Ok(lease(2, "bob", 1001, 5)));
    assert_eq!(store.query_by_lifetime(60), Ok(lease(1, "alice", 1000, 60)));
    assert_eq!(store.query_by_lifetime(5), Ok(lease(2, "bob", 1001, 5)));
    assert_eq!(store.query_by_account("carol"), Err(StoreError::NotFound));
    assert_eq!(store.query_by_account("ali"), Err(StoreError::NotFound));
    assert_eq!(store.query_by_lifetime(61), Err(StoreError::NotFound));
    assert_eq!(store.database().items.len(), 2);
}

#[test]
fn query_picks_one_of_several_leases_of_an_account() {
    let mut store = lenient();
    store.add(lease(1, "alice", 1000, 60)).unwrap();
    store.add(lease(2, "alice", 1001, 60)).unwrap();
    let found = store.query_by_account("alice").unwrap();
    assert!(found == lease(1, "alice", 1000, 60) || found == lease(2, "alice", 1001, 60));
    let found = store.query_by_lifetime(60).unwrap();
    assert!(found == lease(1, "alice", 1000, 60) || found == lease(2, "alice", 1001, 60));
}

#[test]
fn lenient_store_passes_over_an_equal_lease() {
    let mut store = lenient();
    assert_eq!(store.add(lease(1, "alice", 1000, 60)), Ok(()));
    assert_eq!(store.add(lease(1, "alice", 1000, 60)), Ok(()));
    assert_eq!(store.database().items.len(), 1);
    assert_eq!(store.remove(&lease(1, "alice", 1000, 60)), Ok(()));
    assert_eq!(store.query_by_account("alice"), Err(StoreError::NotFound));
}

#[test]
fn strict_store_refuses_an_equal_lease() {
    let mut store = strict();
    assert_eq!(store.add(lease(1, "alice", 1000, 60)), Ok(()));
    assert_eq!(store.add(lease(1, "alice", 1000, 60)), Err(StoreError::DuplicateKey));
    assert_eq!(store.database().items.len(), 1);
    assert_eq!(store.query_by_account("alice"), Ok(lease(1, "alice", 1000, 60)));
}

#[test]
fn strict_store_takes_leases_that_differ_in_one_field() {
    let mut store = strict();
    assert_eq!(store.add(lease(1, "alice", 1000, 60)), Ok(()));
    assert_eq!(store.add(lease(2, "alice", 1000, 60)), Ok(()));
    assert_eq!(store.add(lease(1, "alice", 1001, 60)), Ok(()));
    assert_eq!(store.add(lease(1, "alice", 1000, 61)), Ok(()));
    assert_eq!(store.add(lease(1, "alicf", 1000, 60)), Ok(()));
    assert_eq!(store.database().items.len(), 5);
}

#[test]
fn remove_takes_out_the_equal_lease_only() {
    let mut store = lenient();
    store.add(lease(1, "alice", 1000, 60)).unwrap();
    store.add(lease(2, "bob", 1000, 60)).unwrap();
    assert_eq!(store.remove(&lease(1, "alice", 1001, 60)), Err(StoreError::NotFound));
    assert_eq!(store.database().items.len(), 2);
    assert_eq!(store.remove(&lease(1, "alice", 1000, 60)), Ok(()));
    assert_eq!(store.database().items.len(), 1);
    assert_eq!(store.query_by_account("alice"), Err(StoreError::NotFound));
    assert_eq!(store.query_by_account("bob"), Ok(lease(2, "bob", 1000, 60)));
    assert_eq!(store.remove(&lease(1, "alice", 1000, 60)), Err(StoreError::NotFound));
}

#[test]
fn store_takes_over_what_the_database_holds() {
    let mut db = tinydb::Database::new("leases", None, false);
    db.add_item((
        7u128,
        String::from("gina"),
        Some(String::from("digest")),
        vec![[127u8, 0, 0, 1]],
        vec![[2u8; 16]],
        1234i64,
        60u64,
    ))
    .unwrap();
    let store = LeaseStore::from_database(db);
    let found = store.query_by_account("gina").unwrap();
    assert_eq!(found.client_info.id, 7);
    assert_eq!(found.client_info.account, "gina");
    assert_eq!(found.client_info.passwd, Some(String::from("digest")));
    assert_eq!(found.client_info.ipv4s, vec![[127, 0, 0, 1]]);
    assert_eq!(found.client_info.ipv6s, vec![[2u8; 16]]);
    assert_eq!(found.record_time, 1234);
    assert_eq!(found.lifetime, 60);
}
