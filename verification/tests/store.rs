use wpressforge::agent::ops::site::make_record;
use wpressforge::agent::store::{SiteRecord, Store};
use wpressforge::common::error::Error;
use wpressforge::common::models::{CacheSettings, DatabaseMode, PhpVersion, ResourceLimits};

fn record(site_id: i64, uid: u32) -> SiteRecord {
    make_record(
        site_id,
        "example.com",
        uid,
        PhpVersion::Php84,
        DatabaseMode::Shared,
        ResourceLimits::default(),
        CacheSettings::default(),
    )
}

#[test]
fn what_was_put_is_there_until_it_is_removed() {
    let mut store = Store::new();
    assert!(matches!(store.get(1), Err(Error::NotFound(_))));
    store.put(record(1, 10001));
    store.put(record(2, 10007));
    store.put(record(1, 10003));
    assert_eq!(store.len(), 2);
    assert_eq!(store.get(1).expect("site").uid, 10003);
    store.remove(1);
    assert_eq!(store.len(), 1);
    assert!(store.get(1).is_err());
    assert_eq!(store.all().len(), 1);
}

#[test]
fn new_users_get_the_first_free_id() {
    let mut store = Store::new();
    assert_eq!(store.next_uid(10001), 10001);
    store.put(record(1, 10001));
    store.put(record(2, 10007));
    assert_eq!(store.next_uid(10001), 10002);
    assert_eq!(store.next_uid(10007), 10008);
    assert_eq!(store.next_uid(20000), 20000);
    assert_eq!(store.next_uid(u32::MAX), u32::MAX);
    assert_eq!(store.find_uid(u32::MAX), Some(u32::MAX));
    store.put(record(3, u32::MAX));
    assert_eq!(store.find_uid(u32::MAX), None);
}

#[test]
fn a_site_names_its_container_and_its_database() {
    let site = record(1, 10001);
    assert_eq!(site.db_name, "wp_example_com");
    assert_eq!(site.container_name(), "wp-example-com");
    assert_eq!(site.domains, vec!["example.com"]);
}

#[test]
fn every_site_has_a_uid_of_its_own() {
    let mut store = Store::new();
    for id in [5, 3, 9, 4] {
        let uid = store.next_uid(10001);
        store.put(record(id, uid));
    }
    store.remove(3);
    let uid = store.next_uid(10001);
    store.put(record(12, uid));
    let mut uids: Vec<u32> = store.all().iter().map(|site| site.uid).collect();
    uids.sort();
    uids.dedup();
    assert_eq!(uids, vec![10001, 10002, 10003, 10004]);
}
