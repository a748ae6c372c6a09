use memkv::entry::Data;
use memkv::store::DataStorage;
use std::time::{SystemTime, UNIX_EPOCH};

fn record(value: &str, ttl: i128, inserted_at: u64) -> Data {
    Data::new_at(7, value.len() as u128, String::from(value), ttl, inserted_at)
}

fn clock() -> u64 {
    SystemTime::now().duration_since(UNIX_EPOCH).expect("clock after the epoch").as_secs()
}

#[test]
fn get_returns_what_insert_stored() {
    let mut storage = DataStorage::new();
    let previous = storage.insert("k", Data::new_at(7, 5, String::from("hello"), 0, 100));
    assert!(previous.is_none());
    let found = storage.get_at("k", 1_000_000).expect("a record without expiry stays");
    assert_eq!(found.flags, 7);
    assert_eq!(found.byte_count, 5);
    assert_eq!(found.data_block, "hello");
    assert_eq!(found.inserted_at, 100);
    assert_eq!(found.expiry_sec, 0);
}

#[test]
fn empty_store_finds_nothing() {
    let mut storage = DataStorage::new();
    assert!(storage.get_at("k", 0).is_none());
    assert!(!storage.key_exists_at("k", 0));
    assert!(storage.remove("k").is_none());
}

#[test]
fn repeated_gets_keep_returning_an_unexpiring_record() {
    let mut storage = DataStorage::new();
    storage.insert("k", record("v", 0, 10));
    for now in [0u64, 10, 11, 1_000_000, u64::MAX] {
        assert_eq!(storage.get_at("k", now), Some(&record("v", 0, 10)));
    }
}

#[test]
fn keys_are_case_sensitive_and_independent() {
    let mut storage = DataStorage::new();
    storage.insert("key", record("lower", 0, 1));
    storage.insert("KEY", record("upper", 0, 1));
    assert_eq!(storage.get_at("key", 5).expect("stored").data_block, "lower");
    assert_eq!(storage.get_at("KEY", 5).expect("stored").data_block, "upper");
    assert!(storage.get_at("Key", 5).is_none());
    storage.remove("key");
    assert!(storage.get_at("key", 5).is_none());
    assert_eq!(storage.get_at("KEY", 5).expect("stored").data_block, "upper");
}

#[test]
fn insert_overwrites_and_hands_back_the_previous_record() {
    let mut storage = DataStorage::new();
    assert_eq!(storage.insert("k", record("one", 0, 1)), None);
    assert_eq!(storage.insert("k", record("two", 0, 2)), Some(record("one", 0, 1)));
    assert_eq!(storage.get_at("k", 3), Some(&record("two", 0, 2)));
}

#[test]
fn insert_hands_back_an_expired_record_too() {
    let mut storage = DataStorage::new();
    storage.insert("k", record("old", -1, 1));
    assert_eq!(storage.insert("k", record("new", 0, 2)), Some(record("old", -1, 1)));
}

#[test]
fn remove_deletes_and_hands_back_the_record() {
    let mut storage = DataStorage::new();
    storage.insert("k", record("v", 0, 1));
    assert_eq!(storage.remove("k"), Some(record("v", 0, 1)));
    assert_eq!(storage.remove("k"), None);
    assert!(storage.get_at("k", 1).is_none());
}

#[test]
fn get_hits_until_the_ttl_has_passed_and_misses_after() {
    let mut storage = DataStorage::new();
    storage.insert("k", record("v", 10, 100));
    assert!(storage.get_at("k", 100).is_some());
    assert!(storage.get_at("k", 109).is_some());
    assert!(storage.get_at("k", 110).is_some());
    assert!(storage.get_at("k", 111).is_none());
}

#[test]
fn one_late_get_removes_the_record_for_good() {
    let mut storage = DataStorage::new();
    storage.insert("k", record("v", 10, 100));
    assert!(storage.get_at("k", 500).is_none());
    assert!(storage.get_at("k", 100).is_none());
    assert!(storage.get_at("k", 0).is_none());
    assert_eq!(storage.remove("k"), None);
}

#[test]
fn unread_expired_record_stays_until_it_is_looked_up() {
    let mut storage = DataStorage::new();
    storage.insert("k", record("v", 10, 100));
    storage.insert("other", record("w", 0, 100));
    assert!(storage.get_at("other", 500).is_some());
    assert_eq!(storage.remove("k"), Some(record("v", 10, 100)));
}

#[test]
fn negative_ttl_is_never_found() {
    let mut storage = DataStorage::new();
    storage.insert("k", record("v", -1, 100));
    assert!(storage.get_at("k", 100).is_none());
    assert_eq!(storage.remove("k"), None);
}

#[test]
fn key_exists_follows_get() {
    let mut storage = DataStorage::new();
    storage.insert("k", record("v", 10, 100));
    assert!(storage.key_exists_at("k", 110));
    assert!(!storage.key_exists_at("missing", 110));
    assert!(!storage.key_exists_at("k", 111));
    assert!(!storage.key_exists_at("k", 100));
}

#[test]
fn add_stores_only_under_a_key_that_is_not_live() {
    let mut storage = DataStorage::new();
    assert!(storage.add_at("k", record("first", 0, 1), 1));
    assert!(!storage.add_at("k", record("second", 0, 2), 2));
    assert_eq!(storage.get_at("k", 3), Some(&record("first", 0, 1)));
}

#[test]
fn add_takes_the_place_of_an_expired_record() {
    let mut storage = DataStorage::new();
    storage.insert("k", record("old", 5, 100));
    assert!(!storage.add_at("k", record("early", 0, 105), 105));
    assert!(storage.add_at("k", record("late", 0, 106), 106));
    assert_eq!(storage.get_at("k", 107), Some(&record("late", 0, 106)));
}

#[test]
fn replace_stores_only_under_a_live_key() {
    let mut storage = DataStorage::new();
    assert!(!storage.replace_at("k", record("none", 0, 1), 1));
    assert!(storage.get_at("k", 1).is_none());
    assert_eq!(storage.remove("k"), None);
    storage.insert("k", record("first", 0, 1));
    assert!(storage.replace_at("k", record("second", 0, 2), 2));
    assert_eq!(storage.get_at("k", 3), Some(&record("second", 0, 2)));
}

#[test]
fn replace_of_an_expired_record_fails_and_removes_it() {
    let mut storage = DataStorage::new();
    storage.insert("k", record("old", 5, 100));
    assert!(!storage.replace_at("k", record("new", 0, 200), 200));
    assert_eq!(storage.remove("k"), None);
}

#[test]
fn many_writers_leave_one_whole_record() {
    let mut storage = DataStorage::new();
    let values = ["a", "bb", "ccc", "dddd", "eeeee"];
    for (i, value) in values.iter().enumerate() {
        storage.insert("k", Data::new_at(i as u16, value.len() as u128, String::from(*value), 0, 1));
    }
    let found = storage.get_at("k", 2).expect("one record stays");
    assert_eq!(found.data_block, "eeeee");
    assert_eq!(found.flags, 4);
    assert_eq!(found.byte_count, found.data_block.len() as u128);
    assert!(values.contains(&found.data_block.as_str()));
}

#[test]
fn clock_reading_operations_agree_with_the_clock() {
    let now = clock();
    let mut storage = DataStorage::new();
    storage.insert("fresh", Data::new(1, 5, String::from("fresh"), 3_600));
    storage.insert("stale", record("stale", 1, now - 100));
    storage.insert("never", record("never", 0, 0));
    storage.insert("gone", record("gone", -1, now));
    assert_eq!(storage.get("fresh").expect("within its hour").data_block, "fresh");
    assert!(storage.get("stale").is_none());
    assert_eq!(storage.remove("stale"), None);
    assert!(storage.key_exists("never"));
    assert!(!storage.key_exists("gone"));
    assert!(!storage.key_exists("missing"));
    assert!(!storage.add("never", record("again", 0, now)));
    assert!(storage.add("missing", record("added", 0, now)));
    assert!(storage.replace("missing", record("replaced", 0, now)));
    assert!(!storage.replace("absent", record("x", 0, now)));
    assert_eq!(storage.get("missing").expect("replaced").data_block, "replaced");
}
