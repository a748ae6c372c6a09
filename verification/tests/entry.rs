use memkv::entry::Data;
use std::time::{SystemTime, UNIX_EPOCH};

fn record(ttl: i128, inserted_at: u64) -> Data {
    Data::new_at(3, 4, String::from("data"), ttl, inserted_at)
}

fn clock() -> u64 {
    SystemTime::now().duration_since(UNIX_EPOCH).expect("clock after the epoch").as_secs()
}

#[test]
fn new_at_keeps_every_field() {
    let data = Data::new_at(65535, u128::MAX, String::from("payload"), i128::MIN, 42);
    assert_eq!(data.flags, 65535);
    assert_eq!(data.byte_count, u128::MAX);
    assert_eq!(data.data_block, "payload");
    assert_eq!(data.inserted_at, 42);
    assert_eq!(data.expiry_sec, i128::MIN);
}

#[test]
fn zero_ttl_never_expires() {
    let data = record(0, 1_000);
    assert!(!data.is_expired_at(0));
    assert!(!data.is_expired_at(1_000));
    assert!(!data.is_expired_at(u64::MAX));
}

#[test]
fn negative_ttl_is_expired_at_once() {
    let data = record(-1, 1_000);
    assert!(data.is_expired_at(0));
    assert!(data.is_expired_at(1_000));
    assert!(data.is_expired_at(u64::MAX));
    assert!(record(i128::MIN, 1_000).is_expired_at(1_000));
}

#[test]
fn positive_ttl_expires_strictly_after_it() {
    let data = record(10, 1_000);
    assert!(!data.is_expired_at(1_000));
    assert!(!data.is_expired_at(1_009));
    assert!(!data.is_expired_at(1_010));
    assert!(data.is_expired_at(1_011));
    assert!(data.is_expired_at(u64::MAX));
}

#[test]
fn clock_before_insertion_counts_as_no_time_passed() {
    let data = record(1, 1_000);
    assert!(!data.is_expired_at(999));
    assert!(!data.is_expired_at(0));
}

#[test]
fn ttl_beyond_any_clock_never_runs_out() {
    let data = record(i128::MAX, 0);
    assert!(!data.is_expired_at(u64::MAX));
    let wide = record(u64::MAX as i128, 0);
    assert!(!wide.is_expired_at(u64::MAX));
    let tight = record(u64::MAX as i128 - 1, 0);
    assert!(tight.is_expired_at(u64::MAX));
}

#[test]
fn new_stamps_the_current_time() {
    let before = clock();
    let data = Data::new(1, 2, String::from("now"), 30);
    let after = clock();
    assert!(before <= data.inserted_at && data.inserted_at <= after);
    assert!(data.inserted_at > 1_600_000_000);
    assert_eq!(data.flags, 1);
    assert_eq!(data.byte_count, 2);
    assert_eq!(data.data_block, "now");
    assert_eq!(data.expiry_sec, 30);
}

#[test]
fn is_expired_reads_the_clock() {
    let now = clock();
    assert!(!Data::new(0, 0, String::new(), 3_600).is_expired());
    assert!(!record(0, 0).is_expired());
    assert!(record(-5, now).is_expired());
    assert!(record(1, now - 100).is_expired());
    assert!(!record(1_000, now - 100).is_expired());
}

#[test]
fn clone_copies_the_record() {
    let data = record(9, 77);
    let copy = data.clone();
    assert_eq!(copy, data);
}
