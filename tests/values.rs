use genny::database::Database;
use genny::fuel::{ElementShard, RawElement};
use genny::util::DateTime;

#[test]
fn fuel_lasts_count_times_duration() {
    assert_eq!(RawElement { count: 3 }.lasts_until(64800), Some(194400));
    assert_eq!(ElementShard { count: 10 }.lasts_until(6), Some(60));
    assert_eq!(RawElement { count: 0 }.lasts_until(64800), Some(0));
}

#[test]
fn fuel_duration_that_overflows_is_none() {
    assert_eq!(RawElement { count: 2 }.lasts_until(u64::MAX), None);
    assert_eq!(ElementShard { count: u32::MAX }.lasts_until(u64::MAX / 2), None);
    assert_eq!(RawElement { count: 1 }.lasts_until(u64::MAX), Some(u64::MAX));
}

#[test]
fn date_time_from_timestamp_and_order() {
    let a = DateTime::from(5);
    let b: DateTime = 7i64.into();
    assert_eq!(a.timestamp, 5);
    assert!(a < b);
}

#[test]
fn date_time_from_millis() {
    assert_eq!(DateTime::from_unix_millis(1_000), Some(DateTime { timestamp: 1_000 }));
    assert_eq!(DateTime::from_unix_millis(i64::MAX as u128), Some(DateTime { timestamp: i64::MAX }));
    assert_eq!(DateTime::from_unix_millis(i64::MAX as u128 + 1), None);
}

#[test]
fn transaction_on_database_handle() {
    Database.start_trx();
}
