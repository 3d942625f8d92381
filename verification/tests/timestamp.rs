use fraud_guard::timestamp::{MAX_SECONDS, MIN_SECONDS};
use fraud_guard::Timestamp;

#[test]
fn timestamps_span_what_chrono_holds() {
    assert_eq!(MIN_SECONDS, chrono::DateTime::<chrono::Utc>::MIN_UTC.timestamp());
    assert_eq!(MAX_SECONDS, chrono::DateTime::<chrono::Utc>::MAX_UTC.timestamp());
    assert!(Timestamp::from_timestamp(MIN_SECONDS, 0).is_some());
    assert!(Timestamp::from_timestamp(MIN_SECONDS - 1, 0).is_none());
    assert!(Timestamp::from_timestamp(MAX_SECONDS, 999_999_999).is_some());
    assert!(Timestamp::from_timestamp(MAX_SECONDS + 1, 0).is_none());
    assert!(Timestamp::from_timestamp(i64::MIN, 0).is_none());
    assert!(Timestamp::from_timestamp(i64::MAX, 0).is_none());
}

#[test]
fn timestamps_are_taken_apart_again() {
    for (secs, nanos) in [(1609459200, 0), (-1, 999_999_999), (0, 1), (59, 1_999_999_999), (-1, 1_000_000_000)] {
        let t = Timestamp::from_timestamp(secs, nanos).unwrap();
        assert_eq!(t.timestamp(), secs);
        assert_eq!(t.timestamp_subsec_nanos(), nanos);
    }
}

#[test]
fn leap_seconds_end_a_minute() {
    assert!(Timestamp::from_timestamp(59, 1_000_000_000).is_some());
    assert!(Timestamp::from_timestamp(58, 1_000_000_000).is_none());
    assert!(Timestamp::from_timestamp(-2, 1_000_000_000).is_none());
    assert!(Timestamp::from_timestamp(59, 2_000_000_000).is_none());
}

#[test]
fn timestamps_are_ordered() {
    let a = Timestamp::from_timestamp(10, 5).unwrap();
    let b = Timestamp::from_timestamp(10, 6).unwrap();
    let c = Timestamp::from_timestamp(11, 0).unwrap();
    assert!(a.is_before(&b) && b.is_before(&c) && a.is_before(&c));
    assert!(!b.is_before(&a) && !a.is_before(&a) && !c.is_before(&a));
}
