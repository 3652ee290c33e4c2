use artemis::probe::{
    exceeds_placeholder, fresh_timestamp, get_last_updated_header, Probe, PLACEHOLDER_SIZE,
};
use artemis::timestamp::Timestamp;

const JAN_10: &str = "Wed, 10 Jan 2024 00:00:00 GMT";

#[test]
fn a_placeholder_sized_reply_gives_no_update_whatever_its_time() {
    assert_eq!(get_last_updated_header(Some("150"), Some(JAN_10)), None);
}

#[test]
fn the_threshold_itself_counts_as_placeholder() {
    assert_eq!(PLACEHOLDER_SIZE, 211);
    assert_eq!(get_last_updated_header(Some("211"), Some(JAN_10)), None);
    assert_eq!(
        get_last_updated_header(Some("212"), Some(JAN_10)),
        Some(Timestamp { secs: 1704844800, nanos: 0 })
    );
}

#[test]
fn a_real_dump_gives_the_time_of_its_last_change() {
    assert_eq!(
        get_last_updated_header(Some("178324551"), Some("Sun, 07 Jan 2024 12:34:56 GMT")),
        Some(Timestamp { secs: 1704585600 + 12 * 3600 + 34 * 60 + 56, nanos: 0 })
    );
    assert_eq!(
        get_last_updated_header(Some("5000"), Some("Wed, 10 Jan 2024 02:00:00 +0200")),
        Some(Timestamp { secs: 1704844800, nanos: 0 })
    );
}

#[test]
fn a_dump_larger_than_two_gibibytes_still_counts_as_content() {
    assert_eq!(
        get_last_updated_header(Some("3000000000"), Some(JAN_10)),
        Some(Timestamp { secs: 1704844800, nanos: 0 })
    );
}

#[test]
fn a_missing_or_unreadable_size_counts_as_zero() {
    assert_eq!(get_last_updated_header(None, Some(JAN_10)), None);
    assert_eq!(get_last_updated_header(Some("many"), Some(JAN_10)), None);
    assert_eq!(get_last_updated_header(Some(""), Some(JAN_10)), None);
    assert_eq!(get_last_updated_header(Some("-5000"), Some(JAN_10)), None);
    assert!(!exceeds_placeholder(None));
    assert!(exceeds_placeholder(Some("212")));
}

#[test]
fn a_missing_or_unreadable_time_is_never_made_up() {
    assert_eq!(get_last_updated_header(Some("5000"), None), None);
    assert_eq!(get_last_updated_header(Some("5000"), Some("2024-01-10T00:00:00Z")), None);
    assert_eq!(get_last_updated_header(Some("5000"), Some("")), None);
}

#[test]
fn a_leap_second_keeps_its_place_after_the_second_before() {
    let before = get_last_updated_header(Some("5000"), Some("Sat, 31 Dec 2016 23:59:59 GMT")).unwrap();
    let leap = get_last_updated_header(Some("5000"), Some("Sat, 31 Dec 2016 23:59:60 GMT")).unwrap();
    let after = get_last_updated_header(Some("5000"), Some("Sun, 01 Jan 2017 00:00:00 GMT")).unwrap();
    assert_eq!(leap, Timestamp { secs: before.secs, nanos: 1_000_000_000 });
    assert!(leap.is_after(&before));
    assert!(after.is_after(&leap));
    assert!(leap > before && after > leap);
}

#[test]
fn the_decision_needs_content_and_a_time() {
    let t = Timestamp::new(5, 6);
    assert_eq!(fresh_timestamp(Some("212"), Some(t)), Some(t));
    assert_eq!(fresh_timestamp(Some("212"), None), None);
    assert_eq!(fresh_timestamp(Some("150"), Some(t)), None);
    assert_eq!(fresh_timestamp(Some("211"), Some(t)), None);
    assert_eq!(fresh_timestamp(None, Some(t)), None);
    assert_eq!(fresh_timestamp(None, None), None);
}

#[test]
fn an_unreachable_dump_gives_no_signal() {
    assert_eq!(Probe::Unreachable.result(), None);
    let reply = Probe::Reply {
        content_length: Some("5000".to_string()),
        last_modified: Some(JAN_10.to_string()),
    };
    assert_eq!(reply.result(), Some(Timestamp::from_secs(1704844800)));
    let placeholder = Probe::Reply {
        content_length: Some("150".to_string()),
        last_modified: Some(JAN_10.to_string()),
    };
    assert_eq!(placeholder.result(), None);
    let silent = Probe::Reply { content_length: None, last_modified: None };
    assert_eq!(silent.result(), None);
}

#[test]
fn instants_order_by_seconds_then_nanoseconds() {
    let a = Timestamp::new(10, 5);
    let b = Timestamp::new(10, 6);
    let c = Timestamp::new(11, 0);
    let d = Timestamp::new(-1, 999_999_999);
    assert!(b.is_after(&a) && !a.is_after(&b) && !a.is_after(&a));
    assert!(c.is_after(&b) && !b.is_after(&c));
    assert!(a.is_after(&d) && !d.is_after(&a));
    assert_eq!(Timestamp::from_secs(3), Timestamp { secs: 3, nanos: 0 });
}
