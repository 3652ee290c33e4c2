use artemis::probe::Probe;
use artemis::timestamp::Timestamp;
use artemis::updates::{
    Dump, FccUpdates, FRIDAY_DUMP_URL, MONDAY_DUMP_URL, SATURDAY_DUMP_URL, SUNDAY_DUMP_URL,
    THURSDAY_DUMP_URL, TUESDAY_DUMP_URL, WEDNESDAY_DUMP_URL, WEEKLY_DUMP_URL,
};

fn day(seconds: i64) -> Option<Timestamp> {
    Some(Timestamp::from_secs(seconds))
}

fn nothing() -> FccUpdates {
    FccUpdates {
        weekly: None,
        sunday: None,
        monday: None,
        tuesday: None,
        wednesday: None,
        thursday: None,
        friday: None,
        saturday: None,
    }
}

const JAN_8: i64 = 1704672000;
const JAN_10: i64 = 1704844800;
const JAN_11: i64 = 1704931200;
const JAN_12: i64 = 1705017600;

#[test]
fn newer_dumps_come_out_earliest_first_and_older_ones_not_at_all() {
    let updates = FccUpdates {
        monday: day(JAN_8),
        tuesday: None,
        wednesday: day(JAN_12),
        thursday: day(JAN_11),
        ..nothing()
    };
    let pending = updates.get_pending(Timestamp::from_secs(JAN_10));
    assert_eq!(
        pending,
        vec![
            (Timestamp::from_secs(JAN_11), THURSDAY_DUMP_URL.to_string()),
            (Timestamp::from_secs(JAN_12), WEDNESDAY_DUMP_URL.to_string()),
        ]
    );
    assert_eq!(
        updates.pending_dumps(Timestamp::from_secs(JAN_10)),
        vec![
            (Timestamp::from_secs(JAN_11), Dump::Thursday),
            (Timestamp::from_secs(JAN_12), Dump::Wednesday),
        ]
    );
}

#[test]
fn a_dump_at_the_watermark_is_not_pending() {
    let updates = FccUpdates { friday: day(JAN_10), ..nothing() };
    assert!(updates.get_pending(Timestamp::from_secs(JAN_10)).is_empty());
    assert_eq!(updates.get_pending(Timestamp::from_secs(JAN_10 - 1)).len(), 1);
    assert_eq!(
        updates.get_pending(Timestamp { secs: JAN_10 - 1, nanos: 999_999_999 }).len(),
        1
    );
}

#[test]
fn the_weekly_dump_is_never_in_the_queue() {
    let updates = FccUpdates { weekly: day(JAN_12), ..nothing() };
    assert!(updates.get_pending(Timestamp::from_secs(0)).is_empty());
}

#[test]
fn dumps_of_the_same_time_keep_the_order_of_their_days() {
    let updates = FccUpdates {
        sunday: day(JAN_11),
        monday: day(JAN_12),
        tuesday: day(JAN_11),
        wednesday: day(JAN_10),
        thursday: day(JAN_11),
        friday: day(JAN_12),
        saturday: day(JAN_8),
        ..nothing()
    };
    let queue = updates.pending_dumps(Timestamp::from_secs(JAN_8));
    assert_eq!(
        queue,
        vec![
            (Timestamp::from_secs(JAN_10), Dump::Wednesday),
            (Timestamp::from_secs(JAN_11), Dump::Sunday),
            (Timestamp::from_secs(JAN_11), Dump::Tuesday),
            (Timestamp::from_secs(JAN_11), Dump::Thursday),
            (Timestamp::from_secs(JAN_12), Dump::Monday),
            (Timestamp::from_secs(JAN_12), Dump::Friday),
        ]
    );
}

#[test]
fn the_queue_is_the_stable_sort_of_the_newer_dumps() {
    let times = [3i64, 9, 4, 9, 1, 7, 4];
    for mark in 0..10i64 {
        for rotate in 0..7usize {
            let t: Vec<i64> = (0..7).map(|i| times[(i + rotate) % 7]).collect();
            let updates = FccUpdates {
                weekly: day(100),
                sunday: day(t[0]),
                monday: day(t[1]),
                tuesday: if rotate % 2 == 0 { None } else { day(t[2]) },
                wednesday: day(t[3]),
                thursday: day(t[4]),
                friday: day(t[5]),
                saturday: day(t[6]),
            };
            let urls = [
                SUNDAY_DUMP_URL,
                MONDAY_DUMP_URL,
                TUESDAY_DUMP_URL,
                WEDNESDAY_DUMP_URL,
                THURSDAY_DUMP_URL,
                FRIDAY_DUMP_URL,
                SATURDAY_DUMP_URL,
            ];
            let shown = [
                updates.sunday,
                updates.monday,
                updates.tuesday,
                updates.wednesday,
                updates.thursday,
                updates.friday,
                updates.saturday,
            ];
            let mut expected: Vec<(Timestamp, String)> = Vec::new();
            for i in 0..7 {
                if let Some(time) = shown[i] {
                    if time > Timestamp::from_secs(mark) {
                        expected.push((time, urls[i].to_string()));
                    }
                }
            }
            expected.sort_by(|a, b| a.0.cmp(&b.0));
            assert_eq!(updates.get_pending(Timestamp::from_secs(mark)), expected);
        }
    }
}

#[test]
fn an_applied_dump_is_proposed_again_only_when_it_shows_a_later_time() {
    let mut updates = FccUpdates { monday: day(JAN_11), tuesday: day(JAN_12), ..nothing() };
    let first = updates.pending_dumps(Timestamp::from_secs(JAN_10));
    assert_eq!(first[0], (Timestamp::from_secs(JAN_11), Dump::Monday));
    let after_monday = updates.pending_dumps(first[0].0);
    assert_eq!(after_monday, vec![(Timestamp::from_secs(JAN_12), Dump::Tuesday)]);
    assert!(updates.pending_dumps(after_monday[0].0).is_empty());
    updates.monday = day(JAN_12 + 86400);
    assert_eq!(
        updates.pending_dumps(after_monday[0].0),
        vec![(Timestamp::from_secs(JAN_12 + 86400), Dump::Monday)]
    );
}

#[test]
fn each_dump_has_its_address() {
    assert_eq!(Dump::Weekly.url(), WEEKLY_DUMP_URL);
    assert_eq!(WEEKLY_DUMP_URL, "https://data.fcc.gov/download/pub/uls/complete/l_amat.zip");
    let days = ["sun", "mon", "tue", "wed", "thu", "fri", "sat"];
    for (i, name) in days.iter().enumerate() {
        assert_eq!(
            Dump::of_day(i).url(),
            format!("https://data.fcc.gov/download/pub/uls/daily/l_am_{}.zip", name)
        );
    }
    assert_eq!(Dump::of_day(0), Dump::Sunday);
    assert_eq!(Dump::of_day(6), Dump::Saturday);
}

#[test]
fn the_probes_of_a_run_are_gathered_dump_by_dump() {
    let reply = |time: &str| Probe::Reply {
        content_length: Some("5000".to_string()),
        last_modified: Some(time.to_string()),
    };
    let small = Probe::Reply {
        content_length: Some("211".to_string()),
        last_modified: Some("Thu, 11 Jan 2024 00:00:00 GMT".to_string()),
    };
    let updates = FccUpdates::new(
        &reply("Sun, 07 Jan 2024 00:00:00 GMT"),
        &Probe::Unreachable,
        &reply("Mon, 08 Jan 2024 00:00:00 GMT"),
        &small,
        &reply("Fri, 12 Jan 2024 00:00:00 GMT"),
        &reply("Thu, 11 Jan 2024 00:00:00 GMT"),
        &reply("not a date"),
        &Probe::Reply { content_length: None, last_modified: None },
    );
    assert_eq!(
        updates,
        FccUpdates {
            weekly: day(1704585600),
            sunday: None,
            monday: day(JAN_8),
            tuesday: None,
            wednesday: day(JAN_12),
            thursday: day(JAN_11),
            friday: None,
            saturday: None,
        }
    );
    assert_eq!(updates.of_day(1), day(JAN_8));
    assert_eq!(updates.of_day(6), None);
}

#[test]
fn a_later_watermark_leaves_the_end_of_the_queue() {
    let updates = FccUpdates {
        weekly: day(50),
        sunday: day(30),
        monday: day(10),
        tuesday: day(30),
        wednesday: None,
        thursday: day(20),
        friday: day(40),
        saturday: day(10),
    };
    for earlier in 0..45i64 {
        for later in earlier..45i64 {
            let long = updates.pending_dumps(Timestamp::from_secs(earlier));
            let short = updates.pending_dumps(Timestamp::from_secs(later));
            assert!(short.len() <= long.len());
            assert_eq!(short[..], long[long.len() - short.len()..]);
        }
    }
    assert_eq!(updates.pending_dumps(Timestamp::from_secs(0)).len(), 6);
    assert_eq!(
        updates.pending_dumps(Timestamp::from_secs(20)),
        vec![
            (Timestamp::from_secs(30), Dump::Sunday),
            (Timestamp::from_secs(30), Dump::Tuesday),
            (Timestamp::from_secs(40), Dump::Friday),
        ]
    );
}
