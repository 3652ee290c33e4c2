use artemis::meta::{
    get_last_update, insert_update, JournalError, UpdateType, INSERT_UPDATE_SQL, LAST_DAILY_SQL,
    LAST_UPDATE_SQL, LAST_WEEKLY_SQL,
};
use artemis::query::{search_limit, DEFAULT_LIMIT, MAX_LIMIT};
use artemis::timestamp::Timestamp;
use artemis::types::Update;

fn at(seconds: i64) -> Timestamp {
    Timestamp::from_secs(seconds)
}

#[test]
fn an_empty_journal_holds_no_update() {
    let journal = Vec::new();
    assert_eq!(get_last_update(&journal, UpdateType::Any), None);
    assert_eq!(get_last_update(&journal, UpdateType::Weekly), None);
    assert_eq!(get_last_update(&journal, UpdateType::Daily), None);
}

#[test]
fn the_journal_numbers_its_records_as_they_come() {
    let mut journal = Vec::new();
    assert_eq!(insert_update(&mut journal, &Update::weekly(at(100))), Ok(()));
    assert_eq!(insert_update(&mut journal, &Update::daily(at(200))), Ok(()));
    assert_eq!(insert_update(&mut journal, &Update::daily(at(300))), Ok(()));
    assert_eq!(
        journal,
        vec![
            Update { id: 1, daily: false, weekly: true, date: at(100) },
            Update { id: 2, daily: true, weekly: false, date: at(200) },
            Update { id: 3, daily: true, weekly: false, date: at(300) },
        ]
    );
}

#[test]
fn the_latest_record_of_each_kind_is_found() {
    let mut journal = Vec::new();
    for update in [
        Update::weekly(at(100)),
        Update::daily(at(200)),
        Update::daily(at(300)),
        Update::weekly(at(250)),
    ] {
        insert_update(&mut journal, &update).unwrap();
    }
    assert_eq!(
        get_last_update(&journal, UpdateType::Any),
        Some(Update { id: 4, daily: false, weekly: true, date: at(250) })
    );
    assert_eq!(
        get_last_update(&journal, UpdateType::Weekly),
        Some(Update { id: 4, daily: false, weekly: true, date: at(250) })
    );
    assert_eq!(
        get_last_update(&journal, UpdateType::Daily),
        Some(Update { id: 3, daily: true, weekly: false, date: at(300) })
    );
}

#[test]
fn the_latest_record_is_the_one_with_the_greatest_identifier() {
    let journal = vec![
        Update { id: 7, daily: true, weekly: false, date: at(1) },
        Update { id: 9, daily: false, weekly: true, date: at(2) },
        Update { id: 8, daily: true, weekly: false, date: at(3) },
        Update { id: 9, daily: true, weekly: false, date: at(4) },
        Update { id: 2, daily: true, weekly: true, date: at(5) },
    ];
    assert_eq!(get_last_update(&journal, UpdateType::Any), Some(journal[3]));
    assert_eq!(get_last_update(&journal, UpdateType::Daily), Some(journal[3]));
    assert_eq!(get_last_update(&journal, UpdateType::Weekly), Some(journal[1]));
}

#[test]
fn a_journal_at_its_last_identifier_takes_no_more() {
    let mut journal = vec![Update { id: u32::MAX, daily: true, weekly: false, date: at(1) }];
    let before = journal.clone();
    assert_eq!(insert_update(&mut journal, &Update::daily(at(2))), Err(JournalError::Full));
    assert_eq!(journal, before);
}

#[test]
fn the_records_to_write_carry_their_kind_and_a_placeholder() {
    assert_eq!(Update::weekly(at(5)), Update { id: 0, daily: false, weekly: true, date: at(5) });
    assert_eq!(Update::daily(at(5)), Update { id: 0, daily: true, weekly: false, date: at(5) });
    assert!(UpdateType::Daily.includes(&Update::daily(at(5))));
    assert!(!UpdateType::Daily.includes(&Update::weekly(at(5))));
    assert!(UpdateType::Weekly.includes(&Update::weekly(at(5))));
    assert!(!UpdateType::Weekly.includes(&Update::daily(at(5))));
    assert!(UpdateType::Any.includes(&Update::daily(at(5))));
}

#[test]
fn each_kind_of_query_has_its_statement() {
    assert_eq!(UpdateType::Daily.query(), LAST_DAILY_SQL);
    assert_eq!(UpdateType::Weekly.query(), LAST_WEEKLY_SQL);
    assert_eq!(UpdateType::Any.query(), LAST_UPDATE_SQL);
    assert_eq!(LAST_DAILY_SQL, "SELECT * FROM updates WHERE daily = 1 ORDER BY id DESC LIMIT 1");
    assert_eq!(LAST_WEEKLY_SQL, "SELECT * FROM updates WHERE weekly = 1 ORDER BY id DESC LIMIT 1");
    assert_eq!(LAST_UPDATE_SQL, "SELECT * FROM updates ORDER BY id DESC LIMIT 1");
    assert_eq!(INSERT_UPDATE_SQL, "INSERT INTO updates (daily, weekly, date) VALUES (?, ?, ?)");
}

#[test]
fn a_search_returns_twenty_rows_unless_asked_and_never_over_a_hundred() {
    assert_eq!(DEFAULT_LIMIT, 20);
    assert_eq!(MAX_LIMIT, 100);
    assert_eq!(search_limit(None), 20);
    assert_eq!(search_limit(Some(0)), 0);
    assert_eq!(search_limit(Some(5)), 5);
    assert_eq!(search_limit(Some(100)), 100);
    assert_eq!(search_limit(Some(101)), 100);
    assert_eq!(search_limit(Some(u32::MAX)), 100);
}
