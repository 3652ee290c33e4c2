use artemis::driver::{needs_baseline, Action, Driver, Event, Phase};
use artemis::meta::{get_last_update, insert_update, UpdateType};
use artemis::timestamp::Timestamp;
use artemis::types::Update;
use artemis::updates::{Dump, FccUpdates};

fn at(seconds: i64) -> Timestamp {
    Timestamp::from_secs(seconds)
}

fn shows(weekly: Option<i64>, days: [Option<i64>; 7]) -> FccUpdates {
    let t = |s: Option<i64>| s.map(Timestamp::from_secs);
    FccUpdates {
        weekly: t(weekly),
        sunday: t(days[0]),
        monday: t(days[1]),
        tuesday: t(days[2]),
        wednesday: t(days[3]),
        thursday: t(days[4]),
        friday: t(days[5]),
        saturday: t(days[6]),
    }
}

fn run(updates: FccUpdates, journal: &mut Vec<Update>, weekly_time: i64) -> (Vec<Action>, Phase) {
    let mut driver = Driver::new(updates, journal);
    let mut trace = Vec::new();
    let mut action = driver.step(Event::Start);
    loop {
        trace.push(action);
        let event = match action {
            Action::LoadBaseline => Event::Loaded { modified: at(weekly_time) },
            Action::LoadDelta(dump) => {
                let time = driver.queue().iter().find(|e| e.1 == dump).unwrap().0;
                Event::Loaded { modified: time }
            }
            Action::Record(update) => {
                insert_update(journal, &update).unwrap();
                Event::Recorded
            }
            Action::Finish | Action::Abort => break,
        };
        action = driver.step(event);
    }
    (trace, driver.phase())
}

#[test]
fn a_store_without_baseline_loads_the_weekly_snapshot_first() {
    let mut journal = Vec::new();
    let updates = shows(Some(700), [None, Some(800), None, Some(600), Some(900), None, None]);
    let driver = Driver::new(updates, &journal);
    assert_eq!(driver.phase(), Phase::NoBaseline);
    assert_eq!(driver.watermark(), None);
    let (trace, phase) = run(updates, &mut journal, 700);
    assert_eq!(
        trace,
        vec![
            Action::LoadBaseline,
            Action::Record(Update { id: 0, daily: false, weekly: true, date: at(700) }),
            Action::LoadDelta(Dump::Monday),
            Action::Record(Update { id: 0, daily: true, weekly: false, date: at(800) }),
            Action::LoadDelta(Dump::Thursday),
            Action::Record(Update { id: 0, daily: true, weekly: false, date: at(900) }),
            Action::Finish,
        ]
    );
    assert_eq!(phase, Phase::Synced);
    assert_eq!(
        journal,
        vec![
            Update { id: 1, daily: false, weekly: true, date: at(700) },
            Update { id: 2, daily: true, weekly: false, date: at(800) },
            Update { id: 3, daily: true, weekly: false, date: at(900) },
        ]
    );
}

#[test]
fn a_current_baseline_is_kept_and_only_the_deltas_are_applied() {
    let mut journal = vec![Update { id: 1, daily: false, weekly: true, date: at(700) }];
    let updates = shows(Some(700), [None, Some(800), None, None, None, None, None]);
    let driver = Driver::new(updates, &journal);
    assert_eq!(driver.phase(), Phase::Synced);
    assert_eq!(driver.watermark(), Some(at(700)));
    let (trace, phase) = run(updates, &mut journal, 0);
    assert_eq!(
        trace,
        vec![
            Action::LoadDelta(Dump::Monday),
            Action::Record(Update { id: 0, daily: true, weekly: false, date: at(800) }),
            Action::Finish,
        ]
    );
    assert_eq!(phase, Phase::Synced);
}

#[test]
fn a_second_run_against_the_same_source_does_nothing() {
    let mut journal = Vec::new();
    let updates = shows(Some(700), [Some(750), Some(800), None, None, None, None, None]);
    run(updates, &mut journal, 700);
    let held = journal.clone();
    let (trace, phase) = run(updates, &mut journal, 700);
    assert_eq!(trace, vec![Action::Finish]);
    assert_eq!(phase, Phase::Synced);
    assert_eq!(journal, held);
}

#[test]
fn a_newer_weekly_snapshot_is_loaded_again() {
    let mut journal = vec![
        Update { id: 1, daily: false, weekly: true, date: at(700) },
        Update { id: 2, daily: true, weekly: false, date: at(800) },
    ];
    let updates = shows(Some(1400), [Some(1350), Some(1500), None, None, None, None, None]);
    let (trace, _) = run(updates, &mut journal, 1400);
    assert_eq!(
        trace,
        vec![
            Action::LoadBaseline,
            Action::Record(Update { id: 0, daily: false, weekly: true, date: at(1400) }),
            Action::LoadDelta(Dump::Monday),
            Action::Record(Update { id: 0, daily: true, weekly: false, date: at(1500) }),
            Action::Finish,
        ]
    );
}

#[test]
fn the_watermark_does_not_fall_over_many_runs() {
    let mut journal = Vec::new();
    let mut marks = Vec::new();
    let sources = [
        shows(Some(700), [None, Some(800), Some(900), None, None, None, None]),
        shows(Some(700), [None, Some(800), Some(900), Some(1000), None, None, None]),
        shows(Some(1400), [None, Some(800), Some(900), Some(1000), None, None, None]),
        shows(Some(1400), [Some(1500), Some(1500), Some(900), Some(1600), None, None, None]),
        shows(None, [None; 7]),
    ];
    for source in sources {
        let weekly = source.weekly.map(|t| t.secs).unwrap_or(0);
        let (_, phase) = run(source, &mut journal, weekly);
        assert_eq!(phase, Phase::Synced);
        marks.push(get_last_update(&journal, UpdateType::Any).unwrap().date);
    }
    assert_eq!(marks, vec![at(900), at(1000), at(1400), at(1600), at(1600)]);
    for pair in marks.windows(2) {
        assert!(pair[0] <= pair[1]);
    }
    for pair in journal.windows(2) {
        assert!(pair[0].date <= pair[1].date);
        assert!(pair[0].id < pair[1].id);
    }
}

#[test]
fn a_failed_load_stops_the_run_and_records_nothing() {
    let journal = vec![Update { id: 1, daily: false, weekly: true, date: at(700) }];
    let updates = shows(Some(700), [None, Some(800), Some(900), None, None, None, None]);
    let mut driver = Driver::new(updates, &journal);
    assert_eq!(driver.step(Event::Start), Action::LoadDelta(Dump::Monday));
    assert_eq!(driver.phase(), Phase::DrainingPending);
    assert_eq!(driver.step(Event::Failed), Action::Abort);
    assert_eq!(driver.phase(), Phase::Failed);
    assert_eq!(driver.watermark(), Some(at(700)));
    assert_eq!(driver.applied(), 0);
    assert_eq!(driver.step(Event::Start), Action::Abort);
    assert_eq!(driver.step(Event::Loaded { modified: at(800) }), Action::Abort);
    assert_eq!(driver.step(Event::Recorded), Action::Abort);
}

#[test]
fn a_failed_baseline_load_stops_the_run() {
    let journal = Vec::new();
    let mut driver = Driver::new(shows(Some(700), [None; 7]), &journal);
    assert_eq!(driver.step(Event::Start), Action::LoadBaseline);
    assert_eq!(driver.phase(), Phase::BaselineLoading);
    assert_eq!(driver.step(Event::Failed), Action::Abort);
    assert_eq!(driver.phase(), Phase::Failed);
}

#[test]
fn an_event_that_answers_nothing_ends_the_run() {
    let journal = vec![Update { id: 1, daily: false, weekly: true, date: at(700) }];
    let updates = shows(Some(700), [None, Some(800), None, None, None, None, None]);
    let mut driver = Driver::new(updates, &journal);
    assert_eq!(driver.step(Event::Recorded), Action::Abort);
    let mut driver = Driver::new(updates, &journal);
    assert_eq!(driver.step(Event::Loaded { modified: at(1) }), Action::Abort);
    let mut driver = Driver::new(updates, &journal);
    assert_eq!(driver.step(Event::Start), Action::LoadDelta(Dump::Monday));
    assert_eq!(driver.step(Event::Recorded), Action::Abort);
    let mut driver = Driver::new(updates, &journal);
    driver.step(Event::Start);
    assert_eq!(
        driver.step(Event::Loaded { modified: at(800) }),
        Action::Record(Update::daily(at(800)))
    );
    assert_eq!(driver.step(Event::Loaded { modified: at(800) }), Action::Abort);
}

#[test]
fn the_next_delta_is_due_only_once_the_record_is_written() {
    let journal = vec![Update { id: 1, daily: false, weekly: true, date: at(700) }];
    let updates = shows(None, [Some(900), Some(800), None, None, None, None, None]);
    let mut driver = Driver::new(updates, &journal);
    assert_eq!(driver.step(Event::Start), Action::LoadDelta(Dump::Monday));
    assert_eq!(driver.queue(), &vec![(at(800), Dump::Monday), (at(900), Dump::Sunday)]);
    assert_eq!(driver.applied(), 0);
    assert_eq!(
        driver.step(Event::Loaded { modified: at(800) }),
        Action::Record(Update::daily(at(800)))
    );
    assert_eq!(driver.watermark(), Some(at(700)));
    assert_eq!(driver.step(Event::Recorded), Action::LoadDelta(Dump::Sunday));
    assert_eq!(driver.watermark(), Some(at(800)));
    assert_eq!(driver.applied(), 1);
    assert_eq!(
        driver.step(Event::Loaded { modified: at(900) }),
        Action::Record(Update::daily(at(900)))
    );
    assert_eq!(driver.step(Event::Recorded), Action::Finish);
    assert_eq!(driver.watermark(), Some(at(900)));
    assert_eq!(driver.applied(), 2);
    assert_eq!(driver.phase(), Phase::Synced);
}

#[test]
fn the_baseline_is_due_when_none_is_held_or_a_newer_one_is_shown() {
    let held = Update { id: 3, daily: false, weekly: true, date: at(700) };
    assert!(needs_baseline(None, None));
    assert!(needs_baseline(Some(at(1)), None));
    assert!(!needs_baseline(None, Some(held)));
    assert!(!needs_baseline(Some(at(700)), Some(held)));
    assert!(!needs_baseline(Some(at(699)), Some(held)));
    assert!(needs_baseline(Some(at(701)), Some(held)));
    assert!(needs_baseline(Some(Timestamp::new(700, 1)), Some(held)));
}
