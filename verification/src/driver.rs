//! The synchronization driver: the decisions of one run, as a machine that
//! is told what happened and says what to do next.
//!
//! A run first makes sure that the store holds a current weekly baseline,
//! then applies the pending daily deltas, earliest first. The program that
//! runs the machine does the downloads, the loads and the writes to the
//! journal; the machine decides which of them is due, and never lets an
//! update be recorded before its load has succeeded.

use crate::meta::{
    appended, get_last_update, last_update, lemma_appended, next_id, rising, watermark, UpdateType,
};
use crate::timestamp::Timestamp;
use crate::types::Update;
use crate::updates::{lemma_pending_after, lemma_queue, ordered, Dump, Entry, FccUpdates};
use vstd::prelude::*;

verus! {

/// Where a run stands.
#[derive(Clone, Copy, Debug, PartialEq, Eq, Structural)]
pub enum Phase {
    /// The store holds no weekly baseline, or one older than the source's.
    NoBaseline,
    /// The weekly snapshot is being loaded, or its record written.
    BaselineLoading,
    /// The baseline is current and no delta is being applied.
    Synced,
    /// The pending deltas are being applied, earliest first.
    DrainingPending,
    /// The run has failed. Nothing more is loaded or recorded.
    Failed,
}

/// What the program tells the machine.
#[derive(Clone, Copy, Debug, PartialEq, Eq, Structural)]
pub enum Event {
    /// The run begins.
    Start,
    /// The load that was due has been committed for every table; the
    /// source last modified the dump at `modified`.
    Loaded { modified: Timestamp },
    /// The record that was due has been written to the journal.
    Recorded,
    /// What was due has failed.
    Failed,
}

/// What the machine tells the program to do.
#[derive(Clone, Copy, Debug, PartialEq, Eq, Structural)]
pub enum Action {
    /// Fetch the weekly snapshot and the reference table, and load every
    /// table with the table emptied first.
    LoadBaseline,
    /// Fetch the daily delta and load every table, appending.
    LoadDelta(Dump),
    /// Append the record to the journal.
    Record(Update),
    /// End the run: the store is in step with the source.
    Finish,
    /// End the run with a failure.
    Abort,
}

/// The machine of one run.
#[derive(Debug)]
pub struct Driver {
    phase: Phase,
    updates: FccUpdates,
    watermark: Option<Timestamp>,
    recording: Option<Timestamp>,
    queue: Vec<Entry>,
    next: usize,
}

/// What the machine is: the model of `Driver`.
pub struct DriverModel {
    pub phase: Phase,
    /// What the dumps said of themselves when the run began.
    pub updates: FccUpdates,
    /// The time of the latest record that the journal is known to hold.
    pub watermark: Option<Timestamp>,
    /// The time of the record that is being written, if one is.
    pub recording: Option<Timestamp>,
    /// The deltas of this run, earliest first.
    pub queue: Seq<Entry>,
    /// How many deltas of the queue have been applied and recorded.
    pub next: int,
}

impl View for Driver {
    type V = DriverModel;

    closed spec fn view(&self) -> DriverModel {
        DriverModel {
            phase: self.phase,
            updates: self.updates,
            watermark: self.watermark,
            recording: self.recording,
            queue: self.queue@,
            next: self.next as int,
        }
    }
}

/// Whether the store needs the weekly snapshot: it holds none, or the
/// source shows one that is later than the one it holds.
pub open spec fn baseline_due(probed: Option<Timestamp>, last_weekly: Option<Update>) -> bool {
    match last_weekly {
        None => true,
        Some(held) => probed is Some && probed->0.after(held.date),
    }
}

/// The machine at the start of a run, given what the dumps say and what the
/// journal holds.
pub open spec fn initial(updates: FccUpdates, journal: Seq<Update>) -> DriverModel {
    DriverModel {
        phase: if baseline_due(updates.weekly, last_update(journal, UpdateType::Weekly)) {
            Phase::NoBaseline
        } else {
            Phase::Synced
        },
        updates,
        watermark: watermark(journal),
        recording: None,
        queue: Seq::empty(),
        next: 0,
    }
}

impl DriverModel {
    /// The machine after a failure.
    pub open spec fn failed(self) -> (DriverModel, Action) {
        (DriverModel { phase: Phase::Failed, recording: None, ..self }, Action::Abort)
    }

    /// The machine turns to the deltas: it resolves the queue against the
    /// watermark and starts on the earliest, or ends the run where nothing
    /// is pending.
    pub open spec fn resolve(self) -> (DriverModel, Action) {
        match self.watermark {
            None => self.failed(),
            Some(mark) => {
                let queue = self.updates.pending(mark);
                if queue.len() == 0 {
                    (
                        DriverModel { phase: Phase::Synced, recording: None, queue, next: 0, ..self },
                        Action::Finish,
                    )
                } else {
                    (
                        DriverModel {
                            phase: Phase::DrainingPending,
                            recording: None,
                            queue,
                            next: 0,
                            ..self
                        },
                        Action::LoadDelta(queue[0].1),
                    )
                }
            },
        }
    }

    /// The machine after `event`, and what is due then.
    pub open spec fn step(self, event: Event) -> (DriverModel, Action) {
        match event {
            Event::Failed => self.failed(),
            Event::Start => if self.recording is Some {
                self.failed()
            } else if self.phase == Phase::NoBaseline {
                (DriverModel { phase: Phase::BaselineLoading, ..self }, Action::LoadBaseline)
            } else if self.phase == Phase::Synced {
                self.resolve()
            } else {
                self.failed()
            },
            Event::Loaded { modified } => if self.recording is Some {
                self.failed()
            } else if self.phase == Phase::BaselineLoading {
                (
                    DriverModel { recording: Some(modified), ..self },
                    Action::Record(Update { id: 0, daily: false, weekly: true, date: modified }),
                )
            } else if self.phase == Phase::DrainingPending {
                (
                    DriverModel { recording: Some(modified), ..self },
                    Action::Record(Update { id: 0, daily: true, weekly: false, date: modified }),
                )
            } else {
                self.failed()
            },
            Event::Recorded => if self.recording is None {
                self.failed()
            } else if self.phase == Phase::BaselineLoading {
                (DriverModel { watermark: self.recording, recording: None, ..self }).resolve()
            } else if self.phase == Phase::DrainingPending {
                if self.next + 1 < self.queue.len() {
                    (
                        DriverModel {
                            watermark: self.recording,
                            recording: None,
                            next: self.next + 1,
                            ..self
                        },
                        Action::LoadDelta(self.queue[self.next + 1].1),
                    )
                } else {
                    (
                        DriverModel {
                            phase: Phase::Synced,
                            watermark: self.recording,
                            recording: None,
                            next: self.queue.len() as int,
                            ..self
                        },
                        Action::Finish,
                    )
                }
            } else {
                self.failed()
            },
        }
    }
}

/// Whether the store needs the weekly snapshot.
pub fn needs_baseline(probed: Option<Timestamp>, last_weekly: Option<Update>) -> (due: bool)
    ensures
        due == baseline_due(probed, last_weekly),
{
    match last_weekly {
        None => true,
        Some(held) => match probed {
            Some(shown) => shown.is_after(&held.date),
            None => false,
        },
    }
}

impl Driver {
    /// The machine at the start of a run, given what the dumps say and the
    /// records that the journal holds.
    pub fn new(updates: FccUpdates, journal: &Vec<Update>) -> (driver: Driver)
        ensures
            driver@ == initial(updates, journal@),
    {
        let last_weekly = get_last_update(journal, UpdateType::Weekly);
        let mark = match get_last_update(journal, UpdateType::Any) {
            Some(update) => Some(update.date),
            None => None,
        };
        Driver {
            phase: if needs_baseline(updates.weekly, last_weekly) {
                Phase::NoBaseline
            } else {
                Phase::Synced
            },
            updates,
            watermark: mark,
            recording: None,
            queue: Vec::new(),
            next: 0,
        }
    }

    /// Where the run stands.
    pub fn phase(&self) -> (phase: Phase)
        ensures
            phase == self@.phase,
    {
        self.phase
    }

    /// The time of the latest record that the journal is known to hold.
    pub fn watermark(&self) -> (mark: Option<Timestamp>)
        ensures
            mark == self@.watermark,
    {
        self.watermark
    }

    /// The deltas of this run, earliest first.
    pub fn queue(&self) -> (queue: &Vec<Entry>)
        ensures
            queue@ == self@.queue,
    {
        &self.queue
    }

    /// How many deltas of the queue have been applied and recorded.
    pub fn applied(&self) -> (n: usize)
        ensures
            n == self@.next,
    {
        self.next
    }

    fn fail(&mut self) -> (action: Action)
        ensures
            (final(self)@, action) == old(self)@.failed(),
    {
        self.phase = Phase::Failed;
        self.recording = None;
        Action::Abort
    }

    fn resolve(&mut self) -> (action: Action)
        ensures
            (final(self)@, action) == old(self)@.resolve(),
    {
        match self.watermark {
            None => self.fail(),
            Some(mark) => {
                self.queue = self.updates.pending_dumps(mark);
                self.next = 0;
                self.recording = None;
                if self.queue.len() == 0 {
                    self.phase = Phase::Synced;
                    Action::Finish
                } else {
                    self.phase = Phase::DrainingPending;
                    Action::LoadDelta(self.queue[0].1)
                }
            },
        }
    }

    /// Takes in what happened and says what is due next.
    ///
    /// A failure, or an event that is not the answer to what was due, ends
    /// the run. A record is due only when a load has succeeded, and the next
    /// load only when that record has been written.
    pub fn step(&mut self, event: Event) -> (action: Action)
        ensures
            (final(self)@, action) == old(self)@.step(event),
    {
        match event {
            Event::Failed => self.fail(),
            Event::Start => {
                if self.recording.is_some() {
                    self.fail()
                } else if self.phase == Phase::NoBaseline {
                    self.phase = Phase::BaselineLoading;
                    Action::LoadBaseline
                } else if self.phase == Phase::Synced {
                    self.resolve()
                } else {
                    self.fail()
                }
            },
            Event::Loaded { modified } => {
                if self.recording.is_some() {
                    self.fail()
                } else if self.phase == Phase::BaselineLoading {
                    self.recording = Some(modified);
                    Action::Record(Update::weekly(modified))
                } else if self.phase == Phase::DrainingPending {
                    self.recording = Some(modified);
                    Action::Record(Update::daily(modified))
                } else {
                    self.fail()
                }
            },
            Event::Recorded => {
                if self.recording.is_none() {
                    self.fail()
                } else if self.phase == Phase::BaselineLoading {
                    self.watermark = self.recording;
                    self.recording = None;
                    self.resolve()
                } else if self.phase == Phase::DrainingPending {
                    self.watermark = self.recording;
                    self.recording = None;
                    if self.next < self.queue.len() && self.next + 1 < self.queue.len() {
                        self.next = self.next + 1;
                        Action::LoadDelta(self.queue[self.next].1)
                    } else {
                        self.phase = Phase::Synced;
                        self.next = self.queue.len();
                        Action::Finish
                    }
                } else {
                    self.fail()
                }
            },
        }
    }
}

/// `a` is not later than `b`; no time at all is earlier than every time.
pub open spec fn not_later(a: Option<Timestamp>, b: Option<Timestamp>) -> bool {
    match (a, b) {
        (None, _) => true,
        (Some(_), None) => false,
        (Some(x), Some(y)) => x.key() <= y.key(),
    }
}

/// The journal after the program has done what was due.
pub open spec fn journal_after(journal: Seq<Update>, action: Action) -> Seq<Update> {
    match action {
        Action::Record(update) => appended(journal, update),
        _ => journal,
    }
}

impl DriverModel {
    /// The machine and the journal agree: the journal's identifiers rise,
    /// and the machine knows the journal's watermark.
    pub open spec fn agrees(self, journal: Seq<Update>) -> bool {
        &&& rising(journal)
        &&& self.phase != Phase::Failed ==> match self.recording {
            Some(time) => watermark(journal) == Some(time),
            None => watermark(journal) == self.watermark,
        }
    }

    /// What is left of the queue is in order and not earlier than the
    /// watermark.
    pub open spec fn in_order(self) -> bool {
        self.phase == Phase::DrainingPending ==> {
            &&& 0 <= self.next < self.queue.len()
            &&& ordered(self.queue)
            &&& self.recording is None ==> not_later(self.watermark, Some(self.queue[self.next].0))
            &&& self.recording is Some ==> forall|i: int|
                self.next < i < self.queue.len() ==> self.recording->0.key() <= (
                #[trigger] self.queue[i]).0.key()
        }
    }

    /// The event reports the load of a delta truly: with the time that the
    /// dump showed when it was probed.
    pub open spec fn true_report(self, event: Event) -> bool {
        match event {
            Event::Loaded { modified } => self.phase == Phase::DrainingPending && self.recording
                is None ==> modified == self.queue[self.next].0,
            _ => true,
        }
    }
}

/// At the start of a run the machine and the journal agree, and the queue
/// is in order.
pub proof fn lemma_initial_agrees(updates: FccUpdates, journal: Seq<Update>)
    requires
        rising(journal),
    ensures
        initial(updates, journal).agrees(journal),
        initial(updates, journal).in_order(),
{
}

/// The watermark never falls: the time of the journal's latest record
/// after a step is not earlier than before it, and the machine and the
/// journal still agree. This holds of every step but one that records a
/// load whose dump the source last modified before the watermark.
pub proof fn lemma_watermark_never_falls(machine: DriverModel, journal: Seq<Update>, event: Event)
    requires
        machine.agrees(journal),
        next_id(journal) <= u32::MAX,
        match machine.step(event).1 {
            Action::Record(update) => not_later(watermark(journal), Some(update.date)),
            _ => true,
        },
    ensures
        machine.step(event).0.agrees(journal_after(journal, machine.step(event).1)),
        not_later(watermark(journal), watermark(journal_after(journal, machine.step(event).1))),
{
    match machine.step(event).1 {
        Action::Record(update) => {
            lemma_appended(journal, update, UpdateType::Any);
        },
        _ => {},
    }
}

/// The deltas keep the watermark from falling: the resolver proposes only
/// dumps later than the watermark, earliest first, so the record of a delta
/// that is reported truly is never earlier than the watermark, and what is
/// left of the queue stays in order.
pub proof fn lemma_deltas_in_order(machine: DriverModel, journal: Seq<Update>, event: Event)
    requires
        machine.agrees(journal),
        machine.in_order(),
        machine.true_report(event),
    ensures
        machine.step(event).0.in_order(),
        machine.phase == Phase::DrainingPending ==> match machine.step(event).1 {
            Action::Record(update) => not_later(watermark(journal), Some(update.date)),
            _ => true,
        },
{
    let (after, action) = machine.step(event);
    match action {
        Action::Record(update) => {
            if machine.phase == Phase::DrainingPending {
                assert forall|i: int| machine.next < i < machine.queue.len() implies update.date.key()
                    <= (#[trigger] machine.queue[i]).0.key() by {
                    assert(machine.queue[machine.next].0.key() <= machine.queue[i].0.key());
                }
            }
        },
        _ => {
            if after.phase == Phase::DrainingPending && after.next == 0 && (event == Event::Start
                || machine.phase == Phase::BaselineLoading) {
                let mark = if event == Event::Start {
                    machine.watermark->0
                } else {
                    machine.recording->0
                };
                lemma_queue(machine.updates, mark, 7);
                lemma_pending_after(machine.updates, mark);
                assert(after.queue == machine.updates.pending(mark));
                assert(after.queue[0].0.after(mark));
            }
        },
    }
}

/// No update is recorded before its load has succeeded: a record is due
/// only in answer to a committed load, and it carries the time of that
/// load's dump, as a weekly record for the baseline and as a daily record
/// for a delta.
pub proof fn lemma_record_follows_load(machine: DriverModel, event: Event)
    ensures
        match machine.step(event).1 {
            Action::Record(update) => event == (Event::Loaded { modified: update.date })
                && update.weekly == (machine.phase == Phase::BaselineLoading) && update.daily == (
            machine.phase == Phase::DrainingPending) && update.weekly != update.daily,
            _ => true,
        },
{
}

/// A failure ends the run and leaves the journal as it is.
pub proof fn lemma_failure_records_nothing(machine: DriverModel, journal: Seq<Update>)
    ensures
        machine.step(Event::Failed).1 == Action::Abort,
        machine.step(Event::Failed).0.phase == Phase::Failed,
        journal_after(journal, machine.step(Event::Failed).1) == journal,
{
}

} // verus!
