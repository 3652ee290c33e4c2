//! The update journal: the append-only record of the updates that the
//! store holds, and the watermark that it defines.

use crate::timestamp::Timestamp;
use crate::types::Update;
use vstd::prelude::*;

verus! {

/// Which records of the journal a query looks at.
#[derive(Clone, Copy, Debug, PartialEq, Eq, Structural)]
pub enum UpdateType {
    Daily,
    Weekly,
    Any,
}

/// Why the journal takes no more records.
#[derive(Clone, Copy, Debug, PartialEq, Eq, Structural)]
pub enum JournalError {
    /// The greatest identifier is in use.
    Full,
}

pub const LAST_DAILY_SQL: &'static str =
    "SELECT * FROM updates WHERE daily = 1 ORDER BY id DESC LIMIT 1";

pub const LAST_WEEKLY_SQL: &'static str =
    "SELECT * FROM updates WHERE weekly = 1 ORDER BY id DESC LIMIT 1";

pub const LAST_UPDATE_SQL: &'static str = "SELECT * FROM updates ORDER BY id DESC LIMIT 1";

pub const ALL_UPDATES_SQL: &'static str = "SELECT id, daily, weekly, date FROM updates ORDER BY id";

pub const INSERT_UPDATE_SQL: &'static str =
    "INSERT INTO updates (daily, weekly, date) VALUES (?, ?, ?)";

impl UpdateType {
    /// The query looks at the record.
    pub open spec fn admits(self, update: Update) -> bool {
        match self {
            UpdateType::Daily => update.daily,
            UpdateType::Weekly => update.weekly,
            UpdateType::Any => true,
        }
    }

    /// The statement that reads the latest record of the type from the store.
    pub open spec fn query_text(self) -> Seq<char> {
        match self {
            UpdateType::Daily => LAST_DAILY_SQL@,
            UpdateType::Weekly => LAST_WEEKLY_SQL@,
            UpdateType::Any => LAST_UPDATE_SQL@,
        }
    }

    /// Whether the query looks at the record.
    pub fn includes(&self, update: &Update) -> (b: bool)
        ensures
            b == self.admits(*update),
    {
        match self {
            UpdateType::Daily => update.daily,
            UpdateType::Weekly => update.weekly,
            UpdateType::Any => true,
        }
    }

    /// The statement that reads the latest record of the type from the store.
    pub fn query(&self) -> (sql: &'static str)
        ensures
            sql@ == self.query_text(),
    {
        match self {
            UpdateType::Daily => LAST_DAILY_SQL,
            UpdateType::Weekly => LAST_WEEKLY_SQL,
            UpdateType::Any => LAST_UPDATE_SQL,
        }
    }
}

impl Update {
    /// The record of an applied weekly snapshot that the source last
    /// modified at `date`. The store assigns the identifier.
    pub fn weekly(date: Timestamp) -> (update: Update)
        ensures
            update == (Update { id: 0, daily: false, weekly: true, date }),
    {
        Update { id: 0, daily: false, weekly: true, date }
    }

    /// The record of an applied daily delta that the source last modified
    /// at `date`. The store assigns the identifier.
    pub fn daily(date: Timestamp) -> (update: Update)
        ensures
            update == (Update { id: 0, daily: true, weekly: false, date }),
    {
        Update { id: 0, daily: true, weekly: false, date }
    }
}

/// The latest record that a query of `update_type` finds in the journal:
/// the one with the greatest identifier among those that the query looks
/// at, and the later one of two with the same identifier.
pub open spec fn last_update(journal: Seq<Update>, update_type: UpdateType) -> Option<Update>
    decreases journal.len(),
{
    if journal.len() == 0 {
        None
    } else {
        let before = last_update(journal.drop_last(), update_type);
        let update = journal.last();
        if update_type.admits(update) && (before is None || before->0.id <= update.id) {
            Some(update)
        } else {
            before
        }
    }
}

/// The watermark: the time of the latest record of any kind.
pub open spec fn watermark(journal: Seq<Update>) -> Option<Timestamp> {
    match last_update(journal, UpdateType::Any) {
        Some(update) => Some(update.date),
        None => None,
    }
}

/// The identifiers rise along the journal, as the store assigns them.
pub open spec fn rising(journal: Seq<Update>) -> bool {
    forall|i: int, j: int|
        0 <= i < j < journal.len() ==> (#[trigger] journal[i]).id < (#[trigger] journal[j]).id
}

/// The identifier that the next record gets.
pub open spec fn next_id(journal: Seq<Update>) -> int {
    if journal.len() == 0 {
        1
    } else {
        journal.last().id + 1
    }
}

/// The journal after `update` has been appended to it.
pub open spec fn appended(journal: Seq<Update>, update: Update) -> Seq<Update> {
    journal.push(
        Update {
            id: next_id(journal) as u32,
            daily: update.daily,
            weekly: update.weekly,
            date: update.date,
        },
    )
}

/// The latest record that a query of `update_type` finds in the journal.
pub fn get_last_update(journal: &Vec<Update>, update_type: UpdateType) -> (r: Option<Update>)
    ensures
        r == last_update(journal@, update_type),
{
    let mut latest: Option<Update> = None;
    let mut i: usize = 0;
    while i < journal.len()
        invariant
            i <= journal.len(),
            latest == last_update(journal@.take(i as int), update_type),
        decreases journal.len() - i,
    {
        proof {
            assert(journal@.take(i + 1).drop_last() =~= journal@.take(i as int));
        }
        let update = journal[i];
        if update_type.includes(&update) {
            let newer = match latest {
                Some(l) => l.id <= update.id,
                None => true,
            };
            if newer {
                latest = Some(update);
            }
        }
        i += 1;
    }
    proof {
        assert(journal@.take(i as int) =~= journal@);
    }
    latest
}

/// Appends a record to the journal under the next identifier; the
/// identifier that `update` carries is a placeholder. Nothing in the
/// journal is ever changed or removed.
pub fn insert_update(journal: &mut Vec<Update>, update: &Update) -> (r: Result<(), JournalError>)
    ensures
        match r {
            Ok(_) => next_id(old(journal)@) <= u32::MAX && final(journal)@ == appended(
                old(journal)@,
                *update,
            ),
            Err(e) => next_id(old(journal)@) > u32::MAX && final(journal)@ == old(journal)@ && e
                == JournalError::Full,
        },
{
    let id: u32 = if journal.len() == 0 {
        1
    } else {
        let last = journal[journal.len() - 1].id;
        if last == u32::MAX {
            return Err(JournalError::Full);
        }
        last + 1
    };
    journal.push(Update { id, daily: update.daily, weekly: update.weekly, date: update.date });
    Ok(())
}

/// What a query finds is a record of the journal that the query looks at,
/// and no such record has a greater identifier.
pub proof fn lemma_last_update(journal: Seq<Update>, update_type: UpdateType)
    ensures
        match last_update(journal, update_type) {
            Some(update) => journal.contains(update) && update_type.admits(update) && forall|i: int|
                0 <= i < journal.len() && update_type.admits(#[trigger] journal[i]) ==> journal[i].id
                    <= update.id,
            None => forall|i: int| 0 <= i < journal.len() ==> !update_type.admits(#[trigger] journal[i]),
        },
    decreases journal.len(),
{
    if journal.len() > 0 {
        let front = journal.drop_last();
        lemma_last_update(front, update_type);
        let found = last_update(journal, update_type);
        assert forall|i: int| 0 <= i < journal.len() - 1 implies journal[i] == front[i] by {}
        match found {
            Some(update) => {
                if update == journal.last() {
                    assert(journal[journal.len() - 1] == update);
                } else {
                    let k = choose|k: int| 0 <= k < front.len() && front[k] == update;
                    assert(journal[k] == update);
                }
                assert forall|i: int|
                    0 <= i < journal.len() && update_type.admits(
                        #[trigger] journal[i],
                    ) implies journal[i].id <= update.id by {
                    if i < journal.len() - 1 {
                        assert(front[i] == journal[i]);
                    }
                }
            },
            None => {
                assert forall|i: int| 0 <= i < journal.len() implies !update_type.admits(
                    #[trigger] journal[i],
                ) by {
                    if i < journal.len() - 1 {
                        assert(front[i] == journal[i]);
                    }
                }
            },
        }
    }
}

/// A record appended to a journal whose identifiers rise is the latest of
/// its kind and of any kind; the journal's identifiers still rise.
pub proof fn lemma_appended(journal: Seq<Update>, update: Update, update_type: UpdateType)
    requires
        rising(journal),
        next_id(journal) <= u32::MAX,
    ensures
        rising(appended(journal, update)),
        last_update(appended(journal, update), update_type) == if update_type.admits(update) {
            Some(appended(journal, update).last())
        } else {
            last_update(journal, update_type)
        },
        watermark(appended(journal, update)) == Some(update.date),
{
    let after = appended(journal, update);
    assert(after.drop_last() =~= journal);
    lemma_last_update(journal, update_type);
    lemma_last_update(journal, UpdateType::Any);
    if journal.len() > 0 {
        assert forall|i: int| 0 <= i < journal.len() implies (#[trigger] journal[i]).id
            <= journal.last().id by {
            if i < journal.len() - 1 {
                assert(journal[i].id < journal[journal.len() - 1].id);
            }
        }
    }
    assert forall|i: int, j: int| 0 <= i < j < after.len() implies (#[trigger] after[i]).id
        < (#[trigger] after[j]).id by {
        if j < journal.len() {
            assert(after[i] == journal[i] && after[j] == journal[j]);
        } else {
            assert(after[i] == journal[i]);
        }
    }
    if last_update(journal, update_type) is Some {
        let found = last_update(journal, update_type)->0;
        let k = choose|k: int| 0 <= k < journal.len() && journal[k] == found;
        assert(journal[k].id <= journal.last().id);
    }
    if last_update(journal, UpdateType::Any) is Some {
        let found = last_update(journal, UpdateType::Any)->0;
        let k = choose|k: int| 0 <= k < journal.len() && journal[k] == found;
        assert(journal[k].id <= journal.last().id);
    }
}

} // verus!
