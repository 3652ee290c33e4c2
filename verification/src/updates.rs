//! The remote dumps and the pending update resolver: which daily dumps are
//! newer than what the store holds, and in what order they are applied.

use crate::probe::Probe;
use crate::timestamp::Timestamp;
use vstd::prelude::*;

verus! {

pub const WEEKLY_DUMP_URL: &'static str = "https://data.fcc.gov/download/pub/uls/complete/l_amat.zip";

pub const SUNDAY_DUMP_URL: &'static str = "https://data.fcc.gov/download/pub/uls/daily/l_am_sun.zip";

pub const MONDAY_DUMP_URL: &'static str = "https://data.fcc.gov/download/pub/uls/daily/l_am_mon.zip";

pub const TUESDAY_DUMP_URL: &'static str = "https://data.fcc.gov/download/pub/uls/daily/l_am_tue.zip";

pub const WEDNESDAY_DUMP_URL: &'static str = "https://data.fcc.gov/download/pub/uls/daily/l_am_wed.zip";

pub const THURSDAY_DUMP_URL: &'static str = "https://data.fcc.gov/download/pub/uls/daily/l_am_thu.zip";

pub const FRIDAY_DUMP_URL: &'static str = "https://data.fcc.gov/download/pub/uls/daily/l_am_fri.zip";

pub const SATURDAY_DUMP_URL: &'static str = "https://data.fcc.gov/download/pub/uls/daily/l_am_sat.zip";

/// Where the reference table of special condition codes is published.
pub const SPECIAL_CONDITIONS_URL: &'static str = "https://www.fcc.gov/file/20669/download";

/// The name under which the reference table is kept, whatever name the
/// source gives it.
pub const SPECIAL_CONDITIONS_FILE: &'static str = "special_condition_codes.txt";

/// One of the eight dumps that the source publishes: the full weekly
/// snapshot, or the delta of one day of the week.
#[derive(Clone, Copy, Debug, PartialEq, Eq, Hash, Structural)]
pub enum Dump {
    Weekly,
    Sunday,
    Monday,
    Tuesday,
    Wednesday,
    Thursday,
    Friday,
    Saturday,
}

impl Dump {
    /// The daily dump of the day of index `day`, Sunday being day 0.
    pub open spec fn daily(day: int) -> Dump {
        if day == 0 {
            Dump::Sunday
        } else if day == 1 {
            Dump::Monday
        } else if day == 2 {
            Dump::Tuesday
        } else if day == 3 {
            Dump::Wednesday
        } else if day == 4 {
            Dump::Thursday
        } else if day == 5 {
            Dump::Friday
        } else {
            Dump::Saturday
        }
    }

    /// The index of the day of a daily dump, Sunday being day 0; -1 for the
    /// weekly dump.
    pub open spec fn day(self) -> int {
        match self {
            Dump::Weekly => -1,
            Dump::Sunday => 0,
            Dump::Monday => 1,
            Dump::Tuesday => 2,
            Dump::Wednesday => 3,
            Dump::Thursday => 4,
            Dump::Friday => 5,
            Dump::Saturday => 6,
        }
    }

    /// Where the dump is published.
    pub open spec fn url_text(self) -> Seq<char> {
        match self {
            Dump::Weekly => WEEKLY_DUMP_URL@,
            Dump::Sunday => SUNDAY_DUMP_URL@,
            Dump::Monday => MONDAY_DUMP_URL@,
            Dump::Tuesday => TUESDAY_DUMP_URL@,
            Dump::Wednesday => WEDNESDAY_DUMP_URL@,
            Dump::Thursday => THURSDAY_DUMP_URL@,
            Dump::Friday => FRIDAY_DUMP_URL@,
            Dump::Saturday => SATURDAY_DUMP_URL@,
        }
    }

    /// The daily dump of the day of index `day`, Sunday being day 0.
    pub fn of_day(day: usize) -> (dump: Dump)
        requires
            day < 7,
        ensures
            dump == Dump::daily(day as int),
            dump.day() == day,
    {
        if day == 0 {
            Dump::Sunday
        } else if day == 1 {
            Dump::Monday
        } else if day == 2 {
            Dump::Tuesday
        } else if day == 3 {
            Dump::Wednesday
        } else if day == 4 {
            Dump::Thursday
        } else if day == 5 {
            Dump::Friday
        } else {
            Dump::Saturday
        }
    }

    /// Where the dump is published.
    pub fn url(&self) -> (url: &'static str)
        ensures
            url@ == self.url_text(),
    {
        match self {
            Dump::Weekly => WEEKLY_DUMP_URL,
            Dump::Sunday => SUNDAY_DUMP_URL,
            Dump::Monday => MONDAY_DUMP_URL,
            Dump::Tuesday => TUESDAY_DUMP_URL,
            Dump::Wednesday => WEDNESDAY_DUMP_URL,
            Dump::Thursday => THURSDAY_DUMP_URL,
            Dump::Friday => FRIDAY_DUMP_URL,
            Dump::Saturday => SATURDAY_DUMP_URL,
        }
    }
}

/// What the eight dumps say of themselves in one run: for each, the time of
/// its last change, or nothing where it holds no data or gave no signal.
#[derive(Clone, Copy, Debug, PartialEq, Eq, Structural)]
pub struct FccUpdates {
    pub weekly: Option<Timestamp>,
    pub sunday: Option<Timestamp>,
    pub monday: Option<Timestamp>,
    pub tuesday: Option<Timestamp>,
    pub wednesday: Option<Timestamp>,
    pub thursday: Option<Timestamp>,
    pub friday: Option<Timestamp>,
    pub saturday: Option<Timestamp>,
}

/// A dump that waits to be applied, with the time of its last change.
pub type Entry = (Timestamp, Dump);

/// Where a new entry goes into a queue: before the first entry that is
/// later than it, and so after every entry of the same time.
pub open spec fn slot(queue: Seq<Entry>, entry: Entry) -> int
    decreases queue.len(),
{
    if queue.len() == 0 {
        0
    } else if queue[0].0.key() > entry.0.key() {
        0
    } else {
        1 + slot(queue.drop_first(), entry)
    }
}

/// The entries of a pending queue with the addresses of their dumps.
pub open spec fn addressed(queue: Seq<Entry>) -> Seq<(Timestamp, Seq<char>)> {
    Seq::new(queue.len(), |i: int| (queue[i].0, queue[i].1.url_text()))
}

/// The pairs of a list of pending updates, each address as its text.
pub open spec fn pairs_of(pending: Seq<(Timestamp, String)>) -> Seq<(Timestamp, Seq<char>)> {
    Seq::new(pending.len(), |i: int| (pending[i].0, pending[i].1@))
}

impl FccUpdates {
    /// What the daily dump of the day of index `day` says of itself.
    pub open spec fn daily(self, day: int) -> Option<Timestamp> {
        if day == 0 {
            self.sunday
        } else if day == 1 {
            self.monday
        } else if day == 2 {
            self.tuesday
        } else if day == 3 {
            self.wednesday
        } else if day == 4 {
            self.thursday
        } else if day == 5 {
            self.friday
        } else {
            self.saturday
        }
    }

    /// The daily dump of the day of index `day` waits to be applied: it
    /// shows a time, and that time is later than the watermark.
    pub open spec fn is_pending(self, watermark: Timestamp, day: int) -> bool {
        self.daily(day) is Some && self.daily(day)->0.after(watermark)
    }

    /// The queue of the pending dumps among those of the first `days` days
    /// of the week.
    pub open spec fn queue(self, watermark: Timestamp, days: int) -> Seq<Entry>
        decreases days,
    {
        if days <= 0 {
            Seq::empty()
        } else {
            let before = self.queue(watermark, days - 1);
            if self.is_pending(watermark, days - 1) {
                let entry = (self.daily(days - 1)->0, Dump::daily(days - 1));
                before.insert(slot(before, entry), entry)
            } else {
                before
            }
        }
    }

    /// The daily dumps that wait to be applied, earliest first; dumps of the
    /// same time stand in the order of their days.
    pub open spec fn pending(self, watermark: Timestamp) -> Seq<Entry> {
        self.queue(watermark, 7)
    }

    /// Gathers what the eight probes of one run say.
    pub fn new(
        weekly: &Probe,
        sunday: &Probe,
        monday: &Probe,
        tuesday: &Probe,
        wednesday: &Probe,
        thursday: &Probe,
        friday: &Probe,
        saturday: &Probe,
    ) -> (updates: FccUpdates)
        ensures
            updates.weekly == weekly.signal(),
            updates.sunday == sunday.signal(),
            updates.monday == monday.signal(),
            updates.tuesday == tuesday.signal(),
            updates.wednesday == wednesday.signal(),
            updates.thursday == thursday.signal(),
            updates.friday == friday.signal(),
            updates.saturday == saturday.signal(),
    {
        FccUpdates {
            weekly: weekly.result(),
            sunday: sunday.result(),
            monday: monday.result(),
            tuesday: tuesday.result(),
            wednesday: wednesday.result(),
            thursday: thursday.result(),
            friday: friday.result(),
            saturday: saturday.result(),
        }
    }

    /// What the daily dump of the day of index `day` says of itself.
    pub fn of_day(&self, day: usize) -> (r: Option<Timestamp>)
        requires
            day < 7,
        ensures
            r == self.daily(day as int),
    {
        if day == 0 {
            self.sunday
        } else if day == 1 {
            self.monday
        } else if day == 2 {
            self.tuesday
        } else if day == 3 {
            self.wednesday
        } else if day == 4 {
            self.thursday
        } else if day == 5 {
            self.friday
        } else {
            self.saturday
        }
    }

    /// The daily dumps that wait to be applied: those that show a time
    /// later than `watermark`, earliest first.
    pub fn pending_dumps(&self, watermark: Timestamp) -> (queue: Vec<Entry>)
        ensures
            queue@ == self.pending(watermark),
    {
        let mut queue: Vec<Entry> = Vec::new();
        let mut day: usize = 0;
        while day < 7
            invariant
                day <= 7,
                queue@ == self.queue(watermark, day as int),
            decreases 7 - day,
        {
            match self.of_day(day) {
                Some(time) => {
                    if time.is_after(&watermark) {
                        let entry = (time, Dump::of_day(day));
                        let at = find_slot(&queue, entry);
                        queue.insert(at, entry);
                    }
                },
                None => {},
            }
            day += 1;
        }
        queue
    }

    /// The daily dumps that wait to be applied, each with the time of its
    /// last change and its address: those that show a time later than
    /// `last_update`, earliest first.
    pub fn get_pending(&self, last_update: Timestamp) -> (pending: Vec<(Timestamp, String)>)
        ensures
            pairs_of(pending@) == addressed(self.pending(last_update)),
            pending.len() == self.pending(last_update).len(),
            forall|i: int|
                0 <= i < pending.len() ==> (#[trigger] pending[i]).0 == self.pending(last_update)[i].0
                    && pending[i].1@ == self.pending(last_update)[i].1.url_text(),
    {
        let queue = self.pending_dumps(last_update);
        let mut pending: Vec<(Timestamp, String)> = Vec::new();
        let mut i: usize = 0;
        while i < queue.len()
            invariant
                i <= queue.len(),
                pending.len() == i,
                forall|j: int|
                    0 <= j < i ==> (#[trigger] pending[j]).0 == queue[j].0 && pending[j].1@
                        == queue[j].1.url_text(),
            decreases queue.len() - i,
        {
            let entry = queue[i];
            pending.push((entry.0, entry.1.url().to_owned()));
            i += 1;
        }
        assert(pairs_of(pending@) =~= addressed(queue@));
        pending
    }
}

/// Where `entry` goes into `queue`.
fn find_slot(queue: &Vec<Entry>, entry: Entry) -> (at: usize)
    ensures
        at == slot(queue@, entry),
        at <= queue.len(),
{
    let mut at: usize = 0;
    proof {
        assert(queue@.skip(0) =~= queue@);
    }
    while at < queue.len() && !queue[at].0.is_after(&entry.0)
        invariant
            at <= queue.len(),
            slot(queue@, entry) == at + slot(queue@.skip(at as int), entry),
        decreases queue.len() - at,
    {
        proof {
            assert(queue@.skip(at as int).drop_first() =~= queue@.skip(at + 1));
        }
        at += 1;
    }
    at
}

/// The entries stand earliest first, and those of the same time in the
/// order of their days.
pub open spec fn ordered(queue: Seq<Entry>) -> bool {
    forall|i: int, j: int|
        0 <= i < j < queue.len() ==> (#[trigger] queue[i]).0.key() <= (#[trigger] queue[j]).0.key()
            && (queue[i].0.key() == queue[j].0.key() ==> queue[i].1.day() < queue[j].1.day())
}

/// Every entry before the slot is no later than the new entry, and the
/// entry at the slot is later.
pub proof fn lemma_slot(queue: Seq<Entry>, entry: Entry)
    ensures
        0 <= slot(queue, entry) <= queue.len(),
        forall|i: int| 0 <= i < slot(queue, entry) ==> (#[trigger] queue[i]).0.key() <= entry.0.key(),
        slot(queue, entry) < queue.len() ==> queue[slot(queue, entry)].0.key() > entry.0.key(),
    decreases queue.len(),
{
    if queue.len() > 0 && queue[0].0.key() <= entry.0.key() {
        let rest = queue.drop_first();
        lemma_slot(rest, entry);
        assert forall|i: int| 0 <= i < slot(queue, entry) implies (#[trigger] queue[i]).0.key()
            <= entry.0.key() by {
            if i > 0 {
                assert(queue[i] == rest[i - 1]);
            }
        }
        if slot(queue, entry) < queue.len() {
            assert(queue[slot(queue, entry)] == rest[slot(rest, entry)]);
        }
    }
}

/// An entry of a later day, put at its slot into an ordered queue, leaves
/// the queue ordered.
pub proof fn lemma_insert_ordered(queue: Seq<Entry>, entry: Entry)
    requires
        ordered(queue),
        forall|i: int| 0 <= i < queue.len() ==> (#[trigger] queue[i]).1.day() < entry.1.day(),
    ensures
        ordered(queue.insert(slot(queue, entry), entry)),
{
    let at = slot(queue, entry);
    lemma_slot(queue, entry);
    let after = queue.insert(at, entry);
    assert forall|i: int, j: int| 0 <= i < j < after.len() implies (#[trigger] after[i]).0.key()
        <= (#[trigger] after[j]).0.key() && (after[i].0.key() == after[j].0.key()
        ==> after[i].1.day() < after[j].1.day()) by {
        let a = if i < at {
            i
        } else {
            i - 1
        };
        let b = if j < at {
            j
        } else {
            j - 1
        };
        if i != at {
            assert(after[i] == queue[a]);
        }
        if j != at {
            assert(after[j] == queue[b]);
        }
        if i == at && at < b {
            assert(queue[at].0.key() <= queue[b].0.key());
        }
    }
}

/// A queue with an entry put into it holds that entry and what it held
/// before, and nothing else.
pub proof fn lemma_insert_holds(queue: Seq<Entry>, at: int, entry: Entry)
    requires
        0 <= at <= queue.len(),
    ensures
        forall|e: Entry| #[trigger]
            queue.insert(at, entry).contains(e) <==> e == entry || queue.contains(e),
{
    let after = queue.insert(at, entry);
    assert forall|e: Entry| #[trigger] after.contains(e) <==> e == entry || queue.contains(e) by {
        if after.contains(e) {
            let k = choose|k: int| 0 <= k < after.len() && after[k] == e;
            if k < at {
                assert(queue[k] == e);
            } else if k > at {
                assert(queue[k - 1] == e);
            }
        }
        if e == entry {
            assert(after[at] == e);
        }
        if queue.contains(e) {
            let k = choose|k: int| 0 <= k < queue.len() && queue[k] == e;
            if k < at {
                assert(after[k] == e);
            } else {
                assert(after[k + 1] == e);
            }
        }
    }
}

/// What the queue of the first `days` days holds: the entry is that of a
/// pending dump of one of those days, with the time that the dump shows.
pub open spec fn queued(updates: FccUpdates, watermark: Timestamp, days: int, entry: Entry) -> bool {
    &&& 0 <= entry.1.day() < days
    &&& entry.1 == Dump::daily(entry.1.day())
    &&& updates.is_pending(watermark, entry.1.day())
    &&& updates.daily(entry.1.day()) == Some(entry.0)
}

/// The queue of the first `days` days holds exactly the pending dumps of
/// those days, each with the time that it shows, in order.
pub proof fn lemma_queue(updates: FccUpdates, watermark: Timestamp, days: int)
    requires
        0 <= days <= 7,
    ensures
        ordered(updates.queue(watermark, days)),
        forall|e: Entry| #[trigger]
            updates.queue(watermark, days).contains(e) <==> queued(updates, watermark, days, e),
    decreases days,
{
    let after = updates.queue(watermark, days);
    if days > 0 {
        lemma_queue(updates, watermark, days - 1);
        let before = updates.queue(watermark, days - 1);
        if updates.is_pending(watermark, days - 1) {
            let entry = (updates.daily(days - 1)->0, Dump::daily(days - 1));
            lemma_slot(before, entry);
            assert forall|i: int| 0 <= i < before.len() implies (#[trigger] before[i]).1.day()
                < entry.1.day() by {
                assert(before.contains(before[i]));
            }
            lemma_insert_ordered(before, entry);
            lemma_insert_holds(before, slot(before, entry), entry);
            assert forall|e: Entry| #[trigger]
                after.contains(e) <==> queued(updates, watermark, days, e) by {
                assert(before.contains(e) <==> queued(updates, watermark, days - 1, e));
            }
        } else {
            assert forall|e: Entry| #[trigger]
                after.contains(e) <==> queued(updates, watermark, days, e) by {
                assert(before.contains(e) <==> queued(updates, watermark, days - 1, e));
            }
        }
    } else {
        assert forall|e: Entry| #[trigger]
            after.contains(e) <==> queued(updates, watermark, days, e) by {}
    }
}

/// The resolver's queue is in order: earliest first, and dumps of the same
/// time in the order of their days.
pub proof fn lemma_pending_ordered(updates: FccUpdates, watermark: Timestamp)
    ensures
        ordered(updates.pending(watermark)),
{
    lemma_queue(updates, watermark, 7);
}

/// The resolver's queue holds a daily dump if and only if the dump shows a
/// time and that time is later than the watermark; it holds the dump with
/// that time, and once only. The weekly dump is never in it.
pub proof fn lemma_pending_filtered(updates: FccUpdates, watermark: Timestamp, time: Timestamp, dump: Dump)
    ensures
        updates.pending(watermark).contains((time, dump)) <==> 0 <= dump.day() < 7
            && updates.daily(dump.day()) == Some(time) && time.after(watermark),
        forall|i: int, j: int|
            0 <= i < j < updates.pending(watermark).len() ==> (#[trigger] updates.pending(
                watermark,
            )[i]).1 != (#[trigger] updates.pending(watermark)[j]).1,
{
    lemma_queue(updates, watermark, 7);
    let queue = updates.pending(watermark);
    assert(queue.contains((time, dump)) <==> queued(updates, watermark, 7, (time, dump)));
    assert forall|i: int, j: int| 0 <= i < j < queue.len() implies (#[trigger] queue[i]).1
        != (#[trigger] queue[j]).1 by {
        assert(queue.contains(queue[i]));
        assert(queue.contains(queue[j]));
    }
}

/// A dump that has been applied is not proposed again: once the watermark
/// has reached the time that a daily dump shows, the resolver's queue holds
/// that dump no more, until the dump shows a later time.
pub proof fn lemma_applied_not_proposed(updates: FccUpdates, watermark: Timestamp, dump: Dump)
    requires
        0 <= dump.day() < 7,
        updates.daily(dump.day()) is Some ==> !updates.daily(dump.day())->0.after(watermark),
    ensures
        forall|i: int|
            0 <= i < updates.pending(watermark).len() ==> (#[trigger] updates.pending(watermark)[i]).1
                != dump,
{
    lemma_queue(updates, watermark, 7);
    let queue = updates.pending(watermark);
    assert forall|i: int| 0 <= i < queue.len() implies (#[trigger] queue[i]).1 != dump by {
        assert(queue.contains(queue[i]));
    }
}

/// Every entry of the resolver's queue is later than the watermark.
pub proof fn lemma_pending_after(updates: FccUpdates, watermark: Timestamp)
    ensures
        forall|i: int|
            0 <= i < updates.pending(watermark).len() ==> (#[trigger] updates.pending(watermark)[i]).0.after(
                watermark,
            ),
{
    lemma_queue(updates, watermark, 7);
    let queue = updates.pending(watermark);
    assert forall|i: int| 0 <= i < queue.len() implies (#[trigger] queue[i]).0.after(watermark) by {
        assert(queue.contains(queue[i]));
    }
}

/// An ordered queue is fixed by what it holds: two ordered queues with the
/// same entries are the same queue.
pub proof fn lemma_ordered_same(a: Seq<Entry>, b: Seq<Entry>)
    requires
        ordered(a),
        ordered(b),
        forall|e: Entry| a.contains(e) <==> b.contains(e),
    ensures
        a == b,
    decreases a.len(),
{
    if a.len() == 0 {
        if b.len() > 0 {
            assert(b.contains(b[0]));
        }
        assert(a =~= b);
    } else {
        assert(a.contains(a[0]));
        let j = choose|j: int| 0 <= j < b.len() && b[j] == a[0];
        if j > 0 {
            assert(b.contains(b[0]));
            let i = choose|i: int| 0 <= i < a.len() && a[i] == b[0];
            if i > 0 {
                assert(a[0].0.key() <= a[i].0.key());
                assert(b[0].0.key() <= b[j].0.key());
            } else {
                assert(b[0].0.key() <= b[j].0.key());
            }
            assert(false);
        }
        let rest_a = a.drop_first();
        let rest_b = b.drop_first();
        assert forall|i: int, k: int| 0 <= i < k < rest_a.len() implies (#[trigger] rest_a[i]).0.key()
            <= (#[trigger] rest_a[k]).0.key() && (rest_a[i].0.key() == rest_a[k].0.key()
            ==> rest_a[i].1.day() < rest_a[k].1.day()) by {
            assert(rest_a[i] == a[i + 1] && rest_a[k] == a[k + 1]);
        }
        assert forall|i: int, k: int| 0 <= i < k < rest_b.len() implies (#[trigger] rest_b[i]).0.key()
            <= (#[trigger] rest_b[k]).0.key() && (rest_b[i].0.key() == rest_b[k].0.key()
            ==> rest_b[i].1.day() < rest_b[k].1.day()) by {
            assert(rest_b[i] == b[i + 1] && rest_b[k] == b[k + 1]);
        }
        assert forall|e: Entry| rest_a.contains(e) <==> rest_b.contains(e) by {
            if rest_a.contains(e) {
                let i = choose|i: int| 0 <= i < rest_a.len() && rest_a[i] == e;
                assert(a[i + 1] == e);
                assert(a.contains(e));
                assert(a[0].0.key() <= a[i + 1].0.key());
                let k = choose|k: int| 0 <= k < b.len() && b[k] == e;
                assert(k > 0);
                assert(rest_b[k - 1] == e);
            }
            if rest_b.contains(e) {
                let i = choose|i: int| 0 <= i < rest_b.len() && rest_b[i] == e;
                assert(b[i + 1] == e);
                assert(b.contains(e));
                assert(b[0].0.key() <= b[i + 1].0.key());
                let k = choose|k: int| 0 <= k < a.len() && a[k] == e;
                assert(k > 0);
                assert(rest_a[k - 1] == e);
            }
        }
        lemma_ordered_same(rest_a, rest_b);
        assert(a =~= seq![a[0]] + rest_a);
        assert(b =~= seq![b[0]] + rest_b);
    }
}

/// Raising the watermark leaves the end of the queue: the queue for a later
/// watermark is the queue for an earlier one without the entries at its
/// front that the later watermark has reached. So a run that stops half way
/// finds, when it resolves again, what it had left.
pub proof fn lemma_later_watermark_leaves_suffix(
    updates: FccUpdates,
    earlier: Timestamp,
    later: Timestamp,
)
    requires
        earlier.key() <= later.key(),
    ensures
        updates.pending(later).len() <= updates.pending(earlier).len(),
        updates.pending(later) == updates.pending(earlier).skip(
            updates.pending(earlier).len() - updates.pending(later).len(),
        ),
{
    let long = updates.pending(earlier);
    let short = updates.pending(later);
    lemma_queue(updates, earlier, 7);
    lemma_queue(updates, later, 7);
    let mark: Entry = (later, Dump::Weekly);
    let cut = slot(long, mark);
    lemma_slot(long, mark);
    let tail = long.skip(cut);
    assert forall|i: int| cut <= i < long.len() implies (#[trigger] long[i]).0.key() > later.key() by {
        if cut < i {
            assert(long[cut].0.key() <= long[i].0.key());
        }
    }
    assert forall|i: int, k: int| 0 <= i < k < tail.len() implies (#[trigger] tail[i]).0.key() <= (
    #[trigger] tail[k]).0.key() && (tail[i].0.key() == tail[k].0.key() ==> tail[i].1.day()
        < tail[k].1.day()) by {
        assert(tail[i] == long[cut + i] && tail[k] == long[cut + k]);
    }
    assert forall|e: Entry| tail.contains(e) <==> short.contains(e) by {
        assert(short.contains(e) <==> queued(updates, later, 7, e));
        assert(long.contains(e) <==> queued(updates, earlier, 7, e));
        if tail.contains(e) {
            let i = choose|i: int| 0 <= i < tail.len() && tail[i] == e;
            assert(long[cut + i] == e);
            assert(long.contains(e));
        }
        if short.contains(e) {
            assert(long.contains(e));
            let i = choose|i: int| 0 <= i < long.len() && long[i] == e;
            assert(i >= cut);
            assert(tail[i - cut] == e);
        }
    }
    lemma_ordered_same(tail, short);
}

} // verus!
