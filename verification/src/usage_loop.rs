//! The app usage collector: what it counts, and when it saves and publishes.

use crate::day::{is_date, previous_date, Date, Day};
use crate::interval::Interval;
use crate::model::{usages, Message, Push};
use crate::usage::{
    countable, is_top, recorded, recorded_all, Ledger, Sighting, UsageTotals, UsageTracker,
};
use vstd::prelude::*;

verus! {

/// How long there must be between two saves, in milliseconds.
pub const PERSIST_INTERVAL_MS: u64 = 60_000;

/// The extension that process names are shown without.
pub open spec fn exe_suffix() -> Seq<char> {
    seq!['.', 'e', 'x', 'e']
}

/// A process name without the extension of an executable, if it has that.
pub open spec fn shown_name(name: Seq<char>) -> Seq<char> {
    if exe_suffix().is_suffix_of(name) {
        name.take(name.len() - 4)
    } else {
        name
    }
}

/// The name that a process is counted under.
pub fn process_name(name: &str) -> (shown: String)
    ensures
        shown@ == shown_name(name@),
{
    let len: usize = name.unicode_len();
    if len >= 4 && name.get_char(len - 4) == '.' && name.get_char(len - 3) == 'e' && name.get_char(
        len - 2,
    ) == 'x' && name.get_char(len - 1) == 'e' {
        proof {
            let tail = name@.subrange(name@.len() - 4, name@.len() as int);
            assert(tail =~= exe_suffix());
        }
        name.substring_char(0, len - 4).to_string()
    } else {
        assert(!exe_suffix().is_suffix_of(name@)) by {
            if exe_suffix().is_suffix_of(name@) {
                let tail = name@.subrange(name@.len() - 4, name@.len() as int);
                assert(tail == exe_suffix());
                assert(tail[0] == '.' && tail[1] == 'e' && tail[2] == 'x' && tail[3] == 'e');
            }
        }
        name.to_string()
    }
}

/// What came of reading the saved usage of a day.
pub enum DayRead {
    /// The file was read.
    Parsed(UsageTotals),
    /// The file was read, but is damaged.
    Malformed,
    /// There is no file, or it could not be read.
    Unreadable,
}

/// The usage of a day to go on from: what was saved, or none.
pub fn day_totals(read: DayRead) -> (totals: UsageTotals)
    ensures
        totals@ == (match read {
            DayRead::Parsed(saved) => saved@,
            _ => Map::<Seq<char>, u64>::empty(),
        }),
{
    match read {
        DayRead::Parsed(saved) => saved,
        _ => UsageTotals::new(),
    }
}

/// The day whose usage counts as yesterday's at the start: the day before, or the same day where
/// there is none before it.
pub fn day_before(today: &Day) -> (yesterday: Day)
    ensures
        is_date(today@),
        yesterday@ == (match previous_date(today@) {
            Some(d) => d,
            None => today@,
        }),
{
    match today.pred_opt() {
        Some(day) => day,
        None => *today,
    }
}

/// Whether there is something to save after a sample, and whether it is time to save it.
pub open spec fn save_due(dirty: bool, sampled: bool, since_save: nat) -> (bool, bool) {
    let unsaved = dirty || sampled;
    let due = unsaved && since_save >= PERSIST_INTERVAL_MS;
    (unsaved && !due, due)
}

/// Where the app usage collector stands.
#[derive(Debug)]
pub struct UsageCollector {
    tracker: UsageTracker,
    dirty: bool,
}

/// The contents of a `UsageCollector`.
pub struct UsageState {
    pub ledger: Ledger,
    /// Whether anything was counted since the last save.
    pub dirty: bool,
}

impl View for UsageCollector {
    type V = UsageState;

    closed spec fn view(&self) -> UsageState {
        UsageState { ledger: self.tracker@, dirty: self.dirty }
    }
}

/// Whether a push lists the programs used most, as of `ts_ms`.
pub open spec fn pushes_top<F>(push: Push<F>, ledger: Ledger, ts_ms: u64) -> bool {
    push@ matches Message::AppUsage(report) && report.ts_ms == ts_ms && is_top(ledger, report.top)
}

/// What to do where it is time to save: save the totals under the day, and publish the push.
pub struct UsageSave<F> {
    pub day: Day,
    pub totals: UsageTotals,
    pub push: Push<F>,
}

/// One tick of a collector: the date, the program that was seen, the seconds that count for it, and
/// how long the last save was ago, in milliseconds.
pub struct UsageTick {
    pub at: Date,
    pub process: Option<Seq<char>>,
    pub secs: nat,
    pub since_save: nat,
}

/// The tick with an interval of `millis` milliseconds, of which whole seconds count.
pub open spec fn tick_of(
    at: Date,
    process: Option<Seq<char>>,
    millis: nat,
    since_save: nat,
) -> UsageTick {
    UsageTick { at, process, secs: millis / 1000, since_save }
}

/// The name of a program, if one was seen.
pub open spec fn process_text(process: Option<&str>) -> Option<Seq<char>> {
    match process {
        Some(name) => Some(name@),
        None => None,
    }
}

/// Where a collector stands after a tick.
pub open spec fn stepped(s: UsageState, t: UsageTick) -> UsageState {
    UsageState {
        ledger: recorded(s.ledger, t.at, t.process, t.secs),
        dirty: save_due(s.dirty, t.process is Some, t.since_save).0,
    }
}

/// Whether a tick leads to a save.
pub open spec fn saves(s: UsageState, t: UsageTick) -> bool {
    save_due(s.dirty, t.process is Some, t.since_save).1
}

impl UsageCollector {
    /// A collector that goes on from what was saved.
    pub fn new(today: Day, today_totals: UsageTotals, yesterday_totals: UsageTotals) -> (collector:
        Self)
        ensures
            collector@ == (UsageState {
                ledger: Ledger {
                    day: today@,
                    today: today_totals@,
                    yesterday: yesterday_totals@,
                },
                dirty: false,
            }),
    {
        UsageCollector {
            tracker: UsageTracker::new(today, today_totals, yesterday_totals),
            dirty: false,
        }
    }

    /// What has been counted.
    pub fn tracker(&self) -> (tracker: &UsageTracker)
        ensures
            tracker@ == self@.ledger,
    {
        &self.tracker
    }

    /// What to publish at the start, even if nothing was counted yet.
    pub fn first_push<F>(&self, ts_ms: u64) -> (push: Push<F>)
        ensures
            pushes_top(push, self@.ledger, ts_ms),
    {
        Push::AppUsage(self.tracker.snapshot(ts_ms))
    }

    /// Counts one sample of the foreground program, and says what to save and publish where it is
    /// time for that.
    pub fn tick<F>(
        &mut self,
        at: Day,
        process: Option<&str>,
        interval: Interval,
        since_save: Interval,
        ts_ms: u64,
    ) -> (save: Option<UsageSave<F>>)
        requires
            countable(old(self)@.ledger, at@, process_text(process), interval@ / 1000),
        ensures
            final(self)@ == stepped(
                old(self)@,
                tick_of(at@, process_text(process), interval@, since_save@),
            ),
            save is Some <==> saves(
                old(self)@,
                tick_of(at@, process_text(process), interval@, since_save@),
            ),
            save matches Some(s) ==> {
                &&& s.day@ == final(self)@.ledger.day
                &&& s.totals@ == final(self)@.ledger.today
                &&& pushes_top(s.push, final(self)@.ledger, ts_ms)
            },
    {
        if process.is_some() {
            self.dirty = true;
        }
        self.tracker.record(at, process, interval);
        if self.dirty && since_save.at_least(&Interval::from_millis(PERSIST_INTERVAL_MS)) {
            let push: Push<F> = Push::AppUsage(self.tracker.snapshot(ts_ms));
            self.dirty = false;
            Some(UsageSave { day: self.tracker.day(), totals: self.tracker.today().clone(), push })
        } else {
            None
        }
    }
}

/// Where a collector stands after a row of ticks.
pub open spec fn run_after(start: UsageState, ticks: Seq<UsageTick>) -> UsageState
    decreases ticks.len(),
{
    if ticks.len() == 0 {
        start
    } else {
        stepped(run_after(start, ticks.drop_last()), ticks.last())
    }
}

/// Whether the tick at `i` of a run led to a save.
pub open spec fn saved_at(start: UsageState, ticks: Seq<UsageTick>, i: int) -> bool {
    saves(run_after(start, ticks.take(i)), ticks[i])
}

/// The last tick of a run that led to a save, or -1 where none did.
pub open spec fn last_save(start: UsageState, ticks: Seq<UsageTick>) -> int
    decreases ticks.len(),
{
    if ticks.len() == 0 {
        -1
    } else if saves(run_after(start, ticks.drop_last()), ticks.last()) {
        ticks.len() - 1
    } else {
        last_save(start, ticks.drop_last())
    }
}

/// Whether a tick after the one at `k` saw a program.
pub open spec fn seen_after(ticks: Seq<UsageTick>, k: int) -> bool {
    exists|j: int| k < j < ticks.len() && (#[trigger] ticks[j]).process is Some
}

/// The last save of a run is a save, and there is none after it.
pub proof fn last_save_is_the_last(start: UsageState, ticks: Seq<UsageTick>)
    ensures
        -1 <= last_save(start, ticks) < ticks.len(),
        last_save(start, ticks) >= 0 ==> saved_at(start, ticks, last_save(start, ticks)),
        forall|j: int|
            last_save(start, ticks) < j < ticks.len() ==> !#[trigger] saved_at(start, ticks, j),
    decreases ticks.len(),
{
    if ticks.len() > 0 {
        let head = ticks.drop_last();
        let n = head.len() as int;
        last_save_is_the_last(start, head);
        assert(ticks.take(n) =~= head);
        assert forall|j: int| 0 <= j < n implies saved_at(start, ticks, j) == saved_at(
            start,
            head,
            j,
        ) by {
            assert(ticks.take(j) =~= head.take(j));
        }
    }
}

/// From its start on, a collector has something to save exactly where a program was seen since the
/// last save.
pub proof fn dirty_means_unsaved(start: UsageState, ticks: Seq<UsageTick>)
    requires
        !start.dirty,
    ensures
        run_after(start, ticks).dirty == seen_after(ticks, last_save(start, ticks)),
    decreases ticks.len(),
{
    if ticks.len() > 0 {
        let head = ticks.drop_last();
        dirty_means_unsaved(start, head);
        last_save_is_the_last(start, head);
        seen_so_far(ticks, last_save(start, head));
    }
}

proof fn seen_so_far(ticks: Seq<UsageTick>, k: int)
    requires
        ticks.len() > 0,
        -1 <= k < ticks.len() - 1,
    ensures
        seen_after(ticks, k) == (seen_after(ticks.drop_last(), k) || ticks.last().process is Some),
{
    let head = ticks.drop_last();
    if seen_after(head, k) {
        let j = choose|j: int| k < j < head.len() && (#[trigger] head[j]).process is Some;
        assert(ticks[j].process is Some);
    }
    if ticks.last().process is Some {
        assert(ticks[ticks.len() - 1].process is Some);
    }
    if seen_after(ticks, k) && ticks.last().process is None {
        let j = choose|j: int| k < j < ticks.len() && (#[trigger] ticks[j]).process is Some;
        assert(head[j].process is Some);
    }
}

/// In any run from the start of a collector, a tick leads to a save exactly where the last save, or
/// the start, is a minute ago and some tick since then, this one included, saw a program.
pub proof fn saves_only_changes(start: UsageState, ticks: Seq<UsageTick>, i: int)
    requires
        !start.dirty,
        0 <= i < ticks.len(),
    ensures
        saved_at(start, ticks, i) <==> {
            &&& ticks[i].since_save >= PERSIST_INTERVAL_MS
            &&& seen_after(ticks.take(i + 1), last_save(start, ticks.take(i)))
        },
{
    let before = ticks.take(i);
    let now = ticks.take(i + 1);
    assert(now.drop_last() =~= before);
    dirty_means_unsaved(start, before);
    last_save_is_the_last(start, before);
    seen_so_far(now, last_save(start, before));
}

/// Whether the times since the last save that a run was handed can be right: tick `i` came at
/// `times[i]`, counted from the start, and no more time is handed in than has passed since the tick
/// that led to the last save, or since the start.
pub open spec fn honest_times(start: UsageState, ticks: Seq<UsageTick>, times: Seq<nat>) -> bool {
    &&& times.len() == ticks.len()
    &&& forall|i: int| #![trigger ticks[i]]
        0 <= i < ticks.len() ==> {
            let k = last_save(start, ticks.take(i));
            ticks[i].since_save <= times[i] - (if k >= 0 {
                times[k] as int
            } else {
                0
            })
        }
}

/// However a run goes, two saves are at least a minute apart, and the first one comes no earlier
/// than a minute after the start.
pub proof fn saves_are_a_minute_apart(
    start: UsageState,
    ticks: Seq<UsageTick>,
    times: Seq<nat>,
    i: int,
)
    requires
        honest_times(start, ticks, times),
        0 <= i < ticks.len(),
        saved_at(start, ticks, i),
    ensures
        ({
            let k = last_save(start, ticks.take(i));
            &&& k < i
            &&& k >= 0 ==> saved_at(start, ticks, k) && times[i] - times[k] >= PERSIST_INTERVAL_MS
            &&& k < 0 ==> times[i] >= PERSIST_INTERVAL_MS
            &&& forall|j: int| k < j < i ==> !#[trigger] saved_at(start, ticks, j)
        }),
{
    let before = ticks.take(i);
    last_save_is_the_last(start, before);
    assert forall|j: int| 0 <= j < i implies saved_at(start, ticks, j) == saved_at(
        start,
        before,
        j,
    ) by {
        assert(ticks.take(j) =~= before.take(j));
    }
    assert(ticks[i].since_save >= PERSIST_INTERVAL_MS);
}

/// What a collector has done to the outside.
pub enum UsageEffect {
    /// Published what stands in the ledger.
    Published(Ledger),
    /// Saved what stands in the ledger under its day.
    Saved(Ledger),
}

/// Everything that a run does, in order: it publishes at the start, and saves and publishes at each
/// tick that leads to a save.
pub open spec fn effects(start: UsageState, ticks: Seq<UsageTick>) -> Seq<UsageEffect>
    decreases ticks.len(),
{
    if ticks.len() == 0 {
        seq![UsageEffect::Published(start.ledger)]
    } else {
        let before = run_after(start, ticks.drop_last());
        let past = effects(start, ticks.drop_last());
        if saves(before, ticks.last()) {
            let ledger = stepped(before, ticks.last()).ledger;
            past.push(UsageEffect::Saved(ledger)).push(UsageEffect::Published(ledger))
        } else {
            past
        }
    }
}

/// Before anything else a run publishes what it started from; after that each save is followed by a
/// publish of the same ledger, and nothing is published without a save.
pub proof fn saves_and_publishes_come_in_pairs(start: UsageState, ticks: Seq<UsageTick>)
    ensures
        effects(start, ticks).len() % 2 == 1,
        effects(start, ticks)[0] == UsageEffect::Published(start.ledger),
        forall|m: int| #![trigger effects(start, ticks)[2 * m + 1]]
            0 <= 2 * m < effects(start, ticks).len() - 1 ==> {
                &&& effects(start, ticks)[2 * m + 1] is Saved
                &&& effects(start, ticks)[2 * m + 2] == UsageEffect::Published(
                    effects(start, ticks)[2 * m + 1]->Saved_0,
                )
            },
    decreases ticks.len(),
{
    if ticks.len() > 0 {
        let head = ticks.drop_last();
        saves_and_publishes_come_in_pairs(start, head);
        let past = effects(start, head);
        let all = effects(start, ticks);
        assert forall|m: int| #![trigger all[2 * m + 1]] 0 <= 2 * m < all.len() - 1 implies {
            &&& all[2 * m + 1] is Saved
            &&& all[2 * m + 2] == UsageEffect::Published(all[2 * m + 1]->Saved_0)
        } by {
            if 2 * m < past.len() - 1 {
                assert(past[2 * m + 1] is Saved);
                assert(all[2 * m + 1] == past[2 * m + 1]);
                assert(all[2 * m + 2] == past[2 * m + 2]);
            }
        }
    }
}

/// Exactly the extension `.exe` is left out, once and at the end only.
pub proof fn only_the_extension_is_left_out(name: Seq<char>)
    ensures
        shown_name(name + seq!['.', 'e', 'x', 'e']) == name,
        !(name.len() >= 4 && name[name.len() - 4] == '.' && name[name.len() - 3] == 'e' && name[
        name.len() - 2] == 'x' && name[name.len() - 1] == 'e') ==> shown_name(name) == name,
{
    let full = name + seq!['.', 'e', 'x', 'e'];
    assert(full.subrange(full.len() - 4, full.len() as int) =~= seq!['.', 'e', 'x', 'e']);
    assert(full.take(full.len() - 4) =~= name);
    if exe_suffix().is_suffix_of(name) {
        let tail = name.subrange(name.len() - 4, name.len() as int);
        assert(tail[0] == '.' && tail[1] == 'e' && tail[2] == 'x' && tail[3] == 'e');
    }
}

/// The seconds that a run counts are those of its ticks, each with its own date and program, whether or
/// not anything is saved in between.
pub proof fn a_run_counts_every_tick(start: UsageState, ticks: Seq<UsageTick>)
    ensures
        run_after(start, ticks).ledger == recorded_all(
            start.ledger,
            ticks.map_values(
                |t: UsageTick| Sighting { at: t.at, process: t.process, secs: t.secs },
            ),
        ),
    decreases ticks.len(),
{
    let row = ticks.map_values(
        |t: UsageTick| Sighting { at: t.at, process: t.process, secs: t.secs },
    );
    if ticks.len() > 0 {
        a_run_counts_every_tick(start, ticks.drop_last());
        assert(row.drop_last() =~= ticks.drop_last().map_values(
            |t: UsageTick| Sighting { at: t.at, process: t.process, secs: t.secs },
        ));
    }
}

/// A tick counts the whole seconds of its interval, for the program and on the date that it was told of.
pub proof fn a_tick_counts_whole_seconds(
    at: Date,
    process: Option<Seq<char>>,
    millis: nat,
    since_save: nat,
)
    ensures
        ({
            let t = tick_of(at, process, millis, since_save);
            &&& t.secs * 1000 <= millis < t.secs * 1000 + 1000
            &&& t.at == at
            &&& t.process == process
            &&& t.since_save == since_save
        }),
{
}

/// A save is due exactly where something is unsaved and a minute has passed, and leaves nothing unsaved;
/// what is not saved stays unsaved.
pub proof fn a_minute_and_a_change_make_a_save(dirty: bool, sampled: bool, since_save: nat)
    ensures
        save_due(dirty, sampled, since_save).1 <==> (dirty || sampled) && since_save >= 60_000,
        save_due(dirty, sampled, since_save).1 ==> !save_due(dirty, sampled, since_save).0,
        !save_due(dirty, sampled, since_save).1 ==> (save_due(dirty, sampled, since_save).0 <==> (
        dirty || sampled)),
{
}

/// A push of app usage carries the time it was made and the programs used most of the ledger it was made
/// from.
pub proof fn usage_pushes_carry_the_top<F>(push: Push<F>, ledger: Ledger, ts_ms: u64)
    requires
        pushes_top(push, ledger, ts_ms),
    ensures
        push matches Push::AppUsage(snapshot) && {
            &&& snapshot.ts_ms == ts_ms
            &&& is_top(ledger, usages(snapshot.top@))
        },
{
}

} // verus!
