//! How long each program was in the foreground today and yesterday, and the programs used most.

use crate::day::{earlier, Date, Day};
use crate::interval::Interval;
use crate::model::{usages, AppUsageEntry, AppUsageSnapshot, Usage};
use crate::text::{
    comes_before, same_text, text_before, text_before_is_asymmetric, text_before_is_total,
    text_before_is_transitive,
};
use vstd::prelude::*;

verus! {

/// How many programs a snapshot lists.
pub const TOP_N: usize = 5;

/// Seconds per program name, each name once. The entries are kept in the order of the names, so that
/// two tables of the same programs and seconds are equal however they came about.
#[derive(Debug, PartialEq, Eq)]
pub struct UsageTotals {
    entries: Vec<(String, u64)>,
}

/// No two entries have the same name.
pub open spec fn names_differ(entries: Seq<(String, u64)>) -> bool {
    forall|i: int, j: int|
        0 <= i < j < entries.len() ==> (#[trigger] entries[i]).0@ != (#[trigger] entries[j]).0@
}

/// The entries stand in the order of their names.
pub open spec fn in_name_order(entries: Seq<(String, u64)>) -> bool {
    forall|i: int, j: int|
        0 <= i < j < entries.len() ==> text_before(
            (#[trigger] entries[i]).0@,
            (#[trigger] entries[j]).0@,
        )
}

proof fn ordered_names_differ(entries: Seq<(String, u64)>)
    requires
        in_name_order(entries),
    ensures
        names_differ(entries),
{
    assert forall|i: int, j: int| 0 <= i < j < entries.len() implies (#[trigger] entries[i]).0@ != (
    #[trigger] entries[j]).0@ by {
        text_before_is_asymmetric(entries[i].0@, entries[j].0@);
    }
}

/// Whether one of the entries has the name `n`.
pub open spec fn names_contain(entries: Seq<(String, u64)>, n: Seq<char>) -> bool {
    exists|i: int| 0 <= i < entries.len() && (#[trigger] entries[i]).0@ == n
}

/// The seconds that entries give each name.
pub open spec fn totals_map(entries: Seq<(String, u64)>) -> Map<Seq<char>, u64> {
    Map::new(
        |n: Seq<char>| names_contain(entries, n),
        |n: Seq<char>|
            entries[choose|i: int| 0 <= i < entries.len() && (#[trigger] entries[i]).0@ == n].1,
    )
}

proof fn totals_map_at(entries: Seq<(String, u64)>, i: int)
    requires
        names_differ(entries),
        0 <= i < entries.len(),
    ensures
        totals_map(entries).contains_key(entries[i].0@),
        totals_map(entries)[entries[i].0@] == entries[i].1,
{
    let n = entries[i].0@;
    assert(names_contain(entries, n));
    let k = choose|k: int| 0 <= k < entries.len() && (#[trigger] entries[k]).0@ == n;
    assert(k == i);
}

/// There are as many names as entries.
proof fn totals_map_len(entries: Seq<(String, u64)>)
    requires
        names_differ(entries),
    ensures
        totals_map(entries).dom().finite(),
        totals_map(entries).len() == entries.len(),
{
    let names = entries.map_values(|e: (String, u64)| e.0@);
    assert(names.no_duplicates());
    names.unique_seq_to_set();
    assert(totals_map(entries).dom() =~= names.to_set()) by {
        assert forall|n: Seq<char>| totals_map(entries).dom().contains(n) implies names.contains(
            n,
        ) by {
            let i = choose|i: int| 0 <= i < entries.len() && (#[trigger] entries[i]).0@ == n;
            assert(names[i] == n);
        }
        assert forall|n: Seq<char>| names.contains(n) implies totals_map(entries).dom().contains(
            n,
        ) by {
            let i = choose|i: int| 0 <= i < names.len() && names[i] == n;
            assert(entries[i].0@ == n);
        }
    }
}

proof fn setting_replaces(before: Seq<(String, u64)>, k: int, e: (String, u64))
    requires
        names_differ(before),
        0 <= k < before.len(),
        before[k].0@ == e.0@,
    ensures
        totals_map(before.update(k, e)) == totals_map(before).insert(e.0@, e.1),
{
    let after = before.update(k, e);
    assert forall|i: int, j: int| 0 <= i < j < after.len() implies (#[trigger] after[i]).0@ != (
    #[trigger] after[j]).0@ by {
        assert(before[i].0@ != before[j].0@);
    }
    let want = totals_map(before).insert(e.0@, e.1);
    assert forall|n: Seq<char>| #[trigger]
        totals_map(after).contains_key(n) == want.contains_key(n) by {
        if totals_map(after).contains_key(n) {
            let i = choose|i: int| 0 <= i < after.len() && (#[trigger] after[i]).0@ == n;
            assert(before[i].0@ == n);
        }
        if totals_map(before).contains_key(n) {
            let i = choose|i: int| 0 <= i < before.len() && (#[trigger] before[i]).0@ == n;
            assert(after[i].0@ == n);
        }
        assert(after[k].0@ == e.0@);
    }
    assert forall|n: Seq<char>| #[trigger] totals_map(after).contains_key(n) implies totals_map(
        after,
    )[n] == want[n] by {
        let i = choose|i: int| 0 <= i < after.len() && (#[trigger] after[i]).0@ == n;
        totals_map_at(after, i);
        totals_map_at(before, i);
    }
    assert(totals_map(after) =~= want);
}

proof fn inserting_extends(before: Seq<(String, u64)>, k: int, e: (String, u64))
    requires
        names_differ(before),
        0 <= k <= before.len(),
        !names_contain(before, e.0@),
    ensures
        names_differ(before.insert(k, e)),
        totals_map(before.insert(k, e)) == totals_map(before).insert(e.0@, e.1),
{
    let after = before.insert(k, e);
    assert(after[k] == e);
    assert forall|i: int| 0 <= i < before.len() implies (#[trigger] before[i]).0@ != e.0@ by {}
    assert forall|i: int, j: int| 0 <= i < j < after.len() implies (#[trigger] after[i]).0@ != (
    #[trigger] after[j]).0@ by {
        let p = if i < k { i } else { i - 1 };
        let q = if j < k { j } else { j - 1 };
        if i != k {
            assert(after[i] == before[p]);
        }
        if j != k {
            assert(after[j] == before[q]);
        }
    }
    let want = totals_map(before).insert(e.0@, e.1);
    assert forall|n: Seq<char>| #[trigger]
        totals_map(after).contains_key(n) == want.contains_key(n) by {
        if totals_map(after).contains_key(n) {
            let i = choose|i: int| 0 <= i < after.len() && (#[trigger] after[i]).0@ == n;
            if i != k {
                let p = if i < k { i } else { i - 1 };
                assert(before[p].0@ == n);
            }
        }
        if totals_map(before).contains_key(n) {
            let i = choose|i: int| 0 <= i < before.len() && (#[trigger] before[i]).0@ == n;
            let p = if i < k { i } else { i + 1 };
            assert(after[p].0@ == n);
        }
    }
    assert forall|n: Seq<char>| #[trigger] totals_map(after).contains_key(n) implies totals_map(
        after,
    )[n] == want[n] by {
        let i = choose|i: int| 0 <= i < after.len() && (#[trigger] after[i]).0@ == n;
        totals_map_at(after, i);
        if i != k {
            let p = if i < k { i } else { i - 1 };
            assert(after[i] == before[p]);
            totals_map_at(before, p);
        }
    }
    assert(totals_map(after) =~= want);
}

/// What entries amount to that are put in one after the other: of two with the same name, the later
/// one counts.
pub open spec fn gathered(entries: Seq<(String, u64)>) -> Map<Seq<char>, u64>
    decreases entries.len(),
{
    if entries.len() == 0 {
        Map::empty()
    } else {
        gathered(entries.drop_last()).insert(entries.last().0@, entries.last().1)
    }
}

impl View for UsageTotals {
    type V = Map<Seq<char>, u64>;

    closed spec fn view(&self) -> Map<Seq<char>, u64> {
        totals_map(self.entries@)
    }
}

impl UsageTotals {
    #[verifier::type_invariant]
    spec fn well_formed(self) -> bool {
        in_name_order(self.entries@)
    }

    /// No programs.
    pub fn new() -> (totals: Self)
        ensures
            totals@ == Map::<Seq<char>, u64>::empty(),
    {
        let totals = UsageTotals { entries: Vec::new() };
        assert(totals@ =~= Map::<Seq<char>, u64>::empty());
        totals
    }

    /// What entries amount to that are put in one after the other.
    pub fn from_entries(entries: Vec<(String, u64)>) -> (totals: Self)
        ensures
            totals@ == gathered(entries@),
    {
        let mut totals: UsageTotals = UsageTotals::new();
        for i in 0..entries.len()
            invariant
                totals@ == gathered(entries@.take(i as int)),
        {
            totals.insert(entries[i].0.clone(), entries[i].1);
            assert(entries@.take(i + 1).drop_last() =~= entries@.take(i as int));
        }
        assert(entries@.take(entries@.len() as int) =~= entries@);
        totals
    }

    /// The entries, in the order of their names.
    pub fn entries(&self) -> (entries: &Vec<(String, u64)>)
        ensures
            in_name_order(entries@),
            names_differ(entries@),
            totals_map(entries@) == self@,
    {
        proof {
            use_type_invariant(self);
            ordered_names_differ(self.entries@);
        }
        &self.entries
    }

    /// How many programs there are.
    pub fn len(&self) -> (len: usize)
        ensures
            self@.dom().finite(),
            len == self@.len(),
    {
        proof {
            use_type_invariant(self);
            ordered_names_differ(self.entries@);
            totals_map_len(self.entries@);
        }
        self.entries.len()
    }

    /// Whether there are no programs.
    pub fn is_empty(&self) -> (empty: bool)
        ensures
            empty == (self@ == Map::<Seq<char>, u64>::empty()),
    {
        proof {
            if self.entries.len() == 0 {
                assert(self@ =~= Map::<Seq<char>, u64>::empty());
            } else {
                assert(names_contain(self.entries@, self.entries@[0].0@));
                assert(self@.contains_key(self.entries@[0].0@));
            }
        }
        self.entries.len() == 0
    }

    fn position(&self, name: &str) -> (at: Option<usize>)
        ensures
            at is Some <==> self@.contains_key(name@),
            at is Some ==> at->0 < self.entries.len() && self.entries@[at->0 as int].0@ == name@,
    {
        for i in 0..self.entries.len()
            invariant
                forall|j: int| 0 <= j < i ==> (#[trigger] self.entries@[j]).0@ != name@,
        {
            if same_text(self.entries[i].0.as_str(), name) {
                assert(names_contain(self.entries@, name@));
                return Some(i);
            }
        }
        None
    }

    /// The seconds of one program.
    pub fn get(&self, name: &str) -> (secs: Option<&u64>)
        ensures
            secs is Some <==> self@.contains_key(name@),
            secs is Some ==> *secs->0 == self@[name@],
    {
        match self.position(name) {
            Some(i) => {
                proof {
                    use_type_invariant(self);
                    ordered_names_differ(self.entries@);
                    totals_map_at(self.entries@, i as int);
                }
                Some(&self.entries[i].1)
            },
            None => None,
        }
    }

    /// Where a name stands, or is to stand, in the order of the names.
    fn slot(&self, name: &str) -> (at: usize)
        ensures
            at <= self.entries.len(),
            forall|j: int| 0 <= j < at ==> text_before((#[trigger] self.entries@[j]).0@, name@),
            at < self.entries.len() ==> !text_before(self.entries@[at as int].0@, name@),
    {
        let mut at: usize = 0;
        while at < self.entries.len() && comes_before(self.entries[at].0.as_str(), name)
            invariant
                at <= self.entries.len(),
                forall|j: int| 0 <= j < at ==> text_before((#[trigger] self.entries@[j]).0@, name@),
            decreases self.entries.len() - at,
        {
            at += 1;
        }
        at
    }

    /// Sets the seconds of one program.
    pub fn insert(&mut self, name: String, secs: u64)
        ensures
            final(self)@ == old(self)@.insert(name@, secs),
    {
        let at: usize = self.slot(name.as_str());
        let known: bool = at < self.entries.len() && same_text(
            self.entries[at].0.as_str(),
            name.as_str(),
        );
        proof {
            use_type_invariant(&*self);
            ordered_names_differ(self.entries@);
        }
        let mut entries: Vec<(String, u64)> = Vec::new();
        std::mem::swap(&mut entries, &mut self.entries);
        let ghost before = entries@;
        let ghost e = (name, secs);
        if known {
            entries.set(at, (name, secs));
            proof {
                setting_replaces(before, at as int, e);
                keeping_a_name_keeps_order(before, at as int, e);
            }
        } else {
            entries.insert(at, (name, secs));
            proof {
                slot_keeps_order(before, at as int, e);
                inserting_extends(before, at as int, e);
            }
        }
        self.entries = entries;
    }
}

impl Clone for UsageTotals {
    fn clone(&self) -> (copy: Self)
        ensures
            copy@ == self@,
    {
        let mut entries: Vec<(String, u64)> = Vec::new();
        for i in 0..self.entries.len()
            invariant
                entries@ == self.entries@.take(i as int),
        {
            let name: String = self.entries[i].0.clone();
            entries.push((name, self.entries[i].1));
            assert(self.entries@.take(i + 1) =~= self.entries@.take(i as int).push(
                self.entries@[i as int],
            ));
        }
        assert(self.entries@.take(self.entries@.len() as int) =~= self.entries@);
        proof {
            use_type_invariant(self);
        }
        UsageTotals { entries }
    }
}

proof fn keeping_a_name_keeps_order(before: Seq<(String, u64)>, k: int, e: (String, u64))
    requires
        in_name_order(before),
        0 <= k < before.len(),
        before[k].0@ == e.0@,
    ensures
        in_name_order(before.update(k, e)),
{
    let after = before.update(k, e);
    assert forall|i: int, j: int| 0 <= i < j < after.len() implies text_before(
        (#[trigger] after[i]).0@,
        (#[trigger] after[j]).0@,
    ) by {
        assert(text_before(before[i].0@, before[j].0@));
    }
}

proof fn slot_keeps_order(before: Seq<(String, u64)>, k: int, e: (String, u64))
    requires
        in_name_order(before),
        0 <= k <= before.len(),
        forall|j: int| 0 <= j < k ==> text_before((#[trigger] before[j]).0@, e.0@),
        k < before.len() ==> !text_before(before[k].0@, e.0@) && before[k].0@ != e.0@,
    ensures
        in_name_order(before.insert(k, e)),
        !names_contain(before, e.0@),
{
    let after = before.insert(k, e);
    assert forall|j: int| k <= j < before.len() implies text_before(
        e.0@,
        (#[trigger] before[j]).0@,
    ) by {
        text_before_is_total(e.0@, before[k].0@);
        if j > k {
            text_before_is_transitive(e.0@, before[k].0@, before[j].0@);
        }
    }
    assert forall|i: int, j: int| 0 <= i < j < after.len() implies text_before(
        (#[trigger] after[i]).0@,
        (#[trigger] after[j]).0@,
    ) by {
        let p = if i < k { i } else { i - 1 };
        let q = if j < k { j } else { j - 1 };
        if i != k {
            assert(after[i] == before[p]);
        }
        if j != k {
            assert(after[j] == before[q]);
        }
    }
    assert forall|i: int| 0 <= i < before.len() implies (#[trigger] before[i]).0@ != e.0@ by {
        text_before_is_asymmetric(before[i].0@, e.0@);
    }
}

/// Entries with different names amount to the same in whatever order they come, and to just what
/// they say: a table that was taken apart is put together again.
pub proof fn order_of_entries_does_not_matter(a: Seq<(String, u64)>, b: Seq<(String, u64)>)
    requires
        names_differ(a),
        names_differ(b),
        forall|n: Seq<char>, secs: u64| #[trigger] says(a, n, secs) <==> says(b, n, secs),
    ensures
        gathered(b) == totals_map(a),
{
    gathering_is_the_map(b);
    assert forall|n: Seq<char>| #[trigger]
        totals_map(a).contains_key(n) == totals_map(b).contains_key(n) by {
        if totals_map(a).contains_key(n) {
            let i = choose|i: int| 0 <= i < a.len() && (#[trigger] a[i]).0@ == n;
            assert(says(a, n, a[i].1));
            assert(says(b, n, a[i].1));
        }
        if totals_map(b).contains_key(n) {
            let i = choose|i: int| 0 <= i < b.len() && (#[trigger] b[i]).0@ == n;
            assert(says(b, n, b[i].1));
            assert(says(a, n, b[i].1));
        }
    }
    assert forall|n: Seq<char>| #[trigger] totals_map(a).contains_key(n) implies totals_map(a)[n]
        == totals_map(b)[n] by {
        let i = choose|i: int| 0 <= i < a.len() && (#[trigger] a[i]).0@ == n;
        totals_map_at(a, i);
        assert(says(a, n, a[i].1));
        assert(says(b, n, a[i].1));
        let j = choose|j: int|
            0 <= j < b.len() && (#[trigger] b[j]).0@ == n && b[j].1 == a[i].1;
        totals_map_at(b, j);
    }
    assert(totals_map(b) =~= totals_map(a));
}

/// Whether one of the entries gives the name `n` so many seconds.
pub open spec fn says(entries: Seq<(String, u64)>, n: Seq<char>, secs: u64) -> bool {
    exists|i: int| 0 <= i < entries.len() && (#[trigger] entries[i]).0@ == n && entries[i].1 == secs
}

proof fn gathering_is_the_map(entries: Seq<(String, u64)>)
    requires
        names_differ(entries),
    ensures
        gathered(entries) == totals_map(entries),
    decreases entries.len(),
{
    if entries.len() == 0 {
        assert(totals_map(entries) =~= Map::<Seq<char>, u64>::empty());
    } else {
        let head = entries.drop_last();
        let last = entries.last();
        assert forall|i: int, j: int| 0 <= i < j < head.len() implies (#[trigger] head[i]).0@ != (
        #[trigger] head[j]).0@ by {
            assert(entries[i].0@ != entries[j].0@);
        }
        gathering_is_the_map(head);
        assert forall|i: int| 0 <= i < head.len() implies (#[trigger] head[i]).0@ != last.0@ by {
            assert(entries[i].0@ != entries[entries.len() - 1].0@);
        }
        inserting_extends(head, head.len() as int, last);
        assert(head.insert(head.len() as int, last) =~= entries);
    }
}

/// There is one way to hold given programs and seconds: two tables that say the same have the same
/// entries in the same places.
pub proof fn totals_have_one_form(a: Seq<(String, u64)>, b: Seq<(String, u64)>)
    requires
        in_name_order(a),
        in_name_order(b),
        totals_map(a) == totals_map(b),
    ensures
        a.len() == b.len(),
        forall|i: int|
            0 <= i < a.len() ==> (#[trigger] a[i]).0@ == (#[trigger] b[i]).0@ && a[i].1 == b[i].1,
{
    ordered_names_differ(a);
    ordered_names_differ(b);
    totals_map_len(a);
    totals_map_len(b);
    forms_agree_up_to(a, b, a.len() as int);
    assert forall|i: int| 0 <= i < a.len() implies (#[trigger] a[i]).0@ == (#[trigger] b[i]).0@
        && a[i].1 == b[i].1 by {
        totals_map_at(a, i);
        totals_map_at(b, i);
    }
}

proof fn forms_agree_up_to(a: Seq<(String, u64)>, b: Seq<(String, u64)>, n: int)
    requires
        in_name_order(a),
        in_name_order(b),
        totals_map(a) == totals_map(b),
        a.len() == b.len(),
        0 <= n <= a.len(),
    ensures
        forall|i: int| 0 <= i < n ==> (#[trigger] a[i]).0@ == (#[trigger] b[i]).0@,
    decreases n,
{
    if n > 0 {
        let k = n - 1;
        forms_agree_up_to(a, b, k);
        if a[k].0@ != b[k].0@ {
            first_difference_comes_later(a, b, k);
            first_difference_comes_later(b, a, k);
            text_before_is_asymmetric(a[k].0@, b[k].0@);
        }
    }
}

proof fn first_difference_comes_later(a: Seq<(String, u64)>, b: Seq<(String, u64)>, k: int)
    requires
        in_name_order(a),
        in_name_order(b),
        totals_map(a) == totals_map(b),
        a.len() == b.len(),
        0 <= k < a.len(),
        forall|i: int| 0 <= i < k ==> (#[trigger] a[i]).0@ == (#[trigger] b[i]).0@,
        a[k].0@ != b[k].0@,
    ensures
        text_before(b[k].0@, a[k].0@),
{
    ordered_names_differ(a);
    totals_map_at(a, k);
    assert(totals_map(b).contains_key(a[k].0@));
    let p = choose|p: int| 0 <= p < b.len() && (#[trigger] b[p]).0@ == a[k].0@;
    if p < k {
        assert(a[p].0@ == b[p].0@);
    }
}

/// What a tracker knows: the current day, and the seconds per program of that day and of the last
/// day before it that has any record.
pub struct Ledger {
    pub day: Date,
    pub today: Map<Seq<char>, u64>,
    pub yesterday: Map<Seq<char>, u64>,
}

/// What is known once the date has reached `at`: a later date turns today into yesterday and starts
/// an empty day, however many dates lie between; any other date changes nothing.
pub open spec fn rolled(t: Ledger, at: Date) -> Ledger {
    if earlier(t.day, at) {
        Ledger { day: at, today: Map::empty(), yesterday: t.today }
    } else {
        t
    }
}

/// The seconds of a program, and none where it has no record.
pub open spec fn secs_of(totals: Map<Seq<char>, u64>, name: Seq<char>) -> u64 {
    if totals.contains_key(name) {
        totals[name]
    } else {
        0
    }
}

/// What is known after a sample at `at` that saw `process` in the foreground for `secs` seconds.
pub open spec fn recorded(t: Ledger, at: Date, process: Option<Seq<char>>, secs: nat) -> Ledger {
    let r = rolled(t, at);
    match process {
        Some(name) => Ledger {
            today: r.today.insert(name, (secs_of(r.today, name) + secs) as u64),
            ..r
        },
        None => r,
    }
}

/// Whether the seconds of a sample can still be counted.
pub open spec fn countable(t: Ledger, at: Date, process: Option<Seq<char>>, secs: nat) -> bool {
    match process {
        Some(name) => secs_of(rolled(t, at).today, name) + secs <= u64::MAX,
        None => true,
    }
}

/// What a snapshot says of one program.
pub open spec fn usage_of(t: Ledger, name: Seq<char>) -> Usage {
    Usage { name, today_secs: t.today[name], yesterday_secs: secs_of(t.yesterday, name) }
}

/// Whether `a` is listed before `b`: it was used longer today, or as long and its name comes first.
pub open spec fn ranks_above(a: Usage, b: Usage) -> bool {
    a.today_secs > b.today_secs || (a.today_secs == b.today_secs && text_before(a.name, b.name))
}

/// Whether `top` lists, in order of rank, the programs used most today: as many as there are, at
/// most `TOP_N`, and none that is left out ranks above one that is listed.
pub open spec fn is_top(t: Ledger, top: Seq<Usage>) -> bool {
    &&& top.len() == (if t.today.len() <= TOP_N { t.today.len() } else { TOP_N as nat })
    &&& forall|i: int|
        0 <= i < top.len() ==> t.today.contains_key((#[trigger] top[i]).name) && top[i]
            == usage_of(t, top[i].name)
    &&& forall|i: int, j: int|
        0 <= i < j < top.len() ==> ranks_above(#[trigger] top[i], #[trigger] top[j])
    &&& forall|i: int, n: Seq<char>|
        0 <= i < top.len() && #[trigger] t.today.contains_key(n) && !lists(top, n) ==> ranks_above(
            #[trigger] top[i],
            usage_of(t, n),
        )
}

/// Whether one of the entries is of the program `n`.
pub open spec fn lists(top: Seq<Usage>, n: Seq<char>) -> bool {
    exists|i: int| 0 <= i < top.len() && (#[trigger] top[i]).name == n
}

proof fn ranks_above_is_asymmetric(a: Usage, b: Usage)
    ensures
        !(ranks_above(a, b) && ranks_above(b, a)),
{
    text_before_is_asymmetric(a.name, b.name);
}

proof fn ranks_above_is_total(a: Usage, b: Usage)
    ensures
        a.name == b.name || ranks_above(a, b) || ranks_above(b, a),
{
    text_before_is_total(a.name, b.name);
}

proof fn ranks_above_is_transitive(a: Usage, b: Usage, c: Usage)
    requires
        ranks_above(a, b),
        ranks_above(b, c),
    ensures
        ranks_above(a, c),
{
    if text_before(a.name, b.name) && text_before(b.name, c.name) {
        text_before_is_transitive(a.name, b.name, c.name);
    }
}

fn entry_ranks_above(a: &AppUsageEntry, b: &AppUsageEntry) -> (r: bool)
    ensures
        r == ranks_above(a@, b@),
{
    a.today_secs > b.today_secs || (a.today_secs == b.today_secs && comes_before(
        a.name.as_str(),
        b.name.as_str(),
    ))
}

/// Counts foreground time per program and day.
#[derive(Debug)]
pub struct UsageTracker {
    day: Day,
    today: UsageTotals,
    yesterday: UsageTotals,
}

impl View for UsageTracker {
    type V = Ledger;

    closed spec fn view(&self) -> Ledger {
        Ledger { day: self.day@, today: self.today@, yesterday: self.yesterday@ }
    }
}

impl UsageTracker {
    /// A tracker that goes on from what is already known of `day` and the day before.
    pub fn new(day: Day, today: UsageTotals, yesterday: UsageTotals) -> (tracker: Self)
        ensures
            tracker@ == (Ledger { day: day@, today: today@, yesterday: yesterday@ }),
    {
        UsageTracker { day, today, yesterday }
    }

    /// The day that is being counted.
    pub fn day(&self) -> (day: Day)
        ensures
            day@ == self@.day,
    {
        self.day
    }

    /// The seconds per program of that day.
    pub fn today(&self) -> (today: &UsageTotals)
        ensures
            today@ == self@.today,
    {
        &self.today
    }

    /// Counts one sample of the foreground program. `None` stands for a sample that saw no program:
    /// it can only bring a new day.
    pub fn record(&mut self, at: Day, process: Option<&str>, elapsed: Interval)
        requires
            countable(
                old(self)@,
                at@,
                match process {
                    Some(name) => Some(name@),
                    None => None,
                },
                elapsed@ / 1000,
            ),
        ensures
            final(self)@ == recorded(
                old(self)@,
                at@,
                match process {
                    Some(name) => Some(name@),
                    None => None,
                },
                elapsed@ / 1000,
            ),
    {
        self.roll_to(at);
        if let Some(name) = process {
            let known: u64 = match self.today.get(name) {
                Some(secs) => *secs,
                None => 0,
            };
            let total: u64 = known + elapsed.as_secs();
            self.today.insert(name.to_string(), total);
        }
    }

    /// Moves on to `at`, if that is a later day, and says whether it was.
    pub fn roll_to(&mut self, at: Day) -> (moved: bool)
        ensures
            final(self)@ == rolled(old(self)@, at@),
            moved == earlier(old(self)@.day, at@),
    {
        if !at.is_after(&self.day) {
            return false;
        }
        let mut past: UsageTotals = UsageTotals::new();
        std::mem::swap(&mut past, &mut self.today);
        self.yesterday = past;
        self.day = at;
        true
    }

    /// The programs used most today, with what each had yesterday.
    pub fn snapshot(&self, ts_ms: u64) -> (snapshot: AppUsageSnapshot)
        ensures
            snapshot.ts_ms == ts_ms,
            is_top(self@, snapshot@.top),
    {
        let entries: &Vec<(String, u64)> = self.today.entries();
        let ghost all = entries@;
        let ghost t = self@;
        let mut top: Vec<AppUsageEntry> = Vec::new();
        for k in 0..entries.len()
            invariant
                all == entries@,
                t == self@,
                names_differ(all),
                totals_map(all) == t.today,
                ranked(t, all.take(k as int), usages(top@)),
        {
            let name: &String = &entries[k].0;
            let entry = AppUsageEntry {
                name: name.clone(),
                today_secs: entries[k].1,
                yesterday_secs: match self.yesterday.get(name.as_str()) {
                    Some(secs) => *secs,
                    None => 0,
                },
            };
            proof {
                totals_map_at(all, k as int);
            }
            assert(entry@ == usage_of(t, all[k as int].0@));
            let ghost before = usages(top@);
            let mut at: usize = 0;
            while at < top.len() && entry_ranks_above(&top[at], &entry)
                invariant
                    at <= top.len(),
                    before == usages(top@),
                    forall|p: int| 0 <= p < at ==> ranks_above(#[trigger] before[p], entry@),
                decreases top.len() - at,
            {
                at += 1;
            }
            let ghost e = entry@;
            top.insert(at, entry);
            proof {
                assert(usages(top@) =~= before.insert(at as int, e));
                insertion_keeps_rank(t, all, k as int, before, at as int);
            }
        }
        proof {
            assert(all.take(all.len() as int) =~= all);
            totals_map_len(all);
        }
        let ghost full = usages(top@);
        top.truncate(TOP_N);
        proof {
            let m = if full.len() <= TOP_N { full.len() as int } else { TOP_N as int };
            assert(usages(top@) =~= full.take(m));
            cutting_keeps_the_top(t, all, full, m);
        }
        AppUsageSnapshot { ts_ms, top }
    }
}

/// Whether `row` lists exactly the programs of `entries`, in order of rank.
spec fn ranked(t: Ledger, entries: Seq<(String, u64)>, row: Seq<Usage>) -> bool {
    &&& row.len() == entries.len()
    &&& forall|i: int, j: int|
        0 <= i < j < row.len() ==> ranks_above(#[trigger] row[i], #[trigger] row[j])
    &&& forall|p: int| #![trigger row[p]]
        0 <= p < row.len() ==> row[p] == usage_of(t, row[p].name) && names_contain(
            entries,
            row[p].name,
        )
    &&& forall|i: int| 0 <= i < entries.len() ==> lists(row, (#[trigger] entries[i]).0@)
}

proof fn insertion_keeps_rank(
    t: Ledger,
    all: Seq<(String, u64)>,
    k: int,
    row: Seq<Usage>,
    at: int,
)
    requires
        names_differ(all),
        0 <= k < all.len(),
        ranked(t, all.take(k), row),
        0 <= at <= row.len(),
        forall|p: int| 0 <= p < at ==> ranks_above(#[trigger] row[p], usage_of(t, all[k].0@)),
        at < row.len() ==> !ranks_above(row[at], usage_of(t, all[k].0@)),
    ensures
        ranked(t, all.take(k + 1), row.insert(at, usage_of(t, all[k].0@))),
{
    let e = usage_of(t, all[k].0@);
    let next = row.insert(at, e);
    let old_entries = all.take(k);
    let entries = all.take(k + 1);
    assert forall|p: int| at <= p < row.len() implies ranks_above(e, #[trigger] row[p]) by {
        let i = choose|i: int|
            0 <= i < old_entries.len() && (#[trigger] old_entries[i]).0@ == row[at].name;
        assert(all[i].0@ != all[k].0@);
        ranks_above_is_total(e, row[at]);
        if p > at {
            ranks_above_is_transitive(e, row[at], row[p]);
        }
    }
    assert forall|p: int| #![trigger next[p]] 0 <= p < next.len() implies next[p] == usage_of(
        t,
        next[p].name,
    ) && names_contain(entries, next[p].name) by {
        if p == at {
            assert(entries[k].0@ == e.name);
        } else {
            let q = if p < at { p } else { p - 1 };
            assert(next[p] == row[q]);
            let i = choose|i: int|
                0 <= i < old_entries.len() && (#[trigger] old_entries[i]).0@ == row[q].name;
            assert(entries[i].0@ == row[q].name);
        }
    }
    assert forall|i: int, j: int| 0 <= i < j < next.len() implies ranks_above(
        #[trigger] next[i],
        #[trigger] next[j],
    ) by {
        let p = if i < at { i } else { i - 1 };
        let q = if j < at { j } else { j - 1 };
        if i != at {
            assert(next[i] == row[p]);
        }
        if j != at {
            assert(next[j] == row[q]);
        }
    }
    assert forall|i: int| 0 <= i < entries.len() implies lists(next, (#[trigger] entries[i]).0@) by {
        if i == k {
            assert(next[at].name == entries[i].0@);
        } else {
            assert(old_entries[i] == entries[i]);
            let p = choose|p: int| 0 <= p < row.len() && (#[trigger] row[p]).name == entries[i].0@;
            let q = if p < at { p } else { p + 1 };
            assert(next[q].name == entries[i].0@);
        }
    }
}

proof fn cutting_keeps_the_top(t: Ledger, all: Seq<(String, u64)>, full: Seq<Usage>, m: int)
    requires
        names_differ(all),
        totals_map(all) == t.today,
        t.today.len() == all.len(),
        ranked(t, all, full),
        m == (if full.len() <= TOP_N { full.len() as int } else { TOP_N as int }),
    ensures
        is_top(t, full.take(m)),
{
    let top = full.take(m);
    assert forall|i: int, n: Seq<char>|
        0 <= i < top.len() && #[trigger] t.today.contains_key(n) && !lists(
            top,
            n,
        ) implies ranks_above(#[trigger] top[i], usage_of(t, n)) by {
        let k = choose|k: int| 0 <= k < all.len() && (#[trigger] all[k]).0@ == n;
        assert(lists(full, all[k].0@));
        let p = choose|p: int| 0 <= p < full.len() && (#[trigger] full[p]).name == n;
        if p < m {
            assert(top[p].name == n);
        }
        assert(top[i] == full[i]);
    }
    assert forall|i: int| 0 <= i < top.len() implies t.today.contains_key((#[trigger] top[i]).name)
        && top[i] == usage_of(t, top[i].name) by {
        assert(top[i] == full[i]);
    }
    assert forall|i: int, j: int| 0 <= i < j < top.len() implies ranks_above(
        #[trigger] top[i],
        #[trigger] top[j],
    ) by {
        assert(top[i] == full[i] && top[j] == full[j]);
    }
}

/// What is known decides the list of programs used most: two lists that qualify are the same, so the
/// order in which programs happen to be stored never shows.
pub proof fn top_is_unique(t: Ledger, a: Seq<Usage>, b: Seq<Usage>)
    requires
        is_top(t, a),
        is_top(t, b),
    ensures
        a == b,
{
    top_agrees_up_to(t, a, b, a.len() as int);
    assert(a =~= b);
}

proof fn top_agrees_up_to(t: Ledger, a: Seq<Usage>, b: Seq<Usage>, n: int)
    requires
        is_top(t, a),
        is_top(t, b),
        0 <= n <= a.len(),
    ensures
        forall|i: int| 0 <= i < n ==> a[i] == b[i],
    decreases n,
{
    if n > 0 {
        top_agrees_up_to(t, a, b, n - 1);
        let k = n - 1;
        if a[k].name != b[k].name {
            listed_or_left_out(t, a, b, k);
            listed_or_left_out(t, b, a, k);
            ranks_above_is_asymmetric(a[k], b[k]);
        }
    }
}

proof fn listed_or_left_out(t: Ledger, a: Seq<Usage>, b: Seq<Usage>, k: int)
    requires
        is_top(t, a),
        is_top(t, b),
        0 <= k < a.len(),
        forall|i: int| 0 <= i < k ==> a[i] == b[i],
        a[k].name != b[k].name,
    ensures
        ranks_above(a[k], b[k]),
{
    if lists(a, b[k].name) {
        let p = choose|p: int| 0 <= p < a.len() && (#[trigger] a[p]).name == b[k].name;
        if p < k {
            ranks_above_is_asymmetric(b[p], b[k]);
            assert(b[p] == b[k]);
        }
        assert(a[p] == b[k]);
    } else {
        assert(t.today.contains_key(b[k].name));
    }
}

/// A sample never moves the day back.
pub proof fn day_never_goes_back(t: Ledger, at: Date, process: Option<Seq<char>>, secs: nat)
    ensures
        !earlier(recorded(t, at, process, secs).day, t.day),
        !earlier(recorded(t, at, process, secs).day, at),
{
}

/// A sample from the same day or from a clock that was set back leaves the day, yesterday, and every
/// other program as they were.
pub proof fn earlier_sample_keeps_the_day(
    t: Ledger,
    at: Date,
    process: Option<Seq<char>>,
    secs: nat,
    other: Seq<char>,
)
    requires
        !earlier(t.day, at),
        process != Some(other),
    ensures
        ({
            let r = recorded(t, at, process, secs);
            &&& r.day == t.day
            &&& r.yesterday == t.yesterday
            &&& r.today.contains_key(other) == t.today.contains_key(other)
            &&& secs_of(r.today, other) == secs_of(t.today, other)
        }),
{
}

/// The first sample of a later day, however far ahead, turns the day that was counted last into
/// yesterday and starts the new day with that sample alone.
pub proof fn later_sample_starts_a_day(t: Ledger, at: Date, process: Option<Seq<char>>, secs: nat)
    requires
        earlier(t.day, at),
        countable(t, at, process, secs),
    ensures
        ({
            let r = recorded(t, at, process, secs);
            &&& r.day == at
            &&& r.yesterday == t.today
            &&& r.today == (match process {
                Some(name) => Map::<Seq<char>, u64>::empty().insert(name, secs as u64),
                None => Map::<Seq<char>, u64>::empty(),
            })
        }),
{
}

/// Two samples of one program on one day count as one sample of both lengths.
pub proof fn samples_add_up(t: Ledger, at: Date, name: Seq<char>, first: nat, second: nat)
    requires
        countable(t, at, Some(name), first + second),
    ensures
        countable(recorded(t, at, Some(name), first), at, Some(name), second),
        recorded(recorded(t, at, Some(name), first), at, Some(name), second) == recorded(
            t,
            at,
            Some(name),
            first + second,
        ),
{
    let once = recorded(t, at, Some(name), first + second);
    let twice = recorded(recorded(t, at, Some(name), first), at, Some(name), second);
    assert(twice.today =~= once.today);
}

/// The order of two samples of one day does not matter.
pub proof fn samples_commute(
    t: Ledger,
    at: Date,
    p: Option<Seq<char>>,
    a: nat,
    q: Option<Seq<char>>,
    b: nat,
)
    requires
        countable(t, at, p, a),
        countable(recorded(t, at, p, a), at, q, b),
    ensures
        countable(t, at, q, b),
        countable(recorded(t, at, q, b), at, p, a),
        recorded(recorded(t, at, p, a), at, q, b) == recorded(recorded(t, at, q, b), at, p, a),
{
    let pq = recorded(recorded(t, at, p, a), at, q, b);
    let qp = recorded(recorded(t, at, q, b), at, p, a);
    assert(pq.today =~= qp.today);
}

/// One sample: its date, the program it saw, if any, and the seconds that count for it.
pub struct Sighting {
    pub at: Date,
    pub process: Option<Seq<char>>,
    pub secs: nat,
}

/// What is known after a row of samples.
pub open spec fn recorded_all(t: Ledger, row: Seq<Sighting>) -> Ledger
    decreases row.len(),
{
    if row.len() == 0 {
        t
    } else {
        let last = row.last();
        recorded(recorded_all(t, row.drop_last()), last.at, last.process, last.secs)
    }
}

/// The seconds that a row of samples counts for one program.
pub open spec fn counted(row: Seq<Sighting>, name: Seq<char>) -> nat
    decreases row.len(),
{
    if row.len() == 0 {
        0
    } else {
        counted(row.drop_last(), name) + if row.last().process == Some(name) {
            row.last().secs
        } else {
            0
        }
    }
}

/// However the clock jumps, the day that is counted is the latest one ever seen.
pub proof fn day_is_the_latest_seen(t: Ledger, row: Seq<Sighting>)
    ensures
        !earlier(recorded_all(t, row).day, t.day),
        forall|i: int|
            0 <= i < row.len() ==> !earlier(recorded_all(t, row).day, (#[trigger] row[i]).at),
        recorded_all(t, row).day == t.day || exists|i: int|
            0 <= i < row.len() && (#[trigger] row[i]).at == recorded_all(t, row).day,
    decreases row.len(),
{
    if row.len() > 0 {
        let head = row.drop_last();
        day_is_the_latest_seen(t, head);
        assert forall|i: int| 0 <= i < row.len() implies !earlier(
            recorded_all(t, row).day,
            (#[trigger] row[i]).at,
        ) by {
            if i < head.len() {
                assert(row[i] == head[i]);
            }
        }
        if recorded_all(t, row).day == row.last().at {
            assert(row[row.len() - 1].at == recorded_all(t, row).day);
        } else if recorded_all(t, head).day != t.day {
            let i = choose|i: int|
                0 <= i < head.len() && (#[trigger] head[i]).at == recorded_all(t, head).day;
            assert(row[i].at == recorded_all(t, row).day);
        }
    }
}

/// As long as no later day comes, each program has what it had and the seconds of all samples that
/// saw it, and yesterday stays as it was.
pub proof fn a_day_adds_up(t: Ledger, row: Seq<Sighting>, name: Seq<char>)
    requires
        forall|i: int| 0 <= i < row.len() ==> !earlier(t.day, (#[trigger] row[i]).at),
        secs_of(t.today, name) + counted(row, name) <= u64::MAX,
    ensures
        recorded_all(t, row).day == t.day,
        recorded_all(t, row).yesterday == t.yesterday,
        secs_of(recorded_all(t, row).today, name) == secs_of(t.today, name) + counted(row, name),
    decreases row.len(),
{
    if row.len() > 0 {
        let head = row.drop_last();
        assert forall|i: int| 0 <= i < head.len() implies !earlier(
            t.day,
            (#[trigger] head[i]).at,
        ) by {
            assert(row[i] == head[i]);
        }
        a_day_adds_up(t, head, name);
        assert(!earlier(t.day, row[row.len() - 1].at));
    }
}

/// A sample that saw no program changes nothing on a day that is already counted.
pub proof fn empty_sample_changes_nothing(t: Ledger, at: Date, secs: nat)
    requires
        !earlier(t.day, at),
    ensures
        recorded(t, at, None, secs) == t,
{
}

/// The list goes by the seconds of today and nothing else, and among equals by name; nobody who is left
/// out has more seconds than anybody listed. It has five entries, or as many as there are programs, and
/// each says what was counted for its program today and yesterday.
pub proof fn top_goes_by_seconds_today(t: Ledger, top: Seq<Usage>)
    requires
        is_top(t, top),
    ensures
        t.today.len() >= 5 ==> top.len() == 5,
        t.today.len() < 5 ==> top.len() == t.today.len(),
        forall|i: int, j: int|
            0 <= i < j < top.len() ==> (#[trigger] top[i]).today_secs >= (
            #[trigger] top[j]).today_secs,
        forall|i: int, j: int|
            0 <= i < j < top.len() && (#[trigger] top[i]).today_secs == (
            #[trigger] top[j]).today_secs ==> text_before(top[i].name, top[j].name),
        forall|i: int, j: int|
            0 <= i < j < top.len() ==> (#[trigger] top[i]).name != (#[trigger] top[j]).name,
        forall|i: int|
            0 <= i < top.len() ==> {
                let e = #[trigger] top[i];
                &&& t.today.contains_key(e.name)
                &&& e.today_secs == t.today[e.name]
                &&& t.yesterday.contains_key(e.name) ==> e.yesterday_secs == t.yesterday[e.name]
                &&& !t.yesterday.contains_key(e.name) ==> e.yesterday_secs == 0
            },
        forall|i: int, n: Seq<char>|
            0 <= i < top.len() && #[trigger] t.today.contains_key(n) && (forall|k: int|
                0 <= k < top.len() ==> (#[trigger] top[k]).name != n) ==> {
                &&& t.today[n] <= (#[trigger] top[i]).today_secs
                &&& t.today[n] == top[i].today_secs ==> text_before(top[i].name, n)
            },
{
    assert forall|i: int, j: int| 0 <= i < j < top.len() implies (#[trigger] top[i]).name != (
    #[trigger] top[j]).name by {
        assert(ranks_above(top[i], top[j]));
        ranks_above_is_asymmetric(top[i], top[j]);
        text_before_is_asymmetric(top[i].name, top[j].name);
    }
    assert forall|i: int, n: Seq<char>|
        0 <= i < top.len() && #[trigger] t.today.contains_key(n) && (forall|k: int|
            0 <= k < top.len() ==> (#[trigger] top[k]).name != n) implies {
        &&& t.today[n] <= (#[trigger] top[i]).today_secs
        &&& t.today[n] == top[i].today_secs ==> text_before(top[i].name, n)
    } by {
        assert(!lists(top, n));
        assert(ranks_above(top[i], usage_of(t, n)));
    }
}

/// A sample adds its seconds to what its program already has on the day that is counted, and a program
/// that has nothing yet starts with them; no other program gains, loses or appears.
pub proof fn a_sample_counts_for_its_program_only(
    t: Ledger,
    at: Date,
    name: Seq<char>,
    secs: nat,
    other: Seq<char>,
)
    requires
        !earlier(t.day, at),
        t.today.contains_key(name) ==> t.today[name] + secs <= u64::MAX,
        secs <= u64::MAX,
        other != name,
    ensures
        ({
            let r = recorded(t, at, Some(name), secs);
            &&& countable(t, at, Some(name), secs)
            &&& r.today.contains_key(name)
            &&& t.today.contains_key(name) ==> r.today[name] == t.today[name] + secs
            &&& !t.today.contains_key(name) ==> r.today[name] == secs
            &&& r.today.contains_key(other) == t.today.contains_key(other)
            &&& t.today.contains_key(other) ==> r.today[other] == t.today[other]
            &&& r.yesterday == t.yesterday
            &&& r.day == t.day
        }),
{
}

/// A later date starts an empty day and makes the day before of what was counted; any other date changes
/// nothing.
pub proof fn only_a_later_date_starts_a_day(t: Ledger, at: Date)
    ensures
        earlier(t.day, at) ==> {
            &&& rolled(t, at).day == at
            &&& rolled(t, at).yesterday == t.today
            &&& forall|n: Seq<char>| !#[trigger] rolled(t, at).today.contains_key(n)
        },
        !earlier(t.day, at) ==> rolled(t, at) == t,
{
}

/// Entries with different names give each name its seconds, and no other name any.
pub proof fn entries_say_what_they_hold(entries: Seq<(String, u64)>, i: int, n: Seq<char>)
    requires
        forall|a: int, b: int|
            0 <= a < b < entries.len() ==> (#[trigger] entries[a]).0@ != (#[trigger] entries[b]).0@,
        0 <= i < entries.len(),
        forall|k: int| 0 <= k < entries.len() ==> (#[trigger] entries[k]).0@ != n,
    ensures
        totals_map(entries).contains_key(entries[i].0@),
        totals_map(entries)[entries[i].0@] == entries[i].1,
        !totals_map(entries).contains_key(n),
{
    totals_map_at(entries, i);
}

/// Of entries that are put in one after the other, the last of a name counts, and only names that occur
/// are there.
pub proof fn last_entry_counts(entries: Seq<(String, u64)>, i: int, n: Seq<char>)
    requires
        0 <= i < entries.len(),
        forall|k: int| i < k < entries.len() ==> (#[trigger] entries[k]).0@ != entries[i].0@,
        forall|k: int| 0 <= k < entries.len() ==> (#[trigger] entries[k]).0@ != n,
    ensures
        gathered(entries).contains_key(entries[i].0@),
        gathered(entries)[entries[i].0@] == entries[i].1,
        !gathered(entries).contains_key(n),
    decreases entries.len(),
{
    let head = entries.drop_last();
    assert(entries.last() == entries[entries.len() - 1]);
    assert forall|k: int| 0 <= k < head.len() implies #[trigger] head[k] == entries[k] by {}
    if i < head.len() {
        last_entry_counts(head, i, n);
    } else {
        nothing_else_is_gathered(head, n);
    }
}

proof fn nothing_else_is_gathered(entries: Seq<(String, u64)>, n: Seq<char>)
    requires
        forall|k: int| 0 <= k < entries.len() ==> (#[trigger] entries[k]).0@ != n,
    ensures
        !gathered(entries).contains_key(n),
    decreases entries.len(),
{
    if entries.len() > 0 {
        let head = entries.drop_last();
        assert(entries.last() == entries[entries.len() - 1]);
        assert forall|k: int| 0 <= k < head.len() implies #[trigger] head[k] == entries[k] by {}
        nothing_else_is_gathered(head, n);
    }
}

} // verus!
