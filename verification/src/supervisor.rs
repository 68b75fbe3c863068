//! How long to wait before the shell is started again.

use crate::interval::Interval;
use vstd::prelude::*;

verus! {

/// The program that is kept running.
pub const SHELL_EXE_NAME: &'static str = "hyte-shell.exe";

/// The first wait, in milliseconds.
pub const INITIAL_BACKOFF_MS: u64 = 1_000;

/// The longest wait, in milliseconds.
pub const MAX_BACKOFF_MS: u64 = 30_000;

/// How long a run must last, in milliseconds, to count as stable.
pub const STABLE_RUN_MS: u64 = 60_000;

/// The wait after a run of `ran` milliseconds, where the wait would otherwise be `next`.
pub open spec fn wait_after(next: nat, ran: nat) -> nat {
    if ran >= STABLE_RUN_MS {
        INITIAL_BACKOFF_MS as nat
    } else {
        next
    }
}

/// The wait that follows a wait.
pub open spec fn longer(wait: nat) -> nat {
    if 2 * wait <= MAX_BACKOFF_MS {
        2 * wait
    } else {
        MAX_BACKOFF_MS as nat
    }
}

/// The wait before the next start of the shell.
#[derive(Debug)]
pub struct Backoff {
    next: Interval,
}

impl View for Backoff {
    type V = nat;

    /// The wait after a run that was not stable, in milliseconds.
    closed spec fn view(&self) -> nat {
        self.next@
    }
}

impl Backoff {
    /// The shell has not run yet.
    pub fn new() -> (backoff: Self)
        ensures
            backoff@ == INITIAL_BACKOFF_MS,
    {
        Backoff { next: Interval::from_millis(INITIAL_BACKOFF_MS) }
    }

    /// The shell ended after it ran for `ran`: how long to wait before it is started again. Waits
    /// double up to the longest, and start over after a stable run.
    pub fn after_run(&mut self, ran: Interval) -> (wait: Interval)
        ensures
            wait@ == wait_after(old(self)@, ran@),
            final(self)@ == longer(wait@),
    {
        if ran.at_least(&Interval::from_millis(STABLE_RUN_MS)) {
            self.next = Interval::from_millis(INITIAL_BACKOFF_MS);
        }
        let wait: Interval = self.next;
        self.next = wait.doubled_up_to(&Interval::from_millis(MAX_BACKOFF_MS));
        wait
    }
}

/// What the next wait would be after a row of runs.
pub open spec fn next_wait(runs: Seq<nat>) -> nat
    decreases runs.len(),
{
    if runs.len() == 0 {
        INITIAL_BACKOFF_MS as nat
    } else {
        longer(wait_after(next_wait(runs.drop_last()), runs.last()))
    }
}

/// However the shell behaves, every wait is between the first and the longest.
pub proof fn waits_are_bounded(runs: Seq<nat>, ran: nat)
    ensures
        INITIAL_BACKOFF_MS <= next_wait(runs) <= MAX_BACKOFF_MS,
        INITIAL_BACKOFF_MS <= wait_after(next_wait(runs), ran) <= MAX_BACKOFF_MS,
    decreases runs.len(),
{
    if runs.len() > 0 {
        waits_are_bounded(runs.drop_last(), runs.last());
    }
}

/// Twice as much, `k` times over.
pub open spec fn doubled(n: nat, k: nat) -> nat
    decreases k,
{
    if k == 0 {
        n
    } else {
        2 * doubled(n, (k - 1) as nat)
    }
}

/// After `k` runs in a row that were not stable, the wait is the first one doubled `k` times, or the
/// longest where that is more.
pub proof fn waits_double(runs: Seq<nat>)
    requires
        forall|i: int| 0 <= i < runs.len() ==> (#[trigger] runs[i]) < STABLE_RUN_MS,
    ensures
        next_wait(runs) == (if doubled(INITIAL_BACKOFF_MS as nat, runs.len()) <= MAX_BACKOFF_MS {
            doubled(INITIAL_BACKOFF_MS as nat, runs.len())
        } else {
            MAX_BACKOFF_MS as nat
        }),
    decreases runs.len(),
{
    if runs.len() > 0 {
        waits_double(runs.drop_last());
    }
}

/// A stable run starts the waits over, whatever came before.
pub proof fn stable_run_starts_over(runs: Seq<nat>, ran: nat)
    requires
        ran >= STABLE_RUN_MS,
    ensures
        wait_after(next_wait(runs), ran) == INITIAL_BACKOFF_MS,
        next_wait(runs.push(ran)) == next_wait(seq![ran]),
{
    assert(runs.push(ran).drop_last() =~= runs);
    assert(seq![ran].drop_last() =~= Seq::<nat>::empty());
}

/// After a run that was not stable the wait is the one that was due; after any wait the next one is twice
/// as long, but never longer than half a minute.
pub proof fn waits_follow_runs(next: nat, ran: nat)
    ensures
        ran < 60_000 ==> wait_after(next, ran) == next,
        ran >= 60_000 ==> wait_after(next, ran) == 1_000,
        next <= 15_000 ==> longer(next) == next + next,
        next > 15_000 ==> longer(next) == 30_000,
{
}

} // verus!
