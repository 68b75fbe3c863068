//! When the settings file is read again: once after each burst of changes, and only if one of them
//! touched the file.

use vstd::prelude::*;
use vstd::std_specs::cmp::PartialEqSpec;

verus! {

/// How long it must stay quiet, in milliseconds, before a burst of changes is over.
pub const QUIET_MS: u64 = 500;

/// Where the watcher stands.
#[derive(Debug, Clone, Copy, PartialEq, Eq, Structural)]
pub enum WatchState {
    /// Nothing has happened since the last burst.
    Idle,
    /// A burst is going on; `relevant` tells whether it has touched the file.
    Settling { relevant: bool },
    /// The watch is over.
    Ended,
}

/// What the watcher is told.
#[derive(Debug, Clone, Copy, PartialEq, Eq, Structural)]
pub enum WatchEvent {
    /// Something changed in the directory; `touches` tells whether it was the file.
    Change { touches: bool },
    /// Nothing happened for `QUIET_MS`.
    Quiet,
    /// No more changes will be reported.
    Closed,
}

/// What the watcher asks for.
#[derive(Debug, Clone, Copy, PartialEq, Eq, Structural)]
pub enum WatchAction {
    /// Wait for the next change, however long it takes.
    Wait,
    /// Wait for the next change, for `QUIET_MS` at most.
    WaitQuiet,
    /// Read the file again, then wait for the next change.
    Reload,
    /// Stop watching.
    Stop,
}

/// The state and action that follow an event.
pub open spec fn watched(state: WatchState, event: WatchEvent) -> (WatchState, WatchAction) {
    match (state, event) {
        (WatchState::Ended, _) => (WatchState::Ended, WatchAction::Stop),
        (_, WatchEvent::Closed) => (WatchState::Ended, WatchAction::Stop),
        (WatchState::Idle, WatchEvent::Change { touches }) => (
            WatchState::Settling { relevant: touches },
            WatchAction::WaitQuiet,
        ),
        (WatchState::Settling { relevant }, WatchEvent::Change { touches }) => (
            WatchState::Settling { relevant: relevant || touches },
            WatchAction::WaitQuiet,
        ),
        (WatchState::Settling { relevant }, WatchEvent::Quiet) => (
            WatchState::Idle,
            if relevant {
                WatchAction::Reload
            } else {
                WatchAction::Wait
            },
        ),
        (WatchState::Idle, WatchEvent::Quiet) => (WatchState::Idle, WatchAction::Wait),
    }
}

impl WatchState {
    /// Takes in one event and says what to do.
    pub fn step(&mut self, event: WatchEvent) -> (action: WatchAction)
        ensures
            (*final(self), action) == watched(*old(self), event),
    {
        match (*self, event) {
            (WatchState::Ended, _) => WatchAction::Stop,
            (_, WatchEvent::Closed) => {
                *self = WatchState::Ended;
                WatchAction::Stop
            },
            (WatchState::Idle, WatchEvent::Change { touches }) => {
                *self = WatchState::Settling { relevant: touches };
                WatchAction::WaitQuiet
            },
            (WatchState::Settling { relevant }, WatchEvent::Change { touches }) => {
                *self = WatchState::Settling { relevant: relevant || touches };
                WatchAction::WaitQuiet
            },
            (WatchState::Settling { relevant }, WatchEvent::Quiet) => {
                *self = WatchState::Idle;
                if relevant {
                    WatchAction::Reload
                } else {
                    WatchAction::Wait
                }
            },
            (WatchState::Idle, WatchEvent::Quiet) => WatchAction::Wait,
        }
    }
}

/// What a report says was done.
#[derive(Debug, Clone, Copy, PartialEq, Eq, Structural)]
pub enum ChangeKind {
    Created,
    Modified,
    Removed,
    /// Anything that leaves the contents as they were, such as reading, or that is not known.
    Other,
}

/// Whether one of the paths equals `target`.
pub open spec fn names_target<P: PartialEq>(paths: Seq<P>, target: P) -> bool {
    exists|i: int| 0 <= i < paths.len() && (#[trigger] paths[i]).eq_spec(&target)
}

/// Whether `==` can say of one of the paths that it is `target`.
pub open spec fn some_compares<P: PartialEq>(paths: Seq<P>, target: &P) -> bool {
    exists|i: int|
        0 <= i < paths.len() && call_ensures(P::eq, (&#[trigger] paths[i], target), true)
}

/// Whether `==` can say of every path that it is not `target`.
pub open spec fn none_compares<P: PartialEq>(paths: Seq<P>, target: &P) -> bool {
    forall|i: int|
        0 <= i < paths.len() ==> call_ensures(P::eq, (&#[trigger] paths[i], target), false)
}

/// Whether a report touches `target`: something was created, modified or removed, and one of the
/// paths is the target. Editors that save by removing and creating anew are covered by that. `None`
/// stands for a report that failed, which touches nothing.
pub fn event_touches<P: PartialEq>(report: Option<(ChangeKind, &Vec<P>)>, target: &P) -> (touches:
    bool)
    ensures
        match report {
            None => !touches,
            Some((kind, paths)) => if kind is Other {
                !touches
            } else {
                &&& touches ==> some_compares(paths@, target)
                &&& !touches ==> none_compares(paths@, target)
                &&& P::obeys_eq_spec() ==> touches == names_target(paths@, *target)
            },
        },
{
    let list: &Vec<P> = match report {
        Some((kind, paths)) => {
            if kind == ChangeKind::Other {
                return false;
            }
            paths
        },
        None => {
            return false;
        },
    };
    for i in 0..list.len()
        invariant
            report is Some,
            !((report->0).0 is Other),
            (report->0).1 == list,
            none_compares(list@.take(i as int), target),
            P::obeys_eq_spec() ==> forall|j: int|
                0 <= j < i ==> !(#[trigger] list@[j]).eq_spec(target),
    {
        let path: &P = &list[i];
        let same: bool = path.eq(target);
        assert(call_ensures(P::eq, (&list@[i as int], target), same));
        if same {
            assert(P::obeys_eq_spec() ==> names_target(list@, *target));
            return true;
        }
        let ghost done = list@.take(i as int);
        let ghost next = list@.take(i + 1);
        assert forall|j: int| 0 <= j < next.len() implies call_ensures(
            P::eq,
            (&#[trigger] next[j], target),
            false,
        ) by {
            if j < i {
                assert(next[j] == done[j]);
            }
        }
    }
    assert(list@.take(list@.len() as int) =~= list@);
    false
}

/// The state after a burst of changes, each of which touches the file or not.
pub open spec fn after_burst(state: WatchState, burst: Seq<bool>) -> WatchState
    decreases burst.len(),
{
    if burst.len() == 0 {
        state
    } else {
        watched(
            after_burst(state, burst.drop_last()),
            WatchEvent::Change { touches: burst.last() },
        ).0
    }
}

/// A burst of changes ends in one reload if any of them touched the file, and in none otherwise;
/// until it ends nothing is reloaded, and afterwards the watcher is ready for the next burst.
pub proof fn burst_reloads_once(burst: Seq<bool>)
    requires
        burst.len() > 0,
    ensures
        watched(after_burst(WatchState::Idle, burst), WatchEvent::Quiet) == (
            WatchState::Idle,
            if burst.contains(true) {
                WatchAction::Reload
            } else {
                WatchAction::Wait
            },
        ),
        forall|k: int|
            0 <= k < burst.len() ==> watched(
                #[trigger] after_burst(WatchState::Idle, burst.take(k)),
                WatchEvent::Change { touches: burst[k] },
            ).1 == WatchAction::WaitQuiet,
{
    burst_remembers_touches(burst);
    assert forall|k: int| 0 <= k < burst.len() implies watched(
        #[trigger] after_burst(WatchState::Idle, burst.take(k)),
        WatchEvent::Change { touches: burst[k] },
    ).1 == WatchAction::WaitQuiet by {
        if k > 0 {
            burst_remembers_touches(burst.take(k));
        }
    }
}

proof fn burst_remembers_touches(burst: Seq<bool>)
    requires
        burst.len() > 0,
    ensures
        after_burst(WatchState::Idle, burst) == (WatchState::Settling {
            relevant: burst.contains(true),
        }),
    decreases burst.len(),
{
    let head = burst.drop_last();
    assert(burst =~= head.push(burst.last()));
    if head.len() > 0 {
        burst_remembers_touches(head);
        if head.contains(true) {
            let i = choose|i: int| 0 <= i < head.len() && head[i] == true;
            assert(burst[i] == true);
        }
    }
    if burst.last() {
        assert(burst[burst.len() - 1] == true);
    }
    if burst.contains(true) && !burst.last() {
        let i = choose|i: int| 0 <= i < burst.len() && burst[i] == true;
        assert(head[i] == true);
    }
}

/// Once no more changes can come, watching stops and never starts again; a change always opens or goes
/// on with a burst; and silence outside a burst reloads nothing.
pub proof fn watching_goes_on_until_closed(state: WatchState, event: WatchEvent)
    ensures
        event is Closed ==> watched(state, event) == (WatchState::Ended, WatchAction::Stop),
        state is Ended ==> watched(state, event) == (WatchState::Ended, WatchAction::Stop),
        !(state is Ended) && event is Change ==> watched(state, event).0 is Settling && watched(
            state,
            event,
        ).1 is WaitQuiet,
        state is Idle && event is Quiet ==> watched(state, event) == (
            WatchState::Idle,
            WatchAction::Wait,
        ),
        watched(state, event).1 is Reload <==> state == (WatchState::Settling { relevant: true })
            && event is Quiet,
        watched(state, event).0 is Ended <==> watched(state, event).1 is Stop,
{
}

/// It does not matter at which place of a report the target stands.
pub proof fn any_path_can_be_the_target<P: PartialEq>(paths: Seq<P>, target: P, i: int)
    requires
        0 <= i < paths.len(),
    ensures
        paths[i].eq_spec(&target) ==> names_target(paths, target),
        none_compares(paths, &target) ==> call_ensures(P::eq, (&paths[i], &target), false),
        call_ensures(P::eq, (&paths[i], &target), true) ==> some_compares(paths, &target),
{
}

} // verus!
