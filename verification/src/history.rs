//! What holds of the controller over whole sequences of events.

use vstd::prelude::*;
use crate::controller::{initial_state, next_state, scheduled, Action, EventView, StateView};

verus! {

/// The state after `events` have been applied to `start`, one at a time and
/// in order.
pub open spec fn run(start: StateView, events: Seq<EventView>) -> StateView
    decreases events.len(),
{
    if events.len() == 0 {
        start
    } else {
        next_state(run(start, events.drop_last()), events.last())
    }
}

/// The action that the event at place `i` of `events` schedules, the events
/// before it having been applied to `start`.
pub open spec fn action_at(start: StateView, events: Seq<EventView>, i: int) -> Option<Action> {
    scheduled(run(start, events.take(i)), events[i])
}

/// Whether no upgrade completes in `events` after place `i`.
pub open spec fn none_completed_after(events: Seq<EventView>, i: int) -> bool {
    forall|j: int| i < j < events.len() ==> !(#[trigger] events[j] is UpgradeCompleted)
}

/// Whether the event at place `i` of `events` schedules an upgrade whose
/// completion is not among the events that follow it.
pub open spec fn outstanding_since(start: StateView, events: Seq<EventView>, i: int) -> bool {
    &&& 0 <= i < events.len()
    &&& action_at(start, events, i) == Some(Action::PerformUpgrade)
    &&& none_completed_after(events, i)
}

/// Whether an upgrade is outstanding after `events`: one was scheduled,
/// during `events` or before them, and no completion has been applied since.
pub open spec fn upgrade_outstanding(start: StateView, events: Seq<EventView>) -> bool {
    ||| start.is_upgrading && none_completed_after(events, -1)
    ||| exists|i: int| outstanding_since(start, events, i)
}

/// An event schedules the same action whatever events follow it.
pub proof fn lemma_action_at_prefix(start: StateView, events: Seq<EventView>, n: int, i: int)
    requires
        0 <= i < n <= events.len(),
    ensures
        action_at(start, events.take(n), i) == action_at(start, events, i),
{
    assert(events.take(n).take(i) == events.take(i));
}

/// After any sequence of events the application is upgrading if and only if
/// an upgrade has been scheduled and its completion has not been applied.
pub proof fn lemma_upgrading_iff_outstanding(start: StateView, events: Seq<EventView>)
    ensures
        run(start, events).is_upgrading <==> upgrade_outstanding(start, events),
    decreases events.len(),
{
    if events.len() > 0 {
        let n = events.len() - 1;
        let before = events.drop_last();
        let last = events.last();
        lemma_upgrading_iff_outstanding(start, before);
        assert(events.take(n) == before);
        assert forall|i: int| 0 <= i < n implies action_at(start, before, i) == action_at(
            start,
            events,
            i,
        ) by {
            lemma_action_at_prefix(start, events, n, i);
        }
        assert forall|j: int| 0 <= j < n implies before[j] == events[j] by {}
        if last is UpgradeCompleted {
            assert(!none_completed_after(events, -1));
            assert forall|i: int| !outstanding_since(start, events, i) by {
                if 0 <= i < n {
                    assert(events[n] is UpgradeCompleted);
                }
            }
        } else {
            if upgrade_outstanding(start, before) {
                if start.is_upgrading && none_completed_after(before, -1) {
                    assert(none_completed_after(events, -1));
                } else {
                    let i = choose|i: int| outstanding_since(start, before, i);
                    assert(none_completed_after(events, i));
                    assert(outstanding_since(start, events, i));
                }
            }
            if upgrade_outstanding(start, events) && !upgrade_outstanding(start, before) {
                if start.is_upgrading && none_completed_after(events, -1) {
                    assert(none_completed_after(before, -1));
                } else {
                    let i = choose|i: int| outstanding_since(start, events, i);
                    if i < n {
                        assert(none_completed_after(before, i));
                        assert(outstanding_since(start, before, i));
                    }
                }
            }
            if last is RequestUpgrade && !run(start, before).is_upgrading {
                assert(outstanding_since(start, events, n));
            }
        }
    } else {
        assert(none_completed_after(events, -1));
    }
}

/// From startup on, the application is upgrading if and only if one of the
/// events scheduled an upgrade and no completion has been applied since.
pub proof fn lemma_upgrading_from_startup(events: Seq<EventView>)
    ensures
        run(initial_state(), events).is_upgrading <==> exists|i: int|
            outstanding_since(initial_state(), events, i),
{
    lemma_upgrading_iff_outstanding(initial_state(), events);
}

/// No two upgrades are outstanding at once: between two events that each
/// schedule an upgrade, an upgrade completes.
pub proof fn lemma_upgrades_never_overlap(
    start: StateView,
    events: Seq<EventView>,
    i: int,
    j: int,
)
    requires
        0 <= i < j < events.len(),
        action_at(start, events, i) == Some(Action::PerformUpgrade),
        action_at(start, events, j) == Some(Action::PerformUpgrade),
    ensures
        exists|k: int| i < k < j && #[trigger] events[k] is UpgradeCompleted,
{
    let before = events.take(j);
    if forall|k: int| i < k < j ==> !(#[trigger] events[k] is UpgradeCompleted) {
        lemma_action_at_prefix(start, events, j, i);
        assert(none_completed_after(before, i));
        assert(outstanding_since(start, before, i));
        lemma_upgrading_iff_outstanding(start, before);
        assert(false);
    }
}

} // verus!
