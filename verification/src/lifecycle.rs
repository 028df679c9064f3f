//! What holds of the tracker after any run of well-ordered events.
//!
//! A run of events obeys the life of a touch when every finger starts before
//! it moves or ends, and no finger starts twice without an end between.
//! After such a run the tracker knows exactly the fingers that are down, and
//! the first two of them have their records.

use vstd::prelude::*;
use crate::tracker::{Phase, TouchError, TouchEvent, TrackerState};

verus! {

/// The state of a tracker that started empty and took in `events` in order.
pub open spec fn run(events: Seq<TouchEvent>) -> TrackerState
    decreases events.len(),
{
    if events.len() == 0 {
        TrackerState::empty()
    } else {
        run(events.drop_last()).handled(events.last())
    }
}

/// The ids of the fingers that are down after `events`: those that started
/// and have not ended since.
pub open spec fn live(events: Seq<TouchEvent>) -> Set<i64>
    decreases events.len(),
{
    if events.len() == 0 {
        Set::empty()
    } else {
        let before = live(events.drop_last());
        match events.last().phase {
            Phase::Start => before.insert(events.last().id),
            Phase::Move => before,
            Phase::End | Phase::Cancel => before.remove(events.last().id),
        }
    }
}

/// Whether `events` obeys the life of a touch: a start only for a finger that
/// is not down, a move or an end only for one that is.
pub open spec fn obeys_lifecycle(events: Seq<TouchEvent>) -> bool
    decreases events.len(),
{
    events.len() == 0 || {
        &&& obeys_lifecycle(events.drop_last())
        &&& live(events.drop_last()).contains(events.last().id) == (events.last().phase
            != Phase::Start)
    }
}

/// Whether the tracker's list holds exactly the fingers of `down`, each once,
/// and the records of the first two are there and no others.
pub open spec fn follows(state: TrackerState, down: Set<i64>) -> bool {
    &&& down.finite()
    &&& state.ids.no_duplicates()
    &&& state.ids.to_set() == down
    &&& state.ids.len() == down.len()
    &&& state.primary is Some <==> down.len() >= 1
    &&& state.secondary is Some <==> down.len() >= 2
}

/// A start of a finger that is not down keeps the tracker in step.
proof fn lemma_start_follows(state: TrackerState, down: Set<i64>, id: i64, pos: crate::geometry::Point)
    requires
        follows(state, down),
        !down.contains(id),
    ensures
        follows(state.started(id, pos), down.insert(id)),
{
    let after = state.started(id, pos);
    assert(after.ids.to_set() =~= down.insert(id)) by {
        assert forall|x: i64| after.ids.to_set().contains(x) <==> down.insert(id).contains(
            x,
        ) by {
            if after.ids.contains(x) {
                let i = choose|i: int| 0 <= i < after.ids.len() && after.ids[i] == x;
                if i < state.ids.len() {
                    assert(state.ids[i] == x);
                    assert(state.ids.contains(x));
                }
            }
            if state.ids.contains(x) {
                let i = choose|i: int| 0 <= i < state.ids.len() && state.ids[i] == x;
                assert(after.ids[i] == x);
            }
            assert(after.ids[state.ids.len() as int] == id);
        }
    }
    assert(after.ids.no_duplicates()) by {
        assert forall|i: int, j: int|
            0 <= i < after.ids.len() && 0 <= j < after.ids.len() && i != j implies after.ids[i]
            != after.ids[j] by {
            if i < state.ids.len() {
                assert(state.ids.contains(after.ids[i]));
            }
            if j < state.ids.len() {
                assert(state.ids.contains(after.ids[j]));
            }
        }
    }
    after.ids.unique_seq_to_set();
}

/// The end of a finger that is down keeps the tracker in step.
proof fn lemma_end_follows(state: TrackerState, down: Set<i64>, id: i64)
    requires
        follows(state, down),
        down.contains(id),
    ensures
        follows(state.ended(id), down.remove(id)),
{
    state.ids.index_of_first_ensures(id);
    let at = state.ids.index_of_first(id).unwrap();
    let after = state.ended(id);
    assert(after.ids == state.ids.remove(at));
    state.ids.remove_ensures(at);
    assert(after.ids.no_duplicates()) by {
        assert forall|i: int, j: int|
            0 <= i < after.ids.len() && 0 <= j < after.ids.len() && i != j implies after.ids[i]
            != after.ids[j] by {
            let si = if i < at { i } else { i + 1 };
            let sj = if j < at { j } else { j + 1 };
            assert(after.ids[i] == state.ids[si]);
            assert(after.ids[j] == state.ids[sj]);
        }
    }
    assert(after.ids.to_set() =~= down.remove(id)) by {
        assert forall|x: i64| after.ids.to_set().contains(x) <==> down.remove(id).contains(
            x,
        ) by {
            if after.ids.contains(x) {
                let i = choose|i: int| 0 <= i < after.ids.len() && after.ids[i] == x;
                let si = if i < at { i } else { i + 1 };
                assert(state.ids[si] == x);
                assert(state.ids.contains(x));
                assert(si != at);
            }
            if state.ids.contains(x) && x != id {
                let i = choose|i: int| 0 <= i < state.ids.len() && state.ids[i] == x;
                let ai = if i < at { i } else { i - 1 };
                assert(after.ids[ai] == x);
            }
        }
    }
    after.ids.unique_seq_to_set();
}

/// A move of a finger that is down keeps the tracker in step, and is not
/// refused for want of a primary finger.
proof fn lemma_move_follows(state: TrackerState, down: Set<i64>, event: TouchEvent)
    requires
        follows(state, down),
        down.contains(event.id),
        event.phase == Phase::Move,
    ensures
        follows(state.handled(event), down),
        state.outcome(event) != Err::<Option<crate::gesture::Gesture>, TouchError>(
            TouchError::SecondaryWithoutPrimary,
        ),
{
    assert(state.ids.contains(event.id));
    state.ids.unique_seq_to_set();
}

/// Roles follow the live fingers.
///
/// After any run of events that obeys the life of a touch, the tracker's
/// list holds every finger that is down exactly once, so it is never longer
/// than the number of fingers that are down. There is a primary record
/// exactly when at least one finger is down, and a secondary record exactly
/// when at least two are.
pub proof fn lemma_roles_follow_live_fingers(events: Seq<TouchEvent>)
    requires
        obeys_lifecycle(events),
    ensures
        follows(run(events), live(events)),
        run(events).ids.len() <= live(events).len(),
        run(events).primary is Some <==> live(events).len() >= 1,
        run(events).secondary is Some <==> live(events).len() >= 2,
    decreases events.len(),
{
    if events.len() == 0 {
        assert(run(events).ids.to_set() =~= Set::<i64>::empty());
    } else {
        let before = events.drop_last();
        let event = events.last();
        lemma_roles_follow_live_fingers(before);
        match event.phase {
            Phase::Start => lemma_start_follows(run(before), live(before), event.id, event.position),
            Phase::Move => lemma_move_follows(run(before), live(before), event),
            Phase::End | Phase::Cancel => lemma_end_follows(run(before), live(before), event.id),
        }
    }
}

/// In a run of events that obeys the life of a touch no move is refused for
/// want of a primary finger.
pub proof fn lemma_primary_never_missing(events: Seq<TouchEvent>, next: TouchEvent)
    requires
        obeys_lifecycle(events.push(next)),
    ensures
        run(events).outcome(next) != Err::<Option<crate::gesture::Gesture>, TouchError>(
            TouchError::SecondaryWithoutPrimary,
        ),
{
    assert(events.push(next).drop_last() =~= events);
    assert(events.push(next).last() == next);
    lemma_roles_follow_live_fingers(events);
    if next.phase == Phase::Move {
        lemma_move_follows(run(events), live(events), next);
    }
}

} // verus!
