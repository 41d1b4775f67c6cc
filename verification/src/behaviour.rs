//! What holds of every run of the recognizer, proved from the transition
//! function.

use vstd::prelude::*;
use crate::event::{Event, PointerEvent, PointerId};
use crate::geometry::Vec2;
use crate::gesture::{
    exceeds_threshold, lemma_capture_two, lemma_zoom_level_bounded, TwoFingersGesture, ZOOM_MAX,
    ZOOM_ONE,
};
use crate::recognizer::{
    emitted, lemma_step_preserves_wf, lemma_two_pointers, GestureRecognizerState, RecognizerView,
};
use crate::tracker::{membership_changes, pointers_after};

verus! {

/// The recognizer as it is made: idle, with no pointer down.
pub open spec fn fresh() -> RecognizerView {
    RecognizerView { state: GestureRecognizerState::Idle, pointers: Map::empty() }
}

/// An idle recognizer that sees exactly two pointers after an event captures
/// them where they are: each finger's capture position and current position
/// are the latest position of its pointer, and the zoom ratio is 1.
pub proof fn lemma_capture_takes_latest_positions(recognizer: RecognizerView, event: Event)
    requires
        recognizer.wf(),
        recognizer.state is Idle,
        pointers_after(recognizer.pointers, event).len() == 2,
    ensures
        ({
            let after = recognizer.step(event);
            &&& after.state matches GestureRecognizerState::TwoFingersIdle(g)
            &&& after.pointers.dom() =~= set![g.finger_one_id, g.finger_two_id]
            &&& g.finger_one_id < g.finger_two_id
            &&& g.finger_one_pos == after.pointers[g.finger_one_id]
            &&& g.finger_two_pos == after.pointers[g.finger_two_id]
            &&& g.finger_one_pos_cur == g.finger_one_pos
            &&& g.finger_two_pos_cur == g.finger_two_pos
            &&& g.zoom == ZOOM_ONE
        }),
{
    lemma_two_pointers(pointers_after(recognizer.pointers, event));
}

/// Two pointers that go down one after the other on a fresh recognizer are
/// captured at the positions of their `PointerDown` events, the one with the
/// smaller identifier as finger one.
pub proof fn lemma_two_downs_are_captured(a: PointerEvent, b: PointerEvent)
    requires
        a.id != b.id,
    ensures
        fresh().step(Event::PointerDown(a)).state is Idle,
        fresh().step(Event::PointerDown(a)).step(Event::PointerDown(b)).state
            == GestureRecognizerState::TwoFingersIdle(
            if a.id < b.id {
                two_fingers_at_rest(a, b)
            } else {
                two_fingers_at_rest(b, a)
            },
        ),
{
    let first = fresh().step(Event::PointerDown(a));
    let none = Set::<PointerId>::empty();
    assert(first.pointers.dom() =~= none.insert(a.id));
    assert(first.pointers.len() == 1);
    let after = first.step(Event::PointerDown(b));
    assert(after.pointers.dom() =~= none.insert(a.id).insert(b.id));
    assert(after.pointers.len() == 2);
    assert(after.pointers[a.id] == a.pos);
    assert(after.pointers[b.id] == b.pos);
    if a.id < b.id {
        assert(after.pointers.dom() =~= set![a.id, b.id]);
        lemma_capture_two(after.pointers, a.id, b.id);
    } else {
        assert(after.pointers.dom() =~= set![b.id, a.id]);
        lemma_capture_two(after.pointers, b.id, a.id);
    }
}

/// The gesture of two fingers that rest where `one` and `two` say.
pub open spec fn two_fingers_at_rest(one: PointerEvent, two: PointerEvent) -> TwoFingersGesture {
    TwoFingersGesture {
        finger_one_id: one.id,
        finger_two_id: two.id,
        finger_one_pos: one.pos,
        finger_two_pos: two.pos,
        finger_one_pos_cur: one.pos,
        finger_two_pos_cur: two.pos,
        zoom: ZOOM_ONE,
    }
}

/// While a gesture is held, a pointer that comes or goes ends it: the next
/// state is `Idle` and no gesture event is given.
pub proof fn lemma_membership_change_resets(recognizer: RecognizerView, event: Event)
    requires
        recognizer.wf(),
        !(recognizer.state is Idle),
        membership_changes(recognizer.pointers, event),
    ensures
        recognizer.step(event).state is Idle,
        recognizer.emits(event) == Seq::<Event>::empty(),
{
}

/// While a gesture is held, the `PointerDown` of a third pointer and the
/// `PointerUp` or `PointerLeave` of either finger are changes of the pointers.
pub proof fn lemma_third_pointer_or_lifted_finger_changes(
    recognizer: RecognizerView,
    event: Event,
)
    requires
        recognizer.wf(),
        !(recognizer.state is Idle),
    ensures
        ({
            let g = recognizer.state.gesture();
            membership_changes(recognizer.pointers, event) <==> {
                ||| event matches Event::PointerDown(p) && p.id != g.finger_one_id && p.id
                    != g.finger_two_id
                ||| event matches Event::PointerUp(p) && (p.id == g.finger_one_id || p.id
                    == g.finger_two_id)
                ||| event matches Event::PointerLeave(p) && (p.id == g.finger_one_id || p.id
                    == g.finger_two_id)
            }
        }),
{
    let g = recognizer.state.gesture();
    assert(recognizer.pointers.dom() =~= set![g.finger_one_id, g.finger_two_id]);
}

/// Two resting fingers stay as they are while the pointers stay the same and
/// neither is farther than the threshold from where it was captured, and
/// become a pinch, with the gesture untouched, as soon as either is.
pub proof fn lemma_threshold_decides_pinch(recognizer: RecognizerView, event: Event)
    requires
        recognizer.wf(),
        recognizer.state is TwoFingersIdle,
        !membership_changes(recognizer.pointers, event),
    ensures
        ({
            let g = recognizer.state.gesture();
            let after = recognizer.step(event);
            let crossed = exceeds_threshold(g.finger_one_pos, after.pointers[g.finger_one_id])
                || exceeds_threshold(g.finger_two_pos, after.pointers[g.finger_two_id]);
            &&& crossed ==> after.state == GestureRecognizerState::PinchPanGesture(g)
            &&& !crossed ==> after.state == recognizer.state
            &&& recognizer.emits(event) == Seq::<Event>::empty()
        }),
{
}

/// An event that leaves the pointers as they are, given once more during a
/// pinch, leaves the state as it is and gives a pan by nothing and a zoom
/// change of nothing.
pub proof fn lemma_repeated_event_gives_no_motion(recognizer: RecognizerView, event: Event)
    requires
        recognizer.wf(),
        recognizer.state is PinchPanGesture,
        !membership_changes(recognizer.pointers, event),
    ensures
        ({
            let once = recognizer.step(event);
            let twice = once.step(event);
            &&& once.state is PinchPanGesture
            &&& twice == once
            &&& once.emits(event) == seq![
                Event::GesturePan(Vec2 { x: 0, y: 0 }),
                Event::GestureZoom { zoom: 0, center: once.state.gesture().spec_center() },
            ]
        }),
{
    let once = recognizer.step(event);
    lemma_step_preserves_wf(recognizer, event);
    assert(!membership_changes(once.pointers, event));
    assert(pointers_after(once.pointers, event) =~= once.pointers);
    let twice = once.step(event);
    let g = once.state.gesture();
    lemma_zoom_level_bounded(
        g.finger_one_pos,
        g.finger_two_pos,
        once.pointers[g.finger_one_id],
        once.pointers[g.finger_two_id],
    );
    assert(twice.state == once.state);
    assert(once.emits(event) =~= seq![
        Event::GesturePan(Vec2 { x: 0, y: 0 }),
        Event::GestureZoom { zoom: 0, center: once.state.gesture().spec_center() },
    ]);
}

/// A transition gives gesture events only from a pinch to a pinch, and then
/// exactly two: the pan first, the zoom second.
pub proof fn lemma_events_only_within_pinch(
    previous: GestureRecognizerState,
    next: GestureRecognizerState,
)
    ensures
        !(previous is PinchPanGesture && next is PinchPanGesture) ==> emitted(previous, next)
            == Seq::<Event>::empty(),
        previous is PinchPanGesture && next is PinchPanGesture ==> {
            &&& emitted(previous, next).len() == 2
            &&& emitted(previous, next)[0] is GesturePan
            &&& emitted(previous, next)[1] is GestureZoom
        },
{
}

/// Every zoom ratio that a recognizer holds is at most [`ZOOM_MAX`], and that
/// of two fingers captured on one and the same point is 1: in whatever state
/// this leaves the recognizer, and whatever event comes. The zoom changes that
/// such fingers give are all nothing.
pub proof fn lemma_zoom_is_always_defined(recognizer: RecognizerView, event: Event)
    requires
        recognizer.wf(),
    ensures
        ({
            let after = recognizer.step(event);
            &&& !(after.state is Idle) ==> after.state.gesture().zoom <= ZOOM_MAX
            &&& !(after.state is Idle) && after.state.gesture().finger_one_pos
                == after.state.gesture().finger_two_pos ==> after.state.gesture().zoom == ZOOM_ONE
            &&& recognizer.state is PinchPanGesture && after.state is PinchPanGesture
                && recognizer.state.gesture().finger_one_pos
                == recognizer.state.gesture().finger_two_pos ==> recognizer.emits(event)[1] == (
            Event::GestureZoom { zoom: 0, center: after.state.gesture().spec_center() })
        }),
{
    lemma_step_preserves_wf(recognizer, event);
    let after = recognizer.step(event);
    if !(after.state is Idle) {
        let g = after.state.gesture();
        lemma_zoom_level_bounded(
            g.finger_one_pos,
            g.finger_two_pos,
            g.finger_one_pos_cur,
            g.finger_two_pos_cur,
        );
    }
}

} // verus!
