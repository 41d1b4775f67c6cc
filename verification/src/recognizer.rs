//! The recognizer: its states, the transition that each event causes, and the
//! pan and zoom events that a transition gives rise to.

use vstd::prelude::*;
use std::collections::VecDeque;
use crate::event::{Event, PointerId};
use crate::geometry::Point;
use crate::gesture::{
    capture, compute_zoom_level, exceeds_threshold, get_current_twofinger_gesture,
    lemma_capture_two, lemma_zoom_level_bounded, TwoFingersGesture,
    TWOFINGERS_MIN_PINCH_TRESHOLD,
};
use crate::tracker::{membership_changes, pointers_after, PointerTrack};

verus! {

/// The states of the recognizer.
#[derive(Clone, Copy, Debug, PartialEq, Eq, Structural)]
pub enum GestureRecognizerState {
    /// No gesture: fewer or more than two pointers are down, or the set of
    /// pointers has just changed.
    Idle,
    /// Two pointers are down and neither has left its capture position by
    /// more than the threshold.
    TwoFingersIdle(TwoFingersGesture),
    /// Two pointers are down and are being followed as a pinch.
    PinchPanGesture(TwoFingersGesture),
}

impl GestureRecognizerState {
    /// The gesture of a state that has one.
    pub open spec fn gesture(self) -> TwoFingersGesture
        recommends
            !(self is Idle),
    {
        match self {
            GestureRecognizerState::Idle => arbitrary(),
            GestureRecognizerState::TwoFingersIdle(g) => g,
            GestureRecognizerState::PinchPanGesture(g) => g,
        }
    }

    /// The state's gesture, if it has one, is well formed, and it is at rest
    /// as long as the pinch has not begun.
    pub open spec fn wf(self) -> bool {
        match self {
            GestureRecognizerState::Idle => true,
            GestureRecognizerState::TwoFingersIdle(g) => g.wf() && g.at_rest(),
            GestureRecognizerState::PinchPanGesture(g) => g.wf(),
        }
    }

    /// The state's gesture, if it has one, is about exactly the pointers of
    /// `pointers`.
    pub open spec fn tracks(self, pointers: Map<PointerId, Point>) -> bool {
        !(self is Idle) ==> pointers.dom() =~= set![
            self.gesture().finger_one_id,
            self.gesture().finger_two_id,
        ]
    }

    /// The state that follows `self` once the pointers are `pointers`, where
    /// `pointers_changed` says whether a pointer has just come or gone.
    ///
    /// From `Idle`, exactly two pointers are captured. A change of the
    /// pointers ends any gesture. Two resting fingers become a pinch as soon
    /// as either is farther from its capture position than the threshold. A
    /// pinch follows the fingers and takes the zoom ratio of where they are.
    pub open spec fn next_state(
        self,
        pointers: Map<PointerId, Point>,
        pointers_changed: bool,
    ) -> GestureRecognizerState {
        match self {
            GestureRecognizerState::Idle => {
                if pointers.dom().finite() && pointers.len() == 2 {
                    GestureRecognizerState::TwoFingersIdle(capture(pointers))
                } else {
                    GestureRecognizerState::Idle
                }
            },
            GestureRecognizerState::TwoFingersIdle(g) => {
                if pointers_changed {
                    GestureRecognizerState::Idle
                } else if exceeds_threshold(g.finger_one_pos, pointers[g.finger_one_id])
                    || exceeds_threshold(g.finger_two_pos, pointers[g.finger_two_id]) {
                    GestureRecognizerState::PinchPanGesture(g)
                } else {
                    self
                }
            },
            GestureRecognizerState::PinchPanGesture(g) => {
                if pointers_changed {
                    GestureRecognizerState::Idle
                } else {
                    GestureRecognizerState::PinchPanGesture(
                        g.moved_to(pointers[g.finger_one_id], pointers[g.finger_two_id]),
                    )
                }
            },
        }
    }

    /// Computes the state that follows `self` once the pointers are those of
    /// `track`.
    pub fn next(&self, track: &PointerTrack, pointers_changed: bool) -> (next:
        GestureRecognizerState)
        requires
            !(self is Idle) && !pointers_changed ==> track@.contains_key(
                self.gesture().finger_one_id,
            ) && track@.contains_key(self.gesture().finger_two_id),
        ensures
            next == self.next_state(track@, pointers_changed),
    {
        match self {
            GestureRecognizerState::Idle => {
                if track.active_count() == 2 {
                    GestureRecognizerState::TwoFingersIdle(get_current_twofinger_gesture(track))
                } else {
                    GestureRecognizerState::Idle
                }
            },
            GestureRecognizerState::TwoFingersIdle(gesture_state) => {
                if pointers_changed {
                    GestureRecognizerState::Idle
                } else {
                    let finger_one_current_pos = track.pointer_pos(&gesture_state.finger_one_id);
                    let finger_two_current_pos = track.pointer_pos(&gesture_state.finger_two_id);
                    let finger_one_distance = gesture_state.finger_one_pos.distance_squared(
                        finger_one_current_pos.unwrap(),
                    );
                    let finger_two_distance = gesture_state.finger_two_pos.distance_squared(
                        finger_two_current_pos.unwrap(),
                    );
                    let threshold = TWOFINGERS_MIN_PINCH_TRESHOLD * TWOFINGERS_MIN_PINCH_TRESHOLD;
                    if finger_one_distance > threshold || finger_two_distance > threshold {
                        GestureRecognizerState::PinchPanGesture(*gesture_state)
                    } else {
                        *self
                    }
                }
            },
            GestureRecognizerState::PinchPanGesture(gesture_state) => {
                if pointers_changed {
                    GestureRecognizerState::Idle
                } else {
                    let finger_one_current_pos = track.pointer_pos(&gesture_state.finger_one_id);
                    let finger_two_current_pos = track.pointer_pos(&gesture_state.finger_two_id);
                    let mut new_state = *gesture_state;
                    new_state.zoom = compute_zoom_level(
                        finger_one_current_pos.unwrap(),
                        finger_two_current_pos.unwrap(),
                        gesture_state,
                    );
                    new_state.finger_one_pos_cur = finger_one_current_pos.unwrap();
                    new_state.finger_two_pos_cur = finger_two_current_pos.unwrap();
                    GestureRecognizerState::PinchPanGesture(new_state)
                }
            },
        }
    }
}

/// The events that the transition from `previous` to `next` gives rise to.
///
/// Only a pinch that goes on gives any: first the pan that takes the new
/// centre of the fingers back to the previous one, then the change of the
/// zoom ratio around the new centre.
pub open spec fn emitted(previous: GestureRecognizerState, next: GestureRecognizerState) -> Seq<
    Event,
> {
    match (previous, next) {
        (
            GestureRecognizerState::PinchPanGesture(previous_state),
            GestureRecognizerState::PinchPanGesture(gesture_state),
        ) => seq![
            Event::GesturePan(previous_state.spec_center().spec_minus(gesture_state.spec_center())),
            Event::GestureZoom {
                zoom: (gesture_state.zoom - previous_state.zoom) as i64,
                center: gesture_state.spec_center(),
            },
        ],
        _ => Seq::empty(),
    }
}

/// Computes the events that the transition from `previous` to `next` gives
/// rise to.
pub fn gesture_events(previous: &GestureRecognizerState, next: &GestureRecognizerState) -> (events:
    VecDeque<Event>)
    requires
        previous.wf(),
        next.wf(),
    ensures
        events@ == emitted(*previous, *next),
{
    let mut gesture_events = VecDeque::<Event>::new();
    match (previous, next) {
        (
            GestureRecognizerState::PinchPanGesture(previous_state),
            GestureRecognizerState::PinchPanGesture(gesture_state),
        ) => {
            proof {
                lemma_zoom_level_bounded(
                    previous_state.finger_one_pos,
                    previous_state.finger_two_pos,
                    previous_state.finger_one_pos_cur,
                    previous_state.finger_two_pos_cur,
                );
                lemma_zoom_level_bounded(
                    gesture_state.finger_one_pos,
                    gesture_state.finger_two_pos,
                    gesture_state.finger_one_pos_cur,
                    gesture_state.finger_two_pos_cur,
                );
            }
            let zoom_event = Event::GestureZoom {
                zoom: gesture_state.zoom as i64 - previous_state.zoom as i64,
                center: gesture_state.center(),
            };
            let pan_event = Event::GesturePan(previous_state.center().minus(gesture_state.center()));
            gesture_events.push_back(pan_event);
            gesture_events.push_back(zoom_event);
        },
        _ => {},
    }
    gesture_events
}

/// What a recognizer holds: its state and the pointers that are down.
pub struct RecognizerView {
    pub state: GestureRecognizerState,
    pub pointers: Map<PointerId, Point>,
}

impl RecognizerView {
    /// The state is well formed, and its gesture, if it has one, is about
    /// exactly the pointers that are down.
    pub open spec fn wf(self) -> bool {
        &&& self.pointers.dom().finite()
        &&& self.state.wf()
        &&& self.state.tracks(self.pointers)
    }

    /// What the recognizer holds after `event`.
    pub open spec fn step(self, event: Event) -> RecognizerView {
        let pointers = pointers_after(self.pointers, event);
        RecognizerView {
            state: self.state.next_state(pointers, membership_changes(self.pointers, event)),
            pointers,
        }
    }

    /// The events that the recognizer gives for `event`.
    pub open spec fn emits(self, event: Event) -> Seq<Event> {
        emitted(self.state, self.step(event).state)
    }
}

/// Something that turns a stream of events into gesture events.
pub trait GestureRecognizer {
    /// Takes note of `event` and returns the gesture events that it gives
    /// rise to, in the order in which they are to be delivered.
    fn process_event(&mut self, event: &Event) -> VecDeque<Event>;
}

/// Implements the state machine for recognizing gestures
pub struct DruidGestureRecognizer {
    state: GestureRecognizerState,
    pointers_track: PointerTrack,
}

impl View for DruidGestureRecognizer {
    type V = RecognizerView;

    closed spec fn view(&self) -> RecognizerView {
        RecognizerView { state: self.state, pointers: self.pointers_track@ }
    }
}

impl DruidGestureRecognizer {
    #[verifier::type_invariant]
    spec fn inv(self) -> bool {
        self@.wf()
    }

    /// Creates a new gesture recognition state machine
    pub fn new() -> (recognizer: Self)
        ensures
            recognizer@.state is Idle,
            recognizer@.pointers == Map::<PointerId, Point>::empty(),
            recognizer@.wf(),
    {
        DruidGestureRecognizer {
            state: GestureRecognizerState::Idle,
            pointers_track: PointerTrack::new(),
        }
    }

    /// The current state.
    pub fn state(&self) -> (state: GestureRecognizerState)
        ensures
            state == self@.state,
            self@.wf(),
    {
        proof {
            use_type_invariant(self);
        }
        self.state
    }
}

impl GestureRecognizer for DruidGestureRecognizer {
    fn process_event(&mut self, event: &Event) -> (gesture_events: VecDeque<Event>)
        ensures
            old(self)@.wf(),
            final(self)@ == old(self)@.step(*event),
            final(self)@.wf(),
            gesture_events@ == old(self)@.emits(*event),
    {
        proof {
            use_type_invariant(&*self);
            lemma_step_preserves_wf(self@, *event);
        }
        // The tracker is taken out while it is brought up to date, and the
        // state is put in once it fits the tracker again.
        let previous = self.state;
        let mut track = PointerTrack::new();
        self.state = GestureRecognizerState::Idle;
        std::mem::swap(&mut self.pointers_track, &mut track);
        let pointers_changed = track.update_pointers(event);
        let new_state = previous.next(&track, pointers_changed);
        let gesture_events = gesture_events(&previous, &new_state);
        std::mem::swap(&mut self.pointers_track, &mut track);
        self.state = new_state;
        gesture_events
    }
}

/// Whatever the event, a well-formed recognizer stays well formed.
pub proof fn lemma_step_preserves_wf(recognizer: RecognizerView, event: Event)
    requires
        recognizer.wf(),
    ensures
        recognizer.step(event).wf(),
{
    let pointers = pointers_after(recognizer.pointers, event);
    let changed = membership_changes(recognizer.pointers, event);
    assert(!changed ==> pointers.dom() =~= recognizer.pointers.dom());
    match recognizer.state {
        GestureRecognizerState::Idle => {
            if pointers.len() == 2 {
                lemma_two_pointers(pointers);
            }
        },
        GestureRecognizerState::TwoFingersIdle(g) => {},
        GestureRecognizerState::PinchPanGesture(g) => {
            lemma_zoom_level_bounded(
                g.finger_one_pos,
                g.finger_two_pos,
                pointers[g.finger_one_id],
                pointers[g.finger_two_id],
            );
        },
    }
}

/// Exactly two pointers are captured as a gesture at rest that is about
/// those two.
pub proof fn lemma_two_pointers(pointers: Map<PointerId, Point>)
    requires
        pointers.dom().finite(),
        pointers.len() == 2,
    ensures
        capture(pointers).wf(),
        capture(pointers).at_rest(),
        capture(pointers).finger_one_id < capture(pointers).finger_two_id,
        pointers.dom() =~= set![capture(pointers).finger_one_id, capture(pointers).finger_two_id],
{
    let dom = pointers.dom();
    let a = dom.choose();
    let rest = dom.remove(a);
    let b = rest.choose();
    assert(rest.remove(b).len() == 0);
    assert(rest.remove(b) =~= Set::<PointerId>::empty());
    assert(forall|id: PointerId| dom.contains(id) ==> id == a || id == b) by {
        assert forall|id: PointerId| dom.contains(id) implies id == a || id == b by {
            if id != a && id != b {
                assert(rest.remove(b).contains(id));
            }
        }
    }
    if a < b {
        assert(dom =~= set![a, b]);
        lemma_capture_two(pointers, a, b);
    } else {
        assert(dom =~= set![b, a]);
        lemma_capture_two(pointers, b, a);
    }
}

} // verus!
