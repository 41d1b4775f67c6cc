//! The two-finger gesture: what is captured when exactly two pointers are
//! down, and the zoom ratio that the fingers' distance stands for.

use vstd::prelude::*;
use crate::event::PointerId;
use crate::geometry::{
    floor_sqrt, is_floor_sqrt, isqrt, lemma_distance_squared_bounded, lemma_floor_sqrt_exists,
    lemma_floor_sqrt_unique, Point,
};
use crate::tracker::PointerTrack;

verus! {

/// A finger has to move farther than this from where it was captured, in
/// coordinate steps, before two resting fingers become a pinch.
pub const TWOFINGERS_MIN_PINCH_TRESHOLD: u128 = 20_000;

/// The zoom ratio 1 in the fixed-point steps in which zoom ratios are held.
pub const ZOOM_ONE: u64 = 1_000_000;

/// Factor applied to the ratio of finger distances to give the zoom ratio.
pub const PINCH_ZOOM_GAIN: u64 = 1;

/// No zoom ratio is larger than this.
pub const ZOOM_MAX: u64 = 0x20_0000_0000_0000;

/// Two pointers captured together: where each was at capture, where each is
/// now, and the zoom ratio that their distance stands for.
#[derive(Clone, Copy, Debug, PartialEq, Eq, Structural)]
pub struct TwoFingersGesture {
    pub finger_one_id: PointerId,
    pub finger_two_id: PointerId,
    pub finger_one_pos: Point,
    pub finger_two_pos: Point,
    pub finger_one_pos_cur: Point,
    pub finger_two_pos_cur: Point,
    pub zoom: u64,
}

/// The zoom ratio, in steps of one-in-[`ZOOM_ONE`], of two fingers that were
/// captured at `initial_one` and `initial_two` and are now at `current_one`
/// and `current_two`: the distance now divided by the distance at capture,
/// rounded down to a step, times the gain. Fingers captured on one and the
/// same point have the ratio 1 wherever they are.
pub open spec fn zoom_level(
    initial_one: Point,
    initial_two: Point,
    current_one: Point,
    current_two: Point,
) -> nat {
    let initial = initial_one.spec_distance_squared(initial_two);
    let current = current_one.spec_distance_squared(current_two);
    if initial == 0 {
        ZOOM_ONE as nat
    } else {
        (floor_sqrt(((ZOOM_ONE * ZOOM_ONE * current) / (initial as int)) as nat)
            * PINCH_ZOOM_GAIN) as nat
    }
}

/// Whether `to` is farther from `from` than the pinch threshold.
pub open spec fn exceeds_threshold(from: Point, to: Point) -> bool {
    from.spec_distance_squared(to) > TWOFINGERS_MIN_PINCH_TRESHOLD * TWOFINGERS_MIN_PINCH_TRESHOLD
}

/// The smallest identifier among `pointers`.
pub open spec fn lowest_id(pointers: Map<PointerId, Point>) -> PointerId {
    choose|id: PointerId|
        pointers.contains_key(id) && forall|other: PointerId|
            pointers.contains_key(other) ==> id <= other
}

/// The largest identifier among `pointers`.
pub open spec fn highest_id(pointers: Map<PointerId, Point>) -> PointerId {
    choose|id: PointerId|
        pointers.contains_key(id) && forall|other: PointerId|
            pointers.contains_key(other) ==> other <= id
}

/// The gesture captured from two pointers: finger one is the pointer with
/// the smaller identifier, both fingers rest where the pointers are, and the
/// zoom ratio is 1.
pub open spec fn capture(pointers: Map<PointerId, Point>) -> TwoFingersGesture {
    let one = lowest_id(pointers);
    let two = highest_id(pointers);
    TwoFingersGesture {
        finger_one_id: one,
        finger_two_id: two,
        finger_one_pos: pointers[one],
        finger_two_pos: pointers[two],
        finger_one_pos_cur: pointers[one],
        finger_two_pos_cur: pointers[two],
        zoom: ZOOM_ONE,
    }
}

impl TwoFingersGesture {
    /// The two fingers are different pointers, and the zoom ratio is that of
    /// the positions held.
    pub open spec fn wf(self) -> bool {
        &&& self.finger_one_id != self.finger_two_id
        &&& self.zoom == zoom_level(
            self.finger_one_pos,
            self.finger_two_pos,
            self.finger_one_pos_cur,
            self.finger_two_pos_cur,
        )
    }

    /// Both fingers are still where they were captured.
    pub open spec fn at_rest(self) -> bool {
        &&& self.finger_one_pos_cur == self.finger_one_pos
        &&& self.finger_two_pos_cur == self.finger_two_pos
    }

    /// The point halfway between the fingers' current positions.
    pub open spec fn spec_center(self) -> Point {
        self.finger_one_pos_cur.spec_midpoint(self.finger_two_pos_cur)
    }

    /// This gesture with the fingers now at `one` and `two`, and the zoom
    /// ratio that follows.
    pub open spec fn moved_to(self, one: Point, two: Point) -> TwoFingersGesture {
        TwoFingersGesture {
            finger_one_pos_cur: one,
            finger_two_pos_cur: two,
            zoom: zoom_level(self.finger_one_pos, self.finger_two_pos, one, two) as u64,
            ..self
        }
    }

    /// The point halfway between the fingers' current positions.
    pub fn center(&self) -> (c: Point)
        ensures
            c == self.spec_center(),
    {
        self.finger_one_pos_cur.midpoint(self.finger_two_pos_cur)
    }
}

/// A zoom ratio is never larger than [`ZOOM_MAX`].
pub proof fn lemma_zoom_level_bounded(
    initial_one: Point,
    initial_two: Point,
    current_one: Point,
    current_two: Point,
)
    ensures
        zoom_level(initial_one, initial_two, current_one, current_two) <= ZOOM_MAX,
{
    let initial = initial_one.spec_distance_squared(initial_two);
    let current = current_one.spec_distance_squared(current_two);
    lemma_distance_squared_bounded(current_one, current_two);
    if initial != 0 {
        let scaled = ZOOM_ONE * ZOOM_ONE * current;
        let quotient = (scaled / (initial as int)) as nat;
        assert(scaled == 1_000_000_000_000 * current) by (nonlinear_arith)
            requires
                scaled == ZOOM_ONE * ZOOM_ONE * current,
                ZOOM_ONE == 1_000_000,
        ;
        assert(0 <= scaled / (initial as int) <= scaled) by (nonlinear_arith)
            requires
                initial >= 1,
                scaled >= 0,
        ;
        lemma_floor_sqrt_exists(quotient);
        let r = floor_sqrt(quotient);
        assert(r <= ZOOM_MAX) by (nonlinear_arith)
            requires
                r * r <= quotient,
                quotient <= 1_000_000_000_000 * 0x1_FFFF_FFFC_0000_0002,
                ZOOM_MAX == 0x20_0000_0000_0000,
        ;
    }
}

/// The zoom ratio of fingers captured apart is the largest number of steps
/// whose share of the distance at capture is no longer than the distance now.
pub proof fn lemma_zoom_level_is_ratio(
    initial_one: Point,
    initial_two: Point,
    current_one: Point,
    current_two: Point,
)
    requires
        initial_one.spec_distance_squared(initial_two) > 0,
    ensures
        ({
            let zoom = zoom_level(initial_one, initial_two, current_one, current_two);
            let initial = initial_one.spec_distance_squared(initial_two);
            let current = current_one.spec_distance_squared(current_two);
            zoom * zoom * initial <= ZOOM_ONE * ZOOM_ONE * current < (zoom + 1) * (zoom + 1)
                * initial
        }),
{
    let initial = initial_one.spec_distance_squared(initial_two) as int;
    let current = current_one.spec_distance_squared(current_two) as int;
    let scaled = ZOOM_ONE * ZOOM_ONE * current;
    assert(scaled >= 0) by (nonlinear_arith)
        requires
            scaled == ZOOM_ONE * ZOOM_ONE * current,
            current >= 0,
    ;
    let quotient = scaled / initial;
    assert(0 <= quotient && quotient * initial <= scaled < (quotient + 1) * initial)
        by (nonlinear_arith)
        requires
            quotient == scaled / initial,
            initial > 0,
            scaled >= 0,
    ;
    lemma_floor_sqrt_exists(quotient as nat);
    let r = floor_sqrt(quotient as nat) as int;
    assert(r * r * initial <= scaled < (r + 1) * (r + 1) * initial) by (nonlinear_arith)
        requires
            r * r <= quotient,
            quotient + 1 <= (r + 1) * (r + 1),
            quotient * initial <= scaled < (quotient + 1) * initial,
            initial > 0,
    ;
    assert(r * PINCH_ZOOM_GAIN == r);
}

/// Fingers that are where they were captured have the zoom ratio 1.
pub proof fn lemma_zoom_level_at_rest(initial_one: Point, initial_two: Point)
    ensures
        zoom_level(initial_one, initial_two, initial_one, initial_two) == ZOOM_ONE,
{
    let d = initial_one.spec_distance_squared(initial_two);
    if d != 0 {
        let scaled = ZOOM_ONE * ZOOM_ONE * d;
        assert(scaled / (d as int) == ZOOM_ONE * ZOOM_ONE) by (nonlinear_arith)
            requires
                d >= 1,
                scaled == ZOOM_ONE * ZOOM_ONE * d,
        ;
        assert(is_floor_sqrt((ZOOM_ONE * ZOOM_ONE) as nat, ZOOM_ONE as nat)) by (nonlinear_arith)
            requires
                ZOOM_ONE == 1_000_000,
        ;
        lemma_floor_sqrt_unique((ZOOM_ONE * ZOOM_ONE) as nat, ZOOM_ONE as nat);
    }
}

/// The zoom ratio of two fingers that were captured where `gesture_state`
/// says and are now at `finger_one_pos` and `finger_two_pos`.
pub fn compute_zoom_level(
    finger_one_pos: Point,
    finger_two_pos: Point,
    gesture_state: &TwoFingersGesture,
) -> (zoom: u64)
    ensures
        zoom == zoom_level(
            gesture_state.finger_one_pos,
            gesture_state.finger_two_pos,
            finger_one_pos,
            finger_two_pos,
        ),
        zoom <= ZOOM_MAX,
{
    let initial_distance = gesture_state.finger_one_pos.distance_squared(
        gesture_state.finger_two_pos,
    );
    let current_distance = finger_one_pos.distance_squared(finger_two_pos);
    proof {
        lemma_zoom_level_bounded(
            gesture_state.finger_one_pos,
            gesture_state.finger_two_pos,
            finger_one_pos,
            finger_two_pos,
        );
    }
    if initial_distance == 0 {
        ZOOM_ONE
    } else {
        let unit: u128 = 1_000_000_000_000;
        assert(unit == ZOOM_ONE * ZOOM_ONE);
        let ratio = isqrt(unit * current_distance / initial_distance);
        ratio * PINCH_ZOOM_GAIN
    }
}

/// With exactly two pointers, the one with the smaller identifier and the one
/// with the larger are found, and they are all there is.
pub proof fn lemma_capture_two(pointers: Map<PointerId, Point>, a: PointerId, b: PointerId)
    requires
        a < b,
        pointers.dom() =~= set![a, b],
    ensures
        lowest_id(pointers) == a,
        highest_id(pointers) == b,
        capture(pointers).finger_one_id == a,
        capture(pointers).finger_two_id == b,
        capture(pointers).wf(),
        capture(pointers).at_rest(),
{
    assert(pointers.contains_key(a) && pointers.contains_key(b));
    assert(forall|other: PointerId| pointers.contains_key(other) ==> other == a || other == b);
    let low = lowest_id(pointers);
    assert(pointers.contains_key(a) && forall|other: PointerId|
        pointers.contains_key(other) ==> a <= other);
    let high = highest_id(pointers);
    assert(pointers.contains_key(b) && forall|other: PointerId|
        pointers.contains_key(other) ==> other <= b);
    lemma_zoom_level_at_rest(pointers[a], pointers[b]);
}

/// Captures the two active pointers of `track` as a gesture at rest.
pub fn get_current_twofinger_gesture(track: &PointerTrack) -> (gesture: TwoFingersGesture)
    requires
        track@.dom().finite(),
        track@.len() == 2,
    ensures
        gesture == capture(track@),
        gesture.wf(),
        gesture.at_rest(),
        gesture.finger_one_id < gesture.finger_two_id,
        track@.dom() =~= set![gesture.finger_one_id, gesture.finger_two_id],
{
    let ids = track.pointer_ids();
    let first = ids[0];
    let second = ids[1];
    let (one, two) = if first < second {
        (first, second)
    } else {
        (second, first)
    };
    proof {
        assert(ids@.contains(ids@[0]) && ids@.contains(ids@[1]));
        assert(forall|id: PointerId| ids@.contains(id) ==> id == first || id == second);
        assert(track@.dom() =~= set![one, two]);
        lemma_capture_two(track@, one, two);
    }
    let finger_one_pos = track.pointer_pos(&one).unwrap();
    let finger_two_pos = track.pointer_pos(&two).unwrap();
    TwoFingersGesture {
        finger_one_id: one,
        finger_two_id: two,
        finger_one_pos,
        finger_two_pos,
        finger_one_pos_cur: finger_one_pos,
        finger_two_pos_cur: finger_two_pos,
        zoom: ZOOM_ONE,
    }
}

} // verus!
