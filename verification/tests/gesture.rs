use druid_gesture::event::{Event, PointerEvent};
use druid_gesture::geometry::Point;
use druid_gesture::gesture::{
    compute_zoom_level, get_current_twofinger_gesture, TwoFingersGesture, PINCH_ZOOM_GAIN,
    TWOFINGERS_MIN_PINCH_TRESHOLD, ZOOM_MAX, ZOOM_ONE,
};
use druid_gesture::tracker::PointerTrack;

fn resting(one: Point, two: Point) -> TwoFingersGesture {
    TwoFingersGesture {
        finger_one_id: 1,
        finger_two_id: 2,
        finger_one_pos: one,
        finger_two_pos: two,
        finger_one_pos_cur: one,
        finger_two_pos_cur: two,
        zoom: ZOOM_ONE,
    }
}

#[test]
fn the_constants() {
    assert_eq!(TWOFINGERS_MIN_PINCH_TRESHOLD, 20_000);
    assert_eq!(ZOOM_ONE, 1_000_000);
    assert_eq!(PINCH_ZOOM_GAIN, 1);
    assert_eq!(ZOOM_MAX, 1 << 53);
}

#[test]
fn zoom_of_fingers_at_rest_is_one() {
    let g = resting(Point::new(0, 0), Point::new(40_000, 0));
    assert_eq!(compute_zoom_level(g.finger_one_pos, g.finger_two_pos, &g), ZOOM_ONE);
    let g = resting(Point::new(-7, 13), Point::new(1, -1));
    assert_eq!(compute_zoom_level(g.finger_one_pos, g.finger_two_pos, &g), ZOOM_ONE);
}

#[test]
fn zoom_is_the_ratio_of_the_distances() {
    let g = resting(Point::new(0, 0), Point::new(40_000, 0));
    assert_eq!(compute_zoom_level(Point::new(0, 0), Point::new(80_000, 0), &g), 2_000_000);
    assert_eq!(compute_zoom_level(Point::new(0, 0), Point::new(20_000, 0), &g), 500_000);
    assert_eq!(compute_zoom_level(Point::new(0, 0), Point::new(0, 40_000), &g), 1_000_000);
    assert_eq!(compute_zoom_level(Point::new(5, 5), Point::new(5, 5), &g), 0);
    assert_eq!(compute_zoom_level(Point::new(0, 30_000), Point::new(40_000, 0), &g), 1_250_000);
}

#[test]
fn zoom_is_rounded_down() {
    let g = resting(Point::new(0, 0), Point::new(3, 0));
    assert_eq!(compute_zoom_level(Point::new(0, 0), Point::new(1, 0), &g), 333_333);
    assert_eq!(compute_zoom_level(Point::new(0, 0), Point::new(2, 0), &g), 666_666);
    let g = resting(Point::new(0, 0), Point::new(1, 0));
    assert_eq!(compute_zoom_level(Point::new(0, 0), Point::new(1, 1), &g), 1_414_213);
}

#[test]
fn zoom_ignores_the_current_positions_held_by_the_gesture() {
    let mut g = resting(Point::new(0, 0), Point::new(40_000, 0));
    g.finger_two_pos_cur = Point::new(1, 1);
    g.zoom = 77;
    assert_eq!(compute_zoom_level(Point::new(0, 0), Point::new(80_000, 0), &g), 2_000_000);
}

#[test]
fn zoom_of_fingers_captured_on_one_point_is_one() {
    let g = resting(Point::new(10, 10), Point::new(10, 10));
    assert_eq!(compute_zoom_level(Point::new(10, 10), Point::new(10, 10), &g), ZOOM_ONE);
    assert_eq!(compute_zoom_level(Point::new(0, 0), Point::new(80_000, 0), &g), ZOOM_ONE);
    assert_eq!(
        compute_zoom_level(Point::new(i32::MIN, i32::MIN), Point::new(i32::MAX, i32::MAX), &g),
        ZOOM_ONE
    );
}

#[test]
fn zoom_of_the_widest_spread_is_below_the_maximum() {
    let g = resting(Point::new(0, 0), Point::new(1, 0));
    let zoom =
        compute_zoom_level(Point::new(i32::MIN, i32::MIN), Point::new(i32::MAX, i32::MAX), &g);
    assert_eq!(zoom, 6_074_000_998_537_885);
    assert!(zoom <= ZOOM_MAX);
}

#[test]
fn capture_puts_the_smaller_identifier_first() {
    let mut track = PointerTrack::new();
    track.update_pointers(&Event::PointerDown(PointerEvent { id: 9, pos: Point::new(1, 2) }));
    track.update_pointers(&Event::PointerDown(PointerEvent { id: 4, pos: Point::new(3, 4) }));
    let g = get_current_twofinger_gesture(&track);
    assert_eq!(
        g,
        TwoFingersGesture {
            finger_one_id: 4,
            finger_two_id: 9,
            finger_one_pos: Point::new(3, 4),
            finger_two_pos: Point::new(1, 2),
            finger_one_pos_cur: Point::new(3, 4),
            finger_two_pos_cur: Point::new(1, 2),
            zoom: ZOOM_ONE,
        }
    );
}

#[test]
fn capture_takes_the_latest_positions() {
    let mut track = PointerTrack::new();
    track.update_pointers(&Event::PointerDown(PointerEvent { id: 1, pos: Point::new(0, 0) }));
    track.update_pointers(&Event::PointerMove(PointerEvent { id: 1, pos: Point::new(5, 6) }));
    track.update_pointers(&Event::PointerDown(PointerEvent { id: 2, pos: Point::new(7, 8) }));
    track.update_pointers(&Event::PointerDown(PointerEvent { id: 2, pos: Point::new(9, 9) }));
    let g = get_current_twofinger_gesture(&track);
    assert_eq!(g.finger_one_id, 1);
    assert_eq!(g.finger_two_id, 2);
    assert_eq!(g.finger_one_pos, Point::new(5, 6));
    assert_eq!(g.finger_two_pos, Point::new(9, 9));
    assert_eq!(g.finger_one_pos_cur, Point::new(5, 6));
    assert_eq!(g.finger_two_pos_cur, Point::new(9, 9));
    assert_eq!(g.zoom, ZOOM_ONE);
}

#[test]
fn center_is_the_midpoint_of_the_current_positions() {
    let mut g = resting(Point::new(0, 0), Point::new(40_000, 0));
    assert_eq!(g.center(), Point::new(20_000, 0));
    g.finger_one_pos_cur = Point::new(-3, 1);
    g.finger_two_pos_cur = Point::new(0, 2);
    assert_eq!(g.center(), Point::new(-2, 1));
}
