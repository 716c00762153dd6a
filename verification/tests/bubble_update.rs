use lava_lamp::bubble::Bubble;
use lava_lamp::bubble::MAX_RADIUS;
use lava_lamp::bubble::SCALE;

const WIDTH: i64 = 400 * 1000;
const HEIGHT: i64 = 600 * 1000;

#[test]
fn wrap_scenario_exact() {
    // y = 5 px, radius = 10 px, speed = 1.0, one second: the bubble drifts to
    // y = -11 px; its lowest point -1 px is above the top, so it wraps to
    // height + radius = 610 px.
    let mut b = Bubble { x: 7, y: 5 * SCALE, radius: 10 * SCALE, speed: SCALE };
    b.update(SCALE, HEIGHT);
    assert_eq!(b.y, 610 * SCALE);
    assert_eq!(b.x, 7);
    assert_eq!(b.radius, 10 * SCALE);
    assert_eq!(b.speed, SCALE);
}

#[test]
fn drift_without_wrap() {
    // speed 0.5 for one second moves the bubble up 8 px.
    let mut b = Bubble { x: 100 * SCALE, y: 600 * SCALE, radius: 10 * SCALE, speed: 500 };
    b.update(SCALE, HEIGHT);
    assert_eq!(b.y, 592 * SCALE);
    assert_eq!(b.x, 100 * SCALE);
    assert_eq!(b.radius, 10 * SCALE);
    assert_eq!(b.speed, 500);
}

#[test]
fn wrap_boundary_is_inclusive() {
    // The drifted lowest point lands exactly on the top edge: that counts as
    // having left the screen, so the bubble wraps.
    let mut b = Bubble { x: 0, y: 16 * SCALE, radius: 0, speed: SCALE };
    b.update(SCALE, HEIGHT);
    assert_eq!(b.y, HEIGHT);
}

#[test]
fn just_below_boundary_does_not_wrap() {
    // One unit short of the top edge: no wrap.
    let mut b = Bubble { x: 0, y: 16 * SCALE + 1, radius: 0, speed: SCALE };
    b.update(SCALE, HEIGHT);
    assert_eq!(b.y, 1);
}

#[test]
fn zero_delta_keeps_position() {
    let mut b = Bubble { x: 0, y: 5 * SCALE, radius: 10 * SCALE, speed: SCALE };
    b.update(0, HEIGHT);
    assert_eq!(b.y, 5 * SCALE);
}

#[test]
fn zero_delta_still_wraps_when_already_out() {
    // A bubble that already lies fully above the screen wraps even with no
    // elapsed time.
    let mut b = Bubble { x: 0, y: -11 * SCALE, radius: 10 * SCALE, speed: 0 };
    b.update(0, HEIGHT);
    assert_eq!(b.y, HEIGHT + 10 * SCALE);
}

#[test]
fn displacement_truncates_toward_zero() {
    // speed 1/1000 for 1/1000 s: 16 / 1000 truncates to no movement at all.
    let mut b = Bubble { x: 0, y: 5 * SCALE, radius: 10 * SCALE, speed: 1 };
    b.update(1, HEIGHT);
    assert_eq!(b.y, 5 * SCALE);
}

#[test]
fn y_non_increasing_until_wrap() {
    let mut b = Bubble { x: 0, y: 40 * SCALE, radius: 5 * SCALE, speed: 750 };
    let mut prev: i64 = b.y;
    let mut wrapped = false;
    for _ in 0..20 {
        b.update(SCALE, HEIGHT);
        if b.y > prev {
            // The only way up is the wraparound, and it is exact.
            assert!(!wrapped);
            wrapped = true;
            assert_eq!(b.y, HEIGHT + b.radius);
        }
        prev = b.y;
    }
    assert!(wrapped);
}

#[test]
fn spawned_fields_lie_in_their_ranges() {
    for _ in 0..200 {
        let b = Bubble::spawn_random(WIDTH, HEIGHT);
        assert!(0 <= b.x && b.x < WIDTH);
        assert!(0 <= b.y && b.y < HEIGHT);
        assert!(0 <= b.radius && b.radius < MAX_RADIUS);
        assert!(0 <= b.speed && b.speed < SCALE);
        assert!(b.is_well_formed());
    }
}

#[test]
fn well_formedness_check_rejects_bad_fields() {
    let good = Bubble { x: 0, y: 0, radius: 0, speed: 0 };
    assert!(good.is_well_formed());
    let negative_radius = Bubble { x: 0, y: 0, radius: -1, speed: 0 };
    assert!(!negative_radius.is_well_formed());
    let too_fast = Bubble { x: 0, y: 0, radius: 0, speed: SCALE + 1 };
    assert!(!too_fast.is_well_formed());
}
