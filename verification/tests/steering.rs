use electrons::angle::PI_B;
use electrons::geom::PX;
use electrons::steer::{angle_from_y, apply_steering_step};
use electrons::trig::{heading_dir, target_angle, DIR_SCALE};

#[test]
fn forward_axis_of_zero_heading_is_plus_y() {
    let d = heading_dir(0);
    // A zero heading faces the +Y axis: the components are within a
    // few fixed-point bits of (0, 1).
    assert!(d.0.abs() < 32, "x component {}", d.0);
    assert!((d.1 - DIR_SCALE).abs() < 32, "y component {}", d.1);
}

#[test]
fn forward_axis_quadrants() {
    // A heading of -PI/2 faces the +X axis.
    let d = heading_dir(-(PI_B / 2));
    assert!((d.0 - DIR_SCALE).abs() < 32, "x component {}", d.0);
    assert!(d.1.abs() < 32, "y component {}", d.1);
    // A heading of +PI/2 faces the -X axis.
    let d = heading_dir(PI_B / 2);
    assert!((d.0 + DIR_SCALE).abs() < 32, "x component {}", d.0);
    assert!(d.1.abs() < 32, "y component {}", d.1);
}

#[test]
fn forward_axis_at_a_sixth_turn() {
    // A heading of PI/6 (thirty degrees counterclockwise): the forward
    // axis is (-1/2, sqrt(3)/2) to within a few fixed-point bits.
    let d = heading_dir(PI_B / 6);
    assert!((d.0 + DIR_SCALE / 2).abs() < 200, "x component {}", d.0);
    assert!((d.1 - 56756).abs() < 200, "y component {}", d.1);
}

#[test]
fn target_angle_of_axes() {
    // Straight up (+Y) is heading zero, exactly: the arc-tangent of a
    // zero abscissa is answered without iteration.
    assert_eq!(target_angle(0, 100 * PX), 0);
    // +X is a clockwise quarter turn.
    let t = target_angle(100 * PX, 0);
    assert!((t + PI_B / 2).abs() < 16, "target angle {}", t);
    // -X is a counterclockwise quarter turn.
    let t = target_angle(-(100 * PX), 0);
    assert!((t - PI_B / 2).abs() < 16, "target angle {}", t);
    // -Y is half a turn away.
    let t = target_angle(0, -(100 * PX));
    assert!(PI_B - t.abs() < 16, "target angle {}", t);
}

#[test]
fn steering_toward_target_ahead_needs_no_turn() {
    // Agent heading 0, target straight ahead: no rotation needed.
    let res = angle_from_y(0, 0, 100 * PX);
    assert_eq!(res.0, 0);
}

#[test]
fn steering_picks_shorter_side() {
    // Target to the agent's right (+X of a zero heading): the sense is
    // clockwise, a negative rotation.
    let res = angle_from_y(0, 100 * PX, 0);
    assert_eq!(res.1, -1);
    assert!((res.0 - PI_B / 2).abs() < 16, "max angle {}", res.0);
    // Target to the left: counterclockwise.
    let res = angle_from_y(0, -(100 * PX), 0);
    assert_eq!(res.1, 1);
}

#[test]
fn steering_step_is_rate_limited() {
    // One radian per second over 15625 microseconds allows 1024 units.
    let h = apply_steering_step(0, 5000, 1, DIR_SCALE, 15625);
    assert_eq!(h, 1024);
    let h = apply_steering_step(0, 5000, -1, DIR_SCALE, 15625);
    assert_eq!(h, -1024);
}

#[test]
fn steering_step_never_overshoots() {
    // A huge turn rate is clamped to the remaining misalignment.
    let h = apply_steering_step(0, 1000, 1, 0x10_0000, 1_000_000);
    assert_eq!(h, 1000);
    // And a zero misalignment stays put.
    let h = apply_steering_step(777, 0, -1, 0x10_0000, 1_000_000);
    assert_eq!(h, 777);
}

#[test]
fn steering_step_wraps_around() {
    let h = apply_steering_step(PI_B - 1, 10, 1, DIR_SCALE, 1_000_000);
    assert_eq!(h, PI_B - 1 + 10 - 2 * PI_B);
}
