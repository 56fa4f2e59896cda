use electrons::angle::{wrap_angle, PI_B, TWO_PI_B};
use electrons::geom::{is_clockwise, is_within_rad, is_within_reach, is_within_segment, PX};

#[test]
fn wrap_angle_identity_in_range() {
    assert_eq!(wrap_angle(0), 0);
    assert_eq!(wrap_angle(1000), 1000);
    assert_eq!(wrap_angle(-PI_B), -PI_B);
    assert_eq!(wrap_angle(PI_B - 1), PI_B - 1);
}

#[test]
fn wrap_angle_reduces_whole_turns() {
    assert_eq!(wrap_angle(PI_B), -PI_B);
    assert_eq!(wrap_angle(TWO_PI_B), 0);
    assert_eq!(wrap_angle(-TWO_PI_B), 0);
    assert_eq!(wrap_angle(TWO_PI_B + 5), 5);
    assert_eq!(wrap_angle(-PI_B - 1), PI_B - 1);
}

#[test]
fn clockwise_matches_cross_product_sign() {
    // Rotating the +Y axis toward the +X axis is clockwise.
    assert!(is_clockwise(0, 1, 1, 0));
    // Rotating the +X axis toward the +Y axis is counterclockwise.
    assert!(!is_clockwise(1, 0, 0, 1));
    // Parallel vectors are not clockwise of each other.
    assert!(!is_clockwise(1, 1, 2, 2));
}

#[test]
fn within_radius_is_strict() {
    // Distance exactly equal to the radius is outside the strict test.
    assert!(!is_within_rad(3, 4, 0, 0, 5));
    assert!(is_within_rad(3, 4, 0, 0, 6));
    // The inclusive companion accepts the exact boundary.
    assert!(is_within_reach(3, 4, 0, 0, 5));
    assert!(!is_within_reach(3, 4, 0, 0, 4));
    // Distance zero is inside any positive radius.
    assert!(is_within_rad(7, 7, 7, 7, 1));
}

#[test]
fn sector_contains_point_along_facing() {
    // A field at the origin facing +Y, quarter half-turn wedge, 150 px
    // reach: a point straight ahead and just inside the radius is in.
    let r = 150 * PX;
    assert!(is_within_segment(0, 100 * PX, 0, 0, 0, PI_B / 4, r));
    // The wedge midpoint at almost the full radius is still inside.
    assert!(is_within_segment(0, r - 1, 0, 0, 0, PI_B / 4, r));
}

#[test]
fn sector_excludes_opposite_direction() {
    let r = 150 * PX;
    // The point at the exact opposite direction, same distance, is out.
    assert!(!is_within_segment(0, -(100 * PX), 0, 0, 0, PI_B / 4, r));
    // A degenerate half-angle of a half turn covers the full circle.
    assert!(is_within_segment(0, -(100 * PX), 0, 0, 0, PI_B, r));
}

#[test]
fn sector_excludes_center_but_includes_radius_boundary() {
    let r = 150 * PX;
    // The field's own center has no direction and is not in the sector.
    assert!(!is_within_segment(0, 0, 0, 0, 0, PI_B / 4, r));
    // The radius test is inclusive: the boundary is in, one unit past
    // it is out.
    assert!(is_within_segment(0, r, 0, 0, 0, PI_B / 4, r));
    assert!(!is_within_segment(0, r + 1, 0, 0, 0, PI_B / 4, r));
}

#[test]
fn sector_contains_wedge_midpoint_at_full_reach() {
    // A field at the origin facing +Y with a reach of 100 pixels: the
    // point exactly at center + radius * forward axis is captured, and
    // the point at the exact opposite direction at the same distance
    // is not.
    assert!(is_within_segment(0, 100 * PX, 0, 0, 0, PI_B / 4, 100 * PX));
    assert!(!is_within_segment(0, -(100 * PX), 0, 0, 0, PI_B / 4, 100 * PX));
}

#[test]
fn sector_respects_rotated_facing() {
    let r = 150 * PX;
    // Facing -PI/2 (the +X direction): a point to the +X side is in,
    // a point straight ahead of an unrotated field is not.
    let facing = -(PI_B / 2);
    assert!(is_within_segment(100 * PX, 0, 0, 0, facing, PI_B / 4, r));
    assert!(!is_within_segment(0, 100 * PX, 0, 0, facing, PI_B / 4, r));
}
