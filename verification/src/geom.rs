//! Plane geometry on fixed-point positions.
//!
//! Positions are pairs of integers in fine sub-pixel units: `PX` units to
//! one pixel of the world scale. Radius tests compare squared
//! distances, so they are exact; the sector test combines a radius test
//! with an angular wedge around a facing direction.

use vstd::prelude::*;
use crate::angle::{angle_dist, wrapped, PI_B};
use crate::trig::target_angle_spec;

verus! {

/// Fine position units per pixel (`DIR_SCALE` times the microseconds of a
/// second), chosen so that one kinematics step needs no rounding.
pub const PX: i64 = 65_536_000_000;

/// Positions (and field radii) are kept within this bound, so that every
/// intermediate product below fits its integer type.
pub const POS_LIMIT: i64 = 0x100_0000_0000_0000;

/// The snap radius: within one pixel of a capture field an agent's
/// orientation locks, within one pixel of a collector it is destroyed.
pub const SNAP_RADIUS: i64 = PX;

/// The squared distance between two points.
pub open spec fn dist_sq(px: int, py: int, cx: int, cy: int) -> int {
    (px - cx) * (px - cx) + (py - cy) * (py - cy)
}

/// The 2D cross-product test for rotational sense: rotating `a` toward
/// `b` follows the clockwise sense exactly when `-a.x*b.y + a.y*b.x` is
/// positive.
pub open spec fn clockwise_spec(ax: int, ay: int, bx: int, by: int) -> bool {
    -ax * by + ay * bx > 0
}

/// A product of two coordinate differences stays far inside the 128-bit
/// range: both factors are bounded by twice the position limit.
proof fn lemma_mul_bound(a: int, b: int)
    by (nonlinear_arith)
    requires
        -0x200_0000_0000_0000 <= a <= 0x200_0000_0000_0000,
        -0x200_0000_0000_0000 <= b <= 0x200_0000_0000_0000,
    ensures
        -0x4_0000_0000_0000_0000_0000_0000_0000 <= a * b
            <= 0x4_0000_0000_0000_0000_0000_0000_0000,
{
}

/// A squared distance is non-negative, and zero exactly at coincidence.
pub proof fn lemma_dist_sq_zero(px: int, py: int, cx: int, cy: int)
    by (nonlinear_arith)
    ensures
        dist_sq(px, py, cx, cy) >= 0,
        (dist_sq(px, py, cx, cy) > 0) <==> (px != cx || py != cy),
{
}

/// Whether rotating vector `a` toward vector `b` follows the clockwise
/// sense.
pub fn is_clockwise(ax: i64, ay: i64, bx: i64, by: i64) -> (r: bool)
    requires
        -2 * POS_LIMIT <= ax <= 2 * POS_LIMIT,
        -2 * POS_LIMIT <= ay <= 2 * POS_LIMIT,
        -2 * POS_LIMIT <= bx <= 2 * POS_LIMIT,
        -2 * POS_LIMIT <= by <= 2 * POS_LIMIT,
    ensures
        r == clockwise_spec(ax as int, ay as int, bx as int, by as int),
{
    proof {
        lemma_mul_bound(-(ax as int), by as int);
        lemma_mul_bound(ay as int, bx as int);
    }
    let nax = -(ax as i128);
    nax * (by as i128) + (ay as i128) * (bx as i128) > 0
}

/// Whether `(px, py)` lies strictly within `radius` of `(cx, cy)`, by the
/// exact squared-distance comparison.
pub fn is_within_rad(px: i64, py: i64, cx: i64, cy: i64, radius: i64) -> (r: bool)
    requires
        -POS_LIMIT <= px <= POS_LIMIT,
        -POS_LIMIT <= py <= POS_LIMIT,
        -POS_LIMIT <= cx <= POS_LIMIT,
        -POS_LIMIT <= cy <= POS_LIMIT,
        0 <= radius <= POS_LIMIT,
    ensures
        r == (dist_sq(px as int, py as int, cx as int, cy as int) < radius * radius),
{
    let dx = px - cx;
    let dy = py - cy;
    proof {
        lemma_mul_bound(dx as int, dx as int);
        lemma_mul_bound(dy as int, dy as int);
        lemma_mul_bound(radius as int, radius as int);
    }
    let d2 = (dx as i128) * (dx as i128) + (dy as i128) * (dy as i128);
    d2 < (radius as i128) * (radius as i128)
}

/// Whether `(px, py)` lies within `radius` of `(cx, cy)`, boundary
/// included: the inclusive companion of `is_within_rad`, for reach
/// tests that include their boundary.
pub fn is_within_reach(px: i64, py: i64, cx: i64, cy: i64, radius: i64) -> (r: bool)
    requires
        -POS_LIMIT <= px <= POS_LIMIT,
        -POS_LIMIT <= py <= POS_LIMIT,
        -POS_LIMIT <= cx <= POS_LIMIT,
        -POS_LIMIT <= cy <= POS_LIMIT,
        0 <= radius <= POS_LIMIT,
    ensures
        r == (dist_sq(px as int, py as int, cx as int, cy as int) <= radius * radius),
{
    let dx = px - cx;
    let dy = py - cy;
    proof {
        lemma_mul_bound(dx as int, dx as int);
        lemma_mul_bound(dy as int, dy as int);
        lemma_mul_bound(radius as int, radius as int);
    }
    let d2 = (dx as i128) * (dx as i128) + (dy as i128) * (dy as i128);
    d2 <= (radius as i128) * (radius as i128)
}

/// The angular wedge test at the heart of the sector check: a direction
/// `theta` lies in the wedge of half-width `half` around `facing` when
/// their angular distance is at most `half`.
pub open spec fn in_wedge(theta: int, facing: int, half: int) -> bool {
    angle_dist(theta, facing) <= half
}

/// Membership in a directional capture sector: within the radius
/// (boundary included), not exactly at the center, and with the
/// direction from the center lying in the wedge around the facing
/// angle.
pub open spec fn in_sector_spec(
    px: int,
    py: int,
    cx: int,
    cy: int,
    facing: int,
    half: int,
    radius: int,
) -> bool {
    &&& dist_sq(px, py, cx, cy) > 0
    &&& dist_sq(px, py, cx, cy) <= radius * radius
    &&& in_wedge(target_angle_spec(px - cx, py - cy), facing, half)
}

/// Whether `(px, py)` lies within the capture sector of a field at
/// `(cx, cy)` facing `facing` with angular half-width `half` and reach
/// `radius`. The radius boundary is inclusive: a point exactly at the
/// full reach along the facing is still captured. A point exactly at
/// the center has no direction and is not in the sector; a half-width
/// of `PI_B` covers every direction.
pub fn is_within_segment(
    px: i64,
    py: i64,
    cx: i64,
    cy: i64,
    facing: i64,
    half: i64,
    radius: i64,
) -> (r: bool)
    requires
        -POS_LIMIT <= px <= POS_LIMIT,
        -POS_LIMIT <= py <= POS_LIMIT,
        -POS_LIMIT <= cx <= POS_LIMIT,
        -POS_LIMIT <= cy <= POS_LIMIT,
        wrapped(facing as int),
        0 <= half <= PI_B,
        0 <= radius <= POS_LIMIT,
    ensures
        r == in_sector_spec(
            px as int,
            py as int,
            cx as int,
            cy as int,
            facing as int,
            half as int,
            radius as int,
        ),
{
    let dx = px - cx;
    let dy = py - cy;
    if dx == 0 && dy == 0 {
        return false;
    }
    proof {
        assert(dist_sq(px as int, py as int, cx as int, cy as int) > 0) by (nonlinear_arith)
            requires
                px - cx != 0 || py - cy != 0,
        ;
    }
    if !is_within_reach(px, py, cx, cy, radius) {
        return false;
    }
    let theta = crate::trig::target_angle(dx, dy);
    let d = crate::angle::wrap_angle(theta - facing);
    let dist = if d < 0 {
        -d
    } else {
        d
    };
    dist <= half
}

/// Law: a point within the radius whose direction from the
/// center is exactly the facing angle lies in the sector, whatever the
/// half-width; one whose direction is the exact opposite lies in the
/// sector only when the wedge covers the full circle.
pub proof fn lemma_sector_midpoint_and_opposite(
    px: int,
    py: int,
    cx: int,
    cy: int,
    facing: int,
    half: int,
    radius: int,
)
    requires
        wrapped(facing),
        0 <= half <= PI_B,
        0 < dist_sq(px, py, cx, cy) <= radius * radius,
    ensures
        target_angle_spec(px - cx, py - cy) == facing ==> in_sector_spec(
            px,
            py,
            cx,
            cy,
            facing,
            half,
            radius,
        ),
        target_angle_spec(px - cx, py - cy) == crate::angle::wrap_spec(facing + PI_B) && half
            < PI_B ==> !in_sector_spec(px, py, cx, cy, facing, half, radius),
{
    lemma_wedge_midpoint(facing, half);
    lemma_wedge_opposite(facing, half);
}

/// Law: the wedge midpoint lies in the wedge — a direction equal to the
/// facing angle is at angular distance zero, within any half-width.
pub proof fn lemma_wedge_midpoint(facing: int, half: int)
    requires
        wrapped(facing),
        0 <= half,
    ensures
        in_wedge(facing, facing, half),
{
    crate::angle::lemma_angle_dist_self(facing);
}

/// Law: the direction opposite the facing angle lies outside every wedge
/// narrower than a half turn, and inside the degenerate full wedge.
pub proof fn lemma_wedge_opposite(facing: int, half: int)
    requires
        wrapped(facing),
        0 <= half <= PI_B,
    ensures
        in_wedge(crate::angle::wrap_spec(facing + PI_B), facing, half) <==> half == PI_B,
{
    let opp = crate::angle::wrap_spec(facing + PI_B);
    crate::angle::lemma_angle_dist_sym(opp, facing);
    crate::angle::lemma_wrap_sub_wrapped(facing, facing + PI_B);
    assert(crate::angle::wrap_spec(facing - opp) == crate::angle::wrap_spec(-PI_B as int));
    crate::angle::lemma_wrap_identity(-PI_B as int);
    assert(angle_dist(facing, opp) == PI_B);
}

} // verus!
