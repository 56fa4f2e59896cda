//! Fixed-point trigonometry behind a trusted boundary.
//!
//! The simulation needs three transcendental values: the sine and cosine
//! of a heading (to obtain its forward axis) and the arc-tangent of a
//! relative position (to obtain the direction toward a target). They are
//! computed by the `cordic` crate on `fixed::types::I48F16` values, whose
//! raw bits are this crate's angle units (`2^-16` radians per unit). The
//! results are named, not restated: every contract above this module
//! speaks of `sin_bits`, `cos_bits` and `atan2_bits`.

use vstd::prelude::*;
use crate::angle::{wrap_spec, wrapped, PI_B, TWO_PI_B};

verus! {

/// The scale of a forward-axis component: a heading's direction vector
/// has coordinates in `[-DIR_SCALE, DIR_SCALE]`, `DIR_SCALE` standing for
/// a component of length one.
pub const DIR_SCALE: i64 = 65536;

/// Largest coordinate handed to the arc-tangent (`2^36` bits, the value
/// `2^20` in `I48F16`): keeps the quotient inside the fixed-point range.
pub const MAX_ATAN_IN: i64 = 0x10_0000_0000;

/// What `cordic::sin` returns for an angle of `a` units, in `I48F16` bits.
pub uninterp spec fn sin_bits(a: int) -> int;

/// What `cordic::cos` returns for an angle of `a` units, in `I48F16` bits.
pub uninterp spec fn cos_bits(a: int) -> int;

/// What `cordic::atan2` returns, in angle units, for the point `(x, y)`
/// given in `I48F16` bits.
pub uninterp spec fn atan2_bits(y: int, x: int) -> int;

/// Relies on `cordic::sin` over `fixed::types::I48F16`: the result depends
/// on the angle bits alone. The bound on `a` keeps the crate's range
/// reduction to a handful of iterations.
#[verifier::external_body]
fn cordic_sin(a: i64) -> (r: i64)
    requires
        -TWO_PI_B <= a <= TWO_PI_B,
    ensures
        r == sin_bits(a as int),
{
    cordic::sin(fixed::types::I48F16::from_bits(a)).to_bits()
}

/// Relies on `cordic::cos` over `fixed::types::I48F16`: the result depends
/// on the angle bits alone.
#[verifier::external_body]
fn cordic_cos(a: i64) -> (r: i64)
    requires
        -TWO_PI_B <= a <= TWO_PI_B,
    ensures
        r == cos_bits(a as int),
{
    cordic::cos(fixed::types::I48F16::from_bits(a)).to_bits()
}

/// Relies on `cordic::atan2` over `fixed::types::I48F16`: the result
/// depends on the two coordinates alone; zero coordinates are answered
/// without dividing, and the bound on the inputs keeps the quotient `y/x`
/// inside the fixed-point range. The axis cases are answered exactly by
/// early returns: zero, the crate's `PI` constant (`PI_B` bits, the
/// master constant truncated to sixteen fractional bits), or half of it.
#[verifier::external_body]
fn cordic_atan2(y: i64, x: i64) -> (r: i64)
    requires
        -MAX_ATAN_IN <= y <= MAX_ATAN_IN,
        -MAX_ATAN_IN <= x <= MAX_ATAN_IN,
    ensures
        r == atan2_bits(y as int, x as int),
        x == 0 && y >= 0 ==> r == PI_B / 2,
        x == 0 && y < 0 ==> r == -(PI_B / 2),
        y == 0 && x > 0 ==> r == 0,
        y == 0 && x < 0 ==> r == PI_B,
{
    cordic::atan2(fixed::types::I48F16::from_bits(y), fixed::types::I48F16::from_bits(x)).to_bits()
}

/// A sine or cosine clamped into `[-DIR_SCALE, DIR_SCALE]`: the CORDIC
/// result may overshoot a unit component by a few bits of gain error.
pub open spec fn clamp_dir(v: int) -> int {
    if v > DIR_SCALE {
        DIR_SCALE as int
    } else if v < -DIR_SCALE {
        -DIR_SCALE as int
    } else {
        v
    }
}

/// The X component of the forward axis of heading `h`: minus its sine.
pub open spec fn dir_x(h: int) -> int {
    -clamp_dir(sin_bits(h))
}

/// The Y component of the forward axis of heading `h`: its cosine.
pub open spec fn dir_y(h: int) -> int {
    clamp_dir(cos_bits(h))
}

/// The forward axis of a wrapped heading, as a fixed-point vector of
/// scale `DIR_SCALE`. A heading of zero faces the positive Y axis;
/// headings grow counterclockwise.
pub fn heading_dir(h: i64) -> (d: (i64, i64))
    requires
        wrapped(h as int),
    ensures
        d.0 == dir_x(h as int),
        d.1 == dir_y(h as int),
        -DIR_SCALE <= d.0 <= DIR_SCALE,
        -DIR_SCALE <= d.1 <= DIR_SCALE,
{
    let s = cordic_sin(h);
    let c = cordic_cos(h);
    let sx = if s > DIR_SCALE {
        DIR_SCALE
    } else if s < -DIR_SCALE {
        -DIR_SCALE
    } else {
        s
    };
    let cy = if c > DIR_SCALE {
        DIR_SCALE
    } else if c < -DIR_SCALE {
        -DIR_SCALE
    } else {
        c
    };
    (-sx, cy)
}

/// The sine of a wrapped angle, clamped to a unit component: the
/// vertical offset scale of the oscillation effect.
pub fn unit_sin(a: i64) -> (s: i64)
    requires
        wrapped(a as int),
    ensures
        s == clamp_dir(sin_bits(a as int)),
        -DIR_SCALE <= s <= DIR_SCALE,
{
    let v = cordic_sin(a);
    if v > DIR_SCALE {
        DIR_SCALE
    } else if v < -DIR_SCALE {
        -DIR_SCALE
    } else {
        v
    }
}

/// Divisor that reduces a relative position into the arc-tangent's input
/// range (`2^22`).
pub const ATAN_RED: i64 = 0x40_0000;

/// Division by `ATAN_RED` rounded toward zero, as the reduction performs it.
pub open spec fn red(v: int) -> int {
    if v >= 0 {
        v / (ATAN_RED as int)
    } else {
        -((-v) / (ATAN_RED as int))
    }
}

/// A raw arc-tangent clamped into one turn before wrapping.
pub open spec fn clamp_turn(v: int) -> int {
    if v > TWO_PI_B {
        TWO_PI_B as int
    } else if v < -TWO_PI_B {
        -TWO_PI_B as int
    } else {
        v
    }
}

/// The heading whose forward axis points from the origin along `(dx, dy)`:
/// the arc-tangent of the reduced coordinates, wrapped. The coordinate
/// swap and sign turn the crate's X-axis convention into this crate's
/// Y-forward convention.
pub open spec fn target_angle_spec(dx: int, dy: int) -> int {
    wrap_spec(clamp_turn(atan2_bits(-red(dx), red(dy))))
}

/// Largest relative coordinate `target_angle` accepts; `MAX_REL / ATAN_RED`
/// stays within the arc-tangent's input range.
pub const MAX_REL: i64 = 0x400_0000_0000_0000;

/// Divides a coordinate by `ATAN_RED`, rounding toward zero.
fn reduce(v: i64) -> (q: i64)
    requires
        -MAX_REL <= v <= MAX_REL,
    ensures
        q == red(v as int),
        -MAX_ATAN_IN <= q <= MAX_ATAN_IN,
{
    if v >= 0 {
        ((v as u64) / (ATAN_RED as u64)) as i64
    } else {
        -((((-v) as u64) / (ATAN_RED as u64)) as i64)
    }
}

/// The direction from the origin to `(dx, dy)`, as a wrapped heading.
/// On the vertical axis the answer is exact, once the point is far
/// enough from the origin for the reduction to see it: straight ahead
/// is heading zero, straight behind is the half turn.
pub fn target_angle(dx: i64, dy: i64) -> (t: i64)
    requires
        -MAX_REL <= dx <= MAX_REL,
        -MAX_REL <= dy <= MAX_REL,
    ensures
        t == target_angle_spec(dx as int, dy as int),
        wrapped(t as int),
        dx == 0 && dy >= ATAN_RED ==> t == 0,
        dx == 0 && dy <= -ATAN_RED ==> t == -PI_B,
{
    let ya = reduce(dx);
    let xa = reduce(dy);
    proof {
        if dy >= ATAN_RED {
            vstd::arithmetic::div_mod::lemma_div_non_zero(dy as int, ATAN_RED as int);
        }
        if dy <= -ATAN_RED {
            vstd::arithmetic::div_mod::lemma_div_non_zero(-dy as int, ATAN_RED as int);
        }
        if dx == 0 {
            crate::angle::lemma_wrap_identity(0);
            crate::angle::lemma_wrap_add_turn(-PI_B as int);
            crate::angle::lemma_wrap_identity(-PI_B as int);
        }
    }
    let raw = cordic_atan2(-ya, xa);
    let cl = if raw > TWO_PI_B {
        TWO_PI_B
    } else if raw < -TWO_PI_B {
        -TWO_PI_B
    } else {
        raw
    };
    crate::angle::wrap_angle(cl)
}

} // verus!
