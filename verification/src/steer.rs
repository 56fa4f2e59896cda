//! The steering solver.
//!
//! `angle_from_y` computes the largest rotation an agent may need — the
//! angular distance between its forward axis and the direction to a
//! target — together with the rotational sense of the shorter path.
//! `apply_steering_step` then rotates by the turn rate over the elapsed
//! tick, clamped to that largest rotation, so one step never overshoots
//! direct alignment and never exceeds the field's turn rate.

use vstd::prelude::*;
use crate::angle::{
    angle_dist, lemma_angle_dist_sym, lemma_wrap_identity, lemma_wrap_range,
    lemma_wrap_shift_turns, lemma_wrap_sub_wrapped, wrap_spec, wrapped, PI_B, TWO_PI_B,
};
use crate::trig::{target_angle_spec, MAX_REL};

verus! {

/// Largest turn-rate magnitude a field may carry, in angle units per
/// second (about sixteen radians per second).
pub const RATE_LIMIT: i64 = 0x10_0000;

/// Largest tick duration, in microseconds: one second.
pub const DT_LIMIT: i64 = 1_000_000;

/// Microseconds in a second.
pub const MICROS: i64 = 1_000_000;

/// The largest rotation a turn rate allows in one tick: the rate times
/// the tick duration, in angle units.
pub open spec fn max_turn(mag: int, dt: int) -> int {
    mag * dt / (MICROS as int)
}

/// The smaller of two values.
pub open spec fn min_val(a: int, b: int) -> int {
    if a < b {
        a
    } else {
        b
    }
}

/// One rotation step: turn from `heading` by the allowed rotation,
/// clamped to `max_angle`, in the sense of `sign`.
pub open spec fn apply_step_spec(heading: int, max_angle: int, sign: int, mag: int, dt: int) -> int {
    wrap_spec(heading + sign * min_val(max_turn(mag, dt), max_angle))
}

/// One full steering step toward a target heading: rotate along the
/// shorter path, by at most the angular distance to the target.
pub open spec fn steer_step_spec(heading: int, target: int, mag: int, dt: int) -> int {
    let d = wrap_spec(target - heading);
    if d >= 0 {
        apply_step_spec(heading, d, 1, mag, dt)
    } else {
        apply_step_spec(heading, -d, -1, mag, dt)
    }
}

/// One full steering step toward the point at relative position
/// `(dx, dy)`.
pub open spec fn steer_toward_spec(heading: int, dx: int, dy: int, mag: int, dt: int) -> int {
    steer_step_spec(heading, target_angle_spec(dx, dy), mag, dt)
}

/// The largest rotation needed to face the target at relative position
/// `(dx, dy)` — the angular distance between the forward axis and the
/// direction to the target — and the sense of the shorter path (`1` for
/// counterclockwise, `-1` for clockwise).
///
/// A target coincident with the agent has no direction: callers keep
/// `(dx, dy)` away from zero by checking the distance first.
pub fn angle_from_y(heading: i64, dx: i64, dy: i64) -> (res: (i64, i64))
    requires
        wrapped(heading as int),
        -MAX_REL <= dx <= MAX_REL,
        -MAX_REL <= dy <= MAX_REL,
        dx != 0 || dy != 0,
    ensures
        res.0 == angle_dist(target_angle_spec(dx as int, dy as int), heading as int),
        0 <= res.0 <= PI_B,
        res.1 == 1 || res.1 == -1,
        res.1 == (if wrap_spec(target_angle_spec(dx as int, dy as int) - heading) >= 0 {
            1int
        } else {
            -1int
        }),
{
    let t = crate::trig::target_angle(dx, dy);
    let d = crate::angle::wrap_angle(t - heading);
    if d >= 0 {
        (d, 1)
    } else {
        (-d, -1)
    }
}

/// Rotates `heading` by the turn allowed in one tick, clamped to
/// `max_angle`, in the sense of `sign`. The rotation applied never
/// exceeds `mag * dt` (scaled to the tick) nor `max_angle`.
pub fn apply_steering_step(heading: i64, max_angle: i64, sign: i64, mag: i64, dt: i64) -> (h2: i64)
    requires
        wrapped(heading as int),
        0 <= max_angle <= PI_B,
        sign == 1 || sign == -1,
        0 <= mag <= RATE_LIMIT,
        0 <= dt <= DT_LIMIT,
    ensures
        h2 == apply_step_spec(heading as int, max_angle as int, sign as int, mag as int, dt as int),
        wrapped(h2 as int),
{
    proof {
        assert(mag * dt <= RATE_LIMIT * DT_LIMIT) by (nonlinear_arith)
            requires
                0 <= mag <= RATE_LIMIT,
                0 <= dt <= DT_LIMIT,
        ;
    }
    let prod = (mag as u64) * (dt as u64);
    let mtu = prod / (MICROS as u64);
    let step = if mtu < (max_angle as u64) {
        mtu as i64
    } else {
        max_angle
    };
    crate::angle::wrap_angle(heading + sign * step)
}

/// Law: one steering step never increases the angular distance to the
/// target heading, and the rotation it applies never exceeds the turn
/// rate times the tick duration.
pub proof fn lemma_steering_step_bounds(heading: int, target: int, mag: int, dt: int)
    requires
        wrapped(heading),
        wrapped(target),
        0 <= mag,
        0 <= dt,
    ensures
        angle_dist(steer_step_spec(heading, target, mag, dt), target) <= angle_dist(
            target,
            heading,
        ),
        angle_dist(steer_step_spec(heading, target, mag, dt), heading) <= max_turn(mag, dt),
{
    let m = TWO_PI_B as int;
    let d = wrap_spec(target - heading);
    lemma_wrap_range(target - heading);
    vstd::arithmetic::div_mod::lemma_div_pos_is_pos(mag * dt, MICROS as int);
    vstd::arithmetic::mul::lemma_mul_nonnegative(mag, dt);
    let mt = max_turn(mag, dt);
    let s = if d >= 0 {
        min_val(mt, d)
    } else {
        min_val(mt, -d)
    };
    let moved = if d >= 0 {
        heading + s
    } else {
        heading - s
    };
    let h2 = wrap_spec(moved);
    assert(h2 == steer_step_spec(heading, target, mag, dt));
    // The wrapped difference to the target shrinks by exactly the step.
    lemma_wrap_sub_wrapped(target, moved);
    assert(angle_dist(h2, target) == angle_dist(target, h2)) by {
        lemma_angle_dist_sym(h2, target);
    }
    assert(wrap_spec(target - moved) == wrap_spec((target - heading) - (moved - heading)));
    let q = (target - heading + PI_B) / m;
    crate::angle::lemma_wrap_decompose(target - heading);
    assert(target - heading == d + m * q);
    if d >= 0 {
        assert(target - moved == (d - s) + m * q);
        lemma_wrap_shift_turns(d - s, q);
        lemma_wrap_identity(d - s);
        assert(wrap_spec(target - moved) == d - s);
    } else {
        assert(target - moved == (d + s) + m * q);
        lemma_wrap_shift_turns(d + s, q);
        lemma_wrap_identity(d + s);
        assert(wrap_spec(target - moved) == d + s);
    }
    // The rotation applied is exactly the step.
    lemma_angle_dist_sym(h2, heading);
    lemma_wrap_sub_wrapped(heading, moved);
    if d >= 0 {
        assert(heading - moved == -s);
        lemma_wrap_identity(-s);
        assert(angle_dist(heading, h2) == s);
    } else {
        assert(heading - moved == s);
        if s == PI_B {
            crate::angle::lemma_wrap_add_turn(s - m);
            lemma_wrap_identity(s - m);
            assert(wrap_spec(s as int) == s - m);
            assert(angle_dist(heading, h2) == m - s);
            assert(m - s == s);
        } else {
            lemma_wrap_identity(s as int);
            assert(angle_dist(heading, h2) == s);
        }
    }
}

} // verus!
