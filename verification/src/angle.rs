//! Angles as fixed-point integers.
//!
//! An angle is a number of "angle units", each `2^-16` radians, measured
//! counterclockwise from the positive Y axis (the forward axis of an
//! unrotated agent). A full turn is `TWO_PI_B` units; a wrapped angle lies
//! in the half-open interval `[-PI_B, PI_B)`.

use vstd::prelude::*;
use vstd::arithmetic::div_mod::{
    lemma_fundamental_div_mod, lemma_mod_add_multiples_vanish,
    lemma_mod_division_less_than_divisor, lemma_mod_multiples_vanish, lemma_small_mod,
};

verus! {

/// One half turn, in angle units (`pi * 2^16`, rounded down).
pub const PI_B: i64 = 205887;

/// One full turn, in angle units. The model treats two angles that differ
/// by `TWO_PI_B` as the same direction.
pub const TWO_PI_B: i64 = 2 * PI_B;

/// Holds when `a` is a wrapped angle.
pub open spec fn wrapped(a: int) -> bool {
    -PI_B <= a < PI_B
}

/// The wrapped representative of `a`: the unique angle in `[-PI_B, PI_B)`
/// that differs from `a` by a whole number of turns.
pub open spec fn wrap_spec(a: int) -> int {
    (a + PI_B) % (TWO_PI_B as int) - PI_B
}

/// The angular distance between `a` and `b`: the absolute value of the
/// wrapped difference, in `[0, PI_B]`.
pub open spec fn angle_dist(a: int, b: int) -> int {
    let d = wrap_spec(a - b);
    if d < 0 {
        -d
    } else {
        d
    }
}

/// The wrapped representative is always a wrapped angle.
pub proof fn lemma_wrap_range(a: int)
    ensures
        wrapped(wrap_spec(a)),
{
    lemma_mod_division_less_than_divisor(a + PI_B, TWO_PI_B as int);
}

/// Wrapping leaves an already wrapped angle unchanged.
pub proof fn lemma_wrap_identity(a: int)
    requires
        wrapped(a),
    ensures
        wrap_spec(a) == a,
{
    lemma_small_mod((a + PI_B) as nat, TWO_PI_B as nat);
}

/// Adding a whole turn does not change the wrapped representative.
pub proof fn lemma_wrap_add_turn(a: int)
    ensures
        wrap_spec(a + TWO_PI_B) == wrap_spec(a),
{
    lemma_mod_add_multiples_vanish(a + PI_B, TWO_PI_B as int);
    assert(a + TWO_PI_B + PI_B == TWO_PI_B + (a + PI_B));
}

/// Subtracting a whole turn does not change the wrapped representative.
pub proof fn lemma_wrap_sub_turn(a: int)
    ensures
        wrap_spec(a - TWO_PI_B) == wrap_spec(a),
{
    lemma_wrap_add_turn(a - TWO_PI_B);
}

/// Adding any whole number of turns does not change the wrapped
/// representative.
pub proof fn lemma_wrap_shift_turns(x: int, k: int)
    ensures
        wrap_spec(x + TWO_PI_B * k) == wrap_spec(x),
{
    let m = TWO_PI_B as int;
    lemma_mod_multiples_vanish(k, x + PI_B, m);
    assert(x + TWO_PI_B * k + PI_B == m * k + (x + PI_B));
}

/// An angle and its wrapped representative differ by a whole number of
/// turns: the quotient of the shifted angle by a full turn.
pub proof fn lemma_wrap_decompose(x: int)
    ensures
        wrap_spec(x) == x - TWO_PI_B * ((x + PI_B) / (TWO_PI_B as int)),
{
    let m = TWO_PI_B as int;
    lemma_fundamental_div_mod(x + PI_B, m);
}

/// Wrapping one operand of a difference first does not change the result.
pub proof fn lemma_wrap_sub_wrapped(a: int, b: int)
    ensures
        wrap_spec(a - wrap_spec(b)) == wrap_spec(a - b),
{
    let m = TWO_PI_B as int;
    let q = (b + PI_B) / m;
    lemma_wrap_decompose(b);
    assert(a - wrap_spec(b) == (a - b) + TWO_PI_B * q);
    lemma_wrap_shift_turns(a - b, q);
}

/// Wrapping the minuend of a difference first does not change the result.
pub proof fn lemma_wrap_sub_wrapped_left(a: int, b: int)
    ensures
        wrap_spec(wrap_spec(b) - a) == wrap_spec(b - a),
{
    let m = TWO_PI_B as int;
    let q = (b + PI_B) / m;
    lemma_wrap_decompose(b);
    assert(wrap_spec(b) - a == (b - a) + TWO_PI_B * (-q)) by {
        assert(wrap_spec(b) == b - TWO_PI_B * q);
    }
    lemma_wrap_shift_turns(b - a, -q);
    assert(TWO_PI_B * (-q) == -(TWO_PI_B * q)) by (nonlinear_arith);
}

/// Wrapping the negation mirrors the wrapped value, except at the half
/// turn, which is its own opposite direction.
pub proof fn lemma_wrap_neg(x: int)
    ensures
        wrap_spec(-x) == (if wrap_spec(x) == -PI_B {
            -PI_B as int
        } else {
            -wrap_spec(x)
        }),
{
    let m = TWO_PI_B as int;
    let q = (x + PI_B) / m;
    let r = (x + PI_B) % m;
    lemma_fundamental_div_mod(x + PI_B, m);
    lemma_mod_division_less_than_divisor(x + PI_B, m);
    if r == 0 {
        assert(-x + PI_B == m * (1 - q));
        lemma_mod_multiples_vanish(1 - q, 0, m);
        lemma_small_mod(0nat, m as nat);
        assert((-x + PI_B) % m == 0);
    } else {
        assert(-x + PI_B == m * (-q) + (m - r));
        lemma_mod_multiples_vanish(-q, m - r, m);
        lemma_small_mod((m - r) as nat, m as nat);
        assert((-x + PI_B) % m == m - r);
    }
}

/// The angular distance is symmetric.
pub proof fn lemma_angle_dist_sym(a: int, b: int)
    ensures
        angle_dist(a, b) == angle_dist(b, a),
{
    lemma_wrap_neg(a - b);
    assert(b - a == -(a - b));
    lemma_wrap_range(a - b);
}

/// An angle and itself are at angular distance zero.
pub proof fn lemma_angle_dist_self(a: int)
    requires
        wrapped(a),
    ensures
        angle_dist(a, a) == 0,
{
    lemma_wrap_identity(0);
}

/// Reduces an angle to its wrapped representative.
///
/// Callers stay within three half-turns of the wrapped range, so at most
/// two corrective turns are needed.
pub fn wrap_angle(a: i64) -> (r: i64)
    requires
        -3 * PI_B <= a <= 3 * PI_B,
    ensures
        r == wrap_spec(a as int),
        wrapped(r as int),
{
    let mut x: i64 = a;
    proof {
        lemma_wrap_range(a as int);
    }
    if x >= PI_B {
        x = x - TWO_PI_B;
        proof {
            lemma_wrap_add_turn(x as int);
        }
    }
    if x >= PI_B {
        x = x - TWO_PI_B;
        proof {
            lemma_wrap_add_turn(x as int);
        }
    }
    if x < -PI_B {
        x = x + TWO_PI_B;
        proof {
            lemma_wrap_sub_turn(x as int);
        }
    }
    proof {
        lemma_wrap_identity(x as int);
    }
    x
}

} // verus!
