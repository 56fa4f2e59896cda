//! The kinematics integrator and the oscillation effect.
//!
//! Each tick every agent advances along its forward axis by its speed
//! times the elapsed time. The fine position scale (`PX` units per
//! pixel) makes one step an exact integer product: no rounding, so
//! straight-line motion integrates exactly over any number of ticks.

use vstd::prelude::*;
use crate::angle::{wrap_spec, TWO_PI_B};
use crate::entities::{Collector, Electron, Emitter, Influencer, World, SPEED_LIMIT};
use crate::geom::POS_LIMIT;
use crate::steer::{DT_LIMIT, MICROS};
use crate::trig::{clamp_dir, dir_x, dir_y, heading_dir, sin_bits, unit_sin, DIR_SCALE};

verus! {

/// A coordinate clamped into the world bound; motion saturates there
/// instead of overflowing.
pub open spec fn clamp_pos(v: int) -> int {
    if v > POS_LIMIT {
        POS_LIMIT as int
    } else if v < -POS_LIMIT {
        -POS_LIMIT as int
    } else {
        v
    }
}

/// One kinematics step: the position advances by the forward axis times
/// speed times the tick duration; orientation, speed and the capture
/// mark are untouched.
pub open spec fn moved_spec(e: Electron, dt: int) -> Electron {
    Electron {
        x: clamp_pos(e.x + dir_x(e.heading as int) * e.speed * dt) as i64,
        y: clamp_pos(e.y + dir_y(e.heading as int) * e.speed * dt) as i64,
        ..e
    }
}

/// Advances one coordinate, computing the exact product and saturating
/// at the world bound.
fn step_coord(v: i64, d: i64, speed: i64, dt: i64) -> (r: i64)
    requires
        -POS_LIMIT <= v <= POS_LIMIT,
        -DIR_SCALE <= d <= DIR_SCALE,
        0 <= speed <= SPEED_LIMIT,
        0 <= dt <= DT_LIMIT,
    ensures
        r == clamp_pos(v + d * speed * dt),
{
    proof {
        assert(-0x10_0000_0000 <= d * speed <= 0x10_0000_0000) by (nonlinear_arith)
            requires
                -0x1_0000 <= d <= 0x1_0000,
                0 <= speed <= 0x10_000,
        ;
        assert(-0x4_0000_0000_0000_0000 <= (d * speed) * dt <= 0x4_0000_0000_0000_0000)
            by (nonlinear_arith)
            requires
                -0x10_0000_0000 <= d * speed <= 0x10_0000_0000,
                0 <= dt <= 0x10_0000,
        ;
    }
    let delta = ((d as i128) * (speed as i128)) * (dt as i128);
    let nv = (v as i128) + delta;
    if nv > (POS_LIMIT as i128) {
        POS_LIMIT
    } else if nv < -(POS_LIMIT as i128) {
        -POS_LIMIT
    } else {
        nv as i64
    }
}

/// Advances every agent one kinematics step. Nothing else in the world
/// changes.
pub fn move_electrons(w: &mut World, dt: i64)
    requires
        old(w).wf(),
        0 <= dt <= DT_LIMIT,
    ensures
        final(w).wf(),
        final(w).electrons@.len() == old(w).electrons@.len(),
        forall|i: int|
            0 <= i < old(w).electrons@.len() ==> final(w).electrons@[i] == moved_spec(
                old(w).electrons@[i],
                dt as int,
            ),
        final(w).emitters == old(w).emitters,
        final(w).influencers == old(w).influencers,
        final(w).hoovers == old(w).hoovers,
        final(w).collectors == old(w).collectors,
        final(w).score == old(w).score,
        final(w).level == old(w).level,
        final(w).victory_shown == old(w).victory_shown,
        final(w).max_electrons == old(w).max_electrons,
        final(w).exact_thresholds == old(w).exact_thresholds,
{
    let n = w.electrons.len();
    let mut out: Vec<Electron> = Vec::new();
    let mut i: usize = 0;
    while i < n
        invariant
            *w == *old(w),
            old(w).wf(),
            0 <= dt <= DT_LIMIT,
            n == w.electrons@.len(),
            i <= n,
            out@.len() == i,
            forall|j: int|
                0 <= j < i ==> out@[j] == moved_spec(old(w).electrons@[j], dt as int),
        decreases n - i,
    {
        let e = w.electrons[i];
        assert(e.wf());
        let d = heading_dir(e.heading);
        let nx = step_coord(e.x, d.0, e.speed, dt);
        let ny = step_coord(e.y, d.1, e.speed, dt);
        out.push(Electron { x: nx, y: ny, ..e });
        i = i + 1;
    }
    w.electrons = out;
    proof {
        assert forall|k: int| 0 <= k < w.electrons@.len() implies (
        #[trigger] w.electrons@[k]).wf() by {
            assert(w.electrons@[k] == moved_spec(old(w).electrons@[k], dt as int));
            assert(old(w).electrons@[k].wf());
        }
    }
}

/// The sum of a sequence of tick durations.
pub open spec fn sum_of(dts: Seq<int>) -> int
    decreases dts.len(),
{
    if dts.len() == 0 {
        0
    } else {
        sum_of(dts.drop_last()) + dts.last()
    }
}

/// The agent after one kinematics step per tick of `dts`, with no
/// steering in between.
pub open spec fn run_straight(e: Electron, dts: Seq<int>) -> Electron
    decreases dts.len(),
{
    if dts.len() == 0 {
        e
    } else {
        moved_spec(run_straight(e, dts.drop_last()), dts.last())
    }
}

/// The absolute value.
pub open spec fn abs_val(v: int) -> int {
    if v < 0 {
        -v
    } else {
        v
    }
}

/// Every tick duration of the run is a valid one.
pub open spec fn valid_dts(dts: Seq<int>) -> bool {
    forall|i: int| 0 <= i < dts.len() ==> 0 <= #[trigger] dts[i] <= DT_LIMIT
}

/// The sum of valid tick durations is non-negative.
pub proof fn lemma_sum_nonneg(dts: Seq<int>)
    requires
        valid_dts(dts),
    ensures
        sum_of(dts) >= 0,
    decreases dts.len(),
{
    if dts.len() > 0 {
        assert(valid_dts(dts.drop_last()));
        lemma_sum_nonneg(dts.drop_last());
        assert(dts.last() == dts[dts.len() - 1] >= 0);
    }
}

/// Law: kinematics integration is exact for zero-rotation constant-speed
/// motion. Over any run of ticks with no steering, the final position is
/// the initial position plus the forward axis times the speed times the
/// sum of the tick durations — provided the whole run stays inside the
/// world bound, so that no step saturates. The exactness is of the
/// modeled forward axis `(dir_x, dir_y)`: its components are the clamped
/// CORDIC sine and cosine of the heading, within a few `2^-16` bits of a
/// unit vector.
pub proof fn lemma_kinematics_exact(e: Electron, dts: Seq<int>)
    requires
        e.wf(),
        valid_dts(dts),
        abs_val(e.x as int) + DIR_SCALE * e.speed * sum_of(dts) <= POS_LIMIT,
        abs_val(e.y as int) + DIR_SCALE * e.speed * sum_of(dts) <= POS_LIMIT,
    ensures
        run_straight(e, dts).x == e.x + dir_x(e.heading as int) * e.speed * sum_of(dts),
        run_straight(e, dts).y == e.y + dir_y(e.heading as int) * e.speed * sum_of(dts),
        run_straight(e, dts).heading == e.heading,
        run_straight(e, dts).speed == e.speed,
        run_straight(e, dts).captured == e.captured,
    decreases dts.len(),
{
    let dx = dir_x(e.heading as int);
    let dy = dir_y(e.heading as int);
    if dts.len() == 0 {
        assert(dx * e.speed * 0 == 0) by (nonlinear_arith);
        assert(dy * e.speed * 0 == 0) by (nonlinear_arith);
        assert(DIR_SCALE * e.speed * 0 == 0) by (nonlinear_arith);
    } else {
        let prefix = dts.drop_last();
        let last = dts.last();
        assert(valid_dts(prefix));
        assert(0 <= last <= DT_LIMIT) by {
            assert(dts[dts.len() - 1] == last);
        }
        lemma_sum_nonneg(prefix);
        let sp = sum_of(prefix);
        let st = sum_of(dts);
        assert(st == sp + last);
        assert(DIR_SCALE * e.speed * sp <= DIR_SCALE * e.speed * st) by (nonlinear_arith)
            requires
                0 <= e.speed,
                0 <= sp,
                0 <= last,
                st == sp + last,
                DIR_SCALE == 0x1_0000,
        ;
        lemma_kinematics_exact(e, prefix);
        let p = run_straight(e, prefix);
        assert(abs_val(p.x + dx * e.speed * last) <= abs_val(e.x as int) + DIR_SCALE * e.speed * st
            && dx * e.speed * sp + dx * e.speed * last == dx * e.speed * st)
            by (nonlinear_arith)
            requires
                p.x == e.x + dx * e.speed * sp,
                -DIR_SCALE <= dx <= DIR_SCALE,
                0 <= e.speed,
                0 <= sp,
                0 <= last,
                st == sp + last,
                DIR_SCALE == 0x1_0000,
        ;
        assert(abs_val(p.y + dy * e.speed * last) <= abs_val(e.y as int) + DIR_SCALE * e.speed * st
            && dy * e.speed * sp + dy * e.speed * last == dy * e.speed * st)
            by (nonlinear_arith)
            requires
                p.y == e.y + dy * e.speed * sp,
                -DIR_SCALE <= dy <= DIR_SCALE,
                0 <= e.speed,
                0 <= sp,
                0 <= last,
                st == sp + last,
                DIR_SCALE == 0x1_0000,
        ;
        assert(run_straight(e, dts) == moved_spec(p, last));
    }
}

/// Largest elapsed time the oscillation effect accepts, in microseconds.
pub const ELAPSED_LIMIT: i64 = 100_000_000_000;

/// The phase of the shared oscillation at elapsed time `t` microseconds:
/// the elapsed seconds as an angle, wrapped.
pub open spec fn wobble_phase(t: int) -> int {
    wrap_spec((t * DIR_SCALE / (MICROS as int)) % (TWO_PI_B as int))
}

/// The vertical offset of the oscillation at elapsed time `t`: three
/// pixels times the sine of the phase.
pub open spec fn wobble_offset(t: int) -> int {
    clamp_dir(sin_bits(wobble_phase(t))) * 3_000_000
}

/// Computes the oscillation offset for an elapsed time.
fn compute_wobble(elapsed_us: i64) -> (off: i64)
    requires
        0 <= elapsed_us <= ELAPSED_LIMIT,
    ensures
        off == wobble_offset(elapsed_us as int),
        -POS_LIMIT <= off <= POS_LIMIT,
{
    proof {
        assert(elapsed_us * DIR_SCALE <= 0x1000_0000_0000_0000) by (nonlinear_arith)
            requires
                0 <= elapsed_us <= 100_000_000_000,
                DIR_SCALE == 0x1_0000,
        ;
    }
    let scaled = ((elapsed_us as u64) * (DIR_SCALE as u64)) / (MICROS as u64);
    let pm = (scaled % (TWO_PI_B as u64)) as i64;
    let phase = crate::angle::wrap_angle(pm);
    let s = unit_sin(phase);
    s * 3_000_000
}

/// Applies the oscillation to every marked entity: emitters, influence
/// fields and collectors with the wobble mark shift vertically by the
/// shared offset. Agents, capture fields and all other state are
/// untouched.
pub fn wobble_wobblers(w: &mut World, elapsed_us: i64)
    requires
        old(w).wf(),
        0 <= elapsed_us <= ELAPSED_LIMIT,
    ensures
        final(w).wf(),
        final(w).emitters@.len() == old(w).emitters@.len(),
        forall|i: int|
            0 <= i < old(w).emitters@.len() ==> final(w).emitters@[i] == (
            if old(w).emitters@[i].wobble {
                Emitter {
                    y: clamp_pos(old(w).emitters@[i].y + wobble_offset(elapsed_us as int)) as i64,
                    ..old(w).emitters@[i]
                }
            } else {
                old(w).emitters@[i]
            }),
        final(w).influencers@.len() == old(w).influencers@.len(),
        forall|i: int|
            0 <= i < old(w).influencers@.len() ==> final(w).influencers@[i] == (
            if old(w).influencers@[i].wobble {
                Influencer {
                    y: clamp_pos(
                        old(w).influencers@[i].y + wobble_offset(elapsed_us as int),
                    ) as i64,
                    ..old(w).influencers@[i]
                }
            } else {
                old(w).influencers@[i]
            }),
        final(w).collectors@.len() == old(w).collectors@.len(),
        forall|i: int|
            0 <= i < old(w).collectors@.len() ==> final(w).collectors@[i] == (
            if old(w).collectors@[i].wobble {
                Collector {
                    y: clamp_pos(old(w).collectors@[i].y + wobble_offset(elapsed_us as int)) as i64,
                    ..old(w).collectors@[i]
                }
            } else {
                old(w).collectors@[i]
            }),
        final(w).electrons == old(w).electrons,
        final(w).hoovers == old(w).hoovers,
        final(w).score == old(w).score,
        final(w).level == old(w).level,
        final(w).victory_shown == old(w).victory_shown,
        final(w).max_electrons == old(w).max_electrons,
        final(w).exact_thresholds == old(w).exact_thresholds,
{
    let off = compute_wobble(elapsed_us);
    let ghost offi = wobble_offset(elapsed_us as int);

    let n_e = w.emitters.len();
    let mut out_e: Vec<Emitter> = Vec::new();
    let mut i: usize = 0;
    while i < n_e
        invariant
            old(w).wf(),
            w.emitters == old(w).emitters,
            n_e == w.emitters@.len(),
            i <= n_e,
            out_e@.len() == i,
            -POS_LIMIT <= off <= POS_LIMIT,
            off == offi,
            forall|j: int|
                0 <= j < i ==> out_e@[j] == (if old(w).emitters@[j].wobble {
                    Emitter { y: clamp_pos(old(w).emitters@[j].y + offi) as i64, ..old(
                        w,
                    ).emitters@[j] }
                } else {
                    old(w).emitters@[j]
                }),
        decreases n_e - i,
    {
        let e = w.emitters[i];
        assert(e.wf());
        if e.wobble {
            let ny = add_clamped(e.y, off);
            out_e.push(Emitter { y: ny, ..e });
        } else {
            out_e.push(e);
        }
        i = i + 1;
    }

    let n_f = w.influencers.len();
    let mut out_f: Vec<Influencer> = Vec::new();
    let mut k: usize = 0;
    while k < n_f
        invariant
            old(w).wf(),
            w.influencers == old(w).influencers,
            n_f == w.influencers@.len(),
            k <= n_f,
            out_f@.len() == k,
            -POS_LIMIT <= off <= POS_LIMIT,
            off == offi,
            forall|j: int|
                0 <= j < k ==> out_f@[j] == (if old(w).influencers@[j].wobble {
                    Influencer { y: clamp_pos(old(w).influencers@[j].y + offi) as i64, ..old(
                        w,
                    ).influencers@[j] }
                } else {
                    old(w).influencers@[j]
                }),
        decreases n_f - k,
    {
        let f = w.influencers[k];
        assert(f.wf());
        if f.wobble {
            let ny = add_clamped(f.y, off);
            out_f.push(Influencer { y: ny, ..f });
        } else {
            out_f.push(f);
        }
        k = k + 1;
    }

    let n_c = w.collectors.len();
    let mut out_c: Vec<Collector> = Vec::new();
    let mut m: usize = 0;
    while m < n_c
        invariant
            old(w).wf(),
            w.collectors == old(w).collectors,
            n_c == w.collectors@.len(),
            m <= n_c,
            out_c@.len() == m,
            -POS_LIMIT <= off <= POS_LIMIT,
            off == offi,
            forall|j: int|
                0 <= j < m ==> out_c@[j] == (if old(w).collectors@[j].wobble {
                    Collector { y: clamp_pos(old(w).collectors@[j].y + offi) as i64, ..old(
                        w,
                    ).collectors@[j] }
                } else {
                    old(w).collectors@[j]
                }),
        decreases n_c - m,
    {
        let c = w.collectors[m];
        assert(c.wf());
        if c.wobble {
            let ny = add_clamped(c.y, off);
            out_c.push(Collector { y: ny, ..c });
        } else {
            out_c.push(c);
        }
        m = m + 1;
    }

    w.emitters = out_e;
    w.influencers = out_f;
    w.collectors = out_c;
    proof {
        assert forall|j: int| 0 <= j < w.emitters@.len() implies (#[trigger] w.emitters@[j]).wf()
        by {
            assert(old(w).emitters@[j].wf());
        }
        assert forall|j: int| 0 <= j < w.influencers@.len() implies (
        #[trigger] w.influencers@[j]).wf() by {
            assert(old(w).influencers@[j].wf());
        }
        assert forall|j: int| 0 <= j < w.collectors@.len() implies (
        #[trigger] w.collectors@[j]).wf() by {
            assert(old(w).collectors@[j].wf());
        }
    }
}

/// Clamps a coordinate into the world bound.
pub fn clamp_coord(v: i64) -> (r: i64)
    ensures
        r == clamp_pos(v as int),
{
    if v > POS_LIMIT {
        POS_LIMIT
    } else if v < -POS_LIMIT {
        -POS_LIMIT
    } else {
        v
    }
}

/// Adds an offset to a coordinate, saturating at the world bound.
fn add_clamped(v: i64, off: i64) -> (r: i64)
    requires
        -POS_LIMIT <= v <= POS_LIMIT,
        -POS_LIMIT <= off <= POS_LIMIT,
    ensures
        r == clamp_pos(v + off),
{
    let nv = (v as i128) + (off as i128);
    if nv > (POS_LIMIT as i128) {
        POS_LIMIT
    } else if nv < -(POS_LIMIT as i128) {
        -POS_LIMIT
    } else {
        nv as i64
    }
}

} // verus!
