//! Influence fields and the directional capture field.
//!
//! An influence field steers every agent within its radius toward its
//! center, one rate-limited step per tick. The capture field does the
//! same for agents inside its angular collection sector, marks them as
//! captured, and snap-locks the orientation of agents at its center to
//! its own. An agent under several fields is steered by each in turn,
//! in field order, within the same tick.

use vstd::prelude::*;
use crate::angle::{wrap_spec, PI_B};
use crate::entities::{Electron, Hoover, Influencer, World};
use crate::geom::{dist_sq, in_sector_spec, lemma_dist_sq_zero, SNAP_RADIUS};
use crate::motion::clamp_pos;
use crate::steer::{steer_toward_spec, DT_LIMIT, MICROS};

verus! {

/// The effect of one influence field on one agent for one tick: a
/// steering step toward the field's center when the agent is within the
/// field's radius (and not exactly at its center, where no direction
/// exists).
pub open spec fn influence_one(e: Electron, f: Influencer, dt: int) -> Electron {
    let d2 = dist_sq(e.x as int, e.y as int, f.x as int, f.y as int);
    if d2 <= f.radius * f.radius && d2 > 0 {
        Electron {
            heading: steer_toward_spec(
                e.heading as int,
                f.x - e.x,
                f.y - e.y,
                f.magnitude as int,
                dt,
            ) as i64,
            ..e
        }
    } else {
        e
    }
}

/// The effect of a sequence of influence fields applied in order.
pub open spec fn influence_fold(e: Electron, fs: Seq<Influencer>, dt: int) -> Electron
    decreases fs.len(),
{
    if fs.len() == 0 {
        e
    } else {
        influence_one(influence_fold(e, fs.drop_last(), dt), fs.last(), dt)
    }
}

/// A fold of steering steps moves nothing and keeps the agent well
/// formed.
pub proof fn lemma_influence_fold_frame(e: Electron, fs: Seq<Influencer>, dt: int)
    requires
        e.wf(),
    ensures
        influence_fold(e, fs, dt).x == e.x,
        influence_fold(e, fs, dt).y == e.y,
        influence_fold(e, fs, dt).speed == e.speed,
        influence_fold(e, fs, dt).captured == e.captured,
        influence_fold(e, fs, dt).wf(),
    decreases fs.len(),
{
    if fs.len() > 0 {
        lemma_influence_fold_frame(e, fs.drop_last(), dt);
        let p = influence_fold(e, fs.drop_last(), dt);
        crate::angle::lemma_wrap_range(
            crate::trig::target_angle_spec(fs.last().x - p.x, fs.last().y - p.y) - p.heading,
        );
    }
}

/// Steers every agent one step toward every influence field whose
/// radius contains it, in field order. Positions, speeds, capture marks
/// and all other state are untouched.
pub fn influence_electrons(w: &mut World, dt: i64)
    requires
        old(w).wf(),
        0 <= dt <= DT_LIMIT,
    ensures
        final(w).wf(),
        final(w).electrons@.len() == old(w).electrons@.len(),
        forall|i: int|
            0 <= i < old(w).electrons@.len() ==> final(w).electrons@[i] == influence_fold(
                old(w).electrons@[i],
                old(w).influencers@,
                dt as int,
            ),
        final(w).emitters == old(w).emitters,
        final(w).influencers == old(w).influencers,
        final(w).hoovers == old(w).hoovers,
        final(w).collectors == old(w).collectors,
        final(w).score == old(w).score,
        final(w).level == old(w).level,
        final(w).victory_shown == old(w).victory_shown,
        final(w).max_electrons == old(w).max_electrons,
        final(w).exact_thresholds == old(w).exact_thresholds,
{
    let n = w.electrons.len();
    let nf = w.influencers.len();
    let mut out: Vec<Electron> = Vec::new();
    let mut i: usize = 0;
    while i < n
        invariant
            *w == *old(w),
            old(w).wf(),
            0 <= dt <= DT_LIMIT,
            n == w.electrons@.len(),
            nf == w.influencers@.len(),
            i <= n,
            out@.len() == i,
            forall|j: int|
                0 <= j < i ==> out@[j] == influence_fold(
                    old(w).electrons@[j],
                    old(w).influencers@,
                    dt as int,
                ),
        decreases n - i,
    {
        let e0 = w.electrons[i];
        assert(e0.wf());
        let mut cur = e0;
        let mut j: usize = 0;
        while j < nf
            invariant
                *w == *old(w),
                old(w).wf(),
                0 <= dt <= DT_LIMIT,
                nf == w.influencers@.len(),
                j <= nf,
                e0 == old(w).electrons@[i as int],
                0 <= i < old(w).electrons@.len(),
                e0.wf(),
                cur == influence_fold(e0, old(w).influencers@.subrange(0, j as int), dt as int),
                cur.x == e0.x,
                cur.y == e0.y,
                cur.speed == e0.speed,
                cur.captured == e0.captured,
                cur.wf(),
            decreases nf - j,
        {
            let f = w.influencers[j];
            assert(f.wf());
            let within = crate::geom::is_within_reach(cur.x, cur.y, f.x, f.y, f.radius);
            let dx = f.x - cur.x;
            let dy = f.y - cur.y;
            proof {
                lemma_dist_sq_zero(cur.x as int, cur.y as int, f.x as int, f.y as int);
            }
            if within && !(dx == 0 && dy == 0) {
                let res = crate::steer::angle_from_y(cur.heading, dx, dy);
                let h2 = crate::steer::apply_steering_step(cur.heading, res.0, res.1, f.magnitude, dt);
                cur = Electron { heading: h2, ..cur };
            }
            proof {
                assert(old(w).influencers@.subrange(0, j + 1).drop_last() =~= old(
                    w,
                ).influencers@.subrange(0, j as int));
                assert(old(w).influencers@.subrange(0, j + 1).last() == old(w).influencers@[j as int]);
            }
            j = j + 1;
        }
        proof {
            assert(old(w).influencers@.subrange(0, nf as int) =~= old(w).influencers@);
        }
        out.push(cur);
        i = i + 1;
    }
    w.electrons = out;
    proof {
        assert forall|k: int| 0 <= k < w.electrons@.len() implies (
        #[trigger] w.electrons@[k]).wf() by {
            lemma_influence_fold_frame(old(w).electrons@[k], old(w).influencers@, dt as int);
        }
    }
}

/// The effect of one capture field on one agent for one tick: a
/// steering step toward the field and the capture mark for an agent in
/// the collection sector, then a hard orientation lock for an agent
/// within the snap radius of the field's center.
pub open spec fn hoover_one(e: Electron, h: Hoover, dt: int) -> Electron {
    let e1 = if in_sector_spec(
        e.x as int,
        e.y as int,
        h.x as int,
        h.y as int,
        h.facing as int,
        h.collection_half_angle as int,
        h.radius as int,
    ) {
        Electron {
            heading: steer_toward_spec(
                e.heading as int,
                h.x - e.x,
                h.y - e.y,
                h.magnitude as int,
                dt,
            ) as i64,
            captured: true,
            ..e
        }
    } else {
        e
    };
    if dist_sq(e.x as int, e.y as int, h.x as int, h.y as int) < SNAP_RADIUS * SNAP_RADIUS {
        Electron { heading: h.facing, ..e1 }
    } else {
        e1
    }
}

/// The effect of a sequence of capture fields applied in order.
pub open spec fn hoover_fold(e: Electron, hs: Seq<Hoover>, dt: int) -> Electron
    decreases hs.len(),
{
    if hs.len() == 0 {
        e
    } else {
        hoover_one(hoover_fold(e, hs.drop_last(), dt), hs.last(), dt)
    }
}

/// A fold of capture steps moves nothing, keeps the agent well formed
/// (given well-formed fields), and never clears the capture mark.
pub proof fn lemma_hoover_fold_frame(e: Electron, hs: Seq<Hoover>, dt: int)
    requires
        e.wf(),
        forall|i: int| 0 <= i < hs.len() ==> (#[trigger] hs[i]).wf(),
    ensures
        hoover_fold(e, hs, dt).x == e.x,
        hoover_fold(e, hs, dt).y == e.y,
        hoover_fold(e, hs, dt).speed == e.speed,
        hoover_fold(e, hs, dt).wf(),
        e.captured ==> hoover_fold(e, hs, dt).captured,
    decreases hs.len(),
{
    if hs.len() > 0 {
        assert(forall|i: int|
            0 <= i < hs.drop_last().len() ==> (#[trigger] hs.drop_last()[i]).wf());
        lemma_hoover_fold_frame(e, hs.drop_last(), dt);
        let p = hoover_fold(e, hs.drop_last(), dt);
        let h = hs.last();
        assert(h == hs[hs.len() - 1] && h.wf());
        crate::angle::lemma_wrap_range(
            crate::trig::target_angle_spec(h.x - p.x, h.y - p.y) - p.heading,
        );
    }
}

/// Steers and marks every agent inside a capture field's collection
/// sector, and locks the orientation of agents within the snap radius
/// of a field's center to the field's facing. All other state is
/// untouched.
pub fn hoover_electrons(w: &mut World, dt: i64)
    requires
        old(w).wf(),
        0 <= dt <= DT_LIMIT,
    ensures
        final(w).wf(),
        final(w).electrons@.len() == old(w).electrons@.len(),
        forall|i: int|
            0 <= i < old(w).electrons@.len() ==> final(w).electrons@[i] == hoover_fold(
                old(w).electrons@[i],
                old(w).hoovers@,
                dt as int,
            ),
        final(w).emitters == old(w).emitters,
        final(w).influencers == old(w).influencers,
        final(w).hoovers == old(w).hoovers,
        final(w).collectors == old(w).collectors,
        final(w).score == old(w).score,
        final(w).level == old(w).level,
        final(w).victory_shown == old(w).victory_shown,
        final(w).max_electrons == old(w).max_electrons,
        final(w).exact_thresholds == old(w).exact_thresholds,
{
    let n = w.electrons.len();
    let nh = w.hoovers.len();
    let mut out: Vec<Electron> = Vec::new();
    let mut i: usize = 0;
    while i < n
        invariant
            *w == *old(w),
            old(w).wf(),
            0 <= dt <= DT_LIMIT,
            n == w.electrons@.len(),
            nh == w.hoovers@.len(),
            i <= n,
            out@.len() == i,
            forall|j: int|
                0 <= j < i ==> out@[j] == hoover_fold(
                    old(w).electrons@[j],
                    old(w).hoovers@,
                    dt as int,
                ),
        decreases n - i,
    {
        let e0 = w.electrons[i];
        assert(e0.wf());
        let mut cur = e0;
        let mut j: usize = 0;
        while j < nh
            invariant
                *w == *old(w),
                old(w).wf(),
                0 <= dt <= DT_LIMIT,
                nh == w.hoovers@.len(),
                j <= nh,
                e0 == old(w).electrons@[i as int],
                0 <= i < old(w).electrons@.len(),
                e0.wf(),
                cur == hoover_fold(e0, old(w).hoovers@.subrange(0, j as int), dt as int),
                cur.x == e0.x,
                cur.y == e0.y,
                cur.speed == e0.speed,
                cur.wf(),
            decreases nh - j,
        {
            let h = w.hoovers[j];
            assert(h.wf());
            let inside = crate::geom::is_within_segment(
                cur.x,
                cur.y,
                h.x,
                h.y,
                h.facing,
                h.collection_half_angle,
                h.radius,
            );
            if inside {
                let dx = h.x - cur.x;
                let dy = h.y - cur.y;
                proof {
                    lemma_dist_sq_zero(cur.x as int, cur.y as int, h.x as int, h.y as int);
                }
                let res = crate::steer::angle_from_y(cur.heading, dx, dy);
                let h2 = crate::steer::apply_steering_step(
                    cur.heading,
                    res.0,
                    res.1,
                    h.magnitude,
                    dt,
                );
                cur = Electron { heading: h2, captured: true, ..cur };
            }
            if crate::geom::is_within_rad(cur.x, cur.y, h.x, h.y, SNAP_RADIUS) {
                cur = Electron { heading: h.facing, ..cur };
            }
            proof {
                assert(old(w).hoovers@.subrange(0, j + 1).drop_last() =~= old(
                    w,
                ).hoovers@.subrange(0, j as int));
                assert(old(w).hoovers@.subrange(0, j + 1).last() == old(w).hoovers@[j as int]);
            }
            j = j + 1;
        }
        proof {
            assert(old(w).hoovers@.subrange(0, nh as int) =~= old(w).hoovers@);
        }
        out.push(cur);
        i = i + 1;
    }
    w.electrons = out;
    proof {
        assert forall|k: int| 0 <= k < w.electrons@.len() implies (
        #[trigger] w.electrons@[k]).wf() by {
            lemma_hoover_fold_frame(old(w).electrons@[k], old(w).hoovers@, dt as int);
        }
    }
}

/// The capture field's rotation rate under user input: half a turn per
/// second.
pub const HOOVER_ROT_RATE: i64 = PI_B;

/// One tick of rotation input applied to a capture field: a left turn,
/// then a right turn, each only when its input is held.
pub open spec fn rotated_spec(h: Hoover, left: bool, right: bool, dt: int) -> Hoover {
    let step = (HOOVER_ROT_RATE as int) * dt / (MICROS as int);
    let f1 = if left {
        wrap_spec(h.facing + step)
    } else {
        h.facing as int
    };
    let f2 = if right {
        wrap_spec(f1 - step)
    } else {
        f1
    };
    Hoover { facing: f2 as i64, ..h }
}

/// Integrates the discrete rotate-left / rotate-right input into every
/// capture field's facing, at the fixed rotation rate. All other state
/// is untouched.
pub fn rotate_hoover(w: &mut World, left: bool, right: bool, dt: i64)
    requires
        old(w).wf(),
        0 <= dt <= DT_LIMIT,
    ensures
        final(w).wf(),
        final(w).hoovers@.len() == old(w).hoovers@.len(),
        forall|i: int|
            0 <= i < old(w).hoovers@.len() ==> final(w).hoovers@[i] == rotated_spec(
                old(w).hoovers@[i],
                left,
                right,
                dt as int,
            ),
        final(w).electrons == old(w).electrons,
        final(w).emitters == old(w).emitters,
        final(w).influencers == old(w).influencers,
        final(w).collectors == old(w).collectors,
        final(w).score == old(w).score,
        final(w).level == old(w).level,
        final(w).victory_shown == old(w).victory_shown,
        final(w).max_electrons == old(w).max_electrons,
        final(w).exact_thresholds == old(w).exact_thresholds,
{
    proof {
        assert(HOOVER_ROT_RATE * dt <= 0x4_0000_0000_0000) by (nonlinear_arith)
            requires
                0 <= dt <= 1_000_000,
                HOOVER_ROT_RATE == 205887,
        ;
    }
    let stepu = ((HOOVER_ROT_RATE as u64) * (dt as u64)) / (MICROS as u64);
    let step = if stepu < (PI_B as u64) {
        stepu as i64
    } else {
        PI_B
    };
    proof {
        assert(HOOVER_ROT_RATE * dt / (MICROS as int) <= PI_B) by (nonlinear_arith)
            requires
                0 <= dt <= 1_000_000,
                MICROS == 1_000_000,
                HOOVER_ROT_RATE == 205887,
                PI_B == 205887,
        ;
    }
    let nh = w.hoovers.len();
    let mut out: Vec<Hoover> = Vec::new();
    let mut i: usize = 0;
    while i < nh
        invariant
            *w == *old(w),
            old(w).wf(),
            nh == w.hoovers@.len(),
            i <= nh,
            out@.len() == i,
            0 <= step <= PI_B,
            step == (HOOVER_ROT_RATE as int) * dt / (MICROS as int),
            forall|j: int|
                0 <= j < i ==> out@[j] == rotated_spec(old(w).hoovers@[j], left, right, dt as int),
            forall|j: int| 0 <= j < i ==> (#[trigger] out@[j]).wf(),
        decreases nh - i,
    {
        let h = w.hoovers[i];
        assert(h.wf());
        let f1 = if left {
            crate::angle::wrap_angle(h.facing + step)
        } else {
            h.facing
        };
        let f2 = if right {
            crate::angle::wrap_angle(f1 - step)
        } else {
            f1
        };
        out.push(Hoover { facing: f2, ..h });
        i = i + 1;
    }
    w.hoovers = out;
}

/// A pointer-held capture field follows a present cursor; the
/// coordinates saturate at the world bound. Any other field stays put.
pub open spec fn held_moved_spec(h: Hoover, cx: int, cy: int, present: bool) -> Hoover {
    if h.held && present {
        Hoover { x: clamp_pos(cx) as i64, y: clamp_pos(cy) as i64, ..h }
    } else {
        h
    }
}

/// Moves every pointer-held capture field to the cursor position, when
/// a cursor position is present; the coordinates saturate at the world
/// bound. All other state is untouched.
pub fn move_held(w: &mut World, cursor_x: i64, cursor_y: i64, cursor_present: bool)
    requires
        old(w).wf(),
    ensures
        final(w).wf(),
        final(w).hoovers@.len() == old(w).hoovers@.len(),
        forall|i: int|
            0 <= i < old(w).hoovers@.len() ==> final(w).hoovers@[i] == held_moved_spec(
                old(w).hoovers@[i],
                cursor_x as int,
                cursor_y as int,
                cursor_present,
            ),
        final(w).electrons == old(w).electrons,
        final(w).emitters == old(w).emitters,
        final(w).influencers == old(w).influencers,
        final(w).collectors == old(w).collectors,
        final(w).score == old(w).score,
        final(w).level == old(w).level,
        final(w).victory_shown == old(w).victory_shown,
        final(w).max_electrons == old(w).max_electrons,
        final(w).exact_thresholds == old(w).exact_thresholds,
{
    let cx = crate::motion::clamp_coord(cursor_x);
    let cy = crate::motion::clamp_coord(cursor_y);
    let nh = w.hoovers.len();
    let mut out: Vec<Hoover> = Vec::new();
    let mut i: usize = 0;
    while i < nh
        invariant
            *w == *old(w),
            old(w).wf(),
            nh == w.hoovers@.len(),
            i <= nh,
            out@.len() == i,
            cx == clamp_pos(cursor_x as int),
            cy == clamp_pos(cursor_y as int),
            forall|j: int|
                0 <= j < i ==> out@[j] == held_moved_spec(
                    old(w).hoovers@[j],
                    cursor_x as int,
                    cursor_y as int,
                    cursor_present,
                ),
            forall|j: int| 0 <= j < i ==> (#[trigger] out@[j]).wf(),
        decreases nh - i,
    {
        let h = w.hoovers[i];
        assert(h.wf());
        if h.held && cursor_present {
            out.push(Hoover { x: cx, y: cy, ..h });
        } else {
            out.push(h);
        }
        i = i + 1;
    }
    w.hoovers = out;
}

} // verus!
