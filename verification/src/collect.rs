//! The collector: terminal collection, scoring, and the level-entry
//! one-shots.
//!
//! Agents within a collector's radius snap-align toward it immediately.
//! Agents within the snap radius of any collector are destroyed, each
//! producing exactly one collection event — one score increment and one
//! progression decision — however many collectors overlap it. Entering
//! a level runs its one-shot setup: a new influence field, oscillation
//! marks, or the victory flag.

use vstd::prelude::*;
use crate::entities::{
    standard_influencer, standard_influencer_spec, Collector, Electron, Emitter, Influencer,
    World,
};
use crate::geom::{dist_sq, lemma_dist_sq_zero, SNAP_RADIUS};
use crate::progression::{
    level_index, progression_step, step_spec, Level,
};
use crate::trig::target_angle_spec;

verus! {

/// The score ceiling for a single collection event: far below the
/// counter's overflow, far above any reachable play.
pub const SCORE_CEILING: u64 = 0x2000_0000_0000_0000;

/// Whether a collector's snap radius contains the agent: the terminal
/// collection condition.
pub open spec fn snapped_by(e: Electron, c: Collector) -> bool {
    dist_sq(e.x as int, e.y as int, c.x as int, c.y as int) <= SNAP_RADIUS * SNAP_RADIUS
}

/// Whether any collector of the sequence collects the agent.
pub open spec fn collected_spec(e: Electron, cs: Seq<Collector>) -> bool {
    exists|j: int| 0 <= j < cs.len() && snapped_by(e, #[trigger] cs[j])
}

/// The effect of one collector on a surviving agent: an immediate
/// alignment toward the collector when the agent is within its radius
/// (and not exactly at its center, where no direction exists).
pub open spec fn face_one(e: Electron, c: Collector) -> Electron {
    let d2 = dist_sq(e.x as int, e.y as int, c.x as int, c.y as int);
    if d2 <= c.radius * c.radius && d2 > 0 {
        Electron { heading: target_angle_spec(c.x - e.x, c.y - e.y) as i64, ..e }
    } else {
        e
    }
}

/// The alignment effect of a sequence of collectors applied in order.
pub open spec fn face_fold(e: Electron, cs: Seq<Collector>) -> Electron
    decreases cs.len(),
{
    if cs.len() == 0 {
        e
    } else {
        face_one(face_fold(e, cs.drop_last()), cs.last())
    }
}

/// The agents that survive a collection pass, in order: every agent not
/// collected, after its alignment by the collectors.
pub open spec fn keep_fold(es: Seq<Electron>, cs: Seq<Collector>) -> Seq<Electron>
    decreases es.len(),
{
    if es.len() == 0 {
        Seq::empty()
    } else {
        let rest = keep_fold(es.drop_last(), cs);
        if collected_spec(es.last(), cs) {
            rest
        } else {
            rest.push(face_fold(es.last(), cs))
        }
    }
}

/// How many agents a collection pass removes: one per collected agent,
/// never more, however many collectors overlap one agent.
pub open spec fn removed_count(es: Seq<Electron>, cs: Seq<Collector>) -> int
    decreases es.len(),
{
    if es.len() == 0 {
        0
    } else {
        removed_count(es.drop_last(), cs) + if collected_spec(es.last(), cs) {
            1int
        } else {
            0int
        }
    }
}

/// The level after a run of collection events, one score increment and
/// one progression decision each, starting from `score`.
pub open spec fn events_level(level: Level, score: int, k: int, exact: bool) -> Level
    decreases k,
{
    if k <= 0 {
        level
    } else {
        events_level(step_spec(level, score + 1, exact), score + 1, k - 1, exact)
    }
}

/// Law: a collection pass accounts for every agent exactly once — the
/// survivors plus the collection events add up to the agents that went
/// in, so destruction is idempotent and no agent scores twice, however
/// many collectors overlap it.
pub proof fn lemma_collection_conserves(es: Seq<Electron>, cs: Seq<Collector>)
    ensures
        keep_fold(es, cs).len() + removed_count(es, cs) == es.len(),
    decreases es.len(),
{
    if es.len() > 0 {
        lemma_collection_conserves(es.drop_last(), cs);
    }
}

/// Adds the standard influence field to the world: the one-shot setup
/// of the second level.
pub fn setup_influencer(w: &mut World)
    requires
        old(w).wf(),
    ensures
        final(w).wf(),
        final(w).influencers@ == old(w).influencers@.push(standard_influencer_spec()),
        final(w).electrons == old(w).electrons,
        final(w).emitters == old(w).emitters,
        final(w).hoovers == old(w).hoovers,
        final(w).collectors == old(w).collectors,
        final(w).score == old(w).score,
        final(w).level == old(w).level,
        final(w).victory_shown == old(w).victory_shown,
        final(w).max_electrons == old(w).max_electrons,
        final(w).exact_thresholds == old(w).exact_thresholds,
{
    let f = standard_influencer();
    w.influencers.push(f);
}

/// Marks every influence field for the oscillation effect: the one-shot
/// of the third level.
pub fn wobble_influencer(w: &mut World)
    requires
        old(w).wf(),
    ensures
        final(w).wf(),
        final(w).influencers@.len() == old(w).influencers@.len(),
        forall|i: int|
            0 <= i < old(w).influencers@.len() ==> final(w).influencers@[i] == (Influencer {
                wobble: true,
                ..old(w).influencers@[i]
            }),
        final(w).electrons == old(w).electrons,
        final(w).emitters == old(w).emitters,
        final(w).hoovers == old(w).hoovers,
        final(w).collectors == old(w).collectors,
        final(w).score == old(w).score,
        final(w).level == old(w).level,
        final(w).victory_shown == old(w).victory_shown,
        final(w).max_electrons == old(w).max_electrons,
        final(w).exact_thresholds == old(w).exact_thresholds,
{
    let n = w.influencers.len();
    let mut out: Vec<Influencer> = Vec::new();
    let mut i: usize = 0;
    while i < n
        invariant
            *w == *old(w),
            old(w).wf(),
            n == w.influencers@.len(),
            i <= n,
            out@.len() == i,
            forall|j: int|
                0 <= j < i ==> out@[j] == (Influencer { wobble: true, ..old(w).influencers@[j] }),
            forall|j: int| 0 <= j < i ==> (#[trigger] out@[j]).wf(),
        decreases n - i,
    {
        let f = w.influencers[i];
        assert(f.wf());
        out.push(Influencer { wobble: true, ..f });
        i = i + 1;
    }
    w.influencers = out;
}

/// Marks every collector for the oscillation effect: the one-shot of
/// the fourth level.
pub fn wobble_goal(w: &mut World)
    requires
        old(w).wf(),
    ensures
        final(w).wf(),
        final(w).collectors@.len() == old(w).collectors@.len(),
        forall|i: int|
            0 <= i < old(w).collectors@.len() ==> final(w).collectors@[i] == (Collector {
                wobble: true,
                ..old(w).collectors@[i]
            }),
        final(w).electrons == old(w).electrons,
        final(w).emitters == old(w).emitters,
        final(w).influencers == old(w).influencers,
        final(w).hoovers == old(w).hoovers,
        final(w).score == old(w).score,
        final(w).level == old(w).level,
        final(w).victory_shown == old(w).victory_shown,
        final(w).max_electrons == old(w).max_electrons,
        final(w).exact_thresholds == old(w).exact_thresholds,
{
    let n = w.collectors.len();
    let mut out: Vec<Collector> = Vec::new();
    let mut i: usize = 0;
    while i < n
        invariant
            *w == *old(w),
            old(w).wf(),
            n == w.collectors@.len(),
            i <= n,
            out@.len() == i,
            forall|j: int|
                0 <= j < i ==> out@[j] == (Collector { wobble: true, ..old(w).collectors@[j] }),
            forall|j: int| 0 <= j < i ==> (#[trigger] out@[j]).wf(),
        decreases n - i,
    {
        let c = w.collectors[i];
        assert(c.wf());
        out.push(Collector { wobble: true, ..c });
        i = i + 1;
    }
    w.collectors = out;
}

/// Marks every emitter for the oscillation effect: the one-shot of the
/// fifth level.
pub fn wobble_source(w: &mut World)
    requires
        old(w).wf(),
    ensures
        final(w).wf(),
        final(w).emitters@.len() == old(w).emitters@.len(),
        forall|i: int|
            0 <= i < old(w).emitters@.len() ==> final(w).emitters@[i] == (Emitter {
                wobble: true,
                ..old(w).emitters@[i]
            }),
        final(w).electrons == old(w).electrons,
        final(w).influencers == old(w).influencers,
        final(w).hoovers == old(w).hoovers,
        final(w).collectors == old(w).collectors,
        final(w).score == old(w).score,
        final(w).level == old(w).level,
        final(w).victory_shown == old(w).victory_shown,
        final(w).max_electrons == old(w).max_electrons,
        final(w).exact_thresholds == old(w).exact_thresholds,
{
    let n = w.emitters.len();
    let mut out: Vec<Emitter> = Vec::new();
    let mut i: usize = 0;
    while i < n
        invariant
            *w == *old(w),
            old(w).wf(),
            n == w.emitters@.len(),
            i <= n,
            out@.len() == i,
            forall|j: int|
                0 <= j < i ==> out@[j] == (Emitter { wobble: true, ..old(w).emitters@[j] }),
            forall|j: int| 0 <= j < i ==> (#[trigger] out@[j]).wf(),
        decreases n - i,
    {
        let e = w.emitters[i];
        assert(e.wf());
        out.push(Emitter { wobble: true, ..e });
        i = i + 1;
    }
    w.emitters = out;
}

/// One collection event: the score rises by exactly one, one
/// progression decision is taken, and entering a new level runs its
/// one-shot setup. The level never regresses. Collector and emitter
/// geometry never changes here — at most their oscillation marks — and
/// influence fields are only added or marked, never removed.
pub fn on_electron_collected(w: &mut World)
    requires
        old(w).wf(),
        old(w).score < SCORE_CEILING,
    ensures
        final(w).wf(),
        final(w).score == old(w).score + 1,
        final(w).level == step_spec(
            old(w).level,
            old(w).score + 1,
            old(w).exact_thresholds,
        ),
        level_index(old(w).level) <= level_index(final(w).level),
        final(w).electrons == old(w).electrons,
        final(w).hoovers == old(w).hoovers,
        final(w).max_electrons == old(w).max_electrons,
        final(w).exact_thresholds == old(w).exact_thresholds,
        old(w).victory_shown ==> final(w).victory_shown,
        final(w).collectors@.len() == old(w).collectors@.len(),
        forall|i: int|
            0 <= i < old(w).collectors@.len() ==> {
                let c = #[trigger] final(w).collectors@[i];
                c.x == old(w).collectors@[i].x && c.y == old(w).collectors@[i].y && c.radius == old(w).collectors@[i].radius
            },
        final(w).emitters@.len() == old(w).emitters@.len(),
        forall|i: int|
            0 <= i < old(w).emitters@.len() ==> {
                let e = #[trigger] final(w).emitters@[i];
                e.x == old(w).emitters@[i].x && e.y == old(w).emitters@[i].y && e.facing == old(w).emitters@[i].facing && e.cone_half_angle == old(w).emitters@[i].cone_half_angle
            },
        final(w).influencers@.len() >= old(w).influencers@.len(),
        ({
            let l2 = step_spec(old(w).level, old(w).score + 1, old(w).exact_thresholds);
            &&& (l2 == old(w).level ==> final(w).emitters == old(w).emitters && final(w).influencers == old(w).influencers && final(w).collectors == old(w).collectors
                && final(w).victory_shown == old(w).victory_shown)
            &&& (l2 != old(w).level && l2 == Level::Level2 ==> final(w).influencers@ == old(w).influencers@.push(standard_influencer_spec()))
            &&& (l2 != old(w).level && l2 == Level::Level3 ==> final(w).influencers@.len() == old(w).influencers@.len() && forall|i: int|
                0 <= i < old(w).influencers@.len() ==> final(w).influencers@[i] == (Influencer {
                    wobble: true,
                    ..old(w).influencers@[i]
                }))
            &&& (l2 != old(w).level && l2 == Level::Level4 ==> forall|i: int|
                0 <= i < old(w).collectors@.len() ==> final(w).collectors@[i] == (Collector {
                    wobble: true,
                    ..old(w).collectors@[i]
                }))
            &&& (l2 != old(w).level && l2 == Level::Level5 ==> forall|i: int|
                0 <= i < old(w).emitters@.len() ==> final(w).emitters@[i] == (Emitter {
                    wobble: true,
                    ..old(w).emitters@[i]
                }))
            &&& (l2 != old(w).level && l2 == Level::Victory ==> final(w).victory_shown)
        }),
{
    w.score = w.score + 1;
    let l2 = progression_step(w.level, w.score, w.exact_thresholds);
    if !(l2 == w.level) {
        w.level = l2;
        match l2 {
            Level::Level1 => {},
            Level::Level2 => setup_influencer(w),
            Level::Level3 => wobble_influencer(w),
            Level::Level4 => wobble_goal(w),
            Level::Level5 => wobble_source(w),
            Level::Victory => {
                w.victory_shown = true;
            },
        }
    }
}

/// One collection pass: destroys every agent within the snap radius of
/// some collector and runs exactly one collection event for each;
/// surviving agents within a collector's radius snap-align toward it.
/// Capture fields are untouched, and the pass destroys each agent at
/// most once, however many collectors cover it.
pub fn collect_electrons(w: &mut World)
    requires
        old(w).wf(),
        old(w).score <= crate::entities::SCORE_LIMIT,
    ensures
        final(w).wf(),
        final(w).electrons@ == keep_fold(old(w).electrons@, old(w).collectors@),
        final(w).score == old(w).score + removed_count(old(w).electrons@, old(w).collectors@),
        final(w).level == events_level(
            old(w).level,
            old(w).score as int,
            removed_count(old(w).electrons@, old(w).collectors@),
            old(w).exact_thresholds,
        ),
        level_index(old(w).level) <= level_index(final(w).level),
        0 <= removed_count(old(w).electrons@, old(w).collectors@) <= old(w).electrons@.len(),
        final(w).hoovers == old(w).hoovers,
        final(w).emitters@.len() == old(w).emitters@.len(),
        forall|i: int|
            0 <= i < old(w).emitters@.len() ==> {
                let e = #[trigger] final(w).emitters@[i];
                &&& e.x == old(w).emitters@[i].x
                &&& e.y == old(w).emitters@[i].y
                &&& e.facing == old(w).emitters@[i].facing
                &&& e.cone_half_angle == old(w).emitters@[i].cone_half_angle
            },
        final(w).collectors@.len() == old(w).collectors@.len(),
        forall|i: int|
            0 <= i < old(w).collectors@.len() ==> {
                let c = #[trigger] final(w).collectors@[i];
                &&& c.x == old(w).collectors@[i].x
                &&& c.y == old(w).collectors@[i].y
                &&& c.radius == old(w).collectors@[i].radius
            },
        final(w).influencers@.len() >= old(w).influencers@.len(),
        final(w).max_electrons == old(w).max_electrons,
        final(w).exact_thresholds == old(w).exact_thresholds,
        old(w).victory_shown ==> final(w).victory_shown,
{
    let n = w.electrons.len();
    let nc = w.collectors.len();
    let mut kept: Vec<Electron> = Vec::new();
    let mut removed: usize = 0;
    let mut i: usize = 0;
    while i < n
        invariant
            *w == *old(w),
            old(w).wf(),
            n == w.electrons@.len(),
            nc == w.collectors@.len(),
            i <= n,
            removed <= i,
            kept@.len() + removed == i,
            removed == removed_count(old(w).electrons@.subrange(0, i as int), old(w).collectors@),
            kept@ == keep_fold(old(w).electrons@.subrange(0, i as int), old(w).collectors@),
            forall|j: int| 0 <= j < kept@.len() ==> (#[trigger] kept@[j]).wf(),
        decreases n - i,
    {
        let e0 = w.electrons[i];
        assert(e0.wf());
        let mut cur = e0;
        let mut hit = false;
        let mut j: usize = 0;
        while j < nc
            invariant
                *w == *old(w),
                old(w).wf(),
                nc == w.collectors@.len(),
                j <= nc,
                e0 == old(w).electrons@[i as int],
                0 <= i < old(w).electrons@.len(),
                e0.wf(),
                cur == face_fold(e0, old(w).collectors@.subrange(0, j as int)),
                cur.x == e0.x,
                cur.y == e0.y,
                cur.wf(),
                hit == collected_spec(e0, old(w).collectors@.subrange(0, j as int)),
            decreases nc - j,
        {
            let c = w.collectors[j];
            assert(c.wf());
            let within = crate::geom::is_within_reach(cur.x, cur.y, c.x, c.y, c.radius);
            let dx = c.x - cur.x;
            let dy = c.y - cur.y;
            proof {
                lemma_dist_sq_zero(cur.x as int, cur.y as int, c.x as int, c.y as int);
            }
            if within && !(dx == 0 && dy == 0) {
                let t = crate::trig::target_angle(dx, dy);
                cur = Electron { heading: t, ..cur };
            }
            if crate::geom::is_within_reach(cur.x, cur.y, c.x, c.y, SNAP_RADIUS) {
                hit = true;
            }
            proof {
                assert(old(w).collectors@.subrange(0, j + 1).drop_last() =~= old(w).collectors@.subrange(0, j as int));
                assert(old(w).collectors@.subrange(0, j + 1).last() == old(w).collectors@[j as int]);
                assert(collected_spec(e0, old(w).collectors@.subrange(0, j + 1)) == (
                collected_spec(e0, old(w).collectors@.subrange(0, j as int)) || snapped_by(
                    e0,
                    old(w).collectors@[j as int],
                ))) by {
                    let pre = old(w).collectors@.subrange(0, j as int);
                    let full = old(w).collectors@.subrange(0, j + 1);
                    if collected_spec(e0, full) {
                        let witness = choose|k: int|
                            0 <= k < full.len() && snapped_by(e0, #[trigger] full[k]);
                        if witness < j {
                            assert(pre[witness] == full[witness]);
                        }
                    }
                    if collected_spec(e0, pre) {
                        let witness = choose|k: int|
                            0 <= k < pre.len() && snapped_by(e0, #[trigger] pre[k]);
                        assert(full[witness] == pre[witness]);
                    }
                    if snapped_by(e0, old(w).collectors@[j as int]) {
                        assert(full[j as int] == old(w).collectors@[j as int]);
                    }
                }
            }
            j = j + 1;
        }
        proof {
            assert(old(w).collectors@.subrange(0, nc as int) =~= old(w).collectors@);
            assert(old(w).electrons@.subrange(0, i + 1).drop_last() =~= old(w).electrons@.subrange(0, i as int));
            assert(old(w).electrons@.subrange(0, i + 1).last() == old(w).electrons@[i as int]);
        }
        if hit {
            removed = removed + 1;
        } else {
            kept.push(cur);
        }
        i = i + 1;
    }
    proof {
        assert(old(w).electrons@.subrange(0, n as int) =~= old(w).electrons@);
    }
    w.electrons = kept;
    let ghost k_total = removed_count(old(w).electrons@, old(w).collectors@);
    let mut done: usize = 0;
    while done < removed
        invariant
            old(w).wf(),
            old(w).score <= crate::entities::SCORE_LIMIT,
            removed <= old(w).electrons@.len(),
            k_total == removed_count(old(w).electrons@, old(w).collectors@),
            removed == k_total,
            done <= removed,
            w.wf(),
            w.electrons@ == keep_fold(old(w).electrons@, old(w).collectors@),
            w.hoovers == old(w).hoovers,
            w.emitters@.len() == old(w).emitters@.len(),
            forall|i: int|
                0 <= i < old(w).emitters@.len() ==> {
                    let e = #[trigger] w.emitters@[i];
                    &&& e.x == old(w).emitters@[i].x
                    &&& e.y == old(w).emitters@[i].y
                    &&& e.facing == old(w).emitters@[i].facing
                    &&& e.cone_half_angle == old(w).emitters@[i].cone_half_angle
                },
            w.collectors@.len() == old(w).collectors@.len(),
            forall|i: int|
                0 <= i < old(w).collectors@.len() ==> {
                    let c = #[trigger] w.collectors@[i];
                    &&& c.x == old(w).collectors@[i].x
                    &&& c.y == old(w).collectors@[i].y
                    &&& c.radius == old(w).collectors@[i].radius
                },
            w.influencers@.len() >= old(w).influencers@.len(),
            w.max_electrons == old(w).max_electrons,
            w.exact_thresholds == old(w).exact_thresholds,
            old(w).victory_shown ==> w.victory_shown,
            w.score == old(w).score + done,
            events_level(
                w.level,
                w.score as int,
                k_total - done,
                w.exact_thresholds,
            ) == events_level(
                old(w).level,
                old(w).score as int,
                k_total,
                old(w).exact_thresholds,
            ),
            level_index(old(w).level) <= level_index(w.level),
        decreases removed - done,
    {
        on_electron_collected(w);
        done = done + 1;
    }
}

} // verus!
