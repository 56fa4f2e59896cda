//! One simulation tick.
//!
//! The components run once per tick in a fixed order: emission,
//! kinematics, influence steering, pointer and rotation input, sector
//! capture, collection with progression, and finally the cosmetic
//! oscillation. Each completes fully before the next begins, and the
//! tick's contract fixes the final world as their composition: only
//! the spawned batch, whose headings and speeds are random draws, is
//! bound by an existential.

use vstd::prelude::*;
use crate::angle::{angle_dist, wrapped};
use crate::collect::{collect_electrons, events_level, keep_fold, removed_count};
use crate::emit::{spawn_count, spawn_electrons};
use crate::entities::{Electron, Emitter, Hoover, World, SCORE_LIMIT, SPEED_MAX, SPEED_MIN};
use crate::fields::{
    held_moved_spec, hoover_electrons, hoover_fold, influence_electrons, influence_fold,
    move_held, rotate_hoover, rotated_spec,
};
use crate::motion::{move_electrons, moved_spec, wobble_wobblers, ELAPSED_LIMIT};
use crate::progression::level_index;
use crate::steer::DT_LIMIT;

verus! {

/// The external input of one tick: elapsed times and the input
/// boundary's signals — discrete rotation keys and an optional cursor
/// position for the held field.
#[derive(Clone, Copy)]
pub struct TickInput {
    pub dt_us: i64,
    pub elapsed_us: i64,
    pub rotate_left: bool,
    pub rotate_right: bool,
    pub cursor_present: bool,
    pub cursor_x: i64,
    pub cursor_y: i64,
}

/// The capture fields after the tick's input: the cursor move, then
/// the rotation keys.
pub open spec fn input_hoovers_spec(hs: Seq<Hoover>, input: TickInput) -> Seq<Hoover> {
    hs.map_values(
        |h: Hoover|
            rotated_spec(
                held_moved_spec(
                    h,
                    input.cursor_x as int,
                    input.cursor_y as int,
                    input.cursor_present,
                ),
                input.rotate_left,
                input.rotate_right,
                input.dt_us as int,
            ),
    )
}

/// What the emission policy promises of a spawned batch, one agent per
/// emitter in order: at the emitter's position, not captured, speed in
/// the sampled range, heading inside the spray cone (exactly the
/// facing when the cone is degenerate).
pub open spec fn spawn_batch_ok(spawned: Seq<Electron>, emitters: Seq<Emitter>) -> bool {
    &&& spawned.len() <= emitters.len()
    &&& forall|j: int|
        0 <= j < spawned.len() ==> {
            let e = #[trigger] spawned[j];
            let em = emitters[j];
            &&& e.x == em.x
            &&& e.y == em.y
            &&& !e.captured
            &&& SPEED_MIN <= e.speed <= SPEED_MAX
            &&& wrapped(e.heading as int)
            &&& angle_dist(e.heading as int, em.facing as int) <= em.cone_half_angle
            &&& (em.cone_half_angle == 0 ==> e.heading == em.facing)
        }
}

/// The agents after the tick's steering stages: one kinematics step,
/// then the influence fields, then the capture fields as the tick's
/// input left them.
pub open spec fn steered_spec(es: Seq<Electron>, w0: World, input: TickInput) -> Seq<Electron> {
    es.map_values(
        |e: Electron|
            hoover_fold(
                influence_fold(
                    moved_spec(e, input.dt_us as int),
                    w0.influencers@,
                    input.dt_us as int,
                ),
                input_hoovers_spec(w0.hoovers@, input),
                input.dt_us as int,
            ),
    )
}

/// Runs one full simulation tick: emission, kinematics, influence
/// steering, input, capture, collection with progression, oscillation.
///
/// The contract fixes the outcome as the composition of the component
/// specifications. Some batch of agents meeting the emission promise
/// is appended; every agent then takes one kinematics step and the
/// influence and capture folds; the survivors of the collection pass,
/// with its score and level result, are the final state. The capture
/// fields end exactly as the input leaves them; emitter and collector
/// count and geometry persist (only the oscillation moves a marked
/// entity vertically); influence fields are only added, never removed;
/// the score never decreases and rises by at most one per agent alive
/// or spawned this tick; the level never regresses; a shown victory
/// stays shown.
pub fn tick(w: &mut World, rng: &mut rand::rngs::ThreadRng, input: TickInput)
    requires
        old(w).wf(),
        0 <= input.dt_us <= DT_LIMIT,
        0 <= input.elapsed_us <= ELAPSED_LIMIT,
        old(w).score <= SCORE_LIMIT,
    ensures
        final(w).wf(),
        exists|spawned: Seq<Electron>|
            {
                let es = steered_spec(old(w).electrons@ + spawned, *old(w), input);
                &&& #[trigger] spawn_batch_ok(spawned, old(w).emitters@)
                &&& spawned.len() == spawn_count(
                    old(w).emitters@.len() as int,
                    old(w).electrons@.len() as int,
                    old(w).max_electrons as int,
                )
                &&& final(w).electrons@ == keep_fold(es, old(w).collectors@)
                &&& final(w).score == old(w).score + removed_count(es, old(w).collectors@)
                &&& final(w).level == events_level(
                    old(w).level,
                    old(w).score as int,
                    removed_count(es, old(w).collectors@),
                    old(w).exact_thresholds,
                )
            },
        final(w).hoovers@ == input_hoovers_spec(old(w).hoovers@, input),
        final(w).emitters@.len() == old(w).emitters@.len(),
        forall|i: int|
            0 <= i < old(w).emitters@.len() ==> {
                let e = #[trigger] final(w).emitters@[i];
                &&& e.x == old(w).emitters@[i].x
                &&& e.facing == old(w).emitters@[i].facing
                &&& e.cone_half_angle == old(w).emitters@[i].cone_half_angle
            },
        final(w).collectors@.len() == old(w).collectors@.len(),
        forall|i: int|
            0 <= i < old(w).collectors@.len() ==> {
                let c = #[trigger] final(w).collectors@[i];
                &&& c.x == old(w).collectors@[i].x
                &&& c.radius == old(w).collectors@[i].radius
            },
        final(w).influencers@.len() >= old(w).influencers@.len(),
        old(w).score <= final(w).score,
        final(w).score <= old(w).score + old(w).electrons@.len() + old(w).emitters@.len(),
        level_index(old(w).level) <= level_index(final(w).level),
        final(w).max_electrons == old(w).max_electrons,
        final(w).exact_thresholds == old(w).exact_thresholds,
        old(w).victory_shown ==> final(w).victory_shown,
{
    let ghost w0 = *old(w);
    let ghost old_len = w0.electrons@.len() as int;

    spawn_electrons(w, rng);
    let ghost s_sp = w.electrons@;
    let ghost batch = s_sp.subrange(old_len, s_sp.len() as int);
    proof {
        assert(s_sp =~= w0.electrons@ + batch);
        assert forall|j: int| 0 <= j < batch.len() implies {
            let e = #[trigger] batch[j];
            let em = w0.emitters@[j];
            &&& e.x == em.x
            &&& e.y == em.y
            &&& !e.captured
            &&& SPEED_MIN <= e.speed <= SPEED_MAX
            &&& wrapped(e.heading as int)
            &&& angle_dist(e.heading as int, em.facing as int) <= em.cone_half_angle
            &&& (em.cone_half_angle == 0 ==> e.heading == em.facing)
        } by {
            assert(batch[j] == s_sp[old_len + j]);
        }
        assert(spawn_batch_ok(batch, w0.emitters@));
    }

    move_electrons(w, input.dt_us);
    let ghost s_mv = w.electrons@;

    influence_electrons(w, input.dt_us);
    let ghost s_in = w.electrons@;

    move_held(w, input.cursor_x, input.cursor_y, input.cursor_present);
    rotate_hoover(w, input.rotate_left, input.rotate_right, input.dt_us);
    let ghost hs = w.hoovers@;
    proof {
        assert(hs =~= input_hoovers_spec(w0.hoovers@, input));
    }

    hoover_electrons(w, input.dt_us);
    let ghost s_ho = w.electrons@;
    proof {
        let es_in = w0.electrons@ + batch;
        assert forall|i: int| 0 <= i < s_ho.len() implies #[trigger] s_ho[i] == hoover_fold(
            influence_fold(moved_spec(es_in[i], input.dt_us as int), w0.influencers@, input.dt_us as int),
            input_hoovers_spec(w0.hoovers@, input),
            input.dt_us as int,
        ) by {
            assert(s_ho[i] == hoover_fold(s_in[i], hs, input.dt_us as int));
            assert(s_in[i] == influence_fold(s_mv[i], w0.influencers@, input.dt_us as int));
            assert(s_mv[i] == moved_spec(s_sp[i], input.dt_us as int));
            assert(s_sp[i] == es_in[i]);
        }
        assert(s_ho =~= steered_spec(es_in, w0, input));
    }

    collect_electrons(w);
    let ghost em_ac = w.emitters@;
    let ghost co_ac = w.collectors@;
    wobble_wobblers(w, input.elapsed_us);

    proof {
        assert forall|i: int| 0 <= i < w0.emitters@.len() implies {
            let e = #[trigger] w.emitters@[i];
            &&& e.x == w0.emitters@[i].x
            &&& e.facing == w0.emitters@[i].facing
            &&& e.cone_half_angle == w0.emitters@[i].cone_half_angle
        } by {
            assert(em_ac[i].x == w0.emitters@[i].x && em_ac[i].facing == w0.emitters@[i].facing
                && em_ac[i].cone_half_angle == w0.emitters@[i].cone_half_angle);
        }
        assert forall|i: int| 0 <= i < w0.collectors@.len() implies {
            let c = #[trigger] w.collectors@[i];
            &&& c.x == w0.collectors@[i].x
            &&& c.radius == w0.collectors@[i].radius
        } by {
            assert(co_ac[i].x == w0.collectors@[i].x && co_ac[i].radius == w0.collectors@[i].radius);
        }
        let es = steered_spec(w0.electrons@ + batch, w0, input);
        assert(w.electrons@ == keep_fold(es, w0.collectors@));
        assert(w.score == w0.score + removed_count(es, w0.collectors@));
        assert(w.level == events_level(
            w0.level,
            w0.score as int,
            removed_count(es, w0.collectors@),
            w0.exact_thresholds,
        ));
        assert(w.hoovers@ == input_hoovers_spec(w0.hoovers@, input));
    }
}

} // verus!
