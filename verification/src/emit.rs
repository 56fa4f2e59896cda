//! The emission policy.
//!
//! Each tick, every emitter spawns one agent at its own position, with a
//! spray angle drawn uniformly from the emitter's cone and a speed drawn
//! uniformly from a fixed range. Randomness enters only through one
//! trusted sampler; everything stated here holds of every draw. A
//! configurable cap bounds the live agent population: emitters beyond
//! the remaining room spawn nothing that tick.

use vstd::prelude::*;
use crate::angle::{
    angle_dist, lemma_wrap_identity, lemma_wrap_sub_wrapped_left, wrap_spec, wrapped, PI_B,
    TWO_PI_B,
};
use crate::entities::{Electron, World, SPEED_MAX, SPEED_MIN};

verus! {

/// The thread-local random number generator of the `rand` crate.
#[verifier::external_type_specification]
#[verifier::external_body]
pub struct ExThreadRng(rand::rngs::ThreadRng);

/// Relies on `rand::Rng::random_range` over an inclusive integer range:
/// it panics only on an empty range, and returns a value inside the
/// range. Nothing more is assumed of the draw.
#[verifier::external_body]
fn sample_inclusive(rng: &mut rand::rngs::ThreadRng, lo: i64, hi: i64) -> (r: i64)
    requires
        lo <= hi,
    ensures
        lo <= r <= hi,
{
    rand::Rng::random_range(rng, lo..=hi)
}

/// How many agents one emission pass adds: one per emitter, cut off at
/// the remaining room under the population cap.
pub open spec fn spawn_count(n_emitters: int, len: int, cap: int) -> int {
    if n_emitters <= cap - len {
        n_emitters
    } else {
        cap - len
    }
}

/// Spawns one agent per emitter, while room remains under the cap.
///
/// Every new agent sits at its emitter's position, is not captured, has
/// a speed in the sampled range, and a heading within the emitter's
/// cone: its angular distance to the emitter's facing is at most the
/// cone half-angle. An emitter with a zero half-angle sprays nothing:
/// its agents head exactly along its facing. Existing agents and all
/// other state are untouched.
pub fn spawn_electrons(w: &mut World, rng: &mut rand::rngs::ThreadRng)
    requires
        old(w).wf(),
    ensures
        final(w).wf(),
        final(w).electrons@.len() == old(w).electrons@.len() + spawn_count(
            old(w).emitters@.len() as int,
            old(w).electrons@.len() as int,
            old(w).max_electrons as int,
        ),
        forall|j: int|
            0 <= j < old(w).electrons@.len() ==> final(w).electrons@[j] == old(w).electrons@[j],
        forall|j: int|
            old(w).electrons@.len() <= j < final(w).electrons@.len() ==> {
                let e = #[trigger] final(w).electrons@[j];
                let em = old(w).emitters@[j - old(w).electrons@.len()];
                &&& e.x == em.x
                &&& e.y == em.y
                &&& !e.captured
                &&& SPEED_MIN <= e.speed <= SPEED_MAX
                &&& wrapped(e.heading as int)
                &&& angle_dist(e.heading as int, em.facing as int) <= em.cone_half_angle
                &&& (em.cone_half_angle == 0 ==> e.heading == em.facing)
            },
        final(w).emitters == old(w).emitters,
        final(w).influencers == old(w).influencers,
        final(w).hoovers == old(w).hoovers,
        final(w).collectors == old(w).collectors,
        final(w).score == old(w).score,
        final(w).level == old(w).level,
        final(w).victory_shown == old(w).victory_shown,
        final(w).max_electrons == old(w).max_electrons,
        final(w).exact_thresholds == old(w).exact_thresholds,
{
    let old_len = w.electrons.len();
    let room = w.max_electrons - old_len;
    let count = if w.emitters.len() <= room {
        w.emitters.len()
    } else {
        room
    };
    let mut i: usize = 0;
    while i < count
        invariant
            old(w).wf(),
            w.emitters == old(w).emitters,
            w.influencers == old(w).influencers,
            w.hoovers == old(w).hoovers,
            w.collectors == old(w).collectors,
            w.score == old(w).score,
            w.level == old(w).level,
            w.victory_shown == old(w).victory_shown,
            w.max_electrons == old(w).max_electrons,
            w.exact_thresholds == old(w).exact_thresholds,
            old_len == old(w).electrons@.len(),
            count == spawn_count(
                old(w).emitters@.len() as int,
                old_len as int,
                old(w).max_electrons as int,
            ),
            count <= old(w).emitters@.len(),
            old_len + count <= old(w).max_electrons,
            i <= count,
            w.electrons@.len() == old_len + i,
            forall|j: int| 0 <= j < old_len ==> w.electrons@[j] == old(w).electrons@[j],
            forall|j: int| 0 <= j < w.electrons@.len() ==> (#[trigger] w.electrons@[j]).wf(),
            forall|j: int|
                old_len <= j < old_len + i ==> {
                    let e = #[trigger] w.electrons@[j];
                    let em = old(w).emitters@[j - old_len];
                    &&& e.x == em.x
                    &&& e.y == em.y
                    &&& !e.captured
                    &&& SPEED_MIN <= e.speed <= SPEED_MAX
                    &&& wrapped(e.heading as int)
                    &&& angle_dist(e.heading as int, em.facing as int) <= em.cone_half_angle
                    &&& (em.cone_half_angle == 0 ==> e.heading == em.facing)
                },
        decreases count - i,
    {
        let em = w.emitters[i];
        assert(em.wf());
        let spray = if em.cone_half_angle == 0 {
            0
        } else {
            sample_inclusive(rng, -em.cone_half_angle, em.cone_half_angle)
        };
        let heading = crate::angle::wrap_angle(em.facing + spray);
        proof {
            lemma_wrap_sub_wrapped_left(em.facing as int, em.facing + spray);
            assert(wrap_spec(heading - em.facing) == wrap_spec(spray as int));
            if spray < PI_B {
                lemma_wrap_identity(spray as int);
            } else {
                crate::angle::lemma_wrap_add_turn(spray - TWO_PI_B);
                lemma_wrap_identity(spray - TWO_PI_B);
            }
            if em.cone_half_angle == 0 {
                lemma_wrap_identity(em.facing as int);
            }
        }
        let speed = sample_inclusive(rng, SPEED_MIN, SPEED_MAX);
        w.electrons.push(
            Electron { x: em.x, y: em.y, heading, speed, captured: false },
        );
        i = i + 1;
    }
}

} // verus!
