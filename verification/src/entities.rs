//! The simulation world: typed records for every entity kind, their
//! well-formedness invariants, and the standard game configuration.

use vstd::prelude::*;
use crate::angle::{wrapped, PI_B};
use crate::geom::{POS_LIMIT, PX};
use crate::progression::Level;
use crate::steer::RATE_LIMIT;
use crate::trig::DIR_SCALE;

verus! {

/// Largest forward speed an agent may carry, in pixels per second.
pub const SPEED_LIMIT: i64 = 10_000;

/// Slowest speed the emission policy draws, in pixels per second.
pub const SPEED_MIN: i64 = 75;

/// Fastest speed the emission policy draws, in pixels per second.
pub const SPEED_MAX: i64 = 100;

/// A moving agent: position, orientation, fixed forward speed, and the
/// cosmetic capture mark a capture field sets.
#[derive(Clone, Copy, PartialEq, Eq, Structural, Debug)]
pub struct Electron {
    pub x: i64,
    pub y: i64,
    pub heading: i64,
    pub speed: i64,
    pub captured: bool,
}

impl Electron {
    /// Position within the world bound, heading wrapped, speed
    /// non-negative and bounded.
    pub open spec fn wf(self) -> bool {
        &&& -POS_LIMIT <= self.x <= POS_LIMIT
        &&& -POS_LIMIT <= self.y <= POS_LIMIT
        &&& wrapped(self.heading as int)
        &&& 0 <= self.speed <= SPEED_LIMIT
    }
}

/// An agent source: pose and the half-angle of its spray cone.
#[derive(Clone, Copy, PartialEq, Eq, Structural, Debug)]
pub struct Emitter {
    pub x: i64,
    pub y: i64,
    pub facing: i64,
    pub cone_half_angle: i64,
    pub wobble: bool,
}

impl Emitter {
    pub open spec fn wf(self) -> bool {
        &&& -POS_LIMIT <= self.x <= POS_LIMIT
        &&& -POS_LIMIT <= self.y <= POS_LIMIT
        &&& wrapped(self.facing as int)
        &&& 0 <= self.cone_half_angle <= PI_B
    }
}

/// An influence field: every agent within its radius is steered toward
/// its center at its turn-rate magnitude, whatever the agent faces.
#[derive(Clone, Copy, PartialEq, Eq, Structural, Debug)]
pub struct Influencer {
    pub x: i64,
    pub y: i64,
    pub radius: i64,
    pub magnitude: i64,
    pub wobble: bool,
}

impl Influencer {
    pub open spec fn wf(self) -> bool {
        &&& -POS_LIMIT <= self.x <= POS_LIMIT
        &&& -POS_LIMIT <= self.y <= POS_LIMIT
        &&& 0 <= self.radius <= POS_LIMIT
        &&& 0 <= self.magnitude <= RATE_LIMIT
    }
}

/// A directional capture field ("hoover"): a rotatable cone that steers
/// and marks agents in its sector and snap-locks the orientation of
/// agents at its center.
#[derive(Clone, Copy, PartialEq, Eq, Structural, Debug)]
pub struct Hoover {
    pub x: i64,
    pub y: i64,
    pub facing: i64,
    pub radius: i64,
    pub magnitude: i64,
    pub collection_half_angle: i64,
    pub held: bool,
}

impl Hoover {
    pub open spec fn wf(self) -> bool {
        &&& -POS_LIMIT <= self.x <= POS_LIMIT
        &&& -POS_LIMIT <= self.y <= POS_LIMIT
        &&& wrapped(self.facing as int)
        &&& 0 <= self.radius <= POS_LIMIT
        &&& 0 <= self.magnitude <= RATE_LIMIT
        &&& 0 <= self.collection_half_angle <= PI_B
    }
}

/// A collector: agents in its radius snap-align toward it, agents at its
/// center are destroyed and scored.
#[derive(Clone, Copy, PartialEq, Eq, Structural, Debug)]
pub struct Collector {
    pub x: i64,
    pub y: i64,
    pub radius: i64,
    pub wobble: bool,
}

impl Collector {
    pub open spec fn wf(self) -> bool {
        &&& -POS_LIMIT <= self.x <= POS_LIMIT
        &&& -POS_LIMIT <= self.y <= POS_LIMIT
        &&& 0 <= self.radius <= POS_LIMIT
    }
}

/// The operating bound on the score: collection requires the score to
/// be below it, which leaves a tick's worth of increments far from
/// overflowing the counter.
pub const SCORE_LIMIT: u64 = 0x1000_0000_0000_0000;

/// Live agents are capped at this many, a configurable spawn limit.
pub const ELECTRON_CAP: usize = 0x10_0000;

/// The whole mutable simulation state, visited once per tick.
pub struct World {
    pub electrons: Vec<Electron>,
    pub emitters: Vec<Emitter>,
    pub influencers: Vec<Influencer>,
    pub hoovers: Vec<Hoover>,
    pub collectors: Vec<Collector>,
    pub score: u64,
    pub level: Level,
    pub victory_shown: bool,
    pub max_electrons: usize,
    pub exact_thresholds: bool,
}

impl World {
    /// Every record well-formed, the agent population within its cap,
    /// and the score within its overflow margin.
    pub open spec fn wf(self) -> bool {
        &&& forall|i: int| 0 <= i < self.electrons@.len() ==> (#[trigger] self.electrons@[i]).wf()
        &&& forall|i: int| 0 <= i < self.emitters@.len() ==> (#[trigger] self.emitters@[i]).wf()
        &&& forall|i: int|
            0 <= i < self.influencers@.len() ==> (#[trigger] self.influencers@[i]).wf()
        &&& forall|i: int| 0 <= i < self.hoovers@.len() ==> (#[trigger] self.hoovers@[i]).wf()
        &&& forall|i: int| 0 <= i < self.collectors@.len() ==> (#[trigger] self.collectors@[i]).wf()
        &&& self.electrons@.len() <= self.max_electrons
        &&& self.max_electrons <= ELECTRON_CAP
    }

    /// An empty world: no entities, a zero score, the first level.
    pub fn new(max_electrons: usize, exact_thresholds: bool) -> (w: World)
        requires
            max_electrons <= ELECTRON_CAP,
        ensures
            w.wf(),
            w.electrons@.len() == 0,
            w.emitters@.len() == 0,
            w.influencers@.len() == 0,
            w.hoovers@.len() == 0,
            w.collectors@.len() == 0,
            w.score == 0,
            w.level == Level::Level1,
            !w.victory_shown,
            w.max_electrons == max_electrons,
            w.exact_thresholds == exact_thresholds,
    {
        World {
            electrons: Vec::new(),
            emitters: Vec::new(),
            influencers: Vec::new(),
            hoovers: Vec::new(),
            collectors: Vec::new(),
            score: 0,
            level: Level::Level1,
            victory_shown: false,
            max_electrons,
            exact_thresholds,
        }
    }
}

/// The standard emitter, as a specification value.
pub open spec fn standard_emitter_spec() -> Emitter {
    Emitter {
        x: (-300 * PX) as i64,
        y: (-30 * PX) as i64,
        facing: 0,
        cone_half_angle: (PI_B / 10) as i64,
        wobble: false,
    }
}

/// The standard emitter: at `(-300, -30)` pixels, facing the positive Y
/// axis, with a spray cone of a tenth of a half turn on either side.
pub fn standard_emitter() -> (e: Emitter)
    ensures
        e.wf(),
        e == standard_emitter_spec(),
{
    Emitter { x: -300 * PX, y: -30 * PX, facing: 0, cone_half_angle: PI_B / 10, wobble: false }
}

/// The standard influence field, as a specification value.
pub open spec fn standard_influencer_spec() -> Influencer {
    Influencer {
        x: (-240 * PX) as i64,
        y: 0,
        radius: (150 * PX) as i64,
        magnitude: DIR_SCALE,
        wobble: false,
    }
}

/// The standard influence field: at `(-240, 0)` pixels, reach of 150
/// pixels, turn rate of one radian per second.
pub fn standard_influencer() -> (f: Influencer)
    ensures
        f.wf(),
        f == standard_influencer_spec(),
{
    Influencer { x: -240 * PX, y: 0, radius: 150 * PX, magnitude: DIR_SCALE, wobble: false }
}

/// The standard capture field, as a specification value.
pub open spec fn standard_hoover_spec() -> Hoover {
    Hoover {
        x: (-240 * PX) as i64,
        y: 0,
        facing: 0,
        radius: (150 * PX) as i64,
        magnitude: (2 * DIR_SCALE) as i64,
        collection_half_angle: (PI_B / 4) as i64,
        held: true,
    }
}

/// The standard capture field: at `(-240, 0)` pixels, reach of 150
/// pixels, turn rate of two radians per second, a collection cone of a
/// quarter half-turn on either side, held by the pointer.
pub fn standard_hoover() -> (h: Hoover)
    ensures
        h.wf(),
        h == standard_hoover_spec(),
{
    Hoover {
        x: -240 * PX,
        y: 0,
        facing: 0,
        radius: 150 * PX,
        magnitude: 2 * DIR_SCALE,
        collection_half_angle: PI_B / 4,
        held: true,
    }
}

/// The standard collector, as a specification value.
pub open spec fn standard_collector_spec() -> Collector {
    Collector { x: (200 * PX) as i64, y: 0, radius: (50 * PX) as i64, wobble: false }
}

/// The standard collector: at `(200, 0)` pixels with a reach of 50
/// pixels.
pub fn standard_collector() -> (c: Collector)
    ensures
        c.wf(),
        c == standard_collector_spec(),
{
    Collector { x: 200 * PX, y: 0, radius: 50 * PX, wobble: false }
}

/// The world the game starts from: one emitter, one held capture field,
/// one collector, exact score thresholds. The influence field arrives
/// with the second level.
pub fn new_game_world() -> (w: World)
    ensures
        w.wf(),
        w.score == 0,
        w.level == Level::Level1,
        !w.victory_shown,
        w.emitters@.len() == 1,
        w.emitters@[0] == standard_emitter_spec(),
        w.hoovers@.len() == 1,
        w.hoovers@[0] == standard_hoover_spec(),
        w.collectors@.len() == 1,
        w.collectors@[0] == standard_collector_spec(),
        w.influencers@.len() == 0,
        w.electrons@.len() == 0,
        w.max_electrons == ELECTRON_CAP,
        w.exact_thresholds,
{
    let mut w = World::new(ELECTRON_CAP, true);
    w.emitters.push(standard_emitter());
    w.hoovers.push(standard_hoover());
    w.collectors.push(standard_collector());
    w
}

} // verus!
