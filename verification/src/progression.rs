//! Score-driven level progression.
//!
//! The score is a monotonically increasing counter of collected agents.
//! Crossing a fixed ascending list of thresholds advances the level, one
//! step at a time, never backward, with a terminal victory state.
//!
//! Two threshold disciplines are supported. The exact discipline
//! matches a threshold by equality; it relies on every increment being
//! one. The at-least discipline advances once whenever the score has
//! reached the next threshold, so a larger increment could not skip a
//! level. With increments of one the two coincide.

use vstd::prelude::*;

verus! {

/// The progression states, in order; `Victory` is terminal.
#[derive(Clone, Copy, PartialEq, Eq, Structural, Debug)]
pub enum Level {
    Level1,
    Level2,
    Level3,
    Level4,
    Level5,
    Victory,
}

/// Score at which the second level begins.
pub const LEVEL2_AT: u64 = 300;

/// Score at which the third level begins.
pub const LEVEL3_AT: u64 = 500;

/// Score at which the fourth level begins.
pub const LEVEL4_AT: u64 = 700;

/// Score at which the fifth level begins.
pub const LEVEL5_AT: u64 = 900;

/// Score at which victory is reached.
pub const VICTORY_AT: u64 = 1100;

/// The position of a level in the progression order.
pub open spec fn level_index(l: Level) -> int {
    match l {
        Level::Level1 => 0,
        Level::Level2 => 1,
        Level::Level3 => 2,
        Level::Level4 => 3,
        Level::Level5 => 4,
        Level::Victory => 5,
    }
}

/// The level after `l`; `Victory` has no successor and stays itself.
pub open spec fn next_level(l: Level) -> Level {
    match l {
        Level::Level1 => Level::Level2,
        Level::Level2 => Level::Level3,
        Level::Level3 => Level::Level4,
        Level::Level4 => Level::Level5,
        Level::Level5 => Level::Victory,
        Level::Victory => Level::Victory,
    }
}

/// The score at which the level after `l` begins. `Victory` has no
/// successor; its entry is never compared, any value would do.
pub open spec fn next_threshold(l: Level) -> int {
    match l {
        Level::Level1 => LEVEL2_AT as int,
        Level::Level2 => LEVEL3_AT as int,
        Level::Level3 => LEVEL4_AT as int,
        Level::Level4 => LEVEL5_AT as int,
        Level::Level5 => VICTORY_AT as int,
        Level::Victory => 0,
    }
}

/// The level a game that started at `Level1` has reached once its score
/// is `score`, given that the score grew one collection at a time.
pub open spec fn expected_level(score: int) -> Level {
    if score < LEVEL2_AT {
        Level::Level1
    } else if score < LEVEL3_AT {
        Level::Level2
    } else if score < LEVEL4_AT {
        Level::Level3
    } else if score < LEVEL5_AT {
        Level::Level4
    } else if score < VICTORY_AT {
        Level::Level5
    } else {
        Level::Victory
    }
}

/// The level candidate an exact threshold match names for a score, or
/// the current level when the score is no threshold.
pub open spec fn exact_candidate(level: Level, score: int) -> Level {
    if score == LEVEL2_AT {
        Level::Level2
    } else if score == LEVEL3_AT {
        Level::Level3
    } else if score == LEVEL4_AT {
        Level::Level4
    } else if score == LEVEL5_AT {
        Level::Level5
    } else if score == VICTORY_AT {
        Level::Victory
    } else {
        level
    }
}

/// One progression decision, taken after the score has changed to
/// `score`: the next level, which is never behind the current one.
pub open spec fn step_spec(level: Level, score: int, exact: bool) -> Level {
    if exact {
        if level_index(exact_candidate(level, score)) > level_index(level) {
            exact_candidate(level, score)
        } else {
            level
        }
    } else {
        if level != Level::Victory && score >= next_threshold(level) {
            next_level(level)
        } else {
            level
        }
    }
}

/// Takes one progression decision after the score has changed to
/// `score`. The level never regresses, and it advances by at most one
/// step per decision.
pub fn progression_step(level: Level, score: u64, exact: bool) -> (l2: Level)
    ensures
        l2 == step_spec(level, score as int, exact),
        level_index(level) <= level_index(l2),
        level_index(l2) <= level_index(level) + 1 || exact,
{
    if exact {
        let cand = if score == LEVEL2_AT {
            Level::Level2
        } else if score == LEVEL3_AT {
            Level::Level3
        } else if score == LEVEL4_AT {
            Level::Level4
        } else if score == LEVEL5_AT {
            Level::Level5
        } else if score == VICTORY_AT {
            Level::Victory
        } else {
            level
        };
        if level_rank(cand) > level_rank(level) {
            cand
        } else {
            level
        }
    } else {
        match level {
            Level::Level1 => if score >= LEVEL2_AT {
                Level::Level2
            } else {
                level
            },
            Level::Level2 => if score >= LEVEL3_AT {
                Level::Level3
            } else {
                level
            },
            Level::Level3 => if score >= LEVEL4_AT {
                Level::Level4
            } else {
                level
            },
            Level::Level4 => if score >= LEVEL5_AT {
                Level::Level5
            } else {
                level
            },
            Level::Level5 => if score >= VICTORY_AT {
                Level::Victory
            } else {
                level
            },
            Level::Victory => level,
        }
    }
}

/// The position of a level in the progression order, as a runtime value.
pub fn level_rank(l: Level) -> (i: u8)
    ensures
        i as int == level_index(l),
{
    match l {
        Level::Level1 => 0,
        Level::Level2 => 1,
        Level::Level3 => 2,
        Level::Level4 => 3,
        Level::Level5 => 4,
        Level::Victory => 5,
    }
}

/// Law: in a game whose score grows one collection at a time from zero,
/// each progression decision keeps the level equal to the level its
/// score has earned — so each threshold fires its transition exactly
/// once, at its exact score, the level never regresses, and no
/// transition fires below its threshold. This holds under both threshold
/// disciplines.
pub proof fn lemma_level_tracks_score(level: Level, score: int, exact: bool)
    requires
        0 <= score,
        level == expected_level(score),
    ensures
        step_spec(level, score + 1, exact) == expected_level(score + 1),
        level_index(step_spec(level, score + 1, exact)) >= level_index(level),
{
}

} // verus!
