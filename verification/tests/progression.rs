use electrons::collect::on_electron_collected;
use electrons::entities::{World, ELECTRON_CAP};
use electrons::progression::{progression_step, Level};

#[test]
fn levels_advance_at_exact_thresholds() {
    let mut w = World::new(ELECTRON_CAP, true);
    let mut transitions: Vec<(u64, Level)> = Vec::new();
    for _ in 0..1100u64 {
        let before = w.level;
        on_electron_collected(&mut w);
        if w.level != before {
            transitions.push((w.score, w.level));
        }
    }
    assert_eq!(w.score, 1100);
    assert_eq!(w.level, Level::Victory);
    assert!(w.victory_shown);
    assert_eq!(
        transitions,
        vec![
            (300, Level::Level2),
            (500, Level::Level3),
            (700, Level::Level4),
            (900, Level::Level5),
            (1100, Level::Victory),
        ]
    );
}

#[test]
fn levels_advance_under_at_least_discipline() {
    // With increments of one, the at-least discipline produces the
    // same trace as the exact one.
    let mut w = World::new(ELECTRON_CAP, false);
    let mut transitions: Vec<(u64, Level)> = Vec::new();
    for _ in 0..1100u64 {
        let before = w.level;
        on_electron_collected(&mut w);
        if w.level != before {
            transitions.push((w.score, w.level));
        }
    }
    assert_eq!(w.level, Level::Victory);
    assert_eq!(
        transitions,
        vec![
            (300, Level::Level2),
            (500, Level::Level3),
            (700, Level::Level4),
            (900, Level::Level5),
            (1100, Level::Victory),
        ]
    );
}

#[test]
fn no_transition_fires_below_its_threshold() {
    assert_eq!(progression_step(Level::Level1, 299, true), Level::Level1);
    assert_eq!(progression_step(Level::Level1, 300, true), Level::Level2);
    assert_eq!(progression_step(Level::Level2, 301, true), Level::Level2);
    assert_eq!(progression_step(Level::Level2, 499, false), Level::Level2);
    assert_eq!(progression_step(Level::Level2, 500, false), Level::Level3);
}

#[test]
fn level_never_regresses() {
    // A threshold for an earlier level cannot pull a later level back.
    assert_eq!(progression_step(Level::Level3, 300, true), Level::Level3);
    assert_eq!(progression_step(Level::Victory, 300, true), Level::Victory);
    assert_eq!(progression_step(Level::Victory, 5000, false), Level::Victory);
}

#[test]
fn level_entry_one_shots_fire_once() {
    let mut w = World::new(ELECTRON_CAP, true);
    assert_eq!(w.influencers.len(), 0);
    for _ in 0..300u64 {
        on_electron_collected(&mut w);
    }
    // Entering the second level installed the standard influence field.
    assert_eq!(w.level, Level::Level2);
    assert_eq!(w.influencers.len(), 1);
    assert!(!w.influencers[0].wobble);
    for _ in 0..200u64 {
        on_electron_collected(&mut w);
    }
    // Entering the third level marked it for the oscillation effect.
    assert_eq!(w.level, Level::Level3);
    assert_eq!(w.influencers.len(), 1);
    assert!(w.influencers[0].wobble);
}
