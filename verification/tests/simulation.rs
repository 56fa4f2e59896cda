use electrons::angle::{wrap_angle, TWO_PI_B, PI_B};
use electrons::collect::collect_electrons;
use electrons::emit::spawn_electrons;
use electrons::entities::{
    new_game_world, Collector, Electron, Emitter, Hoover, Influencer, World, ELECTRON_CAP,
};
use electrons::fields::{hoover_electrons, influence_electrons};
use electrons::geom::{PX, SNAP_RADIUS};
use electrons::motion::{move_electrons, wobble_wobblers};
use electrons::progression::Level;
use electrons::sim::{tick, TickInput};
use electrons::trig::{heading_dir, unit_sin, DIR_SCALE};

fn quiet_input(dt_us: i64, elapsed_us: i64) -> TickInput {
    TickInput {
        dt_us,
        elapsed_us,
        rotate_left: false,
        rotate_right: false,
        cursor_present: false,
        cursor_x: 0,
        cursor_y: 0,
    }
}

#[test]
fn zero_half_angle_emitter_spawns_exact_heading() {
    let mut w = World::new(ELECTRON_CAP, true);
    w.emitters.push(Emitter { x: 0, y: 0, facing: 12345, cone_half_angle: 0, wobble: false });
    let mut rng = rand::rng();
    spawn_electrons(&mut w, &mut rng);
    assert_eq!(w.electrons.len(), 1);
    let e = &w.electrons[0];
    assert_eq!(e.x, 0);
    assert_eq!(e.y, 0);
    assert_eq!(e.heading, 12345);
    assert!(!e.captured);
    assert!(75 <= e.speed && e.speed <= 100);
}

#[test]
fn spawned_heading_stays_inside_cone() {
    let mut w = World::new(ELECTRON_CAP, true);
    w.emitters.push(Emitter {
        x: 0,
        y: 0,
        facing: 0,
        cone_half_angle: PI_B / 10,
        wobble: false,
    });
    let mut rng = rand::rng();
    for _ in 0..50 {
        spawn_electrons(&mut w, &mut rng);
    }
    for e in &w.electrons {
        assert!(e.heading.abs() <= PI_B / 10, "heading {}", e.heading);
    }
}

#[test]
fn straight_motion_is_exact_over_many_ticks() {
    // An agent with speed 10 and no steering moves exactly its forward
    // axis times 10 times the summed tick durations: here one second.
    let mut w = World::new(ELECTRON_CAP, true);
    let heading = 12345i64;
    w.electrons.push(Electron { x: 1000, y: -2000, heading, speed: 10, captured: false });
    for _ in 0..64 {
        move_electrons(&mut w, 15625);
    }
    let d = heading_dir(heading);
    let e = &w.electrons[0];
    assert_eq!(e.x, 1000 + d.0 * 10 * 1_000_000);
    assert_eq!(e.y, -2000 + d.1 * 10 * 1_000_000);
    assert_eq!(e.heading, heading);
    assert_eq!(e.speed, 10);
}

#[test]
fn agent_at_collector_center_is_destroyed_with_one_increment() {
    // The agent sits exactly at the collector's center on the tick it
    // appears: both the radius and the snap test hold at distance zero,
    // it is destroyed that tick, and the score rises by exactly one.
    let mut w = World::new(ELECTRON_CAP, true);
    w.collectors.push(Collector { x: 5 * PX, y: -3 * PX, radius: 50 * PX, wobble: false });
    w.electrons.push(Electron { x: 5 * PX, y: -3 * PX, heading: 0, speed: 80, captured: false });
    collect_electrons(&mut w);
    assert_eq!(w.electrons.len(), 0);
    assert_eq!(w.score, 1);
}

#[test]
fn overlapping_collectors_still_score_once() {
    // An agent inside two collectors' snap radii in the same tick is
    // destroyed once and produces exactly one collection event.
    let mut w = World::new(ELECTRON_CAP, true);
    w.collectors.push(Collector { x: 0, y: 0, radius: 50 * PX, wobble: false });
    w.collectors.push(Collector { x: SNAP_RADIUS / 2, y: 0, radius: 50 * PX, wobble: false });
    w.electrons.push(Electron { x: 0, y: 0, heading: 0, speed: 80, captured: false });
    collect_electrons(&mut w);
    assert_eq!(w.electrons.len(), 0);
    assert_eq!(w.score, 1);
}

#[test]
fn survivors_align_toward_collector() {
    // An agent inside the radius but outside the snap radius survives
    // and faces the collector at once.
    let mut w = World::new(ELECTRON_CAP, true);
    w.collectors.push(Collector { x: 0, y: 40 * PX, radius: 50 * PX, wobble: false });
    w.electrons.push(Electron { x: 0, y: 0, heading: 9999, speed: 80, captured: false });
    collect_electrons(&mut w);
    assert_eq!(w.electrons.len(), 1);
    assert_eq!(w.score, 0);
    // The collector sits straight up: the aligned heading is zero.
    assert_eq!(w.electrons[0].heading, 0);
}

#[test]
fn capture_field_marks_and_snaps() {
    let mut w = World::new(ELECTRON_CAP, true);
    w.hoovers.push(Hoover {
        x: 0,
        y: 0,
        facing: 0,
        radius: 150 * PX,
        magnitude: 2 * DIR_SCALE,
        collection_half_angle: PI_B / 4,
        held: false,
    });
    // One agent ahead of the field, inside the sector: marked captured.
    w.electrons.push(Electron { x: 0, y: 100 * PX, heading: 0, speed: 80, captured: false });
    // One agent behind the field: untouched.
    w.electrons.push(Electron { x: 0, y: -(100 * PX), heading: 7, speed: 80, captured: false });
    // One agent at the field's center: orientation locks to the facing.
    w.electrons.push(Electron { x: 0, y: 0, heading: 4444, speed: 80, captured: false });
    hoover_electrons(&mut w, 15625);
    assert!(w.electrons[0].captured);
    assert!(!w.electrons[1].captured);
    assert_eq!(w.electrons[1].heading, 7);
    assert_eq!(w.electrons[2].heading, 0);
}

#[test]
fn influence_steers_by_one_rate_limited_step() {
    let mut w = World::new(ELECTRON_CAP, true);
    w.influencers.push(Influencer {
        x: 100 * PX,
        y: 0,
        radius: 150 * PX,
        magnitude: DIR_SCALE,
        wobble: false,
    });
    // Agent below-left of the field, heading straight up; the field
    // pulls clockwise by exactly rate times tick: 1024 units.
    w.electrons.push(Electron { x: 0, y: 0, heading: 0, speed: 80, captured: false });
    influence_electrons(&mut w, 15625);
    assert_eq!(w.electrons[0].heading, -1024);
    // An agent outside the radius is untouched.
    w.electrons.clear();
    w.electrons.push(Electron {
        x: -(200 * PX),
        y: 0,
        heading: 0,
        speed: 80,
        captured: false,
    });
    influence_electrons(&mut w, 15625);
    assert_eq!(w.electrons[0].heading, 0);
}

#[test]
fn wobble_shifts_marked_entities_by_the_shared_offset() {
    let mut w = World::new(ELECTRON_CAP, true);
    w.influencers.push(Influencer {
        x: 0,
        y: 1000,
        radius: 150 * PX,
        magnitude: DIR_SCALE,
        wobble: true,
    });
    w.collectors.push(Collector { x: 0, y: 2000, radius: 50 * PX, wobble: false });
    // A quarter period in: the sine is near one, the offset near three
    // pixels.
    let elapsed = 1_570_796i64;
    wobble_wobblers(&mut w, elapsed);
    let phase = wrap_angle((elapsed * DIR_SCALE / 1_000_000) % TWO_PI_B);
    let off = unit_sin(phase) * 3_000_000;
    assert_eq!(w.influencers[0].y, 1000 + off);
    // Near the peak of the sine the shift is close to three pixels.
    assert!(off > 19 * PX / 7, "offset {}", off);
    assert!(off <= 3 * PX, "offset {}", off);
    // Unmarked entities do not move.
    assert_eq!(w.collectors[0].y, 2000);
}

#[test]
fn game_world_runs_and_spawns_one_agent_per_tick() {
    let mut w = new_game_world();
    let mut rng = rand::rng();
    for i in 0..100i64 {
        tick(&mut w, &mut rng, quiet_input(15625, 15625 * (i + 1)));
    }
    // The emitter is far from the collector: everything spawned is
    // still alive, one agent per tick.
    assert_eq!(w.electrons.len(), 100);
    assert_eq!(w.score, 0);
    assert_eq!(w.level, Level::Level1);
    // Agents drift upward from the emitter at (-300, -30) pixels.
    for e in &w.electrons {
        assert!(e.y >= -31 * PX);
    }
}

#[test]
fn population_cap_refuses_further_spawns() {
    let mut w = World::new(3, true);
    w.emitters.push(Emitter { x: 0, y: 0, facing: 0, cone_half_angle: 0, wobble: false });
    w.emitters.push(Emitter { x: PX, y: 0, facing: 0, cone_half_angle: 0, wobble: false });
    let mut rng = rand::rng();
    spawn_electrons(&mut w, &mut rng);
    assert_eq!(w.electrons.len(), 2);
    spawn_electrons(&mut w, &mut rng);
    // The cap of three admits only one of the two emitters' agents.
    assert_eq!(w.electrons.len(), 3);
    spawn_electrons(&mut w, &mut rng);
    assert_eq!(w.electrons.len(), 3);
}
