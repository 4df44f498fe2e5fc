use flappy_core::bird::{spawn_bird, JumpHeight};
use flappy_core::clouds::{cloud_spawn_system, CloudDraws, CloudTimer};
use flappy_core::config::{PIPE_SPAWN_X, SCORE_SPAWN_X};
use flappy_core::gamedata::GameData;
use flappy_core::gamestate::GameState;
use flappy_core::mountains::{mountain_spawn_system, MountainTimer};
use flappy_core::physics::Gravity;
use flappy_core::pipes::{spawn_pipe_system, Collider, PipeSpawnSettings, SpawnTimer};
use flappy_core::random::{uniform_from_fraction, SpawnDraws};
use flappy_core::sim::{advance_tick, TickInput};
use flappy_core::world::World;

fn playing_game() -> GameData {
    let mut g = GameData::new();
    g.game_state = GameState::Playing;
    g
}

fn count_live(w: &World, f: impl Fn(&World, usize) -> bool) -> usize {
    let mut n = 0;
    for i in 0..w.entity_count() {
        if w.alive[i] && f(w, i) {
            n += 1;
        }
    }
    n
}

#[test]
fn uniform_fraction_maps_onto_range_exactly() {
    assert_eq!(uniform_from_fraction(90, 120, 0), 90);
    assert_eq!(uniform_from_fraction(90, 120, 999), 119);
    assert_eq!(uniform_from_fraction(90, 120, 500), 105);
    assert_eq!(uniform_from_fraction(-400, 400, 0), -400);
    assert_eq!(uniform_from_fraction(-400, 400, 999), 399);
    assert_eq!(uniform_from_fraction(7, 7, 321), 7);
}

#[test]
fn random_draws_stay_in_the_unit_fraction_range() {
    for _ in 0..50 {
        let d = SpawnDraws::random();
        assert!(d.duration < 1000 && d.center < 1000 && d.gap < 1000);
        let c = CloudDraws::random();
        assert!(c.variant < 1000 && c.y < 1000 && c.vx < 1000 && c.vy < 1000);
    }
}

#[test]
fn settings_reject_out_of_range_parameters() {
    // A minimum above its maximum is a configuration error.
    assert!(PipeSpawnSettings::new(120, 90, -700, 30_000, 60_000, 400).is_none());
    assert!(PipeSpawnSettings::new(90, 120, -700, 60_000, 30_000, 400).is_none());
    assert!(PipeSpawnSettings::new(-1, 120, -700, 30_000, 60_000, 400).is_none());
    assert!(PipeSpawnSettings::new(90, 120, -700, 30_000, 60_000, 1001).is_none());
    let s = PipeSpawnSettings::new(90, 120, -700, 30_000, 60_000, 400).unwrap();
    assert_eq!(s.min_time, 90);
    assert_eq!(s.max_pipe_distance, 60_000);
}

#[test]
fn spawner_is_idle_outside_of_play() {
    let mut w = World::new();
    let game = GameData::new();
    let settings = PipeSpawnSettings::default();
    let mut st = SpawnTimer::default();
    let spawned = spawn_pipe_system(
        &mut w,
        &game,
        &settings,
        &mut st,
        500,
        SpawnDraws {
            duration: 0,
            center: 0,
            gap: 0,
        },
    );
    assert!(!spawned);
    assert_eq!(w.entity_count(), 0);
    // The countdown does not advance while the game is not playing.
    assert_eq!(st.timer.elapsed, 0);
}

#[test]
fn deterministic_zero_source_spawns_one_pair_after_the_countdown() {
    let mut w = World::new();
    let bird = spawn_bird(&mut w);
    let mut game = playing_game();
    let mut st = SpawnTimer::default();
    let settings = PipeSpawnSettings::default();
    let gravity = Gravity(0);
    let jump = JumpHeight(920);
    let input = TickInput {
        dt: 50,
        jump_edge: false,
        draws: SpawnDraws {
            duration: 0,
            center: 0,
            gap: 0,
        },
    };

    for _ in 0..4 {
        advance_tick(
            &mut w, &mut game, &mut st, &settings, &gravity, &jump, input,
        );
    }
    // 50 + 50 + 50 + 50 reaches the two second countdown on the fourth tick.
    let pipes = count_live(&w, |w, i| w.pipes[i]);
    let triggers = count_live(&w, |w, i| w.colliders[i] == Some(Collider::ScoreGiver));
    assert_eq!(pipes, 2);
    assert_eq!(triggers, 1);
    // All three scroll left at exactly the configured speed.
    for i in 0..w.entity_count() {
        if i != bird && w.alive[i] {
            let v = w.velocities[i].unwrap();
            assert_eq!(v.vx, settings.speed);
            assert_eq!(v.vy, 0);
        }
    }
    // A zero draw sets the next countdown to the configured minimum.
    assert_eq!(st.timer.duration, settings.min_time);
}

#[test]
fn spawn_positions_follow_the_drawn_center_and_gap() {
    let mut w = World::new();
    let game = playing_game();
    let settings = PipeSpawnSettings::default();
    let mut st = SpawnTimer::default();
    let spawned = spawn_pipe_system(
        &mut w,
        &game,
        &settings,
        &mut st,
        200,
        SpawnDraws {
            duration: 999,
            center: 999,
            gap: 999,
        },
    );
    assert!(spawned);
    // The center walked from 500 by -(lerp of 999 over [-400, 400)) = -399,
    // giving 101, inside the clamp range.
    assert_eq!(st.last_pos, 101);
    assert!(st.last_pos.abs() <= 400);
    // The half gap is half of the drawn body distance 59970.
    let lower = w.transforms[0].unwrap();
    let upper = w.transforms[1].unwrap();
    let trigger = w.transforms[2].unwrap();
    assert_eq!(lower.x, PIPE_SPAWN_X);
    assert_eq!(upper.x, PIPE_SPAWN_X);
    assert_eq!(trigger.x, SCORE_SPAWN_X);
    assert_eq!(lower.y, 101 * 64 - 29_985 - 38_400);
    assert_eq!(upper.y, 101 * 64 + 29_985 + 38_400);
    // The upper body renders upside down: a half turn, in milliradians.
    assert_eq!(w.rotations[0], 0);
    assert_eq!(w.rotations[1], 3_142);
    assert_eq!(w.rotations[2], 0);
    // The gap half distance sits inside the configured band.
    let half = (upper.y - lower.y - 2 * 38_400) / 2;
    assert!(settings.min_pipe_distance / 2 <= half && half <= settings.max_pipe_distance / 2);
    // The drawn countdown is inside the configured band and below its top.
    assert!(settings.min_time <= st.timer.duration && st.timer.duration < settings.max_time);
}

#[test]
fn center_walk_is_clamped_at_the_band_edge() {
    let mut w = World::new();
    let game = playing_game();
    let settings = PipeSpawnSettings::default();
    let mut st = SpawnTimer::default();
    // A zero center draw walks by +400 from 500, clamped down to 400.
    spawn_pipe_system(
        &mut w,
        &game,
        &settings,
        &mut st,
        200,
        SpawnDraws {
            duration: 0,
            center: 0,
            gap: 0,
        },
    );
    assert_eq!(st.last_pos, 400);
}

#[test]
fn offscreen_entities_are_removed_past_the_padding() {
    let mut w = World::new();
    let gone = w.create();
    w.attach_transform(
        gone,
        flappy_core::world::Transform {
            x: -126_001,
            y: 0,
            depth: 0,
        },
    );
    w.mark_offscreen_deletion(gone);
    let kept = w.create();
    w.attach_transform(
        kept,
        flappy_core::world::Transform {
            x: -126_000,
            y: 0,
            depth: 0,
        },
    );
    w.mark_offscreen_deletion(kept);

    flappy_core::bounds_deletion::offscreen_remove_system(&mut w);
    assert!(!w.is_alive(gone));
    assert!(w.is_alive(kept));
}

#[test]
fn clouds_spawn_with_drawn_height_and_speed() {
    let mut w = World::new();
    let mut timer = CloudTimer::default();
    let draws = CloudDraws {
        variant: 600,
        y: 0,
        vx: 0,
        vy: 0,
    };
    assert!(!cloud_spawn_system(&mut w, &mut timer, 99, draws));
    assert_eq!(w.entity_count(), 0);
    assert!(cloud_spawn_system(&mut w, &mut timer, 1, draws));
    assert_eq!(w.entity_count(), 1);
    let t = w.transforms[0].unwrap();
    assert_eq!(t.x, 225_000);
    assert_eq!(t.y, -64_000);
    let v = w.velocities[0].unwrap();
    assert_eq!(v.vx, -700);
    assert_eq!(v.vy, -10);
    assert!(w.offscreen_deletion[0]);
    assert_eq!(w.sprite_indices[0], 1);
}

#[test]
fn mountains_spawn_in_two_parallax_layers() {
    let mut w = World::new();
    let mut timer = MountainTimer::default();
    assert!(mountain_spawn_system(&mut w, &mut timer, 300));
    assert_eq!(w.entity_count(), 2);
    assert_eq!(w.velocities[0].unwrap().vx, -200);
    assert_eq!(w.velocities[1].unwrap().vx, -400);
    assert_eq!(w.transforms[0].unwrap().y, -64_000);
    assert_eq!(w.transforms[1].unwrap().y, -74_000);
    assert!(w.offscreen_deletion[0] && w.offscreen_deletion[1]);
}
