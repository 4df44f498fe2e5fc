use flappy_core::bird::{spawn_bird, velocity_rotator_system, JumpHeight};
use flappy_core::config::{GRAVITY_DEFAULT, JUMP_HEIGHT_DEFAULT, PLAYER_DEPTH};
use flappy_core::gamedata::GameData;
use flappy_core::gamestate::GameState;
use flappy_core::physics::{physics_tick, Gravity, Velocity};
use flappy_core::pipes::{PipeSpawnSettings, SpawnTimer};
use flappy_core::random::SpawnDraws;
use flappy_core::screens::spawn_screens;
use flappy_core::sim::{advance_tick, TickInput};
use flappy_core::world::{Transform, World};

fn zero_input(dt: i64, jump_edge: bool) -> TickInput {
    TickInput {
        dt,
        jump_edge,
        draws: SpawnDraws {
            duration: 0,
            center: 0,
            gap: 0,
        },
    }
}

#[test]
fn gravity_and_integration_are_exact() {
    let mut w = World::new();
    let id = w.create();
    w.attach_transform(
        id,
        Transform {
            x: 1000,
            y: 2000,
            depth: 0,
        },
    );
    w.attach_velocity(id, Velocity { vx: 5, vy: 7 });
    w.mark_affected_by_gravity(id);

    // One physics step: velocity first, then position with the new velocity.
    physics_tick(&mut w, &Gravity(3), 10);
    let v = w.velocities[id].unwrap();
    assert_eq!(v.vx, 5);
    assert_eq!(v.vy, 7 - 3 * 10);
    let t = w.transforms[id].unwrap();
    assert_eq!(t.x, 1000 + 5 * 10);
    assert_eq!(t.y, 2000 + (7 - 3 * 10) * 10);
}

#[test]
fn entity_without_gravity_marker_keeps_velocity() {
    let mut w = World::new();
    let id = w.create();
    w.attach_transform(
        id,
        Transform {
            x: 0,
            y: 0,
            depth: 0,
        },
    );
    w.attach_velocity(id, Velocity { vx: -700, vy: 0 });

    physics_tick(&mut w, &Gravity(18), 100);
    let v = w.velocities[id].unwrap();
    assert_eq!(v.vy, 0);
    let t = w.transforms[id].unwrap();
    assert_eq!(t.x, -700 * 100);
    assert_eq!(t.y, 0);
}

#[test]
fn menu_jump_starts_play_and_one_second_of_gravity_drops_1800_units() {
    let mut w = World::new();
    let bird = spawn_bird(&mut w);
    let (start, end) = spawn_screens(&mut w);
    let mut game = GameData::new();
    let mut st = SpawnTimer::default();
    let settings = PipeSpawnSettings::default();
    let gravity = Gravity(GRAVITY_DEFAULT);
    let jump = JumpHeight(JUMP_HEIGHT_DEFAULT);

    assert_eq!(game.game_state, GameState::Menu);
    assert!(w.visible[start]);

    // Tick 1: a jump edge with no elapsed time moves the flow to Playing.
    advance_tick(
        &mut w,
        &mut game,
        &mut st,
        &settings,
        &gravity,
        &jump,
        zero_input(0, true),
    );
    assert_eq!(game.game_state, GameState::Playing);
    assert!(!w.visible[start]);

    // Tick 2: one full second under gravity 1800 units per second squared
    // lowers the player by exactly 1800 world units (180000 centiunits).
    advance_tick(
        &mut w,
        &mut game,
        &mut st,
        &settings,
        &gravity,
        &jump,
        zero_input(100, false),
    );
    let t = w.transforms[bird].unwrap();
    assert_eq!(t.y, -180_000);
    let v = w.velocities[bird].unwrap();
    assert_eq!(v.vy, -1800);
    // That position is far below the floor, so the tick also died.
    assert_eq!(game.game_state, GameState::Dead);
    assert!(w.visible[end]);
}

#[test]
fn jump_edge_while_playing_sets_jump_velocity() {
    let mut w = World::new();
    let bird = spawn_bird(&mut w);
    let mut game = GameData::new();
    game.game_state = GameState::Playing;
    let mut st = SpawnTimer::default();
    let settings = PipeSpawnSettings::default();

    advance_tick(
        &mut w,
        &mut game,
        &mut st,
        &settings,
        &Gravity(0),
        &JumpHeight(920),
        zero_input(0, true),
    );
    assert_eq!(w.velocities[bird].unwrap().vy, 920);
    // The player entity spawned at the origin with depth for drawing order.
    assert_eq!(w.transforms[bird].unwrap().depth, PLAYER_DEPTH);
}

#[test]
fn menu_auto_bob_jumps_only_below_center() {
    let mut w = World::new();
    let bird = spawn_bird(&mut w);
    w.attach_transform(
        bird,
        Transform {
            x: 0,
            y: -5,
            depth: PLAYER_DEPTH,
        },
    );
    let mut game = GameData::new();
    let mut st = SpawnTimer::default();
    let settings = PipeSpawnSettings::default();

    advance_tick(
        &mut w,
        &mut game,
        &mut st,
        &settings,
        &Gravity(0),
        &JumpHeight(920),
        zero_input(0, false),
    );
    // Below the center in the menu: the auto-bob fires without any input.
    assert_eq!(w.velocities[bird].unwrap().vy, 920);
    assert_eq!(game.game_state, GameState::Menu);
}

#[test]
fn ceiling_bounce_clamps_position_and_velocity() {
    let mut w = World::new();
    let bird = spawn_bird(&mut w);
    w.attach_transform(
        bird,
        Transform {
            x: 0,
            y: 44_801,
            depth: PLAYER_DEPTH,
        },
    );
    w.attach_velocity(bird, Velocity { vx: 0, vy: 500 });
    let mut game = GameData::new();
    game.game_state = GameState::Playing;

    flappy_core::bird::player_bounds_system(&mut w, &mut game);
    let t = w.transforms[bird].unwrap();
    assert_eq!(t.y, 44_800);
    let v = w.velocities[bird].unwrap();
    assert_eq!(v.vy, -3);
    assert_eq!(game.game_state, GameState::Playing);
}

#[test]
fn rotation_interpolates_between_configured_angles() {
    let mut w = World::new();
    let bird = spawn_bird(&mut w);

    // Hovering: exactly halfway between the down and up angles.
    velocity_rotator_system(&mut w);
    assert_eq!(w.rotations[bird], 157);

    // At or past the saturation velocity the extreme angles are reached.
    w.attach_velocity(bird, Velocity { vx: 0, vy: 400 });
    velocity_rotator_system(&mut w);
    assert_eq!(w.rotations[bird], 1100);

    w.attach_velocity(bird, Velocity { vx: 0, vy: -400 });
    velocity_rotator_system(&mut w);
    assert_eq!(w.rotations[bird], -785);
}
