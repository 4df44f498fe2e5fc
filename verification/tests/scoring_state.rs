use flappy_core::animation::{animate_system, Animation, AnimationFrame};
use flappy_core::bird::{
    player_collision_system, spawn_bird, trigger_death, velocity_animator_system, JumpHeight,
};
use flappy_core::collide::{collide, HalfExtents};
use flappy_core::config::PLAYER_DEPTH;
use flappy_core::gamedata::GameData;
use flappy_core::gamestate::{handle_gamestate_system, GameState};
use flappy_core::physics::{Gravity, Velocity};
use flappy_core::pipes::{Collider, PipeSpawnSettings, SpawnTimer};
use flappy_core::random::SpawnDraws;
use flappy_core::screens::spawn_screens;
use flappy_core::sim::{advance_tick, TickInput};
use flappy_core::world::{Transform, World};

fn count_live_pipes(w: &World) -> usize {
    let mut n = 0;
    for i in 0..w.entity_count() {
        if w.alive[i] && w.pipes[i] {
            n += 1;
        }
    }
    n
}

#[test]
fn destroy_is_idempotent_and_touches_nothing_else() {
    let mut w = World::new();
    let a = w.create();
    w.attach_transform(
        a,
        Transform {
            x: 1,
            y: 2,
            depth: 3,
        },
    );
    let b = w.create();
    w.attach_velocity(b, Velocity { vx: 4, vy: 5 });

    w.destroy(a);
    assert!(!w.is_alive(a));
    assert!(w.is_alive(b));

    // A second destroy of the same id is a no-op, not an error.
    w.destroy(a);
    assert!(!w.is_alive(a));
    assert_eq!(w.entity_count(), 2);
    assert_eq!(w.velocities[b].unwrap(), Velocity { vx: 4, vy: 5 });

    // Destroying an id that was never created is a no-op too.
    w.destroy(17);
    assert_eq!(w.entity_count(), 2);
    assert!(w.is_alive(b));
}

#[test]
fn ids_are_never_reused_after_destruction() {
    let mut w = World::new();
    let a = w.create();
    w.destroy(a);
    let b = w.create();
    assert_ne!(a, b);
    assert!(!w.is_alive(a));
    assert!(w.is_alive(b));
}

#[test]
fn menu_jump_edge_transitions_to_playing_and_hides_the_start_screen() {
    let mut w = World::new();
    let (start, _end) = spawn_screens(&mut w);
    let mut game = GameData::new();

    // Without an edge nothing moves.
    handle_gamestate_system(&mut w, &mut game, false);
    assert_eq!(game.game_state, GameState::Menu);
    assert!(w.visible[start]);

    handle_gamestate_system(&mut w, &mut game, true);
    assert_eq!(game.game_state, GameState::Playing);
    assert!(!w.visible[start]);
}

#[test]
fn playing_never_self_transitions_on_input() {
    let mut w = World::new();
    let mut game = GameData::new();
    game.game_state = GameState::Playing;
    game.score = 4;
    handle_gamestate_system(&mut w, &mut game, true);
    assert_eq!(game.game_state, GameState::Playing);
    assert_eq!(game.score, 4);
}

#[test]
fn dead_jump_edge_restarts_and_resets_the_player() {
    let mut w = World::new();
    let bird = spawn_bird(&mut w);
    let (_start, end) = spawn_screens(&mut w);
    w.attach_transform(
        bird,
        Transform {
            x: 7,
            y: -90_000,
            depth: PLAYER_DEPTH,
        },
    );
    w.attach_velocity(bird, Velocity { vx: 1, vy: -555 });
    w.set_visible(end, true);
    let mut game = GameData::new();
    game.game_state = GameState::Dead;

    handle_gamestate_system(&mut w, &mut game, true);
    assert_eq!(game.game_state, GameState::Playing);
    let t = w.transforms[bird].unwrap();
    assert_eq!((t.x, t.y), (0, 0));
    assert_eq!(w.velocities[bird].unwrap(), Velocity { vx: 0, vy: 0 });
    assert!(!w.visible[end]);
}

#[test]
fn overlapping_a_score_trigger_scores_once_and_removes_it() {
    let mut w = World::new();
    let bird = spawn_bird(&mut w);
    let trigger = w.create();
    w.attach_transform(
        trigger,
        Transform {
            x: 4000,
            y: 0,
            depth: 0,
        },
    );
    w.attach_collider(trigger, Collider::ScoreGiver);
    let mut game = GameData::new();
    game.game_state = GameState::Playing;

    player_collision_system(&mut w, &mut game);
    assert_eq!(game.score, 1);
    assert!(!w.is_alive(trigger));

    // The trigger is gone, so continued overlap cannot double-score.
    player_collision_system(&mut w, &mut game);
    assert_eq!(game.score, 1);
    assert_eq!(game.game_state, GameState::Playing);
}

#[test]
fn touching_an_obstacle_body_triggers_death() {
    let mut w = World::new();
    let _bird = spawn_bird(&mut w);
    let pipe = w.create();
    w.attach_transform(
        pipe,
        Transform {
            x: 10_000,
            y: 0,
            depth: 0,
        },
    );
    w.attach_collider(pipe, Collider::Solid);
    w.attach_size(
        pipe,
        HalfExtents {
            hx: 9_600,
            hy: 38_400,
        },
    );
    w.mark_pipe(pipe);
    let mut game = GameData::new();
    game.game_state = GameState::Playing;
    game.score = 9;

    player_collision_system(&mut w, &mut game);
    assert_eq!(game.game_state, GameState::Dead);
    assert_eq!(game.score, 0);
    assert!(!w.is_alive(pipe));
}

#[test]
fn death_orchestration_runs_exactly_once_per_dead_transition() {
    let mut w = World::new();
    let bird = spawn_bird(&mut w);
    let (_start, end) = spawn_screens(&mut w);
    let pipe = w.create();
    w.attach_transform(
        pipe,
        Transform {
            x: 105_600,
            y: 0,
            depth: 300,
        },
    );
    w.attach_collider(pipe, Collider::Solid);
    w.attach_size(
        pipe,
        HalfExtents {
            hx: 9_600,
            hy: 38_400,
        },
    );
    w.mark_pipe(pipe);
    // Put the player below the floor: the death condition holds this tick
    // and every following one.
    w.attach_transform(
        bird,
        Transform {
            x: 0,
            y: -70_000,
            depth: PLAYER_DEPTH,
        },
    );
    let mut game = GameData::new();
    game.game_state = GameState::Playing;
    game.score = 5;
    let mut st = SpawnTimer::default();
    let settings = PipeSpawnSettings::default();
    let input = TickInput {
        dt: 1,
        jump_edge: false,
        draws: SpawnDraws {
            duration: 0,
            center: 0,
            gap: 0,
        },
    };

    advance_tick(
        &mut w,
        &mut game,
        &mut st,
        &settings,
        &Gravity(0),
        &JumpHeight(920),
        input,
    );
    assert_eq!(game.game_state, GameState::Dead);
    assert_eq!(game.score, 0);
    assert_eq!(count_live_pipes(&w), 0);
    assert!(w.visible[end]);

    // The death condition still holds, but the game is already dead: the
    // orchestration must not run again, so a score written meanwhile stays.
    game.score = 3;
    advance_tick(
        &mut w,
        &mut game,
        &mut st,
        &settings,
        &Gravity(0),
        &JumpHeight(920),
        input,
    );
    assert_eq!(game.game_state, GameState::Dead);
    assert_eq!(game.score, 3);
    assert_eq!(count_live_pipes(&w), 0);
}

#[test]
fn trigger_death_is_guarded_by_the_state_transition() {
    let mut w = World::new();
    let (_start, end) = spawn_screens(&mut w);
    let mut game = GameData::new();
    game.game_state = GameState::Dead;
    game.score = 8;
    trigger_death(&mut w, &mut game);
    assert_eq!(game.score, 8);
    assert!(!w.visible[end]);
}

#[test]
fn empty_or_out_of_range_clips_are_rejected_at_creation() {
    assert!(Animation::new(Vec::new()).is_none());
    let bad = vec![AnimationFrame {
        index: 0,
        time: -1,
    }];
    assert!(Animation::new(bad).is_none());
    let good = vec![
        AnimationFrame { index: 2, time: 10 },
        AnimationFrame { index: 5, time: 30 },
    ];
    let clip = Animation::new(good).unwrap();
    assert_eq!(clip.current_frame, 0);
    assert_eq!(clip.frames.len(), 2);
}

#[test]
fn frames_advance_on_expiry_and_adopt_the_frame_duration() {
    let mut w = World::new();
    let bird = spawn_bird(&mut w);

    // The flapping clip: frame durations 10, 10, 30, 10 centiseconds.
    animate_system(&mut w, 10);
    assert_eq!(w.sprite_indices[bird], 1);
    assert_eq!(w.frame_timers[bird].unwrap().duration, 10);

    animate_system(&mut w, 10);
    assert_eq!(w.sprite_indices[bird], 2);
    assert_eq!(w.frame_timers[bird].unwrap().duration, 30);

    // Not enough time for the longer frame: nothing advances.
    animate_system(&mut w, 20);
    assert_eq!(w.sprite_indices[bird], 2);

    animate_system(&mut w, 10);
    assert_eq!(w.sprite_indices[bird], 1);
    animate_system(&mut w, 10);
    assert_eq!(w.sprite_indices[bird], 0);
}

#[test]
fn clip_selection_follows_the_velocity_sign_without_resetting_frames() {
    let mut w = World::new();
    let bird = spawn_bird(&mut w);
    // Step the flapping clip forward once.
    animate_system(&mut w, 10);
    assert_eq!(w.animations[bird].as_ref().unwrap().animations[0].current_frame, 1);

    // Falling selects the gliding clip; rising selects flapping again, and
    // the flapping clip's frame position was kept meanwhile.
    w.attach_velocity(bird, Velocity { vx: 0, vy: -5 });
    velocity_animator_system(&mut w);
    assert_eq!(w.animations[bird].as_ref().unwrap().current_animation, 1);

    w.attach_velocity(bird, Velocity { vx: 0, vy: 5 });
    velocity_animator_system(&mut w);
    let a = w.animations[bird].as_ref().unwrap();
    assert_eq!(a.current_animation, 0);
    assert_eq!(a.animations[0].current_frame, 1);
}

#[test]
fn box_overlap_is_strict_at_the_edges() {
    // Touching edges do not count as an overlap.
    assert!(!collide(0, 0, 3_840, 3_840, 4_340, 0, 500, 64_000));
    assert!(collide(0, 0, 3_840, 3_840, 4_339, 0, 500, 64_000));
    assert!(!collide(0, 0, 3_840, 3_840, 0, 70_000, 500, 64_000));
}

#[test]
fn live_entities_lists_exactly_the_live_ids_in_order() {
    let mut w = World::new();
    let a = w.create();
    let b = w.create();
    let c = w.create();
    w.destroy(b);
    assert_eq!(w.live_entities(), vec![a, c]);
}

#[test]
fn frame_timer_fires_on_expiry_and_resets_its_elapsed_time() {
    let mut t = flappy_core::timer::FrameTimer::new(10);
    assert!(!t.advance(9));
    assert_eq!(t.elapsed, 9);
    assert!(t.advance(1));
    assert_eq!(t.elapsed, 0);
    // Overshooting still fires once and starts over from zero.
    assert!(t.advance(25));
    assert_eq!(t.elapsed, 0);
}

#[test]
fn animating_with_no_clips_or_a_bad_clip_index_is_skipped_safely() {
    let mut w = World::new();
    // An entity whose clip list is empty: the timer still runs, but no
    // frame or sprite changes.
    let a = w.create();
    w.attach_frame_timer(a, flappy_core::timer::FrameTimer::new(5));
    w.attach_animations(
        a,
        flappy_core::animation::Animations {
            animations: Vec::new(),
            current_animation: 0,
        },
    );
    // An entity whose selected clip index is out of range.
    let b = w.create();
    w.attach_frame_timer(b, flappy_core::timer::FrameTimer::new(5));
    let clip = Animation::new(vec![AnimationFrame { index: 9, time: 5 }]).unwrap();
    w.attach_animations(
        b,
        flappy_core::animation::Animations {
            animations: vec![clip],
            current_animation: 3,
        },
    );

    animate_system(&mut w, 5);
    assert_eq!(w.sprite_indices[a], 0);
    assert_eq!(w.sprite_indices[b], 0);
    // Both timers fired and reset; the durations are untouched.
    assert_eq!(w.frame_timers[a].unwrap().elapsed, 0);
    assert_eq!(w.frame_timers[b].unwrap().duration, 5);
}
