use vstd::prelude::*;

use crate::animation::{animate_spec, animate_system};
use crate::bird::{animator_spec, bounds_spec, collision_spec, player_bounds_system,
    player_collision_system, player_input, player_input_spec, rotator_spec,
    velocity_animator_system, velocity_rotator_system, JumpHeight};
use crate::bounds_deletion::{cleanup_spec, offscreen_remove_system};
use crate::config::{MAX_COORD, MAX_COORD_STEPPED, MAX_DT, MAX_EXTENT, MAX_GRAVITY, MAX_VELOCITY,
    MAX_VELOCITY_STEPPED};
use crate::gamedata::GameData;
use crate::gamestate::{gamestate_spec, handle_gamestate_system};
use crate::physics::{physics_spec, physics_tick, Gravity};
use crate::pipes::{spawn_pipe_system, spawn_spec, PipeSpawnSettings, SpawnTimer};
use crate::random::SpawnDraws;
use crate::world::{pipes_are_solid, players_not_collidable, World};

verus! {

/// What one tick consumes: the elapsed time in centiseconds, whether the
/// jump input was pressed this tick (a press edge, not a held state), and
/// the uniform random draws the spawner may use.  Passing the draws in as
/// values keeps a run reproducible under any random source.
#[derive(Clone, Copy, PartialEq, Eq, Structural, Debug)]
pub struct TickInput {
    pub dt: i64,
    pub jump_edge: bool,
    pub draws: SpawnDraws,
}

impl TickInput {
    pub open spec fn wf(self) -> bool {
        &&& 0 <= self.dt <= MAX_DT
        &&& self.draws.wf()
    }
}

/// The stores and game data a tick passes through, one entry per subsystem
/// boundary.  `advance_tick` returns it as a ghost value: its contract links
/// each pair of neighbouring entries by that subsystem's step relation, so
/// the whole tick is pinned down as the composition of its phases.
pub struct TickTrace {
    pub after_input: World,
    pub after_physics: World,
    pub after_spawn: World,
    pub after_collision: World,
    pub after_bounds: World,
    pub after_gamestate: World,
    pub after_cleanup: World,
    pub after_rotator: World,
    pub after_animator: World,
    pub game_after_collision: GameData,
    pub game_after_bounds: GameData,
    pub spawned: bool,
}

/// One fixed-timestep simulation step, running the subsystems in their
/// required order: player input first, so a jump acts on this tick's
/// integration; gravity before integration; spawning before collision, so
/// new obstacles are judged from the next tick on; collision, bounds and
/// the state machine before cleanup, so a death's despawns come before the
/// bounds sweep (which tolerates them, destruction being idempotent); and
/// the cosmetic rotation, clip selection and frame animation last.
///
/// The returned ghost trace carries the store after each phase; the
/// contract links old and final state through every phase's own step
/// relation, so the tick does exactly what the ordered subsystems do.  The
/// step also re-establishes the simulation invariants (a unique,
/// collider-free player; solid obstacles; bounded extents) and bounds the
/// growth of velocities and positions by one gravity and one integration
/// step, so a caller knows the budget one tick can spend.
pub fn advance_tick(
    w: &mut World,
    game: &mut GameData,
    spawn_timer: &mut SpawnTimer,
    settings: &PipeSpawnSettings,
    gravity: &Gravity,
    jump_height: &JumpHeight,
    input: TickInput,
) -> (trace: Ghost<TickTrace>)
    requires
        old(w).wf(),
        old(w).at_most_one_player(),
        players_not_collidable(*old(w)),
        pipes_are_solid(*old(w)),
        old(w).vel_bounded(MAX_VELOCITY as int),
        old(w).pos_bounded(MAX_COORD as int),
        old(w).ext_bounded(MAX_EXTENT as int),
        old(spawn_timer).wf(),
        settings.wf(),
        input.wf(),
        0 <= gravity.0 <= MAX_GRAVITY,
        -MAX_VELOCITY <= jump_height.0 <= MAX_VELOCITY,
        old(game).score + old(w).num() + 3 <= u32::MAX,
        old(w).num() + 3 < usize::MAX,
    ensures
        final(w).wf(),
        final(spawn_timer).wf(),
        ({
            let t = trace@;
            &&& player_input_spec(*old(w), t.after_input, old(game).game_state, input.jump_edge,
                jump_height.0)
            &&& physics_spec(t.after_input, t.after_physics, gravity.0 as int, input.dt as int)
            &&& spawn_spec(t.after_physics, t.after_spawn, *old(spawn_timer), *final(spawn_timer),
                old(game).game_state, *settings, input.dt as int, input.draws, t.spawned)
            &&& collision_spec(t.after_spawn, t.after_collision, *old(game),
                t.game_after_collision)
            &&& bounds_spec(t.after_collision, t.after_bounds, t.game_after_collision,
                t.game_after_bounds)
            &&& gamestate_spec(t.after_bounds, t.after_gamestate, t.game_after_bounds,
                *final(game), input.jump_edge)
            &&& cleanup_spec(t.after_gamestate, t.after_cleanup)
            &&& rotator_spec(t.after_cleanup, t.after_rotator)
            &&& animator_spec(t.after_rotator, t.after_animator)
            &&& animate_spec(t.after_animator, *final(w), input.dt as int)
        }),
        old(w).num() <= final(w).num() <= old(w).num() + 3,
        final(w).at_most_one_player(),
        players_not_collidable(*final(w)),
        pipes_are_solid(*final(w)),
        final(w).vel_bounded(MAX_VELOCITY_STEPPED as int),
        final(w).pos_bounded(MAX_COORD_STEPPED as int),
        final(w).ext_bounded(MAX_EXTENT as int),
        forall|i: int|
            0 <= i < old(w).num() && !old(w).alive@[i] ==> !final(w).alive@[i],
        (old(game).game_state is Menu && input.jump_edge) ==> final(game).game_state is Playing,
        (old(game).game_state is Dead && input.jump_edge) ==> final(game).game_state is Playing,
        !input.jump_edge ==> (final(game).game_state == old(game).game_state
            || final(game).game_state is Dead),
        old(game).game_state is Playing ==> (final(game).game_state is Playing
            || final(game).game_state is Dead),
{
    let ghost w0 = *w;

    player_input(w, game.game_state, input.jump_edge, jump_height);
    let ghost w1 = *w;

    physics_tick(w, gravity, input.dt);
    let ghost w2 = *w;

    let spawned = spawn_pipe_system(w, game, settings, spawn_timer, input.dt, input.draws);
    let ghost w3 = *w;

    let ghost g3 = *game;
    player_collision_system(w, game);
    let ghost w4 = *w;
    let ghost g4 = *game;
    proof {
        if exists|p: int| #[trigger] w3.is_player(p) && w3.transforms@[p] is Some {
            let p = choose|p: int| #[trigger] w3.is_player(p) && w3.transforms@[p] is Some;
            assert(crate::bird::collision_post(w3, w4, g3, g4, p));
        } else {
            assert forall|p: int|
                !(#[trigger] w3.is_player(p)) || w3.transforms@[p] is None by {
                if w3.is_player(p) && w3.transforms@[p] is Some {
                    assert(exists|q: int| #[trigger] w3.is_player(q) && w3.transforms@[q] is Some);
                }
            }
        }
        assert(g4.game_state == g3.game_state || g4.game_state is Dead);
    }

    player_bounds_system(w, game);
    let ghost w5 = *w;
    let ghost g5 = *game;
    proof {
        if exists|p: int| #[trigger] crate::bird::bounds_applies(w4, p) {
            let p = choose|p: int| #[trigger] crate::bird::bounds_applies(w4, p);
            assert(crate::bird::bounds_post(w4, w5, g4, g5, p));
        }
        assert(g5.game_state == g4.game_state || g5.game_state is Dead);
    }

    handle_gamestate_system(w, game, input.jump_edge);
    let ghost w6 = *w;

    offscreen_remove_system(w);
    let ghost w7 = *w;

    velocity_rotator_system(w);
    let ghost w8 = *w;

    velocity_animator_system(w);
    let ghost w9 = *w;

    animate_system(w, input.dt);

    proof {
        assert forall|i: int| 0 <= i < w0.num() && !w0.alive@[i] implies !w.alive@[i] by {
            assert(!w1.alive@[i]);
            assert(!w2.alive@[i]);
            assert(!w3.alive@[i]);
            assert(!w4.alive@[i]);
            assert(!w5.alive@[i]);
            assert(!w6.alive@[i]);
            assert(!w7.alive@[i]);
            assert(!w8.alive@[i]);
            assert(!w9.alive@[i]);
        }
    }
    Ghost(
        TickTrace {
            after_input: w1,
            after_physics: w2,
            after_spawn: w3,
            after_collision: w4,
            after_bounds: w5,
            after_gamestate: w6,
            after_cleanup: w7,
            after_rotator: w8,
            after_animator: w9,
            game_after_collision: g4,
            game_after_bounds: g5,
            spawned,
        },
    )
}

} // verus!
