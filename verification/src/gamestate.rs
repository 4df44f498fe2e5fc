use vstd::prelude::*;

use crate::config::{MAX_COORD_STEPPED, MAX_EXTENT, MAX_VELOCITY_STEPPED, PLAYER_DEPTH};
use crate::gamedata::GameData;
use crate::physics::Velocity;
use crate::pipes::Collider;
use crate::world::{eq_view, pipes_are_solid, players_not_collidable, slot_unchanged,
    slot_visibility_set, Transform, World};

verus! {

/// The three-state game flow: the menu waits for a first jump, playing ends
/// only through death, and death waits for a jump to restart.
#[derive(Clone, Copy, PartialEq, Eq, Structural, Debug)]
pub enum GameState {
    Menu,
    Playing,
    Dead,
}

/// What leaving the menu does to slot `i`: start-screen overlays are hidden,
/// everything else is untouched.
pub open spec fn menu_start_slot(w0: World, w1: World, i: int) -> bool {
    if w0.is_live(i) && w0.start_screens@[i] {
        slot_visibility_set(w0, w1, i, false)
    } else {
        slot_unchanged(w0, w1, i)
    }
}

/// Slot `i` after a restart: the player back at the spawn origin with zero
/// velocity, every other component untouched.
pub open spec fn restart_player_slot(w0: World, w1: World, i: int) -> bool {
    &&& w1.transforms@[i] == Some(Transform { x: 0, y: 0, depth: PLAYER_DEPTH })
    &&& w1.velocities@[i] == Some(Velocity { vx: 0, vy: 0 })
    &&& w1.alive@[i] == w0.alive@[i]
    &&& w1.affected_by_gravity@[i] == w0.affected_by_gravity@[i]
    &&& w1.colliders@[i] == w0.colliders@[i]
    &&& w1.sizes@[i] == w0.sizes@[i]
    &&& w1.offscreen_deletion@[i] == w0.offscreen_deletion@[i]
    &&& w1.players@[i] == w0.players@[i]
    &&& w1.pipes@[i] == w0.pipes@[i]
    &&& w1.animations@[i] == w0.animations@[i]
    &&& w1.frame_timers@[i] == w0.frame_timers@[i]
    &&& w1.rotators@[i] == w0.rotators@[i]
    &&& w1.rotations@[i] == w0.rotations@[i]
    &&& w1.sprite_indices@[i] == w0.sprite_indices@[i]
    &&& w1.start_screens@[i] == w0.start_screens@[i]
    &&& w1.end_screens@[i] == w0.end_screens@[i]
    &&& w1.visible@[i] == w0.visible@[i]
}

/// What restarting after death does to slot `i`: the player is reset to the
/// spawn origin, end-screen overlays are hidden, everything else is
/// untouched.
pub open spec fn dead_restart_slot(w0: World, w1: World, i: int) -> bool {
    if w0.is_live(i) && w0.players@[i] && w0.transforms@[i] is Some && w0.velocities@[i] is Some {
        restart_player_slot(w0, w1, i)
    } else if w0.is_live(i) && w0.end_screens@[i] {
        slot_visibility_set(w0, w1, i, false)
    } else {
        slot_unchanged(w0, w1, i)
    }
}

/// What one state-machine step does, relating the stores and game data
/// before and after it: a jump edge in the menu starts play and hides the
/// start screen; a jump edge after death restarts play, resets the player
/// and hides the end screen; playing never transitions here, and without an
/// edge nothing changes.
pub open spec fn gamestate_spec(
    w0: World,
    w1: World,
    g0: GameData,
    g1: GameData,
    jump_edge: bool,
) -> bool {
    &&& w1.num() == w0.num()
    &&& (g0.game_state is Menu && jump_edge) ==> {
        &&& g1.game_state is Playing
        &&& g1.score == g0.score
        &&& forall|i: int| 0 <= i < w1.num() ==> #[trigger] menu_start_slot(w0, w1, i)
    }
    &&& (g0.game_state is Dead && jump_edge) ==> {
        &&& g1.game_state is Playing
        &&& g1.score == g0.score
        &&& forall|i: int| 0 <= i < w1.num() ==> #[trigger] dead_restart_slot(w0, w1, i)
    }
    &&& (g0.game_state is Playing || !jump_edge) ==> {
        &&& g1 == g0
        &&& eq_view(w0, w1)
    }
}

/// The game-flow state machine.  A jump edge in the menu starts play and
/// hides the start screen; a jump edge after death restarts play, resets the
/// player to the origin with zero velocity and hides the end screen; playing
/// never transitions here, and without an edge nothing changes.
pub fn handle_gamestate_system(w: &mut World, game: &mut GameData, jump_edge: bool)
    requires
        old(w).wf(),
    ensures
        final(w).wf(),
        gamestate_spec(*old(w), *final(w), *old(game), *final(game), jump_edge),
        old(w).vel_bounded(MAX_VELOCITY_STEPPED as int) ==> final(w).vel_bounded(
            MAX_VELOCITY_STEPPED as int,
        ),
        old(w).pos_bounded(MAX_COORD_STEPPED as int) ==> final(w).pos_bounded(
            MAX_COORD_STEPPED as int,
        ),
        old(w).ext_bounded(MAX_EXTENT as int) ==> final(w).ext_bounded(MAX_EXTENT as int),
        old(w).at_most_one_player() ==> final(w).at_most_one_player(),
        players_not_collidable(*old(w)) ==> players_not_collidable(*final(w)),
        pipes_are_solid(*old(w)) ==> pipes_are_solid(*final(w)),
        forall|i: int|
            0 <= i < old(w).num() && !old(w).alive@[i] ==> !final(w).alive@[i],
{
    let ghost w0 = *w;
    if !jump_edge {
        return ;
    }
    let n = w.alive.len();
    match game.game_state {
        GameState::Menu => {
            game.game_state = GameState::Playing;
            let mut i: usize = 0;
            while i < n
                invariant
                    w.wf(),
                    w0.wf(),
                    n == w.num(),
                    n == w0.num(),
                    i <= n,
                    forall|j: int| 0 <= j < i ==> #[trigger] menu_start_slot(w0, *w, j),
                    forall|j: int| i <= j < n ==> #[trigger] slot_unchanged(w0, *w, j),
                decreases n - i,
            {
                let ghost w_in = *w;
                if w.alive[i] && w.start_screens[i] {
                    w.set_visible(i, false);
                }
                proof {
                    assert forall|j: int| 0 <= j < i + 1 implies #[trigger] menu_start_slot(
                        w0,
                        *w,
                        j,
                    ) by {
                        if j < i {
                            assert(slot_unchanged(w_in, *w, j));
                            assert(menu_start_slot(w0, w_in, j));
                        } else {
                            assert(slot_unchanged(w0, w_in, j));
                        }
                    }
                    assert forall|j: int| i + 1 <= j < n implies #[trigger] slot_unchanged(
                        w0,
                        *w,
                        j,
                    ) by {
                        assert(slot_unchanged(w_in, *w, j));
                        assert(slot_unchanged(w0, w_in, j));
                    }
                }
                i += 1;
            }
            proof {
                restart_preserves_bounds(w0, *w);
                assert forall|i: int|
                    0 <= i < w0.num() && !w0.alive@[i] implies !w.alive@[i] by {
                    assert(menu_start_slot(w0, *w, i));
                }
            }
        },
        GameState::Playing => {},
        GameState::Dead => {
            game.game_state = GameState::Playing;
            let mut i: usize = 0;
            while i < n
                invariant
                    w.wf(),
                    w0.wf(),
                    n == w.num(),
                    n == w0.num(),
                    i <= n,
                    forall|j: int| 0 <= j < i ==> #[trigger] dead_restart_slot(w0, *w, j),
                    forall|j: int| i <= j < n ==> #[trigger] slot_unchanged(w0, *w, j),
                decreases n - i,
            {
                let ghost w_in = *w;
                if w.alive[i] && w.players[i] && w.transforms[i].is_some()
                    && w.velocities[i].is_some() {
                    w.attach_transform(i, Transform { x: 0, y: 0, depth: PLAYER_DEPTH });
                    w.attach_velocity(i, Velocity { vx: 0, vy: 0 });
                } else if w.alive[i] && w.end_screens[i] {
                    w.set_visible(i, false);
                }
                proof {
                    assert forall|j: int| 0 <= j < i + 1 implies #[trigger] dead_restart_slot(
                        w0,
                        *w,
                        j,
                    ) by {
                        if j < i {
                            assert(slot_unchanged(w_in, *w, j));
                            assert(dead_restart_slot(w0, w_in, j));
                        } else {
                            assert(slot_unchanged(w0, w_in, j));
                        }
                    }
                    assert forall|j: int| i + 1 <= j < n implies #[trigger] slot_unchanged(
                        w0,
                        *w,
                        j,
                    ) by {
                        assert(slot_unchanged(w_in, *w, j));
                        assert(slot_unchanged(w0, w_in, j));
                    }
                }
                i += 1;
            }
            proof {
                restart_preserves_bounds(w0, *w);
                assert forall|i: int|
                    0 <= i < w0.num() && !w0.alive@[i] implies !w.alive@[i] by {
                    assert(dead_restart_slot(w0, *w, i));
                }
            }
        },
    }
}

/// The state machine only hides overlays or resets the player to the
/// origin, so every bound on the store and the single-player property
/// survive it.
proof fn restart_preserves_bounds(w0: World, w1: World)
    requires
        w0.wf(),
        w1.wf(),
        w1.num() == w0.num(),
        forall|i: int|
            0 <= i < w1.num() ==> (#[trigger] menu_start_slot(w0, w1, i) || #[trigger]
            dead_restart_slot(w0, w1, i)),
    ensures
        w0.vel_bounded(MAX_VELOCITY_STEPPED as int) ==> w1.vel_bounded(
            MAX_VELOCITY_STEPPED as int,
        ),
        w0.pos_bounded(MAX_COORD_STEPPED as int) ==> w1.pos_bounded(MAX_COORD_STEPPED as int),
        w0.ext_bounded(MAX_EXTENT as int) ==> w1.ext_bounded(MAX_EXTENT as int),
        w0.at_most_one_player() ==> w1.at_most_one_player(),
        players_not_collidable(w0) ==> players_not_collidable(w1),
        pipes_are_solid(w0) ==> pipes_are_solid(w1),
{
    if players_not_collidable(w0) {
        assert forall|i: int| #[trigger] w1.is_player(i) implies w1.colliders@[i] is None by {
            assert(menu_start_slot(w0, w1, i) || dead_restart_slot(w0, w1, i));
            assert(w0.is_player(i));
        }
    }
    if pipes_are_solid(w0) {
        assert forall|i: int|
            0 <= i < w1.num() && #[trigger] w1.pipes@[i] implies w1.colliders@[i] == Some(
            Collider::Solid,
        ) by {
            assert(menu_start_slot(w0, w1, i) || dead_restart_slot(w0, w1, i));
            assert(w0.pipes@[i]);
        }
    }
    if w0.vel_bounded(MAX_VELOCITY_STEPPED as int) {
        assert forall|i: int|
            0 <= i < w1.num() && (#[trigger] w1.velocities@[i]) is Some implies {
            &&& -MAX_VELOCITY_STEPPED <= w1.vel(i).vx <= MAX_VELOCITY_STEPPED
            &&& -MAX_VELOCITY_STEPPED <= w1.vel(i).vy <= MAX_VELOCITY_STEPPED
        } by {
            assert(menu_start_slot(w0, w1, i) || dead_restart_slot(w0, w1, i));
            assert(w0.velocities@[i] is Some ==> {
                &&& -MAX_VELOCITY_STEPPED <= w0.vel(i).vx <= MAX_VELOCITY_STEPPED
                &&& -MAX_VELOCITY_STEPPED <= w0.vel(i).vy <= MAX_VELOCITY_STEPPED
            });
        }
    }
    if w0.pos_bounded(MAX_COORD_STEPPED as int) {
        assert forall|i: int|
            0 <= i < w1.num() && (#[trigger] w1.transforms@[i]) is Some implies {
            &&& -MAX_COORD_STEPPED <= w1.pos(i).x <= MAX_COORD_STEPPED
            &&& -MAX_COORD_STEPPED <= w1.pos(i).y <= MAX_COORD_STEPPED
        } by {
            assert(menu_start_slot(w0, w1, i) || dead_restart_slot(w0, w1, i));
            assert(w0.transforms@[i] is Some ==> {
                &&& -MAX_COORD_STEPPED <= w0.pos(i).x <= MAX_COORD_STEPPED
                &&& -MAX_COORD_STEPPED <= w0.pos(i).y <= MAX_COORD_STEPPED
            });
        }
    }
    if w0.ext_bounded(MAX_EXTENT as int) {
        assert forall|i: int| 0 <= i < w1.num() && (#[trigger] w1.sizes@[i]) is Some implies {
            &&& 0 <= w1.sizes@[i]->Some_0.hx <= MAX_EXTENT
            &&& 0 <= w1.sizes@[i]->Some_0.hy <= MAX_EXTENT
        } by {
            assert(menu_start_slot(w0, w1, i) || dead_restart_slot(w0, w1, i));
            assert(w0.sizes@[i] is Some ==> {
                &&& 0 <= w0.sizes@[i]->Some_0.hx <= MAX_EXTENT
                &&& 0 <= w0.sizes@[i]->Some_0.hy <= MAX_EXTENT
            });
        }
    }
    if w0.at_most_one_player() {
        assert forall|i: int, j: int|
            #[trigger] w1.is_player(i) && #[trigger] w1.is_player(j) implies i == j by {
            assert(menu_start_slot(w0, w1, i) || dead_restart_slot(w0, w1, i));
            assert(menu_start_slot(w0, w1, j) || dead_restart_slot(w0, w1, j));
            assert(w0.is_player(i) && w0.is_player(j));
        }
    }
}

} // verus!
