use vstd::prelude::*;

use crate::config::{MAX_ANGLE, MAX_COORD_STEPPED, MAX_EXTENT, MAX_VELOCITY,
    MAX_VELOCITY_STEPPED};
use crate::gamestate::GameState;
use crate::physics::Velocity;
use crate::collide::{boxes_overlap, collide};
use crate::config::{BOUNCE_VELOCITY, CEILING_Y, HALF_SCREEN_HEIGHT, PLAYER_HITBOX_HALF,
    SCORE_BOX_HALF_HEIGHT, SCORE_BOX_HALF_WIDTH};
use crate::animation::{Animation, AnimationFrame, Animations};
use crate::config::PLAYER_DEPTH;
use crate::gamedata::GameData;
use crate::timer::FrameTimer;
use crate::pipes::Collider;
use crate::world::{eq_view, pipes_are_solid, players_not_collidable, same_animation,
    same_collision, same_cosmetic, same_motion, same_tags, slot_cleared, slot_unchanged,
    slot_visibility_set, Transform, World};

verus! {

/// The vertical velocity given to the player by a jump, in world units per
/// second.
#[derive(Clone, Copy, PartialEq, Eq, Structural, Debug)]
pub struct JumpHeight(pub i64);

/// Configuration for deriving a visual rotation from vertical velocity.
/// Angles are in milliradians; the rotation swings from `angle_down` at
/// `-velocity_max` and below to `angle_up` at `velocity_max` and above.
#[derive(Clone, Copy, PartialEq, Eq, Structural, Debug)]
pub struct VelocityRotator {
    pub angle_up: i64,
    pub angle_down: i64,
    /// The velocity magnitude at which the extreme angle is reached.
    pub velocity_max: i64,
}

impl VelocityRotator {
    pub open spec fn wf(self) -> bool {
        &&& -MAX_ANGLE <= self.angle_up <= MAX_ANGLE
        &&& -MAX_ANGLE <= self.angle_down <= MAX_ANGLE
        &&& 1 <= self.velocity_max <= MAX_VELOCITY
    }
}

/// Auto jump until input is given: while in the menu, a player below the
/// screen center is given the jump velocity, which keeps them bobbing there.
pub fn handle_stay_in_screen(jump_height: &JumpHeight, velocity: &mut Velocity, y: i64)
    ensures
        y < 0 ==> *final(velocity) == (Velocity { vx: old(velocity).vx, vy: jump_height.0 }),
        y >= 0 ==> *final(velocity) == *old(velocity),
{
    if y < 0 {
        velocity.vy = jump_height.0;
    }
}

/// A jump edge this tick sets the vertical velocity to the jump impulse.
pub fn handle_jump(jump_edge: bool, jump_height: &JumpHeight, velocity: &mut Velocity)
    ensures
        jump_edge ==> *final(velocity) == (Velocity { vx: old(velocity).vx, vy: jump_height.0 }),
        !jump_edge ==> *final(velocity) == *old(velocity),
{
    if jump_edge {
        velocity.vy = jump_height.0;
    }
}

/// The input step touches exactly the live player entities that have both a
/// transform and a velocity.
pub open spec fn player_input_applies(w: World, i: int) -> bool {
    w.alive@[i] && w.players@[i] && w.transforms@[i] is Some && w.velocities@[i] is Some
}

/// What the input step does to the velocity of slot `i`: the jump impulse in
/// the menu while sinking, the jump impulse on a jump edge while playing,
/// nothing when dead.
pub open spec fn player_input_post(
    w0: World,
    w1: World,
    state: GameState,
    jump_edge: bool,
    jump: i64,
    i: int,
) -> bool {
    if player_input_applies(w0, i) && ((state is Menu && w0.pos(i).y < 0) || (state is Playing
        && jump_edge)) {
        w1.velocities@[i] == Some(Velocity { vx: w0.vel(i).vx, vy: jump })
    } else {
        w1.velocities@[i] == w0.velocities@[i]
    }
}

/// What one input step does, relating the stores before and after it: every
/// slot follows `player_input_post`, and nothing beyond velocities changes.
pub open spec fn player_input_spec(
    w0: World,
    w1: World,
    state: GameState,
    jump_edge: bool,
    jump: i64,
) -> bool {
    &&& w1.num() == w0.num()
    &&& w1.transforms@ == w0.transforms@
    &&& same_tags(w0, w1)
    &&& same_collision(w0, w1)
    &&& same_animation(w0, w1)
    &&& same_cosmetic(w0, w1)
    &&& forall|i: int|
        0 <= i < w1.num() ==> #[trigger] player_input_post(w0, w1, state, jump_edge, jump, i)
}

/// Translates raw input and the game-flow state into player velocity
/// changes: auto-bob in the menu, jump on the input edge while playing,
/// frozen when dead.
pub fn player_input(
    w: &mut World,
    state: GameState,
    jump_edge: bool,
    jump_height: &JumpHeight,
)
    requires
        old(w).wf(),
        -MAX_VELOCITY <= jump_height.0 <= MAX_VELOCITY,
    ensures
        final(w).wf(),
        player_input_spec(*old(w), *final(w), state, jump_edge, jump_height.0),
        old(w).vel_bounded(MAX_VELOCITY as int) ==> final(w).vel_bounded(MAX_VELOCITY as int),
        old(w).at_most_one_player() ==> final(w).at_most_one_player(),
        players_not_collidable(*old(w)) ==> players_not_collidable(*final(w)),
        pipes_are_solid(*old(w)) ==> pipes_are_solid(*final(w)),
{
    let ghost w0 = *w;
    let n = w.alive.len();
    let mut i: usize = 0;
    while i < n
        invariant
            w.wf(),
            w0.wf(),
            n == w.num(),
            n == w0.num(),
            i <= n,
            w.transforms@ == w0.transforms@,
            same_tags(w0, *w),
            same_collision(w0, *w),
            same_animation(w0, *w),
            same_cosmetic(w0, *w),
            forall|j: int|
                0 <= j < i ==> #[trigger] player_input_post(w0, *w, state, jump_edge,
                jump_height.0, j),
            forall|j: int| i <= j < n ==> w.velocities@[j] == w0.velocities@[j],
        decreases n - i,
    {
        let ghost w_in = *w;
        if w.alive[i] && w.players[i] {
            match (w.transforms[i], w.velocities[i]) {
                (Some(t), Some(v)) => {
                    let mut v2 = v;
                    match state {
                        GameState::Menu => {
                            handle_stay_in_screen(jump_height, &mut v2, t.y);
                        },
                        GameState::Playing => {
                            handle_jump(jump_edge, jump_height, &mut v2);
                        },
                        GameState::Dead => {},
                    }
                    w.velocities[i] = Some(v2);
                },
                _ => {},
            }
        }
        proof {
            assert forall|j: int| 0 <= j < i + 1 implies #[trigger] player_input_post(
                w0,
                *w,
                state,
                jump_edge,
                jump_height.0,
                j,
            ) by {
                if j < i {
                    assert(w.velocities@[j] == w_in.velocities@[j]);
                    assert(player_input_post(w0, w_in, state, jump_edge, jump_height.0, j));
                } else {
                    assert(w_in.velocities@[j] == w0.velocities@[j]);
                }
            }
        }
        i += 1;
    }
    proof {
        if w0.vel_bounded(MAX_VELOCITY as int) {
            assert forall|i: int|
                0 <= i < w.num() && (#[trigger] w.velocities@[i]) is Some implies {
                &&& -MAX_VELOCITY <= w.vel(i).vx <= MAX_VELOCITY
                &&& -MAX_VELOCITY <= w.vel(i).vy <= MAX_VELOCITY
            } by {
                assert(player_input_post(w0, *w, state, jump_edge, jump_height.0, i));
                assert(w0.velocities@[i] is Some ==> {
                    &&& -MAX_VELOCITY <= w0.vel(i).vx <= MAX_VELOCITY
                    &&& -MAX_VELOCITY <= w0.vel(i).vy <= MAX_VELOCITY
                });
            }
        }
        if w0.at_most_one_player() {
            assert forall|i: int, j: int|
                #[trigger] w.is_player(i) && #[trigger] w.is_player(j) implies i == j by {
                assert(w0.is_player(i) && w0.is_player(j));
            }
        }
        if players_not_collidable(w0) {
            assert forall|i: int| #[trigger] w.is_player(i) implies w.colliders@[i] is None by {
                assert(w0.is_player(i));
            }
        }
        if pipes_are_solid(w0) {
            assert forall|i: int|
                0 <= i < w.num() && #[trigger] w.pipes@[i] implies w.colliders@[i] == Some(
                Collider::Solid,
            ) by {
                assert(w0.pipes@[i]);
            }
        }
    }
}

/// Slot `i` is despawned by death orchestration: obstacle bodies and
/// remaining score triggers.
pub open spec fn is_killable(w: World, i: int) -> bool {
    w.is_live(i) && (w.pipes@[i] || w.colliders@[i] == Some(Collider::ScoreGiver))
}

/// What death orchestration does to slot `i`: obstacles and score triggers
/// are destroyed, end-screen overlays become visible, everything else is
/// untouched.
pub open spec fn death_post(w0: World, w1: World, i: int) -> bool {
    if is_killable(w0, i) {
        slot_cleared(w1, i)
    } else if w0.is_live(i) && w0.end_screens@[i] {
        slot_visibility_set(w0, w1, i, true)
    } else {
        slot_unchanged(w0, w1, i)
    }
}

/// Death orchestration: moves the game to `Dead`, resets the score, destroys
/// every obstacle body and score trigger, and shows the end screen.  It runs
/// at most once per death: re-entering while the game is already `Dead`
/// changes nothing at all.
pub fn trigger_death(w: &mut World, game: &mut GameData)
    requires
        old(w).wf(),
    ensures
        final(w).wf(),
        final(w).num() == old(w).num(),
        old(game).game_state is Dead ==> {
            &&& eq_view(*old(w), *final(w))
            &&& *final(game) == *old(game)
        },
        !(old(game).game_state is Dead) ==> {
            &&& final(game).game_state is Dead
            &&& final(game).score == 0
            &&& forall|i: int|
                0 <= i < final(w).num() ==> #[trigger] death_post(*old(w), *final(w), i)
        },
        old(w).vel_bounded(MAX_VELOCITY_STEPPED as int) ==> final(w).vel_bounded(
            MAX_VELOCITY_STEPPED as int,
        ),
        old(w).pos_bounded(MAX_COORD_STEPPED as int) ==> final(w).pos_bounded(
            MAX_COORD_STEPPED as int,
        ),
        old(w).ext_bounded(MAX_EXTENT as int) ==> final(w).ext_bounded(MAX_EXTENT as int),
        old(w).at_most_one_player() ==> final(w).at_most_one_player(),
        players_not_collidable(*old(w)) ==> players_not_collidable(*final(w)),
        pipes_are_solid(*old(w)) ==> pipes_are_solid(*final(w)),
        forall|i: int|
            0 <= i < old(w).num() && !old(w).alive@[i] ==> !final(w).alive@[i],
{
    let ghost w0 = *w;
    if game.game_state == GameState::Dead {
        return;
    }
    game.game_state = GameState::Dead;
    game.score = 0;
    let n = w.alive.len();
    let mut i: usize = 0;
    while i < n
        invariant
            w.wf(),
            w0.wf(),
            n == w.num(),
            n == w0.num(),
            i <= n,
            forall|j: int| 0 <= j < i ==> #[trigger] death_post(w0, *w, j),
            forall|j: int| i <= j < n ==> #[trigger] slot_unchanged(w0, *w, j),
        decreases n - i,
    {
        let ghost w_in = *w;
        if w.alive[i] {
            let killable = w.pipes[i] || match w.colliders[i] {
                Some(c) => c == Collider::ScoreGiver,
                None => false,
            };
            if killable {
                w.destroy(i);
            } else if w.end_screens[i] {
                w.set_visible(i, true);
            }
        }
        proof {
            assert forall|j: int| 0 <= j < i + 1 implies #[trigger] death_post(w0, *w, j) by {
                if j < i {
                    assert(slot_unchanged(w_in, *w, j));
                    assert(death_post(w0, w_in, j));
                } else {
                    assert(slot_unchanged(w0, w_in, j));
                }
            }
            assert forall|j: int| i + 1 <= j < n implies #[trigger] slot_unchanged(
                w0,
                *w,
                j,
            ) by {
                assert(slot_unchanged(w_in, *w, j));
                assert(slot_unchanged(w0, w_in, j));
            }
        }
        i += 1;
    }
    proof {
        death_preserves_bounds(w0, *w);
        assert forall|i: int| 0 <= i < w0.num() && !w0.alive@[i] implies !w.alive@[i] by {
            assert(death_post(w0, *w, i));
        }
    }
}

/// Death orchestration only destroys entities or shows overlays, so every
/// bound on the store and the single-player property survive it.
proof fn death_preserves_bounds(w0: World, w1: World)
    requires
        w0.wf(),
        w1.wf(),
        w1.num() == w0.num(),
        forall|i: int| 0 <= i < w1.num() ==> #[trigger] death_post(w0, w1, i),
    ensures
        w0.vel_bounded(MAX_VELOCITY_STEPPED as int) ==> w1.vel_bounded(
            MAX_VELOCITY_STEPPED as int,
        ),
        w0.pos_bounded(MAX_COORD_STEPPED as int) ==> w1.pos_bounded(MAX_COORD_STEPPED as int),
        w0.ext_bounded(MAX_EXTENT as int) ==> w1.ext_bounded(MAX_EXTENT as int),
        w0.at_most_one_player() ==> w1.at_most_one_player(),
        players_not_collidable(w0) ==> players_not_collidable(w1),
        pipes_are_solid(w0) ==> pipes_are_solid(w1),
{
    if players_not_collidable(w0) {
        assert forall|i: int| #[trigger] w1.is_player(i) implies w1.colliders@[i] is None by {
            assert(death_post(w0, w1, i));
            assert(w0.is_player(i));
        }
    }
    if pipes_are_solid(w0) {
        assert forall|i: int|
            0 <= i < w1.num() && #[trigger] w1.pipes@[i] implies w1.colliders@[i] == Some(
            Collider::Solid,
        ) by {
            assert(death_post(w0, w1, i));
            assert(w0.pipes@[i]);
        }
    }
    if w0.vel_bounded(MAX_VELOCITY_STEPPED as int) {
        assert forall|i: int|
            0 <= i < w1.num() && (#[trigger] w1.velocities@[i]) is Some implies {
            &&& -MAX_VELOCITY_STEPPED <= w1.vel(i).vx <= MAX_VELOCITY_STEPPED
            &&& -MAX_VELOCITY_STEPPED <= w1.vel(i).vy <= MAX_VELOCITY_STEPPED
        } by {
            assert(death_post(w0, w1, i));
            assert(w0.velocities@[i] is Some ==> {
                &&& -MAX_VELOCITY_STEPPED <= w0.vel(i).vx <= MAX_VELOCITY_STEPPED
                &&& -MAX_VELOCITY_STEPPED <= w0.vel(i).vy <= MAX_VELOCITY_STEPPED
            });
        }
    }
    if w0.pos_bounded(MAX_COORD_STEPPED as int) {
        assert forall|i: int|
            0 <= i < w1.num() && (#[trigger] w1.transforms@[i]) is Some implies {
            &&& -MAX_COORD_STEPPED <= w1.pos(i).x <= MAX_COORD_STEPPED
            &&& -MAX_COORD_STEPPED <= w1.pos(i).y <= MAX_COORD_STEPPED
        } by {
            assert(death_post(w0, w1, i));
            assert(w0.transforms@[i] is Some ==> {
                &&& -MAX_COORD_STEPPED <= w0.pos(i).x <= MAX_COORD_STEPPED
                &&& -MAX_COORD_STEPPED <= w0.pos(i).y <= MAX_COORD_STEPPED
            });
        }
    }
    if w0.ext_bounded(MAX_EXTENT as int) {
        assert forall|i: int| 0 <= i < w1.num() && (#[trigger] w1.sizes@[i]) is Some implies {
            &&& 0 <= w1.sizes@[i]->Some_0.hx <= MAX_EXTENT
            &&& 0 <= w1.sizes@[i]->Some_0.hy <= MAX_EXTENT
        } by {
            assert(death_post(w0, w1, i));
            assert(w0.sizes@[i] is Some ==> {
                &&& 0 <= w0.sizes@[i]->Some_0.hx <= MAX_EXTENT
                &&& 0 <= w0.sizes@[i]->Some_0.hy <= MAX_EXTENT
            });
        }
    }
    if w0.at_most_one_player() {
        assert forall|i: int, j: int|
            #[trigger] w1.is_player(i) && #[trigger] w1.is_player(j) implies i == j by {
            assert(death_post(w0, w1, i));
            assert(death_post(w0, w1, j));
            assert(w0.is_player(i) && w0.is_player(j));
        }
    }
}

/// The player's shrunk hitbox overlaps the score trigger in slot `i`.
pub open spec fn player_box_hits_score(w: World, p: int, i: int) -> bool {
    &&& w.is_live(i)
    &&& w.colliders@[i] == Some(Collider::ScoreGiver)
    &&& w.transforms@[i] is Some
    &&& boxes_overlap(
        w.pos(p).x as int,
        w.pos(p).y as int,
        PLAYER_HITBOX_HALF as int,
        PLAYER_HITBOX_HALF as int,
        w.pos(i).x as int,
        w.pos(i).y as int,
        SCORE_BOX_HALF_WIDTH as int,
        SCORE_BOX_HALF_HEIGHT as int,
    )
}

/// The player's shrunk hitbox overlaps the obstacle body in slot `i`, taken
/// at the obstacle's own rendered size.
pub open spec fn player_hits_solid(w: World, p: int, i: int) -> bool {
    &&& w.is_live(i)
    &&& w.pipes@[i]
    &&& w.transforms@[i] is Some
    &&& w.sizes@[i] is Some
    &&& boxes_overlap(
        w.pos(p).x as int,
        w.pos(p).y as int,
        PLAYER_HITBOX_HALF as int,
        PLAYER_HITBOX_HALF as int,
        w.pos(i).x as int,
        w.pos(i).y as int,
        w.sizes@[i]->Some_0.hx as int,
        w.sizes@[i]->Some_0.hy as int,
    )
}

/// How many of the first `n` slots hold a score trigger the player overlaps.
pub open spec fn count_score_hits(w: World, p: int, n: int) -> int
    decreases n,
{
    if n <= 0 {
        0
    } else {
        count_score_hits(w, p, n - 1) + if player_box_hits_score(w, p, n - 1) {
            1int
        } else {
            0int
        }
    }
}

/// The overlap count over `n` slots is between 0 and `n`.
pub proof fn lemma_count_score_hits_bounds(w: World, p: int, n: int)
    requires
        n >= 0,
    ensures
        0 <= count_score_hits(w, p, n) <= n,
    decreases n,
{
    if n > 0 {
        lemma_count_score_hits_bounds(w, p, n - 1);
    }
}

/// What scoring does to slot `i` when no death is triggered: overlapped
/// score triggers are destroyed, everything else is untouched.
pub open spec fn collision_score_slot(w0: World, w1: World, p: int, i: int) -> bool {
    if player_box_hits_score(w0, p, i) {
        slot_cleared(w1, i)
    } else {
        slot_unchanged(w0, w1, i)
    }
}

/// What one collision step does to slot `i` when it also triggers death:
/// overlapped score triggers, obstacles and remaining triggers are all
/// destroyed, end screens become visible, everything else is untouched.
pub open spec fn collision_death_slot(w0: World, w1: World, p: int, i: int) -> bool {
    if player_box_hits_score(w0, p, i) || is_killable(w0, i) {
        slot_cleared(w1, i)
    } else if w0.is_live(i) && w0.end_screens@[i] {
        slot_visibility_set(w0, w1, i, true)
    } else {
        slot_unchanged(w0, w1, i)
    }
}

/// What one collision step does for the player in slot `p`: the score grows
/// by one for each overlapped trigger, which is destroyed; any overlap with
/// an obstacle body triggers death orchestration, unless the game is already
/// `Dead`.
pub open spec fn collision_post(
    w0: World,
    w1: World,
    g0: GameData,
    g1: GameData,
    p: int,
) -> bool {
    let hits = count_score_hits(w0, p, w0.num());
    let dead = exists|i: int| #[trigger] player_hits_solid(w0, p, i);
    if dead && !(g0.game_state is Dead) {
        &&& g1.game_state is Dead
        &&& g1.score == 0
        &&& forall|i: int| 0 <= i < w0.num() ==> #[trigger] collision_death_slot(w0, w1, p, i)
    } else {
        &&& g1.game_state == g0.game_state
        &&& g1.score == g0.score + hits
        &&& forall|i: int| 0 <= i < w0.num() ==> #[trigger] collision_score_slot(w0, w1, p, i)
    }
}

/// What one collision step does, relating the stores and game data before
/// and after it: the step follows `collision_post` for the (single) live,
/// placed player, and changes nothing when there is none.
pub open spec fn collision_spec(w0: World, w1: World, g0: GameData, g1: GameData) -> bool {
    &&& w1.num() == w0.num()
    &&& forall|p: int|
        w0.is_player(p) && w0.transforms@[p] is Some
            ==> #[trigger] collision_post(w0, w1, g0, g1, p)
    &&& (forall|p: int| !(#[trigger] w0.is_player(p)) || w0.transforms@[p] is None) ==> {
        &&& eq_view(w0, w1)
        &&& g1 == g0
    }
}

/// Collision and scoring for the single player: each overlapped score
/// trigger adds one point and disappears, and touching any obstacle body
/// triggers death orchestration.  Without a live, placed player nothing
/// happens.
pub fn player_collision_system(w: &mut World, game: &mut GameData)
    requires
        old(w).wf(),
        old(w).at_most_one_player(),
        players_not_collidable(*old(w)),
        pipes_are_solid(*old(w)),
        old(w).pos_bounded(MAX_COORD_STEPPED as int),
        old(w).ext_bounded(MAX_EXTENT as int),
        old(game).score + old(w).num() <= u32::MAX,
    ensures
        final(w).wf(),
        collision_spec(*old(w), *final(w), *old(game), *final(game)),
        old(w).vel_bounded(MAX_VELOCITY_STEPPED as int) ==> final(w).vel_bounded(
            MAX_VELOCITY_STEPPED as int,
        ),
        old(w).pos_bounded(MAX_COORD_STEPPED as int) ==> final(w).pos_bounded(
            MAX_COORD_STEPPED as int,
        ),
        old(w).ext_bounded(MAX_EXTENT as int) ==> final(w).ext_bounded(MAX_EXTENT as int),
        old(w).at_most_one_player() ==> final(w).at_most_one_player(),
        players_not_collidable(*old(w)) ==> players_not_collidable(*final(w)),
        pipes_are_solid(*old(w)) ==> pipes_are_solid(*final(w)),
        forall|i: int|
            0 <= i < old(w).num() && !old(w).alive@[i] ==> !final(w).alive@[i],
{
    let ghost w0 = *w;
    let ghost g0 = *game;
    let p = match w.find_player() {
        Some(p) => p,
        None => {
            return ;
        },
    };
    let (px, py) = match w.transforms[p] {
        Some(t) => (t.x, t.y),
        None => {
            proof {
                assert forall|q: int|
                    !(#[trigger] w0.is_player(q)) || w0.transforms@[q] is None by {
                    if w0.is_player(q) {
                        assert(w0.is_player(p as int));
                    }
                }
            }
            return ;
        },
    };
    let ghost pg = p as int;
    let n = w.alive.len();

    // Scoring pass: test every score trigger against the player's shrunk box.
    let mut i: usize = 0;
    while i < n
        invariant
            w.wf(),
            w0.wf(),
            n == w.num(),
            n == w0.num(),
            i <= n,
            g0.score + w0.num() <= u32::MAX,
            players_not_collidable(w0),
            pipes_are_solid(w0),
            w0.pos_bounded(MAX_COORD_STEPPED as int),
            w0.ext_bounded(MAX_EXTENT as int),
            w0.is_player(pg),
            p as int == pg,
            w0.transforms@[pg] is Some,
            px == w0.pos(pg).x,
            py == w0.pos(pg).y,
            game.score == g0.score + count_score_hits(w0, pg, i as int),
            game.game_state == g0.game_state,
            forall|j: int| 0 <= j < i ==> #[trigger] collision_score_slot(w0, *w, pg, j),
            forall|j: int| i <= j < n ==> #[trigger] slot_unchanged(w0, *w, j),
        decreases n - i,
    {
        let ghost w_in = *w;
        let mut hit = false;
        if w.alive[i] {
            match (w.colliders[i], w.transforms[i]) {
                (Some(c), Some(t)) => {
                    if c == Collider::ScoreGiver {
                        proof {
                            assert(slot_unchanged(w0, *w, i as int));
                            assert(-MAX_COORD_STEPPED <= t.x <= MAX_COORD_STEPPED);
                            assert(-MAX_COORD_STEPPED <= t.y <= MAX_COORD_STEPPED);
                        }
                        if collide(px, py, PLAYER_HITBOX_HALF, PLAYER_HITBOX_HALF, t.x, t.y,
                            SCORE_BOX_HALF_WIDTH, SCORE_BOX_HALF_HEIGHT) {
                            hit = true;
                        }
                    }
                },
                _ => {},
            }
        }
        proof {
            assert(slot_unchanged(w0, *w, i as int));
            assert(hit == player_box_hits_score(w0, pg, i as int));
            assert(count_score_hits(w0, pg, i as int + 1) == count_score_hits(w0, pg, i as int)
                + if player_box_hits_score(w0, pg, i as int) {
                1int
            } else {
                0int
            });
            lemma_count_score_hits_bounds(w0, pg, i as int);
        }
        if hit {
            game.score = game.score + 1;
            w.destroy(i);
        }
        proof {
            assert forall|j: int| 0 <= j < i + 1 implies #[trigger] collision_score_slot(
                w0,
                *w,
                pg,
                j,
            ) by {
                if j < i {
                    assert(slot_unchanged(w_in, *w, j));
                    assert(collision_score_slot(w0, w_in, pg, j));
                } else {
                    assert(slot_unchanged(w0, w_in, j));
                }
            }
            assert forall|j: int| i + 1 <= j < n implies #[trigger] slot_unchanged(
                w0,
                *w,
                j,
            ) by {
                assert(slot_unchanged(w_in, *w, j));
                assert(slot_unchanged(w0, w_in, j));
            }
        }
        i += 1;
    }
    let ghost w_scored = *w;

    // Obstacle pass: any overlap with an obstacle body kills.
    let mut did_collide = false;
    let mut k: usize = 0;
    while k < n
        invariant
            w.wf(),
            w0.wf(),
            n == w.num(),
            n == w0.num(),
            k <= n,
            *w == w_scored,
            players_not_collidable(w0),
            pipes_are_solid(w0),
            w0.pos_bounded(MAX_COORD_STEPPED as int),
            w0.ext_bounded(MAX_EXTENT as int),
            w0.is_player(pg),
            p as int == pg,
            w0.transforms@[pg] is Some,
            px == w0.pos(pg).x,
            py == w0.pos(pg).y,
            forall|j: int| 0 <= j < n ==> #[trigger] collision_score_slot(w0, *w, pg, j),
            did_collide ==> exists|j: int| #[trigger] player_hits_solid(w0, pg, j),
            !did_collide ==> forall|j: int|
                0 <= j < k ==> !#[trigger] player_hits_solid(w0, pg, j),
        decreases n - k,
    {
        if w.alive[k] && w.pipes[k] {
            proof {
                assert(collision_score_slot(w0, *w, pg, k as int));
                assert(!player_box_hits_score(w0, pg, k as int));
                assert(slot_unchanged(w0, *w, k as int));
            }
            match (w.transforms[k], w.sizes[k]) {
                (Some(t), Some(s)) => {
                    proof {
                        assert(w0.transforms@[k as int] is Some);
                        assert(w0.sizes@[k as int] is Some);
                    }
                    if collide(px, py, PLAYER_HITBOX_HALF, PLAYER_HITBOX_HALF, t.x, t.y, s.hx,
                        s.hy) {
                        did_collide = true;
                        proof {
                            assert(player_hits_solid(w0, pg, k as int));
                        }
                    }
                },
                _ => {},
            }
        }
        proof {
            if !did_collide {
                assert forall|j: int| 0 <= j < k + 1 implies !#[trigger] player_hits_solid(
                    w0,
                    pg,
                    j,
                ) by {
                    if j == k {
                        assert(collision_score_slot(w0, *w, pg, j));
                        assert(slot_unchanged(w0, *w, j) || slot_cleared(*w, j));
                    }
                }
            }
        }
        k += 1;
    }

    if did_collide {
        trigger_death(w, game);
    }

    proof {
        let hits = count_score_hits(w0, pg, w0.num());
        let dead = exists|i: int| #[trigger] player_hits_solid(w0, pg, i);
        assert(did_collide == dead);
        if dead && !(g0.game_state is Dead) {
            assert forall|i: int| 0 <= i < w0.num() implies #[trigger] collision_death_slot(
                w0,
                *w,
                pg,
                i,
            ) by {
                assert(collision_score_slot(w0, w_scored, pg, i));
                assert(death_post(w_scored, *w, i));
                if player_box_hits_score(w0, pg, i) {
                    assert(slot_cleared(w_scored, i));
                    assert(!is_killable(w_scored, i));
                    assert(slot_unchanged(w_scored, *w, i));
                } else {
                    assert(slot_unchanged(w0, w_scored, i));
                }
            }
        } else {
            if dead {
                assert(eq_view(w_scored, *w));
            }
            assert forall|i: int| 0 <= i < w0.num() implies #[trigger] collision_score_slot(
                w0,
                *w,
                pg,
                i,
            ) by {
                assert(collision_score_slot(w0, w_scored, pg, i));
            }
        }
        assert forall|q: int|
            w0.is_player(q) && w0.transforms@[q] is Some implies #[trigger] collision_post(
            w0,
            *w,
            g0,
            *game,
            q,
        ) by {
            assert(w0.is_player(pg));
            assert(q == pg);
        }
        // Bounds survive: the scoring pass only destroys, and death
        // orchestration preserves them.
        if w0.vel_bounded(MAX_VELOCITY_STEPPED as int) {
            assert forall|i: int|
                0 <= i < w_scored.num() && (#[trigger] w_scored.velocities@[i]) is Some implies {
                &&& -MAX_VELOCITY_STEPPED <= w_scored.vel(i).vx <= MAX_VELOCITY_STEPPED
                &&& -MAX_VELOCITY_STEPPED <= w_scored.vel(i).vy <= MAX_VELOCITY_STEPPED
            } by {
                assert(collision_score_slot(w0, w_scored, pg, i));
                assert(w0.velocities@[i] is Some ==> {
                    &&& -MAX_VELOCITY_STEPPED <= w0.vel(i).vx <= MAX_VELOCITY_STEPPED
                    &&& -MAX_VELOCITY_STEPPED <= w0.vel(i).vy <= MAX_VELOCITY_STEPPED
                });
            }
        }
        if w0.pos_bounded(MAX_COORD_STEPPED as int) {
            assert forall|i: int|
                0 <= i < w_scored.num() && (#[trigger] w_scored.transforms@[i]) is Some implies {
                &&& -MAX_COORD_STEPPED <= w_scored.pos(i).x <= MAX_COORD_STEPPED
                &&& -MAX_COORD_STEPPED <= w_scored.pos(i).y <= MAX_COORD_STEPPED
            } by {
                assert(collision_score_slot(w0, w_scored, pg, i));
                assert(w0.transforms@[i] is Some ==> {
                    &&& -MAX_COORD_STEPPED <= w0.pos(i).x <= MAX_COORD_STEPPED
                    &&& -MAX_COORD_STEPPED <= w0.pos(i).y <= MAX_COORD_STEPPED
                });
            }
        }
        if w0.ext_bounded(MAX_EXTENT as int) {
            assert forall|i: int|
                0 <= i < w_scored.num() && (#[trigger] w_scored.sizes@[i]) is Some implies {
                &&& 0 <= w_scored.sizes@[i]->Some_0.hx <= MAX_EXTENT
                &&& 0 <= w_scored.sizes@[i]->Some_0.hy <= MAX_EXTENT
            } by {
                assert(collision_score_slot(w0, w_scored, pg, i));
                assert(w0.sizes@[i] is Some ==> {
                    &&& 0 <= w0.sizes@[i]->Some_0.hx <= MAX_EXTENT
                    &&& 0 <= w0.sizes@[i]->Some_0.hy <= MAX_EXTENT
                });
            }
        }
        if w0.at_most_one_player() {
            assert forall|i: int, j: int|
                #[trigger] w_scored.is_player(i) && #[trigger] w_scored.is_player(j) implies i
                == j by {
                assert(collision_score_slot(w0, w_scored, pg, i));
                assert(collision_score_slot(w0, w_scored, pg, j));
                assert(w0.is_player(i) && w0.is_player(j));
            }
        }
        assert forall|i: int| 0 <= i < w0.num() && !w0.alive@[i] implies !w.alive@[i] by {
            if dead && !(g0.game_state is Dead) {
                assert(collision_death_slot(w0, *w, pg, i));
            } else {
                assert(collision_score_slot(w0, *w, pg, i));
            }
        }
        if players_not_collidable(w0) {
            assert forall|i: int| #[trigger] w.is_player(i) implies w.colliders@[i] is None by {
                if dead && !(g0.game_state is Dead) {
                    assert(collision_death_slot(w0, *w, pg, i));
                } else {
                    assert(collision_score_slot(w0, *w, pg, i));
                }
                assert(w0.is_player(i));
            }
        }
        if pipes_are_solid(w0) {
            assert forall|i: int|
                0 <= i < w.num() && #[trigger] w.pipes@[i] implies w.colliders@[i] == Some(
                Collider::Solid,
            ) by {
                if dead && !(g0.game_state is Dead) {
                    assert(collision_death_slot(w0, *w, pg, i));
                } else {
                    assert(collision_score_slot(w0, *w, pg, i));
                }
                assert(w0.pipes@[i]);
            }
        }
    }
}

/// The bounds step touches exactly the live player entities that have both
/// a transform and a velocity.
pub open spec fn bounds_applies(w: World, i: int) -> bool {
    w.is_player(i) && w.transforms@[i] is Some && w.velocities@[i] is Some
}

/// Slot `p` after a ceiling bounce: clamped to the ceiling with a small
/// downward velocity, every other component untouched.
pub open spec fn bounce_slot(w0: World, w1: World, p: int) -> bool {
    &&& w1.transforms@[p] == Some(
        Transform { x: w0.pos(p).x, y: CEILING_Y, depth: w0.pos(p).depth },
    )
    &&& w1.velocities@[p] == Some(Velocity { vx: w0.vel(p).vx, vy: BOUNCE_VELOCITY })
    &&& w1.alive@[p] == w0.alive@[p]
    &&& w1.affected_by_gravity@[p] == w0.affected_by_gravity@[p]
    &&& w1.colliders@[p] == w0.colliders@[p]
    &&& w1.sizes@[p] == w0.sizes@[p]
    &&& w1.offscreen_deletion@[p] == w0.offscreen_deletion@[p]
    &&& w1.players@[p] == w0.players@[p]
    &&& w1.pipes@[p] == w0.pipes@[p]
    &&& w1.animations@[p] == w0.animations@[p]
    &&& w1.frame_timers@[p] == w0.frame_timers@[p]
    &&& w1.rotators@[p] == w0.rotators@[p]
    &&& w1.rotations@[p] == w0.rotations@[p]
    &&& w1.sprite_indices@[p] == w0.sprite_indices@[p]
    &&& w1.start_screens@[p] == w0.start_screens@[p]
    &&& w1.end_screens@[p] == w0.end_screens@[p]
    &&& w1.visible@[p] == w0.visible@[p]
}

/// What the bounds step does for the player in slot `p`: above the ceiling
/// they are clamped there and bounced down; below the floor death
/// orchestration runs, unless the game is already `Dead`; otherwise nothing
/// changes.
pub open spec fn bounds_post(w0: World, w1: World, g0: GameData, g1: GameData, p: int) -> bool {
    let y = w0.pos(p).y;
    if y > CEILING_Y {
        &&& g1 == g0
        &&& bounce_slot(w0, w1, p)
        &&& forall|i: int|
            0 <= i < w0.num() && i != p ==> #[trigger] slot_unchanged(w0, w1, i)
    } else if y < -HALF_SCREEN_HEIGHT && !(g0.game_state is Dead) {
        &&& g1.game_state is Dead
        &&& g1.score == 0
        &&& forall|i: int| 0 <= i < w0.num() ==> #[trigger] death_post(w0, w1, i)
    } else {
        &&& g1 == g0
        &&& eq_view(w0, w1)
    }
}

/// What one bounds step does, relating the stores and game data before and
/// after it: the step follows `bounds_post` for the (single) applicable
/// player, and changes nothing when there is none.
pub open spec fn bounds_spec(w0: World, w1: World, g0: GameData, g1: GameData) -> bool {
    &&& w1.num() == w0.num()
    &&& forall|p: int| bounds_applies(w0, p) ==> #[trigger] bounds_post(w0, w1, g0, g1, p)
    &&& (forall|p: int| !#[trigger] bounds_applies(w0, p)) ==> {
        &&& eq_view(w0, w1)
        &&& g1 == g0
    }
}

/// Keeps the single player inside the vertical play field: bumping the
/// ceiling clamps the position and bounces them down a little, and falling
/// below the floor triggers death orchestration.
pub fn player_bounds_system(w: &mut World, game: &mut GameData)
    requires
        old(w).wf(),
        old(w).at_most_one_player(),
    ensures
        final(w).wf(),
        bounds_spec(*old(w), *final(w), *old(game), *final(game)),
        old(w).vel_bounded(MAX_VELOCITY_STEPPED as int) ==> final(w).vel_bounded(
            MAX_VELOCITY_STEPPED as int,
        ),
        old(w).pos_bounded(MAX_COORD_STEPPED as int) ==> final(w).pos_bounded(
            MAX_COORD_STEPPED as int,
        ),
        old(w).ext_bounded(MAX_EXTENT as int) ==> final(w).ext_bounded(MAX_EXTENT as int),
        old(w).at_most_one_player() ==> final(w).at_most_one_player(),
        players_not_collidable(*old(w)) ==> players_not_collidable(*final(w)),
        pipes_are_solid(*old(w)) ==> pipes_are_solid(*final(w)),
        forall|i: int|
            0 <= i < old(w).num() && !old(w).alive@[i] ==> !final(w).alive@[i],
{
    let ghost w0 = *w;
    let ghost g0 = *game;
    let p = match w.find_player() {
        Some(p) => p,
        None => {
            proof {
                assert forall|q: int| !#[trigger] bounds_applies(w0, q) by {
                    if w0.is_player(q) {
                        assert(false);
                    }
                }
            }
            return ;
        },
    };
    let ghost pg = p as int;
    let (t, v) = match (w.transforms[p], w.velocities[p]) {
        (Some(t), Some(v)) => (t, v),
        _ => {
            proof {
                assert forall|q: int| !#[trigger] bounds_applies(w0, q) by {
                    if w0.is_player(q) {
                        assert(q == pg);
                    }
                }
            }
            return ;
        },
    };
    proof {
        assert(bounds_applies(w0, pg));
        assert forall|q: int| bounds_applies(w0, q) implies q == pg by {
            assert(w0.is_player(pg));
        }
    }
    if t.y > CEILING_Y {
        w.attach_transform(p, Transform { x: t.x, y: CEILING_Y, depth: t.depth });
        w.attach_velocity(p, Velocity { vx: v.vx, vy: BOUNCE_VELOCITY });
        proof {
            assert forall|i: int|
                0 <= i < w0.num() && i != pg implies #[trigger] slot_unchanged(w0, *w, i) by {}
            if w0.vel_bounded(MAX_VELOCITY_STEPPED as int) {
                assert forall|i: int|
                    0 <= i < w.num() && (#[trigger] w.velocities@[i]) is Some implies {
                    &&& -MAX_VELOCITY_STEPPED <= w.vel(i).vx <= MAX_VELOCITY_STEPPED
                    &&& -MAX_VELOCITY_STEPPED <= w.vel(i).vy <= MAX_VELOCITY_STEPPED
                } by {
                    assert(w0.velocities@[i] is Some ==> {
                        &&& -MAX_VELOCITY_STEPPED <= w0.vel(i).vx <= MAX_VELOCITY_STEPPED
                        &&& -MAX_VELOCITY_STEPPED <= w0.vel(i).vy <= MAX_VELOCITY_STEPPED
                    });
                }
            }
            if w0.pos_bounded(MAX_COORD_STEPPED as int) {
                assert forall|i: int|
                    0 <= i < w.num() && (#[trigger] w.transforms@[i]) is Some implies {
                    &&& -MAX_COORD_STEPPED <= w.pos(i).x <= MAX_COORD_STEPPED
                    &&& -MAX_COORD_STEPPED <= w.pos(i).y <= MAX_COORD_STEPPED
                } by {
                    assert(w0.transforms@[i] is Some ==> {
                        &&& -MAX_COORD_STEPPED <= w0.pos(i).x <= MAX_COORD_STEPPED
                        &&& -MAX_COORD_STEPPED <= w0.pos(i).y <= MAX_COORD_STEPPED
                    });
                }
            }
            if w0.at_most_one_player() {
                assert forall|i: int, j: int|
                    #[trigger] w.is_player(i) && #[trigger] w.is_player(j) implies i == j by {
                    assert(w0.is_player(i) && w0.is_player(j));
                }
            }
            assert forall|i: int|
                0 <= i < w0.num() && !w0.alive@[i] implies !w.alive@[i] by {
                if i != pg {
                    assert(slot_unchanged(w0, *w, i));
                }
            }
            if players_not_collidable(w0) {
                assert forall|i: int|
                    #[trigger] w.is_player(i) implies w.colliders@[i] is None by {
                    if i != pg {
                        assert(slot_unchanged(w0, *w, i));
                    }
                    assert(w0.is_player(i));
                }
            }
            if pipes_are_solid(w0) {
                assert forall|i: int|
                    0 <= i < w.num() && #[trigger] w.pipes@[i] implies w.colliders@[i] == Some(
                    Collider::Solid,
                ) by {
                    if i != pg {
                        assert(slot_unchanged(w0, *w, i));
                    }
                    assert(w0.pipes@[i]);
                }
            }
        }
    } else if t.y < -HALF_SCREEN_HEIGHT {
        trigger_death(w, game);
    }
}

/// The rotation step touches exactly the live entities that have both a
/// velocity and a rotator configuration.
pub open spec fn rotator_applies(w: World, i: int) -> bool {
    w.alive@[i] && w.velocities@[i] is Some && w.rotators@[i] is Some
}

/// The visual rotation for vertical velocity `vy`: the fraction
/// `(vy + velocity_max) / (2 * velocity_max)` of the way from `angle_down`
/// to `angle_up`, clamped to that span, in integer milliradians (the
/// division rounds towards `angle_down`).
pub open spec fn spec_rotation(vy: int, r: VelocityRotator) -> int {
    let span = 2 * r.velocity_max;
    let t0 = vy + r.velocity_max;
    let t = if t0 < 0 {
        0
    } else if t0 > span {
        span
    } else {
        t0
    };
    ((r.angle_down + MAX_ANGLE) * (span - t) + (r.angle_up + MAX_ANGLE) * t) / span - MAX_ANGLE
}

/// What the rotation step does to the rotation output of slot `i`.
pub open spec fn rotator_post(w0: World, w1: World, i: int) -> bool {
    if rotator_applies(w0, i) {
        w1.rotations@[i] == spec_rotation(w0.vel(i).vy as int, w0.rotators@[i]->Some_0)
    } else {
        w1.rotations@[i] == w0.rotations@[i]
    }
}

/// What one rotation step does, relating the stores before and after it:
/// every slot follows `rotator_post`, and nothing beyond the rotation
/// outputs changes.
pub open spec fn rotator_spec(w0: World, w1: World) -> bool {
    &&& w1.num() == w0.num()
    &&& w1.rotators@ == w0.rotators@
    &&& w1.sprite_indices@ == w0.sprite_indices@
    &&& w1.visible@ == w0.visible@
    &&& same_motion(w0, w1)
    &&& same_tags(w0, w1)
    &&& same_collision(w0, w1)
    &&& same_animation(w0, w1)
    &&& forall|i: int| 0 <= i < w1.num() ==> #[trigger] rotator_post(w0, w1, i)
}

/// Derives a purely cosmetic rotation from each rotator-configured entity's
/// vertical velocity.
pub fn velocity_rotator_system(w: &mut World)
    requires
        old(w).wf(),
        old(w).vel_bounded(MAX_VELOCITY_STEPPED as int),
    ensures
        final(w).wf(),
        rotator_spec(*old(w), *final(w)),
        old(w).at_most_one_player() ==> final(w).at_most_one_player(),
        players_not_collidable(*old(w)) ==> players_not_collidable(*final(w)),
        pipes_are_solid(*old(w)) ==> pipes_are_solid(*final(w)),
{
    let ghost w0 = *w;
    let n = w.alive.len();
    let mut i: usize = 0;
    while i < n
        invariant
            w.wf(),
            w0.wf(),
            n == w.num(),
            n == w0.num(),
            i <= n,
            w0.vel_bounded(MAX_VELOCITY_STEPPED as int),
            w.rotators@ == w0.rotators@,
            w.sprite_indices@ == w0.sprite_indices@,
            w.visible@ == w0.visible@,
            same_motion(w0, *w),
            same_tags(w0, *w),
            same_collision(w0, *w),
            same_animation(w0, *w),
            forall|j: int| 0 <= j < i ==> #[trigger] rotator_post(w0, *w, j),
            forall|j: int| i <= j < n ==> w.rotations@[j] == w0.rotations@[j],
        decreases n - i,
    {
        let ghost w_in = *w;
        if w.alive[i] {
            match (w.velocities[i], w.rotators[i]) {
                (Some(v), Some(r)) => {
                    proof {
                        assert(w0.velocities@[i as int] is Some);
                        assert(w0.rotators@[i as int] is Some);
                        assert(-MAX_VELOCITY_STEPPED <= v.vy <= MAX_VELOCITY_STEPPED);
                        assert(r.wf());
                    }
                    let span = 2 * r.velocity_max;
                    let mut t = v.vy + r.velocity_max;
                    if t < 0 {
                        t = 0;
                    }
                    if t > span {
                        t = span;
                    }
                    proof {
                        assert(0 <= (r.angle_down + MAX_ANGLE) * (span - t) <= (2 * MAX_ANGLE) * (
                        2 * MAX_VELOCITY)) by (nonlinear_arith)
                            requires
                                0 <= r.angle_down + MAX_ANGLE <= 2 * MAX_ANGLE,
                                0 <= span - t <= 2 * MAX_VELOCITY,
                        ;
                        assert(0 <= (r.angle_up + MAX_ANGLE) * t <= (2 * MAX_ANGLE) * (2
                            * MAX_VELOCITY)) by (nonlinear_arith)
                            requires
                                0 <= r.angle_up + MAX_ANGLE <= 2 * MAX_ANGLE,
                                0 <= t <= 2 * MAX_VELOCITY,
                        ;
                    }
                    let num = (r.angle_down + MAX_ANGLE) * (span - t) + (r.angle_up + MAX_ANGLE)
                        * t;
                    proof {
                        vstd::arithmetic::div_mod::lemma_div_pos_is_pos(num as int, span as int);
                        vstd::arithmetic::div_mod::lemma_div_nonincreasing(num as int, span as int);
                    }
                    let rot = num / span - MAX_ANGLE;
                    w.rotations[i] = rot;
                },
                _ => {},
            }
        }
        proof {
            assert forall|j: int| 0 <= j < i + 1 implies #[trigger] rotator_post(w0, *w, j) by {
                if j < i {
                    assert(w.rotations@[j] == w_in.rotations@[j]);
                    assert(rotator_post(w0, w_in, j));
                } else {
                    assert(w_in.rotations@[j] == w0.rotations@[j]);
                }
            }
        }
        i += 1;
    }
    proof {
        if w0.at_most_one_player() {
            assert forall|i: int, j: int|
                #[trigger] w.is_player(i) && #[trigger] w.is_player(j) implies i == j by {
                assert(w0.is_player(i) && w0.is_player(j));
            }
        }
        if players_not_collidable(w0) {
            assert forall|i: int| #[trigger] w.is_player(i) implies w.colliders@[i] is None by {
                assert(w0.is_player(i));
            }
        }
        if pipes_are_solid(w0) {
            assert forall|i: int|
                0 <= i < w.num() && #[trigger] w.pipes@[i] implies w.colliders@[i] == Some(
                Collider::Solid,
            ) by {
                assert(w0.pipes@[i]);
            }
        }
    }
}

/// The clip-selection step touches exactly the live entities that have both
/// animation clips and a velocity.
pub open spec fn animator_applies(w: World, i: int) -> bool {
    w.alive@[i] && w.animations@[i] is Some && w.velocities@[i] is Some
}

/// What the clip-selection step does to the animation clips of slot `i`:
/// clip 0 (rising) is selected while moving up, clip 1 (falling) otherwise;
/// the clips themselves and their frame positions are untouched.
pub open spec fn animator_post(w0: World, w1: World, i: int) -> bool {
    if animator_applies(w0, i) {
        &&& w1.animations@[i] is Some
        &&& w1.animations@[i]->Some_0.animations@ == w0.animations@[i]->Some_0.animations@
        &&& w1.animations@[i]->Some_0.current_animation == (if w0.vel(i).vy > 0 {
            0int
        } else {
            1int
        })
    } else {
        w1.animations@[i] == w0.animations@[i]
    }
}

/// What one clip-selection step does, relating the stores before and after
/// it: every slot follows `animator_post`, and nothing beyond the selected
/// clip indices changes.
pub open spec fn animator_spec(w0: World, w1: World) -> bool {
    &&& w1.num() == w0.num()
    &&& w1.frame_timers@ == w0.frame_timers@
    &&& same_motion(w0, w1)
    &&& same_tags(w0, w1)
    &&& same_collision(w0, w1)
    &&& same_cosmetic(w0, w1)
    &&& forall|i: int| 0 <= i < w1.num() ==> #[trigger] animator_post(w0, w1, i)
}

/// Selects each animated entity's clip from the sign of its vertical
/// velocity: rising entities flap, falling ones glide.
pub fn velocity_animator_system(w: &mut World)
    requires
        old(w).wf(),
    ensures
        final(w).wf(),
        animator_spec(*old(w), *final(w)),
        old(w).at_most_one_player() ==> final(w).at_most_one_player(),
        players_not_collidable(*old(w)) ==> players_not_collidable(*final(w)),
        pipes_are_solid(*old(w)) ==> pipes_are_solid(*final(w)),
{
    let ghost w0 = *w;
    let n = w.alive.len();
    let mut i: usize = 0;
    while i < n
        invariant
            w.wf(),
            w0.wf(),
            n == w.num(),
            n == w0.num(),
            i <= n,
            w.frame_timers@ == w0.frame_timers@,
            same_motion(w0, *w),
            same_tags(w0, *w),
            same_collision(w0, *w),
            same_cosmetic(w0, *w),
            forall|j: int| 0 <= j < i ==> #[trigger] animator_post(w0, *w, j),
            forall|j: int| i <= j < n ==> w.animations@[j] == w0.animations@[j],
        decreases n - i,
    {
        let ghost w_in = *w;
        let mut vy: i64 = 0;
        let mut go = false;
        if w.alive[i] {
            match w.velocities[i] {
                Some(v) => {
                    if w.animations[i].is_some() {
                        vy = v.vy;
                        go = true;
                    }
                },
                None => {},
            }
        }
        if go {
            let a_opt = w.animations.remove(i);
            match a_opt {
                Some(mut a) => {
                    a.current_animation = if vy > 0 {
                        0
                    } else {
                        1
                    };
                    w.animations.insert(i, Some(a));
                },
                None => {
                    w.animations.insert(i, None);
                },
            }
            proof {
                assert(w.animations@ =~= w_in.animations@.update(
                    i as int,
                    w.animations@[i as int],
                ));
            }
        }
        proof {
            assert forall|j: int| 0 <= j < i + 1 implies #[trigger] animator_post(w0, *w, j) by {
                if j < i {
                    assert(w.animations@[j] == w_in.animations@[j]);
                    assert(animator_post(w0, w_in, j));
                } else {
                    assert(w_in.animations@[j] == w0.animations@[j]);
                }
            }
        }
        i += 1;
    }
    proof {
        if w0.at_most_one_player() {
            assert forall|i: int, j: int|
                #[trigger] w.is_player(i) && #[trigger] w.is_player(j) implies i == j by {
                assert(w0.is_player(i) && w0.is_player(j));
            }
        }
        if players_not_collidable(w0) {
            assert forall|i: int| #[trigger] w.is_player(i) implies w.colliders@[i] is None by {
                assert(w0.is_player(i));
            }
        }
        if pipes_are_solid(w0) {
            assert forall|i: int|
                0 <= i < w.num() && #[trigger] w.pipes@[i] implies w.colliders@[i] == Some(
                Collider::Solid,
            ) by {
                assert(w0.pipes@[i]);
            }
        }
    }
}


/// The rotator configuration of the player sprite: up to about 0.35 pi
/// radians while rising, down to about minus 0.25 pi radians while falling,
/// saturating at 400 units per second, in milliradians.
pub const BIRD_ANGLE_UP: i64 = 1_100;

/// See `BIRD_ANGLE_UP`.
pub const BIRD_ANGLE_DOWN: i64 = -785;

/// See `BIRD_ANGLE_UP`.
pub const BIRD_VELOCITY_MAX: i64 = 400;

/// The flapping clip of the player: four frames cycling over the sprite
/// sheet, the third held longer.
pub open spec fn spec_bird_flap_frames() -> Seq<AnimationFrame> {
    seq![
        AnimationFrame { index: 0u32, time: 10i64 },
        AnimationFrame { index: 1u32, time: 10i64 },
        AnimationFrame { index: 2u32, time: 30i64 },
        AnimationFrame { index: 1u32, time: 10i64 },
    ]
}

/// The gliding clip of the player: a single held frame.
pub open spec fn spec_bird_glide_frames() -> Seq<AnimationFrame> {
    seq![AnimationFrame { index: 3u32, time: 20i64 }]
}

/// Creates the player entity at the spawn origin: subject to gravity and
/// input, with its rotator configuration, its two animation clips (flapping
/// selected) and a running frame timer.  Returns the player's id.
pub fn spawn_bird(w: &mut World) -> (id: usize)
    requires
        old(w).wf(),
        old(w).num() < usize::MAX,
    ensures
        final(w).wf(),
        id == old(w).num(),
        final(w).num() == old(w).num() + 1,
        final(w).alive@ == old(w).alive@.push(true),
        final(w).transforms@ == old(w).transforms@.push(
            Some(Transform { x: 0, y: 0, depth: PLAYER_DEPTH }),
        ),
        final(w).velocities@ == old(w).velocities@.push(Some(Velocity { vx: 0, vy: 0 })),
        final(w).affected_by_gravity@ == old(w).affected_by_gravity@.push(true),
        final(w).colliders@ == old(w).colliders@.push(None),
        final(w).sizes@ == old(w).sizes@.push(None),
        final(w).offscreen_deletion@ == old(w).offscreen_deletion@.push(false),
        final(w).players@ == old(w).players@.push(true),
        final(w).pipes@ == old(w).pipes@.push(false),
        final(w).frame_timers@ == old(w).frame_timers@.push(
            Some(FrameTimer { duration: 10, elapsed: 0 }),
        ),
        final(w).rotators@ == old(w).rotators@.push(
            Some(
                VelocityRotator {
                    angle_up: BIRD_ANGLE_UP,
                    angle_down: BIRD_ANGLE_DOWN,
                    velocity_max: BIRD_VELOCITY_MAX,
                },
            ),
        ),
        final(w).rotations@ == old(w).rotations@.push(0i64),
        final(w).sprite_indices@ == old(w).sprite_indices@.push(0u32),
        final(w).start_screens@ == old(w).start_screens@.push(false),
        final(w).end_screens@ == old(w).end_screens@.push(false),
        final(w).visible@ == old(w).visible@.push(true),
        final(w).animations@.len() == old(w).animations@.len() + 1,
        forall|j: int|
            0 <= j < old(w).num() ==> final(w).animations@[j] == old(w).animations@[j],
        final(w).animations@[id as int] is Some,
        final(w).animations@[id as int]->Some_0.current_animation == 0,
        final(w).animations@[id as int]->Some_0.animations@.len() == 2,
        final(w).animations@[id as int]->Some_0.animations@[0].frames@
            == spec_bird_flap_frames(),
        final(w).animations@[id as int]->Some_0.animations@[0].current_frame == 0,
        final(w).animations@[id as int]->Some_0.animations@[1].frames@
            == spec_bird_glide_frames(),
        final(w).animations@[id as int]->Some_0.animations@[1].current_frame == 0,
{
    let ghost w0 = *w;
    let id = w.create();
    w.attach_transform(id, Transform { x: 0, y: 0, depth: PLAYER_DEPTH });
    w.attach_velocity(id, Velocity { vx: 0, vy: 0 });
    w.mark_player(id);
    w.mark_affected_by_gravity(id);
    w.attach_frame_timer(id, FrameTimer { duration: 10, elapsed: 0 });
    w.attach_velocity_rotator(
        id,
        VelocityRotator {
            angle_up: BIRD_ANGLE_UP,
            angle_down: BIRD_ANGLE_DOWN,
            velocity_max: BIRD_VELOCITY_MAX,
        },
    );

    let mut flap: Vec<AnimationFrame> = Vec::new();
    flap.push(AnimationFrame { index: 0, time: 10 });
    flap.push(AnimationFrame { index: 1, time: 10 });
    flap.push(AnimationFrame { index: 2, time: 30 });
    flap.push(AnimationFrame { index: 1, time: 10 });
    proof {
        assert(flap@ =~= spec_bird_flap_frames());
    }
    let mut glide: Vec<AnimationFrame> = Vec::new();
    glide.push(AnimationFrame { index: 3, time: 20 });
    proof {
        assert(glide@ =~= spec_bird_glide_frames());
    }
    let mut clips: Vec<Animation> = Vec::new();
    clips.push(Animation { frames: flap, current_frame: 0 });
    clips.push(Animation { frames: glide, current_frame: 0 });
    let anims = Animations { animations: clips, current_animation: 0 };
    proof {
        assert forall|c: int| 0 <= c < anims.animations@.len() implies (#[trigger]
        anims.animations@[c]).wf() by {
            assert(anims.animations@[0].frames@ == spec_bird_flap_frames());
            assert(anims.animations@[1].frames@ == spec_bird_glide_frames());
        }
    }
    w.attach_animations(id, anims);

    proof {
        assert(w.alive@ =~= w0.alive@.push(true));
        assert(w.transforms@ =~= w0.transforms@.push(
            Some(Transform { x: 0, y: 0, depth: PLAYER_DEPTH }),
        ));
        assert(w.velocities@ =~= w0.velocities@.push(Some(Velocity { vx: 0, vy: 0 })));
        assert(w.affected_by_gravity@ =~= w0.affected_by_gravity@.push(true));
        assert(w.colliders@ =~= w0.colliders@.push(None));
        assert(w.sizes@ =~= w0.sizes@.push(None));
        assert(w.offscreen_deletion@ =~= w0.offscreen_deletion@.push(false));
        assert(w.players@ =~= w0.players@.push(true));
        assert(w.pipes@ =~= w0.pipes@.push(false));
        assert(w.frame_timers@ =~= w0.frame_timers@.push(
            Some(FrameTimer { duration: 10, elapsed: 0 }),
        ));
        assert(w.rotators@ =~= w0.rotators@.push(
            Some(
                VelocityRotator {
                    angle_up: BIRD_ANGLE_UP,
                    angle_down: BIRD_ANGLE_DOWN,
                    velocity_max: BIRD_VELOCITY_MAX,
                },
            ),
        ));
        assert(w.rotations@ =~= w0.rotations@.push(0i64));
        assert(w.sprite_indices@ =~= w0.sprite_indices@.push(0u32));
        assert(w.start_screens@ =~= w0.start_screens@.push(false));
        assert(w.end_screens@ =~= w0.end_screens@.push(false));
        assert(w.visible@ =~= w0.visible@.push(true));
    }
    id
}

} // verus!
