use vstd::prelude::*;

use crate::collide::HalfExtents;
use crate::config::{CENTER_UNIT, CLAMP_RANGE, HALF_TURN, MAX_DT, MAX_TIMER, MAX_VELOCITY,
    MAX_COORD_STEPPED, MAX_EXTENT, MAX_VELOCITY_STEPPED, PIPE_DEPTH, PIPE_HALF_HEIGHT,
    PIPE_HALF_WIDTH, PIPE_OFFSET_Y, PIPE_SPAWN_X, SCORE_SPAWN_X, FRACTION_SCALE};
use crate::gamedata::GameData;
use crate::gamestate::GameState;
use crate::physics::Velocity;
use crate::random::{lerp_frac, uniform_from_fraction, SpawnDraws};
use crate::timer::FrameTimer;
use crate::world::{eq_view, pipes_are_solid, players_not_collidable, Transform, World};
use vstd::arithmetic::div_mod::lemma_div_is_ordered;

verus! {

/// Overlap semantics of a collidable entity: a `Solid` obstacle kills the
/// player on contact, a `ScoreGiver` trigger grants a point and disappears.
#[derive(Clone, Copy, PartialEq, Eq, Structural, Debug)]
pub enum Collider {
    Solid,
    ScoreGiver,
}

/// The spawner's state: the countdown to the next spawn and the gap center
/// of the previous pair, in thousandths of half the screen height.  The
/// center performs a bounded random walk, so successive pairs sit near each
/// other.
#[derive(Clone, Copy, PartialEq, Eq, Structural, Debug)]
pub struct SpawnTimer {
    pub timer: FrameTimer,
    pub last_pos: i64,
}

impl SpawnTimer {
    pub open spec fn wf(self) -> bool {
        &&& self.timer.wf()
        &&& -FRACTION_SCALE <= self.last_pos <= FRACTION_SCALE
    }
}

impl Default for SpawnTimer {
    /// The starting spawner state: a two second countdown, centered halfway
    /// up the upper screen half.
    fn default() -> (s: SpawnTimer)
        ensures
            s.wf(),
            s == (SpawnTimer { timer: FrameTimer { duration: 200i64, elapsed: 0i64 }, last_pos: 500i64 }),
    {
        SpawnTimer { timer: FrameTimer { duration: 200, elapsed: 0 }, last_pos: 500 }
    }
}

/// Configuration of obstacle spawning.  Times are in centiseconds, the speed
/// in world units per second, distances between the pair's bodies in
/// centiunits, and the center delta in thousandths of half the screen
/// height.
#[derive(Clone, Copy, PartialEq, Eq, Structural, Debug)]
pub struct PipeSpawnSettings {
    pub min_time: i64,
    pub max_time: i64,
    pub speed: i64,
    pub min_pipe_distance: i64,
    pub max_pipe_distance: i64,
    pub max_center_delta: i64,
}

impl PipeSpawnSettings {
    pub open spec fn wf(self) -> bool {
        &&& 0 <= self.min_time <= self.max_time <= MAX_TIMER
        &&& -MAX_VELOCITY <= self.speed <= MAX_VELOCITY
        &&& 0 <= self.min_pipe_distance <= self.max_pipe_distance <= 1_000_000
        &&& 0 <= self.max_center_delta <= FRACTION_SCALE
    }

    /// Validates a configuration; an out-of-range parameter set (for example
    /// a minimum above its maximum) is rejected.
    pub fn new(
        min_time: i64,
        max_time: i64,
        speed: i64,
        min_pipe_distance: i64,
        max_pipe_distance: i64,
        max_center_delta: i64,
    ) -> (r: Option<PipeSpawnSettings>)
        ensures
            r is Some <==> (PipeSpawnSettings {
                min_time,
                max_time,
                speed,
                min_pipe_distance,
                max_pipe_distance,
                max_center_delta,
            }).wf(),
            r is Some ==> r->Some_0 == (PipeSpawnSettings {
                min_time,
                max_time,
                speed,
                min_pipe_distance,
                max_pipe_distance,
                max_center_delta,
            }),
    {
        let s = PipeSpawnSettings {
            min_time,
            max_time,
            speed,
            min_pipe_distance,
            max_pipe_distance,
            max_center_delta,
        };
        if 0 <= min_time && min_time <= max_time && max_time <= MAX_TIMER && -MAX_VELOCITY <= speed
            && speed <= MAX_VELOCITY && 0 <= min_pipe_distance && min_pipe_distance
            <= max_pipe_distance && max_pipe_distance <= 1_000_000 && 0 <= max_center_delta
            && max_center_delta <= FRACTION_SCALE {
            Some(s)
        } else {
            None
        }
    }
}

impl Default for PipeSpawnSettings {
    /// The game's standard spawning parameters.
    fn default() -> (s: PipeSpawnSettings)
        ensures
            s.wf(),
            s == (PipeSpawnSettings {
                min_time: 90i64,
                max_time: 120i64,
                speed: -700i64,
                min_pipe_distance: 30_000i64,
                max_pipe_distance: 60_000i64,
                max_center_delta: 400i64,
            }),
    {
        PipeSpawnSettings {
            min_time: 90,
            max_time: 120,
            speed: -700,
            min_pipe_distance: 30_000,
            max_pipe_distance: 60_000,
            max_center_delta: 400,
        }
    }
}

/// The spawn delay drawn for the next pair.
pub open spec fn spec_new_duration(s: PipeSpawnSettings, draws: SpawnDraws) -> int {
    lerp_frac(s.min_time as int, s.max_time as int, draws.duration as int)
}

/// The next gap center: the previous one moved by the drawn delta, then
/// clamped so the gap never leaves the playable vertical band.
pub open spec fn spec_new_center(s: PipeSpawnSettings, last_pos: int, draws: SpawnDraws) -> int {
    let delta = lerp_frac(-s.max_center_delta as int, s.max_center_delta as int,
        draws.center as int);
    let c = last_pos - delta;
    if c > CLAMP_RANGE {
        CLAMP_RANGE as int
    } else if c < -CLAMP_RANGE {
        -CLAMP_RANGE as int
    } else {
        c
    }
}

/// Half the drawn distance between the pair's two bodies, in centiunits.
pub open spec fn spec_half_gap(s: PipeSpawnSettings, draws: SpawnDraws) -> int {
    lerp_frac(s.min_pipe_distance as int, s.max_pipe_distance as int, draws.gap as int) / 2
}

/// Where the lower obstacle body of a pair is placed.
pub open spec fn spec_lower_pipe_transform(center_cu: int, half_gap: int) -> Transform {
    Transform {
        x: PIPE_SPAWN_X,
        y: (center_cu - half_gap - PIPE_OFFSET_Y) as i64,
        depth: PIPE_DEPTH,
    }
}

/// Where the upper obstacle body of a pair is placed.
pub open spec fn spec_upper_pipe_transform(center_cu: int, half_gap: int) -> Transform {
    Transform {
        x: PIPE_SPAWN_X,
        y: (center_cu + half_gap + PIPE_OFFSET_Y) as i64,
        depth: PIPE_DEPTH,
    }
}

/// Where the score trigger of a pair is placed.
pub open spec fn spec_score_transform() -> Transform {
    Transform { x: SCORE_SPAWN_X, y: 0, depth: 0 }
}

/// What one spawner step does, relating the stores and spawner state before
/// and after it.  Outside of play nothing happens and the countdown stands
/// still; while playing the countdown accumulates `dt`; when it fires, the
/// next delay, the walked-and-clamped gap center and the half gap are drawn,
/// and exactly three entities are appended: the lower obstacle body, the
/// upper one (turned half way round), and the score trigger, all scrolling
/// left at the configured speed and marked for offscreen deletion.
pub open spec fn spawn_spec(
    w0: World,
    w1: World,
    st0: SpawnTimer,
    st1: SpawnTimer,
    state: GameState,
    settings: PipeSpawnSettings,
    dt: int,
    draws: SpawnDraws,
    spawned: bool,
) -> bool {
    &&& spawned == (state is Playing && st0.timer.elapsed + dt >= st0.timer.duration)
    &&& !(state is Playing) ==> {
        &&& eq_view(w0, w1)
        &&& st1 == st0
    }
    &&& (state is Playing && !spawned) ==> {
        &&& eq_view(w0, w1)
        &&& st1.timer.duration == st0.timer.duration
        &&& st1.timer.elapsed == st0.timer.elapsed + dt
        &&& st1.last_pos == st0.last_pos
    }
    &&& spawned ==> ({
        let c = spec_new_center(settings, st0.last_pos as int, draws);
        let ccu = c * CENTER_UNIT;
        let hg = spec_half_gap(settings, draws);
        let vel = Velocity { vx: settings.speed, vy: 0i64 };
        let size = HalfExtents { hx: PIPE_HALF_WIDTH, hy: PIPE_HALF_HEIGHT };
        &&& st1.timer.duration == spec_new_duration(settings, draws)
        &&& st1.timer.elapsed == 0
        &&& st1.last_pos == c
        &&& -CLAMP_RANGE <= c <= CLAMP_RANGE
        &&& settings.min_pipe_distance / 2 <= hg <= settings.max_pipe_distance / 2
        &&& w1.num() == w0.num() + 3
        &&& w1.alive@ == w0.alive@.push(true).push(true).push(true)
        &&& w1.transforms@ == w0.transforms@.push(Some(spec_lower_pipe_transform(ccu, hg))).push(
            Some(spec_upper_pipe_transform(ccu, hg)),
        ).push(Some(spec_score_transform()))
        &&& w1.velocities@ == w0.velocities@.push(Some(vel)).push(Some(vel)).push(Some(vel))
        &&& w1.colliders@ == w0.colliders@.push(Some(Collider::Solid)).push(
            Some(Collider::Solid),
        ).push(Some(Collider::ScoreGiver))
        &&& w1.sizes@ == w0.sizes@.push(Some(size)).push(Some(size)).push(None)
        &&& w1.pipes@ == w0.pipes@.push(true).push(true).push(false)
        &&& w1.offscreen_deletion@ == w0.offscreen_deletion@.push(true).push(true).push(true)
        &&& w1.players@ == w0.players@.push(false).push(false).push(false)
        &&& w1.affected_by_gravity@ == w0.affected_by_gravity@.push(false).push(false).push(false)
        &&& w1.animations@ == w0.animations@.push(None).push(None).push(None)
        &&& w1.frame_timers@ == w0.frame_timers@.push(None).push(None).push(None)
        &&& w1.rotators@ == w0.rotators@.push(None).push(None).push(None)
        &&& w1.rotations@ == w0.rotations@.push(0i64).push(HALF_TURN).push(0i64)
        &&& w1.sprite_indices@ == w0.sprite_indices@.push(0u32).push(0u32).push(0u32)
        &&& w1.start_screens@ == w0.start_screens@.push(false).push(false).push(false)
        &&& w1.end_screens@ == w0.end_screens@.push(false).push(false).push(false)
        &&& w1.visible@ == w0.visible@.push(true).push(true).push(true)
    })
}

/// Advances the spawn countdown while the game is playing and, each time it
/// fires, creates one obstacle pair and its score trigger just past the
/// right screen edge, all three scrolling left at the configured speed and
/// marked for offscreen deletion.  Outside of play nothing happens, and the
/// countdown does not advance.
pub fn spawn_pipe_system(
    w: &mut World,
    game: &GameData,
    settings: &PipeSpawnSettings,
    st: &mut SpawnTimer,
    dt: i64,
    draws: SpawnDraws,
) -> (spawned: bool)
    requires
        old(w).wf(),
        old(st).wf(),
        settings.wf(),
        draws.wf(),
        0 <= dt <= MAX_DT,
        old(w).num() + 3 < usize::MAX,
    ensures
        final(w).wf(),
        final(st).wf(),
        spawn_spec(*old(w), *final(w), *old(st), *final(st), game.game_state, *settings,
            dt as int, draws, spawned),
        old(w).vel_bounded(MAX_VELOCITY_STEPPED as int) ==> final(w).vel_bounded(
            MAX_VELOCITY_STEPPED as int,
        ),
        old(w).pos_bounded(MAX_COORD_STEPPED as int) ==> final(w).pos_bounded(
            MAX_COORD_STEPPED as int,
        ),
        old(w).ext_bounded(MAX_EXTENT as int) ==> final(w).ext_bounded(MAX_EXTENT as int),
        old(w).at_most_one_player() ==> final(w).at_most_one_player(),
        players_not_collidable(*old(w)) ==> players_not_collidable(*final(w)),
        pipes_are_solid(*old(w)) ==> pipes_are_solid(*final(w)),
        forall|i: int|
            0 <= i < old(w).num() && !old(w).alive@[i] ==> !final(w).alive@[i],
{
    let ghost w0 = *w;
    if !(game.game_state == GameState::Playing) {
        return false;
    }
    let fired = st.timer.advance(dt);
    if !fired {
        return false;
    }

    let dur = uniform_from_fraction(settings.min_time, settings.max_time, draws.duration);
    st.timer.set_duration(dur);

    let delta = uniform_from_fraction(
        -settings.max_center_delta,
        settings.max_center_delta,
        draws.center,
    );
    let mut center = st.last_pos - delta;
    if center > CLAMP_RANGE {
        center = CLAMP_RANGE;
    }
    if center < -CLAMP_RANGE {
        center = -CLAMP_RANGE;
    }
    st.last_pos = center;
    let center_cu = center * CENTER_UNIT;

    let full_gap = uniform_from_fraction(
        settings.min_pipe_distance,
        settings.max_pipe_distance,
        draws.gap,
    );
    let half_gap = full_gap / 2;
    proof {
        lemma_div_is_ordered(settings.min_pipe_distance as int, full_gap as int, 2);
        lemma_div_is_ordered(full_gap as int, settings.max_pipe_distance as int, 2);
    }

    let vel = Velocity { vx: settings.speed, vy: 0 };
    let size = HalfExtents { hx: PIPE_HALF_WIDTH, hy: PIPE_HALF_HEIGHT };

    let lower = w.create();
    w.attach_transform(
        lower,
        Transform { x: PIPE_SPAWN_X, y: center_cu - half_gap - PIPE_OFFSET_Y, depth: PIPE_DEPTH },
    );
    w.attach_velocity(lower, vel);
    w.mark_pipe(lower);
    w.mark_offscreen_deletion(lower);
    w.attach_collider(lower, Collider::Solid);
    w.attach_size(lower, size);

    let upper = w.create();
    w.attach_transform(
        upper,
        Transform { x: PIPE_SPAWN_X, y: center_cu + half_gap + PIPE_OFFSET_Y, depth: PIPE_DEPTH },
    );
    w.attach_velocity(upper, vel);
    w.mark_pipe(upper);
    w.mark_offscreen_deletion(upper);
    w.attach_collider(upper, Collider::Solid);
    w.attach_size(upper, size);
    w.rotations[upper] = HALF_TURN;

    let score = w.create();
    w.attach_transform(score, Transform { x: SCORE_SPAWN_X, y: 0, depth: 0 });
    w.attach_velocity(score, vel);
    w.attach_collider(score, Collider::ScoreGiver);
    w.mark_offscreen_deletion(score);

    proof {
        assert(w.alive@ =~= w0.alive@.push(true).push(true).push(true));
        assert(w.transforms@ =~= w0.transforms@.push(
            Some(spec_lower_pipe_transform(center_cu as int, half_gap as int)),
        ).push(Some(spec_upper_pipe_transform(center_cu as int, half_gap as int))).push(
            Some(spec_score_transform()),
        ));
        assert(w.velocities@ =~= w0.velocities@.push(Some(vel)).push(Some(vel)).push(Some(vel)));
        assert(w.colliders@ =~= w0.colliders@.push(Some(Collider::Solid)).push(
            Some(Collider::Solid),
        ).push(Some(Collider::ScoreGiver)));
        assert(w.sizes@ =~= w0.sizes@.push(Some(size)).push(Some(size)).push(None));
        assert(w.pipes@ =~= w0.pipes@.push(true).push(true).push(false));
        assert(w.offscreen_deletion@ =~= w0.offscreen_deletion@.push(true).push(true).push(true));
        assert(w.players@ =~= w0.players@.push(false).push(false).push(false));
        assert(w.affected_by_gravity@ =~= w0.affected_by_gravity@.push(false).push(false).push(
            false,
        ));
        assert(w.animations@ =~= w0.animations@.push(None).push(None).push(None));
        assert(w.frame_timers@ =~= w0.frame_timers@.push(None).push(None).push(None));
        assert(w.rotators@ =~= w0.rotators@.push(None).push(None).push(None));
        assert(w.rotations@ =~= w0.rotations@.push(0i64).push(HALF_TURN).push(0i64));
        assert(w.sprite_indices@ =~= w0.sprite_indices@.push(0u32).push(0u32).push(0u32));
        assert(w.start_screens@ =~= w0.start_screens@.push(false).push(false).push(false));
        assert(w.end_screens@ =~= w0.end_screens@.push(false).push(false).push(false));
        assert(w.visible@ =~= w0.visible@.push(true).push(true).push(true));

        if w0.vel_bounded(MAX_VELOCITY_STEPPED as int) {
            assert forall|i: int|
                0 <= i < w.num() && (#[trigger] w.velocities@[i]) is Some implies {
                &&& -MAX_VELOCITY_STEPPED <= w.vel(i).vx <= MAX_VELOCITY_STEPPED
                &&& -MAX_VELOCITY_STEPPED <= w.vel(i).vy <= MAX_VELOCITY_STEPPED
            } by {
                if i < w0.num() {
                    assert(w.velocities@[i] == w0.velocities@[i]);
                }
            }
        }
        if w0.pos_bounded(MAX_COORD_STEPPED as int) {
            assert forall|i: int|
                0 <= i < w.num() && (#[trigger] w.transforms@[i]) is Some implies {
                &&& -MAX_COORD_STEPPED <= w.pos(i).x <= MAX_COORD_STEPPED
                &&& -MAX_COORD_STEPPED <= w.pos(i).y <= MAX_COORD_STEPPED
            } by {
                if i < w0.num() {
                    assert(w.transforms@[i] == w0.transforms@[i]);
                }
            }
        }
        if w0.ext_bounded(MAX_EXTENT as int) {
            assert forall|i: int| 0 <= i < w.num() && (#[trigger] w.sizes@[i]) is Some implies {
                &&& 0 <= w.sizes@[i]->Some_0.hx <= MAX_EXTENT
                &&& 0 <= w.sizes@[i]->Some_0.hy <= MAX_EXTENT
            } by {
                if i < w0.num() {
                    assert(w.sizes@[i] == w0.sizes@[i]);
                }
            }
        }
        if w0.at_most_one_player() {
            assert forall|i: int, j: int|
                #[trigger] w.is_player(i) && #[trigger] w.is_player(j) implies i == j by {
                assert(w.players@[i] ==> i < w0.num());
                assert(w.players@[j] ==> j < w0.num());
                assert(w0.is_player(i) && w0.is_player(j));
            }
        }
        if players_not_collidable(w0) {
            assert forall|i: int| #[trigger] w.is_player(i) implies w.colliders@[i] is None by {
                assert(w.players@[i] ==> i < w0.num());
                assert(w0.is_player(i));
                assert(w.colliders@[i] == w0.colliders@[i]);
            }
        }
        if pipes_are_solid(w0) {
            assert forall|i: int|
                0 <= i < w.num() && #[trigger] w.pipes@[i] implies w.colliders@[i] == Some(
                Collider::Solid,
            ) by {
                if i < w0.num() {
                    assert(w.pipes@[i] == w0.pipes@[i]);
                    assert(w0.pipes@[i]);
                    assert(w.colliders@[i] == w0.colliders@[i]);
                }
            }
        }
    }
    true
}

} // verus!
