use vstd::prelude::*;

use crate::config::{MAX_COORD, MAX_COORD_STEPPED, MAX_DT, MAX_GRAVITY, MAX_VELOCITY,
    MAX_VELOCITY_STEPPED};
use crate::pipes::Collider;
use crate::world::{pipes_are_solid, players_not_collidable, same_animation, same_collision,
    same_cosmetic, same_tags, World};

verus! {

/// A 2D velocity in world units per second.
#[derive(Clone, Copy, PartialEq, Eq, Structural, Debug)]
pub struct Velocity {
    pub vx: i64,
    pub vy: i64,
}

/// Downward acceleration applied to gravity-affected entities, in velocity
/// units per centisecond.
#[derive(Clone, Copy, PartialEq, Eq, Structural, Debug)]
pub struct Gravity(pub i64);

/// The gravity pass touches exactly the live entities that have a velocity
/// and are marked as affected by gravity.
pub open spec fn gravity_applies(w: World, i: int) -> bool {
    w.alive@[i] && w.velocities@[i] is Some && w.affected_by_gravity@[i]
}

/// What one gravity pass does to the velocity of slot `i`.
pub open spec fn gravity_post(w0: World, w1: World, g: int, dt: int, i: int) -> bool {
    if gravity_applies(w0, i) {
        &&& w1.velocities@[i] is Some
        &&& w1.vel(i).vx == w0.vel(i).vx
        &&& w1.vel(i).vy == w0.vel(i).vy - g * dt
    } else {
        w1.velocities@[i] == w0.velocities@[i]
    }
}

/// Lowers the vertical velocity of every live, gravity-affected entity by
/// `gravity * dt`; everything else is untouched.
pub fn gravity_system(w: &mut World, gravity: &Gravity, dt: i64)
    requires
        old(w).wf(),
        0 <= gravity.0 <= MAX_GRAVITY,
        0 <= dt <= MAX_DT,
        old(w).vel_bounded(MAX_VELOCITY as int),
    ensures
        final(w).wf(),
        final(w).num() == old(w).num(),
        final(w).transforms@ == old(w).transforms@,
        same_tags(*old(w), *final(w)),
        same_collision(*old(w), *final(w)),
        same_animation(*old(w), *final(w)),
        same_cosmetic(*old(w), *final(w)),
        forall|i: int|
            0 <= i < final(w).num()
                ==> #[trigger] gravity_post(*old(w), *final(w), gravity.0 as int, dt as int, i),
        final(w).vel_bounded(MAX_VELOCITY_STEPPED as int),
{
    let ghost w0 = *w;
    proof {
        assert(0 <= gravity.0 * dt <= MAX_GRAVITY * MAX_DT) by (nonlinear_arith)
            requires
                0 <= gravity.0 <= MAX_GRAVITY,
                0 <= dt <= MAX_DT,
        ;
    }
    let n = w.alive.len();
    let mut i: usize = 0;
    while i < n
        invariant
            w.wf(),
            w0.wf(),
            n == w.num(),
            n == w0.num(),
            i <= n,
            0 <= gravity.0 <= MAX_GRAVITY,
            0 <= dt <= MAX_DT,
            0 <= gravity.0 * dt <= MAX_GRAVITY * MAX_DT,
            w0.vel_bounded(MAX_VELOCITY as int),
            w.transforms@ == w0.transforms@,
            same_tags(w0, *w),
            same_collision(w0, *w),
            same_animation(w0, *w),
            same_cosmetic(w0, *w),
            forall|j: int|
                0 <= j < i ==> #[trigger] gravity_post(w0, *w, gravity.0 as int, dt as int, j),
            forall|j: int| i <= j < n ==> w.velocities@[j] == w0.velocities@[j],
        decreases n - i,
    {
        let ghost w_in = *w;
        if w.alive[i] && w.affected_by_gravity[i] {
            match w.velocities[i] {
                Some(v) => {
                    proof {
                        assert(w.velocities@[i as int] == w0.velocities@[i as int]);
                        assert(w0.velocities@[i as int] is Some);
                        assert(-MAX_VELOCITY <= v.vy <= MAX_VELOCITY);
                    }
                    w.velocities[i] = Some(Velocity { vx: v.vx, vy: v.vy - gravity.0 * dt });
                },
                None => {},
            }
        }
        proof {
            assert forall|j: int| 0 <= j < i + 1 implies #[trigger] gravity_post(
                w0,
                *w,
                gravity.0 as int,
                dt as int,
                j,
            ) by {
                if j < i {
                    assert(w.velocities@[j] == w_in.velocities@[j]);
                    assert(gravity_post(w0, w_in, gravity.0 as int, dt as int, j));
                } else {
                    assert(w_in.velocities@[j] == w0.velocities@[j]);
                }
            }
        }
        i += 1;
    }
    proof {
        assert forall|i: int|
            0 <= i < w.num() && (#[trigger] w.velocities@[i]) is Some implies {
            &&& -MAX_VELOCITY_STEPPED <= w.vel(i).vx <= MAX_VELOCITY_STEPPED
            &&& -MAX_VELOCITY_STEPPED <= w.vel(i).vy <= MAX_VELOCITY_STEPPED
        } by {
            assert(gravity_post(w0, *w, gravity.0 as int, dt as int, i));
            assert(w0.velocities@[i] is Some ==> {
                &&& -MAX_VELOCITY <= w0.vel(i).vx <= MAX_VELOCITY
                &&& -MAX_VELOCITY <= w0.vel(i).vy <= MAX_VELOCITY
            });
        }
    }
}

/// The integration pass touches exactly the live entities that have both a
/// velocity and a transform.
pub open spec fn integration_applies(w: World, i: int) -> bool {
    w.alive@[i] && w.velocities@[i] is Some && w.transforms@[i] is Some
}

/// What one integration pass does to the position of slot `i`.
pub open spec fn integration_post(w0: World, w1: World, dt: int, i: int) -> bool {
    if integration_applies(w0, i) {
        &&& w1.transforms@[i] is Some
        &&& w1.pos(i).x == w0.pos(i).x + w0.vel(i).vx * dt
        &&& w1.pos(i).y == w0.pos(i).y + w0.vel(i).vy * dt
        &&& w1.pos(i).depth == w0.pos(i).depth
    } else {
        w1.transforms@[i] == w0.transforms@[i]
    }
}

/// Moves every live entity that has a velocity and a transform by
/// `velocity * dt`; everything else is untouched.
pub fn velocity_system(w: &mut World, dt: i64)
    requires
        old(w).wf(),
        0 <= dt <= MAX_DT,
        old(w).vel_bounded(MAX_VELOCITY_STEPPED as int),
        old(w).pos_bounded(MAX_COORD as int),
    ensures
        final(w).wf(),
        final(w).num() == old(w).num(),
        final(w).velocities@ == old(w).velocities@,
        same_tags(*old(w), *final(w)),
        same_collision(*old(w), *final(w)),
        same_animation(*old(w), *final(w)),
        same_cosmetic(*old(w), *final(w)),
        forall|i: int|
            0 <= i < final(w).num()
                ==> #[trigger] integration_post(*old(w), *final(w), dt as int, i),
        final(w).pos_bounded(MAX_COORD_STEPPED as int),
        final(w).vel_bounded(MAX_VELOCITY_STEPPED as int),
{
    let ghost w0 = *w;
    let n = w.alive.len();
    let mut i: usize = 0;
    while i < n
        invariant
            w.wf(),
            w0.wf(),
            n == w.num(),
            n == w0.num(),
            i <= n,
            0 <= dt <= MAX_DT,
            w0.vel_bounded(MAX_VELOCITY_STEPPED as int),
            w0.pos_bounded(MAX_COORD as int),
            w.velocities@ == w0.velocities@,
            same_tags(w0, *w),
            same_collision(w0, *w),
            same_animation(w0, *w),
            same_cosmetic(w0, *w),
            forall|j: int| 0 <= j < i ==> #[trigger] integration_post(w0, *w, dt as int, j),
            forall|j: int| i <= j < n ==> w.transforms@[j] == w0.transforms@[j],
        decreases n - i,
    {
        let ghost w_in = *w;
        if w.alive[i] {
            match (w.velocities[i], w.transforms[i]) {
                (Some(v), Some(t)) => {
                    proof {
                        assert(w0.velocities@[i as int] is Some);
                        assert(w0.transforms@[i as int] is Some);
                        assert(-MAX_VELOCITY_STEPPED <= v.vx <= MAX_VELOCITY_STEPPED);
                        assert(-MAX_VELOCITY_STEPPED <= v.vy <= MAX_VELOCITY_STEPPED);
                        assert(-MAX_COORD <= t.x <= MAX_COORD);
                        assert(-MAX_COORD <= t.y <= MAX_COORD);
                        assert(-MAX_VELOCITY_STEPPED * MAX_DT <= v.vx * dt <= MAX_VELOCITY_STEPPED
                            * MAX_DT) by (nonlinear_arith)
                            requires
                                -MAX_VELOCITY_STEPPED <= v.vx <= MAX_VELOCITY_STEPPED,
                                0 <= dt <= MAX_DT,
                        ;
                        assert(-MAX_VELOCITY_STEPPED * MAX_DT <= v.vy * dt <= MAX_VELOCITY_STEPPED
                            * MAX_DT) by (nonlinear_arith)
                            requires
                                -MAX_VELOCITY_STEPPED <= v.vy <= MAX_VELOCITY_STEPPED,
                                0 <= dt <= MAX_DT,
                        ;
                    }
                    let t2 = crate::world::Transform {
                        x: t.x + v.vx * dt,
                        y: t.y + v.vy * dt,
                        depth: t.depth,
                    };
                    w.transforms[i] = Some(t2);
                },
                _ => {},
            }
        }
        proof {
            assert forall|j: int| 0 <= j < i + 1 implies #[trigger] integration_post(
                w0,
                *w,
                dt as int,
                j,
            ) by {
                if j < i {
                    assert(w.transforms@[j] == w_in.transforms@[j]);
                    assert(integration_post(w0, w_in, dt as int, j));
                } else {
                    assert(w_in.transforms@[j] == w0.transforms@[j]);
                }
            }
        }
        i += 1;
    }
    proof {
        assert forall|i: int|
            0 <= i < w.num() && (#[trigger] w.transforms@[i]) is Some implies {
            &&& -MAX_COORD_STEPPED <= w.pos(i).x <= MAX_COORD_STEPPED
            &&& -MAX_COORD_STEPPED <= w.pos(i).y <= MAX_COORD_STEPPED
        } by {
            assert(integration_post(w0, *w, dt as int, i));
            if integration_applies(w0, i) {
                assert(-MAX_VELOCITY_STEPPED * MAX_DT <= w0.vel(i).vx * dt
                    <= MAX_VELOCITY_STEPPED * MAX_DT) by (nonlinear_arith)
                    requires
                        -MAX_VELOCITY_STEPPED <= w0.vel(i).vx <= MAX_VELOCITY_STEPPED,
                        0 <= dt <= MAX_DT,
                ;
                assert(-MAX_VELOCITY_STEPPED * MAX_DT <= w0.vel(i).vy * dt
                    <= MAX_VELOCITY_STEPPED * MAX_DT) by (nonlinear_arith)
                    requires
                        -MAX_VELOCITY_STEPPED <= w0.vel(i).vy <= MAX_VELOCITY_STEPPED,
                        0 <= dt <= MAX_DT,
                ;
            }
        }
    }
}

/// What one whole physics step does to slot `i`: the gravity pass first, then
/// the integration pass, so a gravity-affected entity moves by its already
/// lowered velocity.
pub open spec fn physics_post(w0: World, w1: World, g: int, dt: int, i: int) -> bool {
    let vy1: int = if w0.affected_by_gravity@[i] {
        w0.vel(i).vy - g * dt
    } else {
        w0.vel(i).vy as int
    };
    if w0.alive@[i] && w0.velocities@[i] is Some {
        &&& w1.velocities@[i] is Some
        &&& w1.vel(i).vx == w0.vel(i).vx
        &&& w1.vel(i).vy == vy1
        &&& if w0.transforms@[i] is Some {
            &&& w1.transforms@[i] is Some
            &&& w1.pos(i).x == w0.pos(i).x + w0.vel(i).vx * dt
            &&& w1.pos(i).y == w0.pos(i).y + vy1 * dt
            &&& w1.pos(i).depth == w0.pos(i).depth
        } else {
            w1.transforms@[i] == w0.transforms@[i]
        }
    } else {
        &&& w1.velocities@[i] == w0.velocities@[i]
        &&& w1.transforms@[i] == w0.transforms@[i]
    }
}

/// What one whole physics step does, relating the stores before and after
/// it: every slot follows `physics_post`, and no component beyond positions
/// and velocities is touched.
pub open spec fn physics_spec(w0: World, w1: World, g: int, dt: int) -> bool {
    &&& w1.num() == w0.num()
    &&& same_tags(w0, w1)
    &&& same_collision(w0, w1)
    &&& same_animation(w0, w1)
    &&& same_cosmetic(w0, w1)
    &&& forall|i: int| 0 <= i < w1.num() ==> #[trigger] physics_post(w0, w1, g, dt, i)
}

/// One full physics step: gravity, then integration.  For every `dt >= 0` and
/// `gravity >= 0`, a live gravity-affected entity with velocity `(vx, vy)` at
/// `(x, y)` ends the step with velocity `(vx, vy - gravity * dt)` at
/// `(x + vx * dt, y + (vy - gravity * dt) * dt)`; a live entity with a
/// velocity but no gravity marker moves by `(vx * dt, vy * dt)` unchanged.
pub fn physics_tick(w: &mut World, gravity: &Gravity, dt: i64)
    requires
        old(w).wf(),
        0 <= gravity.0 <= MAX_GRAVITY,
        0 <= dt <= MAX_DT,
        old(w).vel_bounded(MAX_VELOCITY as int),
        old(w).pos_bounded(MAX_COORD as int),
    ensures
        final(w).wf(),
        physics_spec(*old(w), *final(w), gravity.0 as int, dt as int),
        final(w).vel_bounded(MAX_VELOCITY_STEPPED as int),
        final(w).pos_bounded(MAX_COORD_STEPPED as int),
        old(w).at_most_one_player() ==> final(w).at_most_one_player(),
        players_not_collidable(*old(w)) ==> players_not_collidable(*final(w)),
        pipes_are_solid(*old(w)) ==> pipes_are_solid(*final(w)),
{
    let ghost w0 = *w;
    gravity_system(w, gravity, dt);
    let ghost w_mid = *w;
    velocity_system(w, dt);
    proof {
        assert forall|i: int| 0 <= i < w.num() implies #[trigger] physics_post(
            w0,
            *w,
            gravity.0 as int,
            dt as int,
            i,
        ) by {
            assert(gravity_post(w0, w_mid, gravity.0 as int, dt as int, i));
            assert(integration_post(w_mid, *w, dt as int, i));
        }
        if w0.at_most_one_player() {
            assert forall|i: int, j: int|
                #[trigger] w.is_player(i) && #[trigger] w.is_player(j) implies i == j by {
                assert(w0.is_player(i) && w0.is_player(j));
            }
        }
        if players_not_collidable(w0) {
            assert forall|i: int| #[trigger] w.is_player(i) implies w.colliders@[i] is None by {
                assert(w0.is_player(i));
            }
        }
        if pipes_are_solid(w0) {
            assert forall|i: int|
                0 <= i < w.num() && #[trigger] w.pipes@[i] implies w.colliders@[i] == Some(
                Collider::Solid,
            ) by {
                assert(w0.pipes@[i]);
            }
        }
    }
}

} // verus!
