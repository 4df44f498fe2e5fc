use vstd::prelude::*;

use crate::config::{HALF_SCREEN_HEIGHT, MAX_DT};
use crate::physics::Velocity;
use crate::timer::FrameTimer;
use crate::world::{Transform, World};

verus! {

/// Where mountains enter the world, well past the right screen edge.
pub const MOUNTAIN_SPAWN_X: i64 = 225_000;

/// The countdown between background mountain spawns.
#[derive(Clone, Copy, PartialEq, Eq, Structural, Debug)]
pub struct MountainTimer(pub FrameTimer);

impl Default for MountainTimer {
    /// Mountains spawn every three seconds.
    fn default() -> (t: MountainTimer)
        ensures
            t.0.wf(),
            t == (MountainTimer(FrameTimer { duration: 300i64, elapsed: 0i64 })),
    {
        MountainTimer(FrameTimer { duration: 300, elapsed: 0 })
    }
}

/// Advances the mountain countdown and, when it fires, creates the two
/// parallax mountain layers at the bottom of the screen, the nearer one
/// scrolling twice as fast, both marked for offscreen deletion.
pub fn mountain_spawn_system(w: &mut World, mountain_timer: &mut MountainTimer, dt: i64) -> (spawned:
    bool)
    requires
        old(w).wf(),
        old(mountain_timer).0.wf(),
        0 <= dt <= MAX_DT,
        old(w).num() + 2 < usize::MAX,
    ensures
        final(w).wf(),
        final(mountain_timer).0.wf(),
        spawned == (old(mountain_timer).0.elapsed + dt >= old(mountain_timer).0.duration),
        final(mountain_timer).0.duration == old(mountain_timer).0.duration,
        !spawned ==> {
            &&& *final(w) == *old(w)
            &&& final(mountain_timer).0.elapsed == old(mountain_timer).0.elapsed + dt
        },
        spawned ==> {
            &&& final(mountain_timer).0.elapsed == 0
            &&& final(w).num() == old(w).num() + 2
            &&& final(w).alive@ == old(w).alive@.push(true).push(true)
            &&& final(w).transforms@ == old(w).transforms@.push(
                Some(Transform { x: MOUNTAIN_SPAWN_X, y: ((-HALF_SCREEN_HEIGHT) as i64), depth: 20i64 }),
            ).push(
                Some(
                    Transform { x: MOUNTAIN_SPAWN_X, y: ((-HALF_SCREEN_HEIGHT - 10_000) as i64), depth: 30i64 },
                ),
            )
            &&& final(w).velocities@ == old(w).velocities@.push(
                Some(Velocity { vx: -200i64, vy: 0i64 }),
            ).push(Some(Velocity { vx: -400i64, vy: 0i64 }))
            &&& final(w).offscreen_deletion@ == old(w).offscreen_deletion@.push(true).push(true)
            &&& final(w).affected_by_gravity@ == old(w).affected_by_gravity@.push(false).push(
                false,
            )
            &&& final(w).colliders@ == old(w).colliders@.push(None).push(None)
            &&& final(w).sizes@ == old(w).sizes@.push(None).push(None)
            &&& final(w).players@ == old(w).players@.push(false).push(false)
            &&& final(w).pipes@ == old(w).pipes@.push(false).push(false)
            &&& final(w).animations@ == old(w).animations@.push(None).push(None)
            &&& final(w).frame_timers@ == old(w).frame_timers@.push(None).push(None)
            &&& final(w).rotators@ == old(w).rotators@.push(None).push(None)
            &&& final(w).rotations@ == old(w).rotations@.push(0i64).push(0i64)
            &&& final(w).sprite_indices@ == old(w).sprite_indices@.push(0u32).push(0u32)
            &&& final(w).start_screens@ == old(w).start_screens@.push(false).push(false)
            &&& final(w).end_screens@ == old(w).end_screens@.push(false).push(false)
            &&& final(w).visible@ == old(w).visible@.push(true).push(true)
        },
{
    let ghost w0 = *w;
    let fired = mountain_timer.0.advance(dt);
    if !fired {
        return false;
    }
    let far = w.create();
    w.attach_transform(far, Transform { x: MOUNTAIN_SPAWN_X, y: -HALF_SCREEN_HEIGHT, depth: 20 });
    w.attach_velocity(far, Velocity { vx: -200, vy: 0 });
    w.mark_offscreen_deletion(far);

    let near = w.create();
    w.attach_transform(
        near,
        Transform { x: MOUNTAIN_SPAWN_X, y: -HALF_SCREEN_HEIGHT - 10_000, depth: 30 },
    );
    w.attach_velocity(near, Velocity { vx: -400, vy: 0 });
    w.mark_offscreen_deletion(near);

    proof {
        assert(w.alive@ =~= w0.alive@.push(true).push(true));
        assert(w.transforms@ =~= w0.transforms@.push(
            Some(Transform { x: MOUNTAIN_SPAWN_X, y: ((-HALF_SCREEN_HEIGHT) as i64), depth: 20i64 }),
        ).push(
            Some(Transform { x: MOUNTAIN_SPAWN_X, y: ((-HALF_SCREEN_HEIGHT - 10_000) as i64), depth: 30i64 }),
        ));
        assert(w.velocities@ =~= w0.velocities@.push(Some(Velocity { vx: -200i64, vy: 0i64 })).push(
            Some(Velocity { vx: -400i64, vy: 0i64 }),
        ));
        assert(w.offscreen_deletion@ =~= w0.offscreen_deletion@.push(true).push(true));
        assert(w.affected_by_gravity@ =~= w0.affected_by_gravity@.push(false).push(false));
        assert(w.colliders@ =~= w0.colliders@.push(None).push(None));
        assert(w.sizes@ =~= w0.sizes@.push(None).push(None));
        assert(w.players@ =~= w0.players@.push(false).push(false));
        assert(w.pipes@ =~= w0.pipes@.push(false).push(false));
        assert(w.animations@ =~= w0.animations@.push(None).push(None));
        assert(w.frame_timers@ =~= w0.frame_timers@.push(None).push(None));
        assert(w.rotators@ =~= w0.rotators@.push(None).push(None));
        assert(w.rotations@ =~= w0.rotations@.push(0i64).push(0i64));
        assert(w.sprite_indices@ =~= w0.sprite_indices@.push(0u32).push(0u32));
        assert(w.start_screens@ =~= w0.start_screens@.push(false).push(false));
        assert(w.end_screens@ =~= w0.end_screens@.push(false).push(false));
        assert(w.visible@ =~= w0.visible@.push(true).push(true));
    }
    true
}

} // verus!
