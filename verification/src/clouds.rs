use vstd::prelude::*;

use crate::config::{FRACTION_SCALE, HALF_SCREEN_HEIGHT, MAX_DT};
use crate::physics::Velocity;
use crate::random::{draw_fraction, lerp_frac, uniform_from_fraction};
use crate::timer::FrameTimer;
use crate::world::{Transform, World};

verus! {

/// Where clouds enter the world, well past the right screen edge.
pub const CLOUD_SPAWN_X: i64 = 225_000;

/// Draw-order depth of clouds.
pub const CLOUD_DEPTH: i64 = 200;

/// The countdown between background cloud spawns.
#[derive(Clone, Copy, PartialEq, Eq, Structural, Debug)]
pub struct CloudTimer(pub FrameTimer);

impl Default for CloudTimer {
    /// Clouds spawn every second.
    fn default() -> (t: CloudTimer)
        ensures
            t.0.wf(),
            t == (CloudTimer(FrameTimer { duration: 100i64, elapsed: 0i64 })),
    {
        CloudTimer(FrameTimer { duration: 100, elapsed: 0 })
    }
}

/// The uniform draws one cloud spawn consumes.
#[derive(Clone, Copy, PartialEq, Eq, Structural, Debug)]
pub struct CloudDraws {
    /// Picks one of the two cloud sprites.
    pub variant: u32,
    /// Picks the spawn height over the whole screen.
    pub y: u32,
    /// Picks the leftward speed.
    pub vx: u32,
    /// Picks the slight vertical drift.
    pub vy: u32,
}

impl CloudDraws {
    pub open spec fn wf(self) -> bool {
        &&& self.variant < FRACTION_SCALE
        &&& self.y < FRACTION_SCALE
        &&& self.vx < FRACTION_SCALE
        &&& self.vy < FRACTION_SCALE
    }

    /// Draws created from the thread-local random source.
    pub fn random() -> (d: CloudDraws)
        ensures
            d.wf(),
    {
        CloudDraws {
            variant: draw_fraction(),
            y: draw_fraction(),
            vx: draw_fraction(),
            vy: draw_fraction(),
        }
    }
}

/// Advances the cloud countdown and, when it fires, creates one drifting
/// background cloud at a drawn height and speed, marked for offscreen
/// deletion.  One of the two cloud sprites is picked by the variant draw.
pub fn cloud_spawn_system(
    w: &mut World,
    cloud_timer: &mut CloudTimer,
    dt: i64,
    draws: CloudDraws,
) -> (spawned: bool)
    requires
        old(w).wf(),
        old(cloud_timer).0.wf(),
        draws.wf(),
        0 <= dt <= MAX_DT,
        old(w).num() + 1 < usize::MAX,
    ensures
        final(w).wf(),
        final(cloud_timer).0.wf(),
        spawned == (old(cloud_timer).0.elapsed + dt >= old(cloud_timer).0.duration),
        final(cloud_timer).0.duration == old(cloud_timer).0.duration,
        !spawned ==> {
            &&& *final(w) == *old(w)
            &&& final(cloud_timer).0.elapsed == old(cloud_timer).0.elapsed + dt
        },
        spawned ==> ({
            let y = lerp_frac(-HALF_SCREEN_HEIGHT as int, HALF_SCREEN_HEIGHT as int,
                draws.y as int);
            let vx = lerp_frac(-700, -400, draws.vx as int);
            let vy = lerp_frac(-10, 10, draws.vy as int);
            &&& final(cloud_timer).0.elapsed == 0
            &&& final(w).num() == old(w).num() + 1
            &&& final(w).alive@ == old(w).alive@.push(true)
            &&& final(w).transforms@ == old(w).transforms@.push(
                Some(Transform { x: CLOUD_SPAWN_X, y: y as i64, depth: CLOUD_DEPTH }),
            )
            &&& final(w).velocities@ == old(w).velocities@.push(
                Some(Velocity { vx: vx as i64, vy: vy as i64 }),
            )
            &&& final(w).offscreen_deletion@ == old(w).offscreen_deletion@.push(true)
            &&& final(w).sprite_indices@ == old(w).sprite_indices@.push(
                if draws.variant < 500 {
                    0u32
                } else {
                    1u32
                },
            )
            &&& final(w).affected_by_gravity@ == old(w).affected_by_gravity@.push(false)
            &&& final(w).colliders@ == old(w).colliders@.push(None)
            &&& final(w).sizes@ == old(w).sizes@.push(None)
            &&& final(w).players@ == old(w).players@.push(false)
            &&& final(w).pipes@ == old(w).pipes@.push(false)
            &&& final(w).animations@ == old(w).animations@.push(None)
            &&& final(w).frame_timers@ == old(w).frame_timers@.push(None)
            &&& final(w).rotators@ == old(w).rotators@.push(None)
            &&& final(w).rotations@ == old(w).rotations@.push(0i64)
            &&& final(w).start_screens@ == old(w).start_screens@.push(false)
            &&& final(w).end_screens@ == old(w).end_screens@.push(false)
            &&& final(w).visible@ == old(w).visible@.push(true)
        }),
{
    let ghost w0 = *w;
    let fired = cloud_timer.0.advance(dt);
    if !fired {
        return false;
    }
    let y = uniform_from_fraction(-HALF_SCREEN_HEIGHT, HALF_SCREEN_HEIGHT, draws.y);
    let vx = uniform_from_fraction(-700, -400, draws.vx);
    let vy = uniform_from_fraction(-10, 10, draws.vy);
    let variant: u32 = if draws.variant < 500 {
        0
    } else {
        1
    };
    let id = w.create();
    w.attach_transform(id, Transform { x: CLOUD_SPAWN_X, y, depth: CLOUD_DEPTH });
    w.attach_velocity(id, Velocity { vx, vy });
    w.mark_offscreen_deletion(id);
    w.sprite_indices[id] = variant;
    proof {
        assert(w.alive@ =~= w0.alive@.push(true));
        assert(w.transforms@ =~= w0.transforms@.push(
            Some(
                Transform {
                    x: CLOUD_SPAWN_X,
                    y: lerp_frac(-HALF_SCREEN_HEIGHT as int, HALF_SCREEN_HEIGHT as int,
                        draws.y as int) as i64,
                    depth: CLOUD_DEPTH,
                },
            ),
        ));
        assert(w.velocities@ =~= w0.velocities@.push(
            Some(
                Velocity {
                    vx: lerp_frac(-700, -400, draws.vx as int) as i64,
                    vy: lerp_frac(-10, 10, draws.vy as int) as i64,
                },
            ),
        ));
        assert(w.offscreen_deletion@ =~= w0.offscreen_deletion@.push(true));
        assert(w.sprite_indices@ =~= w0.sprite_indices@.push(variant));
        assert(w.affected_by_gravity@ =~= w0.affected_by_gravity@.push(false));
        assert(w.colliders@ =~= w0.colliders@.push(None));
        assert(w.sizes@ =~= w0.sizes@.push(None));
        assert(w.players@ =~= w0.players@.push(false));
        assert(w.pipes@ =~= w0.pipes@.push(false));
        assert(w.animations@ =~= w0.animations@.push(None));
        assert(w.frame_timers@ =~= w0.frame_timers@.push(None));
        assert(w.rotators@ =~= w0.rotators@.push(None));
        assert(w.rotations@ =~= w0.rotations@.push(0i64));
        assert(w.start_screens@ =~= w0.start_screens@.push(false));
        assert(w.end_screens@ =~= w0.end_screens@.push(false));
        assert(w.visible@ =~= w0.visible@.push(true));
    }
    true
}

} // verus!
