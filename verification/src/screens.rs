use vstd::prelude::*;

use crate::world::{Transform, World};

verus! {

/// Creates the start-screen and end-screen overlay entities at the origin:
/// the start screen visible, the end screen hidden until a death shows it.
/// Returns the start screen's id, then the end screen's id.
pub fn spawn_screens(w: &mut World) -> (ids: (usize, usize))
    requires
        old(w).wf(),
        old(w).num() + 2 < usize::MAX,
    ensures
        final(w).wf(),
        ids.0 == old(w).num(),
        ids.1 == old(w).num() + 1,
        final(w).num() == old(w).num() + 2,
        final(w).alive@ == old(w).alive@.push(true).push(true),
        final(w).transforms@ == old(w).transforms@.push(
            Some(Transform { x: 0, y: 0, depth: 0 }),
        ).push(Some(Transform { x: 0, y: 0, depth: 0 })),
        final(w).velocities@ == old(w).velocities@.push(None).push(None),
        final(w).affected_by_gravity@ == old(w).affected_by_gravity@.push(false).push(false),
        final(w).colliders@ == old(w).colliders@.push(None).push(None),
        final(w).sizes@ == old(w).sizes@.push(None).push(None),
        final(w).offscreen_deletion@ == old(w).offscreen_deletion@.push(false).push(false),
        final(w).players@ == old(w).players@.push(false).push(false),
        final(w).pipes@ == old(w).pipes@.push(false).push(false),
        final(w).animations@ == old(w).animations@.push(None).push(None),
        final(w).frame_timers@ == old(w).frame_timers@.push(None).push(None),
        final(w).rotators@ == old(w).rotators@.push(None).push(None),
        final(w).rotations@ == old(w).rotations@.push(0i64).push(0i64),
        final(w).sprite_indices@ == old(w).sprite_indices@.push(0u32).push(0u32),
        final(w).start_screens@ == old(w).start_screens@.push(true).push(false),
        final(w).end_screens@ == old(w).end_screens@.push(false).push(true),
        final(w).visible@ == old(w).visible@.push(true).push(false),
{
    let ghost w0 = *w;
    let start = w.create();
    w.attach_transform(start, Transform { x: 0, y: 0, depth: 0 });
    w.mark_start_screen(start);

    let end = w.create();
    w.attach_transform(end, Transform { x: 0, y: 0, depth: 0 });
    w.mark_end_screen(end);
    w.set_visible(end, false);

    proof {
        assert(w.alive@ =~= w0.alive@.push(true).push(true));
        assert(w.transforms@ =~= w0.transforms@.push(Some(Transform { x: 0, y: 0, depth: 0 }))
            .push(Some(Transform { x: 0, y: 0, depth: 0 })));
        assert(w.velocities@ =~= w0.velocities@.push(None).push(None));
        assert(w.affected_by_gravity@ =~= w0.affected_by_gravity@.push(false).push(false));
        assert(w.colliders@ =~= w0.colliders@.push(None).push(None));
        assert(w.sizes@ =~= w0.sizes@.push(None).push(None));
        assert(w.offscreen_deletion@ =~= w0.offscreen_deletion@.push(false).push(false));
        assert(w.players@ =~= w0.players@.push(false).push(false));
        assert(w.pipes@ =~= w0.pipes@.push(false).push(false));
        assert(w.animations@ =~= w0.animations@.push(None).push(None));
        assert(w.frame_timers@ =~= w0.frame_timers@.push(None).push(None));
        assert(w.rotators@ =~= w0.rotators@.push(None).push(None));
        assert(w.rotations@ =~= w0.rotations@.push(0i64).push(0i64));
        assert(w.sprite_indices@ =~= w0.sprite_indices@.push(0u32).push(0u32));
        assert(w.start_screens@ =~= w0.start_screens@.push(true).push(false));
        assert(w.end_screens@ =~= w0.end_screens@.push(false).push(true));
        assert(w.visible@ =~= w0.visible@.push(true).push(false));
    }
    (start, end)
}

} // verus!
