use vstd::prelude::*;

use crate::animation::Animations;
use crate::bird::VelocityRotator;
use crate::collide::HalfExtents;
use crate::physics::Velocity;
use crate::pipes::Collider;
use crate::timer::FrameTimer;

verus! {

/// A position in the world: x and y in centiunits, plus a draw-order depth.
#[derive(Clone, Copy, PartialEq, Eq, Structural, Debug)]
pub struct Transform {
    pub x: i64,
    pub y: i64,
    pub depth: i64,
}

/// The entity store: one column per component type, dense by entity id.
/// An entity id is an index into the columns; ids are handed out in creation
/// order and a destroyed slot is never reused, so an id never resolves to
/// live data again once destroyed.
pub struct World {
    pub alive: Vec<bool>,
    pub transforms: Vec<Option<Transform>>,
    pub velocities: Vec<Option<Velocity>>,
    pub affected_by_gravity: Vec<bool>,
    pub colliders: Vec<Option<Collider>>,
    pub sizes: Vec<Option<HalfExtents>>,
    pub offscreen_deletion: Vec<bool>,
    pub players: Vec<bool>,
    pub pipes: Vec<bool>,
    pub animations: Vec<Option<Animations>>,
    pub frame_timers: Vec<Option<FrameTimer>>,
    pub rotators: Vec<Option<VelocityRotator>>,
    /// Visual rotation derived from velocity, in milliradians.
    pub rotations: Vec<i64>,
    /// Sprite sheet index currently shown, for an external renderer.
    pub sprite_indices: Vec<u32>,
    pub start_screens: Vec<bool>,
    pub end_screens: Vec<bool>,
    pub visible: Vec<bool>,
}

// Column groups used to state which components a step leaves untouched.

/// Positions and velocities agree.
pub open spec fn same_motion(a: World, b: World) -> bool {
    &&& b.transforms@ == a.transforms@
    &&& b.velocities@ == a.velocities@
}

/// Liveness and the marker components agree.
pub open spec fn same_tags(a: World, b: World) -> bool {
    &&& b.alive@ == a.alive@
    &&& b.affected_by_gravity@ == a.affected_by_gravity@
    &&& b.offscreen_deletion@ == a.offscreen_deletion@
    &&& b.players@ == a.players@
    &&& b.pipes@ == a.pipes@
    &&& b.start_screens@ == a.start_screens@
    &&& b.end_screens@ == a.end_screens@
}

/// Collider tags and collision box sizes agree.
pub open spec fn same_collision(a: World, b: World) -> bool {
    &&& b.colliders@ == a.colliders@
    &&& b.sizes@ == a.sizes@
}

/// Animation clips and frame timers agree.
pub open spec fn same_animation(a: World, b: World) -> bool {
    &&& b.animations@ == a.animations@
    &&& b.frame_timers@ == a.frame_timers@
}

/// Rotator configuration and the renderer-facing outputs agree.
pub open spec fn same_cosmetic(a: World, b: World) -> bool {
    &&& b.rotators@ == a.rotators@
    &&& b.rotations@ == a.rotations@
    &&& b.sprite_indices@ == a.sprite_indices@
    &&& b.visible@ == a.visible@
}

/// Every column agrees: the two stores hold the same entities.
pub open spec fn eq_view(a: World, b: World) -> bool {
    &&& same_motion(a, b)
    &&& same_tags(a, b)
    &&& same_collision(a, b)
    &&& same_animation(a, b)
    &&& same_cosmetic(a, b)
}

/// Every column agrees at index `i`: slot `i` is untouched.
pub open spec fn slot_unchanged(a: World, b: World, i: int) -> bool {
    &&& b.alive@[i] == a.alive@[i]
    &&& b.transforms@[i] == a.transforms@[i]
    &&& b.velocities@[i] == a.velocities@[i]
    &&& b.affected_by_gravity@[i] == a.affected_by_gravity@[i]
    &&& b.colliders@[i] == a.colliders@[i]
    &&& b.sizes@[i] == a.sizes@[i]
    &&& b.offscreen_deletion@[i] == a.offscreen_deletion@[i]
    &&& b.players@[i] == a.players@[i]
    &&& b.pipes@[i] == a.pipes@[i]
    &&& b.animations@[i] == a.animations@[i]
    &&& b.frame_timers@[i] == a.frame_timers@[i]
    &&& b.rotators@[i] == a.rotators@[i]
    &&& b.rotations@[i] == a.rotations@[i]
    &&& b.sprite_indices@[i] == a.sprite_indices@[i]
    &&& b.start_screens@[i] == a.start_screens@[i]
    &&& b.end_screens@[i] == a.end_screens@[i]
    &&& b.visible@[i] == a.visible@[i]
}

/// Columns other than visibility agree at `i`, and the visibility there has
/// been set to `v`.
pub open spec fn slot_visibility_set(a: World, b: World, i: int, v: bool) -> bool {
    &&& b.alive@[i] == a.alive@[i]
    &&& b.transforms@[i] == a.transforms@[i]
    &&& b.velocities@[i] == a.velocities@[i]
    &&& b.affected_by_gravity@[i] == a.affected_by_gravity@[i]
    &&& b.colliders@[i] == a.colliders@[i]
    &&& b.sizes@[i] == a.sizes@[i]
    &&& b.offscreen_deletion@[i] == a.offscreen_deletion@[i]
    &&& b.players@[i] == a.players@[i]
    &&& b.pipes@[i] == a.pipes@[i]
    &&& b.animations@[i] == a.animations@[i]
    &&& b.frame_timers@[i] == a.frame_timers@[i]
    &&& b.rotators@[i] == a.rotators@[i]
    &&& b.rotations@[i] == a.rotations@[i]
    &&& b.sprite_indices@[i] == a.sprite_indices@[i]
    &&& b.start_screens@[i] == a.start_screens@[i]
    &&& b.end_screens@[i] == a.end_screens@[i]
    &&& b.visible@[i] == v
}

/// No live player carries a collider: the player is judged against other
/// boxes, never against itself.
pub open spec fn players_not_collidable(w: World) -> bool {
    forall|i: int| #[trigger] w.is_player(i) ==> w.colliders@[i] is None
}

/// Every obstacle-marked entity carries a `Solid` collider, as the spawner
/// builds them.
pub open spec fn pipes_are_solid(w: World) -> bool {
    forall|i: int|
        0 <= i < w.num() && #[trigger] w.pipes@[i] ==> w.colliders@[i] == Some(Collider::Solid)
}

/// Slot `i` is dead and holds no component: the state destruction leaves.
pub open spec fn slot_cleared(w: World, i: int) -> bool {
    &&& !w.alive@[i]
    &&& w.transforms@[i] is None
    &&& w.velocities@[i] is None
    &&& !w.affected_by_gravity@[i]
    &&& w.colliders@[i] is None
    &&& w.sizes@[i] is None
    &&& !w.offscreen_deletion@[i]
    &&& !w.players@[i]
    &&& !w.pipes@[i]
    &&& w.animations@[i] is None
    &&& w.frame_timers@[i] is None
    &&& w.rotators@[i] is None
    &&& w.rotations@[i] == 0
    &&& w.sprite_indices@[i] == 0
    &&& !w.start_screens@[i]
    &&& !w.end_screens@[i]
    &&& !w.visible@[i]
}

impl World {
    /// Number of slots ever created, live or dead.
    pub open spec fn num(self) -> int {
        self.alive@.len() as int
    }

    /// All columns cover the same slots, and every attached animation set,
    /// frame timer and rotator is well formed.
    pub open spec fn wf(self) -> bool {
        &&& self.transforms@.len() == self.num()
        &&& self.velocities@.len() == self.num()
        &&& self.affected_by_gravity@.len() == self.num()
        &&& self.colliders@.len() == self.num()
        &&& self.sizes@.len() == self.num()
        &&& self.offscreen_deletion@.len() == self.num()
        &&& self.players@.len() == self.num()
        &&& self.pipes@.len() == self.num()
        &&& self.animations@.len() == self.num()
        &&& self.frame_timers@.len() == self.num()
        &&& self.rotators@.len() == self.num()
        &&& self.rotations@.len() == self.num()
        &&& self.sprite_indices@.len() == self.num()
        &&& self.start_screens@.len() == self.num()
        &&& self.end_screens@.len() == self.num()
        &&& self.visible@.len() == self.num()
        &&& forall|i: int|
            0 <= i < self.num() && (#[trigger] self.animations@[i]) is Some
                ==> self.animations@[i]->Some_0.wf()
        &&& forall|i: int|
            0 <= i < self.num() && (#[trigger] self.frame_timers@[i]) is Some
                ==> self.frame_timers@[i]->Some_0.wf()
        &&& forall|i: int|
            0 <= i < self.num() && (#[trigger] self.rotators@[i]) is Some
                ==> self.rotators@[i]->Some_0.wf()
    }

    /// Slot `i` exists and is live.
    pub open spec fn is_live(self, i: int) -> bool {
        0 <= i < self.num() && self.alive@[i]
    }

    pub open spec fn has_pos(self, i: int) -> bool {
        0 <= i < self.num() && self.transforms@[i] is Some
    }

    pub open spec fn pos(self, i: int) -> Transform {
        self.transforms@[i]->Some_0
    }

    pub open spec fn has_vel(self, i: int) -> bool {
        0 <= i < self.num() && self.velocities@[i] is Some
    }

    pub open spec fn vel(self, i: int) -> Velocity {
        self.velocities@[i]->Some_0
    }

    /// Slot `i` is the live player.
    pub open spec fn is_player(self, i: int) -> bool {
        self.is_live(i) && self.players@[i]
    }

    /// The simulation drives a single player-controlled entity.
    pub open spec fn at_most_one_player(self) -> bool {
        forall|i: int, j: int|
            #[trigger] self.is_player(i) && #[trigger] self.is_player(j) ==> i == j
    }

    /// Every velocity component has magnitude at most `b`.
    pub open spec fn vel_bounded(self, b: int) -> bool {
        forall|i: int|
            0 <= i < self.num() && (#[trigger] self.velocities@[i]) is Some ==> {
                &&& -b <= self.vel(i).vx <= b
                &&& -b <= self.vel(i).vy <= b
            }
    }

    /// Every position coordinate has magnitude at most `b`.
    pub open spec fn pos_bounded(self, b: int) -> bool {
        forall|i: int|
            0 <= i < self.num() && (#[trigger] self.transforms@[i]) is Some ==> {
                &&& -b <= self.pos(i).x <= b
                &&& -b <= self.pos(i).y <= b
            }
    }

    /// Every collision box half extent is nonnegative and at most `b`.
    pub open spec fn ext_bounded(self, b: int) -> bool {
        forall|i: int|
            0 <= i < self.num() && (#[trigger] self.sizes@[i]) is Some ==> {
                &&& 0 <= self.sizes@[i]->Some_0.hx <= b
                &&& 0 <= self.sizes@[i]->Some_0.hy <= b
            }
    }

    /// An empty store.
    pub fn new() -> (w: World)
        ensures
            w.wf(),
            w.num() == 0,
    {
        World {
            alive: Vec::new(),
            transforms: Vec::new(),
            velocities: Vec::new(),
            affected_by_gravity: Vec::new(),
            colliders: Vec::new(),
            sizes: Vec::new(),
            offscreen_deletion: Vec::new(),
            players: Vec::new(),
            pipes: Vec::new(),
            animations: Vec::new(),
            frame_timers: Vec::new(),
            rotators: Vec::new(),
            rotations: Vec::new(),
            sprite_indices: Vec::new(),
            start_screens: Vec::new(),
            end_screens: Vec::new(),
            visible: Vec::new(),
        }
    }

    pub fn entity_count(&self) -> (n: usize)
        ensures
            n == self.num(),
    {
        self.alive.len()
    }

    pub fn is_alive(&self, id: usize) -> (r: bool)
        requires
            self.wf(),
        ensures
            r == self.is_live(id as int),
    {
        id < self.alive.len() && self.alive[id]
    }

    /// Creates a fresh entity with no components and returns its id, an
    /// identifier never returned before by this store.
    pub fn create(&mut self) -> (id: usize)
        requires
            old(self).wf(),
            old(self).num() < usize::MAX,
        ensures
            final(self).wf(),
            id == old(self).num(),
            final(self).num() == old(self).num() + 1,
            final(self).alive@ == old(self).alive@.push(true),
            final(self).transforms@ == old(self).transforms@.push(None),
            final(self).velocities@ == old(self).velocities@.push(None),
            final(self).affected_by_gravity@ == old(self).affected_by_gravity@.push(false),
            final(self).colliders@ == old(self).colliders@.push(None),
            final(self).sizes@ == old(self).sizes@.push(None),
            final(self).offscreen_deletion@ == old(self).offscreen_deletion@.push(false),
            final(self).players@ == old(self).players@.push(false),
            final(self).pipes@ == old(self).pipes@.push(false),
            final(self).animations@ == old(self).animations@.push(None),
            final(self).frame_timers@ == old(self).frame_timers@.push(None),
            final(self).rotators@ == old(self).rotators@.push(None),
            final(self).rotations@ == old(self).rotations@.push(0),
            final(self).sprite_indices@ == old(self).sprite_indices@.push(0),
            final(self).start_screens@ == old(self).start_screens@.push(false),
            final(self).end_screens@ == old(self).end_screens@.push(false),
            final(self).visible@ == old(self).visible@.push(true),
    {
        let id = self.alive.len();
        self.alive.push(true);
        self.transforms.push(None);
        self.velocities.push(None);
        self.affected_by_gravity.push(false);
        self.colliders.push(None);
        self.sizes.push(None);
        self.offscreen_deletion.push(false);
        self.players.push(false);
        self.pipes.push(false);
        self.animations.push(None);
        self.frame_timers.push(None);
        self.rotators.push(None);
        self.rotations.push(0);
        self.sprite_indices.push(0);
        self.start_screens.push(false);
        self.end_screens.push(false);
        self.visible.push(true);
        id
    }

    /// Marks the entity dead and removes all its components.  Destroying a
    /// dead or unknown id is a no-op: it never errs and mutates nothing.
    pub fn destroy(&mut self, id: usize)
        requires
            old(self).wf(),
        ensures
            final(self).wf(),
            final(self).num() == old(self).num(),
            !old(self).is_live(id as int) ==> eq_view(*old(self), *final(self)),
            old(self).is_live(id as int) ==> {
                &&& slot_cleared(*final(self), id as int)
                &&& forall|j: int|
                    0 <= j < final(self).num() && j != id as int
                        ==> #[trigger] slot_unchanged(*old(self), *final(self), j)
            },
    {
        if id < self.alive.len() && self.alive[id] {
            self.alive[id] = false;
            self.transforms[id] = None;
            self.velocities[id] = None;
            self.affected_by_gravity[id] = false;
            self.colliders[id] = None;
            self.sizes[id] = None;
            self.offscreen_deletion[id] = false;
            self.players[id] = false;
            self.pipes[id] = false;
            self.animations[id] = None;
            self.frame_timers[id] = None;
            self.rotators[id] = None;
            self.rotations[id] = 0;
            self.sprite_indices[id] = 0;
            self.start_screens[id] = false;
            self.end_screens[id] = false;
            self.visible[id] = false;
        }
    }

    /// Attaches or replaces the transform of entity `id`.
    pub fn attach_transform(&mut self, id: usize, t: Transform)
        requires
            old(self).wf(),
            (id as int) < old(self).num(),
        ensures
            final(self).wf(),
            final(self).num() == old(self).num(),
            final(self).transforms@ == old(self).transforms@.update(id as int, Some(t)),
            final(self).velocities@ == old(self).velocities@,
            same_tags(*old(self), *final(self)),
            same_collision(*old(self), *final(self)),
            same_animation(*old(self), *final(self)),
            same_cosmetic(*old(self), *final(self)),
    {
        self.transforms[id] = Some(t);
    }

    /// Attaches or replaces the velocity of entity `id`.
    pub fn attach_velocity(&mut self, id: usize, v: Velocity)
        requires
            old(self).wf(),
            (id as int) < old(self).num(),
        ensures
            final(self).wf(),
            final(self).num() == old(self).num(),
            final(self).velocities@ == old(self).velocities@.update(id as int, Some(v)),
            final(self).transforms@ == old(self).transforms@,
            same_tags(*old(self), *final(self)),
            same_collision(*old(self), *final(self)),
            same_animation(*old(self), *final(self)),
            same_cosmetic(*old(self), *final(self)),
    {
        self.velocities[id] = Some(v);
    }

    /// Attaches or replaces the collider tag of entity `id`.
    pub fn attach_collider(&mut self, id: usize, c: Collider)
        requires
            old(self).wf(),
            (id as int) < old(self).num(),
        ensures
            final(self).wf(),
            final(self).num() == old(self).num(),
            final(self).colliders@ == old(self).colliders@.update(id as int, Some(c)),
            final(self).sizes@ == old(self).sizes@,
            same_motion(*old(self), *final(self)),
            same_tags(*old(self), *final(self)),
            same_animation(*old(self), *final(self)),
            same_cosmetic(*old(self), *final(self)),
    {
        self.colliders[id] = Some(c);
    }

    /// Attaches or replaces the collision box size of entity `id`.
    pub fn attach_size(&mut self, id: usize, s: HalfExtents)
        requires
            old(self).wf(),
            (id as int) < old(self).num(),
        ensures
            final(self).wf(),
            final(self).num() == old(self).num(),
            final(self).sizes@ == old(self).sizes@.update(id as int, Some(s)),
            final(self).colliders@ == old(self).colliders@,
            same_motion(*old(self), *final(self)),
            same_tags(*old(self), *final(self)),
            same_animation(*old(self), *final(self)),
            same_cosmetic(*old(self), *final(self)),
    {
        self.sizes[id] = Some(s);
    }

    /// Attaches or replaces the animation clips of entity `id`.
    pub fn attach_animations(&mut self, id: usize, a: Animations)
        requires
            old(self).wf(),
            (id as int) < old(self).num(),
            a.wf(),
        ensures
            final(self).wf(),
            final(self).num() == old(self).num(),
            final(self).animations@ == old(self).animations@.update(id as int, Some(a)),
            final(self).frame_timers@ == old(self).frame_timers@,
            same_motion(*old(self), *final(self)),
            same_tags(*old(self), *final(self)),
            same_collision(*old(self), *final(self)),
            same_cosmetic(*old(self), *final(self)),
    {
        self.animations[id] = Some(a);
    }

    /// Attaches or replaces the frame timer of entity `id`.
    pub fn attach_frame_timer(&mut self, id: usize, t: FrameTimer)
        requires
            old(self).wf(),
            (id as int) < old(self).num(),
            t.wf(),
        ensures
            final(self).wf(),
            final(self).num() == old(self).num(),
            final(self).frame_timers@ == old(self).frame_timers@.update(id as int, Some(t)),
            final(self).animations@ == old(self).animations@,
            same_motion(*old(self), *final(self)),
            same_tags(*old(self), *final(self)),
            same_collision(*old(self), *final(self)),
            same_cosmetic(*old(self), *final(self)),
    {
        self.frame_timers[id] = Some(t);
    }

    /// Attaches or replaces the velocity rotator of entity `id`.
    pub fn attach_velocity_rotator(&mut self, id: usize, r: VelocityRotator)
        requires
            old(self).wf(),
            (id as int) < old(self).num(),
            r.wf(),
        ensures
            final(self).wf(),
            final(self).num() == old(self).num(),
            final(self).rotators@ == old(self).rotators@.update(id as int, Some(r)),
            final(self).rotations@ == old(self).rotations@,
            final(self).sprite_indices@ == old(self).sprite_indices@,
            final(self).visible@ == old(self).visible@,
            same_motion(*old(self), *final(self)),
            same_tags(*old(self), *final(self)),
            same_collision(*old(self), *final(self)),
            same_animation(*old(self), *final(self)),
    {
        self.rotators[id] = Some(r);
    }

    /// Marks entity `id` as pulled down by gravity.
    pub fn mark_affected_by_gravity(&mut self, id: usize)
        requires
            old(self).wf(),
            (id as int) < old(self).num(),
        ensures
            final(self).wf(),
            final(self).num() == old(self).num(),
            final(self).affected_by_gravity@ == old(self).affected_by_gravity@.update(
                id as int,
                true,
            ),
            final(self).alive@ == old(self).alive@,
            final(self).offscreen_deletion@ == old(self).offscreen_deletion@,
            final(self).players@ == old(self).players@,
            final(self).pipes@ == old(self).pipes@,
            final(self).start_screens@ == old(self).start_screens@,
            final(self).end_screens@ == old(self).end_screens@,
            same_motion(*old(self), *final(self)),
            same_collision(*old(self), *final(self)),
            same_animation(*old(self), *final(self)),
            same_cosmetic(*old(self), *final(self)),
    {
        self.affected_by_gravity[id] = true;
    }

    /// Marks entity `id` as the player.
    pub fn mark_player(&mut self, id: usize)
        requires
            old(self).wf(),
            (id as int) < old(self).num(),
        ensures
            final(self).wf(),
            final(self).num() == old(self).num(),
            final(self).players@ == old(self).players@.update(id as int, true),
            final(self).alive@ == old(self).alive@,
            final(self).affected_by_gravity@ == old(self).affected_by_gravity@,
            final(self).offscreen_deletion@ == old(self).offscreen_deletion@,
            final(self).pipes@ == old(self).pipes@,
            final(self).start_screens@ == old(self).start_screens@,
            final(self).end_screens@ == old(self).end_screens@,
            same_motion(*old(self), *final(self)),
            same_collision(*old(self), *final(self)),
            same_animation(*old(self), *final(self)),
            same_cosmetic(*old(self), *final(self)),
    {
        self.players[id] = true;
    }

    /// Marks entity `id` as an obstacle body.
    pub fn mark_pipe(&mut self, id: usize)
        requires
            old(self).wf(),
            (id as int) < old(self).num(),
        ensures
            final(self).wf(),
            final(self).num() == old(self).num(),
            final(self).pipes@ == old(self).pipes@.update(id as int, true),
            final(self).alive@ == old(self).alive@,
            final(self).affected_by_gravity@ == old(self).affected_by_gravity@,
            final(self).offscreen_deletion@ == old(self).offscreen_deletion@,
            final(self).players@ == old(self).players@,
            final(self).start_screens@ == old(self).start_screens@,
            final(self).end_screens@ == old(self).end_screens@,
            same_motion(*old(self), *final(self)),
            same_collision(*old(self), *final(self)),
            same_animation(*old(self), *final(self)),
            same_cosmetic(*old(self), *final(self)),
    {
        self.pipes[id] = true;
    }

    /// Marks entity `id` for destruction once it scrolls off screen.
    pub fn mark_offscreen_deletion(&mut self, id: usize)
        requires
            old(self).wf(),
            (id as int) < old(self).num(),
        ensures
            final(self).wf(),
            final(self).num() == old(self).num(),
            final(self).offscreen_deletion@ == old(self).offscreen_deletion@.update(
                id as int,
                true,
            ),
            final(self).alive@ == old(self).alive@,
            final(self).affected_by_gravity@ == old(self).affected_by_gravity@,
            final(self).players@ == old(self).players@,
            final(self).pipes@ == old(self).pipes@,
            final(self).start_screens@ == old(self).start_screens@,
            final(self).end_screens@ == old(self).end_screens@,
            same_motion(*old(self), *final(self)),
            same_collision(*old(self), *final(self)),
            same_animation(*old(self), *final(self)),
            same_cosmetic(*old(self), *final(self)),
    {
        self.offscreen_deletion[id] = true;
    }

    /// Marks entity `id` as the start-screen overlay.
    pub fn mark_start_screen(&mut self, id: usize)
        requires
            old(self).wf(),
            (id as int) < old(self).num(),
        ensures
            final(self).wf(),
            final(self).num() == old(self).num(),
            final(self).start_screens@ == old(self).start_screens@.update(id as int, true),
            final(self).alive@ == old(self).alive@,
            final(self).affected_by_gravity@ == old(self).affected_by_gravity@,
            final(self).offscreen_deletion@ == old(self).offscreen_deletion@,
            final(self).players@ == old(self).players@,
            final(self).pipes@ == old(self).pipes@,
            final(self).end_screens@ == old(self).end_screens@,
            same_motion(*old(self), *final(self)),
            same_collision(*old(self), *final(self)),
            same_animation(*old(self), *final(self)),
            same_cosmetic(*old(self), *final(self)),
    {
        self.start_screens[id] = true;
    }

    /// Marks entity `id` as the end-screen overlay.
    pub fn mark_end_screen(&mut self, id: usize)
        requires
            old(self).wf(),
            (id as int) < old(self).num(),
        ensures
            final(self).wf(),
            final(self).num() == old(self).num(),
            final(self).end_screens@ == old(self).end_screens@.update(id as int, true),
            final(self).alive@ == old(self).alive@,
            final(self).affected_by_gravity@ == old(self).affected_by_gravity@,
            final(self).offscreen_deletion@ == old(self).offscreen_deletion@,
            final(self).players@ == old(self).players@,
            final(self).pipes@ == old(self).pipes@,
            final(self).start_screens@ == old(self).start_screens@,
            same_motion(*old(self), *final(self)),
            same_collision(*old(self), *final(self)),
            same_animation(*old(self), *final(self)),
            same_cosmetic(*old(self), *final(self)),
    {
        self.end_screens[id] = true;
    }

    /// Shows or hides entity `id` for the renderer.
    pub fn set_visible(&mut self, id: usize, v: bool)
        requires
            old(self).wf(),
            (id as int) < old(self).num(),
        ensures
            final(self).wf(),
            final(self).num() == old(self).num(),
            final(self).visible@ == old(self).visible@.update(id as int, v),
            final(self).rotators@ == old(self).rotators@,
            final(self).rotations@ == old(self).rotations@,
            final(self).sprite_indices@ == old(self).sprite_indices@,
            same_motion(*old(self), *final(self)),
            same_tags(*old(self), *final(self)),
            same_collision(*old(self), *final(self)),
            same_animation(*old(self), *final(self)),
    {
        self.visible[id] = v;
    }

    /// The ids of all live entities, in increasing order: the store's query
    /// primitive.  Callers filter by reading the component columns of each
    /// returned id.
    pub fn live_entities(&self) -> (r: Vec<usize>)
        requires
            self.wf(),
        ensures
            forall|k: int| 0 <= k < r@.len() ==> self.is_live(#[trigger] r@[k] as int),
            forall|i: int|
                0 <= i < self.num() && self.alive@[i] ==> exists|k: int|
                    0 <= k < r@.len() && #[trigger] r@[k] == i,
            forall|k1: int, k2: int| 0 <= k1 < k2 < r@.len() ==> r@[k1] < r@[k2],
    {
        let n = self.alive.len();
        let mut r: Vec<usize> = Vec::new();
        let mut i: usize = 0;
        while i < n
            invariant
                self.wf(),
                n == self.num(),
                i <= n,
                forall|k: int| 0 <= k < r@.len() ==> self.is_live(#[trigger] r@[k] as int),
                forall|k: int| 0 <= k < r@.len() ==> #[trigger] r@[k] < i,
                forall|j: int|
                    0 <= j < i && self.alive@[j] ==> exists|k: int|
                        0 <= k < r@.len() && #[trigger] r@[k] == j,
                forall|k1: int, k2: int| 0 <= k1 < k2 < r@.len() ==> r@[k1] < r@[k2],
            decreases n - i,
        {
            let ghost r_in = r@;
            if self.alive[i] {
                r.push(i);
                proof {
                    assert forall|j: int|
                        0 <= j < i + 1 && self.alive@[j] implies exists|k: int|
                            0 <= k < r@.len() && #[trigger] r@[k] == j by {
                        if j < i {
                            let k = choose|k: int| 0 <= k < r_in.len() && r_in[k] == j;
                            assert(r@[k] == j);
                        } else {
                            assert(r@[r@.len() - 1] == j);
                        }
                    }
                }
            }
            i += 1;
        }
        r
    }

    /// The live player's id, if any.
    pub fn find_player(&self) -> (r: Option<usize>)
        requires
            self.wf(),
        ensures
            r is Some ==> self.is_player(r->Some_0 as int),
            r is None ==> forall|i: int| !self.is_player(i),
    {
        let n = self.alive.len();
        let mut i: usize = 0;
        while i < n
            invariant
                self.wf(),
                n == self.num(),
                i <= n,
                forall|j: int| 0 <= j < i ==> !self.is_player(j),
            decreases n - i,
        {
            if self.alive[i] && self.players[i] {
                return Some(i);
            }
            i += 1;
        }
        None
    }
}

} // verus!
