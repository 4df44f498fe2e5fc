use vstd::prelude::*;

use crate::config::{DELETION_X, MAX_COORD_STEPPED, MAX_EXTENT, MAX_VELOCITY_STEPPED};
use crate::pipes::Collider;
use crate::world::{pipes_are_solid, players_not_collidable, slot_cleared, slot_unchanged, World};

verus! {

/// Slot `i` has scrolled past the trailing screen boundary (with padding so
/// it fully leaves the visible area first) and is marked for deletion there.
pub open spec fn offscreen_gone(w: World, i: int) -> bool {
    &&& w.is_live(i)
    &&& w.offscreen_deletion@[i]
    &&& w.transforms@[i] is Some
    &&& w.pos(i).x < DELETION_X
}

/// What one cleanup pass does to slot `i`.
pub open spec fn offscreen_post(w0: World, w1: World, i: int) -> bool {
    if offscreen_gone(w0, i) {
        slot_cleared(w1, i)
    } else {
        slot_unchanged(w0, w1, i)
    }
}

/// What one cleanup pass does, relating the stores before and after it:
/// every slot follows `offscreen_post`.
pub open spec fn cleanup_spec(w0: World, w1: World) -> bool {
    &&& w1.num() == w0.num()
    &&& forall|i: int| 0 <= i < w1.num() ==> #[trigger] offscreen_post(w0, w1, i)
}

/// Destroys every entity marked for offscreen deletion whose x position has
/// passed the trailing boundary.  An entity already destroyed earlier in the
/// tick is simply skipped: destruction is idempotent.
pub fn offscreen_remove_system(w: &mut World)
    requires
        old(w).wf(),
    ensures
        final(w).wf(),
        cleanup_spec(*old(w), *final(w)),
        old(w).vel_bounded(MAX_VELOCITY_STEPPED as int) ==> final(w).vel_bounded(
            MAX_VELOCITY_STEPPED as int,
        ),
        old(w).pos_bounded(MAX_COORD_STEPPED as int) ==> final(w).pos_bounded(
            MAX_COORD_STEPPED as int,
        ),
        old(w).ext_bounded(MAX_EXTENT as int) ==> final(w).ext_bounded(MAX_EXTENT as int),
        old(w).at_most_one_player() ==> final(w).at_most_one_player(),
        players_not_collidable(*old(w)) ==> players_not_collidable(*final(w)),
        pipes_are_solid(*old(w)) ==> pipes_are_solid(*final(w)),
        forall|i: int|
            0 <= i < old(w).num() && !old(w).alive@[i] ==> !final(w).alive@[i],
{
    let ghost w0 = *w;
    let n = w.alive.len();
    let mut i: usize = 0;
    while i < n
        invariant
            w.wf(),
            w0.wf(),
            n == w.num(),
            n == w0.num(),
            i <= n,
            forall|j: int| 0 <= j < i ==> #[trigger] offscreen_post(w0, *w, j),
            forall|j: int| i <= j < n ==> #[trigger] slot_unchanged(w0, *w, j),
        decreases n - i,
    {
        let ghost w_in = *w;
        if w.alive[i] && w.offscreen_deletion[i] {
            match w.transforms[i] {
                Some(t) => {
                    if t.x < DELETION_X {
                        w.destroy(i);
                    }
                },
                None => {},
            }
        }
        proof {
            assert forall|j: int| 0 <= j < i + 1 implies #[trigger] offscreen_post(w0, *w, j) by {
                if j < i {
                    assert(slot_unchanged(w_in, *w, j));
                    assert(offscreen_post(w0, w_in, j));
                } else {
                    assert(slot_unchanged(w0, w_in, j));
                }
            }
            assert forall|j: int| i + 1 <= j < n implies #[trigger] slot_unchanged(
                w0,
                *w,
                j,
            ) by {
                assert(slot_unchanged(w_in, *w, j));
                assert(slot_unchanged(w0, w_in, j));
            }
        }
        i += 1;
    }
    proof {
        if w0.vel_bounded(MAX_VELOCITY_STEPPED as int) {
            assert forall|i: int|
                0 <= i < w.num() && (#[trigger] w.velocities@[i]) is Some implies {
                &&& -MAX_VELOCITY_STEPPED <= w.vel(i).vx <= MAX_VELOCITY_STEPPED
                &&& -MAX_VELOCITY_STEPPED <= w.vel(i).vy <= MAX_VELOCITY_STEPPED
            } by {
                assert(offscreen_post(w0, *w, i));
                assert(w0.velocities@[i] is Some ==> {
                    &&& -MAX_VELOCITY_STEPPED <= w0.vel(i).vx <= MAX_VELOCITY_STEPPED
                    &&& -MAX_VELOCITY_STEPPED <= w0.vel(i).vy <= MAX_VELOCITY_STEPPED
                });
            }
        }
        if w0.pos_bounded(MAX_COORD_STEPPED as int) {
            assert forall|i: int|
                0 <= i < w.num() && (#[trigger] w.transforms@[i]) is Some implies {
                &&& -MAX_COORD_STEPPED <= w.pos(i).x <= MAX_COORD_STEPPED
                &&& -MAX_COORD_STEPPED <= w.pos(i).y <= MAX_COORD_STEPPED
            } by {
                assert(offscreen_post(w0, *w, i));
                assert(w0.transforms@[i] is Some ==> {
                    &&& -MAX_COORD_STEPPED <= w0.pos(i).x <= MAX_COORD_STEPPED
                    &&& -MAX_COORD_STEPPED <= w0.pos(i).y <= MAX_COORD_STEPPED
                });
            }
        }
        if w0.ext_bounded(MAX_EXTENT as int) {
            assert forall|i: int| 0 <= i < w.num() && (#[trigger] w.sizes@[i]) is Some implies {
                &&& 0 <= w.sizes@[i]->Some_0.hx <= MAX_EXTENT
                &&& 0 <= w.sizes@[i]->Some_0.hy <= MAX_EXTENT
            } by {
                assert(offscreen_post(w0, *w, i));
                assert(w0.sizes@[i] is Some ==> {
                    &&& 0 <= w0.sizes@[i]->Some_0.hx <= MAX_EXTENT
                    &&& 0 <= w0.sizes@[i]->Some_0.hy <= MAX_EXTENT
                });
            }
        }
        if w0.at_most_one_player() {
            assert forall|i: int, j: int|
                #[trigger] w.is_player(i) && #[trigger] w.is_player(j) implies i == j by {
                assert(offscreen_post(w0, *w, i));
                assert(offscreen_post(w0, *w, j));
                assert(w0.is_player(i) && w0.is_player(j));
            }
        }
        assert forall|i: int| 0 <= i < w0.num() && !w0.alive@[i] implies !w.alive@[i] by {
            assert(offscreen_post(w0, *w, i));
        }
        if players_not_collidable(w0) {
            assert forall|i: int| #[trigger] w.is_player(i) implies w.colliders@[i] is None by {
                assert(offscreen_post(w0, *w, i));
                assert(w0.is_player(i));
            }
        }
        if pipes_are_solid(w0) {
            assert forall|i: int|
                0 <= i < w.num() && #[trigger] w.pipes@[i] implies w.colliders@[i] == Some(
                Collider::Solid,
            ) by {
                assert(offscreen_post(w0, *w, i));
                assert(w0.pipes@[i]);
            }
        }
    }
}

} // verus!
