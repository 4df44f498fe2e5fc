use vstd::prelude::*;

use crate::config::{MAX_DT, MAX_TIMER};
use crate::timer::FrameTimer;
use crate::pipes::Collider;
use crate::world::{pipes_are_solid, players_not_collidable, same_collision, same_motion,
    same_tags, World};

verus! {

/// One sprite frame of an animation clip.
#[derive(Clone, Copy, PartialEq, Eq, Structural, Debug)]
pub struct AnimationFrame {
    /// Sprite sheet index shown while this frame is current.
    pub index: u32,
    /// How long the frame stays on screen, in centiseconds.
    pub time: i64,
}

/// An ordered, never empty sequence of frames, with the index of the frame
/// currently shown.  The current frame index is kept when another clip is
/// selected, so returning to this clip resumes where it left off.
pub struct Animation {
    pub frames: Vec<AnimationFrame>,
    pub current_frame: usize,
}

/// The animation clips of one entity, with the index of the selected clip.
/// A selected index outside the clip list is tolerated: such an entity is
/// skipped when frames advance.
pub struct Animations {
    pub animations: Vec<Animation>,
    pub current_animation: usize,
}

impl Animation {
    pub open spec fn wf(self) -> bool {
        &&& self.frames@.len() >= 1
        &&& forall|i: int|
            0 <= i < self.frames@.len() ==> 0 <= (#[trigger] self.frames@[i]).time <= MAX_TIMER
        &&& self.current_frame <= self.frames@.len()
    }

    /// Builds a clip from its frames, showing the first frame.  A clip with no
    /// frames, or with a frame duration out of range, is a configuration
    /// error and is rejected.
    pub fn new(frames: Vec<AnimationFrame>) -> (r: Option<Animation>)
        ensures
            r is Some <==> (frames@.len() >= 1 && forall|i: int|
                0 <= i < frames@.len() ==> 0 <= (#[trigger] frames@[i]).time <= MAX_TIMER),
            r is Some ==> {
                &&& r->Some_0.wf()
                &&& r->Some_0.frames@ == frames@
                &&& r->Some_0.current_frame == 0
            },
    {
        if frames.len() == 0 {
            return None;
        }
        let n = frames.len();
        let mut i: usize = 0;
        while i < n
            invariant
                n == frames@.len(),
                i <= n,
                forall|j: int| 0 <= j < i ==> 0 <= (#[trigger] frames@[j]).time <= MAX_TIMER,
            decreases n - i,
        {
            if frames[i].time < 0 || frames[i].time > MAX_TIMER {
                return None;
            }
            i += 1;
        }
        Some(Animation { frames, current_frame: 0 })
    }
}

impl Animations {
    pub open spec fn wf(self) -> bool {
        forall|i: int| 0 <= i < self.animations@.len() ==> (#[trigger] self.animations@[i]).wf()
    }
}

/// The animation step touches exactly the live entities that have both a
/// frame timer and animation clips.
pub open spec fn animate_applies(w: World, i: int) -> bool {
    w.alive@[i] && w.frame_timers@[i] is Some && w.animations@[i] is Some
}

/// What one animation step does to slot `i`: the frame timer accumulates
/// `dt`; when it fires, the selected clip advances one frame (wrapping), the
/// timer's duration becomes that frame's declared time, and the frame's
/// sprite index is published.  A selected clip index outside the clip list
/// leaves clips and sprite untouched.
pub open spec fn animate_post(w0: World, w1: World, dt: int, i: int) -> bool {
    if animate_applies(w0, i) {
        let t0 = w0.frame_timers@[i]->Some_0;
        let fired = t0.elapsed + dt >= t0.duration;
        let a0 = w0.animations@[i]->Some_0;
        let ca = a0.current_animation as int;
        if !fired {
            &&& w1.frame_timers@[i] == Some(
                FrameTimer { duration: t0.duration, elapsed: (t0.elapsed + dt) as i64 },
            )
            &&& w1.animations@[i] == w0.animations@[i]
            &&& w1.sprite_indices@[i] == w0.sprite_indices@[i]
        } else if ca < a0.animations@.len() {
            let clip = a0.animations@[ca];
            let nf = if clip.current_frame + 1 >= clip.frames@.len() {
                0int
            } else {
                clip.current_frame + 1
            };
            let frame = clip.frames@[nf];
            &&& w1.frame_timers@[i] == Some(FrameTimer { duration: frame.time, elapsed: 0 })
            &&& w1.animations@[i] is Some
            &&& w1.animations@[i]->Some_0.current_animation == a0.current_animation
            &&& w1.animations@[i]->Some_0.animations@.len() == a0.animations@.len()
            &&& forall|c: int|
                0 <= c < a0.animations@.len() && c != ca
                    ==> w1.animations@[i]->Some_0.animations@[c] == a0.animations@[c]
            &&& w1.animations@[i]->Some_0.animations@[ca].frames@ == clip.frames@
            &&& w1.animations@[i]->Some_0.animations@[ca].current_frame == nf
            &&& w1.sprite_indices@[i] == frame.index
        } else {
            &&& w1.frame_timers@[i] == Some(FrameTimer { duration: t0.duration, elapsed: 0 })
            &&& w1.animations@[i] == w0.animations@[i]
            &&& w1.sprite_indices@[i] == w0.sprite_indices@[i]
        }
    } else {
        &&& w1.frame_timers@[i] == w0.frame_timers@[i]
        &&& w1.animations@[i] == w0.animations@[i]
        &&& w1.sprite_indices@[i] == w0.sprite_indices@[i]
    }
}

/// What one animation step does, relating the stores before and after it:
/// every slot follows `animate_post`, and nothing beyond frame timers, clip
/// positions and sprite outputs changes.
pub open spec fn animate_spec(w0: World, w1: World, dt: int) -> bool {
    &&& w1.num() == w0.num()
    &&& same_motion(w0, w1)
    &&& same_tags(w0, w1)
    &&& same_collision(w0, w1)
    &&& w1.rotators@ == w0.rotators@
    &&& w1.rotations@ == w0.rotations@
    &&& w1.visible@ == w0.visible@
    &&& forall|i: int| 0 <= i < w1.num() ==> #[trigger] animate_post(w0, w1, dt, i)
}

/// Advances every animated entity's frame timer and, on expiry, steps its
/// selected clip to the next frame, rewriting the timer to that frame's own
/// duration and publishing its sprite index.  A clip switch made elsewhere
/// does not reset the clip's frame position: the next expiry continues from
/// whatever frame index the clip already holds.
pub fn animate_system(w: &mut World, dt: i64)
    requires
        old(w).wf(),
        0 <= dt <= MAX_DT,
    ensures
        final(w).wf(),
        animate_spec(*old(w), *final(w), dt as int),
        old(w).at_most_one_player() ==> final(w).at_most_one_player(),
        players_not_collidable(*old(w)) ==> players_not_collidable(*final(w)),
        pipes_are_solid(*old(w)) ==> pipes_are_solid(*final(w)),
{
    let ghost w0 = *w;
    let n = w.alive.len();
    let mut i: usize = 0;
    while i < n
        invariant
            w.wf(),
            w0.wf(),
            n == w.num(),
            n == w0.num(),
            i <= n,
            0 <= dt <= MAX_DT,
            same_motion(w0, *w),
            same_tags(w0, *w),
            same_collision(w0, *w),
            w.rotators@ == w0.rotators@,
            w.rotations@ == w0.rotations@,
            w.visible@ == w0.visible@,
            forall|j: int| 0 <= j < i ==> #[trigger] animate_post(w0, *w, dt as int, j),
            forall|j: int|
                i <= j < n ==> w.frame_timers@[j] == w0.frame_timers@[j] && w.animations@[j]
                    == w0.animations@[j] && w.sprite_indices@[j] == w0.sprite_indices@[j],
        decreases n - i,
    {
        let ghost w_in = *w;
        if w.alive[i] && w.animations[i].is_some() {
            match w.frame_timers[i] {
                Some(t0) => {
                    proof {
                        assert(w0.frame_timers@[i as int] is Some);
                        assert(w0.animations@[i as int] is Some);
                        assert(t0.wf());
                        assert(w0.animations@[i as int]->Some_0.wf());
                    }
                    let mut t = t0;
                    let fired = t.advance(dt);
                    if fired {
                        let a_opt = w.animations.remove(i);
                        match a_opt {
                            Some(mut a) => {
                                let ghost a0 = a;
                                let ca = a.current_animation;
                                if ca < a.animations.len() {
                                    proof {
                                        assert(a.animations@[ca as int].wf());
                                    }
                                    let mut clip = a.animations.remove(ca);
                                    let nf = if clip.current_frame >= clip.frames.len() - 1 {
                                        0
                                    } else {
                                        clip.current_frame + 1
                                    };
                                    clip.current_frame = nf;
                                    let fr = clip.frames[nf];
                                    a.animations.insert(ca, clip);
                                    proof {
                                        assert(a.animations@ =~= a0.animations@.update(
                                            ca as int,
                                            a.animations@[ca as int],
                                        ));
                                    }
                                    t.set_duration(fr.time);
                                    w.sprite_indices[i] = fr.index;
                                }
                                w.animations.insert(i, Some(a));
                            },
                            None => {
                                w.animations.insert(i, None);
                            },
                        }
                        proof {
                            assert(w.animations@ =~= w_in.animations@.update(
                                i as int,
                                w.animations@[i as int],
                            ));
                        }
                    }
                    w.frame_timers[i] = Some(t);
                },
                None => {},
            }
        }
        proof {
            assert forall|j: int| 0 <= j < i + 1 implies #[trigger] animate_post(
                w0,
                *w,
                dt as int,
                j,
            ) by {
                if j < i {
                    assert(w.frame_timers@[j] == w_in.frame_timers@[j]);
                    assert(w.animations@[j] == w_in.animations@[j]);
                    assert(w.sprite_indices@[j] == w_in.sprite_indices@[j]);
                    assert(animate_post(w0, w_in, dt as int, j));
                } else {
                    assert(w_in.frame_timers@[j] == w0.frame_timers@[j]);
                    assert(w_in.animations@[j] == w0.animations@[j]);
                    assert(w_in.sprite_indices@[j] == w0.sprite_indices@[j]);
                }
            }
        }
        i += 1;
    }
    proof {
        if w0.at_most_one_player() {
            assert forall|i: int, j: int|
                #[trigger] w.is_player(i) && #[trigger] w.is_player(j) implies i == j by {
                assert(w0.is_player(i) && w0.is_player(j));
            }
        }
        if players_not_collidable(w0) {
            assert forall|i: int| #[trigger] w.is_player(i) implies w.colliders@[i] is None by {
                assert(w0.is_player(i));
            }
        }
        if pipes_are_solid(w0) {
            assert forall|i: int|
                0 <= i < w.num() && #[trigger] w.pipes@[i] implies w.colliders@[i] == Some(
                Collider::Solid,
            ) by {
                assert(w0.pipes@[i]);
            }
        }
    }
}

} // verus!
