use vstd::prelude::*;

use crate::config::MAX_COORD_STEPPED;
use crate::config::MAX_EXTENT;

verus! {

/// Half extents of an axis-aligned collision box, in centiunits.
#[derive(Clone, Copy, PartialEq, Eq, Structural, Debug)]
pub struct HalfExtents {
    pub hx: i64,
    pub hy: i64,
}

/// Whether two axis-aligned boxes, given by their centers and half extents,
/// overlap with positive area in both axes.
pub open spec fn boxes_overlap(
    ax: int,
    ay: int,
    ahx: int,
    ahy: int,
    bx: int,
    by: int,
    bhx: int,
    bhy: int,
) -> bool {
    &&& ax - ahx < bx + bhx
    &&& bx - bhx < ax + ahx
    &&& ay - ahy < by + bhy
    &&& by - bhy < ay + ahy
}

/// Axis-aligned box overlap test on box centers and half extents.
pub fn collide(
    ax: i64,
    ay: i64,
    ahx: i64,
    ahy: i64,
    bx: i64,
    by: i64,
    bhx: i64,
    bhy: i64,
) -> (r: bool)
    requires
        -MAX_COORD_STEPPED <= ax <= MAX_COORD_STEPPED,
        -MAX_COORD_STEPPED <= ay <= MAX_COORD_STEPPED,
        -MAX_COORD_STEPPED <= bx <= MAX_COORD_STEPPED,
        -MAX_COORD_STEPPED <= by <= MAX_COORD_STEPPED,
        0 <= ahx <= MAX_EXTENT,
        0 <= ahy <= MAX_EXTENT,
        0 <= bhx <= MAX_EXTENT,
        0 <= bhy <= MAX_EXTENT,
    ensures
        r == boxes_overlap(ax as int, ay as int, ahx as int, ahy as int, bx as int, by as int,
            bhx as int, bhy as int),
{
    ax - ahx < bx + bhx && bx - bhx < ax + ahx && ay - ahy < by + bhy && by - bhy < ay + ahy
}

} // verus!
