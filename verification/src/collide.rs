//! Collision test between two sprites: they touch when the distance
//! between their centers is at most half the sum of their footprints.
//! Distances are compared by their squares, which is exact on integers.

use vstd::prelude::*;

use crate::cap::in_i64;

verus! {

/// The square of the distance between two centers.
pub open spec fn dist_sq(ax: int, ay: int, bx: int, by: int) -> int {
    (ax - bx) * (ax - bx) + (ay - by) * (ay - by)
}

/// The touch threshold for two sprites: half the sum of their footprints.
pub open spec fn touch_threshold(size_a: int, size_b: int) -> int {
    (size_a + size_b) / 2
}

/// The machine limits the touch test needs: both squared terms, their sum
/// and the squared threshold fit in `i64`.
pub open spec fn touch_ok(ax: int, ay: int, bx: int, by: int, size_a: int, size_b: int) -> bool {
    &&& in_i64(ax - bx)
    &&& in_i64(ay - by)
    &&& in_i64((ax - bx) * (ax - bx))
    &&& in_i64((ay - by) * (ay - by))
    &&& in_i64(dist_sq(ax, ay, bx, by))
    &&& in_i64(size_a + size_b)
    &&& in_i64(touch_threshold(size_a, size_b) * touch_threshold(size_a, size_b))
}

/// Whether two sprites touch: the distance between their centers is at
/// most half the sum of their footprints.  Compared by squares, so the
/// result is exact: it holds if and only if
/// `dist_sq <= touch_threshold * touch_threshold`.
pub fn sprites_touching(ax: i64, ay: i64, bx: i64, by: i64, size_a: i64, size_b: i64) -> (r: bool)
    requires
        size_a >= 0,
        size_b >= 0,
        touch_ok(ax as int, ay as int, bx as int, by as int, size_a as int, size_b as int),
    ensures
        r == (dist_sq(ax as int, ay as int, bx as int, by as int) <= touch_threshold(
            size_a as int,
            size_b as int,
        ) * touch_threshold(size_a as int, size_b as int)),
{
    let dx = ax - bx;
    let dy = ay - by;
    let threshold = (size_a + size_b) / 2;
    dx * dx + dy * dy <= threshold * threshold
}

} // verus!
