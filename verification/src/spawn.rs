//! Random placement of new sprites: a spawn position keeps the whole
//! footprint inside the arena, at least half the footprint away from every
//! edge, and the sound played on a bounce is picked at random from a fixed
//! set.

use vstd::prelude::*;

use crate::cap::cap_max_of;
use crate::cap::cap_min_of;

verus! {

/// Relies on rand::random: draws a value of `T` from the standard
/// distribution.  Nothing is promised of the value drawn.
pub assume_specification<T>[ rand::random::<T> ]() -> (r: T)
    where
        rand::distributions::Standard: rand::distributions::Distribution<T>,
;

/// A coordinate drawn uniformly-at-source from `[lo, hi]` given a raw
/// random draw `r`: `lo` plus the draw reduced modulo the width of the
/// range.
pub open spec fn placed_in(lo: int, hi: int, r: int) -> int {
    lo + r % (hi - lo + 1)
}

/// Places a coordinate inside `[lo, hi]` from a raw random draw.
pub fn place_coord(lo: i64, hi: i64, r: u64) -> (c: i64)
    requires
        0 <= lo <= hi,
    ensures
        c == placed_in(lo as int, hi as int, r as int),
        lo <= c <= hi,
{
    let width = (hi - lo) as u64 + 1;
    let offset = r % width;
    lo + (offset as i64)
}

/// Generates a random spawn position for a sprite of footprint
/// `size x size`: each coordinate lies between half the footprint and the
/// matching arena extent less half the footprint, so the sprite spawns
/// fully inside the arena and never pinned to an edge.
pub fn gen_random_pos(width: i64, height: i64, size: i64) -> (pos: (i64, i64))
    requires
        0 <= size <= width,
        0 <= size <= height,
    ensures
        cap_min_of(size as int) <= pos.0 <= cap_max_of(width as int, size as int),
        cap_min_of(size as int) <= pos.1 <= cap_max_of(height as int, size as int),
{
    let half = size / 2;
    let rx = rand::random::<u64>();
    let ry = rand::random::<u64>();
    let x = place_coord(half, width - size + half, rx);
    let y = place_coord(half, height - size + half, ry);
    (x, y)
}

/// Picks which of `n_sounds` bounce sounds to play, uniformly at source:
/// the index returned is always in range.
pub fn sound_index(n_sounds: u32) -> (idx: u32)
    requires
        n_sounds > 0,
    ensures
        idx < n_sounds,
{
    let r = rand::random::<u32>();
    r % n_sounds
}

} // verus!
