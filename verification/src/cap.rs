//! Boundary calculator: the inclusive range of valid center positions on
//! one axis, derived from the arena extent and the sprite footprint.

use vstd::prelude::*;

verus! {

/// Where a value sits relative to a [`Cap`] range: strictly below the
/// minimum, within the inclusive range, or strictly above the maximum.
#[derive(Clone, Copy, Debug, PartialEq, Eq, Structural)]
pub enum Classification {
    Below,
    Within,
    Above,
}

/// The inclusive range `[min, max]` of valid center positions on one axis.
///
/// When the footprint is no larger than the arena on this axis,
/// `min <= max`.  A larger footprint gives a degenerate range with
/// `min > max`, which callers must tolerate (the motion controller parks
/// such an axis at the arena midpoint).
#[derive(Clone, Copy, Debug, PartialEq, Eq, Structural)]
pub struct Cap {
    pub min: i64,
    pub max: i64,
}

/// Half of an extent, rounded toward zero.
pub open spec fn half_extent(e: int) -> int {
    if e >= 0 {
        e / 2
    } else {
        -((-e) / 2)
    }
}

/// Whether a mathematical integer fits in `i64`.
pub open spec fn in_i64(x: int) -> bool {
    i64::MIN <= x <= i64::MAX
}

/// The lower end of the valid center range: half the footprint away from
/// the arena edge at zero.
pub open spec fn cap_min_of(sprite: int) -> int {
    half_extent(sprite)
}

/// The upper end of the valid center range: half the footprint away from
/// the far arena edge.
pub open spec fn cap_max_of(window: int, sprite: int) -> int {
    window - half_extent(sprite)
}

/// Where `value` sits relative to `[min, max]`: both ends are inclusive,
/// so a value exactly at an edge is `Within`.
pub open spec fn classify_spec(min: int, max: int, value: int) -> Classification {
    if value < min {
        Classification::Below
    } else if value > max {
        Classification::Above
    } else {
        Classification::Within
    }
}

/// `value` clamped into `[min, max]`: capped from above by `max` first,
/// then from below by `min`, so a degenerate range with `min > max`
/// resolves to `min`.
pub open spec fn clamp_spec(min: int, max: int, value: int) -> int {
    let capped = if value < max {
        value
    } else {
        max
    };
    if capped < min {
        min
    } else {
        capped
    }
}

impl Cap {
    pub fn new(min: i64, max: i64) -> (c: Self)
        ensures
            c.min == min,
            c.max == max,
    {
        Self { min, max }
    }

    /// Caps a value into the inclusive range `[self.min, self.max]`.
    pub fn apply(&self, value: i64) -> (r: i64)
        ensures
            r == clamp_spec(self.min as int, self.max as int, value as int),
    {
        let capped = if value < self.max {
            value
        } else {
            self.max
        };
        if capped < self.min {
            self.min
        } else {
            capped
        }
    }

    /// Tests a value against the range: `Below` when it is strictly under
    /// `min`, `Above` when strictly over `max`, `Within` otherwise.
    pub fn test(&self, value: i64) -> (r: Classification)
        ensures
            r == classify_spec(self.min as int, self.max as int, value as int),
    {
        if value < self.min {
            Classification::Below
        } else if value > self.max {
            Classification::Above
        } else {
            Classification::Within
        }
    }
}

/// Half of an extent, rounded toward zero.
pub(crate) fn half_of(e: i64) -> (h: i64)
    requires
        e != i64::MIN,
    ensures
        h == half_extent(e as int),
{
    if e >= 0 {
        e / 2
    } else {
        -((-e) / 2)
    }
}

/// Calculates the valid center range for a sprite on every axis of the
/// arena: on axis `i` the range runs from `sprite[i] / 2` to
/// `window[i] - sprite[i] / 2`.
pub fn calc_cap(window: &Vec<i64>, sprite: &Vec<i64>) -> (caps: Vec<Cap>)
    requires
        window@.len() == sprite@.len(),
        forall|i: int| 0 <= i < sprite@.len() ==> sprite@[i] != i64::MIN,
        forall|i: int|
            0 <= i < sprite@.len() ==> in_i64(cap_max_of(window@[i] as int, sprite@[i] as int)),
    ensures
        caps@.len() == window@.len(),
        forall|i: int|
            0 <= i < caps@.len() ==> caps@[i].min == cap_min_of(sprite@[i] as int)
                && caps@[i].max == cap_max_of(window@[i] as int, sprite@[i] as int),
{
    let mut caps: Vec<Cap> = Vec::new();
    let n = window.len();
    let mut i: usize = 0;
    while i < n
        invariant
            n == window@.len(),
            window@.len() == sprite@.len(),
            forall|j: int| 0 <= j < sprite@.len() ==> sprite@[j] != i64::MIN,
            forall|j: int|
                0 <= j < sprite@.len() ==> in_i64(
                    cap_max_of(window@[j] as int, sprite@[j] as int),
                ),
            i <= n,
            caps@.len() == i,
            forall|j: int|
                0 <= j < i ==> caps@[j].min == cap_min_of(sprite@[j] as int)
                    && caps@[j].max == cap_max_of(window@[j] as int, sprite@[j] as int),
        decreases n - i,
    {
        let half = half_of(sprite[i]);
        let min = half;
        let max = window[i] - half;
        caps.push(Cap::new(min, max));
        i = i + 1;
    }
    caps
}

/// A footprint that is positive and no larger than the arena yields an
/// ordered range: `min == sprite / 2 <= max == window - sprite / 2`.
pub proof fn lemma_bounds_ordered(window: int, sprite: int)
    requires
        0 < sprite <= window,
    ensures
        cap_min_of(sprite) == half_extent(sprite),
        cap_max_of(window, sprite) == window - half_extent(sprite),
        cap_min_of(sprite) <= cap_max_of(window, sprite),
{
}

/// A value already within an ordered range is classified `Within` and is
/// left unchanged by clamping.
pub proof fn lemma_within_clamp_identity(min: int, max: int, p: int)
    requires
        min <= p <= max,
    ensures
        classify_spec(min, max, p) == Classification::Within,
        clamp_spec(min, max, p) == p,
{
}

/// A value strictly below an ordered range is classified `Below` and
/// clamps to `min`; symmetrically, one strictly above is `Above` and
/// clamps to `max`.
pub proof fn lemma_out_of_range(min: int, max: int, p: int)
    requires
        min <= max,
    ensures
        p < min ==> classify_spec(min, max, p) == Classification::Below,
        p < min ==> clamp_spec(min, max, p) == min,
        p > max ==> classify_spec(min, max, p) == Classification::Above,
        p > max ==> clamp_spec(min, max, p) == max,
{
}

/// Both edges of an ordered range are inclusive: a value exactly at `min`
/// or at `max` is classified `Within`, so sitting on an edge is not by
/// itself a bounce trigger.
pub proof fn lemma_edges_within(min: int, max: int)
    requires
        min <= max,
    ensures
        classify_spec(min, max, min) == Classification::Within,
        classify_spec(min, max, max) == Classification::Within,
{
}

} // verus!
