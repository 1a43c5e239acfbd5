//! Bounded motion for sprites that share a rectangular arena.
//!
//! The crate has two cooperating pieces: a boundary calculator ([`cap`]),
//! which turns arena and footprint extents into the inclusive range of
//! valid center positions on each axis, and a motion controller
//! ([`motion`]), which advances each sprite by its velocity once per tick,
//! reflects the velocity off arena edges, and clamps the position back
//! into range.  [`spawn`] places new sprites at random positions fully
//! inside the arena, and [`collide`] decides whether two sprites touch.
//!
//! All coordinates are integer units; elapsed time is integer
//! milliseconds.

pub mod cap;
pub mod collide;
pub mod motion;
pub mod spawn;
