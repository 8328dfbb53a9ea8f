//! Places on the table.
//!
//! The rules carry coordinates from place to place and never compute with
//! them: each one is the bit pattern of the double that the caller measured.

use vstd::prelude::*;

verus! {

/// A point, as the bit patterns of its coordinates.
#[derive(Debug, Clone, Copy, PartialEq, Eq, Structural)]
pub struct Vec2 {
    pub x: u64,
    pub y: u64,
}

/// A ship's placement on the board.
#[derive(Debug, Clone, Copy, PartialEq, Eq, Structural)]
pub struct Pose {
    /// Position of the ship's FRONT-CENTER point — the maneuver anchor.
    pub anchor: Vec2,
    /// Facing, as the bit pattern of its radians.
    pub heading: u64,
}

} // verus!
