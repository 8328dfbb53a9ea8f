//! Asteroids, debris clouds and black holes.

use vstd::prelude::*;

use crate::geometry::{Pose, Vec2};
use crate::ship::ShipId;

verus! {

#[derive(Debug, Clone, Copy, PartialEq, Eq, Structural)]
pub enum ObstacleKind {
    Asteroid,
    Debris,
    BlackHole,
}

impl ObstacleKind {
    /// What it is, in words.
    pub open spec fn called(self) -> Seq<char> {
        match self {
            ObstacleKind::Asteroid => "asteroid"@,
            ObstacleKind::Debris => "debris"@,
            ObstacleKind::BlackHole => "black hole"@,
        }
    }

    pub fn name(self) -> (name: &'static str)
        ensures
            name@ == self.called(),
    {
        match self {
            ObstacleKind::Asteroid => "asteroid",
            ObstacleKind::Debris => "debris",
            ObstacleKind::BlackHole => "black hole",
        }
    }
}

/// A token on the board; its outline is `shape`, turned by `heading`.
#[derive(Debug, Clone, Copy, PartialEq, Eq, Structural)]
pub struct Obstacle {
    pub id: u32,
    pub kind: ObstacleKind,
    pub center: Vec2,
    pub heading: u64,
    pub shape: u8,
}

/// A ship dragged by a black hole.
#[derive(Debug, Clone, Copy, PartialEq, Eq, Structural)]
pub struct Pull {
    pub ship: ShipId,
    pub hole: u32,
    pub from: Pose,
    pub to: Pose,
    pub swallowed: bool,
}

} // verus!
