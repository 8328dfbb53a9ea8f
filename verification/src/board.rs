//! The edges of the play area.

use vstd::prelude::*;

verus! {

/// Which board edge a side deploys from. Two sides face each other
/// across the board; a third takes the East edge, a fourth the West.
#[derive(Debug, Clone, Copy, PartialEq, Eq, Structural)]
pub enum Seat {
    /// Deploys along y = 0.
    South,
    /// Deploys along y = height.
    North,
    /// Deploys along x = width.
    East,
    /// Deploys along x = 0.
    West,
}

impl Seat {
    /// The edge of the side numbered `side` from 0.
    pub open spec fn edge(side: u8) -> Seat {
        if side == 0 {
            Seat::South
        } else if side == 1 {
            Seat::North
        } else if side == 2 {
            Seat::East
        } else {
            Seat::West
        }
    }

    /// The edge for side `side` (0-based) in a game with `sides` sides.
    pub fn for_side(side: u8, sides: u8) -> (seat: Seat)
        ensures
            seat == Seat::edge(side),
    {
        match side {
            0 => Seat::South,
            1 => Seat::North,
            2 => Seat::East,
            _ => Seat::West,
        }
    }

    /// The edge's name, in words.
    pub open spec fn called(self) -> Seq<char> {
        match self {
            Seat::South => "south"@,
            Seat::North => "north"@,
            Seat::East => "east"@,
            Seat::West => "west"@,
        }
    }

    pub fn name(self) -> (name: &'static str)
        ensures
            name@ == self.called(),
    {
        match self {
            Seat::South => "south",
            Seat::North => "north",
            Seat::East => "east",
            Seat::West => "west",
        }
    }
}

/// Four sides or fewer never share an edge.
pub proof fn sides_have_their_own_edges(a: u8, b: u8)
    requires
        a < 4,
        b < 4,
        a != b,
    ensures
        Seat::edge(a) != Seat::edge(b),
{
}

} // verus!
