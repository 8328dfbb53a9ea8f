//! What is measured on the table: range, arc and line of sight between
//! ships, for one arrangement of the board.

use vstd::prelude::*;

verus! {

/// One ship seen from another.
#[derive(Debug, Clone, Copy, PartialEq, Eq, Structural)]
pub struct Line {
    /// Range band 1-3, or None beyond it.
    pub band: Option<u8>,
    /// Base-to-base distance, as the bit pattern of a double that is not
    /// negative: nearer is less, and touching bases are at 0.
    pub dist: u64,
    /// The bases are in contact, to a millionth of a unit.
    pub contact: bool,
    /// The other base is inside the forward firing arc.
    pub in_arc: bool,
    /// The range line crosses an obstacle.
    pub obstructed: bool,
    /// The other base is inside the bullseye lane.
    pub bullseye: bool,
}

/// Two ships that cannot see each other.
pub open spec fn unseen() -> Line {
    Line {
        band: None,
        dist: u64::MAX,
        contact: false,
        in_arc: false,
        obstructed: false,
        bullseye: false,
    }
}

/// The lines between all ships: `lines[i][j]` is ship `j` seen from ship
/// `i`, by their places in the game's list. A line that is not listed is one
/// between ships that cannot see each other.
#[derive(Debug, Clone, PartialEq, Eq)]
pub struct Sight {
    pub lines: Vec<Vec<Line>>,
}

impl Sight {
    pub open spec fn at(self, i: int, j: int) -> Line {
        if 0 <= i < self.lines@.len() && 0 <= j < self.lines@[i]@.len() {
            self.lines@[i]@[j]
        } else {
            unseen()
        }
    }

    pub fn line(&self, i: usize, j: usize) -> (line: Line)
        ensures
            line == self.at(i as int, j as int),
    {
        if i < self.lines.len() && j < self.lines[i].len() {
            self.lines[i][j]
        } else {
            Line {
                band: None,
                dist: u64::MAX,
                contact: false,
                in_arc: false,
                obstructed: false,
                bullseye: false,
            }
        }
    }
}

} // verus!
