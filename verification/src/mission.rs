//! Rulebook missions: who escorts, who runs, who scans.

use vstd::prelude::*;

use crate::geometry::Vec2;
use crate::pilot::PilotId;
use crate::ship::{Faction, ShipId};

verus! {

/// The round in which the disabled ship is repaired.
pub const REPAIR_ROUND: u32 = 5;

#[derive(Debug, Clone, Copy, PartialEq, Eq, Structural)]
pub enum MissionKind {
    /// The Rebels bring the senator's shuttle off the Imperial edge.
    PoliticalEscort,
    /// A disabled Rebel ship holds out until it is repaired, then escapes.
    AsteroidRun,
    /// The Empire scans satellites and carries one home.
    DarkWhispers,
}

/// A satellite token: on the board, held by a ship, or back in the supply.
#[derive(Debug, Clone, Copy, PartialEq, Eq, Structural)]
pub struct Satellite {
    pub id: u32,
    pub pos: Vec2,
    pub holder: Option<ShipId>,
    pub supply: bool,
}

impl Satellite {
    pub open spec fn afloat(self) -> bool {
        self.holder is None && !self.supply
    }

    /// Still waiting to be scanned.
    pub fn on_board(&self) -> (yes: bool)
        ensures
            yes == self.afloat(),
    {
        self.holder.is_none() && !self.supply
    }
}

/// The mission in play.
#[derive(Debug, Clone, PartialEq, Eq)]
pub struct MissionState {
    pub kind: MissionKind,
    pub rebel_side: u8,
    pub imperial_side: u8,
    pub shuttle: Option<ShipId>,
    pub disabled: Option<ShipId>,
    pub satellites: Vec<Satellite>,
    /// Lost ships that a reinforcement has replaced.
    pub reinforced: Vec<ShipId>,
    pub spawned: u32,
    /// The faction that is reinforced.
    pub reinforcing: Faction,
    /// The pilot that reinforcements fly with, if the data holds one.
    pub reserve: Option<PilotId>,
}

/// The mission in play, with its lists as sequences.
#[verifier::ext_equal]
pub struct MissionModel {
    pub kind: MissionKind,
    pub rebel_side: u8,
    pub imperial_side: u8,
    pub shuttle: Option<ShipId>,
    pub disabled: Option<ShipId>,
    pub satellites: Seq<Satellite>,
    pub reinforced: Seq<ShipId>,
    pub spawned: u32,
    pub reinforcing: Faction,
    pub reserve: Option<PilotId>,
}

impl View for MissionState {
    type V = MissionModel;

    open spec fn view(&self) -> MissionModel {
        MissionModel {
            kind: self.kind,
            rebel_side: self.rebel_side,
            imperial_side: self.imperial_side,
            shuttle: self.shuttle,
            disabled: self.disabled,
            satellites: self.satellites@,
            reinforced: self.reinforced@,
            spawned: self.spawned,
            reinforcing: self.reinforcing,
            reserve: self.reserve,
        }
    }
}

impl MissionModel {
    /// No satellite waits to be scanned any more.
    pub open spec fn scanned(self) -> bool {
        forall|k: int| 0 <= k < self.satellites.len() ==> !(#[trigger] self.satellites[k]).afloat()
    }

    /// The side that flies for a faction: the Rebels on theirs, anyone else
    /// on the other.
    pub open spec fn flies(self, faction: Faction) -> u8 {
        if faction == Faction::RebelAlliance {
            self.rebel_side
        } else {
            self.imperial_side
        }
    }
}

impl MissionState {
    /// Has every satellite left the board?
    pub fn all_scanned(&self) -> (all: bool)
        ensures
            all == self@.scanned(),
    {
        let mut i: usize = 0;
        while i < self.satellites.len()
            invariant
                i <= self.satellites.len(),
                forall|k: int| 0 <= k < i ==> !(#[trigger] self.satellites@[k]).afloat(),
            decreases self.satellites.len() - i,
        {
            if self.satellites[i].on_board() {
                assert(self@.satellites[i as int].afloat());
                return false;
            }
            i = i + 1;
        }
        true
    }

    /// The side flying for a faction.
    pub fn side_of(&self, faction: Faction) -> (side: u8)
        ensures
            side == self@.flies(faction),
    {
        if faction == Faction::RebelAlliance {
            self.rebel_side
        } else {
            self.imperial_side
        }
    }

    /// The faction of a side: Rebel or Empire.
    pub fn faction_of_side(&self, side: u8) -> (faction: Faction)
        ensures
            faction == if side == self.rebel_side {
                Faction::RebelAlliance
            } else {
                Faction::Empire
            },
    {
        if side == self.rebel_side {
            Faction::RebelAlliance
        } else {
            Faction::Empire
        }
    }
}

/// The shields of the senator's shuttle: none below 100 points.
pub open spec fn shuttle_shields(points: u32) -> u8 {
    if points >= 100 {
        6
    } else {
        0
    }
}

/// How many satellites are put on the table.
pub open spec fn satellite_count(points: u32) -> nat {
    if points >= 100 {
        4
    } else {
        2
    }
}

impl MissionKind {
    /// The faction that is reinforced.
    pub open spec fn reinforces(self) -> Faction {
        if self == MissionKind::DarkWhispers {
            Faction::RebelAlliance
        } else {
            Faction::Empire
        }
    }

    /// The card name that reinforcements fly with.
    pub open spec fn reserve(self) -> Seq<char> {
        if self == MissionKind::DarkWhispers {
            "rookiepilot"@
        } else {
            "academypilot"@
        }
    }

    /// The card name that reinforcements fly with.
    pub fn reserve_card(&self) -> (name: &'static str)
        ensures
            name@ == self.reserve(),
    {
        match self {
            MissionKind::DarkWhispers => "rookiepilot",
            _ => "academypilot",
        }
    }
}

/// A mission's sheet: the shields of the shuttle and the number of satellites
/// at this squad size, and the faction that is reinforced.
pub fn sheet(kind: MissionKind, points: u32) -> (s: (u8, usize, Faction))
    ensures
        s.0 == (if points >= 100 {
            6u8
        } else {
            0u8
        }),
        s.1 == (if points >= 100 {
            4usize
        } else {
            2usize
        }),
        s.2 == (if kind == MissionKind::DarkWhispers {
            Faction::RebelAlliance
        } else {
            Faction::Empire
        }),
{
    let reinforced = match kind {
        MissionKind::DarkWhispers => Faction::RebelAlliance,
        _ => Faction::Empire,
    };
    if points >= 100 {
        (6, 4, reinforced)
    } else {
        (0, 2, reinforced)
    }
}

/// Where a mission's tokens go on the table.
#[derive(Debug, Clone, PartialEq, Eq)]
pub struct MissionBrief {
    /// Where the shuttle starts.
    pub shuttle_pose: crate::geometry::Pose,
    /// Where the satellites float.
    pub satellites: Vec<Vec2>,
}

} // verus!
