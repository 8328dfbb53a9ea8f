//! Bombs and mines (First Edition expansion rules). Dial-reveal bombs
//! (Proton Bombs, Seismic Charges, Ion Bombs, Thermal Detonators) are
//! dropped BEFORE the ship moves and detonate at the end of the
//! Activation phase against every ship within Range 1 of the token.
//! Mines (Proximity Mines, Cluster Mines, Conner Net) are dropped as an
//! action after moving and detonate when a ship's base or maneuver
//! template overlaps them, hurting only that ship.
//!
//! Drop placement (both kinds): the straight-1 template is placed against
//! the ship's rear guides and the token touches the far end of it.

use vstd::prelude::*;

use crate::geometry::Pose;
use crate::ship::{PlayerId, ShipId};
use crate::upgrade::{UpgradeEffect, UpgradeId};

verus! {

#[derive(Debug, Clone, Copy, PartialEq, Eq, Structural)]
pub enum BombKind {
    /// Each ship at Range 1 is dealt 1 faceup Damage card.
    Proton,
    /// Each ship at Range 1 suffers 1 damage.
    Seismic,
    /// Each ship at Range 1 receives 2 ion tokens.
    Ion,
    /// Each ship at Range 1 suffers 1 damage and receives 1 stress token.
    Thermal,
    /// The crossing ship rolls 3 attack dice and suffers all damage rolled.
    ProximityMine,
    /// Three tokens side by side; each rolls 2 attack dice on the ship.
    ClusterMine,
    /// The crossing ship suffers 1 damage, receives 2 ion tokens and
    /// skips its Perform Action step.
    ConnerNet,
    /// A Seismic Torpedo going off on an obstacle: each ship at Range 1
    /// rolls 1 attack die and suffers any damage or critical rolled. Never
    /// a token on the board; only appears in a `Detonation`.
    SeismicTorpedo,
}

impl BombKind {
    /// The bomb or mine on a card with this effect.
    pub open spec fn of(effect: UpgradeEffect) -> Option<BombKind> {
        match effect {
            UpgradeEffect::BombOnRevealProton => Some(BombKind::Proton),
            UpgradeEffect::BombOnRevealSeismic => Some(BombKind::Seismic),
            UpgradeEffect::BombOnRevealIon => Some(BombKind::Ion),
            UpgradeEffect::BombOnRevealThermal => Some(BombKind::Thermal),
            UpgradeEffect::BombActionProximityMines => Some(BombKind::ProximityMine),
            UpgradeEffect::BombActionClusterMines => Some(BombKind::ClusterMine),
            UpgradeEffect::BombActionConnerNet => Some(BombKind::ConnerNet),
            _ => None,
        }
    }

    pub fn from_effect(effect: UpgradeEffect) -> (kind: Option<BombKind>)
        ensures
            kind == BombKind::of(effect),
    {
        match effect {
            UpgradeEffect::BombOnRevealProton => Some(BombKind::Proton),
            UpgradeEffect::BombOnRevealSeismic => Some(BombKind::Seismic),
            UpgradeEffect::BombOnRevealIon => Some(BombKind::Ion),
            UpgradeEffect::BombOnRevealThermal => Some(BombKind::Thermal),
            UpgradeEffect::BombActionProximityMines => Some(BombKind::ProximityMine),
            UpgradeEffect::BombActionClusterMines => Some(BombKind::ClusterMine),
            UpgradeEffect::BombActionConnerNet => Some(BombKind::ConnerNet),
            _ => None,
        }
    }

    /// Waits for a ship to cross it.
    pub open spec fn mine(self) -> bool {
        self == BombKind::ProximityMine || self == BombKind::ClusterMine || self
            == BombKind::ConnerNet
    }

    /// Mines are dropped as an action and wait for a ship to cross them;
    /// everything else drops on dial reveal and blows at end of Activation.
    pub fn is_mine(self) -> (mine: bool)
        ensures
            mine == self.mine(),
    {
        match self {
            BombKind::ProximityMine | BombKind::ClusterMine | BombKind::ConnerNet => true,
            _ => false,
        }
    }

    /// The token's name.
    pub open spec fn called(self) -> Seq<char> {
        match self {
            BombKind::Proton => "Proton Bomb"@,
            BombKind::Seismic => "Seismic Charge"@,
            BombKind::Ion => "Ion Bomb"@,
            BombKind::Thermal => "Thermal Detonator"@,
            BombKind::ProximityMine => "Proximity Mine"@,
            BombKind::ClusterMine => "Cluster Mine"@,
            BombKind::ConnerNet => "Conner Net"@,
            BombKind::SeismicTorpedo => "Seismic Torpedo"@,
        }
    }

    pub fn name(self) -> (name: &'static str)
        ensures
            name@ == self.called(),
    {
        match self {
            BombKind::Proton => "Proton Bomb",
            BombKind::Seismic => "Seismic Charge",
            BombKind::Ion => "Ion Bomb",
            BombKind::Thermal => "Thermal Detonator",
            BombKind::ProximityMine => "Proximity Mine",
            BombKind::ClusterMine => "Cluster Mine",
            BombKind::ConnerNet => "Conner Net",
            BombKind::SeismicTorpedo => "Seismic Torpedo",
        }
    }
}

/// A bomb or mine token on the board. `pose` is the token's front-center
/// like a ship pose (facing the way the dropping ship faced).
#[derive(Debug, Clone, Copy, PartialEq, Eq, Structural)]
pub struct BombToken {
    pub id: u32,
    pub kind: BombKind,
    /// The card it came from (for names in the client).
    pub card: UpgradeId,
    pub pose: Pose,
    pub owner: PlayerId,
}

/// What one ship suffered when a token detonated.
#[derive(Debug, Clone, Copy, PartialEq, Eq, Structural)]
pub struct BombHit {
    pub ship: ShipId,
    /// Damage points suffered (shields first), critical ones included.
    pub damage: u8,
    /// Faceup Damage cards dealt / criticals that reached the hull.
    pub crits: u8,
    pub ion: u8,
    pub stress: u8,
    pub destroyed: bool,
}

/// One token going off and everything it did.
#[derive(Debug, Clone, PartialEq, Eq)]
pub struct Detonation {
    pub token: BombToken,
    pub hits: Vec<BombHit>,
}

/// A detonation, with its hits as a sequence.
pub struct DetonationModel {
    pub token: BombToken,
    pub hits: Seq<BombHit>,
}

impl View for Detonation {
    type V = DetonationModel;

    open spec fn view(&self) -> DetonationModel {
        DetonationModel { token: self.token, hits: self.hits@ }
    }
}

/// Where tokens dropped by a ship land: one straight-1 template behind the
/// rear edge, and one token width to either side of that.
#[derive(Debug, Clone, Copy, PartialEq, Eq, Structural)]
pub struct DropSpots {
    pub left: Pose,
    pub center: Pose,
    pub right: Pose,
}

/// The places that a drop of this kind fills.
pub open spec fn dropped_at(kind: BombKind, spots: DropSpots) -> Seq<Pose> {
    if kind == BombKind::ClusterMine {
        seq![spots.left, spots.center, spots.right]
    } else {
        seq![spots.center]
    }
}

/// Token poses for a drop: one token, or the three-wide Cluster Mine set.
pub fn drop_poses(kind: BombKind, spots: DropSpots) -> (poses: Vec<Pose>)
    ensures
        poses@ == dropped_at(kind, spots),
{
    let mut poses: Vec<Pose> = Vec::new();
    if kind == BombKind::ClusterMine {
        poses.push(spots.left);
        poses.push(spots.center);
        poses.push(spots.right);
    } else {
        poses.push(spots.center);
    }
    assert(poses@ =~= dropped_at(kind, spots));
    poses
}

} // verus!
