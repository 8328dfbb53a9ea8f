//! Actions (core rules p.8-9): each ship may perform ONE action
//! immediately after executing its maneuver. Which actions a ship may
//! take comes from its class action bar. A stressed ship cannot perform
//! actions; neither can a ship that bumped during its move.

use vstd::prelude::*;

use crate::maneuver::{Difficulty, Maneuver, Steer};
use crate::ship::ShipId;
use crate::upgrade::UpgradeId;

verus! {

/// An entry on a ship's action bar.
#[derive(Debug, Clone, Copy, PartialEq, Eq, Structural)]
pub enum ActionKind {
    Focus,
    TargetLock,
    Evade,
    BarrelRoll,
    Boost,
}

/// Boost template choice: straight-1 or bank-1 left/right; "Blue Ace"
/// may also use the turn-1 templates.
#[derive(Debug, Clone, Copy, PartialEq, Eq, Structural)]
pub enum BoostDir {
    Straight,
    BankLeft,
    BankRight,
    TurnLeft,
    TurnRight,
}

/// Why a ship may plan a second action, and what it may be.
#[derive(Debug, Clone, Copy, PartialEq, Eq, Structural)]
pub enum SecondActionKind {
    /// Push the Limit: a free action from the bar after the first one,
    /// then a stress token.
    FreeBarAction,
    /// Darth Vader: two actions in the Perform Action step.
    TwoActions,
    /// "Snap" Wexley: a free boost after a 2-, 3- or 4-speed maneuver
    /// when not touching a ship — before the Perform Action step.
    BoostAfterMove,
    /// Jake Farrell: a free boost or barrel roll after a focus action.
    RepositionAfterFocus,
    /// BB-8: a free barrel roll when a green maneuver is revealed,
    /// before the ship moves.
    RollOnGreenReveal,
    /// Turr Phennir: a free boost or barrel roll after performing an
    /// attack (resolved in the Combat phase, recorded on the attack).
    RepositionAfterAttack,
    /// Experimental Interface: a free card action after the first action,
    /// then a stress token.
    CardActionThenStress,
}

/// What a ship may plan beyond the basic action bar (own ships only).
#[derive(Debug, Clone, PartialEq, Eq)]
pub struct ActionExtras {
    pub second: Option<SecondActionKind>,
    /// "Blue Ace": boosts may use the turn-1 templates.
    pub turn_boost: bool,
    /// "Zeta Ace": barrel rolls may use the straight-2 template.
    pub far_roll: bool,
    /// Cards whose "Action:" can be taken (Marksmanship, Rage, Expose,
    /// R2-F2) via `PlannedAction::CardAction`.
    pub card_actions: Vec<UpgradeId>,
    /// Lieutenant Lorrir: barrel rolls may use the bank-1 templates for a
    /// stress token (`PlannedAction::BarrelRollBank`).
    pub bank_roll: bool,
    /// Expert Handling: a barrel roll without the icon on the bar (stress
    /// if it is missing), removing one enemy target lock afterwards.
    pub expert_roll: bool,
    /// Daredevil: a white turn-1 as an action.
    pub daredevil: bool,
    /// Cards that may be switched on for the round.
    pub toggles: Vec<UpgradeId>,
}

/// What may be planned beyond the bar, with the lists as sequences.
pub struct ExtrasModel {
    pub second: Option<SecondActionKind>,
    pub turn_boost: bool,
    pub far_roll: bool,
    pub card_actions: Seq<UpgradeId>,
    pub bank_roll: bool,
    pub expert_roll: bool,
    pub daredevil: bool,
    pub toggles: Seq<UpgradeId>,
}

impl View for ActionExtras {
    type V = ExtrasModel;

    open spec fn view(&self) -> ExtrasModel {
        ExtrasModel {
            second: self.second,
            turn_boost: self.turn_boost,
            far_roll: self.far_roll,
            card_actions: self.card_actions@,
            bank_roll: self.bank_roll,
            expert_roll: self.expert_roll,
            daredevil: self.daredevil,
            toggles: self.toggles@,
        }
    }
}

impl Default for ActionExtras {
    fn default() -> (extras: Self)
        ensures
            extras@ == (ExtrasModel {
                second: None,
                turn_boost: false,
                far_roll: false,
                card_actions: Seq::empty(),
                bank_roll: false,
                expert_roll: false,
                daredevil: false,
                toggles: Seq::empty(),
            }),
    {
        ActionExtras {
            second: None,
            turn_boost: false,
            far_roll: false,
            card_actions: Vec::new(),
            bank_roll: false,
            expert_roll: false,
            daredevil: false,
            toggles: Vec::new(),
        }
    }
}

/// The steering of a boost template.
pub open spec fn boost_steer(dir: BoostDir) -> Steer {
    match dir {
        BoostDir::Straight => Steer::Straight,
        BoostDir::BankLeft => Steer::BankLeft,
        BoostDir::BankRight => Steer::BankRight,
        BoostDir::TurnLeft => Steer::TurnLeft,
        BoostDir::TurnRight => Steer::TurnRight,
    }
}

/// The 1-speed maneuver a boost flies. Boosting does NOT count as
/// executing a maneuver (no stress interaction, no dial color).
pub fn boost_maneuver(dir: BoostDir) -> (m: Maneuver)
    ensures
        m.steer == boost_steer(dir),
        m.distance == 1,
        m.difficulty == Difficulty::Normal,
        m.flyable(),
{
    let steer = match dir {
        BoostDir::Straight => Steer::Straight,
        BoostDir::BankLeft => Steer::BankLeft,
        BoostDir::BankRight => Steer::BankRight,
        BoostDir::TurnLeft => Steer::TurnLeft,
        BoostDir::TurnRight => Steer::TurnRight,
    };
    Maneuver { steer, distance: 1, difficulty: Difficulty::Normal }
}

#[derive(Debug, Clone, Copy, PartialEq, Eq, Structural)]
pub enum Side {
    Left,
    Right,
}

/// A concrete action choice, planned during the Planning phase and
/// executed right after the ship's maneuver.
#[derive(Debug, Clone, Copy, PartialEq, Eq, Structural)]
pub enum PlannedAction {
    /// Choosing not to act is always allowed.
    Pass,
    /// Gain a focus token (spend in combat: eyes → hits or evades).
    Focus,
    /// Gain an evade token (spend in combat: cancel one damage).
    Evade,
    /// Shift laterally by a straight-1 template, heading unchanged.
    BarrelRoll(Side),
    /// Fly a straight-1 or bank-1 template forward (not a maneuver).
    Boost(BoostDir),
    /// Lock a target at range 1-3 (any point to any point, 360°).
    TargetLock(ShipId),
    /// Card action: discard this mine card to drop its token(s) behind
    /// the ship (Proximity Mines, Cluster Mines, Conner Net).
    DropMine(UpgradeId),
    /// "Zeta Ace": a barrel roll with the straight-2 template.
    BarrelRollFar(Side),
    /// A card's "Action:" (Marksmanship, Rage, Expose, R2-F2): its effect
    /// lasts for the round.
    CardAction(UpgradeId),
    /// A card action aimed at an obstacle (Seismic Torpedo): the card and
    /// the obstacle id. Only resolved as the main action of the turn.
    CardActionAt(UpgradeId, u32),
    /// Lieutenant Lorrir: a barrel roll with a bank-1 template to `side`,
    /// bending toward the ship's front (`true`) or rear, for a stress.
    BarrelRollBank(Side, bool),
    /// Political Escort: an evade token for the shuttle at Range 1.
    Protect,
}

impl PlannedAction {
    /// The bar entry this action requires (None = always available).
    pub open spec fn needs(self) -> Option<ActionKind> {
        match self {
            PlannedAction::Focus => Some(ActionKind::Focus),
            PlannedAction::Evade => Some(ActionKind::Evade),
            PlannedAction::Boost(_) => Some(ActionKind::Boost),
            PlannedAction::TargetLock(_) => Some(ActionKind::TargetLock),
            PlannedAction::BarrelRoll(_) | PlannedAction::BarrelRollFar(_)
            | PlannedAction::BarrelRollBank(_, _) => Some(ActionKind::BarrelRoll),
            _ => None,
        }
    }

    /// The bar entry this action requires (None = always available).
    pub fn kind(&self) -> (kind: Option<ActionKind>)
        ensures
            kind == self.needs(),
    {
        match self {
            PlannedAction::Pass => None,
            PlannedAction::Focus => Some(ActionKind::Focus),
            PlannedAction::Evade => Some(ActionKind::Evade),
            PlannedAction::BarrelRoll(_) => Some(ActionKind::BarrelRoll),
            PlannedAction::Boost(_) => Some(ActionKind::Boost),
            PlannedAction::TargetLock(_) => Some(ActionKind::TargetLock),
            PlannedAction::DropMine(_) => None,
            PlannedAction::BarrelRollFar(_) => Some(ActionKind::BarrelRoll),
            PlannedAction::CardAction(_) => None,
            PlannedAction::CardActionAt(_, _) => None,
            PlannedAction::BarrelRollBank(_, _) => Some(ActionKind::BarrelRoll),
            PlannedAction::Protect => None,
        }
    }
}

/// What became of a ship's planned action during resolution.
#[derive(Debug, Clone, Copy, PartialEq, Eq, Structural)]
pub enum ActionResult {
    Performed,
    /// Stressed ships cannot perform actions.
    SkippedStressed,
    /// A ship that bumped loses its action.
    SkippedBumped,
    /// A Damaged Sensor Array denies all action-bar actions.
    SkippedDamaged,
    /// The action was impossible (barrel roll blocked, lock out of range).
    Failed,
    /// Caught in a Conner Net: the Perform Action step is skipped.
    SkippedNetted,
    /// Overlapped an asteroid while moving: no action this round.
    SkippedObstacle,
}

} // verus!
