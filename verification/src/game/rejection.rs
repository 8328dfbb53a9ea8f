//! Why a command is refused.

use vstd::prelude::*;
use vstd::string::*;

verus! {

#[derive(Debug, Clone, PartialEq, Eq)]
pub enum Rejection {
    WrongPhase,
    NoSuchShip,
    NotYourShip,
    ShipDestroyed,
    OutOfZone,
    OverlapsShip,
    BadManeuverIndex,
    /// The action is not on this ship's action bar.
    ActionNotOnBar,
    /// Target locks need a living enemy ship as the target.
    BadLockTarget,
    /// Red maneuvers cannot be planned while stressed.
    StressedRedForbidden,
    /// All surviving ships need a plan before committing.
    PlansIncomplete,
    AlreadyCommitted,
    /// No attack is waiting for a target right now.
    NoPendingAttack,
    /// Not one of the eligible targets for the pending attack.
    BadTarget,
    /// Callsign empty, too long, or already used by another ship.
    BadCallsign(String),
    /// The card is not equipped on that ship (or is not that kind of card).
    NoSuchUpgrade,
    /// A boost or barrel-roll template only some pilots may use.
    TemplateNotAllowed,
    /// Nothing grants this ship a second action, or not that one.
    SecondActionNotAllowed,
    /// The base would sit on an asteroid or debris token.
    OverlapsObstacle,
    /// Mission 2: the Rebels must deploy beyond Range 1 of every asteroid.
    TooCloseToObstacle,
    /// Mission 2: the disabled ship flies only speed 1-2 until Round 5.
    ShipDisabled,
    /// The action exists only in a mission (Protect, mission 1).
    NotInThisMission,
    /// Han Solo (HotR) is placed after every other ship.
    PlaceLast,
    /// Han Solo (HotR) must be placed beyond Range 3 of every enemy ship.
    TooCloseToEnemy,
    /// No obstacle with that id is on the board.
    NoSuchObstacle,
}

impl Rejection {
    /// The reason in words.
    pub open spec fn reads(self) -> Seq<char> {
        match self {
            Rejection::WrongPhase => "not allowed in the current phase"@,
            Rejection::NoSuchShip => "no such ship"@,
            Rejection::NotYourShip => "that is not your ship"@,
            Rejection::ShipDestroyed => "that ship is destroyed"@,
            Rejection::OutOfZone => "outside your deployment zone"@,
            Rejection::OverlapsShip => "overlaps another ship"@,
            Rejection::BadManeuverIndex => "no such maneuver on this dial"@,
            Rejection::ActionNotOnBar => "that action is not on this ship's action bar"@,
            Rejection::BadLockTarget => "target lock needs a living enemy ship"@,
            Rejection::StressedRedForbidden => "stressed ships cannot fly red maneuvers"@,
            Rejection::PlansIncomplete => "every surviving ship needs a maneuver first"@,
            Rejection::AlreadyCommitted => "plans already committed this turn"@,
            Rejection::NoPendingAttack => "no attack is waiting for a target"@,
            Rejection::BadTarget => "that ship is not an eligible target"@,
            Rejection::BadCallsign(why) => "bad callsign: "@ + why@,
            Rejection::NoSuchUpgrade => "that ship does not carry that card"@,
            Rejection::TemplateNotAllowed => "that template is not available to this pilot"@,
            Rejection::SecondActionNotAllowed => "this ship cannot take that second action"@,
            Rejection::OverlapsObstacle => "the ship would sit on an obstacle"@,
            Rejection::TooCloseToObstacle => "must deploy beyond Range 1 of every asteroid"@,
            Rejection::ShipDisabled => "the disabled ship flies only speed 1-2 until Round 5"@,
            Rejection::NotInThisMission => "that action is not available in this game"@,
            Rejection::PlaceLast => "this ship is placed after every other ship"@,
            Rejection::TooCloseToEnemy => "must be placed beyond Range 3 of every enemy ship"@,
            Rejection::NoSuchObstacle => "there is no such obstacle on the board"@,
        }
    }

    /// The reason in words.
    pub fn message(&self) -> (text: String)
        ensures
            text@ == self.reads(),
    {
        let s = match self {
            Rejection::WrongPhase => "not allowed in the current phase",
            Rejection::NoSuchShip => "no such ship",
            Rejection::NotYourShip => "that is not your ship",
            Rejection::ShipDestroyed => "that ship is destroyed",
            Rejection::OutOfZone => "outside your deployment zone",
            Rejection::OverlapsShip => "overlaps another ship",
            Rejection::BadManeuverIndex => "no such maneuver on this dial",
            Rejection::ActionNotOnBar => "that action is not on this ship's action bar",
            Rejection::BadLockTarget => "target lock needs a living enemy ship",
            Rejection::StressedRedForbidden => "stressed ships cannot fly red maneuvers",
            Rejection::PlansIncomplete => "every surviving ship needs a maneuver first",
            Rejection::AlreadyCommitted => "plans already committed this turn",
            Rejection::NoPendingAttack => "no attack is waiting for a target",
            Rejection::BadTarget => "that ship is not an eligible target",
            Rejection::BadCallsign(why) => {
                let mut text = String::from_str("bad callsign: ");
                text.append(why.as_str());
                return text;
            },
            Rejection::NoSuchUpgrade => "that ship does not carry that card",
            Rejection::TemplateNotAllowed => "that template is not available to this pilot",
            Rejection::SecondActionNotAllowed => "this ship cannot take that second action",
            Rejection::OverlapsObstacle => "the ship would sit on an obstacle",
            Rejection::TooCloseToObstacle => "must deploy beyond Range 1 of every asteroid",
            Rejection::ShipDisabled => "the disabled ship flies only speed 1-2 until Round 5",
            Rejection::NotInThisMission => "that action is not available in this game",
            Rejection::PlaceLast => "this ship is placed after every other ship",
            Rejection::TooCloseToEnemy => "must be placed beyond Range 3 of every enemy ship",
            Rejection::NoSuchObstacle => "there is no such obstacle on the board",
        };
        String::from_str(s)
    }
}

} // verus!
