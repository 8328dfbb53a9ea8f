//! Dials, maneuvers and the templates they are flown with.

use vstd::prelude::*;
use vstd::string::*;

use crate::squad::{decimal, digits};

verus! {

#[derive(Debug, Clone, Copy, PartialEq, Eq, Hash, Structural)]
pub struct ManeuverSetId(pub u32);

#[derive(Debug, Clone, Copy, PartialEq, Eq, Structural)]
pub enum Steer {
    /// No heading change. Speeds 1..=5, or 0 to hold position.
    Straight,
    /// 45° arc on the bank templates. Speeds 1..=3.
    BankLeft,
    BankRight,
    /// 90° arc on the turn templates. Speeds 1..=4 (4 extrapolated).
    TurnLeft,
    TurnRight,
    /// Tallon roll: fly a 90° turn template, then rotate a further 90° in
    /// the same direction — ends facing 180° from start, displaced to the
    /// flank. Speeds as per turn templates.
    TallonLeft,
    TallonRight,
    /// Koiogran turn: fly a straight template at `distance`, then flip
    /// 180° in place — ends facing backward. Speeds 1..=5 geometrically;
    /// which speeds a ship may fly comes from its dial.
    KTurn,
    /// Segnor's loop: fly a bank template, then flip 180° in place — ends
    /// facing back the way it came, offset to the flank. Speeds as banks.
    SegnorLeft,
    SegnorRight,
}

/// Maneuver difficulty, color-coded as on the physical dials. Stress rules:
/// flying a Blue/Easy maneuver removes one stress token; flying a Red/Hard
/// maneuver adds one; a stressed ship may not select Red maneuvers.
#[derive(Debug, Clone, Copy, PartialEq, Eq, Structural)]
pub enum Difficulty {
    /// Blue on the dial.
    Easy,
    /// White on the dial.
    Normal,
    /// Red on the dial.
    Hard,
}

#[derive(Debug, Clone, Copy, PartialEq, Eq, Structural)]
pub struct Maneuver {
    pub steer: Steer,
    /// Speed: 1..=5 for Straight and KTurn, 1..=3 for banks,
    /// 1..=4 for turns and Tallon rolls.
    pub distance: u8,
    pub difficulty: Difficulty,
}

/// The maneuvers available to one agility tier of ship.
#[derive(Debug, Clone)]
pub struct ManeuverSet {
    pub id: ManeuverSetId,
    pub maneuvers: Vec<Maneuver>,
}

/// The physical templates, by speed.
#[derive(Debug, Clone, Copy, PartialEq, Eq, Structural)]
pub enum Template {
    Straight(u8),
    Bank(u8),
    Turn(u8),
}

/// One piece of a maneuver's path, in the ship's local frame. Angles are in
/// eighths of a full turn, positive to the left.
#[derive(Debug, Clone, Copy, PartialEq, Eq, Structural)]
pub enum Segment {
    /// Advance along the current heading by the template's length.
    Line(Template),
    /// Follow the template's arc.
    Arc { template: Template, eighths: i8 },
    /// Turn in place about the anchor.
    Rotate(i8),
}

#[derive(Debug, Clone, Copy, PartialEq, Eq, Structural)]
pub struct BadManeuver {
    pub steer: Steer,
    pub distance: u8,
}

impl Steer {
    /// The fastest speed that a template exists for.
    pub open spec fn top_speed(self) -> u8 {
        match self {
            Steer::Straight | Steer::KTurn => 5,
            Steer::BankLeft | Steer::BankRight | Steer::SegnorLeft | Steer::SegnorRight => 3,
            Steer::TurnLeft | Steer::TurnRight | Steer::TallonLeft | Steer::TallonRight => 4,
        }
    }
}

impl Steer {
    /// The slowest speed: only a straight maneuver can be of no length.
    pub open spec fn least_speed(self) -> u8 {
        match self {
            Steer::Straight => 0,
            _ => 1,
        }
    }
}

impl Maneuver {
    /// Is there a template for it? A straight at speed 0 holds position.
    pub open spec fn flyable(self) -> bool {
        self.steer.least_speed() <= self.distance <= self.steer.top_speed()
    }

    /// The segments that make up its path.
    pub open spec fn path(self) -> Seq<Segment> {
        let d = self.distance;
        match self.steer {
            Steer::Straight => seq![Segment::Line(Template::Straight(d))],
            Steer::BankLeft => seq![Segment::Arc { template: Template::Bank(d), eighths: 1 }],
            Steer::BankRight => seq![Segment::Arc { template: Template::Bank(d), eighths: (-1) as i8 }],
            Steer::TurnLeft => seq![Segment::Arc { template: Template::Turn(d), eighths: 2 }],
            Steer::TurnRight => seq![Segment::Arc { template: Template::Turn(d), eighths: (-2) as i8 }],
            Steer::TallonLeft => seq![
                Segment::Arc { template: Template::Turn(d), eighths: 2 },
                Segment::Rotate(2),
            ],
            Steer::TallonRight => seq![
                Segment::Arc { template: Template::Turn(d), eighths: (-2) as i8 },
                Segment::Rotate((-2) as i8),
            ],
            Steer::KTurn => seq![Segment::Line(Template::Straight(d)), Segment::Rotate(4)],
            Steer::SegnorLeft => seq![
                Segment::Arc { template: Template::Bank(d), eighths: 1 },
                Segment::Rotate(4),
            ],
            Steer::SegnorRight => seq![
                Segment::Arc { template: Template::Bank(d), eighths: (-1) as i8 },
                Segment::Rotate(4),
            ],
        }
    }
}

/// How far a path turns the ship, in eighths of a turn to the left.
pub open spec fn turned(path: Seq<Segment>) -> int
    decreases path.len(),
{
    if path.len() == 0 {
        0
    } else {
        turned(path.drop_last()) + match path.last() {
            Segment::Line(_) => 0,
            Segment::Arc { template: _, eighths } => eighths as int,
            Segment::Rotate(eighths) => eighths as int,
        }
    }
}

/// Koiogran turns and Tallon rolls end facing backward; a Segnor's loop ends
/// half a turn away from the bank it flies.
pub proof fn reversals_turn_the_ship_around(m: Maneuver)
    ensures
        m.steer == Steer::KTurn ==> turned(m.path()) == 4,
        m.steer == Steer::TallonLeft ==> turned(m.path()) == 4,
        m.steer == Steer::TallonRight ==> turned(m.path()) == -4,
        m.steer == Steer::SegnorLeft ==> turned(m.path()) == 5,
        m.steer == Steer::SegnorRight ==> turned(m.path()) == 3,
{
    reveal_with_fuel(turned, 3);
}

/// The steering that mirrors this one about the ship's axis.
pub open spec fn mirrored(steer: Steer) -> Steer {
    match steer {
        Steer::Straight => Steer::Straight,
        Steer::BankLeft => Steer::BankRight,
        Steer::BankRight => Steer::BankLeft,
        Steer::TurnLeft => Steer::TurnRight,
        Steer::TurnRight => Steer::TurnLeft,
        Steer::TallonLeft => Steer::TallonRight,
        Steer::TallonRight => Steer::TallonLeft,
        Steer::KTurn => Steer::KTurn,
        Steer::SegnorLeft => Steer::SegnorRight,
        Steer::SegnorRight => Steer::SegnorLeft,
    }
}

/// Left and right fly the same templates, turning equally far to opposite
/// sides (half a turn is the same to either side).
pub proof fn left_mirrors_right(m: Maneuver, n: Maneuver)
    requires
        n.steer == mirrored(m.steer),
        n.distance == m.distance,
    ensures
        n.flyable() == m.flyable(),
        n.path().len() == m.path().len(),
        (turned(n.path()) + turned(m.path())) % 8 == 0,
{
    reveal_with_fuel(turned, 3);
}

impl Steer {
    /// The bearing that is flown when the flip at the end has no room.
    pub open spec fn unflipped(self) -> Option<Steer> {
        match self {
            Steer::KTurn => Some(Steer::Straight),
            Steer::TallonLeft => Some(Steer::TurnLeft),
            Steer::TallonRight => Some(Steer::TurnRight),
            Steer::SegnorLeft => Some(Steer::BankLeft),
            Steer::SegnorRight => Some(Steer::BankRight),
            _ => None,
        }
    }
}

/// The plain maneuver of the same speed that is executed instead of one that
/// would turn the ship around onto another; None for the others.
pub fn plain(m: Maneuver) -> (plain: Option<Maneuver>)
    ensures
        (plain is Some) == (m.steer.unflipped() is Some),
        plain is Some ==> plain->0 == (Maneuver { steer: m.steer.unflipped()->0, ..m }),
        plain is Some && m.flyable() ==> plain->0.flyable(),
{
    let steer = match m.steer {
        Steer::KTurn => Steer::Straight,
        Steer::TallonLeft => Steer::TurnLeft,
        Steer::TallonRight => Steer::TurnRight,
        Steer::SegnorLeft => Steer::BankLeft,
        Steer::SegnorRight => Steer::BankRight,
        _ => return None,
    };
    Some(Maneuver { steer, ..m })
}

impl BadManeuver {
    /// The fault in words.
    pub open spec fn reads(self) -> Seq<char> {
        "invalid maneuver: "@ + self.steer.called() + " at speed "@ + digits(self.distance as nat)
    }

    /// The fault in words.
    pub fn message(&self) -> (text: String)
        ensures
            text@ == self.reads(),
    {
        let mut t = String::from_str("invalid maneuver: ");
        t.append(self.steer.name());
        t.append(" at speed ");
        t.append(decimal(self.distance as usize).as_str());
        t
    }
}

/// Expand a maneuver into its path segments (the "template").
pub fn segments(m: Maneuver) -> (path: Result<Vec<Segment>, BadManeuver>)
    ensures
        path is Ok <==> m.flyable(),
        path is Ok ==> path->Ok_0@ == m.path(),
        path is Err ==> path->Err_0 == (BadManeuver { steer: m.steer, distance: m.distance }),
{
    let d: u8 = m.distance;
    let top: u8 = match m.steer {
        Steer::Straight | Steer::KTurn => 5,
        Steer::BankLeft | Steer::BankRight | Steer::SegnorLeft | Steer::SegnorRight => 3,
        Steer::TurnLeft | Steer::TurnRight | Steer::TallonLeft | Steer::TallonRight => 4,
    };
    let least: u8 = match m.steer {
        Steer::Straight => 0,
        _ => 1,
    };
    if d < least || d > top {
        return Err(BadManeuver { steer: m.steer, distance: d });
    }
    let mut path: Vec<Segment> = Vec::new();
    match m.steer {
        Steer::Straight => {
            path.push(Segment::Line(Template::Straight(d)));
        },
        Steer::BankLeft => {
            path.push(Segment::Arc { template: Template::Bank(d), eighths: 1 });
        },
        Steer::BankRight => {
            path.push(Segment::Arc { template: Template::Bank(d), eighths: -1 });
        },
        Steer::TurnLeft => {
            path.push(Segment::Arc { template: Template::Turn(d), eighths: 2 });
        },
        Steer::TurnRight => {
            path.push(Segment::Arc { template: Template::Turn(d), eighths: -2 });
        },
        Steer::TallonLeft => {
            path.push(Segment::Arc { template: Template::Turn(d), eighths: 2 });
            path.push(Segment::Rotate(2));
        },
        Steer::TallonRight => {
            path.push(Segment::Arc { template: Template::Turn(d), eighths: -2 });
            path.push(Segment::Rotate(-2));
        },
        Steer::KTurn => {
            path.push(Segment::Line(Template::Straight(d)));
            path.push(Segment::Rotate(4));
        },
        Steer::SegnorLeft => {
            path.push(Segment::Arc { template: Template::Bank(d), eighths: 1 });
            path.push(Segment::Rotate(4));
        },
        Steer::SegnorRight => {
            path.push(Segment::Arc { template: Template::Bank(d), eighths: -1 });
            path.push(Segment::Rotate(4));
        },
    }
    assert(path@ =~= m.path());
    Ok(path)
}

impl Steer {
    /// The bearing as one word.
    pub open spec fn called(self) -> Seq<char> {
        match self {
            Steer::Straight => "Straight"@,
            Steer::BankLeft => "BankLeft"@,
            Steer::BankRight => "BankRight"@,
            Steer::TurnLeft => "TurnLeft"@,
            Steer::TurnRight => "TurnRight"@,
            Steer::TallonLeft => "TallonLeft"@,
            Steer::TallonRight => "TallonRight"@,
            Steer::KTurn => "KTurn"@,
            Steer::SegnorLeft => "SegnorLeft"@,
            Steer::SegnorRight => "SegnorRight"@,
        }
    }

    pub fn name(self) -> (name: &'static str)
        ensures
            name@ == self.called(),
    {
        match self {
            Steer::Straight => "Straight",
            Steer::BankLeft => "BankLeft",
            Steer::BankRight => "BankRight",
            Steer::TurnLeft => "TurnLeft",
            Steer::TurnRight => "TurnRight",
            Steer::TallonLeft => "TallonLeft",
            Steer::TallonRight => "TallonRight",
            Steer::KTurn => "KTurn",
            Steer::SegnorLeft => "SegnorLeft",
            Steer::SegnorRight => "SegnorRight",
        }
    }
}

impl Steer {
    /// The bearing in words.
    pub open spec fn spoken(self) -> Seq<char> {
        match self {
            Steer::Straight => "straight"@,
            Steer::BankLeft => "bank left"@,
            Steer::BankRight => "bank right"@,
            Steer::TurnLeft => "turn left"@,
            Steer::TurnRight => "turn right"@,
            Steer::TallonLeft => "tallon left"@,
            Steer::TallonRight => "tallon right"@,
            Steer::KTurn => "k-turn"@,
            Steer::SegnorLeft => "segnor left"@,
            Steer::SegnorRight => "segnor right"@,
        }
    }

    pub fn words(self) -> (words: &'static str)
        ensures
            words@ == self.spoken(),
    {
        match self {
            Steer::Straight => "straight",
            Steer::BankLeft => "bank left",
            Steer::BankRight => "bank right",
            Steer::TurnLeft => "turn left",
            Steer::TurnRight => "turn right",
            Steer::TallonLeft => "tallon left",
            Steer::TallonRight => "tallon right",
            Steer::KTurn => "k-turn",
            Steer::SegnorLeft => "segnor left",
            Steer::SegnorRight => "segnor right",
        }
    }
}

impl Difficulty {
    /// The color on the dial.
    pub open spec fn color(self) -> Seq<char> {
        match self {
            Difficulty::Easy => "green"@,
            Difficulty::Normal => "white"@,
            Difficulty::Hard => "red"@,
        }
    }

    pub fn color_name(self) -> (name: &'static str)
        ensures
            name@ == self.color(),
    {
        match self {
            Difficulty::Easy => "green",
            Difficulty::Normal => "white",
            Difficulty::Hard => "red",
        }
    }
}

impl Maneuver {
    /// Bearing, speed and color, in words.
    pub open spec fn labelled(self) -> Seq<char> {
        self.steer.spoken() + " "@ + digits(self.distance as nat) + " ("@ + self.difficulty.color()
            + ")"@
    }

    /// Bearing, speed and color, in words.
    pub fn label(&self) -> (text: String)
        ensures
            text@ == self.labelled(),
    {
        let mut t = String::from_str(self.steer.words());
        t.append(" ");
        t.append(decimal(self.distance as usize).as_str());
        t.append(" (");
        t.append(self.difficulty.color_name());
        t.append(")");
        t
    }
}

} // verus!
