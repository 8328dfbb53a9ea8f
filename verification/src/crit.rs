//! Critical damage effects (original core set, 14 types) — implemented as
//! modifier tags: a crit that reaches the hull draws one effect; immediate
//! ones resolve at once, persistent ones stay attached to the ship and are
//! public information.

use vstd::prelude::*;

use crate::dice::{count, count_push, spot, spot_from, tally};
use crate::maneuver::{Difficulty, Maneuver, Steer};

verus! {

#[derive(Debug, Clone, Copy, PartialEq, Eq, Structural)]
pub enum CritEffect {
    /// Next attack rolls 0 attack dice, then this clears.
    BlindedPilot,
    /// Each combat phase: roll one attack die, take 1 damage on a Hit.
    ConsoleFire,
    /// Pilot skill becomes 0 from the next round on.
    DamagedCockpit,
    /// Turn (90°) maneuvers are treated as red.
    DamagedEngine,
    /// Cannot perform actions from the action bar (Pass still allowed).
    DamagedSensorArray,
    /// Immediate: counts as 2 damage against the hull.
    DirectHit,
    /// Ignore pilot ability / elite talents.
    InjuredPilot,
    /// Immediate: roll one attack die, take 1 more damage on a Hit.
    MinorExplosion,
    /// Immediate: one existing faceup effect flips facedown (removed).
    MinorHullBreach,
    /// Suffer 1 damage whenever this ship bumps another ship.
    StunnedPilot,
    /// Bank (45°) maneuvers are treated as red.
    ThrustControlFire,
    /// Roll 1 fewer attack die with the primary weapon.
    WeaponMalfunction,
    /// Cannot attack this round or the next.
    WeaponsFailure { rounds: u8 },
    /// Agility reduced by 1.
    StructuralDamage,
}

/// The damage deck: fourteen cards, one of each.
pub open spec fn deck() -> Seq<CritEffect> {
    seq![
        CritEffect::BlindedPilot,
        CritEffect::ConsoleFire,
        CritEffect::DamagedCockpit,
        CritEffect::DamagedEngine,
        CritEffect::DamagedSensorArray,
        CritEffect::DirectHit,
        CritEffect::InjuredPilot,
        CritEffect::MinorExplosion,
        CritEffect::MinorHullBreach,
        CritEffect::StunnedPilot,
        CritEffect::ThrustControlFire,
        CritEffect::WeaponMalfunction,
        CritEffect::WeaponsFailure { rounds: 2 },
        CritEffect::StructuralDamage,
    ]
}

/// The card that a raw random byte draws.
pub open spec fn drawn(raw: u8) -> CritEffect {
    deck()[raw as int % 14]
}

/// Draw one effect from the table with a raw random byte.
pub fn draw(raw: u8) -> (effect: CritEffect)
    ensures
        effect == drawn(raw),
{
    match raw % 14 {
        0 => CritEffect::BlindedPilot,
        1 => CritEffect::ConsoleFire,
        2 => CritEffect::DamagedCockpit,
        3 => CritEffect::DamagedEngine,
        4 => CritEffect::DamagedSensorArray,
        5 => CritEffect::DirectHit,
        6 => CritEffect::InjuredPilot,
        7 => CritEffect::MinorExplosion,
        8 => CritEffect::MinorHullBreach,
        9 => CritEffect::StunnedPilot,
        10 => CritEffect::ThrustControlFire,
        11 => CritEffect::WeaponMalfunction,
        12 => CritEffect::WeaponsFailure { rounds: 2 },
        _ => CritEffect::StructuralDamage,
    }
}

/// Every card of the deck can be drawn, and each fourteen bytes in a row
/// draw each card once.
pub proof fn every_card_is_drawn(card: int)
    requires
        0 <= card < 14,
    ensures
        drawn(card as u8) == deck()[card],
        forall|raw: u8| raw <= 241 ==> #[trigger] drawn(raw) == drawn((raw + 14) as u8),
{
    assert forall|raw: u8| raw <= 241 implies #[trigger] drawn(raw) == drawn((raw + 14) as u8) by {
        assert((raw + 14) % 14 == raw as int % 14);
    }
}

impl CritEffect {
    /// The card's title.
    pub open spec fn title(self) -> Seq<char> {
        match self {
            CritEffect::BlindedPilot => "Blinded Pilot"@,
            CritEffect::ConsoleFire => "Console Fire"@,
            CritEffect::DamagedCockpit => "Damaged Cockpit"@,
            CritEffect::DamagedEngine => "Damaged Engine"@,
            CritEffect::DamagedSensorArray => "Damaged Sensor Array"@,
            CritEffect::DirectHit => "Direct Hit!"@,
            CritEffect::InjuredPilot => "Injured Pilot"@,
            CritEffect::MinorExplosion => "Minor Explosion"@,
            CritEffect::MinorHullBreach => "Minor Hull Breach"@,
            CritEffect::StunnedPilot => "Stunned Pilot"@,
            CritEffect::ThrustControlFire => "Thrust Control Fire"@,
            CritEffect::WeaponMalfunction => "Weapon Malfunction"@,
            CritEffect::WeaponsFailure { rounds: _ } => "Weapons Failure"@,
            CritEffect::StructuralDamage => "Structural Damage"@,
        }
    }

    pub fn name(&self) -> (name: &'static str)
        ensures
            name@ == self.title(),
    {
        match self {
            CritEffect::BlindedPilot => "Blinded Pilot",
            CritEffect::ConsoleFire => "Console Fire",
            CritEffect::DamagedCockpit => "Damaged Cockpit",
            CritEffect::DamagedEngine => "Damaged Engine",
            CritEffect::DamagedSensorArray => "Damaged Sensor Array",
            CritEffect::DirectHit => "Direct Hit!",
            CritEffect::InjuredPilot => "Injured Pilot",
            CritEffect::MinorExplosion => "Minor Explosion",
            CritEffect::MinorHullBreach => "Minor Hull Breach",
            CritEffect::StunnedPilot => "Stunned Pilot",
            CritEffect::ThrustControlFire => "Thrust Control Fire",
            CritEffect::WeaponMalfunction => "Weapon Malfunction",
            CritEffect::WeaponsFailure { rounds: _ } => "Weapons Failure",
            CritEffect::StructuralDamage => "Structural Damage",
        }
    }
}

impl CritEffect {
    /// How bad a card is for the ship that gets it, as Maarek Stele judges:
    /// more is worse.
    pub open spec fn rank(self) -> u8 {
        match self {
            CritEffect::DirectHit => 13,
            CritEffect::WeaponsFailure { rounds: _ } => 12,
            CritEffect::BlindedPilot => 11,
            CritEffect::MinorExplosion => 10,
            CritEffect::ConsoleFire => 9,
            CritEffect::StructuralDamage => 8,
            CritEffect::WeaponMalfunction => 7,
            CritEffect::DamagedSensorArray => 6,
            CritEffect::DamagedCockpit => 5,
            CritEffect::InjuredPilot => 4,
            CritEffect::StunnedPilot => 3,
            CritEffect::DamagedEngine => 2,
            CritEffect::ThrustControlFire => 1,
            CritEffect::MinorHullBreach => 0,
        }
    }

    pub fn severity(&self) -> (rank: u8)
        ensures
            rank == self.rank(),
    {
        match self {
            CritEffect::DirectHit => 13,
            CritEffect::WeaponsFailure { rounds: _ } => 12,
            CritEffect::BlindedPilot => 11,
            CritEffect::MinorExplosion => 10,
            CritEffect::ConsoleFire => 9,
            CritEffect::StructuralDamage => 8,
            CritEffect::WeaponMalfunction => 7,
            CritEffect::DamagedSensorArray => 6,
            CritEffect::DamagedCockpit => 5,
            CritEffect::InjuredPilot => 4,
            CritEffect::StunnedPilot => 3,
            CritEffect::DamagedEngine => 2,
            CritEffect::ThrustControlFire => 1,
            CritEffect::MinorHullBreach => 0,
        }
    }

    /// The card has the Pilot trait; the others have the Ship trait.
    pub open spec fn on_pilot(self) -> bool {
        self == CritEffect::BlindedPilot || self == CritEffect::DamagedCockpit || self
            == CritEffect::InjuredPilot || self == CritEffect::StunnedPilot
    }

    pub fn is_pilot_trait(&self) -> (yes: bool)
        ensures
            yes == self.on_pilot(),
    {
        match self {
            CritEffect::BlindedPilot | CritEffect::DamagedCockpit | CritEffect::InjuredPilot
            | CritEffect::StunnedPilot => true,
            _ => false,
        }
    }
}

/// The worst of three cards; the later of two that are as bad.
pub open spec fn worst(a: CritEffect, b: CritEffect, c: CritEffect) -> CritEffect {
    let ab = if b.rank() >= a.rank() {
        b
    } else {
        a
    };
    if c.rank() >= ab.rank() {
        c
    } else {
        ab
    }
}

/// Does the slice hold the effect?
pub fn has_crit(crits: &[CritEffect], e: CritEffect) -> (found: bool)
    ensures
        found == crits@.contains(e),
{
    let mut i: usize = 0;
    while i < crits.len()
        invariant
            i <= crits.len(),
            forall|k: int| 0 <= k < i ==> crits@[k] != e,
        decreases crits.len() - i,
    {
        if crits[i] == e {
            assert(crits@[i as int] == e);
            return true;
        }
        i = i + 1;
    }
    false
}

/// Where the effect first lies in the list.
pub fn find_crit(crits: &Vec<CritEffect>, e: CritEffect) -> (place: Option<usize>)
    ensures
        place == spot(crits@, e),
        place is Some ==> place->0 < crits@.len() && crits@[place->0 as int] == e,
        place is Some <==> crits@.contains(e),
{
    let mut k: usize = 0;
    while k < crits.len()
        invariant
            k <= crits.len(),
            spot_from(crits@, e, k as int) == spot(crits@, e),
            forall|j: int| 0 <= j < k ==> crits@[j] != e,
        decreases crits.len() - k,
    {
        if crits[k] == e {
            assert(crits@[k as int] == e);
            return Some(k);
        }
        k = k + 1;
    }
    None
}

/// How many times the effect lies in the list, as a counter.
pub fn tally_crits(crits: &Vec<CritEffect>, e: CritEffect) -> (n: u8)
    ensures
        n == tally(crits@, e),
{
    (count_crits(crits, e) % 256) as u8
}

/// How many times the effect lies in the list.
pub fn count_crits(crits: &Vec<CritEffect>, e: CritEffect) -> (n: usize)
    ensures
        n == count(crits@, e),
{
    let mut n: usize = 0;
    let mut k: usize = 0;
    while k < crits.len()
        invariant
            n <= k <= crits.len(),
            n == count(crits@.take(k as int), e),
        decreases crits.len() - k,
    {
        proof {
            assert(crits@.take(k + 1) =~= crits@.take(k as int).push(crits@[k as int]));
            count_push(crits@.take(k as int), e, crits@[k as int]);
        }
        if crits[k] == e {
            n = n + 1;
        }
        k = k + 1;
    }
    assert(crits@.take(k as int) =~= crits@);
    n
}

/// The color a maneuver is flown at by a ship with these crits: Damaged
/// Engine reddens turns and Thrust Control Fire banks; nothing softens a red.
pub open spec fn colored(crits: Seq<CritEffect>, m: Maneuver) -> Difficulty {
    let turn = m.steer == Steer::TurnLeft || m.steer == Steer::TurnRight;
    let bank = m.steer == Steer::BankLeft || m.steer == Steer::BankRight;
    if turn && crits.contains(CritEffect::DamagedEngine) {
        Difficulty::Hard
    } else if bank && crits.contains(CritEffect::ThrustControlFire) {
        Difficulty::Hard
    } else {
        m.difficulty
    }
}

/// Difficulty after crit modifiers: Damaged Engine makes 90° turns red,
/// Thrust Control Fire makes banks red.
pub fn effective_difficulty(crits: &[CritEffect], m: &Maneuver) -> (d: Difficulty)
    ensures
        d == colored(crits@, *m),
{
    if m.difficulty == Difficulty::Hard {
        return Difficulty::Hard;
    }
    let engine = has_crit(crits, CritEffect::DamagedEngine);
    let thrust = has_crit(crits, CritEffect::ThrustControlFire);
    match m.steer {
        Steer::TurnLeft | Steer::TurnRight => if engine {
            Difficulty::Hard
        } else {
            m.difficulty
        },
        Steer::BankLeft | Steer::BankRight => if thrust {
            Difficulty::Hard
        } else {
            m.difficulty
        },
        _ => m.difficulty,
    }
}

/// Crits only ever make flying harder: more of them never turn a red
/// maneuver white or blue.
pub proof fn crits_never_ease_a_maneuver(crits: Seq<CritEffect>, more: CritEffect, m: Maneuver)
    ensures
        colored(crits, m) == m.difficulty || colored(crits, m) == Difficulty::Hard,
        colored(crits, m) == Difficulty::Hard ==> colored(crits.push(more), m)
            == Difficulty::Hard,
{
    assert forall|e: CritEffect| crits.contains(e) implies crits.push(more).contains(e) by {
        let k = choose|k: int| 0 <= k < crits.len() && crits[k] == e;
        assert(crits.push(more)[k] == e);
    }
}

} // verus!
