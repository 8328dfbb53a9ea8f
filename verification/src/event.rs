//! The narration of a game: what happened, to whom, in order. Ships are
//! named by their place in the game's list.

use vstd::prelude::*;
use vstd::string::*;

use crate::bombs::{BombHit, BombKind};
use crate::board::Seat;
use crate::crit::CritEffect;
use crate::maneuver::Maneuver;
use crate::obstacle::ObstacleKind;
use crate::pilot::PilotId;
use crate::ship::ShipId;
use crate::upgrade::UpgradeId;

verus! {

/// Why a card was discarded.
#[derive(Debug, Clone, Copy, PartialEq, Eq, Structural)]
pub enum Why {
    /// A focus token for the stress just received.
    FocusForStress,
    /// A damage card discarded, a shield recovered.
    ShieldRecovered,
    /// A damage card flipped facedown.
    CardFacedown,
    /// Integrated Astromech: a damage card discarded.
    AstromechTookIt,
    /// Fired at an obstacle.
    FiredAt(ObstacleKind),
    /// Red maneuvers flown as white this round.
    RedsFlownWhite,
    /// Obstacles ignored this round.
    ObstaclesIgnored,
    /// One red maneuver flown as white.
    RedFlownWhite,
    /// Rotated 180 degrees, then stress.
    Rotated,
}

/// Who takes a lock unasked.
#[derive(Debug, Clone, Copy, PartialEq, Eq, Structural)]
pub enum Locker {
    DutchVander,
    CommanderAlozen,
    TargetingAstromech,
    SystemsOfficer,
}

/// What rotates a dial.
#[derive(Debug, Clone, Copy, PartialEq, Eq, Structural)]
pub enum Turner {
    JunoEclipse,
    TetranCowall,
    Navigator,
    StayOnTarget,
}

/// What earns an attacker one more die.
#[derive(Debug, Clone, Copy, PartialEq, Eq, Structural)]
pub enum ExtraDie {
    PointBlank,
    OutsideDefenderArc,
    DefenderDamaged,
    TakesStress,
}

/// What a weapon card turns results into.
#[derive(Debug, Clone, Copy, PartialEq, Eq, Structural)]
pub enum WeaponTurn {
    FocusToCrit,
    BlanksToFocus,
    BlankToHit,
    HitToCrit,
}

#[derive(Debug, Clone, Copy, PartialEq, Eq, Structural)]
pub enum Event {
    /// A card was discarded; `kept` when Tomax Bren flips it back faceup.
    Discarded { ship: usize, card: UpgradeId, why: Why, kept: bool },
    /// Extra Munitions: an ordnance token spent, the card kept.
    OrdnanceSpent(usize, UpgradeId),
    /// A ship locks another for the reason given.
    Locks(usize, Locker, usize),
    /// Black One: an enemy's lock on a friend removed.
    BlackOne { ship: usize, enemy: usize, friend: usize },
    /// Weapons Engineer: a second lock.
    SecondLock(usize, usize),
    /// Captain Yorr takes the stress token meant for another.
    YorrTakesStress { yorr: usize, ship: usize },
    /// Electronic Baffle: one damage, the stress token discarded.
    BaffleStress(usize),
    /// Electronic Baffle: one damage, an ion token discarded.
    BaffleIon(usize),
    /// Stress discarded with an enemy in arc at Range 1.
    StressDiscarded(usize),
    /// A focus token for the stress.
    FocusForStress(usize),
    /// Kyle Katarn: a focus token after stress was removed.
    KyleKatarn(usize),
    /// An evade token for the first shield lost.
    FirstShieldLost(usize),
    /// Garven Dreis: the spent focus token passed on.
    GarvenDreis(usize, usize),
    /// A focus token because a friend spent one.
    FriendSpentFocus(usize),
    /// Swarm Leader: a friend gives up an evade token.
    SwarmLeader(usize, usize),
    /// Maarek Stele draws three cards and chooses one.
    MaarekStele(usize, CritEffect, CritEffect, CritEffect, CritEffect),
    /// A card discarded on being hit.
    DiscardedOnHit(usize, UpgradeId),
    /// A faceup card flipped facedown by the pilot's ability.
    CritIgnored(usize),
    /// Determination: a Pilot card discarded.
    Determination(usize),
    /// The explosion flares — 1 more damage.
    ExplosionFlares(usize),
    /// A faceup card flips facedown.
    CritFlips(usize, CritEffect),
    DestroyedByCrit(usize),
    /// Predator: attack dice rerolled.
    Predator(usize, u8),
    /// Rage: attack dice rerolled.
    Rage(usize, u8),
    /// Lone Wolf: a blank rerolled.
    LoneWolf(usize),
    /// Wired: focus results rerolled while stressed.
    Wired(usize, u8),
    /// Blanks rerolled at long range: how many, and the range.
    BlanksRerolledAtRange(usize, u8, u8),
    /// Blanks rerolled with the enemy in arc.
    BlanksRerolledInArc(usize, u8),
    /// Elusiveness: a stress taken, the attacker rerolls a die.
    Elusiveness(usize),
    /// R7 Astromech: a lock spent, the attacker rerolls dice.
    R7Astromech(usize, u8),
    /// M9-G8: the locked attacker rerolls a die.
    M9G8(usize),
    /// Opportunist: a stress token for one more attack die.
    Opportunist(usize),
    /// One more attack die, by ability.
    ExtraDie(usize, ExtraDie),
    /// A focus result to a hit, by ability.
    FocusToHit(usize),
    /// A hit result to a critical hit, by ability.
    HitToCrit(usize),
    /// A focus result to an evade, by ability.
    FocusToEvade(usize),
    /// The weapon card changes results.
    WeaponTurns(usize, WeaponTurn),
    /// A lock and a focus token spent, all dice critical.
    AllCritical(usize),
    /// Protect: an evade token on the shuttle, and how many it holds.
    Protect(usize, u8),
    /// The shuttle is not within Range 1.
    ProtectFailed(usize),
    /// Carnor Jax at Range 1 forbids focus and evade.
    CarnorForbids(usize),
    /// Jan Ors: an evade token instead of focus for a friend.
    JanOrs(usize, usize),
    /// Recon Specialist: an extra focus token.
    ReconSpecialist(usize),
    /// Lieutenant Lorrir: a bank template roll for a stress.
    BankRoll(usize),
    /// Daredevil: a red turn 1, stress.
    DaredevilTurn(usize),
    /// Captain Kagi draws the target lock.
    KagiDrawsLock(usize),
    /// The lock on a ship failed — not within range after moving.
    LockFailed(usize, ShipId),
    /// A card's action was taken.
    CardAction(usize, UpgradeId),
    /// Fleet Officer: a focus token to a friend.
    FleetOfficer(usize, usize),
    /// Squad Leader: a friend takes a free focus action.
    SquadLeader(usize, usize),
    /// Squad Leader: no eligible friend.
    SquadLeaderFailed(usize),
    /// R7-T1: no enemy at Range 1-2.
    R7T1Failed(usize),
    /// R7-T1: a lock.
    R7T1Locks(usize, usize),
    /// R7-T1: a free boost.
    R7T1Boosts(usize),
    /// A bomb or mine card dropped.
    Drops(usize, UpgradeId),
    /// Expert Handling: rolled without the icon, 1 stress.
    ExpertStress(usize),
    /// Expert Handling: an enemy's target lock removed.
    ExpertLock(usize, usize),
    /// Lando Calrissian: focus and evade tokens gained.
    Lando(usize, u8, u8),
    /// Saboteur: no damaged enemy at Range 1.
    SaboteurFailed(usize),
    /// Saboteur: an enemy's facedown card turns faceup.
    Saboteur(usize, usize, CritEffect),
    /// Saboteur: the sabotage fails.
    SaboteurMisses(usize),
    /// R5-D8: nothing to repair.
    R5D8Failed(usize),
    /// R5-D8: the repair fails.
    R5D8Misses(usize),
    /// R5-D8: a facedown damage card discarded.
    R5D8(usize),
    /// A critical reaches the hull and draws a card.
    Critical(usize, CritEffect),
    /// A token goes off.
    Detonates(BombKind),
    /// A ship is caught by a token going off.
    Caught(usize, BombKind, BombHit),
    /// Seismic Torpedo: the obstacle is gone.
    SeismicGone(usize),
    /// Seismic Torpedo: not at Range 1-2 inside the firing arc.
    SeismicOutOfReach(usize, ObstacleKind),
    /// The obstacle breaks up and is removed.
    BreaksUp(ObstacleKind),
    /// Flechette torpedoes: the defender is stressed.
    FlechetteTorpedoes(usize),
    /// Plasma torpedoes: one shield stripped.
    PlasmaTorpedoes(usize),
    /// Ion torpedoes: a ship is ionized.
    IonTorpedoes(usize),
    /// Ion torpedoes: and another one.
    AlsoIonized(usize),
    /// Assault missiles: 1 damage to a ship nearby; destroyed or not.
    AssaultMissiles(usize, bool),
    /// Thread tracers: a friend locks the defender.
    ThreadTracers(usize, usize),
    /// Tactician: the target is stressed.
    Tactician(usize, usize),
    /// Ruthlessness: another ship suffers 1 damage; destroyed or not.
    Ruthlessness(usize, usize, bool),
    /// Darth Vader (crew): 2 damage suffered for a critical hit.
    VaderCrew(usize, usize),
    /// Fire-Control System: a lock on the defender.
    FireControl(usize, usize),
    /// R5-K6: the lock is re-acquired.
    R5K6(usize, usize),
    /// R5-K6: no evade rolled.
    R5K6Misses(usize),
    /// Operations Specialist: a focus token to a friend.
    OperationsSpecialist(usize, usize),
    /// The attack is obstructed: one more defense die.
    Obstructed(usize),
    /// Rebel Captive: the first attacker is stressed.
    RebelCaptive(usize, usize),
    /// R3-A2: a stress taken to stress the defender.
    R3A2(usize, usize),
    /// A weapon card is fired, perhaps for the second time.
    Fires(usize, UpgradeId, bool),
    /// Targeting Synchronizer: fired on a friend's lock.
    Synchronized(usize),
    /// Deadeye: a focus token spent as the target lock.
    Deadeye(usize),
    /// Zertik Strom denies the Range 1 bonus die.
    ZertikDenies(usize),
    /// More attack dice by the weapon.
    WeaponDice(usize, u8),
    /// Trick Shot: one more attack die.
    TrickShot(usize),
    /// Blinded Pilot: 0 dice, then vision clears.
    FiresWildly(usize),
    /// Finn adds a blank result.
    FinnAddsBlank(usize),
    /// Sensor Jammer: one hit result becomes a focus result.
    SensorJammer(usize),
    /// The defender's ability denies a locked attacker its modifications.
    AttackerLocked(usize),
    /// The defender's ability denies focus and rerolls.
    DarkCurse(usize),
    /// The attacker's ability denies a locked defender its modifications.
    DefenderLocked(usize),
    /// Han Solo rerolls every attack die.
    HanRerolls(usize),
    /// Adv. Targeting Computer adds a critical hit.
    TargetingComputer(usize),
    /// Han Solo (crew): the lock spent, all focus results to hits.
    HanCrew(usize),
    /// Attack dice rerolled thanks to friends at Range 1.
    FriendlyRerolls(usize, u8),
    /// Defense dice rerolled thanks to friends at Range 1.
    FriendlyDodges(usize, u8),
    /// Captain Jonus: attack dice rerolled.
    CaptainJonus(usize, u8),
    /// Kir Kanos: an evade token spent for a hit result.
    KirKanos(usize),
    /// Luke Skywalker (crew): a focus result to a hit.
    LukeCrew(usize),
    /// Mercenary Copilot: a hit result to a critical hit.
    MercenaryCopilot(usize),
    /// Agent Kallus: a focus result to a hit.
    AgentKallus(usize),
    /// Agent Kallus: a focus result to an evade.
    AgentKallusEvade(usize),
    /// A Score to Settle: a focus result to a critical hit.
    ScoreToSettle(usize),
    /// Guidance Chips: a die result to a critical hit (true) or a hit.
    GuidanceChips(usize, bool),
    /// Marksmanship: focus results converted.
    Marksmanship(usize),
    /// Expertise: focus results to hits.
    Expertise(usize),
    /// Calculation: focus spent, a focus result to a critical hit.
    Calculation(usize),
    /// Weapons Guidance: focus spent, a blank to a hit.
    WeaponsGuidance(usize),
    /// R3 Astromech: a focus result cancelled for an evade token.
    R3Astromech(usize),
    /// Accuracy Corrector: all dice cancelled, two hits added.
    AccuracyCorrector(usize),
    /// Wampa cancels all dice for a facedown Damage card.
    WampaCancels(usize),
    /// Outmaneuver: the defender's agility is one lower.
    Outmaneuver(usize),
    /// Wedge Antilles: the defender's agility is one lower.
    WedgeAntilles(usize),
    /// Intimidation: the touching defender's agility is one lower.
    Intimidation(usize),
    /// Lightweight Frame: one more defense die.
    LightweightFrame(usize),
    /// C-3PO guessed zero evades correctly.
    C3po(usize),
    /// Flight Instructor: a defense die rerolled.
    FlightInstructor(usize),
    /// Autothrusters: a blank result to an evade.
    Autothrusters(usize),
    /// Luke Skywalker: a focus result to an evade.
    LukeSkywalker(usize),
    /// Sensor Cluster: focus spent, a blank to an evade.
    SensorCluster(usize),
    /// Juke: the defender's evade result to a focus.
    Juke(usize),
    /// Tomax Bren flips Crack Shot back faceup.
    TomaxCrackShot(usize),
    /// Crack Shot cancels an evade result.
    CrackShot(usize),
    /// R4-D6 cancels hit results for as many stress tokens.
    R4D6(usize, u8),
    /// Ion cannon: 1 damage, ionized.
    IonCannon(usize),
    /// Ion pulse: 1 damage, 2 ion tokens.
    IonPulse(usize),
    /// Flechette cannon: 1 damage, and perhaps stressed.
    Flechette(usize, bool),
    /// Homing warhead: a faceup damage card.
    HomingWarhead(usize),
    /// Twin laser: 1 damage.
    TwinLaser(usize),
    /// Tractor beam: tractored.
    TractorBeam(usize),
    /// Draw Their Fire: a critical hit taken for a friend.
    DrawTheirFire(usize, usize),
    /// A facedown Damage card from Wampa; destroyed or not.
    WampaDamage(usize, bool),
    /// Reinforced Deflectors: a shield recovered.
    ReinforcedDeflectors(usize),
    /// A weapon card discarded once fired.
    DiscardedFired(usize, UpgradeId),
    /// Turr Phennir: a free reposition after attacking; performed or not.
    TurrPhennir(usize, bool),
    /// A satellite is scanned instead of attacking; how many are left.
    Scans(usize, u32, u32),
    /// A satellite returns to the supply.
    SatelliteReturns(u32),
    /// A reinforcement arrives: its place in the list, and its pilot.
    Reinforcement(usize, PilotId),
    /// Fel's Wrath is destroyed at the end of the Combat phase.
    FelsWrath(usize),
    /// Lieutenant Colzet: a lock spent, a facedown card turns faceup.
    Colzet(usize, usize, CritEffect),
    /// Mara Jade: an enemy is stressed.
    MaraJade(usize, usize),
    /// R5-P9: focus spent, a shield recovered.
    R5P9(usize),
    /// R5 Astromech: a card flipped facedown.
    R5Astromech(usize, CritEffect),
    /// Rey: a focus token is stored.
    ReyStores(usize),
    /// R2-D2: a shield recovered.
    R2D2(usize),
    /// R2-D2: a shield recovered, but a facedown card turns faceup.
    R2D2Faceup(usize, CritEffect),
    /// Colonel Jendon hands his target lock to a friend.
    Jendon(usize, usize),
    /// Rey: a stored focus token assigned.
    ReyAssigns(usize),
    /// Ysanne Isard: a free evade action.
    YsanneIsard(usize),
    /// The pilot's ability removes a friend's stress.
    EpsilonLeader(usize, usize),
    /// Wingman removes a friend's stress.
    Wingman(usize, usize),
    /// Swarm Tactics: a friend fires at this pilot skill.
    SwarmTactics(usize, usize, u8),
    /// Decoy: pilot skill swapped with a friend; the skills after that.
    Decoy(usize, usize, u8, u8),
    /// A second attack after a miss: by Luke Skywalker (true) or Gunner.
    SecondAttack(usize, bool),
    /// BTL-A4 Y-Wing: a turret attack after the primary weapon.
    TurretFollows(usize),
    /// Chewbacca attacks after a friend's destruction.
    ChewbaccaAttacks(usize),
    /// Intelligence Agent: what an enemy has dialed.
    IntelligenceAgent(usize, usize, Maneuver),
    /// Ionized: the ship drifts straight 1.
    Drifts(usize),
    /// The dial is rotated to another maneuver.
    DialRotated(usize, Turner, Maneuver),
    /// BB-8: a free barrel roll before moving.
    Bb8Rolls(usize),
    /// Advanced Sensors: the action before the maneuver.
    AdvancedSensors(usize),
    /// A ship leaves the board over an edge and escapes.
    Escaped(usize, Seat),
    /// A ship flees the battlefield over an edge and is destroyed.
    Fled(usize, Seat),
    /// A ship hits an asteroid: 1 damage, no action.
    AsteroidHit(usize),
    /// A ship hits an asteroid: a faceup damage card, no action.
    AsteroidCrit(usize),
    /// A ship hits an asteroid: no damage, no action.
    AsteroidGrazed(usize),
    /// A ship is stuck on an asteroid and cannot attack this round.
    StuckOnAsteroid(usize),
    /// A ship flies through debris and is stressed.
    DebrisStress(usize),
    /// Debris strikes: a faceup damage card.
    DebrisCrit(usize),
    /// A ship flies into a black hole.
    Swallowed(usize),
    /// Lando Calrissian: a friend takes a free focus action (true) or a free
    /// evade action.
    LandoHelps(usize, usize, bool),
    /// R2-D2 (astromech): a shield recovered after a green maneuver.
    R2D2Green(usize),
    /// A free focus token after a green maneuver.
    FocusAfterGreen(usize),
    /// Stunned Pilot: 1 damage from the collision; destroyed or not.
    StunnedPilot(usize, bool),
    /// Snap Shot at a ship as it completes its maneuver.
    SnapShot(usize, usize),
    /// A free boost after the maneuver.
    FreeBoost(usize),
    /// Push the Limit: a second action, then stress.
    PushTheLimit(usize),
    /// Experimental Interface: a free card action, then stress.
    ExperimentalInterface(usize),
    /// A ship is dragged into a black hole.
    DraggedIn(usize),
    /// A ship is pulled toward a black hole.
    Pulled(usize),
    /// Console Fire burns for 1; destroyed or not.
    ConsoleFire(usize, bool),
    /// Daredevil without the boost icon: hits, criticals, destroyed.
    Daredevil(usize, u8, u8, bool),
}

impl Locker {
    /// Who it is.
    pub open spec fn called(self) -> Seq<char> {
        match self {
            Locker::DutchVander => "Dutch Vander"@,
            Locker::CommanderAlozen => "Commander Alozen"@,
            Locker::TargetingAstromech => "Targeting Astromech"@,
            Locker::SystemsOfficer => "Systems Officer"@,
        }
    }

    pub fn name(self) -> (name: &'static str)
        ensures
            name@ == self.called(),
    {
        match self {
            Locker::DutchVander => "Dutch Vander",
            Locker::CommanderAlozen => "Commander Alozen",
            Locker::TargetingAstromech => "Targeting Astromech",
            Locker::SystemsOfficer => "Systems Officer",
        }
    }
}

impl Turner {
    /// Who or what it is.
    pub open spec fn called(self) -> Seq<char> {
        match self {
            Turner::JunoEclipse => "Juno Eclipse"@,
            Turner::TetranCowall => "Tetran Cowall"@,
            Turner::Navigator => "Navigator"@,
            Turner::StayOnTarget => "Stay on Target"@,
        }
    }

    pub fn name(self) -> (name: &'static str)
        ensures
            name@ == self.called(),
    {
        match self {
            Turner::JunoEclipse => "Juno Eclipse",
            Turner::TetranCowall => "Tetran Cowall",
            Turner::Navigator => "Navigator",
            Turner::StayOnTarget => "Stay on Target",
        }
    }
}

impl ExtraDie {
    /// The reason in words.
    pub open spec fn called(self) -> Seq<char> {
        match self {
            ExtraDie::PointBlank => "point blank"@,
            ExtraDie::OutsideDefenderArc => "outside the defender's arc"@,
            ExtraDie::DefenderDamaged => "defender already damaged"@,
            ExtraDie::TakesStress => "takes stress"@,
        }
    }

    pub fn name(self) -> (name: &'static str)
        ensures
            name@ == self.called(),
    {
        match self {
            ExtraDie::PointBlank => "point blank",
            ExtraDie::OutsideDefenderArc => "outside the defender's arc",
            ExtraDie::DefenderDamaged => "defender already damaged",
            ExtraDie::TakesStress => "takes stress",
        }
    }
}

impl WeaponTurn {
    /// The change in words.
    pub open spec fn called(self) -> Seq<char> {
        match self {
            WeaponTurn::FocusToCrit => "focus result to critical hit"@,
            WeaponTurn::BlanksToFocus => "blanks to focus results"@,
            WeaponTurn::BlankToHit => "blank result to hit"@,
            WeaponTurn::HitToCrit => "hit result to critical hit"@,
        }
    }

    pub fn name(self) -> (name: &'static str)
        ensures
            name@ == self.called(),
    {
        match self {
            WeaponTurn::FocusToCrit => "focus result to critical hit",
            WeaponTurn::BlanksToFocus => "blanks to focus results",
            WeaponTurn::BlankToHit => "blank result to hit",
            WeaponTurn::HitToCrit => "hit result to critical hit",
        }
    }
}

impl Why {
    /// The reason in words.
    pub open spec fn called(self) -> Seq<char> {
        match self {
            Why::FiredAt(kind) => "fired at the "@ + kind.called(),
            Why::FocusForStress => "focus token for the stress"@,
            Why::ShieldRecovered => "damage card discarded, shield recovered"@,
            Why::CardFacedown => "damage card flipped facedown"@,
            Why::AstromechTookIt => "Integrated Astromech: damage card discarded"@,
            Why::RedsFlownWhite => "red maneuvers flown as white this round"@,
            Why::ObstaclesIgnored => "obstacles ignored this round"@,
            Why::RedFlownWhite => "red maneuver flown as white"@,
            Why::Rotated => "rotated 180°, then stress"@,
        }
    }

    pub fn words(self) -> (text: String)
        ensures
            text@ == self.called(),
    {
        match self {
            Why::FiredAt(kind) => {
                let mut t = String::from_str("fired at the ");
                t.append(kind.name());
                t
            },
            Why::FocusForStress => String::from_str("focus token for the stress"),
            Why::ShieldRecovered => String::from_str("damage card discarded, shield recovered"),
            Why::CardFacedown => String::from_str("damage card flipped facedown"),
            Why::AstromechTookIt => String::from_str("Integrated Astromech: damage card discarded"),
            Why::RedsFlownWhite => String::from_str("red maneuvers flown as white this round"),
            Why::ObstaclesIgnored => String::from_str("obstacles ignored this round"),
            Why::RedFlownWhite => String::from_str("red maneuver flown as white"),
            Why::Rotated => String::from_str("rotated 180°, then stress"),
        }
    }
}

} // verus!
