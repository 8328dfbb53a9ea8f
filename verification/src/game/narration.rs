//! The narration in words.

#![verifier::loop_isolation(false)]

use vstd::prelude::*;
use vstd::string::*;

use crate::bombs::{BombHit, BombKind};
use crate::data::Content;
use crate::event::Event;
use crate::game::state::{views, Game, GameState};
use crate::pilot::PilotId;
use crate::ship::ShipId;
use crate::squad::{decimal, digits};
use crate::upgrade::UpgradeId;

verus! {

/// One of two texts.
pub open spec fn either(yes: bool, a: Seq<char>, b: Seq<char>) -> Seq<char> {
    if yes {
        a
    } else {
        b
    }
}

fn pick_word(yes: bool, a: &'static str, b: &'static str) -> (word: &'static str)
    ensures
        word@ == either(yes, a@, b@),
{
    if yes {
        a
    } else {
        b
    }
}

/// The number of a token counted from 1.
pub open spec fn ordinal(id: u32) -> u32 {
    if id < u32::MAX {
        (id + 1) as u32
    } else {
        id
    }
}

/// The name of a card, or nothing if it is not known.
pub open spec fn card_name(content: Content, card: UpgradeId) -> Seq<char> {
    match content.card(card) {
        Some(u) => u.name@,
        None => Seq::empty(),
    }
}

fn name_card(content: &Content, card: UpgradeId) -> (name: String)
    ensures
        name@ == card_name(*content, card),
{
    match content.upgrades.upgrade(card) {
        Some(u) => String::from_str(u.name.as_str()),
        None => {
            let name = String::new();
            assert(name@ =~= Seq::empty());
            name
        },
    }
}

/// The name of a pilot, or nothing if it is not known.
pub open spec fn pilot_name(content: Content, pilot: PilotId) -> Seq<char> {
    match content.flyer(pilot) {
        Some(p) => p.name@,
        None => Seq::empty(),
    }
}

fn name_pilot(content: &Content, pilot: PilotId) -> (name: String)
    ensures
        name@ == pilot_name(*content, pilot),
{
    match content.pilots.pilot(pilot) {
        Some(p) => String::from_str(p.name.as_str()),
        None => {
            let name = String::new();
            assert(name@ =~= Seq::empty());
            name
        },
    }
}

/// The name of the class that a pilot flies, or nothing if it is not known.
pub open spec fn vessel_name(content: Content, pilot: PilotId) -> Seq<char> {
    match content.flyer(pilot) {
        Some(p) => match content.chassis(p.class) {
            Some(c) => c.name@,
            None => Seq::empty(),
        },
        None => Seq::empty(),
    }
}

fn name_vessel(content: &Content, pilot: PilotId) -> (name: String)
    ensures
        name@ == vessel_name(*content, pilot),
{
    if let Some(p) = content.pilots.pilot(pilot) {
        if let Some(c) = content.ships.class(p.class) {
            return String::from_str(c.name.as_str());
        }
    }
    let name = String::new();
    assert(name@ =~= Seq::empty());
    name
}

/// Two parts of a list, with a comma between them.
pub open spec fn joined(a: Option<Seq<char>>, b: Option<Seq<char>>) -> Option<Seq<char>> {
    match (a, b) {
        (Some(x), Some(y)) => Some(x + ", "@ + y),
        (Some(x), None) => Some(x),
        (None, y) => y,
    }
}

fn join(a: Option<String>, b: Option<String>) -> (both: Option<String>)
    ensures
        text_of(both) == joined(text_of(a), text_of(b)),
{
    match (a, b) {
        (Some(x), Some(y)) => {
            let mut both = x;
            both.append(", ");
            both.append(y.as_str());
            Some(both)
        },
        (Some(x), None) => Some(x),
        (None, y) => y,
    }
}

/// The text of a string that may be missing.
pub open spec fn text_of(s: Option<String>) -> Option<Seq<char>> {
    match s {
        Some(t) => Some(t@),
        None => None,
    }
}

/// What a ship suffered from a token, in words.
pub open spec fn suffering(kind: BombKind, hit: BombHit) -> Seq<char> {
    let damage = if hit.damage > 0 {
        Some(digits(hit.damage as nat) + " damage"@)
    } else {
        None
    };
    let card = if kind == BombKind::Proton {
        Some("faceup damage card"@)
    } else {
        None
    };
    let ion = if hit.ion > 0 {
        Some(digits(hit.ion as nat) + " ion"@)
    } else {
        None
    };
    let stress = if hit.stress > 0 {
        Some("stressed"@)
    } else {
        None
    };
    match joined(joined(joined(damage, card), ion), stress) {
        Some(what) => what,
        None => "no damage"@,
    }
}

fn describe(kind: BombKind, hit: &BombHit) -> (text: String)
    ensures
        text@ == suffering(kind, *hit),
{
    let mut what: Option<String> = None;
    if hit.damage > 0 {
        let mut t = decimal(hit.damage as usize);
        t.append(" damage");
        what = Some(t);
    }
    if kind == BombKind::Proton {
        what = join(what, Some(String::from_str("faceup damage card")));
    }
    if hit.ion > 0 {
        let mut t = decimal(hit.ion as usize);
        t.append(" ion");
        what = join(what, Some(t));
    }
    if hit.stress > 0 {
        what = join(what, Some(String::from_str("stressed")));
    }
    match what {
        Some(text) => text,
        None => String::from_str("no damage"),
    }
}

impl Game {
    /// What the ship at a place is called.
    pub open spec fn call(self, i: usize) -> Seq<char> {
        if i < self.ships.len() {
            self.ships[i as int].callsign
        } else {
            Seq::empty()
        }
    }

    /// What the ship with an id is called.
    pub open spec fn call_id(self, id: ShipId) -> Seq<char> {
        match self.index(id) {
            Some(k) => self.call(k),
            None => Seq::empty(),
        }
    }

    /// An event in words.
    pub open spec fn line(self, content: Content, event: Event) -> Seq<char> {
        match event {
            Event::OrdnanceSpent(i, card) => self.call(i) + ": Extra Munitions — ordnance token spent, "@ + card_name(content, card) + " kept"@,
            Event::Locks(i, who, e) => self.call(i) + ": "@ + who.called() + " — locks "@ + self.call(e),
            Event::BlackOne { ship: i, enemy: e, friend: f } => self.call(i) + ": Black One — "@ + self.call(e) + "'s lock on "@ + self.call(f) + " removed"@,
            Event::SecondLock(i, e) => self.call(i) + ": Weapons Engineer — second lock on "@ + self.call(e),
            Event::YorrTakesStress { yorr: y, ship: i } => self.call(y) + ": Captain Yorr — takes the stress token meant for "@ + self.call(i),
            Event::BaffleStress(i) => self.call(i) + ": Electronic Baffle — 1 damage, stress token discarded"@,
            Event::BaffleIon(i) => self.call(i) + ": Electronic Baffle — 1 damage, ion token discarded"@,
            Event::StressDiscarded(i) => self.call(i) + ": ability — stress discarded (enemy in arc at Range 1)"@,
            Event::FocusForStress(i) => self.call(i) + ": ability — focus token for the stress"@,
            Event::KyleKatarn(i) => self.call(i) + ": Kyle Katarn — focus token"@,
            Event::FirstShieldLost(i) => self.call(i) + ": ability — evade token (first shield lost)"@,
            Event::GarvenDreis(i, f) => self.call(i) + ": Garven Dreis — spent focus token passed to "@ + self.call(f),
            Event::FriendSpentFocus(i) => self.call(i) + ": ability — focus token (friend spent one)"@,
            Event::SwarmLeader(i, f) => self.call(i) + ": Swarm Leader — "@ + self.call(f) + " gives up an evade token, +1 attack die"@,
            Event::MaarekStele(i, x, y, z, best) => self.call(i) + ": Maarek Stele — draws "@ + x.title() + ", "@ + y.title() + " and "@ + z.title() + "; chooses "@ + best.title(),
            Event::DiscardedOnHit(i, card) => self.call(i) + ": "@ + card_name(content, card) + " discarded (hit)"@,
            Event::CritIgnored(i) => self.call(i) + ": ability — card flipped facedown, no effect"@,
            Event::Determination(i) => self.call(i) + ": Determination — Pilot card discarded, no effect"@,
            Event::ExplosionFlares(i) => self.call(i) + ": the explosion flares — 1 more damage"@,
            Event::CritFlips(i, x) => self.call(i) + ": "@ + x.title() + " flips facedown"@,
            Event::DestroyedByCrit(i) => self.call(i) + ": DESTROYED by critical damage"@,
            Event::Predator(i, n) => self.call(i) + ": Predator — rerolls "@ + digits(n as nat) + " attack dice"@,
            Event::Rage(i, n) => self.call(i) + ": Rage — rerolls "@ + digits(n as nat) + " attack dice"@,
            Event::LoneWolf(i) => self.call(i) + ": Lone Wolf — rerolls a blank"@,
            Event::Wired(i, n) => self.call(i) + ": Wired — rerolls "@ + digits(n as nat) + " focus results while stressed"@,
            Event::BlanksRerolledAtRange(i, n, range) => self.call(i) + ": ability — rerolls "@ + digits(n as nat) + " blanks at Range "@ + digits(range as nat),
            Event::BlanksRerolledInArc(i, n) => self.call(i) + ": ability — rerolls "@ + digits(n as nat) + " blanks (enemy in arc)"@,
            Event::Elusiveness(i) => self.call(i) + ": Elusiveness — takes a stress, attacker rerolls a die"@,
            Event::R7Astromech(i, n) => self.call(i) + ": R7 Astromech — lock spent, attacker rerolls "@ + digits(n as nat) + " dice"@,
            Event::M9G8(i) => self.call(i) + ": M9-G8 — the locked attacker rerolls a die"@,
            Event::Opportunist(i) => self.call(i) + ": Opportunist — takes a stress token for +1 attack die"@,
            Event::ExtraDie(i, why) => self.call(i) + ": ability — +1 attack die ("@ + why.called() + ")"@,
            Event::FocusToHit(i) => self.call(i) + ": ability — focus result to hit"@,
            Event::HitToCrit(i) => self.call(i) + ": ability — hit result to critical hit"@,
            Event::FocusToEvade(i) => self.call(i) + ": ability — focus result to evade"@,
            Event::WeaponTurns(i, what) => self.call(i) + ": weapon — "@ + what.called(),
            Event::AllCritical(i) => self.call(i) + ": ability — lock and focus spent, all dice critical"@,
            Event::Protect(i, n) => self.call(i) + ": protect — evade token on the senator's shuttle ("@ + digits(n as nat) + " held)"@,
            Event::ProtectFailed(i) => self.call(i) + ": action FAILED — the senator's shuttle is not within Range 1"@,
            Event::CarnorForbids(i) => self.call(i) + ": action FAILED — Carnor Jax at Range 1 forbids focus and evade"@,
            Event::JanOrs(i, f) => self.call(i) + ": Jan Ors — evade token instead of focus for "@ + self.call(f),
            Event::ReconSpecialist(i) => self.call(i) + ": Recon Specialist — extra focus token"@,
            Event::BankRoll(i) => self.call(i) + ": Lieutenant Lorrir — bank template roll, 1 stress"@,
            Event::DaredevilTurn(i) => self.call(i) + ": Daredevil — red turn 1, stress"@,
            Event::KagiDrawsLock(i) => self.call(i) + ": Captain Kagi draws the target lock"@,
            Event::LockFailed(i, id) => self.call(i) + ": target lock on "@ + self.call_id(id) + " FAILED — not within Range 1-3 after moving"@,
            Event::CardAction(i, card) => self.call(i) + ": "@ + card_name(content, card) + " action"@,
            Event::FleetOfficer(i, f) => self.call(i) + ": Fleet Officer — focus token to "@ + self.call(f),
            Event::SquadLeader(i, f) => self.call(i) + ": Squad Leader — "@ + self.call(f) + " takes a free focus action"@,
            Event::SquadLeaderFailed(i) => self.call(i) + ": Squad Leader — no eligible friend"@,
            Event::R7T1Failed(i) => self.call(i) + ": R7-T1 — no enemy at Range 1-2"@,
            Event::R7T1Locks(i, e) => self.call(i) + ": R7-T1 — locks "@ + self.call(e),
            Event::R7T1Boosts(i) => self.call(i) + ": R7-T1 — free boost"@,
            Event::Drops(i, card) => self.call(i) + ": drops "@ + card_name(content, card),
            Event::ExpertStress(i) => self.call(i) + ": Expert Handling — rolled without the icon, 1 stress"@,
            Event::ExpertLock(i, e) => self.call(i) + ": Expert Handling — "@ + self.call(e) + "'s target lock removed"@,
            Event::Lando(i, f, e) => self.call(i) + ": Lando Calrissian — "@ + digits(f as nat) + " focus, "@ + digits(e as nat) + " evade tokens"@,
            Event::SaboteurFailed(i) => self.call(i) + ": Saboteur — no damaged enemy at Range 1"@,
            Event::Saboteur(i, e, x) => self.call(i) + ": Saboteur — "@ + self.call(e) + "'s facedown card turns faceup: "@ + x.title(),
            Event::SaboteurMisses(i) => self.call(i) + ": Saboteur — the sabotage fails"@,
            Event::R5D8Failed(i) => self.call(i) + ": R5-D8 — nothing to repair"@,
            Event::R5D8Misses(i) => self.call(i) + ": R5-D8 — repair fails"@,
            Event::R5D8(i) => self.call(i) + ": R5-D8 — a facedown damage card discarded"@,
            Event::Critical(i, x) => self.call(i) + ": critical — "@ + x.title(),
            Event::Detonates(kind) => kind.called() + " detonates"@,
            Event::SeismicGone(i) => self.call(i) + ": Seismic Torpedo FAILED — the obstacle is gone"@,
            Event::SeismicOutOfReach(i, kind) => self.call(i) + ": Seismic Torpedo FAILED — the "@ + kind.called() + " is not at Range 1-2 inside the firing arc"@,
            Event::BreaksUp(kind) => "The "@ + kind.called() + " breaks up and is removed"@,
            Event::FlechetteTorpedoes(i) => self.call(i) + ": flechette torpedoes — stressed"@,
            Event::PlasmaTorpedoes(i) => self.call(i) + ": plasma torpedoes — 1 shield stripped"@,
            Event::IonTorpedoes(i) => "ion torpedoes — ionized: "@ + self.call(i),
            Event::AlsoIonized(i) => ", "@ + self.call(i),
            Event::AssaultMissiles(i, died) => self.call(i) + ": assault missiles splash — 1 damage"@ + either(died, " — DESTROYED"@, ""@),
            Event::ThreadTracers(i, d) => self.call(i) + ": locks "@ + self.call(d) + " (thread tracers)"@,
            Event::Tactician(i, d) => self.call(i) + ": Tactician — "@ + self.call(d) + " is stressed"@,
            Event::Ruthlessness(i, k, died) => self.call(i) + ": Ruthlessness — "@ + self.call(k) + " suffers 1 damage"@ + either(died, " — DESTROYED"@, ""@),
            Event::VaderCrew(i, d) => self.call(i) + ": Darth Vader — suffers 2 damage; "@ + self.call(d) + " suffers a critical hit — DESTROYED"@,
            Event::FireControl(i, d) => self.call(i) + ": Fire-Control System — locks "@ + self.call(d),
            Event::R5K6(i, d) => self.call(i) + ": R5-K6 — evade rolled, lock on "@ + self.call(d) + " re-acquired"@,
            Event::R5K6Misses(i) => self.call(i) + ": R5-K6 — no evade, lock not re-acquired"@,
            Event::OperationsSpecialist(i, f) => self.call(i) + ": Operations Specialist — focus token to "@ + self.call(f),
            Event::Obstructed(i) => self.call(i) + ": attack obstructed — defender +1 die"@,
            Event::RebelCaptive(i, a) => self.call(i) + ": Rebel Captive — "@ + self.call(a) + " receives a stress token"@,
            Event::R3A2(i, d) => self.call(i) + ": R3-A2 — takes a stress, "@ + self.call(d) + " is stressed"@,
            Event::Synchronized(i) => self.call(i) + ": Targeting Synchronizer — fires on a friend's lock"@,
            Event::Deadeye(i) => self.call(i) + ": Deadeye — focus token spent as the target lock"@,
            Event::ZertikDenies(i) => self.call(i) + ": Zertik Strom denies the Range 1 bonus die"@,
            Event::WeaponDice(i, n) => self.call(i) + ": +"@ + digits(n as nat) + " attack dice (weapon)"@,
            Event::TrickShot(i) => self.call(i) + ": Trick Shot — +1 attack die"@,
            Event::FiresWildly(i) => self.call(i) + ": Blinded Pilot — fires wildly (0 dice), vision clears"@,
            Event::FinnAddsBlank(i) => self.call(i) + ": Finn — adds a blank result"@,
            Event::SensorJammer(i) => self.call(i) + ": Sensor Jammer — one hit result becomes a focus result"@,
            Event::AttackerLocked(i) => self.call(i) + ": ability — locked attacker cannot modify dice"@,
            Event::DarkCurse(i) => self.call(i) + ": ability — attacker cannot spend focus or reroll"@,
            Event::DefenderLocked(i) => self.call(i) + ": ability — locked defender cannot modify dice"@,
            Event::HanRerolls(i) => self.call(i) + ": Han Solo — rerolls every attack die"@,
            Event::TargetingComputer(i) => self.call(i) + ": Adv. Targeting Computer — adds a critical hit, lock kept"@,
            Event::HanCrew(i) => self.call(i) + ": Han Solo — lock spent, all focus results to hits"@,
            Event::FriendlyRerolls(i, n) => self.call(i) + ": rerolls "@ + digits(n as nat) + " attack dice (friends at Range 1)"@,
            Event::FriendlyDodges(i, n) => self.call(i) + ": rerolls "@ + digits(n as nat) + " defense dice (friends at Range 1)"@,
            Event::CaptainJonus(i, n) => self.call(i) + ": Captain Jonus — rerolls "@ + digits(n as nat) + " attack dice"@,
            Event::KirKanos(i) => self.call(i) + ": Kir Kanos — evade token spent for a hit result"@,
            Event::LukeCrew(i) => self.call(i) + ": Luke Skywalker — focus result to hit"@,
            Event::MercenaryCopilot(i) => self.call(i) + ": Mercenary Copilot — hit result to critical hit"@,
            Event::AgentKallus(i) => self.call(i) + ": Agent Kallus — focus result to hit"@,
            Event::AgentKallusEvade(i) => self.call(i) + ": Agent Kallus — focus result to evade"@,
            Event::ScoreToSettle(i) => self.call(i) + ": A Score to Settle — focus result to critical hit"@,
            Event::Marksmanship(i) => self.call(i) + ": Marksmanship — focus results converted"@,
            Event::Expertise(i) => self.call(i) + ": Expertise — focus results to hits"@,
            Event::Calculation(i) => self.call(i) + ": Calculation — focus spent, focus result to critical hit"@,
            Event::WeaponsGuidance(i) => self.call(i) + ": Weapons Guidance — focus spent, blank to hit"@,
            Event::R3Astromech(i) => self.call(i) + ": R3 Astromech — focus result cancelled, evade token gained"@,
            Event::AccuracyCorrector(i) => self.call(i) + ": Accuracy Corrector — all dice cancelled, two hits added"@,
            Event::WampaCancels(i) => self.call(i) + ": Wampa — cancels all dice for a facedown Damage card"@,
            Event::Outmaneuver(i) => self.call(i) + ": Outmaneuver — defender agility -1"@,
            Event::WedgeAntilles(i) => self.call(i) + ": Wedge Antilles — defender agility -1"@,
            Event::Intimidation(i) => self.call(i) + ": Intimidation — touching defender's agility -1"@,
            Event::LightweightFrame(i) => self.call(i) + ": Lightweight Frame — +1 defense die"@,
            Event::C3po(i) => self.call(i) + ": C-3PO — guessed zero evades correctly, +1 evade"@,
            Event::FlightInstructor(i) => self.call(i) + ": Flight Instructor — rerolls a defense die"@,
            Event::Autothrusters(i) => self.call(i) + ": Autothrusters — blank result to evade"@,
            Event::LukeSkywalker(i) => self.call(i) + ": Luke Skywalker — focus result to evade"@,
            Event::SensorCluster(i) => self.call(i) + ": Sensor Cluster — focus spent, blank to evade"@,
            Event::Juke(i) => self.call(i) + ": Juke — defender's evade result to focus"@,
            Event::TomaxCrackShot(i) => self.call(i) + ": Tomax Bren — Crack Shot flipped back faceup"@,
            Event::CrackShot(i) => self.call(i) + ": Crack Shot — cancels an evade result, card discarded"@,
            Event::R4D6(i, n) => self.call(i) + ": R4-D6 — cancels "@ + digits(n as nat) + " hit results for "@ + digits(n as nat) + " stress"@,
            Event::IonCannon(i) => self.call(i) + ": ion cannon — 1 damage, ionized"@,
            Event::IonPulse(i) => self.call(i) + ": ion pulse — 1 damage, 2 ion tokens"@,
            Event::HomingWarhead(i) => self.call(i) + ": homing warhead — faceup damage card"@,
            Event::TwinLaser(i) => self.call(i) + ": twin laser — 1 damage"@,
            Event::TractorBeam(i) => self.call(i) + ": tractor beam — tractored (agility -1)"@,
            Event::DrawTheirFire(i, d) => self.call(i) + ": Draw Their Fire — takes a critical hit for "@ + self.call(d),
            Event::WampaDamage(i, died) => self.call(i) + ": facedown Damage card from Wampa"@ + either(died, " — DESTROYED"@, ""@),
            Event::ReinforcedDeflectors(i) => self.call(i) + ": Reinforced Deflectors — shield recovered"@,
            Event::DiscardedFired(i, card) => self.call(i) + ": "@ + card_name(content, card) + " discarded (fired)"@,
            Event::Scans(i, id, left) => self.call(i) + ": scans satellite "@ + digits(ordinal(id) as nat) + " instead of attacking ("@ + digits(left as nat) + " left on the board)"@,
            Event::SatelliteReturns(id) => "satellite "@ + digits(ordinal(id) as nat) + " returns to the supply"@,
            Event::Reinforcement(i, pilot) => "reinforcement: "@ + pilot_name(content, pilot) + " ("@ + vessel_name(content, pilot) + ") arrives as "@ + self.call(i) + " — place it within Range 1 of the edge"@,
            Event::FelsWrath(i) => self.call(i) + ": Fel's Wrath — destroyed at the end of the Combat phase"@,
            Event::Colzet(i, e, x) => self.call(i) + ": Lieutenant Colzet — lock spent, "@ + self.call(e) + "'s facedown card turns faceup: "@ + x.title(),
            Event::MaraJade(i, e) => self.call(i) + ": Mara Jade — "@ + self.call(e) + " is stressed"@,
            Event::R5P9(i) => self.call(i) + ": R5-P9 — focus spent, shield recovered"@,
            Event::R5Astromech(i, x) => self.call(i) + ": R5 Astromech — "@ + x.title() + " repaired (flipped facedown)"@,
            Event::ReyStores(i) => self.call(i) + ": Rey — a focus token is stored"@,
            Event::R2D2(i) => self.call(i) + ": R2-D2 — shield recovered"@,
            Event::R2D2Faceup(i, x) => self.call(i) + ": R2-D2 — shield recovered, but a facedown card turns faceup: "@ + x.title(),
            Event::Jendon(i, f) => self.call(i) + ": Colonel Jendon — hands his target lock to "@ + self.call(f),
            Event::ReyAssigns(i) => self.call(i) + ": Rey — stored focus token assigned"@,
            Event::YsanneIsard(i) => self.call(i) + ": Ysanne Isard — free evade action"@,
            Event::EpsilonLeader(i, f) => self.call(i) + ": ability — stress removed from "@ + self.call(f),
            Event::Wingman(i, f) => self.call(i) + ": Wingman — stress removed from "@ + self.call(f),
            Event::SwarmTactics(i, f, n) => self.call(i) + ": Swarm Tactics — "@ + self.call(f) + " fires at pilot skill "@ + digits(n as nat),
            Event::Decoy(i, f, a, b) => self.call(i) + ": Decoy — swaps pilot skill with "@ + self.call(f) + " ("@ + digits(a as nat) + " / "@ + digits(b as nat) + ")"@,
            Event::TurretFollows(i) => self.call(i) + ": BTL-A4 Y-Wing — turret attack after the primary weapon"@,
            Event::ChewbaccaAttacks(i) => self.call(i) + ": Chewbacca — attacks after a friend's destruction"@,
            Event::IntelligenceAgent(i, e, man) => self.call(i) + ": Intelligence Agent — "@ + self.call(e) + " has dialed "@ + man.labelled(),
            Event::Drifts(i) => self.call(i) + ": ionized — drifts straight 1"@,
            Event::DialRotated(i, who, man) => self.call(i) + ": "@ + who.called() + " — dial rotated to "@ + man.steer.called() + " "@ + digits(man.distance as nat),
            Event::Bb8Rolls(i) => self.call(i) + ": BB-8 — free barrel roll before moving"@,
            Event::AdvancedSensors(i) => self.call(i) + ": Advanced Sensors — action before the maneuver"@,
            Event::Escaped(i, edge) => self.call(i) + ": ESCAPED off the "@ + edge.called() + " edge"@,
            Event::Fled(i, edge) => self.call(i) + ": fled the battlefield off the "@ + edge.called() + " edge — destroyed"@,
            Event::AsteroidHit(i) => self.call(i) + ": hits an asteroid — 1 damage, no action"@,
            Event::AsteroidCrit(i) => self.call(i) + ": hits an asteroid — faceup damage card, no action"@,
            Event::AsteroidGrazed(i) => self.call(i) + ": hits an asteroid — no damage, no action"@,
            Event::StuckOnAsteroid(i) => self.call(i) + ": stuck on the asteroid — cannot attack this round"@,
            Event::DebrisStress(i) => self.call(i) + ": flies through debris — stressed"@,
            Event::DebrisCrit(i) => self.call(i) + ": debris strike — faceup damage card"@,
            Event::Swallowed(i) => self.call(i) + ": swallowed by the black hole — LOST"@,
            Event::R2D2Green(i) => self.call(i) + ": R2-D2 — shield recovered"@,
            Event::FocusAfterGreen(i) => self.call(i) + ": ability — free focus after a green maneuver"@,
            Event::StunnedPilot(i, died) => self.call(i) + ": Stunned Pilot — 1 damage from the collision"@ + either(died, " — DESTROYED"@, ""@),
            Event::SnapShot(i, d) => self.call(i) + ": Snap Shot at "@ + self.call(d) + " as it completes its maneuver"@,
            Event::FreeBoost(i) => self.call(i) + ": ability — free boost after the maneuver"@,
            Event::PushTheLimit(i) => self.call(i) + ": Push the Limit — second action, then stress"@,
            Event::ExperimentalInterface(i) => self.call(i) + ": Experimental Interface — free card action, then stress"@,
            Event::DraggedIn(i) => self.call(i) + ": dragged into the black hole — SWALLOWED"@,
            Event::Pulled(i) => self.call(i) + ": pulled toward the black hole"@,
            Event::ConsoleFire(i, died) => self.call(i) + ": Console Fire burns for 1"@ + either(died, " — DESTROYED"@, ""@),
            Event::Daredevil(i, hits, crits, died) => self.call(i) + ": Daredevil — no boost icon: "@ + digits(hits as nat) + " hit(s), "@ + digits(crits as nat) + " critical(s) suffered"@ + either(died, " — DESTROYED"@, ""@),
            Event::Discarded { ship: i, card, why, kept } => self.call(i) + ": "@ + card_name(content, card) + " — "@ + why.called() + either(kept, ", card discarded; Tomax Bren flips it back faceup"@, ", card discarded"@),
            Event::Caught(i, kind, hit) => self.call(i) + ": caught by the "@ + kind.called() + " — "@ + suffering(kind, hit) + either(hit.destroyed, " — DESTROYED"@, ""@),
            Event::Fires(i, card, again) => self.call(i) + ": fires "@ + card_name(content, card) + either(again, " again"@, ""@),
            Event::GuidanceChips(i, big) => self.call(i) + ": Guidance Chips — die result to "@ + either(big, "critical hit"@, "hit"@),
            Event::Flechette(i, stressed) => self.call(i) + ": flechette — 1 damage"@ + either(stressed, " and stressed"@, ""@),
            Event::TurrPhennir(i, done) => self.call(i) + ": Turr Phennir — free reposition after attacking"@ + either(done, ""@, " FAILED"@),
            Event::SecondAttack(i, luke) => self.call(i) + ": "@ + either(luke, "Luke Skywalker"@, "Gunner"@) + " — a second attack after the miss"@,
            Event::LandoHelps(i, f, focus) => self.call(i) + ": Lando Calrissian — "@ + self.call(f) + " takes a free "@ + either(focus, "focus"@, "evade"@) + " action"@,
        }
    }

    /// Events in words, a line for each; one that adds to another is told in
    /// the same line.
    pub open spec fn lines(self, content: Content, events: Seq<Event>) -> Seq<Seq<char>>
        decreases events.len(),
    {
        if events.len() == 0 {
            Seq::empty()
        } else {
            let rest = self.lines(content, events.drop_last());
            let text = self.line(content, events.last());
            if events.last() is AlsoIonized && rest.len() > 0 {
                rest.drop_last().push(rest.last() + text)
            } else {
                rest.push(text)
            }
        }
    }
}

impl GameState {
    /// What the ship at a place is called.
    pub fn label(&self, i: usize) -> (name: String)
        ensures
            name@ == self@.call(i),
    {
        if i < self.ships.len() {
            String::from_str(self.ships[i].callsign.as_str())
        } else {
            let name = String::new();
            assert(name@ =~= Seq::empty());
            name
        }
    }

    fn label_id(&self, id: ShipId) -> (name: String)
        ensures
            name@ == self@.call_id(id),
    {
        match self.find_ship(id) {
            Some(k) => self.label(k),
            None => {
                let name = String::new();
                assert(name@ =~= Seq::empty());
                name
            },
        }
    }

    fn tell_upkeep(&self, content: &Content, event: Event) -> (text: Option<String>)
        ensures
            text is Some ==> text->0@ == self@.line(*content, event),
            text is None ==> {
                &&& !(event is OrdnanceSpent)
                &&& !(event is Locks)
                &&& !(event is BlackOne)
                &&& !(event is SecondLock)
                &&& !(event is YorrTakesStress)
                &&& !(event is BaffleStress)
                &&& !(event is BaffleIon)
                &&& !(event is StressDiscarded)
                &&& !(event is FocusForStress)
                &&& !(event is KyleKatarn)
                &&& !(event is FirstShieldLost)
                &&& !(event is GarvenDreis)
                &&& !(event is FriendSpentFocus)
                &&& !(event is SwarmLeader)
                &&& !(event is MaarekStele)
                &&& !(event is DiscardedOnHit)
                &&& !(event is CritIgnored)
                &&& !(event is Determination)
                &&& !(event is ExplosionFlares)
                &&& !(event is CritFlips)
                &&& !(event is DestroyedByCrit)
                &&& !(event is Predator)
                &&& !(event is Rage)
                &&& !(event is LoneWolf)
                &&& !(event is Wired)
                &&& !(event is BlanksRerolledAtRange)
                &&& !(event is BlanksRerolledInArc)
                &&& !(event is Elusiveness)
                &&& !(event is R7Astromech)
                &&& !(event is M9G8)
                &&& !(event is Opportunist)
                &&& !(event is ExtraDie)
            },
    {
        let told = match event {
            Event::OrdnanceSpent(i, card) => {
                let mut t = String::from_str(self.label(i).as_str());
                t.append(": Extra Munitions — ordnance token spent, ");
                t.append(name_card(content, card).as_str());
                t.append(" kept");
                t
            },
            Event::Locks(i, who, e) => {
                let mut t = String::from_str(self.label(i).as_str());
                t.append(": ");
                t.append(who.name());
                t.append(" — locks ");
                t.append(self.label(e).as_str());
                t
            },
            Event::BlackOne { ship: i, enemy: e, friend: f } => {
                let mut t = String::from_str(self.label(i).as_str());
                t.append(": Black One — ");
                t.append(self.label(e).as_str());
                t.append("'s lock on ");
                t.append(self.label(f).as_str());
                t.append(" removed");
                t
            },
            Event::SecondLock(i, e) => {
                let mut t = String::from_str(self.label(i).as_str());
                t.append(": Weapons Engineer — second lock on ");
                t.append(self.label(e).as_str());
                t
            },
            Event::YorrTakesStress { yorr: y, ship: i } => {
                let mut t = String::from_str(self.label(y).as_str());
                t.append(": Captain Yorr — takes the stress token meant for ");
                t.append(self.label(i).as_str());
                t
            },
            Event::BaffleStress(i) => {
                let mut t = String::from_str(self.label(i).as_str());
                t.append(": Electronic Baffle — 1 damage, stress token discarded");
                t
            },
            Event::BaffleIon(i) => {
                let mut t = String::from_str(self.label(i).as_str());
                t.append(": Electronic Baffle — 1 damage, ion token discarded");
                t
            },
            Event::StressDiscarded(i) => {
                let mut t = String::from_str(self.label(i).as_str());
                t.append(": ability — stress discarded (enemy in arc at Range 1)");
                t
            },
            Event::FocusForStress(i) => {
                let mut t = String::from_str(self.label(i).as_str());
                t.append(": ability — focus token for the stress");
                t
            },
            Event::KyleKatarn(i) => {
                let mut t = String::from_str(self.label(i).as_str());
                t.append(": Kyle Katarn — focus token");
                t
            },
            Event::FirstShieldLost(i) => {
                let mut t = String::from_str(self.label(i).as_str());
                t.append(": ability — evade token (first shield lost)");
                t
            },
            Event::GarvenDreis(i, f) => {
                let mut t = String::from_str(self.label(i).as_str());
                t.append(": Garven Dreis — spent focus token passed to ");
                t.append(self.label(f).as_str());
                t
            },
            Event::FriendSpentFocus(i) => {
                let mut t = String::from_str(self.label(i).as_str());
                t.append(": ability — focus token (friend spent one)");
                t
            },
            Event::SwarmLeader(i, f) => {
                let mut t = String::from_str(self.label(i).as_str());
                t.append(": Swarm Leader — ");
                t.append(self.label(f).as_str());
                t.append(" gives up an evade token, +1 attack die");
                t
            },
            Event::MaarekStele(i, x, y, z, best) => {
                let mut t = String::from_str(self.label(i).as_str());
                t.append(": Maarek Stele — draws ");
                t.append(x.name());
                t.append(", ");
                t.append(y.name());
                t.append(" and ");
                t.append(z.name());
                t.append("; chooses ");
                t.append(best.name());
                t
            },
            Event::DiscardedOnHit(i, card) => {
                let mut t = String::from_str(self.label(i).as_str());
                t.append(": ");
                t.append(name_card(content, card).as_str());
                t.append(" discarded (hit)");
                t
            },
            Event::CritIgnored(i) => {
                let mut t = String::from_str(self.label(i).as_str());
                t.append(": ability — card flipped facedown, no effect");
                t
            },
            Event::Determination(i) => {
                let mut t = String::from_str(self.label(i).as_str());
                t.append(": Determination — Pilot card discarded, no effect");
                t
            },
            Event::ExplosionFlares(i) => {
                let mut t = String::from_str(self.label(i).as_str());
                t.append(": the explosion flares — 1 more damage");
                t
            },
            Event::CritFlips(i, x) => {
                let mut t = String::from_str(self.label(i).as_str());
                t.append(": ");
                t.append(x.name());
                t.append(" flips facedown");
                t
            },
            Event::DestroyedByCrit(i) => {
                let mut t = String::from_str(self.label(i).as_str());
                t.append(": DESTROYED by critical damage");
                t
            },
            Event::Predator(i, n) => {
                let mut t = String::from_str(self.label(i).as_str());
                t.append(": Predator — rerolls ");
                t.append(decimal(n as usize).as_str());
                t.append(" attack dice");
                t
            },
            Event::Rage(i, n) => {
                let mut t = String::from_str(self.label(i).as_str());
                t.append(": Rage — rerolls ");
                t.append(decimal(n as usize).as_str());
                t.append(" attack dice");
                t
            },
            Event::LoneWolf(i) => {
                let mut t = String::from_str(self.label(i).as_str());
                t.append(": Lone Wolf — rerolls a blank");
                t
            },
            Event::Wired(i, n) => {
                let mut t = String::from_str(self.label(i).as_str());
                t.append(": Wired — rerolls ");
                t.append(decimal(n as usize).as_str());
                t.append(" focus results while stressed");
                t
            },
            Event::BlanksRerolledAtRange(i, n, range) => {
                let mut t = String::from_str(self.label(i).as_str());
                t.append(": ability — rerolls ");
                t.append(decimal(n as usize).as_str());
                t.append(" blanks at Range ");
                t.append(decimal(range as usize).as_str());
                t
            },
            Event::BlanksRerolledInArc(i, n) => {
                let mut t = String::from_str(self.label(i).as_str());
                t.append(": ability — rerolls ");
                t.append(decimal(n as usize).as_str());
                t.append(" blanks (enemy in arc)");
                t
            },
            Event::Elusiveness(i) => {
                let mut t = String::from_str(self.label(i).as_str());
                t.append(": Elusiveness — takes a stress, attacker rerolls a die");
                t
            },
            Event::R7Astromech(i, n) => {
                let mut t = String::from_str(self.label(i).as_str());
                t.append(": R7 Astromech — lock spent, attacker rerolls ");
                t.append(decimal(n as usize).as_str());
                t.append(" dice");
                t
            },
            Event::M9G8(i) => {
                let mut t = String::from_str(self.label(i).as_str());
                t.append(": M9-G8 — the locked attacker rerolls a die");
                t
            },
            Event::Opportunist(i) => {
                let mut t = String::from_str(self.label(i).as_str());
                t.append(": Opportunist — takes a stress token for +1 attack die");
                t
            },
            Event::ExtraDie(i, why) => {
                let mut t = String::from_str(self.label(i).as_str());
                t.append(": ability — +1 attack die (");
                t.append(why.name());
                t.append(")");
                t
            },
            _ => return None,
        };
        Some(told)
    }

    fn tell_plans(&self, content: &Content, event: Event) -> (text: Option<String>)
        ensures
            text is Some ==> text->0@ == self@.line(*content, event),
            text is None ==> {
                &&& !(event is FocusToHit)
                &&& !(event is HitToCrit)
                &&& !(event is FocusToEvade)
                &&& !(event is WeaponTurns)
                &&& !(event is AllCritical)
                &&& !(event is Protect)
                &&& !(event is ProtectFailed)
                &&& !(event is CarnorForbids)
                &&& !(event is JanOrs)
                &&& !(event is ReconSpecialist)
                &&& !(event is BankRoll)
                &&& !(event is DaredevilTurn)
                &&& !(event is KagiDrawsLock)
                &&& !(event is LockFailed)
                &&& !(event is CardAction)
                &&& !(event is FleetOfficer)
                &&& !(event is SquadLeader)
                &&& !(event is SquadLeaderFailed)
                &&& !(event is R7T1Failed)
                &&& !(event is R7T1Locks)
                &&& !(event is R7T1Boosts)
                &&& !(event is Drops)
                &&& !(event is ExpertStress)
                &&& !(event is ExpertLock)
                &&& !(event is Lando)
                &&& !(event is SaboteurFailed)
                &&& !(event is Saboteur)
                &&& !(event is SaboteurMisses)
                &&& !(event is R5D8Failed)
                &&& !(event is R5D8Misses)
                &&& !(event is R5D8)
                &&& !(event is Critical)
            },
    {
        let told = match event {
            Event::FocusToHit(i) => {
                let mut t = String::from_str(self.label(i).as_str());
                t.append(": ability — focus result to hit");
                t
            },
            Event::HitToCrit(i) => {
                let mut t = String::from_str(self.label(i).as_str());
                t.append(": ability — hit result to critical hit");
                t
            },
            Event::FocusToEvade(i) => {
                let mut t = String::from_str(self.label(i).as_str());
                t.append(": ability — focus result to evade");
                t
            },
            Event::WeaponTurns(i, what) => {
                let mut t = String::from_str(self.label(i).as_str());
                t.append(": weapon — ");
                t.append(what.name());
                t
            },
            Event::AllCritical(i) => {
                let mut t = String::from_str(self.label(i).as_str());
                t.append(": ability — lock and focus spent, all dice critical");
                t
            },
            Event::Protect(i, n) => {
                let mut t = String::from_str(self.label(i).as_str());
                t.append(": protect — evade token on the senator's shuttle (");
                t.append(decimal(n as usize).as_str());
                t.append(" held)");
                t
            },
            Event::ProtectFailed(i) => {
                let mut t = String::from_str(self.label(i).as_str());
                t.append(": action FAILED — the senator's shuttle is not within Range 1");
                t
            },
            Event::CarnorForbids(i) => {
                let mut t = String::from_str(self.label(i).as_str());
                t.append(": action FAILED — Carnor Jax at Range 1 forbids focus and evade");
                t
            },
            Event::JanOrs(i, f) => {
                let mut t = String::from_str(self.label(i).as_str());
                t.append(": Jan Ors — evade token instead of focus for ");
                t.append(self.label(f).as_str());
                t
            },
            Event::ReconSpecialist(i) => {
                let mut t = String::from_str(self.label(i).as_str());
                t.append(": Recon Specialist — extra focus token");
                t
            },
            Event::BankRoll(i) => {
                let mut t = String::from_str(self.label(i).as_str());
                t.append(": Lieutenant Lorrir — bank template roll, 1 stress");
                t
            },
            Event::DaredevilTurn(i) => {
                let mut t = String::from_str(self.label(i).as_str());
                t.append(": Daredevil — red turn 1, stress");
                t
            },
            Event::KagiDrawsLock(i) => {
                let mut t = String::from_str(self.label(i).as_str());
                t.append(": Captain Kagi draws the target lock");
                t
            },
            Event::LockFailed(i, id) => {
                let mut t = String::from_str(self.label(i).as_str());
                t.append(": target lock on ");
                t.append(self.label_id(id).as_str());
                t.append(" FAILED — not within Range 1-3 after moving");
                t
            },
            Event::CardAction(i, card) => {
                let mut t = String::from_str(self.label(i).as_str());
                t.append(": ");
                t.append(name_card(content, card).as_str());
                t.append(" action");
                t
            },
            Event::FleetOfficer(i, f) => {
                let mut t = String::from_str(self.label(i).as_str());
                t.append(": Fleet Officer — focus token to ");
                t.append(self.label(f).as_str());
                t
            },
            Event::SquadLeader(i, f) => {
                let mut t = String::from_str(self.label(i).as_str());
                t.append(": Squad Leader — ");
                t.append(self.label(f).as_str());
                t.append(" takes a free focus action");
                t
            },
            Event::SquadLeaderFailed(i) => {
                let mut t = String::from_str(self.label(i).as_str());
                t.append(": Squad Leader — no eligible friend");
                t
            },
            Event::R7T1Failed(i) => {
                let mut t = String::from_str(self.label(i).as_str());
                t.append(": R7-T1 — no enemy at Range 1-2");
                t
            },
            Event::R7T1Locks(i, e) => {
                let mut t = String::from_str(self.label(i).as_str());
                t.append(": R7-T1 — locks ");
                t.append(self.label(e).as_str());
                t
            },
            Event::R7T1Boosts(i) => {
                let mut t = String::from_str(self.label(i).as_str());
                t.append(": R7-T1 — free boost");
                t
            },
            Event::Drops(i, card) => {
                let mut t = String::from_str(self.label(i).as_str());
                t.append(": drops ");
                t.append(name_card(content, card).as_str());
                t
            },
            Event::ExpertStress(i) => {
                let mut t = String::from_str(self.label(i).as_str());
                t.append(": Expert Handling — rolled without the icon, 1 stress");
                t
            },
            Event::ExpertLock(i, e) => {
                let mut t = String::from_str(self.label(i).as_str());
                t.append(": Expert Handling — ");
                t.append(self.label(e).as_str());
                t.append("'s target lock removed");
                t
            },
            Event::Lando(i, f, e) => {
                let mut t = String::from_str(self.label(i).as_str());
                t.append(": Lando Calrissian — ");
                t.append(decimal(f as usize).as_str());
                t.append(" focus, ");
                t.append(decimal(e as usize).as_str());
                t.append(" evade tokens");
                t
            },
            Event::SaboteurFailed(i) => {
                let mut t = String::from_str(self.label(i).as_str());
                t.append(": Saboteur — no damaged enemy at Range 1");
                t
            },
            Event::Saboteur(i, e, x) => {
                let mut t = String::from_str(self.label(i).as_str());
                t.append(": Saboteur — ");
                t.append(self.label(e).as_str());
                t.append("'s facedown card turns faceup: ");
                t.append(x.name());
                t
            },
            Event::SaboteurMisses(i) => {
                let mut t = String::from_str(self.label(i).as_str());
                t.append(": Saboteur — the sabotage fails");
                t
            },
            Event::R5D8Failed(i) => {
                let mut t = String::from_str(self.label(i).as_str());
                t.append(": R5-D8 — nothing to repair");
                t
            },
            Event::R5D8Misses(i) => {
                let mut t = String::from_str(self.label(i).as_str());
                t.append(": R5-D8 — repair fails");
                t
            },
            Event::R5D8(i) => {
                let mut t = String::from_str(self.label(i).as_str());
                t.append(": R5-D8 — a facedown damage card discarded");
                t
            },
            Event::Critical(i, x) => {
                let mut t = String::from_str(self.label(i).as_str());
                t.append(": critical — ");
                t.append(x.name());
                t
            },
            _ => return None,
        };
        Some(told)
    }

    fn tell_blasts(&self, content: &Content, event: Event) -> (text: Option<String>)
        ensures
            text is Some ==> text->0@ == self@.line(*content, event),
            text is None ==> {
                &&& !(event is Detonates)
                &&& !(event is SeismicGone)
                &&& !(event is SeismicOutOfReach)
                &&& !(event is BreaksUp)
                &&& !(event is FlechetteTorpedoes)
                &&& !(event is PlasmaTorpedoes)
                &&& !(event is IonTorpedoes)
                &&& !(event is AlsoIonized)
                &&& !(event is AssaultMissiles)
                &&& !(event is ThreadTracers)
                &&& !(event is Tactician)
                &&& !(event is Ruthlessness)
                &&& !(event is VaderCrew)
                &&& !(event is FireControl)
                &&& !(event is R5K6)
                &&& !(event is R5K6Misses)
                &&& !(event is OperationsSpecialist)
                &&& !(event is Obstructed)
                &&& !(event is RebelCaptive)
                &&& !(event is R3A2)
                &&& !(event is Synchronized)
                &&& !(event is Deadeye)
                &&& !(event is ZertikDenies)
                &&& !(event is WeaponDice)
                &&& !(event is TrickShot)
                &&& !(event is FiresWildly)
                &&& !(event is FinnAddsBlank)
                &&& !(event is SensorJammer)
                &&& !(event is AttackerLocked)
                &&& !(event is DarkCurse)
                &&& !(event is DefenderLocked)
                &&& !(event is HanRerolls)
            },
    {
        let told = match event {
            Event::Detonates(kind) => {
                let mut t = String::from_str(kind.name());
                t.append(" detonates");
                t
            },
            Event::SeismicGone(i) => {
                let mut t = String::from_str(self.label(i).as_str());
                t.append(": Seismic Torpedo FAILED — the obstacle is gone");
                t
            },
            Event::SeismicOutOfReach(i, kind) => {
                let mut t = String::from_str(self.label(i).as_str());
                t.append(": Seismic Torpedo FAILED — the ");
                t.append(kind.name());
                t.append(" is not at Range 1-2 inside the firing arc");
                t
            },
            Event::BreaksUp(kind) => {
                let mut t = String::from_str("The ");
                t.append(kind.name());
                t.append(" breaks up and is removed");
                t
            },
            Event::FlechetteTorpedoes(i) => {
                let mut t = String::from_str(self.label(i).as_str());
                t.append(": flechette torpedoes — stressed");
                t
            },
            Event::PlasmaTorpedoes(i) => {
                let mut t = String::from_str(self.label(i).as_str());
                t.append(": plasma torpedoes — 1 shield stripped");
                t
            },
            Event::IonTorpedoes(i) => {
                let mut t = String::from_str("ion torpedoes — ionized: ");
                t.append(self.label(i).as_str());
                t
            },
            Event::AlsoIonized(i) => {
                let mut t = String::from_str(", ");
                t.append(self.label(i).as_str());
                t
            },
            Event::AssaultMissiles(i, died) => {
                let mut t = String::from_str(self.label(i).as_str());
                t.append(": assault missiles splash — 1 damage");
                t.append(pick_word(died, " — DESTROYED", ""));
                t
            },
            Event::ThreadTracers(i, d) => {
                let mut t = String::from_str(self.label(i).as_str());
                t.append(": locks ");
                t.append(self.label(d).as_str());
                t.append(" (thread tracers)");
                t
            },
            Event::Tactician(i, d) => {
                let mut t = String::from_str(self.label(i).as_str());
                t.append(": Tactician — ");
                t.append(self.label(d).as_str());
                t.append(" is stressed");
                t
            },
            Event::Ruthlessness(i, k, died) => {
                let mut t = String::from_str(self.label(i).as_str());
                t.append(": Ruthlessness — ");
                t.append(self.label(k).as_str());
                t.append(" suffers 1 damage");
                t.append(pick_word(died, " — DESTROYED", ""));
                t
            },
            Event::VaderCrew(i, d) => {
                let mut t = String::from_str(self.label(i).as_str());
                t.append(": Darth Vader — suffers 2 damage; ");
                t.append(self.label(d).as_str());
                t.append(" suffers a critical hit — DESTROYED");
                t
            },
            Event::FireControl(i, d) => {
                let mut t = String::from_str(self.label(i).as_str());
                t.append(": Fire-Control System — locks ");
                t.append(self.label(d).as_str());
                t
            },
            Event::R5K6(i, d) => {
                let mut t = String::from_str(self.label(i).as_str());
                t.append(": R5-K6 — evade rolled, lock on ");
                t.append(self.label(d).as_str());
                t.append(" re-acquired");
                t
            },
            Event::R5K6Misses(i) => {
                let mut t = String::from_str(self.label(i).as_str());
                t.append(": R5-K6 — no evade, lock not re-acquired");
                t
            },
            Event::OperationsSpecialist(i, f) => {
                let mut t = String::from_str(self.label(i).as_str());
                t.append(": Operations Specialist — focus token to ");
                t.append(self.label(f).as_str());
                t
            },
            Event::Obstructed(i) => {
                let mut t = String::from_str(self.label(i).as_str());
                t.append(": attack obstructed — defender +1 die");
                t
            },
            Event::RebelCaptive(i, a) => {
                let mut t = String::from_str(self.label(i).as_str());
                t.append(": Rebel Captive — ");
                t.append(self.label(a).as_str());
                t.append(" receives a stress token");
                t
            },
            Event::R3A2(i, d) => {
                let mut t = String::from_str(self.label(i).as_str());
                t.append(": R3-A2 — takes a stress, ");
                t.append(self.label(d).as_str());
                t.append(" is stressed");
                t
            },
            Event::Synchronized(i) => {
                let mut t = String::from_str(self.label(i).as_str());
                t.append(": Targeting Synchronizer — fires on a friend's lock");
                t
            },
            Event::Deadeye(i) => {
                let mut t = String::from_str(self.label(i).as_str());
                t.append(": Deadeye — focus token spent as the target lock");
                t
            },
            Event::ZertikDenies(i) => {
                let mut t = String::from_str(self.label(i).as_str());
                t.append(": Zertik Strom denies the Range 1 bonus die");
                t
            },
            Event::WeaponDice(i, n) => {
                let mut t = String::from_str(self.label(i).as_str());
                t.append(": +");
                t.append(decimal(n as usize).as_str());
                t.append(" attack dice (weapon)");
                t
            },
            Event::TrickShot(i) => {
                let mut t = String::from_str(self.label(i).as_str());
                t.append(": Trick Shot — +1 attack die");
                t
            },
            Event::FiresWildly(i) => {
                let mut t = String::from_str(self.label(i).as_str());
                t.append(": Blinded Pilot — fires wildly (0 dice), vision clears");
                t
            },
            Event::FinnAddsBlank(i) => {
                let mut t = String::from_str(self.label(i).as_str());
                t.append(": Finn — adds a blank result");
                t
            },
            Event::SensorJammer(i) => {
                let mut t = String::from_str(self.label(i).as_str());
                t.append(": Sensor Jammer — one hit result becomes a focus result");
                t
            },
            Event::AttackerLocked(i) => {
                let mut t = String::from_str(self.label(i).as_str());
                t.append(": ability — locked attacker cannot modify dice");
                t
            },
            Event::DarkCurse(i) => {
                let mut t = String::from_str(self.label(i).as_str());
                t.append(": ability — attacker cannot spend focus or reroll");
                t
            },
            Event::DefenderLocked(i) => {
                let mut t = String::from_str(self.label(i).as_str());
                t.append(": ability — locked defender cannot modify dice");
                t
            },
            Event::HanRerolls(i) => {
                let mut t = String::from_str(self.label(i).as_str());
                t.append(": Han Solo — rerolls every attack die");
                t
            },
            _ => return None,
        };
        Some(told)
    }

    fn tell_volleys(&self, content: &Content, event: Event) -> (text: Option<String>)
        ensures
            text is Some ==> text->0@ == self@.line(*content, event),
            text is None ==> {
                &&& !(event is TargetingComputer)
                &&& !(event is HanCrew)
                &&& !(event is FriendlyRerolls)
                &&& !(event is FriendlyDodges)
                &&& !(event is CaptainJonus)
                &&& !(event is KirKanos)
                &&& !(event is LukeCrew)
                &&& !(event is MercenaryCopilot)
                &&& !(event is AgentKallus)
                &&& !(event is AgentKallusEvade)
                &&& !(event is ScoreToSettle)
                &&& !(event is Marksmanship)
                &&& !(event is Expertise)
                &&& !(event is Calculation)
                &&& !(event is WeaponsGuidance)
                &&& !(event is R3Astromech)
                &&& !(event is AccuracyCorrector)
                &&& !(event is WampaCancels)
                &&& !(event is Outmaneuver)
                &&& !(event is WedgeAntilles)
                &&& !(event is Intimidation)
                &&& !(event is LightweightFrame)
                &&& !(event is C3po)
                &&& !(event is FlightInstructor)
                &&& !(event is Autothrusters)
                &&& !(event is LukeSkywalker)
                &&& !(event is SensorCluster)
                &&& !(event is Juke)
                &&& !(event is TomaxCrackShot)
                &&& !(event is CrackShot)
                &&& !(event is R4D6)
                &&& !(event is IonCannon)
            },
    {
        let told = match event {
            Event::TargetingComputer(i) => {
                let mut t = String::from_str(self.label(i).as_str());
                t.append(": Adv. Targeting Computer — adds a critical hit, lock kept");
                t
            },
            Event::HanCrew(i) => {
                let mut t = String::from_str(self.label(i).as_str());
                t.append(": Han Solo — lock spent, all focus results to hits");
                t
            },
            Event::FriendlyRerolls(i, n) => {
                let mut t = String::from_str(self.label(i).as_str());
                t.append(": rerolls ");
                t.append(decimal(n as usize).as_str());
                t.append(" attack dice (friends at Range 1)");
                t
            },
            Event::FriendlyDodges(i, n) => {
                let mut t = String::from_str(self.label(i).as_str());
                t.append(": rerolls ");
                t.append(decimal(n as usize).as_str());
                t.append(" defense dice (friends at Range 1)");
                t
            },
            Event::CaptainJonus(i, n) => {
                let mut t = String::from_str(self.label(i).as_str());
                t.append(": Captain Jonus — rerolls ");
                t.append(decimal(n as usize).as_str());
                t.append(" attack dice");
                t
            },
            Event::KirKanos(i) => {
                let mut t = String::from_str(self.label(i).as_str());
                t.append(": Kir Kanos — evade token spent for a hit result");
                t
            },
            Event::LukeCrew(i) => {
                let mut t = String::from_str(self.label(i).as_str());
                t.append(": Luke Skywalker — focus result to hit");
                t
            },
            Event::MercenaryCopilot(i) => {
                let mut t = String::from_str(self.label(i).as_str());
                t.append(": Mercenary Copilot — hit result to critical hit");
                t
            },
            Event::AgentKallus(i) => {
                let mut t = String::from_str(self.label(i).as_str());
                t.append(": Agent Kallus — focus result to hit");
                t
            },
            Event::AgentKallusEvade(i) => {
                let mut t = String::from_str(self.label(i).as_str());
                t.append(": Agent Kallus — focus result to evade");
                t
            },
            Event::ScoreToSettle(i) => {
                let mut t = String::from_str(self.label(i).as_str());
                t.append(": A Score to Settle — focus result to critical hit");
                t
            },
            Event::Marksmanship(i) => {
                let mut t = String::from_str(self.label(i).as_str());
                t.append(": Marksmanship — focus results converted");
                t
            },
            Event::Expertise(i) => {
                let mut t = String::from_str(self.label(i).as_str());
                t.append(": Expertise — focus results to hits");
                t
            },
            Event::Calculation(i) => {
                let mut t = String::from_str(self.label(i).as_str());
                t.append(": Calculation — focus spent, focus result to critical hit");
                t
            },
            Event::WeaponsGuidance(i) => {
                let mut t = String::from_str(self.label(i).as_str());
                t.append(": Weapons Guidance — focus spent, blank to hit");
                t
            },
            Event::R3Astromech(i) => {
                let mut t = String::from_str(self.label(i).as_str());
                t.append(": R3 Astromech — focus result cancelled, evade token gained");
                t
            },
            Event::AccuracyCorrector(i) => {
                let mut t = String::from_str(self.label(i).as_str());
                t.append(": Accuracy Corrector — all dice cancelled, two hits added");
                t
            },
            Event::WampaCancels(i) => {
                let mut t = String::from_str(self.label(i).as_str());
                t.append(": Wampa — cancels all dice for a facedown Damage card");
                t
            },
            Event::Outmaneuver(i) => {
                let mut t = String::from_str(self.label(i).as_str());
                t.append(": Outmaneuver — defender agility -1");
                t
            },
            Event::WedgeAntilles(i) => {
                let mut t = String::from_str(self.label(i).as_str());
                t.append(": Wedge Antilles — defender agility -1");
                t
            },
            Event::Intimidation(i) => {
                let mut t = String::from_str(self.label(i).as_str());
                t.append(": Intimidation — touching defender's agility -1");
                t
            },
            Event::LightweightFrame(i) => {
                let mut t = String::from_str(self.label(i).as_str());
                t.append(": Lightweight Frame — +1 defense die");
                t
            },
            Event::C3po(i) => {
                let mut t = String::from_str(self.label(i).as_str());
                t.append(": C-3PO — guessed zero evades correctly, +1 evade");
                t
            },
            Event::FlightInstructor(i) => {
                let mut t = String::from_str(self.label(i).as_str());
                t.append(": Flight Instructor — rerolls a defense die");
                t
            },
            Event::Autothrusters(i) => {
                let mut t = String::from_str(self.label(i).as_str());
                t.append(": Autothrusters — blank result to evade");
                t
            },
            Event::LukeSkywalker(i) => {
                let mut t = String::from_str(self.label(i).as_str());
                t.append(": Luke Skywalker — focus result to evade");
                t
            },
            Event::SensorCluster(i) => {
                let mut t = String::from_str(self.label(i).as_str());
                t.append(": Sensor Cluster — focus spent, blank to evade");
                t
            },
            Event::Juke(i) => {
                let mut t = String::from_str(self.label(i).as_str());
                t.append(": Juke — defender's evade result to focus");
                t
            },
            Event::TomaxCrackShot(i) => {
                let mut t = String::from_str(self.label(i).as_str());
                t.append(": Tomax Bren — Crack Shot flipped back faceup");
                t
            },
            Event::CrackShot(i) => {
                let mut t = String::from_str(self.label(i).as_str());
                t.append(": Crack Shot — cancels an evade result, card discarded");
                t
            },
            Event::R4D6(i, n) => {
                let mut t = String::from_str(self.label(i).as_str());
                t.append(": R4-D6 — cancels ");
                t.append(decimal(n as usize).as_str());
                t.append(" hit results for ");
                t.append(decimal(n as usize).as_str());
                t.append(" stress");
                t
            },
            Event::IonCannon(i) => {
                let mut t = String::from_str(self.label(i).as_str());
                t.append(": ion cannon — 1 damage, ionized");
                t
            },
            _ => return None,
        };
        Some(told)
    }

    fn tell_rounds(&self, content: &Content, event: Event) -> (text: Option<String>)
        ensures
            text is Some ==> text->0@ == self@.line(*content, event),
            text is None ==> {
                &&& !(event is IonPulse)
                &&& !(event is HomingWarhead)
                &&& !(event is TwinLaser)
                &&& !(event is TractorBeam)
                &&& !(event is DrawTheirFire)
                &&& !(event is WampaDamage)
                &&& !(event is ReinforcedDeflectors)
                &&& !(event is DiscardedFired)
                &&& !(event is Scans)
                &&& !(event is SatelliteReturns)
                &&& !(event is Reinforcement)
                &&& !(event is FelsWrath)
                &&& !(event is Colzet)
                &&& !(event is MaraJade)
                &&& !(event is R5P9)
                &&& !(event is R5Astromech)
                &&& !(event is ReyStores)
                &&& !(event is R2D2)
                &&& !(event is R2D2Faceup)
                &&& !(event is Jendon)
                &&& !(event is ReyAssigns)
                &&& !(event is YsanneIsard)
                &&& !(event is EpsilonLeader)
                &&& !(event is Wingman)
                &&& !(event is SwarmTactics)
                &&& !(event is Decoy)
                &&& !(event is TurretFollows)
                &&& !(event is ChewbaccaAttacks)
                &&& !(event is IntelligenceAgent)
                &&& !(event is Drifts)
                &&& !(event is DialRotated)
                &&& !(event is Bb8Rolls)
            },
    {
        let told = match event {
            Event::IonPulse(i) => {
                let mut t = String::from_str(self.label(i).as_str());
                t.append(": ion pulse — 1 damage, 2 ion tokens");
                t
            },
            Event::HomingWarhead(i) => {
                let mut t = String::from_str(self.label(i).as_str());
                t.append(": homing warhead — faceup damage card");
                t
            },
            Event::TwinLaser(i) => {
                let mut t = String::from_str(self.label(i).as_str());
                t.append(": twin laser — 1 damage");
                t
            },
            Event::TractorBeam(i) => {
                let mut t = String::from_str(self.label(i).as_str());
                t.append(": tractor beam — tractored (agility -1)");
                t
            },
            Event::DrawTheirFire(i, d) => {
                let mut t = String::from_str(self.label(i).as_str());
                t.append(": Draw Their Fire — takes a critical hit for ");
                t.append(self.label(d).as_str());
                t
            },
            Event::WampaDamage(i, died) => {
                let mut t = String::from_str(self.label(i).as_str());
                t.append(": facedown Damage card from Wampa");
                t.append(pick_word(died, " — DESTROYED", ""));
                t
            },
            Event::ReinforcedDeflectors(i) => {
                let mut t = String::from_str(self.label(i).as_str());
                t.append(": Reinforced Deflectors — shield recovered");
                t
            },
            Event::DiscardedFired(i, card) => {
                let mut t = String::from_str(self.label(i).as_str());
                t.append(": ");
                t.append(name_card(content, card).as_str());
                t.append(" discarded (fired)");
                t
            },
            Event::Scans(i, id, left) => {
                let mut t = String::from_str(self.label(i).as_str());
                t.append(": scans satellite ");
                t.append(decimal(id.saturating_add(1) as usize).as_str());
                t.append(" instead of attacking (");
                t.append(decimal(left as usize).as_str());
                t.append(" left on the board)");
                t
            },
            Event::SatelliteReturns(id) => {
                let mut t = String::from_str("satellite ");
                t.append(decimal(id.saturating_add(1) as usize).as_str());
                t.append(" returns to the supply");
                t
            },
            Event::Reinforcement(i, pilot) => {
                let mut t = String::from_str("reinforcement: ");
                t.append(name_pilot(content, pilot).as_str());
                t.append(" (");
                t.append(name_vessel(content, pilot).as_str());
                t.append(") arrives as ");
                t.append(self.label(i).as_str());
                t.append(" — place it within Range 1 of the edge");
                t
            },
            Event::FelsWrath(i) => {
                let mut t = String::from_str(self.label(i).as_str());
                t.append(": Fel's Wrath — destroyed at the end of the Combat phase");
                t
            },
            Event::Colzet(i, e, x) => {
                let mut t = String::from_str(self.label(i).as_str());
                t.append(": Lieutenant Colzet — lock spent, ");
                t.append(self.label(e).as_str());
                t.append("'s facedown card turns faceup: ");
                t.append(x.name());
                t
            },
            Event::MaraJade(i, e) => {
                let mut t = String::from_str(self.label(i).as_str());
                t.append(": Mara Jade — ");
                t.append(self.label(e).as_str());
                t.append(" is stressed");
                t
            },
            Event::R5P9(i) => {
                let mut t = String::from_str(self.label(i).as_str());
                t.append(": R5-P9 — focus spent, shield recovered");
                t
            },
            Event::R5Astromech(i, x) => {
                let mut t = String::from_str(self.label(i).as_str());
                t.append(": R5 Astromech — ");
                t.append(x.name());
                t.append(" repaired (flipped facedown)");
                t
            },
            Event::ReyStores(i) => {
                let mut t = String::from_str(self.label(i).as_str());
                t.append(": Rey — a focus token is stored");
                t
            },
            Event::R2D2(i) => {
                let mut t = String::from_str(self.label(i).as_str());
                t.append(": R2-D2 — shield recovered");
                t
            },
            Event::R2D2Faceup(i, x) => {
                let mut t = String::from_str(self.label(i).as_str());
                t.append(": R2-D2 — shield recovered, but a facedown card turns faceup: ");
                t.append(x.name());
                t
            },
            Event::Jendon(i, f) => {
                let mut t = String::from_str(self.label(i).as_str());
                t.append(": Colonel Jendon — hands his target lock to ");
                t.append(self.label(f).as_str());
                t
            },
            Event::ReyAssigns(i) => {
                let mut t = String::from_str(self.label(i).as_str());
                t.append(": Rey — stored focus token assigned");
                t
            },
            Event::YsanneIsard(i) => {
                let mut t = String::from_str(self.label(i).as_str());
                t.append(": Ysanne Isard — free evade action");
                t
            },
            Event::EpsilonLeader(i, f) => {
                let mut t = String::from_str(self.label(i).as_str());
                t.append(": ability — stress removed from ");
                t.append(self.label(f).as_str());
                t
            },
            Event::Wingman(i, f) => {
                let mut t = String::from_str(self.label(i).as_str());
                t.append(": Wingman — stress removed from ");
                t.append(self.label(f).as_str());
                t
            },
            Event::SwarmTactics(i, f, n) => {
                let mut t = String::from_str(self.label(i).as_str());
                t.append(": Swarm Tactics — ");
                t.append(self.label(f).as_str());
                t.append(" fires at pilot skill ");
                t.append(decimal(n as usize).as_str());
                t
            },
            Event::Decoy(i, f, a, b) => {
                let mut t = String::from_str(self.label(i).as_str());
                t.append(": Decoy — swaps pilot skill with ");
                t.append(self.label(f).as_str());
                t.append(" (");
                t.append(decimal(a as usize).as_str());
                t.append(" / ");
                t.append(decimal(b as usize).as_str());
                t.append(")");
                t
            },
            Event::TurretFollows(i) => {
                let mut t = String::from_str(self.label(i).as_str());
                t.append(": BTL-A4 Y-Wing — turret attack after the primary weapon");
                t
            },
            Event::ChewbaccaAttacks(i) => {
                let mut t = String::from_str(self.label(i).as_str());
                t.append(": Chewbacca — attacks after a friend's destruction");
                t
            },
            Event::IntelligenceAgent(i, e, man) => {
                let mut t = String::from_str(self.label(i).as_str());
                t.append(": Intelligence Agent — ");
                t.append(self.label(e).as_str());
                t.append(" has dialed ");
                t.append(man.label().as_str());
                t
            },
            Event::Drifts(i) => {
                let mut t = String::from_str(self.label(i).as_str());
                t.append(": ionized — drifts straight 1");
                t
            },
            Event::DialRotated(i, who, man) => {
                let mut t = String::from_str(self.label(i).as_str());
                t.append(": ");
                t.append(who.name());
                t.append(" — dial rotated to ");
                t.append(man.steer.name());
                t.append(" ");
                t.append(decimal(man.distance as usize).as_str());
                t
            },
            Event::Bb8Rolls(i) => {
                let mut t = String::from_str(self.label(i).as_str());
                t.append(": BB-8 — free barrel roll before moving");
                t
            },
            _ => return None,
        };
        Some(told)
    }

    fn tell_moves(&self, content: &Content, event: Event) -> (text: Option<String>)
        ensures
            text is Some ==> text->0@ == self@.line(*content, event),
            text is None ==> {
                &&& !(event is AdvancedSensors)
                &&& !(event is Escaped)
                &&& !(event is Fled)
                &&& !(event is AsteroidHit)
                &&& !(event is AsteroidCrit)
                &&& !(event is AsteroidGrazed)
                &&& !(event is StuckOnAsteroid)
                &&& !(event is DebrisStress)
                &&& !(event is DebrisCrit)
                &&& !(event is Swallowed)
                &&& !(event is R2D2Green)
                &&& !(event is FocusAfterGreen)
                &&& !(event is StunnedPilot)
                &&& !(event is SnapShot)
                &&& !(event is FreeBoost)
                &&& !(event is PushTheLimit)
                &&& !(event is ExperimentalInterface)
                &&& !(event is DraggedIn)
                &&& !(event is Pulled)
                &&& !(event is ConsoleFire)
                &&& !(event is Daredevil)
                &&& !(event is Discarded)
                &&& !(event is Caught)
                &&& !(event is Fires)
                &&& !(event is GuidanceChips)
                &&& !(event is Flechette)
                &&& !(event is TurrPhennir)
                &&& !(event is SecondAttack)
                &&& !(event is LandoHelps)
            },
    {
        let told = match event {
            Event::AdvancedSensors(i) => {
                let mut t = String::from_str(self.label(i).as_str());
                t.append(": Advanced Sensors — action before the maneuver");
                t
            },
            Event::Escaped(i, edge) => {
                let mut t = String::from_str(self.label(i).as_str());
                t.append(": ESCAPED off the ");
                t.append(edge.name());
                t.append(" edge");
                t
            },
            Event::Fled(i, edge) => {
                let mut t = String::from_str(self.label(i).as_str());
                t.append(": fled the battlefield off the ");
                t.append(edge.name());
                t.append(" edge — destroyed");
                t
            },
            Event::AsteroidHit(i) => {
                let mut t = String::from_str(self.label(i).as_str());
                t.append(": hits an asteroid — 1 damage, no action");
                t
            },
            Event::AsteroidCrit(i) => {
                let mut t = String::from_str(self.label(i).as_str());
                t.append(": hits an asteroid — faceup damage card, no action");
                t
            },
            Event::AsteroidGrazed(i) => {
                let mut t = String::from_str(self.label(i).as_str());
                t.append(": hits an asteroid — no damage, no action");
                t
            },
            Event::StuckOnAsteroid(i) => {
                let mut t = String::from_str(self.label(i).as_str());
                t.append(": stuck on the asteroid — cannot attack this round");
                t
            },
            Event::DebrisStress(i) => {
                let mut t = String::from_str(self.label(i).as_str());
                t.append(": flies through debris — stressed");
                t
            },
            Event::DebrisCrit(i) => {
                let mut t = String::from_str(self.label(i).as_str());
                t.append(": debris strike — faceup damage card");
                t
            },
            Event::Swallowed(i) => {
                let mut t = String::from_str(self.label(i).as_str());
                t.append(": swallowed by the black hole — LOST");
                t
            },
            Event::R2D2Green(i) => {
                let mut t = String::from_str(self.label(i).as_str());
                t.append(": R2-D2 — shield recovered");
                t
            },
            Event::FocusAfterGreen(i) => {
                let mut t = String::from_str(self.label(i).as_str());
                t.append(": ability — free focus after a green maneuver");
                t
            },
            Event::StunnedPilot(i, died) => {
                let mut t = String::from_str(self.label(i).as_str());
                t.append(": Stunned Pilot — 1 damage from the collision");
                t.append(pick_word(died, " — DESTROYED", ""));
                t
            },
            Event::SnapShot(i, d) => {
                let mut t = String::from_str(self.label(i).as_str());
                t.append(": Snap Shot at ");
                t.append(self.label(d).as_str());
                t.append(" as it completes its maneuver");
                t
            },
            Event::FreeBoost(i) => {
                let mut t = String::from_str(self.label(i).as_str());
                t.append(": ability — free boost after the maneuver");
                t
            },
            Event::PushTheLimit(i) => {
                let mut t = String::from_str(self.label(i).as_str());
                t.append(": Push the Limit — second action, then stress");
                t
            },
            Event::ExperimentalInterface(i) => {
                let mut t = String::from_str(self.label(i).as_str());
                t.append(": Experimental Interface — free card action, then stress");
                t
            },
            Event::DraggedIn(i) => {
                let mut t = String::from_str(self.label(i).as_str());
                t.append(": dragged into the black hole — SWALLOWED");
                t
            },
            Event::Pulled(i) => {
                let mut t = String::from_str(self.label(i).as_str());
                t.append(": pulled toward the black hole");
                t
            },
            Event::ConsoleFire(i, died) => {
                let mut t = String::from_str(self.label(i).as_str());
                t.append(": Console Fire burns for 1");
                t.append(pick_word(died, " — DESTROYED", ""));
                t
            },
            Event::Daredevil(i, hits, crits, died) => {
                let mut t = String::from_str(self.label(i).as_str());
                t.append(": Daredevil — no boost icon: ");
                t.append(decimal(hits as usize).as_str());
                t.append(" hit(s), ");
                t.append(decimal(crits as usize).as_str());
                t.append(" critical(s) suffered");
                t.append(pick_word(died, " — DESTROYED", ""));
                t
            },
            Event::Discarded { ship: i, card, why, kept } => {
                let mut t = String::from_str(self.label(i).as_str());
                t.append(": ");
                t.append(name_card(content, card).as_str());
                t.append(" — ");
                t.append(why.words().as_str());
                t.append(pick_word(kept, ", card discarded; Tomax Bren flips it back faceup", ", card discarded"));
                t
            },
            Event::Caught(i, kind, hit) => {
                let mut t = String::from_str(self.label(i).as_str());
                t.append(": caught by the ");
                t.append(kind.name());
                t.append(" — ");
                t.append(describe(kind, &hit).as_str());
                t.append(pick_word(hit.destroyed, " — DESTROYED", ""));
                t
            },
            Event::Fires(i, card, again) => {
                let mut t = String::from_str(self.label(i).as_str());
                t.append(": fires ");
                t.append(name_card(content, card).as_str());
                t.append(pick_word(again, " again", ""));
                t
            },
            Event::GuidanceChips(i, big) => {
                let mut t = String::from_str(self.label(i).as_str());
                t.append(": Guidance Chips — die result to ");
                t.append(pick_word(big, "critical hit", "hit"));
                t
            },
            Event::Flechette(i, stressed) => {
                let mut t = String::from_str(self.label(i).as_str());
                t.append(": flechette — 1 damage");
                t.append(pick_word(stressed, " and stressed", ""));
                t
            },
            Event::TurrPhennir(i, done) => {
                let mut t = String::from_str(self.label(i).as_str());
                t.append(": Turr Phennir — free reposition after attacking");
                t.append(pick_word(done, "", " FAILED"));
                t
            },
            Event::SecondAttack(i, luke) => {
                let mut t = String::from_str(self.label(i).as_str());
                t.append(": ");
                t.append(pick_word(luke, "Luke Skywalker", "Gunner"));
                t.append(" — a second attack after the miss");
                t
            },
            Event::LandoHelps(i, f, focus) => {
                let mut t = String::from_str(self.label(i).as_str());
                t.append(": Lando Calrissian — ");
                t.append(self.label(f).as_str());
                t.append(" takes a free ");
                t.append(pick_word(focus, "focus", "evade"));
                t.append(" action");
                t
            },
            _ => return None,
        };
        Some(told)
    }

    /// An event in words.
    pub fn tell(&self, content: &Content, event: Event) -> (text: String)
        ensures
            text@ == self@.line(*content, event),
    {
        if let Some(text) = self.tell_upkeep(content, event) {
            return text;
        }
        if let Some(text) = self.tell_plans(content, event) {
            return text;
        }
        if let Some(text) = self.tell_blasts(content, event) {
            return text;
        }
        if let Some(text) = self.tell_volleys(content, event) {
            return text;
        }
        if let Some(text) = self.tell_rounds(content, event) {
            return text;
        }
        if let Some(text) = self.tell_moves(content, event) {
            return text;
        }
        assert(false);
        String::new()
    }

    /// Events in words, a line for each; one that adds to another is told in
    /// the same line.
    pub fn tell_all(&self, content: &Content, events: &Vec<Event>) -> (lines: Vec<String>)
        ensures
            views(lines@) == self@.lines(*content, events@),
    {
        let mut lines: Vec<String> = Vec::new();
        let mut k: usize = 0;
        assert(views(lines@) =~= self@.lines(*content, events@.take(0)));
        while k < events.len()
            invariant
                k <= events.len(),
                views(lines@) == self@.lines(*content, events@.take(k as int)),
            decreases events.len() - k,
        {
            assert(events@.take(k + 1).drop_last() =~= events@.take(k as int));
            let text = self.tell(content, events[k]);
            let ghost before = views(lines@);
            let joins = match events[k] {
                Event::AlsoIonized(_) => true,
                _ => false,
            };
            if joins && lines.len() > 0 {
                let mut line = lines.remove(lines.len() - 1);
                assert(views(lines@) =~= before.drop_last());
                line.append(text.as_str());
                let ghost long = line@;
                lines.push(line);
                assert(views(lines@) =~= before.drop_last().push(long));
            } else {
                let ghost words = text@;
                lines.push(text);
                assert(views(lines@) =~= before.push(words));
            }
            k = k + 1;
        }
        assert(events@.take(k as int) =~= events@);
        lines
    }

    /// Everything that has been told so far, in words.
    pub fn combat_events(&self, content: &Content) -> (lines: Vec<String>)
        ensures
            views(lines@) == self@.lines(*content, self@.log),
    {
        self.tell_all(content, &self.log)
    }
}

} // verus!
