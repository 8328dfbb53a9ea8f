//! The state of a game, and its mathematical model.

use vstd::prelude::*;

use crate::bombs::BombToken;
use crate::data::Content;
use crate::dice::{AttackFace, DefenseFace, Tape};
use crate::event::Event;
use crate::geometry::Pose;
use crate::action::{ActionResult, PlannedAction};
use crate::mission::{MissionModel, MissionState};
use crate::obstacle::Obstacle;
use crate::pilot::PilotId;
use crate::ship::{PlayerId, ShipClassId, ShipId, ShipModel, ShipState};
use crate::upgrade::UpgradeId;

verus! {

/// The turn phase machine.
#[derive(Debug, Clone, Copy, PartialEq, Eq, Structural)]
pub enum Phase {
    Placement,
    Planning,
    /// Combat is being resolved step by step (may be waiting on a
    /// player's Declare Target choice).
    Combat,
    GameOver,
}

/// A free reposition taken during the Combat phase, for the animation.
#[derive(Debug, Clone, Copy, PartialEq, Eq, Structural)]
pub struct Reposition {
    pub action: PlannedAction,
    pub result: ActionResult,
    /// The ship's pose afterwards (unchanged if the action failed).
    pub to: Pose,
}

/// One resolved attack in the Combat phase.
#[derive(Debug, Clone, PartialEq, Eq)]
pub struct AttackRecord {
    pub attacker: ShipId,
    pub defender: ShipId,
    pub range: u8,
    /// The secondary weapon card fired, or None for the primary weapon.
    pub weapon: Option<UpgradeId>,
    /// The line of sight crossed an obstacle (+1 defense die).
    pub obstructed: bool,
    /// Final attack faces after rerolls/conversions.
    pub attack_faces: Vec<AttackFace>,
    /// Final defense faces after conversions.
    pub defense_faces: Vec<DefenseFace>,
    pub lock_spent: bool,
    pub attacker_focus_spent: bool,
    pub defender_focus_spent: bool,
    pub evade_spent: bool,
    /// Defender was inside the attacker's bullseye lane (tokens denied).
    pub defender_in_bullseye: bool,
    /// Uncanceled results that landed.
    pub hits: u8,
    pub crits: u8,
    pub shields_lost: u8,
    pub hull_lost: u8,
    /// Crits that reached the hull.
    pub crits_to_hull: u8,
    pub defender_destroyed: bool,
    /// Turr Phennir: the free boost or barrel roll taken after the attack.
    pub reposition: Option<Reposition>,
}

/// A resolved attack, with its faces as sequences.
#[verifier::ext_equal]
pub struct AttackModel {
    pub attacker: ShipId,
    pub defender: ShipId,
    pub range: u8,
    pub weapon: Option<UpgradeId>,
    pub obstructed: bool,
    pub attack_faces: Seq<AttackFace>,
    pub defense_faces: Seq<DefenseFace>,
    pub lock_spent: bool,
    pub attacker_focus_spent: bool,
    pub defender_focus_spent: bool,
    pub evade_spent: bool,
    pub defender_in_bullseye: bool,
    pub hits: u8,
    pub crits: u8,
    pub shields_lost: u8,
    pub hull_lost: u8,
    pub crits_to_hull: u8,
    pub defender_destroyed: bool,
    pub reposition: Option<Reposition>,
}

impl View for AttackRecord {
    type V = AttackModel;

    open spec fn view(&self) -> AttackModel {
        AttackModel {
            attacker: self.attacker,
            defender: self.defender,
            range: self.range,
            weapon: self.weapon,
            obstructed: self.obstructed,
            attack_faces: self.attack_faces@,
            defense_faces: self.defense_faces@,
            lock_spent: self.lock_spent,
            attacker_focus_spent: self.attacker_focus_spent,
            defender_focus_spent: self.defender_focus_spent,
            evade_spent: self.evade_spent,
            defender_in_bullseye: self.defender_in_bullseye,
            hits: self.hits,
            crits: self.crits,
            shields_lost: self.shields_lost,
            hull_lost: self.hull_lost,
            crits_to_hull: self.crits_to_hull,
            defender_destroyed: self.defender_destroyed,
            reposition: self.reposition,
        }
    }
}

/// One way an attacker may fire this round: a weapon and an eligible
/// target for it.
#[derive(Debug, Clone, Copy, PartialEq, Eq, Structural)]
pub struct AttackOption {
    /// None = primary weapon; Some = an equipped secondary weapon card.
    pub weapon: Option<UpgradeId>,
    pub target: ShipId,
    pub range: u8,
    /// Base-to-base distance (nearest-target policy), nearer is less.
    pub dist: u64,
    /// The range line crosses an obstacle (+1 defense die).
    pub obstructed: bool,
}

/// A declared shot: defender index, range band and weapon. `second` marks
/// the repeat of an "attack twice" weapon (no token cost, card discarded
/// only after it).
#[derive(Debug, Clone, Copy, PartialEq, Eq, Structural)]
pub struct Shot {
    pub d_idx: usize,
    pub range: u8,
    pub weapon: Option<UpgradeId>,
    pub second: bool,
    /// Luke Skywalker (crew): one focus result becomes a hit for free.
    pub focus_hit: bool,
    /// Snap Shot: the attacker may not modify the dice.
    pub no_mods: bool,
}

/// An attack whose owner must Declare Target (core rules p.10): more than
/// one (weapon, enemy) combination is eligible.
#[derive(Debug, Clone, PartialEq, Eq)]
pub struct PendingAttack {
    pub attacker: ShipId,
    pub owner: PlayerId,
    pub options: Vec<AttackOption>,
}

/// A pending attack, with its options as a sequence.
#[verifier::ext_equal]
pub struct PendingModel {
    pub attacker: ShipId,
    pub owner: PlayerId,
    pub options: Seq<AttackOption>,
}

impl View for PendingAttack {
    type V = PendingModel;

    open spec fn view(&self) -> PendingModel {
        PendingModel { attacker: self.attacker, owner: self.owner, options: self.options@ }
    }
}

/// Step-by-step Combat phase bookkeeping (lives in `GameState.combat`).
#[derive(Debug, Clone, PartialEq, Eq)]
pub struct CombatState {
    /// Remaining pilot-skill groups, highest first.
    pub groups: Vec<Vec<ShipId>>,
    /// Attackers still to act in the current group (alive at its start).
    pub current: Vec<ShipId>,
    pub pending: Option<PendingAttack>,
    /// Second shot of an "attack twice" weapon, fired on the next step.
    pub followup: Option<(usize, Shot)>,
    pub attacks: Vec<AttackRecord>,
}

/// The Combat phase bookkeeping, with its lists as sequences.
#[verifier::ext_equal]
pub struct CombatModel {
    pub groups: Seq<Seq<ShipId>>,
    pub current: Seq<ShipId>,
    pub pending: Option<PendingModel>,
    pub followup: Option<(usize, Shot)>,
    pub attacks: Seq<AttackModel>,
}

/// The views of a list's values.
pub open spec fn views<T: View>(s: Seq<T>) -> Seq<T::V> {
    Seq::new(s.len(), |k: int| s[k]@)
}

/// The view of a value that may be missing.
pub open spec fn view_of<T: View>(x: Option<T>) -> Option<T::V> {
    match x {
        Some(v) => Some(v@),
        None => None,
    }
}

impl View for CombatState {
    type V = CombatModel;

    open spec fn view(&self) -> CombatModel {
        CombatModel {
            groups: views(self.groups@),
            current: self.current@,
            pending: view_of(self.pending),
            followup: self.followup,
            attacks: views(self.attacks@),
        }
    }
}

#[derive(Debug, Clone, PartialEq, Eq)]
pub struct GameState {
    pub phase: Phase,
    pub turn: u32,
    pub ships: Vec<ShipState>,
    /// One entry per seat.
    pub committed: Vec<bool>,
    /// The winning side (team index) once the game is over.
    pub winner: Option<u8>,
    /// Holder of the initiative token (see `initiative_seat`): the first
    /// seat of the side that has it.
    pub initiative: PlayerId,
    /// Squad-point totals per seat, for display.
    pub squad_totals: Vec<u32>,
    /// Side (team) of each seat; seats on one side are friendly and win
    /// or lose together. A duel is `[0, 1]`.
    pub teams: Vec<u8>,
    /// Present while the Combat phase is being stepped through.
    pub combat: Option<CombatState>,
    /// Bomb and mine tokens currently on the board.
    pub bombs: Vec<BombToken>,
    pub next_bomb_id: u32,
    /// Asteroid and debris tokens (placed before setup, never move).
    pub obstacles: Vec<Obstacle>,
    /// Leia Organa (crew) was discarded this round: that seat's red
    /// maneuvers are flown as white (one entry per seat).
    pub white_reds: Vec<bool>,
    /// Rulebook mission in play (setup, special rules, objectives).
    pub mission: Option<MissionState>,
    /// Narrated side effects of the round so far: crit draws, Console Fire
    /// burns, Stunned Pilot bumps, destructions from effects.
    pub log: Vec<Event>,
}

/// A game's state, with its lists as sequences.
#[verifier::ext_equal]
pub struct Game {
    pub phase: Phase,
    pub turn: u32,
    pub ships: Seq<ShipModel>,
    pub committed: Seq<bool>,
    pub winner: Option<u8>,
    pub initiative: PlayerId,
    pub squad_totals: Seq<u32>,
    pub teams: Seq<u8>,
    pub combat: Option<CombatModel>,
    pub bombs: Seq<BombToken>,
    pub next_bomb_id: u32,
    pub obstacles: Seq<Obstacle>,
    pub white_reds: Seq<bool>,
    pub mission: Option<MissionModel>,
    pub log: Seq<Event>,
}

impl View for GameState {
    type V = Game;

    open spec fn view(&self) -> Game {
        Game {
            phase: self.phase,
            turn: self.turn,
            ships: views(self.ships@),
            committed: self.committed@,
            winner: self.winner,
            initiative: self.initiative,
            squad_totals: self.squad_totals@,
            teams: self.teams@,
            combat: view_of(self.combat),
            bombs: self.bombs@,
            next_bomb_id: self.next_bomb_id,
            obstacles: self.obstacles@,
            white_reds: self.white_reds@,
            mission: view_of(self.mission),
            log: self.log@,
        }
    }
}

/// What never changes about a ship.
pub struct Identity {
    pub id: ShipId,
    pub owner: PlayerId,
    pub class: ShipClassId,
    pub pilot: PilotId,
}

impl ShipModel {
    pub open spec fn identity(self) -> Identity {
        Identity { id: self.id, owner: self.owner, class: self.class, pilot: self.pilot }
    }
}

/// What stays fixed while an attack or an action is resolved: who flies what,
/// whose turn it is, and how the round stands.
pub struct Frame {
    pub ships: Seq<Identity>,
    pub seats: nat,
    pub phase: Phase,
    pub turn: u32,
    pub committed: Seq<bool>,
    pub winner: Option<u8>,
    pub initiative: PlayerId,
    pub squad_totals: Seq<u32>,
    pub teams: Seq<u8>,
    pub combat: Option<CombatModel>,
    pub mission: Option<MissionModel>,
}

impl Frame {
    /// The pilot that reinforcements fly with has a ship with a dial.
    pub open spec fn reserve_flies(self, content: Content) -> bool {
        self.mission is Some && self.mission->0.reserve is Some && content.flyer(
            self.mission->0.reserve->0,
        ) is Some && content.chassis(content.flyer(self.mission->0.reserve->0)->0.class) is Some
            ==> content.has_dial(content.flyer(self.mission->0.reserve->0)->0.class)
    }

    /// Every ship is of a known class with a dial and sits with a seat, every
    /// seat has its entries, and reinforcements can be flown.
    pub open spec fn known(self, content: Content) -> bool {
        &&& self.seats > 0
        &&& self.committed.len() == self.seats
        &&& self.teams.len() <= self.seats
        &&& self.initiative.0 < self.seats
        &&& self.reserve_flies(content)
        &&& forall|k: int|
            0 <= k < self.ships.len() ==> {
                let s = #[trigger] self.ships[k];
                &&& content.chassis(s.class) is Some
                &&& content.has_dial(s.class)
                &&& s.owner.0 < self.seats
            }
    }
}

impl Game {
    pub open spec fn frame(self) -> Frame {
        Frame {
            ships: Seq::new(self.ships.len(), |k: int| self.ships[k].identity()),
            seats: self.white_reds.len(),
            phase: self.phase,
            turn: self.turn,
            committed: self.committed,
            winner: self.winner,
            initiative: self.initiative,
            squad_totals: self.squad_totals,
            teams: self.teams,
            combat: self.combat,
            mission: self.mission,
        }
    }

    /// Fits the printed content: see [`Frame::known`].
    pub open spec fn known(self, content: Content) -> bool {
        self.frame().known(content)
    }

    pub open spec fn with_ship(self, i: int, ship: ShipModel) -> Game {
        Game { ships: self.ships.update(i, ship), ..self }
    }

    pub open spec fn saying(self, event: Event) -> Game {
        Game { log: self.log.push(event), ..self }
    }

    /// The side (team) of a seat.
    pub open spec fn side(self, player: PlayerId) -> u8 {
        if player.0 < self.teams.len() {
            self.teams[player.0 as int]
        } else {
            (player.0 % 256) as u8
        }
    }

    /// Are two seats on the same side?
    pub open spec fn friends(self, a: PlayerId, b: PlayerId) -> bool {
        self.side(a) == self.side(b)
    }

    /// Are two ships on the same side?
    pub open spec fn same_side(self, i: int, j: int) -> bool {
        self.friends(self.ships[i].owner, self.ships[j].owner)
    }
}

/// A game and the dice it is played with.
#[verifier::ext_equal]
pub struct Play {
    pub game: Game,
    pub dice: Tape,
}

impl Play {
    /// The value that the next roll shows.
    pub open spec fn shows(self) -> u8 {
        self.dice.shows()
    }

    /// After one roll.
    pub open spec fn rolled(self) -> Play {
        Play { dice: self.dice.rolled(), ..self }
    }

    /// With the game changed.
    pub open spec fn at(self, game: Game) -> Play {
        Play { game, ..self }
    }

    pub open spec fn saying(self, event: Event) -> Play {
        Play { game: self.game.saying(event), ..self }
    }
}

/// Replacing a ship by one of the same identity leaves the frame alone.
pub broadcast proof fn frame_of_with_ship(g: Game, i: int, ship: ShipModel)
    requires
        0 <= i < g.ships.len(),
        ship.identity() == g.ships[i].identity(),
    ensures
        #[trigger] g.with_ship(i, ship).frame() == g.frame(),
{
    assert(g.with_ship(i, ship).frame().ships =~= g.frame().ships);
}

/// The frame lists every ship.
pub broadcast proof fn frame_lists_ships(g: Game)
    ensures
        (#[trigger] g.frame()).ships.len() == g.ships.len(),
{
}

pub broadcast group framing {
    frame_of_with_ship,
    frame_lists_ships,
}

impl GameState {
    /// One ship, to be changed in place.
    pub fn ship_mut(&mut self, i: usize) -> (ship: &mut ShipState)
        requires
            i < old(self)@.ships.len(),
        ensures
            ship@ == old(self)@.ships[i as int],
            final(self)@ == old(self)@.with_ship(i as int, final(ship)@),
    {
        &mut self.ships[i]
    }

    /// Narrate.
    pub fn say(&mut self, event: Event)
        ensures
            final(self)@ == old(self)@.saying(event),
            final(self)@.frame() == old(self)@.frame(),
    {
        self.log.push(event);
    }

    /// The side (team) of a seat.
    pub fn team(&self, player: PlayerId) -> (side: u8)
        ensures
            side == self@.side(player),
    {
        if (player.0 as usize) < self.teams.len() {
            self.teams[player.0 as usize]
        } else {
            (player.0 % 256) as u8
        }
    }

    /// Are two seats on the same side (a seat is allied with itself)?
    pub fn allied(&self, a: PlayerId, b: PlayerId) -> (yes: bool)
        ensures
            yes == self@.friends(a, b),
    {
        self.team(a) == self.team(b)
    }
}

} // verus!
