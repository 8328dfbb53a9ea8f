//! Ships: the printed chassis and one ship's state in play.

use vstd::prelude::*;

use crate::action::{ActionKind, PlannedAction};
use crate::crit::CritEffect;
use crate::geometry::Pose;
use crate::maneuver::ManeuverSetId;
use crate::pilot::PilotId;
use crate::upgrade::{Slot, UpgradeId};

verus! {

#[derive(Debug, Clone, Copy, PartialEq, Eq, Hash, Structural)]
pub struct ShipId(pub u32);

/// A seat at the table, numbered from 0.
#[derive(Debug, Clone, Copy, PartialEq, Eq, Hash, Structural)]
pub struct PlayerId(pub u32);

#[derive(Debug, Clone, Copy, PartialEq, Eq, Hash, Structural)]
pub struct ShipClassId(pub u32);

#[derive(Debug, Clone, Copy, PartialEq, Eq, Structural)]
pub enum Faction {
    RebelAlliance,
    Empire,
    Scum,
}

/// The four printed numbers of a ship.
#[derive(Debug, Clone, Copy, PartialEq, Eq, Structural)]
pub struct StatBlock {
    pub attack: u8,
    pub agility: u8,
    pub hull: u8,
    pub shields: u8,
}

/// A chassis.
#[derive(Debug, Clone)]
pub struct ShipClass {
    pub id: ShipClassId,
    pub name: String,
    pub xws: String,
    pub faction: Faction,
    pub hull: u8,
    pub shields: u8,
    pub attack_dice: u8,
    pub agility: u8,
    pub maneuver_set: ManeuverSetId,
    pub action_bar: Vec<ActionKind>,
    pub upgrade_bar: Vec<Slot>,
    /// The primary weapon fires all around.
    pub turret_primary: bool,
}

impl ShipClass {
    /// The chassis values.
    pub open spec fn block(self) -> StatBlock {
        StatBlock {
            attack: self.attack_dice,
            agility: self.agility,
            hull: self.hull,
            shields: self.shields,
        }
    }

    pub fn stats(&self) -> (stats: StatBlock)
        ensures
            stats == self.block(),
    {
        StatBlock {
            attack: self.attack_dice,
            agility: self.agility,
            hull: self.hull,
            shields: self.shields,
        }
    }
}

/// One ship in play.
#[derive(Debug, Clone, PartialEq, Eq)]
pub struct ShipState {
    pub id: ShipId,
    pub owner: PlayerId,
    pub class: ShipClassId,
    pub pilot: PilotId,
    /// What the narration calls it; unique in a game.
    pub callsign: String,
    /// None while it is not on the board.
    pub pose: Option<Pose>,
    pub hull: u8,
    pub shields: u8,
    pub stress: u8,
    pub focus: u8,
    pub evade: u8,
    /// Ion tokens: the next maneuver is a forced white straight 1.
    pub ion: u8,
    pub lock: Option<ShipId>,
    /// Weapons Engineer: the second target lock.
    pub lock2: Option<ShipId>,
    /// Faceup critical damage.
    pub crits: Vec<CritEffect>,
    pub destroyed: bool,
    /// Left the board alive under a mission rule.
    pub escaped: bool,
    /// Satellite tokens carried.
    pub satellites: u8,
    /// Cards switched on for this round.
    pub card_uses: Vec<UpgradeId>,
    /// Ended its move on an asteroid: no attack this round.
    pub on_asteroid: bool,
    /// The dialed maneuver.
    pub plan: Option<u8>,
    pub planned_action: Option<PlannedAction>,
    pub planned_action2: Option<PlannedAction>,
    /// The bomb card chosen to drop on dial reveal.
    pub bomb: Option<UpgradeId>,
    pub upgrades: Vec<UpgradeId>,
    /// Ordnance tokens, one entry per card that holds one.
    pub ordnance: Vec<UpgradeId>,
    /// Once-per-round cards already used.
    pub used_round: Vec<UpgradeId>,
    /// Card actions in force this round.
    pub card_actions: Vec<UpgradeId>,
    /// Lost a shield this round.
    pub shield_lost_round: bool,
    /// Focus tokens stored on a card.
    pub stored_focus: u8,
    /// Tractor beam tokens: agility is that much lower this round.
    pub tractor: u8,
    /// Stays in play without hull until the Combat phase ends.
    pub lingers: bool,
    /// Is set up after every other ship.
    pub late_setup: bool,
    /// Has fired its Snap Shot this round.
    pub snap_shot_fired: bool,
    /// Damaged Cockpit cards dealt this round: they count from the next
    /// round on.
    pub fresh_cockpits: u32,
}

/// A ship's state, with its lists as sequences.
#[verifier::ext_equal]
pub struct ShipModel {
    pub id: ShipId,
    pub owner: PlayerId,
    pub class: ShipClassId,
    pub pilot: PilotId,
    pub callsign: Seq<char>,
    pub pose: Option<Pose>,
    pub hull: u8,
    pub shields: u8,
    pub stress: u8,
    pub focus: u8,
    pub evade: u8,
    pub ion: u8,
    pub lock: Option<ShipId>,
    pub lock2: Option<ShipId>,
    pub crits: Seq<CritEffect>,
    pub destroyed: bool,
    pub escaped: bool,
    pub satellites: u8,
    pub card_uses: Seq<UpgradeId>,
    pub on_asteroid: bool,
    pub plan: Option<u8>,
    pub planned_action: Option<PlannedAction>,
    pub planned_action2: Option<PlannedAction>,
    pub bomb: Option<UpgradeId>,
    pub upgrades: Seq<UpgradeId>,
    pub ordnance: Seq<UpgradeId>,
    pub used_round: Seq<UpgradeId>,
    pub card_actions: Seq<UpgradeId>,
    pub shield_lost_round: bool,
    pub stored_focus: u8,
    pub tractor: u8,
    pub lingers: bool,
    pub late_setup: bool,
    pub snap_shot_fired: bool,
    pub fresh_cockpits: u32,
}

impl View for ShipState {
    type V = ShipModel;

    open spec fn view(&self) -> ShipModel {
        ShipModel {
            id: self.id,
            owner: self.owner,
            class: self.class,
            pilot: self.pilot,
            callsign: self.callsign@,
            pose: self.pose,
            hull: self.hull,
            shields: self.shields,
            stress: self.stress,
            focus: self.focus,
            evade: self.evade,
            ion: self.ion,
            lock: self.lock,
            lock2: self.lock2,
            crits: self.crits@,
            destroyed: self.destroyed,
            escaped: self.escaped,
            satellites: self.satellites,
            card_uses: self.card_uses@,
            on_asteroid: self.on_asteroid,
            plan: self.plan,
            planned_action: self.planned_action,
            planned_action2: self.planned_action2,
            bomb: self.bomb,
            upgrades: self.upgrades@,
            ordnance: self.ordnance@,
            used_round: self.used_round@,
            card_actions: self.card_actions@,
            shield_lost_round: self.shield_lost_round,
            stored_focus: self.stored_focus,
            tractor: self.tractor,
            lingers: self.lingers,
            late_setup: self.late_setup,
            snap_shot_fired: self.snap_shot_fired,
            fresh_cockpits: self.fresh_cockpits,
        }
    }
}

/// One more or a few more, as far as a counter goes.
pub open spec fn sat(n: int) -> u8 {
    if n > 255 {
        255
    } else {
        n as u8
    }
}

/// One less, as far as there is one.
pub open spec fn down(n: u8) -> u8 {
    if n > 0 {
        (n - 1) as u8
    } else {
        0
    }
}

impl ShipModel {
    /// A ship as it leaves the box.
    pub open spec fn fresh(
        id: ShipId,
        owner: PlayerId,
        class: ShipClassId,
        pilot: PilotId,
        callsign: Seq<char>,
        hull: u8,
        shields: u8,
    ) -> ShipModel {
        ShipModel {
            id,
            owner,
            class,
            pilot,
            callsign,
            pose: None,
            hull,
            shields,
            stress: 0,
            focus: 0,
            evade: 0,
            ion: 0,
            lock: None,
            lock2: None,
            crits: Seq::empty(),
            destroyed: false,
            escaped: false,
            satellites: 0,
            card_uses: Seq::empty(),
            on_asteroid: false,
            plan: None,
            planned_action: None,
            planned_action2: None,
            bomb: None,
            upgrades: Seq::empty(),
            ordnance: Seq::empty(),
            used_round: Seq::empty(),
            card_actions: Seq::empty(),
            shield_lost_round: false,
            stored_focus: 0,
            tractor: 0,
            lingers: false,
            late_setup: false,
            snap_shot_fired: false,
            fresh_cockpits: 0,
        }
    }

    /// Holds a target lock on the ship.
    pub open spec fn locks(self, target: ShipId) -> bool {
        self.lock == Some(target) || self.lock2 == Some(target)
    }

    /// Has room for a new lock; `two` with Weapons Engineer.
    pub open spec fn can_lock(self, two: bool) -> bool {
        self.lock is None || (two && self.lock2 is None)
    }

    /// With a lock taken on the target. A ship that may hold two keeps the
    /// lock it has; otherwise the new lock replaces what was held.
    pub open spec fn locking(self, target: ShipId, two: bool) -> ShipModel {
        if !two {
            ShipModel { lock: Some(target), lock2: None, ..self }
        } else if self.locks(target) {
            self
        } else if self.lock is None {
            ShipModel { lock: Some(target), ..self }
        } else {
            ShipModel { lock2: Some(target), ..self }
        }
    }

    /// With its lock on the target gone; a lock that remains moves into the
    /// first place.
    pub open spec fn unlocking(self, target: ShipId) -> ShipModel {
        let second = if self.lock2 == Some(target) {
            None
        } else {
            self.lock2
        };
        if self.lock == Some(target) || self.lock is None {
            ShipModel { lock: second, lock2: None, ..self }
        } else {
            ShipModel { lock2: second, ..self }
        }
    }

    pub open spec fn with_stress(self) -> ShipModel {
        ShipModel { stress: sat(self.stress + 1), ..self }
    }

    pub open spec fn with_focus(self) -> ShipModel {
        ShipModel { focus: sat(self.focus + 1), ..self }
    }

    pub open spec fn with_evade(self) -> ShipModel {
        ShipModel { evade: sat(self.evade + 1), ..self }
    }

    pub open spec fn with_ion(self, n: u8) -> ShipModel {
        ShipModel { ion: sat(self.ion + n), ..self }
    }

    pub open spec fn less_stress(self) -> ShipModel {
        ShipModel { stress: down(self.stress), ..self }
    }

    pub open spec fn less_focus(self) -> ShipModel {
        ShipModel { focus: down(self.focus), ..self }
    }

    pub open spec fn less_evade(self) -> ShipModel {
        ShipModel { evade: down(self.evade), ..self }
    }

    pub open spec fn less_shield(self) -> ShipModel {
        ShipModel { shields: down(self.shields), ..self }
    }

    /// One point of damage past the shields. A ship without hull is
    /// destroyed, unless it lingers.
    pub open spec fn hull_hit(self) -> ShipModel {
        if self.hull > 0 {
            ShipModel {
                hull: (self.hull - 1) as u8,
                destroyed: self.destroyed || (self.hull == 1 && !self.lingers),
                ..self
            }
        } else {
            self
        }
    }

    /// One point of damage: shields absorb first, then hull.
    pub open spec fn hit(self) -> ShipModel {
        if self.shields > 0 {
            self.less_shield()
        } else {
            self.hull_hit()
        }
    }

    /// With a crit attached. A Damaged Cockpit is counted as dealt this round.
    pub open spec fn with_crit(self, effect: CritEffect) -> ShipModel {
        ShipModel {
            crits: self.crits.push(effect),
            fresh_cockpits: if effect == CritEffect::DamagedCockpit && self.fresh_cockpits
                < u32::MAX {
                (self.fresh_cockpits + 1) as u32
            } else {
                self.fresh_cockpits
            },
            ..self
        }
    }

    /// Without the card, however often it is carried.
    pub open spec fn without(self, card: UpgradeId) -> ShipModel {
        ShipModel { upgrades: dropped(self.upgrades, card), ..self }
    }
}

/// A list of cards with every copy of one taken out, order kept.
pub open spec fn dropped(cards: Seq<UpgradeId>, card: UpgradeId) -> Seq<UpgradeId>
    decreases cards.len(),
{
    if cards.len() == 0 {
        cards
    } else {
        let rest = dropped(cards.drop_last(), card);
        if cards.last() == card {
            rest
        } else {
            rest.push(cards.last())
        }
    }
}

/// Does the list hold the card?
pub fn has_card(cards: &Vec<UpgradeId>, card: UpgradeId) -> (found: bool)
    ensures
        found == cards@.contains(card),
{
    let mut i: usize = 0;
    while i < cards.len()
        invariant
            i <= cards.len(),
            forall|k: int| 0 <= k < i ==> cards@[k] != card,
        decreases cards.len() - i,
    {
        if cards[i] == card {
            assert(cards@[i as int] == card);
            return true;
        }
        i = i + 1;
    }
    false
}

/// The same cards in a list of its own.
pub fn copy_cards(cards: &Vec<UpgradeId>) -> (copy: Vec<UpgradeId>)
    ensures
        copy@ == cards@,
{
    let mut copy: Vec<UpgradeId> = Vec::new();
    let mut i: usize = 0;
    while i < cards.len()
        invariant
            i <= cards.len(),
            copy@ == cards@.take(i as int),
        decreases cards.len() - i,
    {
        copy.push(cards[i]);
        i = i + 1;
        assert(cards@.take(i as int) =~= cards@.take(i - 1).push(cards@[i - 1]));
    }
    assert(cards@.take(i as int) =~= cards@);
    copy
}

/// Take every copy of a card out of the list.
pub fn drop_card(cards: &mut Vec<UpgradeId>, card: UpgradeId)
    ensures
        final(cards)@ == dropped(old(cards)@, card),
{
    let mut kept: Vec<UpgradeId> = Vec::new();
    let mut i: usize = 0;
    while i < cards.len()
        invariant
            i <= cards.len(),
            kept@ == dropped(cards@.take(i as int), card),
        decreases cards.len() - i,
    {
        proof {
            assert(cards@.take(i + 1).drop_last() =~= cards@.take(i as int));
        }
        if cards[i] != card {
            kept.push(cards[i]);
        }
        i = i + 1;
    }
    assert(cards@.take(i as int) =~= cards@);
    *cards = kept;
}

impl ShipState {
    pub fn new(
        id: ShipId,
        owner: PlayerId,
        class: ShipClassId,
        pilot: PilotId,
        callsign: String,
        hull: u8,
        shields: u8,
    ) -> (ship: ShipState)
        ensures
            ship@ == ShipModel::fresh(id, owner, class, pilot, callsign@, hull, shields),
    {
        ShipState {
            id,
            owner,
            class,
            pilot,
            callsign,
            pose: None,
            hull,
            shields,
            stress: 0,
            focus: 0,
            evade: 0,
            ion: 0,
            lock: None,
            lock2: None,
            crits: Vec::new(),
            destroyed: false,
            escaped: false,
            satellites: 0,
            card_uses: Vec::new(),
            on_asteroid: false,
            plan: None,
            planned_action: None,
            planned_action2: None,
            bomb: None,
            upgrades: Vec::new(),
            ordnance: Vec::new(),
            used_round: Vec::new(),
            card_actions: Vec::new(),
            shield_lost_round: false,
            stored_focus: 0,
            tractor: 0,
            lingers: false,
            late_setup: false,
            snap_shot_fired: false,
            fresh_cockpits: 0,
        }
    }

    pub fn locks_on(&self, target: ShipId) -> (held: bool)
        ensures
            held == self@.locks(target),
    {
        self.lock == Some(target) || self.lock2 == Some(target)
    }

    /// May a new lock be taken without giving one up?
    pub fn lock_free(&self, two: bool) -> (free: bool)
        ensures
            free == self@.can_lock(two),
    {
        self.lock.is_none() || (two && self.lock2.is_none())
    }

    pub fn take_lock(&mut self, target: ShipId, two: bool)
        ensures
            final(self)@ == old(self)@.locking(target, two),
    {
        if !two {
            self.lock = Some(target);
            self.lock2 = None;
        } else if !self.locks_on(target) {
            if self.lock.is_none() {
                self.lock = Some(target);
            } else {
                self.lock2 = Some(target);
            }
        }
    }

    pub fn drop_lock(&mut self, target: ShipId)
        ensures
            final(self)@ == old(self)@.unlocking(target),
    {
        if self.lock2 == Some(target) {
            self.lock2 = None;
        }
        if self.lock == Some(target) || self.lock.is_none() {
            self.lock = self.lock2;
            self.lock2 = None;
        }
    }
}

/// A lock just taken is held; without Weapons Engineer it is the only one.
pub proof fn a_new_lock_is_held(ship: ShipModel, target: ShipId, two: bool)
    ensures
        ship.locking(target, two).locks(target),
        !two ==> forall|other: ShipId|
            ship.locking(target, two).locks(other) ==> other == target,
        two && ship.can_lock(two) ==> forall|other: ShipId|
            ship.locks(other) ==> ship.locking(target, two).locks(other),
{
}

/// Dropping a lock drops that lock and no other.
pub proof fn dropping_a_lock_keeps_the_other(ship: ShipModel, target: ShipId, other: ShipId)
    ensures
        !ship.unlocking(target).locks(target),
        other != target ==> ship.unlocking(target).locks(other) == ship.locks(other),
        ship.locks(target) || ship.lock is None ==> ship.unlocking(target).lock2 is None,
{
}

/// A point of damage takes one shield, or one hull once the shields are
/// gone, and never both.
pub proof fn a_hit_costs_one_point(ship: ShipModel)
    ensures
        ship.shields + ship.hull > 0 ==> ship.hit().shields + ship.hit().hull == ship.shields
            + ship.hull - 1,
        ship.shields + ship.hull == 0 ==> ship.hit() == ship,
        ship.shields > 0 ==> ship.hit().hull == ship.hull && ship.hit().destroyed
            == ship.destroyed,
        ship.destroyed ==> ship.hit().destroyed,
        ship.hit().destroyed && !ship.destroyed ==> ship.hit().hull == 0 && !ship.lingers,
{
}

} // verus!
