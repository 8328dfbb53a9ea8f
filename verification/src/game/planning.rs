//! The commands of the Planning phase.

#![verifier::loop_isolation(false)]

use vstd::prelude::*;

use crate::action::{ActionKind, BoostDir, PlannedAction, SecondActionKind};
use crate::data::Content;
use crate::game::blasts::find_obstacle;
use crate::game::cards::{has_icon, toggles};
use crate::game::rejection::Rejection;
use crate::game::state::{Game, GameState, Phase};
use crate::maneuver::{Difficulty, Maneuver};
use crate::mission::{MissionKind, REPAIR_ROUND};
use crate::pick::{find, first, obeys};
use crate::pilot::PilotAbility;
use crate::ship::{drop_card, dropped, has_card, PlayerId, ShipId, ShipModel};
use crate::sight::Sight;
use crate::upgrade::UpgradeId;

verus! {

broadcast use crate::game::state::framing;

/// A turn template.
pub open spec fn turning(dir: BoostDir) -> bool {
    dir == BoostDir::TurnLeft || dir == BoostDir::TurnRight
}

/// A boost or a barrel roll.
pub open spec fn repositions(a: PlannedAction) -> bool {
    a is Boost || rolls(a)
}

/// A barrel roll.
pub open spec fn rolls(a: PlannedAction) -> bool {
    a is BarrelRoll || a is BarrelRollFar || a is BarrelRollBank
}

impl Game {
    /// Why a command of a player for a ship is refused, whatever it asks.
    pub open spec fn order_refused(self, player: PlayerId, id: ShipId) -> Option<Rejection> {
        if self.phase != Phase::Planning {
            Some(Rejection::WrongPhase)
        } else if self.committed[player.0 as int] {
            Some(Rejection::AlreadyCommitted)
        } else {
            match self.index(id) {
                None => Some(Rejection::NoSuchShip),
                Some(i) => if self.ships[i as int].owner != player {
                    Some(Rejection::NotYourShip)
                } else if self.ships[i as int].destroyed {
                    Some(Rejection::ShipDestroyed)
                } else {
                    None
                },
            }
        }
    }

    /// Asteroid Run: the disabled ship flies only speed 1-2 until it is
    /// repaired.
    pub open spec fn limping(self, id: ShipId) -> bool {
        self.turn < REPAIR_ROUND && self.mission is Some && self.mission->0.disabled == Some(id)
    }

    /// Why a maneuver cannot be dialed.
    pub open spec fn maneuver_refused(
        self,
        content: Content,
        player: PlayerId,
        id: ShipId,
        index: u8,
    ) -> Option<Rejection> {
        match self.order_refused(player, id) {
            Some(r) => Some(r),
            None => {
                let i = self.index(id)->0 as int;
                let dial = content.dial(self.ships[i].class);
                if index >= dial.len() {
                    Some(Rejection::BadManeuverIndex)
                } else if self.limping(id) && dial[index as int].distance > 2 {
                    Some(Rejection::ShipDisabled)
                } else if self.ships[i].stress > 0 && self.difficulty(
                    content,
                    i,
                    dial[index as int],
                ).0 == Difficulty::Hard {
                    Some(Rejection::StressedRedForbidden)
                } else {
                    None
                }
            },
        }
    }

    /// Why a lock on the ship cannot be planned.
    pub open spec fn lock_refused(self, player: PlayerId, planned: PlannedAction) -> Option<
        Rejection,
    > {
        match planned {
            PlannedAction::TargetLock(target) => match self.index(target) {
                None => Some(Rejection::NoSuchShip),
                Some(t) => if self.friends(self.ships[t as int].owner, player)
                    || self.ships[t as int].destroyed {
                    Some(Rejection::BadLockTarget)
                } else {
                    None
                },
            },
            _ => None,
        }
    }

    /// Card-bound checks shared by both action slots: mine cards, card
    /// actions, and the "Blue Ace" / "Zeta Ace" templates.
    pub open spec fn extras_refused(
        self,
        content: Content,
        sight: Sight,
        i: int,
        planned: PlannedAction,
    ) -> Option<Rejection> {
        let extras = self.extras(content, sight, i);
        match planned {
            PlannedAction::DropMine(card) => match self.bomb(content, i, card) {
                Some(kind) => if kind.mine() {
                    None
                } else {
                    Some(Rejection::NoSuchUpgrade)
                },
                None => Some(Rejection::NoSuchUpgrade),
            },
            PlannedAction::CardAction(card) => if extras.card_actions.contains(card) {
                None
            } else {
                Some(Rejection::NoSuchUpgrade)
            },
            PlannedAction::CardActionAt(card, obstacle) => if !extras.card_actions.contains(card) {
                Some(Rejection::NoSuchUpgrade)
            } else if find_obstacle(self.obstacles, obstacle) is None {
                Some(Rejection::NoSuchObstacle)
            } else {
                None
            },
            PlannedAction::Boost(dir) => if turning(dir) && !extras.turn_boost
                && !extras.daredevil {
                Some(Rejection::TemplateNotAllowed)
            } else {
                None
            },
            PlannedAction::BarrelRollFar(_) => if extras.far_roll {
                None
            } else {
                Some(Rejection::TemplateNotAllowed)
            },
            PlannedAction::BarrelRollBank(_, _) => if extras.bank_roll {
                None
            } else {
                Some(Rejection::TemplateNotAllowed)
            },
            _ => None,
        }
    }

    /// The icon that an action needs is on the bar of ship `i`.
    pub open spec fn on_bar(self, content: Content, i: int, planned: PlannedAction) -> bool {
        planned.needs() is None || self.ships[i].bar(content).contains(planned.needs()->0)
    }

    /// The action can be planned without its icon: a roll with Expert
    /// Handling, a turn with Daredevil.
    pub open spec fn needs_no_icon(
        self,
        content: Content,
        sight: Sight,
        i: int,
        planned: PlannedAction,
    ) -> bool {
        let extras = self.extras(content, sight, i);
        (planned.needs() == Some(ActionKind::BarrelRoll) && extras.expert_roll) || (extras.daredevil
            && planned is Boost && turning(planned->Boost_0))
    }

    /// Political Escort: the Rebels may protect the shuttle; it cannot
    /// protect itself.
    pub open spec fn may_protect(self, player: PlayerId, id: ShipId) -> bool {
        self.mission is Some && self.mission->0.kind == MissionKind::PoliticalEscort && self.side(
            player,
        ) == self.mission->0.rebel_side && self.mission->0.shuttle != Some(id)
    }

    /// Why an action cannot be planned.
    pub open spec fn action_refused(
        self,
        content: Content,
        sight: Sight,
        player: PlayerId,
        id: ShipId,
        planned: PlannedAction,
    ) -> Option<Rejection> {
        match self.order_refused(player, id) {
            Some(r) => Some(r),
            None => {
                let i = self.index(id)->0 as int;
                if !self.on_bar(content, i, planned) && !self.needs_no_icon(
                    content,
                    sight,
                    i,
                    planned,
                ) {
                    Some(Rejection::ActionNotOnBar)
                } else if self.lock_refused(player, planned) is Some {
                    self.lock_refused(player, planned)
                } else if planned == PlannedAction::Protect && !self.may_protect(player, id) {
                    Some(Rejection::NotInThisMission)
                } else {
                    self.extras_refused(content, sight, i, planned)
                }
            },
        }
    }

    /// What a second action may be, by what grants it.
    pub open spec fn second_allowed(
        self,
        content: Content,
        i: int,
        kind: SecondActionKind,
        planned: PlannedAction,
    ) -> bool {
        match kind {
            SecondActionKind::FreeBarAction => planned.needs() is Some && self.on_bar(
                content,
                i,
                planned,
            ),
            SecondActionKind::TwoActions => planned != PlannedAction::Pass,
            SecondActionKind::CardActionThenStress => planned is CardAction
                || planned is CardActionAt,
            SecondActionKind::BoostAfterMove => planned is Boost,
            SecondActionKind::RepositionAfterFocus
            | SecondActionKind::RepositionAfterAttack => repositions(planned),
            SecondActionKind::RollOnGreenReveal => rolls(planned),
        }
    }

    /// Why a second action cannot be planned. Granted repositions (BB-8,
    /// Snap, Jake Farrell) need no icon on the bar.
    pub open spec fn second_refused(
        self,
        content: Content,
        sight: Sight,
        player: PlayerId,
        id: ShipId,
        planned: Option<PlannedAction>,
    ) -> Option<Rejection> {
        match self.order_refused(player, id) {
            Some(r) => Some(r),
            None => match planned {
                None => None,
                Some(a) => {
                    let i = self.index(id)->0 as int;
                    match self.extras(content, sight, i).second {
                        None => Some(Rejection::SecondActionNotAllowed),
                        Some(kind) => if !self.second_allowed(content, i, kind, a) {
                            Some(Rejection::SecondActionNotAllowed)
                        } else if (kind == SecondActionKind::FreeBarAction || kind
                            == SecondActionKind::TwoActions) && !self.on_bar(content, i, a) {
                            Some(Rejection::ActionNotOnBar)
                        } else if self.lock_refused(player, a) is Some {
                            self.lock_refused(player, a)
                        } else {
                            self.extras_refused(content, sight, i, a)
                        },
                    }
                },
            },
        }
    }

    /// Why a card cannot be switched on or off.
    pub open spec fn card_refused(
        self,
        content: Content,
        player: PlayerId,
        id: ShipId,
        card: UpgradeId,
    ) -> Option<Rejection> {
        match self.order_refused(player, id) {
            Some(r) => Some(r),
            None => if toggles(
                content,
                self.ships[self.index(id)->0 as int].active(content),
            ).contains(card) {
                None
            } else {
                Some(Rejection::NoSuchUpgrade)
            },
        }
    }

    /// Why a bomb cannot be chosen. Only dial-reveal bombs qualify; Deathfire
    /// drops mines on the reveal too.
    pub open spec fn bomb_refused(
        self,
        content: Content,
        player: PlayerId,
        id: ShipId,
        bomb: Option<UpgradeId>,
    ) -> Option<Rejection> {
        match self.order_refused(player, id) {
            Some(r) => Some(r),
            None => match bomb {
                None => None,
                Some(card) => {
                    let i = self.index(id)->0 as int;
                    match self.bomb(content, i, card) {
                        Some(kind) => if !kind.mine() || self.can(
                            content,
                            i,
                            PilotAbility::FreeBombActionOnRevealOrAction,
                        ) {
                            None
                        } else {
                            Some(Rejection::NoSuchUpgrade)
                        },
                        None => Some(Rejection::NoSuchUpgrade),
                    }
                },
            },
        }
    }

    pub open spec fn undialed_rule(self, player: PlayerId) -> spec_fn(int) -> bool {
        |k: int|
            self.ships[k].owner == player && !self.ships[k].destroyed && self.ships[k].plan is None
    }

    /// Why plans cannot be committed.
    pub open spec fn commit_refused(self, player: PlayerId) -> Option<Rejection> {
        if self.phase != Phase::Planning {
            Some(Rejection::WrongPhase)
        } else if self.committed[player.0 as int] {
            Some(Rejection::AlreadyCommitted)
        } else if first(self.undialed_rule(player), 0, self.ships.len() as int) is Some {
            Some(Rejection::PlansIncomplete)
        } else {
            None
        }
    }

    /// Every seat has committed.
    pub open spec fn all_committed(self) -> bool {
        forall|k: int| 0 <= k < self.committed.len() ==> #[trigger] self.committed[k]
    }
}

/// A refused plan changes nothing; an accepted one changes the planning ship
/// and no other.
pub proof fn plans_touch_their_own_ship_only(g: Game, i: int, ship: ShipModel, k: int)
    requires
        0 <= i < g.ships.len(),
        0 <= k < g.ships.len(),
        k != i,
    ensures
        g.with_ship(i, ship).ships[k] == g.ships[k],
        g.with_ship(i, ship).ships.len() == g.ships.len(),
        g.with_ship(i, ship).log == g.log,
        g.with_ship(i, ship).committed == g.committed,
{
}

/// Switching a card off undoes switching it on, and a card that is switched
/// off is not in use.
pub proof fn switching_off_undoes_switching_on(uses: Seq<UpgradeId>, card: UpgradeId)
    ensures
        dropped(dropped(uses, card).push(card), card) == dropped(uses, card),
        !dropped(uses, card).contains(card),
{
    let off = dropped(uses, card);
    dropped_is_gone(uses, card);
    dropping_twice(uses, card);
    assert(off.push(card).drop_last() =~= off);
}

proof fn dropped_is_gone(uses: Seq<UpgradeId>, card: UpgradeId)
    ensures
        !dropped(uses, card).contains(card),
    decreases uses.len(),
{
    if uses.len() > 0 {
        dropped_is_gone(uses.drop_last(), card);
        let rest = dropped(uses.drop_last(), card);
        if uses.last() != card {
            assert forall|k: int| 0 <= k < rest.push(uses.last()).len() implies rest.push(
                uses.last(),
            )[k] != card by {
                if k < rest.len() {
                    assert(rest.contains(rest[k]));
                }
            }
        }
    }
}

proof fn dropping_twice(uses: Seq<UpgradeId>, card: UpgradeId)
    ensures
        dropped(dropped(uses, card), card) == dropped(uses, card),
    decreases uses.len(),
{
    if uses.len() > 0 {
        dropping_twice(uses.drop_last(), card);
        let rest = dropped(uses.drop_last(), card);
        if uses.last() != card {
            assert(rest.push(uses.last()).drop_last() =~= rest);
        }
    }
}

impl GameState {
    fn check_order(&self, player: PlayerId, id: ShipId) -> (checked: Result<usize, Rejection>)
        requires
            player.0 < self@.committed.len(),
        ensures
            checked is Err <==> self@.order_refused(player, id) is Some,
            checked is Err ==> Some(checked->Err_0) == self@.order_refused(player, id),
            checked is Ok ==> self@.index(id) == Some(checked->Ok_0) && checked->Ok_0
                < self@.ships.len() && self@.ships[checked->Ok_0 as int].owner == player,
    {
        if self.phase != Phase::Planning {
            return Err(Rejection::WrongPhase);
        }
        if self.committed[player.0 as usize] {
            return Err(Rejection::AlreadyCommitted);
        }
        match self.find_ship(id) {
            None => Err(Rejection::NoSuchShip),
            Some(i) => {
                if self.ships[i].owner != player {
                    Err(Rejection::NotYourShip)
                } else if self.ships[i].destroyed {
                    Err(Rejection::ShipDestroyed)
                } else {
                    Ok(i)
                }
            },
        }
    }

    /// The maneuver at a place on the dial of ship `i`.
    pub fn dialed(&self, content: &Content, i: usize, index: u8) -> (m: Option<Maneuver>)
        requires
            i < self@.ships.len(),
            self@.known(*content),
        ensures
            m == (if index < content.dial(self@.ships[i as int].class).len() {
                Some(content.dial(self@.ships[i as int].class)[index as int])
            } else {
                None
            }),
    {
        assert(self@.frame().ships[i as int] == self@.ships[i as int].identity());
        let class = self.class_of(content, &self.ships[i]);
        match content.dials.set(class.maneuver_set) {
            None => None,
            Some(set) => {
                if (index as usize) < set.maneuvers.len() {
                    Some(set.maneuvers[index as usize])
                } else {
                    None
                }
            },
        }
    }

    /// Secretly assign a dial maneuver to one of the player's ships.
    pub fn plan_maneuver(
        &mut self,
        content: &Content,
        player: PlayerId,
        ship_id: ShipId,
        index: u8,
    ) -> (result: Result<(), Rejection>)
        requires
            player.0 < old(self)@.committed.len(),
            old(self)@.known(*content),
        ensures
            match old(self)@.maneuver_refused(*content, player, ship_id, index) {
                Some(r) => result == Err::<(), Rejection>(r) && final(self)@ == old(self)@,
                None => {
                    let i = old(self)@.index(ship_id)->0 as int;
                    result is Ok && final(self)@ == old(self)@.with_ship(
                        i,
                        ShipModel { plan: Some(index), ..old(self)@.ships[i] },
                    )
                },
            },
            final(self)@.known(*content),
            old(self)@.plans_fit(*content) ==> final(self)@.plans_fit(*content),
    {
        let i: usize = match self.check_order(player, ship_id) {
            Err(r) => return Err(r),
            Ok(i) => i,
        };
        let man = match self.dialed(content, i, index) {
            None => return Err(Rejection::BadManeuverIndex),
            Some(man) => man,
        };
        let disabled = match &self.mission {
            Some(m) => m.disabled == Some(ship_id),
            None => false,
        };
        if self.turn < REPAIR_ROUND && disabled && man.distance > 2 {
            return Err(Rejection::ShipDisabled);
        }
        // Crits can make normally-white maneuvers red (Damaged Engine /
        // Thrust Control Fire) — the stress rule uses the effective color.
        let flown = self.maneuver_difficulty(content, i, &man);
        if self.ships[i].stress > 0 && flown.0 == Difficulty::Hard {
            return Err(Rejection::StressedRedForbidden);
        }
        self.ship_mut(i).plan = Some(index);
        Ok(())
    }

    fn check_lock(&self, player: PlayerId, planned: PlannedAction) -> (checked: Result<
        (),
        Rejection,
    >)
        ensures
            checked is Err <==> self@.lock_refused(player, planned) is Some,
            checked is Err ==> Some(checked->Err_0) == self@.lock_refused(player, planned),
    {
        if let PlannedAction::TargetLock(target) = planned {
            match self.find_ship(target) {
                None => return Err(Rejection::NoSuchShip),
                Some(t) => {
                    if self.allied(self.ships[t].owner, player) || self.ships[t].destroyed {
                        return Err(Rejection::BadLockTarget);
                    }
                },
            }
        }
        Ok(())
    }

    /// Card-bound checks shared by both action slots: mine cards, card
    /// actions, and the "Blue Ace" / "Zeta Ace" templates.
    pub fn check_action_extras(
        &self,
        content: &Content,
        sight: &Sight,
        i: usize,
        planned: PlannedAction,
    ) -> (checked: Result<(), Rejection>)
        requires
            i < self@.ships.len(),
        ensures
            checked is Err <==> self@.extras_refused(*content, *sight, i as int, planned) is Some,
            checked is Err ==> Some(checked->Err_0) == self@.extras_refused(
                *content,
                *sight,
                i as int,
                planned,
            ),
    {
        let extras = self.action_extras(content, sight, i);
        let ghost model = self@.extras(*content, *sight, i as int);
        assert(extras@ == model);
        match planned {
            PlannedAction::DropMine(card) => {
                match self.bomb_kind(content, i, card) {
                    Some(kind) => {
                        if kind.is_mine() {
                            Ok(())
                        } else {
                            Err(Rejection::NoSuchUpgrade)
                        }
                    },
                    None => Err(Rejection::NoSuchUpgrade),
                }
            },
            PlannedAction::CardAction(card) => {
                if has_card(&extras.card_actions, card) {
                    Ok(())
                } else {
                    Err(Rejection::NoSuchUpgrade)
                }
            },
            PlannedAction::CardActionAt(card, obstacle) => {
                if !has_card(&extras.card_actions, card) {
                    Err(Rejection::NoSuchUpgrade)
                } else if self.obstacle_with(obstacle).is_none() {
                    Err(Rejection::NoSuchObstacle)
                } else {
                    Ok(())
                }
            },
            PlannedAction::Boost(dir) => {
                if (dir == BoostDir::TurnLeft || dir == BoostDir::TurnRight) && !extras.turn_boost
                    && !extras.daredevil {
                    Err(Rejection::TemplateNotAllowed)
                } else {
                    Ok(())
                }
            },
            PlannedAction::BarrelRollFar(_) => {
                if extras.far_roll {
                    Ok(())
                } else {
                    Err(Rejection::TemplateNotAllowed)
                }
            },
            PlannedAction::BarrelRollBank(_, _) => {
                if extras.bank_roll {
                    Ok(())
                } else {
                    Err(Rejection::TemplateNotAllowed)
                }
            },
            _ => Ok(()),
        }
    }

    fn is_on_bar(&self, content: &Content, i: usize, planned: PlannedAction) -> (yes: bool)
        requires
            i < self@.ships.len(),
            self@.known(*content),
        ensures
            yes == self@.on_bar(*content, i as int, planned),
    {
        assert(self@.frame().ships[i as int] == self@.ships[i as int].identity());
        match planned.kind() {
            None => true,
            Some(kind) => {
                let bar = self.action_bar(content, &self.ships[i]);
                has_icon(&bar, kind)
            },
        }
    }

    fn is_icon_free(&self, content: &Content, sight: &Sight, i: usize, planned: PlannedAction) -> (
    yes: bool)
        requires
            i < self@.ships.len(),
        ensures
            yes == self@.needs_no_icon(*content, *sight, i as int, planned),
    {
        let extras = self.action_extras(content, sight, i);
        let ghost model = self@.extras(*content, *sight, i as int);
        assert(extras@ == model);
        if planned.kind() == Some(ActionKind::BarrelRoll) && extras.expert_roll {
            return true;
        }
        match planned {
            PlannedAction::Boost(dir) => extras.daredevil && (dir == BoostDir::TurnLeft || dir
                == BoostDir::TurnRight),
            _ => false,
        }
    }

    fn can_protect(&self, player: PlayerId, id: ShipId) -> (yes: bool)
        ensures
            yes == self@.may_protect(player, id),
    {
        match &self.mission {
            Some(m) => m.kind == MissionKind::PoliticalEscort && self.team(player) == m.rebel_side
                && m.shuttle != Some(id),
            None => false,
        }
    }

    /// Secretly assign the ship's one action, executed right after its
    /// maneuver (defaults to Pass if never planned).
    pub fn plan_action(
        &mut self,
        content: &Content,
        sight: &Sight,
        player: PlayerId,
        ship_id: ShipId,
        planned: PlannedAction,
    ) -> (result: Result<(), Rejection>)
        requires
            player.0 < old(self)@.committed.len(),
            old(self)@.known(*content),
        ensures
            match old(self)@.action_refused(*content, *sight, player, ship_id, planned) {
                Some(r) => result == Err::<(), Rejection>(r) && final(self)@ == old(self)@,
                None => {
                    let i = old(self)@.index(ship_id)->0 as int;
                    result is Ok && final(self)@ == old(self)@.with_ship(
                        i,
                        ShipModel { planned_action: Some(planned), ..old(self)@.ships[i] },
                    )
                },
            },
            final(self)@.known(*content),
    {
        let i: usize = match self.check_order(player, ship_id) {
            Err(r) => return Err(r),
            Ok(i) => i,
        };
        if !self.is_on_bar(content, i, planned) && !self.is_icon_free(content, sight, i, planned) {
            return Err(Rejection::ActionNotOnBar);
        }
        if let Err(r) = self.check_lock(player, planned) {
            return Err(r);
        }
        if planned == PlannedAction::Protect && !self.can_protect(player, ship_id) {
            return Err(Rejection::NotInThisMission);
        }
        if let Err(r) = self.check_action_extras(content, sight, i, planned) {
            return Err(r);
        }
        self.ship_mut(i).planned_action = Some(planned);
        Ok(())
    }

    fn is_second_allowed(
        &self,
        content: &Content,
        i: usize,
        kind: SecondActionKind,
        planned: PlannedAction,
    ) -> (yes: bool)
        requires
            i < self@.ships.len(),
            self@.known(*content),
        ensures
            yes == self@.second_allowed(*content, i as int, kind, planned),
    {
        let boost = match planned {
            PlannedAction::Boost(_) => true,
            _ => false,
        };
        let roll = match planned {
            PlannedAction::BarrelRoll(_) | PlannedAction::BarrelRollFar(_)
            | PlannedAction::BarrelRollBank(_, _) => true,
            _ => false,
        };
        match kind {
            SecondActionKind::FreeBarAction => planned.kind().is_some() && self.is_on_bar(
                content,
                i,
                planned,
            ),
            SecondActionKind::TwoActions => planned != PlannedAction::Pass,
            SecondActionKind::CardActionThenStress => match planned {
                PlannedAction::CardAction(_) | PlannedAction::CardActionAt(_, _) => true,
                _ => false,
            },
            SecondActionKind::BoostAfterMove => boost,
            SecondActionKind::RepositionAfterFocus
            | SecondActionKind::RepositionAfterAttack => boost || roll,
            SecondActionKind::RollOnGreenReveal => roll,
        }
    }

    /// Secretly plan the ship's second action (None clears it). What is
    /// allowed depends on what grants it — see `SecondActionKind`.
    pub fn plan_second_action(
        &mut self,
        content: &Content,
        sight: &Sight,
        player: PlayerId,
        ship_id: ShipId,
        planned: Option<PlannedAction>,
    ) -> (result: Result<(), Rejection>)
        requires
            player.0 < old(self)@.committed.len(),
            old(self)@.known(*content),
        ensures
            match old(self)@.second_refused(*content, *sight, player, ship_id, planned) {
                Some(r) => result == Err::<(), Rejection>(r) && final(self)@ == old(self)@,
                None => {
                    let i = old(self)@.index(ship_id)->0 as int;
                    result is Ok && final(self)@ == old(self)@.with_ship(
                        i,
                        ShipModel { planned_action2: planned, ..old(self)@.ships[i] },
                    )
                },
            },
            final(self)@.known(*content),
    {
        let i: usize = match self.check_order(player, ship_id) {
            Err(r) => return Err(r),
            Ok(i) => i,
        };
        let action = match planned {
            None => {
                self.ship_mut(i).planned_action2 = None;
                return Ok(());
            },
            Some(action) => action,
        };
        let extras = self.action_extras(content, sight, i);
        assert(extras@.second == self@.extras(*content, *sight, i as int).second);
        let kind = match extras.second {
            None => return Err(Rejection::SecondActionNotAllowed),
            Some(kind) => kind,
        };
        if !self.is_second_allowed(content, i, kind, action) {
            return Err(Rejection::SecondActionNotAllowed);
        }
        // Granted repositions (BB-8, Snap, Jake Farrell) need no icon on
        // the bar; the other kinds are ordinary actions.
        if (kind == SecondActionKind::FreeBarAction || kind == SecondActionKind::TwoActions)
            && !self.is_on_bar(content, i, action) {
            return Err(Rejection::ActionNotOnBar);
        }
        if let Err(r) = self.check_lock(player, action) {
            return Err(r);
        }
        if let Err(r) = self.check_action_extras(content, sight, i, action) {
            return Err(r);
        }
        self.ship_mut(i).planned_action2 = Some(action);
        Ok(())
    }

    /// Secretly switch one of the ship's toggle cards on or off for this
    /// round (see `toggle_cards`).
    pub fn plan_card_use(
        &mut self,
        content: &Content,
        player: PlayerId,
        ship_id: ShipId,
        card: UpgradeId,
        on: bool,
    ) -> (result: Result<(), Rejection>)
        requires
            player.0 < old(self)@.committed.len(),
        ensures
            match old(self)@.card_refused(*content, player, ship_id, card) {
                Some(r) => result == Err::<(), Rejection>(r) && final(self)@ == old(self)@,
                None => {
                    let i = old(self)@.index(ship_id)->0 as int;
                    let off = dropped(old(self)@.ships[i].card_uses, card);
                    result is Ok && final(self)@ == old(self)@.with_ship(
                        i,
                        ShipModel {
                            card_uses: if on {
                                off.push(card)
                            } else {
                                off
                            },
                            ..old(self)@.ships[i]
                        },
                    )
                },
            },
            final(self)@.frame() == old(self)@.frame(),
    {
        let i: usize = match self.check_order(player, ship_id) {
            Err(r) => return Err(r),
            Ok(i) => i,
        };
        let cards = self.toggle_cards(content, &self.ships[i]);
        if !has_card(&cards, card) {
            return Err(Rejection::NoSuchUpgrade);
        }
        let s = self.ship_mut(i);
        drop_card(&mut s.card_uses, card);
        if on {
            s.card_uses.push(card);
        }
        Ok(())
    }

    /// Secretly choose a bomb card to drop when the dial is revealed
    /// (None = keep it). Only dial-reveal bombs qualify; mines are
    /// dropped through `PlannedAction::DropMine`.
    pub fn plan_bomb(
        &mut self,
        content: &Content,
        player: PlayerId,
        ship_id: ShipId,
        bomb: Option<UpgradeId>,
    ) -> (result: Result<(), Rejection>)
        requires
            player.0 < old(self)@.committed.len(),
        ensures
            match old(self)@.bomb_refused(*content, player, ship_id, bomb) {
                Some(r) => result == Err::<(), Rejection>(r) && final(self)@ == old(self)@,
                None => {
                    let i = old(self)@.index(ship_id)->0 as int;
                    result is Ok && final(self)@ == old(self)@.with_ship(
                        i,
                        ShipModel { bomb, ..old(self)@.ships[i] },
                    )
                },
            },
            final(self)@.frame() == old(self)@.frame(),
    {
        let i: usize = match self.check_order(player, ship_id) {
            Err(r) => return Err(r),
            Ok(i) => i,
        };
        if let Some(card) = bomb {
            let fits = match self.bomb_kind(content, i, card) {
                // Deathfire drops mines on the reveal too.
                Some(kind) => !kind.is_mine() || self.has_ability(
                    content,
                    i,
                    PilotAbility::FreeBombActionOnRevealOrAction,
                ),
                None => false,
            };
            if !fits {
                return Err(Rejection::NoSuchUpgrade);
            }
        }
        self.ship_mut(i).bomb = bomb;
        Ok(())
    }

    fn any_undialed(&self, player: PlayerId) -> (yes: bool)
        ensures
            yes == (first(self@.undialed_rule(player), 0, self@.ships.len() as int) is Some),
    {
        let test = |k: usize| -> (yes: bool)
            requires
                k < self@.ships.len(),
            ensures
                yes == obeys(self@.undialed_rule(player), k),
        {
            self.ships[k].owner == player && !self.ships[k].destroyed
                && self.ships[k].plan.is_none()
        };
        find(self.ships.len(), test, Ghost(self@.undialed_rule(player))).is_some()
    }

    fn is_all_committed(&self) -> (yes: bool)
        ensures
            yes == self@.all_committed(),
    {
        let mut k: usize = 0;
        while k < self.committed.len()
            invariant
                k <= self.committed.len(),
                forall|j: int| 0 <= j < k ==> #[trigger] self.committed@[j],
            decreases self.committed.len() - k,
        {
            if !self.committed[k] {
                assert(!self@.committed[k as int]);
                return false;
            }
            k = k + 1;
        }
        true
    }

    /// Commit the player's plans; says whether every seat has now committed,
    /// so that the round can be resolved.
    pub fn commit(&mut self, player: PlayerId) -> (result: Result<bool, Rejection>)
        requires
            player.0 < old(self)@.committed.len(),
        ensures
            match old(self)@.commit_refused(player) {
                Some(r) => result == Err::<bool, Rejection>(r) && final(self)@ == old(self)@,
                None => {
                    &&& final(self)@ == (Game {
                        committed: old(self)@.committed.update(player.0 as int, true),
                        ..old(self)@
                    })
                    &&& result == Ok::<bool, Rejection>(final(self)@.all_committed())
                },
            },
            forall|content: Content|
                #[trigger] old(self)@.known(content) ==> final(self)@.known(content),
    {
        if self.phase != Phase::Planning {
            return Err(Rejection::WrongPhase);
        }
        let seat: usize = player.0 as usize;
        if self.committed[seat] {
            return Err(Rejection::AlreadyCommitted);
        }
        if self.any_undialed(player) {
            return Err(Rejection::PlansIncomplete);
        }
        self.committed.set(seat, true);
        assert(self@.frame().ships == old(self)@.frame().ships);
        Ok(self.is_all_committed())
    }
}

} // verus!
