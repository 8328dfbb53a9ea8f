//! What the cards on a ship make of it: skill, stats, icons, and whom it
//! stands near.

#![verifier::loop_isolation(false)]

use vstd::prelude::*;

use crate::action::{ActionExtras, ActionKind, ExtrasModel, SecondActionKind};
use crate::crit::{
    colored, count_crits, effective_difficulty, has_crit, tally_crits, CritEffect,
};
use crate::data::Content;
use crate::dice::{count, tally};
use crate::game::state::{Game, GameState};
use crate::maneuver::{Difficulty, Maneuver, Steer};
use crate::pick::{find, first, obeys, pick, picked};
use crate::pilot::PilotAbility;
use crate::ship::{copy_cards, has_card, sat, ShipClass, ShipId, ShipModel, ShipState, StatBlock};
use crate::sight::Sight;
use crate::upgrade::{Slot, UpgradeEffect, UpgradeId};

verus! {

/// How many of the cards have the effect.
pub open spec fn carried(content: Content, cards: Seq<UpgradeId>, e: UpgradeEffect) -> nat
    decreases cards.len(),
{
    if cards.len() == 0 {
        0
    } else {
        carried(content, cards.drop_last(), e) + if content.does(cards.last()) == Some(e) {
            1nat
        } else {
            0nat
        }
    }
}

/// The first of the cards with the effect.
pub open spec fn card_doing(
    content: Content,
    cards: Seq<UpgradeId>,
    e: UpgradeEffect,
) -> Option<UpgradeId>
    decreases cards.len(),
{
    if cards.len() == 0 {
        None
    } else if content.does(cards[0]) == Some(e) {
        Some(cards[0])
    } else {
        card_doing(content, cards.skip(1), e)
    }
}

/// The first of the cards with the effect that is not in the other list.
pub open spec fn unused_card(
    content: Content,
    cards: Seq<UpgradeId>,
    used: Seq<UpgradeId>,
    e: UpgradeEffect,
) -> Option<UpgradeId>
    decreases cards.len(),
{
    if cards.len() == 0 {
        None
    } else if content.does(cards[0]) == Some(e) && !used.contains(cards[0]) {
        Some(cards[0])
    } else {
        unused_card(content, cards.skip(1), used, e)
    }
}

/// The cards of a list that are not elite talents.
pub open spec fn untalented(content: Content, cards: Seq<UpgradeId>) -> Seq<UpgradeId>
    decreases cards.len(),
{
    if cards.len() == 0 {
        cards
    } else if content.fits(cards.last()) == Some(Slot::Talent) {
        untalented(content, cards.drop_last())
    } else {
        untalented(content, cards.drop_last()).push(cards.last())
    }
}

/// Cards whose effect is a per-round choice, switched on with the dial.
pub open spec fn toggled(e: Option<UpgradeEffect>) -> bool {
    e == Some(UpgradeEffect::RotateShip180Discard) || e == Some(
        UpgradeEffect::SystemDamageToDiscardToken,
    ) || e == Some(UpgradeEffect::CrewEvadeInsteadOfFocusForFriendly) || e == Some(
        UpgradeEffect::SwapSkillWithFriendly,
    )
}

/// Cards with an "Action:" line.
pub open spec fn actionable(e: Option<UpgradeEffect>) -> bool {
    e == Some(UpgradeEffect::FocusToCritOthersToHitAction) || e == Some(
        UpgradeEffect::RerollUpTo3ForFocusAnd2Stress,
    ) || e == Some(UpgradeEffect::ExposeAction) || e == Some(UpgradeEffect::AgilityPlus1Action)
        || e == Some(UpgradeEffect::SeismicTorpedoAction) || e == Some(
        UpgradeEffect::CrewFleetOfficerAction,
    ) || e == Some(UpgradeEffect::FreeActionForLowerSkillShip) || e == Some(
        UpgradeEffect::LockAndBoostAction,
    ) || e == Some(UpgradeEffect::CrewRollDefenseForTokensAction) || e == Some(
        UpgradeEffect::CrewSaboteurAction,
    ) || e == Some(UpgradeEffect::DiscardFacedownOnDefenseDie)
}

/// The cards of a list that may be switched on.
pub open spec fn toggles(content: Content, cards: Seq<UpgradeId>) -> Seq<UpgradeId>
    decreases cards.len(),
{
    if cards.len() == 0 {
        cards
    } else if toggled(content.does(cards.last())) {
        toggles(content, cards.drop_last()).push(cards.last())
    } else {
        toggles(content, cards.drop_last())
    }
}

/// The cards of a list that an action may be taken with.
pub open spec fn actions(content: Content, cards: Seq<UpgradeId>) -> Seq<UpgradeId>
    decreases cards.len(),
{
    if cards.len() == 0 {
        cards
    } else if actionable(content.does(cards.last())) {
        actions(content, cards.drop_last()).push(cards.last())
    } else {
        actions(content, cards.drop_last())
    }
}

/// The icon that a card adds to the action bar.
pub open spec fn icon(e: Option<UpgradeEffect>) -> Option<ActionKind> {
    match e {
        Some(UpgradeEffect::BarGainsTargetLock) => Some(ActionKind::TargetLock),
        Some(UpgradeEffect::BarGainsBoost) => Some(ActionKind::Boost),
        Some(UpgradeEffect::BarGainsBarrelRoll) => Some(ActionKind::BarrelRoll),
        Some(UpgradeEffect::BarGainsEvade) => Some(ActionKind::Evade),
        _ => None,
    }
}

/// A bar with the icons that the cards add, each only once.
pub open spec fn bar_with(
    content: Content,
    bar: Seq<ActionKind>,
    cards: Seq<UpgradeId>,
) -> Seq<ActionKind>
    decreases cards.len(),
{
    if cards.len() == 0 {
        bar
    } else {
        let rest = bar_with(content, bar, cards.drop_last());
        match icon(content.does(cards.last())) {
            Some(kind) => if rest.contains(kind) {
                rest
            } else {
                rest.push(kind)
            },
            None => rest,
        }
    }
}

/// `n` held between 0 and 12, the span of pilot skills.
pub open spec fn as_skill(n: int) -> u8 {
    if n < 0 {
        0
    } else if n > 12 {
        12
    } else {
        n as u8
    }
}

impl ShipModel {
    /// The cards of a list that count for the ship: an Injured Pilot crit
    /// silences elite talents.
    pub open spec fn heeded(self, content: Content, cards: Seq<UpgradeId>) -> Seq<UpgradeId> {
        if self.crits.contains(CritEffect::InjuredPilot) {
            untalented(content, cards)
        } else {
            cards
        }
    }

    /// The equipped cards that count.
    pub open spec fn active(self, content: Content) -> Seq<UpgradeId> {
        self.heeded(content, self.upgrades)
    }

    /// How many cards with the effect count for the ship, as a counter.
    pub open spec fn effects(self, content: Content, e: UpgradeEffect) -> u8 {
        (carried(content, self.active(content), e) % 256) as u8
    }

    /// The pilot's card ability, unless an Injured Pilot crit has
    /// silenced it.
    pub open spec fn ability(self, content: Content) -> Option<PilotAbility> {
        if self.crits.contains(CritEffect::InjuredPilot) {
            None
        } else {
            match content.flyer(self.pilot) {
                Some(p) => p.ability,
                None => None,
            }
        }
    }

    /// Printed stats: the pilot card's own block when it has one, else
    /// the chassis values.
    pub open spec fn printed(self, content: Content) -> StatBlock {
        match content.flyer(self.pilot) {
            Some(p) => match p.stats {
                Some(stats) => stats,
                None => content.chassis(self.class)->0.block(),
            },
            None => content.chassis(self.class)->0.block(),
        }
    }

    /// Hull value with Hull Upgrade.
    pub open spec fn full_hull(self, content: Content) -> u8 {
        sat(self.printed(content).hull + self.effects(content, UpgradeEffect::HullPlus1))
    }

    /// Shield value with Shield Upgrade.
    pub open spec fn full_shields(self, content: Content) -> u8 {
        sat(self.printed(content).shields + self.effects(content, UpgradeEffect::ShieldPlus1))
    }

    /// Pilot skill after upgrades and crits: a Damaged Cockpit drops it to 0
    /// from the round after it was dealt on; "Epsilon Ace" has 12 while no
    /// Damage card is assigned.
    pub open spec fn skill(self, content: Content) -> u8 {
        if count(self.crits, CritEffect::DamagedCockpit) > self.fresh_cockpits {
            0
        } else if self.ability(content) == Some(PilotAbility::SkillTwelveWhileUndamaged)
            && self.hull == self.full_hull(content) {
            12
        } else {
            as_skill(
                (match content.flyer(self.pilot) {
                    Some(p) => p.skill as int,
                    None => 0,
                }) + 2 * self.effects(content, UpgradeEffect::SkillPlus2) + self.effects(
                    content,
                    UpgradeEffect::SkillPlus1,
                ) - self.effects(content, UpgradeEffect::SkillMinus1),
            )
        }
    }

    /// Facedown Damage cards: hull lost beyond the faceup ones.
    pub open spec fn facedown(self, content: Content) -> u8 {
        let lost = if self.full_hull(content) >= self.hull {
            self.full_hull(content) - self.hull
        } else {
            0
        };
        let faceup = self.crits.len() as int % 256;
        if lost >= faceup {
            (lost - faceup) as u8
        } else {
            0
        }
    }

    /// A card action with the effect was performed this round.
    pub open spec fn acting(self, content: Content, e: UpgradeEffect) -> bool {
        card_doing(content, self.heeded(content, self.card_actions), e) is Some
    }

    /// The card with the effect that is switched on this round.
    pub open spec fn using(self, content: Content, e: UpgradeEffect) -> Option<UpgradeId> {
        card_doing(content, self.heeded(content, self.card_uses), e)
    }

    /// May perform a free action right now (not stressed, no Damaged Sensor
    /// Array, alive).
    pub open spec fn free_to_act(self, content: Content) -> bool {
        !self.destroyed && (self.stress == 0 || self.ability(content) == Some(
            PilotAbility::ActionsWhileStressed,
        )) && !self.crits.contains(CritEffect::DamagedSensorArray)
    }

    /// The action bar with icons granted by modifications.
    pub open spec fn bar(self, content: Content) -> Seq<ActionKind> {
        bar_with(content, content.chassis(self.class)->0.action_bar@, self.active(content))
    }
}

impl Game {
    /// A card with the effect counts for ship `i`.
    pub open spec fn has(self, content: Content, i: int, e: UpgradeEffect) -> bool {
        self.ships[i].effects(content, e) > 0
    }

    /// The first card with the effect that counts for ship `i`.
    pub open spec fn card(self, content: Content, i: int, e: UpgradeEffect) -> Option<UpgradeId> {
        card_doing(content, self.ships[i].active(content), e)
    }

    /// Ship `i` flies with the ability.
    pub open spec fn can(self, content: Content, i: int, a: PilotAbility) -> bool {
        self.ships[i].ability(content) == Some(a)
    }

    /// Range band between two ships (None if either is off the board
    /// or they are beyond Range 3).
    pub open spec fn range(self, sight: Sight, i: int, j: int) -> Option<u8> {
        if self.ships[i].pose is Some && self.ships[j].pose is Some {
            sight.at(i, j).band
        } else {
            None
        }
    }

    /// Ship `target` is inside ship `shooter`'s forward firing arc.
    pub open spec fn in_arc(self, sight: Sight, shooter: int, target: int) -> bool {
        self.ships[shooter].pose is Some && self.ships[target].pose is Some && sight.at(
            shooter,
            target,
        ).in_arc
    }

    /// Which ships are other living friends of `s` within Range 1-`band`.
    pub open spec fn friend_rule(self, sight: Sight, s: int, band: u8) -> spec_fn(int) -> bool {
        |o: int|
            o != s && self.same_side(o, s) && !self.ships[o].destroyed && self.range(
                sight,
                s,
                o,
            ) is Some && self.range(sight, s, o)->0 <= band
    }

    /// The other living friendly ships within Range 1-`band` of ship `s`.
    pub open spec fn near(self, sight: Sight, s: int, band: u8) -> Seq<usize> {
        picked(self.friend_rule(sight, s, band), 0, self.ships.len() as int)
    }

    /// Ship `e` is a living enemy of ship `i` at Range 1 of it.
    pub open spec fn enemy_close(self, sight: Sight, i: int, e: int) -> bool {
        !self.same_side(e, i) && !self.ships[e].destroyed && self.range(sight, i, e) == Some(1u8)
    }

    pub open spec fn enemy_close_rule(self, sight: Sight, i: int) -> spec_fn(int) -> bool {
        |e: int| self.enemy_close(sight, i, e)
    }

    /// An enemy is at Range 1 of ship `i`.
    #[verifier::opaque]
    pub open spec fn enemy_at_range1(self, sight: Sight, i: int) -> bool {
        first(self.enemy_close_rule(sight, i), 0, self.ships.len() as int) is Some
    }

    pub open spec fn enemy_ability_rule(
        self,
        content: Content,
        sight: Sight,
        i: int,
        a: PilotAbility,
    ) -> spec_fn(int) -> bool {
        |e: int| self.enemy_close(sight, i, e) && self.can(content, e, a)
    }

    /// A living enemy of ship `i` with the ability is at Range 1 of it.
    #[verifier::opaque]
    pub open spec fn enemy_ability(
        self,
        content: Content,
        sight: Sight,
        i: int,
        a: PilotAbility,
    ) -> bool {
        first(
            self.enemy_ability_rule(content, sight, i, a),
            0,
            self.ships.len() as int,
        ) is Some
    }

    /// Carnor Jax at Range 1: no focus or evade actions, no spending
    /// focus or evade tokens.
    pub open spec fn carnor(self, content: Content, sight: Sight, i: int) -> bool {
        self.enemy_ability(content, sight, i, PilotAbility::DenyFocusEvadeAtRange1)
    }

    pub open spec fn enemy_arc_rule(self, sight: Sight, i: int) -> spec_fn(int) -> bool {
        |e: int| self.enemy_close(sight, i, e) && self.in_arc(sight, i, e)
    }

    /// A living enemy is inside ship `i`'s firing arc at Range 1.
    #[verifier::opaque]
    pub open spec fn enemy_in_arc(self, sight: Sight, i: int) -> bool {
        first(self.enemy_arc_rule(sight, i), 0, self.ships.len() as int) is Some
    }

    pub open spec fn intimidator_rule(
        self,
        content: Content,
        sight: Sight,
        i: int,
    ) -> spec_fn(int) -> bool {
        |k: int|
            !self.same_side(k, i) && !self.ships[k].destroyed && self.has(
                content,
                k,
                UpgradeEffect::ReduceAgilityWhileTouching,
            ) && self.ships[k].pose is Some && sight.at(i, k).dist == 0
    }

    /// Ship `i` is touching an enemy ship that carries Intimidation.
    #[verifier::opaque]
    pub open spec fn intimidated(self, content: Content, sight: Sight, i: int) -> bool {
        self.ships[i].pose is Some && first(
            self.intimidator_rule(content, sight, i),
            0,
            self.ships.len() as int,
        ) is Some
    }

    pub open spec fn synced_rule(
        self,
        content: Content,
        friends: Seq<usize>,
        target: ShipId,
    ) -> spec_fn(int) -> bool {
        |k: int|
            self.ships[friends[k] as int].locks(target) && self.has(
                content,
                friends[k] as int,
                UpgradeEffect::ShareLockWithFriendly,
            )
    }

    /// Targeting Synchronizer: a friend within Range 1-2 of the attacker
    /// holds a lock on the target and shares it.
    #[verifier::opaque]
    pub open spec fn synced(self, content: Content, sight: Sight, i: int, target: ShipId) -> bool {
        let friends = self.near(sight, i, 2);
        first(self.synced_rule(content, friends, target), 0, friends.len() as int) is Some
    }

    /// Agility with Stealth Device (+1 while equipped), an enemy near Gemmer
    /// Sojan, R2-F2 and Expose, Structural Damage crits and tractor tokens.
    #[verifier::opaque]
    pub open spec fn agility(self, content: Content, sight: Sight, i: int) -> u8 {
        let s = self.ships[i];
        let gemmer = self.can(content, i, PilotAbility::AgilityPlus1IfEnemyAtRange1)
            && self.enemy_at_range1(sight, i);
        let up = sat(
            s.printed(content).agility + s.effects(
                content,
                UpgradeEffect::AgilityPlus1DiscardWhenHit,
            ) + one_if(gemmer) + one_if(s.acting(content, UpgradeEffect::AgilityPlus1Action)),
        );
        let down = tally(s.crits, CritEffect::StructuralDamage) + one_if(
            s.acting(content, UpgradeEffect::ExposeAction),
        ) + s.tractor;
        if up >= down {
            (up - down) as u8
        } else {
            0
        }
    }

    /// Weapons Engineer (crew): two target locks may be held.
    pub open spec fn two_locks(self, content: Content, i: int) -> bool {
        self.has(content, i, UpgradeEffect::CrewTwoLocks)
    }

    /// The color ship `i` flies a maneuver at, and the card that is discarded
    /// for it. Crits redden first; then Ello Asty's white Tallon Rolls while
    /// unstressed, the cards that green it, Leia Organa (crew), and
    /// Adrenaline Rush.
    #[verifier::opaque]
    pub open spec fn difficulty(self, content: Content, i: int, m: Maneuver) -> (
        Difficulty,
        Option<UpgradeId>,
    ) {
        let s = self.ships[i];
        let straight = m.steer == Steer::Straight;
        let bank = m.steer == Steer::BankLeft || m.steer == Steer::BankRight;
        let tallon = m.steer == Steer::TallonLeft || m.steer == Steer::TallonRight;
        let flown = colored(s.crits, m);
        let flown = if flown == Difficulty::Hard && tallon && s.stress == 0 && self.can(
            content,
            i,
            PilotAbility::TallonWhiteWhileUnstressed,
        ) {
            Difficulty::Normal
        } else {
            flown
        };
        let green = (straight && m.distance <= 2 && self.has(
            content,
            i,
            UpgradeEffect::Speed1And2AreGreen,
        )) || (straight && self.has(content, i, UpgradeEffect::CrewStraightsAreGreen)) || (bank
            && self.has(content, i, UpgradeEffect::BanksAreGreen));
        let flown = if green {
            Difficulty::Easy
        } else {
            flown
        };
        let flown = if flown == Difficulty::Hard && self.white_reds[s.owner.0 as int] {
            Difficulty::Normal
        } else {
            flown
        };
        let rush = self.card(content, i, UpgradeEffect::TreatRedAsWhiteDiscard);
        if flown == Difficulty::Hard && rush is Some {
            (Difficulty::Normal, rush)
        } else {
            (flown, None)
        }
    }

    /// Is ship `b` marked rather than ship `a`: dearer, or as dear with an id
    /// that is not higher?
    pub open spec fn marks(self, content: Content, a: int, b: int) -> bool {
        let ca = price(content, self.ships[a]);
        let cb = price(content, self.ships[b]);
        cb > ca || (cb == ca && self.ships[b].id.0 <= self.ships[a].id.0)
    }

    /// The enemy of ship `i` that is marked among those from `k` on, or
    /// `best` so far.
    pub open spec fn marked_from(
        self,
        content: Content,
        i: int,
        k: int,
        best: Option<usize>,
    ) -> Option<usize>
        decreases self.ships.len() - k,
    {
        if k >= self.ships.len() {
            best
        } else if !self.same_side(k, i) && (best is None || self.marks(
            content,
            best->0 as int,
            k,
        )) {
            self.marked_from(content, i, k + 1, Some(k as usize))
        } else {
            self.marked_from(content, i, k + 1, best)
        }
    }

    /// The enemy chosen at setup for a card with the effect: the most
    /// expensive one, the lowest id on a tie.
    #[verifier::opaque]
    pub open spec fn marked(self, content: Content, i: int, e: UpgradeEffect) -> Option<ShipId> {
        if !self.has(content, i, e) {
            None
        } else {
            match self.marked_from(content, i, 0, None) {
                Some(k) => Some(self.ships[k as int].id),
                None => None,
            }
        }
    }

    pub open spec fn youngster_rule(
        self,
        content: Content,
        sight: Sight,
        i: int,
    ) -> spec_fn(int) -> bool {
        |y: int|
            y != i && self.same_side(y, i) && !self.ships[y].destroyed && self.ships[y].class
                == self.ships[i].class && self.can(content, y, PilotAbility::ShareTalentAction)
                && self.range(sight, i, y) is Some
    }

    /// The cards of the ships at the places from `k` on, one after another.
    pub open spec fn cards_of(self, places: Seq<usize>, k: int) -> Seq<UpgradeId>
        decreases places.len() - k,
    {
        if k >= places.len() {
            Seq::empty()
        } else {
            self.ships[places[k] as int].upgrades + self.cards_of(places, k + 1)
        }
    }

    /// The cards that ship `i` may take an action with: its own, and those of
    /// a "Youngster" of its class at Range 1-3.
    #[verifier::opaque]
    pub open spec fn card_actions(self, content: Content, sight: Sight, i: int) -> Seq<UpgradeId> {
        let lenders = picked(
            self.youngster_rule(content, sight, i),
            0,
            self.ships.len() as int,
        );
        actions(
            content,
            self.ships[i].heeded(content, self.ships[i].upgrades + self.cards_of(lenders, 0)),
        )
    }

    /// Why ship `i` may plan a second action.
    #[verifier::opaque]
    pub open spec fn second_action(self, content: Content, i: int) -> Option<SecondActionKind> {
        let s = self.ships[i];
        if self.can(content, i, PilotAbility::TwoActions) {
            Some(SecondActionKind::TwoActions)
        } else if self.has(content, i, UpgradeEffect::FreeActionThenStress) {
            Some(SecondActionKind::FreeBarAction)
        } else if self.can(content, i, PilotAbility::FreeBoostAfterSpeed2To4) {
            Some(SecondActionKind::BoostAfterMove)
        } else if self.can(content, i, PilotAbility::FreeRepositionAfterFocus) {
            Some(SecondActionKind::RepositionAfterFocus)
        } else if self.has(content, i, UpgradeEffect::FreeBarrelRollOnGreen) {
            Some(SecondActionKind::RollOnGreenReveal)
        } else if self.can(content, i, PilotAbility::FreeRepositionAfterAttack) {
            Some(SecondActionKind::RepositionAfterAttack)
        } else if unused_card(
            content,
            s.active(content),
            s.used_round,
            UpgradeEffect::ExtraActionThenStress,
        ) is Some {
            Some(SecondActionKind::CardActionThenStress)
        } else {
            None
        }
    }

    /// What ship `i` may plan beyond its action bar.
    pub open spec fn extras(self, content: Content, sight: Sight, i: int) -> ExtrasModel {
        ExtrasModel {
            second: self.second_action(content, i),
            turn_boost: self.can(content, i, PilotAbility::BoostWithTurnTemplate),
            far_roll: self.can(content, i, PilotAbility::BarrelRollWithStraight2),
            card_actions: self.card_actions(content, sight, i),
            bank_roll: self.can(content, i, PilotAbility::BarrelRollWithBank1ForStress),
            expert_roll: self.has(content, i, UpgradeEffect::BarrelRollActionDiscardLock),
            daredevil: self.has(content, i, UpgradeEffect::RedTurn1Action),
            toggles: toggles(content, self.ships[i].active(content)),
        }
    }
}

/// 1 for yes, 0 for no.
pub open spec fn one_if(yes: bool) -> int {
    if yes {
        1
    } else {
        0
    }
}

/// The points of a ship's pilot.
pub open spec fn price(content: Content, s: ShipModel) -> u8 {
    match content.flyer(s.pilot) {
        Some(p) => p.cost,
        None => 0,
    }
}

/// The first of the cards with the effect.
pub fn find_card(content: &Content, cards: &Vec<UpgradeId>, e: UpgradeEffect) -> (card: Option<
    UpgradeId,
>)
    ensures
        card == card_doing(*content, cards@, e),
{
    let mut k: usize = 0;
    assert(cards@.skip(0) =~= cards@);
    while k < cards.len()
        invariant
            k <= cards.len(),
            card_doing(*content, cards@, e) == card_doing(*content, cards@.skip(k as int), e),
        decreases cards.len() - k,
    {
        assert(cards@.skip(k as int).skip(1) =~= cards@.skip(k + 1));
        if content.effect(cards[k]) == Some(e) {
            return Some(cards[k]);
        }
        k = k + 1;
    }
    None
}

/// The first of the cards with the effect that is not in the other list.
pub fn find_unused_card(
    content: &Content,
    cards: &Vec<UpgradeId>,
    used: &Vec<UpgradeId>,
    e: UpgradeEffect,
) -> (card: Option<UpgradeId>)
    ensures
        card == unused_card(*content, cards@, used@, e),
{
    let mut k: usize = 0;
    assert(cards@.skip(0) =~= cards@);
    while k < cards.len()
        invariant
            k <= cards.len(),
            unused_card(*content, cards@, used@, e) == unused_card(
                *content,
                cards@.skip(k as int),
                used@,
                e,
            ),
        decreases cards.len() - k,
    {
        assert(cards@.skip(k as int).skip(1) =~= cards@.skip(k + 1));
        if content.effect(cards[k]) == Some(e) && !has_card(used, cards[k]) {
            return Some(cards[k]);
        }
        k = k + 1;
    }
    None
}

/// The cards of a list that are not elite talents.
fn drop_talents(content: &Content, cards: &Vec<UpgradeId>) -> (kept: Vec<UpgradeId>)
    ensures
        kept@ == untalented(*content, cards@),
{
    let mut kept: Vec<UpgradeId> = Vec::new();
    let mut i: usize = 0;
    assert(cards@.take(0) =~= Seq::<UpgradeId>::empty());
    while i < cards.len()
        invariant
            i <= cards.len(),
            kept@ == untalented(*content, cards@.take(i as int)),
        decreases cards.len() - i,
    {
        assert(cards@.take(i + 1).drop_last() =~= cards@.take(i as int));
        if content.slot(cards[i]) != Some(Slot::Talent) {
            kept.push(cards[i]);
        }
        i = i + 1;
    }
    assert(cards@.take(i as int) =~= cards@);
    kept
}

fn is_toggled(e: Option<UpgradeEffect>) -> (yes: bool)
    ensures
        yes == toggled(e),
{
    match e {
        Some(
            UpgradeEffect::RotateShip180Discard | UpgradeEffect::SystemDamageToDiscardToken
            | UpgradeEffect::CrewEvadeInsteadOfFocusForFriendly
            | UpgradeEffect::SwapSkillWithFriendly,
        ) => true,
        _ => false,
    }
}

fn is_actionable(e: Option<UpgradeEffect>) -> (yes: bool)
    ensures
        yes == actionable(e),
{
    match e {
        Some(
            UpgradeEffect::FocusToCritOthersToHitAction
            | UpgradeEffect::RerollUpTo3ForFocusAnd2Stress | UpgradeEffect::ExposeAction
            | UpgradeEffect::AgilityPlus1Action | UpgradeEffect::SeismicTorpedoAction
            | UpgradeEffect::CrewFleetOfficerAction | UpgradeEffect::FreeActionForLowerSkillShip
            | UpgradeEffect::LockAndBoostAction | UpgradeEffect::CrewRollDefenseForTokensAction
            | UpgradeEffect::CrewSaboteurAction | UpgradeEffect::DiscardFacedownOnDefenseDie,
        ) => true,
        _ => false,
    }
}

fn icon_of(e: Option<UpgradeEffect>) -> (kind: Option<ActionKind>)
    ensures
        kind == icon(e),
{
    match e {
        Some(UpgradeEffect::BarGainsTargetLock) => Some(ActionKind::TargetLock),
        Some(UpgradeEffect::BarGainsBoost) => Some(ActionKind::Boost),
        Some(UpgradeEffect::BarGainsBarrelRoll) => Some(ActionKind::BarrelRoll),
        Some(UpgradeEffect::BarGainsEvade) => Some(ActionKind::Evade),
        _ => None,
    }
}

/// Is the icon on the bar?
pub fn has_icon(bar: &Vec<ActionKind>, kind: ActionKind) -> (found: bool)
    ensures
        found == bar@.contains(kind),
{
    let mut k: usize = 0;
    while k < bar.len()
        invariant
            k <= bar.len(),
            forall|j: int| 0 <= j < k ==> bar@[j] != kind,
        decreases bar.len() - k,
    {
        if bar[k] == kind {
            assert(bar@[k as int] == kind);
            return true;
        }
        k = k + 1;
    }
    false
}

fn one(yes: bool) -> (n: u8)
    ensures
        n == one_if(yes),
{
    if yes {
        1
    } else {
        0
    }
}

impl GameState {
    pub fn class_of<'a>(&self, content: &'a Content, s: &ShipState) -> (class: &'a ShipClass)
        requires
            content.chassis(s.class) is Some,
        ensures
            *class == content.chassis(s.class)->0,
    {
        match content.ships.class(s.class) {
            Some(class) => class,
            None => {
                assert(false);
                &content.ships.classes[0]
            },
        }
    }

    /// Does the game fit the printed content?
    pub fn is_known(&self, content: &Content) -> (yes: bool)
        ensures
            yes == self@.known(*content),
    {
        let seats: usize = self.white_reds.len();
        if seats == 0 || self.committed.len() != seats || self.teams.len() > seats || (
        self.initiative.0 as usize) >= seats || !self.can_reserve_fly(content) {
            return false;
        }
        let mut k: usize = 0;
        while k < self.ships.len()
            invariant
                k <= self.ships.len(),
                seats == self@.frame().seats,
                forall|j: int|
                    0 <= j < k ==> {
                        let s = #[trigger] self@.frame().ships[j];
                        &&& content.chassis(s.class) is Some
                        &&& content.has_dial(s.class)
                        &&& s.owner.0 < seats
                    },
            decreases self.ships.len() - k,
        {
            assert(self@.frame().ships[k as int] == self@.ships[k as int].identity());
            let flies = match content.ships.class(self.ships[k].class) {
                Some(class) => content.dials.set(class.maneuver_set).is_some(),
                None => false,
            };
            if !flies || self.ships[k].owner.0 as usize >= seats {
                return false;
            }
            k = k + 1;
        }
        true
    }

    fn can_reserve_fly(&self, content: &Content) -> (yes: bool)
        ensures
            yes == self@.frame().reserve_flies(*content),
    {
        if let Some(m) = &self.mission {
            if let Some(id) = m.reserve {
                if let Some(pilot) = content.pilots.pilot(id) {
                    if let Some(class) = content.ships.class(pilot.class) {
                        return content.dials.set(class.maneuver_set).is_some();
                    }
                }
            }
        }
        true
    }

    /// The cards of a list that count for a ship: an Injured Pilot crit
    /// silences elite talents.
    pub fn heed(&self, content: &Content, s: &ShipState, cards: &Vec<UpgradeId>) -> (kept: Vec<
        UpgradeId,
    >)
        ensures
            kept@ == s@.heeded(*content, cards@),
    {
        if has_crit(s.crits.as_slice(), CritEffect::InjuredPilot) {
            drop_talents(content, cards)
        } else {
            copy_cards(cards)
        }
    }

    /// How many cards with the effect count for a ship.
    pub fn count_effect(&self, content: &Content, s: &ShipState, e: UpgradeEffect) -> (n: u8)
        ensures
            n == s@.effects(*content, e),
    {
        let cards = self.heed(content, s, &s.upgrades);
        let mut n: usize = 0;
        let mut i: usize = 0;
        while i < cards.len()
            invariant
                n <= i <= cards.len(),
                n == carried(*content, cards@.take(i as int), e),
            decreases cards.len() - i,
        {
            assert(cards@.take(i + 1).drop_last() =~= cards@.take(i as int));
            if content.effect(cards[i]) == Some(e) {
                n = n + 1;
            }
            i = i + 1;
        }
        assert(cards@.take(i as int) =~= cards@);
        (n % 256) as u8
    }

    pub fn has_effect(&self, content: &Content, i: usize, e: UpgradeEffect) -> (yes: bool)
        requires
            i < self@.ships.len(),
        ensures
            yes == self@.has(*content, i as int, e),
    {
        self.count_effect(content, &self.ships[i], e) > 0
    }

    /// The first equipped card carrying effect `e` (to discard it).
    pub fn card_with_effect(&self, content: &Content, i: usize, e: UpgradeEffect) -> (card: Option<
        UpgradeId,
    >)
        requires
            i < self@.ships.len(),
        ensures
            card == self@.card(*content, i as int, e),
    {
        find_card(content, &self.heed(content, &self.ships[i], &self.ships[i].upgrades), e)
    }

    /// The pilot's card ability, unless an Injured Pilot crit has
    /// silenced it.
    pub fn ability(&self, content: &Content, s: &ShipState) -> (ability: Option<PilotAbility>)
        ensures
            ability == s@.ability(*content),
    {
        if has_crit(s.crits.as_slice(), CritEffect::InjuredPilot) {
            return None;
        }
        match content.pilots.pilot(s.pilot) {
            Some(p) => p.ability,
            None => None,
        }
    }

    /// Does ship `i` fly with the ability?
    pub fn has_ability(&self, content: &Content, i: usize, a: PilotAbility) -> (yes: bool)
        requires
            i < self@.ships.len(),
        ensures
            yes == self@.can(*content, i as int, a),
    {
        self.ability(content, &self.ships[i]) == Some(a)
    }

    /// Printed stats: the pilot card's own block when it has one, else
    /// the chassis values.
    pub fn printed(&self, content: &Content, s: &ShipState) -> (stats: StatBlock)
        requires
            content.chassis(s.class) is Some,
        ensures
            stats == s@.printed(*content),
    {
        if let Some(p) = content.pilots.pilot(s.pilot) {
            if let Some(stats) = p.stats {
                return stats;
            }
        }
        self.class_of(content, s).stats()
    }

    /// Hull value with Hull Upgrade.
    pub fn max_hull(&self, content: &Content, s: &ShipState) -> (hull: u8)
        requires
            content.chassis(s.class) is Some,
        ensures
            hull == s@.full_hull(*content),
    {
        self.printed(content, s).hull.saturating_add(
            self.count_effect(content, s, UpgradeEffect::HullPlus1),
        )
    }

    /// Shield value with Shield Upgrade.
    pub fn max_shields(&self, content: &Content, s: &ShipState) -> (shields: u8)
        requires
            content.chassis(s.class) is Some,
        ensures
            shields == s@.full_shields(*content),
    {
        self.printed(content, s).shields.saturating_add(
            self.count_effect(content, s, UpgradeEffect::ShieldPlus1),
        )
    }

    /// Pilot skill after upgrades (Veteran Instincts +2, Adaptability
    /// ±1) and crits: a Damaged Cockpit drops it to 0, from the round after
    /// it was dealt on.
    pub fn effective_skill(&self, content: &Content, s: &ShipState) -> (skill: u8)
        requires
            content.chassis(s.class) is Some,
        ensures
            skill == s@.skill(*content),
    {
        if count_crits(&s.crits, CritEffect::DamagedCockpit) > s.fresh_cockpits as usize {
            return 0;
        }
        // "Epsilon Ace": skill 12 while no Damage card is assigned.
        if self.ability(content, s) == Some(PilotAbility::SkillTwelveWhileUndamaged) && s.hull
            == self.max_hull(content, s) {
            return 12;
        }
        let base: i16 = match content.pilots.pilot(s.pilot) {
            Some(p) => p.skill as i16,
            None => 0,
        };
        let up: i16 = 2 * (self.count_effect(content, s, UpgradeEffect::SkillPlus2) as i16)
            + self.count_effect(content, s, UpgradeEffect::SkillPlus1) as i16
            - self.count_effect(content, s, UpgradeEffect::SkillMinus1) as i16;
        let skill: i16 = base + up;
        if skill < 0 {
            0
        } else if skill > 12 {
            12
        } else {
            skill as u8
        }
    }

    /// Facedown Damage cards on ship `i`: hull lost beyond the faceup ones.
    pub fn facedown_cards(&self, content: &Content, i: usize) -> (n: u8)
        requires
            i < self@.ships.len(),
            self@.known(*content),
        ensures
            n == self@.ships[i as int].facedown(*content),
    {
        assert(self@.frame().ships[i as int] == self@.ships[i as int].identity());
        let s = &self.ships[i];
        let lost: u8 = self.max_hull(content, s).saturating_sub(s.hull);
        lost.saturating_sub((s.crits.len() % 256) as u8)
    }

    /// Was a card action with effect `e` performed this round?
    pub fn card_action_active(&self, content: &Content, s: &ShipState, e: UpgradeEffect) -> (yes:
        bool)
        ensures
            yes == s@.acting(*content, e),
    {
        find_card(content, &self.heed(content, s, &s.card_actions), e).is_some()
    }

    /// The card with the effect that is switched on for this round.
    pub fn using(&self, content: &Content, i: usize, e: UpgradeEffect) -> (card: Option<UpgradeId>)
        requires
            i < self@.ships.len(),
        ensures
            card == self@.ships[i as int].using(*content, e),
    {
        find_card(content, &self.heed(content, &self.ships[i], &self.ships[i].card_uses), e)
    }

    /// May ship `i` perform a free action right now (not stressed, no
    /// Damaged Sensor Array, alive)?
    pub fn may_act_freely(&self, content: &Content, i: usize) -> (yes: bool)
        requires
            i < self@.ships.len(),
        ensures
            yes == self@.ships[i as int].free_to_act(*content),
    {
        let s = &self.ships[i];
        !s.destroyed && (s.stress == 0 || self.ability(content, s) == Some(
            PilotAbility::ActionsWhileStressed,
        )) && !has_crit(s.crits.as_slice(), CritEffect::DamagedSensorArray)
    }

    /// Action bar with icons granted by modifications (Targeting
    /// Computer, Engine Upgrade, Vectored Thrusters).
    pub fn action_bar(&self, content: &Content, s: &ShipState) -> (bar: Vec<ActionKind>)
        requires
            content.chassis(s.class) is Some,
        ensures
            bar@ == s@.bar(*content),
    {
        let printed = &self.class_of(content, s).action_bar;
        let mut bar: Vec<ActionKind> = Vec::new();
        let mut k: usize = 0;
        while k < printed.len()
            invariant
                k <= printed.len(),
                bar@ == printed@.take(k as int),
            decreases printed.len() - k,
        {
            bar.push(printed[k]);
            k = k + 1;
            assert(printed@.take(k as int) =~= printed@.take(k - 1).push(printed@[k - 1]));
        }
        assert(printed@.take(k as int) =~= printed@);
        let cards = self.heed(content, s, &s.upgrades);
        let mut i: usize = 0;
        assert(cards@.take(0) =~= Seq::<UpgradeId>::empty());
        while i < cards.len()
            invariant
                i <= cards.len(),
                bar@ == bar_with(*content, printed@, cards@.take(i as int)),
            decreases cards.len() - i,
        {
            assert(cards@.take(i + 1).drop_last() =~= cards@.take(i as int));
            if let Some(kind) = icon_of(content.effect(cards[i])) {
                if !has_icon(&bar, kind) {
                    bar.push(kind);
                }
            }
            i = i + 1;
        }
        assert(cards@.take(i as int) =~= cards@);
        bar
    }

    /// Cards whose effect is a per-round choice: switched on with the dial.
    pub fn toggle_cards(&self, content: &Content, s: &ShipState) -> (cards: Vec<UpgradeId>)
        ensures
            cards@ == toggles(*content, s@.active(*content)),
    {
        let own = self.heed(content, s, &s.upgrades);
        let mut cards: Vec<UpgradeId> = Vec::new();
        let mut i: usize = 0;
        assert(own@.take(0) =~= Seq::<UpgradeId>::empty());
        while i < own.len()
            invariant
                i <= own.len(),
                cards@ == toggles(*content, own@.take(i as int)),
            decreases own.len() - i,
        {
            assert(own@.take(i + 1).drop_last() =~= own@.take(i as int));
            if is_toggled(content.effect(own[i])) {
                cards.push(own[i]);
            }
            i = i + 1;
        }
        assert(own@.take(i as int) =~= own@);
        cards
    }

    /// Range band between two ships (None if either is off the board
    /// or they are beyond Range 3).
    pub fn range_between(&self, sight: &Sight, i: usize, j: usize) -> (band: Option<u8>)
        requires
            i < self@.ships.len(),
            j < self@.ships.len(),
        ensures
            band == self@.range(*sight, i as int, j as int),
    {
        if self.ships[i].pose.is_some() && self.ships[j].pose.is_some() {
            sight.line(i, j).band
        } else {
            None
        }
    }

    /// Is ship `target` inside ship `shooter`'s forward firing arc?
    pub fn ship_in_front_arc(&self, sight: &Sight, shooter: usize, target: usize) -> (yes: bool)
        requires
            shooter < self@.ships.len(),
            target < self@.ships.len(),
        ensures
            yes == self@.in_arc(*sight, shooter as int, target as int),
    {
        self.ships[shooter].pose.is_some() && self.ships[target].pose.is_some() && sight.line(
            shooter,
            target,
        ).in_arc
    }

    /// Other living friendly ships within Range 1-`band` of ship `s`.
    pub fn friends_within(&self, sight: &Sight, s: usize, band: u8) -> (friends: Vec<usize>)
        requires
            s < self@.ships.len(),
        ensures
            friends@ == self@.near(*sight, s as int, band),
            forall|k: int| 0 <= k < friends@.len() ==> #[trigger] friends@[k] < self@.ships.len(),
    {
        let test = |o: usize| -> (yes: bool)
            requires
                o < self@.ships.len(),
            ensures
                yes == obeys(self@.friend_rule(*sight, s as int, band), o),
        {
            o != s && self.allied(self.ships[o].owner, self.ships[s].owner)
                && !self.ships[o].destroyed && match self.range_between(sight, s, o) {
                Some(r) => r <= band,
                None => false,
            }
        };
        pick(self.ships.len(), test, Ghost(self@.friend_rule(*sight, s as int, band)))
    }

    fn enemy_is_close(&self, sight: &Sight, i: usize, e: usize) -> (yes: bool)
        requires
            i < self@.ships.len(),
            e < self@.ships.len(),
        ensures
            yes == self@.enemy_close(*sight, i as int, e as int),
    {
        !self.allied(self.ships[e].owner, self.ships[i].owner) && !self.ships[e].destroyed
            && self.range_between(sight, i, e) == Some(1)
    }

    /// Is a living enemy of ship `i` with `ability` at Range 1 of it?
    pub fn enemy_ability_at_range1(
        &self,
        content: &Content,
        sight: &Sight,
        i: usize,
        a: PilotAbility,
    ) -> (yes: bool)
        requires
            i < self@.ships.len(),
        ensures
            yes == self@.enemy_ability(*content, *sight, i as int, a),
    {
        reveal(Game::enemy_ability);
        let test = |e: usize| -> (yes: bool)
            requires
                e < self@.ships.len(),
            ensures
                yes == obeys(self@.enemy_ability_rule(*content, *sight, i as int, a), e),
        { self.enemy_is_close(sight, i, e) && self.has_ability(content, e, a) };
        find(
            self.ships.len(),
            test,
            Ghost(self@.enemy_ability_rule(*content, *sight, i as int, a)),
        ).is_some()
    }

    /// Carnor Jax at Range 1: no focus or evade actions, no spending
    /// focus or evade tokens.
    pub fn carnor_near(&self, content: &Content, sight: &Sight, i: usize) -> (yes: bool)
        requires
            i < self@.ships.len(),
        ensures
            yes == self@.carnor(*content, *sight, i as int),
    {
        self.enemy_ability_at_range1(content, sight, i, PilotAbility::DenyFocusEvadeAtRange1)
    }

    /// Any living enemy inside ship `i`'s firing arc at Range 1?
    pub fn enemy_in_arc_at_range1(&self, sight: &Sight, i: usize) -> (yes: bool)
        requires
            i < self@.ships.len(),
        ensures
            yes == self@.enemy_in_arc(*sight, i as int),
    {
        reveal(Game::enemy_in_arc);
        let test = |e: usize| -> (yes: bool)
            requires
                e < self@.ships.len(),
            ensures
                yes == obeys(self@.enemy_arc_rule(*sight, i as int), e),
        { self.enemy_is_close(sight, i, e) && self.ship_in_front_arc(sight, i, e) };
        find(self.ships.len(), test, Ghost(self@.enemy_arc_rule(*sight, i as int))).is_some()
    }

    fn enemy_near(&self, sight: &Sight, i: usize) -> (yes: bool)
        requires
            i < self@.ships.len(),
        ensures
            yes == self@.enemy_at_range1(*sight, i as int),
    {
        reveal(Game::enemy_at_range1);
        let test = |e: usize| -> (yes: bool)
            requires
                e < self@.ships.len(),
            ensures
                yes == obeys(self@.enemy_close_rule(*sight, i as int), e),
        { self.enemy_is_close(sight, i, e) };
        find(self.ships.len(), test, Ghost(self@.enemy_close_rule(*sight, i as int))).is_some()
    }

    /// Is ship `i` touching (bases in contact with) an enemy ship that
    /// carries Intimidation?
    pub fn touching_intimidator(&self, content: &Content, sight: &Sight, i: usize) -> (yes: bool)
        requires
            i < self@.ships.len(),
        ensures
            yes == self@.intimidated(*content, *sight, i as int),
    {
        reveal(Game::intimidated);
        if self.ships[i].pose.is_none() {
            return false;
        }
        let test = |k: usize| -> (yes: bool)
            requires
                k < self@.ships.len(),
            ensures
                yes == obeys(self@.intimidator_rule(*content, *sight, i as int), k),
        {
            !self.allied(self.ships[k].owner, self.ships[i].owner) && !self.ships[k].destroyed
                && self.has_effect(content, k, UpgradeEffect::ReduceAgilityWhileTouching)
                && self.ships[k].pose.is_some() && sight.line(i, k).dist == 0
        };
        find(
            self.ships.len(),
            test,
            Ghost(self@.intimidator_rule(*content, *sight, i as int)),
        ).is_some()
    }

    /// Targeting Synchronizer: a friend within Range 1-2 of the attacker
    /// holds a lock on `target` and shares it.
    pub fn synced_lock(&self, content: &Content, sight: &Sight, i: usize, target: ShipId) -> (yes:
        bool)
        requires
            i < self@.ships.len(),
        ensures
            yes == self@.synced(*content, *sight, i as int, target),
    {
        reveal(Game::synced);
        let friends = self.friends_within(sight, i, 2);
        let test = |k: usize| -> (yes: bool)
            requires
                k < friends@.len(),
            ensures
                yes == obeys(self@.synced_rule(*content, friends@, target), k),
        {
            self.ships[friends[k]].locks_on(target) && self.has_effect(
                content,
                friends[k],
                UpgradeEffect::ShareLockWithFriendly,
            )
        };
        find(
            friends.len(),
            test,
            Ghost(self@.synced_rule(*content, friends@, target)),
        ).is_some()
    }

    /// Agility with Stealth Device (+1 while equipped) and Structural
    /// Damage crits (−1 each).
    pub fn agility(&self, content: &Content, sight: &Sight, i: usize) -> (agility: u8)
        requires
            i < self@.ships.len(),
            self@.known(*content),
        ensures
            agility == self@.agility(*content, *sight, i as int),
    {
        reveal(Game::agility);
        assert(self@.frame().ships[i as int] == self@.ships[i as int].identity());
        let s = &self.ships[i];
        let structural: u8 = tally_crits(&s.crits, CritEffect::StructuralDamage);
        // Gemmer Sojan: +1 agility while an enemy ship is at Range 1.
        let gemmer = self.has_ability(content, i, PilotAbility::AgilityPlus1IfEnemyAtRange1)
            && self.enemy_near(sight, i);
        let r2f2: u8 = one(
            self.card_action_active(content, s, UpgradeEffect::AgilityPlus1Action),
        );
        let expose: u8 = one(self.card_action_active(content, s, UpgradeEffect::ExposeAction));
        let up: u8 = self.printed(content, s).agility.saturating_add(
            self.count_effect(content, s, UpgradeEffect::AgilityPlus1DiscardWhenHit),
        ).saturating_add(one(gemmer)).saturating_add(r2f2);
        let down: u8 = structural.saturating_add(expose).saturating_add(s.tractor);
        up.saturating_sub(down)
    }

    /// Weapons Engineer (crew): two target locks may be held.
    pub fn two_locks(&self, content: &Content, i: usize) -> (yes: bool)
        requires
            i < self@.ships.len(),
        ensures
            yes == self@.two_locks(*content, i as int),
    {
        self.has_effect(content, i, UpgradeEffect::CrewTwoLocks)
    }

    /// The color a maneuver is flown at by ship `i`: crits first (Damaged
    /// Engine / Thrust Control Fire redden), then cards that green it (R2
    /// Astromech speed 1-2 straights, Nien Nunb crew straights, Twin Ion
    /// Engine Mk. II banks), Ello Asty's white Tallon Rolls while
    /// unstressed, and Adrenaline Rush turning a red maneuver white — the
    /// second value is that card, to discard when the maneuver is flown.
    pub fn maneuver_difficulty(&self, content: &Content, i: usize, man: &Maneuver) -> (flown: (
        Difficulty,
        Option<UpgradeId>,
    ))
        requires
            i < self@.ships.len(),
            self@.known(*content),
        ensures
            flown == self@.difficulty(*content, i as int, *man),
    {
        reveal(Game::difficulty);
        assert(self@.frame().ships[i as int] == self@.ships[i as int].identity());
        let s = &self.ships[i];
        let mut d = effective_difficulty(s.crits.as_slice(), man);
        let straight = man.steer == Steer::Straight;
        let bank = man.steer == Steer::BankLeft || man.steer == Steer::BankRight;
        let tallon = man.steer == Steer::TallonLeft || man.steer == Steer::TallonRight;
        if d == Difficulty::Hard && tallon && s.stress == 0 && self.has_ability(
            content,
            i,
            PilotAbility::TallonWhiteWhileUnstressed,
        ) {
            d = Difficulty::Normal;
        }
        if (straight && man.distance <= 2 && self.has_effect(
            content,
            i,
            UpgradeEffect::Speed1And2AreGreen,
        )) || (straight && self.has_effect(content, i, UpgradeEffect::CrewStraightsAreGreen)) || (
        bank && self.has_effect(content, i, UpgradeEffect::BanksAreGreen)) {
            d = Difficulty::Easy;
        }
        // Leia Organa (crew), discarded this round: reds are white.
        if d == Difficulty::Hard && self.white_reds[s.owner.0 as usize] {
            d = Difficulty::Normal;
        }
        if d == Difficulty::Hard {
            if let Some(card) = self.card_with_effect(
                content,
                i,
                UpgradeEffect::TreatRedAsWhiteDiscard,
            ) {
                return (Difficulty::Normal, Some(card));
            }
        }
        (d, None)
    }

    /// Agent Kallus / A Score to Settle: the enemy chosen at setup — the
    /// most expensive one (lowest id on a tie), chosen once and for all.
    pub fn marked_enemy(&self, content: &Content, i: usize, e: UpgradeEffect) -> (id: Option<
        ShipId,
    >)
        requires
            i < self@.ships.len(),
        ensures
            id == self@.marked(*content, i as int, e),
    {
        reveal(Game::marked);
        if !self.has_effect(content, i, e) {
            return None;
        }
        let mut best: Option<usize> = None;
        let mut k: usize = 0;
        while k < self.ships.len()
            invariant
                k <= self.ships.len(),
                best is Some ==> best->0 < self@.ships.len(),
                self@.marked_from(*content, i as int, k as int, best) == self@.marked_from(
                    *content,
                    i as int,
                    0,
                    None,
                ),
            decreases self.ships.len() - k,
        {
            if !self.allied(self.ships[k].owner, self.ships[i].owner) {
                match best {
                    None => {
                        best = Some(k);
                    },
                    Some(b) => {
                        let ca: u8 = match content.pilots.pilot(self.ships[b].pilot) {
                            Some(p) => p.cost,
                            None => 0,
                        };
                        let cb: u8 = match content.pilots.pilot(self.ships[k].pilot) {
                            Some(p) => p.cost,
                            None => 0,
                        };
                        if cb > ca || (cb == ca && self.ships[k].id.0 <= self.ships[b].id.0) {
                            best = Some(k);
                        }
                    },
                }
            }
            k = k + 1;
        }
        match best {
            Some(b) => Some(self.ships[b].id),
            None => None,
        }
    }

    fn card_action_list(&self, content: &Content, sight: &Sight, i: usize) -> (cards: Vec<
        UpgradeId,
    >)
        requires
            i < self@.ships.len(),
        ensures
            cards@ == self@.card_actions(*content, *sight, i as int),
    {
        reveal(Game::card_actions);
        let test = |y: usize| -> (yes: bool)
            requires
                y < self@.ships.len(),
            ensures
                yes == obeys(self@.youngster_rule(*content, *sight, i as int), y),
        {
            y != i && self.allied(self.ships[y].owner, self.ships[i].owner)
                && !self.ships[y].destroyed && self.ships[y].class == self.ships[i].class
                && self.has_ability(content, y, PilotAbility::ShareTalentAction)
                && self.range_between(sight, i, y).is_some()
        };
        // Youngster: friendly ships of his class at Range 1-3 may use
        // his talent's action.
        let lenders = pick(
            self.ships.len(),
            test,
            Ghost(self@.youngster_rule(*content, *sight, i as int)),
        );
        let mut all: Vec<UpgradeId> = copy_cards(&self.ships[i].upgrades);
        let ghost goal = self@.ships[i as int].upgrades + self@.cards_of(lenders@, 0);
        let mut k: usize = 0;
        while k < lenders.len()
            invariant
                k <= lenders.len(),
                all@ + self@.cards_of(lenders@, k as int) == goal,
            decreases lenders.len() - k,
        {
            let ghost before = all@;
            let mut more: Vec<UpgradeId> = copy_cards(&self.ships[lenders[k]].upgrades);
            all.append(&mut more);
            k = k + 1;
            assert(all@ + self@.cards_of(lenders@, k as int) =~= before + self@.cards_of(
                lenders@,
                k - 1,
            ));
        }
        assert(all@ =~= goal);
        let all = self.heed(content, &self.ships[i], &all);
        let mut cards: Vec<UpgradeId> = Vec::new();
        let mut j: usize = 0;
        assert(all@.take(0) =~= Seq::<UpgradeId>::empty());
        while j < all.len()
            invariant
                j <= all.len(),
                cards@ == actions(*content, all@.take(j as int)),
            decreases all.len() - j,
        {
            assert(all@.take(j + 1).drop_last() =~= all@.take(j as int));
            if is_actionable(content.effect(all[j])) {
                cards.push(all[j]);
            }
            j = j + 1;
        }
        assert(all@.take(j as int) =~= all@);
        cards
    }

    /// What ship `i` may plan beyond its action bar.
    pub fn action_extras(&self, content: &Content, sight: &Sight, i: usize) -> (extras:
        ActionExtras)
        requires
            i < self@.ships.len(),
        ensures
            extras@ == self@.extras(*content, *sight, i as int),
    {
        reveal(Game::second_action);
        let s = &self.ships[i];
        let ability = self.ability(content, s);
        let second = if ability == Some(PilotAbility::TwoActions) {
            Some(SecondActionKind::TwoActions)
        } else if self.has_effect(content, i, UpgradeEffect::FreeActionThenStress) {
            Some(SecondActionKind::FreeBarAction)
        } else if ability == Some(PilotAbility::FreeBoostAfterSpeed2To4) {
            Some(SecondActionKind::BoostAfterMove)
        } else if ability == Some(PilotAbility::FreeRepositionAfterFocus) {
            Some(SecondActionKind::RepositionAfterFocus)
        } else if self.has_effect(content, i, UpgradeEffect::FreeBarrelRollOnGreen) {
            Some(SecondActionKind::RollOnGreenReveal)
        } else if ability == Some(PilotAbility::FreeRepositionAfterAttack) {
            Some(SecondActionKind::RepositionAfterAttack)
        } else if find_unused_card(
            content,
            &self.heed(content, s, &s.upgrades),
            &s.used_round,
            UpgradeEffect::ExtraActionThenStress,
        ).is_some() {
            Some(SecondActionKind::CardActionThenStress)
        } else {
            None
        };
        ActionExtras {
            second,
            turn_boost: ability == Some(PilotAbility::BoostWithTurnTemplate),
            far_roll: ability == Some(PilotAbility::BarrelRollWithStraight2),
            card_actions: self.card_action_list(content, sight, i),
            bank_roll: ability == Some(PilotAbility::BarrelRollWithBank1ForStress),
            expert_roll: self.has_effect(content, i, UpgradeEffect::BarrelRollActionDiscardLock),
            daredevil: self.has_effect(content, i, UpgradeEffect::RedTurn1Action),
            toggles: self.toggle_cards(content, s),
        }
    }
}

} // verus!
