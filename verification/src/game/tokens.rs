//! Tokens, locks, damage and discarded cards.

#![verifier::loop_isolation(false)]

use vstd::prelude::*;

use crate::crit::{draw, drawn, worst, CritEffect};
use crate::data::Content;
use crate::dice::{attack_face, AttackFace, Dice};
use crate::event::{Event, Locker, Why};
use crate::game::cards::{find_unused_card, unused_card};
use crate::game::state::{Game, GameState, Play};
use crate::pick::{find, first, obeys, pick, picked};
use crate::pilot::PilotAbility;
use crate::ship::{drop_card, has_card, sat, ShipId, ShipModel};
use crate::sight::Sight;
use crate::upgrade::{Slot, UpgradeEffect, UpgradeId};

verus! {

broadcast use crate::game::state::framing;

/// Outcome of one point of damage.
#[derive(Debug, Clone, Copy, PartialEq, Eq, Structural)]
pub enum DamagePoint {
    Shield,
    Hull,
    Nothing,
}

/// A list without the first copy of a card.
pub open spec fn without_first(cards: Seq<UpgradeId>, card: UpgradeId) -> Seq<UpgradeId>
    decreases cards.len(),
{
    if cards.len() == 0 {
        cards
    } else if cards[0] == card {
        cards.skip(1)
    } else {
        seq![cards[0]] + without_first(cards.skip(1), card)
    }
}

proof fn without_first_removes(cards: Seq<UpgradeId>, card: UpgradeId, k: int)
    requires
        0 <= k < cards.len(),
        cards[k] == card,
        forall|j: int| 0 <= j < k ==> cards[j] != card,
    ensures
        without_first(cards, card) == cards.remove(k),
    decreases cards.len(),
{
    if k == 0 {
        assert(cards.skip(1) =~= cards.remove(0));
    } else {
        without_first_removes(cards.skip(1), card, k - 1);
        assert(seq![cards[0]] + cards.skip(1).remove(k - 1) =~= cards.remove(k));
    }
}

/// What a point of damage takes from a ship.
pub open spec fn point(s: ShipModel) -> DamagePoint {
    if s.shields > 0 {
        DamagePoint::Shield
    } else if s.hull > 0 {
        DamagePoint::Hull
    } else {
        DamagePoint::Nothing
    }
}

impl Game {
    /// Ship `i` suffers one point of damage.
    pub open spec fn damaged(self, i: int) -> Game {
        self.with_ship(i, self.ships[i].hit())
    }

    /// Ship `i` suffers one point past its shields.
    pub open spec fn hulled(self, i: int) -> Game {
        self.with_ship(i, self.ships[i].hull_hit())
    }

    /// The once-per-round card with the effect that ship `i` can still use.
    pub open spec fn unused(self, content: Content, i: int, e: UpgradeEffect) -> Option<UpgradeId> {
        unused_card(content, self.ships[i].active(content), self.ships[i].used_round, e)
    }

    /// The card is marked as used this round.
    pub open spec fn marking(self, i: int, card: UpgradeId) -> Game {
        self.with_ship(
            i,
            ShipModel { used_round: self.ships[i].used_round.push(card), ..self.ships[i] },
        )
    }

    /// After use of a once-per-round card, where there is one.
    pub open spec fn used(self, content: Content, i: int, e: UpgradeEffect) -> Game {
        match self.unused(content, i, e) {
            Some(card) => self.marking(i, card),
            None => self,
        }
    }

    /// After an ordnance token on the card was spent, where there is one.
    pub open spec fn ordnance_spent(self, i: int, card: UpgradeId) -> Game {
        if self.ships[i].ordnance.contains(card) {
            self.with_ship(
                i,
                ShipModel {
                    ordnance: without_first(self.ships[i].ordnance, card),
                    ..self.ships[i]
                },
            ).saying(Event::OrdnanceSpent(i as usize, card))
        } else {
            self
        }
    }

    /// Tomax Bren: once per round a discarded Elite Pilot Talent is
    /// flipped faceup again.
    pub open spec fn tomax(self, content: Content, i: int, card: UpgradeId) -> bool {
        content.fits(card) == Some(Slot::Talent) && self.can(
            content,
            i,
            PilotAbility::FlipTalentFaceupAfterDiscard,
        ) && !self.ships[i].used_round.contains(card)
    }

    /// The card is discarded, unless Tomax Bren keeps it.
    pub open spec fn discarding(self, content: Content, i: int, card: UpgradeId, why: Why) -> Game {
        let kept = self.tomax(content, i, card);
        let ship = if kept {
            ShipModel { used_round: self.ships[i].used_round.push(card), ..self.ships[i] }
        } else {
            self.ships[i].without(card)
        };
        self.with_ship(i, ship).saying(Event::Discarded { ship: i as usize, card, why, kept })
    }

    /// Which enemies ship `i` could lock within `bands` range bands.
    pub open spec fn lock_rule(self, sight: Sight, i: int, bands: u8) -> spec_fn(int) -> bool {
        |e: int|
            !self.same_side(e, i) && !self.ships[e].destroyed && !self.ships[i].locks(
                self.ships[e].id,
            ) && self.ships[e].pose is Some && sight.at(i, e).band is Some && sight.at(
                i,
                e,
            ).band->0 <= bands
    }

    pub open spec fn kagi_rule(self, content: Content, places: Seq<usize>) -> spec_fn(int) -> bool {
        |k: int| self.can(content, places[k] as int, PilotAbility::EnemyLocksMustTargetMe)
    }

    /// The lock that ship `i` takes by itself: Captain Kagi if lockable, else
    /// the nearest enemy within `bands`; none when it has no free lock.
    pub open spec fn lock_choice(
        self,
        content: Content,
        sight: Sight,
        i: int,
        bands: u8,
    ) -> Option<usize> {
        let open = picked(self.lock_rule(sight, i, bands), 0, self.ships.len() as int);
        if !self.ships[i].can_lock(self.two_locks(content, i)) || self.ships[i].destroyed
            || self.ships[i].pose is None {
            None
        } else {
            match first(self.kagi_rule(content, open), 0, open.len() as int) {
                Some(k) => Some(open[k as int]),
                None => nearest(sight, i, open, 0, None),
            }
        }
    }

    /// Ship `i` takes a lock on ship `e`.
    pub open spec fn locking(self, content: Content, i: int, e: int) -> Game {
        self.with_ship(
            i,
            self.ships[i].locking(self.ships[e].id, self.two_locks(content, i)),
        )
    }

    /// After ship `i` took a lock by itself, where it could.
    pub open spec fn auto_locking(
        self,
        content: Content,
        sight: Sight,
        i: int,
        bands: u8,
        who: Locker,
    ) -> Game {
        match self.lock_choice(content, sight, i, bands) {
            Some(e) => self.locking(content, i, e as int).saying(
                Event::Locks(i as usize, who, e),
            ),
            None => self,
        }
    }

    /// Which other enemies a Weapons Engineer on ship `i` could lock too.
    pub open spec fn second_lock_rule(
        self,
        sight: Sight,
        i: int,
        already: ShipId,
    ) -> spec_fn(int) -> bool {
        |e: int|
            self.ships[e].id != already && !self.ships[e].destroyed && !self.same_side(e, i)
                && !self.ships[i].locks(self.ships[e].id) && self.ships[e].pose is Some
                && sight.at(i, e).band is Some && sight.at(i, e).band->0 <= 3
    }

    /// Weapons Engineer: the nearest other enemy within Range 1-3 is locked
    /// as well.
    pub open spec fn second_locking(self, sight: Sight, i: int, already: ShipId) -> Game {
        let open = picked(self.second_lock_rule(sight, i, already), 0, self.ships.len() as int);
        match nearest(sight, i, open, 0, None) {
            Some(e) => if self.ships[i].pose is Some {
                self.with_ship(i, self.ships[i].locking(self.ships[e as int].id, true)).saying(
                    Event::SecondLock(i as usize, e),
                )
            } else {
                self
            },
            None => self,
        }
    }

    pub open spec fn lock_holder_rule(self, i: int, target: ShipId) -> spec_fn(int) -> bool {
        |e: int| !self.same_side(e, i) && self.ships[e].locks(target)
    }

    /// Black One: the first of the friends from `k` on that an enemy holds a
    /// lock on is freed of it.
    pub open spec fn freeing_from(self, i: int, friends: Seq<usize>, k: int) -> Game
        decreases friends.len() - k,
    {
        if k >= friends.len() {
            self
        } else {
            let f = friends[k] as int;
            match first(
                self.lock_holder_rule(i, self.ships[f].id),
                0,
                self.ships.len() as int,
            ) {
                Some(e) => self.with_ship(
                    e as int,
                    self.ships[e as int].unlocking(self.ships[f].id),
                ).saying(Event::BlackOne { ship: i as usize, enemy: e, friend: friends[k] }),
                None => self.freeing_from(i, friends, k + 1),
            }
        }
    }

    /// Black One: after a boost or barrel roll, one enemy lock on a friendly
    /// ship at Range 1 (this one first) is removed.
    #[verifier::opaque]
    pub open spec fn repositioned(self, content: Content, sight: Sight, i: int) -> Game {
        if !self.has(content, i, UpgradeEffect::RemoveEnemyLockAfterReposition) {
            self
        } else {
            self.freeing_from(i, seq![i as usize] + self.near(sight, i, 1), 0)
        }
    }

    pub open spec fn yorr_rule(self, content: Content, friends: Seq<usize>) -> spec_fn(
        int,
    ) -> bool {
        |k: int|
            self.can(
                content,
                friends[k] as int,
                PilotAbility::AbsorbFriendlyStressAtRange1To2,
            ) && self.ships[friends[k] as int].stress <= 2
    }

    /// Captain Yorr: the friend at Range 1-2 with two or fewer stress tokens
    /// that takes a token meant for ship `i` (never from another Yorr).
    pub open spec fn yorr(self, content: Content, sight: Sight, i: int) -> Option<usize> {
        let friends = self.near(sight, i, 2);
        if self.can(content, i, PilotAbility::AbsorbFriendlyStressAtRange1To2) {
            None
        } else {
            match first(self.yorr_rule(content, friends), 0, friends.len() as int) {
                Some(k) => Some(friends[k as int]),
                None => None,
            }
        }
    }

    /// The pilot's own answer to a stress token just received.
    pub open spec fn stress_answered(self, content: Content, sight: Sight, i: int) -> Game {
        let s = self.ships[i];
        if self.can(content, i, PilotAbility::DiscardStressIfEnemyInArcRange1)
            && self.enemy_in_arc(sight, i) {
            self.with_ship(i, s.less_stress()).saying(Event::StressDiscarded(i as usize))
        } else if self.can(content, i, PilotAbility::FocusOnStress) {
            self.with_ship(i, s.with_focus()).saying(Event::FocusForStress(i as usize))
        } else {
            self
        }
    }

    /// Electronic Baffle sheds the token for one damage that does not
    /// destroy the ship.
    pub open spec fn baffles(self, content: Content, i: int) -> bool {
        self.ships[i].using(content, UpgradeEffect::SystemDamageToDiscardToken) is Some && (
        self.ships[i].shields > 0 || self.ships[i].hull > 1)
    }

    /// Ship `i` itself receives a stress token.
    pub open spec fn taking_stress(self, content: Content, sight: Sight, i: int) -> Game {
        let g = self.with_ship(i, self.ships[i].with_stress());
        if g.baffles(content, i) {
            let g = g.damaged(i);
            g.with_ship(i, g.ships[i].less_stress()).saying(
                Event::BaffleStress(i as usize),
            ).shields_watched(content, i, self.ships[i].shields)
        } else {
            let g = g.stress_answered(content, sight, i);
            match g.card(content, i, UpgradeEffect::FocusOrEvadeOnStress) {
                Some(card) => g.with_ship(i, g.ships[i].with_focus()).discarding(
                    content,
                    i,
                    card,
                    Why::FocusForStress,
                ),
                None => g,
            }
        }
    }

    /// A stress token is meant for ship `i`: Captain Yorr takes it if he can.
    #[verifier::opaque]
    pub open spec fn stressed(self, content: Content, sight: Sight, i: int) -> Game {
        match self.yorr(content, sight, i) {
            Some(y) => self.saying(
                Event::YorrTakesStress { yorr: y, ship: i as usize },
            ).taking_stress(content, sight, y as int),
            None => self.taking_stress(content, sight, i),
        }
    }

    /// Ship `i` removes a stress token if it has one (Kyle Katarn crew
    /// then grants a focus token).
    pub open spec fn unstressed(self, content: Content, i: int) -> Game {
        if self.ships[i].stress == 0 {
            self
        } else {
            let g = self.with_ship(i, self.ships[i].less_stress());
            if g.has(content, i, UpgradeEffect::CrewFocusAfterStressRemoved) {
                g.with_ship(i, g.ships[i].with_focus()).saying(Event::KyleKatarn(i as usize))
            } else {
                g
            }
        }
    }

    /// "Red Ace": the first shield lost each round grants an evade token.
    pub open spec fn shield_lost(self, content: Content, i: int) -> Game {
        let g = if !self.ships[i].shield_lost_round && self.can(
            content,
            i,
            PilotAbility::EvadeOnFirstShieldLoss,
        ) {
            self.with_ship(i, self.ships[i].with_evade()).saying(
                Event::FirstShieldLost(i as usize),
            )
        } else {
            self
        };
        g.with_ship(i, ShipModel { shield_lost_round: true, ..g.ships[i] })
    }

    /// "Red Ace" answers where ship `i` lives and has fewer shields than
    /// before.
    pub open spec fn shields_watched(self, content: Content, i: int, before: u8) -> Game {
        if self.ships[i].shields < before && !self.ships[i].destroyed {
            self.shield_lost(content, i)
        } else {
            self
        }
    }

    /// The ship with the fewest focus tokens among the places from `k` on,
    /// or the best so far.
    pub open spec fn fewest_focus(self, places: Seq<usize>, k: int, best: Option<usize>) -> Option<
        usize,
    >
        decreases places.len() - k,
    {
        if k >= places.len() {
            best
        } else if best is None || self.ships[places[k] as int].focus
            < self.ships[best->0 as int].focus {
            self.fewest_focus(places, k + 1, Some(places[k]))
        } else {
            self.fewest_focus(places, k + 1, best)
        }
    }

    /// "Chaser": each of the places from `k` on with the ability gains a
    /// focus token.
    pub open spec fn chasing(self, content: Content, places: Seq<usize>, k: int) -> Game
        decreases places.len() - k,
    {
        if k >= places.len() {
            self
        } else {
            let f = places[k] as int;
            let g = if self.can(content, f, PilotAbility::FocusWhenFriendlySpendsFocusRange1) {
                self.with_ship(f, self.ships[f].with_focus()).saying(
                    Event::FriendSpentFocus(places[k]),
                )
            } else {
                self
            };
            g.chasing(content, places, k + 1)
        }
    }

    /// Ship `i` spent a focus token: Garven Dreis passes it to the friend at
    /// Range 1-2 with the fewest, and each "Chaser" at Range 1 gains one.
    #[verifier::opaque]
    pub open spec fn focus_spent(self, content: Content, sight: Sight, i: int) -> Game {
        let g = if self.can(content, i, PilotAbility::PassSpentFocusRange1To2) {
            match self.fewest_focus(self.near(sight, i, 2), 0, None) {
                Some(f) => self.with_ship(f as int, self.ships[f as int].with_focus()).saying(
                    Event::GarvenDreis(i as usize, f),
                ),
                None => self,
            }
        } else {
            self
        };
        g.chasing(content, g.near(sight, i, 1), 0)
    }

    /// Cards that go when the ship is hit, from the `k`-th of the list on.
    pub open spec fn hit_discards(self, content: Content, i: int, cards: Seq<UpgradeId>, k: int) -> Game
        decreases cards.len() - k,
    {
        if k >= cards.len() {
            self
        } else if content.does(cards[k]) == Some(UpgradeEffect::AgilityPlus1DiscardWhenHit) {
            self.with_ship(i, self.ships[i].without(cards[k])).saying(
                Event::DiscardedOnHit(i as usize, cards[k]),
            ).hit_discards(content, i, cards, k + 1)
        } else {
            self.hit_discards(content, i, cards, k + 1)
        }
    }

    /// Electronic Baffle (switched on) on ship `i`: ion tokens are shed for
    /// one damage each, never a fatal one.
    pub open spec fn shedding_ion(self, i: int) -> Game
        decreases self.ships[i].ion,
        when 0 <= i < self.ships.len()
    {
        let s = self.ships[i];
        if s.ion > 0 && (s.shields > 0 || s.hull > 1) {
            let g = self.damaged(i);
            g.with_ship(i, ShipModel { ion: (g.ships[i].ion - 1) as u8, ..g.ships[i] }).saying(
                Event::BaffleIon(i as usize),
            ).shedding_ion(i)
        } else {
            self
        }
    }

    /// Electronic Baffle on every ship from `i` on.
    pub open spec fn baffled(self, content: Content, i: int) -> Game
        decreases self.ships.len() - i,
        when 0 <= i
        via Game::baffled_decreases
    {
        if i >= self.ships.len() {
            self
        } else if self.ships[i].destroyed || self.ships[i].using(
            content,
            UpgradeEffect::SystemDamageToDiscardToken,
        ) is None {
            self.baffled(content, i + 1)
        } else {
            self.shedding_ion(i).shields_watched(content, i, self.ships[i].shields).baffled(
                content,
                i + 1,
            )
        }
    }

    #[via_fn]
    proof fn baffled_decreases(self, content: Content, i: int) {
        if i < self.ships.len() {
            self.shedding_keeps(i);
        }
    }

    proof fn shedding_keeps(self, i: int)
        requires
            0 <= i < self.ships.len(),
        ensures
            self.shedding_ion(i).ships.len() == self.ships.len(),
        decreases self.ships[i].ion,
    {
        let s = self.ships[i];
        if s.ion > 0 && (s.shields > 0 || s.hull > 1) {
            let g = self.damaged(i);
            g.with_ship(i, ShipModel { ion: (g.ships[i].ion - 1) as u8, ..g.ships[i] }).saying(
                Event::BaffleIon(i as usize),
            ).shedding_keeps(i);
        }
    }

    pub open spec fn swarm_rule(self, sight: Sight, a: int, d: int) -> spec_fn(int) -> bool {
        |f: int|
            f != a && self.same_side(f, a) && !self.ships[f].destroyed && self.ships[f].evade > 0
                && self.range(sight, f, d) is Some && self.in_arc(sight, f, d)
    }

    /// The first two of the places, each giving up an evade token.
    pub open spec fn swarming(self, a: int, places: Seq<usize>, k: int) -> Game
        decreases places.len() - k,
    {
        if k >= places.len() || k >= 2 {
            self
        } else {
            let f = places[k] as int;
            self.with_ship(f, self.ships[f].less_evade()).saying(
                Event::SwarmLeader(a as usize, places[k]),
            ).swarming(a, places, k + 1)
        }
    }

    /// Swarm Leader: up to two other friends with the defender in arc at
    /// Range 1-3 each give up an evade token.
    pub open spec fn swarmed(self, sight: Sight, a: int, d: int) -> Game {
        self.swarming(a, picked(self.swarm_rule(sight, a, d), 0, self.ships.len() as int), 0)
    }

    /// How many dice Swarm Leader adds.
    pub open spec fn swarm_dice(self, sight: Sight, a: int, d: int) -> u8 {
        let n = picked(self.swarm_rule(sight, a, d), 0, self.ships.len() as int).len();
        if n > 2 {
            2
        } else {
            n as u8
        }
    }
}

/// The nearest to ship `i` of the places from `k` on, or the best so far.
pub open spec fn nearest(
    sight: Sight,
    i: int,
    places: Seq<usize>,
    k: int,
    best: Option<usize>,
) -> Option<usize>
    decreases places.len() - k,
{
    if k >= places.len() {
        best
    } else if best is None || sight.at(i, places[k] as int).dist < sight.at(
        i,
        best->0 as int,
    ).dist {
        nearest(sight, i, places, k + 1, Some(places[k]))
    } else {
        nearest(sight, i, places, k + 1, best)
    }
}

impl Play {
    /// The faceup card an attack by ship `a` deals, and the dice and the
    /// narration after it was drawn.
    pub open spec fn dealt(self, content: Content, a: int) -> (Play, CritEffect) {
        if !self.game.can(content, a, PilotAbility::ChooseCritFromThree) {
            (self.rolled(), drawn(self.shows()))
        } else {
            let p2 = self.rolled();
            let p3 = p2.rolled();
            let (x, y, z) = (drawn(self.shows()), drawn(p2.shows()), drawn(p3.shows()));
            (
                p3.rolled().saying(Event::MaarekStele(a as usize, x, y, z, worst(x, y, z))),
                worst(x, y, z),
            )
        }
    }

    /// Ship `i` takes a point of damage on top; added up in `extra`.
    pub open spec fn extra_point(self, i: int) -> (Play, (u8, u8)) {
        (
            self.at(self.game.damaged(i)),
            match point(self.game.ships[i]) {
                DamagePoint::Shield => (1, 0),
                DamagePoint::Hull => (0, 1),
                DamagePoint::Nothing => (0, 0),
            },
        )
    }

    /// A faceup card resolves on ship `i`: at once, or to stay. A Direct Hit
    /// counts as 2 damage against the hull, whatever shields are left.
    pub open spec fn crit_resolved(self, i: int, effect: CritEffect) -> (Play, (u8, u8)) {
        let s = self.game.ships[i];
        match effect {
            CritEffect::DirectHit => (
                self.at(self.game.hulled(i)),
                if s.hull > 0 {
                    (0, 1)
                } else {
                    (0, 0)
                },
            ),
            CritEffect::MinorExplosion => if attack_face(self.shows()) == AttackFace::Hit {
                self.rolled().saying(Event::ExplosionFlares(i as usize)).extra_point(i)
            } else {
                (self.rolled(), (0, 0))
            },
            CritEffect::MinorHullBreach => if s.crits.len() > 0 {
                (
                    self.at(
                        self.game.with_ship(i, ShipModel { crits: s.crits.skip(1), ..s }).saying(
                            Event::CritFlips(i as usize, s.crits[0]),
                        ),
                    ),
                    (0, 0),
                )
            } else {
                (self, (0, 0))
            },
            _ => (
                self.at(self.game.with_ship(i, s.with_crit(effect))),
                (0, 0),
            ),
        }
    }

    /// One drawn crit effect hits ship `i`: cards may take it away; otherwise
    /// it is attached or resolved at once. The second value is the extra
    /// (shields, hull) damage it inflicted.
    #[verifier::opaque]
    pub open spec fn crit(self, content: Content, i: int, effect: CritEffect) -> (Play, (u8, u8)) {
        let g = self.game;
        let s = g.ships[i];
        if g.can(content, i, PilotAbility::FlipCritFacedownImmediately) {
            (self.saying(Event::CritIgnored(i as usize)), (0, 0))
        } else if effect.on_pilot() && g.has(
            content,
            i,
            UpgradeEffect::DiscardPilotCritImmediately,
        ) {
            (self.saying(Event::Determination(i as usize)), (0, 0))
        } else if g.card(content, i, UpgradeEffect::CrewDiscardDamageRecoverShield) is Some {
            let ship = ShipModel {
                hull: sat(s.hull + 1),
                shields: if s.shields < s.full_shields(content) {
                    sat(s.shields + 1)
                } else {
                    s.shields
                },
                ..s
            };
            (
                self.at(
                    g.with_ship(i, ship).discarding(
                        content,
                        i,
                        g.card(content, i, UpgradeEffect::CrewDiscardDamageRecoverShield)->0,
                        Why::ShieldRecovered,
                    ),
                ),
                (0, 0),
            )
        } else if g.card(content, i, UpgradeEffect::CrewDiscardToFlipCritFacedown) is Some {
            (
                self.at(
                    g.discarding(
                        content,
                        i,
                        g.card(content, i, UpgradeEffect::CrewDiscardToFlipCritFacedown)->0,
                        Why::CardFacedown,
                    ),
                ),
                (0, 0),
            )
        } else if g.has(content, i, UpgradeEffect::DiscardAstromechToCancelDamage) && slotted(
            content,
            s.upgrades,
            Slot::Astromech,
        ) is Some {
            (
                self.at(
                    g.with_ship(i, ShipModel { hull: sat(s.hull + 1), ..s }).discarding(
                        content,
                        i,
                        slotted(content, s.upgrades, Slot::Astromech)->0,
                        Why::AstromechTookIt,
                    ),
                ),
                (0, 0),
            )
        } else {
            let (p, extra) = self.crit_resolved(i, effect);
            (
                if p.game.ships[i].destroyed {
                    p.saying(Event::DestroyedByCrit(i as usize))
                } else {
                    p
                },
                extra,
            )
        }
    }

    /// "Red Ace" answers where ship `i` has lost shields.
    pub open spec fn shields_watched(self, content: Content, i: int, before: u8) -> Play {
        self.at(self.game.shields_watched(content, i, before))
    }

    /// Hits from a pair of dice, one damage each while the ship lives.
    pub open spec fn hits_suffered(self, i: int, n: int) -> Play
        decreases n,
    {
        if n <= 0 {
            self
        } else if !self.game.ships[i].destroyed {
            self.at(self.game.damaged(i)).hits_suffered(i, n - 1)
        } else {
            self.hits_suffered(i, n - 1)
        }
    }

    /// Criticals: one damage each while the ship lives, and a faceup card for
    /// each that reaches the hull of a ship that survives it.
    pub open spec fn crits_suffered(self, content: Content, i: int, n: int) -> Play
        decreases n,
    {
        if n <= 0 || self.game.ships[i].destroyed {
            self
        } else {
            let p = self.at(self.game.damaged(i));
            let p = if point(self.game.ships[i]) == DamagePoint::Hull
                && !p.game.ships[i].destroyed {
                p.rolled().crit(content, i, drawn(p.shows())).0
            } else {
                p
            };
            p.crits_suffered(content, i, n - 1)
        }
    }

    /// Daredevil without the boost icon: two attack dice against the
    /// ship — hits are damage, criticals faceup cards.
    pub open spec fn daredevil(self, content: Content, i: int) -> Play {
        let x = attack_face(self.shows());
        let y = attack_face(self.rolled().shows());
        let hits = face_count(x, y, AttackFace::Hit);
        let crits = face_count(x, y, AttackFace::Crit);
        let p = self.rolled().rolled().hits_suffered(i, hits as int).crits_suffered(
            content,
            i,
            crits as int,
        );
        p.saying(
            Event::Daredevil(i as usize, hits, crits, p.game.ships[i].destroyed),
        ).shields_watched(content, i, self.game.ships[i].shields)
    }
}

/// How many of two faces show the one wanted.
pub open spec fn face_count(x: AttackFace, y: AttackFace, want: AttackFace) -> u8 {
    if x == want && y == want {
        2
    } else if x == want || y == want {
        1
    } else {
        0
    }
}

/// The first of the cards that sits in the slot.
pub open spec fn slotted(content: Content, cards: Seq<UpgradeId>, slot: Slot) -> Option<UpgradeId>
    decreases cards.len(),
{
    if cards.len() == 0 {
        None
    } else if content.fits(cards[0]) == Some(slot) {
        Some(cards[0])
    } else {
        slotted(content, cards.skip(1), slot)
    }
}

/// The first of the cards that sits in the slot.
pub fn find_slotted(content: &Content, cards: &Vec<UpgradeId>, slot: Slot) -> (card: Option<
    UpgradeId,
>)
    ensures
        card == slotted(*content, cards@, slot),
{
    let mut k: usize = 0;
    assert(cards@.skip(0) =~= cards@);
    while k < cards.len()
        invariant
            k <= cards.len(),
            slotted(*content, cards@, slot) == slotted(*content, cards@.skip(k as int), slot),
        decreases cards.len() - k,
    {
        assert(cards@.skip(k as int).skip(1) =~= cards@.skip(k + 1));
        if content.slot(cards[k]) == Some(slot) {
            return Some(cards[k]);
        }
        k = k + 1;
    }
    None
}

/// The nearest to ship `i` of the places.
pub fn find_nearest(sight: &Sight, i: usize, places: &Vec<usize>) -> (best: Option<usize>)
    ensures
        best == nearest(*sight, i as int, places@, 0, None),
        best is Some ==> places@.contains(best->0),
{
    let mut best: Option<usize> = None;
    let mut k: usize = 0;
    while k < places.len()
        invariant
            k <= places.len(),
            best is Some ==> places@.contains(best->0),
            nearest(*sight, i as int, places@, k as int, best) == nearest(
                *sight,
                i as int,
                places@,
                0,
                None,
            ),
        decreases places.len() - k,
    {
        assert(places@.contains(places@[k as int]));
        match best {
            None => {
                best = Some(places[k]);
            },
            Some(b) => {
                if sight.line(i, places[k]).dist < sight.line(i, b).dist {
                    best = Some(places[k]);
                }
            },
        }
        k = k + 1;
    }
    best
}

impl GameState {
    /// One point of damage: shields absorb first, then hull.
    pub fn damage_point(&mut self, i: usize) -> (taken: DamagePoint)
        requires
            i < old(self)@.ships.len(),
        ensures
            final(self)@ == old(self)@.damaged(i as int),
            taken == point(old(self)@.ships[i as int]),
            final(self)@.frame() == old(self)@.frame(),
    {
        let s = self.ship_mut(i);
        if s.shields > 0 {
            s.shields = s.shields - 1;
            DamagePoint::Shield
        } else if s.hull > 0 {
            s.hull = s.hull - 1;
            if s.hull == 0 && !s.lingers {
                s.destroyed = true;
            }
            DamagePoint::Hull
        } else {
            DamagePoint::Nothing
        }
    }

    /// One point of damage straight to the hull (a faceup card dealt
    /// past the shields).
    pub fn hull_point(&mut self, i: usize) -> (taken: DamagePoint)
        requires
            i < old(self)@.ships.len(),
        ensures
            final(self)@ == old(self)@.hulled(i as int),
            taken == (if old(self)@.ships[i as int].hull > 0 {
                DamagePoint::Hull
            } else {
                DamagePoint::Nothing
            }),
            final(self)@.frame() == old(self)@.frame(),
    {
        let s = self.ship_mut(i);
        if s.hull > 0 {
            s.hull = s.hull - 1;
            if s.hull == 0 && !s.lingers {
                s.destroyed = true;
            }
            DamagePoint::Hull
        } else {
            DamagePoint::Nothing
        }
    }

    pub fn add_focus(&mut self, i: usize)
        requires
            i < old(self)@.ships.len(),
        ensures
            final(self)@ == old(self)@.with_ship(
                i as int,
                old(self)@.ships[i as int].with_focus(),
            ),
            final(self)@.frame() == old(self)@.frame(),
    {
        let s = self.ship_mut(i);
        s.focus = s.focus.saturating_add(1);
    }

    pub fn add_evade(&mut self, i: usize)
        requires
            i < old(self)@.ships.len(),
        ensures
            final(self)@ == old(self)@.with_ship(
                i as int,
                old(self)@.ships[i as int].with_evade(),
            ),
            final(self)@.frame() == old(self)@.frame(),
    {
        let s = self.ship_mut(i);
        s.evade = s.evade.saturating_add(1);
    }

    pub fn add_stress(&mut self, i: usize)
        requires
            i < old(self)@.ships.len(),
        ensures
            final(self)@ == old(self)@.with_ship(
                i as int,
                old(self)@.ships[i as int].with_stress(),
            ),
            final(self)@.frame() == old(self)@.frame(),
    {
        let s = self.ship_mut(i);
        s.stress = s.stress.saturating_add(1);
    }

    pub fn add_ion(&mut self, i: usize, n: u8)
        requires
            i < old(self)@.ships.len(),
        ensures
            final(self)@ == old(self)@.with_ship(
                i as int,
                old(self)@.ships[i as int].with_ion(n),
            ),
            final(self)@.frame() == old(self)@.frame(),
    {
        let s = self.ship_mut(i);
        s.ion = s.ion.saturating_add(n);
    }

    /// Use a once-per-round card effect on ship `i`: the card if it is
    /// carried and unused this round (now marked used), else None.
    pub fn use_once(&mut self, content: &Content, i: usize, e: UpgradeEffect) -> (card: Option<
        UpgradeId,
    >)
        requires
            i < old(self)@.ships.len(),
        ensures
            card == old(self)@.unused(*content, i as int, e),
            final(self)@ == old(self)@.used(*content, i as int, e),
            final(self)@.frame() == old(self)@.frame(),
    {
        let own = self.heed(content, &self.ships[i], &self.ships[i].upgrades);
        let card = find_unused_card(content, &own, &self.ships[i].used_round, e);
        if let Some(c) = card {
            self.ship_mut(i).used_round.push(c);
        }
        card
    }

    /// Extra Munitions: spend an ordnance token on `card` instead of
    /// discarding it. True when a token was spent (the card stays).
    pub fn spend_ordnance(&mut self, i: usize, card: UpgradeId) -> (spent: bool)
        requires
            i < old(self)@.ships.len(),
        ensures
            spent == old(self)@.ships[i as int].ordnance.contains(card),
            final(self)@ == old(self)@.ordnance_spent(i as int, card),
            final(self)@.frame() == old(self)@.frame(),
    {
        let n: usize = self.ships[i].ordnance.len();
        let mut k: usize = 0;
        while k < n
            invariant
                k <= n,
                *self == *old(self),
                forall|j: int| 0 <= j < k ==> self.ships@[i as int].ordnance@[j] != card,
            decreases n - k,
        {
            if self.ships[i].ordnance[k] == card {
                proof {
                    without_first_removes(self.ships@[i as int].ordnance@, card, k as int);
                    assert(self.ships@[i as int].ordnance@.contains(card));
                }
                self.ship_mut(i).ordnance.remove(k);
                self.say(Event::OrdnanceSpent(i, card));
                return true;
            }
            k = k + 1;
        }
        false
    }

    /// Tomax Bren: once per round a discarded Elite Pilot Talent is
    /// flipped faceup again (the card stays equipped).
    pub fn tomax_keeps(&self, content: &Content, i: usize, card: UpgradeId) -> (kept: bool)
        requires
            i < self@.ships.len(),
        ensures
            kept == self@.tomax(*content, i as int, card),
    {
        content.slot(card) == Some(Slot::Talent) && self.has_ability(
            content,
            i,
            PilotAbility::FlipTalentFaceupAfterDiscard,
        ) && !has_card(&self.ships[i].used_round, card)
    }

    pub fn discard_card(&mut self, content: &Content, i: usize, card: UpgradeId, why: Why)
        requires
            i < old(self)@.ships.len(),
        ensures
            final(self)@ == old(self)@.discarding(*content, i as int, card, why),
            final(self)@.frame() == old(self)@.frame(),
    {
        let kept = self.tomax_keeps(content, i, card);
        if kept {
            self.ship_mut(i).used_round.push(card);
        } else {
            drop_card(&mut self.ship_mut(i).upgrades, card);
        }
        self.say(Event::Discarded { ship: i, card, why, kept });
    }

    fn lock_candidates(&self, sight: &Sight, i: usize, bands: u8) -> (open: Vec<usize>)
        requires
            i < self@.ships.len(),
        ensures
            open@ == picked(
                self@.lock_rule(*sight, i as int, bands),
                0,
                self@.ships.len() as int,
            ),
            forall|k: int| 0 <= k < open@.len() ==> #[trigger] open@[k] < self@.ships.len(),
    {
        let test = |e: usize| -> (yes: bool)
            requires
                e < self@.ships.len(),
            ensures
                yes == obeys(self@.lock_rule(*sight, i as int, bands), e),
        {
            !self.allied(self.ships[e].owner, self.ships[i].owner) && !self.ships[e].destroyed
                && !self.ships[i].locks_on(self.ships[e].id) && self.ships[e].pose.is_some()
                && match sight.line(i, e).band {
                Some(r) => r <= bands,
                None => false,
            }
        };
        pick(self.ships.len(), test, Ghost(self@.lock_rule(*sight, i as int, bands)))
    }

    /// Whom ship `i` would lock unasked.
    pub fn lock_pick(&self, content: &Content, sight: &Sight, i: usize, bands: u8) -> (target: Option<
        usize,
    >)
        requires
            i < self@.ships.len(),
        ensures
            target == self@.lock_choice(*content, *sight, i as int, bands),
            target is Some ==> target->0 < self@.ships.len(),
    {
        if !self.ships[i].lock_free(self.two_locks(content, i)) || self.ships[i].destroyed
            || self.ships[i].pose.is_none() {
            return None;
        }
        let open = self.lock_candidates(sight, i, bands);
        let test = |k: usize| -> (yes: bool)
            requires
                k < open@.len(),
            ensures
                yes == obeys(self@.kagi_rule(*content, open@), k),
        { self.has_ability(content, open[k], PilotAbility::EnemyLocksMustTargetMe) };
        let kagi = find(open.len(), test, Ghost(self@.kagi_rule(*content, open@)));
        match kagi {
            Some(k) => Some(open[k]),
            None => find_nearest(sight, i, &open),
        }
    }

    /// Acquire a lock for ship `i` on the nearest enemy within `bands` range
    /// bands when it holds none. Captain Kagi, when lockable, takes the lock
    /// whoever is nearer. True when a lock was taken.
    pub fn auto_lock_within(
        &mut self,
        content: &Content,
        sight: &Sight,
        i: usize,
        bands: u8,
        who: Locker,
    ) -> (taken: bool)
        requires
            i < old(self)@.ships.len(),
        ensures
            taken == (old(self)@.lock_choice(*content, *sight, i as int, bands) is Some),
            final(self)@ == old(self)@.auto_locking(*content, *sight, i as int, bands, who),
            final(self)@.frame() == old(self)@.frame(),
    {
        match self.lock_pick(content, sight, i, bands) {
            None => false,
            Some(e) => {
                let two = self.two_locks(content, i);
                let id = self.ships[e].id;
                self.ship_mut(i).take_lock(id, two);
                self.say(Event::Locks(i, who, e));
                true
            },
        }
    }

    fn second_lock_candidates(&self, sight: &Sight, i: usize, already: ShipId) -> (open: Vec<usize>)
        requires
            i < self@.ships.len(),
        ensures
            open@ == picked(
                self@.second_lock_rule(*sight, i as int, already),
                0,
                self@.ships.len() as int,
            ),
            forall|k: int| 0 <= k < open@.len() ==> #[trigger] open@[k] < self@.ships.len(),
    {
        let test = |e: usize| -> (yes: bool)
            requires
                e < self@.ships.len(),
            ensures
                yes == obeys(self@.second_lock_rule(*sight, i as int, already), e),
        {
            self.ships[e].id != already && !self.ships[e].destroyed && !self.allied(
                self.ships[e].owner,
                self.ships[i].owner,
            ) && !self.ships[i].locks_on(self.ships[e].id) && self.ships[e].pose.is_some()
                && match sight.line(i, e).band {
                Some(r) => r <= 3,
                None => false,
            }
        };
        pick(self.ships.len(), test, Ghost(self@.second_lock_rule(*sight, i as int, already)))
    }

    /// Weapons Engineer: acquiring a lock may lock a second, different
    /// ship too — policy: the nearest other enemy within Range 1-3.
    pub fn weapons_engineer_second_lock(&mut self, sight: &Sight, i: usize, already: ShipId)
        requires
            i < old(self)@.ships.len(),
        ensures
            final(self)@ == old(self)@.second_locking(*sight, i as int, already),
            final(self)@.frame() == old(self)@.frame(),
    {
        if self.ships[i].pose.is_none() {
            return;
        }
        let open = self.second_lock_candidates(sight, i, already);
        if let Some(e) = find_nearest(sight, i, &open) {
            let id = self.ships[e].id;
            self.ship_mut(i).take_lock(id, true);
            self.say(Event::SecondLock(i, e));
        }
    }

    fn lock_holder(&self, i: usize, target: ShipId) -> (holder: Option<usize>)
        requires
            i < self@.ships.len(),
        ensures
            holder == first(
                self@.lock_holder_rule(i as int, target),
                0,
                self@.ships.len() as int,
            ),
            holder is Some ==> holder->0 < self@.ships.len(),
    {
        let test = |e: usize| -> (yes: bool)
            requires
                e < self@.ships.len(),
            ensures
                yes == obeys(self@.lock_holder_rule(i as int, target), e),
        {
            !self.allied(self.ships[e].owner, self.ships[i].owner) && self.ships[e].locks_on(target)
        };
        find(self.ships.len(), test, Ghost(self@.lock_holder_rule(i as int, target)))
    }

    /// Black One: after a boost or barrel roll, one enemy lock on a
    /// friendly ship at Range 1 (this one first) is removed.
    pub fn after_reposition_cards(&mut self, content: &Content, sight: &Sight, i: usize)
        requires
            i < old(self)@.ships.len(),
        ensures
            final(self)@ == old(self)@.repositioned(*content, *sight, i as int),
            final(self)@.frame() == old(self)@.frame(),
    {
        reveal(Game::repositioned);
        if !self.has_effect(content, i, UpgradeEffect::RemoveEnemyLockAfterReposition) {
            return;
        }
        let mut friends: Vec<usize> = Vec::new();
        friends.push(i);
        let mut others = self.friends_within(sight, i, 1);
        let ghost near = others@;
        friends.append(&mut others);
        assert(friends@ =~= seq![i] + near);
        let mut k: usize = 0;
        while k < friends.len()
            invariant
                k <= friends.len(),
                *self == *old(self),
                self@.freeing_from(i as int, friends@, k as int) == self@.freeing_from(
                    i as int,
                    friends@,
                    0,
                ),
            decreases friends.len() - k,
        {
            let f: usize = friends[k];
            assert(f < self@.ships.len()) by {
                if k > 0 {
                    assert(friends@[k as int] == near[k - 1]);
                }
            }
            let id = self.ships[f].id;
            if let Some(e) = self.lock_holder(i, id) {
                self.ship_mut(e).drop_lock(id);
                self.say(Event::BlackOne { ship: i, enemy: e, friend: f });
                return;
            }
            k = k + 1;
        }
    }

    /// Captain Yorr: the friend that takes a stress token meant for ship `i`.
    fn yorr_for(&self, content: &Content, sight: &Sight, i: usize) -> (yorr: Option<usize>)
        requires
            i < self@.ships.len(),
        ensures
            yorr == self@.yorr(*content, *sight, i as int),
            yorr is Some ==> yorr->0 < self@.ships.len(),
    {
        if self.has_ability(content, i, PilotAbility::AbsorbFriendlyStressAtRange1To2) {
            return None;
        }
        let friends = self.friends_within(sight, i, 2);
        let test = |k: usize| -> (yes: bool)
            requires
                k < friends@.len(),
            ensures
                yes == obeys(self@.yorr_rule(*content, friends@), k),
        {
            self.has_ability(
                content,
                friends[k],
                PilotAbility::AbsorbFriendlyStressAtRange1To2,
            ) && self.ships[friends[k]].stress <= 2
        };
        match find(friends.len(), test, Ghost(self@.yorr_rule(*content, friends@))) {
            Some(k) => Some(friends[k]),
            None => None,
        }
    }

    /// Ship `i` itself receives a stress token. Nien Nunb (T-70) discards it
    /// when an enemy is in arc at Range 1; Soontir Fel gains a focus token;
    /// Cool Hand is discarded for a focus token.
    fn take_stress(&mut self, content: &Content, sight: &Sight, i: usize)
        requires
            i < old(self)@.ships.len(),
        ensures
            final(self)@ == old(self)@.taking_stress(*content, *sight, i as int),
            final(self)@.frame() == old(self)@.frame(),
    {
        let shields: u8 = self.ships[i].shields;
        self.add_stress(i);
        // Electronic Baffle (switched on): one damage sheds the token —
        // never when that damage would destroy the ship.
        if self.using(content, i, UpgradeEffect::SystemDamageToDiscardToken).is_some() && (
        self.ships[i].shields > 0 || self.ships[i].hull > 1) {
            self.damage_point(i);
            let s = self.ship_mut(i);
            s.stress = s.stress - 1;
            self.say(Event::BaffleStress(i));
            self.watch_shields(content, i, shields);
            return;
        }
        match self.ability(content, &self.ships[i]) {
            Some(PilotAbility::DiscardStressIfEnemyInArcRange1) => {
                if self.enemy_in_arc_at_range1(sight, i) {
                    let s = self.ship_mut(i);
                    s.stress = s.stress - 1;
                    self.say(Event::StressDiscarded(i));
                }
            },
            Some(PilotAbility::FocusOnStress) => {
                self.add_focus(i);
                self.say(Event::FocusForStress(i));
            },
            _ => {},
        }
        if let Some(card) = self.card_with_effect(content, i, UpgradeEffect::FocusOrEvadeOnStress) {
            self.add_focus(i);
            self.discard_card(content, i, card, Why::FocusForStress);
        }
    }

    /// Ship `i` receives a stress token. Captain Yorr: a friend at Range 1-2
    /// with two or fewer stress tokens takes the token instead (never from
    /// another Yorr).
    pub fn gain_stress(&mut self, content: &Content, sight: &Sight, i: usize)
        requires
            i < old(self)@.ships.len(),
        ensures
            final(self)@ == old(self)@.stressed(*content, *sight, i as int),
            final(self)@.frame() == old(self)@.frame(),
    {
        reveal(Game::stressed);
        match self.yorr_for(content, sight, i) {
            Some(y) => {
                self.say(Event::YorrTakesStress { yorr: y, ship: i });
                self.take_stress(content, sight, y);
            },
            None => {
                self.take_stress(content, sight, i);
            },
        }
    }

    /// Ship `i` removes a stress token if it has one (Kyle Katarn crew
    /// then grants a focus token). Returns whether one was removed.
    pub fn lose_stress(&mut self, content: &Content, i: usize) -> (removed: bool)
        requires
            i < old(self)@.ships.len(),
        ensures
            removed == (old(self)@.ships[i as int].stress > 0),
            final(self)@ == old(self)@.unstressed(*content, i as int),
            final(self)@.frame() == old(self)@.frame(),
    {
        if self.ships[i].stress == 0 {
            return false;
        }
        let s = self.ship_mut(i);
        s.stress = s.stress - 1;
        if self.has_effect(content, i, UpgradeEffect::CrewFocusAfterStressRemoved) {
            self.add_focus(i);
            self.say(Event::KyleKatarn(i));
        }
        true
    }

    /// "Red Ace": the first shield lost each round grants an evade token.
    pub fn after_shield_loss(&mut self, content: &Content, i: usize)
        requires
            i < old(self)@.ships.len(),
        ensures
            final(self)@ == old(self)@.shield_lost(*content, i as int),
            final(self)@.frame() == old(self)@.frame(),
    {
        if !self.ships[i].shield_lost_round && self.has_ability(
            content,
            i,
            PilotAbility::EvadeOnFirstShieldLoss,
        ) {
            self.add_evade(i);
            self.say(Event::FirstShieldLost(i));
        }
        self.ship_mut(i).shield_lost_round = true;
    }

    /// "Red Ace" answers where ship `i` lives and has fewer shields than
    /// before.
    pub fn watch_shields(&mut self, content: &Content, i: usize, before: u8)
        requires
            i < old(self)@.ships.len(),
        ensures
            final(self)@ == old(self)@.shields_watched(*content, i as int, before),
            final(self)@.frame() == old(self)@.frame(),
    {
        if self.ships[i].shields < before && !self.ships[i].destroyed {
            self.after_shield_loss(content, i);
        }
    }

    fn poorest(&self, places: &Vec<usize>) -> (best: Option<usize>)
        requires
            forall|k: int| 0 <= k < places@.len() ==> #[trigger] places@[k] < self@.ships.len(),
        ensures
            best == self@.fewest_focus(places@, 0, None),
            best is Some ==> best->0 < self@.ships.len(),
    {
        let mut best: Option<usize> = None;
        let mut k: usize = 0;
        while k < places.len()
            invariant
                k <= places.len(),
                best is Some ==> best->0 < self@.ships.len(),
                self@.fewest_focus(places@, k as int, best) == self@.fewest_focus(places@, 0, None),
            decreases places.len() - k,
        {
            match best {
                None => {
                    best = Some(places[k]);
                },
                Some(b) => {
                    if self.ships[places[k]].focus < self.ships[b].focus {
                        best = Some(places[k]);
                    }
                },
            }
            k = k + 1;
        }
        best
    }

    /// "Chaser": a focus token whenever another friendly ship at Range 1
    /// spends one. Garven Dreis: the spent token goes to another friendly
    /// ship at Range 1-2 (policy: the one holding the fewest focus tokens).
    pub fn friend_spent_focus(&mut self, content: &Content, sight: &Sight, spender: usize)
        requires
            spender < old(self)@.ships.len(),
        ensures
            final(self)@ == old(self)@.focus_spent(*content, *sight, spender as int),
            final(self)@.frame() == old(self)@.frame(),
    {
        reveal(Game::focus_spent);
        if self.has_ability(content, spender, PilotAbility::PassSpentFocusRange1To2) {
            let near = self.friends_within(sight, spender, 2);
            if let Some(f) = self.poorest(&near) {
                self.add_focus(f);
                self.say(Event::GarvenDreis(spender, f));
            }
        }
        let near = self.friends_within(sight, spender, 1);
        let ghost start = self@;
        let mut k: usize = 0;
        while k < near.len()
            invariant
                k <= near.len(),
                self@.frame() == start.frame(),
                self@.chasing(*content, near@, k as int) == start.chasing(*content, near@, 0),
            decreases near.len() - k,
        {
            let f: usize = near[k];
            if self.has_ability(content, f, PilotAbility::FocusWhenFriendlySpendsFocusRange1) {
                self.add_focus(f);
                self.say(Event::FriendSpentFocus(f));
            }
            k = k + 1;
        }
    }

    /// "If you are hit by an attack, discard this card": Stealth Device.
    pub fn discard_on_hit(&mut self, content: &Content, i: usize)
        requires
            i < old(self)@.ships.len(),
        ensures
            final(self)@ == old(self)@.hit_discards(
                *content,
                i as int,
                old(self)@.ships[i as int].active(*content),
                0,
            ),
            final(self)@.frame() == old(self)@.frame(),
    {
        let cards = self.heed(content, &self.ships[i], &self.ships[i].upgrades);
        let mut k: usize = 0;
        while k < cards.len()
            invariant
                k <= cards.len(),
                self@.frame() == old(self)@.frame(),
                self@.hit_discards(*content, i as int, cards@, k as int)
                    == old(self)@.hit_discards(*content, i as int, cards@, 0),
            decreases cards.len() - k,
        {
            if content.effect(cards[k]) == Some(UpgradeEffect::AgilityPlus1DiscardWhenHit) {
                drop_card(&mut self.ship_mut(i).upgrades, cards[k]);
                self.say(Event::DiscardedOnHit(i, cards[k]));
            }
            k = k + 1;
        }
    }

    /// Electronic Baffle (switched on): at the end of the Combat phase each
    /// ion token is shed for one damage, never a fatal one. (The card acts
    /// on receipt; this happens before the next reveal, when ion matters.)
    pub fn baffle_ion(&mut self, content: &Content)
        ensures
            final(self)@ == old(self)@.baffled(*content, 0),
            final(self)@.frame() == old(self)@.frame(),
    {
        let n: usize = self.ships.len();
        let mut i: usize = 0;
        while i < n
            invariant
                i <= n,
                n == self@.ships.len(),
                self@.frame() == old(self)@.frame(),
                self@.baffled(*content, i as int) == old(self)@.baffled(*content, 0),
            decreases n - i,
        {
            if !(self.ships[i].destroyed || self.using(
                content,
                i,
                UpgradeEffect::SystemDamageToDiscardToken,
            ).is_none()) {
                let ghost start = self@;
                let shields: u8 = self.ships[i].shields;
                while self.ships[i].ion > 0 && (self.ships[i].shields > 0 || self.ships[i].hull
                    > 1)
                    invariant
                        i < n,
                        n == self@.ships.len(),
                        self@.frame() == old(self)@.frame(),
                        self@.shedding_ion(i as int) == start.shedding_ion(i as int),
                    decreases self@.ships[i as int].ion,
                {
                    self.damage_point(i);
                    let s = self.ship_mut(i);
                    s.ion = s.ion - 1;
                    self.say(Event::BaffleIon(i));
                }
                self.watch_shields(content, i, shields);
            }
            i = i + 1;
        }
    }

    fn swarm_friends(&self, sight: &Sight, a: usize, d: usize) -> (friends: Vec<usize>)
        requires
            a < self@.ships.len(),
            d < self@.ships.len(),
        ensures
            friends@ == picked(
                self@.swarm_rule(*sight, a as int, d as int),
                0,
                self@.ships.len() as int,
            ),
            forall|k: int| 0 <= k < friends@.len() ==> #[trigger] friends@[k] < self@.ships.len(),
    {
        let test = |f: usize| -> (yes: bool)
            requires
                f < self@.ships.len(),
            ensures
                yes == obeys(self@.swarm_rule(*sight, a as int, d as int), f),
        {
            f != a && self.allied(self.ships[f].owner, self.ships[a].owner)
                && !self.ships[f].destroyed && self.ships[f].evade > 0 && self.range_between(
                sight,
                f,
                d,
            ).is_some() && self.ship_in_front_arc(sight, f, d)
        };
        pick(self.ships.len(), test, Ghost(self@.swarm_rule(*sight, a as int, d as int)))
    }

    /// Swarm Leader: up to two other friends with the defender in arc at
    /// Range 1-3 each give up an evade token for one more attack die.
    pub fn swarm_leader_dice(&mut self, sight: &Sight, a: usize, d: usize) -> (dice: u8)
        requires
            a < old(self)@.ships.len(),
            d < old(self)@.ships.len(),
        ensures
            final(self)@ == old(self)@.swarmed(*sight, a as int, d as int),
            dice == old(self)@.swarm_dice(*sight, a as int, d as int),
            final(self)@.frame() == old(self)@.frame(),
    {
        let friends = self.swarm_friends(sight, a, d);
        let mut k: usize = 0;
        while k < friends.len() && k < 2
            invariant
                k <= friends.len(),
                k <= 2,
                self@.frame() == old(self)@.frame(),
                self@.swarming(a as int, friends@, k as int) == old(self)@.swarming(
                    a as int,
                    friends@,
                    0,
                ),
            decreases friends.len() - k,
        {
            let f: usize = friends[k];
            let s = self.ship_mut(f);
            s.evade = s.evade.saturating_sub(1);
            self.say(Event::SwarmLeader(a, f));
            k = k + 1;
        }
        k as u8
    }

    /// The faceup card an attack deals: Maarek Stele draws three and
    /// keeps the worst for the defender.
    pub fn draw_crit_for(&mut self, content: &Content, a: usize, dice: &mut Dice) -> (card:
        CritEffect)
        requires
            a < old(self)@.ships.len(),
        ensures
            (Play { game: final(self)@, dice: final(dice)@ }, card) == (Play {
                game: old(self)@,
                dice: old(dice)@,
            }).dealt(*content, a as int),
            final(self)@.frame() == old(self)@.frame(),
    {
        if !self.has_ability(content, a, PilotAbility::ChooseCritFromThree) {
            return draw(dice.roll());
        }
        let x = draw(dice.roll());
        let y = draw(dice.roll());
        let z = draw(dice.roll());
        let xy = if y.severity() >= x.severity() {
            y
        } else {
            x
        };
        let card = if z.severity() >= xy.severity() {
            z
        } else {
            xy
        };
        self.say(Event::MaarekStele(a, x, y, z, card));
        card
    }

    fn extra_point(&mut self, i: usize) -> (extra: (u8, u8))
        requires
            i < old(self)@.ships.len(),
        ensures
            final(self)@ == old(self)@.damaged(i as int),
            extra == (match point(old(self)@.ships[i as int]) {
                DamagePoint::Shield => (1u8, 0u8),
                DamagePoint::Hull => (0u8, 1u8),
                DamagePoint::Nothing => (0u8, 0u8),
            }),
            final(self)@.frame() == old(self)@.frame(),
    {
        match self.damage_point(i) {
            DamagePoint::Shield => (1, 0),
            DamagePoint::Hull => (0, 1),
            DamagePoint::Nothing => (0, 0),
        }
    }

    /// Resolve one faceup card that nothing has taken away.
    fn resolve_crit(&mut self, i: usize, effect: CritEffect, dice: &mut Dice) -> (extra: (u8, u8))
        requires
            i < old(self)@.ships.len(),
        ensures
            (Play { game: final(self)@, dice: final(dice)@ }, extra) == (Play {
                game: old(self)@,
                dice: old(dice)@,
            }).crit_resolved(i as int, effect),
            final(self)@.frame() == old(self)@.frame(),
    {
        match effect {
            CritEffect::DirectHit => {
                if self.hull_point(i) == DamagePoint::Hull {
                    (0, 1)
                } else {
                    (0, 0)
                }
            },
            CritEffect::MinorExplosion => {
                if AttackFace::from_d8(dice.roll()) == AttackFace::Hit {
                    self.say(Event::ExplosionFlares(i));
                    self.extra_point(i)
                } else {
                    (0, 0)
                }
            },
            CritEffect::MinorHullBreach => {
                if self.ships[i].crits.len() > 0 {
                    let ghost before = self@.ships[i as int].crits;
                    let s = self.ship_mut(i);
                    let removed = s.crits.remove(0);
                    assert(before.remove(0) =~= before.skip(1));
                    self.say(Event::CritFlips(i, removed));
                }
                (0, 0)
            },
            persistent => {
                let s = self.ship_mut(i);
                s.crits.push(persistent);
                if persistent == CritEffect::DamagedCockpit {
                    s.fresh_cockpits = s.fresh_cockpits.saturating_add(1);
                }
                (0, 0)
            },
        }
    }

    /// Attach or immediately resolve one drawn crit effect. Returns any
    /// extra (shields, hull) damage it inflicted.
    pub fn apply_crit_effect(
        &mut self,
        content: &Content,
        i: usize,
        effect: CritEffect,
        dice: &mut Dice,
    ) -> (extra: (u8, u8))
        requires
            i < old(self)@.ships.len(),
            old(self)@.known(*content),
        ensures
            (Play { game: final(self)@, dice: final(dice)@ }, extra) == (Play {
                game: old(self)@,
                dice: old(dice)@,
            }).crit(*content, i as int, effect),
            final(self)@.frame() == old(self)@.frame(),
    {
        reveal(Play::crit);
        assert(self@.frame().ships[i as int] == self@.ships[i as int].identity());
        // Chewbacca flips every faceup card facedown unresolved;
        // Determination discards Pilot-trait cards the same way.
        if self.has_ability(content, i, PilotAbility::FlipCritFacedownImmediately) {
            self.say(Event::CritIgnored(i));
            return (0, 0);
        }
        if effect.is_pilot_trait() && self.has_effect(
            content,
            i,
            UpgradeEffect::DiscardPilotCritImmediately,
        ) {
            self.say(Event::Determination(i));
            return (0, 0);
        }
        // Chewbacca (crew): the card is discarded outright and a shield
        // comes back; then the crew card goes. Moff Jerjerrod: discarded
        // to flip the card facedown. Integrated Astromech: the astromech
        // is discarded to discard the card.
        if let Some(card) = self.card_with_effect(
            content,
            i,
            UpgradeEffect::CrewDiscardDamageRecoverShield,
        ) {
            let room = self.ships[i].shields < self.max_shields(content, &self.ships[i]);
            let s = self.ship_mut(i);
            s.hull = s.hull.saturating_add(1);
            if room {
                s.shields = s.shields.saturating_add(1);
            }
            self.discard_card(content, i, card, Why::ShieldRecovered);
            return (0, 0);
        }
        if let Some(card) = self.card_with_effect(
            content,
            i,
            UpgradeEffect::CrewDiscardToFlipCritFacedown,
        ) {
            self.discard_card(content, i, card, Why::CardFacedown);
            return (0, 0);
        }
        if self.has_effect(content, i, UpgradeEffect::DiscardAstromechToCancelDamage) {
            if let Some(astro) = find_slotted(content, &self.ships[i].upgrades, Slot::Astromech) {
                let s = self.ship_mut(i);
                s.hull = s.hull.saturating_add(1);
                self.discard_card(content, i, astro, Why::AstromechTookIt);
                return (0, 0);
            }
        }
        let extra = self.resolve_crit(i, effect, dice);
        if self.ships[i].destroyed {
            self.say(Event::DestroyedByCrit(i));
        }
        extra
    }

    /// Daredevil without the boost icon: two attack dice against the
    /// ship — hits are damage, criticals faceup cards.
    pub fn daredevil_damage(&mut self, content: &Content, i: usize, dice: &mut Dice)
        requires
            i < old(self)@.ships.len(),
            old(self)@.known(*content),
        ensures
            (Play { game: final(self)@, dice: final(dice)@ }) == (Play {
                game: old(self)@,
                dice: old(dice)@,
            }).daredevil(*content, i as int),
            final(self)@.frame() == old(self)@.frame(),
    {
        let shields: u8 = self.ships[i].shields;
        let x = AttackFace::from_d8(dice.roll());
        let y = AttackFace::from_d8(dice.roll());
        let hits: u8 = if x == AttackFace::Hit && y == AttackFace::Hit {
            2
        } else if x == AttackFace::Hit || y == AttackFace::Hit {
            1
        } else {
            0
        };
        let crits: u8 = if x == AttackFace::Crit && y == AttackFace::Crit {
            2
        } else if x == AttackFace::Crit || y == AttackFace::Crit {
            1
        } else {
            0
        };
        let ghost rolled = Play { game: self@, dice: dice@ };
        let mut k: u8 = 0;
        while k < hits
            invariant
                k <= hits,
                self@.frame() == old(self)@.frame(),
                dice@ == rolled.dice,
                (Play { game: self@, dice: dice@ }).hits_suffered(i as int, hits - k)
                    == rolled.hits_suffered(i as int, hits as int),
            decreases hits - k,
        {
            if !self.ships[i].destroyed {
                self.damage_point(i);
            }
            k = k + 1;
        }
        let ghost hit = Play { game: self@, dice: dice@ };
        let mut j: u8 = 0;
        while j < crits && !self.ships[i].destroyed
            invariant
                j <= crits,
                self@.frame() == old(self)@.frame(),
                (Play { game: self@, dice: dice@ }).crits_suffered(*content, i as int, crits - j)
                    == hit.crits_suffered(*content, i as int, crits as int),
            decreases crits - j,
        {
            let taken = self.damage_point(i);
            if taken == DamagePoint::Hull && !self.ships[i].destroyed {
                let effect = draw(dice.roll());
                self.apply_crit_effect(content, i, effect, dice);
            }
            j = j + 1;
        }
        let died = self.ships[i].destroyed;
        self.say(Event::Daredevil(i, hits, crits, died));
        self.watch_shields(content, i, shields);
    }
}

} // verus!
