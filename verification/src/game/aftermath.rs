//! What weapon cards and crew do once an attack has been resolved.

#![verifier::loop_isolation(false)]

use vstd::prelude::*;

use crate::data::Content;
use crate::dice::{defense_face, DefenseFace, Dice};
use crate::event::Event;
use crate::game::state::{Game, GameState, Play, Shot};
use crate::pick::{find, first, obeys, pick, picked};
use crate::sight::Sight;
use crate::upgrade::UpgradeEffect;

verus! {

broadcast use crate::game::state::framing;

impl Game {
    pub open spec fn splash_rule(self, sight: Sight, d: int) -> spec_fn(int) -> bool {
        |j: int| j != d && !self.ships[j].destroyed && self.range(sight, d, j) == Some(1u8)
    }

    /// The other living ships at Range 1 of ship `d`.
    pub open spec fn splashed(self, sight: Sight, d: int) -> Seq<usize> {
        picked(self.splash_rule(sight, d), 0, self.ships.len() as int)
    }

    /// Ion torpedoes on the places from `k` on.
    pub open spec fn ionizing(self, places: Seq<usize>, k: int) -> Game
        decreases places.len() - k,
    {
        if k >= places.len() {
            self
        } else {
            let j = places[k] as int;
            self.with_ship(j, self.ships[j].with_ion(1)).saying(
                Event::AlsoIonized(places[k]),
            ).ionizing(places, k + 1)
        }
    }

    /// Assault missiles on the places from `k` on.
    pub open spec fn splashing(self, content: Content, places: Seq<usize>, k: int) -> Game
        decreases places.len() - k,
    {
        if k >= places.len() {
            self
        } else {
            let j = places[k] as int;
            let g = self.damaged(j);
            g.saying(Event::AssaultMissiles(places[k], g.ships[j].destroyed)).shields_watched(
                content,
                j,
                self.ships[j].shields,
            ).splashing(content, places, k + 1)
        }
    }

    pub open spec fn tracer_rule(self, content: Content, sight: Sight, a: int) -> spec_fn(
        int,
    ) -> bool {
        |j: int|
            j != a && self.same_side(j, a) && !self.ships[j].destroyed && self.ships[j].can_lock(
                self.two_locks(content, j),
            ) && self.range(sight, a, j) is Some && 1 <= self.range(sight, a, j)->0 <= 2
    }

    /// Thread tracers: the places from `k` on lock ship `d`.
    pub open spec fn tracing(self, content: Content, d: int, places: Seq<usize>, k: int) -> Game
        decreases places.len() - k,
    {
        if k >= places.len() {
            self
        } else {
            self.locking(content, places[k] as int, d).saying(
                Event::ThreadTracers(places[k], d as usize),
            ).tracing(content, d, places, k + 1)
        }
    }

    /// "After you perform this attack" / "if this attack hits" riders on
    /// weapon cards, resolved after damage is dealt.
    #[verifier::opaque]
    pub open spec fn weapon_riders(
        self,
        content: Content,
        sight: Sight,
        a: int,
        d: int,
        effect: UpgradeEffect,
        landed: bool,
    ) -> Game {
        let s = self.ships[d];
        match effect {
            UpgradeEffect::TorpedoStressIfHullLow => if s.printed(content).hull <= 4
                && !s.destroyed {
                self.with_ship(d, s.with_stress()).saying(Event::FlechetteTorpedoes(d as usize))
            } else {
                self
            },
            UpgradeEffect::TorpedoStripShield => if landed && s.shields > 0 {
                self.with_ship(d, s.less_shield()).saying(
                    Event::PlasmaTorpedoes(d as usize),
                ).shields_watched(content, d, s.shields)
            } else {
                self
            },
            UpgradeEffect::TorpedoIonSplash => if landed {
                self.with_ship(d, s.with_ion(1)).saying(Event::IonTorpedoes(d as usize)).ionizing(
                    self.splashed(sight, d),
                    0,
                )
            } else {
                self
            },
            UpgradeEffect::MissileSplashRange1 => if landed {
                self.splashing(content, self.splashed(sight, d), 0)
            } else {
                self
            },
            UpgradeEffect::MissileFriendsLockOnHit => if landed {
                self.tracing(
                    content,
                    d,
                    picked(self.tracer_rule(content, sight, a), 0, self.ships.len() as int),
                    0,
                )
            } else {
                self
            },
            _ => self,
        }
    }

    /// Tactician: a target at Range 2 inside the arc is stressed.
    pub open spec fn tactician(self, content: Content, sight: Sight, a: int, d: int, range: u8) -> Game {
        if range == 2 && !self.ships[d].destroyed && self.has(
            content,
            a,
            UpgradeEffect::CrewStressTargetAtRange2InArc,
        ) && self.in_arc(sight, a, d) {
            self.saying(Event::Tactician(a as usize, d as usize)).stressed(content, sight, d)
        } else {
            self
        }
    }

    pub open spec fn bystander_rule(self, sight: Sight, a: int, d: int) -> spec_fn(int) -> bool {
        |j: int|
            j != d && j != a && !self.ships[j].destroyed && self.range(sight, d, j) == Some(1u8)
    }

    pub open spec fn foe_rule(self, a: int, places: Seq<usize>) -> spec_fn(int) -> bool {
        |k: int| !self.same_side(places[k] as int, a)
    }

    /// Whom Ruthlessness hurts: an enemy at Range 1 of the defender if there
    /// is one, else a friend.
    pub open spec fn bystander(self, sight: Sight, a: int, d: int) -> Option<usize> {
        let near = picked(self.bystander_rule(sight, a, d), 0, self.ships.len() as int);
        match first(self.foe_rule(a, near), 0, near.len() as int) {
            Some(k) => Some(near[k as int]),
            None => if near.len() > 0 {
                Some(near[0])
            } else {
                None
            },
        }
    }

    /// Ruthlessness: after a hit, another ship at Range 1 of the defender
    /// suffers 1 damage.
    pub open spec fn ruthless(self, content: Content, sight: Sight, a: int, d: int, landed: bool) -> Game {
        if landed && self.has(content, a, UpgradeEffect::SplashDamageAfterHit) {
            match self.bystander(sight, a, d) {
                Some(j) => {
                    let g = self.damaged(j as int);
                    g.saying(
                        Event::Ruthlessness(a as usize, j, g.ships[j as int].destroyed),
                    ).shields_watched(content, j as int, self.ships[j as int].shields)
                },
                None => self,
            }
        } else {
            self
        }
    }

    /// Darth Vader (crew): two damage to the attacker for a critical hit that
    /// finishes the defender off, while the attacker keeps a hull point.
    pub open spec fn vader(self, content: Content, a: int, d: int) -> Game {
        if !self.ships[d].destroyed && !self.same_side(d, a) && self.ships[d].shields == 0
            && self.ships[d].hull == 1 && self.ships[a].shields + self.ships[a].hull >= 3
            && self.has(content, a, UpgradeEffect::CrewSufferTwoForCrit) {
            self.damaged(a).damaged(a).damaged(d).saying(
                Event::VaderCrew(a as usize, d as usize),
            ).shields_watched(content, a, self.ships[a].shields)
        } else {
            self
        }
    }

    /// Tactician, Ruthlessness and Darth Vader (crew), one after another.
    #[verifier::opaque]
    pub open spec fn riders(
        self,
        content: Content,
        sight: Sight,
        a: int,
        d: int,
        range: u8,
        landed: bool,
    ) -> Game {
        self.tactician(content, sight, a, d, range).ruthless(content, sight, a, d, landed).vader(
            content,
            a,
            d,
        )
    }

    /// Fire-Control System: a lock on the defender afterwards.
    #[verifier::opaque]
    pub open spec fn fire_control(self, content: Content, a: int, d: int) -> Game {
        if !self.ships[d].destroyed && !self.ships[a].locks(self.ships[d].id) && self.has(
            content,
            a,
            UpgradeEffect::SystemLockAfterAttack,
        ) {
            self.locking(content, a, d).saying(Event::FireControl(a as usize, d as usize))
        } else {
            self
        }
    }

    pub open spec fn specialist_rule(self, content: Content, sight: Sight, a: int) -> spec_fn(
        int,
    ) -> bool {
        |k: int|
            self.same_side(k, a) && !self.ships[k].destroyed && self.has(
                content,
                k,
                UpgradeEffect::CrewFocusAfterFriendlyMiss,
            ) && (k == a || (self.range(sight, k, a) is Some && 1 <= self.range(sight, k, a)->0
                <= 2))
    }

    pub open spec fn comrade_rule(self, sight: Sight, a: int) -> spec_fn(int) -> bool {
        |j: int|
            j != a && self.same_side(j, a) && !self.ships[j].destroyed && self.range(
                sight,
                a,
                j,
            ) is Some
    }

    pub open spec fn tokenless_rule(self, places: Seq<usize>) -> spec_fn(int) -> bool {
        |k: int| self.ships[places[k] as int].focus == 0
    }

    /// The friend at Range 1-3 of the attacker that gets the focus token: one
    /// without tokens first.
    pub open spec fn consoled(self, sight: Sight, a: int) -> Option<usize> {
        let friends = picked(self.comrade_rule(sight, a), 0, self.ships.len() as int);
        match first(self.tokenless_rule(friends), 0, friends.len() as int) {
            Some(k) => Some(friends[k as int]),
            None => if friends.len() > 0 {
                Some(friends[0])
            } else {
                None
            },
        }
    }

    /// After a miss, every Operations Specialist in reach hands a focus token
    /// to a friendly ship at Range 1-3 of the attacker.
    #[verifier::opaque]
    pub open spec fn missed(self, content: Content, sight: Sight, a: int) -> Game {
        self.consoling(
            sight,
            a,
            picked(self.specialist_rule(content, sight, a), 0, self.ships.len() as int),
            0,
        )
    }

    /// Operations Specialists at the places from `k` on each hand out a focus
    /// token.
    pub open spec fn consoling(self, sight: Sight, a: int, places: Seq<usize>, k: int) -> Game
        decreases places.len() - k,
    {
        if k >= places.len() {
            self
        } else {
            let g = match self.consoled(sight, a) {
                Some(j) => self.with_ship(j as int, self.ships[j as int].with_focus()).saying(
                    Event::OperationsSpecialist(places[k], j),
                ),
                None => self,
            };
            g.consoling(sight, a, places, k + 1)
        }
    }
}

impl Play {
    /// R5-K6: after the lock was spent, a defense die may bring it back.
    #[verifier::opaque]
    pub open spec fn relocked(self, content: Content, a: int, d: int, lock_spent: bool) -> Play {
        let g = self.game;
        if lock_spent && !g.ships[d].destroyed && !g.ships[a].locks(g.ships[d].id) && g.has(
            content,
            a,
            UpgradeEffect::ReLockOnEvadeDie,
        ) {
            if defense_face(self.shows()) == DefenseFace::Evade {
                self.rolled().at(
                    g.locking(content, a, d).saying(Event::R5K6(a as usize, d as usize)),
                )
            } else {
                self.rolled().saying(Event::R5K6Misses(a as usize))
            }
        } else {
            self
        }
    }

    /// Crew, talent and system effects that trigger after an attack:
    /// Tactician, Ruthlessness, Darth Vader (crew), Fire-Control System,
    /// R5-K6 and Operations Specialist.
    #[verifier::opaque]
    pub open spec fn attack_cards(
        self,
        content: Content,
        sight: Sight,
        a: int,
        d: int,
        range: u8,
        landed: bool,
        lock_spent: bool,
    ) -> Play {
        let g = self.game.riders(content, sight, a, d, range, landed);
        if g.ships[a].destroyed {
            self.at(g)
        } else {
            let p = self.at(g.fire_control(content, a, d)).relocked(content, a, d, lock_spent);
            if landed {
                p
            } else {
                p.at(p.game.missed(content, sight, a))
            }
        }
    }
}

impl GameState {
    fn find_splashed(&self, sight: &Sight, d: usize) -> (places: Vec<usize>)
        requires
            d < self@.ships.len(),
        ensures
            places@ == self@.splashed(*sight, d as int),
            forall|k: int| 0 <= k < places@.len() ==> #[trigger] places@[k] < self@.ships.len(),
    {
        let test = |j: usize| -> (yes: bool)
            requires
                j < self@.ships.len(),
            ensures
                yes == obeys(self@.splash_rule(*sight, d as int), j),
        {
            j != d && !self.ships[j].destroyed && self.range_between(sight, d, j) == Some(1)
        };
        pick(self.ships.len(), test, Ghost(self@.splash_rule(*sight, d as int)))
    }

    fn find_tracers(&self, content: &Content, sight: &Sight, a: usize) -> (places: Vec<usize>)
        requires
            a < self@.ships.len(),
        ensures
            places@ == picked(
                self@.tracer_rule(*content, *sight, a as int),
                0,
                self@.ships.len() as int,
            ),
            forall|k: int| 0 <= k < places@.len() ==> #[trigger] places@[k] < self@.ships.len(),
    {
        let test = |j: usize| -> (yes: bool)
            requires
                j < self@.ships.len(),
            ensures
                yes == obeys(self@.tracer_rule(*content, *sight, a as int), j),
        {
            j != a && self.allied(self.ships[j].owner, self.ships[a].owner)
                && !self.ships[j].destroyed && self.ships[j].lock_free(self.two_locks(content, j))
                && match self.range_between(sight, a, j) {
                Some(r) => 1 <= r && r <= 2,
                None => false,
            }
        };
        pick(self.ships.len(), test, Ghost(self@.tracer_rule(*content, *sight, a as int)))
    }

    /// "After you perform this attack" / "if this attack hits" riders on
    /// weapon cards, resolved after damage is dealt.
    pub fn after_attack_effects(
        &mut self,
        content: &Content,
        sight: &Sight,
        a: usize,
        d: usize,
        effect: UpgradeEffect,
        landed: bool,
    )
        requires
            a < old(self)@.ships.len(),
            d < old(self)@.ships.len(),
            old(self)@.known(*content),
        ensures
            final(self)@ == old(self)@.weapon_riders(
                *content,
                *sight,
                a as int,
                d as int,
                effect,
                landed,
            ),
            final(self)@.frame() == old(self)@.frame(),
    {
        reveal(Game::weapon_riders);
        assert(self@.frame().ships[d as int] == self@.ships[d as int].identity());
        match effect {
            // Flechette Torpedoes: stress if the defender's hull value is 4 or less.
            UpgradeEffect::TorpedoStressIfHullLow => {
                if self.printed(content, &self.ships[d]).hull <= 4 && !self.ships[d].destroyed {
                    self.add_stress(d);
                    self.say(Event::FlechetteTorpedoes(d));
                }
            },
            // Plasma Torpedoes: after dealing damage, remove 1 shield token.
            UpgradeEffect::TorpedoStripShield => {
                if landed && self.ships[d].shields > 0 {
                    let shields: u8 = self.ships[d].shields;
                    self.ship_mut(d).shields = shields - 1;
                    self.say(Event::PlasmaTorpedoes(d));
                    self.watch_shields(content, d, shields);
                }
            },
            // Ion Torpedoes: the defender and every ship at Range 1 of it are ionized.
            UpgradeEffect::TorpedoIonSplash => {
                if landed {
                    let near = self.find_splashed(sight, d);
                    self.add_ion(d, 1);
                    self.say(Event::IonTorpedoes(d));
                    let ghost start = self@;
                    let mut k: usize = 0;
                    while k < near.len()
                        invariant
                            k <= near.len(),
                            self@.frame() == start.frame(),
                            self@.ionizing(near@, k as int) == start.ionizing(near@, 0),
                        decreases near.len() - k,
                    {
                        self.add_ion(near[k], 1);
                        self.say(Event::AlsoIonized(near[k]));
                        k = k + 1;
                    }
                }
            },
            // Assault Missiles: each other ship at Range 1 of the defender suffers 1 damage.
            UpgradeEffect::MissileSplashRange1 => {
                if landed {
                    let near = self.find_splashed(sight, d);
                    let ghost start = self@;
                    let mut k: usize = 0;
                    while k < near.len()
                        invariant
                            k <= near.len(),
                            self@.frame() == start.frame(),
                            self@.splashing(*content, near@, k as int) == start.splashing(
                                *content,
                                near@,
                                0,
                            ),
                        decreases near.len() - k,
                    {
                        let shields: u8 = self.ships[near[k]].shields;
                        self.damage_point(near[k]);
                        let died = self.ships[near[k]].destroyed;
                        self.say(Event::AssaultMissiles(near[k], died));
                        self.watch_shields(content, near[k], shields);
                        k = k + 1;
                    }
                }
            },
            // XX-23 S-Thread Tracers: friends at Range 1-2 of the attacker
            // lock the defender (those without a lock take it).
            UpgradeEffect::MissileFriendsLockOnHit => {
                if landed {
                    let friends = self.find_tracers(content, sight, a);
                    let defender = self.ships[d].id;
                    let ghost start = self@;
                    let mut k: usize = 0;
                    while k < friends.len()
                        invariant
                            k <= friends.len(),
                            self@.frame() == start.frame(),
                            self@.ships[d as int].id == defender,
                            self@.tracing(*content, d as int, friends@, k as int) == start.tracing(
                                *content,
                                d as int,
                                friends@,
                                0,
                            ),
                        decreases friends.len() - k,
                    {
                        let j: usize = friends[k];
                        let two = self.two_locks(content, j);
                        self.ship_mut(j).take_lock(defender, two);
                        self.say(Event::ThreadTracers(j, d));
                        k = k + 1;
                    }
                }
            },
            _ => {},
        }
    }

    fn find_bystander(&self, sight: &Sight, a: usize, d: usize) -> (place: Option<usize>)
        requires
            a < self@.ships.len(),
            d < self@.ships.len(),
        ensures
            place == self@.bystander(*sight, a as int, d as int),
            place is Some ==> place->0 < self@.ships.len(),
    {
        let test = |j: usize| -> (yes: bool)
            requires
                j < self@.ships.len(),
            ensures
                yes == obeys(self@.bystander_rule(*sight, a as int, d as int), j),
        {
            j != d && j != a && !self.ships[j].destroyed && self.range_between(sight, d, j)
                == Some(1)
        };
        let near = pick(
            self.ships.len(),
            test,
            Ghost(self@.bystander_rule(*sight, a as int, d as int)),
        );
        let hostile = |k: usize| -> (yes: bool)
            requires
                k < near@.len(),
            ensures
                yes == obeys(self@.foe_rule(a as int, near@), k),
        { !self.allied(self.ships[near[k]].owner, self.ships[a].owner) };
        match find(near.len(), hostile, Ghost(self@.foe_rule(a as int, near@))) {
            Some(k) => Some(near[k]),
            None => {
                if near.len() > 0 {
                    Some(near[0])
                } else {
                    None
                }
            },
        }
    }

    fn find_specialists(&self, content: &Content, sight: &Sight, a: usize) -> (places: Vec<usize>)
        requires
            a < self@.ships.len(),
        ensures
            places@ == picked(
                self@.specialist_rule(*content, *sight, a as int),
                0,
                self@.ships.len() as int,
            ),
            forall|k: int| 0 <= k < places@.len() ==> #[trigger] places@[k] < self@.ships.len(),
    {
        let test = |k: usize| -> (yes: bool)
            requires
                k < self@.ships.len(),
            ensures
                yes == obeys(self@.specialist_rule(*content, *sight, a as int), k),
        {
            self.allied(self.ships[k].owner, self.ships[a].owner) && !self.ships[k].destroyed
                && self.has_effect(content, k, UpgradeEffect::CrewFocusAfterFriendlyMiss) && (k == a
                || match self.range_between(sight, k, a) {
                Some(r) => 1 <= r && r <= 2,
                None => false,
            })
        };
        pick(self.ships.len(), test, Ghost(self@.specialist_rule(*content, *sight, a as int)))
    }

    fn find_consoled(&self, sight: &Sight, a: usize) -> (place: Option<usize>)
        requires
            a < self@.ships.len(),
        ensures
            place == self@.consoled(*sight, a as int),
            place is Some ==> place->0 < self@.ships.len(),
    {
        let test = |j: usize| -> (yes: bool)
            requires
                j < self@.ships.len(),
            ensures
                yes == obeys(self@.comrade_rule(*sight, a as int), j),
        {
            j != a && self.allied(self.ships[j].owner, self.ships[a].owner)
                && !self.ships[j].destroyed && self.range_between(sight, a, j).is_some()
        };
        let friends = pick(
            self.ships.len(),
            test,
            Ghost(self@.comrade_rule(*sight, a as int)),
        );
        let tokenless = |k: usize| -> (yes: bool)
            requires
                k < friends@.len(),
            ensures
                yes == obeys(self@.tokenless_rule(friends@), k),
        { self.ships[friends[k]].focus == 0 };
        match find(friends.len(), tokenless, Ghost(self@.tokenless_rule(friends@))) {
            Some(k) => Some(friends[k]),
            None => {
                if friends.len() > 0 {
                    Some(friends[0])
                } else {
                    None
                }
            },
        }
    }

    /// Tactician, Ruthlessness and Darth Vader (crew).
    fn attack_riders(
        &mut self,
        content: &Content,
        sight: &Sight,
        a: usize,
        d: usize,
        range: u8,
        landed: bool,
    )
        requires
            a < old(self)@.ships.len(),
            d < old(self)@.ships.len(),
        ensures
            final(self)@ == old(self)@.riders(
                *content,
                *sight,
                a as int,
                d as int,
                range,
                landed,
            ),
            final(self)@.frame() == old(self)@.frame(),
    {
        reveal(Game::riders);
        // Tactician: a target at Range 2 inside the arc is stressed.
        if range == 2 && !self.ships[d].destroyed && self.has_effect(
            content,
            a,
            UpgradeEffect::CrewStressTargetAtRange2InArc,
        ) && self.ship_in_front_arc(sight, a, d) {
            self.say(Event::Tactician(a, d));
            self.gain_stress(content, sight, d);
        }
        let ghost stressed = self@;
        // Ruthlessness: after a hit, another ship at Range 1 of the
        // defender suffers 1 damage — an enemy if there is one, else a
        // friend (the card says must).
        if landed && self.has_effect(content, a, UpgradeEffect::SplashDamageAfterHit) {
            if let Some(j) = self.find_bystander(sight, a, d) {
                let shields: u8 = self.ships[j].shields;
                self.damage_point(j);
                let died = self.ships[j].destroyed;
                self.say(Event::Ruthlessness(a, j, died));
                self.watch_shields(content, j, shields);
            }
        }
        assert(self@ == stressed.ruthless(*content, *sight, a as int, d as int, landed));
        // Darth Vader (crew): two damage to the attacker for a critical
        // hit on the defender — taken when it finishes the defender off
        // and the attacker keeps at least one hull.
        if !self.ships[d].destroyed && !self.allied(self.ships[d].owner, self.ships[a].owner)
            && self.ships[d].shields == 0 && self.ships[d].hull == 1 && (self.ships[a].shields as u16)
            + (self.ships[a].hull as u16) >= 3 && self.has_effect(
            content,
            a,
            UpgradeEffect::CrewSufferTwoForCrit,
        ) {
            let shields: u8 = self.ships[a].shields;
            self.damage_point(a);
            self.damage_point(a);
            self.damage_point(d);
            self.say(Event::VaderCrew(a, d));
            self.watch_shields(content, a, shields);
        }
    }

    /// Crew, talent and system effects that trigger after an attack:
    /// Tactician, Ruthlessness, Darth Vader (crew), Fire-Control System,
    /// R5-K6 and Operations Specialist.
    pub fn after_attack_cards(
        &mut self,
        content: &Content,
        sight: &Sight,
        a: usize,
        shot: Shot,
        landed: bool,
        lock_spent: bool,
        dice: &mut Dice,
    )
        requires
            a < old(self)@.ships.len(),
            shot.d_idx < old(self)@.ships.len(),
        ensures
            (Play { game: final(self)@, dice: final(dice)@ }) == (Play {
                game: old(self)@,
                dice: old(dice)@,
            }).attack_cards(
                *content,
                *sight,
                a as int,
                shot.d_idx as int,
                shot.range,
                landed,
                lock_spent,
            ),
            final(self)@.frame() == old(self)@.frame(),
    {
        reveal(Play::attack_cards);
        let d: usize = shot.d_idx;
        self.attack_riders(content, sight, a, d, shot.range, landed);
        if self.ships[a].destroyed {
            return;
        }
        self.lock_after_attack(content, a, d);
        self.relock(content, a, d, lock_spent, dice);
        if !landed {
            self.console(content, sight, a);
        }
    }

    /// Fire-Control System: a lock on the defender afterwards.
    fn lock_after_attack(&mut self, content: &Content, a: usize, d: usize)
        requires
            a < old(self)@.ships.len(),
            d < old(self)@.ships.len(),
        ensures
            final(self)@ == old(self)@.fire_control(*content, a as int, d as int),
            final(self)@.frame() == old(self)@.frame(),
    {
        reveal(Game::fire_control);
        let defender = self.ships[d].id;
        if !self.ships[d].destroyed && !self.ships[a].locks_on(defender) && self.has_effect(
            content,
            a,
            UpgradeEffect::SystemLockAfterAttack,
        ) {
            let two = self.two_locks(content, a);
            self.ship_mut(a).take_lock(defender, two);
            self.say(Event::FireControl(a, d));
        }
    }

    /// R5-K6: after spending the lock, a defense die may bring it back.
    fn relock(&mut self, content: &Content, a: usize, d: usize, lock_spent: bool, dice: &mut Dice)
        requires
            a < old(self)@.ships.len(),
            d < old(self)@.ships.len(),
        ensures
            (Play { game: final(self)@, dice: final(dice)@ }) == (Play {
                game: old(self)@,
                dice: old(dice)@,
            }).relocked(*content, a as int, d as int, lock_spent),
            final(self)@.frame() == old(self)@.frame(),
    {
        reveal(Play::relocked);
        let defender = self.ships[d].id;
        if lock_spent && !self.ships[d].destroyed && !self.ships[a].locks_on(defender)
            && self.has_effect(content, a, UpgradeEffect::ReLockOnEvadeDie) {
            if DefenseFace::from_d8(dice.roll()) == DefenseFace::Evade {
                let two = self.two_locks(content, a);
                self.ship_mut(a).take_lock(defender, two);
                self.say(Event::R5K6(a, d));
            } else {
                self.say(Event::R5K6Misses(a));
            }
        }
    }

    /// Operations Specialist: a friend's miss at Range 1-2 hands a
    /// focus token to a friendly ship at Range 1-3 of the attacker
    /// (one without tokens first).
    fn console(&mut self, content: &Content, sight: &Sight, a: usize)
        requires
            a < old(self)@.ships.len(),
        ensures
            final(self)@ == old(self)@.missed(*content, *sight, a as int),
            final(self)@.frame() == old(self)@.frame(),
    {
        reveal(Game::missed);
        let specialists = self.find_specialists(content, sight, a);
        let mut k: usize = 0;
        while k < specialists.len()
            invariant
                k <= specialists.len(),
                self@.frame() == old(self)@.frame(),
                self@.consoling(*sight, a as int, specialists@, k as int)
                    == old(self)@.consoling(*sight, a as int, specialists@, 0),
            decreases specialists.len() - k,
        {
            if let Some(j) = self.find_consoled(sight, a) {
                self.add_focus(j);
                self.say(Event::OperationsSpecialist(specialists[k], j));
            }
            k = k + 1;
        }
    }
}

} // verus!
