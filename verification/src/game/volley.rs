//! An attack in progress, from its declaration to the attack roll.

#![verifier::loop_isolation(false)]

use vstd::prelude::*;

use crate::crit::{find_crit, tally_crits, CritEffect};
use crate::data::Content;
use crate::dice::{
    find_face, spot, tally, throw_dice, thrown, turn_all, turned_all, AttackFace, Dice, Tape,
};
use crate::event::Event;
use crate::game::cards::one_if;
use crate::game::state::{Game, GameState, Shot};
use crate::pilot::PilotAbility;
use crate::ship::{down, sat, ShipModel};
use crate::sight::Sight;
use crate::upgrade::{AttackRequirement, SecondaryWeapon, UpgradeEffect};

verus! {

broadcast use crate::game::state::framing;

/// What the attacker has spent on the attack so far.
#[derive(Debug, Clone, Copy, PartialEq, Eq, Structural)]
pub struct Spent {
    pub lock: bool,
    pub focus: bool,
    /// The lock cannot be spent any more.
    pub frozen: bool,
    /// Every die was turned into a critical hit.
    pub all_crits: bool,
}

/// Who may do what to the dice.
#[derive(Debug, Clone, Copy, PartialEq, Eq, Structural)]
pub struct Verdict {
    /// The attacker may modify dice at all.
    pub modify: bool,
    /// The attacker may spend tokens and reroll.
    pub spend: bool,
    /// The attacker may spend focus tokens.
    pub focus: bool,
    /// The defender may modify dice at all.
    pub guard: bool,
}

impl Shot {
    /// The attack printed on the weapon card, or None for the primary weapon.
    pub open spec fn secondary(self, content: Content) -> Option<SecondaryWeapon> {
        match self.weapon {
            Some(u) => match content.card(u) {
                Some(c) => c.attack,
                None => None,
            },
            None => None,
        }
    }

    /// What the weapon card does.
    pub open spec fn rider(self, content: Content) -> Option<UpgradeEffect> {
        match self.weapon {
            Some(u) => content.does(u),
            None => None,
        }
    }

    /// The weapon fires a second time.
    pub open spec fn twice(self, content: Content) -> bool {
        self.rider(content) == Some(UpgradeEffect::MissileAttackTwice) || self.rider(content)
            == Some(UpgradeEffect::TurretTwinLaserTwiceOneDamage)
    }

    /// The attack printed on the weapon card, or None for the primary weapon.
    pub fn secondary_weapon(&self, content: &Content) -> (weapon: Option<SecondaryWeapon>)
        ensures
            weapon == self.secondary(*content),
    {
        match self.weapon {
            Some(u) => match content.upgrades.upgrade(u) {
                Some(c) => c.attack,
                None => None,
            },
            None => None,
        }
    }

    /// What the weapon card does.
    pub fn weapon_effect(&self, content: &Content) -> (effect: Option<UpgradeEffect>)
        ensures
            effect == self.rider(*content),
    {
        match self.weapon {
            Some(u) => content.effect(u),
            None => None,
        }
    }

    /// Does the weapon fire a second time?
    pub fn fires_twice(&self, content: &Content) -> (yes: bool)
        ensures
            yes == self.twice(*content),
    {
        let effect = self.weapon_effect(content);
        effect == Some(UpgradeEffect::MissileAttackTwice) || effect == Some(
            UpgradeEffect::TurretTwinLaserTwiceOneDamage,
        )
    }
}

impl Game {
    /// The attack is declared: Rebel Captive stresses the first attacker of
    /// the round, and R3-A2 an unstressed attacker and a defender in arc.
    #[verifier::opaque]
    pub open spec fn declaring(self, content: Content, sight: Sight, a: int, shot: Shot) -> Game {
        let d = shot.d_idx as int;
        let g = if sight.at(a, d).obstructed {
            self.saying(Event::Obstructed(a as usize))
        } else {
            self
        };
        let g = if !shot.second && g.unused(
            content,
            d,
            UpgradeEffect::CrewStressFirstAttacker,
        ) is Some {
            g.used(content, d, UpgradeEffect::CrewStressFirstAttacker).saying(
                Event::RebelCaptive(d as usize, a as usize),
            ).stressed(content, sight, a)
        } else {
            g
        };
        if !shot.second && g.ships[a].stress == 0 && g.has(
            content,
            a,
            UpgradeEffect::StressDefenderIfInArc,
        ) && g.in_arc(sight, a, d) {
            g.saying(Event::R3A2(a as usize, d as usize)).stressed(content, sight, a).stressed(
                content,
                sight,
                d,
            )
        } else {
            g
        }
    }

    /// The dice of the weapon: its own, or the primary weapon's with Expose.
    pub open spec fn weapon_dice(self, content: Content, a: int, shot: Shot) -> u8 {
        match shot.secondary(content) {
            Some(sw) => sw.dice,
            None => sat(
                self.ships[a].printed(content).attack + one_if(
                    self.ships[a].acting(content, UpgradeEffect::ExposeAction),
                ),
            ),
        }
    }

    /// Extra dice by the weapon card: Dorsal Turret at Range 1, Proton
    /// Rockets by agility (3 at most).
    pub open spec fn rocket_dice(self, content: Content, sight: Sight, a: int, shot: Shot) -> u8 {
        match shot.rider(content) {
            Some(UpgradeEffect::TurretDorsalExtraDieAtRange1) => if shot.range == 1 {
                1
            } else {
                0
            },
            Some(UpgradeEffect::RocketExtraDiceByAgility) => if self.agility(content, sight, a)
                > 3 {
                3
            } else {
                self.agility(content, sight, a)
            },
            _ => 0,
        }
    }

    /// Zertik Strom: enemies at Range 1 of him get no Range-1 bonus.
    pub open spec fn zertik(self, content: Content, sight: Sight, a: int) -> bool {
        self.enemy_ability(content, sight, a, PilotAbility::DenyEnemyRange1Bonus)
    }

    /// Trick Shot: one more die for an obstructed attack.
    pub open spec fn trick_shot(self, content: Content, sight: Sight, a: int, d: int) -> bool {
        sight.at(a, d).obstructed && self.has(content, a, UpgradeEffect::ExtraAttackDieIfObstructed)
    }

    /// What is told about the weapon's dice before the roll.
    #[verifier::opaque]
    pub open spec fn dice_told(self, content: Content, sight: Sight, a: int, shot: Shot) -> Game {
        let d = shot.d_idx as int;
        let g = if self.zertik(content, sight, a) && shot.range == 1 && shot.secondary(content)
            is None {
            self.saying(Event::ZertikDenies(a as usize))
        } else {
            self
        };
        let g = if self.rocket_dice(content, sight, a, shot) > 0 {
            g.saying(Event::WeaponDice(a as usize, self.rocket_dice(content, sight, a, shot)))
        } else {
            g
        };
        if self.trick_shot(content, sight, a, d) {
            g.saying(Event::TrickShot(a as usize))
        } else {
            g
        }
    }

    /// Dice that the weapon and the range give, before abilities.
    #[verifier::opaque]
    pub open spec fn base_dice(self, content: Content, sight: Sight, a: int, shot: Shot) -> u8 {
        let point_blank = shot.range == 1 && shot.secondary(content) is None && !self.zertik(
            content,
            sight,
            a,
        );
        sat(
            self.weapon_dice(content, a, shot) + one_if(point_blank) + self.rocket_dice(
                content,
                sight,
                a,
                shot,
            ) + one_if(self.trick_shot(content, sight, a, shot.d_idx as int)),
        )
    }

    /// A Blinded Pilot fires 0 dice once, then recovers.
    pub open spec fn unblinded(self, a: int) -> Game {
        let s = self.ships[a];
        self.with_ship(
            a,
            ShipModel {
                crits: s.crits.remove(spot(s.crits, CritEffect::BlindedPilot)->0 as int),
                ..s
            },
        ).saying(Event::FiresWildly(a as usize))
    }

    /// How many attack dice are rolled, and the game once that is settled.
    /// Weapon Malfunction drops one die of the primary weapon per copy.
    #[verifier::opaque]
    pub open spec fn gunnery(self, content: Content, sight: Sight, a: int, shot: Shot) -> (
        Game,
        u8,
    ) {
        let d = shot.d_idx as int;
        let base = self.base_dice(content, sight, a, shot);
        let g = self.dice_told(content, sight, a, shot);
        if g.ships[a].crits.contains(CritEffect::BlindedPilot) {
            (g.unblinded(a), 0)
        } else {
            let malfunctions = if shot.secondary(content) is None {
                tally(g.ships[a].crits, CritEffect::WeaponMalfunction)
            } else {
                0
            };
            let more = one_if(g.extra_die(content, sight, a, d, shot.range) is Some);
            let g = g.extra_died(content, sight, a, d, shot.range);
            let more = more + one_if(g.opportune(content, a, d));
            let g = g.opportunist(content, sight, a, d);
            let all = sat(base + more);
            let n = if all >= malfunctions {
                (all - malfunctions) as u8
            } else {
                0
            };
            if shot.secondary(content) is None && g.has(
                content,
                a,
                UpgradeEffect::ExtraDiceFromFriendlyEvades,
            ) {
                (g.swarmed(sight, a, d), sat(n + g.swarm_dice(sight, a, d)))
            } else {
                (g, n)
            }
        }
    }
}

impl Game {
    /// The attacker spends a focus token to fire.
    pub open spec fn focus_paid(self, a: int) -> Game {
        self.with_ship(
            a,
            ShipModel { focus: down(self.ships[a].focus), ..self.ships[a] },
        )
    }

    /// The attacker spends its lock on the defender to fire. Targeting
    /// Synchronizer: a friend's lock counts, and nothing is spent; Deadeye:
    /// the focus token is spent as the lock.
    #[verifier::opaque]
    pub open spec fn lock_paid(self, content: Content, sight: Sight, a: int, d: int) -> (
        Game,
        Spent,
    ) {
        let defender = self.ships[d].id;
        if self.ships[a].locks(defender) {
            (
                self.with_ship(a, self.ships[a].unlocking(defender)),
                Spent { lock: true, ..unspent() },
            )
        } else if self.synced(content, sight, a, defender) {
            (self.saying(Event::Synchronized(a as usize)), unspent())
        } else {
            (
                self.focus_paid(a).saying(Event::Deadeye(a as usize)),
                Spent { focus: true, ..unspent() },
            )
        }
    }

    /// A secondary weapon is fired: the required token is spent up front when
    /// the card says so.
    #[verifier::opaque]
    pub open spec fn arming(self, content: Content, sight: Sight, a: int, shot: Shot) -> (
        Game,
        Spent,
    ) {
        match shot.secondary(content) {
            None => (self, unspent()),
            Some(sw) => {
                let g = self.saying(Event::Fires(a as usize, shot.weapon->0, shot.second));
                if !sw.spend || shot.second {
                    (g, unspent())
                } else {
                    match sw.requires {
                        AttackRequirement::Free => (g, unspent()),
                        AttackRequirement::Focus => (
                            g.focus_paid(a),
                            Spent { focus: true, ..unspent() },
                        ),
                        AttackRequirement::TargetLock => g.lock_paid(
                            content,
                            sight,
                            a,
                            shot.d_idx as int,
                        ),
                    }
                }
            },
        }
    }

    /// What joins and leaves the dice right after the roll. Finn: a blank
    /// joins a primary attack on a ship in arc. Sensor Jammer: the defender
    /// turns one hit into a focus result that cannot be rerolled; it is held
    /// aside, which the last value says.
    #[verifier::opaque]
    pub open spec fn tampering(
        self,
        content: Content,
        sight: Sight,
        a: int,
        shot: Shot,
        faces: Seq<AttackFace>,
    ) -> (Game, Seq<AttackFace>, bool) {
        let d = shot.d_idx as int;
        let finn = shot.secondary(content) is None && faces.len() > 0 && self.has(
            content,
            a,
            UpgradeEffect::CrewAddBlankIfEnemyInArc,
        ) && self.in_arc(sight, a, d);
        let g = if finn {
            self.saying(Event::FinnAddsBlank(a as usize))
        } else {
            self
        };
        let faces = if finn {
            faces.push(AttackFace::Blank)
        } else {
            faces
        };
        let hit = spot(faces, AttackFace::Hit);
        if g.has(content, d, UpgradeEffect::SystemAttackerHitToFocus) && hit is Some {
            (g.saying(Event::SensorJammer(d as usize)), faces.remove(hit->0 as int), true)
        } else {
            (g, faces, false)
        }
    }

    /// Who may do what to the dice. Omega Leader: an enemy he has locked
    /// cannot modify any dice against him, and cannot modify any when he
    /// attacks it. Dark Curse: attackers cannot spend focus tokens or reroll.
    /// Carnor Jax at Range 1: focus and evade tokens cannot be spent.
    #[verifier::opaque]
    pub open spec fn verdict(self, content: Content, sight: Sight, a: int, shot: Shot) -> Verdict {
        let d = shot.d_idx as int;
        let omega = PilotAbility::LockedEnemiesCannotModifyDice;
        let modify = !(self.can(content, d, omega) && self.ships[d].locks(self.ships[a].id))
            && !shot.no_mods;
        let curse = self.can(content, d, PilotAbility::DefenderDeniesFocusAndRerolls);
        Verdict {
            modify,
            spend: modify && !curse,
            focus: modify && !curse && !self.carnor(content, sight, a),
            guard: !(self.can(content, a, omega) && self.ships[a].locks(self.ships[d].id)),
        }
    }

    /// The denials are told.
    #[verifier::opaque]
    pub open spec fn judged(self, content: Content, a: int, shot: Shot, v: Verdict) -> Game {
        let d = shot.d_idx as int;
        let g = if !v.modify {
            self.saying(Event::AttackerLocked(d as usize))
        } else if self.can(content, d, PilotAbility::DefenderDeniesFocusAndRerolls) && (
        self.ships[a].focus > 0 || self.ships[a].locks(self.ships[d].id)) {
            self.saying(Event::DarkCurse(d as usize))
        } else {
            self
        };
        if !v.guard {
            g.saying(Event::DefenderLocked(a as usize))
        } else {
            g
        }
    }
}

/// Nothing has been spent yet.
pub open spec fn unspent() -> Spent {
    Spent { lock: false, focus: false, frozen: false, all_crits: false }
}

/// What the attack dice show after the throw. Heavy Laser Cannon: crits
/// become hits immediately.
pub open spec fn fired(dice: Tape, n: u8, rider: Option<UpgradeEffect>) -> Seq<AttackFace> {
    let faces = thrown::<AttackFace>(dice, n as nat);
    if rider == Some(UpgradeEffect::CannonCritsToHits) {
        turned_all(faces, AttackFace::Crit, AttackFace::Hit)
    } else {
        faces
    }
}

impl GameState {
    /// The attack is declared.
    pub fn declare_attack(&mut self, content: &Content, sight: &Sight, a: usize, shot: Shot)
        requires
            a < old(self)@.ships.len(),
            shot.d_idx < old(self)@.ships.len(),
        ensures
            final(self)@ == old(self)@.declaring(*content, *sight, a as int, shot),
            final(self)@.frame() == old(self)@.frame(),
    {
        reveal(Game::declaring);
        let d: usize = shot.d_idx;
        // Obstruction: the range ruler between the closest points crosses
        // an obstacle → the defender rolls one extra die (Trick Shot: the
        // attacker too).
        if sight.line(a, d).obstructed {
            self.say(Event::Obstructed(a));
        }
        // Rebel Captive: the first ship to target this one each round is
        // stressed on declaring the attack.
        if !shot.second {
            if self.use_once(content, d, UpgradeEffect::CrewStressFirstAttacker).is_some() {
                self.say(Event::RebelCaptive(d, a));
                self.gain_stress(content, sight, a);
            }
        }
        // R3-A2: an unstressed attacker takes a stress to stress a
        // defender inside its firing arc.
        if !shot.second && self.ships[a].stress == 0 && self.has_effect(
            content,
            a,
            UpgradeEffect::StressDefenderIfInArc,
        ) && self.ship_in_front_arc(sight, a, d) {
            self.say(Event::R3A2(a, d));
            self.gain_stress(content, sight, a);
            self.gain_stress(content, sight, d);
        }
    }

    fn pay_focus(&mut self, a: usize)
        requires
            a < old(self)@.ships.len(),
        ensures
            final(self)@ == old(self)@.focus_paid(a as int),
            final(self)@.frame() == old(self)@.frame(),
    {
        let s = self.ship_mut(a);
        s.focus = s.focus.saturating_sub(1);
    }

    fn pay_lock(&mut self, content: &Content, sight: &Sight, a: usize, d: usize) -> (spent: Spent)
        requires
            a < old(self)@.ships.len(),
            d < old(self)@.ships.len(),
        ensures
            (final(self)@, spent) == old(self)@.lock_paid(*content, *sight, a as int, d as int),
            final(self)@.frame() == old(self)@.frame(),
    {
        reveal(Game::lock_paid);
        let defender = self.ships[d].id;
        if self.ships[a].locks_on(defender) {
            self.ship_mut(a).drop_lock(defender);
            return Spent { lock: true, focus: false, frozen: false, all_crits: false };
        }
        if self.synced_lock(content, sight, a, defender) {
            // Targeting Synchronizer: a friend's lock counts, and
            // nothing is spent.
            self.say(Event::Synchronized(a));
            return Spent { lock: false, focus: false, frozen: false, all_crits: false };
        }
        // Deadeye: the focus token is spent as the lock.
        self.pay_focus(a);
        self.say(Event::Deadeye(a));
        Spent { lock: false, focus: true, frozen: false, all_crits: false }
    }

    /// Secondary weapon: the required token is spent up front when the card
    /// says so.
    pub fn arm(&mut self, content: &Content, sight: &Sight, a: usize, shot: Shot) -> (spent: Spent)
        requires
            a < old(self)@.ships.len(),
            shot.d_idx < old(self)@.ships.len(),
        ensures
            (final(self)@, spent) == old(self)@.arming(*content, *sight, a as int, shot),
            final(self)@.frame() == old(self)@.frame(),
    {
        reveal(Game::arming);
        let none = Spent { lock: false, focus: false, frozen: false, all_crits: false };
        let sw = match shot.secondary_weapon(content) {
            None => return none,
            Some(sw) => sw,
        };
        let card = match shot.weapon {
            None => return none,
            Some(card) => card,
        };
        self.say(Event::Fires(a, card, shot.second));
        if !sw.spend || shot.second {
            return none;
        }
        match sw.requires {
            AttackRequirement::TargetLock => self.pay_lock(content, sight, a, shot.d_idx),
            AttackRequirement::Focus => {
                self.pay_focus(a);
                Spent { lock: false, focus: true, frozen: false, all_crits: false }
            },
            AttackRequirement::Free => none,
        }
    }

    fn count_rocket_dice(&self, content: &Content, sight: &Sight, a: usize, shot: Shot) -> (n: u8)
        requires
            a < self@.ships.len(),
            self@.known(*content),
        ensures
            n == self@.rocket_dice(*content, *sight, a as int, shot),
    {
        // Dorsal Turret: +1 die at Range 1. Proton Rockets: + agility (max 3).
        match shot.weapon_effect(content) {
            Some(UpgradeEffect::TurretDorsalExtraDieAtRange1) => {
                if shot.range == 1 {
                    1
                } else {
                    0
                }
            },
            Some(UpgradeEffect::RocketExtraDiceByAgility) => {
                let agility: u8 = self.agility(content, sight, a);
                if agility > 3 {
                    3
                } else {
                    agility
                }
            },
            _ => 0,
        }
    }

    fn is_trick_shot(&self, content: &Content, sight: &Sight, a: usize, d: usize) -> (yes: bool)
        requires
            a < self@.ships.len(),
        ensures
            yes == self@.trick_shot(*content, *sight, a as int, d as int),
    {
        sight.line(a, d).obstructed && self.has_effect(
            content,
            a,
            UpgradeEffect::ExtraAttackDieIfObstructed,
        )
    }

    /// Dice that the weapon and the range give, before abilities.
    fn count_base_dice(&self, content: &Content, sight: &Sight, a: usize, shot: Shot) -> (n: u8)
        requires
            a < self@.ships.len(),
            self@.known(*content),
        ensures
            n == self@.base_dice(*content, *sight, a as int, shot),
    {
        reveal(Game::base_dice);
        assert(self@.frame().ships[a as int] == self@.ships[a as int].identity());
        let secondary = shot.secondary_weapon(content);
        let weapon: u8 = match secondary {
            Some(sw) => sw.dice,
            None => {
                let expose: u8 = if self.card_action_active(
                    content,
                    &self.ships[a],
                    UpgradeEffect::ExposeAction,
                ) {
                    1
                } else {
                    0
                };
                self.printed(content, &self.ships[a]).attack.saturating_add(expose)
            },
        };
        let zertik = self.enemy_ability_at_range1(
            content,
            sight,
            a,
            PilotAbility::DenyEnemyRange1Bonus,
        );
        let point_blank: u8 = if shot.range == 1 && secondary.is_none() && !zertik {
            1
        } else {
            0
        };
        let trick: u8 = if self.is_trick_shot(content, sight, a, shot.d_idx) {
            1
        } else {
            0
        };
        let rocket: u8 = self.count_rocket_dice(content, sight, a, shot);
        weapon.saturating_add(point_blank).saturating_add(rocket).saturating_add(trick)
    }

    fn tell_dice(&mut self, content: &Content, sight: &Sight, a: usize, shot: Shot)
        requires
            a < old(self)@.ships.len(),
            old(self)@.known(*content),
        ensures
            final(self)@ == old(self)@.dice_told(*content, *sight, a as int, shot),
            final(self)@.frame() == old(self)@.frame(),
    {
        reveal(Game::dice_told);
        // Zertik Strom: enemies at Range 1 of him get no Range-1 bonus.
        let zertik = self.enemy_ability_at_range1(
            content,
            sight,
            a,
            PilotAbility::DenyEnemyRange1Bonus,
        );
        let rocket: u8 = self.count_rocket_dice(content, sight, a, shot);
        let trick = self.is_trick_shot(content, sight, a, shot.d_idx);
        if zertik && shot.range == 1 && shot.secondary_weapon(content).is_none() {
            self.say(Event::ZertikDenies(a));
        }
        if rocket > 0 {
            self.say(Event::WeaponDice(a, rocket));
        }
        if trick {
            self.say(Event::TrickShot(a));
        }
    }

    /// How many attack dice are rolled.
    pub fn count_attack_dice(&mut self, content: &Content, sight: &Sight, a: usize, shot: Shot) -> (n:
        u8)
        requires
            a < old(self)@.ships.len(),
            shot.d_idx < old(self)@.ships.len(),
            old(self)@.known(*content),
        ensures
            (final(self)@, n) == old(self)@.gunnery(*content, *sight, a as int, shot),
            final(self)@.frame() == old(self)@.frame(),
    {
        reveal(Game::gunnery);
        let d: usize = shot.d_idx;
        let base: u8 = self.count_base_dice(content, sight, a, shot);
        self.tell_dice(content, sight, a, shot);
        // A Blinded Pilot fires 0 dice once, then recovers.
        if let Some(k) = find_crit(&self.ships[a].crits, CritEffect::BlindedPilot) {
            self.ship_mut(a).crits.remove(k);
            self.say(Event::FiresWildly(a));
            return 0;
        }
        // Weapon Malfunction drops one die of the primary weapon per copy.
        let malfunctions: u8 = if shot.secondary_weapon(content).is_none() {
            tally_crits(&self.ships[a].crits, CritEffect::WeaponMalfunction)
        } else {
            0
        };
        let extra: u8 = self.extra_attack_dice(content, sight, a, d, shot.range);
        let chance: u8 = self.opportunist_die(content, sight, a, d);
        let n: u8 = base.saturating_add(extra).saturating_add(chance).saturating_sub(malfunctions);
        if shot.secondary_weapon(content).is_none() && self.has_effect(
            content,
            a,
            UpgradeEffect::ExtraDiceFromFriendlyEvades,
        ) {
            let swarm: u8 = self.swarm_leader_dice(sight, a, d);
            n.saturating_add(swarm)
        } else {
            n
        }
    }

    /// Throw the attack dice.
    pub fn roll_attack(n: u8, effect: Option<UpgradeEffect>, dice: &mut Dice) -> (faces: Vec<
        AttackFace,
    >)
        ensures
            faces@ == fired(old(dice)@, n, effect),
            final(dice)@ == old(dice)@.rolled_by(n as nat),
    {
        let mut faces: Vec<AttackFace> = throw_dice(n as usize, dice);
        // Heavy Laser Cannon: crits become hits immediately after rolling.
        if effect == Some(UpgradeEffect::CannonCritsToHits) {
            turn_all(&mut faces, AttackFace::Crit, AttackFace::Hit);
        }
        faces
    }

    /// Finn and the Sensor Jammer; says whether a hit was jammed.
    pub fn tamper(
        &mut self,
        content: &Content,
        sight: &Sight,
        a: usize,
        shot: Shot,
        faces: &mut Vec<AttackFace>,
    ) -> (jammed: bool)
        requires
            a < old(self)@.ships.len(),
            shot.d_idx < old(self)@.ships.len(),
        ensures
            (final(self)@, final(faces)@, jammed) == old(self)@.tampering(
                *content,
                *sight,
                a as int,
                shot,
                old(faces)@,
            ),
            final(self)@.frame() == old(self)@.frame(),
    {
        reveal(Game::tampering);
        let d: usize = shot.d_idx;
        // Finn: a blank joins a primary attack on a ship in arc (reroll
        // fodder).
        if shot.secondary_weapon(content).is_none() && faces.len() > 0 && self.has_effect(
            content,
            a,
            UpgradeEffect::CrewAddBlankIfEnemyInArc,
        ) && self.ship_in_front_arc(sight, a, d) {
            faces.push(AttackFace::Blank);
            self.say(Event::FinnAddsBlank(a));
        }
        // Sensor Jammer: the defender turns one hit into a focus result
        // that cannot be rerolled — held aside until the rerolls are over.
        if self.has_effect(content, d, UpgradeEffect::SystemAttackerHitToFocus) {
            if let Some(k) = find_face(faces, AttackFace::Hit) {
                faces.remove(k);
                self.say(Event::SensorJammer(d));
                return true;
            }
        }
        false
    }

    /// Who may do what to the dice.
    pub fn judge(&mut self, content: &Content, sight: &Sight, a: usize, shot: Shot) -> (v: Verdict)
        requires
            a < old(self)@.ships.len(),
            shot.d_idx < old(self)@.ships.len(),
        ensures
            v == old(self)@.verdict(*content, *sight, a as int, shot),
            final(self)@ == old(self)@.judged(*content, a as int, shot, v),
            final(self)@.frame() == old(self)@.frame(),
    {
        reveal(Game::verdict);
        reveal(Game::judged);
        let d: usize = shot.d_idx;
        let attacker = self.ships[a].id;
        let defender = self.ships[d].id;
        let modify = !(self.has_ability(
            content,
            d,
            PilotAbility::LockedEnemiesCannotModifyDice,
        ) && self.ships[d].locks_on(attacker)) && !shot.no_mods;
        let guard = !(self.has_ability(content, a, PilotAbility::LockedEnemiesCannotModifyDice)
            && self.ships[a].locks_on(defender));
        let curse = self.has_ability(content, d, PilotAbility::DefenderDeniesFocusAndRerolls);
        let v = Verdict {
            modify,
            spend: modify && !curse,
            focus: modify && !curse && !self.carnor_near(content, sight, a),
            guard,
        };
        if !modify {
            self.say(Event::AttackerLocked(d));
        } else if curse && (self.ships[a].focus > 0 || self.ships[a].locks_on(defender)) {
            self.say(Event::DarkCurse(d));
        }
        if !guard {
            self.say(Event::DefenderLocked(a));
        }
        v
    }
}

} // verus!
