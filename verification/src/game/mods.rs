//! Dice modified by cards: rerolls, conversions and extra dice.

#![verifier::loop_isolation(false)]

use vstd::prelude::*;

use crate::data::Content;
use crate::dice::{
    find_face, rerolling, reroll_matching, spot, tally, tally_faces, turn_some, turned_some,
    AttackFace, DefenseFace, Dice, Face, Tape,
};
use crate::event::{Event, ExtraDie, WeaponTurn};
use crate::game::cards::one_if;
use crate::game::state::{Game, GameState};
use crate::pick::{find, first, obeys, pick, picked};
use crate::pilot::PilotAbility;
use crate::ship::{sat, ShipId};
use crate::sight::Sight;
use crate::upgrade::UpgradeEffect;

verus! {

broadcast use crate::game::state::framing;

/// A game, its dice, and the faces of one throw.
#[verifier::ext_equal]
pub struct Throw<F> {
    pub game: Game,
    pub dice: Tape,
    pub faces: Seq<F>,
}

impl<F: Face> Throw<F> {
    pub open spec fn saying(self, event: Event) -> Throw<F> {
        Throw { game: self.game.saying(event), ..self }
    }

    /// Up to `max` of the dice that show one of `wants` rerolled.
    pub open spec fn rerolled(self, wants: Seq<F>, max: u8) -> Throw<F> {
        let h = rerolling(self.faces, self.dice, wants, max);
        Throw { dice: h.dice, faces: h.faces, ..self }
    }

    /// How many dice that rerolls.
    pub open spec fn rerolls(self, wants: Seq<F>, max: u8) -> u8 {
        rerolling(self.faces, self.dice, wants, max).done
    }

    /// The die at a place rerolled.
    pub open spec fn reroll_at(self, k: usize) -> Throw<F> {
        Throw {
            dice: self.dice.rolled(),
            faces: self.faces.update(k as int, F::shown(self.dice.shows())),
            ..self
        }
    }
}

/// Misses worth a reroll: blanks, and eyes when no focus token could convert
/// them.
pub open spec fn attack_misses(focus: u8) -> Seq<AttackFace> {
    if focus == 0 {
        seq![AttackFace::Blank, AttackFace::Focus]
    } else {
        seq![AttackFace::Blank]
    }
}

/// The same on defense.
pub open spec fn defense_misses(focus: u8) -> Seq<DefenseFace> {
    if focus == 0 {
        seq![DefenseFace::Blank, DefenseFace::Focus]
    } else {
        seq![DefenseFace::Blank]
    }
}

/// Where the best die lies: a critical, else a hit.
pub open spec fn best_die(faces: Seq<AttackFace>) -> Option<usize> {
    match spot(faces, AttackFace::Crit) {
        Some(k) => Some(k),
        None => spot(faces, AttackFace::Hit),
    }
}

impl Throw<AttackFace> {
    /// Predator: one die rerolled, two against pilot skill 2 or lower.
    pub open spec fn predator(self, content: Content, a: int, d: int) -> Throw<AttackFace> {
        if self.game.has(content, a, UpgradeEffect::RerollOneAttackDie) {
            let n = if self.game.ships[d].skill(content) <= 2 {
                2u8
            } else {
                1u8
            };
            let wants = attack_misses(self.game.ships[a].focus);
            let done = self.rerolls(wants, n);
            if done > 0 {
                self.rerolled(wants, n).saying(Event::Predator(a as usize, done))
            } else {
                self.rerolled(wants, n)
            }
        } else {
            self
        }
    }

    /// Rage (action this round): up to three dice rerolled.
    pub open spec fn rage(self, content: Content, a: int) -> Throw<AttackFace> {
        if self.game.ships[a].acting(content, UpgradeEffect::RerollUpTo3ForFocusAnd2Stress) {
            let wants = attack_misses(self.game.ships[a].focus);
            let done = self.rerolls(wants, 3);
            if done > 0 {
                self.rerolled(wants, 3).saying(Event::Rage(a as usize, done))
            } else {
                self.rerolled(wants, 3)
            }
        } else {
            self
        }
    }

    /// Lone Wolf: one blank rerolled when no friend is within Range 2.
    pub open spec fn lone_wolf(self, content: Content, sight: Sight, a: int) -> Throw<AttackFace> {
        if self.game.has(content, a, UpgradeEffect::RerollBlankIfAlone) && self.game.near(
            sight,
            a,
            2,
        ).len() == 0 {
            let wants = seq![AttackFace::Blank];
            if self.rerolls(wants, 1) > 0 {
                self.rerolled(wants, 1).saying(Event::LoneWolf(a as usize))
            } else {
                self.rerolled(wants, 1)
            }
        } else {
            self
        }
    }

    /// Wired: every focus result rerolled while stressed, when no focus token
    /// could convert them.
    pub open spec fn wired(self, content: Content, a: int) -> Throw<AttackFace> {
        let s = self.game.ships[a];
        if self.game.has(content, a, UpgradeEffect::RerollFocusWhenStressed) && s.stress > 0
            && s.focus == 0 {
            let wants = seq![AttackFace::Focus];
            let done = self.rerolls(wants, 255);
            if done > 0 {
                self.rerolled(wants, 255).saying(Event::Wired(a as usize, done))
            } else {
                self.rerolled(wants, 255)
            }
        } else {
            self
        }
    }

    /// Horton Salm: every blank rerolled at Range 2-3. Rey: up to two blanks
    /// rerolled with the enemy in arc.
    pub open spec fn blanks_rerolled(
        self,
        content: Content,
        sight: Sight,
        a: int,
        d: int,
    ) -> Throw<AttackFace> {
        let range = match self.game.range(sight, a, d) {
            Some(r) => r,
            None => 0,
        };
        let wants = seq![AttackFace::Blank];
        if self.game.can(content, a, PilotAbility::RerollBlanksAtRange2To3) && 2 <= range <= 3 {
            let done = self.rerolls(wants, 255);
            if done > 0 {
                self.rerolled(wants, 255).saying(
                    Event::BlanksRerolledAtRange(a as usize, done, range),
                )
            } else {
                self.rerolled(wants, 255)
            }
        } else if self.game.can(content, a, PilotAbility::RerollTwoBlanksIfEnemyInArc)
            && self.game.in_arc(sight, a, d) {
            let done = self.rerolls(wants, 2);
            if done > 0 {
                self.rerolled(wants, 2).saying(Event::BlanksRerolledInArc(a as usize, done))
            } else {
                self.rerolled(wants, 2)
            }
        } else {
            self
        }
    }

    /// Talent rerolls on attack, one after another.
    pub open spec fn talents(
        self,
        content: Content,
        sight: Sight,
        a: int,
        d: int,
    ) -> Throw<AttackFace> {
        self.predator(content, a, d).rage(content, a).lone_wolf(content, sight, a).wired(
            content,
            a,
        ).blanks_rerolled(content, sight, a, d)
    }

    /// A hit or a critical is showing.
    pub open spec fn lands(self) -> bool {
        best_die(self.faces) is Some
    }

    /// Elusiveness: an unstressed defender takes a stress to reroll the
    /// attacker's best die.
    pub open spec fn eluded(self, content: Content, sight: Sight, d: int) -> Throw<AttackFace> {
        if self.lands() && self.game.ships[d].stress == 0 && self.game.has(
            content,
            d,
            UpgradeEffect::ForceRerollForStress,
        ) {
            let t = self.reroll_at(best_die(self.faces)->0).saying(
                Event::Elusiveness(d as usize),
            );
            Throw { game: t.game.stressed(content, sight, d), ..t }
        } else {
            self
        }
    }

    /// R7 Astromech: the defender spends a lock on the attacker to reroll
    /// every hit and critical.
    pub open spec fn lock_rerolled(self, content: Content, a: int, d: int) -> Throw<AttackFace> {
        let aid = self.game.ships[a].id;
        if self.lands() && self.game.ships[d].locks(aid) && self.game.has(
            content,
            d,
            UpgradeEffect::ForceRerollWithLock,
        ) {
            let wants = seq![AttackFace::Crit, AttackFace::Hit];
            let t = Throw {
                game: self.game.with_ship(d, self.game.ships[d].unlocking(aid)),
                ..self
            };
            t.rerolled(wants, 255).saying(Event::R7Astromech(d as usize, t.rerolls(wants, 255)))
        } else {
            self
        }
    }

    /// M9-G8 on the ships at the places from `k` on: an enemy of the attacker
    /// has the best die rerolled, a friend a blank.
    pub open spec fn m9g8(self, a: int, places: Seq<usize>, k: int) -> Throw<AttackFace>
        decreases places.len() - k,
    {
        if k >= places.len() {
            self
        } else {
            let die = if !self.game.same_side(places[k] as int, a) {
                best_die(self.faces)
            } else {
                spot(self.faces, AttackFace::Blank)
            };
            let t = match die {
                Some(p) => self.reroll_at(p).saying(Event::M9G8(places[k])),
                None => self,
            };
            t.m9g8(a, places, k + 1)
        }
    }

    /// After the attacker has modified its dice, the defender forces
    /// rerolls: Elusiveness, R7 Astromech, and every M9-G8 that holds a lock
    /// on the attacker.
    pub open spec fn forced(
        self,
        content: Content,
        sight: Sight,
        a: int,
        d: int,
    ) -> Throw<AttackFace> {
        let t = self.eluded(content, sight, d).lock_rerolled(content, a, d);
        let holders = picked(t.game.m9g8_rule(content, a), 0, t.game.ships.len() as int);
        t.m9g8(a, holders, 0)
    }
}

impl Throw<DefenseFace> {
    /// Rey: up to two blanks rerolled with the attacker in her arc.
    pub open spec fn rey(self, content: Content, sight: Sight, a: int, d: int) -> Throw<
        DefenseFace,
    > {
        if self.game.can(content, d, PilotAbility::RerollTwoBlanksIfEnemyInArc)
            && self.game.in_arc(sight, d, a) {
            let wants = seq![DefenseFace::Blank];
            let done = self.rerolls(wants, 2);
            if done > 0 {
                self.rerolled(wants, 2).saying(Event::BlanksRerolledInArc(d as usize, done))
            } else {
                self.rerolled(wants, 2)
            }
        } else {
            self
        }
    }

    /// Lone Wolf: one blank rerolled when no friend is within Range 2.
    pub open spec fn lone_wolf(self, content: Content, sight: Sight, d: int) -> Throw<DefenseFace> {
        if self.game.has(content, d, UpgradeEffect::RerollBlankIfAlone) && self.game.near(
            sight,
            d,
            2,
        ).len() == 0 {
            let wants = seq![DefenseFace::Blank];
            if self.rerolls(wants, 1) > 0 {
                self.rerolled(wants, 1).saying(Event::LoneWolf(d as usize))
            } else {
                self.rerolled(wants, 1)
            }
        } else {
            self
        }
    }

    /// Wired: every focus result rerolled while stressed, when no focus token
    /// could convert them.
    pub open spec fn wired(self, content: Content, d: int) -> Throw<DefenseFace> {
        let s = self.game.ships[d];
        if self.game.has(content, d, UpgradeEffect::RerollFocusWhenStressed) && s.stress > 0
            && s.focus == 0 {
            let wants = seq![DefenseFace::Focus];
            let done = self.rerolls(wants, 255);
            if done > 0 {
                self.rerolled(wants, 255).saying(Event::Wired(d as usize, done))
            } else {
                self.rerolled(wants, 255)
            }
        } else {
            self
        }
    }

    /// The talents on defense.
    pub open spec fn talents(self, content: Content, sight: Sight, a: int, d: int) -> Throw<
        DefenseFace,
    > {
        self.rey(content, sight, a, d).lone_wolf(content, sight, d).wired(content, d)
    }
}

impl Game {
    pub open spec fn m9g8_rule(self, content: Content, a: int) -> spec_fn(int) -> bool {
        |k: int|
            !self.ships[k].destroyed && self.ships[k].locks(self.ships[a].id) && self.has(
                content,
                k,
                UpgradeEffect::ForceRerollLockedAttacker,
            )
    }

    /// Opportunist may be used: the attacker is unstressed and the defender
    /// holds no focus or evade token.
    pub open spec fn opportune(self, content: Content, a: int, d: int) -> bool {
        self.has(content, a, UpgradeEffect::ExtraAttackDieForStress) && self.ships[a].stress == 0
            && self.ships[d].focus == 0 && self.ships[d].evade == 0
    }

    /// After Opportunist was used, where it could be.
    pub open spec fn opportunist(self, content: Content, sight: Sight, a: int, d: int) -> Game {
        if self.opportune(content, a, d) {
            self.saying(Event::Opportunist(a as usize)).stressed(content, sight, a)
        } else {
            self
        }
    }

    /// What earns the attacker one more die by its pilot's ability: Mauler
    /// Mithel at Range 1, Backstabber from outside the defender's arc,
    /// Scourge against a damaged defender, Zeta Leader for a stress token
    /// while unstressed.
    pub open spec fn extra_die(
        self,
        content: Content,
        sight: Sight,
        a: int,
        d: int,
        range: u8,
    ) -> Option<ExtraDie> {
        match self.ships[a].ability(content) {
            Some(PilotAbility::ExtraAttackDieAtRange1) => if range == 1 {
                Some(ExtraDie::PointBlank)
            } else {
                None
            },
            Some(PilotAbility::ExtraAttackDieOutsideDefenderArc) => if !self.in_arc(sight, d, a) {
                Some(ExtraDie::OutsideDefenderArc)
            } else {
                None
            },
            Some(PilotAbility::ExtraAttackDieVsDamaged) => if self.ships[d].hull
                < self.ships[d].full_hull(content) {
                Some(ExtraDie::DefenderDamaged)
            } else {
                None
            },
            Some(PilotAbility::StressForExtraAttackDie) => if self.ships[a].stress == 0 {
                Some(ExtraDie::TakesStress)
            } else {
                None
            },
            _ => None,
        }
    }

    /// After that die was taken.
    pub open spec fn extra_died(
        self,
        content: Content,
        sight: Sight,
        a: int,
        d: int,
        range: u8,
    ) -> Game {
        match self.extra_die(content, sight, a, d, range) {
            Some(why) => {
                let g = if why == ExtraDie::TakesStress {
                    self.stressed(content, sight, a)
                } else {
                    self
                };
                g.saying(Event::ExtraDie(a as usize, why))
            },
            None => self,
        }
    }

    pub open spec fn howl_rule(self, content: Content, friends: Seq<usize>) -> spec_fn(
        int,
    ) -> bool {
        |k: int| self.can(content, friends[k] as int, PilotAbility::FriendlyRerollAttackRange1)
    }

    /// Rerolls thanks to friends at Range 1: Jess Pava gets one per friend; a
    /// friendly Howlrunner grants one more to a primary-weapon attack.
    pub open spec fn friendly_rerolls(
        self,
        content: Content,
        sight: Sight,
        s: int,
        primary: bool,
    ) -> u8 {
        let friends = self.near(sight, s, 1);
        let own = if self.can(content, s, PilotAbility::RerollPerFriendlyRange1) {
            friends.len() as int % 256
        } else {
            0
        };
        sat(
            own + one_if(
                primary && first(self.howl_rule(content, friends), 0, friends.len() as int)
                    is Some,
            ),
        )
    }

    /// Free result changes by the attacker's pilot: Poe Dameron, with a focus
    /// token held, turns one focus result into a hit; Winged Gundark at Range
    /// 1 one hit into a critical hit.
    pub open spec fn free_attack_mods(
        self,
        content: Content,
        a: int,
        range: u8,
        faces: Seq<AttackFace>,
    ) -> (Game, Seq<AttackFace>) {
        if self.can(content, a, PilotAbility::FocusToResult) && self.ships[a].focus > 0 {
            match spot(faces, AttackFace::Focus) {
                Some(k) => (
                    self.saying(Event::FocusToHit(a as usize)),
                    faces.update(k as int, AttackFace::Hit),
                ),
                None => (self, faces),
            }
        } else if self.can(content, a, PilotAbility::HitToCritAtRange1) && range == 1 {
            match spot(faces, AttackFace::Hit) {
                Some(k) => (
                    self.saying(Event::HitToCrit(a as usize)),
                    faces.update(k as int, AttackFace::Crit),
                ),
                None => (self, faces),
            }
        } else {
            (self, faces)
        }
    }

    /// The weapon turns up to `max` results, and says so if it turned any.
    pub open spec fn weapon_turns(
        self,
        a: int,
        faces: Seq<AttackFace>,
        from: AttackFace,
        to: AttackFace,
        max: int,
        what: WeaponTurn,
    ) -> (Game, Seq<AttackFace>) {
        if spot(faces, from) is Some {
            (
                self.saying(Event::WeaponTurns(a as usize, what)),
                turned_some(faces, from, to, max, 0),
            )
        } else {
            (self, faces)
        }
    }

    /// Free result changes printed on the weapon card being fired.
    pub open spec fn weapon_attack_mods(
        self,
        a: int,
        effect: Option<UpgradeEffect>,
        faces: Seq<AttackFace>,
    ) -> (Game, Seq<AttackFace>) {
        match effect {
            Some(UpgradeEffect::TorpedoFocusToCrit) => self.weapon_turns(
                a,
                faces,
                AttackFace::Focus,
                AttackFace::Crit,
                1,
                WeaponTurn::FocusToCrit,
            ),
            Some(UpgradeEffect::TorpedoBlanksToFocus) => self.weapon_turns(
                a,
                faces,
                AttackFace::Blank,
                AttackFace::Focus,
                3,
                WeaponTurn::BlanksToFocus,
            ),
            Some(UpgradeEffect::MissileBlankToHit) => self.weapon_turns(
                a,
                faces,
                AttackFace::Blank,
                AttackFace::Hit,
                1,
                WeaponTurn::BlankToHit,
            ),
            Some(UpgradeEffect::CannonHitToCrit) => self.weapon_turns(
                a,
                faces,
                AttackFace::Hit,
                AttackFace::Crit,
                1,
                WeaponTurn::HitToCrit,
            ),
            _ => (self, faces),
        }
    }

    /// Omega Ace can spend a lock on the defender and a focus token.
    pub open spec fn all_crits(
        self,
        content: Content,
        a: int,
        defender: ShipId,
        faces: Seq<AttackFace>,
    ) -> bool {
        self.can(content, a, PilotAbility::SpendLockAndFocusForAllCrits) && self.ships[a].locks(
            defender,
        ) && self.ships[a].focus > 0 && faces.len() > 0
    }

    /// Poe Dameron on defense: with a focus token held, one focus result
    /// becomes an evade when damage would otherwise still land.
    pub open spec fn free_defense_mods(
        self,
        content: Content,
        d: int,
        incoming: u8,
        faces: Seq<DefenseFace>,
    ) -> (Game, Seq<DefenseFace>) {
        if tally(faces, DefenseFace::Evade) < incoming && self.can(
            content,
            d,
            PilotAbility::FocusToResult,
        ) && self.ships[d].focus > 0 && spot(faces, DefenseFace::Focus) is Some {
            (
                self.saying(Event::FocusToEvade(d as usize)),
                faces.update(spot(faces, DefenseFace::Focus)->0 as int, DefenseFace::Evade),
            )
        } else {
            (self, faces)
        }
    }
}

/// Where the best die lies: a critical, else a hit.
fn find_best(faces: &Vec<AttackFace>) -> (place: Option<usize>)
    ensures
        place == best_die(faces@),
        place is Some ==> place->0 < faces@.len(),
{
    match find_face(faces, AttackFace::Crit) {
        Some(k) => Some(k),
        None => find_face(faces, AttackFace::Hit),
    }
}

impl GameState {
    /// Reroll up to `n` attack dice: blanks first, then eyes when no
    /// focus token could convert them.
    pub fn reroll_attack_dice(
        &self,
        a: usize,
        faces: &mut Vec<AttackFace>,
        n: u8,
        dice: &mut Dice,
    ) -> (done: u8)
        requires
            a < self@.ships.len(),
        ensures
            (Throw { game: self@, dice: final(dice)@, faces: final(faces)@ }) == (Throw {
                game: self@,
                dice: old(dice)@,
                faces: old(faces)@,
            }).rerolled(attack_misses(self@.ships[a as int].focus), n),
            done == (Throw { game: self@, dice: old(dice)@, faces: old(faces)@ }).rerolls(
                attack_misses(self@.ships[a as int].focus),
                n,
            ),
    {
        if self.ships[a].focus == 0 {
            let wants = [AttackFace::Blank, AttackFace::Focus];
            assert(wants@ =~= attack_misses(self@.ships[a as int].focus));
            reroll_matching(faces, &wants, n, dice)
        } else {
            let wants = [AttackFace::Blank];
            assert(wants@ =~= attack_misses(self@.ships[a as int].focus));
            reroll_matching(faces, &wants, n, dice)
        }
    }

    /// Reroll up to `n` defense dice on the same policy.
    pub fn reroll_defense_dice(
        &self,
        d: usize,
        faces: &mut Vec<DefenseFace>,
        n: u8,
        dice: &mut Dice,
    ) -> (done: u8)
        requires
            d < self@.ships.len(),
        ensures
            (Throw { game: self@, dice: final(dice)@, faces: final(faces)@ }) == (Throw {
                game: self@,
                dice: old(dice)@,
                faces: old(faces)@,
            }).rerolled(defense_misses(self@.ships[d as int].focus), n),
            done == (Throw { game: self@, dice: old(dice)@, faces: old(faces)@ }).rerolls(
                defense_misses(self@.ships[d as int].focus),
                n,
            ),
    {
        if self.ships[d].focus == 0 {
            let wants = [DefenseFace::Blank, DefenseFace::Focus];
            assert(wants@ =~= defense_misses(self@.ships[d as int].focus));
            reroll_matching(faces, &wants, n, dice)
        } else {
            let wants = [DefenseFace::Blank];
            assert(wants@ =~= defense_misses(self@.ships[d as int].focus));
            reroll_matching(faces, &wants, n, dice)
        }
    }

    /// Reroll up to `max` of the attack dice that show the face.
    fn reroll_attack_face(
        &self,
        faces: &mut Vec<AttackFace>,
        want: AttackFace,
        max: u8,
        dice: &mut Dice,
    ) -> (done: u8)
        ensures
            (Throw { game: self@, dice: final(dice)@, faces: final(faces)@ }) == (Throw {
                game: self@,
                dice: old(dice)@,
                faces: old(faces)@,
            }).rerolled(seq![want], max),
            done == (Throw { game: self@, dice: old(dice)@, faces: old(faces)@ }).rerolls(
                seq![want],
                max,
            ),
    {
        let wants = [want];
        assert(wants@ =~= seq![want]);
        reroll_matching(faces, &wants, max, dice)
    }

    /// Reroll up to `max` of the defense dice that show the face.
    fn reroll_defense_face(
        &self,
        faces: &mut Vec<DefenseFace>,
        want: DefenseFace,
        max: u8,
        dice: &mut Dice,
    ) -> (done: u8)
        ensures
            (Throw { game: self@, dice: final(dice)@, faces: final(faces)@ }) == (Throw {
                game: self@,
                dice: old(dice)@,
                faces: old(faces)@,
            }).rerolled(seq![want], max),
            done == (Throw { game: self@, dice: old(dice)@, faces: old(faces)@ }).rerolls(
                seq![want],
                max,
            ),
    {
        let wants = [want];
        assert(wants@ =~= seq![want]);
        reroll_matching(faces, &wants, max, dice)
    }

    /// Talent rerolls on attack, after the lock and friendly rerolls:
    /// Predator (1 die, 2 against pilot skill 2 or lower), Lone Wolf (1
    /// blank when no friend is within Range 2), Wired (every focus
    /// result while stressed, when no focus token could convert them).
    pub fn talent_attack_rerolls(
        &mut self,
        content: &Content,
        sight: &Sight,
        a: usize,
        d: usize,
        faces: &mut Vec<AttackFace>,
        dice: &mut Dice,
    )
        requires
            a < old(self)@.ships.len(),
            d < old(self)@.ships.len(),
            old(self)@.known(*content),
        ensures
            (Throw { game: final(self)@, dice: final(dice)@, faces: final(faces)@ }) == (Throw {
                game: old(self)@,
                dice: old(dice)@,
                faces: old(faces)@,
            }).talents(*content, *sight, a as int, d as int),
            final(self)@.frame() == old(self)@.frame(),
    {
        assert(self@.frame().ships[d as int] == self@.ships[d as int].identity());
        if self.has_effect(content, a, UpgradeEffect::RerollOneAttackDie) {
            let n: u8 = if self.effective_skill(content, &self.ships[d]) <= 2 {
                2
            } else {
                1
            };
            let done: u8 = self.reroll_attack_dice(a, faces, n, dice);
            if done > 0 {
                self.say(Event::Predator(a, done));
            }
        }
        if self.card_action_active(
            content,
            &self.ships[a],
            UpgradeEffect::RerollUpTo3ForFocusAnd2Stress,
        ) {
            let done: u8 = self.reroll_attack_dice(a, faces, 3, dice);
            if done > 0 {
                self.say(Event::Rage(a, done));
            }
        }
        if self.has_effect(content, a, UpgradeEffect::RerollBlankIfAlone) && self.friends_within(
            sight,
            a,
            2,
        ).len() == 0 {
            let n: u8 = self.reroll_attack_face(faces, AttackFace::Blank, 1, dice);
            if n > 0 {
                self.say(Event::LoneWolf(a));
            }
        }
        if self.has_effect(content, a, UpgradeEffect::RerollFocusWhenStressed)
            && self.ships[a].stress > 0 && self.ships[a].focus == 0 {
            let n: u8 = self.reroll_attack_face(faces, AttackFace::Focus, 255, dice);
            if n > 0 {
                self.say(Event::Wired(a, n));
            }
        }
        // Horton Salm: every blank rerolled at Range 2-3. Rey: up to two
        // blanks rerolled with the enemy in arc.
        let range: u8 = match self.range_between(sight, a, d) {
            Some(r) => r,
            None => 0,
        };
        if self.has_ability(content, a, PilotAbility::RerollBlanksAtRange2To3) && 2 <= range
            && range <= 3 {
            let n: u8 = self.reroll_attack_face(faces, AttackFace::Blank, 255, dice);
            if n > 0 {
                self.say(Event::BlanksRerolledAtRange(a, n, range));
            }
        } else if self.has_ability(content, a, PilotAbility::RerollTwoBlanksIfEnemyInArc)
            && self.ship_in_front_arc(sight, a, d) {
            let n: u8 = self.reroll_attack_face(faces, AttackFace::Blank, 2, dice);
            if n > 0 {
                self.say(Event::BlanksRerolledInArc(a, n));
            }
        }
    }

    /// The same talents on defense (Lone Wolf, Wired, Rey); only called
    /// when damage would otherwise still land.
    pub fn talent_defense_rerolls(
        &mut self,
        content: &Content,
        sight: &Sight,
        a: usize,
        d: usize,
        faces: &mut Vec<DefenseFace>,
        dice: &mut Dice,
    )
        requires
            a < old(self)@.ships.len(),
            d < old(self)@.ships.len(),
        ensures
            (Throw { game: final(self)@, dice: final(dice)@, faces: final(faces)@ }) == (Throw {
                game: old(self)@,
                dice: old(dice)@,
                faces: old(faces)@,
            }).talents(*content, *sight, a as int, d as int),
            final(self)@.frame() == old(self)@.frame(),
    {
        if self.has_ability(content, d, PilotAbility::RerollTwoBlanksIfEnemyInArc)
            && self.ship_in_front_arc(sight, d, a) {
            let n: u8 = self.reroll_defense_face(faces, DefenseFace::Blank, 2, dice);
            if n > 0 {
                self.say(Event::BlanksRerolledInArc(d, n));
            }
        }
        if self.has_effect(content, d, UpgradeEffect::RerollBlankIfAlone) && self.friends_within(
            sight,
            d,
            2,
        ).len() == 0 {
            let n: u8 = self.reroll_defense_face(faces, DefenseFace::Blank, 1, dice);
            if n > 0 {
                self.say(Event::LoneWolf(d));
            }
        }
        if self.has_effect(content, d, UpgradeEffect::RerollFocusWhenStressed)
            && self.ships[d].stress > 0 && self.ships[d].focus == 0 {
            let n: u8 = self.reroll_defense_face(faces, DefenseFace::Focus, 255, dice);
            if n > 0 {
                self.say(Event::Wired(d, n));
            }
        }
    }

    fn m9g8_holders(&self, content: &Content, a: usize) -> (places: Vec<usize>)
        requires
            a < self@.ships.len(),
        ensures
            places@ == picked(
                self@.m9g8_rule(*content, a as int),
                0,
                self@.ships.len() as int,
            ),
            forall|k: int| 0 <= k < places@.len() ==> #[trigger] places@[k] < self@.ships.len(),
    {
        let test = |k: usize| -> (yes: bool)
            requires
                k < self@.ships.len(),
            ensures
                yes == obeys(self@.m9g8_rule(*content, a as int), k),
        {
            !self.ships[k].destroyed && self.ships[k].locks_on(self.ships[a].id)
                && self.has_effect(content, k, UpgradeEffect::ForceRerollLockedAttacker)
        };
        pick(self.ships.len(), test, Ghost(self@.m9g8_rule(*content, a as int)))
    }

    /// After the attacker has modified its dice, the defender may force
    /// rerolls: Elusiveness (take a stress while unstressed to reroll the
    /// attacker's best die) and R7 Astromech (spend a target lock on the
    /// attacker to reroll every hit and critical). The rerolled results
    /// stand. Used whenever at least one hit or critical is showing.
    pub fn defender_forces_rerolls(
        &mut self,
        content: &Content,
        sight: &Sight,
        a: usize,
        d: usize,
        faces: &mut Vec<AttackFace>,
        dice: &mut Dice,
    )
        requires
            a < old(self)@.ships.len(),
            d < old(self)@.ships.len(),
        ensures
            (Throw { game: final(self)@, dice: final(dice)@, faces: final(faces)@ }) == (Throw {
                game: old(self)@,
                dice: old(dice)@,
                faces: old(faces)@,
            }).forced(*content, *sight, a as int, d as int),
            final(self)@.frame() == old(self)@.frame(),
    {
        let ghost start = Throw { game: self@, dice: dice@, faces: faces@ };
        if self.ships[d].stress == 0 && self.has_effect(
            content,
            d,
            UpgradeEffect::ForceRerollForStress,
        ) {
            if let Some(best) = find_best(faces) {
                let fresh = AttackFace::from_d8(dice.roll());
                faces.set(best, fresh);
                self.say(Event::Elusiveness(d));
                self.gain_stress(content, sight, d);
            }
        }
        let ghost eluded = Throw { game: self@, dice: dice@, faces: faces@ };
        assert(eluded == start.eluded(*content, *sight, d as int));
        let aid = self.ships[a].id;
        if find_best(faces).is_some() && self.ships[d].locks_on(aid) && self.has_effect(
            content,
            d,
            UpgradeEffect::ForceRerollWithLock,
        ) {
            self.ship_mut(d).drop_lock(aid);
            let wants = [AttackFace::Crit, AttackFace::Hit];
            assert(wants@ =~= seq![AttackFace::Crit, AttackFace::Hit]);
            let n: u8 = reroll_matching(faces, &wants, 255, dice);
            self.say(Event::R7Astromech(d, n));
        }
        let ghost spent = Throw { game: self@, dice: dice@, faces: faces@ };
        assert(spent == eluded.lock_rerolled(*content, a as int, d as int));
        // M9-G8: every ship holding a lock on the attacker with the
        // astromech forces one reroll — an enemy picks the best die, a
        // friend (locked on purpose) a blank.
        let holders = self.m9g8_holders(content, a);
        let mut k: usize = 0;
        while k < holders.len()
            invariant
                k <= holders.len(),
                self@.frame() == spent.game.frame(),
                (Throw { game: self@, dice: dice@, faces: faces@ }).m9g8(
                    a as int,
                    holders@,
                    k as int,
                ) == spent.m9g8(a as int, holders@, 0),
            decreases holders.len() - k,
        {
            let h: usize = holders[k];
            let die = if !self.allied(self.ships[h].owner, self.ships[a].owner) {
                find_best(faces)
            } else {
                find_face(faces, AttackFace::Blank)
            };
            if let Some(p) = die {
                let fresh = AttackFace::from_d8(dice.roll());
                faces.set(p, fresh);
                self.say(Event::M9G8(h));
            }
            k = k + 1;
        }
    }

    /// Opportunist: +1 attack die for a stress token when the defender
    /// holds no focus or evade token and the attacker is unstressed.
    /// Always taken.
    pub fn opportunist_die(&mut self, content: &Content, sight: &Sight, a: usize, d: usize) -> (n:
        u8)
        requires
            a < old(self)@.ships.len(),
            d < old(self)@.ships.len(),
        ensures
            n == one_if(old(self)@.opportune(*content, a as int, d as int)),
            final(self)@ == old(self)@.opportunist(*content, *sight, a as int, d as int),
            final(self)@.frame() == old(self)@.frame(),
    {
        if self.has_effect(content, a, UpgradeEffect::ExtraAttackDieForStress)
            && self.ships[a].stress == 0 && self.ships[d].focus == 0 && self.ships[d].evade == 0 {
            self.say(Event::Opportunist(a));
            self.gain_stress(content, sight, a);
            1
        } else {
            0
        }
    }

    /// Rerolls a ship may take thanks to friends at Range 1: Jess Pava
    /// gets one per friend (attacking or defending); a friendly
    /// Howlrunner grants one more to a primary-weapon attack.
    pub fn friendly_rerolls(&self, content: &Content, sight: &Sight, s: usize, primary: bool) -> (
    n: u8)
        requires
            s < self@.ships.len(),
        ensures
            n == self@.friendly_rerolls(*content, *sight, s as int, primary),
    {
        let friends = self.friends_within(sight, s, 1);
        let mut n: u8 = 0;
        if self.has_ability(content, s, PilotAbility::RerollPerFriendlyRange1) {
            n = (friends.len() % 256) as u8;
        }
        if primary {
            let test = |k: usize| -> (yes: bool)
                requires
                    k < friends@.len(),
                ensures
                    yes == obeys(self@.howl_rule(*content, friends@), k),
            { self.has_ability(content, friends[k], PilotAbility::FriendlyRerollAttackRange1) };
            if find(friends.len(), test, Ghost(self@.howl_rule(*content, friends@))).is_some() {
                n = n.saturating_add(1);
            }
        }
        n
    }

    /// Additional attack dice granted by the attacker's pilot ability,
    /// decided before the roll. Mauler Mithel (+1 at Range 1),
    /// Backstabber (+1 from outside the defender's arc), Scourge (+1
    /// against a damaged defender) and Zeta Leader (+1 for taking a
    /// stress token while unstressed — always accepted).
    pub fn extra_attack_dice(
        &mut self,
        content: &Content,
        sight: &Sight,
        a: usize,
        d: usize,
        range: u8,
    ) -> (n: u8)
        requires
            a < old(self)@.ships.len(),
            d < old(self)@.ships.len(),
            old(self)@.known(*content),
        ensures
            n == one_if(
                old(self)@.extra_die(*content, *sight, a as int, d as int, range) is Some,
            ),
            final(self)@ == old(self)@.extra_died(*content, *sight, a as int, d as int, range),
            final(self)@.frame() == old(self)@.frame(),
    {
        assert(self@.frame().ships[d as int] == self@.ships[d as int].identity());
        let why = match self.ability(content, &self.ships[a]) {
            Some(PilotAbility::ExtraAttackDieAtRange1) => {
                if range != 1 {
                    return 0;
                }
                ExtraDie::PointBlank
            },
            Some(PilotAbility::ExtraAttackDieOutsideDefenderArc) => {
                if self.ship_in_front_arc(sight, d, a) {
                    return 0;
                }
                ExtraDie::OutsideDefenderArc
            },
            Some(PilotAbility::ExtraAttackDieVsDamaged) => {
                if self.ships[d].hull >= self.max_hull(content, &self.ships[d]) {
                    return 0;
                }
                ExtraDie::DefenderDamaged
            },
            Some(PilotAbility::StressForExtraAttackDie) => {
                if self.ships[a].stress != 0 {
                    return 0;
                }
                self.gain_stress(content, sight, a);
                ExtraDie::TakesStress
            },
            _ => return 0,
        };
        self.say(Event::ExtraDie(a, why));
        1
    }

    /// Attacker-side free result changes before tokens are spent.
    /// Poe Dameron: with a focus token held, one focus result becomes a
    /// hit (the token itself is not spent). Winged Gundark: at Range 1
    /// one hit becomes a critical hit.
    pub fn free_attack_mods(
        &mut self,
        content: &Content,
        a: usize,
        range: u8,
        faces: &mut Vec<AttackFace>,
    )
        requires
            a < old(self)@.ships.len(),
        ensures
            (final(self)@, final(faces)@) == old(self)@.free_attack_mods(
                *content,
                a as int,
                range,
                old(faces)@,
            ),
            final(self)@.frame() == old(self)@.frame(),
    {
        match self.ability(content, &self.ships[a]) {
            Some(PilotAbility::FocusToResult) => {
                if self.ships[a].focus > 0 {
                    if let Some(k) = find_face(faces, AttackFace::Focus) {
                        faces.set(k, AttackFace::Hit);
                        self.say(Event::FocusToHit(a));
                    }
                }
            },
            Some(PilotAbility::HitToCritAtRange1) => {
                if range == 1 {
                    if let Some(k) = find_face(faces, AttackFace::Hit) {
                        faces.set(k, AttackFace::Crit);
                        self.say(Event::HitToCrit(a));
                    }
                }
            },
            _ => {},
        }
    }

    fn weapon_turn(
        &mut self,
        a: usize,
        faces: &mut Vec<AttackFace>,
        from: AttackFace,
        to: AttackFace,
        max: usize,
        what: WeaponTurn,
    )
        requires
            max > 0,
        ensures
            (final(self)@, final(faces)@) == old(self)@.weapon_turns(
                a as int,
                old(faces)@,
                from,
                to,
                max as int,
                what,
            ),
            final(self)@.frame() == old(self)@.frame(),
    {
        if find_face(faces, from).is_some() {
            turn_some(faces, from, to, max);
            self.say(Event::WeaponTurns(a, what));
        }
    }

    /// Free result changes printed on the weapon card being fired.
    pub fn weapon_attack_mods(
        &mut self,
        a: usize,
        effect: Option<UpgradeEffect>,
        faces: &mut Vec<AttackFace>,
    )
        ensures
            (final(self)@, final(faces)@) == old(self)@.weapon_attack_mods(
                a as int,
                effect,
                old(faces)@,
            ),
            final(self)@.frame() == old(self)@.frame(),
    {
        match effect {
            // Proton Torpedoes: one focus result to a critical hit.
            Some(UpgradeEffect::TorpedoFocusToCrit) => self.weapon_turn(
                a,
                faces,
                AttackFace::Focus,
                AttackFace::Crit,
                1,
                WeaponTurn::FocusToCrit,
            ),
            // Adv. Proton Torpedoes: up to 3 blanks to focus results.
            Some(UpgradeEffect::TorpedoBlanksToFocus) => self.weapon_turn(
                a,
                faces,
                AttackFace::Blank,
                AttackFace::Focus,
                3,
                WeaponTurn::BlanksToFocus,
            ),
            // Concussion Missiles: one blank to a hit.
            Some(UpgradeEffect::MissileBlankToHit) => self.weapon_turn(
                a,
                faces,
                AttackFace::Blank,
                AttackFace::Hit,
                1,
                WeaponTurn::BlankToHit,
            ),
            // "Mangler" Cannon: one hit to a critical hit.
            Some(UpgradeEffect::CannonHitToCrit) => self.weapon_turn(
                a,
                faces,
                AttackFace::Hit,
                AttackFace::Crit,
                1,
                WeaponTurn::HitToCrit,
            ),
            _ => {},
        }
    }

    /// Omega Ace: spend a target lock on the defender and a focus token
    /// to turn every attack die into a critical hit. Always taken when
    /// both tokens are available — no modification can beat all crits.
    pub fn spend_for_all_crits(
        &mut self,
        content: &Content,
        a: usize,
        defender: ShipId,
        faces: &mut Vec<AttackFace>,
    ) -> (spent: bool)
        requires
            a < old(self)@.ships.len(),
        ensures
            spent == old(self)@.all_crits(*content, a as int, defender, old(faces)@),
            !spent ==> final(self)@ == old(self)@ && final(faces)@ == old(faces)@,
            spent ==> final(self)@ == old(self)@.with_ship(
                a as int,
                old(self)@.ships[a as int].unlocking(defender).less_focus(),
            ).saying(Event::AllCritical(a)),
            spent ==> final(faces)@ == Seq::new(old(faces)@.len(), |k: int| AttackFace::Crit),
            final(self)@.frame() == old(self)@.frame(),
    {
        if !self.has_ability(content, a, PilotAbility::SpendLockAndFocusForAllCrits)
            || !self.ships[a].locks_on(defender) || self.ships[a].focus == 0 || faces.len() == 0 {
            return false;
        }
        let s = self.ship_mut(a);
        s.drop_lock(defender);
        s.focus = s.focus - 1;
        let n: usize = faces.len();
        let mut k: usize = 0;
        while k < n
            invariant
                k <= n,
                faces@.len() == n,
                forall|j: int| 0 <= j < k ==> faces@[j] == AttackFace::Crit,
            decreases n - k,
        {
            faces.set(k, AttackFace::Crit);
            k = k + 1;
        }
        self.say(Event::AllCritical(a));
        true
    }

    /// Defender-side free result changes before tokens are spent; only
    /// applied when damage would otherwise still land.
    pub fn free_defense_mods(
        &mut self,
        content: &Content,
        d: usize,
        faces: &mut Vec<DefenseFace>,
        incoming: u8,
    )
        requires
            d < old(self)@.ships.len(),
        ensures
            (final(self)@, final(faces)@) == old(self)@.free_defense_mods(
                *content,
                d as int,
                incoming,
                old(faces)@,
            ),
            final(self)@.frame() == old(self)@.frame(),
    {
        if tally_faces(faces, DefenseFace::Evade) < incoming && self.has_ability(
            content,
            d,
            PilotAbility::FocusToResult,
        ) && self.ships[d].focus > 0 {
            if let Some(k) = find_face(faces, DefenseFace::Focus) {
                faces.set(k, DefenseFace::Evade);
                self.say(Event::FocusToEvade(d));
            }
        }
    }
}

} // verus!
