//! Comparing the results, dealing the damage, and the whole of one attack.

#![verifier::loop_isolation(false)]

use vstd::prelude::*;

use crate::action::ActionResult;
use crate::data::Content;
use crate::dice::{less, tally, tally_faces, AttackFace, DefenseFace, Dice};
use crate::event::Event;
use crate::game::actions::Moves;
use crate::game::cards::one_if;
use crate::game::mods::Throw;
use crate::game::state::{AttackModel, AttackRecord, Game, GameState, Play, Reposition, Shot};
use crate::game::tokens::{point, DamagePoint};
use crate::game::volley::{fired, Spent, Verdict};
use crate::pick::{find, first, obeys};
use crate::pilot::PilotAbility;
use crate::ship::{drop_card, sat, ShipModel};
use crate::sight::Sight;
use crate::upgrade::UpgradeEffect;

verus! {

broadcast use crate::game::state::framing;

/// What an attack took from the defender.
#[derive(Debug, Clone, Copy, PartialEq, Eq, Structural)]
pub struct Toll {
    pub shields: u8,
    pub hull: u8,
    /// Criticals that reached the hull.
    pub crits: u8,
}

impl Toll {
    pub open spec fn nothing() -> Toll {
        Toll { shields: 0, hull: 0, crits: 0 }
    }

    /// One more point of damage.
    pub open spec fn and(self, taken: DamagePoint) -> Toll {
        match taken {
            DamagePoint::Shield => Toll { shields: sat(self.shields + 1), ..self },
            DamagePoint::Hull => Toll { hull: sat(self.hull + 1), ..self },
            DamagePoint::Nothing => self,
        }
    }

    /// More damage by a critical.
    pub open spec fn plus(self, extra: (u8, u8)) -> Toll {
        Toll { shields: sat(self.shields + extra.0), hull: sat(self.hull + extra.1), ..self }
    }
}

/// The results left of `hits` and `crits` after evades cancel: hits before
/// crits; where hits cannot be canceled, crits only.
pub open spec fn compared(hits: u8, crits: u8, evades: u8, uncancelable: bool) -> (u8, u8) {
    if uncancelable {
        (hits, less(crits as int, evades as int) as u8)
    } else {
        (
            less(hits as int, evades as int) as u8,
            less(crits as int, less(evades as int, hits as int)) as u8,
        )
    }
}

/// Autoblasters: hits cannot be canceled.
pub open spec fn uncancelable(rider: Option<UpgradeEffect>) -> bool {
    rider == Some(UpgradeEffect::TurretAutoblasterUncancelable) || rider == Some(
        UpgradeEffect::CannonUncancelableHits,
    )
}

impl Game {
    /// Ship `d` receives `n` stress tokens, one after another.
    pub open spec fn stressed_by(self, content: Content, sight: Sight, d: int, n: int) -> Game
        decreases n,
    {
        if n <= 0 {
            self
        } else {
            self.stressed(content, sight, d).stressed_by(content, sight, d, n - 1)
        }
    }

    /// R4-D6: with three or more uncancelled hits, cancel down to two for a
    /// stress token each — only as far as the hull is at risk.
    #[verifier::opaque]
    pub open spec fn r4d6(self, content: Content, sight: Sight, d: int, hits: u8, crits: u8) -> (
        Game,
        u8,
    ) {
        let to_hull = less(sat(hits + crits) as int, self.ships[d].shields as int);
        let n = if hits - 2 < to_hull {
            hits - 2
        } else {
            to_hull
        };
        if hits >= 3 && self.has(content, d, UpgradeEffect::CancelHitsForStress) && n > 0 {
            (
                self.saying(Event::R4D6(d as usize, n as u8)).stressed_by(content, sight, d, n),
                (hits - n) as u8,
            )
        } else {
            (self, hits)
        }
    }

    /// "If this attack hits, … Then cancel all dice results": ion and
    /// flechette weapons deal a fixed 1 damage (plus their token), Adv.
    /// Homing Missiles a faceup card straight to the hull. The results left,
    /// and whether they go past the shields.
    #[verifier::opaque]
    pub open spec fn weapon_result(
        self,
        content: Content,
        sight: Sight,
        d: int,
        rider: Option<UpgradeEffect>,
        hits: u8,
        crits: u8,
    ) -> (Game, u8, u8, bool) {
        let s = self.ships[d];
        if hits == 0 && crits == 0 {
            (self, hits, crits, false)
        } else {
            match rider {
                Some(UpgradeEffect::TurretIonOneDamage) | Some(
                    UpgradeEffect::CannonIonOneDamage,
                ) => (
                    self.with_ship(d, s.with_ion(1)).saying(Event::IonCannon(d as usize)),
                    1,
                    0,
                    false,
                ),
                Some(UpgradeEffect::MissileIonOneDamage) => (
                    self.with_ship(d, s.with_ion(2)).saying(Event::IonPulse(d as usize)),
                    1,
                    0,
                    false,
                ),
                Some(UpgradeEffect::CannonOneDamageAndStress) => if s.stress == 0 {
                    (
                        self.stressed(content, sight, d).saying(Event::Flechette(d as usize, true)),
                        1,
                        0,
                        false,
                    )
                } else {
                    (self.saying(Event::Flechette(d as usize, false)), 1, 0, false)
                },
                Some(UpgradeEffect::MissileFaceupDamage) => (
                    self.saying(Event::HomingWarhead(d as usize)),
                    0,
                    1,
                    true,
                ),
                Some(UpgradeEffect::TurretTwinLaserTwiceOneDamage) => (
                    self.saying(Event::TwinLaser(d as usize)),
                    1,
                    0,
                    false,
                ),
                Some(UpgradeEffect::CannonTractorToken) => (
                    self.with_ship(d, ShipModel { tractor: sat(s.tractor + 1), ..s }).saying(
                        Event::TractorBeam(d as usize),
                    ),
                    0,
                    0,
                    false,
                ),
                _ => (self, hits, crits, false),
            }
        }
    }

    pub open spec fn martyr_rule(self, content: Content, friends: Seq<usize>) -> spec_fn(
        int,
    ) -> bool {
        |k: int| self.has(content, friends[k] as int, UpgradeEffect::SufferCritForFriendly)
    }

    /// Draw Their Fire: the friend at Range 1 that takes a critical hit.
    #[verifier::opaque]
    pub open spec fn martyr(self, content: Content, sight: Sight, d: int) -> Option<usize> {
        let friends = self.near(sight, d, 1);
        match first(self.martyr_rule(content, friends), 0, friends.len() as int) {
            Some(k) => Some(friends[k as int]),
            None => None,
        }
    }

    /// Ship `d` is the senator's shuttle.
    pub open spec fn is_shuttle(self, d: int) -> bool {
        self.mission is Some && self.mission->0.shuttle == Some(self.ships[d].id)
    }

    /// Hits are dealt one by one while the defender lives.
    pub open spec fn hits_dealt(self, d: int, n: int, toll: Toll) -> (Game, Toll)
        decreases n,
    {
        if n <= 0 || self.ships[d].destroyed {
            (self, toll)
        } else {
            self.damaged(d).hits_dealt(d, n - 1, toll.and(point(self.ships[d])))
        }
    }

    /// Wampa's facedown Damage card.
    #[verifier::opaque]
    pub open spec fn wampa_dealt(self, d: int, wampa: bool, toll: Toll) -> (Game, Toll) {
        if wampa && !self.ships[d].destroyed && self.ships[d].hull > 0 {
            let g = self.hulled(d);
            (
                g.saying(Event::WampaDamage(d as usize, g.ships[d].destroyed)),
                Toll { hull: sat(toll.hull + 1), ..toll },
            )
        } else {
            (self, toll)
        }
    }

    /// Reinforced Deflectors: three or more damage brings a shield back.
    #[verifier::opaque]
    pub open spec fn reinforced(self, content: Content, d: int, toll: Toll) -> Game {
        let s = self.ships[d];
        if toll.shields + toll.hull >= 3 && !s.destroyed && self.has(
            content,
            d,
            UpgradeEffect::SystemRecoverShieldAfter3Damage,
        ) && s.shields < s.full_shields(content) {
            self.with_ship(d, ShipModel { shields: sat(s.shields + 1), ..s }).saying(
                Event::ReinforcedDeflectors(d as usize),
            )
        } else {
            self
        }
    }

    /// What the defender makes of the damage: the first shield lost,
    /// Reinforced Deflectors, and cards that go when it is hit.
    #[verifier::opaque]
    pub open spec fn suffered(self, content: Content, d: int, toll: Toll, hit: bool) -> Game {
        let g = if toll.shields > 0 && !self.ships[d].destroyed {
            self.shield_lost(content, d)
        } else {
            self
        };
        let g = g.reinforced(content, d, toll);
        if hit {
            g.hit_discards(content, d, g.ships[d].active(content), 0)
        } else {
            g
        }
    }

    /// Ordnance is discarded once fired (after the repeat, if any); Munitions
    /// Failsafe keeps it after a miss, an ordnance token pays for it.
    #[verifier::opaque]
    pub open spec fn expended(self, content: Content, a: int, shot: Shot, landed: bool) -> Game {
        match shot.secondary(content) {
            None => self,
            Some(sw) => {
                let card = shot.weapon->0;
                if sw.discard_to_fire && (!shot.twice(content) || shot.second) && (landed
                    || !self.has(content, a, UpgradeEffect::KeepOrdnanceOnMiss)) {
                    if self.ships[a].ordnance.contains(card) {
                        self.ordnance_spent(a, card)
                    } else {
                        self.with_ship(a, self.ships[a].without(card)).saying(
                            Event::DiscardedFired(a as usize, card),
                        )
                    }
                } else {
                    self
                }
            },
        }
    }

    /// Turr Phennir: a free boost or barrel roll after the attack.
    #[verifier::opaque]
    pub open spec fn turr(
        self,
        content: Content,
        sight: Sight,
        moves: Moves,
        a: int,
        shot: Shot,
    ) -> (Game, Option<Reposition>) {
        let planned = self.ships[a].planned_action2;
        if (!shot.twice(content) || shot.second) && self.can(
            content,
            a,
            PilotAbility::FreeRepositionAfterAttack,
        ) && planned is Some {
            let g = self.with_ship(a, ShipModel { planned_action2: None, ..self.ships[a] });
            if g.ships[a].free_to_act(content) {
                let (g, result, _) = g.performing(content, sight, moves, a, planned->0);
                (
                    g.saying(Event::TurrPhennir(a as usize, result == ActionResult::Performed)),
                    match g.ships[a].pose {
                        Some(to) => Some(Reposition { action: planned->0, result, to }),
                        None => None,
                    },
                )
            } else {
                (g, None)
            }
        } else {
            (self, None)
        }
    }
}

impl Play {
    /// Draw Their Fire: a friend at Range 1 takes one critical hit that would
    /// otherwise reach the defender's hull. The criticals left.
    #[verifier::opaque]
    pub open spec fn fire_drawn(self, content: Content, sight: Sight, d: int, crits: u8) -> (
        Play,
        u8,
    ) {
        let friend = self.game.martyr(content, sight, d);
        if crits > 0 && self.game.ships[d].shields == 0 && friend is Some {
            let f = friend->0 as int;
            let g = self.game.saying(Event::DrawTheirFire(friend->0, d as usize));
            let p = self.at(g.damaged(f));
            (
                (if point(g.ships[f]) == DamagePoint::Hull && !p.game.ships[f].destroyed {
                    p.critical(content, f)
                } else {
                    p
                }).shields_watched(content, f, g.ships[f].shields),
                (crits - 1) as u8,
            )
        } else {
            (self, crits)
        }
    }

    /// A critical that reached the hull of a living defender draws its card.
    pub open spec fn card_dealt(self, content: Content, a: int, d: int) -> (Play, (u8, u8)) {
        let (p, effect) = self.dealt(content, a);
        p.saying(Event::Critical(d as usize, effect)).crit(content, d, effect)
    }

    /// Criticals are dealt one by one while the defender lives. Only those
    /// reaching the hull are critical — each draws one effect.
    pub open spec fn crits_dealt(
        self,
        content: Content,
        a: int,
        d: int,
        bypass: bool,
        n: int,
        toll: Toll,
    ) -> (Play, Toll)
        decreases n,
    {
        let s = self.game.ships[d];
        if n <= 0 || s.destroyed {
            (self, toll)
        } else {
            let taken = if !bypass {
                point(s)
            } else if s.hull > 0 {
                DamagePoint::Hull
            } else {
                DamagePoint::Nothing
            };
            let p = self.at(
                if bypass {
                    self.game.hulled(d)
                } else {
                    self.game.damaged(d)
                },
            );
            let toll = toll.and(taken);
            if taken == DamagePoint::Hull {
                let toll = Toll { crits: sat(toll.crits + 1), ..toll };
                if !p.game.ships[d].destroyed {
                    let (p, extra) = p.card_dealt(content, a, d);
                    p.crits_dealt(content, a, d, bypass, n - 1, toll.plus(extra))
                } else {
                    p.crits_dealt(content, a, d, bypass, n - 1, toll)
                }
            } else {
                p.crits_dealt(content, a, d, bypass, n - 1, toll)
            }
        }
    }

    /// Damage is dealt: hits before crits; shields absorb first.
    #[verifier::opaque]
    pub open spec fn damage_dealt(
        self,
        content: Content,
        a: int,
        d: int,
        hits: u8,
        crits: u8,
        bypass: bool,
        wampa: bool,
    ) -> (Play, Toll) {
        let (g, toll) = self.game.hits_dealt(d, hits as int, Toll::nothing());
        let (p, toll) = self.at(g).crits_dealt(content, a, d, bypass, crits as int, toll);
        let (g, toll) = p.game.wampa_dealt(d, wampa, toll);
        (p.at(g), toll)
    }
}

/// The attack dice once they have been modified, what was spent on them, and
/// whether they were all cashed in.
pub struct Aimed {
    pub throw: Throw<AttackFace>,
    pub spent: Spent,
    pub verdict: Verdict,
    pub wampa: bool,
}

/// The defense dice once they have been modified, the evades that count, and
/// what was spent on them.
pub struct Guarded {
    pub throw: Throw<DefenseFace>,
    pub evades: u8,
    pub focus: bool,
    pub evade: bool,
}

/// The damage that an attack did.
pub struct Struck {
    pub play: Play,
    pub toll: Toll,
    pub hits: u8,
    pub crits: u8,
    pub landed: bool,
}

impl Play {
    /// From the declaration to the final attack dice.
    #[verifier::opaque]
    pub open spec fn attack_rolled(self, content: Content, sight: Sight, a: int, shot: Shot) -> Aimed {
        let d = shot.d_idx as int;
        let primary = shot.secondary(content) is None;
        let g = self.game.declaring(content, sight, a, shot);
        let (g, armed) = g.arming(content, sight, a, shot);
        let (g, n) = g.gunnery(content, sight, a, shot);
        let faces = fired(self.dice, n, shot.rider(content));
        let dice = self.dice.rolled_by(n as nat);
        let (g, faces, jammed) = g.tampering(content, sight, a, shot, faces);
        let v = g.verdict(content, sight, a, shot);
        let g = g.judged(content, a, shot, v);
        let (t, spent) = Throw { game: g, dice, faces }.aimed(content, sight, a, shot, v, armed);
        let faces = if jammed {
            t.faces.push(AttackFace::Focus)
        } else {
            t.faces
        };
        let (g, faces) = if v.modify {
            t.game.converting(content, a, shot, faces)
        } else {
            (t.game, faces)
        };
        let before = (one_if(armed.focus) + one_if(spent.all_crits)) as u8;
        let (g, faces, focus) = g.spending(content, sight, a, v, before, faces);
        let (g, faces) = g.r3_astromech(content, a, primary && v.modify, faces);
        let t = Throw { game: g, dice: t.dice, faces };
        let t = if v.guard {
            t.forced(content, sight, a, d)
        } else {
            t
        };
        let (g, faces) = t.game.correcting(content, a, v.modify, t.faces);
        let (g, faces, wampa) = g.wampa(content, a, faces);
        Aimed {
            throw: Throw { game: g, dice: t.dice, faces },
            spent: Spent { focus, ..spent },
            verdict: v,
            wampa,
        }
    }

    /// From the defense roll to the evades that count, against `incoming`
    /// results.
    #[verifier::opaque]
    pub open spec fn defense_rolled(
        self,
        content: Content,
        sight: Sight,
        a: int,
        shot: Shot,
        attackers: nat,
        incoming: u8,
        v: Verdict,
    ) -> Guarded {
        let d = shot.d_idx as int;
        let t = Throw {
            game: self.game,
            dice: self.dice,
            faces: Seq::<DefenseFace>::empty(),
        }.guarded(content, sight, a, shot, attackers);
        let (g, faces) = t.game.guessing(content, d, incoming, t.faces);
        let t = Throw { game: g, faces, ..t };
        let t = if v.guard {
            t.dodged(content, sight, a, d, incoming)
        } else {
            t
        };
        let (g, faces) = if v.guard {
            t.game.deflecting(content, sight, a, shot, incoming, t.faces)
        } else {
            (t.game, t.faces)
        };
        let may_spend = g.guard_may_spend(content, sight, a, d, v.guard);
        let (g, faces, evades, focus) = g.guard_focusing(
            content,
            sight,
            d,
            may_spend,
            incoming,
            faces,
        );
        let (g, faces, evades, cluster) = g.clustering(
            content,
            sight,
            d,
            may_spend,
            incoming,
            evades,
            faces,
        );
        let (g, evades, evade) = g.evade_spending(
            d,
            may_spend && shot.rider(content) != Some(UpgradeEffect::MissileDenyEvadeTokens),
            incoming,
            evades,
        );
        let (g, faces, evades) = g.juking(content, a, v.modify, incoming, evades, faces);
        let (g, evades) = g.crack_shot(content, sight, a, d, incoming, evades);
        Guarded {
            throw: Throw { game: g, dice: t.dice, faces },
            evades,
            focus: focus || cluster,
            evade,
        }
    }

    /// The results are compared and the damage is dealt.
    #[verifier::opaque]
    pub open spec fn struck_by(
        self,
        content: Content,
        sight: Sight,
        a: int,
        shot: Shot,
        rolled: (u8, u8),
        evades: u8,
        wampa: bool,
    ) -> Struck {
        let d = shot.d_idx as int;
        let rider = shot.rider(content);
        let (hits, crits) = compared(rolled.0, rolled.1, evades, uncancelable(rider));
        let (g, hits) = self.game.r4d6(content, sight, d, hits, crits);
        let landed = hits > 0 || crits > 0;
        let (g, hits, crits, bypass) = g.weapon_result(content, sight, d, rider, hits, crits);
        let (p, crits) = self.at(g).fire_drawn(content, sight, d, crits);
        let (hits, crits) = if p.game.is_shuttle(d) {
            (sat(hits + crits), 0u8)
        } else {
            (hits, crits)
        };
        let (p, toll) = p.damage_dealt(content, a, d, hits, crits, bypass, wampa);
        Struck {
            play: p.at(p.game.suffered(content, d, toll, hits > 0 || crits > 0)),
            toll,
            hits,
            crits,
            landed,
        }
    }

    /// What the weapon, the crew and the pilot make of the attack afterwards.
    #[verifier::opaque]
    pub open spec fn wound_up(
        self,
        content: Content,
        sight: Sight,
        moves: Moves,
        a: int,
        shot: Shot,
        landed: bool,
        lock_spent: bool,
    ) -> (Play, Option<Reposition>) {
        let d = shot.d_idx as int;
        let g = match shot.rider(content) {
            Some(effect) => self.game.weapon_riders(content, sight, a, d, effect, landed),
            None => self.game,
        };
        let p = if !shot.twice(content) || shot.second {
            self.at(g).attack_cards(content, sight, a, d, shot.range, landed, lock_spent)
        } else {
            self.at(g)
        };
        let (g, reposition) = p.game.expended(content, a, shot, landed).turr(
            content,
            sight,
            moves,
            a,
            shot,
        );
        (p.at(g), reposition)
    }

    /// One declared attack, from the roll to the aftermath, and its record.
    #[verifier::opaque]
    pub open spec fn attacked(
        self,
        content: Content,
        sight: Sight,
        moves: Moves,
        a: int,
        shot: Shot,
    ) -> (Play, AttackModel) {
        let d = shot.d_idx as int;
        let aimed = self.attack_rolled(content, sight, a, shot);
        let t = aimed.throw;
        let rolled = (tally(t.faces, AttackFace::Hit), tally(t.faces, AttackFace::Crit));
        let guarded = Play { game: t.game, dice: t.dice }.defense_rolled(
            content,
            sight,
            a,
            shot,
            t.faces.len(),
            sat(rolled.0 + rolled.1),
            aimed.verdict,
        );
        let u = guarded.throw;
        let struck = Play { game: u.game, dice: u.dice }.struck_by(
            content,
            sight,
            a,
            shot,
            rolled,
            guarded.evades,
            aimed.wampa,
        );
        let (p, reposition) = struck.play.wound_up(
            content,
            sight,
            moves,
            a,
            shot,
            struck.landed,
            aimed.spent.lock,
        );
        (
            p,
            AttackModel {
                attacker: self.game.ships[a].id,
                defender: self.game.ships[d].id,
                range: shot.range,
                weapon: shot.weapon,
                obstructed: sight.at(a, d).obstructed,
                attack_faces: t.faces,
                defense_faces: u.faces,
                lock_spent: aimed.spent.lock,
                attacker_focus_spent: aimed.spent.focus,
                defender_focus_spent: guarded.focus,
                evade_spent: guarded.evade,
                defender_in_bullseye: sight.at(a, d).bullseye,
                hits: struck.hits,
                crits: struck.crits,
                shields_lost: struck.toll.shields,
                hull_lost: struck.toll.hull,
                crits_to_hull: struck.toll.crits,
                defender_destroyed: p.game.ships[d].destroyed,
                reposition,
            },
        )
    }
}

impl GameState {
    fn cancel_for_stress(
        &mut self,
        content: &Content,
        sight: &Sight,
        d: usize,
        hits: u8,
        crits: u8,
    ) -> (left: u8)
        requires
            d < old(self)@.ships.len(),
        ensures
            (final(self)@, left) == old(self)@.r4d6(*content, *sight, d as int, hits, crits),
            final(self)@.frame() == old(self)@.frame(),
    {
        reveal(Game::r4d6);
        if hits < 3 || !self.has_effect(content, d, UpgradeEffect::CancelHitsForStress) {
            return hits;
        }
        let to_hull: u8 = hits.saturating_add(crits).saturating_sub(self.ships[d].shields);
        let n: u8 = if hits - 2 < to_hull {
            hits - 2
        } else {
            to_hull
        };
        if n == 0 {
            return hits;
        }
        self.say(Event::R4D6(d, n));
        let ghost told = self@;
        let mut k: u8 = 0;
        while k < n
            invariant
                k <= n,
                self@.frame() == told.frame(),
                self@.stressed_by(*content, *sight, d as int, n - k) == told.stressed_by(
                    *content,
                    *sight,
                    d as int,
                    n as int,
                ),
            decreases n - k,
        {
            self.gain_stress(content, sight, d);
            k = k + 1;
        }
        hits - n
    }

    fn apply_weapon(
        &mut self,
        content: &Content,
        sight: &Sight,
        d: usize,
        effect: Option<UpgradeEffect>,
        hits: u8,
        crits: u8,
    ) -> (left: (u8, u8, bool))
        requires
            d < old(self)@.ships.len(),
        ensures
            (final(self)@, left.0, left.1, left.2) == old(self)@.weapon_result(
                *content,
                *sight,
                d as int,
                effect,
                hits,
                crits,
            ),
            final(self)@.frame() == old(self)@.frame(),
    {
        reveal(Game::weapon_result);
        if hits == 0 && crits == 0 {
            return (hits, crits, false);
        }
        match effect {
            Some(UpgradeEffect::TurretIonOneDamage) | Some(UpgradeEffect::CannonIonOneDamage) => {
                self.add_ion(d, 1);
                self.say(Event::IonCannon(d));
                (1, 0, false)
            },
            Some(UpgradeEffect::MissileIonOneDamage) => {
                self.add_ion(d, 2);
                self.say(Event::IonPulse(d));
                (1, 0, false)
            },
            Some(UpgradeEffect::CannonOneDamageAndStress) => {
                if self.ships[d].stress == 0 {
                    self.gain_stress(content, sight, d);
                    self.say(Event::Flechette(d, true));
                } else {
                    self.say(Event::Flechette(d, false));
                }
                (1, 0, false)
            },
            Some(UpgradeEffect::MissileFaceupDamage) => {
                self.say(Event::HomingWarhead(d));
                (0, 1, true)
            },
            Some(UpgradeEffect::TurretTwinLaserTwiceOneDamage) => {
                self.say(Event::TwinLaser(d));
                (1, 0, false)
            },
            Some(UpgradeEffect::CannonTractorToken) => {
                let s = self.ship_mut(d);
                s.tractor = s.tractor.saturating_add(1);
                self.say(Event::TractorBeam(d));
                (0, 0, false)
            },
            _ => (hits, crits, false),
        }
    }

    fn find_martyr(&self, content: &Content, sight: &Sight, d: usize) -> (place: Option<usize>)
        requires
            d < self@.ships.len(),
        ensures
            place == self@.martyr(*content, *sight, d as int),
            place is Some ==> place->0 < self@.ships.len(),
    {
        reveal(Game::martyr);
        let friends = self.friends_within(sight, d, 1);
        let test = |k: usize| -> (yes: bool)
            requires
                k < friends@.len(),
            ensures
                yes == obeys(self@.martyr_rule(*content, friends@), k),
        { self.has_effect(content, friends[k], UpgradeEffect::SufferCritForFriendly) };
        match find(friends.len(), test, Ghost(self@.martyr_rule(*content, friends@))) {
            Some(k) => Some(friends[k]),
            None => None,
        }
    }

    fn draw_fire(
        &mut self,
        content: &Content,
        sight: &Sight,
        d: usize,
        crits: u8,
        dice: &mut Dice,
    ) -> (left: u8)
        requires
            d < old(self)@.ships.len(),
            old(self)@.known(*content),
        ensures
            (Play { game: final(self)@, dice: final(dice)@ }, left) == (Play {
                game: old(self)@,
                dice: old(dice)@,
            }).fire_drawn(*content, *sight, d as int, crits),
            final(self)@.frame() == old(self)@.frame(),
    {
        reveal(Play::fire_drawn);
        if crits == 0 || self.ships[d].shields > 0 {
            return crits;
        }
        let f: usize = match self.find_martyr(content, sight, d) {
            None => return crits,
            Some(f) => f,
        };
        self.say(Event::DrawTheirFire(f, d));
        let shields: u8 = self.ships[f].shields;
        let taken = self.damage_point(f);
        if taken == DamagePoint::Hull && !self.ships[f].destroyed {
            self.draw_critical(content, f, dice);
        }
        self.watch_shields(content, f, shields);
        crits - 1
    }

    fn deal_hits(&mut self, d: usize, n: u8) -> (toll: Toll)
        requires
            d < old(self)@.ships.len(),
        ensures
            (final(self)@, toll) == old(self)@.hits_dealt(d as int, n as int, Toll::nothing()),
            final(self)@.frame() == old(self)@.frame(),
    {
        let mut toll = Toll { shields: 0, hull: 0, crits: 0 };
        let mut k: u8 = 0;
        while k < n && !self.ships[d].destroyed
            invariant
                k <= n,
                self@.frame() == old(self)@.frame(),
                self@.hits_dealt(d as int, n - k, toll) == old(self)@.hits_dealt(
                    d as int,
                    n as int,
                    Toll::nothing(),
                ),
            decreases n - k,
        {
            match self.damage_point(d) {
                DamagePoint::Shield => {
                    toll.shields = toll.shields.saturating_add(1);
                },
                DamagePoint::Hull => {
                    toll.hull = toll.hull.saturating_add(1);
                },
                DamagePoint::Nothing => {},
            }
            k = k + 1;
        }
        toll
    }

    fn deal_card(&mut self, content: &Content, a: usize, d: usize, dice: &mut Dice) -> (extra: (
        u8,
        u8,
    ))
        requires
            a < old(self)@.ships.len(),
            d < old(self)@.ships.len(),
            old(self)@.known(*content),
        ensures
            (Play { game: final(self)@, dice: final(dice)@ }, extra) == (Play {
                game: old(self)@,
                dice: old(dice)@,
            }).card_dealt(*content, a as int, d as int),
            final(self)@.frame() == old(self)@.frame(),
    {
        let effect = self.draw_crit_for(content, a, dice);
        self.say(Event::Critical(d, effect));
        self.apply_crit_effect(content, d, effect, dice)
    }

    fn deal_crits(
        &mut self,
        content: &Content,
        a: usize,
        d: usize,
        bypass: bool,
        n: u8,
        start: Toll,
        dice: &mut Dice,
    ) -> (toll: Toll)
        requires
            a < old(self)@.ships.len(),
            d < old(self)@.ships.len(),
            old(self)@.known(*content),
        ensures
            (Play { game: final(self)@, dice: final(dice)@ }, toll) == (Play {
                game: old(self)@,
                dice: old(dice)@,
            }).crits_dealt(*content, a as int, d as int, bypass, n as int, start),
            final(self)@.frame() == old(self)@.frame(),
    {
        let ghost before = Play { game: self@, dice: dice@ };
        let mut toll = start;
        let mut k: u8 = 0;
        while k < n && !self.ships[d].destroyed
            invariant
                k <= n,
                self@.frame() == old(self)@.frame(),
                (Play { game: self@, dice: dice@ }).crits_dealt(
                    *content,
                    a as int,
                    d as int,
                    bypass,
                    n - k,
                    toll,
                ) == before.crits_dealt(*content, a as int, d as int, bypass, n as int, start),
            decreases n - k,
        {
            let taken = if bypass {
                self.hull_point(d)
            } else {
                self.damage_point(d)
            };
            match taken {
                DamagePoint::Shield => {
                    toll.shields = toll.shields.saturating_add(1);
                },
                DamagePoint::Hull => {
                    toll.hull = toll.hull.saturating_add(1);
                    toll.crits = toll.crits.saturating_add(1);
                    if !self.ships[d].destroyed {
                        let extra = self.deal_card(content, a, d, dice);
                        toll.shields = toll.shields.saturating_add(extra.0);
                        toll.hull = toll.hull.saturating_add(extra.1);
                    }
                },
                DamagePoint::Nothing => {},
            }
            k = k + 1;
        }
        toll
    }

    fn deal_wampa(&mut self, d: usize, wampa: bool, start: Toll) -> (toll: Toll)
        requires
            d < old(self)@.ships.len(),
        ensures
            (final(self)@, toll) == old(self)@.wampa_dealt(d as int, wampa, start),
            final(self)@.frame() == old(self)@.frame(),
    {
        reveal(Game::wampa_dealt);
        if !wampa || self.ships[d].destroyed || self.ships[d].hull == 0 {
            return start;
        }
        self.hull_point(d);
        let died = self.ships[d].destroyed;
        self.say(Event::WampaDamage(d, died));
        Toll { shields: start.shields, hull: start.hull.saturating_add(1), crits: start.crits }
    }

    fn deal_damage(
        &mut self,
        content: &Content,
        a: usize,
        d: usize,
        hits: u8,
        crits: u8,
        bypass: bool,
        wampa: bool,
        dice: &mut Dice,
    ) -> (toll: Toll)
        requires
            a < old(self)@.ships.len(),
            d < old(self)@.ships.len(),
            old(self)@.known(*content),
        ensures
            (Play { game: final(self)@, dice: final(dice)@ }, toll) == (Play {
                game: old(self)@,
                dice: old(dice)@,
            }).damage_dealt(*content, a as int, d as int, hits, crits, bypass, wampa),
            final(self)@.frame() == old(self)@.frame(),
    {
        reveal(Play::damage_dealt);
        let hit = self.deal_hits(d, hits);
        let crit = self.deal_crits(content, a, d, bypass, crits, hit, dice);
        self.deal_wampa(d, wampa, crit)
    }

    fn reinforce(&mut self, content: &Content, d: usize, toll: Toll)
        requires
            d < old(self)@.ships.len(),
            old(self)@.known(*content),
        ensures
            final(self)@ == old(self)@.reinforced(*content, d as int, toll),
            final(self)@.frame() == old(self)@.frame(),
    {
        reveal(Game::reinforced);
        assert(self@.frame().ships[d as int] == self@.ships[d as int].identity());
        if (toll.shields as u16) + (toll.hull as u16) >= 3 && !self.ships[d].destroyed
            && self.has_effect(content, d, UpgradeEffect::SystemRecoverShieldAfter3Damage)
            && self.ships[d].shields < self.max_shields(content, &self.ships[d]) {
            let s = self.ship_mut(d);
            s.shields = s.shields.saturating_add(1);
            self.say(Event::ReinforcedDeflectors(d));
        }
    }

    fn suffer(&mut self, content: &Content, d: usize, toll: Toll, hit: bool)
        requires
            d < old(self)@.ships.len(),
            old(self)@.known(*content),
        ensures
            final(self)@ == old(self)@.suffered(*content, d as int, toll, hit),
            final(self)@.frame() == old(self)@.frame(),
    {
        reveal(Game::suffered);
        if toll.shields > 0 && !self.ships[d].destroyed {
            self.after_shield_loss(content, d);
        }
        self.reinforce(content, d, toll);
        // "If you are hit by an attack": at least one uncanceled result.
        if hit {
            self.discard_on_hit(content, d);
        }
    }

    fn expend(&mut self, content: &Content, a: usize, shot: Shot, landed: bool)
        requires
            a < old(self)@.ships.len(),
        ensures
            final(self)@ == old(self)@.expended(*content, a as int, shot, landed),
            final(self)@.frame() == old(self)@.frame(),
    {
        reveal(Game::expended);
        let sw = match shot.secondary_weapon(content) {
            None => return ,
            Some(sw) => sw,
        };
        let card = match shot.weapon {
            None => return ,
            Some(card) => card,
        };
        if !(sw.discard_to_fire && (!shot.fires_twice(content) || shot.second) && (landed
            || !self.has_effect(content, a, UpgradeEffect::KeepOrdnanceOnMiss))) {
            return;
        }
        if !self.spend_ordnance(a, card) {
            drop_card(&mut self.ship_mut(a).upgrades, card);
            self.say(Event::DiscardedFired(a, card));
        }
    }

    fn reposition_like_turr(
        &mut self,
        content: &Content,
        sight: &Sight,
        moves: &Moves,
        a: usize,
        shot: Shot,
    ) -> (reposition: Option<Reposition>)
        requires
            a < old(self)@.ships.len(),
            old(self)@.known(*content),
        ensures
            (final(self)@, reposition) == old(self)@.turr(
                *content,
                *sight,
                *moves,
                a as int,
                shot,
            ),
            final(self)@.frame() == old(self)@.frame(),
    {
        reveal(Game::turr);
        if !((!shot.fires_twice(content) || shot.second) && self.has_ability(
            content,
            a,
            PilotAbility::FreeRepositionAfterAttack,
        )) {
            return None;
        }
        let action = match self.ships[a].planned_action2 {
            None => return None,
            Some(action) => action,
        };
        self.ship_mut(a).planned_action2 = None;
        if !self.may_act_freely(content, a) {
            return None;
        }
        let done = self.perform_action(content, sight, moves, a, action);
        let result = done.0;
        self.say(Event::TurrPhennir(a, result == ActionResult::Performed));
        match self.ships[a].pose {
            Some(to) => Some(Reposition { action, result, to }),
            None => None,
        }
    }

    /// From the declaration to the final attack dice.
    fn roll_and_aim(
        &mut self,
        content: &Content,
        sight: &Sight,
        a: usize,
        shot: Shot,
        dice: &mut Dice,
    ) -> (aimed: (Vec<AttackFace>, Spent, Verdict, bool))
        requires
            a < old(self)@.ships.len(),
            shot.d_idx < old(self)@.ships.len(),
            old(self)@.known(*content),
        ensures
            (Aimed {
                throw: Throw { game: final(self)@, dice: final(dice)@, faces: aimed.0@ },
                spent: aimed.1,
                verdict: aimed.2,
                wampa: aimed.3,
            }) == (Play { game: old(self)@, dice: old(dice)@ }).attack_rolled(
                *content,
                *sight,
                a as int,
                shot,
            ),
            final(self)@.frame() == old(self)@.frame(),
    {
        reveal(Play::attack_rolled);
        let primary = shot.secondary_weapon(content).is_none();
        self.declare_attack(content, sight, a, shot);
        let armed = self.arm(content, sight, a, shot);
        let n: u8 = self.count_attack_dice(content, sight, a, shot);
        let mut faces = GameState::roll_attack(n, shot.weapon_effect(content), dice);
        let jammed = self.tamper(content, sight, a, shot, &mut faces);
        let v = self.judge(content, sight, a, shot);
        let spent = self.aim(content, sight, a, shot, v, armed, &mut faces, dice);
        if jammed {
            faces.push(AttackFace::Focus);
        }
        if v.modify {
            self.convert(content, a, shot, &mut faces);
        }
        let mut before: u8 = 0;
        if armed.focus {
            before = before + 1;
        }
        if spent.all_crits {
            before = before + 1;
        }
        let focus = self.spend_focus_tokens(content, sight, a, v, before, &mut faces);
        self.cancel_for_evade(content, a, primary && v.modify, &mut faces);
        if v.guard {
            self.defender_forces_rerolls(content, sight, a, shot.d_idx, &mut faces, dice);
        }
        self.correct_accuracy(content, a, v.modify, &mut faces);
        let wampa = self.cash_in(content, a, &mut faces);
        let all = Spent {
            lock: spent.lock,
            focus,
            frozen: spent.frozen,
            all_crits: spent.all_crits,
        };
        (faces, all, v, wampa)
    }

    /// From the defense roll to the evades that count.
    fn roll_and_guard(
        &mut self,
        content: &Content,
        sight: &Sight,
        a: usize,
        shot: Shot,
        attackers: usize,
        incoming: u8,
        v: Verdict,
        dice: &mut Dice,
    ) -> (guarded: (Vec<DefenseFace>, u8, bool, bool))
        requires
            a < old(self)@.ships.len(),
            shot.d_idx < old(self)@.ships.len(),
            old(self)@.known(*content),
        ensures
            (Guarded {
                throw: Throw { game: final(self)@, dice: final(dice)@, faces: guarded.0@ },
                evades: guarded.1,
                focus: guarded.2,
                evade: guarded.3,
            }) == (Play { game: old(self)@, dice: old(dice)@ }).defense_rolled(
                *content,
                *sight,
                a as int,
                shot,
                attackers as nat,
                incoming,
                v,
            ),
            final(self)@.frame() == old(self)@.frame(),
    {
        reveal(Play::defense_rolled);
        let d: usize = shot.d_idx;
        let mut faces = self.roll_defense(content, sight, a, shot, attackers, dice);
        self.guess_evades(content, d, incoming, &mut faces);
        if v.guard {
            self.dodge(content, sight, a, d, incoming, &mut faces, dice);
            self.deflect(content, sight, a, shot, incoming, &mut faces);
        }
        // A defender inside the attacker's bullseye lane cannot spend
        // focus or evade tokens to defend.
        let may_spend = self.can_guard(content, sight, a, d, v.guard);
        let focused = self.guard_with_focus(content, sight, d, may_spend, incoming, &mut faces);
        let clustered = self.guard_with_cluster(
            content,
            sight,
            d,
            may_spend,
            incoming,
            focused.0,
            &mut faces,
        );
        // Homing Missiles: the defender cannot spend evade tokens.
        let allowed = may_spend && shot.weapon_effect(content) != Some(
            UpgradeEffect::MissileDenyEvadeTokens,
        );
        let evaded = self.guard_with_evade(d, allowed, incoming, clustered.0);
        // Attacker's turn on the defense dice, taken only when one fewer
        // evade lets another result land.
        let juked: u8 = self.juke(content, a, v.modify, incoming, evaded.0, &mut faces);
        let evades: u8 = self.crack(content, sight, a, d, incoming, juked);
        (faces, evades, focused.1 || clustered.1, evaded.1)
    }

    /// Compare the results and deal the damage.
    fn compare_and_strike(
        &mut self,
        content: &Content,
        sight: &Sight,
        a: usize,
        shot: Shot,
        rolled: (u8, u8),
        evades: u8,
        wampa: bool,
        dice: &mut Dice,
    ) -> (struck: (Toll, u8, u8, bool))
        requires
            a < old(self)@.ships.len(),
            shot.d_idx < old(self)@.ships.len(),
            old(self)@.known(*content),
        ensures
            (Struck {
                play: Play { game: final(self)@, dice: final(dice)@ },
                toll: struck.0,
                hits: struck.1,
                crits: struck.2,
                landed: struck.3,
            }) == (Play { game: old(self)@, dice: old(dice)@ }).struck_by(
                *content,
                *sight,
                a as int,
                shot,
                rolled,
                evades,
                wampa,
            ),
            final(self)@.frame() == old(self)@.frame(),
    {
        reveal(Play::struck_by);
        let d: usize = shot.d_idx;
        let effect = shot.weapon_effect(content);
        // Compare results: evades cancel hits before crits. Autoblasters:
        // hits cannot be canceled, so evades only strike crits.
        let solid = effect == Some(UpgradeEffect::TurretAutoblasterUncancelable) || effect == Some(
            UpgradeEffect::CannonUncancelableHits,
        );
        let crits: u8 = if solid {
            rolled.1.saturating_sub(evades)
        } else {
            rolled.1.saturating_sub(evades.saturating_sub(rolled.0))
        };
        let uncanceled: u8 = if solid {
            rolled.0
        } else {
            rolled.0.saturating_sub(evades)
        };
        let hits: u8 = self.cancel_for_stress(content, sight, d, uncanceled, crits);
        let landed = hits > 0 || crits > 0;
        let fixed = self.apply_weapon(content, sight, d, effect, hits, crits);
        let drawn: u8 = self.draw_fire(content, sight, d, fixed.1, dice);
        // Mission 1: critical hits against the senator's shuttle are hits.
        let shuttle = match &self.mission {
            Some(m) => m.shuttle == Some(self.ships[d].id),
            None => false,
        };
        let hits: u8 = if shuttle {
            fixed.0.saturating_add(drawn)
        } else {
            fixed.0
        };
        let crits: u8 = if shuttle {
            0
        } else {
            drawn
        };
        // Deal damage: hits before crits; shields absorb first. Only crits
        // reaching the hull are critical — each draws one effect from the
        // table (immediates resolve now, the rest attach).
        let toll = self.deal_damage(content, a, d, hits, crits, fixed.2, wampa, dice);
        self.suffer(content, d, toll, hits > 0 || crits > 0);
        (toll, hits, crits, landed)
    }

    /// What follows the damage.
    fn wind_up(
        &mut self,
        content: &Content,
        sight: &Sight,
        moves: &Moves,
        a: usize,
        shot: Shot,
        landed: bool,
        lock_spent: bool,
        dice: &mut Dice,
    ) -> (reposition: Option<Reposition>)
        requires
            a < old(self)@.ships.len(),
            shot.d_idx < old(self)@.ships.len(),
            old(self)@.known(*content),
        ensures
            (Play { game: final(self)@, dice: final(dice)@ }, reposition) == (Play {
                game: old(self)@,
                dice: old(dice)@,
            }).wound_up(*content, *sight, *moves, a as int, shot, landed, lock_spent),
            final(self)@.frame() == old(self)@.frame(),
    {
        reveal(Play::wound_up);
        if let Some(effect) = shot.weapon_effect(content) {
            self.after_attack_effects(content, sight, a, shot.d_idx, effect, landed);
        }
        if !shot.fires_twice(content) || shot.second {
            self.after_attack_cards(content, sight, a, shot, landed, lock_spent, dice);
        }
        self.expend(content, a, shot, landed);
        self.reposition_like_turr(content, sight, moves, a, shot)
    }

    /// Resolve one declared attack (dice, token spending, damage, crits).
    /// Token policy: spend the lock to reroll misses, focus when eyes
    /// matter, evade when damage would otherwise land.
    pub fn perform_attack_on(
        &mut self,
        content: &Content,
        sight: &Sight,
        moves: &Moves,
        a: usize,
        shot: Shot,
        dice: &mut Dice,
    ) -> (record: AttackRecord)
        requires
            a < old(self)@.ships.len(),
            shot.d_idx < old(self)@.ships.len(),
            old(self)@.known(*content),
        ensures
            (Play { game: final(self)@, dice: final(dice)@ }, record@) == (Play {
                game: old(self)@,
                dice: old(dice)@,
            }).attacked(*content, *sight, *moves, a as int, shot),
            final(self)@.frame() == old(self)@.frame(),
    {
        reveal(Play::attacked);
        let d: usize = shot.d_idx;
        let attacker = self.ships[a].id;
        let defender = self.ships[d].id;
        let line = sight.line(a, d);
        let aimed = self.roll_and_aim(content, sight, a, shot, dice);
        let attack_faces = aimed.0;
        let rolled = (
            tally_faces(&attack_faces, AttackFace::Hit),
            tally_faces(&attack_faces, AttackFace::Crit),
        );
        let guarded = self.roll_and_guard(
            content,
            sight,
            a,
            shot,
            attack_faces.len(),
            rolled.0.saturating_add(rolled.1),
            aimed.2,
            dice,
        );
        let struck = self.compare_and_strike(
            content,
            sight,
            a,
            shot,
            rolled,
            guarded.1,
            aimed.3,
            dice,
        );
        let reposition = self.wind_up(
            content,
            sight,
            moves,
            a,
            shot,
            struck.3,
            aimed.1.lock,
            dice,
        );
        AttackRecord {
            attacker,
            defender,
            range: shot.range,
            weapon: shot.weapon,
            obstructed: line.obstructed,
            attack_faces,
            defense_faces: guarded.0,
            lock_spent: aimed.1.lock,
            attacker_focus_spent: aimed.1.focus,
            defender_focus_spent: guarded.2,
            evade_spent: guarded.3,
            defender_in_bullseye: line.bullseye,
            hits: struck.1,
            crits: struck.2,
            shields_lost: struck.0.shields,
            hull_lost: struck.0.hull,
            crits_to_hull: struck.0.crits,
            defender_destroyed: self.ships[d].destroyed,
            reposition,
        }
    }
}

} // verus!
