//! The defender's dice: how many, rerolls, conversions and tokens; and what
//! the attacker then does to them.

#![verifier::loop_isolation(false)]

use vstd::prelude::*;

use crate::data::Content;
use crate::dice::{
    find_face, spot, tally, tally_faces, throw_dice, thrown, turn_all, turned_all, DefenseFace,
    Dice, Face,
};
use crate::event::Event;
use crate::game::cards::one_if;
use crate::game::mods::{defense_misses, Throw};
use crate::game::state::{Game, GameState, Shot};
use crate::pilot::PilotAbility;
use crate::ship::{drop_card, sat};
use crate::sight::Sight;
use crate::upgrade::UpgradeEffect;

verus! {

broadcast use crate::game::state::framing;

impl Game {
    /// Where `lowered`, an agility above 0 drops by one and the event is told.
    #[verifier::opaque]
    pub open spec fn lowering(self, lowered: bool, agility: u8, event: Event) -> (Game, u8) {
        if lowered && agility > 0 {
            (self.saying(event), (agility - 1) as u8)
        } else {
            (self, agility)
        }
    }

    /// The defender's agility against this attack. Outmaneuver: a defender in
    /// the attacker's arc that does not have the attacker in its own loses
    /// one; so it does against Wedge Antilles, and while touching an enemy
    /// with Intimidation.
    #[verifier::opaque]
    pub open spec fn guard_agility(self, content: Content, sight: Sight, a: int, d: int) -> (
        Game,
        u8,
    ) {
        let (g, n) = self.lowering(
            self.has(content, a, UpgradeEffect::ReduceAgilityIfNotInDefenderArc) && self.in_arc(
                sight,
                a,
                d,
            ) && !self.in_arc(sight, d, a),
            self.agility(content, sight, d),
            Event::Outmaneuver(a as usize),
        );
        let (g, n) = g.lowering(
            g.can(content, a, PilotAbility::DefenderAgilityMinus1),
            n,
            Event::WedgeAntilles(a as usize),
        );
        g.lowering(g.intimidated(content, sight, d), n, Event::Intimidation(d as usize))
    }

    /// C-3PO: once per round, "zero evades" is guessed before the roll; a
    /// roll with none gains one evade result.
    #[verifier::opaque]
    pub open spec fn guessing(
        self,
        content: Content,
        d: int,
        incoming: u8,
        faces: Seq<DefenseFace>,
    ) -> (Game, Seq<DefenseFace>) {
        if incoming > 0 && spot(faces, DefenseFace::Evade) is None && self.unused(
            content,
            d,
            UpgradeEffect::CrewGuessEvades,
        ) is Some {
            (
                self.used(content, d, UpgradeEffect::CrewGuessEvades).saying(
                    Event::C3po(d as usize),
                ),
                faces.push(DefenseFace::Evade),
            )
        } else {
            (self, faces)
        }
    }

    /// Where `allowed` and damage would still land, the first `from` result
    /// becomes an evade, and the event is told.
    #[verifier::opaque]
    pub open spec fn dodging(
        self,
        allowed: bool,
        incoming: u8,
        faces: Seq<DefenseFace>,
        from: DefenseFace,
        event: Event,
    ) -> (Game, Seq<DefenseFace>) {
        match spot(faces, from) {
            Some(k) => if allowed && tally(faces, DefenseFace::Evade) < incoming {
                (self.saying(event), faces.update(k as int, DefenseFace::Evade))
            } else {
                (self, faces)
            },
            None => (self, faces),
        }
    }

    /// The conversions that cost the defender no token: Poe Dameron,
    /// Autothrusters beyond Range 2 or outside the attacker's arc, Agent
    /// Kallus against his mark, Luke Skywalker.
    #[verifier::opaque]
    pub open spec fn deflecting(
        self,
        content: Content,
        sight: Sight,
        a: int,
        shot: Shot,
        incoming: u8,
        faces: Seq<DefenseFace>,
    ) -> (Game, Seq<DefenseFace>) {
        let d = shot.d_idx as int;
        let attacker = self.ships[a].id;
        let (g, f) = self.free_defense_mods(content, d, incoming, faces);
        let (g, f) = g.dodging(
            (shot.range == 3 || !g.in_arc(sight, a, d)) && g.has(
                content,
                d,
                UpgradeEffect::BlankToEvadeAtRange3OrOutsideArc,
            ),
            incoming,
            f,
            DefenseFace::Blank,
            Event::Autothrusters(d as usize),
        );
        let (g, f) = g.dodging(
            g.marked(content, d, UpgradeEffect::CrewChosenEnemyFocusToHitOrEvade) == Some(attacker),
            incoming,
            f,
            DefenseFace::Focus,
            Event::AgentKallusEvade(d as usize),
        );
        g.dodging(
            g.can(content, d, PilotAbility::DefenseFocusToEvade),
            incoming,
            f,
            DefenseFace::Focus,
            Event::LukeSkywalker(d as usize),
        )
    }

    /// The defender may spend focus and evade tokens: not inside the
    /// attacker's bullseye lane, nor with Carnor Jax at Range 1.
    #[verifier::opaque]
    pub open spec fn guard_may_spend(
        self,
        content: Content,
        sight: Sight,
        a: int,
        d: int,
        may_modify: bool,
    ) -> bool {
        may_modify && !sight.at(a, d).bullseye && !self.carnor(content, sight, d)
    }

    /// A focus token turns every focus result into an evade when it helps.
    #[verifier::opaque]
    pub open spec fn guard_focusing(
        self,
        content: Content,
        sight: Sight,
        d: int,
        may_spend: bool,
        incoming: u8,
        faces: Seq<DefenseFace>,
    ) -> (Game, Seq<DefenseFace>, u8, bool) {
        let evades = tally(faces, DefenseFace::Evade);
        let eyes = tally(faces, DefenseFace::Focus);
        if may_spend && self.ships[d].focus > 0 && eyes > 0 && evades < incoming {
            (
                self.with_ship(d, self.ships[d].less_focus()).focus_spent(content, sight, d),
                turned_all(faces, DefenseFace::Focus, DefenseFace::Evade),
                sat(evades + eyes),
                true,
            )
        } else {
            (self, faces, evades, false)
        }
    }

    /// Sensor Cluster: with no focus result to convert, the focus token turns
    /// one blank into an evade instead.
    #[verifier::opaque]
    pub open spec fn clustering(
        self,
        content: Content,
        sight: Sight,
        d: int,
        may_spend: bool,
        incoming: u8,
        evades: u8,
        faces: Seq<DefenseFace>,
    ) -> (Game, Seq<DefenseFace>, u8, bool) {
        match spot(faces, DefenseFace::Blank) {
            Some(k) => if may_spend && self.ships[d].focus > 0 && evades < incoming && self.has(
                content,
                d,
                UpgradeEffect::BlankToEvadeSpendFocus,
            ) {
                (
                    self.with_ship(d, self.ships[d].less_focus()).saying(
                        Event::SensorCluster(d as usize),
                    ).focus_spent(content, sight, d),
                    faces.update(k as int, DefenseFace::Evade),
                    sat(evades + 1),
                    true,
                )
            } else {
                (self, faces, evades, false)
            },
            None => (self, faces, evades, false),
        }
    }

    /// An evade token adds one evade if damage would still land. Homing
    /// Missiles: evade tokens cannot be spent.
    #[verifier::opaque]
    pub open spec fn evade_spending(self, d: int, allowed: bool, incoming: u8, evades: u8) -> (
        Game,
        u8,
        bool,
    ) {
        if allowed && self.ships[d].evade > 0 && evades < incoming {
            (self.with_ship(d, self.ships[d].less_evade()), sat(evades + 1), true)
        } else {
            (self, evades, false)
        }
    }

    /// Juke: an evade token turns one of the defender's evade results into a
    /// focus, when one fewer evade lets another result land.
    #[verifier::opaque]
    pub open spec fn juking(
        self,
        content: Content,
        a: int,
        allowed: bool,
        incoming: u8,
        evades: u8,
        faces: Seq<DefenseFace>,
    ) -> (Game, Seq<DefenseFace>, u8) {
        match spot(faces, DefenseFace::Evade) {
            Some(k) => if allowed && 0 < evades <= incoming && self.ships[a].evade > 0 && self.has(
                content,
                a,
                UpgradeEffect::EvadeToFocusIfEvadeToken,
            ) {
                (
                    self.saying(Event::Juke(a as usize)),
                    faces.update(k as int, DefenseFace::Focus),
                    (evades - 1) as u8,
                )
            } else {
                (self, faces, evades)
            },
            None => (self, faces, evades),
        }
    }

    /// Crack Shot: discard the card to cancel one evade result against a
    /// defender in the firing arc, when that lets another result land.
    #[verifier::opaque]
    pub open spec fn crack_shot(
        self,
        content: Content,
        sight: Sight,
        a: int,
        d: int,
        incoming: u8,
        evades: u8,
    ) -> (Game, u8) {
        match self.card(content, a, UpgradeEffect::CancelEvadeDiscard) {
            Some(card) => if 0 < evades <= incoming && self.in_arc(sight, a, d) {
                let g = if self.tomax(content, a, card) {
                    self.marking(a, card).saying(Event::TomaxCrackShot(a as usize))
                } else {
                    self.with_ship(a, self.ships[a].without(card))
                };
                (g.saying(Event::CrackShot(a as usize)), (evades - 1) as u8)
            } else {
                (self, evades)
            },
            None => (self, evades),
        }
    }
}

impl Throw<DefenseFace> {
    /// Lightweight Frame: outgunned, one more defense die is rolled.
    #[verifier::opaque]
    pub open spec fn framed(self, content: Content, d: int, attackers: nat, n: u8) -> Throw<
        DefenseFace,
    > {
        if attackers as int % 256 > n && self.game.has(
            content,
            d,
            UpgradeEffect::ExtraDefenseDieIfOutgunned,
        ) {
            Throw {
                game: self.game.saying(Event::LightweightFrame(d as usize)),
                dice: self.dice.rolled(),
                faces: self.faces.push(DefenseFace::shown(self.dice.shows())),
            }
        } else {
            self
        }
    }

    /// Finn (defending): a blank joins the roll when the attacker is in this
    /// ship's arc.
    #[verifier::opaque]
    pub open spec fn finn(self, content: Content, sight: Sight, a: int, d: int) -> Throw<
        DefenseFace,
    > {
        if self.game.has(content, d, UpgradeEffect::CrewAddBlankIfEnemyInArc) && self.game.in_arc(
            sight,
            d,
            a,
        ) {
            Throw { faces: self.faces.push(DefenseFace::Blank), ..self }.saying(
                Event::FinnAddsBlank(d as usize),
            )
        } else {
            self
        }
    }

    /// The defense dice are thrown: one per agility, one more at range 3 vs
    /// primary weapons, and one more for an obstructed attack.
    #[verifier::opaque]
    pub open spec fn guarded(
        self,
        content: Content,
        sight: Sight,
        a: int,
        shot: Shot,
        attackers: nat,
    ) -> Throw<DefenseFace> {
        let d = shot.d_idx as int;
        let (g, agility) = self.game.guard_agility(content, sight, a, d);
        let n = sat(
            agility + one_if(shot.range == 3 && shot.secondary(content) is None) + one_if(
                sight.at(a, d).obstructed,
            ),
        );
        Throw {
            game: g,
            dice: self.dice.rolled_by(n as nat),
            faces: thrown::<DefenseFace>(self.dice, n as nat),
        }.framed(content, d, attackers, n).finn(content, sight, a, d)
    }

    /// Rerolls thanks to friends at Range 1.
    #[verifier::opaque]
    pub open spec fn friend_dodged(self, content: Content, sight: Sight, d: int) -> Throw<
        DefenseFace,
    > {
        let n = self.game.friendly_rerolls(content, sight, d, false);
        let wants = defense_misses(self.game.ships[d].focus);
        let done = self.rerolls(wants, n);
        if done > 0 {
            self.rerolled(wants, n).saying(Event::FriendlyDodges(d as usize, done))
        } else {
            self.rerolled(wants, n)
        }
    }

    /// Flight Instructor: reroll one focus result — or a blank against a
    /// pilot of skill 2 or less.
    #[verifier::opaque]
    pub open spec fn instructed(self, content: Content, a: int, d: int) -> Throw<DefenseFace> {
        let die = match spot(self.faces, DefenseFace::Focus) {
            Some(k) => Some(k),
            None => if self.game.ships[a].skill(content) <= 2 {
                spot(self.faces, DefenseFace::Blank)
            } else {
                None
            },
        };
        match die {
            Some(k) => if self.game.has(content, d, UpgradeEffect::CrewRerollDefenseDie) {
                self.reroll_at(k).saying(Event::FlightInstructor(d as usize))
            } else {
                self
            },
            None => self,
        }
    }

    /// The defender's rerolls, only taken when damage would otherwise still
    /// land.
    #[verifier::opaque]
    pub open spec fn dodged(
        self,
        content: Content,
        sight: Sight,
        a: int,
        d: int,
        incoming: u8,
    ) -> Throw<DefenseFace> {
        if tally(self.faces, DefenseFace::Evade) < incoming {
            self.friend_dodged(content, sight, d).talents(content, sight, a, d).instructed(
                content,
                a,
                d,
            )
        } else {
            self
        }
    }
}

impl GameState {
    fn lower_agility(&mut self, lowered: bool, agility: u8, event: Event) -> (n: u8)
        ensures
            (final(self)@, n) == old(self)@.lowering(lowered, agility, event),
            final(self)@.frame() == old(self)@.frame(),
    {
        reveal(Game::lowering);
        if lowered && agility > 0 {
            self.say(event);
            agility - 1
        } else {
            agility
        }
    }

    fn count_agility(&mut self, content: &Content, sight: &Sight, a: usize, d: usize) -> (n: u8)
        requires
            a < old(self)@.ships.len(),
            d < old(self)@.ships.len(),
            old(self)@.known(*content),
        ensures
            (final(self)@, n) == old(self)@.guard_agility(*content, *sight, a as int, d as int),
            final(self)@.frame() == old(self)@.frame(),
    {
        reveal(Game::guard_agility);
        let printed: u8 = self.agility(content, sight, d);
        // Outmaneuver: a defender in the attacker's arc that does not have
        // the attacker in its own arc loses one agility.
        let outmaneuvered = self.has_effect(
            content,
            a,
            UpgradeEffect::ReduceAgilityIfNotInDefenderArc,
        ) && self.ship_in_front_arc(sight, a, d) && !self.ship_in_front_arc(sight, d, a);
        let n: u8 = self.lower_agility(outmaneuvered, printed, Event::Outmaneuver(a));
        // Wedge Antilles: the defender's agility drops by one (minimum 0).
        let wedge = self.has_ability(content, a, PilotAbility::DefenderAgilityMinus1);
        let n: u8 = self.lower_agility(wedge, n, Event::WedgeAntilles(a));
        // Intimidation: a defender touching an enemy that carries it loses
        // one agility.
        let scared = self.touching_intimidator(content, sight, d);
        self.lower_agility(scared, n, Event::Intimidation(d))
    }

    fn throw_frame(
        &mut self,
        content: &Content,
        d: usize,
        attackers: usize,
        n: u8,
        faces: &mut Vec<DefenseFace>,
        dice: &mut Dice,
    )
        requires
            d < old(self)@.ships.len(),
        ensures
            (Throw { game: final(self)@, dice: final(dice)@, faces: final(faces)@ }) == (Throw {
                game: old(self)@,
                dice: old(dice)@,
                faces: old(faces)@,
            }).framed(*content, d as int, attackers as nat, n),
            final(self)@.frame() == old(self)@.frame(),
    {
        reveal(Throw::framed);
        if (attackers % 256) as u8 > n && self.has_effect(
            content,
            d,
            UpgradeEffect::ExtraDefenseDieIfOutgunned,
        ) {
            let fresh = DefenseFace::from_d8(dice.roll());
            faces.push(fresh);
            self.say(Event::LightweightFrame(d));
        }
    }

    fn throw_finn(
        &mut self,
        content: &Content,
        sight: &Sight,
        a: usize,
        d: usize,
        faces: &mut Vec<DefenseFace>,
        Ghost(tape): Ghost<crate::dice::Tape>,
    )
        requires
            a < old(self)@.ships.len(),
            d < old(self)@.ships.len(),
        ensures
            (Throw { game: final(self)@, dice: tape, faces: final(faces)@ }) == (Throw {
                game: old(self)@,
                dice: tape,
                faces: old(faces)@,
            }).finn(*content, *sight, a as int, d as int),
            final(self)@.frame() == old(self)@.frame(),
    {
        reveal(Throw::finn);
        if self.has_effect(content, d, UpgradeEffect::CrewAddBlankIfEnemyInArc)
            && self.ship_in_front_arc(sight, d, a) {
            faces.push(DefenseFace::Blank);
            self.say(Event::FinnAddsBlank(d));
        }
    }

    /// Throw the defense dice.
    pub fn roll_defense(
        &mut self,
        content: &Content,
        sight: &Sight,
        a: usize,
        shot: Shot,
        attackers: usize,
        dice: &mut Dice,
    ) -> (faces: Vec<DefenseFace>)
        requires
            a < old(self)@.ships.len(),
            shot.d_idx < old(self)@.ships.len(),
            old(self)@.known(*content),
        ensures
            (Throw { game: final(self)@, dice: final(dice)@, faces: faces@ }) == (Throw {
                game: old(self)@,
                dice: old(dice)@,
                faces: Seq::<DefenseFace>::empty(),
            }).guarded(*content, *sight, a as int, shot, attackers as nat),
            final(self)@.frame() == old(self)@.frame(),
    {
        reveal(Throw::guarded);
        let d: usize = shot.d_idx;
        let agility: u8 = self.count_agility(content, sight, a, d);
        let long: u8 = if shot.range == 3 && shot.secondary_weapon(content).is_none() {
            1
        } else {
            0
        };
        let hidden: u8 = if sight.line(a, d).obstructed {
            1
        } else {
            0
        };
        let n: u8 = agility.saturating_add(long).saturating_add(hidden);
        let mut faces: Vec<DefenseFace> = throw_dice(n as usize, dice);
        self.throw_frame(content, d, attackers, n, &mut faces, dice);
        self.throw_finn(content, sight, a, d, &mut faces, Ghost(dice@));
        faces
    }

    /// C-3PO.
    pub fn guess_evades(
        &mut self,
        content: &Content,
        d: usize,
        incoming: u8,
        faces: &mut Vec<DefenseFace>,
    )
        requires
            d < old(self)@.ships.len(),
        ensures
            (final(self)@, final(faces)@) == old(self)@.guessing(
                *content,
                d as int,
                incoming,
                old(faces)@,
            ),
            final(self)@.frame() == old(self)@.frame(),
    {
        reveal(Game::guessing);
        if incoming == 0 || find_face(faces, DefenseFace::Evade).is_some() {
            return;
        }
        if self.use_once(content, d, UpgradeEffect::CrewGuessEvades).is_none() {
            return;
        }
        faces.push(DefenseFace::Evade);
        self.say(Event::C3po(d));
    }

    fn dodge_with_friends(
        &mut self,
        content: &Content,
        sight: &Sight,
        d: usize,
        faces: &mut Vec<DefenseFace>,
        dice: &mut Dice,
    )
        requires
            d < old(self)@.ships.len(),
        ensures
            (Throw { game: final(self)@, dice: final(dice)@, faces: final(faces)@ }) == (Throw {
                game: old(self)@,
                dice: old(dice)@,
                faces: old(faces)@,
            }).friend_dodged(*content, *sight, d as int),
            final(self)@.frame() == old(self)@.frame(),
    {
        reveal(Throw::friend_dodged);
        let n: u8 = self.friendly_rerolls(content, sight, d, false);
        let done: u8 = self.reroll_defense_dice(d, faces, n, dice);
        if done > 0 {
            self.say(Event::FriendlyDodges(d, done));
        }
    }

    fn dodge_with_instructor(
        &mut self,
        content: &Content,
        a: usize,
        d: usize,
        faces: &mut Vec<DefenseFace>,
        dice: &mut Dice,
    )
        requires
            a < old(self)@.ships.len(),
            d < old(self)@.ships.len(),
            old(self)@.known(*content),
        ensures
            (Throw { game: final(self)@, dice: final(dice)@, faces: final(faces)@ }) == (Throw {
                game: old(self)@,
                dice: old(dice)@,
                faces: old(faces)@,
            }).instructed(*content, a as int, d as int),
            final(self)@.frame() == old(self)@.frame(),
    {
        reveal(Throw::instructed);
        assert(self@.frame().ships[a as int] == self@.ships[a as int].identity());
        if !self.has_effect(content, d, UpgradeEffect::CrewRerollDefenseDie) {
            return;
        }
        let die: Option<usize> = match find_face(faces, DefenseFace::Focus) {
            Some(k) => Some(k),
            None => if self.effective_skill(content, &self.ships[a]) <= 2 {
                find_face(faces, DefenseFace::Blank)
            } else {
                None
            },
        };
        if let Some(k) = die {
            let fresh = DefenseFace::from_d8(dice.roll());
            faces.set(k, fresh);
            self.say(Event::FlightInstructor(d));
        }
    }

    /// The defender's rerolls.
    pub fn dodge(
        &mut self,
        content: &Content,
        sight: &Sight,
        a: usize,
        d: usize,
        incoming: u8,
        faces: &mut Vec<DefenseFace>,
        dice: &mut Dice,
    )
        requires
            a < old(self)@.ships.len(),
            d < old(self)@.ships.len(),
            old(self)@.known(*content),
        ensures
            (Throw { game: final(self)@, dice: final(dice)@, faces: final(faces)@ }) == (Throw {
                game: old(self)@,
                dice: old(dice)@,
                faces: old(faces)@,
            }).dodged(*content, *sight, a as int, d as int, incoming),
            final(self)@.frame() == old(self)@.frame(),
    {
        reveal(Throw::dodged);
        if tally_faces(faces, DefenseFace::Evade) >= incoming {
            return;
        }
        self.dodge_with_friends(content, sight, d, faces, dice);
        self.talent_defense_rerolls(content, sight, a, d, faces, dice);
        self.dodge_with_instructor(content, a, d, faces, dice);
    }

    fn dodge_face(
        &mut self,
        allowed: bool,
        incoming: u8,
        faces: &mut Vec<DefenseFace>,
        from: DefenseFace,
        event: Event,
    )
        ensures
            (final(self)@, final(faces)@) == old(self)@.dodging(
                allowed,
                incoming,
                old(faces)@,
                from,
                event,
            ),
            final(self)@.frame() == old(self)@.frame(),
    {
        reveal(Game::dodging);
        if !allowed || tally_faces(faces, DefenseFace::Evade) >= incoming {
            return;
        }
        if let Some(k) = find_face(faces, from) {
            faces.set(k, DefenseFace::Evade);
            self.say(event);
        }
    }

    /// The conversions that cost the defender no token.
    pub fn deflect(
        &mut self,
        content: &Content,
        sight: &Sight,
        a: usize,
        shot: Shot,
        incoming: u8,
        faces: &mut Vec<DefenseFace>,
    )
        requires
            a < old(self)@.ships.len(),
            shot.d_idx < old(self)@.ships.len(),
        ensures
            (final(self)@, final(faces)@) == old(self)@.deflecting(
                *content,
                *sight,
                a as int,
                shot,
                incoming,
                old(faces)@,
            ),
            final(self)@.frame() == old(self)@.frame(),
    {
        reveal(Game::deflecting);
        let d: usize = shot.d_idx;
        let attacker = self.ships[a].id;
        self.free_defense_mods(content, d, faces, incoming);
        // Autothrusters: beyond Range 2 or outside the attacker's arc,
        // a blank becomes an evade.
        let thrusters = (shot.range == 3 || !self.ship_in_front_arc(sight, a, d))
            && self.has_effect(content, d, UpgradeEffect::BlankToEvadeAtRange3OrOutsideArc);
        self.dodge_face(
            thrusters,
            incoming,
            faces,
            DefenseFace::Blank,
            Event::Autothrusters(d),
        );
        // Agent Kallus: one focus result to an evade against his mark.
        let kallus = self.marked_enemy(
            content,
            d,
            UpgradeEffect::CrewChosenEnemyFocusToHitOrEvade,
        ) == Some(attacker);
        self.dodge_face(kallus, incoming, faces, DefenseFace::Focus, Event::AgentKallusEvade(d));
        // Luke Skywalker: one focus result to an evade, no token needed.
        let luke = self.has_ability(content, d, PilotAbility::DefenseFocusToEvade);
        self.dodge_face(luke, incoming, faces, DefenseFace::Focus, Event::LukeSkywalker(d));
    }

    /// May the defender spend focus and evade tokens?
    pub fn can_guard(
        &self,
        content: &Content,
        sight: &Sight,
        a: usize,
        d: usize,
        may_modify: bool,
    ) -> (yes: bool)
        requires
            a < self@.ships.len(),
            d < self@.ships.len(),
        ensures
            yes == self@.guard_may_spend(*content, *sight, a as int, d as int, may_modify),
    {
        reveal(Game::guard_may_spend);
        may_modify && !sight.line(a, d).bullseye && !self.carnor_near(content, sight, d)
    }

    /// A focus token for the defense.
    pub fn guard_with_focus(
        &mut self,
        content: &Content,
        sight: &Sight,
        d: usize,
        may_spend: bool,
        incoming: u8,
        faces: &mut Vec<DefenseFace>,
    ) -> (guard: (u8, bool))
        requires
            d < old(self)@.ships.len(),
        ensures
            (final(self)@, final(faces)@, guard.0, guard.1) == old(self)@.guard_focusing(
                *content,
                *sight,
                d as int,
                may_spend,
                incoming,
                old(faces)@,
            ),
            final(self)@.frame() == old(self)@.frame(),
    {
        reveal(Game::guard_focusing);
        let evades: u8 = tally_faces(faces, DefenseFace::Evade);
        let eyes: u8 = tally_faces(faces, DefenseFace::Focus);
        if !(may_spend && self.ships[d].focus > 0 && eyes > 0 && evades < incoming) {
            return (evades, false);
        }
        let s = self.ship_mut(d);
        s.focus = s.focus - 1;
        turn_all(faces, DefenseFace::Focus, DefenseFace::Evade);
        self.friend_spent_focus(content, sight, d);
        (evades.saturating_add(eyes), true)
    }

    /// Sensor Cluster.
    pub fn guard_with_cluster(
        &mut self,
        content: &Content,
        sight: &Sight,
        d: usize,
        may_spend: bool,
        incoming: u8,
        evades: u8,
        faces: &mut Vec<DefenseFace>,
    ) -> (guard: (u8, bool))
        requires
            d < old(self)@.ships.len(),
        ensures
            (final(self)@, final(faces)@, guard.0, guard.1) == old(self)@.clustering(
                *content,
                *sight,
                d as int,
                may_spend,
                incoming,
                evades,
                old(faces)@,
            ),
            final(self)@.frame() == old(self)@.frame(),
    {
        reveal(Game::clustering);
        if !(may_spend && self.ships[d].focus > 0 && evades < incoming && self.has_effect(
            content,
            d,
            UpgradeEffect::BlankToEvadeSpendFocus,
        )) {
            return (evades, false);
        }
        match find_face(faces, DefenseFace::Blank) {
            None => (evades, false),
            Some(k) => {
                faces.set(k, DefenseFace::Evade);
                let s = self.ship_mut(d);
                s.focus = s.focus - 1;
                self.say(Event::SensorCluster(d));
                self.friend_spent_focus(content, sight, d);
                (evades.saturating_add(1), true)
            },
        }
    }

    /// An evade token for the defense.
    pub fn guard_with_evade(&mut self, d: usize, allowed: bool, incoming: u8, evades: u8) -> (guard:
        (u8, bool))
        requires
            d < old(self)@.ships.len(),
        ensures
            (final(self)@, guard.0, guard.1) == old(self)@.evade_spending(
                d as int,
                allowed,
                incoming,
                evades,
            ),
            final(self)@.frame() == old(self)@.frame(),
    {
        reveal(Game::evade_spending);
        if !(allowed && self.ships[d].evade > 0 && evades < incoming) {
            return (evades, false);
        }
        let s = self.ship_mut(d);
        s.evade = s.evade - 1;
        (evades.saturating_add(1), true)
    }

    /// Juke.
    pub fn juke(
        &mut self,
        content: &Content,
        a: usize,
        allowed: bool,
        incoming: u8,
        evades: u8,
        faces: &mut Vec<DefenseFace>,
    ) -> (left: u8)
        requires
            a < old(self)@.ships.len(),
        ensures
            (final(self)@, final(faces)@, left) == old(self)@.juking(
                *content,
                a as int,
                allowed,
                incoming,
                evades,
                old(faces)@,
            ),
            final(self)@.frame() == old(self)@.frame(),
    {
        reveal(Game::juking);
        if !(allowed && evades > 0 && evades <= incoming && self.ships[a].evade > 0
            && self.has_effect(content, a, UpgradeEffect::EvadeToFocusIfEvadeToken)) {
            return evades;
        }
        match find_face(faces, DefenseFace::Evade) {
            None => evades,
            Some(k) => {
                faces.set(k, DefenseFace::Focus);
                self.say(Event::Juke(a));
                evades - 1
            },
        }
    }

    /// Crack Shot.
    pub fn crack(
        &mut self,
        content: &Content,
        sight: &Sight,
        a: usize,
        d: usize,
        incoming: u8,
        evades: u8,
    ) -> (left: u8)
        requires
            a < old(self)@.ships.len(),
            d < old(self)@.ships.len(),
        ensures
            (final(self)@, left) == old(self)@.crack_shot(
                *content,
                *sight,
                a as int,
                d as int,
                incoming,
                evades,
            ),
            final(self)@.frame() == old(self)@.frame(),
    {
        reveal(Game::crack_shot);
        if !(evades > 0 && evades <= incoming && self.ship_in_front_arc(sight, a, d)) {
            return evades;
        }
        let card = match self.card_with_effect(content, a, UpgradeEffect::CancelEvadeDiscard) {
            None => return evades,
            Some(card) => card,
        };
        if self.tomax_keeps(content, a, card) {
            self.ship_mut(a).used_round.push(card);
            self.say(Event::TomaxCrackShot(a));
        } else {
            drop_card(&mut self.ship_mut(a).upgrades, card);
        }
        self.say(Event::CrackShot(a));
        evades - 1
    }
}

} // verus!
