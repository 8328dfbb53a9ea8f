//! The attacker's dice: rerolls, conversions and tokens spent on them.

#![verifier::loop_isolation(false)]

use vstd::prelude::*;

use crate::data::Content;
use crate::dice::{
    count, count_faces, count_good, find_face, good_dice, lock_reroll, lock_rerolled, spot,
    throw_dice, thrown, turn_all, turned_all, AttackFace, Dice,
};
use crate::event::Event;
use crate::game::cards::one_if;
use crate::game::mods::{attack_misses, Throw};
use crate::game::state::{Game, GameState, Shot};
use crate::game::volley::{Spent, Verdict};
use crate::pick::{find, first, obeys};
use crate::pilot::PilotAbility;
use crate::ship::ShipId;
use crate::sight::Sight;
use crate::upgrade::{Slot, UpgradeEffect};

verus! {

broadcast use crate::game::state::framing;

impl Throw<AttackFace> {
    /// Han Solo (pilot): a poor roll — fewer than half the dice landing,
    /// focus results counted with a token to spend — is rerolled whole.
    #[verifier::opaque]
    pub open spec fn han_solo(self, content: Content, a: int) -> Throw<AttackFace> {
        if self.game.can(content, a, PilotAbility::RerollAllDice) && self.faces.len() > 0
            && good_dice(self.faces, self.game.ships[a].focus > 0) * 2 < self.faces.len() {
            Throw {
                game: self.game.saying(Event::HanRerolls(a as usize)),
                dice: self.dice.rolled_by(self.faces.len()),
                faces: thrown::<AttackFace>(self.dice, self.faces.len()),
            }
        } else {
            self
        }
    }

    /// The lock on the defender rerolls blanks (and eyes too if no focus
    /// token is held).
    #[verifier::opaque]
    pub open spec fn lock_spent(self, a: int, defender: ShipId) -> (Throw<AttackFace>, bool) {
        let eyes = self.game.ships[a].focus == 0;
        let any = spot(self.faces, AttackFace::Blank) is Some || (eyes && spot(
            self.faces,
            AttackFace::Focus,
        ) is Some);
        let (faces, dice) = lock_rerolled(self.faces, self.dice, eyes, 0);
        if self.game.ships[a].locks(defender) && any {
            (
                Throw {
                    game: self.game.with_ship(a, self.game.ships[a].unlocking(defender)),
                    dice,
                    faces,
                },
                true,
            )
        } else {
            (self, false)
        }
    }

    /// Rerolls thanks to friends at Range 1.
    #[verifier::opaque]
    pub open spec fn befriended(self, content: Content, sight: Sight, a: int, shot: Shot) -> Throw<
        AttackFace,
    > {
        let n = self.game.friendly_rerolls(content, sight, a, shot.secondary(content) is None);
        let wants = attack_misses(self.game.ships[a].focus);
        let done = self.rerolls(wants, n);
        if done > 0 {
            self.rerolled(wants, n).saying(Event::FriendlyRerolls(a as usize, done))
        } else {
            self.rerolled(wants, n)
        }
    }

    /// Captain Jonus: a friend at Range 1 firing a secondary weapon rerolls
    /// up to two dice.
    #[verifier::opaque]
    pub open spec fn jonus(self, content: Content, sight: Sight, a: int, shot: Shot) -> Throw<
        AttackFace,
    > {
        let friends = self.game.near(sight, a, 1);
        if shot.secondary(content) is Some && first(
            self.game.jonus_rule(content, friends),
            0,
            friends.len() as int,
        ) is Some {
            let wants = attack_misses(self.game.ships[a].focus);
            let done = self.rerolls(wants, 2);
            if done > 0 {
                self.rerolled(wants, 2).saying(Event::CaptainJonus(a as usize, done))
            } else {
                self.rerolled(wants, 2)
            }
        } else {
            self
        }
    }

    /// The rerolls that need no token.
    pub open spec fn helped(self, content: Content, sight: Sight, a: int, shot: Shot) -> Throw<
        AttackFace,
    > {
        self.befriended(content, sight, a, shot).talents(content, sight, a, shot.d_idx as int).jonus(
            content,
            sight,
            a,
            shot,
        )
    }

    /// The attacker's rerolls, and the tokens spent on them: Han Solo, the
    /// Adv. Targeting Computer, Han Solo (crew), Omega Ace, the lock, and
    /// friends.
    #[verifier::opaque]
    pub open spec fn aimed(
        self,
        content: Content,
        sight: Sight,
        a: int,
        shot: Shot,
        v: Verdict,
        spent: Spent,
    ) -> (Throw<AttackFace>, Spent) {
        let defender = self.game.ships[shot.d_idx as int].id;
        let t = if v.modify {
            self.han_solo(content, a)
        } else {
            self
        };
        let (g, faces, frozen) = if v.modify {
            t.game.computing(content, a, shot, t.faces)
        } else {
            (t.game, t.faces, false)
        };
        let (g, faces, crew) = if v.spend && !frozen {
            g.han_crew(content, a, defender, faces)
        } else {
            (g, faces, false)
        };
        let held = frozen || crew;
        let (g, faces, all_crits) = if v.spend && !held {
            g.omega_ace(content, a, defender, faces)
        } else {
            (g, faces, false)
        };
        let t = Throw { game: g, faces, ..t };
        let (t, lock) = if v.spend && !all_crits && !held {
            t.lock_spent(a, defender)
        } else {
            (t, false)
        };
        let t = if v.spend && !all_crits {
            t.helped(content, sight, a, shot)
        } else {
            t
        };
        (
            t,
            Spent {
                lock: spent.lock || crew || all_crits || lock,
                focus: spent.focus || all_crits,
                frozen: held,
                all_crits,
            },
        )
    }
}

impl Game {
    pub open spec fn jonus_rule(self, content: Content, friends: Seq<usize>) -> spec_fn(
        int,
    ) -> bool {
        |k: int|
            self.can(content, friends[k] as int, PilotAbility::FriendlySecondaryReroll2AtRange1)
    }

    /// Adv. Targeting Computer: a free critical hit with a lock on the
    /// defender, which then cannot be spent.
    #[verifier::opaque]
    pub open spec fn computing(self, content: Content, a: int, shot: Shot, faces: Seq<AttackFace>) -> (
        Game,
        Seq<AttackFace>,
        bool,
    ) {
        if shot.secondary(content) is None && self.ships[a].locks(
            self.ships[shot.d_idx as int].id,
        ) && self.has(content, a, UpgradeEffect::SystemAddCritWithLock) {
            (
                self.saying(Event::TargetingComputer(a as usize)),
                faces.push(AttackFace::Crit),
                true,
            )
        } else {
            (self, faces, false)
        }
    }

    /// Han Solo (crew): the lock turns every focus result into a hit when
    /// there is no token for them and that beats rerolling blanks.
    #[verifier::opaque]
    pub open spec fn han_crew(
        self,
        content: Content,
        a: int,
        defender: ShipId,
        faces: Seq<AttackFace>,
    ) -> (Game, Seq<AttackFace>, bool) {
        let eyes = count(faces, AttackFace::Focus);
        if self.ships[a].locks(defender) && self.ships[a].focus == 0 && self.has(
            content,
            a,
            UpgradeEffect::CrewLockAllFocusToHit,
        ) && eyes > 0 && eyes >= count(faces, AttackFace::Blank) {
            (
                self.with_ship(a, self.ships[a].unlocking(defender)).saying(
                    Event::HanCrew(a as usize),
                ),
                turned_all(faces, AttackFace::Focus, AttackFace::Hit),
                true,
            )
        } else {
            (self, faces, false)
        }
    }

    /// Omega Ace: a lock and a focus token turn every die into a critical.
    #[verifier::opaque]
    pub open spec fn omega_ace(
        self,
        content: Content,
        a: int,
        defender: ShipId,
        faces: Seq<AttackFace>,
    ) -> (Game, Seq<AttackFace>, bool) {
        if self.all_crits(content, a, defender, faces) {
            (
                self.with_ship(a, self.ships[a].unlocking(defender).less_focus()).saying(
                    Event::AllCritical(a as usize),
                ),
                Seq::new(faces.len(), |k: int| AttackFace::Crit),
                true,
            )
        } else {
            (self, faces, false)
        }
    }

    /// Kir Kanos: an evade token buys a hit result at Range 2-3.
    #[verifier::opaque]
    pub open spec fn kir_kanos(self, content: Content, a: int, range: u8, faces: Seq<AttackFace>) -> (
        Game,
        Seq<AttackFace>,
    ) {
        if 2 <= range <= 3 && self.ships[a].evade > 0 && self.can(
            content,
            a,
            PilotAbility::SpendEvadeForHitAtRange2To3,
        ) {
            (
                self.with_ship(a, self.ships[a].less_evade()).saying(Event::KirKanos(a as usize)),
                faces.push(AttackFace::Hit),
            )
        } else {
            (self, faces)
        }
    }

    /// Where `allowed`, the first `from` result becomes `to`, and the event
    /// is told.
    #[verifier::opaque]
    pub open spec fn swapping(
        self,
        allowed: bool,
        faces: Seq<AttackFace>,
        from: AttackFace,
        to: AttackFace,
        event: Event,
    ) -> (Game, Seq<AttackFace>) {
        match spot(faces, from) {
            Some(k) => if allowed {
                (self.saying(event), faces.update(k as int, to))
            } else {
                (self, faces)
            },
            None => (self, faces),
        }
    }

    /// The die that Guidance Chips turn: a blank first, else a focus result
    /// no token will convert.
    pub open spec fn chip_die(self, a: int, faces: Seq<AttackFace>) -> Option<usize> {
        match spot(faces, AttackFace::Blank) {
            Some(k) => Some(k),
            None => if self.ships[a].focus == 0 {
                spot(faces, AttackFace::Focus)
            } else {
                None
            },
        }
    }

    /// Guidance Chips: once per round a torpedo or missile die becomes a hit
    /// (a critical hit with a 3+ primary weapon).
    #[verifier::opaque]
    pub open spec fn chips(self, content: Content, a: int, shot: Shot, faces: Seq<AttackFace>) -> (
        Game,
        Seq<AttackFace>,
    ) {
        let slot = match shot.weapon {
            Some(u) => content.fits(u),
            None => None,
        };
        let die = self.chip_die(a, faces);
        if (slot == Some(Slot::Torpedo) || slot == Some(Slot::Missile)) && die is Some
            && self.unused(content, a, UpgradeEffect::OrdnanceDieToHit) is Some {
            let big = self.ships[a].printed(content).attack >= 3;
            (
                self.used(content, a, UpgradeEffect::OrdnanceDieToHit).saying(
                    Event::GuidanceChips(a as usize, big),
                ),
                faces.update(
                    die->0 as int,
                    if big {
                        AttackFace::Crit
                    } else {
                        AttackFace::Hit
                    },
                ),
            )
        } else {
            (self, faces)
        }
    }

    /// Marksmanship (action this round): one focus result to a critical hit,
    /// the rest to hits, no token needed.
    #[verifier::opaque]
    pub open spec fn marksman(self, content: Content, a: int, faces: Seq<AttackFace>) -> (
        Game,
        Seq<AttackFace>,
    ) {
        match spot(faces, AttackFace::Focus) {
            Some(k) => if self.ships[a].acting(
                content,
                UpgradeEffect::FocusToCritOthersToHitAction,
            ) {
                (
                    self.saying(Event::Marksmanship(a as usize)),
                    turned_all(
                        faces.update(k as int, AttackFace::Crit),
                        AttackFace::Focus,
                        AttackFace::Hit,
                    ),
                )
            } else {
                (self, faces)
            },
            None => (self, faces),
        }
    }

    /// Expertise: every focus result becomes a hit for free while unstressed.
    #[verifier::opaque]
    pub open spec fn expertise(self, content: Content, a: int, faces: Seq<AttackFace>) -> (
        Game,
        Seq<AttackFace>,
    ) {
        if self.has(content, a, UpgradeEffect::AllFocusToHitIfUnstressed) && self.ships[a].stress
            == 0 && spot(faces, AttackFace::Focus) is Some {
            (
                self.saying(Event::Expertise(a as usize)),
                turned_all(faces, AttackFace::Focus, AttackFace::Hit),
            )
        } else {
            (self, faces)
        }
    }

    /// The conversions that cost the attacker no focus token, one after
    /// another.
    #[verifier::opaque]
    pub open spec fn converting(self, content: Content, a: int, shot: Shot, faces: Seq<AttackFace>) -> (
        Game,
        Seq<AttackFace>,
    ) {
        let defender = self.ships[shot.d_idx as int].id;
        let (g, f) = self.free_attack_mods(content, a, shot.range, faces);
        let (g, f) = g.weapon_attack_mods(a, shot.rider(content), f);
        let (g, f) = g.kir_kanos(content, a, shot.range, f);
        // Luke Skywalker (crew): the second attack turns a focus result
        // into a hit for free.
        let (g, f) = g.swapping(
            shot.focus_hit,
            f,
            AttackFace::Focus,
            AttackFace::Hit,
            Event::LukeCrew(a as usize),
        );
        // Mercenary Copilot: a hit becomes a critical hit at Range 3.
        let (g, f) = g.swapping(
            shot.range == 3 && g.has(content, a, UpgradeEffect::CrewHitToCritAtRange3),
            f,
            AttackFace::Hit,
            AttackFace::Crit,
            Event::MercenaryCopilot(a as usize),
        );
        // Agent Kallus: one focus result to a hit against his mark.
        let (g, f) = g.swapping(
            g.marked(content, a, UpgradeEffect::CrewChosenEnemyFocusToHitOrEvade) == Some(defender),
            f,
            AttackFace::Focus,
            AttackFace::Hit,
            Event::AgentKallus(a as usize),
        );
        // A Score to Settle: one focus result to a critical hit
        // against the marked enemy.
        let (g, f) = g.swapping(
            g.marked(content, a, UpgradeEffect::ScoreToSettle) == Some(defender),
            f,
            AttackFace::Focus,
            AttackFace::Crit,
            Event::ScoreToSettle(a as usize),
        );
        let (g, f) = g.chips(content, a, shot, f);
        let (g, f) = g.marksman(content, a, f);
        g.expertise(content, a, f)
    }

    /// Calculation: with exactly one focus result, the focus token buys a
    /// critical hit instead of a plain hit.
    #[verifier::opaque]
    pub open spec fn calculating(self, content: Content, a: int, faces: Seq<AttackFace>) -> (
        Game,
        Seq<AttackFace>,
        bool,
    ) {
        if self.ships[a].focus > 0 && self.has(content, a, UpgradeEffect::FocusToCritSpendFocus)
            && count(faces, AttackFace::Focus) == 1 && spot(faces, AttackFace::Focus) is Some {
            (
                self.with_ship(a, self.ships[a].less_focus()).saying(
                    Event::Calculation(a as usize),
                ),
                faces.update(spot(faces, AttackFace::Focus)->0 as int, AttackFace::Crit),
                true,
            )
        } else {
            (self, faces, false)
        }
    }

    /// A focus token turns every focus result into a hit.
    #[verifier::opaque]
    pub open spec fn focusing_in(self, a: int, faces: Seq<AttackFace>) -> (
        Game,
        Seq<AttackFace>,
        bool,
    ) {
        if self.ships[a].focus > 0 && spot(faces, AttackFace::Focus) is Some {
            (
                self.with_ship(a, self.ships[a].less_focus()),
                turned_all(faces, AttackFace::Focus, AttackFace::Hit),
                true,
            )
        } else {
            (self, faces, false)
        }
    }

    /// Weapons Guidance: a focus token with no focus result left to convert
    /// turns a blank into a hit instead.
    #[verifier::opaque]
    pub open spec fn guiding(self, content: Content, a: int, faces: Seq<AttackFace>) -> (
        Game,
        Seq<AttackFace>,
        bool,
    ) {
        if self.ships[a].focus > 0 && self.has(content, a, UpgradeEffect::BlankToHitSpendFocus)
            && spot(faces, AttackFace::Blank) is Some {
            (
                self.with_ship(a, self.ships[a].less_focus()).saying(
                    Event::WeaponsGuidance(a as usize),
                ),
                faces.update(spot(faces, AttackFace::Blank)->0 as int, AttackFace::Hit),
                true,
            )
        } else {
            (self, faces, false)
        }
    }

    /// The friends of ship `a` answer to each of `n` focus tokens spent.
    pub open spec fn focus_spent_by(self, content: Content, sight: Sight, a: int, n: int) -> Game
        decreases n,
    {
        if n <= 0 {
            self
        } else {
            self.focus_spent(content, sight, a).focus_spent_by(content, sight, a, n - 1)
        }
    }

    /// The focus tokens that the attacker spends, and what its friends make
    /// of each, and of those spent before. The last value says whether any
    /// was spent.
    #[verifier::opaque]
    pub open spec fn spending(
        self,
        content: Content,
        sight: Sight,
        a: int,
        v: Verdict,
        before: u8,
        faces: Seq<AttackFace>,
    ) -> (Game, Seq<AttackFace>, bool) {
        let (g, f, s1) = if v.focus {
            self.calculating(content, a, faces)
        } else {
            (self, faces, false)
        };
        let (g, f, s2) = if v.focus {
            g.focusing_in(a, f)
        } else {
            (g, f, false)
        };
        let (g, f, s3) = if v.focus {
            g.guiding(content, a, f)
        } else {
            (g, f, false)
        };
        let n = before + one_if(s1) + one_if(s2) + one_if(s3);
        (g.focus_spent_by(content, sight, a, n), f, n > 0)
    }

    /// R3 Astromech: once per round a focus result nothing will convert is
    /// cancelled for an evade token (primary weapon only).
    #[verifier::opaque]
    pub open spec fn r3_astromech(
        self,
        content: Content,
        a: int,
        allowed: bool,
        faces: Seq<AttackFace>,
    ) -> (Game, Seq<AttackFace>) {
        let eye = spot(faces, AttackFace::Focus);
        if allowed && eye is Some && self.unused(content, a, UpgradeEffect::CancelFocusForEvade)
            is Some {
            let g = self.used(content, a, UpgradeEffect::CancelFocusForEvade);
            (
                g.with_ship(a, g.ships[a].with_evade()).saying(Event::R3Astromech(a as usize)),
                faces.remove(eye->0 as int),
            )
        } else {
            (self, faces)
        }
    }

    /// Accuracy Corrector: fewer than two results landing → cancel all and
    /// add two hits.
    #[verifier::opaque]
    pub open spec fn correcting(
        self,
        content: Content,
        a: int,
        allowed: bool,
        faces: Seq<AttackFace>,
    ) -> (Game, Seq<AttackFace>) {
        if allowed && self.has(content, a, UpgradeEffect::SystemCancelAllAddTwoHits) && good_dice(
            faces,
            false,
        ) < 2 {
            (
                self.saying(Event::AccuracyCorrector(a as usize)),
                seq![AttackFace::Hit, AttackFace::Hit],
            )
        } else {
            (self, faces)
        }
    }

    /// Wampa: a lone critical (at most one result landing) is cashed in for a
    /// facedown Damage card straight to the hull, no defense.
    #[verifier::opaque]
    pub open spec fn wampa(self, content: Content, a: int, faces: Seq<AttackFace>) -> (
        Game,
        Seq<AttackFace>,
        bool,
    ) {
        if self.can(content, a, PilotAbility::CancelAllForFacedownDamage) && spot(
            faces,
            AttackFace::Crit,
        ) is Some && good_dice(faces, false) <= 1 {
            (self.saying(Event::WampaCancels(a as usize)), Seq::empty(), true)
        } else {
            (self, faces, false)
        }
    }
}

impl GameState {
    fn reroll_like_han(
        &mut self,
        content: &Content,
        a: usize,
        faces: &mut Vec<AttackFace>,
        dice: &mut Dice,
    )
        requires
            a < old(self)@.ships.len(),
        ensures
            (Throw { game: final(self)@, dice: final(dice)@, faces: final(faces)@ }) == (Throw {
                game: old(self)@,
                dice: old(dice)@,
                faces: old(faces)@,
            }).han_solo(*content, a as int),
            final(self)@.frame() == old(self)@.frame(),
    {
        reveal(Throw::han_solo);
        if !self.has_ability(content, a, PilotAbility::RerollAllDice) || faces.len() == 0 {
            return;
        }
        let good: usize = count_good(faces, self.ships[a].focus > 0);
        if good < faces.len() - good {
            let n: usize = faces.len();
            *faces = throw_dice(n, dice);
            self.say(Event::HanRerolls(a));
        }
    }

    fn compute_crit(
        &mut self,
        content: &Content,
        a: usize,
        shot: Shot,
        faces: &mut Vec<AttackFace>,
    ) -> (frozen: bool)
        requires
            a < old(self)@.ships.len(),
            shot.d_idx < old(self)@.ships.len(),
        ensures
            (final(self)@, final(faces)@, frozen) == old(self)@.computing(
                *content,
                a as int,
                shot,
                old(faces)@,
            ),
            final(self)@.frame() == old(self)@.frame(),
    {
        reveal(Game::computing);
        let defender = self.ships[shot.d_idx].id;
        if shot.secondary_weapon(content).is_none() && self.ships[a].locks_on(defender)
            && self.has_effect(content, a, UpgradeEffect::SystemAddCritWithLock) {
            faces.push(AttackFace::Crit);
            self.say(Event::TargetingComputer(a));
            true
        } else {
            false
        }
    }

    fn lock_like_han(
        &mut self,
        content: &Content,
        a: usize,
        defender: ShipId,
        faces: &mut Vec<AttackFace>,
    ) -> (spent: bool)
        requires
            a < old(self)@.ships.len(),
        ensures
            (final(self)@, final(faces)@, spent) == old(self)@.han_crew(
                *content,
                a as int,
                defender,
                old(faces)@,
            ),
            final(self)@.frame() == old(self)@.frame(),
    {
        reveal(Game::han_crew);
        if !(self.ships[a].locks_on(defender) && self.ships[a].focus == 0 && self.has_effect(
            content,
            a,
            UpgradeEffect::CrewLockAllFocusToHit,
        )) {
            return false;
        }
        let eyes: usize = count_faces(faces, AttackFace::Focus);
        let blanks: usize = count_faces(faces, AttackFace::Blank);
        if !(eyes > 0 && eyes >= blanks) {
            return false;
        }
        turn_all(faces, AttackFace::Focus, AttackFace::Hit);
        self.ship_mut(a).drop_lock(defender);
        self.say(Event::HanCrew(a));
        true
    }

    fn crit_like_omega(
        &mut self,
        content: &Content,
        a: usize,
        defender: ShipId,
        faces: &mut Vec<AttackFace>,
    ) -> (spent: bool)
        requires
            a < old(self)@.ships.len(),
        ensures
            (final(self)@, final(faces)@, spent) == old(self)@.omega_ace(
                *content,
                a as int,
                defender,
                old(faces)@,
            ),
            final(self)@.frame() == old(self)@.frame(),
    {
        reveal(Game::omega_ace);
        self.spend_for_all_crits(content, a, defender, faces)
    }

    fn spend_lock(
        &mut self,
        a: usize,
        defender: ShipId,
        faces: &mut Vec<AttackFace>,
        dice: &mut Dice,
    ) -> (spent: bool)
        requires
            a < old(self)@.ships.len(),
        ensures
            (
                Throw { game: final(self)@, dice: final(dice)@, faces: final(faces)@ },
                spent,
            ) == (Throw { game: old(self)@, dice: old(dice)@, faces: old(faces)@ }).lock_spent(
                a as int,
                defender,
            ),
            final(self)@.frame() == old(self)@.frame(),
    {
        reveal(Throw::lock_spent);
        if !self.ships[a].locks_on(defender) {
            return false;
        }
        let eyes = self.ships[a].focus == 0;
        if find_face(faces, AttackFace::Blank).is_none() && !(eyes && find_face(
            faces,
            AttackFace::Focus,
        ).is_some()) {
            return false;
        }
        lock_reroll(faces, eyes, dice);
        self.ship_mut(a).drop_lock(defender);
        true
    }

    fn reroll_with_friends(
        &mut self,
        content: &Content,
        sight: &Sight,
        a: usize,
        shot: Shot,
        faces: &mut Vec<AttackFace>,
        dice: &mut Dice,
    )
        requires
            a < old(self)@.ships.len(),
        ensures
            (Throw { game: final(self)@, dice: final(dice)@, faces: final(faces)@ }) == (Throw {
                game: old(self)@,
                dice: old(dice)@,
                faces: old(faces)@,
            }).befriended(*content, *sight, a as int, shot),
            final(self)@.frame() == old(self)@.frame(),
    {
        reveal(Throw::befriended);
        let primary = shot.secondary_weapon(content).is_none();
        let n: u8 = self.friendly_rerolls(content, sight, a, primary);
        let done: u8 = self.reroll_attack_dice(a, faces, n, dice);
        if done > 0 {
            self.say(Event::FriendlyRerolls(a, done));
        }
    }

    fn jonus_near(&self, content: &Content, sight: &Sight, a: usize) -> (yes: bool)
        requires
            a < self@.ships.len(),
        ensures
            yes == (first(
                self@.jonus_rule(*content, self@.near(*sight, a as int, 1)),
                0,
                self@.near(*sight, a as int, 1).len() as int,
            ) is Some),
    {
        let friends = self.friends_within(sight, a, 1);
        let test = |k: usize| -> (yes: bool)
            requires
                k < friends@.len(),
            ensures
                yes == obeys(self@.jonus_rule(*content, friends@), k),
        { self.has_ability(content, friends[k], PilotAbility::FriendlySecondaryReroll2AtRange1) };
        find(friends.len(), test, Ghost(self@.jonus_rule(*content, friends@))).is_some()
    }

    fn reroll_with_jonus(
        &mut self,
        content: &Content,
        sight: &Sight,
        a: usize,
        shot: Shot,
        faces: &mut Vec<AttackFace>,
        dice: &mut Dice,
    )
        requires
            a < old(self)@.ships.len(),
        ensures
            (Throw { game: final(self)@, dice: final(dice)@, faces: final(faces)@ }) == (Throw {
                game: old(self)@,
                dice: old(dice)@,
                faces: old(faces)@,
            }).jonus(*content, *sight, a as int, shot),
            final(self)@.frame() == old(self)@.frame(),
    {
        reveal(Throw::jonus);
        if shot.secondary_weapon(content).is_none() || !self.jonus_near(content, sight, a) {
            return;
        }
        let done: u8 = self.reroll_attack_dice(a, faces, 2, dice);
        if done > 0 {
            self.say(Event::CaptainJonus(a, done));
        }
    }

    /// The attacker's rerolls, and the tokens spent on them.
    pub fn aim(
        &mut self,
        content: &Content,
        sight: &Sight,
        a: usize,
        shot: Shot,
        v: Verdict,
        spent: Spent,
        faces: &mut Vec<AttackFace>,
        dice: &mut Dice,
    ) -> (now: Spent)
        requires
            a < old(self)@.ships.len(),
            shot.d_idx < old(self)@.ships.len(),
            old(self)@.known(*content),
        ensures
            (
                Throw { game: final(self)@, dice: final(dice)@, faces: final(faces)@ },
                now,
            ) == (Throw { game: old(self)@, dice: old(dice)@, faces: old(faces)@ }).aimed(
                *content,
                *sight,
                a as int,
                shot,
                v,
                spent,
            ),
            final(self)@.frame() == old(self)@.frame(),
    {
        reveal(Throw::aimed);
        let defender = self.ships[shot.d_idx].id;
        if v.modify {
            self.reroll_like_han(content, a, faces, dice);
        }
        let mut frozen = false;
        if v.modify {
            frozen = self.compute_crit(content, a, shot, faces);
        }
        let mut crew = false;
        if v.spend && !frozen {
            crew = self.lock_like_han(content, a, defender, faces);
        }
        let held = frozen || crew;
        let mut all_crits = false;
        if v.spend && !held {
            all_crits = self.crit_like_omega(content, a, defender, faces);
        }
        let mut lock = false;
        if v.spend && !all_crits && !held {
            lock = self.spend_lock(a, defender, faces, dice);
        }
        if v.spend && !all_crits {
            self.reroll_with_friends(content, sight, a, shot, faces, dice);
            self.talent_attack_rerolls(content, sight, a, shot.d_idx, faces, dice);
            self.reroll_with_jonus(content, sight, a, shot, faces, dice);
        }
        Spent {
            lock: spent.lock || crew || all_crits || lock,
            focus: spent.focus || all_crits,
            frozen: held,
            all_crits,
        }
    }

    fn hit_like_kanos(
        &mut self,
        content: &Content,
        a: usize,
        range: u8,
        faces: &mut Vec<AttackFace>,
    )
        requires
            a < old(self)@.ships.len(),
        ensures
            (final(self)@, final(faces)@) == old(self)@.kir_kanos(
                *content,
                a as int,
                range,
                old(faces)@,
            ),
            final(self)@.frame() == old(self)@.frame(),
    {
        reveal(Game::kir_kanos);
        if 2 <= range && range <= 3 && self.ships[a].evade > 0 && self.has_ability(
            content,
            a,
            PilotAbility::SpendEvadeForHitAtRange2To3,
        ) {
            let s = self.ship_mut(a);
            s.evade = s.evade - 1;
            faces.push(AttackFace::Hit);
            self.say(Event::KirKanos(a));
        }
    }

    fn swap_face(
        &mut self,
        allowed: bool,
        faces: &mut Vec<AttackFace>,
        from: AttackFace,
        to: AttackFace,
        event: Event,
    )
        ensures
            (final(self)@, final(faces)@) == old(self)@.swapping(
                allowed,
                old(faces)@,
                from,
                to,
                event,
            ),
            final(self)@.frame() == old(self)@.frame(),
    {
        reveal(Game::swapping);
        if !allowed {
            return;
        }
        if let Some(k) = find_face(faces, from) {
            faces.set(k, to);
            self.say(event);
        }
    }

    fn guide_with_chips(
        &mut self,
        content: &Content,
        a: usize,
        shot: Shot,
        faces: &mut Vec<AttackFace>,
    )
        requires
            a < old(self)@.ships.len(),
            old(self)@.known(*content),
        ensures
            (final(self)@, final(faces)@) == old(self)@.chips(
                *content,
                a as int,
                shot,
                old(faces)@,
            ),
            final(self)@.frame() == old(self)@.frame(),
    {
        reveal(Game::chips);
        assert(self@.frame().ships[a as int] == self@.ships[a as int].identity());
        let slot = match shot.weapon {
            Some(u) => content.slot(u),
            None => None,
        };
        if slot != Some(Slot::Torpedo) && slot != Some(Slot::Missile) {
            return;
        }
        let die: Option<usize> = match find_face(faces, AttackFace::Blank) {
            Some(k) => Some(k),
            None => if self.ships[a].focus == 0 {
                find_face(faces, AttackFace::Focus)
            } else {
                None
            },
        };
        let k: usize = match die {
            None => return ,
            Some(k) => k,
        };
        let big = self.printed(content, &self.ships[a]).attack >= 3;
        if self.use_once(content, a, UpgradeEffect::OrdnanceDieToHit).is_none() {
            return;
        }
        faces.set(
            k,
            if big {
                AttackFace::Crit
            } else {
                AttackFace::Hit
            },
        );
        self.say(Event::GuidanceChips(a, big));
    }

    fn shoot_like_marksman(&mut self, content: &Content, a: usize, faces: &mut Vec<AttackFace>)
        requires
            a < old(self)@.ships.len(),
        ensures
            (final(self)@, final(faces)@) == old(self)@.marksman(*content, a as int, old(faces)@),
            final(self)@.frame() == old(self)@.frame(),
    {
        reveal(Game::marksman);
        if !self.card_action_active(
            content,
            &self.ships[a],
            UpgradeEffect::FocusToCritOthersToHitAction,
        ) {
            return;
        }
        if let Some(k) = find_face(faces, AttackFace::Focus) {
            faces.set(k, AttackFace::Crit);
            turn_all(faces, AttackFace::Focus, AttackFace::Hit);
            self.say(Event::Marksmanship(a));
        }
    }

    fn shoot_like_expert(&mut self, content: &Content, a: usize, faces: &mut Vec<AttackFace>)
        requires
            a < old(self)@.ships.len(),
        ensures
            (final(self)@, final(faces)@) == old(self)@.expertise(*content, a as int, old(faces)@),
            final(self)@.frame() == old(self)@.frame(),
    {
        reveal(Game::expertise);
        if self.has_effect(content, a, UpgradeEffect::AllFocusToHitIfUnstressed)
            && self.ships[a].stress == 0 && find_face(faces, AttackFace::Focus).is_some() {
            turn_all(faces, AttackFace::Focus, AttackFace::Hit);
            self.say(Event::Expertise(a));
        }
    }

    /// The conversions that cost the attacker no focus token.
    pub fn convert(&mut self, content: &Content, a: usize, shot: Shot, faces: &mut Vec<AttackFace>)
        requires
            a < old(self)@.ships.len(),
            shot.d_idx < old(self)@.ships.len(),
            old(self)@.known(*content),
        ensures
            (final(self)@, final(faces)@) == old(self)@.converting(
                *content,
                a as int,
                shot,
                old(faces)@,
            ),
            final(self)@.frame() == old(self)@.frame(),
    {
        reveal(Game::converting);
        let defender = self.ships[shot.d_idx].id;
        self.free_attack_mods(content, a, shot.range, faces);
        self.weapon_attack_mods(a, shot.weapon_effect(content), faces);
        self.hit_like_kanos(content, a, shot.range, faces);
        // Luke Skywalker (crew): the second attack turns a focus result
        // into a hit for free.
        self.swap_face(
            shot.focus_hit,
            faces,
            AttackFace::Focus,
            AttackFace::Hit,
            Event::LukeCrew(a),
        );
        // Mercenary Copilot: a hit becomes a critical hit at Range 3.
        let copilot = shot.range == 3 && self.has_effect(
            content,
            a,
            UpgradeEffect::CrewHitToCritAtRange3,
        );
        self.swap_face(
            copilot,
            faces,
            AttackFace::Hit,
            AttackFace::Crit,
            Event::MercenaryCopilot(a),
        );
        // Agent Kallus: one focus result to a hit against his mark.
        let kallus = self.marked_enemy(
            content,
            a,
            UpgradeEffect::CrewChosenEnemyFocusToHitOrEvade,
        ) == Some(defender);
        self.swap_face(
            kallus,
            faces,
            AttackFace::Focus,
            AttackFace::Hit,
            Event::AgentKallus(a),
        );
        // A Score to Settle: one focus result to a critical hit
        // against the marked enemy.
        let score = self.marked_enemy(content, a, UpgradeEffect::ScoreToSettle) == Some(defender);
        self.swap_face(
            score,
            faces,
            AttackFace::Focus,
            AttackFace::Crit,
            Event::ScoreToSettle(a),
        );
        self.guide_with_chips(content, a, shot, faces);
        self.shoot_like_marksman(content, a, faces);
        self.shoot_like_expert(content, a, faces);
    }

    fn calculate(&mut self, content: &Content, a: usize, faces: &mut Vec<AttackFace>) -> (spent:
        bool)
        requires
            a < old(self)@.ships.len(),
        ensures
            (final(self)@, final(faces)@, spent) == old(self)@.calculating(
                *content,
                a as int,
                old(faces)@,
            ),
            final(self)@.frame() == old(self)@.frame(),
    {
        reveal(Game::calculating);
        if !(self.ships[a].focus > 0 && self.has_effect(
            content,
            a,
            UpgradeEffect::FocusToCritSpendFocus,
        ) && count_faces(faces, AttackFace::Focus) == 1) {
            return false;
        }
        match find_face(faces, AttackFace::Focus) {
            None => false,
            Some(k) => {
                let s = self.ship_mut(a);
                s.focus = s.focus - 1;
                faces.set(k, AttackFace::Crit);
                self.say(Event::Calculation(a));
                true
            },
        }
    }

    fn focus_in(&mut self, a: usize, faces: &mut Vec<AttackFace>) -> (spent: bool)
        requires
            a < old(self)@.ships.len(),
        ensures
            (final(self)@, final(faces)@, spent) == old(self)@.focusing_in(a as int, old(faces)@),
            final(self)@.frame() == old(self)@.frame(),
    {
        reveal(Game::focusing_in);
        if self.ships[a].focus == 0 || find_face(faces, AttackFace::Focus).is_none() {
            return false;
        }
        let s = self.ship_mut(a);
        s.focus = s.focus - 1;
        turn_all(faces, AttackFace::Focus, AttackFace::Hit);
        true
    }

    fn guide(&mut self, content: &Content, a: usize, faces: &mut Vec<AttackFace>) -> (spent: bool)
        requires
            a < old(self)@.ships.len(),
        ensures
            (final(self)@, final(faces)@, spent) == old(self)@.guiding(
                *content,
                a as int,
                old(faces)@,
            ),
            final(self)@.frame() == old(self)@.frame(),
    {
        reveal(Game::guiding);
        if !(self.ships[a].focus > 0 && self.has_effect(
            content,
            a,
            UpgradeEffect::BlankToHitSpendFocus,
        )) {
            return false;
        }
        match find_face(faces, AttackFace::Blank) {
            None => false,
            Some(k) => {
                faces.set(k, AttackFace::Hit);
                let s = self.ship_mut(a);
                s.focus = s.focus - 1;
                self.say(Event::WeaponsGuidance(a));
                true
            },
        }
    }

    /// The focus tokens that the attacker spends; says whether any was spent,
    /// now or before.
    pub(crate) fn spend_focus_tokens(
        &mut self,
        content: &Content,
        sight: &Sight,
        a: usize,
        v: Verdict,
        before: u8,
        faces: &mut Vec<AttackFace>,
    ) -> (spent: bool)
        requires
            a < old(self)@.ships.len(),
            before <= 2,
        ensures
            (final(self)@, final(faces)@, spent) == old(self)@.spending(
                *content,
                *sight,
                a as int,
                v,
                before,
                old(faces)@,
            ),
            final(self)@.frame() == old(self)@.frame(),
    {
        reveal(Game::spending);
        let mut n: u8 = before;
        if v.focus {
            if self.calculate(content, a, faces) {
                n = n + 1;
            }
            if self.focus_in(a, faces) {
                n = n + 1;
            }
            if self.guide(content, a, faces) {
                n = n + 1;
            }
        }
        let ghost spent = self@;
        let mut k: u8 = 0;
        while k < n
            invariant
                k <= n,
                self@.frame() == spent.frame(),
                self@.focus_spent_by(*content, *sight, a as int, n - k) == spent.focus_spent_by(
                    *content,
                    *sight,
                    a as int,
                    n as int,
                ),
            decreases n - k,
        {
            self.friend_spent_focus(content, sight, a);
            k = k + 1;
        }
        n > 0
    }

    /// R3 Astromech.
    pub fn cancel_for_evade(
        &mut self,
        content: &Content,
        a: usize,
        allowed: bool,
        faces: &mut Vec<AttackFace>,
    )
        requires
            a < old(self)@.ships.len(),
        ensures
            (final(self)@, final(faces)@) == old(self)@.r3_astromech(
                *content,
                a as int,
                allowed,
                old(faces)@,
            ),
            final(self)@.frame() == old(self)@.frame(),
    {
        reveal(Game::r3_astromech);
        if !allowed {
            return;
        }
        let k: usize = match find_face(faces, AttackFace::Focus) {
            None => return ,
            Some(k) => k,
        };
        if self.use_once(content, a, UpgradeEffect::CancelFocusForEvade).is_none() {
            return;
        }
        faces.remove(k);
        self.add_evade(a);
        self.say(Event::R3Astromech(a));
    }

    /// Accuracy Corrector.
    pub fn correct_accuracy(
        &mut self,
        content: &Content,
        a: usize,
        allowed: bool,
        faces: &mut Vec<AttackFace>,
    )
        requires
            a < old(self)@.ships.len(),
        ensures
            (final(self)@, final(faces)@) == old(self)@.correcting(
                *content,
                a as int,
                allowed,
                old(faces)@,
            ),
            final(self)@.frame() == old(self)@.frame(),
    {
        reveal(Game::correcting);
        if allowed && self.has_effect(content, a, UpgradeEffect::SystemCancelAllAddTwoHits)
            && count_good(faces, false) < 2 {
            faces.clear();
            faces.push(AttackFace::Hit);
            faces.push(AttackFace::Hit);
            assert(faces@ =~= seq![AttackFace::Hit, AttackFace::Hit]);
            self.say(Event::AccuracyCorrector(a));
        }
    }

    /// Wampa; says whether the dice were cancelled.
    pub fn cash_in(&mut self, content: &Content, a: usize, faces: &mut Vec<AttackFace>) -> (wampa:
        bool)
        requires
            a < old(self)@.ships.len(),
        ensures
            (final(self)@, final(faces)@, wampa) == old(self)@.wampa(
                *content,
                a as int,
                old(faces)@,
            ),
            final(self)@.frame() == old(self)@.frame(),
    {
        reveal(Game::wampa);
        if !(self.has_ability(content, a, PilotAbility::CancelAllForFacedownDamage) && find_face(
            faces,
            AttackFace::Crit,
        ).is_some() && count_good(faces, false) <= 1) {
            return false;
        }
        faces.clear();
        assert(faces@ =~= Seq::empty());
        self.say(Event::WampaCancels(a));
        true
    }
}

} // verus!
