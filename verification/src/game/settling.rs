//! Right after the maneuver: stress by color, mines, collisions and shots at
//! the ship that moved.

#![verifier::loop_isolation(false)]

use vstd::prelude::*;

use crate::action::ActionKind;
use crate::bombs::{BombKind, BombToken, Detonation, DetonationModel};
use crate::crit::{has_crit, CritEffect};
use crate::data::Content;
use crate::dice::Dice;
use crate::event::{Event, Locker, Why};
use crate::game::actions::Moves;
use crate::game::blasts::{is_marked, marked};
use crate::game::cards::has_icon;
use crate::game::dial::Course;
use crate::game::state::{views, AttackModel, AttackRecord, Game, GameState, Play, Shot};
use crate::geometry::Pose;
use crate::maneuver::Difficulty;
use crate::pick::{find, first, obeys};
use crate::pilot::PilotAbility;
use crate::ship::ShipModel;
use crate::sight::Sight;
use crate::upgrade::{UpgradeEffect, UpgradeId};

verus! {

broadcast use crate::game::state::framing;

/// The mines among the first `n` tokens that were touched.
pub open spec fn mines_touched(all: Seq<BombToken>, touched: Seq<bool>, n: int) -> Seq<BombToken>
    decreases n,
{
    if n <= 0 {
        Seq::empty()
    } else if all[n - 1].kind.mine() && marked(touched, n - 1) {
        mines_touched(all, touched, n - 1).push(all[n - 1])
    } else {
        mines_touched(all, touched, n - 1)
    }
}

/// The tokens that do not have the id, in order.
pub open spec fn without_token(s: Seq<BombToken>, id: u32) -> Seq<BombToken>
    decreases s.len(),
{
    if s.len() == 0 {
        s
    } else if s.last().id == id {
        without_token(s.drop_last(), id)
    } else {
        without_token(s.drop_last(), id).push(s.last())
    }
}

/// The shot of a Snap Shot card.
pub open spec fn snap(i: usize, card: UpgradeId) -> Shot {
    Shot {
        d_idx: i,
        range: 1,
        weapon: Some(card),
        second: false,
        focus_hit: false,
        no_mods: true,
    }
}

impl Game {
    /// Targeting Astromech: a lock after a red maneuver.
    pub open spec fn flown_red(self, content: Content, sight: Sight, i: int) -> Game {
        let g = self.stressed(content, sight, i);
        if g.has(content, i, UpgradeEffect::LockAfterRed) {
            g.auto_locking(content, sight, i, 3, Locker::TargetingAstromech)
        } else {
            g
        }
    }

    pub open spec fn locker_rule(self, content: Content, sight: Sight, friends: Seq<usize>) -> spec_fn(
        int,
    ) -> bool {
        |k: int| self.lock_choice(content, sight, friends[k] as int, 3) is Some
    }

    /// Systems Officer: the first friend at Range 1 that can locks an enemy.
    #[verifier::opaque]
    pub open spec fn systems(self, content: Content, sight: Sight, i: int) -> Game {
        let friends = self.near(sight, i, 1);
        let f = first(self.locker_rule(content, sight, friends), 0, friends.len() as int);
        if !self.ships[i].destroyed && self.has(
            content,
            i,
            UpgradeEffect::CrewFriendlyLockAfterGreen,
        ) && f is Some {
            self.auto_locking(
                content,
                sight,
                friends[f->0 as int] as int,
                3,
                Locker::SystemsOfficer,
            )
        } else {
            self
        }
    }

    pub open spec fn free_rule(self, content: Content, friends: Seq<usize>) -> spec_fn(int) -> bool {
        |k: int| self.ships[friends[k] as int].free_to_act(content)
    }

    /// Lando Calrissian (pilot): a friend at Range 1 takes a free action from
    /// its bar — focus, else evade.
    #[verifier::opaque]
    pub open spec fn landoed(self, content: Content, sight: Sight, i: int) -> Game {
        let friends = self.near(sight, i, 1);
        let k = first(self.free_rule(content, friends), 0, friends.len() as int);
        if !self.ships[i].destroyed && self.can(
            content,
            i,
            PilotAbility::FriendlyFreeActionAfterGreen,
        ) && k is Some {
            let f = friends[k->0 as int];
            let s = self.ships[f as int];
            if s.bar(content).contains(ActionKind::Focus) {
                self.with_ship(f as int, s.with_focus()).saying(
                    Event::LandoHelps(i as usize, f, true),
                )
            } else if s.bar(content).contains(ActionKind::Evade) {
                self.with_ship(f as int, s.with_evade()).saying(
                    Event::LandoHelps(i as usize, f, false),
                )
            } else {
                self
            }
        } else {
            self
        }
    }

    /// R2-D2 (astromech): a shield back after a green maneuver.
    #[verifier::opaque]
    pub open spec fn recharged(self, content: Content, i: int) -> Game {
        let s = self.ships[i];
        if !s.destroyed && self.has(content, i, UpgradeEffect::RecoverShieldOnGreen) && s.shields
            < s.full_shields(content) {
            self.with_ship(i, ShipModel { shields: (s.shields + 1) as u8, ..s }).saying(
                Event::R2D2Green(i as usize),
            )
        } else {
            self
        }
    }

    /// "Night Beast": a free focus action after a green maneuver.
    #[verifier::opaque]
    pub open spec fn night_beast(self, content: Content, i: int) -> Game {
        let s = self.ships[i];
        if !s.destroyed && s.stress == 0 && self.can(
            content,
            i,
            PilotAbility::FreeFocusAfterGreen,
        ) {
            self.with_ship(i, s.with_focus()).saying(Event::FocusAfterGreen(i as usize))
        } else {
            self
        }
    }

    /// After a green maneuver.
    pub open spec fn flown_green(self, content: Content, sight: Sight, i: int) -> Game {
        self.unstressed(content, i).systems(content, sight, i).landoed(
            content,
            sight,
            i,
        ).recharged(content, i).night_beast(content, i)
    }

    /// The card that made a red maneuver white is discarded.
    pub open spec fn rushed(self, content: Content, i: int, course: Course) -> Game {
        match course.rush {
            Some(card) => self.discarding(content, i, card, Why::RedFlownWhite),
            None => self,
        }
    }

    /// Stress by the color that was flown.
    #[verifier::opaque]
    pub open spec fn settled(self, content: Content, sight: Sight, i: int, course: Course) -> Game {
        let g = self.rushed(content, i, course);
        match course.difficulty {
            Difficulty::Hard => g.flown_red(content, sight, i),
            Difficulty::Easy => g.flown_green(content, sight, i),
            Difficulty::Normal => g,
        }
    }

    /// The token is off the board.
    pub open spec fn cleared_of(self, id: u32) -> Game {
        Game { bombs: without_token(self.bombs, id), ..self }
    }

    /// Stunned Pilot: bumping costs a point of damage.
    #[verifier::opaque]
    pub open spec fn stunned(self, content: Content, i: int, bumped: bool) -> Game {
        if bumped && !self.ships[i].destroyed && self.ships[i].crits.contains(
            CritEffect::StunnedPilot,
        ) {
            let g = self.damaged(i);
            g.saying(Event::StunnedPilot(i as usize, g.ships[i].destroyed)).shields_watched(
                content,
                i,
                self.ships[i].shields,
            )
        } else {
            self
        }
    }

    /// Ship `s` may fire a Snap Shot at ship `i`: an enemy carrying the card
    /// that has not fired it yet, at Range 1 and in arc.
    pub open spec fn snaps_at(self, content: Content, sight: Sight, s: int, i: int) -> bool {
        s != i && !self.ships[s].destroyed && !self.ships[s].snap_shot_fired && !self.same_side(
            s,
            i,
        ) && !self.ships[i].destroyed && self.card(
            content,
            s,
            UpgradeEffect::SnapShotReaction,
        ) is Some && self.range(sight, s, i) == Some(1u8) && self.in_arc(sight, s, i)
    }

    /// Lightning Reflexes (switched on this round): after a white or green
    /// maneuver the ship spins in place, the card is discarded and a stress
    /// token follows.
    #[verifier::opaque]
    pub open spec fn spun(
        self,
        content: Content,
        sight: Sight,
        i: int,
        color: Difficulty,
        turned: Pose,
    ) -> Game {
        let card = self.ships[i].using(content, UpgradeEffect::RotateShip180Discard);
        if !self.ships[i].destroyed && color != Difficulty::Hard && card is Some {
            self.moved(i, turned).discarding(content, i, card->0, Why::Rotated).stressed(
                content,
                sight,
                i,
            )
        } else {
            self
        }
    }
}

impl Play {
    /// The mines from the `k`-th on go off under ship `i` until it is
    /// destroyed; what they did, and whether a Conner Net was among them.
    pub open spec fn mines_going_off(
        self,
        content: Content,
        sight: Sight,
        i: usize,
        mines: Seq<BombToken>,
        k: int,
        done: Seq<DetonationModel>,
        netted: bool,
    ) -> (Play, Seq<DetonationModel>, bool)
        decreases mines.len() - k,
    {
        if k >= mines.len() {
            (self, done, netted)
        } else {
            let p = self.at(self.game.cleared_of(mines[k].id));
            if p.game.ships[i as int].destroyed {
                (p, done, netted)
            } else {
                let (q, hits) = p.detonated(content, sight, mines[k].kind, seq![i]);
                q.mines_going_off(
                    content,
                    sight,
                    i,
                    mines,
                    k + 1,
                    done.push(DetonationModel { token: mines[k], hits }),
                    netted || mines[k].kind == BombKind::ConnerNet,
                )
            }
        }
    }

    /// Any mine that the base or template crossed goes off on this ship,
    /// right after the maneuver.
    #[verifier::opaque]
    pub open spec fn mined_by(self, content: Content, sight: Sight, i: usize, touched: Seq<bool>) -> (
        Play,
        Seq<DetonationModel>,
        bool,
    ) {
        if self.game.ships[i as int].destroyed {
            (self, Seq::empty(), false)
        } else {
            self.mines_going_off(
                content,
                sight,
                i,
                mines_touched(self.game.bombs, touched, self.game.bombs.len() as int),
                0,
                Seq::empty(),
                false,
            )
        }
    }

    /// Ship `s` fires a Snap Shot at ship `i` if it may.
    #[verifier::opaque]
    pub open spec fn snapped(
        self,
        content: Content,
        sight: Sight,
        moves: Moves,
        s: usize,
        i: usize,
    ) -> (Play, Option<AttackModel>) {
        if self.game.snaps_at(content, sight, s as int, i as int) {
            let card = self.game.card(content, s as int, UpgradeEffect::SnapShotReaction)->0;
            let g = self.game.with_ship(
                s as int,
                ShipModel { snap_shot_fired: true, ..self.game.ships[s as int] },
            ).saying(Event::SnapShot(s, i));
            let (p, record) = self.at(g).attacked(content, sight, moves, s as int, snap(i, card));
            (p, Some(record))
        } else {
            (self, None)
        }
    }
}

impl GameState {
    fn find_locker(&self, content: &Content, sight: &Sight, friends: &Vec<usize>) -> (place: Option<
        usize,
    >)
        requires
            forall|k: int| 0 <= k < friends@.len() ==> #[trigger] friends@[k] < self@.ships.len(),
        ensures
            place == first(
                self@.locker_rule(*content, *sight, friends@),
                0,
                friends@.len() as int,
            ),
            place is Some ==> place->0 < friends@.len(),
    {
        let test = |k: usize| -> (yes: bool)
            requires
                k < friends@.len(),
            ensures
                yes == obeys(self@.locker_rule(*content, *sight, friends@), k),
        { self.lock_pick(content, sight, friends[k], 3).is_some() };
        find(friends.len(), test, Ghost(self@.locker_rule(*content, *sight, friends@)))
    }

    fn order_lock(&mut self, content: &Content, sight: &Sight, i: usize)
        requires
            i < old(self)@.ships.len(),
        ensures
            final(self)@ == old(self)@.systems(*content, *sight, i as int),
            final(self)@.frame() == old(self)@.frame(),
    {
        reveal(Game::systems);
        if !self.ships[i].destroyed && self.has_effect(
            content,
            i,
            UpgradeEffect::CrewFriendlyLockAfterGreen,
        ) {
            let friends = self.friends_within(sight, i, 1);
            if let Some(k) = self.find_locker(content, sight, &friends) {
                self.auto_lock_within(content, sight, friends[k], 3, Locker::SystemsOfficer);
            }
        }
    }

    fn find_free(&self, content: &Content, friends: &Vec<usize>) -> (place: Option<usize>)
        requires
            forall|k: int| 0 <= k < friends@.len() ==> #[trigger] friends@[k] < self@.ships.len(),
        ensures
            place == first(self@.free_rule(*content, friends@), 0, friends@.len() as int),
            place is Some ==> place->0 < friends@.len(),
    {
        let test = |k: usize| -> (yes: bool)
            requires
                k < friends@.len(),
            ensures
                yes == obeys(self@.free_rule(*content, friends@), k),
        { self.may_act_freely(content, friends[k]) };
        find(friends.len(), test, Ghost(self@.free_rule(*content, friends@)))
    }

    fn help_like_lando(&mut self, content: &Content, sight: &Sight, i: usize)
        requires
            i < old(self)@.ships.len(),
            old(self)@.known(*content),
        ensures
            final(self)@ == old(self)@.landoed(*content, *sight, i as int),
            final(self)@.frame() == old(self)@.frame(),
    {
        reveal(Game::landoed);
        if !self.ships[i].destroyed && self.has_ability(
            content,
            i,
            PilotAbility::FriendlyFreeActionAfterGreen,
        ) {
            let friends = self.friends_within(sight, i, 1);
            if let Some(k) = self.find_free(content, &friends) {
                let f: usize = friends[k];
                assert(self@.frame().ships[f as int] == self@.ships[f as int].identity());
                let bar = self.action_bar(content, &self.ships[f]);
                if has_icon(&bar, ActionKind::Focus) {
                    self.add_focus(f);
                    self.say(Event::LandoHelps(i, f, true));
                } else if has_icon(&bar, ActionKind::Evade) {
                    self.add_evade(f);
                    self.say(Event::LandoHelps(i, f, false));
                }
            }
        }
    }

    fn recharge(&mut self, content: &Content, i: usize)
        requires
            i < old(self)@.ships.len(),
            old(self)@.known(*content),
        ensures
            final(self)@ == old(self)@.recharged(*content, i as int),
            final(self)@.frame() == old(self)@.frame(),
    {
        reveal(Game::recharged);
        assert(self@.frame().ships[i as int] == self@.ships[i as int].identity());
        if !self.ships[i].destroyed && self.has_effect(
            content,
            i,
            UpgradeEffect::RecoverShieldOnGreen,
        ) && self.ships[i].shields < self.max_shields(content, &self.ships[i]) {
            let s = self.ship_mut(i);
            s.shields = s.shields + 1;
            self.say(Event::R2D2Green(i));
        }
    }

    fn focus_after_green(&mut self, content: &Content, i: usize)
        requires
            i < old(self)@.ships.len(),
        ensures
            final(self)@ == old(self)@.night_beast(*content, i as int),
            final(self)@.frame() == old(self)@.frame(),
    {
        reveal(Game::night_beast);
        if !self.ships[i].destroyed && self.ships[i].stress == 0 && self.has_ability(
            content,
            i,
            PilotAbility::FreeFocusAfterGreen,
        ) {
            self.add_focus(i);
            self.say(Event::FocusAfterGreen(i));
        }
    }

    /// Stress by the EFFECTIVE color of the maneuver that ship `i` flew.
    /// Returns the stress that it had before.
    pub fn settle(&mut self, content: &Content, sight: &Sight, i: usize, course: Course) -> (before:
        u8)
        requires
            i < old(self)@.ships.len(),
            old(self)@.known(*content),
        ensures
            final(self)@ == old(self)@.settled(*content, *sight, i as int, course),
            before == old(self)@.ships[i as int].stress,
            final(self)@.frame() == old(self)@.frame(),
    {
        reveal(Game::settled);
        if let Some(card) = course.rush {
            self.discard_card(content, i, card, Why::RedFlownWhite);
        }
        let before: u8 = self.ships[i].stress;
        match course.difficulty {
            Difficulty::Hard => {
                self.gain_stress(content, sight, i);
                // Targeting Astromech: a lock after a red maneuver.
                if self.has_effect(content, i, UpgradeEffect::LockAfterRed) {
                    self.auto_lock_within(content, sight, i, 3, Locker::TargetingAstromech);
                }
            },
            Difficulty::Easy => {
                self.lose_stress(content, i);
                // Systems Officer: a friend at Range 1 may lock.
                self.order_lock(content, sight, i);
                // Lando Calrissian (pilot): a friend at Range 1 takes a
                // free action from its bar — focus, else evade.
                self.help_like_lando(content, sight, i);
                // R2-D2 (astromech): a shield back after a green maneuver.
                self.recharge(content, i);
                // "Night Beast": a free focus action after a green maneuver.
                self.focus_after_green(content, i);
            },
            Difficulty::Normal => {},
        }
        before
    }

    /// Take the token with the id off the board.
    pub fn remove_token(&mut self, id: u32)
        ensures
            final(self)@ == old(self)@.cleared_of(id),
            final(self)@.frame() == old(self)@.frame(),
    {
        let mut kept: Vec<BombToken> = Vec::new();
        let mut k: usize = 0;
        while k < self.bombs.len()
            invariant
                k <= self.bombs.len(),
                *self == *old(self),
                kept@ == without_token(self.bombs@.take(k as int), id),
            decreases self.bombs.len() - k,
        {
            assert(self.bombs@.take(k + 1).drop_last() =~= self.bombs@.take(k as int));
            if self.bombs[k].id != id {
                kept.push(self.bombs[k]);
            }
            k = k + 1;
        }
        assert(self.bombs@.take(k as int) =~= self.bombs@);
        self.bombs = kept;
    }

    fn list_mines(&self, touched: &Vec<bool>) -> (mines: Vec<BombToken>)
        ensures
            mines@ == mines_touched(self@.bombs, touched@, self@.bombs.len() as int),
    {
        let mut mines: Vec<BombToken> = Vec::new();
        let mut k: usize = 0;
        assert(mines@ =~= Seq::empty());
        while k < self.bombs.len()
            invariant
                k <= self.bombs.len(),
                mines@ == mines_touched(self@.bombs, touched@, k as int),
            decreases self.bombs.len() - k,
        {
            if self.bombs[k].kind.is_mine() && is_marked(touched, k) {
                mines.push(self.bombs[k]);
            }
            k = k + 1;
        }
        mines
    }

    /// Mines: any token the base or template crossed goes off on ship `i`.
    /// Returns what they did, and whether a Conner Net caught it.
    pub fn cross_mines(
        &mut self,
        content: &Content,
        sight: &Sight,
        touched: &Vec<bool>,
        i: usize,
        dice: &mut Dice,
    ) -> (hit: (Vec<Detonation>, bool))
        requires
            i < old(self)@.ships.len(),
            old(self)@.known(*content),
        ensures
            (Play { game: final(self)@, dice: final(dice)@ }, views(hit.0@), hit.1) == (Play {
                game: old(self)@,
                dice: old(dice)@,
            }).mined_by(*content, *sight, i, touched@),
            final(self)@.frame() == old(self)@.frame(),
    {
        reveal(Play::mined_by);
        let mut done: Vec<Detonation> = Vec::new();
        let mut netted = false;
        assert(views(done@) =~= Seq::empty());
        if self.ships[i].destroyed {
            return (done, false);
        }
        let mines = self.list_mines(touched);
        let mut victims: Vec<usize> = Vec::new();
        victims.push(i);
        assert(victims@ =~= seq![i]);
        let ghost start = Play { game: self@, dice: dice@ };
        let mut k: usize = 0;
        while k < mines.len()
            invariant
                k <= mines.len(),
                self@.frame() == old(self)@.frame(),
                victims@ == seq![i],
                (Play { game: self@, dice: dice@ }).mines_going_off(
                    *content,
                    *sight,
                    i,
                    mines@,
                    k as int,
                    views(done@),
                    netted,
                ) == start.mines_going_off(*content, *sight, i, mines@, 0, Seq::empty(), false),
            decreases mines.len() - k,
        {
            let token = mines[k];
            self.remove_token(token.id);
            if self.ships[i].destroyed {
                return (done, netted);
            }
            netted = netted || token.kind == BombKind::ConnerNet;
            let ghost before = views(done@);
            let detonation = self.detonate(content, sight, token, &victims, dice);
            let ghost model = detonation@;
            done.push(detonation);
            assert(views(done@) =~= before.push(model));
            k = k + 1;
        }
        (done, netted)
    }

    /// Stunned Pilot: bumping costs a point of damage.
    pub fn stun(&mut self, content: &Content, i: usize, bumped: bool)
        requires
            i < old(self)@.ships.len(),
        ensures
            final(self)@ == old(self)@.stunned(*content, i as int, bumped),
            final(self)@.frame() == old(self)@.frame(),
    {
        reveal(Game::stunned);
        if bumped && !self.ships[i].destroyed && has_crit(
            self.ships[i].crits.as_slice(),
            CritEffect::StunnedPilot,
        ) {
            let shields: u8 = self.ships[i].shields;
            self.damage_point(i);
            let died = self.ships[i].destroyed;
            self.say(Event::StunnedPilot(i, died));
            self.watch_shields(content, i, shields);
        }
    }

    /// Snap Shot: ship `s`, an enemy carrying it, fires at ship `i` right
    /// after its maneuver (Range 1, in arc; unmodified dice; once per
    /// Activation phase — policy: always, at the first chance).
    pub fn snap_shot(
        &mut self,
        content: &Content,
        sight: &Sight,
        moves: &Moves,
        s: usize,
        i: usize,
        dice: &mut Dice,
    ) -> (record: Option<AttackRecord>)
        requires
            s < old(self)@.ships.len(),
            i < old(self)@.ships.len(),
            old(self)@.known(*content),
        ensures
            (
                Play { game: final(self)@, dice: final(dice)@ },
                crate::game::state::view_of(record),
            ) == (Play { game: old(self)@, dice: old(dice)@ }).snapped(
                *content,
                *sight,
                *moves,
                s,
                i,
            ),
            final(self)@.frame() == old(self)@.frame(),
    {
        reveal(Play::snapped);
        if s == i || self.ships[s].destroyed || self.ships[s].snap_shot_fired || self.allied(
            self.ships[s].owner,
            self.ships[i].owner,
        ) || self.ships[i].destroyed {
            return None;
        }
        let card = match self.card_with_effect(content, s, UpgradeEffect::SnapShotReaction) {
            None => return None,
            Some(card) => card,
        };
        if self.range_between(sight, s, i) != Some(1) || !self.ship_in_front_arc(sight, s, i) {
            return None;
        }
        self.ship_mut(s).snap_shot_fired = true;
        self.say(Event::SnapShot(s, i));
        let shot = Shot {
            d_idx: i,
            range: 1,
            weapon: Some(card),
            second: false,
            focus_hit: false,
            no_mods: true,
        };
        let record = self.perform_attack_on(content, sight, moves, s, shot, dice);
        Some(record)
    }

    /// Lightning Reflexes (switched on this round): after a white or green
    /// maneuver ship `i` spins 180° in place to `turned`, the card is
    /// discarded and a stress token follows.
    pub fn spin(
        &mut self,
        content: &Content,
        sight: &Sight,
        i: usize,
        difficulty: Difficulty,
        turned: Pose,
    )
        requires
            i < old(self)@.ships.len(),
        ensures
            final(self)@ == old(self)@.spun(*content, *sight, i as int, difficulty, turned),
            final(self)@.frame() == old(self)@.frame(),
    {
        reveal(Game::spun);
        if !self.ships[i].destroyed && difficulty != Difficulty::Hard {
            if let Some(card) = self.using(content, i, UpgradeEffect::RotateShip180Discard) {
                self.ship_mut(i).pose = Some(turned);
                self.discard_card(content, i, card, Why::Rotated);
                self.gain_stress(content, sight, i);
            }
        }
    }
}

} // verus!
