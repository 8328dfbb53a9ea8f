//! The End phase, and who has won.

#![verifier::loop_isolation(false)]

use vstd::prelude::*;

use crate::crit::{draw, drawn, CritEffect};
use crate::data::Content;
use crate::dice::{attack_face, AttackFace, Dice};
use crate::event::Event;
use crate::game::state::{Game, GameState, Phase, Play};
use crate::pick::{find, first, obeys, pick, picked};
use crate::pilot::PilotAbility;
use crate::ship::{down, sat, PlayerId, ShipId, ShipModel, ShipState};
use crate::sight::Sight;
use crate::upgrade::UpgradeEffect;

verus! {

broadcast use crate::game::state::framing;

/// Where the first Ship-trait card lies from place `k` on.
pub open spec fn ship_card(crits: Seq<CritEffect>, k: int) -> Option<usize>
    decreases crits.len() - k,
{
    if k >= crits.len() {
        None
    } else if !crits[k].on_pilot() {
        Some(k as usize)
    } else {
        ship_card(crits, k + 1)
    }
}

/// The crits after the round: a Weapons Failure counts down, and goes when it
/// has no round left.
pub open spec fn ticked(crits: Seq<CritEffect>) -> Seq<CritEffect>
    decreases crits.len(),
{
    if crits.len() == 0 {
        crits
    } else {
        let rest = ticked(crits.drop_last());
        match crits.last() {
            CritEffect::WeaponsFailure { rounds } => if rounds <= 1 {
                rest
            } else {
                rest.push(CritEffect::WeaponsFailure { rounds: (rounds - 1) as u8 })
            },
            other => rest.push(other),
        }
    }
}

impl ShipModel {
    /// Without its locks on ships that are now destroyed.
    pub open spec fn released(self, dead: Seq<ShipId>) -> ShipModel {
        let s = match self.lock {
            Some(l) => if dead.contains(l) {
                self.unlocking(l)
            } else {
                self
            },
            None => self,
        };
        match self.lock2 {
            Some(l) => if dead.contains(l) {
                s.unlocking(l)
            } else {
                s
            },
            None => s,
        }
    }

    /// Cleared for the next round: unspent focus and evade tokens are
    /// removed (Comm Relay keeps one evade); target locks persist, except
    /// those on destroyed ships; timed crits tick down.
    pub open spec fn cleared(self, dead: Seq<ShipId>, keep: bool) -> ShipModel {
        ShipModel {
            focus: 0,
            evade: if keep && self.evade > 0 {
                1
            } else {
                0
            },
            tractor: 0,
            used_round: Seq::empty(),
            card_uses: Seq::empty(),
            shield_lost_round: false,
            on_asteroid: false,
            card_actions: Seq::empty(),
            planned_action2: None,
            crits: ticked(self.crits),
            ..self.released(dead)
        }
    }
}

/// How many sides still have a ship in play.
#[derive(Debug, Clone, Copy, PartialEq, Eq, Structural)]
pub enum Standing {
    Nobody,
    /// Only this side.
    One(u8),
    Several,
}

impl Game {
    /// Fel's Wrath finally goes down: ships without hull from `i` on.
    pub open spec fn felled(self, i: int) -> Game
        decreases self.ships.len() - i,
        when 0 <= i
    {
        if i >= self.ships.len() {
            self
        } else if self.ships[i].hull == 0 && !self.ships[i].destroyed {
            self.with_ship(i, ShipModel { destroyed: true, ..self.ships[i] }).saying(
                Event::FelsWrath(i as usize),
            ).felled(i + 1)
        } else {
            self.felled(i + 1)
        }
    }

    pub open spec fn mara_rule(self, sight: Sight, i: int) -> spec_fn(int) -> bool {
        |e: int|
            !self.same_side(e, i) && !self.ships[e].destroyed && self.ships[e].stress == 0
                && self.range(sight, i, e) == Some(1u8)
    }

    /// Mara Jade on ship `i` stresses the enemies at the places from `k` on.
    pub open spec fn mara_stressing(
        self,
        content: Content,
        sight: Sight,
        i: int,
        places: Seq<usize>,
        k: int,
    ) -> Game
        decreases places.len() - k,
    {
        if k >= places.len() {
            self
        } else {
            self.saying(Event::MaraJade(i as usize, places[k])).stressed(
                content,
                sight,
                places[k] as int,
            ).mara_stressing(content, sight, i, places, k + 1)
        }
    }

    /// End of the Combat phase: Mara Jade stresses every unstressed enemy at
    /// Range 1.
    #[verifier::opaque]
    pub open spec fn mara(self, content: Content, sight: Sight, i: int) -> Game {
        if self.ships[i].destroyed || !self.has(
            content,
            i,
            UpgradeEffect::CrewStressEnemiesAtRange1EndOfCombat,
        ) {
            self
        } else {
            self.mara_stressing(
                content,
                sight,
                i,
                picked(self.mara_rule(sight, i), 0, self.ships.len() as int),
                0,
            )
        }
    }

    /// Mara Jade on each of the first `n` ships, in order.
    pub open spec fn mara_by(self, content: Content, sight: Sight, n: int) -> Game
        decreases n,
    {
        if n <= 0 {
            self
        } else {
            self.mara_by(content, sight, n - 1).mara(content, sight, n - 1)
        }
    }

    /// R5-P9 on ship `i` trades a focus token for a shield, and its friends
    /// answer to the token spent.
    #[verifier::opaque]
    pub open spec fn r5p9(self, content: Content, sight: Sight, i: int) -> Game {
        let s = self.ships[i];
        if !s.destroyed && s.focus > 0 && s.shields < s.full_shields(content) && self.has(
            content,
            i,
            UpgradeEffect::RecoverShieldSpendFocus,
        ) {
            self.with_ship(
                i,
                ShipModel { focus: down(s.focus), shields: sat(s.shields + 1), ..s },
            ).saying(Event::R5P9(i as usize)).focus_spent(content, sight, i)
        } else {
            self
        }
    }

    /// R5-P9 on each of the first `n` ships, in order.
    pub open spec fn r5p9_by(self, content: Content, sight: Sight, n: int) -> Game
        decreases n,
    {
        if n <= 0 {
            self
        } else {
            self.r5p9_by(content, sight, n - 1).r5p9(content, sight, n - 1)
        }
    }

    /// R5 Astromech on ship `i`: one Ship-trait faceup card is flipped
    /// facedown.
    #[verifier::opaque]
    pub open spec fn r5(self, content: Content, i: int) -> Game {
        let s = self.ships[i];
        match ship_card(s.crits, 0) {
            Some(k) => if !s.destroyed && self.has(
                content,
                i,
                UpgradeEffect::FlipShipCritFacedown,
            ) {
                self.with_ship(i, ShipModel { crits: s.crits.remove(k as int), ..s }).saying(
                    Event::R5Astromech(i as usize, s.crits[k as int]),
                )
            } else {
                self
            },
            None => self,
        }
    }

    /// R5 Astromech on each of the first `n` ships, in order.
    pub open spec fn r5_by(self, content: Content, n: int) -> Game
        decreases n,
    {
        if n <= 0 {
            self
        } else {
            self.r5_by(content, n - 1).r5(content, n - 1)
        }
    }

    /// The ids of the destroyed ships among the first `n`.
    pub open spec fn dead(self, n: int) -> Seq<ShipId>
        decreases n,
    {
        if n <= 0 {
            Seq::empty()
        } else if self.ships[n - 1].destroyed {
            self.dead(n - 1).push(self.ships[n - 1].id)
        } else {
            self.dead(n - 1)
        }
    }

    /// Ship `i` is cleared for the next round. Rey (crew) stores one unused
    /// focus token on her card.
    #[verifier::opaque]
    pub open spec fn clearing(self, content: Content, dead: Seq<ShipId>, i: int) -> Game {
        let s = self.ships[i];
        let keep = self.has(content, i, UpgradeEffect::KeepOneEvade);
        if self.has(content, i, UpgradeEffect::CrewStoreFocusTokens) && s.focus > 0
            && !s.destroyed {
            self.saying(Event::ReyStores(i as usize)).with_ship(
                i,
                ShipModel { stored_focus: sat(s.stored_focus + 1), ..s.cleared(dead, keep) },
            )
        } else {
            self.with_ship(i, s.cleared(dead, keep))
        }
    }

    /// The first `n` ships are cleared, in order.
    pub open spec fn cleared_by(self, content: Content, dead: Seq<ShipId>, n: int) -> Game
        decreases n,
    {
        if n <= 0 {
            self
        } else {
            self.cleared_by(content, dead, n - 1).clearing(content, dead, n - 1)
        }
    }

    pub open spec fn alive_rule(self) -> spec_fn(int) -> bool {
        |k: int| !self.ships[k].destroyed
    }

    pub open spec fn rival_rule(self, side: u8) -> spec_fn(int) -> bool {
        |k: int| !self.ships[k].destroyed && self.side(self.ships[k].owner) != side
    }

    /// How many sides still have a ship in play.
    #[verifier::opaque]
    pub open spec fn standing(self) -> Standing {
        match first(self.alive_rule(), 0, self.ships.len() as int) {
            None => Standing::Nobody,
            Some(k) => {
                let side = self.side(self.ships[k as int].owner);
                if first(self.rival_rule(side), 0, self.ships.len() as int) is Some {
                    Standing::Several
                } else {
                    Standing::One(side)
                }
            },
        }
    }

    pub open spec fn unplaced_rule(self) -> spec_fn(int) -> bool {
        |k: int| !self.ships[k].destroyed && self.ships[k].pose is None
    }

    /// One side left (or none): the game is over. With every last ship
    /// destroyed at once the side with initiative wins (core rules p.13).
    /// Missions are won by their objectives only; a reinforcement waiting to
    /// be placed reopens Placement.
    #[verifier::opaque]
    pub open spec fn judged_over(self) -> Game {
        if self.mission is Some {
            match self.objective() {
                Some(w) => Game { phase: Phase::GameOver, winner: Some(w), ..self },
                None => if first(self.unplaced_rule(), 0, self.ships.len() as int) is Some {
                    Game { phase: Phase::Placement, ..self }
                } else {
                    Game { phase: Phase::Planning, ..self }
                },
            }
        } else {
            match self.standing() {
                Standing::Nobody => Game {
                    phase: Phase::GameOver,
                    winner: Some(self.side(self.initiative)),
                    ..self
                },
                Standing::One(side) => Game {
                    phase: Phase::GameOver,
                    winner: Some(side),
                    ..self
                },
                Standing::Several => Game { phase: Phase::Planning, ..self },
            }
        }
    }

    /// A new round: nobody has committed, no reds are white, and every
    /// Damaged Cockpit counts.
    pub open spec fn new_round(self) -> Game {
        let n = self.committed.len();
        Game {
            ships: Seq::new(
                self.ships.len(),
                |k: int| ShipModel { fresh_cockpits: 0, ..self.ships[k] },
            ),
            white_reds: Seq::new(n, |k: int| false),
            committed: Seq::new(n, |k: int| false),
            turn: (self.turn + 1) as u32,
            ..self
        }
    }

    /// The first `n` ships of the player leave the game.
    pub open spec fn conceded(self, player: PlayerId, n: int) -> Game
        decreases n,
    {
        if n <= 0 {
            self
        } else {
            let g = self.conceded(player, n - 1);
            if g.ships[n - 1].owner == player {
                g.with_ship(n - 1, ShipModel { destroyed: true, ..g.ships[n - 1] })
            } else {
                g
            }
        }
    }

    /// The lowest side that is not the player's, among those of the seats
    /// from `k` on, or the best so far. Seats are counted by a byte.
    pub open spec fn other_side(self, player: PlayerId, k: int, best: Option<u8>) -> Option<u8>
        decreases self.committed.len() as int % 256 - k,
    {
        if k >= self.committed.len() as int % 256 {
            best
        } else {
            let t = self.side(PlayerId(k as u32));
            if t != self.side(player) && (best is None || t < best->0) {
                self.other_side(player, k + 1, Some(t))
            } else {
                self.other_side(player, k + 1, best)
            }
        }
    }

    /// Concede: the player's ships leave the game. With more than two sides
    /// the others fight on. The second value is the winning side once the
    /// game is over.
    #[verifier::opaque]
    pub open spec fn resigned(self, player: PlayerId) -> (Game, Option<u8>) {
        let g = self.conceded(player, self.ships.len() as int);
        let g = if player.0 < g.committed.len() {
            Game { committed: g.committed.update(player.0 as int, true), ..g }
        } else {
            g
        };
        if g.mission is Some && g.objective() is Some {
            (Game { phase: Phase::GameOver, winner: g.objective(), ..g }, g.objective())
        } else {
            match g.standing() {
                Standing::Several => (g, None),
                Standing::One(side) => (
                    Game { phase: Phase::GameOver, winner: Some(side), ..g },
                    Some(side),
                ),
                Standing::Nobody => {
                    let side = match g.other_side(player, 0, None) {
                        Some(t) => t,
                        None => 0,
                    };
                    (Game { phase: Phase::GameOver, winner: Some(side), ..g }, Some(side))
                },
            }
        }
    }
}

impl Play {
    /// Start of the End phase: Lieutenant Colzet spends his lock to flip a
    /// facedown card on the locked ship.
    #[verifier::opaque]
    pub open spec fn colzet(self, content: Content, i: int) -> Play {
        let g = self.game;
        match g.ships[i].lock {
            None => self,
            Some(l) => match g.index(l) {
                None => self,
                Some(e) => if g.ships[i].destroyed || !g.can(
                    content,
                    i,
                    PilotAbility::SpendLockToFlipFacedownCrit,
                ) || g.ships[e as int].destroyed || g.ships[e as int].facedown(content) == 0 {
                    self
                } else {
                    let card = drawn(self.shows());
                    self.rolled().at(
                        g.with_ship(i, g.ships[i].unlocking(l)).saying(
                            Event::Colzet(i as usize, e, card),
                        ),
                    ).crit(content, e as int, card).0.shields_watched(
                        content,
                        e as int,
                        g.ships[e as int].shields,
                    )
                },
            },
        }
    }

    /// Lieutenant Colzet on each of the first `n` ships, in order.
    pub open spec fn colzet_by(self, content: Content, n: int) -> Play
        decreases n,
    {
        if n <= 0 {
            self
        } else {
            self.colzet_by(content, n - 1).colzet(content, n - 1)
        }
    }

    /// End of the End phase: R2-D2 (crew) brings a shield back on a
    /// shieldless ship, at the risk of a facedown card turning faceup.
    #[verifier::opaque]
    pub open spec fn r2d2(self, content: Content, i: int) -> Play {
        let s = self.game.ships[i];
        if s.destroyed || s.shields > 0 || !self.game.has(
            content,
            i,
            UpgradeEffect::CrewRecoverShieldEndPhase,
        ) {
            self
        } else {
            let p = self.rolled().at(self.game.with_ship(i, ShipModel { shields: 1, ..s }));
            if attack_face(self.shows()) == AttackFace::Hit && s.hull < s.full_hull(content) {
                let card = drawn(p.shows());
                p.rolled().saying(Event::R2D2Faceup(i as usize, card)).crit(content, i, card).0
            } else {
                p.saying(Event::R2D2(i as usize))
            }
        }
    }

    /// R2-D2 on each of the first `n` ships, in order.
    pub open spec fn r2d2_by(self, content: Content, n: int) -> Play
        decreases n,
    {
        if n <= 0 {
            self
        } else {
            self.r2d2_by(content, n - 1).r2d2(content, n - 1)
        }
    }

    /// The End phase and turn bookkeeping once combat is complete.
    #[verifier::opaque]
    pub open spec fn ended(self, content: Content, sight: Sight) -> Play {
        let n = self.game.ships.len() as int;
        let p = self.at(self.game.baffled(content, 0).felled(0)).colzet_by(content, n);
        let g = p.game.mara_by(content, sight, n).r5p9_by(content, sight, n);
        let g = g.r5_by(content, n).cleared_by(content, g.dead(n), n);
        let p = p.at(g).r2d2_by(content, n);
        p.at(p.game.mission_ended(content).new_round().judged_over())
    }
}

fn find_ship_card(crits: &Vec<CritEffect>) -> (place: Option<usize>)
    ensures
        place == ship_card(crits@, 0),
        place is Some ==> place->0 < crits@.len(),
{
    let mut k: usize = 0;
    while k < crits.len()
        invariant
            k <= crits.len(),
            ship_card(crits@, k as int) == ship_card(crits@, 0),
        decreases crits.len() - k,
    {
        if !crits[k].is_pilot_trait() {
            return Some(k);
        }
        k = k + 1;
    }
    None
}

fn tick(crits: &Vec<CritEffect>) -> (left: Vec<CritEffect>)
    ensures
        left@ == ticked(crits@),
{
    let mut left: Vec<CritEffect> = Vec::new();
    let mut k: usize = 0;
    assert(left@ =~= ticked(crits@.take(0)));
    while k < crits.len()
        invariant
            k <= crits.len(),
            left@ == ticked(crits@.take(k as int)),
        decreases crits.len() - k,
    {
        assert(crits@.take(k + 1).drop_last() =~= crits@.take(k as int));
        match crits[k] {
            CritEffect::WeaponsFailure { rounds } => {
                if rounds > 1 {
                    left.push(CritEffect::WeaponsFailure { rounds: rounds - 1 });
                }
            },
            other => {
                left.push(other);
            },
        }
        k = k + 1;
    }
    assert(crits@.take(k as int) =~= crits@);
    left
}

fn has_id(ids: &Vec<ShipId>, id: ShipId) -> (found: bool)
    ensures
        found == ids@.contains(id),
{
    let mut i: usize = 0;
    while i < ids.len()
        invariant
            i <= ids.len(),
            forall|k: int| 0 <= k < i ==> ids@[k] != id,
        decreases ids.len() - i,
    {
        if ids[i] == id {
            assert(ids@[i as int] == id);
            return true;
        }
        i = i + 1;
    }
    false
}

fn all_false(n: usize) -> (list: Vec<bool>)
    ensures
        list@ == Seq::new(n as nat, |k: int| false),
{
    let mut list: Vec<bool> = Vec::new();
    let mut i: usize = 0;
    while i < n
        invariant
            i <= n,
            list@ == Seq::new(i as nat, |k: int| false),
        decreases n - i,
    {
        list.push(false);
        i = i + 1;
        assert(list@ =~= Seq::new(i as nat, |k: int| false));
    }
    list
}

impl ShipState {
    fn release(&mut self, dead: &Vec<ShipId>)
        ensures
            final(self)@ == old(self)@.released(dead@),
    {
        let lock = self.lock;
        let lock2 = self.lock2;
        if let Some(l) = lock {
            if has_id(dead, l) {
                self.drop_lock(l);
            }
        }
        if let Some(l) = lock2 {
            if has_id(dead, l) {
                self.drop_lock(l);
            }
        }
    }

    /// Clear the ship for the next round.
    pub fn clear(&mut self, dead: &Vec<ShipId>, keep: bool)
        ensures
            final(self)@ == old(self)@.cleared(dead@, keep),
    {
        let crits = tick(&self.crits);
        self.release(dead);
        self.focus = 0;
        self.evade = if keep && self.evade > 0 {
            1
        } else {
            0
        };
        self.tractor = 0;
        self.used_round = Vec::new();
        self.card_uses = Vec::new();
        self.shield_lost_round = false;
        self.on_asteroid = false;
        self.card_actions = Vec::new();
        self.planned_action2 = None;
        self.crits = crits;
        assert(self.used_round@ =~= Seq::empty());
        assert(self.card_uses@ =~= Seq::empty());
        assert(self.card_actions@ =~= Seq::empty());
    }
}

impl GameState {
    fn fell(&mut self)
        ensures
            final(self)@ == old(self)@.felled(0),
            final(self)@.frame() == old(self)@.frame(),
    {
        let n: usize = self.ships.len();
        let mut i: usize = 0;
        while i < n
            invariant
                i <= n,
                n == self@.ships.len(),
                self@.frame() == old(self)@.frame(),
                self@.felled(i as int) == old(self)@.felled(0),
            decreases n - i,
        {
            if self.ships[i].hull == 0 && !self.ships[i].destroyed {
                self.ship_mut(i).destroyed = true;
                self.say(Event::FelsWrath(i));
            }
            i = i + 1;
        }
    }

    fn flip_like_colzet(&mut self, content: &Content, i: usize, dice: &mut Dice)
        requires
            i < old(self)@.ships.len(),
            old(self)@.known(*content),
        ensures
            (Play { game: final(self)@, dice: final(dice)@ }) == (Play {
                game: old(self)@,
                dice: old(dice)@,
            }).colzet(*content, i as int),
            final(self)@.frame() == old(self)@.frame(),
    {
        reveal(Play::colzet);
        let l = match self.ships[i].lock {
            None => return ,
            Some(l) => l,
        };
        let e: usize = match self.find_ship(l) {
            None => return ,
            Some(e) => e,
        };
        if self.ships[i].destroyed || !self.has_ability(
            content,
            i,
            PilotAbility::SpendLockToFlipFacedownCrit,
        ) || self.ships[e].destroyed || self.facedown_cards(content, e) == 0 {
            return;
        }
        let shields: u8 = self.ships[e].shields;
        self.ship_mut(i).drop_lock(l);
        let effect = draw(dice.roll());
        self.say(Event::Colzet(i, e, effect));
        self.apply_crit_effect(content, e, effect, dice);
        self.watch_shields(content, e, shields);
    }

    fn find_stressable(&self, sight: &Sight, i: usize) -> (places: Vec<usize>)
        requires
            i < self@.ships.len(),
        ensures
            places@ == picked(self@.mara_rule(*sight, i as int), 0, self@.ships.len() as int),
            forall|k: int| 0 <= k < places@.len() ==> #[trigger] places@[k] < self@.ships.len(),
    {
        let test = |e: usize| -> (yes: bool)
            requires
                e < self@.ships.len(),
            ensures
                yes == obeys(self@.mara_rule(*sight, i as int), e),
        {
            !self.allied(self.ships[e].owner, self.ships[i].owner) && !self.ships[e].destroyed
                && self.ships[e].stress == 0 && self.range_between(sight, i, e) == Some(1)
        };
        pick(self.ships.len(), test, Ghost(self@.mara_rule(*sight, i as int)))
    }

    fn stress_like_mara(&mut self, content: &Content, sight: &Sight, i: usize)
        requires
            i < old(self)@.ships.len(),
        ensures
            final(self)@ == old(self)@.mara(*content, *sight, i as int),
            final(self)@.frame() == old(self)@.frame(),
    {
        reveal(Game::mara);
        if self.ships[i].destroyed || !self.has_effect(
            content,
            i,
            UpgradeEffect::CrewStressEnemiesAtRange1EndOfCombat,
        ) {
            return;
        }
        let enemies = self.find_stressable(sight, i);
        let mut k: usize = 0;
        while k < enemies.len()
            invariant
                k <= enemies.len(),
                self@.frame() == old(self)@.frame(),
                self@.mara_stressing(*content, *sight, i as int, enemies@, k as int)
                    == old(self)@.mara_stressing(*content, *sight, i as int, enemies@, 0),
            decreases enemies.len() - k,
        {
            self.say(Event::MaraJade(i, enemies[k]));
            self.gain_stress(content, sight, enemies[k]);
            k = k + 1;
        }
    }

    fn recover_like_r5p9(&mut self, content: &Content, sight: &Sight, i: usize)
        requires
            i < old(self)@.ships.len(),
            old(self)@.known(*content),
        ensures
            final(self)@ == old(self)@.r5p9(*content, *sight, i as int),
            final(self)@.frame() == old(self)@.frame(),
    {
        reveal(Game::r5p9);
        assert(self@.frame().ships[i as int] == self@.ships[i as int].identity());
        if !self.ships[i].destroyed && self.ships[i].focus > 0 && self.ships[i].shields
            < self.max_shields(content, &self.ships[i]) && self.has_effect(
            content,
            i,
            UpgradeEffect::RecoverShieldSpendFocus,
        ) {
            let s = self.ship_mut(i);
            s.focus = s.focus - 1;
            s.shields = s.shields.saturating_add(1);
            self.say(Event::R5P9(i));
            self.friend_spent_focus(content, sight, i);
        }
    }

    fn repair_like_r5(&mut self, content: &Content, i: usize)
        requires
            i < old(self)@.ships.len(),
        ensures
            final(self)@ == old(self)@.r5(*content, i as int),
            final(self)@.frame() == old(self)@.frame(),
    {
        reveal(Game::r5);
        if self.ships[i].destroyed || !self.has_effect(
            content,
            i,
            UpgradeEffect::FlipShipCritFacedown,
        ) {
            return;
        }
        if let Some(k) = find_ship_card(&self.ships[i].crits) {
            let s = self.ship_mut(i);
            let card = s.crits.remove(k);
            self.say(Event::R5Astromech(i, card));
        }
    }

    fn list_dead(&self) -> (dead: Vec<ShipId>)
        ensures
            dead@ == self@.dead(self@.ships.len() as int),
    {
        let mut dead: Vec<ShipId> = Vec::new();
        let mut i: usize = 0;
        assert(dead@ =~= self@.dead(0));
        while i < self.ships.len()
            invariant
                i <= self.ships.len(),
                dead@ == self@.dead(i as int),
            decreases self.ships.len() - i,
        {
            if self.ships[i].destroyed {
                dead.push(self.ships[i].id);
            }
            i = i + 1;
        }
        dead
    }

    fn clear_ship(&mut self, content: &Content, dead: &Vec<ShipId>, i: usize)
        requires
            i < old(self)@.ships.len(),
        ensures
            final(self)@ == old(self)@.clearing(*content, dead@, i as int),
            final(self)@.frame() == old(self)@.frame(),
    {
        reveal(Game::clearing);
        // Comm Relay: one unused evade token survives the End phase. Rey
        // (crew) stores one unused focus token on her card.
        let keep = self.has_effect(content, i, UpgradeEffect::KeepOneEvade);
        let stores = self.has_effect(content, i, UpgradeEffect::CrewStoreFocusTokens)
            && self.ships[i].focus > 0 && !self.ships[i].destroyed;
        if !stores {
            self.ship_mut(i).clear(dead, keep);
            return;
        }
        self.say(Event::ReyStores(i));
        let s = self.ship_mut(i);
        s.clear(dead, keep);
        s.stored_focus = s.stored_focus.saturating_add(1);
    }

    fn recover_like_r2d2(&mut self, content: &Content, i: usize, dice: &mut Dice)
        requires
            i < old(self)@.ships.len(),
            old(self)@.known(*content),
        ensures
            (Play { game: final(self)@, dice: final(dice)@ }) == (Play {
                game: old(self)@,
                dice: old(dice)@,
            }).r2d2(*content, i as int),
            final(self)@.frame() == old(self)@.frame(),
    {
        reveal(Play::r2d2);
        assert(self@.frame().ships[i as int] == self@.ships[i as int].identity());
        if self.ships[i].destroyed || self.ships[i].shields > 0 || !self.has_effect(
            content,
            i,
            UpgradeEffect::CrewRecoverShieldEndPhase,
        ) {
            return;
        }
        let hurt = self.ships[i].hull < self.max_hull(content, &self.ships[i]);
        self.ship_mut(i).shields = 1;
        let face = AttackFace::from_d8(dice.roll());
        if face == AttackFace::Hit && hurt {
            let effect = draw(dice.roll());
            self.say(Event::R2D2Faceup(i, effect));
            self.apply_crit_effect(content, i, effect, dice);
            return;
        }
        self.say(Event::R2D2(i));
    }

    fn any_alive(&self) -> (place: Option<usize>)
        ensures
            place == first(self@.alive_rule(), 0, self@.ships.len() as int),
            place is Some ==> place->0 < self@.ships.len(),
    {
        let test = |k: usize| -> (yes: bool)
            requires
                k < self@.ships.len(),
            ensures
                yes == obeys(self@.alive_rule(), k),
        { !self.ships[k].destroyed };
        find(self.ships.len(), test, Ghost(self@.alive_rule()))
    }

    fn any_rival(&self, side: u8) -> (yes: bool)
        ensures
            yes == (first(self@.rival_rule(side), 0, self@.ships.len() as int) is Some),
    {
        let test = |k: usize| -> (yes: bool)
            requires
                k < self@.ships.len(),
            ensures
                yes == obeys(self@.rival_rule(side), k),
        { !self.ships[k].destroyed && self.team(self.ships[k].owner) != side };
        find(self.ships.len(), test, Ghost(self@.rival_rule(side))).is_some()
    }

    fn any_unplaced(&self) -> (yes: bool)
        ensures
            yes == (first(self@.unplaced_rule(), 0, self@.ships.len() as int) is Some),
    {
        let test = |k: usize| -> (yes: bool)
            requires
                k < self@.ships.len(),
            ensures
                yes == obeys(self@.unplaced_rule(), k),
        { !self.ships[k].destroyed && self.ships[k].pose.is_none() };
        find(self.ships.len(), test, Ghost(self@.unplaced_rule())).is_some()
    }

    /// Sides with at least one ship still in play.
    pub fn alive_teams(&self) -> (standing: Standing)
        ensures
            standing == self@.standing(),
    {
        reveal(Game::standing);
        match self.any_alive() {
            None => Standing::Nobody,
            Some(k) => {
                let side: u8 = self.team(self.ships[k].owner);
                if self.any_rival(side) {
                    Standing::Several
                } else {
                    Standing::One(side)
                }
            },
        }
    }

    /// One side left (or none): the game is over. With every last ship
    /// destroyed at once the side with initiative wins (core rules p.13).
    pub fn check_victory(&mut self)
        ensures
            final(self)@ == old(self)@.judged_over(),
            forall|content: Content|
                #[trigger] old(self)@.known(content) ==> final(self)@.known(content),
    {
        reveal(Game::judged_over);
        if self.mission.is_some() {
            // Missions are won by their objectives only (p.21); a
            // reinforcement waiting to be placed reopens Placement.
            match self.mission_winner() {
                Some(w) => {
                    self.phase = Phase::GameOver;
                    self.winner = Some(w);
                },
                None => {
                    if self.any_unplaced() {
                        self.phase = Phase::Placement;
                    } else {
                        self.phase = Phase::Planning;
                    }
                },
            }
            assert(self@.frame().ships == old(self)@.frame().ships);
            return;
        }
        match self.alive_teams() {
            Standing::Nobody => {
                let side: u8 = self.team(self.initiative);
                self.phase = Phase::GameOver;
                self.winner = Some(side);
            },
            Standing::One(side) => {
                self.phase = Phase::GameOver;
                self.winner = Some(side);
            },
            Standing::Several => {
                self.phase = Phase::Planning;
            },
        }
        assert(self@.frame().ships == old(self)@.frame().ships);
    }

    /// End phase and turn bookkeeping once combat is complete.
    pub fn finish_turn(&mut self, content: &Content, sight: &Sight, dice: &mut Dice)
        requires
            old(self)@.known(*content),
            old(self)@.turn < u32::MAX,
        ensures
            (Play { game: final(self)@, dice: final(dice)@ }) == (Play {
                game: old(self)@,
                dice: old(dice)@,
            }).ended(*content, *sight),
            final(self)@.known(*content),
    {
        reveal(Play::ended);
        let n: usize = self.ships.len();
        // End of the Combat phase: Electronic Baffle sheds ion tokens, and
        // Fel's Wrath finally goes down.
        self.baffle_ion(content);
        self.fell();
        let ghost p0 = Play { game: self@, dice: dice@ };
        let mut i: usize = 0;
        while i < n
            invariant
                i <= n,
                n == self@.ships.len(),
                self@.frame() == old(self)@.frame(),
                (Play { game: self@, dice: dice@ }) == p0.colzet_by(*content, i as int),
            decreases n - i,
        {
            self.flip_like_colzet(content, i, dice);
            i = i + 1;
        }
        let ghost g1 = self@;
        let mut i: usize = 0;
        while i < n
            invariant
                i <= n,
                n == self@.ships.len(),
                self@.frame() == old(self)@.frame(),
                self@ == g1.mara_by(*content, *sight, i as int),
            decreases n - i,
        {
            self.stress_like_mara(content, sight, i);
            i = i + 1;
        }
        let ghost g2 = self@;
        let mut i: usize = 0;
        while i < n
            invariant
                i <= n,
                n == self@.ships.len(),
                self@.frame() == old(self)@.frame(),
                self@ == g2.r5p9_by(*content, *sight, i as int),
            decreases n - i,
        {
            self.recover_like_r5p9(content, sight, i);
            i = i + 1;
        }
        // End phase: unspent focus and evade tokens are removed from all
        // ships; target locks persist, except locks on ships that are now
        // destroyed. Timed crits (Weapons Failure) tick down here.
        let dead = self.list_dead();
        let ghost g3 = self@;
        let mut i: usize = 0;
        while i < n
            invariant
                i <= n,
                n == self@.ships.len(),
                self@.frame() == old(self)@.frame(),
                self@ == g3.r5_by(*content, i as int),
            decreases n - i,
        {
            self.repair_like_r5(content, i);
            i = i + 1;
        }
        let ghost g4 = self@;
        let mut i: usize = 0;
        while i < n
            invariant
                i <= n,
                n == self@.ships.len(),
                self@.frame() == old(self)@.frame(),
                self@ == g4.cleared_by(*content, dead@, i as int),
            decreases n - i,
        {
            self.clear_ship(content, &dead, i);
            i = i + 1;
        }
        let ghost p5 = Play { game: self@, dice: dice@ };
        let mut i: usize = 0;
        while i < n
            invariant
                i <= n,
                n == self@.ships.len(),
                self@.frame() == old(self)@.frame(),
                (Play { game: self@, dice: dice@ }) == p5.r2d2_by(*content, i as int),
            decreases n - i,
        {
            self.recover_like_r2d2(content, i, dice);
            i = i + 1;
        }
        self.mission_end_phase(content);
        let ghost g6 = self@;
        self.age_cockpits();
        let seats: usize = self.committed.len();
        self.white_reds = all_false(seats);
        self.committed = all_false(seats);
        self.turn = self.turn + 1;
        assert(self@ == g6.new_round());
        assert(self@.frame().ships == g6.frame().ships);
        assert(self@.known(*content));
        self.check_victory();
    }

    /// Every Damaged Cockpit counts from now on.
    fn age_cockpits(&mut self)
        ensures
            final(self)@ == (Game {
                ships: Seq::new(
                    old(self)@.ships.len(),
                    |k: int| ShipModel { fresh_cockpits: 0, ..old(self)@.ships[k] },
                ),
                ..old(self)@
            }),
            final(self)@.frame() == old(self)@.frame(),
    {
        let ghost start = self@;
        let mut k: usize = 0;
        while k < self.ships.len()
            invariant
                k <= self@.ships.len(),
                self@.ships.len() == start.ships.len(),
                self@ == (Game { ships: self@.ships, ..start }),
                self@.frame() == start.frame(),
                forall|j: int|
                    0 <= j < k ==> #[trigger] self@.ships[j] == (ShipModel {
                        fresh_cockpits: 0,
                        ..start.ships[j]
                    }),
                forall|j: int| k <= j < start.ships.len() ==> #[trigger] self@.ships[j]
                    == start.ships[j],
            decreases self.ships.len() - k,
        {
            self.ship_mut(k).fresh_cockpits = 0;
            k = k + 1;
        }
        assert(self@.ships =~= Seq::new(
            start.ships.len(),
            |k: int| ShipModel { fresh_cockpits: 0, ..start.ships[k] },
        ));
    }

    fn concede(&mut self, player: PlayerId)
        ensures
            final(self)@ == old(self)@.conceded(player, old(self)@.ships.len() as int),
            final(self)@.frame() == old(self)@.frame(),
    {
        let n: usize = self.ships.len();
        let mut i: usize = 0;
        while i < n
            invariant
                i <= n,
                n == self@.ships.len(),
                self@.frame() == old(self)@.frame(),
                self@ == old(self)@.conceded(player, i as int),
            decreases n - i,
        {
            if self.ships[i].owner == player {
                self.ship_mut(i).destroyed = true;
            }
            i = i + 1;
        }
    }

    fn lowest_other_side(&self, player: PlayerId) -> (side: Option<u8>)
        ensures
            side == self@.other_side(player, 0, None),
    {
        let mut best: Option<u8> = None;
        let mine: u8 = self.team(player);
        let seats: usize = self.committed.len() % 256;
        let mut k: usize = 0;
        while k < seats
            invariant
                k <= seats < 256,
                seats == self@.committed.len() as int % 256,
                self@.other_side(player, k as int, best) == self@.other_side(player, 0, None),
            decreases seats - k,
        {
            let t: u8 = self.team(PlayerId(k as u32));
            if t != mine {
                match best {
                    None => {
                        best = Some(t);
                    },
                    Some(b) => {
                        if t < b {
                            best = Some(t);
                        }
                    },
                }
            }
            k = k + 1;
        }
        best
    }

    /// Concede: the player's ships leave the game. With more than two
    /// sides the others fight on; returns the winning side once the game
    /// is over (a resigning player's side may still win through a
    /// teammate).
    pub fn resign(&mut self, player: PlayerId) -> (winner: Option<u8>)
        ensures
            (final(self)@, winner) == old(self)@.resigned(player),
            forall|content: Content|
                #[trigger] old(self)@.known(content) ==> final(self)@.known(content),
    {
        reveal(Game::resigned);
        self.concede(player);
        let seat: usize = player.0 as usize;
        if seat < self.committed.len() {
            self.committed.set(seat, true);
        }
        assert(self@.frame().ships == old(self)@.frame().ships);
        let objective = self.mission_winner();
        let standing = self.alive_teams();
        if self.mission.is_some() && objective.is_some() {
            self.phase = Phase::GameOver;
            self.winner = objective;
            assert(self@.frame().ships == old(self)@.frame().ships);
            return self.winner;
        }
        match standing {
            Standing::Several => None,
            Standing::One(side) => {
                self.phase = Phase::GameOver;
                self.winner = Some(side);
                assert(self@.frame().ships == old(self)@.frame().ships);
                self.winner
            },
            Standing::Nobody => {
                let side: u8 = match self.lowest_other_side(player) {
                    Some(t) => t,
                    None => 0,
                };
                self.phase = Phase::GameOver;
                self.winner = Some(side);
                assert(self@.frame().ships == old(self)@.frame().ships);
                self.winner
            },
        }
    }
}

} // verus!
