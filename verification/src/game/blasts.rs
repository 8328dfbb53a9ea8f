//! Bombs, mines and torpedoes going off.

#![verifier::loop_isolation(false)]

use vstd::prelude::*;

use crate::action::ActionResult;
use crate::bombs::{BombHit, BombKind, BombToken, Detonation};
use crate::crit::{draw, drawn};
use crate::data::Content;
use crate::dice::{attack_face, AttackFace, Dice};
use crate::event::{Event, Why};
use crate::game::state::{Game, GameState, Play};
use crate::game::tokens::{point, DamagePoint};
use crate::geometry::Pose;
use crate::obstacle::Obstacle;
use crate::pick::{obeys, pick, picked};
use crate::ship::{sat, ShipId};
use crate::sight::Sight;
use crate::upgrade::UpgradeId;

verus! {

broadcast use crate::game::state::framing;

/// A Seismic Torpedo blast: the obstacle (removed afterwards) and the
/// detonation resolved on the ships around it.
#[derive(Debug, Clone, PartialEq, Eq)]
pub struct SeismicBlast {
    pub obstacle: u32,
    pub detonation: Detonation,
}

/// What is measured for a shot at an obstacle.
#[derive(Debug, Clone, PartialEq, Eq)]
pub struct Salvo {
    /// The obstacle is at Range 1-2.
    pub in_range: bool,
    /// Part of it is inside the forward firing arc.
    pub in_arc: bool,
    /// Which ships are at Range 1 of it, by their places in the list.
    pub within: Vec<bool>,
    /// Where the blast is shown.
    pub pose: Pose,
}

/// A ship that nothing has happened to yet.
pub open spec fn unhurt(ship: ShipId) -> BombHit {
    BombHit { ship, damage: 0, crits: 0, ion: 0, stress: 0, destroyed: false }
}

/// How many attack dice a token rolls against a ship.
pub open spec fn blast_dice(kind: BombKind) -> int {
    match kind {
        BombKind::ProximityMine => 3,
        BombKind::ClusterMine => 2,
        BombKind::SeismicTorpedo => 1,
        _ => 0,
    }
}

/// Is the place marked?
pub open spec fn marked(within: Seq<bool>, k: int) -> bool {
    0 <= k < within.len() && within[k]
}

/// The obstacles that are not the one with the id, in order.
pub open spec fn without_obstacle(s: Seq<Obstacle>, id: u32) -> Seq<Obstacle>
    decreases s.len(),
{
    if s.len() == 0 {
        s
    } else if s.last().id == id {
        without_obstacle(s.drop_last(), id)
    } else {
        without_obstacle(s.drop_last(), id).push(s.last())
    }
}

/// The first obstacle with the id.
pub open spec fn find_obstacle(s: Seq<Obstacle>, id: u32) -> Option<Obstacle>
    decreases s.len(),
{
    if s.len() == 0 {
        None
    } else if s[0].id == id {
        Some(s[0])
    } else {
        find_obstacle(s.skip(1), id)
    }
}

impl Game {
    pub open spec fn victim_rule(self, within: Seq<bool>) -> spec_fn(int) -> bool {
        |v: int| !self.ships[v].destroyed && self.ships[v].pose is Some && marked(within, v)
    }

    /// The living ships on the board at the marked places.
    pub open spec fn victims(self, within: Seq<bool>) -> Seq<usize> {
        picked(self.victim_rule(within), 0, self.ships.len() as int)
    }
}

impl Play {
    /// A drawn card that is told and applied.
    pub open spec fn critical(self, content: Content, i: int) -> Play {
        let card = drawn(self.shows());
        self.rolled().saying(Event::Critical(i as usize, card)).crit(content, i, card).0
    }

    /// One faceup Damage card: a hull point plus a drawn critical.
    pub open spec fn faceup(self, content: Content, i: int) -> Play {
        let p = self.at(self.game.hulled(i));
        if self.game.ships[i].hull > 0 && !p.game.ships[i].destroyed {
            p.critical(content, i)
        } else {
            p
        }
    }

    /// Every hit and critical hit of `n` dice suffered by ship `i`, shields
    /// first; added up in `hit`.
    pub open spec fn mined(self, content: Content, i: int, n: int, hit: BombHit) -> (Play, BombHit)
        decreases n,
    {
        if n <= 0 || self.game.ships[i].destroyed {
            (self, hit)
        } else {
            let p = self.rolled();
            match attack_face(self.shows()) {
                AttackFace::Hit => p.at(p.game.damaged(i)).mined(
                    content,
                    i,
                    n - 1,
                    BombHit { damage: sat(hit.damage + 1), ..hit },
                ),
                AttackFace::Crit => {
                    let q = p.at(p.game.damaged(i));
                    if point(p.game.ships[i]) == DamagePoint::Hull {
                        let r = if !q.game.ships[i].destroyed {
                            q.critical(content, i)
                        } else {
                            q
                        };
                        r.mined(
                            content,
                            i,
                            n - 1,
                            BombHit {
                                damage: sat(hit.damage + 1),
                                crits: sat(hit.crits + 1),
                                ..hit
                            },
                        )
                    } else {
                        q.mined(
                            content,
                            i,
                            n - 1,
                            BombHit { damage: sat(hit.damage + 1), ..hit },
                        )
                    }
                },
                _ => p.mined(content, i, n - 1, hit),
            }
        }
    }

    /// What a token does to ship `i` before any dice are rolled.
    pub open spec fn struck(self, content: Content, sight: Sight, i: int, kind: BombKind) -> (
        Play,
        BombHit,
    ) {
        let hit = unhurt(self.game.ships[i].id);
        match kind {
            BombKind::Proton => (self.faceup(content, i), BombHit { crits: 1, ..hit }),
            BombKind::Seismic => (self.at(self.game.damaged(i)), BombHit { damage: 1, ..hit }),
            BombKind::Ion => (
                self.at(self.game.with_ship(i, self.game.ships[i].with_ion(2))),
                BombHit { ion: 2, ..hit },
            ),
            BombKind::Thermal => {
                let g = self.game.damaged(i);
                if !g.ships[i].destroyed {
                    (
                        self.at(g.stressed(content, sight, i)),
                        BombHit { damage: 1, stress: 1, ..hit },
                    )
                } else {
                    (self.at(g), BombHit { damage: 1, ..hit })
                }
            },
            BombKind::ConnerNet => {
                let g = self.game.damaged(i);
                (
                    self.at(g.with_ship(i, g.ships[i].with_ion(2))),
                    BombHit { damage: 1, ion: 2, ..hit },
                )
            },
            _ => (self, hit),
        }
    }

    /// A token goes off against ship `i`.
    pub open spec fn blasted(self, content: Content, sight: Sight, i: int, kind: BombKind) -> (
        Play,
        BombHit,
    ) {
        let (p, hit) = self.struck(content, sight, i, kind);
        let (p, hit) = p.mined(content, i, blast_dice(kind), hit);
        let hit = BombHit { destroyed: p.game.ships[i].destroyed, ..hit };
        let p = if p.game.ships[i].shields < self.game.ships[i].shields && !hit.destroyed {
            p.at(p.game.shield_lost(content, i))
        } else {
            p
        };
        (p.saying(Event::Caught(i as usize, kind, hit)), hit)
    }

    /// A token goes off against the victims from `k` on; `hits` so far.
    pub open spec fn blasting(
        self,
        content: Content,
        sight: Sight,
        kind: BombKind,
        victims: Seq<usize>,
        k: int,
        hits: Seq<BombHit>,
    ) -> (Play, Seq<BombHit>)
        decreases victims.len() - k,
    {
        if k >= victims.len() {
            (self, hits)
        } else {
            let (p, hit) = self.blasted(content, sight, victims[k] as int, kind);
            p.blasting(content, sight, kind, victims, k + 1, hits.push(hit))
        }
    }

    /// A token goes off against the victims, one after another.
    #[verifier::opaque]
    pub open spec fn detonated(
        self,
        content: Content,
        sight: Sight,
        kind: BombKind,
        victims: Seq<usize>,
    ) -> (Play, Seq<BombHit>) {
        self.saying(Event::Detonates(kind)).blasting(
            content,
            sight,
            kind,
            victims,
            0,
            Seq::empty(),
        )
    }

    /// The torpedo leaves the tube: an ordnance token spent, or the card
    /// discarded.
    pub open spec fn torpedo_away(self, content: Content, i: int, card: UpgradeId, at: Obstacle) -> Play {
        if self.game.ships[i].ordnance.contains(card) {
            self.at(self.game.ordnance_spent(i, card))
        } else {
            self.at(self.game.discarding(content, i, card, Why::FiredAt(at.kind)))
        }
    }

    /// Seismic Torpedo at an obstacle at Range 1-2 inside the arc: each ship
    /// at Range 1 of it rolls one attack die and suffers the damage; then the
    /// obstacle is removed. None where the shot fails.
    pub open spec fn seismic(
        self,
        content: Content,
        sight: Sight,
        salvo: Salvo,
        i: int,
        card: UpgradeId,
        obstacle: u32,
    ) -> (Play, Option<Seq<BombHit>>) {
        let at = find_obstacle(self.game.obstacles, obstacle);
        if !self.game.card_actions(content, sight, i).contains(card) {
            (self, None)
        } else if at is None {
            (self.saying(Event::SeismicGone(i as usize)), None)
        } else if !salvo.in_range || !salvo.in_arc {
            (self.saying(Event::SeismicOutOfReach(i as usize, at->0.kind)), None)
        } else {
            let p = self.torpedo_away(content, i, card, at->0);
            let (p, hits) = p.detonated(
                content,
                sight,
                BombKind::SeismicTorpedo,
                p.game.victims(salvo.within@),
            );
            let g = Game {
                obstacles: without_obstacle(p.game.obstacles, obstacle),
                ..p.game
            };
            (p.at(g.saying(Event::BreaksUp(at->0.kind))), Some(hits))
        }
    }
}

/// Is the place marked?
pub fn is_marked(within: &Vec<bool>, k: usize) -> (yes: bool)
    ensures
        yes == marked(within@, k as int),
{
    k < within.len() && within[k]
}

impl GameState {
    /// The living ships on the board at the marked places.
    pub fn find_victims(&self, within: &Vec<bool>) -> (victims: Vec<usize>)
        ensures
            victims@ == self@.victims(within@),
            forall|k: int| 0 <= k < victims@.len() ==> #[trigger] victims@[k] < self@.ships.len(),
    {
        let test = |v: usize| -> (yes: bool)
            requires
                v < self@.ships.len(),
            ensures
                yes == obeys(self@.victim_rule(within@), v),
        { !self.ships[v].destroyed && self.ships[v].pose.is_some() && is_marked(within, v) };
        pick(self.ships.len(), test, Ghost(self@.victim_rule(within@)))
    }

    /// Draw a card for a critical that reached the hull of ship `i`.
    pub fn draw_critical(&mut self, content: &Content, i: usize, dice: &mut Dice)
        requires
            i < old(self)@.ships.len(),
            old(self)@.known(*content),
        ensures
            (Play { game: final(self)@, dice: final(dice)@ }) == (Play {
                game: old(self)@,
                dice: old(dice)@,
            }).critical(*content, i as int),
            final(self)@.frame() == old(self)@.frame(),
    {
        let effect = draw(dice.roll());
        self.say(Event::Critical(i, effect));
        self.apply_crit_effect(content, i, effect, dice);
    }

    /// Deal one faceup Damage card: a hull point plus a drawn critical.
    pub fn faceup_card(&mut self, content: &Content, i: usize, dice: &mut Dice)
        requires
            i < old(self)@.ships.len(),
            old(self)@.known(*content),
        ensures
            (Play { game: final(self)@, dice: final(dice)@ }) == (Play {
                game: old(self)@,
                dice: old(dice)@,
            }).faceup(*content, i as int),
            final(self)@.frame() == old(self)@.frame(),
    {
        let taken = self.hull_point(i);
        if taken == DamagePoint::Hull && !self.ships[i].destroyed {
            self.draw_critical(content, i, dice);
        }
    }

    fn strike(
        &mut self,
        content: &Content,
        sight: &Sight,
        i: usize,
        kind: BombKind,
        dice: &mut Dice,
    ) -> (hit: BombHit)
        requires
            i < old(self)@.ships.len(),
            old(self)@.known(*content),
        ensures
            (Play { game: final(self)@, dice: final(dice)@ }, hit) == (Play {
                game: old(self)@,
                dice: old(dice)@,
            }).struck(*content, *sight, i as int, kind),
            final(self)@.frame() == old(self)@.frame(),
    {
        let mut hit = BombHit {
            ship: self.ships[i].id,
            damage: 0,
            crits: 0,
            ion: 0,
            stress: 0,
            destroyed: false,
        };
        match kind {
            BombKind::Proton => {
                self.faceup_card(content, i, dice);
                hit.crits = 1;
            },
            BombKind::Seismic => {
                self.damage_point(i);
                hit.damage = 1;
            },
            BombKind::Ion => {
                self.add_ion(i, 2);
                hit.ion = 2;
            },
            BombKind::Thermal => {
                self.damage_point(i);
                hit.damage = 1;
                if !self.ships[i].destroyed {
                    self.gain_stress(content, sight, i);
                    hit.stress = 1;
                }
            },
            BombKind::ConnerNet => {
                self.damage_point(i);
                self.add_ion(i, 2);
                hit.damage = 1;
                hit.ion = 2;
            },
            _ => {},
        }
        hit
    }

    fn mine(&mut self, content: &Content, i: usize, n: u8, start: BombHit, dice: &mut Dice) -> (hit:
        BombHit)
        requires
            i < old(self)@.ships.len(),
            old(self)@.known(*content),
        ensures
            (Play { game: final(self)@, dice: final(dice)@ }, hit) == (Play {
                game: old(self)@,
                dice: old(dice)@,
            }).mined(*content, i as int, n as int, start),
            final(self)@.frame() == old(self)@.frame(),
    {
        let ghost before = Play { game: self@, dice: dice@ };
        let mut hit = start;
        let mut k: u8 = 0;
        while k < n && !self.ships[i].destroyed
            invariant
                k <= n,
                self@.frame() == old(self)@.frame(),
                (Play { game: self@, dice: dice@ }).mined(*content, i as int, n - k, hit)
                    == before.mined(*content, i as int, n as int, start),
            decreases n - k,
        {
            match AttackFace::from_d8(dice.roll()) {
                AttackFace::Hit => {
                    self.damage_point(i);
                    hit.damage = hit.damage.saturating_add(1);
                },
                AttackFace::Crit => {
                    hit.damage = hit.damage.saturating_add(1);
                    let taken = self.damage_point(i);
                    if taken == DamagePoint::Hull {
                        hit.crits = hit.crits.saturating_add(1);
                        if !self.ships[i].destroyed {
                            self.draw_critical(content, i, dice);
                        }
                    }
                },
                _ => {},
            }
            k = k + 1;
        }
        hit
    }

    fn blast(
        &mut self,
        content: &Content,
        sight: &Sight,
        i: usize,
        kind: BombKind,
        dice: &mut Dice,
    ) -> (hit: BombHit)
        requires
            i < old(self)@.ships.len(),
            old(self)@.known(*content),
        ensures
            (Play { game: final(self)@, dice: final(dice)@ }, hit) == (Play {
                game: old(self)@,
                dice: old(dice)@,
            }).blasted(*content, *sight, i as int, kind),
            final(self)@.frame() == old(self)@.frame(),
    {
        let shields_before: u8 = self.ships[i].shields;
        let struck = self.strike(content, sight, i, kind, dice);
        let n: u8 = match kind {
            BombKind::ProximityMine => 3,
            BombKind::ClusterMine => 2,
            BombKind::SeismicTorpedo => 1,
            _ => 0,
        };
        // Mines: suffer every hit and critical hit rolled (shields
        // absorb criticals like any other damage).
        let mut hit = self.mine(content, i, n, struck, dice);
        hit.destroyed = self.ships[i].destroyed;
        if self.ships[i].shields < shields_before && !hit.destroyed {
            self.after_shield_loss(content, i);
        }
        self.say(Event::Caught(i, kind, hit));
        hit
    }

    /// A token goes off against the ships at the places `victims`.
    pub fn detonate(
        &mut self,
        content: &Content,
        sight: &Sight,
        token: BombToken,
        victims: &Vec<usize>,
        dice: &mut Dice,
    ) -> (detonation: Detonation)
        requires
            old(self)@.known(*content),
            forall|k: int|
                0 <= k < victims@.len() ==> #[trigger] victims@[k] < old(self)@.ships.len(),
        ensures
            (Play { game: final(self)@, dice: final(dice)@ }, detonation.hits@) == (Play {
                game: old(self)@,
                dice: old(dice)@,
            }).detonated(*content, *sight, token.kind, victims@),
            detonation.token == token,
            final(self)@.frame() == old(self)@.frame(),
    {
        reveal(Play::detonated);
        self.say(Event::Detonates(token.kind));
        let ghost told = Play { game: self@, dice: dice@ };
        let mut hits: Vec<BombHit> = Vec::new();
        assert(hits@ =~= Seq::empty());
        let mut k: usize = 0;
        while k < victims.len()
            invariant
                k <= victims.len(),
                self@.frame() == old(self)@.frame(),
                (Play { game: self@, dice: dice@ }).blasting(
                    *content,
                    *sight,
                    token.kind,
                    victims@,
                    k as int,
                    hits@,
                ) == told.blasting(*content, *sight, token.kind, victims@, 0, Seq::empty()),
            decreases victims.len() - k,
        {
            let hit = self.blast(content, sight, victims[k], token.kind, dice);
            hits.push(hit);
            k = k + 1;
        }
        Detonation { token, hits }
    }

    /// The obstacle with the id.
    pub fn obstacle_with(&self, id: u32) -> (at: Option<Obstacle>)
        ensures
            at == find_obstacle(self@.obstacles, id),
    {
        let mut k: usize = 0;
        assert(self.obstacles@.skip(0) =~= self.obstacles@);
        while k < self.obstacles.len()
            invariant
                k <= self.obstacles.len(),
                find_obstacle(self.obstacles@, id) == find_obstacle(
                    self.obstacles@.skip(k as int),
                    id,
                ),
            decreases self.obstacles.len() - k,
        {
            assert(self.obstacles@.skip(k as int).skip(1) =~= self.obstacles@.skip(k + 1));
            if self.obstacles[k].id == id {
                return Some(self.obstacles[k]);
            }
            k = k + 1;
        }
        None
    }

    fn remove_obstacle(&mut self, id: u32)
        ensures
            final(self)@ == (Game {
                obstacles: without_obstacle(old(self)@.obstacles, id),
                ..old(self)@
            }),
            final(self)@.frame() == old(self)@.frame(),
    {
        let mut kept: Vec<Obstacle> = Vec::new();
        let mut k: usize = 0;
        while k < self.obstacles.len()
            invariant
                k <= self.obstacles.len(),
                *self == *old(self),
                kept@ == without_obstacle(self.obstacles@.take(k as int), id),
            decreases self.obstacles.len() - k,
        {
            assert(self.obstacles@.take(k + 1).drop_last() =~= self.obstacles@.take(k as int));
            if self.obstacles[k].id != id {
                kept.push(self.obstacles[k]);
            }
            k = k + 1;
        }
        assert(self.obstacles@.take(k as int) =~= self.obstacles@);
        self.obstacles = kept;
    }

    /// Seismic Torpedo: discard the card to blast obstacle `obstacle`,
    /// which must be at Range 1-2 and inside the primary firing arc after
    /// moving. Each ship at Range 1 of it (this one included) rolls one
    /// attack die and suffers the damage; then the obstacle is removed.
    pub fn fire_seismic_torpedo(
        &mut self,
        content: &Content,
        sight: &Sight,
        salvo: &Salvo,
        i: usize,
        card: UpgradeId,
        obstacle: u32,
        dice: &mut Dice,
    ) -> (fired: (ActionResult, Option<SeismicBlast>))
        requires
            i < old(self)@.ships.len(),
            old(self)@.known(*content),
        ensures
            ({
                let (p, hits) = (Play { game: old(self)@, dice: old(dice)@ }).seismic(
                    *content,
                    *sight,
                    *salvo,
                    i as int,
                    card,
                    obstacle,
                );
                &&& (Play { game: final(self)@, dice: final(dice)@ }) == p
                &&& (fired.0 == ActionResult::Performed) == (hits is Some)
                &&& (fired.0 == ActionResult::Failed) == (hits is None)
                &&& (fired.1 is Some) == (hits is Some)
                &&& hits is Some ==> fired.1->0.obstacle == obstacle
                    && fired.1->0.detonation.hits@ == hits->0 && fired.1->0.detonation.token == (
                BombToken {
                    id: obstacle,
                    kind: BombKind::SeismicTorpedo,
                    card,
                    pose: salvo.pose,
                    owner: old(self)@.ships[i as int].owner,
                })
            }),
            final(self)@.frame() == old(self)@.frame(),
    {
        if !self.may_card_act(content, sight, i, card) {
            return (ActionResult::Failed, None);
        }
        let target = match self.obstacle_with(obstacle) {
            None => {
                self.say(Event::SeismicGone(i));
                return (ActionResult::Failed, None);
            },
            Some(o) => o,
        };
        if !salvo.in_range || !salvo.in_arc {
            self.say(Event::SeismicOutOfReach(i, target.kind));
            return (ActionResult::Failed, None);
        }
        let owner = self.ships[i].owner;
        if !self.spend_ordnance(i, card) {
            self.discard_card(content, i, card, Why::FiredAt(target.kind));
        }
        let victims = self.find_victims(&salvo.within);
        // The blast is recorded as a detonation centred on the obstacle;
        // the token id doubles as the obstacle id for the client.
        let token = BombToken {
            id: obstacle,
            kind: BombKind::SeismicTorpedo,
            card,
            pose: salvo.pose,
            owner,
        };
        let detonation = self.detonate(content, sight, token, &victims, dice);
        self.remove_obstacle(obstacle);
        self.say(Event::BreaksUp(target.kind));
        (ActionResult::Performed, Some(SeismicBlast { obstacle, detonation }))
    }
}

} // verus!
