//! Performing an action: tokens, locks, repositions and card actions.

#![verifier::loop_isolation(false)]

use vstd::prelude::*;

use crate::action::{ActionKind, ActionResult, BoostDir, PlannedAction};
use crate::bombs::{drop_poses, dropped_at, BombKind, BombToken, DropSpots};
use crate::data::Content;
use crate::dice::{attack_face, defense_face, AttackFace, DefenseFace, Dice};
use crate::crit::{draw, drawn};
use crate::event::{Event, Locker};
use crate::game::cards::has_icon;
use crate::game::state::{Game, GameState, Play};
use crate::geometry::Pose;
use crate::pick::{find, first, obeys};
use crate::pilot::PilotAbility;
use crate::ship::{drop_card, has_card, sat, ShipId, ShipModel};
use crate::sight::Sight;
use crate::upgrade::{UpgradeEffect, UpgradeId};

verus! {

broadcast use crate::game::state::framing;

/// Where a boost or roll would put a ship.
#[derive(Debug, Clone, Copy, PartialEq, Eq, Structural)]
pub struct Landing {
    pub pose: Pose,
    /// The base would leave the board or overlap another ship.
    pub blocked: bool,
    /// The base would overlap an obstacle token.
    pub on_obstacle: bool,
}

/// What an acting ship could do with the table around it.
#[derive(Debug, Clone, PartialEq, Eq)]
pub struct Moves {
    /// Where the planned boost or roll would end; None for other actions.
    pub planned: Option<Landing>,
    /// The lines between the ships once it has ended there.
    pub after: Sight,
    /// Where a straight boost would end.
    pub straight: Option<Landing>,
    /// Where dropped tokens would land.
    pub drop: DropSpots,
}

/// The `k`-th token number after one; the numbers start over after the last.
pub open spec fn numbered(id: u32, k: int) -> u32 {
    ((id + k) % 0x1_0000_0000) as u32
}

impl Game {
    /// Nothing stops ship `i` there. Collision Detector: repositions may end
    /// on obstacles.
    pub open spec fn open_to(self, content: Content, i: int, spot: Option<Landing>) -> bool {
        spot is Some && !spot->0.blocked && (!spot->0.on_obstacle || self.has(
            content,
            i,
            UpgradeEffect::SystemOverlapObstaclesOnReposition,
        ))
    }

    /// Ship `i` stands elsewhere.
    pub open spec fn moved(self, i: int, pose: Pose) -> Game {
        self.with_ship(i, ShipModel { pose: Some(pose), ..self.ships[i] })
    }

    pub open spec fn id_rule(self, id: ShipId) -> spec_fn(int) -> bool {
        |k: int| self.ships[k].id == id
    }

    /// Where the ship with the id stands in the list.
    pub open spec fn index(self, id: ShipId) -> Option<usize> {
        first(self.id_rule(id), 0, self.ships.len() as int)
    }

    /// The shuttle, if it is in play at Range 1 of ship `i`.
    pub open spec fn shuttle_near(self, sight: Sight, i: int) -> Option<usize> {
        match self.mission {
            Some(m) => match m.shuttle {
                Some(id) => match self.index(id) {
                    Some(k) => if !self.ships[k as int].destroyed && self.range(sight, i, k as int)
                        == Some(1u8) {
                        Some(k)
                    } else {
                        None
                    },
                    None => None,
                },
                None => None,
            },
            None => None,
        }
    }

    /// Political Escort: an evade token on the senator's shuttle.
    pub open spec fn protecting(self, sight: Sight, i: int) -> (Game, ActionResult) {
        match self.shuttle_near(sight, i) {
            Some(k) => {
                let g = self.with_ship(k as int, self.ships[k as int].with_evade());
                (
                    g.saying(Event::Protect(i as usize, g.ships[k as int].evade)),
                    ActionResult::Performed,
                )
            },
            None => (self.saying(Event::ProtectFailed(i as usize)), ActionResult::Failed),
        }
    }

    pub open spec fn jan_rule(self, content: Content, sight: Sight, i: int) -> spec_fn(
        int,
    ) -> bool {
        |j: int|
            j != i && !self.ships[j].destroyed && self.same_side(j, i) && self.range(
                sight,
                i,
                j,
            ) is Some && self.ships[j].using(
                content,
                UpgradeEffect::CrewEvadeInsteadOfFocusForFriendly,
            ) is Some && !self.ships[j].used_round.contains(
                self.ships[j].using(
                    content,
                    UpgradeEffect::CrewEvadeInsteadOfFocusForFriendly,
                )->0,
            )
    }

    /// Jan Ors (crew, switched on, once per round) on a friend at Range 1-3:
    /// a focus token of ship `i` becomes an evade token.
    #[verifier::opaque]
    pub open spec fn jan_swapped(self, content: Content, sight: Sight, i: int) -> Game {
        match first(self.jan_rule(content, sight, i), 0, self.ships.len() as int) {
            Some(j) => {
                let g = self.marking(
                    j as int,
                    self.ships[j as int].using(
                        content,
                        UpgradeEffect::CrewEvadeInsteadOfFocusForFriendly,
                    )->0,
                );
                g.with_ship(i, g.ships[i].less_focus().with_evade()).saying(
                    Event::JanOrs(j, i as usize),
                )
            },
            None => self,
        }
    }

    /// A focus action: a focus token, or an evade token with Jan Ors on a
    /// friend at Range 1-3; Recon Specialist adds a second focus token.
    pub open spec fn focusing(self, content: Content, sight: Sight, i: int) -> Game {
        let g = self.with_ship(i, self.ships[i].with_focus()).jan_swapped(content, sight, i);
        if g.has(content, i, UpgradeEffect::CrewExtraFocusOnFocusAction) {
            g.with_ship(i, g.ships[i].with_focus()).saying(Event::ReconSpecialist(i as usize))
        } else {
            g
        }
    }

    /// An evade action; Comm Relay caps the ship at one token.
    pub open spec fn evading(self, content: Content, i: int) -> Game {
        if self.ships[i].evade == 0 || !self.has(content, i, UpgradeEffect::KeepOneEvade) {
            self.with_ship(i, self.ships[i].with_evade())
        } else {
            self
        }
    }

    /// Expert Handling after a barrel roll: a stress token when the bar
    /// has no barrel roll icon, then one enemy target lock on this ship
    /// is removed.
    pub open spec fn expert_rolled(self, content: Content, sight: Sight, i: int) -> Game {
        if self.ships[i].effects(content, UpgradeEffect::BarrelRollActionDiscardLock) == 0 {
            self
        } else {
            let g = if !self.ships[i].bar(content).contains(ActionKind::BarrelRoll) {
                self.saying(Event::ExpertStress(i as usize)).stressed(content, sight, i)
            } else {
                self
            };
            let me = g.ships[i].id;
            match first(g.lock_holder_rule(i, me), 0, g.ships.len() as int) {
                Some(e) => g.with_ship(e as int, g.ships[e as int].unlocking(me)).saying(
                    Event::ExpertLock(i as usize, e),
                ),
                None => g,
            }
        }
    }

    /// A barrel roll, if nothing is in the way.
    pub open spec fn rolling(self, content: Content, moves: Moves, i: int, bank: bool) -> (
        Game,
        ActionResult,
    ) {
        if self.open_to(content, i, moves.planned) {
            let g = self.moved(i, moves.planned->0.pose);
            let g = if bank {
                g.saying(Event::BankRoll(i as usize)).stressed(content, moves.after, i)
            } else {
                g
            };
            (
                g.expert_rolled(content, moves.after, i).repositioned(content, moves.after, i),
                ActionResult::Performed,
            )
        } else {
            (self, ActionResult::Failed)
        }
    }

    /// A turn flown with Daredevil: without Blue Ace's free template.
    pub open spec fn daredevils(self, content: Content, i: int, dir: BoostDir) -> bool {
        (dir == BoostDir::TurnLeft || dir == BoostDir::TurnRight) && !self.can(
            content,
            i,
            PilotAbility::BoostWithTurnTemplate,
        ) && self.has(content, i, UpgradeEffect::RedTurn1Action)
    }

    /// A boost, if nothing is in the way. A Daredevil turn is red.
    pub open spec fn boosting(self, content: Content, moves: Moves, i: int, dir: BoostDir) -> (
        Game,
        ActionResult,
    ) {
        if self.open_to(content, i, moves.planned) {
            let g = self.moved(i, moves.planned->0.pose).repositioned(content, moves.after, i);
            let g = if self.daredevils(content, i, dir) {
                g.saying(Event::DaredevilTurn(i as usize)).stressed(content, moves.after, i)
            } else {
                g
            };
            (g, ActionResult::Performed)
        } else {
            (self, ActionResult::Failed)
        }
    }

    pub open spec fn kagi_near_rule(self, content: Content, sight: Sight, i: int) -> spec_fn(
        int,
    ) -> bool {
        |k: int|
            !self.same_side(k, i) && !self.ships[k].destroyed && self.can(
                content,
                k,
                PilotAbility::EnemyLocksMustTargetMe,
            ) && self.ships[k].pose is Some && sight.at(i, k).band is Some
    }

    /// Whom a lock meant for the target goes to: Captain Kagi in lock range
    /// must be locked instead of anyone else.
    pub open spec fn lock_target(
        self,
        content: Content,
        sight: Sight,
        i: int,
        target: ShipId,
    ) -> ShipId {
        match first(self.kagi_near_rule(content, sight, i), 0, self.ships.len() as int) {
            Some(k) => self.ships[k as int].id,
            None => target,
        }
    }

    /// Ship `i` can lock the ship with the id: within Range 1-3; ST-321
    /// anywhere; Long-Range Scanners only beyond Range 2.
    pub open spec fn can_reach(self, content: Content, sight: Sight, i: int, id: ShipId) -> bool {
        match self.index(id) {
            Some(t) => {
                let band = sight.at(i, t as int).band;
                !self.ships[t as int].destroyed && self.ships[t as int].pose is Some && (self.has(
                    content,
                    i,
                    UpgradeEffect::TitleLockAnywhere,
                ) || if self.has(content, i, UpgradeEffect::LocksOnlyAtRange3) {
                    band is None || band->0 > 2
                } else {
                    band is Some
                })
            },
            None => false,
        }
    }

    /// Dutch Vander: the first of the places from `k` on that can take a lock
    /// takes it.
    pub open spec fn dutch_from(
        self,
        content: Content,
        sight: Sight,
        places: Seq<usize>,
        k: int,
    ) -> Game
        decreases places.len() - k,
    {
        if k >= places.len() {
            self
        } else if self.lock_choice(content, sight, places[k] as int, 3) is Some {
            self.auto_locking(content, sight, places[k] as int, 3, Locker::DutchVander)
        } else {
            self.dutch_from(content, sight, places, k + 1)
        }
    }

    /// A target lock action.
    pub open spec fn locking_on(
        self,
        content: Content,
        sight: Sight,
        i: int,
        wanted: ShipId,
    ) -> (Game, ActionResult) {
        let target = self.lock_target(content, sight, i, wanted);
        let g = if target != wanted {
            self.saying(Event::KagiDrawsLock(i as usize))
        } else {
            self
        };
        if g.can_reach(content, sight, i, target) {
            let two = g.two_locks(content, i);
            let g = g.with_ship(i, g.ships[i].locking(target, two));
            let g = if two {
                g.second_locking(sight, i, target)
            } else {
                g
            };
            let g = if g.can(content, i, PilotAbility::FriendlyLockAfterLock) {
                g.dutch_from(content, sight, g.near(sight, i, 2), 0)
            } else {
                g
            };
            (g, ActionResult::Performed)
        } else {
            (g.saying(Event::LockFailed(i as usize, target)), ActionResult::Failed)
        }
    }

    /// The bomb kind of the card if ship `i` carries it and it is a bomb.
    pub open spec fn bomb(self, content: Content, i: int, card: UpgradeId) -> Option<BombKind> {
        if !self.ships[i].upgrades.contains(card) {
            None
        } else {
            match content.does(card) {
                Some(e) => BombKind::of(e),
                None => None,
            }
        }
    }

    /// The tokens that a drop puts down, numbered on from `id`.
    pub open spec fn tokens(
        self,
        i: int,
        card: UpgradeId,
        kind: BombKind,
        spots: DropSpots,
    ) -> Seq<BombToken> {
        let places = dropped_at(kind, spots);
        Seq::new(
            places.len(),
            |k: int|
                BombToken {
                    id: numbered(self.next_bomb_id, k),
                    kind,
                    card,
                    pose: places[k],
                    owner: self.ships[i].owner,
                },
        )
    }

    /// Ship `i` drops the card's tokens: an ordnance token is spent, or the
    /// card discarded.
    pub open spec fn dropping(
        self,
        i: int,
        card: UpgradeId,
        kind: BombKind,
        spots: DropSpots,
    ) -> Game {
        let g = if self.ships[i].ordnance.contains(card) {
            self.ordnance_spent(i, card)
        } else {
            self.with_ship(i, self.ships[i].without(card))
        };
        let new = self.tokens(i, card, kind, spots);
        Game {
            bombs: self.bombs + new,
            next_bomb_id: numbered(self.next_bomb_id, new.len() as int),
            ..g.saying(Event::Drops(i as usize, card))
        }
    }

    /// Fleet Officer: the first two of the places from `k` on gain a focus
    /// token.
    pub open spec fn officer(self, i: int, places: Seq<usize>, k: int) -> Game
        decreases places.len() - k,
    {
        if k >= places.len() || k >= 2 {
            self
        } else {
            let f = places[k] as int;
            self.with_ship(f, self.ships[f].with_focus()).saying(
                Event::FleetOfficer(i as usize, places[k]),
            ).officer(i, places, k + 1)
        }
    }

    /// Fleet Officer: up to two friendly ships within Range 1-2 (this one
    /// first) gain a focus; then stress.
    #[verifier::opaque]
    pub open spec fn commanding(self, content: Content, sight: Sight, i: int) -> Game {
        self.officer(i, seq![i as usize] + self.near(sight, i, 2), 0).stressed(content, sight, i)
    }

    pub open spec fn lower_rule(self, content: Content, i: int, friends: Seq<usize>) -> spec_fn(
        int,
    ) -> bool {
        |k: int| self.ships[friends[k] as int].skill(content) < self.ships[i].skill(content)
    }

    /// Squad Leader: a lower-skill friend at Range 1-2 takes a free focus
    /// action.
    #[verifier::opaque]
    pub open spec fn leading(self, content: Content, sight: Sight, i: int) -> (Game, ActionResult) {
        let friends = self.near(sight, i, 2);
        match first(self.lower_rule(content, i, friends), 0, friends.len() as int) {
            Some(k) => {
                let f = friends[k as int];
                if self.ships[f as int].free_to_act(content) {
                    (
                        self.with_ship(f as int, self.ships[f as int].with_focus()).saying(
                            Event::SquadLeader(i as usize, f),
                        ),
                        ActionResult::Performed,
                    )
                } else {
                    (self.saying(Event::SquadLeaderFailed(i as usize)), ActionResult::Failed)
                }
            },
            None => (self.saying(Event::SquadLeaderFailed(i as usize)), ActionResult::Failed),
        }
    }

    pub open spec fn r7t1_rule(self, sight: Sight, i: int) -> spec_fn(int) -> bool {
        |e: int|
            !self.same_side(e, i) && !self.ships[e].destroyed && self.range(sight, i, e) is Some
                && 1 <= self.range(sight, i, e)->0 <= 2
    }

    /// R7-T1: a lock on an enemy at Range 1-2 whose arc this ship sits in,
    /// then a free straight boost.
    #[verifier::opaque]
    pub open spec fn r7t1(self, content: Content, sight: Sight, moves: Moves, i: int) -> (
        Game,
        ActionResult,
    ) {
        match first(self.r7t1_rule(sight, i), 0, self.ships.len() as int) {
            Some(e) => {
                let g = if self.in_arc(sight, e as int, i) {
                    self.locking(content, i, e as int).saying(Event::R7T1Locks(i as usize, e))
                } else {
                    self
                };
                let g = if g.open_to(content, i, moves.straight) {
                    g.moved(i, moves.straight->0.pose).saying(Event::R7T1Boosts(i as usize))
                } else {
                    g
                };
                (g, ActionResult::Performed)
            },
            None => (self.saying(Event::R7T1Failed(i as usize)), ActionResult::Failed),
        }
    }

    /// A card's action.
    pub open spec fn card_acting(
        self,
        content: Content,
        sight: Sight,
        moves: Moves,
        i: int,
        card: UpgradeId,
    ) -> (Game, ActionResult) {
        if !self.card_actions(content, sight, i).contains(card) {
            (self, ActionResult::Failed)
        } else {
            let g = self.with_ship(
                i,
                ShipModel { card_actions: self.ships[i].card_actions.push(card), ..self.ships[i] },
            ).saying(Event::CardAction(i as usize, card));
            match content.does(card) {
                Some(UpgradeEffect::RerollUpTo3ForFocusAnd2Stress) => (
                    g.with_ship(i, g.ships[i].with_focus()).stressed(content, sight, i).stressed(
                        content,
                        sight,
                        i,
                    ),
                    ActionResult::Performed,
                ),
                Some(UpgradeEffect::CrewFleetOfficerAction) => (
                    g.commanding(content, sight, i),
                    ActionResult::Performed,
                ),
                Some(UpgradeEffect::FreeActionForLowerSkillShip) => g.leading(content, sight, i),
                Some(UpgradeEffect::LockAndBoostAction) => g.r7t1(content, sight, moves, i),
                _ => (g, ActionResult::Performed),
            }
        }
    }

    /// Ship `i` performs the action where it stands: what changes, what
    /// became of it, and the tokens it dropped.
    #[verifier::opaque]
    pub open spec fn performing(
        self,
        content: Content,
        sight: Sight,
        moves: Moves,
        i: int,
        planned: PlannedAction,
    ) -> (Game, ActionResult, Seq<BombToken>) {
        match planned {
            PlannedAction::Pass => (self, ActionResult::Performed, Seq::empty()),
            PlannedAction::Protect => {
                let (g, r) = self.protecting(sight, i);
                (g, r, Seq::empty())
            },
            PlannedAction::Focus => if self.carnor(content, sight, i) {
                (self.saying(Event::CarnorForbids(i as usize)), ActionResult::Failed, Seq::empty())
            } else {
                (self.focusing(content, sight, i), ActionResult::Performed, Seq::empty())
            },
            PlannedAction::Evade => if self.carnor(content, sight, i) {
                (self.saying(Event::CarnorForbids(i as usize)), ActionResult::Failed, Seq::empty())
            } else {
                (self.evading(content, i), ActionResult::Performed, Seq::empty())
            },
            PlannedAction::BarrelRoll(_) | PlannedAction::BarrelRollFar(_) => {
                let (g, r) = self.rolling(content, moves, i, false);
                (g, r, Seq::empty())
            },
            PlannedAction::BarrelRollBank(_, _) => {
                let (g, r) = self.rolling(content, moves, i, true);
                (g, r, Seq::empty())
            },
            PlannedAction::Boost(dir) => {
                let (g, r) = self.boosting(content, moves, i, dir);
                (g, r, Seq::empty())
            },
            PlannedAction::TargetLock(target) => {
                let (g, r) = self.locking_on(content, sight, i, target);
                (g, r, Seq::empty())
            },
            PlannedAction::DropMine(card) => match self.bomb(content, i, card) {
                Some(kind) => if kind.mine() {
                    (
                        self.dropping(i, card, kind, moves.drop),
                        ActionResult::Performed,
                        self.tokens(i, card, kind, moves.drop),
                    )
                } else {
                    (self, ActionResult::Failed, Seq::empty())
                },
                None => (self, ActionResult::Failed, Seq::empty()),
            },
            PlannedAction::CardAction(card) => {
                let (g, r) = self.card_acting(content, sight, moves, i, card);
                (g, r, Seq::empty())
            },
            PlannedAction::CardActionAt(_, _) => (self, ActionResult::Failed, Seq::empty()),
        }
    }

    pub open spec fn saboteur_rule(self, content: Content, sight: Sight, i: int) -> spec_fn(
        int,
    ) -> bool {
        |e: int|
            !self.same_side(e, i) && !self.ships[e].destroyed && self.ships[e].facedown(content)
                > 0 && self.range(sight, i, e) == Some(1u8)
    }
}

/// How many of two defense faces show the one wanted.
pub open spec fn face_pair(x: DefenseFace, y: DefenseFace, want: DefenseFace) -> u8 {
    if x == want && y == want {
        2
    } else if x == want || y == want {
        1
    } else {
        0
    }
}

impl Play {
    /// Lando Calrissian: two defense dice, a token per focus or evade result.
    pub open spec fn lando(self, i: int) -> Play {
        let x = defense_face(self.shows());
        let y = defense_face(self.rolled().shows());
        let f = face_pair(x, y, DefenseFace::Focus);
        let e = face_pair(x, y, DefenseFace::Evade);
        let s = self.game.ships[i];
        self.rolled().rolled().at(
            self.game.with_ship(
                i,
                ShipModel { focus: sat(s.focus + f), evade: sat(s.evade + e), ..s },
            ).saying(Event::Lando(i as usize, f, e)),
        )
    }

    /// Saboteur: an enemy at Range 1 with facedown cards; a hit or
    /// critical turns one faceup.
    pub open spec fn sabotage(self, content: Content, sight: Sight, i: int) -> (
        Play,
        ActionResult,
    ) {
        let g = self.game;
        match first(g.saboteur_rule(content, sight, i), 0, g.ships.len() as int) {
            Some(e) => {
                let face = attack_face(self.shows());
                let p = self.rolled();
                if face == AttackFace::Hit || face == AttackFace::Crit {
                    let card = drawn(p.shows());
                    (
                        p.rolled().saying(Event::Saboteur(i as usize, e, card)).crit(
                            content,
                            e as int,
                            card,
                        ).0.shields_watched(content, e as int, g.ships[e as int].shields),
                        ActionResult::Performed,
                    )
                } else {
                    (p.saying(Event::SaboteurMisses(i as usize)), ActionResult::Performed)
                }
            },
            None => (self.saying(Event::SaboteurFailed(i as usize)), ActionResult::Failed),
        }
    }

    /// R5-D8: a defense die; evade or focus repairs a facedown card.
    pub open spec fn repair(self, content: Content, i: int) -> (Play, ActionResult) {
        let s = self.game.ships[i];
        if s.facedown(content) == 0 {
            (self.saying(Event::R5D8Failed(i as usize)), ActionResult::Failed)
        } else if defense_face(self.shows()) == DefenseFace::Blank {
            (self.rolled().saying(Event::R5D8Misses(i as usize)), ActionResult::Performed)
        } else {
            (
                self.rolled().at(
                    self.game.with_ship(i, ShipModel { hull: sat(s.hull + 1), ..s }),
                ).saying(Event::R5D8(i as usize)),
                ActionResult::Performed,
            )
        }
    }

    /// Card actions that roll dice: Lando Calrissian, Saboteur, R5-D8.
    pub open spec fn dice_action(
        self,
        content: Content,
        sight: Sight,
        i: int,
        card: UpgradeId,
    ) -> (Play, ActionResult) {
        if !self.game.card_actions(content, sight, i).contains(card) {
            (self, ActionResult::Failed)
        } else {
            match content.does(card) {
                Some(UpgradeEffect::CrewRollDefenseForTokensAction) => (
                    self.lando(i),
                    ActionResult::Performed,
                ),
                Some(UpgradeEffect::CrewSaboteurAction) => self.sabotage(content, sight, i),
                Some(UpgradeEffect::DiscardFacedownOnDefenseDie) => self.repair(content, i),
                _ => (self, ActionResult::Failed),
            }
        }
    }
}

/// The card's action rolls dice.
pub open spec fn rolls_dice(content: Content, card: UpgradeId) -> bool {
    content.does(card) == Some(UpgradeEffect::CrewRollDefenseForTokensAction) || content.does(card)
        == Some(UpgradeEffect::CrewSaboteurAction) || content.does(card) == Some(
        UpgradeEffect::DiscardFacedownOnDefenseDie,
    )
}

impl GameState {
    /// Where the ship with the id stands in the list.
    pub fn find_ship(&self, id: ShipId) -> (place: Option<usize>)
        ensures
            place == self@.index(id),
            place is Some ==> place->0 < self@.ships.len(),
    {
        let test = |k: usize| -> (yes: bool)
            requires
                k < self@.ships.len(),
            ensures
                yes == obeys(self@.id_rule(id), k),
        { self.ships[k].id == id };
        find(self.ships.len(), test, Ghost(self@.id_rule(id)))
    }

    fn is_open(&self, content: &Content, i: usize, spot: Option<Landing>) -> (yes: bool)
        requires
            i < self@.ships.len(),
        ensures
            yes == self@.open_to(*content, i as int, spot),
    {
        match spot {
            Some(landing) => !landing.blocked && (!landing.on_obstacle || self.has_effect(
                content,
                i,
                UpgradeEffect::SystemOverlapObstaclesOnReposition,
            )),
            None => false,
        }
    }

    fn find_shuttle(&self, sight: &Sight, i: usize) -> (place: Option<usize>)
        requires
            i < self@.ships.len(),
        ensures
            place == self@.shuttle_near(*sight, i as int),
            place is Some ==> place->0 < self@.ships.len(),
    {
        if let Some(m) = &self.mission {
            if let Some(id) = m.shuttle {
                if let Some(k) = self.find_ship(id) {
                    if !self.ships[k].destroyed && self.range_between(sight, i, k) == Some(1) {
                        return Some(k);
                    }
                }
            }
        }
        None
    }

    fn act_protect(&mut self, sight: &Sight, i: usize) -> (result: ActionResult)
        requires
            i < old(self)@.ships.len(),
        ensures
            (final(self)@, result) == old(self)@.protecting(*sight, i as int),
            final(self)@.frame() == old(self)@.frame(),
    {
        match self.find_shuttle(sight, i) {
            Some(k) => {
                self.add_evade(k);
                let held: u8 = self.ships[k].evade;
                self.say(Event::Protect(i, held));
                ActionResult::Performed
            },
            None => {
                self.say(Event::ProtectFailed(i));
                ActionResult::Failed
            },
        }
    }

    fn find_jan(&self, content: &Content, sight: &Sight, i: usize) -> (place: Option<usize>)
        requires
            i < self@.ships.len(),
        ensures
            place == first(
                self@.jan_rule(*content, *sight, i as int),
                0,
                self@.ships.len() as int,
            ),
            place is Some ==> place->0 < self@.ships.len() && self@.ships[place->0 as int].using(
                *content,
                UpgradeEffect::CrewEvadeInsteadOfFocusForFriendly,
            ) is Some,
    {
        let test = |j: usize| -> (yes: bool)
            requires
                j < self@.ships.len(),
            ensures
                yes == obeys(self@.jan_rule(*content, *sight, i as int), j),
        {
            j != i && !self.ships[j].destroyed && self.allied(
                self.ships[j].owner,
                self.ships[i].owner,
            ) && self.range_between(sight, i, j).is_some() && match self.using(
                content,
                j,
                UpgradeEffect::CrewEvadeInsteadOfFocusForFriendly,
            ) {
                Some(card) => !has_card(&self.ships[j].used_round, card),
                None => false,
            }
        };
        find(self.ships.len(), test, Ghost(self@.jan_rule(*content, *sight, i as int)))
    }

    /// Jan Ors (crew, switched on, once per round) on a friend
    /// at Range 1-3: an evade token instead of focus.
    fn swap_for_jan(&mut self, content: &Content, sight: &Sight, i: usize)
        requires
            i < old(self)@.ships.len(),
        ensures
            final(self)@ == old(self)@.jan_swapped(*content, *sight, i as int),
            final(self)@.frame() == old(self)@.frame(),
    {
        reveal(Game::jan_swapped);
        if let Some(j) = self.find_jan(content, sight, i) {
            if let Some(card) = self.using(
                content,
                j,
                UpgradeEffect::CrewEvadeInsteadOfFocusForFriendly,
            ) {
                self.ship_mut(j).used_round.push(card);
                let s = self.ship_mut(i);
                s.focus = s.focus.saturating_sub(1);
                s.evade = s.evade.saturating_add(1);
                self.say(Event::JanOrs(j, i));
            }
        }
    }

    /// A focus action.
    pub fn act_focus(&mut self, content: &Content, sight: &Sight, i: usize)
        requires
            i < old(self)@.ships.len(),
        ensures
            final(self)@ == old(self)@.focusing(*content, *sight, i as int),
            final(self)@.frame() == old(self)@.frame(),
    {
        self.add_focus(i);
        self.swap_for_jan(content, sight, i);
        // Recon Specialist: a second focus token.
        if self.has_effect(content, i, UpgradeEffect::CrewExtraFocusOnFocusAction) {
            self.add_focus(i);
            self.say(Event::ReconSpecialist(i));
        }
    }

    fn act_evade(&mut self, content: &Content, i: usize)
        requires
            i < old(self)@.ships.len(),
        ensures
            final(self)@ == old(self)@.evading(*content, i as int),
            final(self)@.frame() == old(self)@.frame(),
    {
        // Comm Relay caps the ship at one evade token.
        if self.ships[i].evade == 0 || !self.has_effect(content, i, UpgradeEffect::KeepOneEvade) {
            self.add_evade(i);
        }
    }

    fn find_lock_holder(&self, i: usize, target: ShipId) -> (holder: Option<usize>)
        requires
            i < self@.ships.len(),
        ensures
            holder == first(
                self@.lock_holder_rule(i as int, target),
                0,
                self@.ships.len() as int,
            ),
            holder is Some ==> holder->0 < self@.ships.len(),
    {
        let test = |e: usize| -> (yes: bool)
            requires
                e < self@.ships.len(),
            ensures
                yes == obeys(self@.lock_holder_rule(i as int, target), e),
        {
            !self.allied(self.ships[e].owner, self.ships[i].owner) && self.ships[e].locks_on(target)
        };
        find(self.ships.len(), test, Ghost(self@.lock_holder_rule(i as int, target)))
    }

    /// Expert Handling after a barrel roll: a stress token when the bar
    /// has no barrel roll icon, then one enemy target lock on this ship
    /// is removed.
    pub fn after_expert_roll(&mut self, content: &Content, sight: &Sight, i: usize)
        requires
            i < old(self)@.ships.len(),
            old(self)@.known(*content),
        ensures
            final(self)@ == old(self)@.expert_rolled(*content, *sight, i as int),
            final(self)@.frame() == old(self)@.frame(),
    {
        assert(self@.frame().ships[i as int] == self@.ships[i as int].identity());
        if self.count_effect(content, &self.ships[i], UpgradeEffect::BarrelRollActionDiscardLock)
            == 0 {
            return;
        }
        let bar = self.action_bar(content, &self.ships[i]);
        if !has_icon(&bar, ActionKind::BarrelRoll) {
            self.say(Event::ExpertStress(i));
            self.gain_stress(content, sight, i);
        }
        let me = self.ships[i].id;
        if let Some(e) = self.find_lock_holder(i, me) {
            self.ship_mut(e).drop_lock(me);
            self.say(Event::ExpertLock(i, e));
        }
    }

    fn act_roll(&mut self, content: &Content, moves: &Moves, i: usize, bank: bool) -> (result:
        ActionResult)
        requires
            i < old(self)@.ships.len(),
            old(self)@.known(*content),
        ensures
            (final(self)@, result) == old(self)@.rolling(*content, *moves, i as int, bank),
            final(self)@.frame() == old(self)@.frame(),
    {
        if !self.is_open(content, i, moves.planned) {
            return ActionResult::Failed;
        }
        if let Some(landing) = moves.planned {
            self.ship_mut(i).pose = Some(landing.pose);
        }
        if bank {
            self.say(Event::BankRoll(i));
            self.gain_stress(content, &moves.after, i);
        }
        self.after_expert_roll(content, &moves.after, i);
        self.after_reposition_cards(content, &moves.after, i);
        ActionResult::Performed
    }

    fn act_boost(&mut self, content: &Content, moves: &Moves, i: usize, dir: BoostDir) -> (result:
        ActionResult)
        requires
            i < old(self)@.ships.len(),
        ensures
            (final(self)@, result) == old(self)@.boosting(*content, *moves, i as int, dir),
            final(self)@.frame() == old(self)@.frame(),
    {
        // Not a maneuver: no stress interaction. Blocked if it
        // would overlap a ship or leave the board. Daredevil (a
        // turn without Blue Ace's free template): the turn is red
        // — a stress token.
        let daredevil = (dir == BoostDir::TurnLeft || dir == BoostDir::TurnRight)
            && !self.has_ability(content, i, PilotAbility::BoostWithTurnTemplate)
            && self.has_effect(content, i, UpgradeEffect::RedTurn1Action);
        if !self.is_open(content, i, moves.planned) {
            return ActionResult::Failed;
        }
        if let Some(landing) = moves.planned {
            self.ship_mut(i).pose = Some(landing.pose);
        }
        self.after_reposition_cards(content, &moves.after, i);
        if daredevil {
            self.say(Event::DaredevilTurn(i));
            self.gain_stress(content, &moves.after, i);
        }
        ActionResult::Performed
    }

    fn pick_lock_target(&self, content: &Content, sight: &Sight, i: usize, target: ShipId) -> (id:
        ShipId)
        requires
            i < self@.ships.len(),
        ensures
            id == self@.lock_target(*content, *sight, i as int, target),
    {
        let test = |k: usize| -> (yes: bool)
            requires
                k < self@.ships.len(),
            ensures
                yes == obeys(self@.kagi_near_rule(*content, *sight, i as int), k),
        {
            !self.allied(self.ships[k].owner, self.ships[i].owner) && !self.ships[k].destroyed
                && self.has_ability(content, k, PilotAbility::EnemyLocksMustTargetMe)
                && self.ships[k].pose.is_some() && sight.line(i, k).band.is_some()
        };
        match find(
            self.ships.len(),
            test,
            Ghost(self@.kagi_near_rule(*content, *sight, i as int)),
        ) {
            Some(k) => self.ships[k].id,
            None => target,
        }
    }

    fn reaches(&self, content: &Content, sight: &Sight, i: usize, id: ShipId) -> (yes: bool)
        requires
            i < self@.ships.len(),
        ensures
            yes == self@.can_reach(*content, *sight, i as int, id),
    {
        match self.find_ship(id) {
            None => false,
            Some(t) => {
                if self.ships[t].destroyed || self.ships[t].pose.is_none() {
                    return false;
                }
                // ST-321 locks anywhere; Long-Range Scanners only beyond
                // Range 2 (and at any distance past it).
                if self.has_effect(content, i, UpgradeEffect::TitleLockAnywhere) {
                    return true;
                }
                let band = sight.line(i, t).band;
                if self.has_effect(content, i, UpgradeEffect::LocksOnlyAtRange3) {
                    match band {
                        Some(r) => r > 2,
                        None => true,
                    }
                } else {
                    band.is_some()
                }
            },
        }
    }

    fn act_lock(&mut self, content: &Content, sight: &Sight, i: usize, wanted: ShipId) -> (result:
        ActionResult)
        requires
            i < old(self)@.ships.len(),
        ensures
            (final(self)@, result) == old(self)@.locking_on(*content, *sight, i as int, wanted),
            final(self)@.frame() == old(self)@.frame(),
    {
        // Captain Kagi: an enemy in lock range must be locked
        // instead of anyone else.
        let target = self.pick_lock_target(content, sight, i, wanted);
        if target != wanted {
            self.say(Event::KagiDrawsLock(i));
        }
        if !self.reaches(content, sight, i, target) {
            self.say(Event::LockFailed(i, target));
            return ActionResult::Failed;
        }
        let two = self.two_locks(content, i);
        self.ship_mut(i).take_lock(target, two);
        if two {
            self.weapons_engineer_second_lock(sight, i, target);
        }
        // Dutch Vander: a friend at Range 1-2 locks too.
        if self.has_ability(content, i, PilotAbility::FriendlyLockAfterLock) {
            let friends = self.friends_within(sight, i, 2);
            let ghost start = self@;
            let mut k: usize = 0;
            let mut taken = false;
            while k < friends.len() && !taken
                invariant
                    k <= friends.len(),
                    self@.frame() == start.frame(),
                    !taken ==> self@ == start && start.dutch_from(
                        *content,
                        *sight,
                        friends@,
                        k as int,
                    ) == start.dutch_from(*content, *sight, friends@, 0),
                    taken ==> self@ == start.dutch_from(*content, *sight, friends@, 0),
                decreases friends.len() - k,
            {
                taken = self.auto_lock_within(content, sight, friends[k], 3, Locker::DutchVander);
                k = k + 1;
            }
        }
        ActionResult::Performed
    }

    /// The bomb kind of `card` if ship `i` carries it and it is a bomb.
    pub fn bomb_kind(&self, content: &Content, i: usize, card: UpgradeId) -> (kind: Option<
        BombKind,
    >)
        requires
            i < self@.ships.len(),
        ensures
            kind == self@.bomb(*content, i as int, card),
    {
        if !has_card(&self.ships[i].upgrades, card) {
            return None;
        }
        match content.effect(card) {
            Some(e) => BombKind::from_effect(e),
            None => None,
        }
    }

    /// Discard `card` from ship `i` and place its token(s) one template
    /// behind the ship's current pose.
    pub fn drop_bomb(&mut self, i: usize, card: UpgradeId, kind: BombKind, spots: DropSpots) -> (
    tokens: Vec<BombToken>)
        requires
            i < old(self)@.ships.len(),
        ensures
            final(self)@ == old(self)@.dropping(i as int, card, kind, spots),
            tokens@ == old(self)@.tokens(i as int, card, kind, spots),
            final(self)@.frame() == old(self)@.frame(),
    {
        let owner = self.ships[i].owner;
        if !self.spend_ordnance(i, card) {
            drop_card(&mut self.ship_mut(i).upgrades, card);
        }
        self.say(Event::Drops(i, card));
        let ghost told = self@;
        let ghost want = old(self)@.tokens(i as int, card, kind, spots);
        let places = drop_poses(kind, spots);
        let base: u32 = self.next_bomb_id;
        let mut tokens: Vec<BombToken> = Vec::new();
        let mut k: usize = 0;
        while k < places.len()
            invariant
                k <= places.len(),
                places@.len() <= 3,
                tokens@ == want.take(k as int),
                self@ == (Game {
                    bombs: old(self)@.bombs + want.take(k as int),
                    next_bomb_id: numbered(base, k as int),
                    ..told
                }),
            decreases places.len() - k,
        {
            let token = BombToken {
                id: base.wrapping_add(k as u32),
                kind,
                card,
                pose: places[k],
                owner,
            };
            assert(want.take(k + 1) =~= want.take(k as int).push(want[k as int]));
            tokens.push(token);
            self.bombs.push(token);
            self.next_bomb_id = base.wrapping_add(k as u32 + 1);
            k = k + 1;
        }
        assert(want.take(k as int) =~= want);
        tokens
    }

    fn find_lower(&self, content: &Content, i: usize, friends: &Vec<usize>) -> (place: Option<
        usize,
    >)
        requires
            i < self@.ships.len(),
            self@.known(*content),
            forall|k: int| 0 <= k < friends@.len() ==> #[trigger] friends@[k] < self@.ships.len(),
        ensures
            place == first(
                self@.lower_rule(*content, i as int, friends@),
                0,
                friends@.len() as int,
            ),
            place is Some ==> place->0 < friends@.len(),
    {
        assert(self@.frame().ships[i as int] == self@.ships[i as int].identity());
        let test = |k: usize| -> (yes: bool)
            requires
                k < friends@.len(),
            ensures
                yes == obeys(self@.lower_rule(*content, i as int, friends@), k),
        {
            assert(self@.frame().ships[friends@[k as int] as int]
                == self@.ships[friends@[k as int] as int].identity());
            self.effective_skill(content, &self.ships[friends[k]]) < self.effective_skill(
                content,
                &self.ships[i],
            )
        };
        find(friends.len(), test, Ghost(self@.lower_rule(*content, i as int, friends@)))
    }

    fn act_lead(&mut self, content: &Content, sight: &Sight, i: usize) -> (result: ActionResult)
        requires
            i < old(self)@.ships.len(),
            old(self)@.known(*content),
        ensures
            (final(self)@, result) == old(self)@.leading(*content, *sight, i as int),
            final(self)@.frame() == old(self)@.frame(),
    {
        reveal(Game::leading);
        let friends = self.friends_within(sight, i, 2);
        if let Some(k) = self.find_lower(content, i, &friends) {
            let f: usize = friends[k];
            if self.may_act_freely(content, f) {
                self.add_focus(f);
                self.say(Event::SquadLeader(i, f));
                return ActionResult::Performed;
            }
        }
        self.say(Event::SquadLeaderFailed(i));
        ActionResult::Failed
    }

    fn find_r7t1(&self, sight: &Sight, i: usize) -> (place: Option<usize>)
        requires
            i < self@.ships.len(),
        ensures
            place == first(self@.r7t1_rule(*sight, i as int), 0, self@.ships.len() as int),
            place is Some ==> place->0 < self@.ships.len(),
    {
        let test = |e: usize| -> (yes: bool)
            requires
                e < self@.ships.len(),
            ensures
                yes == obeys(self@.r7t1_rule(*sight, i as int), e),
        {
            !self.allied(self.ships[e].owner, self.ships[i].owner) && !self.ships[e].destroyed
                && match self.range_between(sight, i, e) {
                Some(r) => 1 <= r && r <= 2,
                None => false,
            }
        };
        find(self.ships.len(), test, Ghost(self@.r7t1_rule(*sight, i as int)))
    }

    fn act_r7t1(&mut self, content: &Content, sight: &Sight, moves: &Moves, i: usize) -> (result:
        ActionResult)
        requires
            i < old(self)@.ships.len(),
        ensures
            (final(self)@, result) == old(self)@.r7t1(*content, *sight, *moves, i as int),
            final(self)@.frame() == old(self)@.frame(),
    {
        reveal(Game::r7t1);
        let e: usize = match self.find_r7t1(sight, i) {
            None => {
                self.say(Event::R7T1Failed(i));
                return ActionResult::Failed;
            },
            Some(e) => e,
        };
        if self.ship_in_front_arc(sight, e, i) {
            let two = self.two_locks(content, i);
            let id = self.ships[e].id;
            self.ship_mut(i).take_lock(id, two);
            self.say(Event::R7T1Locks(i, e));
        }
        if self.is_open(content, i, moves.straight) {
            if let Some(landing) = moves.straight {
                self.ship_mut(i).pose = Some(landing.pose);
                self.say(Event::R7T1Boosts(i));
            }
        }
        ActionResult::Performed
    }

    fn act_officer(&mut self, content: &Content, sight: &Sight, i: usize)
        requires
            i < old(self)@.ships.len(),
        ensures
            final(self)@ == old(self)@.commanding(*content, *sight, i as int),
            final(self)@.frame() == old(self)@.frame(),
    {
        reveal(Game::commanding);
        let mut picks: Vec<usize> = Vec::new();
        picks.push(i);
        let mut others = self.friends_within(sight, i, 2);
        let ghost near = others@;
        picks.append(&mut others);
        assert(picks@ =~= seq![i] + near);
        let mut k: usize = 0;
        while k < picks.len() && k < 2
            invariant
                k <= picks.len(),
                k <= 2,
                self@.frame() == old(self)@.frame(),
                self@.officer(i as int, picks@, k as int) == old(self)@.officer(
                    i as int,
                    picks@,
                    0,
                ),
            decreases picks.len() - k,
        {
            let f: usize = picks[k];
            assert(f < self@.ships.len()) by {
                if k > 0 {
                    assert(picks@[k as int] == near[k - 1]);
                }
            }
            self.add_focus(f);
            self.say(Event::FleetOfficer(i, f));
            k = k + 1;
        }
        self.gain_stress(content, sight, i);
    }

    /// May ship `i` take an action with the card?
    pub fn may_card_act(&self, content: &Content, sight: &Sight, i: usize, card: UpgradeId) -> (
    yes: bool)
        requires
            i < self@.ships.len(),
        ensures
            yes == self@.card_actions(*content, *sight, i as int).contains(card),
    {
        let extras = self.action_extras(content, sight, i);
        assert(extras@.card_actions == self@.card_actions(*content, *sight, i as int));
        has_card(&extras.card_actions, card)
    }

    fn act_card(
        &mut self,
        content: &Content,
        sight: &Sight,
        moves: &Moves,
        i: usize,
        card: UpgradeId,
    ) -> (result: ActionResult)
        requires
            i < old(self)@.ships.len(),
            old(self)@.known(*content),
        ensures
            (final(self)@, result) == old(self)@.card_acting(
                *content,
                *sight,
                *moves,
                i as int,
                card,
            ),
            final(self)@.frame() == old(self)@.frame(),
    {
        if !self.may_card_act(content, sight, i, card) {
            return ActionResult::Failed;
        }
        self.ship_mut(i).card_actions.push(card);
        self.say(Event::CardAction(i, card));
        match content.effect(card) {
            // Rage: a focus token now and two stress tokens.
            Some(UpgradeEffect::RerollUpTo3ForFocusAnd2Stress) => {
                self.add_focus(i);
                self.gain_stress(content, sight, i);
                self.gain_stress(content, sight, i);
                ActionResult::Performed
            },
            // Fleet Officer: up to two friendly ships within
            // Range 1-2 (this one first) gain a focus; then stress.
            Some(UpgradeEffect::CrewFleetOfficerAction) => {
                self.act_officer(content, sight, i);
                ActionResult::Performed
            },
            // Squad Leader: a lower-skill friend at Range 1-2 takes
            // a free focus action.
            Some(UpgradeEffect::FreeActionForLowerSkillShip) => self.act_lead(content, sight, i),
            // R7-T1: a lock on an enemy at Range 1-2 whose arc this
            // ship sits in, then a free straight boost.
            Some(UpgradeEffect::LockAndBoostAction) => self.act_r7t1(content, sight, moves, i),
            _ => ActionResult::Performed,
        }
    }

    /// Execute one action for ship `i` at its current pose. Repositions
    /// are blocked by other ships and the board edge.
    pub fn perform_action(
        &mut self,
        content: &Content,
        sight: &Sight,
        moves: &Moves,
        i: usize,
        planned: PlannedAction,
    ) -> (done: (ActionResult, Vec<BombToken>))
        requires
            i < old(self)@.ships.len(),
            old(self)@.known(*content),
        ensures
            (final(self)@, done.0, done.1@) == old(self)@.performing(
                *content,
                *sight,
                *moves,
                i as int,
                planned,
            ),
            final(self)@.frame() == old(self)@.frame(),
    {
        reveal(Game::performing);
        let none: Vec<BombToken> = Vec::new();
        match planned {
            PlannedAction::Pass => (ActionResult::Performed, none),
            // Mission 1: an evade token on the senator's shuttle, if it is
            // within Range 1 (no limit on how many it holds).
            PlannedAction::Protect => (self.act_protect(sight, i), none),
            // Carnor Jax at Range 1: no focus or evade actions.
            PlannedAction::Focus => {
                if self.carnor_near(content, sight, i) {
                    self.say(Event::CarnorForbids(i));
                    (ActionResult::Failed, none)
                } else {
                    self.act_focus(content, sight, i);
                    (ActionResult::Performed, none)
                }
            },
            PlannedAction::Evade => {
                if self.carnor_near(content, sight, i) {
                    self.say(Event::CarnorForbids(i));
                    (ActionResult::Failed, none)
                } else {
                    self.act_evade(content, i);
                    (ActionResult::Performed, none)
                }
            },
            PlannedAction::BarrelRoll(_) | PlannedAction::BarrelRollFar(_) => (
                self.act_roll(content, moves, i, false),
                none,
            ),
            PlannedAction::BarrelRollBank(_, _) => (self.act_roll(content, moves, i, true), none),
            PlannedAction::Boost(dir) => (self.act_boost(content, moves, i, dir), none),
            PlannedAction::TargetLock(target) => (self.act_lock(content, sight, i, target), none),
            PlannedAction::DropMine(card) => {
                match self.bomb_kind(content, i, card) {
                    Some(kind) => {
                        if kind.is_mine() {
                            let tokens = self.drop_bomb(i, card, kind, moves.drop);
                            (ActionResult::Performed, tokens)
                        } else {
                            (ActionResult::Failed, none)
                        }
                    },
                    None => (ActionResult::Failed, none),
                }
            },
            PlannedAction::CardAction(card) => (
                self.act_card(content, sight, moves, i, card),
                none,
            ),
            // Resolved by `fire_seismic_torpedo` from the main action step
            // (it needs dice); as a second action it simply fails.
            PlannedAction::CardActionAt(_, _) => (ActionResult::Failed, none),
        }
    }

    /// Card actions that roll dice: Lando Calrissian, Saboteur, R5-D8.
    pub fn needs_dice(content: &Content, card: UpgradeId) -> (yes: bool)
        ensures
            yes == rolls_dice(*content, card),
    {
        match content.effect(card) {
            Some(
                UpgradeEffect::CrewRollDefenseForTokensAction | UpgradeEffect::CrewSaboteurAction
                | UpgradeEffect::DiscardFacedownOnDefenseDie,
            ) => true,
            _ => false,
        }
    }

    fn find_sabotaged(&self, content: &Content, sight: &Sight, i: usize) -> (place: Option<usize>)
        requires
            i < self@.ships.len(),
            self@.known(*content),
        ensures
            place == first(
                self@.saboteur_rule(*content, *sight, i as int),
                0,
                self@.ships.len() as int,
            ),
            place is Some ==> place->0 < self@.ships.len(),
    {
        let test = |e: usize| -> (yes: bool)
            requires
                e < self@.ships.len(),
            ensures
                yes == obeys(self@.saboteur_rule(*content, *sight, i as int), e),
        {
            !self.allied(self.ships[e].owner, self.ships[i].owner) && !self.ships[e].destroyed
                && self.facedown_cards(content, e) > 0 && self.range_between(sight, i, e) == Some(1)
        };
        find(self.ships.len(), test, Ghost(self@.saboteur_rule(*content, *sight, i as int)))
    }

    fn act_lando(&mut self, i: usize, dice: &mut Dice)
        requires
            i < old(self)@.ships.len(),
        ensures
            (Play { game: final(self)@, dice: final(dice)@ }) == (Play {
                game: old(self)@,
                dice: old(dice)@,
            }).lando(i as int),
            final(self)@.frame() == old(self)@.frame(),
    {
        let x = DefenseFace::from_d8(dice.roll());
        let y = DefenseFace::from_d8(dice.roll());
        let f: u8 = if x == DefenseFace::Focus && y == DefenseFace::Focus {
            2
        } else if x == DefenseFace::Focus || y == DefenseFace::Focus {
            1
        } else {
            0
        };
        let e: u8 = if x == DefenseFace::Evade && y == DefenseFace::Evade {
            2
        } else if x == DefenseFace::Evade || y == DefenseFace::Evade {
            1
        } else {
            0
        };
        let s = self.ship_mut(i);
        s.focus = s.focus.saturating_add(f);
        s.evade = s.evade.saturating_add(e);
        self.say(Event::Lando(i, f, e));
    }

    fn act_sabotage(&mut self, content: &Content, sight: &Sight, i: usize, dice: &mut Dice) -> (
    result: ActionResult)
        requires
            i < old(self)@.ships.len(),
            old(self)@.known(*content),
        ensures
            (Play { game: final(self)@, dice: final(dice)@ }, result) == (Play {
                game: old(self)@,
                dice: old(dice)@,
            }).sabotage(*content, *sight, i as int),
            final(self)@.frame() == old(self)@.frame(),
    {
        let e: usize = match self.find_sabotaged(content, sight, i) {
            None => {
                self.say(Event::SaboteurFailed(i));
                return ActionResult::Failed;
            },
            Some(e) => e,
        };
        match AttackFace::from_d8(dice.roll()) {
            AttackFace::Hit | AttackFace::Crit => {
                let effect = draw(dice.roll());
                let shields: u8 = self.ships[e].shields;
                self.say(Event::Saboteur(i, e, effect));
                self.apply_crit_effect(content, e, effect, dice);
                self.watch_shields(content, e, shields);
            },
            _ => {
                self.say(Event::SaboteurMisses(i));
            },
        }
        ActionResult::Performed
    }

    /// Card actions that roll dice.
    pub fn dice_card_action(
        &mut self,
        content: &Content,
        sight: &Sight,
        i: usize,
        card: UpgradeId,
        dice: &mut Dice,
    ) -> (result: ActionResult)
        requires
            i < old(self)@.ships.len(),
            old(self)@.known(*content),
        ensures
            (Play { game: final(self)@, dice: final(dice)@ }, result) == (Play {
                game: old(self)@,
                dice: old(dice)@,
            }).dice_action(*content, *sight, i as int, card),
            final(self)@.frame() == old(self)@.frame(),
    {
        if !self.may_card_act(content, sight, i, card) {
            return ActionResult::Failed;
        }
        match content.effect(card) {
            // Lando: two defense dice, a token per focus or evade result.
            Some(UpgradeEffect::CrewRollDefenseForTokensAction) => {
                self.act_lando(i, dice);
                ActionResult::Performed
            },
            // Saboteur: an enemy at Range 1 with facedown cards; a hit or
            // critical turns one faceup.
            Some(UpgradeEffect::CrewSaboteurAction) => self.act_sabotage(content, sight, i, dice),
            // R5-D8: a defense die; evade or focus repairs a facedown card.
            Some(UpgradeEffect::DiscardFacedownOnDefenseDie) => {
                if self.facedown_cards(content, i) == 0 {
                    self.say(Event::R5D8Failed(i));
                    return ActionResult::Failed;
                }
                match DefenseFace::from_d8(dice.roll()) {
                    DefenseFace::Blank => {
                        self.say(Event::R5D8Misses(i));
                    },
                    _ => {
                        let s = self.ship_mut(i);
                        s.hull = s.hull.saturating_add(1);
                        self.say(Event::R5D8(i));
                    },
                }
                ActionResult::Performed
            },
            _ => ActionResult::Failed,
        }
    }
}

} // verus!
