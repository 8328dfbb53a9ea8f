//! Moving a ship: what it does before, where it ends up, and what it flies
//! through.

#![verifier::loop_isolation(false)]

use vstd::prelude::*;

use crate::action::{ActionResult, PlannedAction, SecondActionKind};
use crate::board::Seat;
use crate::data::Content;
use crate::dice::{attack_face, AttackFace, Dice};
use crate::event::{Event, Why};
use crate::game::actions::Moves;
use crate::game::blasts::{is_marked, marked};
use crate::game::state::{Game, GameState, Play};
use crate::geometry::Pose;
use crate::maneuver::Difficulty;
use crate::obstacle::{Obstacle, ObstacleKind};
use crate::ship::ShipModel;
use crate::sight::Sight;
use crate::upgrade::UpgradeEffect;

verus! {

broadcast use crate::game::state::framing;

/// How a ship stands when it starts to move.
#[derive(Debug, Clone, Copy, PartialEq, Eq)]
pub struct Readied {
    /// What grants it a second action.
    pub second: Option<SecondActionKind>,
    /// Boosts may use the turn templates.
    pub turn_boost: bool,
    pub daredevil: bool,
    /// The second action that is still to be taken.
    pub planned2: Option<PlannedAction>,
    /// The action taken before the maneuver, and what became of it.
    pub pre: Option<(PlannedAction, ActionResult)>,
}

/// One pose along a template.
#[derive(Debug, Clone, Copy, PartialEq, Eq, Structural)]
pub struct Step {
    pub pose: Pose,
    /// The base would overlap another ship there.
    pub blocked: bool,
    /// The base would not be within the board there.
    pub off: bool,
    /// The edge nearest to the base's center.
    pub exit: Seat,
}

/// The poses along the template of a maneuver.
#[derive(Debug, Clone, PartialEq, Eq)]
pub struct Flight {
    pub path: Vec<Step>,
    /// The poses of the plain maneuver, for one that turns the ship around.
    pub plain: Option<Vec<Step>>,
}

/// Where a ship's move ended.
#[derive(Debug, Clone, Copy, PartialEq, Eq, Structural)]
pub struct Flown {
    /// The plain maneuver was executed.
    pub degraded: bool,
    /// The place of the last pose on the path that was used.
    pub stop: usize,
    pub bumped: bool,
}

/// The last clear place up to `k`, or the first.
pub open spec fn backed_up(path: Seq<Step>, k: int) -> int
    decreases k,
{
    if k <= 0 {
        0
    } else if path[k].blocked {
        backed_up(path, k - 1)
    } else {
        k
    }
}

impl Flight {
    pub open spec fn degrades(self) -> bool {
        self.path@.last().blocked && self.plain is Some
    }

    /// The path that is flown.
    pub open spec fn used(self) -> Seq<Step> {
        if self.degrades() {
            self.plain->0@
        } else {
            self.path@
        }
    }

    pub open spec fn stop(self) -> int {
        backed_up(self.used(), self.used().len() - 1)
    }

    /// Every path has a pose.
    pub open spec fn wf(self) -> bool {
        self.path@.len() > 0 && (self.plain is Some ==> self.plain->0@.len() > 0)
    }
}

/// A ship backs up no further than it must: every pose beyond the one where
/// it stops is blocked, and that one is clear unless the ship did not move.
pub proof fn a_ship_backs_up_to_the_last_clear_pose(flight: Flight)
    requires
        flight.wf(),
    ensures
        0 <= flight.stop() < flight.used().len(),
        flight.stop() > 0 ==> !flight.used()[flight.stop()].blocked,
        forall|k: int|
            flight.stop() < k < flight.used().len() ==> (#[trigger] flight.used()[k]).blocked,
{
    backing_up(flight.used(), flight.used().len() - 1);
}

proof fn backing_up(path: Seq<Step>, k: int)
    requires
        0 <= k < path.len(),
    ensures
        0 <= backed_up(path, k) <= k,
        backed_up(path, k) > 0 ==> !path[backed_up(path, k)].blocked,
        forall|j: int| backed_up(path, k) < j <= k ==> (#[trigger] path[j]).blocked,
    decreases k,
{
    if k > 0 && path[k].blocked {
        backing_up(path, k - 1);
    }
}

/// Which obstacles a move went through, by their places in the list, and
/// which the base ended on.
#[derive(Debug, Clone, PartialEq, Eq)]
pub struct Crossing {
    pub touched: Vec<bool>,
    pub under: Vec<bool>,
}

/// The first `n` obstacles, of those that were touched, and whether the base
/// ended on them.
pub open spec fn touched_by(all: Seq<Obstacle>, touched: Seq<bool>, under: Seq<bool>, n: int) -> Seq<
    (Obstacle, bool),
>
    decreases n,
{
    if n <= 0 {
        Seq::empty()
    } else {
        let rest = touched_by(all, touched, under, n - 1);
        if marked(touched, n - 1) {
            rest.push((all[n - 1], marked(under, n - 1)))
        } else {
            rest
        }
    }
}

impl Game {
    /// BB-8: a free barrel roll on a green reveal, before moving.
    pub open spec fn rolls_first(
        self,
        content: Content,
        i: int,
        second: Option<SecondActionKind>,
        planned2: Option<PlannedAction>,
        color: Difficulty,
    ) -> bool {
        second == Some(SecondActionKind::RollOnGreenReveal) && color == Difficulty::Easy
            && planned2 is Some && (planned2->0 is BarrelRoll || planned2->0 is BarrelRollFar)
            && self.ships[i].free_to_act(content)
    }

    /// Advanced Sensors: a token or lock action is taken before the maneuver
    /// instead of after it.
    pub open spec fn senses_first(self, content: Content, i: int) -> bool {
        let a = self.ships[i].planned_action;
        self.has(content, i, UpgradeEffect::SystemFreeActionBeforeReveal) && a is Some && (a->0
            == PlannedAction::Focus || a->0 == PlannedAction::Evade || a->0 is TargetLock || a->0
            is CardAction) && self.ships[i].free_to_act(content)
    }

    /// An action before the maneuver: the second action still to be taken
    /// then, and the action that came first.
    #[verifier::opaque]
    pub open spec fn acted_first(
        self,
        content: Content,
        sight: Sight,
        moves: Moves,
        i: int,
        second: Option<SecondActionKind>,
        planned2: Option<PlannedAction>,
        color: Difficulty,
    ) -> (Game, Option<PlannedAction>, Option<(PlannedAction, ActionResult)>) {
        if self.rolls_first(content, i, second, planned2, color) {
            let (h, r, _) = self.performing(content, sight, moves, i, planned2->0);
            (h.saying(Event::Bb8Rolls(i as usize)), None, Some((planned2->0, r)))
        } else if self.senses_first(content, i) {
            let a = self.ships[i].planned_action->0;
            let h = self.with_ship(i, ShipModel { planned_action: None, ..self.ships[i] });
            let (h, r, _) = h.performing(content, sight, moves, i, a);
            (h.saying(Event::AdvancedSensors(i as usize)), planned2, Some((a, r)))
        } else {
            (self, planned2, None)
        }
    }

    /// Ship `i` is about to move: its second action is taken up, unless it
    /// waits for the attack, and an action may come before the maneuver.
    #[verifier::opaque]
    pub open spec fn readied(
        self,
        content: Content,
        sight: Sight,
        moves: Moves,
        i: int,
        color: Difficulty,
    ) -> (Game, Readied) {
        let extras = self.extras(content, sight, i);
        let waits = extras.second == Some(SecondActionKind::RepositionAfterAttack);
        let planned2 = if waits {
            None
        } else {
            self.ships[i].planned_action2
        };
        let g = if waits {
            self
        } else {
            self.with_ship(i, ShipModel { planned_action2: None, ..self.ships[i] })
        };
        let (h, left, pre) = g.acted_first(
            content,
            sight,
            moves,
            i,
            extras.second,
            planned2,
            color,
        );
        (
            h,
            Readied {
                second: extras.second,
                turn_boost: extras.turn_boost,
                daredevil: extras.daredevil,
                planned2: left,
                pre,
            },
        )
    }

    /// Ship `i` has flown: it stands where it stopped; one that left the
    /// board is gone, and may have escaped.
    #[verifier::opaque]
    pub open spec fn flown(self, i: int, flight: Flight) -> Game {
        let end = flight.used()[flight.stop()];
        let escaped = self.escapes(i, end.exit);
        let s = ShipModel { pose: Some(end.pose), plan: None, ..self.ships[i] };
        if end.off {
            self.with_ship(i, ShipModel { destroyed: true, escaped, ..s }).saying(
                if escaped {
                    Event::Escaped(i as usize, end.exit)
                } else {
                    Event::Fled(i as usize, end.exit)
                },
            )
        } else {
            self.with_ship(i, s)
        }
    }

    /// R5-X3: discarded to ignore the obstacles of this maneuver.
    pub open spec fn ignores(self, content: Content, i: int, crossed: Seq<(Obstacle, bool)>) -> bool {
        crossed.len() > 0 && self.card(content, i, UpgradeEffect::IgnoreObstaclesDiscard) is Some
    }
}

impl Play {
    /// Ship `i` hits an asteroid: a hit is 1 damage, a critical hit a faceup
    /// card; ending on it forbids attacking this round.
    #[verifier::opaque]
    pub open spec fn rocked(self, content: Content, i: int, die: AttackFace, under: bool) -> Play {
        let p = match die {
            AttackFace::Hit => self.at(self.game.damaged(i)).saying(
                Event::AsteroidHit(i as usize),
            ),
            AttackFace::Crit => self.saying(Event::AsteroidCrit(i as usize)).faceup(content, i),
            _ => self.saying(Event::AsteroidGrazed(i as usize)),
        }.shields_watched(content, i, self.game.ships[i].shields);
        if under {
            p.at(p.game.with_ship(i, ShipModel { on_asteroid: true, ..p.game.ships[i] })).saying(
                Event::StuckOnAsteroid(i as usize),
            )
        } else {
            p
        }
    }

    /// Ship `i` flies through debris: stress, and only a crit hurts.
    #[verifier::opaque]
    pub open spec fn littered(self, content: Content, sight: Sight, i: int, die: AttackFace) -> Play {
        let p = self.saying(Event::DebrisStress(i as usize));
        let p = p.at(p.game.stressed(content, sight, i));
        if die == AttackFace::Crit {
            p.saying(Event::DebrisCrit(i as usize)).faceup(content, i).shields_watched(
                content,
                i,
                p.game.ships[i].shields,
            )
        } else {
            p
        }
    }

    /// Ship `i` flies into a black hole.
    pub open spec fn swallowed(self, i: int) -> Play {
        self.at(
            self.game.with_ship(i, ShipModel { destroyed: true, ..self.game.ships[i] }),
        ).saying(Event::Swallowed(i as usize))
    }

    /// One obstacle and the die rolled for it. Collision Detector: critical
    /// results are ignored.
    pub open spec fn collided(
        self,
        content: Content,
        sight: Sight,
        i: int,
        hit: (Obstacle, bool),
        detector: bool,
    ) -> Play {
        let face = attack_face(self.shows());
        let die = if detector && face == AttackFace::Crit {
            AttackFace::Blank
        } else {
            face
        };
        match hit.0.kind {
            ObstacleKind::Asteroid => self.rolled().rocked(content, i, die, hit.1),
            ObstacleKind::Debris => self.rolled().littered(content, sight, i, die),
            ObstacleKind::BlackHole => self.rolled().swallowed(i),
        }
    }

    /// The obstacles from the `k`-th on, until the ship is destroyed: the ids
    /// hit, and whether one was an asteroid.
    pub open spec fn colliding(
        self,
        content: Content,
        sight: Sight,
        i: int,
        crossed: Seq<(Obstacle, bool)>,
        detector: bool,
        k: int,
        hit: Seq<u32>,
        rock: bool,
    ) -> (Play, Seq<u32>, bool)
        decreases crossed.len() - k,
    {
        if k >= crossed.len() || self.game.ships[i].destroyed {
            (self, hit, rock)
        } else {
            self.collided(content, sight, i, crossed[k], detector).colliding(
                content,
                sight,
                i,
                crossed,
                detector,
                k + 1,
                hit.push(crossed[k].0.id),
                rock || crossed[k].0.kind == ObstacleKind::Asteroid,
            )
        }
    }

    /// A base or template crossing an asteroid costs the action and rolls a
    /// die (hit: 1 damage, crit: a faceup card); ending on one forbids
    /// attacking this round. Debris: a stress token, and only a crit hurts.
    #[verifier::opaque]
    pub open spec fn crossing(self, content: Content, sight: Sight, i: int, crossing: Crossing) -> (
        Play,
        Seq<u32>,
        bool,
    ) {
        let all = self.game.obstacles;
        let crossed = touched_by(all, crossing.touched@, crossing.under@, all.len() as int);
        if self.game.ships[i].destroyed {
            (self, Seq::empty(), false)
        } else if self.game.ignores(content, i, crossed) {
            (
                self.at(
                    self.game.discarding(
                        content,
                        i,
                        self.game.card(content, i, UpgradeEffect::IgnoreObstaclesDiscard)->0,
                        Why::ObstaclesIgnored,
                    ),
                ),
                Seq::empty(),
                false,
            )
        } else {
            self.colliding(
                content,
                sight,
                i,
                crossed,
                self.game.has(content, i, UpgradeEffect::SystemOverlapObstaclesOnReposition),
                0,
                Seq::empty(),
                false,
            )
        }
    }
}

fn back_up(path: &Vec<Step>) -> (stop: usize)
    requires
        path@.len() > 0,
    ensures
        stop == backed_up(path@, path@.len() - 1),
        stop < path@.len(),
{
    let mut stop: usize = path.len() - 1;
    while stop > 0 && path[stop].blocked
        invariant
            stop < path@.len(),
            backed_up(path@, stop as int) == backed_up(path@, path@.len() - 1),
        decreases stop,
    {
        stop = stop - 1;
    }
    stop
}

impl GameState {
    fn act_first(
        &mut self,
        content: &Content,
        sight: &Sight,
        moves: &Moves,
        i: usize,
        second: Option<SecondActionKind>,
        planned2: Option<PlannedAction>,
        difficulty: Difficulty,
    ) -> (first: (Option<PlannedAction>, Option<(PlannedAction, ActionResult)>))
        requires
            i < old(self)@.ships.len(),
            old(self)@.known(*content),
        ensures
            (final(self)@, first.0, first.1) == old(self)@.acted_first(
                *content,
                *sight,
                *moves,
                i as int,
                second,
                planned2,
                difficulty,
            ),
            final(self)@.frame() == old(self)@.frame(),
    {
        reveal(Game::acted_first);
        let roll = match planned2 {
            Some(PlannedAction::BarrelRoll(_) | PlannedAction::BarrelRollFar(_)) => true,
            _ => false,
        };
        if second == Some(SecondActionKind::RollOnGreenReveal) && difficulty == Difficulty::Easy
            && roll && self.may_act_freely(content, i) {
            if let Some(a) = planned2 {
                let (r, _) = self.perform_action(content, sight, moves, i, a);
                self.say(Event::Bb8Rolls(i));
                return (None, Some((a, r)));
            }
        }
        let sense = match self.ships[i].planned_action {
            Some(
                PlannedAction::Focus | PlannedAction::Evade | PlannedAction::TargetLock(_)
                | PlannedAction::CardAction(_),
            ) => true,
            _ => false,
        };
        if self.has_effect(content, i, UpgradeEffect::SystemFreeActionBeforeReveal) && sense
            && self.may_act_freely(content, i) {
            if let Some(a) = self.ships[i].planned_action {
                self.ship_mut(i).planned_action = None;
                let (r, _) = self.perform_action(content, sight, moves, i, a);
                self.say(Event::AdvancedSensors(i));
                return (planned2, Some((a, r)));
            }
        }
        (planned2, None)
    }

    /// Ship `i` is about to move: its second action is taken up, and BB-8
    /// or Advanced Sensors may let it act before the maneuver.
    pub fn ready(
        &mut self,
        content: &Content,
        sight: &Sight,
        moves: &Moves,
        i: usize,
        difficulty: Difficulty,
    ) -> (readied: Readied)
        requires
            i < old(self)@.ships.len(),
            old(self)@.known(*content),
        ensures
            (final(self)@, readied) == old(self)@.readied(
                *content,
                *sight,
                *moves,
                i as int,
                difficulty,
            ),
            final(self)@.frame() == old(self)@.frame(),
    {
        reveal(Game::readied);
        let extras = self.action_extras(content, sight, i);
        let ghost model = self@.extras(*content, *sight, i as int);
        assert(extras@ == model);
        // Turr Phennir's reposition waits for his attack.
        let mut planned2: Option<PlannedAction> = None;
        if extras.second != Some(SecondActionKind::RepositionAfterAttack) {
            planned2 = self.ships[i].planned_action2;
            self.ship_mut(i).planned_action2 = None;
        }
        let (left, pre) = self.act_first(
            content,
            sight,
            moves,
            i,
            extras.second,
            planned2,
            difficulty,
        );
        Readied {
            second: extras.second,
            turn_boost: extras.turn_boost,
            daredevil: extras.daredevil,
            planned2: left,
            pre,
        }
    }

    /// Fly the template. Ships move THROUGH occupied space freely — only
    /// the FINAL position matters. A K-turn (or Tallon roll) that would end
    /// overlapping is executed as the plain maneuver of the same speed
    /// instead (no flip). If the final position (still) overlaps, back up
    /// along the template to the last clear pose; that ship "bumped" and
    /// forfeits its action.
    pub fn fly(&mut self, flight: &Flight, i: usize) -> (flown: Flown)
        requires
            i < old(self)@.ships.len(),
            flight.wf(),
        ensures
            final(self)@ == old(self)@.flown(i as int, *flight),
            flown.degraded == flight.degrades(),
            flown.stop == flight.stop(),
            flown.stop < flight.used().len(),
            flown.bumped == (flown.stop < flight.used().len() - 1),
            final(self)@.frame() == old(self)@.frame(),
    {
        reveal(Game::flown);
        let mut used: &Vec<Step> = &flight.path;
        let mut degraded = false;
        if flight.path[flight.path.len() - 1].blocked {
            if let Some(plain) = &flight.plain {
                used = plain;
                degraded = true;
            }
        }
        assert(used@ == flight.used());
        let stop: usize = back_up(used);
        let bumped = stop < used.len() - 1;
        let end = used[stop];
        let escaped = self.mission_escape(i, end.exit);
        let s = self.ship_mut(i);
        s.pose = Some(end.pose);
        s.plan = None;
        if end.off {
            s.destroyed = true;
            s.escaped = escaped;
            if escaped {
                self.say(Event::Escaped(i, end.exit));
            } else {
                self.say(Event::Fled(i, end.exit));
            }
        }
        Flown { degraded, stop, bumped }
    }

    fn list_touched(&self, crossing: &Crossing) -> (crossed: Vec<(Obstacle, bool)>)
        ensures
            crossed@ == touched_by(
                self@.obstacles,
                crossing.touched@,
                crossing.under@,
                self@.obstacles.len() as int,
            ),
    {
        let mut crossed: Vec<(Obstacle, bool)> = Vec::new();
        let mut k: usize = 0;
        assert(crossed@ =~= Seq::empty());
        while k < self.obstacles.len()
            invariant
                k <= self.obstacles.len(),
                crossed@ == touched_by(
                    self@.obstacles,
                    crossing.touched@,
                    crossing.under@,
                    k as int,
                ),
            decreases self.obstacles.len() - k,
        {
            if is_marked(&crossing.touched, k) {
                crossed.push((self.obstacles[k], is_marked(&crossing.under, k)));
            }
            k = k + 1;
        }
        crossed
    }

    fn hit_rock(
        &mut self,
        content: &Content,
        i: usize,
        die: AttackFace,
        under: bool,
        dice: &mut Dice,
    )
        requires
            i < old(self)@.ships.len(),
            old(self)@.known(*content),
        ensures
            (Play { game: final(self)@, dice: final(dice)@ }) == (Play {
                game: old(self)@,
                dice: old(dice)@,
            }).rocked(*content, i as int, die, under),
            final(self)@.frame() == old(self)@.frame(),
    {
        reveal(Play::rocked);
        let shields: u8 = self.ships[i].shields;
        match die {
            AttackFace::Hit => {
                self.damage_point(i);
                self.say(Event::AsteroidHit(i));
            },
            AttackFace::Crit => {
                self.say(Event::AsteroidCrit(i));
                self.faceup_card(content, i, dice);
            },
            _ => {
                self.say(Event::AsteroidGrazed(i));
            },
        }
        self.watch_shields(content, i, shields);
        if under {
            self.ship_mut(i).on_asteroid = true;
            self.say(Event::StuckOnAsteroid(i));
        }
    }

    fn hit_debris(
        &mut self,
        content: &Content,
        sight: &Sight,
        i: usize,
        die: AttackFace,
        dice: &mut Dice,
    )
        requires
            i < old(self)@.ships.len(),
            old(self)@.known(*content),
        ensures
            (Play { game: final(self)@, dice: final(dice)@ }) == (Play {
                game: old(self)@,
                dice: old(dice)@,
            }).littered(*content, *sight, i as int, die),
            final(self)@.frame() == old(self)@.frame(),
    {
        reveal(Play::littered);
        self.say(Event::DebrisStress(i));
        self.gain_stress(content, sight, i);
        if die == AttackFace::Crit {
            let shields: u8 = self.ships[i].shields;
            self.say(Event::DebrisCrit(i));
            self.faceup_card(content, i, dice);
            self.watch_shields(content, i, shields);
        }
    }

    fn collide(
        &mut self,
        content: &Content,
        sight: &Sight,
        i: usize,
        hit: (Obstacle, bool),
        detector: bool,
        dice: &mut Dice,
    )
        requires
            i < old(self)@.ships.len(),
            old(self)@.known(*content),
        ensures
            (Play { game: final(self)@, dice: final(dice)@ }) == (Play {
                game: old(self)@,
                dice: old(dice)@,
            }).collided(*content, *sight, i as int, hit, detector),
            final(self)@.frame() == old(self)@.frame(),
    {
        let face = AttackFace::from_d8(dice.roll());
        // Collision Detector: critical results are ignored.
        let die = if detector && face == AttackFace::Crit {
            AttackFace::Blank
        } else {
            face
        };
        match hit.0.kind {
            ObstacleKind::Asteroid => {
                self.hit_rock(content, i, die, hit.1, dice);
            },
            ObstacleKind::Debris => {
                self.hit_debris(content, sight, i, die, dice);
            },
            ObstacleKind::BlackHole => {
                self.ship_mut(i).destroyed = true;
                self.say(Event::Swallowed(i));
            },
        }
    }

    /// Obstacles that the move of ship `i` went through: the ids hit, and
    /// whether an asteroid costs the action.
    pub fn cross_obstacles(
        &mut self,
        content: &Content,
        sight: &Sight,
        crossing: &Crossing,
        i: usize,
        dice: &mut Dice,
    ) -> (hit: (Vec<u32>, bool))
        requires
            i < old(self)@.ships.len(),
            old(self)@.known(*content),
        ensures
            (Play { game: final(self)@, dice: final(dice)@ }, hit.0@, hit.1) == (Play {
                game: old(self)@,
                dice: old(dice)@,
            }).crossing(*content, *sight, i as int, *crossing),
            final(self)@.frame() == old(self)@.frame(),
    {
        reveal(Play::crossing);
        let mut ids: Vec<u32> = Vec::new();
        let mut rock = false;
        assert(ids@ =~= Seq::empty());
        if self.ships[i].destroyed {
            return (ids, false);
        }
        let crossed = self.list_touched(crossing);
        // R5-X3: discarded before the reveal to ignore the obstacles
        // this maneuver would hit.
        if crossed.len() > 0 {
            if let Some(card) = self.card_with_effect(
                content,
                i,
                UpgradeEffect::IgnoreObstaclesDiscard,
            ) {
                self.discard_card(content, i, card, Why::ObstaclesIgnored);
                return (ids, false);
            }
        }
        let detector = self.has_effect(
            content,
            i,
            UpgradeEffect::SystemOverlapObstaclesOnReposition,
        );
        let ghost start = Play { game: self@, dice: dice@ };
        let mut k: usize = 0;
        while k < crossed.len() && !self.ships[i].destroyed
            invariant
                k <= crossed.len(),
                self@.frame() == old(self)@.frame(),
                (Play { game: self@, dice: dice@ }).colliding(
                    *content,
                    *sight,
                    i as int,
                    crossed@,
                    detector,
                    k as int,
                    ids@,
                    rock,
                ) == start.colliding(
                    *content,
                    *sight,
                    i as int,
                    crossed@,
                    detector,
                    0,
                    Seq::empty(),
                    false,
                ),
            decreases crossed.len() - k,
        {
            let o = crossed[k];
            self.collide(content, sight, i, o, detector, dice);
            ids.push(o.0.id);
            rock = rock || o.0.kind == ObstacleKind::Asteroid;
            k = k + 1;
        }
        (ids, rock)
    }
}

} // verus!
