//! The Activation phase as a sequence of steps: every ship in movement order
//! reveals, moves and acts; then black holes pull, bombs explode and consoles
//! burn. Each step asks for what it needs measured on the table.

#![verifier::loop_isolation(false)]

use vstd::prelude::*;

use crate::action::{ActionResult, PlannedAction};
use crate::bombs::{BombHit, BombToken, Detonation, DetonationModel, DropSpots};
use crate::data::Content;
use crate::dice::Dice;
use crate::game::actions::Moves;
use crate::game::blasts::{Salvo, SeismicBlast};
use crate::game::closing::{holes_among, Drag};
use crate::game::conduct::{blast_is, Acted, Stance};
use crate::game::dial::{Course, Ends};
use crate::game::flight::{Crossing, Flight, Flown, Readied};
use crate::game::state::{view_of, views, AttackModel, AttackRecord, Game, GameState, Play};
use crate::geometry::Pose;
use crate::maneuver::{Difficulty, Maneuver, Steer};
use crate::obstacle::{Obstacle, Pull};
use crate::game::rejection::Rejection;
use crate::ship::{PlayerId, ShipId};
use crate::sight::Sight;

verus! {

broadcast use crate::game::state::framing;

/// What happens next.
#[derive(Debug, Clone, Copy, PartialEq, Eq, Structural)]
pub enum Stage {
    /// The ship reveals its dial and drops a bomb.
    Reveal,
    /// The dial may be rotated.
    Rotate,
    /// An action may come before the maneuver.
    Ready,
    /// The ship flies.
    Fly,
    /// Obstacles on the way are hit.
    Cross,
    /// Stress by color.
    Settle,
    /// Mines on the way go off.
    Mines,
    /// A stunned pilot suffers from the collision.
    Stun,
    /// Another ship may fire a Snap Shot.
    Snap,
    /// The ship may spin around.
    Spin,
    /// A free boost may come before the action.
    Boost,
    /// The Perform Action step.
    Act,
    /// The second action.
    Second,
    /// What the second action costs.
    Tire,
    /// The black holes on the board are listed.
    Gather,
    /// A black hole pulls a ship.
    Pull,
    /// The bombs explode.
    Explode,
    /// The consoles burn.
    Burn,
    /// The Activation phase is over.
    Over,
}

/// How far the Activation phase has come.
#[derive(Debug, Clone, Copy, PartialEq, Eq)]
pub struct Turn {
    pub stage: Stage,
    /// Where in the order the moving ship stands.
    pub place: usize,
    pub course: Course,
    pub readied: Readied,
    pub stance: Stance,
    pub acted: Acted,
    /// The ship that may fire a Snap Shot, or that a black hole pulls.
    pub other: usize,
    /// The black hole that pulls.
    pub hole: usize,
}

/// The Activation phase in progress.
#[derive(Debug, Clone, PartialEq, Eq)]
pub struct Activation {
    /// The moving ships, by their places in the game's list.
    pub order: Vec<usize>,
    pub holes: Vec<Obstacle>,
    pub turn: Turn,
}

/// The Activation phase in progress, with its lists as sequences.
#[verifier::ext_equal]
pub struct Progress {
    pub order: Seq<usize>,
    pub holes: Seq<Obstacle>,
    pub turn: Turn,
}

impl View for Activation {
    type V = Progress;

    open spec fn view(&self) -> Progress {
        Progress { order: self.order@, holes: self.holes@, turn: self.turn }
    }
}

/// What is measured on the table for one step; only what the step needs
/// matters.
#[derive(Debug, Clone, PartialEq, Eq)]
pub struct Facts {
    pub sight: Sight,
    pub spots: DropSpots,
    pub ends: Ends,
    /// Where the acting or firing ship could go.
    pub moves: Moves,
    pub flight: Flight,
    pub crossing: Crossing,
    /// Which tokens the move went through.
    pub mines: Vec<bool>,
    /// The ship turned around in place.
    pub turned: Pose,
    pub salvo: Salvo,
    /// The way to the black hole.
    pub drag: Vec<Drag>,
    /// The ships within Range 1 of each bomb.
    pub within: Vec<Vec<bool>>,
}

/// What a step brought.
#[derive(Debug, Clone, PartialEq, Eq)]
pub enum Outcome {
    Revealed(Course, Vec<BombToken>),
    Rotated(Course),
    Readied(Readied),
    Flown(Flown),
    Crossed(Vec<u32>, bool),
    Settled(u8),
    Mined(Vec<Detonation>, bool),
    Stunned,
    Snapped(Option<AttackRecord>),
    Spun,
    Boosted(Option<(PlannedAction, ActionResult)>),
    Acted(Acted, Vec<BombToken>, Option<SeismicBlast>),
    Seconded(Option<(PlannedAction, ActionResult)>, Vec<BombToken>),
    Tired,
    Gathered,
    Pulled(Option<Pull>),
    Exploded(Vec<Detonation>),
    Burned,
    Nothing,
}

/// What a step brought, with the lists as sequences.
pub enum OutcomeModel {
    Revealed(Course, Seq<BombToken>),
    Rotated(Course),
    Readied(Readied),
    Flown(Flown),
    Crossed(Seq<u32>, bool),
    Settled(u8),
    Mined(Seq<DetonationModel>, bool),
    Stunned,
    Snapped(Option<AttackModel>),
    Spun,
    Boosted(Option<(PlannedAction, ActionResult)>),
    Acted(Acted, Seq<BombToken>, Option<Seq<BombHit>>),
    Seconded(Option<(PlannedAction, ActionResult)>, Seq<BombToken>),
    Tired,
    Gathered,
    Pulled(Option<Pull>),
    Exploded(Seq<DetonationModel>),
    Burned,
    Nothing,
}

impl View for Outcome {
    type V = OutcomeModel;

    open spec fn view(&self) -> OutcomeModel {
        match self {
            Outcome::Revealed(c, t) => OutcomeModel::Revealed(*c, t@),
            Outcome::Rotated(c) => OutcomeModel::Rotated(*c),
            Outcome::Readied(r) => OutcomeModel::Readied(*r),
            Outcome::Flown(f) => OutcomeModel::Flown(*f),
            Outcome::Crossed(ids, rock) => OutcomeModel::Crossed(ids@, *rock),
            Outcome::Settled(s) => OutcomeModel::Settled(*s),
            Outcome::Mined(d, netted) => OutcomeModel::Mined(views(d@), *netted),
            Outcome::Stunned => OutcomeModel::Stunned,
            Outcome::Snapped(r) => OutcomeModel::Snapped(view_of(*r)),
            Outcome::Spun => OutcomeModel::Spun,
            Outcome::Boosted(b) => OutcomeModel::Boosted(*b),
            Outcome::Acted(a, t, blast) => OutcomeModel::Acted(
                *a,
                t@,
                match blast {
                    Some(b) => Some(b.detonation.hits@),
                    None => None,
                },
            ),
            Outcome::Seconded(s, t) => OutcomeModel::Seconded(*s, t@),
            Outcome::Tired => OutcomeModel::Tired,
            Outcome::Gathered => OutcomeModel::Gathered,
            Outcome::Pulled(p) => OutcomeModel::Pulled(*p),
            Outcome::Exploded(d) => OutcomeModel::Exploded(views(d@)),
            Outcome::Burned => OutcomeModel::Burned,
            Outcome::Nothing => OutcomeModel::Nothing,
        }
    }
}

impl Turn {
    /// At another stage.
    pub open spec fn at(self, stage: Stage) -> Turn {
        Turn { stage, ..self }
    }
}

impl Progress {
    /// The moving ship.
    pub open spec fn mover(self) -> usize {
        self.order[self.turn.place as int]
    }

    /// One of the stages in which a ship moves.
    pub open spec fn moving(self) -> bool {
        match self.turn.stage {
            Stage::Gather | Stage::Pull | Stage::Explode | Stage::Burn | Stage::Over => false,
            _ => true,
        }
    }

    /// Every ship in the order is one of the game's, and the ship or the hole
    /// whose turn it is exists.
    pub open spec fn wf(self, ships: nat) -> bool {
        &&& forall|k: int| 0 <= k < self.order.len() ==> #[trigger] self.order[k] < ships
        &&& self.moving() ==> self.turn.place < self.order.len()
        &&& self.turn.stage == Stage::Snap ==> self.turn.other < ships
        &&& self.turn.stage == Stage::Pull ==> self.turn.other < ships && self.turn.hole
            < self.holes.len()
    }

    /// With another turn.
    pub open spec fn to(self, turn: Turn) -> Progress {
        Progress { turn, ..self }
    }

    /// The next ship moves, or the moves are over.
    pub open spec fn passed(self) -> Progress {
        if self.turn.place + 1 < self.order.len() {
            self.to(
                Turn { place: (self.turn.place + 1) as usize, stage: Stage::Reveal, ..self.turn },
            )
        } else {
            self.to(self.turn.at(Stage::Gather))
        }
    }

    /// The next ship may fire a Snap Shot, or all have had their chance.
    pub open spec fn next_shooter(self, ships: nat) -> Progress {
        if self.turn.other + 1 < ships {
            self.to(Turn { other: (self.turn.other + 1) as usize, ..self.turn })
        } else {
            self.to(self.turn.at(Stage::Spin))
        }
    }

    /// The holes are listed; the first pulls the first ship, if there are
    /// any.
    pub open spec fn gathered(self, holes: Seq<Obstacle>, ships: nat) -> Progress {
        Progress {
            holes,
            turn: if holes.len() > 0 && ships > 0 {
                Turn { stage: Stage::Pull, other: 0, hole: 0, ..self.turn }
            } else {
                self.turn.at(Stage::Explode)
            },
            ..self
        }
    }

    /// The hole pulls the next ship, the next hole pulls, or all have.
    pub open spec fn next_pull(self, ships: nat) -> Progress {
        if self.turn.other + 1 < ships {
            self.to(Turn { other: (self.turn.other + 1) as usize, ..self.turn })
        } else if self.turn.hole + 1 < self.holes.len() {
            self.to(Turn { other: 0, hole: (self.turn.hole + 1) as usize, ..self.turn })
        } else {
            self.to(self.turn.at(Stage::Explode))
        }
    }
}

/// The places of the ids that are found.
pub open spec fn places_in(g: Game, ids: Seq<ShipId>, n: int) -> Seq<usize>
    decreases n,
{
    if n <= 0 {
        Seq::empty()
    } else {
        match g.index(ids[n - 1]) {
            Some(k) => places_in(g, ids, n - 1).push(k),
            None => places_in(g, ids, n - 1),
        }
    }
}

/// A turn in which nothing has happened yet.
pub open spec fn fresh_turn(stage: Stage) -> Turn {
    Turn {
        stage,
        place: 0,
        course: Course {
            maneuver: Maneuver {
                steer: Steer::Straight,
                distance: 1,
                difficulty: Difficulty::Normal,
            },
            difficulty: Difficulty::Normal,
            rush: None,
        },
        readied: Readied {
            second: None,
            turn_boost: false,
            daredevil: false,
            planned2: None,
            pre: None,
        },
        stance: Stance { stress_before: 0, bumped: false, on_rock: false, netted: false },
        acted: Acted {
            action: PlannedAction::Pass,
            result: ActionResult::Performed,
            attempted: false,
        },
        other: 0,
        hole: 0,
    }
}

/// The start of the Activation phase.
pub open spec fn begun(g: Game, content: Content) -> Progress {
    let ids = g.moving_order(content);
    let order = places_in(g, ids, ids.len() as int);
    Progress {
        order,
        holes: Seq::empty(),
        turn: fresh_turn(
            if order.len() > 0 {
                Stage::Reveal
            } else {
                Stage::Gather
            },
        ),
    }
}

/// What a flight comes to.
pub open spec fn flown_as(flight: Flight) -> Flown {
    Flown {
        degraded: flight.degrades(),
        stop: flight.stop() as usize,
        bumped: flight.stop() < flight.used().len() - 1,
    }
}

impl Play {
    /// The first half of a ship's activation: from the reveal to the mines.
    #[verifier::opaque]
    pub open spec fn moving_step(self, content: Content, facts: Facts, a: Progress) -> (
        Play,
        Progress,
        OutcomeModel,
    ) {
        let t = a.turn;
        let i = a.mover();
        match t.stage {
            Stage::Reveal => {
                let (g, c, tokens) = self.game.revealed(content, i as int, facts.spots);
                (
                    self.at(g),
                    a.to(Turn { course: c, stage: Stage::Rotate, ..t }),
                    OutcomeModel::Revealed(c, tokens),
                )
            },
            Stage::Rotate => {
                let (g, c) = self.game.rotated(content, i as int, facts.ends, t.course);
                (
                    self.at(g),
                    a.to(Turn { course: c, stage: Stage::Ready, ..t }),
                    OutcomeModel::Rotated(c),
                )
            },
            Stage::Ready => {
                let (g, r) = self.game.readied(
                    content,
                    facts.sight,
                    facts.moves,
                    i as int,
                    t.course.difficulty,
                );
                (
                    self.at(g),
                    a.to(Turn { readied: r, stage: Stage::Fly, ..t }),
                    OutcomeModel::Readied(r),
                )
            },
            Stage::Fly => {
                let f = flown_as(facts.flight);
                (
                    self.at(self.game.flown(i as int, facts.flight)),
                    a.to(
                        Turn {
                            stance: Stance { bumped: f.bumped, ..t.stance },
                            stage: Stage::Cross,
                            ..t
                        },
                    ),
                    OutcomeModel::Flown(f),
                )
            },
            Stage::Cross => {
                let (p, ids, rock) = self.crossing(content, facts.sight, i as int, facts.crossing);
                (
                    p,
                    a.to(
                        Turn {
                            stance: Stance { on_rock: rock, ..t.stance },
                            stage: Stage::Settle,
                            ..t
                        },
                    ),
                    OutcomeModel::Crossed(ids, rock),
                )
            },
            Stage::Settle => {
                let before = self.game.ships[i as int].stress;
                (
                    self.at(self.game.settled(content, facts.sight, i as int, t.course)),
                    a.to(
                        Turn {
                            stance: Stance { stress_before: before, ..t.stance },
                            stage: Stage::Mines,
                            ..t
                        },
                    ),
                    OutcomeModel::Settled(before),
                )
            },
            Stage::Mines => {
                let (p, done, netted) = self.mined_by(content, facts.sight, i, facts.mines@);
                (
                    p,
                    a.to(
                        Turn { stance: Stance { netted, ..t.stance }, stage: Stage::Stun, ..t },
                    ),
                    OutcomeModel::Mined(done, netted),
                )
            },
            _ => (self, a, OutcomeModel::Nothing),
        }
    }

    /// The second half of a ship's activation: from the collision to what the
    /// second action costs.
    #[verifier::opaque]
    pub open spec fn acting_step(self, content: Content, facts: Facts, a: Progress) -> (
        Play,
        Progress,
        OutcomeModel,
    ) {
        let t = a.turn;
        let i = a.mover();
        match t.stage {
            Stage::Stun => (
                self.at(self.game.stunned(content, i as int, t.stance.bumped)),
                a.to(Turn { other: 0, stage: Stage::Snap, ..t }),
                OutcomeModel::Stunned,
            ),
            Stage::Snap => {
                let (p, record) = self.snapped(content, facts.sight, facts.moves, t.other, i);
                (p, a.next_shooter(self.game.ships.len()), OutcomeModel::Snapped(record))
            },
            Stage::Spin => (
                self.at(
                    self.game.spun(
                        content,
                        facts.sight,
                        i as int,
                        t.course.difficulty,
                        facts.turned,
                    ),
                ),
                a.to(t.at(Stage::Boost)),
                OutcomeModel::Spun,
            ),
            Stage::Boost => {
                let (g, boost) = self.game.boosted_free(
                    content,
                    facts.sight,
                    facts.moves,
                    i as int,
                    t.readied,
                    t.course.maneuver.distance,
                    t.stance.bumped,
                );
                (self.at(g), a.to(t.at(Stage::Act)), OutcomeModel::Boosted(boost))
            },
            Stage::Act => {
                let (p, acted, tokens, hits) = self.acted(
                    content,
                    facts.sight,
                    facts.moves,
                    facts.salvo,
                    i as int,
                    t.readied,
                    t.stance,
                );
                (
                    p,
                    a.to(Turn { acted, stage: Stage::Second, ..t }),
                    OutcomeModel::Acted(acted, tokens, hits),
                )
            },
            Stage::Second => {
                let (g, second, tokens) = self.game.seconded(
                    content,
                    facts.sight,
                    facts.moves,
                    i as int,
                    t.readied,
                    t.acted,
                );
                (
                    self.at(g),
                    if second is Some {
                        a.to(t.at(Stage::Tire))
                    } else {
                        a.passed()
                    },
                    OutcomeModel::Seconded(second, tokens),
                )
            },
            Stage::Tire => (
                self.at(self.game.tired(content, facts.sight, i as int, t.readied.second)),
                a.passed(),
                OutcomeModel::Tired,
            ),
            _ => (self, a, OutcomeModel::Nothing),
        }
    }

    /// The end of the Activation phase.
    #[verifier::opaque]
    pub open spec fn closing_step(self, content: Content, facts: Facts, a: Progress) -> (
        Play,
        Progress,
        OutcomeModel,
    ) {
        let t = a.turn;
        let n = self.game.ships.len();
        match t.stage {
            Stage::Gather => (
                self,
                a.gathered(
                    holes_among(self.game.obstacles, self.game.obstacles.len() as int),
                    n,
                ),
                OutcomeModel::Gathered,
            ),
            Stage::Pull => {
                let (g, pull) = self.game.pulled(
                    t.other as int,
                    a.holes[t.hole as int].id,
                    facts.drag@,
                );
                (self.at(g), a.next_pull(n), OutcomeModel::Pulled(pull))
            },
            Stage::Explode => {
                let (p, done) = self.exploded(content, facts.sight, facts.within@);
                (p, a.to(t.at(Stage::Burn)), OutcomeModel::Exploded(done))
            },
            Stage::Burn => (
                self.burned_by(content, n as int),
                a.to(t.at(Stage::Over)),
                OutcomeModel::Burned,
            ),
            _ => (self, a, OutcomeModel::Nothing),
        }
    }

    /// One step of the Activation phase.
    pub open spec fn stepped_on(self, content: Content, facts: Facts, a: Progress) -> (
        Play,
        Progress,
        OutcomeModel,
    ) {
        match a.turn.stage {
            Stage::Reveal | Stage::Rotate | Stage::Ready | Stage::Fly | Stage::Cross | Stage::Settle
            | Stage::Mines => self.moving_step(content, facts, a),
            Stage::Stun | Stage::Snap | Stage::Spin | Stage::Boost | Stage::Act | Stage::Second
            | Stage::Tire => self.acting_step(content, facts, a),
            _ => self.closing_step(content, facts, a),
        }
    }
}

/// How many steps are left at most: every step comes nearer to the end of the
/// Activation phase.
pub open spec fn steps_left(a: Progress, ships: nat) -> (int, int, int, int) {
    let t = a.turn;
    (
        match t.stage {
            Stage::Over => 0,
            Stage::Burn => 1,
            Stage::Explode => 2,
            Stage::Pull => 3,
            Stage::Gather => 4,
            _ => 5,
        },
        if a.moving() {
            a.order.len() - t.place
        } else if t.stage == Stage::Pull {
            a.holes.len() - t.hole
        } else {
            0
        },
        match t.stage {
            Stage::Reveal => 14,
            Stage::Rotate => 13,
            Stage::Ready => 12,
            Stage::Fly => 11,
            Stage::Cross => 10,
            Stage::Settle => 9,
            Stage::Mines => 8,
            Stage::Stun => 7,
            Stage::Snap => 6,
            Stage::Spin => 5,
            Stage::Boost => 4,
            Stage::Act => 3,
            Stage::Second => 2,
            Stage::Tire => 1,
            _ => 0,
        },
        if t.stage == Stage::Snap || t.stage == Stage::Pull {
            ships - t.other
        } else {
            0
        },
    )
}

/// One measure of progress comes before another.
pub open spec fn nearer(a: (int, int, int, int), b: (int, int, int, int)) -> bool {
    a.0 < b.0 || (a.0 == b.0 && (a.1 < b.1 || (a.1 == b.1 && (a.2 < b.2 || (a.2 == b.2 && a.3
        < b.3)))))
}

/// The Activation phase always ends: every step before the end comes nearer
/// to it, and keeps the order of the ships.
pub proof fn the_activation_phase_ends(p: Play, content: Content, facts: Facts, a: Progress)
    requires
        a.wf(p.game.ships.len()),
        a.turn.stage != Stage::Over,
        p.game.ships.len() <= usize::MAX,
        a.order.len() <= usize::MAX,
        a.holes.len() <= usize::MAX,
    ensures
        nearer(
            steps_left(p.stepped_on(content, facts, a).1, p.game.ships.len()),
            steps_left(a, p.game.ships.len()),
        ),
        p.stepped_on(content, facts, a).1.order == a.order,
        p.stepped_on(content, facts, a).1.wf(p.game.ships.len()),
{
    reveal(Play::moving_step);
    reveal(Play::acting_step);
    reveal(Play::closing_step);
}

impl GameState {
    /// Commit the player's plans. When every seat has committed, the
    /// Activation phase begins.
    pub fn commit_plans_begin(&mut self, content: &Content, sight: &Sight, player: PlayerId) -> (
    result: Result<Option<Activation>, Rejection>)
        requires
            player.0 < old(self)@.committed.len(),
            old(self)@.known(*content),
            old(self)@.plans_fit(*content),
            old(self)@.ranked_seats() <= u32::MAX,
        ensures
            match old(self)@.commit_refused(player) {
                Some(r) => {
                    &&& result == Err::<Option<Activation>, Rejection>(r)
                    &&& final(self)@ == old(self)@
                },
                None => {
                    let g = Game {
                        committed: old(self)@.committed.update(player.0 as int, true),
                        ..old(self)@
                    };
                    if g.all_committed() {
                        &&& result is Ok
                        &&& result->Ok_0 is Some
                        &&& result->Ok_0->0@ == begun(g, *content)
                        &&& result->Ok_0->0@.wf(final(self)@.ships.len())
                        &&& final(self)@ == g.activated(*content, *sight)
                    } else {
                        result == Ok::<Option<Activation>, Rejection>(None) && final(self)@ == g
                    }
                },
            },
            final(self)@.known(*content),
    {
        match self.commit(player) {
            Err(r) => Err(r),
            Ok(all) => {
                if !all {
                    return Ok(None);
                }
                assert(self@.plans_fit(*content)) by {
                    assert(self@.ships == old(self)@.ships);
                }
                Ok(Some(Activation::begin(self, content, sight)))
            },
        }
    }
}

impl Activation {
    /// Begin the Activation phase: fix the order in which the ships move,
    /// lowest pilot skill first, and open the phase.
    pub fn begin(game: &mut GameState, content: &Content, sight: &Sight) -> (activation: Activation)
        requires
            old(game)@.known(*content),
            old(game)@.plans_fit(*content),
            old(game)@.ranked_seats() <= u32::MAX,
        ensures
            final(game)@ == old(game)@.activated(*content, *sight),
            activation@ == begun(old(game)@, *content),
            activation@.wf(final(game)@.ships.len()),
            final(game)@.frame() == old(game)@.frame(),
    {
        let ids = game.activation_order(content);
        let mut order: Vec<usize> = Vec::new();
        let mut k: usize = 0;
        assert(order@ =~= Seq::empty());
        while k < ids.len()
            invariant
                k <= ids.len(),
                *game == *old(game),
                order@ == places_in(old(game)@, ids@, k as int),
                forall|j: int| 0 <= j < order@.len() ==> #[trigger] order@[j] < game@.ships.len(),
            decreases ids.len() - k,
        {
            if let Some(place) = game.find_ship(ids[k]) {
                order.push(place);
            }
            k = k + 1;
        }
        let stage = if order.len() > 0 {
            Stage::Reveal
        } else {
            Stage::Gather
        };
        game.begin_activation(content, sight);
        let activation = Activation {
            order,
            holes: Vec::new(),
            turn: Turn {
                stage,
                place: 0,
                course: Course {
                    maneuver: Maneuver {
                        steer: Steer::Straight,
                        distance: 1,
                        difficulty: Difficulty::Normal,
                    },
                    difficulty: Difficulty::Normal,
                    rush: None,
                },
                readied: Readied {
                    second: None,
                    turn_boost: false,
                    daredevil: false,
                    planned2: None,
                    pre: None,
                },
                stance: Stance { stress_before: 0, bumped: false, on_rock: false, netted: false },
                acted: Acted {
                    action: PlannedAction::Pass,
                    result: ActionResult::Performed,
                    attempted: false,
                },
                other: 0,
                hole: 0,
            },
        };
        assert(activation@.holes =~= Seq::empty());
        activation
    }

    fn move_on(
        &mut self,
        game: &mut GameState,
        content: &Content,
        facts: &Facts,
        dice: &mut Dice,
    ) -> (outcome: Outcome)
        requires
            old(game)@.known(*content),
            old(self)@.wf(old(game)@.ships.len()),
            old(self)@.moving(),
            old(self)@.turn.stage == Stage::Reveal ==> {
                let s = old(game)@.ships[old(self)@.mover() as int];
                s.plan is Some && s.plan->0 < content.dial(s.class).len()
            },
            old(self)@.turn.stage == Stage::Fly ==> facts.flight.wf(),
        ensures
            (Play { game: final(game)@, dice: final(dice)@ }, final(self)@, outcome@) == (Play {
                game: old(game)@,
                dice: old(dice)@,
            }).moving_step(*content, *facts, old(self)@),
            final(game)@.frame() == old(game)@.frame(),
    {
        reveal(Play::moving_step);
        let i: usize = self.order[self.turn.place];
        match self.turn.stage {
            Stage::Reveal => {
                let (course, tokens) = game.reveal_dial(content, facts.spots, i);
                self.turn.course = course;
                self.turn.stage = Stage::Rotate;
                Outcome::Revealed(course, tokens)
            },
            Stage::Rotate => {
                let course = game.rotate_dial(content, &facts.ends, i, self.turn.course);
                self.turn.course = course;
                self.turn.stage = Stage::Ready;
                Outcome::Rotated(course)
            },
            Stage::Ready => {
                let readied = game.ready(
                    content,
                    &facts.sight,
                    &facts.moves,
                    i,
                    self.turn.course.difficulty,
                );
                self.turn.readied = readied;
                self.turn.stage = Stage::Fly;
                Outcome::Readied(readied)
            },
            Stage::Fly => {
                let flown = game.fly(&facts.flight, i);
                self.turn.stance.bumped = flown.bumped;
                self.turn.stage = Stage::Cross;
                Outcome::Flown(flown)
            },
            Stage::Cross => {
                let (ids, rock) = game.cross_obstacles(
                    content,
                    &facts.sight,
                    &facts.crossing,
                    i,
                    dice,
                );
                self.turn.stance.on_rock = rock;
                self.turn.stage = Stage::Settle;
                Outcome::Crossed(ids, rock)
            },
            Stage::Settle => {
                let before: u8 = game.settle(content, &facts.sight, i, self.turn.course);
                self.turn.stance.stress_before = before;
                self.turn.stage = Stage::Mines;
                Outcome::Settled(before)
            },
            Stage::Mines => {
                let (done, netted) = game.cross_mines(
                    content,
                    &facts.sight,
                    &facts.mines,
                    i,
                    dice,
                );
                self.turn.stance.netted = netted;
                self.turn.stage = Stage::Stun;
                Outcome::Mined(done, netted)
            },
            _ => Outcome::Nothing,
        }
    }

    fn pass_on(&mut self)
        requires
            old(self)@.turn.place < old(self)@.order.len(),
        ensures
            final(self)@ == old(self)@.passed(),
    {
        if self.turn.place < self.order.len() - 1 {
            self.turn.place = self.turn.place + 1;
            self.turn.stage = Stage::Reveal;
        } else {
            self.turn.stage = Stage::Gather;
        }
    }

    fn act_on(
        &mut self,
        game: &mut GameState,
        content: &Content,
        facts: &Facts,
        dice: &mut Dice,
    ) -> (outcome: Outcome)
        requires
            old(game)@.known(*content),
            old(self)@.wf(old(game)@.ships.len()),
            old(self)@.moving(),
        ensures
            (Play { game: final(game)@, dice: final(dice)@ }, final(self)@, outcome@) == (Play {
                game: old(game)@,
                dice: old(dice)@,
            }).acting_step(*content, *facts, old(self)@),
            match outcome {
                Outcome::Acted(acted, _, blast) => blast_is(
                    blast,
                    outcome@->Acted_2,
                    acted.action,
                    facts.salvo,
                    old(game)@,
                    old(self)@.mover() as int,
                ),
                _ => true,
            },
            final(game)@.frame() == old(game)@.frame(),
    {
        reveal(Play::acting_step);
        let i: usize = self.order[self.turn.place];
        match self.turn.stage {
            Stage::Stun => {
                game.stun(content, i, self.turn.stance.bumped);
                self.turn.other = 0;
                self.turn.stage = Stage::Snap;
                Outcome::Stunned
            },
            Stage::Snap => {
                let n: usize = game.ships.len();
                let record = game.snap_shot(
                    content,
                    &facts.sight,
                    &facts.moves,
                    self.turn.other,
                    i,
                    dice,
                );
                if self.turn.other + 1 < n {
                    self.turn.other = self.turn.other + 1;
                } else {
                    self.turn.stage = Stage::Spin;
                }
                Outcome::Snapped(record)
            },
            Stage::Spin => {
                game.spin(content, &facts.sight, i, self.turn.course.difficulty, facts.turned);
                self.turn.stage = Stage::Boost;
                Outcome::Spun
            },
            Stage::Boost => {
                let boost = game.boost_after_move(
                    content,
                    &facts.sight,
                    &facts.moves,
                    i,
                    &self.turn.readied,
                    self.turn.course.maneuver.distance,
                    self.turn.stance.bumped,
                );
                self.turn.stage = Stage::Act;
                Outcome::Boosted(boost)
            },
            Stage::Act => {
                let (acted, tokens, blast) = game.take_action(
                    content,
                    &facts.sight,
                    &facts.moves,
                    &facts.salvo,
                    i,
                    &self.turn.readied,
                    self.turn.stance,
                    dice,
                );
                self.turn.acted = acted;
                self.turn.stage = Stage::Second;
                Outcome::Acted(acted, tokens, blast)
            },
            Stage::Second => {
                let (second, tokens) = game.second_action(
                    content,
                    &facts.sight,
                    &facts.moves,
                    i,
                    &self.turn.readied,
                    self.turn.acted,
                );
                if second.is_some() {
                    self.turn.stage = Stage::Tire;
                } else {
                    self.pass_on();
                }
                Outcome::Seconded(second, tokens)
            },
            Stage::Tire => {
                game.tire(content, &facts.sight, i, self.turn.readied.second);
                self.pass_on();
                Outcome::Tired
            },
            _ => Outcome::Nothing,
        }
    }

    fn close_on(
        &mut self,
        game: &mut GameState,
        content: &Content,
        facts: &Facts,
        dice: &mut Dice,
    ) -> (outcome: Outcome)
        requires
            old(game)@.known(*content),
            old(self)@.wf(old(game)@.ships.len()),
            !old(self)@.moving(),
        ensures
            (Play { game: final(game)@, dice: final(dice)@ }, final(self)@, outcome@) == (Play {
                game: old(game)@,
                dice: old(dice)@,
            }).closing_step(*content, *facts, old(self)@),
            final(game)@.frame() == old(game)@.frame(),
    {
        reveal(Play::closing_step);
        let n: usize = game.ships.len();
        match self.turn.stage {
            Stage::Gather => {
                self.holes = game.black_holes();
                if self.holes.len() > 0 && n > 0 {
                    self.turn.stage = Stage::Pull;
                    self.turn.other = 0;
                    self.turn.hole = 0;
                } else {
                    self.turn.stage = Stage::Explode;
                }
                Outcome::Gathered
            },
            Stage::Pull => {
                let hole: u32 = self.holes[self.turn.hole].id;
                let pull = game.gravity_pull(hole, self.turn.other, &facts.drag);
                if self.turn.other + 1 < n {
                    self.turn.other = self.turn.other + 1;
                } else if self.turn.hole < self.holes.len() - 1 {
                    self.turn.other = 0;
                    self.turn.hole = self.turn.hole + 1;
                } else {
                    self.turn.stage = Stage::Explode;
                }
                Outcome::Pulled(pull)
            },
            Stage::Explode => {
                let done = game.explode_bombs(content, &facts.sight, &facts.within, dice);
                self.turn.stage = Stage::Burn;
                Outcome::Exploded(done)
            },
            Stage::Burn => {
                game.burn_consoles(content, dice);
                self.turn.stage = Stage::Over;
                Outcome::Burned
            },
            _ => Outcome::Nothing,
        }
    }

    /// One step of the Activation phase, with what was measured for it.
    pub fn step(
        &mut self,
        game: &mut GameState,
        content: &Content,
        facts: &Facts,
        dice: &mut Dice,
    ) -> (outcome: Outcome)
        requires
            old(game)@.known(*content),
            old(self)@.wf(old(game)@.ships.len()),
            old(self)@.turn.stage == Stage::Reveal ==> {
                let s = old(game)@.ships[old(self)@.mover() as int];
                s.plan is Some && s.plan->0 < content.dial(s.class).len()
            },
            old(self)@.turn.stage == Stage::Fly ==> facts.flight.wf(),
        ensures
            (Play { game: final(game)@, dice: final(dice)@ }, final(self)@, outcome@) == (Play {
                game: old(game)@,
                dice: old(dice)@,
            }).stepped_on(*content, *facts, old(self)@),
            match outcome {
                Outcome::Acted(acted, _, blast) => blast_is(
                    blast,
                    outcome@->Acted_2,
                    acted.action,
                    facts.salvo,
                    old(game)@,
                    old(self)@.mover() as int,
                ),
                _ => true,
            },
            final(self)@.wf(final(game)@.ships.len()),
            final(game)@.frame() == old(game)@.frame(),
    {
        proof {
            assert(game@.ships.len() == game.ships.len());
            assert(self@.order.len() == self.order.len());
            assert(self@.holes.len() == self.holes.len());
            if self@.turn.stage != Stage::Over {
                the_activation_phase_ends(
                    Play { game: game@, dice: dice@ },
                    *content,
                    *facts,
                    self@,
                );
            } else {
                reveal(Play::closing_step);
            }
            steps_speak_of_actions_when_they_act(
                Play { game: game@, dice: dice@ },
                *content,
                *facts,
                self@,
            );
        }
        match self.turn.stage {
            Stage::Reveal | Stage::Rotate | Stage::Ready | Stage::Fly | Stage::Cross | Stage::Settle
            | Stage::Mines => self.move_on(game, content, facts, dice),
            Stage::Stun | Stage::Snap | Stage::Spin | Stage::Boost | Stage::Act | Stage::Second
            | Stage::Tire => self.act_on(game, content, facts, dice),
            _ => self.close_on(game, content, facts, dice),
        }
    }
}

proof fn steps_speak_of_actions_when_they_act(
    p: Play,
    content: Content,
    facts: Facts,
    a: Progress,
)
    ensures
        !(p.moving_step(content, facts, a).2 is Acted),
        !(p.closing_step(content, facts, a).2 is Acted),
{
    reveal(Play::moving_step);
    reveal(Play::closing_step);
}

} // verus!
