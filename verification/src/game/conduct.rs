//! The Perform Action step of the ship that moved.

#![verifier::loop_isolation(false)]

use vstd::prelude::*;

use crate::action::{ActionKind, ActionResult, BoostDir, PlannedAction, SecondActionKind};
use crate::bombs::{BombHit, BombKind, BombToken};
use crate::crit::{has_crit, CritEffect};
use crate::data::Content;
use crate::dice::Dice;
use crate::event::Event;
use crate::game::actions::{rolls_dice, Moves};
use crate::game::blasts::{Salvo, SeismicBlast};
use crate::game::cards::has_icon;
use crate::game::flight::Readied;
use crate::game::planning::{repositions, turning};
use crate::game::state::{Game, GameState, Play};
use crate::pilot::PilotAbility;
use crate::ship::ShipModel;
use crate::sight::Sight;
use crate::upgrade::UpgradeEffect;

verus! {

broadcast use crate::game::state::framing;

/// What came of a move that bears on the action.
#[derive(Debug, Clone, Copy, PartialEq, Eq, Structural)]
pub struct Stance {
    /// The stress before the maneuver's own.
    pub stress_before: u8,
    pub bumped: bool,
    pub on_rock: bool,
    pub netted: bool,
}

/// The action of the Perform Action step.
#[derive(Debug, Clone, Copy, PartialEq, Eq, Structural)]
pub struct Acted {
    pub action: PlannedAction,
    pub result: ActionResult,
    /// Nothing forfeited the action.
    pub attempted: bool,
}

/// Does the first action grant the second: Darth Vader (always), Push the
/// Limit and Experimental Interface (after a performed action), Jake Farrell
/// (a reposition after a focus action)?
pub open spec fn grants(second: Option<SecondActionKind>, acted: Acted) -> bool {
    let performed = acted.result == ActionResult::Performed;
    acted.attempted && match second {
        Some(SecondActionKind::TwoActions) => true,
        Some(SecondActionKind::FreeBarAction) => performed && acted.action != PlannedAction::Pass,
        Some(SecondActionKind::RepositionAfterFocus) => performed && acted.action
            == PlannedAction::Focus,
        Some(SecondActionKind::CardActionThenStress) => performed && acted.action
            != PlannedAction::Pass,
        _ => false,
    }
}

impl Game {
    /// "Snap" Wexley may boost: after a 2-4 speed maneuver when not touching
    /// a ship.
    pub open spec fn boosts_free(
        self,
        content: Content,
        i: int,
        readied: Readied,
        distance: u8,
        bumped: bool,
    ) -> bool {
        readied.second == Some(SecondActionKind::BoostAfterMove) && 2 <= distance <= 4 && !bumped
            && readied.planned2 is Some && readied.planned2->0 is Boost
            && self.ships[i].free_to_act(content)
    }

    /// The free boost of ship `i` before the Perform Action step.
    #[verifier::opaque]
    pub open spec fn boosted_free(
        self,
        content: Content,
        sight: Sight,
        moves: Moves,
        i: int,
        readied: Readied,
        distance: u8,
        bumped: bool,
    ) -> (Game, Option<(PlannedAction, ActionResult)>) {
        if self.boosts_free(content, i, readied, distance, bumped) {
            let a = readied.planned2->0;
            let (g, r, _) = self.performing(content, sight, moves, i, a);
            (g.saying(Event::FreeBoost(i as usize)), Some((a, r)))
        } else {
            (self, None)
        }
    }

    /// The stress that counts for the action of ship `i`. Pattern Analyzer:
    /// the maneuver's own lands after the action.
    pub open spec fn felt_stress(self, content: Content, i: int, stance: Stance) -> u8 {
        if self.has(content, i, UpgradeEffect::ResolveStressAfterAction) {
            stance.stress_before
        } else {
            self.ships[i].stress
        }
    }

    /// Primed Thrusters: boosts and rolls under 3 stress.
    pub open spec fn primed(self, content: Content, i: int, stress: u8, a: PlannedAction) -> bool {
        stress < 3 && self.has(content, i, UpgradeEffect::StressAllowsRepositionUnder3)
            && repositions(a)
    }

    /// What forfeits the action: destruction, stress, bumping, an asteroid, a
    /// net, or, for an action of the bar, damaged sensors.
    pub open spec fn forfeit(self, content: Content, i: int, stance: Stance, a: PlannedAction) -> Option<
        ActionResult,
    > {
        let stress = self.felt_stress(content, i, stance);
        if self.ships[i].destroyed {
            Some(ActionResult::Failed)
        } else if stress > 0 && !self.primed(content, i, stress, a) && !self.can(
            content,
            i,
            PilotAbility::ActionsWhileStressed,
        ) {
            Some(ActionResult::SkippedStressed)
        } else if stance.bumped {
            Some(ActionResult::SkippedBumped)
        } else if stance.on_rock {
            Some(ActionResult::SkippedObstacle)
        } else if stance.netted {
            Some(ActionResult::SkippedNetted)
        } else if a.needs() is Some && self.ships[i].crits.contains(
            CritEffect::DamagedSensorArray,
        ) {
            Some(ActionResult::SkippedDamaged)
        } else {
            None
        }
    }

    /// The second action of ship `i`, where the first grants it.
    #[verifier::opaque]
    pub open spec fn seconded(
        self,
        content: Content,
        sight: Sight,
        moves: Moves,
        i: int,
        readied: Readied,
        acted: Acted,
    ) -> (Game, Option<(PlannedAction, ActionResult)>, Seq<BombToken>) {
        if grants(readied.second, acted) && readied.planned2 is Some
            && self.ships[i].free_to_act(content) {
            let a = readied.planned2->0;
            let (g, r, tokens) = self.performing(content, sight, moves, i, a);
            (g, Some((a, r)), tokens)
        } else {
            (self, None, Seq::empty())
        }
    }

    /// What a second action costs: Push the Limit and Experimental Interface
    /// bring stress.
    #[verifier::opaque]
    pub open spec fn tired(
        self,
        content: Content,
        sight: Sight,
        i: int,
        second: Option<SecondActionKind>,
    ) -> Game {
        if second == Some(SecondActionKind::FreeBarAction) {
            self.saying(Event::PushTheLimit(i as usize)).stressed(content, sight, i)
        } else if second == Some(SecondActionKind::CardActionThenStress) {
            let card = self.card(content, i, UpgradeEffect::ExtraActionThenStress);
            let g = if card is Some {
                self.marking(i, card->0)
            } else {
                self
            };
            g.saying(Event::ExperimentalInterface(i as usize)).stressed(content, sight, i)
        } else {
            self
        }
    }
}

impl Play {
    /// The action that ship `i` attempts, whatever kind it is.
    #[verifier::opaque]
    pub open spec fn attempted(
        self,
        content: Content,
        sight: Sight,
        moves: Moves,
        salvo: Salvo,
        i: int,
        a: PlannedAction,
    ) -> (Play, ActionResult, Seq<BombToken>, Option<Seq<BombHit>>) {
        match a {
            PlannedAction::CardActionAt(card, obstacle) => {
                let (p, hits) = self.seismic(content, sight, salvo, i, card, obstacle);
                (
                    p,
                    if hits is Some {
                        ActionResult::Performed
                    } else {
                        ActionResult::Failed
                    },
                    Seq::empty(),
                    hits,
                )
            },
            PlannedAction::CardAction(card) => if rolls_dice(content, card) {
                let (p, r) = self.dice_action(content, sight, i, card);
                (p, r, Seq::empty(), None)
            } else {
                let (g, r, tokens) = self.game.performing(content, sight, moves, i, a);
                (self.at(g), r, tokens, None)
            },
            _ => {
                let (g, r, tokens) = self.game.performing(content, sight, moves, i, a);
                (self.at(g), r, tokens, None)
            },
        }
    }

    /// Daredevil without the boost icon rolls for damage after a performed
    /// turn.
    pub open spec fn dared(
        self,
        content: Content,
        i: int,
        readied: Readied,
        a: PlannedAction,
        r: ActionResult,
    ) -> Play {
        if r == ActionResult::Performed && readied.daredevil && !readied.turn_boost && a is Boost
            && turning(a->Boost_0) && !self.game.ships[i].bar(content).contains(ActionKind::Boost) {
            self.daredevil(content, i)
        } else {
            self
        }
    }

    /// The Perform Action step of ship `i`.
    #[verifier::opaque]
    pub open spec fn acted(
        self,
        content: Content,
        sight: Sight,
        moves: Moves,
        salvo: Salvo,
        i: int,
        readied: Readied,
        stance: Stance,
    ) -> (Play, Acted, Seq<BombToken>, Option<Seq<BombHit>>) {
        let s = self.game.ships[i];
        let a = match s.planned_action {
            Some(a) => a,
            None => PlannedAction::Pass,
        };
        let p = self.at(self.game.with_ship(i, ShipModel { planned_action: None, ..s }));
        match p.game.forfeit(content, i, stance, a) {
            Some(r) => (
                p,
                Acted { action: a, result: r, attempted: false },
                Seq::empty(),
                None,
            ),
            None => {
                let (q, r, tokens, hits) = p.attempted(content, sight, moves, salvo, i, a);
                (
                    q.dared(content, i, readied, a, r),
                    Acted { action: a, result: r, attempted: true },
                    tokens,
                    hits,
                )
            },
        }
    }
}

/// A ship that bumped, or that is stressed and has no card or ability to act
/// all the same, performs no action.
pub proof fn bumped_and_stressed_ships_do_not_act(
    g: Game,
    content: Content,
    i: int,
    stance: Stance,
    a: PlannedAction,
)
    requires
        0 <= i < g.ships.len(),
        stance.bumped || (g.ships[i].stress > 0 && !g.has(
            content,
            i,
            UpgradeEffect::ResolveStressAfterAction,
        ) && !g.has(content, i, UpgradeEffect::StressAllowsRepositionUnder3) && !g.can(
            content,
            i,
            PilotAbility::ActionsWhileStressed,
        )),
    ensures
        g.forfeit(content, i, stance, a) is Some,
        g.forfeit(content, i, stance, a) != Some(ActionResult::Performed),
{
}

impl GameState {
    /// "Snap" Wexley: a free boost after a 2-4 speed maneuver when not
    /// touching a ship, before the Perform Action step.
    pub fn boost_after_move(
        &mut self,
        content: &Content,
        sight: &Sight,
        moves: &Moves,
        i: usize,
        readied: &Readied,
        distance: u8,
        bumped: bool,
    ) -> (boost: Option<(PlannedAction, ActionResult)>)
        requires
            i < old(self)@.ships.len(),
            old(self)@.known(*content),
        ensures
            (final(self)@, boost) == old(self)@.boosted_free(
                *content,
                *sight,
                *moves,
                i as int,
                *readied,
                distance,
                bumped,
            ),
            final(self)@.frame() == old(self)@.frame(),
    {
        reveal(Game::boosted_free);
        let planned = match readied.planned2 {
            Some(PlannedAction::Boost(dir)) => PlannedAction::Boost(dir),
            _ => return None,
        };
        if readied.second == Some(SecondActionKind::BoostAfterMove) && 2 <= distance && distance
            <= 4 && !bumped && self.may_act_freely(content, i) {
            let (r, _) = self.perform_action(content, sight, moves, i, planned);
            self.say(Event::FreeBoost(i));
            Some((planned, r))
        } else {
            None
        }
    }

    fn find_forfeit(&self, content: &Content, i: usize, stance: Stance, planned: PlannedAction) -> (
    r: Option<ActionResult>)
        requires
            i < self@.ships.len(),
        ensures
            r == self@.forfeit(*content, i as int, stance, planned),
    {
        // Pattern Analyzer: this maneuver's stress lands after the
        // action; Primed Thrusters: boosts and rolls under 3 stress.
        let stress: u8 = if self.has_effect(content, i, UpgradeEffect::ResolveStressAfterAction) {
            stance.stress_before
        } else {
            self.ships[i].stress
        };
        let reposition = match planned {
            PlannedAction::Boost(_) | PlannedAction::BarrelRoll(_)
            | PlannedAction::BarrelRollFar(_) | PlannedAction::BarrelRollBank(_, _) => true,
            _ => false,
        };
        let primed = stress < 3 && reposition && self.has_effect(
            content,
            i,
            UpgradeEffect::StressAllowsRepositionUnder3,
        );
        if self.ships[i].destroyed {
            Some(ActionResult::Failed)
        } else if stress > 0 && !primed && !self.has_ability(
            content,
            i,
            PilotAbility::ActionsWhileStressed,
        ) {
            Some(ActionResult::SkippedStressed)
        } else if stance.bumped {
            Some(ActionResult::SkippedBumped)
        } else if stance.on_rock {
            Some(ActionResult::SkippedObstacle)
        } else if stance.netted {
            Some(ActionResult::SkippedNetted)
        } else if planned.kind().is_some() && has_crit(
            self.ships[i].crits.as_slice(),
            CritEffect::DamagedSensorArray,
        ) {
            Some(ActionResult::SkippedDamaged)
        } else {
            None
        }
    }

    fn attempt(
        &mut self,
        content: &Content,
        sight: &Sight,
        moves: &Moves,
        salvo: &Salvo,
        i: usize,
        planned: PlannedAction,
        dice: &mut Dice,
    ) -> (done: (ActionResult, Vec<BombToken>, Option<SeismicBlast>))
        requires
            i < old(self)@.ships.len(),
            old(self)@.known(*content),
        ensures
            ({
                let (p, r, tokens, hits) = (Play {
                    game: old(self)@,
                    dice: old(dice)@,
                }).attempted(*content, *sight, *moves, *salvo, i as int, planned);
                &&& (Play { game: final(self)@, dice: final(dice)@ }) == p
                &&& done.0 == r
                &&& done.1@ == tokens
                &&& blast_is(done.2, hits, planned, *salvo, old(self)@, i as int)
            }),
            final(self)@.frame() == old(self)@.frame(),
    {
        reveal(Play::attempted);
        let none: Vec<BombToken> = Vec::new();
        assert(none@ =~= Seq::empty());
        match planned {
            PlannedAction::CardActionAt(card, obstacle) => {
                let (r, blast) = self.fire_seismic_torpedo(
                    content,
                    sight,
                    salvo,
                    i,
                    card,
                    obstacle,
                    dice,
                );
                (r, none, blast)
            },
            PlannedAction::CardAction(card) => {
                if Self::needs_dice(content, card) {
                    (self.dice_card_action(content, sight, i, card, dice), none, None)
                } else {
                    let (r, tokens) = self.perform_action(content, sight, moves, i, planned);
                    (r, tokens, None)
                }
            },
            _ => {
                let (r, tokens) = self.perform_action(content, sight, moves, i, planned);
                (r, tokens, None)
            },
        }
    }

    fn dare(
        &mut self,
        content: &Content,
        i: usize,
        readied: &Readied,
        planned: PlannedAction,
        r: ActionResult,
        dice: &mut Dice,
    )
        requires
            i < old(self)@.ships.len(),
            old(self)@.known(*content),
        ensures
            (Play { game: final(self)@, dice: final(dice)@ }) == (Play {
                game: old(self)@,
                dice: old(dice)@,
            }).dared(*content, i as int, *readied, planned, r),
            final(self)@.frame() == old(self)@.frame(),
    {
        assert(self@.frame().ships[i as int] == self@.ships[i as int].identity());
        let turn = match planned {
            PlannedAction::Boost(dir) => dir == BoostDir::TurnLeft || dir == BoostDir::TurnRight,
            _ => false,
        };
        if r == ActionResult::Performed && readied.daredevil && !readied.turn_boost && turn {
            let bar = self.action_bar(content, &self.ships[i]);
            if !has_icon(&bar, ActionKind::Boost) {
                self.daredevil_damage(content, i, dice);
            }
        }
    }

    /// Perform Action step: one action, right after moving. Stress,
    /// bumping, destruction, or damaged sensors all forfeit it.
    pub fn take_action(
        &mut self,
        content: &Content,
        sight: &Sight,
        moves: &Moves,
        salvo: &Salvo,
        i: usize,
        readied: &Readied,
        stance: Stance,
        dice: &mut Dice,
    ) -> (done: (Acted, Vec<BombToken>, Option<SeismicBlast>))
        requires
            i < old(self)@.ships.len(),
            old(self)@.known(*content),
        ensures
            ({
                let (p, acted, tokens, hits) = (Play { game: old(self)@, dice: old(dice)@ }).acted(
                    *content,
                    *sight,
                    *moves,
                    *salvo,
                    i as int,
                    *readied,
                    stance,
                );
                &&& (Play { game: final(self)@, dice: final(dice)@ }) == p
                &&& done.0 == acted
                &&& done.1@ == tokens
                &&& blast_is(done.2, hits, acted.action, *salvo, old(self)@, i as int)
            }),
            final(self)@.frame() == old(self)@.frame(),
    {
        reveal(Play::acted);
        let planned = match self.ships[i].planned_action {
            Some(a) => a,
            None => PlannedAction::Pass,
        };
        self.ship_mut(i).planned_action = None;
        match self.find_forfeit(content, i, stance, planned) {
            Some(result) => {
                let none: Vec<BombToken> = Vec::new();
                assert(none@ =~= Seq::empty());
                (Acted { action: planned, result, attempted: false }, none, None)
            },
            None => {
                let (result, tokens, blast) = self.attempt(
                    content,
                    sight,
                    moves,
                    salvo,
                    i,
                    planned,
                    dice,
                );
                self.dare(content, i, readied, planned, result, dice);
                (Acted { action: planned, result, attempted: true }, tokens, blast)
            },
        }
    }

    /// Second action: Darth Vader (always), Push the Limit (after a
    /// performed action), Jake Farrell (a reposition after a focus action),
    /// Experimental Interface (a card action).
    pub fn second_action(
        &mut self,
        content: &Content,
        sight: &Sight,
        moves: &Moves,
        i: usize,
        readied: &Readied,
        acted: Acted,
    ) -> (done: (Option<(PlannedAction, ActionResult)>, Vec<BombToken>))
        requires
            i < old(self)@.ships.len(),
            old(self)@.known(*content),
        ensures
            (final(self)@, done.0, done.1@) == old(self)@.seconded(
                *content,
                *sight,
                *moves,
                i as int,
                *readied,
                acted,
            ),
            final(self)@.frame() == old(self)@.frame(),
    {
        reveal(Game::seconded);
        let none: Vec<BombToken> = Vec::new();
        assert(none@ =~= Seq::empty());
        let performed = acted.result == ActionResult::Performed;
        let granted = acted.attempted && match readied.second {
            Some(SecondActionKind::TwoActions) => true,
            Some(SecondActionKind::FreeBarAction) => performed && acted.action
                != PlannedAction::Pass,
            Some(SecondActionKind::RepositionAfterFocus) => performed && acted.action
                == PlannedAction::Focus,
            Some(SecondActionKind::CardActionThenStress) => performed && acted.action
                != PlannedAction::Pass,
            _ => false,
        };
        if granted {
            if let Some(a) = readied.planned2 {
                if self.may_act_freely(content, i) {
                    let (r, tokens) = self.perform_action(content, sight, moves, i, a);
                    return (Some((a, r)), tokens);
                }
            }
        }
        (None, none)
    }

    /// What the second action of ship `i` costs it.
    pub fn tire(
        &mut self,
        content: &Content,
        sight: &Sight,
        i: usize,
        second: Option<SecondActionKind>,
    )
        requires
            i < old(self)@.ships.len(),
        ensures
            final(self)@ == old(self)@.tired(*content, *sight, i as int, second),
            final(self)@.frame() == old(self)@.frame(),
    {
        reveal(Game::tired);
        if second == Some(SecondActionKind::FreeBarAction) {
            self.say(Event::PushTheLimit(i));
            self.gain_stress(content, sight, i);
        } else if second == Some(SecondActionKind::CardActionThenStress) {
            if let Some(card) = self.card_with_effect(
                content,
                i,
                UpgradeEffect::ExtraActionThenStress,
            ) {
                self.ship_mut(i).used_round.push(card);
            }
            self.say(Event::ExperimentalInterface(i));
            self.gain_stress(content, sight, i);
        }
    }
}

/// The blast of a Seismic Torpedo that an action fired, if it fired one.
pub open spec fn blast_is(
    blast: Option<SeismicBlast>,
    hits: Option<Seq<BombHit>>,
    a: PlannedAction,
    salvo: Salvo,
    g: Game,
    i: int,
) -> bool {
    match hits {
        None => blast is None,
        Some(h) => blast is Some && blast->0.detonation.hits@ == h && match a {
            PlannedAction::CardActionAt(card, obstacle) => blast->0.obstacle == obstacle
                && blast->0.detonation.token == (BombToken {
                id: obstacle,
                kind: BombKind::SeismicTorpedo,
                card,
                pose: salvo.pose,
                owner: g.ships[i].owner,
            }),
            _ => false,
        },
    }
}

} // verus!
