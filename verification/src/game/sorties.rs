//! A ship's move: the dial, the template, the stress and the action step.

use vstd::prelude::*;

use crate::action::{ActionResult, PlannedAction, SecondActionKind};
use crate::bombs::{BombKind, BombToken, DropSpots};
use crate::crit::{colored, CritEffect};
use crate::data::Content;
use crate::dice::count;
use crate::game::blasts::marked;
use crate::game::conduct::{grants, Acted, Stance};
use crate::game::dial::Course;
use crate::game::flight::{a_ship_backs_up_to_the_last_clear_pose, Flight, Step};
use crate::game::hazards::{others_stay, stress_is_received};
use crate::game::plain::{
    a_plain_ship_stays_plain, a_ship_is_plain, no_ability_counts, no_card_counts, no_effect_counts,
};
use crate::game::settling::{mines_touched, without_token};
use crate::game::state::Game;
use crate::maneuver::{Difficulty, Maneuver, Steer};
use crate::pilot::PilotAbility;
use crate::ship::ShipModel;
use crate::sight::Sight;
use crate::upgrade::UpgradeEffect;

verus! {

/// The path that a flight follows: a maneuver that turns the ship around is
/// flown plainly where its end is taken.
pub open spec fn followed(flight: Flight) -> Seq<Step> {
    if flight.path@.last().blocked && flight.plain is Some {
        flight.plain->0@
    } else {
        flight.path@
    }
}

/// The move ends at place `k` of the path: the last pose that is not taken, or
/// where the ship began. Its dial is spent. Off the board it is destroyed, and
/// without a mission it has not escaped. Nobody else is touched.
pub open spec fn ended_at(g: Game, h: Game, i: int, path: Seq<Step>, k: int) -> bool {
    let (s, t) = (g.ships[i], h.ships[i]);
    &&& 0 <= k < path.len()
    &&& k > 0 ==> !path[k].blocked
    &&& forall|j: int| k < j < path.len() ==> (#[trigger] path[j]).blocked
    &&& t.pose == Some(path[k].pose)
    &&& t.plan is None
    &&& t.destroyed == (s.destroyed || path[k].off)
    &&& g.mission is None ==> t.escaped == (s.escaped && !path[k].off)
    &&& t.hull == s.hull && t.shields == s.shields && t.stress == s.stress
    &&& t.focus == s.focus && t.evade == s.evade && t.crits == s.crits
    &&& t.planned_action == s.planned_action
    &&& others_stay(g, h, i)
}

/// A ship ends on the last clear pose of its path.
pub proof fn a_ship_ends_on_its_last_clear_pose(g: Game, i: int, flight: Flight)
    requires
        0 <= i < g.ships.len(),
        flight.wf(),
    ensures
        exists|k: int| #[trigger] ended_at(g, g.flown(i, flight), i, followed(flight), k),
{
    reveal(Game::flown);
    a_ship_backs_up_to_the_last_clear_pose(flight);
    assert(flight.used() == followed(flight));
    assert(ended_at(g, g.flown(i, flight), i, followed(flight), flight.stop()));
}

/// Without cards about, a red maneuver costs one stress token, a green one
/// takes one away, and a white one does neither; nothing else changes.
pub proof fn maneuvers_leave_their_stress(
    g: Game,
    content: Content,
    sight: Sight,
    i: int,
    course: Course,
)
    requires
        g.plain(content),
        0 <= i < g.ships.len(),
        g.ships[i].card_uses.len() == 0,
        g.ships[i].stress < u8::MAX,
        course.rush is None,
    ensures
        ({
            let (s, h) = (g.ships[i], g.settled(content, sight, i, course));
            let t = h.ships[i];
            &&& course.difficulty == Difficulty::Hard ==> t.stress == s.stress + 1
            &&& course.difficulty == Difficulty::Normal ==> t.stress == s.stress
            &&& course.difficulty == Difficulty::Easy ==> t.stress == if s.stress > 0 {
                s.stress - 1
            } else {
                0
            }
            &&& t == ShipModel { stress: t.stress, ..s }
            &&& others_stay(g, h, i)
        }),
{
    broadcast use {no_effect_counts, no_ability_counts};

    reveal(Game::settled);
    a_ship_is_plain(g, content, i);
    if course.difficulty == Difficulty::Hard {
        stress_is_received(g, content, sight, i);
        let h = g.stressed(content, sight, i);
        assert(!h.has(content, i, UpgradeEffect::LockAfterRed));
    }
    if course.difficulty == Difficulty::Easy {
        let s = g.ships[i].less_stress();
        a_plain_ship_stays_plain(g, content, i, s);
        let h = g.unstressed(content, i);
        assert(h.plain(content));
        reveal(Game::systems);
        reveal(Game::landoed);
        reveal(Game::recharged);
        reveal(Game::night_beast);
        assert(!h.has(content, i, UpgradeEffect::CrewFriendlyLockAfterGreen));
        assert(!h.can(content, i, PilotAbility::FriendlyFreeActionAfterGreen));
        assert(!h.has(content, i, UpgradeEffect::RecoverShieldOnGreen));
        assert(!h.can(content, i, PilotAbility::FreeFocusAfterGreen));
    }
}

/// A maneuver keeps the color it has on the dial, but for the damage cards: a
/// turn is red with Damaged Engine, a bank with Thrust Control Fire.
pub proof fn damage_reddens_turns_and_banks(crits: Seq<CritEffect>, m: Maneuver)
    ensures
        (m.steer == Steer::TurnLeft || m.steer == Steer::TurnRight) && crits.contains(
            CritEffect::DamagedEngine,
        ) ==> colored(crits, m) == Difficulty::Hard,
        (m.steer == Steer::BankLeft || m.steer == Steer::BankRight) && crits.contains(
            CritEffect::ThrustControlFire,
        ) ==> colored(crits, m) == Difficulty::Hard,
        m.steer != Steer::TurnLeft && m.steer != Steer::TurnRight && m.steer != Steer::BankLeft
            && m.steer != Steer::BankRight ==> colored(crits, m) == m.difficulty,
        !crits.contains(CritEffect::DamagedEngine) && !crits.contains(
            CritEffect::ThrustControlFire,
        ) ==> colored(crits, m) == m.difficulty,
        m.difficulty == Difficulty::Hard ==> colored(crits, m) == Difficulty::Hard,
{
}

/// A ship without cards, whose side has no reds made white, flies a maneuver
/// at the color its damage cards leave it.
pub proof fn plain_maneuvers_keep_their_color(g: Game, content: Content, i: int, m: Maneuver)
    requires
        g.plain(content),
        0 <= i < g.ships.len(),
        !g.white_reds[g.ships[i].owner.0 as int],
    ensures
        g.difficulty(content, i, m) == (
            colored(g.ships[i].crits, m),
            None::<crate::upgrade::UpgradeId>,
        ),
{
    broadcast use {no_effect_counts, no_ability_counts, no_card_counts};

    reveal(Game::difficulty);
}

/// Reds made white are flown white, and what is not red is flown as it is.
pub proof fn white_reds_are_white(g: Game, content: Content, i: int, m: Maneuver)
    requires
        g.plain(content),
        0 <= i < g.ships.len(),
        g.white_reds[g.ships[i].owner.0 as int],
    ensures
        ({
            let color = colored(g.ships[i].crits, m);
            g.difficulty(content, i, m).0 == if color == Difficulty::Hard {
                Difficulty::Normal
            } else {
                color
            }
        }),
{
    broadcast use {no_effect_counts, no_ability_counts, no_card_counts};

    reveal(Game::difficulty);
}

/// A ship without cards that is neither ionized nor stressed flies what it has
/// dialed, at the color its damage leaves it.
pub proof fn the_dial_is_flown(g: Game, content: Content, i: int, spots: DropSpots)
    requires
        g.plain(content),
        0 <= i < g.ships.len(),
        !g.white_reds[g.ships[i].owner.0 as int],
        g.ships[i].ion == 0,
        g.ships[i].stress == 0,
        g.ships[i].plan is Some,
    ensures
        ({
            let (h, c, dropped) = g.revealed(content, i, spots);
            let m = content.dial(g.ships[i].class)[g.ships[i].plan->0 as int];
            &&& c.maneuver == m
            &&& c.difficulty == colored(g.ships[i].crits, m)
            &&& c.rush is None
            &&& dropped.len() == 0
            &&& h.ships[i] == ShipModel { bomb: None, ..g.ships[i] }
            &&& h.bombs == g.bombs
            &&& others_stay(g, h, i)
        }),
{
    reveal(Game::revealed);
    reveal(Game::bombing);
    plain_maneuvers_keep_their_color(
        g,
        content,
        i,
        content.dial(g.ships[i].class)[g.ships[i].plan->0 as int],
    );
    a_ship_is_plain(g, content, i);
}

/// An ionized ship drifts a white straight 1 whatever it has dialed, and loses
/// all its ion tokens.
pub proof fn ions_override_the_dial(g: Game, content: Content, i: int, spots: DropSpots)
    requires
        g.plain(content),
        0 <= i < g.ships.len(),
        g.ships[i].ion > 0,
    ensures
        ({
            let (h, c, dropped) = g.revealed(content, i, spots);
            &&& c.maneuver.steer == Steer::Straight && c.maneuver.distance == 1
            &&& c.difficulty == Difficulty::Normal
            &&& h.ships[i].ion == 0
            &&& h.ships[i] == ShipModel { bomb: None, ion: 0, ..g.ships[i] }
            &&& others_stay(g, h, i)
        }),
{
    reveal(Game::revealed);
    reveal(Game::bombing);
    a_ship_is_plain(g, content, i);
}

/// A bomb planned with the dial is dropped when the dial is revealed, if the
/// ship carries it and it is no mine, or the pilot may drop mines so. Nothing
/// else is dropped, and the plan to drop is over.
pub proof fn bombs_drop_with_the_dial(g: Game, content: Content, i: int, spots: DropSpots)
    requires
        0 <= i < g.ships.len(),
        g.next_bomb_id + 3 <= u32::MAX,
    ensures
        ({
            let s = g.ships[i];
            let (h, dropped) = g.bombing(content, i, spots);
            let mines = g.can(content, i, PilotAbility::FreeBombActionOnRevealOrAction);
            let kind = match s.bomb {
                Some(card) => if s.upgrades.contains(card) {
                    match content.does(card) {
                        Some(UpgradeEffect::BombOnRevealProton) => Some(BombKind::Proton),
                        Some(UpgradeEffect::BombOnRevealSeismic) => Some(BombKind::Seismic),
                        Some(UpgradeEffect::BombOnRevealIon) => Some(BombKind::Ion),
                        Some(UpgradeEffect::BombOnRevealThermal) => Some(BombKind::Thermal),
                        Some(UpgradeEffect::BombActionProximityMines) if mines => Some(
                            BombKind::ProximityMine,
                        ),
                        Some(UpgradeEffect::BombActionClusterMines) if mines => Some(
                            BombKind::ClusterMine,
                        ),
                        Some(UpgradeEffect::BombActionConnerNet) if mines => Some(
                            BombKind::ConnerNet,
                        ),
                        _ => None,
                    }
                } else {
                    None
                },
                None => None,
            };
            &&& h.ships[i].bomb is None
            &&& h.bombs == g.bombs + dropped
            &&& kind is None ==> dropped.len() == 0 && h.ships[i].upgrades == s.upgrades
            &&& kind is Some ==> dropped.len() == if kind == Some(BombKind::ClusterMine) {
                3nat
            } else {
                1nat
            }
            &&& forall|k: int|
                0 <= k < dropped.len() ==> Some((#[trigger] dropped[k]).kind) == kind && dropped[k]
                    .owner == s.owner
            &&& others_stay(g, h, i)
        }),
{
    reveal(Game::bombing);
}

/// A ship without cards or ability performs its action unless it is
/// destroyed, stressed, bumped, on an obstacle or in a net, or its sensors
/// are damaged and the action is one of the bar; the first of these is told.
pub proof fn actions_are_forfeited_for_a_reason(
    g: Game,
    content: Content,
    i: int,
    stance: Stance,
    a: PlannedAction,
)
    requires
        g.plain(content),
        0 <= i < g.ships.len(),
    ensures
        ({
            let s = g.ships[i];
            let lost = g.forfeit(content, i, stance, a);
            let blind = s.crits.contains(CritEffect::DamagedSensorArray) && a.needs() is Some;
            let calm = !s.destroyed && s.stress == 0;
            let clear = calm && !stance.bumped;
            &&& lost is None <==> clear && !stance.on_rock && !stance.netted && !blind
            &&& s.destroyed ==> lost == Some(ActionResult::Failed)
            &&& !s.destroyed && s.stress > 0 ==> lost == Some(ActionResult::SkippedStressed)
            &&& calm && stance.bumped ==> lost == Some(ActionResult::SkippedBumped)
            &&& clear && stance.on_rock ==> lost == Some(ActionResult::SkippedObstacle)
            &&& clear && !stance.on_rock && stance.netted ==> lost == Some(
                ActionResult::SkippedNetted,
            )
            &&& clear && !stance.on_rock && !stance.netted && blind ==> lost == Some(
                ActionResult::SkippedDamaged,
            )
        }),
{
    broadcast use {no_effect_counts, no_ability_counts};

}

/// Cards and abilities lift stress alone: Pattern Analyzer counts the stress
/// before the maneuver, Primed Thrusters lets repositions be made under three
/// tokens, and some pilots act while stressed.
pub proof fn stress_is_lifted_by_cards(
    g: Game,
    content: Content,
    i: int,
    stance: Stance,
    a: PlannedAction,
)
    requires
        0 <= i < g.ships.len(),
        !g.ships[i].destroyed,
        !stance.bumped,
        !stance.on_rock,
        !stance.netted,
        !g.ships[i].crits.contains(CritEffect::DamagedSensorArray),
    ensures
        ({
            let late = g.has(content, i, UpgradeEffect::ResolveStressAfterAction);
            let primed = g.has(content, i, UpgradeEffect::StressAllowsRepositionUnder3);
            let bold = g.can(content, i, PilotAbility::ActionsWhileStressed);
            let stress = if late {
                stance.stress_before
            } else {
                g.ships[i].stress
            };
            let moves = a is Boost || a is BarrelRoll || a is BarrelRollFar || a is BarrelRollBank;
            g.forfeit(content, i, stance, a) is None <==> stress == 0 || bold || (primed && moves
                && stress < 3)
        }),
{
}

/// Which first action earns which second: nothing does that was not
/// attempted, Darth Vader's always follows, Jake Farrell's follows a focus
/// action, and the others an action that was performed and no pass.
pub proof fn second_actions_are_earned(kind: SecondActionKind, acted: Acted)
    ensures
        ({
            let done = acted.attempted && acted.result == ActionResult::Performed;
            let earned = grants(Some(kind), acted);
            &&& !grants(None, acted)
            &&& !acted.attempted ==> !earned
            &&& kind == SecondActionKind::TwoActions ==> earned == acted.attempted
            &&& kind == SecondActionKind::FreeBarAction ==> earned == (done && acted.action
                != PlannedAction::Pass)
            &&& kind == SecondActionKind::CardActionThenStress ==> earned == (done && acted.action
                != PlannedAction::Pass)
            &&& kind == SecondActionKind::RepositionAfterFocus ==> earned == (done && acted.action
                == PlannedAction::Focus)
            &&& kind == SecondActionKind::RepositionAfterAttack || kind
                == SecondActionKind::BoostAfterMove || kind == SecondActionKind::RollOnGreenReveal
                ==> !earned
        }),
{
}

/// Push the Limit and Experimental Interface cost a stress token, and no other
/// second action does.
pub proof fn pushing_the_limit_is_stressful(
    g: Game,
    content: Content,
    sight: Sight,
    i: int,
    second: Option<SecondActionKind>,
)
    requires
        g.plain(content),
        0 <= i < g.ships.len(),
        g.ships[i].card_uses.len() == 0,
        g.ships[i].stress < u8::MAX,
    ensures
        ({
            let h = g.tired(content, sight, i, second);
            let (s, t) = (g.ships[i], h.ships[i]);
            &&& t.stress == s.stress + if second == Some(SecondActionKind::FreeBarAction) || second
                == Some(SecondActionKind::CardActionThenStress) {
                1int
            } else {
                0
            }
            &&& t == ShipModel { stress: t.stress, ..s }
            &&& others_stay(g, h, i)
        }),
{
    broadcast use no_card_counts;

    reveal(Game::tired);
    let push = crate::event::Event::PushTheLimit(i as usize);
    let experiment = crate::event::Event::ExperimentalInterface(i as usize);
    crate::game::plain::saying_keeps_plain(g, content, push);
    crate::game::plain::saying_keeps_plain(g, content, experiment);
    stress_is_received(g.saying(push), content, sight, i);
    stress_is_received(g.saying(experiment), content, sight, i);
}

/// Exactly the mines that a move touched go off, whatever they are.
pub proof fn touched_mines_go_off(all: Seq<BombToken>, touched: Seq<bool>, n: int, k: int)
    requires
        0 <= k < n <= all.len(),
    ensures
        ({
            let mine = all[k].kind == BombKind::ProximityMine || all[k].kind
                == BombKind::ClusterMine || all[k].kind == BombKind::ConnerNet;
            &&& mine && k < touched.len() && touched[k] ==> mines_touched(
                all,
                touched,
                n,
            ).contains(all[k])
            &&& forall|t: BombToken| #[trigger]
                mines_touched(all, touched, n).contains(t) ==> exists|j: int|
                    0 <= j < n && j < touched.len() && #[trigger] touched[j] && all[j] == t && (
                    t.kind == BombKind::ProximityMine || t.kind == BombKind::ClusterMine || t.kind
                        == BombKind::ConnerNet)
        }),
    decreases n,
{
    let m = mines_touched(all, touched, n);
    let rest = mines_touched(all, touched, n - 1);
    if k < n - 1 {
        touched_mines_go_off(all, touched, n - 1, k);
        if rest.contains(all[k]) {
            let x = choose|x: int| 0 <= x < rest.len() && rest[x] == all[k];
            assert(m[x] == all[k]);
        }
    } else {
        if n - 1 > 0 {
            touched_mines_go_off(all, touched, n - 1, 0);
        }
        if all[k].kind.mine() && marked(touched, k) {
            assert(m.last() == all[k]);
            assert(m.contains(all[k]));
        }
    }
    assert forall|t: BombToken| #[trigger] m.contains(t) implies exists|j: int|
        0 <= j < n && j < touched.len() && #[trigger] touched[j] && all[j] == t && (t.kind
            == BombKind::ProximityMine || t.kind == BombKind::ClusterMine || t.kind
            == BombKind::ConnerNet) by {
        let x = choose|x: int| 0 <= x < m.len() && m[x] == t;
        if x < rest.len() {
            assert(rest[x] == t);
            assert(rest.contains(t));
        } else {
            assert(touched[n - 1] && all[n - 1] == t);
        }
    }
}

/// A token that has gone off is off the board, and every other stays.
pub proof fn a_spent_token_leaves(all: Seq<BombToken>, id: u32, t: BombToken)
    ensures
        count(without_token(all, id), t) == if t.id == id {
            0
        } else {
            count(all, t)
        },
    decreases all.len(),
{
    if all.len() > 0 {
        a_spent_token_leaves(all.drop_last(), id, t);
        let rest = without_token(all.drop_last(), id);
        if all.last().id != id {
            crate::dice::count_push(rest, t, all.last());
        }
    }
}

/// A green maneuver flown with R2-D2 brings one lost shield back, and nothing
/// else; without the card, or with every shield up, it brings none.
pub proof fn r2d2_restores_one_shield(g: Game, content: Content, i: int)
    requires
        0 <= i < g.ships.len(),
    ensures
        ({
            let (s, h) = (g.ships[i], g.recharged(content, i));
            let t = h.ships[i];
            let due = !s.destroyed && s.shields < s.full_shields(content) && g.has(
                content,
                i,
                UpgradeEffect::RecoverShieldOnGreen,
            );
            &&& due ==> t.shields == s.shields + 1 && t.shields <= s.full_shields(content)
            &&& !due ==> t.shields == s.shields
            &&& t == ShipModel { shields: t.shields, ..s }
            &&& others_stay(g, h, i)
        }),
{
    reveal(Game::recharged);
}

} // verus!
