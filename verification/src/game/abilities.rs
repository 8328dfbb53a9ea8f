//! What abilities and cards answer to: cards that count, marks, stress,
//! reactions during a move, and damage that is turned aside.

use vstd::prelude::*;

use crate::action::{PlannedAction, SecondActionKind};
use crate::crit::CritEffect;
use crate::data::Content;
use crate::dice::count;
use crate::event::Event;
use crate::game::actions::Moves;
use crate::game::arsenal::{listed, minus, one_more};
use crate::game::cards::{
    actions, card_doing, carried, one_if, price, toggles, unused_card, untalented,
};
use crate::game::conduct::{Acted, Stance};
use crate::game::dial::{at_other_speed, faster, slower, Ends};
use crate::game::flight::Readied;
use crate::game::hazards::{damage_takes_a_shield_first, lost_hull, others_stay};
use crate::game::impact::Toll;
use crate::game::state::{Game, Play};
use crate::geometry::Pose;
use crate::maneuver::{Difficulty, Maneuver};
use crate::obstacle::Obstacle;
use crate::pick::{first, first_is_first, picked_obey};
use crate::pilot::PilotAbility;
use crate::ship::{PlayerId, ShipModel};
use crate::sight::Sight;
use crate::upgrade::{Slot, UpgradeEffect, UpgradeId};

verus! {

/// A player's side is the team of the seat; without teams each seat is a side
/// of its own.
pub proof fn sides_are_teams(g: Game, a: PlayerId, b: PlayerId)
    ensures
        a.0 < g.teams.len() ==> g.side(a) == g.teams[a.0 as int],
        g.teams.len() == 0 && a.0 < 256 ==> g.side(a) == a.0,
        g.friends(a, b) <==> g.side(a) == g.side(b),
{
}

/// Cards are counted by what they do.
pub proof fn cards_count_by_effect(content: Content, cards: Seq<UpgradeId>, e: UpgradeEffect)
    ensures
        carried(content, cards, e) > 0 <==> exists|k: int|
            0 <= k < cards.len() && content.does(#[trigger] cards[k]) == Some(e),
        card_doing(content, cards, e) is Some <==> exists|k: int|
            0 <= k < cards.len() && content.does(#[trigger] cards[k]) == Some(e),
        card_doing(content, cards, e) is Some ==> exists|k: int|
            0 <= k < cards.len() && #[trigger] cards[k] == card_doing(content, cards, e)->0
                && content.does(cards[k]) == Some(e) && forall|j: int|
                0 <= j < k ==> content.does(#[trigger] cards[j]) != Some(e),
        carried(content, cards, e) <= cards.len(),
{
    carried_counts(content, cards, e);
    doing_is_first(content, cards, e);
}

proof fn carried_counts(content: Content, cards: Seq<UpgradeId>, e: UpgradeEffect)
    ensures
        carried(content, cards, e) > 0 <==> exists|k: int|
            0 <= k < cards.len() && content.does(#[trigger] cards[k]) == Some(e),
        carried(content, cards, e) <= cards.len(),
    decreases cards.len(),
{
    if cards.len() > 0 {
        let less = cards.drop_last();
        carried_counts(content, less, e);
        if exists|k: int| 0 <= k < less.len() && content.does(#[trigger] less[k]) == Some(e) {
            let k = choose|k: int|
                0 <= k < less.len() && content.does(#[trigger] less[k]) == Some(e);
            assert(content.does(cards[k]) == Some(e));
        }
        if exists|k: int| 0 <= k < cards.len() && content.does(#[trigger] cards[k]) == Some(e) {
            let k = choose|k: int|
                0 <= k < cards.len() && content.does(#[trigger] cards[k]) == Some(e);
            if k < less.len() {
                assert(content.does(less[k]) == Some(e));
            }
        }
        assert(cards[cards.len() - 1] == cards.last());
    }
}

proof fn doing_is_first(content: Content, cards: Seq<UpgradeId>, e: UpgradeEffect)
    ensures
        card_doing(content, cards, e) is Some <==> exists|k: int|
            0 <= k < cards.len() && content.does(#[trigger] cards[k]) == Some(e),
        card_doing(content, cards, e) is Some ==> exists|k: int|
            0 <= k < cards.len() && #[trigger] cards[k] == card_doing(content, cards, e)->0
                && content.does(cards[k]) == Some(e) && forall|j: int|
                0 <= j < k ==> content.does(#[trigger] cards[j]) != Some(e),
    decreases cards.len(),
{
    if cards.len() > 0 {
        let rest = cards.skip(1);
        doing_is_first(content, rest, e);
        if content.does(cards[0]) == Some(e) {
            assert(cards[0] == card_doing(content, cards, e)->0);
        } else {
            if card_doing(content, rest, e) is Some {
                let k = choose|k: int|
                    0 <= k < rest.len() && #[trigger] rest[k] == card_doing(content, rest, e)->0
                        && content.does(rest[k]) == Some(e) && forall|j: int|
                        0 <= j < k ==> content.does(#[trigger] rest[j]) != Some(e);
                assert forall|j: int| 0 <= j < k + 1 implies content.does(#[trigger] cards[j])
                    != Some(e) by {
                    if j > 0 {
                        assert(content.does(rest[j - 1]) != Some(e));
                    }
                }
                assert(cards[k + 1] == rest[k]);
            }
            if exists|k: int| 0 <= k < cards.len() && content.does(#[trigger] cards[k]) == Some(e) {
                let k = choose|k: int|
                    0 <= k < cards.len() && content.does(#[trigger] cards[k]) == Some(e);
                assert(content.does(rest[k - 1]) == Some(e));
            }
        }
    }
}

/// A once-per-round card is open while it does what is wanted and has not been
/// used.
pub proof fn used_cards_are_spent(
    content: Content,
    cards: Seq<UpgradeId>,
    used: Seq<UpgradeId>,
    e: UpgradeEffect,
)
    ensures
        ({
            let card = unused_card(content, cards, used, e);
            &&& card is Some ==> content.does(card->0) == Some(e) && !used.contains(card->0)
            &&& card is None ==> forall|k: int|
                0 <= k < cards.len() && content.does(#[trigger] cards[k]) == Some(e)
                    ==> used.contains(cards[k])
        }),
    decreases cards.len(),
{
    if cards.len() > 0 {
        let rest = cards.skip(1);
        used_cards_are_spent(content, rest, used, e);
        if unused_card(content, cards, used, e) is None {
            assert forall|k: int|
                0 <= k < cards.len() && content.does(#[trigger] cards[k]) == Some(
                    e,
                ) implies used.contains(cards[k]) by {
                if k > 0 {
                    assert(content.does(rest[k - 1]) == Some(e));
                }
            }
        }
    }
}

/// With an injured pilot exactly the cards that are no elite talents count.
pub proof fn injury_silences_talents(content: Content, cards: Seq<UpgradeId>, card: UpgradeId)
    ensures
        count(untalented(content, cards), card) == if content.fits(card) == Some(Slot::Talent) {
            0
        } else {
            count(cards, card)
        },
    decreases cards.len(),
{
    if cards.len() > 0 {
        injury_silences_talents(content, cards.drop_last(), card);
        if content.fits(cards.last()) != Some(Slot::Talent) {
            crate::dice::count_push(
                untalented(content, cards.drop_last()),
                card,
                cards.last(),
            );
        }
    }
}

/// Exactly these cards are switched on with the dial.
pub proof fn toggles_are_listed(content: Content, cards: Seq<UpgradeId>, card: UpgradeId)
    ensures
        ({
            let e = content.does(card);
            count(toggles(content, cards), card) == if e == Some(
                UpgradeEffect::RotateShip180Discard,
            ) || e == Some(UpgradeEffect::SystemDamageToDiscardToken) || e == Some(
                UpgradeEffect::CrewEvadeInsteadOfFocusForFriendly,
            ) || e == Some(UpgradeEffect::SwapSkillWithFriendly) {
                count(cards, card)
            } else {
                0
            }
        }),
    decreases cards.len(),
{
    if cards.len() > 0 {
        toggles_are_listed(content, cards.drop_last(), card);
        crate::dice::count_push(toggles(content, cards.drop_last()), card, cards.last());
    }
}

/// Exactly these cards have an action of their own.
pub proof fn card_actions_are_listed(content: Content, cards: Seq<UpgradeId>, card: UpgradeId)
    ensures
        ({
            let e = content.does(card);
            count(actions(content, cards), card) == if e == Some(
                UpgradeEffect::FocusToCritOthersToHitAction,
            ) || e == Some(UpgradeEffect::RerollUpTo3ForFocusAnd2Stress) || e == Some(
                UpgradeEffect::ExposeAction,
            ) || e == Some(UpgradeEffect::AgilityPlus1Action) || e == Some(
                UpgradeEffect::SeismicTorpedoAction,
            ) || e == Some(UpgradeEffect::CrewFleetOfficerAction) || e == Some(
                UpgradeEffect::FreeActionForLowerSkillShip,
            ) || e == Some(UpgradeEffect::LockAndBoostAction) || e == Some(
                UpgradeEffect::CrewRollDefenseForTokensAction,
            ) || e == Some(UpgradeEffect::CrewSaboteurAction) || e == Some(
                UpgradeEffect::DiscardFacedownOnDefenseDie,
            ) {
                count(cards, card)
            } else {
                0
            }
        }),
    decreases cards.len(),
{
    if cards.len() > 0 {
        card_actions_are_listed(content, cards.drop_last(), card);
        crate::dice::count_push(actions(content, cards.drop_last()), card, cards.last());
    }
}

/// A ship flies with the ability of its pilot card, unless the pilot is
/// injured.
pub proof fn abilities_are_the_pilots(s: ShipModel, content: Content)
    ensures
        s.crits.contains(CritEffect::InjuredPilot) ==> s.ability(content) is None,
        !s.crits.contains(CritEffect::InjuredPilot) && content.flyer(s.pilot) is Some ==> s.ability(
            content,
        ) == content.flyer(s.pilot)->0.ability,
{
}

/// An ability at Range 1 is that of a living enemy on the board at Range 1.
pub proof fn close_abilities_are_enemies(
    g: Game,
    content: Content,
    sight: Sight,
    i: int,
    a: PilotAbility,
    e: int,
)
    requires
        g.ships.len() <= usize::MAX,
        0 <= i < g.ships.len(),
    ensures
        at_hand(g, content, sight, i, a, e) ==> g.enemy_ability(content, sight, i, a),
        g.enemy_ability(content, sight, i, a) ==> exists|k: int| #[trigger]
            at_hand(g, content, sight, i, a, k),
{
    reveal(Game::enemy_ability);
    let rule = g.enemy_ability_rule(content, sight, i, a);
    first_is_first(rule, 0, g.ships.len() as int);
    if at_hand(g, content, sight, i, a, e) {
        assert(rule(e));
    }
    let found = first(rule, 0, g.ships.len() as int);
    if found is Some {
        assert(rule(found->0 as int));
        assert(at_hand(g, content, sight, i, a, found->0 as int));
    }
}

/// Ship `e` is a living enemy of ship `i` at Range 1 with the ability.
pub open spec fn at_hand(
    g: Game,
    content: Content,
    sight: Sight,
    i: int,
    a: PilotAbility,
    e: int,
) -> bool {
    &&& 0 <= e < g.ships.len()
    &&& g.side(g.ships[e].owner) != g.side(g.ships[i].owner)
    &&& !g.ships[e].destroyed
    &&& g.ships[i].pose is Some && g.ships[e].pose is Some
    &&& sight.at(i, e).band == Some(1u8)
    &&& g.ships[e].ability(content) == Some(a)
}

proof fn the_dearest_is_marked(g: Game, content: Content, i: int, k: int, best: Option<usize>)
    requires
        g.ships.len() <= usize::MAX,
        0 <= k <= g.ships.len(),
        best is Some ==> best->0 < g.ships.len() && !g.same_side(best->0 as int, i),
    ensures
        ({
            let w = g.marked_from(content, i, k, best);
            let cost = price(content, g.ships[w->0 as int]);
            &&& w is Some ==> w->0 < g.ships.len() && !g.same_side(w->0 as int, i)
            &&& best is Some ==> w is Some && cost >= price(content, g.ships[best->0 as int])
            &&& forall|e: int|
                k <= e < g.ships.len() && !g.same_side(e, i) ==> w is Some && cost >= price(
                    content,
                    #[trigger] g.ships[e],
                )
        }),
    decreases g.ships.len() - k,
{
    if k < g.ships.len() {
        let next = if !g.same_side(k, i) && (best is None || g.marks(content, best->0 as int, k)) {
            Some(k as usize)
        } else {
            best
        };
        the_dearest_is_marked(g, content, i, k + 1, next);
    }
}

/// Agent Kallus and A Score to Settle mark an enemy whose pilot costs no less
/// than any other enemy's; without the card nobody is marked.
pub proof fn marks_go_to_the_dearest_enemy(
    g: Game,
    content: Content,
    i: int,
    e: UpgradeEffect,
    k: int,
)
    requires
        g.ships.len() <= usize::MAX,
        0 <= i < g.ships.len(),
        0 <= k < g.ships.len(),
        g.side(g.ships[k].owner) != g.side(g.ships[i].owner),
    ensures
        !g.has(content, i, e) ==> g.marked(content, i, e) is None,
        g.has(content, i, e) ==> exists|m: int|
            0 <= m < g.ships.len() && g.marked(content, i, e) == Some((#[trigger] g.ships[m]).id)
                && g.side(g.ships[m].owner) != g.side(g.ships[i].owner) && price(
                content,
                g.ships[m],
            ) >= price(content, g.ships[k]),
{
    reveal(Game::marked);
    the_dearest_is_marked(g, content, i, 0, None);
    let w = g.marked_from(content, i, 0, None);
    assert(!g.same_side(k, i));
    assert(price(content, g.ships[w->0 as int]) >= price(content, g.ships[k]));
    assert(g.ships[w->0 as int].id == g.ships[w->0 as int].id);
}

/// A pilot's own answer to a stress token: it is discarded with an enemy in arc
/// at Range 1, or a focus token comes with it, by the ability.
pub proof fn pilots_answer_to_stress(g: Game, content: Content, sight: Sight, i: int)
    requires
        0 <= i < g.ships.len(),
    ensures
        ({
            let h = g.stress_answered(content, sight, i);
            let (s, t) = (g.ships[i], h.ships[i]);
            let sheds = s.ability(content) == Some(
                PilotAbility::DiscardStressIfEnemyInArcRange1,
            ) && g.enemy_in_arc(sight, i);
            let focuses = s.ability(content) == Some(PilotAbility::FocusOnStress);
            &&& sheds ==> t.stress == minus(s.stress as int, 1) && t.focus == s.focus
            &&& focuses ==> t.focus == one_more(s.focus) && t.stress == s.stress
            &&& !sheds && !focuses ==> h == g
            &&& t == ShipModel { stress: t.stress, focus: t.focus, ..s }
            &&& others_stay(g, h, i)
        }),
{
}

/// Captain Yorr takes a stress token for a friend at Range 1-2 while he has
/// two or fewer, and never for another Yorr.
pub proof fn yorr_takes_stress_for_friends(g: Game, content: Content, sight: Sight, i: int)
    requires
        g.ships.len() <= usize::MAX,
        0 <= i < g.ships.len(),
    ensures
        ({
            let y = g.yorr(content, sight, i);
            let yorr = Some(PilotAbility::AbsorbFriendlyStressAtRange1To2);
            let near = g.near(sight, i, 2);
            &&& y is Some ==> listed(near, 0, y->0 as int) && g.ships[y->0 as int].ability(content)
                == yorr && g.ships[y->0 as int].stress <= 2 && g.ships[i].ability(content) != yorr
            &&& y is None && g.ships[i].ability(content) != yorr ==> forall|m: int|
                0 <= m < near.len() ==> g.ships[#[trigger] near[m] as int].ability(content) != yorr
                    || g.ships[near[m] as int].stress > 2
            &&& g.stressed(content, sight, i) == match y {
                Some(who) => g.saying(
                    Event::YorrTakesStress { yorr: who, ship: i as usize },
                ).taking_stress(content, sight, who as int),
                None => g.taking_stress(content, sight, i),
            }
        }),
{
    reveal(Game::stressed);
    let near = g.near(sight, i, 2);
    let rule = g.yorr_rule(content, near);
    picked_obey(g.friend_rule(sight, i, 2), 0, g.ships.len() as int);
    first_is_first(rule, 0, near.len() as int);
    let k = first(rule, 0, near.len() as int);
    if k is Some {
        assert(rule(k->0 as int));
        assert(near[k->0 as int] == near[k->0 as int]);
    } else {
        assert forall|m: int| 0 <= m < near.len() implies g.ships[
            #[trigger] near[m] as int
        ].ability(content) != Some(PilotAbility::AbsorbFriendlyStressAtRange1To2) || g.ships[
            near[m] as int
        ].stress > 2 by {
            assert(!rule(m));
        }
    }
}

/// Snap Shot answers an enemy that ends its move at Range 1 in arc, once per
/// ship and round, while both live.
pub proof fn snap_shots_answer_a_move(g: Game, content: Content, sight: Sight, s: int, i: int)
    requires
        0 <= s < g.ships.len(),
        0 <= i < g.ships.len(),
    ensures
        g.snaps_at(content, sight, s, i) <==> s != i && !g.ships[s].destroyed
            && !g.ships[i].destroyed && !g.ships[s].snap_shot_fired && g.side(g.ships[s].owner)
            != g.side(g.ships[i].owner) && g.card(
            content,
            s,
            UpgradeEffect::SnapShotReaction,
        ) is Some && g.ships[s].pose is Some && g.ships[i].pose is Some && sight.at(s, i).band
            == Some(1u8) && sight.at(s, i).in_arc,
{
}

/// Lightning Reflexes spin a living ship after a maneuver that is not red: it
/// stands turned, before the stress and the discard that follow.
pub proof fn reflexes_spin_after_white_or_green(
    g: Game,
    content: Content,
    sight: Sight,
    i: int,
    color: Difficulty,
    turned: Pose,
)
    requires
        0 <= i < g.ships.len(),
    ensures
        ({
            let h = g.spun(content, sight, i, color, turned);
            let card = g.ships[i].using(content, UpgradeEffect::RotateShip180Discard);
            let acts = !g.ships[i].destroyed && card is Some && color != Difficulty::Hard;
            &&& !acts ==> h == g
            &&& acts ==> h == g.with_ship(
                i,
                ShipModel { pose: Some(turned), ..g.ships[i] },
            ).discarding(content, i, card->0, crate::event::Why::Rotated).stressed(
                content,
                sight,
                i,
            )
        }),
{
    reveal(Game::spun);
}

/// "Night Beast" takes a focus token after a green maneuver, unstressed.
pub proof fn night_beast_focuses(g: Game, content: Content, i: int)
    requires
        0 <= i < g.ships.len(),
    ensures
        ({
            let (s, h) = (g.ships[i], g.night_beast(content, i));
            let acts = !s.destroyed && s.stress == 0 && s.ability(content) == Some(
                PilotAbility::FreeFocusAfterGreen,
            );
            &&& h.ships[i] == if acts {
                ShipModel { focus: one_more(s.focus), ..s }
            } else {
                s
            }
            &&& others_stay(g, h, i)
        }),
{
    reveal(Game::night_beast);
}

/// R5-X3 lets a ship ignore obstacles it has touched, and only those.
pub proof fn r5x3_ignores_touched_obstacles(
    g: Game,
    content: Content,
    i: int,
    crossed: Seq<(Obstacle, bool)>,
)
    ensures
        g.ignores(content, i, crossed) <==> crossed.len() > 0 && g.card(
            content,
            i,
            UpgradeEffect::IgnoreObstaclesDiscard,
        ) is Some,
{
}

/// "Snap" Wexley boosts for free after speed 2-4 without a bump, as planned,
/// where a free action is open.
pub proof fn wexley_boosts_after_his_move(
    g: Game,
    content: Content,
    sight: Sight,
    moves: Moves,
    i: int,
    readied: Readied,
    distance: u8,
    bumped: bool,
)
    ensures
        ({
            let (h, done) = g.boosted_free(content, sight, moves, i, readied, distance, bumped);
            let acts = readied.second == Some(SecondActionKind::BoostAfterMove) && (distance == 2
                || distance == 3 || distance == 4) && !bumped && readied.planned2 is Some
                && readied.planned2->0 is Boost && g.ships[i].free_to_act(content);
            let made = g.performing(content, sight, moves, i, readied.planned2->0);
            &&& !acts ==> h == g && done is None
            &&& acts ==> h.ships == made.0.ships && done == Some((readied.planned2->0, made.1))
        }),
{
    reveal(Game::boosted_free);
}

/// A second action is taken where the first earned it, it is planned, and the
/// ship may act; it is the one that was planned.
pub proof fn second_actions_are_taken_as_planned(
    g: Game,
    content: Content,
    sight: Sight,
    moves: Moves,
    i: int,
    readied: Readied,
    acted: Acted,
)
    ensures
        ({
            let (h, done, tokens) = g.seconded(content, sight, moves, i, readied, acted);
            let acts = crate::game::conduct::grants(readied.second, acted) && readied.planned2
                is Some && g.ships[i].free_to_act(content);
            let made = g.performing(content, sight, moves, i, readied.planned2->0);
            &&& !acts ==> h == g && done is None && tokens.len() == 0
            &&& acts ==> h == made.0 && done == Some((readied.planned2->0, made.1)) && tokens
                == made.2
        }),
{
    reveal(Game::seconded);
}

/// The action step spends the planned action: what was planned is attempted,
/// or a pass; and a forfeited action does nothing but end the plan.
pub proof fn the_action_step_spends_the_plan(
    p: Play,
    content: Content,
    sight: Sight,
    moves: Moves,
    salvo: crate::game::blasts::Salvo,
    i: int,
    readied: Readied,
    stance: Stance,
)
    requires
        0 <= i < p.game.ships.len(),
    ensures
        ({
            let (q, acted, tokens, hits) = p.acted(
                content,
                sight,
                moves,
                salvo,
                i,
                readied,
                stance,
            );
            let s = p.game.ships[i];
            let idle = p.game.with_ship(i, ShipModel { planned_action: None, ..s });
            let a = if s.planned_action is Some {
                s.planned_action->0
            } else {
                PlannedAction::Pass
            };
            let lost = idle.forfeit(content, i, stance, a);
            &&& acted.action == a
            &&& acted.attempted == (lost is None)
            &&& lost is Some ==> q == p.at(idle) && acted.result == lost->0 && tokens.len() == 0
                && hits is None
        }),
{
    reveal(Play::acted);
}

/// R4-D6 takes stress for hits beyond two that would reach the hull, and
/// leaves the rest.
pub proof fn r4d6_cancels_down_to_two(
    g: Game,
    content: Content,
    sight: Sight,
    d: int,
    hits: u8,
    crits: u8,
)
    requires
        0 <= d < g.ships.len(),
        hits + crits <= u8::MAX,
    ensures
        ({
            let (h, left) = g.r4d6(content, sight, d, hits, crits);
            let past = minus(hits + crits, g.ships[d].shields as int);
            let acts = hits >= 3 && past > 0 && g.has(
                content,
                d,
                UpgradeEffect::CancelHitsForStress,
            );
            &&& !acts ==> left == hits && h == g
            &&& acts ==> 2 <= left < hits && hits - left <= past && (left == 2 || hits - left
                == past)
        }),
{
    reveal(Game::r4d6);
}

/// Wampa's card costs one hull point whatever the shields, of a living ship.
pub proof fn wampa_costs_a_hull_point(g: Game, d: int, wampa: bool, toll: Toll)
    requires
        0 <= d < g.ships.len(),
    ensures
        ({
            let (h, after) = g.wampa_dealt(d, wampa, toll);
            let acts = wampa && !g.ships[d].destroyed && g.ships[d].hull > 0;
            &&& acts ==> lost_hull(g.ships[d], h.ships[d]) && after.hull == one_more(toll.hull)
            &&& !acts ==> h == g && after == toll
            &&& after.shields == toll.shields && after.crits == toll.crits
            &&& others_stay(g, h, d)
        }),
{
    reveal(Game::wampa_dealt);
    damage_takes_a_shield_first(g, d);
}

/// Hits cost a point each while the defender lives, and are added up.
pub proof fn hits_cost_a_point_each(g: Game, d: int, n: int, toll: Toll)
    requires
        0 <= d < g.ships.len(),
        n > 0,
        !g.ships[d].destroyed,
        toll.shields < u8::MAX,
        toll.hull < u8::MAX,
    ensures
        ({
            let s = g.ships[d];
            let next = Toll {
                shields: (toll.shields + one_if(s.shields > 0)) as u8,
                hull: (toll.hull + one_if(s.shields == 0 && s.hull > 0)) as u8,
                ..toll
            };
            g.hits_dealt(d, n, toll) == g.damaged(d).hits_dealt(d, n - 1, next)
        }),
        g.hits_dealt(d, 0, toll) == (g, toll),
{
}

/// Juno Eclipse flies a maneuver one speed slower or faster that ends well,
/// the slower one first, when hers would end badly.
pub proof fn juno_changes_the_speed_by_one(
    g: Game,
    content: Content,
    i: int,
    man: Maneuver,
    ends: Ends,
)
    requires
        0 <= i < g.ships.len(),
        g.ships[i].ability(content) == Some(PilotAbility::AdjustManeuverSpeedBy1),
    ensures
        ({
            let dial = content.dial(g.ships[i].class);
            let slow = at_other_speed(dial, man, ends, slower(man.distance));
            let fast = at_other_speed(dial, man, ends, faster(man.distance));
            let turned = g.rotation(content, i, man, ends);
            let bad = g.ships[i].pose is Some && ends.ill(man);
            &&& bad && slow is Some ==> turned == Some(
                (slow->0, crate::event::Turner::JunoEclipse),
            )
            &&& bad && slow is None && fast is Some ==> turned == Some(
                (fast->0, crate::event::Turner::JunoEclipse),
            )
            &&& !bad ==> turned is None
        }),
{
}

} // verus!
