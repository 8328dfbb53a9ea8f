//! What players may plan, and when a plan is refused.

use vstd::prelude::*;

use crate::action::{ActionKind, BoostDir, PlannedAction, SecondActionKind};
use crate::data::Content;
use crate::game::deeds::is_named;
use crate::game::plain::{a_ship_is_plain, no_ability_counts, no_effect_counts};
use crate::game::rejection::Rejection;
use crate::game::state::{Game, Phase};
use crate::maneuver::Difficulty;
use crate::mission::MissionKind;
use crate::pick::first_is_first;
use crate::pilot::PilotAbility;
use crate::ship::{PlayerId, ShipId};
use crate::sight::Sight;
use crate::upgrade::{UpgradeEffect, UpgradeId};

verus! {

/// The ship with an id is found where it stands, and nowhere else.
pub proof fn ids_find_their_ship(g: Game, id: ShipId, k: int)
    requires
        g.ships.len() <= usize::MAX,
    ensures
        is_named(g, k, id) ==> g.index(id) == Some(k as usize),
        g.index(id) is Some ==> is_named(g, g.index(id)->0 as int, id),
        g.index(id) is None ==> forall|j: int|
            0 <= j < g.ships.len() ==> (#[trigger] g.ships[j]).id != id,
{
    let rule = g.id_rule(id);
    first_is_first(rule, 0, g.ships.len() as int);
    let found = g.index(id);
    assert forall|j: int| 0 <= j < g.ships.len() implies (#[trigger] g.ships[j]).id == id
        <==> rule(j) by {
    }
    if found is Some {
        let f = found->0 as int;
        assert(rule(f));
        assert forall|j: int| 0 <= j < f implies (#[trigger] g.ships[j]).id != id by {
            assert(!rule(j));
        }
    }
    if is_named(g, k, id) {
        assert(rule(k));
        let f = found->0 as int;
        if f < k {
            assert(g.ships[f].id != id);
        } else if f > k {
            assert(g.ships[k].id != id);
        }
    }
}

/// A player may order a living ship of their own while planning, until they
/// have committed; every other order is refused, and the reason is told.
pub proof fn orders_go_to_own_living_ships(g: Game, player: PlayerId, id: ShipId, k: int)
    requires
        g.ships.len() <= usize::MAX,
        player.0 < g.committed.len(),
    ensures
        ({
            let refused = g.order_refused(player, id);
            let open = g.phase == Phase::Planning && !g.committed[player.0 as int];
            let named = is_named(g, k, id);
            &&& g.phase != Phase::Planning ==> refused == Some(Rejection::WrongPhase)
            &&& g.phase == Phase::Planning && g.committed[player.0 as int] ==> refused == Some(
                Rejection::AlreadyCommitted,
            )
            &&& refused is None ==> open
            &&& open && named ==> refused == if g.ships[k].owner != player {
                Some(Rejection::NotYourShip)
            } else if g.ships[k].destroyed {
                Some(Rejection::ShipDestroyed)
            } else {
                None
            }
            &&& open && (forall|j: int| 0 <= j < g.ships.len() ==> (#[trigger] g.ships[j]).id != id)
                ==> refused == Some(Rejection::NoSuchShip)
        }),
{
    ids_find_their_ship(g, id, k);
}

/// An order that may be given dials any maneuver of the ship's dial, but no
/// red one while stressed, and none above speed 2 for the disabled ship of
/// Asteroid Run before round 5.
pub proof fn dials_take_what_can_be_flown(
    g: Game,
    content: Content,
    player: PlayerId,
    id: ShipId,
    k: int,
    index: u8,
)
    requires
        g.ships.len() <= usize::MAX,
        player.0 < g.committed.len(),
        is_named(g, k, id),
        g.order_refused(player, id) is None,
    ensures
        ({
            let refused = g.maneuver_refused(content, player, id, index);
            let dial = content.dial(g.ships[k].class);
            let m = dial[index as int];
            let disabled = g.mission is Some && g.mission->0.disabled == Some(id) && g.turn < 5;
            let red = g.difficulty(content, k, m).0 == Difficulty::Hard;
            &&& index >= dial.len() ==> refused == Some(Rejection::BadManeuverIndex)
            &&& index < dial.len() && disabled && m.distance > 2 ==> refused == Some(
                Rejection::ShipDisabled,
            )
            &&& index < dial.len() && !(disabled && m.distance > 2) && g.ships[k].stress > 0 && red
                ==> refused == Some(Rejection::StressedRedForbidden)
            &&& refused is None <==> index < dial.len() && !(disabled && m.distance > 2) && !(
            g.ships[k].stress > 0 && red)
        }),
{
    ids_find_their_ship(g, id, k);
}

/// The icon of an action, for those that need one.
pub open spec fn icon_of(a: PlannedAction) -> Option<ActionKind> {
    if a == PlannedAction::Focus {
        Some(ActionKind::Focus)
    } else if a == PlannedAction::Evade {
        Some(ActionKind::Evade)
    } else if a is Boost {
        Some(ActionKind::Boost)
    } else if a is TargetLock {
        Some(ActionKind::TargetLock)
    } else if a is BarrelRoll || a is BarrelRollFar || a is BarrelRollBank {
        Some(ActionKind::BarrelRoll)
    } else {
        None
    }
}

proof fn nobody_lends(g: Game, content: Content, sight: Sight, i: int)
    requires
        g.plain(content),
        0 <= i < g.ships.len(),
    ensures
        g.card_actions(content, sight, i).len() == 0,
{
    broadcast use no_ability_counts;

    reveal(Game::card_actions);
    assert(g.ships.len() <= usize::MAX) by {
        reveal(Game::plain);
    }
    let rule = g.youngster_rule(content, sight, i);
    assert forall|k: int| 0 <= k < g.ships.len() implies !#[trigger] rule(k) by {
        assert(g.ships[k].plain(content)) by {
            a_ship_is_plain(g, content, k);
        }
    }
    crate::game::plain::nobody_is_picked(rule, g.ships.len() as int);
    a_ship_is_plain(g, content, i);
    let cards = g.ships[i].upgrades + g.cards_of(
        crate::pick::picked(rule, 0, g.ships.len() as int),
        0,
    );
    assert(cards.len() == 0);
    assert(g.ships[i].heeded(content, cards).len() == 0);
}

/// A ship without cards or ability plans the actions of its bar, with the
/// plain templates, and passes; a lock goes to a living enemy, and in
/// Political Escort the Rebels may protect the shuttle. Nothing else can be
/// planned.
pub proof fn actions_come_from_the_bar(
    g: Game,
    content: Content,
    sight: Sight,
    player: PlayerId,
    id: ShipId,
    k: int,
    a: PlannedAction,
)
    requires
        g.plain(content),
        player.0 < g.committed.len(),
        is_named(g, k, id),
        g.order_refused(player, id) is None,
    ensures
        ({
            let refused = g.action_refused(content, sight, player, id, a);
            let bar = g.ships[k].bar(content);
            let icon = icon_of(a);
            let listed = icon is None || bar.contains(icon->0);
            &&& !listed ==> refused == Some(Rejection::ActionNotOnBar)
            &&& a == PlannedAction::Pass ==> refused is None
            &&& a == PlannedAction::Protect ==> refused == Some(Rejection::NotInThisMission)
            &&& a is DropMine || a is CardAction || a is CardActionAt ==> refused == Some(
                Rejection::NoSuchUpgrade,
            )
            &&& listed && (a == PlannedAction::Focus || a == PlannedAction::Evade || a
                is BarrelRoll) ==> refused is None
            &&& listed && (a is BarrelRollFar || a is BarrelRollBank) ==> refused == Some(
                Rejection::TemplateNotAllowed,
            )
            &&& listed && a is Boost ==> refused == if a->Boost_0 == BoostDir::TurnLeft
                || a->Boost_0 == BoostDir::TurnRight {
                Some(Rejection::TemplateNotAllowed)
            } else {
                None
            }
        }),
{
    broadcast use {no_effect_counts, no_ability_counts};

    assert(g.ships.len() <= usize::MAX && g.mission is None) by {
        reveal(Game::plain);
    }
    ids_find_their_ship(g, id, k);
    nobody_lends(g, content, sight, k);
    a_ship_is_plain(g, content, k);
}

/// A lock is planned on a living enemy and on nobody else.
pub proof fn locks_are_planned_on_living_enemies(
    g: Game,
    player: PlayerId,
    target: ShipId,
    t: int,
)
    requires
        g.ships.len() <= usize::MAX,
    ensures
        ({
            let refused = g.lock_refused(player, PlannedAction::TargetLock(target));
            &&& is_named(g, t, target) ==> refused == if g.side(g.ships[t].owner) == g.side(player)
                || g.ships[t].destroyed {
                Some(Rejection::BadLockTarget)
            } else {
                None
            }
            &&& (forall|j: int| 0 <= j < g.ships.len() ==> (#[trigger] g.ships[j]).id != target)
                ==> refused == Some(Rejection::NoSuchShip)
        }),
{
    ids_find_their_ship(g, target, t);
}

/// The Rebels of Political Escort may protect the shuttle with any other ship,
/// and nobody may in another game.
pub proof fn rebels_protect_the_shuttle(g: Game, player: PlayerId, id: ShipId)
    ensures
        g.mission is None ==> !g.may_protect(player, id),
        g.mission is Some ==> ({
            let m = g.mission->0;
            g.may_protect(player, id) <==> m.kind == MissionKind::PoliticalEscort && g.side(player)
                == m.rebel_side && m.shuttle != Some(id)
        }),
{
}

/// What each grant lets a ship plan as its second action.
pub proof fn grants_allow_their_own_actions(
    g: Game,
    content: Content,
    i: int,
    kind: SecondActionKind,
    a: PlannedAction,
)
    requires
        0 <= i < g.ships.len(),
    ensures
        ({
            let allowed = g.second_allowed(content, i, kind, a);
            let roll = a is BarrelRoll || a is BarrelRollFar || a is BarrelRollBank;
            let icon = icon_of(a);
            match kind {
                SecondActionKind::FreeBarAction => allowed == (icon is Some && g.ships[i].bar(
                    content,
                ).contains(icon->0)),
                SecondActionKind::TwoActions => allowed == (a != PlannedAction::Pass),
                SecondActionKind::CardActionThenStress => allowed == (a is CardAction || a
                    is CardActionAt),
                SecondActionKind::BoostAfterMove => allowed == (a is Boost),
                SecondActionKind::RepositionAfterFocus => allowed == (a is Boost || roll),
                SecondActionKind::RepositionAfterAttack => allowed == (a is Boost || roll),
                SecondActionKind::RollOnGreenReveal => allowed == roll,
            }
        }),
{
}

/// Without a grant no second action can be planned, and one can always be
/// taken back.
pub proof fn second_actions_need_a_grant(
    g: Game,
    content: Content,
    sight: Sight,
    player: PlayerId,
    id: ShipId,
    k: int,
    a: PlannedAction,
)
    requires
        g.plain(content),
        player.0 < g.committed.len(),
        is_named(g, k, id),
        g.order_refused(player, id) is None,
    ensures
        g.second_refused(content, sight, player, id, Some(a)) == Some(
            Rejection::SecondActionNotAllowed,
        ),
        g.second_refused(content, sight, player, id, None) is None,
{
    broadcast use {no_effect_counts, no_ability_counts};

    assert(g.ships.len() <= usize::MAX) by {
        reveal(Game::plain);
    }
    ids_find_their_ship(g, id, k);
    reveal(Game::second_action);
    a_ship_is_plain(g, content, k);
    assert(g.ships[k].active(content).len() == 0);
}

/// Who has which second action: each of these pilots and cards alone grants
/// its own.
pub proof fn grants_come_from_pilots_and_cards(g: Game, content: Content, i: int)
    requires
        0 <= i < g.ships.len(),
    ensures
        ({
            let kind = g.second_action(content, i);
            let pilot = g.ships[i].ability(content);
            &&& pilot == Some(PilotAbility::TwoActions) ==> kind == Some(
                SecondActionKind::TwoActions,
            )
            &&& kind == Some(SecondActionKind::TwoActions) ==> pilot == Some(
                PilotAbility::TwoActions,
            )
            &&& kind == Some(SecondActionKind::FreeBarAction) ==> g.has(
                content,
                i,
                UpgradeEffect::FreeActionThenStress,
            )
            &&& kind == Some(SecondActionKind::BoostAfterMove) ==> pilot == Some(
                PilotAbility::FreeBoostAfterSpeed2To4,
            )
            &&& kind == Some(SecondActionKind::RepositionAfterFocus) ==> pilot == Some(
                PilotAbility::FreeRepositionAfterFocus,
            )
            &&& kind == Some(SecondActionKind::RollOnGreenReveal) ==> g.has(
                content,
                i,
                UpgradeEffect::FreeBarrelRollOnGreen,
            )
            &&& kind == Some(SecondActionKind::RepositionAfterAttack) ==> pilot == Some(
                PilotAbility::FreeRepositionAfterAttack,
            )
            &&& kind == Some(SecondActionKind::CardActionThenStress) ==> g.unused(
                content,
                i,
                UpgradeEffect::ExtraActionThenStress,
            ) is Some
            &&& kind is None ==> pilot != Some(PilotAbility::FreeBoostAfterSpeed2To4) && pilot
                != Some(PilotAbility::FreeRepositionAfterFocus) && pilot != Some(
                PilotAbility::FreeRepositionAfterAttack,
            ) && !g.has(content, i, UpgradeEffect::FreeActionThenStress) && !g.has(
                content,
                i,
                UpgradeEffect::FreeBarrelRollOnGreen,
            ) && g.unused(content, i, UpgradeEffect::ExtraActionThenStress) is None
        }),
{
    reveal(Game::second_action);
}

/// A bomb is planned if the ship carries it and it is one that drops with the
/// dial, or the pilot drops mines so.
pub proof fn bombs_are_planned_from_the_rack(
    g: Game,
    content: Content,
    player: PlayerId,
    id: ShipId,
    k: int,
    card: UpgradeId,
)
    requires
        g.ships.len() <= usize::MAX,
        player.0 < g.committed.len(),
        is_named(g, k, id),
        g.order_refused(player, id) is None,
    ensures
        ({
            let e = content.does(card);
            let bomb = e == Some(UpgradeEffect::BombOnRevealProton) || e == Some(
                UpgradeEffect::BombOnRevealSeismic,
            ) || e == Some(UpgradeEffect::BombOnRevealIon) || e == Some(
                UpgradeEffect::BombOnRevealThermal,
            );
            let mine = e == Some(UpgradeEffect::BombActionProximityMines) || e == Some(
                UpgradeEffect::BombActionClusterMines,
            ) || e == Some(UpgradeEffect::BombActionConnerNet);
            let free = g.ships[k].ability(content) == Some(
                PilotAbility::FreeBombActionOnRevealOrAction,
            );
            g.bomb_refused(content, player, id, Some(card)) == if g.ships[k].upgrades.contains(card)
                && (bomb || (mine && free)) {
                None
            } else {
                Some(Rejection::NoSuchUpgrade)
            }
        }),
        g.bomb_refused(content, player, id, None) is None,
{
    ids_find_their_ship(g, id, k);
}

/// Plans are committed once, while planning, when every living ship of the
/// player has a dial.
pub proof fn plans_are_committed_once_complete(g: Game, player: PlayerId)
    requires
        g.ships.len() <= usize::MAX,
        player.0 < g.committed.len(),
    ensures
        ({
            let refused = g.commit_refused(player);
            let missing = |k: int|
                0 <= k < g.ships.len() && g.ships[k].owner == player && !g.ships[k].destroyed
                    && g.ships[k].plan is None;
            &&& refused == Some(Rejection::WrongPhase) <==> g.phase != Phase::Planning
            &&& refused == Some(Rejection::AlreadyCommitted) <==> g.phase == Phase::Planning
                && g.committed[player.0 as int]
            &&& refused == Some(Rejection::PlansIncomplete) ==> exists|k: int| #[trigger] missing(k)
            &&& refused is None ==> forall|k: int| !#[trigger] missing(k)
            &&& refused is None || refused == Some(Rejection::WrongPhase) || refused == Some(
                Rejection::AlreadyCommitted,
            ) || refused == Some(Rejection::PlansIncomplete)
        }),
{
    let n = g.ships.len() as int;
    let rule = g.undialed_rule(player);
    let missing = |k: int|
        0 <= k < g.ships.len() && g.ships[k].owner == player && !g.ships[k].destroyed
            && g.ships[k].plan is None;
    first_is_first(rule, 0, n);
    let found = crate::pick::first(rule, 0, n);
    if found is Some {
        assert(rule(found->0 as int));
        assert(missing(found->0 as int));
    } else {
        assert forall|k: int| !#[trigger] missing(k) by {
            if 0 <= k < n {
                assert(!rule(k));
            }
        }
    }
}

} // verus!
