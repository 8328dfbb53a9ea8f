//! What actions come to: tokens, locks, repositions, drops and cards.

use vstd::prelude::*;

use crate::action::{ActionResult, PlannedAction};
use crate::bombs::BombKind;
use crate::crit::drawn;
use crate::data::Content;
use crate::dice::{
    attack_face, count, count_from_the_front, count_push, defense_face, AttackFace, DefenseFace,
};
use crate::game::actions::{Landing, Moves};
use crate::game::cards::one_if;
use crate::game::hazards::{others_stay, stress_is_received};
use crate::game::plain::{
    a_plain_ship_stays_plain, a_ship_is_plain, no_ability_counts, no_effect_counts,
};
use crate::game::state::{Game, Play};
use crate::pick::first_is_first;
use crate::pilot::PilotAbility;
use crate::game::tokens::without_first;
use crate::ship::{dropped, ShipId, ShipModel};
use crate::sight::Sight;
use crate::upgrade::{UpgradeEffect, UpgradeId};

verus! {

/// No ship has a card switched on.
pub open spec fn nothing_switched_on(g: Game) -> bool {
    forall|k: int| 0 <= k < g.ships.len() ==> (#[trigger] g.ships[k]).card_uses.len() == 0
}

/// `t` is `s` but for its focus, evade and stress tokens.
pub open spec fn only_tokens(s: ShipModel, t: ShipModel) -> bool {
    t == ShipModel { focus: t.focus, evade: t.evade, stress: t.stress, ..s }
}

proof fn nobody_stands_in(g: Game, content: Content, sight: Sight, i: int)
    requires
        nothing_switched_on(g),
        g.ships.len() <= usize::MAX,
        0 <= i < g.ships.len(),
    ensures
        g.jan_swapped(content, sight, i) == g,
{
    reveal(Game::jan_swapped);
    let rule = g.jan_rule(content, sight, i);
    first_is_first(rule, 0, g.ships.len() as int);
    assert forall|j: int| 0 <= j < g.ships.len() implies !#[trigger] rule(j) by {
        assert(g.ships[j].card_uses.len() == 0);
        assert(g.ships[j].using(content, UpgradeEffect::CrewEvadeInsteadOfFocusForFriendly) is None)
            by {
            assert(g.ships[j].heeded(content, g.ships[j].card_uses).len() == 0);
        }
    }
}

proof fn nobody_forbids(g: Game, content: Content, sight: Sight, i: int)
    requires
        g.plain(content),
        0 <= i < g.ships.len(),
    ensures
        !g.carnor(content, sight, i),
        g.ships.len() <= usize::MAX,
{
    broadcast use no_ability_counts;

    reveal(Game::enemy_ability);
    assert(g.ships.len() <= usize::MAX) by {
        reveal(Game::plain);
    }
    let a = PilotAbility::DenyFocusEvadeAtRange1;
    let rule = g.enemy_ability_rule(content, sight, i, a);
    first_is_first(rule, 0, g.ships.len() as int);
    assert forall|e: int| 0 <= e < g.ships.len() implies !#[trigger] rule(e) by {
        assert(!g.can(content, e, a));
    }
}

/// Without cards and abilities about, a focus action gives one focus token, an
/// evade action one evade token, and passing nothing at all.
pub proof fn token_actions_give_one_token(
    g: Game,
    content: Content,
    sight: Sight,
    moves: Moves,
    i: int,
)
    requires
        g.plain(content),
        nothing_switched_on(g),
        0 <= i < g.ships.len(),
        g.ships[i].focus < u8::MAX,
        g.ships[i].evade < u8::MAX,
    ensures
        ({
            let (h, r, dropped) = g.performing(content, sight, moves, i, PlannedAction::Focus);
            &&& r == ActionResult::Performed && dropped.len() == 0
            &&& h.ships[i].focus == g.ships[i].focus + 1
            &&& h.ships[i].evade == g.ships[i].evade
            &&& h.ships[i].stress == g.ships[i].stress
            &&& only_tokens(g.ships[i], h.ships[i])
            &&& others_stay(g, h, i)
            &&& h == Game { ships: h.ships, ..g }
        }),
        ({
            let (h, r, dropped) = g.performing(content, sight, moves, i, PlannedAction::Evade);
            &&& r == ActionResult::Performed && dropped.len() == 0
            &&& h.ships[i].evade == g.ships[i].evade + 1
            &&& h.ships[i].focus == g.ships[i].focus
            &&& h.ships[i].stress == g.ships[i].stress
            &&& only_tokens(g.ships[i], h.ships[i])
            &&& others_stay(g, h, i)
            &&& h == Game { ships: h.ships, ..g }
        }),
        g.performing(content, sight, moves, i, PlannedAction::Pass).0 == g,
        g.performing(content, sight, moves, i, PlannedAction::Pass).1 == ActionResult::Performed,
{
    broadcast use no_effect_counts;

    reveal(Game::performing);
    nobody_forbids(g, content, sight, i);
    a_ship_is_plain(g, content, i);
    let s = g.ships[i].with_focus();
    a_plain_ship_stays_plain(g, content, i, s);
    let h = g.with_ship(i, s);
    assert forall|k: int| 0 <= k < h.ships.len() implies (#[trigger] h.ships[k]).card_uses.len()
        == 0 by {
        assert(g.ships[k].card_uses.len() == 0);
    }
    nobody_stands_in(h, content, sight, i);
}

/// A spot is free: the base fits there, off every obstacle.
pub open spec fn clear_spot(spot: Option<Landing>) -> bool {
    spot is Some && !spot->0.blocked && !spot->0.on_obstacle
}

/// Without cards, a boost or barrel roll puts the ship on a free spot and does
/// nothing else; where the spot is not free it fails and nothing changes. A
/// roll with a bank template costs a stress token.
pub proof fn repositions_end_on_a_free_spot(
    g: Game,
    content: Content,
    sight: Sight,
    moves: Moves,
    i: int,
    planned: PlannedAction,
)
    requires
        g.plain(content),
        0 <= i < g.ships.len(),
        planned is Boost || planned is BarrelRoll || planned is BarrelRollFar || planned
            is BarrelRollBank,
        planned is BarrelRollBank ==> g.ships[i].card_uses.len() == 0 && g.ships[i].stress
            < u8::MAX,
    ensures
        ({
            let (h, r, dropped) = g.performing(content, sight, moves, i, planned);
            let free = clear_spot(moves.planned);
            &&& dropped.len() == 0
            &&& r == if free {
                ActionResult::Performed
            } else {
                ActionResult::Failed
            }
            &&& !free ==> h == g
            &&& free ==> h.ships[i].pose == Some(moves.planned->0.pose)
            &&& free ==> h.ships[i].stress == g.ships[i].stress + one_if(planned is BarrelRollBank)
            &&& free ==> h.ships[i].focus == g.ships[i].focus
            &&& free ==> h.ships[i].hull == g.ships[i].hull
            &&& free ==> h.ships[i].shields == g.ships[i].shields
            &&& others_stay(g, h, i)
        }),
{
    broadcast use {no_effect_counts, no_ability_counts};

    reveal(Game::performing);
    reveal(Game::repositioned);
    if clear_spot(moves.planned) {
        let s = ShipModel { pose: Some(moves.planned->0.pose), ..g.ships[i] };
        a_ship_is_plain(g, content, i);
        a_plain_ship_stays_plain(g, content, i, s);
        let m = g.with_ship(i, s);
        assert(s.effects(content, UpgradeEffect::BarrelRollActionDiscardLock) == 0) by {
            assert(!m.has(content, i, UpgradeEffect::BarrelRollActionDiscardLock));
        }
        if planned is BarrelRollBank {
            let told = m.saying(crate::event::Event::BankRoll(i as usize));
            crate::game::plain::saying_keeps_plain(
                m,
                content,
                crate::event::Event::BankRoll(i as usize),
            );
            stress_is_received(told, content, moves.after, i);
            let h = told.stressed(content, moves.after, i);
            a_ship_is_plain(h, content, i);
            assert(!h.has(content, i, UpgradeEffect::BarrelRollActionDiscardLock));
        }
    }
}

/// The ship with the id, the first where two had the same.
pub open spec fn is_named(g: Game, k: int, id: ShipId) -> bool {
    &&& 0 <= k < g.ships.len()
    &&& g.ships[k].id == id
    &&& forall|j: int| 0 <= j < k ==> (#[trigger] g.ships[j]).id != id
}

/// Without cards and abilities, a ship locks a living ship on the board at
/// Range 1-3: it holds that lock alone. It cannot lock another, and then
/// keeps what it held.
pub proof fn locks_reach_range_three(
    g: Game,
    content: Content,
    sight: Sight,
    moves: Moves,
    i: int,
    k: int,
)
    requires
        g.plain(content),
        0 <= i < g.ships.len(),
        0 <= k < g.ships.len(),
        is_named(g, k, g.ships[k].id),
    ensures
        ({
            let id = g.ships[k].id;
            let (h, r, dropped) = g.performing(
                content,
                sight,
                moves,
                i,
                PlannedAction::TargetLock(id),
            );
            let reach = !g.ships[k].destroyed && g.ships[k].pose is Some && sight.at(i, k).band
                is Some;
            &&& dropped.len() == 0
            &&& r == if reach {
                ActionResult::Performed
            } else {
                ActionResult::Failed
            }
            &&& h.ships[i] == if reach {
                ShipModel { lock: Some(id), lock2: None, ..g.ships[i] }
            } else {
                g.ships[i]
            }
            &&& others_stay(g, h, i)
        }),
{
    broadcast use {no_effect_counts, no_ability_counts};

    reveal(Game::performing);
    assert(g.ships.len() <= usize::MAX) by {
        reveal(Game::plain);
    }
    let id = g.ships[k].id;
    let n = g.ships.len() as int;
    let kagi = g.kagi_near_rule(content, sight, i);
    first_is_first(kagi, 0, n);
    assert forall|e: int| 0 <= e < n implies !#[trigger] kagi(e) by {
        assert(!g.can(content, e, PilotAbility::EnemyLocksMustTargetMe));
    }
    let rule = g.id_rule(id);
    first_is_first(rule, 0, n);
    assert(rule(k));
    assert(g.index(id) == Some(k as usize)) by {
        let f = g.index(id)->0 as int;
        assert(rule(f));
        if f < k {
            assert(g.ships[f].id != id);
        }
    }
    assert(g.lock_target(content, sight, i, id) == id);
    let s = g.ships[i].locking(id, false);
    a_ship_is_plain(g, content, i);
    a_plain_ship_stays_plain(g, content, i, s);
}

/// A discarded card is gone in every copy, and no other card is.
pub proof fn a_discarded_card_is_gone(cards: Seq<UpgradeId>, card: UpgradeId)
    ensures
        count(dropped(cards, card), card) == 0,
        forall|other: UpgradeId|
            other != card ==> #[trigger] count(dropped(cards, card), other) == count(cards, other),
    decreases cards.len(),
{
    if cards.len() > 0 {
        let rest = cards.drop_last();
        a_discarded_card_is_gone(rest, card);
        if cards.last() != card {
            assert forall|other: UpgradeId| #[trigger] count(dropped(cards, card), other) == count(
                dropped(rest, card),
                other,
            ) + if cards.last() == other {
                1nat
            } else {
                0nat
            } by {
                count_push(dropped(rest, card), other, cards.last());
            }
        } else {
            assert forall|other: UpgradeId| other != card implies #[trigger] count(
                dropped(cards, card),
                other,
            ) == count(cards, other) by {
                assert(count(dropped(rest, card), other) == count(rest, other));
            }
        }
    }
}

/// Spending an ordnance token takes one copy of the card, and of no other.
pub proof fn one_ordnance_token_is_spent(cards: Seq<UpgradeId>, card: UpgradeId)
    ensures
        count(without_first(cards, card), card) == if cards.contains(card) {
            count(cards, card) - 1
        } else {
            0
        },
        forall|other: UpgradeId|
            other != card ==> #[trigger] count(without_first(cards, card), other) == count(
                cards,
                other,
            ),
    decreases cards.len(),
{
    if cards.len() > 0 {
        let rest = cards.skip(1);
        one_ordnance_token_is_spent(rest, card);
        assert(cards.contains(card) == (cards[0] == card || rest.contains(card))) by {
            if cards.contains(card) && cards[0] != card {
                let k = choose|k: int| 0 <= k < cards.len() && cards[k] == card;
                assert(rest[k - 1] == card);
            }
            if rest.contains(card) {
                let k = choose|k: int| 0 <= k < rest.len() && rest[k] == card;
                assert(cards[k + 1] == card);
            }
        }
        let left = without_first(cards, card);
        if cards[0] != card {
            assert(left[0] == cards[0]);
            assert(left.skip(1) =~= without_first(rest, card));
        }
        assert forall|other: UpgradeId| #[trigger] count(left, other) == if other == card && !(
        cards[0] == card || rest.contains(card)) {
            0
        } else if other == card {
            count(cards, other) - 1
        } else {
            count(cards, other) as int
        } by {
            count_from_the_front(cards, other);
            if cards[0] != card {
                count_from_the_front(left, other);
            }
        }
    }
}

/// A dropped mine leaves its tokens on the board, one for each place, owned by
/// the player who dropped them, and costs an ordnance token on the card or
/// else the card itself. Nothing that is no mine can be dropped so.
pub proof fn mines_are_dropped_for_their_card(
    g: Game,
    content: Content,
    sight: Sight,
    moves: Moves,
    i: int,
    card: UpgradeId,
)
    requires
        0 <= i < g.ships.len(),
        g.next_bomb_id + 3 <= u32::MAX,
    ensures
        ({
            let s = g.ships[i];
            let (h, r, new) = g.performing(
                content,
                sight,
                moves,
                i,
                PlannedAction::DropMine(card),
            );
            let t = h.ships[i];
            let e = content.does(card);
            let kind = if e == Some(UpgradeEffect::BombActionProximityMines) {
                Some(BombKind::ProximityMine)
            } else if e == Some(UpgradeEffect::BombActionClusterMines) {
                Some(BombKind::ClusterMine)
            } else if e == Some(UpgradeEffect::BombActionConnerNet) {
                Some(BombKind::ConnerNet)
            } else {
                None
            };
            &&& r == if s.upgrades.contains(card) && kind is Some {
                ActionResult::Performed
            } else {
                ActionResult::Failed
            }
            &&& r == ActionResult::Failed ==> h == g && new.len() == 0
            &&& r == ActionResult::Performed ==> {
                &&& new.len() == if kind == Some(BombKind::ClusterMine) {
                    3nat
                } else {
                    1nat
                }
                &&& h.bombs == g.bombs + new
                &&& h.next_bomb_id == g.next_bomb_id + new.len()
                &&& forall|k: int|
                    0 <= k < new.len() ==> (#[trigger] new[k]).owner == s.owner && Some(new[k].kind)
                        == kind && new[k].card == card && new[k].id == g.next_bomb_id + k
                &&& new.len() == 1 ==> new[0].pose == moves.drop.center
                &&& new.len() == 3 ==> new[0].pose == moves.drop.left && new[1].pose
                    == moves.drop.center && new[2].pose == moves.drop.right
                &&& s.ordnance.contains(card) ==> t.upgrades == s.upgrades && count(
                    t.ordnance,
                    card,
                ) == count(s.ordnance, card) - 1
                &&& !s.ordnance.contains(card) ==> t.ordnance == s.ordnance && count(
                    t.upgrades,
                    card,
                ) == 0
                &&& forall|other: UpgradeId|
                    other != card ==> #[trigger] count(t.upgrades, other) == count(
                        s.upgrades,
                        other,
                    )
                &&& others_stay(g, h, i)
            }
        }),
{
    reveal(Game::performing);
    let s = g.ships[i];
    a_discarded_card_is_gone(s.upgrades, card);
    one_ordnance_token_is_spent(s.ordnance, card);
}

/// Lando Calrissian throws two defense dice: a token for every eye and every
/// evade they show.
pub proof fn lando_gains_what_his_dice_show(p: Play, i: int)
    requires
        0 <= i < p.game.ships.len(),
        p.game.ships[i].focus <= 253,
        p.game.ships[i].evade <= 253,
    ensures
        ({
            let q = p.lando(i);
            let (s, t) = (p.game.ships[i], q.game.ships[i]);
            let x = defense_face(p.dice.shows());
            let y = defense_face(p.dice.rolled().shows());
            &&& t.focus == s.focus + one_if(x == DefenseFace::Focus) + one_if(
                y == DefenseFace::Focus,
            )
            &&& t.evade == s.evade + one_if(x == DefenseFace::Evade) + one_if(
                y == DefenseFace::Evade,
            )
            &&& only_tokens(s, t) && t.stress == s.stress
            &&& others_stay(p.game, q.game, i)
            &&& q.dice == p.dice.rolled().rolled()
        }),
{
}

/// R5-D8 repairs one point of a damaged hull unless the defense die is blank,
/// and cannot act for a whole hull.
pub proof fn repairs_take_no_blank(p: Play, content: Content, i: int)
    requires
        0 <= i < p.game.ships.len(),
        p.game.ships[i].hull < u8::MAX,
    ensures
        ({
            let (q, r) = p.repair(content, i);
            let (s, t) = (p.game.ships[i], q.game.ships[i]);
            let damaged = s.facedown(content) > 0;
            let face = defense_face(p.dice.shows());
            &&& r == if damaged {
                ActionResult::Performed
            } else {
                ActionResult::Failed
            }
            &&& q.dice == if damaged {
                p.dice.rolled()
            } else {
                p.dice
            }
            &&& t.hull == s.hull + one_if(
                damaged && (face == DefenseFace::Evade || face == DefenseFace::Focus),
            )
            &&& t == ShipModel { hull: t.hull, ..s }
            &&& others_stay(p.game, q.game, i)
        }),
{
}

/// A living enemy at Range 1 that holds facedown damage cards.
pub open spec fn sabotable(g: Game, content: Content, sight: Sight, i: int, e: int) -> bool {
    &&& 0 <= e < g.ships.len()
    &&& g.side(g.ships[e].owner) != g.side(g.ships[i].owner)
    &&& !g.ships[e].destroyed
    &&& g.ships[e].facedown(content) > 0
    &&& g.ships[i].pose is Some && g.ships[e].pose is Some
    &&& sight.at(i, e).band == Some(1u8)
}

/// Saboteur needs an enemy at Range 1 with facedown cards. A miss harms
/// nobody; a hit or a critical deals the next card of the deck faceup to the
/// first such enemy.
pub proof fn saboteurs_turn_a_card_on_a_hit(p: Play, content: Content, sight: Sight, i: int)
    requires
        p.game.plain(content),
        0 <= i < p.game.ships.len(),
    ensures
        ({
            let g = p.game;
            let (q, r) = p.sabotage(content, sight, i);
            let face = attack_face(p.dice.shows());
            let bites = face == AttackFace::Hit || face == AttackFace::Crit;
            &&& r == ActionResult::Performed ==> exists|e: int| #[trigger] sabotable(g, content, sight, i, e)
            &&& r == ActionResult::Failed ==> forall|e: int| !#[trigger] sabotable(g, content, sight, i, e)
            &&& r == ActionResult::Failed || !bites ==> q.game.ships == g.ships
            &&& r == ActionResult::Performed && bites ==> exists|e: int|
                {
                    &&& #[trigger] sabotable(g, content, sight, i, e)
                    &&& forall|j: int| 0 <= j < e ==> !#[trigger] sabotable(g, content, sight, i, j)
                    &&& crate::game::hazards::carded(
                        g.ships[e],
                        q.game.ships[e],
                        drawn(p.dice.rolled().shows()),
                        p.dice.rolled().rolled().shows(),
                    )
                    &&& others_stay(g, q.game, e)
                }
        }),
{
    let g = p.game;
    let n = g.ships.len() as int;
    assert(n <= usize::MAX) by {
        reveal(Game::plain);
    }
    let rule = g.saboteur_rule(content, sight, i);
    first_is_first(rule, 0, n);
    assert forall|e: int| 0 <= e < n implies #[trigger] sabotable(g, content, sight, i, e) == rule(e) by {
    }
    let found = crate::pick::first(rule, 0, n);
    if found is Some {
        let e = found->0 as int;
        assert(rule(e) && sabotable(g, content, sight, i, e));
        assert forall|j: int| 0 <= j < e implies !#[trigger] sabotable(g, content, sight, i, j) by {
            assert(!rule(j));
        }
        let card = drawn(p.dice.rolled().shows());
        let told = p.rolled().rolled().saying(crate::event::Event::Saboteur(i as usize, e as usize, card));
        crate::game::plain::saying_keeps_plain(
            g,
            content,
            crate::event::Event::Saboteur(i as usize, e as usize, card),
        );
        crate::game::hazards::a_damage_card_does_what_it_says(told, content, e, card);
    }
}

} // verus!
