//! The end of a round: what is cleared away, what stays, and who resigns.

use vstd::prelude::*;

use crate::crit::{drawn, CritEffect};
use crate::data::Content;
use crate::dice::{attack_face, count, count_push, AttackFace};
use crate::game::deeds::nothing_switched_on;
use crate::game::ending::{ship_card, ticked, Standing};
use crate::game::hazards::others_stay;
use crate::game::plain::{
    a_plain_ship_stays_plain, a_ship_is_plain, no_ability_counts, no_effect_counts,
};
use crate::game::state::{Game, Phase, Play};
use crate::pick::{first, first_is_first};
use crate::ship::{PlayerId, ShipId, ShipModel};
use crate::sight::Sight;
use crate::upgrade::UpgradeEffect;

verus! {

/// After a round a Weapons Failure has one round less to go, and one without
/// rounds left is over; every other damage card stays.
pub proof fn failed_weapons_recover(crits: Seq<CritEffect>, card: CritEffect)
    ensures
        count(ticked(crits), card) == match card {
            CritEffect::WeaponsFailure { rounds } => if 1 <= rounds < u8::MAX {
                count(crits, CritEffect::WeaponsFailure { rounds: (rounds + 1) as u8 })
            } else {
                0
            },
            _ => count(crits, card),
        },
    decreases crits.len(),
{
    if crits.len() > 0 {
        let less = crits.drop_last();
        failed_weapons_recover(less, card);
        match crits.last() {
            CritEffect::WeaponsFailure { rounds } => if rounds > 1 {
                count_push(
                    ticked(less),
                    card,
                    CritEffect::WeaponsFailure { rounds: (rounds - 1) as u8 },
                );
            },
            other => {
                count_push(ticked(less), card, other);
            },
        }
    }
}

/// A ship keeps its locks on the living and loses those on the lost.
pub proof fn locks_on_the_lost_go(s: ShipModel, dead: Seq<ShipId>, id: ShipId)
    ensures
        s.released(dead).locks(id) <==> s.locks(id) && !dead.contains(id),
        s.released(dead) == (ShipModel {
            lock: s.released(dead).lock,
            lock2: s.released(dead).lock2,
            ..s
        }),
{
}

/// The lost are the destroyed ships, all of them and nobody else.
pub proof fn the_lost_are_the_destroyed(g: Game, n: int, id: ShipId)
    requires
        0 <= n <= g.ships.len(),
    ensures
        g.dead(n).contains(id) <==> exists|k: int|
            0 <= k < n && (#[trigger] g.ships[k]).destroyed && g.ships[k].id == id,
    decreases n,
{
    if n > 0 {
        the_lost_are_the_destroyed(g, n - 1, id);
        let less = g.dead(n - 1);
        let all = g.dead(n);
        if all.contains(id) {
            let j = choose|j: int| 0 <= j < all.len() && all[j] == id;
            if j < less.len() {
                assert(less[j] == id);
                assert(less.contains(id));
            } else {
                assert(g.ships[n - 1].destroyed && g.ships[n - 1].id == id);
            }
        }
        if exists|k: int| 0 <= k < n && (#[trigger] g.ships[k]).destroyed && g.ships[k].id == id {
            let k = choose|k: int|
                0 <= k < n && (#[trigger] g.ships[k]).destroyed && g.ships[k].id == id;
            if k < n - 1 {
                assert(less.contains(id));
                let j = choose|j: int| 0 <= j < less.len() && less[j] == id;
                assert(all[j] == id);
            } else {
                assert(all[less.len() as int] == id);
            }
        }
    }
}

/// `t` is ship `s` at the start of the next round: unspent focus and evade
/// tokens and what lasted for the round are gone; damage, stress, ion tokens
/// and the pose stay; a ship without hull is gone.
pub open spec fn rested(s: ShipModel, t: ShipModel, dead: Seq<ShipId>) -> bool {
    &&& t.focus == 0 && t.evade == 0 && t.tractor == 0
    &&& t.hull == s.hull && t.shields == s.shields
    &&& t.stress == s.stress && t.ion == s.ion && t.pose == s.pose
    &&& t.plan == s.plan && t.planned_action == s.planned_action && t.planned_action2 is None
    &&& t.upgrades == s.upgrades && t.ordnance == s.ordnance && t.owner == s.owner && t.id == s.id
    &&& t.destroyed == (s.destroyed || s.hull == 0)
    &&& !t.on_asteroid && !t.shield_lost_round && t.fresh_cockpits == 0
    &&& t.used_round.len() == 0 && t.card_uses.len() == 0 && t.card_actions.len() == 0
    &&& t.crits == ticked(s.crits)
    &&& forall|id: ShipId| #[trigger] t.locks(id) <==> s.locks(id) && !dead.contains(id)
}

proof fn nobody_is_baffled(g: Game, content: Content, i: int)
    requires
        nothing_switched_on(g),
        0 <= i,
    ensures
        g.baffled(content, i) == g,
    decreases g.ships.len() - i,
{
    if i < g.ships.len() {
        nobody_is_baffled(g, content, i + 1);
        assert(g.ships[i].card_uses.len() == 0);
        assert(g.ships[i].heeded(content, g.ships[i].card_uses).len() == 0);
    }
}

/// Ships without hull go down at the end of the round, and no other does.
pub proof fn hulls_at_zero_go_down(g: Game, i: int)
    requires
        0 <= i,
    ensures
        ({
            let h = g.felled(i);
            &&& h.ships.len() == g.ships.len()
            &&& h == Game { ships: h.ships, log: h.log, ..g }
            &&& forall|k: int|
                0 <= k < g.ships.len() ==> #[trigger] h.ships[k] == (ShipModel {
                    destroyed: g.ships[k].destroyed || (k >= i && g.ships[k].hull == 0),
                    ..g.ships[k]
                })
        }),
    decreases g.ships.len() - i,
{
    if i < g.ships.len() {
        let next = if g.ships[i].hull == 0 && !g.ships[i].destroyed {
            g.with_ship(i, ShipModel { destroyed: true, ..g.ships[i] }).saying(
                crate::event::Event::FelsWrath(i as usize),
            )
        } else {
            g
        };
        hulls_at_zero_go_down(next, i + 1);
    }
}

proof fn quiet_cards(p: Play, content: Content, sight: Sight, n: int)
    requires
        p.game.plain(content),
        0 <= n <= p.game.ships.len(),
    ensures
        p.colzet_by(content, n) == p,
        p.game.mara_by(content, sight, n) == p.game,
        p.game.r5p9_by(content, sight, n) == p.game,
        p.game.r5_by(content, n) == p.game,
        p.r2d2_by(content, n) == p,
    decreases n,
{
    broadcast use {no_effect_counts, no_ability_counts};

    if n > 0 {
        quiet_cards(p, content, sight, n - 1);
        reveal(Play::colzet);
        reveal(Game::mara);
        reveal(Game::r5p9);
        reveal(Game::r5);
        reveal(Play::r2d2);
    }
}

proof fn ships_are_cleared(g: Game, content: Content, dead: Seq<ShipId>, n: int)
    requires
        g.plain(content),
        0 <= n <= g.ships.len(),
    ensures
        ({
            let h = g.cleared_by(content, dead, n);
            &&& h.plain(content)
            &&& h.ships.len() == g.ships.len()
            &&& h == Game { ships: h.ships, ..g }
            &&& forall|k: int|
                0 <= k < g.ships.len() ==> #[trigger] h.ships[k] == if k < n {
                    g.ships[k].cleared(dead, false)
                } else {
                    g.ships[k]
                }
        }),
    decreases n,
{
    broadcast use no_effect_counts;

    if n > 0 {
        ships_are_cleared(g, content, dead, n - 1);
        let less = g.cleared_by(content, dead, n - 1);
        reveal(Game::clearing);
        a_ship_is_plain(less, content, n - 1);
        a_plain_ship_stays_plain(
            less,
            content,
            n - 1,
            less.ships[n - 1].cleared(dead, false),
        );
    }
}

/// In a game without cards, abilities or a mission, the End phase rests every
/// ship and does nothing else to it; the next round begins, or the game ends.
pub proof fn the_end_phase_rests_every_ship(p: Play, content: Content, sight: Sight, k: int)
    requires
        p.game.plain(content),
        nothing_switched_on(p.game),
        0 <= k < p.game.ships.len(),
    ensures
        ({
            let q = p.ended(content, sight);
            let fallen = p.game.felled(0);
            &&& q.dice == p.dice
            &&& q.game.ships.len() == p.game.ships.len()
            &&& rested(
                p.game.ships[k],
                q.game.ships[k],
                fallen.dead(p.game.ships.len() as int),
            )
            &&& q.game.bombs == p.game.bombs && q.game.obstacles == p.game.obstacles
            &&& q.game.phase == Phase::Planning || q.game.phase == Phase::GameOver
        }),
{
    reveal(Play::ended);
    reveal(Game::judged_over);
    let n = p.game.ships.len() as int;
    nobody_is_baffled(p.game, content, 0);
    hulls_at_zero_go_down(p.game, 0);
    let fallen = p.game.felled(0);
    assert(fallen.plain(content)) by {
        reveal(Game::plain);
        assert forall|j: int| 0 <= j < n implies (#[trigger] fallen.ships[j]).plain(content) by {
            assert(p.game.ships[j].plain(content));
        }
    }
    quiet_cards(p.at(fallen), content, sight, n);
    let dead = fallen.dead(n);
    ships_are_cleared(fallen, content, dead, n);
    let cleared = fallen.cleared_by(content, dead, n);
    quiet_cards(p.at(cleared), content, sight, n);
    assert(cleared.mission is None) by {
        reveal(Game::plain);
    }
    nothing_returns(cleared, content);
    assert(cleared.ships[k] == fallen.ships[k].cleared(dead, false));
    assert forall|id: ShipId| #[trigger] cleared.ships[k].locks(id) <==> p.game.ships[k].locks(id)
        && !dead.contains(id) by {
        locks_on_the_lost_go(fallen.ships[k], dead, id);
        assert(cleared.ships[k].locks(id) == fallen.ships[k].released(dead).locks(id));
        assert(fallen.ships[k].locks(id) == p.game.ships[k].locks(id));
    }
    let last = p.ended(content, sight).game.ships[k];
    assert forall|id: ShipId| #[trigger] last.locks(id) <==> p.game.ships[k].locks(id)
        && !dead.contains(id) by {
        assert(last.locks(id) == cleared.ships[k].locks(id));
    }
}

proof fn nothing_returns(g: Game, content: Content)
    requires
        g.mission is None,
    ensures
        g.mission_ended(content) == g,
{
    reveal(Game::reserves_called);
}

/// R5-P9 trades a focus token for a lost shield, where there is one of each.
pub proof fn r5p9_trades_focus_for_a_shield(g: Game, content: Content, sight: Sight, i: int)
    requires
        0 <= i < g.ships.len(),
        g.ships[i].shields < u8::MAX,
    ensures
        ({
            let s = g.ships[i];
            let trades = !s.destroyed && s.focus > 0 && s.shields < s.full_shields(content)
                && g.has(content, i, UpgradeEffect::RecoverShieldSpendFocus);
            let t = ShipModel {
                focus: (s.focus - 1) as u8,
                shields: (s.shields + 1) as u8,
                ..s
            };
            g.r5p9(content, sight, i) == if trades {
                g.with_ship(i, t).saying(crate::event::Event::R5P9(i as usize)).focus_spent(
                    content,
                    sight,
                    i,
                )
            } else {
                g
            }
        }),
{
    reveal(Game::r5p9);
}

/// R5 Astromech turns the first damage card on the ship itself facedown, never
/// one on its pilot, and nothing else.
pub proof fn r5_turns_a_ship_card(g: Game, content: Content, i: int, k: int)
    requires
        0 <= i < g.ships.len(),
        g.ships[i].crits.len() <= usize::MAX,
        0 <= k < g.ships[i].crits.len(),
        !g.ships[i].crits[k].on_pilot(),
        forall|j: int| 0 <= j < k ==> (#[trigger] g.ships[i].crits[j]).on_pilot(),
    ensures
        ({
            let (s, h) = (g.ships[i], g.r5(content, i));
            &&& !s.destroyed && g.has(content, i, UpgradeEffect::FlipShipCritFacedown)
                ==> h.ships[i] == (ShipModel { crits: s.crits.remove(k), ..s })
            &&& s.destroyed || !g.has(content, i, UpgradeEffect::FlipShipCritFacedown) ==> h == g
            &&& others_stay(g, h, i)
        }),
{
    reveal(Game::r5);
    ship_cards_are_found(g.ships[i].crits, 0, k);
}

proof fn ship_cards_are_found(crits: Seq<CritEffect>, from: int, k: int)
    requires
        0 <= from <= k < crits.len() <= usize::MAX,
        !crits[k].on_pilot(),
        forall|j: int| from <= j < k ==> (#[trigger] crits[j]).on_pilot(),
    ensures
        ship_card(crits, from) == Some(k as usize),
    decreases k - from,
{
    if from < k {
        ship_cards_are_found(crits, from + 1, k);
    }
}

/// R2-D2 (crew) brings one shield back to a ship that has none. On a hit a
/// damaged ship takes the next damage card faceup.
pub proof fn r2d2_risks_a_card(p: Play, content: Content, i: int)
    requires
        0 <= i < p.game.ships.len(),
    ensures
        ({
            let (g, q) = (p.game, p.r2d2(content, i));
            let s = g.ships[i];
            let acts = !s.destroyed && s.shields == 0 && g.has(
                content,
                i,
                UpgradeEffect::CrewRecoverShieldEndPhase,
            );
            let hit = attack_face(p.dice.shows()) == AttackFace::Hit && s.hull < s.full_hull(
                content,
            );
            &&& !acts ==> q == p
            &&& acts && !hit ==> q.dice == p.dice.rolled() && q.game.ships[i] == (ShipModel {
                shields: 1,
                ..s
            }) && others_stay(g, q.game, i)
            &&& acts && hit ==> q == Play {
                game: g.with_ship(i, ShipModel { shields: 1, ..s }).saying(
                    crate::event::Event::R2D2Faceup(i as usize, drawn(p.dice.rolled().shows())),
                ),
                dice: p.dice.rolled().rolled(),
            }.crit(content, i, drawn(p.dice.rolled().shows())).0
        }),
{
    reveal(Play::r2d2);
}

/// A player who resigns loses every ship and nobody else loses any.
pub proof fn resigning_takes_ones_own_ships(g: Game, player: PlayerId, n: int)
    requires
        0 <= n <= g.ships.len(),
    ensures
        ({
            let h = g.conceded(player, n);
            &&& h == Game { ships: h.ships, ..g }
            &&& h.ships.len() == g.ships.len()
            &&& forall|k: int|
                0 <= k < g.ships.len() ==> #[trigger] h.ships[k] == if k < n && g.ships[k].owner
                    == player {
                    ShipModel { destroyed: true, ..g.ships[k] }
                } else {
                    g.ships[k]
                }
        }),
    decreases n,
{
    if n > 0 {
        resigning_takes_ones_own_ships(g, player, n - 1);
    }
}

/// Sides are counted by their living ships: none, one, or several.
pub proof fn sides_stand_by_their_living_ships(g: Game, i: int, j: int)
    requires
        g.ships.len() <= usize::MAX,
        0 <= i < g.ships.len(),
        0 <= j < g.ships.len(),
        !g.ships[i].destroyed,
    ensures
        ({
            let side = g.side(g.ships[i].owner);
            let (a, b) = (g.ships[i], g.ships[j]);
            &&& !b.destroyed && g.side(b.owner) != side ==> g.standing() == Standing::Several
            &&& (forall|k: int|
                0 <= k < g.ships.len() && !(#[trigger] g.ships[k]).destroyed ==> g.side(
                    g.ships[k].owner,
                ) == side) ==> g.standing() == Standing::One(side)
        }),
{
    reveal(Game::standing);
    let n = g.ships.len() as int;
    first_is_first(g.alive_rule(), 0, n);
    assert(g.alive_rule()(i));
    let k = first(g.alive_rule(), 0, n)->0 as int;
    assert(g.alive_rule()(k));
    let side = g.side(g.ships[k].owner);
    first_is_first(g.rival_rule(side), 0, n);
    if !g.ships[j].destroyed && g.side(g.ships[j].owner) != g.side(g.ships[i].owner) {
        assert(g.rival_rule(side)(i) || g.rival_rule(side)(j));
    }
}

/// Without a mission, a resignation ends the game when one side is left
/// flying, which wins; while two are, the game goes on.
pub proof fn the_side_left_flying_wins_by_resignation(g: Game, player: PlayerId, i: int, j: int)
    requires
        g.mission is None,
        g.ships.len() <= usize::MAX,
        0 <= i < g.ships.len(),
        0 <= j < g.ships.len(),
        g.ships[i].owner != player,
        !g.ships[i].destroyed,
    ensures
        ({
            let (h, over) = g.resigned(player);
            let side = g.side(g.ships[i].owner);
            let (a, b) = (g.ships[i], g.ships[j]);
            &&& b.owner != player && !b.destroyed && g.side(b.owner) != side ==> over is None
                && h.phase == g.phase && h.winner == g.winner
            &&& (forall|k: int|
                0 <= k < g.ships.len() && (#[trigger] g.ships[k]).owner != player
                    && !g.ships[k].destroyed ==> g.side(g.ships[k].owner) == side) ==> over == Some(
                side,
            ) && h.winner == Some(side) && h.phase == Phase::GameOver
        }),
{
    reveal(Game::resigned);
    let n = g.ships.len() as int;
    resigning_takes_ones_own_ships(g, player, n);
    let c = g.conceded(player, n);
    let h = if player.0 < c.committed.len() {
        Game { committed: c.committed.update(player.0 as int, true), ..c }
    } else {
        c
    };
    let side = g.side(g.ships[i].owner);
    assert(h.ships[i] == g.ships[i]);
    assert(h.ships[j] == if g.ships[j].owner == player {
        ShipModel { destroyed: true, ..g.ships[j] }
    } else {
        g.ships[j]
    });
    assert(forall|p: PlayerId| #[trigger] h.side(p) == g.side(p));
    sides_stand_by_their_living_ships(h, i, j);
    if forall|k: int|
        0 <= k < g.ships.len() && (#[trigger] g.ships[k]).owner != player
            && !g.ships[k].destroyed ==> g.side(g.ships[k].owner) == side {
        assert forall|k: int| 0 <= k < n && !(#[trigger] h.ships[k]).destroyed implies h.side(
            h.ships[k].owner,
        ) == side by {
            assert(h.ships[k] == g.ships[k] && g.ships[k].owner != player);
        }
    }
}

} // verus!
