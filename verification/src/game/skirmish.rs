//! A plain attack touches the two ships that fight, and nothing else of them
//! than damage and the tokens they spend.

use vstd::prelude::*;

use crate::crit::CritEffect;
use crate::data::Content;
use crate::dice::{tally, AttackFace};
use crate::event::Event;
use crate::game::actions::Moves;
use crate::game::duels::{duel, spent_on_dice, spent_on_guard, the_plain_guard, the_plain_roll};
use crate::game::hazards::others_stay;
use crate::game::impact::Toll;
use crate::game::plain::{
    a_plain_ship_stays_plain, a_ship_is_plain, no_ability_counts, no_card_counts, no_effect_counts,
    nobody_is_picked, saying_keeps_plain,
};
use crate::game::state::{Game, Play, Shot};
use crate::ship::{sat, ShipModel};
use crate::sight::Sight;
use crate::upgrade::UpgradeEffect;

verus! {

/// `t` is ship `s` but for damage: hull, shields, damage cards, and what they
/// bring with them.
pub open spec fn only_hurt(s: ShipModel, t: ShipModel) -> bool {
    t == ShipModel {
        hull: t.hull,
        shields: t.shields,
        destroyed: t.destroyed,
        crits: t.crits,
        shield_lost_round: t.shield_lost_round,
        fresh_cockpits: t.fresh_cockpits,
        ..s
    }
}

/// Ship `d` is hurt at most, and nobody else is touched.
pub open spec fn one_hurt(g: Game, h: Game, d: int) -> bool {
    only_hurt(g.ships[d], h.ships[d]) && others_stay(g, h, d)
}

proof fn hits_hurt_one(g: Game, content: Content, d: int, n: int, toll: Toll)
    requires
        g.plain(content),
        0 <= d < g.ships.len(),
    ensures
        one_hurt(g, g.hits_dealt(d, n, toll).0, d),
        g.hits_dealt(d, n, toll).0.plain(content),
    decreases n,
{
    if n > 0 && !g.ships[d].destroyed {
        a_ship_is_plain(g, content, d);
        a_plain_ship_stays_plain(g, content, d, g.ships[d].hit());
        hits_hurt_one(
            g.damaged(d),
            content,
            d,
            n - 1,
            toll.and(crate::game::tokens::point(g.ships[d])),
        );
    }
}

proof fn a_card_hurts_one(p: Play, content: Content, d: int, card: CritEffect)
    requires
        p.game.plain(content),
        0 <= d < p.game.ships.len(),
    ensures
        one_hurt(p.game, p.crit(content, d, card).0.game, d),
        p.crit(content, d, card).0.game.plain(content),
{
    broadcast use {no_effect_counts, no_ability_counts, no_card_counts};

    reveal(Play::crit);
    let g = p.game;
    let s = g.ships[d];
    a_ship_is_plain(g, content, d);
    a_plain_ship_stays_plain(g, content, d, s.hit());
    a_plain_ship_stays_plain(g, content, d, s.hull_hit());
    a_plain_ship_stays_plain(g, content, d, ShipModel { crits: s.crits.skip(1), ..s });
    a_plain_ship_stays_plain(g, content, d, s.with_crit(card));
    let flares = g.saying(Event::ExplosionFlares(d as usize));
    saying_keeps_plain(g, content, Event::ExplosionFlares(d as usize));
    a_plain_ship_stays_plain(flares, content, d, s.hit());
    assert(p.crit(content, d, card).0.game.plain(content)) by {
        reveal(Game::plain);
    }
}

proof fn a_deal_hurts_one(p: Play, content: Content, a: int, d: int)
    requires
        p.game.plain(content),
        0 <= a < p.game.ships.len(),
        0 <= d < p.game.ships.len(),
    ensures
        one_hurt(p.game, p.card_dealt(content, a, d).0.game, d),
        p.card_dealt(content, a, d).0.game.plain(content),
{
    broadcast use no_ability_counts;

    let (q, effect) = p.dealt(content, a);
    let told = q.saying(Event::Critical(d as usize, effect));
    saying_keeps_plain(p.game, content, Event::Critical(d as usize, effect));
    assert(told.game == p.game.saying(Event::Critical(d as usize, effect)));
    a_card_hurts_one(told, content, d, effect);
}

proof fn criticals_hurt_one(p: Play, content: Content, a: int, d: int, n: int, toll: Toll)
    requires
        p.game.plain(content),
        0 <= a < p.game.ships.len(),
        0 <= d < p.game.ships.len(),
    ensures
        one_hurt(p.game, p.crits_dealt(content, a, d, false, n, toll).0.game, d),
        p.crits_dealt(content, a, d, false, n, toll).0.game.plain(content),
    decreases n,
{
    let s = p.game.ships[d];
    if n > 0 && !s.destroyed {
        a_ship_is_plain(p.game, content, d);
        a_plain_ship_stays_plain(p.game, content, d, s.hit());
        let q = p.at(p.game.damaged(d));
        let taken = crate::game::tokens::point(s);
        let after = toll.and(taken);
        if taken == crate::game::tokens::DamagePoint::Hull {
            let more = Toll { crits: sat(after.crits + 1), ..after };
            if !q.game.ships[d].destroyed {
                a_deal_hurts_one(q, content, a, d);
                let (r, extra) = q.card_dealt(content, a, d);
                criticals_hurt_one(r, content, a, d, n - 1, more.plus(extra));
            } else {
                criticals_hurt_one(q, content, a, d, n - 1, more);
            }
        } else {
            criticals_hurt_one(q, content, a, d, n - 1, after);
        }
    }
}

proof fn suffering_hurts_one(g: Game, content: Content, d: int, toll: Toll, hit: bool)
    requires
        g.plain(content),
        0 <= d < g.ships.len(),
    ensures
        one_hurt(g, g.suffered(content, d, toll, hit), d),
        g.suffered(content, d, toll, hit).plain(content),
{
    broadcast use {no_effect_counts, no_ability_counts};

    reveal(Game::suffered);
    reveal(Game::reinforced);
    let s = ShipModel { shield_lost_round: true, ..g.ships[d] };
    a_ship_is_plain(g, content, d);
    a_plain_ship_stays_plain(g, content, d, s);
    let h = if toll.shields > 0 && !g.ships[d].destroyed {
        g.shield_lost(content, d)
    } else {
        g
    };
    assert(h.plain(content));
    assert(h.ships[d].active(content).len() == 0) by {
        a_ship_is_plain(h, content, d);
    }
}

proof fn a_strike_hurts_one(
    p: Play,
    content: Content,
    sight: Sight,
    a: int,
    shot: Shot,
    rolled: (u8, u8),
    evades: u8,
)
    requires
        p.game.plain(content),
        0 <= a < p.game.ships.len(),
        shot.d_idx < p.game.ships.len(),
        shot.weapon is None,
    ensures
        ({
            let q = p.struck_by(content, sight, a, shot, rolled, evades, false).play;
            &&& one_hurt(p.game, q.game, shot.d_idx as int)
            &&& q.game.plain(content)
        }),
{
    broadcast use no_effect_counts;

    reveal(Play::struck_by);
    reveal(Game::r4d6);
    reveal(Game::weapon_result);
    reveal(Play::damage_dealt);
    reveal(Game::wampa_dealt);
    let d = shot.d_idx as int;
    let (hits, crits) = crate::game::impact::compared(
        rolled.0,
        rolled.1,
        evades,
        crate::game::impact::uncancelable(shot.rider(content)),
    );
    crate::game::plain::nobody_draws_fire(p, content, sight, d, crits);
    assert(!p.game.is_shuttle(d)) by {
        reveal(Game::plain);
    }
    hits_hurt_one(p.game, content, d, hits as int, Toll::nothing());
    let (g, toll) = p.game.hits_dealt(d, hits as int, Toll::nothing());
    criticals_hurt_one(p.at(g), content, a, d, crits as int, toll);
    let (q, all) = p.at(g).crits_dealt(content, a, d, false, crits as int, toll);
    suffering_hurts_one(q.game, content, d, all, hits > 0 || crits > 0);
}

proof fn winding_up_touches_nobody(
    p: Play,
    content: Content,
    sight: Sight,
    moves: Moves,
    a: int,
    shot: Shot,
    landed: bool,
    lock_spent: bool,
)
    requires
        p.game.plain(content),
        0 <= a < p.game.ships.len(),
        shot.d_idx < p.game.ships.len(),
        shot.weapon is None,
    ensures
        p.wound_up(content, sight, moves, a, shot, landed, lock_spent).0 == p,
{
    broadcast use {no_effect_counts, no_ability_counts};

    reveal(Play::wound_up);
    reveal(Play::attack_cards);
    reveal(Game::riders);
    reveal(Game::fire_control);
    reveal(Play::relocked);
    reveal(Game::missed);
    reveal(Game::expended);
    reveal(Game::turr);
    let g = p.game;
    assert(g.ships.len() <= usize::MAX) by {
        reveal(Game::plain);
    }
    let rule = g.specialist_rule(content, sight, a);
    assert forall|k: int| 0 <= k < g.ships.len() implies !#[trigger] rule(k) by {
        assert(!g.has(content, k, UpgradeEffect::CrewFocusAfterFriendlyMiss));
    }
    nobody_is_picked(rule, g.ships.len() as int);
}

/// After a plain attack nobody but the two that fight has changed. The
/// attacker has spent the lock and the focus token that the record says, and
/// nothing else; the defender has spent its own, and is hurt.
pub proof fn a_plain_attack_touches_two_ships(
    p: Play,
    content: Content,
    sight: Sight,
    moves: Moves,
    a: int,
    shot: Shot,
    k: int,
)
    requires
        duel(p.game, content, a, shot),
        p.game.ships[shot.d_idx as int].printed(content).agility < 254,
        0 <= k < p.game.ships.len(),
    ensures
        ({
            let (q, r) = p.attacked(content, sight, moves, a, shot);
            let d = shot.d_idx as int;
            let (s, e) = (p.game.ships[a], p.game.ships[d]);
            &&& q.game.ships.len() == p.game.ships.len()
            &&& k != a && k != d ==> q.game.ships[k] == p.game.ships[k]
            &&& q.game.ships[a] == spent_on_dice(s, e.id, r.lock_spent, r.attacker_focus_spent)
            &&& only_hurt(
                spent_on_guard(e, r.defender_focus_spent, r.evade_spent),
                q.game.ships[d],
            )
        }),
{
    reveal(Play::attacked);
    let d = shot.d_idx as int;
    let aimed = p.attack_rolled(content, sight, a, shot);
    let t = aimed.throw;
    the_plain_roll(p, content, sight, a, shot);
    let rolled = (tally(t.faces, AttackFace::Hit), tally(t.faces, AttackFace::Crit));
    let rolling = Play { game: t.game, dice: t.dice };
    let incoming = sat(rolled.0 + rolled.1);
    assert(t.game.ships[d] == p.game.ships[d]);
    the_plain_guard(
        rolling,
        content,
        sight,
        a,
        shot,
        t.faces.len(),
        incoming,
        aimed.verdict,
    );
    let guarded = rolling.defense_rolled(
        content,
        sight,
        a,
        shot,
        t.faces.len(),
        incoming,
        aimed.verdict,
    );
    let u = guarded.throw;
    a_ship_is_plain(t.game, content, d);
    a_plain_ship_stays_plain(
        t.game,
        content,
        d,
        spent_on_guard(t.game.ships[d], guarded.focus, guarded.evade),
    );
    let met = Play { game: u.game, dice: u.dice };
    a_strike_hurts_one(met, content, sight, a, shot, rolled, guarded.evades);
    let struck = met.struck_by(content, sight, a, shot, rolled, guarded.evades, false);
    winding_up_touches_nobody(
        struck.play,
        content,
        sight,
        moves,
        a,
        shot,
        struck.landed,
        aimed.spent.lock,
    );
}

} // verus!
