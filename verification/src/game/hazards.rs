//! What harms a ship outside of attacks: damage cards, obstacles, bombs and
//! fires.

use vstd::prelude::*;

use crate::bombs::{BombHit, BombKind};
use crate::crit::{drawn, CritEffect};
use crate::data::Content;
use crate::dice::{attack_face, AttackFace};
use crate::event::Event;
use crate::game::blasts::marked;
use crate::game::closing::{dragged, Drag};
use crate::game::flight::{touched_by, Crossing};
use crate::game::plain::{a_ship_is_plain, no_ability_counts, no_card_counts, no_effect_counts};
use crate::game::state::{Game, Play};
use crate::obstacle::{Obstacle, ObstacleKind};
use crate::pick::{first_is_first, picked_obey};
use crate::pilot::PilotAbility;
use crate::ship::ShipModel;
use crate::sight::Sight;
use crate::upgrade::UpgradeEffect;

verus! {

/// `t` is what one point of damage leaves of a ship: a shield less, or where
/// there is none a hull point less, and a ship without hull is destroyed
/// unless it lingers.
pub open spec fn lost_a_point(s: ShipModel, t: ShipModel) -> bool {
    &&& s.shields > 0 ==> t.shields == s.shields - 1 && t.hull == s.hull && t.destroyed
        == s.destroyed
    &&& s.shields == 0 ==> lost_hull(s, t)
}

/// `t` is what one point past the shields leaves of a ship.
pub open spec fn lost_hull(s: ShipModel, t: ShipModel) -> bool {
    &&& t.shields == s.shields
    &&& s.hull > 0 ==> t.hull == s.hull - 1
    &&& s.hull == 0 ==> t.hull == 0
    &&& t.destroyed == (s.destroyed || (s.hull == 1 && !s.lingers))
}

/// Neither shields nor hull have changed.
pub open spec fn unhurt(s: ShipModel, t: ShipModel) -> bool {
    t.shields == s.shields && t.hull == s.hull && t.destroyed == s.destroyed
}

/// `t` is what a faceup damage card leaves of a ship, where the next raw value
/// of the dice is `die`.
pub open spec fn carded(s: ShipModel, t: ShipModel, card: CritEffect, die: u8) -> bool {
    match card {
        CritEffect::DirectHit => lost_hull(s, t) && t.crits == s.crits,
        CritEffect::MinorExplosion => t.crits == s.crits && if attack_face(die)
            == AttackFace::Hit {
            lost_a_point(s, t)
        } else {
            unhurt(s, t)
        },
        CritEffect::MinorHullBreach => unhurt(s, t) && t.crits == if s.crits.len() > 0 {
            s.crits.skip(1)
        } else {
            s.crits
        },
        _ => unhurt(s, t) && t.crits == s.crits.push(card),
    }
}

/// Every ship but `i` is as it was.
pub open spec fn others_stay(g: Game, h: Game, i: int) -> bool {
    &&& h.ships.len() == g.ships.len()
    &&& forall|j: int| 0 <= j < g.ships.len() && j != i ==> #[trigger] h.ships[j] == g.ships[j]
}

/// A point of damage takes a shield, else a hull point, from that ship alone.
pub proof fn damage_takes_a_shield_first(g: Game, i: int)
    requires
        0 <= i < g.ships.len(),
    ensures
        lost_a_point(g.ships[i], g.damaged(i).ships[i]),
        lost_hull(g.ships[i], g.hulled(i).ships[i]),
        others_stay(g, g.damaged(i), i),
        others_stay(g, g.hulled(i), i),
        g.damaged(i).ships[i].crits == g.ships[i].crits,
{
}

/// A faceup card on a ship without cards or ability does what it says, to that
/// ship alone, and what it cost is told: (shields, hull).
pub proof fn a_damage_card_does_what_it_says(
    p: Play,
    content: Content,
    i: int,
    card: CritEffect,
)
    requires
        p.game.plain(content),
        0 <= i < p.game.ships.len(),
    ensures
        ({
            let (q, extra) = p.crit(content, i, card);
            let (s, t) = (p.game.ships[i], q.game.ships[i]);
            &&& carded(s, t, card, p.dice.shows())
            &&& others_stay(p.game, q.game, i)
            &&& extra.0 == s.shields - t.shields
            &&& extra.1 == s.hull - t.hull
            &&& q.dice == if card == CritEffect::MinorExplosion {
                p.dice.rolled()
            } else {
                p.dice
            }
        }),
{
    broadcast use {no_effect_counts, no_card_counts, no_ability_counts};

    reveal(Play::crit);
    a_ship_is_plain(p.game, content, i);
}

/// A faceup card dealt by the dice: a hull point goes, and if the ship
/// survives, the card of the next raw value does what it says.
pub proof fn a_faceup_card_costs_hull(p: Play, content: Content, i: int)
    requires
        p.game.plain(content),
        0 <= i < p.game.ships.len(),
        p.game.ships[i].hull > 0,
        !p.game.ships[i].destroyed,
    ensures
        ({
            let q = p.faceup(content, i);
            let (s, t) = (p.game.ships[i], q.game.ships[i]);
            let card = drawn(p.dice.shows());
            &&& t.hull < s.hull
            &&& t.shields <= s.shields
            &&& others_stay(p.game, q.game, i)
            &&& s.hull == 1 ==> t.hull == 0 && t.destroyed && t.crits == s.crits && q.dice
                == p.dice
            &&& s.hull > 1 ==> carded(
                ShipModel { hull: (s.hull - 1) as u8, ..s },
                t,
                card,
                p.dice.rolled().shows(),
            )
        }),
{
    a_ship_is_plain(p.game, content, i);
    let s = p.game.ships[i];
    if s.hull > 1 {
        let h = p.at(p.game.hulled(i));
        crate::game::plain::a_plain_ship_stays_plain(p.game, content, i, s.hull_hit());
        let card = drawn(p.shows());
        let told = h.rolled().saying(Event::Critical(i as usize, card));
        crate::game::plain::saying_keeps_plain(
            h.game,
            content,
            Event::Critical(i as usize, card),
        );
        a_damage_card_does_what_it_says(told, content, i, card);
        assert(h.critical(content, i) == told.crit(content, i, card).0);
    }
}

/// An asteroid: a hit costs a point, a critical is a faceup card, anything
/// else nothing; a base left on it is marked, and the die is the next value.
pub proof fn asteroids_hurt_by_the_die(
    p: Play,
    content: Content,
    sight: Sight,
    i: int,
    rock: Obstacle,
    under: bool,
)
    requires
        p.game.plain(content),
        0 <= i < p.game.ships.len(),
        p.game.ships[i].hull > 0,
        !p.game.ships[i].destroyed,
        rock.kind == ObstacleKind::Asteroid,
    ensures
        ({
            let q = p.collided(content, sight, i, (rock, under), false);
            let (s, t) = (p.game.ships[i], q.game.ships[i]);
            let die = attack_face(p.dice.shows());
            let card = drawn(p.dice.rolled().shows());
            &&& others_stay(p.game, q.game, i)
            &&& die == AttackFace::Hit ==> lost_a_point(s, t) && t.crits == s.crits
            &&& die == AttackFace::Crit ==> t.hull < s.hull
            &&& die == AttackFace::Crit && s.hull == 1 ==> t.destroyed
            &&& die == AttackFace::Crit && s.hull > 1 ==> carded(
                ShipModel { hull: (s.hull - 1) as u8, ..s },
                t,
                card,
                p.dice.rolled().rolled().shows(),
            )
            &&& die == AttackFace::Focus || die == AttackFace::Blank ==> unhurt(s, t) && t.crits
                == s.crits
            &&& under ==> t.on_asteroid
            &&& !under ==> t.on_asteroid == s.on_asteroid
        }),
{
    broadcast use no_ability_counts;

    reveal(Play::rocked);
    let r = p.rolled();
    let told = r.saying(Event::AsteroidCrit(i as usize));
    crate::game::plain::saying_keeps_plain(r.game, content, Event::AsteroidCrit(i as usize));
    a_faceup_card_costs_hull(told, content, i);
    a_ship_is_plain(p.game, content, i);
    faceup_leaves_the_asteroid(told, content, i);
    let after = match attack_face(p.shows()) {
        AttackFace::Hit => r.at(r.game.damaged(i)).saying(Event::AsteroidHit(i as usize)),
        AttackFace::Crit => told.faceup(content, i),
        _ => r.saying(Event::AsteroidGrazed(i as usize)),
    };
    watching_hurts_nobody(after.game, content, i, p.game.ships[i].shields);
}

proof fn faceup_leaves_the_asteroid(p: Play, content: Content, i: int)
    requires
        0 <= i < p.game.ships.len(),
    ensures
        p.faceup(content, i).game.ships.len() == p.game.ships.len(),
        p.faceup(content, i).game.ships[i].on_asteroid == p.game.ships[i].on_asteroid,
{
    reveal(Play::crit);
}

/// "Red Ace" watching changes tokens only.
pub proof fn watching_hurts_nobody(g: Game, content: Content, i: int, before: u8)
    requires
        0 <= i < g.ships.len(),
    ensures
        ({
            let h = g.shields_watched(content, i, before);
            &&& unhurt(g.ships[i], h.ships[i])
            &&& h.ships[i].crits == g.ships[i].crits
            &&& h.ships[i].stress == g.ships[i].stress
            &&& h.ships[i].on_asteroid == g.ships[i].on_asteroid
            &&& others_stay(g, h, i)
        }),
{
}

/// The first shield that "Red Ace" loses in a round, and lives, brings an
/// evade token; later ones do not, and nobody else gains any.
pub proof fn red_ace_evades_once(g: Game, content: Content, i: int, before: u8)
    requires
        0 <= i < g.ships.len(),
        g.ships[i].evade < u8::MAX,
    ensures
        ({
            let (s, t) = (g.ships[i], g.shields_watched(content, i, before).ships[i]);
            let lost = s.shields < before && !s.destroyed;
            let ace = s.ability(content) == Some(PilotAbility::EvadeOnFirstShieldLoss);
            &&& lost && ace && !s.shield_lost_round ==> t.evade == s.evade + 1
            &&& !(lost && ace && !s.shield_lost_round) ==> t.evade == s.evade
            &&& lost ==> t.shield_lost_round
        }),
{
}

/// A stress token on a ship without cards or ability, with no ability about,
/// stays with it.
pub proof fn stress_is_received(g: Game, content: Content, sight: Sight, i: int)
    requires
        g.plain(content),
        0 <= i < g.ships.len(),
        g.ships[i].card_uses.len() == 0,
        g.ships[i].stress < u8::MAX,
    ensures
        ({
            let h = g.stressed(content, sight, i);
            &&& h.ships[i].stress == g.ships[i].stress + 1
            &&& h.ships[i] == ShipModel { stress: h.ships[i].stress, ..g.ships[i] }
            &&& unhurt(g.ships[i], h.ships[i])
            &&& h.ships[i].crits == g.ships[i].crits
            &&& h.ships[i].focus == g.ships[i].focus
            &&& others_stay(g, h, i)
            &&& h.plain(content)
        }),
{
    broadcast use {no_ability_counts, no_card_counts};

    reveal(Game::stressed);
    let friends = g.near(sight, i, 2);
    assert(g.ships.len() <= usize::MAX) by {
        reveal(Game::plain);
    }
    picked_obey(g.friend_rule(sight, i, 2), 0, g.ships.len() as int);
    first_is_first(g.yorr_rule(content, friends), 0, friends.len() as int);
    assert forall|k: int| 0 <= k < friends.len() implies !#[trigger] g.yorr_rule(
        content,
        friends,
    )(k) by {
        assert(friends[k] < g.ships.len());
        assert(!g.can(
            content,
            friends[k] as int,
            PilotAbility::AbsorbFriendlyStressAtRange1To2,
        ));
    }
    a_ship_is_plain(g, content, i);
    let s = g.ships[i].with_stress();
    crate::game::plain::a_plain_ship_stays_plain(g, content, i, s);
    let h = g.with_ship(i, s);
    a_ship_is_plain(h, content, i);
    assert(h.ships[i].using(content, UpgradeEffect::SystemDamageToDiscardToken) is None) by {
        if h.ships[i].crits.contains(CritEffect::InjuredPilot) {
        }
    }
}

/// Debris: a stress token, and only a critical hurts, as a faceup card.
pub proof fn debris_stresses_and_a_critical_hurts(
    p: Play,
    content: Content,
    sight: Sight,
    i: int,
    debris: Obstacle,
    under: bool,
)
    requires
        p.game.plain(content),
        0 <= i < p.game.ships.len(),
        p.game.ships[i].hull > 0,
        !p.game.ships[i].destroyed,
        p.game.ships[i].card_uses.len() == 0,
        p.game.ships[i].stress < u8::MAX,
        debris.kind == ObstacleKind::Debris,
    ensures
        ({
            let q = p.collided(content, sight, i, (debris, under), false);
            let (s, t) = (p.game.ships[i], q.game.ships[i]);
            let die = attack_face(p.dice.shows());
            &&& others_stay(p.game, q.game, i)
            &&& t.stress == s.stress + 1
            &&& die != AttackFace::Crit ==> unhurt(s, t) && t.crits == s.crits
            &&& die == AttackFace::Crit ==> t.hull < s.hull
            &&& die == AttackFace::Crit && s.hull > 1 ==> carded(
                ShipModel { hull: (s.hull - 1) as u8, ..s },
                t,
                drawn(p.dice.rolled().shows()),
                p.dice.rolled().rolled().shows(),
            )
        }),
{
    reveal(Play::littered);
    let r = p.rolled().saying(Event::DebrisStress(i as usize));
    crate::game::plain::saying_keeps_plain(p.game, content, Event::DebrisStress(i as usize));
    stress_is_received(r.game, content, sight, i);
    let b = r.at(r.game.stressed(content, sight, i)).saying(Event::DebrisCrit(i as usize));
    crate::game::plain::saying_keeps_plain(
        r.game.stressed(content, sight, i),
        content,
        Event::DebrisCrit(i as usize),
    );
    a_ship_is_plain(p.game, content, i);
    a_ship_is_plain(b.game, content, i);
    a_faceup_card_costs_hull(b, content, i);
    faceup_keeps_stress(b, content, i);
    watching_hurts_nobody(b.faceup(content, i).game, content, i, b.game.ships[i].shields);
}

proof fn faceup_keeps_stress(p: Play, content: Content, i: int)
    requires
        p.game.plain(content),
        0 <= i < p.game.ships.len(),
    ensures
        p.faceup(content, i).game.ships[i].stress == p.game.ships[i].stress,
        p.faceup(content, i).game.ships.len() == p.game.ships.len(),
{
    reveal(Play::crit);
}

/// A black hole swallows the ship.
pub proof fn black_holes_swallow(
    p: Play,
    content: Content,
    sight: Sight,
    i: int,
    hole: Obstacle,
    under: bool,
    detector: bool,
)
    requires
        0 <= i < p.game.ships.len(),
        hole.kind == ObstacleKind::BlackHole,
    ensures
        p.collided(content, sight, i, (hole, under), detector).game.ships[i].destroyed,
        others_stay(p.game, p.collided(content, sight, i, (hole, under), detector).game, i),
{
}

/// Every obstacle touched counts, with whether the base ended on it.
pub proof fn every_touched_obstacle_counts(
    all: Seq<Obstacle>,
    touched: Seq<bool>,
    under: Seq<bool>,
    n: int,
    k: int,
)
    requires
        0 <= k < n <= all.len(),
        k < touched.len(),
        touched[k],
    ensures
        touched_by(all, touched, under, n).contains(
            (all[k], k < under.len() && under[k]),
        ),
    decreases n,
{
    let now = touched_by(all, touched, under, n);
    let rest = touched_by(all, touched, under, n - 1);
    if k == n - 1 {
        assert(now[rest.len() as int] == (all[k], marked(under, k)));
    } else {
        every_touched_obstacle_counts(all, touched, under, n - 1, k);
        let j = choose|j: int| 0 <= j < rest.len() && rest[j] == (all[k], marked(under, k));
        assert(now[j] == rest[j]);
    }
}

/// Only obstacles that were touched count.
pub proof fn only_touched_obstacles_count(
    all: Seq<Obstacle>,
    touched: Seq<bool>,
    under: Seq<bool>,
    n: int,
    j: int,
)
    requires
        0 <= n <= all.len(),
        0 <= j < touched_by(all, touched, under, n).len(),
    ensures
        exists|m: int|
            0 <= m < n && m < touched.len() && touched[m] && #[trigger] all[m] == touched_by(
                all,
                touched,
                under,
                n,
            )[j].0,
    decreases n,
{
    let now = touched_by(all, touched, under, n);
    let rest = touched_by(all, touched, under, n - 1);
    if n > 0 {
        if j < rest.len() {
            only_touched_obstacles_count(all, touched, under, n - 1, j);
            assert(now[j] == rest[j]);
        } else {
            assert(all[n - 1] == now[j].0);
        }
    }
}

/// A ship without cards that crosses one obstacle collides with it; one that
/// crosses none, or is already destroyed, with nothing.
pub proof fn crossing_collides(
    p: Play,
    content: Content,
    sight: Sight,
    i: int,
    crossing: Crossing,
)
    requires
        p.game.plain(content),
        0 <= i < p.game.ships.len(),
    ensures
        ({
            let all = p.game.obstacles;
            let crossed = touched_by(
                all,
                crossing.touched@,
                crossing.under@,
                all.len() as int,
            );
            let (q, ids, rock) = p.crossing(content, sight, i, crossing);
            &&& p.game.ships[i].destroyed ==> q == p && ids.len() == 0 && !rock
            &&& crossed.len() == 0 ==> q == p && ids.len() == 0 && !rock
            &&& crossed.len() == 1 && !p.game.ships[i].destroyed ==> {
                &&& q == p.collided(content, sight, i, crossed[0], false)
                &&& ids == seq![crossed[0].0.id]
                &&& rock == (crossed[0].0.kind == ObstacleKind::Asteroid)
            }
        }),
{
    broadcast use {no_effect_counts, no_card_counts};

    reveal(Play::crossing);
    reveal_with_fuel(Play::colliding, 2);
    let all = p.game.obstacles;
    let crossed = touched_by(all, crossing.touched@, crossing.under@, all.len() as int);
    if crossed.len() == 1 && !p.game.ships[i].destroyed {
        assert(Seq::<u32>::empty().push(crossed[0].0.id) =~= seq![crossed[0].0.id]);
    }
}

/// Console Fire: a burning ship on the board rolls one attack die, and a hit
/// costs it a point; a ship that does not burn rolls nothing.
pub proof fn console_fires_burn_on_a_hit(p: Play, content: Content, i: int)
    requires
        0 <= i < p.game.ships.len(),
    ensures
        ({
            let q = p.singed(content, i);
            let (s, t) = (p.game.ships[i], q.game.ships[i]);
            let burns = !s.destroyed && s.pose is Some && s.crits.contains(CritEffect::ConsoleFire);
            &&& others_stay(p.game, q.game, i)
            &&& burns ==> q.dice == p.dice.rolled()
            &&& burns && attack_face(p.dice.shows()) == AttackFace::Hit ==> lost_a_point(s, t)
            &&& burns && attack_face(p.dice.shows()) != AttackFace::Hit ==> unhurt(s, t)
            &&& !burns ==> q == p
        }),
{
    let s = p.game.ships[i];
    let g = p.game.damaged(i).saying(
        Event::ConsoleFire(i as usize, p.game.damaged(i).ships[i].destroyed),
    );
    watching_hurts_nobody(g, content, i, s.shields);
}

/// Stunned Pilot: a bump costs a point, and nothing else does.
pub proof fn stunned_pilots_are_hurt_by_bumps(g: Game, content: Content, i: int, bumped: bool)
    requires
        0 <= i < g.ships.len(),
    ensures
        ({
            let h = g.stunned(content, i, bumped);
            let (s, t) = (g.ships[i], h.ships[i]);
            let hurts = bumped && !s.destroyed && s.crits.contains(CritEffect::StunnedPilot);
            &&& others_stay(g, h, i)
            &&& hurts ==> lost_a_point(s, t)
            &&& !hurts ==> h == g
        }),
{
    reveal(Game::stunned);
    let d = g.damaged(i).saying(
        Event::StunnedPilot(i as usize, g.damaged(i).ships[i].destroyed),
    );
    watching_hurts_nobody(d, content, i, g.ships[i].shields);
}

/// A bomb or net does to a ship what its kind says.
pub proof fn bombs_do_what_they_are(
    p: Play,
    content: Content,
    sight: Sight,
    i: int,
    kind: BombKind,
)
    requires
        p.game.plain(content),
        0 <= i < p.game.ships.len(),
        p.game.ships[i].hull > 0,
        !p.game.ships[i].destroyed,
        p.game.ships[i].card_uses.len() == 0,
        p.game.ships[i].stress < u8::MAX,
        p.game.ships[i].ion < u8::MAX - 1,
    ensures
        ({
            let (q, hit) = p.struck(content, sight, i, kind);
            let (s, t) = (p.game.ships[i], q.game.ships[i]);
            &&& others_stay(p.game, q.game, i)
            &&& hit.ship == s.id
            &&& kind == BombKind::Proton ==> t.hull < s.hull && hit.crits == 1
            &&& kind == BombKind::Seismic ==> lost_a_point(s, t) && t.ion == s.ion && t.stress
                == s.stress && hit.damage == 1
            &&& kind == BombKind::Ion ==> unhurt(s, t) && t.ion == s.ion + 2 && hit.ion == 2
            &&& kind == BombKind::Thermal ==> lost_a_point(s, t) && hit.damage == 1
            &&& kind == BombKind::Thermal && !t.destroyed ==> t.stress == s.stress + 1
                && hit.stress == 1
            &&& kind == BombKind::ConnerNet ==> lost_a_point(s, t) && t.ion == s.ion + 2
                && hit.damage == 1 && hit.ion == 2
            &&& kind == BombKind::ProximityMine || kind == BombKind::ClusterMine || kind
                == BombKind::SeismicTorpedo ==> q == p
        }),
{
    a_faceup_card_costs_hull(p, content, i);
    a_ship_is_plain(p.game, content, i);
    let g = p.game.damaged(i);
    crate::game::plain::a_plain_ship_stays_plain(p.game, content, i, p.game.ships[i].hit());
    stress_is_received(g, content, sight, i);
}

/// A mine rolls three attack dice, a cluster mine two, a torpedo blast one, and
/// anything else none.
pub proof fn mines_roll_their_dice(kind: BombKind)
    ensures
        crate::game::blasts::blast_dice(kind) == match kind {
            BombKind::ProximityMine => 3int,
            BombKind::ClusterMine => 2,
            BombKind::SeismicTorpedo => 1,
            BombKind::Proton | BombKind::Seismic | BombKind::Ion | BombKind::Thermal
            | BombKind::ConnerNet => 0,
        },
{
}

/// Each die of a mine that shows a hit or a critical costs the ship a point
/// while it lives; other dice cost nothing.
pub proof fn mine_dice_hurt(p: Play, content: Content, i: int, n: int, hit: BombHit)
    requires
        0 <= i < p.game.ships.len(),
        n > 0,
        !p.game.ships[i].destroyed,
        hit.damage < u8::MAX,
        hit.crits < u8::MAX,
    ensures
        ({
            let face = attack_face(p.dice.shows());
            let r = p.rolled();
            let d = r.at(r.game.damaged(i));
            let to_hull = p.game.ships[i].shields == 0 && p.game.ships[i].hull > 0;
            let hurt = BombHit { damage: (hit.damage + 1) as u8, ..hit };
            let hard = BombHit { crits: (hit.crits + 1) as u8, ..hurt };
            &&& face == AttackFace::Blank || face == AttackFace::Focus ==> p.mined(
                content,
                i,
                n,
                hit,
            ) == r.mined(content, i, n - 1, hit)
            &&& face == AttackFace::Hit || (face == AttackFace::Crit && !to_hull) ==> p.mined(
                content,
                i,
                n,
                hit,
            ) == d.mined(content, i, n - 1, hurt)
            &&& face == AttackFace::Crit && to_hull && d.game.ships[i].destroyed ==> p.mined(
                content,
                i,
                n,
                hit,
            ) == d.mined(content, i, n - 1, hard)
            &&& face == AttackFace::Crit && to_hull && !d.game.ships[i].destroyed ==> p.mined(
                content,
                i,
                n,
                hit,
            ) == d.critical(content, i).mined(content, i, n - 1, hard)
        }),
{
}

/// A pull moves a living ship on the board alone, as far as nothing is in the
/// way, and swallows it exactly when it reaches the core.
pub proof fn pulls_end_in_the_core_or_short(g: Game, i: int, hole: u32, steps: Seq<Drag>)
    requires
        0 <= i < g.ships.len(),
    ensures
        ({
            let (h, pull) = g.pulled(i, hole, steps);
            let (s, t) = (g.ships[i], h.ships[i]);
            &&& others_stay(g, h, i)
            &&& t.hull == s.hull && t.shields == s.shields
            &&& s.destroyed || s.pose is None ==> h == g && pull is None
            &&& pull is Some ==> t.pose == Some(pull->0.to) && s.pose == Some(pull->0.from)
                && pull->0.ship == s.id && pull->0.hole == hole && t.destroyed
                == pull->0.swallowed
            &&& pull is None ==> h == g
            &&& steps.len() > 0 && steps[0].blocked ==> h == g
            &&& !s.destroyed && s.pose is Some && steps.len() > 0 && !steps[0].blocked
                && steps[0].in_core && steps[0].pose != s.pose->0 ==> t.destroyed && t.pose == Some(
                steps[0].pose,
            )
        }),
{
    reveal(Game::pulled);
}

/// A drag runs step by step until one is blocked or reaches the core.
pub proof fn drags_stop_at_the_first_obstacle(steps: Seq<Drag>, k: int, from: crate::geometry::Pose)
    requires
        0 <= k <= steps.len(),
    ensures
        ({
            let (to, swallowed) = dragged(steps, k, from);
            &&& swallowed ==> exists|j: int|
                k <= j < steps.len() && (#[trigger] steps[j]).in_core && !steps[j].blocked
                    && steps[j].pose == to && forall|m: int|
                    k <= m < j ==> !(#[trigger] steps[m]).blocked && !steps[m].in_core
            &&& !swallowed && to != from ==> exists|j: int|
                k <= j < steps.len() && (#[trigger] steps[j]).pose == to && !steps[j].blocked
                    && !steps[j].in_core
            &&& !swallowed ==> forall|j: int|
                k <= j < steps.len() && (#[trigger] steps[j]).in_core && !steps[j].blocked
                    ==> exists|m: int| k <= m < j && (#[trigger] steps[m]).blocked
        }),
    decreases steps.len() - k,
{
    if k < steps.len() && !steps[k].blocked {
        if steps[k].in_core {
            assert(steps[k].in_core && !steps[k].blocked);
        } else {
            drags_stop_at_the_first_obstacle(steps, k + 1, steps[k].pose);
            let (to, swallowed) = dragged(steps, k, from);
            if swallowed {
                let j = choose|j: int|
                    k + 1 <= j < steps.len() && (#[trigger] steps[j]).in_core && !steps[j].blocked
                        && steps[j].pose == to && forall|m: int|
                        k + 1 <= m < j ==> !(#[trigger] steps[m]).blocked && !steps[m].in_core;
                assert(steps[j].in_core);
            } else {
                if to == steps[k].pose {
                    assert(steps[k].pose == to);
                } else {
                    let j = choose|j: int|
                        k + 1 <= j < steps.len() && (#[trigger] steps[j]).pose == to
                            && !steps[j].blocked && !steps[j].in_core;
                    assert(steps[j].pose == to);
                }
                assert forall|j: int|
                    k <= j < steps.len() && (#[trigger] steps[j]).in_core
                        && !steps[j].blocked implies exists|m: int|
                    k <= m < j && (#[trigger] steps[m]).blocked by {
                    let m = choose|m: int| k + 1 <= m < j && (#[trigger] steps[m]).blocked;
                    assert(steps[m].blocked);
                }
            }
        }
    }
}

} // verus!
