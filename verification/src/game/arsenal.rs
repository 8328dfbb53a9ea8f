//! What weapon cards and attack cards do to whom.

use vstd::prelude::*;

use crate::data::Content;
use crate::dice::{count, defense_face, DefenseFace};
use crate::game::hazards::{
    damage_takes_a_shield_first, lost_a_point, others_stay, watching_hurts_nobody,
};
use crate::game::impact::{compared, uncancelable, Toll};
use crate::game::scenarios::own_place_is_picked;
use crate::game::state::{Game, Play, Shot};
use crate::pick::{first, first_is_first, picked, picked_obey};
use crate::ship::ShipModel;
use crate::sight::Sight;
use crate::upgrade::UpgradeEffect;

verus! {

/// One more, as far as a counter goes.
pub open spec fn one_more(n: u8) -> u8 {
    if n < u8::MAX {
        (n + 1) as u8
    } else {
        u8::MAX
    }
}

/// What is left of `n` once `k` are taken away.
pub open spec fn minus(n: int, k: int) -> int {
    if n >= k {
        n - k
    } else {
        0
    }
}

/// Evades cancel hits and then criticals; hits of an autoblaster cannot be
/// canceled, and then evades cancel criticals alone.
pub proof fn autoblaster_hits_stand(
    rider: Option<UpgradeEffect>,
    hits: u8,
    crits: u8,
    evades: u8,
)
    ensures
        ({
            let (h, c) = compared(hits, crits, evades, uncancelable(rider));
            let auto = rider == Some(UpgradeEffect::TurretAutoblasterUncancelable) || rider == Some(
                UpgradeEffect::CannonUncancelableHits,
            );
            &&& auto ==> h == hits && c == minus(crits as int, evades as int)
            &&& !auto ==> h == minus(hits as int, evades as int)
            &&& !auto ==> h + c == minus(hits + crits, evades as int)
        }),
{
}

/// A weapon that misses does nothing to the defender. Where one of these hits,
/// all results are canceled: ion weapons deal one damage and ion tokens, the
/// twin laser turret one damage, a tractor beam a tractor token and no
/// damage, homing warheads one critical past the shields.
pub proof fn weapons_replace_their_results(
    g: Game,
    content: Content,
    sight: Sight,
    d: int,
    rider: Option<UpgradeEffect>,
    hits: u8,
    crits: u8,
)
    requires
        0 <= d < g.ships.len(),
        g.ships[d].ion <= 253,
        g.ships[d].tractor < u8::MAX,
    ensures
        ({
            let s = g.ships[d];
            let (h, hits1, crits1, past) = g.weapon_result(content, sight, d, rider, hits, crits);
            let t = h.ships[d];
            let hit = hits > 0 || crits > 0;
            let ion = rider == Some(UpgradeEffect::TurretIonOneDamage) || rider == Some(
                UpgradeEffect::CannonIonOneDamage,
            );
            let pulse = rider == Some(UpgradeEffect::MissileIonOneDamage);
            let twin = rider == Some(UpgradeEffect::TurretTwinLaserTwiceOneDamage);
            let flechette = rider == Some(UpgradeEffect::CannonOneDamageAndStress);
            let homing = rider == Some(UpgradeEffect::MissileFaceupDamage);
            let tractor = rider == Some(UpgradeEffect::CannonTractorToken);
            &&& !hit ==> (h, hits1, crits1, past) == (g, hits, crits, false)
            &&& hit && (ion || pulse || twin || flechette) ==> hits1 == 1 && crits1 == 0 && !past
            &&& hit && ion ==> t == ShipModel { ion: (s.ion + 1) as u8, ..s }
            &&& hit && pulse ==> t == ShipModel { ion: (s.ion + 2) as u8, ..s }
            &&& hit && twin ==> t == s
            &&& hit && flechette && s.stress > 0 ==> t == s
            &&& hit && flechette && s.stress == 0 ==> h.ships == g.stressed(
                content,
                sight,
                d,
            ).ships
            &&& hit && homing ==> hits1 == 0 && crits1 == 1 && past && t == s
            &&& hit && tractor ==> hits1 == 0 && crits1 == 0 && t == ShipModel {
                tractor: (s.tractor + 1) as u8,
                ..s
            }
            &&& hit && !(ion || pulse || twin || flechette || homing || tractor) ==> (
                h,
                hits1,
                crits1,
                past,
            ) == (g, hits, crits, false)
            &&& !flechette ==> others_stay(g, h, d)
        }),
{
    reveal(Game::weapon_result);
}

/// The place is in the list, from `k` on.
pub open spec fn listed(places: Seq<usize>, k: int, j: int) -> bool {
    exists|m: int| k <= m < places.len() && #[trigger] places[m] == j
}

/// Places in order, each of them a ship's.
pub open spec fn in_line(places: Seq<usize>, n: int) -> bool {
    &&& forall|m: int| 0 <= m < places.len() ==> #[trigger] places[m] < n
    &&& forall|l: int, m: int|
        0 <= l < m < places.len() ==> #[trigger] places[l] < #[trigger] places[m]
}

/// Picked places are in order, and are those that obey the rule.
pub proof fn picked_in_order(rule: spec_fn(int) -> bool, n: int)
    requires
        0 <= n <= usize::MAX,
    ensures
        in_line(picked(rule, 0, n), n),
        forall|j: int|
            0 <= j < n ==> (#[trigger] listed(picked(rule, 0, n), 0, j) <==> rule(j)),
{
    let places = picked(rule, 0, n);
    picked_obey(rule, 0, n);
    picked_rise(rule, 0, n);
    assert forall|j: int| 0 <= j < n implies (#[trigger] listed(places, 0, j) <==> rule(j)) by {
        if rule(j) {
            own_place_is_picked(rule, j, 0, n);
        }
    }
}

proof fn picked_rise(rule: spec_fn(int) -> bool, k: int, n: int)
    requires
        0 <= k,
        n <= usize::MAX,
    ensures
        forall|l: int, m: int|
            0 <= l < m < picked(rule, k, n).len() ==> #[trigger] picked(rule, k, n)[l]
                < #[trigger] picked(rule, k, n)[m],
    decreases n - k,
{
    if k < n {
        picked_rise(rule, k + 1, n);
        picked_obey(rule, k + 1, n);
        let all = picked(rule, k, n);
        let rest = picked(rule, k + 1, n);
        assert forall|l: int, m: int| 0 <= l < m < all.len() implies #[trigger] all[l]
            < #[trigger] all[m] by {
            if rule(k) {
                assert(all[m] == rest[m - 1]);
                if l > 0 {
                    assert(all[l] == rest[l - 1]);
                }
            }
        }
    }
}

pub(crate) proof fn later_is_listed(places: Seq<usize>, n: int, k: int, j: int)
    requires
        in_line(places, n),
        0 <= k < places.len(),
    ensures
        listed(places, k, j) <==> places[k] == j || listed(places, k + 1, j),
        !listed(places, k + 1, places[k] as int),
{
    if listed(places, k, j) && places[k] != j {
        let m = choose|m: int| k <= m < places.len() && #[trigger] places[m] == j;
        assert(k + 1 <= m);
    }
    if listed(places, k + 1, j) {
        let m = choose|m: int| k + 1 <= m < places.len() && #[trigger] places[m] == j;
        assert(places[m] == j);
    }
}

proof fn ions_reach_the_listed(g: Game, places: Seq<usize>, k: int)
    requires
        in_line(places, g.ships.len() as int),
        0 <= k <= places.len(),
    ensures
        ({
            let h = g.ionizing(places, k);
            &&& h.ships.len() == g.ships.len()
            &&& forall|j: int|
                0 <= j < g.ships.len() ==> #[trigger] h.ships[j] == if listed(places, k, j) {
                    ShipModel { ion: one_more(g.ships[j].ion), ..g.ships[j] }
                } else {
                    g.ships[j]
                }
        }),
    decreases places.len() - k,
{
    let h = g.ionizing(places, k);
    if k < places.len() {
        let i = places[k] as int;
        let next = g.with_ship(i, g.ships[i].with_ion(1)).saying(
            crate::event::Event::AlsoIonized(places[k]),
        );
        ions_reach_the_listed(next, places, k + 1);
        assert forall|j: int| 0 <= j < g.ships.len() implies #[trigger] h.ships[j] == if listed(
            places,
            k,
            j,
        ) {
            ShipModel { ion: one_more(g.ships[j].ion), ..g.ships[j] }
        } else {
            g.ships[j]
        } by {
            later_is_listed(places, g.ships.len() as int, k, j);
        }
    }
}

/// Ion Torpedoes that hit put an ion token on the defender and on every other
/// living ship at Range 1 of it, and on nobody else; a miss does nothing.
pub proof fn ion_torpedoes_reach_range_one(
    g: Game,
    content: Content,
    sight: Sight,
    a: int,
    d: int,
    j: int,
)
    requires
        g.ships.len() <= usize::MAX,
        0 <= d < g.ships.len(),
        0 <= j < g.ships.len(),
    ensures
        ({
            let e = UpgradeEffect::TorpedoIonSplash;
            let h = g.weapon_riders(content, sight, a, d, e, true);
            let near = j == d || (!g.ships[j].destroyed && g.ships[d].pose is Some
                && g.ships[j].pose is Some && sight.at(d, j).band == Some(1u8));
            &&& h.ships[j] == if near {
                ShipModel { ion: one_more(g.ships[j].ion), ..g.ships[j] }
            } else {
                g.ships[j]
            }
            &&& g.weapon_riders(content, sight, a, d, e, false) == g
        }),
{
    reveal(Game::weapon_riders);
    let n = g.ships.len() as int;
    let hit = g.with_ship(d, g.ships[d].with_ion(1)).saying(
        crate::event::Event::IonTorpedoes(d as usize),
    );
    let rule = g.splash_rule(sight, d);
    picked_in_order(rule, n);
    ions_reach_the_listed(hit, picked(rule, 0, n), 0);
    assert(listed(picked(rule, 0, n), 0, j) <==> rule(j));
}

proof fn damage_reaches_the_listed(g: Game, content: Content, places: Seq<usize>, k: int)
    requires
        in_line(places, g.ships.len() as int),
        0 <= k <= places.len(),
    ensures
        ({
            let h = g.splashing(content, places, k);
            &&& h.ships.len() == g.ships.len()
            &&& forall|j: int|
                0 <= j < g.ships.len() && listed(places, k, j) ==> lost_a_point(
                    g.ships[j],
                    #[trigger] h.ships[j],
                )
            &&& forall|j: int|
                0 <= j < g.ships.len() && !listed(places, k, j) ==> #[trigger] h.ships[j]
                    == g.ships[j]
        }),
    decreases places.len() - k,
{
    let h = g.splashing(content, places, k);
    if k < places.len() {
        let i = places[k] as int;
        damage_takes_a_shield_first(g, i);
        let told = g.damaged(i).saying(
            crate::event::Event::AssaultMissiles(places[k], g.damaged(i).ships[i].destroyed),
        );
        watching_hurts_nobody(told, content, i, g.ships[i].shields);
        let next = told.shields_watched(content, i, g.ships[i].shields);
        damage_reaches_the_listed(next, content, places, k + 1);
        later_is_listed(places, g.ships.len() as int, k, i);
        assert(h.ships[i] == next.ships[i]);
        assert forall|j: int| 0 <= j < g.ships.len() && listed(places, k, j) implies lost_a_point(
            g.ships[j],
            #[trigger] h.ships[j],
        ) by {
            later_is_listed(places, g.ships.len() as int, k, j);
        }
        assert forall|j: int| 0 <= j < g.ships.len() && !listed(
            places,
            k,
            j,
        ) implies #[trigger] h.ships[j] == g.ships[j] by {
            later_is_listed(places, g.ships.len() as int, k, j);
        }
    }
}

/// Assault Missiles that hit cost every other living ship at Range 1 of the
/// defender a point, and nobody else; a miss does nothing.
pub proof fn assault_missiles_splash(
    g: Game,
    content: Content,
    sight: Sight,
    a: int,
    d: int,
    j: int,
)
    requires
        g.ships.len() <= usize::MAX,
        0 <= d < g.ships.len(),
        0 <= j < g.ships.len(),
    ensures
        ({
            let e = UpgradeEffect::MissileSplashRange1;
            let h = g.weapon_riders(content, sight, a, d, e, true);
            let near = j != d && !g.ships[j].destroyed && g.ships[d].pose is Some
                && g.ships[j].pose is Some && sight.at(d, j).band == Some(1u8);
            &&& near ==> lost_a_point(g.ships[j], h.ships[j])
            &&& !near ==> h.ships[j] == g.ships[j]
            &&& g.weapon_riders(content, sight, a, d, e, false) == g
        }),
{
    reveal(Game::weapon_riders);
    let n = g.ships.len() as int;
    let rule = g.splash_rule(sight, d);
    picked_in_order(rule, n);
    damage_reaches_the_listed(g, content, picked(rule, 0, n), 0);
    assert(listed(picked(rule, 0, n), 0, j) <==> rule(j));
}

proof fn locks_reach_the_listed(g: Game, content: Content, d: int, places: Seq<usize>, k: int)
    requires
        in_line(places, g.ships.len() as int),
        0 <= k <= places.len(),
        0 <= d < g.ships.len(),
    ensures
        ({
            let h = g.tracing(content, d, places, k);
            let id = g.ships[d].id;
            &&& h.ships.len() == g.ships.len()
            &&& forall|j: int| 0 <= j < g.ships.len() ==> (#[trigger] h.ships[j]).id == g.ships[j].id
            &&& forall|j: int|
                0 <= j < g.ships.len() && listed(places, k, j) ==> (#[trigger] h.ships[j]).locks(id)
            &&& forall|j: int|
                0 <= j < g.ships.len() && !listed(places, k, j) ==> #[trigger] h.ships[j]
                    == g.ships[j]
        }),
    decreases places.len() - k,
{
    let h = g.tracing(content, d, places, k);
    if k < places.len() {
        let i = places[k] as int;
        let next = g.locking(content, i, d).saying(
            crate::event::Event::ThreadTracers(places[k], d as usize),
        );
        locks_reach_the_listed(next, content, d, places, k + 1);
        later_is_listed(places, g.ships.len() as int, k, i);
        assert(next.ships[i].locks(g.ships[d].id));
        assert(h.ships[i] == next.ships[i]);
        assert forall|j: int| 0 <= j < g.ships.len() && listed(places, k, j) implies (
        #[trigger] h.ships[j]).locks(g.ships[d].id) by {
            later_is_listed(places, g.ships.len() as int, k, j);
        }
        assert forall|j: int| 0 <= j < g.ships.len() && !listed(
            places,
            k,
            j,
        ) implies #[trigger] h.ships[j] == g.ships[j] by {
            later_is_listed(places, g.ships.len() as int, k, j);
        }
    }
}

/// Thread Tracers that hit give every other friend of the attacker at Range
/// 1-2, that has room for it, a lock on the defender, and nobody else; a miss
/// does nothing.
pub proof fn thread_tracers_share_the_lock(
    g: Game,
    content: Content,
    sight: Sight,
    a: int,
    d: int,
    j: int,
)
    requires
        g.ships.len() <= usize::MAX,
        0 <= a < g.ships.len(),
        0 <= d < g.ships.len(),
        0 <= j < g.ships.len(),
    ensures
        ({
            let e = UpgradeEffect::MissileFriendsLockOnHit;
            let h = g.weapon_riders(content, sight, a, d, e, true);
            let s = g.ships[j];
            let band = sight.at(a, j).band;
            let near = j != a && g.side(s.owner) == g.side(g.ships[a].owner) && !s.destroyed
                && g.ships[a].pose is Some && s.pose is Some && (band == Some(1u8) || band == Some(
                2u8,
            )) && (s.lock is None || (s.lock2 is None && g.has(
                content,
                j,
                UpgradeEffect::CrewTwoLocks,
            )));
            &&& near ==> h.ships[j].lock == Some(g.ships[d].id) || h.ships[j].lock2 == Some(
                g.ships[d].id,
            )
            &&& !near ==> h.ships[j] == s
            &&& g.weapon_riders(content, sight, a, d, e, false) == g
        }),
{
    reveal(Game::weapon_riders);
    let n = g.ships.len() as int;
    let rule = g.tracer_rule(content, sight, a);
    picked_in_order(rule, n);
    locks_reach_the_listed(g, content, d, picked(rule, 0, n), 0);
    assert(listed(picked(rule, 0, n), 0, j) <==> rule(j));
}

/// Plasma Torpedoes that hit take one more shield of the defender; Flechette
/// Torpedoes stress a small defender whether they hit or not; other weapons do
/// nothing more.
pub proof fn torpedoes_have_their_riders(
    g: Game,
    content: Content,
    sight: Sight,
    a: int,
    d: int,
    e: UpgradeEffect,
    landed: bool,
)
    requires
        0 <= d < g.ships.len(),
    ensures
        ({
            let h = g.weapon_riders(content, sight, a, d, e, landed);
            let (s, t) = (g.ships[d], h.ships[d]);
            let plasma = e == UpgradeEffect::TorpedoStripShield;
            let flechette = e == UpgradeEffect::TorpedoStressIfHullLow;
            &&& plasma && landed && s.shields > 0 ==> t.shields == s.shields - 1
            &&& plasma && (!landed || s.shields == 0) ==> h == g
            &&& plasma ==> t.hull == s.hull && t.destroyed == s.destroyed && others_stay(g, h, d)
            &&& flechette ==> t == (if s.printed(content).hull <= 4 && !s.destroyed {
                ShipModel { stress: one_more(s.stress), ..s }
            } else {
                s
            }) && others_stay(g, h, d)
            &&& !plasma && !flechette && e != UpgradeEffect::TorpedoIonSplash && e
                != UpgradeEffect::MissileSplashRange1 && e
                != UpgradeEffect::MissileFriendsLockOnHit ==> h == g
        }),
{
    reveal(Game::weapon_riders);
}

/// Reinforced Deflectors give one shield back after three points or more, to a
/// living ship that has lost one, and nothing else.
pub proof fn deflectors_recover_after_three(g: Game, content: Content, d: int, toll: Toll)
    requires
        0 <= d < g.ships.len(),
    ensures
        ({
            let (s, h) = (g.ships[d], g.reinforced(content, d, toll));
            let due = toll.shields + toll.hull >= 3 && !s.destroyed && s.shields < s.full_shields(
                content,
            ) && g.has(content, d, UpgradeEffect::SystemRecoverShieldAfter3Damage);
            &&& h.ships[d] == if due {
                ShipModel { shields: one_more(s.shields), ..s }
            } else {
                s
            }
            &&& others_stay(g, h, d)
        }),
{
    reveal(Game::reinforced);
}

/// Ordnance that must be discarded to fire is gone after it was fired, after
/// the second time where it fires twice: an ordnance token pays for it, and
/// Munitions Failsafe keeps it when it missed. Nothing else is discarded.
pub proof fn ordnance_is_spent_by_firing(
    g: Game,
    content: Content,
    a: int,
    shot: Shot,
    landed: bool,
)
    requires
        0 <= a < g.ships.len(),
    ensures
        ({
            let (s, h) = (g.ships[a], g.expended(content, a, shot, landed));
            let t = h.ships[a];
            let card = shot.weapon->0;
            let fired = shot.weapon is Some && content.card(card) is Some && content.card(
                card,
            )->0.attack is Some && content.card(card)->0.attack->0.discard_to_fire;
            let e = content.does(card);
            let again = !shot.second && (e == Some(UpgradeEffect::MissileAttackTwice) || e == Some(
                UpgradeEffect::TurretTwinLaserTwiceOneDamage,
            ));
            let kept = !landed && g.has(content, a, UpgradeEffect::KeepOrdnanceOnMiss);
            let spent = fired && !again && !kept;
            &&& !spent ==> h == g
            &&& spent && s.ordnance.contains(card) ==> t.upgrades == s.upgrades && count(
                t.ordnance,
                card,
            ) == count(s.ordnance, card) - 1
            &&& spent && !s.ordnance.contains(card) ==> t.ordnance == s.ordnance && count(
                t.upgrades,
                card,
            ) == 0
            &&& others_stay(g, h, a)
        }),
{
    reveal(Game::expended);
    if shot.weapon is Some {
        crate::game::deeds::a_discarded_card_is_gone(g.ships[a].upgrades, shot.weapon->0);
        crate::game::deeds::one_ordnance_token_is_spent(g.ships[a].ordnance, shot.weapon->0);
    }
}

/// Ruthlessness costs one ship a point after a hit, at Range 1 of the
/// defender: neither the attacker nor the defender, and no friend while an
/// enemy is there.
pub proof fn ruthlessness_prefers_an_enemy(
    g: Game,
    content: Content,
    sight: Sight,
    a: int,
    d: int,
    landed: bool,
)
    requires
        g.ships.len() <= usize::MAX,
        0 <= a < g.ships.len(),
        0 <= d < g.ships.len(),
    ensures
        ({
            let h = g.ruthless(content, sight, a, d, landed);
            let acts = landed && g.has(content, a, UpgradeEffect::SplashDamageAfterHit);
            let struck = g.bystander(sight, a, d);
            let v = struck->0 as int;
            &&& !acts || struck is None ==> h == g
            &&& struck is Some ==> beside(g, sight, a, d, v)
            &&& struck is None ==> forall|j: int| !#[trigger] beside(g, sight, a, d, j)
            &&& struck is Some && g.same_side(v, a) ==> forall|j: int| #[trigger]
                beside(g, sight, a, d, j) ==> g.same_side(j, a)
            &&& acts && struck is Some ==> lost_a_point(g.ships[v], h.ships[v]) && others_stay(
                g,
                h,
                v,
            )
        }),
{
    let n = g.ships.len() as int;
    let rule = g.bystander_rule(sight, a, d);
    let near = picked(rule, 0, n);
    picked_obey(rule, 0, n);
    picked_in_order(rule, n);
    let foe = g.foe_rule(a, near);
    first_is_first(foe, 0, near.len() as int);
    let struck = g.bystander(sight, a, d);
    assert forall|j: int| #[trigger] beside(g, sight, a, d, j) implies exists|m: int|
        0 <= m < near.len() && #[trigger] near[m] == j by {
        assert(rule(j));
        assert(listed(near, 0, j));
    }
    if struck is Some {
        let v = struck->0 as int;
        let f = first(foe, 0, near.len() as int);
        if f is Some {
            assert(foe(f->0 as int));
            assert(rule(near[f->0 as int] as int));
        } else {
            assert(rule(near[0] as int));
            assert forall|j: int| #[trigger] beside(g, sight, a, d, j) implies g.same_side(j, a) by {
                let m = choose|m: int| 0 <= m < near.len() && #[trigger] near[m] == j;
                assert(!foe(m));
            }
        }
        damage_takes_a_shield_first(g, v);
        let told = g.damaged(v).saying(
            crate::event::Event::Ruthlessness(
                a as usize,
                struck->0,
                g.damaged(v).ships[v].destroyed,
            ),
        );
        watching_hurts_nobody(told, content, v, g.ships[v].shields);
    }
}

/// Another living ship at Range 1 of the defender.
pub open spec fn beside(g: Game, sight: Sight, a: int, d: int, j: int) -> bool {
    &&& 0 <= j < g.ships.len()
    &&& j != a && j != d
    &&& !g.ships[j].destroyed
    &&& g.ships[d].pose is Some && g.ships[j].pose is Some
    &&& sight.at(d, j).band == Some(1u8)
}

/// Darth Vader (crew) takes two points to finish off an enemy without shields
/// and with one hull point, and only where the attacker survives it.
pub proof fn vader_finishes_off(g: Game, content: Content, a: int, d: int)
    requires
        0 <= a < g.ships.len(),
        0 <= d < g.ships.len(),
        a != d,
        g.ships[a].hull >= 1,
        !g.ships[d].lingers,
    ensures
        ({
            let h = g.vader(content, a, d);
            let (s, e) = (g.ships[a], g.ships[d]);
            let acts = g.has(content, a, UpgradeEffect::CrewSufferTwoForCrit) && !e.destroyed
                && g.side(e.owner) != g.side(s.owner) && e.shields == 0 && e.hull == 1 && s.shields
                + s.hull >= 3;
            &&& !acts ==> h == g
            &&& acts ==> h.ships[d].destroyed && h.ships[d].hull == 0
            &&& acts ==> h.ships[a].shields + h.ships[a].hull == s.shields + s.hull - 2
            &&& acts ==> h.ships[a].destroyed == s.destroyed && h.ships[a].hull > 0
            &&& forall|j: int|
                0 <= j < g.ships.len() && j != a && j != d ==> #[trigger] h.ships[j] == g.ships[j]
        }),
{
    let one = g.damaged(a);
    let two = one.damaged(a);
    damage_takes_a_shield_first(g, a);
    damage_takes_a_shield_first(one, a);
    damage_takes_a_shield_first(two, d);
    let told = two.damaged(d).saying(crate::event::Event::VaderCrew(a as usize, d as usize));
    watching_hurts_nobody(told, content, a, g.ships[a].shields);
}

/// R5-K6 throws one defense die after its lock was spent: on an evade the lock
/// on a living defender is back, else it is not.
pub proof fn r5k6_relocks_on_an_evade(
    p: Play,
    content: Content,
    a: int,
    d: int,
    lock_spent: bool,
)
    requires
        0 <= a < p.game.ships.len(),
        0 <= d < p.game.ships.len(),
    ensures
        ({
            let (g, q) = (p.game, p.relocked(content, a, d, lock_spent));
            let id = g.ships[d].id;
            let acts = lock_spent && !g.ships[d].destroyed && g.ships[a].lock != Some(id)
                && g.ships[a].lock2 != Some(id) && g.has(
                content,
                a,
                UpgradeEffect::ReLockOnEvadeDie,
            );
            let evade = defense_face(p.dice.shows()) == DefenseFace::Evade;
            &&& !acts ==> q == p
            &&& acts ==> q.dice == p.dice.rolled()
            &&& acts && evade ==> q.game.ships[a].lock == Some(id) || q.game.ships[a].lock2 == Some(
                id,
            )
            &&& acts && !evade ==> q.game.ships == g.ships
            &&& others_stay(g, q.game, a)
        }),
{
    reveal(Play::relocked);
}

/// Fire-Control System locks a living defender after the attack.
pub proof fn fire_control_locks_the_defender(g: Game, content: Content, a: int, d: int)
    requires
        0 <= a < g.ships.len(),
        0 <= d < g.ships.len(),
    ensures
        ({
            let h = g.fire_control(content, a, d);
            let id = g.ships[d].id;
            let held = g.ships[a].lock == Some(id) || g.ships[a].lock2 == Some(id);
            let acts = !g.ships[d].destroyed && !held && g.has(
                content,
                a,
                UpgradeEffect::SystemLockAfterAttack,
            );
            &&& !acts ==> h == g
            &&& acts ==> h.ships[a].lock == Some(id) || h.ships[a].lock2 == Some(id)
            &&& others_stay(g, h, a)
        }),
{
    reveal(Game::fire_control);
}

} // verus!
