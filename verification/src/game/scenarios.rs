//! What the missions come to: who escapes, who scans, who is reinforced, and
//! who wins.

use vstd::prelude::*;

use crate::board::Seat;
use crate::data::Content;
use crate::game::missions::{seat_from, Overlaps};
use crate::game::state::Game;
use crate::mission::{MissionKind, MissionModel, Satellite};
use crate::pick::{first_is_first, picked, picked_obey};
use crate::pilot::Pilot;
use crate::ship::{PlayerId, ShipClass, ShipId};
use crate::sight::Sight;

verus! {

/// The ship at `k` was destroyed and did not leave the board alive.
pub open spec fn wrecked(g: Game, k: int) -> bool {
    g.ships[k].destroyed && !g.ships[k].escaped
}

proof fn lost_means_wrecked(g: Game, id: ShipId)
    requires
        g.ships.len() <= usize::MAX,
    ensures
        g.lost(id) <==> exists|k: int|
            0 <= k < g.ships.len() && (#[trigger] g.ships[k]).id == id && wrecked(g, k),
{
    let n = g.ships.len() as int;
    first_is_first(g.lost_rule(id), 0, n);
    if exists|k: int| 0 <= k < n && (#[trigger] g.ships[k]).id == id && wrecked(g, k) {
        let k = choose|k: int|
            0 <= k < n && (#[trigger] g.ships[k]).id == id && wrecked(g, k);
        assert(g.lost_rule(id)(k));
    }
    if g.lost(id) {
        let k = crate::pick::first(g.lost_rule(id), 0, n)->0 as int;
        assert(g.ships[k].id == id);
    }
}

/// Dark Whispers: the Empire wins exactly when one of its ships has escaped
/// with a satellite. Otherwise the Rebels win when the Empire has no ship
/// left, or when every satellite is back in the supply or was held by a ship
/// that is lost; and until then nobody has won.
pub proof fn dark_whispers_is_won_by_carrying_or_denying(g: Game, m: MissionModel)
    requires
        g.mission == Some(m),
        m.kind == MissionKind::DarkWhispers,
        m.rebel_side != m.imperial_side,
        g.ships.len() <= usize::MAX,
        m.satellites.len() <= usize::MAX,
    ensures
        ({
            let carried = exists|k: int|
                0 <= k < g.ships.len() && (#[trigger] g.ships[k]).escaped && g.ships[k].satellites
                    > 0 && g.side(g.ships[k].owner) == m.imperial_side;
            let beaten = forall|k: int|
                0 <= k < g.ships.len() && g.side((#[trigger] g.ships[k]).owner) == m.imperial_side
                    ==> g.ships[k].destroyed;
            let denied = forall|j: int|
                0 <= j < m.satellites.len() ==> (#[trigger] m.satellites[j]).supply || (
                m.satellites[j].holder is Some && exists|k: int|
                    0 <= k < g.ships.len() && Some((#[trigger] g.ships[k]).id)
                        == m.satellites[j].holder && wrecked(g, k));
            &&& g.objective() == Some(m.imperial_side) <==> carried
            &&& g.objective() == Some(m.rebel_side) <==> !carried && (beaten || denied)
            &&& g.objective() is None <==> !carried && !beaten && !denied
        }),
{
    reveal(Game::objective);
    let n = g.ships.len() as int;
    let t = m.satellites.len() as int;
    first_is_first(g.home_rule(m.imperial_side), 0, n);
    first_is_first(g.flying_rule(m.imperial_side), 0, n);
    first_is_first(g.loose_rule(m), 0, t);
    let carried = exists|k: int|
        0 <= k < n && (#[trigger] g.ships[k]).escaped && g.ships[k].satellites > 0 && g.side(
            g.ships[k].owner,
        ) == m.imperial_side;
    if carried {
        let k = choose|k: int|
            0 <= k < n && (#[trigger] g.ships[k]).escaped && g.ships[k].satellites > 0 && g.side(
                g.ships[k].owner,
            ) == m.imperial_side;
        assert(g.home_rule(m.imperial_side)(k));
    }
    assert forall|k: int| 0 <= k < n implies #[trigger] g.flying_rule(m.imperial_side)(k) == (
    !g.ships[k].destroyed && g.side(g.ships[k].owner) == m.imperial_side) by {}
    let beaten = forall|k: int|
        0 <= k < n && g.side((#[trigger] g.ships[k]).owner) == m.imperial_side
            ==> g.ships[k].destroyed;
    if !beaten {
        let k = choose|k: int|
            0 <= k < n && g.side((#[trigger] g.ships[k]).owner) == m.imperial_side
                && !g.ships[k].destroyed;
        assert(g.flying_rule(m.imperial_side)(k));
    } else {
        assert forall|k: int| 0 <= k < n implies !#[trigger] g.flying_rule(m.imperial_side)(k) by {
            assert(g.ships[k] == g.ships[k]);
        }
    }
    assert forall|j: int| 0 <= j < t implies #[trigger] g.loose_rule(m)(j) == !(
    m.satellites[j].supply || (m.satellites[j].holder is Some && exists|k: int|
        0 <= k < n && Some((#[trigger] g.ships[k]).id) == m.satellites[j].holder && wrecked(
            g,
            k,
        ))) by {
        if m.satellites[j].holder is Some {
            let id = m.satellites[j].holder->0;
            lost_means_wrecked(g, id);
            if g.lost(id) {
                let k = choose|k: int|
                    0 <= k < n && (#[trigger] g.ships[k]).id == id && wrecked(g, k);
                assert(Some(g.ships[k].id) == m.satellites[j].holder);
            } else if exists|k: int|
                0 <= k < n && Some((#[trigger] g.ships[k]).id) == m.satellites[j].holder
                    && wrecked(g, k) {
                let k = choose|k: int|
                    0 <= k < n && Some((#[trigger] g.ships[k]).id) == m.satellites[j].holder
                        && wrecked(g, k);
                assert(g.ships[k].id == id && wrecked(g, k));
            }
        }
    }
    let denied = forall|j: int|
        0 <= j < t ==> (#[trigger] m.satellites[j]).supply || (m.satellites[j].holder is Some
            && exists|k: int|
            0 <= k < n && Some((#[trigger] g.ships[k]).id) == m.satellites[j].holder && wrecked(
                g,
                k,
            ));
    if denied {
        assert forall|j: int| 0 <= j < t implies !#[trigger] g.loose_rule(m)(j) by {
            assert(m.satellites[j] == m.satellites[j]);
        }
    } else {
        let j = choose|j: int|
            0 <= j < t && !((#[trigger] m.satellites[j]).supply || (m.satellites[j].holder is Some
                && exists|k: int|
                0 <= k < n && Some((#[trigger] g.ships[k]).id) == m.satellites[j].holder
                    && wrecked(g, k)));
        assert(g.loose_rule(m)(j));
    }
}

/// Political Escort and Asteroid Run turn on one ship, the senator's shuttle
/// or the disabled ship: the Rebels win once it has escaped, the Empire once
/// it is destroyed, and nobody before.
pub proof fn one_ship_decides_the_run(g: Game, m: MissionModel, k: int)
    requires
        g.mission == Some(m),
        g.ships.len() <= usize::MAX,
        0 <= k < g.ships.len(),
        m.kind == MissionKind::PoliticalEscort ==> m.shuttle == Some(g.ships[k].id),
        m.kind == MissionKind::AsteroidRun ==> m.disabled == Some(g.ships[k].id),
        m.kind != MissionKind::DarkWhispers,
        forall|j: int| 0 <= j < k ==> (#[trigger] g.ships[j]).id != g.ships[k].id,
    ensures
        g.ships[k].escaped ==> g.objective() == Some(m.rebel_side),
        g.ships[k].destroyed && !g.ships[k].escaped ==> g.objective() == Some(m.imperial_side),
        !g.ships[k].destroyed && !g.ships[k].escaped ==> g.objective() is None,
{
    reveal(Game::objective);
    let id = g.ships[k].id;
    first_is_first(g.id_rule(id), 0, g.ships.len() as int);
    assert(g.id_rule(id)(k));
    let f = g.index(id)->0 as int;
    if f < k {
        assert(g.ships[f].id != id);
    }
}

/// Who may leave the board alive, and where: the shuttle over the Imperial
/// edge; the disabled ship, from round 5 on, over either side's edge; an
/// Imperial ship with a satellite over its own edge, once no satellite is
/// left on the board. Nobody else, and nobody without a mission.
pub proof fn escapes_are_few(g: Game, i: int, exit: Seat)
    requires
        0 <= i < g.ships.len(),
    ensures
        g.mission is None ==> !g.escapes(i, exit),
        g.mission is Some ==> ({
            let m = g.mission->0;
            let s = g.ships[i];
            let afloat = exists|j: int|
                0 <= j < m.satellites.len() && (#[trigger] m.satellites[j]).holder is None
                    && !m.satellites[j].supply;
            &&& m.kind == MissionKind::PoliticalEscort ==> (g.escapes(i, exit) <==> m.shuttle
                == Some(s.id) && exit == Seat::edge(m.imperial_side))
            &&& m.kind == MissionKind::AsteroidRun ==> (g.escapes(i, exit) <==> m.disabled == Some(
                s.id,
            ) && g.turn >= 5 && (exit == Seat::edge(m.rebel_side) || exit == Seat::edge(
                m.imperial_side,
            )))
            &&& m.kind == MissionKind::DarkWhispers ==> (g.escapes(i, exit) <==> g.side(s.owner)
                == m.imperial_side && s.satellites > 0 && exit == Seat::edge(m.imperial_side)
                && !afloat)
        }),
{
    if g.mission is Some {
        let m = g.mission->0;
        if m.scanned() {
            assert forall|j: int| 0 <= j < m.satellites.len() implies !((
            #[trigger] m.satellites[j]).holder is None && !m.satellites[j].supply) by {
                assert(!m.satellites[j].afloat());
            }
        }
    }
}

/// An Imperial ship scans in Dark Whispers where it overlaps a satellite on the
/// board, or touches a living Rebel ship that does; no other ship ever scans,
/// and a satellite that has been taken is not scanned again.
pub proof fn scans_are_made_at_a_satellite(g: Game, sight: Sight, over: Overlaps, a: int)
    requires
        0 <= a < g.ships.len(),
        g.ships.len() <= usize::MAX,
        g.mission is Some ==> g.mission->0.satellites.len() <= usize::MAX,
    ensures
        ({
            let m = g.mission->0;
            let may = g.mission is Some && m.kind == MissionKind::DarkWhispers && g.side(
                g.ships[a].owner,
            ) == m.imperial_side && g.ships[a].pose is Some;
            let k = g.scannable(sight, over, a)->0 as int;
            &&& g.scannable(sight, over, a) is Some ==> may && 0 <= k < m.satellites.len()
                && m.satellites[k].holder is None && !m.satellites[k].supply && (over.at(a, k)
                || exists|j: int|
                0 <= j < g.ships.len() && over.at(j, k) && !(#[trigger] g.ships[j]).destroyed
                    && g.side(g.ships[j].owner) == m.rebel_side && g.ships[j].pose is Some
                    && sight.at(a, j).contact)
            &&& g.scannable(sight, over, a) is None && may ==> forall|j: int|
                0 <= j < m.satellites.len() && over.at(a, j) ==> (#[trigger] m.satellites[j]).holder
                    is Some || m.satellites[j].supply
        }),
{
    reveal(Game::scannable);
    if g.mission is Some {
        let m = g.mission->0;
        let n = g.ships.len() as int;
        let t = m.satellites.len() as int;
        if m.kind == MissionKind::DarkWhispers && g.side(g.ships[a].owner) == m.imperial_side
            && g.ships[a].pose is Some {
            let rule = g.scanner_rule(sight, a, m);
            let places = picked(rule, 0, n);
            picked_obey(rule, 0, n);
            first_is_first(Game::token_rule(m, over, places), 0, t);
            if g.scannable(sight, over, a) is Some {
                let k = g.scannable(sight, over, a)->0 as int;
                assert(Game::token_rule(m, over, places)(k));
                first_is_first(Game::over_rule(over, places, k), 0, places.len() as int);
                let f = crate::pick::first(
                    Game::over_rule(over, places, k),
                    0,
                    places.len() as int,
                )->0 as int;
                assert(Game::over_rule(over, places, k)(f));
                let j = places[f] as int;
                assert(rule(j));
                if j != a {
                    assert(over.at(j, k) && !g.ships[j].destroyed);
                }
            } else {
                own_place_is_picked(rule, a, 0, n);
                let f = choose|f: int| 0 <= f < places.len() && places[f] == a;
                assert forall|j: int| 0 <= j < t && over.at(a, j) implies (
                #[trigger] m.satellites[j]).holder is Some || m.satellites[j].supply by {
                    first_is_first(Game::over_rule(over, places, j), 0, places.len() as int);
                    assert(Game::over_rule(over, places, j)(f));
                    assert(!Game::token_rule(m, over, places)(j));
                }
            }
        }
    }
}

/// A place that obeys the rule is picked.
pub proof fn own_place_is_picked(rule: spec_fn(int) -> bool, a: int, k: int, n: int)
    requires
        0 <= k <= a < n,
        n <= usize::MAX,
        rule(a),
    ensures
        exists|f: int|
            0 <= f < picked(rule, k, n).len() && #[trigger] picked(rule, k, n)[f] == a,
    decreases n - k,
{
    if k == a {
        assert(picked(rule, k, n)[0] == a);
    } else {
        own_place_is_picked(rule, a, k + 1, n);
        let f = choose|f: int|
            0 <= f < picked(rule, k + 1, n).len() && #[trigger] picked(rule, k + 1, n)[f] == a;
        if rule(k) {
            assert(picked(rule, k, n)[f + 1] == a);
        } else {
            assert(picked(rule, k, n)[f] == a);
        }
    }
}

/// A scan puts the satellite on the ship that scans it, and touches no other
/// satellite and no other ship.
pub proof fn a_scan_takes_the_satellite(g: Game, a: int, k: int)
    requires
        g.mission is Some,
        0 <= a < g.ships.len(),
        0 <= k < g.mission->0.satellites.len(),
        g.ships[a].satellites < u8::MAX,
    ensures
        ({
            let h = g.scanning(a, k);
            let (m, t) = (g.mission->0, h.mission->0);
            &&& h.mission is Some
            &&& t.satellites.len() == m.satellites.len()
            &&& t.satellites[k].holder == Some(g.ships[a].id)
            &&& t.satellites[k].id == m.satellites[k].id
            &&& forall|j: int|
                0 <= j < m.satellites.len() && j != k ==> #[trigger] t.satellites[j]
                    == m.satellites[j]
            &&& h.ships.len() == g.ships.len()
            &&& h.ships[a].satellites == g.ships[a].satellites + 1
            &&& forall|j: int|
                0 <= j < g.ships.len() && j != a ==> #[trigger] h.ships[j] == g.ships[j]
        }),
{
}

/// In the End phase a satellite whose holder is lost goes back to the supply;
/// every other satellite stays where it is, and no ship changes.
pub proof fn lost_satellites_return(g: Game, k: int)
    requires
        0 <= k,
        g.mission is Some,
        g.ships.len() <= usize::MAX,
    ensures
        ({
            let h = g.returning(k);
            let (m, t) = (g.mission->0, h.mission->0);
            &&& h.mission is Some
            &&& h.ships == g.ships
            &&& t.satellites.len() == m.satellites.len()
            &&& forall|j: int|
                0 <= j < k && j < m.satellites.len() ==> #[trigger] t.satellites[j]
                    == m.satellites[j]
            &&& forall|j: int|
                k <= j < m.satellites.len() ==> {
                    let (s, r) = (m.satellites[j], #[trigger] t.satellites[j]);
                    let gone = s.holder is Some && exists|i: int|
                        0 <= i < g.ships.len() && (#[trigger] g.ships[i]).id == s.holder->0
                            && wrecked(g, i);
                    &&& gone ==> r.supply && r.holder is None && r.id == s.id
                    &&& !gone ==> r == s
                }
        }),
    decreases g.mission->0.satellites.len() - k,
{
    let m = g.mission->0;
    if k < m.satellites.len() {
        let s = m.satellites[k];
        if s.holder is Some {
            lost_means_wrecked(g, s.holder->0);
        }
        if s.holder is Some && g.lost(s.holder->0) {
            let back = Game {
                mission: Some(
                    MissionModel {
                        satellites: m.satellites.update(
                            k,
                            Satellite { holder: None, supply: true, ..s },
                        ),
                        ..m
                    },
                ),
                ..g
            }.saying(crate::event::Event::SatelliteReturns(s.id));
            lost_satellites_return(back, k + 1);
            assert forall|i: int| #[trigger] wrecked(back, i) == wrecked(g, i) by {}
        } else {
            lost_satellites_return(g, k + 1);
        }
    }
}

/// Reinforcements come one for each place given, all of them whole, unplaced
/// and flown by the same seat with the same card; the ships already there stay
/// as they are, and those replaced are remembered.
pub proof fn reinforcements_replace_ships(
    g: Game,
    places: Seq<usize>,
    k: int,
    owner: PlayerId,
    class: ShipClass,
    pilot: Pilot,
)
    requires
        0 <= k <= places.len(),
        g.mission is Some,
    ensures
        ({
            let h = g.reinforcing(places, k, owner, class, pilot);
            let n = places.len() - k;
            &&& h.mission is Some
            &&& h.ships.len() == g.ships.len() + n
            &&& forall|j: int| 0 <= j < g.ships.len() ==> #[trigger] h.ships[j] == g.ships[j]
            &&& forall|j: int|
                g.ships.len() <= j < h.ships.len() ==> {
                    let s = #[trigger] h.ships[j];
                    &&& s.owner == owner
                    &&& s.class == class.id
                    &&& s.pilot == pilot.id
                    &&& s.hull == class.hull
                    &&& s.shields == class.shields
                    &&& s.pose is None
                    &&& !s.destroyed
                    &&& !s.escaped
                }
            &&& h.mission->0.reinforced.len() == g.mission->0.reinforced.len() + n
            &&& h.mission->0.satellites == g.mission->0.satellites
        }),
    decreases places.len() - k,
{
    if k < places.len() {
        let h = g.arriving(g.ships[places[k] as int].id, owner, class, pilot);
        reinforcements_replace_ships(h, places, k + 1, owner, class, pilot);
        let e = g.reinforcing(places, k, owner, class, pilot);
        assert forall|j: int| 0 <= j < g.ships.len() implies #[trigger] e.ships[j] == g.ships[j] by {
            assert(h.ships[j] == g.ships[j]);
        }
        assert forall|j: int| g.ships.len() <= j < e.ships.len() implies ({
            let s = #[trigger] e.ships[j];
            &&& s.owner == owner
            &&& s.class == class.id
            &&& s.pilot == pilot.id
            &&& s.hull == class.hull
            &&& s.shields == class.shields
            &&& s.pose is None
            &&& !s.destroyed
            &&& !s.escaped
        }) by {
            if j == g.ships.len() {
                assert(e.ships[j] == h.ships[j]);
            }
        }
    }
}

/// Each ship of the reinforced side that was destroyed, did not escape and has
/// not been replaced yet brings one reinforcement, and no other ship does.
pub proof fn the_lost_are_replaced_once(g: Game, content: Content, pilot: Pilot, class: ShipClass)
    requires
        g.mission is Some,
        g.ships.len() <= usize::MAX,
        g.mission->0.reserve is Some,
        content.flyer(g.mission->0.reserve->0) == Some(pilot),
        content.chassis(pilot.class) == Some(class),
    ensures
        ({
            let m = g.mission->0;
            let h = g.reserves_called(content);
            let due = picked(g.unreplaced_rule(m), 0, g.ships.len() as int);
            &&& h.ships.len() == g.ships.len() + due.len()
            &&& h.mission->0.reinforced.len() == m.reinforced.len() + due.len()
            &&& forall|j: int| 0 <= j < g.ships.len() ==> #[trigger] h.ships[j] == g.ships[j]
            &&& forall|f: int|
                0 <= f < due.len() ==> {
                    let s = g.ships[#[trigger] due[f] as int];
                    s.destroyed && !s.escaped && !m.reinforced.contains(s.id)
                }
            &&& forall|j: int|
                0 <= j < g.ships.len() && wrecked(g, j) && !m.reinforced.contains(
                    (#[trigger] g.ships[j]).id,
                ) && g.side(g.ships[j].owner) == m.flies(m.reinforcing) ==> exists|f: int|
                    0 <= f < due.len() && due[f] == j
            &&& forall|j: int|
                g.ships.len() <= j < h.ships.len() ==> (#[trigger] h.ships[j]).hull == class.hull
                    && h.ships[j].shields == class.shields && h.ships[j].pilot == pilot.id
                    && h.ships[j].pose is None && !h.ships[j].destroyed
        }),
{
    reveal(Game::reserves_called);
    let m = g.mission->0;
    let n = g.ships.len() as int;
    let rule = g.unreplaced_rule(m);
    let due = picked(rule, 0, n);
    picked_obey(rule, 0, n);
    reinforcements_replace_ships(
        g,
        due,
        0,
        seat_from(g.teams, m.flies(m.reinforcing), 0, 0),
        class,
        pilot,
    );
    assert forall|f: int| 0 <= f < due.len() implies ({
        let s = g.ships[#[trigger] due[f] as int];
        s.destroyed && !s.escaped && !m.reinforced.contains(s.id)
    }) by {
        assert(rule(due[f] as int));
    }
    assert forall|j: int|
        0 <= j < n && wrecked(g, j) && !m.reinforced.contains((#[trigger] g.ships[j]).id)
            && g.side(g.ships[j].owner) == m.flies(m.reinforcing) implies exists|f: int|
        0 <= f < due.len() && due[f] == j by {
        assert(rule(j));
        own_place_is_picked(rule, j, 0, n);
    }
}

} // verus!
