//! Bombs, mines and torpedoes: what goes off, against whom, and what is left
//! on the board; and how a mission is set up.

use vstd::prelude::*;

use crate::bombs::{BombHit, BombKind, BombToken, DetonationModel};
use crate::data::Content;
use crate::dice::count;
use crate::game::arsenal::{in_line, listed, picked_in_order};
use crate::game::blasts::{find_obstacle, without_obstacle, Salvo};
use crate::game::briefing::{pilot_named, MissionError};
use crate::game::closing::{armed_among, holes_among};
use crate::game::state::{Game, Play};
use crate::mission::{MissionBrief, MissionKind};
use crate::obstacle::{Obstacle, ObstacleKind};
use crate::pick::{first, first_is_first};
use crate::pilot::Pilot;
use crate::ship::Faction;
use crate::sight::Sight;
use crate::upgrade::UpgradeId;

verus! {

/// A blast catches exactly the living ships on the board that are marked.
pub proof fn blasts_catch_the_marked(g: Game, within: Seq<bool>, v: int)
    requires
        g.ships.len() <= usize::MAX,
        0 <= v < g.ships.len(),
    ensures
        in_line(g.victims(within), g.ships.len() as int),
        listed(g.victims(within), 0, v) <==> !g.ships[v].destroyed && g.ships[v].pose is Some && v
            < within.len() && within[v],
{
    let rule = g.victim_rule(within);
    picked_in_order(rule, g.ships.len() as int);
    assert(listed(g.victims(within), 0, v) <==> rule(v));
}

/// At the end of the Activation phase every bomb goes off that is no mine, and
/// no mine does.
pub proof fn bombs_go_off_and_mines_wait(all: Seq<BombToken>, n: int, t: BombToken)
    requires
        0 <= n <= all.len(),
    ensures
        count(armed_among(all, n), t) == if t.kind == BombKind::ProximityMine || t.kind
            == BombKind::ClusterMine || t.kind == BombKind::ConnerNet {
            0
        } else {
            count(all.take(n), t)
        },
    decreases n,
{
    if n > 0 {
        bombs_go_off_and_mines_wait(all, n - 1, t);
        assert(all.take(n).drop_last() =~= all.take(n - 1));
        if !all[n - 1].kind.mine() {
            crate::dice::count_push(armed_among(all, n - 1), t, all[n - 1]);
        }
    } else {
        assert(all.take(n) =~= Seq::empty());
    }
}

/// Black holes pull, and no other obstacle does.
pub proof fn black_holes_pull(all: Seq<Obstacle>, n: int, o: Obstacle)
    requires
        0 <= n <= all.len(),
    ensures
        count(holes_among(all, n), o) == if o.kind == ObstacleKind::BlackHole {
            count(all.take(n), o)
        } else {
            0
        },
    decreases n,
{
    if n > 0 {
        black_holes_pull(all, n - 1, o);
        assert(all.take(n).drop_last() =~= all.take(n - 1));
        if all[n - 1].kind == ObstacleKind::BlackHole {
            crate::dice::count_push(holes_among(all, n - 1), o, all[n - 1]);
        }
    } else {
        assert(all.take(n) =~= Seq::empty());
    }
}

/// Every armed bomb goes off once, in order, and is on record.
pub proof fn every_armed_bomb_is_recorded(
    p: Play,
    content: Content,
    sight: Sight,
    armed: Seq<BombToken>,
    within: Seq<Vec<bool>>,
    k: int,
    done: Seq<DetonationModel>,
)
    requires
        0 <= k <= armed.len(),
    ensures
        ({
            let all = p.exploding(content, sight, armed, within, k, done).1;
            &&& all.len() == done.len() + (armed.len() - k)
            &&& forall|j: int| 0 <= j < done.len() ==> #[trigger] all[j] == done[j]
            &&& forall|j: int|
                done.len() <= j < all.len() ==> (#[trigger] all[j]).token == armed[k + j
                    - done.len()]
        }),
    decreases armed.len() - k,
{
    if k < armed.len() {
        let q = p.at(p.game.cleared_of(armed[k].id));
        let near = if 0 <= k < within.len() {
            within[k]@
        } else {
            Seq::empty()
        };
        let (r, hits) = q.detonated(content, sight, armed[k].kind, q.game.victims(near));
        let next = done.push(DetonationModel { token: armed[k], hits });
        every_armed_bomb_is_recorded(r, content, sight, armed, within, k + 1, next);
        let all = p.exploding(content, sight, armed, within, k, done).1;
        assert forall|j: int| 0 <= j < done.len() implies #[trigger] all[j] == done[j] by {
            assert(all[j] == next[j]);
        }
        assert forall|j: int| done.len() <= j < all.len() implies (#[trigger] all[j]).token
            == armed[k + j - done.len()] by {
            if j == done.len() {
                assert(all[j] == next[j]);
            }
        }
    }
}

/// A token goes off against every victim once, in order, and each hit is on
/// record under the id that ship had.
pub proof fn every_victim_is_recorded(
    p: Play,
    content: Content,
    sight: Sight,
    kind: BombKind,
    victims: Seq<usize>,
    k: int,
    hits: Seq<BombHit>,
)
    requires
        0 <= k <= victims.len(),
    ensures
        ({
            let all = p.blasting(content, sight, kind, victims, k, hits).1;
            &&& all.len() == hits.len() + (victims.len() - k)
            &&& forall|j: int| 0 <= j < hits.len() ==> #[trigger] all[j] == hits[j]
            &&& k < victims.len() ==> all[hits.len() as int] == p.blasted(
                content,
                sight,
                victims[k] as int,
                kind,
            ).1
        }),
    decreases victims.len() - k,
{
    if k < victims.len() {
        let (q, hit) = p.blasted(content, sight, victims[k] as int, kind);
        every_victim_is_recorded(q, content, sight, kind, victims, k + 1, hits.push(hit));
        let all = p.blasting(content, sight, kind, victims, k, hits).1;
        assert(all[hits.len() as int] == hits.push(hit)[hits.len() as int]);
        assert forall|j: int| 0 <= j < hits.len() implies #[trigger] all[j] == hits[j] by {
            assert(all[j] == hits.push(hit)[j]);
        }
    }
}

/// An obstacle that is found has the id, and an obstacle that is removed is
/// gone while every other stays.
pub proof fn obstacles_are_removed_by_id(s: Seq<Obstacle>, id: u32, o: Obstacle)
    ensures
        count(without_obstacle(s, id), o) == if o.id == id {
            0
        } else {
            count(s, o)
        },
        find_obstacle(s, id) is Some ==> find_obstacle(s, id)->0.id == id,
    decreases s.len(),
{
    if s.len() > 0 {
        obstacles_are_removed_by_id(s.drop_last(), id, o);
        if s.last().id != id {
            crate::dice::count_push(without_obstacle(s.drop_last(), id), o, s.last());
        }
        an_obstacle_found_has_the_id(s, id);
    }
}

proof fn an_obstacle_found_has_the_id(s: Seq<Obstacle>, id: u32)
    ensures
        find_obstacle(s, id) is Some ==> find_obstacle(s, id)->0.id == id,
        find_obstacle(s, id) is None ==> forall|k: int|
            0 <= k < s.len() ==> (#[trigger] s[k]).id != id,
    decreases s.len(),
{
    if s.len() > 0 {
        let rest = s.skip(1);
        an_obstacle_found_has_the_id(rest, id);
        if s[0].id != id && find_obstacle(rest, id) is None {
            assert forall|k: int| 0 <= k < s.len() implies (#[trigger] s[k]).id != id by {
                if k > 0 {
                    assert(rest[k - 1].id != id);
                }
            }
        }
    }
}

/// A Seismic Torpedo is fired by a ship that may, at an obstacle that is there,
/// in range and in arc; else nobody is hurt and no obstacle goes. Where it is
/// fired, the obstacle is gone.
pub proof fn seismic_torpedoes_break_an_obstacle(
    p: Play,
    content: Content,
    sight: Sight,
    salvo: Salvo,
    i: int,
    card: UpgradeId,
    obstacle: u32,
)
    ensures
        ({
            let (q, hits) = p.seismic(content, sight, salvo, i, card, obstacle);
            let there = exists|k: int|
                0 <= k < p.game.obstacles.len() && (#[trigger] p.game.obstacles[k]).id == obstacle;
            &&& hits is Some <==> p.game.card_actions(content, sight, i).contains(card) && there
                && salvo.in_range && salvo.in_arc
            &&& hits is None ==> q.game.ships == p.game.ships && q.game.obstacles
                == p.game.obstacles && q.dice == p.dice
            &&& hits is Some ==> forall|o: Obstacle|
                o.id == obstacle ==> #[trigger] count(q.game.obstacles, o) == 0
        }),
{
    an_obstacle_found_has_the_id(p.game.obstacles, obstacle);
    let at = find_obstacle(p.game.obstacles, obstacle);
    if at is Some {
        obstacle_found_is_there(p.game.obstacles, obstacle);
        let q = p.torpedo_away(content, i, card, at->0);
        let r = q.detonated(
            content,
            sight,
            BombKind::SeismicTorpedo,
            q.game.victims(salvo.within@),
        ).0;
        assert forall|o: Obstacle| o.id == obstacle implies #[trigger] count(
            without_obstacle(r.game.obstacles, obstacle),
            o,
        ) == 0 by {
            obstacles_are_removed_by_id(r.game.obstacles, obstacle, o);
        }
    }
}

proof fn obstacle_found_is_there(s: Seq<Obstacle>, id: u32)
    requires
        find_obstacle(s, id) is Some,
    ensures
        exists|k: int| 0 <= k < s.len() && (#[trigger] s[k]).id == id,
    decreases s.len(),
{
    if s[0].id != id {
        obstacle_found_is_there(s.skip(1), id);
        let k = choose|k: int| 0 <= k < s.skip(1).len() && (#[trigger] s.skip(1)[k]).id == id;
        assert(s[k + 1].id == id);
    } else {
        assert(s[0].id == id);
    }
}

/// A pilot found by name has it; none is found only where none has it.
pub proof fn pilots_are_found_by_name(pilots: Seq<Pilot>, name: Seq<char>)
    ensures
        pilot_named(pilots, name) is Some ==> pilot_named(pilots, name)->0.xws@ == name,
        pilot_named(pilots, name) is None ==> forall|k: int|
            0 <= k < pilots.len() ==> (#[trigger] pilots[k]).xws@ != name,
    decreases pilots.len(),
{
    if pilots.len() > 0 {
        let rest = pilots.skip(1);
        pilots_are_found_by_name(rest, name);
        if pilots[0].xws@ != name && pilot_named(rest, name) is None {
            assert forall|k: int| 0 <= k < pilots.len() implies (#[trigger] pilots[k]).xws@
                != name by {
                if k > 0 {
                    assert(rest[k - 1].xws@ != name);
                }
            }
        }
    }
}

/// The Rebel side is that of the first Rebel ship.
pub proof fn rebels_fly_rebel_ships(g: Game, content: Content, k: int)
    requires
        g.ships.len() <= usize::MAX,
        0 <= k < g.ships.len(),
        content.chassis(g.ships[k].class)->0.faction == Faction::RebelAlliance,
        forall|j: int|
            0 <= j < k ==> content.chassis((#[trigger] g.ships[j]).class)->0.faction
                != Faction::RebelAlliance,
    ensures
        g.rebels(content) == g.side(g.ships[k].owner),
{
    let rule = g.rebel_rule(content);
    first_is_first(rule, 0, g.ships.len() as int);
    assert(rule(k));
    let f = first(rule, 0, g.ships.len() as int)->0 as int;
    assert(rule(f));
    if f < k {
        assert(content.chassis(g.ships[f].class)->0.faction != Faction::RebelAlliance);
    } else if k < f {
        assert(!rule(k));
    }
}

/// A mission is played between two sides, and Political Escort needs the
/// senator's shuttle; nothing else stops one.
pub proof fn missions_need_two_sides(g: Game, content: Content, kind: MissionKind)
    ensures
        ({
            let refused = g.mission_refused(content, kind);
            let escort = kind == MissionKind::PoliticalEscort;
            let pilot = pilot_named(content.pilots.pilots@, "senatorsshuttle"@);
            &&& g.sides() != 2 <==> refused == Some(MissionError::NotTwoSides)
            &&& g.sides() == 2 && !escort ==> refused is None
            &&& g.sides() == 2 && escort && pilot is None ==> refused == Some(
                MissionError::NoShuttle,
            )
            &&& g.sides() == 2 && escort && pilot is Some ==> refused == if content.chassis(
                pilot->0.class,
            ) is None {
                Some(MissionError::NoShuttleClass)
            } else {
                None
            }
        }),
{
}

/// A mission starts with the two sides told apart. Political Escort adds the
/// shuttle, with six shields from 100 points on, where the brief puts it;
/// Asteroid Run disables the first Rebel ship; Dark Whispers puts the
/// satellites out, none of them scanned. On equal points the Empire has the
/// initiative.
pub proof fn missions_start_as_briefed(
    g: Game,
    content: Content,
    kind: MissionKind,
    points: u32,
    brief: MissionBrief,
)
    requires
        g.rebels(content) <= 1,
        g.ships.len() < u32::MAX,
    ensures
        ({
            let h = g.on_mission(content, kind, points, brief);
            let m = h.mission->0;
            let n = g.ships.len();
            &&& h.mission is Some && m.kind == kind
            &&& m.rebel_side == g.rebels(content) && m.imperial_side + m.rebel_side == 1
            &&& kind == MissionKind::PoliticalEscort ==> h.ships.len() == n + 1 && m.shuttle
                == Some(h.ships[n as int].id) && h.ships[n as int].id.0 == n && h.ships[n as int].pose
                == Some(brief.shuttle_pose) && h.ships[n as int].shields == if points >= 100 {
                6int
            } else {
                0
            }
            &&& kind != MissionKind::PoliticalEscort ==> h.ships == g.ships && m.shuttle is None
            &&& kind != MissionKind::AsteroidRun ==> m.disabled is None
            &&& kind == MissionKind::DarkWhispers ==> m.satellites.len() == brief.satellites@.len()
                && forall|k: int|
                0 <= k < m.satellites.len() ==> (#[trigger] m.satellites[k]).holder is None
                    && !m.satellites[k].supply && m.satellites[k].pos == brief.satellites@[k]
            &&& kind != MissionKind::DarkWhispers ==> m.satellites.len() == 0
            &&& m.reinforced.len() == 0 && m.spawned == 0
            &&& m.reinforcing == if kind == MissionKind::DarkWhispers {
                Faction::RebelAlliance
            } else {
                Faction::Empire
            }
            &&& g.points(m.rebel_side) != g.points(m.imperial_side) ==> h.initiative
                == g.initiative
            &&& g.points(m.rebel_side) == g.points(m.imperial_side) ==> h.initiative
                == g.first_seat(m.imperial_side)
            &&& forall|j: int| 0 <= j < n ==> #[trigger] h.ships[j] == g.ships[j]
        }),
{
    reveal(Game::on_mission);
}

/// The ship that Asteroid Run disables is the first of the Rebels.
pub proof fn the_first_rebel_is_disabled(
    g: Game,
    content: Content,
    points: u32,
    brief: MissionBrief,
    k: int,
)
    requires
        g.ships.len() <= usize::MAX,
        0 <= k < g.ships.len(),
        g.side(g.ships[k].owner) == g.rebels(content),
        forall|j: int|
            0 <= j < k ==> g.side((#[trigger] g.ships[j]).owner) != g.rebels(content),
    ensures
        g.on_mission(content, MissionKind::AsteroidRun, points, brief).mission->0.disabled == Some(
            g.ships[k].id,
        ),
{
    reveal(Game::on_mission);
    let rule = g.side_rule(g.rebels(content));
    first_is_first(rule, 0, g.ships.len() as int);
    assert(rule(k));
    let f = first(rule, 0, g.ships.len() as int)->0 as int;
    assert(rule(f));
    if f < k {
        assert(g.side(g.ships[f].owner) != g.rebels(content));
    } else if k < f {
        assert(!rule(k));
    }
}

} // verus!
