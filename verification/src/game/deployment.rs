//! Squads entering play: points, ships, and where they are placed.

use vstd::prelude::*;

use crate::board::Seat;
use crate::data::Content;
use crate::game::arsenal::{in_line, listed};
use crate::game::cards::card_doing;
use crate::game::crews::friends_near_are_friends;
use crate::game::deeds::is_named;
use crate::game::hazards::others_stay;
use crate::game::orders::ids_find_their_ship;
use crate::game::placement::{Area, Spot};
use crate::game::rejection::Rejection;
use crate::game::setup::{entered, entry_fault, loaded, side_total, unknown_card, SetupError};
use crate::game::state::{Game, Phase};
use crate::mission::MissionKind;
use crate::pick::{first, first_is_first};
use crate::pilot::PilotAbility;
use crate::ship::{Faction, PlayerId, ShipId, ShipModel};
use crate::sight::Sight;
use crate::squad::SquadShip;
use crate::upgrade::{Slot, UpgradeEffect, UpgradeId};

verus! {

/// The first unknown card is found, and nothing known is.
pub proof fn unknown_cards_are_found(content: Content, cards: Seq<UpgradeId>, n: int)
    requires
        0 <= n <= cards.len(),
    ensures
        ({
            let found = unknown_card(content, cards, n);
            &&& found is None <==> forall|k: int|
                0 <= k < n ==> content.card(#[trigger] cards[k]) is Some
            &&& found is Some ==> content.card(found->0) is None && exists|k: int|
                0 <= k < n && #[trigger] cards[k] == found->0
        }),
    decreases n,
{
    if n > 0 {
        unknown_cards_are_found(content, cards, n - 1);
        let prior = unknown_card(content, cards, n - 1);
        if prior is Some {
            let k = choose|k: int| 0 <= k < n - 1 && #[trigger] cards[k] == prior->0;
            assert(content.card(cards[k]) is None);
        } else if content.card(cards[n - 1]) is None {
            assert(cards[n - 1] == unknown_card(content, cards, n)->0);
        }
    }
}

/// An entry of a squad is in order when its pilot, the class and dial of the
/// ship and all its cards are known; else what is missing is named.
pub proof fn entries_name_what_is_missing(content: Content, e: SquadShip)
    ensures
        ({
            let fault = entry_fault(content, e);
            let pilot = content.flyer(e.pilot);
            let class = pilot->0.class;
            &&& pilot is None ==> fault == Some(SetupError::UnknownPilot(e.pilot))
            &&& pilot is Some && content.chassis(class) is None ==> fault == Some(
                SetupError::UnknownClass(class),
            )
            &&& pilot is Some && content.chassis(class) is Some && !content.has_dial(class)
                ==> fault == Some(SetupError::NoDial(class))
            &&& fault is None <==> pilot is Some && content.chassis(class) is Some
                && content.has_dial(class) && forall|k: int|
                0 <= k < e.upgrades@.len() ==> content.card(#[trigger] e.upgrades@[k]) is Some
        }),
{
    unknown_cards_are_found(content, e.upgrades@, e.upgrades@.len() as int);
}

/// Extra Munitions put a token on every torpedo, missile and bomb card, and on
/// no other.
pub proof fn munitions_load_ordnance(
    content: Content,
    cards: Seq<UpgradeId>,
    n: int,
    card: UpgradeId,
)
    requires
        0 <= n <= cards.len(),
    ensures
        ({
            let slot = content.card(card)->0.slot;
            loaded(content, cards, n).contains(card) <==> cards.take(n).contains(card)
                && content.card(card) is Some && (slot == Slot::Torpedo || slot == Slot::Missile
                || slot == Slot::Bomb)
        }),
    decreases n,
{
    if n > 0 {
        munitions_load_ordnance(content, cards, n - 1, card);
        let rest = loaded(content, cards, n - 1);
        let all = loaded(content, cards, n);
        let (less, more) = (cards.take(n - 1), cards.take(n));
        assert(cards.take(n).contains(card) <==> cards.take(n - 1).contains(card) || cards[n - 1]
            == card) by {
            if cards.take(n).contains(card) {
                let k = choose|k: int| 0 <= k < n && more[k] == card;
                if k < n - 1 {
                    assert(cards.take(n - 1)[k] == card);
                }
            }
            if cards.take(n - 1).contains(card) {
                let k = choose|k: int| 0 <= k < n - 1 && less[k] == card;
                assert(cards.take(n)[k] == card);
            }
            if cards[n - 1] == card {
                assert(cards.take(n)[n - 1] == card);
            }
        }
        if all.len() > rest.len() {
            assert(all.contains(card) <==> rest.contains(card) || cards[n - 1] == card) by {
                if all.contains(card) {
                    let k = choose|k: int| 0 <= k < all.len() && all[k] == card;
                    if k < rest.len() {
                        assert(rest[k] == card);
                    }
                }
                if rest.contains(card) {
                    let k = choose|k: int| 0 <= k < rest.len() && rest[k] == card;
                    assert(all[k] == card);
                }
                if cards[n - 1] == card {
                    assert(all[rest.len() as int] == card);
                }
            }
        }
    }
}

/// A ship enters the game whole: with its cards, the hull and shields they
/// give it, no token and no damage, off the board.
pub proof fn ships_enter_whole(
    content: Content,
    e: SquadShip,
    id: int,
    seat: int,
    callsign: Seq<char>,
)
    requires
        content.flyer(e.pilot) is Some,
        0 <= id <= u32::MAX,
        0 <= seat <= u32::MAX,
    ensures
        ({
            let s = entered(content, e, id, seat, callsign);
            let pilot = content.flyer(e.pilot)->0;
            let printed = match pilot.stats {
                Some(stats) => stats,
                None => content.chassis(pilot.class)->0.block(),
            };
            let hull = printed.hull + s.effects(content, UpgradeEffect::HullPlus1);
            let shields = printed.shields + s.effects(content, UpgradeEffect::ShieldPlus1);
            &&& s.id.0 == id && s.owner.0 == seat && s.class == pilot.class && s.pilot == e.pilot
            &&& s.callsign == callsign && s.upgrades == e.upgrades@
            &&& hull <= u8::MAX ==> s.hull == hull
            &&& shields <= u8::MAX ==> s.shields == shields
            &&& s.pose is None && !s.destroyed && !s.escaped
            &&& s.focus == 0 && s.evade == 0 && s.stress == 0 && s.ion == 0 && s.tractor == 0
            &&& s.lock is None && s.lock2 is None && s.crits.len() == 0
            &&& s.plan is None && s.planned_action is None && s.bomb is None
            &&& s.lingers == (pilot.ability == Some(PilotAbility::SurviveUntilEndOfCombat))
            &&& s.late_setup == (pilot.ability == Some(PilotAbility::SetupAnywhereBeyondRange3))
            &&& card_doing(content, e.upgrades@, UpgradeEffect::OrdnanceTokens) is None
                ==> s.ordnance.len() == 0
        }),
{
    let s = entered(content, e, id, seat, callsign);
    let bare = ShipModel { hull: 0, shields: 0, ..s };
    assert(s.effects(content, UpgradeEffect::HullPlus1) == bare.effects(
        content,
        UpgradeEffect::HullPlus1,
    ));
}

/// The points of a side are those of its seats, and a seat of another side
/// adds nothing.
pub proof fn sides_total_their_seats(totals: Seq<u32>, teams: Seq<u8>, side: int, n: int)
    requires
        0 < n <= totals.len(),
        n <= teams.len(),
    ensures
        side_total(totals, teams, side, n) - side_total(totals, teams, side, n - 1) == if teams[n
            - 1] == side {
            totals[n - 1] as int
        } else {
            0
        },
        side_total(totals, teams, side, 0) == 0,
{
}

/// A placed ship stands where it was put. While another ship waits, nobody
/// else changes and placement goes on; with the last one, planning begins.
pub proof fn ships_stand_where_they_are_put(
    g: Game,
    content: Content,
    i: int,
    spot: Spot,
    k: int,
)
    requires
        g.ships.len() <= usize::MAX,
        0 <= i < g.ships.len(),
        0 <= k < g.ships.len(),
    ensures
        ({
            let h = g.placed(content, i, spot);
            let waits = k != i && g.ships[k].pose is None;
            &&& waits ==> h.phase == g.phase && h.ships[i] == (ShipModel {
                pose: Some(spot.pose),
                ..g.ships[i]
            }) && others_stay(g, h, i)
            &&& (forall|j: int| 0 <= j < g.ships.len() && j != i ==> (#[trigger] g.ships[j]).pose
                is Some) ==> h.phase == Phase::Planning
            &&& (forall|j: int| 0 <= j < g.ships.len() && j != i ==> (#[trigger] g.ships[j]).pose
                is Some) && g.turn > 1 ==> h.ships[i] == (ShipModel {
                pose: Some(spot.pose),
                ..g.ships[i]
            }) && others_stay(g, h, i)
        }),
{
    reveal(Game::placed);
    let h = g.with_ship(i, ShipModel { pose: Some(spot.pose), ..g.ships[i] });
    first_is_first(h.homeless_rule(), 0, g.ships.len() as int);
    if k != i && g.ships[k].pose is None {
        assert(h.homeless_rule()(k));
    }
}

proof fn focus_reaches_the_listed(g: Game, places: Seq<usize>, k: int)
    requires
        in_line(places, g.ships.len() as int),
        0 <= k <= places.len(),
    ensures
        ({
            let h = g.focused_from(places, k);
            &&& h.ships.len() == g.ships.len()
            &&& forall|j: int|
                0 <= j < g.ships.len() ==> #[trigger] h.ships[j] == if listed(places, k, j) {
                    ShipModel {
                        focus: crate::game::arsenal::one_more(g.ships[j].focus),
                        ..g.ships[j]
                    }
                } else {
                    g.ships[j]
                }
        }),
    decreases places.len() - k,
{
    let h = g.focused_from(places, k);
    if k < places.len() {
        let i = places[k] as int;
        let next = g.with_ship(i, g.ships[i].with_focus());
        focus_reaches_the_listed(next, places, k + 1);
        assert forall|j: int| 0 <= j < g.ships.len() implies #[trigger] h.ships[j] == if listed(
            places,
            k,
            j,
        ) {
            ShipModel {
                focus: crate::game::arsenal::one_more(g.ships[j].focus),
                ..g.ships[j]
            }
        } else {
            g.ships[j]
        } by {
            crate::game::arsenal::later_is_listed(places, g.ships.len() as int, k, j);
        }
    }
}

/// A Hyperwave Comm Scanner gives every other friend placed within Range 1-2 a
/// focus token, and nobody else.
pub proof fn scanners_focus_the_friends(
    g: Game,
    content: Content,
    sight: Sight,
    k: int,
    o: int,
)
    requires
        g.ships.len() <= usize::MAX,
        0 <= k < g.ships.len(),
        0 <= o < g.ships.len(),
    ensures
        ({
            let h = g.scanner(content, sight, k);
            let near = o != k && !g.ships[o].destroyed && g.side(g.ships[o].owner) == g.side(
                g.ships[k].owner,
            ) && g.ships[k].pose is Some && g.ships[o].pose is Some && sight.at(k, o).band is Some
                && sight.at(k, o).band->0 <= 2;
            h.ships[o] == if near && g.has(content, k, UpgradeEffect::SetupSkillOverride) {
                ShipModel {
                    focus: crate::game::arsenal::one_more(g.ships[o].focus),
                    ..g.ships[o]
                }
            } else {
                g.ships[o]
            }
        }),
{
    friends_near_are_friends(g, sight, k, 2, o);
    focus_reaches_the_listed(g, g.near(sight, k, 2), 0);
}

/// Ship `e` is a living enemy on the board within Range 1-3 of the spot.
pub open spec fn too_near(g: Game, player: PlayerId, spot: Spot, e: int) -> bool {
    &&& 0 <= e < g.ships.len()
    &&& !g.ships[e].destroyed
    &&& g.side(g.ships[e].owner) != g.side(player)
    &&& g.ships[e].pose is Some
    &&& e < spot.reaches@.len() && spot.reaches@[e]
}

/// Ship `e` is another living friend on the board that the base would overlap.
pub open spec fn in_the_way(g: Game, player: PlayerId, id: ShipId, spot: Spot, e: int) -> bool {
    &&& 0 <= e < g.ships.len()
    &&& g.ships[e].id != id
    &&& !g.ships[e].destroyed
    &&& g.side(g.ships[e].owner) == g.side(player)
    &&& g.ships[e].pose is Some
    &&& e < spot.overlaps@.len() && spot.overlaps@[e]
}

/// A player places a ship of their own in their zone, clear of friends and
/// obstacles. A ship that is set up late waits for the others and keeps beyond
/// Range 3 of enemies; the Rebels of Asteroid Run keep away from asteroids.
pub proof fn placements_are_refused_for_a_reason(
    g: Game,
    player: PlayerId,
    id: ShipId,
    spot: Spot,
    k: int,
)
    requires
        g.ships.len() <= usize::MAX,
        is_named(g, k, id),
    ensures
        ({
            let refused = g.place_refused(player, id, spot);
            let s = g.ships[k];
            let late = s.late_setup && g.turn == 1;
            let shy = g.turn == 1 && g.mission is Some && g.mission->0.kind
                == MissionKind::AsteroidRun && g.side(player) == g.mission->0.rebel_side;
            let open = g.phase == Phase::Placement && s.owner == player;
            let early = late && !g.late_pending();
            let close = late && exists|e: int| #[trigger] too_near(g, player, spot, e);
            let taken = exists|e: int| #[trigger] in_the_way(g, player, id, spot, e);
            &&& g.phase != Phase::Placement ==> refused == Some(Rejection::WrongPhase)
            &&& g.phase == Phase::Placement && s.owner != player ==> refused == Some(
                Rejection::NotYourShip,
            )
            &&& open && early ==> refused == Some(Rejection::PlaceLast)
            &&& open && !early && close ==> refused == Some(Rejection::TooCloseToEnemy)
            &&& open && !early && !close && !spot.in_zone ==> refused == Some(Rejection::OutOfZone)
            &&& open && !early && !close && spot.in_zone && taken ==> refused == Some(
                Rejection::OverlapsShip,
            )
            &&& refused is None <==> open && !early && !close && spot.in_zone && !taken
                && !spot.on_obstacle && !(shy && spot.near_obstacle)
        }),
{
    ids_find_their_ship(g, id, k);
    let n = g.ships.len() as int;
    let near = g.close_enemy_rule(player, spot.reaches@);
    let over = g.overlap_rule(player, id, spot.overlaps@);
    first_is_first(near, 0, n);
    first_is_first(over, 0, n);
    if first(near, 0, n) is Some {
        assert(near(first(near, 0, n)->0 as int));
        assert(too_near(g, player, spot, first(near, 0, n)->0 as int));
    }
    if exists|e: int| #[trigger] too_near(g, player, spot, e) {
        let e = choose|e: int| #[trigger] too_near(g, player, spot, e);
        assert(near(e));
    }
    if first(over, 0, n) is Some {
        assert(over(first(over, 0, n)->0 as int));
        assert(in_the_way(g, player, id, spot, first(over, 0, n)->0 as int));
    }
    if exists|e: int| #[trigger] in_the_way(g, player, id, spot, e) {
        let e = choose|e: int| #[trigger] in_the_way(g, player, id, spot, e);
        assert(over(e));
    }
}

/// Late ships are placed in the first round, once every other ship stands and
/// while one of them does not.
pub proof fn late_ships_come_last(g: Game, k: int)
    requires
        g.ships.len() <= usize::MAX,
        0 <= k < g.ships.len(),
    ensures
        g.late_pending() ==> g.turn == 1 && g.phase == Phase::Placement,
        g.late_pending() && g.ships[k].pose is None ==> g.ships[k].late_setup,
        g.turn == 1 && g.phase == Phase::Placement && g.ships[k].late_setup && g.ships[k].pose
            is None && (forall|j: int|
            0 <= j < g.ships.len() && !(#[trigger] g.ships[j]).late_setup ==> g.ships[j].pose
                is Some) ==> g.late_pending(),
{
    let n = g.ships.len() as int;
    first_is_first(g.waiting_rule(), 0, n);
    first_is_first(g.late_rule(), 0, n);
    if g.ships[k].pose is None && !g.ships[k].late_setup {
        assert(g.waiting_rule()(k));
    }
    if g.ships[k].pose is None && g.ships[k].late_setup {
        assert(g.late_rule()(k));
    }
}

/// Without a mission and without late ships, a player deploys along the edge
/// of their side; in a mission, in the zones of their faction.
pub proof fn sides_deploy_at_their_edge(g: Game, player: PlayerId)
    requires
        !g.late_pending(),
        g.mission is Some ==> g.side(player) <= 1,
    ensures
        g.mission is None ==> g.deploy_area(player) == Area::Band(Seat::edge(g.side(player))),
        g.mission is Some ==> ({
            let m = g.mission->0;
            let rebel = g.side(player) == m.rebel_side;
            g.deploy_area(player) == Area::Mission {
                kind: m.kind,
                faction: if rebel {
                    Faction::RebelAlliance
                } else {
                    Faction::Empire
                },
                own: Seat::edge(g.side(player)),
                other: Seat::edge(
                    if g.side(player) == 0 {
                        1
                    } else {
                        0
                    },
                ),
                later: g.turn > 1,
            }
        }),
{
}

} // verus!
