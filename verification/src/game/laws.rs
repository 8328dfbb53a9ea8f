//! What holds of the rules as a whole.

use vstd::prelude::*;

use crate::bombs::{BombHit, BombKind, BombToken, DetonationModel};
use crate::crit::CritEffect;
use crate::data::Content;
use crate::dice::{
    applied, cancelled, count_bounded, count_push, counts_fit, less, tally, AttackFace,
    AttackOutcome, AttackRoll, DefenseFace, DefenseRoll,
};
use crate::game::actions::Moves;
use crate::game::activation::{begun, places_in};
use crate::game::battle::{StepModel, Survey};
use crate::game::cards::{card_doing, untalented, unused_card};
use crate::game::closing::armed_among;
use crate::game::muster::{grouped, ranked, skill_in};
use crate::game::order::{
    a_replacement_is_never_red, ids, lined_up, order_is_fair, replacement,
};
use crate::game::placement::Spot;
use crate::game::plain::{
    sparing_keeps, the_guard_spares, the_roll_spares, the_strike_adds_up, winding_up_spares,
};
use crate::game::settling::without_token;
use crate::game::setup::{all_ships, squad_ships};
use crate::game::state::{AttackOption, Game, Phase, Play, Shot};
use crate::game::targets::{automatic, nearest_option, option_on, primaries, Gun};
use crate::maneuver::{Difficulty, Steer};
use crate::pick::{first, first_is_first, like_rules_pick_alike, picked, picked_obey};
use crate::ship::{sat, PlayerId, ShipId, ShipModel};
use crate::sight::Sight;
use crate::squad::{Squad, SquadShip};
use crate::text::alike;
use crate::upgrade::{Slot, UpgradeEffect, UpgradeId};

verus! {

broadcast use crate::game::state::framing;

// ---- Victory ----

/// Without a mission, the last side flying wins.
pub proof fn the_last_side_flying_wins(g: Game, i: int)
    requires
        g.mission is None,
        g.ships.len() <= usize::MAX,
        0 <= i < g.ships.len(),
        !g.ships[i].destroyed,
        forall|k: int|
            0 <= k < g.ships.len() && !(#[trigger] g.ships[k]).destroyed ==> g.same_side(k, i),
    ensures
        g.judged_over().phase == Phase::GameOver,
        g.judged_over().winner == Some(g.side(g.ships[i].owner)),
{
    let n = g.ships.len() as int;
    reveal(Game::judged_over);
    reveal(Game::standing);
    first_is_first(g.alive_rule(), 0, n);
    assert(g.alive_rule()(i));
    first_is_first(g.rival_rule(g.side(g.ships[i].owner)), 0, n);
}

/// Without a mission, when every ship is destroyed at once the side with
/// initiative wins.
pub proof fn initiative_wins_a_mutual_kill(g: Game)
    requires
        g.mission is None,
        g.ships.len() <= usize::MAX,
        forall|k: int| 0 <= k < g.ships.len() ==> (#[trigger] g.ships[k]).destroyed,
    ensures
        g.judged_over().phase == Phase::GameOver,
        g.judged_over().winner == Some(g.side(g.initiative)),
{
    reveal(Game::judged_over);
    reveal(Game::standing);
    first_is_first(g.alive_rule(), 0, g.ships.len() as int);
}

/// Without a mission, the game goes on while two sides are flying.
pub proof fn the_game_goes_on_between_two_sides(g: Game, i: int, j: int)
    requires
        g.mission is None,
        g.ships.len() <= usize::MAX,
        0 <= i < g.ships.len(),
        0 <= j < g.ships.len(),
        !g.ships[i].destroyed,
        !g.ships[j].destroyed,
        !g.same_side(i, j),
    ensures
        g.judged_over().phase == Phase::Planning,
        g.judged_over().winner == g.winner,
{
    let n = g.ships.len() as int;
    reveal(Game::judged_over);
    reveal(Game::standing);
    first_is_first(g.alive_rule(), 0, n);
    assert(g.alive_rule()(i));
    let k = first(g.alive_rule(), 0, n)->0;
    let side = g.side(g.ships[k as int].owner);
    first_is_first(g.rival_rule(side), 0, n);
    assert(g.rival_rule(side)(i) || g.rival_rule(side)(j));
}

/// A mission is won by its objective only, whoever is still flying.
pub proof fn missions_are_won_by_their_objectives(g: Game)
    requires
        g.mission is Some,
    ensures
        g.objective() is None ==> g.judged_over().phase != Phase::GameOver
            && g.judged_over().winner == g.winner,
        g.objective() is Some ==> g.judged_over().phase == Phase::GameOver
            && g.judged_over().winner == g.objective(),
{
    reveal(Game::judged_over);
}

// ---- Targets ----

/// Every option of a ship is one of its weapons against a living enemy on the
/// board, in range and arc, with what the weapon asks for in hand; and no
/// friend of a Biggs Darklighter that could be hit instead.
pub proof fn options_are_living_enemies(
    g: Game,
    content: Content,
    sight: Sight,
    a: int,
    k: int,
)
    requires
        0 <= k < g.options(content, sight, a).len(),
    ensures
        ({
            let o = g.options(content, sight, a)[k];
            let all = g.options_from(content, sight, a, g.guns(content, a), 0);
            &&& !g.shielded(content, sight, all, o)
            &&& exists|t: int, w: int|
                0 <= t < g.ships.len() && 0 <= w < g.guns(content, a).len() && g.visible(
                    content,
                    sight,
                    a,
                    t,
                ) && #[trigger] g.eligible(content, sight, a, t, g.guns(content, a)[w]) && o
                    == g.option(sight, a, t, g.guns(content, a)[w])
        }),
{
    reveal(Game::options);
    let guns = g.guns(content, a);
    let all = g.options_from(content, sight, a, guns, 0);
    unshielded_come_from_all(g, content, sight, all, all, k);
    let o = g.options(content, sight, a)[k];
    let j = choose|j: int| 0 <= j < all.len() && all[j] == o;
    options_from_are_shots(g, content, sight, a, guns, 0, j);
}

proof fn unshielded_come_from_all(
    g: Game,
    content: Content,
    sight: Sight,
    all: Seq<AttackOption>,
    some: Seq<AttackOption>,
    k: int,
)
    requires
        0 <= k < g.unshielded(content, sight, all, some).len(),
    ensures
        some.contains(g.unshielded(content, sight, all, some)[k]),
        !g.shielded(content, sight, all, g.unshielded(content, sight, all, some)[k]),
    decreases some.len(),
{
    let rest = g.unshielded(content, sight, all, some.drop_last());
    let o = g.unshielded(content, sight, all, some)[k];
    if k < rest.len() {
        unshielded_come_from_all(g, content, sight, all, some.drop_last(), k);
        let j = choose|j: int| 0 <= j < some.len() - 1 && some.drop_last()[j] == rest[k];
        assert(some[j] == o);
    } else {
        assert(some[some.len() - 1] == o);
    }
}

proof fn options_from_are_shots(
    g: Game,
    content: Content,
    sight: Sight,
    a: int,
    guns: Seq<Gun>,
    t: int,
    j: int,
)
    requires
        0 <= t,
        0 <= j < g.options_from(content, sight, a, guns, t).len(),
    ensures
        exists|u: int, w: int|
            t <= u < g.ships.len() && 0 <= w < guns.len() && g.visible(content, sight, a, u)
                && #[trigger] g.eligible(content, sight, a, u, guns[w]) && g.options_from(
                content,
                sight,
                a,
                guns,
                t,
            )[j] == g.option(sight, a, u, guns[w]),
    decreases g.ships.len() - t,
{
    let o = g.options_from(content, sight, a, guns, t)[j];
    let rest = g.options_from(content, sight, a, guns, t + 1);
    if g.visible(content, sight, a, t) {
        let here = g.options_at(content, sight, a, t, guns, 0);
        if j < here.len() {
            options_at_are_shots(g, content, sight, a, t, guns, 0, j);
        } else {
            assert(o == rest[j - here.len()]);
            options_from_are_shots(g, content, sight, a, guns, t + 1, j - here.len());
        }
    } else {
        options_from_are_shots(g, content, sight, a, guns, t + 1, j);
    }
}

proof fn options_at_are_shots(
    g: Game,
    content: Content,
    sight: Sight,
    a: int,
    t: int,
    guns: Seq<Gun>,
    w: int,
    j: int,
)
    requires
        0 <= w,
        0 <= j < g.options_at(content, sight, a, t, guns, w).len(),
    ensures
        exists|v: int|
            w <= v < guns.len() && #[trigger] g.eligible(content, sight, a, t, guns[v])
                && g.options_at(content, sight, a, t, guns, w)[j] == g.option(
                sight,
                a,
                t,
                guns[v],
            ),
    decreases guns.len() - w,
{
    let rest = g.options_at(content, sight, a, t, guns, w + 1);
    if g.eligible(content, sight, a, t, guns[w]) {
        if j > 0 {
            assert(g.options_at(content, sight, a, t, guns, w)[j] == rest[j - 1]);
            options_at_are_shots(g, content, sight, a, t, guns, w + 1, j - 1);
        }
    } else {
        options_at_are_shots(g, content, sight, a, t, guns, w + 1, j);
    }
}

/// The automatic choice is one of the options, and never spends ordnance
/// unasked: it is the primary weapon whenever that has a target.
pub proof fn the_automatic_choice_spends_no_ordnance(
    options: Seq<AttackOption>,
    locks: (Option<ShipId>, Option<ShipId>),
)
    requires
        options.len() > 0,
    ensures
        automatic(options, locks) is Some,
        options.contains(automatic(options, locks)->0),
        (exists|k: int| 0 <= k < options.len() && (#[trigger] options[k]).weapon is None)
            ==> automatic(options, locks)->0.weapon is None,
{
    let primary = primaries(options);
    primaries_are_primary(options);
    nearest_is_an_option(options);
    nearest_is_an_option(primary);
    option_on_is_an_option(primary, locks.0);
    option_on_is_an_option(primary, locks.1);
}

proof fn primaries_are_primary(options: Seq<AttackOption>)
    ensures
        forall|k: int|
            0 <= k < primaries(options).len() ==> (#[trigger] primaries(options)[k]).weapon is None
                && options.contains(primaries(options)[k]),
        (exists|k: int| 0 <= k < options.len() && (#[trigger] options[k]).weapon is None)
            ==> primaries(options).len() > 0,
    decreases options.len(),
{
    if options.len() > 0 {
        let rest = options.drop_last();
        primaries_are_primary(rest);
        assert forall|k: int| 0 <= k < primaries(options).len() implies (
        #[trigger] primaries(options)[k]).weapon is None && options.contains(
            primaries(options)[k],
        ) by {
            if k < primaries(rest).len() {
                assert(primaries(options)[k] == primaries(rest)[k]);
                let j = choose|j: int| 0 <= j < rest.len() && rest[j] == primaries(rest)[k];
                assert(options[j] == primaries(options)[k]);
            } else {
                assert(options[options.len() - 1] == primaries(options)[k]);
            }
        }
        if exists|k: int| 0 <= k < options.len() && (#[trigger] options[k]).weapon is None {
            let k = choose|k: int| 0 <= k < options.len() && (#[trigger] options[k]).weapon is None;
            if k < rest.len() {
                assert(rest[k].weapon is None);
            }
        }
    }
}

proof fn nearest_is_an_option(options: Seq<AttackOption>)
    ensures
        (nearest_option(options) is Some) == (options.len() > 0),
        options.len() > 0 ==> options.contains(nearest_option(options)->0),
    decreases options.len(),
{
    if options.len() > 0 {
        let rest = options.drop_last();
        nearest_is_an_option(rest);
        assert(options[options.len() - 1] == options.last());
        if rest.len() > 0 {
            let j = choose|j: int| 0 <= j < rest.len() && rest[j] == nearest_option(rest)->0;
            assert(options[j] == rest[j]);
        }
    }
}

proof fn option_on_is_an_option(options: Seq<AttackOption>, target: Option<ShipId>)
    ensures
        option_on(options, target) is Some ==> options.contains(option_on(options, target)->0),
    decreases options.len(),
{
    if options.len() > 0 {
        let rest = options.skip(1);
        option_on_is_an_option(rest, target);
        if Some(options[0].target) != target && option_on(rest, target) is Some {
            let j = choose|j: int| 0 <= j < rest.len() && rest[j] == option_on(rest, target)->0;
            assert(options[j + 1] == rest[j]);
        }
    }
}

/// An injured pilot flies without ability and without elite talents: no card
/// that counts for the ship is one.
pub proof fn injured_pilots_have_no_talents(g: Game, content: Content, i: int, e: UpgradeEffect)
    requires
        0 <= i < g.ships.len(),
        g.ships[i].crits.contains(CritEffect::InjuredPilot),
    ensures
        g.ships[i].ability(content) is None,
        g.card(content, i, e) is Some ==> content.fits(g.card(content, i, e)->0) != Some(
            Slot::Talent,
        ),
        g.unused(content, i, e) is Some ==> content.fits(g.unused(content, i, e)->0) != Some(
            Slot::Talent,
        ),
        forall|k: int|
            0 <= k < g.ships[i].active(content).len() ==> content.fits(
                #[trigger] g.ships[i].active(content)[k],
            ) != Some(Slot::Talent),
{
    let s = g.ships[i];
    let cards = s.active(content);
    untalented_has_no_talent(content, s.upgrades);
    doing_comes_from_the_list(content, cards, s.used_round, e);
}

proof fn untalented_has_no_talent(content: Content, cards: Seq<UpgradeId>)
    ensures
        forall|k: int|
            0 <= k < untalented(content, cards).len() ==> content.fits(
                #[trigger] untalented(content, cards)[k],
            ) != Some(Slot::Talent),
    decreases cards.len(),
{
    if cards.len() > 0 {
        untalented_has_no_talent(content, cards.drop_last());
    }
}

proof fn doing_comes_from_the_list(
    content: Content,
    cards: Seq<UpgradeId>,
    used: Seq<UpgradeId>,
    e: UpgradeEffect,
)
    requires
        forall|k: int|
            0 <= k < cards.len() ==> content.fits(#[trigger] cards[k]) != Some(Slot::Talent),
    ensures
        card_doing(content, cards, e) is Some ==> content.fits(card_doing(content, cards, e)->0)
            != Some(Slot::Talent),
        unused_card(content, cards, used, e) is Some ==> content.fits(
            unused_card(content, cards, used, e)->0,
        ) != Some(Slot::Talent),
    decreases cards.len(),
{
    if cards.len() > 0 {
        let rest = cards.skip(1);
        assert forall|k: int| 0 <= k < rest.len() implies content.fits(#[trigger] rest[k]) != Some(
            Slot::Talent,
        ) by {
            assert(rest[k] == cards[k + 1]);
        }
        doing_comes_from_the_list(content, rest, used, e);
    }
}

/// A Damaged Cockpit leaves the skill alone in the round it is dealt in, and
/// drops it to 0 from the next round on.
pub proof fn a_damaged_cockpit_counts_from_the_next_round(g: Game, content: Content, i: int)
    requires
        0 <= i < g.ships.len(),
        g.ships[i].fresh_cockpits < u32::MAX,
    ensures
        ({
            let h = g.with_ship(i, g.ships[i].with_crit(CritEffect::DamagedCockpit));
            &&& h.ships[i].skill(content) == g.ships[i].skill(content)
            &&& h.new_round().ships[i].skill(content) == 0
        }),
{
    let s = g.ships[i];
    let t = s.with_crit(CritEffect::DamagedCockpit);
    count_push(s.crits, CritEffect::DamagedCockpit, CritEffect::DamagedCockpit);
    assert(t.crits.contains(CritEffect::InjuredPilot) == s.crits.contains(
        CritEffect::InjuredPilot,
    )) by {
        if s.crits.contains(CritEffect::InjuredPilot) {
            let k = choose|k: int| 0 <= k < s.crits.len() && s.crits[k] == CritEffect::InjuredPilot;
            assert(t.crits[k] == CritEffect::InjuredPilot);
        }
    }
}

// ---- Planning ----

/// A ship that is stressed when it reveals its dial never flies a red
/// maneuver, unless its dial holds nothing else.
pub proof fn a_stressed_ship_flies_no_red(g: Game, content: Content, i: int)
    requires
        0 <= i < g.ships.len(),
        g.ships[i].stress > 0,
        replacement(g.ships[i].crits, content.dial(g.ships[i].class)) is Some,
    ensures
        g.drifting(content, i).1.difficulty != Difficulty::Hard,
{
    a_replacement_is_never_red(g.ships[i].crits, content.dial(g.ships[i].class));
    reveal(Game::difficulty);
}

/// An ionized ship flies a white straight 1, whatever it has dialed, and its
/// ion tokens come off.
pub proof fn an_ionized_ship_drifts(g: Game, content: Content, i: int)
    requires
        0 <= i < g.ships.len(),
        g.ships[i].ion > 0,
    ensures
        g.drifting(content, i).1.maneuver.steer == Steer::Straight,
        g.drifting(content, i).1.maneuver.distance == 1,
        g.drifting(content, i).1.difficulty == Difficulty::Normal,
        g.drifting(content, i).0.ships[i].ion == 0,
{
}

/// A player whose plans are accepted has dialed a maneuver for every
/// surviving ship.
pub proof fn committed_plans_are_complete(g: Game, player: PlayerId, k: int)
    requires
        g.ships.len() <= usize::MAX,
        g.commit_refused(player) is None,
        0 <= k < g.ships.len(),
        g.ships[k].owner == player,
        !g.ships[k].destroyed,
    ensures
        g.ships[k].plan is Some,
{
    first_is_first(g.undialed_rule(player), 0, g.ships.len() as int);
    if g.ships[k].plan is None {
        assert(g.undialed_rule(player)(k));
    }
}

/// No two ships bear the same callsign, whatever the case of its letters.
pub open spec fn unambiguous(g: Game) -> bool {
    forall|j: int, k: int|
        0 <= j < g.ships.len() && 0 <= k < g.ships.len() && j != k ==> !alike(
            #[trigger] g.ships[j].callsign,
            #[trigger] g.ships[k].callsign,
        )
}

/// Callsigns stay unique when a ship is renamed.
pub proof fn callsigns_stay_unique(g: Game, id: ShipId, i: int, name: Seq<char>)
    requires
        g.ships.len() <= usize::MAX,
        unambiguous(g),
        0 <= i < g.ships.len(),
        g.ships[i].id == id,
        forall|k: int| 0 <= k < g.ships.len() && k != i ==> (#[trigger] g.ships[k]).id != id,
        !g.name_taken(id, name),
    ensures
        unambiguous(g.with_ship(i, ShipModel { callsign: name, ..g.ships[i] })),
{
    let h = g.with_ship(i, ShipModel { callsign: name, ..g.ships[i] });
    first_is_first(g.namesake_rule(id, name), 0, g.ships.len() as int);
    assert forall|j: int, k: int|
        0 <= j < h.ships.len() && 0 <= k < h.ships.len() && j != k implies !alike(
        #[trigger] h.ships[j].callsign,
        #[trigger] h.ships[k].callsign,
    ) by {
        if j == i {
            assert(!g.namesake_rule(id, name)(k));
            if alike(name, g.ships[k].callsign) {
                assert(alike(g.ships[k].callsign, name));
            }
        } else if k == i {
            assert(!g.namesake_rule(id, name)(j));
        } else {
            assert(!alike(g.ships[j].callsign, g.ships[k].callsign));
        }
    }
}

/// Planning begins only when every ship stands on the board.
pub proof fn planning_begins_with_every_ship_placed(
    g: Game,
    content: Content,
    i: int,
    spot: Spot,
    k: int,
)
    requires
        g.phase == Phase::Placement,
        g.ships.len() <= usize::MAX,
        0 <= i < g.ships.len(),
        0 <= k < g.ships.len(),
    ensures
        g.placed(content, i, spot).phase == Phase::Planning ==> g.placed(
            content,
            i,
            spot,
        ).ships[k].pose is Some,
        g.placed(content, i, spot).phase == Phase::Planning || g.placed(content, i, spot).phase
            == Phase::Placement,
{
    reveal(Game::placed);
    let n = g.ships.len() as int;
    let h = g.with_ship(i, ShipModel { pose: Some(spot.pose), ..g.ships[i] });
    first_is_first(h.homeless_rule(), 0, n);
    scanners_keep_poses(h, content, spot.after, n, k);
    if first(h.homeless_rule(), 0, n) is None {
        assert(!h.homeless_rule()(k));
    }
}

proof fn scanners_keep_poses(g: Game, content: Content, sight: Sight, n: int, k: int)
    requires
        g.ships.len() <= usize::MAX,
        n <= g.ships.len(),
        0 <= k < g.ships.len(),
    ensures
        g.scanner_by(content, sight, n).ships.len() == g.ships.len(),
        g.scanner_by(content, sight, n).ships[k].pose == g.ships[k].pose,
        g.scanner_by(content, sight, n).phase == g.phase,
    decreases n,
{
    if n > 0 {
        scanners_keep_poses(g, content, sight, n - 1, k);
        let h = g.scanner_by(content, sight, n - 1);
        picked_obey(h.friend_rule(sight, n - 1, 2), 0, h.ships.len() as int);
        reveal(Game::near);
        focusing_keeps_poses(h, h.near(sight, n - 1, 2), 0, k);
    }
}

proof fn focusing_keeps_poses(g: Game, places: Seq<usize>, j: int, k: int)
    requires
        0 <= j,
        0 <= k < g.ships.len(),
        forall|m: int| 0 <= m < places.len() ==> #[trigger] places[m] < g.ships.len(),
    ensures
        g.focused_from(places, j).ships.len() == g.ships.len(),
        g.focused_from(places, j).ships[k].pose == g.ships[k].pose,
        g.focused_from(places, j).phase == g.phase,
    decreases places.len() - j,
{
    if j < places.len() {
        let p = places[j] as int;
        focusing_keeps_poses(g.with_ship(p, g.ships[p].with_focus()), places, j + 1, k);
    }
}

// ---- Setup ----

/// Ships are numbered in the order in which they enter the game, and each
/// enters with full hull and shields.
pub proof fn ships_are_numbered_in_order(
    content: Content,
    squads: Seq<&Squad>,
    names: Seq<&str>,
    n: int,
    k: int,
)
    requires
        0 <= n <= squads.len(),
        0 <= k < all_ships(content, squads, names, n).len(),
        k < 0x1_0000_0000,
    ensures
        all_ships(content, squads, names, n)[k].id == ShipId(k as u32),
        all_ships(content, squads, names, n)[k].hull == all_ships(
            content,
            squads,
            names,
            n,
        )[k].full_hull(content),
        all_ships(content, squads, names, n)[k].shields == all_ships(
            content,
            squads,
            names,
            n,
        )[k].full_shields(content),
    decreases n,
{
    let rest = all_ships(content, squads, names, n - 1);
    if n > 0 {
        if k < rest.len() {
            ships_are_numbered_in_order(content, squads, names, n - 1, k);
        } else {
            let ships = squads[n - 1].ships@;
            squad_ships_are_numbered(
                content,
                ships,
                n - 1,
                names[n - 1]@,
                rest.len() as int,
                ships.len() as int,
                k - rest.len(),
            );
        }
    }
}

proof fn squad_ships_are_numbered(
    content: Content,
    ships: Seq<SquadShip>,
    seat: int,
    name: Seq<char>,
    base: int,
    n: int,
    k: int,
)
    requires
        0 <= base,
        0 <= k < squad_ships(content, ships, seat, name, base, n).len(),
        base + k < 0x1_0000_0000,
    ensures
        ({
            let s = squad_ships(content, ships, seat, name, base, n)[k];
            s.id == ShipId((base + k) as u32) && s.hull == s.full_hull(content) && s.shields
                == s.full_shields(content)
        }),
        squad_ships(content, ships, seat, name, base, n).len() == n,
    decreases n,
{
    if n > 0 {
        let rest = squad_ships(content, ships, seat, name, base, n - 1);
        if k < rest.len() {
            squad_ships_are_numbered(content, ships, seat, name, base, n - 1, k);
        } else if rest.len() > 0 {
            squad_ships_are_numbered(content, ships, seat, name, base, n - 1, 0);
        } else {
            squad_is_empty_only_at_first(content, ships, seat, name, base, n - 1);
        }
    }
}

proof fn squad_is_empty_only_at_first(
    content: Content,
    ships: Seq<SquadShip>,
    seat: int,
    name: Seq<char>,
    base: int,
    n: int,
)
    requires
        squad_ships(content, ships, seat, name, base, n).len() == 0,
    ensures
        n <= 0,
{
}

// ---- Combat ----

/// While a target has to be declared, stepping again asks the same question
/// and changes nothing.
pub proof fn the_question_is_repeated(p: Play, content: Content, survey: Survey)
    requires
        p.game.combat is Some,
        p.game.combat->0.pending is Some,
    ensures
        p.stepped(content, survey) == (p, StepModel::NeedTarget(p.game.combat->0.pending->0)),
{
    reveal(Play::combat_moved);
}

/// An attack without cards, abilities or a mission is the dice and nothing
/// else. What gets through is what the evades that show, and an evade token
/// spent, leave of the hits and crits that show. The shields absorb it point
/// by point before the hull does; what was lost and what is left add up; and
/// the defender is destroyed when no hull is left. Only the cards of criticals
/// that reach the hull cost more hull than that.
pub proof fn a_plain_attack_is_its_dice(
    p: Play,
    content: Content,
    sight: Sight,
    moves: Moves,
    a: int,
    shot: Shot,
)
    requires
        p.game.plain(content),
        0 <= a < p.game.ships.len(),
        shot.d_idx < p.game.ships.len(),
        shot.weapon is None,
        !p.game.ships[shot.d_idx as int].destroyed,
        p.game.ships[shot.d_idx as int].hull >= 1,
    ensures
        ({
            let (q, r) = p.attacked(content, sight, moves, a, shot);
            let (s, t) = (p.game.ships[shot.d_idx as int], q.game.ships[shot.d_idx as int]);
            let attack = AttackRoll::of(r.attack_faces);
            let defense = DefenseRoll::of(r.defense_faces);
            let outcome = AttackOutcome { hits: r.hits, crits: r.crits };
            let due = applied(s.shields, outcome);
            let points = due.hull_damage + due.hull_crits;
            &&& attack.tallies(r.attack_faces)
            &&& defense.tallies(r.defense_faces)
            &&& r.evade_spent ==> defense.evades < u8::MAX
            &&& outcome == cancelled(attack, defense.with_token(r.evade_spent))
            &&& r.shields_lost == s.shields - due.shields_remaining
            &&& t.shields == s.shields - r.shields_lost
            &&& t.hull == s.hull - r.hull_lost
            &&& r.defender_destroyed == t.destroyed
            &&& t.destroyed <==> t.hull == 0
            &&& t.hull <= less(s.hull as int, points)
            &&& due.hull_crits == 0 ==> t.hull == less(s.hull as int, points)
            &&& r.crits_to_hull <= due.hull_crits
            &&& !t.destroyed ==> r.crits_to_hull == due.hull_crits
        }),
{
    reveal(Play::attacked);
    let d = shot.d_idx as int;
    let aimed = p.attack_rolled(content, sight, a, shot);
    let thrown = aimed.throw;
    the_roll_spares(p, content, sight, a, shot);
    sparing_keeps(p.game, thrown.game, content, d);
    counts_fit(thrown.faces, AttackFace::Hit, AttackFace::Crit);
    let rolled = (tally(thrown.faces, AttackFace::Hit), tally(thrown.faces, AttackFace::Crit));
    let rolling = Play { game: thrown.game, dice: thrown.dice };
    let incoming = sat(rolled.0 + rolled.1);
    let guarded = rolling.defense_rolled(
        content,
        sight,
        a,
        shot,
        thrown.faces.len(),
        incoming,
        aimed.verdict,
    );
    the_guard_spares(
        rolling,
        content,
        sight,
        a,
        shot,
        thrown.faces.len(),
        incoming,
        aimed.verdict,
    );
    sparing_keeps(thrown.game, guarded.throw.game, content, d);
    let met = Play { game: guarded.throw.game, dice: guarded.throw.dice };
    the_strike_adds_up(met, content, sight, a, shot, rolled, guarded.evades);
    let struck = met.struck_by(content, sight, a, shot, rolled, guarded.evades, aimed.wampa);
    winding_up_spares(
        struck.play,
        content,
        sight,
        moves,
        a,
        shot,
        struck.landed,
        aimed.spent.lock,
    );
    count_bounded(thrown.faces, AttackFace::Focus);
    count_bounded(thrown.faces, AttackFace::Blank);
    count_bounded(guarded.throw.faces, DefenseFace::Evade);
    count_bounded(guarded.throw.faces, DefenseFace::Focus);
    count_bounded(guarded.throw.faces, DefenseFace::Blank);
}

/// All the ships of the groups, one after another.
pub open spec fn flattened(groups: Seq<Seq<ShipId>>) -> Seq<ShipId>
    decreases groups.len(),
{
    if groups.len() == 0 {
        Seq::empty()
    } else {
        flattened(groups.drop_last()) + groups.last()
    }
}

/// The groups of the Combat phase hold every ship once, in firing order; the
/// ships of a group share one pilot skill, and the next group has another.
pub proof fn groups_fire_in_order(line: Seq<ShipId>, fighters: Seq<(ShipId, u8, PlayerId)>)
    ensures
        flattened(grouped(line, fighters)) == line,
        forall|j: int|
            0 <= j < grouped(line, fighters).len() ==> (#[trigger] grouped(
                line,
                fighters,
            )[j]).len() > 0,
        forall|j: int, k: int|
            0 <= j < grouped(line, fighters).len() && 0 <= k < grouped(line, fighters)[j].len()
                ==> skill_in(fighters, #[trigger] grouped(line, fighters)[j][k], 0) == skill_in(
                fighters,
                grouped(line, fighters)[j][0],
                0,
            ),
        forall|j: int|
            0 < j < grouped(line, fighters).len() ==> skill_in(
                fighters,
                (#[trigger] grouped(line, fighters)[j])[0],
                0,
            ) != skill_in(fighters, grouped(line, fighters)[j - 1][0], 0),
    decreases line.len(),
{
    if line.len() == 0 {
        assert(flattened(grouped(line, fighters)) =~= line);
    } else {
        let short = line.drop_last();
        groups_fire_in_order(short, fighters);
        let rest = grouped(short, fighters);
        let all = grouped(line, fighters);
        let id = line.last();
        assert(line =~= short.push(id));
        if rest.len() > 0 && skill_in(fighters, rest.last()[0], 0) == skill_in(fighters, id, 0) {
            assert(all == rest.update(rest.len() - 1, rest.last().push(id)));
            assert(all.drop_last() =~= rest.drop_last());
            assert(flattened(all) =~= flattened(rest).push(id));
        } else {
            assert(all == rest.push(seq![id]));
            assert(all.drop_last() =~= rest);
            assert(flattened(all) =~= flattened(rest).push(id));
        }
        assert forall|j: int, k: int|
            0 <= j < all.len() && 0 <= k < all[j].len() implies skill_in(
            fighters,
            #[trigger] all[j][k],
            0,
        ) == skill_in(fighters, all[j][0], 0) by {
            if j < rest.len() && k < rest[j].len() {
                assert(all[j][k] == rest[j][k]);
                assert(all[j][0] == rest[j][0]);
            }
        }
        assert forall|j: int| 0 < j < all.len() implies skill_in(
            fighters,
            (#[trigger] all[j])[0],
            0,
        ) != skill_in(fighters, all[j - 1][0], 0) by {
            assert(rest[j - 1].len() > 0);
            assert(all[j - 1][0] == rest[j - 1][0]);
            if j < rest.len() {
                assert(all[j][0] == rest[j][0]);
            }
        }
    }
}

/// At equal pilot skill the initiative side goes before any other.
pub proof fn the_initiative_side_ranks_first(g: Game, a: int, b: int)
    requires
        g.ranked_seats() <= 255,
        g.initiative.0 < g.ranked_seats(),
        0 <= a < g.ranked_seats(),
        0 <= b < g.ranked_seats(),
        g.side(PlayerId(a as u32)) == g.side(g.initiative),
        g.side(PlayerId(b as u32)) != g.side(g.initiative),
    ensures
        g.seat_ranks()[g.initiative.0 as int] == 0,
        g.seat_ranks()[a] < g.seat_ranks()[b],
{
    reveal(Game::seat_ranks);
    let n = g.ranked_seats() as int;
    let i = g.initiative.0 as int;
    let allies = picked(g.ally_rule(), 0, n);
    let foes = picked(g.foe_seat_rule(), 0, n);
    let order = g.seat_order();
    let blank = Seq::new(g.ranked_seats(), |k: int| u8::MAX);
    picked_obey(g.ally_rule(), 0, n);
    picked_obey(g.foe_seat_rule(), 0, n);
    picked_are_in_order(g.ally_rule(), 0, n);
    picked_are_in_order(g.foe_seat_rule(), 0, n);
    assert(order.len() == 1 + allies.len() + foes.len());
    assert forall|j: int, k: int| 0 <= j < k < order.len() implies order[j] != order[k] by {
        order_parts(g, order, allies, foes, j);
        order_parts(g, order, allies, foes, k);
    }
    assert forall|j: int| 0 <= j < order.len() implies (#[trigger] order[j]) < n by {
        order_parts(g, order, allies, foes, j);
    }
    distinct_seats_are_few(order, n);
    ranks_follow_the_order(blank, order, 0, 0);
    assert(order[0] == i);
    // Where the two seats stand in the order.
    let ja = if a == i {
        0
    } else {
        all_are_picked(g.ally_rule(), 0, n, a);
        let m = choose|m: int| 0 <= m < allies.len() && allies[m] == a;
        1 + m
    };
    assert(order[ja] == a);
    all_are_picked(g.foe_seat_rule(), 0, n, b);
    let m = choose|m: int| 0 <= m < foes.len() && foes[m] == b;
    let jb = 1 + allies.len() + m;
    assert(order[jb] == b);
    ranks_follow_the_order(blank, order, 0, ja);
    ranks_follow_the_order(blank, order, 0, jb);
}

proof fn order_parts(g: Game, order: Seq<usize>, allies: Seq<usize>, foes: Seq<usize>, j: int)
    requires
        order == g.seat_order(),
        allies == picked(g.ally_rule(), 0, g.ranked_seats() as int),
        foes == picked(g.foe_seat_rule(), 0, g.ranked_seats() as int),
        0 <= j < order.len(),
    ensures
        j == 0 ==> order[j] == g.initiative.0,
        0 < j <= allies.len() ==> order[j] == allies[j - 1],
        allies.len() < j ==> order[j] == foes[j - 1 - allies.len()],
        order.len() == 1 + allies.len() + foes.len(),
{
}

proof fn picked_are_in_order(rule: spec_fn(int) -> bool, k: int, n: int)
    requires
        0 <= k,
        n <= usize::MAX,
    ensures
        forall|i: int, j: int|
            0 <= i < j < picked(rule, k, n).len() ==> #[trigger] picked(rule, k, n)[i]
                < #[trigger] picked(rule, k, n)[j],
    decreases n - k,
{
    if k < n {
        picked_are_in_order(rule, k + 1, n);
        picked_obey(rule, k + 1, n);
        let rest = picked(rule, k + 1, n);
        let all = picked(rule, k, n);
        if rule(k) {
            assert forall|i: int, j: int| 0 <= i < j < all.len() implies #[trigger] all[i]
                < #[trigger] all[j] by {
                assert(all[j] == rest[j - 1]);
                if i > 0 {
                    assert(all[i] == rest[i - 1]);
                }
            }
        }
    }
}

proof fn all_are_picked(rule: spec_fn(int) -> bool, k: int, n: int, m: int)
    requires
        0 <= k <= m < n,
        n <= usize::MAX,
        rule(m),
    ensures
        exists|j: int| 0 <= j < picked(rule, k, n).len() && picked(rule, k, n)[j] == m,
    decreases n - k,
{
    let all = picked(rule, k, n);
    let rest = picked(rule, k + 1, n);
    if k == m {
        assert(all[0] == m);
    } else {
        all_are_picked(rule, k + 1, n, m);
        let j = choose|j: int| 0 <= j < rest.len() && rest[j] == m;
        if rule(k) {
            assert(all[j + 1] == rest[j]);
        } else {
            assert(all[j] == rest[j]);
        }
    }
}

/// As many different seats as there are at most.
proof fn distinct_seats_are_few(order: Seq<usize>, n: int)
    requires
        0 <= n,
        forall|j: int, k: int| 0 <= j < k < order.len() ==> order[j] != order[k],
        forall|j: int| 0 <= j < order.len() ==> (#[trigger] order[j]) < n,
    ensures
        order.len() <= n,
{
    let ints = order.map_values(|x: usize| x as int);
    assert(ints.no_duplicates());
    ints.unique_seq_to_set();
    vstd::set_lib::lemma_int_range(0, n);
    assert(ints.to_set().subset_of(vstd::set_lib::set_int_range(0, n))) by {
        assert forall|x: int| ints.to_set().contains(x) implies vstd::set_lib::set_int_range(
            0,
            n,
        ).contains(x) by {
            let j = choose|j: int| 0 <= j < ints.len() && ints[j] == x;
            assert(ints[j] == order[j] as int);
        }
    }
    vstd::set_lib::lemma_len_subset(ints.to_set(), vstd::set_lib::set_int_range(0, n));
}

proof fn ranks_follow_the_order(ranks: Seq<u8>, order: Seq<usize>, k: int, j: int)
    requires
        0 <= k,
        order.len() <= 256,
        0 <= j < order.len(),
        forall|x: int| 0 <= x < order.len() ==> (#[trigger] order[x]) < ranks.len(),
        forall|x: int, y: int| 0 <= x < y < order.len() ==> order[x] != order[y],
    ensures
        ranked(ranks, order, k).len() == ranks.len(),
        j >= k ==> ranked(ranks, order, k)[order[j] as int] == j,
        j < k ==> ranked(ranks, order, k)[order[j] as int] == ranks[order[j] as int],
    decreases order.len() - k,
{
    if k < order.len() {
        let next = ranks.update(order[k] as int, (k % 256) as u8);
        ranks_follow_the_order(next, order, k + 1, j);
        if j != k {
            assert(order[j] != order[k]);
        }
    }
}

// ---- Bombs ----

/// Every dial-reveal bomb is gone at the end of the Activation phase: only
/// mines stay armed.
pub proof fn reveal_bombs_never_linger(
    p: Play,
    content: Content,
    sight: Sight,
    within: Seq<Vec<bool>>,
    k: int,
)
    requires
        0 <= k < p.exploded(content, sight, within).0.game.bombs.len(),
    ensures
        p.exploded(content, sight, within).0.game.bombs[k].kind.mine(),
        p.game.bombs.contains(p.exploded(content, sight, within).0.game.bombs[k]),
{
    reveal(Play::exploded);
    let all = p.game.bombs;
    let armed = armed_among(all, all.len() as int);
    exploding_clears(p, content, sight, armed, within, 0, Seq::empty(), k);
    let t = p.exploded(content, sight, within).0.game.bombs[k];
    let j = choose|j: int| 0 <= j < all.len() && all[j] == t;
    if !t.kind.mine() {
        armed_holds_it(all, all.len() as int, j);
        let m = choose|m: int| 0 <= m < armed.len() && armed[m] == t;
        assert(armed[m].id != t.id);
    }
}

proof fn armed_holds_it(all: Seq<BombToken>, n: int, j: int)
    requires
        0 <= j < n <= all.len(),
        !all[j].kind.mine(),
    ensures
        exists|m: int| 0 <= m < armed_among(all, n).len() && armed_among(all, n)[m] == all[j],
    decreases n,
{
    let rest = armed_among(all, n - 1);
    if j == n - 1 {
        assert(armed_among(all, n)[rest.len() as int] == all[j]);
    } else {
        armed_holds_it(all, n - 1, j);
        let m = choose|m: int| 0 <= m < rest.len() && rest[m] == all[j];
        assert(armed_among(all, n)[m] == rest[m]);
    }
}

proof fn exploding_clears(
    p: Play,
    content: Content,
    sight: Sight,
    armed: Seq<BombToken>,
    within: Seq<Vec<bool>>,
    k: int,
    done: Seq<DetonationModel>,
    j: int,
)
    requires
        0 <= k,
        0 <= j < p.exploding(content, sight, armed, within, k, done).0.game.bombs.len(),
    ensures
        ({
            let t = p.exploding(content, sight, armed, within, k, done).0.game.bombs[j];
            &&& p.game.bombs.contains(t)
            &&& forall|m: int| k <= m < armed.len() ==> (#[trigger] armed[m]).id != t.id
        }),
    decreases armed.len() - k,
{
    if k < armed.len() {
        let q = p.at(p.game.cleared_of(armed[k].id));
        let near = if 0 <= k < within.len() {
            within[k]@
        } else {
            Seq::empty()
        };
        let (r, hits) = q.detonated(content, sight, armed[k].kind, q.game.victims(near));
        detonations_keep_tokens(q, content, sight, armed[k].kind, q.game.victims(near));
        let next = done.push(DetonationModel { token: armed[k], hits });
        exploding_clears(r, content, sight, armed, within, k + 1, next, j);
        let t = p.exploding(content, sight, armed, within, k, done).0.game.bombs[j];
        let m = choose|m: int| 0 <= m < r.game.bombs.len() && r.game.bombs[m] == t;
        without_token_removes(p.game.bombs, armed[k].id, m);
    } else {
        assert(p.game.bombs[j] == p.exploding(
            content,
            sight,
            armed,
            within,
            k,
            done,
        ).0.game.bombs[j]);
    }
}

proof fn without_token_removes(s: Seq<BombToken>, id: u32, m: int)
    requires
        0 <= m < without_token(s, id).len(),
    ensures
        s.contains(without_token(s, id)[m]),
        without_token(s, id)[m].id != id,
    decreases s.len(),
{
    let rest = without_token(s.drop_last(), id);
    if m < rest.len() {
        without_token_removes(s.drop_last(), id, m);
        let j = choose|j: int| 0 <= j < s.len() - 1 && s.drop_last()[j] == rest[m];
        assert(s[j] == without_token(s, id)[m]);
    } else {
        assert(s[s.len() - 1] == without_token(s, id)[m]);
    }
}

proof fn detonations_keep_tokens(
    p: Play,
    content: Content,
    sight: Sight,
    kind: BombKind,
    victims: Seq<usize>,
)
    ensures
        p.detonated(content, sight, kind, victims).0.game.bombs == p.game.bombs,
{
    reveal(Play::detonated);
    blasts_keep_tokens(
        p.saying(crate::event::Event::Detonates(kind)),
        content,
        sight,
        kind,
        victims,
        0,
        Seq::empty(),
    );
}

proof fn blasts_keep_tokens(
    p: Play,
    content: Content,
    sight: Sight,
    kind: BombKind,
    victims: Seq<usize>,
    k: int,
    hits: Seq<BombHit>,
)
    requires
        0 <= k,
    ensures
        p.blasting(content, sight, kind, victims, k, hits).0.game.bombs == p.game.bombs,
    decreases victims.len() - k,
{
    if k < victims.len() {
        let i = victims[k] as int;
        let (q, hit) = p.struck(content, sight, i, kind);
        assert(q.game.bombs == p.game.bombs) by {
            reveal(Game::stressed);
            crits_keep_tokens(
                p.at(p.game.hulled(i)).rolled().saying(
                    crate::event::Event::Critical(
                        i as usize,
                        crate::crit::drawn(p.at(p.game.hulled(i)).shows()),
                    ),
                ),
                content,
                i,
                crate::crit::drawn(p.at(p.game.hulled(i)).shows()),
            );
        }
        mines_keep_tokens(q, content, i, crate::game::blasts::blast_dice(kind), hit);
        let (b, h) = p.blasted(content, sight, i, kind);
        assert(b.game.bombs == p.game.bombs);
        blasts_keep_tokens(b, content, sight, kind, victims, k + 1, hits.push(h));
    }
}

proof fn crits_keep_tokens(p: Play, content: Content, i: int, effect: CritEffect)
    ensures
        p.crit(content, i, effect).0.game.bombs == p.game.bombs,
{
    reveal(Play::crit);
}

proof fn mines_keep_tokens(p: Play, content: Content, i: int, n: int, hit: BombHit)
    ensures
        p.mined(content, i, n, hit).0.game.bombs == p.game.bombs,
    decreases n,
{
    if n > 0 && !p.game.ships[i].destroyed {
        let r = p.rolled();
        let q = r.at(r.game.damaged(i));
        let plain = BombHit { damage: sat(hit.damage + 1), ..hit };
        let hard = BombHit { crits: sat(hit.crits + 1), ..plain };
        let card = crate::crit::drawn(q.shows());
        crits_keep_tokens(
            q.rolled().saying(crate::event::Event::Critical(i as usize, card)),
            content,
            i,
            card,
        );
        mines_keep_tokens(q, content, i, n - 1, plain);
        mines_keep_tokens(q.critical(content, i), content, i, n - 1, hard);
        mines_keep_tokens(q, content, i, n - 1, hard);
        mines_keep_tokens(r, content, i, n - 1, hit);
    }
}

// ---- The End phase ----

/// A ship as a round leaves it: no focus or tractor tokens, one evade token
/// at most, no card switched on or acted with, free of the asteroid.
pub open spec fn settled_down(s: ShipModel) -> bool {
    &&& s.focus == 0
    &&& s.evade <= 1
    &&& s.tractor == 0
    &&& s.card_uses.len() == 0
    &&& s.card_actions.len() == 0
    &&& !s.on_asteroid
    &&& s.planned_action2 is None
}

/// The End phase removes unspent tokens from every ship, and the next round
/// starts: one turn later, nobody committed, no reds flown as white, every
/// Damaged Cockpit in force.
pub proof fn the_end_phase_clears_the_table(p: Play, content: Content, sight: Sight, k: int)
    requires
        p.game.ships.len() <= usize::MAX,
        p.game.turn < u32::MAX,
        0 <= k < p.ended(content, sight).game.ships.len(),
    ensures
        settled_down(p.ended(content, sight).game.ships[k]),
        p.ended(content, sight).game.ships[k].fresh_cockpits == 0,
        p.ended(content, sight).game.turn == p.game.turn + 1,
        forall|s: int|
            0 <= s < p.ended(content, sight).game.committed.len() ==> !(#[trigger] p.ended(
                content,
                sight,
            ).game.committed[s]),
        forall|s: int|
            0 <= s < p.ended(content, sight).game.white_reds.len() ==> !(#[trigger] p.ended(
                content,
                sight,
            ).game.white_reds[s]),
{
    reveal(Play::ended);
    reveal(Game::judged_over);
    let n = p.game.ships.len() as int;
    baffling_keeps_count(p.game, content, 0);
    let a = p.game.baffled(content, 0);
    felling_keeps_count(a, 0);
    let q = p.at(a.felled(0));
    colzet_keeps_count(q, content, n);
    let q = q.colzet_by(content, n);
    mara_keeps_count(q.game, content, sight, n);
    let b = q.game.mara_by(content, sight, n);
    repairs_keep_count(b, content, sight, n);
    let g = b.r5p9_by(content, sight, n);
    r5_keeps_count(g, content, n);
    let c = g.r5_by(content, n);
    clearing_settles(c, content, g.dead(n), n);
    let d = c.cleared_by(content, g.dead(n), n);
    r2d2_keeps_settled(q.at(d), content, n);
    let e = q.at(d).r2d2_by(content, n);
    mission_keeps_settled(e.game, content);
}

/// The same number of ships, and the same turn.
spec fn same_count(g: Game, h: Game) -> bool {
    h.ships.len() == g.ships.len() && h.turn == g.turn
}

proof fn shedding_keeps_count(g: Game, i: int)
    requires
        0 <= i < g.ships.len(),
    ensures
        same_count(g, g.shedding_ion(i)),
    decreases g.ships[i].ion,
{
    let s = g.ships[i];
    if s.ion > 0 && (s.shields > 0 || s.hull > 1) {
        let h = g.damaged(i);
        let next = h.with_ship(
            i,
            ShipModel { ion: crate::ship::down(h.ships[i].ion), ..h.ships[i] },
        ).saying(crate::event::Event::BaffleIon(i as usize));
        shedding_keeps_count(next, i);
    }
}

proof fn baffling_keeps_count(g: Game, content: Content, i: int)
    requires
        0 <= i,
    ensures
        same_count(g, g.baffled(content, i)),
    decreases g.ships.len() - i,
{
    if i < g.ships.len() {
        shedding_keeps_count(g, i);
        baffling_keeps_count(g, content, i + 1);
        baffling_keeps_count(
            g.shedding_ion(i).shields_watched(content, i, g.ships[i].shields),
            content,
            i + 1,
        );
    }
}

proof fn felling_keeps_count(g: Game, i: int)
    requires
        0 <= i,
    ensures
        same_count(g, g.felled(i)),
    decreases g.ships.len() - i,
{
    if i < g.ships.len() {
        felling_keeps_count(g, i + 1);
        felling_keeps_count(
            g.with_ship(i, ShipModel { destroyed: true, ..g.ships[i] }).saying(
                crate::event::Event::FelsWrath(i as usize),
            ),
            i + 1,
        );
    }
}

/// Nothing that a round clears is touched.
spec fn same_tokens(g: Game, h: Game) -> bool {
    &&& same_count(g, h)
    &&& forall|k: int|
        0 <= k < g.ships.len() ==> settled_down(g.ships[k]) ==> settled_down(
            #[trigger] h.ships[k],
        )
}

proof fn crits_keep_settled(p: Play, content: Content, i: int, effect: CritEffect)
    requires
        0 <= i < p.game.ships.len(),
    ensures
        same_tokens(p.game, p.crit(content, i, effect).0.game),
{
    reveal(Play::crit);
}

proof fn colzet_keeps_count(p: Play, content: Content, n: int)
    requires
        n <= p.game.ships.len(),
        p.game.ships.len() <= usize::MAX,
    ensures
        same_count(p.game, p.colzet_by(content, n).game),
    decreases n,
{
    if n > 0 {
        colzet_keeps_count(p, content, n - 1);
        let q = p.colzet_by(content, n - 1);
        let g = q.game;
        let i = n - 1;
        reveal(Play::colzet);
        if g.ships[i].lock is Some {
            let l = g.ships[i].lock->0;
            first_is_first(g.id_rule(l), 0, g.ships.len() as int);
            if g.index(l) is Some {
                let e = g.index(l)->0;
                let card = crate::crit::drawn(q.shows());
                crits_keep_settled(
                    q.rolled().at(
                        g.with_ship(i, g.ships[i].unlocking(l)).saying(
                            crate::event::Event::Colzet(i as usize, e, card),
                        ),
                    ),
                    content,
                    e as int,
                    card,
                );
            }
        }
    }
}

proof fn stress_keeps_count(g: Game, content: Content, sight: Sight, i: int)
    requires
        0 <= i < g.ships.len(),
        g.ships.len() <= usize::MAX,
    ensures
        same_count(g, g.stressed(content, sight, i)),
{
    reveal(Game::stressed);
    reveal(Game::near);
    let friends = g.near(sight, i, 2);
    picked_obey(g.friend_rule(sight, i, 2), 0, g.ships.len() as int);
    first_is_first(g.yorr_rule(content, friends), 0, friends.len() as int);
}

proof fn mara_keeps_count(g: Game, content: Content, sight: Sight, n: int)
    requires
        n <= g.ships.len(),
        g.ships.len() <= usize::MAX,
    ensures
        same_count(g, g.mara_by(content, sight, n)),
    decreases n,
{
    if n > 0 {
        mara_keeps_count(g, content, sight, n - 1);
        let h = g.mara_by(content, sight, n - 1);
        reveal(Game::mara);
        let places = picked(h.mara_rule(sight, n - 1), 0, h.ships.len() as int);
        picked_obey(h.mara_rule(sight, n - 1), 0, h.ships.len() as int);
        mara_stress_keeps_count(h, content, sight, n - 1, places, 0);
    }
}

proof fn mara_stress_keeps_count(
    g: Game,
    content: Content,
    sight: Sight,
    i: int,
    places: Seq<usize>,
    k: int,
)
    requires
        0 <= k,
        g.ships.len() <= usize::MAX,
        forall|m: int| 0 <= m < places.len() ==> #[trigger] places[m] < g.ships.len(),
    ensures
        same_count(g, g.mara_stressing(content, sight, i, places, k)),
    decreases places.len() - k,
{
    if k < places.len() {
        let h = g.saying(crate::event::Event::MaraJade(i as usize, places[k]));
        stress_keeps_count(h, content, sight, places[k] as int);
        mara_stress_keeps_count(
            h.stressed(content, sight, places[k] as int),
            content,
            sight,
            i,
            places,
            k + 1,
        );
    }
}

proof fn repairs_keep_count(g: Game, content: Content, sight: Sight, n: int)
    requires
        n <= g.ships.len(),
        g.ships.len() <= usize::MAX,
    ensures
        same_count(g, g.r5p9_by(content, sight, n)),
    decreases n,
{
    broadcast use {crate::game::lasting::steady, crate::game::lasting::tokens_last};

    if n > 0 {
        repairs_keep_count(g, content, sight, n - 1);
        reveal(Game::r5p9);
        reveal(Game::lasts);
        let h = g.r5p9_by(content, sight, n - 1);
        assert(h.lasts(h.r5p9(content, sight, n - 1)));
    }
}

proof fn r5_keeps_count(g: Game, content: Content, n: int)
    requires
        n <= g.ships.len(),
    ensures
        same_count(g, g.r5_by(content, n)),
    decreases n,
{
    if n > 0 {
        r5_keeps_count(g, content, n - 1);
        reveal(Game::r5);
    }
}

proof fn clearing_settles(g: Game, content: Content, dead: Seq<ShipId>, n: int)
    requires
        n <= g.ships.len(),
    ensures
        same_count(g, g.cleared_by(content, dead, n)),
        forall|k: int|
            0 <= k < n ==> settled_down(#[trigger] g.cleared_by(content, dead, n).ships[k]),
    decreases n,
{
    if n > 0 {
        clearing_settles(g, content, dead, n - 1);
        reveal(Game::clearing);
        let h = g.cleared_by(content, dead, n - 1);
        let c = g.cleared_by(content, dead, n);
        assert forall|k: int| 0 <= k < n implies settled_down(#[trigger] c.ships[k]) by {
            if k < n - 1 {
                assert(c.ships[k] == h.ships[k]);
            }
        }
    }
}

proof fn r2d2_keeps_settled(p: Play, content: Content, n: int)
    requires
        n <= p.game.ships.len(),
    ensures
        same_tokens(p.game, p.r2d2_by(content, n).game),
    decreases n,
{
    if n > 0 {
        r2d2_keeps_settled(p, content, n - 1);
        let q = p.r2d2_by(content, n - 1);
        reveal(Play::r2d2);
        let s = q.game.ships[n - 1];
        let r = q.rolled().at(q.game.with_ship(n - 1, ShipModel { shields: 1, ..s }));
        let card = crate::crit::drawn(r.shows());
        let t = r.rolled().saying(crate::event::Event::R2D2Faceup((n - 1) as usize, card));
        crits_keep_settled(t, content, n - 1, card);
        assert(same_tokens(q.game, t.game));
        assert(same_tokens(q.game, q.r2d2(content, n - 1).game));
    }
}

proof fn mission_keeps_settled(g: Game, content: Content)
    requires
        forall|k: int| 0 <= k < g.ships.len() ==> settled_down(#[trigger] g.ships[k]),
    ensures
        g.mission_ended(content).turn == g.turn,
        forall|k: int|
            0 <= k < g.mission_ended(content).ships.len() ==> settled_down(
                #[trigger] g.mission_ended(content).ships[k],
            ),
{
    returns_keep_ships(g, 0);
    let h = g.returning(0);
    reveal(Game::reserves_called);
    if h.mission is Some {
        let m = h.mission->0;
        let lost = picked(h.unreplaced_rule(m), 0, h.ships.len() as int);
        if m.reserve is Some && content.flyer(m.reserve->0) is Some {
            let pilot = content.flyer(m.reserve->0)->0;
            if content.chassis(pilot.class) is Some {
                let class = content.chassis(pilot.class)->0;
                let owner = crate::game::missions::seat_from(
                    h.teams,
                    m.flies(m.reinforcing),
                    0,
                    0,
                );
                reinforcements_are_settled(h, lost, 0, owner, class, pilot);
            }
        }
    }
}

proof fn returns_keep_ships(g: Game, k: int)
    requires
        0 <= k,
    ensures
        g.returning(k).ships == g.ships,
        g.returning(k).turn == g.turn,
    decreases g.mission->0.satellites.len() - k,
{
    let m = g.mission->0;
    if g.mission is Some && k < m.satellites.len() {
        returns_keep_ships(g, k + 1);
        let back = Game {
            mission: Some(
                crate::mission::MissionModel {
                    satellites: m.satellites.update(
                        k,
                        crate::mission::Satellite {
                            holder: None,
                            supply: true,
                            ..m.satellites[k]
                        },
                    ),
                    ..m
                },
            ),
            ..g
        }.saying(crate::event::Event::SatelliteReturns(m.satellites[k].id));
        returns_keep_ships(back, k + 1);
    }
}

proof fn reinforcements_are_settled(
    g: Game,
    places: Seq<usize>,
    k: int,
    owner: PlayerId,
    class: crate::ship::ShipClass,
    pilot: crate::pilot::Pilot,
)
    requires
        0 <= k,
        forall|j: int| 0 <= j < g.ships.len() ==> settled_down(#[trigger] g.ships[j]),
    ensures
        g.reinforcing(places, k, owner, class, pilot).turn == g.turn,
        forall|j: int|
            0 <= j < g.reinforcing(places, k, owner, class, pilot).ships.len() ==> settled_down(
                #[trigger] g.reinforcing(places, k, owner, class, pilot).ships[j],
            ),
    decreases places.len() - k,
{
    if k < places.len() {
        let h = g.arriving(g.ships[places[k] as int].id, owner, class, pilot);
        assert forall|j: int| 0 <= j < h.ships.len() implies settled_down(
            #[trigger] h.ships[j],
        ) by {
            if j < g.ships.len() {
                assert(h.ships[j] == g.ships[j]);
            }
        }
        reinforcements_are_settled(h, places, k + 1, owner, class, pilot);
    }
}

// ---- Activation ----

/// Every ship has an id of its own.
pub open spec fn distinct_ids(g: Game) -> bool {
    forall|j: int, k: int|
        0 <= j < g.ships.len() && 0 <= k < g.ships.len() && j != k ==> (#[trigger] g.ships[j]).id
            != (#[trigger] g.ships[k]).id
}

/// In the Activation phase every living ship on the board moves exactly once,
/// and nobody else does.
pub proof fn every_ship_on_the_board_moves_once(g: Game, content: Content)
    requires
        g.ships.len() <= usize::MAX,
        distinct_ids(g),
    ensures
        begun(g, content).order.no_duplicates(),
        forall|k: int|
            0 <= k < g.ships.len() ==> (begun(g, content).order.contains(k as usize) <==> !(
            #[trigger] g.ships[k]).destroyed && g.ships[k].pose is Some),
{
    broadcast use vstd::seq_lib::group_to_multiset_ensures;

    let n = g.ships.len() as int;
    let skills = g.moving_skills(content);
    let movers = g.fighters(skills, n);
    let line = lined_up(movers, g.seat_ranks(), false);
    let order = begun(g, content).order;
    order_is_fair(movers, g.seat_ranks(), false);
    movers_are_distinct(g, skills, n);
    movers.lemma_multiset_has_no_duplicates();
    line.lemma_multiset_has_no_duplicates_conv();
    let all = ids(line);
    assert(all == g.moving_order(content));
    // Every id in the line is that of a mover.
    assert forall|j: int| 0 <= j < line.len() implies has_a_mover(g, #[trigger] all[j]) by {
        assert(line.contains(line[j]));
        same_members(line, movers, line[j]);
        let m = choose|m: int| 0 <= m < movers.len() && movers[m] == line[j];
        mover_is_a_ship(g, skills, n, m);
    }
    assert(all.no_duplicates()) by {
        assert forall|i: int, j: int|
            0 <= i < all.len() && 0 <= j < all.len() && i != j implies all[i] != all[j] by {
            assert(line.contains(line[i]) && line.contains(line[j]));
            same_members(line, movers, line[i]);
            same_members(line, movers, line[j]);
            let a = choose|m: int| 0 <= m < movers.len() && movers[m] == line[i];
            let b = choose|m: int| 0 <= m < movers.len() && movers[m] == line[j];
            assert(line[i] != line[j]);
            movers_are_distinct(g, skills, n);
            assert(a != b);
            assert(movers[a].0 != movers[b].0);
        }
    }
    places_are_the_ships(g, all, all.len() as int);
    assert forall|k: int| 0 <= k < n implies (order.contains(k as usize) <==> !(
    #[trigger] g.ships[k]).destroyed && g.ships[k].pose is Some) by {
        if !g.ships[k].destroyed && g.ships[k].pose is Some {
            ship_is_a_mover(g, skills, n, k);
            let m = choose|m: int| 0 <= m < movers.len() && movers[m].0 == g.ships[k].id;
            assert(movers.contains(movers[m]));
            same_members(line, movers, movers[m]);
            let j = choose|j: int| 0 <= j < line.len() && line[j] == movers[m];
            assert(all[j] == g.ships[k].id);
            own_place(g, k);
            assert(order[j] == k);
        }
        if order.contains(k as usize) {
            let j = choose|j: int| 0 <= j < order.len() && order[j] == k as usize;
            assert(has_a_mover(g, all[j]));
            let m = choose|m: int|
                0 <= m < n && !g.ships[m].destroyed && g.ships[m].pose is Some
                    && #[trigger] g.ships[m].id == all[j];
            own_place(g, m);
            assert(order[j] == m);
        }
    }
}

proof fn same_members(
    a: Seq<(ShipId, u8, PlayerId)>,
    b: Seq<(ShipId, u8, PlayerId)>,
    x: (ShipId, u8, PlayerId),
)
    requires
        a.to_multiset() == b.to_multiset(),
    ensures
        a.contains(x) <==> b.contains(x),
{
    vstd::seq_lib::to_multiset_contains(a, x);
    vstd::seq_lib::to_multiset_contains(b, x);
}

/// The id is that of a living ship on the board.
spec fn has_a_mover(g: Game, id: ShipId) -> bool {
    exists|k: int|
        0 <= k < g.ships.len() && !g.ships[k].destroyed && g.ships[k].pose is Some
            && #[trigger] g.ships[k].id == id
}

proof fn movers_are_distinct(g: Game, skills: Seq<u8>, n: int)
    requires
        0 <= n <= g.ships.len(),
        distinct_ids(g),
    ensures
        g.fighters(skills, n).no_duplicates(),
        forall|i: int, j: int|
            0 <= i < g.fighters(skills, n).len() && 0 <= j < g.fighters(skills, n).len() && i != j
                ==> (#[trigger] g.fighters(skills, n)[i]).0 != (#[trigger] g.fighters(
                skills,
                n,
            )[j]).0,
    decreases n,
{
    let all = g.fighters(skills, n);
    if n > 0 {
        movers_are_distinct(g, skills, n - 1);
        let rest = g.fighters(skills, n - 1);
        assert forall|i: int, j: int|
            0 <= i < all.len() && 0 <= j < all.len() && i != j implies (#[trigger] all[i]).0 != (
        #[trigger] all[j]).0 by {
            if i < rest.len() && j < rest.len() {
                assert(all[i] == rest[i] && all[j] == rest[j]);
            } else if i < rest.len() {
                mover_is_a_ship(g, skills, n - 1, i);
            } else {
                mover_is_a_ship(g, skills, n - 1, j);
            }
        }
    }
}

proof fn mover_is_a_ship(g: Game, skills: Seq<u8>, n: int, m: int)
    requires
        0 <= n <= g.ships.len(),
        0 <= m < g.fighters(skills, n).len(),
    ensures
        exists|k: int|
            0 <= k < n && !g.ships[k].destroyed && g.ships[k].pose is Some
                && #[trigger] g.ships[k].id == g.fighters(skills, n)[m].0,
    decreases n,
{
    let rest = g.fighters(skills, n - 1);
    if m < rest.len() {
        mover_is_a_ship(g, skills, n - 1, m);
        assert(g.fighters(skills, n)[m] == rest[m]);
    } else {
        assert(g.ships[n - 1].id == g.fighters(skills, n)[m].0);
    }
}

proof fn ship_is_a_mover(g: Game, skills: Seq<u8>, n: int, k: int)
    requires
        0 <= k < n <= g.ships.len(),
        !g.ships[k].destroyed,
        g.ships[k].pose is Some,
    ensures
        exists|m: int|
            0 <= m < g.fighters(skills, n).len() && #[trigger] g.fighters(skills, n)[m].0
                == g.ships[k].id,
    decreases n,
{
    let rest = g.fighters(skills, n - 1);
    let all = g.fighters(skills, n);
    if k == n - 1 {
        assert(all[rest.len() as int].0 == g.ships[k].id);
    } else {
        ship_is_a_mover(g, skills, n - 1, k);
        let m = choose|m: int| 0 <= m < rest.len() && #[trigger] rest[m].0 == g.ships[k].id;
        assert(all[m] == rest[m]);
    }
}

/// A ship is found by its id where it stands.
proof fn own_place(g: Game, k: int)
    requires
        g.ships.len() <= usize::MAX,
        distinct_ids(g),
        0 <= k < g.ships.len(),
    ensures
        g.index(g.ships[k].id) == Some(k as usize),
{
    first_is_first(g.id_rule(g.ships[k].id), 0, g.ships.len() as int);
    assert(g.id_rule(g.ships[k].id)(k));
}

proof fn places_are_the_ships(g: Game, all: Seq<ShipId>, n: int)
    requires
        g.ships.len() <= usize::MAX,
        distinct_ids(g),
        0 <= n <= all.len(),
        all.no_duplicates(),
        forall|j: int| 0 <= j < all.len() ==> has_a_mover(g, #[trigger] all[j]),
    ensures
        places_in(g, all, n).len() == n,
        forall|j: int|
            0 <= j < n ==> Some(#[trigger] places_in(g, all, n)[j]) == g.index(all[j]),
        places_in(g, all, n).no_duplicates(),
    decreases n,
{
    if n > 0 {
        places_are_the_ships(g, all, n - 1);
        let rest = places_in(g, all, n - 1);
        let now = places_in(g, all, n);
        assert(has_a_mover(g, all[n - 1]));
        let k = choose|k: int|
            0 <= k < g.ships.len() && !g.ships[k].destroyed && g.ships[k].pose is Some
                && #[trigger] g.ships[k].id == all[n - 1];
        own_place(g, k);
        assert(now == rest.push(k as usize));
        assert forall|i: int, j: int|
            0 <= i < now.len() && 0 <= j < now.len() && i != j implies now[i] != now[j] by {
            if i < n - 1 && j < n - 1 {
                assert(rest[i] != rest[j]);
            } else {
                let o = if i < n - 1 {
                    i
                } else {
                    j
                };
                assert(has_a_mover(g, all[o]));
                let m = choose|m: int|
                    0 <= m < g.ships.len() && !g.ships[m].destroyed && g.ships[m].pose is Some
                        && #[trigger] g.ships[m].id == all[o];
                own_place(g, m);
                assert(rest[o] == m);
                assert(all[o] != all[n - 1]);
            }
        }
    }
}

/// A ship of the group whose turn it is fires though it was destroyed in the
/// meantime: ships of equal skill fire at the same time.
pub proof fn equal_skills_fire_simultaneously(p: Play, content: Content, survey: Survey, a: int)
    requires
        p.game.combat is Some,
        p.game.combat->0.pending is None,
        p.game.combat->0.followup is None,
        p.game.combat->0.current.len() > 0,
        0 <= a < p.game.ships.len() <= usize::MAX,
        p.game.index(p.game.combat->0.current[0]) == Some(a as usize),
        p.game.ships[a].destroyed,
    ensures
        p.combat_moved(content, survey) == p.at(p.game.next_attacker()).takes_turn(
            content,
            survey,
            a,
        ),
{
    reveal(Play::combat_moved);
    let id = p.game.combat->0.current[0];
    let g = p.game.next_attacker();
    like_rules_pick_alike(g.id_rule(id), p.game.id_rule(id), 0, p.game.ships.len() as int);
}

} // verus!
