//! What the computer player's policy comes to.

use vstd::prelude::*;

use crate::action::{ActionKind, PlannedAction};
use crate::board::Seat;
use crate::bot::{
    cheapest, favourite, fleet_size, none_afloat, safest, toughness, BotView, Goal, Outlook,
};
use crate::data::Content;
use crate::game::snapshot::{MissionView, ShipView};
use crate::maneuver::{Difficulty, Maneuver, Steer};
use crate::mission::MissionKind;
use crate::pick::first_is_first;
use crate::pilot::Pilot;
use crate::ship::{Faction, ShipId};
use crate::upgrade::UpgradeId;

verus! {

/// A satellite of the mission floats on the board: nobody holds it, and it is
/// not in the supply.
pub open spec fn floats(m: MissionView) -> bool {
    exists|k: int|
        0 <= k < m.satellites@.len() && (#[trigger] m.satellites@[k]).holder is None
            && !m.satellites@[k].supply
}

proof fn floating_is_afloat(m: MissionView)
    ensures
        none_afloat(m) == !floats(m),
{
    if floats(m) {
        let k = choose|k: int|
            0 <= k < m.satellites@.len() && (#[trigger] m.satellites@[k]).holder is None
                && !m.satellites@[k].supply;
        assert(m.satellites@[k].afloat());
    } else {
        assert forall|k: int| 0 <= k < m.satellites@.len() implies !(
        #[trigger] m.satellites@[k]).afloat() by {}
    }
}

/// The bot is after a satellite: Dark Whispers, an Imperial ship, and a
/// satellite on the board.
pub open spec fn after_satellites<'a>(bot: BotView<'a>, me: ShipView) -> bool {
    bot.mission is Some && bot.mission->0.kind == MissionKind::DarkWhispers && me.team
        != bot.mission->0.rebel_side && floats(*bot.mission->0)
}

/// Somebody of another side flies on the board.
pub open spec fn enemy_about<'a>(bot: BotView<'a>) -> bool {
    exists|k: int|
        0 <= k < bot.ships@.len() && (#[trigger] bot.ships@[k]).team != bot.team
            && !bot.ships@[k].destroyed && bot.ships@[k].pose is Some
}

proof fn enemies_are_found<'a>(bot: BotView<'a>)
    ensures
        crate::pick::first(bot.hostile_rule(), 0, bot.ships@.len() as int) is Some == enemy_about(
            bot,
        ),
{
    let n = bot.ships@.len() as int;
    assert(n == bot.ships.len());
    first_is_first(bot.hostile_rule(), 0, n);
    if enemy_about(bot) {
        let k = choose|k: int|
            0 <= k < n && (#[trigger] bot.ships@[k]).team != bot.team && !bot.ships@[k].destroyed
                && bot.ships@[k].pose is Some;
        assert(bot.hostile_rule()(k));
    } else if crate::pick::first(bot.hostile_rule(), 0, n) is Some {
        let k = crate::pick::first(bot.hostile_rule(), 0, n)->0 as int;
        assert(bot.hostile_rule()(k));
        assert(bot.ships@[k].team != bot.team);
    }
}

/// Where a ship may leave the board alive: the shuttle over the Imperial edge,
/// the disabled ship from round 5 on over both edges, an Imperial ship with a
/// satellite over its own edge once none floats; anyone else nowhere.
pub proof fn bots_know_the_ways_out<'a>(bot: BotView<'a>, me: ShipView, edge: Seat)
    requires
        bot.mission is Some ==> bot.mission->0.rebel_side <= 1,
    ensures
        bot.mission is None ==> !bot.exits(me).contains(edge),
        bot.mission is Some ==> ({
            let m = *bot.mission->0;
            let rebel = Seat::edge(m.rebel_side);
            let imperial = Seat::edge((1 - m.rebel_side) as u8);
            &&& m.kind == MissionKind::PoliticalEscort ==> (bot.exits(me).contains(edge) <==> edge
                == imperial && m.shuttle == Some(me.id))
            &&& m.kind == MissionKind::AsteroidRun ==> (bot.exits(me).contains(edge) <==> (edge
                == rebel || edge == imperial) && m.disabled == Some(me.id) && bot.turn >= 5)
            &&& m.kind == MissionKind::DarkWhispers ==> (bot.exits(me).contains(edge) <==> edge
                == imperial && me.team != m.rebel_side && me.satellites > 0 && !floats(m))
        }),
{
    let exits = bot.exits(me);
    if bot.mission is Some {
        let m = *bot.mission->0;
        floating_is_afloat(m);
        let rebel = Seat::edge(m.rebel_side);
        let imperial = Seat::edge((1 - m.rebel_side) as u8);
        if exits.len() == 1 {
            assert(exits[0] == imperial);
        } else if exits.len() == 2 {
            assert(exits[0] == rebel && exits[1] == imperial);
        }
    }
}

/// A maneuver is flown unless it is red on a stressed ship, faster than 2 on
/// the disabled ship before round 5, has no template, or leaves the board
/// where the ship cannot escape.
pub proof fn bots_refuse_only_what_harms<'a>(
    bot: BotView<'a>,
    me: ShipView,
    m: Maneuver,
    look: Outlook,
)
    ensures
        bot.tactic(me, m, look) is None <==> {
            ||| me.stress > 0 && m.difficulty == Difficulty::Hard
            ||| bot.mission is Some && bot.mission->0.disabled == Some(me.id) && bot.turn < 5
                && m.distance > 2
            ||| !m.flyable()
            ||| look.off && !bot.exits(me).contains(look.exit)
        },
{
}

/// What a maneuver is worth. An Imperial bot goes by the satellites while one
/// floats, and no Rebel bot ever does. Otherwise a bot goes for the enemy:
/// best with the nearest in its arc, else by closing in; the shuttle runs for
/// its edge. With no enemy about, it runs for a way out or nothing.
pub proof fn bots_go_for_their_goal<'a>(
    bot: BotView<'a>,
    me: ShipView,
    m: Maneuver,
    look: Outlook,
)
    requires
        bot.mission is Some ==> bot.mission->0.rebel_side <= 1,
        bot.tactic(me, m, look) is Some,
    ensures
        ({
            let t = bot.tactic(me, m, look)->0;
            let senator = bot.mission is Some && bot.mission->0.shuttle == Some(me.id);
            &&& after_satellites(bot, me) && look.at_satellite ==> t.base == 60 && t.goal
                == Goal::Nowhere
            &&& after_satellites(bot, me) && !look.at_satellite ==> t.base == 20 && t.goal
                == Goal::Satellite
            &&& !after_satellites(bot, me) ==> t.goal != Goal::Satellite
            &&& !after_satellites(bot, me) && enemy_about(bot) && !senator && look.in_arc
                ==> t.base == 30 && t.goal == Goal::Engage
            &&& !after_satellites(bot, me) && enemy_about(bot) && !senator && !look.in_arc
                ==> t.base == 10 && t.goal == Goal::Approach
            &&& enemy_about(bot) && senator && bot.mission->0.kind == MissionKind::PoliticalEscort
                ==> t.base == 30 && t.goal == Goal::Edge(
                Seat::edge((1 - bot.mission->0.rebel_side) as u8),
            )
            &&& !after_satellites(bot, me) && !enemy_about(bot) && bot.exits(me).len() == 0
                ==> t.base == 0 && t.goal == Goal::Nowhere
            &&& !after_satellites(bot, me) && !enemy_about(bot) && bot.exits(me).len() > 0
                ==> t.base == 30 && t.goal == Goal::Edge(bot.exits(me)[0])
        }),
{
    if bot.mission is Some {
        floating_is_afloat(*bot.mission->0);
    }
    enemies_are_found(bot);
}

/// An escape outweighs everything; a bump costs 40 and a rock 25; a green
/// maneuver gains 5 on a stressed ship, and a red one costs 3.
pub proof fn bots_weigh_the_rest<'a>(bot: BotView<'a>, me: ShipView, m: Maneuver, look: Outlook)
    requires
        bot.tactic(me, m, look) is Some,
    ensures
        ({
            let t = bot.tactic(me, m, look)->0;
            let out: int = if look.off { 1000 } else { 0 };
            let bump: int = if look.bump { 40 } else { 0 };
            let rock: int = if look.rock { 25 } else { 0 };
            &&& t.before == out - bump - rock
            &&& m.difficulty == Difficulty::Easy && me.stress > 0 ==> t.after == 5
            &&& m.difficulty == Difficulty::Easy && me.stress == 0 ==> t.after == 0
            &&& m.difficulty == Difficulty::Normal ==> t.after == 0
            &&& m.difficulty == Difficulty::Hard ==> t.after == -3
        }),
{
}

/// A stressed bot passes. A Rebel beside the shuttle protects it; otherwise
/// the bot takes Focus, else Evade, else nothing.
pub proof fn bots_take_focus_first<'a>(bot: BotView<'a>, me: ShipView, look: Outlook)
    ensures
        ({
            let a = bot.best_action(me, look);
            let escort = look.near_shuttle && bot.mission is Some && bot.mission->0.kind
                == MissionKind::PoliticalEscort && me.team == bot.mission->0.rebel_side
                && bot.mission->0.shuttle != Some(me.id);
            &&& me.stress > 0 ==> a == PlannedAction::Pass
            &&& a == PlannedAction::Protect ==> escort
            &&& me.stress == 0 && a != PlannedAction::Protect ==> {
                &&& me.actions@.contains(ActionKind::Focus) ==> a == PlannedAction::Focus
                &&& !me.actions@.contains(ActionKind::Focus) && me.actions@.contains(
                    ActionKind::Evade,
                ) ==> a == PlannedAction::Evade
                &&& !me.actions@.contains(ActionKind::Focus) && !me.actions@.contains(
                    ActionKind::Evade,
                ) ==> a == PlannedAction::Pass
            }
        }),
{
}

/// A Rebel fighter that will end beside the shuttle in play protects it.
pub proof fn bots_protect_the_shuttle<'a>(bot: BotView<'a>, me: ShipView, look: Outlook, k: int)
    requires
        me.stress == 0,
        look.near_shuttle,
        bot.mission is Some,
        bot.mission->0.kind == MissionKind::PoliticalEscort,
        me.team == bot.mission->0.rebel_side,
        0 <= k < bot.ships@.len(),
        bot.mission->0.shuttle == Some(bot.ships@[k].id),
        bot.ships@[k].id != me.id,
        !bot.ships@[k].destroyed,
        bot.ships@[k].pose is Some,
        forall|j: int|
            0 <= j < k ==> (#[trigger] bot.ships@[j]).id != bot.ships@[k].id
                || bot.ships@[j].destroyed,
    ensures
        bot.best_action(me, look) == PlannedAction::Protect,
{
    let n = bot.ships@.len() as int;
    assert(n == bot.ships.len());
    first_is_first(bot.senator_rule(me), 0, n);
    assert(bot.senator_rule(me)(k));
    let f = crate::pick::first(bot.senator_rule(me), 0, n)->0 as int;
    if f < k {
        assert(bot.ships@[f].id != bot.ships@[k].id || bot.ships@[f].destroyed);
    }
}

/// A bot's squad is filled with a generic pilot of the faction, and none is
/// cheaper; there is none only where the faction has none.
pub proof fn bots_fly_the_cheapest_generic(
    content: Content,
    faction: Faction,
    pilots: Seq<Pilot>,
    n: int,
)
    requires
        0 <= n <= pilots.len(),
    ensures
        ({
            let fits = |p: Pilot|
                p.cost > 0 && !p.unique && content.chassis(p.class) is Some && content.chassis(
                    p.class,
                )->0.faction == faction;
            match cheapest(content, faction, pilots, n) {
                Some(p) => fits(p) && (exists|k: int| 0 <= k < n && #[trigger] pilots[k] == p)
                    && forall|k: int|
                    0 <= k < n && fits(#[trigger] pilots[k]) ==> p.cost <= pilots[k].cost,
                None => forall|k: int| 0 <= k < n ==> !fits(#[trigger] pilots[k]),
            }
        }),
    decreases n,
{
    if n > 0 {
        bots_fly_the_cheapest_generic(content, faction, pilots, n - 1);
        let best = cheapest(content, faction, pilots, n - 1);
        if best is Some {
            let j = choose|k: int| 0 <= k < n - 1 && #[trigger] pilots[k] == best->0;
            assert(pilots[j] == best->0);
        }
        assert(pilots[n - 1] == pilots[n - 1]);
    }
}

/// The squad stays within the points where one ship does, and no further ship
/// would fit; there are at least one and at most twelve.
pub proof fn bots_spend_their_points(points: u32, cost: u8)
    requires
        cost > 0,
    ensures
        ({
            let n = fleet_size(points, cost);
            &&& 1 <= n <= 12
            &&& points >= cost ==> n * cost <= points
            &&& n < 12 ==> (n + 1) * cost > points
        }),
{
    let q = points as int / cost as int;
    assert(q * cost <= points < (q + 1) * cost) by (nonlinear_arith)
        requires
            cost > 0,
            q == points as int / cost as int,
    ;
    if points >= cost {
        assert(q >= 1) by (nonlinear_arith)
            requires
                points < (q + 1) * cost,
                points >= cost,
                cost > 0,
        ;
    }
    let n = fleet_size(points, cost);
    assert(n <= q ==> n * cost <= q * cost) by (nonlinear_arith)
        requires
            cost > 0,
    ;
    assert(n >= q ==> (n + 1) * cost >= (q + 1) * cost) by (nonlinear_arith)
        requires
            cost > 0,
    ;
}

/// A target is as tough as its hull and shields.
pub proof fn toughness_is_hull_and_shields(ships: Seq<ShipView>, id: ShipId, k: int)
    requires
        0 <= k < ships.len(),
        ships[k].id == id,
        forall|j: int| 0 <= j < k ==> (#[trigger] ships[j]).id != id,
    ensures
        toughness(ships, id) == Some(ships[k].hull + ships[k].shields),
    decreases k,
{
    if k > 0 {
        assert(ships[0].id != id);
        let rest = ships.skip(1);
        assert forall|j: int| 0 <= j < k - 1 implies (#[trigger] rest[j]).id != id by {
            assert(rest[j] == ships[j + 1]);
        }
        toughness_is_hull_and_shields(rest, id, k - 1);
    }
}

/// Among options with the same kind of weapon, none is against a weaker target
/// than the chosen one, and none is closer against one as weak.
pub proof fn bots_shoot_the_weakest(
    ships: Seq<ShipView>,
    options: Seq<(ShipId, Option<UpgradeId>, u8)>,
    n: int,
    k: int,
)
    requires
        0 <= k < n <= options.len(),
        forall|j: int| 0 <= j < n ==> toughness(ships, (#[trigger] options[j]).0) is Some,
    ensures
        ({
            let b = favourite(ships, options, n)->0;
            let (t, u) = (toughness(ships, options[b].0)->0, toughness(ships, options[k].0)->0);
            &&& favourite(ships, options, n) is Some
            &&& 0 <= b < n
            &&& options[k].1 is Some ==> options[b].1 is Some
            &&& (options[b].1 is Some) == (options[k].1 is Some) ==> t < u || (t == u
                && options[b].2 <= options[k].2)
        }),
    decreases n,
{
    if n > 1 {
        if k < n - 1 {
            bots_shoot_the_weakest(ships, options, n - 1, k);
        } else {
            bots_shoot_the_weakest(ships, options, n - 1, 0);
        }
        let best = favourite(ships, options, n - 1);
        assert(toughness(ships, options[best->0].0) is Some);
        assert(toughness(ships, options[k].0) is Some);
        assert(toughness(ships, options[n - 1].0) is Some);
    } else {
        assert(favourite(ships, options, 0) is None);
    }
}

/// Of the slowest that are not red, the fallback is a straight where one is.
pub proof fn the_fallback_is_straight_where_it_can_be(dial: Seq<Maneuver>, n: int, k: int)
    requires
        0 <= k < n <= dial.len(),
        dial[k].difficulty != Difficulty::Hard,
        dial[k].steer == Steer::Straight,
    ensures
        ({
            let b = safest(dial, n)->0;
            &&& safest(dial, n) is Some
            &&& dial[b].distance < dial[k].distance || (dial[b].distance == dial[k].distance
                && dial[b].steer == Steer::Straight)
        }),
    decreases n,
{
    crate::bot::the_fallback_is_never_red(dial, n - 1);
    if k < n - 1 {
        the_fallback_is_straight_where_it_can_be(dial, n - 1, k);
    }
}

} // verus!
