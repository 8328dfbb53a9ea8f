//! Pilots, crew and talents: who lends what to whom, and when.

use vstd::prelude::*;

use crate::action::{ActionKind, ActionResult};
use crate::crit::CritEffect;
use crate::data::Content;
use crate::dice::{count, spot, DefenseFace};
use crate::event::{Event, Turner};
use crate::game::actions::Landing;
use crate::game::arsenal::{in_line, listed, minus, one_more, picked_in_order};
use crate::game::cards::{bar_with, one_if};
use crate::game::dial::Ends;
use crate::game::hazards::others_stay;
use crate::game::mods::Throw;
use crate::game::modifiers::first_at;
use crate::game::muster::weakest;
use crate::game::state::{Game, Shot};
use crate::maneuver::{Difficulty, Maneuver};
use crate::pick::{first, first_is_first, picked, picked_obey};
use crate::pilot::PilotAbility;
use crate::ship::ShipModel;
use crate::sight::Sight;
use crate::upgrade::{UpgradeEffect, UpgradeId};

verus! {

/// `n` as a pilot skill: never below 0 or above 12.
pub open spec fn skill_held(n: int) -> int {
    if n <= 0 {
        0
    } else if n >= 12 {
        12
    } else {
        n
    }
}

/// A pilot's skill is the printed one with two for each Veteran Instincts, one
/// for each card that adds one and less one for each that takes one. With a
/// Damaged Cockpit from an earlier round it is 0, and an undamaged "Epsilon
/// Ace" has 12.
pub proof fn skills_add_up(s: ShipModel, content: Content)
    requires
        content.flyer(s.pilot) is Some,
    ensures
        ({
            let blind = count(s.crits, CritEffect::DamagedCockpit) > s.fresh_cockpits;
            let ace = s.ability(content) == Some(PilotAbility::SkillTwelveWhileUndamaged) && s.hull
                == s.full_hull(content);
            let two = s.effects(content, UpgradeEffect::SkillPlus2);
            let one = s.effects(content, UpgradeEffect::SkillPlus1);
            let off = s.effects(content, UpgradeEffect::SkillMinus1);
            &&& blind ==> s.skill(content) == 0
            &&& !blind && ace ==> s.skill(content) == 12
            &&& !blind && !ace ==> s.skill(content) == skill_held(
                content.flyer(s.pilot)->0.skill + two + two + one - off,
            )
        }),
{
}

/// Hull and shields are what the cards print, with one more for each upgrade.
pub proof fn upgrades_add_hull_and_shields(s: ShipModel, content: Content)
    ensures
        ({
            let hulls = s.printed(content).hull + s.effects(content, UpgradeEffect::HullPlus1);
            let shields = s.printed(content).shields + s.effects(
                content,
                UpgradeEffect::ShieldPlus1,
            );
            &&& hulls <= u8::MAX ==> s.full_hull(content) == hulls
            &&& shields <= u8::MAX ==> s.full_shields(content) == shields
        }),
{
}

/// The icon that a card's effect puts on the action bar.
pub open spec fn adds_icon(e: Option<UpgradeEffect>, kind: ActionKind) -> bool {
    ||| e == Some(UpgradeEffect::BarGainsTargetLock) && kind == ActionKind::TargetLock
    ||| e == Some(UpgradeEffect::BarGainsBoost) && kind == ActionKind::Boost
    ||| e == Some(UpgradeEffect::BarGainsBarrelRoll) && kind == ActionKind::BarrelRoll
    ||| e == Some(UpgradeEffect::BarGainsEvade) && kind == ActionKind::Evade
}

/// An action bar has the icons of the ship and those of its cards, and no
/// other.
pub proof fn bars_gain_icons(
    content: Content,
    bar: Seq<ActionKind>,
    cards: Seq<UpgradeId>,
    kind: ActionKind,
)
    ensures
        bar_with(content, bar, cards).contains(kind) <==> bar.contains(kind) || exists|k: int|
            0 <= k < cards.len() && adds_icon(content.does(#[trigger] cards[k]), kind),
    decreases cards.len(),
{
    if cards.len() > 0 {
        let less = cards.drop_last();
        bars_gain_icons(content, bar, less, kind);
        let rest = bar_with(content, bar, less);
        let all = bar_with(content, bar, cards);
        let here = adds_icon(content.does(cards.last()), kind);
        assert(all.contains(kind) <==> rest.contains(kind) || here) by {
            if all.contains(kind) && !here {
                let k = choose|k: int| 0 <= k < all.len() && all[k] == kind;
                if k < rest.len() {
                    assert(rest[k] == kind);
                }
            }
            if rest.contains(kind) {
                let k = choose|k: int| 0 <= k < rest.len() && rest[k] == kind;
                assert(all[k] == kind);
            } else if here {
                assert(all[rest.len() as int] == kind);
            }
        }
        if exists|k: int|
            0 <= k < less.len() && adds_icon(content.does(#[trigger] less[k]), kind) {
            let k = choose|k: int|
                0 <= k < less.len() && adds_icon(content.does(#[trigger] less[k]), kind);
            assert(adds_icon(content.does(cards[k]), kind));
        }
        if exists|k: int|
            0 <= k < cards.len() && adds_icon(content.does(#[trigger] cards[k]), kind) {
            let k = choose|k: int|
                0 <= k < cards.len() && adds_icon(content.does(#[trigger] cards[k]), kind);
            if k < less.len() {
                assert(adds_icon(content.does(less[k]), kind));
            }
        }
        if here {
            assert(adds_icon(content.does(cards[cards.len() - 1]), kind));
        }
    }
}

/// The defender's agility counts one less for each of these, never below 0:
/// Outmaneuver from outside its arc, Wedge Antilles, an Intimidation that
/// touches it.
pub proof fn agility_drops_to_zero_at_most(
    g: Game,
    content: Content,
    sight: Sight,
    a: int,
    d: int,
)
    requires
        0 <= a < g.ships.len(),
        0 <= d < g.ships.len(),
    ensures
        ({
            let (h, n) = g.guard_agility(content, sight, a, d);
            let out = g.has(content, a, UpgradeEffect::ReduceAgilityIfNotInDefenderArc) && g.in_arc(
                sight,
                a,
                d,
            ) && !g.in_arc(sight, d, a);
            let wedge = g.ships[a].ability(content) == Some(PilotAbility::DefenderAgilityMinus1);
            let lost = one_if(out) + one_if(wedge) + one_if(g.intimidated(content, sight, d));
            &&& n == minus(g.agility(content, sight, d) as int, lost)
            &&& h.ships == g.ships
        }),
{
    reveal(Game::guard_agility);
    reveal(Game::lowering);
    reveal(Game::intimidated);
    reveal(Game::agility);
    let one = g.saying(Event::Outmaneuver(a as usize));
    let two = one.saying(Event::WedgeAntilles(a as usize));
    let three = g.saying(Event::WedgeAntilles(a as usize));
    alike_intimidators(g, one, content, sight, d);
    alike_intimidators(g, two, content, sight, d);
    alike_intimidators(g, three, content, sight, d);
}

proof fn alike_intimidators(g: Game, h: Game, content: Content, sight: Sight, d: int)
    requires
        h.ships == g.ships,
        h.teams == g.teams,
    ensures
        h.intimidated(content, sight, d) == g.intimidated(content, sight, d),
{
    reveal(Game::intimidated);
    let (x, y) = (g.intimidator_rule(content, sight, d), h.intimidator_rule(content, sight, d));
    let n = g.ships.len() as int;
    assert forall|j: int| 0 <= j < n implies #[trigger] x(j) == y(j) by {
    }
    crate::pick::like_rules_pick_alike(x, y, 0, n);
}

/// A ship is intimidated by a living enemy on the board that touches it and
/// has the card, and by nobody else.
pub proof fn intimidation_needs_a_touch(g: Game, content: Content, sight: Sight, d: int)
    requires
        g.ships.len() <= usize::MAX,
        0 <= d < g.ships.len(),
    ensures
        g.intimidated(content, sight, d) <==> g.ships[d].pose is Some && exists|k: int|
            #[trigger] looms(g, content, sight, d, k),
{
    reveal(Game::intimidated);
    let rule = g.intimidator_rule(content, sight, d);
    first_is_first(rule, 0, g.ships.len() as int);
    if g.intimidated(content, sight, d) {
        let k = first(rule, 0, g.ships.len() as int)->0 as int;
        assert(rule(k));
        assert(looms(g, content, sight, d, k));
    }
    if exists|k: int| #[trigger] looms(g, content, sight, d, k) {
        let k = choose|k: int| #[trigger] looms(g, content, sight, d, k);
        assert(rule(k));
    }
}

/// Ship `k` is a living enemy that touches ship `d` and has Intimidation.
pub open spec fn looms(g: Game, content: Content, sight: Sight, d: int, k: int) -> bool {
    &&& 0 <= k < g.ships.len()
    &&& g.side(g.ships[k].owner) != g.side(g.ships[d].owner)
    &&& !g.ships[k].destroyed
    &&& g.has(content, k, UpgradeEffect::ReduceAgilityWhileTouching)
    &&& g.ships[k].pose is Some
    &&& sight.at(d, k).dist == 0
}

/// C-3PO adds one evade to a roll without any, against an attack that lands,
/// once per round.
pub proof fn c3po_adds_an_evade(
    g: Game,
    content: Content,
    d: int,
    incoming: u8,
    faces: Seq<DefenseFace>,
)
    requires
        0 <= d < g.ships.len(),
        faces.len() <= usize::MAX,
    ensures
        ({
            let (h, after) = g.guessing(content, d, incoming, faces);
            let card = g.unused(content, d, UpgradeEffect::CrewGuessEvades);
            let none = forall|k: int|
                0 <= k < faces.len() ==> #[trigger] faces[k] != DefenseFace::Evade;
            let acts = incoming > 0 && none && card is Some;
            &&& acts ==> after == faces.push(DefenseFace::Evade) && h.ships[d].used_round
                == g.ships[d].used_round.push(card->0)
            &&& !acts ==> after == faces && h == g
            &&& others_stay(g, h, d)
        }),
{
    reveal(Game::guessing);
    crate::dice::a_spot_is_the_first(faces, DefenseFace::Evade, 0);
}

/// A defense conversion turns the first die of its kind into an evade, while
/// damage would still land, where it is allowed.
pub proof fn dodges_turn_one_die(
    g: Game,
    allowed: bool,
    incoming: u8,
    faces: Seq<DefenseFace>,
    from: DefenseFace,
    event: Event,
)
    requires
        faces.len() <= u8::MAX,
    ensures
        ({
            let (h, after) = g.dodging(allowed, incoming, faces, from, event);
            let due = allowed && count(faces, DefenseFace::Evade) < incoming;
            &&& due ==> forall|p: int| #[trigger] first_at(faces, from, p) ==> after
                == faces.update(p, DefenseFace::Evade)
            &&& due && (forall|k: int| 0 <= k < faces.len() ==> #[trigger] faces[k] != from)
                ==> after == faces
            &&& !due ==> after == faces
            &&& h.ships == g.ships
        }),
{
    reveal(Game::dodging);
    crate::dice::a_spot_is_the_first(faces, from, 0);
    crate::dice::count_bounded(faces, DefenseFace::Evade);
    assert forall|p: int| #[trigger] first_at(faces, from, p) implies spot(faces, from) == Some(
        p as usize,
    ) by {
        let q = spot(faces, from)->0 as int;
        assert(faces[p] == from);
        if q < p {
            assert(faces[q] != from);
        } else if p < q {
            assert(faces[p] != from);
        }
    }
}

/// Flight Instructor has one eye rerolled, or a blank where the attacker's
/// skill is 2 or less.
pub proof fn instructors_reroll_one_die(
    t: Throw<DefenseFace>,
    content: Content,
    a: int,
    d: int,
)
    ensures
        ({
            let u = t.instructed(content, a, d);
            let aboard = t.game.has(content, d, UpgradeEffect::CrewRerollDefenseDie);
            let eye = spot(t.faces, DefenseFace::Focus);
            let blank = spot(t.faces, DefenseFace::Blank);
            let green = t.game.ships[a].skill(content) <= 2;
            let fresh = crate::dice::defense_face(t.dice.shows());
            &&& !aboard ==> u == t
            &&& aboard && eye is Some ==> u.faces == t.faces.update(eye->0 as int, fresh) && u.dice
                == t.dice.rolled()
            &&& aboard && eye is None && green && blank is Some ==> u.faces == t.faces.update(
                blank->0 as int,
                fresh,
            ) && u.dice == t.dice.rolled()
            &&& aboard && eye is None && (!green || blank is None) ==> u == t
            &&& u.game.ships == t.game.ships
        }),
{
    reveal(Throw::instructed);
}

/// Rebel Captive stresses the first attacker of the round; R3-A2 stresses an
/// unstressed attacker and a defender in its arc. Neither does so on the
/// second attack of a weapon that fires twice, and nobody else is stressed by
/// an attack that is declared.
pub proof fn captives_stress_the_attacker(
    g: Game,
    content: Content,
    sight: Sight,
    a: int,
    shot: Shot,
)
    requires
        0 <= a < g.ships.len(),
        shot.d_idx < g.ships.len(),
    ensures
        ({
            let d = shot.d_idx as int;
            let h = g.declaring(content, sight, a, shot);
            let captive = g.unused(content, d, UpgradeEffect::CrewStressFirstAttacker) is Some;
            let r3a2 = g.has(content, a, UpgradeEffect::StressDefenderIfInArc) && g.in_arc(
                sight,
                a,
                d,
            );
            let told = if sight.at(a, d).obstructed {
                g.saying(Event::Obstructed(a as usize))
            } else {
                g
            };
            &&& shot.second || (!captive && !(r3a2 && g.ships[a].stress == 0)) ==> h == told
            &&& !shot.second && !captive && r3a2 && g.ships[a].stress == 0 ==> h == told.saying(
                Event::R3A2(a as usize, d as usize),
            ).stressed(content, sight, a).stressed(content, sight, d)
        }),
{
    reveal(Game::declaring);
}

/// Ysanne Isard gives an evade token to a damaged ship without shields that
/// may act.
pub proof fn isard_evades_when_shields_are_down(g: Game, content: Content, i: int)
    requires
        0 <= i < g.ships.len(),
    ensures
        ({
            let (s, h) = (g.ships[i], g.isard(content, i));
            let acts = s.shields == 0 && s.hull < s.full_hull(content) && s.free_to_act(content)
                && g.has(content, i, UpgradeEffect::CrewFreeEvadeIfNoShieldsDamaged);
            &&& h.ships[i] == if acts {
                ShipModel { evade: one_more(s.evade), ..s }
            } else {
                s
            }
            &&& others_stay(g, h, i)
        }),
{
    reveal(Game::isard);
}

/// A free action is open to a living ship that is not stressed, or whose pilot
/// acts while stressed, and whose sensors work.
pub proof fn free_actions_need_calm(s: ShipModel, content: Content)
    ensures
        s.free_to_act(content) <==> !s.destroyed && !s.crits.contains(
            CritEffect::DamagedSensorArray,
        ) && (s.stress == 0 || s.ability(content) == Some(PilotAbility::ActionsWhileStressed)),
{
}

/// Rey (crew) gives back one stored focus token at the start of combat.
pub proof fn rey_returns_one_token(g: Game, content: Content, i: int)
    requires
        0 <= i < g.ships.len(),
    ensures
        ({
            let (s, h) = (g.ships[i], g.rey_returns(content, i));
            let acts = s.stored_focus > 0 && g.has(
                content,
                i,
                UpgradeEffect::CrewStoreFocusTokens,
            );
            &&& h.ships[i] == if acts {
                ShipModel {
                    focus: one_more(s.focus),
                    stored_focus: (s.stored_focus - 1) as u8,
                    ..s
                }
            } else {
                s
            }
            &&& others_stay(g, h, i)
        }),
{
    reveal(Game::rey_returns);
}

/// A stress token removed brings Kyle Katarn's (crew) ship a focus token.
pub proof fn katarn_focuses_when_stress_goes(g: Game, content: Content, i: int)
    requires
        0 <= i < g.ships.len(),
    ensures
        ({
            let (s, h) = (g.ships[i], g.unstressed(content, i));
            let t = h.ships[i];
            let katarn = s.effects(content, UpgradeEffect::CrewFocusAfterStressRemoved) > 0;
            &&& s.stress == 0 ==> h == g
            &&& s.stress > 0 ==> t.stress == s.stress - 1
            &&& s.stress > 0 ==> t.focus == if katarn {
                one_more(s.focus)
            } else {
                s.focus
            }
            &&& t == ShipModel { stress: t.stress, focus: t.focus, ..s }
            &&& others_stay(g, h, i)
        }),
{
}

proof fn the_weakest_is_weakest(
    skills: Seq<u8>,
    places: Seq<usize>,
    mine: u8,
    k: int,
    best: Option<usize>,
)
    requires
        0 <= k <= places.len(),
        best is Some ==> skills[best->0 as int] < mine,
    ensures
        ({
            let w = weakest(skills, places, mine, k, best);
            &&& w is Some ==> skills[w->0 as int] < mine && (w == best || exists|m: int|
                k <= m < places.len() && #[trigger] places[m] == w->0)
            &&& w is None ==> best is None
            &&& best is Some ==> w is Some && skills[w->0 as int] <= skills[best->0 as int]
            &&& forall|m: int|
                k <= m < places.len() && skills[#[trigger] places[m] as int] < mine ==> w is Some
                    && skills[w->0 as int] <= skills[places[m] as int]
        }),
    decreases places.len() - k,
{
    if k < places.len() {
        let next = if skills[places[k] as int] < mine && (best is None || skills[places[k] as int]
            < skills[best->0 as int]) {
            Some(places[k])
        } else {
            best
        };
        the_weakest_is_weakest(skills, places, mine, k + 1, next);
        let w = weakest(skills, places, mine, k, best);
        if w is Some && w == next && next != best {
            assert(places[k] == w->0);
        }
    }
}

/// Swarm Tactics lifts the lowest skill below its own, of a friend at Range 1,
/// to its own, and changes no other.
pub proof fn swarm_tactics_lifts_the_weakest(
    g: Game,
    content: Content,
    sight: Sight,
    i: int,
    skills: Seq<u8>,
)
    requires
        g.ships.len() <= usize::MAX,
        0 <= i < g.ships.len(),
        skills.len() == g.ships.len(),
    ensures
        ({
            let (h, after) = g.swarm_tactics(content, sight, i, skills);
            let mine = g.ships[i].skill(content);
            let leads = !g.ships[i].destroyed && g.ships[i].pose is Some && g.has(
                content,
                i,
                UpgradeEffect::ShareSkillWithFriendly,
            );
            let near = g.near(sight, i, 1);
            &&& !leads ==> after == skills
            &&& leads && (forall|m: int|
                0 <= m < near.len() ==> skills[#[trigger] near[m] as int] >= mine) ==> after
                == skills
            &&& leads && (exists|m: int|
                0 <= m < near.len() && skills[#[trigger] near[m] as int] < mine) ==> exists|m: int|
                0 <= m < near.len() && skills[#[trigger] near[m] as int] < mine && after
                    == skills.update(near[m] as int, mine) && forall|o: int|
                    0 <= o < near.len() ==> skills[near[m] as int] <= skills[#[trigger] near[o] as int]
            &&& h.ships == g.ships
        }),
{
    reveal(Game::swarm_tactics);
    let mine = g.ships[i].skill(content);
    let near = g.near(sight, i, 1);
    the_weakest_is_weakest(skills, near, mine, 0, None);
    let w = weakest(skills, near, mine, 0, None);
    if exists|m: int| 0 <= m < near.len() && skills[#[trigger] near[m] as int] < mine {
        let m = choose|m: int| 0 <= m < near.len() && skills[#[trigger] near[m] as int] < mine;
        assert(w is Some);
        let p = choose|p: int| 0 <= p < near.len() && #[trigger] near[p] == w->0;
        assert forall|o: int| 0 <= o < near.len() implies skills[near[p] as int]
            <= skills[#[trigger] near[o] as int] by {
            if skills[near[o] as int] < mine {
                assert(skills[w->0 as int] <= skills[near[o] as int]);
            }
        }
        assert(skills[near[p] as int] < mine);
    } else if w is Some {
        let p = choose|p: int| 0 <= p < near.len() && #[trigger] near[p] == w->0;
        assert(skills[near[p] as int] < mine);
    }
}

/// Ships within so many bands are the other living friends on the board that
/// close, and all of them.
pub proof fn friends_near_are_friends(g: Game, sight: Sight, s: int, band: u8, o: int)
    requires
        g.ships.len() <= usize::MAX,
        0 <= s < g.ships.len(),
        0 <= o < g.ships.len(),
    ensures
        in_line(g.near(sight, s, band), g.ships.len() as int),
        listed(g.near(sight, s, band), 0, o) <==> o != s && !g.ships[o].destroyed && g.side(
            g.ships[o].owner,
        ) == g.side(g.ships[s].owner) && g.ships[s].pose is Some && g.ships[o].pose is Some
            && sight.at(s, o).band is Some && sight.at(s, o).band->0 <= band,
{
    let rule = g.friend_rule(sight, s, band);
    picked_in_order(rule, g.ships.len() as int);
    assert(listed(picked(rule, 0, g.ships.len() as int), 0, o) <==> rule(o));
}

/// Enhanced Scopes move first: skill 0 in the Activation phase, and every
/// other ship moves at its own.
pub proof fn scopes_move_first(g: Game, content: Content, k: int)
    requires
        0 <= k < g.ships.len(),
    ensures
        g.moving_skills(content).len() == g.ships.len(),
        g.moving_skills(content)[k] == if g.has(
            content,
            k,
            UpgradeEffect::SystemSkillZeroInActivation,
        ) {
            0
        } else {
            g.ships[k].skill(content)
        },
{
}

/// A spot is open where nothing is in the way; Collision Detector lets the
/// base end on an obstacle, never on a ship or off the board.
pub proof fn detectors_allow_obstacles(g: Game, content: Content, i: int, spot: Option<Landing>)
    ensures
        g.open_to(content, i, spot) <==> spot is Some && !spot->0.blocked && (spot->0.on_obstacle
            ==> g.has(content, i, UpgradeEffect::SystemOverlapObstaclesOnReposition)),
{
}

/// Stay on Target turns a dial that ends badly, on an unstressed ship, to a
/// maneuver of the same speed and another bearing that ends well; it is flown
/// as red.
pub proof fn staying_on_target_is_red(
    g: Game,
    content: Content,
    i: int,
    man: Maneuver,
    ends: Ends,
    m: Maneuver,
)
    requires
        0 <= i < g.ships.len(),
        content.dial(g.ships[i].class).len() <= usize::MAX,
        g.rotation(content, i, man, ends) == Some((m, Turner::StayOnTarget)),
        g.ships[i].ability(content) != Some(PilotAbility::AdjustManeuverSpeedBy1),
        g.ships[i].ability(content) != Some(PilotAbility::KTurnSpeed1Or3Or5),
    ensures
        ({
            let dial = content.dial(g.ships[i].class);
            &&& g.has(content, i, UpgradeEffect::RotateDialSameSpeedRed)
            &&& g.ships[i].stress == 0
            &&& ends.ill(man)
            &&& m.difficulty == Difficulty::Hard
            &&& m.distance == man.distance
            &&& m.steer != man.steer
            &&& exists|k: int|
                0 <= k < dial.len() && (#[trigger] dial[k]).steer == m.steer && dial[k].distance
                    == m.distance && !ends.ill(dial[k])
        }),
{
    let dial = content.dial(g.ships[i].class);
    let rule = crate::game::dial::stay_rule(dial, man, ends);
    first_is_first(rule, 0, dial.len() as int);
    let k = first(rule, 0, dial.len() as int)->0 as int;
    assert(rule(k));
    assert(dial[k].distance == man.distance);
}

/// Squad Leader gives a focus token to the first friend at Range 1-2 of a
/// lower skill, if that friend may act; else it fails and nobody gains one.
pub proof fn squad_leaders_focus_a_junior(g: Game, content: Content, sight: Sight, i: int)
    requires
        g.ships.len() <= usize::MAX,
        0 <= i < g.ships.len(),
    ensures
        ({
            let (h, r) = g.leading(content, sight, i);
            let near = g.near(sight, i, 2);
            let mine = g.ships[i].skill(content);
            &&& r == ActionResult::Failed ==> h.ships == g.ships
            &&& r == ActionResult::Performed ==> exists|k: int|
                {
                    &&& 0 <= k < near.len()
                    &&& g.ships[#[trigger] near[k] as int].skill(content) < mine
                    &&& forall|j: int|
                        0 <= j < k ==> g.ships[#[trigger] near[j] as int].skill(content) >= mine
                    &&& g.ships[near[k] as int].free_to_act(content)
                    &&& h.ships[near[k] as int] == (ShipModel {
                        focus: one_more(g.ships[near[k] as int].focus),
                        ..g.ships[near[k] as int]
                    })
                    &&& others_stay(g, h, near[k] as int)
                }
            &&& r == ActionResult::Performed || r == ActionResult::Failed
        }),
{
    reveal(Game::leading);
    let near = g.near(sight, i, 2);
    picked_obey(g.friend_rule(sight, i, 2), 0, g.ships.len() as int);
    let rule = g.lower_rule(content, i, near);
    first_is_first(rule, 0, near.len() as int);
    let found = first(rule, 0, near.len() as int);
    if found is Some {
        let k = found->0 as int;
        assert(rule(k));
        assert forall|j: int| 0 <= j < k implies g.ships[#[trigger] near[j] as int].skill(content)
            >= g.ships[i].skill(content) by {
            assert(!rule(j));
        }
        assert(g.ships[near[k] as int].skill(content) < g.ships[i].skill(content));
    }
}

/// Recon Specialist: a focus action gives a second token.
pub proof fn recon_gives_a_second_token(g: Game, content: Content, sight: Sight, i: int)
    requires
        0 <= i < g.ships.len(),
        g.ships[i].focus <= 253,
        g.with_ship(i, g.ships[i].with_focus()).jan_swapped(content, sight, i) == g.with_ship(
            i,
            g.ships[i].with_focus(),
        ),
    ensures
        ({
            let h = g.focusing(content, sight, i);
            let t = h.ships[i];
            &&& t.focus == g.ships[i].focus + 1 + one_if(
                g.ships[i].effects(content, UpgradeEffect::CrewExtraFocusOnFocusAction) > 0,
            )
            &&& t == ShipModel { focus: t.focus, ..g.ships[i] }
            &&& others_stay(g, h, i)
        }),
{
}

/// Swarm Leader adds a die for each of up to two other living friends with an
/// evade token and the defender in arc, and each gives up its token.
pub proof fn swarm_leaders_borrow_evades(g: Game, sight: Sight, a: int, d: int)
    requires
        g.ships.len() <= usize::MAX,
        0 <= a < g.ships.len(),
        0 <= d < g.ships.len(),
    ensures
        ({
            let places = picked(g.swarm_rule(sight, a, d), 0, g.ships.len() as int);
            let h = g.swarmed(sight, a, d);
            &&& g.swarm_dice(sight, a, d) == if places.len() < 2 {
                places.len() as int
            } else {
                2
            }
            &&& h.ships.len() == g.ships.len()
            &&& places.len() > 0 ==> h.ships[places[0] as int].evade
                == g.ships[places[0] as int].evade - 1
            &&& places.len() > 1 ==> h.ships[places[1] as int].evade
                == g.ships[places[1] as int].evade - 1
            &&& forall|j: int|
                0 <= j < g.ships.len() && !(places.len() > 0 && j == places[0]) && !(places.len()
                    > 1 && j == places[1]) ==> #[trigger] h.ships[j] == g.ships[j]
            &&& forall|j: int|
                0 <= j < g.ships.len() ==> (#[trigger] listed(places, 0, j) <==> lends_evade(
                    g,
                    sight,
                    a,
                    d,
                    j,
                ))
        }),
{
    let n = g.ships.len() as int;
    let rule = g.swarm_rule(sight, a, d);
    let places = picked(rule, 0, n);
    picked_in_order(rule, n);
    picked_obey(rule, 0, n);
    assert forall|j: int| 0 <= j < n implies (#[trigger] listed(places, 0, j) <==> lends_evade(
        g,
        sight,
        a,
        d,
        j,
    )) by {
        assert(listed(places, 0, j) <==> rule(j));
    }
    if places.len() > 0 {
        assert(rule(places[0] as int));
        let one = g.with_ship(places[0] as int, g.ships[places[0] as int].less_evade()).saying(
            Event::SwarmLeader(a as usize, places[0]),
        );
        if places.len() > 1 {
            assert(places[0] < places[1]);
            assert(rule(places[1] as int));
            let two = one.with_ship(
                places[1] as int,
                one.ships[places[1] as int].less_evade(),
            ).saying(Event::SwarmLeader(a as usize, places[1]));
            assert(one.swarming(a, places, 1) == two.swarming(a, places, 2));
            assert(two.swarming(a, places, 2) == two);
        } else {
            assert(one.swarming(a, places, 1) == one);
        }
        assert(g.swarming(a, places, 0) == one.swarming(a, places, 1));
    }
}

/// Ship `j` is another living friend with an evade token and the defender in
/// arc within Range 1-3.
pub open spec fn lends_evade(g: Game, sight: Sight, a: int, d: int, j: int) -> bool {
    let s = g.ships[j];
    &&& j != a && !s.destroyed && s.evade > 0
    &&& g.side(s.owner) == g.side(g.ships[a].owner)
    &&& s.pose is Some && g.ships[d].pose is Some
    &&& sight.at(j, d).band is Some && sight.at(j, d).in_arc
}

} // verus!
