//! What follows what in a round: the stages of a ship's activation, and the
//! shots of the Combat phase.

use vstd::prelude::*;

use crate::data::Content;
use crate::game::activation::{Facts, Progress, Stage};
use crate::game::actions::Moves;
use crate::game::battle::{chosen, StepModel, Survey};
use crate::game::deeds::is_named;
use crate::game::orders::ids_find_their_ship;
use crate::game::rejection::Rejection;
use crate::game::state::{AttackOption, Game, Phase, Play, Shot};
use crate::pick::{first, first_is_first};
use crate::pilot::PilotAbility;
use crate::ship::{PlayerId, ShipId};
use crate::sight::Sight;
use crate::upgrade::{UpgradeEffect, UpgradeId};

verus! {

/// The next ship in the order reveals its dial, or after the last one the
/// black holes are gathered.
pub open spec fn next_ship(a: Progress, b: Progress) -> bool {
    if a.turn.place + 1 < a.order.len() {
        b.turn.stage == Stage::Reveal && b.turn.place == a.turn.place + 1
    } else {
        b.turn.stage == Stage::Gather
    }
}

/// The stages of a ship's activation follow one another: reveal, rotate,
/// ready, fly, obstacles, stress, mines, stun, snap shots of every ship, spin,
/// free boost, action, second action and its cost; then the next ship moves.
pub proof fn stages_follow_in_order(p: Play, content: Content, facts: Facts, a: Progress)
    requires
        a.wf(p.game.ships.len()),
        p.game.ships.len() <= usize::MAX,
        a.order.len() <= usize::MAX,
    ensures
        ({
            let b = p.stepped_on(content, facts, a).1;
            let (now, then) = (a.turn.stage, b.turn.stage);
            let last = a.turn.other + 1 >= p.game.ships.len();
            &&& now == Stage::Reveal ==> then == Stage::Rotate
            &&& now == Stage::Rotate ==> then == Stage::Ready
            &&& now == Stage::Ready ==> then == Stage::Fly
            &&& now == Stage::Fly ==> then == Stage::Cross
            &&& now == Stage::Cross ==> then == Stage::Settle
            &&& now == Stage::Settle ==> then == Stage::Mines
            &&& now == Stage::Mines ==> then == Stage::Stun
            &&& now == Stage::Stun ==> then == Stage::Snap && b.turn.other == 0
            &&& now == Stage::Snap && !last ==> then == Stage::Snap && b.turn.other == a.turn.other
                + 1
            &&& now == Stage::Snap && last ==> then == Stage::Spin
            &&& now == Stage::Spin ==> then == Stage::Boost
            &&& now == Stage::Boost ==> then == Stage::Act
            &&& now == Stage::Act ==> then == Stage::Second
            &&& now == Stage::Second ==> then == Stage::Tire || next_ship(a, b)
            &&& now == Stage::Tire ==> next_ship(a, b)
            &&& now == Stage::Explode ==> then == Stage::Burn
            &&& now == Stage::Burn ==> then == Stage::Over
            &&& b.order == a.order
        }),
{
    reveal(Play::moving_step);
    reveal(Play::acting_step);
    reveal(Play::closing_step);
}

/// What a stage finds out is carried to the later ones: the course, how the
/// ship stands, the bump, the rock, the net, and the stress before the
/// maneuver's own.
pub proof fn stages_carry_what_they_find(p: Play, content: Content, facts: Facts, a: Progress)
    requires
        a.wf(p.game.ships.len()),
        facts.flight.wf(),
    ensures
        ({
            let b = p.stepped_on(content, facts, a).1;
            let (s, t) = (a.turn, b.turn);
            let i = a.order[s.place as int] as int;
            let path = facts.flight.used();
            &&& s.stage == Stage::Fly ==> t.stance.bumped == (facts.flight.stop() < path.len() - 1)
            &&& s.stage == Stage::Settle ==> t.stance.stress_before == p.game.ships[i].stress
            &&& s.stage == Stage::Cross ==> t.stance.bumped == s.stance.bumped && t.course
                == s.course
            &&& s.stage == Stage::Mines ==> t.stance.bumped == s.stance.bumped && t.stance.on_rock
                == s.stance.on_rock && t.readied == s.readied
            &&& s.stage == Stage::Ready ==> t.course == s.course
            &&& s.stage == Stage::Act ==> t.stance == s.stance && t.readied == s.readied
        }),
{
    reveal(Play::moving_step);
    reveal(Play::acting_step);
}

/// A ship whose turn to fire comes up fires at its only option, passes without
/// any, and asks its owner where it has several: every option is offered.
pub proof fn attackers_fire_pass_or_ask(p: Play, content: Content, survey: Survey, a: int)
    requires
        0 <= a < p.game.ships.len(),
        p.game.combat is Some,
        p.game.mission is None,
    ensures
        ({
            let g = p.game;
            let options = g.options(content, survey.sight, a);
            let (q, step) = p.takes_turn(content, survey, a);
            &&& options.len() == 0 ==> q == p && step is None
            &&& options.len() > 1 ==> q.dice == p.dice && q.game.ships == g.ships && q.game.combat
                is Some && q.game.combat->0.pending is Some && ({
                let asked = q.game.combat->0.pending->0;
                &&& asked.attacker == g.ships[a].id
                &&& asked.owner == g.ships[a].owner
                &&& asked.options == options
                &&& step == Some(StepModel::NeedTarget(asked))
            })
            &&& options.len() == 1 && step is Some ==> step->0 is Attack
        }),
{
    reveal(Game::scannable);
}

/// The target declared must be among the options that were offered, with that
/// weapon, and the owner must declare it.
pub proof fn declarations_pick_an_option(
    g: Game,
    player: PlayerId,
    target: ShipId,
    weapon: Option<UpgradeId>,
)
    requires
        g.ships.len() <= usize::MAX,
    ensures
        ({
            let made = g.declared(player, target, weapon);
            let asked = g.combat->0.pending->0;
            let open = g.phase == Phase::Combat && g.combat is Some && g.combat->0.pending is Some;
            let offered = exists|k: int|
                0 <= k < asked.options.len() && (#[trigger] asked.options[k]).target == target
                    && asked.options[k].weapon == weapon;
            &&& g.phase != Phase::Combat ==> made == Err::<(usize, Shot), Rejection>(
                Rejection::WrongPhase,
            )
            &&& g.phase == Phase::Combat && !open ==> made == Err::<(usize, Shot), Rejection>(
                Rejection::NoPendingAttack,
            )
            &&& open && asked.owner != player ==> made == Err::<(usize, Shot), Rejection>(
                Rejection::NotYourShip,
            )
            &&& open && asked.owner == player && !offered ==> made == Err::<
                (usize, Shot),
                Rejection,
            >(Rejection::BadTarget)
            &&& match made {
                Ok((a, shot)) => {
                    &&& open && asked.owner == player && offered
                    &&& is_named(g, a as int, asked.attacker)
                    &&& is_named(g, shot.d_idx as int, target)
                    &&& shot.weapon == weapon
                    &&& !shot.second && !shot.focus_hit && !shot.no_mods
                    &&& exists|k: int|
                        0 <= k < asked.options.len() && (#[trigger] asked.options[k]).target
                            == target && asked.options[k].weapon == weapon
                            && asked.options[k].range == shot.range
                },
                Err(_) => true,
            }
        }),
{
    if g.combat is Some && g.combat->0.pending is Some {
        let asked = g.combat->0.pending->0;
        the_choice_is_offered(asked.options, target, weapon);
        ids_find_their_ship(g, asked.attacker, 0);
        ids_find_their_ship(g, target, 0);
    }
}

proof fn the_choice_is_offered(
    options: Seq<AttackOption>,
    target: ShipId,
    weapon: Option<UpgradeId>,
)
    ensures
        chosen(options, target, weapon) is Some <==> exists|k: int|
            0 <= k < options.len() && (#[trigger] options[k]).target == target && options[k].weapon
                == weapon,
        chosen(options, target, weapon) is Some ==> exists|k: int|
            0 <= k < options.len() && #[trigger] options[k] == chosen(options, target, weapon)->0
                && options[k].target == target && options[k].weapon == weapon,
    decreases options.len(),
{
    if options.len() > 0 {
        let rest = options.skip(1);
        the_choice_is_offered(rest, target, weapon);
        if options[0].target == target && options[0].weapon == weapon {
            assert(options[0] == chosen(options, target, weapon)->0);
        } else {
            if chosen(rest, target, weapon) is Some {
                let k = choose|k: int|
                    0 <= k < rest.len() && #[trigger] rest[k] == chosen(rest, target, weapon)->0
                        && rest[k].target == target && rest[k].weapon == weapon;
                assert(options[k + 1] == rest[k]);
            }
            if exists|k: int|
                0 <= k < options.len() && (#[trigger] options[k]).target == target
                    && options[k].weapon == weapon {
                let k = choose|k: int|
                    0 <= k < options.len() && (#[trigger] options[k]).target == target
                        && options[k].weapon == weapon;
                assert(rest[k - 1] == options[k]);
            }
        }
    }
}

/// A Gunner or Luke Skywalker (crew) fires again after a miss only, once per
/// round, while the ship lives; a hit is never followed so.
pub proof fn gunners_fire_again_on_a_miss(
    g: Game,
    content: Content,
    sight: Sight,
    a: int,
    shot: Shot,
    missed: bool,
)
    requires
        0 <= a < g.ships.len() <= usize::MAX,
        g.combat is Some,
    ensures
        ({
            let h = g.gunner(content, sight, a, shot, missed);
            let gunner = g.unused(content, a, UpgradeEffect::CrewSecondAttackOnMiss);
            let luke = g.unused(content, a, UpgradeEffect::CrewSecondAttackFocusToHit);
            let acts = missed && !g.ships[a].destroyed && !shot.focus_hit && !g.gunned(content, a)
                && (gunner is Some || luke is Some);
            &&& !acts ==> h == g
            &&& acts ==> h.ships[a].used_round == g.ships[a].used_round.push(
                if gunner is Some {
                    gunner->0
                } else {
                    luke->0
                },
            )
            &&& acts && h.combat->0.followup is Some && g.combat->0.followup is None ==> ({
                let next = h.combat->0.followup->0;
                match next {
                    (who, again) => who == a && again.weapon is None && !again.second
                        && again.focus_hit == (gunner is None),
                }
            })
            &&& h.ships.len() == g.ships.len()
        }),
{
    reveal(Game::gunner);
    let defender = Some(g.ships[shot.d_idx as int].id);
    let one = g.used(content, a, UpgradeEffect::CrewSecondAttackOnMiss);
    let two = g.used(content, a, UpgradeEffect::CrewSecondAttackFocusToHit);
    primaries_have_no_card(one.options(content, sight, a));
    primaries_have_no_card(two.options(content, sight, a));
    the_preferred_is_one(
        crate::game::targets::primaries(one.options(content, sight, a)),
        defender,
    );
    the_preferred_is_one(
        crate::game::targets::primaries(two.options(content, sight, a)),
        defender,
    );
}

/// A weapon that attacks twice is fired at the same ship again, and after its
/// second attack no more. Every attack is recorded.
pub proof fn shots_are_recorded_and_repeated(
    p: Play,
    content: Content,
    sight: Sight,
    moves: Moves,
    a: int,
    shot: Shot,
)
    requires
        p.game.combat is Some,
    ensures
        ({
            let (q, record) = p.fired(content, sight, moves, a, shot);
            let hit = p.attacked(content, sight, moves, a, shot);
            let e = content.does(shot.weapon->0);
            let twice = shot.weapon is Some && (e == Some(UpgradeEffect::MissileAttackTwice) || e
                == Some(UpgradeEffect::TurretTwinLaserTwiceOneDamage));
            &&& record == hit.1
            &&& twice && !shot.second ==> q.game.combat->0.followup == Some(
                (a as usize, Shot { second: true, ..shot }),
            ) && q.game.ships == hit.0.game.ships && q.game.combat->0.attacks
                == hit.0.game.combat->0.attacks.push(record)
        }),
{
    reveal(Play::fired);
}

/// Chewbacca fires at once when a friend is destroyed at Range 1-3 of him,
/// unless another shot waits; nothing else makes him fire.
pub proof fn chewbacca_avenges_friends(
    g: Game,
    content: Content,
    sight: Sight,
    d: int,
    died: bool,
)
    requires
        g.ships.len() <= usize::MAX,
        0 <= d < g.ships.len(),
        g.combat is Some,
    ensures
        ({
            let h = g.chewbacca(content, sight, d, died);
            &&& !died || g.combat->0.followup is Some ==> h == g
            &&& (forall|k: int| !#[trigger] mourns(g, content, sight, d, k)) ==> h == g
            &&& h.ships == g.ships
            &&& h.combat != g.combat ==> h.combat is Some && h.combat->0.followup is Some
                && ({
                let next = h.combat->0.followup->0;
                match next {
                    (k, shot) => mourns(g, content, sight, d, k as int) && shot.weapon is None
                        && !shot.second,
                }
            })
        }),
{
    reveal(Game::chewbacca);
    let n = g.ships.len() as int;
    let rule = g.chewie_rule(content, sight, d);
    first_is_first(rule, 0, n);
    let found = first(rule, 0, n);
    if found is Some {
        let k = found->0 as int;
        assert(rule(k));
        assert(mourns(g, content, sight, d, k));
        let options = crate::game::targets::primaries(g.options(content, sight, k));
        primaries_have_no_card(g.options(content, sight, k));
        the_preferred_is_one(options, g.ships[k].lock);
    }
}

proof fn primaries_have_no_card(options: Seq<AttackOption>)
    ensures
        forall|k: int|
            0 <= k < crate::game::targets::primaries(options).len() ==> (
            #[trigger] crate::game::targets::primaries(options)[k]).weapon is None,
    decreases options.len(),
{
    if options.len() > 0 {
        primaries_have_no_card(options.drop_last());
    }
}

proof fn the_preferred_is_one(options: Seq<AttackOption>, target: Option<ShipId>)
    ensures
        crate::game::targets::preferred(options, target) is Some ==> exists|k: int|
            0 <= k < options.len() && #[trigger] options[k] == crate::game::targets::preferred(
                options,
                target,
            )->0,
{
    crate::game::gunsights::the_nearest_is_nearest(options);
    crate::game::gunsights::the_target_is_found(options, target);
    if crate::game::targets::preferred(options, target) is Some {
        let o = crate::game::targets::preferred(options, target)->0;
        assert(options.contains(o));
        let k = choose|k: int| 0 <= k < options.len() && options[k] == o;
        assert(options[k] == o);
    }
}

/// Ship `k` is another living friend with the ability, within Range 1-3.
pub open spec fn mourns(g: Game, content: Content, sight: Sight, d: int, k: int) -> bool {
    &&& 0 <= k < g.ships.len()
    &&& k != d
    &&& g.side(g.ships[k].owner) == g.side(g.ships[d].owner)
    &&& !g.ships[k].destroyed
    &&& g.ships[k].ability(content) == Some(PilotAbility::AttackWhenFriendlyDestroyed)
    &&& g.ships[k].pose is Some && g.ships[d].pose is Some
    &&& sight.at(k, d).band is Some
}

/// Of a group that comes up, exactly the living fire.
pub proof fn the_living_of_a_group_fire(g: Game, group: Seq<ShipId>, id: ShipId)
    requires
        g.ships.len() <= usize::MAX,
    ensures
        g.survivors(group).contains(id) <==> group.contains(id) && exists|k: int|
            0 <= k < g.ships.len() && (#[trigger] g.ships[k]).id == id && !g.ships[k].destroyed,
    decreases group.len(),
{
    if group.len() > 0 {
        let less = group.drop_last();
        the_living_of_a_group_fire(g, less, id);
        let rest = g.survivors(less);
        let all = g.survivors(group);
        let last = group.last();
        let n = g.ships.len() as int;
        let rule = g.living_rule(last);
        first_is_first(rule, 0, n);
        let lives = first(rule, 0, n) is Some;
        assert(lives <==> exists|k: int|
            0 <= k < n && (#[trigger] g.ships[k]).id == last && !g.ships[k].destroyed) by {
            if lives {
                assert(rule(first(rule, 0, n)->0 as int));
                assert(g.ships[first(rule, 0, n)->0 as int].id == last);
            }
            if exists|k: int|
                0 <= k < n && (#[trigger] g.ships[k]).id == last && !g.ships[k].destroyed {
                let k = choose|k: int|
                    0 <= k < n && (#[trigger] g.ships[k]).id == last && !g.ships[k].destroyed;
                assert(rule(k));
            }
        }
        assert(group.contains(id) <==> less.contains(id) || last == id) by {
            if group.contains(id) {
                let k = choose|k: int| 0 <= k < group.len() && group[k] == id;
                if k < less.len() {
                    assert(less[k] == id);
                }
            }
            if less.contains(id) {
                let k = choose|k: int| 0 <= k < less.len() && less[k] == id;
                assert(group[k] == id);
            }
            assert(group[group.len() - 1] == last);
        }
        assert(all.contains(id) <==> rest.contains(id) || (lives && last == id)) by {
            if all.contains(id) {
                let k = choose|k: int| 0 <= k < all.len() && all[k] == id;
                if k < rest.len() {
                    assert(rest[k] == id);
                }
            }
            if rest.contains(id) {
                let k = choose|k: int| 0 <= k < rest.len() && rest[k] == id;
                assert(all[k] == id);
            }
            if lives {
                assert(all[rest.len() as int] == last);
            }
        }
    }
}

} // verus!
