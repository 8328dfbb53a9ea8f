//! Turns of fortune: damage that is turned aside, tokens that are shed, locks
//! that are shaken off, and actions out of turn.

use vstd::prelude::*;

use crate::action::{PlannedAction, SecondActionKind};
use crate::crit::{drawn, CritEffect};
use crate::data::Content;
use crate::dice::AttackFace;
use crate::event::{Event, Locker, Why};
use crate::game::actions::Moves;
use crate::game::arsenal::one_more;
use crate::game::bonds::{a_spent_lock_is_gone, a_taken_lock_is_held, own_locks_go_to_the_nearest};
use crate::game::cards::one_if;
use crate::game::hazards::{damage_takes_a_shield_first, lost_a_point, others_stay};
use crate::game::impact::Toll;
use crate::game::state::{Game, Play, Shot};
use crate::game::tokens::face_count;
use crate::maneuver::Difficulty;
use crate::pick::{first, first_is_first};
use crate::pilot::PilotAbility;
use crate::ship::ShipModel;
use crate::sight::Sight;
use crate::upgrade::UpgradeEffect;

verus! {

/// Chewbacca flips a faceup card at once, and Determination discards one on
/// the pilot: the card does nothing then.
pub proof fn some_cards_do_nothing(p: Play, content: Content, i: int, card: CritEffect)
    requires
        0 <= i < p.game.ships.len(),
    ensures
        ({
            let (q, extra) = p.crit(content, i, card);
            let pilot = card == CritEffect::BlindedPilot || card == CritEffect::DamagedCockpit
                || card == CritEffect::InjuredPilot || card == CritEffect::StunnedPilot;
            let flips = p.game.ships[i].ability(content) == Some(
                PilotAbility::FlipCritFacedownImmediately,
            );
            let shrugs = pilot && p.game.has(
                content,
                i,
                UpgradeEffect::DiscardPilotCritImmediately,
            );
            flips || shrugs ==> q.game.ships == p.game.ships && q.dice == p.dice && extra == (
                0u8,
                0u8,
            )
        }),
{
    reveal(Play::crit);
}

/// Chewbacca (crew) takes the damage card away: a hull point is back, and a
/// shield where one is lost.
pub proof fn chewbacca_takes_the_card(p: Play, content: Content, i: int, card: CritEffect)
    requires
        0 <= i < p.game.ships.len(),
        p.game.ships[i].ability(content) is None,
        !p.game.has(content, i, UpgradeEffect::DiscardPilotCritImmediately),
        p.game.card(content, i, UpgradeEffect::CrewDiscardDamageRecoverShield) is Some,
    ensures
        ({
            let (q, extra) = p.crit(content, i, card);
            let (s, t) = (p.game.ships[i], q.game.ships[i]);
            &&& t.hull == one_more(s.hull)
            &&& t.shields == if s.shields < s.full_shields(content) {
                one_more(s.shields)
            } else {
                s.shields
            }
            &&& t.crits == s.crits
            &&& extra == (0u8, 0u8) && q.dice == p.dice
            &&& others_stay(p.game, q.game, i)
        }),
{
    reveal(Play::crit);
}

/// A critical against a living defender costs it a point, past the shields
/// where they are bypassed; one that reaches the hull of a ship that survives
/// deals a card.
pub proof fn criticals_are_dealt_one_by_one(
    p: Play,
    content: Content,
    a: int,
    d: int,
    bypass: bool,
    n: int,
    toll: Toll,
)
    requires
        0 <= d < p.game.ships.len(),
        n > 0,
        toll.shields < u8::MAX,
        toll.hull < u8::MAX,
        toll.crits < u8::MAX,
    ensures
        ({
            let s = p.game.ships[d];
            let hull = s.hull > 0 && (bypass || s.shields == 0);
            let after = p.at(
                if bypass {
                    p.game.hulled(d)
                } else {
                    p.game.damaged(d)
                },
            );
            let next = Toll {
                shields: (toll.shields + one_if(!bypass && s.shields > 0)) as u8,
                hull: (toll.hull + one_if(hull)) as u8,
                crits: (toll.crits + one_if(hull)) as u8,
            };
            let all = p.crits_dealt(content, a, d, bypass, n, toll);
            let dealt = after.card_dealt(content, a, d);
            &&& s.destroyed ==> all == (p, toll)
            &&& !s.destroyed && (!hull || after.game.ships[d].destroyed) ==> all
                == after.crits_dealt(content, a, d, bypass, n - 1, next)
            &&& !s.destroyed && hull && !after.game.ships[d].destroyed ==> all
                == dealt.0.crits_dealt(content, a, d, bypass, n - 1, next.plus(dealt.1))
        }),
        p.crits_dealt(content, a, d, bypass, 0, toll) == (p, toll),
{
}

/// An attack deals the next card of the deck; Maarek Stele looks at three and
/// deals one of them.
pub proof fn attacks_deal_the_next_card(p: Play, content: Content, a: int)
    ensures
        ({
            let (q, card) = p.dealt(content, a);
            let stele = p.game.ships[a].ability(content) == Some(
                PilotAbility::ChooseCritFromThree,
            );
            let two = p.dice.rolled();
            &&& !stele ==> card == drawn(p.dice.shows()) && q.dice == two
            &&& stele ==> (card == drawn(p.dice.shows()) || card == drawn(two.shows()) || card
                == drawn(two.rolled().shows())) && q.dice == two.rolled().rolled()
            &&& q.game.ships == p.game.ships
        }),
{
}

/// Daredevil throws two dice: each hit and each critical counts.
pub proof fn daredevils_count_both_dice(x: AttackFace, y: AttackFace, want: AttackFace)
    ensures
        face_count(x, y, want) == one_if(x == want) + one_if(y == want),
{
}

/// Electronic Baffle sheds ion tokens one by one: each costs a point, and none
/// is shed that would cost the last one.
pub proof fn baffles_shed_ion_for_damage(g: Game, i: int)
    requires
        0 <= i < g.ships.len(),
    ensures
        ({
            let s = g.ships[i];
            let hurt = g.damaged(i);
            let next = hurt.with_ship(
                i,
                ShipModel { ion: (s.ion - 1) as u8, ..hurt.ships[i] },
            ).saying(Event::BaffleIon(i as usize));
            &&& s.ion == 0 || (s.shields == 0 && s.hull <= 1) ==> g.shedding_ion(i) == g
            &&& s.ion > 0 && (s.shields > 0 || s.hull > 1) ==> g.shedding_ion(i)
                == next.shedding_ion(i) && lost_a_point(s, hurt.ships[i])
        }),
{
    damage_takes_a_shield_first(g, i);
}

/// Black One frees the first of the friends, the ship itself before others,
/// that an enemy holds a lock on: the first such enemy loses it.
pub proof fn black_one_frees_a_friend(g: Game, i: int, friends: Seq<usize>, k: int, e: int)
    requires
        g.ships.len() <= usize::MAX,
        0 <= i < g.ships.len(),
        0 <= k < friends.len(),
        friends[k] < g.ships.len(),
        0 <= e < g.ships.len(),
        stalks(g, i, friends[k] as int, e),
        forall|j: int| 0 <= j < e ==> !#[trigger] stalks(g, i, friends[k] as int, j),
    ensures
        ({
            let h = g.freeing_from(i, friends, k);
            let id = g.ships[friends[k] as int].id;
            h.ships[e].lock != Some(id) && h.ships[e].lock2 != Some(id) && others_stay(g, h, e)
        }),
{
    let id = g.ships[friends[k] as int].id;
    let rule = g.lock_holder_rule(i, id);
    first_is_first(rule, 0, g.ships.len() as int);
    assert(rule(e));
    let f = first(rule, 0, g.ships.len() as int)->0 as int;
    assert(rule(f));
    if f < e {
        assert(stalks(g, i, friends[k] as int, f));
    } else if e < f {
        assert(!rule(e));
    }
    a_spent_lock_is_gone(g.ships[e], id);
}

/// Ship `e` is an enemy of ship `i` with a lock on ship `f`.
pub open spec fn stalks(g: Game, i: int, f: int, e: int) -> bool {
    &&& g.side(g.ships[e].owner) != g.side(g.ships[i].owner)
    &&& g.ships[e].lock == Some(g.ships[f].id) || g.ships[e].lock2 == Some(g.ships[f].id)
}

/// A ship that locks by itself holds a lock on the enemy it chose; where it
/// can choose none nothing happens.
pub proof fn own_locks_are_held(
    g: Game,
    content: Content,
    sight: Sight,
    i: int,
    bands: u8,
    who: Locker,
)
    requires
        g.ships.len() <= usize::MAX,
        0 <= i < g.ships.len(),
    ensures
        ({
            let h = g.auto_locking(content, sight, i, bands, who);
            let to = g.lock_choice(content, sight, i, bands);
            &&& to is None ==> h == g
            &&& to is Some ==> ({
                let id = g.ships[to->0 as int].id;
                h.ships[i].lock == Some(id) || h.ships[i].lock2 == Some(id)
            })
            &&& others_stay(g, h, i)
        }),
{
    own_locks_go_to_the_nearest(g, content, sight, i, bands, 0);
    let to = g.lock_choice(content, sight, i, bands);
    if to is Some {
        a_taken_lock_is_held(g, content, i, to->0 as int);
    }
}

/// Commander Alozen locks at Range 1 at the start of combat, and nobody else
/// does.
pub proof fn alozen_locks_at_range_one(g: Game, content: Content, sight: Sight, i: int)
    ensures
        g.alozen(content, sight, i) == if g.ships[i].ability(content) == Some(
            PilotAbility::LockAtRange1AtCombatStart,
        ) {
            g.auto_locking(content, sight, i, 1, Locker::CommanderAlozen)
        } else {
            g
        },
{
    reveal(Game::alozen);
}

/// A second action that waits for the attack stays planned; any other is taken
/// up when the ship is readied. Without Advanced Sensors or a free roll no
/// action comes before the maneuver.
pub proof fn readied_ships_take_up_their_plan(
    g: Game,
    content: Content,
    sight: Sight,
    moves: Moves,
    i: int,
    color: Difficulty,
)
    requires
        0 <= i < g.ships.len(),
        !g.has(content, i, UpgradeEffect::SystemFreeActionBeforeReveal),
        g.second_action(content, i) != Some(SecondActionKind::RollOnGreenReveal),
    ensures
        ({
            let (h, r) = g.readied(content, sight, moves, i, color);
            let waits = g.second_action(content, i) == Some(
                SecondActionKind::RepositionAfterAttack,
            );
            &&& r.second == g.second_action(content, i)
            &&& r.pre is None
            &&& r.planned2 == if waits {
                None
            } else {
                g.ships[i].planned_action2
            }
            &&& h.ships[i] == if waits {
                g.ships[i]
            } else {
                ShipModel { planned_action2: None, ..g.ships[i] }
            }
            &&& others_stay(g, h, i)
        }),
{
    reveal(Game::readied);
    reveal(Game::acted_first);
    let s = ShipModel { planned_action2: None, ..g.ships[i] };
    assert(s.effects(content, UpgradeEffect::SystemFreeActionBeforeReveal) == g.ships[i].effects(
        content,
        UpgradeEffect::SystemFreeActionBeforeReveal,
    ));
}

/// Advanced Sensors bring a token, lock or card action before the maneuver: it
/// is performed, and not planned any more.
pub proof fn sensors_act_before_the_maneuver(
    g: Game,
    content: Content,
    sight: Sight,
    moves: Moves,
    i: int,
    second: Option<SecondActionKind>,
    planned2: Option<PlannedAction>,
    color: Difficulty,
)
    requires
        0 <= i < g.ships.len(),
        second != Some(SecondActionKind::RollOnGreenReveal),
    ensures
        ({
            let (h, left, pre) = g.acted_first(
                content,
                sight,
                moves,
                i,
                second,
                planned2,
                color,
            );
            let a = g.ships[i].planned_action;
            let early = a == Some(PlannedAction::Focus) || a == Some(PlannedAction::Evade) || (a
                is Some && (a->0 is TargetLock || a->0 is CardAction));
            let acts = early && g.has(content, i, UpgradeEffect::SystemFreeActionBeforeReveal)
                && g.ships[i].free_to_act(content);
            let idle = g.with_ship(i, ShipModel { planned_action: None, ..g.ships[i] });
            let made = idle.performing(content, sight, moves, i, a->0);
            &&& left == planned2
            &&& !acts ==> h == g && pre is None
            &&& acts ==> h.ships == made.0.ships && pre == Some((a->0, made.1))
        }),
{
    reveal(Game::acted_first);
}

/// Turr Phennir repositions after his attack as planned, after the second one
/// of a weapon that fires twice; nobody else does.
pub proof fn turr_repositions_after_his_attack(
    g: Game,
    content: Content,
    sight: Sight,
    moves: Moves,
    a: int,
    shot: Shot,
)
    requires
        0 <= a < g.ships.len(),
    ensures
        ({
            let (h, made) = g.turr(content, sight, moves, a, shot);
            let s = g.ships[a];
            let last = !shot.twice(content) || shot.second;
            let acts = last && s.planned_action2 is Some && s.ability(content) == Some(
                PilotAbility::FreeRepositionAfterAttack,
            );
            let idle = g.with_ship(a, ShipModel { planned_action2: None, ..s });
            let done = idle.performing(content, sight, moves, a, s.planned_action2->0);
            &&& !acts ==> h == g && made is None
            &&& acts && !idle.ships[a].free_to_act(content) ==> h == idle && made is None
            &&& acts && idle.ships[a].free_to_act(content) ==> h.ships == done.0.ships
            &&& made is Some ==> made->0.action == s.planned_action2->0 && made->0.result == done.1
        }),
{
    reveal(Game::turr);
}

/// Opportunist takes stress for a die against a defender without focus and
/// evade tokens, and only unstressed.
pub proof fn opportunists_strike_the_bare(g: Game, content: Content, a: int, d: int)
    ensures
        g.opportune(content, a, d) <==> g.has(
            content,
            a,
            UpgradeEffect::ExtraAttackDieForStress,
        ) && g.ships[a].stress == 0 && g.ships[d].focus == 0 && g.ships[d].evade == 0,
{
}

/// Leia Organa (crew) is discarded for a red that a living friend has dialed,
/// and that side flies reds as white; else nothing happens.
pub proof fn leia_whitens_the_reds(g: Game, content: Content, k: int)
    requires
        g.ships.len() <= usize::MAX,
        0 <= k < g.ships.len(),
        g.ships[k].owner.0 < g.white_reds.len(),
    ensures
        ({
            let h = g.leia(content, k);
            let owner = g.ships[k].owner.0 as int;
            let card = g.card(content, k, UpgradeEffect::CrewRedAsWhiteForAll);
            let acts = !g.ships[k].destroyed && !g.white_reds[owner] && card is Some && g.has(
                content,
                k,
                UpgradeEffect::CrewRedAsWhiteForAll,
            ) && exists|j: int| #[trigger] dials_red(g, content, k, j);
            &&& !acts ==> h == g
            &&& acts ==> h.white_reds == g.white_reds.update(owner, true) && h.ships
                == g.discarding(content, k, card->0, Why::RedsFlownWhite).ships
        }),
{
    reveal(Game::leia);
    let rule = g.red_rule(content, k);
    first_is_first(rule, 0, g.ships.len() as int);
    let found = first(rule, 0, g.ships.len() as int);
    if found is Some {
        assert(rule(found->0 as int));
        assert(dials_red(g, content, k, found->0 as int));
    }
    if exists|j: int| #[trigger] dials_red(g, content, k, j) {
        let j = choose|j: int| #[trigger] dials_red(g, content, k, j);
        assert(rule(j));
    }
}

/// Ship `j` is a living friend of ship `k` with a red maneuver dialed.
pub open spec fn dials_red(g: Game, content: Content, k: int, j: int) -> bool {
    &&& 0 <= j < g.ships.len()
    &&& g.side(g.ships[j].owner) == g.side(g.ships[k].owner)
    &&& !g.ships[j].destroyed
    &&& g.ships[j].plan is Some
    &&& g.difficulty(
        content,
        j,
        content.dial(g.ships[j].class)[g.ships[j].plan->0 as int],
    ).0 == Difficulty::Hard
}

} // verus!
