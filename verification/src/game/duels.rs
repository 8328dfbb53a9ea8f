//! An attack without cards, die by die and token by token.

use vstd::prelude::*;

use crate::crit::CritEffect;
use crate::data::Content;
use crate::dice::{
    a_lock_rerolls_every_miss, attack_face, count, count_bounded, counts_fit, defense_face, missed,
    misses, rerolling, rerolls_are_fresh_and_used, rerolls_are_limited, spot, tally, thrown,
    turned_all, turning_moves_the_count, AttackFace, DefenseFace, Face, Tape,
};
use crate::event::Event;
use crate::game::actions::Moves;
use crate::game::cards::one_if;
use crate::game::mods::Throw;
use crate::game::plain::{
    a_ship_is_plain, focuses_spare, focus_spares, no_ability_counts, no_card_counts,
    no_effect_counts, no_use_counts, saying_keeps_plain,
};
use crate::game::state::{Game, Play, Shot};
use crate::game::volley::{unspent, Spent, Verdict};
use crate::pick::{first_is_first, picked_obey};
use crate::pilot::PilotAbility;
use crate::ship::{sat, ShipId, ShipModel};
use crate::sight::Sight;
use crate::upgrade::UpgradeEffect;

verus! {

/// Nothing but the narration differs.
pub open spec fn told(g: Game, h: Game) -> bool {
    h == Game { log: h.log, ..g }
}

proof fn told_stays_plain(g: Game, h: Game, content: Content)
    requires
        told(g, h),
        g.plain(content),
    ensures
        h.plain(content),
{
    reveal(Game::plain);
}

proof fn plain_fits(g: Game, content: Content)
    requires
        g.plain(content),
    ensures
        g.ships.len() <= usize::MAX,
        g.mission is None,
{
    reveal(Game::plain);
}

proof fn nobody_is_special(g: Game, content: Content, sight: Sight, i: int, a: PilotAbility)
    requires
        g.plain(content),
        0 <= i < g.ships.len(),
    ensures
        !g.enemy_ability(content, sight, i, a),
{
    broadcast use no_ability_counts;

    reveal(Game::enemy_ability);
    plain_fits(g, content);
    let rule = g.enemy_ability_rule(content, sight, i, a);
    first_is_first(rule, 0, g.ships.len() as int);
    assert forall|e: int| 0 <= e < g.ships.len() implies !#[trigger] rule(e) by {
        assert(!g.can(content, e, a));
    }
}

/// The attack dice of a ship without cards: its printed attack, one more at
/// Range 1, one less for each Weapon Malfunction.
pub open spec fn plain_dice(g: Game, content: Content, a: int, range: u8) -> int {
    let printed = g.ships[a].printed(content).attack + one_if(range == 1);
    let lost = count(g.ships[a].crits, CritEffect::WeaponMalfunction);
    if printed >= lost {
        printed - lost
    } else {
        0
    }
}

proof fn gunnery_is_plain(g: Game, content: Content, sight: Sight, a: int, shot: Shot)
    requires
        g.plain(content),
        0 <= a < g.ships.len(),
        shot.d_idx < g.ships.len(),
        shot.weapon is None,
        g.ships[a].card_actions.len() == 0,
        !g.ships[a].crits.contains(CritEffect::BlindedPilot),
        g.ships[a].crits.len() < 256,
        g.ships[a].printed(content).attack < u8::MAX,
    ensures
        told(g, g.gunnery(content, sight, a, shot).0),
        g.gunnery(content, sight, a, shot).1 == plain_dice(g, content, a, shot.range),
{
    broadcast use {no_effect_counts, no_ability_counts};

    reveal(Game::gunnery);
    reveal(Game::dice_told);
    reveal(Game::base_dice);
    nobody_is_special(g, content, sight, a, PilotAbility::DenyEnemyRange1Bonus);
    a_ship_is_plain(g, content, a);
    count_bounded(g.ships[a].crits, CritEffect::WeaponMalfunction);
    let h = g.dice_told(content, sight, a, shot);
    assert(h == g);
    assert(g.ships[a].ability(content) is None);
    assert(g.extra_die(content, sight, a, shot.d_idx as int, shot.range) is None);
    assert(!g.ships[a].acting(content, UpgradeEffect::ExposeAction));
}

proof fn no_reroll_changes_nothing<F: Face>(faces: Seq<F>, dice: Tape, wants: Seq<F>)
    ensures
        rerolling(faces, dice, wants, 0).faces == faces,
        rerolling(faces, dice, wants, 0).dice == dice,
        rerolling(faces, dice, wants, 0).done == 0,
{
    rerolls_are_limited(faces, dice, wants, 0);
    rerolls_are_fresh_and_used(faces, dice, wants, 0);
    let h = rerolling(faces, dice, wants, 0);
    assert forall|j: int| 0 <= j < faces.len() implies h.faces[j] == faces[j] by {
        crate::dice::unrerolled_dice_stay(faces, dice, wants, 0, j);
    }
    assert(h.faces =~= faces);
}

proof fn nobody_howls(g: Game, content: Content, sight: Sight, i: int, primary: bool)
    requires
        g.plain(content),
        0 <= i < g.ships.len(),
    ensures
        g.friendly_rerolls(content, sight, i, primary) == 0,
{
    broadcast use no_ability_counts;

    plain_fits(g, content);
    let friends = g.near(sight, i, 1);
    picked_obey(g.friend_rule(sight, i, 1), 0, g.ships.len() as int);
    let rule = g.howl_rule(content, friends);
    first_is_first(rule, 0, friends.len() as int);
    assert forall|k: int| 0 <= k < friends.len() implies !#[trigger] rule(k) by {
        assert(friends[k] < g.ships.len());
        assert(!g.can(
            content,
            friends[k] as int,
            PilotAbility::FriendlyRerollAttackRange1,
        ));
    }
}

proof fn helping_is_plain(t: Throw<AttackFace>, content: Content, sight: Sight, a: int, shot: Shot)
    requires
        t.game.plain(content),
        0 <= a < t.game.ships.len(),
        shot.d_idx < t.game.ships.len(),
        shot.weapon is None,
        t.game.ships[a].card_actions.len() == 0,
    ensures
        t.helped(content, sight, a, shot) == t,
{
    broadcast use {no_effect_counts, no_ability_counts};

    reveal(Throw::befriended);
    reveal(Throw::jonus);
    nobody_howls(t.game, content, sight, a, true);
    no_reroll_changes_nothing(
        t.faces,
        t.dice,
        crate::game::mods::attack_misses(t.game.ships[a].focus),
    );
    assert(t.befriended(content, sight, a, shot) == t);
    assert(!t.game.ships[a].acting(content, UpgradeEffect::RerollUpTo3ForFocusAnd2Stress));
}

/// The attack dice as they are thrown.
pub open spec fn first_roll(dice: Tape, n: int) -> Seq<AttackFace> {
    Seq::new(n as nat, |k: int| attack_face(dice.rolled_by(k as nat).shows()))
}

/// A die of the roll that a lock would reroll: a blank, or an eye without a
/// focus token.
pub open spec fn some_miss(faces: Seq<AttackFace>, eyes: bool) -> bool {
    exists|k: int|
        0 <= k < faces.len() && (#[trigger] faces[k] == AttackFace::Blank || (eyes && faces[k]
            == AttackFace::Focus))
}

/// The dice once a lock on the defender has been spent, where it was: each
/// miss shows the next raw value of its own after the roll.
pub open spec fn second_roll(dice: Tape, n: int, lock: bool, eyes: bool) -> Seq<AttackFace> {
    let faces = first_roll(dice, n);
    if lock && some_miss(faces, eyes) {
        Seq::new(
            n as nat,
            |k: int|
                if missed(faces[k], eyes) {
                    attack_face(dice.rolled_by((n + misses(faces, eyes, k)) as nat).shows())
                } else {
                    faces[k]
                },
        )
    } else {
        faces
    }
}

proof fn rolls_add_up(dice: Tape, n: nat, m: nat)
    ensures
        dice.rolled_by(n).rolled_by(m) == dice.rolled_by(n + m),
    decreases m,
{
    if m > 0 {
        rolls_add_up(dice, n, (m - 1) as nat);
    }
}

proof fn a_miss_is_spotted(faces: Seq<AttackFace>, eyes: bool)
    requires
        faces.len() <= usize::MAX,
    ensures
        some_miss(faces, eyes) == (spot(faces, AttackFace::Blank) is Some || (eyes && spot(
            faces,
            AttackFace::Focus,
        ) is Some)),
{
    crate::dice::a_spot_is_the_first(faces, AttackFace::Blank, 0);
    crate::dice::a_spot_is_the_first(faces, AttackFace::Focus, 0);
    if spot(faces, AttackFace::Blank) is Some {
        assert(faces[spot(faces, AttackFace::Blank)->0 as int] == AttackFace::Blank);
    }
    if spot(faces, AttackFace::Focus) is Some {
        assert(faces[spot(faces, AttackFace::Focus)->0 as int] == AttackFace::Focus);
    }
    if some_miss(faces, eyes) {
        let k = choose|k: int|
            0 <= k < faces.len() && (#[trigger] faces[k] == AttackFace::Blank || (eyes && faces[k]
                == AttackFace::Focus));
        assert(faces[k] == AttackFace::Blank || faces[k] == AttackFace::Focus);
    }
}

/// A ship fires its primary weapon in a game without cards, abilities or a
/// mission, at another that lives.
pub open spec fn duel(g: Game, content: Content, a: int, shot: Shot) -> bool {
    let d = shot.d_idx as int;
    &&& g.plain(content)
    &&& 0 <= a < g.ships.len()
    &&& shot.d_idx < g.ships.len()
    &&& a != d
    &&& shot.weapon is None
    &&& !shot.focus_hit
    &&& !shot.no_mods
    &&& g.ships[a].card_actions.len() == 0
    &&& g.ships[d].card_actions.len() == 0
    &&& !g.ships[a].crits.contains(CritEffect::BlindedPilot)
    &&& g.ships[a].crits.len() < 256
    &&& g.ships[d].crits.len() < 256
    &&& g.ships[a].printed(content).attack < u8::MAX
    &&& !g.ships[d].destroyed
    &&& g.ships[d].hull >= 1
}

/// The dice that a spent focus token leaves: every eye a hit.
pub open spec fn converted(faces: Seq<AttackFace>, focus: u8) -> Seq<AttackFace> {
    Seq::new(
        faces.len(),
        |k: int|
            if focus > 0 && faces[k] == AttackFace::Focus {
                AttackFace::Hit
            } else {
                faces[k]
            },
    )
}

/// Everything up to the throw tells things, and settles who may do what.
proof fn a_plain_start(g0: Game, content: Content, sight: Sight, a: int, shot: Shot)
    requires
        duel(g0, content, a, shot),
    ensures
        ({
            let g1 = g0.declaring(content, sight, a, shot);
            let (g2, n) = g1.gunnery(content, sight, a, shot);
            &&& g1.arming(content, sight, a, shot) == (g1, unspent())
            &&& n == plain_dice(g0, content, a, shot.range)
            &&& told(g0, g2)
            &&& g2.plain(content)
            &&& g2.verdict(content, sight, a, shot) == (Verdict {
                modify: true,
                spend: true,
                focus: true,
                guard: true,
            })
            &&& g2.judged(
                content,
                a,
                shot,
                Verdict { modify: true, spend: true, focus: true, guard: true },
            ) == g2
        }),
{
    broadcast use {no_effect_counts, no_use_counts, no_ability_counts};

    let g1 = g0.declaring(content, sight, a, shot);
    saying_keeps_plain(g0, content, Event::Obstructed(a as usize));
    assert(told(g0, g1)) by {
        reveal(Game::declaring);
    }
    told_stays_plain(g0, g1, content);
    reveal(Game::arming);
    gunnery_is_plain(g1, content, sight, a, shot);
    let (g2, n) = g1.gunnery(content, sight, a, shot);
    told_stays_plain(g1, g2, content);
    nobody_is_special(g2, content, sight, a, PilotAbility::DenyFocusEvadeAtRange1);
    reveal(Game::verdict);
    reveal(Game::judged);
}

proof fn nothing_is_tampered_with(
    g: Game,
    content: Content,
    sight: Sight,
    a: int,
    shot: Shot,
    faces: Seq<AttackFace>,
)
    requires
        g.plain(content),
        0 <= a < g.ships.len(),
        shot.d_idx < g.ships.len(),
    ensures
        g.tampering(content, sight, a, shot, faces) == (g, faces, false),
{
    broadcast use no_effect_counts;

    reveal(Game::tampering);
}

/// The lock is spent on the misses, and nothing else is done to the dice.
proof fn a_plain_aim(
    g: Game,
    start: Tape,
    n: nat,
    content: Content,
    sight: Sight,
    a: int,
    shot: Shot,
)
    requires
        duel(g, content, a, shot),
        n <= u8::MAX,
    ensures
        ({
            let s = g.ships[a];
            let defender = g.ships[shot.d_idx as int].id;
            let eyes = s.focus == 0;
            let faces = first_roll(start, n as int);
            let lock = s.locks(defender) && some_miss(faces, eyes);
            let v = Verdict { modify: true, spend: true, focus: true, guard: true };
            let (t, spent) = Throw { game: g, dice: start.rolled_by(n), faces }.aimed(
                content,
                sight,
                a,
                shot,
                v,
                unspent(),
            );
            &&& spent == (Spent { lock, focus: false, frozen: false, all_crits: false })
            &&& t.faces == second_roll(start, n as int, s.locks(defender), eyes)
            &&& t.dice == start.rolled_by(
                (n + if lock {
                    misses(faces, eyes, n as int)
                } else {
                    0
                }) as nat,
            )
            &&& t.game == if lock {
                g.with_ship(a, s.unlocking(defender))
            } else {
                g
            }
            &&& t.game.plain(content)
        }),
{
    let s = g.ships[a];
    let defender = g.ships[shot.d_idx as int].id;
    let eyes = s.focus == 0;
    let faces = first_roll(start, n as int);
    let dice = start.rolled_by(n);
    let t3 = Throw { game: g, dice, faces };
    a_miss_is_spotted(faces, eyes);
    a_lock_rerolls_every_miss(faces, dice, eyes);
    let (t4, lock) = t3.lock_spent(a, defender);
    let rolled = second_roll(start, n as int, s.locks(defender), eyes);
    assert(lock == (s.locks(defender) && some_miss(faces, eyes)) && t4.game == (if lock {
        g.with_ship(a, s.unlocking(defender))
    } else {
        g
    }) && t4.faces =~= rolled && t4.dice == start.rolled_by(
        (n + if lock {
            misses(faces, eyes, n as int)
        } else {
            0
        }) as nat,
    )) by {
        reveal(Throw::lock_spent);
        rolls_add_up(start, n, misses(faces, eyes, n as int));
        assert forall|k: int| 0 <= k < faces.len() && lock implies t4.faces[k] == rolled[k] by {
            rolls_add_up(start, n, misses(faces, eyes, k));
        }
    }
    a_ship_is_plain(g, content, a);
    crate::game::plain::a_plain_ship_stays_plain(g, content, a, s.unlocking(defender));
    helping_is_plain(t4, content, sight, a, shot);
    aiming_is_locking(t3, content, sight, a, shot);
}

proof fn aiming_is_locking(
    t: Throw<AttackFace>,
    content: Content,
    sight: Sight,
    a: int,
    shot: Shot,
)
    requires
        duel(t.game, content, a, shot),
    ensures
        ({
            let v = Verdict { modify: true, spend: true, focus: true, guard: true };
            let (u, lock) = t.lock_spent(a, t.game.ships[shot.d_idx as int].id);
            t.aimed(content, sight, a, shot, v, unspent()) == (
                u.helped(content, sight, a, shot),
                Spent { lock, focus: false, frozen: false, all_crits: false },
            )
        }),
{
    broadcast use {no_effect_counts, no_ability_counts};

    reveal(Throw::aimed);
    reveal(Throw::han_solo);
    reveal(Game::computing);
    reveal(Game::han_crew);
    reveal(Game::omega_ace);
}

proof fn nothing_is_converted(
    g: Game,
    content: Content,
    a: int,
    shot: Shot,
    faces: Seq<AttackFace>,
)
    requires
        g.plain(content),
        0 <= a < g.ships.len(),
        shot.weapon is None,
        !shot.focus_hit,
        g.ships[a].card_actions.len() == 0,
    ensures
        g.converting(content, a, shot, faces) == (g, faces),
{
    broadcast use {no_effect_counts, no_use_counts, no_ability_counts};

    reveal(Game::converting);
    reveal(Game::kir_kanos);
    reveal(Game::swapping);
    reveal(Game::chips);
    reveal(Game::marksman);
    reveal(Game::expertise);
    reveal(Game::marked);
    assert(!g.ships[a].acting(content, UpgradeEffect::FocusToCritOthersToHitAction));
}

/// A focus token is spent on eyes, and on nothing else.
proof fn a_plain_focus(g: Game, content: Content, sight: Sight, a: int, faces: Seq<AttackFace>)
    requires
        g.plain(content),
        0 <= a < g.ships.len(),
        faces.len() <= u8::MAX,
    ensures
        ({
            let s = g.ships[a];
            let v = Verdict { modify: true, spend: true, focus: true, guard: true };
            let spends = s.focus > 0 && faces.contains(AttackFace::Focus);
            let (h, after, focus) = g.spending(content, sight, a, v, 0, faces);
            &&& focus == spends
            &&& after == converted(faces, s.focus)
            &&& h == if spends {
                g.with_ship(a, ShipModel { focus: (s.focus - 1) as u8, ..s })
            } else {
                g
            }
            &&& h.plain(content)
        }),
{
    broadcast use no_effect_counts;

    reveal(Game::spending);
    reveal(Game::calculating);
    reveal(Game::focusing_in);
    reveal(Game::guiding);
    let s = g.ships[a];
    let v = Verdict { modify: true, spend: true, focus: true, guard: true };
    crate::dice::a_spot_is_the_first(faces, AttackFace::Focus, 0);
    if faces.contains(AttackFace::Focus) {
        let k = choose|k: int| 0 <= k < faces.len() && faces[k] == AttackFace::Focus;
        assert(faces[k] == AttackFace::Focus);
    } else if spot(faces, AttackFace::Focus) is Some {
        assert(faces[spot(faces, AttackFace::Focus)->0 as int] == AttackFace::Focus);
    }
    a_ship_is_plain(g, content, a);
    crate::game::plain::a_plain_ship_stays_plain(g, content, a, s.less_focus());
    focuses_spare(g.with_ship(a, s.less_focus()), content, sight, a, 1);
    focuses_spare(g, content, sight, a, 0);
    let after = g.spending(content, sight, a, v, 0, faces).1;
    assert forall|k: int| 0 <= k < faces.len() implies after[k] == converted(
        faces,
        s.focus,
    )[k] by {
        if faces[k] == AttackFace::Focus {
            assert(faces.contains(AttackFace::Focus));
        }
    }
    assert(after =~= converted(faces, s.focus));
}

/// Nothing comes of the rest of the attacker's dice.
proof fn a_plain_finish(
    t: Throw<AttackFace>,
    content: Content,
    sight: Sight,
    a: int,
    d: int,
)
    requires
        t.game.plain(content),
        0 <= a < t.game.ships.len(),
        0 <= d < t.game.ships.len(),
    ensures
        t.game.r3_astromech(content, a, true, t.faces) == (t.game, t.faces),
        t.forced(content, sight, a, d) == t,
        t.game.correcting(content, a, true, t.faces) == (t.game, t.faces),
        t.game.wampa(content, a, t.faces) == (t.game, t.faces, false),
{
    broadcast use {no_effect_counts, no_use_counts, no_ability_counts};

    let g = t.game;
    reveal(Game::r3_astromech);
    reveal(Game::correcting);
    reveal(Game::wampa);
    let rule = g.m9g8_rule(content, a);
    plain_fits(g, content);
    assert forall|k: int| 0 <= k < g.ships.len() implies !#[trigger] rule(k) by {
        assert(!g.has(content, k, UpgradeEffect::ForceRerollLockedAttacker));
    }
    crate::game::plain::nobody_is_picked(rule, g.ships.len() as int);
}

/// What the attacker has spent on its dice.
pub open spec fn spent_on_dice(s: ShipModel, defender: ShipId, lock: bool, focus: bool) -> ShipModel {
    ShipModel {
        focus: if focus {
            (s.focus - 1) as u8
        } else {
            s.focus
        },
        ..if lock {
            s.unlocking(defender)
        } else {
            s
        }
    }
}

/// The roll of a plain attack: so many dice, each showing its own raw value;
/// a lock rerolls the misses, and a focus token turns the eyes into hits.
/// Nobody but the attacker changes, and it only by the tokens it spends.
pub(crate) proof fn the_plain_roll(p: Play, content: Content, sight: Sight, a: int, shot: Shot)
    requires
        duel(p.game, content, a, shot),
    ensures
        ({
            let g = p.game;
            let s = g.ships[a];
            let defender = g.ships[shot.d_idx as int].id;
            let n = plain_dice(g, content, a, shot.range);
            let eyes = s.focus == 0;
            let faces = first_roll(p.dice, n);
            let rolled = second_roll(p.dice, n, s.locks(defender), eyes);
            let lock = s.locks(defender) && some_miss(faces, eyes);
            let focus = s.focus > 0 && rolled.contains(AttackFace::Focus);
            let aimed = p.attack_rolled(content, sight, a, shot);
            &&& 0 <= n <= u8::MAX
            &&& aimed.throw.faces == converted(rolled, s.focus)
            &&& aimed.spent.lock == lock
            &&& aimed.spent.focus == focus
            &&& aimed.throw.dice == p.dice.rolled_by(
                (n + if lock {
                    misses(faces, eyes, n)
                } else {
                    0
                }) as nat,
            )
            &&& !aimed.wampa
            &&& aimed.verdict.guard && aimed.verdict.modify
            &&& aimed.throw.game.plain(content)
            &&& told(
                g.with_ship(a, spent_on_dice(s, defender, lock, focus)),
                aimed.throw.game,
            )
        }),
{
    reveal(Play::attack_rolled);
    let d = shot.d_idx as int;
    let g0 = p.game;
    let s = g0.ships[a];
    let defender = g0.ships[d].id;
    let eyes = s.focus == 0;
    a_plain_start(g0, content, sight, a, shot);
    let g1 = g0.declaring(content, sight, a, shot);
    let (g2, n) = g1.gunnery(content, sight, a, shot);
    let faces = thrown::<AttackFace>(p.dice, n as nat);
    assert(faces =~= first_roll(p.dice, n as int));
    nothing_is_tampered_with(g2, content, sight, a, shot, faces);
    assert(duel(g2, content, a, shot));
    a_plain_aim(g2, p.dice, n as nat, content, sight, a, shot);
    let v = Verdict { modify: true, spend: true, focus: true, guard: true };
    let (t, spent) = Throw { game: g2, dice: p.dice.rolled_by(n as nat), faces }.aimed(
        content,
        sight,
        a,
        shot,
        v,
        unspent(),
    );
    nothing_is_converted(t.game, content, a, shot, t.faces);
    a_plain_focus(t.game, content, sight, a, t.faces);
    let (h, after, focus) = t.game.spending(content, sight, a, v, 0, t.faces);
    a_plain_finish(Throw { game: h, dice: t.dice, faces: after }, content, sight, a, d);
    let last = spent_on_dice(s, defender, spent.lock, focus);
    assert(h.ships =~= g0.with_ship(a, last).ships) by {
        assert(h.ships[a] == last);
    }
}

/// The defense dice of a ship without cards: its printed agility less
/// Structural Damage and tractor tokens, one more at Range 3 and one more
/// behind an obstacle.
pub open spec fn plain_guard(
    g: Game,
    content: Content,
    d: int,
    range: u8,
    obstructed: bool,
) -> int {
    let s = g.ships[d];
    let lost = count(s.crits, CritEffect::StructuralDamage) + s.tractor;
    let left = if s.printed(content).agility >= lost {
        s.printed(content).agility - lost
    } else {
        0
    };
    left + one_if(range == 3) + one_if(obstructed)
}

/// The defense dice as they are thrown.
pub open spec fn guard_roll(dice: Tape, n: int) -> Seq<DefenseFace> {
    Seq::new(n as nat, |k: int| defense_face(dice.rolled_by(k as nat).shows()))
}

/// The defense dice with every eye an evade.
pub open spec fn guarded_by_focus(faces: Seq<DefenseFace>) -> Seq<DefenseFace> {
    Seq::new(
        faces.len(),
        |k: int|
            if faces[k] == DefenseFace::Focus {
                DefenseFace::Evade
            } else {
                faces[k]
            },
    )
}

proof fn a_plain_agility(g: Game, content: Content, sight: Sight, a: int, d: int)
    requires
        g.plain(content),
        0 <= a < g.ships.len(),
        0 <= d < g.ships.len(),
        g.ships[d].card_actions.len() == 0,
        g.ships[d].crits.len() < 256,
    ensures
        g.guard_agility(content, sight, a, d) == (
            g,
            plain_guard(g, content, d, 0, false) as u8,
        ),
        0 <= plain_guard(g, content, d, 0, false) <= u8::MAX,
{
    broadcast use {no_effect_counts, no_ability_counts};

    reveal(Game::guard_agility);
    reveal(Game::lowering);
    reveal(Game::agility);
    reveal(Game::intimidated);
    a_ship_is_plain(g, content, d);
    plain_fits(g, content);
    count_bounded(g.ships[d].crits, CritEffect::StructuralDamage);
    let rule = g.intimidator_rule(content, sight, d);
    first_is_first(rule, 0, g.ships.len() as int);
    assert forall|k: int| 0 <= k < g.ships.len() implies !#[trigger] rule(k) by {
        assert(!g.has(content, k, UpgradeEffect::ReduceAgilityWhileTouching));
    }
    assert(g.ships[d].effects(content, UpgradeEffect::AgilityPlus1DiscardWhenHit) == 0);
    assert(!g.ships[d].acting(content, UpgradeEffect::AgilityPlus1Action));
    assert(!g.ships[d].acting(content, UpgradeEffect::ExposeAction));
}

proof fn a_plain_guard(
    p: Play,
    content: Content,
    sight: Sight,
    a: int,
    shot: Shot,
    attackers: nat,
)
    requires
        p.game.plain(content),
        0 <= a < p.game.ships.len(),
        shot.d_idx < p.game.ships.len(),
        shot.weapon is None,
        p.game.ships[shot.d_idx as int].card_actions.len() == 0,
        p.game.ships[shot.d_idx as int].crits.len() < 256,
        p.game.ships[shot.d_idx as int].printed(content).agility < 254,
    ensures
        ({
            let d = shot.d_idx as int;
            let n = plain_guard(p.game, content, d, shot.range, sight.at(a, d).obstructed);
            Throw {
                game: p.game,
                dice: p.dice,
                faces: Seq::<DefenseFace>::empty(),
            }.guarded(content, sight, a, shot, attackers) == (Throw {
                game: p.game,
                dice: p.dice.rolled_by(n as nat),
                faces: guard_roll(p.dice, n),
            })
        }),
{
    broadcast use no_effect_counts;

    let d = shot.d_idx as int;
    reveal(Throw::guarded);
    reveal(Throw::framed);
    reveal(Throw::finn);
    a_plain_agility(p.game, content, sight, a, d);
    let n = plain_guard(p.game, content, d, shot.range, sight.at(a, d).obstructed);
    assert(thrown::<DefenseFace>(p.dice, n as nat) =~= guard_roll(p.dice, n));
}

proof fn nothing_is_dodged(
    t: Throw<DefenseFace>,
    content: Content,
    sight: Sight,
    a: int,
    shot: Shot,
    incoming: u8,
)
    requires
        t.game.plain(content),
        0 <= a < t.game.ships.len(),
        shot.d_idx < t.game.ships.len(),
    ensures
        t.game.guessing(content, shot.d_idx as int, incoming, t.faces) == (t.game, t.faces),
        t.dodged(content, sight, a, shot.d_idx as int, incoming) == t,
        t.game.deflecting(content, sight, a, shot, incoming, t.faces) == (t.game, t.faces),
        t.game.guard_may_spend(content, sight, a, shot.d_idx as int, true) == !sight.at(
            a,
            shot.d_idx as int,
        ).bullseye,
{
    broadcast use {no_effect_counts, no_use_counts, no_ability_counts};

    let d = shot.d_idx as int;
    reveal(Game::guessing);
    reveal(Throw::dodged);
    reveal(Throw::friend_dodged);
    reveal(Throw::instructed);
    reveal(Game::deflecting);
    reveal(Game::dodging);
    reveal(Game::guard_may_spend);
    reveal(Game::marked);
    nobody_howls(t.game, content, sight, d, false);
    no_reroll_changes_nothing(
        t.faces,
        t.dice,
        crate::game::mods::defense_misses(t.game.ships[d].focus),
    );
    nobody_is_special(t.game, content, sight, d, PilotAbility::DenyFocusEvadeAtRange1);
}

/// What the defender has spent.
pub open spec fn spent_on_guard(s: ShipModel, focus: bool, evade: bool) -> ShipModel {
    ShipModel {
        focus: if focus {
            (s.focus - 1) as u8
        } else {
            s.focus
        },
        evade: if evade {
            (s.evade - 1) as u8
        } else {
            s.evade
        },
        ..s
    }
}

/// The defense roll of a plain attack: a focus token, then an evade token, is
/// spent where it still stops damage, but not in the attacker's bullseye lane.
pub(crate) proof fn the_plain_guard(
    p: Play,
    content: Content,
    sight: Sight,
    a: int,
    shot: Shot,
    attackers: nat,
    incoming: u8,
    v: Verdict,
)
    requires
        p.game.plain(content),
        0 <= a < p.game.ships.len(),
        shot.d_idx < p.game.ships.len(),
        a != shot.d_idx,
        shot.weapon is None,
        p.game.ships[shot.d_idx as int].card_actions.len() == 0,
        p.game.ships[shot.d_idx as int].crits.len() < 256,
        p.game.ships[shot.d_idx as int].printed(content).agility < 254,
        v.guard,
    ensures
        ({
            let d = shot.d_idx as int;
            let line = sight.at(a, d);
            let s = p.game.ships[d];
            let n = plain_guard(p.game, content, d, shot.range, line.obstructed);
            let faces = guard_roll(p.dice, n);
            let bare = count(faces, DefenseFace::Evade);
            let focus = !line.bullseye && s.focus > 0 && faces.contains(DefenseFace::Focus)
                && bare < incoming;
            let shown = if focus {
                guarded_by_focus(faces)
            } else {
                faces
            };
            let evades = count(shown, DefenseFace::Evade);
            let evade = !line.bullseye && s.evade > 0 && evades < incoming;
            let guarded = p.defense_rolled(content, sight, a, shot, attackers, incoming, v);
            &&& guarded.throw.faces == shown
            &&& guarded.focus == focus
            &&& guarded.evade == evade
            &&& guarded.evades == evades + one_if(evade)
            &&& guarded.throw.dice == p.dice.rolled_by(n as nat)
            &&& guarded.throw.game == p.game.with_ship(d, spent_on_guard(s, focus, evade))
        }),
{
    broadcast use {no_effect_counts, no_card_counts};

    let d = shot.d_idx as int;
    let g = p.game;
    let s = g.ships[d];
    let line = sight.at(a, d);
    a_plain_guard(p, content, sight, a, shot, attackers);
    let n = plain_guard(g, content, d, shot.range, line.obstructed);
    let faces = guard_roll(p.dice, n);
    let t = Throw { game: g, dice: p.dice.rolled_by(n as nat), faces };
    nothing_is_dodged(t, content, sight, a, shot, incoming);
    a_plain_agility(g, content, sight, a, d);
    counts_fit(faces, DefenseFace::Evade, DefenseFace::Focus);
    eyes_are_evaded(faces);
    a_ship_is_plain(g, content, d);
    let less = g.with_ship(d, s.less_focus());
    crate::game::plain::a_plain_ship_stays_plain(g, content, d, s.less_focus());
    focus_spares(less, content, sight, d);
    reveal(Game::guard_focusing);
    reveal(Game::clustering);
    reveal(Game::evade_spending);
    reveal(Game::juking);
    reveal(Game::crack_shot);
    reveal(Play::defense_rolled);
    let (h, shown, evades, focus) = g.guard_focusing(
        content,
        sight,
        d,
        !line.bullseye,
        incoming,
        faces,
    );
    assert(h.plain(content));
    let q = h.evade_spending(d, !line.bullseye, incoming, evades).0;
    a_ship_is_plain(h, content, d);
    crate::game::plain::a_plain_ship_stays_plain(h, content, d, h.ships[d].less_evade());
    assert(q.plain(content));
    let guarded = p.defense_rolled(content, sight, a, shot, attackers, incoming, v);
    let last = spent_on_guard(s, guarded.focus, guarded.evade);
    assert(guarded.throw.game.ships =~= g.with_ship(d, last).ships);
}

proof fn counting_is_containing<F>(faces: Seq<F>, face: F)
    ensures
        faces.contains(face) == (count(faces, face) > 0),
    decreases faces.len(),
{
    if faces.len() > 0 {
        let rest = faces.drop_last();
        counting_is_containing(rest, face);
        if faces.contains(face) && faces.last() != face {
            let k = choose|k: int| 0 <= k < faces.len() && faces[k] == face;
            assert(rest[k] == face);
        }
        if rest.contains(face) {
            let k = choose|k: int| 0 <= k < rest.len() && rest[k] == face;
            assert(faces[k] == face);
        }
    }
}

proof fn eyes_are_evaded(faces: Seq<DefenseFace>)
    requires
        faces.len() <= u8::MAX,
    ensures
        faces.contains(DefenseFace::Focus) == (tally(faces, DefenseFace::Focus) > 0),
        turned_all(faces, DefenseFace::Focus, DefenseFace::Evade) == guarded_by_focus(faces),
        count(guarded_by_focus(faces), DefenseFace::Evade) == count(faces, DefenseFace::Evade)
            + count(faces, DefenseFace::Focus),
{
    turning_moves_the_count(faces, DefenseFace::Focus, DefenseFace::Evade);
    count_bounded(faces, DefenseFace::Focus);
    counting_is_containing(faces, DefenseFace::Focus);
    assert(turned_all(faces, DefenseFace::Focus, DefenseFace::Evade) =~= guarded_by_focus(faces));
}

proof fn an_attack_is_recorded(
    p: Play,
    content: Content,
    sight: Sight,
    moves: Moves,
    a: int,
    shot: Shot,
)
    ensures
        ({
            let d = shot.d_idx as int;
            let r = p.attacked(content, sight, moves, a, shot).1;
            let aimed = p.attack_rolled(content, sight, a, shot);
            let t = aimed.throw;
            let guarded = Play { game: t.game, dice: t.dice }.defense_rolled(
                content,
                sight,
                a,
                shot,
                t.faces.len(),
                sat(tally(t.faces, AttackFace::Hit) + tally(t.faces, AttackFace::Crit)),
                aimed.verdict,
            );
            &&& r.attacker == p.game.ships[a].id && r.defender == p.game.ships[d].id
            &&& r.range == shot.range && r.weapon == shot.weapon
            &&& r.obstructed == sight.at(a, d).obstructed
            &&& r.defender_in_bullseye == sight.at(a, d).bullseye
            &&& r.lock_spent == aimed.spent.lock
            &&& r.attacker_focus_spent == aimed.spent.focus
            &&& r.attack_faces == t.faces
            &&& r.defense_faces == guarded.throw.faces
            &&& r.defender_focus_spent == guarded.focus
            &&& r.evade_spent == guarded.evade
        }),
{
    reveal(Play::attacked);
}

/// A plain attack goes by the raw values of the dice strip. The attacker
/// throws its printed dice; a lock is spent on misses alone and rerolls each
/// of them once; a focus token is spent on eyes alone and makes them hits.
pub proof fn a_plain_attack_follows_the_strip(
    p: Play,
    content: Content,
    sight: Sight,
    moves: Moves,
    a: int,
    shot: Shot,
)
    requires
        duel(p.game, content, a, shot),
    ensures
        ({
            let r = p.attacked(content, sight, moves, a, shot).1;
            let (s, e) = (p.game.ships[a], p.game.ships[shot.d_idx as int]);
            let line = sight.at(a, shot.d_idx as int);
            let n = plain_dice(p.game, content, a, shot.range);
            let rolled = second_roll(p.dice, n, s.locks(e.id), s.focus == 0);
            &&& r.attacker == s.id && r.defender == e.id
            &&& r.range == shot.range && r.weapon is None
            &&& r.obstructed == line.obstructed
            &&& r.defender_in_bullseye == line.bullseye
            &&& r.lock_spent == (s.locks(e.id) && some_miss(first_roll(p.dice, n), s.focus == 0))
            &&& r.attacker_focus_spent == (s.focus > 0 && rolled.contains(AttackFace::Focus))
            &&& r.attack_faces == converted(rolled, s.focus)
        }),
{
    the_plain_roll(p, content, sight, a, shot);
    an_attack_is_recorded(p, content, sight, moves, a, shot);
}

/// Against a plain attack the defender throws its own dice, each showing the
/// next raw value after the attacker's. It spends a focus token on eyes, and
/// then an evade token, while damage would land, outside the bullseye lane.
pub proof fn a_plain_defense_follows_the_strip(
    p: Play,
    content: Content,
    sight: Sight,
    moves: Moves,
    a: int,
    shot: Shot,
)
    requires
        duel(p.game, content, a, shot),
        p.game.ships[shot.d_idx as int].printed(content).agility < 254,
    ensures
        ({
            let r = p.attacked(content, sight, moves, a, shot).1;
            let d = shot.d_idx as int;
            let e = p.game.ships[d];
            let line = sight.at(a, d);
            let n = plain_dice(p.game, content, a, shot.range);
            let eyes = p.game.ships[a].focus == 0;
            let used = n + if r.lock_spent {
                misses(first_roll(p.dice, n), eyes, n)
            } else {
                0
            };
            let m = plain_guard(p.game, content, d, shot.range, line.obstructed);
            let guard = guard_roll(p.dice.rolled_by(used as nat), m);
            let incoming = count(r.attack_faces, AttackFace::Hit) + count(
                r.attack_faces,
                AttackFace::Crit,
            );
            &&& r.defender_focus_spent == (!line.bullseye && e.focus > 0 && guard.contains(
                DefenseFace::Focus,
            ) && count(guard, DefenseFace::Evade) < incoming)
            &&& r.defense_faces == if r.defender_focus_spent {
                guarded_by_focus(guard)
            } else {
                guard
            }
            &&& r.evade_spent == (!line.bullseye && e.evade > 0 && count(
                r.defense_faces,
                DefenseFace::Evade,
            ) < incoming)
        }),
{
    let d = shot.d_idx as int;
    let aimed = p.attack_rolled(content, sight, a, shot);
    let t = aimed.throw;
    let n = plain_dice(p.game, content, a, shot.range);
    let eyes = p.game.ships[a].focus == 0;
    let used = n + if aimed.spent.lock {
        misses(first_roll(p.dice, n), eyes, n)
    } else {
        0
    };
    assert(t.game.plain(content) && t.game.ships.len() == p.game.ships.len()
        && t.game.ships[d] == p.game.ships[d] && t.faces.len() <= u8::MAX && aimed.verdict.guard
        && t.dice == p.dice.rolled_by(used as nat)) by {
        the_plain_roll(p, content, sight, a, shot);
    }
    counts_fit(t.faces, AttackFace::Hit, AttackFace::Crit);
    let (hits, crits) = (tally(t.faces, AttackFace::Hit), tally(t.faces, AttackFace::Crit));
    the_plain_guard(
        Play { game: t.game, dice: t.dice },
        content,
        sight,
        a,
        shot,
        t.faces.len(),
        sat(hits + crits),
        aimed.verdict,
    );
    an_attack_is_recorded(p, content, sight, moves, a, shot);
}

} // verus!
