//! Who may be shot at with what, and what is chosen for a ship that leaves
//! the choice open.

use vstd::prelude::*;

use crate::data::Content;
use crate::game::cards::one_if;
use crate::game::laws::options_are_living_enemies;
use crate::game::plain::{a_ship_is_plain, no_ability_counts};
use crate::game::state::{AttackOption, Game};
use crate::game::targets::{automatic, nearest_option, option_on, primaries, Gun};
use crate::pick::first_is_first;
use crate::pilot::PilotAbility;
use crate::ship::ShipId;
use crate::sight::Sight;
use crate::upgrade::{AttackRequirement, Slot, UpgradeEffect, UpgradeId};

verus! {

/// A ship on an asteroid, off the board or with failed weapons has no shot.
pub proof fn disarmed_ships_have_no_shot(g: Game, content: Content, sight: Sight, a: int, k: int)
    requires
        0 <= a < g.ships.len(),
        g.ships[a].on_asteroid || g.ships[a].pose is None || (0 <= k < g.ships[a].crits.len()
            && g.ships[a].crits[k] is WeaponsFailure),
    ensures
        g.options(content, sight, a).len() == 0,
{
    reveal(Game::options);
    if 0 <= k < g.ships[a].crits.len() && g.ships[a].crits[k] is WeaponsFailure {
        assert(crate::game::targets::failed(g.ships[a].crits[k]));
    }
}

/// The option is against ship `t`: a living enemy on the board within Range
/// 1-3, whose base does not touch that of ship `a` unless the pilot may fire
/// at a touching ship in arc.
pub open spec fn aims_at(
    g: Game,
    content: Content,
    sight: Sight,
    a: int,
    t: int,
    o: AttackOption,
) -> bool {
    let line = sight.at(a, t);
    &&& 0 <= t < g.ships.len()
    &&& g.side(g.ships[t].owner) != g.side(g.ships[a].owner)
    &&& !g.ships[t].destroyed
    &&& g.ships[t].pose is Some
    &&& line.band == Some(o.range)
    &&& o.target == g.ships[t].id
    &&& o.dist == line.dist
    &&& o.obstructed == line.obstructed
    &&& line.dist > 0 || (line.in_arc && g.ships[a].ability(content) == Some(
        PilotAbility::TargetTouchingShipInArc,
    ))
}

/// The primary weapon fires at Range 1-3, in arc unless it is a turret.
pub open spec fn primary_shot(
    g: Game,
    content: Content,
    sight: Sight,
    a: int,
    t: int,
    o: AttackOption,
) -> bool {
    let class = content.chassis(g.ships[a].class)->0;
    &&& o.weapon is None
    &&& class.attack_dice > 0
    &&& 1 <= o.range <= 3
    &&& sight.at(a, t).in_arc || class.turret_primary
}

/// The weapon of an equipped card fires within its own range, in arc unless
/// it is a turret, and with the lock or focus token that it asks for.
pub open spec fn card_shot(
    g: Game,
    content: Content,
    sight: Sight,
    a: int,
    t: int,
    o: AttackOption,
    card: UpgradeId,
) -> bool {
    let s = g.ships[a];
    let u = content.card(card)->0;
    let arms = u.attack->0;
    let reach = one_if(s.ability(content) == Some(PilotAbility::SecondaryRangePlusMinus1));
    &&& o.weapon == Some(card)
    &&& s.active(content).contains(card)
    &&& content.card(card) is Some && u.attack is Some
    &&& u.slot == Slot::Torpedo || u.slot == Slot::Missile || u.slot == Slot::Cannon || u.slot
        == Slot::Turret
    &&& arms.range_min - reach <= o.range <= arms.range_max + reach
    &&& sight.at(a, t).in_arc || (u.slot == Slot::Turret && !g.has(
        content,
        a,
        UpgradeEffect::TitleArcOnlyThenTurretAttack,
    ))
    &&& arms.requires == AttackRequirement::Focus ==> s.focus > 0
    &&& arms.requires == AttackRequirement::TargetLock ==> s.lock == Some(o.target) || s.lock2
        == Some(o.target) || (s.focus > 0 && g.has(content, a, UpgradeEffect::LockBecomesFocus))
        || g.synced(content, sight, a, o.target)
}

proof fn guns_are_on_cards(
    g: Game,
    content: Content,
    a: int,
    cards: Seq<UpgradeId>,
    guns: Seq<Gun>,
    w: int,
)
    requires
        0 <= w < g.guns_on(content, a, cards, guns).len(),
    ensures
        guns.len() <= g.guns_on(content, a, cards, guns).len(),
        w < guns.len() ==> g.guns_on(content, a, cards, guns)[w] == guns[w],
        w >= guns.len() ==> exists|j: int|
            0 <= j < cards.len() && Some(g.guns_on(content, a, cards, guns)[w]) == g.gun(
                content,
                a,
                #[trigger] cards[j],
            ),
    decreases cards.len(),
{
    if cards.len() > 0 {
        let less = cards.drop_last();
        let rest = g.guns_on(content, a, less, guns);
        let all = g.guns_on(content, a, cards, guns);
        if w < rest.len() {
            guns_are_on_cards(g, content, a, less, guns, w);
            assert(all[w] == rest[w]);
            if w >= guns.len() {
                let j = choose|j: int|
                    0 <= j < less.len() && Some(rest[w]) == g.gun(content, a, #[trigger] less[j]);
                assert(cards[j] == less[j]);
            }
        } else {
            if rest.len() > 0 {
                guns_are_on_cards(g, content, a, less, guns, 0);
            } else {
                guns_stay(g, content, a, less, guns);
            }
            assert(Some(all[w]) == g.gun(content, a, cards[cards.len() - 1]));
        }
    }
}

proof fn guns_stay(g: Game, content: Content, a: int, cards: Seq<UpgradeId>, guns: Seq<Gun>)
    ensures
        guns.len() <= g.guns_on(content, a, cards, guns).len(),
        forall|w: int|
            0 <= w < guns.len() ==> #[trigger] g.guns_on(content, a, cards, guns)[w] == guns[w],
    decreases cards.len(),
{
    if cards.len() > 0 {
        guns_stay(g, content, a, cards.drop_last(), guns);
    }
}

/// Every option of a ship is a shot it has: with the primary weapon or an
/// equipped card, at a living enemy on the board, in range and in arc.
pub proof fn every_option_is_a_shot(g: Game, content: Content, sight: Sight, a: int, k: int)
    requires
        0 <= a < g.ships.len(),
        0 <= k < g.options(content, sight, a).len(),
    ensures
        ({
            let o = g.options(content, sight, a)[k];
            exists|t: int|
                {
                    &&& #[trigger] aims_at(g, content, sight, a, t, o)
                    &&& o.weapon is None ==> primary_shot(g, content, sight, a, t, o)
                    &&& o.weapon is Some ==> card_shot(g, content, sight, a, t, o, o.weapon->0)
                }
        }),
{
    options_are_living_enemies(g, content, sight, a, k);
    let o = g.options(content, sight, a)[k];
    let guns = g.guns(content, a);
    let (t, w) = choose|t: int, w: int|
        0 <= t < g.ships.len() && 0 <= w < guns.len() && g.visible(content, sight, a, t)
            && #[trigger] g.eligible(content, sight, a, t, guns[w]) && o == g.option(
            sight,
            a,
            t,
            guns[w],
        );
    assert(aims_at(g, content, sight, a, t, o));
    reveal(Game::guns);
    let class = content.chassis(g.ships[a].class)->0;
    let primary = if class.attack_dice > 0 {
        seq![
            Gun {
                card: None,
                min: 1,
                max: 3,
                needs_arc: !class.turret_primary,
                requires: AttackRequirement::Free,
            },
        ]
    } else {
        Seq::empty()
    };
    let cards = g.ships[a].active(content);
    guns_are_on_cards(g, content, a, cards, primary, w);
    if w < primary.len() {
        assert(primary_shot(g, content, sight, a, t, o));
    } else {
        let j = choose|j: int|
            0 <= j < cards.len() && Some(guns[w]) == g.gun(content, a, #[trigger] cards[j]);
        assert(cards.contains(cards[j]));
        assert(card_shot(g, content, sight, a, t, o, cards[j]));
    }
}

proof fn a_shot_is_listed(
    g: Game,
    content: Content,
    sight: Sight,
    a: int,
    t: int,
    guns: Seq<Gun>,
    from: int,
)
    requires
        0 <= from <= t < g.ships.len(),
        guns.len() > 0,
        g.visible(content, sight, a, t),
        g.eligible(content, sight, a, t, guns[0]),
    ensures
        g.options_from(content, sight, a, guns, from).contains(g.option(sight, a, t, guns[0])),
    decreases t - from,
{
    let all = g.options_from(content, sight, a, guns, from);
    let rest = g.options_from(content, sight, a, guns, from + 1);
    let o = g.option(sight, a, t, guns[0]);
    let here = g.options_at(content, sight, a, from, guns, 0);
    if from == t {
        assert(here[0] == o);
        assert(all[0] == o);
    } else {
        a_shot_is_listed(g, content, sight, a, t, guns, from + 1);
        let k = choose|k: int| 0 <= k < rest.len() && rest[k] == o;
        if g.visible(content, sight, a, from) {
            assert(all[here.len() + k] == o);
        } else {
            assert(all[k] == o);
        }
    }
}

proof fn nobody_is_shielded(
    g: Game,
    content: Content,
    sight: Sight,
    all: Seq<AttackOption>,
    some: Seq<AttackOption>,
)
    requires
        g.plain(content),
        all.len() <= usize::MAX,
    ensures
        g.unshielded(content, sight, all, some) == some,
    decreases some.len(),
{
    broadcast use no_ability_counts;

    if some.len() > 0 {
        let less = some.drop_last();
        nobody_is_shielded(g, content, sight, all, less);
        let rule = g.biggs_rule(content, sight, all, some.last());
        first_is_first(rule, 0, all.len() as int);
        assert(g.ships.len() <= usize::MAX) by {
            reveal(Game::plain);
        }
        assert forall|k: int| 0 <= k < all.len() implies !#[trigger] rule(k) by {
            let found = g.index(all[k].target);
            if found is Some {
                first_is_first(g.id_rule(all[k].target), 0, g.ships.len() as int);
                assert(!g.can(
                    content,
                    found->0 as int,
                    PilotAbility::ProtectFriendsAtRange1,
                ));
            }
        }
        assert(less.push(some.last()) =~= some);
    }
}

/// In a game without cards and abilities, every primary shot of a ship is
/// among its options.
pub proof fn every_primary_shot_is_an_option(
    g: Game,
    content: Content,
    sight: Sight,
    a: int,
    t: int,
    o: AttackOption,
)
    requires
        g.plain(content),
        0 <= a < g.ships.len(),
        !g.ships[a].on_asteroid,
        g.ships[a].pose is Some,
        forall|k: int|
            0 <= k < g.ships[a].crits.len() ==> !(#[trigger] g.ships[a].crits[k] is WeaponsFailure),
        g.options_from(content, sight, a, g.guns(content, a), 0).len() <= usize::MAX,
        aims_at(g, content, sight, a, t, o),
        primary_shot(g, content, sight, a, t, o),
    ensures
        g.options(content, sight, a).contains(o),
{
    reveal(Game::options);
    let guns = g.guns(content, a);
    let all = g.options_from(content, sight, a, guns, 0);
    a_ship_is_plain(g, content, a);
    assert(guns.len() > 0 && guns[0].card is None && guns[0].min == 1 && guns[0].max == 3
        && guns[0].needs_arc == !content.chassis(g.ships[a].class)->0.turret_primary
        && guns[0].requires == AttackRequirement::Free) by {
        reveal(Game::guns);
        assert(g.ships[a].active(content).len() == 0);
    }
    a_shot_is_listed(g, content, sight, a, t, guns, 0);
    assert(g.option(sight, a, t, guns[0]) == o);
    nobody_is_shielded(g, content, sight, all, all);
    assert(!g.disarmed(a)) by {
        if exists|k: int|
            0 <= k < g.ships[a].crits.len() && crate::game::targets::failed(
                #[trigger] g.ships[a].crits[k],
            ) {
            let k = choose|k: int|
                0 <= k < g.ships[a].crits.len() && crate::game::targets::failed(
                    #[trigger] g.ships[a].crits[k],
                );
            assert(g.ships[a].crits[k] is WeaponsFailure);
        }
    }
}

proof fn primaries_keep_primaries(options: Seq<AttackOption>, o: AttackOption)
    ensures
        primaries(options).contains(o) == (options.contains(o) && o.weapon is None),
    decreases options.len(),
{
    if options.len() > 0 {
        let rest = options.drop_last();
        primaries_keep_primaries(rest, o);
        let kept = primaries(options);
        assert(options.contains(o) == (rest.contains(o) || options.last() == o)) by {
            if options.contains(o) && options.last() != o {
                let k = choose|k: int| 0 <= k < options.len() && options[k] == o;
                assert(rest[k] == o);
            }
            if rest.contains(o) {
                let k = choose|k: int| 0 <= k < rest.len() && rest[k] == o;
                assert(options[k] == o);
            }
        }
        if options.last().weapon is None {
            assert(kept.contains(o) == (primaries(rest).contains(o) || options.last() == o)) by {
                if kept.contains(o) && options.last() != o {
                    let k = choose|k: int| 0 <= k < kept.len() && kept[k] == o;
                    assert(primaries(rest)[k] == o);
                }
                if primaries(rest).contains(o) {
                    let k = choose|k: int|
                        0 <= k < primaries(rest).len() && primaries(rest)[k] == o;
                    assert(kept[k] == o);
                }
                if options.last() == o {
                    assert(kept[kept.len() - 1] == o);
                }
            }
        }
    }
}

pub(crate) proof fn the_nearest_is_nearest(options: Seq<AttackOption>)
    ensures
        (nearest_option(options) is Some) == (options.len() > 0),
        options.len() > 0 ==> options.contains(nearest_option(options)->0),
        forall|o: AttackOption|
            #[trigger] options.contains(o) ==> nearest_option(options)->0.dist <= o.dist,
    decreases options.len(),
{
    if options.len() > 0 {
        let rest = options.drop_last();
        the_nearest_is_nearest(rest);
        let best = nearest_option(options)->0;
        assert(options[options.len() - 1] == options.last());
        if rest.len() > 0 {
            let j = choose|j: int| 0 <= j < rest.len() && rest[j] == nearest_option(rest)->0;
            assert(options[j] == rest[j]);
        }
        assert forall|o: AttackOption| #[trigger] options.contains(o) implies best.dist
            <= o.dist by {
            let j = choose|j: int| 0 <= j < options.len() && options[j] == o;
            if j < rest.len() {
                assert(rest[j] == o);
                assert(rest.contains(o));
            }
        }
    }
}

pub(crate) proof fn the_target_is_found(options: Seq<AttackOption>, target: Option<ShipId>)
    ensures
        option_on(options, target) is Some ==> options.contains(option_on(options, target)->0)
            && Some(option_on(options, target)->0.target) == target,
        option_on(options, target) is None ==> forall|o: AttackOption| #[trigger]
            options.contains(o) ==> Some(o.target) != target,
    decreases options.len(),
{
    if options.len() > 0 {
        let rest = options.skip(1);
        the_target_is_found(rest, target);
        assert(options.contains(options[0]));
        if Some(options[0].target) != target {
            if option_on(rest, target) is Some {
                let j = choose|j: int| 0 <= j < rest.len() && rest[j] == option_on(rest, target)->0;
                assert(options[j + 1] == rest[j]);
            }
            assert forall|o: AttackOption| #[trigger] options.contains(o) && option_on(
                rest,
                target,
            ) is None implies Some(o.target) != target by {
                let j = choose|j: int| 0 <= j < options.len() && options[j] == o;
                if j > 0 {
                    assert(rest[j - 1] == o);
                    assert(rest.contains(o));
                }
            }
        }
    }
}

/// A ship that leaves the choice open fires its primary weapon if it can: at
/// the ship it has locked, else at the one it has locked second, else at the
/// nearest. Only without a primary shot does it fire a card, at the nearest.
pub proof fn an_open_choice_goes_to_the_lock_or_the_nearest(
    options: Seq<AttackOption>,
    locks: (Option<ShipId>, Option<ShipId>),
    o: AttackOption,
)
    requires
        options.contains(o),
    ensures
        ({
            let best = automatic(options, locks);
            &&& best is Some
            &&& options.contains(best->0)
            &&& o.weapon is None ==> best->0.weapon is None
            &&& o.weapon is None && Some(o.target) == locks.0 ==> Some(best->0.target) == locks.0
            &&& o.weapon is None && Some(o.target) == locks.1 ==> Some(best->0.target) == locks.0
                || Some(best->0.target) == locks.1
            &&& o.weapon == best->0.weapon && Some(best->0.target) != locks.0 && Some(
                best->0.target,
            ) != locks.1 ==> best->0.dist <= o.dist
            &&& best->0.weapon is Some ==> best->0.dist <= o.dist
        }),
{
    let primary = primaries(options);
    primaries_keep_primaries(options, o);
    the_nearest_is_nearest(options);
    the_nearest_is_nearest(primary);
    the_target_is_found(primary, locks.0);
    the_target_is_found(primary, locks.1);
    let best = automatic(options, locks)->0;
    primaries_keep_primaries(options, best);
    if primary.len() == 0 {
        assert(!primary.contains(o));
    } else {
        assert(primary.contains(best));
    }
}

} // verus!
