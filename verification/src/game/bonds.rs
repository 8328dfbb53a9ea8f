//! Locks and tokens that pass between ships.

use vstd::prelude::*;

use crate::data::Content;
use crate::dice::count;
use crate::event::{Event, Why};
use crate::game::arsenal::{in_line, later_is_listed, listed, one_more, picked_in_order};
use crate::game::crews::friends_near_are_friends;
use crate::game::deeds::a_discarded_card_is_gone;
use crate::game::hazards::others_stay;
use crate::game::muster::strongest;
use crate::game::state::Game;
use crate::game::tokens::nearest;
use crate::pick::{first, first_is_first, picked, picked_obey};
use crate::pilot::PilotAbility;
use crate::ship::{ShipId, ShipModel};
use crate::sight::Sight;
use crate::upgrade::{Slot, UpgradeEffect, UpgradeId};

verus! {

/// Ship `e` can be locked by ship `i`: a living enemy on the board within so
/// many bands that it has not locked yet.
pub open spec fn lockable(g: Game, sight: Sight, i: int, bands: u8, e: int) -> bool {
    let s = g.ships[e];
    &&& 0 <= e < g.ships.len()
    &&& g.side(s.owner) != g.side(g.ships[i].owner)
    &&& !s.destroyed
    &&& s.pose is Some
    &&& g.ships[i].lock != Some(s.id) && g.ships[i].lock2 != Some(s.id)
    &&& sight.at(i, e).band is Some && sight.at(i, e).band->0 <= bands
}

proof fn the_nearest_is_found(
    sight: Sight,
    i: int,
    places: Seq<usize>,
    k: int,
    best: Option<usize>,
)
    requires
        0 <= k <= places.len(),
    ensures
        ({
            let w = nearest(sight, i, places, k, best);
            &&& w is None <==> best is None && k == places.len()
            &&& w is Some ==> w == best || exists|m: int|
                k <= m < places.len() && #[trigger] places[m] == w->0
            &&& best is Some ==> sight.at(i, w->0 as int).dist <= sight.at(i, best->0 as int).dist
            &&& forall|m: int|
                k <= m < places.len() ==> sight.at(i, w->0 as int).dist <= sight.at(
                    i,
                    #[trigger] places[m] as int,
                ).dist
        }),
    decreases places.len() - k,
{
    if k < places.len() {
        let next = if best is None || sight.at(i, places[k] as int).dist < sight.at(
            i,
            best->0 as int,
        ).dist {
            Some(places[k])
        } else {
            best
        };
        the_nearest_is_found(sight, i, places, k + 1, next);
        let w = nearest(sight, i, places, k, best);
        if w == next && next != best {
            assert(places[k] == w->0);
        }
    }
}

/// A ship that takes a lock by itself takes one it has room for, on an enemy
/// it can lock: Captain Kagi if he is one of them, else the nearest. It takes
/// none where nobody can be locked.
pub proof fn own_locks_go_to_the_nearest(
    g: Game,
    content: Content,
    sight: Sight,
    i: int,
    bands: u8,
    e: int,
)
    requires
        g.ships.len() <= usize::MAX,
        0 <= i < g.ships.len(),
    ensures
        ({
            let taken = g.lock_choice(content, sight, i, bands);
            let t = taken->0 as int;
            let s = g.ships[i];
            let free = s.lock is None || (s.lock2 is None && g.has(
                content,
                i,
                UpgradeEffect::CrewTwoLocks,
            ));
            let kagi = Some(PilotAbility::EnemyLocksMustTargetMe);
            &&& taken is Some ==> free && !s.destroyed && s.pose is Some && lockable(
                g,
                sight,
                i,
                bands,
                t,
            )
            &&& free && !s.destroyed && s.pose is Some && lockable(g, sight, i, bands, e) ==> taken
                is Some && (g.ships[t].ability(content) == kagi || (g.ships[e].ability(content)
                != kagi && sight.at(i, t).dist <= sight.at(i, e).dist))
        }),
{
    let n = g.ships.len() as int;
    let rule = g.lock_rule(sight, i, bands);
    let open = picked(rule, 0, n);
    picked_in_order(rule, n);
    picked_obey(rule, 0, n);
    let kagis = g.kagi_rule(content, open);
    first_is_first(kagis, 0, open.len() as int);
    the_nearest_is_found(sight, i, open, 0, None);
    let taken = g.lock_choice(content, sight, i, bands);
    if lockable(g, sight, i, bands, e) {
        assert(rule(e));
        assert(listed(open, 0, e));
        let m = choose|m: int| 0 <= m < open.len() && #[trigger] open[m] == e;
        if g.ships[e].ability(content) == Some(PilotAbility::EnemyLocksMustTargetMe) {
            assert(kagis(m));
        }
    }
    if taken is Some {
        let f = first(kagis, 0, open.len() as int);
        if f is Some {
            assert(kagis(f->0 as int));
            assert(rule(open[f->0 as int] as int));
        } else {
            let m = choose|m: int| 0 <= m < open.len() && #[trigger] open[m] == taken->0;
            assert(rule(open[m] as int));
        }
    }
}

/// A lock that is taken is held, and replaces what was held unless the ship
/// may hold two; nobody else changes.
pub proof fn a_taken_lock_is_held(g: Game, content: Content, i: int, e: int)
    requires
        0 <= i < g.ships.len(),
        0 <= e < g.ships.len(),
    ensures
        ({
            let h = g.locking(content, i, e);
            let (s, t) = (g.ships[i], h.ships[i]);
            let id = g.ships[e].id;
            let two = g.has(content, i, UpgradeEffect::CrewTwoLocks);
            &&& t.lock == Some(id) || t.lock2 == Some(id)
            &&& !two ==> t.lock == Some(id) && t.lock2 is None
            &&& two && s.lock is Some ==> t.lock == s.lock
            &&& t == ShipModel { lock: t.lock, lock2: t.lock2, ..s }
            &&& others_stay(g, h, i)
        }),
{
}

/// A lock that is given up is gone, and the other one stays.
pub proof fn a_spent_lock_is_gone(s: ShipModel, id: ShipId)
    ensures
        ({
            let t = s.unlocking(id);
            &&& t.lock != Some(id) && t.lock2 != Some(id)
            &&& forall|other: ShipId|
                other != id ==> (#[trigger] t.locks(other) <==> s.lock == Some(other) || s.lock2
                    == Some(other))
            &&& t == ShipModel { lock: t.lock, lock2: t.lock2, ..s }
        }),
{
}

proof fn chasers_are_rewarded(g: Game, content: Content, places: Seq<usize>, k: int)
    requires
        in_line(places, g.ships.len() as int),
        0 <= k <= places.len(),
    ensures
        ({
            let h = g.chasing(content, places, k);
            &&& h.ships.len() == g.ships.len()
            &&& forall|j: int|
                0 <= j < g.ships.len() ==> #[trigger] h.ships[j] == if listed(places, k, j)
                    && g.ships[j].ability(content) == Some(
                    PilotAbility::FocusWhenFriendlySpendsFocusRange1,
                ) {
                    ShipModel { focus: one_more(g.ships[j].focus), ..g.ships[j] }
                } else {
                    g.ships[j]
                }
        }),
    decreases places.len() - k,
{
    let h = g.chasing(content, places, k);
    if k < places.len() {
        let i = places[k] as int;
        let next = if g.can(content, i, PilotAbility::FocusWhenFriendlySpendsFocusRange1) {
            g.with_ship(i, g.ships[i].with_focus()).saying(Event::FriendSpentFocus(places[k]))
        } else {
            g
        };
        chasers_are_rewarded(next, content, places, k + 1);
        assert forall|j: int| 0 <= j < g.ships.len() implies #[trigger] h.ships[j] == if listed(
            places,
            k,
            j,
        ) && g.ships[j].ability(content) == Some(
            PilotAbility::FocusWhenFriendlySpendsFocusRange1,
        ) {
            ShipModel { focus: one_more(g.ships[j].focus), ..g.ships[j] }
        } else {
            g.ships[j]
        } by {
            later_is_listed(places, g.ships.len() as int, k, j);
        }
    }
}

/// When a ship other than Garven Dreis spends a focus token, every "Chaser"
/// among its living friends at Range 1 gains one, and nobody else does.
pub proof fn chasers_gain_what_friends_spend(
    g: Game,
    content: Content,
    sight: Sight,
    i: int,
    o: int,
)
    requires
        g.ships.len() <= usize::MAX,
        0 <= i < g.ships.len(),
        0 <= o < g.ships.len(),
        g.ships[i].ability(content) != Some(PilotAbility::PassSpentFocusRange1To2),
    ensures
        ({
            let h = g.focus_spent(content, sight, i);
            let near = o != i && !g.ships[o].destroyed && g.side(g.ships[o].owner) == g.side(
                g.ships[i].owner,
            ) && g.ships[i].pose is Some && g.ships[o].pose is Some && sight.at(i, o).band is Some
                && sight.at(i, o).band->0 <= 1;
            h.ships[o] == if near && g.ships[o].ability(content) == Some(
                PilotAbility::FocusWhenFriendlySpendsFocusRange1,
            ) {
                ShipModel { focus: one_more(g.ships[o].focus), ..g.ships[o] }
            } else {
                g.ships[o]
            }
        }),
{
    reveal(Game::focus_spent);
    friends_near_are_friends(g, sight, i, 1, o);
    chasers_are_rewarded(g, content, g.near(sight, i, 1), 0);
}

proof fn the_neediest_is_found(g: Game, places: Seq<usize>, k: int, best: Option<usize>)
    requires
        0 <= k <= places.len(),
    ensures
        ({
            let w = g.fewest_focus(places, k, best);
            &&& w is None <==> best is None && k == places.len()
            &&& w is Some ==> w == best || exists|m: int|
                k <= m < places.len() && #[trigger] places[m] == w->0
            &&& best is Some ==> g.ships[w->0 as int].focus <= g.ships[best->0 as int].focus
            &&& forall|m: int|
                k <= m < places.len() ==> g.ships[w->0 as int].focus <= g.ships[
                    #[trigger] places[m] as int
                ].focus
        }),
    decreases places.len() - k,
{
    if k < places.len() {
        let next = if best is None || g.ships[places[k] as int].focus < g.ships[
            best->0 as int
        ].focus {
            Some(places[k])
        } else {
            best
        };
        the_neediest_is_found(g, places, k + 1, next);
        let w = g.fewest_focus(places, k, best);
        if w == next && next != best {
            assert(places[k] == w->0);
        }
    }
}

/// Garven Dreis passes the token he spends to a friend at Range 1-2 that has
/// no more of them than any other friend there.
pub proof fn garven_passes_to_the_neediest(g: Game, sight: Sight, i: int, o: int)
    requires
        g.ships.len() <= usize::MAX,
        0 <= i < g.ships.len(),
        0 <= o < g.ships.len(),
        listed(g.near(sight, i, 2), 0, o),
    ensures
        ({
            let to = g.fewest_focus(g.near(sight, i, 2), 0, None);
            &&& to is Some
            &&& listed(g.near(sight, i, 2), 0, to->0 as int)
            &&& g.ships[to->0 as int].focus <= g.ships[o].focus
        }),
{
    let places = g.near(sight, i, 2);
    the_neediest_is_found(g, places, 0, None);
    let m = choose|m: int| 0 <= m < places.len() && #[trigger] places[m] == o;
    assert(places[m] == o);
}

/// Colonel Jendon gives his first lock to the first friend at Range 1 that has
/// room for it, and no longer holds it.
pub proof fn jendon_hands_over_his_lock(g: Game, content: Content, sight: Sight, i: int, m: int)
    requires
        g.ships.len() <= usize::MAX,
        0 <= i < g.ships.len(),
        g.ships[i].ability(content) == Some(PilotAbility::GiveLockToFriendlyAtCombatStart),
        g.ships[i].lock is Some,
        0 <= m < g.near(sight, i, 1).len(),
        forall|l: int|
            0 <= l < m ==> !g.ships[#[trigger] g.near(sight, i, 1)[l] as int].can_lock(
                g.two_locks(content, g.near(sight, i, 1)[l] as int),
            ),
        g.ships[g.near(sight, i, 1)[m] as int].can_lock(
            g.two_locks(content, g.near(sight, i, 1)[m] as int),
        ),
    ensures
        ({
            let h = g.jendon(content, sight, i);
            let f = g.near(sight, i, 1)[m] as int;
            let id = g.ships[i].lock->0;
            &&& h.ships[i].lock != Some(id) && h.ships[i].lock2 != Some(id)
            &&& h.ships[f].lock == Some(id) || h.ships[f].lock2 == Some(id)
            &&& forall|j: int|
                0 <= j < g.ships.len() && j != i && j != f ==> #[trigger] h.ships[j] == g.ships[j]
        }),
{
    reveal(Game::jendon);
    let near = g.near(sight, i, 1);
    picked_obey(g.friend_rule(sight, i, 1), 0, g.ships.len() as int);
    let rule = g.lockless_rule(content, near);
    first_is_first(rule, 0, near.len() as int);
    assert(rule(m));
    assert forall|l: int| 0 <= l < m implies !#[trigger] rule(l) by {
        assert(!g.ships[near[l] as int].can_lock(g.two_locks(content, near[l] as int)));
    }
    assert(first(rule, 0, near.len() as int) == Some(m as usize));
    assert(g.friend_rule(sight, i, 1)(near[m] as int));
}

/// Without the ability, or without a lock, nothing is handed over.
pub proof fn only_jendon_hands_over(g: Game, content: Content, sight: Sight, i: int)
    requires
        0 <= i < g.ships.len(),
        g.ships[i].lock is None || g.ships[i].ability(content) != Some(
            PilotAbility::GiveLockToFriendlyAtCombatStart,
        ),
    ensures
        g.jendon(content, sight, i) == g,
{
    reveal(Game::jendon);
}

proof fn the_strongest_is_strongest(
    skills: Seq<u8>,
    places: Seq<usize>,
    k: int,
    best: Option<usize>,
)
    requires
        0 <= k <= places.len(),
    ensures
        ({
            let w = strongest(skills, places, k, best);
            &&& w is None <==> best is None && k == places.len()
            &&& w is Some ==> w == best || exists|m: int|
                k <= m < places.len() && #[trigger] places[m] == w->0
            &&& best is Some ==> skills[w->0 as int] >= skills[best->0 as int]
            &&& forall|m: int|
                k <= m < places.len() ==> skills[w->0 as int] >= skills[
                    #[trigger] places[m] as int
                ]
        }),
    decreases places.len() - k,
{
    if k < places.len() {
        let next = if best is None || skills[places[k] as int] >= skills[best->0 as int] {
            Some(places[k])
        } else {
            best
        };
        the_strongest_is_strongest(skills, places, k + 1, next);
        let w = strongest(skills, places, k, best);
        if w == next && next != best {
            assert(places[k] == w->0);
        }
    }
}

/// Decoy swaps the skill of its ship with the highest of a friend at Range
/// 1-2; the others keep theirs.
pub proof fn decoys_swap_with_the_strongest(
    g: Game,
    content: Content,
    sight: Sight,
    i: int,
    skills: Seq<u8>,
)
    requires
        g.ships.len() <= usize::MAX,
        0 <= i < g.ships.len(),
        skills.len() == g.ships.len(),
    ensures
        ({
            let (h, after) = g.decoy(content, sight, i, skills);
            let near = g.near(sight, i, 2);
            let acts = !g.ships[i].destroyed && g.ships[i].pose is Some && g.ships[i].using(
                content,
                UpgradeEffect::SwapSkillWithFriendly,
            ) is Some && near.len() > 0;
            &&& !acts ==> after == skills
            &&& acts ==> exists|m: int|
                {
                    &&& 0 <= m < near.len()
                    &&& after[i] == skills[#[trigger] near[m] as int]
                    &&& after[near[m] as int] == skills[i]
                    &&& forall|o: int|
                        0 <= o < near.len() ==> skills[near[m] as int] >= skills[
                            #[trigger] near[o] as int
                        ]
                    &&& forall|j: int|
                        0 <= j < skills.len() && j != i && j != near[m] ==> #[trigger] after[j]
                            == skills[j]
                }
            &&& h.ships == g.ships
        }),
{
    reveal(Game::decoy);
    let near = g.near(sight, i, 2);
    picked_obey(g.friend_rule(sight, i, 2), 0, g.ships.len() as int);
    the_strongest_is_strongest(skills, near, 0, None);
    let w = strongest(skills, near, 0, None);
    if w is Some {
        let m = choose|m: int| 0 <= m < near.len() && #[trigger] near[m] == w->0;
        assert(g.friend_rule(sight, i, 2)(near[m] as int));
        assert(near[m] != i && near[m] < skills.len());
    }
}

/// A discarded card is gone, but for an elite talent that Tomax Bren has not
/// flipped yet this round: that one is kept, and marked as used.
pub proof fn discarded_cards_are_gone(
    g: Game,
    content: Content,
    i: int,
    card: UpgradeId,
    why: Why,
)
    requires
        0 <= i < g.ships.len(),
    ensures
        ({
            let h = g.discarding(content, i, card, why);
            let (s, t) = (g.ships[i], h.ships[i]);
            let kept = content.fits(card) == Some(Slot::Talent) && s.ability(content) == Some(
                PilotAbility::FlipTalentFaceupAfterDiscard,
            ) && !s.used_round.contains(card);
            &&& kept ==> t == ShipModel { used_round: s.used_round.push(card), ..s }
            &&& !kept ==> count(t.upgrades, card) == 0 && t == ShipModel {
                upgrades: t.upgrades,
                ..s
            }
            &&& !kept ==> forall|other: UpgradeId|
                other != card ==> #[trigger] count(t.upgrades, other) == count(s.upgrades, other)
            &&& others_stay(g, h, i)
        }),
{
    a_discarded_card_is_gone(g.ships[i].upgrades, card);
}

/// A friend draws fire if it is near the defender and has the card.
pub proof fn martyrs_are_friends_at_range_one(g: Game, content: Content, sight: Sight, d: int)
    requires
        g.ships.len() <= usize::MAX,
        0 <= d < g.ships.len(),
    ensures
        ({
            let f = g.martyr(content, sight, d);
            let near = g.near(sight, d, 1);
            &&& f is Some ==> listed(near, 0, f->0 as int) && g.has(
                content,
                f->0 as int,
                UpgradeEffect::SufferCritForFriendly,
            )
            &&& f is None ==> forall|m: int|
                0 <= m < near.len() ==> !g.has(
                    content,
                    #[trigger] near[m] as int,
                    UpgradeEffect::SufferCritForFriendly,
                )
        }),
{
    reveal(Game::martyr);
    let near = g.near(sight, d, 1);
    picked_obey(g.friend_rule(sight, d, 1), 0, g.ships.len() as int);
    let rule = g.martyr_rule(content, near);
    first_is_first(rule, 0, near.len() as int);
    let k = first(rule, 0, near.len() as int);
    if k is Some {
        assert(rule(k->0 as int));
        assert(near[k->0 as int] == g.martyr(content, sight, d)->0);
    } else {
        assert forall|m: int| 0 <= m < near.len() implies !g.has(
            content,
            #[trigger] near[m] as int,
            UpgradeEffect::SufferCritForFriendly,
        ) by {
            assert(!rule(m));
        }
    }
}

/// Whom an Operations Specialist consoles after a miss: another living friend
/// of the attacker within Range 1-3, one without focus tokens if there is one.
pub proof fn specialists_console_a_friend(g: Game, sight: Sight, a: int, o: int)
    requires
        g.ships.len() <= usize::MAX,
        0 <= a < g.ships.len(),
    ensures
        ({
            let to = g.consoled(sight, a);
            &&& to is Some ==> comrade(g, sight, a, to->0 as int)
            &&& comrade(g, sight, a, o) ==> to is Some
            &&& comrade(g, sight, a, o) && g.ships[o].focus == 0 ==> g.ships[to->0 as int].focus
                == 0
        }),
{
    let n = g.ships.len() as int;
    let rule = g.comrade_rule(sight, a);
    let friends = picked(rule, 0, n);
    picked_in_order(rule, n);
    picked_obey(rule, 0, n);
    let poor = g.tokenless_rule(friends);
    first_is_first(poor, 0, friends.len() as int);
    let k = first(poor, 0, friends.len() as int);
    if comrade(g, sight, a, o) {
        assert(rule(o));
        assert(listed(friends, 0, o));
        let m = choose|m: int| 0 <= m < friends.len() && #[trigger] friends[m] == o;
        if g.ships[o].focus == 0 {
            assert(poor(m));
        }
    }
    if k is Some {
        assert(poor(k->0 as int));
        assert(rule(friends[k->0 as int] as int));
    } else if friends.len() > 0 {
        assert(rule(friends[0] as int));
    }
}

/// Ship `j` is another living friend of ship `a` within Range 1-3.
pub open spec fn comrade(g: Game, sight: Sight, a: int, j: int) -> bool {
    &&& 0 <= j < g.ships.len()
    &&& j != a
    &&& g.side(g.ships[j].owner) == g.side(g.ships[a].owner)
    &&& !g.ships[j].destroyed
    &&& g.ships[a].pose is Some && g.ships[j].pose is Some
    &&& sight.at(a, j).band is Some
}

/// Every Operations Specialist in reach of a miss gives its friend one focus
/// token, and nothing else changes.
pub proof fn consolation_is_one_token(
    g: Game,
    sight: Sight,
    a: int,
    places: Seq<usize>,
)
    requires
        g.ships.len() <= usize::MAX,
        0 <= a < g.ships.len(),
        places.len() == 1,
    ensures
        ({
            let h = g.consoling(sight, a, places, 0);
            let to = g.consoled(sight, a);
            &&& to is None ==> h == g
            &&& to is Some ==> h.ships[to->0 as int] == (ShipModel {
                focus: one_more(g.ships[to->0 as int].focus),
                ..g.ships[to->0 as int]
            }) && others_stay(g, h, to->0 as int)
        }),
{
    specialists_console_a_friend(g, sight, a, 0);
    let to = g.consoled(sight, a);
    let h = match to {
        Some(j) => g.with_ship(j as int, g.ships[j as int].with_focus()).saying(
            Event::OperationsSpecialist(places[0], j),
        ),
        None => g,
    };
    assert(h.consoling(sight, a, places, 1) == h);
}

/// Operations Specialists in reach of a miss: living friends of the attacker
/// with the card, itself or within Range 1-2 of it.
pub proof fn specialists_are_in_reach(g: Game, content: Content, sight: Sight, a: int, k: int)
    requires
        0 <= a < g.ships.len(),
        0 <= k < g.ships.len(),
    ensures
        g.specialist_rule(content, sight, a)(k) <==> g.side(g.ships[k].owner) == g.side(
            g.ships[a].owner,
        ) && !g.ships[k].destroyed && g.has(
            content,
            k,
            UpgradeEffect::CrewFocusAfterFriendlyMiss,
        ) && (k == a || (g.ships[k].pose is Some && g.ships[a].pose is Some && (sight.at(k, a).band
            == Some(1u8) || sight.at(k, a).band == Some(2u8)))),
{
}

/// Tactician stresses a living defender at Range 2 in arc, and nobody else.
pub proof fn tacticians_stress_at_range_two(
    g: Game,
    content: Content,
    sight: Sight,
    a: int,
    d: int,
    range: u8,
)
    ensures
        ({
            let acts = range == 2 && !g.ships[d].destroyed && g.has(
                content,
                a,
                UpgradeEffect::CrewStressTargetAtRange2InArc,
            ) && g.ships[a].pose is Some && g.ships[d].pose is Some && sight.at(a, d).in_arc;
            g.tactician(content, sight, a, d, range) == if acts {
                g.saying(Event::Tactician(a as usize, d as usize)).stressed(content, sight, d)
            } else {
                g
            }
        }),
{
}

/// "Epsilon Leader" and Wingman relieve only friends at Range 1, and without
/// either nobody is relieved.
pub proof fn leaders_relieve_friends(g: Game, content: Content, sight: Sight, i: int)
    requires
        g.ships[i].ability(content) != Some(
            PilotAbility::RemoveStressFriendlyRange1AtCombatStart,
        ),
        !g.has(content, i, UpgradeEffect::RemoveStressFriendlyAtCombatStart),
    ensures
        g.relieved(content, sight, i) == g,
{
    reveal(Game::relieved);
}

/// A Wingman takes a stress token off the first stressed friend at Range 1.
pub proof fn wingmen_relieve_one_friend(
    g: Game,
    content: Content,
    sight: Sight,
    i: int,
    m: int,
)
    requires
        g.ships.len() <= usize::MAX,
        0 <= i < g.ships.len(),
        g.ships[i].ability(content) != Some(
            PilotAbility::RemoveStressFriendlyRange1AtCombatStart,
        ),
        g.has(content, i, UpgradeEffect::RemoveStressFriendlyAtCombatStart),
        0 <= m < g.near(sight, i, 1).len(),
        g.ships[g.near(sight, i, 1)[m] as int].stress > 0,
        forall|l: int| 0 <= l < m ==> g.ships[#[trigger] g.near(sight, i, 1)[l] as int].stress == 0,
    ensures
        ({
            let h = g.relieved(content, sight, i);
            let f = g.near(sight, i, 1)[m] as int;
            h.ships[f].stress == g.ships[f].stress - 1 && others_stay(g, h, f)
        }),
{
    reveal(Game::relieved);
    let near = g.near(sight, i, 1);
    picked_obey(g.friend_rule(sight, i, 1), 0, g.ships.len() as int);
    let rule = g.tense_rule(near);
    first_is_first(rule, 0, near.len() as int);
    assert(rule(m));
    assert forall|l: int| 0 <= l < m implies !#[trigger] rule(l) by {
        assert(g.ships[near[l] as int].stress == 0);
    }
    assert(first(rule, 0, near.len() as int) == Some(m as usize));
}

} // verus!
