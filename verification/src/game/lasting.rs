//! What lasts through an attack: who is who, which ships are destroyed, and
//! which cards have been used this round.

use vstd::prelude::*;

use crate::action::{BoostDir, PlannedAction};
use crate::bombs::{BombKind, DropSpots};
use crate::crit::CritEffect;
use crate::data::Content;
use crate::dice::{spot, AttackFace, DefenseFace};
use crate::event::{Event, Locker, Why};
use crate::game::actions::Moves;
use crate::game::impact::Toll;
use crate::game::mods::{best_die, Throw};
use crate::game::state::{Game, Play, Shot};
use crate::game::tokens::{point, DamagePoint};
use crate::game::volley::{Spent, Verdict};
use crate::geometry::Pose;
use crate::pick::{first, first_is_first, picked, picked_obey};
use crate::pilot::PilotAbility;
use crate::ship::{sat, ShipId, ShipModel};
use crate::sight::Sight;
use crate::upgrade::{UpgradeEffect, UpgradeId};

verus! {

impl ShipModel {
    /// A ship without hull is destroyed, unless it lingers.
    pub open spec fn sound(self) -> bool {
        self.hull > 0 || self.destroyed || self.lingers
    }

    /// The same ship later in the round, under the same callsign: destroyed
    /// once it was destroyed, sound if it was sound, and with every card used
    /// that it had used.
    pub open spec fn endures(self, later: ShipModel) -> bool {
        &&& later.identity() == self.identity()
        &&& later.callsign == self.callsign
        &&& self.destroyed ==> later.destroyed
        &&& self.sound() ==> later.sound()
        &&& self.used_round.len() <= later.used_round.len()
        &&& forall|k: int|
            0 <= k < self.used_round.len() ==> #[trigger] later.used_round[k]
                == self.used_round[k]
    }
}

impl Game {
    /// The same game later in the round: every ship endures, and neither the
    /// seats nor the bookkeeping of the round have changed.
    #[verifier::opaque]
    pub open spec fn lasts(self, later: Game) -> bool {
        &&& later.ships.len() == self.ships.len()
        &&& later.phase == self.phase
        &&& later.turn == self.turn
        &&& later.committed == self.committed
        &&& later.winner == self.winner
        &&& later.initiative == self.initiative
        &&& later.squad_totals == self.squad_totals
        &&& later.teams == self.teams
        &&& later.combat == self.combat
        &&& later.white_reds.len() == self.white_reds.len()
        &&& later.mission == self.mission
        &&& forall|k: int|
            0 <= k < self.ships.len() ==> (#[trigger] self.ships[k]).endures(later.ships[k])
    }

    /// Every ship has a place that a list can number.
    pub open spec fn fits(self) -> bool {
        self.ships.len() <= usize::MAX
    }

    /// Every one of the places is that of a ship.
    pub open spec fn holds_all(self, places: Seq<usize>) -> bool {
        forall|k: int| 0 <= k < places.len() ==> #[trigger] places[k] < self.ships.len()
    }
}

pub(crate) broadcast proof fn lasts_itself(g: Game)
    ensures
        #[trigger] g.lasts(g),
{
    reveal(Game::lasts);
}

pub(crate) broadcast proof fn lasts_on(a: Game, b: Game, c: Game)
    requires
        #[trigger] a.lasts(b),
        #[trigger] b.lasts(c),
    ensures
        a.lasts(c),
{
    reveal(Game::lasts);
    assert forall|k: int| 0 <= k < a.ships.len() implies (#[trigger] a.ships[k]).endures(
        c.ships[k],
    ) by {
        assert(b.ships[k].endures(c.ships[k]));
    }
}

pub(crate) broadcast proof fn lasting_keeps_count(a: Game, b: Game)
    requires
        #[trigger] a.lasts(b),
    ensures
        b.ships.len() == a.ships.len(),
{
    reveal(Game::lasts);
}

pub(crate) broadcast proof fn ship_lasts(g: Game, i: int, ship: ShipModel)
    requires
        0 <= i < g.ships.len(),
        g.ships[i].endures(ship),
    ensures
        g.lasts(#[trigger] g.with_ship(i, ship)),
{
    reveal(Game::lasts);
}

pub(crate) broadcast proof fn saying_lasts(g: Game, event: Event)
    ensures
        g.lasts(#[trigger] g.saying(event)),
{
    reveal(Game::lasts);
}

pub(crate) broadcast proof fn found_is_held(g: Game, rule: spec_fn(int) -> bool, k: int)
    requires
        g.fits(),
        0 <= k,
    ensures
        (#[trigger] first(rule, k, g.ships.len() as int)) is Some ==> first(
            rule,
            k,
            g.ships.len() as int,
        )->0 < g.ships.len(),
{
    first_is_first(rule, k, g.ships.len() as int);
}

pub(crate) broadcast proof fn picked_are_held(g: Game, rule: spec_fn(int) -> bool, k: int)
    requires
        g.fits(),
        0 <= k,
    ensures
        g.holds_all(#[trigger] picked(rule, k, g.ships.len() as int)),
        picked(rule, k, g.ships.len() as int).len() <= g.ships.len(),
{
    picked_obey(rule, k, g.ships.len() as int);
}

pub(crate) broadcast group steady {
    lasts_itself,
    lasts_on,
    lasting_keeps_count,
    ship_lasts,
    saying_lasts,
    found_is_held,
    picked_are_held,
}

pub(crate) broadcast proof fn damage_lasts(g: Game, i: int)
    requires
        g.fits(),
        0 <= i < g.ships.len(),
    ensures
        g.lasts(#[trigger] g.damaged(i)),
{
    broadcast use steady;
}

pub(crate) broadcast proof fn hull_damage_lasts(g: Game, i: int)
    requires
        g.fits(),
        0 <= i < g.ships.len(),
    ensures
        g.lasts(#[trigger] g.hulled(i)),
{
    broadcast use steady;
}

pub(crate) broadcast proof fn marking_lasts(g: Game, i: int, card: UpgradeId)
    requires
        g.fits(),
        0 <= i < g.ships.len(),
    ensures
        g.lasts(#[trigger] g.marking(i, card)),
{
    broadcast use steady;
}

pub(crate) broadcast proof fn use_lasts(g: Game, content: Content, i: int, e: UpgradeEffect)
    requires
        g.fits(),
        0 <= i < g.ships.len(),
    ensures
        g.lasts(#[trigger] g.used(content, i, e)),
{
    broadcast use {steady, marking_lasts};
}

pub(crate) broadcast proof fn ordnance_lasts(g: Game, i: int, card: UpgradeId)
    requires
        g.fits(),
        0 <= i < g.ships.len(),
    ensures
        g.lasts(#[trigger] g.ordnance_spent(i, card)),
{
    broadcast use steady;
}

pub(crate) broadcast proof fn discarding_lasts(
    g: Game,
    content: Content,
    i: int,
    card: UpgradeId,
    why: Why,
)
    requires
        g.fits(),
        0 <= i < g.ships.len(),
    ensures
        g.lasts(#[trigger] g.discarding(content, i, card, why)),
{
    broadcast use steady;
}

pub(crate) broadcast proof fn locking_lasts(g: Game, content: Content, i: int, e: int)
    requires
        g.fits(),
        0 <= i < g.ships.len(),
    ensures
        g.lasts(#[trigger] g.locking(content, i, e)),
{
    broadcast use steady;
}

pub(crate) broadcast proof fn auto_locking_lasts(
    g: Game,
    content: Content,
    sight: Sight,
    i: int,
    bands: u8,
    who: Locker,
)
    requires
        g.fits(),
        0 <= i < g.ships.len(),
    ensures
        g.lasts(#[trigger] g.auto_locking(content, sight, i, bands, who)),
{
    broadcast use {steady, locking_lasts};
}

pub(crate) broadcast proof fn second_locking_lasts(g: Game, sight: Sight, i: int, already: ShipId)
    requires
        g.fits(),
        0 <= i < g.ships.len(),
    ensures
        g.lasts(#[trigger] g.second_locking(sight, i, already)),
{
    broadcast use steady;
}

pub(crate) broadcast proof fn freeing_lasts(g: Game, i: int, friends: Seq<usize>, k: int)
    requires
        g.fits(),
        0 <= i < g.ships.len(),
        g.holds_all(friends),
        0 <= k,
    ensures
        g.lasts(#[trigger] g.freeing_from(i, friends, k)),
    decreases friends.len() - k,
{
    broadcast use steady;

    if k < friends.len() {
        assert(friends[k] < g.ships.len());
        freeing_lasts(g, i, friends, k + 1);
    }
}

pub(crate) broadcast proof fn repositioning_lasts(g: Game, content: Content, sight: Sight, i: int)
    requires
        g.fits(),
        0 <= i < g.ships.len(),
    ensures
        g.lasts(#[trigger] g.repositioned(content, sight, i)),
{
    broadcast use steady;

    reveal(Game::repositioned);
    let friends = seq![i as usize] + g.near(sight, i, 1);
    assert(g.holds_all(g.near(sight, i, 1)));
    assert(g.holds_all(friends)) by {
        assert forall|k: int| 0 <= k < friends.len() implies #[trigger] friends[k]
            < g.ships.len() by {
            if k > 0 {
                assert(friends[k] == g.near(sight, i, 1)[k - 1]);
            }
        }
    }
    freeing_lasts(g, i, friends, 0);
}

pub(crate) broadcast proof fn answering_lasts(g: Game, content: Content, sight: Sight, i: int)
    requires
        g.fits(),
        0 <= i < g.ships.len(),
    ensures
        g.lasts(#[trigger] g.stress_answered(content, sight, i)),
{
    broadcast use steady;
}

pub(crate) broadcast proof fn shield_loss_lasts(g: Game, content: Content, i: int)
    requires
        g.fits(),
        0 <= i < g.ships.len(),
    ensures
        g.lasts(#[trigger] g.shield_lost(content, i)),
{
    broadcast use steady;
}

pub(crate) broadcast proof fn watching_lasts(g: Game, content: Content, i: int, before: u8)
    requires
        g.fits(),
        0 <= i < g.ships.len(),
    ensures
        g.lasts(#[trigger] g.shields_watched(content, i, before)),
{
    broadcast use {steady, shield_loss_lasts};
}

pub(crate) broadcast proof fn taking_stress_lasts(g: Game, content: Content, sight: Sight, i: int)
    requires
        g.fits(),
        0 <= i < g.ships.len(),
    ensures
        g.lasts(#[trigger] g.taking_stress(content, sight, i)),
{
    broadcast use {steady, damage_lasts, answering_lasts, discarding_lasts, watching_lasts};
}

pub(crate) broadcast proof fn stress_lasts(g: Game, content: Content, sight: Sight, i: int)
    requires
        g.fits(),
        0 <= i < g.ships.len(),
    ensures
        g.lasts(#[trigger] g.stressed(content, sight, i)),
{
    broadcast use {steady, taking_stress_lasts};

    reveal(Game::stressed);
    let friends = g.near(sight, i, 2);
    assert(g.holds_all(friends));
    first_is_first(g.yorr_rule(content, friends), 0, friends.len() as int);
}

proof fn fewest_is_held(g: Game, places: Seq<usize>, k: int, best: Option<usize>)
    requires
        g.holds_all(places),
        0 <= k,
        best is Some ==> best->0 < g.ships.len(),
    ensures
        g.fewest_focus(places, k, best) is Some ==> g.fewest_focus(places, k, best)->0
            < g.ships.len(),
    decreases places.len() - k,
{
    if k < places.len() {
        assert(places[k] < g.ships.len());
        if best is None || g.ships[places[k] as int].focus < g.ships[best->0 as int].focus {
            fewest_is_held(g, places, k + 1, Some(places[k]));
        } else {
            fewest_is_held(g, places, k + 1, best);
        }
    }
}

pub(crate) broadcast proof fn chasing_lasts(g: Game, content: Content, places: Seq<usize>, k: int)
    requires
        g.fits(),
        g.holds_all(places),
        0 <= k,
    ensures
        g.lasts(#[trigger] g.chasing(content, places, k)),
    decreases places.len() - k,
{
    broadcast use steady;

    if k < places.len() {
        let f = places[k] as int;
        assert(f < g.ships.len());
        let h = if g.can(content, f, PilotAbility::FocusWhenFriendlySpendsFocusRange1) {
            g.with_ship(f, g.ships[f].with_focus()).saying(Event::FriendSpentFocus(places[k]))
        } else {
            g
        };
        assert(g.lasts(h));
        chasing_lasts(h, content, places, k + 1);
    }
}

pub(crate) broadcast proof fn focus_lasts(g: Game, content: Content, sight: Sight, i: int)
    requires
        g.fits(),
        0 <= i < g.ships.len(),
    ensures
        g.lasts(#[trigger] g.focus_spent(content, sight, i)),
{
    broadcast use {steady, chasing_lasts};

    reveal(Game::focus_spent);
    assert(g.holds_all(g.near(sight, i, 2)));
    fewest_is_held(g, g.near(sight, i, 2), 0, None);
}

pub(crate) broadcast proof fn hit_discards_last(
    g: Game,
    content: Content,
    i: int,
    cards: Seq<UpgradeId>,
    k: int,
)
    requires
        g.fits(),
        0 <= i < g.ships.len(),
        0 <= k,
    ensures
        g.lasts(#[trigger] g.hit_discards(content, i, cards, k)),
    decreases cards.len() - k,
{
    broadcast use steady;

    if k < cards.len() {
        let h = g.with_ship(i, g.ships[i].without(cards[k])).saying(
            Event::DiscardedOnHit(i as usize, cards[k]),
        );
        assert(g.lasts(h));
        hit_discards_last(h, content, i, cards, k + 1);
        hit_discards_last(g, content, i, cards, k + 1);
    }
}

pub(crate) broadcast proof fn swarming_lasts(g: Game, a: int, places: Seq<usize>, k: int)
    requires
        g.fits(),
        g.holds_all(places),
        0 <= k,
    ensures
        g.lasts(#[trigger] g.swarming(a, places, k)),
    decreases places.len() - k,
{
    broadcast use steady;

    if k < places.len() && k < 2 {
        let f = places[k] as int;
        assert(f < g.ships.len());
        let h = g.with_ship(f, g.ships[f].less_evade()).saying(
            Event::SwarmLeader(a as usize, places[k]),
        );
        assert(g.lasts(h));
        swarming_lasts(h, a, places, k + 1);
    }
}

pub(crate) broadcast proof fn swarm_lasts(g: Game, sight: Sight, a: int, d: int)
    requires
        g.fits(),
    ensures
        g.lasts(#[trigger] g.swarmed(sight, a, d)),
{
    broadcast use {steady, swarming_lasts};
}

pub(crate) broadcast proof fn dealing_lasts(p: Play, content: Content, a: int)
    requires
        p.game.fits(),
    ensures
        p.game.lasts((#[trigger] p.dealt(content, a)).0.game),
{
    broadcast use steady;
}

pub(crate) broadcast proof fn extra_point_lasts(p: Play, i: int)
    requires
        p.game.fits(),
        0 <= i < p.game.ships.len(),
    ensures
        p.game.lasts((#[trigger] p.extra_point(i)).0.game),
{
    broadcast use {steady, damage_lasts};
}

pub(crate) broadcast proof fn crit_resolving_lasts(p: Play, i: int, effect: CritEffect)
    requires
        p.game.fits(),
        0 <= i < p.game.ships.len(),
    ensures
        p.game.lasts((#[trigger] p.crit_resolved(i, effect)).0.game),
{
    broadcast use {steady, extra_point_lasts};
}

pub(crate) broadcast proof fn crit_lasts(p: Play, content: Content, i: int, effect: CritEffect)
    requires
        p.game.fits(),
        0 <= i < p.game.ships.len(),
    ensures
        p.game.lasts((#[trigger] p.crit(content, i, effect)).0.game),
{
    broadcast use {steady, crit_resolving_lasts, discarding_lasts};

    reveal(Play::crit);
}

pub(crate) broadcast proof fn critical_lasts(p: Play, content: Content, i: int)
    requires
        p.game.fits(),
        0 <= i < p.game.ships.len(),
    ensures
        p.game.lasts((#[trigger] p.critical(content, i)).game),
{
    broadcast use {steady, crit_lasts};
}

pub(crate) broadcast group tokens_last {
    damage_lasts,
    hull_damage_lasts,
    marking_lasts,
    use_lasts,
    ordnance_lasts,
    discarding_lasts,
    locking_lasts,
    auto_locking_lasts,
    second_locking_lasts,
    freeing_lasts,
    repositioning_lasts,
    answering_lasts,
    taking_stress_lasts,
    stress_lasts,
    shield_loss_lasts,
    watching_lasts,
    chasing_lasts,
    focus_lasts,
    hit_discards_last,
    swarming_lasts,
    swarm_lasts,
    dealing_lasts,
    extra_point_lasts,
    crit_resolving_lasts,
    crit_lasts,
    critical_lasts,
}

pub(crate) broadcast proof fn moving_lasts(g: Game, i: int, pose: Pose)
    requires
        g.fits(),
        0 <= i < g.ships.len(),
    ensures
        g.lasts(#[trigger] g.moved(i, pose)),
{
    broadcast use steady;
}

pub(crate) broadcast proof fn protecting_lasts(g: Game, sight: Sight, i: int)
    requires
        g.fits(),
    ensures
        g.lasts((#[trigger] g.protecting(sight, i)).0),
{
    broadcast use steady;
}

pub(crate) broadcast proof fn jan_lasts(g: Game, content: Content, sight: Sight, i: int)
    requires
        g.fits(),
        0 <= i < g.ships.len(),
    ensures
        g.lasts(#[trigger] g.jan_swapped(content, sight, i)),
{
    broadcast use {steady, tokens_last};

    reveal(Game::jan_swapped);
}

pub(crate) broadcast proof fn focusing_lasts(g: Game, content: Content, sight: Sight, i: int)
    requires
        g.fits(),
        0 <= i < g.ships.len(),
    ensures
        g.lasts(#[trigger] g.focusing(content, sight, i)),
{
    broadcast use {steady, jan_lasts};
}

pub(crate) broadcast proof fn evading_lasts(g: Game, content: Content, i: int)
    requires
        g.fits(),
        0 <= i < g.ships.len(),
    ensures
        g.lasts(#[trigger] g.evading(content, i)),
{
    broadcast use steady;
}

pub(crate) broadcast proof fn expert_roll_lasts(g: Game, content: Content, sight: Sight, i: int)
    requires
        g.fits(),
        0 <= i < g.ships.len(),
    ensures
        g.lasts(#[trigger] g.expert_rolled(content, sight, i)),
{
    broadcast use {steady, tokens_last};
}

pub(crate) broadcast proof fn rolling_lasts(
    g: Game,
    content: Content,
    moves: Moves,
    i: int,
    bank: bool,
)
    requires
        g.fits(),
        0 <= i < g.ships.len(),
    ensures
        g.lasts((#[trigger] g.rolling(content, moves, i, bank)).0),
{
    broadcast use {steady, tokens_last, moving_lasts, expert_roll_lasts};
}

pub(crate) broadcast proof fn boosting_lasts(
    g: Game,
    content: Content,
    moves: Moves,
    i: int,
    dir: BoostDir,
)
    requires
        g.fits(),
        0 <= i < g.ships.len(),
    ensures
        g.lasts((#[trigger] g.boosting(content, moves, i, dir)).0),
{
    broadcast use {steady, tokens_last, moving_lasts};
}

pub(crate) broadcast proof fn dutch_lasts(
    g: Game,
    content: Content,
    sight: Sight,
    places: Seq<usize>,
    k: int,
)
    requires
        g.fits(),
        g.holds_all(places),
        0 <= k,
    ensures
        g.lasts(#[trigger] g.dutch_from(content, sight, places, k)),
    decreases places.len() - k,
{
    broadcast use {steady, tokens_last};

    if k < places.len() {
        assert(places[k] < g.ships.len());
        dutch_lasts(g, content, sight, places, k + 1);
    }
}

pub(crate) broadcast proof fn locking_on_lasts(
    g: Game,
    content: Content,
    sight: Sight,
    i: int,
    wanted: ShipId,
)
    requires
        g.fits(),
        0 <= i < g.ships.len(),
    ensures
        g.lasts((#[trigger] g.locking_on(content, sight, i, wanted)).0),
{
    broadcast use {steady, tokens_last, dutch_lasts};
}

pub(crate) broadcast proof fn dropping_lasts(
    g: Game,
    i: int,
    card: UpgradeId,
    kind: BombKind,
    spots: DropSpots,
)
    requires
        g.fits(),
        0 <= i < g.ships.len(),
    ensures
        g.lasts(#[trigger] g.dropping(i, card, kind, spots)),
{
    broadcast use {steady, tokens_last};

    let h = if g.ships[i].ordnance.contains(card) {
        g.ordnance_spent(i, card)
    } else {
        g.with_ship(i, g.ships[i].without(card))
    };
    let h = h.saying(Event::Drops(i as usize, card));
    assert(g.lasts(h));
    assert(g.lasts(g.dropping(i, card, kind, spots))) by {
        reveal(Game::lasts);
    }
}

pub(crate) broadcast proof fn officer_lasts(g: Game, i: int, places: Seq<usize>, k: int)
    requires
        g.fits(),
        g.holds_all(places),
        0 <= k,
    ensures
        g.lasts(#[trigger] g.officer(i, places, k)),
    decreases places.len() - k,
{
    broadcast use steady;

    if k < places.len() && k < 2 {
        let f = places[k] as int;
        assert(f < g.ships.len());
        let h = g.with_ship(f, g.ships[f].with_focus()).saying(
            Event::FleetOfficer(i as usize, places[k]),
        );
        assert(g.lasts(h));
        officer_lasts(h, i, places, k + 1);
    }
}

pub(crate) broadcast proof fn commanding_lasts(g: Game, content: Content, sight: Sight, i: int)
    requires
        g.fits(),
        0 <= i < g.ships.len(),
    ensures
        g.lasts(#[trigger] g.commanding(content, sight, i)),
{
    broadcast use {steady, tokens_last};

    reveal(Game::commanding);
    let near = g.near(sight, i, 2);
    let places = seq![i as usize] + near;
    assert(g.holds_all(near));
    assert forall|k: int| 0 <= k < places.len() implies #[trigger] places[k] < g.ships.len() by {
        if k > 0 {
            assert(places[k] == near[k - 1]);
        }
    }
    officer_lasts(g, i, places, 0);
}

pub(crate) broadcast proof fn leading_lasts(g: Game, content: Content, sight: Sight, i: int)
    requires
        g.fits(),
        0 <= i < g.ships.len(),
    ensures
        g.lasts((#[trigger] g.leading(content, sight, i)).0),
{
    broadcast use steady;

    reveal(Game::leading);
    let friends = g.near(sight, i, 2);
    assert(g.holds_all(friends));
    first_is_first(g.lower_rule(content, i, friends), 0, friends.len() as int);
}

pub(crate) broadcast proof fn r7t1_lasts(
    g: Game,
    content: Content,
    sight: Sight,
    moves: Moves,
    i: int,
)
    requires
        g.fits(),
        0 <= i < g.ships.len(),
    ensures
        g.lasts((#[trigger] g.r7t1(content, sight, moves, i)).0),
{
    broadcast use {steady, tokens_last, moving_lasts};

    reveal(Game::r7t1);
}

pub(crate) broadcast proof fn card_action_lasts(
    g: Game,
    content: Content,
    sight: Sight,
    moves: Moves,
    i: int,
    card: UpgradeId,
)
    requires
        g.fits(),
        0 <= i < g.ships.len(),
    ensures
        g.lasts((#[trigger] g.card_acting(content, sight, moves, i, card)).0),
{
    broadcast use {steady, tokens_last, commanding_lasts, leading_lasts, r7t1_lasts};
}

pub(crate) broadcast group actions_last {
    moving_lasts,
    protecting_lasts,
    jan_lasts,
    focusing_lasts,
    evading_lasts,
    expert_roll_lasts,
    rolling_lasts,
    boosting_lasts,
    dutch_lasts,
    locking_on_lasts,
    dropping_lasts,
    officer_lasts,
    commanding_lasts,
    leading_lasts,
    r7t1_lasts,
    card_action_lasts,
}

/// Whatever action a ship performs, the game lasts through it.
pub broadcast proof fn performing_lasts(
    g: Game,
    content: Content,
    sight: Sight,
    moves: Moves,
    i: int,
    planned: PlannedAction,
)
    requires
        g.fits(),
        0 <= i < g.ships.len(),
    ensures
        g.lasts((#[trigger] g.performing(content, sight, moves, i, planned)).0),
{
    broadcast use {steady, actions_last};

    reveal(Game::performing);
}

pub(crate) broadcast proof fn predator_lasts(t: Throw<AttackFace>, content: Content, a: int, d: int)
    requires
        t.game.fits(),
    ensures
        t.game.lasts((#[trigger] t.predator(content, a, d)).game),
{
    broadcast use steady;
}

pub(crate) broadcast proof fn rage_lasts(t: Throw<AttackFace>, content: Content, a: int)
    requires
        t.game.fits(),
    ensures
        t.game.lasts((#[trigger] t.rage(content, a)).game),
{
    broadcast use steady;
}

pub(crate) broadcast proof fn lone_wolf_lasts(
    t: Throw<AttackFace>,
    content: Content,
    sight: Sight,
    a: int,
)
    requires
        t.game.fits(),
    ensures
        t.game.lasts((#[trigger] t.lone_wolf(content, sight, a)).game),
{
    broadcast use steady;
}

pub(crate) broadcast proof fn wired_lasts(t: Throw<AttackFace>, content: Content, a: int)
    requires
        t.game.fits(),
    ensures
        t.game.lasts((#[trigger] t.wired(content, a)).game),
{
    broadcast use steady;
}

pub(crate) broadcast proof fn blanks_rerolled_lasts(
    t: Throw<AttackFace>,
    content: Content,
    sight: Sight,
    a: int,
    d: int,
)
    requires
        t.game.fits(),
    ensures
        t.game.lasts((#[trigger] t.blanks_rerolled(content, sight, a, d)).game),
{
    broadcast use steady;
}

pub(crate) broadcast group talents_last {
    predator_lasts,
    rage_lasts,
    lone_wolf_lasts,
    wired_lasts,
    blanks_rerolled_lasts,
}

pub(crate) broadcast proof fn attack_talents_last(
    t: Throw<AttackFace>,
    content: Content,
    sight: Sight,
    a: int,
    d: int,
)
    requires
        t.game.fits(),
    ensures
        t.game.lasts((#[trigger] t.talents(content, sight, a, d)).game),
{
    broadcast use {steady, talents_last};
}

pub(crate) broadcast proof fn eluding_lasts(
    t: Throw<AttackFace>,
    content: Content,
    sight: Sight,
    d: int,
)
    requires
        t.game.fits(),
        0 <= d < t.game.ships.len(),
    ensures
        t.game.lasts((#[trigger] t.eluded(content, sight, d)).game),
{
    broadcast use {steady, tokens_last};
}

pub(crate) broadcast proof fn lock_reroll_lasts(
    t: Throw<AttackFace>,
    content: Content,
    a: int,
    d: int,
)
    requires
        t.game.fits(),
        0 <= d < t.game.ships.len(),
    ensures
        t.game.lasts((#[trigger] t.lock_rerolled(content, a, d)).game),
{
    broadcast use steady;
}

pub(crate) broadcast proof fn m9g8_lasts(t: Throw<AttackFace>, a: int, places: Seq<usize>, k: int)
    requires
        t.game.fits(),
        t.game.holds_all(places),
        0 <= k,
    ensures
        t.game.lasts((#[trigger] t.m9g8(a, places, k)).game),
    decreases places.len() - k,
{
    broadcast use steady;

    if k < places.len() {
        let die = if !t.game.same_side(places[k] as int, a) {
            best_die(t.faces)
        } else {
            spot(t.faces, AttackFace::Blank)
        };
        let u = match die {
            Some(p) => t.reroll_at(p).saying(Event::M9G8(places[k])),
            None => t,
        };
        assert(t.game.lasts(u.game));
        m9g8_lasts(u, a, places, k + 1);
    }
}

pub(crate) broadcast proof fn forcing_lasts(
    t: Throw<AttackFace>,
    content: Content,
    sight: Sight,
    a: int,
    d: int,
)
    requires
        t.game.fits(),
        0 <= d < t.game.ships.len(),
    ensures
        t.game.lasts((#[trigger] t.forced(content, sight, a, d)).game),
{
    broadcast use {steady, eluding_lasts, lock_reroll_lasts, m9g8_lasts};
}

pub(crate) broadcast proof fn rey_guard_lasts(
    t: Throw<DefenseFace>,
    content: Content,
    sight: Sight,
    a: int,
    d: int,
)
    requires
        t.game.fits(),
    ensures
        t.game.lasts((#[trigger] t.rey(content, sight, a, d)).game),
{
    broadcast use steady;
}

pub(crate) broadcast proof fn lone_wolf_guard_lasts(
    t: Throw<DefenseFace>,
    content: Content,
    sight: Sight,
    d: int,
)
    requires
        t.game.fits(),
    ensures
        t.game.lasts((#[trigger] t.lone_wolf(content, sight, d)).game),
{
    broadcast use steady;
}

pub(crate) broadcast proof fn wired_guard_lasts(t: Throw<DefenseFace>, content: Content, d: int)
    requires
        t.game.fits(),
    ensures
        t.game.lasts((#[trigger] t.wired(content, d)).game),
{
    broadcast use steady;
}

pub(crate) broadcast group wits_last {
    rey_guard_lasts,
    lone_wolf_guard_lasts,
    wired_guard_lasts,
}

pub(crate) broadcast proof fn defense_talents_last(
    t: Throw<DefenseFace>,
    content: Content,
    sight: Sight,
    a: int,
    d: int,
)
    requires
        t.game.fits(),
    ensures
        t.game.lasts((#[trigger] t.talents(content, sight, a, d)).game),
{
    broadcast use {steady, wits_last};
}

pub(crate) broadcast proof fn opportunist_lasts(
    g: Game,
    content: Content,
    sight: Sight,
    a: int,
    d: int,
)
    requires
        g.fits(),
        0 <= a < g.ships.len(),
    ensures
        g.lasts(#[trigger] g.opportunist(content, sight, a, d)),
{
    broadcast use {steady, tokens_last};
}

pub(crate) broadcast proof fn extra_die_lasts(
    g: Game,
    content: Content,
    sight: Sight,
    a: int,
    d: int,
    range: u8,
)
    requires
        g.fits(),
        0 <= a < g.ships.len(),
    ensures
        g.lasts(#[trigger] g.extra_died(content, sight, a, d, range)),
{
    broadcast use {steady, tokens_last};
}

pub(crate) broadcast proof fn free_attack_mods_last(
    g: Game,
    content: Content,
    a: int,
    range: u8,
    faces: Seq<AttackFace>,
)
    requires
        g.fits(),
    ensures
        g.lasts((#[trigger] g.free_attack_mods(content, a, range, faces)).0),
{
    broadcast use steady;
}

pub(crate) broadcast proof fn weapon_attack_mods_last(
    g: Game,
    a: int,
    effect: Option<UpgradeEffect>,
    faces: Seq<AttackFace>,
)
    requires
        g.fits(),
    ensures
        g.lasts((#[trigger] g.weapon_attack_mods(a, effect, faces)).0),
{
    broadcast use steady;
}

pub(crate) broadcast proof fn free_defense_mods_last(
    g: Game,
    content: Content,
    d: int,
    incoming: u8,
    faces: Seq<DefenseFace>,
)
    requires
        g.fits(),
    ensures
        g.lasts((#[trigger] g.free_defense_mods(content, d, incoming, faces)).0),
{
    broadcast use steady;
}

pub(crate) broadcast group mods_last {
    attack_talents_last,
    eluding_lasts,
    lock_reroll_lasts,
    m9g8_lasts,
    forcing_lasts,
    defense_talents_last,
    opportunist_lasts,
    extra_die_lasts,
    free_attack_mods_last,
    weapon_attack_mods_last,
    free_defense_mods_last,
}

pub(crate) broadcast proof fn han_lasts(t: Throw<AttackFace>, content: Content, a: int)
    requires
        t.game.fits(),
    ensures
        t.game.lasts((#[trigger] t.han_solo(content, a)).game),
{
    broadcast use steady;

    reveal(Throw::han_solo);
}

pub(crate) broadcast proof fn lock_spending_lasts(t: Throw<AttackFace>, a: int, defender: ShipId)
    requires
        t.game.fits(),
        0 <= a < t.game.ships.len(),
    ensures
        t.game.lasts((#[trigger] t.lock_spent(a, defender)).0.game),
{
    broadcast use steady;

    reveal(Throw::lock_spent);
}

pub(crate) broadcast proof fn befriending_lasts(
    t: Throw<AttackFace>,
    content: Content,
    sight: Sight,
    a: int,
    shot: Shot,
)
    requires
        t.game.fits(),
    ensures
        t.game.lasts((#[trigger] t.befriended(content, sight, a, shot)).game),
{
    broadcast use steady;

    reveal(Throw::befriended);
}

pub(crate) broadcast proof fn jonus_lasts(
    t: Throw<AttackFace>,
    content: Content,
    sight: Sight,
    a: int,
    shot: Shot,
)
    requires
        t.game.fits(),
    ensures
        t.game.lasts((#[trigger] t.jonus(content, sight, a, shot)).game),
{
    broadcast use steady;

    reveal(Throw::jonus);
}

pub(crate) broadcast proof fn computing_lasts(
    g: Game,
    content: Content,
    a: int,
    shot: Shot,
    faces: Seq<AttackFace>,
)
    requires
        g.fits(),
    ensures
        g.lasts((#[trigger] g.computing(content, a, shot, faces)).0),
{
    broadcast use steady;

    reveal(Game::computing);
}

pub(crate) broadcast proof fn han_crew_lasts(
    g: Game,
    content: Content,
    a: int,
    defender: ShipId,
    faces: Seq<AttackFace>,
)
    requires
        g.fits(),
        0 <= a < g.ships.len(),
    ensures
        g.lasts((#[trigger] g.han_crew(content, a, defender, faces)).0),
{
    broadcast use steady;

    reveal(Game::han_crew);
}

pub(crate) broadcast proof fn omega_lasts(
    g: Game,
    content: Content,
    a: int,
    defender: ShipId,
    faces: Seq<AttackFace>,
)
    requires
        g.fits(),
        0 <= a < g.ships.len(),
    ensures
        g.lasts((#[trigger] g.omega_ace(content, a, defender, faces)).0),
{
    broadcast use steady;

    reveal(Game::omega_ace);
}

pub(crate) broadcast group rerolls_last {
    han_lasts,
    lock_spending_lasts,
    befriending_lasts,
    jonus_lasts,
    computing_lasts,
    han_crew_lasts,
    omega_lasts,
}

pub(crate) broadcast proof fn helping_lasts(
    t: Throw<AttackFace>,
    content: Content,
    sight: Sight,
    a: int,
    shot: Shot,
)
    requires
        t.game.fits(),
    ensures
        t.game.lasts((#[trigger] t.helped(content, sight, a, shot)).game),
{
    broadcast use {steady, mods_last, rerolls_last};
}

pub(crate) broadcast proof fn aim_lasts(
    t: Throw<AttackFace>,
    content: Content,
    sight: Sight,
    a: int,
    shot: Shot,
    v: Verdict,
    spent: Spent,
)
    requires
        t.game.fits(),
        0 <= a < t.game.ships.len(),
    ensures
        t.game.lasts((#[trigger] t.aimed(content, sight, a, shot, v, spent)).0.game),
{
    broadcast use {steady, rerolls_last, helping_lasts};

    reveal(Throw::aimed);
}

pub(crate) broadcast proof fn kir_lasts(
    g: Game,
    content: Content,
    a: int,
    range: u8,
    faces: Seq<AttackFace>,
)
    requires
        g.fits(),
        0 <= a < g.ships.len(),
    ensures
        g.lasts((#[trigger] g.kir_kanos(content, a, range, faces)).0),
{
    broadcast use steady;

    reveal(Game::kir_kanos);
}

pub(crate) broadcast proof fn swapping_lasts(
    g: Game,
    allowed: bool,
    faces: Seq<AttackFace>,
    from: AttackFace,
    to: AttackFace,
    event: Event,
)
    requires
        g.fits(),
    ensures
        g.lasts((#[trigger] g.swapping(allowed, faces, from, to, event)).0),
{
    broadcast use steady;

    reveal(Game::swapping);
}

pub(crate) broadcast proof fn chips_last(
    g: Game,
    content: Content,
    a: int,
    shot: Shot,
    faces: Seq<AttackFace>,
)
    requires
        g.fits(),
        0 <= a < g.ships.len(),
    ensures
        g.lasts((#[trigger] g.chips(content, a, shot, faces)).0),
{
    broadcast use {steady, tokens_last};

    reveal(Game::chips);
}

pub(crate) broadcast proof fn marksman_lasts(
    g: Game,
    content: Content,
    a: int,
    faces: Seq<AttackFace>,
)
    requires
        g.fits(),
    ensures
        g.lasts((#[trigger] g.marksman(content, a, faces)).0),
{
    broadcast use steady;

    reveal(Game::marksman);
}

pub(crate) broadcast proof fn expertise_lasts(
    g: Game,
    content: Content,
    a: int,
    faces: Seq<AttackFace>,
)
    requires
        g.fits(),
    ensures
        g.lasts((#[trigger] g.expertise(content, a, faces)).0),
{
    broadcast use steady;

    reveal(Game::expertise);
}

pub(crate) broadcast group turns_last {
    kir_lasts,
    swapping_lasts,
    chips_last,
    marksman_lasts,
    expertise_lasts,
}

pub(crate) broadcast proof fn converting_lasts(
    g: Game,
    content: Content,
    a: int,
    shot: Shot,
    faces: Seq<AttackFace>,
)
    requires
        g.fits(),
        0 <= a < g.ships.len(),
    ensures
        g.lasts((#[trigger] g.converting(content, a, shot, faces)).0),
{
    broadcast use {steady, mods_last, turns_last};

    reveal(Game::converting);
}

pub(crate) broadcast proof fn calculating_lasts(
    g: Game,
    content: Content,
    a: int,
    faces: Seq<AttackFace>,
)
    requires
        g.fits(),
        0 <= a < g.ships.len(),
    ensures
        g.lasts((#[trigger] g.calculating(content, a, faces)).0),
{
    broadcast use steady;

    reveal(Game::calculating);
}

pub(crate) broadcast proof fn focusing_in_lasts(g: Game, a: int, faces: Seq<AttackFace>)
    requires
        g.fits(),
        0 <= a < g.ships.len(),
    ensures
        g.lasts((#[trigger] g.focusing_in(a, faces)).0),
{
    broadcast use steady;

    reveal(Game::focusing_in);
}

pub(crate) broadcast proof fn guiding_lasts(
    g: Game,
    content: Content,
    a: int,
    faces: Seq<AttackFace>,
)
    requires
        g.fits(),
        0 <= a < g.ships.len(),
    ensures
        g.lasts((#[trigger] g.guiding(content, a, faces)).0),
{
    broadcast use steady;

    reveal(Game::guiding);
}

pub(crate) broadcast group eyes_last {
    calculating_lasts,
    focusing_in_lasts,
    guiding_lasts,
}

pub(crate) broadcast proof fn focuses_last(g: Game, content: Content, sight: Sight, a: int, n: int)
    requires
        g.fits(),
        0 <= a < g.ships.len(),
    ensures
        g.lasts(#[trigger] g.focus_spent_by(content, sight, a, n)),
    decreases n,
{
    broadcast use {steady, tokens_last};

    if n > 0 {
        let h = g.focus_spent(content, sight, a);
        assert(g.lasts(h));
        focuses_last(h, content, sight, a, n - 1);
    }
}

pub(crate) broadcast proof fn spending_lasts(
    g: Game,
    content: Content,
    sight: Sight,
    a: int,
    v: Verdict,
    before: u8,
    faces: Seq<AttackFace>,
)
    requires
        g.fits(),
        0 <= a < g.ships.len(),
    ensures
        g.lasts((#[trigger] g.spending(content, sight, a, v, before, faces)).0),
{
    broadcast use {steady, focuses_last, eyes_last};

    reveal(Game::spending);
}

pub(crate) broadcast proof fn r3_lasts(
    g: Game,
    content: Content,
    a: int,
    allowed: bool,
    faces: Seq<AttackFace>,
)
    requires
        g.fits(),
        0 <= a < g.ships.len(),
    ensures
        g.lasts((#[trigger] g.r3_astromech(content, a, allowed, faces)).0),
{
    broadcast use {steady, tokens_last};

    reveal(Game::r3_astromech);
}

pub(crate) broadcast proof fn correcting_lasts(
    g: Game,
    content: Content,
    a: int,
    allowed: bool,
    faces: Seq<AttackFace>,
)
    requires
        g.fits(),
    ensures
        g.lasts((#[trigger] g.correcting(content, a, allowed, faces)).0),
{
    broadcast use steady;

    reveal(Game::correcting);
}

pub(crate) broadcast proof fn wampa_lasts(g: Game, content: Content, a: int, faces: Seq<AttackFace>)
    requires
        g.fits(),
    ensures
        g.lasts((#[trigger] g.wampa(content, a, faces)).0),
{
    broadcast use steady;

    reveal(Game::wampa);
}

pub(crate) broadcast group aiming_lasts {
    helping_lasts,
    aim_lasts,
    converting_lasts,
    spending_lasts,
    r3_lasts,
    correcting_lasts,
    wampa_lasts,
}

pub(crate) broadcast proof fn declaring_lasts(
    g: Game,
    content: Content,
    sight: Sight,
    a: int,
    shot: Shot,
)
    requires
        g.fits(),
        0 <= a < g.ships.len(),
        shot.d_idx < g.ships.len(),
    ensures
        g.lasts(#[trigger] g.declaring(content, sight, a, shot)),
{
    broadcast use {steady, tokens_last};

    reveal(Game::declaring);
}

pub(crate) broadcast proof fn telling_dice_lasts(
    g: Game,
    content: Content,
    sight: Sight,
    a: int,
    shot: Shot,
)
    requires
        g.fits(),
    ensures
        g.lasts(#[trigger] g.dice_told(content, sight, a, shot)),
{
    broadcast use steady;

    reveal(Game::dice_told);
}

pub(crate) broadcast proof fn unblinding_lasts(g: Game, a: int)
    requires
        g.fits(),
        0 <= a < g.ships.len(),
    ensures
        g.lasts(#[trigger] g.unblinded(a)),
{
    broadcast use steady;
}

pub(crate) broadcast proof fn gunnery_lasts(
    g: Game,
    content: Content,
    sight: Sight,
    a: int,
    shot: Shot,
)
    requires
        g.fits(),
        0 <= a < g.ships.len(),
    ensures
        g.lasts((#[trigger] g.gunnery(content, sight, a, shot)).0),
{
    broadcast use {
        steady,
        tokens_last,
        opportunist_lasts,
        extra_die_lasts,
        telling_dice_lasts,
        unblinding_lasts,
    };

    reveal(Game::gunnery);
}

pub(crate) broadcast proof fn paying_lock_lasts(
    g: Game,
    content: Content,
    sight: Sight,
    a: int,
    d: int,
)
    requires
        g.fits(),
        0 <= a < g.ships.len(),
    ensures
        g.lasts((#[trigger] g.lock_paid(content, sight, a, d)).0),
{
    broadcast use steady;

    reveal(Game::lock_paid);
}

pub(crate) broadcast proof fn arming_lasts(
    g: Game,
    content: Content,
    sight: Sight,
    a: int,
    shot: Shot,
)
    requires
        g.fits(),
        0 <= a < g.ships.len(),
    ensures
        g.lasts((#[trigger] g.arming(content, sight, a, shot)).0),
{
    broadcast use {steady, paying_lock_lasts};

    reveal(Game::arming);
}

pub(crate) broadcast proof fn tampering_lasts(
    g: Game,
    content: Content,
    sight: Sight,
    a: int,
    shot: Shot,
    faces: Seq<AttackFace>,
)
    requires
        g.fits(),
    ensures
        g.lasts((#[trigger] g.tampering(content, sight, a, shot, faces)).0),
{
    broadcast use steady;

    reveal(Game::tampering);
}

pub(crate) broadcast proof fn judging_lasts(
    g: Game,
    content: Content,
    a: int,
    shot: Shot,
    v: Verdict,
)
    requires
        g.fits(),
    ensures
        g.lasts(#[trigger] g.judged(content, a, shot, v)),
{
    broadcast use steady;

    reveal(Game::judged);
}

pub(crate) broadcast group volley_lasts {
    declaring_lasts,
    telling_dice_lasts,
    unblinding_lasts,
    gunnery_lasts,
    paying_lock_lasts,
    arming_lasts,
    tampering_lasts,
    judging_lasts,
}

pub(crate) broadcast proof fn lowering_lasts(g: Game, lowered: bool, agility: u8, event: Event)
    requires
        g.fits(),
    ensures
        g.lasts((#[trigger] g.lowering(lowered, agility, event)).0),
{
    broadcast use steady;

    reveal(Game::lowering);
}

pub(crate) broadcast proof fn dodging_lasts(
    g: Game,
    allowed: bool,
    incoming: u8,
    faces: Seq<DefenseFace>,
    from: DefenseFace,
    event: Event,
)
    requires
        g.fits(),
    ensures
        g.lasts((#[trigger] g.dodging(allowed, incoming, faces, from, event)).0),
{
    broadcast use steady;

    reveal(Game::dodging);
}

pub(crate) broadcast proof fn framing_lasts(
    t: Throw<DefenseFace>,
    content: Content,
    d: int,
    attackers: nat,
    n: u8,
)
    requires
        t.game.fits(),
    ensures
        t.game.lasts((#[trigger] t.framed(content, d, attackers, n)).game),
{
    broadcast use steady;

    reveal(Throw::framed);
}

pub(crate) broadcast proof fn finn_lasts(
    t: Throw<DefenseFace>,
    content: Content,
    sight: Sight,
    a: int,
    d: int,
)
    requires
        t.game.fits(),
    ensures
        t.game.lasts((#[trigger] t.finn(content, sight, a, d)).game),
{
    broadcast use steady;

    reveal(Throw::finn);
}

pub(crate) broadcast proof fn friendly_dodging_lasts(
    t: Throw<DefenseFace>,
    content: Content,
    sight: Sight,
    d: int,
)
    requires
        t.game.fits(),
    ensures
        t.game.lasts((#[trigger] t.friend_dodged(content, sight, d)).game),
{
    broadcast use steady;

    reveal(Throw::friend_dodged);
}

pub(crate) broadcast proof fn instructing_lasts(
    t: Throw<DefenseFace>,
    content: Content,
    a: int,
    d: int,
)
    requires
        t.game.fits(),
    ensures
        t.game.lasts((#[trigger] t.instructed(content, a, d)).game),
{
    broadcast use steady;

    reveal(Throw::instructed);
}

pub(crate) broadcast group guards_last {
    lowering_lasts,
    dodging_lasts,
    framing_lasts,
    finn_lasts,
    friendly_dodging_lasts,
    instructing_lasts,
}

pub(crate) broadcast proof fn guard_agility_lasts(
    g: Game,
    content: Content,
    sight: Sight,
    a: int,
    d: int,
)
    requires
        g.fits(),
    ensures
        g.lasts((#[trigger] g.guard_agility(content, sight, a, d)).0),
{
    broadcast use {steady, guards_last};

    reveal(Game::guard_agility);
}

pub(crate) broadcast proof fn guarded_lasts(
    t: Throw<DefenseFace>,
    content: Content,
    sight: Sight,
    a: int,
    shot: Shot,
    attackers: nat,
)
    requires
        t.game.fits(),
    ensures
        t.game.lasts((#[trigger] t.guarded(content, sight, a, shot, attackers)).game),
{
    broadcast use {steady, guards_last, guard_agility_lasts};

    reveal(Throw::guarded);
}

pub(crate) broadcast proof fn guessing_lasts(
    g: Game,
    content: Content,
    d: int,
    incoming: u8,
    faces: Seq<DefenseFace>,
)
    requires
        g.fits(),
        0 <= d < g.ships.len(),
    ensures
        g.lasts((#[trigger] g.guessing(content, d, incoming, faces)).0),
{
    broadcast use {steady, tokens_last};

    reveal(Game::guessing);
}

pub(crate) broadcast proof fn dodged_lasts(
    t: Throw<DefenseFace>,
    content: Content,
    sight: Sight,
    a: int,
    d: int,
    incoming: u8,
)
    requires
        t.game.fits(),
    ensures
        t.game.lasts((#[trigger] t.dodged(content, sight, a, d, incoming)).game),
{
    broadcast use {steady, mods_last, guards_last};

    reveal(Throw::dodged);
}

pub(crate) broadcast proof fn deflecting_lasts(
    g: Game,
    content: Content,
    sight: Sight,
    a: int,
    shot: Shot,
    incoming: u8,
    faces: Seq<DefenseFace>,
)
    requires
        g.fits(),
    ensures
        g.lasts((#[trigger] g.deflecting(content, sight, a, shot, incoming, faces)).0),
{
    broadcast use {steady, mods_last, guards_last};

    reveal(Game::deflecting);
}

pub(crate) broadcast proof fn guard_focusing_lasts(
    g: Game,
    content: Content,
    sight: Sight,
    d: int,
    may_spend: bool,
    incoming: u8,
    faces: Seq<DefenseFace>,
)
    requires
        g.fits(),
        0 <= d < g.ships.len(),
    ensures
        g.lasts((#[trigger] g.guard_focusing(content, sight, d, may_spend, incoming, faces)).0),
{
    broadcast use {steady, tokens_last};

    reveal(Game::guard_focusing);
}

pub(crate) broadcast proof fn clustering_lasts(
    g: Game,
    content: Content,
    sight: Sight,
    d: int,
    may_spend: bool,
    incoming: u8,
    evades: u8,
    faces: Seq<DefenseFace>,
)
    requires
        g.fits(),
        0 <= d < g.ships.len(),
    ensures
        g.lasts(
            (#[trigger] g.clustering(content, sight, d, may_spend, incoming, evades, faces)).0,
        ),
{
    broadcast use {steady, tokens_last};

    reveal(Game::clustering);
}

pub(crate) broadcast proof fn evade_spending_lasts(
    g: Game,
    d: int,
    allowed: bool,
    incoming: u8,
    evades: u8,
)
    requires
        g.fits(),
        0 <= d < g.ships.len(),
    ensures
        g.lasts((#[trigger] g.evade_spending(d, allowed, incoming, evades)).0),
{
    broadcast use steady;

    reveal(Game::evade_spending);
}

pub(crate) broadcast proof fn juking_lasts(
    g: Game,
    content: Content,
    a: int,
    allowed: bool,
    incoming: u8,
    evades: u8,
    faces: Seq<DefenseFace>,
)
    requires
        g.fits(),
    ensures
        g.lasts((#[trigger] g.juking(content, a, allowed, incoming, evades, faces)).0),
{
    broadcast use steady;

    reveal(Game::juking);
}

pub(crate) broadcast proof fn crack_shot_lasts(
    g: Game,
    content: Content,
    sight: Sight,
    a: int,
    d: int,
    incoming: u8,
    evades: u8,
)
    requires
        g.fits(),
        0 <= a < g.ships.len(),
    ensures
        g.lasts((#[trigger] g.crack_shot(content, sight, a, d, incoming, evades)).0),
{
    broadcast use {steady, tokens_last};

    reveal(Game::crack_shot);
}

pub(crate) broadcast group guarding_lasts {
    guard_agility_lasts,
    guarded_lasts,
    guessing_lasts,
    dodged_lasts,
    deflecting_lasts,
    guard_focusing_lasts,
    clustering_lasts,
    evade_spending_lasts,
    juking_lasts,
    crack_shot_lasts,
}

pub(crate) broadcast proof fn ionizing_lasts(g: Game, places: Seq<usize>, k: int)
    requires
        g.fits(),
        g.holds_all(places),
        0 <= k,
    ensures
        g.lasts(#[trigger] g.ionizing(places, k)),
    decreases places.len() - k,
{
    broadcast use {steady, tokens_last};

    if k < places.len() {
        let j = places[k] as int;
        assert(j < g.ships.len());
        let h = g.with_ship(j, g.ships[j].with_ion(1)).saying(Event::AlsoIonized(places[k]));
        assert(g.lasts(h));
        ionizing_lasts(h, places, k + 1);
    }
}

pub(crate) broadcast proof fn splashing_lasts(
    g: Game,
    content: Content,
    places: Seq<usize>,
    k: int,
)
    requires
        g.fits(),
        g.holds_all(places),
        0 <= k,
    ensures
        g.lasts(#[trigger] g.splashing(content, places, k)),
    decreases places.len() - k,
{
    broadcast use {steady, tokens_last};

    if k < places.len() {
        let j = places[k] as int;
        assert(j < g.ships.len());
        let h = g.damaged(j).saying(
            Event::AssaultMissiles(places[k], g.damaged(j).ships[j].destroyed),
        ).shields_watched(content, j, g.ships[j].shields);
        assert(g.lasts(h));
        splashing_lasts(h, content, places, k + 1);
    }
}

pub(crate) broadcast proof fn tracing_lasts(
    g: Game,
    content: Content,
    d: int,
    places: Seq<usize>,
    k: int,
)
    requires
        g.fits(),
        g.holds_all(places),
        0 <= k,
    ensures
        g.lasts(#[trigger] g.tracing(content, d, places, k)),
    decreases places.len() - k,
{
    broadcast use {steady, tokens_last};

    if k < places.len() {
        let j = places[k] as int;
        assert(j < g.ships.len());
        let h = g.locking(content, j, d).saying(Event::ThreadTracers(places[k], d as usize));
        assert(g.lasts(h));
        tracing_lasts(h, content, d, places, k + 1);
    }
}

pub(crate) broadcast proof fn weapon_riders_last(
    g: Game,
    content: Content,
    sight: Sight,
    a: int,
    d: int,
    effect: UpgradeEffect,
    landed: bool,
)
    requires
        g.fits(),
        0 <= d < g.ships.len(),
    ensures
        g.lasts(#[trigger] g.weapon_riders(content, sight, a, d, effect, landed)),
{
    broadcast use {steady, ionizing_lasts, splashing_lasts, tracing_lasts};

    reveal(Game::weapon_riders);
}

pub(crate) broadcast proof fn tactician_lasts(
    g: Game,
    content: Content,
    sight: Sight,
    a: int,
    d: int,
    range: u8,
)
    requires
        g.fits(),
        0 <= d < g.ships.len(),
    ensures
        g.lasts(#[trigger] g.tactician(content, sight, a, d, range)),
{
    broadcast use {steady, tokens_last};
}

pub(crate) broadcast proof fn ruthlessness_lasts(
    g: Game,
    content: Content,
    sight: Sight,
    a: int,
    d: int,
    landed: bool,
)
    requires
        g.fits(),
    ensures
        g.lasts(#[trigger] g.ruthless(content, sight, a, d, landed)),
{
    broadcast use {steady, tokens_last};

    let near = picked(g.bystander_rule(sight, a, d), 0, g.ships.len() as int);
    assert(g.holds_all(near));
    first_is_first(g.foe_rule(a, near), 0, near.len() as int);
}

pub(crate) broadcast proof fn vader_lasts(g: Game, content: Content, a: int, d: int)
    requires
        g.fits(),
        0 <= a < g.ships.len(),
        0 <= d < g.ships.len(),
    ensures
        g.lasts(#[trigger] g.vader(content, a, d)),
{
    broadcast use {steady, tokens_last};
}

pub(crate) broadcast proof fn crew_riders_last(
    g: Game,
    content: Content,
    sight: Sight,
    a: int,
    d: int,
    range: u8,
    landed: bool,
)
    requires
        g.fits(),
        0 <= a < g.ships.len(),
        0 <= d < g.ships.len(),
    ensures
        g.lasts(#[trigger] g.riders(content, sight, a, d, range, landed)),
{
    broadcast use {steady, tactician_lasts, ruthlessness_lasts, vader_lasts};

    reveal(Game::riders);
}

pub(crate) broadcast proof fn fire_control_lasts(g: Game, content: Content, a: int, d: int)
    requires
        g.fits(),
        0 <= a < g.ships.len(),
    ensures
        g.lasts(#[trigger] g.fire_control(content, a, d)),
{
    broadcast use {steady, tokens_last};

    reveal(Game::fire_control);
}

pub(crate) broadcast proof fn consoling_lasts(
    g: Game,
    sight: Sight,
    a: int,
    places: Seq<usize>,
    k: int,
)
    requires
        g.fits(),
        0 <= k,
    ensures
        g.lasts(#[trigger] g.consoling(sight, a, places, k)),
    decreases places.len() - k,
{
    broadcast use steady;

    if k < places.len() {
        let friends = picked(g.comrade_rule(sight, a), 0, g.ships.len() as int);
        assert(g.holds_all(friends));
        first_is_first(g.tokenless_rule(friends), 0, friends.len() as int);
        let h = match g.consoled(sight, a) {
            Some(j) => g.with_ship(j as int, g.ships[j as int].with_focus()).saying(
                Event::OperationsSpecialist(places[k], j),
            ),
            None => g,
        };
        assert(g.lasts(h));
        consoling_lasts(h, sight, a, places, k + 1);
    }
}

pub(crate) broadcast proof fn miss_lasts(g: Game, content: Content, sight: Sight, a: int)
    requires
        g.fits(),
    ensures
        g.lasts(#[trigger] g.missed(content, sight, a)),
{
    broadcast use {steady, consoling_lasts};

    reveal(Game::missed);
}

pub(crate) broadcast proof fn relocking_lasts(
    p: Play,
    content: Content,
    a: int,
    d: int,
    lock_spent: bool,
)
    requires
        p.game.fits(),
        0 <= a < p.game.ships.len(),
    ensures
        p.game.lasts((#[trigger] p.relocked(content, a, d, lock_spent)).game),
{
    broadcast use {steady, tokens_last};

    reveal(Play::relocked);
}

pub(crate) broadcast group riders_last {
    weapon_riders_last,
    crew_riders_last,
    fire_control_lasts,
    miss_lasts,
    relocking_lasts,
}

pub(crate) broadcast proof fn attack_cards_last(
    p: Play,
    content: Content,
    sight: Sight,
    a: int,
    d: int,
    range: u8,
    landed: bool,
    lock_spent: bool,
)
    requires
        p.game.fits(),
        0 <= a < p.game.ships.len(),
        0 <= d < p.game.ships.len(),
    ensures
        p.game.lasts(
            (#[trigger] p.attack_cards(content, sight, a, d, range, landed, lock_spent)).game,
        ),
{
    broadcast use {steady, riders_last};

    reveal(Play::attack_cards);
}

pub(crate) broadcast proof fn stresses_last(g: Game, content: Content, sight: Sight, d: int, n: int)
    requires
        g.fits(),
        0 <= d < g.ships.len(),
    ensures
        g.lasts(#[trigger] g.stressed_by(content, sight, d, n)),
    decreases n,
{
    broadcast use {steady, tokens_last};

    if n > 0 {
        let h = g.stressed(content, sight, d);
        assert(g.lasts(h));
        stresses_last(h, content, sight, d, n - 1);
    }
}

pub(crate) broadcast proof fn r4d6_lasts(
    g: Game,
    content: Content,
    sight: Sight,
    d: int,
    hits: u8,
    crits: u8,
)
    requires
        g.fits(),
        0 <= d < g.ships.len(),
    ensures
        g.lasts((#[trigger] g.r4d6(content, sight, d, hits, crits)).0),
{
    broadcast use {steady, stresses_last};

    reveal(Game::r4d6);
}

pub(crate) broadcast proof fn weapon_result_lasts(
    g: Game,
    content: Content,
    sight: Sight,
    d: int,
    rider: Option<UpgradeEffect>,
    hits: u8,
    crits: u8,
)
    requires
        g.fits(),
        0 <= d < g.ships.len(),
    ensures
        g.lasts((#[trigger] g.weapon_result(content, sight, d, rider, hits, crits)).0),
{
    broadcast use {steady, tokens_last};

    reveal(Game::weapon_result);
}

pub(crate) broadcast proof fn hits_last(g: Game, d: int, n: int, toll: Toll)
    requires
        g.fits(),
        0 <= d < g.ships.len(),
    ensures
        g.lasts((#[trigger] g.hits_dealt(d, n, toll)).0),
    decreases n,
{
    broadcast use {steady, tokens_last};

    if n > 0 && !g.ships[d].destroyed {
        let h = g.damaged(d);
        assert(g.lasts(h));
        hits_last(h, d, n - 1, toll.and(point(g.ships[d])));
    }
}

pub(crate) broadcast proof fn wampa_card_lasts(g: Game, d: int, wampa: bool, toll: Toll)
    requires
        g.fits(),
        0 <= d < g.ships.len(),
    ensures
        g.lasts((#[trigger] g.wampa_dealt(d, wampa, toll)).0),
{
    broadcast use {steady, tokens_last};

    reveal(Game::wampa_dealt);
}

pub(crate) broadcast proof fn reinforcing_lasts(g: Game, content: Content, d: int, toll: Toll)
    requires
        g.fits(),
        0 <= d < g.ships.len(),
    ensures
        g.lasts(#[trigger] g.reinforced(content, d, toll)),
{
    broadcast use steady;

    reveal(Game::reinforced);
}

pub(crate) broadcast proof fn suffering_lasts(
    g: Game,
    content: Content,
    d: int,
    toll: Toll,
    hit: bool,
)
    requires
        g.fits(),
        0 <= d < g.ships.len(),
    ensures
        g.lasts(#[trigger] g.suffered(content, d, toll, hit)),
{
    broadcast use {steady, tokens_last, reinforcing_lasts};

    reveal(Game::suffered);
}

pub(crate) broadcast proof fn expending_lasts(
    g: Game,
    content: Content,
    a: int,
    shot: Shot,
    landed: bool,
)
    requires
        g.fits(),
        0 <= a < g.ships.len(),
    ensures
        g.lasts(#[trigger] g.expended(content, a, shot, landed)),
{
    broadcast use {steady, tokens_last};

    reveal(Game::expended);
}

pub(crate) broadcast proof fn turr_lasts(
    g: Game,
    content: Content,
    sight: Sight,
    moves: Moves,
    a: int,
    shot: Shot,
)
    requires
        g.fits(),
        0 <= a < g.ships.len(),
    ensures
        g.lasts((#[trigger] g.turr(content, sight, moves, a, shot)).0),
{
    broadcast use {steady, performing_lasts};

    reveal(Game::turr);
}

pub(crate) broadcast proof fn drawn_fire_lasts(
    p: Play,
    content: Content,
    sight: Sight,
    d: int,
    crits: u8,
)
    requires
        p.game.fits(),
    ensures
        p.game.lasts((#[trigger] p.fire_drawn(content, sight, d, crits)).0.game),
{
    broadcast use {steady, tokens_last};

    reveal(Play::fire_drawn);
    reveal(Game::martyr);
    let friends = p.game.near(sight, d, 1);
    assert(p.game.holds_all(friends));
    first_is_first(p.game.martyr_rule(content, friends), 0, friends.len() as int);
}

pub(crate) broadcast proof fn card_dealing_lasts(p: Play, content: Content, a: int, d: int)
    requires
        p.game.fits(),
        0 <= d < p.game.ships.len(),
    ensures
        p.game.lasts((#[trigger] p.card_dealt(content, a, d)).0.game),
{
    broadcast use {steady, tokens_last};
}

pub(crate) broadcast proof fn crits_last(
    p: Play,
    content: Content,
    a: int,
    d: int,
    bypass: bool,
    n: int,
    toll: Toll,
)
    requires
        p.game.fits(),
        0 <= d < p.game.ships.len(),
    ensures
        p.game.lasts((#[trigger] p.crits_dealt(content, a, d, bypass, n, toll)).0.game),
    decreases n,
{
    broadcast use {steady, tokens_last, card_dealing_lasts};

    let s = p.game.ships[d];
    if n > 0 && !s.destroyed {
        let taken = if !bypass {
            point(s)
        } else if s.hull > 0 {
            DamagePoint::Hull
        } else {
            DamagePoint::Nothing
        };
        let q = p.at(
            if bypass {
                p.game.hulled(d)
            } else {
                p.game.damaged(d)
            },
        );
        let after = toll.and(taken);
        let tolled = Toll { crits: sat(after.crits + 1), ..after };
        assert(p.game.lasts(q.game));
        let (r, extra) = q.card_dealt(content, a, d);
        assert(q.game.lasts(r.game));
        crits_last(r, content, a, d, bypass, n - 1, tolled.plus(extra));
        crits_last(q, content, a, d, bypass, n - 1, tolled);
        crits_last(q, content, a, d, bypass, n - 1, after);
    }
}

pub(crate) broadcast proof fn damage_dealing_lasts(
    p: Play,
    content: Content,
    a: int,
    d: int,
    hits: u8,
    crits: u8,
    bypass: bool,
    wampa: bool,
)
    requires
        p.game.fits(),
        0 <= d < p.game.ships.len(),
    ensures
        p.game.lasts((#[trigger] p.damage_dealt(content, a, d, hits, crits, bypass, wampa)).0.game),
{
    broadcast use {steady, hits_last, crits_last, wampa_card_lasts};

    reveal(Play::damage_dealt);
}

pub(crate) broadcast group impact_lasts {
    attack_cards_last,
    stresses_last,
    r4d6_lasts,
    weapon_result_lasts,
    hits_last,
    wampa_card_lasts,
    reinforcing_lasts,
    suffering_lasts,
    expending_lasts,
    turr_lasts,
    drawn_fire_lasts,
    card_dealing_lasts,
    crits_last,
    damage_dealing_lasts,
}

pub(crate) broadcast proof fn attack_roll_lasts(
    p: Play,
    content: Content,
    sight: Sight,
    a: int,
    shot: Shot,
)
    requires
        p.game.fits(),
        0 <= a < p.game.ships.len(),
        shot.d_idx < p.game.ships.len(),
    ensures
        p.game.lasts((#[trigger] p.attack_rolled(content, sight, a, shot)).throw.game),
{
    broadcast use {steady, mods_last, aiming_lasts, volley_lasts};

    reveal(Play::attack_rolled);
}

pub(crate) broadcast proof fn defense_roll_lasts(
    p: Play,
    content: Content,
    sight: Sight,
    a: int,
    shot: Shot,
    attackers: nat,
    incoming: u8,
    v: Verdict,
)
    requires
        p.game.fits(),
        0 <= a < p.game.ships.len(),
        shot.d_idx < p.game.ships.len(),
    ensures
        p.game.lasts(
            (#[trigger] p.defense_rolled(
                content,
                sight,
                a,
                shot,
                attackers,
                incoming,
                v,
            )).throw.game,
        ),
{
    broadcast use {steady, guarding_lasts};

    reveal(Play::defense_rolled);
}

pub(crate) broadcast proof fn strike_lasts(
    p: Play,
    content: Content,
    sight: Sight,
    a: int,
    shot: Shot,
    rolled: (u8, u8),
    evades: u8,
    wampa: bool,
)
    requires
        p.game.fits(),
        shot.d_idx < p.game.ships.len(),
    ensures
        p.game.lasts(
            (#[trigger] p.struck_by(content, sight, a, shot, rolled, evades, wampa)).play.game,
        ),
{
    broadcast use {steady, impact_lasts};

    reveal(Play::struck_by);
}

pub(crate) broadcast proof fn winding_up_lasts(
    p: Play,
    content: Content,
    sight: Sight,
    moves: Moves,
    a: int,
    shot: Shot,
    landed: bool,
    lock_spent: bool,
)
    requires
        p.game.fits(),
        0 <= a < p.game.ships.len(),
        shot.d_idx < p.game.ships.len(),
    ensures
        p.game.lasts(
            (#[trigger] p.wound_up(content, sight, moves, a, shot, landed, lock_spent)).0.game,
        ),
{
    broadcast use {steady, riders_last, impact_lasts};

    reveal(Play::wound_up);
}

pub(crate) broadcast group attack_lasts {
    attack_roll_lasts,
    defense_roll_lasts,
    strike_lasts,
    winding_up_lasts,
}

/// Whatever the dice show, the game lasts through an attack: destroyed ships
/// stay destroyed, cards used this round stay used, and nothing but the ships,
/// the tokens and the narration changes.
pub broadcast proof fn an_attack_lasts(
    p: Play,
    content: Content,
    sight: Sight,
    moves: Moves,
    a: int,
    shot: Shot,
)
    requires
        p.game.fits(),
        0 <= a < p.game.ships.len(),
        shot.d_idx < p.game.ships.len(),
    ensures
        p.game.lasts((#[trigger] p.attacked(content, sight, moves, a, shot)).0.game),
{
    broadcast use {steady, attack_lasts};

    reveal(Play::attacked);
}

} // verus!
