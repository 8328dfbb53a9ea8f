//! An attack without cards: the dice, what they cancel, and the damage.

use vstd::prelude::*;

use crate::data::Content;
use crate::dice::{
    applied, count, counts_fit, less, lock_rerolls_keep_the_dice, rerolls_are_limited,
    rerolling, spot, spot_from, turning_moves_the_count, AttackFace, AttackOutcome,
    DefenseFace, Face, Tape,
};
use crate::event::Event;
use crate::game::actions::Moves;
use crate::game::cards::one_if;
use crate::game::impact::{compared, Toll};
use crate::game::mods::{best_die, Throw};
use crate::game::state::{Game, Play, Shot};
use crate::game::tokens::{point, DamagePoint};
use crate::game::volley::{Spent, Verdict};
use crate::pick::{first_is_first, picked, picked_obey};
use crate::pilot::PilotAbility;
use crate::ship::{sat, ShipId, ShipModel};
use crate::sight::Sight;
use crate::upgrade::UpgradeEffect;

verus! {

impl ShipModel {
    /// The ship has no card and its pilot no ability, and it does not linger.
    pub open spec fn plain(self, content: Content) -> bool {
        &&& self.upgrades.len() == 0
        &&& !self.lingers
        &&& content.flyer(self.pilot) is Some ==> content.flyer(self.pilot)->0.ability is None
    }

    /// The same ship with as many shields and as much hull, and the same
    /// equipped cards; tokens, locks and crits may differ.
    pub open spec fn unharmed(self, later: ShipModel) -> bool {
        &&& later.upgrades == self.upgrades
        &&& later.lingers == self.lingers
        &&& later.pilot == self.pilot
        &&& later.shields == self.shields
        &&& later.hull == self.hull
        &&& later.destroyed == self.destroyed
    }
}

impl Game {
    /// No ship has a card or an ability, and no mission is played.
    #[verifier::opaque]
    pub open spec fn plain(self, content: Content) -> bool {
        &&& self.mission is None
        &&& self.ships.len() <= usize::MAX
        &&& forall|k: int| 0 <= k < self.ships.len() ==> (#[trigger] self.ships[k]).plain(content)
    }

    /// Every ship is unharmed.
    #[verifier::opaque]
    pub open spec fn spares(self, later: Game) -> bool {
        &&& later.ships.len() == self.ships.len()
        &&& later.mission == self.mission
        &&& forall|k: int|
            0 <= k < self.ships.len() ==> (#[trigger] self.ships[k]).unharmed(later.ships[k])
    }
}

broadcast proof fn spares_itself(g: Game)
    ensures
        #[trigger] g.spares(g),
{
    reveal(Game::spares);
}

broadcast proof fn spares_on(a: Game, b: Game, c: Game)
    requires
        #[trigger] a.spares(b),
        #[trigger] b.spares(c),
    ensures
        a.spares(c),
{
    reveal(Game::spares);
    assert forall|k: int| 0 <= k < a.ships.len() implies (#[trigger] a.ships[k]).unharmed(
        c.ships[k],
    ) by {
        assert(b.ships[k].unharmed(c.ships[k]));
    }
}

broadcast proof fn sparing_keeps_count(a: Game, b: Game)
    requires
        #[trigger] a.spares(b),
    ensures
        b.ships.len() == a.ships.len(),
{
    reveal(Game::spares);
}

broadcast proof fn sparing_stays_plain(a: Game, b: Game, content: Content)
    requires
        #[trigger] a.spares(b),
        #[trigger] a.plain(content),
    ensures
        b.plain(content),
{
    reveal(Game::spares);
    reveal(Game::plain);
    assert forall|k: int| 0 <= k < b.ships.len() implies (#[trigger] b.ships[k]).plain(
        content,
    ) by {
        assert(a.ships[k].unharmed(b.ships[k]));
    }
}

broadcast proof fn unharmed_spares(g: Game, i: int, ship: ShipModel)
    requires
        0 <= i < g.ships.len(),
        g.ships[i].unharmed(ship),
    ensures
        g.spares(#[trigger] g.with_ship(i, ship)),
{
    reveal(Game::spares);
}

broadcast proof fn saying_spares(g: Game, event: Event)
    ensures
        g.spares(#[trigger] g.saying(event)),
{
    reveal(Game::spares);
}

pub(crate) broadcast proof fn no_effect_counts(g: Game, content: Content, i: int, e: UpgradeEffect)
    requires
        g.plain(content),
        0 <= i < g.ships.len(),
    ensures
        !(#[trigger] g.has(content, i, e)),
{
    reveal(Game::plain);
    assert(g.ships[i].plain(content));
}

pub(crate) broadcast proof fn no_card_counts(g: Game, content: Content, i: int, e: UpgradeEffect)
    requires
        g.plain(content),
        0 <= i < g.ships.len(),
    ensures
        (#[trigger] g.card(content, i, e)) is None,
{
    reveal(Game::plain);
    assert(g.ships[i].plain(content));
}

pub(crate) broadcast proof fn no_use_counts(g: Game, content: Content, i: int, e: UpgradeEffect)
    requires
        g.plain(content),
        0 <= i < g.ships.len(),
    ensures
        (#[trigger] g.unused(content, i, e)) is None,
{
    reveal(Game::plain);
    assert(g.ships[i].plain(content));
}

pub(crate) broadcast proof fn no_ability_counts(g: Game, content: Content, i: int, a: PilotAbility)
    requires
        g.plain(content),
        0 <= i < g.ships.len(),
    ensures
        !(#[trigger] g.can(content, i, a)),
{
    reveal(Game::plain);
    assert(g.ships[i].plain(content));
}

broadcast group sparing {
    spares_itself,
    spares_on,
    sparing_keeps_count,
    sparing_stays_plain,
    unharmed_spares,
    saying_spares,
    no_effect_counts,
    no_card_counts,
    no_use_counts,
    no_ability_counts,
}

proof fn chasing_spares(g: Game, content: Content, places: Seq<usize>, k: int)
    requires
        g.plain(content),
        forall|j: int| 0 <= j < places.len() ==> #[trigger] places[j] < g.ships.len(),
        0 <= k,
    ensures
        g.chasing(content, places, k) == g,
    decreases places.len() - k,
{
    broadcast use sparing;

    if k < places.len() {
        assert(places[k] < g.ships.len());
        chasing_spares(g, content, places, k + 1);
    }
}

pub(crate) broadcast proof fn focus_spares(g: Game, content: Content, sight: Sight, i: int)
    requires
        g.plain(content),
        0 <= i < g.ships.len(),
    ensures
        #[trigger] g.focus_spent(content, sight, i) == g,
{
    broadcast use sparing;

    reveal(Game::focus_spent);
    assert(g.ships.len() <= usize::MAX) by {
        reveal(Game::plain);
    }
    picked_obey(g.friend_rule(sight, i, 1), 0, g.ships.len() as int);
    chasing_spares(g, content, g.near(sight, i, 1), 0);
}

broadcast proof fn declaring_spares(g: Game, content: Content, sight: Sight, a: int, shot: Shot)
    requires
        g.plain(content),
        0 <= a < g.ships.len(),
        shot.d_idx < g.ships.len(),
    ensures
        g.spares(#[trigger] g.declaring(content, sight, a, shot)),
{
    broadcast use sparing;

    reveal(Game::declaring);
}

broadcast proof fn arming_spares(g: Game, content: Content, sight: Sight, a: int, shot: Shot)
    requires
        shot.weapon is None,
    ensures
        (#[trigger] g.arming(content, sight, a, shot)).0 == g,
{
    reveal(Game::arming);
}

broadcast proof fn gunnery_spares(g: Game, content: Content, sight: Sight, a: int, shot: Shot)
    requires
        g.plain(content),
        0 <= a < g.ships.len(),
        shot.d_idx < g.ships.len(),
        shot.weapon is None,
    ensures
        g.spares((#[trigger] g.gunnery(content, sight, a, shot)).0),
{
    broadcast use sparing;

    reveal(Game::gunnery);
    reveal(Game::dice_told);
    assert(forall|h: Game| #[trigger]
        h.plain(content) && h.ships.len() == g.ships.len() ==> h.ships[a].ability(content)
            is None) by {
        reveal(Game::plain);
    }
}

broadcast proof fn tampering_spares(
    g: Game,
    content: Content,
    sight: Sight,
    a: int,
    shot: Shot,
    faces: Seq<AttackFace>,
)
    requires
        g.plain(content),
        0 <= a < g.ships.len(),
        shot.d_idx < g.ships.len(),
    ensures
        #[trigger] g.tampering(content, sight, a, shot, faces) == (g, faces, false),
{
    broadcast use sparing;

    reveal(Game::tampering);
}

broadcast proof fn judging_spares(g: Game, content: Content, a: int, shot: Shot, v: Verdict)
    ensures
        g.spares(#[trigger] g.judged(content, a, shot, v)),
{
    broadcast use sparing;

    reveal(Game::judged);
}

broadcast group volley_spares {
    declaring_spares,
    arming_spares,
    gunnery_spares,
    tampering_spares,
    judging_spares,
}

broadcast proof fn rerolling_keeps_the_dice<F: Face>(
    faces: Seq<F>,
    dice: Tape,
    wants: Seq<F>,
    max: u8,
)
    ensures
        (#[trigger] rerolling(faces, dice, wants, max)).faces.len() == faces.len(),
{
    rerolls_are_limited(faces, dice, wants, max);
}

broadcast proof fn lock_spending_spares(t: Throw<AttackFace>, a: int, defender: ShipId)
    requires
        0 <= a < t.game.ships.len(),
    ensures
        t.game.spares((#[trigger] t.lock_spent(a, defender)).0.game),
        t.lock_spent(a, defender).0.faces.len() == t.faces.len(),
{
    broadcast use {sparing, rerolling_keeps_the_dice};

    reveal(Throw::lock_spent);
    lock_rerolls_keep_the_dice(t.faces, t.dice, t.game.ships[a].focus == 0, 0);
}

broadcast proof fn helping_spares(
    t: Throw<AttackFace>,
    content: Content,
    sight: Sight,
    a: int,
    shot: Shot,
)
    requires
        t.game.plain(content),
        0 <= a < t.game.ships.len(),
    ensures
        t.game.spares((#[trigger] t.helped(content, sight, a, shot)).game),
        t.helped(content, sight, a, shot).faces.len() == t.faces.len(),
{
    broadcast use {sparing, rerolling_keeps_the_dice};

    reveal(Throw::befriended);
    reveal(Throw::jonus);
}

broadcast proof fn aiming_spares(
    t: Throw<AttackFace>,
    content: Content,
    sight: Sight,
    a: int,
    shot: Shot,
    v: Verdict,
    spent: Spent,
)
    requires
        t.game.plain(content),
        0 <= a < t.game.ships.len(),
    ensures
        t.game.spares((#[trigger] t.aimed(content, sight, a, shot, v, spent)).0.game),
        t.aimed(content, sight, a, shot, v, spent).0.faces.len() == t.faces.len(),
{
    broadcast use {sparing, lock_spending_spares, helping_spares};

    reveal(Throw::aimed);
    reveal(Throw::han_solo);
    reveal(Game::computing);
    reveal(Game::han_crew);
    reveal(Game::omega_ace);
}

proof fn spotting_finds<F>(faces: Seq<F>, f: F, k: int)
    requires
        0 <= k,
        faces.len() <= u8::MAX,
    ensures
        spot_from(faces, f, k) is Some ==> spot_from(faces, f, k)->0 < faces.len(),
    decreases faces.len() - k,
{
    if k < faces.len() {
        spotting_finds(faces, f, k + 1);
    }
}

broadcast proof fn a_spot_is_a_place<F>(faces: Seq<F>, f: F)
    requires
        faces.len() <= u8::MAX,
    ensures
        (#[trigger] spot(faces, f)) is Some ==> spot(faces, f)->0 < faces.len(),
{
    spotting_finds(faces, f, 0);
}

broadcast proof fn converting_spares(
    g: Game,
    content: Content,
    a: int,
    shot: Shot,
    faces: Seq<AttackFace>,
)
    requires
        g.plain(content),
        0 <= a < g.ships.len(),
        shot.weapon is None,
        faces.len() <= u8::MAX,
    ensures
        g.spares((#[trigger] g.converting(content, a, shot, faces)).0),
        g.converting(content, a, shot, faces).1.len() == faces.len(),
{
    broadcast use {sparing, a_spot_is_a_place};

    reveal(Game::converting);
    reveal(Game::kir_kanos);
    reveal(Game::swapping);
    reveal(Game::chips);
    reveal(Game::marksman);
    reveal(Game::expertise);
}

pub(crate) broadcast proof fn focuses_spare(g: Game, content: Content, sight: Sight, a: int, n: int)
    requires
        g.plain(content),
        0 <= a < g.ships.len(),
    ensures
        #[trigger] g.focus_spent_by(content, sight, a, n) == g,
    decreases n,
{
    broadcast use focus_spares;

    if n > 0 {
        focuses_spare(g, content, sight, a, n - 1);
    }
}

broadcast proof fn spending_spares(
    g: Game,
    content: Content,
    sight: Sight,
    a: int,
    v: Verdict,
    before: u8,
    faces: Seq<AttackFace>,
)
    requires
        g.plain(content),
        0 <= a < g.ships.len(),
    ensures
        g.spares((#[trigger] g.spending(content, sight, a, v, before, faces)).0),
        g.spending(content, sight, a, v, before, faces).1.len() == faces.len(),
{
    broadcast use {sparing, focuses_spare};

    reveal(Game::spending);
    reveal(Game::calculating);
    reveal(Game::focusing_in);
    reveal(Game::guiding);
}

broadcast proof fn r3_spares(
    g: Game,
    content: Content,
    a: int,
    allowed: bool,
    faces: Seq<AttackFace>,
)
    requires
        g.plain(content),
        0 <= a < g.ships.len(),
    ensures
        #[trigger] g.r3_astromech(content, a, allowed, faces) == (g, faces),
{
    broadcast use sparing;

    reveal(Game::r3_astromech);
}

proof fn m9g8_spares(t: Throw<AttackFace>, a: int, places: Seq<usize>, k: int)
    requires
        0 <= k,
        t.faces.len() <= u8::MAX,
    ensures
        t.game.spares(t.m9g8(a, places, k).game),
        t.m9g8(a, places, k).faces.len() == t.faces.len(),
    decreases places.len() - k,
{
    broadcast use {sparing, a_spot_is_a_place};

    if k < places.len() {
        let die = if !t.game.same_side(places[k] as int, a) {
            best_die(t.faces)
        } else {
            spot(t.faces, AttackFace::Blank)
        };
        let u = match die {
            Some(p) => t.reroll_at(p).saying(Event::M9G8(places[k])),
            None => t,
        };
        m9g8_spares(u, a, places, k + 1);
    }
}

broadcast proof fn forcing_spares(
    t: Throw<AttackFace>,
    content: Content,
    sight: Sight,
    a: int,
    d: int,
)
    requires
        t.game.plain(content),
        0 <= d < t.game.ships.len(),
        t.faces.len() <= u8::MAX,
    ensures
        t.game.spares((#[trigger] t.forced(content, sight, a, d)).game),
        t.forced(content, sight, a, d).faces.len() == t.faces.len(),
{
    broadcast use sparing;

    let holders = picked(t.game.m9g8_rule(content, a), 0, t.game.ships.len() as int);
    m9g8_spares(t, a, holders, 0);
}

broadcast proof fn correcting_spares(
    g: Game,
    content: Content,
    a: int,
    allowed: bool,
    faces: Seq<AttackFace>,
)
    requires
        g.plain(content),
        0 <= a < g.ships.len(),
    ensures
        #[trigger] g.correcting(content, a, allowed, faces) == (g, faces),
{
    broadcast use sparing;

    reveal(Game::correcting);
}

broadcast proof fn no_wampa_cancels(g: Game, content: Content, a: int, faces: Seq<AttackFace>)
    requires
        g.plain(content),
        0 <= a < g.ships.len(),
    ensures
        #[trigger] g.wampa(content, a, faces) == (g, faces, false),
{
    broadcast use sparing;

    reveal(Game::wampa);
}

broadcast group aim_spares {
    aiming_spares,
    converting_spares,
    spending_spares,
    r3_spares,
    forcing_spares,
    correcting_spares,
    no_wampa_cancels,
}

/// The attack dice of a plain attack: as many as a byte counts, thrown and
/// modified without harm to anyone.
pub(crate) proof fn the_roll_spares(p: Play, content: Content, sight: Sight, a: int, shot: Shot)
    requires
        p.game.plain(content),
        0 <= a < p.game.ships.len(),
        shot.d_idx < p.game.ships.len(),
        shot.weapon is None,
    ensures
        ({
            let aimed = p.attack_rolled(content, sight, a, shot);
            &&& p.game.spares(aimed.throw.game)
            &&& aimed.throw.faces.len() <= u8::MAX
            &&& !aimed.wampa
        }),
{
    broadcast use {sparing, volley_spares, aim_spares};

    reveal(Play::attack_rolled);
}

broadcast proof fn agility_spares(g: Game, content: Content, sight: Sight, a: int, d: int)
    ensures
        g.spares((#[trigger] g.guard_agility(content, sight, a, d)).0),
{
    broadcast use sparing;

    reveal(Game::guard_agility);
    reveal(Game::lowering);
}

broadcast proof fn guarding_spares(
    t: Throw<DefenseFace>,
    content: Content,
    sight: Sight,
    a: int,
    shot: Shot,
    attackers: nat,
)
    requires
        t.game.plain(content),
        0 <= a < t.game.ships.len(),
        shot.d_idx < t.game.ships.len(),
    ensures
        t.game.spares((#[trigger] t.guarded(content, sight, a, shot, attackers)).game),
        t.guarded(content, sight, a, shot, attackers).faces.len() <= u8::MAX,
{
    broadcast use {sparing, agility_spares};

    reveal(Throw::guarded);
    reveal(Throw::framed);
    reveal(Throw::finn);
}

broadcast proof fn guessing_spares(
    g: Game,
    content: Content,
    d: int,
    incoming: u8,
    faces: Seq<DefenseFace>,
)
    requires
        g.plain(content),
        0 <= d < g.ships.len(),
    ensures
        #[trigger] g.guessing(content, d, incoming, faces) == (g, faces),
{
    broadcast use sparing;

    reveal(Game::guessing);
}

broadcast proof fn dodging_spares(
    t: Throw<DefenseFace>,
    content: Content,
    sight: Sight,
    a: int,
    d: int,
    incoming: u8,
)
    requires
        t.game.plain(content),
        0 <= a < t.game.ships.len(),
        0 <= d < t.game.ships.len(),
    ensures
        t.game.spares((#[trigger] t.dodged(content, sight, a, d, incoming)).game),
        t.dodged(content, sight, a, d, incoming).faces.len() == t.faces.len(),
{
    broadcast use {sparing, rerolling_keeps_the_dice};

    reveal(Throw::dodged);
    reveal(Throw::friend_dodged);
    reveal(Throw::instructed);
}

broadcast proof fn deflecting_spares(
    g: Game,
    content: Content,
    sight: Sight,
    a: int,
    shot: Shot,
    incoming: u8,
    faces: Seq<DefenseFace>,
)
    requires
        g.plain(content),
        shot.d_idx < g.ships.len(),
    ensures
        #[trigger] g.deflecting(content, sight, a, shot, incoming, faces) == (g, faces),
{
    broadcast use sparing;

    reveal(Game::deflecting);
    reveal(Game::dodging);
    reveal(Game::marked);
}

broadcast proof fn guard_focusing_counts(
    g: Game,
    content: Content,
    sight: Sight,
    d: int,
    may_spend: bool,
    incoming: u8,
    faces: Seq<DefenseFace>,
)
    requires
        g.plain(content),
        0 <= d < g.ships.len(),
        faces.len() <= u8::MAX,
    ensures
        ({
            let (h, after, evades, _) = #[trigger] g.guard_focusing(
                content,
                sight,
                d,
                may_spend,
                incoming,
                faces,
            );
            &&& g.spares(h)
            &&& after.len() == faces.len()
            &&& evades == count(after, DefenseFace::Evade)
        }),
{
    broadcast use {sparing, focus_spares};

    reveal(Game::guard_focusing);
    counts_fit(faces, DefenseFace::Evade, DefenseFace::Focus);
    turning_moves_the_count(faces, DefenseFace::Focus, DefenseFace::Evade);
}

broadcast proof fn clustering_spares(
    g: Game,
    content: Content,
    sight: Sight,
    d: int,
    may_spend: bool,
    incoming: u8,
    evades: u8,
    faces: Seq<DefenseFace>,
)
    requires
        g.plain(content),
        0 <= d < g.ships.len(),
    ensures
        #[trigger] g.clustering(content, sight, d, may_spend, incoming, evades, faces) == (
            g,
            faces,
            evades,
            false,
        ),
{
    broadcast use sparing;

    reveal(Game::clustering);
}

broadcast proof fn evade_spending_counts(
    g: Game,
    d: int,
    allowed: bool,
    incoming: u8,
    evades: u8,
)
    requires
        0 <= d < g.ships.len(),
    ensures
        ({
            let (h, after, spent) = #[trigger] g.evade_spending(d, allowed, incoming, evades);
            &&& g.spares(h)
            &&& after == evades + one_if(spent)
        }),
{
    broadcast use sparing;

    reveal(Game::evade_spending);
}

broadcast proof fn juking_spares(
    g: Game,
    content: Content,
    a: int,
    allowed: bool,
    incoming: u8,
    evades: u8,
    faces: Seq<DefenseFace>,
)
    requires
        g.plain(content),
        0 <= a < g.ships.len(),
    ensures
        #[trigger] g.juking(content, a, allowed, incoming, evades, faces) == (g, faces, evades),
{
    broadcast use sparing;

    reveal(Game::juking);
}

broadcast proof fn crack_shot_spares(
    g: Game,
    content: Content,
    sight: Sight,
    a: int,
    d: int,
    incoming: u8,
    evades: u8,
)
    requires
        g.plain(content),
        0 <= a < g.ships.len(),
    ensures
        #[trigger] g.crack_shot(content, sight, a, d, incoming, evades) == (g, evades),
{
    broadcast use sparing;

    reveal(Game::crack_shot);
}

broadcast group guard_spares {
    guarding_spares,
    guessing_spares,
    dodging_spares,
    deflecting_spares,
    guard_focusing_counts,
    clustering_spares,
    evade_spending_counts,
    juking_spares,
    crack_shot_spares,
}

/// The defense dice of a plain attack: the evades that count are those that
/// show, and one more for a token spent.
pub(crate) proof fn the_guard_spares(
    p: Play,
    content: Content,
    sight: Sight,
    a: int,
    shot: Shot,
    attackers: nat,
    incoming: u8,
    v: Verdict,
)
    requires
        p.game.plain(content),
        0 <= a < p.game.ships.len(),
        shot.d_idx < p.game.ships.len(),
    ensures
        ({
            let guarded = p.defense_rolled(content, sight, a, shot, attackers, incoming, v);
            &&& p.game.spares(guarded.throw.game)
            &&& guarded.throw.faces.len() <= u8::MAX
            &&& guarded.evades == count(guarded.throw.faces, DefenseFace::Evade) + one_if(
                guarded.evade,
            )
        }),
{
    broadcast use {sparing, guard_spares};

    reveal(Play::defense_rolled);
}

/// What a ship has lost and what it has left add up, and it is destroyed when
/// nothing is left.
pub open spec fn tolled(s: ShipModel, toll: Toll, shields: u8, hull: u8) -> bool {
    &&& s.shields + toll.shields == shields
    &&& s.hull + toll.hull == hull
    &&& s.destroyed <==> s.hull == 0
    &&& s.hull == 0 ==> s.shields == 0
}

pub(crate) proof fn a_plain_ship_stays_plain(g: Game, content: Content, i: int, ship: ShipModel)
    requires
        g.plain(content),
        0 <= i < g.ships.len(),
        ship.plain(content),
    ensures
        g.with_ship(i, ship).plain(content),
        g.ships[i].plain(content),
{
    reveal(Game::plain);
}

pub(crate) proof fn saying_keeps_plain(g: Game, content: Content, event: Event)
    requires
        g.plain(content),
    ensures
        g.saying(event).plain(content),
{
    reveal(Game::plain);
}

pub(crate) proof fn a_ship_is_plain(g: Game, content: Content, i: int)
    requires
        g.plain(content),
        0 <= i < g.ships.len(),
    ensures
        g.ships[i].plain(content),
{
    reveal(Game::plain);
}

proof fn hits_add_up(
    g: Game,
    content: Content,
    d: int,
    n: int,
    toll: Toll,
    shields: u8,
    hull: u8,
)
    requires
        g.plain(content),
        0 <= d < g.ships.len(),
        0 <= n,
        tolled(g.ships[d], toll, shields, hull),
    ensures
        ({
            let (h, t) = g.hits_dealt(d, n, toll);
            let (s, r) = (g.ships[d], h.ships[d]);
            &&& h.plain(content)
            &&& h.ships.len() == g.ships.len()
            &&& tolled(r, t, shields, hull)
            &&& r.shields == less(s.shields as int, n)
            &&& r.hull == less(s.hull as int, less(n, s.shields as int))
            &&& t.crits == toll.crits
        }),
    decreases n,
{
    a_ship_is_plain(g, content, d);
    if n > 0 && !g.ships[d].destroyed {
        a_plain_ship_stays_plain(g, content, d, g.ships[d].hit());
        hits_add_up(
            g.damaged(d),
            content,
            d,
            n - 1,
            toll.and(point(g.ships[d])),
            shields,
            hull,
        );
    }
}

/// A faceup card on a ship without shields costs hull at most.
proof fn a_card_costs_hull(p: Play, content: Content, a: int, d: int)
    requires
        p.game.plain(content),
        0 <= a < p.game.ships.len(),
        0 <= d < p.game.ships.len(),
        p.game.ships[d].shields == 0,
        p.game.ships[d].hull > 0,
        !p.game.ships[d].destroyed,
    ensures
        ({
            let (q, extra) = p.card_dealt(content, a, d);
            let (s, r) = (p.game.ships[d], q.game.ships[d]);
            &&& q.game.plain(content)
            &&& q.game.ships.len() == p.game.ships.len()
            &&& extra.0 == 0
            &&& r.shields == 0
            &&& r.hull + extra.1 == s.hull
            &&& r.destroyed <==> r.hull == 0
        }),
{
    broadcast use sparing;

    reveal(Play::crit);
    let g = p.game;
    a_ship_is_plain(g, content, d);
    let (q, effect) = p.dealt(content, a);
    assert(g.spares(q.game));
    let q = q.saying(Event::Critical(d as usize, effect));
    assert(g.spares(q.game));
    a_ship_is_plain(q.game, content, d);
    assert(q.game.ships[d] == g.ships[d]);
    assert(q.crit(content, d, effect).0.game.plain(content)) by {
        let s = q.game.ships[d];
        a_plain_ship_stays_plain(q.game, content, d, s.hit());
        a_plain_ship_stays_plain(q.game, content, d, s.hull_hit());
        let told = q.game.saying(Event::ExplosionFlares(d as usize));
        assert(q.game.spares(told));
        a_plain_ship_stays_plain(told, content, d, s.hit());
        a_plain_ship_stays_plain(q.game, content, d, ShipModel { crits: s.crits.skip(1), ..s });
        a_plain_ship_stays_plain(
            q.game,
            content,
            d,
            s.with_crit(effect),
        );
    }
}

proof fn crits_add_up(
    p: Play,
    content: Content,
    a: int,
    d: int,
    n: int,
    toll: Toll,
    shields: u8,
    hull: u8,
)
    requires
        p.game.plain(content),
        0 <= a < p.game.ships.len(),
        0 <= d < p.game.ships.len(),
        0 <= n,
        toll.crits + n <= u8::MAX,
        tolled(p.game.ships[d], toll, shields, hull),
    ensures
        ({
            let (q, t) = p.crits_dealt(content, a, d, false, n, toll);
            let (s, r) = (p.game.ships[d], q.game.ships[d]);
            let due = less(n, s.shields as int);
            &&& q.game.plain(content)
            &&& q.game.ships.len() == p.game.ships.len()
            &&& tolled(r, t, shields, hull)
            &&& r.shields == less(s.shields as int, n)
            &&& r.hull <= less(s.hull as int, due)
            &&& due == 0 ==> r.hull == s.hull
            &&& t.crits <= toll.crits + due
            &&& !r.destroyed ==> t.crits == toll.crits + due
        }),
    decreases n,
{
    let s = p.game.ships[d];
    a_ship_is_plain(p.game, content, d);
    if n > 0 && !s.destroyed {
        let q = p.at(p.game.damaged(d));
        let after = toll.and(point(s));
        a_plain_ship_stays_plain(p.game, content, d, s.hit());
        if point(s) == DamagePoint::Hull {
            let tolled_crit = Toll { crits: sat(after.crits + 1), ..after };
            if !q.game.ships[d].destroyed {
                let (r, extra) = q.card_dealt(content, a, d);
                a_card_costs_hull(q, content, a, d);
                crits_add_up(
                    r,
                    content,
                    a,
                    d,
                    n - 1,
                    tolled_crit.plus(extra),
                    shields,
                    hull,
                );
            } else {
                crits_add_up(q, content, a, d, n - 1, tolled_crit, shields, hull);
            }
        } else {
            crits_add_up(q, content, a, d, n - 1, after, shields, hull);
        }
    }
}

pub(crate) proof fn nobody_is_picked(rule: spec_fn(int) -> bool, n: int)
    requires
        n <= usize::MAX,
        forall|j: int| 0 <= j < n ==> !#[trigger] rule(j),
    ensures
        picked(rule, 0, n) == Seq::<usize>::empty(),
{
    picked_obey(rule, 0, n);
    if picked(rule, 0, n).len() > 0 {
        let k = picked(rule, 0, n)[0];
        assert(rule(k as int));
    }
    assert(picked(rule, 0, n) =~= Seq::<usize>::empty());
}

pub(crate) proof fn nobody_draws_fire(p: Play, content: Content, sight: Sight, d: int, crits: u8)
    requires
        p.game.plain(content),
        0 <= d < p.game.ships.len(),
    ensures
        p.fire_drawn(content, sight, d, crits) == (p, crits),
{
    broadcast use sparing;

    reveal(Play::fire_drawn);
    reveal(Game::martyr);
    let g = p.game;
    assert(g.ships.len() <= usize::MAX) by {
        reveal(Game::plain);
    }
    let friends = g.near(sight, d, 1);
    picked_obey(g.friend_rule(sight, d, 1), 0, g.ships.len() as int);
    first_is_first(g.martyr_rule(content, friends), 0, friends.len() as int);
    assert forall|k: int| 0 <= k < friends.len() implies !#[trigger] g.martyr_rule(
        content,
        friends,
    )(k) by {
        assert(friends[k] < g.ships.len());
        assert(!g.has(content, friends[k] as int, UpgradeEffect::SufferCritForFriendly));
    }
}

proof fn suffering_spares(g: Game, content: Content, d: int, toll: Toll, hit: bool)
    requires
        g.plain(content),
        0 <= d < g.ships.len(),
    ensures
        g.spares(g.suffered(content, d, toll, hit)),
{
    broadcast use sparing;

    reveal(Game::suffered);
    reveal(Game::reinforced);
    let h = if toll.shields > 0 && !g.ships[d].destroyed {
        g.shield_lost(content, d)
    } else {
        g
    };
    assert(g.spares(h));
    a_ship_is_plain(h, content, d);
}

pub(crate) proof fn winding_up_spares(
    p: Play,
    content: Content,
    sight: Sight,
    moves: Moves,
    a: int,
    shot: Shot,
    landed: bool,
    lock_spent: bool,
)
    requires
        p.game.plain(content),
        0 <= a < p.game.ships.len(),
        shot.d_idx < p.game.ships.len(),
        shot.weapon is None,
    ensures
        p.wound_up(content, sight, moves, a, shot, landed, lock_spent).0.game == p.game,
{
    broadcast use sparing;

    reveal(Play::wound_up);
    reveal(Play::attack_cards);
    reveal(Play::relocked);
    reveal(Game::riders);
    reveal(Game::fire_control);
    reveal(Game::missed);
    reveal(Game::expended);
    reveal(Game::turr);
    let g = p.game;
    assert(g.ships.len() <= usize::MAX) by {
        reveal(Game::plain);
    }
    let rule = g.specialist_rule(content, sight, a);
    assert forall|k: int| 0 <= k < g.ships.len() implies !#[trigger] rule(k) by {
        assert(!g.has(content, k, UpgradeEffect::CrewFocusAfterFriendlyMiss));
    }
    nobody_is_picked(rule, g.ships.len() as int);
}

/// Results that get through a plain defense are dealt point by point.
pub(crate) proof fn the_strike_adds_up(
    p: Play,
    content: Content,
    sight: Sight,
    a: int,
    shot: Shot,
    rolled: (u8, u8),
    evades: u8,
)
    requires
        p.game.plain(content),
        0 <= a < p.game.ships.len(),
        shot.d_idx < p.game.ships.len(),
        shot.weapon is None,
        rolled.0 + rolled.1 <= u8::MAX,
        !p.game.ships[shot.d_idx as int].destroyed,
        p.game.ships[shot.d_idx as int].hull > 0,
    ensures
        ({
            let struck = p.struck_by(content, sight, a, shot, rolled, evades, false);
            let d = shot.d_idx as int;
            let (s, r) = (p.game.ships[d], struck.play.game.ships[d]);
            let due = applied(s.shields, AttackOutcome { hits: struck.hits, crits: struck.crits });
            let points = due.hull_damage + due.hull_crits;
            &&& struck.play.game.plain(content)
            &&& struck.play.game.ships.len() == p.game.ships.len()
            &&& (struck.hits, struck.crits) == compared(rolled.0, rolled.1, evades, false)
            &&& tolled(r, struck.toll, s.shields, s.hull)
            &&& r.shields == due.shields_remaining
            &&& r.hull <= less(s.hull as int, points)
            &&& due.hull_crits == 0 ==> r.hull == less(s.hull as int, points)
            &&& struck.toll.crits <= due.hull_crits
            &&& !r.destroyed ==> struck.toll.crits == due.hull_crits
        }),
{
    broadcast use sparing;

    reveal(Play::struck_by);
    reveal(Play::damage_dealt);
    reveal(Game::r4d6);
    reveal(Game::weapon_result);
    reveal(Game::wampa_dealt);
    let d = shot.d_idx as int;
    let s = p.game.ships[d];
    let (hits, crits) = compared(rolled.0, rolled.1, evades, false);
    nobody_draws_fire(p, content, sight, d, crits);
    assert(p.game.mission is None) by {
        reveal(Game::plain);
    }
    hits_add_up(p.game, content, d, hits as int, Toll::nothing(), s.shields, s.hull);
    let (g, toll) = p.game.hits_dealt(d, hits as int, Toll::nothing());
    crits_add_up(p.at(g), content, a, d, crits as int, toll, s.shields, s.hull);
    let (q, after) = p.at(g).crits_dealt(content, a, d, false, crits as int, toll);
    suffering_spares(q.game, content, d, after, hits > 0 || crits > 0);
    assert(q.game.ships[d].unharmed(
        q.game.suffered(content, d, after, hits > 0 || crits > 0).ships[d],
    )) by {
        reveal(Game::spares);
    }
}

/// What a spared ship keeps.
pub(crate) proof fn sparing_keeps(a: Game, b: Game, content: Content, d: int)
    requires
        a.spares(b),
        a.plain(content),
        0 <= d < a.ships.len(),
    ensures
        b.plain(content),
        b.ships.len() == a.ships.len(),
        a.ships[d].unharmed(b.ships[d]),
{
    broadcast use sparing;

    reveal(Game::spares);
}

} // verus!
