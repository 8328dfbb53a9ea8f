//! The Combat phase comes to an end: every shot uses something up.

use vstd::prelude::*;

use crate::data::{find_upgrade, Content};
use crate::event::Event;
use crate::game::abiding::every_ship_remains;
use crate::game::actions::Moves;
use crate::game::battle::{shot_at, sight_after, waiting, StepModel, Survey};
use crate::game::cards::unused_card;
use crate::game::lasting::an_attack_lasts;
use crate::game::state::{AttackOption, CombatModel, Game, Play, Shot};
use crate::game::targets::{preferred, primaries, turrets};
use crate::pick::{first, first_is_first};
use crate::ship::{PlayerId, ShipId, ShipModel};
use crate::sight::Sight;
use crate::upgrade::{Upgrade, UpgradeEffect, UpgradeId};

verus! {

/// How many of the first `n` printed cards are not among those used.
pub open spec fn cards_left(cards: Seq<Upgrade>, used: Seq<UpgradeId>, n: int) -> nat
    decreases n,
{
    if n <= 0 {
        0
    } else {
        cards_left(cards, used, n - 1) + if used.contains(cards[n - 1].id) {
            0nat
        } else {
            1nat
        }
    }
}

/// How far the shot that waits is from being the last: a first shot may be
/// followed by its own second.
pub open spec fn shots_waiting(combat: CombatModel) -> nat {
    match combat.followup {
        None => 0,
        Some((_, shot)) => if shot.second {
            1
        } else {
            2
        },
    }
}

/// How many of the first `n` ships are still flying.
pub open spec fn flying(ships: Seq<ShipModel>, n: int) -> nat
    decreases n,
{
    if n <= 0 {
        0
    } else {
        flying(ships, n - 1) + if ships[n - 1].destroyed {
            0nat
        } else {
            1nat
        }
    }
}

/// How many printed cards the first `n` ships have not used this round, added
/// up.
pub open spec fn uses_left(content: Content, ships: Seq<ShipModel>, n: int) -> nat
    decreases n,
{
    if n <= 0 {
        0
    } else {
        uses_left(content, ships, n - 1) + cards_left(
            content.upgrades.upgrades@,
            ships[n - 1].used_round,
            content.upgrades.upgrades@.len() as int,
        )
    }
}

/// How many choices are pending.
pub open spec fn choices(combat: CombatModel) -> nat {
    if combat.pending is Some {
        1
    } else {
        0
    }
}

impl Game {
    /// Every ship endures, and the groups, the attackers to come and the
    /// pending choice are as they were.
    pub open spec fn fights_on(self, later: Game) -> bool {
        &&& self.combat is Some
        &&& later.combat is Some
        &&& later.combat->0.groups == self.combat->0.groups
        &&& later.combat->0.current == self.combat->0.current
        &&& later.combat->0.pending == self.combat->0.pending
        &&& (Game { combat: None, ..self }).lasts(Game { combat: None, ..later })
    }

    /// Every ship endures.
    pub open spec fn ships_endure(self, later: Game) -> bool {
        &&& later.ships.len() == self.ships.len()
        &&& forall|k: int|
            0 <= k < self.ships.len() ==> (#[trigger] self.ships[k]).endures(later.ships[k])
    }

    /// What is left of the Combat phase: the groups that wait, the attackers
    /// of the current one, the pending choice, the ships still flying, the
    /// cards they can still use, and the shot that waits.
    pub open spec fn left(self, content: Content) -> (nat, nat, nat, nat, nat, nat) {
        let c = self.combat->0;
        let n = self.ships.len() as int;
        (
            c.groups.len(),
            c.current.len(),
            choices(c),
            flying(self.ships, n),
            uses_left(content, self.ships, n),
            shots_waiting(c),
        )
    }

    /// `later` is nearer to the end of the Combat phase: less is left of one
    /// thing, and as much of everything listed before it.
    pub open spec fn nearer(self, later: Game, content: Content) -> bool {
        let (a, b) = (later.left(content), self.left(content));
        &&& self.combat is Some
        &&& later.combat is Some
        &&& later.ships.len() == self.ships.len()
        &&& a.0 < b.0 || (a.0 == b.0 && (a.1 < b.1 || (a.1 == b.1 && (a.2 < b.2 || (a.2 == b.2 && (
        a.3 < b.3 || (a.3 == b.3 && (a.4 < b.4 || (a.4 == b.4 && a.5 < b.5)))))))))
    }
}

proof fn used_cards_stay_used(
    cards: Seq<Upgrade>,
    before: Seq<UpgradeId>,
    after: Seq<UpgradeId>,
    n: int,
)
    requires
        0 <= n <= cards.len(),
        forall|id: UpgradeId| #[trigger] before.contains(id) ==> after.contains(id),
    ensures
        cards_left(cards, after, n) <= cards_left(cards, before, n),
    decreases n,
{
    if n > 0 {
        used_cards_stay_used(cards, before, after, n - 1);
    }
}

proof fn one_more_card_is_used(
    cards: Seq<Upgrade>,
    before: Seq<UpgradeId>,
    card: UpgradeId,
    j: int,
    n: int,
)
    requires
        0 <= j < n <= cards.len(),
        cards[j].id == card,
        !before.contains(card),
    ensures
        cards_left(cards, before.push(card), n) < cards_left(cards, before, n),
    decreases n,
{
    let after = before.push(card);
    assert forall|id: UpgradeId| #[trigger] before.contains(id) implies after.contains(id) by {
        let k = choose|k: int| 0 <= k < before.len() && before[k] == id;
        assert(after[k] == id);
    }
    assert(after[before.len() as int] == card);
    used_cards_stay_used(cards, before, after, n - 1);
    if j < n - 1 {
        one_more_card_is_used(cards, before, card, j, n - 1);
    }
}

proof fn a_known_card_is_printed(cards: Seq<Upgrade>, id: UpgradeId) -> (j: int)
    requires
        find_upgrade(cards, id) is Some,
    ensures
        0 <= j < cards.len(),
        cards[j].id == id,
    decreases cards.len(),
{
    if cards[0].id == id {
        0
    } else {
        a_known_card_is_printed(cards.skip(1), id) + 1
    }
}

proof fn an_unused_card_is_unused(
    content: Content,
    cards: Seq<UpgradeId>,
    used: Seq<UpgradeId>,
    e: UpgradeEffect,
)
    ensures
        unused_card(content, cards, used, e) is Some ==> content.does(
            unused_card(content, cards, used, e)->0,
        ) == Some(e) && !used.contains(unused_card(content, cards, used, e)->0),
    decreases cards.len(),
{
    if cards.len() > 0 {
        an_unused_card_is_unused(content, cards.skip(1), used, e);
    }
}

/// As the game lasts, no ship comes back and no use of a card does.
proof fn lasting_uses_up(a: Game, b: Game, content: Content, n: int)
    requires
        a.lasts(b),
        0 <= n <= a.ships.len(),
    ensures
        flying(b.ships, n) <= flying(a.ships, n),
        uses_left(content, b.ships, n) <= uses_left(content, a.ships, n),
    decreases n,
{
    reveal(Game::lasts);
    if n > 0 {
        lasting_uses_up(a, b, content, n - 1);
        let (before, after) = (a.ships[n - 1].used_round, b.ships[n - 1].used_round);
        assert(a.ships[n - 1].endures(b.ships[n - 1]));
        assert forall|id: UpgradeId| #[trigger] before.contains(id) implies after.contains(id) by {
            let k = choose|k: int| 0 <= k < before.len() && before[k] == id;
            assert(after[k] == id);
        }
        used_cards_stay_used(
            content.upgrades.upgrades@,
            before,
            after,
            content.upgrades.upgrades@.len() as int,
        );
    }
}

proof fn a_lost_ship_counts(a: Game, b: Game, content: Content, k: int, n: int)
    requires
        a.lasts(b),
        0 <= k < n <= a.ships.len(),
        !a.ships[k].destroyed,
        b.ships[k].destroyed,
    ensures
        flying(b.ships, n) < flying(a.ships, n),
    decreases n,
{
    lasting_uses_up(a, b, content, n - 1);
    reveal(Game::lasts);
    assert(a.ships[n - 1].endures(b.ships[n - 1]));
    if k < n - 1 {
        a_lost_ship_counts(a, b, content, k, n - 1);
    }
}

proof fn a_used_card_counts(g: Game, content: Content, i: int, e: UpgradeEffect, n: int)
    requires
        0 <= i < n <= g.ships.len(),
        g.unused(content, i, e) is Some,
    ensures
        g.lasts(g.used(content, i, e)),
        uses_left(content, g.used(content, i, e).ships, n) < uses_left(content, g.ships, n),
    decreases n,
{
    reveal(Game::lasts);
    let h = g.used(content, i, e);
    let card = g.unused(content, i, e)->0;
    let cards = content.upgrades.upgrades@;
    an_unused_card_is_unused(content, g.ships[i].active(content), g.ships[i].used_round, e);
    assert(g.lasts(h));
    if i == n - 1 {
        lasting_uses_up(g, h, content, n - 1);
        let j = a_known_card_is_printed(cards, card);
        one_more_card_is_used(cards, g.ships[i].used_round, card, j, cards.len() as int);
    } else {
        a_used_card_counts(g, content, i, e, n - 1);
        assert(h.ships[n - 1] == g.ships[n - 1]);
    }
}

/// While the game lasts, the fight goes on.
proof fn lasting_fights_on(a: Game, b: Game)
    requires
        a.lasts(b),
        a.combat is Some,
    ensures
        a.fights_on(b),
{
    reveal(Game::lasts);
}

proof fn fights_on_and_on(a: Game, b: Game, c: Game)
    requires
        a.fights_on(b),
        b.fights_on(c),
    ensures
        a.fights_on(c),
{
    reveal(Game::lasts);
    assert forall|k: int| 0 <= k < a.ships.len() implies (#[trigger] a.ships[k]).endures(
        c.ships[k],
    ) by {
        assert((Game { combat: None, ..b }).ships[k].endures(c.ships[k]));
        assert((Game { combat: None, ..a }).ships[k].endures(b.ships[k]));
    }
}

/// A fight that goes on uses up ships and cards.
proof fn fighting_uses_up(a: Game, b: Game, content: Content, n: int)
    requires
        a.fights_on(b),
        0 <= n <= a.ships.len(),
    ensures
        b.ships.len() == a.ships.len(),
        flying(b.ships, n) <= flying(a.ships, n),
        uses_left(content, b.ships, n) <= uses_left(content, a.ships, n),
{
    reveal(Game::lasts);
    lasting_uses_up(Game { combat: None, ..a }, Game { combat: None, ..b }, content, n);
}

/// Queueing a shot changes nothing else.
proof fn following_fights_on(
    g: Game,
    a: int,
    pick: Option<AttackOption>,
    focus_hit: bool,
    event: Event,
)
    requires
        g.combat is Some,
    ensures
        g.fights_on(g.following(a, pick, focus_hit, event)),
{
    reveal(Game::lasts);
}

/// A second attack after a miss costs a use of a card.
proof fn gunner_uses_a_card(
    g: Game,
    content: Content,
    sight: Sight,
    a: int,
    shot: Shot,
    missed: bool,
)
    requires
        g.combat is Some,
        0 <= a < g.ships.len(),
    ensures
        ({
            let h = g.gunner(content, sight, a, shot, missed);
            let n = g.ships.len() as int;
            &&& g.fights_on(h)
            &&& h.combat->0.followup == g.combat->0.followup || uses_left(content, h.ships, n)
                < uses_left(content, g.ships, n)
        }),
{
    reveal(Game::gunner);
    let n = g.ships.len() as int;
    let h = g.gunner(content, sight, a, shot, missed);
    let (x, y) = (
        UpgradeEffect::CrewSecondAttackOnMiss,
        UpgradeEffect::CrewSecondAttackFocusToHit,
    );
    if !missed || g.ships[a].destroyed || shot.focus_hit || g.gunned(content, a) || (g.unused(
        content,
        a,
        x,
    ) is None && g.unused(content, a, y) is None) {
        itself_fights_on(g);
    } else {
        let e = if g.unused(content, a, x) is Some {
            x
        } else {
            y
        };
        let u = g.used(content, a, e);
        a_used_card_counts(g, content, a, e, n);
        lasting_fights_on(g, u);
        let pick = preferred(
            primaries(u.options(content, sight, a)),
            Some(g.ships[shot.d_idx as int].id),
        );
        let event = Event::SecondAttack(a as usize, e == y);
        following_fights_on(u, a, pick, e == y, event);
        assert(h == u.following(a, pick, e == y, event));
        fights_on_and_on(g, u, h);
        fighting_uses_up(u, h, content, n);
    }
}

proof fn itself_fights_on(g: Game)
    requires
        g.combat is Some,
    ensures
        g.fights_on(g),
{
    reveal(Game::lasts);
}

/// A turret attack after the primary weapon costs a use of a card.
proof fn turret_uses_a_card(g: Game, content: Content, sight: Sight, a: int, shot: Shot)
    requires
        g.combat is Some,
        0 <= a < g.ships.len(),
    ensures
        ({
            let h = g.turret_follows(content, sight, a, shot);
            let n = g.ships.len() as int;
            &&& g.fights_on(h)
            &&& h.combat->0.followup == g.combat->0.followup || uses_left(content, h.ships, n)
                < uses_left(content, g.ships, n)
        }),
{
    reveal(Game::turret_follows);
    let n = g.ships.len() as int;
    let h = g.turret_follows(content, sight, a, shot);
    let e = UpgradeEffect::TitleArcOnlyThenTurretAttack;
    if shot.weapon is Some || g.ships[a].destroyed || !g.idle() || g.unused(content, a, e)
        is None {
        itself_fights_on(g);
    } else {
        let u = g.used(content, a, e);
        a_used_card_counts(g, content, a, e, n);
        lasting_fights_on(g, u);
        let pick = preferred(
            turrets(content, u.options(content, sight, a)),
            Some(g.ships[shot.d_idx as int].id),
        );
        let event = Event::TurretFollows(a as usize);
        following_fights_on(u, a, pick, false, event);
        assert(h == u.following(a, pick, false, event));
        fights_on_and_on(g, u, h);
        fighting_uses_up(u, h, content, n);
    }
}

/// Chewbacca attacks only after a destruction.
proof fn chewbacca_fights_on(g: Game, content: Content, sight: Sight, d: int, died: bool)
    requires
        g.combat is Some,
    ensures
        g.fights_on(g.chewbacca(content, sight, d, died)),
        !died ==> g.chewbacca(content, sight, d, died) == g,
{
    reveal(Game::chewbacca);
    itself_fights_on(g);
    if let Some(k) = first(g.chewie_rule(content, sight, d), 0, g.ships.len() as int) {
        let pick = preferred(
            primaries(g.options(content, sight, k as int)),
            g.ships[k as int].lock,
        );
        following_fights_on(g, k as int, pick, false, Event::ChewbaccaAttacks(k));
    }
}

/// A shot leaves the groups, the attackers to come and a pending choice
/// alone. The shot that it queues, if any, is its own second, or a card was
/// used up for it, or the defender was destroyed.
proof fn a_shot_uses_something_up(
    p: Play,
    content: Content,
    sight: Sight,
    moves: Moves,
    a: int,
    shot: Shot,
)
    requires
        p.game.combat is Some,
        p.game.fits(),
        0 <= a < p.game.ships.len(),
        shot.d_idx < p.game.ships.len(),
    ensures
        ({
            let q = p.fired(content, sight, moves, a, shot).0.game;
            let d = shot.d_idx as int;
            let n = p.game.ships.len() as int;
            let waiting = shots_waiting(q.combat->0);
            &&& p.game.fights_on(q)
            &&& p.game.idle() ==> waiting == 0 || (!shot.second && waiting == 1)
                || uses_left(content, q.ships, n) < uses_left(content, p.game.ships, n)
                || q.ships[d].destroyed
        }),
{
    reveal(Play::fired);
    let n = p.game.ships.len() as int;
    let d = shot.d_idx as int;
    let (q, record) = p.attacked(content, sight, moves, a, shot);
    an_attack_lasts(p, content, sight, moves, a, shot);
    lasting_fights_on(p.game, q.game);
    fighting_uses_up(p.game, q.game, content, n);
    assert(record.defender_destroyed == q.game.ships[d].destroyed) by {
        reveal(Play::attacked);
    }
    assert(q.game.combat == p.game.combat) by {
        reveal(Game::lasts);
    }
    let r = q.game.recording(record);
    assert(q.game.fights_on(r)) by {
        reveal(Game::lasts);
    }
    fights_on_and_on(p.game, q.game, r);
    if shot.twice(content) && !shot.second {
        let s = r.with_followup(a as usize, Shot { second: true, ..shot });
        assert(r.fights_on(s)) by {
            reveal(Game::lasts);
        }
        fights_on_and_on(p.game, r, s);
    } else {
        let after = sight_after(sight, moves, record);
        let missed = record.hits == 0 && record.crits == 0;
        let s = r.gunner(content, after, a, shot, missed);
        let t = s.turret_follows(content, after, a, shot);
        let u = t.chewbacca(content, after, d, record.defender_destroyed);
        gunner_uses_a_card(r, content, after, a, shot, missed);
        fights_on_and_on(p.game, r, s);
        fighting_uses_up(r, s, content, n);
        turret_uses_a_card(s, content, after, a, shot);
        fights_on_and_on(p.game, s, t);
        fighting_uses_up(s, t, content, n);
        chewbacca_fights_on(t, content, after, d, record.defender_destroyed);
        fights_on_and_on(p.game, t, u);
        fighting_uses_up(t, u, content, n);
        if record.defender_destroyed {
            assert(u.ships[d].destroyed) by {
                reveal(Game::lasts);
                fights_on_and_on(r, s, t);
                fights_on_and_on(r, t, u);
                assert((Game { combat: None, ..r }).ships[d].endures(u.ships[d]));
            }
        }
    }
}

proof fn nearer_and_nearer(a: Game, b: Game, c: Game, content: Content)
    requires
        a.nearer(b, content),
        b.nearer(c, content),
    ensures
        a.nearer(c, content),
{
}

/// An attacker's turn changes nothing about the queue, but for the shots and
/// the choice that come of it.
proof fn a_turn_comes_nearer(p: Play, content: Content, survey: Survey, a: int)
    requires
        p.game.combat is Some,
        p.game.combat->0.pending is None,
        p.game.idle(),
        p.game.fits(),
        0 <= a < p.game.ships.len(),
    ensures
        ({
            let (q, step) = p.takes_turn(content, survey, a);
            let (c, d) = (p.game.combat->0, q.game.combat->0);
            &&& q.game.combat is Some
            &&& d.groups == c.groups
            &&& d.current == c.current
            &&& q.game.ships.len() == p.game.ships.len()
            &&& match step {
                None => true,
                Some(StepModel::Attack(_)) => true,
                Some(StepModel::NeedTarget(choice)) => d.pending == Some(choice),
                Some(StepModel::Done(_, _)) => false,
            }
        }),
{
    let g = p.game;
    let options = g.options(content, survey.sight, a);
    if g.scannable(survey.sight, survey.over, a) is None && options.len() == 1 {
        first_is_first(g.id_rule(options[0].target), 0, g.ships.len() as int);
        if let Some(d) = g.index(options[0].target) {
            let shot = shot_at(d, options[0], false);
            a_shot_uses_something_up(p, content, survey.sight, survey.moves@[a], a, shot);
            fighting_uses_up(
                g,
                p.fired(content, survey.sight, survey.moves@[a], a, shot).0.game,
                content,
                0,
            );
        }
    }
}

proof fn a_move_comes_nearer(p: Play, content: Content, survey: Survey)
    requires
        p.game.combat is Some,
        p.game.fits(),
    ensures
        ({
            let (q, step) = p.combat_moved(content, survey);
            match step {
                None => p.game.nearer(q.game, content),
                Some(StepModel::Attack(_)) => p.game.nearer(q.game, content),
                Some(StepModel::NeedTarget(choice)) => {
                    &&& q.game.combat is Some
                    &&& q.game.combat->0.pending == Some(choice)
                    &&& if p.game.combat->0.pending is Some {
                        q == p
                    } else {
                        p.game.nearer(q.game, content)
                    }
                },
                Some(StepModel::Done(_, _)) => true,
            }
        }),
{
    reveal(Play::combat_moved);
    reveal(Play::closed);
    let g = p.game;
    let c = g.combat->0;
    let n = g.ships.len() as int;
    if c.pending is Some {
    } else if c.followup is Some {
        let (a, shot) = c.followup->0;
        let h = g.unqueued();
        if a < n && shot.d_idx < n && !g.ships[a as int].destroyed
            && !g.ships[shot.d_idx as int].destroyed {
            let moves = survey.moves@[a as int];
            let q = p.at(h).fired(content, survey.sight, moves, a as int, shot).0.game;
            a_shot_uses_something_up(p.at(h), content, survey.sight, moves, a as int, shot);
            fighting_uses_up(h, q, content, n);
            if q.ships[shot.d_idx as int].destroyed {
                a_lost_ship_counts(
                    Game { combat: None, ..h },
                    Game { combat: None, ..q },
                    content,
                    shot.d_idx as int,
                    n,
                );
            }
        }
    } else if c.current.len() > 0 {
        let h = g.next_attacker();
        first_is_first(h.id_rule(c.current[0]), 0, n);
        if let Some(a) = h.index(c.current[0]) {
            a_turn_comes_nearer(p.at(h), content, survey, a as int);
        }
    }
}

/// Each step of the Combat phase ends it, asks for a target, or brings its end
/// nearer. What is asked for while a choice is pending is that same choice,
/// and nothing changes.
pub proof fn every_step_comes_nearer(p: Play, content: Content, survey: Survey)
    requires
        p.game.combat is Some,
        p.game.fits(),
    ensures
        ({
            let (q, step) = p.stepped(content, survey);
            match step {
                StepModel::Attack(_) => p.game.nearer(q.game, content),
                StepModel::NeedTarget(choice) => {
                    &&& q.game.combat is Some
                    &&& q.game.combat->0.pending == Some(choice)
                    &&& if p.game.combat->0.pending is Some {
                        q == p
                    } else {
                        p.game.nearer(q.game, content)
                    }
                },
                StepModel::Done(_, _) => true,
            }
        }),
    decreases
        p.game.combat->0.groups.len(),
        p.game.combat->0.current.len(),
        waiting(p.game),
{
    let (q, step) = p.combat_moved(content, survey);
    a_move_comes_nearer(p, content, survey);
    assert(p.game.combat->0.pending is Some ==> step is Some) by {
        reveal(Play::combat_moved);
    }
    if step is None {
        p.idle_moves_use_up_the_queue(content, survey);
        every_step_comes_nearer(q, content, survey);
        let (r, next) = q.stepped(content, survey);
        if !(next is Done) {
            if r != q {
                nearer_and_nearer(p.game, q.game, r.game, content);
            }
        }
    }
}

proof fn fighting_endures(a: Game, b: Game)
    requires
        a.fights_on(b),
    ensures
        a.ships_endure(b),
{
    reveal(Game::lasts);
    assert forall|k: int| 0 <= k < a.ships.len() implies (#[trigger] a.ships[k]).endures(
        b.ships[k],
    ) by {
        assert((Game { combat: None, ..a }).ships[k].endures(b.ships[k]));
    }
}

proof fn a_turn_endures(p: Play, content: Content, survey: Survey, a: int)
    requires
        p.game.combat is Some,
        p.game.fits(),
        0 <= a < p.game.ships.len(),
    ensures
        p.game.ships_endure(p.takes_turn(content, survey, a).0.game),
{
    let g = p.game;
    let options = g.options(content, survey.sight, a);
    if g.scannable(survey.sight, survey.over, a) is None && options.len() == 1 {
        first_is_first(g.id_rule(options[0].target), 0, g.ships.len() as int);
        if let Some(d) = g.index(options[0].target) {
            let shot = shot_at(d, options[0], false);
            a_shot_uses_something_up(p, content, survey.sight, survey.moves@[a], a, shot);
            fighting_endures(g, p.fired(content, survey.sight, survey.moves@[a], a, shot).0.game);
        }
    }
}

/// A move that does not close the round lets every ship endure.
proof fn a_move_endures(p: Play, content: Content, survey: Survey)
    requires
        p.game.combat is Some,
        p.game.fits(),
        !(p.combat_moved(content, survey).1 matches Some(StepModel::Done(_, _))),
    ensures
        p.game.ships_endure(p.combat_moved(content, survey).0.game),
{
    reveal(Play::combat_moved);
    reveal(Play::closed);
    let q = p.combat_moved(content, survey).0;
    let g = p.game;
    let c = g.combat->0;
    let n = g.ships.len() as int;
    if c.pending is Some {
    } else if c.followup is Some {
        let (a, shot) = c.followup->0;
        let h = g.unqueued();
        if a < n && shot.d_idx < n && !g.ships[a as int].destroyed
            && !g.ships[shot.d_idx as int].destroyed {
            let moves = survey.moves@[a as int];
            a_shot_uses_something_up(p.at(h), content, survey.sight, moves, a as int, shot);
            fighting_endures(h, q.game);
        }
    } else if c.current.len() > 0 {
        let h = g.next_attacker();
        first_is_first(h.id_rule(c.current[0]), 0, n);
        if let Some(a) = h.index(c.current[0]) {
            a_turn_endures(p.at(h), content, survey, a as int);
        }
    }
}

/// Until the phase is over, every ship endures a step of it: none that was
/// destroyed comes back, and no card used this round can be used again.
pub proof fn every_ship_endures_combat(p: Play, content: Content, survey: Survey)
    requires
        p.game.combat is Some,
        p.game.fits(),
        !(p.stepped(content, survey).1 is Done),
    ensures
        p.game.ships_endure(p.stepped(content, survey).0.game),
    decreases
        p.game.combat->0.groups.len(),
        p.game.combat->0.current.len(),
        waiting(p.game),
{
    let (q, step) = p.combat_moved(content, survey);
    a_move_endures(p, content, survey);
    if step is None {
        p.idle_moves_use_up_the_queue(content, survey);
        every_ship_endures_combat(q, content, survey);
        let r = p.stepped(content, survey).0.game;
        assert forall|k: int| 0 <= k < p.game.ships.len() implies (
        #[trigger] p.game.ships[k]).endures(r.ships[k]) by {
            assert(q.game.ships[k].endures(r.ships[k]));
        }
    }
}

/// No step of the Combat phase brings a ship back, not even the one that
/// closes the round.
pub proof fn no_ship_comes_back(p: Play, content: Content, survey: Survey)
    requires
        p.game.combat is Some,
        p.game.fits(),
    ensures
        p.game.ships_remain(p.stepped(content, survey).0.game),
    decreases
        p.game.combat->0.groups.len(),
        p.game.combat->0.current.len(),
        waiting(p.game),
{
    let (q, step) = p.combat_moved(content, survey);
    match step {
        None => {
            p.idle_moves_use_up_the_queue(content, survey);
            a_move_comes_nearer(p, content, survey);
            no_ship_comes_back(q, content, survey);
            a_move_endures(p, content, survey);
            let r = p.stepped(content, survey).0.game;
            assert forall|k: int| 0 <= k < p.game.ships.len() implies (
            #[trigger] p.game.ships[k]).remains(r.ships[k]) by {
                assert(q.game.ships[k].remains(r.ships[k]));
            }
        },
        Some(StepModel::Done(_, _)) => {
            reveal(Play::closed);
            let peace = p.at(Game { combat: None, ..p.game });
            every_ship_remains(peace, content, survey.sight);
            assert(q == p.closed(content, survey.sight).0) by {
                reveal(Play::combat_moved);
            }
            let r = peace.ended(content, survey.sight).game;
            assert(p.stepped(content, survey).0.game.ships == r.ships);
            assert forall|k: int| 0 <= k < p.game.ships.len() implies (
            #[trigger] p.game.ships[k]).remains(r.ships[k]) by {
                assert(peace.game.ships[k].remains(r.ships[k]));
            }
        },
        Some(_) => {
            a_move_endures(p, content, survey);
        },
    }
}

/// A declared target brings the end of the Combat phase nearer.
pub proof fn a_declared_target_comes_nearer(
    p: Play,
    content: Content,
    survey: Survey,
    player: PlayerId,
    target: ShipId,
    weapon: Option<UpgradeId>,
)
    requires
        p.game.declared(player, target, weapon) is Ok,
        p.game.fits(),
    ensures
        ({
            let (a, shot) = p.game.declared(player, target, weapon)->Ok_0;
            p.game.nearer(
                p.at(p.game.unpending()).fired(
                    content,
                    survey.sight,
                    survey.moves@[a as int],
                    a as int,
                    shot,
                ).0.game,
                content,
            )
        }),
{
    let g = p.game;
    let n = g.ships.len() as int;
    let (a, shot) = g.declared(player, target, weapon)->Ok_0;
    let h = g.unpending();
    let moves = survey.moves@[a as int];
    first_is_first(g.id_rule(g.combat->0.pending->0.attacker), 0, n);
    first_is_first(g.id_rule(target), 0, n);
    a_shot_uses_something_up(p.at(h), content, survey.sight, moves, a as int, shot);
    fighting_uses_up(
        h,
        p.at(h).fired(content, survey.sight, moves, a as int, shot).0.game,
        content,
        n,
    );
}

/// The Combat phase ends: however a sequence of games goes, from no point on
/// does each come nearer to the end than the one before it.
pub proof fn no_combat_is_endless(chain: spec_fn(nat) -> Game, content: Content, k: nat)
    ensures
        exists|j: nat| k <= j && !(#[trigger] chain(j)).nearer(chain(j + 1), content),
    decreases
        chain(k).left(content).0,
        chain(k).left(content).1,
        chain(k).left(content).2,
        chain(k).left(content).3,
        chain(k).left(content).4,
        chain(k).left(content).5,
{
    if chain(k).nearer(chain(k + 1), content) {
        no_combat_is_endless(chain, content, k + 1);
        let j = choose|j: nat| k + 1 <= j && !(#[trigger] chain(j)).nearer(chain(j + 1), content);
        assert(!chain(j).nearer(chain(j + 1), content));
    }
}

} // verus!
