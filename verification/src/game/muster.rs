//! The start of the Combat phase: what pilots hand out, and who fires when.

#![verifier::loop_isolation(false)]

use vstd::prelude::*;

use crate::board::Seat;
use crate::data::Content;
use crate::event::{Event, Locker};
use crate::game::order::{combat_order, ids, lined_up};
use crate::game::state::{views, CombatModel, CombatState, Game, GameState, Phase};
use crate::pick::{find, first, obeys, pick, picked};
use crate::pilot::PilotAbility;
use crate::ship::{down, PlayerId, ShipId, ShipModel};
use crate::sight::Sight;
use crate::upgrade::UpgradeEffect;

verus! {

broadcast use crate::game::state::framing;

/// The highest of the sides, or `high` if that is higher.
pub open spec fn highest(teams: Seq<u8>, high: u8) -> u8
    decreases teams.len(),
{
    if teams.len() == 0 {
        high
    } else {
        let rest = highest(teams.drop_last(), high);
        if teams.last() > rest {
            teams.last()
        } else {
            rest
        }
    }
}

/// The ranks with the seats from `k` on ranked by their place in the order.
pub open spec fn ranked(ranks: Seq<u8>, order: Seq<usize>, k: int) -> Seq<u8>
    decreases order.len() - k,
{
    if k >= order.len() {
        ranks
    } else {
        ranked(ranks.update(order[k] as int, (k % 256) as u8), order, k + 1)
    }
}

/// The skill of the first entry with the id, or 0.
pub open spec fn skill_in(line: Seq<(ShipId, u8, PlayerId)>, id: ShipId, k: int) -> u8
    decreases line.len() - k,
{
    if k >= line.len() {
        0
    } else if line[k].0 == id {
        line[k].1
    } else {
        skill_in(line, id, k + 1)
    }
}

/// The ships in groups of equal pilot skill, in order.
pub open spec fn grouped(line: Seq<ShipId>, fighters: Seq<(ShipId, u8, PlayerId)>) -> Seq<
    Seq<ShipId>,
>
    decreases line.len(),
{
    if line.len() == 0 {
        Seq::empty()
    } else {
        let rest = grouped(line.drop_last(), fighters);
        let id = line.last();
        if rest.len() > 0 && skill_in(fighters, rest.last()[0], 0) == skill_in(fighters, id, 0) {
            rest.update(rest.len() - 1, rest.last().push(id))
        } else {
            rest.push(seq![id])
        }
    }
}

/// The place of the lowest of the skills below `mine` among the places from
/// `k` on, or the best so far.
pub open spec fn weakest(
    skills: Seq<u8>,
    places: Seq<usize>,
    mine: u8,
    k: int,
    best: Option<usize>,
) -> Option<usize>
    decreases places.len() - k,
{
    if k >= places.len() {
        best
    } else if skills[places[k] as int] < mine && (best is None || skills[places[k] as int]
        < skills[best->0 as int]) {
        weakest(skills, places, mine, k + 1, Some(places[k]))
    } else {
        weakest(skills, places, mine, k + 1, best)
    }
}

/// The place of the highest of the skills among the places from `k` on, or
/// the best so far; the last of those as high.
pub open spec fn strongest(
    skills: Seq<u8>,
    places: Seq<usize>,
    k: int,
    best: Option<usize>,
) -> Option<usize>
    decreases places.len() - k,
{
    if k >= places.len() {
        best
    } else if best is None || skills[places[k] as int] >= skills[best->0 as int] {
        strongest(skills, places, k + 1, Some(places[k]))
    } else {
        strongest(skills, places, k + 1, best)
    }
}

impl Game {
    /// Number of sides in the game.
    pub open spec fn sides(self) -> int {
        if self.teams.len() == 0 {
            2
        } else {
            highest(self.teams, 0) + 1
        }
    }

    pub open spec fn ally_rule(self) -> spec_fn(int) -> bool {
        |s: int|
            s != self.initiative.0 && self.side(PlayerId(s as u32)) == self.side(self.initiative)
    }

    pub open spec fn foe_seat_rule(self) -> spec_fn(int) -> bool {
        |s: int| self.side(PlayerId(s as u32)) != self.side(self.initiative)
    }

    /// How many seats are ranked.
    pub open spec fn ranked_seats(self) -> nat {
        if self.committed.len() > 2 {
            self.committed.len()
        } else {
            2
        }
    }

    /// The seats in tie-break order: the initiative seat, the others of its
    /// side, then the other sides.
    pub open spec fn seat_order(self) -> Seq<usize> {
        let n = self.ranked_seats() as int;
        seq![self.initiative.0 as usize] + picked(self.ally_rule(), 0, n) + picked(
            self.foe_seat_rule(),
            0,
            n,
        )
    }

    /// Tie-break rank per seat for equal pilot skill.
    #[verifier::opaque]
    pub open spec fn seat_ranks(self) -> Seq<u8> {
        ranked(Seq::new(self.ranked_seats(), |k: int| u8::MAX), self.seat_order(), 0)
    }

    pub open spec fn lockless_rule(self, content: Content, friends: Seq<usize>) -> spec_fn(
        int,
    ) -> bool {
        |k: int|
            self.ships[friends[k] as int].can_lock(self.two_locks(content, friends[k] as int))
    }

    /// Commander Alozen: a lock on an enemy at Range 1.
    #[verifier::opaque]
    pub open spec fn alozen(self, content: Content, sight: Sight, i: int) -> Game {
        if self.can(content, i, PilotAbility::LockAtRange1AtCombatStart) {
            self.auto_locking(content, sight, i, 1, Locker::CommanderAlozen)
        } else {
            self
        }
    }

    /// Colonel Jendon: his lock goes to a friend at Range 1 without one.
    #[verifier::opaque]
    pub open spec fn jendon(self, content: Content, sight: Sight, i: int) -> Game {
        let friends = self.near(sight, i, 1);
        let taker = first(self.lockless_rule(content, friends), 0, friends.len() as int);
        if self.can(content, i, PilotAbility::GiveLockToFriendlyAtCombatStart)
            && self.ships[i].lock is Some && taker is Some {
            let l = self.ships[i].lock->0;
            let f = friends[taker->0 as int];
            let g = self.with_ship(
                f as int,
                self.ships[f as int].locking(l, self.two_locks(content, f as int)),
            );
            g.with_ship(i, g.ships[i].unlocking(l)).saying(Event::Jendon(i as usize, f))
        } else {
            self
        }
    }

    /// Rey: a stored focus token comes back for the Combat phase.
    #[verifier::opaque]
    pub open spec fn rey_returns(self, content: Content, i: int) -> Game {
        let s = self.ships[i];
        if s.stored_focus > 0 && self.has(content, i, UpgradeEffect::CrewStoreFocusTokens) {
            self.with_ship(
                i,
                ShipModel { stored_focus: down(s.stored_focus), ..s.with_focus() },
            ).saying(Event::ReyAssigns(i as usize))
        } else {
            self
        }
    }

    /// Ysanne Isard: shieldless and damaged, a free evade action.
    #[verifier::opaque]
    pub open spec fn isard(self, content: Content, i: int) -> Game {
        let s = self.ships[i];
        if s.shields == 0 && s.hull < s.full_hull(content) && self.has(
            content,
            i,
            UpgradeEffect::CrewFreeEvadeIfNoShieldsDamaged,
        ) && s.free_to_act(content) {
            self.with_ship(i, s.with_evade()).saying(Event::YsanneIsard(i as usize))
        } else {
            self
        }
    }

    /// "Epsilon Leader" on ship `i` removes a stress token from each of the
    /// friends from `k` on.
    pub open spec fn relieving(self, content: Content, i: int, friends: Seq<usize>, k: int) -> Game
        decreases friends.len() - k,
    {
        if k >= friends.len() {
            self
        } else {
            let f = friends[k] as int;
            let g = self.unstressed(content, f);
            let g = if self.ships[f].stress > 0 {
                g.saying(Event::EpsilonLeader(i as usize, friends[k]))
            } else {
                g
            };
            g.relieving(content, i, friends, k + 1)
        }
    }

    pub open spec fn tense_rule(self, friends: Seq<usize>) -> spec_fn(int) -> bool {
        |k: int| self.ships[friends[k] as int].stress > 0
    }

    /// "Epsilon Leader" removes a stress token from every friendly ship at
    /// Range 1; a Wingman card from one.
    #[verifier::opaque]
    pub open spec fn relieved(self, content: Content, sight: Sight, i: int) -> Game {
        let friends = self.near(sight, i, 1);
        let g = if self.can(content, i, PilotAbility::RemoveStressFriendlyRange1AtCombatStart) {
            self.relieving(content, i, friends, 0)
        } else {
            self
        };
        let tense = first(g.tense_rule(friends), 0, friends.len() as int);
        if g.has(content, i, UpgradeEffect::RemoveStressFriendlyAtCombatStart) && tense is Some {
            let f = friends[tense->0 as int];
            g.unstressed(content, f as int).saying(Event::Wingman(i as usize, f))
        } else {
            g
        }
    }

    /// What ship `i` does at the start of the Combat phase.
    #[verifier::opaque]
    pub open spec fn mustered(self, content: Content, sight: Sight, i: int) -> Game {
        if self.ships[i].destroyed || self.ships[i].pose is None {
            self
        } else {
            self.alozen(content, sight, i).jendon(content, sight, i).rey_returns(content, i).isard(
                content,
                i,
            ).relieved(content, sight, i)
        }
    }

    /// What the first `n` ships do at the start of the Combat phase.
    pub open spec fn mustered_by(self, content: Content, sight: Sight, n: int) -> Game
        decreases n,
    {
        if n <= 0 {
            self
        } else {
            self.mustered_by(content, sight, n - 1).mustered(content, sight, n - 1)
        }
    }

    /// The pilot skills of the ships.
    pub open spec fn skills(self, content: Content) -> Seq<u8> {
        Seq::new(self.ships.len(), |k: int| self.ships[k].skill(content))
    }

    /// Swarm Tactics on ship `i`: the lowest-skill friend at Range 1 fires at
    /// the leader's skill this phase.
    #[verifier::opaque]
    pub open spec fn swarm_tactics(
        self,
        content: Content,
        sight: Sight,
        i: int,
        skills: Seq<u8>,
    ) -> (Game, Seq<u8>) {
        let mine = self.ships[i].skill(content);
        let friend = weakest(skills, self.near(sight, i, 1), mine, 0, None);
        if self.ships[i].destroyed || self.ships[i].pose is None || !self.has(
            content,
            i,
            UpgradeEffect::ShareSkillWithFriendly,
        ) {
            (self, skills)
        } else {
            match friend {
                Some(f) => (
                    self.saying(Event::SwarmTactics(i as usize, f, mine)),
                    skills.update(f as int, mine),
                ),
                None => (self, skills),
            }
        }
    }

    pub open spec fn swarm_by(self, content: Content, sight: Sight, skills: Seq<u8>, n: int) -> (
        Game,
        Seq<u8>,
    )
        decreases n,
    {
        if n <= 0 {
            (self, skills)
        } else {
            let (g, s) = self.swarm_by(content, sight, skills, n - 1);
            g.swarm_tactics(content, sight, n - 1, s)
        }
    }

    /// Decoy (switched on) on ship `i`: swap pilot skill with a friend at
    /// Range 1-2 for the phase — policy: the friend with the highest skill.
    #[verifier::opaque]
    pub open spec fn decoy(self, content: Content, sight: Sight, i: int, skills: Seq<u8>) -> (
        Game,
        Seq<u8>,
    ) {
        if self.ships[i].destroyed || self.ships[i].pose is None || self.ships[i].using(
            content,
            UpgradeEffect::SwapSkillWithFriendly,
        ) is None {
            (self, skills)
        } else {
            match strongest(skills, self.near(sight, i, 2), 0, None) {
                Some(f) => (
                    self.saying(Event::Decoy(i as usize, f, skills[f as int], skills[i])),
                    skills.update(i, skills[f as int]).update(f as int, skills[i]),
                ),
                None => (self, skills),
            }
        }
    }

    pub open spec fn decoy_by(self, content: Content, sight: Sight, skills: Seq<u8>, n: int) -> (
        Game,
        Seq<u8>,
    )
        decreases n,
    {
        if n <= 0 {
            (self, skills)
        } else {
            let (g, s) = self.decoy_by(content, sight, skills, n - 1);
            g.decoy(content, sight, n - 1, s)
        }
    }

    /// The first `n` ships that can fight, with their skills.
    pub open spec fn fighters(self, skills: Seq<u8>, n: int) -> Seq<(ShipId, u8, PlayerId)>
        decreases n,
    {
        if n <= 0 {
            Seq::empty()
        } else {
            let rest = self.fighters(skills, n - 1);
            let s = self.ships[n - 1];
            if !s.destroyed && s.pose is Some {
                rest.push((s.id, skills[n - 1], s.owner))
            } else {
                rest
            }
        }
    }

    /// The Combat phase begins: what pilots do at its start, then the combat
    /// order — highest pilot skill first (initiative breaks ties), grouped by
    /// skill.
    #[verifier::opaque]
    pub open spec fn joined(self, content: Content, sight: Sight) -> Game {
        let n = self.ships.len() as int;
        let g = self.mustered_by(content, sight, n);
        let (g, skills) = g.swarm_by(content, sight, g.skills(content), n);
        let (g, skills) = g.decoy_by(content, sight, skills, n);
        let fighters = g.fighters(skills, n);
        Game {
            phase: Phase::Combat,
            combat: Some(
                CombatModel {
                    groups: grouped(ids(lined_up(fighters, g.seat_ranks(), true)), fighters),
                    current: Seq::empty(),
                    pending: None,
                    followup: None,
                    attacks: Seq::empty(),
                },
            ),
            ..g
        }
    }
}

fn skill_of(line: &Vec<(ShipId, u8, PlayerId)>, id: ShipId) -> (skill: u8)
    ensures
        skill == skill_in(line@, id, 0),
{
    let mut k: usize = 0;
    while k < line.len()
        invariant
            k <= line.len(),
            skill_in(line@, id, k as int) == skill_in(line@, id, 0),
        decreases line.len() - k,
    {
        if line[k].0 == id {
            return line[k].1;
        }
        k = k + 1;
    }
    0
}

proof fn groups_are_not_empty(line: Seq<ShipId>, fighters: Seq<(ShipId, u8, PlayerId)>)
    ensures
        forall|k: int|
            0 <= k < grouped(line, fighters).len() ==> (#[trigger] grouped(
                line,
                fighters,
            )[k]).len() > 0,
    decreases line.len(),
{
    if line.len() > 0 {
        groups_are_not_empty(line.drop_last(), fighters);
        let rest = grouped(line.drop_last(), fighters);
        assert forall|k: int| 0 <= k < grouped(line, fighters).len() implies (#[trigger] grouped(
            line,
            fighters,
        )[k]).len() > 0 by {
            if k < rest.len() {
                assert(rest[k].len() > 0);
            }
        }
    }
}

fn group(line: &Vec<ShipId>, fighters: &Vec<(ShipId, u8, PlayerId)>) -> (groups: Vec<Vec<ShipId>>)
    ensures
        views(groups@) == grouped(line@, fighters@),
{
    let mut groups: Vec<Vec<ShipId>> = Vec::new();
    let mut i: usize = 0;
    assert(views(groups@) =~= grouped(line@.take(0), fighters@));
    while i < line.len()
        invariant
            i <= line.len(),
            views(groups@) == grouped(line@.take(i as int), fighters@),
        decreases line.len() - i,
    {
        proof {
            assert(line@.take(i + 1).drop_last() =~= line@.take(i as int));
            groups_are_not_empty(line@.take(i as int), fighters@);
        }
        let id = line[i];
        let ghost before = groups@;
        let n: usize = groups.len();
        assert(views(before).len() == n);
        if n > 0 {
            assert(views(before)[n - 1] == before[n - 1]@);
            assert(before[n - 1]@.len() > 0);
        }
        if n > 0 && skill_of(fighters, groups[n - 1][0]) == skill_of(fighters, id) {
            groups[n - 1].push(id);
            assert(views(groups@) =~= views(before).update(n - 1, before[n - 1]@.push(id)));
        } else {
            let mut new: Vec<ShipId> = Vec::new();
            new.push(id);
            assert(new@ =~= seq![id]);
            groups.push(new);
            assert(views(groups@) =~= views(before).push(seq![id]));
        }
        i = i + 1;
    }
    assert(line@.take(i as int) =~= line@);
    groups
}

impl GameState {
    /// Number of sides in the game.
    pub fn sides(&self) -> (n: u8)
        requires
            forall|k: int| 0 <= k < self@.teams.len() ==> #[trigger] self@.teams[k] < u8::MAX,
        ensures
            n == self@.sides(),
    {
        if self.teams.len() == 0 {
            return 2;
        }
        let mut high: u8 = 0;
        let mut i: usize = 0;
        while i < self.teams.len()
            invariant
                i <= self.teams.len(),
                high < u8::MAX,
                high == highest(self.teams@.take(i as int), 0),
            decreases self.teams.len() - i,
        {
            assert(self.teams@.take(i + 1).drop_last() =~= self.teams@.take(i as int));
            assert(self@.teams[i as int] < u8::MAX);
            if self.teams[i] > high {
                high = self.teams[i];
            }
            i = i + 1;
        }
        assert(self.teams@.take(i as int) =~= self.teams@);
        high + 1
    }

    /// The board edge a seat deploys from: its side's edge.
    pub fn seat_of(&self, player: PlayerId) -> (seat: Seat)
        ensures
            seat == Seat::edge(self@.side(player)),
    {
        Seat::for_side(self.team(player), 2)
    }

    /// Tie-break rank per seat for equal pilot skill: the initiative
    /// side first (its initiative seat, then its other seats in seat
    /// order), then the other sides in seat order.
    pub fn seat_ranks(&self) -> (ranks: Vec<u8>)
        requires
            self@.initiative.0 < self@.ranked_seats(),
            self@.ranked_seats() <= u32::MAX,
        ensures
            ranks@ == self@.seat_ranks(),
    {
        reveal(Game::seat_ranks);
        let n: usize = if self.committed.len() > 2 {
            self.committed.len()
        } else {
            2
        };
        let init: usize = self.initiative.0 as usize;
        let ally = |s: usize| -> (yes: bool)
            requires
                s < n,
            ensures
                yes == obeys(self@.ally_rule(), s),
        { s != init && self.team(PlayerId(s as u32)) == self.team(self.initiative) };
        let mut allies = pick(n, ally, Ghost(self@.ally_rule()));
        let foe = |s: usize| -> (yes: bool)
            requires
                s < n,
            ensures
                yes == obeys(self@.foe_seat_rule(), s),
        { self.team(PlayerId(s as u32)) != self.team(self.initiative) };
        let mut foes = pick(n, foe, Ghost(self@.foe_seat_rule()));
        let ghost a = allies@;
        let ghost f = foes@;
        let mut order: Vec<usize> = Vec::new();
        order.push(init);
        order.append(&mut allies);
        order.append(&mut foes);
        assert(order@ =~= self@.seat_order());
        assert forall|k: int| 0 <= k < order@.len() implies #[trigger] order@[k] < n by {
            if k > 0 && k <= a.len() {
                assert(order@[k] == a[k - 1]);
            } else if k > a.len() {
                assert(order@[k] == f[k - 1 - a.len()]);
            }
        }
        let mut ranks: Vec<u8> = Vec::new();
        let mut i: usize = 0;
        while i < n
            invariant
                i <= n,
                ranks@ == Seq::new(i as nat, |k: int| u8::MAX),
            decreases n - i,
        {
            ranks.push(u8::MAX);
            i = i + 1;
            assert(ranks@ =~= Seq::new(i as nat, |k: int| u8::MAX));
        }
        let ghost start = ranks@;
        let mut k: usize = 0;
        while k < order.len()
            invariant
                k <= order.len(),
                ranks@.len() == n,
                ranked(ranks@, order@, k as int) == ranked(start, order@, 0),
            decreases order.len() - k,
        {
            ranks.set(order[k], (k % 256) as u8);
            k = k + 1;
        }
        ranks
    }

    fn muster_alozen(&mut self, content: &Content, sight: &Sight, i: usize)
        requires
            i < old(self)@.ships.len(),
        ensures
            final(self)@ == old(self)@.alozen(*content, *sight, i as int),
            final(self)@.frame() == old(self)@.frame(),
    {
        reveal(Game::alozen);
        if self.has_ability(content, i, PilotAbility::LockAtRange1AtCombatStart) {
            self.auto_lock_within(content, sight, i, 1, Locker::CommanderAlozen);
        }
    }

    fn find_lockless(&self, content: &Content, friends: &Vec<usize>) -> (place: Option<usize>)
        requires
            forall|k: int| 0 <= k < friends@.len() ==> #[trigger] friends@[k] < self@.ships.len(),
        ensures
            place == first(self@.lockless_rule(*content, friends@), 0, friends@.len() as int),
            place is Some ==> place->0 < friends@.len(),
    {
        let test = |k: usize| -> (yes: bool)
            requires
                k < friends@.len(),
            ensures
                yes == obeys(self@.lockless_rule(*content, friends@), k),
        { self.ships[friends[k]].lock_free(self.two_locks(content, friends[k])) };
        find(friends.len(), test, Ghost(self@.lockless_rule(*content, friends@)))
    }

    fn muster_jendon(&mut self, content: &Content, sight: &Sight, i: usize)
        requires
            i < old(self)@.ships.len(),
        ensures
            final(self)@ == old(self)@.jendon(*content, *sight, i as int),
            final(self)@.frame() == old(self)@.frame(),
    {
        reveal(Game::jendon);
        if !self.has_ability(content, i, PilotAbility::GiveLockToFriendlyAtCombatStart) {
            return;
        }
        let l = match self.ships[i].lock {
            None => return ,
            Some(l) => l,
        };
        let friends = self.friends_within(sight, i, 1);
        let f: usize = match self.find_lockless(content, &friends) {
            None => return ,
            Some(k) => friends[k],
        };
        let two = self.two_locks(content, f);
        self.ship_mut(f).take_lock(l, two);
        self.ship_mut(i).drop_lock(l);
        self.say(Event::Jendon(i, f));
    }

    fn muster_rey(&mut self, content: &Content, i: usize)
        requires
            i < old(self)@.ships.len(),
        ensures
            final(self)@ == old(self)@.rey_returns(*content, i as int),
            final(self)@.frame() == old(self)@.frame(),
    {
        reveal(Game::rey_returns);
        if self.ships[i].stored_focus > 0 && self.has_effect(
            content,
            i,
            UpgradeEffect::CrewStoreFocusTokens,
        ) {
            let s = self.ship_mut(i);
            s.stored_focus = s.stored_focus - 1;
            s.focus = s.focus.saturating_add(1);
            self.say(Event::ReyAssigns(i));
        }
    }

    fn muster_isard(&mut self, content: &Content, i: usize)
        requires
            i < old(self)@.ships.len(),
            old(self)@.known(*content),
        ensures
            final(self)@ == old(self)@.isard(*content, i as int),
            final(self)@.frame() == old(self)@.frame(),
    {
        reveal(Game::isard);
        assert(self@.frame().ships[i as int] == self@.ships[i as int].identity());
        if self.ships[i].shields == 0 && self.ships[i].hull < self.max_hull(
            content,
            &self.ships[i],
        ) && self.has_effect(content, i, UpgradeEffect::CrewFreeEvadeIfNoShieldsDamaged)
            && self.may_act_freely(content, i) {
            self.add_evade(i);
            self.say(Event::YsanneIsard(i));
        }
    }

    fn find_tense(&self, friends: &Vec<usize>) -> (place: Option<usize>)
        requires
            forall|k: int| 0 <= k < friends@.len() ==> #[trigger] friends@[k] < self@.ships.len(),
        ensures
            place == first(self@.tense_rule(friends@), 0, friends@.len() as int),
            place is Some ==> place->0 < friends@.len(),
    {
        let test = |k: usize| -> (yes: bool)
            requires
                k < friends@.len(),
            ensures
                yes == obeys(self@.tense_rule(friends@), k),
        { self.ships[friends[k]].stress > 0 };
        find(friends.len(), test, Ghost(self@.tense_rule(friends@)))
    }

    fn muster_relief(&mut self, content: &Content, sight: &Sight, i: usize)
        requires
            i < old(self)@.ships.len(),
        ensures
            final(self)@ == old(self)@.relieved(*content, *sight, i as int),
            final(self)@.frame() == old(self)@.frame(),
    {
        reveal(Game::relieved);
        let friends = self.friends_within(sight, i, 1);
        if self.has_ability(content, i, PilotAbility::RemoveStressFriendlyRange1AtCombatStart) {
            let mut k: usize = 0;
            while k < friends.len()
                invariant
                    k <= friends.len(),
                    self@.frame() == old(self)@.frame(),
                    self@.relieving(*content, i as int, friends@, k as int)
                        == old(self)@.relieving(*content, i as int, friends@, 0),
                decreases friends.len() - k,
            {
                if self.lose_stress(content, friends[k]) {
                    self.say(Event::EpsilonLeader(i, friends[k]));
                }
                k = k + 1;
            }
        }
        if self.has_effect(content, i, UpgradeEffect::RemoveStressFriendlyAtCombatStart) {
            if let Some(k) = self.find_tense(&friends) {
                self.lose_stress(content, friends[k]);
                self.say(Event::Wingman(i, friends[k]));
            }
        }
    }

    fn muster(&mut self, content: &Content, sight: &Sight, i: usize)
        requires
            i < old(self)@.ships.len(),
            old(self)@.known(*content),
        ensures
            final(self)@ == old(self)@.mustered(*content, *sight, i as int),
            final(self)@.frame() == old(self)@.frame(),
    {
        reveal(Game::mustered);
        if self.ships[i].destroyed || self.ships[i].pose.is_none() {
            return;
        }
        self.muster_alozen(content, sight, i);
        self.muster_jendon(content, sight, i);
        self.muster_rey(content, i);
        self.muster_isard(content, i);
        self.muster_relief(content, sight, i);
    }

    /// Start of the Combat phase: "Epsilon Leader" removes a stress token
    /// from every friendly ship at Range 1; a Wingman card from one.
    pub fn combat_start_stress_relief(&mut self, content: &Content, sight: &Sight)
        requires
            old(self)@.known(*content),
        ensures
            final(self)@ == old(self)@.mustered_by(
                *content,
                *sight,
                old(self)@.ships.len() as int,
            ),
            final(self)@.frame() == old(self)@.frame(),
    {
        let n: usize = self.ships.len();
        let mut i: usize = 0;
        while i < n
            invariant
                i <= n,
                n == self@.ships.len(),
                self@.frame() == old(self)@.frame(),
                self@ == old(self)@.mustered_by(*content, *sight, i as int),
            decreases n - i,
        {
            self.muster(content, sight, i);
            i = i + 1;
        }
    }

    fn list_skills(&self, content: &Content) -> (skills: Vec<u8>)
        requires
            self@.known(*content),
        ensures
            skills@ == self@.skills(*content),
    {
        let mut skills: Vec<u8> = Vec::new();
        let mut i: usize = 0;
        while i < self.ships.len()
            invariant
                i <= self.ships.len(),
                skills@.len() == i,
                forall|k: int| 0 <= k < i ==> skills@[k] == self@.ships[k].skill(*content),
            decreases self.ships.len() - i,
        {
            assert(self@.frame().ships[i as int] == self@.ships[i as int].identity());
            skills.push(self.effective_skill(content, &self.ships[i]));
            i = i + 1;
        }
        assert(skills@ =~= self@.skills(*content));
        skills
    }

    fn share_skill(&mut self, content: &Content, sight: &Sight, i: usize, skills: &mut Vec<u8>)
        requires
            i < old(self)@.ships.len(),
            old(skills)@.len() == old(self)@.ships.len(),
            old(self)@.known(*content),
        ensures
            (final(self)@, final(skills)@) == old(self)@.swarm_tactics(
                *content,
                *sight,
                i as int,
                old(skills)@,
            ),
            final(skills)@.len() == old(skills)@.len(),
            final(self)@.frame() == old(self)@.frame(),
    {
        reveal(Game::swarm_tactics);
        assert(self@.frame().ships[i as int] == self@.ships[i as int].identity());
        if self.ships[i].destroyed || self.ships[i].pose.is_none() || !self.has_effect(
            content,
            i,
            UpgradeEffect::ShareSkillWithFriendly,
        ) {
            return;
        }
        let mine: u8 = self.effective_skill(content, &self.ships[i]);
        let friends = self.friends_within(sight, i, 1);
        let mut best: Option<usize> = None;
        let mut k: usize = 0;
        while k < friends.len()
            invariant
                k <= friends.len(),
                skills@ == old(skills)@,
                best is Some ==> best->0 < self@.ships.len(),
                weakest(skills@, friends@, mine, k as int, best) == weakest(
                    skills@,
                    friends@,
                    mine,
                    0,
                    None,
                ),
            decreases friends.len() - k,
        {
            let f: usize = friends[k];
            if skills[f] < mine {
                match best {
                    None => {
                        best = Some(f);
                    },
                    Some(b) => {
                        if skills[f] < skills[b] {
                            best = Some(f);
                        }
                    },
                }
            }
            k = k + 1;
        }
        if let Some(f) = best {
            skills.set(f, mine);
            self.say(Event::SwarmTactics(i, f, mine));
        }
    }

    fn swap_skill(&mut self, content: &Content, sight: &Sight, i: usize, skills: &mut Vec<u8>)
        requires
            i < old(self)@.ships.len(),
            old(skills)@.len() == old(self)@.ships.len(),
        ensures
            (final(self)@, final(skills)@) == old(self)@.decoy(
                *content,
                *sight,
                i as int,
                old(skills)@,
            ),
            final(skills)@.len() == old(skills)@.len(),
            final(self)@.frame() == old(self)@.frame(),
    {
        reveal(Game::decoy);
        if self.ships[i].destroyed || self.ships[i].pose.is_none() || self.using(
            content,
            i,
            UpgradeEffect::SwapSkillWithFriendly,
        ).is_none() {
            return;
        }
        let friends = self.friends_within(sight, i, 2);
        let mut best: Option<usize> = None;
        let mut k: usize = 0;
        while k < friends.len()
            invariant
                k <= friends.len(),
                skills@ == old(skills)@,
                best is Some ==> best->0 < self@.ships.len(),
                strongest(skills@, friends@, k as int, best) == strongest(
                    skills@,
                    friends@,
                    0,
                    None,
                ),
            decreases friends.len() - k,
        {
            let f: usize = friends[k];
            match best {
                None => {
                    best = Some(f);
                },
                Some(b) => {
                    if skills[f] >= skills[b] {
                        best = Some(f);
                    }
                },
            }
            k = k + 1;
        }
        if let Some(f) = best {
            let mine: u8 = skills[i];
            let theirs: u8 = skills[f];
            skills.set(i, theirs);
            skills.set(f, mine);
            self.say(Event::Decoy(i, f, theirs, mine));
        }
    }

    pub fn list_fighters(&self, skills: &Vec<u8>) -> (fighters: Vec<(ShipId, u8, PlayerId)>)
        requires
            skills@.len() == self@.ships.len(),
        ensures
            fighters@ == self@.fighters(skills@, self@.ships.len() as int),
    {
        let mut fighters: Vec<(ShipId, u8, PlayerId)> = Vec::new();
        let mut i: usize = 0;
        assert(fighters@ =~= self@.fighters(skills@, 0));
        while i < self.ships.len()
            invariant
                i <= self.ships.len(),
                fighters@ == self@.fighters(skills@, i as int),
            decreases self.ships.len() - i,
        {
            if !self.ships[i].destroyed && self.ships[i].pose.is_some() {
                fighters.push((self.ships[i].id, skills[i], self.ships[i].owner));
            }
            i = i + 1;
        }
        fighters
    }

    /// The Combat phase begins. Combat order: highest pilot skill first
    /// (initiative breaks ties), grouped by skill; each group's survivors are
    /// fixed when the group starts (the simultaneous-attack rule).
    pub fn begin_combat(&mut self, content: &Content, sight: &Sight)
        requires
            old(self)@.known(*content),
            old(self)@.ranked_seats() <= u32::MAX,
        ensures
            final(self)@ == old(self)@.joined(*content, *sight),
            final(self)@.known(*content),
            final(self)@.ships.len() == old(self)@.ships.len(),
    {
        reveal(Game::joined);
        let n: usize = self.ships.len();
        self.combat_start_stress_relief(content, sight);
        let mut skills = self.list_skills(content);
        let ghost g1 = self@;
        let ghost s1 = skills@;
        // Swarm Tactics: the lowest-skill friend at Range 1 fires at the
        // leader's skill this phase.
        let mut i: usize = 0;
        while i < n
            invariant
                i <= n,
                n == self@.ships.len(),
                skills@.len() == n,
                self@.frame() == old(self)@.frame(),
                (self@, skills@) == g1.swarm_by(*content, *sight, s1, i as int),
            decreases n - i,
        {
            self.share_skill(content, sight, i, &mut skills);
            i = i + 1;
        }
        let ghost g2 = self@;
        let ghost s2 = skills@;
        let mut i: usize = 0;
        while i < n
            invariant
                i <= n,
                n == self@.ships.len(),
                skills@.len() == n,
                self@.frame() == old(self)@.frame(),
                (self@, skills@) == g2.decoy_by(*content, *sight, s2, i as int),
            decreases n - i,
        {
            self.swap_skill(content, sight, i, &mut skills);
            i = i + 1;
        }
        let fighters = self.list_fighters(&skills);
        let ranks = self.seat_ranks();
        let line = combat_order(fighters.as_slice(), ranks.as_slice());
        let groups = group(&line, &fighters);
        let ghost g3 = self@;
        self.phase = Phase::Combat;
        self.combat = Some(
            CombatState {
                groups,
                current: Vec::new(),
                pending: None,
                followup: None,
                attacks: Vec::new(),
            },
        );
        assert(self@.combat->0.current =~= Seq::empty());
        assert(self@.combat->0.attacks =~= Seq::empty());
        assert(self@.frame().ships == g3.frame().ships);
    }
}

} // verus!
