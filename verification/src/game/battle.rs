//! The Combat phase, step by step.

#![verifier::loop_isolation(false)]

use vstd::prelude::*;

use crate::action::ActionResult;
use crate::data::Content;
use crate::dice::Dice;
use crate::event::Event;
use crate::game::actions::Moves;
use crate::game::cards::{card_doing, find_card};
use crate::game::missions::Overlaps;
use crate::game::rejection::Rejection;
use crate::game::state::{
    view_of, views, AttackModel, AttackOption, AttackRecord, CombatModel, Game, GameState,
    PendingAttack, PendingModel, Phase, Play, Shot,
};
use crate::game::targets::{
    keep_primaries, keep_turrets, prefer, preferred, primaries, turrets,
};
use crate::pick::{find, first, obeys};
use crate::pilot::PilotAbility;
use crate::ship::{PlayerId, ShipId};
use crate::sight::Sight;
use crate::upgrade::{UpgradeEffect, UpgradeId};

verus! {

broadcast use crate::game::state::framing;

/// What is measured on the table for one step of the Combat phase.
#[derive(Debug, Clone, PartialEq, Eq)]
pub struct Survey {
    pub sight: Sight,
    /// What each ship could do with the table around it, by its place in the
    /// list: where its planned reposition would end.
    pub moves: Vec<Moves>,
    pub over: Overlaps,
}

/// Result of advancing the Combat phase one step.
#[derive(Debug, Clone, PartialEq, Eq)]
pub enum CombatStep {
    /// The owner must choose among several eligible targets.
    NeedTarget(PendingAttack),
    /// One attack resolved (single eligible target, or a declared one).
    Attack(AttackRecord),
    /// Combat and the End phase are complete.
    Done(RoundRecords),
}

/// What happened in the Combat phase and, in words, in the whole round.
#[derive(Debug, Clone, PartialEq, Eq)]
pub struct RoundRecords {
    pub attacks: Vec<AttackRecord>,
    pub events: Vec<Event>,
}

/// The result of a step, with its lists as sequences.
#[verifier::ext_equal]
pub enum StepModel {
    NeedTarget(PendingModel),
    Attack(AttackModel),
    Done(Seq<AttackModel>, Seq<Event>),
}

impl View for CombatStep {
    type V = StepModel;

    open spec fn view(&self) -> StepModel {
        match self {
            CombatStep::NeedTarget(p) => StepModel::NeedTarget(p@),
            CombatStep::Attack(r) => StepModel::Attack(r@),
            CombatStep::Done(r) => StepModel::Done(views(r.attacks@), r.events@),
        }
    }
}

/// The lines after an attack: those after the reposition, if one was made.
pub open spec fn sight_after(sight: Sight, moves: Moves, record: AttackModel) -> Sight {
    if record.reposition is Some && record.reposition->0.result == ActionResult::Performed {
        moves.after
    } else {
        sight
    }
}

/// A shot at an option, by its target's place in the list.
pub open spec fn shot_at(d: usize, o: AttackOption, focus_hit: bool) -> Shot {
    Shot { d_idx: d, range: o.range, weapon: o.weapon, second: false, focus_hit, no_mods: false }
}

impl Game {
    /// With the combat bookkeeping changed.
    pub open spec fn with_combat(self, combat: CombatModel) -> Game {
        Game { combat: Some(combat), ..self }
    }

    /// With a shot that is fired on the next step.
    pub open spec fn with_followup(self, a: usize, shot: Shot) -> Game {
        self.with_combat(CombatModel { followup: Some((a, shot)), ..self.combat->0 })
    }

    /// The attack is recorded.
    pub open spec fn recording(self, record: AttackModel) -> Game {
        self.with_combat(
            CombatModel { attacks: self.combat->0.attacks.push(record), ..self.combat->0 },
        )
    }

    /// The Combat phase goes on, and no target has to be declared first.
    pub open spec fn fights(self) -> bool {
        self.phase == Phase::Combat && self.combat is Some && self.combat->0.pending is None
    }

    /// No shot waits to be fired.
    pub open spec fn idle(self) -> bool {
        self.combat->0.followup is None
    }

    /// A second attack was already taken this round.
    pub open spec fn gunned(self, content: Content, a: int) -> bool {
        card_doing(
            content,
            self.ships[a].used_round,
            UpgradeEffect::CrewSecondAttackOnMiss,
        ) is Some || card_doing(
            content,
            self.ships[a].used_round,
            UpgradeEffect::CrewSecondAttackFocusToHit,
        ) is Some
    }

    /// A follow-up shot is queued at the preferred option, if there is one.
    pub open spec fn following(
        self,
        a: int,
        pick: Option<AttackOption>,
        focus_hit: bool,
        event: Event,
    ) -> Game {
        match pick {
            Some(o) => match self.index(o.target) {
                Some(d) => self.saying(event).with_followup(
                    a as usize,
                    shot_at(d, o, focus_hit),
                ),
                None => self,
            },
            None => self,
        }
    }

    /// Gunner / Luke Skywalker (crew): a miss is followed by a primary weapon
    /// attack — at the same ship when it is still a legal target, else the
    /// nearest — once per round, and never after a second attack already
    /// taken.
    #[verifier::opaque]
    pub open spec fn gunner(
        self,
        content: Content,
        sight: Sight,
        a: int,
        shot: Shot,
        missed: bool,
    ) -> Game {
        let defender = self.ships[shot.d_idx as int].id;
        if !missed || self.ships[a].destroyed || shot.focus_hit || self.gunned(content, a) {
            self
        } else if self.unused(content, a, UpgradeEffect::CrewSecondAttackOnMiss) is Some {
            let g = self.used(content, a, UpgradeEffect::CrewSecondAttackOnMiss);
            g.following(
                a,
                preferred(primaries(g.options(content, sight, a)), Some(defender)),
                false,
                Event::SecondAttack(a as usize, false),
            )
        } else if self.unused(content, a, UpgradeEffect::CrewSecondAttackFocusToHit) is Some {
            let g = self.used(content, a, UpgradeEffect::CrewSecondAttackFocusToHit);
            g.following(
                a,
                preferred(primaries(g.options(content, sight, a)), Some(defender)),
                true,
                Event::SecondAttack(a as usize, true),
            )
        } else {
            self
        }
    }

    /// BTL-A4 Y-Wing: a primary attack is followed by a turret attack (once
    /// per round) — at the same ship when legal, else the nearest turret
    /// target.
    #[verifier::opaque]
    pub open spec fn turret_follows(self, content: Content, sight: Sight, a: int, shot: Shot) -> Game {
        let defender = self.ships[shot.d_idx as int].id;
        if shot.weapon is Some || self.ships[a].destroyed || !self.idle() || self.unused(
            content,
            a,
            UpgradeEffect::TitleArcOnlyThenTurretAttack,
        ) is None {
            self
        } else {
            let g = self.used(content, a, UpgradeEffect::TitleArcOnlyThenTurretAttack);
            g.following(
                a,
                preferred(turrets(content, g.options(content, sight, a)), Some(defender)),
                false,
                Event::TurretFollows(a as usize),
            )
        }
    }

    pub open spec fn chewie_rule(self, content: Content, sight: Sight, d: int) -> spec_fn(
        int,
    ) -> bool {
        |k: int|
            k != d && self.same_side(k, d) && !self.ships[k].destroyed && self.can(
                content,
                k,
                PilotAbility::AttackWhenFriendlyDestroyed,
            ) && self.range(sight, k, d) is Some
    }

    /// Chewbacca (Heroes of the Resistance): a friend destroyed at Range 1-3
    /// of him lets him attack at once.
    #[verifier::opaque]
    pub open spec fn chewbacca(self, content: Content, sight: Sight, d: int, died: bool) -> Game {
        match first(self.chewie_rule(content, sight, d), 0, self.ships.len() as int) {
            Some(k) => if died && self.idle() {
                self.following(
                    k as int,
                    preferred(
                        primaries(self.options(content, sight, k as int)),
                        self.ships[k as int].lock,
                    ),
                    false,
                    Event::ChewbaccaAttacks(k),
                )
            } else {
                self
            },
            None => self,
        }
    }

    /// The living of the group, in order.
    pub open spec fn survivors(self, group: Seq<ShipId>) -> Seq<ShipId>
        decreases group.len(),
    {
        if group.len() == 0 {
            group
        } else if first(
            self.living_rule(group.last()),
            0,
            self.ships.len() as int,
        ) is Some {
            self.survivors(group.drop_last()).push(group.last())
        } else {
            self.survivors(group.drop_last())
        }
    }

    pub open spec fn living_rule(self, id: ShipId) -> spec_fn(int) -> bool {
        |k: int| self.ships[k].id == id && !self.ships[k].destroyed
    }

    /// The shot that waits is taken off the queue.
    pub open spec fn unqueued(self) -> Game {
        self.with_combat(CombatModel { followup: None, ..self.combat->0 })
    }

    /// The next group comes up: those of it that live.
    pub open spec fn next_group(self) -> Game {
        let c = self.combat->0;
        self.with_combat(
            CombatModel {
                groups: c.groups.skip(1),
                current: self.survivors(c.groups[0]),
                ..c
            },
        )
    }

    /// The next attacker of the group comes up.
    pub open spec fn next_attacker(self) -> Game {
        let c = self.combat->0;
        self.with_combat(CombatModel { current: c.current.skip(1), ..c })
    }

    /// The owner must declare a target.
    pub open spec fn with_pending(self, p: PendingModel) -> Game {
        self.with_combat(CombatModel { pending: Some(p), ..self.combat->0 })
    }
}

impl Play {
    /// A shot inside the Combat phase: the attack, its record, and what is
    /// fired next because of it.
    #[verifier::opaque]
    pub open spec fn fired(
        self,
        content: Content,
        sight: Sight,
        moves: Moves,
        a: int,
        shot: Shot,
    ) -> (Play, AttackModel) {
        let d = shot.d_idx as int;
        let (p, record) = self.attacked(content, sight, moves, a, shot);
        let g = p.game.recording(record);
        let after = sight_after(sight, moves, record);
        if shot.twice(content) && !shot.second {
            (p.at(g.with_followup(a as usize, Shot { second: true, ..shot })), record)
        } else {
            (
                p.at(
                    g.gunner(
                        content,
                        after,
                        a,
                        shot,
                        record.hits == 0 && record.crits == 0,
                    ).turret_follows(content, after, a, shot).chewbacca(
                        content,
                        after,
                        d,
                        record.defender_destroyed,
                    ),
                ),
                record,
            )
        }
    }

    /// The turn is over: the End phase, and the records of the round.
    #[verifier::opaque]
    pub open spec fn closed(self, content: Content, sight: Sight) -> (Play, StepModel) {
        let attacks = self.game.combat->0.attacks;
        let p = self.at(Game { combat: None, ..self.game }).ended(content, sight);
        (
            p.at(Game { log: Seq::empty(), ..p.game }),
            StepModel::Done(attacks, p.game.log),
        )
    }

    /// The attacker at `a` comes up: it scans a satellite, has no target, one
    /// target, or a choice.
    pub open spec fn takes_turn(self, content: Content, survey: Survey, a: int) -> (
        Play,
        Option<StepModel>,
    ) {
        let g = self.game;
        match g.scannable(survey.sight, survey.over, a) {
            Some(k) => (self.at(g.scanning(a, k as int)), None),
            None => {
                let options = g.options(content, survey.sight, a);
                if options.len() == 0 {
                    (self, None)
                } else if options.len() == 1 {
                    match g.index(options[0].target) {
                        None => (self, None),
                        Some(d) => {
                            let (p, record) = self.fired(
                                content,
                                survey.sight,
                                survey.moves@[a],
                                a,
                                shot_at(d, options[0], false),
                            );
                            (p, Some(StepModel::Attack(record)))
                        },
                    }
                } else {
                    let p = PendingModel {
                        attacker: g.ships[a].id,
                        owner: g.ships[a].owner,
                        options,
                    };
                    (self.at(g.with_pending(p)), Some(StepModel::NeedTarget(p)))
                }
            },
        }
    }

    /// One move of the Combat phase; None where nothing came of it and the
    /// next follows at once.
    #[verifier::opaque]
    pub open spec fn combat_moved(self, content: Content, survey: Survey) -> (
        Play,
        Option<StepModel>,
    ) {
        let c = self.game.combat->0;
        if c.pending is Some {
            (self, Some(StepModel::NeedTarget(c.pending->0)))
        } else if c.followup is Some {
            let (a, shot) = c.followup->0;
            let p = self.at(self.game.unqueued());
            if a >= p.game.ships.len() || shot.d_idx >= p.game.ships.len()
                || p.game.ships[a as int].destroyed
                || p.game.ships[shot.d_idx as int].destroyed {
                (p, None)
            } else {
                let (p, record) = p.fired(
                    content,
                    survey.sight,
                    survey.moves@[a as int],
                    a as int,
                    shot,
                );
                (p, Some(StepModel::Attack(record)))
            }
        } else if c.current.len() == 0 {
            if c.groups.len() == 0 {
                let (p, done) = self.closed(content, survey.sight);
                (p, Some(done))
            } else {
                (self.at(self.game.next_group()), None)
            }
        } else {
            let g = self.game.next_attacker();
            match g.index(c.current[0]) {
                None => (self.at(g), None),
                Some(a) => self.at(g).takes_turn(content, survey, a as int),
            }
        }
    }
}

/// How much of the Combat phase is left before something must happen.
pub open spec fn waiting(g: Game) -> nat {
    if g.combat->0.followup is Some {
        1
    } else {
        0
    }
}

impl Play {
    /// The Combat phase advanced until it needs a Declare Target choice,
    /// resolves one attack, or finishes the turn.
    pub open spec fn stepped(self, content: Content, survey: Survey) -> (Play, StepModel)
        decreases
            self.game.combat->0.groups.len(),
            self.game.combat->0.current.len(),
            waiting(self.game),
        when self.game.combat is Some
        via Play::stepped_decreases
    {
        let (p, step) = self.combat_moved(content, survey);
        match step {
            Some(step) => (p, step),
            None => p.stepped(content, survey),
        }
    }

    #[via_fn]
    proof fn stepped_decreases(self, content: Content, survey: Survey) {
        self.idle_moves_use_up_the_queue(content, survey);
    }

    /// A move that nothing comes of uses up the queued shot, an attacker or a
    /// group.
    pub proof fn idle_moves_use_up_the_queue(self, content: Content, survey: Survey)
        requires
            self.game.combat is Some,
        ensures
            ({
                let (p, step) = self.combat_moved(content, survey);
                let c = self.game.combat->0;
                let d = p.game.combat->0;
                step is None ==> p.game.combat is Some && (d.groups.len() < c.groups.len() || (
                d.groups.len() == c.groups.len() && (d.current.len() < c.current.len() || (
                d.current.len() == c.current.len() && waiting(p.game) < waiting(self.game)))))
            }),
    {
        reveal(Play::combat_moved);
    }
}

/// The same values in a list of its own.
pub fn copy_all<T: Copy>(list: &Vec<T>) -> (copy: Vec<T>)
    ensures
        copy@ == list@,
{
    let mut copy: Vec<T> = Vec::new();
    let mut i: usize = 0;
    while i < list.len()
        invariant
            i <= list.len(),
            copy@ == list@.take(i as int),
        decreases list.len() - i,
    {
        copy.push(list[i]);
        i = i + 1;
        assert(list@.take(i as int) =~= list@.take(i - 1).push(list@[i - 1]));
    }
    assert(list@.take(i as int) =~= list@);
    copy
}

impl AttackRecord {
    /// The same record over again.
    pub fn copied(&self) -> (copy: AttackRecord)
        ensures
            copy@ == self@,
    {
        AttackRecord {
            attacker: self.attacker,
            defender: self.defender,
            range: self.range,
            weapon: self.weapon,
            obstructed: self.obstructed,
            attack_faces: copy_all(&self.attack_faces),
            defense_faces: copy_all(&self.defense_faces),
            lock_spent: self.lock_spent,
            attacker_focus_spent: self.attacker_focus_spent,
            defender_focus_spent: self.defender_focus_spent,
            evade_spent: self.evade_spent,
            defender_in_bullseye: self.defender_in_bullseye,
            hits: self.hits,
            crits: self.crits,
            shields_lost: self.shields_lost,
            hull_lost: self.hull_lost,
            crits_to_hull: self.crits_to_hull,
            defender_destroyed: self.defender_destroyed,
            reposition: self.reposition,
        }
    }
}

impl PendingAttack {
    /// The same choice over again.
    pub fn copied(&self) -> (copy: PendingAttack)
        ensures
            copy@ == self@,
    {
        PendingAttack {
            attacker: self.attacker,
            owner: self.owner,
            options: copy_all(&self.options),
        }
    }
}

/// Everything but the combat bookkeeping and the narration is the same, and
/// combat goes on.
pub open spec fn goes_on(before: Game, after: Game) -> bool {
    &&& after.combat is Some
    &&& after.ships.len() == before.ships.len()
    &&& after.phase == before.phase
    &&& after.turn == before.turn
    &&& forall|content: Content|
        #![trigger before.known(content)]
        #![trigger after.known(content)]
        before.known(content) ==> after.known(content)
}

impl GameState {
    fn set_followup(&mut self, a: usize, shot: Shot)
        requires
            old(self)@.combat is Some,
        ensures
            final(self)@ == old(self)@.with_followup(a, shot),
            goes_on(old(self)@, final(self)@),
    {
        if let Some(c) = &mut self.combat {
            c.followup = Some((a, shot));
        }
        assert(self@.frame().ships == old(self)@.frame().ships);
    }

    fn record_attack(&mut self, record: &AttackRecord)
        requires
            old(self)@.combat is Some,
        ensures
            final(self)@ == old(self)@.recording(record@),
            goes_on(old(self)@, final(self)@),
    {
        let copy = record.copied();
        if let Some(c) = &mut self.combat {
            let ghost before = c.attacks@;
            c.attacks.push(copy);
            assert(views(c.attacks@) =~= views(before).push(copy@));
        }
        assert(self@.frame().ships == old(self)@.frame().ships);
    }

    fn is_idle(&self) -> (yes: bool)
        requires
            self@.combat is Some,
        ensures
            yes == self@.idle(),
    {
        match &self.combat {
            Some(c) => c.followup.is_none(),
            None => false,
        }
    }

    fn follow(&mut self, a: usize, pick: Option<AttackOption>, focus_hit: bool, event: Event)
        requires
            old(self)@.combat is Some,
        ensures
            final(self)@ == old(self)@.following(a as int, pick, focus_hit, event),
            goes_on(old(self)@, final(self)@),
    {
        let o = match pick {
            None => return ,
            Some(o) => o,
        };
        let d: usize = match self.find_ship(o.target) {
            None => return ,
            Some(d) => d,
        };
        self.say(event);
        self.set_followup(
            a,
            Shot {
                d_idx: d,
                range: o.range,
                weapon: o.weapon,
                second: false,
                focus_hit,
                no_mods: false,
            },
        );
    }

    fn prefer_primary(&self, content: &Content, sight: &Sight, a: usize, target: Option<ShipId>) -> (
    pick: Option<AttackOption>)
        requires
            a < self@.ships.len(),
            self@.known(*content),
        ensures
            pick == preferred(primaries(self@.options(*content, *sight, a as int)), target),
    {
        let options = self.attack_options(content, sight, a);
        let primary = keep_primaries(&options);
        prefer(&primary, target)
    }

    fn follow_miss(
        &mut self,
        content: &Content,
        sight: &Sight,
        a: usize,
        shot: Shot,
        missed: bool,
    )
        requires
            a < old(self)@.ships.len(),
            shot.d_idx < old(self)@.ships.len(),
            old(self)@.known(*content),
            old(self)@.combat is Some,
        ensures
            final(self)@ == old(self)@.gunner(*content, *sight, a as int, shot, missed),
            goes_on(old(self)@, final(self)@),
    {
        reveal(Game::gunner);
        let defender = self.ships[shot.d_idx].id;
        if !missed || self.ships[a].destroyed || shot.focus_hit {
            return;
        }
        if find_card(
            content,
            &self.ships[a].used_round,
            UpgradeEffect::CrewSecondAttackOnMiss,
        ).is_some() || find_card(
            content,
            &self.ships[a].used_round,
            UpgradeEffect::CrewSecondAttackFocusToHit,
        ).is_some() {
            return;
        }
        if self.use_once(content, a, UpgradeEffect::CrewSecondAttackOnMiss).is_some() {
            let pick = self.prefer_primary(content, sight, a, Some(defender));
            self.follow(a, pick, false, Event::SecondAttack(a, false));
            return;
        }
        if self.use_once(content, a, UpgradeEffect::CrewSecondAttackFocusToHit).is_some() {
            let pick = self.prefer_primary(content, sight, a, Some(defender));
            self.follow(a, pick, true, Event::SecondAttack(a, true));
        }
    }

    fn follow_with_turret(&mut self, content: &Content, sight: &Sight, a: usize, shot: Shot)
        requires
            a < old(self)@.ships.len(),
            shot.d_idx < old(self)@.ships.len(),
            old(self)@.known(*content),
            old(self)@.combat is Some,
        ensures
            final(self)@ == old(self)@.turret_follows(*content, *sight, a as int, shot),
            goes_on(old(self)@, final(self)@),
    {
        reveal(Game::turret_follows);
        let defender = self.ships[shot.d_idx].id;
        if shot.weapon.is_some() || self.ships[a].destroyed || !self.is_idle() {
            return;
        }
        if self.use_once(content, a, UpgradeEffect::TitleArcOnlyThenTurretAttack).is_none() {
            return;
        }
        let options = self.attack_options(content, sight, a);
        let kept = keep_turrets(content, &options);
        let pick = prefer(&kept, Some(defender));
        self.follow(a, pick, false, Event::TurretFollows(a));
    }

    fn find_chewie(&self, content: &Content, sight: &Sight, d: usize) -> (place: Option<usize>)
        requires
            d < self@.ships.len(),
        ensures
            place == first(
                self@.chewie_rule(*content, *sight, d as int),
                0,
                self@.ships.len() as int,
            ),
            place is Some ==> place->0 < self@.ships.len(),
    {
        let test = |k: usize| -> (yes: bool)
            requires
                k < self@.ships.len(),
            ensures
                yes == obeys(self@.chewie_rule(*content, *sight, d as int), k),
        {
            k != d && self.allied(self.ships[k].owner, self.ships[d].owner)
                && !self.ships[k].destroyed && self.has_ability(
                content,
                k,
                PilotAbility::AttackWhenFriendlyDestroyed,
            ) && self.range_between(sight, k, d).is_some()
        };
        find(self.ships.len(), test, Ghost(self@.chewie_rule(*content, *sight, d as int)))
    }

    fn follow_with_chewie(&mut self, content: &Content, sight: &Sight, d: usize, died: bool)
        requires
            d < old(self)@.ships.len(),
            old(self)@.known(*content),
            old(self)@.combat is Some,
        ensures
            final(self)@ == old(self)@.chewbacca(*content, *sight, d as int, died),
            goes_on(old(self)@, final(self)@),
    {
        reveal(Game::chewbacca);
        if !died || !self.is_idle() {
            return;
        }
        let k: usize = match self.find_chewie(content, sight, d) {
            None => return ,
            Some(k) => k,
        };
        let lock = self.ships[k].lock;
        let pick = self.prefer_primary(content, sight, k, lock);
        self.follow(k, pick, false, Event::ChewbaccaAttacks(k));
    }

    /// Resolve a shot inside the Combat phase: record it, and queue the
    /// repeat for "attack twice" weapons (Cluster Missiles, Twin Laser
    /// Turret).
    pub fn fire(
        &mut self,
        content: &Content,
        sight: &Sight,
        moves: &Moves,
        a: usize,
        shot: Shot,
        dice: &mut Dice,
    ) -> (record: AttackRecord)
        requires
            a < old(self)@.ships.len(),
            shot.d_idx < old(self)@.ships.len(),
            old(self)@.known(*content),
            old(self)@.combat is Some,
        ensures
            (Play { game: final(self)@, dice: final(dice)@ }, record@) == (Play {
                game: old(self)@,
                dice: old(dice)@,
            }).fired(*content, *sight, *moves, a as int, shot),
            goes_on(old(self)@, final(self)@),
    {
        reveal(Play::fired);
        let record = self.perform_attack_on(content, sight, moves, a, shot, dice);
        assert(self@.known(*content));
        self.record_attack(&record);
        assert(self@.known(*content));
        if shot.fires_twice(content) && !shot.second {
            self.set_followup(
                a,
                Shot {
                    d_idx: shot.d_idx,
                    range: shot.range,
                    weapon: shot.weapon,
                    second: true,
                    focus_hit: shot.focus_hit,
                    no_mods: shot.no_mods,
                },
            );
            return record;
        }
        let moved = match record.reposition {
            Some(r) => r.result == ActionResult::Performed,
            None => false,
        };
        let after = if moved {
            &moves.after
        } else {
            sight
        };
        let missed = record.hits == 0 && record.crits == 0;
        self.follow_miss(content, after, a, shot, missed);
        assert(self@.known(*content));
        self.follow_with_turret(content, after, a, shot);
        assert(self@.known(*content));
        self.follow_with_chewie(content, after, shot.d_idx, record.defender_destroyed);
        record
    }

    fn is_living(&self, id: ShipId) -> (yes: bool)
        ensures
            yes == (first(self@.living_rule(id), 0, self@.ships.len() as int) is Some),
    {
        let test = |k: usize| -> (yes: bool)
            requires
                k < self@.ships.len(),
            ensures
                yes == obeys(self@.living_rule(id), k),
        { self.ships[k].id == id && !self.ships[k].destroyed };
        find(self.ships.len(), test, Ghost(self@.living_rule(id))).is_some()
    }

    fn list_survivors(&self, group: &Vec<ShipId>) -> (alive: Vec<ShipId>)
        ensures
            alive@ == self@.survivors(group@),
    {
        let mut alive: Vec<ShipId> = Vec::new();
        let mut i: usize = 0;
        assert(alive@ =~= self@.survivors(group@.take(0)));
        while i < group.len()
            invariant
                i <= group.len(),
                alive@ == self@.survivors(group@.take(i as int)),
            decreases group.len() - i,
        {
            assert(group@.take(i + 1).drop_last() =~= group@.take(i as int));
            if self.is_living(group[i]) {
                alive.push(group[i]);
            }
            i = i + 1;
        }
        assert(group@.take(i as int) =~= group@);
        alive
    }

    fn clear_followup(&mut self)
        requires
            old(self)@.combat is Some,
        ensures
            final(self)@ == old(self)@.unqueued(),
            goes_on(old(self)@, final(self)@),
    {
        if let Some(c) = &mut self.combat {
            c.followup = None;
        }
        assert(self@.frame().ships == old(self)@.frame().ships);
    }

    fn call_group(&mut self)
        requires
            old(self)@.combat is Some,
            old(self)@.combat->0.groups.len() > 0,
        ensures
            final(self)@ == old(self)@.next_group(),
            goes_on(old(self)@, final(self)@),
    {
        let mut group: Vec<ShipId> = Vec::new();
        if let Some(c) = &mut self.combat {
            let ghost before = c.groups@;
            group = c.groups.remove(0);
            assert(views(c.groups@) =~= views(before).skip(1));
            assert(views(before)[0] == group@);
        }
        let ghost mid = self@;
        let alive = self.list_survivors(&group);
        proof {
            old(self)@.survivors_depend_on_ships(mid, group@);
        }
        if let Some(c) = &mut self.combat {
            c.current = alive;
        }
        assert(self@.frame().ships == old(self)@.frame().ships);
    }

    fn call_attacker(&mut self) -> (id: ShipId)
        requires
            old(self)@.combat is Some,
            old(self)@.combat->0.current.len() > 0,
        ensures
            final(self)@ == old(self)@.next_attacker(),
            id == old(self)@.combat->0.current[0],
            goes_on(old(self)@, final(self)@),
    {
        let mut id = ShipId(0);
        if let Some(c) = &mut self.combat {
            let ghost before = c.current@;
            id = c.current.remove(0);
            assert(c.current@ =~= before.skip(1));
        }
        assert(self@.frame().ships == old(self)@.frame().ships);
        id
    }

    fn set_pending(&mut self, p: &PendingAttack)
        requires
            old(self)@.combat is Some,
        ensures
            final(self)@ == old(self)@.with_pending(p@),
            goes_on(old(self)@, final(self)@),
    {
        let copy = p.copied();
        if let Some(c) = &mut self.combat {
            c.pending = Some(copy);
        }
        assert(self@.frame().ships == old(self)@.frame().ships);
    }

    /// Close the round: the End phase, and the records.
    fn close(&mut self, content: &Content, sight: &Sight, dice: &mut Dice) -> (done: CombatStep)
        requires
            old(self)@.known(*content),
            old(self)@.turn < u32::MAX,
            old(self)@.combat is Some,
        ensures
            (Play { game: final(self)@, dice: final(dice)@ }, done@) == (Play {
                game: old(self)@,
                dice: old(dice)@,
            }).closed(*content, *sight),
            final(self)@.known(*content),
    {
        reveal(Play::closed);
        let combat = self.combat.take();
        assert(self@.frame().ships == old(self)@.frame().ships);
        assert(self@.known(*content));
        let attacks: Vec<AttackRecord> = match combat {
            Some(c) => c.attacks,
            None => Vec::new(),
        };
        self.finish_turn(content, sight, dice);
        let ghost ended = self@;
        let mut events: Vec<Event> = Vec::new();
        let ghost none = events@;
        std::mem::swap(&mut events, &mut self.log);
        assert(self@.log =~= Seq::empty());
        assert(self@.frame().ships == ended.frame().ships);
        CombatStep::Done(RoundRecords { attacks, events })
    }

    fn take_turn(&mut self, content: &Content, survey: &Survey, a: usize, dice: &mut Dice) -> (step:
        Option<CombatStep>)
        requires
            a < old(self)@.ships.len(),
            survey.moves@.len() >= old(self)@.ships.len(),
            old(self)@.known(*content),
            old(self)@.combat is Some,
        ensures
            (Play { game: final(self)@, dice: final(dice)@ }, view_of(step)) == (Play {
                game: old(self)@,
                dice: old(dice)@,
            }).takes_turn(*content, *survey, a as int),
            goes_on(old(self)@, final(self)@),
    {
        // Mission 3: scanning a satellite replaces the attack.
        if self.mission_scan(&survey.sight, &survey.over, a) {
            return None;
        }
        let options = self.attack_options(content, &survey.sight, a);
        if options.len() == 0 {
            return None;
        }
        if options.len() == 1 {
            let o = options[0];
            let d: usize = match self.find_ship(o.target) {
                None => return None,
                Some(d) => d,
            };
            let shot = Shot {
                d_idx: d,
                range: o.range,
                weapon: o.weapon,
                second: false,
                focus_hit: false,
                no_mods: false,
            };
            let record = self.fire(content, &survey.sight, &survey.moves[a], a, shot, dice);
            return Some(CombatStep::Attack(record));
        }
        let p = PendingAttack { attacker: self.ships[a].id, owner: self.ships[a].owner, options };
        self.set_pending(&p);
        Some(CombatStep::NeedTarget(p))
    }

    fn combat_move(&mut self, content: &Content, survey: &Survey, dice: &mut Dice) -> (step: Option<
        CombatStep,
    >)
        requires
            survey.moves@.len() >= old(self)@.ships.len(),
            old(self)@.known(*content),
            old(self)@.turn < u32::MAX,
            old(self)@.combat is Some,
        ensures
            (Play { game: final(self)@, dice: final(dice)@ }, view_of(step)) == (Play {
                game: old(self)@,
                dice: old(dice)@,
            }).combat_moved(*content, *survey),
            step is None ==> goes_on(old(self)@, final(self)@),
            final(self)@.known(*content),
    {
        reveal(Play::combat_moved);
        let (pending, followup, waiting, groups) = match &self.combat {
            None => return None,
            Some(c) => (
                match &c.pending {
                    Some(p) => Some(p.copied()),
                    None => None,
                },
                c.followup,
                c.current.len(),
                c.groups.len(),
            ),
        };
        if let Some(p) = pending {
            return Some(CombatStep::NeedTarget(p));
        }
        if let Some(queued) = followup {
            let a: usize = queued.0;
            let shot = queued.1;
            self.clear_followup();
            assert(self@.known(*content));
            if a >= self.ships.len() || shot.d_idx >= self.ships.len() || self.ships[a].destroyed
                || self.ships[shot.d_idx].destroyed {
                return None;
            }
            let record = self.fire(content, &survey.sight, &survey.moves[a], a, shot, dice);
            return Some(CombatStep::Attack(record));
        }
        if waiting == 0 {
            if groups == 0 {
                return Some(self.close(content, &survey.sight, dice));
            }
            self.call_group();
            return None;
        }
        let attacker = self.call_attacker();
        assert(self@.known(*content));
        match self.find_ship(attacker) {
            None => None,
            Some(a) => self.take_turn(content, survey, a, dice),
        }
    }

    /// Advance the Combat phase until it needs a Declare Target choice,
    /// resolves one attack, or finishes the turn (End phase applied).
    pub fn combat_step(&mut self, content: &Content, survey: &Survey, dice: &mut Dice) -> (result:
        Result<CombatStep, Rejection>)
        requires
            old(self)@.fights() ==> survey.moves@.len() >= old(self)@.ships.len()
                && old(self)@.known(*content) && old(self)@.turn < u32::MAX,
        ensures
            result is Ok <==> old(self)@.phase == Phase::Combat && old(self)@.combat is Some,
            result is Err ==> result->Err_0 == Rejection::WrongPhase && final(self)@ == old(self)@
                && final(dice)@ == old(dice)@,
            result is Ok ==> (Play { game: final(self)@, dice: final(dice)@ }, result->Ok_0@) == (
            Play { game: old(self)@, dice: old(dice)@ }).stepped(*content, *survey),
            result is Ok && old(self)@.combat->0.pending is Some ==> {
                &&& result->Ok_0@ == StepModel::NeedTarget(old(self)@.combat->0.pending->0)
                &&& final(self)@ == old(self)@
                &&& final(dice)@ == old(dice)@
            },
            old(self)@.known(*content) ==> final(self)@.known(*content),
    {
        if self.phase != Phase::Combat {
            return Err(Rejection::WrongPhase);
        }
        match &self.combat {
            None => return Err(Rejection::WrongPhase),
            Some(c) => {
                if let Some(p) = &c.pending {
                    reveal(Play::combat_moved);
                    return Ok(CombatStep::NeedTarget(p.copied()));
                }
            },
        }
        let ghost start = Play { game: self@, dice: dice@ };
        loop
            invariant
                survey.moves@.len() >= self@.ships.len(),
                self@.known(*content),
                self@.turn < u32::MAX,
                self@.combat is Some,
                (Play { game: self@, dice: dice@ }).stepped(*content, *survey) == start.stepped(
                    *content,
                    *survey,
                ),
            decreases
                self@.combat->0.groups.len(),
                self@.combat->0.current.len(),
                waiting(self@),
        {
            proof {
                (Play { game: self@, dice: dice@ }).idle_moves_use_up_the_queue(*content, *survey);
            }
            if let Some(step) = self.combat_move(content, survey, dice) {
                return Ok(step);
            }
        }
    }
}

/// The first option against the target with the weapon.
pub open spec fn chosen(
    options: Seq<AttackOption>,
    target: ShipId,
    weapon: Option<UpgradeId>,
) -> Option<AttackOption>
    decreases options.len(),
{
    if options.len() == 0 {
        None
    } else if options[0].target == target && options[0].weapon == weapon {
        Some(options[0])
    } else {
        chosen(options.skip(1), target, weapon)
    }
}

impl Game {
    /// What a Declare Target choice comes to: the attacker's place and the
    /// shot, or why it is refused.
    pub open spec fn declared(self, player: PlayerId, target: ShipId, weapon: Option<UpgradeId>) -> Result<
        (usize, Shot),
        Rejection,
    > {
        if self.phase != Phase::Combat {
            Err(Rejection::WrongPhase)
        } else if self.combat is None || self.combat->0.pending is None {
            Err(Rejection::NoPendingAttack)
        } else {
            let p = self.combat->0.pending->0;
            if p.owner != player {
                Err(Rejection::NotYourShip)
            } else {
                match chosen(p.options, target, weapon) {
                    None => Err(Rejection::BadTarget),
                    Some(o) => match (self.index(p.attacker), self.index(target)) {
                        (Some(a), Some(d)) => Ok(
                            (
                                a,
                                Shot {
                                    d_idx: d,
                                    range: o.range,
                                    weapon,
                                    second: false,
                                    focus_hit: false,
                                    no_mods: false,
                                },
                            ),
                        ),
                        _ => Err(Rejection::NoSuchShip),
                    },
                }
            }
        }
    }

    /// No target has to be declared any more.
    pub open spec fn unpending(self) -> Game {
        self.with_combat(CombatModel { pending: None, ..self.combat->0 })
    }
}

fn find_chosen(options: &Vec<AttackOption>, target: ShipId, weapon: Option<UpgradeId>) -> (o: Option<
    AttackOption,
>)
    ensures
        o == chosen(options@, target, weapon),
{
    let mut i: usize = 0;
    assert(options@.skip(0) =~= options@);
    while i < options.len()
        invariant
            i <= options.len(),
            chosen(options@, target, weapon) == chosen(options@.skip(i as int), target, weapon),
        decreases options.len() - i,
    {
        assert(options@.skip(i as int).skip(1) =~= options@.skip(i + 1));
        if options[i].target == target && options[i].weapon == weapon {
            return Some(options[i]);
        }
        i = i + 1;
    }
    None
}

impl GameState {
    fn check_declared(&self, player: PlayerId, target: ShipId, weapon: Option<UpgradeId>) -> (
    checked: Result<(usize, Shot), Rejection>)
        ensures
            checked == self@.declared(player, target, weapon),
            checked is Ok ==> checked->Ok_0.0 < self@.ships.len() && checked->Ok_0.1.d_idx
                < self@.ships.len() && self@.combat is Some,
    {
        if self.phase != Phase::Combat {
            return Err(Rejection::WrongPhase);
        }
        let pending = match &self.combat {
            None => return Err(Rejection::NoPendingAttack),
            Some(c) => match &c.pending {
                None => return Err(Rejection::NoPendingAttack),
                Some(p) => p,
            },
        };
        if pending.owner != player {
            return Err(Rejection::NotYourShip);
        }
        let o = match find_chosen(&pending.options, target, weapon) {
            None => return Err(Rejection::BadTarget),
            Some(o) => o,
        };
        match (self.find_ship(pending.attacker), self.find_ship(target)) {
            (Some(a), Some(d)) => Ok(
                (
                    a,
                    Shot {
                        d_idx: d,
                        range: o.range,
                        weapon,
                        second: false,
                        focus_hit: false,
                        no_mods: false,
                    },
                ),
            ),
            _ => Err(Rejection::NoSuchShip),
        }
    }

    /// The owner's Declare Target choice for the pending attack: which
    /// enemy, and with which weapon (None = primary).
    pub fn declare_target(
        &mut self,
        content: &Content,
        survey: &Survey,
        player: PlayerId,
        target: ShipId,
        weapon: Option<UpgradeId>,
        dice: &mut Dice,
    ) -> (result: Result<AttackRecord, Rejection>)
        requires
            survey.moves@.len() >= old(self)@.ships.len(),
            old(self)@.known(*content),
        ensures
            match old(self)@.declared(player, target, weapon) {
                Err(r) => result == Err::<AttackRecord, Rejection>(r) && final(self)@ == old(self)@
                    && final(dice)@ == old(dice)@,
                Ok((a, shot)) => result is Ok && (
                    Play { game: final(self)@, dice: final(dice)@ },
                    result->Ok_0@,
                ) == (Play { game: old(self)@.unpending(), dice: old(dice)@ }).fired(
                    *content,
                    survey.sight,
                    survey.moves@[a as int],
                    a as int,
                    shot,
                ),
            },
            final(self)@.known(*content),
    {
        let (a, shot) = match self.check_declared(player, target, weapon) {
            Err(r) => return Err(r),
            Ok(declared) => declared,
        };
        if let Some(c) = &mut self.combat {
            c.pending = None;
        }
        assert(self@.frame().ships == old(self)@.frame().ships);
        assert(self@.known(*content));
        let record = self.fire(content, &survey.sight, &survey.moves[a], a, shot, dice);
        Ok(record)
    }
}

impl Game {
    /// Who survives depends on the ships alone.
    proof fn survivors_depend_on_ships(self, other: Game, group: Seq<ShipId>)
        requires
            other.ships == self.ships,
        ensures
            other.survivors(group) == self.survivors(group),
        decreases group.len(),
    {
        if group.len() > 0 {
            self.survivors_depend_on_ships(other, group.drop_last());
            assert(other.living_rule(group.last()) =~= self.living_rule(group.last()));
        }
    }
}

} // verus!
