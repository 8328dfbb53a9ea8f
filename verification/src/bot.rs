//! A simple computer player, so one person can try a game (or a 3-4
//! seat game) without rounding up opponents. It works from the same
//! public snapshot a client sees (`ShipView`s and the mission view) and
//! never peeks at hidden plans.
//!
//! Policy, in one breath: every round fly the dial maneuver that ends on
//! the board, off rocks and ships, with the nearest enemy in the front arc
//! and close — or failing that, closest to it; take Focus (else Evade, else
//! nothing); in a mission, run for an escape edge when allowed, chase
//! satellites as the Empire, and protect the shuttle as a Rebel. Shoot the
//! weakest target, with a secondary weapon when one is offered.
//!
//! What is measured on the table comes in as facts: `Outlook` for the end of
//! each maneuver, and a key that orders the maneuvers once the distances
//! that a `Tactic` names have been counted.

#![verifier::loop_isolation(false)]

use vstd::prelude::*;
use vstd::string::*;

use crate::action::{ActionKind, PlannedAction};
use crate::board::Seat;
use crate::data::Content;
use crate::game::cards::has_icon;
use crate::game::snapshot::{MissionView, ShipView};
use crate::maneuver::{segments, Difficulty, Maneuver, Steer};
use crate::mission::{MissionKind, REPAIR_ROUND};
use crate::pick::{find, first, obeys};
use crate::pilot::Pilot;
use crate::ship::{Faction, ShipId};
use crate::squad::{Squad, SquadShip};
use crate::upgrade::UpgradeId;

verus! {

/// What the bot knows when it decides: a client's view of the game.
pub struct BotView<'a> {
    pub content: &'a Content,
    pub ships: &'a Vec<ShipView>,
    pub mission: Option<&'a MissionView>,
    pub turn: u32,
    pub seat: u8,
    pub team: u8,
}

/// Where a maneuver would take the ship.
#[derive(Debug, Clone, Copy, PartialEq, Eq, Structural)]
pub struct Outlook {
    /// The base would leave the board, over this edge.
    pub off: bool,
    pub exit: Seat,
    /// The base would end on another ship.
    pub bump: bool,
    /// The move would go through an obstacle.
    pub rock: bool,
    /// The nearest satellite would be within half a unit.
    pub at_satellite: bool,
    /// The nearest enemy would be in the front arc, within Range 3.
    pub in_arc: bool,
    /// The shuttle would be at Range 1.
    pub near_shuttle: bool,
}

/// The distance that counts against a maneuver.
#[derive(Debug, Clone, Copy, PartialEq, Eq, Structural)]
pub enum Goal {
    Nowhere,
    /// To the nearest satellite.
    Satellite,
    /// To Range 1 of the nearest enemy, either way.
    Engage,
    /// Seven tenths of that to the nearest enemy.
    Approach,
    /// To an edge of the board.
    Edge(Seat),
}

/// What a maneuver is worth: `before`, then `base` less the distance to the
/// goal, then `after`.
#[derive(Debug, Clone, Copy, PartialEq, Eq, Structural)]
pub struct Tactic {
    pub before: i32,
    pub base: i32,
    pub goal: Goal,
    pub after: i32,
}

/// The plan for one ship: dial index and action.
#[derive(Debug, Clone, PartialEq, Eq)]
pub struct Plan {
    pub ship: ShipId,
    pub maneuver: u8,
    pub action: PlannedAction,
}

/// A pilot that a squad of the faction can be filled with: generic, not for
/// nothing, and of a ship of the faction.
pub open spec fn fills(content: Content, faction: Faction, p: Pilot) -> bool {
    p.cost > 0 && !p.unique && content.chassis(p.class) is Some && content.chassis(
        p.class,
    )->0.faction == faction
}

/// The cheapest of the first `n` pilots that can fill a squad, the first of
/// those as cheap.
pub open spec fn cheapest(content: Content, faction: Faction, pilots: Seq<Pilot>, n: int) -> Option<
    Pilot,
>
    decreases n,
{
    if n <= 0 {
        None
    } else {
        let best = cheapest(content, faction, pilots, n - 1);
        let p = pilots[n - 1];
        if fills(content, faction, p) && (best is None || p.cost < best->0.cost) {
            Some(p)
        } else {
            best
        }
    }
}

/// How many of a pilot fill the points: at least one, at most twelve.
pub open spec fn fleet_size(points: u32, cost: u8) -> int {
    let n = points as int / cost as int;
    if n < 1 {
        1
    } else if n > 12 {
        12
    } else {
        n
    }
}

fn find_cheapest<'a>(content: &'a Content, faction: Faction) -> (pilot: Option<&'a Pilot>)
    ensures
        (pilot is Some) == (cheapest(
            *content,
            faction,
            content.pilots.pilots@,
            content.pilots.pilots@.len() as int,
        ) is Some),
        pilot is Some ==> Some(*pilot->0) == cheapest(
            *content,
            faction,
            content.pilots.pilots@,
            content.pilots.pilots@.len() as int,
        ) && pilot->0.cost > 0,
{
    let pilots = &content.pilots.pilots;
    let mut best: Option<&'a Pilot> = None;
    let mut k: usize = 0;
    while k < pilots.len()
        invariant
            k <= pilots.len(),
            (best is Some) == (cheapest(*content, faction, pilots@, k as int) is Some),
            best is Some ==> Some(*best->0) == cheapest(*content, faction, pilots@, k as int)
                && best->0.cost > 0,
        decreases pilots.len() - k,
    {
        let p = &pilots[k];
        let ours = match content.ships.class(p.class) {
            Some(c) => c.faction == faction,
            None => false,
        };
        if p.cost > 0 && !p.unique && ours {
            let cheaper = match best {
                None => true,
                Some(b) => p.cost < b.cost,
            };
            if cheaper {
                best = Some(p);
            }
        }
        k = k + 1;
    }
    best
}

/// A squad for a bot seat: the faction's cheapest generic fighter,
/// repeated up to the points (Academy Pilots, or Rookie Pilots).
pub fn squad(content: &Content, faction: Faction, points: u32) -> (squad: Squad)
    ensures
        squad.name@ == "Bot squadron"@,
        squad.faction == faction,
        match cheapest(
            *content,
            faction,
            content.pilots.pilots@,
            content.pilots.pilots@.len() as int,
        ) {
            None => squad.ships@.len() == 0,
            Some(p) => {
                &&& squad.ships@.len() == fleet_size(points, p.cost)
                &&& forall|k: int|
                    0 <= k < squad.ships@.len() ==> (#[trigger] squad.ships@[k]).pilot == p.id
                        && squad.ships@[k].upgrades@.len() == 0 && squad.ships@[k].callsign@.len()
                        == 0
            },
        },
{
    let mut ships: Vec<SquadShip> = Vec::new();
    if let Some(p) = find_cheapest(content, faction) {
        let cost: u32 = p.cost as u32;
        let fit: u32 = points / cost;
        let n: usize = if fit < 1 {
            1
        } else if fit > 12 {
            12
        } else {
            fit as usize
        };
        let mut k: usize = 0;
        while k < n
            invariant
                k <= n,
                ships@.len() == k,
                forall|j: int|
                    0 <= j < k ==> (#[trigger] ships@[j]).pilot == p.id
                        && ships@[j].upgrades@.len() == 0 && ships@[j].callsign@.len() == 0,
            decreases n - k,
        {
            ships.push(
                SquadShip { pilot: p.id, upgrades: Vec::new(), callsign: String::new() },
            );
            k = k + 1;
        }
    }
    Squad { name: String::from_str("Bot squadron"), faction, ships }
}

/// No satellite is on the board.
pub open spec fn none_afloat(m: MissionView) -> bool {
    forall|k: int| 0 <= k < m.satellites@.len() ==> !(#[trigger] m.satellites@[k]).afloat()
}

fn is_none_afloat(m: &MissionView) -> (yes: bool)
    ensures
        yes == none_afloat(*m),
{
    let mut k: usize = 0;
    while k < m.satellites.len()
        invariant
            k <= m.satellites.len(),
            forall|j: int| 0 <= j < k ==> !(#[trigger] m.satellites@[j]).afloat(),
        decreases m.satellites.len() - k,
    {
        if m.satellites[k].on_board() {
            assert(m.satellites@[k as int].afloat());
            return false;
        }
        k = k + 1;
    }
    true
}

fn is_exit(exits: &Vec<Seat>, edge: Seat) -> (yes: bool)
    ensures
        yes == exits@.contains(edge),
{
    let mut k: usize = 0;
    while k < exits.len()
        invariant
            k <= exits.len(),
            forall|j: int| 0 <= j < k ==> exits@[j] != edge,
        decreases exits.len() - k,
    {
        if exits[k] == edge {
            assert(exits@[k as int] == edge);
            return true;
        }
        k = k + 1;
    }
    false
}

impl<'a> BotView<'a> {
    /// Edges this ship may leave the board through alive (mission rules).
    pub open spec fn exits(self, v: ShipView) -> Seq<Seat> {
        match self.mission {
            None => Seq::empty(),
            Some(m) => {
                let rebel = Seat::edge(m.rebel_side);
                let imperial = Seat::edge((1 - m.rebel_side) as u8);
                if m.kind == MissionKind::PoliticalEscort && m.shuttle == Some(v.id) {
                    seq![imperial]
                } else if m.kind == MissionKind::AsteroidRun && m.disabled == Some(v.id)
                    && self.turn >= REPAIR_ROUND {
                    seq![rebel, imperial]
                } else if m.kind == MissionKind::DarkWhispers && v.team != m.rebel_side
                    && v.satellites > 0 && none_afloat(*m) {
                    seq![imperial]
                } else {
                    Seq::empty()
                }
            },
        }
    }

    /// Edges this ship may leave the board through alive (mission rules).
    pub fn escape_edges(&self, v: &ShipView) -> (edges: Vec<Seat>)
        requires
            self.mission is Some ==> self.mission->0.rebel_side <= 1,
        ensures
            edges@ == self.exits(*v),
    {
        let mut edges: Vec<Seat> = Vec::new();
        if let Some(m) = self.mission {
            let rebel = Seat::for_side(m.rebel_side, 2);
            let imperial = Seat::for_side(1 - m.rebel_side, 2);
            match m.kind {
                MissionKind::PoliticalEscort => {
                    if m.shuttle == Some(v.id) {
                        edges.push(imperial);
                    }
                },
                MissionKind::AsteroidRun => {
                    if m.disabled == Some(v.id) && self.turn >= REPAIR_ROUND {
                        edges.push(rebel);
                        edges.push(imperial);
                    }
                },
                MissionKind::DarkWhispers => {
                    if v.team != m.rebel_side && v.satellites > 0 && is_none_afloat(m) {
                        edges.push(imperial);
                    }
                },
            }
        }
        assert(edges@ =~= self.exits(*v));
        edges
    }

    /// A ship of the other side on the board.
    pub open spec fn hostile(self, v: ShipView) -> bool {
        v.team != self.team && !v.destroyed && v.pose is Some
    }

    pub open spec fn hostile_rule(self) -> spec_fn(int) -> bool {
        |k: int| self.hostile(self.ships@[k])
    }

    fn any_hostile(&self) -> (yes: bool)
        ensures
            yes == (first(self.hostile_rule(), 0, self.ships@.len() as int) is Some),
    {
        let test = |k: usize| -> (yes: bool)
            requires
                k < self.ships@.len(),
            ensures
                yes == obeys(self.hostile_rule(), k),
        {
            self.ships[k].team != self.team && !self.ships[k].destroyed
                && self.ships[k].pose.is_some()
        };
        find(self.ships.len(), test, Ghost(self.hostile_rule())).is_some()
    }

    /// An Imperial ship chases the satellites that are still on the board.
    pub open spec fn chases(self, me: ShipView) -> bool {
        self.mission is Some && self.mission->0.kind == MissionKind::DarkWhispers && me.team
            != self.mission->0.rebel_side && !none_afloat(*self.mission->0)
    }

    /// The disabled ship before its repair.
    pub open spec fn crippled(self, me: ShipView) -> bool {
        self.mission is Some && self.mission->0.disabled == Some(me.id) && self.turn < REPAIR_ROUND
    }

    pub open spec fn carries_senator(self, me: ShipView) -> bool {
        self.mission is Some && self.mission->0.shuttle == Some(me.id)
    }

    /// Where a maneuver should lead: to a satellite, an enemy, or an edge.
    pub open spec fn aim(self, me: ShipView, look: Outlook) -> (int, Goal) {
        let exits = self.exits(me);
        if self.chases(me) {
            if look.at_satellite {
                (60, Goal::Nowhere)
            } else {
                (20, Goal::Satellite)
            }
        } else if first(self.hostile_rule(), 0, self.ships@.len() as int) is Some {
            if self.carries_senator(me) {
                (
                    30,
                    Goal::Edge(
                        if exits.len() > 0 {
                            exits[0]
                        } else {
                            Seat::North
                        },
                    ),
                )
            } else if look.in_arc {
                (30, Goal::Engage)
            } else {
                (10, Goal::Approach)
            }
        } else if exits.len() > 0 {
            (30, Goal::Edge(exits[0]))
        } else {
            (0, Goal::Nowhere)
        }
    }

    /// A maneuver that the ship will not fly: red while stressed, too fast
    /// while disabled, without a template, or off the board over an edge
    /// where it cannot escape.
    pub open spec fn shunned(self, me: ShipView, m: Maneuver, look: Outlook) -> bool {
        (me.stress > 0 && m.difficulty == Difficulty::Hard) || (self.crippled(me) && m.distance > 2)
            || !m.flyable() || (look.off && !self.exits(me).contains(look.exit))
    }

    /// What a maneuver is worth: escaping is worth most, bumps and rocks cost;
    /// green sheds stress, red costs it.
    pub open spec fn tactic(self, me: ShipView, m: Maneuver, look: Outlook) -> Option<Tactic> {
        if self.shunned(me, m, look) {
            None
        } else {
            let (base, goal) = self.aim(me, look);
            Some(
                Tactic {
                    before: ((if look.off {
                        1000int
                    } else {
                        0
                    }) - (if look.bump {
                        40int
                    } else {
                        0
                    }) - (if look.rock {
                        25int
                    } else {
                        0
                    })) as i32,
                    base: base as i32,
                    goal,
                    after: if m.difficulty == Difficulty::Easy && me.stress > 0 {
                        5
                    } else if m.difficulty == Difficulty::Hard {
                        (-3) as i32
                    } else {
                        0
                    },
                },
            )
        }
    }

    fn find_aim(&self, me: &ShipView, look: &Outlook, exits: &Vec<Seat>) -> (aim: (i32, Goal))
        requires
            exits@ == self.exits(*me),
        ensures
            (aim.0 as int, aim.1) == self.aim(*me, *look),
    {
        let (chases, senator) = match self.mission {
            Some(m) => (
                m.kind == MissionKind::DarkWhispers && me.team != m.rebel_side && !is_none_afloat(
                    m,
                ),
                m.shuttle == Some(me.id),
            ),
            None => (false, false),
        };
        if chases {
            if look.at_satellite {
                (60, Goal::Nowhere)
            } else {
                (20, Goal::Satellite)
            }
        } else if self.any_hostile() {
            if senator {
                // Head for the far edge: distance to the escape edge is
                // what counts, nothing to shoot.
                let edge = if exits.len() > 0 {
                    exits[0]
                } else {
                    Seat::North
                };
                (30, Goal::Edge(edge))
            } else if look.in_arc {
                (30, Goal::Engage)
            } else {
                (10, Goal::Approach)
            }
        } else if exits.len() > 0 {
            (30, Goal::Edge(exits[0]))
        } else {
            (0, Goal::Nowhere)
        }
    }

    /// What a maneuver of an own ship is worth; None if it is not flown.
    pub fn weigh(&self, me: &ShipView, m: &Maneuver, look: &Outlook) -> (tactic: Option<Tactic>)
        requires
            self.mission is Some ==> self.mission->0.rebel_side <= 1,
        ensures
            tactic == self.tactic(*me, *m, *look),
    {
        if me.stress > 0 && m.difficulty == Difficulty::Hard {
            return None;
        }
        let disabled = match self.mission {
            Some(mission) => mission.disabled == Some(me.id) && self.turn < REPAIR_ROUND,
            None => false,
        };
        if disabled && m.distance > 2 {
            return None;
        }
        if segments(*m).is_err() {
            return None;
        }
        let exits = self.escape_edges(me);
        let mut before: i32 = 0;
        if look.off {
            if !is_exit(&exits, look.exit) {
                return None;
            }
            before = 1000;
        }
        if look.bump {
            before = before - 40;
        }
        if look.rock {
            before = before - 25;
        }
        let (base, goal) = self.find_aim(me, look, &exits);
        // Green sheds stress; red costs it.
        let after: i32 = match m.difficulty {
            Difficulty::Easy => if me.stress > 0 {
                5
            } else {
                0
            },
            Difficulty::Hard => -3,
            Difficulty::Normal => 0,
        };
        Some(Tactic { before, base, goal, after })
    }

    pub open spec fn senator_rule(self, me: ShipView) -> spec_fn(int) -> bool {
        |k: int|
            Some(self.ships@[k].id) == self.mission->0.shuttle && !self.ships@[k].destroyed
    }

    /// A Rebel fighter may protect the shuttle: it is in play on the board.
    pub open spec fn escorts(self, me: ShipView) -> bool {
        let k = first(self.senator_rule(me), 0, self.ships@.len() as int);
        self.mission is Some && self.mission->0.kind == MissionKind::PoliticalEscort && me.team
            == self.mission->0.rebel_side && self.mission->0.shuttle is Some
            && self.mission->0.shuttle != Some(me.id) && k is Some
            && self.ships@[k->0 as int].pose is Some
    }

    /// Protect when a Rebel fighter will end within Range 1 of the shuttle;
    /// else Focus, else Evade, else nothing.
    pub open spec fn best_action(self, me: ShipView, look: Outlook) -> PlannedAction {
        if me.stress > 0 {
            PlannedAction::Pass
        } else if self.escorts(me) && look.near_shuttle {
            PlannedAction::Protect
        } else if me.actions@.contains(ActionKind::Focus) {
            PlannedAction::Focus
        } else if me.actions@.contains(ActionKind::Evade) {
            PlannedAction::Evade
        } else {
            PlannedAction::Pass
        }
    }

    fn can_escort(&self, me: &ShipView) -> (yes: bool)
        ensures
            yes == self.escorts(*me),
    {
        let m = match self.mission {
            None => return false,
            Some(m) => m,
        };
        if m.kind != MissionKind::PoliticalEscort || me.team != m.rebel_side {
            return false;
        }
        let id = match m.shuttle {
            None => return false,
            Some(id) => id,
        };
        if id == me.id {
            return false;
        }
        let test = |k: usize| -> (yes: bool)
            requires
                k < self.ships@.len(),
            ensures
                yes == obeys(self.senator_rule(*me), k),
        { self.ships[k].id == id && !self.ships[k].destroyed };
        match find(self.ships.len(), test, Ghost(self.senator_rule(*me))) {
            Some(k) => self.ships[k].pose.is_some(),
            None => false,
        }
    }

    /// The action for a ship whose maneuver ends as the outlook says.
    pub fn choose_action(&self, me: &ShipView, look: &Outlook) -> (action: PlannedAction)
        ensures
            action == self.best_action(*me, *look),
    {
        if me.stress > 0 {
            PlannedAction::Pass
        } else if look.near_shuttle && self.can_escort(me) {
            PlannedAction::Protect
        } else if has_icon(&me.actions, ActionKind::Focus) {
            PlannedAction::Focus
        } else if has_icon(&me.actions, ActionKind::Evade) {
            PlannedAction::Evade
        } else {
            PlannedAction::Pass
        }
    }

    /// The best of the first `n` dial entries: of those that are flown, the
    /// first with the highest key.
    pub open spec fn best_entry(
        self,
        me: ShipView,
        dial: Seq<Maneuver>,
        looks: Seq<Outlook>,
        keys: Seq<u64>,
        n: int,
    ) -> Option<int>
        decreases n,
    {
        if n <= 0 {
            None
        } else {
            let best = self.best_entry(me, dial, looks, keys, n - 1);
            if self.tactic(me, dial[n - 1], looks[n - 1]) is Some && (best is None || keys[n - 1]
                > keys[best->0]) {
                Some(n - 1)
            } else {
                best
            }
        }
    }

    /// The plan for one ship: of the dial entries that it would fly, the one
    /// with the highest key (a higher key is a higher worth), and the action
    /// that suits its end.
    pub fn plan_ship(&self, me: &ShipView, looks: &Vec<Outlook>, keys: &Vec<u64>) -> (plan: Option<
        Plan,
    >)
        requires
            self.mission is Some ==> self.mission->0.rebel_side <= 1,
            self.content.has_dial(me.class) ==> looks@.len() == self.content.dial(me.class).len()
                && keys@.len() == looks@.len(),
        ensures
            match plan {
                None => !self.content.has_dial(me.class) || me.pose is None || self.best_entry(
                    *me,
                    self.content.dial(me.class),
                    looks@,
                    keys@,
                    looks@.len() as int,
                ) is None,
                Some(p) => {
                    let best = self.best_entry(
                        *me,
                        self.content.dial(me.class),
                        looks@,
                        keys@,
                        looks@.len() as int,
                    );
                    &&& self.content.has_dial(me.class)
                    &&& me.pose is Some
                    &&& best is Some
                    &&& p.ship == me.id
                    &&& p.maneuver == best->0 % 256
                    &&& p.action == self.best_action(*me, looks@[best->0])
                },
            },
    {
        let class = match self.content.ships.class(me.class) {
            None => return None,
            Some(class) => class,
        };
        let dial = match self.content.dials.set(class.maneuver_set) {
            None => return None,
            Some(set) => &set.maneuvers,
        };
        if me.pose.is_none() {
            return None;
        }
        let mut best: Option<usize> = None;
        let mut k: usize = 0;
        while k < dial.len()
            invariant
                k <= dial.len(),
                dial@ == self.content.dial(me.class),
                looks@.len() == dial@.len(),
                keys@.len() == dial@.len(),
                best is Some ==> best->0 < k,
                (best is Some) == (self.best_entry(*me, dial@, looks@, keys@, k as int) is Some),
                best is Some ==> Some(best->0 as int) == self.best_entry(
                    *me,
                    dial@,
                    looks@,
                    keys@,
                    k as int,
                ),
            decreases dial.len() - k,
        {
            if self.weigh(me, &dial[k], &looks[k]).is_some() {
                let better = match best {
                    None => true,
                    Some(b) => keys[k] > keys[b],
                };
                if better {
                    best = Some(k);
                }
            }
            k = k + 1;
        }
        match best {
            None => None,
            Some(b) => {
                let action = self.choose_action(me, &looks[b]);
                Some(Plan { ship: me.id, maneuver: (b % 256) as u8, action })
            },
        }
    }
}

/// The bot flies the best of what it would fly at all: no entry that it does
/// not shun has a higher key.
pub proof fn the_bot_flies_the_best_entry<'a>(
    view: BotView<'a>,
    me: ShipView,
    dial: Seq<Maneuver>,
    looks: Seq<Outlook>,
    keys: Seq<u64>,
    n: int,
    k: int,
)
    requires
        0 <= k < n <= dial.len(),
        looks.len() == dial.len(),
        keys.len() == dial.len(),
        !view.shunned(me, dial[k], looks[k]),
    ensures
        view.best_entry(me, dial, looks, keys, n) is Some,
        0 <= view.best_entry(me, dial, looks, keys, n)->0 < n,
        keys[k] <= keys[view.best_entry(me, dial, looks, keys, n)->0],
        !view.shunned(
            me,
            dial[view.best_entry(me, dial, looks, keys, n)->0],
            looks[view.best_entry(me, dial, looks, keys, n)->0],
        ),
    decreases n,
{
    best_entry_is_flown(view, me, dial, looks, keys, n - 1);
    if k < n - 1 {
        the_bot_flies_the_best_entry(view, me, dial, looks, keys, n - 1, k);
    }
}

proof fn best_entry_is_flown<'a>(
    view: BotView<'a>,
    me: ShipView,
    dial: Seq<Maneuver>,
    looks: Seq<Outlook>,
    keys: Seq<u64>,
    n: int,
)
    requires
        n <= dial.len(),
    ensures
        view.best_entry(me, dial, looks, keys, n) is Some ==> {
            let b = view.best_entry(me, dial, looks, keys, n)->0;
            0 <= b < n && !view.shunned(me, dial[b], looks[b])
        },
    decreases n,
{
    if n > 0 {
        best_entry_is_flown(view, me, dial, looks, keys, n - 1);
    }
}

/// Is one fallback better than another: slower, or as slow and straight?
pub open spec fn safer(a: Maneuver, b: Maneuver) -> bool {
    a.distance < b.distance || (a.distance == b.distance && a.steer == Steer::Straight && b.steer
        != Steer::Straight)
}

/// The safest of the first `n` maneuvers that are not red, the first of those
/// as safe.
pub open spec fn safest(dial: Seq<Maneuver>, n: int) -> Option<int>
    decreases n,
{
    if n <= 0 {
        None
    } else {
        let best = safest(dial, n - 1);
        let m = dial[n - 1];
        if m.difficulty != Difficulty::Hard && (best is None || safer(m, dial[best->0])) {
            Some(n - 1)
        } else {
            best
        }
    }
}

/// The fallback is never red, and there is one unless the whole dial is red.
pub proof fn the_fallback_is_never_red(dial: Seq<Maneuver>, n: int)
    requires
        0 <= n <= dial.len(),
    ensures
        match safest(dial, n) {
            Some(b) => 0 <= b < n && dial[b].difficulty != Difficulty::Hard && forall|k: int|
                0 <= k < n && (#[trigger] dial[k]).difficulty != Difficulty::Hard
                    ==> dial[b].distance <= dial[k].distance,
            None => forall|k: int|
                0 <= k < n ==> (#[trigger] dial[k]).difficulty == Difficulty::Hard,
        },
    decreases n,
{
    if n > 0 {
        the_fallback_is_never_red(dial, n - 1);
    }
}

/// The dial index to fall back on when a plan is refused: the slowest
/// non-red maneuver (a stationary or speed-1 move keeps the ship safe).
pub fn safe_maneuver(content: &Content, v: &ShipView) -> (index: Option<u8>)
    ensures
        (index is Some) == (content.has_dial(v.class) && safest(
            content.dial(v.class),
            content.dial(v.class).len() as int,
        ) is Some),
        index is Some ==> index->0 == safest(
            content.dial(v.class),
            content.dial(v.class).len() as int,
        )->0 % 256,
{
    let class = match content.ships.class(v.class) {
        None => return None,
        Some(class) => class,
    };
    let dial = match content.dials.set(class.maneuver_set) {
        None => return None,
        Some(set) => &set.maneuvers,
    };
    let mut best: Option<usize> = None;
    let mut k: usize = 0;
    while k < dial.len()
        invariant
            k <= dial.len(),
            best is Some ==> best->0 < k,
            (best is Some) == (safest(dial@, k as int) is Some),
            best is Some ==> Some(best->0 as int) == safest(dial@, k as int),
        decreases dial.len() - k,
    {
        let m = dial[k];
        if m.difficulty != Difficulty::Hard {
            let better = match best {
                None => true,
                Some(b) => m.distance < dial[b].distance || (m.distance == dial[b].distance
                    && m.steer == Steer::Straight && dial[b].steer != Steer::Straight),
            };
            if better {
                best = Some(k);
            }
        }
        k = k + 1;
    }
    match best {
        None => None,
        Some(b) => Some((b % 256) as u8),
    }
}

/// Hull and shields of the first ship with the id.
pub open spec fn toughness(ships: Seq<ShipView>, id: ShipId) -> Option<int>
    decreases ships.len(),
{
    if ships.len() == 0 {
        None
    } else if ships[0].id == id {
        Some(ships[0].hull + ships[0].shields)
    } else {
        toughness(ships.skip(1), id)
    }
}

fn find_toughness(ships: &Vec<ShipView>, id: ShipId) -> (t: Option<u32>)
    ensures
        (t is Some) == (toughness(ships@, id) is Some),
        t is Some ==> Some(t->0 as int) == toughness(ships@, id),
{
    let mut k: usize = 0;
    assert(ships@.skip(0) =~= ships@);
    while k < ships.len()
        invariant
            k <= ships.len(),
            toughness(ships@, id) == toughness(ships@.skip(k as int), id),
        decreases ships.len() - k,
    {
        assert(ships@.skip(k as int).skip(1) =~= ships@.skip(k + 1));
        if ships[k].id == id {
            return Some(ships[k].hull as u32 + ships[k].shields as u32);
        }
        k = k + 1;
    }
    None
}

/// Is one target weaker than another? One that is not listed is weakest.
pub open spec fn weaker(a: Option<int>, b: Option<int>) -> bool {
    match (a, b) {
        (None, Some(_)) => true,
        (Some(x), Some(y)) => x < y,
        _ => false,
    }
}

/// Is one way to fire preferred to another: a secondary weapon, then the
/// weaker target, then the closer one?
pub open spec fn prefers(
    ships: Seq<ShipView>,
    a: (ShipId, Option<UpgradeId>, u8),
    b: (ShipId, Option<UpgradeId>, u8),
) -> bool {
    let ta = toughness(ships, a.0);
    let tb = toughness(ships, b.0);
    if (a.1 is Some) != (b.1 is Some) {
        a.1 is Some
    } else if ta != tb {
        weaker(ta, tb)
    } else {
        a.2 < b.2
    }
}

/// The preferred of the first `n` options, the first of those that none is
/// preferred to.
pub open spec fn favourite(
    ships: Seq<ShipView>,
    options: Seq<(ShipId, Option<UpgradeId>, u8)>,
    n: int,
) -> Option<int>
    decreases n,
{
    if n <= 0 {
        None
    } else {
        let best = favourite(ships, options, n - 1);
        if best is None || prefers(ships, options[n - 1], options[best->0]) {
            Some(n - 1)
        } else {
            best
        }
    }
}

/// A secondary weapon is always chosen where one is offered.
pub proof fn secondary_weapons_come_first(
    ships: Seq<ShipView>,
    options: Seq<(ShipId, Option<UpgradeId>, u8)>,
    n: int,
)
    requires
        0 <= n <= options.len(),
    ensures
        (favourite(ships, options, n) is Some) == (n > 0),
        n > 0 ==> 0 <= favourite(ships, options, n)->0 < n,
        n > 0 && (exists|k: int| 0 <= k < n && (#[trigger] options[k]).1 is Some) ==> options[favourite(
            ships,
            options,
            n,
        )->0].1 is Some,
    decreases n,
{
    if n > 0 {
        secondary_weapons_come_first(ships, options, n - 1);
    }
}

fn is_preferred(
    ships: &Vec<ShipView>,
    a: &(ShipId, Option<UpgradeId>, u8),
    b: &(ShipId, Option<UpgradeId>, u8),
) -> (yes: bool)
    ensures
        yes == prefers(ships@, *a, *b),
{
    let ta = find_toughness(ships, a.0);
    let tb = find_toughness(ships, b.0);
    if a.1.is_some() != b.1.is_some() {
        return a.1.is_some();
    }
    match (ta, tb) {
        (None, Some(_)) => true,
        (Some(_), None) => false,
        (Some(x), Some(y)) => if x != y {
            x < y
        } else {
            a.2 < b.2
        },
        (None, None) => a.2 < b.2,
    }
}

/// Declare Target: a secondary weapon when one is offered (it was worth
/// equipping), otherwise the primary against the weakest target.
pub fn choose_target(ships: &Vec<ShipView>, options: &[(ShipId, Option<UpgradeId>, u8)]) -> (choice:
    Option<(ShipId, Option<UpgradeId>)>)
    ensures
        match favourite(ships@, options@, options@.len() as int) {
            None => choice is None,
            Some(k) => choice == Some((options@[k].0, options@[k].1)),
        },
{
    let mut best: Option<usize> = None;
    let mut k: usize = 0;
    while k < options.len()
        invariant
            k <= options.len(),
            best is Some ==> best->0 < k,
            (best is Some) == (favourite(ships@, options@, k as int) is Some),
            best is Some ==> Some(best->0 as int) == favourite(ships@, options@, k as int),
        decreases options.len() - k,
    {
        let better = match best {
            None => true,
            Some(b) => is_preferred(ships, &options[k], &options[b]),
        };
        if better {
            best = Some(k);
        }
        k = k + 1;
    }
    match best {
        None => None,
        Some(b) => Some((options[b].0, options[b].1)),
    }
}

} // verus!
