//! What a player is allowed to see.

#![verifier::loop_isolation(false)]

use vstd::prelude::*;
use vstd::string::*;

use crate::action::{ActionExtras, ActionKind, ExtrasModel, PlannedAction};
use crate::crit::CritEffect;
use crate::data::Content;
use crate::game::battle::copy_all;
use crate::game::state::{views, Game, GameState, Phase};
use crate::geometry::Pose;
use crate::mission::{MissionKind, Satellite};
use crate::pick::{like_rules_pick_alike, picked, picked_obey};
use crate::ship::{copy_cards, Faction, PlayerId, ShipClassId, ShipId, ShipModel};
use crate::sight::Sight;
use crate::upgrade::UpgradeId;

verus! {

broadcast use crate::game::state::framing;

/// Per-player view of a ship. During Placement, opponent poses are hidden;
/// plans are only ever visible on the viewer's own ships.
#[derive(Debug, Clone, PartialEq, Eq)]
pub struct ShipView {
    pub id: ShipId,
    pub owner: PlayerId,
    /// The owner's side: ships on the same team are friendly.
    pub team: u8,
    pub class: ShipClassId,
    pub callsign: String,
    /// Pilot card name, and skill as it stands.
    pub pilot: String,
    pub skill: u8,
    /// Equipped upgrade card names.
    pub upgrades: Vec<String>,
    /// The same cards by id.
    pub upgrade_ids: Vec<UpgradeId>,
    /// Effective values after upgrades: hull/shield maxima, agility,
    /// and the action bar (for the planning keys).
    pub max_hull: u8,
    pub max_shields: u8,
    pub agility: u8,
    pub actions: Vec<ActionKind>,
    pub pose: Option<Pose>,
    pub hull: u8,
    pub shields: u8,
    pub stress: u8,
    pub focus: u8,
    pub evade: u8,
    /// Ion tokens: the next maneuver is a forced white straight 1.
    pub ion: u8,
    pub lock: Option<ShipId>,
    /// Weapons Engineer: the second target lock.
    pub lock2: Option<ShipId>,
    /// Active critical effects — public, like faceup cards.
    pub crits: Vec<CritEffect>,
    pub destroyed: bool,
    /// Left the board alive under a mission rule.
    pub escaped: bool,
    /// Satellite tokens carried.
    pub satellites: u8,
    /// Cards switched on for this round (own ships only).
    pub card_uses: Vec<UpgradeId>,
    /// Ended its move on an asteroid: no attack this round.
    pub on_asteroid: bool,
    pub plan: Option<u8>,
    /// Own ships only; None on opponent ships.
    pub planned_action: Option<PlannedAction>,
    /// Own ships only: the bomb card chosen to drop on dial reveal.
    pub bomb: Option<UpgradeId>,
    /// Own ships only: the planned second action.
    pub planned_action2: Option<PlannedAction>,
    /// Own ships only: what beyond the action bar may be planned.
    pub extras: ActionExtras,
}

/// What is always public of a ship.
#[verifier::ext_equal]
pub struct PublicView {
    pub id: ShipId,
    pub owner: PlayerId,
    pub team: u8,
    pub class: ShipClassId,
    pub callsign: Seq<char>,
    pub pilot: Seq<char>,
    pub skill: u8,
    pub upgrades: Seq<Seq<char>>,
    pub upgrade_ids: Seq<UpgradeId>,
    pub max_hull: u8,
    pub max_shields: u8,
    pub agility: u8,
    pub actions: Seq<ActionKind>,
    pub hull: u8,
    pub shields: u8,
    pub stress: u8,
    pub focus: u8,
    pub evade: u8,
    pub ion: u8,
    pub lock: Option<ShipId>,
    pub lock2: Option<ShipId>,
    pub crits: Seq<CritEffect>,
    pub destroyed: bool,
    pub escaped: bool,
    pub satellites: u8,
    pub on_asteroid: bool,
}

/// What only the owner sees of a ship.
#[verifier::ext_equal]
pub struct SecretView {
    pub card_uses: Seq<UpgradeId>,
    pub plan: Option<u8>,
    pub planned_action: Option<PlannedAction>,
    pub bomb: Option<UpgradeId>,
    pub planned_action2: Option<PlannedAction>,
    pub extras: ExtrasModel,
}

/// A ship as a player sees it.
#[verifier::ext_equal]
pub struct ViewModel {
    pub shown: PublicView,
    pub pose: Option<Pose>,
    pub secret: SecretView,
}

impl View for ShipView {
    type V = ViewModel;

    open spec fn view(&self) -> ViewModel {
        ViewModel {
            shown: PublicView {
                id: self.id,
                owner: self.owner,
                team: self.team,
                class: self.class,
                callsign: self.callsign@,
                pilot: self.pilot@,
                skill: self.skill,
                upgrades: views(self.upgrades@),
                upgrade_ids: self.upgrade_ids@,
                max_hull: self.max_hull,
                max_shields: self.max_shields,
                agility: self.agility,
                actions: self.actions@,
                hull: self.hull,
                shields: self.shields,
                stress: self.stress,
                focus: self.focus,
                evade: self.evade,
                ion: self.ion,
                lock: self.lock,
                lock2: self.lock2,
                crits: self.crits@,
                destroyed: self.destroyed,
                escaped: self.escaped,
                satellites: self.satellites,
                on_asteroid: self.on_asteroid,
            },
            pose: self.pose,
            secret: SecretView {
                card_uses: self.card_uses@,
                plan: self.plan,
                planned_action: self.planned_action,
                bomb: self.bomb,
                planned_action2: self.planned_action2,
                extras: self.extras@,
            },
        }
    }
}

/// The names of those of the first `n` cards that are known.
pub open spec fn card_names(content: Content, cards: Seq<UpgradeId>, n: int) -> Seq<Seq<char>>
    decreases n,
{
    if n <= 0 {
        Seq::empty()
    } else {
        match content.card(cards[n - 1]) {
            Some(u) => card_names(content, cards, n - 1).push(u.name@),
            None => card_names(content, cards, n - 1),
        }
    }
}

/// Nothing to be planned beyond the bar.
pub open spec fn no_extras() -> ExtrasModel {
    ExtrasModel {
        second: None,
        turn_boost: false,
        far_roll: false,
        card_actions: Seq::empty(),
        bank_roll: false,
        expert_roll: false,
        daredevil: false,
        toggles: Seq::empty(),
    }
}

/// What a stranger sees of a ship's secrets: nothing.
pub open spec fn hidden() -> SecretView {
    SecretView {
        card_uses: Seq::empty(),
        plan: None,
        planned_action: None,
        bomb: None,
        planned_action2: None,
        extras: no_extras(),
    }
}

impl Game {
    /// What everyone sees of ship `i`.
    pub open spec fn public_view(self, content: Content, sight: Sight, i: int) -> PublicView {
        let s = self.ships[i];
        PublicView {
            id: s.id,
            owner: s.owner,
            team: self.side(s.owner),
            class: s.class,
            callsign: s.callsign,
            pilot: match content.flyer(s.pilot) {
                Some(p) => p.name@,
                None => Seq::empty(),
            },
            skill: s.skill(content),
            upgrades: card_names(content, s.upgrades, s.upgrades.len() as int),
            upgrade_ids: s.upgrades,
            max_hull: s.full_hull(content),
            max_shields: s.full_shields(content),
            agility: self.agility(content, sight, i),
            actions: s.bar(content),
            hull: s.hull,
            shields: s.shields,
            stress: s.stress,
            focus: s.focus,
            evade: s.evade,
            ion: s.ion,
            lock: s.lock,
            lock2: s.lock2,
            crits: s.crits,
            destroyed: s.destroyed,
            escaped: s.escaped,
            satellites: s.satellites,
            on_asteroid: s.on_asteroid,
        }
    }

    /// Poses are public: setup placement is hidden; a mission reinforcement
    /// is placed in the open.
    pub open spec fn poses_shown(self) -> bool {
        self.phase != Phase::Placement || self.turn > 1 || self.late_pending()
    }

    /// Ship `i` as a player sees it.
    pub open spec fn seen(self, content: Content, sight: Sight, viewer: PlayerId, i: int) -> ViewModel {
        let s = self.ships[i];
        let own = s.owner == viewer;
        ViewModel {
            shown: self.public_view(content, sight, i),
            pose: if own || self.poses_shown() {
                s.pose
            } else {
                None
            },
            secret: if own {
                SecretView {
                    card_uses: s.card_uses,
                    plan: s.plan,
                    planned_action: s.planned_action,
                    bomb: s.bomb,
                    planned_action2: s.planned_action2,
                    extras: self.extras(content, sight, i),
                }
            } else {
                hidden()
            },
        }
    }

    /// Every ship as a player sees it.
    pub open spec fn snapshot(self, content: Content, sight: Sight, viewer: PlayerId) -> Seq<
        ViewModel,
    > {
        Seq::new(self.ships.len(), |i: int| self.seen(content, sight, viewer, i))
    }
}

/// During Placement in the first turn, before the late placements, a player
/// sees no pose of another player's ship; and never another player's plans.
pub proof fn opponents_stay_hidden(
    g: Game,
    content: Content,
    sight: Sight,
    viewer: PlayerId,
    i: int,
)
    requires
        0 <= i < g.ships.len(),
        g.ships[i].owner != viewer,
    ensures
        g.snapshot(content, sight, viewer)[i].secret == hidden(),
        g.phase == Phase::Placement && g.turn <= 1 && !g.late_pending() ==> g.snapshot(
            content,
            sight,
            viewer,
        )[i].pose is None,
{
}

/// Everyone sees every ship's damage, tokens, locks and crits as they are.
pub proof fn public_values_are_shown(
    g: Game,
    content: Content,
    sight: Sight,
    viewer: PlayerId,
    i: int,
)
    requires
        0 <= i < g.ships.len(),
    ensures
        ({
            let (v, s) = (g.snapshot(content, sight, viewer)[i], g.ships[i]);
            &&& g.snapshot(content, sight, viewer).len() == g.ships.len()
            &&& v.shown.id == s.id
            &&& v.shown.owner == s.owner
            &&& v.shown.class == s.class
            &&& v.shown.callsign == s.callsign
            &&& v.shown.upgrade_ids == s.upgrades
            &&& v.shown.hull == s.hull
            &&& v.shown.shields == s.shields
            &&& v.shown.stress == s.stress
            &&& v.shown.focus == s.focus
            &&& v.shown.evade == s.evade
            &&& v.shown.ion == s.ion
            &&& v.shown.lock == s.lock
            &&& v.shown.lock2 == s.lock2
            &&& v.shown.crits == s.crits
            &&& v.shown.destroyed == s.destroyed
            &&& v.shown.escaped == s.escaped
            &&& v.shown.satellites == s.satellites
            &&& v.shown.on_asteroid == s.on_asteroid
            &&& v.shown.max_hull == s.full_hull(content)
            &&& v.shown.max_shields == s.full_shields(content)
            &&& v.shown.skill == s.skill(content)
            &&& v.shown.agility == g.agility(content, sight, i)
            &&& v.shown.actions == s.bar(content)
            &&& content.flyer(s.pilot) is Some ==> v.shown.pilot == content.flyer(s.pilot)->0.name@
            &&& s.owner.0 < g.teams.len() ==> v.shown.team == g.teams[s.owner.0 as int]
            &&& g.phase != Phase::Placement || g.turn > 1 ==> v.pose == s.pose
        }),
{
}

/// A player always sees their own plans and poses.
pub proof fn own_plans_are_shown(
    g: Game,
    content: Content,
    sight: Sight,
    viewer: PlayerId,
    i: int,
)
    requires
        0 <= i < g.ships.len(),
        g.ships[i].owner == viewer,
    ensures
        g.snapshot(content, sight, viewer)[i].secret.plan == g.ships[i].plan,
        g.snapshot(content, sight, viewer)[i].secret.planned_action == g.ships[i].planned_action,
        g.snapshot(content, sight, viewer)[i].secret.planned_action2 == g.ships[i].planned_action2,
        g.snapshot(content, sight, viewer)[i].secret.bomb == g.ships[i].bomb,
        g.snapshot(content, sight, viewer)[i].secret.card_uses == g.ships[i].card_uses,
        g.snapshot(content, sight, viewer)[i].pose == g.ships[i].pose,
{
}

/// The game with other secrets on ship `i`.
pub open spec fn replanned(
    g: Game,
    i: int,
    plan: Option<u8>,
    planned_action: Option<PlannedAction>,
    planned_action2: Option<PlannedAction>,
    bomb: Option<UpgradeId>,
    card_uses: Seq<UpgradeId>,
) -> Game {
    g.with_ship(
        i,
        ShipModel { plan, planned_action, planned_action2, bomb, card_uses, ..g.ships[i] },
    )
}

/// Nothing that a player plans changes what another player sees: two games
/// that differ only in the plan, actions, bomb and switched cards of one ship
/// look the same to everyone but its owner.
pub proof fn plans_do_not_leak(
    g: Game,
    content: Content,
    sight: Sight,
    viewer: PlayerId,
    i: int,
    plan: Option<u8>,
    planned_action: Option<PlannedAction>,
    planned_action2: Option<PlannedAction>,
    bomb: Option<UpgradeId>,
    card_uses: Seq<UpgradeId>,
)
    requires
        0 <= i < g.ships.len(),
        g.ships[i].owner != viewer,
        g.ships.len() <= usize::MAX,
    ensures
        replanned(g, i, plan, planned_action, planned_action2, bomb, card_uses).snapshot(
            content,
            sight,
            viewer,
        ) == g.snapshot(content, sight, viewer),
{
    let h = replanned(g, i, plan, planned_action, planned_action2, bomb, card_uses);
    secrets_do_not_leak(g, h, content, sight, viewer, i);
    assert(h.snapshot(content, sight, viewer) =~= g.snapshot(content, sight, viewer));
}

/// Before poses are public, where a player places a ship changes nothing that
/// another player sees, given what is measured between the ships.
pub proof fn placements_do_not_leak(
    g: Game,
    content: Content,
    sight: Sight,
    viewer: PlayerId,
    i: int,
    pose: Pose,
)
    requires
        0 <= i < g.ships.len(),
        g.ships[i].owner != viewer,
        g.ships[i].pose is Some,
        !g.poses_shown(),
        g.ships.len() <= usize::MAX,
    ensures
        g.moved(i, pose).snapshot(content, sight, viewer) == g.snapshot(content, sight, viewer),
{
    let h = g.moved(i, pose);
    secrets_do_not_leak(g, h, content, sight, viewer, i);
    assert(h.snapshot(content, sight, viewer) =~= g.snapshot(content, sight, viewer));
}

/// Two games that differ only in the secrets of ship `i` and in where it
/// stands.
spec fn secretly_alike(g: Game, h: Game, i: int) -> bool {
    let s = h.ships[i];
    &&& h == g.with_ship(i, s)
    &&& (s.pose is Some) == (g.ships[i].pose is Some)
    &&& s == ShipModel {
        pose: s.pose,
        plan: s.plan,
        planned_action: s.planned_action,
        planned_action2: s.planned_action2,
        bomb: s.bomb,
        card_uses: s.card_uses,
        ..g.ships[i]
    }
}

proof fn secrets_do_not_leak(
    g: Game,
    h: Game,
    content: Content,
    sight: Sight,
    viewer: PlayerId,
    i: int,
)
    requires
        0 <= i < g.ships.len(),
        g.ships[i].owner != viewer,
        g.ships.len() <= usize::MAX,
        secretly_alike(g, h, i),
        g.poses_shown() ==> h.ships[i].pose == g.ships[i].pose,
    ensures
        forall|j: int|
            0 <= j < g.ships.len() ==> #[trigger] h.seen(content, sight, viewer, j) == g.seen(
                content,
                sight,
                viewer,
                j,
            ),
{
    let n = g.ships.len() as int;
    like_rules_pick_alike(h.waiting_rule(), g.waiting_rule(), 0, n);
    like_rules_pick_alike(h.late_rule(), g.late_rule(), 0, n);
    assert forall|j: int| 0 <= j < n implies #[trigger] h.seen(content, sight, viewer, j)
        == g.seen(content, sight, viewer, j) by {
        like_rules_pick_alike(h.enemy_close_rule(sight, j), g.enemy_close_rule(sight, j), 0, n);
        assert(h.agility(content, sight, j) == g.agility(content, sight, j)) by {
            reveal(Game::agility);
            reveal(Game::enemy_at_range1);
        }
        if j != i {
            like_rules_pick_alike(
                h.youngster_rule(content, sight, j),
                g.youngster_rule(content, sight, j),
                0,
                n,
            );
            let lenders = picked(g.youngster_rule(content, sight, j), 0, n);
            picked_obey(g.youngster_rule(content, sight, j), 0, n);
            same_cards(g, h, lenders, 0);
            assert(h.card_actions(content, sight, j) == g.card_actions(content, sight, j)) by {
                reveal(Game::card_actions);
            }
            assert(h.second_action(content, j) == g.second_action(content, j)) by {
                reveal(Game::second_action);
            }
            assert(h.ships[j] == g.ships[j]);
        }
    }
}

proof fn same_cards(g: Game, h: Game, places: Seq<usize>, k: int)
    requires
        0 <= k,
        g.ships.len() == h.ships.len(),
        forall|j: int| 0 <= j < places.len() ==> #[trigger] places[j] < g.ships.len(),
        forall|j: int|
            0 <= j < g.ships.len() ==> (#[trigger] g.ships[j]).upgrades == h.ships[j].upgrades,
    ensures
        g.cards_of(places, k) == h.cards_of(places, k),
    decreases places.len() - k,
{
    if k < places.len() {
        same_cards(g, h, places, k + 1);
        assert(g.ships[places[k] as int].upgrades == h.ships[places[k] as int].upgrades);
    }
}

/// The mission as it is shown to a viewer.
#[derive(Debug, Clone, PartialEq, Eq)]
pub struct MissionView {
    pub kind: MissionKind,
    pub rebel_side: u8,
    /// The faction whose objective the viewer has.
    pub faction: Faction,
    pub satellites: Vec<Satellite>,
    pub shuttle: Option<ShipId>,
    pub disabled: Option<ShipId>,
}

/// Why a game ended.
#[derive(Debug, Clone, Copy, PartialEq, Eq, Structural)]
pub enum Reason {
    /// The faction reached its objective of the mission.
    Objective(MissionKind, Faction),
    FleetDestroyed,
}

/// The faction of a side in a mission.
pub open spec fn faction_of(rebel_side: u8, side: u8) -> Faction {
    if side == rebel_side {
        Faction::RebelAlliance
    } else {
        Faction::Empire
    }
}

impl GameState {
    fn name_cards(&self, content: &Content, i: usize) -> (names: Vec<String>)
        requires
            i < self@.ships.len(),
        ensures
            views(names@) == card_names(
                *content,
                self@.ships[i as int].upgrades,
                self@.ships[i as int].upgrades.len() as int,
            ),
    {
        let cards = &self.ships[i].upgrades;
        let mut names: Vec<String> = Vec::new();
        let mut k: usize = 0;
        assert(views(names@) =~= Seq::empty());
        while k < cards.len()
            invariant
                k <= cards.len(),
                views(names@) == card_names(*content, cards@, k as int),
            decreases cards.len() - k,
        {
            if let Some(u) = content.upgrades.upgrade(cards[k]) {
                let ghost before = views(names@);
                let name = String::from_str(u.name.as_str());
                let ghost chars = name@;
                names.push(name);
                assert(views(names@) =~= before.push(chars));
            }
            k = k + 1;
        }
        names
    }

    fn see(&self, content: &Content, sight: &Sight, viewer: PlayerId, i: usize, open: bool) -> (view:
        ShipView)
        requires
            i < self@.ships.len(),
            self@.known(*content),
            open == self@.poses_shown(),
        ensures
            view@ == self@.seen(*content, *sight, viewer, i as int),
    {
        assert(self@.frame().ships[i as int] == self@.ships[i as int].identity());
        let s = &self.ships[i];
        let own = s.owner == viewer;
        let pilot = match content.pilots.pilot(s.pilot) {
            Some(p) => String::from_str(p.name.as_str()),
            None => String::new(),
        };
        assert(content.flyer(s.pilot) is None ==> pilot@ =~= Seq::empty());
        let card_uses: Vec<UpgradeId> = if own {
            copy_cards(&s.card_uses)
        } else {
            Vec::new()
        };
        let extras = if own {
            self.action_extras(content, sight, i)
        } else {
            ActionExtras::default()
        };
        ShipView {
            id: s.id,
            owner: s.owner,
            team: self.team(s.owner),
            class: s.class,
            callsign: String::from_str(s.callsign.as_str()),
            pilot,
            skill: self.effective_skill(content, s),
            upgrades: self.name_cards(content, i),
            upgrade_ids: copy_cards(&s.upgrades),
            max_hull: self.max_hull(content, s),
            max_shields: self.max_shields(content, s),
            agility: self.agility(content, sight, i),
            actions: self.action_bar(content, s),
            // Setup placement is hidden; a mission reinforcement
            // is placed in the open.
            pose: if own || open {
                s.pose
            } else {
                None
            },
            hull: s.hull,
            shields: s.shields,
            stress: s.stress,
            focus: s.focus,
            evade: s.evade,
            ion: s.ion,
            lock: s.lock,
            lock2: s.lock2,
            crits: copy_all(&s.crits),
            destroyed: s.destroyed,
            escaped: s.escaped,
            satellites: s.satellites,
            card_uses,
            on_asteroid: s.on_asteroid,
            plan: if own {
                s.plan
            } else {
                None
            },
            planned_action: if own {
                s.planned_action
            } else {
                None
            },
            bomb: if own {
                s.bomb
            } else {
                None
            },
            planned_action2: if own {
                s.planned_action2
            } else {
                None
            },
            extras,
        }
    }

    /// What `viewer` is allowed to see right now.
    pub fn snapshot_for(&self, content: &Content, sight: &Sight, viewer: PlayerId) -> (ships: Vec<
        ShipView,
    >)
        requires
            self@.known(*content),
        ensures
            views(ships@) == self@.snapshot(*content, *sight, viewer),
            ships@.len() == self.ships@.len(),
            forall|k: int|
                0 <= k < ships@.len() ==> {
                    let (v, s) = (#[trigger] ships@[k], self.ships@[k]);
                    &&& v.id == s.id
                    &&& v.owner == s.owner
                    &&& v.class == s.class
                    &&& v.callsign@ == s.callsign@
                    &&& v.upgrade_ids@ == s.upgrades@
                    &&& v.hull == s.hull
                    &&& v.shields == s.shields
                    &&& v.stress == s.stress
                    &&& v.focus == s.focus
                    &&& v.evade == s.evade
                    &&& v.ion == s.ion
                    &&& v.lock == s.lock
                    &&& v.lock2 == s.lock2
                    &&& v.crits@ == s.crits@
                    &&& v.destroyed == s.destroyed
                    &&& v.escaped == s.escaped
                    &&& v.satellites == s.satellites
                    &&& v.on_asteroid == s.on_asteroid
                    &&& s.owner == viewer || self.phase != Phase::Placement || self.turn > 1
                        ==> v.pose == s.pose
                    &&& s.owner == viewer ==> v.plan == s.plan && v.planned_action
                        == s.planned_action && v.planned_action2 == s.planned_action2 && v.bomb
                        == s.bomb && v.card_uses@ == s.card_uses@
                    &&& s.owner != viewer ==> v.plan is None && v.planned_action is None
                        && v.planned_action2 is None && v.bomb is None && v.card_uses@.len() == 0
                },
    {
        let open = self.phase != Phase::Placement || self.turn > 1 || self.late_setup_pending();
        let mut ships: Vec<ShipView> = Vec::new();
        let mut i: usize = 0;
        while i < self.ships.len()
            invariant
                i <= self.ships.len(),
                open == self@.poses_shown(),
                ships@.len() == i,
                forall|k: int|
                    0 <= k < i ==> (#[trigger] ships@[k])@ == self@.seen(
                        *content,
                        *sight,
                        viewer,
                        k,
                    ),
            decreases self.ships.len() - i,
        {
            let view = self.see(content, sight, viewer, i, open);
            ships.push(view);
            i = i + 1;
        }
        assert(views(ships@) =~= self@.snapshot(*content, *sight, viewer));
        proof {
            assert forall|k: int| 0 <= k < ships@.len() implies (#[trigger] ships@[k])@.shown
                == self@.public_view(*content, *sight, k) && self@.ships[k]
                == self.ships@[k]@ by {
                assert(ships@[k]@ == self@.seen(*content, *sight, viewer, k));
            }
        }
        ships
    }

    /// The mission as the client shows it to `viewer`.
    pub fn mission_view(&self, viewer: PlayerId) -> (view: Option<MissionView>)
        ensures
            (view is Some) == (self@.mission is Some),
            view is Some ==> {
                let m = self@.mission->0;
                let v = view->0;
                &&& v.kind == m.kind
                &&& v.rebel_side == m.rebel_side
                &&& v.faction == faction_of(m.rebel_side, self@.side(viewer))
                &&& v.satellites@ == m.satellites
                &&& v.shuttle == m.shuttle
                &&& v.disabled == m.disabled
            },
    {
        match &self.mission {
            None => None,
            Some(m) => Some(
                MissionView {
                    kind: m.kind,
                    rebel_side: m.rebel_side,
                    faction: m.faction_of_side(self.team(viewer)),
                    satellites: copy_all(&m.satellites),
                    shuttle: m.shuttle,
                    disabled: m.disabled,
                },
            ),
        }
    }

    /// Why the game ended, for the Game Over message.
    pub fn winner_reason(&self) -> (reason: Reason)
        ensures
            reason == (if self@.mission is Some && self@.winner is Some {
                let m = self@.mission->0;
                Reason::Objective(m.kind, faction_of(m.rebel_side, self@.winner->0))
            } else {
                Reason::FleetDestroyed
            }),
    {
        match &self.mission {
            Some(m) => match self.winner {
                Some(w) => Reason::Objective(m.kind, m.faction_of_side(w)),
                None => Reason::FleetDestroyed,
            },
            None => Reason::FleetDestroyed,
        }
    }
}

} // verus!
