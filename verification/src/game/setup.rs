//! Building a game from squads, and turning it into a mission.

#![verifier::loop_isolation(false)]

use vstd::prelude::*;
use vstd::string::*;

use crate::data::Content;
use crate::dice::AttackFace;
use crate::game::cards::{card_doing, find_card};
use crate::game::missions::{find_seat, low32, seat_from, seat_from_is_a_seat};
use crate::game::muster::highest;
use crate::game::order::{holder, initiative_goes_to_the_lowest_total, initiative_seat};
use crate::game::state::{Game, GameState, Phase};
use crate::pick::first;
use crate::pilot::{PilotAbility, PilotId};
use crate::ship::{copy_cards, PlayerId, ShipClassId, ShipId, ShipModel, ShipState};
use crate::squad::{callsign_of, decimal, digits, ships_cost, Squad, SquadShip};
use crate::upgrade::{Slot, UpgradeEffect, UpgradeId};

verus! {

broadcast use crate::game::state::framing;

/// Why a game cannot be built.
#[derive(Debug, Clone, Copy, PartialEq, Eq, Structural)]
pub enum SetupError {
    /// So many squads; a game needs 2-4.
    Squads(usize),
    UnknownPilot(PilotId),
    UnknownClass(ShipClassId),
    /// The ship class has no dial.
    NoDial(ShipClassId),
    UnknownUpgrade(UpgradeId),
}

impl SetupError {
    /// The reason in words.
    pub open spec fn reads(self, content: Content) -> Seq<char> {
        match self {
            SetupError::Squads(n) => digits(n as nat) + " squads: a game needs 2-4"@,
            SetupError::UnknownPilot(id) => "unknown pilot PilotId("@ + digits(id.0 as nat) + ")"@,
            SetupError::UnknownClass(id) => "unknown ship class ShipClassId("@ + digits(
                id.0 as nat,
            ) + ")"@,
            SetupError::NoDial(id) => (match content.chassis(id) {
                Some(c) => c.name@,
                None => Seq::empty(),
            }) + " has no dial"@,
            SetupError::UnknownUpgrade(id) => "unknown upgrade UpgradeId("@ + digits(id.0 as nat)
                + ")"@,
        }
    }

    /// The reason in words.
    pub fn message(&self, content: &Content) -> (text: String)
        ensures
            text@ == self.reads(*content),
    {
        match self {
            SetupError::Squads(n) => decimal(*n).concat(" squads: a game needs 2-4"),
            SetupError::UnknownPilot(id) => {
                let n = decimal(id.0 as usize);
                String::from_str("unknown pilot PilotId(").concat(n.as_str()).concat(")")
            },
            SetupError::UnknownClass(id) => {
                let n = decimal(id.0 as usize);
                String::from_str("unknown ship class ShipClassId(").concat(n.as_str()).concat(")")
            },
            SetupError::NoDial(id) => match content.ships.class(*id) {
                Some(c) => String::from_str(c.name.as_str()).concat(" has no dial"),
                None => {
                    let text = String::from_str("").concat(" has no dial");
                    proof {
                        reveal_strlit("");
                        assert(text@ =~= self.reads(*content));
                    }
                    text
                },
            },
            SetupError::UnknownUpgrade(id) => {
                let n = decimal(id.0 as usize);
                String::from_str("unknown upgrade UpgradeId(").concat(n.as_str()).concat(")")
            },
        }
    }
}

/// The first unknown of the first `n` cards.
pub open spec fn unknown_card(content: Content, cards: Seq<UpgradeId>, n: int) -> Option<UpgradeId>
    decreases n,
{
    if n <= 0 {
        None
    } else {
        let prior = unknown_card(content, cards, n - 1);
        if prior is Some {
            prior
        } else if content.card(cards[n - 1]) is None {
            Some(cards[n - 1])
        } else {
            None
        }
    }
}

/// What is wrong with an entry of a squad.
pub open spec fn entry_fault(content: Content, e: SquadShip) -> Option<SetupError> {
    match content.flyer(e.pilot) {
        None => Some(SetupError::UnknownPilot(e.pilot)),
        Some(p) => if content.chassis(p.class) is None {
            Some(SetupError::UnknownClass(p.class))
        } else if !content.has_dial(p.class) {
            Some(SetupError::NoDial(p.class))
        } else {
            match unknown_card(content, e.upgrades@, e.upgrades@.len() as int) {
                Some(u) => Some(SetupError::UnknownUpgrade(u)),
                None => None,
            }
        },
    }
}

/// What is wrong with the first `n` entries of a squad.
pub open spec fn squad_fault(content: Content, ships: Seq<SquadShip>, n: int) -> Option<SetupError>
    decreases n,
{
    if n <= 0 {
        None
    } else {
        let prior = squad_fault(content, ships, n - 1);
        if prior is Some {
            prior
        } else {
            entry_fault(content, ships[n - 1])
        }
    }
}

/// What is wrong with the first `n` squads.
pub open spec fn squads_fault(content: Content, squads: Seq<&Squad>, n: int) -> Option<SetupError>
    decreases n,
{
    if n <= 0 {
        None
    } else {
        let prior = squads_fault(content, squads, n - 1);
        if prior is Some {
            prior
        } else {
            let ships = squads[n - 1].ships@;
            squad_fault(content, ships, ships.len() as int)
        }
    }
}

/// A card that ordnance tokens are placed on.
pub open spec fn takes_ordnance(content: Content, card: UpgradeId) -> bool {
    content.card(card) is Some && {
        let slot = content.card(card)->0.slot;
        slot == Slot::Torpedo || slot == Slot::Missile || slot == Slot::Bomb
    }
}

/// Extra Munitions: the cards that start with an ordnance token.
pub open spec fn loaded(content: Content, cards: Seq<UpgradeId>, n: int) -> Seq<UpgradeId>
    decreases n,
{
    if n <= 0 {
        Seq::empty()
    } else if takes_ordnance(content, cards[n - 1]) {
        loaded(content, cards, n - 1).push(cards[n - 1])
    } else {
        loaded(content, cards, n - 1)
    }
}

/// A ship as it enters the game: with its cards, its ordnance tokens, and
/// full hull and shields.
pub open spec fn entered(
    content: Content,
    e: SquadShip,
    id: int,
    seat: int,
    callsign: Seq<char>,
) -> ShipModel {
    let pilot = content.flyer(e.pilot)->0;
    let class = content.chassis(pilot.class)->0;
    let munitions = card_doing(
        content,
        e.upgrades@,
        UpgradeEffect::OrdnanceTokens,
    ) is Some;
    let s = ShipModel {
        lingers: pilot.ability == Some(PilotAbility::SurviveUntilEndOfCombat),
        late_setup: pilot.ability == Some(PilotAbility::SetupAnywhereBeyondRange3),
        upgrades: e.upgrades@,
        ordnance: if munitions {
            loaded(content, e.upgrades@, e.upgrades@.len() as int)
        } else {
            Seq::empty()
        },
        ..ShipModel::fresh(
            ShipId((id % 0x1_0000_0000) as u32),
            PlayerId(seat as u32),
            pilot.class,
            e.pilot,
            callsign,
            class.hull,
            class.shields,
        )
    };
    ShipModel { hull: s.full_hull(content), shields: s.full_shields(content), ..s }
}

/// The first `n` ships of a squad; the list holds `base` ships before them.
pub open spec fn squad_ships(
    content: Content,
    ships: Seq<SquadShip>,
    seat: int,
    name: Seq<char>,
    base: int,
    n: int,
) -> Seq<ShipModel>
    decreases n,
{
    if n <= 0 {
        Seq::empty()
    } else {
        squad_ships(content, ships, seat, name, base, n - 1).push(
            entered(
                content,
                ships[n - 1],
                base + n - 1,
                seat,
                callsign_of(ships[n - 1].callsign@, name, n - 1),
            ),
        )
    }
}

/// The ships of the first `n` squads.
pub open spec fn all_ships(content: Content, squads: Seq<&Squad>, names: Seq<&str>, n: int) -> Seq<
    ShipModel,
>
    decreases n,
{
    if n <= 0 {
        Seq::empty()
    } else {
        let rest = all_ships(content, squads, names, n - 1);
        let ships = squads[n - 1].ships@;
        rest + squad_ships(
            content,
            ships,
            n - 1,
            names[n - 1]@,
            rest.len() as int,
            ships.len() as int,
        )
    }
}

/// The points of a side: of its seats among the first `n`.
pub open spec fn side_total(totals: Seq<u32>, teams: Seq<u8>, side: int, n: int) -> int
    decreases n,
{
    if n <= 0 {
        0
    } else if teams[n - 1] == side {
        side_total(totals, teams, side, n - 1) + totals[n - 1]
    } else {
        side_total(totals, teams, side, n - 1)
    }
}

/// The points of each squad.
pub open spec fn squad_totals(content: Content, squads: Seq<&Squad>) -> Seq<u32> {
    Seq::new(squads.len(), |k: int| ships_cost(content, squads[k].ships@) as u32)
}

/// The side of each seat: as given, or each seat for itself.
pub open spec fn seat_teams(teams: Seq<u8>, n: nat) -> Seq<u8> {
    if teams.len() == n {
        teams
    } else {
        Seq::new(n, |k: int| k as u8)
    }
}

/// The points of each side.
pub open spec fn side_totals(totals: Seq<u32>, teams: Seq<u8>) -> Seq<u32> {
    Seq::new(
        (highest(teams, 0) + 1) as nat,
        |t: int| side_total(totals, teams, t, totals.len() as int) as u32,
    )
}

/// The points of every squad and every side can be counted.
pub open spec fn countable(content: Content, squads: Seq<&Squad>, teams: Seq<u8>) -> bool {
    &&& forall|k: int|
        0 <= k < squads.len() ==> ships_cost(content, (#[trigger] squads[k]).ships@) <= u32::MAX
    &&& forall|t: int|
        0 <= t < 256 ==> #[trigger] side_total(
            squad_totals(content, squads),
            seat_teams(teams, squads.len()),
            t,
            squads.len() as int,
        ) <= u32::MAX
}

/// A game of the squads before the first ship is placed.
pub open spec fn founded(
    content: Content,
    squads: Seq<&Squad>,
    names: Seq<&str>,
    teams: Seq<u8>,
    tie_roll: AttackFace,
) -> Game {
    let n = squads.len();
    let sides = seat_teams(teams, n);
    let totals = squad_totals(content, squads);
    Game {
        phase: Phase::Placement,
        turn: 1,
        ships: all_ships(content, squads, names, n as int),
        committed: Seq::new(n, |k: int| false),
        winner: None,
        initiative: seat_from(
            sides,
            holder(side_totals(totals, sides), tie_roll) as u8,
            0,
            0,
        ),
        squad_totals: totals,
        teams: sides,
        combat: None,
        bombs: Seq::empty(),
        next_bomb_id: 0,
        obstacles: Seq::empty(),
        white_reds: Seq::new(n, |k: int| false),
        mission: None,
        log: Seq::empty(),
    }
}

fn find_unknown(content: &Content, cards: &Vec<UpgradeId>) -> (card: Option<UpgradeId>)
    ensures
        card == unknown_card(*content, cards@, cards@.len() as int),
{
    let mut found: Option<UpgradeId> = None;
    let mut k: usize = 0;
    while k < cards.len()
        invariant
            k <= cards.len(),
            found == unknown_card(*content, cards@, k as int),
        decreases cards.len() - k,
    {
        if found.is_none() && content.upgrades.upgrade(cards[k]).is_none() {
            found = Some(cards[k]);
        }
        k = k + 1;
    }
    found
}

fn check_entry(content: &Content, e: &SquadShip) -> (fault: Option<SetupError>)
    ensures
        fault == entry_fault(*content, *e),
{
    let pilot = match content.pilots.pilot(e.pilot) {
        None => return Some(SetupError::UnknownPilot(e.pilot)),
        Some(p) => p,
    };
    let class = match content.ships.class(pilot.class) {
        None => return Some(SetupError::UnknownClass(pilot.class)),
        Some(c) => c,
    };
    if content.dials.set(class.maneuver_set).is_none() {
        return Some(SetupError::NoDial(pilot.class));
    }
    match find_unknown(content, &e.upgrades) {
        Some(u) => Some(SetupError::UnknownUpgrade(u)),
        None => None,
    }
}

fn load(content: &Content, cards: &Vec<UpgradeId>) -> (tokens: Vec<UpgradeId>)
    ensures
        tokens@ == loaded(*content, cards@, cards@.len() as int),
{
    let mut tokens: Vec<UpgradeId> = Vec::new();
    let mut k: usize = 0;
    assert(tokens@ =~= Seq::empty());
    while k < cards.len()
        invariant
            k <= cards.len(),
            tokens@ == loaded(*content, cards@, k as int),
        decreases cards.len() - k,
    {
        if let Some(c) = content.upgrades.upgrade(cards[k]) {
            if c.slot == Slot::Torpedo || c.slot == Slot::Missile || c.slot == Slot::Bomb {
                tokens.push(cards[k]);
            }
        }
        k = k + 1;
    }
    tokens
}

fn side_sums(totals: &Vec<u32>, teams: &Vec<u8>) -> (sums: Vec<u32>)
    requires
        totals@.len() == teams@.len(),
        forall|t: int|
            0 <= t < 256 ==> #[trigger] side_total(totals@, teams@, t, totals@.len() as int)
                <= u32::MAX,
    ensures
        sums@ == side_totals(totals@, teams@),
{
    let mut high: u8 = 0;
    let mut i: usize = 0;
    while i < teams.len()
        invariant
            i <= teams.len(),
            high == highest(teams@.take(i as int), 0),
        decreases teams.len() - i,
    {
        assert(teams@.take(i + 1).drop_last() =~= teams@.take(i as int));
        if teams[i] > high {
            high = teams[i];
        }
        i = i + 1;
    }
    assert(teams@.take(i as int) =~= teams@);
    let mut sums: Vec<u32> = Vec::new();
    let mut t: u16 = 0;
    while t <= high as u16
        invariant
            t <= high as u16 + 1,
            sums@.len() == t,
            forall|j: int| 0 <= j < t ==> sums@[j] == side_totals(totals@, teams@)[j],
        decreases high as u16 + 1 - t,
    {
        let sum = sum_side(totals, teams, t);
        sums.push(sum);
        t = t + 1;
    }
    assert(sums@ =~= side_totals(totals@, teams@));
    sums
}

/// More seats have no fewer points.
pub proof fn side_total_grows(totals: Seq<u32>, teams: Seq<u8>, side: int, k: int, n: int)
    requires
        0 <= k <= n,
        n <= totals.len(),
        n <= teams.len(),
    ensures
        0 <= side_total(totals, teams, side, k) <= side_total(totals, teams, side, n),
    decreases n,
{
    if n > 0 {
        if k < n {
            side_total_grows(totals, teams, side, k, n - 1);
        } else {
            side_total_grows(totals, teams, side, n - 1, n - 1);
        }
    }
}

fn sum_side(totals: &Vec<u32>, teams: &Vec<u8>, side: u16) -> (sum: u32)
    requires
        totals@.len() == teams@.len(),
        side_total(totals@, teams@, side as int, totals@.len() as int) <= u32::MAX,
    ensures
        sum == side_total(totals@, teams@, side as int, totals@.len() as int),
{
    let mut sum: u32 = 0;
    let mut k: usize = 0;
    while k < totals.len()
        invariant
            k <= totals.len(),
            sum == side_total(totals@, teams@, side as int, k as int),
        decreases totals.len() - k,
    {
        proof {
            side_total_grows(totals@, teams@, side as int, k + 1, totals@.len() as int);
        }
        if teams[k] as u16 == side {
            sum = sum + totals[k];
        }
        k = k + 1;
    }
    sum
}

impl GameState {
    /// A ship of a squad as it enters the game.
    fn enlist(&self, content: &Content, e: &SquadShip, id: usize, seat: u32, callsign: String) -> (
    ship: ShipState)
        requires
            entry_fault(*content, *e) is None,
        ensures
            ship@ == entered(*content, *e, id as int, seat as int, callsign@),
    {
        let mut class_id = ShipClassId(0);
        let mut ability: Option<PilotAbility> = None;
        if let Some(pilot) = content.pilots.pilot(e.pilot) {
            class_id = pilot.class;
            ability = pilot.ability;
        }
        let mut hull: u8 = 0;
        let mut shields: u8 = 0;
        if let Some(class) = content.ships.class(class_id) {
            hull = class.hull;
            shields = class.shields;
        }
        let mut ship = ShipState::new(
            ShipId(low32(id)),
            PlayerId(seat),
            class_id,
            e.pilot,
            callsign,
            hull,
            shields,
        );
        ship.lingers = ability == Some(PilotAbility::SurviveUntilEndOfCombat);
        ship.late_setup = ability == Some(PilotAbility::SetupAnywhereBeyondRange3);
        ship.upgrades = copy_cards(&e.upgrades);
        let munitions = find_card(
            content,
            &e.upgrades,
            UpgradeEffect::OrdnanceTokens,
        );
        if munitions.is_some() {
            ship.ordnance = load(content, &e.upgrades);
        }
        // Hull Upgrade / Shield Upgrade raise the starting values.
        let full_hull = self.max_hull(content, &ship);
        let full_shields = self.max_shields(content, &ship);
        ship.hull = full_hull;
        ship.shields = full_shields;
        ship
    }

    /// A game without seats.
    fn empty() -> (game: GameState)
        ensures
            game@ == (Game {
                phase: Phase::Placement,
                turn: 1,
                ships: Seq::empty(),
                committed: Seq::empty(),
                winner: None,
                initiative: PlayerId(0),
                squad_totals: Seq::empty(),
                teams: Seq::empty(),
                combat: None,
                bombs: Seq::empty(),
                next_bomb_id: 0,
                obstacles: Seq::empty(),
                white_reds: Seq::empty(),
                mission: None,
                log: Seq::empty(),
            }),
    {
        let game = GameState {
            phase: Phase::Placement,
            turn: 1,
            ships: Vec::new(),
            committed: Vec::new(),
            winner: None,
            initiative: PlayerId(0),
            squad_totals: Vec::new(),
            teams: Vec::new(),
            combat: None,
            bombs: Vec::new(),
            next_bomb_id: 0,
            obstacles: Vec::new(),
            white_reds: Vec::new(),
            mission: None,
            log: Vec::new(),
        };
        assert(game@.ships =~= Seq::empty());
        game
    }

    /// Add the ships of a squad, up to the first that cannot fly.
    fn enlist_squad(&mut self, content: &Content, squad: &Squad, seat: u32, name: &str) -> (fault:
        Option<SetupError>)
        requires
            old(self)@.ships.len() + squad.ships@.len() <= usize::MAX,
        ensures
            fault == squad_fault(*content, squad.ships@, squad.ships@.len() as int),
            fault is None ==> final(self)@ == (Game {
                ships: old(self)@.ships + squad_ships(
                    *content,
                    squad.ships@,
                    seat as int,
                    name@,
                    old(self)@.ships.len() as int,
                    squad.ships@.len() as int,
                ),
                ..old(self)@
            }),
    {
        let base: usize = self.ships.len();
        let callsigns = squad.callsigns(name);
        let mut k: usize = 0;
        assert(self@.ships =~= old(self)@.ships + Seq::empty());
        while k < squad.ships.len()
            invariant
                k <= squad.ships.len(),
                squad_fault(*content, squad.ships@, k as int) is None,
                self@.ships.len() == base + k,
                self@ == (Game {
                    ships: old(self)@.ships + squad_ships(
                        *content,
                        squad.ships@,
                        seat as int,
                        name@,
                        base as int,
                        k as int,
                    ),
                    ..old(self)@
                }),
            decreases squad.ships.len() - k,
        {
            let e = &squad.ships[k];
            if let Some(fault) = check_entry(content, e) {
                proof {
                    faults_are_final(*content, squad.ships@, k + 1, squad.ships@.len() as int);
                }
                return Some(fault);
            }
            let callsign = String::from_str(callsigns[k].as_str());
            let ship = self.enlist(content, e, base + k, seat, callsign);
            let ghost before = self@.ships;
            let ghost model = ship@;
            self.ships.push(ship);
            assert(self@.ships =~= before.push(model));
            assert(self@.ships =~= old(self)@.ships + squad_ships(
                *content,
                squad.ships@,
                seat as int,
                name@,
                base as int,
                k + 1,
            ));
            k = k + 1;
        }
        None
    }
}

proof fn squad_ships_count(
    content: Content,
    ships: Seq<SquadShip>,
    seat: int,
    name: Seq<char>,
    base: int,
    n: int,
)
    requires
        0 <= n,
    ensures
        squad_ships(content, ships, seat, name, base, n).len() == n,
    decreases n,
{
    if n > 0 {
        squad_ships_count(content, ships, seat, name, base, n - 1);
    }
}

proof fn all_ships_grow(content: Content, squads: Seq<&Squad>, names: Seq<&str>, k: int, n: int)
    requires
        0 <= k <= n <= squads.len(),
    ensures
        all_ships(content, squads, names, k).len() <= all_ships(content, squads, names, n).len(),
    decreases n,
{
    if k < n {
        all_ships_grow(content, squads, names, k, n - 1);
    }
}

proof fn squads_faults_are_final(content: Content, squads: Seq<&Squad>, k: int, n: int)
    requires
        0 <= k <= n,
        squads_fault(content, squads, k) is Some,
    ensures
        squads_fault(content, squads, n) == squads_fault(content, squads, k),
    decreases n,
{
    if k < n {
        squads_faults_are_final(content, squads, k, n - 1);
    }
}

/// The ship is of a known class with a dial and sits with one of `n` seats.
spec fn flies_for(content: Content, s: ShipModel, n: int) -> bool {
    content.chassis(s.class) is Some && content.has_dial(s.class) && s.owner.0 < n && s.plan is None
}

proof fn squad_ships_fly(
    content: Content,
    ships: Seq<SquadShip>,
    seat: int,
    name: Seq<char>,
    base: int,
    n: int,
    k: int,
)
    requires
        0 <= k < n,
        0 <= seat < 4,
        squad_fault(content, ships, n) is None,
    ensures
        flies_for(
            content,
            squad_ships(content, ships, seat, name, base, n)[k],
            seat + 1,
        ),
    decreases n,
{
    squad_ships_count(content, ships, seat, name, base, n - 1);
    if k < n - 1 {
        squad_ships_fly(content, ships, seat, name, base, n - 1, k);
    }
}

proof fn all_ships_fly(
    content: Content,
    squads: Seq<&Squad>,
    names: Seq<&str>,
    n: int,
    k: int,
)
    requires
        0 <= n <= 4,
        n <= squads.len(),
        0 <= k < all_ships(content, squads, names, n).len(),
        squads_fault(content, squads, n) is None,
    ensures
        flies_for(content, all_ships(content, squads, names, n)[k], n),
    decreases n,
{
    let rest = all_ships(content, squads, names, n - 1);
    if n > 0 {
        if k < rest.len() {
            all_ships_fly(content, squads, names, n - 1, k);
        } else {
            let ships = squads[n - 1].ships@;
            squad_ships_count(
                content,
                ships,
                n - 1,
                names[n - 1]@,
                rest.len() as int,
                ships.len() as int,
            );
            squad_ships_fly(
                content,
                ships,
                n - 1,
                names[n - 1]@,
                rest.len() as int,
                ships.len() as int,
                k - rest.len(),
            );
        }
    }
}

fn list_teams(teams: &[u8], n: usize) -> (sides: Vec<u8>)
    requires
        n <= 4,
    ensures
        sides@ == seat_teams(teams@, n as nat),
{
    let mut sides: Vec<u8> = Vec::new();
    let given = teams.len() == n;
    let mut k: usize = 0;
    while k < n
        invariant
            k <= n,
            given == (teams@.len() == n),
            sides@.len() == k,
            forall|j: int| 0 <= j < k ==> sides@[j] == seat_teams(teams@, n as nat)[j],
        decreases n - k,
    {
        if given {
            sides.push(teams[k]);
        } else {
            sides.push(k as u8);
        }
        k = k + 1;
    }
    assert(sides@ =~= seat_teams(teams@, n as nat));
    sides
}

impl GameState {
    /// Build a game from (already validated) squads, each known in play by a
    /// name. `tie_roll` is one red die drawn by the server, used only when
    /// the squad totals are equal.
    pub fn from_squads(
        content: &Content,
        squads: &[&Squad],
        names: &[&str],
        teams: &[u8],
        tie_roll: AttackFace,
    ) -> (game: Result<GameState, SetupError>)
        requires
            names@.len() == squads@.len(),
            all_ships(*content, squads@, names@, squads@.len() as int).len() <= usize::MAX,
            countable(*content, squads@, teams@),
        ensures
            !(2 <= squads@.len() <= 4) ==> game == Err::<GameState, SetupError>(
                SetupError::Squads(squads@.len() as usize),
            ),
            2 <= squads@.len() <= 4 ==> match squads_fault(
                *content,
                squads@,
                squads@.len() as int,
            ) {
                Some(f) => game == Err::<GameState, SetupError>(f),
                None => {
                    &&& game is Ok
                    &&& game->Ok_0@ == founded(*content, squads@, names@, teams@, tie_roll)
                    &&& game->Ok_0@.known(*content)
                },
            },
    {
        let n: usize = squads.len();
        if n < 2 || n > 4 {
            return Err(SetupError::Squads(n));
        }
        let mut game = GameState::empty();
        let mut totals: Vec<u32> = Vec::new();
        let mut k: usize = 0;
        while k < n
            invariant
                k <= n,
                2 <= n <= 4,
                n == squads@.len(),
                game@.ships == all_ships(*content, squads@, names@, k as int),
                game@ == (Game { ships: game@.ships, ..game@ }),
                game@.phase == Phase::Placement,
                game@.turn == 1,
                game@.committed == Seq::<bool>::empty(),
                game@.white_reds == Seq::<bool>::empty(),
                game@.winner is None,
                game@.combat is None,
                game@.mission is None,
                game@.bombs == Seq::<crate::bombs::BombToken>::empty(),
                game@.next_bomb_id == 0,
                game@.obstacles == Seq::<crate::obstacle::Obstacle>::empty(),
                game@.log == Seq::<crate::event::Event>::empty(),
                squads_fault(*content, squads@, k as int) is None,
            decreases n - k,
        {
            proof {
                all_ships_grow(*content, squads@, names@, k + 1, n as int);
                let ships = squads@[k as int].ships@;
                squad_ships_count(
                    *content,
                    ships,
                    k as int,
                    names@[k as int]@,
                    game@.ships.len() as int,
                    ships.len() as int,
                );
            }
            if let Some(fault) = game.enlist_squad(content, squads[k], k as u32, names[k]) {
                proof {
                    squads_faults_are_final(*content, squads@, k + 1, n as int);
                }
                return Err(fault);
            }
            k = k + 1;
        }
        let mut k: usize = 0;
        while k < n
            invariant
                k <= n,
                n == squads@.len(),
                totals@.len() == k,
                forall|j: int| 0 <= j < k ==> totals@[j] == squad_totals(*content, squads@)[j],
                game@.committed.len() == k,
                game@.white_reds.len() == k,
                forall|j: int| 0 <= j < k ==> !game@.committed[j] && !game@.white_reds[j],
                game@.ships == all_ships(*content, squads@, names@, n as int),
                game@.phase == Phase::Placement,
                game@.turn == 1,
                game@.winner is None,
                game@.combat is None,
                game@.mission is None,
                game@.bombs == Seq::<crate::bombs::BombToken>::empty(),
                game@.next_bomb_id == 0,
                game@.obstacles == Seq::<crate::obstacle::Obstacle>::empty(),
                game@.log == Seq::<crate::event::Event>::empty(),
            decreases n - k,
        {
            assert(ships_cost(*content, squads@[k as int].ships@) <= u32::MAX);
            totals.push(squads[k].cost(content));
            game.committed.push(false);
            game.white_reds.push(false);
            k = k + 1;
        }
        // Initiative goes to the side with the lowest total; the token
        // sits with that side's first seat.
        let sides = list_teams(teams, n);
        assert(totals@ =~= squad_totals(*content, squads@));
        let sums = side_sums(&totals, &sides);
        let side: usize = initiative_seat(sums.as_slice(), tie_roll);
        proof {
            holder_is_a_side(sums@, tie_roll);
        }
        game.initiative = find_seat(&sides, side as u8, 0);
        proof {
            seat_from_is_a_seat(sides@, side as u8, 0, n as nat);
        }
        game.squad_totals = totals;
        game.teams = sides;
        proof {
            let want = founded(*content, squads@, names@, teams@, tie_roll);
            assert(game@.committed =~= want.committed);
            assert(game@.white_reds =~= want.white_reds);
            assert(game@ == want);
            assert forall|j: int| 0 <= j < game@.frame().ships.len() implies ({
                let s = #[trigger] game@.frame().ships[j];
                &&& content.chassis(s.class) is Some
                &&& content.has_dial(s.class)
                &&& s.owner.0 < game@.frame().seats
            }) by {
                all_ships_fly(*content, squads@, names@, n as int, j);
            }
        }
        Ok(game)
    }

    /// `fleets[0]` deploys South (seat 0), `fleets[1]` North (seat 1);
    /// each entry is a pilot card, which implies the ship class. Basic
    /// squads: no upgrades, default callsigns.
    pub fn new(
        content: &Content,
        fleets: [&[PilotId]; 2],
        names: [&str; 2],
        tie_roll: AttackFace,
    ) -> (game: Result<GameState, SetupError>)
        requires
            u8::MAX * (fleets@[0]@.len() + fleets@[1]@.len()) <= u32::MAX,
        ensures
            exists|south: Squad, north: Squad| #[trigger]
                basic_squads(*content, fleets@[0]@, fleets@[1]@, south, north) && match squads_fault(
                    *content,
                    seq![&south, &north],
                    2,
                ) {
                    Some(f) => game == Err::<GameState, SetupError>(f),
                    None => {
                        &&& game is Ok
                        &&& game->Ok_0@ == founded(
                            *content,
                            seq![&south, &north],
                            seq![names@[0], names@[1]],
                            seq![0u8, 1u8],
                            tie_roll,
                        )
                        &&& game->Ok_0@.known(*content)
                    },
                },
    {
        let south = Squad::basic(content, "south", fleets[0]);
        let north = Squad::basic(content, "north", fleets[1]);
        let mut squads: Vec<&Squad> = Vec::new();
        squads.push(&south);
        squads.push(&north);
        let mut called: Vec<&str> = Vec::new();
        called.push(names[0]);
        called.push(names[1]);
        let mut teams: Vec<u8> = Vec::new();
        teams.push(0);
        teams.push(1);
        proof {
            assert(squads@ =~= seq![&south, &north]);
            assert(called@ =~= seq![names@[0], names@[1]]);
            assert(teams@ =~= seq![0u8, 1u8]);
            basic_is_countable(*content, squads@, called@, teams@);
        }
        let game = GameState::from_squads(
            content,
            squads.as_slice(),
            called.as_slice(),
            teams.as_slice(),
            tie_roll,
        );
        assert(basic_squads(*content, fleets@[0]@, fleets@[1]@, south, north));
        game
    }
}

/// The two basic squads of the given pilots.
pub open spec fn basic_squads(
    content: Content,
    first: Seq<PilotId>,
    second: Seq<PilotId>,
    south: Squad,
    north: Squad,
) -> bool {
    is_basic(content, first, south) && is_basic(content, second, north)
}

/// A squad of the pilots without upgrades and callsigns.
pub open spec fn is_basic(content: Content, pilots: Seq<PilotId>, squad: Squad) -> bool {
    &&& squad.ships@.len() == pilots.len()
    &&& forall|k: int|
        0 <= k < pilots.len() ==> (#[trigger] squad.ships@[k]).pilot == pilots[k]
            && squad.ships@[k].upgrades@.len() == 0 && squad.ships@[k].callsign@.len() == 0
}

proof fn basic_cost(content: Content, ships: Seq<SquadShip>)
    requires
        forall|k: int| 0 <= k < ships.len() ==> (#[trigger] ships[k]).upgrades@.len() == 0,
    ensures
        ships_cost(content, ships) <= 255 * ships.len(),
    decreases ships.len(),
{
    if ships.len() > 0 {
        let rest = ships.drop_last();
        assert forall|k: int| 0 <= k < rest.len() implies (#[trigger] rest[k]).upgrades@.len()
            == 0 by {
            assert(rest[k] == ships[k]);
        }
        basic_cost(content, rest);
        assert(ships.last().upgrades@.len() == 0);
    }
}

proof fn basic_is_countable(
    content: Content,
    squads: Seq<&Squad>,
    names: Seq<&str>,
    teams: Seq<u8>,
)
    requires
        squads.len() == 2,
        names.len() == 2,
        teams == seq![0u8, 1u8],
        u8::MAX * (squads[0].ships@.len() + squads[1].ships@.len()) <= u32::MAX,
        forall|j: int, k: int|
            0 <= j < 2 && 0 <= k < squads[j].ships@.len()
                ==> (#[trigger] squads[j].ships@[k]).upgrades@.len() == 0,
    ensures
        all_ships(content, squads, names, 2).len() <= usize::MAX,
        countable(content, squads, teams),
{
    basic_cost(content, squads[0].ships@);
    basic_cost(content, squads[1].ships@);
    reveal_with_fuel(all_ships, 3);
    reveal_with_fuel(side_total, 3);
    let a = squads[0].ships@;
    let b = squads[1].ships@;
    squad_ships_count(content, a, 0, names[0]@, 0, a.len() as int);
    squad_ships_count(content, b, 1, names[1]@, a.len() as int, b.len() as int);
    assert(all_ships(content, squads, names, 1).len() == a.len());
    assert(all_ships(content, squads, names, 2).len() == a.len() + b.len());
}

proof fn holder_is_a_side(totals: Seq<u32>, tie_roll: AttackFace)
    requires
        0 < totals.len() <= 256,
    ensures
        holder(totals, tie_roll) < totals.len(),
{
    initiative_goes_to_the_lowest_total(totals, tie_roll, 0);
}

proof fn faults_are_final(content: Content, ships: Seq<SquadShip>, k: int, n: int)
    requires
        0 <= k <= n,
        squad_fault(content, ships, k) is Some,
    ensures
        squad_fault(content, ships, n) == squad_fault(content, ships, k),
    decreases n,
{
    if k < n {
        faults_are_final(content, ships, k, n - 1);
    }
}

} // verus!
