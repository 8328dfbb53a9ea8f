//! Turning a freshly built game into a mission.

#![verifier::loop_isolation(false)]

use vstd::prelude::*;
use vstd::string::*;

use crate::data::Content;
use crate::game::missions::{find_seat, low32, seat_from};
use crate::game::setup::{side_total, side_total_grows};
use crate::game::state::{Game, GameState};
use crate::geometry::Vec2;
use crate::mission::{
    satellite_count, sheet, shuttle_shields, MissionBrief, MissionKind, MissionModel, MissionState,
    Satellite,
};
use crate::pick::{find, first, obeys};
use crate::pilot::Pilot;
use crate::ship::{Faction, PlayerId, ShipId, ShipModel, ShipState};
use crate::text::is_same;

verus! {

broadcast use crate::game::state::framing;

/// Why a mission cannot be started.
#[derive(Debug, Clone, Copy, PartialEq, Eq, Structural)]
pub enum MissionError {
    NotTwoSides,
    /// The senator's shuttle is not among the pilot cards.
    NoShuttle,
    /// The shuttle's class is unknown.
    NoShuttleClass,
}

impl MissionError {
    /// The reason in words.
    pub open spec fn reads(self) -> Seq<char> {
        match self {
            MissionError::NotTwoSides => "missions are played between two sides"@,
            MissionError::NoShuttle => "the senator's shuttle is missing from pilots.ron"@,
            MissionError::NoShuttleClass => "shuttle class"@,
        }
    }

    /// The reason in words.
    pub fn message(&self) -> (text: &'static str)
        ensures
            text@ == self.reads(),
    {
        match self {
            MissionError::NotTwoSides => "missions are played between two sides",
            MissionError::NoShuttle => "the senator's shuttle is missing from pilots.ron",
            MissionError::NoShuttleClass => "shuttle class",
        }
    }
}

/// The first pilot card with the name.
pub open spec fn pilot_named(pilots: Seq<Pilot>, name: Seq<char>) -> Option<Pilot>
    decreases pilots.len(),
{
    if pilots.len() == 0 {
        None
    } else if pilots[0].xws@ == name {
        Some(pilots[0])
    } else {
        pilot_named(pilots.skip(1), name)
    }
}

fn find_named<'a>(pilots: &'a Vec<Pilot>, name: &str) -> (pilot: Option<&'a Pilot>)
    ensures
        pilot is Some <==> pilot_named(pilots@, name@) is Some,
        pilot is Some ==> *pilot->0 == pilot_named(pilots@, name@)->0,
{
    let mut k: usize = 0;
    assert(pilots@.skip(0) =~= pilots@);
    while k < pilots.len()
        invariant
            k <= pilots.len(),
            pilot_named(pilots@, name@) == pilot_named(pilots@.skip(k as int), name@),
        decreases pilots.len() - k,
    {
        assert(pilots@.skip(k as int).skip(1) =~= pilots@.skip(k + 1));
        if is_same(pilots[k].xws.as_str(), name) {
            return Some(&pilots[k]);
        }
        k = k + 1;
    }
    None
}

/// Satellites at the places, none of them scanned.
pub open spec fn floating(places: Seq<Vec2>) -> Seq<Satellite> {
    Seq::new(
        places.len(),
        |k: int|
            Satellite {
                id: (k % 0x1_0000_0000) as u32,
                pos: places[k],
                holder: None,
                supply: false,
            },
    )
}

fn float_satellites(places: &Vec<Vec2>) -> (satellites: Vec<Satellite>)
    ensures
        satellites@ == floating(places@),
{
    let mut satellites: Vec<Satellite> = Vec::new();
    let mut k: usize = 0;
    while k < places.len()
        invariant
            k <= places.len(),
            satellites@.len() == k,
            forall|j: int| 0 <= j < k ==> satellites@[j] == floating(places@)[j],
        decreases places.len() - k,
    {
        satellites.push(Satellite { id: low32(k), pos: places[k], holder: None, supply: false });
        k = k + 1;
    }
    assert(satellites@ =~= floating(places@));
    satellites
}

impl Game {
    pub open spec fn rebel_rule(self, content: Content) -> spec_fn(int) -> bool {
        |k: int| content.chassis(self.ships[k].class)->0.faction == Faction::RebelAlliance
    }

    /// The Rebel side is whichever side flies Rebel ships (side 0 if nobody
    /// does).
    pub open spec fn rebels(self, content: Content) -> u8 {
        match first(self.rebel_rule(content), 0, self.ships.len() as int) {
            Some(k) => self.side(self.ships[k as int].owner),
            None => 0,
        }
    }

    pub open spec fn side_rule(self, side: u8) -> spec_fn(int) -> bool {
        |k: int| self.side(self.ships[k].owner) == side
    }

    /// How many seats have both points and a side.
    pub open spec fn scored(self) -> int {
        if self.squad_totals.len() < self.teams.len() {
            self.squad_totals.len() as int
        } else {
            self.teams.len() as int
        }
    }

    /// The points of a side.
    pub open spec fn points(self, side: u8) -> int {
        side_total(self.squad_totals, self.teams, side as int, self.scored())
    }

    /// The first seat of a side.
    pub open spec fn first_seat(self, side: u8) -> PlayerId {
        seat_from(self.teams, side, 0, side as u32)
    }

    /// Why a mission cannot be started.
    pub open spec fn mission_refused(self, content: Content, kind: MissionKind) -> Option<
        MissionError,
    > {
        let pilot = pilot_named(content.pilots.pilots@, "senatorsshuttle"@);
        if self.sides() != 2 {
            Some(MissionError::NotTwoSides)
        } else if kind == MissionKind::PoliticalEscort && pilot is None {
            Some(MissionError::NoShuttle)
        } else if kind == MissionKind::PoliticalEscort && content.chassis(
            pilot->0.class,
        ) is None {
            Some(MissionError::NoShuttleClass)
        } else {
            None
        }
    }

    /// The senator's shuttle, flown by the Rebels' first seat.
    pub open spec fn shuttle(
        self,
        content: Content,
        points: u32,
        brief: MissionBrief,
    ) -> ShipModel {
        let pilot = pilot_named(content.pilots.pilots@, "senatorsshuttle"@)->0;
        ShipModel {
            pose: Some(brief.shuttle_pose),
            ..ShipModel::fresh(
                ShipId((self.ships.len() % 0x1_0000_0000) as u32),
                self.first_seat(self.rebels(content)),
                pilot.class,
                pilot.id,
                "Senator"@,
                content.chassis(pilot.class)->0.hull,
                shuttle_shields(points),
            )
        }
    }

    /// A mission's state at its start.
    pub open spec fn briefed(
        self,
        content: Content,
        kind: MissionKind,
        points: u32,
        brief: MissionBrief,
    ) -> MissionModel {
        let rebels = self.rebels(content);
        let cripple = first(self.side_rule(rebels), 0, self.ships.len() as int);
        MissionModel {
            kind,
            rebel_side: rebels,
            imperial_side: (1 - rebels) as u8,
            shuttle: if kind == MissionKind::PoliticalEscort {
                Some(self.shuttle(content, points, brief).id)
            } else {
                None
            },
            disabled: if kind == MissionKind::AsteroidRun && cripple is Some {
                Some(self.ships[cripple->0 as int].id)
            } else {
                None
            },
            satellites: if kind == MissionKind::DarkWhispers {
                floating(brief.satellites@)
            } else {
                Seq::empty()
            },
            reinforced: Seq::empty(),
            spawned: 0,
            reinforcing: kind.reinforces(),
            reserve: match pilot_named(content.pilots.pilots@, kind.reserve()) {
                Some(p) => Some(p.id),
                None => None,
            },
        }
    }

    /// The game as a mission: sides assigned, shuttle or satellites placed,
    /// and the initiative with the Empire on a points tie.
    #[verifier::opaque]
    pub open spec fn on_mission(
        self,
        content: Content,
        kind: MissionKind,
        points: u32,
        brief: MissionBrief,
    ) -> Game {
        let m = self.briefed(content, kind, points, brief);
        Game {
            ships: if kind == MissionKind::PoliticalEscort {
                self.ships.push(self.shuttle(content, points, brief))
            } else {
                self.ships
            },
            initiative: if self.points(m.rebel_side) == self.points(m.imperial_side) {
                self.first_seat(m.imperial_side)
            } else {
                self.initiative
            },
            mission: Some(m),
            ..self
        }
    }

    /// The content holds what the mission brings into play.
    pub open spec fn mission_flies(
        self,
        content: Content,
        kind: MissionKind,
        points: u32,
        brief: MissionBrief,
    ) -> bool {
        &&& self.white_reds.len() >= 2
        &&& self.on_mission(content, kind, points, brief).frame().reserve_flies(content)
        &&& kind == MissionKind::PoliticalEscort ==> content.has_dial(
            pilot_named(content.pilots.pilots@, "senatorsshuttle"@)->0.class,
        )
    }
}

proof fn first_seat_is_a_seat(teams: Seq<u8>, side: u8, k: int, seats: nat)
    requires
        0 <= k,
        side <= 1,
        teams.len() <= seats,
        seats >= 2,
    ensures
        seat_from(teams, side, k, side as u32).0 < seats,
    decreases teams.len() - k,
{
    if k < teams.len() && teams[k] != side {
        first_seat_is_a_seat(teams, side, k + 1, seats);
    }
}

impl GameState {
    fn find_rebels(&self, content: &Content) -> (side: u8)
        requires
            self@.known(*content),
        ensures
            side == self@.rebels(*content),
    {
        let test = |k: usize| -> (yes: bool)
            requires
                k < self@.ships.len(),
            ensures
                yes == obeys(self@.rebel_rule(*content), k),
        {
            assert(self@.frame().ships[k as int] == self@.ships[k as int].identity());
            self.class_of(content, &self.ships[k]).faction == Faction::RebelAlliance
        };
        match find(self.ships.len(), test, Ghost(self@.rebel_rule(*content))) {
            Some(k) => self.team(self.ships[k].owner),
            None => 0,
        }
    }

    fn find_first_of(&self, side: u8) -> (id: Option<ShipId>)
        ensures
            match first(self@.side_rule(side), 0, self@.ships.len() as int) {
                Some(k) => id == Some(self@.ships[k as int].id),
                None => id is None,
            },
    {
        let test = |k: usize| -> (yes: bool)
            requires
                k < self@.ships.len(),
            ensures
                yes == obeys(self@.side_rule(side), k),
        { self.team(self.ships[k].owner) == side };
        match find(self.ships.len(), test, Ghost(self@.side_rule(side))) {
            Some(k) => Some(self.ships[k].id),
            None => None,
        }
    }

    fn count_points(&self, side: u8) -> (points: u32)
        requires
            self@.points(side) <= u32::MAX,
        ensures
            points == self@.points(side),
    {
        let mut sum: u32 = 0;
        let mut k: usize = 0;
        while k < self.squad_totals.len() && k < self.teams.len()
            invariant
                k <= self@.scored(),
                sum == side_total(self@.squad_totals, self@.teams, side as int, k as int),
            decreases self@.scored() - k,
        {
            proof {
                side_total_grows(
                    self@.squad_totals,
                    self@.teams,
                    side as int,
                    k + 1,
                    self@.scored(),
                );
            }
            if self.teams[k] == side {
                sum = sum + self.squad_totals[k];
            }
            k = k + 1;
        }
        sum
    }

    fn build_shuttle(
        &self,
        pilot: &Pilot,
        hull: u8,
        shields: u8,
        owner: PlayerId,
        brief: &MissionBrief,
    ) -> (ship: ShipState)
        ensures
            ship@ == (ShipModel {
                pose: Some(brief.shuttle_pose),
                ..ShipModel::fresh(
                    ShipId((self@.ships.len() % 0x1_0000_0000) as u32),
                    owner,
                    pilot.class,
                    pilot.id,
                    "Senator"@,
                    hull,
                    shields,
                )
            }),
    {
        let mut shuttle = ShipState::new(
            ShipId(low32(self.ships.len())),
            owner,
            pilot.class,
            pilot.id,
            String::from_str("Senator"),
            hull,
            shields,
        );
        shuttle.pose = Some(brief.shuttle_pose);
        shuttle
    }

    /// Turn a freshly built game into a mission game: assign sides,
    /// place the shuttle / satellites, mark the disabled ship, and give
    /// the Empire the initiative on a points tie (p.21). Call after the
    /// obstacles are placed.
    pub fn start_mission(
        &mut self,
        content: &Content,
        kind: MissionKind,
        points: u32,
        brief: &MissionBrief,
    ) -> (result: Result<(), MissionError>)
        requires
            kind == MissionKind::DarkWhispers ==> brief.satellites@.len() == satellite_count(
                points,
            ),
            old(self)@.known(*content),
            old(self)@.ships.len() < usize::MAX,
            forall|k: int|
                0 <= k < old(self)@.teams.len() ==> #[trigger] old(self)@.teams[k] < u8::MAX,
            old(self)@.sides() == 2 ==> old(self)@.rebels(*content) <= 1,
            forall|side: u8| #[trigger] old(self)@.points(side) <= u32::MAX,
        ensures
            match old(self)@.mission_refused(*content, kind) {
                Some(r) => result == Err::<(), MissionError>(r) && final(self)@ == old(self)@,
                None => {
                    &&& result is Ok
                    &&& final(self)@ == old(self)@.on_mission(*content, kind, points, *brief)
                    &&& old(self)@.mission_flies(*content, kind, points, *brief)
                        ==> final(self)@.known(*content)
                },
            },
    {
        if self.sides() != 2 {
            return Err(MissionError::NotTwoSides);
        }
        let (shields, _, reinforcing) = sheet(kind, points);
        let rebel_side: u8 = self.find_rebels(content);
        let imperial_side: u8 = 1 - rebel_side;
        let mut shuttle: Option<ShipId> = None;
        let mut built: Option<ShipState> = None;
        let mut disabled: Option<ShipId> = None;
        let mut satellites: Vec<Satellite> = Vec::new();
        assert(satellites@ =~= Seq::empty());
        match kind {
            MissionKind::PoliticalEscort => {
                let pilot = match find_named(&content.pilots.pilots, "senatorsshuttle") {
                    None => return Err(MissionError::NoShuttle),
                    Some(pilot) => pilot,
                };
                let class = match content.ships.class(pilot.class) {
                    None => return Err(MissionError::NoShuttleClass),
                    Some(class) => class,
                };
                let owner = find_seat(&self.teams, rebel_side, rebel_side as u32);
                let ship = self.build_shuttle(pilot, class.hull, shields, owner, brief);
                shuttle = Some(ship.id);
                built = Some(ship);
            },
            MissionKind::AsteroidRun => {
                // "He chooses one of his ships": the first ship of the
                // Rebel squad (the builder's order is the player's choice).
                disabled = self.find_first_of(rebel_side);
            },
            MissionKind::DarkWhispers => {
                satellites = float_satellites(&brief.satellites);
            },
        }
        // Initiative: lowest squad total, ties to the Empire (p.21).
        let mut initiative = self.initiative;
        if self.count_points(rebel_side) == self.count_points(imperial_side) {
            initiative = find_seat(&self.teams, imperial_side, imperial_side as u32);
        }
        let reserve = match find_named(&content.pilots.pilots, kind.reserve_card()) {
            Some(p) => Some(p.id),
            None => None,
        };
        let state = MissionState {
            kind,
            rebel_side,
            imperial_side,
            shuttle,
            disabled,
            satellites,
            reinforced: Vec::new(),
            spawned: 0,
            reinforcing,
            reserve,
        };
        assert(state.reinforced@ =~= Seq::empty());
        proof {
            reveal(Game::on_mission);
            assert(state@ == old(self)@.briefed(*content, kind, points, *brief));
            if old(self)@.white_reds.len() >= 2 {
                let seats = old(self)@.white_reds.len();
                first_seat_is_a_seat(self@.teams, rebel_side, 0, seats);
                first_seat_is_a_seat(self@.teams, imperial_side, 0, seats);
            }
        }
        if let Some(ship) = built {
            let ghost before = self@.ships;
            let ghost model = ship@;
            self.ships.push(ship);
            assert(self@.ships =~= before.push(model));
        }
        self.initiative = initiative;
        self.mission = Some(state);
        proof {
            assert(self@ == old(self)@.on_mission(*content, kind, points, *brief));
            assert(old(self)@.mission_flies(*content, kind, points, *brief) ==> self@.known(
                *content,
            )) by {
                if old(self)@.mission_flies(*content, kind, points, *brief) {
                    assert forall|k: int| 0 <= k < self@.frame().ships.len() implies ({
                        let s = #[trigger] self@.frame().ships[k];
                        &&& content.chassis(s.class) is Some
                        &&& content.has_dial(s.class)
                        &&& s.owner.0 < self@.frame().seats
                    }) by {
                        if k < old(self)@.ships.len() {
                            assert(old(self)@.frame().ships[k]
                                == old(self)@.ships[k].identity());
                        }
                    }
                }
            }
        }
        Ok(())
    }
}

} // verus!
