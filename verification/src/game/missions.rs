//! Mission rules (core rules p.21-24). See `mission.rs` for the data side;
//! policies for the choices the rulebook leaves to a player are noted on each
//! function.

#![verifier::loop_isolation(false)]

use vstd::prelude::*;
use vstd::string::*;

use crate::board::Seat;
use crate::data::Content;
use crate::event::Event;
use crate::game::state::{Game, GameState};
use crate::mission::{MissionKind, MissionModel, MissionState, Satellite, REPAIR_ROUND};
use crate::pick::{find, first, obeys, pick, picked};
use crate::pilot::Pilot;
use crate::ship::{sat, PlayerId, ShipClass, ShipId, ShipModel, ShipState};
use crate::sight::Sight;
use crate::squad::{decimal, digits};

verus! {

broadcast use crate::game::state::framing;

/// Which satellites each ship's base overlaps: `over[i][k]` is satellite `k`
/// under ship `i`, by their places in the lists.
#[derive(Debug, Clone, PartialEq, Eq)]
pub struct Overlaps {
    pub over: Vec<Vec<bool>>,
}

impl Overlaps {
    pub open spec fn at(self, i: int, k: int) -> bool {
        0 <= i < self.over@.len() && 0 <= k < self.over@[i]@.len() && self.over@[i]@[k]
    }

    pub fn overlaps(&self, i: usize, k: usize) -> (yes: bool)
        ensures
            yes == self.at(i as int, k as int),
    {
        i < self.over.len() && k < self.over[i].len() && self.over[i][k]
    }
}

/// How many of the satellites still wait to be scanned.
pub open spec fn afloat(s: Seq<Satellite>) -> nat
    decreases s.len(),
{
    if s.len() == 0 {
        0
    } else {
        afloat(s.drop_last()) + if s.last().afloat() {
            1nat
        } else {
            0nat
        }
    }
}

/// The first seat of a side, or the fallback.
pub open spec fn seat_from(teams: Seq<u8>, side: u8, k: int, fallback: u32) -> PlayerId
    decreases teams.len() - k,
{
    if k >= teams.len() {
        PlayerId(fallback)
    } else if teams[k] == side {
        PlayerId((k % 0x1_0000_0000) as u32)
    } else {
        seat_from(teams, side, k + 1, fallback)
    }
}

/// What the reinforcement with a number is called.
pub open spec fn reserve_name(n: u32) -> Seq<char> {
    "Reserve-"@ + digits(n as nat)
}

impl Game {
    pub open spec fn lost_rule(self, id: ShipId) -> spec_fn(int) -> bool {
        |k: int|
            self.ships[k].id == id && self.ships[k].destroyed && !self.ships[k].escaped
    }

    /// The ship with the id was destroyed and did not escape.
    pub open spec fn lost(self, id: ShipId) -> bool {
        first(self.lost_rule(id), 0, self.ships.len() as int) is Some
    }

    /// The ship at `i`, leaving the board over an edge, escapes instead of
    /// being destroyed (p.22-24 "not considered destroyed").
    pub open spec fn escapes(self, i: int, exit: Seat) -> bool {
        match self.mission {
            None => false,
            Some(m) => {
                let ship = self.ships[i];
                match m.kind {
                    MissionKind::PoliticalEscort => m.shuttle == Some(ship.id) && exit
                        == Seat::edge(m.imperial_side),
                    MissionKind::AsteroidRun => m.disabled == Some(ship.id) && self.turn
                        >= REPAIR_ROUND && (exit == Seat::edge(m.rebel_side) || exit == Seat::edge(
                        m.imperial_side,
                    )),
                    MissionKind::DarkWhispers => self.side(ship.owner) == m.imperial_side
                        && ship.satellites > 0 && exit == Seat::edge(m.imperial_side)
                        && m.scanned(),
                }
            },
        }
    }

    pub open spec fn scanner_rule(self, sight: Sight, a: int, m: MissionModel) -> spec_fn(
        int,
    ) -> bool {
        |k: int|
            k == a || (!self.ships[k].destroyed && self.side(self.ships[k].owner) == m.rebel_side
                && self.ships[k].pose is Some && sight.at(a, k).contact)
    }

    pub open spec fn over_rule(over: Overlaps, places: Seq<usize>, k: int) -> spec_fn(int) -> bool {
        |j: int| over.at(places[j] as int, k)
    }

    pub open spec fn token_rule(m: MissionModel, over: Overlaps, places: Seq<usize>) -> spec_fn(
        int,
    ) -> bool {
        |k: int|
            m.satellites[k].afloat() && first(
                Game::over_rule(over, places, k),
                0,
                places.len() as int,
            ) is Some
    }

    /// The satellite that ship `a` scans: an Imperial ship overlapping a
    /// satellite token, or touching a Rebel ship that overlaps one.
    #[verifier::opaque]
    pub open spec fn scannable(self, sight: Sight, over: Overlaps, a: int) -> Option<usize> {
        match self.mission {
            None => None,
            Some(m) => if m.kind != MissionKind::DarkWhispers || self.side(self.ships[a].owner)
                != m.imperial_side || self.ships[a].pose is None {
                None
            } else {
                let places = picked(
                    self.scanner_rule(sight, a, m),
                    0,
                    self.ships.len() as int,
                );
                first(Game::token_rule(m, over, places), 0, m.satellites.len() as int)
            },
        }
    }

    /// Ship `a` takes the satellite.
    pub open spec fn scanning(self, a: int, k: int) -> Game {
        let m = self.mission->0;
        let taken = MissionModel {
            satellites: m.satellites.update(
                k,
                Satellite { holder: Some(self.ships[a].id), ..m.satellites[k] },
            ),
            ..m
        };
        Game {
            mission: Some(taken),
            ..self.with_ship(
                a,
                ShipModel { satellites: sat(self.ships[a].satellites + 1), ..self.ships[a] },
            )
        }.saying(
            Event::Scans(a as usize, m.satellites[k].id, (afloat(taken.satellites) % 0x1_0000_0000) as u32),
        )
    }

    pub open spec fn flying_rule(self, side: u8) -> spec_fn(int) -> bool {
        |k: int| !self.ships[k].destroyed && self.side(self.ships[k].owner) == side
    }

    pub open spec fn home_rule(self, side: u8) -> spec_fn(int) -> bool {
        |k: int|
            self.ships[k].escaped && self.ships[k].satellites > 0 && self.side(
                self.ships[k].owner,
            ) == side
    }

    /// A satellite token is in the supply, or about to return to it.
    pub open spec fn supplied(self, s: Satellite) -> bool {
        s.supply || (s.holder is Some && self.lost(s.holder->0))
    }

    pub open spec fn loose_rule(self, m: MissionModel) -> spec_fn(int) -> bool {
        |k: int| !self.supplied(m.satellites[k])
    }

    /// Who wins by what became of a ship: the Rebels if it escaped, the
    /// Empire if it was destroyed.
    pub open spec fn decided_by(self, id: Option<ShipId>, m: MissionModel) -> Option<u8> {
        match id {
            None => None,
            Some(id) => match self.index(id) {
                None => None,
                Some(k) => if self.ships[k as int].escaped {
                    Some(m.rebel_side)
                } else if self.ships[k as int].destroyed {
                    Some(m.imperial_side)
                } else {
                    None
                },
            },
        }
    }

    /// Who has fulfilled their objective (side index), if anyone.
    #[verifier::opaque]
    pub open spec fn objective(self) -> Option<u8> {
        match self.mission {
            None => None,
            Some(m) => match m.kind {
                MissionKind::PoliticalEscort => self.decided_by(m.shuttle, m),
                MissionKind::AsteroidRun => self.decided_by(m.disabled, m),
                MissionKind::DarkWhispers => if first(
                    self.home_rule(m.imperial_side),
                    0,
                    self.ships.len() as int,
                ) is Some {
                    Some(m.imperial_side)
                } else if first(self.loose_rule(m), 0, m.satellites.len() as int) is None || first(
                    self.flying_rule(m.imperial_side),
                    0,
                    self.ships.len() as int,
                ) is None {
                    Some(m.rebel_side)
                } else {
                    None
                },
            },
        }
    }

    /// Satellites from `k` on whose holder was lost go back to the supply.
    pub open spec fn returning(self, k: int) -> Game
        decreases self.mission->0.satellites.len() - k,
        when 0 <= k
    {
        let m = self.mission->0;
        if self.mission is None || k >= m.satellites.len() {
            self
        } else if m.satellites[k].holder is Some && self.lost(m.satellites[k].holder->0) {
            Game {
                mission: Some(
                    MissionModel {
                        satellites: m.satellites.update(
                            k,
                            Satellite { holder: None, supply: true, ..m.satellites[k] },
                        ),
                        ..m
                    },
                ),
                ..self
            }.saying(Event::SatelliteReturns(m.satellites[k].id)).returning(k + 1)
        } else {
            self.returning(k + 1)
        }
    }

    pub open spec fn unreplaced_rule(self, m: MissionModel) -> spec_fn(int) -> bool {
        |k: int|
            self.ships[k].destroyed && !self.ships[k].escaped && self.side(self.ships[k].owner)
                == m.flies(m.reinforcing) && !m.reinforced.contains(self.ships[k].id)
    }

    /// One reinforcement arrives for a lost ship.
    pub open spec fn arriving(
        self,
        lost: ShipId,
        owner: PlayerId,
        class: ShipClass,
        pilot: Pilot,
    ) -> Game {
        let m = self.mission->0;
        let n = if m.spawned < u32::MAX {
            (m.spawned + 1) as u32
        } else {
            m.spawned
        };
        let ship = ShipModel::fresh(
            ShipId((self.ships.len() % 0x1_0000_0000) as u32),
            owner,
            class.id,
            pilot.id,
            reserve_name(n),
            class.hull,
            class.shields,
        );
        Game {
            mission: Some(
                MissionModel { reinforced: m.reinforced.push(lost), spawned: n, ..m },
            ),
            ships: self.ships.push(ship),
            ..self
        }.saying(Event::Reinforcement(self.ships.len() as usize, pilot.id))
    }

    /// Reinforcements for the ships at the places from `k` on.
    pub open spec fn reinforcing(
        self,
        places: Seq<usize>,
        k: int,
        owner: PlayerId,
        class: ShipClass,
        pilot: Pilot,
    ) -> Game
        decreases places.len() - k,
    {
        if k >= places.len() {
            self
        } else {
            self.arriving(
                self.ships[places[k] as int].id,
                owner,
                class,
                pilot,
            ).reinforcing(places, k + 1, owner, class, pilot)
        }
    }

    /// The reinforcing side gets one generic pilot per ship it lost this
    /// round.
    #[verifier::opaque]
    pub open spec fn reserves_called(self, content: Content) -> Game {
        match self.mission {
            None => self,
            Some(m) => {
                let lost = picked(self.unreplaced_rule(m), 0, self.ships.len() as int);
                match m.reserve {
                    None => self,
                    Some(id) => match content.flyer(id) {
                        None => self,
                        Some(pilot) => match content.chassis(pilot.class) {
                            None => self,
                            Some(class) => self.reinforcing(
                                lost,
                                0,
                                seat_from(self.teams, m.flies(m.reinforcing), 0, 0),
                                class,
                                pilot,
                            ),
                        },
                    },
                }
            },
        }
    }

    /// End phase: satellites on destroyed ships go back to the supply, and
    /// reinforcements are called for.
    pub open spec fn mission_ended(self, content: Content) -> Game {
        self.returning(0).reserves_called(content)
    }
}

/// A count as far as 32 bits go.
pub fn low32(n: usize) -> (low: u32)
    ensures
        low == n as int % 0x1_0000_0000,
{
    ((n as u64) % 0x1_0000_0000) as u32
}

/// Does one of the ships at the places overlap the satellite?
fn any_over(over: &Overlaps, places: &Vec<usize>, k: usize) -> (yes: bool)
    ensures
        yes == (first(
            Game::over_rule(*over, places@, k as int),
            0,
            places@.len() as int,
        ) is Some),
{
    let under = |j: usize| -> (yes: bool)
        requires
            j < places@.len(),
        ensures
            yes == obeys(Game::over_rule(*over, places@, k as int), j),
    { over.overlaps(places[j], k) };
    find(places.len(), under, Ghost(Game::over_rule(*over, places@, k as int))).is_some()
}

/// The first seat of a side.
pub fn find_seat(teams: &Vec<u8>, side: u8, fallback: u32) -> (seat: PlayerId)
    ensures
        seat == seat_from(teams@, side, 0, fallback),
{
    let mut k: usize = 0;
    while k < teams.len()
        invariant
            k <= teams.len(),
            seat_from(teams@, side, k as int, fallback) == seat_from(teams@, side, 0, fallback),
        decreases teams.len() - k,
    {
        if teams[k] == side {
            return PlayerId(low32(k));
        }
        k = k + 1;
    }
    PlayerId(fallback)
}

/// The first seat of a side is a seat, or the first of all.
pub proof fn seat_from_is_a_seat(teams: Seq<u8>, side: u8, k: int, seats: nat)
    requires
        0 <= k,
        teams.len() <= seats,
        seats > 0,
    ensures
        seat_from(teams, side, k, 0).0 < seats,
    decreases teams.len() - k,
{
    if k < teams.len() && teams[k] != side {
        seat_from_is_a_seat(teams, side, k + 1, seats);
    }
}

fn count_afloat(s: &Vec<Satellite>) -> (n: usize)
    ensures
        n == afloat(s@),
{
    let mut n: usize = 0;
    let mut i: usize = 0;
    while i < s.len()
        invariant
            n <= i <= s.len(),
            n == afloat(s@.take(i as int)),
        decreases s.len() - i,
    {
        assert(s@.take(i + 1).drop_last() =~= s@.take(i as int));
        if s[i].on_board() {
            n = n + 1;
        }
        i = i + 1;
    }
    assert(s@.take(i as int) =~= s@);
    n
}

fn has_ship(ids: &Vec<ShipId>, id: ShipId) -> (found: bool)
    ensures
        found == ids@.contains(id),
{
    let mut i: usize = 0;
    while i < ids.len()
        invariant
            i <= ids.len(),
            forall|k: int| 0 <= k < i ==> ids@[k] != id,
        decreases ids.len() - i,
    {
        if ids[i] == id {
            assert(ids@[i as int] == id);
            return true;
        }
        i = i + 1;
    }
    false
}

impl GameState {
    fn is_lost(&self, id: ShipId) -> (yes: bool)
        ensures
            yes == self@.lost(id),
    {
        let test = |k: usize| -> (yes: bool)
            requires
                k < self@.ships.len(),
            ensures
                yes == obeys(self@.lost_rule(id), k),
        { self.ships[k].id == id && self.ships[k].destroyed && !self.ships[k].escaped };
        find(self.ships.len(), test, Ghost(self@.lost_rule(id))).is_some()
    }

    /// May the ship at `i`, leaving the board over `exit`, escape instead
    /// of being destroyed (p.22-24 "not considered destroyed")?
    pub fn mission_escape(&self, i: usize, exit: Seat) -> (yes: bool)
        requires
            i < self@.ships.len(),
        ensures
            yes == self@.escapes(i as int, exit),
    {
        let m = match &self.mission {
            None => return false,
            Some(m) => m,
        };
        let ship = &self.ships[i];
        let imperial_edge = Seat::for_side(m.imperial_side, 2);
        let rebel_edge = Seat::for_side(m.rebel_side, 2);
        match m.kind {
            MissionKind::PoliticalEscort => m.shuttle == Some(ship.id) && exit == imperial_edge,
            MissionKind::AsteroidRun => {
                m.disabled == Some(ship.id) && self.turn >= REPAIR_ROUND && (exit == rebel_edge
                    || exit == imperial_edge)
            },
            MissionKind::DarkWhispers => {
                self.team(ship.owner) == m.imperial_side && ship.satellites > 0 && exit
                    == imperial_edge && m.all_scanned()
            },
        }
    }

    fn find_scan(&self, sight: &Sight, over: &Overlaps, a: usize) -> (place: Option<usize>)
        requires
            a < self@.ships.len(),
        ensures
            place == self@.scannable(*sight, *over, a as int),
            place is Some ==> self@.mission is Some && place->0 < self@.mission->0.satellites.len(),
    {
        reveal(Game::scannable);
        let m = match &self.mission {
            None => return None,
            Some(m) => m,
        };
        if m.kind != MissionKind::DarkWhispers || self.team(self.ships[a].owner)
            != m.imperial_side || self.ships[a].pose.is_none() {
            return None;
        }
        // Bases the scan may reach through: the ship's own, plus every
        // touching Rebel base.
        let reach = |k: usize| -> (yes: bool)
            requires
                k < self@.ships.len(),
            ensures
                yes == obeys(self@.scanner_rule(*sight, a as int, m@), k),
        {
            k == a || (!self.ships[k].destroyed && self.team(self.ships[k].owner) == m.rebel_side
                && self.ships[k].pose.is_some() && sight.line(a, k).contact)
        };
        let places = pick(
            self.ships.len(),
            reach,
            Ghost(self@.scanner_rule(*sight, a as int, m@)),
        );
        let token = |k: usize| -> (yes: bool)
            requires
                k < m@.satellites.len(),
            ensures
                yes == obeys(Game::token_rule(m@, *over, places@), k),
        { m.satellites[k].on_board() && any_over(over, &places, k) };
        find(m.satellites.len(), token, Ghost(Game::token_rule(m@, *over, places@)))
    }

    /// Mission 3: an Imperial ship overlapping a satellite token, or
    /// touching a Rebel ship that overlaps one, scans it instead of
    /// attacking. Policy: always scan when possible (one token per
    /// Combat phase). Says whether a scan happened.
    pub fn mission_scan(&mut self, sight: &Sight, over: &Overlaps, a: usize) -> (scanned: bool)
        requires
            a < old(self)@.ships.len(),
        ensures
            scanned == (old(self)@.scannable(*sight, *over, a as int) is Some),
            final(self)@ == (match old(self)@.scannable(*sight, *over, a as int) {
                Some(k) => old(self)@.scanning(a as int, k as int),
                None => old(self)@,
            }),
            final(self)@.combat == old(self)@.combat,
            final(self)@.ships.len() == old(self)@.ships.len(),
            forall|content: Content|
                #[trigger] old(self)@.known(content) ==> final(self)@.known(content),
    {
        let k: usize = match self.find_scan(sight, over, a) {
            None => return false,
            Some(k) => k,
        };
        let id = self.ships[a].id;
        let mut left: usize = 0;
        let mut num: u32 = 0;
        if let Some(m) = &mut self.mission {
            num = m.satellites[k].id;
            let mut token = m.satellites[k];
            token.holder = Some(id);
            m.satellites.set(k, token);
            left = count_afloat(&m.satellites);
        }
        let s = self.ship_mut(a);
        s.satellites = s.satellites.saturating_add(1);
        self.say(Event::Scans(a, num, low32(left)));
        assert(self@.frame().ships =~= old(self)@.frame().ships);
        true
    }

    fn flies_for(&self, side: u8) -> (yes: bool)
        ensures
            yes == (first(self@.flying_rule(side), 0, self@.ships.len() as int) is Some),
    {
        let test = |k: usize| -> (yes: bool)
            requires
                k < self@.ships.len(),
            ensures
                yes == obeys(self@.flying_rule(side), k),
        { !self.ships[k].destroyed && self.team(self.ships[k].owner) == side };
        find(self.ships.len(), test, Ghost(self@.flying_rule(side))).is_some()
    }

    fn came_home(&self, side: u8) -> (yes: bool)
        ensures
            yes == (first(self@.home_rule(side), 0, self@.ships.len() as int) is Some),
    {
        let test = |k: usize| -> (yes: bool)
            requires
                k < self@.ships.len(),
            ensures
                yes == obeys(self@.home_rule(side), k),
        {
            self.ships[k].escaped && self.ships[k].satellites > 0 && self.team(self.ships[k].owner)
                == side
        };
        find(self.ships.len(), test, Ghost(self@.home_rule(side))).is_some()
    }

    fn any_loose(&self, m: &MissionState) -> (yes: bool)
        ensures
            yes == (first(self@.loose_rule(m@), 0, m@.satellites.len() as int) is Some),
    {
        let test = |k: usize| -> (yes: bool)
            requires
                k < m@.satellites.len(),
            ensures
                yes == obeys(self@.loose_rule(m@), k),
        {
            !(m.satellites[k].supply || match m.satellites[k].holder {
                Some(h) => self.is_lost(h),
                None => false,
            })
        };
        find(m.satellites.len(), test, Ghost(self@.loose_rule(m@))).is_some()
    }

    fn decide_by(&self, id: Option<ShipId>, m: &MissionState) -> (side: Option<u8>)
        ensures
            side == self@.decided_by(id, m@),
    {
        match id {
            None => None,
            Some(id) => match self.find_ship(id) {
                None => None,
                Some(k) => {
                    if self.ships[k].escaped {
                        Some(m.rebel_side)
                    } else if self.ships[k].destroyed {
                        Some(m.imperial_side)
                    } else {
                        None
                    }
                },
            },
        }
    }

    /// Who has fulfilled their objective (side index), if anyone.
    pub fn mission_winner(&self) -> (side: Option<u8>)
        ensures
            side == self@.objective(),
    {
        reveal(Game::objective);
        let m = match &self.mission {
            None => return None,
            Some(m) => m,
        };
        match m.kind {
            MissionKind::PoliticalEscort => self.decide_by(m.shuttle, m),
            MissionKind::AsteroidRun => self.decide_by(m.disabled, m),
            MissionKind::DarkWhispers => {
                if self.came_home(m.imperial_side) {
                    Some(m.imperial_side)
                } else if !self.any_loose(m) || !self.flies_for(m.imperial_side) {
                    Some(m.rebel_side)
                } else {
                    None
                }
            },
        }
    }

    fn return_satellites(&mut self)
        ensures
            final(self)@ == old(self)@.returning(0),
            final(self)@.ships == old(self)@.ships,
            final(self)@.phase == old(self)@.phase,
            final(self)@.turn == old(self)@.turn,
            final(self)@.committed == old(self)@.committed,
            forall|content: Content|
                #[trigger] old(self)@.known(content) ==> final(self)@.known(content),
    {
        let n: usize = match &self.mission {
            None => return ,
            Some(m) => m.satellites.len(),
        };
        let mut k: usize = 0;
        while k < n
            invariant
                k <= n,
                self@.mission is Some,
                self@.mission->0.satellites.len() == n,
                self@.mission->0.reserve == old(self)@.mission->0.reserve,
                self@.ships == old(self)@.ships,
                self@.phase == old(self)@.phase,
                self@.turn == old(self)@.turn,
                self@.committed == old(self)@.committed,
                self@.teams == old(self)@.teams,
                self@.initiative == old(self)@.initiative,
                self@.white_reds == old(self)@.white_reds,
                self@.returning(k as int) == old(self)@.returning(0),
            decreases n - k,
        {
            let holder = match &self.mission {
                Some(m) => m.satellites[k].holder,
                None => None,
            };
            if let Some(h) = holder {
                if self.is_lost(h) {
                    let mut num: u32 = 0;
                    if let Some(m) = &mut self.mission {
                        num = m.satellites[k].id;
                        let mut token = m.satellites[k];
                        token.holder = None;
                        token.supply = true;
                        m.satellites.set(k, token);
                    }
                    self.say(Event::SatelliteReturns(num));
                }
            }
            k = k + 1;
        }
        assert(self@.frame().ships == old(self)@.frame().ships);
    }

    fn find_unreplaced(&self, m: &MissionState) -> (places: Vec<usize>)
        ensures
            places@ == picked(self@.unreplaced_rule(m@), 0, self@.ships.len() as int),
            forall|k: int| 0 <= k < places@.len() ==> #[trigger] places@[k] < self@.ships.len(),
    {
        let side: u8 = m.side_of(m.reinforcing);
        let test = |k: usize| -> (yes: bool)
            requires
                k < self@.ships.len(),
            ensures
                yes == obeys(self@.unreplaced_rule(m@), k),
        {
            self.ships[k].destroyed && !self.ships[k].escaped && self.team(self.ships[k].owner)
                == side && !has_ship(&m.reinforced, self.ships[k].id)
        };
        pick(self.ships.len(), test, Ghost(self@.unreplaced_rule(m@)))
    }

    fn arrive(&mut self, lost: ShipId, owner: PlayerId, class: &ShipClass, pilot: &Pilot)
        requires
            old(self)@.mission is Some,
        ensures
            final(self)@ == old(self)@.arriving(lost, owner, *class, *pilot),
    {
        let mut n: u32 = 0;
        if let Some(m) = &mut self.mission {
            m.reinforced.push(lost);
            if m.spawned < u32::MAX {
                m.spawned = m.spawned + 1;
            }
            n = m.spawned;
        }
        let number = decimal(n as usize);
        let callsign = String::from_str("Reserve-").concat(number.as_str());
        let place: usize = self.ships.len();
        let ship = ShipState::new(
            ShipId(low32(place)),
            owner,
            class.id,
            pilot.id,
            callsign,
            class.hull,
            class.shields,
        );
        let ghost before = self.ships@;
        self.ships.push(ship);
        assert(crate::game::state::views(self.ships@) =~= crate::game::state::views(before).push(
            ship@,
        ));
        self.say(Event::Reinforcement(place, pilot.id));
    }

    fn call_reserves(&mut self, content: &Content)
        requires
            old(self)@.known(*content),
        ensures
            final(self)@ == old(self)@.reserves_called(*content),
            final(self)@.committed == old(self)@.committed,
            final(self)@.phase == old(self)@.phase,
            final(self)@.turn == old(self)@.turn,
            final(self)@.known(*content),
    {
        reveal(Game::reserves_called);
        let ghost start = self@;
        let (places, reserve, side) = match &self.mission {
            None => return ,
            Some(m) => (self.find_unreplaced(m), m.reserve, m.side_of(m.reinforcing)),
        };
        let id = match reserve {
            None => return ,
            Some(id) => id,
        };
        let pilot = match content.pilots.pilot(id) {
            None => return ,
            Some(pilot) => pilot,
        };
        let class = match content.ships.class(pilot.class) {
            None => return ,
            Some(class) => class,
        };
        let owner = find_seat(&self.teams, side, 0);
        proof {
            seat_from_is_a_seat(self@.teams, side, 0, self@.white_reds.len());
            class_keeps_its_id(content.ships.classes@, pilot.class);
        }
        let mut k: usize = 0;
        while k < places.len()
            invariant
                k <= places.len(),
                self@.mission is Some,
                self@.mission->0.reserve == Some(id),
                self@.committed == start.committed,
                self@.phase == start.phase,
                self@.turn == start.turn,
                self@.teams == start.teams,
                self@.initiative == start.initiative,
                self@.white_reds == start.white_reds,
                self@.ships.len() == start.ships.len() + k,
                self@.known(*content),
                self@.reinforcing(places@, k as int, owner, *class, *pilot) == start.reinforcing(
                    places@,
                    0,
                    owner,
                    *class,
                    *pilot,
                ),
            decreases places.len() - k,
        {
            let lost = self.ships[places[k]].id;
            let ghost before = self@;
            self.arrive(lost, owner, class, pilot);
            k = k + 1;
            assert forall|j: int| 0 <= j < self@.frame().ships.len() implies {
                let s = #[trigger] self@.frame().ships[j];
                &&& content.chassis(s.class) is Some
                &&& content.has_dial(s.class)
                &&& s.owner.0 < self@.frame().seats
            } by {
                if j < before.ships.len() {
                    assert(self@.frame().ships[j] == before.frame().ships[j]);
                }
            }
        }
    }

    /// End phase: satellites on destroyed ships go back to the supply,
    /// and the reinforcing side gets one generic pilot per ship it lost
    /// this round, to be placed before the next Planning phase
    /// (policy: reinforcements are always called for).
    pub fn mission_end_phase(&mut self, content: &Content)
        requires
            old(self)@.known(*content),
        ensures
            final(self)@ == old(self)@.mission_ended(*content),
            final(self)@.committed == old(self)@.committed,
            final(self)@.phase == old(self)@.phase,
            final(self)@.turn == old(self)@.turn,
            final(self)@.known(*content),
    {
        self.return_satellites();
        self.call_reserves(content);
    }
}

/// A chassis that is found has the id that it was looked up by.
pub proof fn class_keeps_its_id(s: Seq<ShipClass>, id: crate::ship::ShipClassId)
    ensures
        crate::data::find_class(s, id) is Some ==> crate::data::find_class(s, id)->0.id == id,
    decreases s.len(),
{
    if s.len() > 0 && s[0].id != id {
        class_keeps_its_id(s.skip(1), id);
    }
}

} // verus!
