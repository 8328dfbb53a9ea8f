//! The commands of the Placement phase.

#![verifier::loop_isolation(false)]

use vstd::prelude::*;
use vstd::string::*;

use crate::board::Seat;
use crate::data::Content;
use crate::game::blasts::{is_marked, marked};
use crate::game::rejection::Rejection;
use crate::game::state::{Game, GameState, Phase};
use crate::geometry::Pose;
use crate::mission::MissionKind;
use crate::pick::{find, first, obeys};
use crate::ship::{Faction, PlayerId, ShipId, ShipModel};
use crate::sight::Sight;
use crate::text::{alike, is_alike};
use crate::upgrade::UpgradeEffect;

verus! {

broadcast use crate::game::state::framing;

/// A pose for a ship, and what is measured there. Ships are marked by their
/// places in the game's list.
#[derive(Debug, Clone, PartialEq, Eq)]
pub struct Spot {
    pub pose: Pose,
    /// The base is inside a deployment zone of the player.
    pub in_zone: bool,
    /// The base overlaps the ship.
    pub overlaps: Vec<bool>,
    /// The ship is within Range 1-3.
    pub reaches: Vec<bool>,
    /// The base overlaps an obstacle token.
    pub on_obstacle: bool,
    /// An obstacle is within Range 1.
    pub near_obstacle: bool,
    /// The lines between the ships once this one stands there.
    pub after: Sight,
}

/// Where a player may place ships.
#[derive(Debug, Clone, Copy, PartialEq, Eq, Structural)]
pub enum Area {
    WholeBoard,
    /// The standard deployment band along an edge.
    Band(Seat),
    /// The zones of a mission: for a faction, from its own edge and the
    /// other's, at setup or later.
    Mission { kind: MissionKind, faction: Faction, own: Seat, other: Seat, later: bool },
}

impl Game {
    pub open spec fn waiting_rule(self) -> spec_fn(int) -> bool {
        |k: int| !self.ships[k].late_setup && self.ships[k].pose is None
    }

    pub open spec fn late_rule(self) -> spec_fn(int) -> bool {
        |k: int| self.ships[k].late_setup && self.ships[k].pose is None
    }

    /// Setup has reached the late placements (Han Solo, HotR): every ordinary
    /// ship is down, and poses are public from here on.
    pub open spec fn late_pending(self) -> bool {
        self.turn == 1 && self.phase == Phase::Placement && first(
            self.waiting_rule(),
            0,
            self.ships.len() as int,
        ) is None && first(self.late_rule(), 0, self.ships.len() as int) is Some
    }

    pub open spec fn own_late_rule(self, player: PlayerId) -> spec_fn(int) -> bool {
        |k: int|
            self.ships[k].owner == player && self.ships[k].late_setup && self.ships[k].pose is None
    }

    /// Where a player may place ships right now: the whole board for a late
    /// placement, the mission's zones, or the standard deployment band.
    pub open spec fn deploy_area(self, player: PlayerId) -> Area {
        if self.late_pending() && first(
            self.own_late_rule(player),
            0,
            self.ships.len() as int,
        ) is Some {
            Area::WholeBoard
        } else {
            let side = self.side(player);
            match self.mission {
                None => Area::Band(Seat::edge(side)),
                Some(m) => Area::Mission {
                    kind: m.kind,
                    faction: if side == m.rebel_side {
                        Faction::RebelAlliance
                    } else {
                        Faction::Empire
                    },
                    own: Seat::edge(side),
                    other: Seat::edge((1 - side) as u8),
                    later: self.turn > 1,
                },
            }
        }
    }

    pub open spec fn close_enemy_rule(self, player: PlayerId, reaches: Seq<bool>) -> spec_fn(
        int,
    ) -> bool {
        |k: int|
            !self.ships[k].destroyed && !self.friends(self.ships[k].owner, player)
                && self.ships[k].pose is Some && marked(reaches, k)
    }

    pub open spec fn overlap_rule(self, player: PlayerId, id: ShipId, overlaps: Seq<bool>) -> spec_fn(
        int,
    ) -> bool {
        |k: int|
            self.friends(self.ships[k].owner, player) && self.ships[k].id != id
                && !self.ships[k].destroyed && self.ships[k].pose is Some && marked(overlaps, k)
    }

    /// Mission 2: Rebel ships deploy beyond Range 1 of every asteroid.
    pub open spec fn keeps_clear(self, player: PlayerId) -> bool {
        self.turn == 1 && self.mission is Some && self.mission->0.kind == MissionKind::AsteroidRun
            && self.side(player) == self.mission->0.rebel_side
    }

    /// Why a ship cannot be placed on the spot.
    pub open spec fn place_refused(self, player: PlayerId, id: ShipId, spot: Spot) -> Option<
        Rejection,
    > {
        if self.phase != Phase::Placement {
            Some(Rejection::WrongPhase)
        } else {
            match self.index(id) {
                None => Some(Rejection::NoSuchShip),
                Some(i) => {
                    let late = self.ships[i as int].late_setup && self.turn == 1;
                    let n = self.ships.len() as int;
                    if self.ships[i as int].owner != player {
                        Some(Rejection::NotYourShip)
                    } else if late && !self.late_pending() {
                        Some(Rejection::PlaceLast)
                    } else if late && first(
                        self.close_enemy_rule(player, spot.reaches@),
                        0,
                        n,
                    ) is Some {
                        Some(Rejection::TooCloseToEnemy)
                    } else if !spot.in_zone {
                        Some(Rejection::OutOfZone)
                    } else if first(self.overlap_rule(player, id, spot.overlaps@), 0, n) is Some {
                        Some(Rejection::OverlapsShip)
                    } else if spot.on_obstacle {
                        Some(Rejection::OverlapsObstacle)
                    } else if self.keeps_clear(player) && spot.near_obstacle {
                        Some(Rejection::TooCloseToObstacle)
                    } else {
                        None
                    }
                },
            }
        }
    }

    pub open spec fn homeless_rule(self) -> spec_fn(int) -> bool {
        |k: int| self.ships[k].pose is None
    }

    /// Each of the ships from the `k`-th on gets a focus token.
    pub open spec fn focused_from(self, places: Seq<usize>, k: int) -> Game
        decreases places.len() - k,
    {
        if k < 0 || k >= places.len() {
            self
        } else {
            self.with_ship(
                places[k] as int,
                self.ships[places[k] as int].with_focus(),
            ).focused_from(places, k + 1)
        }
    }

    /// Hyperwave Comm Scanner on ship `k`: every other friendly ship placed
    /// at Range 1-2 gets a token.
    pub open spec fn scanner(self, content: Content, sight: Sight, k: int) -> Game {
        if self.has(content, k, UpgradeEffect::SetupSkillOverride) {
            self.focused_from(self.near(sight, k, 2), 0)
        } else {
            self
        }
    }

    pub open spec fn scanner_by(self, content: Content, sight: Sight, n: int) -> Game
        decreases n,
    {
        if n <= 0 {
            self
        } else {
            self.scanner_by(content, sight, n - 1).scanner(content, sight, n - 1)
        }
    }

    /// A ship is placed; once every ship is, planning begins.
    #[verifier::opaque]
    pub open spec fn placed(self, content: Content, i: int, spot: Spot) -> Game {
        let n = self.ships.len() as int;
        let g = self.with_ship(i, ShipModel { pose: Some(spot.pose), ..self.ships[i] });
        if first(g.homeless_rule(), 0, n) is Some {
            g
        } else {
            let h = if g.turn == 1 {
                g.scanner_by(content, spot.after, n)
            } else {
                g
            };
            Game { phase: Phase::Planning, ..h }
        }
    }

    pub open spec fn namesake_rule(self, id: ShipId, name: Seq<char>) -> spec_fn(int) -> bool {
        |k: int| self.ships[k].id != id && alike(self.ships[k].callsign, name)
    }

    /// Why a ship cannot be renamed; the text of a bad callsign is given
    /// apart.
    pub open spec fn rename_refused(self, player: PlayerId, id: ShipId) -> Option<Rejection> {
        if self.phase != Phase::Placement {
            Some(Rejection::WrongPhase)
        } else {
            match self.index(id) {
                None => Some(Rejection::NoSuchShip),
                Some(i) => if self.ships[i as int].owner != player {
                    Some(Rejection::NotYourShip)
                } else {
                    None
                },
            }
        }
    }

    /// Another ship bears the name, but for the case of letters.
    pub open spec fn name_taken(self, id: ShipId, name: Seq<char>) -> bool {
        first(self.namesake_rule(id, name), 0, self.ships.len() as int) is Some
    }
}

impl GameState {
    fn any_waiting(&self) -> (yes: bool)
        ensures
            yes == (first(self@.waiting_rule(), 0, self@.ships.len() as int) is Some),
    {
        let test = |k: usize| -> (yes: bool)
            requires
                k < self@.ships.len(),
            ensures
                yes == obeys(self@.waiting_rule(), k),
        { !self.ships[k].late_setup && self.ships[k].pose.is_none() };
        find(self.ships.len(), test, Ghost(self@.waiting_rule())).is_some()
    }

    fn any_late(&self) -> (yes: bool)
        ensures
            yes == (first(self@.late_rule(), 0, self@.ships.len() as int) is Some),
    {
        let test = |k: usize| -> (yes: bool)
            requires
                k < self@.ships.len(),
            ensures
                yes == obeys(self@.late_rule(), k),
        { self.ships[k].late_setup && self.ships[k].pose.is_none() };
        find(self.ships.len(), test, Ghost(self@.late_rule())).is_some()
    }

    /// Setup has reached the late placements (Han Solo, HotR): every
    /// ordinary ship is down, and poses are public from here on.
    pub fn late_setup_pending(&self) -> (yes: bool)
        ensures
            yes == self@.late_pending(),
    {
        self.turn == 1 && self.phase == Phase::Placement && !self.any_waiting() && self.any_late()
    }

    fn any_own_late(&self, player: PlayerId) -> (yes: bool)
        ensures
            yes == (first(self@.own_late_rule(player), 0, self@.ships.len() as int) is Some),
    {
        let test = |k: usize| -> (yes: bool)
            requires
                k < self@.ships.len(),
            ensures
                yes == obeys(self@.own_late_rule(player), k),
        {
            self.ships[k].owner == player && self.ships[k].late_setup && self.ships[k].pose.is_none()
        };
        find(self.ships.len(), test, Ghost(self@.own_late_rule(player))).is_some()
    }

    /// Where `player` may place ships right now: the mission's zones,
    /// or the standard deployment band.
    pub fn deploy_zones(&self, player: PlayerId) -> (area: Area)
        requires
            self@.deploy_area(player) is Mission ==> self@.side(player) <= 1,
        ensures
            area == self@.deploy_area(player),
    {
        if self.late_setup_pending() && self.any_own_late(player) {
            return Area::WholeBoard;
        }
        let side: u8 = self.team(player);
        let own = Seat::for_side(side, 2);
        match &self.mission {
            None => Area::Band(own),
            Some(m) => Area::Mission {
                kind: m.kind,
                faction: m.faction_of_side(side),
                own,
                other: Seat::for_side(1 - side, 2),
                later: self.turn > 1,
            },
        }
    }

    fn any_close_enemy(&self, player: PlayerId, reaches: &Vec<bool>) -> (yes: bool)
        ensures
            yes == (first(
                self@.close_enemy_rule(player, reaches@),
                0,
                self@.ships.len() as int,
            ) is Some),
    {
        let test = |k: usize| -> (yes: bool)
            requires
                k < self@.ships.len(),
            ensures
                yes == obeys(self@.close_enemy_rule(player, reaches@), k),
        {
            !self.ships[k].destroyed && !self.allied(self.ships[k].owner, player)
                && self.ships[k].pose.is_some() && is_marked(reaches, k)
        };
        find(self.ships.len(), test, Ghost(self@.close_enemy_rule(player, reaches@))).is_some()
    }

    fn any_overlap(&self, player: PlayerId, id: ShipId, overlaps: &Vec<bool>) -> (yes: bool)
        ensures
            yes == (first(
                self@.overlap_rule(player, id, overlaps@),
                0,
                self@.ships.len() as int,
            ) is Some),
    {
        let test = |k: usize| -> (yes: bool)
            requires
                k < self@.ships.len(),
            ensures
                yes == obeys(self@.overlap_rule(player, id, overlaps@), k),
        {
            self.allied(self.ships[k].owner, player) && self.ships[k].id != id
                && !self.ships[k].destroyed && self.ships[k].pose.is_some() && is_marked(overlaps, k)
        };
        find(self.ships.len(), test, Ghost(self@.overlap_rule(player, id, overlaps@))).is_some()
    }

    fn must_keep_clear(&self, player: PlayerId) -> (yes: bool)
        ensures
            yes == self@.keeps_clear(player),
    {
        self.turn == 1 && match &self.mission {
            Some(m) => m.kind == MissionKind::AsteroidRun && self.team(player) == m.rebel_side,
            None => false,
        }
    }

    fn check_spot(&self, player: PlayerId, id: ShipId, spot: &Spot) -> (checked: Result<
        usize,
        Rejection,
    >)
        ensures
            match self@.place_refused(player, id, *spot) {
                Some(r) => checked == Err::<usize, Rejection>(r),
                None => checked is Ok && self@.index(id) == Some(checked->Ok_0) && checked->Ok_0
                    < self@.ships.len(),
            },
    {
        if self.phase != Phase::Placement {
            return Err(Rejection::WrongPhase);
        }
        let i: usize = match self.find_ship(id) {
            None => return Err(Rejection::NoSuchShip),
            Some(i) => i,
        };
        if self.ships[i].owner != player {
            return Err(Rejection::NotYourShip);
        }
        // Han Solo (HotR): after everyone else, in the open, beyond Range 3
        // of every enemy.
        if self.ships[i].late_setup && self.turn == 1 {
            if !self.late_setup_pending() {
                return Err(Rejection::PlaceLast);
            }
            if self.any_close_enemy(player, &spot.reaches) {
                return Err(Rejection::TooCloseToEnemy);
            }
        }
        if !spot.in_zone {
            return Err(Rejection::OutOfZone);
        }
        // Legality vs the player's OWN placed ships only — zones are
        // disjoint, and checking the opponent's would leak hidden info.
        if self.any_overlap(player, id, &spot.overlaps) {
            return Err(Rejection::OverlapsShip);
        }
        if spot.on_obstacle {
            return Err(Rejection::OverlapsObstacle);
        }
        // Mission 2: Rebel ships deploy beyond Range 1 of every asteroid
        // (the rulebook places the rocks around the ships; the rocks are
        // scattered first here, so the constraint is turned around).
        if self.must_keep_clear(player) && spot.near_obstacle {
            return Err(Rejection::TooCloseToObstacle);
        }
        Ok(i)
    }

    fn any_homeless(&self) -> (yes: bool)
        ensures
            yes == (first(self@.homeless_rule(), 0, self@.ships.len() as int) is Some),
    {
        let test = |k: usize| -> (yes: bool)
            requires
                k < self@.ships.len(),
            ensures
                yes == obeys(self@.homeless_rule(), k),
        { self.ships[k].pose.is_none() };
        find(self.ships.len(), test, Ghost(self@.homeless_rule())).is_some()
    }

    fn scan_setup(&mut self, content: &Content, sight: &Sight)
        ensures
            final(self)@ == old(self)@.scanner_by(
                *content,
                *sight,
                old(self)@.ships.len() as int,
            ),
            final(self)@.frame() == old(self)@.frame(),
    {
        let n: usize = self.ships.len();
        let mut k: usize = 0;
        while k < n
            invariant
                k <= n,
                n == self@.ships.len(),
                self@.frame() == old(self)@.frame(),
                self@ == old(self)@.scanner_by(*content, *sight, k as int),
            decreases n - k,
        {
            if self.has_effect(content, k, UpgradeEffect::SetupSkillOverride) {
                let friends = self.friends_within(sight, k, 2);
                let ghost before = self@;
                let mut j: usize = 0;
                while j < friends.len()
                    invariant
                        j <= friends.len(),
                        n == self@.ships.len(),
                        self@.frame() == old(self)@.frame(),
                        self@.focused_from(friends@, j as int) == before.focused_from(friends@, 0),
                    decreases friends.len() - j,
                {
                    self.add_focus(friends[j]);
                    j = j + 1;
                }
            }
            k = k + 1;
        }
    }

    /// Place (or re-place — allowed freely until the phase ends) a ship in
    /// the owner's deployment zone.
    pub fn place_ship(
        &mut self,
        content: &Content,
        player: PlayerId,
        ship_id: ShipId,
        spot: &Spot,
    ) -> (result: Result<(), Rejection>)
        ensures
            match old(self)@.place_refused(player, ship_id, *spot) {
                Some(r) => result == Err::<(), Rejection>(r) && final(self)@ == old(self)@,
                None => result is Ok && final(self)@ == old(self)@.placed(
                    *content,
                    old(self)@.index(ship_id)->0 as int,
                    *spot,
                ),
            },
            forall|c: Content| #[trigger] old(self)@.known(c) ==> final(self)@.known(c),
    {
        let i: usize = match self.check_spot(player, ship_id, spot) {
            Err(r) => return Err(r),
            Ok(i) => i,
        };
        reveal(Game::placed);
        self.ship_mut(i).pose = Some(spot.pose);
        if !self.any_homeless() {
            // Hyperwave Comm Scanner: at setup, every other friendly ship
            // placed at Range 1-2 gets a token (policy: focus). The skill
            // override for placement order has no meaning with hidden,
            // simultaneous placement.
            if self.turn == 1 {
                self.scan_setup(content, &spot.after);
            }
            let ghost before = self@;
            self.phase = Phase::Planning;
            assert(self@.frame().ships == before.frame().ships);
        }
        Ok(())
    }

    fn is_name_taken(&self, id: ShipId, name: &str) -> (yes: bool)
        ensures
            yes == self@.name_taken(id, name@),
    {
        let test = |k: usize| -> (yes: bool)
            requires
                k < self@.ships.len(),
            ensures
                yes == obeys(self@.namesake_rule(id, name@), k),
        { self.ships[k].id != id && is_alike(self.ships[k].callsign.as_str(), name) };
        find(self.ships.len(), test, Ghost(self@.namesake_rule(id, name@))).is_some()
    }

    /// Rename an own ship during Placement (squad formation). Callsigns
    /// must be unique across the game so the narration stays unambiguous.
    /// `checked` is the callsign in its proper form, or what is wrong with
    /// it.
    pub fn rename(
        &mut self,
        player: PlayerId,
        ship: ShipId,
        checked: Result<String, String>,
    ) -> (result: Result<(), Rejection>)
        ensures
            match old(self)@.rename_refused(player, ship) {
                Some(r) => result == Err::<(), Rejection>(r) && final(self)@ == old(self)@,
                None => match checked {
                    Err(why) => result == Err::<(), Rejection>(Rejection::BadCallsign(why))
                        && final(self)@ == old(self)@,
                    Ok(name) => if old(self)@.name_taken(ship, name@) {
                        &&& result is Err
                        &&& result->Err_0 is BadCallsign
                        &&& result->Err_0->BadCallsign_0@ == name@ + " is already taken"@
                        &&& final(self)@ == old(self)@
                    } else {
                        let i = old(self)@.index(ship)->0 as int;
                        result is Ok && final(self)@ == old(self)@.with_ship(
                            i,
                            ShipModel { callsign: name@, ..old(self)@.ships[i] },
                        )
                    },
                },
            },
            final(self)@.frame() == old(self)@.frame(),
    {
        if self.phase != Phase::Placement {
            return Err(Rejection::WrongPhase);
        }
        let i: usize = match self.find_ship(ship) {
            None => return Err(Rejection::NoSuchShip),
            Some(i) => i,
        };
        if self.ships[i].owner != player {
            return Err(Rejection::NotYourShip);
        }
        let name = match checked {
            Err(why) => return Err(Rejection::BadCallsign(why)),
            Ok(name) => name,
        };
        if self.is_name_taken(ship, name.as_str()) {
            return Err(Rejection::BadCallsign(name.concat(" is already taken")));
        }
        self.ship_mut(i).callsign = name;
        Ok(())
    }
}

} // verus!
