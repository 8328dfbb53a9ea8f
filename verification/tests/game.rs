//! Whole rounds on a measured table.

#![allow(dead_code)]

use std::f64::consts::{FRAC_PI_2, FRAC_PI_4, PI, TAU};

use sf_core::action::{
    boost_maneuver, ActionKind, ActionResult, BoostDir, PlannedAction, SecondActionKind, Side,
};
use sf_core::board::Seat;
use sf_core::bot::{choose_target, safe_maneuver, squad, BotView, Goal, Outlook, Plan, Tactic};
use sf_core::bombs::{BombHit, BombKind, BombToken, Detonation, DropSpots};
use sf_core::combat::{MAX_RANGE_BAND, MM_PER_UNIT, RANGE_BAND_MM};
use sf_core::crit::{draw, CritEffect};
use sf_core::data::{Content, ManeuverDb, PilotDb, ShipDb, UpgradeDb, XwsNames};
use sf_core::dice::{
    apply_damage, cancel, AttackFace, AttackRoll, DefenseFace, DefenseRoll, Dice,
};
use sf_core::event::{Event, Turner, Why};
use sf_core::game::actions::{Landing, Moves};
use sf_core::game::activation::{Activation, Facts, Outcome, Stage};
use sf_core::game::battle::{CombatStep, Survey};
use sf_core::game::blasts::{Salvo, SeismicBlast};
use sf_core::game::briefing::MissionError;
use sf_core::game::closing::Drag;
use sf_core::game::dial::Ends;
use sf_core::game::flight::{Crossing, Flight, Step as FlightStep};
use sf_core::game::missions::Overlaps;
use sf_core::game::order::{combat_order, initiative_seat, movement_order};
use sf_core::game::placement::{Area, Spot};
use sf_core::game::rejection::Rejection;
use sf_core::game::setup::SetupError;
use sf_core::game::snapshot::{MissionView, Reason, ShipView};
use sf_core::game::state::{
    AttackOption, AttackRecord, CombatState, GameState, PendingAttack, Phase, Shot,
};
use sf_core::maneuver::{
    plain, segments, BadManeuver, Difficulty, Maneuver, ManeuverSet, ManeuverSetId, Segment, Steer, Template,
};
use sf_core::mission::{sheet, MissionBrief, MissionKind, Satellite, REPAIR_ROUND};
use sf_core::obstacle::{Obstacle, ObstacleKind, Pull};
use sf_core::pilot::{Pilot, PilotAbility, PilotId, Source};
use sf_core::ship::{
    Faction, PlayerId, ShipClass, ShipClassId, ShipId, ShipState, StatBlock,
};
use sf_core::sight::{Line, Sight};
use sf_core::squad::{Squad, SquadShip};
use sf_core::text::{is_alike, is_same};
use sf_core::upgrade::{
    AttackRequirement, SecondaryWeapon, Slot, Upgrade, UpgradeEffect, UpgradeId,
};

/// A point of the table, in units of 40 mm.
#[derive(Debug, Clone, Copy, PartialEq)]
pub struct Vec2 {
    pub x: f64,
    pub y: f64,
}

impl Vec2 {
    pub const ZERO: Self = Self { x: 0.0, y: 0.0 };

    pub fn new(x: f64, y: f64) -> Self {
        Self { x, y }
    }

    pub fn dot(self, other: Self) -> f64 {
        self.x * other.x + self.y * other.y
    }

    /// Counter-clockwise perpendicular.
    pub fn perp(self) -> Self {
        Self::new(-self.y, self.x)
    }

    /// The point as the library carries it.
    pub fn bits(self) -> sf_core::geometry::Vec2 {
        sf_core::geometry::Vec2 { x: self.x.to_bits(), y: self.y.to_bits() }
    }

    pub fn from_bits(p: sf_core::geometry::Vec2) -> Self {
        Self::new(f64::from_bits(p.x), f64::from_bits(p.y))
    }
}

impl std::ops::Add for Vec2 {
    type Output = Self;
    fn add(self, o: Self) -> Self {
        Self::new(self.x + o.x, self.y + o.y)
    }
}

impl std::ops::Sub for Vec2 {
    type Output = Self;
    fn sub(self, o: Self) -> Self {
        Self::new(self.x - o.x, self.y - o.y)
    }
}

/// A ship's placement on the board: its front-center point, and its facing
/// in radians (0 = +X, counter-clockwise positive).
#[derive(Debug, Clone, Copy, PartialEq)]
pub struct Pose {
    pub anchor: Vec2,
    pub heading: f64,
}

impl Pose {
    pub fn new(x: f64, y: f64, heading: f64) -> Self {
        Self { anchor: Vec2::new(x, y), heading }
    }

    /// Map a point from the ship's local frame (origin at the anchor,
    /// +X ahead, +Y to port/left) into world coordinates.
    pub fn local_to_world(&self, local: Vec2) -> Vec2 {
        let (s, c) = self.heading.sin_cos();
        Vec2::new(
            self.anchor.x + c * local.x - s * local.y,
            self.anchor.y + s * local.x + c * local.y,
        )
    }

    /// Advance straight ahead by `dist` units.
    pub fn advanced(&self, dist: f64) -> Self {
        Self { anchor: self.local_to_world(Vec2::new(dist, 0.0)), heading: self.heading }
    }

    /// Rotate in place around the anchor; positive = left (CCW).
    pub fn rotated(&self, angle: f64) -> Self {
        Self { anchor: self.anchor, heading: self.heading + angle }
    }

    /// Follow a circular arc of the given centerline radius. `sweep` is the
    /// signed heading change in radians: positive = left, negative = right.
    pub fn arced(&self, radius: f64, sweep: f64) -> Self {
        let a = sweep.abs();
        let side = if sweep >= 0.0 { 1.0 } else { -1.0 };
        let local = Vec2::new(radius * a.sin(), side * radius * (1.0 - a.cos()));
        Self { anchor: self.local_to_world(local), heading: self.heading + sweep }
    }

    /// The pose as the library carries it.
    pub fn bits(self) -> sf_core::geometry::Pose {
        sf_core::geometry::Pose { anchor: self.anchor.bits(), heading: self.heading.to_bits() }
    }

    pub fn from_bits(p: sf_core::geometry::Pose) -> Self {
        Self { anchor: Vec2::from_bits(p.anchor), heading: f64::from_bits(p.heading) }
    }
}

/// Ship footprint: a rectangle extending backward from the front-center
/// anchor — half of `width` to each side, `length` behind.
#[derive(Debug, Clone, Copy, PartialEq)]
pub struct Footprint {
    pub length: f64,
    pub width: f64,
}

/// The play area. Origin at the bottom-left corner; the South edge is
/// y = 0, North is y = height, West is x = 0 and East is x = width.
#[derive(Debug, Clone, Copy, PartialEq)]
pub struct Board {
    pub width: f64,
    pub height: f64,
    /// Deployment zone extends this far from each side's edge.
    pub deploy_depth: f64,
}

/// A zone (x_min, y_min, x_max, y_max).
pub type Rect = (f64, f64, f64, f64);

impl Board {
    /// The band along an edge, so deep.
    pub fn band(&self, seat: Seat, d: f64) -> Rect {
        match seat {
            Seat::South => (0.0, 0.0, self.width, d),
            Seat::North => (0.0, self.height - d, self.width, self.height),
            Seat::East => (self.width - d, 0.0, self.width, self.height),
            Seat::West => (0.0, 0.0, d, self.height),
        }
    }

    /// The rectangle a seat may deploy in.
    pub fn deploy_zone(&self, seat: Seat) -> Rect {
        self.band(seat, self.deploy_depth)
    }
}

/// Heading (radians) pointing from the edge into the board.
pub fn facing(seat: Seat) -> f64 {
    match seat {
        Seat::South => FRAC_PI_2,
        Seat::North => -FRAC_PI_2,
        Seat::East => PI,
        Seat::West => 0.0,
    }
}

/// Length of a straight template.
fn straight_length(speed: u8) -> f64 {
    f64::from(speed)
}

/// Centerline radius of a bank template: 80, 130 and 180 mm.
fn bank_radius(speed: u8) -> f64 {
    (30.0 + 50.0 * f64::from(speed)) / f64::from(MM_PER_UNIT)
}

/// Centerline radius of a turn template: 35, 62.5 and 90 mm, and so on.
fn turn_radius(speed: u8) -> f64 {
    (7.5 + 27.5 * f64::from(speed)) / f64::from(MM_PER_UNIT)
}

fn apply_part(pose: Pose, seg: Segment, t: f64) -> Pose {
    let angle = |eighths: i8| f64::from(eighths) * FRAC_PI_4 * t;
    let radius = |template: Template| match template {
        Template::Straight(d) => straight_length(d),
        Template::Bank(d) => bank_radius(d),
        Template::Turn(d) => turn_radius(d),
    };
    match seg {
        Segment::Line(template) => pose.advanced(radius(template) * t),
        Segment::Arc { template, eighths } => pose.arced(radius(template), angle(eighths)),
        Segment::Rotate(eighths) => pose.rotated(angle(eighths)),
    }
}

pub fn apply_segment(pose: Pose, seg: Segment) -> Pose {
    apply_part(pose, seg, 1.0)
}

/// Final pose after flying `m` from `start`.
pub fn apply(start: Pose, m: Maneuver) -> Result<Pose, BadManeuver> {
    Ok(segments(m)?.into_iter().fold(start, apply_segment))
}

/// Arc-length step between path samples, in game units.
pub const SAMPLE_STEP: f64 = 0.1;
/// Heading step between samples while rotating in place.
pub const SAMPLE_STEP_ANGLE: f64 = PI / 12.0;

/// Poses along the maneuver's path, starting at `start` and ending exactly
/// at the final pose. Used for collision sweeps and client animation.
pub fn sample_path(start: Pose, m: Maneuver) -> Result<Vec<Pose>, BadManeuver> {
    let mut path = vec![start];
    let mut pose = start;
    for seg in segments(m)? {
        let sweep = |eighths: i8| (f64::from(eighths) * FRAC_PI_4).abs();
        let steps = match seg {
            Segment::Line(Template::Straight(d)) => (straight_length(d) / SAMPLE_STEP).ceil(),
            Segment::Line(_) => 1.0,
            Segment::Arc { template: Template::Bank(d), eighths } => {
                (bank_radius(d) * sweep(eighths) / SAMPLE_STEP).ceil()
            }
            Segment::Arc { template: Template::Turn(d), eighths } => {
                (turn_radius(d) * sweep(eighths) / SAMPLE_STEP).ceil()
            }
            Segment::Arc { .. } => 1.0,
            Segment::Rotate(eighths) => (sweep(eighths) / SAMPLE_STEP_ANGLE).ceil(),
        }
        .max(1.0) as u32;
        for i in 1..=steps {
            path.push(apply_part(pose, seg, f64::from(i) / f64::from(steps)));
        }
        pose = apply_segment(pose, seg);
    }
    Ok(path)
}

/// Barrel-roll destination: one end of a straight template of `template`
/// units against the side of the base, the ship placed at the opposite end.
pub fn barrel_roll_pose_with(pose: Pose, fp: Footprint, side: Side, template: f64) -> Pose {
    let shift = template + fp.width;
    let sign = match side {
        Side::Left => 1.0,
        Side::Right => -1.0,
    };
    Pose { anchor: pose.local_to_world(Vec2::new(0.0, sign * shift)), heading: pose.heading }
}

/// Barrel roll with the straight-1 template.
pub fn barrel_roll_pose(pose: Pose, fp: Footprint, side: Side) -> Pose {
    barrel_roll_pose_with(pose, fp, side, 1.0)
}

/// Barrel roll with a bank-1 template (Lieutenant Lorrir): the template
/// starts at the middle of the base's side, pointing outward, and bends
/// 45° toward the ship's front (`forward`) or rear.
pub fn barrel_roll_bank_pose(pose: Pose, fp: Footprint, side: Side, forward: bool) -> Pose {
    let sign = match side {
        Side::Left => 1.0,
        Side::Right => -1.0,
    };
    let start = Pose {
        anchor: pose.local_to_world(Vec2::new(-fp.length / 2.0, sign * fp.width / 2.0)),
        heading: pose.heading + sign * FRAC_PI_2,
    };
    // Seen from the outward-pointing template, "toward the front" is a
    // turn against the roll side.
    let sweep = if forward { -sign * FRAC_PI_4 } else { sign * FRAC_PI_4 };
    let end = start.arced(bank_radius(1), sweep);
    let heading = end.heading - sign * FRAC_PI_2;
    let center = end.advanced(fp.width / 2.0).anchor;
    let anchor = Pose { anchor: center, heading }.advanced(fp.length / 2.0).anchor;
    Pose { anchor, heading }
}

type Corners = [Vec2; 4];

/// World-space corners of a base.
pub fn footprint_corners(pose: Pose, fp: Footprint) -> Corners {
    let hw = fp.width / 2.0;
    [
        pose.local_to_world(Vec2::new(0.0, -hw)),
        pose.local_to_world(Vec2::new(0.0, hw)),
        pose.local_to_world(Vec2::new(-fp.length, hw)),
        pose.local_to_world(Vec2::new(-fp.length, -hw)),
    ]
}

/// Do two convex outlines overlap? Touching counts.
pub fn convex_overlap(a: &[Vec2], b: &[Vec2]) -> bool {
    let span = |poly: &[Vec2], axis: Vec2| {
        poly.iter().fold((f64::INFINITY, f64::NEG_INFINITY), |(lo, hi), p| {
            let d = p.dot(axis);
            (lo.min(d), hi.max(d))
        })
    };
    for poly in [a, b] {
        for i in 0..poly.len() {
            let edge = poly[(i + 1) % poly.len()] - poly[i];
            let len = edge.dot(edge).sqrt();
            if len < 1e-12 {
                continue;
            }
            let axis = Vec2::new(-edge.y / len, edge.x / len);
            let (a0, a1) = span(a, axis);
            let (b0, b1) = span(b, axis);
            if a1 < b0 - 1e-9 || b1 < a0 - 1e-9 {
                return false;
            }
        }
    }
    true
}

/// Do two bases overlap?
pub fn obbs_overlap(a: &Corners, b: &Corners) -> bool {
    convex_overlap(a, b)
}

/// Is the whole base within the board?
pub fn within_board(board: &Board, corners: &Corners) -> bool {
    in_rect((0.0, 0.0, board.width, board.height), corners)
}

fn in_rect((x0, y0, x1, y1): Rect, corners: &Corners) -> bool {
    let e = 1e-9;
    corners
        .iter()
        .all(|p| p.x >= x0 - e && p.x <= x1 + e && p.y >= y0 - e && p.y <= y1 + e)
}

/// One range band is 100 mm.
pub const RANGE_BAND_UNITS: f64 = RANGE_BAND_MM as f64 / MM_PER_UNIT as f64;
/// Bullseye lane: 300 mm long and 15 mm wide, straight ahead from the front
/// edge of the base.
pub const BULLSEYE_LENGTH_UNITS: f64 = 300.0 / MM_PER_UNIT as f64;
pub const BULLSEYE_WIDTH_UNITS: f64 = 15.0 / MM_PER_UNIT as f64;

/// World-space corners of the ship's bullseye lane.
pub fn bullseye_corners(pose: Pose) -> Corners {
    let hw = BULLSEYE_WIDTH_UNITS / 2.0;
    [
        pose.local_to_world(Vec2::new(0.0, -hw)),
        pose.local_to_world(Vec2::new(0.0, hw)),
        pose.local_to_world(Vec2::new(BULLSEYE_LENGTH_UNITS, hw)),
        pose.local_to_world(Vec2::new(BULLSEYE_LENGTH_UNITS, -hw)),
    ]
}

/// Is any part of the defender's base inside the attacker's bullseye?
pub fn in_bullseye(attacker: Pose, defender_corners: &Corners) -> bool {
    obbs_overlap(&bullseye_corners(attacker), defender_corners)
}

/// Center of the ship's base (the firing arc's origin).
pub fn base_center(pose: Pose, fp: Footprint) -> Vec2 {
    pose.local_to_world(Vec2::new(-fp.length / 2.0, 0.0))
}

/// Is `target` inside the 90° forward cone from the base center?
pub fn in_front_arc(pose: Pose, fp: Footprint, target: Vec2) -> bool {
    let d = target - base_center(pose, fp);
    if d.x == 0.0 && d.y == 0.0 {
        return true;
    }
    let rel = (d.y.atan2(d.x) - pose.heading + PI).rem_euclid(TAU) - PI;
    rel.abs() <= FRAC_PI_4 + 1e-12
}

/// Is any corner or edge midpoint of a base inside the shooter's forward
/// arc?
pub fn base_in_front_arc(shooter: Pose, shooter_fp: Footprint, corners: &Corners) -> bool {
    (0..4).any(|i| {
        let (a, b) = (corners[i], corners[(i + 1) % 4]);
        let m = Vec2::new((a.x + b.x) / 2.0, (a.y + b.y) / 2.0);
        in_front_arc(shooter, shooter_fp, a) || in_front_arc(shooter, shooter_fp, m)
    })
}

/// The point of a segment closest to `p`.
fn foot(p: Vec2, a: Vec2, b: Vec2) -> Vec2 {
    let ab = b - a;
    let len2 = ab.dot(ab);
    let t = if len2 == 0.0 { 0.0 } else { ((p - a).dot(ab) / len2).clamp(0.0, 1.0) };
    Vec2::new(a.x + ab.x * t, a.y + ab.y * t)
}

/// The closest points of two outlines that do not overlap, and how far apart
/// they are.
fn closest(a: &[Vec2], b: &[Vec2]) -> (f64, Vec2, Vec2) {
    let mut best = (f64::INFINITY, a[0], b[0]);
    for i in 0..a.len() {
        for j in 0..b.len() {
            let (a1, a2) = (a[i], a[(i + 1) % a.len()]);
            let (b1, b2) = (b[j], b[(j + 1) % b.len()]);
            for (p, q) in [(a1, foot(a1, b1, b2)), (foot(b1, a1, a2), b1)] {
                let d = q - p;
                let len = d.dot(d).sqrt();
                if len < best.0 {
                    best = (len, p, q);
                }
            }
        }
    }
    best
}

/// Closest distance between two outlines (0 if they overlap).
pub fn polygon_distance(a: &[Vec2], b: &[Vec2]) -> f64 {
    if convex_overlap(a, b) { 0.0 } else { closest(a, b).0 }
}

/// Closest distance between two base rectangles (0 if they overlap).
/// This is the "any point to any point" measurement of the range ruler.
pub fn base_distance(a: &Corners, b: &Corners) -> f64 {
    polygon_distance(a, b)
}

/// Range band (1..=3) between two bases, or None beyond range 3.
/// Touching bases are range 1.
pub fn range_band_between(a: &Corners, b: &Corners) -> Option<u8> {
    let d = base_distance(a, b);
    (1..=MAX_RANGE_BAND).find(|&band| d <= f64::from(band) * RANGE_BAND_UNITS)
}

/// Outline of an obstacle token: a hexagon, about two units across; the core
/// of a black hole is half as wide.
pub fn polygon(o: &Obstacle) -> Vec<Vec2> {
    let center = Vec2::from_bits(o.center);
    let heading = f64::from_bits(o.heading);
    let radius = match o.kind {
        ObstacleKind::BlackHole => 0.5,
        _ => 0.9 + 0.05 * f64::from(o.shape),
    };
    (0..6)
        .map(|k| {
            let a = heading + f64::from(k) * PI / 3.0;
            Vec2::new(center.x + radius * a.cos(), center.y + radius * a.sin())
        })
        .collect()
}

/// Does a segment cross an outline?
pub fn segment_hits_polygon(p: Vec2, q: Vec2, poly: &[Vec2]) -> bool {
    convex_overlap(&[p, q], poly)
}

/// A token's base.
const TOKEN_FOOTPRINT: Footprint = Footprint { length: 1.0, width: 1.0 };

/// The corners of a bomb or mine token.
pub fn token_corners(t: &BombToken) -> Corners {
    footprint_corners(Pose::from_bits(t.pose), TOKEN_FOOTPRINT)
}

/// Where a token dropped by a ship lands: one straight-1 template behind the
/// rear edge, facing the same way.
pub fn drop_pose(ship: Pose, fp: Footprint) -> Pose {
    let back = fp.length + straight_length(1);
    Pose { anchor: ship.local_to_world(Vec2::new(-back, 0.0)), heading: ship.heading }
}

/// The edge that a point beyond the board left over, or the nearest one.
pub fn exit_edge(board: &Board, p: Vec2) -> Seat {
    let edges = [
        (p.y, Seat::South),
        (board.height - p.y, Seat::North),
        (board.width - p.x, Seat::East),
        (p.x, Seat::West),
    ];
    edges.iter().min_by(|a, b| a.0.total_cmp(&b.0)).map_or(Seat::South, |e| e.1)
}

/// The point `along` an edge and `depth` units in from it.
pub fn edge_point(board: &Board, seat: Seat, along: f64, depth: f64) -> Vec2 {
    match seat {
        Seat::South => Vec2::new(along, depth),
        Seat::North => Vec2::new(along, board.height - depth),
        Seat::East => Vec2::new(board.width - depth, along),
        Seat::West => Vec2::new(depth, along),
    }
}

/// Where the senator's shuttle starts: at the middle of its edge, facing in.
pub fn shuttle_pose(board: &Board, seat: Seat, length: f64) -> Pose {
    let middle = match seat {
        Seat::South | Seat::North => board.width / 2.0,
        Seat::East | Seat::West => board.height / 2.0,
    };
    let p = edge_point(board, seat, middle, length);
    Pose::new(p.x, p.y, facing(seat))
}

/// Where `n` satellites float: spread evenly at Range 2-3 of the edge.
pub fn satellite_positions(board: &Board, seat: Seat, n: usize) -> Vec<Vec2> {
    (0..n)
        .map(|k| {
            let along = board.width * (k as f64 + 1.0) / (n as f64 + 1.0);
            edge_point(board, seat, along, 2.0 * RANGE_BAND_UNITS + 1.0)
        })
        .collect()
}

/// The corners of a satellite token.
fn satellite_corners(s: &Satellite) -> Corners {
    let p = Vec2::from_bits(s.pos);
    footprint_corners(Pose::new(p.x + 0.5, p.y, 0.0), TOKEN_FOOTPRINT)
}

/// The rectangles of a deployment area.
pub fn area_zones(board: &Board, area: Area) -> Vec<Rect> {
    match area {
        Area::WholeBoard => vec![(0.0, 0.0, board.width, board.height)],
        Area::Band(seat) => vec![board.deploy_zone(seat)],
        Area::Mission { kind, faction, own, other, later } => {
            let r1 = RANGE_BAND_UNITS;
            if later {
                return vec![board.band(own, r1)];
            }
            match (kind, faction) {
                (MissionKind::PoliticalEscort, _) => vec![board.band(own, 2.0 * r1)],
                (MissionKind::AsteroidRun, Faction::RebelAlliance) => {
                    let middle = board.height / 2.0;
                    vec![(0.0, middle - r1, board.width, middle + r1)]
                }
                (MissionKind::AsteroidRun, _) => {
                    vec![board.band(own, r1), board.band(other, r1)]
                }
                (MissionKind::DarkWhispers, _) => vec![board.band(own, r1)],
            }
        }
    }
}

/// Scatter obstacle tokens on the board before setup, drawn at random from
/// the seed: away from the edges and from each other.
pub fn scatter(board: &Board, kinds: &[ObstacleKind], seed: u64) -> Vec<Obstacle> {
    let mut state = seed | 1;
    let mut draw = move || {
        state ^= state << 13;
        state ^= state >> 7;
        state ^= state << 17;
        (state >> 11) as f64 / (1u64 << 53) as f64
    };
    let mut out: Vec<Obstacle> = Vec::new();
    for (id, kind) in kinds.iter().enumerate() {
        for _ in 0..1000 {
            let edge = 2.0 * RANGE_BAND_UNITS;
            let center = Vec2::new(
                edge + draw() * (board.width - 2.0 * edge),
                edge + draw() * (board.height - 2.0 * edge),
            );
            let o = Obstacle {
                id: id as u32,
                kind: *kind,
                center: center.bits(),
                heading: (draw() * TAU).to_bits(),
                shape: (draw() * 3.0) as u8,
            };
            let poly = polygon(&o);
            if out.iter().all(|p| polygon_distance(&polygon(p), &poly) > RANGE_BAND_UNITS) {
                out.push(o);
                break;
            }
        }
    }
    out
}

/// One ship's reveal-to-action, for the animation.
#[derive(Debug, Clone, PartialEq)]
pub struct MoveRecord {
    pub ship: ShipId,
    pub maneuver: Maneuver,
    pub path: Vec<Pose>,
    pub end: Pose,
    pub bumped: bool,
    pub destroyed: bool,
    pub escaped: bool,
    pub snap_shots: Vec<AttackRecord>,
    pub stress: u8,
    pub action: PlannedAction,
    pub action_result: ActionResult,
    pub dropped_before: Vec<BombToken>,
    pub dropped_after: Vec<BombToken>,
    pub mines_hit: Vec<Detonation>,
    pub pre: Option<(PlannedAction, ActionResult)>,
    pub second: Option<(PlannedAction, ActionResult)>,
    pub obstacles_hit: Vec<u32>,
    pub seismic: Option<SeismicBlast>,
}

/// What the Activation phase brought.
#[derive(Debug, Clone, PartialEq)]
pub struct ActivationRecords {
    pub moves: Vec<MoveRecord>,
    pub pulls: Vec<Pull>,
    pub detonations: Vec<Detonation>,
    pub events: Vec<String>,
}

/// What a whole round brought.
#[derive(Debug, Clone, PartialEq)]
pub struct TurnRecords {
    pub moves: Vec<MoveRecord>,
    pub pulls: Vec<Pull>,
    pub detonations: Vec<Detonation>,
    pub attacks: Vec<AttackRecord>,
    pub events: Vec<String>,
}

/// Result of advancing the Combat phase one step.
#[derive(Debug, Clone, PartialEq)]
pub enum Step {
    NeedTarget(PendingAttack),
    Attack(AttackRecord),
    Done(TurnRecords),
}

/// What the squads of a game are known as, one name per seat: those of a
/// faction in turn.
pub fn squad_names(factions: &[Faction]) -> Vec<&'static str> {
    (0..factions.len())
        .map(|k| {
            let before = factions[..k].iter().filter(|f| **f == factions[k]).count();
            let names = match factions[k] {
                Faction::RebelAlliance => ["Red", "Gold", "Blue", "Green"],
                Faction::Empire => ["Obsidian", "Onyx", "Black", "Alpha"],
                Faction::Scum => ["Syndicate", "Cartel", "Black Sun", "Binayre"],
            };
            names[before % names.len()]
        })
        .collect()
}

/// The points of a squad, however many.
fn squad_cost(content: &Content, squad: &Squad) -> u64 {
    let card = |u: &UpgradeId| content.upgrades.upgrade(*u).map_or(0, |c| u64::from(c.cost));
    squad
        .ships
        .iter()
        .map(|s| {
            content.pilots.pilot(s.pilot).map_or(0, |p| u64::from(p.cost))
                + s.upgrades.iter().map(card).sum::<u64>()
        })
        .sum()
}

/// A callsign in its proper form, or what is wrong with it.
pub fn validate_callsign(callsign: &str) -> Result<String, String> {
    let name = callsign.trim();
    if name.is_empty() {
        return Err("empty".to_string());
    }
    if name.chars().count() > 24 {
        return Err("too long".to_string());
    }
    Ok(name.to_string())
}

pub fn mission_name(kind: MissionKind) -> &'static str {
    match kind {
        MissionKind::PoliticalEscort => "Political Escort",
        MissionKind::AsteroidRun => "Asteroid Run",
        MissionKind::DarkWhispers => "Dark Whispers",
    }
}

pub fn mission_objective(kind: MissionKind, faction: Faction) -> &'static str {
    let rebel = faction == Faction::RebelAlliance;
    match (kind, rebel) {
        (MissionKind::PoliticalEscort, true) => "the shuttle leaves over the Imperial edge",
        (MissionKind::PoliticalEscort, false) => "the shuttle is destroyed",
        (MissionKind::AsteroidRun, true) => "the repaired ship escapes",
        (MissionKind::AsteroidRun, false) => "the disabled ship is destroyed",
        (MissionKind::DarkWhispers, true) => "no scanned satellite leaves the board",
        (MissionKind::DarkWhispers, false) => "a scanned satellite is carried home",
    }
}

/// A game on its table: the rules' state, and what measures it.
#[derive(Debug, Clone)]
pub struct Table {
    pub board: Board,
    pub game: GameState,
    /// The bases of the ship classes.
    pub bases: Vec<(ShipClassId, Footprint)>,
    moves: Vec<MoveRecord>,
    pulls: Vec<Pull>,
    detonations: Vec<Detonation>,
}

impl std::ops::Deref for Table {
    type Target = GameState;
    fn deref(&self) -> &GameState {
        &self.game
    }
}

impl std::ops::DerefMut for Table {
    fn deref_mut(&mut self) -> &mut GameState {
        &mut self.game
    }
}

impl Table {
    pub fn new(board: Board, bases: Vec<(ShipClassId, Footprint)>, game: GameState) -> Self {
        Self {
            board,
            game,
            bases,
            moves: Vec::new(),
            pulls: Vec::new(),
            detonations: Vec::new(),
        }
    }

    /// Build a game from (already validated) squads.
    pub fn from_squads(
        board: Board,
        bases: Vec<(ShipClassId, Footprint)>,
        content: &Content,
        squads: &[&Squad],
        teams: &[u8],
        tie_roll: AttackFace,
    ) -> Result<Self, SetupError> {
        let factions: Vec<Faction> = squads.iter().map(|s| s.faction).collect();
        let names = squad_names(&factions);
        let costs: u64 = squads.iter().map(|s| squad_cost(content, s)).sum();
        assert!(u32::try_from(costs).is_ok(), "too many points");
        let game = GameState::from_squads(content, squads, &names, teams, tie_roll)?;
        Ok(Self::new(board, bases, game))
    }

    pub fn footprint(&self, class: ShipClassId) -> Footprint {
        self.bases
            .iter()
            .find(|b| b.0 == class)
            .map_or(Footprint { length: 1.0, width: 1.0 }, |b| b.1)
    }

    pub fn pose(&self, i: usize) -> Option<Pose> {
        self.game.ships[i].pose.map(Pose::from_bits)
    }

    fn base(&self, i: usize) -> Footprint {
        self.footprint(self.game.ships[i].class)
    }

    fn corners(&self, i: usize) -> Option<Corners> {
        self.pose(i).map(|p| footprint_corners(p, self.base(i)))
    }

    /// The bases of the other ships on the board.
    fn others(&self, i: usize) -> Vec<Corners> {
        (0..self.game.ships.len())
            .filter(|&k| k != i && !self.game.ships[k].destroyed)
            .filter_map(|k| self.corners(k))
            .collect()
    }

    /// Is the range line between two bases (closest points) crossing an
    /// obstacle token?
    pub fn obstructed_between(&self, a: &Corners, b: &Corners) -> bool {
        let (_, p, q) = closest(a, b);
        self.game.obstacles.iter().any(|o| segment_hits_polygon(p, q, &polygon(o)))
    }

    /// What is measured between all ships as they stand.
    pub fn sight(&self) -> Sight {
        let n = self.game.ships.len();
        let corners: Vec<Option<Corners>> = (0..n).map(|k| self.corners(k)).collect();
        let line = |i: usize, j: usize| {
            let (Some(a), Some(b), Some(pose)) = (corners[i], corners[j], self.pose(i)) else {
                return Line {
                    band: None,
                    dist: u64::MAX,
                    contact: false,
                    in_arc: false,
                    obstructed: false,
                    bullseye: false,
                };
            };
            let dist = base_distance(&a, &b);
            Line {
                band: range_band_between(&a, &b),
                dist: dist.to_bits(),
                contact: dist <= 1e-6,
                in_arc: base_in_front_arc(pose, self.base(i), &b),
                obstructed: self.obstructed_between(&a, &b),
                bullseye: in_bullseye(pose, &b),
            }
        };
        Sight { lines: (0..n).map(|i| (0..n).map(|j| line(i, j)).collect()).collect() }
    }

    fn landing(&self, i: usize, pose: Pose, others: &[Corners]) -> Landing {
        let corners = footprint_corners(pose, self.base(i));
        Landing {
            pose: pose.bits(),
            blocked: !within_board(&self.board, &corners)
                || others.iter().any(|o| obbs_overlap(&corners, o)),
            on_obstacle: self.game.obstacles.iter().any(|o| convex_overlap(&corners, &polygon(o))),
        }
    }

    /// Where a boost or roll of ship `i` would end.
    fn reposition(&self, i: usize, planned: PlannedAction) -> Option<Pose> {
        let pose = self.pose(i)?;
        let fp = self.base(i);
        match planned {
            PlannedAction::Boost(dir) => apply(pose, boost_maneuver(dir)).ok(),
            PlannedAction::BarrelRoll(side) => Some(barrel_roll_pose(pose, fp, side)),
            PlannedAction::BarrelRollFar(side) => {
                Some(barrel_roll_pose_with(pose, fp, side, 2.0))
            }
            PlannedAction::BarrelRollBank(side, forward) => {
                Some(barrel_roll_bank_pose(pose, fp, side, forward))
            }
            _ => None,
        }
    }

    fn drop_spots(&self, i: usize) -> DropSpots {
        let pose = self.pose(i).unwrap_or(Pose::new(0.0, 0.0, 0.0));
        let center = drop_pose(pose, self.base(i));
        let w = TOKEN_FOOTPRINT.width;
        let beside = |dy: f64| {
            Pose {
                anchor: center.local_to_world(Vec2::new(0.0, dy)),
                heading: center.heading,
            }
            .bits()
        };
        DropSpots { left: beside(w), center: center.bits(), right: beside(-w) }
    }

    /// What ship `i` could do with the table around it.
    fn moves_of(&self, i: usize, planned: Option<PlannedAction>, others: &[Corners]) -> Moves {
        let planned = planned.and_then(|a| self.reposition(i, a));
        let mut after = self.clone();
        if let Some(pose) = planned {
            after.game.ships[i].pose = Some(pose.bits());
        }
        Moves {
            planned: planned.map(|pose| self.landing(i, pose, others)),
            after: after.sight(),
            straight: self
                .reposition(i, PlannedAction::Boost(BoostDir::Straight))
                .map(|pose| self.landing(i, pose, others)),
            drop: self.drop_spots(i),
        }
    }

    /// What is measured for one step of the Combat phase.
    fn survey(&self) -> Survey {
        let n = self.game.ships.len();
        Survey {
            sight: self.sight(),
            moves: (0..n)
                .map(|i| self.moves_of(i, self.game.ships[i].planned_action2, &self.others(i)))
                .collect(),
            over: Overlaps {
                over: (0..n)
                    .map(|i| match (&self.game.mission, self.corners(i)) {
                        (Some(m), Some(c)) => m
                            .satellites
                            .iter()
                            .map(|s| obbs_overlap(&c, &satellite_corners(s)))
                            .collect(),
                        _ => Vec::new(),
                    })
                    .collect(),
            },
        }
    }

    /// The rectangles that a player may place ships in right now.
    pub fn deploy_zones(&self, player: PlayerId) -> Vec<Rect> {
        assert!(self.game.mission.is_none() || self.game.team(player) <= 1, "two sides");
        area_zones(&self.board, self.game.deploy_zones(player))
    }

    /// Place (or re-place) a ship.
    pub fn place_ship(
        &mut self,
        content: &Content,
        player: PlayerId,
        ship: ShipId,
        pose: Pose,
    ) -> Result<(), Rejection> {
        if self.game.phase != Phase::Placement {
            return Err(Rejection::WrongPhase);
        }
        let n = self.game.ships.len();
        let i = self.game.ships.iter().position(|s| s.id == ship).ok_or(Rejection::NoSuchShip)?;
        let corners = footprint_corners(pose, self.base(i));
        let near = |f: &dyn Fn(&Corners) -> bool| -> Vec<bool> {
            (0..n).map(|k| self.corners(k).is_some_and(|c| f(&c))).collect()
        };
        let zones = self.deploy_zones(player);
        let mut after = self.clone();
        after.game.ships[i].pose = Some(pose.bits());
        let spot = Spot {
            pose: pose.bits(),
            in_zone: zones.iter().any(|z| in_rect(*z, &corners)),
            overlaps: near(&|c| obbs_overlap(&corners, c)),
            reaches: near(&|c| range_band_between(&corners, c).is_some()),
            on_obstacle: self.game.obstacles.iter().any(|o| convex_overlap(&corners, &polygon(o))),
            near_obstacle: self
                .game
                .obstacles
                .iter()
                .any(|o| polygon_distance(&corners, &polygon(o)) <= RANGE_BAND_UNITS),
            after: after.sight(),
        };
        self.game.place_ship(content, player, ship, &spot)
    }

    fn check_player(&self, content: &Content, player: PlayerId) {
        assert!((player.0 as usize) < self.game.committed.len(), "no such seat");
        assert!(self.game.is_known(content), "ships of unknown classes");
    }

    /// Secretly choose a bomb card to drop when the dial is revealed.
    pub fn plan_bomb(
        &mut self,
        content: &Content,
        player: PlayerId,
        ship: ShipId,
        bomb: Option<UpgradeId>,
    ) -> Result<(), Rejection> {
        self.check_player(content, player);
        self.game.plan_bomb(content, player, ship, bomb)
    }

    /// Secretly switch a card on or off for this round.
    pub fn plan_card_use(
        &mut self,
        content: &Content,
        player: PlayerId,
        ship: ShipId,
        card: UpgradeId,
        on: bool,
    ) -> Result<(), Rejection> {
        self.check_player(content, player);
        self.game.plan_card_use(content, player, ship, card, on)
    }

    /// Secretly assign a dial maneuver to one of the player's ships.
    pub fn plan_maneuver(
        &mut self,
        content: &Content,
        player: PlayerId,
        ship: ShipId,
        index: u8,
    ) -> Result<(), Rejection> {
        self.check_player(content, player);
        self.game.plan_maneuver(content, player, ship, index)
    }

    /// Secretly assign the ship's one action.
    pub fn plan_action(
        &mut self,
        content: &Content,
        player: PlayerId,
        ship: ShipId,
        planned: PlannedAction,
    ) -> Result<(), Rejection> {
        self.check_player(content, player);
        let sight = self.sight();
        self.game.plan_action(content, &sight, player, ship, planned)
    }

    /// Secretly plan the ship's second action (None clears it).
    pub fn plan_second_action(
        &mut self,
        content: &Content,
        player: PlayerId,
        ship: ShipId,
        planned: Option<PlannedAction>,
    ) -> Result<(), Rejection> {
        self.check_player(content, player);
        let sight = self.sight();
        self.game.plan_second_action(content, &sight, player, ship, planned)
    }

    /// What a viewer is allowed to see right now.
    pub fn snapshot_for(&self, content: &Content, viewer: PlayerId) -> Vec<ShipView> {
        assert!(self.game.is_known(content), "ships of unknown classes");
        self.game.snapshot_for(content, &self.sight(), viewer)
    }

    /// Scatter obstacle tokens on the board before setup.
    pub fn place_obstacles(&mut self, kinds: &[ObstacleKind], seed: u64) {
        self.game.obstacles = scatter(&self.board, kinds, seed);
    }

    /// Rename an own ship during Placement.
    pub fn rename(
        &mut self,
        player: PlayerId,
        ship: ShipId,
        callsign: &str,
    ) -> Result<(), Rejection> {
        self.game.rename(player, ship, validate_callsign(callsign))
    }

    /// Turn a freshly built game into a mission game; `points` is the squad
    /// size the host chose.
    pub fn start_mission(
        &mut self,
        content: &Content,
        kind: MissionKind,
        points: u32,
    ) -> Result<(), MissionError> {
        let class_of = |s: &ShipState| content.ships.class(s.class);
        let rebel = self
            .game
            .ships
            .iter()
            .find(|s| class_of(s).is_some_and(|c| c.faction == Faction::RebelAlliance))
            .map_or(0, |s| self.game.team(s.owner));
        assert!(self.game.teams.iter().all(|t| *t < u8::MAX), "too many sides");
        if self.game.sides() == 2 {
            assert!(rebel <= 1, "two sides");
        }
        let seat = Seat::for_side(rebel, 2);
        let length = content
            .pilots
            .pilots
            .iter()
            .find(|p| p.xws == "senatorsshuttle")
            .map_or(1.0, |p| self.footprint(p.class).length);
        let (_, count, _) = sheet(kind, points);
        let brief = MissionBrief {
            shuttle_pose: shuttle_pose(&self.board, seat, length).bits(),
            satellites: satellite_positions(&self.board, seat, count)
                .into_iter()
                .map(Vec2::bits)
                .collect(),
        };
        assert_eq!(brief.satellites.len(), count, "a place for every satellite");
        assert!(self.game.is_known(content), "ships of unknown classes");
        let total: u64 = self.game.squad_totals.iter().map(|t| u64::from(*t)).sum();
        assert!(u32::try_from(total).is_ok(), "too many points");
        self.game.start_mission(content, kind, points, &brief)
    }

    /// Why the game ended, for the Game Over message.
    pub fn winner_reason(&self) -> String {
        match self.game.winner_reason() {
            Reason::Objective(kind, faction) => {
                format!("{} — {}", mission_name(kind), mission_objective(kind, faction))
            }
            Reason::FleetDestroyed => "fleet destroyed".to_string(),
        }
    }

    /// The steps along a template, as far as ship `i` is concerned.
    fn steps(&self, i: usize, path: &[Pose], others: &[Corners]) -> Vec<FlightStep> {
        let fp = self.base(i);
        path.iter()
            .map(|p| {
                let c = footprint_corners(*p, fp);
                FlightStep {
                    pose: p.bits(),
                    blocked: others.iter().any(|o| obbs_overlap(&c, o)),
                    off: !within_board(&self.board, &c),
                    exit: exit_edge(&self.board, base_center(*p, fp)),
                }
            })
            .collect()
    }

    /// Which maneuvers would take ship `i` off the board or onto another.
    fn bad_ends(&self, i: usize, others: &[Corners]) -> Ends {
        let mut bad = Vec::new();
        if let Some(start) = self.pose(i) {
            for steer in [
                Steer::Straight,
                Steer::BankLeft,
                Steer::BankRight,
                Steer::TurnLeft,
                Steer::TurnRight,
                Steer::TallonLeft,
                Steer::TallonRight,
                Steer::KTurn,
                Steer::SegnorLeft,
                Steer::SegnorRight,
            ] {
                for distance in 0..=5 {
                    let m = Maneuver { steer, distance, difficulty: Difficulty::Normal };
                    if let Ok(end) = apply(start, m) {
                        let c = footprint_corners(end, self.base(i));
                        if !within_board(&self.board, &c)
                            || others.iter().any(|o| obbs_overlap(&c, o))
                        {
                            bad.push((steer, distance));
                        }
                    }
                }
            }
        }
        Ends { bad }
    }

    fn no_facts(&self) -> Facts {
        let pose = Pose::new(0.0, 0.0, 0.0).bits();
        let spots = DropSpots { left: pose, center: pose, right: pose };
        let nothing = || Sight { lines: Vec::new() };
        Facts {
            sight: self.sight(),
            spots,
            ends: Ends { bad: Vec::new() },
            moves: Moves { planned: None, after: nothing(), straight: None, drop: spots },
            flight: Flight { path: Vec::new(), plain: None },
            crossing: Crossing { touched: Vec::new(), under: Vec::new() },
            mines: Vec::new(),
            turned: pose,
            salvo: Salvo { in_range: false, in_arc: false, within: Vec::new(), pose },
            drag: Vec::new(),
            within: Vec::new(),
        }
    }

    /// What a shot of ship `i` at an obstacle would come to.
    fn salvo(&self, i: usize, planned: Option<PlannedAction>, none: Salvo) -> Salvo {
        let Some(PlannedAction::CardActionAt(_, id)) = planned else { return none };
        let (Some(o), Some(pose)) =
            (self.game.obstacles.iter().find(|o| o.id == id), self.pose(i))
        else {
            return none;
        };
        let poly = polygon(o);
        let fp = self.base(i);
        let center = Vec2::from_bits(o.center);
        Salvo {
            in_range: polygon_distance(&footprint_corners(pose, fp), &poly)
                <= 2.0 * RANGE_BAND_UNITS,
            in_arc: in_front_arc(pose, fp, center)
                || poly.iter().any(|p| in_front_arc(pose, fp, *p)),
            within: (0..self.game.ships.len())
                .map(|k| {
                    self.corners(k)
                        .is_some_and(|c| polygon_distance(&c, &poly) <= RANGE_BAND_UNITS)
                })
                .collect(),
            pose: Pose { anchor: center + Vec2::new(0.5, 0.0), heading: 0.0 }.bits(),
        }
    }

    /// The way of ship `i` toward a black hole: ten steps over one unit,
    /// none beyond Range 5.
    fn drag(&self, i: usize, hole: &Obstacle) -> Vec<Drag> {
        let Some(pose) = self.pose(i) else { return Vec::new() };
        let core = polygon(hole);
        let fp = self.base(i);
        let d = Vec2::from_bits(hole.center) - pose.anchor;
        let len = d.dot(d).sqrt();
        if polygon_distance(&footprint_corners(pose, fp), &core) > 5.0 * RANGE_BAND_UNITS
            || len < 1e-9
        {
            return Vec::new();
        }
        let others = self.others(i);
        (1..=10)
            .map(|k| {
                let t = f64::from(k) / 10.0;
                let cand = Pose {
                    anchor: Vec2::new(
                        pose.anchor.x + d.x / len * t,
                        pose.anchor.y + d.y / len * t,
                    ),
                    heading: pose.heading,
                };
                let c = footprint_corners(cand, fp);
                Drag {
                    pose: cand.bits(),
                    blocked: others.iter().any(|o| obbs_overlap(&c, o)),
                    in_core: convex_overlap(&c, &core),
                }
            })
            .collect()
    }

    /// Everything that the next step of the Activation phase needs measured.
    fn facts(&self, activation: &Activation, others: &[Corners], path: &[Pose]) -> Facts {
        let t = &activation.turn;
        let i = match t.stage {
            Stage::Pull => t.other,
            Stage::Gather | Stage::Explode | Stage::Burn | Stage::Over => 0,
            _ => activation.order[t.place],
        };
        let mut facts = self.no_facts();
        if i >= self.game.ships.len() {
            return facts;
        }
        let fp = self.base(i);
        let swept: Vec<Corners> = path.iter().map(|p| footprint_corners(*p, fp)).collect();
        let ship = &self.game.ships[i];
        match t.stage {
            Stage::Reveal => facts.spots = self.drop_spots(i),
            Stage::Rotate => facts.ends = self.bad_ends(i, others),
            Stage::Ready => {
                let planned = ship.planned_action2;
                facts.moves = self.moves_of(i, planned, others);
            }
            Stage::Fly => {
                let start = self.pose(i).expect("moving ships are on the board");
                let m = t.course.maneuver;
                let path = sample_path(start, m).expect("validated at plan time");
                facts.flight = Flight {
                    path: self.steps(i, &path, others),
                    plain: plain(m)
                        .and_then(|m| sample_path(start, m).ok())
                        .map(|p| self.steps(i, &p, others)),
                };
            }
            Stage::Cross => {
                let end = self.corners(i);
                let polys: Vec<Vec<Vec2>> = self.game.obstacles.iter().map(polygon).collect();
                facts.crossing = Crossing {
                    touched: polys
                        .iter()
                        .map(|poly| swept.iter().any(|c| convex_overlap(c, poly)))
                        .collect(),
                    under: polys
                        .iter()
                        .map(|poly| end.is_some_and(|c| convex_overlap(&c, poly)))
                        .collect(),
                };
            }
            Stage::Mines => {
                facts.mines = self
                    .game
                    .bombs
                    .iter()
                    .map(|b| swept.iter().any(|c| obbs_overlap(c, &token_corners(b))))
                    .collect();
            }
            Stage::Snap => {
                let shooter = &self.game.ships[t.other];
                facts.moves =
                    self.moves_of(t.other, shooter.planned_action2, &self.others(t.other));
            }
            Stage::Spin => {
                if let Some(end) = self.pose(i) {
                    let centre = base_center(end, fp);
                    facts.turned = Pose::new(
                        2.0 * centre.x - end.anchor.x,
                        2.0 * centre.y - end.anchor.y,
                        end.heading + PI,
                    )
                    .bits();
                }
            }
            Stage::Boost | Stage::Second => {
                facts.moves = self.moves_of(i, t.readied.planned2, others);
            }
            Stage::Act => {
                facts.moves = self.moves_of(i, ship.planned_action, others);
                facts.salvo = self.salvo(i, ship.planned_action, facts.salvo);
            }
            Stage::Pull => facts.drag = self.drag(i, &activation.holes[t.hole]),
            Stage::Explode => {
                facts.within = self
                    .game
                    .armed_bombs()
                    .iter()
                    .map(|b| {
                        let tc = token_corners(b);
                        (0..self.game.ships.len())
                            .map(|k| {
                                self.corners(k)
                                    .is_some_and(|c| base_distance(&tc, &c) <= RANGE_BAND_UNITS)
                            })
                            .collect()
                    })
                    .collect();
            }
            _ => {}
        }
        facts
    }

    /// Fly all plans in movement order with their actions, then pulls, bombs
    /// and console fires.
    fn resolve_movement(
        &mut self,
        mut activation: Activation,
        content: &Content,
        dice: &mut Dice,
    ) {
        let mut others: Vec<Corners> = Vec::new();
        let mut flown: Vec<Pose> = Vec::new();
        let mut record: Option<MoveRecord> = None;
        while activation.turn.stage != Stage::Over {
            let stage = activation.turn.stage;
            if stage == Stage::Reveal {
                let i = activation.order[activation.turn.place];
                let plan = self.game.ships[i].plan.expect("commit checked plans");
                self.game.dialed(content, i, plan).expect("plans fit the dial");
                others = self.others(i);
            }
            let facts = self.facts(&activation, &others, &flown);
            let mover = match stage {
                Stage::Gather | Stage::Pull | Stage::Explode | Stage::Burn => None,
                _ => Some(activation.order[activation.turn.place]),
            };
            let outcome = activation.step(&mut self.game, content, &facts, dice);
            if stage == Stage::Reveal {
                let i = mover.expect("a ship reveals");
                record = Some(self.blank_record(i));
            }
            let Some(i) = mover else {
                self.closing(outcome);
                continue;
            };
            let Some(r) = record.as_mut() else { continue };
            match outcome {
                Outcome::Revealed(_, tokens) => r.dropped_before = tokens,
                Outcome::Rotated(course) => r.maneuver = course.maneuver,
                Outcome::Readied(readied) => r.pre = readied.pre,
                Outcome::Flown(f) => {
                    let steps = match (&facts.flight.plain, f.degraded) {
                        (Some(p), true) => p,
                        _ => &facts.flight.path,
                    };
                    flown = steps[..=f.stop].iter().map(|s| Pose::from_bits(s.pose)).collect();
                    r.path = flown.clone();
                    r.end = flown[f.stop];
                    r.bumped = f.bumped;
                }
                Outcome::Crossed(ids, _) => r.obstacles_hit = ids,
                Outcome::Mined(done, _) => r.mines_hit = done,
                Outcome::Snapped(shot) => r.snap_shots.extend(shot),
                Outcome::Spun => {
                    if let Some(pose) = self.game.ships[i].pose {
                        r.end = Pose::from_bits(pose);
                    }
                    r.destroyed = self.game.ships[i].destroyed;
                }
                Outcome::Boosted(boost) => r.second = boost,
                Outcome::Acted(acted, tokens, blast) => {
                    r.action = acted.action;
                    r.action_result = acted.result;
                    r.dropped_after = tokens;
                    r.seismic = blast;
                }
                Outcome::Seconded(second, tokens) => {
                    if second.is_some() {
                        r.second = second;
                    }
                    r.dropped_after.extend(tokens);
                }
                _ => {}
            }
            let done = matches!(activation.turn.stage, Stage::Reveal | Stage::Gather);
            if done {
                if let Some(mut r) = record.take() {
                    r.stress = self.game.ships[i].stress;
                    r.escaped = self.game.ships[i].escaped;
                    self.moves.push(r);
                }
            }
        }
    }

    fn closing(&mut self, outcome: Outcome) {
        match outcome {
            Outcome::Pulled(pull) => self.pulls.extend(pull),
            Outcome::Exploded(done) => self.detonations = done,
            _ => {}
        }
    }

    fn blank_record(&self, i: usize) -> MoveRecord {
        let pose = self.pose(i).unwrap_or(Pose::new(0.0, 0.0, 0.0));
        MoveRecord {
            ship: self.game.ships[i].id,
            maneuver: Maneuver {
                steer: Steer::Straight,
                distance: 1,
                difficulty: Difficulty::Normal,
            },
            path: Vec::new(),
            end: pose,
            bumped: false,
            destroyed: false,
            escaped: false,
            snap_shots: Vec::new(),
            stress: 0,
            action: PlannedAction::Pass,
            action_result: ActionResult::Performed,
            dropped_before: Vec::new(),
            dropped_after: Vec::new(),
            mines_hit: Vec::new(),
            pre: None,
            second: None,
            obstacles_hit: Vec::new(),
            seismic: None,
        }
    }

    /// The narration of the round so far, in words.
    pub fn combat_events(&self, content: &Content) -> Vec<String> {
        self.game.combat_events(content)
    }

    /// Commit the player's plans. When everyone has committed, the
    /// Activation phase resolves immediately and the game enters the Combat
    /// phase.
    pub fn commit_plans_begin(
        &mut self,
        content: &Content,
        player: PlayerId,
        dice: &mut Dice,
    ) -> Result<Option<ActivationRecords>, Rejection> {
        assert!((player.0 as usize) < self.game.committed.len(), "no such seat");
        assert!(u32::try_from(self.game.committed.len()).is_ok(), "too many seats");
        assert!(self.game.is_known(content), "ships of unknown classes");
        assert!(self.game.are_plans_fit(content), "plans off the dial");
        let sight = self.sight();
        let Some(activation) = self.game.commit_plans_begin(content, &sight, player)? else {
            return Ok(None);
        };
        self.moves.clear();
        self.pulls.clear();
        self.detonations.clear();
        self.resolve_movement(activation, content, dice);
        let sight = self.sight();
        self.game.begin_combat(content, &sight);
        Ok(Some(ActivationRecords {
            moves: self.moves.clone(),
            pulls: self.pulls.clone(),
            detonations: self.detonations.clone(),
            events: self.game.combat_events(content),
        }))
    }

    /// Advance the Combat phase until it needs a Declare Target choice,
    /// resolves one attack, or finishes the turn.
    pub fn combat_step(&mut self, content: &Content, dice: &mut Dice) -> Result<Step, Rejection> {
        assert!(self.game.is_known(content), "ships of unknown classes");
        assert!(self.game.turn < u32::MAX, "too many turns");
        let survey = self.survey();
        Ok(match self.game.combat_step(content, &survey, dice)? {
            CombatStep::NeedTarget(p) => Step::NeedTarget(p),
            CombatStep::Attack(a) => Step::Attack(a),
            CombatStep::Done(rec) => Step::Done(TurnRecords {
                moves: std::mem::take(&mut self.moves),
                pulls: std::mem::take(&mut self.pulls),
                detonations: std::mem::take(&mut self.detonations),
                attacks: rec.attacks,
                events: self.game.tell_all(content, &rec.events),
            }),
        })
    }

    /// The owner's Declare Target choice for the pending attack.
    pub fn declare_target(
        &mut self,
        content: &Content,
        player: PlayerId,
        target: ShipId,
        weapon: Option<UpgradeId>,
        dice: &mut Dice,
    ) -> Result<AttackRecord, Rejection> {
        assert!(self.game.is_known(content), "ships of unknown classes");
        let survey = self.survey();
        self.game.declare_target(content, &survey, player, target, weapon, dice)
    }

    /// Commit the player's plans. When everyone has committed, the whole
    /// turn resolves with the automatic target policy.
    pub fn commit_plans(
        &mut self,
        content: &Content,
        player: PlayerId,
        dice: &mut Dice,
    ) -> Result<Option<TurnRecords>, Rejection> {
        if self.commit_plans_begin(content, player, dice)?.is_none() {
            return Ok(None);
        }
        loop {
            match self.combat_step(content, dice)? {
                Step::NeedTarget(p) => {
                    let (target, weapon) = self.game.auto_target(&p).expect("options");
                    self.declare_target(content, p.owner, target, weapon, dice)?;
                }
                Step::Attack(_) => {}
                Step::Done(rec) => return Ok(Some(rec)),
            }
        }
    }
}

// ---------------- Printed content ----------------

fn class(
    id: u32,
    name: &str,
    faction: Faction,
    [attack_dice, agility, hull, shields]: [u8; 4],
    bar: &str,
) -> ShipClass {
    let icon = |c: char| match c {
        'F' => ActionKind::Focus,
        'T' => ActionKind::TargetLock,
        'E' => ActionKind::Evade,
        'R' => ActionKind::BarrelRoll,
        _ => ActionKind::Boost,
    };
    ShipClass {
        id: ShipClassId(id),
        name: name.to_string(),
        xws: name.to_lowercase().replace([' ', '/', '-'], ""),
        faction,
        hull,
        shields,
        attack_dice,
        agility,
        maneuver_set: ManeuverSetId(id),
        action_bar: bar.chars().map(icon).collect(),
        upgrade_bar: Vec::new(),
        turret_primary: name == "YT-1300",
    }
}

/// A dial written as words like "g2s": color, speed, bearing (s straight, b
/// banks, t turns, k Koiogran, T Tallon, S Segnor).
fn dial(id: u32, words: &str) -> ManeuverSet {
    let mut maneuvers = Vec::new();
    for word in words.split(' ') {
        let w: Vec<char> = word.chars().collect();
        let difficulty = match w[0] {
            'g' => Difficulty::Easy,
            'w' => Difficulty::Normal,
            _ => Difficulty::Hard,
        };
        let distance = w[1] as u8 - b'0';
        let steers: &[Steer] = match w[2] {
            's' => &[Steer::Straight],
            'b' => &[Steer::BankLeft, Steer::BankRight],
            't' => &[Steer::TurnLeft, Steer::TurnRight],
            'k' => &[Steer::KTurn],
            'T' => &[Steer::TallonLeft, Steer::TallonRight],
            _ => &[Steer::SegnorLeft, Steer::SegnorRight],
        };
        maneuvers.extend(steers.iter().map(|&steer| Maneuver { steer, distance, difficulty }));
    }
    ManeuverSet { id: ManeuverSetId(id), maneuvers }
}

fn large(class: u32) -> bool {
    matches!(class, 6 | 7 | 12)
}

fn bases() -> Vec<(ShipClassId, Footprint)> {
    (1..=13)
        .map(|id| {
            let side = if large(id) { 2.0 } else { 1.0 };
            (ShipClassId(id), Footprint { length: side, width: side })
        })
        .collect()
}

fn content() -> Content {
    let (reb, imp) = (Faction::RebelAlliance, Faction::Empire);
    let classes = vec![
        class(1, "TIE Fighter", imp, [2, 3, 3, 0], "FRE"),
        class(2, "T-70 X-Wing", reb, [3, 2, 3, 3], "FTB"),
        class(3, "TIE/fo Fighter", imp, [2, 3, 3, 1], "FTRE"),
        class(4, "A-Wing", reb, [2, 3, 2, 2], "FTBE"),
        class(5, "Y-Wing", reb, [2, 1, 5, 3], "FT"),
        class(6, "YT-1300", reb, [3, 1, 8, 5], "FT"),
        class(7, "Lambda Shuttle", imp, [3, 1, 5, 5], "FT"),
        class(8, "TIE Bomber", imp, [2, 2, 6, 0], "FTR"),
        class(9, "TIE Interceptor", imp, [3, 3, 3, 0], "FRBE"),
        class(10, "TIE Advanced", imp, [2, 3, 3, 2], "FTRE"),
        class(11, "T-65 X-Wing", reb, [3, 2, 3, 2], "FT"),
        class(12, "Senator's Shuttle", reb, [0, 1, 6, 0], ""),
        class(13, "Z-95 Headhunter", Faction::Scum, [2, 2, 2, 2], "FT"),
    ];
    let sets = vec![
        dial(1, "w1t g2b g2s w2t g3s w3b w3t r3k w4s r4k w5s"),
        dial(2, "g1s g1b g2s w2b w2t w3s w3b w3t r3T w4s r4k"),
        dial(3, "w1t g2s g2b w2t r2S g3s w3b w3t g4s r4k w5s"),
        dial(4, "w1t g2s g2b g2t g3s w3b w3t r3k g4s g5s r5k"),
        dial(5, "g1s w1b g2s w2b w2t w3s w3b r3t r4s r4k"),
        dial(6, "g1s g1b w1t g2s w2b w2t w3s w3b r3k w4s r4k"),
        dial(7, "r0s g1s w1b g2s w2b r2t w3s r3b"),
        dial(8, "g1s w1b g2s g2b r2t w3s w3b w3t w4s w5s r5k"),
        dial(9, "w1t g2s g2b g2t g3s w3b w3t r3k g4s w5s r5k"),
        dial(10, "g2s g1b w2b w2t g3s w3b w3t w4s r4k w5s"),
        dial(11, "g1s g1b g2s w2b w2t w3s w3b w3t w4s r4k"),
        dial(12, "r0s w1s w1b w2s"),
        dial(13, "w1b g1s g2s w2b w2t w3s w3b r3k w4s"),
    ];
    let mut pilots = Vec::new();
    let mut fly = |class: u32, xws: &str, skill: u8, cost: u8, ability: Option<PilotAbility>| {
        let known = [
            ("academypilot", "Academy Pilot"),
            ("rookiepilot", "Rookie Pilot"),
            ("bluesquadronnovice", "Blue Squadron Novice"),
        ];
        let name = known.iter().find(|k| k.0 == xws).map_or(xws, |k| k.1);
        pilots.push(Pilot {
            id: PilotId(pilots.len() as u32),
            name: name.to_string(),
            xws: xws.to_string(),
            class: ShipClassId(class),
            skill,
            cost,
            unique: ability.is_some() || cost == 0,
            ability,
            stats: None,
            source: Source::CoreSet,
        });
    };
    let a = Some;
    fly(1, "academypilot", 1, 12, None);
    fly(1, "obsidiansquadronpilot", 3, 13, None);
    fly(1, "blacksquadronpilot", 4, 14, None);
    fly(1, "chaser", 3, 14, a(PilotAbility::FocusWhenFriendlySpendsFocusRange1));
    fly(1, "wampa", 4, 14, a(PilotAbility::CancelAllForFacedownDamage));
    fly(1, "wingedgundark", 5, 15, a(PilotAbility::HitToCritAtRange1));
    fly(1, "nightbeast", 5, 15, a(PilotAbility::FreeFocusAfterGreen));
    fly(1, "backstabber", 6, 16, a(PilotAbility::ExtraAttackDieOutsideDefenderArc));
    fly(1, "darkcurse", 6, 16, a(PilotAbility::DefenderDeniesFocusAndRerolls));
    fly(1, "maulermithel", 7, 17, a(PilotAbility::ExtraAttackDieAtRange1));
    fly(1, "scourge", 7, 17, a(PilotAbility::ExtraAttackDieVsDamaged));
    fly(1, "howlrunner", 8, 18, a(PilotAbility::FriendlyRerollAttackRange1));
    fly(2, "bluesquadronnovice", 2, 24, None);
    fly(2, "redsquadronveteran", 4, 26, None);
    fly(2, "jesspava", 3, 25, a(PilotAbility::RerollPerFriendlyRange1));
    fly(2, "blueace", 5, 27, a(PilotAbility::BoostWithTurnTemplate));
    fly(2, "redace", 6, 29, a(PilotAbility::EvadeOnFirstShieldLoss));
    fly(2, "snapwexley", 6, 28, a(PilotAbility::FreeBoostAfterSpeed2To4));
    fly(2, "elloasty", 7, 30, a(PilotAbility::TallonWhiteWhileUnstressed));
    fly(2, "niennunb", 7, 29, a(PilotAbility::DiscardStressIfEnemyInArcRange1));
    fly(2, "poedameron", 8, 31, a(PilotAbility::FocusToResult));
    fly(3, "zetasquadronpilot", 3, 16, None);
    fly(3, "epsilonace", 4, 17, a(PilotAbility::SkillTwelveWhileUndamaged));
    fly(3, "zetaace", 5, 18, a(PilotAbility::BarrelRollWithStraight2));
    fly(3, "epsilonleader", 6, 19, a(PilotAbility::RemoveStressFriendlyRange1AtCombatStart));
    fly(3, "zetaleader", 7, 20, a(PilotAbility::StressForExtraAttackDie));
    fly(3, "omegaace", 7, 20, a(PilotAbility::SpendLockAndFocusForAllCrits));
    fly(3, "omegaleader", 8, 21, a(PilotAbility::LockedEnemiesCannotModifyDice));
    fly(4, "prototypepilot", 1, 17, None);
    fly(4, "greensquadronpilot", 3, 19, None);
    fly(4, "gemmersojan", 5, 22, a(PilotAbility::AgilityPlus1IfEnemyAtRange1));
    fly(4, "jakefarrell", 7, 24, a(PilotAbility::FreeRepositionAfterFocus));
    fly(4, "tychocelchu", 8, 26, a(PilotAbility::ActionsWhileStressed));
    fly(5, "goldsquadronpilot", 2, 18, None);
    fly(5, "hortonsalm", 8, 25, a(PilotAbility::RerollBlanksAtRange2To3));
    fly(6, "outerrimsmuggler", 1, 27, None);
    fly(6, "chewbacca", 5, 42, a(PilotAbility::FlipCritFacedownImmediately));
    fly(6, "chewbacca_2", 5, 42, a(PilotAbility::AttackWhenFriendlyDestroyed));
    fly(6, "rey", 8, 45, a(PilotAbility::RerollTwoBlanksIfEnemyInArc));
    fly(6, "hansolo", 9, 46, a(PilotAbility::RerollAllDice));
    fly(6, "hansolo_2", 9, 46, a(PilotAbility::SetupAnywhereBeyondRange3));
    fly(7, "omicrongrouppilot", 2, 21, None);
    fly(7, "captainyorr", 4, 24, a(PilotAbility::AbsorbFriendlyStressAtRange1To2));
    fly(7, "coloneljendon", 6, 26, a(PilotAbility::GiveLockToFriendlyAtCombatStart));
    fly(7, "captainkagi", 8, 27, a(PilotAbility::EnemyLocksMustTargetMe));
    fly(8, "gammasquadronpilot", 4, 18, None);
    fly(8, "deathfire", 3, 17, a(PilotAbility::FreeBombActionOnRevealOrAction));
    fly(8, "majorrhymer", 7, 26, a(PilotAbility::SecondaryRangePlusMinus1));
    fly(8, "tomaxbren", 8, 24, a(PilotAbility::FlipTalentFaceupAfterDiscard));
    fly(9, "felswrath", 5, 23, a(PilotAbility::SurviveUntilEndOfCombat));
    fly(9, "lieutenantlorrir", 5, 23, a(PilotAbility::BarrelRollWithBank1ForStress));
    fly(9, "kirkanos", 6, 24, a(PilotAbility::SpendEvadeForHitAtRange2To3));
    fly(9, "tetrancowall", 7, 24, a(PilotAbility::KTurnSpeed1Or3Or5));
    fly(9, "turrphennir", 7, 25, a(PilotAbility::FreeRepositionAfterAttack));
    fly(9, "carnorjax", 8, 26, a(PilotAbility::DenyFocusEvadeAtRange1));
    fly(9, "soontirfel", 9, 27, a(PilotAbility::FocusOnStress));
    fly(10, "tempestsquadronpilot", 2, 21, None);
    fly(10, "lieutenantcolzet", 3, 23, a(PilotAbility::SpendLockToFlipFacedownCrit));
    fly(10, "commanderalozen", 5, 25, a(PilotAbility::LockAtRange1AtCombatStart));
    fly(10, "zertikstrom", 6, 26, a(PilotAbility::DenyEnemyRange1Bonus));
    fly(10, "maarekstele", 7, 27, a(PilotAbility::ChooseCritFromThree));
    fly(10, "junoeclipse", 8, 28, a(PilotAbility::AdjustManeuverSpeedBy1));
    fly(10, "darthvader", 9, 29, a(PilotAbility::TwoActions));
    fly(11, "rookiepilot", 2, 21, None);
    fly(11, "redsquadronpilot", 4, 23, None);
    fly(11, "biggsdarklighter", 5, 25, a(PilotAbility::ProtectFriendsAtRange1));
    fly(11, "garvendreis", 6, 26, a(PilotAbility::PassSpentFocusRange1To2));
    fly(11, "lukeskywalker", 8, 28, a(PilotAbility::DefenseFocusToEvade));
    fly(11, "wedgeantilles", 9, 29, a(PilotAbility::DefenderAgilityMinus1));
    fly(12, "senatorsshuttle", 0, 0, None);
    fly(13, "binayrepirate", 1, 12, None);
    let smuggler = pilots.iter_mut().find(|p| p.xws == "outerrimsmuggler").unwrap();
    smuggler.stats = Some(StatBlock { attack: 2, agility: 1, hull: 6, shields: 4 });

    let mut upgrades = Vec::new();
    let mut card = |id: u32, name: &str, slot: Slot, effect: UpgradeEffect| {
        upgrades.push(Upgrade {
            id: UpgradeId(id),
            name: name.to_string(),
            xws: name.to_lowercase().replace([' ', '-', '.', '\''], ""),
            slot,
            cost: 1,
            text: String::new(),
            effect: Some(effect),
            attack: None,
        });
    };
    card(1, "Proton Torpedoes", Slot::Torpedo, UpgradeEffect::TorpedoFocusToCrit);
    card(2, "Adv. Proton Torpedoes", Slot::Torpedo, UpgradeEffect::TorpedoBlanksToFocus);
    card(3, "Flechette Torpedoes", Slot::Torpedo, UpgradeEffect::TorpedoStressIfHullLow);
    card(6, "Extra Munitions", Slot::Torpedo, UpgradeEffect::OrdnanceTokens);
    card(7, "Seismic Torpedo", Slot::Torpedo, UpgradeEffect::SeismicTorpedoAction);
    card(10, "Ion Cannon Turret", Slot::Turret, UpgradeEffect::TurretIonOneDamage);
    card(13, "Dorsal Turret", Slot::Turret, UpgradeEffect::TurretDorsalExtraDieAtRange1);
    card(20, "Weapons Guidance", Slot::Tech, UpgradeEffect::BlankToHitSpendFocus);
    card(21, "Comm Relay", Slot::Tech, UpgradeEffect::KeepOneEvade);
    card(23, "Primed Thrusters", Slot::Tech, UpgradeEffect::StressAllowsRepositionUnder3);
    card(24, "Sensor Cluster", Slot::Tech, UpgradeEffect::BlankToEvadeSpendFocus);
    card(25, "Targeting Synchronizer", Slot::Tech, UpgradeEffect::ShareLockWithFriendly);
    card(26, "Hyperwave Comm Scanner", Slot::Tech, UpgradeEffect::SetupSkillOverride);
    card(40, "BB-8", Slot::Astromech, UpgradeEffect::FreeBarrelRollOnGreen);
    card(41, "R2 Astromech", Slot::Astromech, UpgradeEffect::Speed1And2AreGreen);
    card(42, "R2-D2", Slot::Astromech, UpgradeEffect::RecoverShieldOnGreen);
    card(44, "R2-F2", Slot::Astromech, UpgradeEffect::AgilityPlus1Action);
    card(47, "R4-D6", Slot::Astromech, UpgradeEffect::CancelHitsForStress);
    card(48, "R5 Astromech", Slot::Astromech, UpgradeEffect::FlipShipCritFacedown);
    card(49, "R5-D8", Slot::Astromech, UpgradeEffect::DiscardFacedownOnDefenseDie);
    card(51, "R5-P9", Slot::Astromech, UpgradeEffect::RecoverShieldSpendFocus);
    card(53, "R7 Astromech", Slot::Astromech, UpgradeEffect::ForceRerollWithLock);
    card(55, "Targeting Astromech", Slot::Astromech, UpgradeEffect::LockAfterRed);
    card(75, "Autothrusters", Slot::Modification, UpgradeEffect::BlankToEvadeAtRange3OrOutsideArc);
    card(76, "Integrated Astromech", Slot::Modification, UpgradeEffect::DiscardAstromechToCancelDamage);
    card(78, "Twin Ion Engine Mk. II", Slot::Modification, UpgradeEffect::BanksAreGreen);
    card(79, "Lightweight Frame", Slot::Modification, UpgradeEffect::ExtraDefenseDieIfOutgunned);
    card(82, "Experimental Interface", Slot::Modification, UpgradeEffect::ExtraActionThenStress);
    card(83, "Long-Range Scanners", Slot::Modification, UpgradeEffect::LocksOnlyAtRange3);
    card(84, "Stealth Device", Slot::Modification, UpgradeEffect::AgilityPlus1DiscardWhenHit);
    card(85, "Targeting Computer", Slot::Modification, UpgradeEffect::BarGainsTargetLock);
    card(86, "Hull Upgrade", Slot::Modification, UpgradeEffect::HullPlus1);
    card(87, "Shield Upgrade", Slot::Modification, UpgradeEffect::ShieldPlus1);
    card(90, "Black One", Slot::Title, UpgradeEffect::RemoveEnemyLockAfterReposition);
    card(92, "BTL-A4 Y-Wing", Slot::Title, UpgradeEffect::TitleArcOnlyThenTurretAttack);
    card(97, "ST-321", Slot::Title, UpgradeEffect::TitleLockAnywhere);
    card(100, "Wired", Slot::Talent, UpgradeEffect::RerollFocusWhenStressed);
    card(101, "Predator", Slot::Talent, UpgradeEffect::RerollOneAttackDie);
    card(102, "Push the Limit", Slot::Talent, UpgradeEffect::FreeActionThenStress);
    card(103, "Veteran Instincts", Slot::Talent, UpgradeEffect::SkillPlus2);
    card(104, "Lone Wolf", Slot::Talent, UpgradeEffect::RerollBlankIfAlone);
    card(105, "Crack Shot", Slot::Talent, UpgradeEffect::CancelEvadeDiscard);
    card(106, "Juke", Slot::Talent, UpgradeEffect::EvadeToFocusIfEvadeToken);
    card(108, "Marksmanship", Slot::Talent, UpgradeEffect::FocusToCritOthersToHitAction);
    card(109, "Determination", Slot::Talent, UpgradeEffect::DiscardPilotCritImmediately);
    card(112, "Expose", Slot::Talent, UpgradeEffect::ExposeAction);
    card(113, "Elusiveness", Slot::Talent, UpgradeEffect::ForceRerollForStress);
    card(114, "Adrenaline Rush", Slot::Talent, UpgradeEffect::TreatRedAsWhiteDiscard);
    card(116, "Calculation", Slot::Talent, UpgradeEffect::FocusToCritSpendFocus);
    card(117, "Cool Hand", Slot::Talent, UpgradeEffect::FocusOrEvadeOnStress);
    card(118, "Daredevil", Slot::Talent, UpgradeEffect::RedTurn1Action);
    card(120, "Decoy", Slot::Talent, UpgradeEffect::SwapSkillWithFriendly);
    card(121, "Draw Their Fire", Slot::Talent, UpgradeEffect::SufferCritForFriendly);
    card(122, "Expert Handling", Slot::Talent, UpgradeEffect::BarrelRollActionDiscardLock);
    card(123, "Expertise", Slot::Talent, UpgradeEffect::AllFocusToHitIfUnstressed);
    card(125, "Lightning Reflexes", Slot::Talent, UpgradeEffect::RotateShip180Discard);
    card(126, "Opportunist", Slot::Talent, UpgradeEffect::ExtraAttackDieForStress);
    card(127, "Outmaneuver", Slot::Talent, UpgradeEffect::ReduceAgilityIfNotInDefenderArc);
    card(128, "Rage", Slot::Talent, UpgradeEffect::RerollUpTo3ForFocusAnd2Stress);
    card(130, "Snap Shot", Slot::Talent, UpgradeEffect::SnapShotReaction);
    card(133, "Trick Shot", Slot::Talent, UpgradeEffect::ExtraAttackDieIfObstructed);
    card(134, "Wingman", Slot::Talent, UpgradeEffect::RemoveStressFriendlyAtCombatStart);
    card(141, "Cluster Missiles", Slot::Missile, UpgradeEffect::MissileAttackTwice);
    card(142, "Homing Missiles", Slot::Missile, UpgradeEffect::MissileDenyEvadeTokens);
    card(143, "Assault Missiles", Slot::Missile, UpgradeEffect::MissileSplashRange1);
    card(145, "Proton Rockets", Slot::Missile, UpgradeEffect::RocketExtraDiceByAgility);
    card(146, "Adv. Homing Missiles", Slot::Missile, UpgradeEffect::MissileFaceupDamage);
    card(150, "Chewbacca", Slot::Crew, UpgradeEffect::CrewDiscardDamageRecoverShield);
    card(151, "Luke Skywalker", Slot::Crew, UpgradeEffect::CrewSecondAttackFocusToHit);
    card(152, "Han Solo", Slot::Crew, UpgradeEffect::CrewLockAllFocusToHit);
    card(153, "Leia Organa", Slot::Crew, UpgradeEffect::CrewRedAsWhiteForAll);
    card(155, "R2-D2", Slot::Crew, UpgradeEffect::CrewRecoverShieldEndPhase);
    card(157, "Gunner", Slot::Crew, UpgradeEffect::CrewSecondAttackOnMiss);
    card(158, "Mercenary Copilot", Slot::Crew, UpgradeEffect::CrewHitToCritAtRange3);
    card(159, "Navigator", Slot::Crew, UpgradeEffect::CrewRotateDialSameBearing);
    card(160, "Weapons Engineer", Slot::Crew, UpgradeEffect::CrewTwoLocks);
    card(162, "Tactician", Slot::Crew, UpgradeEffect::CrewStressTargetAtRange2InArc);
    card(163, "Intelligence Agent", Slot::Crew, UpgradeEffect::CrewPeekEnemyDial);
    card(165, "Jan Ors", Slot::Crew, UpgradeEffect::CrewEvadeInsteadOfFocusForFriendly);
    card(166, "Lando Calrissian", Slot::Crew, UpgradeEffect::CrewRollDefenseForTokensAction);
    card(167, "Rey", Slot::Crew, UpgradeEffect::CrewStoreFocusTokens);
    card(173, "Moff Jerjerrod", Slot::Crew, UpgradeEffect::CrewDiscardToFlipCritFacedown);
    card(174, "Fleet Officer", Slot::Crew, UpgradeEffect::CrewFleetOfficerAction);
    card(179, "Mara Jade", Slot::Crew, UpgradeEffect::CrewStressEnemiesAtRange1EndOfCombat);
    card(180, "Proton Bombs", Slot::Bomb, UpgradeEffect::BombOnRevealProton);
    card(181, "Seismic Charges", Slot::Bomb, UpgradeEffect::BombOnRevealSeismic);
    card(182, "Proximity Mines", Slot::Bomb, UpgradeEffect::BombActionProximityMines);
    card(184, "Cluster Mines", Slot::Bomb, UpgradeEffect::BombActionClusterMines);
    card(185, "Conner Net", Slot::Bomb, UpgradeEffect::BombActionConnerNet);
    card(190, "Heavy Laser Cannon", Slot::Cannon, UpgradeEffect::CannonCritsToHits);
    card(192, "Autoblaster", Slot::Cannon, UpgradeEffect::CannonUncancelableHits);
    card(195, "Tractor Beam", Slot::Cannon, UpgradeEffect::CannonTractorToken);
    card(200, "Fire-Control System", Slot::System, UpgradeEffect::SystemLockAfterAttack);
    card(201, "Advanced Sensors", Slot::System, UpgradeEffect::SystemFreeActionBeforeReveal);
    card(202, "Sensor Jammer", Slot::System, UpgradeEffect::SystemAttackerHitToFocus);
    card(203, "Accuracy Corrector", Slot::System, UpgradeEffect::SystemCancelAllAddTwoHits);
    card(205, "Electronic Baffle", Slot::System, UpgradeEffect::SystemDamageToDiscardToken);
    // (card, dice, nearest and farthest range, requirement, spent, discarded)
    let (free, lock, focus) =
        (AttackRequirement::Free, AttackRequirement::TargetLock, AttackRequirement::Focus);
    for (id, dice, range_min, range_max, requires, spend, discard_to_fire) in [
        (1, 4, 2, 3, lock, true, true),
        (2, 5, 1, 1, lock, true, true),
        (3, 3, 2, 3, lock, true, true),
        (10, 3, 1, 2, free, false, false),
        (13, 2, 1, 2, free, false, false),
        (130, 2, 1, 1, free, false, false),
        (141, 3, 1, 2, lock, true, true),
        (142, 4, 2, 3, lock, false, true),
        (143, 4, 2, 3, lock, true, true),
        (145, 2, 1, 1, focus, false, true),
        (146, 3, 2, 2, lock, false, true),
        (190, 4, 2, 3, free, false, false),
        (192, 3, 1, 1, free, false, false),
        (195, 3, 1, 3, free, false, false),
    ] {
        let u = upgrades.iter_mut().find(|u| u.id == UpgradeId(id)).unwrap();
        u.attack =
            Some(SecondaryWeapon { dice, range_min, range_max, requires, spend, discard_to_fire });
    }
    Content {
        ships: ShipDb { classes },
        dials: ManeuverDb { sets },
        pilots: PilotDb { pilots },
        upgrades: UpgradeDb { upgrades },
    }
}

fn board() -> Board {
    Board { width: 20.0, height: 20.0, deploy_depth: 3.0 }
}

fn from_squads(
    c: &Content,
    squads: &[&Squad],
    teams: &[u8],
    tie_roll: AttackFace,
) -> Result<Table, SetupError> {
    Table::from_squads(board(), bases(), c, squads, teams, tie_roll)
}

fn new_game(
    c: &Content,
    fleets: [&[PilotId]; 2],
    tie_roll: AttackFace,
) -> Result<Table, SetupError> {
    let factions: Vec<Faction> =
        fleets.iter().map(|f| Squad::basic(c, "", f).faction).collect();
    let names = squad_names(&factions);
    let game = GameState::new(c, fleets, [names[0], names[1]], tie_roll)?;
    Ok(Table::new(board(), bases(), game))
}

fn fixed_squad(c: &Content, kind: MissionKind, faction: Faction) -> Squad {
    let names: &[&str] = match (kind, faction) {
        (MissionKind::PoliticalEscort, Faction::RebelAlliance) => &["redsquadronpilot"],
        (MissionKind::PoliticalEscort, _) => &["academypilot", "academypilot"],
        (MissionKind::AsteroidRun, Faction::RebelAlliance) => &["lukeskywalker"],
        (MissionKind::AsteroidRun, _) => &["nightbeast", "maulermithel"],
        (MissionKind::DarkWhispers, Faction::RebelAlliance) => &["redsquadronpilot"],
        (MissionKind::DarkWhispers, _) => &["blacksquadronpilot", "obsidiansquadronpilot"],
    };
    let ids: Vec<PilotId> = names
        .iter()
        .map(|x| c.pilots.pilots.iter().find(|p| p.xws == *x).unwrap().id)
        .collect();
    Squad::basic(c, "m", &ids)
}

/// Cycles a scripted d8 sequence.
fn scripted(vals: Vec<u8>) -> Dice {
    Dice::new(vals).unwrap()
}

/// Every die shows the same.
fn always(v: u8) -> Dice {
    scripted(vec![v])
}

/// Ship `i` receives a stress token; what is told goes to `ev`.
fn gain_stress(c: &Content, gs: &mut Table, i: usize, ev: &mut Vec<String>) {
    gs.game.log.clear();
    let sight = gs.sight();
    gs.game.gain_stress(c, &sight, i);
    ev.extend(gs.combat_events(c));
}

/// A faceup card is dealt to ship `i`; what is told goes to `ev`.
fn apply_crit_effect(
    c: &Content,
    gs: &mut Table,
    i: usize,
    effect: CritEffect,
    rolls: &mut Dice,
    ev: &mut Vec<String>,
) {
    gs.game.log.clear();
    gs.game.apply_crit_effect(c, i, effect, rolls);
    ev.extend(gs.combat_events(c));
}

const R1: f64 = RANGE_BAND_UNITS;
const R3: f64 = 3.0 * RANGE_BAND_UNITS;

const TIE: ShipClassId = ShipClassId(1);
const XWING: ShipClassId = ShipClassId(2);
const P0: PlayerId = PlayerId(0);
const P1: PlayerId = PlayerId(1);

// ---------------- Missions (core rules p.21-24) ----------------

fn mission_game(c: &Content, kind: MissionKind, points: u32) -> Table {
    let rebel = fixed_squad(c, kind, Faction::RebelAlliance);
    let imperial = fixed_squad(c, kind, Faction::Empire);
    let mut gs =
        from_squads(c, &[&rebel, &imperial], &[0, 1], AttackFace::Blank)
            .unwrap();
    gs.start_mission(c, kind, points).unwrap();
    gs
}

fn straight(c: &Content, class: ShipClassId, d: u8) -> u8 {
    let set = c.ships.class(class).unwrap().maneuver_set;
    let dial = &c.dials.set(set).unwrap().maneuvers;
    dial.iter()
        .position(|m| m.steer == Steer::Straight && m.distance == d)
        .unwrap() as u8
}

const T65: ShipClassId = ShipClassId(11);
const SHUTTLE: ShipClassId = ShipClassId(12);

/// Every living ship flies the given straight; both seats commit.
fn fly_all(c: &Content, gs: &mut Table, dist: u8) -> TurnRecords {
    for i in 0..gs.ships.len() {
        if gs.ships[i].destroyed || gs.ships[i].plan.is_some() {
            continue;
        }
        let (owner, id, class) = (gs.ships[i].owner, gs.ships[i].id, gs.ships[i].class);
        gs.plan_maneuver(c, owner, id, straight(c, class, dist)).unwrap();
    }
    gs.commit_plans(c, P0, &mut always(7)).unwrap();
    gs.commit_plans(c, P1, &mut always(7)).unwrap().unwrap()
}

#[test]
fn t65_pilots_luke_wedge_biggs_and_garven() {
    let c = content();
    let north = FRAC_PI_2;
    let south = -FRAC_PI_2;
    // Luke, nose to nose with an Academy Pilot at Range 1, has no focus
    // token; his defense dice show focus + blank and the ability turns
    // the focus into an evade: two of three hits land, on the shields.
    let mut gs = skirmish(
        &c,
        &[("academypilot", Pose::new(10.0, 2.5, north), 2)],
        &[("lukeskywalker", Pose::new(10.0, 8.0, south), 2)],
    );
    let rec = resolve(&c, &mut gs, vec![7, 7, 7, 7, 7, 7, 7, 0, 0, 0, 4, 7]);
    let shot = imperial_shot(&rec);
    assert_eq!(shot.range, 1);
    assert!(shot.defense_faces.contains(&DefenseFace::Evade), "{:?}", shot.defense_faces);
    assert_eq!((shot.shields_lost, shot.hull_lost), (2, 0));
    assert!(rec.events.iter().any(|e| e.contains("Luke Skywalker — focus result to evade")));

    // Wedge at Range 2 of a TIE (agility 3): the defender rolls two dice.
    let mut gs = skirmish(
        &c,
        &[("academypilot", Pose::new(10.0, 1.5, north), 2)],
        &[("wedgeantilles", Pose::new(10.0, 9.0, south), 2)],
    );
    let rec = resolve(&c, &mut gs, vec![7; 12]);
    let shot = rebel_shot(&rec);
    assert_eq!((shot.range, shot.defense_faces.len()), (2, 2));
    assert!(rec.events.iter().any(|e| e.contains("Wedge Antilles — defender agility -1")));

    // Biggs and a Rookie both at Range 1 of the TIE, the Rookie the
    // nearer: the TIE may only shoot Biggs.
    let mut gs = skirmish(
        &c,
        &[("academypilot", Pose::new(10.0, 2.5, north), 2)],
        &[
            ("biggsdarklighter", Pose::new(9.0, 8.0, south), 2),
            ("rookiepilot", Pose::new(11.0, 7.5, south), 2),
        ],
    );
    let rec = resolve(&c, &mut gs, vec![7; 30]);
    assert_eq!(imperial_shot(&rec).defender, ShipId(1), "{:?}", rec.attacks);
    let opts = gs.attack_options(&c, &gs.sight(), 0);
    assert_eq!(opts.len(), 1);
    assert_eq!(opts[0].target, ShipId(1));

    // Garven spends his focus token on the attack; it moves to the
    // Rookie at Range 1 instead of being discarded.
    let mut gs = skirmish(
        &c,
        &[("academypilot", Pose::new(10.0, 2.5, north), 2)],
        &[
            ("garvendreis", Pose::new(9.0, 8.0, south), 2),
            ("rookiepilot", Pose::new(11.0, 8.0, south), 2),
        ],
    );
    gs.ships[1].focus = 1;
    let rec = resolve(
        &c,
        &mut gs,
        vec![4, 7, 7, 7, 7, 7, 7, 7, 7, 7, 7, 7, 7, 7, 7, 7, 7, 7, 7, 7, 7, 7, 7, 7],
    );
    let garven = rec.attacks.iter().find(|a| a.attacker == ShipId(1)).unwrap();
    assert!(garven.attacker_focus_spent);
    assert!(
        rec.events
            .iter()
            .any(|e| e.contains("Garven Dreis — spent focus token passed to Red-2")),
        "{:?}",
        rec.events
    );
}

#[test]
fn lightning_reflexes_spins_and_electronic_baffle_sheds_the_stress() {
    let c = content();
    let (north, south) = (FRAC_PI_2, -FRAC_PI_2);
    let lightning = UpgradeId(125);
    let baffle = UpgradeId(205);
    // A green straight 2, then the switched-on Lightning Reflexes spins
    // the X-Wing to face north, discards the card and stresses it.
    let mut gs = skirmish(
        &c,
        &[("academypilot", Pose::new(10.0, 2.5, north), 2)],
        &[("redsquadronveteran", Pose::new(10.0, 12.0, south), 2)],
    );
    gs.ships[1].upgrades.push(lightning);
    assert_eq!(gs.action_extras(&c, &gs.sight(), 1).toggles, vec![lightning]);
    assert_eq!(
        gs.plan_card_use(&c, P1, ShipId(1), UpgradeId(108), true),
        Err(Rejection::NoSuchUpgrade)
    );
    gs.plan_card_use(&c, P1, ShipId(1), lightning, true).unwrap();
    let rec = resolve(&c, &mut gs, vec![7; 30]);
    let mv = rec.moves.iter().find(|m| m.ship == ShipId(1)).unwrap();
    assert!(
        (mv.end.heading - north).abs() < 1e-9
            || (mv.end.heading - north - 2.0 * std::f64::consts::PI).abs() < 1e-9,
        "{}",
        mv.end.heading
    );
    assert!((mv.end.anchor.y - 11.0).abs() < 1e-9, "spun about the base centre: {:?}", mv.end);
    assert!(!gs.ships[1].upgrades.contains(&lightning));
    assert_eq!(gs.ships[1].stress, 1);
    assert!(gs.ships[1].card_uses.is_empty(), "toggles are per round");

    // With Electronic Baffle switched on too, the stress costs a shield.
    let mut gs = skirmish(
        &c,
        &[("academypilot", Pose::new(10.0, 2.5, north), 2)],
        &[("redsquadronveteran", Pose::new(10.0, 12.0, south), 2)],
    );
    gs.ships[1].upgrades.extend([lightning, baffle]);
    gs.plan_card_use(&c, P1, ShipId(1), lightning, true).unwrap();
    gs.plan_card_use(&c, P1, ShipId(1), baffle, true).unwrap();
    let rec = resolve(&c, &mut gs, vec![7; 30]);
    assert_eq!((gs.ships[1].stress, gs.ships[1].shields), (0, 2));
    assert!(rec.events.iter().any(|e| e.contains("Electronic Baffle — 1 damage, stress")));
    // Ion tokens received during the round are shed at the end of the
    // Combat phase the same way.
    gs.plan_card_use(&c, P1, ShipId(1), baffle, true).unwrap();
    for id in [0u32, 1] {
        let k = id as usize;
        let (owner, class) = (gs.ships[k].owner, gs.ships[k].class);
        let m = dial_index(&c, class, |m| {
            m.steer == Steer::Straight && m.distance == 2
        });
        gs.plan_maneuver(&c, owner, ShipId(id), m).unwrap();
    }
    let mut rolls = scripted(vec![7; 30]);
    gs.commit_plans_begin(&c, P0, &mut rolls).unwrap();
    gs.commit_plans_begin(&c, P1, &mut rolls).unwrap();
    gs.ships[1].ion = 2;
    run_combat(&c, &mut gs, &mut rolls, |_| unreachable!("one target each"));
    assert_eq!((gs.ships[1].ion, gs.ships[1].shields), (0, 0));
}

#[test]
fn jan_ors_swaps_a_friends_focus_for_evade_and_decoy_swaps_skill() {
    let c = content();
    let (north, south) = (FRAC_PI_2, -FRAC_PI_2);
    let jan = UpgradeId(165);
    let decoy = UpgradeId(120);
    // Red-leader (PS4, Jan Ors on) and Red-2 (PS2, Decoy on, focus
    // action) at Range 1 of each other; the TIE ends at Range 1 of both.
    let mut gs = skirmish(
        &c,
        &[("academypilot", Pose::new(10.0, 2.5, north), 2)],
        &[
            ("redsquadronveteran", Pose::new(8.0, 8.0, south), 2),
            ("bluesquadronnovice", Pose::new(10.0, 8.0, south), 2),
        ],
    );
    gs.ships[1].upgrades.push(jan);
    gs.ships[2].upgrades.push(decoy);
    gs.plan_card_use(&c, P1, ShipId(1), jan, true).unwrap();
    gs.plan_card_use(&c, P1, ShipId(2), decoy, true).unwrap();
    gs.plan_action(&c, P1, ShipId(2), PlannedAction::Focus).unwrap();
    let rec = resolve(&c, &mut gs, vec![7; 40]);
    assert!(
        rec.events
            .iter()
            .any(|e| e.contains("Jan Ors — evade token instead of focus for Red-2")),
        "{:?}",
        rec.events
    );
    let mv = rec.moves.iter().find(|m| m.ship == ShipId(2)).unwrap();
    assert_eq!(mv.action_result, ActionResult::Performed);
    assert!(
        rec.events
            .iter()
            .any(|e| e.contains("Decoy — swaps pilot skill with Red-leader (4 / 2)")),
        "{:?}",
        rec.events
    );
    // Red-2 now fires first (skill 4), then Red-leader, then the TIE.
    let order: Vec<ShipId> = rec.attacks.iter().map(|a| a.attacker).collect();
    assert_eq!(order, vec![ShipId(2), ShipId(1), ShipId(0)]);
}

#[test]
fn daredevil_red_turn_and_experimental_interface_free_card_action() {
    let c = content();
    let (north, south) = (FRAC_PI_2, -FRAC_PI_2);
    let daredevil = UpgradeId(118);
    // A T-65 (no boost icon) plans the Daredevil turn as its action:
    // it turns 90°, takes a stress and two attack dice (both hits) hit
    // its shields.
    let mut gs = skirmish(
        &c,
        &[("academypilot", Pose::new(10.0, 2.5, north), 2)],
        &[("redsquadronpilot", Pose::new(10.0, 8.0, south), 2)],
    );
    gs.ships[1].upgrades.push(daredevil);
    assert!(gs.action_extras(&c, &gs.sight(), 1).daredevil);
    assert_eq!(
        gs.plan_action(&c, P1, ShipId(1), PlannedAction::Boost(BoostDir::Straight)),
        Err(Rejection::ActionNotOnBar)
    );
    gs.plan_action(&c, P1, ShipId(1), PlannedAction::Boost(BoostDir::TurnLeft)).unwrap();
    let rec = resolve(&c, &mut gs, vec![0, 0, 7, 7, 7, 7, 7, 7, 7, 7, 7, 7, 7, 7]);
    let mv = rec.moves.iter().find(|m| m.ship == ShipId(1)).unwrap();
    assert_eq!(mv.action_result, ActionResult::Performed);
    let turned = (gs.pose(1).unwrap().heading - south).abs();
    assert!((turned - FRAC_PI_2).abs() < 1e-9, "turned 90°: {turned}");
    assert_eq!((gs.ships[1].stress, gs.ships[1].shields), (1, 0));
    assert!(
        rec.events.iter().any(|e| e.contains("Daredevil — no boost icon: 2 hit(s)")),
        "{:?}",
        rec.events
    );

    // Experimental Interface: Focus, then Marksmanship as a free card
    // action, then a stress token.
    let ei = UpgradeId(82);
    let marksmanship = UpgradeId(108);
    let mut gs = skirmish(
        &c,
        &[("academypilot", Pose::new(10.0, 2.5, north), 2)],
        &[("redsquadronveteran", Pose::new(10.0, 12.0, south), 2)],
    );
    gs.ships[1].upgrades.extend([ei, marksmanship]);
    assert_eq!(
        gs.action_extras(&c, &gs.sight(), 1).second,
        Some(SecondActionKind::CardActionThenStress)
    );
    gs.plan_action(&c, P1, ShipId(1), PlannedAction::Focus).unwrap();
    assert_eq!(
        gs.plan_second_action(&c, P1, ShipId(1), Some(PlannedAction::Evade)),
        Err(Rejection::SecondActionNotAllowed)
    );
    gs.plan_second_action(&c, P1, ShipId(1), Some(PlannedAction::CardAction(marksmanship)))
        .unwrap();
    let rec = resolve(&c, &mut gs, vec![7; 30]);
    let mv = rec.moves.iter().find(|m| m.ship == ShipId(1)).unwrap();
    assert_eq!(
        mv.second,
        Some((PlannedAction::CardAction(marksmanship), ActionResult::Performed))
    );
    assert_eq!(gs.ships[1].stress, 1);
    assert!(rec.events.iter().any(|e| e.contains("Experimental Interface")));
}

#[test]
fn hyperwave_setup_tokens_intelligence_agent_reads_a_dial_and_snap_shot_fires() {
    let c = content();
    let (north, south) = (FRAC_PI_2, -FRAC_PI_2);
    let scanner = UpgradeId(26);
    let agent = UpgradeId(163);
    let snap = UpgradeId(130);
    // Hyperwave on the first TIE: the second, placed at Range 1, gets a
    // focus token as placement completes.
    let pilot = |x: &str| c.pilots.pilots.iter().find(|p| p.xws == x).unwrap().id;
    let imperial = Squad {
        name: "i".into(),
        faction: Faction::Empire,
        ships: vec![
            SquadShip {
                pilot: pilot("academypilot"),
                upgrades: vec![scanner],
                callsign: String::new(),
            },
            SquadShip {
                pilot: pilot("academypilot"),
                upgrades: vec![],
                callsign: String::new(),
            },
        ],
    };
    let rebel = Squad {
        name: "r".into(),
        faction: Faction::RebelAlliance,
        ships: vec![SquadShip {
            pilot: pilot("redsquadronveteran"),
            upgrades: vec![agent, snap],
            callsign: String::new(),
        }],
    };
    let mut gs =
        from_squads(&c, &[&imperial, &rebel], &[0, 1], AttackFace::Hit)
            .unwrap();
    gs.place_ship(&c, P0, ShipId(0), Pose::new(8.0, 2.5, north)).unwrap();
    gs.place_ship(&c, P0, ShipId(1), Pose::new(10.0, 2.5, north)).unwrap();
    gs.place_ship(&c, P1, ShipId(2), Pose::new(10.0, 17.5, south)).unwrap();
    assert_eq!((gs.ships[0].focus, gs.ships[1].focus), (0, 1));
    // Stage: TIE #1 ends its straight 2 at Range 1 in the X-Wing's arc,
    // so Snap Shot fires (2 unmodified dice) during the move; the
    // X-Wing still attacks in the Combat phase. Intelligence Agent read
    // TIE #1's dial (Range 2) at the start of the phase.
    gs.ships[0].pose = Some((Pose::new(2.0, 2.5, north)).bits());
    gs.ships[1].pose = Some((Pose::new(10.0, 4.0, north)).bits());
    gs.ships[2].pose = Some((Pose::new(10.0, 8.0, south)).bits());
    let tie_s2 = straight(&c, TIE, 2);
    let xw_s1 = dial_index(&c, XWING, |m| {
        m.steer == Steer::Straight && m.distance == 1
    });
    gs.plan_maneuver(&c, P0, ShipId(0), tie_s2).unwrap();
    gs.plan_maneuver(&c, P0, ShipId(1), tie_s2).unwrap();
    gs.plan_maneuver(&c, P1, ShipId(2), xw_s1).unwrap();
    let rec = resolve(&c, &mut gs, vec![7; 40]);
    assert!(
        rec.events.iter().any(
            |e| e.contains("Intelligence Agent — Obsidian-2 has dialed straight 2 (green)")
        ),
        "{:?}",
        rec.events
    );
    let mv = rec.moves.iter().find(|m| m.ship == ShipId(1)).unwrap();
    assert_eq!(mv.snap_shots.len(), 1, "{:?}", rec.events);
    let shot = &mv.snap_shots[0];
    assert_eq!(
        (shot.attacker, shot.defender, shot.weapon, shot.attack_faces.len()),
        (ShipId(2), ShipId(1), Some(snap), 2)
    );
    assert!(
        rec.attacks.iter().any(|a| a.attacker == ShipId(2) && a.weapon.is_none()),
        "normal attack still happens"
    );
}

#[test]
fn weapons_engineer_holds_two_locks_and_spends_one() {
    let c = content();
    let (north, south) = (FRAC_PI_2, -FRAC_PI_2);
    let engineer = UpgradeId(160);
    // Two TIEs end at Range 1 of the X-Wing, which locks one of them:
    // Weapons Engineer locks the other as well.
    let mut gs = skirmish(
        &c,
        &[
            ("academypilot", Pose::new(8.0, 2.5, north), 2),
            ("academypilot", Pose::new(12.0, 2.5, north), 2),
        ],
        &[("redsquadronveteran", Pose::new(10.0, 8.0, south), 2)],
    );
    gs.ships[2].upgrades.push(engineer);
    gs.plan_action(&c, P1, ShipId(2), PlannedAction::TargetLock(ShipId(0))).unwrap();
    let rec = resolve(&c, &mut gs, vec![7; 40]);
    assert!(
        rec.events.iter().any(|e| e.contains("Weapons Engineer — second lock on")),
        "{:?}",
        rec.events
    );
    // The attack spent the lock on its target; the other lock stays.
    let shot = rec.attacks.iter().find(|a| a.attacker == ShipId(2)).unwrap();
    assert!(shot.lock_spent);
    let xw = &gs.ships[2];
    assert!(!xw.locks_on(shot.defender));
    let other = if shot.defender == ShipId(0) { ShipId(1) } else { ShipId(0) };
    assert!(xw.locks_on(other), "{:?} / {:?}", xw.lock, xw.lock2);
    assert!(xw.lock2.is_none(), "the remaining lock moved into the first slot");
    // Without the card a new lock replaces the old one.
    let mut plain = ShipState::new(ShipId(9), P0, TIE, gs.ships[0].pilot, "x".into(), 3, 0);
    plain.take_lock(ShipId(1), false);
    plain.take_lock(ShipId(2), false);
    assert_eq!((plain.lock, plain.lock2), (Some(ShipId(2)), None));
}

#[test]
fn han_solo_hotr_is_placed_last_in_the_open_beyond_range_3() {
    let c = content();
    let pilot = |x: &str| c.pilots.pilots.iter().find(|p| p.xws == x).unwrap().id;
    let imperial = Squad::basic(&c, "i", &[pilot("academypilot")]);
    let rebel = Squad::basic(&c, "r", &[pilot("hansolo_2"), pilot("rookiepilot")]);
    let mut gs =
        from_squads(&c, &[&imperial, &rebel], &[0, 1], AttackFace::Hit)
            .unwrap();
    assert!(gs.ships[1].late_setup && !gs.ships[2].late_setup);
    // Han waits for everyone else; meanwhile placement stays hidden.
    assert_eq!(
        gs.place_ship(&c, P1, ShipId(1), Pose::new(10.0, 17.5, -FRAC_PI_2)),
        Err(Rejection::PlaceLast)
    );
    gs.place_ship(&c, P0, ShipId(0), Pose::new(10.0, 2.5, FRAC_PI_2)).unwrap();
    assert!(gs.snapshot_for(&c, P1)[0].pose.is_none(), "hidden until the late step");
    gs.place_ship(&c, P1, ShipId(2), Pose::new(5.0, 17.5, -FRAC_PI_2)).unwrap();
    // Now the board is public and Han may go anywhere beyond Range 3
    // of the TIE.
    assert!(gs.snapshot_for(&c, P1)[0].pose.is_some());
    assert_eq!(gs.deploy_zones(P1), vec![(0.0, 0.0, 20.0, 20.0)]);
    assert_eq!(
        gs.place_ship(&c, P1, ShipId(1), Pose::new(10.0, 8.0, -FRAC_PI_2)),
        Err(Rejection::TooCloseToEnemy)
    );
    gs.place_ship(&c, P1, ShipId(1), Pose::new(15.0, 12.0, -FRAC_PI_2)).unwrap();
    assert_eq!(gs.phase, Phase::Planning);
}

#[test]
fn political_escort_shuttle_protect_escape_and_reinforcements() {
    let c = content();
    let mut gs = mission_game(&c, MissionKind::PoliticalEscort, 100);
    // Red Squadron Pilot (0) vs two Academy Pilots (1, 2); the shuttle
    // (3) is the Rebels', already on the board at the centre of their
    // edge, shields 6 at 100 points, and can neither act nor attack.
    assert_eq!(gs.ships.len(), 4);
    let sh = &gs.ships[3];
    assert_eq!((sh.class, sh.owner, sh.shields, sh.hull), (SHUTTLE, P0, 6, 6));
    let pose = Pose::from_bits(sh.pose.unwrap());
    assert!((pose.anchor.x - 10.0).abs() < 1e-9 && pose.anchor.y < R1);
    assert!(gs.action_bar(&c, sh).is_empty());
    assert_eq!(gs.mission.as_ref().unwrap().shuttle, Some(ShipId(3)));
    // Both sides deploy within Range 2 of their edge; the Empire has
    // the initiative on the points tie.
    assert_eq!(gs.deploy_zones(P0), vec![(0.0, 0.0, 20.0, 5.0)]);
    assert_eq!(gs.deploy_zones(P1), vec![(0.0, 15.0, 20.0, 20.0)]);
    assert_ne!(gs.squad_totals[0], gs.squad_totals[1]);
    gs.place_ship(&c, P0, ShipId(0), Pose::new(13.0, 2.0, FRAC_PI_2)).unwrap();
    assert_eq!(
        gs.place_ship(&c, P1, ShipId(1), Pose::new(5.0, 14.0, -FRAC_PI_2)),
        Err(Rejection::OutOfZone)
    );
    gs.place_ship(&c, P1, ShipId(1), Pose::new(5.0, 18.0, -FRAC_PI_2)).unwrap();
    gs.place_ship(&c, P1, ShipId(2), Pose::new(15.0, 18.0, -FRAC_PI_2)).unwrap();
    assert_eq!(gs.phase, Phase::Planning);
    // Protect is a Rebel-only mission action; it needs Range 1 of the
    // shuttle when performed. The shuttle's dial has speed 0-2 only.
    assert_eq!(
        gs.plan_action(&c, P1, ShipId(1), PlannedAction::Protect),
        Err(Rejection::NotInThisMission)
    );
    assert!(gs.attack_options(&c, &gs.sight(), 3).is_empty());
    gs.plan_action(&c, P0, ShipId(0), PlannedAction::Protect).unwrap();
    // One TIE is lost before the round resolves: the Empire gets an
    // Academy Pilot to place within Range 1 of its edge.
    gs.ships[1].destroyed = true;
    gs.ships[1].hull = 0;
    let rec = fly_all(&c, &mut gs, 2);
    assert!(rec.events.iter().any(|e| e.contains("protect — evade token")), "{:?}", rec.events);
    assert!(rec.events.iter().any(|e| e.contains("reinforcement: Academy Pilot")));
    assert_eq!(gs.ships.len(), 5);
    assert_eq!((gs.ships[4].owner, gs.ships[4].pose, gs.phase), (P1, None, Phase::Placement));
    assert_eq!(gs.deploy_zones(P1), vec![(0.0, 17.5, 20.0, 20.0)]);
    // Mid-game placement is in the open: the Rebel sees the TIE.
    assert!(gs.snapshot_for(&c, P0)[2].pose.is_some());
    assert_eq!(
        gs.place_ship(&c, P1, ShipId(4), Pose::new(10.0, 16.0, -FRAC_PI_2)),
        Err(Rejection::OutOfZone)
    );
    gs.place_ship(&c, P1, ShipId(4), Pose::new(3.0, 19.0, -FRAC_PI_2)).unwrap();
    assert_eq!(gs.phase, Phase::Planning);
    // Losing every Rebel fighter is not an Imperial win: the shuttle
    // must die. Getting the shuttle off the Imperial edge wins.
    gs.ships[0].destroyed = true;
    gs.ships[3].pose = Some((Pose::new(10.0, 18.5, FRAC_PI_2)).bits());
    let rec = fly_all(&c, &mut gs, 2);
    let shuttle_move = rec.moves.iter().find(|m| m.ship == ShipId(3)).unwrap();
    assert!(shuttle_move.destroyed && shuttle_move.escaped);
    assert!(rec.events.iter().any(|e| e.contains("Senator: ESCAPED off the north edge")));
    assert_eq!((gs.phase, gs.winner), (Phase::GameOver, Some(0)));
    assert!(gs.winner_reason().contains("Political Escort"));

    // Off any other edge the shuttle is destroyed: the Empire wins.
    let mut gs = mission_game(&c, MissionKind::PoliticalEscort, 31);
    assert_eq!(gs.ships[3].shields, 0, "no shields below 100 points");
    gs.place_ship(&c, P0, ShipId(0), Pose::new(13.0, 2.0, FRAC_PI_2)).unwrap();
    gs.place_ship(&c, P1, ShipId(1), Pose::new(5.0, 18.0, -FRAC_PI_2)).unwrap();
    gs.place_ship(&c, P1, ShipId(2), Pose::new(15.0, 18.0, -FRAC_PI_2)).unwrap();
    gs.ships[3].pose = Some((Pose::new(1.5, 4.0, std::f64::consts::PI)).bits());
    let rec = fly_all(&c, &mut gs, 2);
    let shuttle_move = rec.moves.iter().find(|m| m.ship == ShipId(3)).unwrap();
    assert!(shuttle_move.destroyed && !shuttle_move.escaped);
    assert_eq!((gs.phase, gs.winner), (Phase::GameOver, Some(1)));
}

#[test]
fn asteroid_run_disabled_ship_flies_slow_until_round_5_then_escapes() {
    let c = content();
    let mut gs = mission_game(&c, MissionKind::AsteroidRun, 100);
    // Luke (0) vs Night Beast (1) and Mauler Mithel (2).
    assert_eq!(gs.ships[0].class, T65);
    assert_eq!(gs.mission.as_ref().unwrap().disabled, Some(ShipId(0)));
    // Rebels deploy in the middle band, the Empire at either edge.
    assert_eq!(gs.deploy_zones(P0), vec![(0.0, 7.5, 20.0, 12.5)]);
    assert_eq!(gs.deploy_zones(P1), vec![(0.0, 17.5, 20.0, 20.0), (0.0, 0.0, 20.0, 2.5)]);
    gs.obstacles.push(Obstacle {
        id: 0,
        kind: ObstacleKind::Asteroid,
        center: Vec2::new(5.0, 10.0).bits(),
        heading: 0.0f64.to_bits(),
        shape: 0,
    });
    assert_eq!(
        gs.place_ship(&c, P0, ShipId(0), Pose::new(7.0, 10.5, FRAC_PI_2)),
        Err(Rejection::TooCloseToObstacle)
    );
    gs.place_ship(&c, P0, ShipId(0), Pose::new(14.0, 10.5, FRAC_PI_2)).unwrap();
    gs.place_ship(&c, P1, ShipId(1), Pose::new(5.0, 19.0, -FRAC_PI_2)).unwrap();
    gs.place_ship(&c, P1, ShipId(2), Pose::new(15.0, 1.5, FRAC_PI_2)).unwrap();
    assert_eq!(gs.phase, Phase::Planning);
    assert_eq!(
        gs.plan_maneuver(&c, P0, ShipId(0), straight(&c, T65, 3)),
        Err(Rejection::ShipDisabled)
    );
    gs.plan_maneuver(&c, P0, ShipId(0), straight(&c, T65, 2)).unwrap();
    // Fleeing before Round 5 destroys the disabled ship: Imperial win.
    gs.ships[0].pose = Some((Pose::new(10.0, 11.5, -FRAC_PI_2)).bits());
    gs.turn = 4;
    gs.ships[0].pose = Some((Pose::new(10.0, 1.5, -FRAC_PI_2)).bits());
    let rec = fly_all(&c, &mut gs, 2);
    let luke = rec.moves.iter().find(|m| m.ship == ShipId(0)).unwrap();
    assert!(luke.destroyed && !luke.escaped);
    assert_eq!((gs.phase, gs.winner), (Phase::GameOver, Some(1)));

    // From Round 5 the ship is repaired and may leave by either
    // player's edge alive.
    let mut gs = mission_game(&c, MissionKind::AsteroidRun, 100);
    gs.place_ship(&c, P0, ShipId(0), Pose::new(14.0, 10.5, FRAC_PI_2)).unwrap();
    gs.place_ship(&c, P1, ShipId(1), Pose::new(5.0, 19.0, -FRAC_PI_2)).unwrap();
    gs.place_ship(&c, P1, ShipId(2), Pose::new(15.0, 19.0, -FRAC_PI_2)).unwrap();
    gs.turn = REPAIR_ROUND;
    gs.plan_maneuver(&c, P0, ShipId(0), straight(&c, T65, 3)).unwrap();
    gs.ships[0].plan = None;
    gs.ships[0].pose = Some((Pose::new(10.0, 1.5, -FRAC_PI_2)).bits());
    let rec = fly_all(&c, &mut gs, 2);
    assert!(rec.moves.iter().find(|m| m.ship == ShipId(0)).unwrap().escaped);
    assert_eq!((gs.phase, gs.winner), (Phase::GameOver, Some(0)));
}

#[test]
fn dark_whispers_scans_satellites_and_carries_them_home() {
    let c = content();
    let mut gs = mission_game(&c, MissionKind::DarkWhispers, 100);
    // Red Squadron Pilot (0) vs Black Squadron Pilot (1), Obsidian (2).
    let sats = gs.mission.as_ref().unwrap().satellites.clone();
    assert_eq!(sats.len(), 4);
    assert!(sats.iter().all(|s| s.on_board() && Vec2::from_bits(s.pos).y < R3));
    assert_eq!(gs.deploy_zones(P0), vec![(0.0, 0.0, 20.0, 2.5)]);
    gs.place_ship(&c, P0, ShipId(0), Pose::new(10.0, 1.5, FRAC_PI_2)).unwrap();
    gs.place_ship(&c, P1, ShipId(1), Pose::new(5.0, 19.0, -FRAC_PI_2)).unwrap();
    gs.place_ship(&c, P1, ShipId(2), Pose::new(15.0, 19.0, -FRAC_PI_2)).unwrap();
    // The Black Squadron TIE ends its move on satellite 1 and scans it
    // instead of shooting; everyone else is out of range.
    let s0 = Vec2::from_bits(sats[0].pos);
    gs.ships[1].pose = Some((Pose::new(s0.x, s0.y - 1.5, FRAC_PI_2)).bits());
    gs.ships[0].pose = Some((Pose::new(2.0, 13.0, FRAC_PI_2)).bits());
    let rec = fly_all(&c, &mut gs, 2);
    assert!(rec.events.iter().any(|e| e.contains("scans satellite 1")), "{:?}", rec.events);
    assert!(rec.attacks.is_empty());
    assert_eq!(gs.ships[1].satellites, 1);
    assert_eq!(gs.mission.as_ref().unwrap().satellites[0].holder, Some(ShipId(1)));
    // Leaving with satellites still on the board destroys the ship
    // and returns its token to the supply; the game goes on.
    gs.ships[1].pose = Some((Pose::new(10.0, 18.5, FRAC_PI_2)).bits());
    let rec = fly_all(&c, &mut gs, 2);
    let m1 = rec.moves.iter().find(|m| m.ship == ShipId(1)).unwrap();
    assert!(m1.destroyed && !m1.escaped);
    assert!(rec.events.iter().any(|e| e.contains("satellite 1 returns to the supply")));
    let sat0 = &gs.mission.as_ref().unwrap().satellites[0];
    assert!(sat0.supply && sat0.holder.is_none());
    assert_eq!((gs.phase, gs.winner), (Phase::Planning, None));
    // Once every satellite has left the board, an Imperial ship
    // carrying one flees off the Imperial edge alive: Imperial win.
    {
        let m = gs.mission.as_mut().unwrap();
        for s in &mut m.satellites[1..] {
            s.holder = Some(ShipId(2));
        }
    }
    gs.ships[2].satellites = 3;
    gs.ships[2].pose = Some((Pose::new(10.0, 18.5, FRAC_PI_2)).bits());
    let rec = fly_all(&c, &mut gs, 2);
    assert!(rec.moves.iter().find(|m| m.ship == ShipId(2)).unwrap().escaped);
    assert_eq!((gs.phase, gs.winner), (Phase::GameOver, Some(1)));

    // Every token back in the supply is a Rebel win; so is a Rebel
    // loss answered by a Rookie Pilot reinforcement at the Rebel edge.
    let mut gs = mission_game(&c, MissionKind::DarkWhispers, 60);
    assert_eq!(gs.mission.as_ref().unwrap().satellites.len(), 2);
    gs.place_ship(&c, P0, ShipId(0), Pose::new(10.0, 1.5, FRAC_PI_2)).unwrap();
    gs.place_ship(&c, P1, ShipId(1), Pose::new(5.0, 19.0, -FRAC_PI_2)).unwrap();
    gs.place_ship(&c, P1, ShipId(2), Pose::new(15.0, 19.0, -FRAC_PI_2)).unwrap();
    gs.ships[0].destroyed = true;
    gs.ships[0].hull = 0;
    let rec = fly_all(&c, &mut gs, 2);
    assert!(rec.events.iter().any(|e| e.contains("reinforcement: Rookie Pilot")));
    assert_eq!((gs.ships[3].owner, gs.ships[3].class, gs.phase), (P0, T65, Phase::Placement));
    assert_eq!(gs.deploy_zones(P0), vec![(0.0, 0.0, 20.0, 2.5)]);
    gs.place_ship(&c, P0, ShipId(3), Pose::new(10.0, 1.5, FRAC_PI_2)).unwrap();
    for s in &mut gs.mission.as_mut().unwrap().satellites {
        s.supply = true;
    }
    fly_all(&c, &mut gs, 2);
    assert_eq!((gs.phase, gs.winner), (Phase::GameOver, Some(0)));
}

/// Basic (cheapest generic) pilot of each class — the sandbox-era
/// fixed fleets.
fn fleet(c: &Content, classes: &[ShipClassId]) -> Vec<PilotId> {
    classes.iter().map(|k| c.pilots.basic_for(*k).unwrap().id).collect()
}

fn new_1v1(c: &Content) -> Table {
    new_game(c,
        [&fleet(c, &[TIE]), &fleet(c, &[XWING])],
        AttackFace::Hit,
    )
    .unwrap()
}

/// Index of a maneuver on a class's dial.
fn dial_index(c: &Content, class: ShipClassId, m: fn(&Maneuver) -> bool) -> u8 {
    let set = c.ships.class(class).unwrap().maneuver_set;
    c.dials.set(set).unwrap().maneuvers.iter().position(m).unwrap() as u8
}

fn straight2(c: &Content, class: ShipClassId) -> u8 {
    dial_index(c, class, |m| m.steer == Steer::Straight && m.distance == 2)
}

fn place_both(c: &Content, gs: &mut Table) {
    gs.place_ship(c, P0, ShipId(0), Pose::new(10.0, 2.0, FRAC_PI_2)).unwrap();
    gs.place_ship(c, P1, ShipId(1), Pose::new(10.0, 18.0, -FRAC_PI_2)).unwrap();
}

#[test]
fn callsigns_default_and_rename_during_placement() {
    let c = content();
    let mut gs = new_game(&c,
        [&fleet(&c, &[TIE, TIE]), &fleet(&c, &[XWING, XWING])],
        AttackFace::Hit,
    )
    .unwrap();
    let names: Vec<&str> = gs.ships.iter().map(|s| s.callsign.as_str()).collect();
    assert_eq!(names, ["Obsidian-leader", "Obsidian-2", "Red-leader", "Red-2"]);
    assert_eq!(gs.snapshot_for(&c, P1)[3].callsign, "Red-2");
    assert_eq!(gs.snapshot_for(&c, P1)[3].pilot, "Blue Squadron Novice");
    assert_eq!(gs.snapshot_for(&c, P1)[3].skill, 2);

    assert_eq!(gs.rename(P1, ShipId(3), "  Rogue-3 "), Ok(()));
    assert_eq!(gs.ships[3].callsign, "Rogue-3");
    assert_eq!(gs.rename(P0, ShipId(3), "Mine"), Err(Rejection::NotYourShip));
    assert!(matches!(gs.rename(P0, ShipId(0), "   "), Err(Rejection::BadCallsign(_))));
    assert!(matches!(gs.rename(P0, ShipId(0), "red-LEADER"), Err(Rejection::BadCallsign(_))));
    // Narration uses the callsign.
    assert_eq!(gs.label(3), "Rogue-3");

    for (p, id, y, h) in [(P0, 0, 2.0, FRAC_PI_2), (P0, 1, 2.0, FRAC_PI_2)] {
        gs.place_ship(&c, p, ShipId(id), Pose::new(6.0 + id as f64 * 4.0, y, h)).unwrap();
    }
    for (id, x) in [(2u32, 6.0), (3, 10.0)] {
        gs.place_ship(&c, P1, ShipId(id), Pose::new(x, 18.0, -FRAC_PI_2)).unwrap();
    }
    assert_eq!(gs.phase, Phase::Planning);
    assert_eq!(gs.rename(P0, ShipId(0), "Late"), Err(Rejection::WrongPhase));
}

#[test]
fn initiative_breaks_equal_pilot_skill() {
    // Mirror match: all skill 1; P1 holds initiative.
    let ships =
        [(ShipId(0), 1, P0), (ShipId(1), 1, P0), (ShipId(2), 1, P1), (ShipId(3), 1, P1)];
    assert_eq!(
        movement_order(&ships, &[1, 0]),
        vec![ShipId(2), ShipId(3), ShipId(0), ShipId(1)]
    );
    assert_eq!(combat_order(&ships, &[1, 0]), vec![ShipId(2), ShipId(3), ShipId(0), ShipId(1)]);
}

#[test]
fn team_game_seats_share_a_side_and_win_together() {
    let c = content();
    let pilot = |x: &str| c.pilots.pilots.iter().find(|p| p.xws == x).unwrap().id;
    let tie = Squad::basic(&c, "i", &[pilot("academypilot")]);
    let xw = Squad::basic(&c, "r", &[pilot("bluesquadronnovice")]);
    let mut gs = from_squads(&c,
        &[&tie, &tie, &xw, &xw],
        &[0, 0, 1, 1],
        AttackFace::Hit,
    )
    .unwrap();
    assert_eq!(gs.sides(), 2);
    assert!(gs.allied(P0, PlayerId(1)) && !gs.allied(P0, PlayerId(2)));
    assert_eq!((gs.seat_of(PlayerId(1)), gs.seat_of(PlayerId(3))), (Seat::South, Seat::North));
    // Initiative: the Imperial side (2 x 12 = 24) is cheaper than the Rebel one.
    assert_eq!(gs.initiative, P0);
    assert_eq!(gs.seat_ranks(), vec![0, 1, 2, 3]);
    // Teammates deploy on the same edge, side by side.
    gs.place_ship(&c, P0, ShipId(0), Pose::new(6.0, 2.5, FRAC_PI_2)).unwrap();
    gs.place_ship(&c, PlayerId(1), ShipId(1), Pose::new(14.0, 2.5, FRAC_PI_2)).unwrap();
    assert_eq!(
        gs.place_ship(&c, PlayerId(1), ShipId(1), Pose::new(6.0, 2.5, FRAC_PI_2)),
        Err(Rejection::OverlapsShip),
        "not onto a teammate"
    );
    // Squad callsigns stay distinct across four seats.
    let names: Vec<&str> = gs.ships.iter().map(|s| s.callsign.as_str()).collect();
    assert_eq!(names, vec!["Obsidian-leader", "Onyx-leader", "Red-leader", "Gold-leader"]);
    // One Rebel resigning leaves the game on; the second ends it.
    assert_eq!(gs.resign(PlayerId(2)), None);
    assert_eq!(gs.phase, Phase::Placement);
    assert_eq!(gs.resign(PlayerId(3)), Some(0));
    assert_eq!(gs.winner, Some(0));
}

#[test]
fn free_for_all_deploys_each_side_on_its_own_edge() {
    let c = content();
    let pilot = |x: &str| c.pilots.pilots.iter().find(|p| p.xws == x).unwrap().id;
    let tie = Squad::basic(&c, "i", &[pilot("academypilot")]);
    let xw = Squad::basic(&c, "r", &[pilot("bluesquadronnovice")]);
    let mut gs = from_squads(&c,
        &[&tie, &xw, &tie],
        &[],
        AttackFace::Hit,
    )
    .unwrap();
    assert_eq!(gs.teams, vec![0, 1, 2]);
    assert!(!gs.allied(P0, PlayerId(2)), "same faction, different sides");
    assert_eq!(gs.seat_of(PlayerId(2)), Seat::East);
    assert_eq!(
        gs.place_ship(&c, PlayerId(2), ShipId(2), Pose::new(10.0, 10.0, std::f64::consts::PI)),
        Err(Rejection::OutOfZone)
    );
    gs.place_ship(&c, PlayerId(2), ShipId(2), Pose::new(18.5, 10.0, std::f64::consts::PI))
        .unwrap();
    // Two sides gone: the last one standing wins.
    gs.ships[0].destroyed = true;
    gs.ships[1].destroyed = true;
    gs.check_victory();
    assert_eq!((gs.phase, gs.winner), (Phase::GameOver, Some(2)));
}

#[test]
fn initiative_setup_rules() {
    // Lower squad total takes it outright — die irrelevant.
    assert_eq!(initiative_seat(&[12, 24], AttackFace::Blank), 0);
    assert_eq!(initiative_seat(&[48, 24], AttackFace::Hit), 1);
    // Tie: seat 0 rolls. Hit/Crit keeps, Focus/Blank hands over.
    assert_eq!(initiative_seat(&[24, 24], AttackFace::Hit), 0);
    assert_eq!(initiative_seat(&[24, 24], AttackFace::Crit), 0);
    assert_eq!(initiative_seat(&[24, 24], AttackFace::Focus), 1);
    assert_eq!(initiative_seat(&[24, 24], AttackFace::Blank), 1);
    // Three sides: the lowest total wins outright; a tie between the
    // last two hands over to the second of them on a blank.
    assert_eq!(initiative_seat(&[30, 20, 25], AttackFace::Blank), 1);
    assert_eq!(initiative_seat(&[30, 20, 20], AttackFace::Blank), 2);
}

#[test]
fn placement_flow_and_hidden_information() {
    let c = content();
    let mut gs = new_1v1(&c);
    assert_eq!(gs.phase, Phase::Placement);
    // Wrong zone rejected; opponent's ship rejected.
    assert_eq!(
        gs.place_ship(&c, P0, ShipId(0), Pose::new(10.0, 10.0, 0.0)),
        Err(Rejection::OutOfZone)
    );
    assert_eq!(
        gs.place_ship(&c, P0, ShipId(1), Pose::new(10.0, 2.0, 0.0)),
        Err(Rejection::NotYourShip)
    );
    gs.place_ship(&c, P0, ShipId(0), Pose::new(10.0, 2.0, FRAC_PI_2)).unwrap();
    // P1 cannot see P0's pose during placement; P0 can.
    assert!(gs.snapshot_for(&c, P1)[0].pose.is_none());
    assert!(gs.snapshot_for(&c, P0)[0].pose.is_some());
    gs.place_ship(&c, P1, ShipId(1), Pose::new(10.0, 18.0, -FRAC_PI_2)).unwrap();
    assert_eq!(gs.phase, Phase::Planning);
    // Everything visible once placement ends.
    assert!(gs.snapshot_for(&c, P1)[0].pose.is_some());
}

#[test]
fn full_turn_resolves_in_pilot_skill_order() {
    let c = content();
    let mut gs = new_1v1(&c);
    place_both(&c, &mut gs);
    gs.plan_maneuver(&c, P0, ShipId(0), straight2(&c, TIE)).unwrap();
    // Opponent never sees the plan.
    assert!(gs.snapshot_for(&c, P1)[0].plan.is_none());
    gs.plan_maneuver(&c, P1, ShipId(1), straight2(&c, XWING)).unwrap();
    assert_eq!(gs.commit_plans(&c, P0, &mut always(7)).unwrap(), None);
    let moves = gs.commit_plans(&c, P1, &mut always(7)).unwrap().unwrap().moves;
    // TIE (skill 1) before X-Wing (skill 2).
    assert_eq!(moves[0].ship, ShipId(0));
    assert_eq!(moves[1].ship, ShipId(1));
    assert!((moves[0].end.anchor.y - 4.0).abs() < 1e-9);
    assert!((moves[1].end.anchor.y - 16.0).abs() < 1e-9);
    assert_eq!(gs.phase, Phase::Planning);
    assert_eq!(gs.turn, 2);
    assert_eq!(gs.committed, vec![false, false]);
}

#[test]
fn red_maneuver_stresses_and_blue_sheds() {
    let c = content();
    let mut gs = new_1v1(&c);
    place_both(&c, &mut gs);
    let kturn3 =
        dial_index(&c, TIE, |m| m.steer == Steer::KTurn && m.distance == 3);
    gs.plan_maneuver(&c, P0, ShipId(0), kturn3).unwrap();
    gs.plan_maneuver(&c, P1, ShipId(1), straight2(&c, XWING)).unwrap();
    gs.commit_plans(&c, P0, &mut always(7)).unwrap();
    let moves = gs.commit_plans(&c, P1, &mut always(7)).unwrap().unwrap().moves;
    assert_eq!(moves[0].stress, 1);
    // Stressed: red now forbidden, blue allowed…
    assert_eq!(
        gs.plan_maneuver(&c, P0, ShipId(0), kturn3),
        Err(Rejection::StressedRedForbidden)
    );
    gs.plan_maneuver(&c, P0, ShipId(0), straight2(&c, TIE)).unwrap();
    gs.plan_maneuver(&c, P1, ShipId(1), straight2(&c, XWING)).unwrap();
    gs.commit_plans(&c, P0, &mut always(7)).unwrap();
    let moves = gs.commit_plans(&c, P1, &mut always(7)).unwrap().unwrap().moves;
    // …and the blue straight shed the token.
    assert_eq!(moves[0].stress, 0);
}

#[test]
fn flying_off_the_board_destroys_the_ship() {
    let c = content();
    let mut gs = new_1v1(&c);
    // TIE faces south toward its own edge.
    gs.place_ship(&c, P0, ShipId(0), Pose::new(10.0, 2.0, -FRAC_PI_2)).unwrap();
    gs.place_ship(&c, P1, ShipId(1), Pose::new(10.0, 18.0, -FRAC_PI_2)).unwrap();
    let s3 =
        dial_index(&c, TIE, |m| m.steer == Steer::Straight && m.distance == 3);
    gs.plan_maneuver(&c, P0, ShipId(0), s3).unwrap();
    gs.plan_maneuver(&c, P1, ShipId(1), straight2(&c, XWING)).unwrap();
    gs.commit_plans(&c, P0, &mut always(7)).unwrap();
    let moves = gs.commit_plans(&c, P1, &mut always(7)).unwrap().unwrap().moves;
    assert!(moves[0].destroyed);
    assert_eq!(gs.phase, Phase::GameOver);
    assert_eq!(gs.winner, Some(1));
}

#[test]
fn bumping_stops_short_of_overlap() {
    let c = content();
    let mut gs = new_1v1(&c);
    place_both(&c, &mut gs);
    let s5_tie =
        dial_index(&c, TIE, |m| m.steer == Steer::Straight && m.distance == 5);
    let s4_xw = dial_index(&c, XWING, |m| {
        m.steer == Steer::Straight && m.distance == 4
    });
    // Turn 1: TIE 2→7, X-Wing 18→14.
    gs.plan_maneuver(&c, P0, ShipId(0), s5_tie).unwrap();
    gs.plan_maneuver(&c, P1, ShipId(1), s4_xw).unwrap();
    gs.commit_plans(&c, P0, &mut always(7)).unwrap();
    gs.commit_plans(&c, P1, &mut always(7)).unwrap().unwrap();
    // Turn 2: TIE tries 7→12; X-Wing hull occupies y 14..15, so a
    // straight-4 to 10 is clear, but TIE first: 7→12 is clear too.
    // Then X-Wing 14→10 must bump against the TIE hull at 11..12.
    gs.plan_maneuver(&c, P0, ShipId(0), s5_tie).unwrap();
    gs.plan_maneuver(&c, P1, ShipId(1), s4_xw).unwrap();
    gs.commit_plans(&c, P0, &mut always(7)).unwrap();
    let moves = gs.commit_plans(&c, P1, &mut always(7)).unwrap().unwrap().moves;
    let xw = moves.iter().find(|m| m.ship == ShipId(1)).unwrap();
    assert!(xw.bumped, "X-Wing should bump into the TIE");
    // Stopped just above the TIE's hull (anchor is its front/south end).
    assert!(xw.end.anchor.y > 12.0 && xw.end.anchor.y < 12.3, "{}", xw.end.anchor.y);
    let tie = moves.iter().find(|m| m.ship == ShipId(0)).unwrap();
    assert!(!tie.bumped);
}

#[test]
fn action_bar_is_enforced_at_planning() {
    let c = content();
    let mut gs = new_1v1(&c);
    place_both(&c, &mut gs);
    // TIE has no TargetLock on its bar; X-Wing does.
    assert_eq!(
        gs.plan_action(&c, P0, ShipId(0), PlannedAction::TargetLock(ShipId(1))),
        Err(Rejection::ActionNotOnBar)
    );
    gs.plan_action(&c, P1, ShipId(1), PlannedAction::TargetLock(ShipId(0))).unwrap();
    // Locking your own ship is refused.
    assert_eq!(
        gs.plan_action(&c, P1, ShipId(1), PlannedAction::TargetLock(ShipId(1))),
        Err(Rejection::BadLockTarget)
    );
    // Pass needs no bar entry.
    gs.plan_action(&c, P0, ShipId(0), PlannedAction::Pass).unwrap();
}

#[test]
fn focus_performs_then_end_phase_clears_it() {
    let c = content();
    let mut gs = new_1v1(&c);
    place_both(&c, &mut gs);
    gs.plan_maneuver(&c, P0, ShipId(0), straight2(&c, TIE)).unwrap();
    gs.plan_action(&c, P0, ShipId(0), PlannedAction::Focus).unwrap();
    gs.plan_maneuver(&c, P1, ShipId(1), straight2(&c, XWING)).unwrap();
    gs.commit_plans(&c, P0, &mut always(7)).unwrap();
    let moves = gs.commit_plans(&c, P1, &mut always(7)).unwrap().unwrap().moves;
    assert_eq!(moves[0].action, PlannedAction::Focus);
    assert_eq!(moves[0].action_result, ActionResult::Performed);
    // Unplanned action defaults to Pass.
    assert_eq!(moves[1].action, PlannedAction::Pass);
    // End phase already removed the unspent token (no combat phase yet).
    assert_eq!(gs.ships[0].focus, 0);
}

#[test]
fn stress_forfeits_the_action() {
    let c = content();
    let mut gs = new_1v1(&c);
    place_both(&c, &mut gs);
    let kturn3 =
        dial_index(&c, TIE, |m| m.steer == Steer::KTurn && m.distance == 3);
    gs.plan_maneuver(&c, P0, ShipId(0), kturn3).unwrap();
    gs.plan_action(&c, P0, ShipId(0), PlannedAction::Focus).unwrap();
    gs.plan_maneuver(&c, P1, ShipId(1), straight2(&c, XWING)).unwrap();
    gs.commit_plans(&c, P0, &mut always(7)).unwrap();
    let moves = gs.commit_plans(&c, P1, &mut always(7)).unwrap().unwrap().moves;
    assert_eq!(moves[0].action_result, ActionResult::SkippedStressed);
}

#[test]
fn barrel_roll_shifts_after_the_move() {
    let c = content();
    let mut gs = new_1v1(&c);
    place_both(&c, &mut gs);
    gs.plan_maneuver(&c, P0, ShipId(0), straight2(&c, TIE)).unwrap();
    gs.plan_action(&c, P0, ShipId(0), PlannedAction::BarrelRoll(Side::Left)).unwrap();
    gs.plan_maneuver(&c, P1, ShipId(1), straight2(&c, XWING)).unwrap();
    gs.commit_plans(&c, P0, &mut always(7)).unwrap();
    let moves = gs.commit_plans(&c, P1, &mut always(7)).unwrap().unwrap().moves;
    assert_eq!(moves[0].action_result, ActionResult::Performed);
    // Straight-2 north from (10,2) → (10,4); left of north is -X,
    // shifted by template (1) + base width (1) = 2.
    let pose = gs.pose(0).unwrap();
    assert!((pose.anchor.x - 8.0).abs() < 1e-9, "{}", pose.anchor.x);
    assert!((pose.anchor.y - 4.0).abs() < 1e-9);
}

#[test]
fn target_lock_needs_range_and_persists() {
    let c = content();
    let mut gs = new_1v1(&c);
    // Far apart: lock fails at resolution.
    place_both(&c, &mut gs);
    let s5 =
        dial_index(&c, TIE, |m| m.steer == Steer::Straight && m.distance == 5);
    let s4 = dial_index(&c, XWING, |m| {
        m.steer == Steer::Straight && m.distance == 4
    });
    gs.plan_maneuver(&c, P0, ShipId(0), straight2(&c, TIE)).unwrap();
    gs.plan_maneuver(&c, P1, ShipId(1), straight2(&c, XWING)).unwrap();
    gs.plan_action(&c, P1, ShipId(1), PlannedAction::TargetLock(ShipId(0))).unwrap();
    gs.commit_plans(&c, P0, &mut always(0)).unwrap();
    let moves = gs.commit_plans(&c, P1, &mut always(0)).unwrap().unwrap().moves;
    // TIE at y=4, X-Wing at 16: gap 11 units — far beyond range 3.
    assert_eq!(moves[1].action_result, ActionResult::Failed);
    assert_eq!(gs.ships[1].lock, None);
    // Close the distance: TIE 4→9, X-Wing 16→12 (gap 9→wait: hulls
    // TIE [8,9], XW [12,13] → 3 units = range 2). Lock succeeds.
    gs.plan_maneuver(&c, P0, ShipId(0), s5).unwrap();
    gs.plan_maneuver(&c, P1, ShipId(1), s4).unwrap();
    gs.plan_action(&c, P1, ShipId(1), PlannedAction::TargetLock(ShipId(0))).unwrap();
    gs.commit_plans(&c, P0, &mut always(0)).unwrap();
    let moves = gs.commit_plans(&c, P1, &mut always(0)).unwrap().unwrap().moves;
    assert_eq!(moves[1].action_result, ActionResult::Performed);
    assert_eq!(gs.ships[1].lock, Some(ShipId(0)));
    // Locks persist through the End phase and the next turn.
    gs.plan_maneuver(&c, P0, ShipId(0), straight2(&c, TIE)).unwrap();
    gs.plan_maneuver(&c, P1, ShipId(1), straight2(&c, XWING)).unwrap();
    gs.commit_plans(&c, P0, &mut always(0)).unwrap();
    gs.commit_plans(&c, P1, &mut always(0)).unwrap().unwrap();
    assert_eq!(gs.ships[1].lock, Some(ShipId(0)));
}

#[test]
fn ships_move_through_others_when_final_position_is_clear() {
    let c = content();
    // Two TIEs south, one X-Wing north; TIE #0 flies straight through
    // the space occupied by TIE #1 and lands cleanly beyond it.
    let mut gs = new_game(&c,
        [&fleet(&c, &[TIE, TIE]), &fleet(&c, &[XWING])],
        AttackFace::Hit,
    )
    .unwrap();
    gs.place_ship(&c, P0, ShipId(0), Pose::new(10.0, 1.15, FRAC_PI_2)).unwrap();
    // Blocker faces east across #0's path (hull y 2.0-3.0).
    gs.place_ship(&c, P0, ShipId(1), Pose::new(10.0, 2.5, 0.0)).unwrap();
    gs.place_ship(&c, P1, ShipId(2), Pose::new(10.0, 18.0, -FRAC_PI_2)).unwrap();
    let s3 =
        dial_index(&c, TIE, |m| m.steer == Steer::Straight && m.distance == 3);
    let s2 =
        dial_index(&c, TIE, |m| m.steer == Steer::Straight && m.distance == 2);
    gs.plan_maneuver(&c, P0, ShipId(0), s3).unwrap();
    gs.plan_maneuver(&c, P0, ShipId(1), s2).unwrap();
    gs.plan_maneuver(&c, P1, ShipId(2), straight2(&c, XWING)).unwrap();
    gs.commit_plans(&c, P0, &mut always(6)).unwrap();
    let moves = gs.commit_plans(&c, P1, &mut always(6)).unwrap().unwrap().moves;
    let mover = moves.iter().find(|m| m.ship == ShipId(0)).unwrap();
    assert!(!mover.bumped, "final position is clear: passing through is legal");
    assert!((mover.end.anchor.y - 4.15).abs() < 1e-9, "{}", mover.end.anchor.y);
}

#[test]
fn kturn_ending_in_overlap_becomes_a_straight_without_the_flip() {
    let c = content();
    let mut gs = new_1v1(&c);
    place_both(&c, &mut gs);
    let tie_s5 =
        dial_index(&c, TIE, |m| m.steer == Steer::Straight && m.distance == 5);
    let tie_s2 = straight2(&c, TIE);
    let xw_s4 = dial_index(&c, XWING, |m| {
        m.steer == Steer::Straight && m.distance == 4
    });
    let xw_k4 =
        dial_index(&c, XWING, |m| m.steer == Steer::KTurn && m.distance == 4);
    // Turn 1: TIE 2→7, X-Wing 18→14.
    gs.plan_maneuver(&c, P0, ShipId(0), tie_s5).unwrap();
    gs.plan_maneuver(&c, P1, ShipId(1), xw_s4).unwrap();
    gs.commit_plans(&c, P0, &mut always(6)).unwrap();
    gs.commit_plans(&c, P1, &mut always(6)).unwrap().unwrap();
    // Turn 2: TIE moves to 9 (hull 8-9); the X-Wing's K-turn to 10
    // would flip and overlap (flipped hull 9-10), so it executes as a
    // plain straight-4 instead: same spot, heading unchanged, and the
    // red maneuver still stresses.
    gs.plan_maneuver(&c, P0, ShipId(0), tie_s2).unwrap();
    gs.plan_maneuver(&c, P1, ShipId(1), xw_k4).unwrap();
    gs.commit_plans(&c, P0, &mut always(6)).unwrap();
    let moves = gs.commit_plans(&c, P1, &mut always(6)).unwrap().unwrap().moves;
    let xw = moves.iter().find(|m| m.ship == ShipId(1)).unwrap();
    assert!((xw.end.anchor.y - 10.0).abs() < 1e-9, "{}", xw.end.anchor.y);
    assert!(
        (xw.end.heading + FRAC_PI_2).abs() < 1e-9,
        "no 180° flip on a bumped K-turn: {}",
        xw.end.heading
    );
    assert!(!xw.bumped, "degraded straight lands clear");
    assert_eq!(xw.stress, 1, "the red maneuver still stresses");
}

#[test]
fn boost_flies_a_one_template_after_the_move() {
    let c = content();
    let mut gs = new_1v1(&c);
    place_both(&c, &mut gs);
    // TIE has no Boost on its bar.
    assert_eq!(
        gs.plan_action(&c, P0, ShipId(0), PlannedAction::Boost(BoostDir::Straight)),
        Err(Rejection::ActionNotOnBar)
    );
    gs.plan_maneuver(&c, P0, ShipId(0), straight2(&c, TIE)).unwrap();
    gs.plan_maneuver(&c, P1, ShipId(1), straight2(&c, XWING)).unwrap();
    gs.plan_action(&c, P1, ShipId(1), PlannedAction::Boost(BoostDir::Straight))
        .unwrap();
    gs.commit_plans(&c, P0, &mut always(6)).unwrap();
    let moves = gs.commit_plans(&c, P1, &mut always(6)).unwrap().unwrap().moves;
    let xw = moves.iter().find(|m| m.ship == ShipId(1)).unwrap();
    assert_eq!(xw.action_result, ActionResult::Performed);
    // Straight-2 (18→16) plus boost straight-1 → 15; no stress change.
    let pose = gs.pose(1).unwrap();
    assert!((pose.anchor.y - 15.0).abs() < 1e-9, "{}", pose.anchor.y);
    assert_eq!(gs.ships[1].stress, 0);
}

/// TIE south at (10,2.5) flying straight-5 and X-Wing north at
/// (10,17.5) flying straight-4 end nose-to-nose at range 3.
fn fly_to_range3(c: &Content, gs: &mut Table, rolls: &mut Dice) {
    gs.place_ship(c, P0, ShipId(0), Pose::new(10.0, 2.5, FRAC_PI_2)).unwrap();
    gs.place_ship(c, P1, ShipId(1), Pose::new(10.0, 17.5, -FRAC_PI_2)).unwrap();
    let s5 =
        dial_index(c, TIE, |m| m.steer == Steer::Straight && m.distance == 5);
    let s4 = dial_index(c, XWING, |m| {
        m.steer == Steer::Straight && m.distance == 4
    });
    gs.plan_maneuver(c, P0, ShipId(0), s5).unwrap();
    gs.plan_maneuver(c, P1, ShipId(1), s4).unwrap();
    gs.commit_plans(c, P0, rolls).unwrap();
}

#[test]
fn upgrades_modify_stats_action_bar_and_skill() {
    let c = content();
    let pilot = |x: &str| c.pilots.pilots.iter().find(|p| p.xws == x).unwrap().id;
    let up = |x: &str| c.upgrades.upgrades.iter().find(|u| u.xws == x).unwrap().id;
    let imperial = Squad {
        name: "i".into(),
        faction: Faction::Empire,
        ships: vec![SquadShip {
            pilot: pilot("academypilot"),
            upgrades: vec![up("stealthdevice"), up("targetingcomputer")],
            callsign: String::new(),
        }],
    };
    let rebel = Squad {
        name: "r".into(),
        faction: Faction::RebelAlliance,
        ships: vec![SquadShip {
            pilot: pilot("redsquadronveteran"),
            upgrades: vec![up("veteraninstincts"), up("hullupgrade"), up("shieldupgrade")],
            callsign: String::new(),
        }],
    };
    let mut gs = from_squads(&c,
        &[&imperial, &rebel],
        &[0, 1],
        AttackFace::Hit,
    )
    .unwrap();
    // Starting values include Hull/Shield Upgrade; skill includes VI.
    assert_eq!((gs.ships[1].hull, gs.ships[1].shields), (4, 4));
    assert_eq!(gs.effective_skill(&c, &gs.ships[1]), 6);
    assert_eq!(gs.agility(&c, &gs.sight(), 0), 4, "Stealth Device");
    let view = &gs.snapshot_for(&c, P1)[1];
    assert_eq!((view.max_hull, view.max_shields, view.skill), (4, 4, 6));
    // Same setup as fly_to_range3, with action checks in between.
    gs.place_ship(&c, P0, ShipId(0), Pose::new(10.0, 2.5, FRAC_PI_2)).unwrap();
    gs.place_ship(&c, P1, ShipId(1), Pose::new(10.0, 17.5, -FRAC_PI_2)).unwrap();
    // Targeting Computer puts target lock on the TIE's bar; the T-70
    // still has no evade.
    assert_eq!(gs.plan_action(&c, P0, ShipId(0), PlannedAction::TargetLock(ShipId(1))), Ok(()));
    assert_eq!(gs.plan_action(&c, P0, ShipId(0), PlannedAction::Pass), Ok(()));
    assert_eq!(
        gs.plan_action(&c, P1, ShipId(1), PlannedAction::Evade),
        Err(Rejection::ActionNotOnBar)
    );
    let s5 =
        dial_index(&c, TIE, |m| m.steer == Steer::Straight && m.distance == 5);
    let s4 = dial_index(&c, XWING, |m| {
        m.steer == Steer::Straight && m.distance == 4
    });
    gs.plan_maneuver(&c, P0, ShipId(0), s5).unwrap();
    gs.plan_maneuver(&c, P1, ShipId(1), s4).unwrap();
    // X-Wing (skill 6) fires first: 1 hit + 2 blanks; TIE defends with
    // 3 + 1 (Stealth) + 1 (R3) = 5 blank dice. Then the TIE fires 2
    // blanks; X-Wing defends 2 + 1 = 3 blanks.
    let mut rolls = scripted(vec![0, 7, 7, 7, 7, 7, 7, 7, 7, 7, 7, 7, 7]);
    gs.commit_plans(&c, P0, &mut rolls).unwrap();
    let rec = gs.commit_plans(&c, P1, &mut rolls).unwrap().unwrap();
    assert_eq!(rec.attacks[0].attacker, ShipId(1), "VI: 6 beats 1");
    assert_eq!(rec.attacks[0].hits, 1);
    assert_eq!(gs.ships[0].hull, 2);
    // Hit → Stealth Device discarded, agility back to 3.
    assert!(!gs.ships[0].upgrades.contains(&up("stealthdevice")));
    assert_eq!(gs.agility(&c, &gs.sight(), 0), 3);
    assert!(
        rec.events.iter().any(|e| e.contains("Stealth Device discarded")),
        "{:?}",
        rec.events
    );
}

/// Two squads of one ship each, placed nose-to-nose 15 units apart
/// (range 3 after the TIE flies 5 and the X-Wing 4), maneuvers
/// planned, nothing committed yet — so actions can still be planned.
fn duel(c: &Content, imperial: &str, rebel: &str) -> Table {
    duel_at(c, imperial, rebel, Pose::new(10.0, 17.5, -FRAC_PI_2))
}

/// `duel` with the X-Wing's starting pose chosen by the test (the
/// Imperial ship always starts at (10, 2.5) heading north). The
/// X-Wing is placed legally, then moved outside the deployment zone
/// by hand so tests can stage mid-board geometry.
fn duel_at(c: &Content, imperial: &str, rebel: &str, xwing: Pose) -> Table {
    let pilot = |x: &str| c.pilots.pilots.iter().find(|p| p.xws == x).unwrap().id;
    let a = Squad::basic(c, "i", &[pilot(imperial)]);
    let b = Squad::basic(c, "r", &[pilot(rebel)]);
    let mut gs =
        from_squads(c, &[&a, &b], &[0, 1], AttackFace::Hit)
            .unwrap();
    gs.place_ship(c, P0, ShipId(0), Pose::new(10.0, 2.5, FRAC_PI_2)).unwrap();
    gs.place_ship(c, P1, ShipId(1), Pose::new(10.0, 17.5, -FRAC_PI_2)).unwrap();
    gs.ships[1].pose = Some((xwing).bits());
    let s5 = dial_index(c, gs.ships[0].class, |m| {
        m.steer == Steer::Straight && m.distance == 5
    });
    let s4 = dial_index(c, XWING, |m| {
        m.steer == Steer::Straight && m.distance == 4
    });
    gs.plan_maneuver(c, P0, ShipId(0), s5).unwrap();
    gs.plan_maneuver(c, P1, ShipId(1), s4).unwrap();
    gs
}

/// Several ships a side, each as (pilot xws, start pose, straight
/// distance to fly). Imperial ships get ids 0.., Rebels follow.
fn skirmish(
    c: &Content,
    imperial: &[(&str, Pose, u8)],
    rebel: &[(&str, Pose, u8)],
) -> Table {
    let pilot = |x: &str| c.pilots.pilots.iter().find(|p| p.xws == x).unwrap().id;
    let ids =
        |side: &[(&str, Pose, u8)]| side.iter().map(|(x, _, _)| pilot(x)).collect::<Vec<_>>();
    let a = Squad::basic(c, "i", &ids(imperial));
    let b = Squad::basic(c, "r", &ids(rebel));
    let mut gs =
        from_squads(c, &[&a, &b], &[0, 1], AttackFace::Hit)
            .unwrap();
    let all: Vec<_> = imperial.iter().chain(rebel.iter()).collect();
    for (k, _) in all.iter().enumerate() {
        let player = if k < imperial.len() { P0 } else { P1 };
        // Any pose is allowed for staging: place legally in the zone
        // (spread along the edge), then move the ship where asked.
        let legal = if k < imperial.len() {
            Pose::new(2.0 + 3.0 * k as f64, 2.5, FRAC_PI_2)
        } else {
            Pose::new(2.0 + 3.0 * k as f64, 17.5, -FRAC_PI_2)
        };
        gs.place_ship(c, player, ShipId(k as u32), legal).unwrap();
    }
    for (k, (_, pose, _)) in all.iter().enumerate() {
        gs.ships[k].pose = Some((*pose).bits());
    }
    for (k, (_, _, dist)) in all.iter().enumerate() {
        let player = if k < imperial.len() { P0 } else { P1 };
        let id = ShipId(k as u32);
        let set = c.ships.class(gs.ships[k].class).unwrap().maneuver_set;
        let m =
            c.dials.set(set).unwrap().maneuvers.iter().position(|m| {
                m.steer == Steer::Straight && m.distance == *dist
            });
        gs.plan_maneuver(c, player, id, m.unwrap() as u8).unwrap();
    }
    gs
}

#[test]
fn howlrunner_lets_a_friend_at_range_1_reroll_one_attack_die() {
    let c = content();
    let north = FRAC_PI_2;
    let south = -FRAC_PI_2;
    // Two TIEs abreast, 1 unit apart (Range 1), vs one X-Wing. Fire
    // order: Howlrunner, X-Wing, Academy Pilot. Every die is blank
    // except the Academy Pilot's single reroll, which is a hit.
    let rolls = vec![7, 7, 7, 7, 7, 7, 7, 7, 7, 7, 7, 7, 7, 7, 0, 7, 7, 7];
    let run = |leader: &str| {
        let mut gs = skirmish(
            &c,
            &[
                (leader, Pose::new(9.0, 2.5, north), 5),
                ("academypilot", Pose::new(11.0, 2.5, north), 5),
            ],
            &[("bluesquadronnovice", Pose::new(10.0, 17.5, south), 4)],
        );
        let mut rolls = scripted(rolls.clone());
        gs.commit_plans(&c, P0, &mut rolls).unwrap();
        gs.commit_plans(&c, P1, &mut rolls).unwrap().unwrap()
    };
    let rec = run("howlrunner");
    let wingman = rec.attacks.iter().find(|a| a.attacker == ShipId(1)).unwrap();
    assert_eq!(wingman.attack_faces, vec![AttackFace::Hit, AttackFace::Blank]);
    assert_eq!(wingman.hits, 1);
    assert!(rec.events.iter().any(|e| e.contains("rerolls 1 attack")), "{:?}", rec.events);
    // Howlrunner herself gets nothing ("another friendly ship").
    let leader = rec.attacks.iter().find(|a| a.attacker == ShipId(0)).unwrap();
    assert_eq!(leader.hits, 0);

    // A plain wingman instead: same dice, no reroll, no hit.
    let rec = run("obsidiansquadronpilot");
    let wingman = rec.attacks.iter().find(|a| a.attacker == ShipId(1)).unwrap();
    assert_eq!((wingman.hits, wingman.attack_faces.len()), (0, 2));
    assert!(!rec.events.iter().any(|e| e.contains("rerolls")));
}

#[test]
fn jess_pava_rerolls_one_die_per_friend_at_range_1_attacking_and_defending() {
    let c = content();
    let north = FRAC_PI_2;
    let south = -FRAC_PI_2;
    // Jess flies 4 to Range 3 of the TIE; her wingman creeps 1 and
    // ends diagonally within Range 1 of her but beyond Range 3 of the
    // TIE (so it never fires or gets shot). Fire order: Jess (PS3),
    // TIE (PS1).
    let mut gs = skirmish(
        &c,
        &[("academypilot", Pose::new(10.0, 2.5, north), 5)],
        &[
            ("jesspava", Pose::new(10.0, 17.5, south), 4),
            ("bluesquadronnovice", Pose::new(12.0, 17.5, south), 1),
        ],
    );
    // Jess: [Blank, Blank, Blank], reroll → Hit. TIE defends 4 blanks.
    // TIE attacks [Hit, Hit]; Jess defends [Blank, Blank, Blank],
    // reroll → Evade: one hit lands on her shields.
    let mut rolls = scripted(vec![7, 7, 7, 0, 7, 7, 7, 7, 0, 0, 7, 7, 7, 0, 7, 7]);
    gs.commit_plans(&c, P0, &mut rolls).unwrap();
    let rec = gs.commit_plans(&c, P1, &mut rolls).unwrap().unwrap();
    assert_eq!(rec.attacks.len(), 2, "{:?}", rec.attacks);
    let hers = &rec.attacks[0];
    assert_eq!((hers.attacker, hers.hits), (ShipId(1), 1));
    let at_her = &rec.attacks[1];
    assert_eq!((at_her.defender, at_her.hits), (ShipId(1), 1));
    assert!(at_her.defense_faces.contains(&DefenseFace::Evade));
    assert_eq!(gs.ships[1].shields, 2);
    assert!(rec.events.iter().any(|e| e.contains("rerolls 1 attack")), "{:?}", rec.events);
    assert!(rec.events.iter().any(|e| e.contains("rerolls 1 defense")), "{:?}", rec.events);
}

#[test]
fn yt1300_turret_primary_fires_at_ships_behind_it_and_pilot_stats_override() {
    let c = content();
    let north = FRAC_PI_2;
    let mut gs = skirmish(
        &c,
        &[("academypilot", Pose::new(10.0, 1.5, north), 2)],
        &[("outerrimsmuggler", Pose::new(10.0, 17.5, -north), 1)],
    );
    // The Outer Rim Smuggler's card prints 2/1/6/4 on a 3/1/8/5 hull.
    assert_eq!((gs.ships[1].hull, gs.ships[1].shields), (6, 4));
    assert_eq!(gs.printed(&c, &gs.ships[1]).attack, 2);
    // Stage both heading north with the TIE 6 units behind the
    // freighter (range 3, outside the freighter's forward arc).
    gs.ships[0].pose = Some((Pose::new(10.0, 3.0, north)).bits());
    gs.ships[1].pose = Some((Pose::new(10.0, 12.0, north)).bits());
    let mut rolls = scripted(vec![7]);
    gs.commit_plans(&c, P0, &mut rolls).unwrap();
    let rec = gs.commit_plans(&c, P1, &mut rolls).unwrap().unwrap();
    let shots: Vec<(ShipId, u8, usize)> =
        rec.attacks.iter().map(|a| (a.attacker, a.range, a.attack_faces.len())).collect();
    assert!(shots.contains(&(ShipId(1), 3, 2)), "turret shot missing: {shots:?}");
    assert!(shots.contains(&(ShipId(0), 3, 2)), "TIE shot missing: {shots:?}");
}

#[test]
fn lambda_shuttle_stationary_maneuver_holds_position_and_stresses() {
    let c = content();
    let north = FRAC_PI_2;
    let mut gs = skirmish(
        &c,
        &[("omicrongrouppilot", Pose::new(10.0, 2.5, north), 0)],
        &[("bluesquadronnovice", Pose::new(10.0, 17.5, -north), 4)],
    );
    let mut rolls = scripted(vec![7]);
    gs.commit_plans(&c, P0, &mut rolls).unwrap();
    let rec = gs.commit_plans(&c, P1, &mut rolls).unwrap().unwrap();
    let shuttle = &gs.ships[0];
    let pose = Pose::from_bits(shuttle.pose.unwrap());
    assert!((pose.anchor.x - 10.0).abs() < 1e-9 && (pose.anchor.y - 2.5).abs() < 1e-9);
    assert_eq!(shuttle.stress, 1, "the stop is a red maneuver");
    assert!(rec.attacks.is_empty(), "13.5 units apart: out of range");
}

/// Resolve combat by hand, answering every prompt with `pick`.
fn run_combat(
    c: &Content,
    gs: &mut Table,
    rolls: &mut Dice,
    mut pick: impl FnMut(&PendingAttack) -> (ShipId, Option<UpgradeId>),
) -> TurnRecords {
    loop {
        match gs.combat_step(c, rolls).unwrap() {
            Step::NeedTarget(p) => {
                let (t, w) = pick(&p);
                gs.declare_target(c, p.owner, t, w, rolls).unwrap();
            }
            Step::Attack(_) => {}
            Step::Done(rec) => return rec,
        }
    }
}

#[test]
fn proton_torpedoes_need_a_lock_are_offered_in_band_and_are_discarded_after_firing() {
    let c = content();
    let torps = UpgradeId(1); // Proton Torpedoes: 4 dice, R2-3, spend lock, discard
    let mut gs = duel(&c, "academypilot", "bluesquadronnovice");
    gs.ships[1].upgrades.push(torps);
    let mut miss = always(7);
    assert_eq!(gs.commit_plans_begin(&c, P0, &mut miss).unwrap(), None);
    gs.commit_plans_begin(&c, P1, &mut miss).unwrap();
    // No lock: the X-Wing (fires first) sees one option, the primary,
    // and fires it automatically.
    let step = gs.combat_step(&c, &mut miss).unwrap();
    let Step::Attack(rec) = step else { panic!("expected an automatic primary shot") };
    assert_eq!((rec.attacker, rec.weapon), (ShipId(1), None));
    assert!(gs.ships[1].upgrades.contains(&torps));

    // With a lock on the TIE the same range-3 shot offers two options;
    // the torpedo choice rolls 4 dice, the TIE defends with 3 (no
    // range-3 bonus against ordnance), the lock is spent up front and
    // the card is gone afterwards.
    let mut gs = duel(&c, "academypilot", "bluesquadronnovice");
    gs.ships[1].upgrades.push(torps);
    gs.ships[1].lock = Some(ShipId(0));
    let mut rolls = scripted(vec![0, 0, 0, 0, 7, 7, 7, 7, 7, 7, 7, 7, 7, 7]);
    gs.commit_plans_begin(&c, P0, &mut rolls).unwrap();
    gs.commit_plans_begin(&c, P1, &mut rolls).unwrap();
    let Step::NeedTarget(p) = gs.combat_step(&c, &mut rolls).unwrap() else {
        panic!("expected a weapon choice")
    };
    let mut weapons: Vec<Option<UpgradeId>> = p.options.iter().map(|o| o.weapon).collect();
    weapons.sort_by_key(|w| w.map(|u| u.0));
    assert_eq!(weapons, vec![None, Some(torps)]);
    assert_eq!(gs.auto_target(&p), Some((ShipId(0), None)), "auto never spends ordnance");
    let rec = gs.declare_target(&c, P1, ShipId(0), Some(torps), &mut rolls).unwrap();
    assert_eq!(rec.weapon, Some(torps));
    assert_eq!((rec.attack_faces.len(), rec.defense_faces.len()), (4, 3));
    assert!(rec.lock_spent);
    assert_eq!(rec.hits, 4);
    assert_eq!(gs.ships[1].lock, None);
    assert!(!gs.ships[1].upgrades.contains(&torps));
    let ev = gs.combat_events(&c);
    assert!(ev.iter().any(|e| e.contains("fires Proton Torpedoes")), "{ev:?}");
    assert!(ev.iter().any(|e| e.contains("Proton Torpedoes discarded (fired)")), "{ev:?}");

    // At Range 1 the torpedo (R2-3) is not offered even with a lock.
    let mut gs =
        duel_at(&c, "academypilot", "bluesquadronnovice", Pose::new(10.0, 13.5, -FRAC_PI_2));
    gs.ships[1].upgrades.push(torps);
    gs.ships[1].lock = Some(ShipId(0));
    gs.commit_plans_begin(&c, P0, &mut miss).unwrap();
    gs.commit_plans_begin(&c, P1, &mut miss).unwrap();
    let Step::Attack(rec) = gs.combat_step(&c, &mut miss).unwrap() else {
        panic!("one option only")
    };
    assert_eq!((rec.range, rec.weapon), (1, None));
}

#[test]
fn turret_card_fires_outside_the_arc_without_being_discarded() {
    let c = content();
    let ion_turret = UpgradeId(10); // Ion Cannon Turret: 3 dice, R1-2, free
    let north = FRAC_PI_2;
    // Y-Wing ahead of a TIE, both heading north: the TIE is behind it
    // (out of the primary arc) 4 units back → Range 2.
    let mut gs = skirmish(
        &c,
        &[("academypilot", Pose::new(10.0, 1.5, north), 2)],
        &[("goldsquadronpilot", Pose::new(10.0, 17.5, -north), 1)],
    );
    gs.ships[1].upgrades.push(ion_turret);
    gs.ships[0].pose = Some((Pose::new(10.0, 3.0, north)).bits());
    gs.ships[1].pose = Some((Pose::new(10.0, 9.0, north)).bits());
    let mut rolls = scripted(vec![7]);
    gs.commit_plans_begin(&c, P0, &mut rolls).unwrap();
    gs.commit_plans_begin(&c, P1, &mut rolls).unwrap();
    let rec = run_combat(&c, &mut gs, &mut rolls, |p| panic!("no prompt expected: {p:?}"));
    let ywing_shot = rec.attacks.iter().find(|a| a.attacker == ShipId(1)).expect("turret shot");
    assert_eq!((ywing_shot.weapon, ywing_shot.range), (Some(ion_turret), 2));
    assert_eq!(ywing_shot.attack_faces.len(), 3);
    assert!(gs.ships[1].upgrades.contains(&ion_turret), "turrets are not discarded");
}

/// Fire `weapon` from ship 1 (the Rebel) at ship 0 whatever the
/// prompt offers; primary otherwise.
fn prefer(weapon: UpgradeId) -> impl FnMut(&PendingAttack) -> (ShipId, Option<UpgradeId>) {
    move |p| {
        p.options
            .iter()
            .find(|o| o.weapon == Some(weapon))
            .map(|o| (o.target, o.weapon))
            .unwrap_or_else(|| {
                let o = p.options.iter().find(|o| o.weapon.is_none()).unwrap();
                (o.target, None)
            })
    }
}

#[test]
fn proton_torpedoes_turn_a_focus_result_into_a_crit() {
    let c = content();
    let torps = UpgradeId(1);
    let mut gs = duel(&c, "academypilot", "bluesquadronnovice");
    gs.ships[1].upgrades.push(torps);
    gs.ships[1].lock = Some(ShipId(0));
    // 4 dice [Eye, Eye, Blank, Blank], no focus token: one eye becomes
    // a crit, the other stays an eye. TIE defends 3 blanks.
    let mut rolls = scripted(vec![4, 4, 7, 7, 7, 7, 7, 7, 7, 7, 7, 7]);
    gs.commit_plans_begin(&c, P0, &mut rolls).unwrap();
    gs.commit_plans_begin(&c, P1, &mut rolls).unwrap();
    let rec = run_combat(&c, &mut gs, &mut rolls, prefer(torps));
    let shot = &rec.attacks[0];
    assert_eq!((shot.weapon, shot.hits, shot.crits), (Some(torps), 0, 1));
    assert!(
        rec.events.iter().any(|e| e.contains("focus result to critical hit")),
        "{:?}",
        rec.events
    );
}

#[test]
fn advanced_proton_torpedoes_turn_blanks_into_eyes_for_the_focus_token() {
    let c = content();
    let adv = UpgradeId(2); // 5 dice, Range 1 only
    let mut gs =
        duel_at(&c, "academypilot", "bluesquadronnovice", Pose::new(10.0, 13.5, -FRAC_PI_2));
    gs.ships[1].upgrades.push(adv);
    gs.ships[1].lock = Some(ShipId(0));
    gs.plan_action(&c, P1, ShipId(1), PlannedAction::Focus).unwrap();
    // 5 blanks: three become eyes, the focus token turns them to hits.
    let mut rolls = scripted(vec![7]);
    gs.commit_plans_begin(&c, P0, &mut rolls).unwrap();
    gs.commit_plans_begin(&c, P1, &mut rolls).unwrap();
    let rec = run_combat(&c, &mut gs, &mut rolls, prefer(adv));
    let shot = &rec.attacks[0];
    assert_eq!((shot.weapon, shot.range, shot.attack_faces.len()), (Some(adv), 1, 5));
    assert_eq!((shot.hits, shot.attacker_focus_spent), (3, true));
}

#[test]
fn heavy_laser_cannon_downgrades_crits_and_autoblaster_hits_cannot_be_canceled() {
    let c = content();
    let hlc = UpgradeId(190);
    let north = FRAC_PI_2;
    // Lambda (PS2 Omicron) vs X-Wing novice (PS2): the shuttle owner
    // holds initiative (seat 0) and fires first.
    let mut gs = skirmish(
        &c,
        &[("omicrongrouppilot", Pose::new(10.0, 2.5, north), 1)],
        &[("bluesquadronnovice", Pose::new(10.0, 17.5, -north), 1)],
    );
    gs.ships[0].upgrades.push(hlc);
    gs.ships[0].pose = Some((Pose::new(10.0, 4.0, north)).bits());
    gs.ships[1].pose = Some((Pose::new(10.0, 12.0, -north)).bits()); // ends nose at 11: gap 6 → R3
    // HLC 4 dice [Crit, Crit, Crit, Hit] → all hits; X-Wing 2 defense
    // dice (no R3 bonus vs a cannon) [Evade, Blank] → 3 hits land.
    let mut rolls = scripted(vec![3, 3, 3, 0, 0, 7, 7, 7, 7, 7, 7, 7, 7]);
    gs.commit_plans_begin(&c, P0, &mut rolls).unwrap();
    gs.commit_plans_begin(&c, P1, &mut rolls).unwrap();
    let rec = run_combat(&c, &mut gs, &mut rolls, |p| {
        let o = p.options.iter().find(|o| o.weapon == Some(hlc)).unwrap();
        (o.target, o.weapon)
    });
    let shot = rec.attacks.iter().find(|a| a.attacker == ShipId(0)).unwrap();
    assert_eq!((shot.weapon, shot.defense_faces.len()), (Some(hlc), 2));
    assert_eq!((shot.hits, shot.crits), (3, 0));

    // Autoblaster at Range 1: [Hit, Hit, Crit] vs [Evade, Evade]: the
    // evades may only cancel the crit.
    let auto = UpgradeId(192);
    let mut gs = skirmish(
        &c,
        &[("omicrongrouppilot", Pose::new(10.0, 2.5, north), 1)],
        &[("bluesquadronnovice", Pose::new(10.0, 17.5, -north), 1)],
    );
    gs.ships[0].upgrades.push(auto);
    gs.ships[0].pose = Some((Pose::new(10.0, 4.0, north)).bits());
    gs.ships[1].pose = Some((Pose::new(10.0, 8.0, -north)).bits()); // nose 7 vs nose 5: gap 2 → R1
    let mut rolls = scripted(vec![0, 0, 3, 0, 0, 7, 7, 7, 7, 7, 7, 7]);
    gs.commit_plans_begin(&c, P0, &mut rolls).unwrap();
    gs.commit_plans_begin(&c, P1, &mut rolls).unwrap();
    let rec = run_combat(&c, &mut gs, &mut rolls, |p| {
        let o = p.options.iter().find(|o| o.weapon == Some(auto)).unwrap();
        (o.target, o.weapon)
    });
    let shot = rec.attacks.iter().find(|a| a.attacker == ShipId(0)).unwrap();
    assert_eq!((shot.range, shot.hits, shot.crits), (1, 2, 0));
}

#[test]
fn homing_missiles_keep_the_lock_and_deny_evade_tokens() {
    let c = content();
    let homing = UpgradeId(142);
    let north = FRAC_PI_2;
    let mut gs = skirmish(
        &c,
        &[("academypilot", Pose::new(10.0, 2.5, north), 5)],
        &[("greensquadronpilot", Pose::new(10.0, 17.5, -north), 4)],
    );
    gs.ships[1].upgrades.push(homing);
    gs.ships[1].lock = Some(ShipId(0));
    gs.plan_action(&c, P0, ShipId(0), PlannedAction::Evade).unwrap();
    // A-Wing (PS3) fires first: 4 hits; the TIE's 3 defense dice are
    // blank and its evade token may not be spent: destroyed.
    let mut rolls = scripted(vec![0, 0, 0, 0, 7, 7, 7, 7, 7, 7]);
    gs.commit_plans_begin(&c, P0, &mut rolls).unwrap();
    gs.commit_plans_begin(&c, P1, &mut rolls).unwrap();
    let rec = run_combat(&c, &mut gs, &mut rolls, prefer(homing));
    let shot = &rec.attacks[0];
    assert_eq!((shot.weapon, shot.evade_spent, shot.hits), (Some(homing), false, 4));
    assert!(shot.defender_destroyed);
    assert!(!shot.lock_spent, "Homing Missiles do not spend the lock");
    assert!(!gs.ships[1].upgrades.contains(&homing), "but the card is discarded");
}

#[test]
fn dorsal_turret_and_proton_rockets_add_dice() {
    let c = content();
    let north = FRAC_PI_2;
    // Dorsal Turret (2 dice) at Range 1 behind the Y-Wing: 3 dice.
    let dorsal = UpgradeId(13);
    let mut gs = skirmish(
        &c,
        &[("academypilot", Pose::new(10.0, 1.5, north), 2)],
        &[("goldsquadronpilot", Pose::new(10.0, 17.5, -north), 1)],
    );
    gs.ships[1].upgrades.push(dorsal);
    gs.ships[0].pose = Some((Pose::new(10.0, 3.0, north)).bits());
    gs.ships[1].pose = Some((Pose::new(10.0, 7.0, north)).bits());
    let mut rolls = scripted(vec![7]);
    gs.commit_plans_begin(&c, P0, &mut rolls).unwrap();
    gs.commit_plans_begin(&c, P1, &mut rolls).unwrap();
    let rec = run_combat(&c, &mut gs, &mut rolls, prefer(dorsal));
    let shot = rec.attacks.iter().find(|a| a.attacker == ShipId(1)).unwrap();
    assert_eq!((shot.weapon, shot.range, shot.attack_faces.len()), (Some(dorsal), 1, 3));

    // Proton Rockets on an A-Wing (agility 3): 2 + 3 = 5 dice at
    // Range 1, focus token required but kept.
    let rockets = UpgradeId(145);
    let mut gs = skirmish(
        &c,
        &[("academypilot", Pose::new(10.0, 1.5, north), 2)],
        &[("prototypepilot", Pose::new(10.0, 17.5, -north), 2)],
    );
    gs.ships[1].upgrades.push(rockets);
    gs.ships[0].pose = Some((Pose::new(10.0, 3.0, north)).bits()); // nose 5 after straight 2
    gs.ships[1].pose = Some((Pose::new(10.0, 9.0, -north)).bits()); // nose 7 after 2: gap 2 → R1
    gs.ships[1].focus = 1;
    let mut rolls = scripted(vec![7]);
    gs.commit_plans_begin(&c, P0, &mut rolls).unwrap();
    gs.commit_plans_begin(&c, P1, &mut rolls).unwrap();
    let rec = run_combat(&c, &mut gs, &mut rolls, prefer(rockets));
    let shot = rec.attacks.iter().find(|a| a.attacker == ShipId(1)).unwrap();
    assert_eq!((shot.weapon, shot.range, shot.attack_faces.len()), (Some(rockets), 1, 5));
    assert!(!shot.attacker_focus_spent);
}

#[test]
fn ion_cannon_turret_deals_one_damage_and_the_ionized_ship_drifts_next_round() {
    let c = content();
    let ion_turret = UpgradeId(10);
    let north = FRAC_PI_2;
    let mut gs = skirmish(
        &c,
        &[("academypilot", Pose::new(10.0, 1.5, north), 2)],
        &[("goldsquadronpilot", Pose::new(10.0, 17.5, -north), 1)],
    );
    gs.ships[1].upgrades.push(ion_turret);
    gs.ships[0].pose = Some((Pose::new(10.0, 3.0, north)).bits());
    gs.ships[1].pose = Some((Pose::new(10.0, 9.0, north)).bits());
    // Turret [Hit, Hit, Hit] vs 3 blanks: exactly 1 damage lands and
    // the TIE is ionized. The TIE (behind, out of arc) has no shot.
    let mut rolls = scripted(vec![0, 0, 0, 7, 7, 7, 7, 7, 7, 7]);
    gs.commit_plans_begin(&c, P0, &mut rolls).unwrap();
    gs.commit_plans_begin(&c, P1, &mut rolls).unwrap();
    let rec = run_combat(&c, &mut gs, &mut rolls, prefer(ion_turret));
    let shot = &rec.attacks[0];
    assert_eq!((shot.weapon, shot.hits, shot.crits), (Some(ion_turret), 1, 0));
    assert_eq!((gs.ships[0].hull, gs.ships[0].ion), (2, 1));

    // Next round the TIE dials a straight 5 but drifts a white 1.
    let s5 =
        dial_index(&c, TIE, |m| m.steer == Steer::Straight && m.distance == 5);
    gs.plan_maneuver(&c, P0, ShipId(0), s5).unwrap();
    let s1 = {
        let set = c.ships.class(gs.ships[1].class).unwrap().maneuver_set;
        c.dials
            .set(set)
            .unwrap()
            .maneuvers
            .iter()
            .position(|m| m.steer == Steer::Straight && m.distance == 1)
            .unwrap() as u8
    };
    gs.plan_maneuver(&c, P1, ShipId(1), s1).unwrap();
    gs.commit_plans_begin(&c, P0, &mut rolls).unwrap();
    let act = gs.commit_plans_begin(&c, P1, &mut rolls).unwrap().unwrap();
    let tie = gs.pose(0).unwrap();
    assert!((tie.anchor.y - 6.0).abs() < 1e-9, "drifted 1 from y=5: {}", tie.anchor.y);
    assert_eq!((gs.ships[0].ion, gs.ships[0].stress), (0, 0));
    assert!(act.events.iter().any(|e| e.contains("ionized — drifts")), "{:?}", act.events);
}

#[test]
fn cluster_missiles_attack_twice_spending_the_lock_once_and_discarding_after() {
    let c = content();
    let cluster = UpgradeId(141); // 3 dice, R1-2, spend lock, twice
    let north = FRAC_PI_2;
    let mut gs = skirmish(
        &c,
        &[("academypilot", Pose::new(10.0, 2.5, north), 5)],
        &[("greensquadronpilot", Pose::new(10.0, 17.5, -north), 4)],
    );
    gs.ships[1].upgrades.push(cluster);
    gs.ships[1].lock = Some(ShipId(0));
    gs.ships[1].pose = Some((Pose::new(10.0, 14.5, -north)).bits()); // nose 10.5 vs 7.5: R2
    // First salvo [Hit, Blank, Blank] vs 3 blanks: 1 damage. Second
    // [Hit, Hit, Blank] vs 3 blanks: 2 more — the TIE is destroyed.
    let mut rolls = scripted(vec![0, 7, 7, 7, 7, 7, 0, 0, 7, 7, 7, 7]);
    gs.commit_plans_begin(&c, P0, &mut rolls).unwrap();
    gs.commit_plans_begin(&c, P1, &mut rolls).unwrap();
    let rec = run_combat(&c, &mut gs, &mut rolls, prefer(cluster));
    assert_eq!(rec.attacks.len(), 2, "{:?}", rec.attacks);
    assert_eq!((rec.attacks[0].weapon, rec.attacks[0].hits), (Some(cluster), 1));
    assert_eq!((rec.attacks[1].weapon, rec.attacks[1].hits), (Some(cluster), 2));
    assert!(rec.attacks[0].lock_spent && !rec.attacks[1].lock_spent);
    assert!(rec.attacks[1].defender_destroyed);
    assert!(!gs.ships[1].upgrades.contains(&cluster));
    assert_eq!(rec.events.iter().filter(|e| e.contains("discarded (fired)")).count(), 1);
    assert!(rec.events.iter().any(|e| e.contains("fires Cluster Missiles again")));
}

#[test]
fn assault_missiles_splash_and_flechette_torpedoes_stress() {
    let c = content();
    let assault = UpgradeId(143); // 4 dice, R2-3
    let north = FRAC_PI_2;
    // Two TIEs abreast at Range 1 of each other; the X-Wing (with a
    // lock on the first) fires first at PS2 vs PS1.
    let mut gs = skirmish(
        &c,
        &[
            ("academypilot", Pose::new(9.0, 2.5, north), 5),
            ("academypilot", Pose::new(11.0, 2.5, north), 5),
        ],
        &[("bluesquadronnovice", Pose::new(10.0, 17.5, -north), 4)],
    );
    gs.ships[2].upgrades.push(assault);
    gs.ships[2].lock = Some(ShipId(0));
    let mut rolls = scripted(vec![0, 0, 0, 0, 7, 7, 7, 7, 7, 7, 7, 7, 7, 7, 7]);
    gs.commit_plans_begin(&c, P0, &mut rolls).unwrap();
    gs.commit_plans_begin(&c, P1, &mut rolls).unwrap();
    let rec = run_combat(&c, &mut gs, &mut rolls, prefer(assault));
    let shot = rec.attacks.iter().find(|a| a.attacker == ShipId(2)).unwrap();
    assert!(shot.defender_destroyed, "{shot:?}");
    assert_eq!(gs.ships[1].hull, 2, "wingman splashed");
    assert!(rec.events.iter().any(|e| e.contains("splash")), "{:?}", rec.events);

    // Flechette Torpedoes stress a hull-3 TIE even on a miss.
    let flechette = UpgradeId(3);
    let mut gs = duel(&c, "academypilot", "bluesquadronnovice");
    gs.ships[1].upgrades.push(flechette);
    gs.ships[1].lock = Some(ShipId(0));
    let mut rolls = scripted(vec![7]);
    gs.commit_plans_begin(&c, P0, &mut rolls).unwrap();
    gs.commit_plans_begin(&c, P1, &mut rolls).unwrap();
    let rec = run_combat(&c, &mut gs, &mut rolls, prefer(flechette));
    assert_eq!(rec.attacks[0].hits + rec.attacks[0].crits, 0);
    assert_eq!(gs.ships[0].stress, 1);
}

#[test]
fn advanced_homing_missiles_deal_a_faceup_card_through_the_shields() {
    let c = content();
    let adv_homing = UpgradeId(146); // 3 dice, Range 2 only, lock kept
    let north = FRAC_PI_2;
    let mut gs = skirmish(
        &c,
        &[("tempestsquadronpilot", Pose::new(10.0, 2.5, north), 5)],
        &[("greensquadronpilot", Pose::new(10.0, 17.5, -north), 4)],
    );
    gs.ships[1].upgrades.push(adv_homing);
    gs.ships[1].lock = Some(ShipId(0));
    gs.ships[1].pose = Some((Pose::new(10.0, 16.5, -north)).bits()); // nose 12.5 vs 7.5: R2
    // [Hit, Blank, Blank]; the kept lock rerolls the blanks (blank
    // again) vs 3 blanks → one faceup card: shields untouched, hull
    // 3→2, crit drawn (4 = Damaged Sensor Array).
    let mut rolls = scripted(vec![0, 7, 7, 7, 7, 7, 7, 7, 4, 7, 7, 7, 7]);
    gs.commit_plans_begin(&c, P0, &mut rolls).unwrap();
    gs.commit_plans_begin(&c, P1, &mut rolls).unwrap();
    let rec = run_combat(&c, &mut gs, &mut rolls, prefer(adv_homing));
    let shot = &rec.attacks[0];
    assert_eq!((shot.weapon, shot.range, shot.hits, shot.crits), (Some(adv_homing), 2, 0, 1));
    assert_eq!((shot.shields_lost, shot.hull_lost, shot.crits_to_hull), (0, 1, 1));
    assert_eq!((gs.ships[0].shields, gs.ships[0].hull), (2, 2));
    assert_eq!(gs.ships[0].crits, vec![CritEffect::DamagedSensorArray]);
    assert!(shot.lock_spent, "the lock survives the launch and is spent on the reroll");
}

/// Attack dice thrown by the Imperial ship (ShipId 0) in a duel.
fn imperial_shot(rec: &TurnRecords) -> &AttackRecord {
    rec.attacks.iter().find(|a| a.attacker == ShipId(0)).expect("the TIE fired")
}

#[test]
fn mauler_mithel_rolls_an_extra_die_only_at_range_1() {
    let c = content();
    // Nose to nose at range 3: the normal 2 dice.
    let mut gs = duel(&c, "maulermithel", "bluesquadronnovice");
    let mut rolls = scripted(vec![7]);
    gs.commit_plans(&c, P0, &mut rolls).unwrap();
    let rec = gs.commit_plans(&c, P1, &mut rolls).unwrap().unwrap();
    assert_eq!(imperial_shot(&rec).attack_faces.len(), 2);
    assert!(!rec.events.iter().any(|e| e.contains("ability")));

    // X-Wing starts 4 units closer: the bases end 2 apart (range 1),
    // 2 base + 1 range + 1 ability = 4 dice.
    let mut gs =
        duel_at(&c, "maulermithel", "bluesquadronnovice", Pose::new(10.0, 13.5, -FRAC_PI_2));
    let mut rolls = scripted(vec![7]);
    gs.commit_plans(&c, P0, &mut rolls).unwrap();
    let rec = gs.commit_plans(&c, P1, &mut rolls).unwrap().unwrap();
    let shot = imperial_shot(&rec);
    assert_eq!((shot.range, shot.attack_faces.len()), (1, 4));
    assert!(
        rec.events.iter().any(|e| e.contains("+1 attack die (point blank)")),
        "{:?}",
        rec.events
    );
}

#[test]
fn backstabber_rolls_an_extra_die_from_outside_the_defenders_arc() {
    let c = content();
    // Head-on the X-Wing sees him: 2 dice.
    let mut gs = duel(&c, "backstabber", "bluesquadronnovice");
    let mut rolls = scripted(vec![7]);
    gs.commit_plans(&c, P0, &mut rolls).unwrap();
    let rec = gs.commit_plans(&c, P1, &mut rolls).unwrap().unwrap();
    assert_eq!(imperial_shot(&rec).attack_faces.len(), 2);

    // Both heading north, the X-Wing ahead: it ends 6 units in front
    // of the TIE (range 3) with the TIE behind it, out of its arc.
    let mut gs =
        duel_at(&c, "backstabber", "bluesquadronnovice", Pose::new(10.0, 10.5, FRAC_PI_2));
    let mut rolls = scripted(vec![7]);
    gs.commit_plans(&c, P0, &mut rolls).unwrap();
    let rec = gs.commit_plans(&c, P1, &mut rolls).unwrap().unwrap();
    assert_eq!(rec.attacks.len(), 1, "the X-Wing has no target: {:?}", rec.attacks);
    let shot = imperial_shot(&rec);
    assert_eq!((shot.range, shot.attack_faces.len()), (3, 3));
    assert!(
        rec.events.iter().any(|e| e.contains("outside the defender's arc")),
        "{:?}",
        rec.events
    );
}

#[test]
fn scourge_rolls_an_extra_die_against_a_damaged_defender() {
    let c = content();
    let mut gs = duel(&c, "scourge", "bluesquadronnovice");
    let mut rolls = scripted(vec![7]);
    gs.commit_plans(&c, P0, &mut rolls).unwrap();
    let rec = gs.commit_plans(&c, P1, &mut rolls).unwrap().unwrap();
    assert_eq!(imperial_shot(&rec).attack_faces.len(), 2, "undamaged: no bonus");

    // Shields lost do not count; a hull point lost (a Damage card) does.
    let mut gs = duel(&c, "scourge", "bluesquadronnovice");
    gs.ships[1].shields = 0;
    gs.ships[1].hull -= 1;
    let mut rolls = scripted(vec![7]);
    gs.commit_plans(&c, P0, &mut rolls).unwrap();
    let rec = gs.commit_plans(&c, P1, &mut rolls).unwrap().unwrap();
    assert_eq!(imperial_shot(&rec).attack_faces.len(), 3);
    assert!(
        rec.events.iter().any(|e| e.contains("defender already damaged")),
        "{:?}",
        rec.events
    );
}

#[test]
fn zeta_leader_takes_a_stress_for_an_extra_die_when_unstressed() {
    let c = content();
    let mut gs = duel(&c, "zetaleader", "bluesquadronnovice");
    let mut rolls = scripted(vec![7]);
    gs.commit_plans(&c, P0, &mut rolls).unwrap();
    let rec = gs.commit_plans(&c, P1, &mut rolls).unwrap().unwrap();
    assert_eq!(imperial_shot(&rec).attack_faces.len(), 3);
    assert_eq!(gs.ships[0].stress, 1);
    assert!(rec.events.iter().any(|e| e.contains("takes stress")), "{:?}", rec.events);

    // Already stressed (straight-5 is white on the TIE/fo dial, so
    // the token survives the move): no extra die, no second token.
    let mut gs = duel(&c, "zetaleader", "bluesquadronnovice");
    gs.ships[0].stress = 1;
    let mut rolls = scripted(vec![7]);
    gs.commit_plans(&c, P0, &mut rolls).unwrap();
    let rec = gs.commit_plans(&c, P1, &mut rolls).unwrap().unwrap();
    assert_eq!(imperial_shot(&rec).attack_faces.len(), 2);
    assert_eq!(gs.ships[0].stress, 1);
}

#[test]
fn winged_gundark_turns_a_hit_into_a_crit_at_range_1() {
    let c = content();
    // Range 3, [Hit, Hit]: unchanged.
    let mut gs = duel(&c, "wingedgundark", "bluesquadronnovice");
    let mut rolls = scripted(vec![0, 0, 7, 7, 7, 7, 7, 7, 7, 7, 7, 7]);
    gs.commit_plans(&c, P0, &mut rolls).unwrap();
    let rec = gs.commit_plans(&c, P1, &mut rolls).unwrap().unwrap();
    let shot = imperial_shot(&rec);
    assert_eq!((shot.hits, shot.crits), (2, 0));

    // Range 1, 3 dice [Hit, Hit, Blank]: one hit becomes a crit.
    let mut gs =
        duel_at(&c, "wingedgundark", "bluesquadronnovice", Pose::new(10.0, 13.5, -FRAC_PI_2));
    let mut rolls = scripted(vec![0, 0, 7, 7, 7, 7, 7, 7, 7, 7, 7, 7]);
    gs.commit_plans(&c, P0, &mut rolls).unwrap();
    let rec = gs.commit_plans(&c, P1, &mut rolls).unwrap().unwrap();
    let shot = imperial_shot(&rec);
    assert_eq!((shot.range, shot.hits, shot.crits), (1, 1, 1));
    assert!(
        rec.events.iter().any(|e| e.contains("hit result to critical")),
        "{:?}",
        rec.events
    );
}

#[test]
fn omega_ace_spends_lock_and_focus_for_all_crits() {
    let c = content();
    // With only a focus token the ability stays silent: [Blank, Eye]
    // → the token converts the eye, 1 hit.
    let mut gs = duel(&c, "omegaace", "bluesquadronnovice");
    gs.plan_action(&c, P0, ShipId(0), PlannedAction::Focus).unwrap();
    let mut rolls = scripted(vec![7, 4, 7, 7, 7, 7, 7, 7, 7, 7, 7, 7]);
    gs.commit_plans(&c, P0, &mut rolls).unwrap();
    let rec = gs.commit_plans(&c, P1, &mut rolls).unwrap().unwrap();
    let shot = imperial_shot(&rec);
    assert_eq!((shot.hits, shot.crits, shot.lock_spent), (1, 0, false));

    // Lock on the X-Wing plus a focus token (Push the Limit is not
    // modelled: give the token by hand): [Blank, Blank] → 2 crits,
    // both tokens gone, no reroll consumed from the dice stream.
    let mut gs = duel(&c, "omegaace", "bluesquadronnovice");
    gs.plan_action(&c, P0, ShipId(0), PlannedAction::TargetLock(ShipId(1))).unwrap();
    let mut rolls = scripted(vec![7, 7, 7, 7, 7, 7, 7, 7, 7]);
    gs.commit_plans(&c, P0, &mut rolls).unwrap();
    gs.ships[0].focus = 1;
    let rec = gs.commit_plans(&c, P1, &mut rolls).unwrap().unwrap();
    let shot = imperial_shot(&rec);
    assert_eq!((shot.hits, shot.crits), (0, 2));
    assert!(shot.lock_spent && shot.attacker_focus_spent);
    assert_eq!((gs.ships[0].lock, gs.ships[0].focus), (None, 0));
    assert!(rec.events.iter().any(|e| e.contains("all dice critical")), "{:?}", rec.events);
}

#[test]
fn dark_curse_denies_attackers_focus_spending_and_rerolls() {
    let c = content();
    // Dark Curse (PS6) fires first, all blanks. The X-Wing holds a
    // focus token and rolls [Eye, Eye, Hit]: the eyes stay eyes.
    let mut gs = duel(&c, "darkcurse", "bluesquadronnovice");
    gs.plan_action(&c, P1, ShipId(1), PlannedAction::Focus).unwrap();
    let mut rolls = scripted(vec![7, 7, 7, 7, 7, 4, 4, 0, 7, 7, 7, 7]);
    gs.commit_plans(&c, P0, &mut rolls).unwrap();
    let rec = gs.commit_plans(&c, P1, &mut rolls).unwrap().unwrap();
    let shot = &rec.attacks[1];
    assert_eq!(shot.attacker, ShipId(1));
    assert_eq!((shot.hits, shot.attacker_focus_spent), (1, false));
    assert!(rec.events.iter().any(|e| e.contains("cannot spend focus")), "{:?}", rec.events);

    // A target lock on him cannot be spent to reroll blanks either
    // (the lock is handed out by hand: the X-Wing moves first and is
    // out of lock range when its action would resolve).
    let mut gs = duel(&c, "darkcurse", "bluesquadronnovice");
    gs.ships[1].lock = Some(ShipId(0));
    let mut rolls = scripted(vec![7]);
    gs.commit_plans(&c, P0, &mut rolls).unwrap();
    let rec = gs.commit_plans(&c, P1, &mut rolls).unwrap().unwrap();
    let shot = &rec.attacks[1];
    assert_eq!((shot.hits, shot.lock_spent), (0, false));
    assert_eq!(gs.ships[1].lock, Some(ShipId(0)));
}

#[test]
fn omega_leader_freezes_dice_of_the_ship_he_has_locked() {
    let c = content();
    let mut gs = duel(&c, "omegaleader", "bluesquadronnovice");
    gs.plan_action(&c, P0, ShipId(0), PlannedAction::TargetLock(ShipId(1))).unwrap();
    gs.plan_action(&c, P1, ShipId(1), PlannedAction::Focus).unwrap();
    // Omega Leader (PS8) rolls [Hit, Hit] (no blanks, so his lock is
    // kept). The X-Wing defends [Eye, Eye, Blank] with a focus token
    // it may not spend: both hits land. Its own attack [Eye, Eye,
    // Eye] cannot be modified either: nothing lands.
    let mut rolls = scripted(vec![0, 0, 4, 4, 7, 4, 4, 4, 7, 7, 7, 7]);
    gs.commit_plans(&c, P0, &mut rolls).unwrap();
    let rec = gs.commit_plans(&c, P1, &mut rolls).unwrap().unwrap();
    let (his, theirs) = (&rec.attacks[0], &rec.attacks[1]);
    assert_eq!(his.attacker, ShipId(0));
    assert_eq!((his.hits, his.defender_focus_spent, his.lock_spent), (2, false, false));
    assert_eq!(gs.ships[1].shields, 1);
    assert_eq!((theirs.hits, theirs.attacker_focus_spent), (0, false));
    assert_eq!(
        rec.events.iter().filter(|e| e.contains("cannot modify dice")).count(),
        2,
        "{:?}",
        rec.events
    );
}

#[test]
fn poe_turns_one_focus_result_without_spending_the_token() {
    let c = content();
    let mut gs = duel(&c, "academypilot", "poedameron");
    gs.plan_action(&c, P1, ShipId(1), PlannedAction::Focus).unwrap();
    // Poe (PS8) fires first: [Focus, Blank, Blank] → his ability turns
    // the eye into a hit for free; the TIE's 4 defense dice are
    // blanks. Then the TIE rolls [Hit, Hit]; Poe defends with 3 dice
    // [Focus, Blank, Blank]: the eye becomes an evade for free, one
    // hit lands on shields. His focus token is never spent.
    let mut rolls = scripted(vec![4, 7, 7, 7, 7, 7, 7, 0, 0, 3, 7, 7]);
    gs.commit_plans(&c, P0, &mut rolls).unwrap();
    let rec = gs.commit_plans(&c, P1, &mut rolls).unwrap().unwrap();
    let poe_shot = &rec.attacks[0];
    assert_eq!(poe_shot.attacker, ShipId(1));
    assert_eq!((poe_shot.hits, poe_shot.attacker_focus_spent), (1, false));
    assert_eq!(gs.ships[0].hull, 2);
    let tie_shot = &rec.attacks[1];
    assert_eq!((tie_shot.hits, tie_shot.defender_focus_spent), (1, false));
    assert_eq!(gs.ships[1].shields, 2);
    assert_eq!(
        rec.events.iter().filter(|e| e.contains("ability")).count(),
        2,
        "{:?}",
        rec.events
    );
}

#[test]
fn poe_needs_a_focus_token_and_spends_it_only_for_extra_eyes() {
    let c = content();
    // Without a token the ability is silent: two eyes stay eyes (no
    // focus to spend either) → 0 hits.
    let mut gs = duel(&c, "academypilot", "poedameron");
    let mut rolls = scripted(vec![4, 4, 7, 7, 7, 7, 7, 7, 7, 7, 7, 7]);
    gs.commit_plans(&c, P0, &mut rolls).unwrap();
    let rec = gs.commit_plans(&c, P1, &mut rolls).unwrap().unwrap();
    assert_eq!(rec.attacks[0].hits, 0);
    assert!(!rec.events.iter().any(|e| e.contains("ability")));

    // With a token and two eyes: one converts free, the token is
    // spent on the other → 2 hits, focus 0.
    let mut gs = duel(&c, "academypilot", "poedameron");
    gs.plan_action(&c, P1, ShipId(1), PlannedAction::Focus).unwrap();
    let mut rolls = scripted(vec![4, 4, 7, 7, 7, 7, 7, 7, 7, 7, 7, 7]);
    gs.commit_plans(&c, P0, &mut rolls).unwrap();
    let rec = gs.commit_plans(&c, P1, &mut rolls).unwrap().unwrap();
    assert_eq!((rec.attacks[0].hits, rec.attacks[0].attacker_focus_spent), (2, true));
}

#[test]
fn combat_fires_highest_skill_first_and_strips_shields_before_hull() {
    let c = content();
    let mut gs = new_1v1(&c);
    // X-Wing (skill 2) fires first: 3 dice at R3, all blanks (6).
    // TIE defense: 3 agility + 1 (R3) = 4 dice (blanks). Then TIE
    // fires 2 dice: Hit (0) + Crit (3); X-Wing defense 2+1=3 blanks.
    let mut rolls = scripted(vec![6, 6, 6, 7, 7, 7, 7, 0, 3, 7, 7, 7]);
    fly_to_range3(&c, &mut gs, &mut rolls);
    let rec = gs.commit_plans(&c, P1, &mut rolls).unwrap().unwrap();
    assert_eq!(rec.attacks.len(), 2);
    assert_eq!(rec.attacks[0].attacker, ShipId(1), "higher skill fires first");
    assert_eq!(rec.attacks[0].hits + rec.attacks[0].crits, 0);
    let tie_shot = &rec.attacks[1];
    assert_eq!(tie_shot.range, 3);
    assert_eq!((tie_shot.hits, tie_shot.crits), (1, 1));
    // Both absorbed by shields: no hull damage, no critical effect.
    assert_eq!(tie_shot.shields_lost, 2);
    assert_eq!(tie_shot.crits_to_hull, 0);
    assert_eq!(gs.ships[1].shields, 1);
    assert_eq!(gs.ships[1].hull, 3);
}

#[test]
fn combat_tokens_spend_focus_and_evade() {
    let c = content();
    let mut gs = new_1v1(&c);
    // Laterally offset: each ship is in the other's 90° arc but OUT of
    // the narrow bullseye lane, so defense tokens stay spendable.
    gs.place_ship(&c, P0, ShipId(0), Pose::new(10.0, 2.5, FRAC_PI_2)).unwrap();
    gs.place_ship(&c, P1, ShipId(1), Pose::new(12.0, 17.5, -FRAC_PI_2)).unwrap();
    let s5 =
        dial_index(&c, TIE, |m| m.steer == Steer::Straight && m.distance == 5);
    let s4 = dial_index(&c, XWING, |m| {
        m.steer == Steer::Straight && m.distance == 4
    });
    gs.plan_maneuver(&c, P0, ShipId(0), s5).unwrap();
    gs.plan_action(&c, P0, ShipId(0), PlannedAction::Evade).unwrap();
    gs.plan_maneuver(&c, P1, ShipId(1), s4).unwrap();
    gs.plan_action(&c, P1, ShipId(1), PlannedAction::Focus).unwrap();
    // X-Wing attack: eye, eye, blank → focus turns 2 eyes into hits.
    // TIE defense: 4 blanks, then spends its evade token → 1 evade,
    // so 1 hit lands on the shieldless TIE's hull.
    // TIE attack: 2 blanks; X-Wing defense: 3 blanks.
    let mut rolls = scripted(vec![4, 4, 6, 7, 7, 7, 7, 6, 6, 7, 7, 7]);
    gs.commit_plans(&c, P0, &mut rolls).unwrap();
    let rec = gs.commit_plans(&c, P1, &mut rolls).unwrap().unwrap();
    let xw_shot = &rec.attacks[0];
    assert!(!xw_shot.defender_in_bullseye);
    assert!(xw_shot.attacker_focus_spent);
    assert!(xw_shot.evade_spent);
    assert_eq!((xw_shot.hits, xw_shot.crits), (1, 0));
    assert_eq!(xw_shot.hull_lost, 1);
    assert_eq!(gs.ships[0].hull, 2);
}

#[test]
fn stressed_red_reveal_substitutes_slowest_white_straight() {
    let c = content();
    let mut gs = new_1v1(&c);
    place_both(&c, &mut gs);
    let kturn3 =
        dial_index(&c, TIE, |m| m.steer == Steer::KTurn && m.distance == 3);
    // Plan the red K-turn while unstressed (legal), then simulate an
    // external stress source (future crit/ability) before it resolves.
    gs.plan_maneuver(&c, P0, ShipId(0), kturn3).unwrap();
    gs.plan_action(&c, P0, ShipId(0), PlannedAction::Focus).unwrap();
    gs.ships[0].stress = 1;
    gs.plan_maneuver(&c, P1, ShipId(1), straight2(&c, XWING)).unwrap();
    gs.commit_plans(&c, P0, &mut always(7)).unwrap();
    let rec = gs.commit_plans(&c, P1, &mut always(7)).unwrap().unwrap();
    let mv = &rec.moves[0];
    // TIE's slowest white straight is speed 4: flown instead, no flip.
    assert_eq!(mv.maneuver.steer, Steer::Straight);
    assert_eq!(mv.maneuver.distance, 4);
    assert!((mv.end.anchor.y - 6.0).abs() < 1e-9);
    assert!((mv.end.heading - FRAC_PI_2).abs() < 1e-9, "no 180 flip");
    // White maneuver: the stress neither grows nor sheds…
    assert_eq!(mv.stress, 1);
    // …and the still-stressed ship forfeits its action.
    assert_eq!(mv.action_result, ActionResult::SkippedStressed);
}

#[test]
fn crit_direct_hit_deals_an_extra_hull_point() {
    let c = content();
    let mut gs = new_1v1(&c);
    // X-Wing lands 1 crit on the shieldless TIE (hull 3→2), the draw
    // (raw 5) is Direct Hit! → 1 more hull. TIE's return shot misses.
    let mut rolls = scripted(vec![3, 6, 6, 7, 7, 7, 7, 5, 6, 6, 7, 7, 7]);
    fly_to_range3(&c, &mut gs, &mut rolls);
    let rec = gs.commit_plans(&c, P1, &mut rolls).unwrap().unwrap();
    let shot = &rec.attacks[0];
    assert_eq!(shot.crits_to_hull, 1);
    assert_eq!(shot.hull_lost, 2, "crit + Direct Hit extra");
    assert_eq!(gs.ships[0].hull, 1);
    assert!(rec.events.iter().any(|e| e.contains("Direct Hit")));
    assert!(gs.ships[0].crits.is_empty(), "Direct Hit is immediate, not persistent");
}

#[test]
fn crit_damaged_engine_makes_turns_red() {
    let c = content();
    let mut gs = new_1v1(&c);
    place_both(&c, &mut gs);
    gs.ships[0].crits.push(CritEffect::DamagedEngine);
    let turn2 =
        dial_index(&c, TIE, |m| m.steer == Steer::TurnLeft && m.distance == 2);
    // Stressed: the now-effectively-red turn cannot be planned.
    gs.ships[0].stress = 1;
    assert_eq!(
        gs.plan_maneuver(&c, P0, ShipId(0), turn2),
        Err(Rejection::StressedRedForbidden)
    );
    // Unstressed it flies — and stresses the pilot like any red.
    gs.ships[0].stress = 0;
    gs.plan_maneuver(&c, P0, ShipId(0), turn2).unwrap();
    gs.plan_maneuver(&c, P1, ShipId(1), straight2(&c, XWING)).unwrap();
    gs.commit_plans(&c, P0, &mut always(7)).unwrap();
    let rec = gs.commit_plans(&c, P1, &mut always(7)).unwrap().unwrap();
    assert_eq!(rec.moves[0].stress, 1, "white turn flown as red gains stress");
}

#[test]
fn crit_weapons_failure_blocks_attack_and_ticks_down() {
    let c = content();
    let mut gs = new_1v1(&c);
    gs.ships[1].crits.push(CritEffect::WeaponsFailure { rounds: 2 });
    let mut rolls = scripted(vec![7]);
    fly_to_range3(&c, &mut gs, &mut rolls);
    let rec = gs.commit_plans(&c, P1, &mut rolls).unwrap().unwrap();
    // Only the TIE fired; the X-Wing's weapons are down.
    assert_eq!(rec.attacks.len(), 1);
    assert_eq!(rec.attacks[0].attacker, ShipId(0));
    // End phase ticked the effect down but it survives one more round.
    assert!(gs.ships[1].crits.contains(&CritEffect::WeaponsFailure { rounds: 1 }));
}

#[test]
fn crit_structural_damage_cuts_defense_dice() {
    let c = content();
    let mut gs = new_1v1(&c);
    gs.ships[0].crits.push(CritEffect::StructuralDamage);
    let mut rolls = scripted(vec![6, 7]);
    fly_to_range3(&c, &mut gs, &mut rolls);
    let rec = gs.commit_plans(&c, P1, &mut rolls).unwrap().unwrap();
    // TIE agility 3 − 1 structural + 1 range-3 bonus = 3 defense dice.
    assert_eq!(rec.attacks[0].defender, ShipId(0));
    assert_eq!(rec.attacks[0].defense_faces.len(), 3);
}

#[test]
fn crit_sensor_array_forfeits_actions() {
    let c = content();
    let mut gs = new_1v1(&c);
    place_both(&c, &mut gs);
    gs.ships[0].crits.push(CritEffect::DamagedSensorArray);
    gs.plan_maneuver(&c, P0, ShipId(0), straight2(&c, TIE)).unwrap();
    gs.plan_action(&c, P0, ShipId(0), PlannedAction::Focus).unwrap();
    gs.plan_maneuver(&c, P1, ShipId(1), straight2(&c, XWING)).unwrap();
    gs.commit_plans(&c, P0, &mut always(7)).unwrap();
    let rec = gs.commit_plans(&c, P1, &mut always(7)).unwrap().unwrap();
    assert_eq!(rec.moves[0].action_result, ActionResult::SkippedDamaged);
    assert_eq!(gs.ships[0].focus, 0);
}

#[test]
fn crit_blinded_pilot_fires_zero_dice_once() {
    let c = content();
    let mut gs = new_1v1(&c);
    gs.ships[1].crits.push(CritEffect::BlindedPilot);
    let mut rolls = scripted(vec![7]);
    fly_to_range3(&c, &mut gs, &mut rolls);
    let rec = gs.commit_plans(&c, P1, &mut rolls).unwrap().unwrap();
    let xw_shot = &rec.attacks[0];
    assert_eq!(xw_shot.attacker, ShipId(1));
    assert!(xw_shot.attack_faces.is_empty(), "blinded: zero attack dice");
    assert!(gs.ships[1].crits.is_empty(), "vision clears after the wild shot");
}

#[test]
fn crit_stunned_pilot_takes_damage_on_bump() {
    let c = content();
    let mut gs = new_1v1(&c);
    place_both(&c, &mut gs);
    gs.ships[1].crits.push(CritEffect::StunnedPilot);
    let s5_tie =
        dial_index(&c, TIE, |m| m.steer == Steer::Straight && m.distance == 5);
    let s4_xw = dial_index(&c, XWING, |m| {
        m.steer == Steer::Straight && m.distance == 4
    });
    // Same two-turn approach as the bump test: turn 2 the X-Wing
    // rams the TIE, and the stunned pilot takes 1 (to shields).
    for _ in 0..2 {
        gs.plan_maneuver(&c, P0, ShipId(0), s5_tie).unwrap();
        gs.plan_maneuver(&c, P1, ShipId(1), s4_xw).unwrap();
        gs.commit_plans(&c, P0, &mut always(7)).unwrap();
        gs.commit_plans(&c, P1, &mut always(7)).unwrap().unwrap();
    }
    assert_eq!(gs.ships[1].shields, 2, "bump damage absorbed by shields");
}

#[test]
fn crit_console_fire_burns_at_combat_start() {
    let c = content();
    let mut gs = new_1v1(&c);
    place_both(&c, &mut gs);
    gs.ships[0].crits.push(CritEffect::ConsoleFire);
    gs.plan_maneuver(&c, P0, ShipId(0), straight2(&c, TIE)).unwrap();
    gs.plan_maneuver(&c, P1, ShipId(1), straight2(&c, XWING)).unwrap();
    // Ships are far apart (no attacks), so the only roll consumed is
    // the Console Fire die: 0 = Hit → 1 hull on the shieldless TIE.
    gs.commit_plans(&c, P0, &mut always(0)).unwrap();
    let rec = gs.commit_plans(&c, P1, &mut always(0)).unwrap().unwrap();
    assert!(rec.events.iter().any(|e| e.contains("Console Fire")));
    assert_eq!(gs.ships[0].hull, 2);
}

#[test]
fn crit_damaged_cockpit_zeroes_pilot_skill() {
    let c = content();
    let mut gs = new_1v1(&c);
    place_both(&c, &mut gs);
    // X-Wing (skill 2) with a damaged cockpit drops to skill 0: it now
    // moves BEFORE the TIE (skill 1) instead of after.
    gs.ships[1].crits.push(CritEffect::DamagedCockpit);
    gs.plan_maneuver(&c, P0, ShipId(0), straight2(&c, TIE)).unwrap();
    gs.plan_maneuver(&c, P1, ShipId(1), straight2(&c, XWING)).unwrap();
    gs.commit_plans(&c, P0, &mut always(7)).unwrap();
    let rec = gs.commit_plans(&c, P1, &mut always(7)).unwrap().unwrap();
    assert_eq!(rec.moves[0].ship, ShipId(1), "skill 0 moves first");
    assert_eq!(rec.moves[1].ship, ShipId(0));
}

#[test]
fn bullseye_denies_defender_tokens() {
    let c = content();
    let mut gs = new_1v1(&c);
    // Dead-center alignment: the TIE ends squarely in the X-Wing's
    // bullseye lane, so its evade token cannot be spent.
    gs.place_ship(&c, P0, ShipId(0), Pose::new(10.0, 2.5, FRAC_PI_2)).unwrap();
    gs.place_ship(&c, P1, ShipId(1), Pose::new(10.0, 17.5, -FRAC_PI_2)).unwrap();
    let s5 =
        dial_index(&c, TIE, |m| m.steer == Steer::Straight && m.distance == 5);
    let s4 = dial_index(&c, XWING, |m| {
        m.steer == Steer::Straight && m.distance == 4
    });
    gs.plan_maneuver(&c, P0, ShipId(0), s5).unwrap();
    gs.plan_action(&c, P0, ShipId(0), PlannedAction::Evade).unwrap();
    gs.plan_maneuver(&c, P1, ShipId(1), s4).unwrap();
    // X-Wing attack: 2 hits + blank; TIE defense: 4 blanks. Without
    // its evade token the shieldless TIE takes both hits.
    // TIE attack: 2 blanks; X-Wing defense: 3 blanks.
    let mut rolls = scripted(vec![0, 0, 6, 7, 7, 7, 7, 6, 6, 7, 7, 7]);
    gs.commit_plans(&c, P0, &mut rolls).unwrap();
    let rec = gs.commit_plans(&c, P1, &mut rolls).unwrap().unwrap();
    let xw_shot = &rec.attacks[0];
    assert!(xw_shot.defender_in_bullseye);
    assert!(!xw_shot.evade_spent, "bullseye denies the evade token");
    assert_eq!((xw_shot.hits, xw_shot.crits), (2, 0));
    assert_eq!(xw_shot.hull_lost, 2);
    assert_eq!(gs.ships[0].hull, 1);
}

#[test]
fn equal_skill_fires_simultaneously_and_initiative_wins_mutual_kill() {
    let c = content();
    // TIE mirror match: equal squads, tie roll Hit → P0 has initiative.
    let mut gs = new_game(&c,
        [&fleet(&c, &[TIE]), &fleet(&c, &[TIE])],
        AttackFace::Hit,
    )
    .unwrap();
    assert_eq!(gs.initiative, P0);
    gs.place_ship(&c, P0, ShipId(0), Pose::new(10.0, 2.5, FRAC_PI_2)).unwrap();
    gs.place_ship(&c, P1, ShipId(1), Pose::new(10.0, 17.5, -FRAC_PI_2)).unwrap();
    let s5 =
        dial_index(&c, TIE, |m| m.steer == Steer::Straight && m.distance == 5);
    let s2 =
        dial_index(&c, TIE, |m| m.steer == Steer::Straight && m.distance == 2);
    // Turn 1 (Range 2): every attack 2 hits, every defense 3 blanks.
    // Turn 2 (Range 1, three attack dice): 3 hits vs 3 blanks.
    let mut rolls =
        scripted(vec![0, 0, 7, 7, 7, 0, 0, 7, 7, 7, 0, 0, 0, 7, 7, 7, 0, 0, 0, 7, 7, 7]);
    // Turn 1: close to range 2 (hull gap 5); both take 2 hull damage.
    gs.plan_maneuver(&c, P0, ShipId(0), s5).unwrap();
    gs.plan_maneuver(&c, P1, ShipId(1), s5).unwrap();
    gs.commit_plans(&c, P0, &mut rolls).unwrap();
    let rec = gs.commit_plans(&c, P1, &mut rolls).unwrap().unwrap();
    assert_eq!(rec.attacks.len(), 2);
    assert_eq!(gs.ships[0].hull, 1);
    assert_eq!(gs.ships[1].hull, 1);
    // Turn 2: both die — but both still fire (simultaneous rule),
    // and the initiative holder wins the mutual kill.
    gs.plan_maneuver(&c, P0, ShipId(0), s2).unwrap();
    gs.plan_maneuver(&c, P1, ShipId(1), s2).unwrap();
    gs.commit_plans(&c, P0, &mut rolls).unwrap();
    let rec = gs.commit_plans(&c, P1, &mut rolls).unwrap().unwrap();
    assert_eq!(rec.attacks.len(), 2, "destroyed ship of equal skill still fires");
    assert!(rec.attacks.iter().all(|a| a.defender_destroyed));
    assert_eq!(gs.phase, Phase::GameOver);
    assert_eq!(gs.winner, Some(0), "initiative wins the mutual kill");
}

#[test]
fn declare_target_prompt_when_several_enemies_in_arc() {
    let c = content();
    let mut gs = new_game(&c,
        [&fleet(&c, &[TIE]), &fleet(&c, &[XWING, XWING])],
        AttackFace::Hit,
    )
    .unwrap();
    // TIE south; two X-Wings north, both ending inside its arc at R3
    // (#1 a hair nearer than #2).
    gs.place_ship(&c, P0, ShipId(0), Pose::new(10.0, 2.5, FRAC_PI_2)).unwrap();
    gs.place_ship(&c, P1, ShipId(1), Pose::new(9.0, 17.5, -FRAC_PI_2)).unwrap();
    gs.place_ship(&c, P1, ShipId(2), Pose::new(11.5, 17.5, -FRAC_PI_2)).unwrap();
    let s5 =
        dial_index(&c, TIE, |m| m.steer == Steer::Straight && m.distance == 5);
    let s4 = dial_index(&c, XWING, |m| {
        m.steer == Steer::Straight && m.distance == 4
    });
    gs.plan_maneuver(&c, P0, ShipId(0), s5).unwrap();
    gs.plan_maneuver(&c, P1, ShipId(1), s4).unwrap();
    gs.plan_maneuver(&c, P1, ShipId(2), s4).unwrap();
    let mut miss = always(7);
    assert_eq!(gs.commit_plans_begin(&c, P0, &mut miss).unwrap(), None);
    let act = gs.commit_plans_begin(&c, P1, &mut miss).unwrap().unwrap();
    assert_eq!(act.moves.len(), 3);
    assert_eq!(gs.phase, Phase::Combat);
    // X-Wings (skill 2) fire first; each sees only the TIE → automatic.
    assert!(matches!(gs.combat_step(&c, &mut miss).unwrap(), Step::Attack(_)));
    assert!(matches!(gs.combat_step(&c, &mut miss).unwrap(), Step::Attack(_)));
    // The TIE sees both X-Wings: the game must ask its owner.
    let Step::NeedTarget(p) = gs.combat_step(&c, &mut miss).unwrap() else {
        panic!("expected a Declare Target prompt")
    };
    assert_eq!((p.attacker, p.owner), (ShipId(0), P0));
    let mut ids: Vec<u32> = p.options.iter().map(|o| o.target.0).collect();
    ids.sort();
    assert_eq!(ids, vec![1, 2]);
    // Stepping again re-issues the prompt; only the owner may answer,
    // and only with an eligible enemy.
    assert!(matches!(gs.combat_step(&c, &mut miss).unwrap(), Step::NeedTarget(_)));
    assert_eq!(
        gs.declare_target(&c, P1, ShipId(2), None, &mut miss),
        Err(Rejection::NotYourShip)
    );
    assert_eq!(
        gs.declare_target(&c, P0, ShipId(0), None, &mut miss),
        Err(Rejection::BadTarget)
    );
    // Pick the farther X-Wing — overriding the auto policy's nearest.
    let rec = gs.declare_target(&c, P0, ShipId(2), None, &mut miss).unwrap();
    assert_eq!(rec.defender, ShipId(2));
    let Step::Done(all) = gs.combat_step(&c, &mut miss).unwrap() else {
        panic!("expected the turn to finish")
    };
    assert_eq!(all.attacks.len(), 3);
    assert_eq!(gs.phase, Phase::Planning);
    assert_eq!(gs.turn, 2);
}

#[test]
fn commit_requires_all_plans_and_resign_ends_game() {
    let c = content();
    let mut gs = new_1v1(&c);
    place_both(&c, &mut gs);
    assert_eq!(gs.commit_plans(&c, P0, &mut always(7)), Err(Rejection::PlansIncomplete));
    gs.plan_maneuver(&c, P0, ShipId(0), straight2(&c, TIE)).unwrap();
    gs.commit_plans(&c, P0, &mut always(7)).unwrap();
    assert_eq!(gs.commit_plans(&c, P0, &mut always(7)), Err(Rejection::AlreadyCommitted));
    assert_eq!(gs.resign(P1), Some(0));
    assert_eq!(gs.phase, Phase::GameOver);
    assert_eq!(gs.winner, Some(0));
}

// ---------------- Bombs ----------------

/// A Gamma Squadron Pilot (TIE Bomber) at the south edge carrying
/// `card`, an X-Wing far north; both fly straight `bomber_dist`/1.
fn bomber_duel(c: &Content, card: UpgradeId, bomber_dist: u8) -> Table {
    let mut gs = skirmish(
        c,
        &[("gammasquadronpilot", Pose::new(10.0, 3.0, FRAC_PI_2), bomber_dist)],
        &[("bluesquadronnovice", Pose::new(10.0, 17.5, -FRAC_PI_2), 1)],
    );
    gs.ships[0].upgrades.push(card);
    gs
}

#[test]
fn seismic_charge_drops_behind_and_blows_at_end_of_activation() {
    let c = content();
    let seismic = UpgradeId(181);
    let mut gs = bomber_duel(&c, seismic, 1);
    gs.plan_bomb(&c, P0, ShipId(0), Some(seismic)).unwrap();
    // Mines cannot be planned as dial-reveal bombs, nor unequipped cards.
    assert_eq!(
        gs.plan_bomb(&c, P0, ShipId(0), Some(UpgradeId(182))),
        Err(Rejection::NoSuchUpgrade)
    );
    let mut blanks = scripted(vec![7]);
    gs.commit_plans(&c, P0, &mut blanks).unwrap();
    let rec = gs.commit_plans(&c, P1, &mut blanks).unwrap().unwrap();
    let mv = rec.moves.iter().find(|m| m.ship == ShipId(0)).unwrap();
    assert_eq!(mv.dropped_before.len(), 1);
    let token = mv.dropped_before[0];
    assert_eq!(token.kind, BombKind::Seismic);
    // Rear edge at y=2, template to y=1: token front-center there.
    assert!((Pose::from_bits(token.pose).anchor.y - 1.0).abs() < 1e-9, "{:?}", token.pose);
    // A straight 1 leaves the bomber's rear 2 units from the token —
    // inside Range 1 — so it eats its own charge; the X-Wing is safe.
    assert_eq!(rec.detonations.len(), 1);
    assert_eq!(rec.detonations[0].hits.len(), 1);
    assert_eq!(rec.detonations[0].hits[0].ship, ShipId(0));
    assert_eq!(rec.detonations[0].hits[0].damage, 1);
    assert_eq!(gs.ships[0].hull, 5);
    assert_eq!(gs.ships[1].hull, 3);
    assert!(gs.bombs.is_empty(), "reveal bombs never linger");
    assert!(!gs.ships[0].upgrades.contains(&seismic), "card discarded");
    assert!(rec.events.iter().any(|e| e.contains("drops Seismic Charges")), "{:?}", rec.events);
}

#[test]
fn proton_bomb_deals_a_faceup_card_and_a_fast_bomber_escapes_it() {
    let c = content();
    let proton = UpgradeId(180);
    let mut gs = bomber_duel(&c, proton, 1);
    gs.ships[0].shields = 2; // pretend shields: the faceup card ignores them
    gs.plan_bomb(&c, P0, ShipId(0), Some(proton)).unwrap();
    // draw(9) = Stunned Pilot: no immediate extra damage.
    let mut rolls = scripted(vec![9]);
    gs.commit_plans(&c, P0, &mut rolls).unwrap();
    let rec = gs.commit_plans(&c, P1, &mut rolls).unwrap().unwrap();
    assert_eq!(rec.detonations[0].hits[0].crits, 1);
    assert_eq!(gs.ships[0].shields, 2);
    assert_eq!(gs.ships[0].hull, 5);
    assert!(gs.ships[0].crits.contains(&CritEffect::StunnedPilot));

    // Straight 2 puts the rear 3 units away: out of Range 1.
    let mut gs = bomber_duel(&c, proton, 2);
    gs.plan_bomb(&c, P0, ShipId(0), Some(proton)).unwrap();
    let mut blanks = scripted(vec![7]);
    gs.commit_plans(&c, P0, &mut blanks).unwrap();
    let rec = gs.commit_plans(&c, P1, &mut blanks).unwrap().unwrap();
    assert_eq!(rec.detonations.len(), 1);
    assert!(rec.detonations[0].hits.is_empty());
    assert_eq!(gs.ships[0].hull, 6);
}

/// Turn 1: the bomber drops `card` as its action; turn 2: the X-Wing
/// is moved by hand to just south of the token and flies straight 2
/// through it. Returns the state and the X-Wing's turn-2 move record.
fn cross_mine(c: &Content, card: UpgradeId, rolls: Vec<u8>) -> (Table, MoveRecord) {
    let mut gs = bomber_duel(c, card, 1);
    gs.plan_action(c, P0, ShipId(0), PlannedAction::DropMine(card)).unwrap();
    let mut blanks = scripted(vec![7]);
    gs.commit_plans(c, P0, &mut blanks).unwrap();
    let rec = gs.commit_plans(c, P1, &mut blanks).unwrap().unwrap();
    let mv = rec.moves.iter().find(|m| m.ship == ShipId(0)).unwrap();
    assert_eq!(mv.action_result, ActionResult::Performed);
    assert!(!mv.dropped_after.is_empty());
    assert!(!gs.ships[0].upgrades.contains(&card));
    assert_eq!(gs.bombs.len(), mv.dropped_after.len());
    // Bomber now front y=4; token behind it at y 1..2. Park the
    // bomber out of the way and aim the X-Wing at the token.
    gs.ships[0].pose = Some((Pose::new(4.0, 12.0, FRAC_PI_2)).bits());
    gs.ships[1].pose = Some((Pose::new(10.0, 1.0, FRAC_PI_2)).bits());
    let s1 = dial_index(c, gs.ships[0].class, |m| {
        m.steer == Steer::Straight && m.distance == 1
    });
    let s2 = dial_index(c, XWING, |m| {
        m.steer == Steer::Straight && m.distance == 2
    });
    gs.plan_maneuver(c, P0, ShipId(0), s1).unwrap();
    gs.plan_maneuver(c, P1, ShipId(1), s2).unwrap();
    gs.plan_action(c, P1, ShipId(1), PlannedAction::Focus).unwrap();
    let mut rolls = scripted(rolls);
    gs.commit_plans(c, P0, &mut rolls).unwrap();
    let rec = gs.commit_plans(c, P1, &mut rolls).unwrap().unwrap();
    let mv = rec.moves.iter().find(|m| m.ship == ShipId(1)).unwrap().clone();
    (gs, mv)
}

#[test]
fn proximity_mine_rolls_three_dice_on_the_ship_that_crosses_it() {
    let c = content();
    // hit, crit, blank; everything after is blank.
    let (gs, mv) = cross_mine(&c, UpgradeId(182), vec![0, 3, 7, 7, 7, 7, 7, 7, 7, 7, 7, 7]);
    assert_eq!(mv.mines_hit.len(), 1);
    let hit = mv.mines_hit[0].hits[0];
    assert_eq!(hit.ship, ShipId(1));
    assert_eq!(hit.damage, 2);
    assert_eq!(hit.crits, 0, "shields absorb the critical");
    assert_eq!(gs.ships[1].shields, 1);
    assert_eq!(gs.ships[1].hull, 3);
    assert_eq!(mv.action_result, ActionResult::Performed, "mines don't cost the action");
    assert!(gs.bombs.is_empty(), "a detonated mine is removed");
}

#[test]
fn conner_net_ionizes_and_denies_the_action() {
    let c = content();
    let (gs, mv) = cross_mine(&c, UpgradeId(185), vec![7]);
    let hit = mv.mines_hit[0].hits[0];
    assert_eq!((hit.damage, hit.ion), (1, 2));
    assert_eq!(gs.ships[1].shields, 2);
    assert_eq!(gs.ships[1].ion, 2);
    assert_eq!(mv.action_result, ActionResult::SkippedNetted);
    assert_eq!(gs.ships[1].focus, 0);
}

#[test]
fn cluster_mines_drop_three_tokens_each_firing_two_dice() {
    let c = content();
    let (gs, mv) = cross_mine(&c, UpgradeId(184), vec![0, 0, 7, 7, 7, 7, 7, 7, 7, 7]);
    // The X-Wing (1 wide) flies up the middle: the center token for
    // sure; the outer two only graze its edges (touching counts as
    // overlap, so either outcome of the rounding is accepted).
    assert!(!mv.mines_hit.is_empty());
    assert_eq!(mv.mines_hit[0].hits[0].damage, 2, "two hits from the first token");
    assert_eq!(gs.bombs.len() + mv.mines_hit.len(), 3, "untriggered mines stay armed");
}

// ---------------- Talent cards ----------------

fn rebel_shot(rec: &TurnRecords) -> &AttackRecord {
    rec.attacks.iter().find(|a| a.attacker == ShipId(1)).expect("the X-Wing fired")
}

/// A Red Squadron Veteran (PS4, fires first) carrying `card` against
/// an Obsidian Squadron Pilot (PS3), nose to nose at Range 3: the
/// X-Wing rolls 3 attack dice, the TIE 4 defense dice.
fn talent_duel(c: &Content, card: UpgradeId) -> Table {
    let mut gs = duel(c, "obsidiansquadronpilot", "redsquadronveteran");
    gs.ships[1].upgrades.push(card);
    gs
}

fn resolve(c: &Content, gs: &mut Table, rolls: Vec<u8>) -> TurnRecords {
    let mut rolls = scripted(rolls);
    gs.commit_plans(c, P0, &mut rolls).unwrap();
    gs.commit_plans(c, P1, &mut rolls).unwrap().unwrap()
}

#[test]
fn mercenary_copilot_crits_at_range_3_and_sensor_jammer_blunts_a_hit() {
    let c = content();
    // X-Wing rolls [Hit, Blank, Blank] at Range 3: the hit becomes a crit.
    let mut gs = talent_duel(&c, UpgradeId(158));
    let rec = resolve(&c, &mut gs, vec![0, 7, 7, 7, 7, 7, 7, 7, 7, 7, 7, 7, 7]);
    assert_eq!((rebel_shot(&rec).hits, rebel_shot(&rec).crits), (0, 1));
    // Sensor Jammer on the TIE: the same hit becomes a focus result
    // the X-Wing has no token to convert.
    let mut gs = duel(&c, "obsidiansquadronpilot", "redsquadronveteran");
    gs.ships[0].upgrades.push(UpgradeId(202));
    let rec = resolve(&c, &mut gs, vec![0, 7, 7, 7, 7, 7, 7, 7, 7, 7, 7, 7, 7]);
    assert_eq!(rebel_shot(&rec).hits, 0);
    assert!(rebel_shot(&rec).attack_faces.contains(&AttackFace::Focus));
    assert!(rec.events.iter().any(|e| e.contains("Sensor Jammer")), "{:?}", rec.events);
}

#[test]
fn accuracy_corrector_turns_a_whiff_into_two_hits() {
    let c = content();
    let mut gs = talent_duel(&c, UpgradeId(203));
    let rec = resolve(&c, &mut gs, vec![7, 7, 7, 7, 7, 7, 7, 7, 7, 7, 7, 7, 7]);
    assert_eq!(rebel_shot(&rec).hits, 2);
    assert_eq!(gs.ships[0].hull, 1);
}

#[test]
fn weapons_guidance_spends_a_spare_focus_on_a_blank() {
    let c = content();
    let mut gs = talent_duel(&c, UpgradeId(20));
    gs.plan_action(&c, P1, ShipId(1), PlannedAction::Focus).unwrap();
    let rec = resolve(&c, &mut gs, vec![7, 7, 7, 7, 7, 7, 7, 7, 7, 7, 7, 7, 7]);
    assert_eq!(rebel_shot(&rec).hits, 1);
    assert!(rebel_shot(&rec).attacker_focus_spent);
}

#[test]
fn han_solo_crew_spends_the_lock_to_convert_all_focus_results() {
    let c = content();
    let mut gs = talent_duel(&c, UpgradeId(152));
    gs.ships[1].lock = Some(ShipId(0));
    // [Focus, Focus, Blank] with no focus token: Han beats rerolling.
    let rec = resolve(&c, &mut gs, vec![4, 4, 7, 7, 7, 7, 7, 7, 7, 7, 7, 7, 7]);
    assert_eq!(rebel_shot(&rec).hits, 2);
    assert!(rebel_shot(&rec).lock_spent);
    assert_eq!(gs.ships[1].lock, None);
}

#[test]
fn tactician_stresses_a_range_2_target_and_fire_control_locks_it() {
    let c = content();
    // X-Wing ends at anchor y=10.5: base 10.5..11.5 vs TIE nose 7.5 → Range 2.
    let mut gs = duel_at(
        &c,
        "obsidiansquadronpilot",
        "redsquadronveteran",
        Pose::new(10.0, 14.5, -FRAC_PI_2),
    );
    gs.ships[1].upgrades.push(UpgradeId(162));
    gs.ships[1].upgrades.push(UpgradeId(200));
    let rec = resolve(&c, &mut gs, vec![7; 16]);
    assert_eq!(rebel_shot(&rec).range, 2);
    assert_eq!(gs.ships[0].stress, 1, "{:?}", rec.events);
    assert_eq!(gs.ships[1].lock, Some(ShipId(0)));
}

#[test]
fn comm_relay_keeps_one_evade_and_r4d6_trades_hits_for_stress() {
    let c = content();
    let mut gs = duel(&c, "obsidiansquadronpilot", "redsquadronveteran");
    gs.ships[0].upgrades.push(UpgradeId(21));
    gs.plan_action(&c, P0, ShipId(0), PlannedAction::Evade).unwrap();
    resolve(&c, &mut gs, vec![7; 16]);
    assert_eq!(gs.ships[0].evade, 1, "Comm Relay keeps the token through the End phase");

    // R4-D6 on the shieldless TIE: three hits → one cancelled for a stress.
    let mut gs = duel(&c, "obsidiansquadronpilot", "redsquadronveteran");
    gs.ships[0].upgrades.push(UpgradeId(47));
    let rec = resolve(&c, &mut gs, vec![0, 0, 0, 7, 7, 7, 7, 7, 7, 7, 7, 7, 7]);
    assert_eq!(rebel_shot(&rec).hits, 2);
    assert_eq!(gs.ships[0].stress, 1);
    assert_eq!(gs.ships[0].hull, 1);
}

#[test]
fn lightweight_frame_and_mara_jade_at_range_1() {
    let c = content();
    // X-Wing anchor y=9.0 after its straight 4: base 9..10 vs TIE nose 7.5 → Range 1.
    let stage = |c: &Content| {
        duel_at(
            c,
            "obsidiansquadronpilot",
            "redsquadronveteran",
            Pose::new(10.0, 13.0, -FRAC_PI_2),
        )
    };
    let mut gs = stage(&c);
    gs.ships[0].upgrades.push(UpgradeId(79));
    // X-Wing: 4 dice, all hits. TIE: 3 dice blank, the extra die an evade.
    let rec = resolve(&c, &mut gs, vec![0, 0, 0, 0, 7, 7, 7, 0, 7, 7, 7, 7, 7, 7, 7, 7]);
    assert_eq!(rebel_shot(&rec).range, 1);
    assert_eq!(rebel_shot(&rec).defense_faces.len(), 4);
    assert_eq!(rebel_shot(&rec).hits, 3);

    let mut gs = stage(&c);
    gs.ships[0].upgrades.push(UpgradeId(179));
    let rec = resolve(&c, &mut gs, vec![7; 20]);
    assert_eq!(gs.ships[1].stress, 1, "{:?}", rec.events);
    assert!(rec.events.iter().any(|e| e.contains("Mara Jade")));
}

#[test]
fn long_range_scanners_and_st321_change_who_can_be_locked() {
    let c = content();
    // Range 3 after the moves: Long-Range Scanners allow the lock.
    let mut gs = talent_duel(&c, UpgradeId(83));
    gs.plan_action(&c, P1, ShipId(1), PlannedAction::TargetLock(ShipId(0))).unwrap();
    let rec = resolve(&c, &mut gs, vec![7; 16]);
    let mv = rec.moves.iter().find(|m| m.ship == ShipId(1)).unwrap();
    assert_eq!(mv.action_result, ActionResult::Performed);
    // Range 2: refused.
    let mut gs = duel_at(
        &c,
        "obsidiansquadronpilot",
        "redsquadronveteran",
        Pose::new(10.0, 14.5, -FRAC_PI_2),
    );
    gs.ships[1].upgrades.push(UpgradeId(83));
    gs.plan_action(&c, P1, ShipId(1), PlannedAction::TargetLock(ShipId(0))).unwrap();
    let rec = resolve(&c, &mut gs, vec![7; 16]);
    let mv = rec.moves.iter().find(|m| m.ship == ShipId(1)).unwrap();
    assert_eq!(mv.action_result, ActionResult::Failed);
    // ST-321: a lock from the far corner of the board.
    let mut gs = duel_at(
        &c,
        "obsidiansquadronpilot",
        "redsquadronveteran",
        Pose::new(2.0, 17.5, -FRAC_PI_2),
    );
    gs.ships[1].upgrades.push(UpgradeId(97));
    gs.plan_action(&c, P1, ShipId(1), PlannedAction::TargetLock(ShipId(0))).unwrap();
    let rec = resolve(&c, &mut gs, vec![7; 16]);
    let mv = rec.moves.iter().find(|m| m.ship == ShipId(1)).unwrap();
    assert_eq!(mv.action_result, ActionResult::Performed, "{:?}", rec.events);
    assert_eq!(gs.ships[1].lock, Some(ShipId(0)));
}

#[test]
fn targeting_astromech_locks_after_a_red_maneuver() {
    let c = content();
    let mut gs = talent_duel(&c, UpgradeId(55));
    let k4 =
        dial_index(&c, XWING, |m| m.steer == Steer::KTurn && m.distance == 4);
    gs.plan_maneuver(&c, P1, ShipId(1), k4).unwrap();
    let rec = resolve(&c, &mut gs, vec![7; 16]);
    assert_eq!(gs.ships[1].stress, 1);
    assert_eq!(gs.ships[1].lock, Some(ShipId(0)), "{:?}", rec.events);
}

#[test]
fn primed_thrusters_let_a_stressed_tie_barrel_roll() {
    let c = content();
    let mut gs = duel(&c, "obsidiansquadronpilot", "redsquadronveteran");
    gs.ships[0].upgrades.push(UpgradeId(23));
    let k3 =
        dial_index(&c, TIE, |m| m.steer == Steer::KTurn && m.distance == 3);
    gs.plan_maneuver(&c, P0, ShipId(0), k3).unwrap();
    gs.plan_action(&c, P0, ShipId(0), PlannedAction::BarrelRoll(Side::Left)).unwrap();
    let rec = resolve(&c, &mut gs, vec![7; 16]);
    let mv = rec.moves.iter().find(|m| m.ship == ShipId(0)).unwrap();
    assert_eq!(mv.action_result, ActionResult::Performed, "{:?}", rec.events);
    assert_eq!(gs.ships[0].stress, 1);
}

#[test]
fn advanced_sensors_take_the_focus_before_the_maneuver() {
    let c = content();
    let mut gs = talent_duel(&c, UpgradeId(201));
    gs.plan_action(&c, P1, ShipId(1), PlannedAction::Focus).unwrap();
    let rec = resolve(&c, &mut gs, vec![7; 16]);
    let mv = rec.moves.iter().find(|m| m.ship == ShipId(1)).unwrap();
    assert_eq!(mv.pre, Some((PlannedAction::Focus, ActionResult::Performed)));
    assert_eq!(mv.action, PlannedAction::Pass);
    assert!(rec.events.iter().any(|e| e.contains("Advanced Sensors")), "{:?}", rec.events);
}

#[test]
fn gunner_and_luke_fire_again_after_a_miss() {
    let c = content();
    // Gunner: the miss is followed by a primary attack that lands three hits.
    let mut gs = talent_duel(&c, UpgradeId(157));
    let rec = resolve(&c, &mut gs, vec![7, 7, 7, 7, 7, 7, 7, 0, 0, 0, 7, 7, 7, 7, 7, 7, 7]);
    let shots: Vec<&AttackRecord> =
        rec.attacks.iter().filter(|a| a.attacker == ShipId(1)).collect();
    assert_eq!(shots.len(), 2, "{:?}", rec.events);
    assert_eq!(shots[1].hits, 3);
    assert!(gs.ships[0].destroyed);
    // Luke: the second attack turns a focus result into a hit for free.
    let mut gs = talent_duel(&c, UpgradeId(151));
    let rec = resolve(&c, &mut gs, vec![7, 7, 7, 7, 7, 7, 7, 4, 7, 7, 7, 7, 7, 7, 7, 7, 7, 7]);
    let shots: Vec<&AttackRecord> =
        rec.attacks.iter().filter(|a| a.attacker == ShipId(1)).collect();
    assert_eq!(shots.len(), 2, "{:?}", rec.events);
    assert_eq!(shots[1].hits, 1);
    assert!(rec.events.iter().any(|e| e.contains("Luke Skywalker")), "{:?}", rec.events);
}

#[test]
fn extra_munitions_keep_the_bomb_card_and_black_one_shakes_a_lock() {
    let c = content();
    let seismic = UpgradeId(181);
    let mut gs = bomber_duel(&c, seismic, 1);
    gs.ships[0].upgrades.push(UpgradeId(6));
    gs.ships[0].ordnance = vec![seismic];
    gs.plan_bomb(&c, P0, ShipId(0), Some(seismic)).unwrap();
    let rec = resolve(&c, &mut gs, vec![7; 16]);
    assert!(gs.ships[0].upgrades.contains(&seismic), "card kept: {:?}", rec.events);
    assert!(gs.ships[0].ordnance.is_empty());
    assert_eq!(rec.detonations.len(), 1);

    // Black One on the TIE: its barrel roll removes the X-Wing's lock on it.
    let mut gs = duel(&c, "obsidiansquadronpilot", "redsquadronveteran");
    gs.ships[0].upgrades.push(UpgradeId(90));
    gs.ships[1].lock = Some(ShipId(0));
    gs.plan_action(&c, P0, ShipId(0), PlannedAction::BarrelRoll(Side::Left)).unwrap();
    let rec = resolve(&c, &mut gs, vec![7; 16]);
    assert_eq!(gs.ships[1].lock, None, "{:?}", rec.events);
}

#[test]
fn tractor_beam_tractors_instead_of_damaging() {
    let c = content();
    let beam = UpgradeId(195);
    let mut gs = talent_duel(&c, beam);
    // X-Wing first: 3 beam dice all hits, TIE defends 4 blanks.
    let mut rolls = scripted(vec![0, 0, 0, 7, 7, 7, 7, 7, 7, 7, 7, 7, 7, 7, 7, 7]);
    gs.commit_plans_begin(&c, P0, &mut rolls).unwrap();
    gs.commit_plans_begin(&c, P1, &mut rolls).unwrap();
    let rec = run_combat(&c, &mut gs, &mut rolls, prefer(beam));
    let shot = rebel_shot(&rec);
    assert_eq!(shot.weapon, Some(beam));
    assert_eq!((shot.hits, shot.crits), (0, 0));
    assert_eq!(gs.ships[0].hull, 3, "no damage");
    // The tractor token is gone with the End phase; agility was 2 meanwhile.
    assert!(rec.events.iter().any(|e| e.contains("tractored")), "{:?}", rec.events);
    assert_eq!(gs.ships[0].tractor, 0);
}

#[test]
fn btl_a4_title_fires_the_turret_after_the_primary_weapon() {
    let c = content();
    let mut gs = skirmish(
        &c,
        &[("obsidiansquadronpilot", Pose::new(10.0, 2.5, FRAC_PI_2), 5)],
        &[("goldsquadronpilot", Pose::new(10.0, 17.5, -FRAC_PI_2), 4)],
    );
    // Staged by hand so the turret (Range 1-2) reaches the TIE.
    gs.ships[1].pose = Some((Pose::new(10.0, 14.5, -FRAC_PI_2)).bits());
    gs.ships[1].upgrades.push(UpgradeId(92));
    gs.ships[1].upgrades.push(UpgradeId(10));
    let rec = resolve(&c, &mut gs, vec![7; 24]);
    let shots: Vec<&AttackRecord> =
        rec.attacks.iter().filter(|a| a.attacker == ShipId(1)).collect();
    assert_eq!(shots.len(), 2, "{:?}", rec.events);
    assert_eq!(shots[0].weapon, None);
    assert_eq!(shots[1].weapon, Some(UpgradeId(10)));
}

#[test]
fn navigator_rotates_a_dial_that_would_leave_the_board() {
    let c = content();
    // Straight 4 south from y=3.5 would fly off; straight 3 stays on.
    let mut gs = duel_at(
        &c,
        "obsidiansquadronpilot",
        "redsquadronveteran",
        Pose::new(10.0, 3.5, -FRAC_PI_2),
    );
    gs.ships[1].upgrades.push(UpgradeId(159));
    let rec = resolve(&c, &mut gs, vec![7; 20]);
    let mv = rec.moves.iter().find(|m| m.ship == ShipId(1)).unwrap();
    assert_eq!(mv.maneuver.distance, 3, "{:?}", rec.events);
    assert!(!mv.destroyed);
    assert!(rec.events.iter().any(|e| e.contains("Navigator")), "{:?}", rec.events);
}

#[test]
fn leia_is_discarded_to_fly_a_friends_red_maneuver_as_white() {
    let c = content();
    let mut gs = skirmish(
        &c,
        &[("obsidiansquadronpilot", Pose::new(10.0, 2.5, FRAC_PI_2), 5)],
        &[
            ("redsquadronveteran", Pose::new(6.0, 17.5, -FRAC_PI_2), 4),
            ("bluesquadronnovice", Pose::new(14.0, 17.5, -FRAC_PI_2), 1),
        ],
    );
    let leia = UpgradeId(153);
    gs.ships[2].upgrades.push(leia);
    let k4 =
        dial_index(&c, XWING, |m| m.steer == Steer::KTurn && m.distance == 4);
    gs.plan_maneuver(&c, P1, ShipId(1), k4).unwrap();
    let rec = resolve(&c, &mut gs, vec![7; 24]);
    assert_eq!(gs.ships[1].stress, 0, "{:?}", rec.events);
    assert!(!gs.ships[2].upgrades.contains(&leia), "Leia discarded");
    assert!(!gs.white_reds[1], "cleared with the End phase");
}

#[test]
fn fleet_officer_lando_and_r5d8_card_actions() {
    let c = content();
    // Fleet Officer: two TIEs abreast; the officer's ship and its
    // wingman get a focus, the officer's ship a stress.
    let mut gs = skirmish(
        &c,
        &[
            ("obsidiansquadronpilot", Pose::new(9.0, 2.5, FRAC_PI_2), 2),
            ("academypilot", Pose::new(11.0, 2.5, FRAC_PI_2), 2),
        ],
        &[("redsquadronveteran", Pose::new(10.0, 17.5, -FRAC_PI_2), 1)],
    );
    gs.ships[0].upgrades.push(UpgradeId(174));
    gs.plan_action(&c, P0, ShipId(0), PlannedAction::CardAction(UpgradeId(174))).unwrap();
    let rec = resolve(&c, &mut gs, vec![7; 24]);
    assert_eq!(gs.ships[0].stress, 1, "{:?}", rec.events);
    assert!(
        rec.events.iter().any(|e| e.contains("focus token to Obsidian-2")),
        "{:?}",
        rec.events
    );

    // Lando: two defense dice [Focus, Evade] → one token each.
    let mut gs = talent_duel(&c, UpgradeId(166));
    gs.plan_action(&c, P1, ShipId(1), PlannedAction::CardAction(UpgradeId(166))).unwrap();
    let rec = resolve(&c, &mut gs, vec![4, 0, 7, 7, 7, 7, 7, 7, 7, 7, 7, 7, 7, 7, 7, 7]);
    assert!(rec.events.iter().any(|e| e.contains("1 focus, 1 evade")), "{:?}", rec.events);

    // R5-D8: one facedown card, an evade result repairs it.
    let mut gs = talent_duel(&c, UpgradeId(49));
    gs.ships[1].hull = 2;
    gs.plan_action(&c, P1, ShipId(1), PlannedAction::CardAction(UpgradeId(49))).unwrap();
    let rec = resolve(&c, &mut gs, vec![0, 7, 7, 7, 7, 7, 7, 7, 7, 7, 7, 7, 7, 7, 7, 7]);
    assert_eq!(gs.ships[1].hull, 3, "{:?}", rec.events);
}

#[test]
fn rey_stores_an_unspent_focus_for_the_next_round() {
    let c = content();
    let mut gs = talent_duel(&c, UpgradeId(167));
    gs.plan_action(&c, P1, ShipId(1), PlannedAction::Focus).unwrap();
    let rec = resolve(&c, &mut gs, vec![7; 16]);
    assert_eq!(gs.ships[1].stored_focus, 1, "{:?}", rec.events);
    assert_eq!(gs.ships[1].focus, 0);
}

#[test]
fn horton_salm_rerolls_blanks_at_range_3() {
    let c = content();
    let mut gs = skirmish(
        &c,
        &[("obsidiansquadronpilot", Pose::new(10.0, 2.5, FRAC_PI_2), 5)],
        &[("hortonsalm", Pose::new(10.0, 17.5, -FRAC_PI_2), 4)],
    );
    // Horton (PS8) fires first: [Blank, Blank] rerolled into two hits.
    let rec = resolve(&c, &mut gs, vec![7, 7, 0, 0, 7, 7, 7, 7, 7, 7, 7, 7, 7, 7, 7, 7]);
    assert_eq!(rebel_shot(&rec).range, 3);
    assert_eq!(rebel_shot(&rec).hits, 2, "{:?}", rec.events);
}

#[test]
fn rey_and_han_solo_reroll_their_dice() {
    let c = content();
    let stage = |c: &Content, pilot: &str| {
        skirmish(
            c,
            &[("obsidiansquadronpilot", Pose::new(10.0, 2.5, FRAC_PI_2), 5)],
            &[(pilot, Pose::new(10.0, 17.5, -FRAC_PI_2), 3)],
        )
    };
    // Rey: two of three blanks rerolled (the TIE is in her arc).
    let mut gs = stage(&c, "rey");
    let rec = resolve(&c, &mut gs, vec![7, 7, 7, 0, 0, 7, 7, 7, 7, 7, 7, 7, 7, 7, 7, 7, 7]);
    assert_eq!(rebel_shot(&rec).hits, 2, "{:?}", rec.events);
    // Han Solo: a whiff is rerolled whole.
    let mut gs = stage(&c, "hansolo");
    let rec = resolve(&c, &mut gs, vec![7, 7, 7, 0, 0, 0, 7, 7, 7, 7, 7, 7, 7, 7, 7, 7, 7]);
    assert_eq!(rebel_shot(&rec).hits, 3, "{:?}", rec.events);
}

#[test]
fn kir_kanos_spends_an_evade_for_a_hit_at_range_3() {
    let c = content();
    let mut gs = skirmish(
        &c,
        &[("kirkanos", Pose::new(10.0, 3.0, FRAC_PI_2), 2)],
        &[("redsquadronveteran", Pose::new(10.0, 17.5, -FRAC_PI_2), 4)],
    );
    // X-Wing staged so its straight 4 ends exactly at Range 3 of Kir's nose (y=5).
    gs.ships[1].pose = Some((Pose::new(10.0, 16.5, -FRAC_PI_2)).bits());
    gs.plan_action(&c, P0, ShipId(0), PlannedAction::Evade).unwrap();
    let rec = resolve(&c, &mut gs, vec![7; 20]);
    assert_eq!(imperial_shot(&rec).range, 3);
    assert_eq!(imperial_shot(&rec).hits, 1, "{:?}", rec.events);
    assert_eq!(gs.ships[0].evade, 0);
}

#[test]
fn carnor_jax_and_zertik_strom_punish_ships_at_range_1() {
    let c = content();
    // Carnor Jax: the X-Wing (PS4) acts before Carnor (PS8) moves, so
    // it must end at Range 1 of his starting base (nose y=3).
    let mut gs = skirmish(
        &c,
        &[("carnorjax", Pose::new(10.0, 3.0, FRAC_PI_2), 2)],
        &[("redsquadronveteran", Pose::new(10.0, 17.5, -FRAC_PI_2), 4)],
    );
    gs.ships[1].pose = Some((Pose::new(10.0, 9.5, -FRAC_PI_2)).bits());
    gs.plan_action(&c, P1, ShipId(1), PlannedAction::Focus).unwrap();
    let rec = resolve(&c, &mut gs, vec![7; 24]);
    let mv = rec.moves.iter().find(|m| m.ship == ShipId(1)).unwrap();
    assert_eq!(rebel_shot(&rec).range, 1);
    assert_eq!(mv.action_result, ActionResult::Failed, "{:?}", rec.events);
    // Zertik Strom: the X-Wing's Range 1 shot rolls 3 dice, not 4.
    let mut gs = skirmish(
        &c,
        &[("zertikstrom", Pose::new(10.0, 3.0, FRAC_PI_2), 2)],
        &[("redsquadronveteran", Pose::new(10.0, 17.5, -FRAC_PI_2), 4)],
    );
    gs.ships[1].pose = Some((Pose::new(10.0, 11.0, -FRAC_PI_2)).bits());
    let rec = resolve(&c, &mut gs, vec![7; 24]);
    assert_eq!(rebel_shot(&rec).range, 1);
    assert_eq!(rebel_shot(&rec).attack_faces.len(), 3, "{:?}", rec.events);
}

#[test]
fn major_rhymer_fires_torpedoes_at_range_1() {
    let c = content();
    let torps = UpgradeId(1);
    let mut gs = skirmish(
        &c,
        &[("majorrhymer", Pose::new(10.0, 3.0, FRAC_PI_2), 1)],
        &[("redsquadronveteran", Pose::new(10.0, 17.5, -FRAC_PI_2), 4)],
    );
    gs.ships[1].pose = Some((Pose::new(10.0, 10.0, -FRAC_PI_2)).bits());
    gs.ships[0].upgrades.push(torps);
    gs.ships[0].lock = Some(ShipId(1));
    let mut rolls = scripted(vec![7; 24]);
    gs.commit_plans_begin(&c, P0, &mut rolls).unwrap();
    gs.commit_plans_begin(&c, P1, &mut rolls).unwrap();
    let Step::NeedTarget(p) = gs.combat_step(&c, &mut rolls).unwrap() else {
        panic!("expected a weapon choice")
    };
    assert_eq!(p.attacker, ShipId(0));
    let torp = p.options.iter().find(|o| o.weapon == Some(torps)).expect("torpedo offered");
    assert_eq!(torp.range, 1);
}

#[test]
fn wampa_trades_a_lone_crit_for_a_facedown_card() {
    let c = content();
    let mut gs = duel(&c, "wampa", "bluesquadronnovice");
    // Wampa (PS4) fires first: [Crit, Blank] → cancelled, one hull straight away.
    let rec = resolve(&c, &mut gs, vec![3, 7, 7, 7, 7, 7, 7, 7, 7, 7, 7, 7, 7, 7]);
    assert_eq!((imperial_shot(&rec).hits, imperial_shot(&rec).crits), (0, 0));
    assert_eq!(imperial_shot(&rec).hull_lost, 1);
    assert_eq!((gs.ships[1].hull, gs.ships[1].shields), (2, 3), "{:?}", rec.events);
}

#[test]
fn maarek_stele_picks_the_worst_of_three_damage_cards() {
    let c = content();
    let mut gs = duel(&c, "maarekstele", "bluesquadronnovice");
    gs.ships[1].shields = 0;
    // Maarek (PS7) fires first: [Crit, Blank], no evades; three cards
    // drawn from raws 9, 1 and 2 — the most severe is chosen.
    let rec = resolve(&c, &mut gs, vec![3, 7, 7, 7, 7, 9, 1, 2, 7, 7, 7, 7, 7, 7, 7, 7]);
    let expected = [draw(9), draw(1), draw(2)]
        .into_iter()
        .max_by_key(|e| e.severity())
        .unwrap();
    assert!(
        rec.events.iter().any(|e| e.contains(&format!("chooses {}", expected.name()))),
        "{:?}",
        rec.events
    );
}

#[test]
fn captain_yorr_absorbs_a_friends_stress() {
    let c = content();
    let mut gs = skirmish(
        &c,
        &[
            ("captainyorr", Pose::new(10.0, 3.0, FRAC_PI_2), 1),
            // PS7: moves after Yorr, whose green straight 1 comes first.
            ("maulermithel", Pose::new(13.0, 2.5, FRAC_PI_2), 2),
        ],
        &[("redsquadronveteran", Pose::new(10.0, 17.5, -FRAC_PI_2), 1)],
    );
    let k3 =
        dial_index(&c, TIE, |m| m.steer == Steer::KTurn && m.distance == 3);
    gs.plan_maneuver(&c, P0, ShipId(1), k3).unwrap();
    let rec = resolve(&c, &mut gs, vec![7; 24]);
    assert_eq!(gs.ships[1].stress, 0, "{:?}", rec.events);
    assert_eq!(gs.ships[0].stress, 1);
}

#[test]
fn captain_kagi_draws_enemy_target_locks() {
    let c = content();
    let mut gs = skirmish(
        &c,
        &[
            ("obsidiansquadronpilot", Pose::new(6.0, 2.5, FRAC_PI_2), 5),
            ("captainkagi", Pose::new(14.0, 3.0, FRAC_PI_2), 1),
        ],
        &[("redsquadronveteran", Pose::new(10.0, 17.5, -FRAC_PI_2), 4)],
    );
    gs.ships[2].pose = Some((Pose::new(12.0, 11.5, -FRAC_PI_2)).bits());
    gs.plan_action(&c, P1, ShipId(2), PlannedAction::TargetLock(ShipId(0))).unwrap();
    let rec = resolve(&c, &mut gs, vec![7; 30]);
    let mv = rec.moves.iter().find(|m| m.ship == ShipId(2)).unwrap();
    assert_eq!(mv.action_result, ActionResult::Performed, "{:?}", rec.events);
    // The lock went on Kagi: the X-Wing shoots him and spends it.
    let shot = rec.attacks.iter().find(|a| a.attacker == ShipId(2)).expect("X-Wing fired");
    assert_eq!(shot.defender, ShipId(1), "{:?}", rec.events);
    assert!(shot.lock_spent);
}

#[test]
fn fels_wrath_fires_back_at_zero_hull_then_dies() {
    let c = content();
    let mut gs = skirmish(
        &c,
        &[("felswrath", Pose::new(10.0, 3.0, FRAC_PI_2), 2)],
        &[("hortonsalm", Pose::new(10.0, 17.5, -FRAC_PI_2), 4)],
    );
    gs.ships[1].pose = Some((Pose::new(10.0, 16.5, -FRAC_PI_2)).bits());
    gs.ships[0].hull = 1;
    // Horton (PS8) first: two hits through four blank defense dice.
    let rec = resolve(&c, &mut gs, vec![0, 0, 7, 7, 7, 7, 7, 7, 7, 7, 7, 7, 7, 7, 7, 7]);
    assert!(
        rec.attacks.iter().any(|a| a.attacker == ShipId(0)),
        "still fires: {:?}",
        rec.events
    );
    assert!(gs.ships[0].destroyed, "gone with the End phase");
    assert!(rec.events.iter().any(|e| e.contains("Fel's Wrath")), "{:?}", rec.events);
}

#[test]
fn juno_and_tetran_change_speed_to_stay_on_the_board() {
    let c = content();
    // Juno flies south from the edge: straight 3 would leave, straight 2 stays.
    let mut gs = skirmish(
        &c,
        &[("junoeclipse", Pose::new(10.0, 2.0, -FRAC_PI_2), 3)],
        &[("redsquadronveteran", Pose::new(10.0, 17.5, -FRAC_PI_2), 1)],
    );
    gs.ships[0].pose = Some((Pose::new(10.0, 2.5, -FRAC_PI_2)).bits());
    let rec = resolve(&c, &mut gs, vec![7; 20]);
    let mv = rec.moves.iter().find(|m| m.ship == ShipId(0)).unwrap();
    assert_eq!(mv.maneuver.distance, 2, "{:?}", rec.events);
    assert!(!mv.destroyed);
    // Tetran: a Koiogran 5 from y=16 would leave; speed 3 is the nearest that stays.
    let mut gs = skirmish(
        &c,
        &[("tetrancowall", Pose::new(10.0, 3.0, FRAC_PI_2), 2)],
        &[("redsquadronveteran", Pose::new(10.0, 17.5, -FRAC_PI_2), 1)],
    );
    gs.ships[0].pose = Some((Pose::new(10.0, 16.0, FRAC_PI_2)).bits());
    gs.ships[1].pose = Some((Pose::new(3.0, 17.5, -FRAC_PI_2)).bits());
    let k5 = dial_index(&c, gs.ships[0].class, |m| {
        m.steer == Steer::KTurn && m.distance == 5
    });
    gs.plan_maneuver(&c, P0, ShipId(0), k5).unwrap();
    let rec = resolve(&c, &mut gs, vec![7; 20]);
    let mv = rec.moves.iter().find(|m| m.ship == ShipId(0)).unwrap();
    assert_eq!(mv.maneuver.distance, 3, "{:?}", rec.events);
    assert!(!mv.destroyed);
}

#[test]
fn chewbacca_attacks_when_a_friend_is_destroyed() {
    let c = content();
    let mut gs = skirmish(
        &c,
        &[("obsidiansquadronpilot", Pose::new(10.0, 2.5, FRAC_PI_2), 5)],
        &[
            ("bluesquadronnovice", Pose::new(10.0, 17.5, -FRAC_PI_2), 4),
            ("chewbacca_2", Pose::new(6.0, 17.5, -FRAC_PI_2), 3),
        ],
    );
    gs.ships[1].hull = 1;
    gs.ships[1].shields = 0;
    // Chewbacca (PS5) blanks; the TIE (PS3) kills the T-70; Chewbacca fires again.
    let rec = resolve(
        &c,
        &mut gs,
        vec![7, 7, 7, 7, 7, 7, 7, 0, 0, 7, 7, 7, 7, 7, 7, 7, 7, 7, 7, 7, 7, 7, 7, 7],
    );
    assert!(gs.ships[1].destroyed, "{:?}", rec.events);
    let chewie: Vec<&AttackRecord> =
        rec.attacks.iter().filter(|a| a.attacker == ShipId(2)).collect();
    assert_eq!(chewie.len(), 2, "{:?}", rec.events);
}

#[test]
fn alozen_jendon_and_colzet_manage_target_locks() {
    let c = content();
    // Alozen locks the X-Wing at Range 1 when combat starts.
    let mut gs = skirmish(
        &c,
        &[("commanderalozen", Pose::new(10.0, 3.0, FRAC_PI_2), 2)],
        &[("redsquadronveteran", Pose::new(10.0, 17.5, -FRAC_PI_2), 4)],
    );
    gs.ships[1].pose = Some((Pose::new(10.0, 11.0, -FRAC_PI_2)).bits());
    let rec = resolve(&c, &mut gs, vec![7; 24]);
    // Locked at combat start, then spent rerolling his blanks.
    assert!(imperial_shot(&rec).lock_spent, "{:?}", rec.events);

    // Jendon hands his lock to the TIE beside him.
    let mut gs = skirmish(
        &c,
        &[
            ("coloneljendon", Pose::new(10.0, 3.0, FRAC_PI_2), 1),
            ("academypilot", Pose::new(13.0, 2.5, FRAC_PI_2), 2),
        ],
        &[("redsquadronveteran", Pose::new(10.0, 17.5, -FRAC_PI_2), 1)],
    );
    gs.ships[0].lock = Some(ShipId(2));
    let rec = resolve(&c, &mut gs, vec![7; 24]);
    assert_eq!(gs.ships[1].lock, Some(ShipId(2)), "{:?}", rec.events);
    assert_eq!(gs.ships[0].lock, None);

    // Colzet spends his lock at the End phase to flip a facedown card
    // (the X-Wing is staged out of range so no attack spends it first).
    let mut gs =
        duel_at(&c, "lieutenantcolzet", "bluesquadronnovice", Pose::new(2.0, 17.5, -FRAC_PI_2));
    gs.ships[0].lock = Some(ShipId(1));
    gs.ships[1].shields = 0;
    gs.ships[1].hull = 2;
    let rec = resolve(&c, &mut gs, vec![9, 7, 7, 7, 7, 7, 7, 7, 7, 7, 7, 7]);
    assert!(rec.attacks.is_empty(), "{:?}", rec.attacks);
    assert_eq!(gs.ships[0].lock, None, "{:?}", rec.events);
    assert_eq!(gs.ships[1].crits, vec![CritEffect::StunnedPilot], "{:?}", rec.events);
}

#[test]
fn deathfire_drops_a_mine_on_reveal_and_tomax_keeps_crack_shot() {
    let c = content();
    let mines = UpgradeId(182);
    let mut gs = skirmish(
        &c,
        &[("deathfire", Pose::new(10.0, 3.0, FRAC_PI_2), 1)],
        &[("bluesquadronnovice", Pose::new(10.0, 17.5, -FRAC_PI_2), 1)],
    );
    gs.ships[0].upgrades.push(mines);
    gs.plan_bomb(&c, P0, ShipId(0), Some(mines)).unwrap();
    let rec = resolve(&c, &mut gs, vec![7; 20]);
    let mv = rec.moves.iter().find(|m| m.ship == ShipId(0)).unwrap();
    assert_eq!(mv.dropped_before.len(), 1, "{:?}", rec.events);
    assert_eq!(mv.dropped_before[0].kind, BombKind::ProximityMine);

    // Tomax Bren (PS8): Crack Shot cancels the lone evade and stays equipped.
    let crack = UpgradeId(105);
    let mut gs = duel(&c, "tomaxbren", "bluesquadronnovice");
    gs.ships[0].upgrades.push(crack);
    let rec = resolve(&c, &mut gs, vec![0, 0, 0, 7, 7, 7, 7, 7, 7, 7, 7, 7, 7, 7, 7, 7]);
    assert_eq!(imperial_shot(&rec).hits, 2, "{:?}", rec.events);
    assert!(gs.ships[0].upgrades.contains(&crack), "{:?}", rec.events);
}

#[test]
fn autothrusters_turn_a_blank_into_an_evade_at_range_3() {
    let c = content();
    let mut gs = duel(&c, "obsidiansquadronpilot", "redsquadronveteran");
    gs.ships[0].upgrades.push(UpgradeId(75));
    let rec = resolve(&c, &mut gs, vec![0, 0, 0, 7, 7, 7, 7, 7, 7, 7, 7, 7, 7, 7]);
    assert_eq!(rebel_shot(&rec).range, 3);
    assert_eq!(rebel_shot(&rec).hits, 2, "{:?}", rec.events);
}

#[test]
fn targeting_synchronizer_shares_a_friends_lock_for_ordnance() {
    let c = content();
    let torps = UpgradeId(1);
    let mut gs = skirmish(
        &c,
        &[("obsidiansquadronpilot", Pose::new(10.0, 2.5, FRAC_PI_2), 5)],
        &[
            ("redsquadronveteran", Pose::new(10.0, 17.5, -FRAC_PI_2), 4),
            ("bluesquadronnovice", Pose::new(13.0, 17.5, -FRAC_PI_2), 1),
        ],
    );
    gs.ships[1].upgrades.push(torps);
    gs.ships[2].upgrades.push(UpgradeId(25));
    gs.ships[2].lock = Some(ShipId(0));
    let mut rolls = scripted(vec![7; 30]);
    gs.commit_plans_begin(&c, P0, &mut rolls).unwrap();
    gs.commit_plans_begin(&c, P1, &mut rolls).unwrap();
    let Step::NeedTarget(p) = gs.combat_step(&c, &mut rolls).unwrap() else {
        panic!("expected a weapon choice for the X-Wing")
    };
    assert_eq!(p.attacker, ShipId(1));
    assert!(p.options.iter().any(|o| o.weapon == Some(torps)), "{:?}", p.options);
    let rec = gs.declare_target(&c, P1, ShipId(0), Some(torps), &mut rolls).unwrap();
    assert!(!rec.lock_spent && !rec.attacker_focus_spent);
    assert_eq!(gs.ships[2].lock, Some(ShipId(0)), "the friend keeps the lock");
}

#[test]
fn predator_rerolls_one_die_or_two_against_low_skill() {
    let c = content();
    let predator = UpgradeId(101);
    // [Blank, Blank, Hit] → one blank rerolled into a hit.
    let mut gs = talent_duel(&c, predator);
    let rec = resolve(&c, &mut gs, vec![7, 7, 0, 0, 7, 7, 7, 7, 7, 7, 7, 7, 7]);
    assert_eq!(rebel_shot(&rec).hits, 2);
    assert!(rec.events.iter().any(|e| e.contains("Predator")), "{:?}", rec.events);
    // Against an Academy Pilot (PS1): both blanks rerolled.
    let mut gs = duel(&c, "academypilot", "redsquadronveteran");
    gs.ships[1].upgrades.push(predator);
    let rec = resolve(&c, &mut gs, vec![7, 7, 7, 0, 0, 7, 7, 7, 7, 7, 7, 7, 7]);
    assert_eq!(rebel_shot(&rec).hits, 2);
}

#[test]
fn lone_wolf_rerolls_a_blank_only_without_friends_within_range_2() {
    let c = content();
    let lone_wolf = UpgradeId(104);
    let mut gs = talent_duel(&c, lone_wolf);
    let rec = resolve(&c, &mut gs, vec![7, 7, 7, 0, 7, 7, 7, 7, 7, 7, 7, 7, 7]);
    assert_eq!(rebel_shot(&rec).hits, 1);
    assert!(rec.events.iter().any(|e| e.contains("Lone Wolf")), "{:?}", rec.events);

    // A wingman at Range 1 silences it.
    let mut gs = skirmish(
        &c,
        &[("obsidiansquadronpilot", Pose::new(10.0, 2.5, FRAC_PI_2), 5)],
        &[
            ("redsquadronveteran", Pose::new(10.0, 17.5, -FRAC_PI_2), 4),
            ("bluesquadronnovice", Pose::new(12.0, 17.5, -FRAC_PI_2), 4),
        ],
    );
    gs.ships[1].upgrades.push(lone_wolf);
    let rec = resolve(&c, &mut gs, vec![7]);
    assert_eq!(rebel_shot(&rec).hits, 0);
    assert!(!rec.events.iter().any(|e| e.contains("Lone Wolf")), "{:?}", rec.events);
}

#[test]
fn wired_rerolls_focus_results_while_stressed() {
    let c = content();
    let mut gs = talent_duel(&c, UpgradeId(100));
    gs.ships[1].stress = 1;
    // [Eye, Eye, Hit] with no focus token: both eyes rerolled to hits.
    let rec = resolve(&c, &mut gs, vec![4, 4, 0, 0, 0, 7, 7, 7, 7, 7, 7, 7, 7]);
    assert_eq!(rebel_shot(&rec).hits, 3);
    assert!(rec.events.iter().any(|e| e.contains("Wired")), "{:?}", rec.events);
}

#[test]
fn expertise_converts_focus_results_without_spending_the_token() {
    let c = content();
    let mut gs = talent_duel(&c, UpgradeId(123));
    gs.plan_action(&c, P1, ShipId(1), PlannedAction::Focus).unwrap();
    let rec = resolve(&c, &mut gs, vec![4, 4, 7, 7, 7, 7, 7, 7, 7, 7, 7, 7]);
    let shot = rebel_shot(&rec);
    assert_eq!(shot.hits, 2);
    assert!(!shot.attacker_focus_spent);
    assert!(rec.events.iter().any(|e| e.contains("Expertise")), "{:?}", rec.events);
}

#[test]
fn calculation_buys_a_crit_when_exactly_one_focus_result_shows() {
    let c = content();
    let calc = UpgradeId(116);
    let mut gs = talent_duel(&c, calc);
    gs.plan_action(&c, P1, ShipId(1), PlannedAction::Focus).unwrap();
    let rec = resolve(&c, &mut gs, vec![4, 0, 7, 7, 7, 7, 7, 7, 7, 7, 7, 7]);
    let shot = rebel_shot(&rec);
    assert_eq!((shot.hits, shot.crits), (1, 1));
    assert!(shot.attacker_focus_spent);
    assert!(rec.events.iter().any(|e| e.contains("Calculation")), "{:?}", rec.events);
    // Two focus results: the plain spend (two hits) is better.
    let mut gs = talent_duel(&c, calc);
    gs.plan_action(&c, P1, ShipId(1), PlannedAction::Focus).unwrap();
    let rec = resolve(&c, &mut gs, vec![4, 4, 7, 7, 7, 7, 7, 7, 7, 7, 7, 7]);
    let shot = rebel_shot(&rec);
    assert_eq!((shot.hits, shot.crits), (2, 0));
    assert!(!rec.events.iter().any(|e| e.contains("Calculation")), "{:?}", rec.events);
}

#[test]
fn opportunist_takes_a_stress_for_an_extra_die_against_a_tokenless_defender() {
    let c = content();
    let mut gs = talent_duel(&c, UpgradeId(126));
    let rec = resolve(&c, &mut gs, vec![7]);
    assert_eq!(rebel_shot(&rec).attack_faces.len(), 4);
    assert_eq!(gs.ships[1].stress, 1);
    assert!(rec.events.iter().any(|e| e.contains("Opportunist")), "{:?}", rec.events);
    // A stressed attacker cannot use it.
    let mut gs = talent_duel(&c, UpgradeId(126));
    gs.ships[1].stress = 1;
    let rec = resolve(&c, &mut gs, vec![7]);
    assert_eq!(rebel_shot(&rec).attack_faces.len(), 3);
}

#[test]
fn outmaneuver_strips_an_agility_from_a_defender_that_cannot_see_the_attacker() {
    let c = content();
    let outmaneuver = UpgradeId(127);
    // Nose to nose: the TIE has the X-Wing in arc, full 4 dice at Range 3.
    let mut gs = talent_duel(&c, outmaneuver);
    let rec = resolve(&c, &mut gs, vec![7]);
    assert_eq!(rebel_shot(&rec).defense_faces.len(), 4);
    // From behind (Range 2): agility 3 → 2, no range bonus.
    let mut gs = duel_at(
        &c,
        "obsidiansquadronpilot",
        "redsquadronveteran",
        Pose::new(10.0, -1.0, FRAC_PI_2),
    );
    gs.ships[1].upgrades.push(outmaneuver);
    let rec = resolve(&c, &mut gs, vec![7]);
    let shot = rebel_shot(&rec);
    assert_eq!((shot.range, shot.defense_faces.len()), (2, 2));
    assert!(rec.events.iter().any(|e| e.contains("Outmaneuver")), "{:?}", rec.events);
}

#[test]
fn crack_shot_cancels_one_evade_and_is_discarded() {
    let c = content();
    let crack_shot = UpgradeId(105);
    let mut gs = talent_duel(&c, crack_shot);
    // [Hit, Hit, Blank] against [Evade, Blank, Blank, Blank].
    let rec = resolve(&c, &mut gs, vec![0, 0, 7, 0, 7, 7, 7, 7, 7, 7, 7, 7]);
    assert_eq!(rebel_shot(&rec).hits, 2);
    assert!(!gs.ships[1].upgrades.contains(&crack_shot));
    assert!(rec.events.iter().any(|e| e.contains("Crack Shot")), "{:?}", rec.events);
}

#[test]
fn juke_turns_an_evade_into_a_focus_while_holding_an_evade_token() {
    let c = content();
    let mut gs = talent_duel(&c, UpgradeId(106));
    gs.ships[1].evade = 1;
    let rec = resolve(&c, &mut gs, vec![0, 0, 7, 0, 7, 7, 7, 7, 7, 7, 7, 7]);
    assert_eq!(rebel_shot(&rec).hits, 2);
    assert!(rec.events.iter().any(|e| e.contains("Juke")), "{:?}", rec.events);
}

#[test]
fn sensor_cluster_spends_focus_to_turn_a_blank_into_an_evade() {
    let c = content();
    // Offset from the TIE's nose: dead ahead would be its bullseye
    // lane, where the defender may not spend tokens at all.
    let mut gs = duel_at(
        &c,
        "obsidiansquadronpilot",
        "redsquadronveteran",
        Pose::new(11.5, 17.5, -FRAC_PI_2),
    );
    gs.ships[1].upgrades.push(UpgradeId(24));
    gs.plan_action(&c, P1, ShipId(1), PlannedAction::Focus).unwrap();
    // X-Wing attack blanks, TIE defense blanks, TIE attack [Hit, Blank],
    // X-Wing defense all blank → the focus buys one evade.
    let rec = resolve(&c, &mut gs, vec![7, 7, 7, 7, 7, 7, 7, 0, 7, 7, 7, 7, 7]);
    let shot = imperial_shot(&rec);
    assert_eq!(shot.hits, 0);
    assert!(shot.defender_focus_spent);
    assert!(rec.events.iter().any(|e| e.contains("Sensor Cluster")), "{:?}", rec.events);
}

// ---------------- Token, stress and movement abilities ----------------

#[test]
fn night_beast_gets_a_free_focus_after_a_green_maneuver() {
    let c = content();
    // Straight 3 is green on the TIE dial; the X-Wing starts closer so
    // the two still end at Range 3.
    let mut gs =
        duel_at(&c, "nightbeast", "bluesquadronnovice", Pose::new(10.0, 16.0, -FRAC_PI_2));
    let s3 =
        dial_index(&c, TIE, |m| m.steer == Steer::Straight && m.distance == 3);
    gs.plan_maneuver(&c, P0, ShipId(0), s3).unwrap();
    // Night Beast (PS5) fires first: [Eye, Eye] spent with the free focus.
    let rec = resolve(&c, &mut gs, vec![4, 4, 7, 7, 7, 7, 7, 7, 7, 7, 7, 7]);
    let shot = imperial_shot(&rec);
    assert!(shot.attacker_focus_spent);
    assert_eq!(shot.hits, 2);
    assert!(rec.events.iter().any(|e| e.contains("free focus")), "{:?}", rec.events);
}

#[test]
fn red_ace_gains_one_evade_per_round_on_the_first_shield_lost() {
    let c = content();
    let mut gs = skirmish(
        &c,
        &[
            ("academypilot", Pose::new(10.0, 2.5, FRAC_PI_2), 5),
            ("academypilot", Pose::new(12.0, 2.5, FRAC_PI_2), 5),
        ],
        &[("redace", Pose::new(10.0, 17.5, -FRAC_PI_2), 4)],
    );
    // Red Ace (PS6) fires blanks; TIE 0 lands two hits (two shields
    // gone, one evade token); TIE 1's single hit meets that evade.
    let rolls = vec![7, 7, 7, 7, 7, 7, 7, 0, 0, 7, 7, 7, 0, 7, 7, 7, 7, 7, 7, 7, 7, 7];
    let rec = resolve(&c, &mut gs, rolls);
    let second = rec.attacks.iter().find(|a| a.attacker == ShipId(1)).unwrap();
    assert!(second.evade_spent);
    assert_eq!(second.hits, 0);
    assert_eq!(gs.ships[2].shields, 1);
    assert_eq!(rec.events.iter().filter(|e| e.contains("first shield lost")).count(), 1);
}

#[test]
fn epsilon_leader_and_wingman_clear_stress_when_combat_starts() {
    let c = content();
    let wingman = UpgradeId(134);
    let mut gs = skirmish(
        &c,
        &[
            ("epsilonleader", Pose::new(10.0, 2.5, FRAC_PI_2), 5),
            ("zetasquadronpilot", Pose::new(11.5, 2.5, FRAC_PI_2), 5),
        ],
        &[
            ("redsquadronveteran", Pose::new(10.0, 17.5, -FRAC_PI_2), 4),
            ("bluesquadronnovice", Pose::new(11.5, 17.5, -FRAC_PI_2), 4),
        ],
    );
    gs.ships[2].upgrades.push(wingman);
    gs.ships[1].stress = 1;
    gs.ships[3].stress = 1;
    let rec = resolve(&c, &mut gs, vec![7]);
    assert_eq!(gs.ships[1].stress, 0);
    assert_eq!(gs.ships[3].stress, 0);
    assert!(rec.events.iter().any(|e| e.contains("Wingman")), "{:?}", rec.events);
    assert!(
        rec.events.iter().any(|e| e.contains("stress removed from Obsidian-2")),
        "{:?}",
        rec.events
    );
}

#[test]
fn stress_riders_nien_nunb_soontir_fel_and_cool_hand() {
    let c = content();
    // Nien Nunb facing a TIE at Range 1: the stress is discarded.
    let mut gs = duel(&c, "academypilot", "niennunb");
    gs.ships[0].pose = Some((Pose::new(10.0, 7.5, FRAC_PI_2)).bits());
    gs.ships[1].pose = Some((Pose::new(10.0, 9.5, -FRAC_PI_2)).bits());
    let mut ev = Vec::new();
    gain_stress(&c, &mut gs, 1, &mut ev);
    assert_eq!(gs.ships[1].stress, 0);
    assert!(ev.iter().any(|e| e.contains("stress discarded")), "{ev:?}");
    // Facing away: the TIE is behind, the stress stays.
    gs.ships[1].pose = Some((Pose::new(10.0, 9.5, FRAC_PI_2)).bits());
    gain_stress(&c, &mut gs, 1, &mut ev);
    assert_eq!(gs.ships[1].stress, 1);

    // Soontir Fel takes a focus token with every stress.
    let mut gs = duel(&c, "soontirfel", "bluesquadronnovice");
    gain_stress(&c, &mut gs, 0, &mut ev);
    assert_eq!((gs.ships[0].stress, gs.ships[0].focus), (1, 1));

    // Cool Hand: discarded for a focus token.
    let mut gs = talent_duel(&c, UpgradeId(117));
    gain_stress(&c, &mut gs, 1, &mut ev);
    assert_eq!((gs.ships[1].stress, gs.ships[1].focus), (1, 1));
    assert!(!gs.ships[1].upgrades.contains(&UpgradeId(117)));
}

#[test]
fn a_wing_aces_tycho_acts_while_stressed_and_gemmer_dodges_up_close() {
    let c = content();
    let mut gs = skirmish(
        &c,
        &[("academypilot", Pose::new(10.0, 2.5, FRAC_PI_2), 5)],
        &[("tychocelchu", Pose::new(10.0, 17.5, -FRAC_PI_2), 4)],
    );
    gs.ships[1].stress = 1;
    gs.plan_action(&c, P1, ShipId(1), PlannedAction::Focus).unwrap();
    let rec = resolve(&c, &mut gs, vec![7]);
    let mv = rec.moves.iter().find(|m| m.ship == ShipId(1)).unwrap();
    assert_eq!(mv.action_result, ActionResult::Performed);

    let mut gs = skirmish(
        &c,
        &[("academypilot", Pose::new(10.0, 2.5, FRAC_PI_2), 5)],
        &[("gemmersojan", Pose::new(10.0, 17.5, -FRAC_PI_2), 4)],
    );
    assert_eq!(gs.agility(&c, &gs.sight(), 1), 3);
    gs.ships[0].pose = Some((Pose::new(10.0, 7.5, FRAC_PI_2)).bits());
    gs.ships[1].pose = Some((Pose::new(10.0, 9.5, -FRAC_PI_2)).bits());
    assert_eq!(gs.agility(&c, &gs.sight(), 1), 4);
}

#[test]
fn epsilon_ace_flies_at_skill_12_until_damaged() {
    let c = content();
    let mut gs = duel(&c, "epsilonace", "bluesquadronnovice");
    assert_eq!(gs.effective_skill(&c, &gs.ships[0]), 12);
    gs.ships[0].hull -= 1;
    assert_eq!(gs.effective_skill(&c, &gs.ships[0]), 4);
}

#[test]
fn chaser_gains_a_focus_when_a_friend_at_range_1_spends_one() {
    let c = content();
    let mut gs = skirmish(
        &c,
        &[
            ("obsidiansquadronpilot", Pose::new(10.0, 2.5, FRAC_PI_2), 5),
            ("chaser", Pose::new(11.5, 2.5, FRAC_PI_2), 5),
        ],
        &[("bluesquadronnovice", Pose::new(10.0, 17.5, -FRAC_PI_2), 4)],
    );
    gs.plan_action(&c, P0, ShipId(0), PlannedAction::Focus).unwrap();
    // Obsidian [Eye, Eye] spends its focus → Chaser gets one and spends
    // it on its own [Eye, Blank].
    let rec = resolve(&c, &mut gs, vec![4, 4, 7, 7, 7, 4, 7, 7, 7, 7, 7, 7, 7, 7, 7]);
    let chaser = rec.attacks.iter().find(|a| a.attacker == ShipId(1)).unwrap();
    assert!(chaser.attacker_focus_spent);
    assert_eq!(chaser.hits, 1);
    assert!(rec.events.iter().any(|e| e.contains("friend spent one")), "{:?}", rec.events);
}

#[test]
fn cards_and_pilots_recolour_maneuvers() {
    let c = content();
    // R2 Astromech greens a white speed-2 straight (hand-built: every
    // dial in the data already prints those green), not a speed 3.
    let mut gs = duel(&c, "academypilot", "bluesquadronnovice");
    let white = |steer, distance| Maneuver { steer, distance, difficulty: Difficulty::Normal };
    assert_eq!(gs.maneuver_difficulty(&c, 1, &white(Steer::Straight, 2)).0, Difficulty::Normal);
    gs.ships[1].upgrades.push(UpgradeId(41));
    assert_eq!(gs.maneuver_difficulty(&c, 1, &white(Steer::Straight, 2)).0, Difficulty::Easy);
    assert_eq!(gs.maneuver_difficulty(&c, 1, &white(Steer::Straight, 3)).0, Difficulty::Normal);

    // Twin Ion Engine Mk. II greens the TIE's white bank 3.
    let bank = white(Steer::BankLeft, 3);
    assert_eq!(gs.maneuver_difficulty(&c, 0, &bank).0, Difficulty::Normal);
    gs.ships[0].upgrades.push(UpgradeId(78));
    assert_eq!(gs.maneuver_difficulty(&c, 0, &bank).0, Difficulty::Easy);

    // Ello Asty: Tallon Rolls are white while unstressed only.
    let mut gs = duel(&c, "academypilot", "elloasty");
    let tallon = c.dials.set(c.ships.class(XWING).unwrap().maneuver_set).unwrap().maneuvers
        [dial_index(&c, XWING, |m| m.steer == Steer::TallonLeft) as usize];
    assert_eq!(tallon.difficulty, Difficulty::Hard);
    assert_eq!(gs.maneuver_difficulty(&c, 1, &tallon).0, Difficulty::Normal);
    gs.ships[1].stress = 1;
    assert_eq!(gs.maneuver_difficulty(&c, 1, &tallon).0, Difficulty::Hard);

    // Adrenaline Rush: a TIE's red K-turn flown white, card discarded.
    let mut gs = duel(&c, "academypilot", "bluesquadronnovice");
    gs.ships[0].upgrades.push(UpgradeId(114));
    let kturn = dial_index(&c, TIE, |m| m.steer == Steer::KTurn && m.distance == 3);
    gs.plan_maneuver(&c, P0, ShipId(0), kturn).unwrap();
    let rec = resolve(&c, &mut gs, vec![7]);
    assert_eq!(gs.ships[0].stress, 0);
    assert!(!gs.ships[0].upgrades.contains(&UpgradeId(114)));
    assert!(rec.events.iter().any(|e| e.contains("Adrenaline Rush")), "{:?}", rec.events);
}

#[test]
fn chewbacca_and_determination_neutralise_faceup_cards() {
    let c = content();
    let mut ev = Vec::new();
    let mut gs = duel(&c, "academypilot", "chewbacca");
    let mut rolls = scripted(vec![7]);
    apply_crit_effect(&c, &mut gs, 1, CritEffect::DirectHit, &mut rolls, &mut ev);
    assert!(gs.ships[1].crits.is_empty());
    assert!(ev.iter().any(|e| e.contains("flipped facedown")), "{ev:?}");

    let mut gs = talent_duel(&c, UpgradeId(109));
    apply_crit_effect(&c, &mut gs, 1, CritEffect::StunnedPilot, &mut rolls, &mut ev);
    assert!(gs.ships[1].crits.is_empty(), "Pilot card discarded");
    apply_crit_effect(&c, &mut gs, 1, CritEffect::ConsoleFire, &mut rolls, &mut ev);
    assert_eq!(gs.ships[1].crits, vec![CritEffect::ConsoleFire], "Ship cards still attach");
}

// ---------------- Defender rerolls and damage-card riders ----------------

#[test]
fn elusiveness_takes_a_stress_to_reroll_the_attackers_best_die() {
    let c = content();
    let mut gs = talent_duel(&c, UpgradeId(113));
    // X-Wing blanks, TIE blanks, TIE [Hit, Crit] → the crit is rerolled blank.
    let rec = resolve(&c, &mut gs, vec![7, 7, 7, 7, 7, 7, 7, 0, 3, 7, 7, 7, 7, 7, 7]);
    let shot = imperial_shot(&rec);
    assert_eq!((shot.hits, shot.crits), (1, 0));
    assert_eq!(gs.ships[1].stress, 1);
    assert!(rec.events.iter().any(|e| e.contains("Elusiveness")), "{:?}", rec.events);
}

#[test]
fn r7_astromech_spends_its_lock_to_reroll_every_hit() {
    let c = content();
    // Mauler Mithel (PS7) fires first into an X-Wing that has him locked.
    let mut gs = duel(&c, "maulermithel", "redsquadronveteran");
    gs.ships[1].upgrades.push(UpgradeId(53));
    gs.ships[1].lock = Some(ShipId(0));
    let rec = resolve(&c, &mut gs, vec![0, 3, 7, 7, 7, 7, 7, 7, 7, 7, 7, 7, 7, 7, 7]);
    let shot = imperial_shot(&rec);
    assert_eq!((shot.hits, shot.crits), (0, 0));
    assert_eq!(gs.ships[1].lock, None);
    assert!(rec.events.iter().any(|e| e.contains("R7 Astromech")), "{:?}", rec.events);
}

#[test]
fn draw_their_fire_takes_a_crit_meant_for_a_friend() {
    let c = content();
    let mut gs = skirmish(
        &c,
        &[("maulermithel", Pose::new(10.0, 2.5, FRAC_PI_2), 5)],
        &[
            ("redsquadronveteran", Pose::new(10.0, 17.5, -FRAC_PI_2), 4),
            ("bluesquadronnovice", Pose::new(11.5, 17.5, -FRAC_PI_2), 4),
        ],
    );
    gs.ships[1].upgrades.push(UpgradeId(121));
    gs.ships[2].shields = 0;
    gs.ships[0].lock = Some(ShipId(2)); // fires at the novice
    // [Crit, Crit] vs blanks; the veteran absorbs one on its shields,
    // the other reaches the novice's hull (draw(9) = Stunned Pilot).
    let rec = resolve(&c, &mut gs, vec![3, 3, 7, 7, 7, 9, 7, 7, 7, 7, 7, 7, 7, 7, 7, 7, 7, 7]);
    assert_eq!(gs.ships[1].shields, 2);
    assert_eq!(gs.ships[2].hull, 2);
    assert!(rec.events.iter().any(|e| e.contains("Draw Their Fire")), "{:?}", rec.events);
}

#[test]
fn crew_and_astromech_riders_neutralise_faceup_cards() {
    let c = content();
    let mut ev = Vec::new();
    let mut rolls = scripted(vec![7]);
    // Chewbacca (crew): card discarded, hull point back, one shield back.
    let mut gs = talent_duel(&c, UpgradeId(150));
    gs.ships[1].hull = 2;
    gs.ships[1].shields = 1;
    apply_crit_effect(&c, &mut gs, 1, CritEffect::DirectHit, &mut rolls, &mut ev);
    assert_eq!((gs.ships[1].hull, gs.ships[1].shields), (3, 2));
    assert!(gs.ships[1].crits.is_empty());
    assert!(!gs.ships[1].upgrades.contains(&UpgradeId(150)));

    // Moff Jerjerrod: discarded to flip the card facedown.
    let mut gs = duel(&c, "academypilot", "bluesquadronnovice");
    gs.ships[0].upgrades.push(UpgradeId(173));
    apply_crit_effect(&c, &mut gs, 0, CritEffect::DamagedEngine, &mut rolls, &mut ev);
    assert!(gs.ships[0].crits.is_empty());
    assert!(!gs.ships[0].upgrades.contains(&UpgradeId(173)));

    // Integrated Astromech: the R2 Astromech goes instead of the card.
    let mut gs = talent_duel(&c, UpgradeId(76));
    gs.ships[1].upgrades.push(UpgradeId(41));
    gs.ships[1].hull = 2;
    apply_crit_effect(&c, &mut gs, 1, CritEffect::DirectHit, &mut rolls, &mut ev);
    assert_eq!(gs.ships[1].hull, 3);
    assert!(gs.ships[1].crits.is_empty());
    assert!(!gs.ships[1].upgrades.contains(&UpgradeId(41)));
    assert!(gs.ships[1].upgrades.contains(&UpgradeId(76)));
}

#[test]
fn end_phase_repairs_r5p9_r5_and_r2d2_crew() {
    let c = content();
    // R5-P9: the unspent focus buys a shield at the end of Combat.
    let mut gs = talent_duel(&c, UpgradeId(51));
    gs.plan_action(&c, P1, ShipId(1), PlannedAction::Focus).unwrap();
    gs.ships[1].shields = 2;
    let rec = resolve(&c, &mut gs, vec![7]);
    assert_eq!(gs.ships[1].shields, 3);
    assert!(rec.events.iter().any(|e| e.contains("R5-P9")), "{:?}", rec.events);

    // R5 Astromech: a Ship card is repaired in the End phase, a Pilot card stays.
    let mut gs = talent_duel(&c, UpgradeId(48));
    gs.ships[1].crits.push(CritEffect::StunnedPilot);
    gs.ships[1].crits.push(CritEffect::DamagedEngine);
    let rec = resolve(&c, &mut gs, vec![7]);
    assert_eq!(gs.ships[1].crits, vec![CritEffect::StunnedPilot]);
    assert!(rec.events.iter().any(|e| e.contains("R5 Astromech")), "{:?}", rec.events);

    // R2-D2 (crew): shield back at the end of the End phase; the hit
    // rolled afterwards turns a facedown card faceup (Stunned Pilot).
    let mut gs = talent_duel(&c, UpgradeId(155));
    gs.ships[1].shields = 0;
    gs.ships[1].hull = 2;
    let rec = resolve(&c, &mut gs, vec![7, 7, 7, 7, 7, 7, 7, 7, 7, 7, 7, 7, 0, 9]);
    assert_eq!(gs.ships[1].shields, 1);
    assert_eq!(gs.ships[1].hull, 2);
    assert!(gs.ships[1].crits.contains(&CritEffect::StunnedPilot));
    assert!(rec.events.iter().any(|e| e.contains("R2-D2")), "{:?}", rec.events);
}

#[test]
fn r2d2_astromech_recovers_a_shield_after_a_green_maneuver() {
    let c = content();
    let mut gs = talent_duel(&c, UpgradeId(42));
    gs.ships[1].shields = 1;
    let green = dial_index(&c, XWING, |m| {
        m.steer == Steer::Straight && m.difficulty == Difficulty::Easy
    });
    gs.plan_maneuver(&c, P1, ShipId(1), green).unwrap();
    let rec = resolve(&c, &mut gs, vec![7]);
    assert_eq!(gs.ships[1].shields, 2);
    assert!(rec.events.iter().any(|e| e.contains("R2-D2")), "{:?}", rec.events);
}

// ---------------- Second actions, templates, card actions ----------------

#[test]
fn push_the_limit_grants_a_second_bar_action_then_stress() {
    let c = content();
    let ptl = UpgradeId(102);
    let mut gs = talent_duel(&c, ptl);
    gs.plan_action(&c, P1, ShipId(1), PlannedAction::Focus).unwrap();
    // Only bar actions, and not on a ship without the card.
    assert_eq!(
        gs.plan_second_action(&c, P1, ShipId(1), Some(PlannedAction::Evade)),
        Err(Rejection::SecondActionNotAllowed)
    );
    assert_eq!(
        gs.plan_second_action(&c, P0, ShipId(0), Some(PlannedAction::Focus)),
        Err(Rejection::SecondActionNotAllowed)
    );
    gs.plan_second_action(&c, P1, ShipId(1), Some(PlannedAction::Boost(BoostDir::Straight)))
        .unwrap();
    let rec = resolve(&c, &mut gs, vec![7]);
    let mv = rec.moves.iter().find(|m| m.ship == ShipId(1)).unwrap();
    assert_eq!(mv.action_result, ActionResult::Performed);
    assert_eq!(
        mv.second,
        Some((PlannedAction::Boost(BoostDir::Straight), ActionResult::Performed))
    );
    assert_eq!(gs.ships[1].stress, 1);
    // Boosted one unit further south than the plain straight 4.
    assert!((gs.pose(1).unwrap().anchor.y - 12.5).abs() < 1e-9);
    assert!(rec.events.iter().any(|e| e.contains("Push the Limit")), "{:?}", rec.events);
}

#[test]
fn darth_vader_takes_two_actions_without_stress() {
    let c = content();
    let mut gs = duel(&c, "darthvader", "bluesquadronnovice");
    gs.plan_action(&c, P0, ShipId(0), PlannedAction::Focus).unwrap();
    gs.plan_second_action(&c, P0, ShipId(0), Some(PlannedAction::Evade)).unwrap();
    // Vader (PS9) fires first: [Eye, Eye] → the focus is spent.
    let rec = resolve(&c, &mut gs, vec![4, 4, 7, 7, 7, 7, 7, 7, 7, 7, 7, 7]);
    let mv = rec.moves.iter().find(|m| m.ship == ShipId(0)).unwrap();
    assert_eq!(mv.second, Some((PlannedAction::Evade, ActionResult::Performed)));
    assert_eq!(gs.ships[0].stress, 0);
    assert!(imperial_shot(&rec).attacker_focus_spent);
}

#[test]
fn snap_wexley_boosts_for_free_after_a_speed_2_to_4_maneuver() {
    let c = content();
    let mut gs = duel(&c, "academypilot", "snapwexley");
    gs.plan_action(&c, P1, ShipId(1), PlannedAction::Focus).unwrap();
    gs.plan_second_action(&c, P1, ShipId(1), Some(PlannedAction::Boost(BoostDir::Straight)))
        .unwrap();
    let rec = resolve(&c, &mut gs, vec![7]);
    let mv = rec.moves.iter().find(|m| m.ship == ShipId(1)).unwrap();
    assert_eq!(
        mv.second,
        Some((PlannedAction::Boost(BoostDir::Straight), ActionResult::Performed))
    );
    assert_eq!(mv.action_result, ActionResult::Performed, "the focus action still happens");
    assert!((gs.pose(1).unwrap().anchor.y - 12.5).abs() < 1e-9);
    assert_eq!(gs.ships[1].stress, 0);
}

#[test]
fn blue_ace_turn_boosts_and_zeta_ace_far_rolls() {
    let c = content();
    // Turn-template boosts are Blue Ace only.
    let mut gs = duel(&c, "academypilot", "bluesquadronnovice");
    assert_eq!(
        gs.plan_action(&c, P1, ShipId(1), PlannedAction::Boost(BoostDir::TurnLeft)),
        Err(Rejection::TemplateNotAllowed)
    );
    let mut gs = duel(&c, "academypilot", "blueace");
    gs.plan_action(&c, P1, ShipId(1), PlannedAction::Boost(BoostDir::TurnLeft)).unwrap();
    let rec = resolve(&c, &mut gs, vec![7]);
    let mv = rec.moves.iter().find(|m| m.ship == ShipId(1)).unwrap();
    assert_eq!(mv.action_result, ActionResult::Performed);
    // Heading south, a left turn ends facing east.
    assert!((gs.pose(1).unwrap().heading.rem_euclid(std::f64::consts::TAU)).abs() < 1e-6);

    // Straight-2 barrel rolls are Zeta Ace only: 2 + base width sideways.
    let mut gs = duel(&c, "zetaace", "bluesquadronnovice");
    gs.plan_action(&c, P0, ShipId(0), PlannedAction::BarrelRollFar(Side::Left)).unwrap();
    let rec = resolve(&c, &mut gs, vec![7]);
    let mv = rec.moves.iter().find(|m| m.ship == ShipId(0)).unwrap();
    assert_eq!(mv.action_result, ActionResult::Performed);
    assert!((gs.pose(0).unwrap().anchor.x - 7.0).abs() < 1e-9, "{:?}", gs.ships[0].pose);
    let mut gs = duel(&c, "academypilot", "bluesquadronnovice");
    assert_eq!(
        gs.plan_action(&c, P0, ShipId(0), PlannedAction::BarrelRollFar(Side::Left)),
        Err(Rejection::TemplateNotAllowed)
    );
}

#[test]
fn bb8_rolls_before_a_green_maneuver_and_jake_farrell_after_a_focus() {
    let c = content();
    let mut gs = talent_duel(&c, UpgradeId(40));
    let green = dial_index(&c, XWING, |m| {
        m.steer == Steer::Straight && m.difficulty == Difficulty::Easy
    });
    gs.plan_maneuver(&c, P1, ShipId(1), green).unwrap();
    gs.plan_second_action(&c, P1, ShipId(1), Some(PlannedAction::BarrelRoll(Side::Left)))
        .unwrap();
    let rec = resolve(&c, &mut gs, vec![7]);
    let mv = rec.moves.iter().find(|m| m.ship == ShipId(1)).unwrap();
    assert_eq!(mv.pre, Some((PlannedAction::BarrelRoll(Side::Left), ActionResult::Performed)));
    // Heading south, "left" is +x: two units over, and the flown path
    // starts from the rolled position.
    assert!((mv.path[0].anchor.x - 12.0).abs() < 1e-9, "{:?}", mv.path[0]);

    let mut gs = skirmish(
        &c,
        &[("academypilot", Pose::new(10.0, 2.5, FRAC_PI_2), 5)],
        &[("jakefarrell", Pose::new(10.0, 17.5, -FRAC_PI_2), 4)],
    );
    gs.plan_action(&c, P1, ShipId(1), PlannedAction::Focus).unwrap();
    gs.plan_second_action(&c, P1, ShipId(1), Some(PlannedAction::BarrelRoll(Side::Right)))
        .unwrap();
    let rec = resolve(&c, &mut gs, vec![7]);
    let mv = rec.moves.iter().find(|m| m.ship == ShipId(1)).unwrap();
    assert_eq!(
        mv.second,
        Some((PlannedAction::BarrelRoll(Side::Right), ActionResult::Performed))
    );
    // Not after an evade action.
    let mut gs = skirmish(
        &c,
        &[("academypilot", Pose::new(10.0, 2.5, FRAC_PI_2), 5)],
        &[("jakefarrell", Pose::new(10.0, 17.5, -FRAC_PI_2), 4)],
    );
    gs.plan_action(&c, P1, ShipId(1), PlannedAction::Evade).unwrap();
    gs.plan_second_action(&c, P1, ShipId(1), Some(PlannedAction::BarrelRoll(Side::Right)))
        .unwrap();
    let rec = resolve(&c, &mut gs, vec![7]);
    let mv = rec.moves.iter().find(|m| m.ship == ShipId(1)).unwrap();
    assert_eq!(mv.second, None);
}

#[test]
fn card_actions_marksmanship_rage_expose_and_r2f2_last_the_round() {
    let c = content();
    // Marksmanship: [Eye, Eye, Blank] → one crit, one hit, no token.
    let mut gs = talent_duel(&c, UpgradeId(108));
    gs.plan_action(&c, P1, ShipId(1), PlannedAction::CardAction(UpgradeId(108))).unwrap();
    let rec = resolve(&c, &mut gs, vec![4, 4, 7, 7, 7, 7, 7, 7, 7, 7, 7, 7]);
    let shot = rebel_shot(&rec);
    assert_eq!((shot.hits, shot.crits), (1, 1));
    assert!(!shot.attacker_focus_spent);
    assert!(gs.ships[1].card_actions.is_empty(), "cleared in the End phase");

    // Rage: focus + 2 stress, then up to 3 rerolls: blanks become hits.
    let mut gs = talent_duel(&c, UpgradeId(128));
    gs.plan_action(&c, P1, ShipId(1), PlannedAction::CardAction(UpgradeId(128))).unwrap();
    let rec = resolve(&c, &mut gs, vec![7, 7, 7, 0, 0, 0, 7, 7, 7, 7, 7, 7, 7, 7, 7]);
    assert_eq!(rebel_shot(&rec).hits, 3);
    assert_eq!(gs.ships[1].stress, 2);

    // Expose: 4 attack dice at Range 3, and only 2 defense dice.
    let mut gs = talent_duel(&c, UpgradeId(112));
    gs.plan_action(&c, P1, ShipId(1), PlannedAction::CardAction(UpgradeId(112))).unwrap();
    let rec = resolve(&c, &mut gs, vec![7]);
    assert_eq!(rebel_shot(&rec).attack_faces.len(), 4);
    assert_eq!(imperial_shot(&rec).defense_faces.len(), 2);

    // R2-F2: agility 3 → 4 defense dice at Range 3.
    let mut gs = talent_duel(&c, UpgradeId(44));
    gs.plan_action(&c, P1, ShipId(1), PlannedAction::CardAction(UpgradeId(44))).unwrap();
    let rec = resolve(&c, &mut gs, vec![7]);
    assert_eq!(imperial_shot(&rec).defense_faces.len(), 4);
    // A card the ship does not carry is refused.
    assert_eq!(
        gs.plan_action(&c, P1, ShipId(1), PlannedAction::CardAction(UpgradeId(108))),
        Err(Rejection::NoSuchUpgrade)
    );
}

// ---------------- Obstacles ----------------

fn rock(id: u32, kind: ObstacleKind, x: f64, y: f64) -> Obstacle {
    Obstacle { id, kind, center: Vec2::new(x, y).bits(), heading: 0.0f64.to_bits(), shape: 2 }
}

#[test]
fn crossing_an_asteroid_costs_the_action_and_rolls_for_damage() {
    let c = content();
    let mut gs = duel(&c, "academypilot", "bluesquadronnovice");
    gs.obstacles.push(rock(0, ObstacleKind::Asteroid, 10.0, 5.0));
    gs.plan_action(&c, P0, ShipId(0), PlannedAction::Focus).unwrap();
    // The X-Wing (PS2) moves first without dice; the TIE's obstacle
    // die is the first roll: a hit.
    let rec = resolve(&c, &mut gs, vec![0, 7, 7, 7, 7, 7, 7, 7, 7, 7, 7, 7]);
    let mv = rec.moves.iter().find(|m| m.ship == ShipId(0)).unwrap();
    assert_eq!(mv.obstacles_hit, vec![0]);
    assert_eq!(mv.action_result, ActionResult::SkippedObstacle);
    assert_eq!(gs.ships[0].hull, 2);
    assert!(rec.attacks.iter().any(|a| a.attacker == ShipId(0)), "flew past: may still attack");
}

#[test]
fn ending_on_an_asteroid_forbids_attacking_this_round_only() {
    let c = content();
    let mut gs = duel(&c, "academypilot", "bluesquadronnovice");
    gs.obstacles.push(rock(0, ObstacleKind::Asteroid, 10.0, 7.0));
    let rec = resolve(&c, &mut gs, vec![7]);
    assert!(rec.attacks.iter().all(|a| a.attacker != ShipId(0)), "{:?}", rec.attacks);
    assert!(rec.events.iter().any(|e| e.contains("stuck on the asteroid")), "{:?}", rec.events);
    assert!(!gs.ships[0].on_asteroid, "cleared in the End phase");
}

#[test]
fn debris_stresses_and_only_a_crit_hurts() {
    let c = content();
    let mut gs = duel(&c, "academypilot", "bluesquadronnovice");
    gs.obstacles.push(rock(0, ObstacleKind::Debris, 10.0, 5.0));
    gs.plan_action(&c, P0, ShipId(0), PlannedAction::Focus).unwrap();
    // Crit on the debris die, then draw(9) = Stunned Pilot.
    let rec = resolve(&c, &mut gs, vec![3, 9, 7, 7, 7, 7, 7, 7, 7, 7, 7, 7]);
    let mv = rec.moves.iter().find(|m| m.ship == ShipId(0)).unwrap();
    assert_eq!(mv.action_result, ActionResult::SkippedStressed);
    assert_eq!(gs.ships[0].stress, 1);
    assert_eq!(gs.ships[0].hull, 2);
    assert!(gs.ships[0].crits.contains(&CritEffect::StunnedPilot));
}

#[test]
fn obstructed_attacks_give_the_defender_a_die_and_trick_shot_the_attacker() {
    let c = content();
    let mut gs = talent_duel(&c, UpgradeId(133));
    // Between the two after they move (TIE nose at y=7.5, X-Wing at 13.5).
    gs.obstacles.push(rock(0, ObstacleKind::Asteroid, 10.0, 10.5));
    let rec = resolve(&c, &mut gs, vec![7]);
    let xwing = rebel_shot(&rec);
    assert!(xwing.obstructed);
    assert_eq!(xwing.attack_faces.len(), 4, "3 + Trick Shot");
    assert_eq!(xwing.defense_faces.len(), 5, "3 + Range 3 + obstruction");
    let tie = imperial_shot(&rec);
    assert_eq!(tie.attack_faces.len(), 2);
    assert_eq!(tie.defense_faces.len(), 4, "2 + Range 3 + obstruction");
}

#[test]
fn ships_neither_deploy_nor_roll_onto_obstacles() {
    let c = content();
    let mut gs = duel(&c, "academypilot", "bluesquadronnovice");
    gs.obstacles.push(rock(0, ObstacleKind::Asteroid, 12.0, 2.0));
    gs.phase = Phase::Placement;
    assert_eq!(
        gs.place_ship(&c, P0, ShipId(0), Pose::new(12.0, 2.5, FRAC_PI_2)),
        Err(Rejection::OverlapsObstacle)
    );
    gs.phase = Phase::Planning;
    // A barrel roll to the right (toward +x from a north-facing ship
    // is "right" = -x… so roll left, onto the rock at x=12) fails.
    gs.obstacles[0] = rock(0, ObstacleKind::Asteroid, 8.0, 7.0);
    gs.plan_action(&c, P0, ShipId(0), PlannedAction::BarrelRoll(Side::Left)).unwrap();
    let rec = resolve(&c, &mut gs, vec![7]);
    let mv = rec.moves.iter().find(|m| m.ship == ShipId(0)).unwrap();
    assert_eq!(mv.action_result, ActionResult::Failed);
    assert!((gs.pose(0).unwrap().anchor.x - 10.0).abs() < 1e-9);
}

#[test]
fn seismic_torpedo_blasts_ships_around_an_obstacle_and_removes_it() {
    let c = content();
    let torpedo = UpgradeId(7);
    let mut gs = skirmish(
        &c,
        &[("gammasquadronpilot", Pose::new(10.0, 3.0, FRAC_PI_2), 1)],
        &[("bluesquadronnovice", Pose::new(10.0, 17.5, -FRAC_PI_2), 1)],
    );
    gs.ships[0].upgrades.push(torpedo);
    // Stage the X-Wing mid-board by hand (outside its deployment zone).
    gs.ships[1].pose = Some((Pose::new(10.0, 9.0, -FRAC_PI_2)).bits());
    // Rock between them: ~2 units ahead of the bomber's base after its
    // straight 1, ~1 unit from the X-Wing's after its own.
    gs.obstacles.push(rock(3, ObstacleKind::Asteroid, 10.0, 6.5));
    assert_eq!(
        gs.plan_action(&c, P0, ShipId(0), PlannedAction::CardActionAt(torpedo, 9)),
        Err(Rejection::NoSuchObstacle)
    );
    assert_eq!(
        gs.plan_action(&c, P0, ShipId(0), PlannedAction::CardActionAt(UpgradeId(181), 3)),
        Err(Rejection::NoSuchUpgrade)
    );
    gs.plan_action(&c, P0, ShipId(0), PlannedAction::CardActionAt(torpedo, 3)).unwrap();
    // The X-Wing (PS2) moves first without dice. The bomber's torpedo
    // rolls one die per ship in index order: a hit on the bomber
    // itself, a critical on the T-70 (absorbed by its 3 shields).
    let rec = resolve(&c, &mut gs, vec![0, 3, 7, 7, 7, 7, 7, 7, 7, 7, 7, 7, 7, 7]);
    let mv = rec.moves.iter().find(|m| m.ship == ShipId(0)).unwrap();
    assert_eq!(mv.action_result, ActionResult::Performed);
    let blast = mv.seismic.as_ref().expect("blast recorded");
    assert_eq!(blast.obstacle, 3);
    assert_eq!(blast.detonation.token.kind, BombKind::SeismicTorpedo);
    assert_eq!(blast.detonation.hits.len(), 2, "{:?}", blast.detonation.hits);
    assert_eq!(gs.ships[0].hull, 5, "{:?}", rec.events);
    assert_eq!(gs.ships[1].shields, 2, "{:?} {:?}", blast.detonation.hits, rec.events);
    assert_eq!(gs.ships[1].hull, 3);
    assert!(gs.obstacles.is_empty(), "the asteroid is removed");
    assert!(!gs.ships[0].upgrades.contains(&torpedo), "card discarded");
    assert!(rec.events.iter().any(|e| e.contains("breaks up")), "{:?}", rec.events);
}

#[test]
fn seismic_torpedo_needs_the_obstacle_in_arc_at_range_1_to_2() {
    let c = content();
    let torpedo = UpgradeId(7);
    let mut gs = skirmish(
        &c,
        &[("gammasquadronpilot", Pose::new(10.0, 3.0, FRAC_PI_2), 1)],
        &[("bluesquadronnovice", Pose::new(10.0, 17.5, -FRAC_PI_2), 1)],
    );
    gs.ships[0].upgrades.push(torpedo);
    // Behind the bomber: never in the front arc.
    gs.obstacles.push(rock(3, ObstacleKind::Debris, 10.0, 1.0));
    gs.plan_action(&c, P0, ShipId(0), PlannedAction::CardActionAt(torpedo, 3)).unwrap();
    let rec = resolve(&c, &mut gs, vec![7; 14]);
    let mv = rec.moves.iter().find(|m| m.ship == ShipId(0)).unwrap();
    assert_eq!(mv.action_result, ActionResult::Failed);
    assert!(mv.seismic.is_none());
    assert_eq!(gs.obstacles.len(), 1);
    assert!(gs.ships[0].upgrades.contains(&torpedo), "card kept");
    assert!(rec.events.iter().any(|e| e.contains("not at Range 1-2")), "{:?}", rec.events);
}

#[test]
fn lorrir_rolls_with_a_bank_template_for_a_stress() {
    let c = content();
    let mut gs = skirmish(
        &c,
        &[("lieutenantlorrir", Pose::new(10.0, 3.0, FRAC_PI_2), 2)],
        &[("bluesquadronnovice", Pose::new(10.0, 17.5, -FRAC_PI_2), 1)],
    );
    gs.plan_action(&c, P0, ShipId(0), PlannedAction::BarrelRollBank(Side::Left, true)).unwrap();
    let rec = resolve(&c, &mut gs, vec![7; 20]);
    let mv = rec.moves.iter().find(|m| m.ship == ShipId(0)).unwrap();
    assert_eq!(mv.action_result, ActionResult::Performed);
    let p = gs.pose(0).unwrap();
    // Rolled to the left (-x), ahead of the straight-2 end (y=5), nose
    // turned 45° to the right; one stress for the template.
    assert!(p.anchor.x < 9.0, "{p:?}");
    assert!(p.anchor.y > 5.0, "{p:?}");
    assert!((p.heading - std::f64::consts::FRAC_PI_4).abs() < 1e-9, "{p:?}");
    assert_eq!(gs.ships[0].stress, 1);
    assert!(rec.events.iter().any(|e| e.contains("bank template roll")), "{:?}", rec.events);

    // Other pilots cannot use the bank templates.
    let mut gs = skirmish(
        &c,
        &[("turrphennir", Pose::new(10.0, 3.0, FRAC_PI_2), 2)],
        &[("bluesquadronnovice", Pose::new(10.0, 17.5, -FRAC_PI_2), 1)],
    );
    assert_eq!(
        gs.plan_action(&c, P0, ShipId(0), PlannedAction::BarrelRollBank(Side::Left, true)),
        Err(Rejection::TemplateNotAllowed)
    );
}

#[test]
fn turr_phennir_boosts_after_his_attack() {
    let c = content();
    let mut gs = skirmish(
        &c,
        &[("turrphennir", Pose::new(10.0, 3.0, FRAC_PI_2), 2)],
        &[("bluesquadronnovice", Pose::new(10.0, 17.5, -FRAC_PI_2), 1)],
    );
    // Stage the X-Wing mid-board: at Range 2 ahead of Turr after his
    // straight 2 and its straight 1.
    gs.ships[1].pose = Some((Pose::new(10.0, 9.0, -FRAC_PI_2)).bits());
    gs.plan_action(&c, P0, ShipId(0), PlannedAction::Focus).unwrap();
    gs.plan_second_action(&c, P0, ShipId(0), Some(PlannedAction::Boost(BoostDir::Straight)))
        .unwrap();
    let rec = resolve(&c, &mut gs, vec![7; 24]);
    let mv = rec.moves.iter().find(|m| m.ship == ShipId(0)).unwrap();
    assert!(mv.second.is_none(), "the reposition waits for the attack");
    assert!((mv.end.anchor.y - 5.0).abs() < 1e-9, "{:?}", mv.end);
    let atk = rec.attacks.iter().find(|a| a.attacker == ShipId(0)).expect("Turr shoots first");
    let r = atk.reposition.expect("free boost recorded");
    assert_eq!(r.result, ActionResult::Performed);
    assert!((Pose::from_bits(r.to).anchor.y - 6.0).abs() < 1e-9, "{r:?}");
    assert!((gs.pose(0).unwrap().anchor.y - 6.0).abs() < 1e-9);
    assert!(rec.events.iter().any(|e| e.contains("Turr Phennir")), "{:?}", rec.events);
}

#[test]
fn expert_handling_rolls_without_the_icon_and_strips_a_lock() {
    let c = content();
    let expert = UpgradeId(122);
    let mut gs = duel(&c, "academypilot", "bluesquadronnovice");
    // The T-70 has no barrel roll on its bar.
    assert_eq!(
        gs.plan_action(&c, P1, ShipId(1), PlannedAction::BarrelRoll(Side::Left)),
        Err(Rejection::ActionNotOnBar)
    );
    gs.ships[1].upgrades.push(expert);
    gs.ships[0].lock = Some(ShipId(1));
    gs.plan_action(&c, P1, ShipId(1), PlannedAction::BarrelRoll(Side::Left)).unwrap();
    let rec = resolve(&c, &mut gs, vec![7; 20]);
    let mv = rec.moves.iter().find(|m| m.ship == ShipId(1)).unwrap();
    assert_eq!(mv.action_result, ActionResult::Performed);
    // South-facing: "left" is +x; one template plus the base width.
    let p = gs.pose(1).unwrap();
    assert!((p.anchor.x - 12.0).abs() < 1e-9, "{p:?}");
    assert_eq!(gs.ships[1].stress, 1, "no icon: stress");
    assert_eq!(gs.ships[0].lock, None, "the TIE's lock is removed");
    assert!(rec.events.iter().any(|e| e.contains("target lock removed")), "{:?}", rec.events);
}

#[test]
fn a_black_hole_core_swallows_a_ship_that_touches_it() {
    let c = content();
    let mut gs = duel(&c, "academypilot", "bluesquadronnovice");
    gs.obstacles.push(Obstacle {
        id: 0,
        kind: ObstacleKind::BlackHole,
        center: Vec2::new(10.0, 5.0).bits(),
        heading: 0.0f64.to_bits(),
        shape: 0,
    });
    let rec = resolve(&c, &mut gs, vec![7]);
    let mv = rec.moves.iter().find(|m| m.ship == ShipId(0)).unwrap();
    assert_eq!(mv.obstacles_hit, vec![0]);
    assert!(gs.ships[0].destroyed);
    assert!(rec.events.iter().any(|e| e.contains("swallowed")), "{:?}", rec.events);
    assert!(rec.attacks.iter().all(|a| a.attacker != ShipId(0)));
}

#[test]
fn black_holes_drag_ships_within_range_5_and_swallow_at_the_core() {
    let c = content();
    let hole = |x, y| Obstacle {
        id: 7,
        kind: ObstacleKind::BlackHole,
        center: Vec2::new(x, y).bits(),
        heading: 0.0f64.to_bits(),
        shape: 0,
    };
    // Hole far to the east of the TIE's end position (nose y=7.5):
    // within Range 5, so the TIE slides one unit toward it.
    let mut gs = duel(&c, "academypilot", "bluesquadronnovice");
    gs.obstacles.push(hole(18.0, 7.0));
    let rec = resolve(&c, &mut gs, vec![7]);
    assert_eq!(rec.pulls.len(), 2, "both ships are within Range 5: {:?}", rec.pulls);
    let tie = rec.pulls.iter().find(|p| p.ship == ShipId(0)).unwrap();
    assert!(!tie.swallowed);
    let d = Pose::from_bits(tie.to).anchor - Pose::from_bits(tie.from).anchor;
    assert!(((d.x * d.x + d.y * d.y).sqrt() - 1.0).abs() < 1e-9);
    assert!(d.x > 0.9, "straight toward the hole: {d:?}");
    assert_eq!(tie.to.heading, tie.from.heading);
    assert!(rec.events.iter().any(|e| e.contains("pulled toward the black hole")));

    // Out of reach: a hole more than 12.5 units away does nothing.
    let mut gs = duel(&c, "academypilot", "bluesquadronnovice");
    gs.obstacles.push(hole(2.0, 19.0));
    gs.ships[1].pose = Some((Pose::new(10.0, 17.5, -FRAC_PI_2)).bits());
    let rec = resolve(&c, &mut gs, vec![7]);
    assert!(rec.pulls.iter().all(|p| p.ship != ShipId(0)), "{:?}", rec.pulls);

    // Sitting just short of the core: the pull drags the base onto it.
    let mut gs = duel(&c, "academypilot", "bluesquadronnovice");
    gs.obstacles.push(hole(10.0, 8.7));
    let rec = resolve(&c, &mut gs, vec![7]);
    let tie = rec.pulls.iter().find(|p| p.ship == ShipId(0)).unwrap();
    assert!(tie.swallowed);
    assert!(gs.ships[0].destroyed);
    assert!(rec.attacks.iter().all(|a| a.attacker != ShipId(0)));
}

// ---------------- Templates ----------------

fn approx(a: f64, b: f64) -> bool {
    (a - b).abs() < 1e-9
}

fn m(steer: Steer, distance: u8) -> Maneuver {
    Maneuver { steer, distance, difficulty: Difficulty::Normal }
}

#[test]
fn straight_moves_ahead() {
    let p = apply(Pose::new(0.0, 0.0, 0.0), m(Steer::Straight, 3)).unwrap();
    assert!(approx(p.anchor.x, 3.0));
    assert!(approx(p.anchor.y, 0.0));
    assert!(approx(p.heading, 0.0));
}

#[test]
fn turn_1_left_matches_template() {
    // Centerline radius 0.875: end at (0.875, 0.875), facing left.
    let p = apply(Pose::new(0.0, 0.0, 0.0), m(Steer::TurnLeft, 1)).unwrap();
    assert!(approx(p.anchor.x, 0.875));
    assert!(approx(p.anchor.y, 0.875));
    assert!(approx(p.heading, FRAC_PI_2));
}

#[test]
fn bank_2_right_matches_template() {
    // Radius 3.25, 45° right.
    let p = apply(Pose::new(0.0, 0.0, 0.0), m(Steer::BankRight, 2)).unwrap();
    let r = 3.25f64;
    assert!(approx(p.anchor.x, r * FRAC_PI_4.sin()));
    assert!(approx(p.anchor.y, -(r * (1.0 - FRAC_PI_4.cos()))));
    assert!(approx(p.heading, -FRAC_PI_4));
}

#[test]
fn segnor_loop_is_bank_then_flip() {
    let bank = apply(Pose::new(0.0, 0.0, 0.0), m(Steer::BankLeft, 3)).unwrap();
    let p = apply(Pose::new(0.0, 0.0, 0.0), m(Steer::SegnorLeft, 3)).unwrap();
    assert!(approx(p.anchor.x, bank.anchor.x));
    assert!(approx(p.anchor.y, bank.anchor.y));
    // Bank left = +45°, then a half turn: heading ends at 45° - 180°.
    let want = (FRAC_PI_4 + PI).rem_euclid(2.0 * PI);
    assert!(approx(p.heading.rem_euclid(2.0 * PI), want), "heading {}", p.heading);
}

#[test]
fn left_and_right_are_mirrors() {
    for (l, r, max) in [
        (Steer::BankLeft, Steer::BankRight, 3),
        (Steer::TurnLeft, Steer::TurnRight, 4),
        (Steer::TallonLeft, Steer::TallonRight, 4),
        (Steer::SegnorLeft, Steer::SegnorRight, 3),
    ] {
        for speed in 1..=max {
            let pl = apply(Pose::new(0.0, 0.0, 0.0), m(l, speed)).unwrap();
            let pr = apply(Pose::new(0.0, 0.0, 0.0), m(r, speed)).unwrap();
            assert!(approx(pl.anchor.x, pr.anchor.x));
            assert!(approx(pl.anchor.y, -pr.anchor.y));
            assert!(
                approx(pl.heading.rem_euclid(2.0 * PI), (-pr.heading).rem_euclid(2.0 * PI)),
                "left {l:?} speed {speed}: pl.heading={}, pr.heading={}",
                pl.heading,
                pr.heading
            );
        }
    }
}

#[test]
fn kturn_flies_straight_then_flips() {
    // Koiogran 3 from origin facing +X: anchor ends 3 ahead, heading
    // reversed; the hull (which trails the anchor) flips to sit ahead
    // of the anchor, facing back the way it came.
    let p = apply(Pose::new(0.0, 0.0, 0.0), m(Steer::KTurn, 3)).unwrap();
    assert!(approx(p.anchor.x, 3.0));
    assert!(approx(p.anchor.y, 0.0));
    assert!(approx(p.heading, PI));
}

#[test]
fn tallon_roll_ends_flipped_on_the_flank() {
    // Tallon left 3: 90° left arc (r = 2.25) to (2.25, 2.25) facing
    // +Y, then a further 90° left in place — net heading 180°.
    let p = apply(Pose::new(0.0, 0.0, 0.0), m(Steer::TallonLeft, 3)).unwrap();
    assert!(approx(p.anchor.x, 2.25));
    assert!(approx(p.anchor.y, 2.25));
    assert!(approx(p.heading, PI));
}

#[test]
fn bad_speeds_rejected() {
    assert!(apply(Pose::new(0.0, 0.0, 0.0), m(Steer::Straight, 6)).is_err());
    assert!(apply(Pose::new(0.0, 0.0, 0.0), m(Steer::TurnLeft, 5)).is_err());
    assert!(apply(Pose::new(0.0, 0.0, 0.0), m(Steer::TallonRight, 5)).is_err());
    assert!(apply(Pose::new(0.0, 0.0, 0.0), m(Steer::BankRight, 0)).is_err());
    assert!(apply(Pose::new(0.0, 0.0, 0.0), m(Steer::KTurn, 6)).is_err());
    assert!(apply(Pose::new(0.0, 0.0, 0.0), m(Steer::SegnorLeft, 4)).is_err());
}

#[test]
fn sampled_path_ends_at_final_pose() {
    for steer in [Steer::Straight, Steer::BankLeft, Steer::TurnRight, Steer::KTurn] {
        let man = m(steer, 2);
        let start = Pose::new(1.0, -2.0, 0.4);
        let path = sample_path(start, man).unwrap();
        let end = apply(start, man).unwrap();
        let last = *path.last().unwrap();
        assert_eq!(path[0], start);
        assert!(approx(last.anchor.x, end.anchor.x));
        assert!(approx(last.anchor.y, end.anchor.y));
        assert!(approx(last.heading, end.heading));
        assert!(path.len() > 2);
    }
}

// ---------------- The bot ----------------

/// What the bot decides from: the client's view of the game and the table.
pub struct View<'a> {
    pub content: &'a Content,
    pub board: &'a Board,
    pub bases: &'a [(ShipClassId, Footprint)],
    pub ships: &'a Vec<ShipView>,
    pub obstacles: &'a [Obstacle],
    pub zones: &'a [Rect],
    pub mission: Option<&'a MissionView>,
    pub turn: u32,
    pub seat: u8,
    pub team: u8,
}

impl View<'_> {
    fn footprint(&self, v: &ShipView) -> Footprint {
        self.bases
            .iter()
            .find(|b| b.0 == v.class)
            .map_or(Footprint { length: 1.0, width: 1.0 }, |b| b.1)
    }

    fn mine(&self, v: &ShipView) -> bool {
        v.owner.0 == u32::from(self.seat)
    }

    fn corners(&self, v: &ShipView) -> Option<Corners> {
        v.pose.map(|p| footprint_corners(Pose::from_bits(p), self.footprint(v)))
    }

    fn rules(&self) -> BotView<'_> {
        BotView {
            content: self.content,
            ships: self.ships,
            mission: self.mission,
            turn: self.turn,
            seat: self.seat,
            team: self.team,
        }
    }
}

/// Where to put every unplaced own ship: spread along the first zone,
/// facing into the board, skipping spots on obstacles or other ships.
pub fn placements(view: &View) -> Vec<(ShipId, Pose)> {
    let Some(&zone) = view.zones.first() else { return Vec::new() };
    let (x0, y0, x1, y1) = zone;
    let board = view.board;
    // Which edge the zone hugs decides the facing.
    let seat = if y0 <= 0.0 && y1 < board.height {
        Seat::South
    } else if y1 >= board.height && y0 > 0.0 {
        Seat::North
    } else if x1 >= board.width && x0 > 0.0 {
        Seat::East
    } else if x0 <= 0.0 && x1 < board.width {
        Seat::West
    } else {
        Seat::South
    };
    let heading = facing(seat);
    let mut taken: Vec<Corners> =
        view.ships.iter().filter(|v| !v.destroyed).filter_map(|v| view.corners(v)).collect();
    let mut out = Vec::new();
    for v in view.ships.iter().filter(|v| view.mine(v) && !v.destroyed && v.pose.is_none()) {
        let fp = view.footprint(v);
        let depth_in = fp.length + 0.3;
        let candidates = (0..40).map(|k| {
            // Zig-zag outward from the middle of the zone's edge.
            let step = 1.6 * fp.width.max(1.0);
            let off = f64::from(k).div_euclid(2.0) * step * if k % 2 == 0 { 1.0 } else { -1.0 };
            let along = match seat {
                Seat::South | Seat::North => (x0 + x1) / 2.0 + off,
                Seat::East | Seat::West => (y0 + y1) / 2.0 + off,
            };
            let d = match seat {
                Seat::South => y0 + depth_in,
                Seat::North => board.height - y1 + depth_in,
                Seat::East => board.width - x1 + depth_in,
                Seat::West => x0 + depth_in,
            };
            let p = edge_point(board, seat, along, d);
            Pose::new(p.x, p.y, heading)
        });
        for pose in candidates {
            let corners = footprint_corners(pose, fp);
            let clear = view.zones.iter().any(|z| in_rect(*z, &corners))
                && taken.iter().all(|t| !obbs_overlap(&corners, t))
                && view
                    .obstacles
                    .iter()
                    .all(|o| polygon_distance(&corners, &polygon(o)) > RANGE_BAND_UNITS);
            if clear {
                taken.push(corners);
                out.push((v.id, pose));
                break;
            }
        }
    }
    out
}

/// Plans for every own ship on the board.
pub fn plans(view: &View) -> Vec<Plan> {
    view.ships
        .iter()
        .filter(|v| view.mine(v) && !v.destroyed && v.pose.is_some())
        .filter_map(|v| plan_ship(view, v))
        .collect()
}

/// The plan for one ship. Scores are floating point, so they are counted
/// here, from the parts that the rules name.
fn plan_ship(view: &View, me: &ShipView) -> Option<Plan> {
    let rules = view.rules();
    assert!(view.mission.is_none_or(|m| m.rebel_side <= 1), "two sides");
    let class = view.content.ships.class(me.class)?;
    let dial = &view.content.dials.set(class.maneuver_set)?.maneuvers;
    let pose = Pose::from_bits(me.pose?);
    let fp = view.footprint(me);
    let enemies: Vec<Vec2> = view
        .ships
        .iter()
        .filter(|v| v.team != view.team && !v.destroyed)
        .filter_map(|v| v.pose.map(|p| base_center(Pose::from_bits(p), view.footprint(v))))
        .collect();
    let satellites: Vec<Vec2> = view.mission.map_or(Vec::new(), |m| {
        m.satellites.iter().filter(|s| s.on_board()).map(|s| Vec2::from_bits(s.pos)).collect()
    });
    let others: Vec<Corners> = view
        .ships
        .iter()
        .filter(|v| v.id != me.id && !v.destroyed)
        .filter_map(|v| view.corners(v))
        .collect();
    let rocks: Vec<Vec<Vec2>> = view.obstacles.iter().map(polygon).collect();
    let shuttle = view
        .mission
        .and_then(|m| m.shuttle)
        .and_then(|s| view.ships.iter().find(|v| v.id == s && !v.destroyed))
        .and_then(|s| view.corners(s));
    let nearest = |from: Vec2, points: &[Vec2]| {
        let dist = |p: &Vec2| ((p.x - from.x).powi(2) + (p.y - from.y).powi(2)).sqrt();
        points.iter().copied().min_by(|a, b| dist(a).total_cmp(&dist(b))).map(|p| (p, dist(&p)))
    };
    let mut looks = Vec::new();
    let mut keys = Vec::new();
    for man in dial {
        let path = sample_path(pose, *man).unwrap_or(vec![pose]);
        let end = path[path.len() - 1];
        let corners = footprint_corners(end, fp);
        let centre = base_center(end, fp);
        let enemy = nearest(centre, &enemies);
        let satellite = nearest(centre, &satellites);
        let look = Outlook {
            off: !within_board(view.board, &corners),
            exit: exit_edge(view.board, centre),
            bump: others.iter().any(|o| obbs_overlap(&corners, o)),
            rock: path.iter().any(|p| {
                rocks.iter().any(|r| convex_overlap(&footprint_corners(*p, fp), r))
            }),
            at_satellite: satellite.is_some_and(|(_, d)| d <= 0.5),
            in_arc: enemy
                .is_some_and(|(p, d)| in_front_arc(end, fp, p) && d <= 3.0 * RANGE_BAND_UNITS),
            near_shuttle: shuttle.is_some_and(|sc| range_band_between(&corners, &sc) == Some(1)),
        };
        let score = rules.weigh(me, man, &look).map_or(0.0, |t| {
            let far = match t.goal {
                Goal::Nowhere => 0.0,
                Goal::Satellite => satellite.map_or(0.0, |(_, d)| d),
                Goal::Engage => enemy.map_or(0.0, |(_, d)| (d - RANGE_BAND_UNITS).abs()),
                Goal::Approach => enemy.map_or(0.0, |(_, d)| d * 0.7),
                Goal::Edge(Seat::North) => view.board.height - centre.y,
                Goal::Edge(Seat::South) => centre.y,
                Goal::Edge(Seat::East) => view.board.width - centre.x,
                Goal::Edge(Seat::West) => centre.x,
            };
            f64::from(t.before) + (f64::from(t.base) - far) + f64::from(t.after)
        });
        looks.push(look);
        keys.push(ordered(score));
    }
    rules.plan_ship(me, &looks, &keys)
}

/// A number as a key that orders as it does.
fn ordered(x: f64) -> u64 {
    let bits = (x + 0.0).to_bits();
    if bits >> 63 == 0 { bits | (1 << 63) } else { !bits }
}

#[test]
fn bot_squads_fill_the_points_with_generic_pilots() {
    let c = content();
    let imp = squad(&c, Faction::Empire, 100);
    assert_eq!(imp.ships.len(), 8, "eight Academy Pilots");
    let reb = squad(&c, Faction::RebelAlliance, 100);
    let scum = squad(&c, Faction::Scum, 100);
    assert_eq!(scum.faction, Faction::Scum);
    assert!(scum.ships.len() >= 4 && scum.cost(&c) <= 100);
    assert!(reb.ships.len() >= 4 && reb.cost(&c) <= 100);
}

#[test]
fn bot_places_plans_and_targets_from_a_snapshot() {
    let c = content();
    let imp = squad(&c, Faction::Empire, 40);
    let reb = squad(&c, Faction::RebelAlliance, 40);
    let mut gs = from_squads(&c, &[&imp, &reb], &[0, 1], AttackFace::Blank).unwrap();
    gs.place_obstacles(&[ObstacleKind::Asteroid; 3], 7);
    // Seat 0 (three TIEs) places through the bot.
    let ships = gs.snapshot_for(&c, PlayerId(0));
    let zones = gs.deploy_zones(PlayerId(0));
    let (board, bases, obstacles) = (gs.board, gs.bases.clone(), gs.obstacles.clone());
    let view = View {
        content: &c,
        board: &board,
        bases: &bases,
        ships: &ships,
        obstacles: &obstacles,
        zones: &zones,
        mission: None,
        turn: 1,
        seat: 0,
        team: 0,
    };
    let placed = placements(&view);
    assert_eq!(placed.len(), 3);
    for (id, pose) in &placed {
        gs.place_ship(&c, PlayerId(0), *id, *pose).unwrap();
    }
    // The Rebel places by hand, then the bot plans for its TIEs: every
    // plan is accepted and heads toward the X-Wing.
    let rebel_ids: Vec<ShipId> =
        gs.ships.iter().filter(|s| s.owner == PlayerId(1)).map(|s| s.id).collect();
    for (k, id) in rebel_ids.iter().enumerate() {
        gs.place_ship(&c, PlayerId(1), *id, Pose::new(6.0 + 3.0 * k as f64, 18.5, -FRAC_PI_2))
            .unwrap();
    }
    let ships = gs.snapshot_for(&c, PlayerId(0));
    let view = View { ships: &ships, turn: gs.turn, ..view };
    let plans = plans(&view);
    assert_eq!(plans.len(), 3);
    for p in &plans {
        gs.plan_maneuver(&c, PlayerId(0), p.ship, p.maneuver).unwrap();
        gs.plan_action(&c, PlayerId(0), p.ship, p.action).unwrap();
        assert_eq!(p.action, PlannedAction::Focus);
        let k = gs.ships.iter().position(|s| s.id == p.ship).unwrap();
        let before = gs.pose(k).unwrap();
        let man = c.dials.set(ManeuverSetId(1)).unwrap().maneuvers[p.maneuver as usize];
        let end = *sample_path(before, man).unwrap().last().unwrap();
        assert!(end.anchor.y > before.anchor.y, "moves toward the Rebels");
    }
    // Target choice: the weakest target (range breaks ties, closer
    // first), or the secondary weapon when offered.
    let opts = [(ShipId(3), None, 2), (ShipId(4), None, 1)];
    assert_eq!(choose_target(&ships, &opts), Some((ShipId(4), None)));
    let mut hurt = ships.clone();
    hurt.iter_mut().find(|v| v.id == ShipId(3)).unwrap().hull = 1;
    assert_eq!(choose_target(&hurt, &opts), Some((ShipId(3), None)));
    let opts = [(ShipId(3), None, 2), (ShipId(4), Some(UpgradeId(1)), 2)];
    assert_eq!(choose_target(&ships, &opts), Some((ShipId(4), Some(UpgradeId(1)))));
    assert!(safe_maneuver(&c, &ships[0]).is_some());
}

#[test]
fn bot_runs_the_shuttle_for_the_imperial_edge() {
    let c = content();
    let rebel = fixed_squad(&c, MissionKind::PoliticalEscort, Faction::RebelAlliance);
    let imperial = fixed_squad(&c, MissionKind::PoliticalEscort, Faction::Empire);
    let mut gs = from_squads(&c, &[&rebel, &imperial], &[0, 1], AttackFace::Blank).unwrap();
    gs.start_mission(&c, MissionKind::PoliticalEscort, 31).unwrap();
    let shuttle = gs.mission.as_ref().unwrap().shuttle.unwrap();
    gs.ships.iter_mut().find(|s| s.id == shuttle).unwrap().pose =
        Some(Pose::new(10.0, 18.5, FRAC_PI_2).bits());
    gs.turn = 3;
    let ships = gs.snapshot_for(&c, PlayerId(0));
    let mv = gs.mission_view(PlayerId(0));
    let view = View {
        content: &c,
        board: &gs.board,
        bases: &gs.bases,
        ships: &ships,
        obstacles: &gs.obstacles,
        zones: &[],
        mission: mv.as_ref(),
        turn: 3,
        seat: 0,
        team: 0,
    };
    let plan = plans(&view).into_iter().find(|p| p.ship == shuttle).unwrap();
    let man = c.dials.set(ManeuverSetId(12)).unwrap().maneuvers[plan.maneuver as usize];
    assert_eq!(man.distance, 2, "straight 2 off the Imperial edge: {man:?}");
}

// ---------------- Refusals ----------------

/// A refused command leaves the game as it was.
fn refused<T: std::fmt::Debug + PartialEq>(
    gs: &mut Table,
    why: Rejection,
    command: impl FnOnce(&mut Table) -> Result<T, Rejection>,
) {
    let before = gs.game.clone();
    assert_eq!(command(gs), Err(why));
    assert_eq!(gs.game, before, "a refused command changes nothing");
}

#[test]
fn refused_commands_change_nothing() {
    let c = content();
    let mut gs = new_1v1(&c);
    let focus = PlannedAction::Focus;
    refused(&mut gs, Rejection::WrongPhase, |g| g.plan_maneuver(&c, P0, ShipId(0), 0));
    refused(&mut gs, Rejection::WrongPhase, |g| g.plan_action(&c, P0, ShipId(0), focus));
    refused(&mut gs, Rejection::WrongPhase, |g| g.commit_plans(&c, P0, &mut always(7)));
    refused(&mut gs, Rejection::WrongPhase, |g| g.combat_step(&c, &mut always(7)).map(|_| ()));
    refused(&mut gs, Rejection::NoSuchShip, |g| {
        g.place_ship(&c, P0, ShipId(9), Pose::new(10.0, 2.0, FRAC_PI_2))
    });
    refused(&mut gs, Rejection::NotYourShip, |g| {
        g.place_ship(&c, P0, ShipId(1), Pose::new(10.0, 2.0, FRAC_PI_2))
    });
    refused(&mut gs, Rejection::OutOfZone, |g| {
        g.place_ship(&c, P0, ShipId(0), Pose::new(10.0, 10.0, FRAC_PI_2))
    });
    place_both(&c, &mut gs);
    refused(&mut gs, Rejection::WrongPhase, |g| {
        g.place_ship(&c, P0, ShipId(0), Pose::new(10.0, 2.0, FRAC_PI_2))
    });
    refused(&mut gs, Rejection::WrongPhase, |g| g.rename(P0, ShipId(0), "Late"));
    refused(&mut gs, Rejection::NoSuchShip, |g| g.plan_maneuver(&c, P0, ShipId(9), 0));
    refused(&mut gs, Rejection::NotYourShip, |g| g.plan_maneuver(&c, P0, ShipId(1), 0));
    refused(&mut gs, Rejection::BadManeuverIndex, |g| g.plan_maneuver(&c, P0, ShipId(0), 200));
    refused(&mut gs, Rejection::NoSuchShip, |g| {
        g.plan_action(&c, P1, ShipId(1), PlannedAction::TargetLock(ShipId(9)))
    });
    refused(&mut gs, Rejection::BadLockTarget, |g| {
        g.plan_action(&c, P1, ShipId(1), PlannedAction::TargetLock(ShipId(1)))
    });
    refused(&mut gs, Rejection::NoSuchUpgrade, |g| {
        g.plan_action(&c, P0, ShipId(0), PlannedAction::DropMine(UpgradeId(182)))
    });
    refused(&mut gs, Rejection::NotInThisMission, |g| {
        g.plan_action(&c, P0, ShipId(0), PlannedAction::Protect)
    });
    refused(&mut gs, Rejection::TemplateNotAllowed, |g| {
        g.plan_action(&c, P1, ShipId(1), PlannedAction::Boost(BoostDir::TurnRight))
    });
    refused(&mut gs, Rejection::SecondActionNotAllowed, |g| {
        g.plan_second_action(&c, P1, ShipId(1), Some(focus))
    });
    refused(&mut gs, Rejection::NoSuchUpgrade, |g| {
        g.plan_bomb(&c, P0, ShipId(0), Some(UpgradeId(181)))
    });
    refused(&mut gs, Rejection::NoSuchUpgrade, |g| {
        g.plan_card_use(&c, P0, ShipId(0), UpgradeId(125), true)
    });
    refused(&mut gs, Rejection::PlansIncomplete, |g| g.commit_plans(&c, P0, &mut always(7)));
    gs.ships[0].destroyed = true;
    refused(&mut gs, Rejection::ShipDestroyed, |g| g.plan_maneuver(&c, P0, ShipId(0), 0));
    gs.ships[0].destroyed = false;
    gs.plan_maneuver(&c, P0, ShipId(0), straight2(&c, TIE)).unwrap();
    gs.commit_plans(&c, P0, &mut always(7)).unwrap();
    refused(&mut gs, Rejection::AlreadyCommitted, |g| g.plan_maneuver(&c, P0, ShipId(0), 0));
    refused(&mut gs, Rejection::AlreadyCommitted, |g| g.commit_plans(&c, P0, &mut always(7)));
    gs.phase = Phase::Combat;
    refused(&mut gs, Rejection::NoPendingAttack, |g| {
        g.declare_target(&c, P0, ShipId(1), None, &mut always(7)).map(|_| ())
    });
}

#[test]
fn refusals_are_put_in_words() {
    for (why, words) in [
        (Rejection::WrongPhase, "not allowed in the current phase"),
        (Rejection::NoSuchShip, "no such ship"),
        (Rejection::NotYourShip, "that is not your ship"),
        (Rejection::StressedRedForbidden, "stressed ships cannot fly red maneuvers"),
        (Rejection::BadCallsign("empty".to_string()), "bad callsign: empty"),
        (Rejection::NoSuchObstacle, "there is no such obstacle on the board"),
    ] {
        assert_eq!(why.message(), words);
    }
    let bad = segments(m(Steer::BankLeft, 4)).unwrap_err();
    assert_eq!(bad.message(), "invalid maneuver: BankLeft at speed 4");
}

#[test]
fn squads_that_cannot_fly_are_refused() {
    let c = content();
    let academy = c.pilots.basic_for(TIE).unwrap().id;
    let good = Squad::basic(&c, "i", &[academy]);
    let none = from_squads(&c, &[&good], &[], AttackFace::Hit).unwrap_err();
    assert_eq!(none, SetupError::Squads(1));
    assert_eq!(none.message(&c), "1 squads: a game needs 2-4");
    let stranger = Squad::basic(&c, "i", &[academy, PilotId(999)]);
    let e = from_squads(&c, &[&good, &stranger], &[], AttackFace::Hit).unwrap_err();
    assert_eq!(e, SetupError::UnknownPilot(PilotId(999)));
    assert_eq!(e.message(&c), "unknown pilot PilotId(999)");
    let mut carded = good.clone();
    carded.ships[0].upgrades = vec![UpgradeId(1), UpgradeId(777)];
    let e = from_squads(&c, &[&carded, &good], &[], AttackFace::Hit).unwrap_err();
    assert_eq!(e, SetupError::UnknownUpgrade(UpgradeId(777)));
    assert_eq!(e.message(&c), "unknown upgrade UpgradeId(777)");
    let mut bare = content();
    bare.dials.sets.retain(|s| s.id != ManeuverSetId(1));
    let e = from_squads(&bare, &[&good, &good], &[], AttackFace::Hit).unwrap_err();
    assert_eq!(e, SetupError::NoDial(TIE));
    assert_eq!(e.message(&bare), "TIE Fighter has no dial");
    bare.ships.classes.retain(|k| k.id != TIE);
    let e = from_squads(&bare, &[&good, &good], &[], AttackFace::Hit).unwrap_err();
    assert_eq!(e, SetupError::UnknownClass(TIE));
    assert_eq!(e.message(&bare), "unknown ship class ShipClassId(1)");
}

#[test]
fn missions_need_two_sides_and_a_shuttle() {
    let c = content();
    let academy = c.pilots.basic_for(TIE).unwrap().id;
    let s = Squad::basic(&c, "i", &[academy]);
    let mut gs = from_squads(&c, &[&s, &s, &s], &[], AttackFace::Hit).unwrap();
    let e = gs.start_mission(&c, MissionKind::AsteroidRun, 100).unwrap_err();
    assert_eq!(e, MissionError::NotTwoSides);
    assert_eq!(e.message(), "missions are played between two sides");
    let mut bare = content();
    bare.pilots.pilots.retain(|p| p.xws != "senatorsshuttle");
    let mut gs = from_squads(&bare, &[&s, &s], &[], AttackFace::Hit).unwrap();
    let e = gs.start_mission(&bare, MissionKind::PoliticalEscort, 100).unwrap_err();
    assert_eq!(e, MissionError::NoShuttle);
    let mut bare = content();
    bare.ships.classes.retain(|k| k.id != SHUTTLE);
    let e = gs.start_mission(&bare, MissionKind::PoliticalEscort, 100).unwrap_err();
    assert_eq!(e, MissionError::NoShuttleClass);
    assert!(gs.mission.is_none(), "a refused mission is not begun");
}

// ---------------- What holds throughout ----------------

#[test]
fn ships_enter_numbered_and_whole() {
    let c = content();
    let mut squad_a = Squad::basic(&c, "i", &fleet(&c, &[TIE, TIE]));
    squad_a.ships[1].upgrades = vec![UpgradeId(86), UpgradeId(6), UpgradeId(1), UpgradeId(181)];
    let squad_b = Squad::basic(&c, "r", &fleet(&c, &[XWING]));
    let gs = from_squads(&c, &[&squad_a, &squad_b], &[0, 1], AttackFace::Hit).unwrap();
    let ids: Vec<u32> = gs.ships.iter().map(|s| s.id.0).collect();
    assert_eq!(ids, vec![0, 1, 2]);
    assert_eq!(gs.ships[1].hull, 4, "Hull Upgrade");
    assert_eq!(gs.ships[1].ordnance, vec![UpgradeId(6), UpgradeId(1), UpgradeId(181)]);
    assert!(gs.is_known(&c) && gs.are_plans_fit(&c));
    assert_eq!(gs.squad_totals, vec![28, 24]);
    assert_eq!(gs.initiative, P1, "24 points against 28");
}

#[test]
fn an_opponents_plans_change_nothing_that_is_seen() {
    let c = content();
    let mut gs = talent_duel(&c, UpgradeId(102));
    let before = gs.snapshot_for(&c, P0);
    gs.plan_maneuver(&c, P1, ShipId(1), 0).unwrap();
    gs.plan_action(&c, P1, ShipId(1), PlannedAction::Focus).unwrap();
    gs.plan_second_action(&c, P1, ShipId(1), Some(PlannedAction::Boost(BoostDir::Straight)))
        .unwrap();
    assert_eq!(gs.snapshot_for(&c, P0), before);
    let mine = &gs.snapshot_for(&c, P1)[1];
    assert_eq!((mine.plan, mine.planned_action), (Some(0), Some(PlannedAction::Focus)));
    assert_eq!(mine.extras.second, Some(SecondActionKind::FreeBarAction));
}

#[test]
fn an_opponents_placement_is_not_seen_before_planning() {
    let c = content();
    let mut gs = new_1v1(&c);
    gs.place_ship(&c, P0, ShipId(0), Pose::new(10.0, 2.0, FRAC_PI_2)).unwrap();
    let before = gs.snapshot_for(&c, P1);
    gs.place_ship(&c, P0, ShipId(0), Pose::new(4.0, 2.5, FRAC_PI_2)).unwrap();
    assert_eq!(gs.snapshot_for(&c, P1), before);
}

#[test]
fn the_end_phase_keeps_locks_and_drops_tokens() {
    let c = content();
    let mut gs = duel_at(
        &c,
        "obsidiansquadronpilot",
        "redsquadronveteran",
        Pose::new(2.0, 17.5, -FRAC_PI_2),
    );
    gs.ships[0].focus = 2;
    gs.ships[0].evade = 3;
    gs.ships[0].tractor = 1;
    gs.ships[1].lock = Some(ShipId(0));
    gs.ships[1].stress = 1;
    resolve(&c, &mut gs, vec![7]);
    let s = &gs.ships[0];
    assert_eq!((s.focus, s.evade, s.tractor), (0, 0, 0));
    assert_eq!(gs.ships[1].lock, Some(ShipId(0)));
    assert_eq!(gs.ships[1].stress, 1, "the white straight 4 sheds nothing");
    assert_eq!((gs.turn, gs.committed.clone()), (2, vec![false, false]));
}

#[test]
fn the_last_side_wins_and_two_sides_play_on() {
    let c = content();
    let mut gs = new_1v1(&c);
    place_both(&c, &mut gs);
    gs.check_victory();
    assert_eq!((gs.phase, gs.winner), (Phase::Planning, None));
    gs.ships[1].destroyed = true;
    gs.check_victory();
    assert_eq!((gs.phase, gs.winner), (Phase::GameOver, Some(0)));
    gs.ships[0].destroyed = true;
    gs.initiative = P1;
    gs.check_victory();
    assert_eq!(gs.winner, Some(1), "a mutual kill goes to the initiative");
    assert_eq!(gs.winner_reason(), "fleet destroyed");
}

#[test]
fn a_stressed_ship_cannot_dial_red_but_may_dial_the_rest() {
    let c = content();
    let mut gs = new_1v1(&c);
    place_both(&c, &mut gs);
    gs.ships[0].stress = 1;
    let set = c.ships.class(TIE).unwrap().maneuver_set;
    for (k, man) in c.dials.set(set).unwrap().maneuvers.iter().enumerate() {
        let planned = gs.plan_maneuver(&c, P0, ShipId(0), k as u8);
        if man.difficulty == Difficulty::Hard {
            assert_eq!(planned, Err(Rejection::StressedRedForbidden));
        } else {
            assert_eq!(planned, Ok(()));
            assert_eq!(gs.ships[0].plan, Some(k as u8));
        }
    }
}

#[test]
fn events_are_told_by_callsign() {
    let c = content();
    let gs = duel(&c, "academypilot", "bluesquadronnovice");
    assert_eq!(
        gs.tell(&c, Event::Predator(1, 2)),
        "Red-leader: Predator — rerolls 2 attack dice"
    );
    assert_eq!(
        gs.tell(&c, Event::Fires(1, UpgradeId(141), true)),
        "Red-leader: fires Cluster Missiles again"
    );
    assert_eq!(
        gs.tell(
            &c,
            Event::Discarded { ship: 0, card: UpgradeId(114), why: Why::RedFlownWhite, kept: false }
        ),
        "Obsidian-leader: Adrenaline Rush — red maneuver flown as white, card discarded"
    );
    let hit = BombHit {
        ship: ShipId(0),
        damage: 1,
        crits: 0,
        ion: 2,
        stress: 0,
        destroyed: false,
    };
    assert_eq!(
        gs.tell(&c, Event::Caught(0, BombKind::ConnerNet, hit)),
        "Obsidian-leader: caught by the Conner Net — 1 damage, 2 ion"
    );
    assert_eq!(m(Steer::Straight, 2).label(), "straight 2 (white)");
}

#[test]
fn printed_content_is_found() {
    let c = content();
    let names = XwsNames {
        factions: vec![
            (Faction::RebelAlliance, "rebels".to_string()),
            (Faction::Empire, "imperial".to_string()),
        ],
        slots: vec![(Slot::Talent, "talent".to_string())],
    };
    let howl = c.pilots.pilots.iter().find(|p| p.xws == "howlrunner").unwrap().id;
    assert_eq!(
        c.pilots.card_image(&c.ships, &names, howl),
        Some("pilots/imperial/tiefighter/howlrunner.png".to_string())
    );
    assert_eq!(c.pilots.card_image(&c.ships, &names, PilotId(999)), None);
    assert_eq!(
        c.upgrades.card_image(&names, UpgradeId(103)),
        Some("upgrades/talent/veteraninstincts.png".to_string())
    );
    assert_eq!(c.pilots.basic_for(TIE).unwrap().xws, "academypilot");
    assert_eq!(c.pilots.basic_for(ShipClassId(99)).map(|p| p.id), None);
    let turrets: Vec<u32> = c.upgrades.by_slot(Slot::Turret).iter().map(|u| u.id.0).collect();
    assert_eq!(turrets, vec![10, 13]);
    let ys: Vec<&str> =
        c.pilots.roster(ShipClassId(5), None).iter().map(|p| p.xws.as_str()).collect();
    assert_eq!(ys, vec!["goldsquadronpilot", "hortonsalm"]);
    assert!(c.pilots.roster(ShipClassId(5), Some(&[Source::Expansion])).is_empty());
}

#[test]
fn maneuvers_expand_into_templates() {
    assert_eq!(
        segments(m(Steer::KTurn, 4)),
        Ok(vec![Segment::Line(Template::Straight(4)), Segment::Rotate(4)])
    );
    assert_eq!(
        segments(m(Steer::TallonRight, 3)),
        Ok(vec![
            Segment::Arc { template: Template::Turn(3), eighths: -2 },
            Segment::Rotate(-2),
        ])
    );
    assert_eq!(plain(m(Steer::SegnorLeft, 2)), Some(m(Steer::BankLeft, 2)));
    assert_eq!(plain(m(Steer::Straight, 2)), None);
    assert!(segments(m(Steer::Straight, 0)).is_ok(), "a stop is a straight of no length");
    assert!(segments(m(Steer::TurnLeft, 0)).is_err());
    assert!(segments(m(Steer::KTurn, 0)).is_err() && segments(m(Steer::KTurn, 1)).is_ok());
}

#[test]
fn the_bot_weighs_maneuvers_by_rule() {
    let c = content();
    let mut gs = new_1v1(&c);
    place_both(&c, &mut gs);
    let ships = gs.snapshot_for(&c, P0);
    let bot = BotView { content: &c, ships: &ships, mission: None, turn: 1, seat: 0, team: 0 };
    let clear = Outlook {
        off: false,
        exit: Seat::North,
        bump: false,
        rock: false,
        at_satellite: false,
        in_arc: true,
        near_shuttle: false,
    };
    assert_eq!(
        bot.weigh(&ships[0], &m(Steer::Straight, 2), &clear),
        Some(Tactic { before: 0, base: 30, goal: Goal::Engage, after: 0 })
    );
    let rough = Outlook { bump: true, rock: true, in_arc: false, ..clear };
    let red = Maneuver { difficulty: Difficulty::Hard, ..m(Steer::KTurn, 3) };
    assert_eq!(
        bot.weigh(&ships[0], &red, &rough),
        Some(Tactic { before: -65, base: 10, goal: Goal::Approach, after: -3 })
    );
    let off = Outlook { off: true, ..clear };
    assert_eq!(bot.weigh(&ships[0], &m(Steer::Straight, 2), &off), None, "no way out there");
    assert!(bot.escape_edges(&ships[0]).is_empty());
    assert_eq!(bot.choose_action(&ships[0], &clear), PlannedAction::Focus);
    assert_eq!(safe_maneuver(&c, &ships[0]), Some(0), "the white turns 1 come first");
}

#[test]
fn dials_turn_to_the_nearest_speed() {
    let c = content();
    let mut gs = duel(&c, "obsidiansquadronpilot", "redsquadronveteran");
    let s4 = Maneuver { steer: Steer::Straight, distance: 4, difficulty: Difficulty::Normal };
    let ends = Ends { bad: vec![(Steer::Straight, 4), (Steer::Straight, 3)] };
    assert_eq!(gs.dial_rotation(&c, 1, &s4, &ends), None, "nobody turns the dial");
    gs.ships[1].upgrades.push(UpgradeId(159));
    let (found, who) = gs.dial_rotation(&c, 1, &s4, &ends).unwrap();
    assert_eq!((found.distance, who), (2, Turner::Navigator));
    let fine = Ends { bad: Vec::new() };
    assert_eq!(gs.dial_rotation(&c, 1, &s4, &fine), None, "a good end is kept");
}

#[test]
fn equal_skills_fire_in_one_group() {
    let c = content();
    let mut gs = skirmish(
        &c,
        &[
            ("academypilot", Pose::new(9.0, 2.5, FRAC_PI_2), 2),
            ("howlrunner", Pose::new(11.0, 2.5, FRAC_PI_2), 2),
        ],
        &[("bluesquadronnovice", Pose::new(10.0, 17.5, -FRAC_PI_2), 4)],
    );
    gs.commit_plans_begin(&c, P0, &mut always(7)).unwrap();
    gs.commit_plans_begin(&c, P1, &mut always(7)).unwrap();
    assert_eq!(
        gs.combat.as_ref().unwrap().groups,
        vec![vec![ShipId(1)], vec![ShipId(2)], vec![ShipId(0)]]
    );
    assert_eq!(gs.seat_ranks(), vec![1, 0], "the cheaper Rebels hold the initiative");
}

#[test]
fn names_are_compared_without_case() {
    assert!(is_alike("red-LEADER", "Red-Leader"));
    assert!(!is_alike("Red-2", "Red-3") && !is_alike("Red", "Red-2"));
    assert!(!is_alike("É", "é"), "only ASCII letters have a case here");
    assert!(is_same("abc", "abc") && !is_same("abc", "abC"));
}

#[test]
fn combat_ends_and_no_ship_comes_back() {
    let c = content();
    let mut gs = skirmish(
        &c,
        &[
            ("academypilot", Pose::new(9.0, 3.0, FRAC_PI_2), 2),
            ("howlrunner", Pose::new(11.0, 3.0, FRAC_PI_2), 2),
            ("academypilot", Pose::new(13.0, 3.0, FRAC_PI_2), 2),
        ],
        &[
            ("bluesquadronnovice", Pose::new(10.0, 13.0, -FRAC_PI_2), 1),
            ("bluesquadronnovice", Pose::new(12.0, 13.0, -FRAC_PI_2), 1),
        ],
    );
    for ship in gs.game.ships.iter_mut() {
        ship.shields = 0;
        ship.hull = 1;
    }
    let ids: Vec<ShipId> = gs.ships.iter().map(|s| s.id).collect();
    let mut dice = scripted(vec![0, 0, 0, 7, 7, 7, 7, 0, 1, 2, 3]);
    gs.commit_plans_begin(&c, P0, &mut dice).unwrap();
    gs.commit_plans_begin(&c, P1, &mut dice).unwrap();
    let mut lost: Vec<bool> = gs.ships.iter().map(|s| s.destroyed).collect();
    let mut attacks = 0;
    let mut steps = 0;
    loop {
        steps += 1;
        assert!(steps <= 20, "five ships have at most one choice and one shot each");
        let done = match gs.combat_step(&c, &mut dice).unwrap() {
            Step::NeedTarget(p) => {
                let (target, weapon) = gs.auto_target(&p).unwrap();
                gs.declare_target(&c, p.owner, target, weapon, &mut dice).unwrap();
                attacks += 1;
                false
            }
            Step::Attack(_) => {
                attacks += 1;
                false
            }
            Step::Done(_) => true,
        };
        let now: Vec<bool> = gs.ships.iter().map(|s| s.destroyed).collect();
        assert!(lost.iter().zip(&now).all(|(before, after)| !before || *after));
        assert_eq!(gs.ships.iter().map(|s| s.id).collect::<Vec<_>>(), ids);
        lost = now;
        if done {
            break;
        }
    }
    assert!(attacks >= 1 && lost.contains(&true), "somebody was shot down");
    assert!(gs.combat.is_none());
}

// ---------------- Damage cards and plain attacks ----------------

/// One attack by ship `a` on ship `d`, fired by hand.
fn shoot(
    c: &Content,
    gs: &mut Table,
    a: usize,
    d: usize,
    range: u8,
    weapon: Option<UpgradeId>,
    dice: &mut Dice,
) -> AttackRecord {
    let survey = gs.survey();
    let shot =
        Shot { d_idx: d, range, weapon, second: false, focus_hit: false, no_mods: false };
    gs.game.perform_attack_on(c, &survey.sight, &survey.moves[a], a, shot, dice)
}

/// Content whose card 1 is a four-dice weapon that asks for nothing.
fn four_dice() -> Content {
    let mut c = content();
    let card = c.upgrades.upgrades.iter_mut().find(|u| u.id == UpgradeId(1)).unwrap();
    card.effect = None;
    card.attack = Some(SecondaryWeapon {
        dice: 4,
        range_min: 1,
        range_max: 3,
        requires: AttackRequirement::Free,
        spend: false,
        discard_to_fire: false,
    });
    c
}

#[test]
fn weapon_malfunction_costs_a_die_of_the_primary_weapon_only() {
    let c = four_dice();
    let near = Pose::new(10.0, 8.0, -FRAC_PI_2);
    let mut gs = duel_at(&c, "academypilot", "bluesquadronnovice", near);
    gs.ships[1].upgrades.push(UpgradeId(1));
    gs.ships[1].crits.push(CritEffect::WeaponMalfunction);
    let record = shoot(&c, &mut gs, 1, 0, 2, Some(UpgradeId(1)), &mut always(7));
    assert_eq!(record.attack_faces.len(), 4);
    let record = shoot(&c, &mut gs, 1, 0, 2, None, &mut always(7));
    assert_eq!(record.attack_faces.len(), 2, "three dice, one lost");
}

#[test]
fn a_direct_hit_takes_hull_past_the_shields() {
    let c = content();
    let mut gs = duel(&c, "academypilot", "bluesquadronnovice");
    gs.ships[1].shields = 2;
    gs.ships[1].hull = 3;
    let extra = gs.game.apply_crit_effect(&c, 1, CritEffect::DirectHit, &mut always(7));
    assert_eq!(extra, (0, 1));
    assert_eq!((gs.ships[1].shields, gs.ships[1].hull), (2, 2));
    assert!(gs.ships[1].crits.is_empty());
}

#[test]
fn an_injured_pilot_ignores_talents() {
    let c = content();
    let mut gs = duel(&c, "academypilot", "bluesquadronnovice");
    gs.ships[1].upgrades.push(UpgradeId(103));
    gs.ships[1].upgrades.push(UpgradeId(86));
    let skill = gs.effective_skill(&c, &gs.ships[1]);
    gs.ships[1].crits.push(CritEffect::InjuredPilot);
    assert_eq!(gs.effective_skill(&c, &gs.ships[1]), skill - 2);
    assert!(!gs.has_effect(&c, 1, UpgradeEffect::SkillPlus2));
    assert_eq!(gs.card_with_effect(&c, 1, UpgradeEffect::SkillPlus2), None);
    assert!(gs.has_effect(&c, 1, UpgradeEffect::HullPlus1), "a modification still counts");
}

#[test]
fn damaged_sensors_leave_mines_alone() {
    let c = content();
    let mut gs = duel(&c, "academypilot", "bluesquadronnovice");
    let mines = UpgradeId(182);
    gs.ships[0].upgrades.push(mines);
    gs.ships[0].crits.push(CritEffect::DamagedSensorArray);
    gs.plan_action(&c, P0, ShipId(0), PlannedAction::DropMine(mines)).unwrap();
    let rec = resolve(&c, &mut gs, vec![7]);
    let mv = rec.moves.iter().find(|m| m.ship == ShipId(0)).unwrap();
    assert_eq!(mv.action_result, ActionResult::Performed);
}

#[test]
fn a_plain_attack_is_what_its_dice_leave() {
    let c = content();
    let near = Pose::new(11.5, 8.0, -FRAC_PI_2);
    let mut gs = duel_at(&c, "academypilot", "bluesquadronnovice", near);
    gs.ships[1].shields = 1;
    gs.ships[1].hull = 3;
    gs.ships[1].evade = 1;
    // The TIE rolls [Hit, Crit, Hit]; the X-Wing [Evade, Blank] and an evade
    // token; what is left is the critical, which the shield takes.
    let mut dice = scripted(vec![0, 3, 1, 0, 7, 7, 7, 7]);
    let record = shoot(&c, &mut gs, 0, 1, 1, None, &mut dice);
    let attack = AttackRoll::from_faces(record.attack_faces.clone());
    let mut defense = DefenseRoll::from_faces(record.defense_faces.clone());
    assert!(record.evade_spent);
    defense.evades += 1;
    let outcome = cancel(attack, defense);
    assert_eq!((record.hits, record.crits), (outcome.hits, outcome.crits));
    assert_eq!((record.hits, record.crits), (0, 1));
    let due = apply_damage(1, outcome);
    assert_eq!((due.shields_remaining, due.hull_damage, due.hull_crits), (0, 0, 0));
    assert_eq!((record.shields_lost, record.hull_lost), (1, 0));
    assert_eq!((gs.ships[1].shields, gs.ships[1].hull), (0, 3));
    assert!(!record.defender_destroyed);
}

#[test]
fn howlrunner_helps_primary_weapons_only() {
    let c = four_dice();
    let mut gs = skirmish(
        &c,
        &[
            ("academypilot", Pose::new(9.0, 4.0, FRAC_PI_2), 2),
            ("howlrunner", Pose::new(10.5, 4.0, FRAC_PI_2), 2),
        ],
        &[("bluesquadronnovice", Pose::new(9.0, 9.0, -FRAC_PI_2), 4)],
    );
    gs.ships[0].upgrades.push(UpgradeId(1));
    let mut dice = scripted(vec![7, 7, 7, 7, 0, 7, 7, 7, 7]);
    let record = shoot(&c, &mut gs, 0, 2, 2, Some(UpgradeId(1)), &mut dice);
    assert_eq!(record.attack_faces, vec![AttackFace::Blank; 4], "nobody rerolls a torpedo");
    let mut dice = scripted(vec![7, 7, 0, 7, 7, 7, 7]);
    let record = shoot(&c, &mut gs, 0, 2, 2, None, &mut dice);
    assert_eq!(record.attack_faces, vec![AttackFace::Hit, AttackFace::Blank]);
}

#[test]
fn the_second_lock_draws_the_automatic_choice_too() {
    let c = content();
    let mut gs = duel(&c, "academypilot", "bluesquadronnovice");
    let option = |id: u32, dist: u64| AttackOption {
        weapon: None,
        target: ShipId(id),
        range: 2,
        dist,
        obstructed: false,
    };
    let pending =
        PendingAttack { attacker: ShipId(0), owner: P0, options: vec![option(7, 1), option(8, 9)] };
    assert_eq!(gs.auto_target(&pending), Some((ShipId(7), None)), "the nearest");
    gs.ships[0].lock = Some(ShipId(5));
    gs.ships[0].lock2 = Some(ShipId(8));
    assert_eq!(gs.auto_target(&pending), Some((ShipId(8), None)), "the locked one");
}

#[test]
fn a_friend_notices_the_token_that_sensor_cluster_spends() {
    let c = content();
    let mut gs = skirmish(
        &c,
        &[
            ("academypilot", Pose::new(9.0, 4.0, FRAC_PI_2), 2),
            ("chaser", Pose::new(10.5, 4.0, FRAC_PI_2), 2),
        ],
        &[("bluesquadronnovice", Pose::new(11.0, 9.0, -FRAC_PI_2), 4)],
    );
    gs.ships[0].upgrades.push(UpgradeId(24));
    gs.ships[0].focus = 1;
    // [Hit, Blank, Blank] against blanks: the cluster turns one.
    let mut dice = scripted(vec![0, 7, 7, 7, 7, 7, 7, 7]);
    let record = shoot(&c, &mut gs, 2, 0, 2, None, &mut dice);
    assert_eq!((record.hits, record.crits), (0, 0));
    assert!(record.defender_focus_spent);
    assert_eq!((gs.ships[0].focus, gs.ships[1].focus), (0, 1));
}

#[test]
fn a_critical_that_destroys_a_ship_reached_its_hull() {
    let c = content();
    let mut gs = duel(&c, "academypilot", "bluesquadronnovice");
    gs.ships[0].shields = 0;
    gs.ships[0].hull = 1;
    let token = BombToken {
        id: 0,
        kind: BombKind::ProximityMine,
        card: UpgradeId(182),
        pose: gs.ships[0].pose.unwrap(),
        owner: P1,
    };
    let sight = gs.sight();
    let blast = gs.game.detonate(&c, &sight, token, &vec![0], &mut always(3));
    assert_eq!((blast.hits[0].damage, blast.hits[0].crits), (1, 1));
    assert!(blast.hits[0].destroyed);
}

#[test]
fn an_unanswered_question_is_asked_again() {
    let c = content();
    let mut gs = duel(&c, "academypilot", "bluesquadronnovice");
    let pending = PendingAttack { attacker: ShipId(0), owner: P0, options: Vec::new() };
    gs.game.phase = Phase::Combat;
    gs.game.combat = Some(CombatState {
        groups: Vec::new(),
        current: Vec::new(),
        pending: Some(pending.clone()),
        followup: None,
        attacks: Vec::new(),
    });
    let before = gs.game.clone();
    let survey = gs.survey();
    let mut dice = scripted(vec![0, 1, 2]);
    for _ in 0..3 {
        let step = gs.game.combat_step(&c, &survey, &mut dice).unwrap();
        assert_eq!(step, CombatStep::NeedTarget(pending.clone()));
        assert_eq!(gs.game, before);
    }
    assert_eq!(dice.roll(), 0, "no die was rolled");
}

#[test]
fn a_damaged_cockpit_waits_for_the_next_round() {
    let c = content();
    let mut gs = duel(&c, "academypilot", "bluesquadronnovice");
    let skill = gs.effective_skill(&c, &gs.ships[1]);
    assert!(skill > 0);
    gs.game.apply_crit_effect(&c, 1, CritEffect::DamagedCockpit, &mut always(7));
    assert_eq!(gs.ships[1].crits, vec![CritEffect::DamagedCockpit]);
    assert_eq!(gs.effective_skill(&c, &gs.ships[1]), skill, "not in this round");
    let sight = gs.sight();
    gs.game.finish_turn(&c, &sight, &mut always(7));
    assert_eq!(gs.effective_skill(&c, &gs.ships[1]), 0, "from the next round on");
    gs.game.apply_crit_effect(&c, 1, CritEffect::DamagedCockpit, &mut always(7));
    assert_eq!(gs.effective_skill(&c, &gs.ships[1]), 0, "the old card still counts");
    gs.game.apply_crit_effect(&c, 1, CritEffect::MinorHullBreach, &mut always(7));
    assert_eq!(gs.effective_skill(&c, &gs.ships[1]), skill, "only the new card is left");
}

#[test]
fn a_friend_notices_the_token_that_r5p9_trades() {
    let c = content();
    let mut gs = skirmish(
        &c,
        &[
            ("academypilot", Pose::new(9.0, 4.0, FRAC_PI_2), 2),
            ("chaser", Pose::new(10.5, 4.0, FRAC_PI_2), 2),
        ],
        &[("bluesquadronnovice", Pose::new(9.0, 14.0, -FRAC_PI_2), 4)],
    );
    gs.ships[0].upgrades.push(UpgradeId(51));
    gs.ships[0].upgrades.push(UpgradeId(87));
    gs.ships[0].focus = 1;
    gs.game.log.clear();
    let sight = gs.sight();
    gs.game.finish_turn(&c, &sight, &mut always(7));
    assert_eq!(gs.ships[0].shields, 1);
    let told = gs.combat_events(&c);
    let traded = told.iter().position(|e| e.contains("R5-P9")).unwrap();
    assert!(told[traded + 1].contains("friend spent one"), "{told:?}");
}

#[test]
fn every_focus_token_spent_is_noticed() {
    let mut c = content();
    let calculation = c.upgrades.upgrades.iter_mut().find(|u| u.id == UpgradeId(103)).unwrap();
    calculation.effect = Some(UpgradeEffect::FocusToCritSpendFocus);
    let mut gs = skirmish(
        &c,
        &[
            ("academypilot", Pose::new(9.0, 4.0, FRAC_PI_2), 2),
            ("chaser", Pose::new(10.5, 4.0, FRAC_PI_2), 2),
        ],
        &[("bluesquadronnovice", Pose::new(9.0, 9.0, -FRAC_PI_2), 4)],
    );
    gs.ships[0].upgrades.push(UpgradeId(103));
    gs.ships[0].upgrades.push(UpgradeId(20));
    gs.ships[0].focus = 2;
    // [Focus, Blank]: Calculation buys a critical, Weapons Guidance a hit.
    let mut dice = scripted(vec![4, 7, 7, 7, 7, 7, 7]);
    let record = shoot(&c, &mut gs, 0, 2, 2, None, &mut dice);
    assert_eq!(record.attack_faces, vec![AttackFace::Crit, AttackFace::Hit]);
    assert!(record.attacker_focus_spent);
    assert_eq!((gs.ships[0].focus, gs.ships[1].focus), (0, 2));
}

#[test]
fn red_ace_answers_to_any_shield_lost() {
    let c = content();
    let mut gs = duel(&c, "academypilot", "redace");
    gs.ships[1].crits.push(CritEffect::StunnedPilot);
    let shields = gs.ships[1].shields;
    gs.game.stun(&c, 1, true);
    assert_eq!((gs.ships[1].shields, gs.ships[1].evade), (shields - 1, 1));
    gs.game.stun(&c, 1, true);
    assert_eq!((gs.ships[1].shields, gs.ships[1].evade), (shields - 2, 1), "the first only");
}

#[test]
fn a_card_that_is_gone_leaves_a_plain_attack() {
    let c = content();
    let near = Pose::new(11.5, 8.0, -FRAC_PI_2);
    let mut gs = duel_at(&c, "academypilot", "bluesquadronnovice", near);
    // Actions taken with cards that have left the ship since.
    gs.ships[0].card_actions.push(UpgradeId(44));
    gs.ships[1].card_uses.push(UpgradeId(44));
    gs.ships[1].shields = 1;
    gs.ships[1].hull = 3;
    let mut dice = scripted(vec![0, 1, 2, 7, 7, 7, 7]);
    let record = shoot(&c, &mut gs, 0, 1, 1, None, &mut dice);
    let attack = AttackRoll::from_faces(record.attack_faces.clone());
    let defense = DefenseRoll::from_faces(record.defense_faces.clone());
    let outcome = cancel(attack, defense);
    assert_eq!((record.hits, record.crits), (outcome.hits, outcome.crits));
    let due = apply_damage(1, outcome);
    assert_eq!(record.shields_lost, 1 - due.shields_remaining);
    assert_eq!(record.hull_lost, due.hull_damage);
    assert_eq!((gs.ships[1].shields, gs.ships[1].hull), (0, 1));
}
