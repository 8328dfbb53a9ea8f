//! The start of the Activation phase, and the dial of the ship that acts.

#![verifier::loop_isolation(false)]

use vstd::prelude::*;

use crate::bombs::{BombToken, DropSpots};
use crate::data::{find_set, Content};
use crate::event::{Event, Turner, Why};
use crate::game::order::{ids, lined_up, movement_order, replacement, substitute_non_red};
use crate::game::state::{Game, GameState};
use crate::maneuver::{segments, Difficulty, Maneuver, Steer};
use crate::pick::{find, first, obeys};
use crate::pilot::PilotAbility;
use crate::ship::{ShipId, ShipModel};
use crate::sight::Sight;
use crate::upgrade::{UpgradeEffect, UpgradeId};

verus! {

broadcast use crate::game::state::framing;

/// The maneuver that a ship is about to fly.
#[derive(Debug, Clone, Copy, PartialEq, Eq, Structural)]
pub struct Course {
    pub maneuver: Maneuver,
    /// The color that it is flown in, whatever the dial shows.
    pub difficulty: Difficulty,
    /// The card that is discarded for that color.
    pub rush: Option<UpgradeId>,
}

/// Which maneuvers would take the ship off the board or onto another ship.
#[derive(Debug, Clone, PartialEq, Eq)]
pub struct Ends {
    pub bad: Vec<(Steer, u8)>,
}

impl Ends {
    /// The maneuver has no template, or would end badly.
    pub open spec fn ill(self, m: Maneuver) -> bool {
        !m.flyable() || self.bad@.contains((m.steer, m.distance))
    }

    /// Would the maneuver end badly?
    pub fn is_bad(&self, m: &Maneuver) -> (yes: bool)
        ensures
            yes == self.ill(*m),
    {
        if segments(*m).is_err() {
            return true;
        }
        let mut k: usize = 0;
        while k < self.bad.len()
            invariant
                k <= self.bad.len(),
                forall|j: int| 0 <= j < k ==> self.bad@[j] != (m.steer, m.distance),
            decreases self.bad.len() - k,
        {
            if self.bad[k].0 == m.steer && self.bad[k].1 == m.distance {
                assert(self.bad@[k as int] == (m.steer, m.distance));
                return true;
            }
            k = k + 1;
        }
        false
    }
}

/// How far apart two speeds are.
pub open spec fn gap(a: u8, b: u8) -> int {
    if a < b {
        b - a
    } else {
        a - b
    }
}

fn gap_of(a: u8, b: u8) -> (d: u8)
    ensures
        d == gap(a, b),
{
    if a < b {
        b - a
    } else {
        a - b
    }
}

/// The speeds of Tetran Cowall's Koiogran turn, nearest to the planned one
/// first.
pub open spec fn tetran_speeds(d: u8) -> (u8, u8, u8) {
    if d <= 2 {
        (1, 3, 5)
    } else if d == 3 {
        (3, 1, 5)
    } else if d == 4 {
        (3, 5, 1)
    } else {
        (5, 3, 1)
    }
}

/// Tetran Cowall tries the speed nearest to the planned one first.
pub proof fn tetran_tries_the_nearest_speed_first(d: u8)
    ensures
        ({
            let (a, b, c) = tetran_speeds(d);
            gap(a, d) <= gap(b, d) <= gap(c, d)
        }),
{
}

/// The speed that Juno Eclipse slows down to.
pub open spec fn slower(d: u8) -> u8 {
    if d <= 2 {
        1
    } else {
        (d - 1) as u8
    }
}

/// The speed that Juno Eclipse speeds up to.
pub open spec fn faster(d: u8) -> u8 {
    if d < u8::MAX {
        (d + 1) as u8
    } else {
        d
    }
}

/// The maneuver of the bearing and speed: the dial's entry when it has one,
/// else one of the planned color.
pub open spec fn at_speed(dial: Seq<Maneuver>, man: Maneuver, d: u8) -> Maneuver
    decreases dial.len(),
{
    if dial.len() == 0 {
        Maneuver { steer: man.steer, distance: d, difficulty: man.difficulty }
    } else if dial[0].steer == man.steer && dial[0].distance == d {
        dial[0]
    } else {
        at_speed(dial.skip(1), man, d)
    }
}

fn find_at_speed(dial: &Vec<Maneuver>, man: &Maneuver, d: u8) -> (m: Maneuver)
    ensures
        m == at_speed(dial@, *man, d),
{
    let mut k: usize = 0;
    assert(dial@.skip(0) =~= dial@);
    while k < dial.len()
        invariant
            k <= dial.len(),
            at_speed(dial@, *man, d) == at_speed(dial@.skip(k as int), *man, d),
        decreases dial.len() - k,
    {
        assert(dial@.skip(k as int).skip(1) =~= dial@.skip(k + 1));
        if dial[k].steer == man.steer && dial[k].distance == d {
            return dial[k];
        }
        k = k + 1;
    }
    Maneuver { steer: man.steer, distance: d, difficulty: man.difficulty }
}

/// The maneuver at another speed, if that helps.
pub open spec fn at_other_speed(dial: Seq<Maneuver>, man: Maneuver, ends: Ends, d: u8) -> Option<
    Maneuver,
> {
    if d == man.distance || ends.ill(at_speed(dial, man, d)) {
        None
    } else {
        Some(at_speed(dial, man, d))
    }
}

fn try_speed(dial: &Vec<Maneuver>, man: &Maneuver, ends: &Ends, d: u8) -> (m: Option<Maneuver>)
    ensures
        m == at_other_speed(dial@, *man, *ends, d),
{
    if d == man.distance {
        return None;
    }
    let m = find_at_speed(dial, man, d);
    if ends.is_bad(&m) {
        None
    } else {
        Some(m)
    }
}

/// The first of two that is there.
pub open spec fn either(a: Option<Maneuver>, b: Option<Maneuver>) -> Option<Maneuver> {
    if a is Some {
        a
    } else {
        b
    }
}

impl Game {
    /// Pilot skills in the Activation phase. Enhanced Scopes: skill 0.
    pub open spec fn moving_skills(self, content: Content) -> Seq<u8> {
        Seq::new(
            self.ships.len(),
            |k: int|
                if self.has(content, k, UpgradeEffect::SystemSkillZeroInActivation) {
                    0
                } else {
                    self.ships[k].skill(content)
                },
        )
    }

    /// The ships on the board in the order in which they move.
    pub open spec fn moving_order(self, content: Content) -> Seq<ShipId> {
        ids(
            lined_up(
                self.fighters(self.moving_skills(content), self.ships.len() as int),
                self.seat_ranks(),
                false,
            ),
        )
    }

    /// Every plan is a place on the dial of its ship.
    pub open spec fn plans_fit(self, content: Content) -> bool {
        forall|k: int|
            0 <= k < self.ships.len() && (#[trigger] self.ships[k]).plan is Some
                ==> self.ships[k].plan->0 < content.dial(self.ships[k].class).len()
    }

    /// The maneuver that the ship has dialed.
    pub open spec fn dialed(self, content: Content, i: int) -> Maneuver {
        content.dial(self.ships[i].class)[self.ships[i].plan->0 as int]
    }

    /// No ship has fired a Snap Shot yet.
    pub open spec fn snaps_ready(self) -> Game {
        Game {
            ships: Seq::new(
                self.ships.len(),
                |k: int| ShipModel { snap_shot_fired: false, ..self.ships[k] },
            ),
            ..self
        }
    }

    /// The dial of ship `e` can be read from ship `k`: a living enemy at
    /// Range 1-2.
    pub open spec fn readable(self, sight: Sight, k: int, e: int) -> bool {
        !self.ships[e].destroyed && !self.same_side(e, k) && self.ships[e].plan is Some
            && self.range(sight, k, e) is Some && self.range(sight, k, e)->0 <= 2
    }

    /// The nearest of the first `n` ships whose dial can be read.
    pub open spec fn spied(self, sight: Sight, k: int, n: int) -> Option<usize>
        decreases n,
    {
        if n <= 0 {
            None
        } else {
            let best = self.spied(sight, k, n - 1);
            if self.readable(sight, k, n - 1) && (best is None || self.range(sight, k, n - 1)->0
                < self.range(sight, k, best->0 as int)->0) {
                Some((n - 1) as usize)
            } else {
                best
            }
        }
    }

    /// Intelligence Agent (crew) of ship `k`: the nearest enemy dial at
    /// Range 1-2 is read out.
    pub open spec fn peeking(self, content: Content, sight: Sight, k: int) -> Game {
        let target = self.spied(sight, k, self.ships.len() as int);
        if !self.ships[k].destroyed && self.has(content, k, UpgradeEffect::CrewPeekEnemyDial)
            && target is Some {
            self.saying(
                Event::IntelligenceAgent(
                    k as usize,
                    target->0,
                    self.dialed(content, target->0 as int),
                ),
            )
        } else {
            self
        }
    }

    pub open spec fn peeking_by(self, content: Content, sight: Sight, n: int) -> Game
        decreases n,
    {
        if n <= 0 {
            self
        } else {
            self.peeking_by(content, sight, n - 1).peeking(content, sight, n - 1)
        }
    }

    pub open spec fn red_rule(self, content: Content, k: int) -> spec_fn(int) -> bool {
        |j: int|
            self.same_side(j, k) && !self.ships[j].destroyed && self.ships[j].plan is Some
                && self.difficulty(content, j, self.dialed(content, j)).0 == Difficulty::Hard
    }

    /// Leia Organa (crew) of ship `k`: discarded when a friendly ship has
    /// dialed a red maneuver.
    #[verifier::opaque]
    pub open spec fn leia(self, content: Content, k: int) -> Game {
        let owner = self.ships[k].owner.0 as int;
        let card = self.card(content, k, UpgradeEffect::CrewRedAsWhiteForAll);
        if !self.ships[k].destroyed && !self.white_reds[owner] && self.has(
            content,
            k,
            UpgradeEffect::CrewRedAsWhiteForAll,
        ) && first(self.red_rule(content, k), 0, self.ships.len() as int) is Some
            && card is Some {
            let g = self.discarding(content, k, card->0, Why::RedsFlownWhite);
            Game { white_reds: g.white_reds.update(owner, true), ..g }
        } else {
            self
        }
    }

    pub open spec fn leia_by(self, content: Content, n: int) -> Game
        decreases n,
    {
        if n <= 0 {
            self
        } else {
            self.leia_by(content, n - 1).leia(content, n - 1)
        }
    }

    /// The Activation phase has begun.
    #[verifier::opaque]
    pub open spec fn activated(self, content: Content, sight: Sight) -> Game {
        let n = self.ships.len() as int;
        self.snaps_ready().peeking_by(content, sight, n).leia_by(content, n)
    }

    /// The course of a maneuver flown by ship `i`.
    pub open spec fn course(self, content: Content, i: int, m: Maneuver) -> Course {
        let flown = self.difficulty(content, i, m);
        Course { maneuver: m, difficulty: flown.0, rush: flown.1 }
    }

    /// What ship `i` flies of its dial: a ship that is already stressed when
    /// it reveals a red maneuver flies a replacement.
    pub open spec fn shown(self, content: Content, i: int) -> Course {
        let c = self.course(content, i, self.dialed(content, i));
        let sub = replacement(self.ships[i].crits, content.dial(self.ships[i].class));
        if self.ships[i].stress > 0 && c.difficulty == Difficulty::Hard && sub is Some {
            self.course(content, i, sub->0)
        } else {
            c
        }
    }

    /// Ionized ships ignore their dial: a white straight 1, then the ion
    /// tokens come off.
    pub open spec fn drifting(self, content: Content, i: int) -> (Game, Course) {
        if self.ships[i].ion > 0 {
            (
                self.with_ship(i, ShipModel { ion: 0, ..self.ships[i] }).saying(
                    Event::Drifts(i as usize),
                ),
                Course {
                    maneuver: Maneuver {
                        steer: Steer::Straight,
                        distance: 1,
                        difficulty: Difficulty::Normal,
                    },
                    difficulty: Difficulty::Normal,
                    rush: None,
                },
            )
        } else {
            (self, self.shown(content, i))
        }
    }

    /// Dial-reveal bombs drop before the ship moves; Deathfire drops mines
    /// too.
    #[verifier::opaque]
    pub open spec fn bombing(self, content: Content, i: int, spots: DropSpots) -> (
        Game,
        Seq<BombToken>,
    ) {
        let g = self.with_ship(i, ShipModel { bomb: None, ..self.ships[i] });
        match self.ships[i].bomb {
            None => (g, Seq::empty()),
            Some(card) => match g.bomb(content, i, card) {
                None => (g, Seq::empty()),
                Some(kind) => if !kind.mine() || g.can(
                    content,
                    i,
                    PilotAbility::FreeBombActionOnRevealOrAction,
                ) {
                    (g.dropping(i, card, kind, spots), g.tokens(i, card, kind, spots))
                } else {
                    (g, Seq::empty())
                },
            },
        }
    }

    /// Ship `i` reveals its dial.
    #[verifier::opaque]
    pub open spec fn revealed(self, content: Content, i: int, spots: DropSpots) -> (
        Game,
        Course,
        Seq<BombToken>,
    ) {
        let (g, c) = self.drifting(content, i);
        let (b, tokens) = g.bombing(content, i, spots);
        (b, c, tokens)
    }

    /// May the Navigator turn the dial of ship `i` to a maneuver: of the
    /// same bearing and another speed, and not red while stressed?
    pub open spec fn navigable(self, content: Content, i: int, man: Maneuver, ends: Ends, m:
        Maneuver) -> bool {
        m.steer == man.steer && m.distance != man.distance && !(self.ships[i].stress > 0
            && self.difficulty(content, i, m).0 == Difficulty::Hard) && !ends.ill(m)
    }

    /// Where the Navigator turns the dial: the speed nearest to the planned
    /// one, the first on the dial of those as near.
    pub open spec fn navigated(
        self,
        content: Content,
        i: int,
        man: Maneuver,
        ends: Ends,
        dial: Seq<Maneuver>,
    ) -> Option<Maneuver>
        decreases dial.len(),
    {
        if dial.len() == 0 {
            None
        } else {
            let best = self.navigated(content, i, man, ends, dial.drop_last());
            let m = dial.last();
            if self.navigable(content, i, man, ends, m) && (best is None || gap(
                m.distance,
                man.distance,
            ) < gap(best->0.distance, man.distance)) {
                Some(m)
            } else {
                best
            }
        }
    }

    /// What Juno Eclipse or Tetran Cowall fly instead.
    pub open spec fn paced(self, content: Content, i: int, man: Maneuver, ends: Ends) -> Option<
        (Maneuver, Turner),
    > {
        let dial = content.dial(self.ships[i].class);
        let d = man.distance;
        if self.can(content, i, PilotAbility::AdjustManeuverSpeedBy1) {
            match either(
                at_other_speed(dial, man, ends, slower(d)),
                at_other_speed(dial, man, ends, faster(d)),
            ) {
                Some(m) => Some((m, Turner::JunoEclipse)),
                None => None,
            }
        } else if self.can(content, i, PilotAbility::KTurnSpeed1Or3Or5) && man.steer
            == Steer::KTurn {
            let (a, b, c) = tetran_speeds(d);
            match either(
                at_other_speed(dial, man, ends, a),
                either(at_other_speed(dial, man, ends, b), at_other_speed(dial, man, ends, c)),
            ) {
                Some(m) => Some((m, Turner::TetranCowall)),
                None => None,
            }
        } else {
            None
        }
    }

    /// Navigator (same bearing, any speed; no red while stressed) and Stay
    /// on Target (same speed, any bearing, flown as red): the replacement
    /// when the maneuver would leave the board or end on another ship. Juno
    /// Eclipse and Tetran Cowall change the speed before either.
    pub open spec fn rotation(self, content: Content, i: int, man: Maneuver, ends: Ends) -> Option<
        (Maneuver, Turner),
    > {
        let dial = content.dial(self.ships[i].class);
        let paced = self.paced(content, i, man, ends);
        let navigated = self.navigated(content, i, man, ends, dial);
        let stayed = first(stay_rule(dial, man, ends), 0, dial.len() as int);
        if self.ships[i].pose is None || !ends.ill(man) {
            None
        } else if paced is Some {
            paced
        } else if self.has(content, i, UpgradeEffect::CrewRotateDialSameBearing)
            && navigated is Some {
            Some((navigated->0, Turner::Navigator))
        } else if self.has(content, i, UpgradeEffect::RotateDialSameSpeedRed)
            && self.ships[i].stress == 0 && stayed is Some {
            Some(
                (
                    Maneuver { difficulty: Difficulty::Hard, ..dial[stayed->0 as int] },
                    Turner::StayOnTarget,
                ),
            )
        } else {
            None
        }
    }

    /// The dial of ship `i` is rotated where that helps.
    #[verifier::opaque]
    pub open spec fn rotated(self, content: Content, i: int, ends: Ends, c: Course) -> (
        Game,
        Course,
    ) {
        match self.rotation(content, i, c.maneuver, ends) {
            None => (self, c),
            Some((m, who)) => {
                let g = self.saying(Event::DialRotated(i as usize, who, m));
                (g, g.course(content, i, m))
            },
        }
    }
}

/// Stay on Target: the same speed, another bearing.
pub open spec fn stay_rule(dial: Seq<Maneuver>, man: Maneuver, ends: Ends) -> spec_fn(int) -> bool {
    |k: int|
        dial[k].distance == man.distance && dial[k].steer != man.steer && !ends.ill(dial[k])
}

fn find_stay(dial: &Vec<Maneuver>, man: &Maneuver, ends: &Ends) -> (place: Option<usize>)
    ensures
        place == first(stay_rule(dial@, *man, *ends), 0, dial@.len() as int),
        place is Some ==> place->0 < dial@.len(),
{
    let test = |k: usize| -> (yes: bool)
        requires
            k < dial@.len(),
        ensures
            yes == obeys(stay_rule(dial@, *man, *ends), k),
    {
        dial[k].distance == man.distance && dial[k].steer != man.steer && !ends.is_bad(&dial[k])
    };
    find(dial.len(), test, Ghost(stay_rule(dial@, *man, *ends)))
}

/// A rotated dial never ends the move badly: the replacement has a template
/// and stays on the board, clear of other ships.
pub proof fn a_rotated_dial_ends_well(
    g: Game,
    content: Content,
    i: int,
    man: Maneuver,
    ends: Ends,
)
    requires
        0 <= i < g.ships.len(),
    ensures
        match g.rotation(content, i, man, ends) {
            Some((m, who)) => ends.ill(man) && !ends.ill(m),
            None => true,
        },
{
    let class = g.ships[i].class;
    let dial = content.dial(class);
    let set = find_set(content.dials.sets@, content.chassis(class)->0.maneuver_set)->0;
    assert(dial.len() == set.maneuvers.len());
    navigated_ends_well(g, content, i, man, ends, dial);
    crate::pick::first_is_first(stay_rule(dial, man, ends), 0, dial.len() as int);
}

proof fn navigated_ends_well(
    g: Game,
    content: Content,
    i: int,
    man: Maneuver,
    ends: Ends,
    dial: Seq<Maneuver>,
)
    ensures
        g.navigated(content, i, man, ends, dial) is Some ==> !ends.ill(
            g.navigated(content, i, man, ends, dial)->0,
        ),
    decreases dial.len(),
{
    if dial.len() > 0 {
        navigated_ends_well(g, content, i, man, ends, dial.drop_last());
    }
}

impl GameState {
    /// The ships on the board in the order in which they move: lowest pilot
    /// skill first. Enhanced Scopes: skill 0.
    pub fn activation_order(&self, content: &Content) -> (order: Vec<ShipId>)
        requires
            self@.known(*content),
            self@.ranked_seats() <= u32::MAX,
        ensures
            order@ == self@.moving_order(*content),
    {
        let mut skills: Vec<u8> = Vec::new();
        let mut k: usize = 0;
        while k < self.ships.len()
            invariant
                k <= self.ships.len(),
                skills@.len() == k,
                forall|j: int|
                    0 <= j < k ==> skills@[j] == self@.moving_skills(*content)[j],
            decreases self.ships.len() - k,
        {
            assert(self@.frame().ships[k as int] == self@.ships[k as int].identity());
            let skill: u8 = if self.has_effect(
                content,
                k,
                UpgradeEffect::SystemSkillZeroInActivation,
            ) {
                0
            } else {
                self.effective_skill(content, &self.ships[k])
            };
            skills.push(skill);
            k = k + 1;
        }
        assert(skills@ =~= self@.moving_skills(*content));
        let movers = self.list_fighters(&skills);
        let ranks = self.seat_ranks();
        movement_order(movers.as_slice(), ranks.as_slice())
    }

    /// Is every plan a place on the dial of its ship?
    pub fn are_plans_fit(&self, content: &Content) -> (yes: bool)
        requires
            self@.known(*content),
        ensures
            yes == self@.plans_fit(*content),
    {
        let mut k: usize = 0;
        while k < self.ships.len()
            invariant
                k <= self.ships.len(),
                forall|j: int|
                    0 <= j < k && (#[trigger] self@.ships[j]).plan is Some
                        ==> self@.ships[j].plan->0 < content.dial(self@.ships[j].class).len(),
            decreases self.ships.len() - k,
        {
            if let Some(plan) = self.ships[k].plan {
                if plan as usize >= self.dial_of(content, k).len() {
                    assert(self@.ships[k as int].plan is Some);
                    return false;
                }
            }
            k = k + 1;
        }
        true
    }

    fn find_dialed(&self, content: &Content, i: usize) -> (m: Maneuver)
        requires
            i < self@.ships.len(),
            self@.known(*content),
            self@.ships[i as int].plan is Some,
            self@.ships[i as int].plan->0 < content.dial(self@.ships[i as int].class).len(),
        ensures
            m == self@.dialed(*content, i as int),
    {
        assert(self@.frame().ships[i as int] == self@.ships[i as int].identity());
        let dial = self.dial_of(content, i);
        match self.ships[i].plan {
            Some(plan) => dial[plan as usize],
            None => dial[0],
        }
    }

    /// The maneuvers on the dial of ship `i`.
    pub fn dial_of<'a>(&self, content: &'a Content, i: usize) -> (dial: &'a Vec<Maneuver>)
        requires
            i < self@.ships.len(),
            self@.known(*content),
        ensures
            dial@ == content.dial(self@.ships[i as int].class),
    {
        assert(self@.frame().ships[i as int] == self@.ships[i as int].identity());
        let class = self.class_of(content, &self.ships[i]);
        match content.dials.set(class.maneuver_set) {
            Some(set) => &set.maneuvers,
            None => {
                assert(false);
                &content.dials.sets[0].maneuvers
            },
        }
    }

    fn find_spied(&self, sight: &Sight, k: usize) -> (target: Option<usize>)
        requires
            k < self@.ships.len(),
        ensures
            target == self@.spied(*sight, k as int, self@.ships.len() as int),
            target is Some ==> target->0 < self@.ships.len() && self@.ships[target->0 as int].plan
                is Some,
    {
        let mut best: Option<usize> = None;
        let mut e: usize = 0;
        while e < self.ships.len()
            invariant
                e <= self.ships.len(),
                best == self@.spied(*sight, k as int, e as int),
                best is Some ==> best->0 < e && self@.readable(*sight, k as int, best->0 as int),
            decreases self.ships.len() - e,
        {
            if !self.ships[e].destroyed && !self.allied(self.ships[e].owner, self.ships[k].owner)
                && self.ships[e].plan.is_some() {
                if let Some(r) = self.range_between(sight, k, e) {
                    if r <= 2 {
                        let closer = match best {
                            None => true,
                            Some(b) => match self.range_between(sight, k, b) {
                                Some(rb) => r < rb,
                                None => false,
                            },
                        };
                        if closer {
                            best = Some(e);
                        }
                    }
                }
            }
            e = e + 1;
        }
        best
    }

    fn any_red(&self, content: &Content, k: usize) -> (yes: bool)
        requires
            k < self@.ships.len(),
            self@.known(*content),
            self@.plans_fit(*content),
        ensures
            yes == (first(self@.red_rule(*content, k as int), 0, self@.ships.len() as int)
                is Some),
    {
        let test = |j: usize| -> (yes: bool)
            requires
                j < self@.ships.len(),
            ensures
                yes == obeys(self@.red_rule(*content, k as int), j),
        {
            assert(self@.frame().ships[j as int] == self@.ships[j as int].identity());
            if self.allied(self.ships[j].owner, self.ships[k].owner) && !self.ships[j].destroyed
                && self.ships[j].plan.is_some() {
                let man = self.find_dialed(content, j);
                self.maneuver_difficulty(content, j, &man).0 == Difficulty::Hard
            } else {
                false
            }
        };
        find(self.ships.len(), test, Ghost(self@.red_rule(*content, k as int))).is_some()
    }

    fn use_leia(&mut self, content: &Content, k: usize)
        requires
            k < old(self)@.ships.len(),
            old(self)@.known(*content),
            old(self)@.plans_fit(*content),
        ensures
            final(self)@ == old(self)@.leia(*content, k as int),
            final(self)@.frame() == old(self)@.frame(),
            final(self)@.plans_fit(*content),
    {
        reveal(Game::leia);
        assert(self@.frame().ships[k as int] == self@.ships[k as int].identity());
        let owner: usize = self.ships[k].owner.0 as usize;
        if self.ships[k].destroyed || self.white_reds[owner] || !self.has_effect(
            content,
            k,
            UpgradeEffect::CrewRedAsWhiteForAll,
        ) {
            return;
        }
        if self.any_red(content, k) {
            if let Some(card) = self.card_with_effect(
                content,
                k,
                UpgradeEffect::CrewRedAsWhiteForAll,
            ) {
                self.discard_card(content, k, card, Why::RedsFlownWhite);
                let ghost g = self@;
                self.white_reds.set(owner, true);
                assert(self@.frame().ships =~= g.frame().ships);
            }
        }
    }

    /// The Activation phase begins: Snap Shots are ready, Intelligence
    /// Agents read out dials (flavour only — plans are already fixed), and
    /// Leia Organa is discarded when a friendly ship reveals a red maneuver.
    pub fn begin_activation(&mut self, content: &Content, sight: &Sight)
        requires
            old(self)@.known(*content),
            old(self)@.plans_fit(*content),
        ensures
            final(self)@ == old(self)@.activated(*content, *sight),
            final(self)@.frame() == old(self)@.frame(),
            final(self)@.plans_fit(*content),
    {
        reveal(Game::activated);
        let n: usize = self.ships.len();
        let mut k: usize = 0;
        while k < n
            invariant
                k <= n,
                n == self@.ships.len(),
                n == old(self)@.ships.len(),
                self@ == (Game { ships: self@.ships, ..old(self)@ }),
                forall|j: int|
                    0 <= j < n ==> #[trigger] self@.ships[j] == (if j < k {
                        old(self)@.snaps_ready().ships[j]
                    } else {
                        old(self)@.ships[j]
                    }),
            decreases n - k,
        {
            self.ship_mut(k).snap_shot_fired = false;
            k = k + 1;
        }
        assert(self@.ships =~= old(self)@.snaps_ready().ships);
        assert(self@.frame().ships =~= old(self)@.frame().ships);
        assert(self@.plans_fit(*content)) by {
            assert forall|j: int|
                0 <= j < self@.ships.len() && (#[trigger] self@.ships[j]).plan is Some implies
                self@.ships[j].plan->0 < content.dial(self@.ships[j].class).len() by {
                assert(old(self)@.ships[j].plan is Some);
            }
        }
        let ghost ready = self@;
        let mut k: usize = 0;
        while k < n
            invariant
                k <= n,
                n == self@.ships.len(),
                self@ == ready.peeking_by(*content, *sight, k as int),
                self@.frame() == ready.frame(),
                self@.ships == ready.ships,
                self@.plans_fit(*content),
            decreases n - k,
        {
            if !self.ships[k].destroyed && self.has_effect(
                content,
                k,
                UpgradeEffect::CrewPeekEnemyDial,
            ) {
                if let Some(e) = self.find_spied(sight, k) {
                    assert(self@.ships[e as int].plan is Some);
                    let man = self.find_dialed(content, e);
                    self.say(Event::IntelligenceAgent(k, e, man));
                }
            }
            k = k + 1;
        }
        let ghost read = self@;
        let mut k: usize = 0;
        while k < n
            invariant
                k <= n,
                n == self@.ships.len(),
                self@ == read.leia_by(*content, k as int),
                self@.frame() == ready.frame(),
                self@.plans_fit(*content),
            decreases n - k,
        {
            self.use_leia(content, k);
            k = k + 1;
        }
    }

    fn find_course(&self, content: &Content, i: usize, m: Maneuver) -> (c: Course)
        requires
            i < self@.ships.len(),
            self@.known(*content),
        ensures
            c == self@.course(*content, i as int, m),
    {
        assert(self@.frame().ships[i as int] == self@.ships[i as int].identity());
        let flown = self.maneuver_difficulty(content, i, &m);
        Course { maneuver: m, difficulty: flown.0, rush: flown.1 }
    }

    fn find_shown(&self, content: &Content, i: usize) -> (c: Course)
        requires
            i < self@.ships.len(),
            self@.known(*content),
            self@.ships[i as int].plan is Some,
            self@.ships[i as int].plan->0 < content.dial(self@.ships[i as int].class).len(),
        ensures
            c == self@.shown(*content, i as int),
    {
        let man = self.find_dialed(content, i);
        let c = self.find_course(content, i, man);
        if self.ships[i].stress > 0 && c.difficulty == Difficulty::Hard {
            let dial = self.dial_of(content, i);
            if let Some(sub) = substitute_non_red(
                dial.as_slice(),
                self.ships[i].crits.as_slice(),
            ) {
                return self.find_course(content, i, sub);
            }
        }
        c
    }

    fn drop_on_reveal(&mut self, content: &Content, spots: DropSpots, i: usize) -> (dropped: Vec<
        BombToken,
    >)
        requires
            i < old(self)@.ships.len(),
        ensures
            (final(self)@, dropped@) == old(self)@.bombing(*content, i as int, spots),
            final(self)@.frame() == old(self)@.frame(),
    {
        reveal(Game::bombing);
        let mut tokens: Vec<BombToken> = Vec::new();
        assert(tokens@ =~= Seq::empty());
        let bomb = self.ships[i].bomb;
        self.ship_mut(i).bomb = None;
        if let Some(card) = bomb {
            if let Some(kind) = self.bomb_kind(content, i, card) {
                if !kind.is_mine() || self.has_ability(
                    content,
                    i,
                    PilotAbility::FreeBombActionOnRevealOrAction,
                ) {
                    tokens = self.drop_bomb(i, card, kind, spots);
                }
            }
        }
        tokens
    }

    /// Ship `i` reveals its dial: what it flies, and what it drops before it
    /// moves.
    pub fn reveal_dial(&mut self, content: &Content, spots: DropSpots, i: usize) -> (shown: (
        Course,
        Vec<BombToken>,
    ))
        requires
            i < old(self)@.ships.len(),
            old(self)@.known(*content),
            old(self)@.ships[i as int].plan is Some,
            old(self)@.ships[i as int].plan->0 < content.dial(
                old(self)@.ships[i as int].class,
            ).len(),
        ensures
            (final(self)@, shown.0, shown.1@) == old(self)@.revealed(*content, i as int, spots),
            final(self)@.frame() == old(self)@.frame(),
    {
        reveal(Game::revealed);
        // Ionized ships ignore their dial: a white straight 1, then the
        // ion tokens come off.
        let course = if self.ships[i].ion > 0 {
            self.ship_mut(i).ion = 0;
            self.say(Event::Drifts(i));
            Course {
                maneuver: Maneuver {
                    steer: Steer::Straight,
                    distance: 1,
                    difficulty: Difficulty::Normal,
                },
                difficulty: Difficulty::Normal,
                rush: None,
            }
        } else {
            self.find_shown(content, i)
        };
        let tokens = self.drop_on_reveal(content, spots, i);
        (course, tokens)
    }

    fn find_navigated(&self, content: &Content, i: usize, man: &Maneuver, ends: &Ends) -> (m: Option<
        Maneuver,
    >)
        requires
            i < self@.ships.len(),
            self@.known(*content),
        ensures
            m == self@.navigated(
                *content,
                i as int,
                *man,
                *ends,
                content.dial(self@.ships[i as int].class),
            ),
    {
        assert(self@.frame().ships[i as int] == self@.ships[i as int].identity());
        let dial = self.dial_of(content, i);
        let mut best: Option<Maneuver> = None;
        let mut k: usize = 0;
        while k < dial.len()
            invariant
                k <= dial.len(),
                best == self@.navigated(*content, i as int, *man, *ends, dial@.take(k as int)),
            decreases dial.len() - k,
        {
            assert(dial@.take(k + 1).drop_last() =~= dial@.take(k as int));
            let m = dial[k];
            if m.steer == man.steer && m.distance != man.distance && !(self.ships[i].stress > 0
                && self.maneuver_difficulty(content, i, &m).0 == Difficulty::Hard)
                && !ends.is_bad(&m) {
                let nearer = match best {
                    None => true,
                    Some(b) => gap_of(m.distance, man.distance) < gap_of(b.distance, man.distance),
                };
                if nearer {
                    best = Some(m);
                }
            }
            k = k + 1;
        }
        assert(dial@.take(k as int) =~= dial@);
        best
    }

    fn find_paced(&self, content: &Content, i: usize, man: &Maneuver, ends: &Ends) -> (turn: Option<
        (Maneuver, Turner),
    >)
        requires
            i < self@.ships.len(),
            self@.known(*content),
        ensures
            turn == self@.paced(*content, i as int, *man, *ends),
    {
        let dial = self.dial_of(content, i);
        let d: u8 = man.distance;
        // Juno Eclipse: the same bearing one speed slower or faster (the
        // dial's entry when it has one). Tetran Cowall: a Koiogran turn
        // at speed 1, 3 or 5, nearest to the planned speed first.
        if self.has_ability(content, i, PilotAbility::AdjustManeuverSpeedBy1) {
            let down: u8 = if d <= 2 {
                1
            } else {
                d - 1
            };
            if let Some(m) = try_speed(dial, man, ends, down) {
                return Some((m, Turner::JunoEclipse));
            }
            match try_speed(dial, man, ends, d.saturating_add(1)) {
                Some(m) => Some((m, Turner::JunoEclipse)),
                None => None,
            }
        } else if self.has_ability(content, i, PilotAbility::KTurnSpeed1Or3Or5) && man.steer
            == Steer::KTurn {
            let speeds: (u8, u8, u8) = if d <= 2 {
                (1, 3, 5)
            } else if d == 3 {
                (3, 1, 5)
            } else if d == 4 {
                (3, 5, 1)
            } else {
                (5, 3, 1)
            };
            if let Some(m) = try_speed(dial, man, ends, speeds.0) {
                return Some((m, Turner::TetranCowall));
            }
            if let Some(m) = try_speed(dial, man, ends, speeds.1) {
                return Some((m, Turner::TetranCowall));
            }
            match try_speed(dial, man, ends, speeds.2) {
                Some(m) => Some((m, Turner::TetranCowall)),
                None => None,
            }
        } else {
            None
        }
    }

    /// Navigator (same bearing, any speed; no red while stressed) and Stay
    /// on Target (same speed, any bearing, flown as red): the replacement
    /// maneuver when `man` would leave the board or end on another ship.
    pub fn dial_rotation(&self, content: &Content, i: usize, man: &Maneuver, ends: &Ends) -> (turn:
        Option<(Maneuver, Turner)>)
        requires
            i < self@.ships.len(),
            self@.known(*content),
        ensures
            turn == self@.rotation(*content, i as int, *man, *ends),
    {
        if self.ships[i].pose.is_none() || !ends.is_bad(man) {
            return None;
        }
        let paced = self.find_paced(content, i, man, ends);
        if paced.is_some() {
            return paced;
        }
        if self.has_effect(content, i, UpgradeEffect::CrewRotateDialSameBearing) {
            if let Some(m) = self.find_navigated(content, i, man, ends) {
                return Some((m, Turner::Navigator));
            }
        }
        if self.has_effect(content, i, UpgradeEffect::RotateDialSameSpeedRed)
            && self.ships[i].stress == 0 {
            let dial = self.dial_of(content, i);
            if let Some(k) = find_stay(dial, man, ends) {
                let m = Maneuver { difficulty: Difficulty::Hard, ..dial[k] };
                return Some((m, Turner::StayOnTarget));
            }
        }
        None
    }

    /// Rotate the dial of ship `i` where that helps: what it flies then.
    pub fn rotate_dial(&mut self, content: &Content, ends: &Ends, i: usize, course: Course) -> (flown:
        Course)
        requires
            i < old(self)@.ships.len(),
            old(self)@.known(*content),
        ensures
            (final(self)@, flown) == old(self)@.rotated(*content, i as int, *ends, course),
            final(self)@.frame() == old(self)@.frame(),
    {
        reveal(Game::rotated);
        match self.dial_rotation(content, i, &course.maneuver, ends) {
            None => course,
            Some((m, who)) => {
                self.say(Event::DialRotated(i, who, m));
                self.find_course(content, i, m)
            },
        }
    }
}

} // verus!
