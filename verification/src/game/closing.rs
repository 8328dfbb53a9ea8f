//! The end of the Activation phase: black holes, bombs and burning consoles.

#![verifier::loop_isolation(false)]

use vstd::prelude::*;

use crate::bombs::{BombToken, Detonation, DetonationModel};
use crate::crit::{has_crit, CritEffect};
use crate::data::Content;
use crate::dice::{attack_face, AttackFace, Dice};
use crate::event::Event;
use crate::game::state::{views, Game, GameState, Play};
use crate::geometry::Pose;
use crate::obstacle::{Obstacle, ObstacleKind, Pull};
use crate::ship::ShipModel;
use crate::sight::Sight;

verus! {

broadcast use crate::game::state::framing;

/// One pose on the way toward a black hole.
#[derive(Debug, Clone, Copy, PartialEq, Eq, Structural)]
pub struct Drag {
    pub pose: Pose,
    /// The base would overlap another ship there.
    pub blocked: bool,
    /// The base would reach the core there.
    pub in_core: bool,
}

/// Where a ship is dragged: step by step until another ship is in the way or
/// the core is reached, and whether it was.
pub open spec fn dragged(steps: Seq<Drag>, k: int, from: Pose) -> (Pose, bool)
    decreases steps.len() - k,
{
    if k < 0 || k >= steps.len() || steps[k].blocked {
        (from, false)
    } else if steps[k].in_core {
        (steps[k].pose, true)
    } else {
        dragged(steps, k + 1, steps[k].pose)
    }
}

/// The black holes among the first `n` obstacles.
pub open spec fn holes_among(all: Seq<Obstacle>, n: int) -> Seq<Obstacle>
    decreases n,
{
    if n <= 0 {
        Seq::empty()
    } else if all[n - 1].kind == ObstacleKind::BlackHole {
        holes_among(all, n - 1).push(all[n - 1])
    } else {
        holes_among(all, n - 1)
    }
}

/// The dial-reveal bombs among the first `n` tokens.
pub open spec fn armed_among(all: Seq<BombToken>, n: int) -> Seq<BombToken>
    decreases n,
{
    if n <= 0 {
        Seq::empty()
    } else if all[n - 1].kind.mine() {
        armed_among(all, n - 1)
    } else {
        armed_among(all, n - 1).push(all[n - 1])
    }
}

impl Game {
    /// A black hole drags ship `i` along the steps toward its core.
    #[verifier::opaque]
    pub open spec fn pulled(self, i: int, hole: u32, steps: Seq<Drag>) -> (Game, Option<Pull>) {
        let s = self.ships[i];
        if s.destroyed || s.pose is None {
            (self, None)
        } else {
            let (to, swallowed) = dragged(steps, 0, s.pose->0);
            if to == s.pose->0 {
                (self, None)
            } else {
                (
                    self.with_ship(
                        i,
                        ShipModel { pose: Some(to), destroyed: s.destroyed || swallowed, ..s },
                    ).saying(
                        if swallowed {
                            Event::DraggedIn(i as usize)
                        } else {
                            Event::Pulled(i as usize)
                        },
                    ),
                    Some(Pull { ship: s.id, hole, from: s.pose->0, to, swallowed }),
                )
            }
        }
    }
}

impl Play {
    /// The bombs from the `k`-th on go off, each against the ships near it.
    pub open spec fn exploding(
        self,
        content: Content,
        sight: Sight,
        armed: Seq<BombToken>,
        within: Seq<Vec<bool>>,
        k: int,
        done: Seq<DetonationModel>,
    ) -> (Play, Seq<DetonationModel>)
        decreases armed.len() - k,
    {
        if k >= armed.len() {
            (self, done)
        } else {
            let p = self.at(self.game.cleared_of(armed[k].id));
            let near = if 0 <= k < within.len() {
                within[k]@
            } else {
                Seq::empty()
            };
            let (q, hits) = p.detonated(content, sight, armed[k].kind, p.game.victims(near));
            q.exploding(
                content,
                sight,
                armed,
                within,
                k + 1,
                done.push(DetonationModel { token: armed[k], hits }),
            )
        }
    }

    /// Every dial-reveal bomb goes off against all ships (either side) within
    /// Range 1 of its token.
    #[verifier::opaque]
    pub open spec fn exploded(self, content: Content, sight: Sight, within: Seq<Vec<bool>>) -> (
        Play,
        Seq<DetonationModel>,
    ) {
        self.exploding(
            content,
            sight,
            armed_among(self.game.bombs, self.game.bombs.len() as int),
            within,
            0,
            Seq::empty(),
        )
    }

    /// Console Fire on ship `i`: one attack die, 1 damage on a hit.
    pub open spec fn singed(self, content: Content, i: int) -> Play {
        let s = self.game.ships[i];
        if !s.destroyed && s.pose is Some && s.crits.contains(CritEffect::ConsoleFire) {
            if attack_face(self.shows()) == AttackFace::Hit {
                let g = self.game.damaged(i);
                self.rolled().at(g).saying(
                    Event::ConsoleFire(i as usize, g.ships[i].destroyed),
                ).shields_watched(content, i, s.shields)
            } else {
                self.rolled()
            }
        } else {
            self
        }
    }

    /// Console Fire on the first `n` ships.
    pub open spec fn burned_by(self, content: Content, n: int) -> Play
        decreases n,
    {
        if n <= 0 {
            self
        } else {
            self.burned_by(content, n - 1).singed(content, n - 1)
        }
    }
}

/// No bomb that explodes at the end of the Activation phase is a mine.
pub proof fn mines_stay_on_the_board(all: Seq<BombToken>, n: int)
    requires
        n <= all.len(),
    ensures
        forall|k: int|
            0 <= k < armed_among(all, n).len() ==> !(#[trigger] armed_among(all, n)[k]).kind.mine(),
    decreases n,
{
    if n > 0 {
        mines_stay_on_the_board(all, n - 1);
        let rest = armed_among(all, n - 1);
        assert forall|k: int| 0 <= k < armed_among(all, n).len() implies !(
        #[trigger] armed_among(all, n)[k]).kind.mine() by {
            if k < rest.len() {
                assert(armed_among(all, n)[k] == rest[k]);
            }
        }
    }
}

impl GameState {
    /// The black holes on the board.
    pub fn black_holes(&self) -> (holes: Vec<Obstacle>)
        ensures
            holes@ == holes_among(self@.obstacles, self@.obstacles.len() as int),
    {
        let mut holes: Vec<Obstacle> = Vec::new();
        let mut k: usize = 0;
        assert(holes@ =~= Seq::empty());
        while k < self.obstacles.len()
            invariant
                k <= self.obstacles.len(),
                holes@ == holes_among(self@.obstacles, k as int),
            decreases self.obstacles.len() - k,
        {
            if self.obstacles[k].kind == ObstacleKind::BlackHole {
                holes.push(self.obstacles[k]);
            }
            k = k + 1;
        }
        holes
    }

    /// Black holes: every ship within Range 5 of a core is dragged one
    /// unit straight toward it, heading unchanged, stopping short of any
    /// ship in the way; a base that reaches the core is swallowed. The
    /// steps are those of ship `i`, none when it is out of reach.
    pub fn gravity_pull(&mut self, hole: u32, i: usize, steps: &Vec<Drag>) -> (pull: Option<Pull>)
        requires
            i < old(self)@.ships.len(),
        ensures
            (final(self)@, pull) == old(self)@.pulled(i as int, hole, steps@),
            final(self)@.frame() == old(self)@.frame(),
    {
        reveal(Game::pulled);
        if self.ships[i].destroyed {
            return None;
        }
        let from = match self.ships[i].pose {
            None => return None,
            Some(pose) => pose,
        };
        let mut to = from;
        let mut swallowed = false;
        let mut k: usize = 0;
        while k < steps.len() && !steps[k].blocked && !swallowed
            invariant
                k <= steps.len(),
                !swallowed ==> dragged(steps@, k as int, to) == dragged(steps@, 0, from),
                swallowed ==> (to, true) == dragged(steps@, 0, from),
            decreases steps.len() - k,
        {
            to = steps[k].pose;
            if steps[k].in_core {
                swallowed = true;
            }
            k = k + 1;
        }
        assert((to, swallowed) == dragged(steps@, 0, from));
        if to == from {
            return None;
        }
        let s = self.ship_mut(i);
        s.pose = Some(to);
        let ship = s.id;
        if swallowed {
            s.destroyed = true;
            self.say(Event::DraggedIn(i));
        } else {
            self.say(Event::Pulled(i));
        }
        Some(Pull { ship, hole, from, to, swallowed })
    }

    /// The dial-reveal bombs on the board.
    pub fn armed_bombs(&self) -> (armed: Vec<BombToken>)
        ensures
            armed@ == armed_among(self@.bombs, self@.bombs.len() as int),
    {
        let mut armed: Vec<BombToken> = Vec::new();
        let mut k: usize = 0;
        assert(armed@ =~= Seq::empty());
        while k < self.bombs.len()
            invariant
                k <= self.bombs.len(),
                armed@ == armed_among(self@.bombs, k as int),
            decreases self.bombs.len() - k,
        {
            if !self.bombs[k].kind.is_mine() {
                armed.push(self.bombs[k]);
            }
            k = k + 1;
        }
        armed
    }

    /// End of the Activation phase: every dial-reveal bomb goes off
    /// against all ships (either side) within Range 1 of its token;
    /// `within` marks those ships for each of the bombs.
    pub fn explode_bombs(
        &mut self,
        content: &Content,
        sight: &Sight,
        within: &Vec<Vec<bool>>,
        dice: &mut Dice,
    ) -> (detonations: Vec<Detonation>)
        requires
            old(self)@.known(*content),
        ensures
            (Play { game: final(self)@, dice: final(dice)@ }, views(detonations@)) == (Play {
                game: old(self)@,
                dice: old(dice)@,
            }).exploded(*content, *sight, within@),
            final(self)@.frame() == old(self)@.frame(),
    {
        reveal(Play::exploded);
        let armed = self.armed_bombs();
        let nobody: Vec<bool> = Vec::new();
        assert(nobody@ =~= Seq::empty());
        let mut done: Vec<Detonation> = Vec::new();
        assert(views(done@) =~= Seq::empty());
        let mut k: usize = 0;
        while k < armed.len()
            invariant
                k <= armed.len(),
                self@.frame() == old(self)@.frame(),
                (Play { game: self@, dice: dice@ }).exploding(
                    *content,
                    *sight,
                    armed@,
                    within@,
                    k as int,
                    views(done@),
                ) == (Play { game: old(self)@, dice: old(dice)@ }).exploding(
                    *content,
                    *sight,
                    armed@,
                    within@,
                    0,
                    Seq::empty(),
                ),
            decreases armed.len() - k,
        {
            let token = armed[k];
            self.remove_token(token.id);
            let near: &Vec<bool> = if k < within.len() {
                &within[k]
            } else {
                &nobody
            };
            let victims = self.find_victims(near);
            let ghost before = views(done@);
            let detonation = self.detonate(content, sight, token, &victims, dice);
            let ghost model = detonation@;
            done.push(detonation);
            assert(views(done@) =~= before.push(model));
            k = k + 1;
        }
        done
    }

    /// Console Fire burns at the start of each Combat phase: one attack
    /// die per burning ship, 1 damage on a Hit.
    pub fn burn_consoles(&mut self, content: &Content, dice: &mut Dice)
        ensures
            (Play { game: final(self)@, dice: final(dice)@ }) == (Play {
                game: old(self)@,
                dice: old(dice)@,
            }).burned_by(*content, old(self)@.ships.len() as int),
            final(self)@.frame() == old(self)@.frame(),
    {
        let n: usize = self.ships.len();
        let mut i: usize = 0;
        while i < n
            invariant
                i <= n,
                n == self@.ships.len(),
                self@.frame() == old(self)@.frame(),
                (Play { game: self@, dice: dice@ }) == (Play {
                    game: old(self)@,
                    dice: old(dice)@,
                }).burned_by(*content, i as int),
            decreases n - i,
        {
            if !self.ships[i].destroyed && self.ships[i].pose.is_some() && has_crit(
                self.ships[i].crits.as_slice(),
                CritEffect::ConsoleFire,
            ) {
                if AttackFace::from_d8(dice.roll()) == AttackFace::Hit {
                    let shields: u8 = self.ships[i].shields;
                    self.damage_point(i);
                    let died = self.ships[i].destroyed;
                    self.say(Event::ConsoleFire(i, died));
                    self.watch_shields(content, i, shields);
                }
            }
            i = i + 1;
        }
    }
}

} // verus!
