//! Custom d8 combat dice.
//!
//! Red ATTACK die (50% natural damage):  Hit x3, Crit x1, Focus x2, Blank x2.
//! Green DEFENSE die (37.5% natural dodge): Evade x3, Focus x2, Blank x3.
//!
//! Focus tokens convert every Focus face to a Hit (attacking) or Evade
//! (defending). A Target Lock lets the attacker reroll blanks.
//!
//! This module is deterministic: callers supply the randomness as raw d8
//! values, so every resolution is replayable.

use vstd::prelude::*;

verus! {

/// How often `x` occurs in `s`.
pub open spec fn count<T>(s: Seq<T>, x: T) -> nat
    decreases s.len(),
{
    if s.len() == 0 {
        0
    } else {
        count(s.drop_last(), x) + if s.last() == x { 1nat } else { 0nat }
    }
}

/// Appending one element adds one to the count of that element alone.
pub proof fn count_push<T>(s: Seq<T>, x: T, y: T)
    ensures
        count(s.push(y), x) == count(s, x) + if y == x { 1nat } else { 0nat },
{
    assert(s.push(y).drop_last() =~= s);
}

/// An element occurs at most as often as there are places for it.
pub proof fn count_bounded<T>(s: Seq<T>, x: T)
    ensures
        count(s, x) <= s.len(),
    decreases s.len(),
{
    if s.len() > 0 {
        count_bounded(s.drop_last(), x);
    }
}

/// Replacing one element moves one from the old element's count to the new
/// one's.
pub proof fn count_update<T>(s: Seq<T>, i: int, y: T, x: T)
    requires
        0 <= i < s.len(),
    ensures
        count(s.update(i, y), x) + if s[i] == x { 1nat } else { 0nat }
            == count(s, x) + if y == x { 1nat } else { 0nat },
    decreases s.len(),
{
    if i == s.len() - 1 {
        assert(s.update(i, y).drop_last() =~= s.drop_last());
    } else {
        assert(s.update(i, y).drop_last() =~= s.drop_last().update(i, y));
        count_update(s.drop_last(), i, y, x);
    }
}

#[derive(Debug, Clone, Copy, PartialEq, Eq, Structural)]
pub enum AttackFace {
    Hit,
    Crit,
    Focus,
    Blank,
}

/// The layout of the attack die.
pub open spec fn attack_face(v: u8) -> AttackFace {
    let side = v % 8;
    if side <= 2 {
        AttackFace::Hit
    } else if side == 3 {
        AttackFace::Crit
    } else if side <= 5 {
        AttackFace::Focus
    } else {
        AttackFace::Blank
    }
}

impl AttackFace {
    /// Face shown for a d8 value (0..=7 — larger values wrap).
    pub fn from_d8(v: u8) -> (face: Self)
        ensures
            face == attack_face(v),
    {
        match v % 8 {
            0 | 1 | 2 => AttackFace::Hit,
            3 => AttackFace::Crit,
            4 | 5 => AttackFace::Focus,
            _ => AttackFace::Blank,
        }
    }
}

#[derive(Debug, Clone, Copy, PartialEq, Eq, Structural)]
pub enum DefenseFace {
    Evade,
    Focus,
    Blank,
}

/// The layout of the defense die.
pub open spec fn defense_face(v: u8) -> DefenseFace {
    let side = v % 8;
    if side <= 2 {
        DefenseFace::Evade
    } else if side <= 4 {
        DefenseFace::Focus
    } else {
        DefenseFace::Blank
    }
}

impl DefenseFace {
    /// Face shown for a d8 value (0..=7 — larger values wrap).
    pub fn from_d8(v: u8) -> (face: Self)
        ensures
            face == defense_face(v),
    {
        match v % 8 {
            0 | 1 | 2 => DefenseFace::Evade,
            3 | 4 => DefenseFace::Focus,
            _ => DefenseFace::Blank,
        }
    }
}

/// Tally of one attack roll.
#[derive(Debug, Clone, Copy, PartialEq, Eq, Structural)]
pub struct AttackRoll {
    pub hits: u8,
    pub crits: u8,
    pub focuses: u8,
    pub blanks: u8,
}

impl AttackRoll {
    /// Every face counted, whatever it shows.
    pub open spec fn total(self) -> int {
        self.hits + self.crits + self.focuses + self.blanks
    }

    /// The tally of faces that a byte can count.
    pub open spec fn of(faces: Seq<AttackFace>) -> AttackRoll {
        AttackRoll {
            hits: count(faces, AttackFace::Hit) as u8,
            crits: count(faces, AttackFace::Crit) as u8,
            focuses: count(faces, AttackFace::Focus) as u8,
            blanks: count(faces, AttackFace::Blank) as u8,
        }
    }

    /// Is this the tally of these faces?
    pub open spec fn tallies(self, faces: Seq<AttackFace>) -> bool {
        &&& self.hits == count(faces, AttackFace::Hit)
        &&& self.crits == count(faces, AttackFace::Crit)
        &&& self.focuses == count(faces, AttackFace::Focus)
        &&& self.blanks == count(faces, AttackFace::Blank)
    }

    pub fn from_faces(faces: Vec<AttackFace>) -> (roll: Self)
        requires
            forall|f: AttackFace| #[trigger] count(faces@, f) <= u8::MAX,
        ensures
            roll.tallies(faces@),
    {
        let mut r = AttackRoll { hits: 0, crits: 0, focuses: 0, blanks: 0 };
        let mut i: usize = 0;
        while i < faces.len()
            invariant
                i <= faces.len(),
                r.tallies(faces@.take(i as int)),
                forall|f: AttackFace| #[trigger] count(faces@, f) <= u8::MAX,
            decreases faces.len() - i,
        {
            proof {
                assert(faces@.take(i + 1) =~= faces@.take(i as int).push(faces@[i as int]));
                count_push(faces@.take(i as int), AttackFace::Hit, faces@[i as int]);
                count_push(faces@.take(i as int), AttackFace::Crit, faces@[i as int]);
                count_push(faces@.take(i as int), AttackFace::Focus, faces@[i as int]);
                count_push(faces@.take(i as int), AttackFace::Blank, faces@[i as int]);
                count_of_prefix(faces@, i + 1, faces@[i as int]);
            }
            match faces[i] {
                AttackFace::Hit => r.hits = r.hits + 1,
                AttackFace::Crit => r.crits = r.crits + 1,
                AttackFace::Focus => r.focuses = r.focuses + 1,
                AttackFace::Blank => r.blanks = r.blanks + 1,
            }
            i = i + 1;
        }
        assert(faces@.take(faces@.len() as int) =~= faces@);
        r
    }

    /// Spend a Focus token: every Focus face becomes a Hit.
    pub fn spend_focus(self) -> (roll: Self)
        requires
            self.hits + self.focuses <= u8::MAX,
        ensures
            roll.hits == self.hits + self.focuses,
            roll.focuses == 0,
            roll.crits == self.crits,
            roll.blanks == self.blanks,
    {
        AttackRoll {
            hits: self.hits + self.focuses,
            crits: self.crits,
            focuses: 0,
            blanks: self.blanks,
        }
    }
}

/// A prefix holds no more of an element than the whole.
pub proof fn count_of_prefix<T>(s: Seq<T>, n: int, x: T)
    requires
        0 <= n <= s.len(),
    ensures
        count(s.take(n), x) <= count(s, x),
    decreases s.len(),
{
    if n == s.len() {
        assert(s.take(n) =~= s);
    } else {
        assert(s.take(n) =~= s.drop_last().take(n));
        count_of_prefix(s.drop_last(), n, x);
    }
}

impl Default for AttackRoll {
    fn default() -> (roll: Self)
        ensures
            roll == (AttackRoll { hits: 0, crits: 0, focuses: 0, blanks: 0 }),
    {
        AttackRoll { hits: 0, crits: 0, focuses: 0, blanks: 0 }
    }
}

/// Tally of one defense roll.
#[derive(Debug, Clone, Copy, PartialEq, Eq, Structural)]
pub struct DefenseRoll {
    pub evades: u8,
    pub focuses: u8,
    pub blanks: u8,
}

impl Default for DefenseRoll {
    fn default() -> (roll: Self)
        ensures
            roll == (DefenseRoll { evades: 0, focuses: 0, blanks: 0 }),
    {
        DefenseRoll { evades: 0, focuses: 0, blanks: 0 }
    }
}

impl DefenseRoll {
    /// Every face counted, whatever it shows.
    pub open spec fn total(self) -> int {
        self.evades + self.focuses + self.blanks
    }

    /// The tally of faces that a byte can count.
    pub open spec fn of(faces: Seq<DefenseFace>) -> DefenseRoll {
        DefenseRoll {
            evades: count(faces, DefenseFace::Evade) as u8,
            focuses: count(faces, DefenseFace::Focus) as u8,
            blanks: count(faces, DefenseFace::Blank) as u8,
        }
    }

    /// With an evade token spent, one more evade.
    pub open spec fn with_token(self, spent: bool) -> DefenseRoll {
        DefenseRoll {
            evades: if spent {
                (self.evades + 1) as u8
            } else {
                self.evades
            },
            ..self
        }
    }

    /// Is this the tally of these faces?
    pub open spec fn tallies(self, faces: Seq<DefenseFace>) -> bool {
        &&& self.evades == count(faces, DefenseFace::Evade)
        &&& self.focuses == count(faces, DefenseFace::Focus)
        &&& self.blanks == count(faces, DefenseFace::Blank)
    }

    pub fn from_faces(faces: Vec<DefenseFace>) -> (roll: Self)
        requires
            forall|f: DefenseFace| #[trigger] count(faces@, f) <= u8::MAX,
        ensures
            roll.tallies(faces@),
    {
        let mut r = DefenseRoll { evades: 0, focuses: 0, blanks: 0 };
        let mut i: usize = 0;
        while i < faces.len()
            invariant
                i <= faces.len(),
                r.tallies(faces@.take(i as int)),
                forall|f: DefenseFace| #[trigger] count(faces@, f) <= u8::MAX,
            decreases faces.len() - i,
        {
            proof {
                assert(faces@.take(i + 1) =~= faces@.take(i as int).push(faces@[i as int]));
                count_push(faces@.take(i as int), DefenseFace::Evade, faces@[i as int]);
                count_push(faces@.take(i as int), DefenseFace::Focus, faces@[i as int]);
                count_push(faces@.take(i as int), DefenseFace::Blank, faces@[i as int]);
                count_of_prefix(faces@, i + 1, faces@[i as int]);
            }
            match faces[i] {
                DefenseFace::Evade => r.evades = r.evades + 1,
                DefenseFace::Focus => r.focuses = r.focuses + 1,
                DefenseFace::Blank => r.blanks = r.blanks + 1,
            }
            i = i + 1;
        }
        assert(faces@.take(faces@.len() as int) =~= faces@);
        r
    }

    /// Spend a Focus token: every Focus face becomes an Evade.
    pub fn spend_focus(self) -> (roll: Self)
        requires
            self.evades + self.focuses <= u8::MAX,
        ensures
            roll.evades == self.evades + self.focuses,
            roll.focuses == 0,
            roll.blanks == self.blanks,
    {
        DefenseRoll { evades: self.evades + self.focuses, focuses: 0, blanks: self.blanks }
    }
}

/// Damage that gets through after evades cancel. Evades cancel Hits first,
/// then Crits (so crits — the nastier result — survive longest).
#[derive(Debug, Clone, Copy, PartialEq, Eq, Structural)]
pub struct AttackOutcome {
    pub hits: u8,
    pub crits: u8,
}

/// What is left of `n` after `m` of it are taken away, never below nothing.
pub open spec fn less(n: int, m: int) -> int {
    if n >= m {
        n - m
    } else {
        0
    }
}

/// What gets through: evades cancel hits, and what is left of them crits.
pub open spec fn cancelled(attack: AttackRoll, defense: DefenseRoll) -> AttackOutcome {
    AttackOutcome {
        hits: less(attack.hits as int, defense.evades as int) as u8,
        crits: less(
            attack.crits as int,
            less(defense.evades as int, attack.hits as int),
        ) as u8,
    }
}

pub fn cancel(attack: AttackRoll, defense: DefenseRoll) -> (outcome: AttackOutcome)
    ensures
        outcome == cancelled(attack, defense),
        outcome.hits == less(attack.hits as int, defense.evades as int),
        outcome.crits == less(
            attack.crits as int,
            less(defense.evades as int, attack.hits as int),
        ),
{
    let hits: u8 = attack.hits.saturating_sub(defense.evades);
    let evades: u8 = defense.evades.saturating_sub(attack.hits);
    let crits: u8 = attack.crits.saturating_sub(evades);
    AttackOutcome { hits, crits }
}

/// Result of applying an outcome to a ship's shields and hull.
#[derive(Debug, Clone, Copy, PartialEq, Eq, Structural)]
pub struct DamageResult {
    pub shields_remaining: u8,
    /// Face-down damage (plain hull damage).
    pub hull_damage: u8,
    /// Face-up critical damage cards — only crits that REACH THE HULL;
    /// crits absorbed by shields are just shield loss.
    pub hull_crits: u8,
}

/// What an outcome does to a ship with these shields: hits before crits,
/// shields before the hull.
pub open spec fn applied(shields: u8, outcome: AttackOutcome) -> DamageResult {
    DamageResult {
        shields_remaining: less(shields as int, outcome.hits + outcome.crits) as u8,
        hull_damage: less(outcome.hits as int, shields as int) as u8,
        hull_crits: less(
            outcome.crits as int,
            less(shields as int, outcome.hits as int),
        ) as u8,
    }
}

/// Hits resolve before crits; shields absorb each point before the hull.
pub fn apply_damage(shields: u8, outcome: AttackOutcome) -> (result: DamageResult)
    ensures
        result == applied(shields, outcome),
        result.shields_remaining == less(shields as int, outcome.hits + outcome.crits),
        result.hull_damage == less(outcome.hits as int, shields as int),
        result.hull_crits == less(
            outcome.crits as int,
            less(shields as int, outcome.hits as int),
        ),
{
    let after_hits: u8 = shields.saturating_sub(outcome.hits);
    DamageResult {
        shields_remaining: after_hits.saturating_sub(outcome.crits),
        hull_damage: outcome.hits.saturating_sub(shields),
        hull_crits: outcome.crits.saturating_sub(after_hits),
    }
}

/// Evades take hits away before they touch a crit: a crit is lost only when
/// no hit is left.
pub proof fn evades_spare_crits(attack: AttackRoll, defense: DefenseRoll, outcome: AttackOutcome)
    requires
        outcome.hits == less(attack.hits as int, defense.evades as int),
        outcome.crits == less(
            attack.crits as int,
            less(defense.evades as int, attack.hits as int),
        ),
    ensures
        outcome.crits < attack.crits ==> outcome.hits == 0,
        outcome.hits + outcome.crits == less(
            attack.hits + attack.crits,
            defense.evades as int,
        ),
{
}

/// No damage is lost or invented: what the shields give up and what reaches
/// the hull is what was rolled, and the hull is hit only through spent
/// shields.
pub proof fn damage_is_conserved(shields: u8, outcome: AttackOutcome, result: DamageResult)
    requires
        result.shields_remaining == less(shields as int, outcome.hits + outcome.crits),
        result.hull_damage == less(outcome.hits as int, shields as int),
        result.hull_crits == less(
            outcome.crits as int,
            less(shields as int, outcome.hits as int),
        ),
    ensures
        (shields - result.shields_remaining) + result.hull_damage + result.hull_crits
            == outcome.hits + outcome.crits,
        result.hull_damage + result.hull_crits > 0 ==> result.shields_remaining == 0,
{
}

/// Spending focus loses no die: the same number of faces is shown after.
pub proof fn focus_keeps_every_die(before: AttackRoll, after: AttackRoll)
    requires
        after.hits == before.hits + before.focuses,
        after.focuses == 0,
        after.crits == before.crits,
        after.blanks == before.blanks,
    ensures
        after.total() == before.total(),
        after.hits + after.crits >= before.hits + before.crits,
{
}

/// The attack die: three hits, one crit, two focuses, two blanks.
pub proof fn attack_die_layout()
    ensures
        count(Seq::new(8, |i: int| attack_face(i as u8)), AttackFace::Hit) == 3,
        count(Seq::new(8, |i: int| attack_face(i as u8)), AttackFace::Crit) == 1,
        count(Seq::new(8, |i: int| attack_face(i as u8)), AttackFace::Focus) == 2,
        count(Seq::new(8, |i: int| attack_face(i as u8)), AttackFace::Blank) == 2,
{
    reveal_with_fuel(count, 9);
    let s = Seq::new(8, |i: int| attack_face(i as u8));
    assert(s =~= seq![
        AttackFace::Hit,
        AttackFace::Hit,
        AttackFace::Hit,
        AttackFace::Crit,
        AttackFace::Focus,
        AttackFace::Focus,
        AttackFace::Blank,
        AttackFace::Blank,
    ]);
}

/// The defense die: three evades, two focuses, three blanks.
pub proof fn defense_die_layout()
    ensures
        count(Seq::new(8, |i: int| defense_face(i as u8)), DefenseFace::Evade) == 3,
        count(Seq::new(8, |i: int| defense_face(i as u8)), DefenseFace::Focus) == 2,
        count(Seq::new(8, |i: int| defense_face(i as u8)), DefenseFace::Blank) == 3,
{
    reveal_with_fuel(count, 9);
    let s = Seq::new(8, |i: int| defense_face(i as u8));
    assert(s =~= seq![
        DefenseFace::Evade,
        DefenseFace::Evade,
        DefenseFace::Evade,
        DefenseFace::Focus,
        DefenseFace::Focus,
        DefenseFace::Blank,
        DefenseFace::Blank,
        DefenseFace::Blank,
    ]);
}

/// A face of a die: read off a raw value, and told from other faces.
pub trait Face: Sized + Copy {
    /// The face that a raw value shows.
    spec fn shown(v: u8) -> Self;

    fn read(v: u8) -> (face: Self)
        ensures
            face == Self::shown(v),
    ;

    fn same(self, other: Self) -> (yes: bool)
        ensures
            yes == (self == other),
    ;
}

impl Face for AttackFace {
    open spec fn shown(v: u8) -> AttackFace {
        attack_face(v)
    }

    fn read(v: u8) -> (face: AttackFace) {
        AttackFace::from_d8(v)
    }

    fn same(self, other: AttackFace) -> (yes: bool) {
        self == other
    }
}

impl Face for DefenseFace {
    open spec fn shown(v: u8) -> DefenseFace {
        defense_face(v)
    }

    fn read(v: u8) -> (face: DefenseFace) {
        DefenseFace::from_d8(v)
    }

    fn same(self, other: DefenseFace) -> (yes: bool) {
        self == other
    }
}

/// How many of the faces are `f`, as a counter.
pub open spec fn tally<F>(faces: Seq<F>, f: F) -> u8 {
    (count(faces, f) % 256) as u8
}

/// Where the first `f` lies from place `k` on.
pub open spec fn spot_from<F>(faces: Seq<F>, f: F, k: int) -> Option<usize>
    decreases faces.len() - k,
{
    if k >= faces.len() {
        None
    } else if faces[k] == f {
        Some(k as usize)
    } else {
        spot_from(faces, f, k + 1)
    }
}

/// Where the first `f` lies.
pub open spec fn spot<F>(faces: Seq<F>, f: F) -> Option<usize> {
    spot_from(faces, f, 0)
}

/// Two faces together come up at most as often as there are dice.
pub proof fn counts_fit<F>(faces: Seq<F>, f: F, g: F)
    requires
        f != g,
    ensures
        count(faces, f) + count(faces, g) <= faces.len(),
    decreases faces.len(),
{
    if faces.len() > 0 {
        counts_fit(faces.drop_last(), f, g);
    }
}

/// Turning every `from` into `to` moves their whole count.
pub proof fn turning_moves_the_count<F>(faces: Seq<F>, from: F, to: F)
    requires
        from != to,
    ensures
        count(turned_all(faces, from, to), to) == count(faces, to) + count(faces, from),
    decreases faces.len(),
{
    if faces.len() > 0 {
        turning_moves_the_count(faces.drop_last(), from, to);
        assert(turned_all(faces, from, to).drop_last() =~= turned_all(
            faces.drop_last(),
            from,
            to,
        ));
    }
}

/// A lock rerolls dice and adds none.
pub proof fn lock_rerolls_keep_the_dice(faces: Seq<AttackFace>, dice: Tape, eyes: bool, k: int)
    requires
        0 <= k,
    ensures
        lock_rerolled(faces, dice, eyes, k).0.len() == faces.len(),
    decreases faces.len() - k,
{
    if k < faces.len() {
        lock_rerolls_keep_the_dice(
            faces.update(k, attack_face(dice.shows())),
            dice.rolled(),
            eyes,
            k + 1,
        );
        lock_rerolls_keep_the_dice(faces, dice, eyes, k + 1);
    }
}

/// Every `from` turned into `to`.
pub open spec fn turned_all<F>(faces: Seq<F>, from: F, to: F) -> Seq<F> {
    faces.map_values(
        |f: F|
            if f == from {
                to
            } else {
                f
            },
    )
}

/// The first `max` of the `from` faces from place `k` on turned into `to`.
pub open spec fn turned_some<F>(faces: Seq<F>, from: F, to: F, max: int, k: int) -> Seq<F>
    decreases faces.len() - k,
{
    if k < 0 || k >= faces.len() || max <= 0 {
        faces
    } else if faces[k] == from {
        turned_some(faces.update(k, to), from, to, max - 1, k + 1)
    } else {
        turned_some(faces, from, to, max, k + 1)
    }
}

/// Dice on the table, the strip the next rolls come from, which of the dice
/// have been rerolled, and how many.
#[verifier::ext_equal]
pub struct Hand<F> {
    pub faces: Seq<F>,
    pub dice: Tape,
    pub again: Seq<bool>,
    pub done: u8,
}

impl<F: Face> Hand<F> {
    /// The die at place `k` may still be rerolled, and shows `want`.
    pub open spec fn due(self, want: F, max: u8, k: int) -> bool {
        self.done < max && !self.again[k] && self.faces[k] == want
    }

    /// The die at place `k` rerolled.
    pub open spec fn reroll(self, k: int) -> Hand<F> {
        Hand {
            faces: self.faces.update(k, F::shown(self.dice.shows())),
            dice: self.dice.rolled(),
            again: self.again.update(k, true),
            done: (self.done + 1) as u8,
        }
    }

    /// Each die from place `k` on that shows `want` rerolled, up to `max`
    /// dice in all. A die that was rerolled before stays.
    pub open spec fn rerolled_from(self, want: F, max: u8, k: int) -> Hand<F>
        decreases self.faces.len() - k,
    {
        if k < 0 || k >= self.faces.len() {
            self
        } else if self.due(want, max, k) {
            self.reroll(k).rerolled_from(want, max, k + 1)
        } else {
            self.rerolled_from(want, max, k + 1)
        }
    }

    /// The same for each face wanted from the `w`-th on, one after another.
    pub open spec fn rerolled(self, wants: Seq<F>, max: u8, w: int) -> Hand<F>
        decreases wants.len() - w,
    {
        if w >= wants.len() {
            self
        } else {
            self.rerolled_from(wants[w], max, 0).rerolled(wants, max, w + 1)
        }
    }

    /// As many dice are counted as have been rerolled, `max` at most; every
    /// other die shows what it showed at first; and a die was rerolled only
    /// where it showed one of `wants` at first.
    pub open spec fn fair(self, first: Seq<F>, wants: Seq<F>, max: u8) -> bool {
        &&& self.faces.len() == first.len()
        &&& self.again.len() == first.len()
        &&& self.done == count(self.again, true)
        &&& self.done <= max
        &&& forall|j: int|
            0 <= j < first.len() && !self.again[j] ==> #[trigger] self.faces[j] == first[j]
        &&& forall|j: int|
            0 <= j < first.len() && #[trigger] self.again[j] ==> wants.contains(first[j])
    }
}

/// The dice after up to `max` of those that show one of `wants` were
/// rerolled, earlier entries first, each die once at most.
pub open spec fn rerolling<F: Face>(
    faces: Seq<F>,
    dice: Tape,
    wants: Seq<F>,
    max: u8,
) -> Hand<F> {
    Hand { faces, dice, again: Seq::new(faces.len(), |k: int| false), done: 0 }.rerolled(
        wants,
        max,
        0,
    )
}

proof fn a_reroll_is_fair<F: Face>(
    h: Hand<F>,
    first: Seq<F>,
    wants: Seq<F>,
    max: u8,
    want: F,
    k: int,
)
    requires
        h.fair(first, wants, max),
        0 <= k < first.len(),
        h.due(want, max, k),
        wants.contains(want),
    ensures
        h.reroll(k).fair(first, wants, max),
{
    count_update(h.again, k, true, true);
    assert(h.faces[k] == first[k]);
}

proof fn a_pass_is_fair<F: Face>(
    h: Hand<F>,
    first: Seq<F>,
    wants: Seq<F>,
    max: u8,
    want: F,
    k: int,
)
    requires
        h.fair(first, wants, max),
        0 <= k,
        wants.contains(want),
    ensures
        h.rerolled_from(want, max, k).fair(first, wants, max),
    decreases first.len() - k,
{
    if k < first.len() {
        if h.due(want, max, k) {
            a_reroll_is_fair(h, first, wants, max, want, k);
            a_pass_is_fair(h.reroll(k), first, wants, max, want, k + 1);
        } else {
            a_pass_is_fair(h, first, wants, max, want, k + 1);
        }
    }
}

proof fn passes_are_fair<F: Face>(h: Hand<F>, first: Seq<F>, wants: Seq<F>, max: u8, w: int)
    requires
        h.fair(first, wants, max),
        0 <= w,
    ensures
        h.rerolled(wants, max, w).fair(first, wants, max),
    decreases wants.len() - w,
{
    if w < wants.len() {
        assert(wants.contains(wants[w]));
        a_pass_is_fair(h, first, wants, max, wants[w], 0);
        passes_are_fair(h.rerolled_from(wants[w], max, 0), first, wants, max, w + 1);
    }
}

proof fn untouched_dice_are_fair<F: Face>(faces: Seq<F>, dice: Tape, wants: Seq<F>, max: u8)
    ensures
        (Hand { faces, dice, again: Seq::new(faces.len(), |k: int| false), done: 0 }).fair(
            faces,
            wants,
            max,
        ),
{
    let again = Seq::new(faces.len(), |k: int| false);
    none_is_counted(again);
}

proof fn none_is_counted(s: Seq<bool>)
    requires
        forall|k: int| 0 <= k < s.len() ==> !#[trigger] s[k],
    ensures
        count(s, true) == 0,
    decreases s.len(),
{
    if s.len() > 0 {
        none_is_counted(s.drop_last());
    }
}

/// A reroll counts dice: each at most once, `max` at most, and no more than
/// there are. Their number stays.
pub proof fn rerolls_are_limited<F: Face>(faces: Seq<F>, dice: Tape, wants: Seq<F>, max: u8)
    ensures
        ({
            let h = rerolling(faces, dice, wants, max);
            &&& h.done == count(h.again, true)
            &&& h.done <= max
            &&& h.done <= faces.len()
            &&& h.faces.len() == faces.len()
        }),
{
    let h = Hand { faces, dice, again: Seq::new(faces.len(), |k: int| false), done: 0 };
    untouched_dice_are_fair(faces, dice, wants, max);
    passes_are_fair(h, faces, wants, max, 0);
    count_bounded(rerolling(faces, dice, wants, max).again, true);
}

/// A die that is not rerolled shows what it showed; where none may be, none is.
pub proof fn unrerolled_dice_stay<F: Face>(
    faces: Seq<F>,
    dice: Tape,
    wants: Seq<F>,
    max: u8,
    j: int,
)
    requires
        0 <= j < faces.len(),
    ensures
        ({
            let h = rerolling(faces, dice, wants, max);
            &&& !h.again[j] ==> h.faces[j] == faces[j]
            &&& max == 0 ==> !h.again[j]
        }),
{
    let h = Hand { faces, dice, again: Seq::new(faces.len(), |k: int| false), done: 0 };
    untouched_dice_are_fair(faces, dice, wants, max);
    passes_are_fair(h, faces, wants, max, 0);
    let r = rerolling(faces, dice, wants, max);
    if r.again[j] {
        a_place_is_counted(r.again, j);
    }
}

proof fn a_place_is_counted(s: Seq<bool>, j: int)
    requires
        0 <= j < s.len(),
        s[j],
    ensures
        count(s, true) > 0,
    decreases s.len(),
{
    if j < s.len() - 1 {
        a_place_is_counted(s.drop_last(), j);
    }
}

/// Only dice that show one of the faces wanted are rerolled.
pub proof fn other_dice_stay<F: Face>(
    faces: Seq<F>,
    dice: Tape,
    wants: Seq<F>,
    max: u8,
    j: int,
)
    requires
        0 <= j < faces.len(),
        !wants.contains(faces[j]),
    ensures
        rerolling(faces, dice, wants, max).faces[j] == faces[j],
{
    let h = Hand { faces, dice, again: Seq::new(faces.len(), |k: int| false), done: 0 };
    untouched_dice_are_fair(faces, dice, wants, max);
    passes_are_fair(h, faces, wants, max, 0);
    assert(!rerolling(faces, dice, wants, max).again[j]);
}

impl<F: Face> Hand<F> {
    /// Rerolled dice show values of the strip `start`, which has been read
    /// once for each.
    pub open spec fn drawn_from(self, start: Tape) -> bool {
        &&& self.dice == start.rolled_by(self.done as nat)
        &&& self.again.len() == self.faces.len()
        &&& forall|j: int|
            0 <= j < self.faces.len() && #[trigger] self.again[j] ==> exists|m: nat|
                m < self.done && self.faces[j] == F::shown(#[trigger] start.rolled_by(m).shows())
    }

    /// No reroll is left unused on the first `w` of the wanted faces, and no
    /// die was rerolled while one that showed an earlier face was passed over.
    pub open spec fn thorough(self, first: Seq<F>, wants: Seq<F>, max: u8, w: int) -> bool {
        &&& self.done < max ==> forall|j: int, v: int|
            0 <= j < first.len() && !(#[trigger] self.again[j]) && 0 <= v < w ==> self.faces[j]
                != #[trigger] wants[v]
        &&& forall|i: int, j: int, v: int|
            0 <= i < first.len() && 0 <= j < first.len() && !(#[trigger] self.again[i])
                && #[trigger] self.again[j] && 0 <= v < wants.len() && first[i]
                == #[trigger] wants[v] ==> wants.take(v + 1).contains(first[j])
    }
}

proof fn a_pass_is_drawn<F: Face>(h: Hand<F>, start: Tape, want: F, max: u8, k: int)
    requires
        h.drawn_from(start),
        h.done <= max,
        0 <= k,
    ensures
        h.rerolled_from(want, max, k).drawn_from(start),
        h.rerolled_from(want, max, k).done <= max,
    decreases h.faces.len() - k,
{
    if k < h.faces.len() {
        if h.due(want, max, k) {
            let next = h.reroll(k);
            assert(next.drawn_from(start)) by {
                assert(next.faces[k] == F::shown(start.rolled_by(h.done as nat).shows()));
                assert forall|j: int| 0 <= j < next.faces.len() && #[trigger]
                    next.again[j] implies exists|m: nat|
                    m < next.done && next.faces[j] == F::shown(
                        #[trigger] start.rolled_by(m).shows(),
                    ) by {
                    if j == k {
                        let m = h.done as nat;
                        assert(next.faces[j] == F::shown(start.rolled_by(m).shows()));
                    } else {
                        assert(h.again[j]);
                        let m = choose|m: nat|
                            m < h.done && h.faces[j] == F::shown(
                                #[trigger] start.rolled_by(m).shows(),
                            );
                        assert(next.faces[j] == F::shown(start.rolled_by(m).shows()));
                    }
                }
            }
            a_pass_is_drawn(next, start, want, max, k + 1);
        } else {
            a_pass_is_drawn(h, start, want, max, k + 1);
        }
    }
}

proof fn passes_are_drawn<F: Face>(h: Hand<F>, start: Tape, wants: Seq<F>, max: u8, w: int)
    requires
        h.drawn_from(start),
        h.done <= max,
        0 <= w,
    ensures
        h.rerolled(wants, max, w).drawn_from(start),
    decreases wants.len() - w,
{
    if w < wants.len() {
        a_pass_is_drawn(h, start, wants[w], max, 0);
        passes_are_drawn(h.rerolled_from(wants[w], max, 0), start, wants, max, w + 1);
    }
}

proof fn a_pass_is_thorough<F: Face>(
    h: Hand<F>,
    first: Seq<F>,
    wants: Seq<F>,
    max: u8,
    w: int,
    k: int,
)
    requires
        h.fair(first, wants, max),
        h.thorough(first, wants, max, w),
        0 <= w < wants.len(),
        0 <= k <= first.len(),
        h.done < max ==> forall|j: int|
            0 <= j < k && !(#[trigger] h.again[j]) ==> h.faces[j] != wants[w],
    ensures
        h.rerolled_from(wants[w], max, k).thorough(first, wants, max, w + 1),
    decreases first.len() - k,
{
    if k < first.len() {
        if h.due(wants[w], max, k) {
            let next = h.reroll(k);
            assert(wants.contains(wants[w]));
            a_reroll_is_fair(h, first, wants, max, wants[w], k);
            assert(h.faces[k] == first[k]);
            assert(next.thorough(first, wants, max, w)) by {
                assert forall|j: int, v: int|
                    0 <= j < first.len() && !(#[trigger] next.again[j]) && 0 <= v
                        < w implies next.faces[j] != #[trigger] wants[v] by {
                    assert(!h.again[j]);
                }
                assert forall|i: int, j: int, v: int|
                    0 <= i < first.len() && 0 <= j < first.len() && !(#[trigger] next.again[i])
                        && #[trigger] next.again[j] && 0 <= v < wants.len() && first[i]
                        == #[trigger] wants[v] implies wants.take(v + 1).contains(first[j]) by {
                    assert(!h.again[i]);
                    assert(h.faces[i] == first[i]);
                    if j == k {
                        assert(v >= w);
                        assert(wants.take(v + 1)[w] == first[k]);
                    } else {
                        assert(h.again[j]);
                    }
                }
            }
            assert forall|j: int| 0 <= j < k + 1 && !(#[trigger] next.again[j]) implies next.faces[j]
                != wants[w] by {
                assert(!h.again[j]);
            }
            a_pass_is_thorough(next, first, wants, max, w, k + 1);
        } else {
            a_pass_is_thorough(h, first, wants, max, w, k + 1);
        }
    }
}

proof fn passes_are_thorough<F: Face>(
    h: Hand<F>,
    first: Seq<F>,
    wants: Seq<F>,
    max: u8,
    w: int,
)
    requires
        h.fair(first, wants, max),
        h.thorough(first, wants, max, w),
        0 <= w <= wants.len(),
    ensures
        h.rerolled(wants, max, w).thorough(first, wants, max, wants.len() as int),
    decreases wants.len() - w,
{
    if w < wants.len() {
        assert(wants.contains(wants[w]));
        a_pass_is_thorough(h, first, wants, max, w, 0);
        a_pass_is_fair(h, first, wants, max, wants[w], 0);
        passes_are_thorough(
            h.rerolled_from(wants[w], max, 0),
            first,
            wants,
            max,
            w + 1,
        );
    }
}

/// A rerolled die shows a fresh value of the strip, of which one is read for
/// each; a die that shows a face wanted is left only when no reroll is; and
/// none is rerolled while one that showed a face wanted earlier is left.
pub proof fn rerolls_are_fresh_and_used<F: Face>(
    faces: Seq<F>,
    dice: Tape,
    wants: Seq<F>,
    max: u8,
)
    ensures
        ({
            let h = rerolling(faces, dice, wants, max);
            &&& h.dice == dice.rolled_by(h.done as nat)
            &&& forall|j: int|
                0 <= j < faces.len() && #[trigger] h.again[j] ==> exists|m: nat|
                    m < h.done && h.faces[j] == F::shown(#[trigger] dice.rolled_by(m).shows())
            &&& h.done < max ==> forall|j: int, v: int|
                0 <= j < faces.len() && !(#[trigger] h.again[j]) && 0 <= v < wants.len()
                    ==> h.faces[j] != #[trigger] wants[v]
            &&& forall|i: int, j: int, v: int|
                0 <= i < faces.len() && 0 <= j < faces.len() && !(#[trigger] h.again[i])
                    && #[trigger] h.again[j] && 0 <= v < wants.len() && faces[i]
                    == #[trigger] wants[v] ==> wants.take(v + 1).contains(faces[j])
        }),
{
    let h = Hand { faces, dice, again: Seq::new(faces.len(), |k: int| false), done: 0 };
    untouched_dice_are_fair(faces, dice, wants, max);
    assert(h.drawn_from(dice));
    passes_are_drawn(h, dice, wants, max, 0);
    passes_are_fair(h, faces, wants, max, 0);
    passes_are_thorough(h, faces, wants, max, 0);
}

/// What evades leave is what they do not cancel, and a critical goes only when
/// every hit has gone.
pub proof fn evades_cancel_hits_first(attack: AttackRoll, defense: DefenseRoll)
    ensures
        ({
            let left = cancelled(attack, defense);
            &&& left.hits <= attack.hits
            &&& left.crits <= attack.crits
            &&& attack.hits + attack.crits <= defense.evades ==> left.hits == 0 && left.crits == 0
            &&& attack.hits + attack.crits > defense.evades ==> left.hits + left.crits
                == attack.hits + attack.crits - defense.evades
            &&& left.crits < attack.crits ==> left.hits == 0
        }),
{
}

/// Every point that gets through is taken by a shield or by the hull, shields
/// first; and it is hits that the shields absorb before criticals.
pub proof fn shields_absorb_first(shields: u8, outcome: AttackOutcome)
    ensures
        ({
            let r = applied(shields, outcome);
            &&& r.shields_remaining <= shields
            &&& (shields - r.shields_remaining) + r.hull_damage + r.hull_crits == outcome.hits
                + outcome.crits
            &&& r.hull_damage + r.hull_crits > 0 ==> r.shields_remaining == 0
            &&& r.hull_damage <= outcome.hits
            &&& r.hull_crits <= outcome.crits
            &&& r.hull_damage > 0 ==> r.hull_crits == outcome.crits
        }),
{
}

/// Every `from` becomes `to`, and nothing else changes.
pub proof fn turning_turns_every_face<F>(faces: Seq<F>, from: F, to: F, k: int)
    requires
        0 <= k < faces.len(),
    ensures
        turned_all(faces, from, to).len() == faces.len(),
        faces[k] == from ==> turned_all(faces, from, to)[k] == to,
        faces[k] != from ==> turned_all(faces, from, to)[k] == faces[k],
{
}

/// Up to `max` of the `from` faces become `to`, the first of them, and nothing
/// else changes.
pub proof fn turning_some_turns_the_first<F>(faces: Seq<F>, from: F, to: F, max: int, k: int)
    requires
        0 <= k <= faces.len(),
        from != to,
    ensures
        ({
            let after = turned_some(faces, from, to, max, k);
            &&& after.len() == faces.len()
            &&& forall|j: int|
                0 <= j < faces.len() && (j < k || faces[j] != from) ==> #[trigger] after[j]
                    == faces[j]
            &&& forall|j: int|
                k <= j < faces.len() && faces[j] == from ==> #[trigger] after[j] == if count(
                    faces.subrange(k, j),
                    from,
                ) < max {
                    to
                } else {
                    from
                }
        }),
    decreases faces.len() - k,
{
    if k < faces.len() && max > 0 {
        let turned = faces.update(k, to);
        if faces[k] == from {
            turning_some_turns_the_first(turned, from, to, max - 1, k + 1);
        } else {
            turning_some_turns_the_first(faces, from, to, max, k + 1);
        }
        let after = turned_some(faces, from, to, max, k);
        assert forall|j: int| k <= j < faces.len() && faces[j] == from implies #[trigger] after[j]
            == if count(faces.subrange(k, j), from) < max {
            to
        } else {
            from
        } by {
            if j > k {
                count_from_the_front(faces.subrange(k, j), from);
                assert(faces.subrange(k, j).skip(1) =~= faces.subrange(k + 1, j));
                assert(turned.subrange(k + 1, j) =~= faces.subrange(k + 1, j));
                assert(turned[j] == faces[j]);
            }
        }
    }
}

/// The first of a list counts like any other.
pub proof fn count_from_the_front<T>(s: Seq<T>, x: T)
    requires
        s.len() > 0,
    ensures
        count(s, x) == count(s.skip(1), x) + if s[0] == x { 1nat } else { 0nat },
    decreases s.len(),
{
    if s.len() > 1 {
        count_from_the_front(s.drop_last(), x);
        assert(s.drop_last().skip(1) =~= s.skip(1).drop_last());
    } else {
        assert(s.skip(1) =~= Seq::empty());
        assert(s.drop_last() =~= Seq::empty());
    }
}

/// What is spotted is there, and nothing before it is.
pub proof fn a_spot_is_the_first<F>(faces: Seq<F>, f: F, k: int)
    requires
        0 <= k,
        faces.len() <= usize::MAX,
    ensures
        spot_from(faces, f, k) is None <==> forall|j: int| k <= j < faces.len()
            ==> #[trigger] faces[j] != f,
        spot_from(faces, f, k) is Some ==> k <= spot_from(faces, f, k)->0 < faces.len() && faces[
            spot_from(faces, f, k)->0 as int
        ] == f && forall|j: int| k <= j < spot_from(faces, f, k)->0 ==> #[trigger] faces[j] != f,
    decreases faces.len() - k,
{
    if k < faces.len() && faces[k] != f {
        a_spot_is_the_first(faces, f, k + 1);
    }
}

/// The dice that land are the hits and the criticals, and the eyes where a
/// token would convert them.
pub proof fn landing_dice_are_counted(faces: Seq<AttackFace>, eyes: bool)
    ensures
        good_dice(faces, eyes) == count(faces, AttackFace::Hit) + count(faces, AttackFace::Crit)
            + if eyes {
            count(faces, AttackFace::Focus)
        } else {
            0
        },
    decreases faces.len(),
{
    if faces.len() > 0 {
        landing_dice_are_counted(faces.drop_last(), eyes);
    }
}

/// A strip is read value by value, and from its start again after the last.
pub proof fn the_strip_is_read_in_order(dice: Tape, n: nat)
    requires
        0 <= dice.at < dice.values.len(),
    ensures
        dice.rolled_by(n).values == dice.values,
        0 <= dice.rolled_by(n).at < dice.values.len(),
        dice.at + n < dice.values.len() ==> dice.rolled_by(n).shows() == dice.values[dice.at + n],
        dice.rolled_by((dice.values.len() - dice.at) as nat).at == 0,
    decreases n + dice.values.len(),
{
    read_ahead(dice, n);
    read_ahead(dice, (dice.values.len() - dice.at) as nat);
}

proof fn read_ahead(dice: Tape, n: nat)
    requires
        0 <= dice.at < dice.values.len(),
    ensures
        dice.rolled_by(n).values == dice.values,
        0 <= dice.rolled_by(n).at < dice.values.len(),
        dice.at + n < dice.values.len() ==> dice.rolled_by(n).at == dice.at + n,
        dice.at + n == dice.values.len() ==> dice.rolled_by(n).at == 0,
    decreases n,
{
    if n > 0 {
        read_ahead(dice, (n - 1) as nat);
    }
}

/// Reroll up to `max` dice showing one of `wants` (earlier entries
/// first); returns how many were rerolled. A die is rerolled once at most.
pub fn reroll_matching<F: Face>(
    faces: &mut Vec<F>,
    wants: &[F],
    max: u8,
    dice: &mut Dice,
) -> (done: u8)
    ensures
        final(faces)@ == rerolling(old(faces)@, old(dice)@, wants@, max).faces,
        final(dice)@ == rerolling(old(faces)@, old(dice)@, wants@, max).dice,
        done == rerolling(old(faces)@, old(dice)@, wants@, max).done,
        final(faces)@.len() == old(faces)@.len(),
        done <= max,
        done <= old(faces)@.len(),
{
    let n: usize = faces.len();
    let mut again: Vec<bool> = Vec::new();
    while again.len() < n
        invariant
            again.len() <= n,
            forall|j: int| 0 <= j < again@.len() ==> !#[trigger] again@[j],
        decreases n - again.len(),
    {
        again.push(false);
    }
    assert(again@ =~= Seq::new(faces@.len(), |k: int| false));
    let ghost start = Hand { faces: faces@, dice: dice@, again: again@, done: 0 };
    let mut done: u8 = 0;
    let mut w: usize = 0;
    while w < wants.len()
        invariant
            w <= wants.len(),
            done <= max,
            faces.len() == n,
            again.len() == n,
            (Hand { faces: faces@, dice: dice@, again: again@, done }).rerolled(
                wants@,
                max,
                w as int,
            ) == start.rerolled(wants@, max, 0),
        decreases wants.len() - w,
    {
        let ghost pass = Hand { faces: faces@, dice: dice@, again: again@, done };
        let mut k: usize = 0;
        while k < n
            invariant
                w < wants.len(),
                k <= n,
                done <= max,
                faces.len() == n,
                again.len() == n,
                (Hand { faces: faces@, dice: dice@, again: again@, done }).rerolled_from(
                    wants@[w as int],
                    max,
                    k as int,
                ) == pass.rerolled_from(wants@[w as int], max, 0),
            decreases n - k,
        {
            if done < max && !again[k] && faces[k].same(wants[w]) {
                let fresh = F::read(dice.roll());
                faces.set(k, fresh);
                again.set(k, true);
                done = done + 1;
            }
            k = k + 1;
        }
        w = w + 1;
    }
    proof {
        rerolls_are_limited(start.faces, start.dice, wants@, max);
    }
    done
}

/// What `n` dice show, thrown one after another.
pub open spec fn thrown<F: Face>(dice: Tape, n: nat) -> Seq<F> {
    Seq::new(n, |k: int| F::shown(dice.rolled_by(k as nat).shows()))
}

/// Throw `n` dice.
pub fn throw_dice<F: Face>(n: usize, dice: &mut Dice) -> (faces: Vec<F>)
    ensures
        faces@ == thrown::<F>(old(dice)@, n as nat),
        final(dice)@ == old(dice)@.rolled_by(n as nat),
{
    let ghost start = dice@;
    let mut faces: Vec<F> = Vec::new();
    let mut k: usize = 0;
    while k < n
        invariant
            k <= n,
            faces@ == thrown::<F>(start, k as nat),
            dice@ == start.rolled_by(k as nat),
        decreases n - k,
    {
        let fresh = F::read(dice.roll());
        faces.push(fresh);
        k = k + 1;
        assert(faces@ =~= thrown::<F>(start, k as nat));
        assert(start.rolled_by(k as nat) == start.rolled_by((k - 1) as nat).rolled());
    }
    faces
}

/// How many of the faces land: hits and criticals, and eyes where a token
/// would convert them.
pub open spec fn good_dice(faces: Seq<AttackFace>, eyes: bool) -> nat
    decreases faces.len(),
{
    if faces.len() == 0 {
        0
    } else {
        let f = faces.last();
        good_dice(faces.drop_last(), eyes) + if f == AttackFace::Hit || f == AttackFace::Crit || (
        eyes && f == AttackFace::Focus) {
            1nat
        } else {
            0nat
        }
    }
}

/// How many of the faces land.
pub fn count_good(faces: &Vec<AttackFace>, eyes: bool) -> (n: usize)
    ensures
        n == good_dice(faces@, eyes),
        n <= faces@.len(),
{
    let mut n: usize = 0;
    let mut k: usize = 0;
    while k < faces.len()
        invariant
            n <= k <= faces.len(),
            n == good_dice(faces@.take(k as int), eyes),
        decreases faces.len() - k,
    {
        assert(faces@.take(k + 1).drop_last() =~= faces@.take(k as int));
        let f = faces[k];
        if f == AttackFace::Hit || f == AttackFace::Crit || (eyes && f == AttackFace::Focus) {
            n = n + 1;
        }
        k = k + 1;
    }
    assert(faces@.take(k as int) =~= faces@);
    n
}

/// Each die from place `k` on that missed rerolled once: blanks, and eyes
/// where asked.
pub open spec fn lock_rerolled(
    faces: Seq<AttackFace>,
    dice: Tape,
    eyes: bool,
    k: int,
) -> (Seq<AttackFace>, Tape)
    decreases faces.len() - k,
{
    if k < 0 || k >= faces.len() {
        (faces, dice)
    } else if faces[k] == AttackFace::Blank || (eyes && faces[k] == AttackFace::Focus) {
        lock_rerolled(
            faces.update(k, attack_face(dice.shows())),
            dice.rolled(),
            eyes,
            k + 1,
        )
    } else {
        lock_rerolled(faces, dice, eyes, k + 1)
    }
}

/// The face is a miss that a lock rerolls: a blank, or an eye where asked.
pub open spec fn missed(f: AttackFace, eyes: bool) -> bool {
    f == AttackFace::Blank || (eyes && f == AttackFace::Focus)
}

/// How many of the first `n` dice missed.
pub open spec fn misses(faces: Seq<AttackFace>, eyes: bool, n: int) -> nat
    decreases n,
{
    if n <= 0 {
        0
    } else if missed(faces[n - 1], eyes) {
        misses(faces, eyes, n - 1) + 1
    } else {
        misses(faces, eyes, n - 1)
    }
}

/// What a lock does from place `k` on, where `seen` is the roll that the dice
/// before it are taken from.
proof fn lock_rerolls_the_rest(
    seen: Seq<AttackFace>,
    start: Tape,
    faces: Seq<AttackFace>,
    eyes: bool,
    k: int,
)
    requires
        0 <= k <= seen.len(),
        faces.len() == seen.len(),
        forall|j: int| k <= j < seen.len() ==> #[trigger] faces[j] == seen[j],
    ensures
        ({
            let (after, dice) = lock_rerolled(faces, start.rolled_by(misses(seen, eyes, k)), eyes, k);
            &&& after.len() == seen.len()
            &&& dice == start.rolled_by(misses(seen, eyes, seen.len() as int))
            &&& forall|j: int| 0 <= j < k ==> #[trigger] after[j] == faces[j]
            &&& forall|j: int|
                k <= j < seen.len() ==> #[trigger] after[j] == if missed(seen[j], eyes) {
                    attack_face(start.rolled_by(misses(seen, eyes, j)).shows())
                } else {
                    seen[j]
                }
        }),
    decreases seen.len() - k,
{
    if k < seen.len() {
        let dice = start.rolled_by(misses(seen, eyes, k));
        assert(faces[k] == seen[k]);
        if missed(seen[k], eyes) {
            let fresh = faces.update(k, attack_face(dice.shows()));
            lock_rerolls_the_rest(seen, start, fresh, eyes, k + 1);
        } else {
            lock_rerolls_the_rest(seen, start, faces, eyes, k + 1);
        }
    }
}

/// A lock rerolls every die that missed, each to the face of its own raw value
/// in the order of the strip, and leaves every other die alone.
pub proof fn a_lock_rerolls_every_miss(faces: Seq<AttackFace>, dice: Tape, eyes: bool)
    ensures
        ({
            let (after, rest) = lock_rerolled(faces, dice, eyes, 0);
            &&& after.len() == faces.len()
            &&& rest == dice.rolled_by(misses(faces, eyes, faces.len() as int))
            &&& forall|k: int|
                0 <= k < faces.len() ==> #[trigger] after[k] == if faces[k] == AttackFace::Blank || (
                eyes && faces[k] == AttackFace::Focus) {
                    attack_face(dice.rolled_by(misses(faces, eyes, k)).shows())
                } else {
                    faces[k]
                }
        }),
{
    lock_rerolls_the_rest(faces, dice, faces, eyes, 0);
}

/// Reroll every die that missed; says whether any was rerolled.
pub fn lock_reroll(faces: &mut Vec<AttackFace>, eyes: bool, dice: &mut Dice) -> (any: bool)
    ensures
        (final(faces)@, final(dice)@) == lock_rerolled(old(faces)@, old(dice)@, eyes, 0),
        any == (spot(old(faces)@, AttackFace::Blank) is Some || (eyes && spot(
            old(faces)@,
            AttackFace::Focus,
        ) is Some)),
        final(faces)@.len() == old(faces)@.len(),
        final(dice)@ == old(dice)@.rolled_by(
            misses(old(faces)@, eyes, old(faces)@.len() as int),
        ),
        forall|k: int|
            0 <= k < old(faces)@.len() ==> #[trigger] final(faces)@[k] == if missed(
                old(faces)@[k],
                eyes,
            ) {
                attack_face(old(dice)@.rolled_by(misses(old(faces)@, eyes, k)).shows())
            } else {
                old(faces)@[k]
            },
{
    proof {
        a_lock_rerolls_every_miss(faces@, dice@, eyes);
    }
    let ghost start = faces@;
    let ghost tape = dice@;
    let mut any = false;
    let mut k: usize = 0;
    while k < faces.len()
        invariant
            k <= faces.len(),
            lock_rerolled(faces@, dice@, eyes, k as int) == lock_rerolled(start, tape, eyes, 0),
            faces@.len() == start.len(),
            forall|j: int| k <= j < faces@.len() ==> faces@[j] == start[j],
            !any ==> spot_from(start, AttackFace::Blank, k as int) == spot(start, AttackFace::Blank),
            !any && eyes ==> spot_from(start, AttackFace::Focus, k as int) == spot(
                start,
                AttackFace::Focus,
            ),
            any ==> spot(start, AttackFace::Blank) is Some || (eyes && spot(
                start,
                AttackFace::Focus,
            ) is Some),
        decreases faces.len() - k,
    {
        let f = faces[k];
        if f == AttackFace::Blank || (eyes && f == AttackFace::Focus) {
            proof {
                spot_holds(start, f, k as int, 0);
            }
            let fresh = AttackFace::from_d8(dice.roll());
            faces.set(k, fresh);
            any = true;
        }
        k = k + 1;
    }
    any
}

/// A face that lies somewhere is found.
pub proof fn spot_holds<F>(faces: Seq<F>, f: F, k: int, from: int)
    requires
        0 <= from <= k < faces.len(),
        faces[k] == f,
    ensures
        spot_from(faces, f, from) is Some,
    decreases k - from,
{
    if from < k {
        spot_holds(faces, f, k, from + 1);
    }
}

/// Where the first `f` lies.
pub fn find_face<F: Face>(faces: &Vec<F>, f: F) -> (place: Option<usize>)
    ensures
        place == spot(faces@, f),
        place is Some ==> place->0 < faces@.len() && faces@[place->0 as int] == f,
{
    let mut k: usize = 0;
    while k < faces.len()
        invariant
            k <= faces.len(),
            spot_from(faces@, f, k as int) == spot(faces@, f),
        decreases faces.len() - k,
    {
        if faces[k].same(f) {
            return Some(k);
        }
        k = k + 1;
    }
    None
}

/// How many of the faces are `f`.
pub fn count_faces<F: Face>(faces: &Vec<F>, f: F) -> (n: usize)
    ensures
        n == count(faces@, f),
        n <= faces@.len(),
{
    let mut n: usize = 0;
    let mut k: usize = 0;
    while k < faces.len()
        invariant
            n <= k <= faces.len(),
            n == count(faces@.take(k as int), f),
        decreases faces.len() - k,
    {
        proof {
            assert(faces@.take(k + 1) =~= faces@.take(k as int).push(faces@[k as int]));
            count_push(faces@.take(k as int), f, faces@[k as int]);
        }
        if faces[k].same(f) {
            n = n + 1;
        }
        k = k + 1;
    }
    assert(faces@.take(k as int) =~= faces@);
    n
}

/// How many of the faces are `f`, as a counter.
pub fn tally_faces<F: Face>(faces: &Vec<F>, f: F) -> (n: u8)
    ensures
        n == tally(faces@, f),
{
    (count_faces(faces, f) % 256) as u8
}

/// Turn every `from` into `to`.
pub fn turn_all<F: Face>(faces: &mut Vec<F>, from: F, to: F)
    ensures
        final(faces)@ == turned_all(old(faces)@, from, to),
{
    let ghost goal = turned_all(faces@, from, to);
    let mut k: usize = 0;
    while k < faces.len()
        invariant
            k <= faces.len(),
            faces@.len() == goal.len(),
            forall|j: int| 0 <= j < k ==> faces@[j] == goal[j],
            forall|j: int|
                k <= j < faces@.len() ==> goal[j] == if #[trigger] faces@[j] == from {
                    to
                } else {
                    faces@[j]
                },
        decreases faces.len() - k,
    {
        if faces[k].same(from) {
            faces.set(k, to);
        }
        k = k + 1;
    }
    assert(faces@ =~= goal);
}

/// Turn the first `max` of the `from` faces into `to`; says whether any was.
pub fn turn_some<F: Face>(faces: &mut Vec<F>, from: F, to: F, max: usize) -> (any: bool)
    requires
        max > 0,
    ensures
        final(faces)@ == turned_some(old(faces)@, from, to, max as int, 0),
        any == (spot(old(faces)@, from) is Some),
{
    let ghost start = faces@;
    let mut any = false;
    let mut left: usize = max;
    let mut k: usize = 0;
    while k < faces.len() && left > 0
        invariant
            k <= faces.len(),
            max > 0,
            turned_some(faces@, from, to, left as int, k as int) == turned_some(
                start,
                from,
                to,
                max as int,
                0,
            ),
            !any ==> faces@ == start && left == max && spot_from(start, from, k as int) == spot(
                start,
                from,
            ),
            any ==> spot(start, from) is Some,
        decreases faces.len() - k,
    {
        if faces[k].same(from) {
            faces.set(k, to);
            left = left - 1;
            any = true;
        }
        k = k + 1;
    }
    any
}

/// What a strip of raw rolls looks like: its values, and how far it has been
/// read.
pub struct Tape {
    pub values: Seq<u8>,
    pub at: int,
}

impl Tape {
    /// The value that the next roll shows.
    pub open spec fn shows(self) -> u8 {
        self.values[self.at]
    }

    /// The strip after one roll; a strip read to its end starts over.
    pub open spec fn rolled(self) -> Tape {
        Tape {
            values: self.values,
            at: if self.values.len() - self.at > 1 {
                self.at + 1
            } else {
                0
            },
        }
    }

    /// The strip after `n` rolls.
    pub open spec fn rolled_by(self, n: nat) -> Tape
        decreases n,
    {
        if n == 0 {
            self
        } else {
            self.rolled_by((n - 1) as nat).rolled()
        }
    }
}

/// The source of the dice: a strip of raw values that the caller drew,
/// read one by one and from the start again once it is used up.
#[derive(Debug)]
pub struct Dice {
    values: Vec<u8>,
    at: usize,
}

impl View for Dice {
    type V = Tape;

    closed spec fn view(&self) -> Tape {
        Tape { values: self.values@, at: self.at as int }
    }
}

impl Dice {
    #[verifier::type_invariant]
    spec fn readable(self) -> bool {
        self.at < self.values@.len()
    }

    /// A strip to be read from its first value on. There is no strip without
    /// a value.
    pub fn new(values: Vec<u8>) -> (dice: Option<Dice>)
        ensures
            dice is Some <==> values@.len() > 0,
            dice is Some ==> dice->0@ == (Tape { values: values@, at: 0 }),
    {
        if values.len() > 0 {
            Some(Dice { values, at: 0 })
        } else {
            None
        }
    }

    /// The next raw value.
    pub fn roll(&mut self) -> (v: u8)
        ensures
            v == old(self)@.shows(),
            final(self)@ == old(self)@.rolled(),
    {
        proof {
            use_type_invariant(&*self);
        }
        let v: u8 = self.values[self.at];
        if self.values.len() - self.at > 1 {
            self.at = self.at + 1;
        } else {
            self.at = 0;
        }
        v
    }
}

} // verus!
