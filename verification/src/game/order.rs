//! Who goes first: initiative, movement order and combat order.

#![verifier::loop_isolation(false)]

use vstd::prelude::*;

use crate::crit::{colored, effective_difficulty, CritEffect};
use crate::dice::AttackFace;
use crate::maneuver::{Difficulty, Maneuver, Steer};
use crate::ship::{PlayerId, ShipId};

verus! {

/// The places of `low` in the totals from `k` on.
pub open spec fn places_of(totals: Seq<u32>, low: u32, k: int) -> Seq<usize>
    decreases totals.len() - k,
{
    if k >= totals.len() {
        Seq::empty()
    } else if totals[k] == low {
        seq![k as usize] + places_of(totals, low, k + 1)
    } else {
        places_of(totals, low, k + 1)
    }
}

/// The lowest of the totals, or `low` if that is lower still.
pub open spec fn lowest(totals: Seq<u32>, low: u32) -> u32
    decreases totals.len(),
{
    if totals.len() == 0 {
        low
    } else {
        let rest = lowest(totals.drop_last(), low);
        if totals.last() < rest {
            totals.last()
        } else {
            rest
        }
    }
}

/// The side that holds initiative: the one with the lowest total; of several,
/// the first on a Hit or Crit, else the second.
pub open spec fn holder(totals: Seq<u32>, tie_roll: AttackFace) -> usize {
    let tied = places_of(totals, lowest(totals, u32::MAX), 0);
    if tied.len() == 0 {
        0
    } else if tied.len() == 1 || tie_roll == AttackFace::Hit || tie_roll == AttackFace::Crit {
        tied[0]
    } else {
        tied[1]
    }
}

/// Who holds initiative at setup: the side with the lowest squad-point
/// total. On a tie the first tied side (the game creator's, when it is
/// among them) rolls one red die — Hit/Crit keeps it, Focus/Blank hands
/// it to the next tied side. ("Choosing" is automated as choosing
/// yourself.) Returns the index into `totals`.
pub fn initiative_seat(totals: &[u32], tie_roll: AttackFace) -> (side: usize)
    ensures
        side == holder(totals@, tie_roll),
{
    let mut low: u32 = u32::MAX;
    let mut i: usize = 0;
    while i < totals.len()
        invariant
            i <= totals.len(),
            low == lowest(totals@.take(i as int), u32::MAX),
        decreases totals.len() - i,
    {
        assert(totals@.take(i + 1).drop_last() =~= totals@.take(i as int));
        if totals[i] < low {
            low = totals[i];
        }
        i = i + 1;
    }
    assert(totals@.take(i as int) =~= totals@);
    let mut tied: Vec<usize> = Vec::new();
    let mut k: usize = 0;
    while k < totals.len()
        invariant
            k <= totals.len(),
            tied@ + places_of(totals@, low, k as int) == places_of(totals@, low, 0),
        decreases totals.len() - k,
    {
        if totals[k] == low {
            let ghost before = tied@;
            tied.push(k);
            assert(before + places_of(totals@, low, k as int) =~= tied@ + places_of(
                totals@,
                low,
                k + 1,
            ));
        }
        k = k + 1;
    }
    assert(tied@ =~= places_of(totals@, low, 0));
    if tied.len() == 0 {
        return 0;
    }
    if tied.len() == 1 {
        return tied[0];
    }
    match tie_roll {
        AttackFace::Hit | AttackFace::Crit => tied[0],
        AttackFace::Focus | AttackFace::Blank => tied[1],
    }
}

proof fn lowest_is_low(totals: Seq<u32>)
    ensures
        forall|k: int|
            0 <= k < totals.len() ==> lowest(totals, u32::MAX) <= #[trigger] totals[k],
        totals.len() > 0 ==> exists|k: int|
            0 <= k < totals.len() && #[trigger] totals[k] == lowest(totals, u32::MAX),
    decreases totals.len(),
{
    if totals.len() > 0 {
        let rest = totals.drop_last();
        lowest_is_low(rest);
        assert forall|k: int| 0 <= k < totals.len() implies lowest(totals, u32::MAX)
            <= #[trigger] totals[k] by {
            if k < rest.len() {
                assert(rest[k] == totals[k]);
            }
        }
        if totals.last() < lowest(rest, u32::MAX) || rest.len() == 0 {
            assert(totals[totals.len() - 1] == lowest(totals, u32::MAX));
        } else {
            let k = choose|k: int|
                0 <= k < rest.len() && #[trigger] rest[k] == lowest(rest, u32::MAX);
            assert(totals[k] == lowest(totals, u32::MAX));
        }
    }
}

proof fn places_hold(totals: Seq<u32>, low: u32, k: int)
    requires
        0 <= k,
        totals.len() <= usize::MAX,
    ensures
        forall|j: int|
            0 <= j < places_of(totals, low, k).len() ==> k <= #[trigger] places_of(
                totals,
                low,
                k,
            )[j] < totals.len() && totals[places_of(totals, low, k)[j] as int] == low,
        places_of(totals, low, k).len() == 0 ==> forall|j: int|
            k <= j < totals.len() ==> #[trigger] totals[j] != low,
    decreases totals.len() - k,
{
    if k < totals.len() {
        places_hold(totals, low, k + 1);
        assert forall|j: int| 0 <= j < places_of(totals, low, k).len() implies k
            <= #[trigger] places_of(totals, low, k)[j] < totals.len() && totals[places_of(
            totals,
            low,
            k,
        )[j] as int] == low by {
            if totals[k] == low {
                if j > 0 {
                    assert(places_of(totals, low, k)[j] == places_of(totals, low, k + 1)[j - 1]);
                }
            } else {
                assert(places_of(totals, low, k)[j] == places_of(totals, low, k + 1)[j]);
            }
        }
    }
}

/// Initiative goes to a side whose total no other undercuts.
pub proof fn initiative_goes_to_the_lowest_total(totals: Seq<u32>, tie_roll: AttackFace, k: int)
    requires
        0 <= k < totals.len(),
        totals.len() <= usize::MAX,
    ensures
        holder(totals, tie_roll) < totals.len(),
        totals[holder(totals, tie_roll) as int] <= totals[k],
{
    let low = lowest(totals, u32::MAX);
    lowest_is_low(totals);
    places_hold(totals, low, 0);
    let j = choose|j: int| 0 <= j < totals.len() && #[trigger] totals[j] == low;
    let tied = places_of(totals, low, 0);
    assert(tied.len() > 0);
    assert(totals[tied[0] as int] == low);
    if tied.len() > 1 {
        assert(totals[tied[1] as int] == low);
    }
}

/// The tie-break rank of a seat; seats without one come last.
pub open spec fn rank_of(ranks: Seq<u8>, p: PlayerId) -> u8 {
    if p.0 < ranks.len() {
        ranks[p.0 as int]
    } else {
        u8::MAX
    }
}

/// May `a` go before `b`: by pilot skill (the lowest first, or the highest
/// when `high`), then by the rank of the seat, then by ship id?
pub open spec fn goes(
    a: (ShipId, u8, PlayerId),
    b: (ShipId, u8, PlayerId),
    ranks: Seq<u8>,
    high: bool,
) -> bool {
    if a.1 != b.1 {
        if high {
            a.1 > b.1
        } else {
            a.1 < b.1
        }
    } else if rank_of(ranks, a.2) != rank_of(ranks, b.2) {
        rank_of(ranks, a.2) < rank_of(ranks, b.2)
    } else {
        a.0.0 <= b.0.0
    }
}

/// A line of ships with one more let in behind all that may go before it.
pub open spec fn let_in(
    line: Seq<(ShipId, u8, PlayerId)>,
    x: (ShipId, u8, PlayerId),
    ranks: Seq<u8>,
    high: bool,
) -> Seq<(ShipId, u8, PlayerId)>
    decreases line.len(),
{
    if line.len() == 0 || goes(line.last(), x, ranks, high) {
        line.push(x)
    } else {
        let_in(line.drop_last(), x, ranks, high).push(line.last())
    }
}

/// The ships in order.
pub open spec fn lined_up(
    ships: Seq<(ShipId, u8, PlayerId)>,
    ranks: Seq<u8>,
    high: bool,
) -> Seq<(ShipId, u8, PlayerId)>
    decreases ships.len(),
{
    if ships.len() == 0 {
        ships
    } else {
        let_in(lined_up(ships.drop_last(), ranks, high), ships.last(), ranks, high)
    }
}

/// The ids of the ships.
pub open spec fn ids(ships: Seq<(ShipId, u8, PlayerId)>) -> Seq<ShipId> {
    Seq::new(ships.len(), |k: int| ships[k].0)
}

/// Each ship of the line may go before the next.
pub open spec fn in_order(
    line: Seq<(ShipId, u8, PlayerId)>,
    ranks: Seq<u8>,
    high: bool,
) -> bool {
    forall|i: int, j: int|
        0 <= i < j < line.len() ==> goes(#[trigger] line[i], #[trigger] line[j], ranks, high)
}

proof fn let_in_keeps_order(
    line: Seq<(ShipId, u8, PlayerId)>,
    x: (ShipId, u8, PlayerId),
    ranks: Seq<u8>,
    high: bool,
)
    requires
        in_order(line, ranks, high),
    ensures
        in_order(let_in(line, x, ranks, high), ranks, high),
        let_in(line, x, ranks, high).len() == line.len() + 1,
        let_in(line, x, ranks, high).to_multiset() == line.to_multiset().insert(x),
        forall|k: int|
            0 <= k < line.len() + 1 ==> #[trigger] let_in(line, x, ranks, high)[k] == x
                || line.contains(let_in(line, x, ranks, high)[k]),
    decreases line.len(),
{
    broadcast use vstd::seq_lib::group_to_multiset_ensures;

    if line.len() == 0 || goes(line.last(), x, ranks, high) {
        assert forall|i: int, j: int| 0 <= i < j < line.push(x).len() implies goes(
            #[trigger] line.push(x)[i],
            #[trigger] line.push(x)[j],
            ranks,
            high,
        ) by {
            if j == line.len() && i < line.len() - 1 {
                assert(goes(line[i], line[line.len() - 1], ranks, high));
            }
        }
        assert forall|k: int| 0 <= k < line.len() + 1 implies #[trigger] line.push(x)[k] == x
            || line.contains(line.push(x)[k]) by {
            if k < line.len() {
                assert(line[k] == line.push(x)[k]);
            }
        }
    } else {
        let rest = line.drop_last();
        let new = let_in(rest, x, ranks, high);
        let_in_keeps_order(rest, x, ranks, high);
        let all = new.push(line.last());
        assert forall|i: int, j: int| 0 <= i < j < all.len() implies goes(
            #[trigger] all[i],
            #[trigger] all[j],
            ranks,
            high,
        ) by {
            if j == new.len() {
                if new[i] != x {
                    assert(rest.contains(new[i]));
                    let k = choose|k: int| 0 <= k < rest.len() && rest[k] == new[i];
                    assert(line[k] == new[i]);
                    assert(goes(line[k], line[line.len() - 1], ranks, high));
                }
            } else {
                assert(all[i] == new[i] && all[j] == new[j]);
            }
        }
        assert forall|k: int| 0 <= k < line.len() + 1 implies #[trigger] all[k] == x
            || line.contains(all[k]) by {
            if k < new.len() {
                assert(all[k] == new[k]);
                if new[k] != x {
                    let j = choose|j: int| 0 <= j < rest.len() && rest[j] == new[k];
                    assert(line[j] == new[k]);
                }
            } else {
                assert(all[k] == line[line.len() - 1]);
            }
        }
        assert(line =~= rest.push(line.last()));
    }
}

/// Everyone goes exactly once, lowest pilot skill first (highest when
/// `high`); at equal skill the seat with the better rank, then the lower id.
pub proof fn order_is_fair(ships: Seq<(ShipId, u8, PlayerId)>, ranks: Seq<u8>, high: bool)
    ensures
        in_order(lined_up(ships, ranks, high), ranks, high),
        lined_up(ships, ranks, high).len() == ships.len(),
        lined_up(ships, ranks, high).to_multiset() == ships.to_multiset(),
    decreases ships.len(),
{
    broadcast use vstd::seq_lib::group_to_multiset_ensures;

    if ships.len() > 0 {
        order_is_fair(ships.drop_last(), ranks, high);
        let_in_keeps_order(lined_up(ships.drop_last(), ranks, high), ships.last(), ranks, high);
        assert(ships =~= ships.drop_last().push(ships.last()));
    }
}

/// A ship of strictly lower skill moves before one of higher skill, and fires
/// after it.
pub proof fn low_skill_moves_first_and_fires_last(
    ships: Seq<(ShipId, u8, PlayerId)>,
    ranks: Seq<u8>,
    i: int,
    j: int,
)
    requires
        0 <= i < ships.len(),
        0 <= j < ships.len(),
    ensures
        lined_up(ships, ranks, false)[i].1 < lined_up(ships, ranks, false)[j].1 ==> i < j,
        lined_up(ships, ranks, true)[i].1 < lined_up(ships, ranks, true)[j].1 ==> j < i,
{
    order_is_fair(ships, ranks, false);
    order_is_fair(ships, ranks, true);
    let m = lined_up(ships, ranks, false);
    let c = lined_up(ships, ranks, true);
    if j < i {
        assert(goes(m[j], m[i], ranks, false));
    }
    if i < j {
        assert(goes(c[i], c[j], ranks, true));
    }
}

fn rank(ranks: &[u8], p: PlayerId) -> (r: u8)
    ensures
        r == rank_of(ranks@, p),
{
    if (p.0 as usize) < ranks.len() {
        ranks[p.0 as usize]
    } else {
        u8::MAX
    }
}

fn may_go(
    a: (ShipId, u8, PlayerId),
    b: (ShipId, u8, PlayerId),
    ranks: &[u8],
    high: bool,
) -> (yes: bool)
    ensures
        yes == goes(a, b, ranks@, high),
{
    let ra: u8 = rank(ranks, a.2);
    let rb: u8 = rank(ranks, b.2);
    if a.1 != b.1 {
        if high {
            a.1 > b.1
        } else {
            a.1 < b.1
        }
    } else if ra != rb {
        ra < rb
    } else {
        a.0.0 <= b.0.0
    }
}

proof fn let_in_is_insert(
    line: Seq<(ShipId, u8, PlayerId)>,
    x: (ShipId, u8, PlayerId),
    ranks: Seq<u8>,
    high: bool,
    p: int,
)
    requires
        0 <= p <= line.len(),
        p > 0 ==> goes(line[p - 1], x, ranks, high),
        forall|j: int| p <= j < line.len() ==> !goes(#[trigger] line[j], x, ranks, high),
    ensures
        let_in(line, x, ranks, high) == line.insert(p, x),
    decreases line.len(),
{
    if p == line.len() {
        assert(line.insert(p, x) =~= line.push(x));
    } else {
        let rest = line.drop_last();
        assert forall|j: int| p <= j < rest.len() implies !goes(
            #[trigger] rest[j],
            x,
            ranks,
            high,
        ) by {
            assert(rest[j] == line[j]);
        }
        let_in_is_insert(rest, x, ranks, high, p);
        assert(!goes(line[line.len() - 1], x, ranks, high));
        assert(rest.insert(p, x).push(line.last()) =~= line.insert(p, x));
    }
}

fn line_up(ships: &[(ShipId, u8, PlayerId)], ranks: &[u8], high: bool) -> (line: Vec<
    (ShipId, u8, PlayerId),
>)
    ensures
        line@ == lined_up(ships@, ranks@, high),
{
    let mut line: Vec<(ShipId, u8, PlayerId)> = Vec::new();
    let mut i: usize = 0;
    assert(line@ =~= lined_up(ships@.take(0), ranks@, high));
    while i < ships.len()
        invariant
            i <= ships.len(),
            line@ == lined_up(ships@.take(i as int), ranks@, high),
            line@.len() == i,
        decreases ships.len() - i,
    {
        let x = ships[i];
        let mut p: usize = line.len();
        while p > 0 && !may_go(line[p - 1], x, ranks, high)
            invariant
                p <= line.len(),
                forall|j: int| p <= j < line@.len() ==> !goes(#[trigger] line@[j], x, ranks@, high),
            decreases p,
        {
            p = p - 1;
        }
        proof {
            let_in_is_insert(line@, x, ranks@, high, p as int);
            assert(ships@.take(i + 1).drop_last() =~= ships@.take(i as int));
        }
        line.insert(p, x);
        i = i + 1;
    }
    assert(ships@.take(i as int) =~= ships@);
    line
}

fn list_ids(line: &Vec<(ShipId, u8, PlayerId)>) -> (list: Vec<ShipId>)
    ensures
        list@ == ids(line@),
{
    let mut list: Vec<ShipId> = Vec::new();
    let mut i: usize = 0;
    while i < line.len()
        invariant
            i <= line.len(),
            list@.len() == i,
            forall|k: int| 0 <= k < i ==> list@[k] == line@[k].0,
        decreases line.len() - i,
    {
        list.push(line[i].0);
        i = i + 1;
    }
    assert(list@ =~= ids(line@));
    list
}

/// Movement phase order: LOWEST pilot skill moves first. At equal skill
/// the initiative player's ships go first; then ship id.
pub fn movement_order(ships: &[(ShipId, u8, PlayerId)], ranks: &[u8]) -> (order: Vec<ShipId>)
    ensures
        order@ == ids(lined_up(ships@, ranks@, false)),
        in_order(lined_up(ships@, ranks@, false), ranks@, false),
        lined_up(ships@, ranks@, false).to_multiset() == ships@.to_multiset(),
{
    proof {
        order_is_fair(ships@, ranks@, false);
    }
    list_ids(&line_up(ships, ranks, false))
}

/// Combat phase order: HIGHEST pilot skill fires first. At equal skill
/// the initiative player's ships fire first; then ship id.
pub fn combat_order(ships: &[(ShipId, u8, PlayerId)], ranks: &[u8]) -> (order: Vec<ShipId>)
    ensures
        order@ == ids(lined_up(ships@, ranks@, true)),
        in_order(lined_up(ships@, ranks@, true), ranks@, true),
        lined_up(ships@, ranks@, true).to_multiset() == ships@.to_multiset(),
{
    proof {
        order_is_fair(ships@, ranks@, true);
    }
    list_ids(&line_up(ships, ranks, true))
}

/// How well a maneuver replaces a red one, judging color AFTER crit
/// modifiers: a white straight (0), any white (1), anything not red (2), or
/// not at all.
pub open spec fn tier(crits: Seq<CritEffect>, m: Maneuver) -> Option<u8> {
    let color = colored(crits, m);
    if color == Difficulty::Normal {
        if m.steer == Steer::Straight {
            Some(0)
        } else {
            Some(1)
        }
    } else if color == Difficulty::Easy {
        Some(2)
    } else {
        None
    }
}

/// Is `m` a better replacement than `best`: of a better tier, or slower?
pub open spec fn replaces(crits: Seq<CritEffect>, best: Option<Maneuver>, m: Maneuver) -> bool {
    match tier(crits, m) {
        None => false,
        Some(t) => match best {
            None => true,
            Some(b) => {
                let tb = tier(crits, b)->0;
                t < tb || (t == tb && m.distance < b.distance)
            },
        },
    }
}

/// The best replacement of the maneuvers on a dial: the slowest of the best
/// tier, the first on the dial of those as slow.
pub open spec fn replacement(crits: Seq<CritEffect>, dial: Seq<Maneuver>) -> Option<Maneuver>
    decreases dial.len(),
{
    if dial.len() == 0 {
        None
    } else {
        let best = replacement(crits, dial.drop_last());
        if replaces(crits, best, dial.last()) {
            Some(dial.last())
        } else {
            best
        }
    }
}

fn tier_of(crits: &[CritEffect], m: &Maneuver) -> (t: Option<u8>)
    ensures
        t == tier(crits@, *m),
{
    match effective_difficulty(crits, m) {
        Difficulty::Normal => {
            if m.steer == Steer::Straight {
                Some(0)
            } else {
                Some(1)
            }
        },
        Difficulty::Easy => Some(2),
        Difficulty::Hard => None,
    }
}

/// Replacement for a red maneuver revealed while stressed: prefer the
/// slowest white straight, then any slowest white, then any non-red —
/// judging color AFTER crit modifiers.
pub fn substitute_non_red(dial: &[Maneuver], crits: &[CritEffect]) -> (m: Option<Maneuver>)
    ensures
        m == replacement(crits@, dial@),
{
    let mut best: Option<Maneuver> = None;
    let mut i: usize = 0;
    while i < dial.len()
        invariant
            i <= dial.len(),
            best == replacement(crits@, dial@.take(i as int)),
            best is Some ==> tier(crits@, best->0) is Some,
        decreases dial.len() - i,
    {
        assert(dial@.take(i + 1).drop_last() =~= dial@.take(i as int));
        let m = dial[i];
        if let Some(t) = tier_of(crits, &m) {
            match best {
                None => {
                    best = Some(m);
                },
                Some(b) => {
                    if let Some(tb) = tier_of(crits, &b) {
                        if t < tb || (t == tb && m.distance < b.distance) {
                            best = Some(m);
                        }
                    }
                },
            }
        }
        i = i + 1;
    }
    assert(dial@.take(i as int) =~= dial@);
    best
}

/// The replacement is on the dial and not red, whatever crits the ship has;
/// there is one unless every maneuver is red.
pub proof fn a_replacement_is_never_red(crits: Seq<CritEffect>, dial: Seq<Maneuver>)
    ensures
        replacement(crits, dial) is Some ==> dial.contains(replacement(crits, dial)->0) && colored(
            crits,
            replacement(crits, dial)->0,
        ) != Difficulty::Hard,
        replacement(crits, dial) is None ==> forall|k: int|
            0 <= k < dial.len() ==> colored(crits, #[trigger] dial[k]) == Difficulty::Hard,
    decreases dial.len(),
{
    if dial.len() > 0 {
        let rest = dial.drop_last();
        a_replacement_is_never_red(crits, rest);
        if replaces(crits, replacement(crits, rest), dial.last()) {
            assert(dial[dial.len() - 1] == dial.last());
        } else if replacement(crits, rest) is Some {
            let m = replacement(crits, rest)->0;
            let k = choose|k: int| 0 <= k < rest.len() && rest[k] == m;
            assert(dial[k] == m);
        } else {
            assert forall|k: int| 0 <= k < dial.len() implies colored(crits, #[trigger] dial[k])
                == Difficulty::Hard by {
                if k < rest.len() {
                    assert(rest[k] == dial[k]);
                }
            }
        }
    }
}

proof fn places_skip(totals: Seq<u32>, low: u32, from: int, j: int)
    requires
        0 <= from <= j <= totals.len(),
        forall|i: int| from <= i < j ==> #[trigger] totals[i] != low,
    ensures
        places_of(totals, low, from) == places_of(totals, low, j),
    decreases j - from,
{
    if from < j {
        places_skip(totals, low, from + 1, j);
    }
}

/// A tie for the lowest total goes to the first of those tied on a hit or a
/// critical, and to the second otherwise.
pub proof fn ties_go_by_the_roll(totals: Seq<u32>, tie_roll: AttackFace, j: int, k: int)
    requires
        0 <= j < k < totals.len() <= usize::MAX,
        totals[j] == totals[k],
        forall|i: int| 0 <= i < totals.len() ==> #[trigger] totals[i] >= totals[j],
        forall|i: int| 0 <= i < k && i != j ==> #[trigger] totals[i] > totals[j],
    ensures
        holder(totals, tie_roll) == if tie_roll == AttackFace::Hit || tie_roll == AttackFace::Crit {
            j
        } else {
            k
        },
{
    let low = lowest(totals, u32::MAX);
    lowest_is_low(totals);
    let l = choose|l: int| 0 <= l < totals.len() && #[trigger] totals[l] == low;
    assert(totals[j] >= low && totals[l] >= totals[j]);
    places_skip(totals, low, 0, j);
    places_skip(totals, low, j + 1, k);
    let tied = places_of(totals, low, 0);
    assert(tied[0] == j);
    assert(tied[1] == k) by {
        assert(places_of(totals, low, j) == seq![j as usize] + places_of(totals, low, k));
        assert(places_of(totals, low, k)[0] == k);
    }
}

/// A red maneuver revealed under stress is replaced by the slowest white
/// straight of the dial, else by the slowest white, else by the slowest that
/// is not red.
pub proof fn the_gentlest_replacement_is_flown(
    crits: Seq<CritEffect>,
    dial: Seq<Maneuver>,
    k: int,
)
    requires
        0 <= k < dial.len(),
    ensures
        ({
            let (best, m) = (replacement(crits, dial), dial[k]);
            let (b, white) = (best->0, Difficulty::Normal);
            let (cb, cm) = (colored(crits, b), colored(crits, m));
            &&& cm != Difficulty::Hard ==> best is Some && cb != Difficulty::Hard
            &&& cm == white ==> cb == white
            &&& cm == white && m.steer == Steer::Straight ==> b.steer == Steer::Straight
                && b.distance <= m.distance
            &&& cm == white && b.steer != Steer::Straight ==> b.distance <= m.distance
            &&& cm == Difficulty::Easy && cb == Difficulty::Easy ==> b.distance <= m.distance
        }),
    decreases dial.len(),
{
    let rest = dial.drop_last();
    a_replacement_is_never_red(crits, rest);
    if rest.len() > 0 {
        the_gentlest_replacement_is_flown(
            crits,
            rest,
            if k < rest.len() {
                k
            } else {
                0
            },
        );
    }
    if k < rest.len() {
        assert(rest[k] == dial[k]);
    }
}

} // verus!
