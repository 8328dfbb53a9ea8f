//! Looking cards, ships and dials up, counting points, and what the templates
//! and the damage deck hold.

use vstd::prelude::*;

use crate::crit::{deck, drawn, worst, CritEffect};
use crate::data::{find_class, find_pilot, find_set, find_upgrade, flying, of_slot, Content};
use crate::maneuver::{turned, Maneuver, ManeuverSet, ManeuverSetId, Segment, Steer, Template};
use crate::pilot::{Pilot, PilotId, Source};
use crate::ship::{ShipClass, ShipClassId};
use crate::squad::{cards_cost, digits, ship_cost, ships_cost, SquadShip};
use crate::text::{alike, small};
use crate::upgrade::{Slot, Upgrade, UpgradeId};

verus! {

/// A class that is found has the id and comes first of those that do; none is
/// found only where none has it.
pub proof fn classes_are_found_by_id(s: Seq<ShipClass>, id: ShipClassId)
    ensures
        find_class(s, id) is None ==> forall|k: int| 0 <= k < s.len() ==> (#[trigger] s[k]).id != id,
        find_class(s, id) is Some ==> exists|k: int|
            0 <= k < s.len() && #[trigger] s[k] == find_class(s, id)->0 && s[k].id == id
                && forall|j: int| 0 <= j < k ==> (#[trigger] s[j]).id != id,
    decreases s.len(),
{
    if s.len() > 0 {
        let rest = s.skip(1);
        classes_are_found_by_id(rest, id);
        if s[0].id != id {
            if find_class(rest, id) is Some {
                let k = choose|k: int|
                    0 <= k < rest.len() && #[trigger] rest[k] == find_class(rest, id)->0
                        && rest[k].id == id && forall|j: int|
                        0 <= j < k ==> (#[trigger] rest[j]).id != id;
                assert forall|j: int| 0 <= j < k + 1 implies (#[trigger] s[j]).id != id by {
                    if j > 0 {
                        assert(rest[j - 1].id != id);
                    }
                }
                assert(s[k + 1] == rest[k]);
            } else {
                assert forall|k: int| 0 <= k < s.len() implies (#[trigger] s[k]).id != id by {
                    if k > 0 {
                        assert(rest[k - 1].id != id);
                    }
                }
            }
        } else {
            assert(s[0] == find_class(s, id)->0);
        }
    }
}

/// The same of pilots.
pub proof fn pilots_are_found_by_id(s: Seq<Pilot>, id: PilotId)
    ensures
        find_pilot(s, id) is None ==> forall|k: int| 0 <= k < s.len() ==> (#[trigger] s[k]).id != id,
        find_pilot(s, id) is Some ==> exists|k: int|
            0 <= k < s.len() && #[trigger] s[k] == find_pilot(s, id)->0 && s[k].id == id
                && forall|j: int| 0 <= j < k ==> (#[trigger] s[j]).id != id,
    decreases s.len(),
{
    if s.len() > 0 {
        let rest = s.skip(1);
        pilots_are_found_by_id(rest, id);
        if s[0].id != id {
            if find_pilot(rest, id) is Some {
                let k = choose|k: int|
                    0 <= k < rest.len() && #[trigger] rest[k] == find_pilot(rest, id)->0
                        && rest[k].id == id && forall|j: int|
                        0 <= j < k ==> (#[trigger] rest[j]).id != id;
                assert forall|j: int| 0 <= j < k + 1 implies (#[trigger] s[j]).id != id by {
                    if j > 0 {
                        assert(rest[j - 1].id != id);
                    }
                }
                assert(s[k + 1] == rest[k]);
            } else {
                assert forall|k: int| 0 <= k < s.len() implies (#[trigger] s[k]).id != id by {
                    if k > 0 {
                        assert(rest[k - 1].id != id);
                    }
                }
            }
        } else {
            assert(s[0] == find_pilot(s, id)->0);
        }
    }
}

/// The same of cards.
pub proof fn cards_are_found_by_id(s: Seq<Upgrade>, id: UpgradeId)
    ensures
        find_upgrade(s, id) is None ==> forall|k: int|
            0 <= k < s.len() ==> (#[trigger] s[k]).id != id,
        find_upgrade(s, id) is Some ==> exists|k: int|
            0 <= k < s.len() && #[trigger] s[k] == find_upgrade(s, id)->0 && s[k].id == id
                && forall|j: int| 0 <= j < k ==> (#[trigger] s[j]).id != id,
    decreases s.len(),
{
    if s.len() > 0 {
        let rest = s.skip(1);
        cards_are_found_by_id(rest, id);
        if s[0].id != id {
            if find_upgrade(rest, id) is Some {
                let k = choose|k: int|
                    0 <= k < rest.len() && #[trigger] rest[k] == find_upgrade(rest, id)->0
                        && rest[k].id == id && forall|j: int|
                        0 <= j < k ==> (#[trigger] rest[j]).id != id;
                assert forall|j: int| 0 <= j < k + 1 implies (#[trigger] s[j]).id != id by {
                    if j > 0 {
                        assert(rest[j - 1].id != id);
                    }
                }
                assert(s[k + 1] == rest[k]);
            } else {
                assert forall|k: int| 0 <= k < s.len() implies (#[trigger] s[k]).id != id by {
                    if k > 0 {
                        assert(rest[k - 1].id != id);
                    }
                }
            }
        } else {
            assert(s[0] == find_upgrade(s, id)->0);
        }
    }
}

/// The same of dials.
pub proof fn dials_are_found_by_id(s: Seq<ManeuverSet>, id: ManeuverSetId)
    ensures
        find_set(s, id) is None ==> forall|k: int| 0 <= k < s.len() ==> (#[trigger] s[k]).id != id,
        find_set(s, id) is Some ==> exists|k: int|
            0 <= k < s.len() && #[trigger] s[k] == find_set(s, id)->0 && s[k].id == id && forall|
                j: int,
            |
                0 <= j < k ==> (#[trigger] s[j]).id != id,
    decreases s.len(),
{
    if s.len() > 0 {
        let rest = s.skip(1);
        dials_are_found_by_id(rest, id);
        if s[0].id != id {
            if find_set(rest, id) is Some {
                let k = choose|k: int|
                    0 <= k < rest.len() && #[trigger] rest[k] == find_set(rest, id)->0
                        && rest[k].id == id && forall|j: int|
                        0 <= j < k ==> (#[trigger] rest[j]).id != id;
                assert forall|j: int| 0 <= j < k + 1 implies (#[trigger] s[j]).id != id by {
                    if j > 0 {
                        assert(rest[j - 1].id != id);
                    }
                }
                assert(s[k + 1] == rest[k]);
            } else {
                assert forall|k: int| 0 <= k < s.len() implies (#[trigger] s[k]).id != id by {
                    if k > 0 {
                        assert(rest[k - 1].id != id);
                    }
                }
            }
        } else {
            assert(s[0] == find_set(s, id)->0);
        }
    }
}

/// What a card does, where it fits and what it costs is what its first entry
/// says; an unknown card does nothing and fits nowhere.
pub proof fn cards_are_what_their_entry_says(content: Content, id: UpgradeId)
    ensures
        content.card(id) is None ==> content.does(id) is None && content.fits(id) is None,
        content.card(id) is Some ==> content.does(id) == content.card(id)->0.effect && content.fits(
            id,
        ) == Some(content.card(id)->0.slot),
{
}

/// The cards of a slot are all that have it, and no others.
pub proof fn slots_list_their_cards(s: Seq<Upgrade>, slot: Slot, u: Upgrade)
    ensures
        of_slot(s, slot).contains(u) <==> s.contains(u) && u.slot == slot,
    decreases s.len(),
{
    if s.len() > 0 {
        let less = s.drop_last();
        slots_list_their_cards(less, slot, u);
        let rest = of_slot(less, slot);
        let all = of_slot(s, slot);
        assert(s.contains(u) <==> less.contains(u) || s.last() == u) by {
            if s.contains(u) {
                let k = choose|k: int| 0 <= k < s.len() && s[k] == u;
                if k < less.len() {
                    assert(less[k] == u);
                }
            }
            if less.contains(u) {
                let k = choose|k: int| 0 <= k < less.len() && less[k] == u;
                assert(s[k] == u);
            }
            assert(s[s.len() - 1] == s.last());
        }
        if s.last().slot == slot {
            if all.contains(u) {
                let k = choose|k: int| 0 <= k < all.len() && all[k] == u;
                if k < rest.len() {
                    assert(rest[k] == u);
                }
            }
            if rest.contains(u) {
                let k = choose|k: int| 0 <= k < rest.len() && rest[k] == u;
                assert(all[k] == u);
            }
            assert(all[rest.len() as int] == s.last());
        }
    }
}

/// The pilots of a class are all that fly it from the sources wanted, and no
/// others.
pub proof fn classes_list_their_pilots(
    s: Seq<Pilot>,
    class: ShipClassId,
    sources: Option<Seq<Source>>,
    p: Pilot,
)
    ensures
        flying(s, class, sources).contains(p) <==> s.contains(p) && p.class == class && (sources
            is None || sources->0.contains(p.source)),
    decreases s.len(),
{
    if s.len() > 0 {
        let less = s.drop_last();
        classes_list_their_pilots(less, class, sources, p);
        let rest = flying(less, class, sources);
        let all = flying(s, class, sources);
        assert(s.contains(p) <==> less.contains(p) || s.last() == p) by {
            if s.contains(p) {
                let k = choose|k: int| 0 <= k < s.len() && s[k] == p;
                if k < less.len() {
                    assert(less[k] == p);
                }
            }
            if less.contains(p) {
                let k = choose|k: int| 0 <= k < less.len() && less[k] == p;
                assert(s[k] == p);
            }
            assert(s[s.len() - 1] == s.last());
        }
        if all.len() > rest.len() {
            if all.contains(p) {
                let k = choose|k: int| 0 <= k < all.len() && all[k] == p;
                if k < rest.len() {
                    assert(rest[k] == p);
                }
            }
            if rest.contains(p) {
                let k = choose|k: int| 0 <= k < rest.len() && rest[k] == p;
                assert(all[k] == p);
            }
            assert(all[rest.len() as int] == s.last());
        }
    }
}

/// Cards cost what each of them costs, together.
pub proof fn card_points_add_up(content: Content, a: Seq<UpgradeId>, b: Seq<UpgradeId>)
    ensures
        cards_cost(content, a + b) == cards_cost(content, a) + cards_cost(content, b),
    decreases b.len(),
{
    if b.len() == 0 {
        assert(a + b =~= a);
    } else {
        assert((a + b).drop_last() =~= a + b.drop_last());
        card_points_add_up(content, a, b.drop_last());
    }
}

/// A known card costs its printed points, an unknown one nothing; a ship costs
/// its pilot and its cards; a squad costs its ships, together.
pub proof fn squad_points_add_up(
    content: Content,
    card: UpgradeId,
    ship: SquadShip,
    a: Seq<SquadShip>,
    b: Seq<SquadShip>,
)
    ensures
        cards_cost(content, seq![card]) == match content.card(card) {
            Some(u) => u.cost as int,
            None => 0,
        },
        ship_cost(content, ship) - cards_cost(content, ship.upgrades@) == match content.flyer(
            ship.pilot,
        ) {
            Some(p) => p.cost as int,
            None => 0,
        },
        ships_cost(content, seq![ship]) == ship_cost(content, ship),
        ships_cost(content, a + b) == ships_cost(content, a) + ships_cost(content, b),
    decreases b.len(),
{
    reveal_with_fuel(cards_cost, 2);
    reveal_with_fuel(ships_cost, 2);
    assert(seq![card].drop_last() =~= Seq::<UpgradeId>::empty());
    assert(seq![ship].drop_last() =~= Seq::<SquadShip>::empty());
    if b.len() == 0 {
        assert(a + b =~= a);
    } else {
        assert((a + b).drop_last() =~= a + b.drop_last());
        squad_points_add_up(content, card, ship, a, b.drop_last());
    }
}

/// The number that decimal digits stand for.
pub open spec fn number(s: Seq<char>) -> int
    decreases s.len(),
{
    if s.len() == 0 {
        0
    } else {
        10 * number(s.drop_last()) + (s.last() as int - '0' as int)
    }
}

/// Digits stand for their number, and are digits.
pub proof fn digits_stand_for_their_number(n: nat)
    ensures
        number(digits(n)) == n,
        forall|k: int| 0 <= k < digits(n).len() ==> '0' <= #[trigger] digits(n)[k] <= '9',
        digits(n).len() > 0,
        n > 0 ==> digits(n)[0] != '0',
    decreases n,
{
    reveal_with_fuel(number, 2);
    if n < 10 {
        assert(digits(n).drop_last() =~= Seq::<char>::empty());
    } else {
        digits_stand_for_their_number(n / 10);
        assert(digits(n).drop_last() =~= digits(n / 10));
        assert(digits(n)[0] == digits(n / 10)[0]);
    }
}

/// A maneuver is flown with the template of its name, at its speed: straights
/// do not turn the ship, banks turn it by an eighth and turns by a quarter, to
/// the side they say.
pub proof fn templates_turn_as_they_say(m: Maneuver)
    ensures
        ({
            let path = m.path();
            let bank = m.steer == Steer::BankLeft || m.steer == Steer::BankRight || m.steer
                == Steer::SegnorLeft || m.steer == Steer::SegnorRight;
            let turn = m.steer == Steer::TurnLeft || m.steer == Steer::TurnRight || m.steer
                == Steer::TallonLeft || m.steer == Steer::TallonRight;
            &&& m.steer == Steer::Straight ==> turned(path) == 0
            &&& m.steer == Steer::BankLeft ==> turned(path) == 1
            &&& m.steer == Steer::BankRight ==> turned(path) == -1
            &&& m.steer == Steer::TurnLeft ==> turned(path) == 2
            &&& m.steer == Steer::TurnRight ==> turned(path) == -2
            &&& !bank && !turn ==> path[0] == Segment::Line(Template::Straight(m.distance))
            &&& bank ==> path[0] is Arc && path[0]->template == Template::Bank(m.distance)
            &&& turn ==> path[0] is Arc && path[0]->template == Template::Turn(m.distance)
        }),
{
    reveal_with_fuel(turned, 3);
}

/// There are templates for straights and Koiogran turns up to speed 5, for
/// banks up to 3 and for turns up to 4; only a straight may have speed 0.
pub proof fn templates_exist_up_to_their_speed(m: Maneuver)
    ensures
        m.steer == Steer::Straight ==> (m.flyable() <==> m.distance <= 5),
        m.steer == Steer::KTurn ==> (m.flyable() <==> 1 <= m.distance <= 5),
        m.steer == Steer::BankLeft || m.steer == Steer::BankRight || m.steer == Steer::SegnorLeft
            || m.steer == Steer::SegnorRight ==> (m.flyable() <==> 1 <= m.distance <= 3),
        m.steer == Steer::TurnLeft || m.steer == Steer::TurnRight || m.steer == Steer::TallonLeft
            || m.steer == Steer::TallonRight ==> (m.flyable() <==> 1 <= m.distance <= 4),
{
}

/// The damage deck holds each of its fourteen cards once; Weapons Failure is
/// dealt for two rounds.
pub proof fn the_deck_holds_each_card_once(raw: u8)
    ensures
        deck().len() == 14,
        forall|j: int, k: int| 0 <= j < k < 14 ==> #[trigger] deck()[j] != #[trigger] deck()[k],
        deck().contains(drawn(raw)),
        raw < 14 ==> drawn(raw) == match raw {
            0 => CritEffect::BlindedPilot,
            1 => CritEffect::ConsoleFire,
            2 => CritEffect::DamagedCockpit,
            3 => CritEffect::DamagedEngine,
            4 => CritEffect::DamagedSensorArray,
            5 => CritEffect::DirectHit,
            6 => CritEffect::InjuredPilot,
            7 => CritEffect::MinorExplosion,
            8 => CritEffect::MinorHullBreach,
            9 => CritEffect::StunnedPilot,
            10 => CritEffect::ThrustControlFire,
            11 => CritEffect::WeaponMalfunction,
            12 => CritEffect::WeaponsFailure { rounds: 2 },
            _ => CritEffect::StructuralDamage,
        },
{
    assert(deck()[raw as int % 14] == drawn(raw));
}

/// The worst of three damage cards is one of them, and none is worse.
pub proof fn the_worst_card_is_worst(a: CritEffect, b: CritEffect, c: CritEffect)
    ensures
        ({
            let w = worst(a, b, c);
            &&& w == a || w == b || w == c
            &&& w.rank() >= a.rank() && w.rank() >= b.rank() && w.rank() >= c.rank()
        }),
        CritEffect::DirectHit.rank() > (CritEffect::WeaponsFailure { rounds: 2 }).rank(),
        (CritEffect::WeaponsFailure { rounds: 2 }).rank() > CritEffect::BlindedPilot.rank(),
        CritEffect::BlindedPilot.rank() > CritEffect::MinorExplosion.rank(),
        CritEffect::MinorExplosion.rank() > CritEffect::ConsoleFire.rank(),
        CritEffect::ConsoleFire.rank() > CritEffect::StructuralDamage.rank(),
        CritEffect::StructuralDamage.rank() > CritEffect::WeaponMalfunction.rank(),
        CritEffect::WeaponMalfunction.rank() > CritEffect::DamagedSensorArray.rank(),
        CritEffect::DamagedSensorArray.rank() > CritEffect::DamagedCockpit.rank(),
        CritEffect::DamagedCockpit.rank() > CritEffect::InjuredPilot.rank(),
        CritEffect::InjuredPilot.rank() > CritEffect::StunnedPilot.rank(),
        CritEffect::StunnedPilot.rank() > CritEffect::DamagedEngine.rank(),
        CritEffect::DamagedEngine.rank() > CritEffect::ThrustControlFire.rank(),
        CritEffect::ThrustControlFire.rank() > CritEffect::MinorHullBreach.rank(),
{
}

/// Names are alike when they differ in the case of letters at most: every name
/// is like itself, and names like the same name are alike.
pub proof fn likeness_ignores_case(a: Seq<char>, b: Seq<char>, c: Seq<char>)
    ensures
        alike(a, a),
        alike(a, b) <==> alike(b, a),
        alike(a, b) && alike(b, c) ==> alike(a, c),
        alike(a, b) ==> a.len() == b.len(),
        small('A') == 'a',
        small('Z') == 'z',
        small('a') == 'a',
        small('0') == '0',
{
    if alike(a, b) {
        assert forall|k: int| 0 <= k < b.len() implies small(#[trigger] b[k]) == small(a[k]) by {
            assert(small(a[k]) == small(b[k]));
        }
    }
    if alike(b, a) {
        assert forall|k: int| 0 <= k < a.len() implies small(#[trigger] a[k]) == small(b[k]) by {
            assert(small(b[k]) == small(a[k]));
        }
    }
    if alike(a, b) && alike(b, c) {
        assert forall|k: int| 0 <= k < a.len() implies small(#[trigger] a[k]) == small(c[k]) by {
            assert(small(a[k]) == small(b[k]));
            assert(small(b[k]) == small(c[k]));
        }
    }
}

} // verus!
