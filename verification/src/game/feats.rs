//! Single feats of pilots, crew and cards: what each does, and that it does
//! nothing more.

use vstd::prelude::*;

use crate::action::{boost_steer, ActionResult, BoostDir, PlannedAction};
use crate::crit::CritEffect;
use crate::data::Content;
use crate::dice::{attack_face, count, rerolling, spot, AttackFace};
use crate::event::Event;
use crate::game::actions::Moves;
use crate::game::arsenal::one_more;
use crate::game::bonds::a_spent_lock_is_gone;
use crate::game::cards::{one_if, toggles};
use crate::game::deeds::{a_discarded_card_is_gone, is_named};
use crate::game::hazards::others_stay;
use crate::game::mods::{best_die, Throw};
use crate::game::orders::ids_find_their_ship;
use crate::game::rejection::Rejection;
use crate::game::state::{AttackOption, Game, Phase, Play, Shot};
use crate::game::targets::turrets;
use crate::maneuver::Steer;
use crate::pick::{first, first_is_first, picked_obey};
use crate::pilot::PilotAbility;
use crate::ship::{PlayerId, ShipId, ShipModel};
use crate::sight::Sight;
use crate::squad::{callsign_of, digits};
use crate::upgrade::{Slot, UpgradeEffect, UpgradeId};

verus! {

/// A boost is flown with the template it names.
pub proof fn boosts_name_their_template(dir: BoostDir)
    ensures
        boost_steer(dir) == match dir {
            BoostDir::Straight => Steer::Straight,
            BoostDir::BankLeft => Steer::BankLeft,
            BoostDir::BankRight => Steer::BankRight,
            BoostDir::TurnLeft => Steer::TurnLeft,
            BoostDir::TurnRight => Steer::TurnRight,
        },
{
}

/// Protecting puts an evade token on the living shuttle at Range 1; without
/// it, it fails and nobody gains one.
pub proof fn protecting_evades_for_the_shuttle(
    g: Game,
    content: Content,
    sight: Sight,
    moves: Moves,
    i: int,
    k: int,
)
    requires
        g.ships.len() <= usize::MAX,
        0 <= i < g.ships.len(),
        g.mission is Some,
        g.mission->0.shuttle is Some,
        is_named(g, k, g.mission->0.shuttle->0),
    ensures
        ({
            let (h, r, dropped) = g.performing(content, sight, moves, i, PlannedAction::Protect);
            let near = !g.ships[k].destroyed && g.ships[i].pose is Some && g.ships[k].pose is Some
                && sight.at(i, k).band == Some(1u8);
            &&& r == if near {
                ActionResult::Performed
            } else {
                ActionResult::Failed
            }
            &&& h.ships[k] == if near {
                ShipModel { evade: one_more(g.ships[k].evade), ..g.ships[k] }
            } else {
                g.ships[k]
            }
            &&& others_stay(g, h, k)
        }),
{
    reveal(Game::performing);
    ids_find_their_ship(g, g.mission->0.shuttle->0, k);
}

/// Expert Handling removes the first enemy lock on the ship after a roll; a
/// ship without the card keeps it.
pub proof fn expert_handling_sheds_a_lock(
    g: Game,
    content: Content,
    sight: Sight,
    i: int,
    e: int,
)
    requires
        g.ships.len() <= usize::MAX,
        0 <= i < g.ships.len(),
        0 <= e < g.ships.len(),
        g.ships[i].bar(content).contains(crate::action::ActionKind::BarrelRoll),
        g.side(g.ships[e].owner) != g.side(g.ships[i].owner),
        g.ships[e].locks(g.ships[i].id),
        forall|j: int|
            0 <= j < e ==> g.side((#[trigger] g.ships[j]).owner) == g.side(g.ships[i].owner)
                || !g.ships[j].locks(g.ships[i].id),
    ensures
        ({
            let h = g.expert_rolled(content, sight, i);
            let aboard = g.ships[i].effects(
                content,
                UpgradeEffect::BarrelRollActionDiscardLock,
            ) > 0;
            &&& aboard ==> !h.ships[e].locks(g.ships[i].id) && others_stay(g, h, e)
            &&& !aboard ==> h == g
        }),
{
    let rule = g.lock_holder_rule(i, g.ships[i].id);
    first_is_first(rule, 0, g.ships.len() as int);
    assert(rule(e));
    let f = first(rule, 0, g.ships.len() as int)->0 as int;
    assert(rule(f));
    if f < e {
        assert(g.side(g.ships[f].owner) == g.side(g.ships[i].owner) || !g.ships[f].locks(
            g.ships[i].id,
        ));
    } else if e < f {
        assert(!rule(e));
    }
    a_spent_lock_is_gone(g.ships[e], g.ships[i].id);
}

/// Fleet Officer gives the ship itself and the first friend at Range 1-2 a
/// focus token, before the stress that follows.
pub proof fn fleet_officers_focus_two(g: Game, content: Content, sight: Sight, i: int, j: int)
    requires
        g.ships.len() <= usize::MAX,
        0 <= i < g.ships.len(),
        0 <= j < g.ships.len(),
    ensures
        ({
            let near = g.near(sight, i, 2);
            let h = g.officer(i, seq![i as usize] + near, 0);
            &&& g.commanding(content, sight, i) == h.stressed(content, sight, i)
            &&& h.ships[j] == if j == i || (near.len() > 0 && j == near[0]) {
                ShipModel { focus: one_more(g.ships[j].focus), ..g.ships[j] }
            } else {
                g.ships[j]
            }
        }),
{
    reveal(Game::commanding);
    let near = g.near(sight, i, 2);
    let places = seq![i as usize] + near;
    picked_obey(g.friend_rule(sight, i, 2), 0, g.ships.len() as int);
    let one = g.with_ship(i, g.ships[i].with_focus()).saying(
        Event::FleetOfficer(i as usize, i as usize),
    );
    assert(g.officer(i, places, 0) == one.officer(i, places, 1));
    if near.len() > 0 {
        assert(places[1] == near[0]);
        assert(g.friend_rule(sight, i, 2)(near[0] as int));
        let f = near[0] as int;
        let two = one.with_ship(f, one.ships[f].with_focus()).saying(
            Event::FleetOfficer(i as usize, near[0]),
        );
        assert(one.officer(i, places, 1) == two.officer(i, places, 2));
        assert(two.officer(i, places, 2) == two);
    } else {
        assert(one.officer(i, places, 1) == one);
    }
}

/// R7-T1 needs a living enemy at Range 1-2. It locks the first such enemy if
/// that one has the ship in arc, and boosts straight where there is room.
pub proof fn r7t1_locks_and_boosts(
    g: Game,
    content: Content,
    sight: Sight,
    moves: Moves,
    i: int,
    e: int,
)
    requires
        g.ships.len() <= usize::MAX,
        0 <= i < g.ships.len(),
        0 <= e < g.ships.len(),
        hounds(g, sight, i, e),
        forall|j: int| 0 <= j < e ==> !#[trigger] hounds(g, sight, i, j),
    ensures
        ({
            let (h, r) = g.r7t1(content, sight, moves, i);
            let id = g.ships[e].id;
            let seen = sight.at(e, i).in_arc;
            let open = moves.straight is Some && !moves.straight->0.blocked && (
            !moves.straight->0.on_obstacle || g.has(
                content,
                i,
                UpgradeEffect::SystemOverlapObstaclesOnReposition,
            ));
            &&& r == ActionResult::Performed
            &&& seen ==> h.ships[i].lock == Some(id) || h.ships[i].lock2 == Some(id)
            &&& !seen ==> h.ships[i].lock == g.ships[i].lock && h.ships[i].lock2
                == g.ships[i].lock2
            &&& h.ships[i].pose == if open {
                Some(moves.straight->0.pose)
            } else {
                g.ships[i].pose
            }
            &&& others_stay(g, h, i)
        }),
{
    reveal(Game::r7t1);
    let rule = g.r7t1_rule(sight, i);
    first_is_first(rule, 0, g.ships.len() as int);
    assert(rule(e));
    let f = first(rule, 0, g.ships.len() as int)->0 as int;
    assert(rule(f));
    if f < e {
        assert(hounds(g, sight, i, f));
    } else if e < f {
        assert(!rule(e));
    }
    let l = g.locking(content, i, e).saying(Event::R7T1Locks(i as usize, e as usize));
    assert(l.ships[i].effects(content, UpgradeEffect::SystemOverlapObstaclesOnReposition)
        == g.ships[i].effects(content, UpgradeEffect::SystemOverlapObstaclesOnReposition));
}

/// Ship `e` is a living enemy at Range 1-2 of ship `i`.
pub open spec fn hounds(g: Game, sight: Sight, i: int, e: int) -> bool {
    let band = sight.at(i, e).band;
    &&& g.side(g.ships[e].owner) != g.side(g.ships[i].owner)
    &&& !g.ships[e].destroyed
    &&& g.ships[i].pose is Some && g.ships[e].pose is Some
    &&& band == Some(1u8) || band == Some(2u8)
}

/// A card action that the ship may take is on record for the round, and told;
/// one that it may not take fails and changes nothing.
pub proof fn card_actions_are_recorded(
    g: Game,
    content: Content,
    sight: Sight,
    moves: Moves,
    i: int,
    card: UpgradeId,
)
    requires
        0 <= i < g.ships.len(),
    ensures
        ({
            let (h, r) = g.card_acting(content, sight, moves, i, card);
            let open = g.card_actions(content, sight, i).contains(card);
            let e = content.does(card);
            let plain = e == Some(UpgradeEffect::FocusToCritOthersToHitAction) || e == Some(
                UpgradeEffect::ExposeAction,
            ) || e == Some(UpgradeEffect::AgilityPlus1Action);
            &&& !open ==> h == g && r == ActionResult::Failed
            &&& open && plain ==> r == ActionResult::Performed && h.ships[i] == (ShipModel {
                card_actions: g.ships[i].card_actions.push(card),
                ..g.ships[i]
            }) && others_stay(g, h, i)
        }),
{
}

/// The options with a turret card are those of the list that have one.
pub proof fn turret_options_are_turrets(
    content: Content,
    options: Seq<AttackOption>,
    o: AttackOption,
)
    ensures
        count(turrets(content, options), o) == if o.weapon is Some && content.fits(o.weapon->0)
            == Some(Slot::Turret) {
            count(options, o)
        } else {
            0
        },
    decreases options.len(),
{
    if options.len() > 0 {
        turret_options_are_turrets(content, options.drop_last(), o);
        crate::dice::count_push(turrets(content, options.drop_last()), o, options.last());
    }
}

/// BTL-A4 Y-Wing fires a turret after a primary attack only, once per round,
/// where no other shot waits.
pub proof fn y_wings_follow_primary_attacks(
    g: Game,
    content: Content,
    sight: Sight,
    a: int,
    shot: Shot,
)
    requires
        0 <= a < g.ships.len(),
        g.combat is Some,
    ensures
        ({
            let h = g.turret_follows(content, sight, a, shot);
            let card = g.unused(content, a, UpgradeEffect::TitleArcOnlyThenTurretAttack);
            let acts = shot.weapon is None && !g.ships[a].destroyed && g.combat->0.followup is None
                && card is Some;
            &&& !acts ==> h == g
            &&& acts ==> h.ships[a].used_round == g.ships[a].used_round.push(card->0)
                && others_stay(g, h, a)
        }),
{
    reveal(Game::turret_follows);
}

/// Elusiveness has the attacker's best die rerolled for a stress token, by an
/// unstressed defender, where anything lands.
pub proof fn elusiveness_rerolls_the_best_die(
    t: Throw<AttackFace>,
    content: Content,
    sight: Sight,
    d: int,
)
    ensures
        ({
            let u = t.eluded(content, sight, d);
            let best = best_die(t.faces);
            let acts = best is Some && t.game.ships[d].stress == 0 && t.game.has(
                content,
                d,
                UpgradeEffect::ForceRerollForStress,
            );
            &&& !acts ==> u == t
            &&& acts ==> u.faces == t.faces.update(
                best->0 as int,
                attack_face(t.dice.shows()),
            ) && u.dice == t.dice.rolled() && u.game == t.game.saying(
                Event::Elusiveness(d as usize),
            ).stressed(content, sight, d)
        }),
{
}

/// The best die is a critical, else a hit, the first of them.
pub proof fn the_best_die_is_best(faces: Seq<AttackFace>)
    requires
        faces.len() <= usize::MAX,
    ensures
        ({
            let best = best_die(faces);
            let k = best->0 as int;
            let crit = exists|j: int| 0 <= j < faces.len() && #[trigger] faces[j]
                == AttackFace::Crit;
            let hit = exists|j: int| 0 <= j < faces.len() && #[trigger] faces[j] == AttackFace::Hit;
            &&& best is Some <==> crit || hit
            &&& best is Some ==> k < faces.len() && faces[k] == if crit {
                AttackFace::Crit
            } else {
                AttackFace::Hit
            }
        }),
{
    crate::dice::a_spot_is_the_first(faces, AttackFace::Crit, 0);
    crate::dice::a_spot_is_the_first(faces, AttackFace::Hit, 0);
}

/// R7 Astromech has every hit and critical rerolled for the defender's lock on
/// the attacker, where anything lands.
pub proof fn r7_rerolls_for_the_lock(t: Throw<AttackFace>, content: Content, a: int, d: int)
    requires
        0 <= d < t.game.ships.len(),
    ensures
        ({
            let u = t.lock_rerolled(content, a, d);
            let id = t.game.ships[a].id;
            let acts = best_die(t.faces) is Some && t.game.ships[d].locks(id) && t.game.has(
                content,
                d,
                UpgradeEffect::ForceRerollWithLock,
            );
            let hand = rerolling(t.faces, t.dice, seq![AttackFace::Crit, AttackFace::Hit], 255);
            &&& !acts ==> u == t
            &&& acts ==> u.faces == hand.faces && u.dice == hand.dice
            &&& acts ==> u.game.ships[d].lock != Some(id) && u.game.ships[d].lock2 != Some(id)
                && others_stay(t.game, u.game, d)
        }),
{
    a_spent_lock_is_gone(t.game.ships[d], t.game.ships[a].id);
}

/// M9-G8 has one die of a locked attacker rerolled: the best one of an enemy,
/// a blank of a friend.
pub proof fn m9g8_rerolls_one_die(t: Throw<AttackFace>, a: int, place: usize)
    ensures
        ({
            let u = t.m9g8(a, seq![place], 0);
            let die = if t.game.side(t.game.ships[place as int].owner) != t.game.side(
                t.game.ships[a].owner,
            ) {
                best_die(t.faces)
            } else {
                spot(t.faces, AttackFace::Blank)
            };
            &&& die is None ==> u == t
            &&& die is Some ==> u.faces == t.faces.update(
                die->0 as int,
                attack_face(t.dice.shows()),
            ) && u.dice == t.dice.rolled() && u.game.ships == t.game.ships
        }),
{
    reveal_with_fuel(Throw::m9g8, 2);
}

/// A stealth device goes when the ship is hit, and every other card stays.
pub proof fn stealth_goes_when_hit(
    g: Game,
    content: Content,
    i: int,
    cards: Seq<UpgradeId>,
    k: int,
    card: UpgradeId,
)
    requires
        0 <= i < g.ships.len(),
        0 <= k <= cards.len(),
    ensures
        ({
            let h = g.hit_discards(content, i, cards, k);
            let goes = content.does(card) == Some(UpgradeEffect::AgilityPlus1DiscardWhenHit)
                && exists|j: int| k <= j < cards.len() && #[trigger] cards[j] == card;
            &&& count(h.ships[i].upgrades, card) == if goes {
                0
            } else {
                count(g.ships[i].upgrades, card)
            }
            &&& h.ships[i] == ShipModel { upgrades: h.ships[i].upgrades, ..g.ships[i] }
            &&& others_stay(g, h, i)
        }),
    decreases cards.len() - k,
{
    if k < cards.len() {
        let this = content.does(cards[k]) == Some(UpgradeEffect::AgilityPlus1DiscardWhenHit);
        let next = if this {
            g.with_ship(i, g.ships[i].without(cards[k])).saying(
                Event::DiscardedOnHit(i as usize, cards[k]),
            )
        } else {
            g
        };
        stealth_goes_when_hit(next, content, i, cards, k + 1, card);
        a_discarded_card_is_gone(g.ships[i].upgrades, cards[k]);
        if exists|j: int| k <= j < cards.len() && #[trigger] cards[j] == card {
            let j = choose|j: int| k <= j < cards.len() && #[trigger] cards[j] == card;
            if j > k {
                assert(cards[j] == card);
            }
        }
        if exists|j: int| k + 1 <= j < cards.len() && #[trigger] cards[j] == card {
            let j = choose|j: int| k + 1 <= j < cards.len() && #[trigger] cards[j] == card;
            assert(cards[j] == card);
        }
    }
}

/// How many dice a weapon card throws is printed on it; the primary weapon
/// throws the printed attack, one more with Expose.
pub proof fn weapons_throw_their_dice(g: Game, content: Content, a: int, shot: Shot)
    requires
        0 <= a < g.ships.len(),
        g.ships[a].printed(content).attack < u8::MAX,
    ensures
        shot.secondary(content) is Some ==> g.weapon_dice(content, a, shot) == shot.secondary(
            content,
        )->0.dice,
        shot.secondary(content) is None ==> g.weapon_dice(content, a, shot) == g.ships[a].printed(
            content,
        ).attack + one_if(g.ships[a].acting(content, UpgradeEffect::ExposeAction)),
{
}

/// Range 1 gives the primary weapon one more die, unless Zertik Strom is at
/// hand; Dorsal Turret has its own there, Proton Rockets theirs by agility up
/// to three, and Trick Shot one for an obstructed attack.
pub proof fn range_and_cards_add_dice(
    g: Game,
    content: Content,
    sight: Sight,
    a: int,
    shot: Shot,
)
    requires
        0 <= a < g.ships.len(),
        g.weapon_dice(content, a, shot) <= 240,
    ensures
        ({
            let n = g.base_dice(content, sight, a, shot);
            let close = shot.range == 1;
            let primary = shot.secondary(content) is None;
            let strom = g.enemy_ability(content, sight, a, PilotAbility::DenyEnemyRange1Bonus);
            let dorsal = shot.rider(content) == Some(UpgradeEffect::TurretDorsalExtraDieAtRange1);
            let rocket = shot.rider(content) == Some(UpgradeEffect::RocketExtraDiceByAgility);
            let agility = g.agility(content, sight, a);
            let trick = sight.at(a, shot.d_idx as int).obstructed && g.has(
                content,
                a,
                UpgradeEffect::ExtraAttackDieIfObstructed,
            );
            n == g.weapon_dice(content, a, shot) + one_if(close && primary && !strom) + one_if(
                close && dorsal,
            ) + (if rocket {
                if agility < 3 {
                    agility as int
                } else {
                    3
                }
            } else {
                0
            }) + one_if(trick)
        }),
{
    reveal(Game::base_dice);
}

/// A blinded pilot throws no dice once, and the card is gone.
pub proof fn blinded_pilots_throw_no_dice(
    g: Game,
    content: Content,
    sight: Sight,
    a: int,
    shot: Shot,
)
    requires
        0 <= a < g.ships.len(),
        g.ships[a].crits.contains(CritEffect::BlindedPilot),
        g.ships[a].crits.len() <= usize::MAX,
    ensures
        ({
            let (h, n) = g.gunnery(content, sight, a, shot);
            &&& n == 0
            &&& h.ships[a].crits.len() == g.ships[a].crits.len() - 1
            &&& h.ships[a] == ShipModel { crits: h.ships[a].crits, ..g.ships[a] }
            &&& others_stay(g, h, a)
        }),
{
    reveal(Game::gunnery);
    reveal(Game::dice_told);
    crate::dice::a_spot_is_the_first(g.ships[a].crits, CritEffect::BlindedPilot, 0);
}

/// A ship may be renamed by its owner while ships are placed, and by nobody
/// else.
pub proof fn owners_rename_their_ships(g: Game, player: PlayerId, id: ShipId, k: int)
    requires
        g.ships.len() <= usize::MAX,
        is_named(g, k, id),
    ensures
        g.rename_refused(player, id) == if g.phase != Phase::Placement {
            Some(Rejection::WrongPhase)
        } else if g.ships[k].owner != player {
            Some(Rejection::NotYourShip)
        } else {
            None
        },
{
    ids_find_their_ship(g, id, k);
}

/// A name is taken when another ship bears one like it.
pub proof fn names_are_taken_by_others(g: Game, id: ShipId, name: Seq<char>, k: int)
    requires
        g.ships.len() <= usize::MAX,
        0 <= k < g.ships.len(),
    ensures
        g.ships[k].id != id && crate::text::alike(g.ships[k].callsign, name) ==> g.name_taken(
            id,
            name,
        ),
        g.name_taken(id, name) ==> exists|j: int|
            0 <= j < g.ships.len() && (#[trigger] g.ships[j]).id != id && crate::text::alike(
                g.ships[j].callsign,
                name,
            ),
{
    let rule = g.namesake_rule(id, name);
    first_is_first(rule, 0, g.ships.len() as int);
    if g.ships[k].id != id && crate::text::alike(g.ships[k].callsign, name) {
        assert(rule(k));
    }
    if g.name_taken(id, name) {
        let j = first(rule, 0, g.ships.len() as int)->0 as int;
        assert(rule(j));
        assert(g.ships[j].id != id);
    }
}

/// A ship bears its own callsign; else the first is the leader of its squad,
/// and the others are numbered from 2 on.
pub proof fn callsigns_number_the_squad(own: Seq<char>, squad: Seq<char>, k: int)
    requires
        k >= 0,
    ensures
        own.len() > 0 ==> callsign_of(own, squad, k) == own,
        own.len() == 0 && k == 0 ==> callsign_of(own, squad, k) == squad + "-leader"@,
        own.len() == 0 && k > 0 ==> callsign_of(own, squad, k) == squad + "-"@ + digits(
            (k + 1) as nat,
        ),
{
}

/// The dial that an Intelligence Agent reads is that of a living enemy at
/// Range 1-2, and no other readable one is nearer.
pub proof fn agents_read_the_nearest_dial(g: Game, sight: Sight, k: int, n: int)
    requires
        g.ships.len() <= usize::MAX,
        0 <= k < g.ships.len(),
        0 <= n <= g.ships.len(),
    ensures
        ({
            let best = g.spied(sight, k, n);
            let b = best->0 as int;
            &&& best is Some ==> 0 <= b < n && legible(g, sight, k, b)
            &&& forall|e: int|
                0 <= e < n && #[trigger] legible(g, sight, k, e) ==> best is Some && sight.at(
                    k,
                    b,
                ).band->0 <= sight.at(k, e).band->0
        }),
    decreases n,
{
    if n > 0 {
        agents_read_the_nearest_dial(g, sight, k, n - 1);
        assert(g.readable(sight, k, n - 1) == legible(g, sight, k, n - 1));
    }
}

/// Ship `e` is a living enemy with a dial at Range 1-2 of ship `k`.
pub open spec fn legible(g: Game, sight: Sight, k: int, e: int) -> bool {
    let s = g.ships[e];
    &&& !s.destroyed && s.plan is Some
    &&& g.side(s.owner) != g.side(g.ships[k].owner)
    &&& g.ships[k].pose is Some && s.pose is Some
    &&& sight.at(k, e).band is Some && sight.at(k, e).band->0 <= 2
}

/// Draw Their Fire takes one critical off a defender without shields, and the
/// friend that draws it loses a point.
pub proof fn martyrs_take_one_critical(
    p: Play,
    content: Content,
    sight: Sight,
    d: int,
    crits: u8,
)
    ensures
        ({
            let (q, left) = p.fire_drawn(content, sight, d, crits);
            let friend = p.game.martyr(content, sight, d);
            let acts = crits > 0 && p.game.ships[d].shields == 0 && friend is Some;
            &&& !acts ==> q == p && left == crits
            &&& acts ==> left == crits - 1
        }),
{
    reveal(Play::fire_drawn);
}

/// A free lock of a Systems Officer, or a free action that Lando Calrissian
/// grants, needs the card or the ability, and a living ship.
pub proof fn helpers_need_their_card(g: Game, content: Content, sight: Sight, i: int)
    ensures
        g.ships[i].destroyed || !g.has(content, i, UpgradeEffect::CrewFriendlyLockAfterGreen)
            ==> g.systems(content, sight, i) == g,
        g.ships[i].destroyed || g.ships[i].ability(content) != Some(
            PilotAbility::FriendlyFreeActionAfterGreen,
        ) ==> g.landoed(content, sight, i) == g,
{
    reveal(Game::systems);
    reveal(Game::landoed);
}

/// Lando Calrissian gives the first friend at Range 1 that may act a focus
/// token, if that is on its bar, else an evade token.
pub proof fn lando_grants_a_bar_action(
    g: Game,
    content: Content,
    sight: Sight,
    i: int,
    m: int,
)
    requires
        g.ships.len() <= usize::MAX,
        0 <= i < g.ships.len(),
        !g.ships[i].destroyed,
        g.ships[i].ability(content) == Some(PilotAbility::FriendlyFreeActionAfterGreen),
        0 <= m < g.near(sight, i, 1).len(),
        g.ships[g.near(sight, i, 1)[m] as int].free_to_act(content),
        forall|l: int|
            0 <= l < m ==> !g.ships[#[trigger] g.near(sight, i, 1)[l] as int].free_to_act(content),
    ensures
        ({
            let h = g.landoed(content, sight, i);
            let f = g.near(sight, i, 1)[m] as int;
            let s = g.ships[f];
            let focus = s.bar(content).contains(crate::action::ActionKind::Focus);
            let evade = s.bar(content).contains(crate::action::ActionKind::Evade);
            &&& h.ships[f] == if focus {
                ShipModel { focus: one_more(s.focus), ..s }
            } else if evade {
                ShipModel { evade: one_more(s.evade), ..s }
            } else {
                s
            }
            &&& others_stay(g, h, f)
        }),
{
    reveal(Game::landoed);
    let near = g.near(sight, i, 1);
    picked_obey(g.friend_rule(sight, i, 1), 0, g.ships.len() as int);
    let rule = g.free_rule(content, near);
    first_is_first(rule, 0, near.len() as int);
    assert(rule(m));
    assert forall|l: int| 0 <= l < m implies !#[trigger] rule(l) by {
        assert(!g.ships[near[l] as int].free_to_act(content));
    }
    assert(first(rule, 0, near.len() as int) == Some(m as usize));
}

/// A card may be switched on if it counts for the ship and is one that is
/// switched on; else it is refused.
pub proof fn switches_need_their_card(
    g: Game,
    content: Content,
    player: PlayerId,
    id: ShipId,
    k: int,
    card: UpgradeId,
)
    requires
        g.ships.len() <= usize::MAX,
        is_named(g, k, id),
        g.order_refused(player, id) is None,
    ensures
        g.card_refused(content, player, id, card) == if toggles(
            content,
            g.ships[k].active(content),
        ).contains(card) {
            None
        } else {
            Some(Rejection::NoSuchUpgrade)
        },
{
    ids_find_their_ship(g, id, k);
}

/// Mines under a ship go off one after another until it is destroyed, and each
/// that goes off is off the board.
pub proof fn mines_go_off_while_the_ship_lives(
    p: Play,
    content: Content,
    sight: Sight,
    i: usize,
    mines: Seq<crate::bombs::BombToken>,
    k: int,
    done: Seq<crate::bombs::DetonationModel>,
    netted: bool,
)
    requires
        0 <= k <= mines.len(),
        i < p.game.ships.len(),
    ensures
        ({
            let (q, all, caught) = p.mines_going_off(content, sight, i, mines, k, done, netted);
            &&& k < mines.len() && p.game.ships[i as int].destroyed ==> all == done && caught
                == netted && q.game.ships == p.game.ships
            &&& k == mines.len() ==> q == p && all == done && caught == netted
            &&& all.len() >= done.len() && all.len() <= done.len() + (mines.len() - k)
            &&& netted ==> caught
            &&& forall|j: int| 0 <= j < done.len() ==> #[trigger] all[j] == done[j]
            &&& k < mines.len() && !p.game.ships[i as int].destroyed ==> all.len() > done.len()
                && all[done.len() as int].token == mines[k]
            &&& k < mines.len() && !p.game.ships[i as int].destroyed && mines[k].kind
                == crate::bombs::BombKind::ConnerNet ==> caught
        }),
    decreases mines.len() - k,
{
    if k < mines.len() {
        let c = p.at(p.game.cleared_of(mines[k].id));
        if !c.game.ships[i as int].destroyed {
            let (q, hits) = c.detonated(content, sight, mines[k].kind, seq![i]);
            let next = done.push(crate::bombs::DetonationModel { token: mines[k], hits });
            let net = netted || mines[k].kind == crate::bombs::BombKind::ConnerNet;
            mines_run_on(q, content, sight, i, mines, k + 1, next, net);
            let all = p.mines_going_off(content, sight, i, mines, k, done, netted).1;
            assert(all[done.len() as int] == next[done.len() as int]);
            assert forall|j: int| 0 <= j < done.len() implies #[trigger] all[j] == done[j] by {
                assert(all[j] == next[j]);
            }
        }
    }
}

proof fn mines_run_on(
    p: Play,
    content: Content,
    sight: Sight,
    i: usize,
    mines: Seq<crate::bombs::BombToken>,
    k: int,
    done: Seq<crate::bombs::DetonationModel>,
    netted: bool,
)
    requires
        0 <= k <= mines.len(),
    ensures
        ({
            let (q, all, caught) = p.mines_going_off(content, sight, i, mines, k, done, netted);
            &&& all.len() >= done.len() && all.len() <= done.len() + (mines.len() - k)
            &&& netted ==> caught
            &&& forall|j: int| 0 <= j < done.len() ==> #[trigger] all[j] == done[j]
        }),
    decreases mines.len() - k,
{
    if k < mines.len() {
        let c = p.at(p.game.cleared_of(mines[k].id));
        if !c.game.ships[i as int].destroyed {
            let (q, hits) = c.detonated(content, sight, mines[k].kind, seq![i]);
            let next = done.push(crate::bombs::DetonationModel { token: mines[k], hits });
            let net = netted || mines[k].kind == crate::bombs::BombKind::ConnerNet;
            mines_run_on(q, content, sight, i, mines, k + 1, next, net);
            let all = p.mines_going_off(content, sight, i, mines, k, done, netted).1;
            assert forall|j: int| 0 <= j < done.len() implies #[trigger] all[j] == done[j] by {
                assert(all[j] == next[j]);
            }
        }
    }
}

/// A Snap Shot is fired with its card at Range 1, no dice modified, and the
/// shooter has fired it for the round.
pub proof fn snap_shots_are_fired_once(
    p: Play,
    content: Content,
    sight: Sight,
    moves: Moves,
    s: usize,
    i: usize,
)
    requires
        s < p.game.ships.len(),
    ensures
        ({
            let (q, record) = p.snapped(content, sight, moves, s, i);
            let fires = p.game.snaps_at(content, sight, s as int, i as int);
            let shot = Shot {
                d_idx: i,
                range: 1,
                weapon: p.game.card(content, s as int, UpgradeEffect::SnapShotReaction),
                second: false,
                focus_hit: false,
                no_mods: true,
            };
            let ready = p.game.with_ship(
                s as int,
                ShipModel { snap_shot_fired: true, ..p.game.ships[s as int] },
            ).saying(Event::SnapShot(s, i));
            &&& !fires ==> q == p && record is None
            &&& fires ==> record is Some && (q, record->0) == p.at(ready).attacked(
                content,
                sight,
                moves,
                s as int,
                shot,
            )
        }),
{
    reveal(Play::snapped);
}

} // verus!
