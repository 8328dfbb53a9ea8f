//! How cards and pilots change the dice: which results turn into which, what
//! it costs, and when.

use vstd::prelude::*;

use crate::data::Content;
use crate::dice::{
    a_spot_is_the_first, count, count_push, landing_dice_are_counted, rerolling, spot,
    turning_some_turns_the_first, AttackFace, DefenseFace,
};
use crate::event::{Event, ExtraDie};
use crate::game::arsenal::one_more;
use crate::game::hazards::others_stay;
use crate::game::mods::{attack_misses, defense_misses, Throw};
use crate::game::state::{Game, Shot};
use crate::pilot::PilotAbility;
use crate::ship::{ShipId, ShipModel};
use crate::sight::Sight;
use crate::upgrade::{AttackRequirement, Slot, UpgradeEffect};

verus! {

/// The first die of a kind lies at `k`.
pub open spec fn first_at<F>(faces: Seq<F>, f: F, k: int) -> bool {
    &&& 0 <= k < faces.len()
    &&& faces[k] == f
    &&& forall|j: int| 0 <= j < k ==> #[trigger] faces[j] != f
}

/// The first `from`, where there is one, has become a `to`; nothing else has.
pub open spec fn one_turned<F>(before: Seq<F>, after: Seq<F>, from: F, to: F) -> bool {
    &&& after.len() == before.len()
    &&& forall|k: int| #[trigger] first_at(before, from, k) ==> after == before.update(k, to)
    &&& (forall|k: int| 0 <= k < before.len() ==> #[trigger] before[k] != from) ==> after == before
}

/// Every `from` has become a `to`; nothing else has changed.
pub open spec fn all_turned<F>(before: Seq<F>, after: Seq<F>, from: F, to: F) -> bool {
    &&& after.len() == before.len()
    &&& forall|k: int|
        0 <= k < before.len() ==> #[trigger] after[k] == if before[k] == from {
            to
        } else {
            before[k]
        }
}

proof fn a_spot_is_first_at<F>(faces: Seq<F>, f: F)
    requires
        faces.len() <= usize::MAX,
    ensures
        forall|k: int| #[trigger] first_at(faces, f, k) ==> spot(faces, f) == Some(k as usize),
        spot(faces, f) is Some ==> first_at(faces, f, spot(faces, f)->0 as int),
        (forall|k: int| 0 <= k < faces.len() ==> #[trigger] faces[k] != f) <==> spot(faces, f)
            is None,
{
    a_spot_is_the_first(faces, f, 0);
    assert forall|k: int| #[trigger] first_at(faces, f, k) implies spot(faces, f) == Some(
        k as usize,
    ) by {
        assert(faces[k] == f);
        let p = spot(faces, f)->0 as int;
        assert(faces[p] == f);
        if p < k {
            assert(faces[p] != f);
        } else if k < p {
            assert(faces[k] != f);
        }
    }
}

/// A conversion that is allowed turns the first result of its kind and tells
/// it; one that is not turns nothing.
pub proof fn conversions_turn_one_die(
    g: Game,
    allowed: bool,
    faces: Seq<AttackFace>,
    from: AttackFace,
    to: AttackFace,
    event: Event,
)
    requires
        faces.len() <= usize::MAX,
    ensures
        ({
            let (h, after) = g.swapping(allowed, faces, from, to, event);
            &&& allowed ==> one_turned(faces, after, from, to)
            &&& !allowed ==> after == faces
            &&& h.ships == g.ships
        }),
{
    reveal(Game::swapping);
    a_spot_is_first_at(faces, from);
}

/// Adv. Targeting Computer adds one critical to a primary attack on a locked
/// ship, and the lock stays.
pub proof fn targeting_computers_add_a_critical(
    g: Game,
    content: Content,
    a: int,
    shot: Shot,
    faces: Seq<AttackFace>,
)
    requires
        0 <= a < g.ships.len(),
        shot.d_idx < g.ships.len(),
    ensures
        ({
            let (h, after, held) = g.computing(content, a, shot, faces);
            let id = g.ships[shot.d_idx as int].id;
            let acts = shot.secondary(content) is None && (g.ships[a].lock == Some(id)
                || g.ships[a].lock2 == Some(id)) && g.has(
                content,
                a,
                UpgradeEffect::SystemAddCritWithLock,
            );
            &&& held == acts
            &&& count(after, AttackFace::Crit) == count(faces, AttackFace::Crit) + if acts {
                1nat
            } else {
                0
            }
            &&& after.len() == faces.len() + if acts {
                1nat
            } else {
                0
            }
            &&& forall|k: int| 0 <= k < faces.len() ==> #[trigger] after[k] == faces[k]
            &&& h.ships == g.ships
        }),
{
    reveal(Game::computing);
    count_push(faces, AttackFace::Crit, AttackFace::Crit);
}

/// Han Solo (crew) spends the lock to make hits of all eyes, where no focus
/// token is held and there are as many eyes as blanks.
pub proof fn han_turns_eyes_for_the_lock(
    g: Game,
    content: Content,
    a: int,
    defender: ShipId,
    faces: Seq<AttackFace>,
)
    requires
        0 <= a < g.ships.len(),
    ensures
        ({
            let (h, after, used) = g.han_crew(content, a, defender, faces);
            let s = g.ships[a];
            let eyes = count(faces, AttackFace::Focus);
            &&& used == ((s.lock == Some(defender) || s.lock2 == Some(defender)) && s.focus == 0
                && eyes > 0 && eyes >= count(faces, AttackFace::Blank) && g.has(
                content,
                a,
                UpgradeEffect::CrewLockAllFocusToHit,
            ))
            &&& used ==> all_turned(faces, after, AttackFace::Focus, AttackFace::Hit)
            &&& used ==> h.ships[a].lock != Some(defender) && h.ships[a].lock2 != Some(defender)
            &&& !used ==> after == faces && h == g
            &&& others_stay(g, h, a)
        }),
{
    reveal(Game::han_crew);
}

/// Omega Ace makes criticals of all dice for the lock and a focus token.
pub proof fn omega_ace_turns_every_die(
    g: Game,
    content: Content,
    a: int,
    defender: ShipId,
    faces: Seq<AttackFace>,
)
    requires
        0 <= a < g.ships.len(),
    ensures
        ({
            let (h, after, used) = g.omega_ace(content, a, defender, faces);
            let (s, t) = (g.ships[a], h.ships[a]);
            &&& used == (s.ability(content) == Some(PilotAbility::SpendLockAndFocusForAllCrits) && (
            s.lock == Some(defender) || s.lock2 == Some(defender)) && s.focus > 0 && faces.len()
                > 0)
            &&& used ==> after.len() == faces.len() && forall|k: int|
                0 <= k < after.len() ==> #[trigger] after[k] == AttackFace::Crit
            &&& used ==> t.focus == s.focus - 1 && t.lock != Some(defender) && t.lock2 != Some(
                defender,
            )
            &&& !used ==> after == faces && h == g
            &&& others_stay(g, h, a)
        }),
{
    reveal(Game::omega_ace);
}

/// Kir Kanos buys one more hit with an evade token at Range 2-3.
pub proof fn kir_kanos_buys_a_hit(
    g: Game,
    content: Content,
    a: int,
    range: u8,
    faces: Seq<AttackFace>,
)
    requires
        0 <= a < g.ships.len(),
    ensures
        ({
            let (h, after) = g.kir_kanos(content, a, range, faces);
            let s = g.ships[a];
            let acts = (range == 2 || range == 3) && s.evade > 0 && s.ability(content) == Some(
                PilotAbility::SpendEvadeForHitAtRange2To3,
            );
            &&& acts ==> after == faces.push(AttackFace::Hit) && h.ships[a] == (ShipModel {
                evade: (s.evade - 1) as u8,
                ..s
            })
            &&& !acts ==> after == faces && h == g
            &&& others_stay(g, h, a)
        }),
{
    reveal(Game::kir_kanos);
}

/// Guidance Chips turn one die of a torpedo or missile once per round: a
/// blank, else an eye that no token will convert. It becomes a hit, or a
/// critical where the primary weapon has three dice.
pub proof fn guidance_chips_turn_one_die(
    g: Game,
    content: Content,
    a: int,
    shot: Shot,
    faces: Seq<AttackFace>,
)
    requires
        0 <= a < g.ships.len(),
        faces.len() <= usize::MAX,
    ensures
        ({
            let (h, after) = g.chips(content, a, shot, faces);
            let s = g.ships[a];
            let slot = content.fits(shot.weapon->0);
            let armed = shot.weapon is Some && (slot == Some(Slot::Torpedo) || slot == Some(
                Slot::Missile,
            )) && g.unused(content, a, UpgradeEffect::OrdnanceDieToHit) is Some;
            let to = if s.printed(content).attack >= 3 {
                AttackFace::Crit
            } else {
                AttackFace::Hit
            };
            let blank = exists|k: int|
                0 <= k < faces.len() && #[trigger] faces[k] == AttackFace::Blank;
            &&& !armed ==> after == faces && h == g
            &&& armed && blank ==> one_turned(faces, after, AttackFace::Blank, to)
            &&& armed && !blank && s.focus == 0 ==> one_turned(faces, after, AttackFace::Focus, to)
            &&& armed && !blank && s.focus > 0 ==> after == faces && h == g
            &&& h.ships[a].focus == s.focus && others_stay(g, h, a)
        }),
{
    reveal(Game::chips);
    a_spot_is_first_at(faces, AttackFace::Blank);
    a_spot_is_first_at(faces, AttackFace::Focus);
}

/// Marksmanship makes a critical of the first eye and hits of the others.
pub proof fn marksmen_turn_eyes(g: Game, content: Content, a: int, faces: Seq<AttackFace>, p: int)
    requires
        0 <= a < g.ships.len(),
        faces.len() <= usize::MAX,
        first_at(faces, AttackFace::Focus, p),
    ensures
        ({
            let (h, after) = g.marksman(content, a, faces);
            let acts = g.ships[a].acting(content, UpgradeEffect::FocusToCritOthersToHitAction);
            &&& !acts ==> after == faces
            &&& acts ==> after.len() == faces.len() && after[p] == AttackFace::Crit
            &&& acts ==> forall|k: int|
                0 <= k < faces.len() && k != p ==> #[trigger] after[k] == if faces[k]
                    == AttackFace::Focus {
                    AttackFace::Hit
                } else {
                    faces[k]
                }
            &&& h.ships == g.ships
        }),
{
    reveal(Game::marksman);
    a_spot_is_first_at(faces, AttackFace::Focus);
}

/// Expertise makes hits of all eyes while the ship is not stressed.
pub proof fn experts_turn_eyes_unstressed(
    g: Game,
    content: Content,
    a: int,
    faces: Seq<AttackFace>,
)
    requires
        0 <= a < g.ships.len(),
        faces.len() <= usize::MAX,
    ensures
        ({
            let (h, after) = g.expertise(content, a, faces);
            let acts = g.ships[a].stress == 0 && g.has(
                content,
                a,
                UpgradeEffect::AllFocusToHitIfUnstressed,
            );
            &&& acts ==> all_turned(faces, after, AttackFace::Focus, AttackFace::Hit)
            &&& !acts ==> after == faces
            &&& h.ships == g.ships
        }),
{
    reveal(Game::expertise);
    a_spot_is_first_at(faces, AttackFace::Focus);
}

/// Calculation makes a critical of the only eye for a focus token.
pub proof fn calculation_buys_a_critical(
    g: Game,
    content: Content,
    a: int,
    faces: Seq<AttackFace>,
)
    requires
        0 <= a < g.ships.len(),
        faces.len() <= usize::MAX,
    ensures
        ({
            let (h, after, used) = g.calculating(content, a, faces);
            let s = g.ships[a];
            &&& used ==> s.focus > 0 && count(faces, AttackFace::Focus) == 1 && g.has(
                content,
                a,
                UpgradeEffect::FocusToCritSpendFocus,
            )
            &&& used ==> one_turned(faces, after, AttackFace::Focus, AttackFace::Crit)
            &&& used ==> h.ships[a] == (ShipModel { focus: (s.focus - 1) as u8, ..s })
            &&& !used ==> after == faces && h == g
            &&& others_stay(g, h, a)
        }),
{
    reveal(Game::calculating);
    a_spot_is_first_at(faces, AttackFace::Focus);
}

/// A focus token makes hits of all eyes, and is not spent without one.
pub proof fn focus_tokens_turn_eyes(g: Game, a: int, faces: Seq<AttackFace>)
    requires
        0 <= a < g.ships.len(),
        faces.len() <= usize::MAX,
    ensures
        ({
            let (h, after, used) = g.focusing_in(a, faces);
            let s = g.ships[a];
            &&& used == (s.focus > 0 && exists|k: int|
                0 <= k < faces.len() && #[trigger] faces[k] == AttackFace::Focus)
            &&& used ==> all_turned(faces, after, AttackFace::Focus, AttackFace::Hit)
            &&& used ==> h.ships[a] == (ShipModel { focus: (s.focus - 1) as u8, ..s })
            &&& !used ==> after == faces && h == g
            &&& others_stay(g, h, a)
        }),
{
    reveal(Game::focusing_in);
    a_spot_is_first_at(faces, AttackFace::Focus);
}

/// Weapons Guidance makes a hit of a blank for a focus token.
pub proof fn guidance_buys_a_hit(g: Game, content: Content, a: int, faces: Seq<AttackFace>)
    requires
        0 <= a < g.ships.len(),
        faces.len() <= usize::MAX,
    ensures
        ({
            let (h, after, used) = g.guiding(content, a, faces);
            let s = g.ships[a];
            &&& used == (s.focus > 0 && g.has(content, a, UpgradeEffect::BlankToHitSpendFocus)
                && exists|k: int|
                0 <= k < faces.len() && #[trigger] faces[k] == AttackFace::Blank)
            &&& used ==> one_turned(faces, after, AttackFace::Blank, AttackFace::Hit)
            &&& used ==> h.ships[a] == (ShipModel { focus: (s.focus - 1) as u8, ..s })
            &&& !used ==> after == faces && h == g
            &&& others_stay(g, h, a)
        }),
{
    reveal(Game::guiding);
    a_spot_is_first_at(faces, AttackFace::Blank);
}

/// R3 Astromech takes one eye off the roll and gives an evade token for it,
/// once per round.
pub proof fn r3_trades_an_eye_for_an_evade(
    g: Game,
    content: Content,
    a: int,
    allowed: bool,
    faces: Seq<AttackFace>,
)
    requires
        0 <= a < g.ships.len(),
        faces.len() <= usize::MAX,
    ensures
        ({
            let (h, after) = g.r3_astromech(content, a, allowed, faces);
            let s = g.ships[a];
            let card = g.unused(content, a, UpgradeEffect::CancelFocusForEvade);
            let acts = allowed && card is Some && exists|k: int|
                0 <= k < faces.len() && #[trigger] faces[k] == AttackFace::Focus;
            &&& !acts ==> after == faces && h == g
            &&& acts ==> forall|p: int| #[trigger] first_at(faces, AttackFace::Focus, p) ==> after
                == faces.remove(p)
            &&& acts ==> h.ships[a].evade == one_more(s.evade) && h.ships[a].used_round
                == s.used_round.push(card->0)
            &&& h.ships[a].focus == s.focus && others_stay(g, h, a)
        }),
{
    reveal(Game::r3_astromech);
    a_spot_is_first_at(faces, AttackFace::Focus);
}

/// Accuracy Corrector makes two hits of a roll in which fewer than two dice
/// land.
pub proof fn correctors_make_two_hits(
    g: Game,
    content: Content,
    a: int,
    allowed: bool,
    faces: Seq<AttackFace>,
)
    ensures
        ({
            let (h, after) = g.correcting(content, a, allowed, faces);
            let acts = allowed && g.has(content, a, UpgradeEffect::SystemCancelAllAddTwoHits)
                && count(faces, AttackFace::Hit) + count(faces, AttackFace::Crit) < 2;
            &&& acts ==> after.len() == 2 && after[0] == AttackFace::Hit && after[1]
                == AttackFace::Hit
            &&& !acts ==> after == faces
            &&& h.ships == g.ships
        }),
{
    reveal(Game::correcting);
    landing_dice_are_counted(faces, false);
}

/// Wampa cancels a roll whose only landing die is a critical.
pub proof fn wampa_cashes_in_a_lone_critical(
    g: Game,
    content: Content,
    a: int,
    faces: Seq<AttackFace>,
)
    requires
        faces.len() <= usize::MAX,
    ensures
        ({
            let (h, after, used) = g.wampa(content, a, faces);
            &&& used == (g.ships[a].ability(content) == Some(
                PilotAbility::CancelAllForFacedownDamage,
            ) && (exists|k: int| 0 <= k < faces.len() && #[trigger] faces[k] == AttackFace::Crit)
                && count(faces, AttackFace::Hit) + count(faces, AttackFace::Crit) <= 1)
            &&& used ==> after.len() == 0
            &&& !used ==> after == faces
            &&& h.ships == g.ships
        }),
{
    reveal(Game::wampa);
    landing_dice_are_counted(faces, false);
    a_spot_is_first_at(faces, AttackFace::Crit);
}

/// Weapon cards turn their own results: so many, the first of them.
pub proof fn weapons_turn_their_dice(
    g: Game,
    a: int,
    effect: UpgradeEffect,
    faces: Seq<AttackFace>,
    j: int,
)
    requires
        faces.len() <= usize::MAX,
        0 <= j < faces.len(),
    ensures
        ({
            let (h, after) = g.weapon_attack_mods(a, Some(effect), faces);
            let (from, to, max) = if effect == UpgradeEffect::TorpedoFocusToCrit {
                (AttackFace::Focus, AttackFace::Crit, 1int)
            } else if effect == UpgradeEffect::TorpedoBlanksToFocus {
                (AttackFace::Blank, AttackFace::Focus, 3)
            } else if effect == UpgradeEffect::MissileBlankToHit {
                (AttackFace::Blank, AttackFace::Hit, 1)
            } else if effect == UpgradeEffect::CannonHitToCrit {
                (AttackFace::Hit, AttackFace::Crit, 1)
            } else {
                (AttackFace::Blank, AttackFace::Blank, 0)
            };
            &&& after.len() == faces.len()
            &&& after[j] == if faces[j] == from && count(faces.subrange(0, j), from) < max {
                to
            } else {
                faces[j]
            }
            &&& h.ships == g.ships
        }),
{
    a_spot_is_first_at(faces, AttackFace::Blank);
    a_spot_is_first_at(faces, AttackFace::Focus);
    a_spot_is_first_at(faces, AttackFace::Hit);
    turning_some_turns_the_first(faces, AttackFace::Focus, AttackFace::Crit, 1, 0);
    turning_some_turns_the_first(faces, AttackFace::Blank, AttackFace::Focus, 3, 0);
    turning_some_turns_the_first(faces, AttackFace::Blank, AttackFace::Hit, 1, 0);
    turning_some_turns_the_first(faces, AttackFace::Hit, AttackFace::Crit, 1, 0);
}

/// Poe Dameron, with a focus token, makes a hit of an eye; Winged Gundark
/// makes a critical of a hit at Range 1; nobody else changes dice for free.
pub proof fn pilots_turn_a_die_for_free(
    g: Game,
    content: Content,
    a: int,
    range: u8,
    faces: Seq<AttackFace>,
)
    requires
        0 <= a < g.ships.len(),
        faces.len() <= usize::MAX,
    ensures
        ({
            let (h, after) = g.free_attack_mods(content, a, range, faces);
            let ability = g.ships[a].ability(content);
            let poe = ability == Some(PilotAbility::FocusToResult) && g.ships[a].focus > 0;
            let gundark = ability == Some(PilotAbility::HitToCritAtRange1) && range == 1;
            &&& poe ==> one_turned(faces, after, AttackFace::Focus, AttackFace::Hit)
            &&& gundark ==> one_turned(faces, after, AttackFace::Hit, AttackFace::Crit)
            &&& !poe && !gundark ==> after == faces
            &&& h.ships == g.ships
        }),
{
    a_spot_is_first_at(faces, AttackFace::Focus);
    a_spot_is_first_at(faces, AttackFace::Hit);
}

/// Which pilots throw one more attack die, and when.
pub proof fn pilots_earn_an_extra_die(
    g: Game,
    content: Content,
    sight: Sight,
    a: int,
    d: int,
    range: u8,
)
    requires
        0 <= a < g.ships.len(),
        0 <= d < g.ships.len(),
    ensures
        ({
            let why = g.extra_die(content, sight, a, d, range);
            let ability = g.ships[a].ability(content);
            let seen = g.ships[d].pose is Some && g.ships[a].pose is Some && sight.at(d, a).in_arc;
            &&& why == Some(ExtraDie::PointBlank) <==> ability == Some(
                PilotAbility::ExtraAttackDieAtRange1,
            ) && range == 1
            &&& why == Some(ExtraDie::OutsideDefenderArc) <==> ability == Some(
                PilotAbility::ExtraAttackDieOutsideDefenderArc,
            ) && !seen
            &&& why == Some(ExtraDie::DefenderDamaged) <==> ability == Some(
                PilotAbility::ExtraAttackDieVsDamaged,
            ) && g.ships[d].hull < g.ships[d].full_hull(content)
            &&& why == Some(ExtraDie::TakesStress) <==> ability == Some(
                PilotAbility::StressForExtraAttackDie,
            ) && g.ships[a].stress == 0
        }),
{
}

/// Who may do what to the dice of an attack.
pub proof fn denials_are_exact(g: Game, content: Content, sight: Sight, a: int, shot: Shot)
    requires
        0 <= a < g.ships.len(),
        shot.d_idx < g.ships.len(),
    ensures
        ({
            let v = g.verdict(content, sight, a, shot);
            let (s, e) = (g.ships[a], g.ships[shot.d_idx as int]);
            let omega = Some(PilotAbility::LockedEnemiesCannotModifyDice);
            let held = e.ability(content) == omega && (e.lock == Some(s.id) || e.lock2 == Some(
                s.id,
            ));
            let holds = s.ability(content) == omega && (s.lock == Some(e.id) || s.lock2 == Some(
                e.id,
            ));
            let curse = e.ability(content) == Some(PilotAbility::DefenderDeniesFocusAndRerolls);
            &&& v.modify == (!held && !shot.no_mods)
            &&& v.spend == (v.modify && !curse)
            &&& v.focus == (v.spend && !g.carnor(content, sight, a))
            &&& v.guard == !holds
        }),
{
    reveal(Game::verdict);
}

/// What a weapon card costs to fire: the focus token or the lock that it asks
/// for, once, where the card says it is spent. A friend's lock through a
/// Targeting Synchronizer costs nothing, and with Deadeye a focus token stands
/// for the lock.
pub proof fn weapons_cost_what_they_ask(
    g: Game,
    content: Content,
    sight: Sight,
    a: int,
    shot: Shot,
)
    requires
        0 <= a < g.ships.len(),
        shot.d_idx < g.ships.len(),
    ensures
        ({
            let (h, spent) = g.arming(content, sight, a, shot);
            let (s, t) = (g.ships[a], h.ships[a]);
            let id = g.ships[shot.d_idx as int].id;
            let arms = shot.secondary(content);
            let due = arms is Some && arms->0.spend && !shot.second;
            let by_focus = due && arms->0.requires == AttackRequirement::Focus;
            let by_lock = due && arms->0.requires == AttackRequirement::TargetLock;
            let held = s.lock == Some(id) || s.lock2 == Some(id);
            let paid = ShipModel {
                focus: if s.focus > 0 {
                    (s.focus - 1) as u8
                } else {
                    0
                },
                ..s
            };
            &&& by_focus ==> t == paid && spent.focus && !spent.lock
            &&& by_lock && held ==> t.lock != Some(id) && t.lock2 != Some(id) && t.focus == s.focus
                && spent.lock && !spent.focus
            &&& by_lock && !held && g.saying(
                Event::Fires(a as usize, shot.weapon->0, shot.second),
            ).synced(content, sight, a, id) ==> t == s && !spent.lock && !spent.focus
            &&& by_lock && !held && !g.saying(
                Event::Fires(a as usize, shot.weapon->0, shot.second),
            ).synced(content, sight, a, id) ==> t == paid && spent.focus && !spent.lock
            &&& !by_focus && !by_lock ==> t == s && !spent.lock && !spent.focus
            &&& others_stay(g, h, a)
        }),
{
    reveal(Game::arming);
    reveal(Game::lock_paid);
}

/// The dice of an attack: with Finn aboard, a blank joins those of a primary
/// attack on a ship in arc.
pub open spec fn joined_by_finn(
    g: Game,
    content: Content,
    sight: Sight,
    a: int,
    shot: Shot,
    faces: Seq<AttackFace>,
) -> Seq<AttackFace> {
    let d = shot.d_idx as int;
    if shot.secondary(content) is None && faces.len() > 0 && g.has(
        content,
        a,
        UpgradeEffect::CrewAddBlankIfEnemyInArc,
    ) && g.ships[a].pose is Some && g.ships[d].pose is Some && sight.at(a, d).in_arc {
        faces.push(AttackFace::Blank)
    } else {
        faces
    }
}

/// Finn adds a blank to a primary attack on a ship in arc; a Sensor Jammer
/// holds the first hit aside.
pub proof fn finn_and_jammers_change_the_roll(
    g: Game,
    content: Content,
    sight: Sight,
    a: int,
    shot: Shot,
    faces: Seq<AttackFace>,
)
    requires
        0 <= a < g.ships.len(),
        shot.d_idx < g.ships.len(),
        faces.len() < usize::MAX,
    ensures
        ({
            let d = shot.d_idx as int;
            let (h, after, aside) = g.tampering(content, sight, a, shot, faces);
            let all = joined_by_finn(g, content, sight, a, shot, faces);
            &&& aside == (g.has(content, d, UpgradeEffect::SystemAttackerHitToFocus)
                && all.contains(AttackFace::Hit))
            &&& !aside ==> after == all
            &&& aside ==> forall|p: int| #[trigger] first_at(all, AttackFace::Hit, p) ==> after
                == all.remove(p)
            &&& h.ships == g.ships
        }),
{
    reveal(Game::tampering);
    let all = joined_by_finn(g, content, sight, a, shot, faces);
    a_spot_is_first_at(all, AttackFace::Hit);
    if all.contains(AttackFace::Hit) {
        let k = choose|k: int| 0 <= k < all.len() && all[k] == AttackFace::Hit;
        assert(all[k] == AttackFace::Hit);
    }
    if spot(all, AttackFace::Hit) is Some {
        assert(all[spot(all, AttackFace::Hit)->0 as int] == AttackFace::Hit);
    }
}

/// Which misses rerolls go to: blanks before eyes, and no eyes while a focus
/// token would convert them.
pub proof fn misses_are_blanks_and_wasted_eyes(focus: u8)
    ensures
        attack_misses(focus).contains(AttackFace::Blank),
        !attack_misses(focus).contains(AttackFace::Hit),
        !attack_misses(focus).contains(AttackFace::Crit),
        attack_misses(focus).contains(AttackFace::Focus) <==> focus == 0,
        attack_misses(focus)[0] == AttackFace::Blank,
        defense_misses(focus).contains(DefenseFace::Blank),
        !defense_misses(focus).contains(DefenseFace::Evade),
        defense_misses(focus).contains(DefenseFace::Focus) <==> focus == 0,
        defense_misses(focus)[0] == DefenseFace::Blank,
{
    if focus == 0 {
        assert(attack_misses(focus)[1] == AttackFace::Focus);
        assert(defense_misses(focus)[1] == DefenseFace::Focus);
    }
    assert(attack_misses(focus)[0] == AttackFace::Blank);
    assert(defense_misses(focus)[0] == DefenseFace::Blank);
}

/// How many dice each reroll of the attacker may take, of which faces: those
/// of Predator, Rage, Lone Wolf, Wired, Horton Salm and Rey.
pub proof fn talents_reroll_their_dice(
    t: Throw<AttackFace>,
    content: Content,
    sight: Sight,
    a: int,
    d: int,
)
    ensures
        ({
            let g = t.game;
            let s = g.ships[a];
            let misses = if s.focus == 0 {
                seq![AttackFace::Blank, AttackFace::Focus]
            } else {
                seq![AttackFace::Blank]
            };
            let blanks = seq![AttackFace::Blank];
            let close = g.ships[d].skill(content) <= 2;
            let predator = g.has(content, a, UpgradeEffect::RerollOneAttackDie);
            let alone = g.has(content, a, UpgradeEffect::RerollBlankIfAlone) && g.near(
                sight,
                a,
                2,
            ).len() == 0;
            let wired = g.has(content, a, UpgradeEffect::RerollFocusWhenStressed) && s.stress > 0
                && s.focus == 0;
            let raging = s.acting(content, UpgradeEffect::RerollUpTo3ForFocusAnd2Stress);
            let range = g.range(sight, a, d);
            let horton = s.ability(content) == Some(PilotAbility::RerollBlanksAtRange2To3) && (range
                == Some(2u8) || range == Some(3u8));
            let rey = s.ability(content) == Some(PilotAbility::RerollTwoBlanksIfEnemyInArc)
                && g.in_arc(sight, a, d);
            &&& predator && close ==> rerolled_by(t, t.predator(content, a, d), misses, 2)
            &&& predator && !close ==> rerolled_by(t, t.predator(content, a, d), misses, 1)
            &&& !predator ==> t.predator(content, a, d) == t
            &&& raging ==> rerolled_by(t, t.rage(content, a), misses, 3)
            &&& !raging ==> t.rage(content, a) == t
            &&& alone ==> rerolled_by(t, t.lone_wolf(content, sight, a), blanks, 1)
            &&& !alone ==> t.lone_wolf(content, sight, a) == t
            &&& wired ==> rerolled_by(t, t.wired(content, a), seq![AttackFace::Focus], 255)
            &&& !wired ==> t.wired(content, a) == t
            &&& horton ==> rerolled_by(t, t.blanks_rerolled(content, sight, a, d), blanks, 255)
            &&& rey ==> rerolled_by(t, t.blanks_rerolled(content, sight, a, d), blanks, 2)
            &&& !horton && !rey ==> t.blanks_rerolled(content, sight, a, d) == t
        }),
{
}

/// Up to `n` of the dice that show a face wanted were rerolled, and no ship
/// has changed.
pub open spec fn rerolled_by<F: crate::dice::Face>(
    t: Throw<F>,
    u: Throw<F>,
    wants: Seq<F>,
    n: u8,
) -> bool {
    let hand = rerolling(t.faces, t.dice, wants, n);
    &&& u.faces == hand.faces
    &&& u.dice == hand.dice
    &&& u.game.ships == t.game.ships
}

} // verus!
