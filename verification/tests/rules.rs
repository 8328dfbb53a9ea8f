//! Dice, damage cards, actions and ranges.

use sf_core::action::{ActionKind, PlannedAction};
use sf_core::combat::{attack_dice, defense_bonus, MM_PER_UNIT, RANGE_BAND_MM};
use sf_core::crit::{draw, effective_difficulty, CritEffect};
use sf_core::dice::{
    apply_damage, cancel, reroll_matching, AttackFace, AttackOutcome, AttackRoll, DamageResult,
    DefenseFace, DefenseRoll, Dice,
};
use sf_core::maneuver::{Difficulty, Maneuver, Steer};
use sf_core::mission::{sheet, MissionKind};
use sf_core::ship::{Faction, ShipId};

#[test]
fn pass_needs_no_bar_entry() {
    assert_eq!(PlannedAction::Pass.kind(), None);
    assert_eq!(PlannedAction::Focus.kind(), Some(ActionKind::Focus));
    assert_eq!(PlannedAction::TargetLock(ShipId(3)).kind(), Some(ActionKind::TargetLock));
}

#[test]
fn band_is_2_5_units() {
    assert_eq!(f64::from(RANGE_BAND_MM) / f64::from(MM_PER_UNIT), 2.5);
}

#[test]
fn range_modifiers() {
    // TIE (2 dice): 3 at range 1, 2 otherwise. X-Wing (3): 4 at range 1.
    assert_eq!(attack_dice(2, 1), 3);
    assert_eq!(attack_dice(2, 2), 2);
    assert_eq!(attack_dice(3, 1), 4);
    assert_eq!(attack_dice(3, 3), 3);
    assert_eq!(defense_bonus(1), 0);
    assert_eq!(defense_bonus(2), 0);
    assert_eq!(defense_bonus(3), 1);
}

#[test]
fn draw_covers_all_fourteen() {
    assert_eq!(draw(5), CritEffect::DirectHit);
    assert_eq!(draw(12), CritEffect::WeaponsFailure { rounds: 2 });
    assert_eq!(draw(13), CritEffect::StructuralDamage);
    assert_eq!(draw(14), CritEffect::BlindedPilot); // wraps
}

#[test]
fn engine_and_thrust_make_maneuvers_red() {
    let turn = Maneuver { steer: Steer::TurnLeft, distance: 2, difficulty: Difficulty::Normal };
    let bank = Maneuver { steer: Steer::BankRight, distance: 1, difficulty: Difficulty::Easy };
    assert_eq!(effective_difficulty(&[], &turn), Difficulty::Normal);
    assert_eq!(effective_difficulty(&[CritEffect::DamagedEngine], &turn), Difficulty::Hard);
    assert_eq!(
        effective_difficulty(&[CritEffect::DamagedEngine], &bank),
        Difficulty::Easy,
        "engine damage leaves banks alone"
    );
    assert_eq!(effective_difficulty(&[CritEffect::ThrustControlFire], &bank), Difficulty::Hard);
}

#[test]
fn face_layouts_match_spec() {
    let attack: Vec<_> = (0..8).map(AttackFace::from_d8).collect();
    let a = AttackRoll::from_faces(attack);
    assert_eq!(a, AttackRoll { hits: 3, crits: 1, focuses: 2, blanks: 2 });
    // 50% of attack faces damage naturally; 37.5% of defense faces dodge.
    assert_eq!(a.hits + a.crits, 4);

    let defense: Vec<_> = (0..8).map(DefenseFace::from_d8).collect();
    let d = DefenseRoll::from_faces(defense);
    assert_eq!(d, DefenseRoll { evades: 3, focuses: 2, blanks: 3 });
}

#[test]
fn focus_token_converts_eyes() {
    let a = AttackRoll { hits: 1, crits: 0, focuses: 2, blanks: 1 }.spend_focus();
    assert_eq!(a.hits, 3);
    let d = DefenseRoll { evades: 0, focuses: 2, blanks: 1 }.spend_focus();
    assert_eq!(d.evades, 2);
}

#[test]
fn evades_cancel_hits_before_crits() {
    // 2 hits + 1 crit vs 2 evades: both hits gone, crit survives.
    let out = cancel(
        AttackRoll { hits: 2, crits: 1, focuses: 0, blanks: 0 },
        DefenseRoll { evades: 2, focuses: 0, blanks: 0 },
    );
    assert_eq!(out, AttackOutcome { hits: 0, crits: 1 });
    // 3 evades kill everything.
    let out = cancel(
        AttackRoll { hits: 2, crits: 1, focuses: 0, blanks: 0 },
        DefenseRoll { evades: 3, focuses: 0, blanks: 0 },
    );
    assert_eq!(out, AttackOutcome { hits: 0, crits: 0 });
}

#[test]
fn shields_absorb_crits_without_face_up_cards() {
    // T-70 with 3 shields: 1 hit + 1 crit → 2 shields gone, no crit card.
    let r = apply_damage(3, AttackOutcome { hits: 1, crits: 1 });
    assert_eq!(r, DamageResult { shields_remaining: 1, hull_damage: 0, hull_crits: 0 });
}

#[test]
fn unshielded_tie_takes_crits_on_the_hull() {
    // TIE (0 shields): 1 hit + 1 crit → face-down + face-up damage.
    let r = apply_damage(0, AttackOutcome { hits: 1, crits: 1 });
    assert_eq!(r, DamageResult { shields_remaining: 0, hull_damage: 1, hull_crits: 1 });
}

#[test]
fn hits_drain_shields_before_crits_resolve() {
    // 1 shield, 1 hit + 1 crit: hit eats the shield, crit reaches hull.
    let r = apply_damage(1, AttackOutcome { hits: 1, crits: 1 });
    assert_eq!(r, DamageResult { shields_remaining: 0, hull_damage: 0, hull_crits: 1 });
}

#[test]
fn dice_are_read_around() {
    assert!(Dice::new(Vec::new()).is_none());
    let mut dice = Dice::new(vec![3, 5]).unwrap();
    assert_eq!((dice.roll(), dice.roll(), dice.roll()), (3, 5, 3));
}

#[test]
fn a_die_is_rerolled_once() {
    let wants = [AttackFace::Blank, AttackFace::Focus];
    let mut faces = vec![AttackFace::Blank];
    let mut dice = Dice::new(vec![4, 0]).unwrap();
    assert_eq!(reroll_matching(&mut faces, &wants, 2, &mut dice), 1);
    assert_eq!(faces, vec![AttackFace::Focus]);

    let mut faces = vec![AttackFace::Focus, AttackFace::Blank, AttackFace::Hit];
    let mut dice = Dice::new(vec![4, 0]).unwrap();
    assert_eq!(reroll_matching(&mut faces, &wants, 9, &mut dice), 2);
    assert_eq!(faces, vec![AttackFace::Hit, AttackFace::Focus, AttackFace::Hit]);

    let mut faces = vec![AttackFace::Focus, AttackFace::Blank];
    let mut dice = Dice::new(vec![3]).unwrap();
    assert_eq!(reroll_matching(&mut faces, &wants, 1, &mut dice), 1, "earlier entries first");
    assert_eq!(faces, vec![AttackFace::Focus, AttackFace::Crit]);
}

#[test]
fn mission_sheets_go_by_points() {
    assert_eq!(sheet(MissionKind::PoliticalEscort, 100), (6, 4, Faction::Empire));
    assert_eq!(sheet(MissionKind::AsteroidRun, 99), (0, 2, Faction::Empire));
    assert_eq!(sheet(MissionKind::DarkWhispers, 31), (0, 2, Faction::RebelAlliance));
    assert_eq!(MissionKind::DarkWhispers.reserve_card(), "rookiepilot");
    assert_eq!(MissionKind::AsteroidRun.reserve_card(), "academypilot");
}
