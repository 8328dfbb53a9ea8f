//! Range bands and the dice they grant.
//!
//! Range is measured in three bands of exactly 100 mm each; combat
//! modifiers: +1 attack die at Range 1 (point-blank), +1 defense die for
//! the defender at Range 3 (long range).

use vstd::prelude::*;

verus! {

/// Length of one game unit (a straight-1 template) in millimetres.
pub const MM_PER_UNIT: u32 = 40;

/// Length of one range band in millimetres — 2.5 game units.
pub const RANGE_BAND_MM: u32 = 100;

/// Weapons reach three bands (300 mm / 7.5 units).
pub const MAX_RANGE_BAND: u8 = 3;

/// Attack dice thrown at a given range band: +1 at point-blank Range 1.
pub fn attack_dice(base_dice: u8, band: u8) -> (dice: u8)
    requires
        band == 1 ==> base_dice < u8::MAX,
    ensures
        dice == base_dice + if band == 1 { 1int } else { 0int },
{
    if band == 1 {
        base_dice + 1
    } else {
        base_dice
    }
}

/// Extra defense dice granted to the defender: +1 at long Range 3.
pub fn defense_bonus(band: u8) -> (dice: u8)
    ensures
        dice == if band >= MAX_RANGE_BAND { 1int } else { 0int },
{
    if band >= MAX_RANGE_BAND {
        1
    } else {
        0
    }
}

} // verus!
