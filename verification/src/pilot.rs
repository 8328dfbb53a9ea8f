//! Pilot cards.

use vstd::prelude::*;

use crate::ship::{ShipClassId, StatBlock};

verus! {

#[derive(Debug, Clone, Copy, PartialEq, Eq, Hash, Structural)]
pub struct PilotId(pub u32);

/// The pack a card comes from.
#[derive(Debug, Clone, Copy, PartialEq, Eq, Structural)]
pub enum Source {
    CoreSet,
    Expansion,
}

/// What a pilot card does, by rule.
#[derive(Debug, Clone, Copy, PartialEq, Eq, Structural)]
pub enum PilotAbility {
    AbsorbFriendlyStressAtRange1To2,
    ActionsWhileStressed,
    AdjustManeuverSpeedBy1,
    AgilityPlus1IfEnemyAtRange1,
    AttackWhenFriendlyDestroyed,
    BarrelRollWithBank1ForStress,
    BarrelRollWithStraight2,
    BoostWithTurnTemplate,
    CancelAllForFacedownDamage,
    ChooseCritFromThree,
    DefenderAgilityMinus1,
    DefenderDeniesFocusAndRerolls,
    DefenseFocusToEvade,
    DenyEnemyRange1Bonus,
    DenyFocusEvadeAtRange1,
    DiscardStressIfEnemyInArcRange1,
    EnemyLocksMustTargetMe,
    EvadeOnFirstShieldLoss,
    ExtraAttackDieAtRange1,
    ExtraAttackDieOutsideDefenderArc,
    ExtraAttackDieVsDamaged,
    FlipCritFacedownImmediately,
    FlipTalentFaceupAfterDiscard,
    FocusOnStress,
    FocusToResult,
    FocusWhenFriendlySpendsFocusRange1,
    FreeBombActionOnRevealOrAction,
    FreeBoostAfterSpeed2To4,
    FreeFocusAfterGreen,
    FreeRepositionAfterAttack,
    FreeRepositionAfterFocus,
    FriendlyFreeActionAfterGreen,
    FriendlyLockAfterLock,
    FriendlyRerollAttackRange1,
    FriendlySecondaryReroll2AtRange1,
    GiveLockToFriendlyAtCombatStart,
    HitToCritAtRange1,
    KTurnSpeed1Or3Or5,
    LockAtRange1AtCombatStart,
    LockedEnemiesCannotModifyDice,
    PassSpentFocusRange1To2,
    ProtectFriendsAtRange1,
    RemoveStressFriendlyRange1AtCombatStart,
    RerollAllDice,
    RerollBlanksAtRange2To3,
    RerollPerFriendlyRange1,
    RerollTwoBlanksIfEnemyInArc,
    SecondaryRangePlusMinus1,
    SetupAnywhereBeyondRange3,
    ShareTalentAction,
    SkillTwelveWhileUndamaged,
    SpendEvadeForHitAtRange2To3,
    SpendLockAndFocusForAllCrits,
    SpendLockToFlipFacedownCrit,
    StressForExtraAttackDie,
    SurviveUntilEndOfCombat,
    TallonWhiteWhileUnstressed,
    TargetTouchingShipInArc,
    TwoActions,
}

#[derive(Debug, Clone)]
pub struct Pilot {
    pub id: PilotId,
    pub name: String,
    pub xws: String,
    pub class: ShipClassId,
    pub skill: u8,
    pub cost: u8,
    pub unique: bool,
    pub ability: Option<PilotAbility>,
    /// Printed stats that differ from the chassis.
    pub stats: Option<StatBlock>,
    pub source: Source,
}

} // verus!
