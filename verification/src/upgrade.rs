//! Upgrade cards: slots, printed effects and secondary weapons.

use vstd::prelude::*;

verus! {

#[derive(Debug, Clone, Copy, PartialEq, Eq, Hash, Structural)]
pub struct UpgradeId(pub u32);

/// Where a card is equipped.
#[derive(Debug, Clone, Copy, PartialEq, Eq, Structural)]
pub enum Slot {
    Talent,
    System,
    Cannon,
    Turret,
    Torpedo,
    Missile,
    Crew,
    Astromech,
    SalvagedAstromech,
    Bomb,
    Illicit,
    Tech,
    Title,
    Modification,
}

/// What must be held to fire a secondary weapon.
#[derive(Debug, Clone, Copy, PartialEq, Eq, Structural)]
pub enum AttackRequirement {
    Free,
    /// A target lock on the defender.
    TargetLock,
    /// A focus token.
    Focus,
}

/// The attack printed on a weapon card.
#[derive(Debug, Clone, Copy, PartialEq, Eq, Structural)]
pub struct SecondaryWeapon {
    pub dice: u8,
    pub range_min: u8,
    pub range_max: u8,
    pub requires: AttackRequirement,
    /// The required token is spent to fire.
    pub spend: bool,
    /// The card is discarded when fired.
    pub discard_to_fire: bool,
}

/// What a card does, by rule.
#[derive(Debug, Clone, Copy, PartialEq, Eq, Structural)]
pub enum UpgradeEffect {
    AgilityPlus1Action,
    AgilityPlus1DiscardWhenHit,
    AllFocusToHitIfUnstressed,
    BanksAreGreen,
    BarGainsBarrelRoll,
    BarGainsBoost,
    BarGainsEvade,
    BarGainsTargetLock,
    BarrelRollActionDiscardLock,
    BlankToEvadeAtRange3OrOutsideArc,
    BlankToEvadeSpendFocus,
    BlankToHitSpendFocus,
    BombActionClusterMines,
    BombActionConnerNet,
    BombActionProximityMines,
    BombOnRevealIon,
    BombOnRevealProton,
    BombOnRevealSeismic,
    BombOnRevealThermal,
    CancelEvadeDiscard,
    CancelFocusForEvade,
    CancelHitsForStress,
    CannonCritsToHits,
    CannonHitToCrit,
    CannonIonOneDamage,
    CannonOneDamageAndStress,
    CannonTractorToken,
    CannonUncancelableHits,
    CrewAddBlankIfEnemyInArc,
    CrewChosenEnemyFocusToHitOrEvade,
    CrewDiscardDamageRecoverShield,
    CrewDiscardToFlipCritFacedown,
    CrewEvadeInsteadOfFocusForFriendly,
    CrewExtraFocusOnFocusAction,
    CrewFleetOfficerAction,
    CrewFocusAfterFriendlyMiss,
    CrewFocusAfterStressRemoved,
    CrewFreeEvadeIfNoShieldsDamaged,
    CrewFriendlyLockAfterGreen,
    CrewGuessEvades,
    CrewHitToCritAtRange3,
    CrewLockAllFocusToHit,
    CrewPeekEnemyDial,
    CrewRecoverShieldEndPhase,
    CrewRedAsWhiteForAll,
    CrewRerollDefenseDie,
    CrewRollDefenseForTokensAction,
    CrewRotateDialSameBearing,
    CrewSaboteurAction,
    CrewSecondAttackFocusToHit,
    CrewSecondAttackOnMiss,
    CrewStoreFocusTokens,
    CrewStraightsAreGreen,
    CrewStressEnemiesAtRange1EndOfCombat,
    CrewStressFirstAttacker,
    CrewStressTargetAtRange2InArc,
    CrewSufferTwoForCrit,
    CrewTwoLocks,
    DiscardAstromechToCancelDamage,
    DiscardFacedownOnDefenseDie,
    DiscardPilotCritImmediately,
    EvadeToFocusIfEvadeToken,
    ExposeAction,
    ExtraActionThenStress,
    ExtraAttackDieForStress,
    ExtraAttackDieIfObstructed,
    ExtraDefenseDieIfOutgunned,
    ExtraDiceFromFriendlyEvades,
    FlipShipCritFacedown,
    FocusOrEvadeOnStress,
    FocusToCritOthersToHitAction,
    FocusToCritSpendFocus,
    ForceRerollForStress,
    ForceRerollLockedAttacker,
    ForceRerollWithLock,
    FreeActionForLowerSkillShip,
    FreeActionThenStress,
    FreeBarrelRollOnGreen,
    HullPlus1,
    IgnoreObstaclesDiscard,
    KeepOneEvade,
    KeepOrdnanceOnMiss,
    LockAfterRed,
    LockAndBoostAction,
    LockBecomesFocus,
    LocksOnlyAtRange3,
    MissileAttackTwice,
    MissileBlankToHit,
    MissileDenyEvadeTokens,
    MissileFaceupDamage,
    MissileFriendsLockOnHit,
    MissileIonOneDamage,
    MissileSplashRange1,
    OrdnanceDieToHit,
    OrdnanceTokens,
    ReLockOnEvadeDie,
    RecoverShieldOnGreen,
    RecoverShieldSpendFocus,
    RedTurn1Action,
    ReduceAgilityIfNotInDefenderArc,
    ReduceAgilityWhileTouching,
    RemoveEnemyLockAfterReposition,
    RemoveStressFriendlyAtCombatStart,
    RerollBlankIfAlone,
    RerollFocusWhenStressed,
    RerollOneAttackDie,
    RerollUpTo3ForFocusAnd2Stress,
    ResolveStressAfterAction,
    RocketExtraDiceByAgility,
    RotateDialSameSpeedRed,
    RotateShip180Discard,
    ScoreToSettle,
    SeismicTorpedoAction,
    SetupSkillOverride,
    ShareLockWithFriendly,
    ShareSkillWithFriendly,
    ShieldPlus1,
    SkillMinus1,
    SkillPlus1,
    SkillPlus2,
    SnapShotReaction,
    Speed1And2AreGreen,
    SplashDamageAfterHit,
    StressAllowsRepositionUnder3,
    StressDefenderIfInArc,
    SufferCritForFriendly,
    SwapSkillWithFriendly,
    SystemAddCritWithLock,
    SystemAttackerHitToFocus,
    SystemCancelAllAddTwoHits,
    SystemDamageToDiscardToken,
    SystemFreeActionBeforeReveal,
    SystemLockAfterAttack,
    SystemOverlapObstaclesOnReposition,
    SystemRecoverShieldAfter3Damage,
    SystemSkillZeroInActivation,
    TitleArcOnlyThenTurretAttack,
    TitleLockAnywhere,
    TorpedoBlanksToFocus,
    TorpedoFocusToCrit,
    TorpedoIonSplash,
    TorpedoStressIfHullLow,
    TorpedoStripShield,
    TreatRedAsWhiteDiscard,
    TurretAutoblasterUncancelable,
    TurretDorsalExtraDieAtRange1,
    TurretIonOneDamage,
    TurretTwinLaserTwiceOneDamage,
}

#[derive(Debug, Clone)]
pub struct Upgrade {
    pub id: UpgradeId,
    pub name: String,
    pub xws: String,
    pub slot: Slot,
    pub cost: u8,
    pub text: String,
    pub effect: Option<UpgradeEffect>,
    pub attack: Option<SecondaryWeapon>,
}

} // verus!
