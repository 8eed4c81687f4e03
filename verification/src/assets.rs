//! The images and sounds the game loads, by name.
use vstd::prelude::*;

verus! {

/// An image asset.
#[derive(PartialEq, Eq, Structural, Clone, Copy, Debug)]
pub enum ImageKey {
    BgLevel0,
    BgLevel1,
    BgLevel2,
    BgLevel3,
    BgLevel4,
    BgLevel5,
    BgLevel6,
    BgLevel7,
    BgLevel8,
    BgLevel9,
    Reactor,
    Helm,
    Stage,
    ModuleFaceUp,
    ModuleFaceDown,
    ModuleSlotEmpty,
    ModuleSlotInactive,
    ModuleSlotActive,
    ModuleSlotOverheated,
    ModuleSlotGlow,
    ModuleSlotFullGlow,
    NothingConditionIcon,
    NothingEffectIcon,
    MissileConditionIcon,
    MissileEffectIcon,
    LaserConditionIcon,
    LaserEffectIcon,
    FireballConditionIcon,
    FireballEffectIcon,
    RepairConditionIcon,
    RepairEffectIcon,
    PhaseSetup,
    PhasePlayer,
    PhaseReactor,
    PhaseEnemy,
    InfoButton,
    PauseButton,
    SkipButton,
    PlayerShip,
    EnemyShip,
}

/// A sound effect.
#[derive(PartialEq, Eq, Structural, Clone, Copy, Debug)]
pub enum SoundKey {
    MissileSpawn,
    LaserSpawn,
    FireballSpawn,
    Repair,
    ModuleActivate,
    ModuleInsert,
    ModuleHover,
    PhaseChange,
    ShipDeath,
}

} // verus!
