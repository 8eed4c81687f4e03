//! The menus that open over a level.
use vstd::prelude::*;

verus! {

#[derive(PartialEq, Eq, Structural, Clone, Copy, Debug)]
pub enum Menu {
    /// The last enemy is beaten.
    Victory,
    /// The player's ship is destroyed.
    Defeat,
    /// The enemy of a level is destroyed.
    LevelUp,
    /// The enemy of a level escaped.
    Upgrade,
}

} // verus!
