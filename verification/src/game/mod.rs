pub mod combat;
pub mod deck;
pub mod health;
pub mod hud;
pub mod level;
pub mod phase;
pub mod reactor;
pub mod ship;
pub mod stage;
pub mod stats;
pub mod turn;
pub mod module;

use vstd::prelude::*;

verus! {

/// Physics layers that colliders are placed on.
#[derive(PartialEq, Eq, Structural, Clone, Copy, Debug)]
pub enum GameLayer {
    Default,
    Player,
    Enemy,
}

} // verus!
