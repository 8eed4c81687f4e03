//! Game rules of Flux Pursuit: decks of reactor modules, the turn phases,
//! and the descriptions of what the HUD shows.
pub mod animation;
pub mod assets;
pub mod audio;
pub mod combat;
pub mod ecs;
pub mod game;
pub mod hud;
pub mod input;
pub mod level;
pub mod menu;
pub mod rng;
pub mod text;
pub mod ui;
