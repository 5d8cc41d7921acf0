//! Core rules of a small tower-defense game.
//!
//! The library holds the game's decision logic — enemy pathing, wave
//! scheduling, tower placement and targeting, shot damage, sprite frame
//! stepping, cave map layout, and the wallet bookkeeping — over plain
//! integer data, with contracts that pin down each rule. Rendering, asset
//! loading, input polling and network calls live outside the library.

pub mod animation;
pub mod catalog;
pub mod cave;
pub mod combat;
pub mod enemies;
pub mod geom;
pub mod player;
pub mod targeting;
pub mod timer;
pub mod towers;
pub mod ui;
pub mod wallet;
pub mod waves;
