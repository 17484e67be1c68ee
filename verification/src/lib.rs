//! Simulation core of a top-down real-time action game: per-frame updates of
//! player, enemies, projectiles and rooms, combat resolution, stat
//! aggregation, and procedural room generation.
//!
//! All quantities that the original game kept as floating-point numbers are
//! held here in fixed-point form: an `i64` counts thousandths of a game unit
//! (see `fx`), so one pixel is `1000` and a 25% modifier is `250`.

use vstd::prelude::*;

pub mod combat;
pub mod dungeon;
pub mod enemy;
pub mod fx;
pub mod game;
pub mod items;
pub mod laws;
pub mod player;
pub mod projectiles;
pub mod rng;
pub mod stats;
pub mod utils;
pub mod worlds;

verus! {

} // verus!
