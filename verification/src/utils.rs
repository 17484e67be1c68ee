//! Game-wide constants, in fixed-point units (thousandths of a pixel).

use vstd::prelude::*;

verus! {

/// Width of the playfield in fixed-point pixels.
pub const SCREEN_WIDTH: i64 = 256_000;

/// Height of the playfield in fixed-point pixels.
pub const SCREEN_HEIGHT: i64 = 224_000;

/// Width of the room grid in tiles.
pub const TILES_WIDTH: usize = 16;

/// Height of the room grid in tiles.
pub const TILES_HEIGHT: usize = 9;

/// Frames the camera-pan transition into a new room takes.
pub const PREROUND_TRANSITION_TIME: u32 = 40;

/// Extra grace frames after the pan before play resumes.
pub const PREROUND_GRACE_TIME: u32 = 20;

/// Percent chance that a room spawns the corner pair of "other" enemies.
pub const OTHER_CHANCE: i64 = 10;

/// Percent chance that a generated item carries an enchantment.
pub const ENCHANT_CHANCE: i64 = 10;

/// Number of inventory slots.
pub const INV_SLOTS: usize = 9;

/// Bound on any coordinate the simulation stores.
pub const COORD_LIMIT: i64 = 1_000_000_000;

/// Bound on any speed the simulation stores.
pub const SPEED_LIMIT: i64 = 1_000_000;

/// Bound on a collision radius.
pub const RADIUS_LIMIT: i64 = 1_000_000;

/// Bound on the position of a stored live projectile: projectiles are
/// spawned in or near the room (a strike can only happen within eight
/// pixels of an enemy) and clamped or removed when they leave it.
pub const POS_LIMIT: i64 = 4_000_000;

/// Bound on the speed of a live projectile (a template's speed plus the
/// largest launch boost is far below this).
pub const PROJ_SPEED_LIMIT: i64 = 2_000_000;

/// Bound on any field of an aggregated stat bag: a frame aggregates a
/// handful of well-formed sources, each far below this.
pub const AGG_LIMIT: i64 = 2_000_000_000;

/// Bound on the base quantities of an aggregated stat bag after its
/// percentage modifiers have been applied.
pub const AGG_SCALAR_LIMIT: i64 = 5_000_000_000_000_000;

/// Left wall of the walkable room area.
pub const ROOM_MIN_X: i64 = 4_000;

/// Top wall of the walkable room area (below the door row).
pub const ROOM_MIN_Y: i64 = 28_000;

/// Right wall of the walkable room area.
pub const ROOM_MAX_X: i64 = 252_000;

/// Bottom wall of the walkable room area.
pub const ROOM_MAX_Y: i64 = 216_000;

/// Bound on where an enemy can ever stand: covers every spawn point and
/// the whole walkable area.
pub const ENEMY_POS_LIMIT: i64 = 300_000;

/// Bound on an enemy's health magnitude; health arithmetic is clamped
/// into this huge range so it stays exact for any reachable value.
pub const HEALTH_CAP: i64 = 1_000_000_000_000_000;

/// Bound on a well-formed enemy type's maximum health.
pub const HEALTH_LIMIT: i64 = 1_000_000_000;

/// Bound on an enemy's shield charge.
pub const SHIELD_CAP: i64 = 1_000_000_000_000;

} // verus!
