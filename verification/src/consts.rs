//! Tuning constants of the game, in the crate's fixed-point units.
//!
//! Units: positions and lengths are in position units (millionths of a pixel),
//! speeds in speed units (thousandths of a pixel per second), time in
//! milliseconds. One speed unit times one millisecond is one position unit.

use vstd::prelude::*;

verus! {

/// Downward acceleration: speed units gained per millisecond (1800 px/s^2).
pub const GRAVITY: i64 = 1800;

/// Vertical velocity set when a jump starts (-800 px/s; negative is upward).
pub const JUMP_VEL: i64 = -800_000;

/// Player sprite width (60 px).
pub const PLAYER_W: i64 = 60_000_000;

/// Player sprite height (60 px).
pub const PLAYER_H: i64 = 60_000_000;

/// Inset of the player's hitbox from its sprite, on each side (8 px).
pub const PLAYER_INSET: i64 = 8_000_000;

/// Inset of an obstacle's hitbox from its sprite, on each side (4 px).
pub const OBSTACLE_INSET: i64 = 4_000_000;

/// Scroll speed at the start of a run (30 px/s).
pub const BASE_SPEED: i64 = 30_000;

/// Scroll speed gained per millisecond of play (8 px/s^2).
pub const SPEED_GROWTH: i64 = 8;

/// Ceiling on the scroll speed (140 px/s).
pub const MAX_SPEED: i64 = 140_000;

/// Smallest randomized delay between spawns (0.9 s).
pub const SPAWN_MIN: i64 = 900;

/// Largest randomized delay between spawns (1.8 s).
pub const SPAWN_MAX: i64 = 1800;

/// Hard floor applied to the lower bound when the spawn delay is re-rolled
/// after a spawn (0.5 s). With the current `SPAWN_MIN` the clamp is inert,
/// but the re-roll applies it and the initial roll does not.
pub const SPAWN_FLOOR: i64 = 500;

/// Smallest obstacle width, inclusive (40 px).
pub const OBSTACLE_W_MIN: i64 = 40_000_000;

/// Largest obstacle width, exclusive (70 px).
pub const OBSTACLE_W_MAX: i64 = 70_000_000;

/// Smallest obstacle height, inclusive (50 px).
pub const OBSTACLE_H_MIN: i64 = 50_000_000;

/// Largest obstacle height, exclusive (120 px).
pub const OBSTACLE_H_MAX: i64 = 120_000_000;

/// An obstacle is evicted once its right edge is this far past the left
/// screen edge (10 px).
pub const OFFSCREEN_MARGIN: i64 = 10_000_000;

/// Obstacles spawn this far past the right screen edge (40 px).
pub const SPAWN_LEAD: i64 = 40_000_000;

/// Score units per displayed point: the score gains `speed * dt` units each
/// tick, which is one tenth of a point per pixel of world scroll.
pub const SCORE_UNITS_PER_POINT: i64 = 10_000_000;

/// Largest delta-time one tick accepts (1000 s). This is a machine limit,
/// not a game rule: it keeps one tick's fixed-point arithmetic inside `i64`.
pub const MAX_DT: i64 = 1_000_000;

/// Largest ground line the simulation accepts (100 000 px). A machine limit.
pub const MAX_GROUND_Y: i64 = 100_000_000_000;

/// Largest screen width the simulation accepts (100 000 px). A machine limit.
pub const MAX_SCREEN_W: i64 = 100_000_000_000;

/// Largest obstacle x position the simulation accepts. A machine limit.
pub const MAX_OBSTACLE_X: i64 = 200_000_000_000;

/// Bound on any coordinate the geometric helpers accept. A machine limit.
pub const COORD_LIMIT: i64 = 1_000_000_000_000_000;

/// Largest score a tick accepts without risking `i64` overflow when the
/// tick's gain is added. A machine limit.
pub const MAX_SCORE: i64 = 9_000_000_000_000_000_000;

/// Bound on the magnitude of the player's vertical velocity, derived from
/// the jump impulse and the fall height that `MAX_GROUND_Y` allows.
pub const VEL_LIMIT: i64 = 20_000_000;

/// Bound on how far above the world origin the player can reach
/// (about 238 px above the top at the highest jump apex).
pub const POS_LIMIT: i64 = 240_000_000;

/// Upper bound on `vel_y^2 - 2 * GRAVITY * pos_y`, an "energy" that a jump
/// establishes and that gravity integration never increases. Its value is
/// `JUMP_VEL * JUMP_VEL + 2 * GRAVITY * PLAYER_H`: the squared jump impulse,
/// plus a term that accounts for the player's feet being `PLAYER_H` below
/// its top-left corner when grounded.
pub const JUMP_ENERGY: i64 = 856_000_000_000;

} // verus!
