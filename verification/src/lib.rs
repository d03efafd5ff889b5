//! Core simulation of a minimal endless side-scrolling runner: a player jumps
//! over procedurally spawned obstacles while the scroll speed ramps up, with a
//! Menu / Playing / GameOver flow and an in-memory high score.
//!
//! All world quantities are exact fixed-point integers:
//! - lengths and positions in *position units*, millionths of a pixel;
//! - speeds in *speed units*, thousandths of a pixel per second;
//! - time in milliseconds.
//! One speed unit over one millisecond moves exactly one position unit, so the
//! physics integrates without any rounding.

pub mod consts;
pub mod geom;
pub mod player;
pub mod obstacle;
pub mod rng;
pub mod session;
pub mod game;
