//! The fixed parameters of the game.

use vstd::prelude::*;

verus! {

/// Number of columns of the playing field.
pub const GAME_WIDTH: usize = 15;

/// Width, in columns, of the base platform of a fresh tower.
pub const PLATFORM_BLOCKS: usize = 5;

/// Time between two steps of the sliding platform at level 0, in nanoseconds.
pub const MOVE_INTERVAL: u64 = 200_000_000;

/// After each landing the step interval is multiplied by
/// `SPEED_INCREASE_NUM / SPEED_INCREASE_DEN`, rounded down to a whole
/// nanosecond.
pub const SPEED_INCREASE_NUM: u64 = 92;

/// See [`SPEED_INCREASE_NUM`].
pub const SPEED_INCREASE_DEN: u64 = 100;

/// Speed of a block that was cut away, in pixels per second. A fall offset is
/// kept in billionths of a pixel, so that an offset grows by `FALL_SPEED` for
/// each nanosecond that passes.
pub const FALL_SPEED: u64 = 500;

/// Billionths of a pixel, the unit of a fall offset, in one pixel.
pub const FALL_UNITS_PER_PIXEL: u64 = 1_000_000_000;

/// How long the final tower stays on screen before the menu returns, in
/// nanoseconds.
pub const GAME_OVER_DELAY: u64 = 3_000_000_000;

/// From this level on the view follows the tower.
pub const CAMERA_MIN_LEVEL: i32 = 4;

} // verus!
