//! The simulation core of a stacking-tower arcade game.
//!
//! A platform slides left and right above a tower of landed platforms. On a
//! freeze it stops where it is, whatever hangs over the platform below is cut
//! away, and a new platform of the surviving width starts sliding one row
//! higher. The game is over when a platform misses the tower altogether.
//!
//! The crate holds no window, no clock and no file: durations and timestamps
//! come in as whole nanoseconds, viewport sizes as whole pixels, and what has
//! to be done outside (storing the statistics, leaving the process) is handed
//! back as a [`session::Action`]. Nothing here is a floating-point number:
//! fall offsets are counted in billionths of a pixel and the scroll of the
//! view in thirtieths of a pixel, which keeps every rule of the game exact.
//!
//! The modules, from the single cell up: [`block`], [`row`] and [`fall`] for
//! cells and rows, [`tower`] for the stack of rows and the landing,
//! [`oscillation`] for the platform's motion and pace, [`camera`] for the
//! scroll, [`palette`] for the colours, [`stats`] for what outlives a session
//! and [`session`] for the state machine that ties them together.

pub mod block;
pub mod camera;
pub mod config;
pub mod fall;
pub mod oscillation;
pub mod palette;
pub mod row;
pub mod session;
pub mod stats;
pub mod tower;
