//! Which colour each cell is drawn in.

use vstd::prelude::*;
use crate::block::GridBlock;

verus! {

/// The colours of the game.
#[derive(Clone, Copy, PartialEq, Eq, Structural, Debug)]
pub enum Paint {
    /// Landed platforms of even levels, and the base.
    Blue,
    /// Landed platforms of odd levels.
    Yellow,
    /// Segments that were cut away.
    Red,
    /// The sliding platform.
    Green,
}

/// The colour of a platform that was spawned at `level` and has landed: the
/// two platform colours take turns.
pub open spec fn platform_paint(level: i32) -> Paint {
    if level % 2 == 0 {
        Paint::Blue
    } else {
        Paint::Yellow
    }
}

/// The colour in which `block` is drawn, if it is drawn at all: an empty cell
/// is not, a landed segment has the colour of its level, a falling one is
/// red and a sliding one green.
pub open spec fn block_paint(block: GridBlock) -> Option<Paint> {
    if !block.active && !block.falling {
        None
    } else if block.landed {
        Some(platform_paint(block.level))
    } else if block.falling {
        Some(Paint::Red)
    } else {
        Some(Paint::Green)
    }
}

/// The colour of a landed platform of `level`.
pub fn get_platform_color(level: i32) -> (paint: Paint)
    ensures
        paint == platform_paint(level),
{
    if level % 2 == 0 {
        Paint::Blue
    } else {
        Paint::Yellow
    }
}

/// The colour in which to draw `block`, or `None` for a cell that is not
/// drawn.
pub fn block_color(block: GridBlock) -> (paint: Option<Paint>)
    ensures
        paint == block_paint(block),
{
    if !block.active && !block.falling {
        None
    } else if block.landed {
        Some(get_platform_color(block.level))
    } else if block.falling {
        Some(Paint::Red)
    } else {
        Some(Paint::Green)
    }
}

} // verus!
