//! One cell of the playing field.

use vstd::prelude::*;

verus! {

/// One cell of a row.
///
/// A cell is empty, part of the sliding platform (`active` only), part of the
/// tower (`active` and `landed`), or cut away and falling (`active` and
/// `falling`).
#[derive(Clone, Copy, PartialEq, Eq, Structural, Debug)]
pub struct GridBlock {
    /// A platform segment occupies the cell.
    pub active: bool,
    /// The segment belongs to the tower for good.
    pub landed: bool,
    /// The level at which the row was spawned. It only picks the colour.
    pub level: i32,
    /// The segment was cut away at a landing.
    pub falling: bool,
    /// How far a falling segment has dropped, in billionths of a pixel.
    pub fall_offset: u64,
}

impl GridBlock {
    /// The states a cell can be in: only an occupied cell is landed or
    /// falling, never both, and only a falling one has dropped.
    pub open spec fn wf(self) -> bool {
        &&& self.landed ==> self.active
        &&& self.falling ==> self.active && !self.landed
        &&& !self.falling ==> self.fall_offset == 0
    }

    /// The cell belongs to a platform that is still sliding.
    pub open spec fn is_sliding(self) -> bool {
        self.active && !self.landed && !self.falling
    }

    /// A cell of a row spawned at `level` that holds nothing, or, with
    /// `active`, a segment of the row's platform, `landed` or still sliding.
    pub open spec fn spawned(active: bool, landed: bool, level: i32) -> GridBlock {
        GridBlock { active, landed: active && landed, level, falling: false, fall_offset: 0 }
    }

    /// The cell with its segment put in place or taken away.
    pub open spec fn with_active(self, active: bool) -> GridBlock {
        GridBlock { active, ..self }
    }

    /// The cell after the row it is in was frozen. `inside` says whether the
    /// cell's column lies in the span of the platform below: a segment inside
    /// lands, a sliding segment outside starts to fall, from offset 0.
    pub open spec fn frozen(self, inside: bool) -> GridBlock {
        if self.active && inside {
            GridBlock { landed: true, ..self }
        } else if self.active && !self.landed {
            GridBlock { falling: true, fall_offset: 0, ..self }
        } else {
            self
        }
    }
}

} // verus!
