//! How the segments that were cut away drop out of sight.

use vstd::prelude::*;
use crate::block::GridBlock;
use crate::config::{FALL_SPEED, FALL_UNITS_PER_PIXEL};

verus! {

/// The offset `offset` after `dt` more nanoseconds of falling. An offset that
/// no longer fits stays at the largest value that does.
pub open spec fn fallen_offset(offset: u64, dt: u64) -> u64 {
    if offset + FALL_SPEED * dt > u64::MAX {
        u64::MAX
    } else {
        (offset + FALL_SPEED * dt) as u64
    }
}

/// The cell after `dt` nanoseconds: a falling segment has dropped further,
/// any other cell is as it was.
pub open spec fn fallen_block(block: GridBlock, dt: u64) -> GridBlock {
    if block.falling {
        GridBlock { fall_offset: fallen_offset(block.fall_offset, dt), ..block }
    } else {
        block
    }
}

/// The row after `dt` nanoseconds.
pub open spec fn fallen_row(row: Seq<GridBlock>, dt: u64) -> Seq<GridBlock> {
    Seq::new(row.len(), |col: int| fallen_block(row[col], dt))
}

/// A row in which nothing falls is not changed by the passing of time.
pub proof fn lemma_nothing_falls(row: Seq<GridBlock>, dt: u64)
    requires
        forall|col: int| 0 <= col < row.len() ==> !(#[trigger] row[col]).falling,
    ensures
        fallen_row(row, dt) == row,
{
    assert(fallen_row(row, dt) =~= row);
}

/// A falling segment never rises, and while its offset fits it drops by
/// exactly `FALL_SPEED` for each nanosecond.
pub proof fn lemma_fall_is_monotonic(offset: u64, dt: u64)
    ensures
        fallen_offset(offset, dt) >= offset,
        offset + FALL_SPEED * dt <= u64::MAX ==> fallen_offset(offset, dt) == offset + FALL_SPEED
            * dt,
{
    assert(FALL_SPEED * dt == 500 * dt) by (nonlinear_arith)
        requires
            FALL_SPEED == 500,
    ;
}

/// A segment that has dropped by `offset` is out of sight in a viewport of
/// `window_height` pixels: a falling segment fades as it drops and is gone
/// when it has dropped by half the viewport's height.
pub open spec fn out_of_sight(offset: u64, window_height: u32) -> bool {
    2 * offset >= window_height * FALL_UNITS_PER_PIXEL
}

/// An offset is only ever held back where nobody can see it: one that no
/// longer fits belongs to a segment that is out of sight, however high the
/// viewport.
pub proof fn lemma_held_back_is_out_of_sight(offset: u64, dt: u64, window_height: u32)
    ensures
        fallen_offset(offset, dt) != offset + FALL_SPEED * dt ==> out_of_sight(
            fallen_offset(offset, dt),
            window_height,
        ),
{
    assert(window_height * FALL_UNITS_PER_PIXEL == 1_000_000_000 * window_height)
        by (nonlinear_arith)
        requires
            FALL_UNITS_PER_PIXEL == 1_000_000_000,
    ;
}

/// The offset of a falling segment after `dt` more nanoseconds.
pub fn advance_offset(offset: u64, dt: u64) -> (after: u64)
    ensures
        after == fallen_offset(offset, dt),
{
    assert(FALL_SPEED * dt == 500 * dt) by (nonlinear_arith)
        requires
            FALL_SPEED == 500,
    ;
    let drop: u128 = (FALL_SPEED as u128) * (dt as u128);
    let sum: u128 = (offset as u128) + drop;
    if sum > u64::MAX as u128 {
        u64::MAX
    } else {
        sum as u64
    }
}

/// Lets `dt` nanoseconds pass for every falling segment of `row`.
pub fn advance_fall(row: &mut Vec<GridBlock>, dt: u64)
    ensures
        final(row)@ == fallen_row(old(row)@, dt),
{
    let cells = row.len();
    let mut col: usize = 0;
    while col < cells
        invariant
            col <= cells,
            cells == row.len(),
            row.len() == old(row).len(),
            forall|c: int| 0 <= c < col ==> #[trigger] row[c] == fallen_block(old(row)[c], dt),
            forall|c: int| col <= c < cells ==> #[trigger] row[c] == old(row)[c],
        decreases cells - col,
    {
        let block = row[col];
        if block.falling {
            row[col] = GridBlock { fall_offset: advance_offset(block.fall_offset, dt), ..block };
        }
        col = col + 1;
    }
    assert(row@ =~= fallen_row(old(row)@, dt));
}

} // verus!
