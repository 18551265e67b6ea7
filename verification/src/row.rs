//! Rows of cells: how a platform is laid into a fresh row, and how a row is
//! frozen against the platform below it.

use vstd::prelude::*;
use crate::block::GridBlock;
use crate::config::GAME_WIDTH;

verus! {

/// Column `col` lies in the span of `width` columns that begins at `start`.
pub open spec fn in_span(col: int, start: int, width: int) -> bool {
    start <= col < start + width
}

/// A fresh row spawned at `level`: empty but for one platform over the span
/// of `width` columns from `start`, as far as that span lies on the field.
pub open spec fn platform_row(start: int, width: int, landed: bool, level: i32) -> Seq<GridBlock> {
    Seq::new(
        GAME_WIDTH as nat,
        |col: int| GridBlock::spawned(in_span(col, start, width), landed, level),
    )
}

/// `row` holds a sliding platform over the span of `width` columns from
/// `start` and nothing else.
pub open spec fn is_sliding_row(row: Seq<GridBlock>, start: int, width: int) -> bool {
    &&& row.len() == GAME_WIDTH
    &&& forall|col: int|
        0 <= col < row.len() ==> {
            &&& (#[trigger] row[col]).active == in_span(col, start, width)
            &&& !row[col].landed
            &&& !row[col].falling
            &&& row[col].fall_offset == 0
        }
}

/// `row` frozen against the span of `width` columns from `start`.
pub open spec fn frozen_row(row: Seq<GridBlock>, start: int, width: int) -> Seq<GridBlock> {
    Seq::new(row.len(), |col: int| row[col].frozen(in_span(col, start, width)))
}

/// The number of occupied cells of `row` among its first `upto` columns whose
/// column lies in the span of `width` columns from `start`.
pub open spec fn count_in_span(row: Seq<GridBlock>, start: int, width: int, upto: int) -> nat
    decreases upto,
{
    if upto <= 0 {
        0
    } else {
        let rest = count_in_span(row, start, width, upto - 1);
        if row[upto - 1].active && in_span(upto - 1, start, width) {
            rest + 1
        } else {
            rest
        }
    }
}

/// The number of columns that the spans of `width` columns from `a` and from
/// `b` have in common.
pub open spec fn overlap(a: int, b: int, width: int) -> int {
    if a <= b {
        if b - a < width { width - (b - a) } else { 0 }
    } else {
        if a - b < width { width - (a - b) } else { 0 }
    }
}

/// No more cells are counted than the span has columns, nor than it has
/// columns below `upto`.
pub proof fn lemma_count_within_width(row: Seq<GridBlock>, start: int, width: int, upto: int)
    requires
        0 <= width,
    ensures
        count_in_span(row, start, width, upto) <= width,
        count_in_span(row, start, width, upto) <= (if upto <= start {
            0
        } else {
            upto - start
        }),
    decreases upto,
{
    if upto > 0 {
        lemma_count_within_width(row, start, width, upto - 1);
    }
}

/// The number of columns below `upto` that lie both in the span of `width`
/// columns from `a` and in the span of `width` columns from `b`.
pub open spec fn common_below(a: int, b: int, width: int, upto: int) -> int {
    let low = if a <= b { b } else { a };
    let high = if a <= b { a + width } else { b + width };
    let top = if upto <= high { upto } else { high };
    if low < top { top - low } else { 0 }
}

/// In a row that holds one platform, over the span from `slider`, and
/// nothing else, the occupied cells inside the span from `start` are the
/// columns that the two spans share.
pub proof fn lemma_count_of_sliding_row(
    row: Seq<GridBlock>,
    slider: int,
    start: int,
    width: int,
    upto: int,
)
    requires
        0 <= upto <= row.len(),
        0 <= slider,
        0 <= start,
        forall|col: int|
            0 <= col < row.len() ==> (#[trigger] row[col]).active == in_span(col, slider, width),
    ensures
        count_in_span(row, start, width, upto) == common_below(slider, start, width, upto),
    decreases upto,
{
    if upto > 0 {
        lemma_count_of_sliding_row(row, slider, start, width, upto - 1);
    }
}

/// Two spans of one width that both lie on the field share as many columns
/// as [`overlap`] says.
pub proof fn lemma_common_is_overlap(a: int, b: int, width: int)
    requires
        0 <= a,
        0 <= b,
        0 <= width,
        a + width <= GAME_WIDTH,
        b + width <= GAME_WIDTH,
    ensures
        common_below(a, b, width, GAME_WIDTH as int) == overlap(a, b, width),
{
}

/// A fresh row with its platform.
pub fn new_platform_row(start: usize, width: usize, landed: bool, level: i32) -> (row: Vec<
    GridBlock,
>)
    ensures
        row@ == platform_row(start as int, width as int, landed, level),
        row.len() == GAME_WIDTH,
{
    let mut row: Vec<GridBlock> = Vec::new();
    let mut col: usize = 0;
    while col < GAME_WIDTH
        invariant
            col <= GAME_WIDTH,
            row.len() == col,
            forall|c: int|
                0 <= c < col ==> #[trigger] row[c] == GridBlock::spawned(
                    in_span(c, start as int, width as int),
                    landed,
                    level,
                ),
        decreases GAME_WIDTH - col,
    {
        let active = start <= col && col - start < width;
        row.push(
            GridBlock { active, landed: active && landed, level, falling: false, fall_offset: 0 },
        );
        col = col + 1;
    }
    assert(row@ =~= platform_row(start as int, width as int, landed, level));
    row
}

/// Freezes `row` against the span of `width` columns from `start`: every
/// occupied cell inside the span lands, every sliding cell outside it starts
/// to fall. Returns how many cells are occupied inside the span.
pub fn freeze_row(row: &mut Vec<GridBlock>, start: usize, width: usize) -> (count: usize)
    ensures
        final(row)@ == frozen_row(old(row)@, start as int, width as int),
        count == count_in_span(old(row)@, start as int, width as int, old(row)@.len() as int),
{
    let mut count: usize = 0;
    let mut col: usize = 0;
    let cells = row.len();
    while col < cells
        invariant
            col <= cells,
            cells == row.len(),
            row.len() == old(row).len(),
            count == count_in_span(old(row)@, start as int, width as int, col as int),
            count <= col,
            forall|c: int|
                0 <= c < col ==> #[trigger] row[c] == old(row)[c].frozen(
                    in_span(c, start as int, width as int),
                ),
            forall|c: int| col <= c < cells ==> #[trigger] row[c] == old(row)[c],
        decreases cells - col,
    {
        let block = row[col];
        let inside = start <= col && col - start < width;
        if block.active && inside {
            row[col] = GridBlock { landed: true, ..block };
            count = count + 1;
        } else if block.active && !block.landed {
            row[col] = GridBlock { falling: true, fall_offset: 0, ..block };
        }
        col = col + 1;
    }
    assert(row@ =~= frozen_row(old(row)@, start as int, width as int));
    count
}

} // verus!
