//! The view's vertical scroll, which keeps the top of a tall tower in sight.
//!
//! A cell is as high as it is wide, a fifteenth of the viewport's width, and
//! the view is held so that the topmost row never comes nearer to the
//! viewport's upper edge than three tenths of its height. To keep both exact,
//! the lengths here are in thirtieths of a pixel; only the size of the
//! viewport is taken in pixels.

use vstd::prelude::*;

verus! {

/// Thirtieths of a pixel in one pixel.
pub const CAMERA_SCALE: u128 = 30;

/// Height of one row in a viewport `width` pixels wide: a fifteenth of the
/// width.
pub open spec fn row_height(width: int) -> int {
    2 * width
}

/// Where the upper edge of the topmost of `rows` rows of height `block`
/// would be drawn without any scroll, measured down from the upper edge of a
/// viewport `height` pixels high: the rows stand on the viewport's lower
/// edge.
pub open spec fn live_row_top(rows: int, block: int, height: int) -> int {
    CAMERA_SCALE * height - rows * block
}

/// The upper edge of the band in which the topmost row is kept: three tenths
/// of the viewport's height down from its upper edge.
pub open spec fn band_top(height: int) -> int {
    9 * height
}

/// The topmost row would be drawn above the band.
pub open spec fn above_band(rows: int, block: int, height: int) -> bool {
    live_row_top(rows, block, height) < band_top(height)
}

/// The scroll, upwards, that puts the upper edge of the topmost row on the
/// upper edge of the band.
pub open spec fn scroll_to_band(rows: int, block: int, height: int) -> int {
    band_top(height) - live_row_top(rows, block, height)
}

/// The scroll for a tower of `rows` rows, given the scroll `current` so far:
/// onto the band if the topmost row would be above it, unchanged otherwise.
pub open spec fn camera_offset_for(current: int, rows: int, block: int, height: int) -> int {
    if above_band(rows, block, height) {
        scroll_to_band(rows, block, height)
    } else {
        current
    }
}

/// In one viewport, the scroll does not go back as the tower grows: from a
/// scroll that some lower tower could have given (none, or the one onto the
/// band), a tower at least as high gives a scroll at least as large.
pub proof fn lemma_camera_never_tracks_back(
    current: int,
    lower: int,
    higher: int,
    block: int,
    height: int,
)
    requires
        0 <= lower <= higher,
        0 <= block,
        0 <= height,
        current == 0 || (above_band(lower, block, height) && current == scroll_to_band(
            lower,
            block,
            height,
        )),
    ensures
        camera_offset_for(current, higher, block, height) >= current,
        camera_offset_for(current, higher, block, height) >= 0,
{
    assert(lower * block <= higher * block) by (nonlinear_arith)
        requires
            0 <= lower <= higher,
            0 <= block,
    ;
    assert(CAMERA_SCALE * height == 30 * height) by (nonlinear_arith)
        requires
            CAMERA_SCALE == 30,
    ;
}

/// The height, and the width, of one cell in a viewport `window_width` pixels
/// wide.
pub fn block_size(window_width: u32) -> (size: u64)
    ensures
        size == row_height(window_width as int),
{
    2 * (window_width as u64)
}

/// The scroll for a tower of `rows` rows of height `block` in a viewport
/// `window_height` pixels high, given the scroll `current` so far.
pub fn camera_offset(current: u128, rows: usize, block: u64, window_height: u32) -> (offset: u128)
    ensures
        offset == camera_offset_for(
            current as int,
            rows as int,
            block as int,
            window_height as int,
        ),
{
    assert(rows * block <= 0xffff_ffff_ffff_ffff * 0xffff_ffff_ffff_ffff) by (nonlinear_arith)
        requires
            0 <= rows <= 0xffff_ffff_ffff_ffff,
            0 <= block <= 0xffff_ffff_ffff_ffff,
    ;
    let tower_height: u128 = (rows as u128) * (block as u128);
    assert(CAMERA_SCALE * window_height == 30 * window_height) by (nonlinear_arith)
        requires
            CAMERA_SCALE == 30,
    ;
    let full: u128 = CAMERA_SCALE * (window_height as u128);
    let band: u128 = 9 * (window_height as u128);
    if tower_height + band > full {
        tower_height + band - full
    } else {
        current
    }
}

} // verus!
