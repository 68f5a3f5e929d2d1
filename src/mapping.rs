//! From pointer pixels to board cells, and from board cells to the pixels
//! they cover.
use vstd::prelude::*;
use crate::config::{GRID_HEIGHT, GRID_SCALE, GRID_WIDTH, SCREEN_HEIGHT, SCREEN_WIDTH};

verus! {

/// `p` clamped into `[0, hi]`.
pub open spec fn clamp_px(p: int, hi: int) -> int {
    if p < 0 {
        0
    } else if p > hi {
        hi
    } else {
        p
    }
}

/// The cell index along one axis for pixel `p` on a screen `screen` pixels
/// long with cells `scale` pixels long: the pixel is first kept at least one
/// cell away from the far edge.
pub open spec fn square_of(p: int, screen: int, scale: int) -> int {
    clamp_px(p, screen - scale) / scale
}

/// The cell under the pixel `(px, py)`; any pixel, on screen or not, maps
/// to a cell of the board.
pub fn px_to_square(px: i32, py: i32) -> (r: (usize, usize))
    ensures
        r.0 == square_of(px as int, SCREEN_WIDTH as int, GRID_SCALE as int),
        r.1 == square_of(py as int, SCREEN_HEIGHT as int, GRID_SCALE as int),
        r.0 < GRID_WIDTH,
        r.1 < GRID_HEIGHT,
{
    let x: i32 = clamp_px_exec(px, SCREEN_WIDTH - GRID_SCALE);
    let y: i32 = clamp_px_exec(py, SCREEN_HEIGHT - GRID_SCALE);
    let x: i32 = x - (x % GRID_SCALE);
    let y: i32 = y - (y % GRID_SCALE);
    let x: i32 = x / GRID_SCALE;
    let y: i32 = y / GRID_SCALE;
    (x as usize, y as usize)
}

/// `v` clamped into `[0, hi]`.
fn clamp_px_exec(v: i32, hi: i32) -> (r: i32)
    requires
        0 <= hi,
    ensures
        r == clamp_px(v as int, hi as int),
{
    if v < 0 {
        0
    } else if v > hi {
        hi
    } else {
        v
    }
}

/// The square that cell `(x, y)` covers on screen, as left, top, width and
/// height in pixels.
pub fn square_rect(x: usize, y: usize) -> (r: (i32, i32, i32, i32))
    requires
        x < GRID_WIDTH,
        y < GRID_HEIGHT,
    ensures
        r.0 == x * GRID_SCALE,
        r.1 == y * GRID_SCALE,
        r.2 == GRID_SCALE,
        r.3 == GRID_SCALE,
{
    (x as i32 * GRID_SCALE, y as i32 * GRID_SCALE, GRID_SCALE, GRID_SCALE)
}

/// The top-left pixel of column `k` maps to column `k`, on the top row.
pub proof fn lemma_corner_maps_to_its_cell(k: int)
    requires
        0 <= k < GRID_WIDTH,
    ensures
        square_of(k * GRID_SCALE, SCREEN_WIDTH as int, GRID_SCALE as int) == k,
        square_of(0, SCREEN_HEIGHT as int, GRID_SCALE as int) == 0,
{
    assert(k * 20 <= 780) by (nonlinear_arith)
        requires
            0 <= k < 40,
    ;
    assert((k * 20) / 20 == k) by (nonlinear_arith);
}

/// A pixel at or past the right edge of the screen maps to the last column.
pub proof fn lemma_past_edge_maps_to_last(p: int)
    requires
        p >= SCREEN_WIDTH,
    ensures
        square_of(p, SCREEN_WIDTH as int, GRID_SCALE as int) == GRID_WIDTH - 1,
{
}

} // verus!
