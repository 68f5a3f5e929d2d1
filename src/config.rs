//! The fixed settings of the game: board size, cell size in pixels, tick
//! rate, colours and the label shown while editing.
use vstd::prelude::*;

verus! {

/// Pixels along each side of a cell.
pub const GRID_SCALE: i32 = 20;

/// Cells across the board.
pub const GRID_WIDTH: i32 = 40;

/// Cells down the board.
pub const GRID_HEIGHT: i32 = 30;

/// Generations per second while running.
pub const TICKS_PER_SECOND: u64 = 10;

/// Length of one tick in nanoseconds.
pub const NANOS_PER_TICK: u64 = 1_000_000_000 / TICKS_PER_SECOND;

/// Window width in pixels.
pub const SCREEN_WIDTH: i32 = GRID_WIDTH * GRID_SCALE;

/// Window height in pixels.
pub const SCREEN_HEIGHT: i32 = GRID_HEIGHT * GRID_SCALE;

/// A colour as red, green, blue and alpha channels.
#[derive(Clone, Copy, Debug, PartialEq, Eq, Structural)]
pub struct Rgba {
    pub r: u8,
    pub g: u8,
    pub b: u8,
    pub a: u8,
}

impl Rgba {
    pub fn new(r: u8, g: u8, b: u8, a: u8) -> (c: Rgba)
        ensures
            c == (Rgba { r, g, b, a }),
    {
        Rgba { r, g, b, a }
    }
}

/// Every setting the game recognises.
#[derive(Debug)]
pub struct Config {
    pub width: usize,
    pub height: usize,
    pub cell_scale: i32,
    pub ticks_per_second: u64,
    pub grid_line_color: Rgba,
    pub live_color: Rgba,
    pub dead_color: Rgba,
    pub edit_label: String,
}

impl Config {
    /// The settings the game runs with: a 40 by 30 board of 20-pixel cells,
    /// ten generations a second, black live cells on white, light grey lines.
    pub fn standard() -> (c: Config)
        ensures
            c.width == GRID_WIDTH,
            c.height == GRID_HEIGHT,
            c.cell_scale == GRID_SCALE,
            c.ticks_per_second == TICKS_PER_SECOND,
            c.grid_line_color == (Rgba { r: 200, g: 200, b: 200, a: 255 }),
            c.live_color == (Rgba { r: 0, g: 0, b: 0, a: 255 }),
            c.dead_color == (Rgba { r: 255, g: 255, b: 255, a: 255 }),
            c.edit_label@ == "Edit Mode"@,
    {
        Config {
            width: GRID_WIDTH as usize,
            height: GRID_HEIGHT as usize,
            cell_scale: GRID_SCALE,
            ticks_per_second: TICKS_PER_SECOND,
            grid_line_color: Rgba::new(200, 200, 200, 255),
            live_color: Rgba::new(0, 0, 0, 255),
            dead_color: Rgba::new(255, 255, 255, 255),
            edit_label: String::from_str("Edit Mode"),
        }
    }
}

} // verus!
