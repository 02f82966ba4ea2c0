use vstd::prelude::*;
use crate::caption::Caption;

verus! {

/// Columns of the display.
pub const SCREEN_WIDTH: i32 = 80;

/// Rows of the display.
pub const SCREEN_HEIGHT: i32 = 50;

/// A colour of the game's palette.
#[derive(Clone, Copy, Debug, PartialEq, Eq)]
pub enum Colour {
    Black,
    Red,
    Yellow,
    Navy,
}

/// One request to the drawing surface. Cells are addressed by column `x` and
/// row `y`; the surface itself drops what lies outside it.
#[derive(Clone, Copy, Debug, PartialEq, Eq)]
pub enum DrawCommand {
    /// Clear the surface.
    Clear,
    /// Clear the surface to a background colour.
    ClearBackground { colour: Colour },
    /// Print a caption from column `x` in row `y`.
    Print { x: i32, y: i32, caption: Caption },
    /// Print a caption centred in row `y`.
    PrintCentered { y: i32, caption: Caption },
    /// Put one glyph of the font into a cell.
    Plot { x: i32, y: i32, fg: Colour, bg: Colour, glyph: u16 },
}

/// What one tick asks of the driver: the commands to draw, in order, and
/// whether to end the program after this tick.
#[derive(Debug, PartialEq, Eq)]
pub struct Frame {
    pub commands: Vec<DrawCommand>,
    pub quit: bool,
}

} // verus!
