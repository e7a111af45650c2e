//! Colours, as a terminal names them.

use vstd::prelude::*;

verus! {

/// A colour of a terminal: one of the sixteen named ones, a colour by its
/// red, green and blue parts, a colour by its number in the table of 256, or
/// the terminal's own default.
#[derive(Clone, Copy, Debug, PartialEq, Eq, Hash, Structural)]
pub enum Color {
    Reset,
    Black,
    DarkGrey,
    Red,
    DarkRed,
    Green,
    DarkGreen,
    Yellow,
    DarkYellow,
    Blue,
    DarkBlue,
    Magenta,
    DarkMagenta,
    Cyan,
    DarkCyan,
    White,
    Grey,
    Rgb { r: u8, g: u8, b: u8 },
    AnsiValue(u8),
}

} // verus!
