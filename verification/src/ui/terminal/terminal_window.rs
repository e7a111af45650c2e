//! The parts that windows on the screen are made of.

use vstd::prelude::*;
use crate::ui::terminal::style::Color;

verus! {

#[derive(Clone, Copy, Debug, PartialEq, Eq, Structural)]
pub enum Border {
    Plain,
    Thin,
    Thick,
}

/// A text in a colour.
pub struct Text<'a> {
    pub color: Color,
    pub text: &'a str,
}

/// A rectangle on the screen, `z` layers above the background.
pub struct Window {
    pub width: u16,
    pub height: u16,
    pub x: u16,
    pub y: u16,
    pub z: u16,
    pub border: Border,
}

/// A list of options of which one is selected.
pub struct Menu<'a> {
    pub options: Vec<Text<'a>>,
    pub current_selection: u16,
}

/// A titled box of text.
pub struct Dialog<'a> {
    pub title: &'a str,
    pub contents: Vec<Text<'a>>,
}

} // verus!
