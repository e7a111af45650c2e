//! Where on the screen the elements of each menu stand.

use vstd::prelude::*;
use crate::ui::menu::MenuType;

pub mod new_character;
pub mod test_window;

verus! {

/// A place on the screen, counted from the top left corner.
#[derive(Clone, Copy, Debug, PartialEq, Eq, Structural)]
pub struct Offset {
    pub x: u16,
    pub y: u16,
}

impl Offset {
    pub fn new(x: u16, y: u16) -> (offset: Self)
        ensures
            offset == (Offset { x, y }),
    {
        Self { x, y }
    }
}

/// The place of what has no place of its own: the top left corner.
pub open spec fn unknown_offset() -> Offset {
    Offset { x: 0, y: 0 }
}

/// The place of a menu's element: the menu for a new character and the test
/// menu have a place for each of their elements, and everything else stands
/// at the unknown place.
pub open spec fn offset_of(menu_type: MenuType, index: usize) -> Offset {
    match menu_type {
        MenuType::NewCharacter => new_character::offset_of(index),
        MenuType::TestMenu => test_window::offset_of(index),
        _ => unknown_offset(),
    }
}

pub fn get_offset(menu_type: MenuType, index: usize) -> (offset: Offset)
    ensures
        offset == offset_of(menu_type, index),
{
    match menu_type {
        MenuType::Character => Offset::new(0, 0),
        MenuType::Main => Offset::new(0, 0),
        MenuType::NewCharacter => new_character::get_offset(index),
        MenuType::Pause => Offset::new(0, 0),
        MenuType::TestMenu => test_window::get_offset(index),
    }
}

} // verus!
