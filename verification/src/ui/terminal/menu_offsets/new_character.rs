//! The places of the elements of the menu for a new character.

use vstd::prelude::*;
use crate::ui::menu_focus;
use crate::ui::terminal::menu_offsets::{unknown_offset, Offset};

verus! {

/// The place of the element with a focus index: one line below the other,
/// two columns from the left, the name on the second line.
pub open spec fn offset_of(index: usize) -> Offset {
    if index < menu_focus::new_character::FOCUS_INDEX_SIZE {
        Offset { x: 2, y: (index + 1) as u16 }
    } else {
        unknown_offset()
    }
}

pub fn get_offset(index: usize) -> (offset: Offset)
    ensures
        offset == offset_of(index),
{
    if index == menu_focus::new_character::NAME {
        Offset::new(2, 1)
    } else if index == menu_focus::new_character::CLASS {
        Offset::new(2, 2)
    } else if index == menu_focus::new_character::RACE {
        Offset::new(2, 3)
    } else if index == menu_focus::new_character::ALIGNMENT {
        Offset::new(2, 4)
    } else if index == menu_focus::new_character::STATS {
        Offset::new(2, 5)
    } else {
        Offset::new(0, 0)
    }
}

} // verus!
