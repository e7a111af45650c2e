//! The places of the elements of the test menu.

use vstd::prelude::*;
use crate::ui::menu_focus;
use crate::ui::terminal::menu_offsets::{unknown_offset, Offset};

verus! {

/// The place of the element with a focus index: one line below the other,
/// two columns from the left, the dropdown on the third line.
pub open spec fn offset_of(index: usize) -> Offset {
    if index < menu_focus::test_window::FOCUS_INDEX_SIZE {
        Offset { x: 2, y: (index + 2) as u16 }
    } else {
        unknown_offset()
    }
}

pub fn get_offset(index: usize) -> (offset: Offset)
    ensures
        offset == offset_of(index),
{
    if index == menu_focus::test_window::DROPDOWN {
        Offset::new(2, 2)
    } else if index == menu_focus::test_window::TEXT_FIELD {
        Offset::new(2, 3)
    } else if index == menu_focus::test_window::POINT_BUY {
        Offset::new(2, 4)
    } else {
        Offset::new(0, 0)
    }
}

} // verus!
