//! The order in which the elements of each menu take the focus.

use vstd::prelude::*;

pub mod new_character;
pub mod test_window;

verus! {

/// The place of a menu's element in the order of focus.
pub type FocusIndex = u16;

} // verus!
