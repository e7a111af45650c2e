//! Limits shared by the menus.

use vstd::prelude::*;

verus! {

/// The longest name that a text field for a name takes.
pub const NAME_MAX_LENGTH: u16 = 32;

} // verus!
