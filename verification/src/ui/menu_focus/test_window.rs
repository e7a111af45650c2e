//! The elements of the test menu.

use vstd::prelude::*;

verus! {

pub const DROPDOWN: usize = 0;

pub const TEXT_FIELD: usize = 1;

pub const POINT_BUY: usize = 2;

pub const FOCUS_INDEX_SIZE: usize = 3;

} // verus!
