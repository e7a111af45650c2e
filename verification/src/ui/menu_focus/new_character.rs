//! The elements of the menu for a new character.

use vstd::prelude::*;

verus! {

pub const NAME: usize = 0;

pub const CLASS: usize = 1;

pub const RACE: usize = 2;

pub const ALIGNMENT: usize = 3;

pub const STATS: usize = 4;

pub const FOCUS_INDEX_SIZE: usize = 5;

} // verus!
