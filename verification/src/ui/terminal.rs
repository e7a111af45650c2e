//! The terminal side of the game: what each thing looks like, where the
//! elements of a menu stand, what each key asks for, and the frames that are
//! drawn.

pub mod drawing;
pub mod icons;
pub mod key_mapping;
pub mod menu_offsets;
pub mod style;
pub mod terminal_util;
pub mod terminal_window;
