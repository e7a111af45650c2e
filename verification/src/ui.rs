//! What the player sees and handles: menus, and the terminal that shows them.

pub mod menu;
pub mod menu_focus;
pub mod terminal;
