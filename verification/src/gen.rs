//! Makers of game content.

pub mod map_gen;
