//! What each creature, item and tile looks like on the screen.

use vstd::prelude::*;
use crate::item::Item;
use crate::map::Tile;
use crate::tabletop::Race;
use crate::ui::terminal::style::Color;

verus! {

/// Creatures of every race are drawn in white.
pub fn creature_color(race: &Race) -> (color: Color)
    ensures
        color == Color::White,
{
    Color::White
}

/// Creatures of every race are drawn as an at sign.
pub fn creature_icon(race: &Race) -> (icon: char)
    ensures
        icon == '@',
{
    '@'
}

/// Items of every kind are drawn as an opening bracket.
pub fn item_icon(item: &Item) -> (icon: char)
    ensures
        icon == '[',
{
    '['
}

/// Tiles of every kind are drawn in dark grey.
pub fn tile_color(tile: &Tile) -> (color: Color)
    ensures
        color == Color::DarkGrey,
{
    Color::DarkGrey
}

/// The character that stands for each kind of tile.
pub open spec fn icon_of(tile: Tile) -> char {
    match tile {
        Tile::Air => ' ',
        Tile::Altar => '_',
        Tile::Building => 'o',
        Tile::DoorClosed => '+',
        Tile::DoorOpen => '/',
        Tile::Entrance => '*',
        Tile::Floor => '.',
        Tile::Forest => '&',
        Tile::Forge => '&',
        Tile::Gate => '8',
        Tile::Graveyard => '+',
        Tile::Herbs => '"',
        Tile::Hills => '~',
        Tile::Hive => '0',
        Tile::Hole => '*',
        Tile::Lever => '!',
        Tile::Magma => '=',
        Tile::Mountain => '^',
        Tile::Passage => '.',
        Tile::Plains => '"',
        Tile::Pool => '0',
        Tile::Road => '.',
        Tile::StairDown => '>',
        Tile::StairUp => '<',
        Tile::Statue => '&',
        Tile::Swamp => '"',
        Tile::Tombstone => '+',
        Tile::TrapKnown => '^',
        Tile::Tree => 'T',
        Tile::Tunnel => '.',
        Tile::Wall => '#',
        Tile::Water => '=',
        Tile::Web => '|',
    }
}

pub fn tile_icon(tile: &Tile) -> (icon: char)
    ensures
        icon == icon_of(*tile),
{
    match tile {
        Tile::Air => ' ',
        Tile::Altar => '_',
        Tile::Building => 'o',
        Tile::DoorClosed => '+',
        Tile::DoorOpen => '/',
        Tile::Entrance => '*',
        Tile::Floor => '.',
        Tile::Forest => '&',
        Tile::Forge => '&',
        Tile::Gate => '8',
        Tile::Graveyard => '+',
        Tile::Herbs => '"',
        Tile::Hills => '~',
        Tile::Hive => '0',
        Tile::Hole => '*',
        Tile::Lever => '!',
        Tile::Magma => '=',
        Tile::Mountain => '^',
        Tile::Passage => '.',
        Tile::Plains => '"',
        Tile::Pool => '0',
        Tile::Road => '.',
        Tile::StairDown => '>',
        Tile::StairUp => '<',
        Tile::Statue => '&',
        Tile::Swamp => '"',
        Tile::Tombstone => '+',
        Tile::TrapKnown => '^',
        Tile::Tree => 'T',
        Tile::Tunnel => '.',
        Tile::Wall => '#',
        Tile::Water => '=',
        Tile::Web => '|',
    }
}

} // verus!
