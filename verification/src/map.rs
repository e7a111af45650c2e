//! Maps: a grid of tiles with the items that lie on them.

use vstd::prelude::*;
use crate::item::Item;

verus! {

#[derive(Clone, Copy, Debug, PartialEq, Eq, Structural)]
pub enum Tile {
    Air,
    Altar,
    Building,
    DoorClosed,
    DoorOpen,
    Entrance,
    Floor,
    Forest,
    Forge,
    Gate,
    Graveyard,
    Herbs,
    Hills,
    Hive,
    Hole,
    Lever,
    Magma,
    Mountain,
    Passage,
    Plains,
    Pool,
    Road,
    StairDown,
    StairUp,
    Statue,
    Swamp,
    Tombstone,
    TrapKnown,
    Tree,
    Tunnel,
    Wall,
    Water,
    Web,
}

pub type MapID = u32;

/// A map of `width` by `height` squares, stored row by row: for each square
/// its tile and the items that lie on it.
pub struct GameMap {
    pub id: MapID,
    pub width: u16,
    pub height: u16,
    pub items: Vec<Vec<Item>>,
    pub tiles: Vec<Tile>,
}

impl GameMap {
    /// The place of a square in the rows: `y` rows of `width` squares, then
    /// `x` more.
    pub open spec fn index_of(&self, x: u16, y: u16) -> int {
        y * self.width + x
    }

    /// The number of squares.
    pub open spec fn area(&self) -> int {
        self.width * self.height
    }

    /// The map has a tile and a list of items for each of its squares.
    pub open spec fn wf(&self) -> bool {
        &&& self.tiles@.len() == self.area()
        &&& self.items@.len() == self.area()
    }

    /// Whether a square lies on the map.
    pub open spec fn contains(&self, x: u16, y: u16) -> bool {
        x < self.width && y < self.height
    }

    /// The place of a square, as the 16-bit arithmetic of coordinates can
    /// compute it and as the rows can hold it.
    pub open spec fn addressable(&self, x: u16, y: u16, squares: nat) -> bool {
        self.index_of(x, y) <= u16::MAX && self.index_of(x, y) < squares
    }

    /// A square of a well-formed map whose squares can be counted in 16 bits
    /// has a place in the rows of tiles and of items.
    pub proof fn lemma_contained_is_addressable(&self, x: u16, y: u16)
        requires
            self.wf(),
            self.area() <= u16::MAX,
            self.contains(x, y),
        ensures
            self.addressable(x, y, self.tiles@.len()),
            self.addressable(x, y, self.items@.len()),
    {
        assert(y * self.width + x < self.width * self.height) by (nonlinear_arith)
            requires
                x < self.width,
                y < self.height,
        ;
    }

    /// A map of the given size whose every square is air with nothing on it.
    /// The squares are counted in 16 bits.
    pub fn new(id: MapID, width: u16, height: u16) -> (map: Self)
        requires
            width * height <= u16::MAX,
        ensures
            map.id == id,
            map.width == width,
            map.height == height,
            map.wf(),
            forall|i: int| 0 <= i < map.area() ==> map.tiles@[i] == Tile::Air,
            forall|i: int| 0 <= i < map.area() ==> (#[trigger] map.items@[i])@.len() == 0,
    {
        let squares: u16 = width * height;
        let mut result = Self {
            id,
            width,
            height,
            items: Vec::with_capacity(squares as usize),
            tiles: Vec::with_capacity(squares as usize),
        };
        let mut filled: u16 = 0;
        while filled < squares
            invariant
                filled <= squares,
                squares == width * height,
                result.id == id,
                result.width == width,
                result.height == height,
                result.tiles@.len() == filled,
                result.items@.len() == filled,
                forall|i: int| 0 <= i < filled ==> result.tiles@[i] == Tile::Air,
                forall|i: int| 0 <= i < filled ==> (#[trigger] result.items@[i])@.len() == 0,
            decreases squares - filled,
        {
            result.tiles.push(Tile::Air);
            result.items.push(Vec::new());
            filled = filled + 1;
        }
        result
    }

    pub fn coordinates_to_index(&self, x: u16, y: u16) -> (index: usize)
        requires
            self.index_of(x, y) <= u16::MAX,
        ensures
            index == self.index_of(x, y),
    {
        (y * self.width + x) as usize
    }

    /// The square at a place in the rows: the column is the remainder of the
    /// place by the width, the row the quotient, cut to 16 bits.
    pub fn index_to_coordinates(&self, index: usize) -> (coordinates: (u16, u16))
        requires
            self.width > 0,
        ensures
            coordinates.0 == index % (self.width as usize),
            coordinates.1 == (index / (self.width as usize)) as u16,
    {
        let y: usize = index / self.width as usize;
        let x: usize = index % self.width as usize;
        (x as u16, y as u16)
    }

    pub fn get_items(&self, x: u16, y: u16) -> (items: &Vec<Item>)
        requires
            self.addressable(x, y, self.items@.len()),
        ensures
            *items == self.items@[self.index_of(x, y)],
    {
        let index: usize = self.coordinates_to_index(x, y);
        &self.items[index]
    }

    /// A mutable reference to the items on a square. What is done through it
    /// changes the items of that square and nothing else.
    pub fn get_items_mut(&mut self, x: u16, y: u16) -> (items: &mut Vec<Item>)
        requires
            old(self).addressable(x, y, old(self).items@.len()),
        ensures
            *items == old(self).items@[old(self).index_of(x, y)],
            final(self).items@ == old(self).items@.update(old(self).index_of(x, y), *final(items)),
            final(self).tiles == old(self).tiles,
            final(self).id == old(self).id,
            final(self).width == old(self).width,
            final(self).height == old(self).height,
    {
        let index: usize = self.coordinates_to_index(x, y);
        &mut self.items[index]
    }

    pub fn get_tile(&self, x: u16, y: u16) -> (tile: &Tile)
        requires
            self.addressable(x, y, self.tiles@.len()),
        ensures
            *tile == self.tiles@[self.index_of(x, y)],
    {
        let index: usize = self.coordinates_to_index(x, y);
        &self.tiles[index]
    }

    pub fn set_tile(&mut self, x: u16, y: u16, tile: Tile)
        requires
            old(self).addressable(x, y, old(self).tiles@.len()),
        ensures
            final(self).tiles@ == old(self).tiles@.update(old(self).index_of(x, y), tile),
            final(self).items == old(self).items,
            final(self).id == old(self).id,
            final(self).width == old(self).width,
            final(self).height == old(self).height,
    {
        let index: usize = self.coordinates_to_index(x, y);
        self.tiles[index] = tile;
    }

    /// The map without any square.
    pub fn empty_map() -> (map: Self)
        ensures
            map.id == 0,
            map.width == 0,
            map.height == 0,
            map.tiles@.len() == 0,
            map.items@.len() == 0,
            map.wf(),
    {
        Self { id: 0, width: 0, height: 0, items: Vec::new(), tiles: Vec::new() }
    }
}

} // verus!
