//! The maker of maps.

use vstd::prelude::*;
use crate::item::{Item, ItemLocation, ItemType};
use crate::map::{GameMap, Tile};

verus! {

/// The tile that a square of a built map has: a wall round the edge, floor
/// inside.
pub open spec fn built_tile(width: u16, height: u16, x: u16, y: u16) -> Tile {
    if y == 0 || y == height - 1 || x == 0 || x == width - 1 {
        Tile::Wall
    } else {
        Tile::Floor
    }
}

/// The kind of item that is laid out on a square of a built map, if any.
pub open spec fn laid_out(x: u16, y: u16) -> Option<ItemType> {
    if x == 2 && y == 1 {
        Some(ItemType::Abacus)
    } else if x == 7 && y == 1 {
        Some(ItemType::LightCrossbow)
    } else if x == 5 && y == 1 {
        Some(ItemType::Crystal)
    } else if x == 8 && y == 2 {
        Some(ItemType::Coin)
    } else if x == 5 && y == 2 {
        Some(ItemType::Waterskin)
    } else if x == 2 && y == 3 {
        Some(ItemType::Lute)
    } else if x == 3 && y == 4 {
        Some(ItemType::Dagger)
    } else if x == 10 && y == 8 {
        Some(ItemType::CrossbowBolt)
    } else {
        None
    }
}

/// The items of a square after the map was built: what lay there before, and
/// on top of it what is laid out there.
pub open spec fn with_laid_out(items: Seq<Item>, x: u16, y: u16) -> Seq<Item> {
    match laid_out(x, y) {
        Some(item_type) => items.push(Item { item_type, location: ItemLocation::World }),
        None => items,
    }
}

/// A square of a map has its column and row as the remainder and quotient of
/// its place by the width, and its place is below the number of squares.
proof fn lemma_place(map: &GameMap, x: u16, y: u16)
    requires
        map.contains(x, y),
    ensures
        0 <= map.index_of(x, y) < map.area(),
        map.index_of(x, y) % (map.width as int) == x,
        map.index_of(x, y) / (map.width as int) == y,
{
    vstd::arithmetic::div_mod::lemma_fundamental_div_mod_converse(
        map.index_of(x, y),
        map.width as int,
        y as int,
        x as int,
    );
    assert(y * map.width + x < map.width * map.height) by (nonlinear_arith)
        requires
            x < map.width,
            y < map.height,
    ;
    assert(0 <= y * map.width) by (nonlinear_arith);
}

/// Lays an item of a kind on a square.
fn lay_out(map: &mut GameMap, x: u16, y: u16, item_type: ItemType)
    requires
        old(map).addressable(x, y, old(map).items@.len()),
    ensures
        final(map).items@.len() == old(map).items@.len(),
        (final(map).items@[old(map).index_of(x, y)])@ == (old(map).items@[old(map).index_of(
            x,
            y,
        )])@.push(Item { item_type, location: ItemLocation::World }),
        forall|i: int|
            0 <= i < old(map).items@.len() && i != old(map).index_of(x, y)
                ==> final(map).items@[i] == old(map).items@[i],
        final(map).tiles == old(map).tiles,
        final(map).id == old(map).id,
        final(map).width == old(map).width,
        final(map).height == old(map).height,
{
    map.get_items_mut(x, y).push(Item { item_type, location: ItemLocation::World });
}

/// Builds a room on a map: a wall round the edge, floor inside, and a few
/// items laid out on the floor. The map has to be wide and high enough for
/// the items, and its squares are counted in 16 bits.
pub fn populate_map(map: &mut GameMap)
    requires
        old(map).wf(),
        old(map).area() <= u16::MAX,
        old(map).width >= 11,
        old(map).height >= 9,
    ensures
        final(map).id == old(map).id,
        final(map).width == old(map).width,
        final(map).height == old(map).height,
        final(map).wf(),
        forall|x: u16, y: u16|
            old(map).contains(x, y) ==> final(map).tiles@[#[trigger] old(map).index_of(x, y)]
                == built_tile(old(map).width, old(map).height, x, y),
        forall|x: u16, y: u16|
            old(map).contains(x, y) ==> (final(map).items@[#[trigger] old(map).index_of(x, y)])@
                == with_laid_out((old(map).items@[old(map).index_of(x, y)])@, x, y),
{
    let map_height: u16 = map.height;
    let map_width: u16 = map.width;
    let y_max: u16 = map_height - 1;
    let x_max: u16 = map_width - 1;
    let mut y: u16 = 0;
    while y < map_height
        invariant
            y <= map_height,
            map_height == map.height,
            map_width == map.width,
            y_max == map_height - 1,
            x_max == map_width - 1,
            map.width == old(map).width,
            map.height == old(map).height,
            map.id == old(map).id,
            map.items == old(map).items,
            map.wf(),
            map.area() <= u16::MAX,
            forall|i: int|
                0 <= i < y * map_width ==> map.tiles@[i] == built_tile(
                    map_width,
                    map_height,
                    (i % (map_width as int)) as u16,
                    (i / (map_width as int)) as u16,
                ),
        decreases map_height - y,
    {
        let mut x: u16 = 0;
        while x < map_width
            invariant
                x <= map_width,
                y < map_height,
                map_height == map.height,
                map_width == map.width,
                y_max == map_height - 1,
                x_max == map_width - 1,
                map.width == old(map).width,
                map.height == old(map).height,
                map.id == old(map).id,
                map.items == old(map).items,
                map.wf(),
                map.area() <= u16::MAX,
                forall|i: int|
                    0 <= i < y * map_width + x ==> map.tiles@[i] == built_tile(
                        map_width,
                        map_height,
                        (i % (map_width as int)) as u16,
                        (i / (map_width as int)) as u16,
                    ),
            decreases map_width - x,
        {
            proof {
                lemma_place(map, x, y);
            }
            if y == 0 || y == y_max || x == 0 || x == x_max {
                map.set_tile(x, y, Tile::Wall);
            } else {
                map.set_tile(x, y, Tile::Floor);
            }
            x = x + 1;
        }
        proof {
            assert((y + 1) * map_width == y * map_width + map_width) by (nonlinear_arith);
        }
        y = y + 1;
    }
    let ghost built = *map;
    proof {
        assert forall|x: u16, y: u16| built.contains(x, y)
            implies built.tiles@[#[trigger] built.index_of(
            x,
            y,
        )] == built_tile(map_width, map_height, x, y) by {
            lemma_place(&built, x, y);
            assert(map_height * map_width == map_width * map_height) by (nonlinear_arith);
        }
        lemma_place(&built, 2, 1);
        lemma_place(&built, 7, 1);
        lemma_place(&built, 5, 1);
        lemma_place(&built, 8, 2);
        lemma_place(&built, 5, 2);
        lemma_place(&built, 2, 3);
        lemma_place(&built, 3, 4);
        lemma_place(&built, 10, 8);
    }
    lay_out(map, 2, 1, ItemType::Abacus);
    lay_out(map, 7, 1, ItemType::LightCrossbow);
    lay_out(map, 5, 1, ItemType::Crystal);
    lay_out(map, 8, 2, ItemType::Coin);
    lay_out(map, 5, 2, ItemType::Waterskin);
    lay_out(map, 2, 3, ItemType::Lute);
    lay_out(map, 3, 4, ItemType::Dagger);
    lay_out(map, 10, 8, ItemType::CrossbowBolt);
    proof {
        assert forall|x: u16, y: u16| old(map).contains(x, y)
            implies map.tiles@[#[trigger] old(map).index_of(x, y)]
            == built_tile(map_width, map_height, x, y) by {
            assert(old(map).index_of(x, y) == built.index_of(x, y));
        }
        assert forall|x: u16, y: u16| old(map).contains(x, y)
            implies (map.items@[#[trigger] old(map).index_of(x, y)])@
            == with_laid_out((old(map).items@[old(map).index_of(x, y)])@, x, y) by {
            lemma_place(&built, x, y);
            assert(old(map).index_of(x, y) == built.index_of(x, y));
        }
    }
}

} // verus!
