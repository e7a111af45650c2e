use rpg_core::gen::map_gen::populate_map;
use rpg_core::item::{Item, ItemLocation, ItemType};
use rpg_core::map::{GameMap, Tile};

#[test]
fn a_new_map_is_air_with_nothing_on_it() {
    let map = GameMap::new(7, 12, 9);
    assert_eq!(map.id, 7);
    assert_eq!(map.width, 12);
    assert_eq!(map.height, 9);
    assert_eq!(map.tiles.len(), 108);
    assert_eq!(map.items.len(), 108);
    for y in 0..9 {
        for x in 0..12 {
            assert_eq!(*map.get_tile(x, y), Tile::Air);
            assert!(map.get_items(x, y).is_empty());
        }
    }
}

#[test]
fn maps_without_squares() {
    let map = GameMap::empty_map();
    assert_eq!((map.id, map.width, map.height), (0, 0, 0));
    assert!(map.tiles.is_empty());
    assert!(map.items.is_empty());
    let map = GameMap::new(1, 0, 40);
    assert!(map.tiles.is_empty());
    let map = GameMap::new(1, 40, 0);
    assert!(map.items.is_empty());
    let map = GameMap::new(2, 255, 257);
    assert_eq!(map.tiles.len(), 65535);
}

#[test]
fn squares_are_stored_row_by_row() {
    let map = GameMap::new(0, 80, 24);
    assert_eq!(map.coordinates_to_index(0, 0), 0);
    assert_eq!(map.coordinates_to_index(79, 0), 79);
    assert_eq!(map.coordinates_to_index(0, 1), 80);
    assert_eq!(map.coordinates_to_index(5, 3), 245);
    assert_eq!(map.coordinates_to_index(79, 23), 1919);
    assert_eq!(map.index_to_coordinates(0), (0, 0));
    assert_eq!(map.index_to_coordinates(79), (79, 0));
    assert_eq!(map.index_to_coordinates(80), (0, 1));
    assert_eq!(map.index_to_coordinates(245), (5, 3));
    assert_eq!(map.index_to_coordinates(1919), (79, 23));
    for index in 0..1920 {
        let (x, y) = map.index_to_coordinates(index);
        assert_eq!(map.coordinates_to_index(x, y), index);
    }
}

#[test]
fn a_tile_is_set_on_its_square_only() {
    let mut map = GameMap::new(0, 10, 5);
    map.set_tile(3, 2, Tile::Water);
    map.set_tile(9, 4, Tile::Tree);
    for y in 0..5 {
        for x in 0..10 {
            let expected = if (x, y) == (3, 2) {
                Tile::Water
            } else if (x, y) == (9, 4) {
                Tile::Tree
            } else {
                Tile::Air
            };
            assert_eq!(*map.get_tile(x, y), expected);
        }
    }
    map.set_tile(3, 2, Tile::Lever);
    assert_eq!(*map.get_tile(3, 2), Tile::Lever);
}

#[test]
fn items_lie_on_their_square_only() {
    let mut map = GameMap::new(0, 10, 5);
    let coin = Item { item_type: ItemType::Coin, location: ItemLocation::World };
    let rope = Item { item_type: ItemType::Rope, location: ItemLocation::Entity(4) };
    map.get_items_mut(1, 1).push(coin);
    map.get_items_mut(1, 1).push(rope);
    map.get_items_mut(0, 4).push(rope);
    assert_eq!(*map.get_items(1, 1), vec![coin, rope]);
    assert_eq!(*map.get_items(0, 4), vec![rope]);
    assert!(map.get_items(1, 0).is_empty());
    assert!(map.get_items(2, 1).is_empty());
    assert_eq!(*map.get_tile(1, 1), Tile::Air);
}

#[test]
fn a_built_map_is_a_walled_room_with_items() {
    let mut map = GameMap::new(3, 20, 12);
    populate_map(&mut map);
    assert_eq!((map.id, map.width, map.height), (3, 20, 12));
    let laid_out = [
        (2, 1, ItemType::Abacus),
        (7, 1, ItemType::LightCrossbow),
        (5, 1, ItemType::Crystal),
        (8, 2, ItemType::Coin),
        (5, 2, ItemType::Waterskin),
        (2, 3, ItemType::Lute),
        (3, 4, ItemType::Dagger),
        (10, 8, ItemType::CrossbowBolt),
    ];
    for y in 0..12 {
        for x in 0..20 {
            let border = x == 0 || y == 0 || x == 19 || y == 11;
            assert_eq!(*map.get_tile(x, y), if border { Tile::Wall } else { Tile::Floor });
            let mut expected: Vec<Item> = Vec::new();
            for (item_x, item_y, item_type) in laid_out {
                if (item_x, item_y) == (x, y) {
                    expected.push(Item { item_type, location: ItemLocation::World });
                }
            }
            assert_eq!(*map.get_items(x, y), expected);
        }
    }
}

#[test]
fn building_keeps_what_lay_on_the_map() {
    let mut map = GameMap::new(0, 11, 9);
    let rope = Item { item_type: ItemType::Rope, location: ItemLocation::World };
    map.get_items_mut(2, 1).push(rope);
    map.get_items_mut(4, 4).push(rope);
    map.set_tile(4, 4, Tile::Water);
    populate_map(&mut map);
    assert_eq!(
        *map.get_items(2, 1),
        vec![rope, Item { item_type: ItemType::Abacus, location: ItemLocation::World }]
    );
    assert_eq!(*map.get_items(4, 4), vec![rope]);
    assert_eq!(*map.get_tile(4, 4), Tile::Floor);
    assert_eq!(*map.get_tile(10, 8), Tile::Wall);
    assert_eq!(
        *map.get_items(10, 8),
        vec![Item { item_type: ItemType::CrossbowBolt, location: ItemLocation::World }]
    );
}
