use rpg_core::item::{get_cost, item_tags, CoinType, CurrencyAmount, Item, ItemLocation, ItemType};
use rpg_core::map::Tile;
use rpg_core::material::{material_data, Material};
use rpg_core::tabletop::Race;
use rpg_core::tag::{tag_is_a, tag_parent, Tag};
use rpg_core::ui::menu::MenuType;
use rpg_core::ui::terminal::icons::{
    creature_color, creature_icon, item_icon, tile_color, tile_icon,
};
use rpg_core::ui::terminal::menu_offsets::{get_offset, new_character, test_window, Offset};
use rpg_core::ui::terminal::style::Color;
use rpg_core::ui::terminal::terminal_window::{Border, Window};

fn price(item_type: ItemType) -> (u32, CoinType) {
    let cost = get_cost(item_type);
    (cost.amount(), cost.coin_type())
}

#[test]
fn items_cost_what_the_price_list_says() {
    assert_eq!(price(ItemType::Abacus), (2, CoinType::Gold));
    assert_eq!(price(ItemType::Arrow), (5, CoinType::Copper));
    assert_eq!(price(ItemType::Basket), (4, CoinType::Silver));
    assert_eq!(price(ItemType::BreastplateArmor), (400, CoinType::Gold));
    assert_eq!(price(ItemType::HalfPlateArmor), (750, CoinType::Gold));
    assert_eq!(price(ItemType::PlateArmor), (1500, CoinType::Gold));
    assert_eq!(price(ItemType::Spyglass), (1000, CoinType::Gold));
    assert_eq!(price(ItemType::SlingBulletBundle), (4, CoinType::Copper));
    assert_eq!(price(ItemType::Waterskin), (2, CoinType::Silver));
    assert_eq!(price(ItemType::Whistle), (5, CoinType::Copper));
}

#[test]
fn what_has_no_price_costs_no_copper() {
    assert_eq!(price(ItemType::BallBearing), (0, CoinType::Copper));
    assert_eq!(price(ItemType::Coin), (0, CoinType::Copper));
    assert_eq!(price(ItemType::SlingBullet), (0, CoinType::Copper));
    assert_eq!(CurrencyAmount::zero(), CurrencyAmount::new(0, CoinType::Copper));
    assert_eq!(get_cost(ItemType::Coin), CurrencyAmount::zero());
}

#[test]
fn an_amount_keeps_its_number_and_its_coin() {
    let amount = CurrencyAmount::new(12, CoinType::Electrum);
    assert_eq!(amount.amount(), 12);
    assert_eq!(amount.coin_type(), CoinType::Electrum);
    let amount = CurrencyAmount::new(u32::MAX, CoinType::Platinum);
    assert_eq!(amount.amount(), u32::MAX);
    assert_eq!(amount.coin_type(), CoinType::Platinum);
}

#[test]
fn only_arrows_have_a_tag() {
    assert_eq!(item_tags(ItemType::Arrow), vec![Tag::Ammunition]);
    assert_eq!(item_tags(ItemType::ArrowBundle), Vec::new());
    assert_eq!(item_tags(ItemType::Bagpipes), Vec::new());
    assert_eq!(item_tags(ItemType::Whistle), Vec::new());
}

#[test]
fn tags_belong_to_wider_tags() {
    assert_eq!(tag_parent(Tag::Ammunition), Some(Tag::Weapon));
    assert_eq!(tag_parent(Tag::Beverage), Some(Tag::Consumable));
    assert_eq!(tag_parent(Tag::Burning), Some(Tag::Hot));
    assert_eq!(tag_parent(Tag::Frozen), Some(Tag::Cold));
    assert_eq!(tag_parent(Tag::GasContainer), Some(Tag::Container));
    assert_eq!(tag_parent(Tag::Powder), Some(Tag::Solid));
    assert_eq!(tag_parent(Tag::Shield), Some(Tag::Armor));
    assert_eq!(tag_parent(Tag::Weapon), None);
    assert_eq!(tag_parent(Tag::Animate), None);
    assert_eq!(tag_parent(Tag::Wettable), None);
}

#[test]
fn a_tag_is_what_its_parents_are() {
    assert!(tag_is_a(Tag::Weapon, Tag::Weapon));
    assert!(tag_is_a(Tag::ReachWeapon, Tag::Weapon));
    assert!(tag_is_a(Tag::HeavyArmor, Tag::Armor));
    assert!(!tag_is_a(Tag::Weapon, Tag::ReachWeapon));
    assert!(!tag_is_a(Tag::HeavyArmor, Tag::Weapon));
    assert!(!tag_is_a(Tag::Hot, Tag::Burning));
    assert!(!tag_is_a(Tag::Gas, Tag::Solid));
}

#[test]
fn materials_have_parents_and_tags() {
    for material in [Material::Bronze, Material::Iron, Material::Steel] {
        let data = material_data(material);
        assert_eq!(data.parent, Some(Material::Metal));
        assert!(data.tags.is_empty());
    }
    let fire = material_data(Material::Fire);
    assert_eq!(fire.parent, None);
    assert_eq!(fire.tags, vec![Tag::Burning, Tag::Gas, Tag::Transparent]);
    assert_eq!(material_data(Material::Glass).tags, vec![Tag::Solid, Tag::Transparent]);
    assert_eq!(material_data(Material::Metal).tags, vec![Tag::Conductive, Tag::Solid]);
    assert_eq!(material_data(Material::Metal).parent, None);
    assert_eq!(material_data(Material::Stone).tags, vec![Tag::Solid]);
    assert_eq!(
        material_data(Material::Wood).tags,
        vec![Tag::Organic, Tag::Solid, Tag::Flammable]
    );
}

#[test]
fn creatures_and_items_look_alike() {
    for race in Race::all() {
        assert_eq!(creature_color(&race), Color::White);
        assert_eq!(creature_icon(&race), '@');
    }
    let coin = Item { item_type: ItemType::Coin, location: ItemLocation::World };
    let rope = Item { item_type: ItemType::Rope, location: ItemLocation::Entity(9) };
    assert_eq!(item_icon(&coin), '[');
    assert_eq!(item_icon(&rope), '[');
}

#[test]
fn tiles_have_their_icons() {
    assert_eq!(tile_icon(&Tile::Air), ' ');
    assert_eq!(tile_icon(&Tile::Altar), '_');
    assert_eq!(tile_icon(&Tile::DoorClosed), '+');
    assert_eq!(tile_icon(&Tile::DoorOpen), '/');
    assert_eq!(tile_icon(&Tile::Floor), '.');
    assert_eq!(tile_icon(&Tile::Herbs), '"');
    assert_eq!(tile_icon(&Tile::StairDown), '>');
    assert_eq!(tile_icon(&Tile::StairUp), '<');
    assert_eq!(tile_icon(&Tile::Tree), 'T');
    assert_eq!(tile_icon(&Tile::Wall), '#');
    assert_eq!(tile_icon(&Tile::Water), '=');
    assert_eq!(tile_icon(&Tile::Web), '|');
    assert_eq!(tile_color(&Tile::Wall), Color::DarkGrey);
    assert_eq!(tile_color(&Tile::Water), Color::DarkGrey);
}

#[test]
fn the_elements_of_the_menus_have_their_places() {
    assert_eq!(Offset::new(3, 4), Offset { x: 3, y: 4 });
    assert_eq!(new_character::get_offset(0), Offset { x: 2, y: 1 });
    assert_eq!(new_character::get_offset(1), Offset { x: 2, y: 2 });
    assert_eq!(new_character::get_offset(2), Offset { x: 2, y: 3 });
    assert_eq!(new_character::get_offset(3), Offset { x: 2, y: 4 });
    assert_eq!(new_character::get_offset(4), Offset { x: 2, y: 5 });
    assert_eq!(new_character::get_offset(5), Offset { x: 0, y: 0 });
    assert_eq!(test_window::get_offset(0), Offset { x: 2, y: 2 });
    assert_eq!(test_window::get_offset(1), Offset { x: 2, y: 3 });
    assert_eq!(test_window::get_offset(2), Offset { x: 2, y: 4 });
    assert_eq!(test_window::get_offset(3), Offset { x: 0, y: 0 });
    assert_eq!(test_window::get_offset(usize::MAX), Offset { x: 0, y: 0 });
    assert_eq!(get_offset(MenuType::NewCharacter, 4), Offset { x: 2, y: 5 });
    assert_eq!(get_offset(MenuType::TestMenu, 2), Offset { x: 2, y: 4 });
    assert_eq!(get_offset(MenuType::TestMenu, 4), Offset { x: 0, y: 0 });
    for menu in [MenuType::Character, MenuType::Main, MenuType::Pause] {
        assert_eq!(get_offset(menu, 0), Offset { x: 0, y: 0 });
        assert_eq!(get_offset(menu, 1), Offset { x: 0, y: 0 });
    }
}

#[test]
fn a_window_keeps_its_frame() {
    let window = Window { width: 10, height: 4, x: 1, y: 2, z: 0, border: Border::Thin };
    assert_eq!(window.border, Border::Thin);
    assert_ne!(window.border, Border::Plain);
    assert_eq!((window.width, window.height, window.x, window.y, window.z), (10, 4, 1, 2, 0));
}
