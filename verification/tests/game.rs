use rpg_core::component::{get_entity_type, to_index, Components, EntityType};
use rpg_core::component::{Character, MapIndex, Position};
use rpg_core::game::{
    get_average_fps, has_complete_player, initialize_player, set_up_special_entities, DebugInfo,
    Game, GameState, SpecialEntities, FPS_HISTORY_SIZE,
};
use rpg_core::tabletop::{Alignment, Class, Race, Size};
use rpg_core::ui::menu::MenuType;

#[test]
fn a_new_game_is_in_the_main_menu_with_the_special_entities() {
    let game = Game::new();
    assert_eq!(game.state, GameState::Menu(MenuType::Main));
    assert_eq!(game.action_queue.len(), 0);
    assert_eq!(game.current_map.width, 0);
    assert_eq!(game.current_map.height, 0);
    assert_eq!(game.current_map.tiles.len(), 0);
    assert_eq!(game.components.get_size(EntityType::Character), 1);
    assert_eq!(game.components.get_size(EntityType::Meta), 13);
    assert_eq!(game.components.get_size(EntityType::Monster), 0);
    assert_eq!(game.components.get_size(EntityType::Object), 0);
    assert_eq!(get_average_fps(&game.debug_info), 0);
    let special = game.special_entities;
    assert_eq!(special.player, 0x4000_0000_0000_0000);
    assert_eq!(special.world, 0);
    assert_eq!(special.down, 1);
    assert_eq!(special.east, 2);
    assert_eq!(special.inside, 3);
    assert_eq!(special.north, 4);
    assert_eq!(special.north_east, 5);
    assert_eq!(special.north_west, 6);
    assert_eq!(special.outside, 7);
    assert_eq!(special.south, 8);
    assert_eq!(special.south_east, 9);
    assert_eq!(special.south_west, 10);
    assert_eq!(special.west, 11);
    assert_eq!(special.up, 12);
}

#[test]
fn the_special_entities_are_all_different() {
    let special = Game::new().special_entities;
    let all = [
        special.down,
        special.east,
        special.inside,
        special.north,
        special.north_east,
        special.north_west,
        special.outside,
        special.player,
        special.south,
        special.south_east,
        special.south_west,
        special.west,
        special.world,
        special.up,
    ];
    for i in 0..all.len() {
        for j in 0..i {
            assert_ne!(all[i], all[j]);
        }
    }
}

#[test]
fn special_entities_start_unset() {
    let special = SpecialEntities::new();
    assert_eq!(special.player, 0);
    assert_eq!(special.world, 0);
    assert_eq!(special.north, 0);
    assert_eq!(special.up, 0);
    assert_eq!(special, SpecialEntities {
        down: 0,
        east: 0,
        inside: 0,
        north: 0,
        north_east: 0,
        north_west: 0,
        outside: 0,
        player: 0,
        south: 0,
        south_east: 0,
        south_west: 0,
        west: 0,
        world: 0,
        up: 0,
    });
}

#[test]
fn special_entities_follow_what_is_there_already() {
    let mut components = Components::new();
    components.create_entity(EntityType::Character);
    components.create_entity(EntityType::Character);
    components.create_entity(EntityType::Meta);
    components.create_entity(EntityType::Monster);
    let mut special = SpecialEntities::new();
    set_up_special_entities(&mut special, &mut components);
    assert_eq!(get_entity_type(special.player), EntityType::Character);
    assert_eq!(to_index(special.player), 2);
    assert_eq!(get_entity_type(special.world), EntityType::Meta);
    assert_eq!(special.world, 1);
    assert_eq!(special.down, 2);
    assert_eq!(special.north, 5);
    assert_eq!(special.up, 13);
    assert_eq!(components.get_size(EntityType::Character), 3);
    assert_eq!(components.get_size(EntityType::Meta), 14);
    assert_eq!(components.get_size(EntityType::Monster), 1);
    assert!(components.get_alive(special.up).is_some());
    assert!(components.get_position(special.player).is_some());
}

#[test]
fn the_average_of_no_frames_is_zero() {
    let debug_info = DebugInfo::new();
    assert_eq!(get_average_fps(&debug_info), 0);
}

#[test]
fn the_average_is_rounded_to_the_nearest_whole() {
    let mut debug_info = DebugInfo::new();
    debug_info.record_fps(30);
    assert_eq!(get_average_fps(&debug_info), 30);
    debug_info.record_fps(31);
    assert_eq!(get_average_fps(&debug_info), 31);
    debug_info.record_fps(30);
    assert_eq!(get_average_fps(&debug_info), 30);
    debug_info.record_fps(32);
    debug_info.record_fps(32);
    debug_info.record_fps(32);
    assert_eq!(get_average_fps(&debug_info), 31);
    let mut debug_info = DebugInfo::new();
    debug_info.record_fps(1);
    debug_info.record_fps(2);
    debug_info.record_fps(2);
    assert_eq!(get_average_fps(&debug_info), 2);
    let mut debug_info = DebugInfo::new();
    debug_info.record_fps(1);
    debug_info.record_fps(1);
    debug_info.record_fps(2);
    assert_eq!(get_average_fps(&debug_info), 1);
}

#[test]
fn the_average_of_the_highest_rates_fits() {
    let mut debug_info = DebugInfo::new();
    for _ in 0..FPS_HISTORY_SIZE {
        debug_info.record_fps(u32::MAX);
    }
    assert_eq!(get_average_fps(&debug_info), u32::MAX);
    debug_info.record_fps(0);
    assert_eq!(get_average_fps(&debug_info), 4252017622);
}

#[test]
fn the_history_forgets_its_oldest_frame_when_it_is_full() {
    let mut debug_info = DebugInfo::new();
    debug_info.record_fps(1000);
    for _ in 1..FPS_HISTORY_SIZE {
        debug_info.record_fps(0);
    }
    assert_eq!(get_average_fps(&debug_info), 10);
    debug_info.record_fps(0);
    assert_eq!(get_average_fps(&debug_info), 0);
    debug_info.record_fps(200);
    assert_eq!(get_average_fps(&debug_info), 2);
    for _ in 0..250 {
        debug_info.record_fps(60);
    }
    assert_eq!(get_average_fps(&debug_info), 60);
    assert_eq!(FPS_HISTORY_SIZE, 100);
}

#[test]
fn the_player_begins_as_a_human_fighter_at_five_five() {
    let mut game = Game::new();
    assert!(has_complete_player(&game));
    let player = game.special_entities.player;
    game.components.get_character_mut(player).unwrap().class = Class::Wizard;
    game.components.get_map_index_mut(player).unwrap().map = 9;
    game.components.get_creature_mut(player).unwrap().stats.wisdom = 3;
    game.components.get_creature_mut(player).unwrap().race = Race::Elf;
    let monster = game.components.create_entity(EntityType::Monster);
    let other = game.components.create_entity(EntityType::Character);
    game.components.get_position_mut(other).unwrap().x = 2;
    initialize_player(&mut game);
    let creature = game.components.get_creature(player).unwrap();
    assert_eq!(creature.alignment, Alignment::NeutralGood);
    assert_eq!(creature.race, Race::Human);
    assert_eq!(creature.size, Size::Medium);
    assert_eq!(creature.stats.charisma, 10);
    assert_eq!(creature.stats.constitution, 10);
    assert_eq!(creature.stats.dexterity, 10);
    assert_eq!(creature.stats.intelligence, 10);
    assert_eq!(creature.stats.strength, 10);
    assert_eq!(creature.stats.wisdom, 10);
    assert_eq!(game.components.get_character(player), Some(&Character { class: Class::Fighter }));
    assert_eq!(game.components.get_map_index(player), Some(&MapIndex { map: 0 }));
    assert_eq!(game.components.get_position(player), Some(&Position { x: 5, y: 5 }));
    assert_eq!(game.components.get_position(monster), Some(&Position { x: 0, y: 0 }));
    assert_eq!(game.components.get_position(other), Some(&Position { x: 2, y: 0 }));
    assert_eq!(game.components.get_creature(monster).unwrap().alignment, Alignment::Neutral);
    assert_eq!(game.state, GameState::Menu(MenuType::Main));
}

#[test]
fn a_player_that_is_no_character_is_not_complete() {
    let mut game = Game::new();
    game.special_entities.player = game.special_entities.world;
    assert!(!has_complete_player(&game));
    game.special_entities.player = game.components.create_entity(EntityType::Monster);
    assert!(!has_complete_player(&game));
    game.special_entities.player = 0x4000_0000_0000_0001;
    assert!(!has_complete_player(&game));
    game.special_entities.player = game.components.create_entity(EntityType::Character);
    assert!(has_complete_player(&game));
}
