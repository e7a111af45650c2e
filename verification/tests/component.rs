use rpg_core::component::{
    get_entity_type, to_index, Alive, Character, Components, Creature, EntityType, MapIndex,
    Position, SEQUENCE_LIMIT, TYPE_BITMASK, TYPE_BITMASK_CHARACTER, TYPE_BITMASK_META,
    TYPE_BITMASK_MONSTER, TYPE_BITMASK_OBJECT,
};
use rpg_core::entity::{EntityID, ID_NO_ENTITY};
use rpg_core::tabletop::{Alignment, Class, Race, Size};

fn categories() -> [EntityType; 4] {
    [EntityType::Character, EntityType::Meta, EntityType::Monster, EntityType::Object]
}

#[test]
fn created_entities_count_up_in_their_category() {
    for category in categories() {
        let mut components = Components::new();
        let mut n: u64 = 0;
        while n < 25 {
            let id = components.create_entity(category);
            assert_eq!(get_entity_type(id), category);
            assert_eq!(to_index(id), n);
            n += 1;
            assert_eq!(components.get_size(category) as u64, n);
        }
    }
}

#[test]
fn categories_count_apart_from_one_another() {
    let mut components = Components::new();
    let first_character = components.create_entity(EntityType::Character);
    let first_monster = components.create_entity(EntityType::Monster);
    let second_character = components.create_entity(EntityType::Character);
    let first_object = components.create_entity(EntityType::Object);
    let first_meta = components.create_entity(EntityType::Meta);
    assert_eq!(first_character, 0x4000_0000_0000_0000);
    assert_eq!(second_character, 0x4000_0000_0000_0001);
    assert_eq!(first_monster, 0x8000_0000_0000_0000);
    assert_eq!(first_object, 0xC000_0000_0000_0000);
    assert_eq!(first_meta, 0);
    assert_eq!(components.get_size(EntityType::Character), 2);
    assert_eq!(components.get_size(EntityType::Monster), 1);
    assert_eq!(components.get_size(EntityType::Object), 1);
    assert_eq!(components.get_size(EntityType::Meta), 1);
    assert_eq!(components.get_character_components().get_size(), 2);
    assert_eq!(components.get_monster_components().get_size(), 1);
    assert_eq!(components.get_object_components().get_size(), 1);
    assert_eq!(components.get_meta_components().get_size(), 1);
}

#[test]
fn identifiers_decode_by_their_top_two_bits() {
    assert_eq!(get_entity_type(0), EntityType::Meta);
    assert_eq!(get_entity_type(0x3FFF_FFFF_FFFF_FFFF), EntityType::Meta);
    assert_eq!(get_entity_type(0x4000_0000_0000_0000), EntityType::Character);
    assert_eq!(get_entity_type(0x7FFF_FFFF_FFFF_FFFF), EntityType::Character);
    assert_eq!(get_entity_type(0x8000_0000_0000_0000), EntityType::Monster);
    assert_eq!(get_entity_type(0xBFFF_FFFF_FFFF_FFFF), EntityType::Monster);
    assert_eq!(get_entity_type(0xC000_0000_0000_0000), EntityType::Object);
    assert_eq!(get_entity_type(u64::MAX), EntityType::Object);
    assert_eq!(to_index(0x3FFF_FFFF_FFFF_FFFF), 0x3FFF_FFFF_FFFF_FFFF);
    assert_eq!(to_index(0x4000_0000_0000_0007), 7);
    assert_eq!(to_index(u64::MAX), 0x3FFF_FFFF_FFFF_FFFF);
    assert_eq!(TYPE_BITMASK, 0xC000_0000_0000_0000);
    assert_eq!(TYPE_BITMASK_META, 0);
    assert_eq!(TYPE_BITMASK_CHARACTER, 1 << 62);
    assert_eq!(TYPE_BITMASK_MONSTER, 2 << 62);
    assert_eq!(TYPE_BITMASK_OBJECT, 3 << 62);
    assert_eq!(SEQUENCE_LIMIT, 1 << 62);
}

#[test]
fn a_character_carries_everything_but_a_holder() {
    let mut components = Components::new();
    let id = components.create_entity(EntityType::Character);
    assert_eq!(components.get_alive(id), Some(&Alive { alive: true }));
    assert_eq!(components.get_creature(id), Some(&Creature::new()));
    assert_eq!(components.get_character(id), Some(&Character { class: Class::Fighter }));
    assert_eq!(components.get_map_index(id), Some(&MapIndex { map: 0 }));
    assert_eq!(components.get_position(id), Some(&Position { x: 0, y: 0 }));
    assert_eq!(components.get_parent(id), None);
}

#[test]
fn a_monster_carries_no_class_and_no_holder() {
    let mut components = Components::new();
    let id = components.create_entity(EntityType::Monster);
    assert!(components.get_alive(id).is_some());
    assert!(components.get_creature(id).is_some());
    assert!(components.get_character(id).is_none());
    assert!(components.get_map_index(id).is_some());
    assert!(components.get_position(id).is_some());
    assert!(components.get_parent(id).is_none());
}

#[test]
fn an_object_carries_a_holder_and_is_no_creature() {
    let mut components = Components::new();
    let id = components.create_entity(EntityType::Object);
    assert!(components.get_alive(id).is_some());
    assert!(components.get_creature(id).is_none());
    assert!(components.get_character(id).is_none());
    assert!(components.get_map_index(id).is_some());
    assert!(components.get_position(id).is_some());
    assert_eq!(components.get_parent(id), Some(&ID_NO_ENTITY));
}

#[test]
fn a_meta_entity_is_alive_and_nothing_else() {
    let mut components = Components::new();
    let id = components.create_entity(EntityType::Meta);
    assert_eq!(components.get_alive(id), Some(&Alive { alive: true }));
    assert!(components.get_creature(id).is_none());
    assert!(components.get_character(id).is_none());
    assert!(components.get_map_index(id).is_none());
    assert!(components.get_position(id).is_none());
    assert!(components.get_parent(id).is_none());
    assert!(components.get_alive_mut(id).is_some());
    assert!(components.get_creature_mut(id).is_none());
    assert!(components.get_character_mut(id).is_none());
    assert!(components.get_map_index_mut(id).is_none());
    assert!(components.get_position_mut(id).is_none());
    assert!(components.get_parent_mut(id).is_none());
}

#[test]
fn what_was_not_created_has_no_components() {
    let mut components = Components::new();
    for category in categories() {
        assert_eq!(components.get_size(category), 0);
        assert!(components.has_room(category));
    }
    let id = components.create_entity(EntityType::Character);
    let next: EntityID = id + 1;
    assert!(components.get_alive(next).is_none());
    assert!(components.get_position(next).is_none());
    assert!(components.get_position_mut(next).is_none());
    assert!(components.get_alive(u64::MAX).is_none());
    assert!(components.get_position(0x7FFF_FFFF_FFFF_FFFF).is_none());
    assert!(components.get_creature(0x8000_0000_0000_0000).is_none());
}

#[test]
fn writing_a_component_changes_that_entity_only() {
    let mut components = Components::new();
    let first = components.create_entity(EntityType::Character);
    let second = components.create_entity(EntityType::Character);
    let monster = components.create_entity(EntityType::Monster);
    {
        let position = components.get_position_mut(second).unwrap();
        position.x = 5;
        position.y = 7;
    }
    components.get_alive_mut(monster).unwrap().alive = false;
    components.get_map_index_mut(first).unwrap().map = 3;
    components.get_character_mut(first).unwrap().class = Class::Wizard;
    {
        let creature = components.get_creature_mut(monster).unwrap();
        creature.alignment = Alignment::ChaoticEvil;
        creature.race = Race::Dragonborn;
        creature.size = Size::Huge;
        creature.stats.strength = 20;
    }
    assert_eq!(components.get_position(second), Some(&Position { x: 5, y: 7 }));
    assert_eq!(components.get_position(first), Some(&Position { x: 0, y: 0 }));
    assert_eq!(components.get_position(monster), Some(&Position { x: 0, y: 0 }));
    assert_eq!(components.get_alive(monster), Some(&Alive { alive: false }));
    assert_eq!(components.get_alive(first), Some(&Alive { alive: true }));
    assert_eq!(components.get_map_index(first), Some(&MapIndex { map: 3 }));
    assert_eq!(components.get_map_index(second), Some(&MapIndex { map: 0 }));
    assert_eq!(components.get_character(first), Some(&Character { class: Class::Wizard }));
    assert_eq!(components.get_character(second), Some(&Character { class: Class::Fighter }));
    let creature = components.get_creature(monster).unwrap();
    assert_eq!(creature.alignment, Alignment::ChaoticEvil);
    assert_eq!(creature.race, Race::Dragonborn);
    assert_eq!(creature.size, Size::Huge);
    assert_eq!(creature.stats.strength, 20);
    assert_eq!(creature.stats.wisdom, 10);
    assert_eq!(components.get_creature(first), Some(&Creature::new()));
    assert_eq!(components.get_size(EntityType::Character), 2);
}

#[test]
fn an_object_can_be_given_a_holder() {
    let mut components = Components::new();
    let holder = components.create_entity(EntityType::Character);
    let item = components.create_entity(EntityType::Object);
    let other = components.create_entity(EntityType::Object);
    *components.get_parent_mut(item).unwrap() = holder;
    assert_eq!(components.get_parent(item), Some(&holder));
    assert_eq!(components.get_parent(other), Some(&ID_NO_ENTITY));
}

#[test]
fn creating_keeps_what_was_written() {
    let mut components = Components::new();
    let first = components.create_entity(EntityType::Object);
    components.get_position_mut(first).unwrap().x = 9;
    let second = components.create_entity(EntityType::Object);
    let character = components.create_entity(EntityType::Character);
    assert_eq!(components.get_position(first), Some(&Position { x: 9, y: 0 }));
    assert_eq!(components.get_position(second), Some(&Position { x: 0, y: 0 }));
    assert_eq!(components.get_position(character), Some(&Position { x: 0, y: 0 }));
}

#[test]
fn fresh_components_have_their_defaults() {
    assert_eq!(Alive::new(), Alive { alive: true });
    assert_eq!(Character::new(), Character { class: Class::Fighter });
    assert_eq!(MapIndex::new(), MapIndex { map: 0 });
    assert_eq!(Position::new(), Position { x: 0, y: 0 });
    let creature = Creature::new();
    assert_eq!(creature.alignment, Alignment::Neutral);
    assert_eq!(creature.size, Size::Medium);
    assert_eq!(creature.race, Race::Human);
    assert_eq!(creature.stats.charisma, 10);
    assert_eq!(creature.stats.constitution, 10);
    assert_eq!(creature.stats.dexterity, 10);
    assert_eq!(creature.stats.intelligence, 10);
    assert_eq!(creature.stats.strength, 10);
    assert_eq!(creature.stats.wisdom, 10);
}
