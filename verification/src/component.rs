//! The component store: for each category of entity, parallel columns of
//! components, one row for each entity of that category.

use vstd::prelude::*;
use crate::entity::{EntityID, ID_NO_ENTITY};
use crate::map::MapID;
use crate::tabletop::{Alignment, Class, Race, Size, Stats};

verus! {

/// Whether an entity is still part of the simulation. Rows are never removed:
/// an entity that is gone has this flag cleared.
#[derive(Clone, Copy, Debug, PartialEq, Eq, Structural)]
pub struct Alive {
    pub alive: bool,
}

impl Alive {
    pub open spec fn spec_new() -> Alive {
        Alive { alive: true }
    }

    pub fn new() -> (component: Self)
        ensures
            component == Alive::spec_new(),
    {
        Self { alive: true }
    }
}

#[derive(Clone, Copy, Debug, PartialEq, Eq, Structural)]
pub struct Creature {
    pub alignment: Alignment,
    pub size: Size,
    pub race: Race,
    pub stats: Stats,
}

impl Creature {
    pub open spec fn spec_new() -> Creature {
        Creature {
            alignment: Alignment::Neutral,
            size: Size::Medium,
            race: Race::Human,
            stats: Stats {
                charisma: 10,
                constitution: 10,
                dexterity: 10,
                intelligence: 10,
                strength: 10,
                wisdom: 10,
            },
        }
    }

    pub fn new() -> (component: Self)
        ensures
            component == Creature::spec_new(),
    {
        Self {
            alignment: Alignment::Neutral,
            size: Size::Medium,
            race: Race::Human,
            stats: Stats {
                charisma: 10,
                constitution: 10,
                dexterity: 10,
                intelligence: 10,
                strength: 10,
                wisdom: 10,
            },
        }
    }
}

#[derive(Clone, Copy, Debug, PartialEq, Eq, Structural)]
pub struct Character {
    pub class: Class,
}

impl Character {
    pub open spec fn spec_new() -> Character {
        Character { class: Class::Fighter }
    }

    pub fn new() -> (component: Self)
        ensures
            component == Character::spec_new(),
    {
        Self { class: Class::Fighter }
    }
}

#[derive(Clone, Copy, Debug, PartialEq, Eq, Structural)]
pub struct MapIndex {
    pub map: MapID,
}

impl MapIndex {
    pub open spec fn spec_new() -> MapIndex {
        MapIndex { map: 0 }
    }

    pub fn new() -> (component: Self)
        ensures
            component == MapIndex::spec_new(),
    {
        Self { map: 0 }
    }
}

#[derive(Clone, Copy, Debug, PartialEq, Eq, Structural)]
pub struct Position {
    pub x: u16,
    pub y: u16,
}

impl Position {
    pub open spec fn spec_new() -> Position {
        Position { x: 0, y: 0 }
    }

    pub fn new() -> (component: Self)
        ensures
            component == Position::spec_new(),
    {
        Self { x: 0, y: 0 }
    }
}

/// The category of an entity.
#[derive(Clone, Copy, Debug, PartialEq, Eq, Structural)]
pub enum EntityType {
    Character,
    Meta,
    Monster,
    Object,
}

pub const TYPE_BITMASK: EntityID = 0xC000_0000_0000_0000;

pub const TYPE_BITMASK_META: EntityID = 0x0000_0000_0000_0000;

pub const TYPE_BITMASK_CHARACTER: EntityID = 0x4000_0000_0000_0000;

pub const TYPE_BITMASK_MONSTER: EntityID = 0x8000_0000_0000_0000;

pub const TYPE_BITMASK_OBJECT: EntityID = 0xC000_0000_0000_0000;

/// The number of sequence numbers that a category has. An identifier has 62
/// bits for its sequence number.
pub const SEQUENCE_LIMIT: EntityID = 0x4000_0000_0000_0000;

pub const DEFAULT_META_COMPONENT_COUNT: usize = 100;

pub const DEFAULT_CHARACTER_COMPONENT_COUNT: usize = 1000;

pub const DEFAULT_MONSTER_COMPONENT_COUNT: usize = 1000;

pub const DEFAULT_OBJECT_COMPONENT_COUNT: usize = 1000;

/// The category that an identifier belongs to: its top two bits, that is the
/// identifier divided by the number of sequence numbers.
pub open spec fn category_of(entity: EntityID) -> EntityType {
    let top = entity as int / SEQUENCE_LIMIT as int;
    if top == 0 {
        EntityType::Meta
    } else if top == 1 {
        EntityType::Character
    } else if top == 2 {
        EntityType::Monster
    } else {
        EntityType::Object
    }
}

/// The sequence number of an identifier within its category: what is left
/// below the top two bits.
pub open spec fn sequence_of(entity: EntityID) -> nat {
    (entity as int % SEQUENCE_LIMIT as int) as nat
}

/// The bits that mark a category in an identifier.
pub open spec fn category_bits(entity_type: EntityType) -> EntityID {
    match entity_type {
        EntityType::Meta => TYPE_BITMASK_META,
        EntityType::Character => TYPE_BITMASK_CHARACTER,
        EntityType::Monster => TYPE_BITMASK_MONSTER,
        EntityType::Object => TYPE_BITMASK_OBJECT,
    }
}

/// The identifier of the entity with a given sequence number in a category.
pub open spec fn identifier(entity_type: EntityType, sequence: nat) -> int {
    category_bits(entity_type) + sequence
}

/// An identifier built from a category and a sequence number below the limit
/// fits in 64 bits and decodes to that category and that sequence number.
pub proof fn lemma_identifier_decodes(entity_type: EntityType, sequence: nat)
    requires
        sequence < SEQUENCE_LIMIT,
    ensures
        0 <= identifier(entity_type, sequence) <= u64::MAX,
        category_of(identifier(entity_type, sequence) as EntityID) == entity_type,
        sequence_of(identifier(entity_type, sequence) as EntityID) == sequence,
{
}

/// Every identifier is the one built from its own category and sequence
/// number, and its sequence number is below the limit.
pub proof fn lemma_decoded_identifier(entity: EntityID)
    ensures
        sequence_of(entity) < SEQUENCE_LIMIT,
        identifier(category_of(entity), sequence_of(entity)) == entity,
{
}

/// Two identifiers of one category with one sequence number are the same.
pub proof fn lemma_identifier_unique(first: EntityID, second: EntityID)
    requires
        category_of(first) == category_of(second),
        sequence_of(first) == sequence_of(second),
    ensures
        first == second,
{
    lemma_decoded_identifier(first);
    lemma_decoded_identifier(second);
}

pub fn get_entity_type(entity: EntityID) -> (entity_type: EntityType)
    ensures
        entity_type == category_of(entity),
{
    let masked = entity & TYPE_BITMASK;
    assert(masked == (entity / 0x4000_0000_0000_0000u64) * 0x4000_0000_0000_0000u64) by (bit_vector)
        requires
            masked == entity & 0xC000_0000_0000_0000u64,
    ;
    if masked == TYPE_BITMASK_META {
        return EntityType::Meta;
    }
    if masked == TYPE_BITMASK_CHARACTER {
        return EntityType::Character;
    }
    if masked == TYPE_BITMASK_MONSTER {
        return EntityType::Monster;
    }
    EntityType::Object
}

/// The sequence number of an identifier.
pub fn to_index(entity: EntityID) -> (index: EntityID)
    ensures
        index == sequence_of(entity),
{
    let index = entity & !TYPE_BITMASK;
    assert(index == entity % 0x4000_0000_0000_0000u64) by (bit_vector)
        requires
            index == entity & !0xC000_0000_0000_0000u64,
    ;
    index
}

/// The identifier of the entity with a sequence number in a category, if the
/// sequence number is one that identifiers have room for.
pub fn identifier_of(entity_type: EntityType, sequence: usize) -> (entity: Option<EntityID>)
    ensures
        entity == if sequence < SEQUENCE_LIMIT {
            Some(identifier(entity_type, sequence as nat) as EntityID)
        } else {
            None
        },
{
    if (sequence as u64) < SEQUENCE_LIMIT {
        Some(to_identifier(sequence, entity_type))
    } else {
        None
    }
}

/// Sets the category bits of a sequence number.
fn to_identifier(sequence: usize, entity_type: EntityType) -> (entity: EntityID)
    requires
        sequence < SEQUENCE_LIMIT,
    ensures
        entity == identifier(entity_type, sequence as nat),
{
    let sequence: u64 = sequence as u64;
    let bits: EntityID = match entity_type {
        EntityType::Meta => TYPE_BITMASK_META,
        EntityType::Character => TYPE_BITMASK_CHARACTER,
        EntityType::Monster => TYPE_BITMASK_MONSTER,
        EntityType::Object => TYPE_BITMASK_OBJECT,
    };
    let entity = sequence | bits;
    assert(entity == sequence + bits) by (bit_vector)
        requires
            entity == sequence | bits,
            sequence < 0x4000_0000_0000_0000u64,
            bits == 0u64 || bits == 0x4000_0000_0000_0000u64 || bits == 0x8000_0000_0000_0000u64
                || bits == 0xC000_0000_0000_0000u64,
    ;
    entity
}


/// Whether the entities of a category carry the `Alive` component. All do.
pub open spec fn has_alive(entity_type: EntityType) -> bool {
    true
}

/// Whether the entities of a category carry the `Character` component.
pub open spec fn has_character(entity_type: EntityType) -> bool {
    entity_type is Character
}

/// Whether the entities of a category carry the `Creature` component.
pub open spec fn has_creature(entity_type: EntityType) -> bool {
    entity_type is Character || entity_type is Monster
}

/// Whether the entities of a category carry the `MapIndex` component.
pub open spec fn has_map_index(entity_type: EntityType) -> bool {
    !(entity_type is Meta)
}

/// Whether the entities of a category carry a link to the entity that holds
/// them.
pub open spec fn has_parent(entity_type: EntityType) -> bool {
    entity_type is Object
}

/// Whether the entities of a category carry the `Position` component.
pub open spec fn has_position(entity_type: EntityType) -> bool {
    !(entity_type is Meta)
}

/// The value in a row of a column, if the column has that row.
pub open spec fn cell<T>(column: Seq<T>, row: nat) -> Option<T> {
    if row < column.len() {
        Some(column[row as int])
    } else {
        None
    }
}

/// The length that a column of a category with `size` rows has: `size` where
/// the category carries the component, and none where it does not.
pub open spec fn column_len(carried: bool, size: nat) -> nat {
    if carried {
        size
    } else {
        0
    }
}

/// A column after a row was added to its category.
pub open spec fn grown<T>(column: Seq<T>, carried: bool, value: T) -> Seq<T> {
    if carried {
        column.push(value)
    } else {
        column
    }
}

/// The rows of one category, column by column. A column of a component that
/// the category does not carry is empty.
#[verifier::ext_equal]
pub struct Table {
    pub size: nat,
    pub alive: Seq<Alive>,
    pub character: Seq<Character>,
    pub creature: Seq<Creature>,
    pub map_index: Seq<MapIndex>,
    pub parent: Seq<EntityID>,
    pub position: Seq<Position>,
}

impl Table {
    pub open spec fn empty() -> Table {
        Table {
            size: 0,
            alive: Seq::empty(),
            character: Seq::empty(),
            creature: Seq::empty(),
            map_index: Seq::empty(),
            parent: Seq::empty(),
            position: Seq::empty(),
        }
    }

    /// Every column that the category carries has one value for each entity,
    /// and the others have none.
    pub open spec fn wf(self, entity_type: EntityType) -> bool {
        &&& self.alive.len() == column_len(has_alive(entity_type), self.size)
        &&& self.character.len() == column_len(has_character(entity_type), self.size)
        &&& self.creature.len() == column_len(has_creature(entity_type), self.size)
        &&& self.map_index.len() == column_len(has_map_index(entity_type), self.size)
        &&& self.parent.len() == column_len(has_parent(entity_type), self.size)
        &&& self.position.len() == column_len(has_position(entity_type), self.size)
    }

    /// The table after an entity was created in it: one more row, with the
    /// default of each component that the category carries.
    pub open spec fn with_new_row(self, entity_type: EntityType) -> Table {
        Table {
            size: self.size + 1,
            alive: grown(self.alive, has_alive(entity_type), Alive::spec_new()),
            character: grown(self.character, has_character(entity_type), Character::spec_new()),
            creature: grown(self.creature, has_creature(entity_type), Creature::spec_new()),
            map_index: grown(self.map_index, has_map_index(entity_type), MapIndex::spec_new()),
            parent: grown(self.parent, has_parent(entity_type), ID_NO_ENTITY),
            position: grown(self.position, has_position(entity_type), Position::spec_new()),
        }
    }
}

/// Whether a category with `size` entities has a sequence number left for one
/// more: one that fits below the category bits, and in the machine's count of
/// rows.
pub open spec fn has_room(size: nat) -> bool {
    size < SEQUENCE_LIMIT && size < usize::MAX
}

/// A shared reference to the row of an entity in a column.
fn row<T>(column: &Vec<T>, entity: EntityID) -> (component: Option<&T>)
    ensures
        match component {
            Some(value) => cell(column@, sequence_of(entity)) == Some(*value),
            None => cell(column@, sequence_of(entity)) is None,
        },
{
    let index = to_index(entity);
    if index < column.len() as u64 {
        Some(&column[index as usize])
    } else {
        None
    }
}

/// A mutable reference to the row of an entity in a column. What is written
/// through it changes that row and nothing else.
fn row_mut<T>(column: &mut Vec<T>, entity: EntityID) -> (component: Option<&mut T>)
    ensures
        match component {
            Some(value) => cell(old(column)@, sequence_of(entity)) == Some(*value)
                && final(column)@ == old(column)@.update(sequence_of(entity) as int, *final(value)),
            None => cell(old(column)@, sequence_of(entity)) is None && final(column)@
                == old(column)@,
        },
{
    let index = to_index(entity);
    if index < column.len() as u64 {
        Some(&mut column[index as usize])
    } else {
        None
    }
}

/// The components of the characters.
pub struct CharacterComponents {
    next_id: usize,
    pub alive: Vec<Alive>,
    pub character: Vec<Character>,
    pub creature: Vec<Creature>,
    pub map_index: Vec<MapIndex>,
    pub position: Vec<Position>,
}

impl View for CharacterComponents {
    type V = Table;

    closed spec fn view(&self) -> Table {
        Table {
            size: self.next_id as nat,
            alive: self.alive@,
            character: self.character@,
            creature: self.creature@,
            map_index: self.map_index@,
            parent: Seq::empty(),
            position: self.position@,
        }
    }
}

impl CharacterComponents {
    pub fn new() -> (components: Self)
        ensures
            components@ == Table::empty(),
    {
        Self {
            next_id: 0,
            alive: Vec::with_capacity(DEFAULT_CHARACTER_COMPONENT_COUNT),
            character: Vec::with_capacity(DEFAULT_CHARACTER_COMPONENT_COUNT),
            creature: Vec::with_capacity(DEFAULT_CHARACTER_COMPONENT_COUNT),
            map_index: Vec::with_capacity(DEFAULT_CHARACTER_COMPONENT_COUNT),
            position: Vec::with_capacity(DEFAULT_CHARACTER_COMPONENT_COUNT),
        }
    }

    /// Appends one default row to every column and returns its identifier.
    fn create_entity(&mut self) -> (id: EntityID)
        requires
            has_room(old(self)@.size),
        ensures
            id == identifier(EntityType::Character, old(self)@.size),
            final(self)@ == old(self)@.with_new_row(EntityType::Character),
    {
        let id: EntityID = to_identifier(self.next_id, EntityType::Character);
        self.next_id = self.next_id + 1;
        self.alive.push(Alive::new());
        self.character.push(Character::new());
        self.creature.push(Creature::new());
        self.map_index.push(MapIndex::new());
        self.position.push(Position::new());
        id
    }

    pub fn get_size(&self) -> (size: usize)
        ensures
            size == self@.size,
    {
        self.next_id
    }
}

/// The components of the meta entities.
pub struct MetaComponents {
    next_id: usize,
    alive: Vec<Alive>,
}

impl View for MetaComponents {
    type V = Table;

    closed spec fn view(&self) -> Table {
        Table {
            size: self.next_id as nat,
            alive: self.alive@,
            character: Seq::empty(),
            creature: Seq::empty(),
            map_index: Seq::empty(),
            parent: Seq::empty(),
            position: Seq::empty(),
        }
    }
}

impl MetaComponents {
    pub fn new() -> (components: Self)
        ensures
            components@ == Table::empty(),
    {
        Self {
            next_id: 0,
            alive: Vec::with_capacity(DEFAULT_META_COMPONENT_COUNT),
        }
    }

    /// Appends one default row to every column and returns its identifier.
    fn create_entity(&mut self) -> (id: EntityID)
        requires
            has_room(old(self)@.size),
        ensures
            id == identifier(EntityType::Meta, old(self)@.size),
            final(self)@ == old(self)@.with_new_row(EntityType::Meta),
    {
        let id: EntityID = to_identifier(self.next_id, EntityType::Meta);
        self.next_id = self.next_id + 1;
        self.alive.push(Alive::new());
        id
    }

    pub fn get_size(&self) -> (size: usize)
        ensures
            size == self@.size,
    {
        self.next_id
    }
}

/// The components of the monsters.
pub struct MonsterComponents {
    next_id: usize,
    pub alive: Vec<Alive>,
    pub creature: Vec<Creature>,
    pub map_index: Vec<MapIndex>,
    pub position: Vec<Position>,
}

impl View for MonsterComponents {
    type V = Table;

    closed spec fn view(&self) -> Table {
        Table {
            size: self.next_id as nat,
            alive: self.alive@,
            character: Seq::empty(),
            creature: self.creature@,
            map_index: self.map_index@,
            parent: Seq::empty(),
            position: self.position@,
        }
    }
}

impl MonsterComponents {
    pub fn new() -> (components: Self)
        ensures
            components@ == Table::empty(),
    {
        Self {
            next_id: 0,
            alive: Vec::with_capacity(DEFAULT_MONSTER_COMPONENT_COUNT),
            creature: Vec::with_capacity(DEFAULT_MONSTER_COMPONENT_COUNT),
            map_index: Vec::with_capacity(DEFAULT_MONSTER_COMPONENT_COUNT),
            position: Vec::with_capacity(DEFAULT_MONSTER_COMPONENT_COUNT),
        }
    }

    /// Appends one default row to every column and returns its identifier.
    fn create_entity(&mut self) -> (id: EntityID)
        requires
            has_room(old(self)@.size),
        ensures
            id == identifier(EntityType::Monster, old(self)@.size),
            final(self)@ == old(self)@.with_new_row(EntityType::Monster),
    {
        let id: EntityID = to_identifier(self.next_id, EntityType::Monster);
        self.next_id = self.next_id + 1;
        self.alive.push(Alive::new());
        self.creature.push(Creature::new());
        self.map_index.push(MapIndex::new());
        self.position.push(Position::new());
        id
    }

    pub fn get_size(&self) -> (size: usize)
        ensures
            size == self@.size,
    {
        self.next_id
    }
}

/// The components of the objects.
pub struct ObjectComponents {
    next_id: usize,
    pub alive: Vec<Alive>,
    pub map_index: Vec<MapIndex>,
    pub parent: Vec<EntityID>,
    pub position: Vec<Position>,
}

impl View for ObjectComponents {
    type V = Table;

    closed spec fn view(&self) -> Table {
        Table {
            size: self.next_id as nat,
            alive: self.alive@,
            character: Seq::empty(),
            creature: Seq::empty(),
            map_index: self.map_index@,
            parent: self.parent@,
            position: self.position@,
        }
    }
}

impl ObjectComponents {
    pub fn new() -> (components: Self)
        ensures
            components@ == Table::empty(),
    {
        Self {
            next_id: 0,
            alive: Vec::with_capacity(DEFAULT_OBJECT_COMPONENT_COUNT),
            map_index: Vec::with_capacity(DEFAULT_OBJECT_COMPONENT_COUNT),
            parent: Vec::with_capacity(DEFAULT_OBJECT_COMPONENT_COUNT),
            position: Vec::with_capacity(DEFAULT_OBJECT_COMPONENT_COUNT),
        }
    }

    /// Appends one default row to every column and returns its identifier.
    fn create_entity(&mut self) -> (id: EntityID)
        requires
            has_room(old(self)@.size),
        ensures
            id == identifier(EntityType::Object, old(self)@.size),
            final(self)@ == old(self)@.with_new_row(EntityType::Object),
    {
        let id: EntityID = to_identifier(self.next_id, EntityType::Object);
        self.next_id = self.next_id + 1;
        self.alive.push(Alive::new());
        self.map_index.push(MapIndex::new());
        self.parent.push(ID_NO_ENTITY);
        self.position.push(Position::new());
        id
    }

    pub fn get_size(&self) -> (size: usize)
        ensures
            size == self@.size,
    {
        self.next_id
    }
}

/// The rows of all four categories.
#[verifier::ext_equal]
pub struct Tables {
    pub character: Table,
    pub meta: Table,
    pub monster: Table,
    pub object: Table,
}

impl Tables {
    pub open spec fn empty() -> Tables {
        Tables {
            character: Table::empty(),
            meta: Table::empty(),
            monster: Table::empty(),
            object: Table::empty(),
        }
    }

    /// The rows of one category.
    pub open spec fn table(self, entity_type: EntityType) -> Table {
        match entity_type {
            EntityType::Character => self.character,
            EntityType::Meta => self.meta,
            EntityType::Monster => self.monster,
            EntityType::Object => self.object,
        }
    }

    /// These tables with the rows of one category replaced.
    pub open spec fn with_table(self, entity_type: EntityType, table: Table) -> Tables {
        match entity_type {
            EntityType::Character => Tables { character: table, ..self },
            EntityType::Meta => Tables { meta: table, ..self },
            EntityType::Monster => Tables { monster: table, ..self },
            EntityType::Object => Tables { object: table, ..self },
        }
    }

    /// In every category, every column that the category carries has one
    /// value for each entity.
    pub open spec fn wf(self) -> bool {
        &&& self.character.wf(EntityType::Character)
        &&& self.meta.wf(EntityType::Meta)
        &&& self.monster.wf(EntityType::Monster)
        &&& self.object.wf(EntityType::Object)
    }

    /// The number of entities of a category.
    pub open spec fn size(self, entity_type: EntityType) -> nat {
        self.table(entity_type).size
    }

    /// The rows of the category that an identifier belongs to.
    pub open spec fn home(self, entity: EntityID) -> Table {
        self.table(category_of(entity))
    }

    /// The tables after an entity of a category was created.
    pub open spec fn created(self, entity_type: EntityType) -> Tables {
        self.with_table(entity_type, self.table(entity_type).with_new_row(entity_type))
    }

    /// The identifier that the next entity of a category gets.
    pub open spec fn next_identifier(self, entity_type: EntityType) -> int {
        identifier(entity_type, self.size(entity_type))
    }

    /// What an entity has as the `Alive` component, if its category carries
    /// one and the entity exists.
    pub open spec fn alive(self, entity: EntityID) -> Option<Alive> {
        cell(self.home(entity).alive, sequence_of(entity))
    }

    /// The tables with a new value in the `alive` column of an entity's row.
    pub open spec fn with_alive(self, entity: EntityID, value: Alive) -> Tables {
        let table = self.home(entity);
        self.with_table(
            category_of(entity),
            Table { alive: table.alive.update(sequence_of(entity) as int, value), ..table },
        )
    }

    /// What an entity has as the `Character` component, if its category carries
    /// one and the entity exists.
    pub open spec fn character(self, entity: EntityID) -> Option<Character> {
        cell(self.home(entity).character, sequence_of(entity))
    }

    /// The tables with a new value in the `character` column of an entity's row.
    pub open spec fn with_character(self, entity: EntityID, value: Character) -> Tables {
        let table = self.home(entity);
        self.with_table(
            category_of(entity),
            Table { character: table.character.update(sequence_of(entity) as int, value), ..table },
        )
    }

    /// What an entity has as the `Creature` component, if its category carries
    /// one and the entity exists.
    pub open spec fn creature(self, entity: EntityID) -> Option<Creature> {
        cell(self.home(entity).creature, sequence_of(entity))
    }

    /// The tables with a new value in the `creature` column of an entity's row.
    pub open spec fn with_creature(self, entity: EntityID, value: Creature) -> Tables {
        let table = self.home(entity);
        self.with_table(
            category_of(entity),
            Table { creature: table.creature.update(sequence_of(entity) as int, value), ..table },
        )
    }

    /// What an entity has as the `MapIndex` component, if its category carries
    /// one and the entity exists.
    pub open spec fn map_index(self, entity: EntityID) -> Option<MapIndex> {
        cell(self.home(entity).map_index, sequence_of(entity))
    }

    /// The tables with a new value in the `map_index` column of an entity's row.
    pub open spec fn with_map_index(self, entity: EntityID, value: MapIndex) -> Tables {
        let table = self.home(entity);
        self.with_table(
            category_of(entity),
            Table { map_index: table.map_index.update(sequence_of(entity) as int, value), ..table },
        )
    }

    /// What an entity has as the link to its holder, if its category carries
    /// one and the entity exists.
    pub open spec fn parent(self, entity: EntityID) -> Option<EntityID> {
        cell(self.home(entity).parent, sequence_of(entity))
    }

    /// The tables with a new value in the `parent` column of an entity's row.
    pub open spec fn with_parent(self, entity: EntityID, value: EntityID) -> Tables {
        let table = self.home(entity);
        self.with_table(
            category_of(entity),
            Table { parent: table.parent.update(sequence_of(entity) as int, value), ..table },
        )
    }

    /// What an entity has as the `Position` component, if its category carries
    /// one and the entity exists.
    pub open spec fn position(self, entity: EntityID) -> Option<Position> {
        cell(self.home(entity).position, sequence_of(entity))
    }

    /// The tables with a new value in the `position` column of an entity's row.
    pub open spec fn with_position(self, entity: EntityID, value: Position) -> Tables {
        let table = self.home(entity);
        self.with_table(
            category_of(entity),
            Table { position: table.position.update(sequence_of(entity) as int, value), ..table },
        )
    }
}

impl Tables {
    /// Whether an entity exists: its category has a row for its sequence
    /// number.
    pub open spec fn exists_entity(self, entity: EntityID) -> bool {
        sequence_of(entity) < self.size(category_of(entity))
    }

    /// The tables after `count` entities of one category were created one
    /// after another.
    pub open spec fn created_many(self, entity_type: EntityType, count: nat) -> Tables
        decreases count,
    {
        if count == 0 {
            self
        } else {
            self.created_many(entity_type, (count - 1) as nat).created(entity_type)
        }
    }

    /// Creating entities of one category changes the number of entities of
    /// that category only, by the number created, and keeps the tables well
    /// formed.
    pub proof fn lemma_created_many_sizes(self, entity_type: EntityType, count: nat)
        ensures
            self.created_many(entity_type, count).size(entity_type) == self.size(entity_type)
                + count,
            forall|other: EntityType|
                other != entity_type ==> self.created_many(entity_type, count).table(other)
                    == self.table(other),
            self.wf() ==> self.created_many(entity_type, count).wf(),
        decreases count,
    {
        if count > 0 {
            self.lemma_created_many_sizes(entity_type, (count - 1) as nat);
        }
    }

    /// Of the entities of one category that are created one after another,
    /// the one created after `earlier` others gets the category's bits and, as
    /// its sequence number, the number of entities that the category had at
    /// the start plus `earlier`. In tables that start empty the sequence
    /// numbers are 0, 1, 2 and so on, in the order of creation.
    pub proof fn lemma_creation_order(self, entity_type: EntityType, earlier: nat)
        requires
            self.size(entity_type) + earlier < SEQUENCE_LIMIT,
        ensures
            ({
                let id = self.created_many(entity_type, earlier).next_identifier(entity_type);
                &&& 0 <= id <= u64::MAX
                &&& category_of(id as EntityID) == entity_type
                &&& sequence_of(id as EntityID) == self.size(entity_type) + earlier
            }),
    {
        self.lemma_created_many_sizes(entity_type, earlier);
        lemma_identifier_decodes(entity_type, self.size(entity_type) + earlier);
    }

    /// In well-formed tables an entity has a component exactly if its
    /// category carries that component and the entity exists.
    pub proof fn lemma_component_presence(self, entity: EntityID)
        requires
            self.wf(),
        ensures
            self.alive(entity) is Some <==> self.exists_entity(entity),
            self.character(entity) is Some <==> has_character(category_of(entity))
                && self.exists_entity(entity),
            self.creature(entity) is Some <==> has_creature(category_of(entity))
                && self.exists_entity(entity),
            self.map_index(entity) is Some <==> has_map_index(category_of(entity))
                && self.exists_entity(entity),
            self.parent(entity) is Some <==> has_parent(category_of(entity))
                && self.exists_entity(entity),
            self.position(entity) is Some <==> has_position(category_of(entity))
                && self.exists_entity(entity),
    {
    }

    /// The entity that was just created in well-formed tables has the default
    /// of every component that its category carries, and no other component.
    pub proof fn lemma_created_entity(self, entity_type: EntityType)
        requires
            self.wf(),
            self.size(entity_type) < SEQUENCE_LIMIT,
        ensures
            ({
                let id = self.next_identifier(entity_type) as EntityID;
                let after = self.created(entity_type);
                &&& after.wf()
                &&& after.exists_entity(id)
                &&& !self.exists_entity(id)
                &&& after.alive(id) == Some(Alive::spec_new())
                &&& after.character(id) == if has_character(entity_type) {
                    Some(Character::spec_new())
                } else {
                    None
                }
                &&& after.creature(id) == if has_creature(entity_type) {
                    Some(Creature::spec_new())
                } else {
                    None
                }
                &&& after.map_index(id) == if has_map_index(entity_type) {
                    Some(MapIndex::spec_new())
                } else {
                    None
                }
                &&& after.parent(id) == if has_parent(entity_type) {
                    Some(ID_NO_ENTITY)
                } else {
                    None
                }
                &&& after.position(id) == if has_position(entity_type) {
                    Some(Position::spec_new())
                } else {
                    None
                }
            }),
    {
        lemma_identifier_decodes(entity_type, self.size(entity_type));
    }

    /// Creating an entity leaves the components of every entity that existed
    /// before as they were.
    pub proof fn lemma_created_keeps_others(self, entity_type: EntityType, entity: EntityID)
        requires
            self.wf(),
            self.exists_entity(entity),
        ensures
            ({
                let after = self.created(entity_type);
                &&& after.exists_entity(entity)
                &&& after.alive(entity) == self.alive(entity)
                &&& after.character(entity) == self.character(entity)
                &&& after.creature(entity) == self.creature(entity)
                &&& after.map_index(entity) == self.map_index(entity)
                &&& after.parent(entity) == self.parent(entity)
                &&& after.position(entity) == self.position(entity)
            }),
    {
    }

    /// Writing the position of an entity that has one keeps the tables well
    /// formed, makes the value the entity's position and leaves the position
    /// of every other entity as it was.
    pub proof fn lemma_with_position(self, entity: EntityID, value: Position, other: EntityID)
        requires
            self.wf(),
            self.position(entity) is Some,
        ensures
            self.with_position(entity, value).wf(),
            self.with_position(entity, value).position(entity) == Some(value),
            other != entity ==> self.with_position(entity, value).position(other)
                == self.position(other),
    {
        if other != entity && category_of(other) == category_of(entity) {
            if sequence_of(other) == sequence_of(entity) {
                lemma_identifier_unique(other, entity);
            }
        }
    }
}

/// All entities of the simulation with their components.
pub struct Components {
    character_components: CharacterComponents,
    meta_components: MetaComponents,
    monster_components: MonsterComponents,
    object_components: ObjectComponents,
}

impl View for Components {
    type V = Tables;

    closed spec fn view(&self) -> Tables {
        Tables {
            character: self.character_components@,
            meta: self.meta_components@,
            monster: self.monster_components@,
            object: self.object_components@,
        }
    }
}

impl Components {
    pub fn new() -> (components: Self)
        ensures
            components@ == Tables::empty(),
            components@.wf(),
    {
        Self {
            character_components: CharacterComponents::new(),
            meta_components: MetaComponents::new(),
            monster_components: MonsterComponents::new(),
            object_components: ObjectComponents::new(),
        }
    }

    /// Creates an entity of a category: a new row with the default of every
    /// component that the category carries. Its identifier has the category's
    /// bits and, as sequence number, the number of entities that the category
    /// had before. A category whose sequence numbers are used up cannot take
    /// another entity.
    pub fn create_entity(&mut self, entity_type: EntityType) -> (id: EntityID)
        requires
            has_room(old(self)@.size(entity_type)),
        ensures
            id == old(self)@.next_identifier(entity_type),
            category_of(id) == entity_type,
            sequence_of(id) == old(self)@.size(entity_type),
            final(self)@ == old(self)@.created(entity_type),
            old(self)@.wf() ==> final(self)@.wf(),
    {
        proof {
            lemma_identifier_decodes(entity_type, self@.size(entity_type));
        }
        match entity_type {
            EntityType::Character => self.character_components.create_entity(),
            EntityType::Meta => self.meta_components.create_entity(),
            EntityType::Monster => self.monster_components.create_entity(),
            EntityType::Object => self.object_components.create_entity(),
        }
    }

    /// Whether a category can take another entity.
    pub fn has_room(&self, entity_type: EntityType) -> (room: bool)
        ensures
            room == has_room(self@.size(entity_type)),
    {
        let size = self.get_size(entity_type);
        size < usize::MAX && (size as u64) < SEQUENCE_LIMIT
    }

    /// The number of entities of a category.
    pub fn get_size(&self, entity_type: EntityType) -> (size: usize)
        ensures
            size == self@.size(entity_type),
    {
        match entity_type {
            EntityType::Character => self.character_components.get_size(),
            EntityType::Meta => self.meta_components.get_size(),
            EntityType::Monster => self.monster_components.get_size(),
            EntityType::Object => self.object_components.get_size(),
        }
    }

    pub fn get_character_components(&self) -> (components: &CharacterComponents)
        ensures
            components@ == self@.character,
    {
        &self.character_components
    }

    pub fn get_meta_components(&self) -> (components: &MetaComponents)
        ensures
            components@ == self@.meta,
    {
        &self.meta_components
    }

    pub fn get_monster_components(&self) -> (components: &MonsterComponents)
        ensures
            components@ == self@.monster,
    {
        &self.monster_components
    }

    pub fn get_object_components(&self) -> (components: &ObjectComponents)
        ensures
            components@ == self@.object,
    {
        &self.object_components
    }

    /// A reference to what an entity has as its `Alive` component: absent
    /// where the entity's category carries none, or where the category has no
    /// row for the entity's sequence number.
    pub fn get_alive(&self, entity: EntityID) -> (component: Option<&Alive>)
        ensures
            match component {
                Some(value) => self@.alive(entity) == Some(*value),
                None => self@.alive(entity) is None,
            },
    {
        match get_entity_type(entity) {
            EntityType::Character => row(&self.character_components.alive, entity),
            EntityType::Monster => row(&self.monster_components.alive, entity),
            EntityType::Meta => row(&self.meta_components.alive, entity),
            EntityType::Object => row(&self.object_components.alive, entity),
        }
    }

    /// A mutable reference to the same. What is written through it becomes
    /// the entity's value; every other row and column stays as it was.
    pub fn get_alive_mut(&mut self, entity: EntityID) -> (component: Option<&mut Alive>)
        ensures
            match component {
                Some(value) => old(self)@.alive(entity) == Some(*value) && final(self)@
                    == old(self)@.with_alive(entity, *final(value)),
                None => old(self)@.alive(entity) is None && final(self)@ == old(self)@,
            },
    {
        match get_entity_type(entity) {
            EntityType::Character => row_mut(&mut self.character_components.alive, entity),
            EntityType::Monster => row_mut(&mut self.monster_components.alive, entity),
            EntityType::Meta => row_mut(&mut self.meta_components.alive, entity),
            EntityType::Object => row_mut(&mut self.object_components.alive, entity),
        }
    }

    /// A reference to what an entity has as its `Creature` component: absent
    /// where the entity's category carries none, or where the category has no
    /// row for the entity's sequence number.
    pub fn get_creature(&self, entity: EntityID) -> (component: Option<&Creature>)
        ensures
            match component {
                Some(value) => self@.creature(entity) == Some(*value),
                None => self@.creature(entity) is None,
            },
    {
        match get_entity_type(entity) {
            EntityType::Character => row(&self.character_components.creature, entity),
            EntityType::Monster => row(&self.monster_components.creature, entity),
            _ => None,
        }
    }

    /// A mutable reference to the same. What is written through it becomes
    /// the entity's value; every other row and column stays as it was.
    pub fn get_creature_mut(&mut self, entity: EntityID) -> (component: Option<&mut Creature>)
        ensures
            match component {
                Some(value) => old(self)@.creature(entity) == Some(*value) && final(self)@
                    == old(self)@.with_creature(entity, *final(value)),
                None => old(self)@.creature(entity) is None && final(self)@ == old(self)@,
            },
    {
        match get_entity_type(entity) {
            EntityType::Character => row_mut(&mut self.character_components.creature, entity),
            EntityType::Monster => row_mut(&mut self.monster_components.creature, entity),
            _ => None,
        }
    }

    /// A reference to what an entity has as its `Character` component: absent
    /// where the entity's category carries none, or where the category has no
    /// row for the entity's sequence number.
    pub fn get_character(&self, entity: EntityID) -> (component: Option<&Character>)
        ensures
            match component {
                Some(value) => self@.character(entity) == Some(*value),
                None => self@.character(entity) is None,
            },
    {
        match get_entity_type(entity) {
            EntityType::Character => row(&self.character_components.character, entity),
            _ => None,
        }
    }

    /// A mutable reference to the same. What is written through it becomes
    /// the entity's value; every other row and column stays as it was.
    pub fn get_character_mut(&mut self, entity: EntityID) -> (component: Option<&mut Character>)
        ensures
            match component {
                Some(value) => old(self)@.character(entity) == Some(*value) && final(self)@
                    == old(self)@.with_character(entity, *final(value)),
                None => old(self)@.character(entity) is None && final(self)@ == old(self)@,
            },
    {
        match get_entity_type(entity) {
            EntityType::Character => row_mut(&mut self.character_components.character, entity),
            _ => None,
        }
    }

    /// A reference to what an entity has as its `MapIndex` component: absent
    /// where the entity's category carries none, or where the category has no
    /// row for the entity's sequence number.
    pub fn get_map_index(&self, entity: EntityID) -> (component: Option<&MapIndex>)
        ensures
            match component {
                Some(value) => self@.map_index(entity) == Some(*value),
                None => self@.map_index(entity) is None,
            },
    {
        match get_entity_type(entity) {
            EntityType::Character => row(&self.character_components.map_index, entity),
            EntityType::Monster => row(&self.monster_components.map_index, entity),
            EntityType::Object => row(&self.object_components.map_index, entity),
            _ => None,
        }
    }

    /// A mutable reference to the same. What is written through it becomes
    /// the entity's value; every other row and column stays as it was.
    pub fn get_map_index_mut(&mut self, entity: EntityID) -> (component: Option<&mut MapIndex>)
        ensures
            match component {
                Some(value) => old(self)@.map_index(entity) == Some(*value) && final(self)@
                    == old(self)@.with_map_index(entity, *final(value)),
                None => old(self)@.map_index(entity) is None && final(self)@ == old(self)@,
            },
    {
        match get_entity_type(entity) {
            EntityType::Character => row_mut(&mut self.character_components.map_index, entity),
            EntityType::Monster => row_mut(&mut self.monster_components.map_index, entity),
            EntityType::Object => row_mut(&mut self.object_components.map_index, entity),
            _ => None,
        }
    }

    /// A reference to what an entity has as the link to the entity that holds it: absent
    /// where the entity's category carries none, or where the category has no
    /// row for the entity's sequence number.
    pub fn get_parent(&self, entity: EntityID) -> (component: Option<&EntityID>)
        ensures
            match component {
                Some(value) => self@.parent(entity) == Some(*value),
                None => self@.parent(entity) is None,
            },
    {
        match get_entity_type(entity) {
            EntityType::Object => row(&self.object_components.parent, entity),
            _ => None,
        }
    }

    /// A mutable reference to the same. What is written through it becomes
    /// the entity's value; every other row and column stays as it was.
    pub fn get_parent_mut(&mut self, entity: EntityID) -> (component: Option<&mut EntityID>)
        ensures
            match component {
                Some(value) => old(self)@.parent(entity) == Some(*value) && final(self)@
                    == old(self)@.with_parent(entity, *final(value)),
                None => old(self)@.parent(entity) is None && final(self)@ == old(self)@,
            },
    {
        match get_entity_type(entity) {
            EntityType::Object => row_mut(&mut self.object_components.parent, entity),
            _ => None,
        }
    }

    /// A reference to what an entity has as its `Position` component: absent
    /// where the entity's category carries none, or where the category has no
    /// row for the entity's sequence number.
    pub fn get_position(&self, entity: EntityID) -> (component: Option<&Position>)
        ensures
            match component {
                Some(value) => self@.position(entity) == Some(*value),
                None => self@.position(entity) is None,
            },
    {
        match get_entity_type(entity) {
            EntityType::Character => row(&self.character_components.position, entity),
            EntityType::Monster => row(&self.monster_components.position, entity),
            EntityType::Object => row(&self.object_components.position, entity),
            _ => None,
        }
    }

    /// A mutable reference to the same. What is written through it becomes
    /// the entity's value; every other row and column stays as it was.
    pub fn get_position_mut(&mut self, entity: EntityID) -> (component: Option<&mut Position>)
        ensures
            match component {
                Some(value) => old(self)@.position(entity) == Some(*value) && final(self)@
                    == old(self)@.with_position(entity, *final(value)),
                None => old(self)@.position(entity) is None && final(self)@ == old(self)@,
            },
    {
        match get_entity_type(entity) {
            EntityType::Character => row_mut(&mut self.character_components.position, entity),
            EntityType::Monster => row_mut(&mut self.monster_components.position, entity),
            EntityType::Object => row_mut(&mut self.object_components.position, entity),
            _ => None,
        }
    }
}

} // verus!
