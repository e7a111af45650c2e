//! The game as a whole: the world and its entities, the session's state, the
//! menus, and the queue of actions that wait to be resolved.

use std::collections::VecDeque;
use ringbuffer::AllocRingBuffer;
use ringbuffer::RingBuffer;
use vstd::prelude::*;
use crate::action::ActionRequest;
use crate::component::{
    has_room,
    identifier,
    Character,
    Components,
    Creature,
    EntityType,
    MapIndex,
    Position,
    Tables,
};
use crate::entity::EntityID;
use crate::map::GameMap;
use crate::tabletop::{Alignment, Class, Race, Size, Stats};
use crate::ui::menu::{Menu, MenuData, MenuState, MenuType, NewCharacter, TestMenu};

verus! {

/// What the session is doing.
#[derive(Clone, Copy, Debug, PartialEq, Eq, Structural)]
pub enum GameState {
    Menu(MenuType),
    Paused,
    Running,
    QuitRequested,
}

/// Declares `ringbuffer::AllocRingBuffer`, a queue of a fixed capacity that
/// forgets its oldest item when a new one comes and it is full. Nothing is
/// known of what is inside but what the wrappers below say.
#[verifier::external_type_specification]
#[verifier::external_body]
#[verifier::reject_recursive_types(T)]
pub struct ExAllocRingBuffer<T>(AllocRingBuffer<T>);

/// What a ring buffer holds, oldest first.
pub uninterp spec fn ring_items(ring: AllocRingBuffer<u32>) -> Seq<u32>;

/// The number of items that a ring buffer was made to hold.
pub uninterp spec fn ring_capacity(ring: AllocRingBuffer<u32>) -> nat;

/// The number of items that were ever put into a ring buffer. The buffer
/// counts them in a `usize`.
pub uninterp spec fn ring_writes(ring: AllocRingBuffer<u32>) -> nat;

/// What a ring buffer holds after one more item: the new item is the
/// youngest, and a buffer that was full has lost its oldest.
pub open spec fn rolled(items: Seq<u32>, capacity: nat, value: u32) -> Seq<u32> {
    if items.len() == capacity {
        items.drop_first().push(value)
    } else {
        items.push(value)
    }
}

/// Wraps `AllocRingBuffer::new`, which makes an empty buffer for `capacity`
/// items. It panics where the capacity is 0, and it allocates the next power
/// of two of 4-byte items, which has to fit in the address space: up to 2^28
/// items it does on every machine.
#[verifier::external_body]
fn ring_new(capacity: usize) -> (ring: AllocRingBuffer<u32>)
    requires
        0 < capacity <= 0x1000_0000,
    ensures
        ring_items(ring) == Seq::<u32>::empty(),
        ring_capacity(ring) == capacity,
        ring_writes(ring) == 0,
{
    AllocRingBuffer::new(capacity)
}

/// Wraps `RingBuffer::enqueue`, which puts an item behind the youngest. A
/// buffer that is full, that is one that holds as many items as its
/// capacity, first gives up its oldest item and returns it. The buffer counts
/// its writes in a `usize`, which must not overflow; short of that it does
/// not panic.
#[verifier::external_body]
fn ring_enqueue(ring: &mut AllocRingBuffer<u32>, value: u32) -> (evicted: Option<u32>)
    requires
        ring_writes(*old(ring)) < usize::MAX,
    ensures
        ring_capacity(*final(ring)) == ring_capacity(*old(ring)),
        ring_writes(*final(ring)) == ring_writes(*old(ring)) + 1,
        ring_items(*final(ring)) == rolled(
            ring_items(*old(ring)),
            ring_capacity(*old(ring)),
            value,
        ),
        evicted == if ring_items(*old(ring)).len() == ring_capacity(*old(ring)) {
            Some(ring_items(*old(ring))[0])
        } else {
            None
        },
    no_unwind
{
    ring.enqueue(value)
}

/// Wraps `RingBuffer::len`, the number of items that the buffer holds.
#[verifier::external_body]
fn ring_len(ring: &AllocRingBuffer<u32>) -> (len: usize)
    ensures
        len == ring_items(*ring).len(),
{
    ring.len()
}

/// Wraps `RingBuffer::get`, which counts from the oldest item and goes round:
/// it takes the index modulo the number of items. An empty buffer has no
/// item to give.
#[verifier::external_body]
fn ring_get(ring: &AllocRingBuffer<u32>, index: usize) -> (item: Option<u32>)
    ensures
        item == if ring_items(*ring).len() == 0 {
            None
        } else {
            Some(ring_items(*ring)[index as int % ring_items(*ring).len() as int])
        },
{
    ring.get(index).copied()
}

/// The number of frames whose rate is kept.
pub const FPS_HISTORY_SIZE: usize = 100;

/// The sum of some frame rates.
pub open spec fn total(rates: Seq<u32>) -> nat
    decreases rates.len(),
{
    if rates.len() == 0 {
        0
    } else {
        total(rates.drop_last()) + rates.last() as nat
    }
}

/// The mean of some frame rates, rounded to the nearest whole number, a half
/// upwards; 0 where there is none.
pub open spec fn average(rates: Seq<u32>) -> nat {
    if rates.len() == 0 {
        0
    } else {
        (2 * total(rates) + rates.len()) / (2 * rates.len())
    }
}

/// No sum of frame rates is above their number times the highest rate.
pub proof fn lemma_total_bound(rates: Seq<u32>)
    ensures
        total(rates) <= rates.len() * u32::MAX,
    decreases rates.len(),
{
    if rates.len() > 0 {
        lemma_total_bound(rates.drop_last());
        assert(rates.len() * u32::MAX == (rates.len() - 1) * u32::MAX + u32::MAX)
            by (nonlinear_arith);
    }
}

/// What helps to find faults: the frame rates of the last frames.
pub struct DebugInfo {
    fps_history: AllocRingBuffer<u32>,
    frames: usize,
}

impl DebugInfo {
    #[verifier::type_invariant]
    spec fn inv(self) -> bool {
        &&& ring_writes(self.fps_history) <= self.frames
        &&& ring_capacity(self.fps_history) == FPS_HISTORY_SIZE
        &&& ring_items(self.fps_history).len() <= FPS_HISTORY_SIZE
    }

    /// The frame rates that are kept, oldest first.
    pub closed spec fn history(&self) -> Seq<u32> {
        ring_items(self.fps_history)
    }

    /// The number of frames whose rate was ever kept.
    pub closed spec fn recorded(&self) -> nat {
        self.frames as nat
    }

    /// Whether the count of frames has room for one more. It is kept in a
    /// `usize`, as the history counts its own writes.
    pub open spec fn counts_on(&self) -> bool {
        self.recorded() < usize::MAX
    }

    pub fn new() -> (debug_info: Self)
        ensures
            debug_info.history() == Seq::<u32>::empty(),
            debug_info.recorded() == 0,
    {
        DebugInfo { fps_history: ring_new(FPS_HISTORY_SIZE), frames: 0 }
    }

    /// Keeps the rate of one more frame, in place of the oldest once the
    /// history is full. When the count of frames is used up, the history
    /// stays as it is.
    pub fn record_fps(&mut self, fps: u32)
        ensures
            final(self).history() == if old(self).counts_on() {
                rolled(old(self).history(), FPS_HISTORY_SIZE as nat, fps)
            } else {
                old(self).history()
            },
            final(self).recorded() == if old(self).counts_on() {
                old(self).recorded() + 1
            } else {
                old(self).recorded()
            },
            final(self).history().len() <= FPS_HISTORY_SIZE,
    {
        proof {
            use_type_invariant(&*self);
        }
        if self.frames < usize::MAX {
            self.frames = self.frames + 1;
            let _ = ring_enqueue(&mut self.fps_history, fps);
        }
    }
}

/// The mean of the frame rates that are kept, rounded to the nearest whole
/// number; 0 while none is kept.
pub fn get_average_fps(debug_info: &DebugInfo) -> (fps: u32)
    ensures
        fps == average(debug_info.history()),
{
    proof {
        use_type_invariant(debug_info);
    }
    let len: usize = ring_len(&debug_info.fps_history);
    if len == 0 {
        return 0;
    }
    let ghost rates = debug_info.history();
    let mut sum: u64 = 0;
    let mut i: usize = 0;
    while i < len
        invariant
            i <= len,
            len == rates.len(),
            len <= FPS_HISTORY_SIZE,
            rates == ring_items(debug_info.fps_history),
            sum == total(rates.take(i as int)),
        decreases len - i,
    {
        proof {
            lemma_total_bound(rates.take(i as int));
            assert(rates.take(i + 1).drop_last() == rates.take(i as int));
            assert(rates.take(i + 1).last() == rates[i as int]);
            vstd::arithmetic::div_mod::lemma_small_mod(i as nat, len as nat);
            assert(i * u32::MAX <= 100 * u32::MAX) by (nonlinear_arith)
                requires
                    i <= 100,
            ;
        }
        match ring_get(&debug_info.fps_history, i) {
            Some(rate) => {
                sum = sum + rate as u64;
            },
            None => {},
        }
        i = i + 1;
    }
    proof {
        assert(rates.take(len as int) == rates);
        lemma_total_bound(rates);
        assert(len * u32::MAX <= 100 * u32::MAX) by (nonlinear_arith)
            requires
                len <= 100,
        ;
        assert((2 * total(rates) + len) / (2 * len) <= u32::MAX) by (nonlinear_arith)
            requires
                0 < len,
                total(rates) <= len * u32::MAX,
        ;
    }
    let long: u64 = len as u64;
    ((2 * sum + long) / (2 * long)) as u32
}

/// The entities that stand for the directions and for the world itself, and
/// the player. An action names a direction by the identifier that stands
/// here.
#[derive(Clone, Copy, Debug, PartialEq, Eq, Structural)]
pub struct SpecialEntities {
    pub down: EntityID,
    pub east: EntityID,
    pub inside: EntityID,
    pub north: EntityID,
    pub north_east: EntityID,
    pub north_west: EntityID,
    pub outside: EntityID,
    pub player: EntityID,
    pub south: EntityID,
    pub south_east: EntityID,
    pub south_west: EntityID,
    pub west: EntityID,
    pub world: EntityID,
    pub up: EntityID,
}

impl SpecialEntities {
    /// Every special entity before it is set up: identifier 0.
    pub open spec fn unset() -> SpecialEntities {
        SpecialEntities {
            down: 0,
            east: 0,
            inside: 0,
            north: 0,
            north_east: 0,
            north_west: 0,
            outside: 0,
            player: 0,
            south: 0,
            south_east: 0,
            south_west: 0,
            west: 0,
            world: 0,
            up: 0,
        }
    }

    /// The special entities as they are set up in given tables: the player
    /// is the next character, and the world and the directions are the next
    /// thirteen meta entities, in this order.
    pub open spec fn assigned(tables: Tables) -> SpecialEntities {
        let first = tables.size(EntityType::Meta);
        SpecialEntities {
            player: tables.next_identifier(EntityType::Character) as EntityID,
            world: identifier(EntityType::Meta, first) as EntityID,
            down: identifier(EntityType::Meta, first + 1) as EntityID,
            east: identifier(EntityType::Meta, first + 2) as EntityID,
            inside: identifier(EntityType::Meta, first + 3) as EntityID,
            north: identifier(EntityType::Meta, first + 4) as EntityID,
            north_east: identifier(EntityType::Meta, first + 5) as EntityID,
            north_west: identifier(EntityType::Meta, first + 6) as EntityID,
            outside: identifier(EntityType::Meta, first + 7) as EntityID,
            south: identifier(EntityType::Meta, first + 8) as EntityID,
            south_east: identifier(EntityType::Meta, first + 9) as EntityID,
            south_west: identifier(EntityType::Meta, first + 10) as EntityID,
            west: identifier(EntityType::Meta, first + 11) as EntityID,
            up: identifier(EntityType::Meta, first + 12) as EntityID,
        }
    }

    /// No two of the directions, the world and the player are the same
    /// entity.
    pub open spec fn distinct(self) -> bool {
        let all = seq![
            self.down,
            self.east,
            self.inside,
            self.north,
            self.north_east,
            self.north_west,
            self.outside,
            self.player,
            self.south,
            self.south_east,
            self.south_west,
            self.west,
            self.world,
            self.up,
        ];
        forall|i: int, j: int| 0 <= i < j < 14 ==> all[i] != all[j]
    }

    pub fn new() -> (special_entities: Self)
        ensures
            special_entities == SpecialEntities::unset(),
    {
        Self {
            down: 0,
            east: 0,
            inside: 0,
            north: 0,
            north_east: 0,
            north_west: 0,
            outside: 0,
            player: 0,
            south: 0,
            south_east: 0,
            south_west: 0,
            west: 0,
            world: 0,
            up: 0,
        }
    }
}

/// The number of meta entities that stand for the world and the directions.
pub open spec fn special_meta_count() -> nat {
    13
}

/// The tables after the special entities were set up in them.
pub open spec fn with_special_entities(tables: Tables) -> Tables {
    tables.created(EntityType::Character).created_many(EntityType::Meta, special_meta_count())
}

/// Whether tables have room for the special entities.
pub open spec fn has_room_for_special_entities(tables: Tables) -> bool {
    &&& has_room(tables.size(EntityType::Character))
    &&& has_room(tables.size(EntityType::Meta) + 12)
}

/// Special entities that were set up where the sequence numbers sufficed are
/// all different from one another.
pub proof fn lemma_assigned_distinct(tables: Tables)
    requires
        has_room_for_special_entities(tables),
    ensures
        SpecialEntities::assigned(tables).distinct(),
{
}

/// Everything that a game holds.
pub struct Game {
    pub action_queue: VecDeque<ActionRequest>,
    pub components: Components,
    pub current_map: Box<GameMap>,
    pub debug_info: DebugInfo,
    pub menu_data: MenuData,
    pub special_entities: SpecialEntities,
    pub state: GameState,
}

/// What a game is at a moment, as the rules see it.
#[verifier::ext_equal]
pub struct World {
    /// The actions that wait, the next one first.
    pub queue: Seq<ActionRequest>,
    /// The entities and their components.
    pub tables: Tables,
    /// The map that the player is on.
    pub map: GameMap,
    pub debug_info: DebugInfo,
    pub new_character: MenuState,
    pub test_menu: MenuState,
    pub special_entities: SpecialEntities,
    pub state: GameState,
}

impl View for Game {
    type V = World;

    open spec fn view(&self) -> World {
        World {
            queue: self.action_queue@,
            tables: self.components@,
            map: *self.current_map,
            debug_info: self.debug_info,
            new_character: self.menu_data.new_character.state(),
            test_menu: self.menu_data.test_menu.state(),
            special_entities: self.special_entities,
            state: self.state,
        }
    }
}

impl Game {
    /// A game before its first frame: in the main menu, with no action
    /// waiting, on the empty map, with no entities but the special ones.
    pub fn new() -> (game: Self)
        ensures
            game@.queue == Seq::<ActionRequest>::empty(),
            game@.tables == with_special_entities(Tables::empty()),
            game@.tables.wf(),
            game@.map.id == 0,
            game@.map.width == 0,
            game@.map.height == 0,
            game@.map.wf(),
            game@.debug_info.history() == Seq::<u32>::empty(),
            game@.debug_info.recorded() == 0,
            NewCharacter::initial(game@.new_character),
            TestMenu::initial(game@.test_menu),
            game.menu_data.wf(),
            game@.special_entities == SpecialEntities::assigned(Tables::empty()),
            game@.special_entities.distinct(),
            game@.state == GameState::Menu(MenuType::Main),
            player_is_complete(game@),
    {
        let mut result = Self {
            action_queue: VecDeque::with_capacity(1000),
            components: Components::new(),
            current_map: Box::new(GameMap::empty_map()),
            debug_info: DebugInfo::new(),
            menu_data: MenuData::new(),
            special_entities: SpecialEntities::new(),
            state: GameState::Menu(MenuType::Main),
        };
        set_up_special_entities(&mut result.special_entities, &mut result.components);
        proof {
            lemma_assigned_distinct(Tables::empty());
            Tables::empty().lemma_created_entity(EntityType::Character);
            Tables::empty().created(EntityType::Character).lemma_created_many_sizes(
                EntityType::Meta,
                special_meta_count(),
            );
            assert(result.components@.table(EntityType::Character) == Tables::empty().created(
                EntityType::Character,
            ).table(EntityType::Character));
            result.components@.lemma_component_presence(result.special_entities.player);
        }
        result
    }
}

/// The creature that the player is as the game begins: a human of medium
/// size, neutral good, with every score at 10.
pub open spec fn first_creature() -> Creature {
    Creature {
        alignment: Alignment::NeutralGood,
        size: Size::Medium,
        race: Race::Human,
        stats: Stats {
            charisma: 10,
            constitution: 10,
            dexterity: 10,
            intelligence: 10,
            strength: 10,
            wisdom: 10,
        },
    }
}

/// Whether the player of a world has the four components that the beginning
/// of a game writes.
pub open spec fn player_is_complete(world: World) -> bool {
    let player = world.special_entities.player;
    &&& world.tables.creature(player) is Some
    &&& world.tables.character(player) is Some
    &&& world.tables.map_index(player) is Some
    &&& world.tables.position(player) is Some
}

/// The tables after the player was made what it is as the game begins: the
/// first creature, a fighter, on map 0 at the square (5, 5).
pub open spec fn with_first_player(tables: Tables, player: EntityID) -> Tables {
    tables.with_creature(player, first_creature()).with_character(
        player,
        Character { class: Class::Fighter },
    ).with_map_index(player, MapIndex { map: 0 }).with_position(player, Position { x: 5, y: 5 })
}

/// Whether the player of a game has the four components that the beginning
/// of a game writes.
pub fn has_complete_player(game: &Game) -> (complete: bool)
    ensures
        complete == player_is_complete(game@),
{
    let player: EntityID = game.special_entities.player;
    let creature = game.components.get_creature(player).is_some();
    let character = game.components.get_character(player).is_some();
    let map_index = game.components.get_map_index(player).is_some();
    let position = game.components.get_position(player).is_some();
    creature && character && map_index && position
}

/// Makes the player what it is as the game begins, and changes nothing else.
/// The player has to have the components that are written.
pub fn initialize_player(game: &mut Game)
    requires
        player_is_complete(old(game)@),
    ensures
        final(game)@ == (World {
            tables: with_first_player(old(game)@.tables, old(game)@.special_entities.player),
            ..old(game)@
        }),
{
    let player: EntityID = game.special_entities.player;
    match game.components.get_creature_mut(player) {
        Some(player_creature) => {
            player_creature.alignment = Alignment::NeutralGood;
            player_creature.race = Race::Human;
            player_creature.size = Size::Medium;
            player_creature.stats.charisma = 10;
            player_creature.stats.constitution = 10;
            player_creature.stats.dexterity = 10;
            player_creature.stats.intelligence = 10;
            player_creature.stats.strength = 10;
            player_creature.stats.wisdom = 10;
        },
        None => {},
    }
    match game.components.get_character_mut(player) {
        Some(character) => {
            character.class = Class::Fighter;
        },
        None => {},
    }
    match game.components.get_map_index_mut(player) {
        Some(map_location) => {
            map_location.map = 0;
        },
        None => {},
    }
    match game.components.get_position_mut(player) {
        Some(position) => {
            position.x = 5;
            position.y = 5;
        },
        None => {},
    }
}

/// Creates the player, the world and the directions, and notes their
/// identifiers.
pub fn set_up_special_entities(special_entities: &mut SpecialEntities, components: &mut Components)
    requires
        has_room_for_special_entities(old(components)@),
    ensures
        *final(special_entities) == SpecialEntities::assigned(old(components)@),
        final(components)@ == with_special_entities(old(components)@),
{
    let ghost start = components@;
    special_entities.player = components.create_entity(EntityType::Character);
    let ghost with_player = components@;
    special_entities.world = components.create_entity(EntityType::Meta);
    special_entities.down = components.create_entity(EntityType::Meta);
    special_entities.east = components.create_entity(EntityType::Meta);
    special_entities.inside = components.create_entity(EntityType::Meta);
    special_entities.north = components.create_entity(EntityType::Meta);
    special_entities.north_east = components.create_entity(EntityType::Meta);
    special_entities.north_west = components.create_entity(EntityType::Meta);
    special_entities.outside = components.create_entity(EntityType::Meta);
    special_entities.south = components.create_entity(EntityType::Meta);
    special_entities.south_east = components.create_entity(EntityType::Meta);
    special_entities.south_west = components.create_entity(EntityType::Meta);
    special_entities.west = components.create_entity(EntityType::Meta);
    special_entities.up = components.create_entity(EntityType::Meta);
    proof {
        reveal_with_fuel(Tables::created_many, 14);
        assert(components@ == with_player.created_many(EntityType::Meta, 13));
    }
}

} // verus!
