//! Actions: what the player and the game ask for, and the pipeline that
//! resolves one request at a time against the world.

use vstd::prelude::*;
use crate::component::Position;
use crate::entity::EntityID;
use crate::game::{Game, GameState, SpecialEntities, World};
use crate::ui::menu::{
    navigate_menu_down,
    navigate_menu_in,
    navigate_menu_left,
    navigate_menu_out,
    navigate_menu_right,
    navigate_menu_up,
    Menu,
    MenuState,
    MenuType,
};

verus! {

#[derive(Copy, Clone, Debug, PartialEq, Eq, Hash, Structural)]
pub struct CloseMenu;

#[derive(Copy, Clone, Debug, PartialEq, Eq, Hash, Structural)]
pub struct NavigateMenu;

#[derive(Copy, Clone, Debug, PartialEq, Eq, Hash, Structural)]
pub struct NewGame;

#[derive(Copy, Clone, Debug, PartialEq, Eq, Hash, Structural)]
pub struct OpenMenu;

#[derive(Copy, Clone, Debug, PartialEq, Eq, Hash, Structural)]
pub struct Quit;

#[derive(Copy, Clone, Debug, PartialEq, Eq, Hash, Structural)]
pub struct Restart;

#[derive(Copy, Clone, Debug, PartialEq, Eq, Hash, Structural)]
pub struct Restore;

#[derive(Copy, Clone, Debug, PartialEq, Eq, Hash, Structural)]
pub struct Save;

#[derive(Copy, Clone, Debug, PartialEq, Eq, Hash, Structural)]
pub struct Answer;

#[derive(Copy, Clone, Debug, PartialEq, Eq, Hash, Structural)]
pub struct Ask;

#[derive(Copy, Clone, Debug, PartialEq, Eq, Hash, Structural)]
pub struct AskFor;

#[derive(Copy, Clone, Debug, PartialEq, Eq, Hash, Structural)]
pub struct Attack;

#[derive(Copy, Clone, Debug, PartialEq, Eq, Hash, Structural)]
pub struct Blow;

#[derive(Copy, Clone, Debug, PartialEq, Eq, Hash, Structural)]
pub struct Burn;

#[derive(Copy, Clone, Debug, PartialEq, Eq, Hash, Structural)]
pub struct Buy;

#[derive(Copy, Clone, Debug, PartialEq, Eq, Hash, Structural)]
pub struct Clean;

#[derive(Copy, Clone, Debug, PartialEq, Eq, Hash, Structural)]
pub struct Climb;

#[derive(Copy, Clone, Debug, PartialEq, Eq, Hash, Structural)]
pub struct Close;

#[derive(Copy, Clone, Debug, PartialEq, Eq, Hash, Structural)]
pub struct Consult;

#[derive(Copy, Clone, Debug, PartialEq, Eq, Hash, Structural)]
pub struct Crush;

#[derive(Copy, Clone, Debug, PartialEq, Eq, Hash, Structural)]
pub struct Cut;

#[derive(Copy, Clone, Debug, PartialEq, Eq, Hash, Structural)]
pub struct Dig;

#[derive(Copy, Clone, Debug, PartialEq, Eq, Hash, Structural)]
pub struct Disrobe;

#[derive(Copy, Clone, Debug, PartialEq, Eq, Hash, Structural)]
pub struct Drink;

#[derive(Copy, Clone, Debug, PartialEq, Eq, Hash, Structural)]
pub struct Drop;

#[derive(Copy, Clone, Debug, PartialEq, Eq, Hash, Structural)]
pub struct Eat;

#[derive(Copy, Clone, Debug, PartialEq, Eq, Hash, Structural)]
pub struct Empty;

#[derive(Copy, Clone, Debug, PartialEq, Eq, Hash, Structural)]
pub struct Enter;

#[derive(Copy, Clone, Debug, PartialEq, Eq, Hash, Structural)]
pub struct Examine;

#[derive(Copy, Clone, Debug, PartialEq, Eq, Hash, Structural)]
pub struct Exit;

#[derive(Copy, Clone, Debug, PartialEq, Eq, Hash, Structural)]
pub struct Fill;

#[derive(Copy, Clone, Debug, PartialEq, Eq, Hash, Structural)]
pub struct GetOff;

#[derive(Copy, Clone, Debug, PartialEq, Eq, Hash, Structural)]
pub struct Give;

#[derive(Copy, Clone, Debug, PartialEq, Eq, Hash, Structural)]
pub struct Go;

#[derive(Copy, Clone, Debug, PartialEq, Eq, Hash, Structural)]
pub struct Insert;

#[derive(Copy, Clone, Debug, PartialEq, Eq, Hash, Structural)]
pub struct Inventory;

#[derive(Copy, Clone, Debug, PartialEq, Eq, Hash, Structural)]
pub struct Jump;

#[derive(Copy, Clone, Debug, PartialEq, Eq, Hash, Structural)]
pub struct JumpOver;

#[derive(Copy, Clone, Debug, PartialEq, Eq, Hash, Structural)]
pub struct Kiss;

#[derive(Copy, Clone, Debug, PartialEq, Eq, Hash, Structural)]
pub struct LetGo;

#[derive(Copy, Clone, Debug, PartialEq, Eq, Hash, Structural)]
pub struct Listen;

#[derive(Copy, Clone, Debug, PartialEq, Eq, Hash, Structural)]
pub struct Lock;

#[derive(Copy, Clone, Debug, PartialEq, Eq, Hash, Structural)]
pub struct Look;

#[derive(Copy, Clone, Debug, PartialEq, Eq, Hash, Structural)]
pub struct LookUnder;

#[derive(Copy, Clone, Debug, PartialEq, Eq, Hash, Structural)]
pub struct NotUnderstood;

#[derive(Copy, Clone, Debug, PartialEq, Eq, Hash, Structural)]
pub struct Open;

#[derive(Copy, Clone, Debug, PartialEq, Eq, Hash, Structural)]
pub struct Order;

#[derive(Copy, Clone, Debug, PartialEq, Eq, Hash, Structural)]
pub struct Pray;

#[derive(Copy, Clone, Debug, PartialEq, Eq, Hash, Structural)]
pub struct Pull;

#[derive(Copy, Clone, Debug, PartialEq, Eq, Hash, Structural)]
pub struct Push;

#[derive(Copy, Clone, Debug, PartialEq, Eq, Hash, Structural)]
pub struct PushDir;

#[derive(Copy, Clone, Debug, PartialEq, Eq, Hash, Structural)]
pub struct PutOn;

#[derive(Copy, Clone, Debug, PartialEq, Eq, Hash, Structural)]
pub struct Receive;

#[derive(Copy, Clone, Debug, PartialEq, Eq, Hash, Structural)]
pub struct Remove;

#[derive(Copy, Clone, Debug, PartialEq, Eq, Hash, Structural)]
pub struct Search;

#[derive(Copy, Clone, Debug, PartialEq, Eq, Hash, Structural)]
pub struct SetItem;

#[derive(Copy, Clone, Debug, PartialEq, Eq, Hash, Structural)]
pub struct SetTo;

#[derive(Copy, Clone, Debug, PartialEq, Eq, Hash, Structural)]
pub struct Show;

#[derive(Copy, Clone, Debug, PartialEq, Eq, Hash, Structural)]
pub struct Sing;

#[derive(Copy, Clone, Debug, PartialEq, Eq, Hash, Structural)]
pub struct Sleep;

#[derive(Copy, Clone, Debug, PartialEq, Eq, Hash, Structural)]
pub struct Smell;

#[derive(Copy, Clone, Debug, PartialEq, Eq, Hash, Structural)]
pub struct Swim;

#[derive(Copy, Clone, Debug, PartialEq, Eq, Hash, Structural)]
pub struct Swing;

#[derive(Copy, Clone, Debug, PartialEq, Eq, Hash, Structural)]
pub struct SwitchOff;

#[derive(Copy, Clone, Debug, PartialEq, Eq, Hash, Structural)]
pub struct SwitchOn;

#[derive(Copy, Clone, Debug, PartialEq, Eq, Hash, Structural)]
pub struct Take;

#[derive(Copy, Clone, Debug, PartialEq, Eq, Hash, Structural)]
pub struct Taste;

#[derive(Copy, Clone, Debug, PartialEq, Eq, Hash, Structural)]
pub struct Tell;

#[derive(Copy, Clone, Debug, PartialEq, Eq, Hash, Structural)]
pub struct Think;

#[derive(Copy, Clone, Debug, PartialEq, Eq, Hash, Structural)]
pub struct ThrowAt;

#[derive(Copy, Clone, Debug, PartialEq, Eq, Hash, Structural)]
pub struct ThrownAt;

#[derive(Copy, Clone, Debug, PartialEq, Eq, Hash, Structural)]
pub struct Tie;

#[derive(Copy, Clone, Debug, PartialEq, Eq, Hash, Structural)]
pub struct Touch;

#[derive(Copy, Clone, Debug, PartialEq, Eq, Hash, Structural)]
pub struct Turn;

#[derive(Copy, Clone, Debug, PartialEq, Eq, Hash, Structural)]
pub struct Unlock;

#[derive(Copy, Clone, Debug, PartialEq, Eq, Hash, Structural)]
pub struct Wait;

#[derive(Copy, Clone, Debug, PartialEq, Eq, Hash, Structural)]
pub struct Wake;

#[derive(Copy, Clone, Debug, PartialEq, Eq, Hash, Structural)]
pub struct WakeOther;

#[derive(Copy, Clone, Debug, PartialEq, Eq, Hash, Structural)]
pub struct Wave;

#[derive(Copy, Clone, Debug, PartialEq, Eq, Hash, Structural)]
pub struct WaveHands;

#[derive(Copy, Clone, Debug, PartialEq, Eq, Hash, Structural)]
pub struct Wear;

/// Everything that can be asked for. What an action is about stands beside
/// it in the request.
#[derive(Clone, Copy, Debug, PartialEq, Eq, Structural)]
pub enum Action {
    // Meta actions
    CloseMenu(CloseMenu),
    NavigateMenu(NavigateMenu),
    NewGame(NewGame),
    OpenMenu(OpenMenu),
    Quit(Quit),
    Restart(Restart),
    Restore(Restore),
    Save(Save),
    // Regular actions
    Answer(Answer),
    Ask(Ask),
    AskFor(AskFor),
    Attack(Attack),
    Blow(Blow),
    Burn(Burn),
    Buy(Buy),
    Clean(Clean),
    Climb(Climb),
    Close(Close),
    Consult(Consult),
    Crush(Crush),
    Cut(Cut),
    Dig(Dig),
    Disrobe(Disrobe),
    Drink(Drink),
    Drop(Drop),
    Eat(Eat),
    Empty(Empty),
    Enter(Enter),
    Examine(Examine),
    Exit(Exit),
    Fill(Fill),
    GetOff(GetOff),
    Give(Give),
    Go(Go),
    Insert(Insert),
    Inventory(Inventory),
    Jump(Jump),
    JumpOver(JumpOver),
    Kiss(Kiss),
    LetGo(LetGo),
    Listen(Listen),
    Lock(Lock),
    Look(Look),
    LookUnder(LookUnder),
    NotUnderstood(NotUnderstood),
    Open(Open),
    Order(Order),
    Pray(Pray),
    Pull(Pull),
    Push(Push),
    PushDir(PushDir),
    PutOn(PutOn),
    Receive(Receive),
    Remove(Remove),
    Search(Search),
    SetItem(SetItem),
    SetTo(SetTo),
    Show(Show),
    Sing(Sing),
    Sleep(Sleep),
    Smell(Smell),
    Swim(Swim),
    Swing(Swing),
    SwitchOff(SwitchOff),
    SwitchOn(SwitchOn),
    Take(Take),
    Taste(Taste),
    Tell(Tell),
    Think(Think),
    ThrowAt(ThrowAt),
    ThrownAt(ThrownAt),
    Tie(Tie),
    Touch(Touch),
    Turn(Turn),
    Unlock(Unlock),
    Wait(Wait),
    Wake(Wake),
    WakeOther(WakeOther),
    Wave(Wave),
    WaveHands(WaveHands),
    Wear(Wear),
}

/// What an action is about: an entity, a text, a menu, a number, or nothing.
pub enum Noun {
    Entity(EntityID),
    Literal(String),
    Menu(MenuType),
    Nothing,
    Number(i64),
}

/// A request to resolve: who acts, what they do, and to what.
pub struct ActionRequest {
    pub actor: EntityID,
    pub action: Action,
    pub noun: Noun,
    pub second: Noun,
}

/// Whether an action is about the session rather than the world: closing,
/// navigating and opening a menu, a new game, quitting, restarting, restoring
/// and saving. The rules of entities have no say in these.
pub open spec fn spec_is_meta(action: Action) -> bool {
    ||| action is CloseMenu
    ||| action is NavigateMenu
    ||| action is NewGame
    ||| action is OpenMenu
    ||| action is Quit
    ||| action is Restart
    ||| action is Restore
    ||| action is Save
}

#[verifier::when_used_as_spec(spec_is_meta)]
pub fn is_meta(action: Action) -> (meta: bool)
    ensures
        meta == spec_is_meta(action),
{
    match action {
        Action::CloseMenu(_) => true,
        Action::NavigateMenu(_) => true,
        Action::NewGame(_) => true,
        Action::OpenMenu(_) => true,
        Action::Quit(_) => true,
        Action::Restart(_) => true,
        Action::Restore(_) => true,
        Action::Save(_) => true,
        _ => false,
    }
}

/// The moments at which the rules of an entity are asked.
#[derive(Clone, Copy, Debug, PartialEq, Eq, Structural)]
pub enum RuleType {
    After,
    Before,
    Life,
    Order,
    ReactAfter,
    ReactBefore,
}

/// What an entity has to say about the actions that concern it.
pub trait Actor {
    /// Whether the entity's rule for a moment takes an action over.
    spec fn handles(&self, rule_type: RuleType, action: Action) -> bool;

    /// Asks the entity's rule for a moment about an action. It answers
    /// whether it has taken the action over.
    fn rule(&self, rule_type: RuleType, action: Action) -> (handled: bool)
        ensures
            handled == self.handles(rule_type, action),
    ;
}

/// An entity without rules: it takes nothing over.
#[derive(Copy, Clone, Debug, PartialEq, Eq, Hash, Structural)]
pub struct NoRules;

impl Actor for NoRules {
    open spec fn handles(&self, rule_type: RuleType, action: Action) -> bool {
        false
    }

    fn rule(&self, rule_type: RuleType, action: Action) -> (handled: bool) {
        false
    }
}

/// The routine of an action: what the action does once the rules have let it
/// pass.
pub trait ActionRoutine {
    /// What the routine asks of a request. A request that does not meet it
    /// is a fault of whoever made the request. Most routines ask nothing.
    open spec fn accepts(world: World, actor: EntityID, noun: Noun, second: Noun) -> bool {
        true
    }

    /// What the routine makes of the world, and whether it has resolved the
    /// action for good. A routine that does nothing yet leaves the world as
    /// it is and lets the action fall through.
    open spec fn outcome(world: World, actor: EntityID, noun: Noun, second: Noun) -> (World, bool) {
        (world, false)
    }

    fn execute(game: &mut Game, actor: EntityID, noun: Noun, second: Noun) -> (resolved: bool)
        requires
            Self::accepts(old(game)@, actor, noun, second),
        ensures
            final(game)@ == Self::outcome(old(game)@, actor, noun, second).0,
            resolved == Self::outcome(old(game)@, actor, noun, second).1,
    ;
}

/// The session's state after a menu was closed: the test menu gives way to
/// the main menu, and every other menu stays.
pub open spec fn state_after_close(menu: MenuType) -> GameState {
    match menu {
        MenuType::TestMenu => GameState::Menu(MenuType::Main),
        _ => GameState::Menu(menu),
    }
}

impl ActionRoutine for CloseMenu {
    /// A menu can be closed only while the session is in one.
    open spec fn accepts(world: World, actor: EntityID, noun: Noun, second: Noun) -> bool {
        world.state is Menu
    }

    open spec fn outcome(world: World, actor: EntityID, noun: Noun, second: Noun) -> (World, bool) {
        match world.state {
            GameState::Menu(menu) => (World { state: state_after_close(menu), ..world }, false),
            _ => (world, false),
        }
    }

    fn execute(game: &mut Game, actor: EntityID, noun: Noun, second: Noun) -> (resolved: bool) {
        match game.state {
            GameState::Menu(menu) => {
                match menu {
                    MenuType::TestMenu => {
                        game.state = GameState::Menu(MenuType::Main);
                    },
                    _ => (),
                }
            },
            _ => (),
        }
        false
    }
}

/// A menu after a move in a direction: north and south go up and down, up
/// and down go out of the element in focus and into it, east and west go
/// right and left. Any other entity is no direction of a menu and moves
/// nothing; nor does anything move in a menu that is not well formed, or to
/// the west where the points that would come back do not fit in their byte.
pub open spec fn navigated(
    special: SpecialEntities,
    direction: EntityID,
    menu: MenuState,
) -> MenuState {
    if direction == special.north {
        menu.after_up()
    } else if direction == special.south {
        menu.after_down()
    } else if direction == special.up {
        menu.after_out()
    } else if direction == special.down {
        menu.after_in()
    } else if direction == special.east {
        menu.after_right()
    } else if direction == special.west {
        menu.after_left()
    } else {
        menu
    }
}

/// Moves in a menu in the direction that an entity stands for.
fn navigate<M: Menu>(menu: &mut M, special: &SpecialEntities, direction: EntityID)
    ensures
        final(menu).state() == navigated(*special, direction, old(menu).state()),
{
    if direction == special.north {
        navigate_menu_up(menu);
    } else if direction == special.south {
        navigate_menu_down(menu);
    } else if direction == special.up {
        navigate_menu_out(menu);
    } else if direction == special.down {
        navigate_menu_in(menu);
    } else if direction == special.east {
        navigate_menu_right(menu);
    } else if direction == special.west {
        navigate_menu_left(menu);
    }
}

impl ActionRoutine for NavigateMenu {
    /// Without a direction, or outside any menu, nothing can be moved and the
    /// action is over. In a menu that keeps its elements the move is made; in
    /// another menu nothing happens.
    open spec fn outcome(world: World, actor: EntityID, noun: Noun, second: Noun) -> (World, bool) {
        match noun {
            Noun::Entity(direction) => match world.state {
                GameState::Menu(MenuType::NewCharacter) => (
                    World {
                        new_character: navigated(
                            world.special_entities,
                            direction,
                            world.new_character,
                        ),
                        ..world
                    },
                    false,
                ),
                GameState::Menu(MenuType::TestMenu) => (
                    World {
                        test_menu: navigated(world.special_entities, direction, world.test_menu),
                        ..world
                    },
                    false,
                ),
                GameState::Menu(_) => (world, false),
                _ => (world, true),
            },
            _ => (world, true),
        }
    }

    fn execute(game: &mut Game, actor: EntityID, noun: Noun, second: Noun) -> (resolved: bool) {
        let direction: EntityID = match noun {
            Noun::Entity(id) => id,
            _ => {
                return true;
            },
        };
        let menu: MenuType = match game.state {
            GameState::Menu(menu_type) => menu_type,
            _ => {
                return true;
            },
        };
        let special: SpecialEntities = game.special_entities;
        match menu {
            MenuType::NewCharacter => {
                navigate(&mut game.menu_data.new_character, &special, direction);
            },
            MenuType::TestMenu => {
                navigate(&mut game.menu_data.test_menu, &special, direction);
            },
            _ => (),
        }
        false
    }
}

impl ActionRoutine for NewGame {
    open spec fn outcome(world: World, actor: EntityID, noun: Noun, second: Noun) -> (World, bool) {
        (World { state: GameState::Running, ..world }, false)
    }

    fn execute(game: &mut Game, actor: EntityID, noun: Noun, second: Noun) -> (resolved: bool) {
        game.state = GameState::Running;
        false
    }
}

impl ActionRoutine for OpenMenu {
    /// Only a menu can be opened.
    open spec fn accepts(world: World, actor: EntityID, noun: Noun, second: Noun) -> bool {
        noun is Menu
    }

    open spec fn outcome(world: World, actor: EntityID, noun: Noun, second: Noun) -> (World, bool) {
        match noun {
            Noun::Menu(menu) => (World { state: GameState::Menu(menu), ..world }, false),
            _ => (world, false),
        }
    }

    fn execute(game: &mut Game, actor: EntityID, noun: Noun, second: Noun) -> (resolved: bool) {
        match noun {
            Noun::Menu(menu_type) => {
                game.state = GameState::Menu(menu_type);
            },
            _ => (),
        }
        false
    }
}

impl ActionRoutine for Quit {
    open spec fn outcome(world: World, actor: EntityID, noun: Noun, second: Noun) -> (World, bool) {
        (World { state: GameState::QuitRequested, ..world }, false)
    }

    fn execute(game: &mut Game, actor: EntityID, noun: Noun, second: Noun) -> (resolved: bool) {
        game.state = GameState::QuitRequested;
        false
    }
}

/// The step that a compass direction stands for, east and south counted
/// upwards. An entity that is no compass direction stands for no step.
pub open spec fn direction_offset(special: SpecialEntities, direction: EntityID) -> (int, int) {
    if direction == special.north {
        (0, -1)
    } else if direction == special.east {
        (1, 0)
    } else if direction == special.south {
        (0, 1)
    } else if direction == special.west {
        (-1, 0)
    } else if direction == special.north_east {
        (1, -1)
    } else if direction == special.north_west {
        (-1, -1)
    } else if direction == special.south_east {
        (1, 1)
    } else if direction == special.south_west {
        (-1, 1)
    } else {
        (0, 0)
    }
}

/// Whether a square lies on a map of a width and height.
pub open spec fn on_map(x: int, y: int, width: u16, height: u16) -> bool {
    0 <= x < width && 0 <= y < height
}

/// A position after a step on a map of a width and height. The step is made
/// where the square that it leads to lies on the map, and not made at all
/// where it does not: a step that the edge of the map blocks along one axis
/// is not made along the other either.
pub open spec fn moved(position: Position, offset: (int, int), width: u16, height: u16)
    -> Position {
    if on_map(position.x + offset.0, position.y + offset.1, width, height) {
        Position { x: (position.x + offset.0) as u16, y: (position.y + offset.1) as u16 }
    } else {
        position
    }
}

/// The step of a direction, as two numbers.
fn compass_offset(special: &SpecialEntities, direction: EntityID) -> (offset: (i16, i16))
    ensures
        (offset.0 as int, offset.1 as int) == direction_offset(*special, direction),
{
    let mut offset_x: i16 = 0;
    let mut offset_y: i16 = 0;
    if direction == special.north {
        offset_y = -1;
    } else if direction == special.east {
        offset_x = 1;
    } else if direction == special.south {
        offset_y = 1;
    } else if direction == special.west {
        offset_x = -1;
    } else if direction == special.north_east {
        offset_y = -1;
        offset_x = 1;
    } else if direction == special.north_west {
        offset_y = -1;
        offset_x = -1;
    } else if direction == special.south_east {
        offset_y = 1;
        offset_x = 1;
    } else if direction == special.south_west {
        offset_y = 1;
        offset_x = -1;
    }
    (offset_x, offset_y)
}

impl ActionRoutine for Go {
    /// Without a direction, or for an actor that has no position, nothing can
    /// be done and the action is over. Otherwise the actor makes the step of
    /// the direction if it leads to a square of the map, and stays where it
    /// is if not; either way the action falls through.
    open spec fn outcome(world: World, actor: EntityID, noun: Noun, second: Noun) -> (World, bool) {
        match noun {
            Noun::Entity(direction) => match world.tables.position(actor) {
                Some(position) => (
                    World {
                        tables: world.tables.with_position(
                            actor,
                            moved(
                                position,
                                direction_offset(world.special_entities, direction),
                                world.map.width,
                                world.map.height,
                            ),
                        ),
                        ..world
                    },
                    false,
                ),
                None => (world, true),
            },
            _ => (world, true),
        }
    }

    fn execute(game: &mut Game, actor: EntityID, noun: Noun, second: Noun) -> (resolved: bool) {
        let direction: EntityID = match noun {
            Noun::Entity(id) => id,
            _ => {
                return true;
            },
        };
        let special: SpecialEntities = game.special_entities;
        let width: u16 = game.current_map.width;
        let height: u16 = game.current_map.height;
        let (offset_x, offset_y) = compass_offset(&special, direction);
        match game.components.get_position_mut(actor) {
            None => true,
            Some(position) => {
                let to_x: i32 = position.x as i32 + offset_x as i32;
                let to_y: i32 = position.y as i32 + offset_y as i32;
                if 0 <= to_x && to_x < width as i32 && 0 <= to_y && to_y < height as i32 {
                    position.x = to_x as u16;
                    position.y = to_y as u16;
                }
                false
            },
        }
    }
}

impl ActionRoutine for Restart {
    fn execute(game: &mut Game, actor: EntityID, noun: Noun, second: Noun) -> (resolved: bool) {
        false
    }
}

impl ActionRoutine for Restore {
    fn execute(game: &mut Game, actor: EntityID, noun: Noun, second: Noun) -> (resolved: bool) {
        false
    }
}

impl ActionRoutine for Save {
    fn execute(game: &mut Game, actor: EntityID, noun: Noun, second: Noun) -> (resolved: bool) {
        false
    }
}

impl ActionRoutine for Answer {
    fn execute(game: &mut Game, actor: EntityID, noun: Noun, second: Noun) -> (resolved: bool) {
        false
    }
}

impl ActionRoutine for Ask {
    fn execute(game: &mut Game, actor: EntityID, noun: Noun, second: Noun) -> (resolved: bool) {
        false
    }
}

impl ActionRoutine for AskFor {
    fn execute(game: &mut Game, actor: EntityID, noun: Noun, second: Noun) -> (resolved: bool) {
        false
    }
}

impl ActionRoutine for Attack {
    fn execute(game: &mut Game, actor: EntityID, noun: Noun, second: Noun) -> (resolved: bool) {
        false
    }
}

impl ActionRoutine for Blow {
    fn execute(game: &mut Game, actor: EntityID, noun: Noun, second: Noun) -> (resolved: bool) {
        false
    }
}

impl ActionRoutine for Burn {
    fn execute(game: &mut Game, actor: EntityID, noun: Noun, second: Noun) -> (resolved: bool) {
        false
    }
}

impl ActionRoutine for Buy {
    fn execute(game: &mut Game, actor: EntityID, noun: Noun, second: Noun) -> (resolved: bool) {
        false
    }
}

impl ActionRoutine for Clean {
    fn execute(game: &mut Game, actor: EntityID, noun: Noun, second: Noun) -> (resolved: bool) {
        false
    }
}

impl ActionRoutine for Climb {
    fn execute(game: &mut Game, actor: EntityID, noun: Noun, second: Noun) -> (resolved: bool) {
        false
    }
}

impl ActionRoutine for Close {
    fn execute(game: &mut Game, actor: EntityID, noun: Noun, second: Noun) -> (resolved: bool) {
        false
    }
}

impl ActionRoutine for Consult {
    fn execute(game: &mut Game, actor: EntityID, noun: Noun, second: Noun) -> (resolved: bool) {
        false
    }
}

impl ActionRoutine for Crush {
    fn execute(game: &mut Game, actor: EntityID, noun: Noun, second: Noun) -> (resolved: bool) {
        false
    }
}

impl ActionRoutine for Cut {
    fn execute(game: &mut Game, actor: EntityID, noun: Noun, second: Noun) -> (resolved: bool) {
        false
    }
}

impl ActionRoutine for Dig {
    fn execute(game: &mut Game, actor: EntityID, noun: Noun, second: Noun) -> (resolved: bool) {
        false
    }
}

impl ActionRoutine for Disrobe {
    fn execute(game: &mut Game, actor: EntityID, noun: Noun, second: Noun) -> (resolved: bool) {
        false
    }
}

impl ActionRoutine for Drink {
    fn execute(game: &mut Game, actor: EntityID, noun: Noun, second: Noun) -> (resolved: bool) {
        false
    }
}

impl ActionRoutine for Drop {
    fn execute(game: &mut Game, actor: EntityID, noun: Noun, second: Noun) -> (resolved: bool) {
        false
    }
}

impl ActionRoutine for Eat {
    fn execute(game: &mut Game, actor: EntityID, noun: Noun, second: Noun) -> (resolved: bool) {
        false
    }
}

impl ActionRoutine for Empty {
    fn execute(game: &mut Game, actor: EntityID, noun: Noun, second: Noun) -> (resolved: bool) {
        false
    }
}

impl ActionRoutine for Enter {
    fn execute(game: &mut Game, actor: EntityID, noun: Noun, second: Noun) -> (resolved: bool) {
        false
    }
}

impl ActionRoutine for Examine {
    fn execute(game: &mut Game, actor: EntityID, noun: Noun, second: Noun) -> (resolved: bool) {
        false
    }
}

impl ActionRoutine for Exit {
    fn execute(game: &mut Game, actor: EntityID, noun: Noun, second: Noun) -> (resolved: bool) {
        false
    }
}

impl ActionRoutine for Fill {
    fn execute(game: &mut Game, actor: EntityID, noun: Noun, second: Noun) -> (resolved: bool) {
        false
    }
}

impl ActionRoutine for GetOff {
    fn execute(game: &mut Game, actor: EntityID, noun: Noun, second: Noun) -> (resolved: bool) {
        false
    }
}

impl ActionRoutine for Give {
    fn execute(game: &mut Game, actor: EntityID, noun: Noun, second: Noun) -> (resolved: bool) {
        false
    }
}

impl ActionRoutine for Insert {
    fn execute(game: &mut Game, actor: EntityID, noun: Noun, second: Noun) -> (resolved: bool) {
        false
    }
}

impl ActionRoutine for Inventory {
    fn execute(game: &mut Game, actor: EntityID, noun: Noun, second: Noun) -> (resolved: bool) {
        false
    }
}

impl ActionRoutine for Jump {
    fn execute(game: &mut Game, actor: EntityID, noun: Noun, second: Noun) -> (resolved: bool) {
        false
    }
}

impl ActionRoutine for JumpOver {
    fn execute(game: &mut Game, actor: EntityID, noun: Noun, second: Noun) -> (resolved: bool) {
        false
    }
}

impl ActionRoutine for Kiss {
    fn execute(game: &mut Game, actor: EntityID, noun: Noun, second: Noun) -> (resolved: bool) {
        false
    }
}

impl ActionRoutine for LetGo {
    fn execute(game: &mut Game, actor: EntityID, noun: Noun, second: Noun) -> (resolved: bool) {
        false
    }
}

impl ActionRoutine for Listen {
    fn execute(game: &mut Game, actor: EntityID, noun: Noun, second: Noun) -> (resolved: bool) {
        false
    }
}

impl ActionRoutine for Lock {
    fn execute(game: &mut Game, actor: EntityID, noun: Noun, second: Noun) -> (resolved: bool) {
        false
    }
}

impl ActionRoutine for Look {
    fn execute(game: &mut Game, actor: EntityID, noun: Noun, second: Noun) -> (resolved: bool) {
        false
    }
}

impl ActionRoutine for LookUnder {
    fn execute(game: &mut Game, actor: EntityID, noun: Noun, second: Noun) -> (resolved: bool) {
        false
    }
}

impl ActionRoutine for NotUnderstood {
    fn execute(game: &mut Game, actor: EntityID, noun: Noun, second: Noun) -> (resolved: bool) {
        false
    }
}

impl ActionRoutine for Open {
    fn execute(game: &mut Game, actor: EntityID, noun: Noun, second: Noun) -> (resolved: bool) {
        false
    }
}

impl ActionRoutine for Order {
    fn execute(game: &mut Game, actor: EntityID, noun: Noun, second: Noun) -> (resolved: bool) {
        false
    }
}

impl ActionRoutine for Pray {
    fn execute(game: &mut Game, actor: EntityID, noun: Noun, second: Noun) -> (resolved: bool) {
        false
    }
}

impl ActionRoutine for Pull {
    fn execute(game: &mut Game, actor: EntityID, noun: Noun, second: Noun) -> (resolved: bool) {
        false
    }
}

impl ActionRoutine for Push {
    fn execute(game: &mut Game, actor: EntityID, noun: Noun, second: Noun) -> (resolved: bool) {
        false
    }
}

impl ActionRoutine for PushDir {
    fn execute(game: &mut Game, actor: EntityID, noun: Noun, second: Noun) -> (resolved: bool) {
        false
    }
}

impl ActionRoutine for PutOn {
    fn execute(game: &mut Game, actor: EntityID, noun: Noun, second: Noun) -> (resolved: bool) {
        false
    }
}

impl ActionRoutine for Receive {
    fn execute(game: &mut Game, actor: EntityID, noun: Noun, second: Noun) -> (resolved: bool) {
        false
    }
}

impl ActionRoutine for Remove {
    fn execute(game: &mut Game, actor: EntityID, noun: Noun, second: Noun) -> (resolved: bool) {
        false
    }
}

impl ActionRoutine for Search {
    fn execute(game: &mut Game, actor: EntityID, noun: Noun, second: Noun) -> (resolved: bool) {
        false
    }
}

impl ActionRoutine for SetItem {
    fn execute(game: &mut Game, actor: EntityID, noun: Noun, second: Noun) -> (resolved: bool) {
        false
    }
}

impl ActionRoutine for SetTo {
    fn execute(game: &mut Game, actor: EntityID, noun: Noun, second: Noun) -> (resolved: bool) {
        false
    }
}

impl ActionRoutine for Show {
    fn execute(game: &mut Game, actor: EntityID, noun: Noun, second: Noun) -> (resolved: bool) {
        false
    }
}

impl ActionRoutine for Sing {
    fn execute(game: &mut Game, actor: EntityID, noun: Noun, second: Noun) -> (resolved: bool) {
        false
    }
}

impl ActionRoutine for Sleep {
    fn execute(game: &mut Game, actor: EntityID, noun: Noun, second: Noun) -> (resolved: bool) {
        false
    }
}

impl ActionRoutine for Smell {
    fn execute(game: &mut Game, actor: EntityID, noun: Noun, second: Noun) -> (resolved: bool) {
        false
    }
}

impl ActionRoutine for Swim {
    fn execute(game: &mut Game, actor: EntityID, noun: Noun, second: Noun) -> (resolved: bool) {
        false
    }
}

impl ActionRoutine for Swing {
    fn execute(game: &mut Game, actor: EntityID, noun: Noun, second: Noun) -> (resolved: bool) {
        false
    }
}

impl ActionRoutine for SwitchOff {
    fn execute(game: &mut Game, actor: EntityID, noun: Noun, second: Noun) -> (resolved: bool) {
        false
    }
}

impl ActionRoutine for SwitchOn {
    fn execute(game: &mut Game, actor: EntityID, noun: Noun, second: Noun) -> (resolved: bool) {
        false
    }
}

impl ActionRoutine for Take {
    fn execute(game: &mut Game, actor: EntityID, noun: Noun, second: Noun) -> (resolved: bool) {
        false
    }
}

impl ActionRoutine for Taste {
    fn execute(game: &mut Game, actor: EntityID, noun: Noun, second: Noun) -> (resolved: bool) {
        false
    }
}

impl ActionRoutine for Tell {
    fn execute(game: &mut Game, actor: EntityID, noun: Noun, second: Noun) -> (resolved: bool) {
        false
    }
}

impl ActionRoutine for Think {
    fn execute(game: &mut Game, actor: EntityID, noun: Noun, second: Noun) -> (resolved: bool) {
        false
    }
}

impl ActionRoutine for ThrowAt {
    fn execute(game: &mut Game, actor: EntityID, noun: Noun, second: Noun) -> (resolved: bool) {
        false
    }
}

impl ActionRoutine for ThrownAt {
    fn execute(game: &mut Game, actor: EntityID, noun: Noun, second: Noun) -> (resolved: bool) {
        false
    }
}

impl ActionRoutine for Tie {
    fn execute(game: &mut Game, actor: EntityID, noun: Noun, second: Noun) -> (resolved: bool) {
        false
    }
}

impl ActionRoutine for Touch {
    fn execute(game: &mut Game, actor: EntityID, noun: Noun, second: Noun) -> (resolved: bool) {
        false
    }
}

impl ActionRoutine for Turn {
    fn execute(game: &mut Game, actor: EntityID, noun: Noun, second: Noun) -> (resolved: bool) {
        false
    }
}

impl ActionRoutine for Unlock {
    fn execute(game: &mut Game, actor: EntityID, noun: Noun, second: Noun) -> (resolved: bool) {
        false
    }
}

impl ActionRoutine for Wait {
    fn execute(game: &mut Game, actor: EntityID, noun: Noun, second: Noun) -> (resolved: bool) {
        false
    }
}

impl ActionRoutine for Wake {
    fn execute(game: &mut Game, actor: EntityID, noun: Noun, second: Noun) -> (resolved: bool) {
        false
    }
}

impl ActionRoutine for WakeOther {
    fn execute(game: &mut Game, actor: EntityID, noun: Noun, second: Noun) -> (resolved: bool) {
        false
    }
}

impl ActionRoutine for Wave {
    fn execute(game: &mut Game, actor: EntityID, noun: Noun, second: Noun) -> (resolved: bool) {
        false
    }
}

impl ActionRoutine for WaveHands {
    fn execute(game: &mut Game, actor: EntityID, noun: Noun, second: Noun) -> (resolved: bool) {
        false
    }
}

impl ActionRoutine for Wear {
    fn execute(game: &mut Game, actor: EntityID, noun: Noun, second: Noun) -> (resolved: bool) {
        false
    }
}

/// What a request has to meet before it is resolved: what the routine of its
/// action asks. Only a menu can be opened, and a menu can be closed only
/// while the session is in one; every other request is taken.
pub open spec fn request_accepted(world: World, request: ActionRequest) -> bool {
    match request.action {
        Action::CloseMenu(_) => CloseMenu::accepts(
            world,
            request.actor,
            request.noun,
            request.second,
        ),
        Action::OpenMenu(_) => OpenMenu::accepts(
            world,
            request.actor,
            request.noun,
            request.second,
        ),
        _ => true,
    }
}

/// What the routine of an action makes of the world, and whether it has
/// resolved the action for good. Every action has its routine; those that do
/// nothing yet leave the world as it is and let the action fall through.
pub open spec fn routine_outcome(world: World, request: ActionRequest) -> (World, bool) {
    match request.action {
        Action::CloseMenu(_) => CloseMenu::outcome(
            world,
            request.actor,
            request.noun,
            request.second,
        ),
        Action::NavigateMenu(_) => NavigateMenu::outcome(
            world,
            request.actor,
            request.noun,
            request.second,
        ),
        Action::NewGame(_) => NewGame::outcome(world, request.actor, request.noun, request.second),
        Action::OpenMenu(_) => OpenMenu::outcome(
            world,
            request.actor,
            request.noun,
            request.second,
        ),
        Action::Quit(_) => Quit::outcome(world, request.actor, request.noun, request.second),
        Action::Go(_) => Go::outcome(world, request.actor, request.noun, request.second),
        _ => (world, false),
    }
}

/// Runs the routine of a request's action.
fn run_routine(game: &mut Game, action_request: ActionRequest) -> (resolved: bool)
    requires
        request_accepted(old(game)@, action_request),
    ensures
        final(game)@ == routine_outcome(old(game)@, action_request).0,
        resolved == routine_outcome(old(game)@, action_request).1,
{
    let actor: EntityID = action_request.actor;
    let action = action_request.action;
    let noun: Noun = action_request.noun;
    let second: Noun = action_request.second;
    match action {
        Action::CloseMenu(_) => CloseMenu::execute(game, actor, noun, second),
        Action::NavigateMenu(_) => NavigateMenu::execute(game, actor, noun, second),
        Action::NewGame(_) => NewGame::execute(game, actor, noun, second),
        Action::OpenMenu(_) => OpenMenu::execute(game, actor, noun, second),
        Action::Quit(_) => Quit::execute(game, actor, noun, second),
        Action::Restart(_) => Restart::execute(game, actor, noun, second),
        Action::Restore(_) => Restore::execute(game, actor, noun, second),
        Action::Save(_) => Save::execute(game, actor, noun, second),
        Action::Answer(_) => Answer::execute(game, actor, noun, second),
        Action::Ask(_) => Ask::execute(game, actor, noun, second),
        Action::AskFor(_) => AskFor::execute(game, actor, noun, second),
        Action::Attack(_) => Attack::execute(game, actor, noun, second),
        Action::Blow(_) => Blow::execute(game, actor, noun, second),
        Action::Burn(_) => Burn::execute(game, actor, noun, second),
        Action::Buy(_) => Buy::execute(game, actor, noun, second),
        Action::Clean(_) => Clean::execute(game, actor, noun, second),
        Action::Climb(_) => Climb::execute(game, actor, noun, second),
        Action::Close(_) => Close::execute(game, actor, noun, second),
        Action::Consult(_) => Consult::execute(game, actor, noun, second),
        Action::Crush(_) => Crush::execute(game, actor, noun, second),
        Action::Cut(_) => Cut::execute(game, actor, noun, second),
        Action::Dig(_) => Dig::execute(game, actor, noun, second),
        Action::Disrobe(_) => Disrobe::execute(game, actor, noun, second),
        Action::Drink(_) => Drink::execute(game, actor, noun, second),
        Action::Drop(_) => Drop::execute(game, actor, noun, second),
        Action::Eat(_) => Eat::execute(game, actor, noun, second),
        Action::Empty(_) => Empty::execute(game, actor, noun, second),
        Action::Enter(_) => Enter::execute(game, actor, noun, second),
        Action::Examine(_) => Examine::execute(game, actor, noun, second),
        Action::Exit(_) => Exit::execute(game, actor, noun, second),
        Action::Fill(_) => Fill::execute(game, actor, noun, second),
        Action::GetOff(_) => GetOff::execute(game, actor, noun, second),
        Action::Give(_) => Give::execute(game, actor, noun, second),
        Action::Go(_) => Go::execute(game, actor, noun, second),
        Action::Insert(_) => Insert::execute(game, actor, noun, second),
        Action::Inventory(_) => Inventory::execute(game, actor, noun, second),
        Action::Jump(_) => Jump::execute(game, actor, noun, second),
        Action::JumpOver(_) => JumpOver::execute(game, actor, noun, second),
        Action::Kiss(_) => Kiss::execute(game, actor, noun, second),
        Action::LetGo(_) => LetGo::execute(game, actor, noun, second),
        Action::Listen(_) => Listen::execute(game, actor, noun, second),
        Action::Lock(_) => Lock::execute(game, actor, noun, second),
        Action::Look(_) => Look::execute(game, actor, noun, second),
        Action::LookUnder(_) => LookUnder::execute(game, actor, noun, second),
        Action::NotUnderstood(_) => NotUnderstood::execute(game, actor, noun, second),
        Action::Open(_) => Open::execute(game, actor, noun, second),
        Action::Order(_) => Order::execute(game, actor, noun, second),
        Action::Pray(_) => Pray::execute(game, actor, noun, second),
        Action::Pull(_) => Pull::execute(game, actor, noun, second),
        Action::Push(_) => Push::execute(game, actor, noun, second),
        Action::PushDir(_) => PushDir::execute(game, actor, noun, second),
        Action::PutOn(_) => PutOn::execute(game, actor, noun, second),
        Action::Receive(_) => Receive::execute(game, actor, noun, second),
        Action::Remove(_) => Remove::execute(game, actor, noun, second),
        Action::Search(_) => Search::execute(game, actor, noun, second),
        Action::SetItem(_) => SetItem::execute(game, actor, noun, second),
        Action::SetTo(_) => SetTo::execute(game, actor, noun, second),
        Action::Show(_) => Show::execute(game, actor, noun, second),
        Action::Sing(_) => Sing::execute(game, actor, noun, second),
        Action::Sleep(_) => Sleep::execute(game, actor, noun, second),
        Action::Smell(_) => Smell::execute(game, actor, noun, second),
        Action::Swim(_) => Swim::execute(game, actor, noun, second),
        Action::Swing(_) => Swing::execute(game, actor, noun, second),
        Action::SwitchOff(_) => SwitchOff::execute(game, actor, noun, second),
        Action::SwitchOn(_) => SwitchOn::execute(game, actor, noun, second),
        Action::Take(_) => Take::execute(game, actor, noun, second),
        Action::Taste(_) => Taste::execute(game, actor, noun, second),
        Action::Tell(_) => Tell::execute(game, actor, noun, second),
        Action::Think(_) => Think::execute(game, actor, noun, second),
        Action::ThrowAt(_) => ThrowAt::execute(game, actor, noun, second),
        Action::ThrownAt(_) => ThrownAt::execute(game, actor, noun, second),
        Action::Tie(_) => Tie::execute(game, actor, noun, second),
        Action::Touch(_) => Touch::execute(game, actor, noun, second),
        Action::Turn(_) => Turn::execute(game, actor, noun, second),
        Action::Unlock(_) => Unlock::execute(game, actor, noun, second),
        Action::Wait(_) => Wait::execute(game, actor, noun, second),
        Action::Wake(_) => Wake::execute(game, actor, noun, second),
        Action::WakeOther(_) => WakeOther::execute(game, actor, noun, second),
        Action::Wave(_) => Wave::execute(game, actor, noun, second),
        Action::WaveHands(_) => WaveHands::execute(game, actor, noun, second),
        Action::Wear(_) => Wear::execute(game, actor, noun, second),
    }
}

/// How the resolution of a request ended.
#[derive(Clone, Copy, Debug, PartialEq, Eq, Structural)]
pub enum Resolution {
    /// The request names an entity that is no longer alive, so nothing was
    /// done.
    EntityGone,
    /// The rule of the noun took the action over before its routine ran.
    StoppedBefore,
    /// The routine ran and resolved the action for good.
    Resolved,
    /// The routine let the action fall through, and the rule of the noun
    /// took it over afterwards.
    HandledAfter,
    /// The routine let the action fall through, and no rule took it over.
    FellThrough,
}

/// Whether the rules of the noun are asked about a request: the action is
/// about the world and the noun is an entity.
pub open spec fn consults_rules(request: ActionRequest) -> bool {
    !is_meta(request.action) && request.noun is Entity
}

/// Whether an entity is out of the simulation: it has been alive and is no
/// more. An entity that is gone stays in its row, so whoever acts on the rows
/// has to leave it out.
pub open spec fn gone(world: World, entity: EntityID) -> bool {
    world.tables.alive(entity) matches Some(alive) && !alive.alive
}

/// Whether what an action is about is an entity that is gone.
pub open spec fn noun_gone(world: World, noun: Noun) -> bool {
    noun matches Noun::Entity(entity) && gone(world, entity)
}

/// Whether a request is about the world and names an entity that is gone, as
/// its actor or as one of the two things that the action is about.
pub open spec fn involves_gone(world: World, request: ActionRequest) -> bool {
    &&& !is_meta(request.action)
    &&& (gone(world, request.actor) || noun_gone(world, request.noun)
        || noun_gone(world, request.second))
}

/// Whether the rules of the noun are asked about a request in a world: the
/// action is about the world, the noun is an entity, and no entity that the
/// request names is gone.
pub open spec fn asks_rules(world: World, request: ActionRequest) -> bool {
    consults_rules(request) && !involves_gone(world, request)
}

/// How the resolution of a request ends where no rule has a say: by what the
/// routine answers.
pub open spec fn routine_resolution(world: World, request: ActionRequest) -> Resolution {
    if routine_outcome(world, request).1 {
        Resolution::Resolved
    } else {
        Resolution::FellThrough
    }
}

/// The resolution of a request, stage by stage, given what the rules of the
/// noun answer before and after. For a request that names an entity that is
/// gone nothing is done.
/// Where the rules are asked and take the action over before, nothing else
/// happens. Otherwise the routine of the action runs. Where it lets the
/// action fall through and the rules are asked, they may take it over
/// afterwards.
pub open spec fn resolution(
    world: World,
    request: ActionRequest,
    handled_before: bool,
    handled_after: bool,
) -> (World, Resolution) {
    if involves_gone(world, request) {
        (world, Resolution::EntityGone)
    } else if consults_rules(request) && handled_before {
        (world, Resolution::StoppedBefore)
    } else {
        let (next, resolved) = routine_outcome(world, request);
        if resolved {
            (next, Resolution::Resolved)
        } else if consults_rules(request) && handled_after {
            (next, Resolution::HandledAfter)
        } else {
            (next, Resolution::FellThrough)
        }
    }
}

/// Whether an entity has been alive and is no more.
fn is_gone(game: &Game, entity: EntityID) -> (entity_gone: bool)
    ensures
        entity_gone == gone(game@, entity),
{
    match game.components.get_alive(entity) {
        Some(alive) => !alive.alive,
        None => false,
    }
}

/// Whether what an action is about is an entity that is gone.
fn is_noun_gone(game: &Game, noun: &Noun) -> (entity_gone: bool)
    ensures
        entity_gone == noun_gone(game@, *noun),
{
    match noun {
        Noun::Entity(entity) => is_gone(game, *entity),
        _ => false,
    }
}

/// Resolves a request under the rules of its noun: the rule before, the
/// routine, the rule after. An action about the world is not resolved where
/// its actor or what it is about is gone. The rules of what is near the
/// actor and of the room are not part of the pipeline yet.
pub fn execute_action_with_rules<A: Actor>(
    game: &mut Game,
    action_request: ActionRequest,
    noun_rules: &A,
) -> (outcome: Resolution)
    requires
        request_accepted(old(game)@, action_request),
    ensures
        (final(game)@, outcome) == resolution(
            old(game)@,
            action_request,
            noun_rules.handles(RuleType::Before, action_request.action),
            noun_rules.handles(RuleType::After, action_request.action),
        ),
        is_meta(action_request.action) ==> final(game)@ == routine_outcome(
            old(game)@,
            action_request,
        ).0 && outcome == routine_resolution(old(game)@, action_request),
        !has_effect(action_request.action) ==> final(game)@ == old(game)@,
        involves_gone(old(game)@, action_request) ==> final(game)@ == old(game)@ && outcome
            == Resolution::EntityGone,
        asks_rules(old(game)@, action_request) && noun_rules.handles(
            RuleType::Before,
            action_request.action,
        ) ==> final(game)@ == old(game)@ && outcome == Resolution::StoppedBefore,
        asks_rules(old(game)@, action_request) && !noun_rules.handles(
            RuleType::Before,
            action_request.action,
        ) ==> final(game)@ == routine_outcome(old(game)@, action_request).0 && outcome
            == if routine_outcome(old(game)@, action_request).1 {
            Resolution::Resolved
        } else if noun_rules.handles(RuleType::After, action_request.action) {
            Resolution::HandledAfter
        } else {
            Resolution::FellThrough
        },
{
    let action: Action = action_request.action;
    if !is_meta(action) {
        if is_gone(game, action_request.actor) || is_noun_gone(game, &action_request.noun)
            || is_noun_gone(game, &action_request.second) {
            return Resolution::EntityGone;
        }
    }
    let consults: bool = !is_meta(action) && match action_request.noun {
        Noun::Entity(_) => true,
        _ => false,
    };
    if consults {
        if noun_rules.rule(RuleType::Before, action) {
            return Resolution::StoppedBefore;
        }
    }
    let during_result: bool = run_routine(game, action_request);
    if during_result {
        return Resolution::Resolved;
    }
    if consults {
        if noun_rules.rule(RuleType::After, action) {
            return Resolution::HandledAfter;
        }
    }
    Resolution::FellThrough
}

/// Resolves a request. No entity has rules of its own yet, so the routine of
/// the action decides alone, unless the request names an entity that is gone.
pub fn execute_action(game: &mut Game, action_request: ActionRequest)
    requires
        request_accepted(old(game)@, action_request),
    ensures
        final(game)@ == resolution(old(game)@, action_request, false, false).0,
        is_meta(action_request.action) ==> final(game)@ == routine_outcome(
            old(game)@,
            action_request,
        ).0,
        !has_effect(action_request.action) ==> final(game)@ == old(game)@,
        involves_gone(old(game)@, action_request) ==> final(game)@ == old(game)@,
        !involves_gone(old(game)@, action_request) ==> final(game)@ == routine_outcome(
            old(game)@,
            action_request,
        ).0,
{
    let _ = execute_action_with_rules(game, action_request, &NoRules);
}


/// A world without the request that has waited longest.
pub open spec fn without_next(world: World) -> World {
    World { queue: world.queue.drop_first(), ..world }
}

/// Takes the request that has waited longest off the queue and resolves it,
/// from its first stage to its last, before any other request is looked at.
/// With nothing waiting, nothing happens.
pub fn execute_next_action(game: &mut Game) -> (outcome: Option<Resolution>)
    requires
        old(game)@.queue.len() > 0 ==> request_accepted(
            without_next(old(game)@),
            old(game)@.queue[0],
        ),
    ensures
        old(game)@.queue.len() == 0 ==> outcome is None && final(game)@ == old(game)@,
        old(game)@.queue.len() > 0 ==> outcome is Some && (final(game)@, outcome->0)
            == resolution(without_next(old(game)@), old(game)@.queue[0], false, false),
{
    match game.action_queue.pop_front() {
        Some(action_request) => {
            assert(game@ == without_next(old(game)@));
            Some(execute_action_with_rules(game, action_request, &NoRules))
        },
        None => {
            assert(game@ == old(game)@);
            None
        },
    }
}

impl ActionRequest {
    /// Whether the request meets what the routine of its action asks, in a
    /// game as it stands.
    pub fn is_acceptable(&self, game: &Game) -> (acceptable: bool)
        ensures
            acceptable == request_accepted(game@, *self),
    {
        match self.action {
            Action::CloseMenu(_) => match game.state {
                GameState::Menu(_) => true,
                _ => false,
            },
            Action::OpenMenu(_) => match self.noun {
                Noun::Menu(_) => true,
                _ => false,
            },
            _ => true,
        }
    }
}

/// Each action is either about the session or about the world, and the
/// session's actions are resolved without the rules of any entity: whatever
/// the rules would answer, the resolution is that of the routine alone.
pub proof fn lemma_meta_ignores_rules(
    world: World,
    request: ActionRequest,
    handled_before: bool,
    handled_after: bool,
)
    requires
        is_meta(request.action),
    ensures
        !consults_rules(request),
        resolution(world, request, handled_before, handled_after) == resolution(
            world,
            request,
            false,
            false,
        ),
        resolution(world, request, handled_before, handled_after).0 == routine_outcome(
            world,
            request,
        ).0,
{
}

/// An action about the world whose noun is an entity is resolved under the
/// rules of that entity. A rule that takes the action over before stops it
/// with the world untouched. Otherwise the routine runs, and where it lets
/// the action fall through, the rule after decides how the resolution ends.
pub proof fn lemma_world_action_asks_rules(
    world: World,
    request: ActionRequest,
    handled_after: bool,
)
    requires
        !is_meta(request.action),
        request.noun is Entity,
        !involves_gone(world, request),
    ensures
        consults_rules(request),
        resolution(world, request, true, handled_after) == (world, Resolution::StoppedBefore),
        resolution(world, request, false, handled_after).0 == routine_outcome(world, request).0,
        resolution(world, request, false, handled_after).1 == if routine_outcome(
            world,
            request,
        ).1 {
            Resolution::Resolved
        } else if handled_after {
            Resolution::HandledAfter
        } else {
            Resolution::FellThrough
        },
{
}

/// An action about the world is not resolved where its actor is gone, or an
/// entity that it is about: the world stays as it is, whatever the rules
/// would answer.
pub proof fn lemma_gone_entity_stops_action(
    world: World,
    request: ActionRequest,
    handled_before: bool,
    handled_after: bool,
)
    requires
        !is_meta(request.action),
        gone(world, request.actor) || noun_gone(world, request.noun)
            || noun_gone(world, request.second),
    ensures
        resolution(world, request, handled_before, handled_after) == (
            world,
            Resolution::EntityGone,
        ),
{
}

/// Without an entity as noun no rule is asked, whatever the action.
pub proof fn lemma_no_noun_no_rules(
    world: World,
    request: ActionRequest,
    handled_before: bool,
    handled_after: bool,
)
    requires
        !(request.noun is Entity),
    ensures
        resolution(world, request, handled_before, handled_after) == resolution(
            world,
            request,
            false,
            false,
        ),
{
}

/// A step of at most one square along each axis, from a position that is
/// strictly inside the map, is made in full. From a position on the map a
/// step that would leave the map along either axis is not made at all, so at
/// an edge the position stays as it is. A position on the map stays on the
/// map.
pub proof fn lemma_moved(position: Position, offset: (int, int), width: u16, height: u16)
    requires
        -1 <= offset.0 <= 1,
        -1 <= offset.1 <= 1,
    ensures
        0 < position.x < width - 1 && 0 < position.y < height - 1 ==> moved(
            position,
            offset,
            width,
            height,
        ) == (Position {
            x: (position.x + offset.0) as u16,
            y: (position.y + offset.1) as u16,
        }),
        position.x == 0 && offset.0 == -1 ==> moved(position, offset, width, height) == position,
        position.y == 0 && offset.1 == -1 ==> moved(position, offset, width, height) == position,
        position.x == width - 1 && offset.0 == 1 ==> moved(position, offset, width, height)
            == position,
        position.y == height - 1 && offset.1 == 1 ==> moved(position, offset, width, height)
            == position,
        !on_map(position.x + offset.0, position.y + offset.1, width, height) ==> moved(
            position,
            offset,
            width,
            height,
        ) == position,
        on_map(position.x as int, position.y as int, width, height) ==> on_map(
            moved(position, offset, width, height).x as int,
            moved(position, offset, width, height).y as int,
            width,
            height,
        ),
{
}

/// The step of every entity is of one square at most along each axis, and of
/// none for an entity that is no compass direction.
pub proof fn lemma_direction_offset(special: SpecialEntities, direction: EntityID)
    ensures
        -1 <= direction_offset(special, direction).0 <= 1,
        -1 <= direction_offset(special, direction).1 <= 1,
        (direction != special.north && direction != special.east && direction != special.south
            && direction != special.west && direction != special.north_east && direction
            != special.north_west && direction != special.south_east && direction
            != special.south_west) ==> direction_offset(special, direction) == (0int, 0int),
{
}

/// Going in a direction moves an actor that has a position by the step of
/// the direction, if that leads to a square of the map, and moves nobody
/// else. It changes nothing else in the world and lets the action fall
/// through.
pub proof fn lemma_go(world: World, actor: EntityID, direction: EntityID, other: EntityID)
    requires
        world.tables.wf(),
        world.tables.position(actor) is Some,
    ensures
        ({
            let request = ActionRequest {
                actor,
                action: Action::Go(Go),
                noun: Noun::Entity(direction),
                second: Noun::Nothing,
            };
            let (next, resolved) = routine_outcome(world, request);
            let to = moved(
                world.tables.position(actor)->0,
                direction_offset(world.special_entities, direction),
                world.map.width,
                world.map.height,
            );
            &&& request_accepted(world, request)
            &&& !resolved
            &&& next.tables.wf()
            &&& next.tables.position(actor) == Some(to)
            &&& other != actor ==> next.tables.position(other) == world.tables.position(other)
            &&& next == World { tables: next.tables, ..world }
        }),
{
    let to = moved(
        world.tables.position(actor)->0,
        direction_offset(world.special_entities, direction),
        world.map.width,
        world.map.height,
    );
    world.tables.lemma_with_position(actor, to, other);
}

/// Opening a menu and closing it again leaves the session in the state that
/// closing that menu leads to, whatever the state was before: the main menu
/// after the test menu. Nothing else in the world changes.
pub proof fn lemma_open_then_close(world: World, actor: EntityID, menu: MenuType)
    ensures
        ({
            let open = ActionRequest {
                actor,
                action: Action::OpenMenu(OpenMenu),
                noun: Noun::Menu(menu),
                second: Noun::Nothing,
            };
            let close = ActionRequest {
                actor,
                action: Action::CloseMenu(CloseMenu),
                noun: Noun::Nothing,
                second: Noun::Nothing,
            };
            let opened = routine_outcome(world, open).0;
            &&& request_accepted(world, open)
            &&& opened == World { state: GameState::Menu(menu), ..world }
            &&& request_accepted(opened, close)
            &&& routine_outcome(opened, close).0 == World {
                state: state_after_close(menu),
                ..world
            }
            &&& state_after_close(MenuType::TestMenu) == GameState::Menu(MenuType::Main)
        }),
{
}

/// Whether the routine of an action does something already.
pub open spec fn has_effect(action: Action) -> bool {
    ||| action is CloseMenu
    ||| action is NavigateMenu
    ||| action is NewGame
    ||| action is OpenMenu
    ||| action is Quit
    ||| action is Go
}

/// Every action whose routine does nothing yet, saving, restoring and
/// restarting among them, takes any request, leaves the world as it is and
/// lets the action fall through.
pub proof fn lemma_routine_without_effect(world: World, request: ActionRequest)
    requires
        !has_effect(request.action),
    ensures
        request_accepted(world, request),
        routine_outcome(world, request) == (world, false),
{
}

/// Quitting and starting a new game set the state of the session and touch
/// nothing else, whatever the request holds besides.
pub proof fn lemma_session_actions(world: World, request: ActionRequest)
    ensures
        request.action is Quit ==> request_accepted(world, request) && routine_outcome(
            world,
            request,
        ) == (World { state: GameState::QuitRequested, ..world }, false),
        request.action is NewGame ==> request_accepted(world, request) && routine_outcome(
            world,
            request,
        ) == (World { state: GameState::Running, ..world }, false),
{
}

} // verus!
