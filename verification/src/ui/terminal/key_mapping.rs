//! What each key asks for, in each state of the session.

use vstd::prelude::*;
use crate::action::{
    request_accepted,
    Action,
    ActionRequest,
    CloseMenu,
    Go,
    NavigateMenu,
    NewGame,
    Noun,
    OpenMenu,
    Quit,
};
use crate::entity::EntityID;
use crate::game::{Game, GameState, SpecialEntities, World};
use crate::ui::menu::{byte_len, Menu, MenuItem, MenuState, MenuType};

verus! {

/// A key of the keyboard.
#[derive(Clone, Copy, Debug, PartialEq, Eq, Hash, Structural)]
pub enum KeyCode {
    Backspace,
    Enter,
    Left,
    Right,
    Up,
    Down,
    Home,
    End,
    PageUp,
    PageDown,
    Tab,
    BackTab,
    Delete,
    Insert,
    F(u8),
    Char(char),
    Null,
    Esc,
    CapsLock,
    ScrollLock,
    NumLock,
    PrintScreen,
    Pause,
    Menu,
    KeypadBegin,
    Media,
    Modifier,
}

/// What happened to a key.
#[derive(Clone, Copy, Debug, PartialEq, Eq, Hash, Structural)]
pub enum KeyEventKind {
    Press,
    Repeat,
    Release,
}

/// A key and what happened to it.
#[derive(Clone, Copy, Debug, PartialEq, Eq, Hash, Structural)]
pub struct KeyEvent {
    pub code: KeyCode,
    pub kind: KeyEventKind,
}

/// Wraps `String::push`, which appends a character to the end of a string.
#[verifier::external_body]
fn string_push(text: &mut String, character: char)
    ensures
        final(text)@ == old(text)@.push(character),
{
    text.push(character)
}

/// Wraps `String::pop`, which removes the last character of a string and
/// returns it, and leaves an empty string as it is.
#[verifier::external_body]
fn string_pop(text: &mut String) -> (last: Option<char>)
    ensures
        final(text)@ == without_last(old(text)@),
        last == if old(text)@.len() > 0 {
            Some(old(text)@.last())
        } else {
            None
        },
{
    text.pop()
}

/// A text without its last character; the empty text as it is.
pub open spec fn without_last(text: Seq<char>) -> Seq<char> {
    if text.len() > 0 {
        text.drop_last()
    } else {
        text
    }
}

/// A request of an actor that is about one thing at most.
pub open spec fn request_of(actor: EntityID, action: Action, noun: Noun) -> ActionRequest {
    ActionRequest { actor, action, noun, second: Noun::Nothing }
}

/// The direction that a key stands for in a menu: the arrows go north, east,
/// south and west, escape goes up and enter goes down.
pub open spec fn menu_direction(special: SpecialEntities, code: KeyCode) -> Option<EntityID> {
    match code {
        KeyCode::Up => Some(special.north),
        KeyCode::Right => Some(special.east),
        KeyCode::Down => Some(special.south),
        KeyCode::Left => Some(special.west),
        KeyCode::Esc => Some(special.up),
        KeyCode::Enter => Some(special.down),
        _ => None,
    }
}

/// What a key asks for in the main menu: `p` plays, `q` quits, `t` opens the
/// test menu and `n` the menu for a new character, in either case.
pub open spec fn main_menu_request(player: EntityID, code: KeyCode) -> Option<ActionRequest> {
    if code == KeyCode::Char('p') || code == KeyCode::Char('P') {
        Some(request_of(player, Action::NewGame(NewGame), Noun::Nothing))
    } else if code == KeyCode::Char('q') || code == KeyCode::Char('Q') {
        Some(request_of(player, Action::Quit(Quit), Noun::Nothing))
    } else if code == KeyCode::Char('t') || code == KeyCode::Char('T') {
        Some(request_of(player, Action::OpenMenu(OpenMenu), Noun::Menu(MenuType::TestMenu)))
    } else if code == KeyCode::Char('n') || code == KeyCode::Char('N') {
        Some(request_of(player, Action::OpenMenu(OpenMenu), Noun::Menu(MenuType::NewCharacter)))
    } else {
        None
    }
}

/// The direction that a key stands for on the map: the digits of the number
/// pad, 8 up and 2 down.
pub open spec fn map_direction(special: SpecialEntities, code: KeyCode) -> Option<EntityID> {
    if code == KeyCode::Char('7') {
        Some(special.north_west)
    } else if code == KeyCode::Char('8') {
        Some(special.north)
    } else if code == KeyCode::Char('9') {
        Some(special.north_east)
    } else if code == KeyCode::Char('4') {
        Some(special.west)
    } else if code == KeyCode::Char('6') {
        Some(special.east)
    } else if code == KeyCode::Char('1') {
        Some(special.south_west)
    } else if code == KeyCode::Char('2') {
        Some(special.south)
    } else if code == KeyCode::Char('3') {
        Some(special.south_east)
    } else {
        None
    }
}

/// What a key asks for while the game runs: escape quits, and a digit of the
/// number pad makes the player go in its direction.
pub open spec fn ingame_request(special: SpecialEntities, code: KeyCode) -> Option<ActionRequest> {
    if code == KeyCode::Esc {
        Some(request_of(special.player, Action::Quit(Quit), Noun::Nothing))
    } else {
        match map_direction(special, code) {
            Some(direction) => Some(
                request_of(special.player, Action::Go(Go), Noun::Entity(direction)),
            ),
            None => None,
        }
    }
}

/// What a key asks for in a menu. A key that stands for a direction moves in
/// the menu. Of the other keys the main menu has its own, and every other
/// menu asks for nothing: escape, which would close it, is a direction.
pub open spec fn menu_request(world: World, menu: MenuType,
    code: KeyCode) -> Option<ActionRequest> {
    let special = world.special_entities;
    match menu_direction(special, code) {
        Some(direction) => Some(
            request_of(special.player, Action::NavigateMenu(NavigateMenu), Noun::Entity(direction)),
        ),
        None => match menu {
            MenuType::Main => main_menu_request(special.player, code),
            _ => None,
        },
    }
}

/// What a key asks for in a world.
pub open spec fn mapped_request(world: World, code: KeyCode) -> Option<ActionRequest> {
    match world.state {
        GameState::Menu(menu) => menu_request(world, menu, code),
        GameState::Paused => None,
        GameState::Running => ingame_request(world.special_entities, code),
        GameState::QuitRequested => None,
    }
}

/// The text of an element after a key, where the key changes it: a text
/// field that is being edited takes a character while it has room for one
/// more byte, and gives up its last character to backspace while it has any.
pub open spec fn text_after(item: MenuItem, code: KeyCode) -> Option<Seq<char>> {
    match item {
        MenuItem::TextField(text_field) => match code {
            KeyCode::Char(character) => if text_field.editing && byte_len(text_field.value@)
                < text_field.max_length as usize {
                Some(text_field.value@.push(character))
            } else {
                None
            },
            KeyCode::Backspace => if text_field.editing && byte_len(text_field.value@) > 0 {
                Some(without_last(text_field.value@))
            } else {
                None
            },
            _ => None,
        },
        _ => None,
    }
}

/// Whether an element is a text field, and another is the same field with a
/// given text.
pub open spec fn has_text(before: MenuItem, after: MenuItem, text: Seq<char>) -> bool {
    &&& before matches MenuItem::TextField(old_field)
    &&& after matches MenuItem::TextField(new_field)
    &&& new_field.value@ == text
    &&& new_field.editing == old_field.editing
    &&& new_field.label == old_field.label
    &&& new_field.max_length == old_field.max_length
}

/// Whether a key reaches the element in focus of the test menu: the session
/// is in the test menu, and the key is a character or backspace.
pub open spec fn reaches_test_menu(world: World, code: KeyCode) -> bool {
    world.state == GameState::Menu(MenuType::TestMenu) && (code is Char || code is Backspace)
}

/// The text of the element in focus of the test menu after a key, where the
/// key changes it.
pub open spec fn edit_of(world: World, code: KeyCode) -> Option<Seq<char>> {
    if reaches_test_menu(world, code) {
        text_after(world.test_menu.selected(), code)
    } else {
        None
    }
}

/// Whether a world is what another becomes by a key: the key may edit the
/// text of the element in focus of the test menu, and changes nothing else.
pub open spec fn edited(before: World, after: World, code: KeyCode) -> bool {
    match edit_of(before, code) {
        Some(text) => {
            &&& after == World { test_menu: after.test_menu, ..before }
            &&& after.test_menu == before.test_menu.with_selected(after.test_menu.selected())
            &&& has_text(before.test_menu.selected(), after.test_menu.selected(), text)
        },
        None => after == before,
    }
}

fn request(actor: EntityID, action: Action, noun: Noun) -> (made: ActionRequest)
    ensures
        made == request_of(actor, action, noun),
{
    ActionRequest { actor, action, noun, second: Noun::Nothing }
}

/// What a key asks for, and what it does to the text that is being edited.
/// Only a key that reaches the element in focus of the test menu needs that
/// menu to have one.
pub fn map_input(event: KeyEvent, game: &mut Game) -> (asked: Option<ActionRequest>)
    requires
        reaches_test_menu(old(game)@, event.code) ==> old(game)@.test_menu.wf(),
    ensures
        asked == mapped_request(old(game)@, event.code),
        edited(old(game)@, final(game)@, event.code),
{
    match game.state {
        GameState::Menu(menu) => map_input_menu(menu, event, game),
        GameState::Paused => map_input_paused(event, game),
        GameState::Running => map_input_ingame(event, game),
        GameState::QuitRequested => None,
    }
}

fn map_input_menu(menu: MenuType, event: KeyEvent,
    game: &mut Game) -> (asked: Option<ActionRequest>)
    requires
        old(game)@.state == GameState::Menu(menu),
        reaches_test_menu(old(game)@, event.code) ==> old(game)@.test_menu.wf(),
    ensures
        asked == menu_request(old(game)@, menu, event.code),
        edited(old(game)@, final(game)@, event.code),
{
    let direction: Option<EntityID> = match event.code {
        KeyCode::Up => Some(game.special_entities.north),
        KeyCode::Right => Some(game.special_entities.east),
        KeyCode::Down => Some(game.special_entities.south),
        KeyCode::Left => Some(game.special_entities.west),
        KeyCode::Esc => Some(game.special_entities.up),
        KeyCode::Enter => Some(game.special_entities.down),
        _ => None,
    };
    match direction {
        Some(direction) => {
            return Some(
                request(
                    game.special_entities.player,
                    Action::NavigateMenu(NavigateMenu),
                    Noun::Entity(direction),
                ),
            );
        },
        None => {},
    }
    match menu {
        MenuType::Character => None,
        MenuType::Main => map_input_main_menu(event, game),
        MenuType::NewCharacter => map_input_new_character(event, game),
        MenuType::Pause => None,
        MenuType::TestMenu => map_input_test_menu(event, game),
    }
}

fn map_input_main_menu(event: KeyEvent, game: &Game) -> (asked: Option<ActionRequest>)
    ensures
        asked == main_menu_request(game.special_entities.player, event.code),
{
    let player: EntityID = game.special_entities.player;
    if event.code == KeyCode::Char('p') || event.code == KeyCode::Char('P') {
        return Some(request(player, Action::NewGame(NewGame), Noun::Nothing));
    }
    if event.code == KeyCode::Char('q') || event.code == KeyCode::Char('Q') {
        return Some(request(player, Action::Quit(Quit), Noun::Nothing));
    }
    if event.code == KeyCode::Char('t') || event.code == KeyCode::Char('T') {
        return Some(
            request(player, Action::OpenMenu(OpenMenu), Noun::Menu(MenuType::TestMenu)),
        );
    }
    if event.code == KeyCode::Char('n') || event.code == KeyCode::Char('N') {
        return Some(
            request(player, Action::OpenMenu(OpenMenu), Noun::Menu(MenuType::NewCharacter)),
        );
    }
    None
}

/// Escape closes the menu for a new character.
fn map_input_new_character(event: KeyEvent, game: &Game) -> (asked: Option<ActionRequest>)
    ensures
        asked == if event.code == KeyCode::Esc {
            Some(
                request_of(
                    game.special_entities.player,
                    Action::CloseMenu(CloseMenu),
                    Noun::Nothing,
                ),
            )
        } else {
            None
        },
{
    if event.code == KeyCode::Esc {
        return Some(
            request(game.special_entities.player, Action::CloseMenu(CloseMenu), Noun::Nothing),
        );
    }
    None
}

fn map_input_paused(event: KeyEvent, game: &Game) -> (asked: Option<ActionRequest>)
    ensures
        asked is None,
{
    None
}

fn map_input_ingame(event: KeyEvent, game: &Game) -> (asked: Option<ActionRequest>)
    ensures
        asked == ingame_request(game.special_entities, event.code),
{
    if event.code == KeyCode::Esc {
        return Some(request(game.special_entities.player, Action::Quit(Quit), Noun::Nothing));
    }
    let direction_key: Option<EntityID> = match event.code {
        KeyCode::Char('7') => Some(game.special_entities.north_west),
        KeyCode::Char('8') => Some(game.special_entities.north),
        KeyCode::Char('9') => Some(game.special_entities.north_east),
        KeyCode::Char('4') => Some(game.special_entities.west),
        KeyCode::Char('6') => Some(game.special_entities.east),
        KeyCode::Char('1') => Some(game.special_entities.south_west),
        KeyCode::Char('2') => Some(game.special_entities.south),
        KeyCode::Char('3') => Some(game.special_entities.south_east),
        _ => None,
    };
    match direction_key {
        Some(direction) => Some(
            request(game.special_entities.player, Action::Go(Go), Noun::Entity(direction)),
        ),
        None => None,
    }
}

/// In the test menu escape closes the menu unless something is being edited,
/// a character goes to the text field in focus, and backspace takes one away
/// from it.
fn map_input_test_menu(event: KeyEvent, game: &mut Game) -> (asked: Option<ActionRequest>)
    requires
        old(game)@.state == GameState::Menu(MenuType::TestMenu),
        reaches_test_menu(old(game)@, event.code) ==> old(game)@.test_menu.wf(),
    ensures
        asked == if event.code == KeyCode::Esc && !old(game)@.test_menu.editing_anything() {
            Some(
                request_of(
                    old(game).special_entities.player,
                    Action::CloseMenu(CloseMenu),
                    Noun::Nothing,
                ),
            )
        } else {
            None
        },
        edited(old(game)@, final(game)@, event.code),
{
    if event.code == KeyCode::Esc && !game.menu_data.test_menu.editing_anything() {
        return Some(
            request(game.special_entities.player, Action::CloseMenu(CloseMenu), Noun::Nothing),
        );
    }
    match event.code {
        KeyCode::Char(character) => {
            let element: &mut MenuItem =
                game.menu_data.test_menu.get_currently_selected_element_mut();
            match element {
                MenuItem::TextField(text_field) => {
                    if text_field.editing {
                        if text_field.value.as_str().len() < text_field.max_length as usize {
                            string_push(&mut text_field.value, character);
                            return None;
                        }
                    }
                },
                _ => {},
            };
        },
        KeyCode::Backspace => {
            let element: &mut MenuItem =
                game.menu_data.test_menu.get_currently_selected_element_mut();
            match element {
                MenuItem::TextField(text_field) => {
                    if text_field.editing {
                        if text_field.value.as_str().len() > 0 {
                            let _ = string_pop(&mut text_field.value);
                            return None;
                        }
                    }
                },
                _ => {},
            };
        },
        _ => {},
    }
    assert(game@ =~= old(game)@);
    None
}

/// Takes a key event: a key that was pressed may ask for something, which
/// then waits behind everything that was asked for before.
pub fn handle_key(event: KeyEvent, game: &mut Game)
    requires
        event.kind == KeyEventKind::Press && reaches_test_menu(old(game)@, event.code)
            ==> old(game)@.test_menu.wf(),
    ensures
        event.kind != KeyEventKind::Press ==> final(game)@ == old(game)@,
        event.kind == KeyEventKind::Press ==> edited(
            old(game)@,
            World { queue: old(game)@.queue, ..final(game)@ },
            event.code,
        ) && final(game)@.queue == match mapped_request(old(game)@, event.code) {
            Some(asked) => old(game)@.queue.push(asked),
            None => old(game)@.queue,
        },
{
    if event.kind != KeyEventKind::Press {
        return ;
    }
    let action: Option<ActionRequest> = map_input(event, game);
    match action {
        Some(asked) => {
            game.action_queue.push_back(asked);
        },
        None => {},
    }
}

/// Whatever a key asks for, in any world, is a request that its routine
/// accepts: a key opens menus only, and no key closes one.
pub proof fn lemma_mapped_request_accepted(world: World, code: KeyCode)
    ensures
        mapped_request(world, code) matches Some(asked) ==> request_accepted(world, asked),
{
}

} // verus!
