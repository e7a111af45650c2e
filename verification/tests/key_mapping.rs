use rpg_core::action::{Action, ActionRequest, CloseMenu, Go, NavigateMenu, NewGame, Noun,
    OpenMenu, Quit};
use rpg_core::entity::EntityID;
use rpg_core::game::{Game, GameState};
use rpg_core::ui::menu::{navigate_menu_down, navigate_menu_in, MenuItem, MenuType};
use rpg_core::ui::terminal::key_mapping::{handle_key, map_input, KeyCode, KeyEvent, KeyEventKind};

fn press(code: KeyCode) -> KeyEvent {
    KeyEvent { code, kind: KeyEventKind::Press }
}

fn game_in(state: GameState) -> Game {
    let mut game = Game::new();
    game.state = state;
    game
}

fn same_action(left: Action, right: Action) -> bool {
    left == right
}

fn expect(asked: Option<ActionRequest>, actor: EntityID, action: Action) -> Noun {
    let asked = asked.expect("the key asks for something");
    assert_eq!(asked.actor, actor);
    assert!(same_action(asked.action, action));
    assert!(matches!(asked.second, Noun::Nothing));
    asked.noun
}

fn test_menu_text(game: &Game) -> String {
    match game.menu_data.test_menu.get_currently_selected_element() {
        MenuItem::TextField(text_field) => text_field.value.clone(),
        _ => panic!("the element in focus is no text field"),
    }
}

fn game_editing_the_name() -> Game {
    let mut game = game_in(GameState::Menu(MenuType::TestMenu));
    navigate_menu_down(&mut game.menu_data.test_menu);
    navigate_menu_in(&mut game.menu_data.test_menu);
    game
}

#[test]
fn the_arrows_navigate_every_menu() {
    for menu in [
        MenuType::Character,
        MenuType::Main,
        MenuType::NewCharacter,
        MenuType::Pause,
        MenuType::TestMenu,
    ] {
        let mut game = game_in(GameState::Menu(menu));
        let special = game.special_entities;
        let keys = [
            (KeyCode::Up, special.north),
            (KeyCode::Right, special.east),
            (KeyCode::Down, special.south),
            (KeyCode::Left, special.west),
            (KeyCode::Esc, special.up),
            (KeyCode::Enter, special.down),
        ];
        for (code, direction) in keys {
            let asked = map_input(press(code), &mut game);
            let noun = expect(asked, special.player, Action::NavigateMenu(NavigateMenu));
            assert!(matches!(noun, Noun::Entity(id) if id == direction));
        }
    }
}

#[test]
fn the_main_menu_has_its_letters() {
    let mut game = game_in(GameState::Menu(MenuType::Main));
    let player = game.special_entities.player;
    for code in [KeyCode::Char('p'), KeyCode::Char('P')] {
        let noun = expect(map_input(press(code), &mut game), player, Action::NewGame(NewGame));
        assert!(matches!(noun, Noun::Nothing));
    }
    for code in [KeyCode::Char('q'), KeyCode::Char('Q')] {
        let noun = expect(map_input(press(code), &mut game), player, Action::Quit(Quit));
        assert!(matches!(noun, Noun::Nothing));
    }
    for code in [KeyCode::Char('t'), KeyCode::Char('T')] {
        let noun = expect(map_input(press(code), &mut game), player, Action::OpenMenu(OpenMenu));
        assert!(matches!(noun, Noun::Menu(MenuType::TestMenu)));
    }
    for code in [KeyCode::Char('n'), KeyCode::Char('N')] {
        let noun = expect(map_input(press(code), &mut game), player, Action::OpenMenu(OpenMenu));
        assert!(matches!(noun, Noun::Menu(MenuType::NewCharacter)));
    }
    for code in [KeyCode::Char('x'), KeyCode::Backspace, KeyCode::Tab, KeyCode::F(1)] {
        assert!(map_input(press(code), &mut game).is_none());
    }
    assert_eq!(game.state, GameState::Menu(MenuType::Main));
}

#[test]
fn the_number_pad_goes_on_the_map() {
    let mut game = game_in(GameState::Running);
    let special = game.special_entities;
    let keys = [
        ('7', special.north_west),
        ('8', special.north),
        ('9', special.north_east),
        ('4', special.west),
        ('6', special.east),
        ('1', special.south_west),
        ('2', special.south),
        ('3', special.south_east),
    ];
    for (key, direction) in keys {
        let asked = map_input(press(KeyCode::Char(key)), &mut game);
        let noun = expect(asked, special.player, Action::Go(Go));
        assert!(matches!(noun, Noun::Entity(id) if id == direction));
    }
    let noun
        = expect(map_input(press(KeyCode::Esc), &mut game), special.player, Action::Quit(Quit));
    assert!(matches!(noun, Noun::Nothing));
    for code in [KeyCode::Char('5'), KeyCode::Char('0'), KeyCode::Up, KeyCode::Enter] {
        assert!(map_input(press(code), &mut game).is_none());
    }
}

#[test]
fn no_key_asks_for_anything_while_paused_or_quitting() {
    for state in [GameState::Paused, GameState::QuitRequested] {
        let mut game = game_in(state);
        for code in [KeyCode::Esc, KeyCode::Up, KeyCode::Char('q'), KeyCode::Char('8')] {
            assert!(map_input(press(code), &mut game).is_none());
        }
        assert_eq!(game.state, state);
    }
}

#[test]
fn other_menus_have_no_keys_of_their_own() {
    for menu in [MenuType::Character, MenuType::NewCharacter, MenuType::Pause, MenuType::TestMenu]
    {
        let mut game = game_in(GameState::Menu(menu));
        for code in [KeyCode::Char('p'), KeyCode::Char('q'), KeyCode::Tab, KeyCode::Backspace] {
            assert!(map_input(press(code), &mut game).is_none());
        }
    }
}

#[test]
fn characters_go_to_the_text_field_that_is_edited() {
    let mut game = game_editing_the_name();
    for character in ['A', 'd', 'a', ' ', 'ß'] {
        assert!(map_input(press(KeyCode::Char(character)), &mut game).is_none());
    }
    assert_eq!(test_menu_text(&game), "Ada ß");
    assert!(map_input(press(KeyCode::Backspace), &mut game).is_none());
    assert_eq!(test_menu_text(&game), "Ada ");
    assert!(map_input(press(KeyCode::Backspace), &mut game).is_none());
    assert_eq!(test_menu_text(&game), "Ada");
    for _ in 0..5 {
        assert!(map_input(press(KeyCode::Backspace), &mut game).is_none());
    }
    assert_eq!(test_menu_text(&game), "");
    assert_eq!(game.state, GameState::Menu(MenuType::TestMenu));
    assert_eq!(game.action_queue.len(), 0);
}

#[test]
fn a_text_field_takes_no_more_than_its_length() {
    let mut game = game_editing_the_name();
    for _ in 0..40 {
        assert!(map_input(press(KeyCode::Char('x')), &mut game).is_none());
    }
    assert_eq!(test_menu_text(&game), "x".repeat(32));
    let mut game = game_editing_the_name();
    for _ in 0..31 {
        map_input(press(KeyCode::Char('x')), &mut game);
    }
    map_input(press(KeyCode::Char('ß')), &mut game);
    assert_eq!(test_menu_text(&game).len(), 33);
    map_input(press(KeyCode::Char('y')), &mut game);
    assert_eq!(test_menu_text(&game).len(), 33);
}

#[test]
fn a_text_field_that_is_not_edited_takes_nothing() {
    let mut game = game_in(GameState::Menu(MenuType::TestMenu));
    navigate_menu_down(&mut game.menu_data.test_menu);
    assert!(map_input(press(KeyCode::Char('a')), &mut game).is_none());
    assert!(map_input(press(KeyCode::Backspace), &mut game).is_none());
    assert_eq!(test_menu_text(&game), "");
    let mut game = game_editing_the_name();
    game.state = GameState::Menu(MenuType::Main);
    assert!(map_input(press(KeyCode::Char('a')), &mut game).is_none());
    assert_eq!(test_menu_text(&game), "");
    game.state = GameState::Running;
    assert!(map_input(press(KeyCode::Char('a')), &mut game).is_none());
    assert_eq!(test_menu_text(&game), "");
}

#[test]
fn what_a_pressed_key_asks_for_waits_in_the_queue() {
    let mut game = game_in(GameState::Running);
    let special = game.special_entities;
    handle_key(press(KeyCode::Char('6')), &mut game);
    handle_key(press(KeyCode::Char('5')), &mut game);
    handle_key(press(KeyCode::Esc), &mut game);
    assert_eq!(game.action_queue.len(), 2);
    let first = game.action_queue.pop_front();
    let noun = expect(first, special.player, Action::Go(Go));
    assert!(matches!(noun, Noun::Entity(id) if id == special.east));
    let second = game.action_queue.pop_front();
    expect(second, special.player, Action::Quit(Quit));
    assert!(game.action_queue.is_empty());
}

#[test]
fn keys_that_are_released_or_held_ask_for_nothing() {
    let mut game = game_editing_the_name();
    for kind in [KeyEventKind::Release, KeyEventKind::Repeat] {
        handle_key(KeyEvent { code: KeyCode::Char('a'), kind }, &mut game);
        handle_key(KeyEvent { code: KeyCode::Up, kind }, &mut game);
    }
    assert_eq!(game.action_queue.len(), 0);
    assert_eq!(test_menu_text(&game), "");
    handle_key(press(KeyCode::Char('a')), &mut game);
    handle_key(press(KeyCode::Up), &mut game);
    assert_eq!(test_menu_text(&game), "a");
    assert_eq!(game.action_queue.len(), 1);
    let asked = game.action_queue.pop_front();
    let player = game.special_entities.player;
    expect(asked, player, Action::NavigateMenu(NavigateMenu));
    assert!(same_action(Action::CloseMenu(CloseMenu), Action::CloseMenu(CloseMenu)));
}
