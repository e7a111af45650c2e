use rpg_core::constants::NAME_MAX_LENGTH;
use rpg_core::tabletop::{Alignment, Class, Race};
use rpg_core::ui::menu::{
    can_go_left, is_currently_editing_anything, navigate_menu_down, navigate_menu_in,
    navigate_menu_left, navigate_menu_out, navigate_menu_right, navigate_menu_up, Dropdown, Menu,
    MenuData, MenuItem, MenuType, NewCharacter, PointBuy, TestMenu, TextField,
};
use rpg_core::ui::menu_focus::{new_character, test_window, FocusIndex};

fn words(list: &[&str]) -> Vec<String> {
    list.iter().map(|word| String::from(*word)).collect()
}

fn selected_dropdown(menu: &TestMenu) -> &Dropdown {
    match menu.get_currently_selected_element() {
        MenuItem::Dropdown(dropdown) => dropdown,
        _ => panic!("the element in focus is no dropdown"),
    }
}

fn selected_point_buy(menu: &TestMenu) -> &PointBuy {
    match menu.get_currently_selected_element() {
        MenuItem::PointBuy(point_buy) => point_buy,
        _ => panic!("the element in focus is no point buy"),
    }
}

fn selected_text_field(menu: &TestMenu) -> &TextField {
    match menu.get_currently_selected_element() {
        MenuItem::TextField(text_field) => text_field,
        _ => panic!("the element in focus is no text field"),
    }
}

#[test]
fn a_dropdown_is_as_wide_as_its_widest_choice() {
    let dropdown = Dropdown::new(String::from("Pick"), words(&["a", "abcd", "ab"]));
    assert_eq!(dropdown.size, 4);
    assert_eq!(dropdown.selected_item, 0);
    assert!(!dropdown.editing);
    assert_eq!(dropdown.label, "Pick");
    assert_eq!(dropdown.choices, words(&["a", "abcd", "ab"]));
    let empty = Dropdown::new(String::from("None"), Vec::new());
    assert_eq!(empty.size, 0);
    let bytes = Dropdown::new(String::from("Bytes"), words(&["abc", "äö"]));
    assert_eq!(bytes.size, 4);
}

#[test]
fn the_width_of_a_dropdown_follows_its_choices() {
    let mut dropdown = Dropdown::new(String::from("Pick"), words(&["abc"]));
    dropdown.choices.push(String::from("abcdefg"));
    dropdown.selected_item = 1;
    dropdown.editing = true;
    assert_eq!(dropdown.size, 3);
    dropdown.recalculate_size();
    assert_eq!(dropdown.size, 7);
    assert_eq!(dropdown.selected_item, 1);
    assert!(dropdown.editing);
    dropdown.choices.clear();
    dropdown.recalculate_size();
    assert_eq!(dropdown.size, 0);
}

#[test]
fn a_new_point_buy_has_its_whole_budget() {
    let point_buy = PointBuy::new();
    assert_eq!(point_buy.internal_focus, 0);
    assert_eq!(point_buy.stat_points, 27);
    assert_eq!(point_buy.stats.charisma, 8);
    assert_eq!(point_buy.stats.constitution, 8);
    assert_eq!(point_buy.stats.dexterity, 8);
    assert_eq!(point_buy.stats.intelligence, 8);
    assert_eq!(point_buy.stats.strength, 8);
    assert_eq!(point_buy.stats.wisdom, 8);
}

#[test]
fn a_new_text_field_is_empty() {
    let field = TextField::new(String::from("Name"), 12);
    assert_eq!(field.label, "Name");
    assert_eq!(field.max_length, 12);
    assert_eq!(field.value, "");
    assert!(!field.editing);
}

#[test]
fn the_test_menu_has_one_element_of_each_kind() {
    let menu = TestMenu::new();
    assert_eq!(menu.items.len(), test_window::FOCUS_INDEX_SIZE);
    assert_eq!(menu.get_focus_index(), 0);
    assert_eq!(menu.get_max_focus_index(), 2);
    assert!(!menu.wraps_focus());
    assert_eq!(menu.get_menu_type(), MenuType::TestMenu);
    assert!(menu.is_well_formed());
    assert!(!menu.editing_anything());
    match menu.get_focusable(test_window::DROPDOWN as FocusIndex) {
        MenuItem::Dropdown(dropdown) => {
            assert_eq!(dropdown.label, "Dropdown");
            assert_eq!(
                dropdown.choices,
                words(&[
                    "Foo",
                    "Bar",
                    "Double Foo",
                    "Clown Car",
                    "Warlock",
                    "Ternary",
                    "Baz",
                    "Neptune",
                    "Green"
                ])
            );
            assert_eq!(dropdown.size, 10);
            assert_eq!(dropdown.selected_item, 0);
        },
        _ => panic!("the first element is a dropdown"),
    }
    match menu.get_focusable(test_window::TEXT_FIELD as FocusIndex) {
        MenuItem::TextField(text_field) => {
            assert_eq!(text_field.label, "Player Name");
            assert_eq!(text_field.max_length, NAME_MAX_LENGTH);
            assert_eq!(text_field.value, "");
        },
        _ => panic!("the second element is a text field"),
    }
    match menu.get_focusable(test_window::POINT_BUY as FocusIndex) {
        MenuItem::PointBuy(point_buy) => assert_eq!(point_buy.stat_points, 27),
        _ => panic!("the third element is a point buy"),
    }
}

#[test]
fn the_menu_for_a_new_character_offers_every_class_race_and_alignment() {
    let mut menu = NewCharacter::new();
    assert_eq!(menu.items.len(), new_character::FOCUS_INDEX_SIZE);
    assert_eq!(menu.get_focus_index(), 0);
    assert_eq!(menu.get_max_focus_index(), 4);
    assert!(!menu.wraps_focus());
    assert_eq!(menu.get_menu_type(), MenuType::NewCharacter);
    assert!(menu.is_well_formed());
    match menu.get_focusable(new_character::NAME as FocusIndex) {
        MenuItem::TextField(name) => {
            assert_eq!(name.label, "Name");
            assert_eq!(name.max_length, NAME_MAX_LENGTH);
        },
        _ => panic!("the name is a text field"),
    }
    match menu.get_focusable(new_character::CLASS as FocusIndex) {
        MenuItem::Dropdown(class) => {
            assert_eq!(class.label, "Class");
            assert_eq!(class.choices, Class::names());
            assert_eq!(class.choices[10], "Warlock");
            assert_eq!(class.size, 9);
        },
        _ => panic!("the class is a dropdown"),
    }
    match menu.get_focusable(new_character::RACE as FocusIndex) {
        MenuItem::Dropdown(race) => {
            assert_eq!(race.label, "Race");
            assert_eq!(race.choices, Race::names());
            assert_eq!(race.size, 10);
        },
        _ => panic!("the race is a dropdown"),
    }
    match menu.get_focusable_mut(new_character::ALIGNMENT as FocusIndex) {
        MenuItem::Dropdown(alignment) => {
            assert_eq!(alignment.label, "Alignment");
            assert_eq!(alignment.choices, Alignment::names());
            assert_eq!(alignment.size, 15);
        },
        _ => panic!("the alignment is a dropdown"),
    }
    match menu.get_focusable(new_character::STATS as FocusIndex) {
        MenuItem::PointBuy(stats) => assert_eq!(stats.internal_focus, 0),
        _ => panic!("the scores are a point buy"),
    }
    match menu.get_currently_selected_element() {
        MenuItem::TextField(name) => assert_eq!(name.label, "Name"),
        _ => panic!("the focus starts on the name"),
    }
}

#[test]
fn the_focus_stops_at_both_ends() {
    let mut menu = NewCharacter::new();
    menu.previous_focus();
    assert_eq!(menu.get_focus_index(), 0);
    for expected in [1, 2, 3, 4, 4, 4] {
        menu.next_focus();
        assert_eq!(menu.get_focus_index(), expected);
    }
    for expected in [3, 2, 1, 0, 0] {
        menu.previous_focus();
        assert_eq!(menu.get_focus_index(), expected);
    }
    let menus = MenuData::new();
    assert_eq!(Menu::get_focus_index(&menus.test_menu), 0);
    assert_eq!(menus.new_character.get_focus_index(), 0);
}

#[test]
fn a_menu_without_elements_is_not_well_formed() {
    let mut menu = TestMenu::new();
    menu.items.clear();
    assert!(!menu.is_well_formed());
    let mut menu = NewCharacter::new();
    menu.next_focus();
    menu.next_focus();
    menu.items.truncate(2);
    assert!(!menu.is_well_formed());
    menu.previous_focus();
    assert!(menu.is_well_formed());
}

#[test]
fn moving_in_and_out_of_a_dropdown() {
    let mut menu = TestMenu::new();
    assert!(!is_currently_editing_anything(&menu));
    navigate_menu_in(&mut menu);
    assert!(selected_dropdown(&menu).editing);
    assert!(is_currently_editing_anything(&menu));
    assert!(menu.editing_anything());
    navigate_menu_down(&mut menu);
    navigate_menu_down(&mut menu);
    assert_eq!(selected_dropdown(&menu).selected_item, 2);
    assert_eq!(menu.get_focus_index(), 0);
    navigate_menu_up(&mut menu);
    assert_eq!(selected_dropdown(&menu).selected_item, 1);
    navigate_menu_up(&mut menu);
    navigate_menu_up(&mut menu);
    assert_eq!(selected_dropdown(&menu).selected_item, 0);
    assert_eq!(menu.get_focus_index(), 0);
    navigate_menu_in(&mut menu);
    assert!(!selected_dropdown(&menu).editing);
    navigate_menu_in(&mut menu);
    navigate_menu_out(&mut menu);
    assert!(!selected_dropdown(&menu).editing);
    navigate_menu_out(&mut menu);
    assert!(!selected_dropdown(&menu).editing);
    assert!(!menu.editing_anything());
}

#[test]
fn an_open_dropdown_can_step_just_beyond_its_last_choice() {
    let mut menu = TestMenu::new();
    navigate_menu_in(&mut menu);
    for _ in 0..20 {
        navigate_menu_down(&mut menu);
    }
    assert_eq!(selected_dropdown(&menu).selected_item, 9);
    assert_eq!(menu.get_focus_index(), 0);
}

#[test]
fn a_closed_element_passes_moves_on_to_the_menu() {
    let mut menu = TestMenu::new();
    navigate_menu_down(&mut menu);
    assert_eq!(menu.get_focus_index(), 1);
    assert_eq!(selected_text_field(&menu).label, "Player Name");
    navigate_menu_in(&mut menu);
    assert!(selected_text_field(&menu).editing);
    navigate_menu_down(&mut menu);
    navigate_menu_up(&mut menu);
    assert_eq!(menu.get_focus_index(), 1);
    navigate_menu_out(&mut menu);
    assert!(!selected_text_field(&menu).editing);
    navigate_menu_up(&mut menu);
    assert_eq!(menu.get_focus_index(), 0);
    assert_eq!(selected_dropdown(&menu).selected_item, 0);
    navigate_menu_left(&mut menu);
    navigate_menu_right(&mut menu);
    assert_eq!(selected_dropdown(&menu).selected_item, 0);
    assert_eq!(menu.get_focus_index(), 0);
}

#[test]
fn a_point_buy_moves_through_its_scores_first() {
    let mut menu = TestMenu::new();
    navigate_menu_down(&mut menu);
    navigate_menu_down(&mut menu);
    assert_eq!(menu.get_focus_index(), 2);
    assert_eq!(selected_point_buy(&menu).internal_focus, 0);
    for expected in [1, 2, 3, 4, 5, 5, 5] {
        navigate_menu_down(&mut menu);
        assert_eq!(selected_point_buy(&menu).internal_focus, expected);
        assert_eq!(menu.get_focus_index(), 2);
    }
    for expected in [4, 3, 2, 1, 0] {
        navigate_menu_up(&mut menu);
        assert_eq!(selected_point_buy(&menu).internal_focus, expected);
        assert_eq!(menu.get_focus_index(), 2);
    }
    navigate_menu_up(&mut menu);
    assert_eq!(menu.get_focus_index(), 1);
    navigate_menu_in(&mut menu);
    navigate_menu_out(&mut menu);
    assert!(!menu.editing_anything());
}

#[test]
fn left_and_right_sell_and_buy_the_score_in_focus() {
    let mut menu = TestMenu::new();
    navigate_menu_down(&mut menu);
    navigate_menu_down(&mut menu);
    navigate_menu_down(&mut menu);
    navigate_menu_down(&mut menu);
    assert_eq!(selected_point_buy(&menu).internal_focus, 2);
    for (value, points) in [(9, 26), (10, 25), (11, 24), (12, 23), (13, 22), (14, 20), (15, 18)] {
        navigate_menu_right(&mut menu);
        assert_eq!(selected_point_buy(&menu).stats.dexterity, value);
        assert_eq!(selected_point_buy(&menu).stat_points, points);
    }
    navigate_menu_right(&mut menu);
    assert_eq!(selected_point_buy(&menu).stats.dexterity, 15);
    assert_eq!(selected_point_buy(&menu).stat_points, 18);
    assert!(can_go_left(menu.get_currently_selected_element()));
    navigate_menu_left(&mut menu);
    assert_eq!(selected_point_buy(&menu).stats.dexterity, 14);
    assert_eq!(selected_point_buy(&menu).stat_points, 20);
    for _ in 0..10 {
        navigate_menu_left(&mut menu);
    }
    assert_eq!(selected_point_buy(&menu).stats.dexterity, 8);
    assert_eq!(selected_point_buy(&menu).stat_points, 27);
    assert_eq!(selected_point_buy(&menu).stats.charisma, 8);
    assert_eq!(selected_point_buy(&menu).stats.wisdom, 8);
}

#[test]
fn a_point_buy_runs_out_of_points() {
    let mut menu = TestMenu::new();
    navigate_menu_down(&mut menu);
    navigate_menu_down(&mut menu);
    for _ in 0..6 {
        for _ in 0..7 {
            navigate_menu_right(&mut menu);
        }
        navigate_menu_down(&mut menu);
    }
    let point_buy = selected_point_buy(&menu);
    assert_eq!(point_buy.stats.charisma, 15);
    assert_eq!(point_buy.stats.constitution, 15);
    assert_eq!(point_buy.stats.dexterity, 15);
    assert_eq!(point_buy.stats.intelligence, 8);
    assert_eq!(point_buy.stats.strength, 8);
    assert_eq!(point_buy.stats.wisdom, 8);
    assert_eq!(point_buy.stat_points, 0);
}

#[test]
fn a_focus_beyond_the_scores_buys_nothing_for_a_point() {
    let mut menu = TestMenu::new();
    navigate_menu_down(&mut menu);
    navigate_menu_down(&mut menu);
    match menu.get_currently_selected_element_mut() {
        MenuItem::PointBuy(point_buy) => point_buy.internal_focus = 6,
        _ => panic!("the last element is a point buy"),
    }
    navigate_menu_right(&mut menu);
    assert_eq!(selected_point_buy(&menu).stat_points, 26);
    assert_eq!(selected_point_buy(&menu).stats.wisdom, 8);
    navigate_menu_left(&mut menu);
    assert_eq!(selected_point_buy(&menu).stat_points, 26);
    navigate_menu_down(&mut menu);
    assert_eq!(selected_point_buy(&menu).internal_focus, 6);
    assert_eq!(menu.get_focus_index(), 2);
}

#[test]
fn a_move_left_is_not_possible_where_the_points_would_overflow() {
    let mut item = MenuItem::PointBuy(PointBuy::new());
    assert!(can_go_left(&item));
    if let MenuItem::PointBuy(point_buy) = &mut item {
        point_buy.stats.charisma = 14;
        point_buy.stat_points = 254;
    }
    assert!(!can_go_left(&item));
    if let MenuItem::PointBuy(point_buy) = &mut item {
        point_buy.stats.charisma = 13;
    }
    assert!(can_go_left(&item));
    if let MenuItem::PointBuy(point_buy) = &mut item {
        point_buy.stat_points = 255;
    }
    assert!(!can_go_left(&item));
    if let MenuItem::PointBuy(point_buy) = &mut item {
        point_buy.stats.charisma = 8;
    }
    assert!(can_go_left(&item));
    assert!(can_go_left(&MenuItem::TextField(TextField::new(String::from("x"), 3))));
}

#[test]
fn no_move_is_made_in_a_menu_that_is_not_well_formed() {
    let mut menu = TestMenu::new();
    menu.items.clear();
    navigate_menu_down(&mut menu);
    navigate_menu_up(&mut menu);
    navigate_menu_in(&mut menu);
    navigate_menu_out(&mut menu);
    navigate_menu_left(&mut menu);
    navigate_menu_right(&mut menu);
    assert_eq!(menu.get_focus_index(), 0);
    assert!(menu.items.is_empty());
    let mut menu = NewCharacter::new();
    menu.next_focus();
    menu.next_focus();
    menu.next_focus();
    menu.items.truncate(3);
    navigate_menu_up(&mut menu);
    navigate_menu_down(&mut menu);
    navigate_menu_in(&mut menu);
    assert_eq!(menu.get_focus_index(), 3);
    match menu.get_focusable(1) {
        MenuItem::Dropdown(class) => assert!(!class.editing),
        _ => panic!("the class is a dropdown"),
    }
}

#[test]
fn a_move_left_that_would_overflow_the_points_is_declined() {
    let mut menu = TestMenu::new();
    navigate_menu_down(&mut menu);
    navigate_menu_down(&mut menu);
    match menu.get_currently_selected_element_mut() {
        MenuItem::PointBuy(point_buy) => {
            point_buy.stats.charisma = 10;
            point_buy.stat_points = 255;
        },
        _ => panic!("the last element is a point buy"),
    }
    navigate_menu_left(&mut menu);
    assert_eq!(selected_point_buy(&menu).stats.charisma, 10);
    assert_eq!(selected_point_buy(&menu).stat_points, 255);
    navigate_menu_right(&mut menu);
    assert_eq!(selected_point_buy(&menu).stats.charisma, 11);
    assert_eq!(selected_point_buy(&menu).stat_points, 254);
    navigate_menu_left(&mut menu);
    assert_eq!(selected_point_buy(&menu).stats.charisma, 10);
    assert_eq!(selected_point_buy(&menu).stat_points, 255);
}
