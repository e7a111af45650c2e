//! Menus: lists of elements of which one has the focus, and the moves that
//! the player makes in them.

use vstd::prelude::*;
use vstd::string::StringExecFns;
use crate::constants::NAME_MAX_LENGTH;
use crate::tabletop::{
    decreased_stat,
    increased_stat,
    point_buy_attempt_decrease,
    point_buy_attempt_increase,
    point_buy_cost,
    points_after_decrease,
    points_after_increase,
    Alignment,
    Class,
    Race,
    Stats,
    POINT_BUY_MIN,
    POINT_BUY_POINTS,
};
use crate::ui::menu_focus::FocusIndex;

verus! {

/// The number of bytes that a text takes in a string.
pub open spec fn byte_len(text: Seq<char>) -> usize {
    vstd::utf8::encode_utf8(text).len() as usize
}

/// Whether `size` is the width of the widest of the choices: no choice is
/// wider, and one is as wide, or there is none and the width is 0.
pub open spec fn is_widest(choices: Seq<String>, size: usize) -> bool {
    &&& forall|i: int| 0 <= i < choices.len() ==> byte_len((#[trigger] choices[i])@) <= size
    &&& choices.len() == 0 ==> size == 0
    &&& choices.len() > 0 ==> exists|i: int|
        0 <= i < choices.len() && byte_len((#[trigger] choices[i])@) == size
}

/// A list of choices of which one is selected.
pub struct Dropdown {
    pub choices: Vec<String>,
    pub editing: bool,
    pub label: String,
    pub selected_item: usize,
    pub size: usize,
}

impl Dropdown {
    /// A closed dropdown with its first choice selected, as wide as its widest
    /// choice.
    pub fn new(label: String, choices: Vec<String>) -> (dropdown: Self)
        ensures
            dropdown.choices == choices,
            dropdown.label == label,
            !dropdown.editing,
            dropdown.selected_item == 0,
            is_widest(choices@, dropdown.size),
    {
        let mut result = Self { choices, editing: false, label, selected_item: 0, size: 0 };
        result.recalculate_size();
        result
    }

    /// Sets the width to that of the widest choice, in bytes.
    pub fn recalculate_size(&mut self)
        ensures
            final(self).choices == old(self).choices,
            final(self).editing == old(self).editing,
            final(self).label == old(self).label,
            final(self).selected_item == old(self).selected_item,
            is_widest(old(self).choices@, final(self).size),
    {
        let mut max: usize = 0;
        let mut seen: usize = 0;
        while seen < self.choices.len()
            invariant
                *self == *old(self),
                seen <= self.choices@.len(),
                is_widest(self.choices@.take(seen as int), max),
            decreases self.choices@.len() - seen,
        {
            let len: usize = self.choices[seen].as_str().len();
            let ghost before = self.choices@.take(seen as int);
            let ghost after = self.choices@.take(seen + 1);
            proof {
                assert(after[seen as int] == self.choices@[seen as int]);
                assert(forall|i: int| 0 <= i < seen ==> after[i] == before[i]);
                if seen > 0 && len <= max {
                    let i = choose|i: int|
                        0 <= i < before.len() && byte_len((#[trigger] before[i])@) == max;
                    assert(after[i] == before[i]);
                }
            }
            if len > max {
                max = len;
            }
            seen = seen + 1;
        }
        proof {
            assert(self.choices@.take(seen as int) == self.choices@);
        }
        self.size = max;
    }
}

/// A screen of the game that is a menu.
#[derive(Clone, Copy, Debug, PartialEq, Eq, Structural)]
pub enum MenuType {
    Character,
    Main,
    NewCharacter,
    Pause,
    TestMenu,
}

/// Ability scores that the player buys with a budget of points.
pub struct PointBuy {
    pub internal_focus: FocusIndex,
    pub stat_points: u8,
    pub stats: Stats,
}

impl PointBuy {
    /// Every score at the minimum, the whole budget left, the first score in
    /// focus.
    pub fn new() -> (point_buy: Self)
        ensures
            point_buy.internal_focus == 0,
            point_buy.stat_points == POINT_BUY_POINTS,
            point_buy.stats == (Stats {
                charisma: POINT_BUY_MIN,
                constitution: POINT_BUY_MIN,
                dexterity: POINT_BUY_MIN,
                intelligence: POINT_BUY_MIN,
                strength: POINT_BUY_MIN,
                wisdom: POINT_BUY_MIN,
            }),
    {
        Self {
            internal_focus: 0,
            stat_points: POINT_BUY_POINTS,
            stats: Stats {
                charisma: POINT_BUY_MIN,
                constitution: POINT_BUY_MIN,
                dexterity: POINT_BUY_MIN,
                intelligence: POINT_BUY_MIN,
                strength: POINT_BUY_MIN,
                wisdom: POINT_BUY_MIN,
            },
        }
    }
}

pub struct TabMenu {
    pub tabs: Vec<String>,
    pub selected_tab: u8,
}

pub struct Table {
    pub headers: Vec<String>,
    pub rows: Vec<TableRow>,
}

pub struct TableRow {
    pub values: Vec<String>,
}

/// A line of text that the player can edit.
pub struct TextField {
    pub editing: bool,
    pub label: String,
    pub max_length: u16,
    pub value: String,
}

impl TextField {
    /// An empty field that is not being edited.
    pub fn new(label: String, max_length: u16) -> (field: Self)
        ensures
            !field.editing,
            field.label == label,
            field.max_length == max_length,
            field.value@ == Seq::<char>::empty(),
    {
        Self { editing: false, label, max_length, value: String::new() }
    }
}

/// An element of a menu.
pub enum MenuItem {
    Dropdown(Dropdown),
    PointBuy(PointBuy),
    TextField(TextField),
}

/// The score that a point buy has in focus; none of the six where the focus
/// is beyond them, which counts as a score of 0.
pub open spec fn focused_stat(point_buy: PointBuy) -> u8 {
    let stats = point_buy.stats;
    match point_buy.internal_focus {
        0 => stats.charisma,
        1 => stats.constitution,
        2 => stats.dexterity,
        3 => stats.intelligence,
        4 => stats.strength,
        5 => stats.wisdom,
        _ => 0,
    }
}

/// The scores with a new value for the one in focus; unchanged where the
/// focus is beyond the six.
pub open spec fn with_focused_stat(point_buy: PointBuy, value: u8) -> Stats {
    let stats = point_buy.stats;
    match point_buy.internal_focus {
        0 => Stats { charisma: value, ..stats },
        1 => Stats { constitution: value, ..stats },
        2 => Stats { dexterity: value, ..stats },
        3 => Stats { intelligence: value, ..stats },
        4 => Stats { strength: value, ..stats },
        5 => Stats { wisdom: value, ..stats },
        _ => stats,
    }
}

/// The index of the last of the six scores of a point buy.
pub open spec fn last_stat() -> FocusIndex {
    5
}

impl MenuItem {
    /// Whether the element is being edited. A point buy never is.
    pub open spec fn editing(self) -> bool {
        match self {
            MenuItem::Dropdown(dropdown) => dropdown.editing,
            MenuItem::PointBuy(_) => false,
            MenuItem::TextField(text_field) => text_field.editing,
        }
    }

    /// Whether the element takes a move down for itself: a dropdown or text
    /// field that is being edited, and a point buy whose focus is above its
    /// last score. Otherwise the move goes to the menu.
    pub open spec fn takes_down(self) -> bool {
        match self {
            MenuItem::Dropdown(dropdown) => dropdown.editing,
            MenuItem::PointBuy(point_buy) => point_buy.internal_focus < last_stat(),
            MenuItem::TextField(text_field) => text_field.editing,
        }
    }

    /// The element after a move down: an open dropdown selects its next
    /// choice, and may step just beyond the last; a point buy moves its focus
    /// to the next score.
    pub open spec fn after_down(self) -> MenuItem {
        match self {
            MenuItem::Dropdown(dropdown) => if dropdown.editing && dropdown.selected_item
                < dropdown.choices@.len() {
                MenuItem::Dropdown(
                    Dropdown { selected_item: (dropdown.selected_item + 1) as usize, ..dropdown },
                )
            } else {
                self
            },
            MenuItem::PointBuy(point_buy) => if point_buy.internal_focus < last_stat() {
                MenuItem::PointBuy(
                    PointBuy {
                        internal_focus: (point_buy.internal_focus + 1) as FocusIndex,
                        ..point_buy
                    },
                )
            } else {
                self
            },
            MenuItem::TextField(_) => self,
        }
    }

    /// Whether the element takes a move up for itself.
    pub open spec fn takes_up(self) -> bool {
        match self {
            MenuItem::Dropdown(dropdown) => dropdown.editing,
            MenuItem::PointBuy(point_buy) => point_buy.internal_focus > 0,
            MenuItem::TextField(text_field) => text_field.editing,
        }
    }

    /// The element after a move up: an open dropdown selects its previous
    /// choice, a point buy moves its focus to the previous score.
    pub open spec fn after_up(self) -> MenuItem {
        match self {
            MenuItem::Dropdown(dropdown) => if dropdown.editing && dropdown.selected_item > 0 {
                MenuItem::Dropdown(
                    Dropdown { selected_item: (dropdown.selected_item - 1) as usize, ..dropdown },
                )
            } else {
                self
            },
            MenuItem::PointBuy(point_buy) => if point_buy.internal_focus > 0 {
                MenuItem::PointBuy(
                    PointBuy {
                        internal_focus: (point_buy.internal_focus - 1) as FocusIndex,
                        ..point_buy
                    },
                )
            } else {
                self
            },
            MenuItem::TextField(_) => self,
        }
    }

    /// The element after a move in: a dropdown or text field starts being
    /// edited, or stops if it was.
    pub open spec fn after_in(self) -> MenuItem {
        match self {
            MenuItem::Dropdown(dropdown) => MenuItem::Dropdown(
                Dropdown { editing: !dropdown.editing, ..dropdown },
            ),
            MenuItem::PointBuy(_) => self,
            MenuItem::TextField(text_field) => MenuItem::TextField(
                TextField { editing: !text_field.editing, ..text_field },
            ),
        }
    }

    /// The element after a move out: a dropdown or text field stops being
    /// edited.
    pub open spec fn after_out(self) -> MenuItem {
        match self {
            MenuItem::Dropdown(dropdown) => MenuItem::Dropdown(
                Dropdown { editing: false, ..dropdown },
            ),
            MenuItem::PointBuy(_) => self,
            MenuItem::TextField(text_field) => MenuItem::TextField(
                TextField { editing: false, ..text_field },
            ),
        }
    }

    /// Whether a move left can be made: the points that a point buy gives
    /// back for the score in focus fit in the byte that counts them.
    pub open spec fn can_go_left(self) -> bool {
        self matches MenuItem::PointBuy(point_buy) ==> points_after_decrease(
            focused_stat(point_buy),
            point_buy.stat_points,
        ) <= u8::MAX
    }

    /// The element after a move left: a point buy tries to lower the score in
    /// focus, and leaves it where the points that would come back do not fit
    /// in their byte.
    pub open spec fn after_left(self) -> MenuItem {
        match self {
            MenuItem::PointBuy(point_buy) => if self.can_go_left() {
                let stat = focused_stat(point_buy);
                MenuItem::PointBuy(
                    PointBuy {
                        stats: with_focused_stat(point_buy, decreased_stat(stat) as u8),
                        stat_points: points_after_decrease(stat, point_buy.stat_points) as u8,
                        ..point_buy
                    },
                )
            } else {
                self
            },
            _ => self,
        }
    }

    /// The element after a move right: a point buy tries to raise the score in
    /// focus.
    pub open spec fn after_right(self) -> MenuItem {
        match self {
            MenuItem::PointBuy(point_buy) => {
                let stat = focused_stat(point_buy);
                MenuItem::PointBuy(
                    PointBuy {
                        stats: with_focused_stat(
                            point_buy,
                            increased_stat(stat, point_buy.stat_points) as u8,
                        ),
                        stat_points: points_after_increase(stat, point_buy.stat_points) as u8,
                        ..point_buy
                    },
                )
            },
            _ => self,
        }
    }
}

/// What a menu is at a moment: its elements, the one in focus, whether the
/// focus wraps round at the ends, and which menu it is.
#[verifier::ext_equal]
pub struct MenuState {
    pub items: Seq<MenuItem>,
    pub focus: FocusIndex,
    pub wraps: bool,
    pub menu_type: MenuType,
}

impl MenuState {
    /// The elements can be counted by a focus index, and there is one at
    /// least.
    pub open spec fn countable(self) -> bool {
        0 < self.items.len() <= FocusIndex::MAX
    }

    /// The menu has elements and the focus is on one of them.
    pub open spec fn wf(self) -> bool {
        self.countable() && self.focus < self.items.len()
    }

    /// The index of the last element.
    pub open spec fn max_focus(self) -> int {
        self.items.len() - 1
    }

    /// The element in focus.
    pub open spec fn selected(self) -> MenuItem {
        self.items[self.focus as int]
    }

    /// This menu with another element in place of the one in focus.
    pub open spec fn with_selected(self, item: MenuItem) -> MenuState {
        MenuState { items: self.items.update(self.focus as int, item), ..self }
    }

    /// The menu with the focus on the next element. At the last element the
    /// focus goes to the first if it wraps, and stays if not.
    pub open spec fn next(self) -> MenuState {
        if self.focus < self.max_focus() {
            MenuState { focus: (self.focus + 1) as FocusIndex, ..self }
        } else if self.wraps {
            MenuState { focus: 0, ..self }
        } else {
            self
        }
    }

    /// The menu with the focus on the previous element. At the first element
    /// the focus goes to the last if it wraps, and stays if not.
    pub open spec fn previous(self) -> MenuState {
        if self.focus > 0 {
            MenuState { focus: (self.focus - 1) as FocusIndex, ..self }
        } else if self.wraps {
            MenuState { focus: self.max_focus() as FocusIndex, ..self }
        } else {
            self
        }
    }

    /// The menu after a move down: the element in focus takes it, or the focus
    /// moves on. A menu that is not well formed stays as it is, here and after
    /// every other move.
    pub open spec fn after_down(self) -> MenuState {
        if self.wf() {
            let moved = self.with_selected(self.selected().after_down());
            if self.selected().takes_down() {
                moved
            } else {
                moved.next()
            }
        } else {
            self
        }
    }

    /// The menu after a move up: the element in focus takes it, or the focus
    /// moves back.
    pub open spec fn after_up(self) -> MenuState {
        if self.wf() {
            let moved = self.with_selected(self.selected().after_up());
            if self.selected().takes_up() {
                moved
            } else {
                moved.previous()
            }
        } else {
            self
        }
    }

    /// The menu after a move into the element in focus.
    pub open spec fn after_in(self) -> MenuState {
        if self.wf() {
            self.with_selected(self.selected().after_in())
        } else {
            self
        }
    }

    /// The menu after a move out of the element in focus.
    pub open spec fn after_out(self) -> MenuState {
        if self.wf() {
            self.with_selected(self.selected().after_out())
        } else {
            self
        }
    }

    /// The menu after a move left in the element in focus.
    pub open spec fn after_left(self) -> MenuState {
        if self.wf() {
            self.with_selected(self.selected().after_left())
        } else {
            self
        }
    }

    /// The menu after a move right in the element in focus.
    pub open spec fn after_right(self) -> MenuState {
        if self.wf() {
            self.with_selected(self.selected().after_right())
        } else {
            self
        }
    }

    /// Whether any element is being edited.
    pub open spec fn editing_anything(self) -> bool {
        exists|i: int| 0 <= i < self.items.len() && (#[trigger] self.items[i]).editing()
    }
}

/// What every menu offers: its elements, and the focus that moves over them.
pub trait Menu {
    /// What the menu is at the moment.
    spec fn state(&self) -> MenuState;

    fn get_currently_selected_element(&self) -> (item: &MenuItem)
        requires
            self.state().wf(),
        ensures
            *item == self.state().selected(),
    ;

    /// A mutable reference to the element in focus. What is written through
    /// it replaces that element and nothing else.
    fn get_currently_selected_element_mut(&mut self) -> (item: &mut MenuItem)
        requires
            old(self).state().wf(),
        ensures
            *item == old(self).state().selected(),
            final(self).state() == old(self).state().with_selected(*final(item)),
    ;

    fn get_focusable(&self, index: FocusIndex) -> (item: &MenuItem)
        requires
            index < self.state().items.len(),
        ensures
            *item == self.state().items[index as int],
    ;

    fn get_focusable_mut(&mut self, index: FocusIndex) -> (item: &MenuItem)
        requires
            index < old(self).state().items.len(),
        ensures
            *item == old(self).state().items[index as int],
            final(self).state() == old(self).state(),
    ;

    fn get_focus_index(&self) -> (focus: FocusIndex)
        ensures
            focus == self.state().focus,
    ;

    fn get_max_focus_index(&self) -> (max: FocusIndex)
        requires
            self.state().countable(),
        ensures
            max == self.state().max_focus(),
    ;

    fn next_focus(&mut self)
        requires
            old(self).state().countable(),
        ensures
            final(self).state() == old(self).state().next(),
    ;

    fn previous_focus(&mut self)
        requires
            old(self).state().countable(),
        ensures
            final(self).state() == old(self).state().previous(),
    ;

    fn wraps_focus(&self) -> (wraps: bool)
        ensures
            wraps == self.state().wraps,
    ;

    fn get_menu_type(&self) -> (menu_type: MenuType)
        ensures
            menu_type == self.state().menu_type,
    ;

    /// Whether the menu has elements and the focus is on one of them.
    fn is_well_formed(&self) -> (well_formed: bool)
        ensures
            well_formed == self.state().wf(),
    ;
}


/// The menu in which the player makes a new character: a name, a class, a
/// race, an alignment and the ability scores.
pub struct NewCharacter {
    focus_index: FocusIndex,
    pub items: Vec<MenuItem>,
}

impl NewCharacter {
    /// What the menu is when it is made: the focus on the name, which is
    /// empty; the three dropdowns closed on their first choice, with one
    /// choice for each class, race and alignment, by its display name; and a
    /// fresh point buy.
    pub open spec fn initial(state: MenuState) -> bool {
        &&& state.focus == 0
        &&& !state.wraps
        &&& state.menu_type == MenuType::NewCharacter
        &&& state.items.len() == 5
        &&& state.items[0] matches MenuItem::TextField(name)
        &&& name.label@ == "Name"@
        &&& name.max_length == NAME_MAX_LENGTH
        &&& name.value@.len() == 0
        &&& !name.editing
        &&& state.items[1] matches MenuItem::Dropdown(class)
        &&& class.label@ == "Class"@
        &&& class.choices@.len() == 12
        &&& forall|each: Class| (#[trigger] class.choices@[each.ordinal() as int])@ == each.name()
        &&& class.selected_item == 0
        &&& !class.editing
        &&& is_widest(class.choices@, class.size)
        &&& state.items[2] matches MenuItem::Dropdown(race)
        &&& race.label@ == "Race"@
        &&& race.choices@.len() == 9
        &&& forall|each: Race| (#[trigger] race.choices@[each.ordinal() as int])@ == each.name()
        &&& race.selected_item == 0
        &&& !race.editing
        &&& is_widest(race.choices@, race.size)
        &&& state.items[3] matches MenuItem::Dropdown(alignment)
        &&& alignment.label@ == "Alignment"@
        &&& alignment.choices@.len() == 9
        &&& forall|each: Alignment| (#[trigger] alignment.choices@[each.ordinal() as int])@
            == each.name()
        &&& alignment.selected_item == 0
        &&& !alignment.editing
        &&& is_widest(alignment.choices@, alignment.size)
        &&& state.items[4] matches MenuItem::PointBuy(stats)
        &&& stats.internal_focus == 0
        &&& stats.stat_points == POINT_BUY_POINTS
        &&& stats.stats == (Stats {
            charisma: POINT_BUY_MIN,
            constitution: POINT_BUY_MIN,
            dexterity: POINT_BUY_MIN,
            intelligence: POINT_BUY_MIN,
            strength: POINT_BUY_MIN,
            wisdom: POINT_BUY_MIN,
        })
    }

    pub fn new() -> (menu: Self)
        ensures
            menu.state().wf(),
            Self::initial(menu.state()),
    {
        let name = TextField::new(String::from_str("Name"), NAME_MAX_LENGTH);
        let class = Dropdown::new(String::from_str("Class"), Class::names());
        let race = Dropdown::new(String::from_str("Race"), Race::names());
        let alignment = Dropdown::new(String::from_str("Alignment"), Alignment::names());
        let stats = PointBuy::new();
        let mut result = Self { focus_index: 0, items: Vec::with_capacity(5) };
        result.items.push(MenuItem::TextField(name));
        result.items.push(MenuItem::Dropdown(class));
        result.items.push(MenuItem::Dropdown(race));
        result.items.push(MenuItem::Dropdown(alignment));
        result.items.push(MenuItem::PointBuy(stats));
        result
    }
}

impl Menu for NewCharacter {
    closed spec fn state(&self) -> MenuState {
        MenuState {
            items: self.items@,
            focus: self.focus_index,
            wraps: false,
            menu_type: MenuType::NewCharacter,
        }
    }

    fn get_currently_selected_element(&self) -> (item: &MenuItem) {
        &self.items[self.focus_index as usize]
    }

    fn get_currently_selected_element_mut(&mut self) -> (item: &mut MenuItem) {
        &mut self.items[self.focus_index as usize]
    }

    fn get_focusable(&self, index: FocusIndex) -> (item: &MenuItem) {
        &self.items[index as usize]
    }

    fn get_focusable_mut(&mut self, index: FocusIndex) -> (item: &MenuItem) {
        &self.items[index as usize]
    }

    fn get_focus_index(&self) -> (focus: FocusIndex) {
        self.focus_index
    }

    fn get_max_focus_index(&self) -> (max: FocusIndex) {
        (self.items.len() - 1) as FocusIndex
    }

    fn next_focus(&mut self) {
        if self.focus_index < self.get_max_focus_index() {
            self.focus_index = self.focus_index + 1;
        } else if self.wraps_focus() && self.focus_index >= self.get_max_focus_index() {
            self.focus_index = 0;
        }
    }

    fn previous_focus(&mut self) {
        if self.focus_index > 0 {
            self.focus_index = self.focus_index - 1;
        } else if self.wraps_focus() && self.focus_index == 0 {
            self.focus_index = self.get_max_focus_index();
        }
    }

    fn wraps_focus(&self) -> (wraps: bool) {
        false
    }

    fn get_menu_type(&self) -> (menu_type: MenuType) {
        MenuType::NewCharacter
    }

    fn is_well_formed(&self) -> (well_formed: bool) {
        0 < self.items.len() && self.items.len() <= 0xFFFF && (self.focus_index as usize)
            < self.items.len()
    }
}

/// The text of a choice of the test menu's dropdown.
pub open spec fn test_choice(index: int) -> Seq<char> {
    if index == 0 {
        "Foo"@
    } else if index == 1 {
        "Bar"@
    } else if index == 2 {
        "Double Foo"@
    } else if index == 3 {
        "Clown Car"@
    } else if index == 4 {
        "Warlock"@
    } else if index == 5 {
        "Ternary"@
    } else if index == 6 {
        "Baz"@
    } else if index == 7 {
        "Neptune"@
    } else {
        "Green"@
    }
}

/// A menu with one element of each kind, to try them out.
pub struct TestMenu {
    focus_index: FocusIndex,
    pub items: Vec<MenuItem>,
}

impl TestMenu {
    /// What the menu is when it is made: the focus on a closed dropdown of
    /// nine choices, then an empty text field, then a fresh point buy.
    pub open spec fn initial(state: MenuState) -> bool {
        &&& state.focus == 0
        &&& !state.wraps
        &&& state.menu_type == MenuType::TestMenu
        &&& state.items.len() == 3
        &&& state.items[0] matches MenuItem::Dropdown(dropdown)
        &&& dropdown.label@ == "Dropdown"@
        &&& dropdown.choices@.len() == 9
        &&& forall|i: int| 0 <= i < 9 ==> (#[trigger] dropdown.choices@[i])@ == test_choice(i)
        &&& dropdown.selected_item == 0
        &&& !dropdown.editing
        &&& is_widest(dropdown.choices@, dropdown.size)
        &&& state.items[1] matches MenuItem::TextField(text_field)
        &&& text_field.label@ == "Player Name"@
        &&& text_field.max_length == NAME_MAX_LENGTH
        &&& text_field.value@.len() == 0
        &&& !text_field.editing
        &&& state.items[2] matches MenuItem::PointBuy(point_buy)
        &&& point_buy.internal_focus == 0
        &&& point_buy.stat_points == POINT_BUY_POINTS
        &&& point_buy.stats == (Stats {
            charisma: POINT_BUY_MIN,
            constitution: POINT_BUY_MIN,
            dexterity: POINT_BUY_MIN,
            intelligence: POINT_BUY_MIN,
            strength: POINT_BUY_MIN,
            wisdom: POINT_BUY_MIN,
        })
    }

    pub fn new() -> (menu: Self)
        ensures
            menu.state().wf(),
            Self::initial(menu.state()),
    {
        let mut choices: Vec<String> = Vec::new();
        choices.push(String::from_str("Foo"));
        choices.push(String::from_str("Bar"));
        choices.push(String::from_str("Double Foo"));
        choices.push(String::from_str("Clown Car"));
        choices.push(String::from_str("Warlock"));
        choices.push(String::from_str("Ternary"));
        choices.push(String::from_str("Baz"));
        choices.push(String::from_str("Neptune"));
        choices.push(String::from_str("Green"));
        let dropdown = Dropdown::new(String::from_str("Dropdown"), choices);
        let text_field = TextField::new(String::from_str("Player Name"), NAME_MAX_LENGTH);
        let point_buy = PointBuy::new();
        let mut result = Self { focus_index: 0, items: Vec::with_capacity(3) };
        result.items.push(MenuItem::Dropdown(dropdown));
        result.items.push(MenuItem::TextField(text_field));
        result.items.push(MenuItem::PointBuy(point_buy));
        result
    }

    /// Whether any element of the menu is being edited.
    pub fn editing_anything(&self) -> (editing: bool)
        ensures
            editing == self.state().editing_anything(),
    {
        let mut index: usize = 0;
        while index < self.items.len()
            invariant
                index <= self.items@.len(),
                forall|i: int| 0 <= i < index ==> !(#[trigger] self.items@[i]).editing(),
            decreases self.items@.len() - index,
        {
            let editing = match &self.items[index] {
                MenuItem::Dropdown(dropdown) => dropdown.editing,
                MenuItem::PointBuy(_) => false,
                MenuItem::TextField(text_field) => text_field.editing,
            };
            if editing {
                assert(self.state().items[index as int].editing());
                return true;
            }
            index = index + 1;
        }
        false
    }

    pub fn get_focus_index(&self) -> (focus: FocusIndex)
        ensures
            focus == self.state().focus,
    {
        self.focus_index
    }

    pub fn get_currently_selected_element(&self) -> (item: &MenuItem)
        requires
            self.state().wf(),
        ensures
            *item == self.state().selected(),
    {
        &self.items[self.focus_index as usize]
    }

    /// A mutable reference to the element in focus. What is written through
    /// it replaces that element and nothing else.
    pub fn get_currently_selected_element_mut(&mut self) -> (item: &mut MenuItem)
        requires
            old(self).state().wf(),
        ensures
            *item == old(self).state().selected(),
            final(self).state() == old(self).state().with_selected(*final(item)),
    {
        &mut self.items[self.focus_index as usize]
    }
}

impl Menu for TestMenu {
    closed spec fn state(&self) -> MenuState {
        MenuState {
            items: self.items@,
            focus: self.focus_index,
            wraps: false,
            menu_type: MenuType::TestMenu,
        }
    }

    fn get_currently_selected_element(&self) -> (item: &MenuItem) {
        &self.items[self.focus_index as usize]
    }

    fn get_currently_selected_element_mut(&mut self) -> (item: &mut MenuItem) {
        &mut self.items[self.focus_index as usize]
    }

    fn get_focusable(&self, index: FocusIndex) -> (item: &MenuItem) {
        &self.items[index as usize]
    }

    fn get_focusable_mut(&mut self, index: FocusIndex) -> (item: &MenuItem) {
        &self.items[index as usize]
    }

    fn get_focus_index(&self) -> (focus: FocusIndex) {
        self.focus_index
    }

    fn get_max_focus_index(&self) -> (max: FocusIndex) {
        (self.items.len() - 1) as FocusIndex
    }

    fn next_focus(&mut self) {
        if self.focus_index < self.get_max_focus_index() {
            self.focus_index = self.focus_index + 1;
        } else if self.wraps_focus() && self.focus_index >= self.get_max_focus_index() {
            self.focus_index = 0;
        }
    }

    fn previous_focus(&mut self) {
        if self.focus_index > 0 {
            self.focus_index = self.focus_index - 1;
        } else if self.wraps_focus() && self.focus_index == 0 {
            self.focus_index = self.get_max_focus_index();
        }
    }

    fn wraps_focus(&self) -> (wraps: bool) {
        false
    }

    fn get_menu_type(&self) -> (menu_type: MenuType) {
        MenuType::TestMenu
    }

    fn is_well_formed(&self) -> (well_formed: bool) {
        0 < self.items.len() && self.items.len() <= 0xFFFF && (self.focus_index as usize)
            < self.items.len()
    }
}

/// The menus that keep what the player has entered.
pub struct MenuData {
    pub new_character: NewCharacter,
    pub test_menu: TestMenu,
}

impl MenuData {
    /// Both menus are well formed.
    pub open spec fn wf(&self) -> bool {
        self.new_character.state().wf() && self.test_menu.state().wf()
    }

    pub fn new() -> (menus: Self)
        ensures
            menus.wf(),
            NewCharacter::initial(menus.new_character.state()),
            TestMenu::initial(menus.test_menu.state()),
    {
        Self { new_character: NewCharacter::new(), test_menu: TestMenu::new() }
    }
}

/// Whether a move left can be made in an element.
pub fn can_go_left(item: &MenuItem) -> (able: bool)
    ensures
        able == item.can_go_left(),
{
    match item {
        MenuItem::PointBuy(point_buy) => {
            let stat: u8 = match point_buy.internal_focus {
                0 => point_buy.stats.charisma,
                1 => point_buy.stats.constitution,
                2 => point_buy.stats.dexterity,
                3 => point_buy.stats.intelligence,
                4 => point_buy.stats.strength,
                5 => point_buy.stats.wisdom,
                _ => 0,
            };
            stat <= POINT_BUY_MIN || point_buy.stat_points <= 255 - point_buy_cost(stat)
        },
        _ => true,
    }
}

pub fn is_currently_editing_anything<M: Menu>(menu: &M) -> (editing: bool)
    requires
        menu.state().wf(),
    ensures
        editing == menu.state().selected().editing(),
{
    let item: &MenuItem = menu.get_currently_selected_element();
    match item {
        MenuItem::Dropdown(dropdown) => dropdown.editing,
        MenuItem::PointBuy(_) => false,
        MenuItem::TextField(text_field) => text_field.editing,
    }
}

/// Moves down in a menu: the element in focus takes the move, or the focus
/// goes to the next element. A menu that is not well formed is left as it is.
pub fn navigate_menu_down<M: Menu>(menu: &mut M)
    ensures
        final(menu).state() == old(menu).state().after_down(),
{
    if !menu.is_well_formed() {
        return ;
    }
    let item: &mut MenuItem = menu.get_currently_selected_element_mut();
    let handled: bool = match item {
        MenuItem::Dropdown(dropdown) => {
            if dropdown.editing {
                if dropdown.selected_item < dropdown.choices.len() {
                    dropdown.selected_item = dropdown.selected_item + 1;
                }
            }
            dropdown.editing
        },
        MenuItem::PointBuy(point_buy) => {
            let mut result = false;
            if point_buy.internal_focus < 5 {
                point_buy.internal_focus = point_buy.internal_focus + 1;
                result = true;
            }
            result
        },
        MenuItem::TextField(text_field) => text_field.editing,
    };
    if !handled {
        menu.next_focus();
    }
}

/// Moves into the element in focus: a dropdown or text field starts being
/// edited, or stops. A menu that is not well formed is left as it is.
pub fn navigate_menu_in<M: Menu>(menu: &mut M)
    ensures
        final(menu).state() == old(menu).state().after_in(),
{
    if !menu.is_well_formed() {
        return ;
    }
    let item: &mut MenuItem = menu.get_currently_selected_element_mut();
    match item {
        MenuItem::Dropdown(dropdown) => {
            dropdown.editing = !dropdown.editing;
        },
        MenuItem::PointBuy(_) => (),
        MenuItem::TextField(text_field) => {
            text_field.editing = !text_field.editing;
        },
    };
}

/// Moves left in the element in focus: a point buy gives up a point of the
/// score in focus, unless the points that come back would not fit in their
/// byte. A menu that is not well formed is left as it is.
pub fn navigate_menu_left<M: Menu>(menu: &mut M)
    ensures
        final(menu).state() == old(menu).state().after_left(),
{
    if !menu.is_well_formed() {
        return ;
    }
    if !can_go_left(menu.get_currently_selected_element()) {
        assert(menu.state().with_selected(menu.state().selected()) == menu.state());
        return ;
    }
    let item: &mut MenuItem = menu.get_currently_selected_element_mut();
    match item {
        MenuItem::PointBuy(point_buy) => {
            let mut fallback: u8 = 0;
            match point_buy.internal_focus {
                0 => point_buy_attempt_decrease(
                    &mut point_buy.stats.charisma,
                    &mut point_buy.stat_points,
                ),
                1 => point_buy_attempt_decrease(
                    &mut point_buy.stats.constitution,
                    &mut point_buy.stat_points,
                ),
                2 => point_buy_attempt_decrease(
                    &mut point_buy.stats.dexterity,
                    &mut point_buy.stat_points,
                ),
                3 => point_buy_attempt_decrease(
                    &mut point_buy.stats.intelligence,
                    &mut point_buy.stat_points,
                ),
                4 => point_buy_attempt_decrease(
                    &mut point_buy.stats.strength,
                    &mut point_buy.stat_points,
                ),
                5 => point_buy_attempt_decrease(
                    &mut point_buy.stats.wisdom,
                    &mut point_buy.stat_points,
                ),
                _ => point_buy_attempt_decrease(&mut fallback, &mut point_buy.stat_points),
            };
        },
        _ => (),
    };
}

/// Moves out of the element in focus: a dropdown or text field stops being
/// edited. A menu that is not well formed is left as it is.
pub fn navigate_menu_out<M: Menu>(menu: &mut M)
    ensures
        final(menu).state() == old(menu).state().after_out(),
{
    if !menu.is_well_formed() {
        return ;
    }
    let item: &mut MenuItem = menu.get_currently_selected_element_mut();
    match item {
        MenuItem::Dropdown(dropdown) => {
            dropdown.editing = false;
        },
        MenuItem::PointBuy(_) => (),
        MenuItem::TextField(text_field) => {
            text_field.editing = false;
        },
    };
}

/// Moves right in the element in focus: a point buy buys a point of the
/// score in focus. A menu that is not well formed is left as it is.
pub fn navigate_menu_right<M: Menu>(menu: &mut M)
    ensures
        final(menu).state() == old(menu).state().after_right(),
{
    if !menu.is_well_formed() {
        return ;
    }
    let item: &mut MenuItem = menu.get_currently_selected_element_mut();
    match item {
        MenuItem::PointBuy(point_buy) => {
            let mut fallback: u8 = 0;
            match point_buy.internal_focus {
                0 => point_buy_attempt_increase(
                    &mut point_buy.stats.charisma,
                    &mut point_buy.stat_points,
                ),
                1 => point_buy_attempt_increase(
                    &mut point_buy.stats.constitution,
                    &mut point_buy.stat_points,
                ),
                2 => point_buy_attempt_increase(
                    &mut point_buy.stats.dexterity,
                    &mut point_buy.stat_points,
                ),
                3 => point_buy_attempt_increase(
                    &mut point_buy.stats.intelligence,
                    &mut point_buy.stat_points,
                ),
                4 => point_buy_attempt_increase(
                    &mut point_buy.stats.strength,
                    &mut point_buy.stat_points,
                ),
                5 => point_buy_attempt_increase(
                    &mut point_buy.stats.wisdom,
                    &mut point_buy.stat_points,
                ),
                _ => point_buy_attempt_increase(&mut fallback, &mut point_buy.stat_points),
            };
        },
        _ => (),
    };
}

/// Moves up in a menu: the element in focus takes the move, or the focus
/// goes to the previous element. A menu that is not well formed is left as
/// it is.
pub fn navigate_menu_up<M: Menu>(menu: &mut M)
    ensures
        final(menu).state() == old(menu).state().after_up(),
{
    if !menu.is_well_formed() {
        return ;
    }
    let item: &mut MenuItem = menu.get_currently_selected_element_mut();
    let handled: bool = match item {
        MenuItem::Dropdown(dropdown) => {
            if dropdown.editing {
                if dropdown.selected_item > 0 {
                    dropdown.selected_item = dropdown.selected_item - 1;
                }
            }
            dropdown.editing
        },
        MenuItem::PointBuy(point_buy) => {
            let mut result = false;
            if point_buy.internal_focus > 0 {
                point_buy.internal_focus = point_buy.internal_focus - 1;
                result = true;
            }
            result
        },
        MenuItem::TextField(text_field) => text_field.editing,
    };
    if !handled {
        menu.previous_focus();
    }
}

} // verus!
