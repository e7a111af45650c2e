//! What is drawn into a frame: texts, the elements of the menus, the map and
//! what is on it. Whatever would fall outside the frame is left out.

use vstd::prelude::*;
use vstd::string::StringExecFns;
use crate::component::{
    identifier,
    identifier_of,
    Components,
    EntityType,
    Tables,
    SEQUENCE_LIMIT,
};
use crate::entity::EntityID;
use crate::game::{average, get_average_fps, DebugInfo, Game, GameState, World};
use crate::map::{GameMap, MapID};
use crate::ui::menu::{
    byte_len,
    Dropdown,
    Menu,
    MenuItem,
    MenuState,
    MenuType,
    NewCharacter,
    PointBuy,
    TestMenu,
    TextField,
};
use crate::ui::terminal::icons::{
    creature_color,
    creature_icon,
    icon_of,
    item_icon,
    tile_color,
    tile_icon,
};
use crate::ui::terminal::menu_offsets::{get_offset, offset_of, Offset};
use crate::ui::terminal::style::Color;
use crate::ui::terminal::terminal_util::{
    decimal,
    decimal_text,
    cleared,
    same_size,
    DrawInfo,
    Frame,
    Screen,
    ScreenBuffer,
};

verus! {

/// The farthest that a text may begin from the first column or line, on
/// either side, for the places of its characters to be counted safely.
pub const REACH: i64 = 0x1_0000_0000;

/// Whether a column or line is within reach.
pub open spec fn within_reach(at: int) -> bool {
    -REACH <= at <= REACH
}

/// Wraps `str::char_indices`, which walks the characters of a text and
/// gives, with each, the number of bytes that the text has before it.
#[verifier::external_body]
fn char_positions(text: &str) -> (positions: Vec<(usize, char)>)
    ensures
        positions@.len() == text@.len(),
        forall|i: int|
            0 <= i < text@.len() ==> positions@[i] == (byte_len(text@.take(i)), text@[i]),
{
    text.char_indices().collect()
}

/// The column of a character of a text that begins at column `x`: as many
/// columns on as the text has bytes before the character, counted in 16 bits.
pub open spec fn text_column(text: Seq<char>, index: int, x: int) -> int {
    x + (byte_len(text.take(index)) as u16)
}

/// A frame with the first `count` characters of a text on a line.
pub open spec fn with_text(
    frame: Frame,
    text: Seq<char>,
    background: Color,
    color: Color,
    x: int,
    y: int,
    count: nat,
) -> Frame
    decreases count,
{
    if count == 0 {
        frame
    } else {
        let index = count - 1;
        with_text(frame, text, background, color, x, y, index as nat).painted(
            text_column(text, index, x),
            y,
            DrawInfo { background, color, icon: text[index] },
        )
    }
}

/// A frame with a text on a line, in a colour on a background.
pub open spec fn texted(
    frame: Frame,
    text: Seq<char>,
    background: Color,
    color: Color,
    x: int,
    y: int,
) -> Frame {
    with_text(frame, text, background, color, x, y, text.len())
}

/// A frame with `count` spaces on a line from column `x` on, each one
/// column further, counted in 16 bits.
pub open spec fn with_blanks(
    frame: Frame,
    background: Color,
    color: Color,
    x: int,
    y: int,
    count: nat,
) -> Frame
    decreases count,
{
    if count == 0 {
        frame
    } else {
        let index = (count - 1) as nat;
        with_blanks(frame, background, color, x, y, index).painted(
            x + (index as usize as u16),
            y,
            DrawInfo { background, color, icon: ' ' },
        )
    }
}

pub fn draw_text_with_background(
    frame: &mut ScreenBuffer,
    text: &str,
    background: Color,
    color: Color,
    x: i64,
    y: i64,
)
    requires
        within_reach(x as int),
    ensures
        final(frame)@ == texted(old(frame)@, text@, background, color, x as int, y as int),
        same_size(old(frame)@, final(frame)@),
{
    let positions = char_positions(text);
    let mut index: usize = 0;
    while index < positions.len()
        invariant
            index <= positions@.len(),
            positions@.len() == text@.len(),
            within_reach(x as int),
            forall|i: int|
                0 <= i < text@.len() ==> positions@[i] == (byte_len(text@.take(i)), text@[i]),
            same_size(old(frame)@, frame@),
            frame@ == with_text(
                old(frame)@,
                text@,
                background,
                color,
                x as int,
                y as int,
                index as nat,
            ),
        decreases positions@.len() - index,
    {
        let (position, character) = positions[index];
        frame.paint((position as u16) as i64
            + x, y, DrawInfo { background, color, icon: character });
        index = index + 1;
    }
}

/// Draws a text on black.
pub fn draw_text(frame: &mut ScreenBuffer, text: &str, color: Color, x: i64, y: i64)
    requires
        within_reach(x as int),
    ensures
        final(frame)@ == texted(old(frame)@, text@, Color::Black, color, x as int, y as int),
        same_size(old(frame)@, final(frame)@),
{
    draw_text_with_background(frame, text, Color::Black, color, x, y);
}

/// Draws spaces on a line.
fn draw_blanks(
    frame: &mut ScreenBuffer,
    background: Color,
    color: Color,
    x: i64,
    y: i64,
    count: usize,
)
    requires
        within_reach(x as int),
    ensures
        final(frame)@ == with_blanks(
            old(frame)@,
            background,
            color,
            x as int,
            y as int,
            count as nat,
        ),
        same_size(old(frame)@, final(frame)@),
{
    let mut position: usize = 0;
    while position < count
        invariant
            position <= count,
            within_reach(x as int),
            same_size(old(frame)@, frame@),
            frame@ == with_blanks(
                old(frame)@,
                background,
                color,
                x as int,
                y as int,
                position as nat,
            ),
        decreases count - position,
    {
        frame.paint((position as u16) as i64 + x, y, DrawInfo { background, color, icon: ' ' });
        position = position + 1;
    }
}

/// The number of spaces that fill a text up to a width: none where the text
/// is as wide already.
pub open spec fn padding(width: int, size: int) -> nat {
    if width > size {
        (width - size) as nat
    } else {
        0
    }
}

/// A frame with a line of a dropdown: a choice, filled up with spaces to the
/// width of the dropdown.
pub open spec fn with_line(
    frame: Frame,
    x: int,
    y: int,
    foreground: Color,
    background: Color,
    text: Seq<char>,
    width: usize,
) -> Frame {
    with_blanks(
        texted(frame, text, background, foreground, x, y),
        background,
        foreground,
        x + (byte_len(text) as u16),
        y,
        padding(width as int, byte_len(text) as int),
    )
}

fn draw_dropdown_line(
    frame: &mut ScreenBuffer,
    x: i64,
    y: i64,
    foreground: Color,
    background: Color,
    text: &str,
    width: usize,
)
    requires
        within_reach(2 * x),
    ensures
        final(frame)@ == with_line(
            old(frame)@,
            x as int,
            y as int,
            foreground,
            background,
            text@,
            width,
        ),
        same_size(old(frame)@, final(frame)@),
{
    draw_text_with_background(frame, text, background, foreground, x, y);
    let current_size: usize = text.len();
    if width > current_size {
        draw_blanks(
            frame,
            background,
            foreground,
            x + (current_size as u16) as i64,
            y,
            width - current_size,
        );
    }
}

/// The colour and the background of what an element shows: white on black,
/// and the other way round while it is edited.
pub open spec fn content_colors(editing: bool) -> (Color, Color) {
    if editing {
        (Color::Black, Color::White)
    } else {
        (Color::White, Color::Black)
    }
}

/// The column at which the content of an element begins: one column after
/// its label, whose bytes are counted in 16 bits.
pub open spec fn content_column(label: Seq<char>, x: int) -> int {
    x + (byte_len(label) as u16) + 1
}

/// A frame with the choices of an open dropdown that stand before the
/// selected one, as far as `count`, each on its line above the dropdown's own.
/// What would stand above the first line is left out.
pub open spec fn with_choices_above(
    frame: Frame,
    dropdown: Dropdown,
    x: int,
    y: int,
    count: nat,
) -> Frame
    decreases count,
{
    if count == 0 {
        frame
    } else {
        let line = (count - 1) as nat;
        let before = with_choices_above(frame, dropdown, x, y, line);
        let position = y + line - dropdown.selected_item;
        if line < dropdown.choices@.len() && position >= 0 {
            with_line(
                before,
                x,
                position,
                Color::Black,
                Color::Grey,
                dropdown.choices@[line as int]@,
                dropdown.size,
            )
        } else {
            before
        }
    }
}

/// A frame with the choices of an open dropdown that stand after the
/// selected one, as far as `upto`, each on its line below the dropdown's own.
/// What would stand below the last line of the screen is left out.
pub open spec fn with_choices_below(
    frame: Frame,
    dropdown: Dropdown,
    x: int,
    y: int,
    height: u16,
    upto: nat,
) -> Frame
    decreases upto,
{
    if upto <= dropdown.selected_item + 1 {
        frame
    } else {
        let line = (upto - 1) as nat;
        let before = with_choices_below(frame, dropdown, x, y, height, line);
        let position = y + line - dropdown.selected_item;
        if position < height {
            with_line(
                before,
                x,
                position,
                Color::Black,
                Color::Grey,
                dropdown.choices@[line as int]@,
                dropdown.size,
            )
        } else {
            before
        }
    }
}

/// A frame with a dropdown: its label, then the selected choice, if there is
/// one, and round it the other choices while the dropdown is open.
pub open spec fn with_dropdown(frame: Frame, dropdown: Dropdown, x: int, y: int, height: u16)
    -> Frame {
    let labelled = texted(frame, dropdown.label@, Color::Black, Color::White, x, y);
    let content_x = content_column(dropdown.label@, x);
    let (foreground, background) = content_colors(dropdown.editing);
    let selected = if dropdown.selected_item < dropdown.choices@.len() {
        with_line(
            labelled,
            content_x,
            y,
            foreground,
            background,
            dropdown.choices@[dropdown.selected_item as int]@,
            dropdown.size,
        )
    } else {
        labelled
    };
    if dropdown.editing {
        with_choices_below(
            with_choices_above(selected, dropdown, content_x, y, dropdown.selected_item as nat),
            dropdown,
            content_x,
            y,
            height,
            dropdown.choices@.len(),
        )
    } else {
        selected
    }
}

pub fn draw_dropdown(frame: &mut ScreenBuffer, dropdown: &Dropdown, x: u16, y: u16, height: u16)
    ensures
        final(frame)@ == with_dropdown(old(frame)@, *dropdown, x as int, y as int, height),
        same_size(old(frame)@, final(frame)@),
{
    draw_text(frame, dropdown.label.as_str(), Color::White, x as i64, y as i64);
    let content_x: i64 = x as i64 + (dropdown.label.as_str().len() as u16) as i64 + 1;
    let foreground = if !dropdown.editing {
        Color::White
    } else {
        Color::Black
    };
    let background = if !dropdown.editing {
        Color::Black
    } else {
        Color::White
    };
    if dropdown.selected_item < dropdown.choices.len() {
        draw_dropdown_line(
            frame,
            content_x,
            y as i64,
            foreground,
            background,
            dropdown.choices[dropdown.selected_item].as_str(),
            dropdown.size,
        );
    }
    if dropdown.editing {
        let ghost selected = frame@;
        let mut line: usize = 0;
        while line < dropdown.selected_item
            invariant
                line <= dropdown.selected_item,
                content_x == content_column(dropdown.label@, x as int),
                same_size(old(frame)@, frame@),
                frame@ == with_choices_above(
                    selected,
                    *dropdown,
                    content_x as int,
                    y as int,
                    line as nat,
                ),
            decreases dropdown.selected_item - line,
        {
            let distance: usize = dropdown.selected_item - line;
            if line < dropdown.choices.len() && distance as u64 <= y as u64 {
                draw_dropdown_line(
                    frame,
                    content_x,
                    y as i64 - distance as i64,
                    Color::Black,
                    Color::Grey,
                    dropdown.choices[line].as_str(),
                    dropdown.size,
                );
            }
            line = line + 1;
        }
        let ghost above = frame@;
        if dropdown.selected_item < dropdown.choices.len() {
            let mut line: usize = dropdown.selected_item + 1;
            while line < dropdown.choices.len()
                invariant
                    dropdown.selected_item < line <= dropdown.choices@.len(),
                    content_x == content_column(dropdown.label@, x as int),
                    same_size(old(frame)@, frame@),
                    frame@ == with_choices_below(
                        above,
                        *dropdown,
                        content_x as int,
                        y as int,
                        height,
                        line as nat,
                    ),
                decreases dropdown.choices@.len() - line,
            {
                let distance: usize = line - dropdown.selected_item;
                if distance as u64 <= 0xFFFF && y as u64 + (distance as u64) < height as u64 {
                    draw_dropdown_line(
                        frame,
                        content_x,
                        y as i64 + distance as i64,
                        Color::Black,
                        Color::Grey,
                        dropdown.choices[line].as_str(),
                        dropdown.size,
                    );
                }
                line = line + 1;
            }
        }
    }
}

/// A frame with a text field: its label, then its text, filled up with
/// spaces to the length that the field allows.
pub open spec fn with_text_field(frame: Frame, field: TextField, x: int, y: int) -> Frame {
    let labelled = texted(frame, field.label@, Color::Black, Color::White, x, y);
    let content_x = content_column(field.label@, x);
    let (foreground, background) = content_colors(field.editing);
    let size = byte_len(field.value@) as u16;
    with_blanks(
        texted(labelled, field.value@, background, foreground, content_x, y),
        background,
        foreground,
        content_x + size,
        y,
        padding(field.max_length as int, size as int),
    )
}

pub fn draw_text_field(frame: &mut ScreenBuffer, text_field: &TextField, x: u16, y: u16)
    ensures
        final(frame)@ == with_text_field(old(frame)@, *text_field, x as int, y as int),
        same_size(old(frame)@, final(frame)@),
{
    draw_text(frame, text_field.label.as_str(), Color::White, x as i64, y as i64);
    let content_x: i64 = x as i64 + (text_field.label.as_str().len() as u16) as i64 + 1;
    let foreground = if !text_field.editing {
        Color::White
    } else {
        Color::Black
    };
    let background = if !text_field.editing {
        Color::Black
    } else {
        Color::White
    };
    draw_text_with_background(
        frame,
        text_field.value.as_str(),
        background,
        foreground,
        content_x,
        y as i64,
    );
    let current_size: u16 = text_field.value.as_str().len() as u16;
    if text_field.max_length > current_size {
        draw_blanks(
            frame,
            background,
            foreground,
            content_x + current_size as i64,
            y as i64,
            (text_field.max_length - current_size) as usize,
        );
    }
}


/// A score of a point buy as it is shown: in two columns, a space before a
/// single digit.
pub open spec fn two_wide(value: u8) -> Seq<char> {
    if value < 10 {
        " "@ + decimal(value as nat)
    } else {
        decimal(value as nat)
    }
}

fn stat_text(value: u8) -> (text: String)
    ensures
        text@ == two_wide(value),
{
    if value < 10 {
        String::from_str(" ").concat(decimal_text(value as u32).as_str())
    } else {
        decimal_text(value as u32)
    }
}

/// A frame with the arrows of the first `count` scores of a point buy: one
/// to the left and one to the right of where each score stands.
pub open spec fn with_arrows(frame: Frame, x: int, y: int, count: nat) -> Frame
    decreases count,
{
    if count == 0 {
        frame
    } else {
        let line = (count - 1) as nat;
        texted(
            texted(with_arrows(frame, x, y, line), "<"@, Color::Black, Color::White, x + 13, y
                + line),
            ">"@,
            Color::Black,
            Color::White,
            x + 16,
            y + line,
        )
    }
}

/// A frame with a score of a point buy on its line. The score that has the
/// focus stands black on white.
pub open spec fn with_stat(
    frame: Frame,
    focused: bool,
    point_buy: PointBuy,
    line: int,
    value: u8,
    x: int,
    y: int,
) -> Frame {
    let (foreground, background) = content_colors(focused && point_buy.internal_focus == line);
    texted(frame, two_wide(value), background, foreground, x + 14, y + line)
}

/// What is said of the points that a point buy has left.
pub open spec fn points_left(point_buy: PointBuy) -> Seq<char> {
    "Points left: "@ + decimal(point_buy.stat_points as nat)
}

/// A frame with the names of the six scores and, below them, the points that
/// are left.
pub open spec fn with_stat_names(frame: Frame, point_buy: PointBuy, x: int, y: int) -> Frame {
    let charisma = texted(frame, "Charisma"@, Color::Black, Color::White, x, y);
    let constitution = texted(charisma, "Constitution"@, Color::Black, Color::White, x, y + 1);
    let dexterity = texted(constitution, "Dexterity"@, Color::Black, Color::White, x, y + 2);
    let intelligence = texted(dexterity, "Intelligence"@, Color::Black, Color::White, x, y + 3);
    let strength = texted(intelligence, "Strength"@, Color::Black, Color::White, x, y + 4);
    let wisdom = texted(strength, "Wisdom"@, Color::Black, Color::White, x, y + 5);
    texted(wisdom, points_left(point_buy), Color::Black, Color::White, x, y + 6)
}

/// A frame with a point buy: the arrows, the names of the scores, the points
/// that are left, and the scores.
pub open spec fn with_point_buy(frame: Frame, focused: bool, point_buy: PointBuy, x: int, y: int)
    -> Frame {
    let stats = point_buy.stats;
    let named = with_stat_names(with_arrows(frame, x, y, 6), point_buy, x, y);
    let charisma = with_stat(named, focused, point_buy, 0, stats.charisma, x, y);
    let constitution = with_stat(charisma, focused, point_buy, 1, stats.constitution, x, y);
    let dexterity = with_stat(constitution, focused, point_buy, 2, stats.dexterity, x, y);
    let intelligence = with_stat(dexterity, focused, point_buy, 3, stats.intelligence, x, y);
    let strength = with_stat(intelligence, focused, point_buy, 4, stats.strength, x, y);
    with_stat(strength, focused, point_buy, 5, stats.wisdom, x, y)
}

fn draw_stat(
    frame: &mut ScreenBuffer,
    focused: bool,
    point_buy: &PointBuy,
    line: u16,
    value: u8,
    x: u16,
    y: u16,
)
    ensures
        final(frame)@ == with_stat(
            old(frame)@,
            focused,
            *point_buy,
            line as int,
            value,
            x as int,
            y as int,
        ),
        same_size(old(frame)@, final(frame)@),
{
    let text = stat_text(value);
    let in_focus: bool = focused && point_buy.internal_focus == line;
    let background = if in_focus {
        Color::White
    } else {
        Color::Black
    };
    let foreground = if in_focus {
        Color::Black
    } else {
        Color::White
    };
    draw_text_with_background(
        frame,
        text.as_str(),
        background,
        foreground,
        x as i64 + 14,
        y as i64 + line as i64,
    );
}

pub fn draw_point_buy(
    frame: &mut ScreenBuffer,
    focused: bool,
    point_buy: &PointBuy,
    x: u16,
    y: u16,
)
    ensures
        final(frame)@ == with_point_buy(old(frame)@, focused, *point_buy, x as int, y as int),
        same_size(old(frame)@, final(frame)@),
{
    let column: i64 = x as i64;
    let line: i64 = y as i64;
    let mut y_offset: i64 = 0;
    while y_offset < 6
        invariant
            0 <= y_offset <= 6,
            column == x,
            line == y,
            same_size(old(frame)@, frame@),
            frame@ == with_arrows(old(frame)@, x as int, y as int, y_offset as nat),
        decreases 6 - y_offset,
    {
        draw_text(frame, "<", Color::White, column + 13, line + y_offset);
        draw_text(frame, ">", Color::White, column + 16, line + y_offset);
        y_offset = y_offset + 1;
    }
    let points = String::from_str("Points left: ").concat(
        decimal_text(point_buy.stat_points as u32).as_str(),
    );
    draw_text(frame, "Charisma", Color::White, column, line);
    draw_text(frame, "Constitution", Color::White, column, line + 1);
    draw_text(frame, "Dexterity", Color::White, column, line + 2);
    draw_text(frame, "Intelligence", Color::White, column, line + 3);
    draw_text(frame, "Strength", Color::White, column, line + 4);
    draw_text(frame, "Wisdom", Color::White, column, line + 5);
    draw_text(frame, points.as_str(), Color::White, column, line + 6);
    draw_stat(frame, focused, point_buy, 0, point_buy.stats.charisma, x, y);
    draw_stat(frame, focused, point_buy, 1, point_buy.stats.constitution, x, y);
    draw_stat(frame, focused, point_buy, 2, point_buy.stats.dexterity, x, y);
    draw_stat(frame, focused, point_buy, 3, point_buy.stats.intelligence, x, y);
    draw_stat(frame, focused, point_buy, 4, point_buy.stats.strength, x, y);
    draw_stat(frame, focused, point_buy, 5, point_buy.stats.wisdom, x, y);
}

/// A frame with an element of a menu at its place. A dropdown or text field
/// that is being edited is drawn only when it has the focus.
pub open spec fn with_item(
    frame: Frame,
    item: MenuItem,
    focused: bool,
    offset: Offset,
    height: u16,
) -> Frame {
    match item {
        MenuItem::Dropdown(dropdown) => if focused || !dropdown.editing {
            with_dropdown(frame, dropdown, offset.x as int, offset.y as int, height)
        } else {
            frame
        },
        MenuItem::PointBuy(point_buy) => with_point_buy(
            frame,
            focused,
            point_buy,
            offset.x as int,
            offset.y as int,
        ),
        MenuItem::TextField(text_field) => if focused || !text_field.editing {
            with_text_field(frame, text_field, offset.x as int, offset.y as int)
        } else {
            frame
        },
    }
}

/// A frame with the first `count` elements of a menu, none of them taken to
/// have the focus.
pub open spec fn with_items(frame: Frame, menu: MenuState, height: u16, count: nat) -> Frame
    decreases count,
{
    if count == 0 {
        frame
    } else {
        let index = (count - 1) as nat;
        with_item(
            with_items(frame, menu, height, index),
            menu.items[index as int],
            false,
            offset_of(menu.menu_type, index as usize),
            height,
        )
    }
}

/// A frame with the mark of the focus: a yellow star two columns before a
/// dropdown or text field. A point buy shows its focus itself.
pub open spec fn with_marker(frame: Frame, item: MenuItem, offset: Offset) -> Frame {
    if item is PointBuy {
        frame
    } else {
        texted(frame, "*"@, Color::Black, Color::Yellow, offset.x - 2, offset.y as int)
    }
}

/// A frame with the elements of a menu: each at its place, then once more
/// the one that has the focus, with its mark. A menu that is not well formed
/// is not drawn.
pub open spec fn with_menu_items(frame: Frame, menu: MenuState, height: u16) -> Frame {
    if menu.wf() {
        let offset = offset_of(menu.menu_type, menu.focus as usize);
        with_marker(
            with_item(
                with_items(frame, menu, height, menu.items.len()),
                menu.selected(),
                true,
                offset,
                height,
            ),
            menu.selected(),
            offset,
        )
    } else {
        frame
    }
}

fn draw_item(
    frame: &mut ScreenBuffer,
    item: &MenuItem,
    focused: bool,
    offset: Offset,
    height: u16,
)
    ensures
        final(frame)@ == with_item(old(frame)@, *item, focused, offset, height),
        same_size(old(frame)@, final(frame)@),
{
    match item {
        MenuItem::Dropdown(dropdown) => {
            if focused || !dropdown.editing {
                draw_dropdown(frame, dropdown, offset.x, offset.y, height);
            }
        },
        MenuItem::PointBuy(point_buy) => {
            draw_point_buy(frame, focused, point_buy, offset.x, offset.y);
        },
        MenuItem::TextField(text_field) => {
            if focused || !text_field.editing {
                draw_text_field(frame, text_field, offset.x, offset.y);
            }
        },
    }
}

pub fn draw_menu_items<M: Menu>(frame: &mut ScreenBuffer, menu: &M, height: u16)
    ensures
        final(frame)@ == with_menu_items(old(frame)@, menu.state(), height),
        same_size(old(frame)@, final(frame)@),
{
    if !menu.is_well_formed() {
        return ;
    }
    let menu_type = menu.get_menu_type();
    let last: u16 = menu.get_max_focus_index();
    let mut index: u32 = 0;
    while index <= last as u32
        invariant
            index <= last + 1,
            last == menu.state().max_focus(),
            menu.state().wf(),
            menu_type == menu.state().menu_type,
            same_size(old(frame)@, frame@),
            frame@ == with_items(old(frame)@, menu.state(), height, index as nat),
        decreases last + 1 - index,
    {
        let offset: Offset = get_offset(menu_type, index as usize);
        draw_item(frame, menu.get_focusable(index as u16), false, offset, height);
        index = index + 1;
    }
    let selected: &MenuItem = menu.get_currently_selected_element();
    let selected_offset: Offset = get_offset(menu_type, menu.get_focus_index() as usize);
    draw_item(frame, selected, true, selected_offset, height);
    match selected {
        MenuItem::PointBuy(_) => {},
        _ => {
            draw_text(
                frame,
                "*",
                Color::Yellow,
                selected_offset.x as i64 - 2,
                selected_offset.y as i64,
            );
        },
    }
}

/// A frame with the main menu: each of its four keys in yellow, and beside
/// it in white what the key does.
pub open spec fn with_main_menu(frame: Frame) -> Frame {
    let play_key = texted(frame, "P"@, Color::Black, Color::Yellow, 3, 1);
    let play = texted(play_key, "Play game"@, Color::Black, Color::White, 5, 1);
    let new_key = texted(play, "N"@, Color::Black, Color::Yellow, 3, 2);
    let new = texted(new_key, "New Character"@, Color::Black, Color::White, 5, 2);
    let quit_key = texted(new, "Q"@, Color::Black, Color::Yellow, 3, 3);
    let quit = texted(quit_key, "Quit"@, Color::Black, Color::White, 5, 3);
    let test_key = texted(quit, "T"@, Color::Black, Color::Yellow, 3, 4);
    texted(test_key, "Test Menu"@, Color::Black, Color::White, 5, 4)
}

pub fn draw_main_menu(frame: &mut ScreenBuffer)
    ensures
        final(frame)@ == with_main_menu(old(frame)@),
        same_size(old(frame)@, final(frame)@),
{
    draw_text(frame, "P", Color::Yellow, 3, 1);
    draw_text(frame, "Play game", Color::White, 5, 1);
    draw_text(frame, "N", Color::Yellow, 3, 2);
    draw_text(frame, "New Character", Color::White, 5, 2);
    draw_text(frame, "Q", Color::Yellow, 3, 3);
    draw_text(frame, "Quit", Color::White, 5, 3);
    draw_text(frame, "T", Color::Yellow, 3, 4);
    draw_text(frame, "Test Menu", Color::White, 5, 4);
}

/// A frame with the menu for a new character: its title in the middle of the
/// first line, and its elements.
pub open spec fn with_new_character_menu(frame: Frame, menu: MenuState, height: u16) -> Frame {
    with_menu_items(
        texted(
            frame,
            "New Character"@,
            Color::Black,
            Color::White,
            frame.width as int / 2 - 6,
            0,
        ),
        menu,
        height,
    )
}

pub fn draw_new_character_menu(frame: &mut ScreenBuffer, menu: &NewCharacter, height: u16)
    ensures
        final(frame)@ == with_new_character_menu(old(frame)@, menu.state(), height),
        same_size(old(frame)@, final(frame)@),
{
    let title_x: i64 = (frame.get_width() / 2) as i64 - 6;
    draw_text(frame, "New Character", Color::White, title_x, 0);
    draw_menu_items(frame, menu, height);
}

/// A frame with the test menu: its title on the first line, from the 41st
/// column on, and its elements.
pub open spec fn with_test_menu(frame: Frame, menu: MenuState, height: u16) -> Frame {
    with_menu_items(texted(frame, "Test Menu"@, Color::Black, Color::White, 40, 0), menu, height)
}

pub fn draw_test_menu(frame: &mut ScreenBuffer, menu: &TestMenu, height: u16)
    ensures
        final(frame)@ == with_test_menu(old(frame)@, menu.state(), height),
        same_size(old(frame)@, final(frame)@),
{
    draw_text(frame, "Test Menu", Color::White, 40, 0);
    draw_menu_items(frame, menu, height);
}

/// A frame with a menu of the world: the main menu, the menu for a new
/// character and the test menu have something to show.
pub open spec fn with_menu(frame: Frame, menu_type: MenuType, world: World, height: u16) -> Frame {
    match menu_type {
        MenuType::Main => with_main_menu(frame),
        MenuType::NewCharacter => with_new_character_menu(frame, world.new_character, height),
        MenuType::TestMenu => with_test_menu(frame, world.test_menu, height),
        _ => frame,
    }
}

/// Draws a menu into an empty frame.
pub fn draw_menu(menu_type: MenuType, frame: &mut ScreenBuffer, game: &Game, height: u16)
    ensures
        final(frame)@ == with_menu(old(frame)@, menu_type, game@, height),
        same_size(old(frame)@, final(frame)@),
{
    match menu_type {
        MenuType::Character => (),
        MenuType::Main => draw_main_menu(frame),
        MenuType::NewCharacter => draw_new_character_menu(
            frame,
            &game.menu_data.new_character,
            height,
        ),
        MenuType::Pause => (),
        MenuType::TestMenu => draw_test_menu(frame, &game.menu_data.test_menu, height),
    }
}

/// The number of frames that are drawn in a second.
pub const FRAMES_PER_SECOND: u8 = 30;

/// The rate that the counter shows: the mean of the rates that are kept, and
/// one at least.
pub open spec fn shown_rate(rates: Seq<u32>) -> nat {
    if average(rates) < 1 {
        1
    } else {
        average(rates)
    }
}

/// A frame with the frame rate in its first corner: in green where the rate
/// is the one that is aimed at, or above, and in red below that.
pub open spec fn with_fps_counter(frame: Frame, rates: Seq<u32>) -> Frame {
    texted(
        frame,
        decimal(shown_rate(rates)),
        Color::Black,
        if shown_rate(rates) < FRAMES_PER_SECOND {
            Color::Red
        } else {
            Color::Green
        },
        0,
        0,
    )
}

pub fn draw_fps_counter(frame: &mut ScreenBuffer, debug_info: &DebugInfo)
    ensures
        final(frame)@ == with_fps_counter(old(frame)@, debug_info.history()),
        same_size(old(frame)@, final(frame)@),
{
    let average: u32 = get_average_fps(debug_info);
    let fps: u32 = if average < 1 {
        1
    } else {
        average
    };
    let text = decimal_text(fps);
    let color: Color = if fps < FRAMES_PER_SECOND as u32 {
        Color::Red
    } else {
        Color::Green
    };
    draw_text(frame, text.as_str(), color, 0, 0);
}


/// A frame with the tiles of the first `columns` squares of a line of a map.
/// A tile shows its icon in dark grey, on the background that its cell has.
/// Where the map has no square, nothing is drawn.
pub open spec fn with_tile_row(frame: Frame, map: GameMap, y: u16, columns: nat) -> Frame
    decreases columns,
{
    if columns == 0 {
        frame
    } else {
        let x = (columns - 1) as u16;
        let before = with_tile_row(frame, map, y, (columns - 1) as nat);
        if map.addressable(x, y, map.tiles@.len()) {
            before.relit(
                x as int,
                y as int,
                Color::DarkGrey,
                icon_of(map.tiles@[map.index_of(x, y)]),
            )
        } else {
            before
        }
    }
}

/// A frame with the tiles of the first `lines` lines of a map, each as wide
/// as the screen.
pub open spec fn with_tiles(frame: Frame, map: GameMap, width: u16, lines: nat) -> Frame
    decreases lines,
{
    if lines == 0 {
        frame
    } else {
        with_tile_row(
            with_tiles(frame, map, width, (lines - 1) as nat),
            map,
            (lines - 1) as u16,
            width as nat,
        )
    }
}

/// A frame with a white bracket on each of the first `count` squares of a
/// map on which something lies.
pub open spec fn with_items_lying(frame: Frame, map: GameMap, count: nat) -> Frame
    decreases count,
{
    if count == 0 {
        frame
    } else {
        let index = (count - 1) as usize;
        let before = with_items_lying(frame, map, (count - 1) as nat);
        if map.width > 0 && (map.items@[index as int])@.len() > 0 {
            before.relit(
                (index % (map.width as usize)) as u16 as int,
                (index / (map.width as usize)) as u16 as int,
                Color::White,
                '[',
            )
        } else {
            before
        }
    }
}

/// A frame with a creature at its position, as a white at sign, if the
/// creature is alive and on the map that is shown.
pub open spec fn with_creature(frame: Frame, tables: Tables, entity: EntityID, map_id: MapID)
    -> Frame {
    match (
        tables.alive(entity),
        tables.map_index(entity),
        tables.position(entity),
        tables.creature(entity),
    ) {
        (Some(alive), Some(map_index), Some(position), Some(_)) => if alive.alive && map_index.map
            == map_id {
            frame.relit(position.x as int, position.y as int, Color::White, '@')
        } else {
            frame
        },
        _ => frame,
    }
}

/// A frame with the first `count` creatures of a category.
pub open spec fn with_creatures(
    frame: Frame,
    tables: Tables,
    entity_type: EntityType,
    map_id: MapID,
    count: nat,
) -> Frame
    decreases count,
{
    if count == 0 {
        frame
    } else {
        let sequence = (count - 1) as nat;
        let before = with_creatures(frame, tables, entity_type, map_id, sequence);
        if sequence < SEQUENCE_LIMIT {
            with_creature(
                before,
                tables,
                identifier(entity_type, sequence) as EntityID,
                map_id,
            )
        } else {
            before
        }
    }
}

/// A frame with the map of a world as far as the screen reaches: its tiles,
/// over them what lies on them, and over that the characters and the
/// monsters.
pub open spec fn with_ingame(frame: Frame, world: World, screen: Screen) -> Frame {
    let map = world.map;
    let tiles = with_tiles(frame, map, screen.width, screen.height as nat);
    let items = with_items_lying(tiles, map, map.items@.len());
    let characters = with_creatures(
        items,
        world.tables,
        EntityType::Character,
        map.id,
        world.tables.size(EntityType::Character),
    );
    with_creatures(
        characters,
        world.tables,
        EntityType::Monster,
        map.id,
        world.tables.size(EntityType::Monster),
    )
}

fn draw_creatures(
    frame: &mut ScreenBuffer,
    components: &Components,
    entity_type: EntityType,
    map_id: MapID,
)
    ensures
        final(frame)@ == with_creatures(
            old(frame)@,
            components@,
            entity_type,
            map_id,
            components@.size(entity_type),
        ),
        same_size(old(frame)@, final(frame)@),
{
    let count: usize = components.get_size(entity_type);
    let mut i: usize = 0;
    while i < count
        invariant
            i <= count,
            count == components@.size(entity_type),
            same_size(old(frame)@, frame@),
            frame@ == with_creatures(old(frame)@, components@, entity_type, map_id, i as nat),
        decreases count - i,
    {
        match identifier_of(entity_type, i) {
            Some(entity) => {
                match (
                    components.get_alive(entity),
                    components.get_map_index(entity),
                    components.get_position(entity),
                    components.get_creature(entity),
                ) {
                    (Some(alive), Some(map_index), Some(position), Some(creature)) => {
                        if alive.alive && map_index.map == map_id {
                            frame.relight(
                                position.x as i64,
                                position.y as i64,
                                creature_color(&creature.race),
                                creature_icon(&creature.race),
                            );
                        }
                    },
                    _ => {},
                }
            },
            None => {},
        }
        i = i + 1;
    }
}

pub fn draw_ingame(frame: &mut ScreenBuffer, game: &Game, screen: Screen)
    ensures
        final(frame)@ == with_ingame(old(frame)@, game@, screen),
        same_size(old(frame)@, final(frame)@),
{
    let map: &GameMap = &game.current_map;
    let mut y: u16 = 0;
    while y < screen.height
        invariant
            y <= screen.height,
            *map == *game.current_map,
            same_size(old(frame)@, frame@),
            frame@ == with_tiles(old(frame)@, *map, screen.width, y as nat),
        decreases screen.height - y,
    {
        let ghost lines = frame@;
        let mut x: u16 = 0;
        while x < screen.width
            invariant
                x <= screen.width,
                y < screen.height,
                *map == *game.current_map,
                same_size(old(frame)@, frame@),
                frame@ == with_tile_row(lines, *map, y, x as nat),
            decreases screen.width - x,
        {
            let width: u16 = map.width;
            assert(y * width <= 0xFFFF * 0xFFFF) by (nonlinear_arith)
                requires
                    y <= 0xFFFF,
                    width <= 0xFFFF,
            ;
            let place: u64 = y as u64 * width as u64 + x as u64;
            if place <= 0xFFFF && place < map.tiles.len() as u64 {
                let tile = map.get_tile(x, y);
                frame.relight(x as i64, y as i64, tile_color(tile), tile_icon(tile));
            }
            x = x + 1;
        }
        y = y + 1;
    }
    let ghost tiles = frame@;
    let mut i: usize = 0;
    while i < map.items.len()
        invariant
            i <= map.items@.len(),
            *map == *game.current_map,
            same_size(old(frame)@, frame@),
            frame@ == with_items_lying(tiles, *map, i as nat),
        decreases map.items@.len() - i,
    {
        if map.width > 0 {
            let (x, y) = map.index_to_coordinates(i);
            let items = &map.items[i];
            if items.len() > 0 {
                frame.relight(x as i64, y as i64, Color::White, item_icon(&items[0]));
            }
        }
        i = i + 1;
    }
    draw_creatures(frame, &game.components, EntityType::Character, map.id);
    draw_creatures(frame, &game.components, EntityType::Monster, map.id);
}

/// The frame for a world: the menu that is open, drawn into an empty frame,
/// or the map over what the frame showed while the game runs; and over
/// either the frame rate.
pub open spec fn framed(frame: Frame, world: World, screen: Screen) -> Frame {
    let drawn = match world.state {
        GameState::Menu(menu_type) => with_menu(cleared(frame), menu_type, world, screen.height),
        GameState::Running => with_ingame(frame, world, screen),
        _ => frame,
    };
    with_fps_counter(drawn, world.debug_info.history())
}

pub fn draw_frame(frame: &mut ScreenBuffer, game: &Game, screen: Screen)
    ensures
        final(frame)@ == framed(old(frame)@, game@, screen),
        same_size(old(frame)@, final(frame)@),
{
    match game.state {
        GameState::Menu(menu_type) => {
            frame.clear();
            draw_menu(menu_type, frame, game, screen.height);
        },
        GameState::Paused => (),
        GameState::Running => draw_ingame(frame, game, screen),
        GameState::QuitRequested => (),
    }
    draw_fps_counter(frame, &game.debug_info);
}

} // verus!
