//! The frames that are drawn: a grid of cells for the screen, the frame
//! that was shown last, and what has changed between the two.

use vstd::prelude::*;
use vstd::string::StringExecFns;
use crate::game::Game;
use crate::ui::terminal::drawing::{draw_frame, framed};
use crate::ui::terminal::style::Color;

verus! {

pub const MIN_WIDTH: u16 = 80;

pub const MIN_HEIGHT: u16 = 24;

/// The digit that stands for a number below ten.
pub open spec fn digit(value: nat) -> char {
    if value == 0 {
        '0'
    } else if value == 1 {
        '1'
    } else if value == 2 {
        '2'
    } else if value == 3 {
        '3'
    } else if value == 4 {
        '4'
    } else if value == 5 {
        '5'
    } else if value == 6 {
        '6'
    } else if value == 7 {
        '7'
    } else if value == 8 {
        '8'
    } else {
        '9'
    }
}

/// A number written in decimal digits, without leading zeros.
pub open spec fn decimal(value: nat) -> Seq<char>
    decreases value,
{
    if value < 10 {
        seq![digit(value)]
    } else {
        decimal(value / 10).push(digit(value % 10))
    }
}

/// What is said of a terminal with too few columns or lines.
pub open spec fn too_small(dimension: Seq<char>, actual: u16, minimum: u16) -> Seq<char> {
    "Terminal "@ + dimension + " of "@ + decimal(actual as nat) + " is below the minimum of "@
        + decimal(minimum as nat) + " characters"@
}

/// Wraps `format!` with `{}` on a `u32`, which writes the number in decimal
/// digits, without sign or leading zeros.
#[verifier::external_body]
pub(crate) fn decimal_text(value: u32) -> (text: String)
    ensures
        text@ == decimal(value as nat),
{
    format!("{}", value)
}

/// Says that a terminal has too few columns or lines.
fn too_small_message(dimension: &str, actual: u16, minimum: u16) -> (message: String)
    ensures
        message@ == too_small(dimension@, actual, minimum),
{
    let actual_text = decimal_text(actual as u32);
    let minimum_text = decimal_text(minimum as u32);
    String::from_str("Terminal ").concat(dimension).concat(" of ").concat(
        actual_text.as_str(),
    ).concat(" is below the minimum of ").concat(minimum_text.as_str()).concat(" characters")
}

/// Why the screen could not be set up.
#[derive(Debug)]
pub struct TerminalError {
    message: String,
}

impl TerminalError {
    /// What the error says.
    pub closed spec fn text(&self) -> Seq<char> {
        self.message@
    }

    pub fn to_string(&self) -> (text: String)
        ensures
            text@ == self.text(),
    {
        self.message.clone()
    }
}

/// The actual terminal that is used.
#[derive(Clone, Copy, Debug, PartialEq, Eq, Structural)]
pub struct Terminal {
    pub width: u16,
    pub height: u16,
}

/// The virtual screen that is drawn on.
#[derive(Clone, Copy, Debug, PartialEq, Eq, Structural)]
pub struct Screen {
    pub width: u16,
    pub height: u16,
}

/// What a cell of the screen shows.
#[derive(Copy, Clone, Debug, PartialEq, Eq, Hash, Structural)]
pub struct DrawInfo {
    pub background: Color,
    pub color: Color,
    pub icon: char,
}

/// What can be drawn in a cell.
pub trait Drawable {
    fn get_color(&self) -> Color;

    fn get_icon(&self) -> char;
}

/// An empty cell: a white space on black.
pub open spec fn blank() -> DrawInfo {
    DrawInfo { background: Color::Black, color: Color::White, icon: ' ' }
}

/// A cell with the colour and icon of another, on the background it had.
pub open spec fn shown(last: DrawInfo, current: DrawInfo) -> DrawInfo {
    DrawInfo { color: current.color, icon: current.icon, ..last }
}

/// A grid of cells, stored row by row.
pub struct ScreenBuffer {
    width: u16,
    tiles: Vec<DrawInfo>,
}

/// What a grid of cells holds: its cells, row by row, and the number of cells
/// in a row.
#[verifier::ext_equal]
pub struct Frame {
    pub cells: Seq<DrawInfo>,
    pub width: u16,
}

impl Frame {
    /// The place of a cell in the rows.
    pub open spec fn place(self, column: int, line: int) -> int {
        line * self.width + column
    }

    /// Whether the frame has a cell at a column of a line: both are counted
    /// in 16 bits, and so is the place of the cell, which lies in the rows.
    pub open spec fn has(self, column: int, line: int) -> bool {
        &&& 0 <= column <= u16::MAX
        &&& 0 <= line <= u16::MAX
        &&& self.place(column, line) <= u16::MAX
        &&& self.place(column, line) < self.cells.len()
    }

    /// The frame with a cell painted over. What the frame has no cell for is
    /// not painted.
    pub open spec fn painted(self, column: int, line: int, info: DrawInfo) -> Frame {
        if self.has(column, line) {
            Frame { cells: self.cells.update(self.place(column, line), info), ..self }
        } else {
            self
        }
    }

    /// The frame with a new colour and icon in a cell, on the background that
    /// the cell has.
    pub open spec fn relit(self, column: int, line: int, color: Color, icon: char) -> Frame {
        if self.has(column, line) {
            self.painted(
                column,
                line,
                DrawInfo { color, icon, ..self.cells[self.place(column, line)] },
            )
        } else {
            self
        }
    }
}

/// A frame of the same size with every cell empty.
pub open spec fn cleared(frame: Frame) -> Frame {
    Frame { cells: Seq::new(frame.cells.len(), |i: int| blank()), ..frame }
}

/// Whether two frames have as many cells, in rows as wide.
pub open spec fn same_size(first: Frame, second: Frame) -> bool {
    first.width == second.width && first.cells.len() == second.cells.len()
}

impl View for ScreenBuffer {
    type V = Frame;

    closed spec fn view(&self) -> Frame {
        Frame { cells: self.tiles@, width: self.width }
    }
}

impl ScreenBuffer {
    /// The place of a cell in the rows.
    pub open spec fn place(&self, x: u16, y: u16) -> int {
        self@.place(x as int, y as int)
    }

    /// Whether the place of a cell can be computed in 16 bits and lies in the
    /// grid.
    pub open spec fn holds(&self, x: u16, y: u16) -> bool {
        self@.has(x as int, y as int)
    }

    /// A grid of empty cells. The cells are counted in 16 bits.
    pub fn new(width: u16, height: u16) -> (buffer: Self)
        requires
            width * height <= u16::MAX,
        ensures
            buffer@.width == width,
            buffer@.cells == Seq::new((width * height) as nat, |i: int| blank()),
    {
        let cells: u16 = width * height;
        let mut result = Self { width, tiles: Vec::with_capacity(cells as usize) };
        let mut filled: u16 = 0;
        while filled < cells
            invariant
                filled <= cells,
                result.width == width,
                result.tiles@ == Seq::new(filled as nat, |i: int| blank()),
            decreases cells - filled,
        {
            result.tiles.push(
                DrawInfo { background: Color::Black, color: Color::White, icon: ' ' },
            );
            filled = filled + 1;
        }
        result
    }

    /// Paints over a cell, if the grid has it.
    pub fn paint(&mut self, column: i64, line: i64, info: DrawInfo)
        ensures
            final(self)@ == old(self)@.painted(column as int, line as int, info),
            same_size(old(self)@, final(self)@),
    {
        if 0 <= column && column <= 0xFFFF && 0 <= line && line <= 0xFFFF {
            let width: u16 = self.width;
            assert(0 <= line * width <= 0xFFFF * 0xFFFF) by (nonlinear_arith)
                requires
                    0 <= line <= 0xFFFF,
                    width <= 0xFFFF,
            ;
            let place: u64 = (line as u64) * (width as u64) + (column as u64);
            if place <= 0xFFFF && place < self.tiles.len() as u64 {
                self.tiles[place as usize] = info;
            }
        }
    }

    /// Gives a cell a colour and an icon, if the grid has it.
    pub fn relight(&mut self, column: i64, line: i64, color: Color, icon: char)
        ensures
            final(self)@ == old(self)@.relit(column as int, line as int, color, icon),
            same_size(old(self)@, final(self)@),
    {
        if 0 <= column && column <= 0xFFFF && 0 <= line && line <= 0xFFFF {
            let width: u16 = self.width;
            assert(0 <= line * width <= 0xFFFF * 0xFFFF) by (nonlinear_arith)
                requires
                    0 <= line <= 0xFFFF,
                    width <= 0xFFFF,
            ;
            let place: u64 = (line as u64) * (width as u64) + (column as u64);
            if place <= 0xFFFF && place < self.tiles.len() as u64 {
                self.tiles[place as usize].color = color;
                self.tiles[place as usize].icon = icon;
            }
        }
    }

    /// Empties every cell.
    pub fn clear(&mut self)
        ensures
            final(self)@ == cleared(old(self)@),
            same_size(old(self)@, final(self)@),
    {
        let cells: usize = self.tiles.len();
        let mut i: usize = 0;
        while i < cells
            invariant
                i <= cells,
                cells == self.tiles@.len(),
                self.width == old(self).width,
                self.tiles@.len() == old(self).tiles@.len(),
                forall|j: int| 0 <= j < i ==> self.tiles@[j] == blank(),
            decreases cells - i,
        {
            self.tiles[i] = DrawInfo { background: Color::Black, color: Color::White, icon: ' ' };
            i = i + 1;
        }
    }

    /// What a cell shows, if the grid has the cell.
    pub fn get(&self, x: u16, y: u16) -> (cell: Option<DrawInfo>)
        ensures
            cell == if self@.has(x as int, y as int) {
                Some(self@.cells[self@.place(x as int, y as int)])
            } else {
                None
            },
    {
        if self.can_hold(x, y) {
            let index: usize = (y * self.width + x) as usize;
            Some(self.tiles[index])
        } else {
            None
        }
    }

    /// The number of cells in a row.
    pub fn get_width(&self) -> (width: u16)
        ensures
            width == self@.width,
    {
        self.width
    }

    /// Whether a cell can be drawn on.
    pub fn can_hold(&self, x: u16, y: u16) -> (holds: bool)
        ensures
            holds == self.holds(x, y),
    {
        let width: u16 = self.width;
        assert(y * width <= 0xFFFF * 0xFFFF) by (nonlinear_arith)
            requires
                y <= 0xFFFF,
                width <= 0xFFFF,
        ;
        let place: u64 = y as u64 * width as u64 + x as u64;
        place <= 0xFFFF && place < self.tiles.len() as u64
    }

    /// Gives a cell the colour and icon of another.
    fn set_by_index(&mut self, index: usize, tile: &DrawInfo)
        requires
            index < old(self)@.cells.len(),
        ensures
            final(self)@.width == old(self)@.width,
            final(self)@.cells == old(self)@.cells.update(
                index as int,
                shown(old(self)@.cells[index as int], *tile),
            ),
    {
        self.tiles[index].color = tile.color;
        self.tiles[index].icon = tile.icon;
    }

    pub fn set_background(&mut self, x: u16, y: u16, background: Color)
        requires
            old(self).holds(x, y),
        ensures
            final(self)@.width == old(self)@.width,
            final(self)@.cells == old(self)@.cells.update(
                old(self).place(x, y),
                DrawInfo { background, ..old(self)@.cells[old(self).place(x, y)] },
            ),
    {
        let index: usize = (y * self.width + x) as usize;
        self.tiles[index].background = background;
    }

    pub fn set_color(&mut self, x: u16, y: u16, color: Color)
        requires
            old(self).holds(x, y),
        ensures
            final(self)@.width == old(self)@.width,
            final(self)@.cells == old(self)@.cells.update(
                old(self).place(x, y),
                DrawInfo { color, ..old(self)@.cells[old(self).place(x, y)] },
            ),
    {
        let index: usize = (y * self.width + x) as usize;
        self.tiles[index].color = color;
    }

    pub fn set_icon(&mut self, x: u16, y: u16, icon: char)
        requires
            old(self).holds(x, y),
        ensures
            final(self)@.width == old(self)@.width,
            final(self)@.cells == old(self)@.cells.update(
                old(self).place(x, y),
                DrawInfo { icon, ..old(self)@.cells[old(self).place(x, y)] },
            ),
    {
        let index: usize = (y * self.width + x) as usize;
        self.tiles[index].icon = icon;
    }
}

/// A cell that has to be drawn again.
#[derive(Copy, Clone, Debug, PartialEq, Eq, Structural)]
pub struct Change {
    pub x: u16,
    pub y: u16,
    pub draw_info: DrawInfo,
}

/// The frame that is being drawn, the frame that was shown last, and which
/// cells differ between the two.
pub struct RenderState {
    current_frame: ScreenBuffer,
    frame_diff: Vec<bool>,
    hard_refresh: bool,
    last_frame: ScreenBuffer,
    pub screen: Screen,
}

/// The cells of a frame that have to be drawn again, in the order of the
/// rows, among the first `upto` cells: all of them after a hard refresh, and
/// otherwise those that differ from what was shown last.
pub open spec fn changes(
    current: Seq<DrawInfo>,
    last: Seq<DrawInfo>,
    hard_refresh: bool,
    width: u16,
    upto: nat,
) -> Seq<Change>
    decreases upto,
{
    if upto == 0 {
        Seq::empty()
    } else {
        let i = (upto - 1) as nat;
        let before = changes(current, last, hard_refresh, width, i);
        if hard_refresh || last[i as int] != current[i as int] {
            before.push(
                Change {
                    x: (i as u16 % width) as u16,
                    y: (i as u16 / width) as u16,
                    draw_info: current[i as int],
                },
            )
        } else {
            before
        }
    }
}

impl RenderState {
    /// The frame that is being drawn.
    pub closed spec fn current(&self) -> ScreenBuffer {
        self.current_frame
    }

    /// The frame that was shown last.
    pub closed spec fn last(&self) -> ScreenBuffer {
        self.last_frame
    }

    /// For each cell whether it differed between the two frames when they
    /// were last compared.
    pub closed spec fn differences(&self) -> Seq<bool> {
        self.frame_diff@
    }

    /// Whether every cell is drawn again, changed or not.
    pub closed spec fn refreshes(&self) -> bool {
        self.hard_refresh
    }

    /// The screen that the frames are for.
    pub closed spec fn spec_screen(&self) -> Screen {
        self.screen
    }

    /// The number of cells of the screen.
    pub open spec fn area(&self) -> int {
        self.spec_screen().width * self.spec_screen().height
    }

    /// Both frames and the differences have a cell for each cell of the
    /// screen, and the cells are counted in 16 bits.
    pub open spec fn wf(&self) -> bool {
        &&& self.area() <= u16::MAX
        &&& self.current()@.width == self.spec_screen().width
        &&& self.last()@.width == self.spec_screen().width
        &&& self.current()@.cells.len() == self.area()
        &&& self.last()@.cells.len() == self.area()
        &&& self.differences().len() == self.area()
    }

    /// Two empty frames of which every cell counts as changed.
    fn new(width: u16, height: u16) -> (state: Self)
        requires
            width * height <= u16::MAX,
        ensures
            state.wf(),
            state.spec_screen() == (Screen { width, height }),
            state.current()@.cells == Seq::new((width * height) as nat, |i: int| blank()),
            state.last()@.cells == Seq::new((width * height) as nat, |i: int| blank()),
            state.differences() == Seq::new((width * height) as nat, |i: int| true),
            !state.refreshes(),
    {
        let cells: u16 = width * height;
        let mut result = Self {
            current_frame: ScreenBuffer::new(width, height),
            frame_diff: Vec::with_capacity(cells as usize),
            hard_refresh: false,
            last_frame: ScreenBuffer::new(width, height),
            screen: Screen { width, height },
        };
        let mut filled: u16 = 0;
        while filled < cells
            invariant
                filled <= cells,
                cells == width * height,
                result.screen == (Screen { width, height }),
                result.current_frame@.width == width,
                result.last_frame@.width == width,
                result.current_frame@.cells == Seq::new(
                    (width * height) as nat,
                    |i: int| blank(),
                ),
                result.last_frame@.cells == Seq::new((width * height) as nat, |i: int| blank()),
                !result.hard_refresh,
                result.frame_diff@ == Seq::new(filled as nat, |i: int| true),
            decreases cells - filled,
        {
            result.frame_diff.push(true);
            filled = filled + 1;
        }
        result
    }

    /// Whether a cell of the frame that is being drawn can be drawn on.
    pub fn can_draw(&self, x: u16, y: u16) -> (able: bool)
        ensures
            able == self.current().holds(x, y),
    {
        self.current_frame.can_hold(x, y)
    }

    /// Sets the background of a cell of the frame that is being drawn.
    pub fn set_background(&mut self, x: u16, y: u16, background: Color)
        requires
            old(self).current().holds(x, y),
        ensures
            final(self).current()@.width == old(self).current()@.width,
            final(self).current()@.cells == old(self).current()@.cells.update(
                old(self).current().place(x, y),
                DrawInfo {
                    background,
                    ..old(self).current()@.cells[old(self).current().place(x, y)]
                },
            ),
            final(self).last() == old(self).last(),
            final(self).differences() == old(self).differences(),
            final(self).refreshes() == old(self).refreshes(),
            final(self).spec_screen() == old(self).spec_screen(),
    {
        self.current_frame.set_background(x, y, background);
    }

    /// Sets the colour of a cell of the frame that is being drawn.
    pub fn set_color(&mut self, x: u16, y: u16, color: Color)
        requires
            old(self).current().holds(x, y),
        ensures
            final(self).current()@.width == old(self).current()@.width,
            final(self).current()@.cells == old(self).current()@.cells.update(
                old(self).current().place(x, y),
                DrawInfo { color, ..old(self).current()@.cells[old(self).current().place(x, y)] },
            ),
            final(self).last() == old(self).last(),
            final(self).differences() == old(self).differences(),
            final(self).refreshes() == old(self).refreshes(),
            final(self).spec_screen() == old(self).spec_screen(),
    {
        self.current_frame.set_color(x, y, color);
    }

    /// Sets the icon of a cell of the frame that is being drawn.
    pub fn set_icon(&mut self, x: u16, y: u16, icon: char)
        requires
            old(self).current().holds(x, y),
        ensures
            final(self).current()@.width == old(self).current()@.width,
            final(self).current()@.cells == old(self).current()@.cells.update(
                old(self).current().place(x, y),
                DrawInfo { icon, ..old(self).current()@.cells[old(self).current().place(x, y)] },
            ),
            final(self).last() == old(self).last(),
            final(self).differences() == old(self).differences(),
            final(self).refreshes() == old(self).refreshes(),
            final(self).spec_screen() == old(self).spec_screen(),
    {
        self.current_frame.set_icon(x, y, icon);
    }
}

/// Notes for each cell of a frame whether another frame differs from it
/// there. The other frame and the notes have to be as long as the frame at
/// least; notes beyond its length stay as they are.
fn diff(old_frame: &ScreenBuffer, new_frame: &ScreenBuffer, diff: &mut Vec<bool>)
    requires
        old_frame@.cells.len() <= new_frame@.cells.len(),
        old_frame@.cells.len() <= old(diff)@.len(),
    ensures
        final(diff)@.len() == old(diff)@.len(),
        forall|i: int|
            0 <= i < old_frame@.cells.len() ==> final(diff)@[i] == (old_frame@.cells[i]
                != new_frame@.cells[i]),
        forall|i: int|
            old_frame@.cells.len() <= i < old(diff)@.len() ==> final(diff)@[i] == old(diff)@[i],
{
    let length: usize = old_frame.tiles.len();
    let mut i: usize = 0;
    while i < length
        invariant
            i <= length,
            length == old_frame@.cells.len(),
            length <= new_frame@.cells.len(),
            diff@.len() == old(diff)@.len(),
            length <= diff@.len(),
            forall|j: int|
                0 <= j < i ==> diff@[j] == (old_frame@.cells[j] != new_frame@.cells[j]),
            forall|j: int| i <= j < diff@.len() ==> diff@[j] == old(diff)@[j],
        decreases length - i,
    {
        diff[i] = old_frame.tiles[i] != new_frame.tiles[i];
        i = i + 1;
    }
}

/// Sets up the frames for a terminal, which has to have 80 columns and 24
/// lines at least. The cells of the screen are counted in 16 bits.
pub fn create_render_state(terminal: Terminal) -> (made: Result<RenderState, TerminalError>)
    requires
        terminal.width * terminal.height <= u16::MAX,
    ensures
        terminal.width < MIN_WIDTH ==> made is Err && made->Err_0.text() == too_small(
            "width"@,
            terminal.width,
            MIN_WIDTH,
        ),
        terminal.width >= MIN_WIDTH && terminal.height < MIN_HEIGHT ==> made is Err
            && made->Err_0.text() == too_small("height"@, terminal.height, MIN_HEIGHT),
        terminal.width >= MIN_WIDTH && terminal.height >= MIN_HEIGHT ==> made is Ok && ({
            let state = made->Ok_0;
            &&& state.wf()
            &&& state.spec_screen() == (Screen { width: terminal.width, height: terminal.height })
            &&& state.current()@.cells == Seq::new(state.area() as nat, |i: int| blank())
            &&& state.last()@.cells == Seq::new(state.area() as nat, |i: int| blank())
            &&& state.differences() == Seq::new(state.area() as nat, |i: int| true)
            &&& !state.refreshes()
        }),
{
    if terminal.width < MIN_WIDTH {
        return Err(
            TerminalError { message: too_small_message("width", terminal.width, MIN_WIDTH) },
        );
    }
    if terminal.height < MIN_HEIGHT {
        return Err(
            TerminalError { message: too_small_message("height", terminal.height, MIN_HEIGHT) },
        );
    }
    let result = RenderState::new(terminal.width, terminal.height);
    Ok(result)
}

/// Empties the frame that is being drawn.
pub fn clear_frame(render_state: &mut RenderState)
    requires
        old(render_state).wf(),
    ensures
        final(render_state).wf(),
        final(render_state).current()@.cells == Seq::new(
            old(render_state).area() as nat,
            |i: int| blank(),
        ),
        final(render_state).last() == old(render_state).last(),
        final(render_state).differences() == old(render_state).differences(),
        final(render_state).refreshes() == old(render_state).refreshes(),
        final(render_state).spec_screen() == old(render_state).spec_screen(),
{
    let cells: usize = render_state.current_frame.tiles.len();
    let mut i: usize = 0;
    while i < cells
        invariant
            i <= cells,
            cells == render_state.current_frame@.cells.len(),
            cells == old(render_state).area(),
            render_state.wf(),
            render_state.last() == old(render_state).last(),
            render_state.differences() == old(render_state).differences(),
            render_state.refreshes() == old(render_state).refreshes(),
            render_state.screen == old(render_state).spec_screen(),
            forall|j: int| 0 <= j < i ==> render_state.current_frame@.cells[j] == blank(),
        decreases cells - i,
    {
        render_state.current_frame.tiles[i] = DrawInfo {
            background: Color::Black,
            color: Color::White,
            icon: ' ',
        };
        i = i + 1;
    }
}

/// Asks for every cell to be drawn again: the frame that is being drawn gets
/// its backgrounds back, and the frame that was shown last is taken to show
/// white spaces.
pub fn refresh_back_buffer(render_state: &mut RenderState)
    requires
        old(render_state).wf(),
    ensures
        final(render_state).wf(),
        final(render_state).refreshes(),
        final(render_state).spec_screen() == old(render_state).spec_screen(),
        final(render_state).differences() == old(render_state).differences(),
        forall|i: int|
            0 <= i < old(render_state).area() ==> final(render_state).current()@.cells[i] == (
            DrawInfo { background: Color::Black, ..old(render_state).current()@.cells[i] }),
        forall|i: int|
            0 <= i < old(render_state).area() ==> final(render_state).last()@.cells[i] == (
            DrawInfo {
                color: Color::White,
                icon: ' ',
                ..old(render_state).last()@.cells[i]
            }),
{
    render_state.hard_refresh = true;
    let cells: usize = render_state.current_frame.tiles.len();
    let mut i: usize = 0;
    while i < cells
        invariant
            i <= cells,
            cells == old(render_state).area(),
            render_state.wf(),
            render_state.hard_refresh,
            render_state.screen == old(render_state).spec_screen(),
            render_state.differences() == old(render_state).differences(),
            forall|j: int|
                0 <= j < i ==> render_state.current_frame@.cells[j] == (DrawInfo {
                    background: Color::Black,
                    ..old(render_state).current()@.cells[j]
                }),
            forall|j: int|
                i <= j < cells ==> render_state.current_frame@.cells[j]
                    == old(render_state).current()@.cells[j],
            forall|j: int|
                0 <= j < i ==> render_state.last_frame@.cells[j] == (DrawInfo {
                    color: Color::White,
                    icon: ' ',
                    ..old(render_state).last()@.cells[j]
                }),
            forall|j: int|
                i <= j < cells ==> render_state.last_frame@.cells[j]
                    == old(render_state).last()@.cells[j],
        decreases cells - i,
    {
        render_state.current_frame.tiles[i].background = Color::Black;
        render_state.last_frame.tiles[i].color = Color::White;
        render_state.last_frame.tiles[i].icon = ' ';
        i = i + 1;
    }
}

/// Compares the frame that is being drawn with the one that was shown last
/// and gives the cells that have to be drawn again, in the order of the rows.
/// The frame that was shown last takes their colours and icons, and the hard
/// refresh, if one was asked for, is done.
pub fn take_changes(render_state: &mut RenderState) -> (changed: Vec<Change>)
    requires
        old(render_state).wf(),
    ensures
        final(render_state).wf(),
        final(render_state).spec_screen() == old(render_state).spec_screen(),
        final(render_state).current() == old(render_state).current(),
        !final(render_state).refreshes(),
        changed@ == changes(
            old(render_state).current()@.cells,
            old(render_state).last()@.cells,
            old(render_state).refreshes(),
            old(render_state).spec_screen().width,
            old(render_state).area() as nat,
        ),
        forall|i: int|
            0 <= i < old(render_state).area() ==> final(render_state).differences()[i]
                == (old(render_state).last()@.cells[i] != old(render_state).current()@.cells[i]),
        forall|i: int|
            0 <= i < old(render_state).area() ==> final(render_state).last()@.cells[i]
                == if old(render_state).refreshes() || old(render_state).last()@.cells[i]
                != old(render_state).current()@.cells[i] {
                shown(old(render_state).last()@.cells[i], old(render_state).current()@.cells[i])
            } else {
                old(render_state).last()@.cells[i]
            },
{
    diff(&render_state.last_frame, &render_state.current_frame, &mut render_state.frame_diff);
    let wrap_point: u16 = render_state.screen.width;
    let cells: usize = render_state.current_frame.tiles.len();
    let mut changed: Vec<Change> = Vec::new();
    let mut i: usize = 0;
    while i < cells
        invariant
            i <= cells,
            cells == old(render_state).area(),
            wrap_point == old(render_state).spec_screen().width,
            render_state.wf(),
            render_state.screen == old(render_state).spec_screen(),
            render_state.current() == old(render_state).current(),
            render_state.refreshes() == old(render_state).refreshes(),
            forall|j: int|
                0 <= j < cells ==> render_state.frame_diff@[j]
                    == (old(render_state).last()@.cells[j]
                    != old(render_state).current()@.cells[j]),
            changed@ == changes(
                old(render_state).current()@.cells,
                old(render_state).last()@.cells,
                old(render_state).refreshes(),
                wrap_point,
                i as nat,
            ),
            forall|j: int|
                0 <= j < i ==> render_state.last_frame@.cells[j]
                    == if old(render_state).refreshes() || old(render_state).last()@.cells[j]
                    != old(render_state).current()@.cells[j] {
                    shown(
                        old(render_state).last()@.cells[j],
                        old(render_state).current()@.cells[j],
                    )
                } else {
                    old(render_state).last()@.cells[j]
                },
            forall|j: int|
                i <= j < cells ==> render_state.last_frame@.cells[j]
                    == old(render_state).last()@.cells[j],
        decreases cells - i,
    {
        if render_state.frame_diff[i] || render_state.hard_refresh {
            let ghost height = render_state.screen.height;
            assert(wrap_point > 0) by (nonlinear_arith)
                requires
                    i < wrap_point * height,
            ;
            let x: u16 = i as u16 % wrap_point;
            let y: u16 = i as u16 / wrap_point;
            let draw_info: DrawInfo = render_state.current_frame.tiles[i];
            changed.push(Change { x, y, draw_info });
            render_state.last_frame.set_by_index(i, &draw_info);
        }
        i = i + 1;
    }
    render_state.hard_refresh = false;
    changed
}

/// Draws the frame for a game as it stands: the menu that is open, or the map
/// and what is on it while the game runs, and over either the frame rate.
pub fn generate_frame(render_state: &mut RenderState, game: &Game)
    requires
        old(render_state).wf(),
    ensures
        final(render_state).wf(),
        final(render_state).current()@ == framed(
            old(render_state).current()@,
            game@,
            old(render_state).spec_screen(),
        ),
        final(render_state).last() == old(render_state).last(),
        final(render_state).differences() == old(render_state).differences(),
        final(render_state).refreshes() == old(render_state).refreshes(),
        final(render_state).spec_screen() == old(render_state).spec_screen(),
{
    let screen: Screen = render_state.screen;
    draw_frame(&mut render_state.current_frame, game, screen);
}

} // verus!
