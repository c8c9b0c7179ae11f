//! The grid together with the cursor that the arrow keys move over it.

use vstd::prelude::*;
use tui::widgets::TableState;
use crate::cursor::{step_down, step_left, step_right, step_up};
use crate::sudoku::{cell_text, cells_of, grid_of, row_cells, written, Cell, Sudoku};

verus! {

/// `tui::widgets::TableState`, taken as it is. Its fields are private to
/// tui, so all that contracts can say of a value goes through [`selection`].
#[verifier::external_type_specification]
#[verifier::external_body]
pub struct ExTableState(tui::widgets::TableState);

/// The index that a table state holds as selected, if it holds one: the
/// `selected` field of tui's `TableState`.
pub uninterp spec fn selection(state: TableState) -> Option<usize>;

/// `TableState::default`, taken on trust: the state it makes has nothing
/// selected.
pub assume_specification[ <TableState as Default>::default ]() -> (state: TableState)
    ensures
        selection(state) is None,
;

/// `TableState::selected`, taken on trust: it hands out the selected index
/// as the state holds it.
pub assume_specification[ TableState::selected ](state: &TableState) -> (index: Option<usize>)
    ensures
        index == selection(*state),
;

/// `TableState::select`, taken on trust: afterwards the state holds `index`
/// as its selection, whatever it held before.
pub assume_specification[ TableState::select ](state: &mut TableState, index: Option<usize>)
    ensures
        selection(*final(state)) == index,
;

/// The grid and the table state that carries the cursor over it.
pub struct StatefulGrid {
    items: Sudoku,
    state: TableState,
}

/// What a [`StatefulGrid`] stands for: the 81 cells by flat index, and the
/// flat index of the selected cell where one is selected.
pub struct GridView {
    pub cells: Seq<Cell>,
    pub cursor: Option<int>,
}

impl View for StatefulGrid {
    type V = GridView;

    closed spec fn view(&self) -> GridView {
        GridView {
            cells: self.items@,
            cursor: match selection(self.state) {
                Some(i) => Some(i as int),
                None => None,
            },
        }
    }
}

/// Where a key that moves the cursor takes it.
pub enum Direction {
    Right,
    Left,
    Down,
    Up,
}

/// The cursor after one move. A cursor that was not set starts on the first cell.
pub open spec fn moved(cursor: Option<int>, direction: Direction) -> Option<int> {
    match cursor {
        Some(i) => Some(
            match direction {
                Direction::Right => step_right(i),
                Direction::Left => step_left(i),
                Direction::Down => step_down(i),
                Direction::Up => step_up(i),
            },
        ),
        None => Some(0),
    }
}

/// The cells after `value` was entered at the cursor: without a cursor
/// nothing is written.
pub open spec fn entered(view: GridView, value: int) -> Seq<Cell> {
    match view.cursor {
        Some(i) => written(view.cells, i, value),
        None => view.cells,
    }
}

/// Width of one drawn cell, in characters.
pub const CELL_WIDTH: u16 = 2;

/// Blank columns between two drawn cells.
pub const COLUMN_SPACING: u16 = 1;

/// Width of the bordered panel around the grid: nine cells with their
/// spacing, and the border.
pub const PANEL_WIDTH: u16 = (CELL_WIDTH + COLUMN_SPACING) * 9 + 1;

/// Height of the bordered panel around the grid: nine rows and the border.
pub const PANEL_HEIGHT: u16 = 3 * 3 + 2;

/// How a cell is drawn.
#[derive(Clone, Copy, Debug, PartialEq, Eq)]
pub enum CellStyle {
    Normal,
    Selected,
    Clue,
    SelectedClue,
}

/// The colours that a cell's appearance uses.
#[derive(Clone, Copy, Debug, PartialEq, Eq)]
pub enum Tint {
    Cyan,
    LightCyan,
}

/// What a style looks like on the terminal.
#[derive(Clone, Copy, Debug, PartialEq, Eq)]
pub struct Appearance {
    pub fg: Option<Tint>,
    pub bg: Option<Tint>,
    pub reversed: bool,
    pub bold: bool,
}

/// A cell as it is drawn: its text and its style.
pub struct StyledCell {
    pub content: String,
    pub style: CellStyle,
}

/// The style of the cell with flat index `index`. The selected cell stands
/// out, a clue is told from an entered digit, and without a cursor every
/// cell is drawn alike.
pub open spec fn style_of(cursor: Option<int>, index: int, is_clue: bool) -> CellStyle {
    match cursor {
        Some(selected) => if selected == index {
            if is_clue {
                CellStyle::SelectedClue
            } else {
                CellStyle::Selected
            }
        } else if is_clue {
            CellStyle::Clue
        } else {
            CellStyle::Normal
        },
        None => CellStyle::Normal,
    }
}

/// The style of the cell with flat index `index`, by [`style_of`].
pub fn cell_style(selected: Option<usize>, index: usize, is_clue: bool) -> (style: CellStyle)
    ensures
        style == style_of(
            match selected {
                Some(i) => Some(i as int),
                None => None,
            },
            index as int,
            is_clue,
        ),
{
    let mut style = CellStyle::Normal;
    if let Some(selected_cell_index) = selected {
        if selected_cell_index == index {
            if is_clue {
                style = CellStyle::SelectedClue;
            } else {
                style = CellStyle::Selected;
            }
        } else if is_clue {
            style = CellStyle::Clue;
        }
    }
    style
}

impl CellStyle {
    /// The look of each style: the selected cell is reversed and bold, a
    /// selected clue reversed on cyan, a clue light cyan, and any other cell
    /// plain.
    pub fn appearance(self) -> (look: Appearance)
        ensures
            look.fg == (if self is Clue {
                Some(Tint::LightCyan)
            } else {
                None
            }),
            look.bg == (if self is SelectedClue {
                Some(Tint::Cyan)
            } else {
                None
            }),
            look.reversed == (self is Selected || self is SelectedClue),
            look.bold == (self is Selected),
    {
        let plain = Appearance { fg: None, bg: None, reversed: false, bold: false };
        match self {
            CellStyle::Selected => Appearance { reversed: true, bold: true, ..plain },
            CellStyle::SelectedClue => Appearance { bg: Some(Tint::Cyan), reversed: true, ..plain },
            CellStyle::Clue => Appearance { fg: Some(Tint::LightCyan), ..plain },
            CellStyle::Normal => plain,
        }
    }
}

/// A styled cell of the given text.
pub fn create_styled_cell(content: String, style: CellStyle) -> (cell: StyledCell)
    ensures
        cell.content == content,
        cell.style == style,
{
    StyledCell { content, style }
}

impl StatefulGrid {
    /// The cursor, where there is one, lies on the grid.
    pub open spec fn wf(&self) -> bool {
        match self@.cursor {
            Some(i) => 0 <= i <= 80,
            None => true,
        }
    }

    /// The grid of the given puzzle with the cursor on the first cell.
    pub fn new(sudoku_raw: Vec<[u8; 9]>) -> (table: StatefulGrid)
        requires
            sudoku_raw@.len() >= 9,
        ensures
            table@.cells == grid_of(sudoku_raw@),
            table@.cursor == Some(0int),
            table.wf(),
    {
        let mut table = StatefulGrid { items: Sudoku::from(sudoku_raw), state: TableState::default() };
        table.state.select(Some(0));
        return table;
    }

    /// The grid's cells.
    pub fn items(&self) -> (items: &Sudoku)
        ensures
            items@ == self@.cells,
    {
        &self.items
    }

    /// The table state that carries the cursor, for the widget that draws the grid.
    pub fn state(&self) -> (state: &TableState)
        ensures
            match selection(*state) {
                Some(i) => self@.cursor == Some(i as int),
                None => self@.cursor is None,
            },
    {
        &self.state
    }

    /// The flat index of the selected cell, if one is selected.
    pub fn selected(&self) -> (index: Option<usize>)
        ensures
            match index {
                Some(i) => self@.cursor == Some(i as int),
                None => self@.cursor is None,
            },
    {
        self.state.selected()
    }

    /// The grid always has its 81 cells.
    pub proof fn lemma_cell_count(&self)
        ensures
            self@.cells.len() == 81,
    {
    }

    /// The nine rows of the grid as they are drawn, top to bottom, each with
    /// its nine cells left to right: the cell's text and its style.
    pub fn styled_rows(&self) -> (rows: Vec<Vec<StyledCell>>)
        ensures
            rows@.len() == 9,
            forall|r: int| 0 <= r < 9 ==> (#[trigger] rows@[r])@.len() == 9,
            forall|r: int, c: int|
                0 <= r < 9 && 0 <= c < 9 ==> {
                    let cell = self@.cells[r * 9 + c];
                    let drawn = #[trigger] rows@[r]@[c];
                    &&& drawn.content@ == cell_text(cell)
                    &&& drawn.style == style_of(self@.cursor, r * 9 + c, cell.is_clue)
                },
    {
        let selected = self.state.selected();
        let mut sudoku_rows: Vec<Vec<StyledCell>> = Vec::new();
        for index in 0..9
            invariant
                selected == selection(self.state),
                sudoku_rows@.len() == index,
                forall|r: int| 0 <= r < index ==> (#[trigger] sudoku_rows@[r])@.len() == 9,
                forall|r: int, c: int|
                    0 <= r < index && 0 <= c < 9 ==> {
                        let cell = self@.cells[r * 9 + c];
                        let drawn = #[trigger] sudoku_rows@[r]@[c];
                        &&& drawn.content@ == cell_text(cell)
                        &&& drawn.style == style_of(self@.cursor, r * 9 + c, cell.is_clue)
                    },
        {
            if let Some(el_row) = self.items.row(index) {
                let mut drawn_row: Vec<StyledCell> = Vec::new();
                for i in 0..9
                    invariant
                        index < 9,
                        selected == selection(self.state),
                        cells_of(el_row@) == row_cells(self@.cells, index as int),
                        el_row@.len() == 9,
                        drawn_row@.len() == i,
                        forall|c: int|
                            0 <= c < i ==> {
                                let cell = self@.cells[index * 9 + c];
                                let drawn = #[trigger] drawn_row@[c];
                                &&& drawn.content@ == cell_text(cell)
                                &&& drawn.style == style_of(
                                    self@.cursor,
                                    index * 9 + c,
                                    cell.is_clue,
                                )
                            },
                {
                    let el = el_row[i];
                    assert(el@ == cells_of(el_row@)[i as int]);
                    let style = cell_style(selected, (index * 9) + i, el.is_clue());
                    drawn_row.push(create_styled_cell(el.to_string(), style));
                }
                sudoku_rows.push(drawn_row);
            }
        }
        sudoku_rows
    }

    /// Moves the cursor one cell to the right, around the end of its row.
    pub fn right(&mut self)
        requires
            old(self).wf(),
        ensures
            final(self).wf(),
            final(self)@.cells == old(self)@.cells,
            final(self)@.cursor == moved(old(self)@.cursor, Direction::Right),
    {
        let i = match self.state.selected() {
            Some(i) => {
                if i % 9 < 8 {
                    i + 1
                } else {
                    i - 8
                }
            },
            None => 0,
        };
        self.state.select(Some(i));
    }

    /// Moves the cursor one cell to the left, around the start of its row.
    pub fn left(&mut self)
        requires
            old(self).wf(),
        ensures
            final(self).wf(),
            final(self)@.cells == old(self)@.cells,
            final(self)@.cursor == moved(old(self)@.cursor, Direction::Left),
    {
        let i = match self.state.selected() {
            Some(i) => {
                if i % 9 > 0 {
                    i - 1
                } else {
                    i + 8
                }
            },
            None => 0,
        };
        self.state.select(Some(i));
    }

    /// Moves the cursor one cell down, around the bottom of its column.
    pub fn down(&mut self)
        requires
            old(self).wf(),
        ensures
            final(self).wf(),
            final(self)@.cells == old(self)@.cells,
            final(self)@.cursor == moved(old(self)@.cursor, Direction::Down),
    {
        let i = match self.state.selected() {
            Some(i) => {
                if i < 72 {
                    i + 9
                } else {
                    i - 72
                }
            },
            None => 0,
        };
        self.state.select(Some(i));
    }

    /// Moves the cursor one cell up, around the top of its column.
    pub fn up(&mut self)
        requires
            old(self).wf(),
        ensures
            final(self).wf(),
            final(self)@.cells == old(self)@.cells,
            final(self)@.cursor == moved(old(self)@.cursor, Direction::Up),
    {
        let i = match self.state.selected() {
            Some(i) => {
                if i > 8 {
                    i - 9
                } else {
                    i + 72
                }
            },
            None => 0,
        };
        self.state.select(Some(i));
    }
}

/// A key press, as far as the grid tells keys apart.
#[derive(Clone, Copy, Debug, PartialEq, Eq)]
pub enum Key {
    Right,
    Left,
    Down,
    Up,
    Esc,
    Backspace,
    Char(char),
    Other,
}

/// What the session does after a key press.
#[derive(Clone, Copy, Debug, PartialEq, Eq)]
pub enum Flow {
    Continue,
    Quit,
}

/// The digit that a character key enters: the keys '1' to '9' enter their digit.
pub open spec fn key_digit(c: char) -> Option<int> {
    if '1' <= c <= '9' {
        Some(c as int - '0' as int)
    } else {
        None
    }
}

/// Escape and 'q' end the session.
pub open spec fn quits(key: Key) -> bool {
    key == Key::Esc || key == Key::Char('q')
}

/// The grid after a key press: an arrow moves the cursor, a digit key writes
/// its digit at the cursor, backspace empties the cell at the cursor, and
/// every other key leaves the grid as it is.
pub open spec fn after_key(view: GridView, key: Key) -> GridView {
    match key {
        Key::Right => GridView { cursor: moved(view.cursor, Direction::Right), ..view },
        Key::Left => GridView { cursor: moved(view.cursor, Direction::Left), ..view },
        Key::Down => GridView { cursor: moved(view.cursor, Direction::Down), ..view },
        Key::Up => GridView { cursor: moved(view.cursor, Direction::Up), ..view },
        Key::Backspace => GridView { cells: entered(view, 0), ..view },
        Key::Char(c) => match key_digit(c) {
            Some(digit) => GridView { cells: entered(view, digit), ..view },
            None => view,
        },
        Key::Esc | Key::Other => view,
    }
}

/// Takes one key press: changes the grid as [`after_key`] says and tells
/// whether the session goes on.
pub fn handle_key(sudoku_grid: &mut StatefulGrid, key: Key) -> (flow: Flow)
    requires
        old(sudoku_grid).wf(),
    ensures
        final(sudoku_grid).wf(),
        final(sudoku_grid)@ == after_key(old(sudoku_grid)@, key),
        flow == (if quits(key) {
            Flow::Quit
        } else {
            Flow::Continue
        }),
{
    match key {
        Key::Right => sudoku_grid.right(),
        Key::Left => sudoku_grid.left(),
        Key::Down => sudoku_grid.down(),
        Key::Up => sudoku_grid.up(),
        Key::Esc | Key::Char('q') => {
            return Flow::Quit;
        },
        Key::Char('1') => { enter_value(sudoku_grid, 1); },
        Key::Char('2') => { enter_value(sudoku_grid, 2); },
        Key::Char('3') => { enter_value(sudoku_grid, 3); },
        Key::Char('4') => { enter_value(sudoku_grid, 4); },
        Key::Char('5') => { enter_value(sudoku_grid, 5); },
        Key::Char('6') => { enter_value(sudoku_grid, 6); },
        Key::Char('7') => { enter_value(sudoku_grid, 7); },
        Key::Char('8') => { enter_value(sudoku_grid, 8); },
        Key::Char('9') => { enter_value(sudoku_grid, 9); },
        Key::Backspace => { enter_value(sudoku_grid, 0); },
        _ => (),
    }
    Flow::Continue
}

/// Writes `value` to the cell under the cursor and says whether it did:
/// nothing is written without a cursor, with a cursor off the grid, or with a
/// value past 9. The cursor stays where it is.
pub fn enter_value(sudoku_grid: &mut StatefulGrid, value: u8) -> (r: bool)
    ensures
        final(sudoku_grid)@.cursor == old(sudoku_grid)@.cursor,
        final(sudoku_grid)@.cells == entered(old(sudoku_grid)@, value as int),
        r == (old(sudoku_grid)@.cursor matches Some(i) && 0 <= i <= 80 && value <= 9),
{
    if let Some(grid_index) = sudoku_grid.state.selected() {
        sudoku_grid.items.set_element(grid_index, value)
    } else {
        false
    }
}

} // verus!
