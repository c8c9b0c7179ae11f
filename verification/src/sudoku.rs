//! The grid: 81 cells grouped into nine 3x3 boxes.
//!
//! Modulo (%) by 9 gives the position within a row (horizontal movement),
//! division (/) by 9 gives the position within a column (vertical movement).

use vstd::prelude::*;
use vstd::string::{StrSliceExecFns, StringExecFns};
use crate::layout::{box_index, cell_index, flat_index};

verus! {

/// What a cell holds: a digit, where 0 stands for "empty", and whether the
/// digit was part of the puzzle as given.
pub struct Cell {
    pub value: nat,
    pub is_clue: bool,
}

/// The cell that a raw puzzle value turns into: a value past 9 is replaced by
/// an empty cell, and every nonzero value counts as a clue.
pub open spec fn cell_of(value: u8) -> Cell {
    if value <= 9 {
        Cell { value: value as nat, is_clue: value > 0 }
    } else {
        Cell { value: 0, is_clue: false }
    }
}

/// The character that shows a digit.
pub open spec fn digit_char(value: nat) -> char {
    ('0' as nat + value) as char
}

/// How a cell is shown: its digit, or a blank when it is empty.
pub open spec fn cell_text(cell: Cell) -> Seq<char> {
    if cell.value > 0 {
        seq![digit_char(cell.value)]
    } else {
        seq![' ']
    }
}

/// What follows cell `index` in the text of a box: a line break after each
/// of the first two rows, a blank everywhere else, also after the last cell.
pub open spec fn separator(index: int) -> Seq<char> {
    if index % 3 == 2 && index != 8 {
        seq!['\n']
    } else {
        seq![' ']
    }
}

/// The text of the first `n` cells of a box, each followed by its separator.
pub open spec fn box_text(cells: Seq<Cell>, n: nat) -> Seq<char>
    decreases n,
{
    if n == 0 {
        Seq::empty()
    } else {
        box_text(cells, (n - 1) as nat) + cell_text(cells[n - 1]) + separator(n - 1)
    }
}

/// The grid that 81 raw values make, read as nine rows of nine: the cell with
/// flat index `i` comes from column `i % 9` of row `i / 9`.
pub open spec fn grid_of(rows: Seq<[u8; 9]>) -> Seq<Cell> {
    Seq::new(81, |i: int| cell_of(rows[i / 9][i % 9]))
}

/// The grid after `value` was written to flat index `index`: the cell takes
/// the value and keeps its clue flag, and an index past 80 or a value past 9
/// changes nothing.
pub open spec fn written(cells: Seq<Cell>, index: int, value: int) -> Seq<Cell> {
    if 0 <= index <= 80 && 0 <= value <= 9 {
        cells.update(index, Cell { value: value as nat, is_clue: cells[index].is_clue })
    } else {
        cells
    }
}

/// The nine cells of grid row `r`, left to right.
pub open spec fn row_cells(cells: Seq<Cell>, r: int) -> Seq<Cell> {
    cells.subrange(r * 9, r * 9 + 9)
}

/// The nine cells of grid column `c`, top to bottom.
pub open spec fn col_cells(cells: Seq<Cell>, c: int) -> Seq<Cell> {
    Seq::new(9, |k: int| cells[k * 9 + c])
}

/// The cell at flat index `i` is the one that its grid row holds at column
/// `i % 9`, and the one that its grid column holds at row `i / 9`.
pub proof fn lemma_row_and_col_agree_with_element(grid: Sudoku, i: int)
    requires
        0 <= i <= 80,
    ensures
        row_cells(grid@, i / 9)[i % 9] == grid@[i],
        col_cells(grid@, i % 9)[i / 9] == grid@[i],
{
}

/// A written cell reads back with the value written and the clue flag it
/// had; every other cell reads as before.
pub proof fn lemma_written_reads_back(grid: Sudoku, index: int, value: int, other: int)
    requires
        0 <= index <= 80,
        0 <= value <= 9,
        0 <= other <= 80,
    ensures
        written(grid@, index, value)[index].value == value,
        written(grid@, index, value)[index].is_clue == grid@[index].is_clue,
        other != index ==> written(grid@, index, value)[other] == grid@[other],
{
}

/// The grid: nine boxes, row-major, three to a row.
#[derive(Debug)]
pub struct Sudoku {
    boxes: [Box; 9],
}

impl View for Sudoku {
    type V = Seq<Cell>;

    /// The 81 cells by flat index, row after row.
    open spec fn view(&self) -> Seq<Cell> {
        Seq::new(81, |i: int| self.box_cells(box_index(i))[cell_index(i)])
    }
}

impl Sudoku {
    /// The nine cells of box `b`; the boxes themselves lie row-major, three to a row.
    pub closed spec fn box_cells(&self, b: int) -> Seq<Cell> {
        self.boxes[b]@
    }

    /// Builds the grid from nine rows of nine values. Each value becomes a
    /// cell by [`cell_of`]; rows past the ninth are not looked at.
    pub fn from(sudoku_raw: Vec<[u8; 9]>) -> (r: Sudoku)
        requires
            sudoku_raw@.len() >= 9,
        ensures
            r@ == grid_of(sudoku_raw@),
    {
        let empty = Box::default();
        let mut boxes = [empty, empty, empty, empty, empty, empty, empty, empty, empty];
        for index in 0..9
            invariant
                sudoku_raw@.len() >= 9,
                forall|b: int, c: int|
                    0 <= b < index && 0 <= c < 9 ==> (#[trigger] boxes[b]@[c]) == cell_of(
                        sudoku_raw@[flat_index(b, c) / 9][flat_index(b, c) % 9],
                    ),
        {
            let mut values: [u8; 9] = [0, 0, 0, 0, 0, 0, 0, 0, 0];
            for cell in 0..9
                invariant
                    index < 9,
                    sudoku_raw@.len() >= 9,
                    forall|c: int|
                        0 <= c < cell ==> (#[trigger] values[c]) == sudoku_raw@[flat_index(
                            index as int,
                            c,
                        ) / 9][flat_index(index as int, c) % 9],
            {
                if let Some(flat) = Sudoku::construct_index(index, cell) {
                    values[cell] = sudoku_raw[flat / 9][flat % 9];
                }
            }
            boxes[index] = Box::new(values);
        }
        let r = Sudoku { boxes };
        assert forall|i: int| 0 <= i < 81 implies #[trigger] r@[i] == grid_of(sudoku_raw@)[i] by {
            crate::layout::lemma_flat_of_box_cell(i);
            assert(r@[i] == boxes[box_index(i)]@[cell_index(i)]);
        }
        assert(r@ =~= grid_of(sudoku_raw@));
        r
    }

    /// Splits a flat grid index into the index of its box and the index of the
    /// cell inside that box; an index past 80 has neither.
    pub fn deconstruct_index(index: usize) -> (r: Option<(usize, usize)>)
        ensures
            match r {
                Some((b, c)) => index <= 80 && b == box_index(index as int) && c == cell_index(
                    index as int,
                ) && b <= 8 && c <= 8,
                None => index > 80,
            },
    {
        if index <= 80 {
            // break down index from whole sudoku grid into x/y
            let sudoku_index_row: usize = index % 9;
            let sudoku_index_col: usize = index / 9;

            // reduce grid x/y down to 9-box equivalent
            let box_index_row: usize = sudoku_index_row / 3;
            let box_index_col: usize = sudoku_index_col / 3;
            // combine box x/y into singular array index
            let box_index: usize = (box_index_col * 3) + box_index_row;

            // reduce grid x/y down to 9-cell equivalent
            let cell_index_row: usize = sudoku_index_row % 3;
            let cell_index_col: usize = sudoku_index_col % 3;
            // combine cell x/y into singular array index
            let cell_index: usize = (cell_index_col * 3) + cell_index_row;
            Some((box_index, cell_index))
        } else {
            None
        }
    }

    /// The flat grid index of cell `cell_index` of box `box_index`, the way
    /// back from [`Sudoku::deconstruct_index`]; nothing when either is past 8.
    pub fn construct_index(box_index: usize, cell_index: usize) -> (r: Option<usize>)
        ensures
            match r {
                Some(i) => box_index <= 8 && cell_index <= 8 && i == flat_index(
                    box_index as int,
                    cell_index as int,
                ) && i <= 80,
                None => box_index > 8 || cell_index > 8,
            },
    {
        if box_index <= 8 && cell_index <= 8 {
            let sudoku_index_col: usize = (box_index / 3) * 3 + cell_index / 3;
            let sudoku_index_row: usize = (box_index % 3) * 3 + cell_index % 3;
            Some(sudoku_index_col * 9 + sudoku_index_row)
        } else {
            None
        }
    }

    /// The nine cells of grid row `index`, left to right, or nothing when
    /// `index` is past 8.
    pub fn row(&self, index: usize) -> (r: Option<Vec<&Element>>)
        ensures
            match r {
                Some(row) => index <= 8 && row@.len() == 9 && cells_of(row@) == row_cells(
                    self@,
                    index as int,
                ),
                None => index > 8,
            },
    {
        if index <= 8 {
            let mut row: Vec<&Element> = Vec::new();
            let box_index = (index / 3) * 3;
            let box_row_index = index % 3;
            for i in box_index..(box_index + 3)
                invariant
                    index <= 8,
                    box_index == (index / 3) * 3,
                    box_row_index == index % 3,
                    row@.len() == (i - box_index) * 3,
                    forall|k: int|
                        0 <= k < row@.len() ==> (#[trigger] row@[k])@ == self@[index * 9 + k],
            {
                let mut block_row = self.boxes[i].row(box_row_index);
                assert forall|k: int| 0 <= k < 3 implies (#[trigger] block_row@[k])@ == self@[index
                    * 9 + (i - box_index) * 3 + k] by {
                    assert(cells_of(block_row@)[k] == self.boxes[i as int]@.subrange(
                        box_row_index * 3,
                        box_row_index * 3 + 3,
                    )[k]);
                }
                row.append(&mut block_row);
            }
            assert(cells_of(row@) =~= self@.subrange(index * 9, index * 9 + 9));
            Some(row)
        } else {
            None
        }
    }

    /// The nine cells of grid column `index`, top to bottom, or nothing when
    /// `index` is past 8.
    pub fn col(&self, index: usize) -> (r: Option<Vec<&Element>>)
        ensures
            match r {
                Some(col) => index <= 8 && col@.len() == 9 && cells_of(col@) == col_cells(
                    self@,
                    index as int,
                ),
                None => index > 8,
            },
    {
        if index <= 8 {
            let mut col: Vec<&Element> = Vec::new();
            let box_index = index / 3;
            let box_col_index = index % 3;
            for i in 0..3
                invariant
                    index <= 8,
                    box_index == index / 3,
                    box_col_index == index % 3,
                    col@.len() == i * 3,
                    forall|k: int|
                        0 <= k < col@.len() ==> (#[trigger] col@[k])@ == self@[k * 9 + index],
            {
                let mut block_col = self.boxes[box_index + (i * 3)].col(box_col_index);
                assert forall|k: int| 0 <= k < 3 implies (#[trigger] block_col@[k])@ == self@[(i * 3
                    + k) * 9 + index] by {
                    assert(cells_of(block_col@)[k] == self.boxes[box_index + i * 3]@[box_col_index
                        + k * 3]);
                }
                col.append(&mut block_col);
            }
            assert(cells_of(col@) =~= Seq::new(9, |k: int| self@[k * 9 + index]));
            Some(col)
        } else {
            None
        }
    }

    /// Writes `value` into the cell with flat index `index` and says whether
    /// it did: an index past 80 or a value past 9 leaves the grid as it was.
    /// Writing 0 empties the cell. The clue flag is set when the grid is built
    /// and stays as it is through every write.
    pub fn set_element(&mut self, index: usize, value: u8) -> (r: bool)
        ensures
            r == (index <= 80 && value <= 9),
            final(self)@ == written(old(self)@, index as int, value as int),
    {
        if let Some((box_at, element_at)) = Sudoku::deconstruct_index(index) {
            let mut selected_box = self.boxes[box_at];
            if selected_box.set_element(element_at, value) {
                self.boxes[box_at] = selected_box;
                assert forall|i: int| 0 <= i < 81 implies #[trigger] self@[i] == written(
                    old(self)@,
                    index as int,
                    value as int,
                )[i] by {
                    if box_index(i) == box_index(index as int) && cell_index(i) == cell_index(
                        index as int,
                    ) {
                        crate::layout::lemma_index_injective(i, index as int);
                    }
                }
                assert(self@ =~= written(old(self)@, index as int, value as int));
                return true;
            }
        }
        false
    }

    /// The cell with flat index `index`, or nothing when `index` is past 80.
    pub fn get_element(&self, index: usize) -> (r: Option<&Element>)
        ensures
            match r {
                Some(element) => index <= 80 && element@ == self@[index as int],
                None => index > 80,
            },
    {
        if let Some((box_index, element_index)) = Sudoku::deconstruct_index(index) {
            let selected_box = &self.boxes[box_index];
            if let Some(element) = selected_box.get_element(element_index) {
                Some(element)
            } else {
                None
            }
        } else {
            None
        }
    }
}

/// The cells behind a list of borrowed elements, in the same order.
pub open spec fn cells_of(elements: Seq<&Element>) -> Seq<Cell> {
    Seq::new(elements.len(), |i: int| elements[i]@)
}

// BOX
/// One 3x3 box: nine cells, row-major.
#[derive(Clone, Copy, Debug)]
pub struct Box {
    elements: [Element; 9],
}

impl View for Box {
    type V = Seq<Cell>;

    /// The nine cells, row by row: cell `row * 3 + col` for rows and columns 0..=2.
    open spec fn view(&self) -> Seq<Cell> {
        Seq::new(9, |i: int| self.cell(i))
    }
}

impl Default for Box {
    /// Nine empty cells.
    fn default() -> (r: Box)
        ensures
            r@ == Seq::new(9, |i: int| Cell { value: 0, is_clue: false }),
    {
        Box::new([0, 0, 0, 0, 0, 0, 0, 0, 0])
    }
}

impl Box {
    /// Cell `i` of the box.
    pub closed spec fn cell(&self, i: int) -> Cell {
        self.elements[i]@
    }

    /// A box of the nine given values, each turned into a cell by [`cell_of`].
    pub fn new(elements: [u8; 9]) -> (r: Box)
        ensures
            r@ == Seq::new(9, |i: int| cell_of(elements[i])),
    {
        let e = Element::default();
        let mut el_arr = [e, e, e, e, e, e, e, e, e];
        for index in 0..9
            invariant
                forall|i: int| 0 <= i < index ==> (#[trigger] el_arr[i])@ == cell_of(elements[i]),
                forall|i: int| index <= i < 9 ==> (#[trigger] el_arr[i])@ == cell_of(0),
        {
            let value = elements[index];
            let is_clue = value > 0;
            if let Some(element) = Element::new(value, is_clue) {
                el_arr[index] = element;
            }
        }
        let r = Box { elements: el_arr };
        assert(r@ =~= Seq::new(9, |i: int| cell_of(elements[i])));
        r
    }

    /// The three cells of row `value` of the box, left to right.
    pub fn row(&self, value: usize) -> (r: Vec<&Element>)
        requires
            value <= 2,
        ensures
            r@.len() == 3,
            cells_of(r@) == self@.subrange(value * 3, value * 3 + 3),
    {
        let value = value * 3;
        let mut row: Vec<&Element> = Vec::new();
        for index in value..(value + 3)
            invariant
                value <= 6,
                row@.len() == index - value,
                forall|k: int| 0 <= k < row@.len() ==> (#[trigger] row@[k])@ == self@[value + k],
        {
            row.push(&self.elements[index]);
        }
        assert(cells_of(row@) =~= self@.subrange(value as int, value + 3));
        return row;
    }

    /// The three cells of column `value` of the box, top to bottom.
    pub fn col(&self, value: usize) -> (r: Vec<&Element>)
        requires
            value <= 2,
        ensures
            r@.len() == 3,
            cells_of(r@) == Seq::new(3, |k: int| self@[value + k * 3]),
    {
        let mut col: Vec<&Element> = Vec::new();
        for index in 0..3
            invariant
                value <= 2,
                col@.len() == index,
                forall|k: int| 0 <= k < col@.len() ==> (#[trigger] col@[k])@ == self@[value + k * 3],
        {
            col.push(&self.elements[value + (index * 3)]);
        }
        assert(cells_of(col@) =~= Seq::new(3, |k: int| self@[value + k * 3]));
        return col;
    }

    /// Cell `index` of the box, or nothing when `index` is past 8.
    pub fn get_element(&self, index: usize) -> (r: Option<&Element>)
        ensures
            match r {
                Some(element) => index <= 8 && element@ == self@[index as int],
                None => index > 8,
            },
    {
        if index <= 8 {
            Some(&self.elements[index])
        } else {
            None
        }
    }

    /// The box as three lines of three cells: [`box_text`] of all nine.
    pub fn to_string(&self) -> (text: String)
        ensures
            text@ == box_text(self@, 9),
    {
        let mut block_str = String::from_str("");
        proof {
            reveal_strlit("");
            reveal_strlit("\n");
            reveal_strlit(" ");
            assert(block_str@ =~= box_text(self@, 0));
        }
        for index in 0..9
            invariant
                block_str@ == box_text(self@, index as nat),
                "\n"@ == seq!['\n'],
                " "@ == seq![' '],
        {
            let element = &self.elements[index];
            block_str.append(element.to_string().as_str());
            if index % 3 == 2 && index != 8 {
                block_str.append("\n");
            } else {
                block_str.append(" ");
            }
        }
        block_str
    }

    /// Writes `value` into cell `index` and says whether it did: a cell index
    /// past 8 or a value past 9 leaves the box as it was. The cell keeps its
    /// clue flag.
    pub fn set_element(&mut self, index: usize, value: u8) -> (r: bool)
        ensures
            r == (index <= 8 && value <= 9),
            r ==> final(self)@ == old(self)@.update(
                index as int,
                Cell { value: value as nat, is_clue: old(self)@[index as int].is_clue },
            ),
            !r ==> final(self)@ == old(self)@,
    {
        if index <= 8 {
            let is_clue = self.elements[index].is_clue();
            if let Some(element) = Element::new(value, is_clue) {
                self.elements[index] = element;
                assert(self@ =~= old(self)@.update(
                    index as int,
                    Cell { value: value as nat, is_clue: old(self)@[index as int].is_clue },
                ));
                return true;
            }
        }
        false
    }
}

// ELEMENT
/// One cell: a digit in 0..=9, 0 for "empty", and the clue flag.
#[derive(Clone, Copy, Debug)]
pub struct Element {
    value: u8,
    is_clue: bool,
}

impl View for Element {
    type V = Cell;

    closed spec fn view(&self) -> Cell {
        Cell { value: self.value as nat, is_clue: self.is_clue }
    }
}

impl Default for Element {
    /// The empty cell that is no clue.
    fn default() -> (r: Element)
        ensures
            r@ == (Cell { value: 0, is_clue: false }),
    {
        Element { value: 0, is_clue: false }
    }
}

impl Element {
    #[verifier::type_invariant]
    spec fn in_range(self) -> bool {
        self.value <= 9
    }

    /// A cell with the given digit, or nothing when the digit is past 9.
    pub fn new(value: u8, is_clue: bool) -> (r: Option<Element>)
        ensures
            match r {
                Some(element) => value <= 9 && element@ == (Cell { value: value as nat, is_clue }),
                None => value > 9,
            },
    {
        if value <= 9 {
            Some(Element { value, is_clue })
        } else {
            None
        }
    }

    /// The digit in the cell; 0 when it is empty.
    pub fn value(&self) -> (r: u8)
        ensures
            r == self@.value,
            r <= 9,
    {
        proof {
            use_type_invariant(self);
        }
        self.value
    }

    /// The text that shows the cell, by [`cell_text`].
    pub fn to_string(&self) -> (text: String)
        ensures
            text@ == cell_text(self@),
    {
        proof {
            use_type_invariant(self);
            reveal_strlit("0123456789");
            reveal_strlit(" ");
        }
        if self.value > 0 {
            let digits = "0123456789";
            let from: usize = self.value as usize;
            let digit = digits.substring_ascii(from, from + 1);
            assert(digit@ =~= seq![digit_char(self.value as nat)]);
            String::from_str(digit)
        } else {
            let blank = String::from_str(" ");
            assert(blank@ =~= seq![' ']);
            blank
        }
    }

    /// Whether the digit was part of the puzzle as given.
    pub fn is_clue(&self) -> (r: bool)
        ensures
            r == self@.is_clue,
    {
        self.is_clue
    }
}

} // verus!
