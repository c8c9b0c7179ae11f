//! How the 81 cells lie in the nine boxes: flat grid indices against
//! (box, cell) pairs.

use vstd::prelude::*;

verus! {

/// The box that holds the cell with flat index `i`.
pub open spec fn box_index(i: int) -> int {
    let grid_row = i % 9;
    let grid_col = i / 9;
    (grid_col / 3) * 3 + grid_row / 3
}

/// The position inside its box of the cell with flat index `i`.
pub open spec fn cell_index(i: int) -> int {
    let grid_row = i % 9;
    let grid_col = i / 9;
    (grid_col % 3) * 3 + grid_row % 3
}

/// The flat index of cell `c` of box `b`.
pub open spec fn flat_index(b: int, c: int) -> int {
    ((b / 3) * 3 + c / 3) * 9 + (b % 3) * 3 + c % 3
}

/// The box and the cell of a flat index both lie in 0..=8.
pub proof fn lemma_index_in_range(i: int)
    requires
        0 <= i <= 80,
    ensures
        0 <= box_index(i) <= 8,
        0 <= cell_index(i) <= 8,
{
}

/// Putting the two components back together gives the flat index again.
pub proof fn lemma_flat_of_box_cell(i: int)
    requires
        0 <= i <= 80,
    ensures
        flat_index(box_index(i), cell_index(i)) == i,
{
}

/// Every (box, cell) pair belongs to a flat index: the one it flattens to.
pub proof fn lemma_box_cell_of_flat(b: int, c: int)
    requires
        0 <= b <= 8,
        0 <= c <= 8,
    ensures
        0 <= flat_index(b, c) <= 80,
        box_index(flat_index(b, c)) == b,
        cell_index(flat_index(b, c)) == c,
{
}

/// No two flat indices share a (box, cell) pair.
pub proof fn lemma_index_injective(i: int, j: int)
    requires
        0 <= i <= 80,
        0 <= j <= 80,
        box_index(i) == box_index(j),
        cell_index(i) == cell_index(j),
    ensures
        i == j,
{
    lemma_flat_of_box_cell(i);
    lemma_flat_of_box_cell(j);
}

} // verus!
