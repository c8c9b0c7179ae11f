//! The cursor: one flat index in 0..=80 that the arrow keys move, wrapping
//! around inside its row or its column.

use vstd::prelude::*;

verus! {

/// One step to the right; from the last column the cursor wraps to the first
/// column of the same row.
pub open spec fn step_right(cursor: int) -> int {
    if cursor % 9 < 8 {
        cursor + 1
    } else {
        cursor - 8
    }
}

/// One step to the left; from the first column the cursor wraps to the last
/// column of the same row.
pub open spec fn step_left(cursor: int) -> int {
    if cursor % 9 > 0 {
        cursor - 1
    } else {
        cursor + 8
    }
}

/// One step down; from the bottom row the cursor wraps to the top row of the
/// same column.
pub open spec fn step_down(cursor: int) -> int {
    if cursor < 72 {
        cursor + 9
    } else {
        cursor - 72
    }
}

/// One step up; from the top row the cursor wraps to the bottom row of the
/// same column.
pub open spec fn step_up(cursor: int) -> int {
    if cursor > 8 {
        cursor - 9
    } else {
        cursor + 72
    }
}

/// `steps` steps to the right in a row.
pub open spec fn steps_right(cursor: int, steps: nat) -> int
    decreases steps,
{
    if steps == 0 {
        cursor
    } else {
        step_right(steps_right(cursor, (steps - 1) as nat))
    }
}

/// `steps` steps down in a row.
pub open spec fn steps_down(cursor: int, steps: nat) -> int
    decreases steps,
{
    if steps == 0 {
        cursor
    } else {
        step_down(steps_down(cursor, (steps - 1) as nat))
    }
}

/// A step never leaves the grid, and a horizontal step stays in its row, a
/// vertical step in its column.
pub proof fn lemma_step_stays_on_grid(cursor: int)
    requires
        0 <= cursor <= 80,
    ensures
        0 <= step_right(cursor) <= 80 && step_right(cursor) / 9 == cursor / 9,
        0 <= step_left(cursor) <= 80 && step_left(cursor) / 9 == cursor / 9,
        0 <= step_down(cursor) <= 80 && step_down(cursor) % 9 == cursor % 9,
        0 <= step_up(cursor) <= 80 && step_up(cursor) % 9 == cursor % 9,
{
}

/// A step right and a step left undo each other, in either order.
pub proof fn lemma_right_left_inverse(cursor: int)
    requires
        0 <= cursor <= 80,
    ensures
        step_left(step_right(cursor)) == cursor,
        step_right(step_left(cursor)) == cursor,
{
}

/// A step down and a step up undo each other, in either order.
pub proof fn lemma_down_up_inverse(cursor: int)
    requires
        0 <= cursor <= 80,
    ensures
        step_up(step_down(cursor)) == cursor,
        step_down(step_up(cursor)) == cursor,
{
}

/// After `steps` steps right the cursor is in the same row, `steps` columns
/// further on, counted around the row.
pub proof fn lemma_steps_right(cursor: int, steps: nat)
    requires
        0 <= cursor <= 80,
    ensures
        steps_right(cursor, steps) == (cursor / 9) * 9 + (cursor % 9 + steps) % 9,
    decreases steps,
{
    if steps > 0 {
        lemma_steps_right(cursor, (steps - 1) as nat);
    }
}

/// After `steps` steps down the cursor is in the same column, `steps` rows
/// further on, counted around the column.
pub proof fn lemma_steps_down(cursor: int, steps: nat)
    requires
        0 <= cursor <= 80,
    ensures
        steps_down(cursor, steps) == ((cursor / 9 + steps) % 9) * 9 + cursor % 9,
    decreases steps,
{
    if steps > 0 {
        lemma_steps_down(cursor, (steps - 1) as nat);
    }
}

/// Nine steps right go once around the row and end where they began.
pub proof fn lemma_nine_right_is_identity(cursor: int)
    requires
        0 <= cursor <= 80,
    ensures
        steps_right(cursor, 9) == cursor,
{
    lemma_steps_right(cursor, 9);
}

/// Nine steps down go once around the column and end where they began.
pub proof fn lemma_nine_down_is_identity(cursor: int)
    requires
        0 <= cursor <= 80,
    ensures
        steps_down(cursor, 9) == cursor,
{
    lemma_steps_down(cursor, 9);
}

} // verus!
