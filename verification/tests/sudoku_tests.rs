use sudoku::sudoku::{Box, Element, Sudoku};

fn puzzle() -> Vec<[u8; 9]> {
    vec![
        [5, 3, 0, 6, 0, 0, 0, 9, 8],
        [0, 7, 0, 1, 9, 5, 0, 0, 0],
        [0, 0, 0, 0, 0, 0, 0, 6, 0],
        [8, 0, 0, 4, 0, 0, 7, 0, 0],
        [0, 6, 0, 8, 0, 3, 0, 2, 0],
        [0, 0, 3, 0, 0, 1, 0, 0, 6],
        [0, 6, 0, 0, 0, 0, 0, 0, 0],
        [0, 0, 0, 4, 1, 9, 0, 8, 0],
        [2, 8, 0, 0, 0, 5, 0, 7, 9],
    ]
}

fn values(elements: &[&Element]) -> Vec<u8> {
    elements.iter().map(|e| e.value()).collect()
}

#[test]
fn literal_puzzle_first_row_and_cells() {
    let grid = Sudoku::from(puzzle());
    let row = grid.row(0).unwrap();
    assert_eq!(values(&row), vec![5, 3, 0, 6, 0, 0, 0, 9, 8]);
    let first = grid.get_element(0).unwrap();
    assert_eq!(first.value(), 5);
    assert!(first.is_clue());
    let third = grid.get_element(2).unwrap();
    assert_eq!(third.value(), 0);
    assert!(!third.is_clue());
}

#[test]
fn every_row_reads_as_given() {
    let raw = puzzle();
    let grid = Sudoku::from(puzzle());
    for r in 0..9 {
        let row = grid.row(r).unwrap();
        assert_eq!(values(&row), raw[r].to_vec());
        for c in 0..9 {
            assert_eq!(row[c].is_clue(), raw[r][c] > 0);
        }
    }
}

#[test]
fn every_column_reads_as_given() {
    let raw = puzzle();
    let grid = Sudoku::from(puzzle());
    for c in 0..9 {
        let col = grid.col(c).unwrap();
        let expected: Vec<u8> = (0..9).map(|r| raw[r][c]).collect();
        assert_eq!(values(&col), expected);
    }
    assert_eq!(values(&grid.col(3).unwrap()), vec![6, 1, 0, 4, 8, 0, 0, 4, 0]);
}

#[test]
fn row_and_col_past_the_grid_are_none() {
    let grid = Sudoku::from(puzzle());
    assert!(grid.row(8).is_some());
    assert!(grid.row(9).is_none());
    assert!(grid.row(usize::MAX).is_none());
    assert!(grid.col(8).is_some());
    assert!(grid.col(9).is_none());
}

#[test]
fn get_element_past_the_grid_is_none() {
    let grid = Sudoku::from(puzzle());
    assert_eq!(grid.get_element(80).unwrap().value(), 9);
    assert!(grid.get_element(81).is_none());
    assert!(grid.get_element(usize::MAX).is_none());
}

#[test]
fn row_and_column_agree_with_flat_index() {
    let grid = Sudoku::from(puzzle());
    for i in 0..81 {
        let cell = grid.get_element(i).unwrap();
        let row = grid.row(i / 9).unwrap();
        let col = grid.col(i % 9).unwrap();
        assert_eq!(row[i % 9].value(), cell.value());
        assert_eq!(row[i % 9].is_clue(), cell.is_clue());
        assert_eq!(col[i / 9].value(), cell.value());
        assert_eq!(col[i / 9].is_clue(), cell.is_clue());
    }
}

#[test]
fn deconstruct_index_known_values() {
    assert_eq!(Sudoku::deconstruct_index(0), Some((0, 0)));
    assert_eq!(Sudoku::deconstruct_index(1), Some((0, 1)));
    assert_eq!(Sudoku::deconstruct_index(3), Some((1, 0)));
    assert_eq!(Sudoku::deconstruct_index(9), Some((0, 3)));
    assert_eq!(Sudoku::deconstruct_index(30), Some((4, 0)));
    assert_eq!(Sudoku::deconstruct_index(40), Some((4, 4)));
    assert_eq!(Sudoku::deconstruct_index(80), Some((8, 8)));
    assert_eq!(Sudoku::deconstruct_index(81), None);
    assert_eq!(Sudoku::deconstruct_index(usize::MAX), None);
}

#[test]
fn deconstruct_index_is_a_bijection() {
    let mut seen = [[false; 9]; 9];
    for i in 0..81 {
        let (b, c) = Sudoku::deconstruct_index(i).unwrap();
        assert!(b <= 8 && c <= 8);
        assert!(!seen[b][c]);
        seen[b][c] = true;
        assert_eq!(Sudoku::construct_index(b, c), Some(i));
    }
    assert!(seen.iter().all(|row| row.iter().all(|s| *s)));
}

#[test]
fn construct_index_known_values() {
    assert_eq!(Sudoku::construct_index(0, 0), Some(0));
    assert_eq!(Sudoku::construct_index(1, 0), Some(3));
    assert_eq!(Sudoku::construct_index(4, 4), Some(40));
    assert_eq!(Sudoku::construct_index(8, 8), Some(80));
    assert_eq!(Sudoku::construct_index(9, 0), None);
    assert_eq!(Sudoku::construct_index(0, 9), None);
}

#[test]
fn set_then_get_reads_back() {
    let mut grid = Sudoku::from(puzzle());
    for i in 0..81 {
        assert!(grid.set_element(i, 5));
        assert_eq!(grid.get_element(i).unwrap().value(), 5);
        assert!(grid.set_element(i, 0));
        assert_eq!(grid.get_element(i).unwrap().value(), 0);
    }
}

#[test]
fn set_element_changes_one_cell_only() {
    let raw = puzzle();
    let mut grid = Sudoku::from(puzzle());
    assert!(grid.set_element(40, 7));
    for i in 0..81 {
        let expected = if i == 40 { 7 } else { raw[i / 9][i % 9] };
        assert_eq!(grid.get_element(i).unwrap().value(), expected);
    }
}

#[test]
fn set_element_keeps_the_clue_flag() {
    let mut grid = Sudoku::from(puzzle());
    assert!(grid.set_element(0, 0));
    let first = grid.get_element(0).unwrap();
    assert_eq!(first.value(), 0);
    assert!(first.is_clue());
    assert!(grid.set_element(2, 4));
    let third = grid.get_element(2).unwrap();
    assert_eq!(third.value(), 4);
    assert!(!third.is_clue());
}

#[test]
fn set_element_rejects_bad_index_and_value() {
    let raw = puzzle();
    let mut grid = Sudoku::from(puzzle());
    assert!(!grid.set_element(81, 1));
    assert!(!grid.set_element(0, 10));
    assert!(!grid.set_element(usize::MAX, 255));
    assert!(grid.set_element(80, 9));
    for i in 0..81 {
        assert_eq!(grid.get_element(i).unwrap().value(), raw[i / 9][i % 9]);
    }
}

#[test]
fn values_past_nine_become_empty_cells() {
    let mut raw = puzzle();
    raw[0][0] = 10;
    raw[4][4] = 255;
    let grid = Sudoku::from(raw);
    let first = grid.get_element(0).unwrap();
    assert_eq!(first.value(), 0);
    assert!(!first.is_clue());
    let middle = grid.get_element(40).unwrap();
    assert_eq!(middle.value(), 0);
    assert!(!middle.is_clue());
    assert_eq!(grid.get_element(1).unwrap().value(), 3);
}

#[test]
fn rows_past_the_ninth_are_ignored() {
    let mut raw = puzzle();
    raw.push([9; 9]);
    let grid = Sudoku::from(raw);
    assert_eq!(values(&grid.row(8).unwrap()), vec![2, 8, 0, 0, 0, 5, 0, 7, 9]);
}

#[test]
fn element_new_accepts_digits_only() {
    let e = Element::new(9, true).unwrap();
    assert_eq!(e.value(), 9);
    assert!(e.is_clue());
    let z = Element::new(0, false).unwrap();
    assert_eq!(z.value(), 0);
    assert!(!z.is_clue());
    assert!(Element::new(10, true).is_none());
    assert!(Element::new(255, false).is_none());
}

#[test]
fn element_default_is_empty() {
    let e = Element::default();
    assert_eq!(e.value(), 0);
    assert!(!e.is_clue());
}

#[test]
fn element_text() {
    assert_eq!(Element::new(5, true).unwrap().to_string(), "5");
    assert_eq!(Element::new(1, false).unwrap().to_string(), "1");
    assert_eq!(Element::new(9, false).unwrap().to_string(), "9");
    assert_eq!(Element::new(0, false).unwrap().to_string(), " ");
}

#[test]
fn box_rows_cols_and_cells() {
    let b = Box::new([1, 2, 3, 4, 5, 6, 7, 8, 9]);
    assert_eq!(values(&b.row(0)), vec![1, 2, 3]);
    assert_eq!(values(&b.row(1)), vec![4, 5, 6]);
    assert_eq!(values(&b.row(2)), vec![7, 8, 9]);
    assert_eq!(values(&b.col(0)), vec![1, 4, 7]);
    assert_eq!(values(&b.col(1)), vec![2, 5, 8]);
    assert_eq!(values(&b.col(2)), vec![3, 6, 9]);
    for i in 0..9 {
        let e = b.get_element(i).unwrap();
        assert_eq!(usize::from(e.value()), i + 1);
        assert!(e.is_clue());
    }
    assert!(b.get_element(9).is_none());
}

#[test]
fn box_new_replaces_bad_values() {
    let b = Box::new([0, 10, 3, 0, 0, 0, 0, 0, 200]);
    assert_eq!(values(&b.row(0)), vec![0, 0, 3]);
    assert!(!b.get_element(0).unwrap().is_clue());
    assert!(!b.get_element(1).unwrap().is_clue());
    assert!(b.get_element(2).unwrap().is_clue());
    assert_eq!(b.get_element(8).unwrap().value(), 0);
    assert!(!b.get_element(8).unwrap().is_clue());
}

#[test]
fn box_default_is_empty() {
    let b = Box::default();
    for i in 0..9 {
        let e = b.get_element(i).unwrap();
        assert_eq!(e.value(), 0);
        assert!(!e.is_clue());
    }
}

#[test]
fn box_set_element() {
    let mut b = Box::new([1, 0, 0, 0, 0, 0, 0, 0, 0]);
    assert!(b.set_element(0, 0));
    assert!(b.set_element(8, 6));
    assert!(!b.set_element(9, 1));
    assert!(!b.set_element(1, 10));
    assert_eq!(b.get_element(0).unwrap().value(), 0);
    assert!(b.get_element(0).unwrap().is_clue());
    assert_eq!(b.get_element(8).unwrap().value(), 6);
    assert!(!b.get_element(8).unwrap().is_clue());
    assert_eq!(b.get_element(1).unwrap().value(), 0);
}

#[test]
fn box_text() {
    let b = Box::new([5, 3, 0, 0, 7, 0, 0, 0, 0]);
    assert_eq!(b.to_string(), "5 3  \n  7  \n      ");
    let full = Box::new([1, 2, 3, 4, 5, 6, 7, 8, 9]);
    assert_eq!(full.to_string(), "1 2 3\n4 5 6\n7 8 9 ");
}
