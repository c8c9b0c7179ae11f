use sudoku::block::{Block, Element};

fn digits(elements: &[Element; 3]) -> Vec<u8> {
    elements.iter().map(|e| e.value()).collect()
}

#[test]
fn block_rows() {
    let b = Block::new([1, 2, 3, 4, 5, 6, 7, 8, 9]);
    assert_eq!(digits(&b.row(0)), vec![1, 2, 3]);
    assert_eq!(digits(&b.row(1)), vec![4, 5, 6]);
    assert_eq!(digits(&b.row(2)), vec![7, 8, 9]);
}

#[test]
fn block_cols() {
    let b = Block::new([1, 2, 3, 4, 5, 6, 7, 8, 9]);
    assert_eq!(digits(&b.col(0)), vec![1, 4, 7]);
    assert_eq!(digits(&b.col(1)), vec![2, 5, 8]);
    assert_eq!(digits(&b.col(2)), vec![3, 6, 9]);
}

#[test]
fn block_new_replaces_bad_values() {
    let b = Block::new([10, 2, 255, 0, 0, 0, 0, 0, 9]);
    assert_eq!(digits(&b.row(0)), vec![0, 2, 0]);
    assert_eq!(digits(&b.row(2)), vec![0, 0, 9]);
}

#[test]
fn block_default_is_all_zero() {
    let b = Block::default();
    for r in 0..3 {
        assert_eq!(digits(&b.row(r)), vec![0, 0, 0]);
    }
}

#[test]
fn block_text() {
    let b = Block::new([1, 2, 3, 4, 5, 6, 7, 8, 9]);
    assert_eq!(b.to_string(), "1 2 3\n4 5 6\n7 8 9 ");
    assert_eq!(Block::default().to_string(), "0 0 0\n0 0 0\n0 0 0 ");
}

#[test]
fn block_element_new_accepts_digits_only() {
    assert_eq!(Element::new(0).unwrap().value(), 0);
    assert_eq!(Element::new(9).unwrap().value(), 9);
    assert!(Element::new(10).is_none());
    assert!(Element::new(255).is_none());
    assert_eq!(Element::default().value(), 0);
}

#[test]
fn block_element_text() {
    assert_eq!(Element::new(0).unwrap().to_string(), "0");
    assert_eq!(Element::new(7).unwrap().to_string(), "7");
    assert_eq!(Element::new(9).unwrap().to_string(), "9");
}
