//! A 3x3 block of plain digits, without clue flags.

use vstd::prelude::*;
use vstd::string::{StrSliceExecFns, StringExecFns};
use crate::sudoku::{digit_char, separator};

verus! {

/// The digit that a raw value turns into: a value past 9 is replaced by 0.
pub open spec fn digit_of(value: u8) -> nat {
    if value <= 9 {
        value as nat
    } else {
        0
    }
}

/// The digits behind a list of elements, in the same order.
pub open spec fn digits_of(elements: Seq<Element>) -> Seq<nat> {
    Seq::new(elements.len(), |i: int| elements[i]@)
}

/// The text of the first `n` digits of a block, each followed by its separator.
pub open spec fn block_text(digits: Seq<nat>, n: nat) -> Seq<char>
    decreases n,
{
    if n == 0 {
        Seq::empty()
    } else {
        block_text(digits, (n - 1) as nat) + seq![digit_char(digits[n - 1])] + separator(n - 1)
    }
}

/// Nine digits, row-major.
pub struct Block {
    elements: [Element; 9],
}

impl View for Block {
    type V = Seq<nat>;

    /// The nine digits, row by row: digit `row * 3 + col` for rows and columns 0..=2.
    open spec fn view(&self) -> Seq<nat> {
        Seq::new(9, |i: int| self.digit(i))
    }
}

impl Default for Block {
    /// Nine zeros.
    fn default() -> (r: Block)
        ensures
            r@ == Seq::new(9, |i: int| 0nat),
    {
        Block::new([0, 0, 0, 0, 0, 0, 0, 0, 0])
    }
}

impl Block {
    /// Digit `i` of the block.
    pub closed spec fn digit(&self, i: int) -> nat {
        self.elements[i]@
    }

    /// A block of the nine given values, each turned into a digit by [`digit_of`].
    pub fn new(elements: [u8; 9]) -> (r: Block)
        ensures
            r@ == Seq::new(9, |i: int| digit_of(elements[i])),
    {
        let zero = Element::default();
        let mut el_arr = [zero, zero, zero, zero, zero, zero, zero, zero, zero];
        for index in 0..9
            invariant
                forall|i: int| 0 <= i < index ==> (#[trigger] el_arr[i])@ == digit_of(elements[i]),
                forall|i: int| index <= i < 9 ==> (#[trigger] el_arr[i])@ == 0,
        {
            let value = elements[index];
            if let Some(element) = Element::new(value) {
                el_arr[index] = element;
            }
        }
        let r = Block { elements: el_arr };
        assert(r@ =~= Seq::new(9, |i: int| digit_of(elements[i])));
        r
    }

    /// The three digits of row `value` of the block, left to right.
    pub fn row(&self, value: usize) -> (r: [Element; 3])
        requires
            value <= 2,
        ensures
            digits_of(r@) == self@.subrange(value * 3, value * 3 + 3),
    {
        let value = value * 3;
        let zero = Element::default();
        let mut row = [zero, zero, zero];
        for index in 0..3
            invariant
                value <= 6,
                forall|k: int| 0 <= k < index ==> (#[trigger] row[k])@ == self@[value + k],
        {
            row[index] = self.elements[index + value];
        }
        assert(digits_of(row@) =~= self@.subrange(value as int, value + 3));
        return row;
    }

    /// The three digits of column `value` of the block, top to bottom.
    pub fn col(&self, value: usize) -> (r: [Element; 3])
        requires
            value <= 2,
        ensures
            digits_of(r@) == Seq::new(3, |k: int| self@[value + k * 3]),
    {
        let zero = Element::default();
        let mut col = [zero, zero, zero];
        for index in 0..3
            invariant
                value <= 2,
                forall|k: int| 0 <= k < index ==> (#[trigger] col[k])@ == self@[value + k * 3],
        {
            col[index] = self.elements[value + (index * 3)]
        }
        assert(digits_of(col@) =~= Seq::new(3, |k: int| self@[value + k * 3]));
        return col;
    }

    /// The block as three lines of three digits: [`block_text`] of all nine.
    pub fn to_string(&self) -> (text: String)
        ensures
            text@ == block_text(self@, 9),
    {
        let mut block_str = String::from_str("");
        proof {
            reveal_strlit("");
            reveal_strlit("\n");
            reveal_strlit(" ");
            assert(block_str@ =~= block_text(self@, 0));
        }
        for index in 0..9
            invariant
                block_str@ == block_text(self@, index as nat),
                "\n"@ == seq!['\n'],
                " "@ == seq![' '],
        {
            let element = &self.elements[index];
            block_str.append(element.to_string().as_str());
            if index % 3 == 2 && index != 8 {
                block_str.append("\n");
            } else {
                block_str.append(" ");
            }
        }
        block_str
    }
}

/// One digit in 0..=9.
#[derive(Clone, Copy)]
pub struct Element {
    value: u8,
}

impl View for Element {
    type V = nat;

    closed spec fn view(&self) -> nat {
        self.value as nat
    }
}

impl Default for Element {
    /// The digit 0.
    fn default() -> (r: Element)
        ensures
            r@ == 0,
    {
        Element { value: 0 }
    }
}

impl Element {
    #[verifier::type_invariant]
    spec fn in_range(self) -> bool {
        self.value <= 9
    }

    /// An element with the given digit, or nothing when the digit is past 9.
    pub fn new(value: u8) -> (r: Option<Element>)
        ensures
            match r {
                Some(element) => value <= 9 && element@ == value,
                None => value > 9,
            },
    {
        if value <= 9 {
            Some(Element { value })
        } else {
            None
        }
    }

    /// The digit.
    pub fn value(&self) -> (r: u8)
        ensures
            r == self@,
            r <= 9,
    {
        proof {
            use_type_invariant(self);
        }
        self.value
    }

    /// The digit as text.
    pub fn to_string(&self) -> (text: String)
        ensures
            text@ == seq![digit_char(self@)],
    {
        proof {
            use_type_invariant(self);
            reveal_strlit("0123456789");
        }
        let digits = "0123456789";
        let from: usize = self.value as usize;
        let digit = digits.substring_ascii(from, from + 1);
        assert(digit@ =~= seq![digit_char(self.value as nat)]);
        String::from_str(digit)
    }
}

} // verus!
