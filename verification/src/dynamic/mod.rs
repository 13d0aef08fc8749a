pub mod arith;
pub mod cycles;
pub mod in_place;
pub mod invert;
pub mod math;
pub mod matrix;
pub mod ops;
pub mod rows;
pub mod solve;

use vstd::prelude::*;

pub use matrix::Matrix;

verus! {

/// What a checked operation on a [`Matrix`] reports instead of a result.
#[derive(Debug, Clone, PartialEq, Eq)]
pub enum MatrixError {
    /// The operands' shapes do not fit the operation. Both fields are
    /// human-readable shapes such as `3x2`.
    DimensionsNotMatch { expected: String, actual: String },
    /// A row or column index is not below the number of rows or columns.
    IndexOutOfRange { index: usize, limit: usize },
}

/// The decimal digit for a value below ten.
pub open spec fn digit(d: nat) -> char {
    seq!['0', '1', '2', '3', '4', '5', '6', '7', '8', '9'][d as int]
}

/// The decimal numeral of `n`, without leading zeros.
pub open spec fn decimal(n: nat) -> Seq<char>
    decreases n,
{
    if n < 10 {
        seq![digit(n)]
    } else {
        decimal(n / 10).push(digit(n % 10))
    }
}

/// Two texts joined by the letter `x`, as in `3x2`.
pub open spec fn joined(left: Seq<char>, right: Seq<char>) -> Seq<char> {
    left + seq!['x'] + right
}

/// The text of a shape: rows, the letter `x`, columns.
pub open spec fn shape_text(rows: nat, cols: nat) -> Seq<char> {
    joined(decimal(rows), decimal(cols))
}

/// The text that reports two shapes that do not fit.
pub open spec fn mismatch_text(expected: Seq<char>, actual: Seq<char>) -> Seq<char> {
    "Matrix dimensions do not match: expected "@ + expected + ", actual "@ + actual
}

/// The text that reports an index that is not below its limit.
pub open spec fn range_text(index: nat, limit: nat) -> Seq<char> {
    "Index out of range: the index is "@ + decimal(index) + ", the limit is "@ + decimal(limit)
}

/// Appends a text with `String::push_str`. Trusted: the string afterwards
/// is the string before followed by the text.
#[verifier::external_body]
pub(crate) fn push_text(s: &mut String, t: &str)
    ensures
        final(s)@ == old(s)@ + t@,
{
    s.push_str(t);
}

/// Appends a character with `String::push`. Trusted: the string afterwards
/// is the string before followed by the character.
#[verifier::external_body]
pub(crate) fn push_char(s: &mut String, c: char)
    ensures
        final(s)@ == old(s)@.push(c),
{
    s.push(c);
}

/// The character of a decimal digit.
fn digit_char(d: usize) -> (c: char)
    requires
        d < 10,
    ensures
        c == digit(d as nat),
{
    if d == 0 {
        '0'
    } else if d == 1 {
        '1'
    } else if d == 2 {
        '2'
    } else if d == 3 {
        '3'
    } else if d == 4 {
        '4'
    } else if d == 5 {
        '5'
    } else if d == 6 {
        '6'
    } else if d == 7 {
        '7'
    } else if d == 8 {
        '8'
    } else {
        '9'
    }
}

/// Appends the decimal numeral of `n`.
fn push_decimal(s: &mut String, n: usize)
    ensures
        final(s)@ == old(s)@ + decimal(n as nat),
    decreases n,
{
    if n < 10 {
        push_char(s, digit_char(n));
        proof {
            assert(s@ =~= old(s)@ + decimal(n as nat));
        }
    } else {
        push_decimal(s, n / 10);
        push_char(s, digit_char(n % 10));
        proof {
            assert(s@ =~= old(s)@ + decimal(n as nat));
        }
    }
}

/// The decimal numeral of `n`.
pub(crate) fn decimal_string(n: usize) -> (s: String)
    ensures
        s@ == decimal(n as nat),
{
    let mut s = String::new();
    push_decimal(&mut s, n);
    proof {
        assert(s@ =~= decimal(n as nat));
    }
    s
}

/// Two texts joined by the letter `x`.
pub(crate) fn join_with_x(left: &str, right: &str) -> (s: String)
    ensures
        s@ == joined(left@, right@),
{
    let mut s = String::new();
    push_text(&mut s, left);
    push_char(&mut s, 'x');
    push_text(&mut s, right);
    proof {
        assert(s@ =~= joined(left@, right@));
    }
    s
}

impl MatrixError {
    /// The text of the error, as a mathematical value.
    pub open spec fn message_spec(&self) -> Seq<char> {
        match self {
            MatrixError::DimensionsNotMatch { expected, actual } => mismatch_text(
                expected@,
                actual@,
            ),
            MatrixError::IndexOutOfRange { index, limit } => range_text(
                *index as nat,
                *limit as nat,
            ),
        }
    }

    /// The text of the error, for people to read.
    pub fn message(&self) -> (s: String)
        ensures
            s@ == self.message_spec(),
    {
        let mut s = String::new();
        match self {
            MatrixError::DimensionsNotMatch { expected, actual } => {
                push_text(&mut s, "Matrix dimensions do not match: expected ");
                push_text(&mut s, expected.as_str());
                push_text(&mut s, ", actual ");
                push_text(&mut s, actual.as_str());
                proof {
                    assert(s@ =~= mismatch_text(expected@, actual@));
                }
            },
            MatrixError::IndexOutOfRange { index, limit } => {
                push_text(&mut s, "Index out of range: the index is ");
                push_decimal(&mut s, *index);
                push_text(&mut s, ", the limit is ");
                push_decimal(&mut s, *limit);
                proof {
                    assert(s@ =~= range_text(*index as nat, *limit as nat));
                }
            },
        }
        s
    }
}

/// The text of the shape `rows` by `cols`.
pub(crate) fn shape_string(rows: usize, cols: usize) -> (s: String)
    ensures
        s@ == shape_text(rows as nat, cols as nat),
{
    let left = decimal_string(rows);
    let right = decimal_string(cols);
    join_with_x(left.as_str(), right.as_str())
}

} // verus!
