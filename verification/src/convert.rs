use crate::dynamic::shape_string;
use crate::dynamic::shape_text;
use crate::dynamic::Matrix;
use crate::dynamic::MatrixError;
use crate::mat::Mat;
use vstd::prelude::*;

verus! {

/// Reads a matrix into an array of columns with `core::array::from_fn`, once
/// for the columns and once for each column's entries. Trusted: `from_fn`
/// calls its closure with every index below the array's length, in order,
/// and stores what the closure returns at that index, so that entry `r` of
/// column `c` is the matrix's element at `(r, c)`.
#[verifier::external_body]
fn columns_of<const ROWS: usize, const COLS: usize, T: Copy>(m: &Matrix<T>) -> (data: [[T;
    ROWS]; COLS])
    requires
        m.wf(),
        m@.rows == ROWS,
        m@.cols == COLS,
    ensures
        forall|r: int, c: int| 0 <= r < ROWS && 0 <= c < COLS ==> data[c][r] == m@.at(r, c),
{
    core::array::from_fn(|c| core::array::from_fn(|r| m.at(r, c)))
}

impl<const ROWS: usize, const COLS: usize, T: Copy> Mat<ROWS, COLS, T> {
    /// The static matrix with the value of a dynamic matrix of its shape.
    pub fn from_matrix(m: &Matrix<T>) -> (s: Self)
        requires
            m.wf(),
            m@.rows == ROWS,
            m@.cols == COLS,
        ensures
            s@ == m@,
    {
        let s = Mat { data: columns_of(m) };
        proof {
            s.lemma_is(m@);
        }
        s
    }

    /// The dynamic matrix with the value of this matrix.
    pub fn to_matrix(&self) -> (m: Matrix<T>)
        ensures
            m.wf(),
            m@ == self@,
    {
        let m = Matrix::new(self.data);
        proof {
            self.lemma_cells();
            m@.lemma_equal_by_cells(self@);
        }
        m
    }
}

impl<const ROWS: usize, const COLS: usize, T> vstd::std_specs::convert::FromSpecImpl<[[T; ROWS]; COLS]> for Mat<ROWS, COLS, T> {
    open spec fn obeys_from_spec() -> bool {
        false
    }

    open spec fn from_spec(value: [[T; ROWS]; COLS]) -> Self {
        arbitrary()
    }
}

impl<const ROWS: usize, const COLS: usize, T> From<[[T; ROWS]; COLS]> for Mat<ROWS, COLS, T> {
    /// The matrix with the given columns.
    fn from(value: [[T; ROWS]; COLS]) -> (m: Self)
        ensures
            m@.wf(),
            m@.rows == ROWS,
            m@.cols == COLS,
            forall|r: int, c: int| 0 <= r < ROWS && 0 <= c < COLS ==> m@.at(r, c) == value[c][r],
    {
        Mat::new(value)
    }
}

impl<const ROWS: usize, const COLS: usize, T: Copy> vstd::std_specs::convert::FromSpecImpl<Mat<ROWS, COLS, T>> for Matrix<T> {
    open spec fn obeys_from_spec() -> bool {
        false
    }

    open spec fn from_spec(value: Mat<ROWS, COLS, T>) -> Self {
        arbitrary()
    }
}

impl<const ROWS: usize, const COLS: usize, T: Copy> From<Mat<ROWS, COLS, T>> for Matrix<T> {
    /// The dynamic matrix with the shape and the elements of a static
    /// matrix.
    fn from(value: Mat<ROWS, COLS, T>) -> (m: Self)
        ensures
            m.wf(),
            m@ == value@,
    {
        value.to_matrix()
    }
}

impl<const ROWS: usize, const COLS: usize, T: Copy> vstd::std_specs::convert::FromSpecImpl<[[T; ROWS]; COLS]> for Matrix<T> {
    open spec fn obeys_from_spec() -> bool {
        false
    }

    open spec fn from_spec(value: [[T; ROWS]; COLS]) -> Self {
        arbitrary()
    }
}

impl<const ROWS: usize, const COLS: usize, T: Copy> From<[[T; ROWS]; COLS]> for Matrix<T> {
    /// The dynamic matrix with the given columns.
    fn from(value: [[T; ROWS]; COLS]) -> (m: Self)
        ensures
            m.wf(),
            m@.rows == ROWS,
            m@.cols == COLS,
            forall|r: int, c: int| 0 <= r < ROWS && 0 <= c < COLS ==> m@.at(r, c) == value[c][r],
    {
        Matrix::new(value)
    }
}

/// The error that reports the shape of `m` where `rows` by `cols` was
/// expected.
pub open spec fn shape_expected<T>(e: MatrixError, rows: nat, cols: nat, m: Matrix<T>) -> bool {
    match e {
        MatrixError::DimensionsNotMatch { expected, actual } => {
            &&& expected@ == shape_text(rows, cols)
            &&& actual@ == shape_text(m@.rows, m@.cols)
        },
        _ => false,
    }
}

impl<const ROWS: usize, const COLS: usize, T: Copy> vstd::std_specs::convert::TryFromSpecImpl<Matrix<T>> for Mat<ROWS, COLS, T> {
    open spec fn obeys_try_from_spec() -> bool {
        false
    }

    open spec fn try_from_spec(value: Matrix<T>) -> Result<Self, MatrixError> {
        arbitrary()
    }
}

impl<const ROWS: usize, const COLS: usize, T: Copy> TryFrom<Matrix<T>> for Mat<ROWS, COLS, T> {
    type Error = MatrixError;

    /// The static matrix with the elements of a dynamic matrix of the same
    /// shape.
    ///
    /// Returns `DimensionsNotMatch` when the dynamic matrix has another
    /// shape than the static type.
    fn try_from(value: Matrix<T>) -> (res: Result<Self, MatrixError>)
        ensures
            value.wf() ==> match res {
                Ok(m) => value@.rows == ROWS && value@.cols == COLS && m@ == value@,
                Err(e) => (value@.rows != ROWS || value@.cols != COLS) && shape_expected(
                    e,
                    ROWS as nat,
                    COLS as nat,
                    value,
                ),
            },
    {
        if value.rows() != ROWS || value.cols() != COLS || !value.is_consistent() {
            Err(
                MatrixError::DimensionsNotMatch {
                    expected: shape_string(ROWS, COLS),
                    actual: shape_string(value.rows(), value.cols()),
                },
            )
        } else {
            Ok(Mat::from_matrix(&value))
        }
    }
}

} // verus!
