use crate::dynamic::shape_text;
use crate::dynamic::MatrixError;
use crate::grid::lemma_position_to_index;
use crate::grid::Grid;
use vstd::prelude::*;

verus! {

/// A dynamic-size column-major matrix.
#[derive(Debug, Clone, PartialEq, Eq)]
pub struct Matrix<T> {
    pub(crate) rows: usize,
    pub(crate) cols: usize,
    pub(crate) data: Vec<T>,
}

impl<T> View for Matrix<T> {
    type V = Grid<T>;

    open(crate) spec fn view(&self) -> Grid<T> {
        Grid { rows: self.rows as nat, cols: self.cols as nat, cells: self.data@ }
    }
}

impl<T> Matrix<T> {
    /// The storage holds one element for each position.
    pub open spec fn wf(&self) -> bool {
        self@.wf()
    }

    /// The error that reports `other`'s shape where this matrix's shape was
    /// expected.
    pub open spec fn shape_mismatch(&self, other: &Matrix<T>, e: MatrixError) -> bool {
        match e {
            MatrixError::DimensionsNotMatch { expected, actual } => {
                &&& expected@ == shape_text(self@.rows, self@.cols)
                &&& actual@ == shape_text(other@.rows, other@.cols)
            },
            _ => false,
        }
    }

    /// Whether the storage holds one element for each position. Every
    /// matrix that this library hands out does.
    pub fn is_consistent(&self) -> (b: bool)
        ensures
            b == self.wf(),
    {
        let len = self.data.len();
        match self.rows.checked_mul(self.cols) {
            Some(n) => n == len,
            None => false,
        }
    }

    /// The size of the matrix as `(rows, cols)`.
    pub fn size(&self) -> (s: (usize, usize))
        ensures
            s.0 == self@.rows,
            s.1 == self@.cols,
    {
        (self.rows, self.cols)
    }

    /// The number of rows.
    pub fn rows(&self) -> (n: usize)
        ensures
            n == self@.rows,
    {
        self.rows
    }

    /// The number of columns.
    pub fn cols(&self) -> (n: usize)
        ensures
            n == self@.cols,
    {
        self.cols
    }

    /// The number of elements.
    pub fn count(&self) -> (n: usize)
        requires
            self.wf(),
        ensures
            n == self@.rows * self@.cols,
    {
        self.data.len()
    }

    /// Whether the matrix has as many rows as columns.
    pub fn is_square(&self) -> (b: bool)
        ensures
            b == (self@.rows == self@.cols),
    {
        self.rows == self.cols
    }

    /// Whether both matrices have the same shape.
    pub fn is_same_size_with(&self, other: &Matrix<T>) -> (b: bool)
        ensures
            b == self@.same_shape(other@),
    {
        self.rows == other.rows && self.cols == other.cols
    }

    /// The elements in column-major order.
    pub fn raw_data(&self) -> (s: &[T])
        ensures
            s@ == self@.cells,
    {
        self.data.as_slice()
    }

    /// The storage index of the position `(row, col)`.
    pub(crate) fn offset(&self, row: usize, col: usize) -> (i: usize)
        requires
            self.wf(),
            self@.has(row as int, col as int),
        ensures
            i == col * self@.rows + row,
            i < self@.cells.len(),
    {
        let len = self.data.len();
        proof {
            lemma_position_to_index(self@.rows, self@.cols, row as int, col as int);
            assert(0 <= col * self.rows <= col * self.rows + row < len) by (nonlinear_arith)
                requires
                    col * self.rows + row < len,
                    0 <= row,
                    0 <= col,
                    0 <= self.rows,
            ;
        }
        col * self.rows + row
    }

    /// The element at `(row, col)`, or nothing when the position lies
    /// outside the matrix.
    pub fn get(&self, row: usize, col: usize) -> (e: Option<&T>)
        requires
            self.wf(),
        ensures
            self@.has(row as int, col as int) ==> e == Some(&self@.at(row as int, col as int)),
            !self@.has(row as int, col as int) ==> e.is_none(),
    {
        if row < self.rows && col < self.cols {
            let i = self.offset(row, col);
            Some(&self.data[i])
        } else {
            None
        }
    }
}

impl<T: Copy> Matrix<T> {
    /// Creates a matrix from an array of columns: `data[c][r]` becomes the
    /// element in row `r` and column `c`.
    pub fn new<const ROWS: usize, const COLS: usize>(data: [[T; ROWS]; COLS]) -> (m: Self)
        ensures
            m.wf(),
            m@.rows == ROWS,
            m@.cols == COLS,
            forall|r: int, c: int| 0 <= r < ROWS && 0 <= c < COLS ==> m@.at(r, c) == data[c][r],
    {
        let mut vec: Vec<T> = Vec::new();
        let mut c: usize = 0;
        while c < COLS
            invariant
                c <= COLS,
                vec@.len() == c * ROWS,
                forall|j: int, i: int|
                    0 <= j < c && 0 <= i < ROWS ==> vec@[j * ROWS + i] == data[j][i],
            decreases COLS - c,
        {
            let mut r: usize = 0;
            while r < ROWS
                invariant
                    c < COLS,
                    r <= ROWS,
                    vec@.len() == c * ROWS + r,
                    forall|j: int, i: int|
                        0 <= j < c && 0 <= i < ROWS ==> vec@[j * ROWS + i] == data[j][i],
                    forall|i: int| 0 <= i < r ==> vec@[c * ROWS + i] == data[c as int][i],
                decreases ROWS - r,
            {
                vec.push(data[c][r]);
                proof {
                    assert forall|j: int, i: int| 0 <= j < c && 0 <= i < ROWS implies vec@[j * ROWS
                        + i] == data[j][i] by {
                        lemma_position_to_index(ROWS as nat, c as nat, i, j);
                    }
                }
                r += 1;
            }
            proof {
                assert((c + 1) * ROWS == c * ROWS + ROWS) by (nonlinear_arith);
                assert forall|j: int, i: int| 0 <= j < c + 1 && 0 <= i < ROWS implies vec@[j * ROWS
                    + i] == data[j][i] by {
                    if j == c {
                    }
                }
            }
            c += 1;
        }
        proof {
            assert(COLS * ROWS == ROWS * COLS) by (nonlinear_arith);
        }
        Matrix { rows: ROWS, cols: COLS, data: vec }
    }

    /// Creates a matrix of the given shape with every element equal to
    /// `value`.
    pub fn fill(rows: usize, cols: usize, value: T) -> (m: Self)
        requires
            rows * cols <= usize::MAX,
        ensures
            m.wf(),
            m@ == Grid::constant(rows as nat, cols as nat, value),
    {
        let n: usize = rows * cols;
        let mut vec: Vec<T> = Vec::new();
        let mut i: usize = 0;
        while i < n
            invariant
                i <= n,
                vec@.len() == i,
                forall|k: int| 0 <= k < i ==> vec@[k] == value,
            decreases n - i,
        {
            vec.push(value);
            i += 1;
        }
        proof {
            assert(vec@ =~= Grid::constant(rows as nat, cols as nat, value).cells);
        }
        Matrix { rows, cols, data: vec }
    }

    /// Creates a matrix of the given shape with every element equal to
    /// `init`.
    pub fn new_with_init(rows: usize, cols: usize, init: T) -> (m: Self)
        requires
            rows * cols <= usize::MAX,
        ensures
            m.wf(),
            m@ == Grid::constant(rows as nat, cols as nat, init),
    {
        Self::fill(rows, cols, init)
    }

    /// The element at `(row, col)`.
    pub fn at(&self, row: usize, col: usize) -> (e: T)
        requires
            self.wf(),
            self@.has(row as int, col as int),
        ensures
            e == self@.at(row as int, col as int),
    {
        let i = self.offset(row, col);
        self.data[i]
    }

    /// Replaces the element at `(row, col)`.
    pub fn set(&mut self, row: usize, col: usize, value: T)
        requires
            old(self).wf(),
            old(self)@.has(row as int, col as int),
        ensures
            final(self).wf(),
            final(self)@ == old(self)@.with_cell(row as int, col as int, value),
    {
        let i = self.offset(row, col);
        self.data[i] = value;
    }

    /// An independent copy of this matrix.
    pub fn duplicate(&self) -> (m: Self)
        requires
            self.wf(),
        ensures
            m.wf(),
            m@ == self@,
    {
        let n = self.data.len();
        let mut vec: Vec<T> = Vec::new();
        let mut i: usize = 0;
        while i < n
            invariant
                n == self.data@.len(),
                i <= n,
                vec@.len() == i,
                forall|k: int| 0 <= k < i ==> vec@[k] == self.data@[k],
            decreases n - i,
        {
            vec.push(self.data[i]);
            i += 1;
        }
        proof {
            assert(vec@ =~= self.data@);
        }
        Matrix { rows: self.rows, cols: self.cols, data: vec }
    }
}

} // verus!
