use crate::dynamic::decimal;
use crate::dynamic::decimal_string;
use crate::dynamic::join_with_x;
use crate::dynamic::joined;
use crate::dynamic::Matrix;
use crate::dynamic::MatrixError;
use crate::grid::lemma_position_to_index;
use crate::grid::Grid;
use crate::traits::UnitOne;
use crate::traits::Zero;
use std::ops::Add;
use std::ops::Mul;
use vstd::prelude::*;
use vstd::std_specs::ops::AddSpec;
use vstd::std_specs::ops::MulSpec;

verus! {

impl<T: Copy> Matrix<T> {
    /// The transpose of the matrix: a fresh matrix with rows and columns
    /// exchanged.
    pub fn transpose(&self) -> (m: Self)
        requires
            self.wf(),
        ensures
            m.wf(),
            m@ == self@.transposed(),
    {
        let ghost rows = self@.cols;
        let ghost cols = self@.rows;
        let mut vec: Vec<T> = Vec::new();
        let mut c: usize = 0;
        while c < self.rows
            invariant
                self.wf(),
                rows == self@.cols,
                cols == self@.rows,
                c <= cols,
                vec@.len() == c * rows,
                forall|q: int|
                    0 <= q < vec@.len() ==> vec@[q] == self@.at(q / (rows as int), q % (rows as int)),
            decreases cols - c,
        {
            let mut r: usize = 0;
            while r < self.cols
                invariant
                    self.wf(),
                    rows == self@.cols,
                    cols == self@.rows,
                    c < cols,
                    r <= rows,
                    vec@.len() == c * rows + r,
                    forall|q: int|
                        0 <= q < vec@.len() ==> vec@[q] == self@.at(
                            q / (rows as int),
                            q % (rows as int),
                        ),
                decreases rows - r,
            {
                proof {
                    lemma_position_to_index(rows, cols, r as int, c as int);
                }
                vec.push(self.at(c, r));
                r += 1;
            }
            proof {
                assert((c + 1) * rows == c * rows + rows) by (nonlinear_arith);
            }
            c += 1;
        }
        proof {
            assert(cols * rows == rows * cols) by (nonlinear_arith);
            assert(vec@ =~= self@.transposed().cells);
        }
        Matrix { rows: self.cols, cols: self.rows, data: vec }
    }

    /// The transpose of the matrix; a shorthand for `transpose()`.
    #[allow(non_snake_case)]
    pub fn T(&self) -> (m: Self)
        requires
            self.wf(),
        ensures
            m.wf(),
            m@ == self@.transposed(),
    {
        self.transpose()
    }
}

impl<T: Copy + Zero + UnitOne> Matrix<T> {
    /// The identity matrix of the given size.
    pub fn identity(size: usize) -> (m: Self)
        requires
            size * size <= usize::MAX,
        ensures
            m.wf(),
            m@ == Grid::<T>::identity(size as nat),
    {
        let mut vec: Vec<T> = Vec::new();
        let mut c: usize = 0;
        while c < size
            invariant
                c <= size,
                vec@.len() == c * size,
                forall|q: int|
                    0 <= q < vec@.len() ==> vec@[q] == if q % (size as int) == q / (size as int) {
                        T::unit_one_spec()
                    } else {
                        T::zero_spec()
                    },
            decreases size - c,
        {
            let mut r: usize = 0;
            while r < size
                invariant
                    c < size,
                    r <= size,
                    vec@.len() == c * size + r,
                    forall|q: int|
                        0 <= q < vec@.len() ==> vec@[q] == if q % (size as int) == q / (size as int) {
                            T::unit_one_spec()
                        } else {
                            T::zero_spec()
                        },
                decreases size - r,
            {
                proof {
                    lemma_position_to_index(size as nat, size as nat, r as int, c as int);
                }
                if r == c {
                    vec.push(T::unit_one());
                } else {
                    vec.push(T::zero());
                }
                r += 1;
            }
            proof {
                assert((c + 1) * size == c * size + size) by (nonlinear_arith);
            }
            c += 1;
        }
        proof {
            assert(vec@ =~= Grid::<T>::identity(size as nat).cells);
        }
        Matrix { rows: size, cols: size, data: vec }
    }

    /// The identity matrix of the given size; a shorthand for `identity()`.
    #[allow(non_snake_case)]
    pub fn I(size: usize) -> (m: Self)
        requires
            size * size <= usize::MAX,
        ensures
            m.wf(),
            m@ == Grid::<T>::identity(size as nat),
    {
        Self::identity(size)
    }
}

impl<T: Copy + Zero + Add<Output = T> + Mul<Output = T>> Matrix<T> {
    /// The error that `dot` reports: this matrix's number of columns was
    /// expected as `other`'s number of rows.
    pub open spec fn inner_mismatch(&self, other: &Matrix<T>, e: MatrixError) -> bool {
        match e {
            MatrixError::DimensionsNotMatch { expected, actual } => {
                &&& expected@ == joined(decimal(self@.cols), seq!['N'])
                &&& actual@ == joined(decimal(other@.rows), seq!['_'])
            },
            _ => false,
        }
    }

    /// Multiplies two matrices: the element at `(i, j)` of the result is row
    /// `i` of `self` times column `j` of `other`, summed from zero in the
    /// order of the terms.
    ///
    /// Returns `DimensionsNotMatch` when the number of columns of `self` is
    /// not the number of rows of `other`.
    pub fn dot(&self, other: &Self) -> (res: Result<Self, MatrixError>)
        requires
            self.wf(),
            other.wf(),
            self@.cols == other@.rows ==> self@.can_multiply(other@) && self@.rows * other@.cols
                <= usize::MAX,
        ensures
            match res {
                Ok(m) => self@.cols == other@.rows && m.wf() && m@ == self@.product(other@),
                Err(e) => self@.cols != other@.rows && self.inner_mismatch(other, e),
            },
    {
        if self.cols != other.rows {
            let expected = decimal_string(self.cols);
            let actual = decimal_string(other.rows);
            proof {
                reveal_strlit("N");
                reveal_strlit("_");
                assert("N"@ =~= seq!['N']);
                assert("_"@ =~= seq!['_']);
            }
            return Err(
                MatrixError::DimensionsNotMatch {
                    expected: join_with_x(expected.as_str(), "N"),
                    actual: join_with_x(actual.as_str(), "_"),
                },
            );
        }
        let ghost rows = self@.rows;
        let ghost cols = other@.cols;
        let mut vec: Vec<T> = Vec::new();
        let mut j: usize = 0;
        while j < other.cols
            invariant
                self.wf(),
                other.wf(),
                self@.cols == other@.rows,
                self@.can_multiply(other@),
                rows == self@.rows,
                cols == other@.cols,
                j <= cols,
                vec@.len() == j * rows,
                forall|q: int|
                    0 <= q < vec@.len() ==> vec@[q] == self@.row_by_col(
                        other@,
                        q % (rows as int),
                        q / (rows as int),
                        self@.cols,
                    ),
            decreases cols - j,
        {
            let mut i: usize = 0;
            while i < self.rows
                invariant
                    self.wf(),
                    other.wf(),
                    self@.cols == other@.rows,
                    self@.can_multiply(other@),
                    rows == self@.rows,
                    cols == other@.cols,
                    j < cols,
                    i <= rows,
                    vec@.len() == j * rows + i,
                    forall|q: int|
                        0 <= q < vec@.len() ==> vec@[q] == self@.row_by_col(
                            other@,
                            q % (rows as int),
                            q / (rows as int),
                            self@.cols,
                        ),
                decreases rows - i,
            {
                let mut acc = T::zero();
                let mut k: usize = 0;
                while k < self.cols
                    invariant
                        self.wf(),
                        other.wf(),
                        self@.cols == other@.rows,
                        self@.can_multiply(other@),
                        rows == self@.rows,
                        cols == other@.cols,
                        j < cols,
                        i < rows,
                        k <= self@.cols,
                        acc == self@.row_by_col(other@, i as int, j as int, k as nat),
                    decreases self@.cols - k,
                {
                    let a = self.at(i, k);
                    let b = other.at(k, j);
                    proof {
                        let term = self@.row_by_col(other@, i as int, j as int, k as nat);
                        assert(a.mul_req(b));
                        assert(term.add_req(a.mul_spec(b)));
                    }
                    acc = acc + a * b;
                    k += 1;
                }
                proof {
                    lemma_position_to_index(rows, cols, i as int, j as int);
                }
                vec.push(acc);
                i += 1;
            }
            proof {
                assert((j + 1) * rows == j * rows + rows) by (nonlinear_arith);
            }
            j += 1;
        }
        proof {
            assert(cols * rows == rows * cols) by (nonlinear_arith);
            assert(vec@ =~= self@.product(other@).cells);
        }
        Ok(Matrix { rows: self.rows, cols: other.cols, data: vec })
    }
}

} // verus!
