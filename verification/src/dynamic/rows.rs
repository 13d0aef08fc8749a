use crate::dynamic::shape_string;
use crate::dynamic::shape_text;
use crate::dynamic::Matrix;
use crate::dynamic::MatrixError;
use vstd::prelude::*;

verus! {

/// What an operation on row or column `i` reports when `limit` rows or
/// columns exist and `i` is none of them.
pub open spec fn out_of_range(e: MatrixError, i: usize, limit: nat) -> bool {
    e == (MatrixError::IndexOutOfRange { index: i, limit: limit as usize })
}

impl<T: Copy> Matrix<T> {
    /// Exchanges two rows that exist.
    pub(crate) fn exchange_rows(&mut self, i: usize, j: usize)
        requires
            old(self).wf(),
            i < old(self)@.rows,
            j < old(self)@.rows,
        ensures
            final(self).wf(),
            final(self)@ == old(self)@.swapped_rows(i as int, j as int),
    {
        let ghost before = self@;
        let mut k: usize = 0;
        while k < self.cols
            invariant
                self.wf(),
                self@.same_shape(before),
                before.wf(),
                i < before.rows,
                j < before.rows,
                k <= before.cols,
                forall|r: int, c: int|
                    before.has(r, c) ==> #[trigger] self@.at(r, c) == if c < k {
                        before.swapped_rows(i as int, j as int).at(r, c)
                    } else {
                        before.at(r, c)
                    },
            decreases before.cols - k,
        {
            proof {
                before.lemma_swapped_rows(i as int, j as int);
            }
            let upper = self.at(i, k);
            let lower = self.at(j, k);
            let ghost first = self@;
            self.set(i, k, lower);
            let ghost second = self@;
            self.set(j, k, upper);
            proof {
                first.lemma_with_cell(i as int, k as int, lower);
                second.lemma_with_cell(j as int, k as int, upper);
            }
            k += 1;
        }
        proof {
            let goal = before.swapped_rows(i as int, j as int);
            before.lemma_swapped_rows(i as int, j as int);
            self@.lemma_equal_by_cells(goal);
        }
    }

    /// Exchanges rows `i` and `j`.
    ///
    /// Returns `IndexOutOfRange`, and leaves the matrix as it was, when one
    /// of them is not a row of the matrix; of two such indices `i` is
    /// reported.
    pub fn swap_row(&mut self, i: usize, j: usize) -> (res: Result<(), MatrixError>)
        requires
            old(self).wf(),
        ensures
            final(self).wf(),
            match res {
                Ok(_) => i < old(self)@.rows && j < old(self)@.rows && final(self)@ == old(
                    self,
                )@.swapped_rows(i as int, j as int),
                Err(e) => *final(self) == *old(self) && if i >= old(self)@.rows {
                    out_of_range(e, i, old(self)@.rows)
                } else {
                    j >= old(self)@.rows && out_of_range(e, j, old(self)@.rows)
                },
            },
    {
        if i >= self.rows {
            return Err(MatrixError::IndexOutOfRange { index: i, limit: self.rows });
        }
        if j >= self.rows {
            return Err(MatrixError::IndexOutOfRange { index: j, limit: self.rows });
        }
        self.exchange_rows(i, j);
        Ok(())
    }

    /// Exchanges columns `i` and `j`.
    ///
    /// Returns `IndexOutOfRange`, and leaves the matrix as it was, when one
    /// of them is not a column of the matrix; of two such indices `i` is
    /// reported.
    pub fn swap_col(&mut self, i: usize, j: usize) -> (res: Result<(), MatrixError>)
        requires
            old(self).wf(),
        ensures
            final(self).wf(),
            match res {
                Ok(_) => i < old(self)@.cols && j < old(self)@.cols && final(self)@ == old(
                    self,
                )@.swapped_cols(i as int, j as int),
                Err(e) => *final(self) == *old(self) && if i >= old(self)@.cols {
                    out_of_range(e, i, old(self)@.cols)
                } else {
                    j >= old(self)@.cols && out_of_range(e, j, old(self)@.cols)
                },
            },
    {
        if i >= self.cols {
            return Err(MatrixError::IndexOutOfRange { index: i, limit: self.cols });
        }
        if j >= self.cols {
            return Err(MatrixError::IndexOutOfRange { index: j, limit: self.cols });
        }
        let ghost before = self@;
        let mut k: usize = 0;
        while k < self.rows
            invariant
                self.wf(),
                self@.same_shape(before),
                before.wf(),
                i < before.cols,
                j < before.cols,
                k <= before.rows,
                forall|r: int, c: int|
                    before.has(r, c) ==> #[trigger] self@.at(r, c) == if r < k {
                        before.swapped_cols(i as int, j as int).at(r, c)
                    } else {
                        before.at(r, c)
                    },
            decreases before.rows - k,
        {
            proof {
                before.lemma_swapped_cols(i as int, j as int);
            }
            let left = self.at(k, i);
            let right = self.at(k, j);
            let ghost first = self@;
            self.set(k, i, right);
            let ghost second = self@;
            self.set(k, j, left);
            proof {
                first.lemma_with_cell(k as int, i as int, right);
                second.lemma_with_cell(k as int, j as int, left);
            }
            k += 1;
        }
        proof {
            let goal = before.swapped_cols(i as int, j as int);
            before.lemma_swapped_cols(i as int, j as int);
            self@.lemma_equal_by_cells(goal);
        }
        Ok(())
    }

    /// Row `i` as a matrix of one row.
    ///
    /// Returns `IndexOutOfRange` when `i` is not a row of the matrix.
    pub fn get_row(&self, i: usize) -> (res: Result<Matrix<T>, MatrixError>)
        requires
            self.wf(),
        ensures
            match res {
                Ok(m) => i < self@.rows && m.wf() && m@ == self@.row(i as int),
                Err(e) => i >= self@.rows && out_of_range(e, i, self@.rows),
            },
    {
        if i >= self.rows {
            return Err(MatrixError::IndexOutOfRange { index: i, limit: self.rows });
        }
        let mut vec: Vec<T> = Vec::new();
        let mut c: usize = 0;
        while c < self.cols
            invariant
                self.wf(),
                i < self@.rows,
                c <= self@.cols,
                vec@.len() == c,
                forall|q: int| 0 <= q < c ==> vec@[q] == self@.at(i as int, q),
            decreases self@.cols - c,
        {
            vec.push(self.at(i, c));
            c += 1;
        }
        proof {
            assert(vec@ =~= self@.row(i as int).cells);
        }
        Ok(Matrix { rows: 1, cols: self.cols, data: vec })
    }

    /// Column `j` as a matrix of one column.
    ///
    /// Returns `IndexOutOfRange` when `j` is not a column of the matrix.
    pub fn get_col(&self, j: usize) -> (res: Result<Matrix<T>, MatrixError>)
        requires
            self.wf(),
        ensures
            match res {
                Ok(m) => j < self@.cols && m.wf() && m@ == self@.col(j as int),
                Err(e) => j >= self@.cols && out_of_range(e, j, self@.cols),
            },
    {
        if j >= self.cols {
            return Err(MatrixError::IndexOutOfRange { index: j, limit: self.cols });
        }
        let mut vec: Vec<T> = Vec::new();
        let mut r: usize = 0;
        while r < self.rows
            invariant
                self.wf(),
                j < self@.cols,
                r <= self@.rows,
                vec@.len() == r,
                forall|q: int| 0 <= q < r ==> vec@[q] == self@.at(q, j as int),
            decreases self@.rows - r,
        {
            vec.push(self.at(r, j));
            r += 1;
        }
        proof {
            let spec_col = self@.col(j as int);
            assert forall|q: int| 0 <= q < vec@.len() implies vec@[q] == spec_col.cells[q] by {
                assert(q / (self@.rows as int) == 0 && q % (self@.rows as int) == q)
                    by (nonlinear_arith)
                    requires
                        0 <= q < self@.rows,
                ;
            }
            assert(vec@ =~= spec_col.cells);
        }
        Ok(Matrix { rows: self.rows, cols: 1, data: vec })
    }

    /// The error that reports `other`'s shape where `rows` by `cols` was
    /// expected.
    pub open spec fn wrong_shape(e: MatrixError, rows: nat, cols: nat, other: &Matrix<T>) -> bool {
        match e {
            MatrixError::DimensionsNotMatch { expected, actual } => {
                &&& expected@ == shape_text(rows, cols)
                &&& actual@ == shape_text(other@.rows, other@.cols)
            },
            _ => false,
        }
    }

    /// Replaces row `i` by the only row of `row`.
    ///
    /// Returns `IndexOutOfRange` when `i` is not a row of the matrix, else
    /// `DimensionsNotMatch` when `row` is not one row of as many columns as
    /// the matrix has. The matrix is then left as it was.
    pub fn set_row(&mut self, i: usize, row: &Matrix<T>) -> (res: Result<(), MatrixError>)
        requires
            old(self).wf(),
            row.wf(),
        ensures
            final(self).wf(),
            match res {
                Ok(_) => i < old(self)@.rows && row@.rows == 1 && row@.cols == old(self)@.cols
                    && final(self)@ == old(self)@.with_row(i as int, row@),
                Err(e) => *final(self) == *old(self) && if i >= old(self)@.rows {
                    out_of_range(e, i, old(self)@.rows)
                } else {
                    (row@.rows != 1 || row@.cols != old(self)@.cols) && Self::wrong_shape(
                        e,
                        1,
                        old(self)@.cols,
                        row,
                    )
                },
            },
    {
        if i >= self.rows {
            return Err(MatrixError::IndexOutOfRange { index: i, limit: self.rows });
        }
        if row.rows != 1 || row.cols != self.cols {
            return Err(
                MatrixError::DimensionsNotMatch {
                    expected: shape_string(1, self.cols),
                    actual: shape_string(row.rows, row.cols),
                },
            );
        }
        let ghost before = self@;
        let mut c: usize = 0;
        while c < self.cols
            invariant
                self.wf(),
                row.wf(),
                self@.same_shape(before),
                before.wf(),
                row@.rows == 1,
                row@.cols == before.cols,
                i < before.rows,
                c <= before.cols,
                forall|r: int, q: int|
                    before.has(r, q) ==> #[trigger] self@.at(r, q) == if r == i && q < c {
                        row@.at(0, q)
                    } else {
                        before.at(r, q)
                    },
            decreases before.cols - c,
        {
            let v = row.at(0, c);
            let ghost first = self@;
            self.set(i, c, v);
            proof {
                first.lemma_with_cell(i as int, c as int, v);
            }
            c += 1;
        }
        proof {
            let goal = before.with_row(i as int, row@);
            before.lemma_with_row(i as int, row@);
            self@.lemma_equal_by_cells(goal);
        }
        Ok(())
    }

    /// Replaces column `j` by the only column of `col`.
    ///
    /// Returns `IndexOutOfRange` when `j` is not a column of the matrix,
    /// else `DimensionsNotMatch` when `col` is not one column of as many
    /// rows as the matrix has. The matrix is then left as it was.
    pub fn set_col(&mut self, j: usize, col: &Matrix<T>) -> (res: Result<(), MatrixError>)
        requires
            old(self).wf(),
            col.wf(),
        ensures
            final(self).wf(),
            match res {
                Ok(_) => j < old(self)@.cols && col@.cols == 1 && col@.rows == old(self)@.rows
                    && final(self)@ == old(self)@.with_col(j as int, col@),
                Err(e) => *final(self) == *old(self) && if j >= old(self)@.cols {
                    out_of_range(e, j, old(self)@.cols)
                } else {
                    (col@.cols != 1 || col@.rows != old(self)@.rows) && Self::wrong_shape(
                        e,
                        old(self)@.rows,
                        1,
                        col,
                    )
                },
            },
    {
        if j >= self.cols {
            return Err(MatrixError::IndexOutOfRange { index: j, limit: self.cols });
        }
        if col.cols != 1 || col.rows != self.rows {
            return Err(
                MatrixError::DimensionsNotMatch {
                    expected: shape_string(self.rows, 1),
                    actual: shape_string(col.rows, col.cols),
                },
            );
        }
        let ghost before = self@;
        let mut r: usize = 0;
        while r < self.rows
            invariant
                self.wf(),
                col.wf(),
                self@.same_shape(before),
                before.wf(),
                col@.cols == 1,
                col@.rows == before.rows,
                j < before.cols,
                r <= before.rows,
                forall|q: int, c: int|
                    before.has(q, c) ==> #[trigger] self@.at(q, c) == if c == j && q < r {
                        col@.at(q, 0)
                    } else {
                        before.at(q, c)
                    },
            decreases before.rows - r,
        {
            let v = col.at(r, 0);
            let ghost first = self@;
            self.set(r, j, v);
            proof {
                first.lemma_with_cell(r as int, j as int, v);
            }
            r += 1;
        }
        proof {
            let goal = before.with_col(j as int, col@);
            before.lemma_with_col(j as int, col@);
            self@.lemma_equal_by_cells(goal);
        }
        Ok(())
    }
}

} // verus!
