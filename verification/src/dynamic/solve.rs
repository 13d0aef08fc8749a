use crate::dynamic::shape_string;
use crate::dynamic::Matrix;
use crate::dynamic::MatrixError;
use crate::grid::Grid;
use crate::traits::elimination_obeys;
use crate::traits::is_zero;
use crate::traits::div_total;
use crate::traits::UnitOne;
use crate::traits::Zero;
use std::ops::Div;
use std::ops::Mul;
use std::ops::Sub;
use vstd::prelude::*;
use vstd::std_specs::ops::DivSpec;
use vstd::std_specs::ops::MulSpec;
use vstd::std_specs::ops::SubSpec;

verus! {

impl<T: Copy + Sub<Output = T> + Mul<Output = T>> Matrix<T> {
    /// Takes `m` times row `i` from row `j`, the factor on the left, in the
    /// columns from `from` on.
    pub(crate) fn reduce_left(&mut self, j: usize, i: usize, m: T, from: usize)
        requires
            old(self).wf(),
            j < old(self)@.rows,
            i < old(self)@.rows,
            T::obeys_sub_spec(),
            T::obeys_mul_spec(),
            forall|c: int|
                from <= c < old(self)@.cols ==> m.mul_req(#[trigger] old(self)@.at(i as int, c))
                    && old(self)@.at(j as int, c).sub_req(m.mul_spec(old(self)@.at(i as int, c))),
        ensures
            final(self).wf(),
            final(self)@ == old(self)@.reduced_left(
                j as int,
                i as int,
                m,
                from as int,
                old(self)@.cols as int,
            ),
    {
        let ghost before = self@;
        let mut k: usize = from;
        while k < self.cols
            invariant
                self.wf(),
                before.wf(),
                self@.same_shape(before),
                j < before.rows,
                i < before.rows,
                from <= k,
                T::obeys_sub_spec(),
                T::obeys_mul_spec(),
                forall|c: int|
                    from <= c < before.cols ==> m.mul_req(#[trigger] before.at(i as int, c))
                        && before.at(j as int, c).sub_req(m.mul_spec(before.at(i as int, c))),
                forall|r: int, c: int|
                    before.has(r, c) ==> #[trigger] self@.at(r, c) == if r == j && from <= c < k {
                        before.at(j as int, c).sub_spec(m.mul_spec(before.at(i as int, c)))
                    } else {
                        before.at(r, c)
                    },
            decreases before.cols - k,
        {
            let a = self.at(j, k);
            let b = self.at(i, k);
            assert(b == before.at(i as int, k as int));
            assert(a == before.at(j as int, k as int));
            let v = a - m * b;
            let ghost first = self@;
            self.set(j, k, v);
            proof {
                first.lemma_with_cell(j as int, k as int, v);
            }
            k += 1;
        }
        proof {
            let goal = before.reduced_left(j as int, i as int, m, from as int, before.cols as int);
            before.lemma_reduced_left(j as int, i as int, m, from as int, before.cols as int);
            self@.lemma_equal_by_cells(goal);
        }
    }

    /// Takes row `i` times `f` from row `j`, the factor on the right.
    pub(crate) fn reduce_right(&mut self, j: usize, i: usize, f: T)
        requires
            old(self).wf(),
            j < old(self)@.rows,
            i < old(self)@.rows,
            T::obeys_sub_spec(),
            T::obeys_mul_spec(),
            forall|c: int|
                0 <= c < old(self)@.cols ==> (#[trigger] old(self)@.at(i as int, c)).mul_req(f)
                    && old(self)@.at(j as int, c).sub_req(old(self)@.at(i as int, c).mul_spec(f)),
        ensures
            final(self).wf(),
            final(self)@ == old(self)@.reduced_right(j as int, i as int, f, old(self)@.cols as int),
    {
        let ghost before = self@;
        let mut k: usize = 0;
        while k < self.cols
            invariant
                self.wf(),
                before.wf(),
                self@.same_shape(before),
                j < before.rows,
                i < before.rows,
                T::obeys_sub_spec(),
                T::obeys_mul_spec(),
                forall|c: int|
                    0 <= c < before.cols ==> (#[trigger] before.at(i as int, c)).mul_req(f)
                        && before.at(j as int, c).sub_req(before.at(i as int, c).mul_spec(f)),
                forall|r: int, c: int|
                    before.has(r, c) ==> #[trigger] self@.at(r, c) == if r == j && c < k {
                        before.at(j as int, c).sub_spec(before.at(i as int, c).mul_spec(f))
                    } else {
                        before.at(r, c)
                    },
            decreases before.cols - k,
        {
            let a = self.at(j, k);
            let b = self.at(i, k);
            assert(b == before.at(i as int, k as int));
            assert(a == before.at(j as int, k as int));
            let v = a - b * f;
            let ghost first = self@;
            self.set(j, k, v);
            proof {
                first.lemma_with_cell(j as int, k as int, v);
            }
            k += 1;
        }
        proof {
            let goal = before.reduced_right(j as int, i as int, f, before.cols as int);
            before.lemma_reduced_right(j as int, i as int, f, before.cols as int);
            self@.lemma_equal_by_cells(goal);
        }
    }
}

impl<T: Copy + Div<Output = T>> Matrix<T> {
    /// Divides row `i` by `p`.
    pub(crate) fn divide_row(&mut self, i: usize, p: T)
        requires
            old(self).wf(),
            i < old(self)@.rows,
            div_total::<T>(),
        ensures
            final(self).wf(),
            final(self)@ == old(self)@.row_divided(i as int, p, old(self)@.cols as int),
    {
        let ghost before = self@;
        let mut k: usize = 0;
        while k < self.cols
            invariant
                self.wf(),
                before.wf(),
                self@.same_shape(before),
                i < before.rows,
                div_total::<T>(),
                forall|r: int, c: int|
                    before.has(r, c) ==> #[trigger] self@.at(r, c) == if r == i && c < k {
                        before.at(i as int, c).div_spec(p)
                    } else {
                        before.at(r, c)
                    },
            decreases before.cols - k,
        {
            let a = self.at(i, k);
            assert(a.div_req(p));
            let v = a / p;
            let ghost first = self@;
            self.set(i, k, v);
            proof {
                first.lemma_with_cell(i as int, k as int, v);
            }
            k += 1;
        }
        proof {
            let goal = before.row_divided(i as int, p, before.cols as int);
            before.lemma_row_divided(i as int, p, before.cols as int);
            self@.lemma_equal_by_cells(goal);
        }
    }
}

impl<
    T: Copy + Zero + UnitOne + PartialEq + Sub<Output = T> + Mul<Output = T> + Div<Output = T>,
> Matrix<T> {
    /// The error that reports a shape that is not square.
    pub open spec fn not_square(&self, e: MatrixError) -> bool {
        Self::wrong_shape(e, self@.rows, self@.rows, self)
    }

    /// Factors a square matrix into a lower factor with ones on the
    /// diagonal and an upper factor, column by column. Before a column is
    /// eliminated, a zero pivot makes its row change places with the last
    /// row; where the pivot is still zero the column's multipliers are
    /// zero and the column is left as it is.
    ///
    /// Returns `DimensionsNotMatch` when the matrix is not square.
    pub fn lu(&self) -> (res: Result<(Self, Self), MatrixError>)
        requires
            self.wf(),
            self@.rows == self@.cols ==> self@.can_factor(),
        ensures
            match res {
                Ok((l, u)) => self@.rows == self@.cols && l.wf() && u.wf() && (l@, u@)
                    == self@.lu(),
                Err(e) => self@.rows != self@.cols && self.not_square(e),
            },
    {
        if self.rows != self.cols {
            return Err(
                MatrixError::DimensionsNotMatch {
                    expected: shape_string(self.rows, self.rows),
                    actual: shape_string(self.rows, self.cols),
                },
            );
        }
        let n = self.rows;
        let count = self.data.len();
        assert(n * n == count);
        let mut l: Matrix<T> = Matrix::identity(n);
        let mut u = self.duplicate();
        proof {
            Grid::<T>::lemma_identity(n as nat);
        }
        let mut i: usize = 0;
        while i < n
            invariant
                self.wf(),
                self@.can_factor(),
                n == self@.rows,
                n == self@.cols,
                i <= n,
                l.wf(),
                u.wf(),
                l@.rows == n,
                l@.cols == n,
                u@.rows == n,
                u@.cols == n,
                (l@, u@) == self@.lu_after(i as nat),
            decreases n - i,
        {
            let ghost l0 = l@;
            let ghost u0 = u@;
            if u.at(i, i) == T::zero() {
                u.exchange_rows(i, n - 1);
            }
            let ghost p = u@;
            proof {
                u0.lemma_swapped_rows(i as int, n - 1);
                assert(p == u0.pivoted(i as int));
                assert(self@.lu_after(i as nat).1 == u0);
                assert(p.can_eliminate_below(i as int));
            }
            let pivot = u.at(i, i);
            let no_pivot = pivot == T::zero();
            let mut j: usize = i + 1;
            while j < n
                invariant
                    elimination_obeys::<T>(),
                    p.can_eliminate_below(i as int),
                    i < n,
                    i < j <= n,
                    l.wf(),
                    u.wf(),
                    p.wf(),
                    l0.wf(),
                    l@.rows == n,
                    l@.cols == n,
                    u@.rows == n,
                    u@.cols == n,
                    p.rows == n,
                    p.cols == n,
                    l0.rows == n,
                    l0.cols == n,
                    pivot == p.at(i as int, i as int),
                    no_pivot == is_zero(pivot),
                    forall|r: int, c: int|
                        p.has(r, c) ==> #[trigger] u@.at(r, c) == if i < r < j && c >= i {
                            p.at(r, c).sub_spec(p.multiplier(i as int, r).mul_spec(p.at(i as int, c)))
                        } else {
                            p.at(r, c)
                        },
                    forall|r: int, c: int|
                        p.has(r, c) ==> #[trigger] l@.at(r, c) == if c == i && i < r < j {
                            p.multiplier(i as int, r)
                        } else {
                            l0.at(r, c)
                        },
                decreases n - j,
            {
                let below = u.at(j, i);
                assert(below == p.at(j as int, i as int));
                assert(p.can_eliminate_cell(i as int, j as int, i as int));
                let m = if no_pivot {
                    T::zero()
                } else {
                    below / pivot
                };
                assert(m == p.multiplier(i as int, j as int));
                assert forall|c: int| i <= c < n implies m.mul_req(#[trigger] u@.at(i as int, c))
                    && u@.at(j as int, c).sub_req(m.mul_spec(u@.at(i as int, c))) by {
                    assert(p.can_eliminate_cell(i as int, j as int, c));
                }
                let ghost l1 = l@;
                let ghost u1 = u@;
                l.set(j, i, m);
                u.reduce_left(j, i, m, i);
                proof {
                    l1.lemma_with_cell(j as int, i as int, m);
                    u1.lemma_reduced_left(j as int, i as int, m, i as int, n as int);
                }
                j += 1;
            }
            proof {
                p.lemma_eliminated_below(i as int);
                u@.lemma_equal_by_cells(p.eliminated_below(i as int));
                l0.lemma_with_multipliers(p, i as int);
                l@.lemma_equal_by_cells(l0.with_multipliers(p, i as int));
                assert(self@.lu_after((i + 1) as nat) == (
                    l0.with_multipliers(p, i as int),
                    p.eliminated_below(i as int),
                ));
            }
            i += 1;
        }
        Ok((l, u))
    }

    /// The determinant of a square matrix: the product of the diagonals of
    /// its two factors.
    ///
    /// Returns `DimensionsNotMatch` when the matrix is not square.
    pub fn det(&self) -> (res: Result<T, MatrixError>)
        requires
            self.wf(),
            self@.rows == self@.cols ==> self@.can_det(),
        ensures
            match res {
                Ok(d) => self@.rows == self@.cols && d == self@.det(),
                Err(e) => self@.rows != self@.cols && self.not_square(e),
            },
    {
        match self.lu() {
            Err(e) => Err(e),
            Ok((l, u)) => {
                let n = self.rows;
                let mut det = T::unit_one();
                let mut i: usize = 0;
                proof {
                    assert(l@.rows == n && l@.cols == n && u@.rows == n && u@.cols == n) by {
                        lemma_lu_shape(self@, n as nat);
                    }
                }
                while i < n
                    invariant
                        elimination_obeys::<T>(),
                        Grid::can_multiply_diagonals(l@, u@, n as nat),
                        l.wf(),
                        u.wf(),
                        l@.rows == n,
                        l@.cols == n,
                        u@.rows == n,
                        u@.cols == n,
                        i <= n,
                        det == Grid::diagonal_product(l@, u@, i as nat),
                    decreases n - i,
                {
                    let a = u.at(i, i);
                    let b = l.at(i, i);
                    assert(Grid::diagonal_product(l@, u@, i as nat).mul_req(a));
                    det = det * a * b;
                    i += 1;
                }
                Ok(det)
            },
        }
    }

    /// The rank as forward elimination finds it: on each diagonal position
    /// with a pivot that is not zero, the rows below are reduced; the rows
    /// that are not all zero afterwards are counted. Zero is told by `==`
    /// alone, without a tolerance.
    pub fn rank(&self) -> (rank: usize)
        requires
            self.wf(),
            self@.can_rank(),
        ensures
            rank == self@.rank(),
    {
        let mut w = self.duplicate();
        let steps = if self.rows <= self.cols {
            self.rows
        } else {
            self.cols
        };
        let mut i: usize = 0;
        while i < steps
            invariant
                self.wf(),
                self@.can_rank(),
                steps <= self@.rows,
                steps <= self@.cols,
                i <= steps,
                w.wf(),
                w@.same_shape(self@),
                w@ == self@.echelon_after(i as nat),
            decreases steps - i,
        {
            let ghost w0 = w@;
            let pivot = w.at(i, i);
            if !(pivot == T::zero()) {
                assert(self@.echelon_after(i as nat) == w0);
                assert(w0.can_reduce_below(i as int));
                let mut j: usize = i + 1;
                while j < self.rows
                    invariant
                        self.wf(),
                        elimination_obeys::<T>(),
                        w0.can_reduce_below(i as int),
                        i < steps,
                        steps <= self@.rows,
                        steps <= self@.cols,
                        i < j <= self@.rows,
                        w.wf(),
                        w0.wf(),
                        w@.same_shape(self@),
                        w0.same_shape(self@),
                        pivot == w0.at(i as int, i as int),
                        !is_zero(pivot),
                        forall|r: int, c: int|
                            w0.has(r, c) ==> #[trigger] w@.at(r, c) == if i < r < j {
                                w0.at(r, c).sub_spec(
                                    w0.at(i as int, c).mul_spec(
                                        w0.at(r, i as int).div_spec(w0.at(i as int, i as int)),
                                    ),
                                )
                            } else {
                                w0.at(r, c)
                            },
                    decreases self@.rows - j,
                {
                    let below = w.at(j, i);
                    assert(w0.can_reduce_cell(i as int, j as int, i as int));
                    let m = below / pivot;
                    let ghost w1 = w@;
                    assert forall|c: int| 0 <= c < w1.cols implies (#[trigger] w1.at(
                        i as int,
                        c,
                    )).mul_req(m) && w1.at(j as int, c).sub_req(w1.at(i as int, c).mul_spec(m)) by {
                        assert(w0.can_reduce_cell(i as int, j as int, c));
                    }
                    w.reduce_right(j, i, m);
                    proof {
                        w1.lemma_reduced_right(j as int, i as int, m, w1.cols as int);
                    }
                    j += 1;
                }
                proof {
                    w0.lemma_reduced_below(i as int);
                    w@.lemma_equal_by_cells(w0.reduced_below(i as int));
                }
            }
            i += 1;
        }
        let mut rank: usize = 0;
        let mut r: usize = 0;
        while r < self.rows
            invariant
                elimination_obeys::<T>(),
                w.wf(),
                w@.same_shape(self@),
                r <= self@.rows,
                rank <= r,
                rank == w@.nonzero_rows(r as nat),
            decreases self@.rows - r,
        {
            let mut found = false;
            let mut c: usize = 0;
            while c < self.cols && !found
                invariant
                    elimination_obeys::<T>(),
                    w.wf(),
                    w@.same_shape(self@),
                    r < self@.rows,
                    c <= self@.cols,
                    found ==> w@.row_is_nonzero(r as int),
                    !found ==> forall|q: int| 0 <= q < c ==> is_zero(#[trigger] w@.at(r as int, q)),
                decreases self@.cols - c + if found { 0int } else { 1int },
            {
                if !(w.at(r, c) == T::zero()) {
                    found = true;
                } else {
                    c += 1;
                }
            }
            if found {
                rank += 1;
            }
            r += 1;
        }
        rank
    }
}

/// Both factors keep the shape of the grid they come from.
pub proof fn lemma_lu_shape<
    T: Zero + UnitOne + PartialEq + Sub<Output = T> + Mul<Output = T> + Div<Output = T>,
>(a: Grid<T>, i: nat)
    requires
        a.wf(),
        a.rows == a.cols,
    ensures
        a.lu_after(i).0.wf(),
        a.lu_after(i).1.wf(),
        a.lu_after(i).0.same_shape(a),
        a.lu_after(i).1.same_shape(a),
    decreases i,
{
    if i == 0 {
        Grid::<T>::lemma_identity(a.rows);
    } else {
        lemma_lu_shape(a, (i - 1) as nat);
        let (l, u) = a.lu_after((i - 1) as nat);
        u.lemma_swapped_rows(i - 1, u.rows - 1);
        let p = u.pivoted(i - 1);
        l.lemma_with_multipliers(p, i - 1);
        p.lemma_eliminated_below(i - 1);
    }
}

} // verus!
