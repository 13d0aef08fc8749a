use crate::grid::lemma_position_to_index;
use crate::grid::Grid;
use crate::traits::UnitOne;
use crate::traits::Zero;
use std::ops::Add;
use std::ops::Div;
use std::ops::Mul;
use std::ops::Neg;
use std::ops::Sub;
use vstd::prelude::*;
use vstd::std_specs::ops::AddSpec;
use vstd::std_specs::ops::DivSpec;
use vstd::std_specs::ops::MulSpec;
use vstd::std_specs::ops::NegSpec;
use vstd::std_specs::ops::SubSpec;

verus! {

impl<T: Add<Output = T>> Grid<T> {
    /// Every cell of `self` can be added to the cell of `other` at the same
    /// place, and addition returns what its specification says.
    pub open spec fn can_add(self, other: Grid<T>) -> bool {
        &&& T::obeys_add_spec()
        &&& forall|i: int|
            0 <= i < self.cells.len() ==> #[trigger] self.cells[i].add_req(other.cells[i])
    }

    /// The cellwise sum: the cell at each place is `self`'s plus `other`'s.
    pub open spec fn plus(self, other: Grid<T>) -> Grid<T> {
        Grid {
            rows: self.rows,
            cols: self.cols,
            cells: Seq::new(self.cells.len(), |i: int| self.cells[i].add_spec(other.cells[i])),
        }
    }
}

impl<T: Sub<Output = T>> Grid<T> {
    /// Every cell of `other` can be subtracted from the cell of `self` at
    /// the same place, and subtraction returns what its specification says.
    pub open spec fn can_sub(self, other: Grid<T>) -> bool {
        &&& T::obeys_sub_spec()
        &&& forall|i: int|
            0 <= i < self.cells.len() ==> #[trigger] self.cells[i].sub_req(other.cells[i])
    }

    /// The cellwise difference: the cell at each place is `self`'s minus
    /// `other`'s.
    pub open spec fn minus(self, other: Grid<T>) -> Grid<T> {
        Grid {
            rows: self.rows,
            cols: self.cols,
            cells: Seq::new(self.cells.len(), |i: int| self.cells[i].sub_spec(other.cells[i])),
        }
    }
}

impl<T: Mul<Output = T>> Grid<T> {
    /// Every cell can be multiplied by `k`, and multiplication returns what
    /// its specification says.
    pub open spec fn can_scale(self, k: T) -> bool {
        &&& T::obeys_mul_spec()
        &&& forall|i: int| 0 <= i < self.cells.len() ==> #[trigger] self.cells[i].mul_req(k)
    }

    /// Every cell multiplied by `k`, the cell on the left.
    pub open spec fn scaled(self, k: T) -> Grid<T> {
        Grid {
            rows: self.rows,
            cols: self.cols,
            cells: Seq::new(self.cells.len(), |i: int| self.cells[i].mul_spec(k)),
        }
    }
}

impl<T: Div<Output = T>> Grid<T> {
    /// Every cell can be divided by `k`, and division returns what its
    /// specification says.
    pub open spec fn can_divide(self, k: T) -> bool {
        &&& T::obeys_div_spec()
        &&& forall|i: int| 0 <= i < self.cells.len() ==> #[trigger] self.cells[i].div_req(k)
    }

    /// Every cell divided by `k`.
    pub open spec fn divided(self, k: T) -> Grid<T> {
        Grid {
            rows: self.rows,
            cols: self.cols,
            cells: Seq::new(self.cells.len(), |i: int| self.cells[i].div_spec(k)),
        }
    }
}

impl<T: Neg<Output = T>> Grid<T> {
    /// Every cell can be negated, and negation returns what its
    /// specification says.
    pub open spec fn can_negate(self) -> bool {
        &&& T::obeys_neg_spec()
        &&& forall|i: int| 0 <= i < self.cells.len() ==> #[trigger] self.cells[i].neg_req()
    }

    /// Every cell negated.
    pub open spec fn negated(self) -> Grid<T> {
        Grid {
            rows: self.rows,
            cols: self.cols,
            cells: Seq::new(self.cells.len(), |i: int| self.cells[i].neg_spec()),
        }
    }
}

impl<T: Zero + Add<Output = T> + Mul<Output = T>> Grid<T> {
    /// The sum of the first `k` terms of row `i` of `self` times column `j`
    /// of `other`, added up from zero in the order of the terms.
    pub open spec fn row_by_col(self, other: Grid<T>, i: int, j: int, k: nat) -> T
        decreases k,
    {
        if k == 0 {
            T::zero_spec()
        } else {
            self.row_by_col(other, i, j, (k - 1) as nat).add_spec(
                self.at(i, k - 1).mul_spec(other.at(k - 1, j)),
            )
        }
    }

    /// Every multiplication and every addition that the product of `self`
    /// and `other` takes is defined, and both operations return what their
    /// specifications say.
    pub open spec fn can_multiply(self, other: Grid<T>) -> bool {
        &&& T::obeys_add_spec()
        &&& T::obeys_mul_spec()
        &&& forall|i: int, j: int, k: nat|
            0 <= i < self.rows && 0 <= j < other.cols && k < self.cols ==> {
                &&& self.at(i, k as int).mul_req(other.at(k as int, j))
                &&& (#[trigger] self.row_by_col(other, i, j, k)).add_req(
                    self.at(i, k as int).mul_spec(other.at(k as int, j)),
                )
            }
    }

    /// The matrix product: the cell at `(i, j)` is row `i` of `self` times
    /// column `j` of `other`.
    pub open spec fn product(self, other: Grid<T>) -> Grid<T> {
        Grid::tabulate(
            self.rows,
            other.cols,
            |i: int, j: int| self.row_by_col(other, i, j, self.cols),
        )
    }

    /// The product holds at `(r, c)` row `r` of `self` times column `c` of `other`.
    pub proof fn lemma_product(self, other: Grid<T>)
        ensures
            self.product(other).wf(),
            self.product(other).rows == self.rows,
            self.product(other).cols == other.cols,
            forall|r: int, c: int|
                0 <= r < self.rows && 0 <= c < other.cols ==> #[trigger] self.product(other).at(r, c) == self.row_by_col(other, r, c, self.cols),
    {
        let g = self.product(other);
        assert forall|r: int, c: int| 0 <= r < self.rows && 0 <= c < other.cols implies #[trigger] g.at(
            r,
            c,
        ) == self.row_by_col(other, r, c, self.cols) by {
            lemma_position_to_index(self.rows, other.cols, r, c);
        }
    }
}

impl<T: Sub<Output = T> + Mul<Output = T>> Grid<T> {
    /// Row `j` minus `m` times row `i`, the factor on the left, in the
    /// columns from `from` up to `to`; every other cell as it was.
    pub open spec fn reduced_left(self, j: int, i: int, m: T, from: int, to: int) -> Grid<T> {
        Grid::tabulate(
            self.rows,
            self.cols,
            |r: int, c: int|
                if r == j && from <= c < to {
                    self.at(j, c).sub_spec(m.mul_spec(self.at(i, c)))
                } else {
                    self.at(r, c)
                },
        )
    }

    /// Row `j` minus row `i` times `f`, the factor on the right, in the
    /// columns below `to`; every other cell as it was.
    pub open spec fn reduced_right(self, j: int, i: int, f: T, to: int) -> Grid<T> {
        Grid::tabulate(
            self.rows,
            self.cols,
            |r: int, c: int|
                if r == j && 0 <= c < to {
                    self.at(j, c).sub_spec(self.at(i, c).mul_spec(f))
                } else {
                    self.at(r, c)
                },
        )
    }

    /// What a grid with one row reduced holds at each position.
    pub proof fn lemma_reduced_left(self, j: int, i: int, m: T, from: int, to: int)
        ensures
            self.reduced_left(j, i, m, from, to).wf(),
            self.reduced_left(j, i, m, from, to).rows == self.rows,
            self.reduced_left(j, i, m, from, to).cols == self.cols,
            forall|r: int, c: int|
                0 <= r < self.rows && 0 <= c < self.cols ==> #[trigger] self.reduced_left(j, i, m, from, to).at(r, c) == if r == j && from <= c < to {
                    self.at(j, c).sub_spec(m.mul_spec(self.at(i, c)))
                } else {
                    self.at(r, c)
                },
    {
        let g = self.reduced_left(j, i, m, from, to);
        assert forall|r: int, c: int| 0 <= r < self.rows && 0 <= c < self.cols implies #[trigger] g.at(
            r,
            c,
        ) == if r == j && from <= c < to {
                    self.at(j, c).sub_spec(m.mul_spec(self.at(i, c)))
                } else {
                    self.at(r, c)
                } by {
            lemma_position_to_index(self.rows, self.cols, r, c);
        }
    }

    /// What a grid with one row reduced holds at each position.
    pub proof fn lemma_reduced_right(self, j: int, i: int, f: T, to: int)
        ensures
            self.reduced_right(j, i, f, to).wf(),
            self.reduced_right(j, i, f, to).rows == self.rows,
            self.reduced_right(j, i, f, to).cols == self.cols,
            forall|r: int, c: int|
                0 <= r < self.rows && 0 <= c < self.cols ==> #[trigger] self.reduced_right(j, i, f, to).at(r, c) == if r == j && 0 <= c < to {
                    self.at(j, c).sub_spec(self.at(i, c).mul_spec(f))
                } else {
                    self.at(r, c)
                },
    {
        let g = self.reduced_right(j, i, f, to);
        assert forall|r: int, c: int| 0 <= r < self.rows && 0 <= c < self.cols implies #[trigger] g.at(
            r,
            c,
        ) == if r == j && 0 <= c < to {
                    self.at(j, c).sub_spec(self.at(i, c).mul_spec(f))
                } else {
                    self.at(r, c)
                } by {
            lemma_position_to_index(self.rows, self.cols, r, c);
        }
    }
}

impl<T: Div<Output = T>> Grid<T> {
    /// Row `i` divided by `p` in the columns below `to`; every other cell as
    /// it was.
    pub open spec fn row_divided(self, i: int, p: T, to: int) -> Grid<T> {
        Grid::tabulate(
            self.rows,
            self.cols,
            |r: int, c: int|
                if r == i && 0 <= c < to {
                    self.at(i, c).div_spec(p)
                } else {
                    self.at(r, c)
                },
        )
    }

    /// What a grid with one row divided holds at each position.
    pub proof fn lemma_row_divided(self, i: int, p: T, to: int)
        ensures
            self.row_divided(i, p, to).wf(),
            self.row_divided(i, p, to).rows == self.rows,
            self.row_divided(i, p, to).cols == self.cols,
            forall|r: int, c: int|
                0 <= r < self.rows && 0 <= c < self.cols ==> #[trigger] self.row_divided(i, p, to).at(r, c) == if r == i && 0 <= c < to {
                    self.at(i, c).div_spec(p)
                } else {
                    self.at(r, c)
                },
    {
        let g = self.row_divided(i, p, to);
        assert forall|r: int, c: int| 0 <= r < self.rows && 0 <= c < self.cols implies #[trigger] g.at(
            r,
            c,
        ) == if r == i && 0 <= c < to {
                    self.at(i, c).div_spec(p)
                } else {
                    self.at(r, c)
                } by {
            lemma_position_to_index(self.rows, self.cols, r, c);
        }
    }
}

impl<T: Zero + UnitOne> Grid<T> {
    /// The identity of the given size: one on the diagonal, zero elsewhere.
    pub open spec fn identity(size: nat) -> Grid<T> {
        Grid::tabulate(
            size,
            size,
            |r: int, c: int|
                if r == c {
                    T::unit_one_spec()
                } else {
                    T::zero_spec()
                },
        )
    }

    /// The identity holds one on the diagonal and zero elsewhere.
    pub proof fn lemma_identity(size: nat)
        ensures
            Grid::<T>::identity(size).wf(),
            Grid::<T>::identity(size).rows == size,
            Grid::<T>::identity(size).cols == size,
            forall|r: int, c: int|
                0 <= r < size && 0 <= c < size ==> #[trigger] Grid::<T>::identity(size).at(r, c)
                    == if r == c {
                    T::unit_one_spec()
                } else {
                    T::zero_spec()
                },
    {
        let g = Grid::<T>::identity(size);
        assert forall|r: int, c: int| 0 <= r < size && 0 <= c < size implies #[trigger] g.at(r, c)
            == if r == c {
            T::unit_one_spec()
        } else {
            T::zero_spec()
        } by {
            lemma_position_to_index(size, size, r, c);
        }
    }
}

} // verus!
