use crate::grid::lemma_position_to_index;
use crate::grid::Grid;
use crate::traits::elimination_obeys;
use crate::traits::elimination_ready;
use crate::traits::is_zero;
use crate::traits::UnitOne;
use crate::traits::Zero;
use std::ops::Div;
use std::ops::Mul;
use std::ops::Sub;
use vstd::prelude::*;
use vstd::std_specs::ops::DivSpec;
use vstd::std_specs::ops::MulSpec;
use vstd::std_specs::ops::SubSpec;

verus! {

impl<T: Zero + UnitOne + PartialEq + Sub<Output = T> + Mul<Output = T> + Div<Output = T>> Grid<T> {
    /// The grid before the elimination of column `i`: where the pivot at
    /// `(i, i)` is zero, row `i` and the last row change places, and this is
    /// the only exchange that is tried.
    pub open spec fn pivoted(self, i: int) -> Grid<T> {
        if is_zero(self.at(i, i)) {
            self.swapped_rows(i, self.rows - 1)
        } else {
            self
        }
    }

    /// The factor by which row `i` is taken from row `r`: the quotient of
    /// the cell at `(r, i)` by the pivot, or zero where the pivot is zero.
    pub open spec fn multiplier(self, i: int, r: int) -> T {
        if is_zero(self.at(i, i)) {
            T::zero_spec()
        } else {
            self.at(r, i).div_spec(self.at(i, i))
        }
    }

    /// Column `i` eliminated below the pivot: from each row `r` below row
    /// `i`, its multiplier times row `i` is taken, in the columns from `i`
    /// on.
    pub open spec fn eliminated_below(self, i: int) -> Grid<T> {
        Grid::tabulate(
            self.rows,
            self.cols,
            |r: int, c: int|
                if r > i && c >= i {
                    self.at(r, c).sub_spec(self.multiplier(i, r).mul_spec(self.at(i, c)))
                } else {
                    self.at(r, c)
                },
        )
    }

    /// This grid with the multipliers that eliminate column `i` of `u`
    /// written into column `i` below the diagonal.
    pub open spec fn with_multipliers(self, u: Grid<T>, i: int) -> Grid<T> {
        Grid::tabulate(
            self.rows,
            self.cols,
            |r: int, c: int|
                if c == i && r > i {
                    u.multiplier(i, r)
                } else {
                    self.at(r, c)
                },
        )
    }

    /// The two factors after the first `i` columns of the square grid `self`
    /// were eliminated: the lower one starts as the identity, the upper one
    /// as `self`.
    pub open spec fn lu_after(self, i: nat) -> (Grid<T>, Grid<T>)
        decreases i,
    {
        if i == 0 {
            (Grid::identity(self.rows), self)
        } else {
            let (l, u) = self.lu_after((i - 1) as nat);
            let p = u.pivoted(i - 1);
            (l.with_multipliers(p, i - 1), p.eliminated_below(i - 1))
        }
    }

    /// The lower and the upper factor of the square grid `self`.
    pub open spec fn lu(self) -> (Grid<T>, Grid<T>) {
        self.lu_after(self.rows)
    }

    /// The product of the first `k` diagonal cells of `u` and `l`, taken
    /// from one in the order `u`, `l` for each position.
    pub open spec fn diagonal_product(l: Grid<T>, u: Grid<T>, k: nat) -> T
        decreases k,
    {
        if k == 0 {
            T::unit_one_spec()
        } else {
            Grid::diagonal_product(l, u, (k - 1) as nat).mul_spec(u.at(k - 1, k - 1)).mul_spec(
                l.at(k - 1, k - 1),
            )
        }
    }

    /// The determinant of the square grid `self`, from its two factors.
    pub open spec fn det(self) -> T {
        Grid::diagonal_product(self.lu().0, self.lu().1, self.rows)
    }

    /// Rows below row `i` reduced by row `i`: from each row `r` below, row
    /// `i` times the quotient of the cell at `(r, i)` by the pivot is taken.
    pub open spec fn reduced_below(self, i: int) -> Grid<T> {
        Grid::tabulate(
            self.rows,
            self.cols,
            |r: int, c: int|
                if r > i {
                    self.at(r, c).sub_spec(
                        self.at(i, c).mul_spec(self.at(r, i).div_spec(self.at(i, i))),
                    )
                } else {
                    self.at(r, c)
                },
        )
    }

    /// The grid after forward elimination on the first `i` diagonal
    /// positions, where a position with a zero pivot is passed over.
    pub open spec fn echelon_after(self, i: nat) -> Grid<T>
        decreases i,
    {
        if i == 0 {
            self
        } else {
            let w = self.echelon_after((i - 1) as nat);
            if is_zero(w.at(i - 1, i - 1)) {
                w
            } else {
                w.reduced_below(i - 1)
            }
        }
    }

    /// Row `r` holds a cell that does not compare equal to zero.
    pub open spec fn row_is_nonzero(self, r: int) -> bool {
        exists|c: int| 0 <= c < self.cols && !is_zero(#[trigger] self.at(r, c))
    }

    /// The number of rows among the first `r` that hold a cell that does
    /// not compare equal to zero.
    pub open spec fn nonzero_rows(self, r: nat) -> nat
        decreases r,
    {
        if r == 0 {
            0
        } else {
            self.nonzero_rows((r - 1) as nat) + if self.row_is_nonzero(r - 1) {
                1nat
            } else {
                0nat
            }
        }
    }

    /// The rank as forward elimination finds it: the number of rows that
    /// are not all zero afterwards. Zero is told by `==` alone.
    pub open spec fn rank(self) -> nat {
        let steps = if self.rows <= self.cols {
            self.rows
        } else {
            self.cols
        };
        self.echelon_after(steps).nonzero_rows(self.rows)
    }

    /// The operations that eliminate column `i` in row `r` at column `c`
    /// are defined: the division that gives the multiplier, unless the pivot
    /// is zero, its product with the cell of row `i` and the difference.
    pub open spec fn can_eliminate_cell(self, i: int, r: int, c: int) -> bool {
        &&& !is_zero(self.at(i, i)) ==> self.at(r, i).div_req(self.at(i, i))
        &&& self.multiplier(i, r).mul_req(self.at(i, c))
        &&& self.at(r, c).sub_req(self.multiplier(i, r).mul_spec(self.at(i, c)))
    }

    /// Every operation that eliminates column `i` below the pivot is
    /// defined.
    pub open spec fn can_eliminate_below(self, i: int) -> bool {
        forall|r: int, c: int|
            i < r < self.rows && i <= c < self.cols ==> #[trigger] self.can_eliminate_cell(i, r, c)
    }

    /// Every operation that the factoring of the square grid `self` takes
    /// is defined, and the operators return what their specifications say.
    pub open spec fn can_factor(self) -> bool {
        &&& elimination_obeys::<T>()
        &&& forall|k: nat|
            k < self.rows ==> (#[trigger] self.lu_after(k)).1.pivoted(k as int).can_eliminate_below(
                k as int,
            )
    }

    /// The products that give the first `k` factors of the determinant are
    /// defined.
    pub open spec fn can_multiply_diagonals(l: Grid<T>, u: Grid<T>, k: nat) -> bool {
        forall|j: nat|
            j < k ==> {
                &&& (#[trigger] Grid::diagonal_product(l, u, j)).mul_req(u.at(j as int, j as int))
                &&& Grid::diagonal_product(l, u, j).mul_spec(u.at(j as int, j as int)).mul_req(
                    l.at(j as int, j as int),
                )
            }
    }

    /// Every operation that the determinant of the square grid `self` takes
    /// is defined, and the operators return what their specifications say.
    pub open spec fn can_det(self) -> bool {
        &&& self.can_factor()
        &&& Grid::can_multiply_diagonals(self.lu().0, self.lu().1, self.rows)
    }

    /// The operations that reduce row `r` by row `i` at column `c` are
    /// defined: the division by the pivot, the product with the cell of row
    /// `i` and the difference.
    pub open spec fn can_reduce_cell(self, i: int, r: int, c: int) -> bool {
        &&& self.at(r, i).div_req(self.at(i, i))
        &&& self.at(i, c).mul_req(self.at(r, i).div_spec(self.at(i, i)))
        &&& self.at(r, c).sub_req(self.at(i, c).mul_spec(self.at(r, i).div_spec(self.at(i, i))))
    }

    /// Every operation that reduces the rows below row `i` is defined.
    pub open spec fn can_reduce_below(self, i: int) -> bool {
        forall|r: int, c: int|
            i < r < self.rows && 0 <= c < self.cols ==> #[trigger] self.can_reduce_cell(i, r, c)
    }

    /// Every operation that forward elimination takes on the grid `self` is
    /// defined, and the operators return what their specifications say.
    pub open spec fn can_rank(self) -> bool {
        &&& elimination_obeys::<T>()
        &&& forall|k: nat|
            k < self.rows && k < self.cols && !is_zero(
                (#[trigger] self.echelon_after(k)).at(k as int, k as int),
            ) ==> self.echelon_after(k).can_reduce_below(k as int)
    }

    /// Where elimination never fails on the scalars, every grid can be
    /// factored, has a rank and, if the products of its diagonals are
    /// defined, a determinant.
    pub proof fn lemma_ready(self)
        requires
            elimination_ready::<T>(),
        ensures
            self.can_factor(),
            self.can_rank(),
            self.can_det(),
    {
    }

    /// What column `i` eliminated below the pivot holds at each position.
    pub proof fn lemma_eliminated_below(self, i: int)
        ensures
            self.eliminated_below(i).wf(),
            self.eliminated_below(i).rows == self.rows,
            self.eliminated_below(i).cols == self.cols,
            forall|r: int, c: int|
                0 <= r < self.rows && 0 <= c < self.cols ==> #[trigger] self.eliminated_below(i).at(
                    r,
                    c,
                ) == if r > i && c >= i {
                    self.at(r, c).sub_spec(self.multiplier(i, r).mul_spec(self.at(i, c)))
                } else {
                    self.at(r, c)
                },
    {
        let g = self.eliminated_below(i);
        assert forall|r: int, c: int| 0 <= r < self.rows && 0 <= c < self.cols implies #[trigger] g.at(
            r,
            c,
        ) == if r > i && c >= i {
            self.at(r, c).sub_spec(self.multiplier(i, r).mul_spec(self.at(i, c)))
        } else {
            self.at(r, c)
        } by {
            lemma_position_to_index(self.rows, self.cols, r, c);
        }
    }

    /// What a grid with the multipliers of column `i` written in holds at
    /// each position.
    pub proof fn lemma_with_multipliers(self, u: Grid<T>, i: int)
        ensures
            self.with_multipliers(u, i).wf(),
            self.with_multipliers(u, i).rows == self.rows,
            self.with_multipliers(u, i).cols == self.cols,
            forall|r: int, c: int|
                0 <= r < self.rows && 0 <= c < self.cols ==> #[trigger] self.with_multipliers(
                    u,
                    i,
                ).at(r, c) == if c == i && r > i {
                    u.multiplier(i, r)
                } else {
                    self.at(r, c)
                },
    {
        let g = self.with_multipliers(u, i);
        assert forall|r: int, c: int| 0 <= r < self.rows && 0 <= c < self.cols implies #[trigger] g.at(
            r,
            c,
        ) == if c == i && r > i {
            u.multiplier(i, r)
        } else {
            self.at(r, c)
        } by {
            lemma_position_to_index(self.rows, self.cols, r, c);
        }
    }

    /// What a grid with the rows below row `i` reduced holds at each
    /// position.
    pub proof fn lemma_reduced_below(self, i: int)
        ensures
            self.reduced_below(i).wf(),
            self.reduced_below(i).rows == self.rows,
            self.reduced_below(i).cols == self.cols,
            forall|r: int, c: int|
                0 <= r < self.rows && 0 <= c < self.cols ==> #[trigger] self.reduced_below(i).at(
                    r,
                    c,
                ) == if r > i {
                    self.at(r, c).sub_spec(
                        self.at(i, c).mul_spec(self.at(r, i).div_spec(self.at(i, i))),
                    )
                } else {
                    self.at(r, c)
                },
    {
        let g = self.reduced_below(i);
        assert forall|r: int, c: int| 0 <= r < self.rows && 0 <= c < self.cols implies #[trigger] g.at(
            r,
            c,
        ) == if r > i {
            self.at(r, c).sub_spec(self.at(i, c).mul_spec(self.at(r, i).div_spec(self.at(i, i))))
        } else {
            self.at(r, c)
        } by {
            lemma_position_to_index(self.rows, self.cols, r, c);
        }
    }
}

} // verus!
