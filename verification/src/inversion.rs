use crate::grid::lemma_position_to_index;
use crate::grid::Grid;
use crate::traits::Float;
use crate::traits::UnitOne;
use vstd::prelude::*;
use vstd::std_specs::cmp::PartialOrdIs;
use vstd::std_specs::ops::AddSpec;
use vstd::std_specs::ops::DivSpec;
use vstd::std_specs::ops::MulSpec;
use vstd::std_specs::ops::SubSpec;

verus! {

/// `base` multiplied `k` times onto one.
pub open spec fn power<T: Float>(base: T, k: nat) -> T
    decreases k,
{
    if k == 0 {
        T::unit_one_spec()
    } else {
        power(base, (k - 1) as nat).mul_spec(base)
    }
}

/// Ten, as two times five, each summed up from one.
pub open spec fn ten<T: Float>() -> T {
    let one = T::unit_one_spec();
    let two = one.add_spec(one);
    two.mul_spec(two.add_spec(two).add_spec(one))
}

/// The absolute tolerance below which a pivot counts as zero: one divided
/// by the tenth power of ten.
pub open spec fn tolerance<T: Float>() -> T {
    T::unit_one_spec().div_spec(power(ten::<T>(), 10))
}

/// The absolute value of `x` is at most the tolerance.
pub open spec fn negligible<T: Float>(x: T) -> bool {
    x.abs_spec().is_le(&tolerance::<T>())
}

impl<T: Float> Grid<T> {
    /// The working grid after the pivot step on row `i`: row `i` divided by
    /// the pivot, and from every other row its cell in column `i` times the
    /// divided row taken.
    pub open spec fn pivot_step(self, i: int) -> Grid<T> {
        Grid::tabulate(
            self.rows,
            self.cols,
            |r: int, c: int|
                if r == i {
                    self.at(i, c).div_spec(self.at(i, i))
                } else {
                    self.at(r, c).sub_spec(
                        self.at(i, c).div_spec(self.at(i, i)).mul_spec(self.at(r, i)),
                    )
                },
        )
    }

    /// This grid after it went through the pivot step on row `i` of the
    /// working grid `w`: the same row operations, with the pivot and the
    /// factors read from `w`.
    pub open spec fn carried_step(self, w: Grid<T>, i: int) -> Grid<T> {
        Grid::tabulate(
            self.rows,
            self.cols,
            |r: int, c: int|
                if r == i {
                    self.at(i, c).div_spec(w.at(i, i))
                } else {
                    self.at(r, c).sub_spec(self.at(i, c).div_spec(w.at(i, i)).mul_spec(w.at(r, i)))
                },
        )
    }

    /// What elimination from pivot `i` on makes of the working grid `self`
    /// and the grid `e` that is carried along: nothing as soon as a pivot is
    /// negligible, else `e` after the last pivot step.
    pub open spec fn inverse_from(self, e: Grid<T>, i: nat) -> Option<Grid<T>>
        decreases self.rows - i,
    {
        if i >= self.rows {
            Some(e)
        } else if negligible(self.at(i as int, i as int)) {
            None
        } else {
            self.pivot_step(i as int).inverse_from(e.carried_step(self, i as int), i + 1)
        }
    }

    /// The inverse of the square grid `self` as elimination without
    /// exchange of rows finds it, or nothing where it meets a negligible
    /// pivot.
    pub open spec fn inverse(self) -> Option<Grid<T>> {
        self.inverse_from(Grid::identity(self.rows), 0)
    }

    /// What the working grid holds at each position after a pivot step.
    pub proof fn lemma_pivot_step(self, i: int)
        ensures
            self.pivot_step(i).wf(),
            self.pivot_step(i).rows == self.rows,
            self.pivot_step(i).cols == self.cols,
            forall|r: int, c: int|
                0 <= r < self.rows && 0 <= c < self.cols ==> #[trigger] self.pivot_step(i).at(r, c)
                    == if r == i {
                    self.at(i, c).div_spec(self.at(i, i))
                } else {
                    self.at(r, c).sub_spec(
                        self.at(i, c).div_spec(self.at(i, i)).mul_spec(self.at(r, i)),
                    )
                },
    {
        let g = self.pivot_step(i);
        assert forall|r: int, c: int| 0 <= r < self.rows && 0 <= c < self.cols implies #[trigger] g.at(
            r,
            c,
        ) == if r == i {
            self.at(i, c).div_spec(self.at(i, i))
        } else {
            self.at(r, c).sub_spec(self.at(i, c).div_spec(self.at(i, i)).mul_spec(self.at(r, i)))
        } by {
            lemma_position_to_index(self.rows, self.cols, r, c);
        }
    }

    /// What the grid that is carried along holds at each position after a
    /// pivot step.
    pub proof fn lemma_carried_step(self, w: Grid<T>, i: int)
        ensures
            self.carried_step(w, i).wf(),
            self.carried_step(w, i).rows == self.rows,
            self.carried_step(w, i).cols == self.cols,
            forall|r: int, c: int|
                0 <= r < self.rows && 0 <= c < self.cols ==> #[trigger] self.carried_step(w, i).at(
                    r,
                    c,
                ) == if r == i {
                    self.at(i, c).div_spec(w.at(i, i))
                } else {
                    self.at(r, c).sub_spec(self.at(i, c).div_spec(w.at(i, i)).mul_spec(w.at(r, i)))
                },
    {
        let g = self.carried_step(w, i);
        assert forall|r: int, c: int| 0 <= r < self.rows && 0 <= c < self.cols implies #[trigger] g.at(
            r,
            c,
        ) == if r == i {
            self.at(i, c).div_spec(w.at(i, i))
        } else {
            self.at(r, c).sub_spec(self.at(i, c).div_spec(w.at(i, i)).mul_spec(w.at(r, i)))
        } by {
            lemma_position_to_index(self.rows, self.cols, r, c);
        }
    }
}

} // verus!
