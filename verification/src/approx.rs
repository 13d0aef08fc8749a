use crate::dynamic::Matrix;
use crate::grid::Grid;
use crate::grid::lemma_index_to_position;
use crate::grid::lemma_position_to_index;
use crate::mat::Mat;
use crate::traits::order_decided;
use std::ops::Neg;
use std::ops::Sub;
use vstd::prelude::*;
use vstd::std_specs::cmp::PartialOrdIs;
use vstd::std_specs::ops::NegSpec;
use vstd::std_specs::ops::SubSpec;

verus! {

/// `a` and `b` differ by at most `eps`: their difference is neither below
/// the negative of `eps` nor above `eps`.
pub open spec fn close<T: PartialOrd + Neg<Output = T> + Sub<Output = T>>(a: T, b: T, eps: T) -> bool {
    let d = a.sub_spec(b);
    !eps.neg_spec().is_gt(&d) && !d.is_gt(&eps)
}

impl<T: PartialOrd + Neg<Output = T> + Sub<Output = T>> Grid<T> {
    /// Both grids have one shape and differ by at most `eps` in every cell.
    pub open spec fn within(self, other: Grid<T>, eps: T) -> bool {
        &&& self.same_shape(other)
        &&& forall|i: int| 0 <= i < self.cells.len() ==> close(#[trigger] self.cells[i], other.cells[i], eps)
    }

    /// The tolerance can be negated, the order decides comparisons, and
    /// every difference of two cells at one place is defined.
    pub open spec fn can_compare(self, other: Grid<T>, eps: T) -> bool {
        &&& order_decided::<T>()
        &&& T::obeys_neg_spec()
        &&& eps.neg_req()
        &&& self.can_sub(other)
    }
}

impl<T: Copy + PartialOrd + Neg<Output = T> + Sub<Output = T>> Matrix<T> {
    /// Whether both matrices have one shape and differ by at most `epsilon`
    /// in every element.
    pub fn eq_with_epsilon(&self, other: &Self, epsilon: T) -> (b: bool)
        requires
            self.wf(),
            other.wf(),
            self@.same_shape(other@) ==> self@.can_compare(other@, epsilon),
        ensures
            b == self@.within(other@, epsilon),
    {
        if self.rows != other.rows || self.cols != other.cols {
            return false;
        }
        let low = epsilon.neg();
        let n = self.data.len();
        let mut i: usize = 0;
        while i < n
            invariant
                n == self@.cells.len(),
                n == other@.cells.len(),
                self@.same_shape(other@),
                self@.can_compare(other@, epsilon),
                low == epsilon.neg_spec(),
                i <= n,
                forall|k: int| 0 <= k < i ==> close(#[trigger] self@.cells[k], other@.cells[k], epsilon),
            decreases n - i,
        {
            assert(self@.cells[i as int].sub_req(other@.cells[i as int]));
            let diff = self.data[i] - other.data[i];
            if low > diff || diff > epsilon {
                assert(!close(self@.cells[i as int], other@.cells[i as int], epsilon));
                return false;
            }
            i += 1;
        }
        true
    }
}

impl<const ROWS: usize, const COLS: usize, T: Copy + PartialOrd + Neg<Output = T> + Sub<Output = T>> Mat<ROWS, COLS, T> {
    /// Whether both matrices differ by at most `epsilon` in every element.
    pub fn eq_with_epsilon(&self, other: &Self, epsilon: T) -> (b: bool)
        requires
            self@.can_compare(other@, epsilon),
        ensures
            b == self@.within(other@, epsilon),
    {
        proof {
            self.lemma_cells();
            other.lemma_cells();
        }
        let low = epsilon.neg();
        let mut c: usize = 0;
        while c < COLS
            invariant
                c <= COLS,
                self@.can_compare(other@, epsilon),
                low == epsilon.neg_spec(),
                forall|p: int, q: int|
                    0 <= p < ROWS && 0 <= q < c ==> close(
                        #[trigger] self.data[q][p],
                        other.data[q][p],
                        epsilon,
                    ),
            decreases COLS - c,
        {
            let mut r: usize = 0;
            while r < ROWS
                invariant
                    c < COLS,
                    r <= ROWS,
                    self@.can_compare(other@, epsilon),
                    low == epsilon.neg_spec(),
                    forall|p: int, q: int|
                        0 <= p < ROWS && 0 <= q < c ==> close(
                            #[trigger] self.data[q][p],
                            other.data[q][p],
                            epsilon,
                        ),
                    forall|p: int|
                        0 <= p < r ==> close(
                            #[trigger] self.data[c as int][p],
                            other.data[c as int][p],
                            epsilon,
                        ),
                decreases ROWS - r,
            {
                proof {
                    self.lemma_cells();
                    other.lemma_cells();
                    lemma_position_to_index(ROWS as nat, COLS as nat, r as int, c as int);
                    assert(self@.cells[c * ROWS + r].sub_req(other@.cells[c * ROWS + r]));
                }
                let diff = self.data[c][r] - other.data[c][r];
                if low > diff || diff > epsilon {
                    assert(!close(self@.cells[c * ROWS + r], other@.cells[c * ROWS + r], epsilon));
                    return false;
                }
                r += 1;
            }
            c += 1;
        }
        proof {
            assert forall|i: int| 0 <= i < self@.cells.len() implies close(
                #[trigger] self@.cells[i],
                other@.cells[i],
                epsilon,
            ) by {
                lemma_index_to_position(ROWS as nat, COLS as nat, i);
            }
        }
        true
    }
}

} // verus!
