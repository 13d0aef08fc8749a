use crate::grid::lemma_index_to_position;
use crate::grid::lemma_position_to_index;
use crate::grid::Grid;
use crate::mat::Mat;
use std::ops::Add;
use std::ops::AddAssign;
use std::ops::Div;
use std::ops::Index;
use std::ops::DivAssign;
use std::ops::Mul;
use std::ops::MulAssign;
use std::ops::Neg;
use std::ops::Sub;
use std::ops::SubAssign;
use vstd::prelude::*;
use vstd::std_specs::ops::AddSpec;
use vstd::std_specs::ops::DivSpec;
use vstd::std_specs::ops::MulSpec;
use vstd::std_specs::ops::NegSpec;
use vstd::std_specs::ops::SubSpec;

verus! {

impl<const ROWS: usize, const COLS: usize, T> Mat<ROWS, COLS, T> {
    /// The matrix whose value is `g`.
    pub open spec fn of(g: Grid<T>) -> Self {
        choose|m: Self| m@ == g
    }

    /// Two matrices with one value are the same matrix.
    pub proof fn lemma_same(&self, other: &Self)
        requires
            self@ == other@,
        ensures
            *self == *other,
    {
        self.lemma_cells();
        other.lemma_cells();
        assert forall|c: int| 0 <= c < COLS implies self.data[c] == other.data[c] by {
            assert forall|r: int| 0 <= r < ROWS implies self.data[c][r] == other.data[c][r] by {
                assert(self@.at(r, c) == self.data[c][r]);
                assert(other@.at(r, c) == other.data[c][r]);
            }
            assert(self.data[c] =~= other.data[c]);
        }
        assert(self.data =~= other.data);
    }

    /// The matrix chosen for the value of a matrix is that matrix.
    pub proof fn lemma_of(&self)
        ensures
            Self::of(self@) == *self,
    {
        let m = Self::of(self@);
        assert(m@ == self@);
        m.lemma_same(self);
    }
}

impl<const ROWS: usize, const COLS: usize, T: Copy + Add<Output = T>> vstd::std_specs::ops::AddSpecImpl for Mat<ROWS, COLS, T> {
    open spec fn obeys_add_spec() -> bool {
        true
    }

    open spec fn add_req(self, rhs: Self) -> bool {
        self@.can_add(rhs@)
    }

    open spec fn add_spec(self, rhs: Self) -> Self {
        Self::of(self@.plus(rhs@))
    }
}

impl<const ROWS: usize, const COLS: usize, T: Copy + Add<Output = T>> Add for Mat<ROWS, COLS, T> {
    type Output = Self;

    /// The sum of two matrices, cell by cell.
    fn add(self, rhs: Self) -> (m: Self)
        ensures
            m@ == self@.plus(rhs@),
    {
        let mut out = self;
        let mut c: usize = 0;
        while c < COLS
            invariant
                c <= COLS,
                self@.can_add(rhs@),
                forall|p: int, q: int|
                    0 <= p < ROWS && 0 <= q < c ==> out.data[q][p] == self.data[q][p].add_spec(
                        rhs.data[q][p],
                    ),
            decreases COLS - c,
        {
            let mut r: usize = 0;
            while r < ROWS
                invariant
                    c < COLS,
                    r <= ROWS,
                    self@.can_add(rhs@),
                    forall|p: int, q: int|
                        0 <= p < ROWS && 0 <= q < c ==> out.data[q][p] == self.data[q][p].add_spec(
                        rhs.data[q][p],
                    ),
                    forall|p: int|
                        0 <= p < r ==> out.data[c as int][p] == self.data[c as int][p].add_spec(
                        rhs.data[c as int][p],
                    ),
                decreases ROWS - r,
            {
                proof {
                    self.lemma_cells();
                    rhs.lemma_cells();
                    lemma_position_to_index(ROWS as nat, COLS as nat, r as int, c as int);
                    assert(self@.cells[c * ROWS + r].add_req(rhs@.cells[c * ROWS + r]));
                }
                out.data[c][r] = self.data[c][r] + rhs.data[c][r];
                r += 1;
            }
            c += 1;
        }
        proof {
            let goal = self@.plus(rhs@);
            assert(out@.cells =~= goal.cells) by {
                assert forall|i: int| 0 <= i < ROWS * COLS implies out@.cells[i] == goal.cells[i] by {
                    lemma_index_to_position(ROWS as nat, COLS as nat, i);
                }
            }
            out.lemma_of();
        }
        out
    }
}

impl<const ROWS: usize, const COLS: usize, T: Copy + Add<Output = T>> AddAssign for Mat<ROWS, COLS, T> {
    /// Adds `rhs` to this matrix, cell by cell.
    fn add_assign(&mut self, rhs: Self)
        requires
            old(self)@.can_add(rhs@),
        ensures
            final(self)@ == old(self)@.plus(rhs@),
    {
        *self = *self + rhs;
    }
}

impl<const ROWS: usize, const COLS: usize, T: Copy + Sub<Output = T>> vstd::std_specs::ops::SubSpecImpl for Mat<ROWS, COLS, T> {
    open spec fn obeys_sub_spec() -> bool {
        true
    }

    open spec fn sub_req(self, rhs: Self) -> bool {
        self@.can_sub(rhs@)
    }

    open spec fn sub_spec(self, rhs: Self) -> Self {
        Self::of(self@.minus(rhs@))
    }
}

impl<const ROWS: usize, const COLS: usize, T: Copy + Sub<Output = T>> Sub for Mat<ROWS, COLS, T> {
    type Output = Self;

    /// The difference of two matrices, cell by cell.
    fn sub(self, rhs: Self) -> (m: Self)
        ensures
            m@ == self@.minus(rhs@),
    {
        let mut out = self;
        let mut c: usize = 0;
        while c < COLS
            invariant
                c <= COLS,
                self@.can_sub(rhs@),
                forall|p: int, q: int|
                    0 <= p < ROWS && 0 <= q < c ==> out.data[q][p] == self.data[q][p].sub_spec(
                        rhs.data[q][p],
                    ),
            decreases COLS - c,
        {
            let mut r: usize = 0;
            while r < ROWS
                invariant
                    c < COLS,
                    r <= ROWS,
                    self@.can_sub(rhs@),
                    forall|p: int, q: int|
                        0 <= p < ROWS && 0 <= q < c ==> out.data[q][p] == self.data[q][p].sub_spec(
                        rhs.data[q][p],
                    ),
                    forall|p: int|
                        0 <= p < r ==> out.data[c as int][p] == self.data[c as int][p].sub_spec(
                        rhs.data[c as int][p],
                    ),
                decreases ROWS - r,
            {
                proof {
                    self.lemma_cells();
                    rhs.lemma_cells();
                    lemma_position_to_index(ROWS as nat, COLS as nat, r as int, c as int);
                    assert(self@.cells[c * ROWS + r].sub_req(rhs@.cells[c * ROWS + r]));
                }
                out.data[c][r] = self.data[c][r] - rhs.data[c][r];
                r += 1;
            }
            c += 1;
        }
        proof {
            let goal = self@.minus(rhs@);
            assert(out@.cells =~= goal.cells) by {
                assert forall|i: int| 0 <= i < ROWS * COLS implies out@.cells[i] == goal.cells[i] by {
                    lemma_index_to_position(ROWS as nat, COLS as nat, i);
                }
            }
            out.lemma_of();
        }
        out
    }
}

impl<const ROWS: usize, const COLS: usize, T: Copy + Sub<Output = T>> SubAssign for Mat<ROWS, COLS, T> {
    /// Subtracts `rhs` from this matrix, cell by cell.
    fn sub_assign(&mut self, rhs: Self)
        requires
            old(self)@.can_sub(rhs@),
        ensures
            final(self)@ == old(self)@.minus(rhs@),
    {
        *self = *self - rhs;
    }
}

impl<const ROWS: usize, const COLS: usize, T: Copy + Mul<Output = T>> vstd::std_specs::ops::MulSpecImpl<T> for Mat<ROWS, COLS, T> {
    open spec fn obeys_mul_spec() -> bool {
        true
    }

    open spec fn mul_req(self, rhs: T) -> bool {
        self@.can_scale(rhs)
    }

    open spec fn mul_spec(self, rhs: T) -> Self {
        Self::of(self@.scaled(rhs))
    }
}

impl<const ROWS: usize, const COLS: usize, T: Copy + Mul<Output = T>> Mul<T> for Mat<ROWS, COLS, T> {
    type Output = Self;

    /// Every element multiplied by the scalar `rhs`.
    fn mul(self, rhs: T) -> (m: Self)
        ensures
            m@ == self@.scaled(rhs),
    {
        let mut out = self;
        let mut c: usize = 0;
        while c < COLS
            invariant
                c <= COLS,
                self@.can_scale(rhs),
                forall|p: int, q: int|
                    0 <= p < ROWS && 0 <= q < c ==> out.data[q][p] == self.data[q][p].mul_spec(rhs),
            decreases COLS - c,
        {
            let mut r: usize = 0;
            while r < ROWS
                invariant
                    c < COLS,
                    r <= ROWS,
                    self@.can_scale(rhs),
                    forall|p: int, q: int|
                        0 <= p < ROWS && 0 <= q < c ==> out.data[q][p] == self.data[q][p].mul_spec(rhs),
                    forall|p: int|
                        0 <= p < r ==> out.data[c as int][p] == self.data[c as int][p].mul_spec(rhs),
                decreases ROWS - r,
            {
                proof {
                    self.lemma_cells();
                    lemma_position_to_index(ROWS as nat, COLS as nat, r as int, c as int);
                    assert(self@.cells[c * ROWS + r].mul_req(rhs));
                }
                out.data[c][r] = self.data[c][r] * rhs;
                r += 1;
            }
            c += 1;
        }
        proof {
            let goal = self@.scaled(rhs);
            assert(out@.cells =~= goal.cells) by {
                assert forall|i: int| 0 <= i < ROWS * COLS implies out@.cells[i] == goal.cells[i] by {
                    lemma_index_to_position(ROWS as nat, COLS as nat, i);
                }
            }
            out.lemma_of();
        }
        out
    }
}

impl<const ROWS: usize, const COLS: usize, T: Copy + Mul<Output = T>> MulAssign<T> for Mat<ROWS, COLS, T> {
    /// Multiplies every element by the scalar `rhs`.
    fn mul_assign(&mut self, rhs: T)
        requires
            old(self)@.can_scale(rhs),
        ensures
            final(self)@ == old(self)@.scaled(rhs),
    {
        *self = *self * rhs;
    }
}

impl<const ROWS: usize, const COLS: usize, T: Copy + Div<Output = T>> vstd::std_specs::ops::DivSpecImpl<T> for Mat<ROWS, COLS, T> {
    open spec fn obeys_div_spec() -> bool {
        true
    }

    open spec fn div_req(self, rhs: T) -> bool {
        self@.can_divide(rhs)
    }

    open spec fn div_spec(self, rhs: T) -> Self {
        Self::of(self@.divided(rhs))
    }
}

impl<const ROWS: usize, const COLS: usize, T: Copy + Div<Output = T>> Div<T> for Mat<ROWS, COLS, T> {
    type Output = Self;

    /// Every element divided by the scalar `rhs`.
    fn div(self, rhs: T) -> (m: Self)
        ensures
            m@ == self@.divided(rhs),
    {
        let mut out = self;
        let mut c: usize = 0;
        while c < COLS
            invariant
                c <= COLS,
                self@.can_divide(rhs),
                forall|p: int, q: int|
                    0 <= p < ROWS && 0 <= q < c ==> out.data[q][p] == self.data[q][p].div_spec(rhs),
            decreases COLS - c,
        {
            let mut r: usize = 0;
            while r < ROWS
                invariant
                    c < COLS,
                    r <= ROWS,
                    self@.can_divide(rhs),
                    forall|p: int, q: int|
                        0 <= p < ROWS && 0 <= q < c ==> out.data[q][p] == self.data[q][p].div_spec(rhs),
                    forall|p: int|
                        0 <= p < r ==> out.data[c as int][p] == self.data[c as int][p].div_spec(rhs),
                decreases ROWS - r,
            {
                proof {
                    self.lemma_cells();
                    lemma_position_to_index(ROWS as nat, COLS as nat, r as int, c as int);
                    assert(self@.cells[c * ROWS + r].div_req(rhs));
                }
                out.data[c][r] = self.data[c][r] / rhs;
                r += 1;
            }
            c += 1;
        }
        proof {
            let goal = self@.divided(rhs);
            assert(out@.cells =~= goal.cells) by {
                assert forall|i: int| 0 <= i < ROWS * COLS implies out@.cells[i] == goal.cells[i] by {
                    lemma_index_to_position(ROWS as nat, COLS as nat, i);
                }
            }
            out.lemma_of();
        }
        out
    }
}

impl<const ROWS: usize, const COLS: usize, T: Copy + Div<Output = T>> DivAssign<T> for Mat<ROWS, COLS, T> {
    /// Divides every element by the scalar `rhs`.
    fn div_assign(&mut self, rhs: T)
        requires
            old(self)@.can_divide(rhs),
        ensures
            final(self)@ == old(self)@.divided(rhs),
    {
        *self = *self / rhs;
    }
}

impl<const ROWS: usize, const COLS: usize, T: Copy + Neg<Output = T>> vstd::std_specs::ops::NegSpecImpl for Mat<ROWS, COLS, T> {
    open spec fn obeys_neg_spec() -> bool {
        true
    }

    open spec fn neg_req(self) -> bool {
        self@.can_negate()
    }

    open spec fn neg_spec(self) -> Self {
        Self::of(self@.negated())
    }
}

impl<const ROWS: usize, const COLS: usize, T: Copy + Neg<Output = T>> Neg for Mat<ROWS, COLS, T> {
    type Output = Self;

    /// Every element negated.
    fn neg(self) -> (m: Self)
        ensures
            m@ == self@.negated(),
    {
        let mut out = self;
        let mut c: usize = 0;
        while c < COLS
            invariant
                c <= COLS,
                self@.can_negate(),
                forall|p: int, q: int|
                    0 <= p < ROWS && 0 <= q < c ==> out.data[q][p] == self.data[q][p].neg_spec(),
            decreases COLS - c,
        {
            let mut r: usize = 0;
            while r < ROWS
                invariant
                    c < COLS,
                    r <= ROWS,
                    self@.can_negate(),
                    forall|p: int, q: int|
                        0 <= p < ROWS && 0 <= q < c ==> out.data[q][p] == self.data[q][p].neg_spec(),
                    forall|p: int|
                        0 <= p < r ==> out.data[c as int][p] == self.data[c as int][p].neg_spec(),
                decreases ROWS - r,
            {
                proof {
                    self.lemma_cells();
                    lemma_position_to_index(ROWS as nat, COLS as nat, r as int, c as int);
                    assert(self@.cells[c * ROWS + r].neg_req());
                }
                out.data[c][r] = self.data[c][r].neg();
                r += 1;
            }
            c += 1;
        }
        proof {
            let goal = self@.negated();
            assert(out@.cells =~= goal.cells) by {
                assert forall|i: int| 0 <= i < ROWS * COLS implies out@.cells[i] == goal.cells[i] by {
                    lemma_index_to_position(ROWS as nat, COLS as nat, i);
                }
            }
            out.lemma_of();
        }
        out
    }
}

impl<const ROWS: usize, const COLS: usize, T> vstd::std_specs::core::IndexSpecImpl<(usize, usize)> for Mat<ROWS, COLS, T> {
    open spec fn index_req(&self, index: &(usize, usize)) -> bool {
        index.0 < ROWS && index.1 < COLS
    }
}

impl<const ROWS: usize, const COLS: usize, T> Index<(usize, usize)> for Mat<ROWS, COLS, T> {
    type Output = T;

    /// The element at `(row, col)`, which must lie inside the matrix.
    fn index(&self, index: (usize, usize)) -> (e: &T)
        ensures
            *e == self@.at(index.0 as int, index.1 as int),
    {
        proof {
            self.lemma_cells();
        }
        &self.data[index.1][index.0]
    }
}

impl<const SIZE: usize, T> vstd::std_specs::core::IndexSpecImpl<usize> for Mat<SIZE, 1, T> {
    open spec fn index_req(&self, index: &usize) -> bool {
        *index < SIZE
    }
}

impl<const SIZE: usize, T> Index<usize> for Mat<SIZE, 1, T> {
    type Output = T;

    /// The component at place `index` of a column vector, counted from the
    /// top.
    fn index(&self, index: usize) -> (e: &T)
        ensures
            *e == self@.at(index as int, 0),
    {
        proof {
            self.lemma_cells();
        }
        &self.data[0][index]
    }
}

} // verus!
