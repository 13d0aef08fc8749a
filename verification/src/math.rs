use crate::grid::lemma_position_to_index;
use crate::grid::Grid;
use crate::mat::Mat;
use crate::traits::UnitOne;
use crate::traits::Zero;
use std::ops::Add;
use std::ops::Mul;
use vstd::prelude::*;
use vstd::std_specs::ops::AddSpec;
use vstd::std_specs::ops::MulSpec;

verus! {

impl<const ROWS: usize, const COLS: usize, T: Copy + Zero + Add<Output = T> + Mul<Output = T>> Mat<
    ROWS,
    COLS,
    T,
> {
    /// The matrix product: the element at `(i, j)` of the result is row `i`
    /// of `self` times column `j` of `other`, summed from zero in the order
    /// of the terms.
    pub fn dot<const OTHER_COLS: usize>(&self, other: &Mat<COLS, OTHER_COLS, T>) -> (m: Mat<
        ROWS,
        OTHER_COLS,
        T,
    >)
        requires
            self@.can_multiply(other@),
        ensures
            m@ == self@.product(other@),
    {
        let mut out: Mat<ROWS, OTHER_COLS, T> = Mat { data: [[T::zero(); ROWS]; OTHER_COLS] };
        proof {
            self.lemma_cells();
            other.lemma_cells();
        }
        let mut j: usize = 0;
        while j < OTHER_COLS
            invariant
                j <= OTHER_COLS,
                self@.can_multiply(other@),
                self@.rows == ROWS,
                self@.cols == COLS,
                other@.rows == COLS,
                other@.cols == OTHER_COLS,
                forall|p: int, q: int|
                    0 <= p < ROWS && 0 <= q < j ==> out.data[q][p] == self@.row_by_col(
                        other@,
                        p,
                        q,
                        COLS as nat,
                    ),
            decreases OTHER_COLS - j,
        {
            let mut i: usize = 0;
            while i < ROWS
                invariant
                    j < OTHER_COLS,
                    i <= ROWS,
                    self@.can_multiply(other@),
                    self@.rows == ROWS,
                    self@.cols == COLS,
                    other@.rows == COLS,
                    other@.cols == OTHER_COLS,
                    forall|p: int, q: int|
                        0 <= p < ROWS && 0 <= q < j ==> out.data[q][p] == self@.row_by_col(
                            other@,
                            p,
                            q,
                            COLS as nat,
                        ),
                    forall|p: int|
                        0 <= p < i ==> out.data[j as int][p] == self@.row_by_col(
                            other@,
                            p,
                            j as int,
                            COLS as nat,
                        ),
                decreases ROWS - i,
            {
                let mut acc = T::zero();
                let mut k: usize = 0;
                while k < COLS
                    invariant
                        j < OTHER_COLS,
                        i < ROWS,
                        k <= COLS,
                        self@.can_multiply(other@),
                        self@.rows == ROWS,
                        self@.cols == COLS,
                        other@.rows == COLS,
                        other@.cols == OTHER_COLS,
                        acc == self@.row_by_col(other@, i as int, j as int, k as nat),
                    decreases COLS - k,
                {
                    let a = self.at(i, k);
                    let b = other.at(k, j);
                    proof {
                        let term = self@.row_by_col(other@, i as int, j as int, k as nat);
                        assert(a.mul_req(b));
                        assert(term.add_req(a.mul_spec(b)));
                    }
                    acc = acc + a * b;
                    k += 1;
                }
                out.data[j][i] = acc;
                i += 1;
            }
            j += 1;
        }
        proof {
            self@.lemma_product(other@);
            out.lemma_is(self@.product(other@));
        }
        out
    }
}

impl<const ROWS: usize, const COLS: usize, const OTHER_COLS: usize, T: Copy + Zero + Add<Output = T> + Mul<Output = T>> vstd::std_specs::ops::MulSpecImpl<Mat<COLS, OTHER_COLS, T>> for Mat<ROWS, COLS, T> {
    open spec fn obeys_mul_spec() -> bool {
        true
    }

    open spec fn mul_req(self, rhs: Mat<COLS, OTHER_COLS, T>) -> bool {
        self@.can_multiply(rhs@)
    }

    open spec fn mul_spec(self, rhs: Mat<COLS, OTHER_COLS, T>) -> Mat<ROWS, OTHER_COLS, T> {
        Mat::<ROWS, OTHER_COLS, T>::of(self@.product(rhs@))
    }
}

impl<const ROWS: usize, const COLS: usize, const OTHER_COLS: usize, T: Copy + Zero + Add<Output = T> + Mul<Output = T>> Mul<Mat<COLS, OTHER_COLS, T>> for Mat<ROWS, COLS, T> {
    type Output = Mat<ROWS, OTHER_COLS, T>;

    /// The matrix product, as [`Mat::dot`] computes it.
    fn mul(self, rhs: Mat<COLS, OTHER_COLS, T>) -> (m: Mat<ROWS, OTHER_COLS, T>)
        ensures
            m@ == self@.product(rhs@),
    {
        let m = self.dot(&rhs);
        proof {
            m.lemma_of();
        }
        m
    }
}

impl<const ROWS: usize, const COLS: usize, T: Copy> Mat<ROWS, COLS, T> {
    /// The transpose: a fresh matrix with rows and columns exchanged.
    pub fn transpose(&self) -> (m: Mat<COLS, ROWS, T>)
        requires
            ROWS >= 1,
            COLS >= 1,
        ensures
            m@ == self@.transposed(),
    {
        let mut out: Mat<COLS, ROWS, T> = Mat { data: [[self.data[0][0]; COLS]; ROWS] };
        let mut c: usize = 0;
        while c < COLS
            invariant
                c <= COLS,
                forall|p: int, q: int|
                    0 <= p < ROWS && 0 <= q < c ==> out.data[p][q] == self.data[q][p],
            decreases COLS - c,
        {
            let mut r: usize = 0;
            while r < ROWS
                invariant
                    c < COLS,
                    r <= ROWS,
                    forall|p: int, q: int|
                        0 <= p < ROWS && 0 <= q < c ==> out.data[p][q] == self.data[q][p],
                    forall|p: int| 0 <= p < r ==> out.data[p][c as int] == self.data[c as int][p],
                decreases ROWS - r,
            {
                out.data[r][c] = self.data[c][r];
                r += 1;
            }
            c += 1;
        }
        proof {
            self.lemma_cells();
            self@.lemma_transposed();
            out.lemma_is(self@.transposed());
        }
        out
    }

    /// The transpose; a shorthand for `transpose()`.
    #[allow(non_snake_case)]
    pub fn T(&self) -> (m: Mat<COLS, ROWS, T>)
        requires
            ROWS >= 1,
            COLS >= 1,
        ensures
            m@ == self@.transposed(),
    {
        self.transpose()
    }

    /// Exchanges rows `i` and `j`.
    pub fn swap_row(&mut self, i: usize, j: usize)
        requires
            i < ROWS,
            j < ROWS,
        ensures
            final(self)@ == old(self)@.swapped_rows(i as int, j as int),
    {
        let ghost before = *self;
        let mut c: usize = 0;
        while c < COLS
            invariant
                c <= COLS,
                i < ROWS,
                j < ROWS,
                forall|p: int, q: int|
                    0 <= p < ROWS && 0 <= q < COLS ==> self.data[q][p] == if q < c {
                        if p == i {
                            before.data[q][j as int]
                        } else if p == j {
                            before.data[q][i as int]
                        } else {
                            before.data[q][p]
                        }
                    } else {
                        before.data[q][p]
                    },
            decreases COLS - c,
        {
            let upper = self.data[c][i];
            let lower = self.data[c][j];
            self.data[c][i] = lower;
            self.data[c][j] = upper;
            c += 1;
        }
        proof {
            before.lemma_cells();
            before@.lemma_swapped_rows(i as int, j as int);
            self.lemma_is(before@.swapped_rows(i as int, j as int));
        }
    }

    /// Exchanges columns `i` and `j`.
    pub fn swap_col(&mut self, i: usize, j: usize)
        requires
            i < COLS,
            j < COLS,
        ensures
            final(self)@ == old(self)@.swapped_cols(i as int, j as int),
    {
        let ghost before = *self;
        let left = self.data[i];
        let right = self.data[j];
        self.data[i] = right;
        self.data[j] = left;
        proof {
            before.lemma_cells();
            before@.lemma_swapped_cols(i as int, j as int);
            self.lemma_is(before@.swapped_cols(i as int, j as int));
        }
    }
}

impl<const SIZE: usize, T: Zero> Zero for Mat<SIZE, SIZE, T> {
    open spec fn zero_spec() -> Self {
        Self::of(Grid::constant(SIZE as nat, SIZE as nat, T::zero_spec()))
    }

    /// The matrix of zeros.
    fn zero() -> (z: Self) {
        let z = Self::init(T::zero());
        proof {
            z.lemma_of();
        }
        z
    }
}

impl<const SIZE: usize, T: UnitOne + Zero> UnitOne for Mat<SIZE, SIZE, T> {
    open spec fn unit_one_spec() -> Self {
        Self::of(Grid::<T>::identity(SIZE as nat))
    }

    /// The identity matrix.
    fn unit_one() -> (m: Self) {
        let m = Self::new_identity();
        proof {
            m.lemma_of();
        }
        m
    }
}

impl<const SIZE: usize, T: UnitOne + Zero> Mat<SIZE, SIZE, T> {
    /// The identity matrix: one on the diagonal, zero elsewhere.
    pub fn new_identity() -> (m: Self)
        ensures
            m@ == Grid::<T>::identity(SIZE as nat),
    {
        let mut m = Self::init(T::zero());
        proof {
            m.lemma_cells();
            assert forall|p: int, q: int| 0 <= p < SIZE && 0 <= q < SIZE implies m.data[q][p]
                == T::zero_spec() by {
                lemma_position_to_index(SIZE as nat, SIZE as nat, p, q);
                assert(m@.at(p, q) == m.data[q][p]);
            }
        }
        let mut k: usize = 0;
        while k < SIZE
            invariant
                k <= SIZE,
                forall|p: int, q: int|
                    0 <= p < SIZE && 0 <= q < SIZE ==> m.data[q][p] == if p == q && p < k {
                        T::unit_one_spec()
                    } else {
                        T::zero_spec()
                    },
            decreases SIZE - k,
        {
            m.data[k][k] = T::unit_one();
            k += 1;
        }
        proof {
            Grid::<T>::lemma_identity(SIZE as nat);
            m.lemma_is(Grid::<T>::identity(SIZE as nat));
        }
        m
    }

    /// The identity matrix; a shorthand for `new_identity()`.
    #[allow(non_snake_case)]
    pub fn I() -> (m: Self)
        ensures
            m@ == Grid::<T>::identity(SIZE as nat),
    {
        Self::new_identity()
    }

    /// The identity matrix.
    pub fn identity() -> (m: Self)
        ensures
            m@ == Grid::<T>::identity(SIZE as nat),
    {
        Self::new_identity()
    }
}

} // verus!
