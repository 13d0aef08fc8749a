use crate::dynamic::solve::lemma_lu_shape;
use crate::dynamic::Matrix;
use crate::grid::Grid;
use crate::mat::Mat;
use crate::traits::Float;
use crate::traits::UnitOne;
use crate::traits::Zero;
use std::ops::Div;
use std::ops::Mul;
use std::ops::Sub;
use vstd::prelude::*;

verus! {

impl<
    const SIZE: usize,
    T: Copy + Zero + UnitOne + PartialEq + Sub<Output = T> + Mul<Output = T> + Div<Output = T>,
> Mat<SIZE, SIZE, T> {
    /// Factors the matrix into a lower factor with ones on the diagonal and
    /// an upper factor, as [`Matrix::lu`] does.
    pub fn lu(&self) -> (res: (Self, Self))
        requires
            self@.can_factor(),
        ensures
            (res.0@, res.1@) == self@.lu(),
    {
        let m = self.to_matrix();
        proof {
            self.lemma_shape();
            lemma_lu_shape(self@, SIZE as nat);
        }
        match m.lu() {
            Ok((l, u)) => (Mat::from_matrix(&l), Mat::from_matrix(&u)),
            Err(_) => (*self, *self),
        }
    }

    /// The determinant: the product of the diagonals of the two factors.
    pub fn det(&self) -> (d: T)
        requires
            self@.can_det(),
        ensures
            d == self@.det(),
    {
        let m = self.to_matrix();
        proof {
            self.lemma_shape();
        }
        match m.det() {
            Ok(d) => d,
            Err(_) => T::zero(),
        }
    }
}

impl<
    const ROWS: usize,
    const COLS: usize,
    T: Copy + Zero + UnitOne + PartialEq + Sub<Output = T> + Mul<Output = T> + Div<Output = T>,
> Mat<ROWS, COLS, T> {
    /// The rank as forward elimination finds it, as [`Matrix::rank`] does.
    pub fn rank(&self) -> (rank: usize)
        requires
            self@.can_rank(),
        ensures
            rank == self@.rank(),
    {
        self.to_matrix().rank()
    }
}

impl<const SIZE: usize, T: Float> Mat<SIZE, SIZE, T> {
    /// The inverse by Gauss-Jordan elimination without exchange of rows, or
    /// nothing as soon as a pivot is negligible, as [`Matrix::inverse`]
    /// finds it.
    pub fn inverse(&self) -> (res: Option<Self>)
        ensures
            match res {
                Some(m) => self@.inverse() == Some(m@),
                None => self@.inverse().is_none(),
            },
    {
        let m = self.to_matrix();
        proof {
            self.lemma_shape();
        }
        match m.inverse() {
            Some(inv) => {
                proof {
                    lemma_inverse_shape(m@, Grid::identity(SIZE as nat), 0);
                    Grid::<T>::lemma_identity(SIZE as nat);
                }
                Some(Mat::from_matrix(&inv))
            },
            None => None,
        }
    }
}

/// An inverse has the shape of the grid that is carried along.
pub proof fn lemma_inverse_shape<T: Float>(w: Grid<T>, e: Grid<T>, i: nat)
    requires
        e.wf(),
        w.inverse_from(e, i).is_some(),
    ensures
        w.inverse_from(e, i).unwrap().wf(),
        w.inverse_from(e, i).unwrap().same_shape(e),
    decreases w.rows - i,
{
    if i < w.rows {
        w.lemma_pivot_step(i as int);
        e.lemma_carried_step(w, i as int);
        lemma_inverse_shape(w.pivot_step(i as int), e.carried_step(w, i as int), i + 1);
    }
}

} // verus!
