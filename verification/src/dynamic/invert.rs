use crate::dynamic::Matrix;
use crate::grid::Grid;
use crate::inversion::negligible;
use crate::inversion::power;
use crate::inversion::ten;
use crate::inversion::tolerance;
use crate::traits::Float;
use crate::traits::mul_total;
use crate::traits::sub_total;
use crate::traits::UnitOne;
use vstd::prelude::*;
use vstd::std_specs::ops::DivSpec;
use vstd::std_specs::ops::MulSpec;
use vstd::std_specs::ops::SubSpec;

verus! {

/// The absolute tolerance below which a pivot counts as zero.
pub fn pivot_tolerance<T: Float>() -> (t: T)
    ensures
        t == tolerance::<T>(),
{
    proof {
        T::arithmetic_is_total();
    }
    let one = T::unit_one();
    let two = one + one;
    let base = two * (two + two + one);
    let mut p = one;
    let mut k: usize = 0;
    while k < 10
        invariant
            k <= 10,
            base == ten::<T>(),
            p == power(base, k as nat),
            mul_total::<T>(),
        decreases 10 - k,
    {
        assert(p.mul_req(base));
        p = p * base;
        k += 1;
    }
    one / p
}

impl<T: Float> Matrix<T> {
    /// The inverse of a square matrix by Gauss-Jordan elimination without
    /// exchange of rows, or nothing as soon as the absolute value of a pivot
    /// is at most one divided by the tenth power of ten.
    pub fn inverse(&self) -> (res: Option<Self>)
        requires
            self.wf(),
            self@.rows == self@.cols,
        ensures
            match res {
                Some(m) => m.wf() && self@.inverse() == Some(m@),
                None => self@.inverse().is_none(),
            },
    {
        proof {
            T::arithmetic_is_total();
        }
        let n = self.rows;
        let count = self.data.len();
        assert(n * n == count);
        let tol: T = pivot_tolerance();
        let mut w = self.duplicate();
        let mut e: Matrix<T> = Matrix::identity(n);
        proof {
            Grid::<T>::lemma_identity(n as nat);
        }
        let mut i: usize = 0;
        while i < n
            invariant
                self.wf(),
                n == self@.rows,
                n == self@.cols,
                i <= n,
                tol == tolerance::<T>(),
                w.wf(),
                e.wf(),
                w@.rows == n,
                w@.cols == n,
                e@.rows == n,
                e@.cols == n,
                self@.inverse() == w@.inverse_from(e@, i as nat),
            decreases n - i,
        {
            proof {
                T::arithmetic_is_total();
            }
            let ghost w0 = w@;
            let ghost e0 = e@;
            let pivot = w.at(i, i);
            if pivot.abs() <= tol {
                assert(negligible(pivot));
                return None;
            }
            assert(!negligible(pivot));
            w.divide_row(i, pivot);
            e.divide_row(i, pivot);
            proof {
                w0.lemma_row_divided(i as int, pivot, n as int);
                e0.lemma_row_divided(i as int, pivot, n as int);
            }
            let mut j: usize = 0;
            while j < n
                invariant
                    i < n,
                    j <= n,
                    w.wf(),
                    e.wf(),
                    w0.wf(),
                    e0.wf(),
                    w@.rows == n,
                    w@.cols == n,
                    e@.rows == n,
                    e@.cols == n,
                    w0.rows == n,
                    w0.cols == n,
                    e0.rows == n,
                    e0.cols == n,
                    pivot == w0.at(i as int, i as int),
                    sub_total::<T>(),
                    mul_total::<T>(),
                    forall|r: int, c: int|
                        w0.has(r, c) ==> #[trigger] w@.at(r, c) == if r == i {
                            w0.at(i as int, c).div_spec(pivot)
                        } else if r < j {
                            w0.at(r, c).sub_spec(
                                w0.at(i as int, c).div_spec(pivot).mul_spec(w0.at(r, i as int)),
                            )
                        } else {
                            w0.at(r, c)
                        },
                    forall|r: int, c: int|
                        e0.has(r, c) ==> #[trigger] e@.at(r, c) == if r == i {
                            e0.at(i as int, c).div_spec(pivot)
                        } else if r < j {
                            e0.at(r, c).sub_spec(
                                e0.at(i as int, c).div_spec(pivot).mul_spec(w0.at(r, i as int)),
                            )
                        } else {
                            e0.at(r, c)
                        },
                decreases n - j,
            {
                if j != i {
                    let f = w.at(j, i);
                    assert(f == w0.at(j as int, i as int));
                    assert forall|c: int| 0 <= c < n implies (#[trigger] w@.at(i as int, c)).mul_req(
                        f,
                    ) && w@.at(j as int, c).sub_req(w@.at(i as int, c).mul_spec(f)) by {
                    }
                    assert forall|c: int| 0 <= c < n implies (#[trigger] e@.at(i as int, c)).mul_req(
                        f,
                    ) && e@.at(j as int, c).sub_req(e@.at(i as int, c).mul_spec(f)) by {
                    }
                    let ghost w1 = w@;
                    let ghost e1 = e@;
                    w.reduce_right(j, i, f);
                    e.reduce_right(j, i, f);
                    proof {
                        w1.lemma_reduced_right(j as int, i as int, f, n as int);
                        e1.lemma_reduced_right(j as int, i as int, f, n as int);
                    }
                }
                j += 1;
            }
            proof {
                w0.lemma_pivot_step(i as int);
                w@.lemma_equal_by_cells(w0.pivot_step(i as int));
                e0.lemma_carried_step(w0, i as int);
                e@.lemma_equal_by_cells(e0.carried_step(w0, i as int));
            }
            i += 1;
        }
        Some(e)
    }
}

} // verus!
