use crate::grid::Grid;
use crate::mat::Mat;
use crate::traits::div_total;
use crate::traits::Float;
use crate::traits::is_zero;
use crate::traits::Zero;
use std::ops::Add;
use std::ops::Mul;
use std::ops::Sub;
use vstd::prelude::*;
use vstd::std_specs::ops::AddSpec;
use vstd::std_specs::ops::DivSpec;
use vstd::std_specs::ops::MulSpec;
use vstd::std_specs::ops::SubSpec;

verus! {

/// The cross product of two vectors of three components, given as their
/// components from top to bottom.
pub open spec fn cross_spec<T: Sub<Output = T> + Mul<Output = T>>(a: Seq<T>, b: Seq<T>) -> Seq<T> {
    seq![
        a[1].mul_spec(b[2]).sub_spec(a[2].mul_spec(b[1])),
        a[2].mul_spec(b[0]).sub_spec(a[0].mul_spec(b[2])),
        a[0].mul_spec(b[1]).sub_spec(a[1].mul_spec(b[0])),
    ]
}

/// Every product and every difference that the cross product takes is
/// defined, and both operations return what their specifications say.
pub open spec fn can_cross<T: Sub<Output = T> + Mul<Output = T>>(a: Seq<T>, b: Seq<T>) -> bool {
    &&& T::obeys_mul_spec()
    &&& T::obeys_sub_spec()
    &&& a[1].mul_req(b[2])
    &&& a[2].mul_req(b[1])
    &&& a[1].mul_spec(b[2]).sub_req(a[2].mul_spec(b[1]))
    &&& a[2].mul_req(b[0])
    &&& a[0].mul_req(b[2])
    &&& a[2].mul_spec(b[0]).sub_req(a[0].mul_spec(b[2]))
    &&& a[0].mul_req(b[1])
    &&& a[1].mul_req(b[0])
    &&& a[0].mul_spec(b[1]).sub_req(a[1].mul_spec(b[0]))
}

/// The sum of the products of the first `k` components of `a` and `b`,
/// added up from zero in the order of the components.
pub open spec fn inner<T: Zero + Add<Output = T> + Mul<Output = T>>(a: Seq<T>, b: Seq<T>, k: nat) -> T
    decreases k,
{
    if k == 0 {
        T::zero_spec()
    } else {
        inner(a, b, (k - 1) as nat).add_spec(a[k - 1].mul_spec(b[k - 1]))
    }
}

/// Every product and every sum that the inner product of `a` and `b` takes
/// is defined, and both operations return what their specifications say.
pub open spec fn can_inner<T: Zero + Add<Output = T> + Mul<Output = T>>(a: Seq<T>, b: Seq<T>) -> bool {
    &&& T::obeys_add_spec()
    &&& T::obeys_mul_spec()
    &&& forall|k: nat|
        k < a.len() ==> a[k as int].mul_req(b[k as int]) && (#[trigger] inner(a, b, k)).add_req(
            a[k as int].mul_spec(b[k as int]),
        )
}

/// The length of the vector with the components `a`: the square root of
/// its inner product with itself.
pub open spec fn norm_spec<T: Float>(a: Seq<T>) -> T {
    inner(a, a, a.len()).sqrt_spec()
}

/// The vector with the components `a` scaled to length one: each component
/// divided by the length, or all zero where the length compares equal to
/// zero.
pub open spec fn normalize_spec<T: Float>(a: Seq<T>) -> Seq<T> {
    if is_zero(norm_spec(a)) {
        Seq::new(a.len(), |i: int| T::zero_spec())
    } else {
        Seq::new(a.len(), |i: int| a[i].div_spec(norm_spec(a)))
    }
}

impl<T: Copy + Sub<Output = T> + Mul<Output = T>> Mat<3, 1, T> {
    /// The cross product of two vectors.
    pub fn cross(&self, other: &Mat<3, 1, T>) -> (v: Mat<3, 1, T>)
        requires
            can_cross(self@.cells, other@.cells),
        ensures
            v@ == Grid::column(cross_spec(self@.cells, other@.cells)),
    {
        let a = self.components();
        let b = other.components();
        let out = [a[1] * b[2] - a[2] * b[1], a[2] * b[0] - a[0] * b[2], a[0] * b[1] - a[1] * b[0]];
        proof {
            assert(out@ =~= cross_spec(self@.cells, other@.cells));
        }
        Mat::from_components(out)
    }
}

impl<const N: usize, T: Copy + Zero + Add<Output = T> + Mul<Output = T>> Mat<N, 1, T> {
    /// The inner product of two vectors, summed from zero in the order of
    /// the components.
    pub fn inner_product(&self, other: &Mat<N, 1, T>) -> (s: T)
        requires
            can_inner(self@.cells, other@.cells),
        ensures
            s == inner(self@.cells, other@.cells, N as nat),
    {
        let a = self.components();
        let b = other.components();
        let mut acc = T::zero();
        let mut k: usize = 0;
        while k < N
            invariant
                k <= N,
                a@ == self@.cells,
                b@ == other@.cells,
                a@.len() == N,
                can_inner(a@, b@),
                acc == inner(a@, b@, k as nat),
            decreases N - k,
        {
            assert(inner(a@, b@, k as nat).add_req(a[k as int].mul_spec(b[k as int])));
            acc = acc + a[k] * b[k];
            k += 1;
        }
        acc
    }
}

impl<const N: usize, T: Float> Mat<N, 1, T> {

    /// The length of the vector.
    pub fn norm(&self) -> (s: T)
        ensures
            s == norm_spec(self@.cells),
    {
        proof {
            T::arithmetic_is_total();
            self.lemma_shape();
            assert(self@.cells.len() == N) by (nonlinear_arith)
                requires
                    self@.cells.len() == N * 1,
            ;
        }
        self.inner_product(self).sqrt()
    }

    /// The vector scaled to length one, or the zero vector where the length
    /// compares equal to zero.
    pub fn normalize(&self) -> (v: Mat<N, 1, T>)
        ensures
            v@ == Grid::column(normalize_spec(self@.cells)),
    {
        proof {
            T::arithmetic_is_total();
            self.lemma_shape();
            assert(self@.cells.len() == N) by (nonlinear_arith)
                requires
                    self@.cells.len() == N * 1,
            ;
        }
        let length = self.norm();
        let zero = T::zero();
        let a = self.components();
        let mut out = a;
        let vanishes = length == zero;
        let mut k: usize = 0;
        while k < N
            invariant
                k <= N,
                a@ == self@.cells,
                a@.len() == N,
                length == norm_spec(self@.cells),
                zero == T::zero_spec(),
                vanishes == is_zero(length),
                div_total::<T>(),
                forall|i: int| 0 <= i < k ==> out@[i] == normalize_spec(self@.cells)[i],
            decreases N - k,
        {
            if vanishes {
                out[k] = zero;
            } else {
                assert(a[k as int].div_req(length));
                out[k] = a[k] / length;
            }
            k += 1;
        }
        proof {
            assert(out@ =~= normalize_spec(self@.cells));
        }
        Mat::from_components(out)
    }
}

} // verus!
