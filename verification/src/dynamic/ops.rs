use crate::dynamic::Matrix;
use std::ops::Add;
use std::ops::AddAssign;
use std::ops::Div;
use std::ops::Index;
use std::ops::IndexMut;
use std::ops::DivAssign;
use std::ops::Mul;
use std::ops::MulAssign;
use std::ops::Neg;
use std::ops::Sub;
use std::ops::SubAssign;
use vstd::prelude::*;

verus! {

impl<T: Copy + Add<Output = T>> vstd::std_specs::ops::AddSpecImpl for Matrix<T> {
    open spec fn obeys_add_spec() -> bool {
        false
    }

    open spec fn add_req(self, other: Self) -> bool {
        &&& self.wf()
        &&& other.wf()
        &&& self@.same_shape(other@)
        &&& self@.can_add(other@)
    }

    open spec fn add_spec(self, other: Self) -> Self {
        arbitrary()
    }
}

impl<T: Copy + Add<Output = T>> Add for Matrix<T> {
    type Output = Self;

    /// The sum of two matrices, cell by cell. Both matrices must have one shape.
    fn add(self, other: Self) -> (m: Self)
        ensures
            m.wf(),
            m@ == self@.plus(other@),
    {
        match (&self).add(&other) {
            Ok(m) => m,
            Err(_) => self,
        }
    }
}

impl<T: Copy + Sub<Output = T>> vstd::std_specs::ops::SubSpecImpl for Matrix<T> {
    open spec fn obeys_sub_spec() -> bool {
        false
    }

    open spec fn sub_req(self, other: Self) -> bool {
        &&& self.wf()
        &&& other.wf()
        &&& self@.same_shape(other@)
        &&& self@.can_sub(other@)
    }

    open spec fn sub_spec(self, other: Self) -> Self {
        arbitrary()
    }
}

impl<T: Copy + Sub<Output = T>> Sub for Matrix<T> {
    type Output = Self;

    /// The difference of two matrices, cell by cell. Both matrices must have one shape.
    fn sub(self, other: Self) -> (m: Self)
        ensures
            m.wf(),
            m@ == self@.minus(other@),
    {
        match (&self).sub(&other) {
            Ok(m) => m,
            Err(_) => self,
        }
    }
}

impl<T: Copy + Mul<Output = T>> vstd::std_specs::ops::MulSpecImpl<T> for Matrix<T> {
    open spec fn obeys_mul_spec() -> bool {
        false
    }

    open spec fn mul_req(self, other: T) -> bool {
        &&& self.wf()
        &&& self@.can_scale(other)
    }

    open spec fn mul_spec(self, other: T) -> Self {
        arbitrary()
    }
}

impl<T: Copy + Mul<Output = T>> Mul<T> for Matrix<T> {
    type Output = Self;

    /// Every element multiplied by the scalar `other`.
    fn mul(self, other: T) -> (m: Self)
        ensures
            m.wf(),
            m@ == self@.scaled(other),
    {
        (&self).mul(other)
    }
}

impl<T: Copy + Div<Output = T>> vstd::std_specs::ops::DivSpecImpl<T> for Matrix<T> {
    open spec fn obeys_div_spec() -> bool {
        false
    }

    open spec fn div_req(self, other: T) -> bool {
        &&& self.wf()
        &&& self@.can_divide(other)
    }

    open spec fn div_spec(self, other: T) -> Self {
        arbitrary()
    }
}

impl<T: Copy + Div<Output = T>> Div<T> for Matrix<T> {
    type Output = Self;

    /// Every element divided by the scalar `other`.
    fn div(self, other: T) -> (m: Self)
        ensures
            m.wf(),
            m@ == self@.divided(other),
    {
        (&self).div(other)
    }
}

impl<T: Copy + Neg<Output = T>> vstd::std_specs::ops::NegSpecImpl for Matrix<T> {
    open spec fn obeys_neg_spec() -> bool {
        false
    }

    open spec fn neg_req(self) -> bool {
        &&& self.wf()
        &&& self@.can_negate()
    }

    open spec fn neg_spec(self) -> Self {
        arbitrary()
    }
}

impl<T: Copy + Neg<Output = T>> Neg for Matrix<T> {
    type Output = Self;

    /// Every element negated.
    fn neg(self) -> (m: Self)
        ensures
            m.wf(),
            m@ == self@.negated(),
    {
        (&self).neg()
    }
}

impl<T: Copy + Add<Output = T>> AddAssign for Matrix<T> {
    /// Adds `other` to this matrix, cell by cell. Both matrices must have
    /// one shape.
    fn add_assign(&mut self, other: Self)
        requires
            old(self).wf(),
            other.wf(),
            old(self)@.same_shape(other@),
            old(self)@.can_add(other@),
        ensures
            final(self).wf(),
            final(self)@ == old(self)@.plus(other@),
    {
        let _ = Matrix::add_assign(self, &other);
    }
}

impl<T: Copy + Sub<Output = T>> SubAssign for Matrix<T> {
    /// Subtracts `other` from this matrix, cell by cell. Both matrices must
    /// have one shape.
    fn sub_assign(&mut self, other: Self)
        requires
            old(self).wf(),
            other.wf(),
            old(self)@.same_shape(other@),
            old(self)@.can_sub(other@),
        ensures
            final(self).wf(),
            final(self)@ == old(self)@.minus(other@),
    {
        let _ = Matrix::sub_assign(self, &other);
    }
}

impl<T: Copy + Mul<Output = T>> MulAssign<T> for Matrix<T> {
    /// Multiplies every element by the scalar `other`.
    fn mul_assign(&mut self, other: T)
        requires
            old(self).wf(),
            old(self)@.can_scale(other),
        ensures
            final(self).wf(),
            final(self)@ == old(self)@.scaled(other),
    {
        Matrix::mul_assign(self, other);
    }
}

impl<T: Copy + Div<Output = T>> DivAssign<T> for Matrix<T> {
    /// Divides every element by the scalar `other`.
    fn div_assign(&mut self, other: T)
        requires
            old(self).wf(),
            old(self)@.can_divide(other),
        ensures
            final(self).wf(),
            final(self)@ == old(self)@.divided(other),
    {
        Matrix::div_assign(self, other);
    }
}

impl<T> vstd::std_specs::core::IndexSpecImpl<(usize, usize)> for Matrix<T> {
    open spec fn index_req(&self, index: &(usize, usize)) -> bool {
        self.wf() && self@.has(index.0 as int, index.1 as int)
    }
}

impl<T> Index<(usize, usize)> for Matrix<T> {
    type Output = T;

    /// The element at `(row, col)`, which must lie inside the matrix.
    fn index(&self, index: (usize, usize)) -> (e: &T)
        ensures
            *e == self@.at(index.0 as int, index.1 as int),
    {
        let i = self.offset(index.0, index.1);
        &self.data[i]
    }
}

impl<T> IndexMut<(usize, usize)> for Matrix<T> {
    /// The element at `(row, col)`, which must lie inside the matrix, to
    /// be written to.
    fn index_mut(&mut self, index: (usize, usize)) -> (e: &mut T)
        requires
            old(self).wf(),
            old(self)@.has(index.0 as int, index.1 as int),
        ensures
            *e == old(self)@.at(index.0 as int, index.1 as int),
            final(self).wf(),
            final(self)@ == old(self)@.with_cell(index.0 as int, index.1 as int, *final(e)),
    {
        let i = self.offset(index.0, index.1);
        &mut self.data[i]
    }
}

} // verus!
