use crate::dynamic::shape_string;
use crate::dynamic::Matrix;
use crate::dynamic::MatrixError;
use std::ops::Add;
use std::ops::Div;
use std::ops::Mul;
use std::ops::Neg;
use std::ops::Sub;
use vstd::prelude::*;
use vstd::std_specs::ops::AddSpec;
use vstd::std_specs::ops::DivSpec;
use vstd::std_specs::ops::MulSpec;
use vstd::std_specs::ops::NegSpec;
use vstd::std_specs::ops::SubSpec;

verus! {

impl<T: Copy + Add<Output = T>> Matrix<T> {
    /// Computes the sum of two matrices of one shape, cell by cell.
    ///
    /// Returns `DimensionsNotMatch` when the shapes differ.
    pub fn add(&self, other: &Self) -> (res: Result<Self, MatrixError>)
        requires
            self.wf(),
            other.wf(),
            self@.same_shape(other@) ==> self@.can_add(other@),
        ensures
            match res {
                Ok(m) => self@.same_shape(other@) && m.wf() && m@ == self@.plus(other@),
                Err(e) => !self@.same_shape(other@) && self.shape_mismatch(other, e),
            },
    {
        if self.rows != other.rows || self.cols != other.cols {
            return Err(
                MatrixError::DimensionsNotMatch {
                    expected: shape_string(self.rows, self.cols),
                    actual: shape_string(other.rows, other.cols),
                },
            );
        }
        let n = self.data.len();
        let mut vec: Vec<T> = Vec::new();
        let mut i: usize = 0;
        while i < n
            invariant
                n == self.data@.len(),
                n == other.data@.len(),
                self@.can_add(other@),
                i <= n,
                vec@.len() == i,
                forall|k: int| 0 <= k < i ==> vec@[k] == self.data@[k].add_spec(other.data@[k]),
            decreases n - i,
        {
            assert(self@.cells[i as int].add_req(other@.cells[i as int]));
            vec.push(self.data[i] + other.data[i]);
            i += 1;
        }
        proof {
            assert(vec@ =~= self@.plus(other@).cells);
        }
        Ok(Matrix { rows: self.rows, cols: self.cols, data: vec })
    }

    /// Computes the sum of two matrices of one shape in place: `self`
    /// becomes `self` plus `other`.
    ///
    /// Returns `DimensionsNotMatch`, and leaves `self` as it was, when the
    /// shapes differ.
    pub fn add_assign(&mut self, other: &Self) -> (res: Result<(), MatrixError>)
        requires
            old(self).wf(),
            other.wf(),
            old(self)@.same_shape(other@) ==> old(self)@.can_add(other@),
        ensures
            final(self).wf(),
            match res {
                Ok(_) => old(self)@.same_shape(other@) && final(self)@ == old(self)@.plus(
                    other@,
                ),
                Err(e) => !old(self)@.same_shape(other@) && *final(self) == *old(self)
                    && old(self).shape_mismatch(other, e),
            },
    {
        if self.rows != other.rows || self.cols != other.cols {
            return Err(
                MatrixError::DimensionsNotMatch {
                    expected: shape_string(self.rows, self.cols),
                    actual: shape_string(other.rows, other.cols),
                },
            );
        }
        let n = self.data.len();
        let mut i: usize = 0;
        while i < n
            invariant
                self.rows == old(self).rows,
                self.cols == old(self).cols,
                n == self.data@.len(),
                n == old(self).data@.len(),
                n == other.data@.len(),
                old(self)@.can_add(other@),
                i <= n,
                forall|k: int|
                    0 <= k < i ==> self.data@[k] == old(self).data@[k].add_spec(other.data@[k]),
                forall|k: int| i <= k < n ==> self.data@[k] == old(self).data@[k],
            decreases n - i,
        {
            assert(old(self)@.cells[i as int].add_req(other@.cells[i as int]));
            let v = self.data[i] + other.data[i];
            self.data[i] = v;
            i += 1;
        }
        proof {
            assert(self.data@ =~= old(self)@.plus(other@).cells);
        }
        Ok(())
    }
}

impl<T: Copy + Sub<Output = T>> Matrix<T> {
    /// Computes the difference of two matrices of one shape, cell by cell.
    ///
    /// Returns `DimensionsNotMatch` when the shapes differ.
    pub fn sub(&self, other: &Self) -> (res: Result<Self, MatrixError>)
        requires
            self.wf(),
            other.wf(),
            self@.same_shape(other@) ==> self@.can_sub(other@),
        ensures
            match res {
                Ok(m) => self@.same_shape(other@) && m.wf() && m@ == self@.minus(other@),
                Err(e) => !self@.same_shape(other@) && self.shape_mismatch(other, e),
            },
    {
        if self.rows != other.rows || self.cols != other.cols {
            return Err(
                MatrixError::DimensionsNotMatch {
                    expected: shape_string(self.rows, self.cols),
                    actual: shape_string(other.rows, other.cols),
                },
            );
        }
        let n = self.data.len();
        let mut vec: Vec<T> = Vec::new();
        let mut i: usize = 0;
        while i < n
            invariant
                n == self.data@.len(),
                n == other.data@.len(),
                self@.can_sub(other@),
                i <= n,
                vec@.len() == i,
                forall|k: int| 0 <= k < i ==> vec@[k] == self.data@[k].sub_spec(other.data@[k]),
            decreases n - i,
        {
            assert(self@.cells[i as int].sub_req(other@.cells[i as int]));
            vec.push(self.data[i] - other.data[i]);
            i += 1;
        }
        proof {
            assert(vec@ =~= self@.minus(other@).cells);
        }
        Ok(Matrix { rows: self.rows, cols: self.cols, data: vec })
    }

    /// Computes the difference of two matrices of one shape in place: `self`
    /// becomes `self` minus `other`.
    ///
    /// Returns `DimensionsNotMatch`, and leaves `self` as it was, when the
    /// shapes differ.
    pub fn sub_assign(&mut self, other: &Self) -> (res: Result<(), MatrixError>)
        requires
            old(self).wf(),
            other.wf(),
            old(self)@.same_shape(other@) ==> old(self)@.can_sub(other@),
        ensures
            final(self).wf(),
            match res {
                Ok(_) => old(self)@.same_shape(other@) && final(self)@ == old(self)@.minus(
                    other@,
                ),
                Err(e) => !old(self)@.same_shape(other@) && *final(self) == *old(self)
                    && old(self).shape_mismatch(other, e),
            },
    {
        if self.rows != other.rows || self.cols != other.cols {
            return Err(
                MatrixError::DimensionsNotMatch {
                    expected: shape_string(self.rows, self.cols),
                    actual: shape_string(other.rows, other.cols),
                },
            );
        }
        let n = self.data.len();
        let mut i: usize = 0;
        while i < n
            invariant
                self.rows == old(self).rows,
                self.cols == old(self).cols,
                n == self.data@.len(),
                n == old(self).data@.len(),
                n == other.data@.len(),
                old(self)@.can_sub(other@),
                i <= n,
                forall|k: int|
                    0 <= k < i ==> self.data@[k] == old(self).data@[k].sub_spec(other.data@[k]),
                forall|k: int| i <= k < n ==> self.data@[k] == old(self).data@[k],
            decreases n - i,
        {
            assert(old(self)@.cells[i as int].sub_req(other@.cells[i as int]));
            let v = self.data[i] - other.data[i];
            self.data[i] = v;
            i += 1;
        }
        proof {
            assert(self.data@ =~= old(self)@.minus(other@).cells);
        }
        Ok(())
    }
}

impl<T: Copy + Mul<Output = T>> Matrix<T> {
    /// Multiplies every element by the scalar `other`.
    pub fn mul(&self, other: T) -> (m: Self)
        requires
            self.wf(),
            self@.can_scale(other),
        ensures
            m.wf(),
            m@ == self@.scaled(other),
    {
        let n = self.data.len();
        let mut vec: Vec<T> = Vec::new();
        let mut i: usize = 0;
        while i < n
            invariant
                n == self.data@.len(),
                self@.can_scale(other),
                i <= n,
                vec@.len() == i,
                forall|k: int| 0 <= k < i ==> vec@[k] == self.data@[k].mul_spec(other),
            decreases n - i,
        {
            assert(self@.cells[i as int].mul_req(other));
            vec.push(self.data[i] * other);
            i += 1;
        }
        proof {
            assert(vec@ =~= self@.scaled(other).cells);
        }
        Matrix { rows: self.rows, cols: self.cols, data: vec }
    }

    /// Multiplies every element by the scalar `other`, in place.
    pub fn mul_assign(&mut self, other: T)
        requires
            old(self).wf(),
            old(self)@.can_scale(other),
        ensures
            final(self).wf(),
            final(self)@ == old(self)@.scaled(other),
    {
        let n = self.data.len();
        let mut i: usize = 0;
        while i < n
            invariant
                self.rows == old(self).rows,
                self.cols == old(self).cols,
                n == self.data@.len(),
                n == old(self).data@.len(),
                old(self)@.can_scale(other),
                i <= n,
                forall|k: int| 0 <= k < i ==> self.data@[k] == old(self).data@[k].mul_spec(other),
                forall|k: int| i <= k < n ==> self.data@[k] == old(self).data@[k],
            decreases n - i,
        {
            assert(old(self)@.cells[i as int].mul_req(other));
            let v = self.data[i] * other;
            self.data[i] = v;
            i += 1;
        }
        proof {
            assert(self.data@ =~= old(self)@.scaled(other).cells);
        }
    }
}

impl<T: Copy + Div<Output = T>> Matrix<T> {
    /// Divides every element by the scalar `other`.
    pub fn div(&self, other: T) -> (m: Self)
        requires
            self.wf(),
            self@.can_divide(other),
        ensures
            m.wf(),
            m@ == self@.divided(other),
    {
        let n = self.data.len();
        let mut vec: Vec<T> = Vec::new();
        let mut i: usize = 0;
        while i < n
            invariant
                n == self.data@.len(),
                self@.can_divide(other),
                i <= n,
                vec@.len() == i,
                forall|k: int| 0 <= k < i ==> vec@[k] == self.data@[k].div_spec(other),
            decreases n - i,
        {
            assert(self@.cells[i as int].div_req(other));
            vec.push(self.data[i] / other);
            i += 1;
        }
        proof {
            assert(vec@ =~= self@.divided(other).cells);
        }
        Matrix { rows: self.rows, cols: self.cols, data: vec }
    }

    /// Divides every element by the scalar `other`, in place.
    pub fn div_assign(&mut self, other: T)
        requires
            old(self).wf(),
            old(self)@.can_divide(other),
        ensures
            final(self).wf(),
            final(self)@ == old(self)@.divided(other),
    {
        let n = self.data.len();
        let mut i: usize = 0;
        while i < n
            invariant
                self.rows == old(self).rows,
                self.cols == old(self).cols,
                n == self.data@.len(),
                n == old(self).data@.len(),
                old(self)@.can_divide(other),
                i <= n,
                forall|k: int| 0 <= k < i ==> self.data@[k] == old(self).data@[k].div_spec(other),
                forall|k: int| i <= k < n ==> self.data@[k] == old(self).data@[k],
            decreases n - i,
        {
            assert(old(self)@.cells[i as int].div_req(other));
            let v = self.data[i] / other;
            self.data[i] = v;
            i += 1;
        }
        proof {
            assert(self.data@ =~= old(self)@.divided(other).cells);
        }
    }
}

impl<T: Copy + Neg<Output = T>> Matrix<T> {
    /// Negates every element.
    pub fn neg(&self) -> (m: Self)
        requires
            self.wf(),
            self@.can_negate(),
        ensures
            m.wf(),
            m@ == self@.negated(),
    {
        let n = self.data.len();
        let mut vec: Vec<T> = Vec::new();
        let mut i: usize = 0;
        while i < n
            invariant
                n == self.data@.len(),
                self@.can_negate(),
                i <= n,
                vec@.len() == i,
                forall|k: int| 0 <= k < i ==> vec@[k] == self.data@[k].neg_spec(),
            decreases n - i,
        {
            assert(self@.cells[i as int].neg_req());
            vec.push(self.data[i].neg());
            i += 1;
        }
        proof {
            assert(vec@ =~= self@.negated().cells);
        }
        Matrix { rows: self.rows, cols: self.cols, data: vec }
    }
}

} // verus!
