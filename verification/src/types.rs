use crate::grid::lemma_position_to_index;
use crate::grid::Grid;
use crate::mat::Mat;
use vstd::prelude::*;

verus! {

pub type Mat2<T> = Mat<2, 2, T>;

pub type Mat3<T> = Mat<3, 3, T>;

pub type Mat4<T> = Mat<4, 4, T>;

pub type Mat2x3<T> = Mat<2, 3, T>;

pub type Mat2x4<T> = Mat<2, 4, T>;

pub type Mat3x2<T> = Mat<3, 2, T>;

pub type Mat3x4<T> = Mat<3, 4, T>;

pub type Mat4x2<T> = Mat<4, 2, T>;

pub type Mat4x3<T> = Mat<4, 3, T>;

/// A column vector of `N` components.
pub type Vec<const N: usize, T> = Mat<N, 1, T>;

pub type Vec2<T> = Mat<2, 1, T>;

pub type Vec3<T> = Mat<3, 1, T>;

pub type Vec4<T> = Mat<4, 1, T>;

impl<T> Grid<T> {
    /// The grid of one column that holds `cells` from top to bottom.
    pub open spec fn column(cells: Seq<T>) -> Grid<T> {
        Grid { rows: cells.len(), cols: 1, cells }
    }
}

impl<const N: usize, T: Copy> Mat<N, 1, T> {
    /// Creates a column vector from its components.
    pub fn from_components(components: [T; N]) -> (v: Self)
        ensures
            v@ == Grid::column(components@),
    {
        let v = Mat { data: [components] };
        proof {
            v.lemma_cells();
            assert(v@.cells =~= components@) by {
                assert forall|i: int| 0 <= i < N implies v@.cells[i] == components@[i] by {
                    lemma_position_to_index(N as nat, 1, i, 0);
                    assert(v@.at(i, 0) == v.data[0][i]);
                }
            }
        }
        v
    }

    /// The components from top to bottom.
    pub fn components(&self) -> (a: [T; N])
        ensures
            a@ == self@.cells,
    {
        let a = self.data[0];
        proof {
            self.lemma_cells();
            assert(a@ =~= self@.cells) by {
                assert forall|i: int| 0 <= i < N implies a@[i] == self@.cells[i] by {
                    lemma_position_to_index(N as nat, 1, i, 0);
                    assert(self@.at(i, 0) == self.data[0][i]);
                }
            }
        }
        a
    }

    /// The component at place `i`, counted from the top.
    pub fn component(&self, i: usize) -> (e: T)
        requires
            i < N,
        ensures
            e == self@.cells[i as int],
    {
        let a = self.components();
        a[i]
    }

    /// Replaces the component at place `i`, counted from the top.
    pub fn set_component(&mut self, i: usize, value: T)
        requires
            i < N,
        ensures
            final(self)@ == Grid::column(old(self)@.cells.update(i as int, value)),
    {
        let mut a = self.components();
        a[i] = value;
        *self = Self::from_components(a);
        proof {
            assert(a@ =~= old(self)@.cells.update(i as int, value));
        }
    }
}

impl<const SIZE: usize, T: Copy> vstd::std_specs::convert::FromSpecImpl<[T; SIZE]> for Mat<SIZE, 1, T> {
    open spec fn obeys_from_spec() -> bool {
        true
    }

    open spec fn from_spec(value: [T; SIZE]) -> Self {
        Self::of(Grid::column(value@))
    }
}

impl<const SIZE: usize, T: Copy> From<[T; SIZE]> for Mat<SIZE, 1, T> {
    /// The column vector of the given components.
    fn from(value: [T; SIZE]) -> (v: Self)
        ensures
            v@ == Grid::column(value@),
    {
        let v = Self::from_components(value);
        proof {
            v.lemma_of();
        }
        v
    }
}

impl<T: Copy> vstd::std_specs::convert::FromSpecImpl<(T, T)> for Mat<2, 1, T> {
    open spec fn obeys_from_spec() -> bool {
        true
    }

    open spec fn from_spec(value: (T, T)) -> Self {
        Self::of(Grid::column(seq![value.0, value.1]))
    }
}

impl<T: Copy> From<(T, T)> for Mat<2, 1, T> {
    /// The vector made of a scalar, a scalar, in this order.
    fn from(value: (T, T)) -> (v: Self)
        ensures
            v@ == Grid::column(seq![value.0, value.1]),
    {
        let a = [value.0, value.1];
        let v = Self::from_components(a);
        proof {
            assert(a@ =~= seq![value.0, value.1]);
            v.lemma_of();
        }
        v
    }
}

impl<T: Copy> vstd::std_specs::convert::FromSpecImpl<(T, T, T)> for Mat<3, 1, T> {
    open spec fn obeys_from_spec() -> bool {
        true
    }

    open spec fn from_spec(value: (T, T, T)) -> Self {
        Self::of(Grid::column(seq![value.0, value.1, value.2]))
    }
}

impl<T: Copy> From<(T, T, T)> for Mat<3, 1, T> {
    /// The vector made of a scalar, a scalar, a scalar, in this order.
    fn from(value: (T, T, T)) -> (v: Self)
        ensures
            v@ == Grid::column(seq![value.0, value.1, value.2]),
    {
        let a = [value.0, value.1, value.2];
        let v = Self::from_components(a);
        proof {
            assert(a@ =~= seq![value.0, value.1, value.2]);
            v.lemma_of();
        }
        v
    }
}

impl<T: Copy> vstd::std_specs::convert::FromSpecImpl<(T, Mat<2, 1, T>)> for Mat<3, 1, T> {
    open spec fn obeys_from_spec() -> bool {
        true
    }

    open spec fn from_spec(value: (T, Mat<2, 1, T>)) -> Self {
        Self::of(Grid::column(seq![value.0, value.1@.cells[0], value.1@.cells[1]]))
    }
}

impl<T: Copy> From<(T, Mat<2, 1, T>)> for Mat<3, 1, T> {
    /// The vector made of a scalar, a vector of 2, in this order.
    fn from(value: (T, Mat<2, 1, T>)) -> (v: Self)
        ensures
            v@ == Grid::column(seq![value.0, value.1@.cells[0], value.1@.cells[1]]),
    {
        let a = [value.0, value.1.component(0), value.1.component(1)];
        let v = Self::from_components(a);
        proof {
            assert(a@ =~= seq![value.0, value.1@.cells[0], value.1@.cells[1]]);
            v.lemma_of();
        }
        v
    }
}

impl<T: Copy> vstd::std_specs::convert::FromSpecImpl<(Mat<2, 1, T>, T)> for Mat<3, 1, T> {
    open spec fn obeys_from_spec() -> bool {
        true
    }

    open spec fn from_spec(value: (Mat<2, 1, T>, T)) -> Self {
        Self::of(Grid::column(seq![value.0@.cells[0], value.0@.cells[1], value.1]))
    }
}

impl<T: Copy> From<(Mat<2, 1, T>, T)> for Mat<3, 1, T> {
    /// The vector made of a vector of 2, a scalar, in this order.
    fn from(value: (Mat<2, 1, T>, T)) -> (v: Self)
        ensures
            v@ == Grid::column(seq![value.0@.cells[0], value.0@.cells[1], value.1]),
    {
        let a = [value.0.component(0), value.0.component(1), value.1];
        let v = Self::from_components(a);
        proof {
            assert(a@ =~= seq![value.0@.cells[0], value.0@.cells[1], value.1]);
            v.lemma_of();
        }
        v
    }
}

impl<T: Copy> vstd::std_specs::convert::FromSpecImpl<(T, T, T, T)> for Mat<4, 1, T> {
    open spec fn obeys_from_spec() -> bool {
        true
    }

    open spec fn from_spec(value: (T, T, T, T)) -> Self {
        Self::of(Grid::column(seq![value.0, value.1, value.2, value.3]))
    }
}

impl<T: Copy> From<(T, T, T, T)> for Mat<4, 1, T> {
    /// The vector made of a scalar, a scalar, a scalar, a scalar, in this order.
    fn from(value: (T, T, T, T)) -> (v: Self)
        ensures
            v@ == Grid::column(seq![value.0, value.1, value.2, value.3]),
    {
        let a = [value.0, value.1, value.2, value.3];
        let v = Self::from_components(a);
        proof {
            assert(a@ =~= seq![value.0, value.1, value.2, value.3]);
            v.lemma_of();
        }
        v
    }
}

impl<T: Copy> vstd::std_specs::convert::FromSpecImpl<(T, T, Mat<2, 1, T>)> for Mat<4, 1, T> {
    open spec fn obeys_from_spec() -> bool {
        true
    }

    open spec fn from_spec(value: (T, T, Mat<2, 1, T>)) -> Self {
        Self::of(Grid::column(seq![value.0, value.1, value.2@.cells[0], value.2@.cells[1]]))
    }
}

impl<T: Copy> From<(T, T, Mat<2, 1, T>)> for Mat<4, 1, T> {
    /// The vector made of a scalar, a scalar, a vector of 2, in this order.
    fn from(value: (T, T, Mat<2, 1, T>)) -> (v: Self)
        ensures
            v@ == Grid::column(seq![value.0, value.1, value.2@.cells[0], value.2@.cells[1]]),
    {
        let a = [value.0, value.1, value.2.component(0), value.2.component(1)];
        let v = Self::from_components(a);
        proof {
            assert(a@ =~= seq![value.0, value.1, value.2@.cells[0], value.2@.cells[1]]);
            v.lemma_of();
        }
        v
    }
}

impl<T: Copy> vstd::std_specs::convert::FromSpecImpl<(T, Mat<2, 1, T>, T)> for Mat<4, 1, T> {
    open spec fn obeys_from_spec() -> bool {
        true
    }

    open spec fn from_spec(value: (T, Mat<2, 1, T>, T)) -> Self {
        Self::of(Grid::column(seq![value.0, value.1@.cells[0], value.1@.cells[1], value.2]))
    }
}

impl<T: Copy> From<(T, Mat<2, 1, T>, T)> for Mat<4, 1, T> {
    /// The vector made of a scalar, a vector of 2, a scalar, in this order.
    fn from(value: (T, Mat<2, 1, T>, T)) -> (v: Self)
        ensures
            v@ == Grid::column(seq![value.0, value.1@.cells[0], value.1@.cells[1], value.2]),
    {
        let a = [value.0, value.1.component(0), value.1.component(1), value.2];
        let v = Self::from_components(a);
        proof {
            assert(a@ =~= seq![value.0, value.1@.cells[0], value.1@.cells[1], value.2]);
            v.lemma_of();
        }
        v
    }
}

impl<T: Copy> vstd::std_specs::convert::FromSpecImpl<(T, Mat<3, 1, T>)> for Mat<4, 1, T> {
    open spec fn obeys_from_spec() -> bool {
        true
    }

    open spec fn from_spec(value: (T, Mat<3, 1, T>)) -> Self {
        Self::of(Grid::column(seq![value.0, value.1@.cells[0], value.1@.cells[1], value.1@.cells[2]]))
    }
}

impl<T: Copy> From<(T, Mat<3, 1, T>)> for Mat<4, 1, T> {
    /// The vector made of a scalar, a vector of 3, in this order.
    fn from(value: (T, Mat<3, 1, T>)) -> (v: Self)
        ensures
            v@ == Grid::column(seq![value.0, value.1@.cells[0], value.1@.cells[1], value.1@.cells[2]]),
    {
        let a = [value.0, value.1.component(0), value.1.component(1), value.1.component(2)];
        let v = Self::from_components(a);
        proof {
            assert(a@ =~= seq![value.0, value.1@.cells[0], value.1@.cells[1], value.1@.cells[2]]);
            v.lemma_of();
        }
        v
    }
}

impl<T: Copy> vstd::std_specs::convert::FromSpecImpl<(Mat<2, 1, T>, T, T)> for Mat<4, 1, T> {
    open spec fn obeys_from_spec() -> bool {
        true
    }

    open spec fn from_spec(value: (Mat<2, 1, T>, T, T)) -> Self {
        Self::of(Grid::column(seq![value.0@.cells[0], value.0@.cells[1], value.1, value.2]))
    }
}

impl<T: Copy> From<(Mat<2, 1, T>, T, T)> for Mat<4, 1, T> {
    /// The vector made of a vector of 2, a scalar, a scalar, in this order.
    fn from(value: (Mat<2, 1, T>, T, T)) -> (v: Self)
        ensures
            v@ == Grid::column(seq![value.0@.cells[0], value.0@.cells[1], value.1, value.2]),
    {
        let a = [value.0.component(0), value.0.component(1), value.1, value.2];
        let v = Self::from_components(a);
        proof {
            assert(a@ =~= seq![value.0@.cells[0], value.0@.cells[1], value.1, value.2]);
            v.lemma_of();
        }
        v
    }
}

impl<T: Copy> vstd::std_specs::convert::FromSpecImpl<(Mat<2, 1, T>, Mat<2, 1, T>)> for Mat<4, 1, T> {
    open spec fn obeys_from_spec() -> bool {
        true
    }

    open spec fn from_spec(value: (Mat<2, 1, T>, Mat<2, 1, T>)) -> Self {
        Self::of(Grid::column(seq![value.0@.cells[0], value.0@.cells[1], value.1@.cells[0], value.1@.cells[1]]))
    }
}

impl<T: Copy> From<(Mat<2, 1, T>, Mat<2, 1, T>)> for Mat<4, 1, T> {
    /// The vector made of a vector of 2, a vector of 2, in this order.
    fn from(value: (Mat<2, 1, T>, Mat<2, 1, T>)) -> (v: Self)
        ensures
            v@ == Grid::column(seq![value.0@.cells[0], value.0@.cells[1], value.1@.cells[0], value.1@.cells[1]]),
    {
        let a = [value.0.component(0), value.0.component(1), value.1.component(0), value.1.component(1)];
        let v = Self::from_components(a);
        proof {
            assert(a@ =~= seq![value.0@.cells[0], value.0@.cells[1], value.1@.cells[0], value.1@.cells[1]]);
            v.lemma_of();
        }
        v
    }
}

impl<T: Copy> vstd::std_specs::convert::FromSpecImpl<(Mat<3, 1, T>, T)> for Mat<4, 1, T> {
    open spec fn obeys_from_spec() -> bool {
        true
    }

    open spec fn from_spec(value: (Mat<3, 1, T>, T)) -> Self {
        Self::of(Grid::column(seq![value.0@.cells[0], value.0@.cells[1], value.0@.cells[2], value.1]))
    }
}

impl<T: Copy> From<(Mat<3, 1, T>, T)> for Mat<4, 1, T> {
    /// The vector made of a vector of 3, a scalar, in this order.
    fn from(value: (Mat<3, 1, T>, T)) -> (v: Self)
        ensures
            v@ == Grid::column(seq![value.0@.cells[0], value.0@.cells[1], value.0@.cells[2], value.1]),
    {
        let a = [value.0.component(0), value.0.component(1), value.0.component(2), value.1];
        let v = Self::from_components(a);
        proof {
            assert(a@ =~= seq![value.0@.cells[0], value.0@.cells[1], value.0@.cells[2], value.1]);
            v.lemma_of();
        }
        v
    }
}

} // verus!
