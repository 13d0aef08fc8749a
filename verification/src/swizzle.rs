use crate::grid::Grid;
use crate::mat::Mat;
use vstd::prelude::*;

verus! {

impl<T: Copy> Mat<2, 1, T> {
    /// The component `x`.
    pub fn x(&self) -> (e: T)
        ensures
            e == self@.cells[0],
    {
        self.component(0)
    }

    /// The component `y`.
    pub fn y(&self) -> (e: T)
        ensures
            e == self@.cells[1],
    {
        self.component(1)
    }

    /// The components `xx`, in this order.
    pub fn xx(&self) -> (v: Mat<2, 1, T>)
        ensures
            v@ == Grid::column(seq![self@.cells[0], self@.cells[0]]),
    {
        let a = self.components();
        let out = [a[0], a[0]];
        proof {
            assert(out@ =~= seq![self@.cells[0], self@.cells[0]]);
        }
        Mat::from_components(out)
    }

    /// The components `xy`, in this order.
    pub fn xy(&self) -> (v: Mat<2, 1, T>)
        ensures
            v@ == Grid::column(seq![self@.cells[0], self@.cells[1]]),
    {
        let a = self.components();
        let out = [a[0], a[1]];
        proof {
            assert(out@ =~= seq![self@.cells[0], self@.cells[1]]);
        }
        Mat::from_components(out)
    }

    /// The components `yx`, in this order.
    pub fn yx(&self) -> (v: Mat<2, 1, T>)
        ensures
            v@ == Grid::column(seq![self@.cells[1], self@.cells[0]]),
    {
        let a = self.components();
        let out = [a[1], a[0]];
        proof {
            assert(out@ =~= seq![self@.cells[1], self@.cells[0]]);
        }
        Mat::from_components(out)
    }

    /// The components `yy`, in this order.
    pub fn yy(&self) -> (v: Mat<2, 1, T>)
        ensures
            v@ == Grid::column(seq![self@.cells[1], self@.cells[1]]),
    {
        let a = self.components();
        let out = [a[1], a[1]];
        proof {
            assert(out@ =~= seq![self@.cells[1], self@.cells[1]]);
        }
        Mat::from_components(out)
    }

    /// The components `xxx`, in this order.
    pub fn xxx(&self) -> (v: Mat<3, 1, T>)
        ensures
            v@ == Grid::column(seq![self@.cells[0], self@.cells[0], self@.cells[0]]),
    {
        let a = self.components();
        let out = [a[0], a[0], a[0]];
        proof {
            assert(out@ =~= seq![self@.cells[0], self@.cells[0], self@.cells[0]]);
        }
        Mat::from_components(out)
    }

    /// The components `xxy`, in this order.
    pub fn xxy(&self) -> (v: Mat<3, 1, T>)
        ensures
            v@ == Grid::column(seq![self@.cells[0], self@.cells[0], self@.cells[1]]),
    {
        let a = self.components();
        let out = [a[0], a[0], a[1]];
        proof {
            assert(out@ =~= seq![self@.cells[0], self@.cells[0], self@.cells[1]]);
        }
        Mat::from_components(out)
    }

    /// The components `xyx`, in this order.
    pub fn xyx(&self) -> (v: Mat<3, 1, T>)
        ensures
            v@ == Grid::column(seq![self@.cells[0], self@.cells[1], self@.cells[0]]),
    {
        let a = self.components();
        let out = [a[0], a[1], a[0]];
        proof {
            assert(out@ =~= seq![self@.cells[0], self@.cells[1], self@.cells[0]]);
        }
        Mat::from_components(out)
    }

    /// The components `xyy`, in this order.
    pub fn xyy(&self) -> (v: Mat<3, 1, T>)
        ensures
            v@ == Grid::column(seq![self@.cells[0], self@.cells[1], self@.cells[1]]),
    {
        let a = self.components();
        let out = [a[0], a[1], a[1]];
        proof {
            assert(out@ =~= seq![self@.cells[0], self@.cells[1], self@.cells[1]]);
        }
        Mat::from_components(out)
    }

    /// The components `yxx`, in this order.
    pub fn yxx(&self) -> (v: Mat<3, 1, T>)
        ensures
            v@ == Grid::column(seq![self@.cells[1], self@.cells[0], self@.cells[0]]),
    {
        let a = self.components();
        let out = [a[1], a[0], a[0]];
        proof {
            assert(out@ =~= seq![self@.cells[1], self@.cells[0], self@.cells[0]]);
        }
        Mat::from_components(out)
    }

    /// The components `yxy`, in this order.
    pub fn yxy(&self) -> (v: Mat<3, 1, T>)
        ensures
            v@ == Grid::column(seq![self@.cells[1], self@.cells[0], self@.cells[1]]),
    {
        let a = self.components();
        let out = [a[1], a[0], a[1]];
        proof {
            assert(out@ =~= seq![self@.cells[1], self@.cells[0], self@.cells[1]]);
        }
        Mat::from_components(out)
    }

    /// The components `yyx`, in this order.
    pub fn yyx(&self) -> (v: Mat<3, 1, T>)
        ensures
            v@ == Grid::column(seq![self@.cells[1], self@.cells[1], self@.cells[0]]),
    {
        let a = self.components();
        let out = [a[1], a[1], a[0]];
        proof {
            assert(out@ =~= seq![self@.cells[1], self@.cells[1], self@.cells[0]]);
        }
        Mat::from_components(out)
    }

    /// The components `yyy`, in this order.
    pub fn yyy(&self) -> (v: Mat<3, 1, T>)
        ensures
            v@ == Grid::column(seq![self@.cells[1], self@.cells[1], self@.cells[1]]),
    {
        let a = self.components();
        let out = [a[1], a[1], a[1]];
        proof {
            assert(out@ =~= seq![self@.cells[1], self@.cells[1], self@.cells[1]]);
        }
        Mat::from_components(out)
    }

    /// The components `xxxx`, in this order.
    pub fn xxxx(&self) -> (v: Mat<4, 1, T>)
        ensures
            v@ == Grid::column(seq![self@.cells[0], self@.cells[0], self@.cells[0], self@.cells[0]]),
    {
        let a = self.components();
        let out = [a[0], a[0], a[0], a[0]];
        proof {
            assert(out@ =~= seq![self@.cells[0], self@.cells[0], self@.cells[0], self@.cells[0]]);
        }
        Mat::from_components(out)
    }

    /// The components `xxxy`, in this order.
    pub fn xxxy(&self) -> (v: Mat<4, 1, T>)
        ensures
            v@ == Grid::column(seq![self@.cells[0], self@.cells[0], self@.cells[0], self@.cells[1]]),
    {
        let a = self.components();
        let out = [a[0], a[0], a[0], a[1]];
        proof {
            assert(out@ =~= seq![self@.cells[0], self@.cells[0], self@.cells[0], self@.cells[1]]);
        }
        Mat::from_components(out)
    }

    /// The components `xxyx`, in this order.
    pub fn xxyx(&self) -> (v: Mat<4, 1, T>)
        ensures
            v@ == Grid::column(seq![self@.cells[0], self@.cells[0], self@.cells[1], self@.cells[0]]),
    {
        let a = self.components();
        let out = [a[0], a[0], a[1], a[0]];
        proof {
            assert(out@ =~= seq![self@.cells[0], self@.cells[0], self@.cells[1], self@.cells[0]]);
        }
        Mat::from_components(out)
    }

    /// The components `xxyy`, in this order.
    pub fn xxyy(&self) -> (v: Mat<4, 1, T>)
        ensures
            v@ == Grid::column(seq![self@.cells[0], self@.cells[0], self@.cells[1], self@.cells[1]]),
    {
        let a = self.components();
        let out = [a[0], a[0], a[1], a[1]];
        proof {
            assert(out@ =~= seq![self@.cells[0], self@.cells[0], self@.cells[1], self@.cells[1]]);
        }
        Mat::from_components(out)
    }

    /// The components `xyxx`, in this order.
    pub fn xyxx(&self) -> (v: Mat<4, 1, T>)
        ensures
            v@ == Grid::column(seq![self@.cells[0], self@.cells[1], self@.cells[0], self@.cells[0]]),
    {
        let a = self.components();
        let out = [a[0], a[1], a[0], a[0]];
        proof {
            assert(out@ =~= seq![self@.cells[0], self@.cells[1], self@.cells[0], self@.cells[0]]);
        }
        Mat::from_components(out)
    }

    /// The components `xyxy`, in this order.
    pub fn xyxy(&self) -> (v: Mat<4, 1, T>)
        ensures
            v@ == Grid::column(seq![self@.cells[0], self@.cells[1], self@.cells[0], self@.cells[1]]),
    {
        let a = self.components();
        let out = [a[0], a[1], a[0], a[1]];
        proof {
            assert(out@ =~= seq![self@.cells[0], self@.cells[1], self@.cells[0], self@.cells[1]]);
        }
        Mat::from_components(out)
    }

    /// The components `xyyx`, in this order.
    pub fn xyyx(&self) -> (v: Mat<4, 1, T>)
        ensures
            v@ == Grid::column(seq![self@.cells[0], self@.cells[1], self@.cells[1], self@.cells[0]]),
    {
        let a = self.components();
        let out = [a[0], a[1], a[1], a[0]];
        proof {
            assert(out@ =~= seq![self@.cells[0], self@.cells[1], self@.cells[1], self@.cells[0]]);
        }
        Mat::from_components(out)
    }

    /// The components `xyyy`, in this order.
    pub fn xyyy(&self) -> (v: Mat<4, 1, T>)
        ensures
            v@ == Grid::column(seq![self@.cells[0], self@.cells[1], self@.cells[1], self@.cells[1]]),
    {
        let a = self.components();
        let out = [a[0], a[1], a[1], a[1]];
        proof {
            assert(out@ =~= seq![self@.cells[0], self@.cells[1], self@.cells[1], self@.cells[1]]);
        }
        Mat::from_components(out)
    }

    /// The components `yxxx`, in this order.
    pub fn yxxx(&self) -> (v: Mat<4, 1, T>)
        ensures
            v@ == Grid::column(seq![self@.cells[1], self@.cells[0], self@.cells[0], self@.cells[0]]),
    {
        let a = self.components();
        let out = [a[1], a[0], a[0], a[0]];
        proof {
            assert(out@ =~= seq![self@.cells[1], self@.cells[0], self@.cells[0], self@.cells[0]]);
        }
        Mat::from_components(out)
    }

    /// The components `yxxy`, in this order.
    pub fn yxxy(&self) -> (v: Mat<4, 1, T>)
        ensures
            v@ == Grid::column(seq![self@.cells[1], self@.cells[0], self@.cells[0], self@.cells[1]]),
    {
        let a = self.components();
        let out = [a[1], a[0], a[0], a[1]];
        proof {
            assert(out@ =~= seq![self@.cells[1], self@.cells[0], self@.cells[0], self@.cells[1]]);
        }
        Mat::from_components(out)
    }

    /// The components `yxyx`, in this order.
    pub fn yxyx(&self) -> (v: Mat<4, 1, T>)
        ensures
            v@ == Grid::column(seq![self@.cells[1], self@.cells[0], self@.cells[1], self@.cells[0]]),
    {
        let a = self.components();
        let out = [a[1], a[0], a[1], a[0]];
        proof {
            assert(out@ =~= seq![self@.cells[1], self@.cells[0], self@.cells[1], self@.cells[0]]);
        }
        Mat::from_components(out)
    }

    /// The components `yxyy`, in this order.
    pub fn yxyy(&self) -> (v: Mat<4, 1, T>)
        ensures
            v@ == Grid::column(seq![self@.cells[1], self@.cells[0], self@.cells[1], self@.cells[1]]),
    {
        let a = self.components();
        let out = [a[1], a[0], a[1], a[1]];
        proof {
            assert(out@ =~= seq![self@.cells[1], self@.cells[0], self@.cells[1], self@.cells[1]]);
        }
        Mat::from_components(out)
    }

    /// The components `yyxx`, in this order.
    pub fn yyxx(&self) -> (v: Mat<4, 1, T>)
        ensures
            v@ == Grid::column(seq![self@.cells[1], self@.cells[1], self@.cells[0], self@.cells[0]]),
    {
        let a = self.components();
        let out = [a[1], a[1], a[0], a[0]];
        proof {
            assert(out@ =~= seq![self@.cells[1], self@.cells[1], self@.cells[0], self@.cells[0]]);
        }
        Mat::from_components(out)
    }

    /// The components `yyxy`, in this order.
    pub fn yyxy(&self) -> (v: Mat<4, 1, T>)
        ensures
            v@ == Grid::column(seq![self@.cells[1], self@.cells[1], self@.cells[0], self@.cells[1]]),
    {
        let a = self.components();
        let out = [a[1], a[1], a[0], a[1]];
        proof {
            assert(out@ =~= seq![self@.cells[1], self@.cells[1], self@.cells[0], self@.cells[1]]);
        }
        Mat::from_components(out)
    }

    /// The components `yyyx`, in this order.
    pub fn yyyx(&self) -> (v: Mat<4, 1, T>)
        ensures
            v@ == Grid::column(seq![self@.cells[1], self@.cells[1], self@.cells[1], self@.cells[0]]),
    {
        let a = self.components();
        let out = [a[1], a[1], a[1], a[0]];
        proof {
            assert(out@ =~= seq![self@.cells[1], self@.cells[1], self@.cells[1], self@.cells[0]]);
        }
        Mat::from_components(out)
    }

    /// The components `yyyy`, in this order.
    pub fn yyyy(&self) -> (v: Mat<4, 1, T>)
        ensures
            v@ == Grid::column(seq![self@.cells[1], self@.cells[1], self@.cells[1], self@.cells[1]]),
    {
        let a = self.components();
        let out = [a[1], a[1], a[1], a[1]];
        proof {
            assert(out@ =~= seq![self@.cells[1], self@.cells[1], self@.cells[1], self@.cells[1]]);
        }
        Mat::from_components(out)
    }

    /// Replaces the component `x`.
    pub fn set_x(&mut self, value: T)
        ensures
            final(self)@ == Grid::column(old(self)@.cells.update(0, value)),
    {
        self.set_component(0, value);
    }

    /// Replaces the component `y`.
    pub fn set_y(&mut self, value: T)
        ensures
            final(self)@ == Grid::column(old(self)@.cells.update(1, value)),
    {
        self.set_component(1, value);
    }
}

impl<T: Copy> Mat<3, 1, T> {
    /// The component `x`.
    pub fn x(&self) -> (e: T)
        ensures
            e == self@.cells[0],
    {
        self.component(0)
    }

    /// The component `y`.
    pub fn y(&self) -> (e: T)
        ensures
            e == self@.cells[1],
    {
        self.component(1)
    }

    /// The component `z`.
    pub fn z(&self) -> (e: T)
        ensures
            e == self@.cells[2],
    {
        self.component(2)
    }

    /// The components `xx`, in this order.
    pub fn xx(&self) -> (v: Mat<2, 1, T>)
        ensures
            v@ == Grid::column(seq![self@.cells[0], self@.cells[0]]),
    {
        let a = self.components();
        let out = [a[0], a[0]];
        proof {
            assert(out@ =~= seq![self@.cells[0], self@.cells[0]]);
        }
        Mat::from_components(out)
    }

    /// The components `xy`, in this order.
    pub fn xy(&self) -> (v: Mat<2, 1, T>)
        ensures
            v@ == Grid::column(seq![self@.cells[0], self@.cells[1]]),
    {
        let a = self.components();
        let out = [a[0], a[1]];
        proof {
            assert(out@ =~= seq![self@.cells[0], self@.cells[1]]);
        }
        Mat::from_components(out)
    }

    /// The components `xz`, in this order.
    pub fn xz(&self) -> (v: Mat<2, 1, T>)
        ensures
            v@ == Grid::column(seq![self@.cells[0], self@.cells[2]]),
    {
        let a = self.components();
        let out = [a[0], a[2]];
        proof {
            assert(out@ =~= seq![self@.cells[0], self@.cells[2]]);
        }
        Mat::from_components(out)
    }

    /// The components `yx`, in this order.
    pub fn yx(&self) -> (v: Mat<2, 1, T>)
        ensures
            v@ == Grid::column(seq![self@.cells[1], self@.cells[0]]),
    {
        let a = self.components();
        let out = [a[1], a[0]];
        proof {
            assert(out@ =~= seq![self@.cells[1], self@.cells[0]]);
        }
        Mat::from_components(out)
    }

    /// The components `yy`, in this order.
    pub fn yy(&self) -> (v: Mat<2, 1, T>)
        ensures
            v@ == Grid::column(seq![self@.cells[1], self@.cells[1]]),
    {
        let a = self.components();
        let out = [a[1], a[1]];
        proof {
            assert(out@ =~= seq![self@.cells[1], self@.cells[1]]);
        }
        Mat::from_components(out)
    }

    /// The components `yz`, in this order.
    pub fn yz(&self) -> (v: Mat<2, 1, T>)
        ensures
            v@ == Grid::column(seq![self@.cells[1], self@.cells[2]]),
    {
        let a = self.components();
        let out = [a[1], a[2]];
        proof {
            assert(out@ =~= seq![self@.cells[1], self@.cells[2]]);
        }
        Mat::from_components(out)
    }

    /// The components `zx`, in this order.
    pub fn zx(&self) -> (v: Mat<2, 1, T>)
        ensures
            v@ == Grid::column(seq![self@.cells[2], self@.cells[0]]),
    {
        let a = self.components();
        let out = [a[2], a[0]];
        proof {
            assert(out@ =~= seq![self@.cells[2], self@.cells[0]]);
        }
        Mat::from_components(out)
    }

    /// The components `zy`, in this order.
    pub fn zy(&self) -> (v: Mat<2, 1, T>)
        ensures
            v@ == Grid::column(seq![self@.cells[2], self@.cells[1]]),
    {
        let a = self.components();
        let out = [a[2], a[1]];
        proof {
            assert(out@ =~= seq![self@.cells[2], self@.cells[1]]);
        }
        Mat::from_components(out)
    }

    /// The components `zz`, in this order.
    pub fn zz(&self) -> (v: Mat<2, 1, T>)
        ensures
            v@ == Grid::column(seq![self@.cells[2], self@.cells[2]]),
    {
        let a = self.components();
        let out = [a[2], a[2]];
        proof {
            assert(out@ =~= seq![self@.cells[2], self@.cells[2]]);
        }
        Mat::from_components(out)
    }

    /// The components `xxx`, in this order.
    pub fn xxx(&self) -> (v: Mat<3, 1, T>)
        ensures
            v@ == Grid::column(seq![self@.cells[0], self@.cells[0], self@.cells[0]]),
    {
        let a = self.components();
        let out = [a[0], a[0], a[0]];
        proof {
            assert(out@ =~= seq![self@.cells[0], self@.cells[0], self@.cells[0]]);
        }
        Mat::from_components(out)
    }

    /// The components `xxy`, in this order.
    pub fn xxy(&self) -> (v: Mat<3, 1, T>)
        ensures
            v@ == Grid::column(seq![self@.cells[0], self@.cells[0], self@.cells[1]]),
    {
        let a = self.components();
        let out = [a[0], a[0], a[1]];
        proof {
            assert(out@ =~= seq![self@.cells[0], self@.cells[0], self@.cells[1]]);
        }
        Mat::from_components(out)
    }

    /// The components `xxz`, in this order.
    pub fn xxz(&self) -> (v: Mat<3, 1, T>)
        ensures
            v@ == Grid::column(seq![self@.cells[0], self@.cells[0], self@.cells[2]]),
    {
        let a = self.components();
        let out = [a[0], a[0], a[2]];
        proof {
            assert(out@ =~= seq![self@.cells[0], self@.cells[0], self@.cells[2]]);
        }
        Mat::from_components(out)
    }

    /// The components `xyx`, in this order.
    pub fn xyx(&self) -> (v: Mat<3, 1, T>)
        ensures
            v@ == Grid::column(seq![self@.cells[0], self@.cells[1], self@.cells[0]]),
    {
        let a = self.components();
        let out = [a[0], a[1], a[0]];
        proof {
            assert(out@ =~= seq![self@.cells[0], self@.cells[1], self@.cells[0]]);
        }
        Mat::from_components(out)
    }

    /// The components `xyy`, in this order.
    pub fn xyy(&self) -> (v: Mat<3, 1, T>)
        ensures
            v@ == Grid::column(seq![self@.cells[0], self@.cells[1], self@.cells[1]]),
    {
        let a = self.components();
        let out = [a[0], a[1], a[1]];
        proof {
            assert(out@ =~= seq![self@.cells[0], self@.cells[1], self@.cells[1]]);
        }
        Mat::from_components(out)
    }

    /// The components `xyz`, in this order.
    pub fn xyz(&self) -> (v: Mat<3, 1, T>)
        ensures
            v@ == Grid::column(seq![self@.cells[0], self@.cells[1], self@.cells[2]]),
    {
        let a = self.components();
        let out = [a[0], a[1], a[2]];
        proof {
            assert(out@ =~= seq![self@.cells[0], self@.cells[1], self@.cells[2]]);
        }
        Mat::from_components(out)
    }

    /// The components `xzx`, in this order.
    pub fn xzx(&self) -> (v: Mat<3, 1, T>)
        ensures
            v@ == Grid::column(seq![self@.cells[0], self@.cells[2], self@.cells[0]]),
    {
        let a = self.components();
        let out = [a[0], a[2], a[0]];
        proof {
            assert(out@ =~= seq![self@.cells[0], self@.cells[2], self@.cells[0]]);
        }
        Mat::from_components(out)
    }

    /// The components `xzy`, in this order.
    pub fn xzy(&self) -> (v: Mat<3, 1, T>)
        ensures
            v@ == Grid::column(seq![self@.cells[0], self@.cells[2], self@.cells[1]]),
    {
        let a = self.components();
        let out = [a[0], a[2], a[1]];
        proof {
            assert(out@ =~= seq![self@.cells[0], self@.cells[2], self@.cells[1]]);
        }
        Mat::from_components(out)
    }

    /// The components `xzz`, in this order.
    pub fn xzz(&self) -> (v: Mat<3, 1, T>)
        ensures
            v@ == Grid::column(seq![self@.cells[0], self@.cells[2], self@.cells[2]]),
    {
        let a = self.components();
        let out = [a[0], a[2], a[2]];
        proof {
            assert(out@ =~= seq![self@.cells[0], self@.cells[2], self@.cells[2]]);
        }
        Mat::from_components(out)
    }

    /// The components `yxx`, in this order.
    pub fn yxx(&self) -> (v: Mat<3, 1, T>)
        ensures
            v@ == Grid::column(seq![self@.cells[1], self@.cells[0], self@.cells[0]]),
    {
        let a = self.components();
        let out = [a[1], a[0], a[0]];
        proof {
            assert(out@ =~= seq![self@.cells[1], self@.cells[0], self@.cells[0]]);
        }
        Mat::from_components(out)
    }

    /// The components `yxy`, in this order.
    pub fn yxy(&self) -> (v: Mat<3, 1, T>)
        ensures
            v@ == Grid::column(seq![self@.cells[1], self@.cells[0], self@.cells[1]]),
    {
        let a = self.components();
        let out = [a[1], a[0], a[1]];
        proof {
            assert(out@ =~= seq![self@.cells[1], self@.cells[0], self@.cells[1]]);
        }
        Mat::from_components(out)
    }

    /// The components `yxz`, in this order.
    pub fn yxz(&self) -> (v: Mat<3, 1, T>)
        ensures
            v@ == Grid::column(seq![self@.cells[1], self@.cells[0], self@.cells[2]]),
    {
        let a = self.components();
        let out = [a[1], a[0], a[2]];
        proof {
            assert(out@ =~= seq![self@.cells[1], self@.cells[0], self@.cells[2]]);
        }
        Mat::from_components(out)
    }

    /// The components `yyx`, in this order.
    pub fn yyx(&self) -> (v: Mat<3, 1, T>)
        ensures
            v@ == Grid::column(seq![self@.cells[1], self@.cells[1], self@.cells[0]]),
    {
        let a = self.components();
        let out = [a[1], a[1], a[0]];
        proof {
            assert(out@ =~= seq![self@.cells[1], self@.cells[1], self@.cells[0]]);
        }
        Mat::from_components(out)
    }

    /// The components `yyy`, in this order.
    pub fn yyy(&self) -> (v: Mat<3, 1, T>)
        ensures
            v@ == Grid::column(seq![self@.cells[1], self@.cells[1], self@.cells[1]]),
    {
        let a = self.components();
        let out = [a[1], a[1], a[1]];
        proof {
            assert(out@ =~= seq![self@.cells[1], self@.cells[1], self@.cells[1]]);
        }
        Mat::from_components(out)
    }

    /// The components `yyz`, in this order.
    pub fn yyz(&self) -> (v: Mat<3, 1, T>)
        ensures
            v@ == Grid::column(seq![self@.cells[1], self@.cells[1], self@.cells[2]]),
    {
        let a = self.components();
        let out = [a[1], a[1], a[2]];
        proof {
            assert(out@ =~= seq![self@.cells[1], self@.cells[1], self@.cells[2]]);
        }
        Mat::from_components(out)
    }

    /// The components `yzx`, in this order.
    pub fn yzx(&self) -> (v: Mat<3, 1, T>)
        ensures
            v@ == Grid::column(seq![self@.cells[1], self@.cells[2], self@.cells[0]]),
    {
        let a = self.components();
        let out = [a[1], a[2], a[0]];
        proof {
            assert(out@ =~= seq![self@.cells[1], self@.cells[2], self@.cells[0]]);
        }
        Mat::from_components(out)
    }

    /// The components `yzy`, in this order.
    pub fn yzy(&self) -> (v: Mat<3, 1, T>)
        ensures
            v@ == Grid::column(seq![self@.cells[1], self@.cells[2], self@.cells[1]]),
    {
        let a = self.components();
        let out = [a[1], a[2], a[1]];
        proof {
            assert(out@ =~= seq![self@.cells[1], self@.cells[2], self@.cells[1]]);
        }
        Mat::from_components(out)
    }

    /// The components `yzz`, in this order.
    pub fn yzz(&self) -> (v: Mat<3, 1, T>)
        ensures
            v@ == Grid::column(seq![self@.cells[1], self@.cells[2], self@.cells[2]]),
    {
        let a = self.components();
        let out = [a[1], a[2], a[2]];
        proof {
            assert(out@ =~= seq![self@.cells[1], self@.cells[2], self@.cells[2]]);
        }
        Mat::from_components(out)
    }

    /// The components `zxx`, in this order.
    pub fn zxx(&self) -> (v: Mat<3, 1, T>)
        ensures
            v@ == Grid::column(seq![self@.cells[2], self@.cells[0], self@.cells[0]]),
    {
        let a = self.components();
        let out = [a[2], a[0], a[0]];
        proof {
            assert(out@ =~= seq![self@.cells[2], self@.cells[0], self@.cells[0]]);
        }
        Mat::from_components(out)
    }

    /// The components `zxy`, in this order.
    pub fn zxy(&self) -> (v: Mat<3, 1, T>)
        ensures
            v@ == Grid::column(seq![self@.cells[2], self@.cells[0], self@.cells[1]]),
    {
        let a = self.components();
        let out = [a[2], a[0], a[1]];
        proof {
            assert(out@ =~= seq![self@.cells[2], self@.cells[0], self@.cells[1]]);
        }
        Mat::from_components(out)
    }

    /// The components `zxz`, in this order.
    pub fn zxz(&self) -> (v: Mat<3, 1, T>)
        ensures
            v@ == Grid::column(seq![self@.cells[2], self@.cells[0], self@.cells[2]]),
    {
        let a = self.components();
        let out = [a[2], a[0], a[2]];
        proof {
            assert(out@ =~= seq![self@.cells[2], self@.cells[0], self@.cells[2]]);
        }
        Mat::from_components(out)
    }

    /// The components `zyx`, in this order.
    pub fn zyx(&self) -> (v: Mat<3, 1, T>)
        ensures
            v@ == Grid::column(seq![self@.cells[2], self@.cells[1], self@.cells[0]]),
    {
        let a = self.components();
        let out = [a[2], a[1], a[0]];
        proof {
            assert(out@ =~= seq![self@.cells[2], self@.cells[1], self@.cells[0]]);
        }
        Mat::from_components(out)
    }

    /// The components `zyy`, in this order.
    pub fn zyy(&self) -> (v: Mat<3, 1, T>)
        ensures
            v@ == Grid::column(seq![self@.cells[2], self@.cells[1], self@.cells[1]]),
    {
        let a = self.components();
        let out = [a[2], a[1], a[1]];
        proof {
            assert(out@ =~= seq![self@.cells[2], self@.cells[1], self@.cells[1]]);
        }
        Mat::from_components(out)
    }

    /// The components `zyz`, in this order.
    pub fn zyz(&self) -> (v: Mat<3, 1, T>)
        ensures
            v@ == Grid::column(seq![self@.cells[2], self@.cells[1], self@.cells[2]]),
    {
        let a = self.components();
        let out = [a[2], a[1], a[2]];
        proof {
            assert(out@ =~= seq![self@.cells[2], self@.cells[1], self@.cells[2]]);
        }
        Mat::from_components(out)
    }

    /// The components `zzx`, in this order.
    pub fn zzx(&self) -> (v: Mat<3, 1, T>)
        ensures
            v@ == Grid::column(seq![self@.cells[2], self@.cells[2], self@.cells[0]]),
    {
        let a = self.components();
        let out = [a[2], a[2], a[0]];
        proof {
            assert(out@ =~= seq![self@.cells[2], self@.cells[2], self@.cells[0]]);
        }
        Mat::from_components(out)
    }

    /// The components `zzy`, in this order.
    pub fn zzy(&self) -> (v: Mat<3, 1, T>)
        ensures
            v@ == Grid::column(seq![self@.cells[2], self@.cells[2], self@.cells[1]]),
    {
        let a = self.components();
        let out = [a[2], a[2], a[1]];
        proof {
            assert(out@ =~= seq![self@.cells[2], self@.cells[2], self@.cells[1]]);
        }
        Mat::from_components(out)
    }

    /// The components `zzz`, in this order.
    pub fn zzz(&self) -> (v: Mat<3, 1, T>)
        ensures
            v@ == Grid::column(seq![self@.cells[2], self@.cells[2], self@.cells[2]]),
    {
        let a = self.components();
        let out = [a[2], a[2], a[2]];
        proof {
            assert(out@ =~= seq![self@.cells[2], self@.cells[2], self@.cells[2]]);
        }
        Mat::from_components(out)
    }

    /// The components `xxxx`, in this order.
    pub fn xxxx(&self) -> (v: Mat<4, 1, T>)
        ensures
            v@ == Grid::column(seq![self@.cells[0], self@.cells[0], self@.cells[0], self@.cells[0]]),
    {
        let a = self.components();
        let out = [a[0], a[0], a[0], a[0]];
        proof {
            assert(out@ =~= seq![self@.cells[0], self@.cells[0], self@.cells[0], self@.cells[0]]);
        }
        Mat::from_components(out)
    }

    /// The components `xxxy`, in this order.
    pub fn xxxy(&self) -> (v: Mat<4, 1, T>)
        ensures
            v@ == Grid::column(seq![self@.cells[0], self@.cells[0], self@.cells[0], self@.cells[1]]),
    {
        let a = self.components();
        let out = [a[0], a[0], a[0], a[1]];
        proof {
            assert(out@ =~= seq![self@.cells[0], self@.cells[0], self@.cells[0], self@.cells[1]]);
        }
        Mat::from_components(out)
    }

    /// The components `xxxz`, in this order.
    pub fn xxxz(&self) -> (v: Mat<4, 1, T>)
        ensures
            v@ == Grid::column(seq![self@.cells[0], self@.cells[0], self@.cells[0], self@.cells[2]]),
    {
        let a = self.components();
        let out = [a[0], a[0], a[0], a[2]];
        proof {
            assert(out@ =~= seq![self@.cells[0], self@.cells[0], self@.cells[0], self@.cells[2]]);
        }
        Mat::from_components(out)
    }

    /// The components `xxyx`, in this order.
    pub fn xxyx(&self) -> (v: Mat<4, 1, T>)
        ensures
            v@ == Grid::column(seq![self@.cells[0], self@.cells[0], self@.cells[1], self@.cells[0]]),
    {
        let a = self.components();
        let out = [a[0], a[0], a[1], a[0]];
        proof {
            assert(out@ =~= seq![self@.cells[0], self@.cells[0], self@.cells[1], self@.cells[0]]);
        }
        Mat::from_components(out)
    }

    /// The components `xxyy`, in this order.
    pub fn xxyy(&self) -> (v: Mat<4, 1, T>)
        ensures
            v@ == Grid::column(seq![self@.cells[0], self@.cells[0], self@.cells[1], self@.cells[1]]),
    {
        let a = self.components();
        let out = [a[0], a[0], a[1], a[1]];
        proof {
            assert(out@ =~= seq![self@.cells[0], self@.cells[0], self@.cells[1], self@.cells[1]]);
        }
        Mat::from_components(out)
    }

    /// The components `xxyz`, in this order.
    pub fn xxyz(&self) -> (v: Mat<4, 1, T>)
        ensures
            v@ == Grid::column(seq![self@.cells[0], self@.cells[0], self@.cells[1], self@.cells[2]]),
    {
        let a = self.components();
        let out = [a[0], a[0], a[1], a[2]];
        proof {
            assert(out@ =~= seq![self@.cells[0], self@.cells[0], self@.cells[1], self@.cells[2]]);
        }
        Mat::from_components(out)
    }

    /// The components `xxzx`, in this order.
    pub fn xxzx(&self) -> (v: Mat<4, 1, T>)
        ensures
            v@ == Grid::column(seq![self@.cells[0], self@.cells[0], self@.cells[2], self@.cells[0]]),
    {
        let a = self.components();
        let out = [a[0], a[0], a[2], a[0]];
        proof {
            assert(out@ =~= seq![self@.cells[0], self@.cells[0], self@.cells[2], self@.cells[0]]);
        }
        Mat::from_components(out)
    }

    /// The components `xxzy`, in this order.
    pub fn xxzy(&self) -> (v: Mat<4, 1, T>)
        ensures
            v@ == Grid::column(seq![self@.cells[0], self@.cells[0], self@.cells[2], self@.cells[1]]),
    {
        let a = self.components();
        let out = [a[0], a[0], a[2], a[1]];
        proof {
            assert(out@ =~= seq![self@.cells[0], self@.cells[0], self@.cells[2], self@.cells[1]]);
        }
        Mat::from_components(out)
    }

    /// The components `xxzz`, in this order.
    pub fn xxzz(&self) -> (v: Mat<4, 1, T>)
        ensures
            v@ == Grid::column(seq![self@.cells[0], self@.cells[0], self@.cells[2], self@.cells[2]]),
    {
        let a = self.components();
        let out = [a[0], a[0], a[2], a[2]];
        proof {
            assert(out@ =~= seq![self@.cells[0], self@.cells[0], self@.cells[2], self@.cells[2]]);
        }
        Mat::from_components(out)
    }

    /// The components `xyxx`, in this order.
    pub fn xyxx(&self) -> (v: Mat<4, 1, T>)
        ensures
            v@ == Grid::column(seq![self@.cells[0], self@.cells[1], self@.cells[0], self@.cells[0]]),
    {
        let a = self.components();
        let out = [a[0], a[1], a[0], a[0]];
        proof {
            assert(out@ =~= seq![self@.cells[0], self@.cells[1], self@.cells[0], self@.cells[0]]);
        }
        Mat::from_components(out)
    }

    /// The components `xyxy`, in this order.
    pub fn xyxy(&self) -> (v: Mat<4, 1, T>)
        ensures
            v@ == Grid::column(seq![self@.cells[0], self@.cells[1], self@.cells[0], self@.cells[1]]),
    {
        let a = self.components();
        let out = [a[0], a[1], a[0], a[1]];
        proof {
            assert(out@ =~= seq![self@.cells[0], self@.cells[1], self@.cells[0], self@.cells[1]]);
        }
        Mat::from_components(out)
    }

    /// The components `xyxz`, in this order.
    pub fn xyxz(&self) -> (v: Mat<4, 1, T>)
        ensures
            v@ == Grid::column(seq![self@.cells[0], self@.cells[1], self@.cells[0], self@.cells[2]]),
    {
        let a = self.components();
        let out = [a[0], a[1], a[0], a[2]];
        proof {
            assert(out@ =~= seq![self@.cells[0], self@.cells[1], self@.cells[0], self@.cells[2]]);
        }
        Mat::from_components(out)
    }

    /// The components `xyyx`, in this order.
    pub fn xyyx(&self) -> (v: Mat<4, 1, T>)
        ensures
            v@ == Grid::column(seq![self@.cells[0], self@.cells[1], self@.cells[1], self@.cells[0]]),
    {
        let a = self.components();
        let out = [a[0], a[1], a[1], a[0]];
        proof {
            assert(out@ =~= seq![self@.cells[0], self@.cells[1], self@.cells[1], self@.cells[0]]);
        }
        Mat::from_components(out)
    }

    /// The components `xyyy`, in this order.
    pub fn xyyy(&self) -> (v: Mat<4, 1, T>)
        ensures
            v@ == Grid::column(seq![self@.cells[0], self@.cells[1], self@.cells[1], self@.cells[1]]),
    {
        let a = self.components();
        let out = [a[0], a[1], a[1], a[1]];
        proof {
            assert(out@ =~= seq![self@.cells[0], self@.cells[1], self@.cells[1], self@.cells[1]]);
        }
        Mat::from_components(out)
    }

    /// The components `xyyz`, in this order.
    pub fn xyyz(&self) -> (v: Mat<4, 1, T>)
        ensures
            v@ == Grid::column(seq![self@.cells[0], self@.cells[1], self@.cells[1], self@.cells[2]]),
    {
        let a = self.components();
        let out = [a[0], a[1], a[1], a[2]];
        proof {
            assert(out@ =~= seq![self@.cells[0], self@.cells[1], self@.cells[1], self@.cells[2]]);
        }
        Mat::from_components(out)
    }

    /// The components `xyzx`, in this order.
    pub fn xyzx(&self) -> (v: Mat<4, 1, T>)
        ensures
            v@ == Grid::column(seq![self@.cells[0], self@.cells[1], self@.cells[2], self@.cells[0]]),
    {
        let a = self.components();
        let out = [a[0], a[1], a[2], a[0]];
        proof {
            assert(out@ =~= seq![self@.cells[0], self@.cells[1], self@.cells[2], self@.cells[0]]);
        }
        Mat::from_components(out)
    }

    /// The components `xyzy`, in this order.
    pub fn xyzy(&self) -> (v: Mat<4, 1, T>)
        ensures
            v@ == Grid::column(seq![self@.cells[0], self@.cells[1], self@.cells[2], self@.cells[1]]),
    {
        let a = self.components();
        let out = [a[0], a[1], a[2], a[1]];
        proof {
            assert(out@ =~= seq![self@.cells[0], self@.cells[1], self@.cells[2], self@.cells[1]]);
        }
        Mat::from_components(out)
    }

    /// The components `xyzz`, in this order.
    pub fn xyzz(&self) -> (v: Mat<4, 1, T>)
        ensures
            v@ == Grid::column(seq![self@.cells[0], self@.cells[1], self@.cells[2], self@.cells[2]]),
    {
        let a = self.components();
        let out = [a[0], a[1], a[2], a[2]];
        proof {
            assert(out@ =~= seq![self@.cells[0], self@.cells[1], self@.cells[2], self@.cells[2]]);
        }
        Mat::from_components(out)
    }

    /// The components `xzxx`, in this order.
    pub fn xzxx(&self) -> (v: Mat<4, 1, T>)
        ensures
            v@ == Grid::column(seq![self@.cells[0], self@.cells[2], self@.cells[0], self@.cells[0]]),
    {
        let a = self.components();
        let out = [a[0], a[2], a[0], a[0]];
        proof {
            assert(out@ =~= seq![self@.cells[0], self@.cells[2], self@.cells[0], self@.cells[0]]);
        }
        Mat::from_components(out)
    }

    /// The components `xzxy`, in this order.
    pub fn xzxy(&self) -> (v: Mat<4, 1, T>)
        ensures
            v@ == Grid::column(seq![self@.cells[0], self@.cells[2], self@.cells[0], self@.cells[1]]),
    {
        let a = self.components();
        let out = [a[0], a[2], a[0], a[1]];
        proof {
            assert(out@ =~= seq![self@.cells[0], self@.cells[2], self@.cells[0], self@.cells[1]]);
        }
        Mat::from_components(out)
    }

    /// The components `xzxz`, in this order.
    pub fn xzxz(&self) -> (v: Mat<4, 1, T>)
        ensures
            v@ == Grid::column(seq![self@.cells[0], self@.cells[2], self@.cells[0], self@.cells[2]]),
    {
        let a = self.components();
        let out = [a[0], a[2], a[0], a[2]];
        proof {
            assert(out@ =~= seq![self@.cells[0], self@.cells[2], self@.cells[0], self@.cells[2]]);
        }
        Mat::from_components(out)
    }

    /// The components `xzyx`, in this order.
    pub fn xzyx(&self) -> (v: Mat<4, 1, T>)
        ensures
            v@ == Grid::column(seq![self@.cells[0], self@.cells[2], self@.cells[1], self@.cells[0]]),
    {
        let a = self.components();
        let out = [a[0], a[2], a[1], a[0]];
        proof {
            assert(out@ =~= seq![self@.cells[0], self@.cells[2], self@.cells[1], self@.cells[0]]);
        }
        Mat::from_components(out)
    }

    /// The components `xzyy`, in this order.
    pub fn xzyy(&self) -> (v: Mat<4, 1, T>)
        ensures
            v@ == Grid::column(seq![self@.cells[0], self@.cells[2], self@.cells[1], self@.cells[1]]),
    {
        let a = self.components();
        let out = [a[0], a[2], a[1], a[1]];
        proof {
            assert(out@ =~= seq![self@.cells[0], self@.cells[2], self@.cells[1], self@.cells[1]]);
        }
        Mat::from_components(out)
    }

    /// The components `xzyz`, in this order.
    pub fn xzyz(&self) -> (v: Mat<4, 1, T>)
        ensures
            v@ == Grid::column(seq![self@.cells[0], self@.cells[2], self@.cells[1], self@.cells[2]]),
    {
        let a = self.components();
        let out = [a[0], a[2], a[1], a[2]];
        proof {
            assert(out@ =~= seq![self@.cells[0], self@.cells[2], self@.cells[1], self@.cells[2]]);
        }
        Mat::from_components(out)
    }

    /// The components `xzzx`, in this order.
    pub fn xzzx(&self) -> (v: Mat<4, 1, T>)
        ensures
            v@ == Grid::column(seq![self@.cells[0], self@.cells[2], self@.cells[2], self@.cells[0]]),
    {
        let a = self.components();
        let out = [a[0], a[2], a[2], a[0]];
        proof {
            assert(out@ =~= seq![self@.cells[0], self@.cells[2], self@.cells[2], self@.cells[0]]);
        }
        Mat::from_components(out)
    }

    /// The components `xzzy`, in this order.
    pub fn xzzy(&self) -> (v: Mat<4, 1, T>)
        ensures
            v@ == Grid::column(seq![self@.cells[0], self@.cells[2], self@.cells[2], self@.cells[1]]),
    {
        let a = self.components();
        let out = [a[0], a[2], a[2], a[1]];
        proof {
            assert(out@ =~= seq![self@.cells[0], self@.cells[2], self@.cells[2], self@.cells[1]]);
        }
        Mat::from_components(out)
    }

    /// The components `xzzz`, in this order.
    pub fn xzzz(&self) -> (v: Mat<4, 1, T>)
        ensures
            v@ == Grid::column(seq![self@.cells[0], self@.cells[2], self@.cells[2], self@.cells[2]]),
    {
        let a = self.components();
        let out = [a[0], a[2], a[2], a[2]];
        proof {
            assert(out@ =~= seq![self@.cells[0], self@.cells[2], self@.cells[2], self@.cells[2]]);
        }
        Mat::from_components(out)
    }

    /// The components `yxxx`, in this order.
    pub fn yxxx(&self) -> (v: Mat<4, 1, T>)
        ensures
            v@ == Grid::column(seq![self@.cells[1], self@.cells[0], self@.cells[0], self@.cells[0]]),
    {
        let a = self.components();
        let out = [a[1], a[0], a[0], a[0]];
        proof {
            assert(out@ =~= seq![self@.cells[1], self@.cells[0], self@.cells[0], self@.cells[0]]);
        }
        Mat::from_components(out)
    }

    /// The components `yxxy`, in this order.
    pub fn yxxy(&self) -> (v: Mat<4, 1, T>)
        ensures
            v@ == Grid::column(seq![self@.cells[1], self@.cells[0], self@.cells[0], self@.cells[1]]),
    {
        let a = self.components();
        let out = [a[1], a[0], a[0], a[1]];
        proof {
            assert(out@ =~= seq![self@.cells[1], self@.cells[0], self@.cells[0], self@.cells[1]]);
        }
        Mat::from_components(out)
    }

    /// The components `yxxz`, in this order.
    pub fn yxxz(&self) -> (v: Mat<4, 1, T>)
        ensures
            v@ == Grid::column(seq![self@.cells[1], self@.cells[0], self@.cells[0], self@.cells[2]]),
    {
        let a = self.components();
        let out = [a[1], a[0], a[0], a[2]];
        proof {
            assert(out@ =~= seq![self@.cells[1], self@.cells[0], self@.cells[0], self@.cells[2]]);
        }
        Mat::from_components(out)
    }

    /// The components `yxyx`, in this order.
    pub fn yxyx(&self) -> (v: Mat<4, 1, T>)
        ensures
            v@ == Grid::column(seq![self@.cells[1], self@.cells[0], self@.cells[1], self@.cells[0]]),
    {
        let a = self.components();
        let out = [a[1], a[0], a[1], a[0]];
        proof {
            assert(out@ =~= seq![self@.cells[1], self@.cells[0], self@.cells[1], self@.cells[0]]);
        }
        Mat::from_components(out)
    }

    /// The components `yxyy`, in this order.
    pub fn yxyy(&self) -> (v: Mat<4, 1, T>)
        ensures
            v@ == Grid::column(seq![self@.cells[1], self@.cells[0], self@.cells[1], self@.cells[1]]),
    {
        let a = self.components();
        let out = [a[1], a[0], a[1], a[1]];
        proof {
            assert(out@ =~= seq![self@.cells[1], self@.cells[0], self@.cells[1], self@.cells[1]]);
        }
        Mat::from_components(out)
    }

    /// The components `yxyz`, in this order.
    pub fn yxyz(&self) -> (v: Mat<4, 1, T>)
        ensures
            v@ == Grid::column(seq![self@.cells[1], self@.cells[0], self@.cells[1], self@.cells[2]]),
    {
        let a = self.components();
        let out = [a[1], a[0], a[1], a[2]];
        proof {
            assert(out@ =~= seq![self@.cells[1], self@.cells[0], self@.cells[1], self@.cells[2]]);
        }
        Mat::from_components(out)
    }

    /// The components `yxzx`, in this order.
    pub fn yxzx(&self) -> (v: Mat<4, 1, T>)
        ensures
            v@ == Grid::column(seq![self@.cells[1], self@.cells[0], self@.cells[2], self@.cells[0]]),
    {
        let a = self.components();
        let out = [a[1], a[0], a[2], a[0]];
        proof {
            assert(out@ =~= seq![self@.cells[1], self@.cells[0], self@.cells[2], self@.cells[0]]);
        }
        Mat::from_components(out)
    }

    /// The components `yxzy`, in this order.
    pub fn yxzy(&self) -> (v: Mat<4, 1, T>)
        ensures
            v@ == Grid::column(seq![self@.cells[1], self@.cells[0], self@.cells[2], self@.cells[1]]),
    {
        let a = self.components();
        let out = [a[1], a[0], a[2], a[1]];
        proof {
            assert(out@ =~= seq![self@.cells[1], self@.cells[0], self@.cells[2], self@.cells[1]]);
        }
        Mat::from_components(out)
    }

    /// The components `yxzz`, in this order.
    pub fn yxzz(&self) -> (v: Mat<4, 1, T>)
        ensures
            v@ == Grid::column(seq![self@.cells[1], self@.cells[0], self@.cells[2], self@.cells[2]]),
    {
        let a = self.components();
        let out = [a[1], a[0], a[2], a[2]];
        proof {
            assert(out@ =~= seq![self@.cells[1], self@.cells[0], self@.cells[2], self@.cells[2]]);
        }
        Mat::from_components(out)
    }

    /// The components `yyxx`, in this order.
    pub fn yyxx(&self) -> (v: Mat<4, 1, T>)
        ensures
            v@ == Grid::column(seq![self@.cells[1], self@.cells[1], self@.cells[0], self@.cells[0]]),
    {
        let a = self.components();
        let out = [a[1], a[1], a[0], a[0]];
        proof {
            assert(out@ =~= seq![self@.cells[1], self@.cells[1], self@.cells[0], self@.cells[0]]);
        }
        Mat::from_components(out)
    }

    /// The components `yyxy`, in this order.
    pub fn yyxy(&self) -> (v: Mat<4, 1, T>)
        ensures
            v@ == Grid::column(seq![self@.cells[1], self@.cells[1], self@.cells[0], self@.cells[1]]),
    {
        let a = self.components();
        let out = [a[1], a[1], a[0], a[1]];
        proof {
            assert(out@ =~= seq![self@.cells[1], self@.cells[1], self@.cells[0], self@.cells[1]]);
        }
        Mat::from_components(out)
    }

    /// The components `yyxz`, in this order.
    pub fn yyxz(&self) -> (v: Mat<4, 1, T>)
        ensures
            v@ == Grid::column(seq![self@.cells[1], self@.cells[1], self@.cells[0], self@.cells[2]]),
    {
        let a = self.components();
        let out = [a[1], a[1], a[0], a[2]];
        proof {
            assert(out@ =~= seq![self@.cells[1], self@.cells[1], self@.cells[0], self@.cells[2]]);
        }
        Mat::from_components(out)
    }

    /// The components `yyyx`, in this order.
    pub fn yyyx(&self) -> (v: Mat<4, 1, T>)
        ensures
            v@ == Grid::column(seq![self@.cells[1], self@.cells[1], self@.cells[1], self@.cells[0]]),
    {
        let a = self.components();
        let out = [a[1], a[1], a[1], a[0]];
        proof {
            assert(out@ =~= seq![self@.cells[1], self@.cells[1], self@.cells[1], self@.cells[0]]);
        }
        Mat::from_components(out)
    }

    /// The components `yyyy`, in this order.
    pub fn yyyy(&self) -> (v: Mat<4, 1, T>)
        ensures
            v@ == Grid::column(seq![self@.cells[1], self@.cells[1], self@.cells[1], self@.cells[1]]),
    {
        let a = self.components();
        let out = [a[1], a[1], a[1], a[1]];
        proof {
            assert(out@ =~= seq![self@.cells[1], self@.cells[1], self@.cells[1], self@.cells[1]]);
        }
        Mat::from_components(out)
    }

    /// The components `yyyz`, in this order.
    pub fn yyyz(&self) -> (v: Mat<4, 1, T>)
        ensures
            v@ == Grid::column(seq![self@.cells[1], self@.cells[1], self@.cells[1], self@.cells[2]]),
    {
        let a = self.components();
        let out = [a[1], a[1], a[1], a[2]];
        proof {
            assert(out@ =~= seq![self@.cells[1], self@.cells[1], self@.cells[1], self@.cells[2]]);
        }
        Mat::from_components(out)
    }

    /// The components `yyzx`, in this order.
    pub fn yyzx(&self) -> (v: Mat<4, 1, T>)
        ensures
            v@ == Grid::column(seq![self@.cells[1], self@.cells[1], self@.cells[2], self@.cells[0]]),
    {
        let a = self.components();
        let out = [a[1], a[1], a[2], a[0]];
        proof {
            assert(out@ =~= seq![self@.cells[1], self@.cells[1], self@.cells[2], self@.cells[0]]);
        }
        Mat::from_components(out)
    }

    /// The components `yyzy`, in this order.
    pub fn yyzy(&self) -> (v: Mat<4, 1, T>)
        ensures
            v@ == Grid::column(seq![self@.cells[1], self@.cells[1], self@.cells[2], self@.cells[1]]),
    {
        let a = self.components();
        let out = [a[1], a[1], a[2], a[1]];
        proof {
            assert(out@ =~= seq![self@.cells[1], self@.cells[1], self@.cells[2], self@.cells[1]]);
        }
        Mat::from_components(out)
    }

    /// The components `yyzz`, in this order.
    pub fn yyzz(&self) -> (v: Mat<4, 1, T>)
        ensures
            v@ == Grid::column(seq![self@.cells[1], self@.cells[1], self@.cells[2], self@.cells[2]]),
    {
        let a = self.components();
        let out = [a[1], a[1], a[2], a[2]];
        proof {
            assert(out@ =~= seq![self@.cells[1], self@.cells[1], self@.cells[2], self@.cells[2]]);
        }
        Mat::from_components(out)
    }

    /// The components `yzxx`, in this order.
    pub fn yzxx(&self) -> (v: Mat<4, 1, T>)
        ensures
            v@ == Grid::column(seq![self@.cells[1], self@.cells[2], self@.cells[0], self@.cells[0]]),
    {
        let a = self.components();
        let out = [a[1], a[2], a[0], a[0]];
        proof {
            assert(out@ =~= seq![self@.cells[1], self@.cells[2], self@.cells[0], self@.cells[0]]);
        }
        Mat::from_components(out)
    }

    /// The components `yzxy`, in this order.
    pub fn yzxy(&self) -> (v: Mat<4, 1, T>)
        ensures
            v@ == Grid::column(seq![self@.cells[1], self@.cells[2], self@.cells[0], self@.cells[1]]),
    {
        let a = self.components();
        let out = [a[1], a[2], a[0], a[1]];
        proof {
            assert(out@ =~= seq![self@.cells[1], self@.cells[2], self@.cells[0], self@.cells[1]]);
        }
        Mat::from_components(out)
    }

    /// The components `yzxz`, in this order.
    pub fn yzxz(&self) -> (v: Mat<4, 1, T>)
        ensures
            v@ == Grid::column(seq![self@.cells[1], self@.cells[2], self@.cells[0], self@.cells[2]]),
    {
        let a = self.components();
        let out = [a[1], a[2], a[0], a[2]];
        proof {
            assert(out@ =~= seq![self@.cells[1], self@.cells[2], self@.cells[0], self@.cells[2]]);
        }
        Mat::from_components(out)
    }

    /// The components `yzyx`, in this order.
    pub fn yzyx(&self) -> (v: Mat<4, 1, T>)
        ensures
            v@ == Grid::column(seq![self@.cells[1], self@.cells[2], self@.cells[1], self@.cells[0]]),
    {
        let a = self.components();
        let out = [a[1], a[2], a[1], a[0]];
        proof {
            assert(out@ =~= seq![self@.cells[1], self@.cells[2], self@.cells[1], self@.cells[0]]);
        }
        Mat::from_components(out)
    }

    /// The components `yzyy`, in this order.
    pub fn yzyy(&self) -> (v: Mat<4, 1, T>)
        ensures
            v@ == Grid::column(seq![self@.cells[1], self@.cells[2], self@.cells[1], self@.cells[1]]),
    {
        let a = self.components();
        let out = [a[1], a[2], a[1], a[1]];
        proof {
            assert(out@ =~= seq![self@.cells[1], self@.cells[2], self@.cells[1], self@.cells[1]]);
        }
        Mat::from_components(out)
    }

    /// The components `yzyz`, in this order.
    pub fn yzyz(&self) -> (v: Mat<4, 1, T>)
        ensures
            v@ == Grid::column(seq![self@.cells[1], self@.cells[2], self@.cells[1], self@.cells[2]]),
    {
        let a = self.components();
        let out = [a[1], a[2], a[1], a[2]];
        proof {
            assert(out@ =~= seq![self@.cells[1], self@.cells[2], self@.cells[1], self@.cells[2]]);
        }
        Mat::from_components(out)
    }

    /// The components `yzzx`, in this order.
    pub fn yzzx(&self) -> (v: Mat<4, 1, T>)
        ensures
            v@ == Grid::column(seq![self@.cells[1], self@.cells[2], self@.cells[2], self@.cells[0]]),
    {
        let a = self.components();
        let out = [a[1], a[2], a[2], a[0]];
        proof {
            assert(out@ =~= seq![self@.cells[1], self@.cells[2], self@.cells[2], self@.cells[0]]);
        }
        Mat::from_components(out)
    }

    /// The components `yzzy`, in this order.
    pub fn yzzy(&self) -> (v: Mat<4, 1, T>)
        ensures
            v@ == Grid::column(seq![self@.cells[1], self@.cells[2], self@.cells[2], self@.cells[1]]),
    {
        let a = self.components();
        let out = [a[1], a[2], a[2], a[1]];
        proof {
            assert(out@ =~= seq![self@.cells[1], self@.cells[2], self@.cells[2], self@.cells[1]]);
        }
        Mat::from_components(out)
    }

    /// The components `yzzz`, in this order.
    pub fn yzzz(&self) -> (v: Mat<4, 1, T>)
        ensures
            v@ == Grid::column(seq![self@.cells[1], self@.cells[2], self@.cells[2], self@.cells[2]]),
    {
        let a = self.components();
        let out = [a[1], a[2], a[2], a[2]];
        proof {
            assert(out@ =~= seq![self@.cells[1], self@.cells[2], self@.cells[2], self@.cells[2]]);
        }
        Mat::from_components(out)
    }

    /// The components `zxxx`, in this order.
    pub fn zxxx(&self) -> (v: Mat<4, 1, T>)
        ensures
            v@ == Grid::column(seq![self@.cells[2], self@.cells[0], self@.cells[0], self@.cells[0]]),
    {
        let a = self.components();
        let out = [a[2], a[0], a[0], a[0]];
        proof {
            assert(out@ =~= seq![self@.cells[2], self@.cells[0], self@.cells[0], self@.cells[0]]);
        }
        Mat::from_components(out)
    }

    /// The components `zxxy`, in this order.
    pub fn zxxy(&self) -> (v: Mat<4, 1, T>)
        ensures
            v@ == Grid::column(seq![self@.cells[2], self@.cells[0], self@.cells[0], self@.cells[1]]),
    {
        let a = self.components();
        let out = [a[2], a[0], a[0], a[1]];
        proof {
            assert(out@ =~= seq![self@.cells[2], self@.cells[0], self@.cells[0], self@.cells[1]]);
        }
        Mat::from_components(out)
    }

    /// The components `zxxz`, in this order.
    pub fn zxxz(&self) -> (v: Mat<4, 1, T>)
        ensures
            v@ == Grid::column(seq![self@.cells[2], self@.cells[0], self@.cells[0], self@.cells[2]]),
    {
        let a = self.components();
        let out = [a[2], a[0], a[0], a[2]];
        proof {
            assert(out@ =~= seq![self@.cells[2], self@.cells[0], self@.cells[0], self@.cells[2]]);
        }
        Mat::from_components(out)
    }

    /// The components `zxyx`, in this order.
    pub fn zxyx(&self) -> (v: Mat<4, 1, T>)
        ensures
            v@ == Grid::column(seq![self@.cells[2], self@.cells[0], self@.cells[1], self@.cells[0]]),
    {
        let a = self.components();
        let out = [a[2], a[0], a[1], a[0]];
        proof {
            assert(out@ =~= seq![self@.cells[2], self@.cells[0], self@.cells[1], self@.cells[0]]);
        }
        Mat::from_components(out)
    }

    /// The components `zxyy`, in this order.
    pub fn zxyy(&self) -> (v: Mat<4, 1, T>)
        ensures
            v@ == Grid::column(seq![self@.cells[2], self@.cells[0], self@.cells[1], self@.cells[1]]),
    {
        let a = self.components();
        let out = [a[2], a[0], a[1], a[1]];
        proof {
            assert(out@ =~= seq![self@.cells[2], self@.cells[0], self@.cells[1], self@.cells[1]]);
        }
        Mat::from_components(out)
    }

    /// The components `zxyz`, in this order.
    pub fn zxyz(&self) -> (v: Mat<4, 1, T>)
        ensures
            v@ == Grid::column(seq![self@.cells[2], self@.cells[0], self@.cells[1], self@.cells[2]]),
    {
        let a = self.components();
        let out = [a[2], a[0], a[1], a[2]];
        proof {
            assert(out@ =~= seq![self@.cells[2], self@.cells[0], self@.cells[1], self@.cells[2]]);
        }
        Mat::from_components(out)
    }

    /// The components `zxzx`, in this order.
    pub fn zxzx(&self) -> (v: Mat<4, 1, T>)
        ensures
            v@ == Grid::column(seq![self@.cells[2], self@.cells[0], self@.cells[2], self@.cells[0]]),
    {
        let a = self.components();
        let out = [a[2], a[0], a[2], a[0]];
        proof {
            assert(out@ =~= seq![self@.cells[2], self@.cells[0], self@.cells[2], self@.cells[0]]);
        }
        Mat::from_components(out)
    }

    /// The components `zxzy`, in this order.
    pub fn zxzy(&self) -> (v: Mat<4, 1, T>)
        ensures
            v@ == Grid::column(seq![self@.cells[2], self@.cells[0], self@.cells[2], self@.cells[1]]),
    {
        let a = self.components();
        let out = [a[2], a[0], a[2], a[1]];
        proof {
            assert(out@ =~= seq![self@.cells[2], self@.cells[0], self@.cells[2], self@.cells[1]]);
        }
        Mat::from_components(out)
    }

    /// The components `zxzz`, in this order.
    pub fn zxzz(&self) -> (v: Mat<4, 1, T>)
        ensures
            v@ == Grid::column(seq![self@.cells[2], self@.cells[0], self@.cells[2], self@.cells[2]]),
    {
        let a = self.components();
        let out = [a[2], a[0], a[2], a[2]];
        proof {
            assert(out@ =~= seq![self@.cells[2], self@.cells[0], self@.cells[2], self@.cells[2]]);
        }
        Mat::from_components(out)
    }

    /// The components `zyxx`, in this order.
    pub fn zyxx(&self) -> (v: Mat<4, 1, T>)
        ensures
            v@ == Grid::column(seq![self@.cells[2], self@.cells[1], self@.cells[0], self@.cells[0]]),
    {
        let a = self.components();
        let out = [a[2], a[1], a[0], a[0]];
        proof {
            assert(out@ =~= seq![self@.cells[2], self@.cells[1], self@.cells[0], self@.cells[0]]);
        }
        Mat::from_components(out)
    }

    /// The components `zyxy`, in this order.
    pub fn zyxy(&self) -> (v: Mat<4, 1, T>)
        ensures
            v@ == Grid::column(seq![self@.cells[2], self@.cells[1], self@.cells[0], self@.cells[1]]),
    {
        let a = self.components();
        let out = [a[2], a[1], a[0], a[1]];
        proof {
            assert(out@ =~= seq![self@.cells[2], self@.cells[1], self@.cells[0], self@.cells[1]]);
        }
        Mat::from_components(out)
    }

    /// The components `zyxz`, in this order.
    pub fn zyxz(&self) -> (v: Mat<4, 1, T>)
        ensures
            v@ == Grid::column(seq![self@.cells[2], self@.cells[1], self@.cells[0], self@.cells[2]]),
    {
        let a = self.components();
        let out = [a[2], a[1], a[0], a[2]];
        proof {
            assert(out@ =~= seq![self@.cells[2], self@.cells[1], self@.cells[0], self@.cells[2]]);
        }
        Mat::from_components(out)
    }

    /// The components `zyyx`, in this order.
    pub fn zyyx(&self) -> (v: Mat<4, 1, T>)
        ensures
            v@ == Grid::column(seq![self@.cells[2], self@.cells[1], self@.cells[1], self@.cells[0]]),
    {
        let a = self.components();
        let out = [a[2], a[1], a[1], a[0]];
        proof {
            assert(out@ =~= seq![self@.cells[2], self@.cells[1], self@.cells[1], self@.cells[0]]);
        }
        Mat::from_components(out)
    }

    /// The components `zyyy`, in this order.
    pub fn zyyy(&self) -> (v: Mat<4, 1, T>)
        ensures
            v@ == Grid::column(seq![self@.cells[2], self@.cells[1], self@.cells[1], self@.cells[1]]),
    {
        let a = self.components();
        let out = [a[2], a[1], a[1], a[1]];
        proof {
            assert(out@ =~= seq![self@.cells[2], self@.cells[1], self@.cells[1], self@.cells[1]]);
        }
        Mat::from_components(out)
    }

    /// The components `zyyz`, in this order.
    pub fn zyyz(&self) -> (v: Mat<4, 1, T>)
        ensures
            v@ == Grid::column(seq![self@.cells[2], self@.cells[1], self@.cells[1], self@.cells[2]]),
    {
        let a = self.components();
        let out = [a[2], a[1], a[1], a[2]];
        proof {
            assert(out@ =~= seq![self@.cells[2], self@.cells[1], self@.cells[1], self@.cells[2]]);
        }
        Mat::from_components(out)
    }

    /// The components `zyzx`, in this order.
    pub fn zyzx(&self) -> (v: Mat<4, 1, T>)
        ensures
            v@ == Grid::column(seq![self@.cells[2], self@.cells[1], self@.cells[2], self@.cells[0]]),
    {
        let a = self.components();
        let out = [a[2], a[1], a[2], a[0]];
        proof {
            assert(out@ =~= seq![self@.cells[2], self@.cells[1], self@.cells[2], self@.cells[0]]);
        }
        Mat::from_components(out)
    }

    /// The components `zyzy`, in this order.
    pub fn zyzy(&self) -> (v: Mat<4, 1, T>)
        ensures
            v@ == Grid::column(seq![self@.cells[2], self@.cells[1], self@.cells[2], self@.cells[1]]),
    {
        let a = self.components();
        let out = [a[2], a[1], a[2], a[1]];
        proof {
            assert(out@ =~= seq![self@.cells[2], self@.cells[1], self@.cells[2], self@.cells[1]]);
        }
        Mat::from_components(out)
    }

    /// The components `zyzz`, in this order.
    pub fn zyzz(&self) -> (v: Mat<4, 1, T>)
        ensures
            v@ == Grid::column(seq![self@.cells[2], self@.cells[1], self@.cells[2], self@.cells[2]]),
    {
        let a = self.components();
        let out = [a[2], a[1], a[2], a[2]];
        proof {
            assert(out@ =~= seq![self@.cells[2], self@.cells[1], self@.cells[2], self@.cells[2]]);
        }
        Mat::from_components(out)
    }

    /// The components `zzxx`, in this order.
    pub fn zzxx(&self) -> (v: Mat<4, 1, T>)
        ensures
            v@ == Grid::column(seq![self@.cells[2], self@.cells[2], self@.cells[0], self@.cells[0]]),
    {
        let a = self.components();
        let out = [a[2], a[2], a[0], a[0]];
        proof {
            assert(out@ =~= seq![self@.cells[2], self@.cells[2], self@.cells[0], self@.cells[0]]);
        }
        Mat::from_components(out)
    }

    /// The components `zzxy`, in this order.
    pub fn zzxy(&self) -> (v: Mat<4, 1, T>)
        ensures
            v@ == Grid::column(seq![self@.cells[2], self@.cells[2], self@.cells[0], self@.cells[1]]),
    {
        let a = self.components();
        let out = [a[2], a[2], a[0], a[1]];
        proof {
            assert(out@ =~= seq![self@.cells[2], self@.cells[2], self@.cells[0], self@.cells[1]]);
        }
        Mat::from_components(out)
    }

    /// The components `zzxz`, in this order.
    pub fn zzxz(&self) -> (v: Mat<4, 1, T>)
        ensures
            v@ == Grid::column(seq![self@.cells[2], self@.cells[2], self@.cells[0], self@.cells[2]]),
    {
        let a = self.components();
        let out = [a[2], a[2], a[0], a[2]];
        proof {
            assert(out@ =~= seq![self@.cells[2], self@.cells[2], self@.cells[0], self@.cells[2]]);
        }
        Mat::from_components(out)
    }

    /// The components `zzyx`, in this order.
    pub fn zzyx(&self) -> (v: Mat<4, 1, T>)
        ensures
            v@ == Grid::column(seq![self@.cells[2], self@.cells[2], self@.cells[1], self@.cells[0]]),
    {
        let a = self.components();
        let out = [a[2], a[2], a[1], a[0]];
        proof {
            assert(out@ =~= seq![self@.cells[2], self@.cells[2], self@.cells[1], self@.cells[0]]);
        }
        Mat::from_components(out)
    }

    /// The components `zzyy`, in this order.
    pub fn zzyy(&self) -> (v: Mat<4, 1, T>)
        ensures
            v@ == Grid::column(seq![self@.cells[2], self@.cells[2], self@.cells[1], self@.cells[1]]),
    {
        let a = self.components();
        let out = [a[2], a[2], a[1], a[1]];
        proof {
            assert(out@ =~= seq![self@.cells[2], self@.cells[2], self@.cells[1], self@.cells[1]]);
        }
        Mat::from_components(out)
    }

    /// The components `zzyz`, in this order.
    pub fn zzyz(&self) -> (v: Mat<4, 1, T>)
        ensures
            v@ == Grid::column(seq![self@.cells[2], self@.cells[2], self@.cells[1], self@.cells[2]]),
    {
        let a = self.components();
        let out = [a[2], a[2], a[1], a[2]];
        proof {
            assert(out@ =~= seq![self@.cells[2], self@.cells[2], self@.cells[1], self@.cells[2]]);
        }
        Mat::from_components(out)
    }

    /// The components `zzzx`, in this order.
    pub fn zzzx(&self) -> (v: Mat<4, 1, T>)
        ensures
            v@ == Grid::column(seq![self@.cells[2], self@.cells[2], self@.cells[2], self@.cells[0]]),
    {
        let a = self.components();
        let out = [a[2], a[2], a[2], a[0]];
        proof {
            assert(out@ =~= seq![self@.cells[2], self@.cells[2], self@.cells[2], self@.cells[0]]);
        }
        Mat::from_components(out)
    }

    /// The components `zzzy`, in this order.
    pub fn zzzy(&self) -> (v: Mat<4, 1, T>)
        ensures
            v@ == Grid::column(seq![self@.cells[2], self@.cells[2], self@.cells[2], self@.cells[1]]),
    {
        let a = self.components();
        let out = [a[2], a[2], a[2], a[1]];
        proof {
            assert(out@ =~= seq![self@.cells[2], self@.cells[2], self@.cells[2], self@.cells[1]]);
        }
        Mat::from_components(out)
    }

    /// The components `zzzz`, in this order.
    pub fn zzzz(&self) -> (v: Mat<4, 1, T>)
        ensures
            v@ == Grid::column(seq![self@.cells[2], self@.cells[2], self@.cells[2], self@.cells[2]]),
    {
        let a = self.components();
        let out = [a[2], a[2], a[2], a[2]];
        proof {
            assert(out@ =~= seq![self@.cells[2], self@.cells[2], self@.cells[2], self@.cells[2]]);
        }
        Mat::from_components(out)
    }

    /// Replaces the component `x`.
    pub fn set_x(&mut self, value: T)
        ensures
            final(self)@ == Grid::column(old(self)@.cells.update(0, value)),
    {
        self.set_component(0, value);
    }

    /// Replaces the component `y`.
    pub fn set_y(&mut self, value: T)
        ensures
            final(self)@ == Grid::column(old(self)@.cells.update(1, value)),
    {
        self.set_component(1, value);
    }

    /// Replaces the component `z`.
    pub fn set_z(&mut self, value: T)
        ensures
            final(self)@ == Grid::column(old(self)@.cells.update(2, value)),
    {
        self.set_component(2, value);
    }
}

impl<T: Copy> Mat<4, 1, T> {
    /// The component `x`.
    pub fn x(&self) -> (e: T)
        ensures
            e == self@.cells[0],
    {
        self.component(0)
    }

    /// The component `y`.
    pub fn y(&self) -> (e: T)
        ensures
            e == self@.cells[1],
    {
        self.component(1)
    }

    /// The component `z`.
    pub fn z(&self) -> (e: T)
        ensures
            e == self@.cells[2],
    {
        self.component(2)
    }

    /// The component `w`.
    pub fn w(&self) -> (e: T)
        ensures
            e == self@.cells[3],
    {
        self.component(3)
    }

    /// The components `xx`, in this order.
    pub fn xx(&self) -> (v: Mat<2, 1, T>)
        ensures
            v@ == Grid::column(seq![self@.cells[0], self@.cells[0]]),
    {
        let a = self.components();
        let out = [a[0], a[0]];
        proof {
            assert(out@ =~= seq![self@.cells[0], self@.cells[0]]);
        }
        Mat::from_components(out)
    }

    /// The components `xy`, in this order.
    pub fn xy(&self) -> (v: Mat<2, 1, T>)
        ensures
            v@ == Grid::column(seq![self@.cells[0], self@.cells[1]]),
    {
        let a = self.components();
        let out = [a[0], a[1]];
        proof {
            assert(out@ =~= seq![self@.cells[0], self@.cells[1]]);
        }
        Mat::from_components(out)
    }

    /// The components `xz`, in this order.
    pub fn xz(&self) -> (v: Mat<2, 1, T>)
        ensures
            v@ == Grid::column(seq![self@.cells[0], self@.cells[2]]),
    {
        let a = self.components();
        let out = [a[0], a[2]];
        proof {
            assert(out@ =~= seq![self@.cells[0], self@.cells[2]]);
        }
        Mat::from_components(out)
    }

    /// The components `xw`, in this order.
    pub fn xw(&self) -> (v: Mat<2, 1, T>)
        ensures
            v@ == Grid::column(seq![self@.cells[0], self@.cells[3]]),
    {
        let a = self.components();
        let out = [a[0], a[3]];
        proof {
            assert(out@ =~= seq![self@.cells[0], self@.cells[3]]);
        }
        Mat::from_components(out)
    }

    /// The components `yx`, in this order.
    pub fn yx(&self) -> (v: Mat<2, 1, T>)
        ensures
            v@ == Grid::column(seq![self@.cells[1], self@.cells[0]]),
    {
        let a = self.components();
        let out = [a[1], a[0]];
        proof {
            assert(out@ =~= seq![self@.cells[1], self@.cells[0]]);
        }
        Mat::from_components(out)
    }

    /// The components `yy`, in this order.
    pub fn yy(&self) -> (v: Mat<2, 1, T>)
        ensures
            v@ == Grid::column(seq![self@.cells[1], self@.cells[1]]),
    {
        let a = self.components();
        let out = [a[1], a[1]];
        proof {
            assert(out@ =~= seq![self@.cells[1], self@.cells[1]]);
        }
        Mat::from_components(out)
    }

    /// The components `yz`, in this order.
    pub fn yz(&self) -> (v: Mat<2, 1, T>)
        ensures
            v@ == Grid::column(seq![self@.cells[1], self@.cells[2]]),
    {
        let a = self.components();
        let out = [a[1], a[2]];
        proof {
            assert(out@ =~= seq![self@.cells[1], self@.cells[2]]);
        }
        Mat::from_components(out)
    }

    /// The components `yw`, in this order.
    pub fn yw(&self) -> (v: Mat<2, 1, T>)
        ensures
            v@ == Grid::column(seq![self@.cells[1], self@.cells[3]]),
    {
        let a = self.components();
        let out = [a[1], a[3]];
        proof {
            assert(out@ =~= seq![self@.cells[1], self@.cells[3]]);
        }
        Mat::from_components(out)
    }

    /// The components `zx`, in this order.
    pub fn zx(&self) -> (v: Mat<2, 1, T>)
        ensures
            v@ == Grid::column(seq![self@.cells[2], self@.cells[0]]),
    {
        let a = self.components();
        let out = [a[2], a[0]];
        proof {
            assert(out@ =~= seq![self@.cells[2], self@.cells[0]]);
        }
        Mat::from_components(out)
    }

    /// The components `zy`, in this order.
    pub fn zy(&self) -> (v: Mat<2, 1, T>)
        ensures
            v@ == Grid::column(seq![self@.cells[2], self@.cells[1]]),
    {
        let a = self.components();
        let out = [a[2], a[1]];
        proof {
            assert(out@ =~= seq![self@.cells[2], self@.cells[1]]);
        }
        Mat::from_components(out)
    }

    /// The components `zz`, in this order.
    pub fn zz(&self) -> (v: Mat<2, 1, T>)
        ensures
            v@ == Grid::column(seq![self@.cells[2], self@.cells[2]]),
    {
        let a = self.components();
        let out = [a[2], a[2]];
        proof {
            assert(out@ =~= seq![self@.cells[2], self@.cells[2]]);
        }
        Mat::from_components(out)
    }

    /// The components `zw`, in this order.
    pub fn zw(&self) -> (v: Mat<2, 1, T>)
        ensures
            v@ == Grid::column(seq![self@.cells[2], self@.cells[3]]),
    {
        let a = self.components();
        let out = [a[2], a[3]];
        proof {
            assert(out@ =~= seq![self@.cells[2], self@.cells[3]]);
        }
        Mat::from_components(out)
    }

    /// The components `wx`, in this order.
    pub fn wx(&self) -> (v: Mat<2, 1, T>)
        ensures
            v@ == Grid::column(seq![self@.cells[3], self@.cells[0]]),
    {
        let a = self.components();
        let out = [a[3], a[0]];
        proof {
            assert(out@ =~= seq![self@.cells[3], self@.cells[0]]);
        }
        Mat::from_components(out)
    }

    /// The components `wy`, in this order.
    pub fn wy(&self) -> (v: Mat<2, 1, T>)
        ensures
            v@ == Grid::column(seq![self@.cells[3], self@.cells[1]]),
    {
        let a = self.components();
        let out = [a[3], a[1]];
        proof {
            assert(out@ =~= seq![self@.cells[3], self@.cells[1]]);
        }
        Mat::from_components(out)
    }

    /// The components `wz`, in this order.
    pub fn wz(&self) -> (v: Mat<2, 1, T>)
        ensures
            v@ == Grid::column(seq![self@.cells[3], self@.cells[2]]),
    {
        let a = self.components();
        let out = [a[3], a[2]];
        proof {
            assert(out@ =~= seq![self@.cells[3], self@.cells[2]]);
        }
        Mat::from_components(out)
    }

    /// The components `ww`, in this order.
    pub fn ww(&self) -> (v: Mat<2, 1, T>)
        ensures
            v@ == Grid::column(seq![self@.cells[3], self@.cells[3]]),
    {
        let a = self.components();
        let out = [a[3], a[3]];
        proof {
            assert(out@ =~= seq![self@.cells[3], self@.cells[3]]);
        }
        Mat::from_components(out)
    }

    /// The components `xxx`, in this order.
    pub fn xxx(&self) -> (v: Mat<3, 1, T>)
        ensures
            v@ == Grid::column(seq![self@.cells[0], self@.cells[0], self@.cells[0]]),
    {
        let a = self.components();
        let out = [a[0], a[0], a[0]];
        proof {
            assert(out@ =~= seq![self@.cells[0], self@.cells[0], self@.cells[0]]);
        }
        Mat::from_components(out)
    }

    /// The components `xxy`, in this order.
    pub fn xxy(&self) -> (v: Mat<3, 1, T>)
        ensures
            v@ == Grid::column(seq![self@.cells[0], self@.cells[0], self@.cells[1]]),
    {
        let a = self.components();
        let out = [a[0], a[0], a[1]];
        proof {
            assert(out@ =~= seq![self@.cells[0], self@.cells[0], self@.cells[1]]);
        }
        Mat::from_components(out)
    }

    /// The components `xxz`, in this order.
    pub fn xxz(&self) -> (v: Mat<3, 1, T>)
        ensures
            v@ == Grid::column(seq![self@.cells[0], self@.cells[0], self@.cells[2]]),
    {
        let a = self.components();
        let out = [a[0], a[0], a[2]];
        proof {
            assert(out@ =~= seq![self@.cells[0], self@.cells[0], self@.cells[2]]);
        }
        Mat::from_components(out)
    }

    /// The components `xxw`, in this order.
    pub fn xxw(&self) -> (v: Mat<3, 1, T>)
        ensures
            v@ == Grid::column(seq![self@.cells[0], self@.cells[0], self@.cells[3]]),
    {
        let a = self.components();
        let out = [a[0], a[0], a[3]];
        proof {
            assert(out@ =~= seq![self@.cells[0], self@.cells[0], self@.cells[3]]);
        }
        Mat::from_components(out)
    }

    /// The components `xyx`, in this order.
    pub fn xyx(&self) -> (v: Mat<3, 1, T>)
        ensures
            v@ == Grid::column(seq![self@.cells[0], self@.cells[1], self@.cells[0]]),
    {
        let a = self.components();
        let out = [a[0], a[1], a[0]];
        proof {
            assert(out@ =~= seq![self@.cells[0], self@.cells[1], self@.cells[0]]);
        }
        Mat::from_components(out)
    }

    /// The components `xyy`, in this order.
    pub fn xyy(&self) -> (v: Mat<3, 1, T>)
        ensures
            v@ == Grid::column(seq![self@.cells[0], self@.cells[1], self@.cells[1]]),
    {
        let a = self.components();
        let out = [a[0], a[1], a[1]];
        proof {
            assert(out@ =~= seq![self@.cells[0], self@.cells[1], self@.cells[1]]);
        }
        Mat::from_components(out)
    }

    /// The components `xyz`, in this order.
    pub fn xyz(&self) -> (v: Mat<3, 1, T>)
        ensures
            v@ == Grid::column(seq![self@.cells[0], self@.cells[1], self@.cells[2]]),
    {
        let a = self.components();
        let out = [a[0], a[1], a[2]];
        proof {
            assert(out@ =~= seq![self@.cells[0], self@.cells[1], self@.cells[2]]);
        }
        Mat::from_components(out)
    }

    /// The components `xyw`, in this order.
    pub fn xyw(&self) -> (v: Mat<3, 1, T>)
        ensures
            v@ == Grid::column(seq![self@.cells[0], self@.cells[1], self@.cells[3]]),
    {
        let a = self.components();
        let out = [a[0], a[1], a[3]];
        proof {
            assert(out@ =~= seq![self@.cells[0], self@.cells[1], self@.cells[3]]);
        }
        Mat::from_components(out)
    }

    /// The components `xzx`, in this order.
    pub fn xzx(&self) -> (v: Mat<3, 1, T>)
        ensures
            v@ == Grid::column(seq![self@.cells[0], self@.cells[2], self@.cells[0]]),
    {
        let a = self.components();
        let out = [a[0], a[2], a[0]];
        proof {
            assert(out@ =~= seq![self@.cells[0], self@.cells[2], self@.cells[0]]);
        }
        Mat::from_components(out)
    }

    /// The components `xzy`, in this order.
    pub fn xzy(&self) -> (v: Mat<3, 1, T>)
        ensures
            v@ == Grid::column(seq![self@.cells[0], self@.cells[2], self@.cells[1]]),
    {
        let a = self.components();
        let out = [a[0], a[2], a[1]];
        proof {
            assert(out@ =~= seq![self@.cells[0], self@.cells[2], self@.cells[1]]);
        }
        Mat::from_components(out)
    }

    /// The components `xzz`, in this order.
    pub fn xzz(&self) -> (v: Mat<3, 1, T>)
        ensures
            v@ == Grid::column(seq![self@.cells[0], self@.cells[2], self@.cells[2]]),
    {
        let a = self.components();
        let out = [a[0], a[2], a[2]];
        proof {
            assert(out@ =~= seq![self@.cells[0], self@.cells[2], self@.cells[2]]);
        }
        Mat::from_components(out)
    }

    /// The components `xzw`, in this order.
    pub fn xzw(&self) -> (v: Mat<3, 1, T>)
        ensures
            v@ == Grid::column(seq![self@.cells[0], self@.cells[2], self@.cells[3]]),
    {
        let a = self.components();
        let out = [a[0], a[2], a[3]];
        proof {
            assert(out@ =~= seq![self@.cells[0], self@.cells[2], self@.cells[3]]);
        }
        Mat::from_components(out)
    }

    /// The components `xwx`, in this order.
    pub fn xwx(&self) -> (v: Mat<3, 1, T>)
        ensures
            v@ == Grid::column(seq![self@.cells[0], self@.cells[3], self@.cells[0]]),
    {
        let a = self.components();
        let out = [a[0], a[3], a[0]];
        proof {
            assert(out@ =~= seq![self@.cells[0], self@.cells[3], self@.cells[0]]);
        }
        Mat::from_components(out)
    }

    /// The components `xwy`, in this order.
    pub fn xwy(&self) -> (v: Mat<3, 1, T>)
        ensures
            v@ == Grid::column(seq![self@.cells[0], self@.cells[3], self@.cells[1]]),
    {
        let a = self.components();
        let out = [a[0], a[3], a[1]];
        proof {
            assert(out@ =~= seq![self@.cells[0], self@.cells[3], self@.cells[1]]);
        }
        Mat::from_components(out)
    }

    /// The components `xwz`, in this order.
    pub fn xwz(&self) -> (v: Mat<3, 1, T>)
        ensures
            v@ == Grid::column(seq![self@.cells[0], self@.cells[3], self@.cells[2]]),
    {
        let a = self.components();
        let out = [a[0], a[3], a[2]];
        proof {
            assert(out@ =~= seq![self@.cells[0], self@.cells[3], self@.cells[2]]);
        }
        Mat::from_components(out)
    }

    /// The components `xww`, in this order.
    pub fn xww(&self) -> (v: Mat<3, 1, T>)
        ensures
            v@ == Grid::column(seq![self@.cells[0], self@.cells[3], self@.cells[3]]),
    {
        let a = self.components();
        let out = [a[0], a[3], a[3]];
        proof {
            assert(out@ =~= seq![self@.cells[0], self@.cells[3], self@.cells[3]]);
        }
        Mat::from_components(out)
    }

    /// The components `yxx`, in this order.
    pub fn yxx(&self) -> (v: Mat<3, 1, T>)
        ensures
            v@ == Grid::column(seq![self@.cells[1], self@.cells[0], self@.cells[0]]),
    {
        let a = self.components();
        let out = [a[1], a[0], a[0]];
        proof {
            assert(out@ =~= seq![self@.cells[1], self@.cells[0], self@.cells[0]]);
        }
        Mat::from_components(out)
    }

    /// The components `yxy`, in this order.
    pub fn yxy(&self) -> (v: Mat<3, 1, T>)
        ensures
            v@ == Grid::column(seq![self@.cells[1], self@.cells[0], self@.cells[1]]),
    {
        let a = self.components();
        let out = [a[1], a[0], a[1]];
        proof {
            assert(out@ =~= seq![self@.cells[1], self@.cells[0], self@.cells[1]]);
        }
        Mat::from_components(out)
    }

    /// The components `yxz`, in this order.
    pub fn yxz(&self) -> (v: Mat<3, 1, T>)
        ensures
            v@ == Grid::column(seq![self@.cells[1], self@.cells[0], self@.cells[2]]),
    {
        let a = self.components();
        let out = [a[1], a[0], a[2]];
        proof {
            assert(out@ =~= seq![self@.cells[1], self@.cells[0], self@.cells[2]]);
        }
        Mat::from_components(out)
    }

    /// The components `yxw`, in this order.
    pub fn yxw(&self) -> (v: Mat<3, 1, T>)
        ensures
            v@ == Grid::column(seq![self@.cells[1], self@.cells[0], self@.cells[3]]),
    {
        let a = self.components();
        let out = [a[1], a[0], a[3]];
        proof {
            assert(out@ =~= seq![self@.cells[1], self@.cells[0], self@.cells[3]]);
        }
        Mat::from_components(out)
    }

    /// The components `yyx`, in this order.
    pub fn yyx(&self) -> (v: Mat<3, 1, T>)
        ensures
            v@ == Grid::column(seq![self@.cells[1], self@.cells[1], self@.cells[0]]),
    {
        let a = self.components();
        let out = [a[1], a[1], a[0]];
        proof {
            assert(out@ =~= seq![self@.cells[1], self@.cells[1], self@.cells[0]]);
        }
        Mat::from_components(out)
    }

    /// The components `yyy`, in this order.
    pub fn yyy(&self) -> (v: Mat<3, 1, T>)
        ensures
            v@ == Grid::column(seq![self@.cells[1], self@.cells[1], self@.cells[1]]),
    {
        let a = self.components();
        let out = [a[1], a[1], a[1]];
        proof {
            assert(out@ =~= seq![self@.cells[1], self@.cells[1], self@.cells[1]]);
        }
        Mat::from_components(out)
    }

    /// The components `yyz`, in this order.
    pub fn yyz(&self) -> (v: Mat<3, 1, T>)
        ensures
            v@ == Grid::column(seq![self@.cells[1], self@.cells[1], self@.cells[2]]),
    {
        let a = self.components();
        let out = [a[1], a[1], a[2]];
        proof {
            assert(out@ =~= seq![self@.cells[1], self@.cells[1], self@.cells[2]]);
        }
        Mat::from_components(out)
    }

    /// The components `yyw`, in this order.
    pub fn yyw(&self) -> (v: Mat<3, 1, T>)
        ensures
            v@ == Grid::column(seq![self@.cells[1], self@.cells[1], self@.cells[3]]),
    {
        let a = self.components();
        let out = [a[1], a[1], a[3]];
        proof {
            assert(out@ =~= seq![self@.cells[1], self@.cells[1], self@.cells[3]]);
        }
        Mat::from_components(out)
    }

    /// The components `yzx`, in this order.
    pub fn yzx(&self) -> (v: Mat<3, 1, T>)
        ensures
            v@ == Grid::column(seq![self@.cells[1], self@.cells[2], self@.cells[0]]),
    {
        let a = self.components();
        let out = [a[1], a[2], a[0]];
        proof {
            assert(out@ =~= seq![self@.cells[1], self@.cells[2], self@.cells[0]]);
        }
        Mat::from_components(out)
    }

    /// The components `yzy`, in this order.
    pub fn yzy(&self) -> (v: Mat<3, 1, T>)
        ensures
            v@ == Grid::column(seq![self@.cells[1], self@.cells[2], self@.cells[1]]),
    {
        let a = self.components();
        let out = [a[1], a[2], a[1]];
        proof {
            assert(out@ =~= seq![self@.cells[1], self@.cells[2], self@.cells[1]]);
        }
        Mat::from_components(out)
    }

    /// The components `yzz`, in this order.
    pub fn yzz(&self) -> (v: Mat<3, 1, T>)
        ensures
            v@ == Grid::column(seq![self@.cells[1], self@.cells[2], self@.cells[2]]),
    {
        let a = self.components();
        let out = [a[1], a[2], a[2]];
        proof {
            assert(out@ =~= seq![self@.cells[1], self@.cells[2], self@.cells[2]]);
        }
        Mat::from_components(out)
    }

    /// The components `yzw`, in this order.
    pub fn yzw(&self) -> (v: Mat<3, 1, T>)
        ensures
            v@ == Grid::column(seq![self@.cells[1], self@.cells[2], self@.cells[3]]),
    {
        let a = self.components();
        let out = [a[1], a[2], a[3]];
        proof {
            assert(out@ =~= seq![self@.cells[1], self@.cells[2], self@.cells[3]]);
        }
        Mat::from_components(out)
    }

    /// The components `ywx`, in this order.
    pub fn ywx(&self) -> (v: Mat<3, 1, T>)
        ensures
            v@ == Grid::column(seq![self@.cells[1], self@.cells[3], self@.cells[0]]),
    {
        let a = self.components();
        let out = [a[1], a[3], a[0]];
        proof {
            assert(out@ =~= seq![self@.cells[1], self@.cells[3], self@.cells[0]]);
        }
        Mat::from_components(out)
    }

    /// The components `ywy`, in this order.
    pub fn ywy(&self) -> (v: Mat<3, 1, T>)
        ensures
            v@ == Grid::column(seq![self@.cells[1], self@.cells[3], self@.cells[1]]),
    {
        let a = self.components();
        let out = [a[1], a[3], a[1]];
        proof {
            assert(out@ =~= seq![self@.cells[1], self@.cells[3], self@.cells[1]]);
        }
        Mat::from_components(out)
    }

    /// The components `ywz`, in this order.
    pub fn ywz(&self) -> (v: Mat<3, 1, T>)
        ensures
            v@ == Grid::column(seq![self@.cells[1], self@.cells[3], self@.cells[2]]),
    {
        let a = self.components();
        let out = [a[1], a[3], a[2]];
        proof {
            assert(out@ =~= seq![self@.cells[1], self@.cells[3], self@.cells[2]]);
        }
        Mat::from_components(out)
    }

    /// The components `yww`, in this order.
    pub fn yww(&self) -> (v: Mat<3, 1, T>)
        ensures
            v@ == Grid::column(seq![self@.cells[1], self@.cells[3], self@.cells[3]]),
    {
        let a = self.components();
        let out = [a[1], a[3], a[3]];
        proof {
            assert(out@ =~= seq![self@.cells[1], self@.cells[3], self@.cells[3]]);
        }
        Mat::from_components(out)
    }

    /// The components `zxx`, in this order.
    pub fn zxx(&self) -> (v: Mat<3, 1, T>)
        ensures
            v@ == Grid::column(seq![self@.cells[2], self@.cells[0], self@.cells[0]]),
    {
        let a = self.components();
        let out = [a[2], a[0], a[0]];
        proof {
            assert(out@ =~= seq![self@.cells[2], self@.cells[0], self@.cells[0]]);
        }
        Mat::from_components(out)
    }

    /// The components `zxy`, in this order.
    pub fn zxy(&self) -> (v: Mat<3, 1, T>)
        ensures
            v@ == Grid::column(seq![self@.cells[2], self@.cells[0], self@.cells[1]]),
    {
        let a = self.components();
        let out = [a[2], a[0], a[1]];
        proof {
            assert(out@ =~= seq![self@.cells[2], self@.cells[0], self@.cells[1]]);
        }
        Mat::from_components(out)
    }

    /// The components `zxz`, in this order.
    pub fn zxz(&self) -> (v: Mat<3, 1, T>)
        ensures
            v@ == Grid::column(seq![self@.cells[2], self@.cells[0], self@.cells[2]]),
    {
        let a = self.components();
        let out = [a[2], a[0], a[2]];
        proof {
            assert(out@ =~= seq![self@.cells[2], self@.cells[0], self@.cells[2]]);
        }
        Mat::from_components(out)
    }

    /// The components `zxw`, in this order.
    pub fn zxw(&self) -> (v: Mat<3, 1, T>)
        ensures
            v@ == Grid::column(seq![self@.cells[2], self@.cells[0], self@.cells[3]]),
    {
        let a = self.components();
        let out = [a[2], a[0], a[3]];
        proof {
            assert(out@ =~= seq![self@.cells[2], self@.cells[0], self@.cells[3]]);
        }
        Mat::from_components(out)
    }

    /// The components `zyx`, in this order.
    pub fn zyx(&self) -> (v: Mat<3, 1, T>)
        ensures
            v@ == Grid::column(seq![self@.cells[2], self@.cells[1], self@.cells[0]]),
    {
        let a = self.components();
        let out = [a[2], a[1], a[0]];
        proof {
            assert(out@ =~= seq![self@.cells[2], self@.cells[1], self@.cells[0]]);
        }
        Mat::from_components(out)
    }

    /// The components `zyy`, in this order.
    pub fn zyy(&self) -> (v: Mat<3, 1, T>)
        ensures
            v@ == Grid::column(seq![self@.cells[2], self@.cells[1], self@.cells[1]]),
    {
        let a = self.components();
        let out = [a[2], a[1], a[1]];
        proof {
            assert(out@ =~= seq![self@.cells[2], self@.cells[1], self@.cells[1]]);
        }
        Mat::from_components(out)
    }

    /// The components `zyz`, in this order.
    pub fn zyz(&self) -> (v: Mat<3, 1, T>)
        ensures
            v@ == Grid::column(seq![self@.cells[2], self@.cells[1], self@.cells[2]]),
    {
        let a = self.components();
        let out = [a[2], a[1], a[2]];
        proof {
            assert(out@ =~= seq![self@.cells[2], self@.cells[1], self@.cells[2]]);
        }
        Mat::from_components(out)
    }

    /// The components `zyw`, in this order.
    pub fn zyw(&self) -> (v: Mat<3, 1, T>)
        ensures
            v@ == Grid::column(seq![self@.cells[2], self@.cells[1], self@.cells[3]]),
    {
        let a = self.components();
        let out = [a[2], a[1], a[3]];
        proof {
            assert(out@ =~= seq![self@.cells[2], self@.cells[1], self@.cells[3]]);
        }
        Mat::from_components(out)
    }

    /// The components `zzx`, in this order.
    pub fn zzx(&self) -> (v: Mat<3, 1, T>)
        ensures
            v@ == Grid::column(seq![self@.cells[2], self@.cells[2], self@.cells[0]]),
    {
        let a = self.components();
        let out = [a[2], a[2], a[0]];
        proof {
            assert(out@ =~= seq![self@.cells[2], self@.cells[2], self@.cells[0]]);
        }
        Mat::from_components(out)
    }

    /// The components `zzy`, in this order.
    pub fn zzy(&self) -> (v: Mat<3, 1, T>)
        ensures
            v@ == Grid::column(seq![self@.cells[2], self@.cells[2], self@.cells[1]]),
    {
        let a = self.components();
        let out = [a[2], a[2], a[1]];
        proof {
            assert(out@ =~= seq![self@.cells[2], self@.cells[2], self@.cells[1]]);
        }
        Mat::from_components(out)
    }

    /// The components `zzz`, in this order.
    pub fn zzz(&self) -> (v: Mat<3, 1, T>)
        ensures
            v@ == Grid::column(seq![self@.cells[2], self@.cells[2], self@.cells[2]]),
    {
        let a = self.components();
        let out = [a[2], a[2], a[2]];
        proof {
            assert(out@ =~= seq![self@.cells[2], self@.cells[2], self@.cells[2]]);
        }
        Mat::from_components(out)
    }

    /// The components `zzw`, in this order.
    pub fn zzw(&self) -> (v: Mat<3, 1, T>)
        ensures
            v@ == Grid::column(seq![self@.cells[2], self@.cells[2], self@.cells[3]]),
    {
        let a = self.components();
        let out = [a[2], a[2], a[3]];
        proof {
            assert(out@ =~= seq![self@.cells[2], self@.cells[2], self@.cells[3]]);
        }
        Mat::from_components(out)
    }

    /// The components `zwx`, in this order.
    pub fn zwx(&self) -> (v: Mat<3, 1, T>)
        ensures
            v@ == Grid::column(seq![self@.cells[2], self@.cells[3], self@.cells[0]]),
    {
        let a = self.components();
        let out = [a[2], a[3], a[0]];
        proof {
            assert(out@ =~= seq![self@.cells[2], self@.cells[3], self@.cells[0]]);
        }
        Mat::from_components(out)
    }

    /// The components `zwy`, in this order.
    pub fn zwy(&self) -> (v: Mat<3, 1, T>)
        ensures
            v@ == Grid::column(seq![self@.cells[2], self@.cells[3], self@.cells[1]]),
    {
        let a = self.components();
        let out = [a[2], a[3], a[1]];
        proof {
            assert(out@ =~= seq![self@.cells[2], self@.cells[3], self@.cells[1]]);
        }
        Mat::from_components(out)
    }

    /// The components `zwz`, in this order.
    pub fn zwz(&self) -> (v: Mat<3, 1, T>)
        ensures
            v@ == Grid::column(seq![self@.cells[2], self@.cells[3], self@.cells[2]]),
    {
        let a = self.components();
        let out = [a[2], a[3], a[2]];
        proof {
            assert(out@ =~= seq![self@.cells[2], self@.cells[3], self@.cells[2]]);
        }
        Mat::from_components(out)
    }

    /// The components `zww`, in this order.
    pub fn zww(&self) -> (v: Mat<3, 1, T>)
        ensures
            v@ == Grid::column(seq![self@.cells[2], self@.cells[3], self@.cells[3]]),
    {
        let a = self.components();
        let out = [a[2], a[3], a[3]];
        proof {
            assert(out@ =~= seq![self@.cells[2], self@.cells[3], self@.cells[3]]);
        }
        Mat::from_components(out)
    }

    /// The components `wxx`, in this order.
    pub fn wxx(&self) -> (v: Mat<3, 1, T>)
        ensures
            v@ == Grid::column(seq![self@.cells[3], self@.cells[0], self@.cells[0]]),
    {
        let a = self.components();
        let out = [a[3], a[0], a[0]];
        proof {
            assert(out@ =~= seq![self@.cells[3], self@.cells[0], self@.cells[0]]);
        }
        Mat::from_components(out)
    }

    /// The components `wxy`, in this order.
    pub fn wxy(&self) -> (v: Mat<3, 1, T>)
        ensures
            v@ == Grid::column(seq![self@.cells[3], self@.cells[0], self@.cells[1]]),
    {
        let a = self.components();
        let out = [a[3], a[0], a[1]];
        proof {
            assert(out@ =~= seq![self@.cells[3], self@.cells[0], self@.cells[1]]);
        }
        Mat::from_components(out)
    }

    /// The components `wxz`, in this order.
    pub fn wxz(&self) -> (v: Mat<3, 1, T>)
        ensures
            v@ == Grid::column(seq![self@.cells[3], self@.cells[0], self@.cells[2]]),
    {
        let a = self.components();
        let out = [a[3], a[0], a[2]];
        proof {
            assert(out@ =~= seq![self@.cells[3], self@.cells[0], self@.cells[2]]);
        }
        Mat::from_components(out)
    }

    /// The components `wxw`, in this order.
    pub fn wxw(&self) -> (v: Mat<3, 1, T>)
        ensures
            v@ == Grid::column(seq![self@.cells[3], self@.cells[0], self@.cells[3]]),
    {
        let a = self.components();
        let out = [a[3], a[0], a[3]];
        proof {
            assert(out@ =~= seq![self@.cells[3], self@.cells[0], self@.cells[3]]);
        }
        Mat::from_components(out)
    }

    /// The components `wyx`, in this order.
    pub fn wyx(&self) -> (v: Mat<3, 1, T>)
        ensures
            v@ == Grid::column(seq![self@.cells[3], self@.cells[1], self@.cells[0]]),
    {
        let a = self.components();
        let out = [a[3], a[1], a[0]];
        proof {
            assert(out@ =~= seq![self@.cells[3], self@.cells[1], self@.cells[0]]);
        }
        Mat::from_components(out)
    }

    /// The components `wyy`, in this order.
    pub fn wyy(&self) -> (v: Mat<3, 1, T>)
        ensures
            v@ == Grid::column(seq![self@.cells[3], self@.cells[1], self@.cells[1]]),
    {
        let a = self.components();
        let out = [a[3], a[1], a[1]];
        proof {
            assert(out@ =~= seq![self@.cells[3], self@.cells[1], self@.cells[1]]);
        }
        Mat::from_components(out)
    }

    /// The components `wyz`, in this order.
    pub fn wyz(&self) -> (v: Mat<3, 1, T>)
        ensures
            v@ == Grid::column(seq![self@.cells[3], self@.cells[1], self@.cells[2]]),
    {
        let a = self.components();
        let out = [a[3], a[1], a[2]];
        proof {
            assert(out@ =~= seq![self@.cells[3], self@.cells[1], self@.cells[2]]);
        }
        Mat::from_components(out)
    }

    /// The components `wyw`, in this order.
    pub fn wyw(&self) -> (v: Mat<3, 1, T>)
        ensures
            v@ == Grid::column(seq![self@.cells[3], self@.cells[1], self@.cells[3]]),
    {
        let a = self.components();
        let out = [a[3], a[1], a[3]];
        proof {
            assert(out@ =~= seq![self@.cells[3], self@.cells[1], self@.cells[3]]);
        }
        Mat::from_components(out)
    }

    /// The components `wzx`, in this order.
    pub fn wzx(&self) -> (v: Mat<3, 1, T>)
        ensures
            v@ == Grid::column(seq![self@.cells[3], self@.cells[2], self@.cells[0]]),
    {
        let a = self.components();
        let out = [a[3], a[2], a[0]];
        proof {
            assert(out@ =~= seq![self@.cells[3], self@.cells[2], self@.cells[0]]);
        }
        Mat::from_components(out)
    }

    /// The components `wzy`, in this order.
    pub fn wzy(&self) -> (v: Mat<3, 1, T>)
        ensures
            v@ == Grid::column(seq![self@.cells[3], self@.cells[2], self@.cells[1]]),
    {
        let a = self.components();
        let out = [a[3], a[2], a[1]];
        proof {
            assert(out@ =~= seq![self@.cells[3], self@.cells[2], self@.cells[1]]);
        }
        Mat::from_components(out)
    }

    /// The components `wzz`, in this order.
    pub fn wzz(&self) -> (v: Mat<3, 1, T>)
        ensures
            v@ == Grid::column(seq![self@.cells[3], self@.cells[2], self@.cells[2]]),
    {
        let a = self.components();
        let out = [a[3], a[2], a[2]];
        proof {
            assert(out@ =~= seq![self@.cells[3], self@.cells[2], self@.cells[2]]);
        }
        Mat::from_components(out)
    }

    /// The components `wzw`, in this order.
    pub fn wzw(&self) -> (v: Mat<3, 1, T>)
        ensures
            v@ == Grid::column(seq![self@.cells[3], self@.cells[2], self@.cells[3]]),
    {
        let a = self.components();
        let out = [a[3], a[2], a[3]];
        proof {
            assert(out@ =~= seq![self@.cells[3], self@.cells[2], self@.cells[3]]);
        }
        Mat::from_components(out)
    }

    /// The components `wwx`, in this order.
    pub fn wwx(&self) -> (v: Mat<3, 1, T>)
        ensures
            v@ == Grid::column(seq![self@.cells[3], self@.cells[3], self@.cells[0]]),
    {
        let a = self.components();
        let out = [a[3], a[3], a[0]];
        proof {
            assert(out@ =~= seq![self@.cells[3], self@.cells[3], self@.cells[0]]);
        }
        Mat::from_components(out)
    }

    /// The components `wwy`, in this order.
    pub fn wwy(&self) -> (v: Mat<3, 1, T>)
        ensures
            v@ == Grid::column(seq![self@.cells[3], self@.cells[3], self@.cells[1]]),
    {
        let a = self.components();
        let out = [a[3], a[3], a[1]];
        proof {
            assert(out@ =~= seq![self@.cells[3], self@.cells[3], self@.cells[1]]);
        }
        Mat::from_components(out)
    }

    /// The components `wwz`, in this order.
    pub fn wwz(&self) -> (v: Mat<3, 1, T>)
        ensures
            v@ == Grid::column(seq![self@.cells[3], self@.cells[3], self@.cells[2]]),
    {
        let a = self.components();
        let out = [a[3], a[3], a[2]];
        proof {
            assert(out@ =~= seq![self@.cells[3], self@.cells[3], self@.cells[2]]);
        }
        Mat::from_components(out)
    }

    /// The components `www`, in this order.
    pub fn www(&self) -> (v: Mat<3, 1, T>)
        ensures
            v@ == Grid::column(seq![self@.cells[3], self@.cells[3], self@.cells[3]]),
    {
        let a = self.components();
        let out = [a[3], a[3], a[3]];
        proof {
            assert(out@ =~= seq![self@.cells[3], self@.cells[3], self@.cells[3]]);
        }
        Mat::from_components(out)
    }

    /// The components `xxxx`, in this order.
    pub fn xxxx(&self) -> (v: Mat<4, 1, T>)
        ensures
            v@ == Grid::column(seq![self@.cells[0], self@.cells[0], self@.cells[0], self@.cells[0]]),
    {
        let a = self.components();
        let out = [a[0], a[0], a[0], a[0]];
        proof {
            assert(out@ =~= seq![self@.cells[0], self@.cells[0], self@.cells[0], self@.cells[0]]);
        }
        Mat::from_components(out)
    }

    /// The components `xxxy`, in this order.
    pub fn xxxy(&self) -> (v: Mat<4, 1, T>)
        ensures
            v@ == Grid::column(seq![self@.cells[0], self@.cells[0], self@.cells[0], self@.cells[1]]),
    {
        let a = self.components();
        let out = [a[0], a[0], a[0], a[1]];
        proof {
            assert(out@ =~= seq![self@.cells[0], self@.cells[0], self@.cells[0], self@.cells[1]]);
        }
        Mat::from_components(out)
    }

    /// The components `xxxz`, in this order.
    pub fn xxxz(&self) -> (v: Mat<4, 1, T>)
        ensures
            v@ == Grid::column(seq![self@.cells[0], self@.cells[0], self@.cells[0], self@.cells[2]]),
    {
        let a = self.components();
        let out = [a[0], a[0], a[0], a[2]];
        proof {
            assert(out@ =~= seq![self@.cells[0], self@.cells[0], self@.cells[0], self@.cells[2]]);
        }
        Mat::from_components(out)
    }

    /// The components `xxxw`, in this order.
    pub fn xxxw(&self) -> (v: Mat<4, 1, T>)
        ensures
            v@ == Grid::column(seq![self@.cells[0], self@.cells[0], self@.cells[0], self@.cells[3]]),
    {
        let a = self.components();
        let out = [a[0], a[0], a[0], a[3]];
        proof {
            assert(out@ =~= seq![self@.cells[0], self@.cells[0], self@.cells[0], self@.cells[3]]);
        }
        Mat::from_components(out)
    }

    /// The components `xxyx`, in this order.
    pub fn xxyx(&self) -> (v: Mat<4, 1, T>)
        ensures
            v@ == Grid::column(seq![self@.cells[0], self@.cells[0], self@.cells[1], self@.cells[0]]),
    {
        let a = self.components();
        let out = [a[0], a[0], a[1], a[0]];
        proof {
            assert(out@ =~= seq![self@.cells[0], self@.cells[0], self@.cells[1], self@.cells[0]]);
        }
        Mat::from_components(out)
    }

    /// The components `xxyy`, in this order.
    pub fn xxyy(&self) -> (v: Mat<4, 1, T>)
        ensures
            v@ == Grid::column(seq![self@.cells[0], self@.cells[0], self@.cells[1], self@.cells[1]]),
    {
        let a = self.components();
        let out = [a[0], a[0], a[1], a[1]];
        proof {
            assert(out@ =~= seq![self@.cells[0], self@.cells[0], self@.cells[1], self@.cells[1]]);
        }
        Mat::from_components(out)
    }

    /// The components `xxyz`, in this order.
    pub fn xxyz(&self) -> (v: Mat<4, 1, T>)
        ensures
            v@ == Grid::column(seq![self@.cells[0], self@.cells[0], self@.cells[1], self@.cells[2]]),
    {
        let a = self.components();
        let out = [a[0], a[0], a[1], a[2]];
        proof {
            assert(out@ =~= seq![self@.cells[0], self@.cells[0], self@.cells[1], self@.cells[2]]);
        }
        Mat::from_components(out)
    }

    /// The components `xxyw`, in this order.
    pub fn xxyw(&self) -> (v: Mat<4, 1, T>)
        ensures
            v@ == Grid::column(seq![self@.cells[0], self@.cells[0], self@.cells[1], self@.cells[3]]),
    {
        let a = self.components();
        let out = [a[0], a[0], a[1], a[3]];
        proof {
            assert(out@ =~= seq![self@.cells[0], self@.cells[0], self@.cells[1], self@.cells[3]]);
        }
        Mat::from_components(out)
    }

    /// The components `xxzx`, in this order.
    pub fn xxzx(&self) -> (v: Mat<4, 1, T>)
        ensures
            v@ == Grid::column(seq![self@.cells[0], self@.cells[0], self@.cells[2], self@.cells[0]]),
    {
        let a = self.components();
        let out = [a[0], a[0], a[2], a[0]];
        proof {
            assert(out@ =~= seq![self@.cells[0], self@.cells[0], self@.cells[2], self@.cells[0]]);
        }
        Mat::from_components(out)
    }

    /// The components `xxzy`, in this order.
    pub fn xxzy(&self) -> (v: Mat<4, 1, T>)
        ensures
            v@ == Grid::column(seq![self@.cells[0], self@.cells[0], self@.cells[2], self@.cells[1]]),
    {
        let a = self.components();
        let out = [a[0], a[0], a[2], a[1]];
        proof {
            assert(out@ =~= seq![self@.cells[0], self@.cells[0], self@.cells[2], self@.cells[1]]);
        }
        Mat::from_components(out)
    }

    /// The components `xxzz`, in this order.
    pub fn xxzz(&self) -> (v: Mat<4, 1, T>)
        ensures
            v@ == Grid::column(seq![self@.cells[0], self@.cells[0], self@.cells[2], self@.cells[2]]),
    {
        let a = self.components();
        let out = [a[0], a[0], a[2], a[2]];
        proof {
            assert(out@ =~= seq![self@.cells[0], self@.cells[0], self@.cells[2], self@.cells[2]]);
        }
        Mat::from_components(out)
    }

    /// The components `xxzw`, in this order.
    pub fn xxzw(&self) -> (v: Mat<4, 1, T>)
        ensures
            v@ == Grid::column(seq![self@.cells[0], self@.cells[0], self@.cells[2], self@.cells[3]]),
    {
        let a = self.components();
        let out = [a[0], a[0], a[2], a[3]];
        proof {
            assert(out@ =~= seq![self@.cells[0], self@.cells[0], self@.cells[2], self@.cells[3]]);
        }
        Mat::from_components(out)
    }

    /// The components `xxwx`, in this order.
    pub fn xxwx(&self) -> (v: Mat<4, 1, T>)
        ensures
            v@ == Grid::column(seq![self@.cells[0], self@.cells[0], self@.cells[3], self@.cells[0]]),
    {
        let a = self.components();
        let out = [a[0], a[0], a[3], a[0]];
        proof {
            assert(out@ =~= seq![self@.cells[0], self@.cells[0], self@.cells[3], self@.cells[0]]);
        }
        Mat::from_components(out)
    }

    /// The components `xxwy`, in this order.
    pub fn xxwy(&self) -> (v: Mat<4, 1, T>)
        ensures
            v@ == Grid::column(seq![self@.cells[0], self@.cells[0], self@.cells[3], self@.cells[1]]),
    {
        let a = self.components();
        let out = [a[0], a[0], a[3], a[1]];
        proof {
            assert(out@ =~= seq![self@.cells[0], self@.cells[0], self@.cells[3], self@.cells[1]]);
        }
        Mat::from_components(out)
    }

    /// The components `xxwz`, in this order.
    pub fn xxwz(&self) -> (v: Mat<4, 1, T>)
        ensures
            v@ == Grid::column(seq![self@.cells[0], self@.cells[0], self@.cells[3], self@.cells[2]]),
    {
        let a = self.components();
        let out = [a[0], a[0], a[3], a[2]];
        proof {
            assert(out@ =~= seq![self@.cells[0], self@.cells[0], self@.cells[3], self@.cells[2]]);
        }
        Mat::from_components(out)
    }

    /// The components `xxww`, in this order.
    pub fn xxww(&self) -> (v: Mat<4, 1, T>)
        ensures
            v@ == Grid::column(seq![self@.cells[0], self@.cells[0], self@.cells[3], self@.cells[3]]),
    {
        let a = self.components();
        let out = [a[0], a[0], a[3], a[3]];
        proof {
            assert(out@ =~= seq![self@.cells[0], self@.cells[0], self@.cells[3], self@.cells[3]]);
        }
        Mat::from_components(out)
    }

    /// The components `xyxx`, in this order.
    pub fn xyxx(&self) -> (v: Mat<4, 1, T>)
        ensures
            v@ == Grid::column(seq![self@.cells[0], self@.cells[1], self@.cells[0], self@.cells[0]]),
    {
        let a = self.components();
        let out = [a[0], a[1], a[0], a[0]];
        proof {
            assert(out@ =~= seq![self@.cells[0], self@.cells[1], self@.cells[0], self@.cells[0]]);
        }
        Mat::from_components(out)
    }

    /// The components `xyxy`, in this order.
    pub fn xyxy(&self) -> (v: Mat<4, 1, T>)
        ensures
            v@ == Grid::column(seq![self@.cells[0], self@.cells[1], self@.cells[0], self@.cells[1]]),
    {
        let a = self.components();
        let out = [a[0], a[1], a[0], a[1]];
        proof {
            assert(out@ =~= seq![self@.cells[0], self@.cells[1], self@.cells[0], self@.cells[1]]);
        }
        Mat::from_components(out)
    }

    /// The components `xyxz`, in this order.
    pub fn xyxz(&self) -> (v: Mat<4, 1, T>)
        ensures
            v@ == Grid::column(seq![self@.cells[0], self@.cells[1], self@.cells[0], self@.cells[2]]),
    {
        let a = self.components();
        let out = [a[0], a[1], a[0], a[2]];
        proof {
            assert(out@ =~= seq![self@.cells[0], self@.cells[1], self@.cells[0], self@.cells[2]]);
        }
        Mat::from_components(out)
    }

    /// The components `xyxw`, in this order.
    pub fn xyxw(&self) -> (v: Mat<4, 1, T>)
        ensures
            v@ == Grid::column(seq![self@.cells[0], self@.cells[1], self@.cells[0], self@.cells[3]]),
    {
        let a = self.components();
        let out = [a[0], a[1], a[0], a[3]];
        proof {
            assert(out@ =~= seq![self@.cells[0], self@.cells[1], self@.cells[0], self@.cells[3]]);
        }
        Mat::from_components(out)
    }

    /// The components `xyyx`, in this order.
    pub fn xyyx(&self) -> (v: Mat<4, 1, T>)
        ensures
            v@ == Grid::column(seq![self@.cells[0], self@.cells[1], self@.cells[1], self@.cells[0]]),
    {
        let a = self.components();
        let out = [a[0], a[1], a[1], a[0]];
        proof {
            assert(out@ =~= seq![self@.cells[0], self@.cells[1], self@.cells[1], self@.cells[0]]);
        }
        Mat::from_components(out)
    }

    /// The components `xyyy`, in this order.
    pub fn xyyy(&self) -> (v: Mat<4, 1, T>)
        ensures
            v@ == Grid::column(seq![self@.cells[0], self@.cells[1], self@.cells[1], self@.cells[1]]),
    {
        let a = self.components();
        let out = [a[0], a[1], a[1], a[1]];
        proof {
            assert(out@ =~= seq![self@.cells[0], self@.cells[1], self@.cells[1], self@.cells[1]]);
        }
        Mat::from_components(out)
    }

    /// The components `xyyz`, in this order.
    pub fn xyyz(&self) -> (v: Mat<4, 1, T>)
        ensures
            v@ == Grid::column(seq![self@.cells[0], self@.cells[1], self@.cells[1], self@.cells[2]]),
    {
        let a = self.components();
        let out = [a[0], a[1], a[1], a[2]];
        proof {
            assert(out@ =~= seq![self@.cells[0], self@.cells[1], self@.cells[1], self@.cells[2]]);
        }
        Mat::from_components(out)
    }

    /// The components `xyyw`, in this order.
    pub fn xyyw(&self) -> (v: Mat<4, 1, T>)
        ensures
            v@ == Grid::column(seq![self@.cells[0], self@.cells[1], self@.cells[1], self@.cells[3]]),
    {
        let a = self.components();
        let out = [a[0], a[1], a[1], a[3]];
        proof {
            assert(out@ =~= seq![self@.cells[0], self@.cells[1], self@.cells[1], self@.cells[3]]);
        }
        Mat::from_components(out)
    }

    /// The components `xyzx`, in this order.
    pub fn xyzx(&self) -> (v: Mat<4, 1, T>)
        ensures
            v@ == Grid::column(seq![self@.cells[0], self@.cells[1], self@.cells[2], self@.cells[0]]),
    {
        let a = self.components();
        let out = [a[0], a[1], a[2], a[0]];
        proof {
            assert(out@ =~= seq![self@.cells[0], self@.cells[1], self@.cells[2], self@.cells[0]]);
        }
        Mat::from_components(out)
    }

    /// The components `xyzy`, in this order.
    pub fn xyzy(&self) -> (v: Mat<4, 1, T>)
        ensures
            v@ == Grid::column(seq![self@.cells[0], self@.cells[1], self@.cells[2], self@.cells[1]]),
    {
        let a = self.components();
        let out = [a[0], a[1], a[2], a[1]];
        proof {
            assert(out@ =~= seq![self@.cells[0], self@.cells[1], self@.cells[2], self@.cells[1]]);
        }
        Mat::from_components(out)
    }

    /// The components `xyzz`, in this order.
    pub fn xyzz(&self) -> (v: Mat<4, 1, T>)
        ensures
            v@ == Grid::column(seq![self@.cells[0], self@.cells[1], self@.cells[2], self@.cells[2]]),
    {
        let a = self.components();
        let out = [a[0], a[1], a[2], a[2]];
        proof {
            assert(out@ =~= seq![self@.cells[0], self@.cells[1], self@.cells[2], self@.cells[2]]);
        }
        Mat::from_components(out)
    }

    /// The components `xyzw`, in this order.
    pub fn xyzw(&self) -> (v: Mat<4, 1, T>)
        ensures
            v@ == Grid::column(seq![self@.cells[0], self@.cells[1], self@.cells[2], self@.cells[3]]),
    {
        let a = self.components();
        let out = [a[0], a[1], a[2], a[3]];
        proof {
            assert(out@ =~= seq![self@.cells[0], self@.cells[1], self@.cells[2], self@.cells[3]]);
        }
        Mat::from_components(out)
    }

    /// The components `xywx`, in this order.
    pub fn xywx(&self) -> (v: Mat<4, 1, T>)
        ensures
            v@ == Grid::column(seq![self@.cells[0], self@.cells[1], self@.cells[3], self@.cells[0]]),
    {
        let a = self.components();
        let out = [a[0], a[1], a[3], a[0]];
        proof {
            assert(out@ =~= seq![self@.cells[0], self@.cells[1], self@.cells[3], self@.cells[0]]);
        }
        Mat::from_components(out)
    }

    /// The components `xywy`, in this order.
    pub fn xywy(&self) -> (v: Mat<4, 1, T>)
        ensures
            v@ == Grid::column(seq![self@.cells[0], self@.cells[1], self@.cells[3], self@.cells[1]]),
    {
        let a = self.components();
        let out = [a[0], a[1], a[3], a[1]];
        proof {
            assert(out@ =~= seq![self@.cells[0], self@.cells[1], self@.cells[3], self@.cells[1]]);
        }
        Mat::from_components(out)
    }

    /// The components `xywz`, in this order.
    pub fn xywz(&self) -> (v: Mat<4, 1, T>)
        ensures
            v@ == Grid::column(seq![self@.cells[0], self@.cells[1], self@.cells[3], self@.cells[2]]),
    {
        let a = self.components();
        let out = [a[0], a[1], a[3], a[2]];
        proof {
            assert(out@ =~= seq![self@.cells[0], self@.cells[1], self@.cells[3], self@.cells[2]]);
        }
        Mat::from_components(out)
    }

    /// The components `xyww`, in this order.
    pub fn xyww(&self) -> (v: Mat<4, 1, T>)
        ensures
            v@ == Grid::column(seq![self@.cells[0], self@.cells[1], self@.cells[3], self@.cells[3]]),
    {
        let a = self.components();
        let out = [a[0], a[1], a[3], a[3]];
        proof {
            assert(out@ =~= seq![self@.cells[0], self@.cells[1], self@.cells[3], self@.cells[3]]);
        }
        Mat::from_components(out)
    }

    /// The components `xzxx`, in this order.
    pub fn xzxx(&self) -> (v: Mat<4, 1, T>)
        ensures
            v@ == Grid::column(seq![self@.cells[0], self@.cells[2], self@.cells[0], self@.cells[0]]),
    {
        let a = self.components();
        let out = [a[0], a[2], a[0], a[0]];
        proof {
            assert(out@ =~= seq![self@.cells[0], self@.cells[2], self@.cells[0], self@.cells[0]]);
        }
        Mat::from_components(out)
    }

    /// The components `xzxy`, in this order.
    pub fn xzxy(&self) -> (v: Mat<4, 1, T>)
        ensures
            v@ == Grid::column(seq![self@.cells[0], self@.cells[2], self@.cells[0], self@.cells[1]]),
    {
        let a = self.components();
        let out = [a[0], a[2], a[0], a[1]];
        proof {
            assert(out@ =~= seq![self@.cells[0], self@.cells[2], self@.cells[0], self@.cells[1]]);
        }
        Mat::from_components(out)
    }

    /// The components `xzxz`, in this order.
    pub fn xzxz(&self) -> (v: Mat<4, 1, T>)
        ensures
            v@ == Grid::column(seq![self@.cells[0], self@.cells[2], self@.cells[0], self@.cells[2]]),
    {
        let a = self.components();
        let out = [a[0], a[2], a[0], a[2]];
        proof {
            assert(out@ =~= seq![self@.cells[0], self@.cells[2], self@.cells[0], self@.cells[2]]);
        }
        Mat::from_components(out)
    }

    /// The components `xzxw`, in this order.
    pub fn xzxw(&self) -> (v: Mat<4, 1, T>)
        ensures
            v@ == Grid::column(seq![self@.cells[0], self@.cells[2], self@.cells[0], self@.cells[3]]),
    {
        let a = self.components();
        let out = [a[0], a[2], a[0], a[3]];
        proof {
            assert(out@ =~= seq![self@.cells[0], self@.cells[2], self@.cells[0], self@.cells[3]]);
        }
        Mat::from_components(out)
    }

    /// The components `xzyx`, in this order.
    pub fn xzyx(&self) -> (v: Mat<4, 1, T>)
        ensures
            v@ == Grid::column(seq![self@.cells[0], self@.cells[2], self@.cells[1], self@.cells[0]]),
    {
        let a = self.components();
        let out = [a[0], a[2], a[1], a[0]];
        proof {
            assert(out@ =~= seq![self@.cells[0], self@.cells[2], self@.cells[1], self@.cells[0]]);
        }
        Mat::from_components(out)
    }

    /// The components `xzyy`, in this order.
    pub fn xzyy(&self) -> (v: Mat<4, 1, T>)
        ensures
            v@ == Grid::column(seq![self@.cells[0], self@.cells[2], self@.cells[1], self@.cells[1]]),
    {
        let a = self.components();
        let out = [a[0], a[2], a[1], a[1]];
        proof {
            assert(out@ =~= seq![self@.cells[0], self@.cells[2], self@.cells[1], self@.cells[1]]);
        }
        Mat::from_components(out)
    }

    /// The components `xzyz`, in this order.
    pub fn xzyz(&self) -> (v: Mat<4, 1, T>)
        ensures
            v@ == Grid::column(seq![self@.cells[0], self@.cells[2], self@.cells[1], self@.cells[2]]),
    {
        let a = self.components();
        let out = [a[0], a[2], a[1], a[2]];
        proof {
            assert(out@ =~= seq![self@.cells[0], self@.cells[2], self@.cells[1], self@.cells[2]]);
        }
        Mat::from_components(out)
    }

    /// The components `xzyw`, in this order.
    pub fn xzyw(&self) -> (v: Mat<4, 1, T>)
        ensures
            v@ == Grid::column(seq![self@.cells[0], self@.cells[2], self@.cells[1], self@.cells[3]]),
    {
        let a = self.components();
        let out = [a[0], a[2], a[1], a[3]];
        proof {
            assert(out@ =~= seq![self@.cells[0], self@.cells[2], self@.cells[1], self@.cells[3]]);
        }
        Mat::from_components(out)
    }

    /// The components `xzzx`, in this order.
    pub fn xzzx(&self) -> (v: Mat<4, 1, T>)
        ensures
            v@ == Grid::column(seq![self@.cells[0], self@.cells[2], self@.cells[2], self@.cells[0]]),
    {
        let a = self.components();
        let out = [a[0], a[2], a[2], a[0]];
        proof {
            assert(out@ =~= seq![self@.cells[0], self@.cells[2], self@.cells[2], self@.cells[0]]);
        }
        Mat::from_components(out)
    }

    /// The components `xzzy`, in this order.
    pub fn xzzy(&self) -> (v: Mat<4, 1, T>)
        ensures
            v@ == Grid::column(seq![self@.cells[0], self@.cells[2], self@.cells[2], self@.cells[1]]),
    {
        let a = self.components();
        let out = [a[0], a[2], a[2], a[1]];
        proof {
            assert(out@ =~= seq![self@.cells[0], self@.cells[2], self@.cells[2], self@.cells[1]]);
        }
        Mat::from_components(out)
    }

    /// The components `xzzz`, in this order.
    pub fn xzzz(&self) -> (v: Mat<4, 1, T>)
        ensures
            v@ == Grid::column(seq![self@.cells[0], self@.cells[2], self@.cells[2], self@.cells[2]]),
    {
        let a = self.components();
        let out = [a[0], a[2], a[2], a[2]];
        proof {
            assert(out@ =~= seq![self@.cells[0], self@.cells[2], self@.cells[2], self@.cells[2]]);
        }
        Mat::from_components(out)
    }

    /// The components `xzzw`, in this order.
    pub fn xzzw(&self) -> (v: Mat<4, 1, T>)
        ensures
            v@ == Grid::column(seq![self@.cells[0], self@.cells[2], self@.cells[2], self@.cells[3]]),
    {
        let a = self.components();
        let out = [a[0], a[2], a[2], a[3]];
        proof {
            assert(out@ =~= seq![self@.cells[0], self@.cells[2], self@.cells[2], self@.cells[3]]);
        }
        Mat::from_components(out)
    }

    /// The components `xzwx`, in this order.
    pub fn xzwx(&self) -> (v: Mat<4, 1, T>)
        ensures
            v@ == Grid::column(seq![self@.cells[0], self@.cells[2], self@.cells[3], self@.cells[0]]),
    {
        let a = self.components();
        let out = [a[0], a[2], a[3], a[0]];
        proof {
            assert(out@ =~= seq![self@.cells[0], self@.cells[2], self@.cells[3], self@.cells[0]]);
        }
        Mat::from_components(out)
    }

    /// The components `xzwy`, in this order.
    pub fn xzwy(&self) -> (v: Mat<4, 1, T>)
        ensures
            v@ == Grid::column(seq![self@.cells[0], self@.cells[2], self@.cells[3], self@.cells[1]]),
    {
        let a = self.components();
        let out = [a[0], a[2], a[3], a[1]];
        proof {
            assert(out@ =~= seq![self@.cells[0], self@.cells[2], self@.cells[3], self@.cells[1]]);
        }
        Mat::from_components(out)
    }

    /// The components `xzwz`, in this order.
    pub fn xzwz(&self) -> (v: Mat<4, 1, T>)
        ensures
            v@ == Grid::column(seq![self@.cells[0], self@.cells[2], self@.cells[3], self@.cells[2]]),
    {
        let a = self.components();
        let out = [a[0], a[2], a[3], a[2]];
        proof {
            assert(out@ =~= seq![self@.cells[0], self@.cells[2], self@.cells[3], self@.cells[2]]);
        }
        Mat::from_components(out)
    }

    /// The components `xzww`, in this order.
    pub fn xzww(&self) -> (v: Mat<4, 1, T>)
        ensures
            v@ == Grid::column(seq![self@.cells[0], self@.cells[2], self@.cells[3], self@.cells[3]]),
    {
        let a = self.components();
        let out = [a[0], a[2], a[3], a[3]];
        proof {
            assert(out@ =~= seq![self@.cells[0], self@.cells[2], self@.cells[3], self@.cells[3]]);
        }
        Mat::from_components(out)
    }

    /// The components `xwxx`, in this order.
    pub fn xwxx(&self) -> (v: Mat<4, 1, T>)
        ensures
            v@ == Grid::column(seq![self@.cells[0], self@.cells[3], self@.cells[0], self@.cells[0]]),
    {
        let a = self.components();
        let out = [a[0], a[3], a[0], a[0]];
        proof {
            assert(out@ =~= seq![self@.cells[0], self@.cells[3], self@.cells[0], self@.cells[0]]);
        }
        Mat::from_components(out)
    }

    /// The components `xwxy`, in this order.
    pub fn xwxy(&self) -> (v: Mat<4, 1, T>)
        ensures
            v@ == Grid::column(seq![self@.cells[0], self@.cells[3], self@.cells[0], self@.cells[1]]),
    {
        let a = self.components();
        let out = [a[0], a[3], a[0], a[1]];
        proof {
            assert(out@ =~= seq![self@.cells[0], self@.cells[3], self@.cells[0], self@.cells[1]]);
        }
        Mat::from_components(out)
    }

    /// The components `xwxz`, in this order.
    pub fn xwxz(&self) -> (v: Mat<4, 1, T>)
        ensures
            v@ == Grid::column(seq![self@.cells[0], self@.cells[3], self@.cells[0], self@.cells[2]]),
    {
        let a = self.components();
        let out = [a[0], a[3], a[0], a[2]];
        proof {
            assert(out@ =~= seq![self@.cells[0], self@.cells[3], self@.cells[0], self@.cells[2]]);
        }
        Mat::from_components(out)
    }

    /// The components `xwxw`, in this order.
    pub fn xwxw(&self) -> (v: Mat<4, 1, T>)
        ensures
            v@ == Grid::column(seq![self@.cells[0], self@.cells[3], self@.cells[0], self@.cells[3]]),
    {
        let a = self.components();
        let out = [a[0], a[3], a[0], a[3]];
        proof {
            assert(out@ =~= seq![self@.cells[0], self@.cells[3], self@.cells[0], self@.cells[3]]);
        }
        Mat::from_components(out)
    }

    /// The components `xwyx`, in this order.
    pub fn xwyx(&self) -> (v: Mat<4, 1, T>)
        ensures
            v@ == Grid::column(seq![self@.cells[0], self@.cells[3], self@.cells[1], self@.cells[0]]),
    {
        let a = self.components();
        let out = [a[0], a[3], a[1], a[0]];
        proof {
            assert(out@ =~= seq![self@.cells[0], self@.cells[3], self@.cells[1], self@.cells[0]]);
        }
        Mat::from_components(out)
    }

    /// The components `xwyy`, in this order.
    pub fn xwyy(&self) -> (v: Mat<4, 1, T>)
        ensures
            v@ == Grid::column(seq![self@.cells[0], self@.cells[3], self@.cells[1], self@.cells[1]]),
    {
        let a = self.components();
        let out = [a[0], a[3], a[1], a[1]];
        proof {
            assert(out@ =~= seq![self@.cells[0], self@.cells[3], self@.cells[1], self@.cells[1]]);
        }
        Mat::from_components(out)
    }

    /// The components `xwyz`, in this order.
    pub fn xwyz(&self) -> (v: Mat<4, 1, T>)
        ensures
            v@ == Grid::column(seq![self@.cells[0], self@.cells[3], self@.cells[1], self@.cells[2]]),
    {
        let a = self.components();
        let out = [a[0], a[3], a[1], a[2]];
        proof {
            assert(out@ =~= seq![self@.cells[0], self@.cells[3], self@.cells[1], self@.cells[2]]);
        }
        Mat::from_components(out)
    }

    /// The components `xwyw`, in this order.
    pub fn xwyw(&self) -> (v: Mat<4, 1, T>)
        ensures
            v@ == Grid::column(seq![self@.cells[0], self@.cells[3], self@.cells[1], self@.cells[3]]),
    {
        let a = self.components();
        let out = [a[0], a[3], a[1], a[3]];
        proof {
            assert(out@ =~= seq![self@.cells[0], self@.cells[3], self@.cells[1], self@.cells[3]]);
        }
        Mat::from_components(out)
    }

    /// The components `xwzx`, in this order.
    pub fn xwzx(&self) -> (v: Mat<4, 1, T>)
        ensures
            v@ == Grid::column(seq![self@.cells[0], self@.cells[3], self@.cells[2], self@.cells[0]]),
    {
        let a = self.components();
        let out = [a[0], a[3], a[2], a[0]];
        proof {
            assert(out@ =~= seq![self@.cells[0], self@.cells[3], self@.cells[2], self@.cells[0]]);
        }
        Mat::from_components(out)
    }

    /// The components `xwzy`, in this order.
    pub fn xwzy(&self) -> (v: Mat<4, 1, T>)
        ensures
            v@ == Grid::column(seq![self@.cells[0], self@.cells[3], self@.cells[2], self@.cells[1]]),
    {
        let a = self.components();
        let out = [a[0], a[3], a[2], a[1]];
        proof {
            assert(out@ =~= seq![self@.cells[0], self@.cells[3], self@.cells[2], self@.cells[1]]);
        }
        Mat::from_components(out)
    }

    /// The components `xwzz`, in this order.
    pub fn xwzz(&self) -> (v: Mat<4, 1, T>)
        ensures
            v@ == Grid::column(seq![self@.cells[0], self@.cells[3], self@.cells[2], self@.cells[2]]),
    {
        let a = self.components();
        let out = [a[0], a[3], a[2], a[2]];
        proof {
            assert(out@ =~= seq![self@.cells[0], self@.cells[3], self@.cells[2], self@.cells[2]]);
        }
        Mat::from_components(out)
    }

    /// The components `xwzw`, in this order.
    pub fn xwzw(&self) -> (v: Mat<4, 1, T>)
        ensures
            v@ == Grid::column(seq![self@.cells[0], self@.cells[3], self@.cells[2], self@.cells[3]]),
    {
        let a = self.components();
        let out = [a[0], a[3], a[2], a[3]];
        proof {
            assert(out@ =~= seq![self@.cells[0], self@.cells[3], self@.cells[2], self@.cells[3]]);
        }
        Mat::from_components(out)
    }

    /// The components `xwwx`, in this order.
    pub fn xwwx(&self) -> (v: Mat<4, 1, T>)
        ensures
            v@ == Grid::column(seq![self@.cells[0], self@.cells[3], self@.cells[3], self@.cells[0]]),
    {
        let a = self.components();
        let out = [a[0], a[3], a[3], a[0]];
        proof {
            assert(out@ =~= seq![self@.cells[0], self@.cells[3], self@.cells[3], self@.cells[0]]);
        }
        Mat::from_components(out)
    }

    /// The components `xwwy`, in this order.
    pub fn xwwy(&self) -> (v: Mat<4, 1, T>)
        ensures
            v@ == Grid::column(seq![self@.cells[0], self@.cells[3], self@.cells[3], self@.cells[1]]),
    {
        let a = self.components();
        let out = [a[0], a[3], a[3], a[1]];
        proof {
            assert(out@ =~= seq![self@.cells[0], self@.cells[3], self@.cells[3], self@.cells[1]]);
        }
        Mat::from_components(out)
    }

    /// The components `xwwz`, in this order.
    pub fn xwwz(&self) -> (v: Mat<4, 1, T>)
        ensures
            v@ == Grid::column(seq![self@.cells[0], self@.cells[3], self@.cells[3], self@.cells[2]]),
    {
        let a = self.components();
        let out = [a[0], a[3], a[3], a[2]];
        proof {
            assert(out@ =~= seq![self@.cells[0], self@.cells[3], self@.cells[3], self@.cells[2]]);
        }
        Mat::from_components(out)
    }

    /// The components `xwww`, in this order.
    pub fn xwww(&self) -> (v: Mat<4, 1, T>)
        ensures
            v@ == Grid::column(seq![self@.cells[0], self@.cells[3], self@.cells[3], self@.cells[3]]),
    {
        let a = self.components();
        let out = [a[0], a[3], a[3], a[3]];
        proof {
            assert(out@ =~= seq![self@.cells[0], self@.cells[3], self@.cells[3], self@.cells[3]]);
        }
        Mat::from_components(out)
    }

    /// The components `yxxx`, in this order.
    pub fn yxxx(&self) -> (v: Mat<4, 1, T>)
        ensures
            v@ == Grid::column(seq![self@.cells[1], self@.cells[0], self@.cells[0], self@.cells[0]]),
    {
        let a = self.components();
        let out = [a[1], a[0], a[0], a[0]];
        proof {
            assert(out@ =~= seq![self@.cells[1], self@.cells[0], self@.cells[0], self@.cells[0]]);
        }
        Mat::from_components(out)
    }

    /// The components `yxxy`, in this order.
    pub fn yxxy(&self) -> (v: Mat<4, 1, T>)
        ensures
            v@ == Grid::column(seq![self@.cells[1], self@.cells[0], self@.cells[0], self@.cells[1]]),
    {
        let a = self.components();
        let out = [a[1], a[0], a[0], a[1]];
        proof {
            assert(out@ =~= seq![self@.cells[1], self@.cells[0], self@.cells[0], self@.cells[1]]);
        }
        Mat::from_components(out)
    }

    /// The components `yxxz`, in this order.
    pub fn yxxz(&self) -> (v: Mat<4, 1, T>)
        ensures
            v@ == Grid::column(seq![self@.cells[1], self@.cells[0], self@.cells[0], self@.cells[2]]),
    {
        let a = self.components();
        let out = [a[1], a[0], a[0], a[2]];
        proof {
            assert(out@ =~= seq![self@.cells[1], self@.cells[0], self@.cells[0], self@.cells[2]]);
        }
        Mat::from_components(out)
    }

    /// The components `yxxw`, in this order.
    pub fn yxxw(&self) -> (v: Mat<4, 1, T>)
        ensures
            v@ == Grid::column(seq![self@.cells[1], self@.cells[0], self@.cells[0], self@.cells[3]]),
    {
        let a = self.components();
        let out = [a[1], a[0], a[0], a[3]];
        proof {
            assert(out@ =~= seq![self@.cells[1], self@.cells[0], self@.cells[0], self@.cells[3]]);
        }
        Mat::from_components(out)
    }

    /// The components `yxyx`, in this order.
    pub fn yxyx(&self) -> (v: Mat<4, 1, T>)
        ensures
            v@ == Grid::column(seq![self@.cells[1], self@.cells[0], self@.cells[1], self@.cells[0]]),
    {
        let a = self.components();
        let out = [a[1], a[0], a[1], a[0]];
        proof {
            assert(out@ =~= seq![self@.cells[1], self@.cells[0], self@.cells[1], self@.cells[0]]);
        }
        Mat::from_components(out)
    }

    /// The components `yxyy`, in this order.
    pub fn yxyy(&self) -> (v: Mat<4, 1, T>)
        ensures
            v@ == Grid::column(seq![self@.cells[1], self@.cells[0], self@.cells[1], self@.cells[1]]),
    {
        let a = self.components();
        let out = [a[1], a[0], a[1], a[1]];
        proof {
            assert(out@ =~= seq![self@.cells[1], self@.cells[0], self@.cells[1], self@.cells[1]]);
        }
        Mat::from_components(out)
    }

    /// The components `yxyz`, in this order.
    pub fn yxyz(&self) -> (v: Mat<4, 1, T>)
        ensures
            v@ == Grid::column(seq![self@.cells[1], self@.cells[0], self@.cells[1], self@.cells[2]]),
    {
        let a = self.components();
        let out = [a[1], a[0], a[1], a[2]];
        proof {
            assert(out@ =~= seq![self@.cells[1], self@.cells[0], self@.cells[1], self@.cells[2]]);
        }
        Mat::from_components(out)
    }

    /// The components `yxyw`, in this order.
    pub fn yxyw(&self) -> (v: Mat<4, 1, T>)
        ensures
            v@ == Grid::column(seq![self@.cells[1], self@.cells[0], self@.cells[1], self@.cells[3]]),
    {
        let a = self.components();
        let out = [a[1], a[0], a[1], a[3]];
        proof {
            assert(out@ =~= seq![self@.cells[1], self@.cells[0], self@.cells[1], self@.cells[3]]);
        }
        Mat::from_components(out)
    }

    /// The components `yxzx`, in this order.
    pub fn yxzx(&self) -> (v: Mat<4, 1, T>)
        ensures
            v@ == Grid::column(seq![self@.cells[1], self@.cells[0], self@.cells[2], self@.cells[0]]),
    {
        let a = self.components();
        let out = [a[1], a[0], a[2], a[0]];
        proof {
            assert(out@ =~= seq![self@.cells[1], self@.cells[0], self@.cells[2], self@.cells[0]]);
        }
        Mat::from_components(out)
    }

    /// The components `yxzy`, in this order.
    pub fn yxzy(&self) -> (v: Mat<4, 1, T>)
        ensures
            v@ == Grid::column(seq![self@.cells[1], self@.cells[0], self@.cells[2], self@.cells[1]]),
    {
        let a = self.components();
        let out = [a[1], a[0], a[2], a[1]];
        proof {
            assert(out@ =~= seq![self@.cells[1], self@.cells[0], self@.cells[2], self@.cells[1]]);
        }
        Mat::from_components(out)
    }

    /// The components `yxzz`, in this order.
    pub fn yxzz(&self) -> (v: Mat<4, 1, T>)
        ensures
            v@ == Grid::column(seq![self@.cells[1], self@.cells[0], self@.cells[2], self@.cells[2]]),
    {
        let a = self.components();
        let out = [a[1], a[0], a[2], a[2]];
        proof {
            assert(out@ =~= seq![self@.cells[1], self@.cells[0], self@.cells[2], self@.cells[2]]);
        }
        Mat::from_components(out)
    }

    /// The components `yxzw`, in this order.
    pub fn yxzw(&self) -> (v: Mat<4, 1, T>)
        ensures
            v@ == Grid::column(seq![self@.cells[1], self@.cells[0], self@.cells[2], self@.cells[3]]),
    {
        let a = self.components();
        let out = [a[1], a[0], a[2], a[3]];
        proof {
            assert(out@ =~= seq![self@.cells[1], self@.cells[0], self@.cells[2], self@.cells[3]]);
        }
        Mat::from_components(out)
    }

    /// The components `yxwx`, in this order.
    pub fn yxwx(&self) -> (v: Mat<4, 1, T>)
        ensures
            v@ == Grid::column(seq![self@.cells[1], self@.cells[0], self@.cells[3], self@.cells[0]]),
    {
        let a = self.components();
        let out = [a[1], a[0], a[3], a[0]];
        proof {
            assert(out@ =~= seq![self@.cells[1], self@.cells[0], self@.cells[3], self@.cells[0]]);
        }
        Mat::from_components(out)
    }

    /// The components `yxwy`, in this order.
    pub fn yxwy(&self) -> (v: Mat<4, 1, T>)
        ensures
            v@ == Grid::column(seq![self@.cells[1], self@.cells[0], self@.cells[3], self@.cells[1]]),
    {
        let a = self.components();
        let out = [a[1], a[0], a[3], a[1]];
        proof {
            assert(out@ =~= seq![self@.cells[1], self@.cells[0], self@.cells[3], self@.cells[1]]);
        }
        Mat::from_components(out)
    }

    /// The components `yxwz`, in this order.
    pub fn yxwz(&self) -> (v: Mat<4, 1, T>)
        ensures
            v@ == Grid::column(seq![self@.cells[1], self@.cells[0], self@.cells[3], self@.cells[2]]),
    {
        let a = self.components();
        let out = [a[1], a[0], a[3], a[2]];
        proof {
            assert(out@ =~= seq![self@.cells[1], self@.cells[0], self@.cells[3], self@.cells[2]]);
        }
        Mat::from_components(out)
    }

    /// The components `yxww`, in this order.
    pub fn yxww(&self) -> (v: Mat<4, 1, T>)
        ensures
            v@ == Grid::column(seq![self@.cells[1], self@.cells[0], self@.cells[3], self@.cells[3]]),
    {
        let a = self.components();
        let out = [a[1], a[0], a[3], a[3]];
        proof {
            assert(out@ =~= seq![self@.cells[1], self@.cells[0], self@.cells[3], self@.cells[3]]);
        }
        Mat::from_components(out)
    }

    /// The components `yyxx`, in this order.
    pub fn yyxx(&self) -> (v: Mat<4, 1, T>)
        ensures
            v@ == Grid::column(seq![self@.cells[1], self@.cells[1], self@.cells[0], self@.cells[0]]),
    {
        let a = self.components();
        let out = [a[1], a[1], a[0], a[0]];
        proof {
            assert(out@ =~= seq![self@.cells[1], self@.cells[1], self@.cells[0], self@.cells[0]]);
        }
        Mat::from_components(out)
    }

    /// The components `yyxy`, in this order.
    pub fn yyxy(&self) -> (v: Mat<4, 1, T>)
        ensures
            v@ == Grid::column(seq![self@.cells[1], self@.cells[1], self@.cells[0], self@.cells[1]]),
    {
        let a = self.components();
        let out = [a[1], a[1], a[0], a[1]];
        proof {
            assert(out@ =~= seq![self@.cells[1], self@.cells[1], self@.cells[0], self@.cells[1]]);
        }
        Mat::from_components(out)
    }

    /// The components `yyxz`, in this order.
    pub fn yyxz(&self) -> (v: Mat<4, 1, T>)
        ensures
            v@ == Grid::column(seq![self@.cells[1], self@.cells[1], self@.cells[0], self@.cells[2]]),
    {
        let a = self.components();
        let out = [a[1], a[1], a[0], a[2]];
        proof {
            assert(out@ =~= seq![self@.cells[1], self@.cells[1], self@.cells[0], self@.cells[2]]);
        }
        Mat::from_components(out)
    }

    /// The components `yyxw`, in this order.
    pub fn yyxw(&self) -> (v: Mat<4, 1, T>)
        ensures
            v@ == Grid::column(seq![self@.cells[1], self@.cells[1], self@.cells[0], self@.cells[3]]),
    {
        let a = self.components();
        let out = [a[1], a[1], a[0], a[3]];
        proof {
            assert(out@ =~= seq![self@.cells[1], self@.cells[1], self@.cells[0], self@.cells[3]]);
        }
        Mat::from_components(out)
    }

    /// The components `yyyx`, in this order.
    pub fn yyyx(&self) -> (v: Mat<4, 1, T>)
        ensures
            v@ == Grid::column(seq![self@.cells[1], self@.cells[1], self@.cells[1], self@.cells[0]]),
    {
        let a = self.components();
        let out = [a[1], a[1], a[1], a[0]];
        proof {
            assert(out@ =~= seq![self@.cells[1], self@.cells[1], self@.cells[1], self@.cells[0]]);
        }
        Mat::from_components(out)
    }

    /// The components `yyyy`, in this order.
    pub fn yyyy(&self) -> (v: Mat<4, 1, T>)
        ensures
            v@ == Grid::column(seq![self@.cells[1], self@.cells[1], self@.cells[1], self@.cells[1]]),
    {
        let a = self.components();
        let out = [a[1], a[1], a[1], a[1]];
        proof {
            assert(out@ =~= seq![self@.cells[1], self@.cells[1], self@.cells[1], self@.cells[1]]);
        }
        Mat::from_components(out)
    }

    /// The components `yyyz`, in this order.
    pub fn yyyz(&self) -> (v: Mat<4, 1, T>)
        ensures
            v@ == Grid::column(seq![self@.cells[1], self@.cells[1], self@.cells[1], self@.cells[2]]),
    {
        let a = self.components();
        let out = [a[1], a[1], a[1], a[2]];
        proof {
            assert(out@ =~= seq![self@.cells[1], self@.cells[1], self@.cells[1], self@.cells[2]]);
        }
        Mat::from_components(out)
    }

    /// The components `yyyw`, in this order.
    pub fn yyyw(&self) -> (v: Mat<4, 1, T>)
        ensures
            v@ == Grid::column(seq![self@.cells[1], self@.cells[1], self@.cells[1], self@.cells[3]]),
    {
        let a = self.components();
        let out = [a[1], a[1], a[1], a[3]];
        proof {
            assert(out@ =~= seq![self@.cells[1], self@.cells[1], self@.cells[1], self@.cells[3]]);
        }
        Mat::from_components(out)
    }

    /// The components `yyzx`, in this order.
    pub fn yyzx(&self) -> (v: Mat<4, 1, T>)
        ensures
            v@ == Grid::column(seq![self@.cells[1], self@.cells[1], self@.cells[2], self@.cells[0]]),
    {
        let a = self.components();
        let out = [a[1], a[1], a[2], a[0]];
        proof {
            assert(out@ =~= seq![self@.cells[1], self@.cells[1], self@.cells[2], self@.cells[0]]);
        }
        Mat::from_components(out)
    }

    /// The components `yyzy`, in this order.
    pub fn yyzy(&self) -> (v: Mat<4, 1, T>)
        ensures
            v@ == Grid::column(seq![self@.cells[1], self@.cells[1], self@.cells[2], self@.cells[1]]),
    {
        let a = self.components();
        let out = [a[1], a[1], a[2], a[1]];
        proof {
            assert(out@ =~= seq![self@.cells[1], self@.cells[1], self@.cells[2], self@.cells[1]]);
        }
        Mat::from_components(out)
    }

    /// The components `yyzz`, in this order.
    pub fn yyzz(&self) -> (v: Mat<4, 1, T>)
        ensures
            v@ == Grid::column(seq![self@.cells[1], self@.cells[1], self@.cells[2], self@.cells[2]]),
    {
        let a = self.components();
        let out = [a[1], a[1], a[2], a[2]];
        proof {
            assert(out@ =~= seq![self@.cells[1], self@.cells[1], self@.cells[2], self@.cells[2]]);
        }
        Mat::from_components(out)
    }

    /// The components `yyzw`, in this order.
    pub fn yyzw(&self) -> (v: Mat<4, 1, T>)
        ensures
            v@ == Grid::column(seq![self@.cells[1], self@.cells[1], self@.cells[2], self@.cells[3]]),
    {
        let a = self.components();
        let out = [a[1], a[1], a[2], a[3]];
        proof {
            assert(out@ =~= seq![self@.cells[1], self@.cells[1], self@.cells[2], self@.cells[3]]);
        }
        Mat::from_components(out)
    }

    /// The components `yywx`, in this order.
    pub fn yywx(&self) -> (v: Mat<4, 1, T>)
        ensures
            v@ == Grid::column(seq![self@.cells[1], self@.cells[1], self@.cells[3], self@.cells[0]]),
    {
        let a = self.components();
        let out = [a[1], a[1], a[3], a[0]];
        proof {
            assert(out@ =~= seq![self@.cells[1], self@.cells[1], self@.cells[3], self@.cells[0]]);
        }
        Mat::from_components(out)
    }

    /// The components `yywy`, in this order.
    pub fn yywy(&self) -> (v: Mat<4, 1, T>)
        ensures
            v@ == Grid::column(seq![self@.cells[1], self@.cells[1], self@.cells[3], self@.cells[1]]),
    {
        let a = self.components();
        let out = [a[1], a[1], a[3], a[1]];
        proof {
            assert(out@ =~= seq![self@.cells[1], self@.cells[1], self@.cells[3], self@.cells[1]]);
        }
        Mat::from_components(out)
    }

    /// The components `yywz`, in this order.
    pub fn yywz(&self) -> (v: Mat<4, 1, T>)
        ensures
            v@ == Grid::column(seq![self@.cells[1], self@.cells[1], self@.cells[3], self@.cells[2]]),
    {
        let a = self.components();
        let out = [a[1], a[1], a[3], a[2]];
        proof {
            assert(out@ =~= seq![self@.cells[1], self@.cells[1], self@.cells[3], self@.cells[2]]);
        }
        Mat::from_components(out)
    }

    /// The components `yyww`, in this order.
    pub fn yyww(&self) -> (v: Mat<4, 1, T>)
        ensures
            v@ == Grid::column(seq![self@.cells[1], self@.cells[1], self@.cells[3], self@.cells[3]]),
    {
        let a = self.components();
        let out = [a[1], a[1], a[3], a[3]];
        proof {
            assert(out@ =~= seq![self@.cells[1], self@.cells[1], self@.cells[3], self@.cells[3]]);
        }
        Mat::from_components(out)
    }

    /// The components `yzxx`, in this order.
    pub fn yzxx(&self) -> (v: Mat<4, 1, T>)
        ensures
            v@ == Grid::column(seq![self@.cells[1], self@.cells[2], self@.cells[0], self@.cells[0]]),
    {
        let a = self.components();
        let out = [a[1], a[2], a[0], a[0]];
        proof {
            assert(out@ =~= seq![self@.cells[1], self@.cells[2], self@.cells[0], self@.cells[0]]);
        }
        Mat::from_components(out)
    }

    /// The components `yzxy`, in this order.
    pub fn yzxy(&self) -> (v: Mat<4, 1, T>)
        ensures
            v@ == Grid::column(seq![self@.cells[1], self@.cells[2], self@.cells[0], self@.cells[1]]),
    {
        let a = self.components();
        let out = [a[1], a[2], a[0], a[1]];
        proof {
            assert(out@ =~= seq![self@.cells[1], self@.cells[2], self@.cells[0], self@.cells[1]]);
        }
        Mat::from_components(out)
    }

    /// The components `yzxz`, in this order.
    pub fn yzxz(&self) -> (v: Mat<4, 1, T>)
        ensures
            v@ == Grid::column(seq![self@.cells[1], self@.cells[2], self@.cells[0], self@.cells[2]]),
    {
        let a = self.components();
        let out = [a[1], a[2], a[0], a[2]];
        proof {
            assert(out@ =~= seq![self@.cells[1], self@.cells[2], self@.cells[0], self@.cells[2]]);
        }
        Mat::from_components(out)
    }

    /// The components `yzxw`, in this order.
    pub fn yzxw(&self) -> (v: Mat<4, 1, T>)
        ensures
            v@ == Grid::column(seq![self@.cells[1], self@.cells[2], self@.cells[0], self@.cells[3]]),
    {
        let a = self.components();
        let out = [a[1], a[2], a[0], a[3]];
        proof {
            assert(out@ =~= seq![self@.cells[1], self@.cells[2], self@.cells[0], self@.cells[3]]);
        }
        Mat::from_components(out)
    }

    /// The components `yzyx`, in this order.
    pub fn yzyx(&self) -> (v: Mat<4, 1, T>)
        ensures
            v@ == Grid::column(seq![self@.cells[1], self@.cells[2], self@.cells[1], self@.cells[0]]),
    {
        let a = self.components();
        let out = [a[1], a[2], a[1], a[0]];
        proof {
            assert(out@ =~= seq![self@.cells[1], self@.cells[2], self@.cells[1], self@.cells[0]]);
        }
        Mat::from_components(out)
    }

    /// The components `yzyy`, in this order.
    pub fn yzyy(&self) -> (v: Mat<4, 1, T>)
        ensures
            v@ == Grid::column(seq![self@.cells[1], self@.cells[2], self@.cells[1], self@.cells[1]]),
    {
        let a = self.components();
        let out = [a[1], a[2], a[1], a[1]];
        proof {
            assert(out@ =~= seq![self@.cells[1], self@.cells[2], self@.cells[1], self@.cells[1]]);
        }
        Mat::from_components(out)
    }

    /// The components `yzyz`, in this order.
    pub fn yzyz(&self) -> (v: Mat<4, 1, T>)
        ensures
            v@ == Grid::column(seq![self@.cells[1], self@.cells[2], self@.cells[1], self@.cells[2]]),
    {
        let a = self.components();
        let out = [a[1], a[2], a[1], a[2]];
        proof {
            assert(out@ =~= seq![self@.cells[1], self@.cells[2], self@.cells[1], self@.cells[2]]);
        }
        Mat::from_components(out)
    }

    /// The components `yzyw`, in this order.
    pub fn yzyw(&self) -> (v: Mat<4, 1, T>)
        ensures
            v@ == Grid::column(seq![self@.cells[1], self@.cells[2], self@.cells[1], self@.cells[3]]),
    {
        let a = self.components();
        let out = [a[1], a[2], a[1], a[3]];
        proof {
            assert(out@ =~= seq![self@.cells[1], self@.cells[2], self@.cells[1], self@.cells[3]]);
        }
        Mat::from_components(out)
    }

    /// The components `yzzx`, in this order.
    pub fn yzzx(&self) -> (v: Mat<4, 1, T>)
        ensures
            v@ == Grid::column(seq![self@.cells[1], self@.cells[2], self@.cells[2], self@.cells[0]]),
    {
        let a = self.components();
        let out = [a[1], a[2], a[2], a[0]];
        proof {
            assert(out@ =~= seq![self@.cells[1], self@.cells[2], self@.cells[2], self@.cells[0]]);
        }
        Mat::from_components(out)
    }

    /// The components `yzzy`, in this order.
    pub fn yzzy(&self) -> (v: Mat<4, 1, T>)
        ensures
            v@ == Grid::column(seq![self@.cells[1], self@.cells[2], self@.cells[2], self@.cells[1]]),
    {
        let a = self.components();
        let out = [a[1], a[2], a[2], a[1]];
        proof {
            assert(out@ =~= seq![self@.cells[1], self@.cells[2], self@.cells[2], self@.cells[1]]);
        }
        Mat::from_components(out)
    }

    /// The components `yzzz`, in this order.
    pub fn yzzz(&self) -> (v: Mat<4, 1, T>)
        ensures
            v@ == Grid::column(seq![self@.cells[1], self@.cells[2], self@.cells[2], self@.cells[2]]),
    {
        let a = self.components();
        let out = [a[1], a[2], a[2], a[2]];
        proof {
            assert(out@ =~= seq![self@.cells[1], self@.cells[2], self@.cells[2], self@.cells[2]]);
        }
        Mat::from_components(out)
    }

    /// The components `yzzw`, in this order.
    pub fn yzzw(&self) -> (v: Mat<4, 1, T>)
        ensures
            v@ == Grid::column(seq![self@.cells[1], self@.cells[2], self@.cells[2], self@.cells[3]]),
    {
        let a = self.components();
        let out = [a[1], a[2], a[2], a[3]];
        proof {
            assert(out@ =~= seq![self@.cells[1], self@.cells[2], self@.cells[2], self@.cells[3]]);
        }
        Mat::from_components(out)
    }

    /// The components `yzwx`, in this order.
    pub fn yzwx(&self) -> (v: Mat<4, 1, T>)
        ensures
            v@ == Grid::column(seq![self@.cells[1], self@.cells[2], self@.cells[3], self@.cells[0]]),
    {
        let a = self.components();
        let out = [a[1], a[2], a[3], a[0]];
        proof {
            assert(out@ =~= seq![self@.cells[1], self@.cells[2], self@.cells[3], self@.cells[0]]);
        }
        Mat::from_components(out)
    }

    /// The components `yzwy`, in this order.
    pub fn yzwy(&self) -> (v: Mat<4, 1, T>)
        ensures
            v@ == Grid::column(seq![self@.cells[1], self@.cells[2], self@.cells[3], self@.cells[1]]),
    {
        let a = self.components();
        let out = [a[1], a[2], a[3], a[1]];
        proof {
            assert(out@ =~= seq![self@.cells[1], self@.cells[2], self@.cells[3], self@.cells[1]]);
        }
        Mat::from_components(out)
    }

    /// The components `yzwz`, in this order.
    pub fn yzwz(&self) -> (v: Mat<4, 1, T>)
        ensures
            v@ == Grid::column(seq![self@.cells[1], self@.cells[2], self@.cells[3], self@.cells[2]]),
    {
        let a = self.components();
        let out = [a[1], a[2], a[3], a[2]];
        proof {
            assert(out@ =~= seq![self@.cells[1], self@.cells[2], self@.cells[3], self@.cells[2]]);
        }
        Mat::from_components(out)
    }

    /// The components `yzww`, in this order.
    pub fn yzww(&self) -> (v: Mat<4, 1, T>)
        ensures
            v@ == Grid::column(seq![self@.cells[1], self@.cells[2], self@.cells[3], self@.cells[3]]),
    {
        let a = self.components();
        let out = [a[1], a[2], a[3], a[3]];
        proof {
            assert(out@ =~= seq![self@.cells[1], self@.cells[2], self@.cells[3], self@.cells[3]]);
        }
        Mat::from_components(out)
    }

    /// The components `ywxx`, in this order.
    pub fn ywxx(&self) -> (v: Mat<4, 1, T>)
        ensures
            v@ == Grid::column(seq![self@.cells[1], self@.cells[3], self@.cells[0], self@.cells[0]]),
    {
        let a = self.components();
        let out = [a[1], a[3], a[0], a[0]];
        proof {
            assert(out@ =~= seq![self@.cells[1], self@.cells[3], self@.cells[0], self@.cells[0]]);
        }
        Mat::from_components(out)
    }

    /// The components `ywxy`, in this order.
    pub fn ywxy(&self) -> (v: Mat<4, 1, T>)
        ensures
            v@ == Grid::column(seq![self@.cells[1], self@.cells[3], self@.cells[0], self@.cells[1]]),
    {
        let a = self.components();
        let out = [a[1], a[3], a[0], a[1]];
        proof {
            assert(out@ =~= seq![self@.cells[1], self@.cells[3], self@.cells[0], self@.cells[1]]);
        }
        Mat::from_components(out)
    }

    /// The components `ywxz`, in this order.
    pub fn ywxz(&self) -> (v: Mat<4, 1, T>)
        ensures
            v@ == Grid::column(seq![self@.cells[1], self@.cells[3], self@.cells[0], self@.cells[2]]),
    {
        let a = self.components();
        let out = [a[1], a[3], a[0], a[2]];
        proof {
            assert(out@ =~= seq![self@.cells[1], self@.cells[3], self@.cells[0], self@.cells[2]]);
        }
        Mat::from_components(out)
    }

    /// The components `ywxw`, in this order.
    pub fn ywxw(&self) -> (v: Mat<4, 1, T>)
        ensures
            v@ == Grid::column(seq![self@.cells[1], self@.cells[3], self@.cells[0], self@.cells[3]]),
    {
        let a = self.components();
        let out = [a[1], a[3], a[0], a[3]];
        proof {
            assert(out@ =~= seq![self@.cells[1], self@.cells[3], self@.cells[0], self@.cells[3]]);
        }
        Mat::from_components(out)
    }

    /// The components `ywyx`, in this order.
    pub fn ywyx(&self) -> (v: Mat<4, 1, T>)
        ensures
            v@ == Grid::column(seq![self@.cells[1], self@.cells[3], self@.cells[1], self@.cells[0]]),
    {
        let a = self.components();
        let out = [a[1], a[3], a[1], a[0]];
        proof {
            assert(out@ =~= seq![self@.cells[1], self@.cells[3], self@.cells[1], self@.cells[0]]);
        }
        Mat::from_components(out)
    }

    /// The components `ywyy`, in this order.
    pub fn ywyy(&self) -> (v: Mat<4, 1, T>)
        ensures
            v@ == Grid::column(seq![self@.cells[1], self@.cells[3], self@.cells[1], self@.cells[1]]),
    {
        let a = self.components();
        let out = [a[1], a[3], a[1], a[1]];
        proof {
            assert(out@ =~= seq![self@.cells[1], self@.cells[3], self@.cells[1], self@.cells[1]]);
        }
        Mat::from_components(out)
    }

    /// The components `ywyz`, in this order.
    pub fn ywyz(&self) -> (v: Mat<4, 1, T>)
        ensures
            v@ == Grid::column(seq![self@.cells[1], self@.cells[3], self@.cells[1], self@.cells[2]]),
    {
        let a = self.components();
        let out = [a[1], a[3], a[1], a[2]];
        proof {
            assert(out@ =~= seq![self@.cells[1], self@.cells[3], self@.cells[1], self@.cells[2]]);
        }
        Mat::from_components(out)
    }

    /// The components `ywyw`, in this order.
    pub fn ywyw(&self) -> (v: Mat<4, 1, T>)
        ensures
            v@ == Grid::column(seq![self@.cells[1], self@.cells[3], self@.cells[1], self@.cells[3]]),
    {
        let a = self.components();
        let out = [a[1], a[3], a[1], a[3]];
        proof {
            assert(out@ =~= seq![self@.cells[1], self@.cells[3], self@.cells[1], self@.cells[3]]);
        }
        Mat::from_components(out)
    }

    /// The components `ywzx`, in this order.
    pub fn ywzx(&self) -> (v: Mat<4, 1, T>)
        ensures
            v@ == Grid::column(seq![self@.cells[1], self@.cells[3], self@.cells[2], self@.cells[0]]),
    {
        let a = self.components();
        let out = [a[1], a[3], a[2], a[0]];
        proof {
            assert(out@ =~= seq![self@.cells[1], self@.cells[3], self@.cells[2], self@.cells[0]]);
        }
        Mat::from_components(out)
    }

    /// The components `ywzy`, in this order.
    pub fn ywzy(&self) -> (v: Mat<4, 1, T>)
        ensures
            v@ == Grid::column(seq![self@.cells[1], self@.cells[3], self@.cells[2], self@.cells[1]]),
    {
        let a = self.components();
        let out = [a[1], a[3], a[2], a[1]];
        proof {
            assert(out@ =~= seq![self@.cells[1], self@.cells[3], self@.cells[2], self@.cells[1]]);
        }
        Mat::from_components(out)
    }

    /// The components `ywzz`, in this order.
    pub fn ywzz(&self) -> (v: Mat<4, 1, T>)
        ensures
            v@ == Grid::column(seq![self@.cells[1], self@.cells[3], self@.cells[2], self@.cells[2]]),
    {
        let a = self.components();
        let out = [a[1], a[3], a[2], a[2]];
        proof {
            assert(out@ =~= seq![self@.cells[1], self@.cells[3], self@.cells[2], self@.cells[2]]);
        }
        Mat::from_components(out)
    }

    /// The components `ywzw`, in this order.
    pub fn ywzw(&self) -> (v: Mat<4, 1, T>)
        ensures
            v@ == Grid::column(seq![self@.cells[1], self@.cells[3], self@.cells[2], self@.cells[3]]),
    {
        let a = self.components();
        let out = [a[1], a[3], a[2], a[3]];
        proof {
            assert(out@ =~= seq![self@.cells[1], self@.cells[3], self@.cells[2], self@.cells[3]]);
        }
        Mat::from_components(out)
    }

    /// The components `ywwx`, in this order.
    pub fn ywwx(&self) -> (v: Mat<4, 1, T>)
        ensures
            v@ == Grid::column(seq![self@.cells[1], self@.cells[3], self@.cells[3], self@.cells[0]]),
    {
        let a = self.components();
        let out = [a[1], a[3], a[3], a[0]];
        proof {
            assert(out@ =~= seq![self@.cells[1], self@.cells[3], self@.cells[3], self@.cells[0]]);
        }
        Mat::from_components(out)
    }

    /// The components `ywwy`, in this order.
    pub fn ywwy(&self) -> (v: Mat<4, 1, T>)
        ensures
            v@ == Grid::column(seq![self@.cells[1], self@.cells[3], self@.cells[3], self@.cells[1]]),
    {
        let a = self.components();
        let out = [a[1], a[3], a[3], a[1]];
        proof {
            assert(out@ =~= seq![self@.cells[1], self@.cells[3], self@.cells[3], self@.cells[1]]);
        }
        Mat::from_components(out)
    }

    /// The components `ywwz`, in this order.
    pub fn ywwz(&self) -> (v: Mat<4, 1, T>)
        ensures
            v@ == Grid::column(seq![self@.cells[1], self@.cells[3], self@.cells[3], self@.cells[2]]),
    {
        let a = self.components();
        let out = [a[1], a[3], a[3], a[2]];
        proof {
            assert(out@ =~= seq![self@.cells[1], self@.cells[3], self@.cells[3], self@.cells[2]]);
        }
        Mat::from_components(out)
    }

    /// The components `ywww`, in this order.
    pub fn ywww(&self) -> (v: Mat<4, 1, T>)
        ensures
            v@ == Grid::column(seq![self@.cells[1], self@.cells[3], self@.cells[3], self@.cells[3]]),
    {
        let a = self.components();
        let out = [a[1], a[3], a[3], a[3]];
        proof {
            assert(out@ =~= seq![self@.cells[1], self@.cells[3], self@.cells[3], self@.cells[3]]);
        }
        Mat::from_components(out)
    }

    /// The components `zxxx`, in this order.
    pub fn zxxx(&self) -> (v: Mat<4, 1, T>)
        ensures
            v@ == Grid::column(seq![self@.cells[2], self@.cells[0], self@.cells[0], self@.cells[0]]),
    {
        let a = self.components();
        let out = [a[2], a[0], a[0], a[0]];
        proof {
            assert(out@ =~= seq![self@.cells[2], self@.cells[0], self@.cells[0], self@.cells[0]]);
        }
        Mat::from_components(out)
    }

    /// The components `zxxy`, in this order.
    pub fn zxxy(&self) -> (v: Mat<4, 1, T>)
        ensures
            v@ == Grid::column(seq![self@.cells[2], self@.cells[0], self@.cells[0], self@.cells[1]]),
    {
        let a = self.components();
        let out = [a[2], a[0], a[0], a[1]];
        proof {
            assert(out@ =~= seq![self@.cells[2], self@.cells[0], self@.cells[0], self@.cells[1]]);
        }
        Mat::from_components(out)
    }

    /// The components `zxxz`, in this order.
    pub fn zxxz(&self) -> (v: Mat<4, 1, T>)
        ensures
            v@ == Grid::column(seq![self@.cells[2], self@.cells[0], self@.cells[0], self@.cells[2]]),
    {
        let a = self.components();
        let out = [a[2], a[0], a[0], a[2]];
        proof {
            assert(out@ =~= seq![self@.cells[2], self@.cells[0], self@.cells[0], self@.cells[2]]);
        }
        Mat::from_components(out)
    }

    /// The components `zxxw`, in this order.
    pub fn zxxw(&self) -> (v: Mat<4, 1, T>)
        ensures
            v@ == Grid::column(seq![self@.cells[2], self@.cells[0], self@.cells[0], self@.cells[3]]),
    {
        let a = self.components();
        let out = [a[2], a[0], a[0], a[3]];
        proof {
            assert(out@ =~= seq![self@.cells[2], self@.cells[0], self@.cells[0], self@.cells[3]]);
        }
        Mat::from_components(out)
    }

    /// The components `zxyx`, in this order.
    pub fn zxyx(&self) -> (v: Mat<4, 1, T>)
        ensures
            v@ == Grid::column(seq![self@.cells[2], self@.cells[0], self@.cells[1], self@.cells[0]]),
    {
        let a = self.components();
        let out = [a[2], a[0], a[1], a[0]];
        proof {
            assert(out@ =~= seq![self@.cells[2], self@.cells[0], self@.cells[1], self@.cells[0]]);
        }
        Mat::from_components(out)
    }

    /// The components `zxyy`, in this order.
    pub fn zxyy(&self) -> (v: Mat<4, 1, T>)
        ensures
            v@ == Grid::column(seq![self@.cells[2], self@.cells[0], self@.cells[1], self@.cells[1]]),
    {
        let a = self.components();
        let out = [a[2], a[0], a[1], a[1]];
        proof {
            assert(out@ =~= seq![self@.cells[2], self@.cells[0], self@.cells[1], self@.cells[1]]);
        }
        Mat::from_components(out)
    }

    /// The components `zxyz`, in this order.
    pub fn zxyz(&self) -> (v: Mat<4, 1, T>)
        ensures
            v@ == Grid::column(seq![self@.cells[2], self@.cells[0], self@.cells[1], self@.cells[2]]),
    {
        let a = self.components();
        let out = [a[2], a[0], a[1], a[2]];
        proof {
            assert(out@ =~= seq![self@.cells[2], self@.cells[0], self@.cells[1], self@.cells[2]]);
        }
        Mat::from_components(out)
    }

    /// The components `zxyw`, in this order.
    pub fn zxyw(&self) -> (v: Mat<4, 1, T>)
        ensures
            v@ == Grid::column(seq![self@.cells[2], self@.cells[0], self@.cells[1], self@.cells[3]]),
    {
        let a = self.components();
        let out = [a[2], a[0], a[1], a[3]];
        proof {
            assert(out@ =~= seq![self@.cells[2], self@.cells[0], self@.cells[1], self@.cells[3]]);
        }
        Mat::from_components(out)
    }

    /// The components `zxzx`, in this order.
    pub fn zxzx(&self) -> (v: Mat<4, 1, T>)
        ensures
            v@ == Grid::column(seq![self@.cells[2], self@.cells[0], self@.cells[2], self@.cells[0]]),
    {
        let a = self.components();
        let out = [a[2], a[0], a[2], a[0]];
        proof {
            assert(out@ =~= seq![self@.cells[2], self@.cells[0], self@.cells[2], self@.cells[0]]);
        }
        Mat::from_components(out)
    }

    /// The components `zxzy`, in this order.
    pub fn zxzy(&self) -> (v: Mat<4, 1, T>)
        ensures
            v@ == Grid::column(seq![self@.cells[2], self@.cells[0], self@.cells[2], self@.cells[1]]),
    {
        let a = self.components();
        let out = [a[2], a[0], a[2], a[1]];
        proof {
            assert(out@ =~= seq![self@.cells[2], self@.cells[0], self@.cells[2], self@.cells[1]]);
        }
        Mat::from_components(out)
    }

    /// The components `zxzz`, in this order.
    pub fn zxzz(&self) -> (v: Mat<4, 1, T>)
        ensures
            v@ == Grid::column(seq![self@.cells[2], self@.cells[0], self@.cells[2], self@.cells[2]]),
    {
        let a = self.components();
        let out = [a[2], a[0], a[2], a[2]];
        proof {
            assert(out@ =~= seq![self@.cells[2], self@.cells[0], self@.cells[2], self@.cells[2]]);
        }
        Mat::from_components(out)
    }

    /// The components `zxzw`, in this order.
    pub fn zxzw(&self) -> (v: Mat<4, 1, T>)
        ensures
            v@ == Grid::column(seq![self@.cells[2], self@.cells[0], self@.cells[2], self@.cells[3]]),
    {
        let a = self.components();
        let out = [a[2], a[0], a[2], a[3]];
        proof {
            assert(out@ =~= seq![self@.cells[2], self@.cells[0], self@.cells[2], self@.cells[3]]);
        }
        Mat::from_components(out)
    }

    /// The components `zxwx`, in this order.
    pub fn zxwx(&self) -> (v: Mat<4, 1, T>)
        ensures
            v@ == Grid::column(seq![self@.cells[2], self@.cells[0], self@.cells[3], self@.cells[0]]),
    {
        let a = self.components();
        let out = [a[2], a[0], a[3], a[0]];
        proof {
            assert(out@ =~= seq![self@.cells[2], self@.cells[0], self@.cells[3], self@.cells[0]]);
        }
        Mat::from_components(out)
    }

    /// The components `zxwy`, in this order.
    pub fn zxwy(&self) -> (v: Mat<4, 1, T>)
        ensures
            v@ == Grid::column(seq![self@.cells[2], self@.cells[0], self@.cells[3], self@.cells[1]]),
    {
        let a = self.components();
        let out = [a[2], a[0], a[3], a[1]];
        proof {
            assert(out@ =~= seq![self@.cells[2], self@.cells[0], self@.cells[3], self@.cells[1]]);
        }
        Mat::from_components(out)
    }

    /// The components `zxwz`, in this order.
    pub fn zxwz(&self) -> (v: Mat<4, 1, T>)
        ensures
            v@ == Grid::column(seq![self@.cells[2], self@.cells[0], self@.cells[3], self@.cells[2]]),
    {
        let a = self.components();
        let out = [a[2], a[0], a[3], a[2]];
        proof {
            assert(out@ =~= seq![self@.cells[2], self@.cells[0], self@.cells[3], self@.cells[2]]);
        }
        Mat::from_components(out)
    }

    /// The components `zxww`, in this order.
    pub fn zxww(&self) -> (v: Mat<4, 1, T>)
        ensures
            v@ == Grid::column(seq![self@.cells[2], self@.cells[0], self@.cells[3], self@.cells[3]]),
    {
        let a = self.components();
        let out = [a[2], a[0], a[3], a[3]];
        proof {
            assert(out@ =~= seq![self@.cells[2], self@.cells[0], self@.cells[3], self@.cells[3]]);
        }
        Mat::from_components(out)
    }

    /// The components `zyxx`, in this order.
    pub fn zyxx(&self) -> (v: Mat<4, 1, T>)
        ensures
            v@ == Grid::column(seq![self@.cells[2], self@.cells[1], self@.cells[0], self@.cells[0]]),
    {
        let a = self.components();
        let out = [a[2], a[1], a[0], a[0]];
        proof {
            assert(out@ =~= seq![self@.cells[2], self@.cells[1], self@.cells[0], self@.cells[0]]);
        }
        Mat::from_components(out)
    }

    /// The components `zyxy`, in this order.
    pub fn zyxy(&self) -> (v: Mat<4, 1, T>)
        ensures
            v@ == Grid::column(seq![self@.cells[2], self@.cells[1], self@.cells[0], self@.cells[1]]),
    {
        let a = self.components();
        let out = [a[2], a[1], a[0], a[1]];
        proof {
            assert(out@ =~= seq![self@.cells[2], self@.cells[1], self@.cells[0], self@.cells[1]]);
        }
        Mat::from_components(out)
    }

    /// The components `zyxz`, in this order.
    pub fn zyxz(&self) -> (v: Mat<4, 1, T>)
        ensures
            v@ == Grid::column(seq![self@.cells[2], self@.cells[1], self@.cells[0], self@.cells[2]]),
    {
        let a = self.components();
        let out = [a[2], a[1], a[0], a[2]];
        proof {
            assert(out@ =~= seq![self@.cells[2], self@.cells[1], self@.cells[0], self@.cells[2]]);
        }
        Mat::from_components(out)
    }

    /// The components `zyxw`, in this order.
    pub fn zyxw(&self) -> (v: Mat<4, 1, T>)
        ensures
            v@ == Grid::column(seq![self@.cells[2], self@.cells[1], self@.cells[0], self@.cells[3]]),
    {
        let a = self.components();
        let out = [a[2], a[1], a[0], a[3]];
        proof {
            assert(out@ =~= seq![self@.cells[2], self@.cells[1], self@.cells[0], self@.cells[3]]);
        }
        Mat::from_components(out)
    }

    /// The components `zyyx`, in this order.
    pub fn zyyx(&self) -> (v: Mat<4, 1, T>)
        ensures
            v@ == Grid::column(seq![self@.cells[2], self@.cells[1], self@.cells[1], self@.cells[0]]),
    {
        let a = self.components();
        let out = [a[2], a[1], a[1], a[0]];
        proof {
            assert(out@ =~= seq![self@.cells[2], self@.cells[1], self@.cells[1], self@.cells[0]]);
        }
        Mat::from_components(out)
    }

    /// The components `zyyy`, in this order.
    pub fn zyyy(&self) -> (v: Mat<4, 1, T>)
        ensures
            v@ == Grid::column(seq![self@.cells[2], self@.cells[1], self@.cells[1], self@.cells[1]]),
    {
        let a = self.components();
        let out = [a[2], a[1], a[1], a[1]];
        proof {
            assert(out@ =~= seq![self@.cells[2], self@.cells[1], self@.cells[1], self@.cells[1]]);
        }
        Mat::from_components(out)
    }

    /// The components `zyyz`, in this order.
    pub fn zyyz(&self) -> (v: Mat<4, 1, T>)
        ensures
            v@ == Grid::column(seq![self@.cells[2], self@.cells[1], self@.cells[1], self@.cells[2]]),
    {
        let a = self.components();
        let out = [a[2], a[1], a[1], a[2]];
        proof {
            assert(out@ =~= seq![self@.cells[2], self@.cells[1], self@.cells[1], self@.cells[2]]);
        }
        Mat::from_components(out)
    }

    /// The components `zyyw`, in this order.
    pub fn zyyw(&self) -> (v: Mat<4, 1, T>)
        ensures
            v@ == Grid::column(seq![self@.cells[2], self@.cells[1], self@.cells[1], self@.cells[3]]),
    {
        let a = self.components();
        let out = [a[2], a[1], a[1], a[3]];
        proof {
            assert(out@ =~= seq![self@.cells[2], self@.cells[1], self@.cells[1], self@.cells[3]]);
        }
        Mat::from_components(out)
    }

    /// The components `zyzx`, in this order.
    pub fn zyzx(&self) -> (v: Mat<4, 1, T>)
        ensures
            v@ == Grid::column(seq![self@.cells[2], self@.cells[1], self@.cells[2], self@.cells[0]]),
    {
        let a = self.components();
        let out = [a[2], a[1], a[2], a[0]];
        proof {
            assert(out@ =~= seq![self@.cells[2], self@.cells[1], self@.cells[2], self@.cells[0]]);
        }
        Mat::from_components(out)
    }

    /// The components `zyzy`, in this order.
    pub fn zyzy(&self) -> (v: Mat<4, 1, T>)
        ensures
            v@ == Grid::column(seq![self@.cells[2], self@.cells[1], self@.cells[2], self@.cells[1]]),
    {
        let a = self.components();
        let out = [a[2], a[1], a[2], a[1]];
        proof {
            assert(out@ =~= seq![self@.cells[2], self@.cells[1], self@.cells[2], self@.cells[1]]);
        }
        Mat::from_components(out)
    }

    /// The components `zyzz`, in this order.
    pub fn zyzz(&self) -> (v: Mat<4, 1, T>)
        ensures
            v@ == Grid::column(seq![self@.cells[2], self@.cells[1], self@.cells[2], self@.cells[2]]),
    {
        let a = self.components();
        let out = [a[2], a[1], a[2], a[2]];
        proof {
            assert(out@ =~= seq![self@.cells[2], self@.cells[1], self@.cells[2], self@.cells[2]]);
        }
        Mat::from_components(out)
    }

    /// The components `zyzw`, in this order.
    pub fn zyzw(&self) -> (v: Mat<4, 1, T>)
        ensures
            v@ == Grid::column(seq![self@.cells[2], self@.cells[1], self@.cells[2], self@.cells[3]]),
    {
        let a = self.components();
        let out = [a[2], a[1], a[2], a[3]];
        proof {
            assert(out@ =~= seq![self@.cells[2], self@.cells[1], self@.cells[2], self@.cells[3]]);
        }
        Mat::from_components(out)
    }

    /// The components `zywx`, in this order.
    pub fn zywx(&self) -> (v: Mat<4, 1, T>)
        ensures
            v@ == Grid::column(seq![self@.cells[2], self@.cells[1], self@.cells[3], self@.cells[0]]),
    {
        let a = self.components();
        let out = [a[2], a[1], a[3], a[0]];
        proof {
            assert(out@ =~= seq![self@.cells[2], self@.cells[1], self@.cells[3], self@.cells[0]]);
        }
        Mat::from_components(out)
    }

    /// The components `zywy`, in this order.
    pub fn zywy(&self) -> (v: Mat<4, 1, T>)
        ensures
            v@ == Grid::column(seq![self@.cells[2], self@.cells[1], self@.cells[3], self@.cells[1]]),
    {
        let a = self.components();
        let out = [a[2], a[1], a[3], a[1]];
        proof {
            assert(out@ =~= seq![self@.cells[2], self@.cells[1], self@.cells[3], self@.cells[1]]);
        }
        Mat::from_components(out)
    }

    /// The components `zywz`, in this order.
    pub fn zywz(&self) -> (v: Mat<4, 1, T>)
        ensures
            v@ == Grid::column(seq![self@.cells[2], self@.cells[1], self@.cells[3], self@.cells[2]]),
    {
        let a = self.components();
        let out = [a[2], a[1], a[3], a[2]];
        proof {
            assert(out@ =~= seq![self@.cells[2], self@.cells[1], self@.cells[3], self@.cells[2]]);
        }
        Mat::from_components(out)
    }

    /// The components `zyww`, in this order.
    pub fn zyww(&self) -> (v: Mat<4, 1, T>)
        ensures
            v@ == Grid::column(seq![self@.cells[2], self@.cells[1], self@.cells[3], self@.cells[3]]),
    {
        let a = self.components();
        let out = [a[2], a[1], a[3], a[3]];
        proof {
            assert(out@ =~= seq![self@.cells[2], self@.cells[1], self@.cells[3], self@.cells[3]]);
        }
        Mat::from_components(out)
    }

    /// The components `zzxx`, in this order.
    pub fn zzxx(&self) -> (v: Mat<4, 1, T>)
        ensures
            v@ == Grid::column(seq![self@.cells[2], self@.cells[2], self@.cells[0], self@.cells[0]]),
    {
        let a = self.components();
        let out = [a[2], a[2], a[0], a[0]];
        proof {
            assert(out@ =~= seq![self@.cells[2], self@.cells[2], self@.cells[0], self@.cells[0]]);
        }
        Mat::from_components(out)
    }

    /// The components `zzxy`, in this order.
    pub fn zzxy(&self) -> (v: Mat<4, 1, T>)
        ensures
            v@ == Grid::column(seq![self@.cells[2], self@.cells[2], self@.cells[0], self@.cells[1]]),
    {
        let a = self.components();
        let out = [a[2], a[2], a[0], a[1]];
        proof {
            assert(out@ =~= seq![self@.cells[2], self@.cells[2], self@.cells[0], self@.cells[1]]);
        }
        Mat::from_components(out)
    }

    /// The components `zzxz`, in this order.
    pub fn zzxz(&self) -> (v: Mat<4, 1, T>)
        ensures
            v@ == Grid::column(seq![self@.cells[2], self@.cells[2], self@.cells[0], self@.cells[2]]),
    {
        let a = self.components();
        let out = [a[2], a[2], a[0], a[2]];
        proof {
            assert(out@ =~= seq![self@.cells[2], self@.cells[2], self@.cells[0], self@.cells[2]]);
        }
        Mat::from_components(out)
    }

    /// The components `zzxw`, in this order.
    pub fn zzxw(&self) -> (v: Mat<4, 1, T>)
        ensures
            v@ == Grid::column(seq![self@.cells[2], self@.cells[2], self@.cells[0], self@.cells[3]]),
    {
        let a = self.components();
        let out = [a[2], a[2], a[0], a[3]];
        proof {
            assert(out@ =~= seq![self@.cells[2], self@.cells[2], self@.cells[0], self@.cells[3]]);
        }
        Mat::from_components(out)
    }

    /// The components `zzyx`, in this order.
    pub fn zzyx(&self) -> (v: Mat<4, 1, T>)
        ensures
            v@ == Grid::column(seq![self@.cells[2], self@.cells[2], self@.cells[1], self@.cells[0]]),
    {
        let a = self.components();
        let out = [a[2], a[2], a[1], a[0]];
        proof {
            assert(out@ =~= seq![self@.cells[2], self@.cells[2], self@.cells[1], self@.cells[0]]);
        }
        Mat::from_components(out)
    }

    /// The components `zzyy`, in this order.
    pub fn zzyy(&self) -> (v: Mat<4, 1, T>)
        ensures
            v@ == Grid::column(seq![self@.cells[2], self@.cells[2], self@.cells[1], self@.cells[1]]),
    {
        let a = self.components();
        let out = [a[2], a[2], a[1], a[1]];
        proof {
            assert(out@ =~= seq![self@.cells[2], self@.cells[2], self@.cells[1], self@.cells[1]]);
        }
        Mat::from_components(out)
    }

    /// The components `zzyz`, in this order.
    pub fn zzyz(&self) -> (v: Mat<4, 1, T>)
        ensures
            v@ == Grid::column(seq![self@.cells[2], self@.cells[2], self@.cells[1], self@.cells[2]]),
    {
        let a = self.components();
        let out = [a[2], a[2], a[1], a[2]];
        proof {
            assert(out@ =~= seq![self@.cells[2], self@.cells[2], self@.cells[1], self@.cells[2]]);
        }
        Mat::from_components(out)
    }

    /// The components `zzyw`, in this order.
    pub fn zzyw(&self) -> (v: Mat<4, 1, T>)
        ensures
            v@ == Grid::column(seq![self@.cells[2], self@.cells[2], self@.cells[1], self@.cells[3]]),
    {
        let a = self.components();
        let out = [a[2], a[2], a[1], a[3]];
        proof {
            assert(out@ =~= seq![self@.cells[2], self@.cells[2], self@.cells[1], self@.cells[3]]);
        }
        Mat::from_components(out)
    }

    /// The components `zzzx`, in this order.
    pub fn zzzx(&self) -> (v: Mat<4, 1, T>)
        ensures
            v@ == Grid::column(seq![self@.cells[2], self@.cells[2], self@.cells[2], self@.cells[0]]),
    {
        let a = self.components();
        let out = [a[2], a[2], a[2], a[0]];
        proof {
            assert(out@ =~= seq![self@.cells[2], self@.cells[2], self@.cells[2], self@.cells[0]]);
        }
        Mat::from_components(out)
    }

    /// The components `zzzy`, in this order.
    pub fn zzzy(&self) -> (v: Mat<4, 1, T>)
        ensures
            v@ == Grid::column(seq![self@.cells[2], self@.cells[2], self@.cells[2], self@.cells[1]]),
    {
        let a = self.components();
        let out = [a[2], a[2], a[2], a[1]];
        proof {
            assert(out@ =~= seq![self@.cells[2], self@.cells[2], self@.cells[2], self@.cells[1]]);
        }
        Mat::from_components(out)
    }

    /// The components `zzzz`, in this order.
    pub fn zzzz(&self) -> (v: Mat<4, 1, T>)
        ensures
            v@ == Grid::column(seq![self@.cells[2], self@.cells[2], self@.cells[2], self@.cells[2]]),
    {
        let a = self.components();
        let out = [a[2], a[2], a[2], a[2]];
        proof {
            assert(out@ =~= seq![self@.cells[2], self@.cells[2], self@.cells[2], self@.cells[2]]);
        }
        Mat::from_components(out)
    }

    /// The components `zzzw`, in this order.
    pub fn zzzw(&self) -> (v: Mat<4, 1, T>)
        ensures
            v@ == Grid::column(seq![self@.cells[2], self@.cells[2], self@.cells[2], self@.cells[3]]),
    {
        let a = self.components();
        let out = [a[2], a[2], a[2], a[3]];
        proof {
            assert(out@ =~= seq![self@.cells[2], self@.cells[2], self@.cells[2], self@.cells[3]]);
        }
        Mat::from_components(out)
    }

    /// The components `zzwx`, in this order.
    pub fn zzwx(&self) -> (v: Mat<4, 1, T>)
        ensures
            v@ == Grid::column(seq![self@.cells[2], self@.cells[2], self@.cells[3], self@.cells[0]]),
    {
        let a = self.components();
        let out = [a[2], a[2], a[3], a[0]];
        proof {
            assert(out@ =~= seq![self@.cells[2], self@.cells[2], self@.cells[3], self@.cells[0]]);
        }
        Mat::from_components(out)
    }

    /// The components `zzwy`, in this order.
    pub fn zzwy(&self) -> (v: Mat<4, 1, T>)
        ensures
            v@ == Grid::column(seq![self@.cells[2], self@.cells[2], self@.cells[3], self@.cells[1]]),
    {
        let a = self.components();
        let out = [a[2], a[2], a[3], a[1]];
        proof {
            assert(out@ =~= seq![self@.cells[2], self@.cells[2], self@.cells[3], self@.cells[1]]);
        }
        Mat::from_components(out)
    }

    /// The components `zzwz`, in this order.
    pub fn zzwz(&self) -> (v: Mat<4, 1, T>)
        ensures
            v@ == Grid::column(seq![self@.cells[2], self@.cells[2], self@.cells[3], self@.cells[2]]),
    {
        let a = self.components();
        let out = [a[2], a[2], a[3], a[2]];
        proof {
            assert(out@ =~= seq![self@.cells[2], self@.cells[2], self@.cells[3], self@.cells[2]]);
        }
        Mat::from_components(out)
    }

    /// The components `zzww`, in this order.
    pub fn zzww(&self) -> (v: Mat<4, 1, T>)
        ensures
            v@ == Grid::column(seq![self@.cells[2], self@.cells[2], self@.cells[3], self@.cells[3]]),
    {
        let a = self.components();
        let out = [a[2], a[2], a[3], a[3]];
        proof {
            assert(out@ =~= seq![self@.cells[2], self@.cells[2], self@.cells[3], self@.cells[3]]);
        }
        Mat::from_components(out)
    }

    /// The components `zwxx`, in this order.
    pub fn zwxx(&self) -> (v: Mat<4, 1, T>)
        ensures
            v@ == Grid::column(seq![self@.cells[2], self@.cells[3], self@.cells[0], self@.cells[0]]),
    {
        let a = self.components();
        let out = [a[2], a[3], a[0], a[0]];
        proof {
            assert(out@ =~= seq![self@.cells[2], self@.cells[3], self@.cells[0], self@.cells[0]]);
        }
        Mat::from_components(out)
    }

    /// The components `zwxy`, in this order.
    pub fn zwxy(&self) -> (v: Mat<4, 1, T>)
        ensures
            v@ == Grid::column(seq![self@.cells[2], self@.cells[3], self@.cells[0], self@.cells[1]]),
    {
        let a = self.components();
        let out = [a[2], a[3], a[0], a[1]];
        proof {
            assert(out@ =~= seq![self@.cells[2], self@.cells[3], self@.cells[0], self@.cells[1]]);
        }
        Mat::from_components(out)
    }

    /// The components `zwxz`, in this order.
    pub fn zwxz(&self) -> (v: Mat<4, 1, T>)
        ensures
            v@ == Grid::column(seq![self@.cells[2], self@.cells[3], self@.cells[0], self@.cells[2]]),
    {
        let a = self.components();
        let out = [a[2], a[3], a[0], a[2]];
        proof {
            assert(out@ =~= seq![self@.cells[2], self@.cells[3], self@.cells[0], self@.cells[2]]);
        }
        Mat::from_components(out)
    }

    /// The components `zwxw`, in this order.
    pub fn zwxw(&self) -> (v: Mat<4, 1, T>)
        ensures
            v@ == Grid::column(seq![self@.cells[2], self@.cells[3], self@.cells[0], self@.cells[3]]),
    {
        let a = self.components();
        let out = [a[2], a[3], a[0], a[3]];
        proof {
            assert(out@ =~= seq![self@.cells[2], self@.cells[3], self@.cells[0], self@.cells[3]]);
        }
        Mat::from_components(out)
    }

    /// The components `zwyx`, in this order.
    pub fn zwyx(&self) -> (v: Mat<4, 1, T>)
        ensures
            v@ == Grid::column(seq![self@.cells[2], self@.cells[3], self@.cells[1], self@.cells[0]]),
    {
        let a = self.components();
        let out = [a[2], a[3], a[1], a[0]];
        proof {
            assert(out@ =~= seq![self@.cells[2], self@.cells[3], self@.cells[1], self@.cells[0]]);
        }
        Mat::from_components(out)
    }

    /// The components `zwyy`, in this order.
    pub fn zwyy(&self) -> (v: Mat<4, 1, T>)
        ensures
            v@ == Grid::column(seq![self@.cells[2], self@.cells[3], self@.cells[1], self@.cells[1]]),
    {
        let a = self.components();
        let out = [a[2], a[3], a[1], a[1]];
        proof {
            assert(out@ =~= seq![self@.cells[2], self@.cells[3], self@.cells[1], self@.cells[1]]);
        }
        Mat::from_components(out)
    }

    /// The components `zwyz`, in this order.
    pub fn zwyz(&self) -> (v: Mat<4, 1, T>)
        ensures
            v@ == Grid::column(seq![self@.cells[2], self@.cells[3], self@.cells[1], self@.cells[2]]),
    {
        let a = self.components();
        let out = [a[2], a[3], a[1], a[2]];
        proof {
            assert(out@ =~= seq![self@.cells[2], self@.cells[3], self@.cells[1], self@.cells[2]]);
        }
        Mat::from_components(out)
    }

    /// The components `zwyw`, in this order.
    pub fn zwyw(&self) -> (v: Mat<4, 1, T>)
        ensures
            v@ == Grid::column(seq![self@.cells[2], self@.cells[3], self@.cells[1], self@.cells[3]]),
    {
        let a = self.components();
        let out = [a[2], a[3], a[1], a[3]];
        proof {
            assert(out@ =~= seq![self@.cells[2], self@.cells[3], self@.cells[1], self@.cells[3]]);
        }
        Mat::from_components(out)
    }

    /// The components `zwzx`, in this order.
    pub fn zwzx(&self) -> (v: Mat<4, 1, T>)
        ensures
            v@ == Grid::column(seq![self@.cells[2], self@.cells[3], self@.cells[2], self@.cells[0]]),
    {
        let a = self.components();
        let out = [a[2], a[3], a[2], a[0]];
        proof {
            assert(out@ =~= seq![self@.cells[2], self@.cells[3], self@.cells[2], self@.cells[0]]);
        }
        Mat::from_components(out)
    }

    /// The components `zwzy`, in this order.
    pub fn zwzy(&self) -> (v: Mat<4, 1, T>)
        ensures
            v@ == Grid::column(seq![self@.cells[2], self@.cells[3], self@.cells[2], self@.cells[1]]),
    {
        let a = self.components();
        let out = [a[2], a[3], a[2], a[1]];
        proof {
            assert(out@ =~= seq![self@.cells[2], self@.cells[3], self@.cells[2], self@.cells[1]]);
        }
        Mat::from_components(out)
    }

    /// The components `zwzz`, in this order.
    pub fn zwzz(&self) -> (v: Mat<4, 1, T>)
        ensures
            v@ == Grid::column(seq![self@.cells[2], self@.cells[3], self@.cells[2], self@.cells[2]]),
    {
        let a = self.components();
        let out = [a[2], a[3], a[2], a[2]];
        proof {
            assert(out@ =~= seq![self@.cells[2], self@.cells[3], self@.cells[2], self@.cells[2]]);
        }
        Mat::from_components(out)
    }

    /// The components `zwzw`, in this order.
    pub fn zwzw(&self) -> (v: Mat<4, 1, T>)
        ensures
            v@ == Grid::column(seq![self@.cells[2], self@.cells[3], self@.cells[2], self@.cells[3]]),
    {
        let a = self.components();
        let out = [a[2], a[3], a[2], a[3]];
        proof {
            assert(out@ =~= seq![self@.cells[2], self@.cells[3], self@.cells[2], self@.cells[3]]);
        }
        Mat::from_components(out)
    }

    /// The components `zwwx`, in this order.
    pub fn zwwx(&self) -> (v: Mat<4, 1, T>)
        ensures
            v@ == Grid::column(seq![self@.cells[2], self@.cells[3], self@.cells[3], self@.cells[0]]),
    {
        let a = self.components();
        let out = [a[2], a[3], a[3], a[0]];
        proof {
            assert(out@ =~= seq![self@.cells[2], self@.cells[3], self@.cells[3], self@.cells[0]]);
        }
        Mat::from_components(out)
    }

    /// The components `zwwy`, in this order.
    pub fn zwwy(&self) -> (v: Mat<4, 1, T>)
        ensures
            v@ == Grid::column(seq![self@.cells[2], self@.cells[3], self@.cells[3], self@.cells[1]]),
    {
        let a = self.components();
        let out = [a[2], a[3], a[3], a[1]];
        proof {
            assert(out@ =~= seq![self@.cells[2], self@.cells[3], self@.cells[3], self@.cells[1]]);
        }
        Mat::from_components(out)
    }

    /// The components `zwwz`, in this order.
    pub fn zwwz(&self) -> (v: Mat<4, 1, T>)
        ensures
            v@ == Grid::column(seq![self@.cells[2], self@.cells[3], self@.cells[3], self@.cells[2]]),
    {
        let a = self.components();
        let out = [a[2], a[3], a[3], a[2]];
        proof {
            assert(out@ =~= seq![self@.cells[2], self@.cells[3], self@.cells[3], self@.cells[2]]);
        }
        Mat::from_components(out)
    }

    /// The components `zwww`, in this order.
    pub fn zwww(&self) -> (v: Mat<4, 1, T>)
        ensures
            v@ == Grid::column(seq![self@.cells[2], self@.cells[3], self@.cells[3], self@.cells[3]]),
    {
        let a = self.components();
        let out = [a[2], a[3], a[3], a[3]];
        proof {
            assert(out@ =~= seq![self@.cells[2], self@.cells[3], self@.cells[3], self@.cells[3]]);
        }
        Mat::from_components(out)
    }

    /// The components `wxxx`, in this order.
    pub fn wxxx(&self) -> (v: Mat<4, 1, T>)
        ensures
            v@ == Grid::column(seq![self@.cells[3], self@.cells[0], self@.cells[0], self@.cells[0]]),
    {
        let a = self.components();
        let out = [a[3], a[0], a[0], a[0]];
        proof {
            assert(out@ =~= seq![self@.cells[3], self@.cells[0], self@.cells[0], self@.cells[0]]);
        }
        Mat::from_components(out)
    }

    /// The components `wxxy`, in this order.
    pub fn wxxy(&self) -> (v: Mat<4, 1, T>)
        ensures
            v@ == Grid::column(seq![self@.cells[3], self@.cells[0], self@.cells[0], self@.cells[1]]),
    {
        let a = self.components();
        let out = [a[3], a[0], a[0], a[1]];
        proof {
            assert(out@ =~= seq![self@.cells[3], self@.cells[0], self@.cells[0], self@.cells[1]]);
        }
        Mat::from_components(out)
    }

    /// The components `wxxz`, in this order.
    pub fn wxxz(&self) -> (v: Mat<4, 1, T>)
        ensures
            v@ == Grid::column(seq![self@.cells[3], self@.cells[0], self@.cells[0], self@.cells[2]]),
    {
        let a = self.components();
        let out = [a[3], a[0], a[0], a[2]];
        proof {
            assert(out@ =~= seq![self@.cells[3], self@.cells[0], self@.cells[0], self@.cells[2]]);
        }
        Mat::from_components(out)
    }

    /// The components `wxxw`, in this order.
    pub fn wxxw(&self) -> (v: Mat<4, 1, T>)
        ensures
            v@ == Grid::column(seq![self@.cells[3], self@.cells[0], self@.cells[0], self@.cells[3]]),
    {
        let a = self.components();
        let out = [a[3], a[0], a[0], a[3]];
        proof {
            assert(out@ =~= seq![self@.cells[3], self@.cells[0], self@.cells[0], self@.cells[3]]);
        }
        Mat::from_components(out)
    }

    /// The components `wxyx`, in this order.
    pub fn wxyx(&self) -> (v: Mat<4, 1, T>)
        ensures
            v@ == Grid::column(seq![self@.cells[3], self@.cells[0], self@.cells[1], self@.cells[0]]),
    {
        let a = self.components();
        let out = [a[3], a[0], a[1], a[0]];
        proof {
            assert(out@ =~= seq![self@.cells[3], self@.cells[0], self@.cells[1], self@.cells[0]]);
        }
        Mat::from_components(out)
    }

    /// The components `wxyy`, in this order.
    pub fn wxyy(&self) -> (v: Mat<4, 1, T>)
        ensures
            v@ == Grid::column(seq![self@.cells[3], self@.cells[0], self@.cells[1], self@.cells[1]]),
    {
        let a = self.components();
        let out = [a[3], a[0], a[1], a[1]];
        proof {
            assert(out@ =~= seq![self@.cells[3], self@.cells[0], self@.cells[1], self@.cells[1]]);
        }
        Mat::from_components(out)
    }

    /// The components `wxyz`, in this order.
    pub fn wxyz(&self) -> (v: Mat<4, 1, T>)
        ensures
            v@ == Grid::column(seq![self@.cells[3], self@.cells[0], self@.cells[1], self@.cells[2]]),
    {
        let a = self.components();
        let out = [a[3], a[0], a[1], a[2]];
        proof {
            assert(out@ =~= seq![self@.cells[3], self@.cells[0], self@.cells[1], self@.cells[2]]);
        }
        Mat::from_components(out)
    }

    /// The components `wxyw`, in this order.
    pub fn wxyw(&self) -> (v: Mat<4, 1, T>)
        ensures
            v@ == Grid::column(seq![self@.cells[3], self@.cells[0], self@.cells[1], self@.cells[3]]),
    {
        let a = self.components();
        let out = [a[3], a[0], a[1], a[3]];
        proof {
            assert(out@ =~= seq![self@.cells[3], self@.cells[0], self@.cells[1], self@.cells[3]]);
        }
        Mat::from_components(out)
    }

    /// The components `wxzx`, in this order.
    pub fn wxzx(&self) -> (v: Mat<4, 1, T>)
        ensures
            v@ == Grid::column(seq![self@.cells[3], self@.cells[0], self@.cells[2], self@.cells[0]]),
    {
        let a = self.components();
        let out = [a[3], a[0], a[2], a[0]];
        proof {
            assert(out@ =~= seq![self@.cells[3], self@.cells[0], self@.cells[2], self@.cells[0]]);
        }
        Mat::from_components(out)
    }

    /// The components `wxzy`, in this order.
    pub fn wxzy(&self) -> (v: Mat<4, 1, T>)
        ensures
            v@ == Grid::column(seq![self@.cells[3], self@.cells[0], self@.cells[2], self@.cells[1]]),
    {
        let a = self.components();
        let out = [a[3], a[0], a[2], a[1]];
        proof {
            assert(out@ =~= seq![self@.cells[3], self@.cells[0], self@.cells[2], self@.cells[1]]);
        }
        Mat::from_components(out)
    }

    /// The components `wxzz`, in this order.
    pub fn wxzz(&self) -> (v: Mat<4, 1, T>)
        ensures
            v@ == Grid::column(seq![self@.cells[3], self@.cells[0], self@.cells[2], self@.cells[2]]),
    {
        let a = self.components();
        let out = [a[3], a[0], a[2], a[2]];
        proof {
            assert(out@ =~= seq![self@.cells[3], self@.cells[0], self@.cells[2], self@.cells[2]]);
        }
        Mat::from_components(out)
    }

    /// The components `wxzw`, in this order.
    pub fn wxzw(&self) -> (v: Mat<4, 1, T>)
        ensures
            v@ == Grid::column(seq![self@.cells[3], self@.cells[0], self@.cells[2], self@.cells[3]]),
    {
        let a = self.components();
        let out = [a[3], a[0], a[2], a[3]];
        proof {
            assert(out@ =~= seq![self@.cells[3], self@.cells[0], self@.cells[2], self@.cells[3]]);
        }
        Mat::from_components(out)
    }

    /// The components `wxwx`, in this order.
    pub fn wxwx(&self) -> (v: Mat<4, 1, T>)
        ensures
            v@ == Grid::column(seq![self@.cells[3], self@.cells[0], self@.cells[3], self@.cells[0]]),
    {
        let a = self.components();
        let out = [a[3], a[0], a[3], a[0]];
        proof {
            assert(out@ =~= seq![self@.cells[3], self@.cells[0], self@.cells[3], self@.cells[0]]);
        }
        Mat::from_components(out)
    }

    /// The components `wxwy`, in this order.
    pub fn wxwy(&self) -> (v: Mat<4, 1, T>)
        ensures
            v@ == Grid::column(seq![self@.cells[3], self@.cells[0], self@.cells[3], self@.cells[1]]),
    {
        let a = self.components();
        let out = [a[3], a[0], a[3], a[1]];
        proof {
            assert(out@ =~= seq![self@.cells[3], self@.cells[0], self@.cells[3], self@.cells[1]]);
        }
        Mat::from_components(out)
    }

    /// The components `wxwz`, in this order.
    pub fn wxwz(&self) -> (v: Mat<4, 1, T>)
        ensures
            v@ == Grid::column(seq![self@.cells[3], self@.cells[0], self@.cells[3], self@.cells[2]]),
    {
        let a = self.components();
        let out = [a[3], a[0], a[3], a[2]];
        proof {
            assert(out@ =~= seq![self@.cells[3], self@.cells[0], self@.cells[3], self@.cells[2]]);
        }
        Mat::from_components(out)
    }

    /// The components `wxww`, in this order.
    pub fn wxww(&self) -> (v: Mat<4, 1, T>)
        ensures
            v@ == Grid::column(seq![self@.cells[3], self@.cells[0], self@.cells[3], self@.cells[3]]),
    {
        let a = self.components();
        let out = [a[3], a[0], a[3], a[3]];
        proof {
            assert(out@ =~= seq![self@.cells[3], self@.cells[0], self@.cells[3], self@.cells[3]]);
        }
        Mat::from_components(out)
    }

    /// The components `wyxx`, in this order.
    pub fn wyxx(&self) -> (v: Mat<4, 1, T>)
        ensures
            v@ == Grid::column(seq![self@.cells[3], self@.cells[1], self@.cells[0], self@.cells[0]]),
    {
        let a = self.components();
        let out = [a[3], a[1], a[0], a[0]];
        proof {
            assert(out@ =~= seq![self@.cells[3], self@.cells[1], self@.cells[0], self@.cells[0]]);
        }
        Mat::from_components(out)
    }

    /// The components `wyxy`, in this order.
    pub fn wyxy(&self) -> (v: Mat<4, 1, T>)
        ensures
            v@ == Grid::column(seq![self@.cells[3], self@.cells[1], self@.cells[0], self@.cells[1]]),
    {
        let a = self.components();
        let out = [a[3], a[1], a[0], a[1]];
        proof {
            assert(out@ =~= seq![self@.cells[3], self@.cells[1], self@.cells[0], self@.cells[1]]);
        }
        Mat::from_components(out)
    }

    /// The components `wyxz`, in this order.
    pub fn wyxz(&self) -> (v: Mat<4, 1, T>)
        ensures
            v@ == Grid::column(seq![self@.cells[3], self@.cells[1], self@.cells[0], self@.cells[2]]),
    {
        let a = self.components();
        let out = [a[3], a[1], a[0], a[2]];
        proof {
            assert(out@ =~= seq![self@.cells[3], self@.cells[1], self@.cells[0], self@.cells[2]]);
        }
        Mat::from_components(out)
    }

    /// The components `wyxw`, in this order.
    pub fn wyxw(&self) -> (v: Mat<4, 1, T>)
        ensures
            v@ == Grid::column(seq![self@.cells[3], self@.cells[1], self@.cells[0], self@.cells[3]]),
    {
        let a = self.components();
        let out = [a[3], a[1], a[0], a[3]];
        proof {
            assert(out@ =~= seq![self@.cells[3], self@.cells[1], self@.cells[0], self@.cells[3]]);
        }
        Mat::from_components(out)
    }

    /// The components `wyyx`, in this order.
    pub fn wyyx(&self) -> (v: Mat<4, 1, T>)
        ensures
            v@ == Grid::column(seq![self@.cells[3], self@.cells[1], self@.cells[1], self@.cells[0]]),
    {
        let a = self.components();
        let out = [a[3], a[1], a[1], a[0]];
        proof {
            assert(out@ =~= seq![self@.cells[3], self@.cells[1], self@.cells[1], self@.cells[0]]);
        }
        Mat::from_components(out)
    }

    /// The components `wyyy`, in this order.
    pub fn wyyy(&self) -> (v: Mat<4, 1, T>)
        ensures
            v@ == Grid::column(seq![self@.cells[3], self@.cells[1], self@.cells[1], self@.cells[1]]),
    {
        let a = self.components();
        let out = [a[3], a[1], a[1], a[1]];
        proof {
            assert(out@ =~= seq![self@.cells[3], self@.cells[1], self@.cells[1], self@.cells[1]]);
        }
        Mat::from_components(out)
    }

    /// The components `wyyz`, in this order.
    pub fn wyyz(&self) -> (v: Mat<4, 1, T>)
        ensures
            v@ == Grid::column(seq![self@.cells[3], self@.cells[1], self@.cells[1], self@.cells[2]]),
    {
        let a = self.components();
        let out = [a[3], a[1], a[1], a[2]];
        proof {
            assert(out@ =~= seq![self@.cells[3], self@.cells[1], self@.cells[1], self@.cells[2]]);
        }
        Mat::from_components(out)
    }

    /// The components `wyyw`, in this order.
    pub fn wyyw(&self) -> (v: Mat<4, 1, T>)
        ensures
            v@ == Grid::column(seq![self@.cells[3], self@.cells[1], self@.cells[1], self@.cells[3]]),
    {
        let a = self.components();
        let out = [a[3], a[1], a[1], a[3]];
        proof {
            assert(out@ =~= seq![self@.cells[3], self@.cells[1], self@.cells[1], self@.cells[3]]);
        }
        Mat::from_components(out)
    }

    /// The components `wyzx`, in this order.
    pub fn wyzx(&self) -> (v: Mat<4, 1, T>)
        ensures
            v@ == Grid::column(seq![self@.cells[3], self@.cells[1], self@.cells[2], self@.cells[0]]),
    {
        let a = self.components();
        let out = [a[3], a[1], a[2], a[0]];
        proof {
            assert(out@ =~= seq![self@.cells[3], self@.cells[1], self@.cells[2], self@.cells[0]]);
        }
        Mat::from_components(out)
    }

    /// The components `wyzy`, in this order.
    pub fn wyzy(&self) -> (v: Mat<4, 1, T>)
        ensures
            v@ == Grid::column(seq![self@.cells[3], self@.cells[1], self@.cells[2], self@.cells[1]]),
    {
        let a = self.components();
        let out = [a[3], a[1], a[2], a[1]];
        proof {
            assert(out@ =~= seq![self@.cells[3], self@.cells[1], self@.cells[2], self@.cells[1]]);
        }
        Mat::from_components(out)
    }

    /// The components `wyzz`, in this order.
    pub fn wyzz(&self) -> (v: Mat<4, 1, T>)
        ensures
            v@ == Grid::column(seq![self@.cells[3], self@.cells[1], self@.cells[2], self@.cells[2]]),
    {
        let a = self.components();
        let out = [a[3], a[1], a[2], a[2]];
        proof {
            assert(out@ =~= seq![self@.cells[3], self@.cells[1], self@.cells[2], self@.cells[2]]);
        }
        Mat::from_components(out)
    }

    /// The components `wyzw`, in this order.
    pub fn wyzw(&self) -> (v: Mat<4, 1, T>)
        ensures
            v@ == Grid::column(seq![self@.cells[3], self@.cells[1], self@.cells[2], self@.cells[3]]),
    {
        let a = self.components();
        let out = [a[3], a[1], a[2], a[3]];
        proof {
            assert(out@ =~= seq![self@.cells[3], self@.cells[1], self@.cells[2], self@.cells[3]]);
        }
        Mat::from_components(out)
    }

    /// The components `wywx`, in this order.
    pub fn wywx(&self) -> (v: Mat<4, 1, T>)
        ensures
            v@ == Grid::column(seq![self@.cells[3], self@.cells[1], self@.cells[3], self@.cells[0]]),
    {
        let a = self.components();
        let out = [a[3], a[1], a[3], a[0]];
        proof {
            assert(out@ =~= seq![self@.cells[3], self@.cells[1], self@.cells[3], self@.cells[0]]);
        }
        Mat::from_components(out)
    }

    /// The components `wywy`, in this order.
    pub fn wywy(&self) -> (v: Mat<4, 1, T>)
        ensures
            v@ == Grid::column(seq![self@.cells[3], self@.cells[1], self@.cells[3], self@.cells[1]]),
    {
        let a = self.components();
        let out = [a[3], a[1], a[3], a[1]];
        proof {
            assert(out@ =~= seq![self@.cells[3], self@.cells[1], self@.cells[3], self@.cells[1]]);
        }
        Mat::from_components(out)
    }

    /// The components `wywz`, in this order.
    pub fn wywz(&self) -> (v: Mat<4, 1, T>)
        ensures
            v@ == Grid::column(seq![self@.cells[3], self@.cells[1], self@.cells[3], self@.cells[2]]),
    {
        let a = self.components();
        let out = [a[3], a[1], a[3], a[2]];
        proof {
            assert(out@ =~= seq![self@.cells[3], self@.cells[1], self@.cells[3], self@.cells[2]]);
        }
        Mat::from_components(out)
    }

    /// The components `wyww`, in this order.
    pub fn wyww(&self) -> (v: Mat<4, 1, T>)
        ensures
            v@ == Grid::column(seq![self@.cells[3], self@.cells[1], self@.cells[3], self@.cells[3]]),
    {
        let a = self.components();
        let out = [a[3], a[1], a[3], a[3]];
        proof {
            assert(out@ =~= seq![self@.cells[3], self@.cells[1], self@.cells[3], self@.cells[3]]);
        }
        Mat::from_components(out)
    }

    /// The components `wzxx`, in this order.
    pub fn wzxx(&self) -> (v: Mat<4, 1, T>)
        ensures
            v@ == Grid::column(seq![self@.cells[3], self@.cells[2], self@.cells[0], self@.cells[0]]),
    {
        let a = self.components();
        let out = [a[3], a[2], a[0], a[0]];
        proof {
            assert(out@ =~= seq![self@.cells[3], self@.cells[2], self@.cells[0], self@.cells[0]]);
        }
        Mat::from_components(out)
    }

    /// The components `wzxy`, in this order.
    pub fn wzxy(&self) -> (v: Mat<4, 1, T>)
        ensures
            v@ == Grid::column(seq![self@.cells[3], self@.cells[2], self@.cells[0], self@.cells[1]]),
    {
        let a = self.components();
        let out = [a[3], a[2], a[0], a[1]];
        proof {
            assert(out@ =~= seq![self@.cells[3], self@.cells[2], self@.cells[0], self@.cells[1]]);
        }
        Mat::from_components(out)
    }

    /// The components `wzxz`, in this order.
    pub fn wzxz(&self) -> (v: Mat<4, 1, T>)
        ensures
            v@ == Grid::column(seq![self@.cells[3], self@.cells[2], self@.cells[0], self@.cells[2]]),
    {
        let a = self.components();
        let out = [a[3], a[2], a[0], a[2]];
        proof {
            assert(out@ =~= seq![self@.cells[3], self@.cells[2], self@.cells[0], self@.cells[2]]);
        }
        Mat::from_components(out)
    }

    /// The components `wzxw`, in this order.
    pub fn wzxw(&self) -> (v: Mat<4, 1, T>)
        ensures
            v@ == Grid::column(seq![self@.cells[3], self@.cells[2], self@.cells[0], self@.cells[3]]),
    {
        let a = self.components();
        let out = [a[3], a[2], a[0], a[3]];
        proof {
            assert(out@ =~= seq![self@.cells[3], self@.cells[2], self@.cells[0], self@.cells[3]]);
        }
        Mat::from_components(out)
    }

    /// The components `wzyx`, in this order.
    pub fn wzyx(&self) -> (v: Mat<4, 1, T>)
        ensures
            v@ == Grid::column(seq![self@.cells[3], self@.cells[2], self@.cells[1], self@.cells[0]]),
    {
        let a = self.components();
        let out = [a[3], a[2], a[1], a[0]];
        proof {
            assert(out@ =~= seq![self@.cells[3], self@.cells[2], self@.cells[1], self@.cells[0]]);
        }
        Mat::from_components(out)
    }

    /// The components `wzyy`, in this order.
    pub fn wzyy(&self) -> (v: Mat<4, 1, T>)
        ensures
            v@ == Grid::column(seq![self@.cells[3], self@.cells[2], self@.cells[1], self@.cells[1]]),
    {
        let a = self.components();
        let out = [a[3], a[2], a[1], a[1]];
        proof {
            assert(out@ =~= seq![self@.cells[3], self@.cells[2], self@.cells[1], self@.cells[1]]);
        }
        Mat::from_components(out)
    }

    /// The components `wzyz`, in this order.
    pub fn wzyz(&self) -> (v: Mat<4, 1, T>)
        ensures
            v@ == Grid::column(seq![self@.cells[3], self@.cells[2], self@.cells[1], self@.cells[2]]),
    {
        let a = self.components();
        let out = [a[3], a[2], a[1], a[2]];
        proof {
            assert(out@ =~= seq![self@.cells[3], self@.cells[2], self@.cells[1], self@.cells[2]]);
        }
        Mat::from_components(out)
    }

    /// The components `wzyw`, in this order.
    pub fn wzyw(&self) -> (v: Mat<4, 1, T>)
        ensures
            v@ == Grid::column(seq![self@.cells[3], self@.cells[2], self@.cells[1], self@.cells[3]]),
    {
        let a = self.components();
        let out = [a[3], a[2], a[1], a[3]];
        proof {
            assert(out@ =~= seq![self@.cells[3], self@.cells[2], self@.cells[1], self@.cells[3]]);
        }
        Mat::from_components(out)
    }

    /// The components `wzzx`, in this order.
    pub fn wzzx(&self) -> (v: Mat<4, 1, T>)
        ensures
            v@ == Grid::column(seq![self@.cells[3], self@.cells[2], self@.cells[2], self@.cells[0]]),
    {
        let a = self.components();
        let out = [a[3], a[2], a[2], a[0]];
        proof {
            assert(out@ =~= seq![self@.cells[3], self@.cells[2], self@.cells[2], self@.cells[0]]);
        }
        Mat::from_components(out)
    }

    /// The components `wzzy`, in this order.
    pub fn wzzy(&self) -> (v: Mat<4, 1, T>)
        ensures
            v@ == Grid::column(seq![self@.cells[3], self@.cells[2], self@.cells[2], self@.cells[1]]),
    {
        let a = self.components();
        let out = [a[3], a[2], a[2], a[1]];
        proof {
            assert(out@ =~= seq![self@.cells[3], self@.cells[2], self@.cells[2], self@.cells[1]]);
        }
        Mat::from_components(out)
    }

    /// The components `wzzz`, in this order.
    pub fn wzzz(&self) -> (v: Mat<4, 1, T>)
        ensures
            v@ == Grid::column(seq![self@.cells[3], self@.cells[2], self@.cells[2], self@.cells[2]]),
    {
        let a = self.components();
        let out = [a[3], a[2], a[2], a[2]];
        proof {
            assert(out@ =~= seq![self@.cells[3], self@.cells[2], self@.cells[2], self@.cells[2]]);
        }
        Mat::from_components(out)
    }

    /// The components `wzzw`, in this order.
    pub fn wzzw(&self) -> (v: Mat<4, 1, T>)
        ensures
            v@ == Grid::column(seq![self@.cells[3], self@.cells[2], self@.cells[2], self@.cells[3]]),
    {
        let a = self.components();
        let out = [a[3], a[2], a[2], a[3]];
        proof {
            assert(out@ =~= seq![self@.cells[3], self@.cells[2], self@.cells[2], self@.cells[3]]);
        }
        Mat::from_components(out)
    }

    /// The components `wzwx`, in this order.
    pub fn wzwx(&self) -> (v: Mat<4, 1, T>)
        ensures
            v@ == Grid::column(seq![self@.cells[3], self@.cells[2], self@.cells[3], self@.cells[0]]),
    {
        let a = self.components();
        let out = [a[3], a[2], a[3], a[0]];
        proof {
            assert(out@ =~= seq![self@.cells[3], self@.cells[2], self@.cells[3], self@.cells[0]]);
        }
        Mat::from_components(out)
    }

    /// The components `wzwy`, in this order.
    pub fn wzwy(&self) -> (v: Mat<4, 1, T>)
        ensures
            v@ == Grid::column(seq![self@.cells[3], self@.cells[2], self@.cells[3], self@.cells[1]]),
    {
        let a = self.components();
        let out = [a[3], a[2], a[3], a[1]];
        proof {
            assert(out@ =~= seq![self@.cells[3], self@.cells[2], self@.cells[3], self@.cells[1]]);
        }
        Mat::from_components(out)
    }

    /// The components `wzwz`, in this order.
    pub fn wzwz(&self) -> (v: Mat<4, 1, T>)
        ensures
            v@ == Grid::column(seq![self@.cells[3], self@.cells[2], self@.cells[3], self@.cells[2]]),
    {
        let a = self.components();
        let out = [a[3], a[2], a[3], a[2]];
        proof {
            assert(out@ =~= seq![self@.cells[3], self@.cells[2], self@.cells[3], self@.cells[2]]);
        }
        Mat::from_components(out)
    }

    /// The components `wzww`, in this order.
    pub fn wzww(&self) -> (v: Mat<4, 1, T>)
        ensures
            v@ == Grid::column(seq![self@.cells[3], self@.cells[2], self@.cells[3], self@.cells[3]]),
    {
        let a = self.components();
        let out = [a[3], a[2], a[3], a[3]];
        proof {
            assert(out@ =~= seq![self@.cells[3], self@.cells[2], self@.cells[3], self@.cells[3]]);
        }
        Mat::from_components(out)
    }

    /// The components `wwxx`, in this order.
    pub fn wwxx(&self) -> (v: Mat<4, 1, T>)
        ensures
            v@ == Grid::column(seq![self@.cells[3], self@.cells[3], self@.cells[0], self@.cells[0]]),
    {
        let a = self.components();
        let out = [a[3], a[3], a[0], a[0]];
        proof {
            assert(out@ =~= seq![self@.cells[3], self@.cells[3], self@.cells[0], self@.cells[0]]);
        }
        Mat::from_components(out)
    }

    /// The components `wwxy`, in this order.
    pub fn wwxy(&self) -> (v: Mat<4, 1, T>)
        ensures
            v@ == Grid::column(seq![self@.cells[3], self@.cells[3], self@.cells[0], self@.cells[1]]),
    {
        let a = self.components();
        let out = [a[3], a[3], a[0], a[1]];
        proof {
            assert(out@ =~= seq![self@.cells[3], self@.cells[3], self@.cells[0], self@.cells[1]]);
        }
        Mat::from_components(out)
    }

    /// The components `wwxz`, in this order.
    pub fn wwxz(&self) -> (v: Mat<4, 1, T>)
        ensures
            v@ == Grid::column(seq![self@.cells[3], self@.cells[3], self@.cells[0], self@.cells[2]]),
    {
        let a = self.components();
        let out = [a[3], a[3], a[0], a[2]];
        proof {
            assert(out@ =~= seq![self@.cells[3], self@.cells[3], self@.cells[0], self@.cells[2]]);
        }
        Mat::from_components(out)
    }

    /// The components `wwxw`, in this order.
    pub fn wwxw(&self) -> (v: Mat<4, 1, T>)
        ensures
            v@ == Grid::column(seq![self@.cells[3], self@.cells[3], self@.cells[0], self@.cells[3]]),
    {
        let a = self.components();
        let out = [a[3], a[3], a[0], a[3]];
        proof {
            assert(out@ =~= seq![self@.cells[3], self@.cells[3], self@.cells[0], self@.cells[3]]);
        }
        Mat::from_components(out)
    }

    /// The components `wwyx`, in this order.
    pub fn wwyx(&self) -> (v: Mat<4, 1, T>)
        ensures
            v@ == Grid::column(seq![self@.cells[3], self@.cells[3], self@.cells[1], self@.cells[0]]),
    {
        let a = self.components();
        let out = [a[3], a[3], a[1], a[0]];
        proof {
            assert(out@ =~= seq![self@.cells[3], self@.cells[3], self@.cells[1], self@.cells[0]]);
        }
        Mat::from_components(out)
    }

    /// The components `wwyy`, in this order.
    pub fn wwyy(&self) -> (v: Mat<4, 1, T>)
        ensures
            v@ == Grid::column(seq![self@.cells[3], self@.cells[3], self@.cells[1], self@.cells[1]]),
    {
        let a = self.components();
        let out = [a[3], a[3], a[1], a[1]];
        proof {
            assert(out@ =~= seq![self@.cells[3], self@.cells[3], self@.cells[1], self@.cells[1]]);
        }
        Mat::from_components(out)
    }

    /// The components `wwyz`, in this order.
    pub fn wwyz(&self) -> (v: Mat<4, 1, T>)
        ensures
            v@ == Grid::column(seq![self@.cells[3], self@.cells[3], self@.cells[1], self@.cells[2]]),
    {
        let a = self.components();
        let out = [a[3], a[3], a[1], a[2]];
        proof {
            assert(out@ =~= seq![self@.cells[3], self@.cells[3], self@.cells[1], self@.cells[2]]);
        }
        Mat::from_components(out)
    }

    /// The components `wwyw`, in this order.
    pub fn wwyw(&self) -> (v: Mat<4, 1, T>)
        ensures
            v@ == Grid::column(seq![self@.cells[3], self@.cells[3], self@.cells[1], self@.cells[3]]),
    {
        let a = self.components();
        let out = [a[3], a[3], a[1], a[3]];
        proof {
            assert(out@ =~= seq![self@.cells[3], self@.cells[3], self@.cells[1], self@.cells[3]]);
        }
        Mat::from_components(out)
    }

    /// The components `wwzx`, in this order.
    pub fn wwzx(&self) -> (v: Mat<4, 1, T>)
        ensures
            v@ == Grid::column(seq![self@.cells[3], self@.cells[3], self@.cells[2], self@.cells[0]]),
    {
        let a = self.components();
        let out = [a[3], a[3], a[2], a[0]];
        proof {
            assert(out@ =~= seq![self@.cells[3], self@.cells[3], self@.cells[2], self@.cells[0]]);
        }
        Mat::from_components(out)
    }

    /// The components `wwzy`, in this order.
    pub fn wwzy(&self) -> (v: Mat<4, 1, T>)
        ensures
            v@ == Grid::column(seq![self@.cells[3], self@.cells[3], self@.cells[2], self@.cells[1]]),
    {
        let a = self.components();
        let out = [a[3], a[3], a[2], a[1]];
        proof {
            assert(out@ =~= seq![self@.cells[3], self@.cells[3], self@.cells[2], self@.cells[1]]);
        }
        Mat::from_components(out)
    }

    /// The components `wwzz`, in this order.
    pub fn wwzz(&self) -> (v: Mat<4, 1, T>)
        ensures
            v@ == Grid::column(seq![self@.cells[3], self@.cells[3], self@.cells[2], self@.cells[2]]),
    {
        let a = self.components();
        let out = [a[3], a[3], a[2], a[2]];
        proof {
            assert(out@ =~= seq![self@.cells[3], self@.cells[3], self@.cells[2], self@.cells[2]]);
        }
        Mat::from_components(out)
    }

    /// The components `wwzw`, in this order.
    pub fn wwzw(&self) -> (v: Mat<4, 1, T>)
        ensures
            v@ == Grid::column(seq![self@.cells[3], self@.cells[3], self@.cells[2], self@.cells[3]]),
    {
        let a = self.components();
        let out = [a[3], a[3], a[2], a[3]];
        proof {
            assert(out@ =~= seq![self@.cells[3], self@.cells[3], self@.cells[2], self@.cells[3]]);
        }
        Mat::from_components(out)
    }

    /// The components `wwwx`, in this order.
    pub fn wwwx(&self) -> (v: Mat<4, 1, T>)
        ensures
            v@ == Grid::column(seq![self@.cells[3], self@.cells[3], self@.cells[3], self@.cells[0]]),
    {
        let a = self.components();
        let out = [a[3], a[3], a[3], a[0]];
        proof {
            assert(out@ =~= seq![self@.cells[3], self@.cells[3], self@.cells[3], self@.cells[0]]);
        }
        Mat::from_components(out)
    }

    /// The components `wwwy`, in this order.
    pub fn wwwy(&self) -> (v: Mat<4, 1, T>)
        ensures
            v@ == Grid::column(seq![self@.cells[3], self@.cells[3], self@.cells[3], self@.cells[1]]),
    {
        let a = self.components();
        let out = [a[3], a[3], a[3], a[1]];
        proof {
            assert(out@ =~= seq![self@.cells[3], self@.cells[3], self@.cells[3], self@.cells[1]]);
        }
        Mat::from_components(out)
    }

    /// The components `wwwz`, in this order.
    pub fn wwwz(&self) -> (v: Mat<4, 1, T>)
        ensures
            v@ == Grid::column(seq![self@.cells[3], self@.cells[3], self@.cells[3], self@.cells[2]]),
    {
        let a = self.components();
        let out = [a[3], a[3], a[3], a[2]];
        proof {
            assert(out@ =~= seq![self@.cells[3], self@.cells[3], self@.cells[3], self@.cells[2]]);
        }
        Mat::from_components(out)
    }

    /// The components `wwww`, in this order.
    pub fn wwww(&self) -> (v: Mat<4, 1, T>)
        ensures
            v@ == Grid::column(seq![self@.cells[3], self@.cells[3], self@.cells[3], self@.cells[3]]),
    {
        let a = self.components();
        let out = [a[3], a[3], a[3], a[3]];
        proof {
            assert(out@ =~= seq![self@.cells[3], self@.cells[3], self@.cells[3], self@.cells[3]]);
        }
        Mat::from_components(out)
    }

    /// Replaces the component `x`.
    pub fn set_x(&mut self, value: T)
        ensures
            final(self)@ == Grid::column(old(self)@.cells.update(0, value)),
    {
        self.set_component(0, value);
    }

    /// Replaces the component `y`.
    pub fn set_y(&mut self, value: T)
        ensures
            final(self)@ == Grid::column(old(self)@.cells.update(1, value)),
    {
        self.set_component(1, value);
    }

    /// Replaces the component `z`.
    pub fn set_z(&mut self, value: T)
        ensures
            final(self)@ == Grid::column(old(self)@.cells.update(2, value)),
    {
        self.set_component(2, value);
    }

    /// Replaces the component `w`.
    pub fn set_w(&mut self, value: T)
        ensures
            final(self)@ == Grid::column(old(self)@.cells.update(3, value)),
    {
        self.set_component(3, value);
    }
}

} // verus!
