use crate::grid::Grid;
use crate::mat::Mat;
use crate::traits::Float;
use crate::traits::UnitOne;
use crate::traits::Zero;
use crate::vector::inner;
use crate::vector::normalize_spec;
use crate::vector::cross_spec;
use vstd::prelude::*;
use vstd::std_specs::ops::AddSpec;
use vstd::std_specs::ops::DivSpec;
use vstd::std_specs::ops::MulSpec;
use vstd::std_specs::ops::NegSpec;
use vstd::std_specs::ops::SubSpec;

pub use crate::utils::degree;
pub use crate::utils::radian;

verus! {

/// The matrix that scales the plane by the components of `v`.
pub open spec fn scale2d_spec<T: Float>(v: Seq<T>) -> Grid<T> {
    let o = T::zero_spec();
    let i = T::unit_one_spec();
    Grid::of_columns(seq![seq![v[0], o, o], seq![o, v[1], o], seq![o, o, i]])
}

/// The matrix that moves the plane by `v`.
pub open spec fn translate2d_spec<T: Float>(v: Seq<T>) -> Grid<T> {
    let o = T::zero_spec();
    let i = T::unit_one_spec();
    Grid::of_columns(seq![seq![i, o, o], seq![o, i, o], seq![v[0], v[1], i]])
}

/// The matrix that turns the plane by `angle`, in radians.
pub open spec fn rotate2d_spec<T: Float>(angle: T) -> Grid<T> {
    let o = T::zero_spec();
    let i = T::unit_one_spec();
    let c = angle.cos_spec();
    let s = angle.sin_spec();
    Grid::of_columns(seq![seq![c, s, o], seq![s.neg_spec(), c, o], seq![o, o, i]])
}

/// The matrix that moves space by `v`.
pub open spec fn translate3d_spec<T: Float>(v: Seq<T>) -> Grid<T> {
    let o = T::zero_spec();
    let i = T::unit_one_spec();
    Grid::of_columns(
        seq![seq![i, o, o, o], seq![o, i, o, o], seq![o, o, i, o], seq![v[0], v[1], v[2], i]],
    )
}

/// The matrix that scales space by the components of `v`.
pub open spec fn scale3d_spec<T: Float>(v: Seq<T>) -> Grid<T> {
    let o = T::zero_spec();
    let i = T::unit_one_spec();
    Grid::of_columns(
        seq![seq![v[0], o, o, o], seq![o, v[1], o, o], seq![o, o, v[2], o], seq![o, o, o, i]],
    )
}

/// The matrix that turns space about the x axis by `angle`, in radians.
pub open spec fn rotate3d_x_spec<T: Float>(angle: T) -> Grid<T> {
    let o = T::zero_spec();
    let i = T::unit_one_spec();
    let c = angle.cos_spec();
    let s = angle.sin_spec();
    Grid::of_columns(
        seq![seq![i, o, o, o], seq![o, c, s, o], seq![o, s.neg_spec(), c, o], seq![o, o, o, i]],
    )
}

/// The matrix that turns space about the y axis by `angle`, in radians.
pub open spec fn rotate3d_y_spec<T: Float>(angle: T) -> Grid<T> {
    let o = T::zero_spec();
    let i = T::unit_one_spec();
    let c = angle.cos_spec();
    let s = angle.sin_spec();
    Grid::of_columns(
        seq![seq![c, o, s.neg_spec(), o], seq![o, i, o, o], seq![s, o, c, o], seq![o, o, o, i]],
    )
}

/// The matrix that turns space about the z axis by `angle`, in radians.
pub open spec fn rotate3d_z_spec<T: Float>(angle: T) -> Grid<T> {
    let o = T::zero_spec();
    let i = T::unit_one_spec();
    let c = angle.cos_spec();
    let s = angle.sin_spec();
    Grid::of_columns(
        seq![seq![c, s, o, o], seq![s.neg_spec(), c, o, o], seq![o, o, i, o], seq![o, o, o, i]],
    )
}

/// The matrix that turns space about the axis with the components `axis` by
/// `angle`, in radians, by Rodrigues' formula. The axis is taken as it is:
/// the result is a rotation only where its length is one.
pub open spec fn rotate3d_no_norm_spec<T: Float>(axis: Seq<T>, angle: T) -> Grid<T> {
    let o = T::zero_spec();
    let i = T::unit_one_spec();
    let x = axis[0];
    let y = axis[1];
    let z = axis[2];
    let c = angle.cos_spec();
    let s = angle.sin_spec();
    let c1 = i.sub_spec(c);
    let xyc1 = x.mul_spec(y).mul_spec(c1);
    let yzc1 = y.mul_spec(z).mul_spec(c1);
    let xzc1 = x.mul_spec(z).mul_spec(c1);
    let xs = x.mul_spec(s);
    let ys = y.mul_spec(s);
    let zs = z.mul_spec(s);
    let xxc1 = x.mul_spec(x).mul_spec(c1);
    let yyc1 = y.mul_spec(y).mul_spec(c1);
    let zzc1 = z.mul_spec(z).mul_spec(c1);
    Grid::of_columns(
        seq![
            seq![c.add_spec(xxc1), xyc1.add_spec(zs), xzc1.sub_spec(ys), o],
            seq![xyc1.sub_spec(zs), c.add_spec(yyc1), yzc1.add_spec(xs), o],
            seq![xzc1.add_spec(ys), yzc1.sub_spec(xs), c.add_spec(zzc1), o],
            seq![o, o, o, i],
        ],
    )
}

/// The matrix that turns space about the direction of `axis` by `angle`, in
/// radians: the axis is scaled to length one first.
pub open spec fn rotate3d_spec<T: Float>(axis: Seq<T>, angle: T) -> Grid<T> {
    rotate3d_no_norm_spec(normalize_spec(axis), angle)
}

/// The difference of two vectors of three components.
pub open spec fn minus3<T: Float>(a: Seq<T>, b: Seq<T>) -> Seq<T> {
    seq![a[0].sub_spec(b[0]), a[1].sub_spec(b[1]), a[2].sub_spec(b[2])]
}

/// The view matrix of a camera at `eye` that looks at `center`, with `up`
/// pointing upwards: `z` is the direction from `center` to `eye`, `x` the
/// direction of `up` cross `z`, and `y` is `z` cross `x`; the rows of the
/// matrix are `x`, `y` and `z`, and the last column takes `eye` to the
/// origin.
pub open spec fn look_at_spec<T: Float>(eye: Seq<T>, center: Seq<T>, up: Seq<T>) -> Grid<T> {
    let o = T::zero_spec();
    let i = T::unit_one_spec();
    let z = normalize_spec(minus3(eye, center));
    let x = normalize_spec(cross_spec(up, z));
    let y = cross_spec(z, x);
    let a = inner(x, eye, 3).neg_spec();
    let b = inner(y, eye, 3).neg_spec();
    let c = inner(z, eye, 3).neg_spec();
    Grid::of_columns(
        seq![
            seq![x[0], y[0], z[0], o],
            seq![x[1], y[1], z[1], o],
            seq![x[2], y[2], z[2], o],
            seq![a, b, c, i],
        ],
    )
}

/// The perspective projection with the vertical field of view `fov`, in
/// radians, the ratio `aspect` of width to height and the two clipping
/// planes.
pub open spec fn perspective_spec<T: Float>(fov: T, aspect: T, z_near: T, z_far: T) -> Grid<T> {
    let o = T::zero_spec();
    let i = T::unit_one_spec();
    let two = i.add_spec(i);
    let f = i.div_spec(fov.div_spec(two).tan_spec());
    let ratio = i.div_spec(z_near.sub_spec(z_far));
    let m = z_far.add_spec(z_near).mul_spec(ratio);
    let n = two.mul_spec(z_far).mul_spec(z_near).mul_spec(ratio);
    Grid::of_columns(
        seq![
            seq![f.div_spec(aspect), o, o, o],
            seq![o, f, o, o],
            seq![o, o, m, i.neg_spec()],
            seq![o, o, n, o],
        ],
    )
}

/// The orthographic projection of the box with the given sides and clipping
/// planes.
pub open spec fn orthographic_spec<T: Float>(
    left: T,
    top: T,
    right: T,
    bottom: T,
    z_near: T,
    z_far: T,
) -> Grid<T> {
    let o = T::zero_spec();
    let i = T::unit_one_spec();
    let two = i.add_spec(i);
    let rl = i.div_spec(right.sub_spec(left));
    let tb = i.div_spec(top.sub_spec(bottom));
    let nf = i.div_spec(z_near.sub_spec(z_far));
    Grid::of_columns(
        seq![
            seq![two.mul_spec(rl), o, o, o],
            seq![o, two.mul_spec(tb), o, o],
            seq![o, o, two.mul_spec(nf), o],
            seq![
                rl.neg_spec().mul_spec(right.add_spec(left)),
                tb.neg_spec().mul_spec(top.add_spec(bottom)),
                nf.neg_spec().mul_spec(z_near.add_spec(z_far)),
                i,
            ],
        ],
    )
}

/// The matrix with the given three columns.
fn pack3<T: Float>(data: [[T; 3]; 3]) -> (m: Mat<3, 3, T>)
    ensures
        m@ == Grid::of_columns(seq![data[0]@, data[1]@, data[2]@]),
{
    let m = Mat::new(data);
    proof {
        let columns = seq![data[0]@, data[1]@, data[2]@];
        Grid::lemma_of_columns(columns, 3);
        m@.lemma_equal_by_cells(Grid::of_columns(columns));
    }
    m
}

/// The matrix with the given four columns.
fn pack4<T: Float>(data: [[T; 4]; 4]) -> (m: Mat<4, 4, T>)
    ensures
        m@ == Grid::of_columns(seq![data[0]@, data[1]@, data[2]@, data[3]@]),
{
    let m = Mat::new(data);
    proof {
        let columns = seq![data[0]@, data[1]@, data[2]@, data[3]@];
        Grid::lemma_of_columns(columns, 4);
        m@.lemma_equal_by_cells(Grid::of_columns(columns));
    }
    m
}

/// The matrix that scales the plane by the components of `v`.
pub fn scale2d<T: Float>(v: Mat<2, 1, T>) -> (m: Mat<3, 3, T>)
    ensures
        m@ == scale2d_spec(v@.cells),
{
    let o = T::zero();
    let i = T::unit_one();
    let a = v.components();
    let data = [[a[0], o, o], [o, a[1], o], [o, o, i]];
    proof {
        assert(data[0]@ =~= seq![a[0], o, o]);
        assert(data[1]@ =~= seq![o, a[1], o]);
        assert(data[2]@ =~= seq![o, o, i]);
    }
    pack3(data)
}

/// The matrix that moves the plane by `v`.
pub fn translate2d<T: Float>(v: Mat<2, 1, T>) -> (m: Mat<3, 3, T>)
    ensures
        m@ == translate2d_spec(v@.cells),
{
    let o = T::zero();
    let i = T::unit_one();
    let a = v.components();
    let data = [[i, o, o], [o, i, o], [a[0], a[1], i]];
    proof {
        assert(data[0]@ =~= seq![i, o, o]);
        assert(data[1]@ =~= seq![o, i, o]);
        assert(data[2]@ =~= seq![a[0], a[1], i]);
    }
    pack3(data)
}

/// The matrix that turns the plane by `angle`, in radians.
pub fn rotate2d<T: Float>(angle: T) -> (m: Mat<3, 3, T>)
    ensures
        m@ == rotate2d_spec(angle),
{
    proof {
        T::arithmetic_is_total();
    }
    let o = T::zero();
    let i = T::unit_one();
    let c = angle.cos();
    let s = angle.sin();
    assert(s.neg_req());
    let ns = s.neg();
    let data = [[c, s, o], [ns, c, o], [o, o, i]];
    proof {
        assert(data[0]@ =~= seq![c, s, o]);
        assert(data[1]@ =~= seq![ns, c, o]);
        assert(data[2]@ =~= seq![o, o, i]);
    }
    pack3(data)
}

/// The matrix that moves space by `v`.
pub fn translate3d<T: Float>(v: Mat<3, 1, T>) -> (m: Mat<4, 4, T>)
    ensures
        m@ == translate3d_spec(v@.cells),
{
    let o = T::zero();
    let i = T::unit_one();
    let a = v.components();
    let data = [[i, o, o, o], [o, i, o, o], [o, o, i, o], [a[0], a[1], a[2], i]];
    proof {
        assert(data[0]@ =~= seq![i, o, o, o]);
        assert(data[1]@ =~= seq![o, i, o, o]);
        assert(data[2]@ =~= seq![o, o, i, o]);
        assert(data[3]@ =~= seq![a[0], a[1], a[2], i]);
    }
    pack4(data)
}

/// The matrix that scales space by the components of `v`.
pub fn scale3d<T: Float>(v: Mat<3, 1, T>) -> (m: Mat<4, 4, T>)
    ensures
        m@ == scale3d_spec(v@.cells),
{
    let o = T::zero();
    let i = T::unit_one();
    let a = v.components();
    let data = [[a[0], o, o, o], [o, a[1], o, o], [o, o, a[2], o], [o, o, o, i]];
    proof {
        assert(data[0]@ =~= seq![a[0], o, o, o]);
        assert(data[1]@ =~= seq![o, a[1], o, o]);
        assert(data[2]@ =~= seq![o, o, a[2], o]);
        assert(data[3]@ =~= seq![o, o, o, i]);
    }
    pack4(data)
}

/// The matrix that turns space about the x axis by `angle`, in radians.
pub fn rotate3d_x<T: Float>(angle: T) -> (m: Mat<4, 4, T>)
    ensures
        m@ == rotate3d_x_spec(angle),
{
    proof {
        T::arithmetic_is_total();
    }
    let o = T::zero();
    let i = T::unit_one();
    let c = angle.cos();
    let s = angle.sin();
    assert(s.neg_req());
    let ns = s.neg();
    let data = [[i, o, o, o], [o, c, s, o], [o, ns, c, o], [o, o, o, i]];
    proof {
        assert(data[0]@ =~= seq![i, o, o, o]);
        assert(data[1]@ =~= seq![o, c, s, o]);
        assert(data[2]@ =~= seq![o, ns, c, o]);
        assert(data[3]@ =~= seq![o, o, o, i]);
    }
    pack4(data)
}

/// The matrix that turns space about the y axis by `angle`, in radians.
pub fn rotate3d_y<T: Float>(angle: T) -> (m: Mat<4, 4, T>)
    ensures
        m@ == rotate3d_y_spec(angle),
{
    proof {
        T::arithmetic_is_total();
    }
    let o = T::zero();
    let i = T::unit_one();
    let c = angle.cos();
    let s = angle.sin();
    assert(s.neg_req());
    let ns = s.neg();
    let data = [[c, o, ns, o], [o, i, o, o], [s, o, c, o], [o, o, o, i]];
    proof {
        assert(data[0]@ =~= seq![c, o, ns, o]);
        assert(data[1]@ =~= seq![o, i, o, o]);
        assert(data[2]@ =~= seq![s, o, c, o]);
        assert(data[3]@ =~= seq![o, o, o, i]);
    }
    pack4(data)
}

/// The matrix that turns space about the z axis by `angle`, in radians.
pub fn rotate3d_z<T: Float>(angle: T) -> (m: Mat<4, 4, T>)
    ensures
        m@ == rotate3d_z_spec(angle),
{
    proof {
        T::arithmetic_is_total();
    }
    let o = T::zero();
    let i = T::unit_one();
    let c = angle.cos();
    let s = angle.sin();
    assert(s.neg_req());
    let ns = s.neg();
    let data = [[c, s, o, o], [ns, c, o, o], [o, o, i, o], [o, o, o, i]];
    proof {
        assert(data[0]@ =~= seq![c, s, o, o]);
        assert(data[1]@ =~= seq![ns, c, o, o]);
        assert(data[2]@ =~= seq![o, o, i, o]);
        assert(data[3]@ =~= seq![o, o, o, i]);
    }
    pack4(data)
}

/// The matrix that turns space about `axis` by `angle`, in radians, by
/// Rodrigues' formula, with the axis taken as it is. The result is a
/// rotation only where the axis has length one: see [`rotate3d`].
pub fn rotate3d_no_norm<T: Float>(axis: Mat<3, 1, T>, angle: T) -> (m: Mat<4, 4, T>)
    ensures
        m@ == rotate3d_no_norm_spec(axis@.cells, angle),
{
    proof {
        T::arithmetic_is_total();
    }
    let o = T::zero();
    let i = T::unit_one();
    let a = axis.components();
    let x = a[0];
    let y = a[1];
    let z = a[2];
    let c = angle.cos();
    let s = angle.sin();
    assert(i.sub_req(c));
    let c1 = i - c;
    assert(x.mul_req(y) && y.mul_req(z) && x.mul_req(z));
    assert(x.mul_spec(y).mul_req(c1) && y.mul_spec(z).mul_req(c1) && x.mul_spec(z).mul_req(c1));
    let xyc1 = x * y * c1;
    let yzc1 = y * z * c1;
    let xzc1 = x * z * c1;
    assert(x.mul_req(s) && y.mul_req(s) && z.mul_req(s));
    let xs = x * s;
    let ys = y * s;
    let zs = z * s;
    assert(x.mul_req(x) && y.mul_req(y) && z.mul_req(z));
    assert(x.mul_spec(x).mul_req(c1) && y.mul_spec(y).mul_req(c1) && z.mul_spec(z).mul_req(c1));
    let xxc1 = x * x * c1;
    let yyc1 = y * y * c1;
    let zzc1 = z * z * c1;
    assert(c.add_req(xxc1) && xyc1.add_req(zs) && xzc1.sub_req(ys));
    assert(xyc1.sub_req(zs) && c.add_req(yyc1) && yzc1.add_req(xs));
    assert(xzc1.add_req(ys) && yzc1.sub_req(xs) && c.add_req(zzc1));
    let data = [
        [c + xxc1, xyc1 + zs, xzc1 - ys, o],
        [xyc1 - zs, c + yyc1, yzc1 + xs, o],
        [xzc1 + ys, yzc1 - xs, c + zzc1, o],
        [o, o, o, i],
    ];
    proof {
        assert(data[0]@ =~= seq![c.add_spec(xxc1), xyc1.add_spec(zs), xzc1.sub_spec(ys), o]);
        assert(data[1]@ =~= seq![xyc1.sub_spec(zs), c.add_spec(yyc1), yzc1.add_spec(xs), o]);
        assert(data[2]@ =~= seq![xzc1.add_spec(ys), yzc1.sub_spec(xs), c.add_spec(zzc1), o]);
        assert(data[3]@ =~= seq![o, o, o, i]);
    }
    pack4(data)
}

/// The matrix that turns space about the direction of `axis` by `angle`, in
/// radians. The axis is scaled to length one before it is used.
pub fn rotate3d<T: Float>(axis: Mat<3, 1, T>, angle: T) -> (m: Mat<4, 4, T>)
    ensures
        m@ == rotate3d_spec(axis@.cells, angle),
{
    let unit = axis.normalize();
    rotate3d_no_norm(unit, angle)
}

/// The view matrix of a camera at `eye` that looks at `center`, with `up`
/// pointing upwards.
pub fn look_at<T: Float>(eye: Mat<3, 1, T>, center: Mat<3, 1, T>, up: Mat<3, 1, T>) -> (m: Mat<
    4,
    4,
    T,
>)
    ensures
        m@ == look_at_spec(eye@.cells, center@.cells, up@.cells),
{
    proof {
        T::arithmetic_is_total();
    }
    let o = T::zero();
    let i = T::unit_one();
    let e = eye.components();
    let t = center.components();
    assert(e[0].sub_req(t[0]) && e[1].sub_req(t[1]) && e[2].sub_req(t[2]));
    let towards = [e[0] - t[0], e[1] - t[1], e[2] - t[2]];
    proof {
        assert(towards@ =~= minus3(eye@.cells, center@.cells));
    }
    let z = Mat::from_components(towards).normalize();
    let x = up.cross(&z).normalize();
    let y = z.cross(&x);
    let sa = x.inner_product(&eye);
    let sb = y.inner_product(&eye);
    let sc = z.inner_product(&eye);
    assert(sa.neg_req() && sb.neg_req() && sc.neg_req());
    let a = sa.neg();
    let b = sb.neg();
    let c = sc.neg();
    let xs = x.components();
    let ys = y.components();
    let zs = z.components();
    let data = [
        [xs[0], ys[0], zs[0], o],
        [xs[1], ys[1], zs[1], o],
        [xs[2], ys[2], zs[2], o],
        [a, b, c, i],
    ];
    proof {
        assert(data[0]@ =~= seq![xs[0], ys[0], zs[0], o]);
        assert(data[1]@ =~= seq![xs[1], ys[1], zs[1], o]);
        assert(data[2]@ =~= seq![xs[2], ys[2], zs[2], o]);
        assert(data[3]@ =~= seq![a, b, c, i]);
    }
    pack4(data)
}

/// The perspective projection with the vertical field of view `fov`, in
/// radians, the ratio `aspect` of width to height and the two clipping
/// planes.
pub fn perspective<T: Float>(fov: T, aspect: T, z_near: T, z_far: T) -> (m: Mat<4, 4, T>)
    ensures
        m@ == perspective_spec(fov, aspect, z_near, z_far),
{
    proof {
        T::arithmetic_is_total();
    }
    let o = T::zero();
    let i = T::unit_one();
    assert(i.add_req(i));
    let two = i + i;
    assert(fov.div_req(two));
    let half = (fov / two).tan();
    assert(i.div_req(half));
    let f = i / half;
    assert(z_near.sub_req(z_far));
    let depth = z_near - z_far;
    assert(i.div_req(depth));
    let ratio = i / depth;
    assert(z_far.add_req(z_near));
    assert(z_far.add_spec(z_near).mul_req(ratio));
    let mid = (z_far + z_near) * ratio;
    assert(two.mul_req(z_far));
    assert(two.mul_spec(z_far).mul_req(z_near));
    assert(two.mul_spec(z_far).mul_spec(z_near).mul_req(ratio));
    let n = (two * z_far * z_near) * ratio;
    assert(f.div_req(aspect));
    assert(i.neg_req());
    let data = [[f / aspect, o, o, o], [o, f, o, o], [o, o, mid, i.neg()], [o, o, n, o]];
    proof {
        assert(data[0]@ =~= seq![f.div_spec(aspect), o, o, o]);
        assert(data[1]@ =~= seq![o, f, o, o]);
        assert(data[2]@ =~= seq![o, o, mid, i.neg_spec()]);
        assert(data[3]@ =~= seq![o, o, n, o]);
    }
    pack4(data)
}

/// The orthographic projection of the box with the sides `(left, top,
/// right, bottom)` and the two clipping planes.
pub fn orthographic<T: Float>(sides: (T, T, T, T), z_near: T, z_far: T) -> (m: Mat<4, 4, T>)
    ensures
        m@ == orthographic_spec(sides.0, sides.1, sides.2, sides.3, z_near, z_far),
{
    proof {
        T::arithmetic_is_total();
    }
    let left = sides.0;
    let top = sides.1;
    let right = sides.2;
    let bottom = sides.3;
    let o = T::zero();
    let i = T::unit_one();
    assert(i.add_req(i));
    let two = i + i;
    assert(right.sub_req(left) && top.sub_req(bottom) && z_near.sub_req(z_far));
    let width = right - left;
    let height = top - bottom;
    let depth = z_near - z_far;
    assert(i.div_req(width) && i.div_req(height) && i.div_req(depth));
    let rl = i / width;
    let tb = i / height;
    let nf = i / depth;
    assert(two.mul_req(rl) && two.mul_req(tb) && two.mul_req(nf));
    assert(rl.neg_req() && tb.neg_req() && nf.neg_req());
    assert(right.add_req(left) && top.add_req(bottom) && z_near.add_req(z_far));
    assert(rl.neg_spec().mul_req(right.add_spec(left)));
    assert(tb.neg_spec().mul_req(top.add_spec(bottom)));
    assert(nf.neg_spec().mul_req(z_near.add_spec(z_far)));
    let tx = rl.neg() * (right + left);
    let ty = tb.neg() * (top + bottom);
    let tz = nf.neg() * (z_near + z_far);
    let data = [[two * rl, o, o, o], [o, two * tb, o, o], [o, o, two * nf, o], [tx, ty, tz, i]];
    proof {
        assert(data[0]@ =~= seq![two.mul_spec(rl), o, o, o]);
        assert(data[1]@ =~= seq![o, two.mul_spec(tb), o, o]);
        assert(data[2]@ =~= seq![o, o, two.mul_spec(nf), o]);
        assert(data[3]@ =~= seq![tx, ty, tz, i]);
    }
    pack4(data)
}

} // verus!
