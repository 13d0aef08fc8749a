use mats::graphics::look_at;
use mats::graphics::orthographic;
use mats::graphics::perspective;
use mats::graphics::rotate2d;
use mats::graphics::rotate3d;
use mats::graphics::rotate3d_no_norm;
use mats::graphics::rotate3d_x;
use mats::graphics::rotate3d_y;
use mats::graphics::rotate3d_z;
use mats::graphics::scale2d;
use mats::graphics::scale3d;
use mats::graphics::translate2d;
use mats::graphics::translate3d;
use mats::Mat;
use mats::Mat3;
use mats::Mat4;
use mats::Vec2;
use mats::Vec3;
use mats::Vec4;
use mats::Float;
use mats::UnitOne;
use mats::Zero;
use std::ops::Add;
use std::ops::Div;
use std::ops::Mul;
use std::ops::Neg;
use std::ops::Sub;

#[derive(Debug, Clone, Copy, PartialEq, PartialOrd)]
struct Real(f32);

impl Add for Real {
    type Output = Real;

    fn add(self, rhs: Real) -> Real {
        Real(self.0 + rhs.0)
    }
}

impl Sub for Real {
    type Output = Real;

    fn sub(self, rhs: Real) -> Real {
        Real(self.0 - rhs.0)
    }
}

impl Mul for Real {
    type Output = Real;

    fn mul(self, rhs: Real) -> Real {
        Real(self.0 * rhs.0)
    }
}

impl Div for Real {
    type Output = Real;

    fn div(self, rhs: Real) -> Real {
        Real(self.0 / rhs.0)
    }
}

impl Neg for Real {
    type Output = Real;

    fn neg(self) -> Real {
        Real(-self.0)
    }
}

impl Zero for Real {
    fn zero() -> Real {
        Real(0.0)
    }
}

impl UnitOne for Real {
    fn unit_one() -> Real {
        Real(1.0)
    }
}

impl Float for Real {
    const PI: Real = Real(std::f32::consts::PI);
    const STRAIGHT: Real = Real(180.0);
    const EPSILON: Real = Real(f32::EPSILON);

    fn sin(self) -> Real {
        Real(self.0.sin())
    }

    fn cos(self) -> Real {
        Real(self.0.cos())
    }

    fn sqrt(self) -> Real {
        Real(self.0.sqrt())
    }

    fn abs(self) -> Real {
        Real(self.0.abs())
    }

    fn tan(self) -> Real {
        Real(self.0.tan())
    }

    fn arithmetic_is_total() {
    }
}

fn m3(data: [[f32; 3]; 3]) -> Mat3<Real> {
    Mat::new(data.map(|column| column.map(Real)))
}

fn m4(data: [[f32; 4]; 4]) -> Mat4<Real> {
    Mat::new(data.map(|column| column.map(Real)))
}

fn v2(data: [f32; 2]) -> Vec2<Real> {
    Vec2::from(data.map(Real))
}

fn v3(data: [f32; 3]) -> Vec3<Real> {
    Vec3::from(data.map(Real))
}

fn v4(data: [f32; 4]) -> Vec4<Real> {
    Vec4::from(data.map(Real))
}

#[test]
fn radian_and_degree() {
    assert_eq!(mats::graphics::radian(Real(45.0)), Real(std::f32::consts::PI / 4.0));
    assert_eq!(mats::graphics::degree(Real(std::f32::consts::PI / 4.0)), Real(45.0));
    assert_eq!(mats::radian(Real(180.0)), Real(std::f32::consts::PI));
    assert_eq!(mats::degree(Real(std::f32::consts::PI)), Real(180.0));
}

#[test]
fn scale_and_translate_in_the_plane() {
    assert_eq!(scale2d(v2([2.0, 3.0])), m3([[2.0, 0.0, 0.0], [0.0, 3.0, 0.0], [0.0, 0.0, 1.0]]));
    let t = translate2d(v2([2.0, 3.0]));
    assert_eq!(t, m3([[1.0, 0.0, 0.0], [0.0, 1.0, 0.0], [2.0, 3.0, 1.0]]));
    assert_eq!(t.at(0, 2), Real(2.0));
    assert_eq!(t.at(1, 2), Real(3.0));
    assert_eq!(t * Vec3::from([Real(1.0), Real(1.0), Real(1.0)]), v3([3.0, 4.0, 1.0]));
}

#[test]
fn scale_and_translate_in_space() {
    assert_eq!(
        scale3d(v3([2.0, 3.0, 4.0])),
        m4([[2.0, 0.0, 0.0, 0.0], [0.0, 3.0, 0.0, 0.0], [0.0, 0.0, 4.0, 0.0], [0.0, 0.0, 0.0, 1.0]])
    );
    let t = translate3d(v3([2.0, 3.0, 4.0]));
    assert_eq!(
        t,
        m4([[1.0, 0.0, 0.0, 0.0], [0.0, 1.0, 0.0, 0.0], [0.0, 0.0, 1.0, 0.0], [2.0, 3.0, 4.0, 1.0]])
    );
    assert_eq!(t * v4([1.0, 1.0, 1.0, 1.0]), v4([3.0, 4.0, 5.0, 1.0]));
}

#[test]
fn translations_compose_by_adding() {
    let v = v2([1.0, 2.0]);
    let w = v2([10.0, 20.0]);
    assert_eq!(translate2d(v) * translate2d(w), translate2d(v + w));
    let p = v3([1.0, 2.0, 3.0]);
    let q = v3([10.0, 20.0, 30.0]);
    assert_eq!(translate3d(p) * translate3d(q), translate3d(p + q));
}

#[test]
fn rotations_by_zero_are_the_identity() {
    let i3: Mat3<Real> = Mat::identity();
    let i4: Mat4<Real> = Mat::identity();
    assert_eq!(rotate2d(Real(0.0)), i3);
    assert_eq!(rotate3d_x(Real(0.0)), i4);
    assert_eq!(rotate3d_y(Real(0.0)), i4);
    assert_eq!(rotate3d_z(Real(0.0)), i4);
}

#[test]
fn rotation_by_a_full_turn_is_nearly_the_identity() {
    let i3: Mat3<Real> = Mat::identity();
    let turn = rotate2d(Real(2.0 * std::f32::consts::PI));
    assert!(turn.eq_with_epsilon(&i3, Real(1e-6)));
}

#[test]
fn rotate2d_by_a_quarter_turn() {
    let r = rotate2d(Real(std::f32::consts::FRAC_PI_2));
    let expected = m3([[0.0, 1.0, 0.0], [-1.0, 0.0, 0.0], [0.0, 0.0, 1.0]]);
    assert!(r.eq_with_epsilon(&expected, Real(1e-6)));
    let moved = r * v3([1.0, 0.0, 1.0]);
    assert!(moved.eq_with_epsilon(&v3([0.0, 1.0, 1.0]), Real(1e-6)));
}

#[test]
fn axis_rotations_by_a_quarter_turn() {
    let q = Real(std::f32::consts::FRAC_PI_2);
    let eps = Real(1e-6);
    assert!((rotate3d_x(q) * v4([0.0, 1.0, 0.0, 1.0])).eq_with_epsilon(&v4([0.0, 0.0, 1.0, 1.0]), eps));
    assert!((rotate3d_y(q) * v4([1.0, 0.0, 0.0, 1.0])).eq_with_epsilon(&v4([0.0, 0.0, -1.0, 1.0]), eps));
    assert!((rotate3d_z(q) * v4([1.0, 0.0, 0.0, 1.0])).eq_with_epsilon(&v4([0.0, 1.0, 0.0, 1.0]), eps));
}

#[test]
fn graphics_round_trip() {
    let v = v4([1.0, 0.0, 0.0, 1.0]);
    let turned = rotate3d(v3([0.0, 1.0, 0.0]), Real(std::f32::consts::FRAC_PI_2)) * v;
    assert!(turned.eq_with_epsilon(&v4([0.0, 0.0, -1.0, 1.0]), Real(1e-6)));
    let projected = perspective(Real(std::f32::consts::FRAC_PI_2), Real(16.0 / 9.0), Real(0.1), Real(100.0)) * v;
    assert_eq!(projected.x(), Real(9.0 / 16.0));
    assert_eq!(projected.y(), Real(0.0));
    assert!((projected.z().0.abs() - 200.0 / 999.0).abs() < 1e-6);
    assert!((projected.z().0 + 200.0 / 999.0).abs() < 1e-6);
}

#[test]
fn rotate3d_scales_its_axis_to_length_one() {
    let angle = Real(0.7);
    let axis = v3([0.0, 3.0, 4.0]);
    assert_eq!(rotate3d(axis, angle), rotate3d_no_norm(axis.normalize(), angle));
    assert_eq!(axis.normalize(), v3([0.0, 0.6, 0.8]));
    let long = rotate3d(v3([0.0, 5.0, 0.0]), angle);
    assert!(long.eq_with_epsilon(&rotate3d_y(angle), Real(1e-6)));
}

#[test]
fn rotate3d_no_norm_about_the_coordinate_axes() {
    let angle = Real(0.3);
    let eps = Real(1e-6);
    assert!(rotate3d_no_norm(v3([1.0, 0.0, 0.0]), angle).eq_with_epsilon(&rotate3d_x(angle), eps));
    assert!(rotate3d_no_norm(v3([0.0, 1.0, 0.0]), angle).eq_with_epsilon(&rotate3d_y(angle), eps));
    assert!(rotate3d_no_norm(v3([0.0, 0.0, 1.0]), angle).eq_with_epsilon(&rotate3d_z(angle), eps));
}

#[test]
fn norm_and_normalize() {
    assert_eq!(v3([3.0, 0.0, 4.0]).norm(), Real(5.0));
    assert_eq!(v3([0.0, 0.0, 0.0]).normalize(), v3([0.0, 0.0, 0.0]));
    let unit = v3([1.0, 2.0, 3.0]).normalize();
    assert!((unit.norm().0 - 1.0).abs() <= 4.0 * f32::EPSILON);
    assert_eq!(v2([3.0, 4.0]).inner_product(&v2([1.0, 2.0])), Real(11.0));
}

#[test]
fn cross_product() {
    let a = v3([1.0, 2.0, 3.0]);
    let b = v3([4.0, 5.0, 6.0]);
    assert_eq!(a.cross(&b), v3([-3.0, 6.0, -3.0]));
    assert_eq!(a.cross(&b), -b.cross(&a));
    assert_eq!(a.cross(&a), v3([0.0, 0.0, 0.0]));
    assert_eq!(a.inner_product(&a.cross(&b)), Real(0.0));
    let i = Vec3::from([1, 0, 0]);
    let j = Vec3::from([0, 1, 0]);
    assert_eq!(i.cross(&j), Vec3::from([0, 0, 1]));
}

#[test]
fn look_at_down_the_negative_z_axis() {
    let view = look_at(v3([0.0, 0.0, 5.0]), v3([0.0, 0.0, 0.0]), v3([0.0, 1.0, 0.0]));
    let expected = m4(
        [[1.0, 0.0, 0.0, 0.0], [0.0, 1.0, 0.0, 0.0], [0.0, 0.0, 1.0, 0.0], [0.0, 0.0, -5.0, 1.0]],
    );
    assert!(view.eq_with_epsilon(&expected, Real(1e-6)));
    let eye = view * v4([0.0, 0.0, 5.0, 1.0]);
    assert!(eye.eq_with_epsilon(&v4([0.0, 0.0, 0.0, 1.0]), Real(1e-6)));
}

#[test]
fn look_at_from_the_side() {
    let view = look_at(v3([3.0, 0.0, 0.0]), v3([0.0, 0.0, 0.0]), v3([0.0, 1.0, 0.0]));
    let expected = m4(
        [[0.0, 0.0, 1.0, 0.0], [0.0, 1.0, 0.0, 0.0], [-1.0, 0.0, 0.0, 0.0], [0.0, 0.0, -3.0, 1.0]],
    );
    assert!(view.eq_with_epsilon(&expected, Real(1e-6)));
}

#[test]
fn perspective_entries() {
    let p = perspective(Real(std::f32::consts::FRAC_PI_2), Real(2.0), Real(1.0), Real(3.0));
    assert_eq!(p.at(0, 0), Real(0.5));
    assert_eq!(p.at(1, 1), Real(1.0));
    assert_eq!(p.at(2, 2), Real(-2.0));
    assert_eq!(p.at(2, 3), Real(-3.0));
    assert_eq!(p.at(3, 2), Real(-1.0));
    assert_eq!(p.at(3, 3), Real(0.0));
}

#[test]
fn orthographic_entries() {
    let o = orthographic((Real(-2.0), Real(4.0), Real(2.0), Real(0.0)), Real(1.0), Real(3.0));
    let expected = m4(
        [[0.5, 0.0, 0.0, 0.0], [0.0, 0.5, 0.0, 0.0], [0.0, 0.0, -1.0, 0.0], [0.0, -1.0, 2.0, 1.0]],
    );
    assert_eq!(o, expected);
    assert_eq!(o.at(1, 3), Real(-1.0));
    assert_eq!(o.at(2, 3), Real(2.0));
}
