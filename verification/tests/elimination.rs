use mats::dynamic::Matrix;
use mats::dynamic::MatrixError;
use mats::Mat;
use mats::Mat2;
use mats::Mat3;
use mats::Float;
use mats::UnitOne;
use mats::Zero;
use std::ops::Add;
use std::ops::Div;
use std::ops::Mul;
use std::ops::Neg;
use std::ops::Sub;

#[derive(Debug, Clone, Copy, PartialEq, PartialOrd)]
struct Real(f32);

impl Add for Real {
    type Output = Real;

    fn add(self, rhs: Real) -> Real {
        Real(self.0 + rhs.0)
    }
}

impl Sub for Real {
    type Output = Real;

    fn sub(self, rhs: Real) -> Real {
        Real(self.0 - rhs.0)
    }
}

impl Mul for Real {
    type Output = Real;

    fn mul(self, rhs: Real) -> Real {
        Real(self.0 * rhs.0)
    }
}

impl Div for Real {
    type Output = Real;

    fn div(self, rhs: Real) -> Real {
        Real(self.0 / rhs.0)
    }
}

impl Neg for Real {
    type Output = Real;

    fn neg(self) -> Real {
        Real(-self.0)
    }
}

impl Zero for Real {
    fn zero() -> Real {
        Real(0.0)
    }
}

impl UnitOne for Real {
    fn unit_one() -> Real {
        Real(1.0)
    }
}

impl Float for Real {
    const PI: Real = Real(std::f32::consts::PI);
    const STRAIGHT: Real = Real(180.0);
    const EPSILON: Real = Real(f32::EPSILON);

    fn sin(self) -> Real {
        Real(self.0.sin())
    }

    fn cos(self) -> Real {
        Real(self.0.cos())
    }

    fn sqrt(self) -> Real {
        Real(self.0.sqrt())
    }

    fn abs(self) -> Real {
        Real(self.0.abs())
    }

    fn tan(self) -> Real {
        Real(self.0.tan())
    }

    fn arithmetic_is_total() {
    }
}

fn reals<const ROWS: usize, const COLS: usize>(data: [[f32; ROWS]; COLS]) -> Matrix<Real> {
    Matrix::new(data.map(|column| column.map(Real)))
}

fn close(a: &Matrix<Real>, b: &Matrix<Real>, eps: f32) -> bool {
    a.eq_with_epsilon(b, Real(eps))
}

#[test]
fn dot_product_of_non_square_shapes() {
    let a = reals([[1.0, 3.0, -4.0], [-2.0, 0.0, 5.0]]);
    let b = reals([[-7.0, 9.0], [8.0, 10.0]]);
    let p = a.dot(&b).unwrap();
    assert_eq!(p.size(), (3, 2));
    assert_eq!(p, reals([[-25.0, -21.0, 73.0], [-12.0, 24.0, 18.0]]));
}

#[test]
fn inverse_is_exact_where_the_arithmetic_is() {
    let a = reals([[2.0, 0.0], [0.0, 4.0]]);
    let b = a.inverse().unwrap();
    let i: Matrix<Real> = Matrix::identity(2);
    assert_eq!(b, reals([[0.5, 0.0], [0.0, 0.25]]));
    assert_eq!(a.dot(&b).unwrap(), i);
    assert_eq!(b.dot(&a).unwrap(), i);
}

#[test]
fn lu_without_a_zero_pivot_multiplies_back() {
    let a = reals([[2.0, 4.0, -2.0], [1.0, 3.0, 1.0], [1.0, 1.0, 5.0]]);
    let (l, u) = a.lu().unwrap();
    assert_eq!(l.dot(&u).unwrap(), a);
    assert_eq!(l.at(0, 0), Real(1.0));
    assert_eq!(l.at(0, 1), Real(0.0));
    assert_eq!(l.at(0, 2), Real(0.0));
    assert_eq!(l.at(1, 2), Real(0.0));
    assert_eq!(u.at(1, 0), Real(0.0));
    assert_eq!(u.at(2, 0), Real(0.0));
    assert_eq!(u.at(2, 1), Real(0.0));
}

#[test]
fn lu_of_a_rank_deficient_matrix() {
    let a = reals([[1.0, 4.0, 7.0], [2.0, 5.0, 8.0], [3.0, 6.0, 9.0]]);
    let (l, u) = a.lu().unwrap();
    assert_eq!(l, reals([[1.0, 4.0, 7.0], [0.0, 1.0, 2.0], [0.0, 0.0, 1.0]]));
    assert_eq!(u.at(0, 0), Real(1.0));
    assert_eq!(u.at(1, 1), Real(-3.0));
    assert_eq!(u.at(2, 2), Real(0.0));
    assert_eq!(u, reals([[1.0, 0.0, 0.0], [2.0, -3.0, 0.0], [3.0, -6.0, 0.0]]));
    assert_eq!(a.det().unwrap(), Real(0.0));
    assert_eq!(l.dot(&u).unwrap(), a);
}

#[test]
fn lu_rows_of_the_lower_factor() {
    let a = reals([[1.0, 4.0, 7.0], [2.0, 5.0, 8.0], [3.0, 6.0, 9.0]]);
    let (l, _) = a.lu().unwrap();
    assert_eq!(l.get_row(0).unwrap(), reals([[1.0], [0.0], [0.0]]));
    assert_eq!(l.get_row(1).unwrap(), reals([[4.0], [1.0], [0.0]]));
    assert_eq!(l.get_row(2).unwrap(), reals([[7.0], [2.0], [1.0]]));
}

#[test]
fn lu_exchanges_a_zero_pivot_with_the_last_row() {
    let a = reals([[0.0, 1.0], [1.0, 0.0]]);
    let (l, u) = a.lu().unwrap();
    assert_eq!(l, reals([[1.0, 0.0], [0.0, 1.0]]));
    assert_eq!(u, reals([[1.0, 0.0], [0.0, 1.0]]));
}

#[test]
fn lu_leaves_a_column_whose_pivot_stays_zero() {
    let a = reals([[0.0, 1.0, 0.0], [1.0, 1.0, 1.0], [1.0, 1.0, 2.0]]);
    let (l, u) = a.lu().unwrap();
    assert_eq!(l.at(1, 0), Real(0.0));
    assert_eq!(l.at(2, 0), Real(0.0));
    assert_eq!(u.at(1, 0), Real(1.0));
    assert_eq!(u.at(0, 0), Real(0.0));
}

#[test]
fn lu_after_a_late_exchange_need_not_reproduce_the_rows() {
    let a = reals([[1.0, 2.0, 1.0], [1.0, 2.0, 2.0], [1.0, 3.0, 1.0]]);
    let (l, u) = a.lu().unwrap();
    assert_eq!(l, reals([[1.0, 2.0, 1.0], [0.0, 1.0, 0.0], [0.0, 0.0, 1.0]]));
    assert_eq!(u, reals([[1.0, 0.0, 0.0], [1.0, 1.0, 0.0], [1.0, 0.0, 1.0]]));
    let mut exchanged = a.duplicate();
    exchanged.swap_row(1, 2).unwrap();
    let product = l.dot(&u).unwrap();
    assert_ne!(product, exchanged);
    assert_ne!(product, a);
}

#[test]
fn lu_and_det_want_a_square_matrix() {
    let a = reals([[1.0, 2.0, 3.0], [4.0, 5.0, 6.0]]);
    let expected = MatrixError::DimensionsNotMatch {
        expected: String::from("3x3"),
        actual: String::from("3x2"),
    };
    assert_eq!(a.lu().unwrap_err(), expected);
    assert_eq!(a.det().unwrap_err(), expected);
}

#[test]
fn det_is_the_product_of_the_diagonals() {
    let a = reals([[2.0, 4.0], [1.0, 5.0]]);
    assert_eq!(a.det().unwrap(), Real(6.0));
    let i: Matrix<Real> = Matrix::identity(4);
    assert_eq!(i.det().unwrap(), Real(1.0));
}

#[test]
fn inverse_of_a_nonsingular_matrix() {
    let a = reals([[1.0, 4.0, 7.0], [2.0, 7.0, 8.0], [3.0, 6.0, 9.0]]);
    let b = a.inverse().unwrap();
    let i: Matrix<Real> = Matrix::identity(3);
    assert!(close(&a.dot(&b).unwrap(), &i, 1e-6));
    assert!(close(&b.dot(&a).unwrap(), &i, 1e-6));
}

#[test]
fn inverse_of_two_by_two() {
    let a = reals([[4.0, 2.0], [7.0, 6.0]]);
    let b = a.inverse().unwrap();
    assert!(close(&b, &reals([[0.6, -0.2], [-0.7, 0.4]]), 1e-6));
}

#[test]
fn inverse_is_nothing_where_a_pivot_is_negligible() {
    let zero = reals([[0.0, 0.0], [0.0, 0.0]]);
    assert_eq!(zero.inverse(), None);
    let singular = reals([[1.0, 2.0], [2.0, 4.0]]);
    assert_eq!(singular.inverse(), None);
    let leading_zero = reals([[0.0, 1.0], [1.0, 0.0]]);
    assert_eq!(leading_zero.inverse(), None);
}

#[test]
fn inverse_takes_the_tolerance_itself_as_negligible() {
    let at = reals([[1e-10]]);
    assert_eq!(at.inverse(), None);
    let below = reals([[-1e-10]]);
    assert_eq!(below.inverse(), None);
    let above = reals([[2e-10]]);
    assert!(above.inverse().is_some());
}

#[test]
fn tolerance_is_ten_to_the_minus_ten() {
    let t: Real = mats::dynamic::invert::pivot_tolerance();
    assert_eq!(t, Real(1e-10));
}

#[test]
fn rank_examples() {
    assert_eq!(reals([[0.0, 0.0, 0.0], [0.0, 0.0, 0.0], [0.0, 0.0, 0.0]]).rank(), 0);
    assert_eq!(reals([[1.0, 2.0, 3.0], [4.0, 5.0, 6.0], [7.0, 8.0, 9.0]]).rank(), 2);
    let i: Matrix<Real> = Matrix::identity(4);
    assert_eq!(i.rank(), 4);
}

#[test]
fn rank_of_rectangular_matrices() {
    assert_eq!(reals([[1.0, 2.0, 3.0], [2.0, 4.0, 6.0]]).rank(), 1);
    assert_eq!(reals([[1.0, 0.0], [0.0, 1.0], [1.0, 1.0]]).rank(), 2);
    assert_eq!(reals([[1.0, 2.0, 3.0]]).rank(), 1);
}

#[test]
fn static_matrices_share_the_algorithms() {
    let a: Mat3<Real> = Mat::new(
        [[1.0, 4.0, 7.0], [2.0, 5.0, 8.0], [3.0, 6.0, 9.0]].map(|column| column.map(Real)),
    );
    let (l, u) = a.lu();
    assert_eq!(l.at(2, 1), Real(2.0));
    assert_eq!(u.at(1, 1), Real(-3.0));
    assert_eq!(a.det(), Real(0.0));
    assert_eq!(a.rank(), 2);
    assert_eq!(a.inverse(), None);
    let b: Mat2<Real> = Mat::new([[4.0, 2.0], [7.0, 6.0]].map(|column| column.map(Real)));
    let inv = b.inverse().unwrap();
    let i: Mat2<Real> = Mat::identity();
    assert!((b * inv).eq_with_epsilon(&i, Real(1e-6)));
    assert_eq!(b.rank(), 2);
}
