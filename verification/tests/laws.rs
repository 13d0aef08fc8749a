use mats::dynamic::Matrix;
use mats::Mat;
use mats::Vec3;

fn a() -> Matrix<i64> {
    Matrix::new([[1, -2, 3], [4, 5, -6]])
}

fn b() -> Matrix<i64> {
    Matrix::new([[7, 8, 9], [-1, 0, 2]])
}

fn c() -> Matrix<i64> {
    Matrix::new([[3, 3, -3], [10, 20, 30]])
}

#[test]
fn addition_is_associative() {
    let left = a().add(&b()).unwrap().add(&c()).unwrap();
    let right = a().add(&b().add(&c()).unwrap()).unwrap();
    assert_eq!(left, right);
}

#[test]
fn adding_zero_changes_nothing() {
    assert_eq!(a().add(&Matrix::fill(3, 2, 0)).unwrap(), a());
}

#[test]
fn a_matrix_minus_itself_is_zero() {
    assert_eq!(a().sub(&a()).unwrap(), Matrix::fill(3, 2, 0));
}

#[test]
fn negating_twice_gives_the_matrix_back() {
    assert_eq!(a().neg().neg(), a());
}

#[test]
fn product_is_associative() {
    let x: Matrix<i64> = Matrix::new([[1, 2], [3, 4], [5, 6]]);
    let y: Matrix<i64> = Matrix::new([[1, -1, 2], [0, 3, 1]]);
    let z: Matrix<i64> = Matrix::new([[2, 1], [1, 1], [0, 5], [-3, 2]]);
    let left = x.dot(&y.dot(&z).unwrap()).unwrap();
    let right = x.dot(&y).unwrap().dot(&z).unwrap();
    assert_eq!(left, right);
    assert_eq!(left.size(), (2, 4));
}

#[test]
fn identity_is_neutral_on_both_sides() {
    let i3: Matrix<i64> = Matrix::identity(3);
    let i2: Matrix<i64> = Matrix::identity(2);
    assert_eq!(i3.dot(&a()).unwrap(), a());
    assert_eq!(a().dot(&i2).unwrap(), a());
}

#[test]
fn transposing_twice_gives_the_matrix_back() {
    assert_eq!(a().transpose().transpose(), a());
}

#[test]
fn transpose_of_a_sum() {
    assert_eq!(
        a().add(&b()).unwrap().transpose(),
        a().transpose().add(&b().transpose()).unwrap()
    );
}

#[test]
fn transpose_of_a_product() {
    let x: Matrix<i64> = Matrix::new([[1, 2], [3, 4], [5, 6]]);
    let y: Matrix<i64> = Matrix::new([[1, -1, 2], [0, 3, 1]]);
    assert_eq!(
        x.dot(&y).unwrap().transpose(),
        y.transpose().dot(&x.transpose()).unwrap()
    );
}

#[test]
fn static_matrices_obey_the_same_laws() {
    let p = Mat::new([[1, 2], [3, 4]]);
    let q = Mat::new([[0, -1], [5, 2]]);
    let r = Mat::new([[2, 2], [-3, 1]]);
    assert_eq!((p + q) + r, p + (q + r));
    assert_eq!(p * (q * r), (p * q) * r);
    assert_eq!((p * q).transpose(), q.transpose() * p.transpose());
    assert_eq!(p - p, Mat::init(0));
    assert_eq!(-(-p), p);
}

#[test]
fn cross_product_laws() {
    let u = Vec3::from([2i64, -3, 5]);
    let v = Vec3::from([7i64, 1, -4]);
    assert_eq!(u.cross(&v), -v.cross(&u));
    assert_eq!(u.cross(&u), Vec3::from([0, 0, 0]));
    assert_eq!(u.inner_product(&u.cross(&v)), 0);
    assert_eq!(v.inner_product(&u.cross(&v)), 0);
    assert_eq!(u.inner_product(&v), 14 - 3 - 20);
}
