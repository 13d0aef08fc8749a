use mats::dynamic::Matrix;
use mats::dynamic::MatrixError;
use mats::Mat;
use mats::Mat2;
use mats::Mat3;
use mats::UnitOne;
use mats::Zero;

#[test]
fn constructors() {
    let m = Mat::new([[1.0, 2.0], [3.0, 4.0]]);
    assert_eq!(m.raw_data(), &[[1.0, 2.0], [3.0, 4.0]]);
    assert_eq!(m.at(1, 0), 2.0);
    assert_eq!(m.at(0, 1), 3.0);
    assert_eq!(m.index(1, 1), &4.0);
    assert_eq!(Mat::<2, 2, i32>::init(0).raw_data(), &[[0, 0], [0, 0]]);
    assert_eq!(Mat::<3, 2, i32>::new_with_init(5), Mat::new([[5, 5, 5], [5, 5, 5]]));
    assert_eq!(Mat::<2, 2, i32>::default(), Mat::new([[0, 0], [0, 0]]));
    let arr = [[1, 2], [3, 4]];
    let from: Mat<2, 2, i32> = arr.into();
    assert_eq!(from.raw_data(), &arr);
    let column: Mat<4, 1, i32> = [1, 2, 3, 4].into();
    assert_eq!(column.raw_data(), &[[1, 2, 3, 4]]);
}

#[test]
fn shape_is_in_the_type() {
    let m = Mat::new([[1, 2, 3], [4, 5, 6]]);
    assert_eq!(m.rows(), 3);
    assert_eq!(m.cols(), 2);
    assert_eq!(m.count(), 6);
}

#[test]
fn fill_and_set() {
    let mut m = Mat::new([[1, 2], [3, 4]]);
    m.fill(1);
    assert_eq!(m.raw_data(), &[[1, 1], [1, 1]]);
    m.set(0, 1, 9);
    assert_eq!(m, Mat::new([[1, 1], [9, 1]]));
}

#[test]
fn zero_and_identity() {
    assert_eq!(Mat3::<i32>::zero().raw_data(), &[[0, 0, 0], [0, 0, 0], [0, 0, 0]]);
    let one = [[1, 0, 0], [0, 1, 0], [0, 0, 1]];
    assert_eq!(Mat3::<i32>::unit_one().raw_data(), &one);
    assert_eq!(Mat3::<i32>::new_identity().raw_data(), &one);
    assert_eq!(Mat3::<i32>::I().raw_data(), &one);
    assert_eq!(Mat3::<i32>::identity().raw_data(), &one);
}

#[test]
fn operators_work_cell_by_cell() {
    let a = Mat::new([[1, 2, 3], [4, 5, 6]]);
    let b = Mat::new([[10, 20, 30], [40, 50, 60]]);
    assert_eq!(a + b, Mat::new([[11, 22, 33], [44, 55, 66]]));
    assert_eq!(b - a, Mat::new([[9, 18, 27], [36, 45, 54]]));
    assert_eq!(a * 2, Mat::new([[2, 4, 6], [8, 10, 12]]));
    assert_eq!(b / 10, a);
    assert_eq!(-a, Mat::new([[-1, -2, -3], [-4, -5, -6]]));
    let i = Mat2::<i32>::I();
    assert_eq!(i + Mat::new([[1, 2], [3, 4]]), Mat::new([[2, 2], [3, 5]]));
}

#[test]
fn assigning_forms_change_the_left_operand() {
    let a = Mat::new([[1, 2], [3, 4]]);
    let mut m = a;
    m += a;
    assert_eq!(m, Mat::new([[2, 4], [6, 8]]));
    m -= a;
    assert_eq!(m, a);
    m *= 3;
    assert_eq!(m, Mat::new([[3, 6], [9, 12]]));
    m /= 3;
    assert_eq!(m, a);
}

#[test]
fn product_of_non_square_shapes() {
    let a: Mat<3, 2, i32> = Mat::new([[1, 3, -4], [-2, 0, 5]]);
    let b: Mat<2, 2, i32> = Mat::new([[-7, 9], [8, 10]]);
    let expected: Mat<3, 2, i32> = Mat::new([[-25, -21, 73], [-12, 24, 18]]);
    assert_eq!(a.dot(&b), expected);
    assert_eq!(a * b, expected);
}

#[test]
fn product_with_the_identity() {
    let a: Mat<3, 2, i32> = Mat::new([[1, 3, -4], [-2, 0, 5]]);
    assert_eq!(Mat3::<i32>::I() * a, a);
    assert_eq!(a * Mat2::<i32>::I(), a);
}

#[test]
fn swap_rows_and_columns() {
    let mut m = Mat::new([[1, 2, 3], [4, 5, 6]]);
    m.swap_row(0, 2);
    assert_eq!(m, Mat::new([[3, 2, 1], [6, 5, 4]]));
    m.swap_col(0, 1);
    assert_eq!(m, Mat::new([[6, 5, 4], [3, 2, 1]]));
}

#[test]
fn static_eq_with_epsilon_takes_the_bound_itself() {
    let a = Mat::new([[1.0, 2.0], [3.0, 4.0]]);
    let b = Mat::new([[1.5, 2.0], [3.0, 3.5]]);
    assert!(a.eq_with_epsilon(&b, 0.5));
    assert!(!a.eq_with_epsilon(&b, 0.25));
    assert!(a.eq_with_epsilon(&a, 0.0));
}

#[test]
fn static_to_dynamic_and_back() {
    let mat = Mat::new([[1, 2, 3], [4, 5, 6]]);
    let matrix = Matrix::from(mat);
    assert_eq!(matrix, Matrix::new([[1, 2, 3], [4, 5, 6]]));
    assert_eq!(mat.to_matrix(), matrix);
    let back: Mat<3, 2, i32> = matrix.clone().try_into().unwrap();
    assert_eq!(back, mat);
    assert_eq!(Mat::<3, 2, i32>::from_matrix(&matrix), mat);
    let wrong: Result<Mat<2, 3, i32>, MatrixError> = matrix.try_into();
    assert_eq!(
        wrong.unwrap_err(),
        MatrixError::DimensionsNotMatch { expected: String::from("2x3"), actual: String::from("3x2") }
    );
}

#[test]
fn indexing_by_position() {
    let m = Mat::new([[1, 2, 3], [4, 5, 6]]);
    assert_eq!(m[(0, 0)], 1);
    assert_eq!(m[(2, 0)], 3);
    assert_eq!(m[(1, 1)], 5);
    let v: Mat<3, 1, i32> = Mat::from([7, 8, 9]);
    assert_eq!(v[0], 7);
    assert_eq!(v[2], 9);
}
