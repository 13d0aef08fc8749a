use mats::dynamic::Matrix;
use mats::dynamic::MatrixError;

fn mismatch(expected: &str, actual: &str) -> MatrixError {
    MatrixError::DimensionsNotMatch { expected: String::from(expected), actual: String::from(actual) }
}

#[test]
fn new_reads_columns() {
    let m = Matrix::new([[1, 2, 3], [4, 5, 6]]);
    assert_eq!(m.size(), (3, 2));
    assert_eq!(m.rows(), 3);
    assert_eq!(m.cols(), 2);
    assert_eq!(m.count(), 6);
    assert_eq!(m.raw_data(), &[1, 2, 3, 4, 5, 6]);
    assert_eq!(m.at(0, 1), 4);
    assert_eq!(m.at(2, 0), 3);
    assert!(!m.is_square());
    assert!(m.is_consistent());
    assert_eq!(Matrix::from([[1, 2, 3], [4, 5, 6]]), m);
}

#[test]
fn get_is_nothing_outside_the_matrix() {
    let m = Matrix::new([[1, 2, 3], [4, 5, 6]]);
    assert_eq!(m.get(1, 1), Some(&5));
    assert_eq!(m.get(3, 0), None);
    assert_eq!(m.get(0, 2), None);
}

#[test]
fn set_replaces_one_element() {
    let mut m = Matrix::new([[1, 2, 3], [4, 5, 6]]);
    m.set(1, 1, 50);
    assert_eq!(m, Matrix::new([[1, 2, 3], [4, 50, 6]]));
}

#[test]
fn fill_makes_every_element_the_same() {
    assert_eq!(Matrix::fill(3, 2, 1), Matrix::new([[1, 1, 1], [1, 1, 1]]));
    assert_eq!(Matrix::new_with_init(2, 2, 7), Matrix::new([[7, 7], [7, 7]]));
    assert_eq!(Matrix::fill(0, 5, 1).raw_data().len(), 0);
}

#[test]
fn duplicate_is_equal_and_independent() {
    let m = Matrix::new([[1, 2], [3, 4]]);
    let mut d = m.duplicate();
    assert_eq!(d, m);
    d.set(0, 0, 9);
    assert_eq!(m.at(0, 0), 1);
}

#[test]
fn add_matrices_of_one_shape() {
    let a = Matrix::new([[1, 2, 3], [4, 5, 6]]);
    let b = Matrix::new([[7, 8, 9], [10, 11, 12]]);
    assert_eq!(a.add(&b).unwrap(), Matrix::new([[8, 10, 12], [14, 16, 18]]));
    assert_eq!(a.clone() + b.clone(), Matrix::new([[8, 10, 12], [14, 16, 18]]));
    let mut c = a.clone();
    c.add_assign(&b).unwrap();
    assert_eq!(c, Matrix::new([[8, 10, 12], [14, 16, 18]]));
}

#[test]
fn sub_matrices_of_one_shape() {
    let a = Matrix::new([[1, 2, 3], [4, 5, 6]]);
    let b = Matrix::new([[7, 8, 9], [10, 11, 12]]);
    assert_eq!(a.sub(&b).unwrap(), Matrix::new([[-6, -6, -6], [-6, -6, -6]]));
    assert_eq!(b.clone() - a.clone(), Matrix::new([[6, 6, 6], [6, 6, 6]]));
    let mut c = a.clone();
    c.sub_assign(&b).unwrap();
    assert_eq!(c, Matrix::new([[-6, -6, -6], [-6, -6, -6]]));
}

#[test]
fn scalar_operations_reach_every_element() {
    let a = Matrix::new([[1, 2, 3], [4, 5, 6]]);
    assert_eq!(a.mul(2), Matrix::new([[2, 4, 6], [8, 10, 12]]));
    assert_eq!(a.clone() * 3, Matrix::new([[3, 6, 9], [12, 15, 18]]));
    let b = Matrix::new([[2, 4, 6], [8, 10, 12]]);
    assert_eq!(b.div(2), a);
    assert_eq!(b.clone() / 2, a);
    assert_eq!(a.neg(), Matrix::new([[-1, -2, -3], [-4, -5, -6]]));
    assert_eq!(-a.clone(), Matrix::new([[-1, -2, -3], [-4, -5, -6]]));
    let mut c = a.clone();
    c.mul_assign(2);
    assert_eq!(c, b);
    c.div_assign(2);
    assert_eq!(c, a);
}

#[test]
fn assigning_operators_change_the_left_operand() {
    let a = Matrix::new([[1, 2, 3], [4, 5, 6]]);
    let b = Matrix::new([[7, 8, 9], [10, 11, 12]]);
    let mut m = a.clone();
    m += b.clone();
    assert_eq!(m, Matrix::new([[8, 10, 12], [14, 16, 18]]));
    m -= b;
    assert_eq!(m, a);
    m *= 2;
    assert_eq!(m, Matrix::new([[2, 4, 6], [8, 10, 12]]));
    m /= 2;
    assert_eq!(m, a);
}

#[test]
fn checked_operations_report_both_shapes() {
    let a = Matrix::new([[1, 2, 3], [4, 5, 6]]);
    let b = Matrix::new([[7, 8], [10, 11]]);
    assert_eq!(a.add(&b).unwrap_err(), mismatch("3x2", "2x2"));
    assert_eq!(a.sub(&b).unwrap_err(), mismatch("3x2", "2x2"));
    let mut c = a.clone();
    assert_eq!(c.add_assign(&b).unwrap_err(), mismatch("3x2", "2x2"));
    assert_eq!(c, a);
    assert_eq!(c.sub_assign(&b).unwrap_err(), mismatch("3x2", "2x2"));
    assert_eq!(c, a);
}

#[test]
fn shapes_are_written_as_decimal_numerals() {
    let a = Matrix::fill(12, 10, 0);
    let b = Matrix::fill(100, 1, 0);
    assert_eq!(a.add(&b).unwrap_err(), mismatch("12x10", "100x1"));
    let z = Matrix::fill(0, 3, 0);
    assert_eq!(z.add(&b).unwrap_err(), mismatch("0x3", "100x1"));
}

#[test]
fn errors_have_a_text() {
    let e = mismatch("3x2", "2x2");
    assert_eq!(e.message(), "Matrix dimensions do not match: expected 3x2, actual 2x2");
    let r = MatrixError::IndexOutOfRange { index: 7, limit: 3 };
    assert_eq!(r.message(), "Index out of range: the index is 7, the limit is 3");
}

#[test]
fn dot_of_square_matrices() {
    let a = Matrix::new([[1, 2], [3, 4]]);
    let b = Matrix::new([[5, 6], [7, 8]]);
    assert_eq!(a.dot(&b).unwrap(), Matrix::new([[23, 34], [31, 46]]));
}

#[test]
fn dot_of_non_square_shapes_over_integers() {
    let a = Matrix::new([[1, 3, -4], [-2, 0, 5]]);
    let b = Matrix::new([[-7, 9], [8, 10]]);
    assert_eq!(a.dot(&b).unwrap(), Matrix::new([[-25, -21, 73], [-12, 24, 18]]));
}

#[test]
fn dot_reports_the_inner_sizes() {
    let a = Matrix::new([[1, 2, 3], [4, 5, 6]]);
    let b = Matrix::new([[1, 2, 3], [4, 5, 6]]);
    assert_eq!(a.dot(&b).unwrap_err(), mismatch("2xN", "3x_"));
}

#[test]
fn identity_has_ones_on_the_diagonal() {
    let i: Matrix<i32> = Matrix::identity(3);
    assert_eq!(i, Matrix::new([[1, 0, 0], [0, 1, 0], [0, 0, 1]]));
    assert_eq!(Matrix::<i32>::I(2), Matrix::new([[1, 0], [0, 1]]));
    let a = Matrix::new([[1, 2, 3], [4, 5, 6], [7, 8, 9]]);
    assert_eq!(i.dot(&a).unwrap(), a);
    assert_eq!(a.dot(&i).unwrap(), a);
}

#[test]
fn swap_row_and_swap_col() {
    let mut m = Matrix::new([[1, 2, 3], [4, 5, 6]]);
    m.swap_row(0, 2).unwrap();
    assert_eq!(m, Matrix::new([[3, 2, 1], [6, 5, 4]]));
    m.swap_col(0, 1).unwrap();
    assert_eq!(m, Matrix::new([[6, 5, 4], [3, 2, 1]]));
    assert_eq!(m.swap_row(3, 0).unwrap_err(), MatrixError::IndexOutOfRange { index: 3, limit: 3 });
    assert_eq!(m.swap_row(0, 5).unwrap_err(), MatrixError::IndexOutOfRange { index: 5, limit: 3 });
    assert_eq!(m.swap_col(2, 7).unwrap_err(), MatrixError::IndexOutOfRange { index: 2, limit: 2 });
    assert_eq!(m.swap_col(0, 7).unwrap_err(), MatrixError::IndexOutOfRange { index: 7, limit: 2 });
    assert_eq!(m, Matrix::new([[6, 5, 4], [3, 2, 1]]));
}

#[test]
fn get_row_and_get_col() {
    let m = Matrix::new([[1, 2, 3], [4, 5, 6]]);
    assert_eq!(m.get_row(1).unwrap(), Matrix::new([[2], [5]]));
    assert_eq!(m.get_col(1).unwrap(), Matrix::new([[4, 5, 6]]));
    assert_eq!(m.get_row(3).unwrap_err(), MatrixError::IndexOutOfRange { index: 3, limit: 3 });
    assert_eq!(m.get_col(2).unwrap_err(), MatrixError::IndexOutOfRange { index: 2, limit: 2 });
}

#[test]
fn set_row_and_set_col() {
    let mut m = Matrix::new([[1, 2, 3], [4, 5, 6]]);
    m.set_row(0, &Matrix::new([[10], [40]])).unwrap();
    assert_eq!(m, Matrix::new([[10, 2, 3], [40, 5, 6]]));
    m.set_col(1, &Matrix::new([[7, 8, 9]])).unwrap();
    assert_eq!(m, Matrix::new([[10, 2, 3], [7, 8, 9]]));
    let before = m.clone();
    assert_eq!(
        m.set_row(5, &Matrix::new([[10], [40]])).unwrap_err(),
        MatrixError::IndexOutOfRange { index: 5, limit: 3 }
    );
    assert_eq!(m.set_row(0, &Matrix::new([[10, 40]])).unwrap_err(), mismatch("1x2", "2x1"));
    assert_eq!(m.set_row(0, &Matrix::new([[1], [2], [3]])).unwrap_err(), mismatch("1x2", "1x3"));
    assert_eq!(
        m.set_col(2, &Matrix::new([[7, 8, 9]])).unwrap_err(),
        MatrixError::IndexOutOfRange { index: 2, limit: 2 }
    );
    assert_eq!(m.set_col(0, &Matrix::new([[7], [8], [9]])).unwrap_err(), mismatch("3x1", "1x3"));
    assert_eq!(m.set_col(0, &Matrix::new([[7, 8]])).unwrap_err(), mismatch("3x1", "2x1"));
    assert_eq!(m, before);
}

#[test]
fn same_size_compares_both_dimensions() {
    let a = Matrix::new([[1, 2, 3], [4, 5, 6]]);
    assert!(a.is_same_size_with(&Matrix::fill(3, 2, 0)));
    assert!(!a.is_same_size_with(&Matrix::fill(2, 3, 0)));
    assert!(Matrix::fill(2, 2, 0).is_square());
}

#[test]
fn eq_with_epsilon_takes_the_bound_itself() {
    let a = Matrix::new([[10, 20], [30, 40]]);
    let b = Matrix::new([[11, 19], [30, 42]]);
    assert!(a.eq_with_epsilon(&b, 2));
    assert!(!a.eq_with_epsilon(&b, 1));
    assert!(!a.eq_with_epsilon(&Matrix::new([[10, 20, 30, 40]]), 100));
}

#[test]
fn indexing_by_position_reads_and_writes() {
    let mut m = Matrix::new([[1, 2, 3], [4, 5, 6]]);
    assert_eq!(m[(0, 1)], 4);
    assert_eq!(m[(2, 1)], 6);
    m[(1, 0)] = 20;
    assert_eq!(m, Matrix::new([[1, 20, 3], [4, 5, 6]]));
}
