use mats::dynamic::Matrix;
use mats::Mat;

#[test]
fn transpose_makes_a_fresh_matrix() {
    let m = Matrix::new([[1, 2, 3], [4, 5, 6]]);
    assert_eq!(m.transpose(), Matrix::new([[1, 4], [2, 5], [3, 6]]));
    assert_eq!(m.T(), Matrix::new([[1, 4], [2, 5], [3, 6]]));
    assert_eq!(m, Matrix::new([[1, 2, 3], [4, 5, 6]]));
}

#[test]
fn transpose_via_cycle_follower() {
    let mut m = Matrix::new([[1.0, 4.0], [2.0, 5.0], [3.0, 6.0]]);
    assert_eq!(m.size(), (2, 3));
    m.transpose_self();
    assert_eq!(m.size(), (3, 2));
    assert_eq!(m, Matrix::new([[1.0, 2.0, 3.0], [4.0, 5.0, 6.0]]));
    m.transpose_self();
    assert_eq!(m, Matrix::new([[1.0, 4.0], [2.0, 5.0], [3.0, 6.0]]));
}

#[test]
fn transpose_self_of_three_by_two() {
    let mut m = Matrix::new([[1, 2, 3], [4, 5, 6]]);
    m.transpose_self();
    assert_eq!(m, Matrix::new([[1, 4], [2, 5], [3, 6]]));
    let mut n = Matrix::new([[1, 2, 3], [4, 5, 6]]);
    n.T_self();
    assert_eq!(n, m);
}

#[test]
fn transpose_self_agrees_with_transpose_on_many_shapes() {
    let mut rows: usize = 0;
    while rows <= 7 {
        let mut cols: usize = 0;
        while cols <= 7 {
            let mut m = Matrix::fill(rows, cols, 0usize);
            let mut r: usize = 0;
            while r < rows {
                let mut c: usize = 0;
                while c < cols {
                    m.set(r, c, 100 * r + c);
                    c += 1;
                }
                r += 1;
            }
            let expected = m.transpose();
            let original = m.clone();
            m.transpose_self();
            assert_eq!(m, expected);
            assert_eq!(m.size(), (cols, rows));
            m.transpose_self();
            assert_eq!(m, original);
            cols += 1;
        }
        rows += 1;
    }
}

#[test]
fn transposed_cells_change_places() {
    let m = Matrix::new([[1, 2, 3], [4, 5, 6]]);
    let t = m.transpose();
    let mut r: usize = 0;
    while r < 3 {
        let mut c: usize = 0;
        while c < 2 {
            assert_eq!(t.at(c, r), m.at(r, c));
            c += 1;
        }
        r += 1;
    }
}

#[test]
fn static_transpose() {
    let m = Mat::new([[1, 2, 3], [4, 5, 6]]);
    let t: Mat<2, 3, i32> = m.transpose();
    assert_eq!(t, Mat::new([[1, 4], [2, 5], [3, 6]]));
    assert_eq!(m.T(), t);
    assert_eq!(t.transpose(), m);
}
