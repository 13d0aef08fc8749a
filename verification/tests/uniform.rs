use mats::uniform::uniform_call;
use mats::uniform::ElementKind;
use mats::uniform::UniformCall;

#[test]
fn rows_of_two_to_four_go_to_the_vector_call() {
    let kinds = [ElementKind::Binary32, ElementKind::Binary64, ElementKind::Signed32, ElementKind::Unsigned32];
    for kind in kinds {
        assert_eq!(uniform_call(1, 2, kind), Some(UniformCall::Vector { len: 2 }));
        assert_eq!(uniform_call(1, 3, kind), Some(UniformCall::Vector { len: 3 }));
        assert_eq!(uniform_call(1, 4, kind), Some(UniformCall::Vector { len: 4 }));
        assert_eq!(uniform_call(1, 1, kind), None);
        assert_eq!(uniform_call(1, 5, kind), None);
    }
}

#[test]
fn floating_matrices_go_to_the_matrix_call_with_transpose() {
    let shapes = [(2, 2), (3, 3), (4, 4), (2, 3), (2, 4), (3, 2), (3, 4), (4, 2), (4, 3)];
    for (rows, cols) in shapes {
        let expected = Some(UniformCall::Matrix { rows, cols, transpose: true });
        assert_eq!(uniform_call(rows, cols, ElementKind::Binary32), expected);
        assert_eq!(uniform_call(rows, cols, ElementKind::Binary64), expected);
        assert_eq!(uniform_call(rows, cols, ElementKind::Signed32), None);
        assert_eq!(uniform_call(rows, cols, ElementKind::Unsigned32), None);
    }
}

#[test]
fn other_shapes_have_no_call() {
    assert_eq!(uniform_call(0, 0, ElementKind::Binary32), None);
    assert_eq!(uniform_call(5, 5, ElementKind::Binary32), None);
    assert_eq!(uniform_call(2, 1, ElementKind::Binary32), None);
    assert_eq!(uniform_call(2, 5, ElementKind::Binary64), None);
    assert_eq!(uniform_call(5, 2, ElementKind::Binary64), None);
}
