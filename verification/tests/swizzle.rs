use mats::Mat;
use mats::Vec2;
use mats::Vec3;
use mats::Vec4;

#[test]
fn test_mat() {
    let v = Vec4::from([[1, 2, 3, 4]]);
    assert_eq!(v.xy(), Vec2::from([1, 2]));
    assert_eq!(v.xyz(), Vec3::from([1, 2, 3]));
    assert_eq!(v.xwzz(), Vec4::from([1, 4, 3, 3]));
}

#[test]
fn test_glsl() {
    let v1 = Vec3::new([[1.0, 2.0, 3.0]]);
    let v2 = Vec3::new([[4.0, 5.0, 6.0]]);

    assert_eq!(Vec3::from((v1.x(), v2.xy())), Vec3::new([[1.0, 4.0, 5.0]]));
    assert_eq!(Vec3::from((v1.yz(), v2.y())), Vec3::new([[2.0, 3.0, 5.0]]));
    assert_eq!(Vec4::from((v1.yy(), v2.zz())), Vec4::new([[2.0, 2.0, 6.0, 6.0]]));
}

#[test]
fn single_components_read_by_name() {
    let v = Vec4::from([10, 20, 30, 40]);
    assert_eq!(v.x(), 10);
    assert_eq!(v.y(), 20);
    assert_eq!(v.z(), 30);
    assert_eq!(v.w(), 40);
    assert_eq!(v.component(2), 30);
    assert_eq!(v.components(), [10, 20, 30, 40]);
}

#[test]
fn readers_may_repeat_and_reorder() {
    let v = Vec3::from([1, 2, 3]);
    assert_eq!(v.zyx(), Vec3::from([3, 2, 1]));
    assert_eq!(v.xxxx(), Vec4::from([1, 1, 1, 1]));
    assert_eq!(v.zzyx(), Vec4::from([3, 3, 2, 1]));
    let u = Vec2::from([7, 9]);
    assert_eq!(u.yx(), Vec2::from([9, 7]));
    assert_eq!(u.yxy(), Vec3::from([9, 7, 9]));
    assert_eq!(u.yyxx(), Vec4::from([9, 9, 7, 7]));
}

#[test]
fn setters_replace_one_component() {
    let mut v = Vec4::from([1, 2, 3, 4]);
    v.set_x(10);
    assert_eq!(v, Vec4::from([10, 2, 3, 4]));
    v.set_y(20);
    v.set_z(30);
    v.set_w(40);
    assert_eq!(v, Vec4::from([10, 20, 30, 40]));
    let mut u = Vec2::from([1, 2]);
    u.set_y(5);
    assert_eq!(u, Vec2::from([1, 5]));
    let mut t = Vec3::from([1, 2, 3]);
    t.set_component(0, 9);
    assert_eq!(t, Vec3::from([9, 2, 3]));
}

#[test]
fn mixed_constructors_keep_the_order_of_their_parts() {
    let a = Vec2::from([1, 2]);
    let b = Vec3::from([3, 4, 5]);
    assert_eq!(Vec2::from((8, 9)), Vec2::from([8, 9]));
    assert_eq!(Vec3::from((7, 8, 9)), Vec3::from([7, 8, 9]));
    assert_eq!(Vec3::from((a, 9)), Vec3::from([1, 2, 9]));
    assert_eq!(Vec3::from((9, a)), Vec3::from([9, 1, 2]));
    assert_eq!(Vec4::from((6, 7, 8, 9)), Vec4::from([6, 7, 8, 9]));
    assert_eq!(Vec4::from((a, 8, 9)), Vec4::from([1, 2, 8, 9]));
    assert_eq!(Vec4::from((8, a, 9)), Vec4::from([8, 1, 2, 9]));
    assert_eq!(Vec4::from((8, 9, a)), Vec4::from([8, 9, 1, 2]));
    assert_eq!(Vec4::from((a, a.yx())), Vec4::from([1, 2, 2, 1]));
    assert_eq!(Vec4::from((b, 9)), Vec4::from([3, 4, 5, 9]));
    assert_eq!(Vec4::from((9, b)), Vec4::from([9, 3, 4, 5]));
}

#[test]
fn a_vector_is_a_matrix_of_one_column() {
    let v: Mat<3, 1, i32> = Vec3::from([1, 2, 3]);
    assert_eq!(v.rows(), 3);
    assert_eq!(v.cols(), 1);
    assert_eq!(v.at(2, 0), 3);
    assert_eq!(v.raw_data(), &[[1, 2, 3]]);
}
