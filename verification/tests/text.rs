use mats::dynamic::Matrix;
use mats::text::dynamic_heading;
use mats::text::layout;
use mats::text::static_heading;
use mats::Mat;

#[test]
fn layout_puts_each_row_between_pipes() {
    let cells = vec![String::from("a"), String::from("b"), String::from("c"), String::from("d")];
    assert_eq!(layout("M", &cells, 2, 2), "M {\n| ac |\n| bd |\n}");
    assert_eq!(layout("M", &cells, 1, 4), "M {\n| abcd |\n}");
    assert_eq!(layout("M", &cells, 4, 1), "M {\n| a |\n| b |\n| c |\n| d |\n}");
    assert_eq!(layout("Empty", &Vec::new(), 0, 0), "Empty {\n}");
}

#[test]
fn headings_name_the_element_and_the_shape() {
    assert_eq!(static_heading("i32", 3, 12), "Mat<i32, 3, 12>");
    assert_eq!(dynamic_heading("f32", 10, 2), "Mat<f32>(10, 2)");
}

#[test]
fn static_matrix_as_text() {
    let m = Mat::new([[1, 2], [3, 4]]);
    assert_eq!(m.to_text("i32"), "Mat<i32, 2, 2> {\n|     1        3     |\n|     2        4     |\n}");
}

#[test]
fn dynamic_matrix_as_text() {
    let m = Matrix::new([[1.5, -2.0, 3.25]]);
    assert_eq!(
        m.to_text("f64"),
        "Mat<f64>(3, 1) {\n|    1.5    |\n|   -2.0    |\n|   3.25    |\n}"
    );
}
