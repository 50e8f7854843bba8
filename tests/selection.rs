use vect::anchor::anchor;
use vect::component::{component_of_index, Component};

#[test]
fn index_zero_is_x_and_one_is_y() {
    assert_eq!(component_of_index(0), Component::X);
    assert_eq!(component_of_index(1), Component::Y);
}

#[test]
fn anchor_from_end_is_end_point() {
    let a = (16, 10);
    let b = (28, 15);
    assert_eq!(anchor(a, b, true), b);
}

#[test]
fn anchor_from_start_is_start_point() {
    let a = (16, 10);
    let b = (28, 15);
    assert_eq!(anchor(a, b, false), a);
}

#[test]
fn anchor_of_degenerate_segment() {
    assert_eq!(anchor(0u8, 0u8, true), 0);
    assert_eq!(anchor(0u8, 0u8, false), 0);
}
