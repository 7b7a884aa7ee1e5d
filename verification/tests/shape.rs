use paddle_inference::tensor::element_count;

#[test]
fn element_count_is_the_product_of_the_dimensions() {
    assert_eq!(element_count(&[2, 3]), Some(6));
    assert_eq!(element_count(&[1, 3, 224, 224]), Some(150528));
    assert_eq!(element_count(&[7]), Some(7));
}

#[test]
fn element_count_of_no_dimension_is_one() {
    assert_eq!(element_count(&[]), Some(1));
}

#[test]
fn element_count_with_a_zero_dimension_is_zero() {
    assert_eq!(element_count(&[0]), Some(0));
    assert_eq!(element_count(&[4, 0, 5]), Some(0));
    assert_eq!(element_count(&[i32::MAX, i32::MAX, i32::MAX, 0]), Some(0));
    assert_eq!(element_count(&[0, i32::MAX, i32::MAX, i32::MAX]), Some(0));
}

#[test]
fn element_count_of_an_unknown_dimension_is_none() {
    assert_eq!(element_count(&[-1, 3, 224, 224]), None);
    assert_eq!(element_count(&[2, -1]), None);
    assert_eq!(element_count(&[0, -1]), None);
    assert_eq!(element_count(&[i32::MIN]), None);
}

#[test]
fn element_count_that_no_buffer_can_hold_is_none() {
    assert_eq!(element_count(&[i32::MAX, i32::MAX, i32::MAX]), None);
    assert_eq!(element_count(&[i32::MAX, i32::MAX, 4, 4]), None);
    assert_eq!(element_count(&[i32::MAX]), Some(2147483647));
}
