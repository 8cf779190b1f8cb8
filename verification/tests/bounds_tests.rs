use safeguards::bounds::{copy_prefix, element_at, sub_range, sub_range_clamped};

#[test]
fn element_at_valid_index_returns_element() {
    let arr = vec![1, 2, 3, 4, 5];
    assert_eq!(element_at(&arr, 0), Some(1));
    assert_eq!(element_at(&arr, 4), Some(5));
}

#[test]
fn element_at_out_of_range_is_absent() {
    let arr = vec![1, 2, 3, 4, 5];
    assert_eq!(element_at(&arr, 5), None);
    assert_eq!(element_at(&arr, 10), None);
    assert_eq!(element_at(&arr, usize::MAX), None);
}

#[test]
fn element_at_empty_container_is_always_absent() {
    let empty: Vec<i32> = Vec::new();
    assert_eq!(element_at(&empty, 0), None);
}

#[test]
fn sub_range_inside_bounds() {
    let data = vec![1, 2, 3, 4, 5, 6, 7, 8, 9, 10];
    assert_eq!(sub_range(&data, 2, 5), Some(vec![3, 4, 5]));
    assert_eq!(sub_range(&data, 0, 10), Some(data.clone()));
    assert_eq!(sub_range(&data, 4, 4), Some(Vec::new()));
}

#[test]
fn sub_range_out_of_bounds_is_absent() {
    let data = vec![1, 2, 3, 4, 5, 6, 7, 8, 9, 10];
    assert_eq!(sub_range(&data, 2, 20), None);
    assert_eq!(sub_range(&data, 5, 2), None);
    assert_eq!(sub_range(&data, 11, 11), None);
}

#[test]
fn sub_range_clamped_clamps_end_to_length() {
    let data = vec![1, 2, 3, 4, 5, 6, 7, 8, 9, 10];
    assert_eq!(
        sub_range_clamped(&data, 2, 20),
        Some(vec![3, 4, 5, 6, 7, 8, 9, 10])
    );
    assert_eq!(sub_range_clamped(&data, 2, 5), Some(vec![3, 4, 5]));
}

#[test]
fn sub_range_clamped_start_beyond_data_is_absent() {
    let data = vec![1, 2, 3];
    assert_eq!(sub_range_clamped(&data, 5, 20), None);
    assert_eq!(sub_range_clamped(&data, 3, 20), Some(Vec::new()));
}

#[test]
fn copy_prefix_takes_only_what_fits() {
    let mut buffer: Vec<u8> = vec![0; 10];
    let input = "This string is much longer than 10 characters and would overflow in C++!";
    let src: Vec<u8> = input.as_bytes().to_vec();
    let copied = copy_prefix(&mut buffer, &src);
    assert_eq!(copied, 10);
    assert_eq!(buffer.len(), 10);
    assert_eq!(&buffer[..], &src[..10]);
}

#[test]
fn copy_prefix_short_source_leaves_tail_untouched() {
    let mut buffer: Vec<u8> = vec![9; 5];
    let src: Vec<u8> = vec![1, 2];
    let copied = copy_prefix(&mut buffer, &src);
    assert_eq!(copied, 2);
    assert_eq!(buffer, vec![1, 2, 9, 9, 9]);
}
