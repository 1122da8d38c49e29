use cairo_context::{clip_rectangle_count, count_from_c, count_to_c, Status};

#[test]
fn small_counts_pass_unchanged() {
    assert_eq!(count_to_c(0), 0);
    assert_eq!(count_to_c(4), 4);
    assert_eq!(count_to_c(i32::MAX as usize), i32::MAX);
    assert_eq!(count_from_c(0), 0);
    assert_eq!(count_from_c(6), 6);
    assert_eq!(count_from_c(i32::MAX), i32::MAX as usize);
}

#[test]
fn oversized_lengths_wrap_as_a_c_int_cast() {
    let len: usize = (i32::MAX as usize) + 1;
    assert_eq!(count_to_c(len), len as i32);
    assert_eq!(count_to_c(len), i32::MIN);
}

#[test]
fn clip_list_exposes_rectangles_only_on_success() {
    assert_eq!(clip_rectangle_count(Status::Success, 3), 3);
    assert_eq!(clip_rectangle_count(Status::Success, 0), 0);
    assert_eq!(clip_rectangle_count(Status::ClipNotRepresentable, 3), 0);
    assert_eq!(clip_rectangle_count(Status::NoMemory, 5), 0);
}
