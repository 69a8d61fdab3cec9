use arrayvec_scenarios::vec_i32::{
    test_drain, test_extend, test_into_inner_1, test_into_inner_3_, test_iter,
};
use arrayvec_scenarios::vec_bytes::{
    test_sizes, test_sizes_129_255, test_sizes_33_128, test_u16_index, test_write,
};
use arrayvec_scenarios::vec_owned::{
    array_clone_from, test_insert_at_length, test_into_inner_2, test_pop_at, test_simple,
    test_still_works_with_option_arrayvec,
};
use arrayvec_scenarios::vec_usize::{test_capacity_left, test_extend_from_slice, test_retain};
use arrayvec_scenarios::vec_zst::{test_extend_zst, Z};

#[test]
fn capacity_left_counts_down() {
    assert_eq!(test_capacity_left(), vec![4, 3, 2, 1, 0]);
}

#[test]
fn extend_from_slice_then_pop() {
    let (len, all, last, rest) = test_extend_from_slice();
    assert_eq!(len, 3);
    assert_eq!(all, vec![1, 2, 3]);
    assert_eq!(last, Some(3));
    assert_eq!(rest, vec![1, 2]);
}

#[test]
fn retain_passes() {
    let (a, b, c) = test_retain();
    assert_eq!(a, vec![0, 1, 2, 3, 4, 5, 6, 7]);
    assert_eq!(b, vec![0, 0, 2, 2]);
    assert!(c.is_empty());
}

#[test]
fn iter_from_both_ends() {
    let r = test_iter();
    assert_eq!(r.0, (3, Some(3)));
    assert_eq!(r.1, Some(3));
    assert_eq!(r.2, Some(1));
    assert_eq!(r.3, Some(2));
    assert_eq!(r.4, (0, Some(0)));
    assert_eq!(r.5, None);
}

#[test]
fn extend_stops_at_capacity() {
    let (first, after_fill, after_extend, before, after) = test_extend();
    assert_eq!(first, vec![0, 1, 2, 3, 4]);
    assert_eq!(after_fill, Some(5));
    assert_eq!(after_extend, Some(6));
    assert_eq!(before, vec![0, 1, 2]);
    assert_eq!(after, vec![0, 1, 2, 3, 4]);
}

#[test]
fn drain_ranges() {
    let (a, b, c, d, e) = test_drain();
    assert!(a.is_empty());
    assert_eq!(b, vec![0, 4, 5, 6, 7]);
    assert_eq!(c, vec![6, 5, 4]);
    assert_eq!(d, vec![0, 7]);
    assert!(e.is_empty());
}

#[test]
fn into_inner_of_partial_vector_is_err() {
    let (same, kept) = test_into_inner_1();
    assert!(same);
    assert_eq!(kept, vec![1]);
}

#[test]
fn into_inner_of_full_vector() {
    assert_eq!(test_into_inner_3_(), [1, 2, 3, 4]);
}

#[test]
fn u16_index_fills_4096() {
    assert_eq!(test_u16_index(), (true, true, 4096));
}

#[test]
fn sizes_full_of_zeros() {
    let (len, items) = test_sizes();
    assert_eq!(len, 1 << 16);
    assert_eq!(vec![0u8; len], items);
}

#[test]
fn sizes_from_optional_ranges() {
    assert_eq!(test_sizes_33_128(), (52, 127));
    assert_eq!(test_sizes_129_255(), (237, 255));
}

#[test]
fn write_text_then_bytes() {
    let (first, count, last) = test_write();
    assert_eq!(first, vec![1, 2, 3]);
    assert_eq!(count, 5);
    assert_eq!(last, vec![1, 2, 3, 9, 9, 9, 9, 9]);
}

#[test]
fn simple_sums_and_lengths() {
    let (sums, total) = test_simple();
    assert_eq!(sums, vec![10, 10, 10]);
    assert_eq!(total, 8);
}

#[test]
fn clone_from_reaches_reference() {
    let (reference, a, b, c) = array_clone_from();
    assert_eq!(reference, vec![vec![1, 2], vec![3, 4, 5], vec![6]]);
    assert!(a && b && c);
}

#[test]
fn into_inner_of_full_string_vector() {
    let inner = test_into_inner_2();
    assert_eq!(inner, ["a", "b", "c", "d"]);
}

#[test]
fn pop_at_positions() {
    let (p4, p1, q1, p2, rest) = test_pop_at();
    assert_eq!(p4, None);
    assert_eq!(p1, Some(String::from("b")));
    assert_eq!(q1, Some(String::from("c")));
    assert_eq!(p2, None);
    assert_eq!(rest, vec![String::from("a"), String::from("d")]);
}

#[test]
fn insert_at_length_appends() {
    let (ok, items) = test_insert_at_length();
    assert!(ok);
    assert_eq!(items, vec!["a", "b"]);
}

#[test]
fn option_of_empty_vector() {
    let (array, len) = test_still_works_with_option_arrayvec();
    assert!(array.is_some());
    assert_eq!(len, 0);
    assert_eq!(format!("{:?}", array), "Some(RefVec2 { inner: [] })");
}

#[test]
fn extend_zero_sized_items() {
    let (first, after_fill, after_extend, before, after, len) = test_extend_zst();
    assert_eq!(first, vec![Z; 5]);
    assert_eq!(after_fill, Some(5));
    assert_eq!(after_extend, Some(6));
    assert_eq!(before, vec![Z; 3]);
    assert_eq!(after, vec![Z; 5]);
    assert_eq!(len, 5);
}
