use arrayvec_scenarios::strings::{
    test_string, test_string_clone, test_string_from, test_string_from_bytes,
    test_string_parse_from_str, test_string_push,
};

#[test]
fn string_capacity_and_comparisons() {
    let (same, same_back, overflow, still_empty, through_borrow, fallible_failed) = test_string();
    assert!(same);
    assert!(same_back);
    assert!(overflow);
    assert!(still_empty);
    assert_eq!(through_borrow, "ab");
    assert!(fallible_failed);
}

#[test]
fn string_from_text() {
    assert_eq!(test_string_from(), (true, 11, 11));
}

#[test]
fn string_parsed_from_text() {
    assert_eq!(test_string_parse_from_str(), (true, 11, 11));
}

#[test]
fn string_from_byte_string() {
    assert_eq!(test_string_from_bytes(), (true, 11, 11));
}

#[test]
fn string_clone_from_shorter() {
    let (equal, text) = test_string_clone();
    assert!(equal);
    assert_eq!(text, "hi");
}

#[test]
fn string_push_by_characters() {
    let (after_loop, after_push, last_failed) = test_string_push();
    assert_eq!(after_loop, "abc\u{3b1}\u{3b2}");
    assert_eq!(after_push, "abc\u{3b1}\u{3b2}x");
    assert!(last_failed);
}
