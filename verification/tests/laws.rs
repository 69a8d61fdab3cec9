use arrayvec::{ArrayString, ArrayVec};

#[test]
fn push_uses_one_slot_and_pop_undoes_it() {
    let mut v: ArrayVec<[i32; 3]> = ArrayVec::from([1, 2, 3]);
    v.pop();
    let before = v.clone();
    let room = v.remaining_capacity();
    v.push(7);
    assert_eq!(v.remaining_capacity() + 1, room);
    assert_eq!(v.pop(), Some(7));
    assert_eq!(v, before);
    v.push(8);
    let full = v.clone();
    assert!(v.try_push(9).is_err());
    assert_eq!(v, full);
}

#[test]
fn capacity_is_never_exceeded() {
    let mut v: ArrayVec<[i32; 4]> = ArrayVec::new();
    v.extend(0..100);
    assert_eq!(v.len(), 4);
    assert_eq!(v.remaining_capacity() + v.len(), v.capacity());
    assert!(v.try_insert(0, 5).is_err());
    assert_eq!(v.len(), 4);
    v.retain(|x| *x % 2 == 0);
    assert!(v.len() <= 4);
    v.drain(0..1);
    assert_eq!(v.len(), 1);
}

#[test]
fn extend_takes_only_what_fits() {
    let mut v: ArrayVec<[i32; 4]> = ArrayVec::new();
    v.push(1);
    let mut range = 0..10;
    v.extend(range.by_ref());
    assert_eq!(&v[..], &[1, 0, 1, 2]);
    assert_eq!(range, 3..10);
    v.extend(range.by_ref());
    assert_eq!(range, 3..10);
}

#[test]
fn drain_hands_out_the_range() {
    let mut v = ArrayVec::from([1, 2, 3, 4, 5]);
    let out: Vec<i32> = v.drain(1..3).collect();
    assert_eq!(out, vec![2, 3]);
    assert_eq!(&v[..], &[1, 4, 5]);
    v.drain(..);
    assert!(v.is_empty());
}

#[test]
fn insert_then_pop_at_restores() {
    let mut v: ArrayVec<[i32; 5]> = ArrayVec::new();
    v.extend(1..4);
    let before = v.clone();
    v.insert(1, 9);
    assert_eq!(v.pop_at(1), Some(9));
    assert_eq!(v, before);
    v.insert(v.len(), 4);
    assert_eq!(&v[..], &[1, 2, 3, 4]);
}

#[test]
fn pop_at_past_end_changes_nothing() {
    let mut v = ArrayVec::from([1, 2, 3]);
    assert_eq!(v.pop_at(3), None);
    assert_eq!(&v[..], &[1, 2, 3]);
    assert_eq!(v.pop_at(0), Some(1));
    assert_eq!(&v[..], &[2, 3]);
}

#[test]
fn retain_keeping_all_or_nothing() {
    let mut v = ArrayVec::from([3, 1, 2]);
    v.retain(|_| true);
    assert_eq!(&v[..], &[3, 1, 2]);
    v.retain(|_| false);
    assert!(v.is_empty());
}

#[test]
fn text_never_exceeds_byte_capacity() {
    let mut s = ArrayString::<[u8; 5]>::new();
    s.push_str("ab");
    assert!(s.try_push_str("\u{3b1}\u{3b2}").is_err());
    assert_eq!(&s[..], "ab");
    s.push_str("\u{3b1}");
    assert_eq!(s.len(), 4);
}
