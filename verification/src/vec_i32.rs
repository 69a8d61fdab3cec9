//! Vectors of `i32`: by-value iteration, extension from ranges, draining
//! and taking the inner array out.
use vstd::prelude::*;
use crate::model::{counting_from, drained, extended, last_item, popped, room, taken};
use std::ops::Range;

verus! {

broadcast use vstd::std_specs::range::group_range_axioms;

/// The values a range `start..end` yields, front to back.
pub open spec fn range_items(r: Range<i32>) -> Seq<i32> {
    counting_from(r.start as int, if r.end > r.start { (r.end - r.start) as nat } else { 0 })
}

/// A copy of the items of a slice, as a `Vec`.
fn to_vec(s: &[i32]) -> (r: Vec<i32>)
    ensures
        r@ == s@,
{
    vstd::slice::slice_to_vec(s)
}

// ---------------------------------------------------------------------------
// capacity 3

/// An `arrayvec::ArrayVec<[i32; 3]>`.
#[verifier::external_body]
pub struct I32Vec3 {
    inner: arrayvec::ArrayVec<[i32; 3]>,
}

/// The items held by an `I32Vec3`, front to back.
pub uninterp spec fn i32vec3_items(v: I32Vec3) -> Seq<i32>;

/// Calls `ArrayVec::from` on an array: the vector holds the array's items.
#[verifier::external_body]
fn i32vec3_from(a: [i32; 3]) -> (r: I32Vec3)
    ensures
        i32vec3_items(r) == a@,
{
    I32Vec3 { inner: arrayvec::ArrayVec::from(a) }
}

/// Calls `ArrayVec::from_iter` on the items of `items`: the vector takes
/// the items front to back, as many as fit.
#[verifier::external_body]
fn i32vec3_from_iter(items: Vec<i32>) -> (r: I32Vec3)
    ensures
        i32vec3_items(r) == extended(Seq::<i32>::empty(), 3, items@),
{
    I32Vec3 { inner: items.into_iter().collect() }
}

/// Calls `ArrayVec::as_slice`: the items held, front to back.
#[verifier::external_body]
fn i32vec3_as_slice(v: &I32Vec3) -> (r: &[i32])
    ensures
        r@ == i32vec3_items(*v),
{
    v.inner.as_slice()
}

/// An `arrayvec::IntoIter<[i32; 3]>`, the by-value iterator of an `I32Vec3`.
#[verifier::external_body]
pub struct I32IntoIter3 {
    inner: arrayvec::IntoIter<[i32; 3]>,
}

/// The items an `I32IntoIter3` has not yet handed out, front to back.
pub uninterp spec fn i32iter3_rest(it: I32IntoIter3) -> Seq<i32>;

/// Calls `ArrayVec::into_iter`: the iterator has all the items still to give.
#[verifier::external_body]
fn i32vec3_into_iter(v: I32Vec3) -> (r: I32IntoIter3)
    ensures
        i32iter3_rest(r) == i32vec3_items(v),
{
    I32IntoIter3 { inner: v.inner.into_iter() }
}

/// Calls `IntoIter::size_hint`: exact, the number of items still to give.
#[verifier::external_body]
fn i32iter3_size_hint(it: &I32IntoIter3) -> (r: (usize, Option<usize>))
    ensures
        r.0 == i32iter3_rest(*it).len(),
        r.1 == Some(i32iter3_rest(*it).len() as usize),
{
    it.inner.size_hint()
}

/// Calls `IntoIter::next`: hands out the front item, if any.
#[verifier::external_body]
fn i32iter3_next(it: &mut I32IntoIter3) -> (r: Option<i32>)
    ensures
        i32iter3_rest(*old(it)).len() > 0 ==> r == Some(i32iter3_rest(*old(it))[0])
            && i32iter3_rest(*final(it)) == i32iter3_rest(*old(it)).drop_first(),
        i32iter3_rest(*old(it)).len() == 0 ==> r is None && i32iter3_rest(*final(it))
            == i32iter3_rest(*old(it)),
{
    it.inner.next()
}

/// Calls `IntoIter::next_back`: hands out the back item, if any.
#[verifier::external_body]
fn i32iter3_next_back(it: &mut I32IntoIter3) -> (r: Option<i32>)
    ensures
        r == last_item(i32iter3_rest(*old(it))),
        i32iter3_rest(*final(it)) == popped(i32iter3_rest(*old(it))),
{
    it.inner.next_back()
}

/// Iterates `[1, 2, 3]` by value from both ends. Returns the size hint at
/// the start, the results of `next_back`, `next`, `next_back`, the size
/// hint after them, and a last `next_back`.
pub fn test_iter() -> (r: (
    (usize, Option<usize>),
    Option<i32>,
    Option<i32>,
    Option<i32>,
    (usize, Option<usize>),
    Option<i32>,
))
    ensures
        r.0 == (3usize, Some(3usize)),
        r.1 == Some(3i32),
        r.2 == Some(1i32),
        r.3 == Some(2i32),
        r.4 == (0usize, Some(0usize)),
        r.5 == None::<i32>,
{
    let mut iter = i32vec3_into_iter(i32vec3_from([1, 2, 3]));
    let hint_start = i32iter3_size_hint(&iter);
    let a = i32iter3_next_back(&mut iter);
    let b = i32iter3_next(&mut iter);
    let c = i32iter3_next_back(&mut iter);
    let hint_end = i32iter3_size_hint(&iter);
    let d = i32iter3_next_back(&mut iter);
    (hint_start, a, b, c, hint_end, d)
}

// ---------------------------------------------------------------------------
// capacity 5 and 10, filled from ranges

/// An `arrayvec::ArrayVec<[i32; 5]>`.
#[verifier::external_body]
pub struct I32Vec5 {
    inner: arrayvec::ArrayVec<[i32; 5]>,
}

/// The items held by an `I32Vec5`, front to back.
pub uninterp spec fn i32vec5_items(v: I32Vec5) -> Seq<i32>;

/// Calls `ArrayVec::from_iter` on `range.by_ref()`: the vector takes the
/// range's values front to back, as many as fit, and the range moves past
/// exactly the values taken.
#[verifier::external_body]
fn i32vec5_collect_range(range: &mut Range<i32>) -> (r: I32Vec5)
    ensures
        i32vec5_items(r) == extended(Seq::<i32>::empty(), 5, range_items(*old(range))),
        final(range).end == old(range).end,
        final(range).start == old(range).start + taken(0, 5, range_items(*old(range)).len()),
{
    I32Vec5 { inner: range.by_ref().collect() }
}

/// Calls `ArrayVec::extend` with `range.by_ref()`: the vector takes the
/// range's values front to back, as many as fit, and the range moves past
/// exactly the values taken.
#[verifier::external_body]
fn i32vec5_extend_range(v: &mut I32Vec5, range: &mut Range<i32>)
    ensures
        i32vec5_items(*final(v)) == extended(i32vec5_items(*old(v)), 5, range_items(*old(range))),
        final(range).end == old(range).end,
        final(range).start == old(range).start + taken(
            i32vec5_items(*old(v)).len(),
            5,
            range_items(*old(range)).len(),
        ),
{
    v.inner.extend(range.by_ref())
}

/// Calls `ArrayVec::as_slice`: the items held, front to back.
#[verifier::external_body]
fn i32vec5_as_slice(v: &I32Vec5) -> (r: &[i32])
    ensures
        r@ == i32vec5_items(*v),
{
    v.inner.as_slice()
}

/// An `arrayvec::ArrayVec<[i32; 10]>`.
#[verifier::external_body]
pub struct I32Vec10 {
    inner: arrayvec::ArrayVec<[i32; 10]>,
}

/// The items held by an `I32Vec10`, front to back.
pub uninterp spec fn i32vec10_items(v: I32Vec10) -> Seq<i32>;

/// Calls `ArrayVec::from_iter` on `range.by_ref()`: the vector takes the
/// range's values front to back, as many as fit, and the range moves past
/// exactly the values taken.
#[verifier::external_body]
fn i32vec10_collect_range(range: &mut Range<i32>) -> (r: I32Vec10)
    ensures
        i32vec10_items(r) == extended(Seq::<i32>::empty(), 10, range_items(*old(range))),
        final(range).end == old(range).end,
        final(range).start == old(range).start + taken(0, 10, range_items(*old(range)).len()),
{
    I32Vec10 { inner: range.by_ref().collect() }
}

/// Calls `ArrayVec::extend` with `range.by_ref()`: the vector takes the
/// range's values front to back, as many as fit, and the range moves past
/// exactly the values taken.
#[verifier::external_body]
fn i32vec10_extend_range(v: &mut I32Vec10, range: &mut Range<i32>)
    ensures
        i32vec10_items(*final(v)) == extended(
            i32vec10_items(*old(v)),
            10,
            range_items(*old(range)),
        ),
        final(range).end == old(range).end,
        final(range).start == old(range).start + taken(
            i32vec10_items(*old(v)).len(),
            10,
            range_items(*old(range)).len(),
        ),
{
    v.inner.extend(range.by_ref())
}

/// Calls `ArrayVec::as_slice`: the items held, front to back.
#[verifier::external_body]
fn i32vec10_as_slice(v: &I32Vec10) -> (r: &[i32])
    ensures
        r@ == i32vec10_items(*v),
{
    v.inner.as_slice()
}

/// Fills a vector of capacity five from `0..10` and extends the full vector
/// from the rest of the range; then fills a vector of capacity ten from
/// `0..3` and extends it with `3..5`. Returns the first vector's items, the
/// range's next value after the fill and after the extension, and the
/// second vector's items before and after its extension.
pub fn test_extend() -> (r: (Vec<i32>, Option<i32>, Option<i32>, Vec<i32>, Vec<i32>))
    ensures
        r.0@ == seq![0i32, 1, 2, 3, 4],
        r.1 == Some(5i32),
        r.2 == Some(6i32),
        r.3@ == seq![0i32, 1, 2],
        r.4@ == seq![0i32, 1, 2, 3, 4],
{
    let mut range: Range<i32> = 0..10;
    let mut array = i32vec5_collect_range(&mut range);
    let first = to_vec(i32vec5_as_slice(&array));
    let after_fill = range.next();
    i32vec5_extend_range(&mut array, &mut range);
    let after_extend = range.next();
    let mut short: Range<i32> = 0..3;
    let mut array = i32vec10_collect_range(&mut short);
    let before = to_vec(i32vec10_as_slice(&array));
    let mut more: Range<i32> = 3..5;
    i32vec10_extend_range(&mut array, &mut more);
    let after = to_vec(i32vec10_as_slice(&array));
    assert(first@ =~= seq![0i32, 1, 2, 3, 4]);
    assert(before@ =~= seq![0i32, 1, 2]);
    assert(after@ =~= seq![0i32, 1, 2, 3, 4]);
    (first, after_fill, after_extend, before, after)
}

// ---------------------------------------------------------------------------
// capacity 8, drained

/// An `arrayvec::ArrayVec<[i32; 8]>`.
#[verifier::external_body]
pub struct I32Vec8 {
    inner: arrayvec::ArrayVec<[i32; 8]>,
}

/// The items held by an `I32Vec8`, front to back.
pub uninterp spec fn i32vec8_items(v: I32Vec8) -> Seq<i32>;

/// Calls `ArrayVec::from` on an array: the vector holds the array's items.
#[verifier::external_body]
fn i32vec8_from(a: [i32; 8]) -> (r: I32Vec8)
    ensures
        i32vec8_items(r) == a@,
{
    I32Vec8 { inner: arrayvec::ArrayVec::from(a) }
}

/// Calls `ArrayVec::pop`: removes and returns the last item, if any.
#[verifier::external_body]
fn i32vec8_pop(v: &mut I32Vec8) -> (r: Option<i32>)
    ensures
        r == last_item(i32vec8_items(*old(v))),
        i32vec8_items(*final(v)) == popped(i32vec8_items(*old(v))),
{
    v.inner.pop()
}

/// Calls `ArrayVec::len`: the number of items held.
#[verifier::external_body]
fn i32vec8_len(v: &I32Vec8) -> (r: usize)
    ensures
        r == i32vec8_items(*v).len(),
{
    v.inner.len()
}

/// Calls `ArrayVec::drain` on `start..end` (which panics unless
/// `start <= end <= len`) and runs the drain to its end: the positions
/// `start..end` leave the vector and come back front to back.
#[verifier::external_body]
fn i32vec8_drain(v: &mut I32Vec8, start: usize, end: usize) -> (r: Vec<i32>)
    requires
        start <= end <= i32vec8_items(*old(v)).len(),
    ensures
        r@ == i32vec8_items(*old(v)).subrange(start as int, end as int),
        i32vec8_items(*final(v)) == drained(i32vec8_items(*old(v)), start as int, end as int),
{
    v.inner.drain(start..end).collect()
}

/// Calls `ArrayVec::extend` with the unbounded range `start..`: the vector
/// takes consecutive values from `start` until it is full.
#[verifier::external_body]
fn i32vec8_extend_from(v: &mut I32Vec8, start: i32)
    requires
        start + room(i32vec8_items(*old(v)).len(), 8) <= i32::MAX,
    ensures
        i32vec8_items(*final(v)) == i32vec8_items(*old(v)) + counting_from(
            start as int,
            room(i32vec8_items(*old(v)).len(), 8),
        ),
{
    v.inner.extend(start..)
}

/// Calls `ArrayVec::as_slice`: the items held, front to back.
#[verifier::external_body]
fn i32vec8_as_slice(v: &I32Vec8) -> (r: &[i32])
    ensures
        r@ == i32vec8_items(*v),
{
    v.inner.as_slice()
}

/// The items of `s` in reverse order.
fn reversed(s: &Vec<i32>) -> (r: Vec<i32>)
    ensures
        r@ == s@.reverse(),
{
    let mut r: Vec<i32> = Vec::new();
    let n = s.len();
    let mut i: usize = n;
    while i > 0
        invariant
            n == s@.len(),
            i <= n,
            r@ == s@.subrange(i as int, n as int).reverse(),
        decreases i,
    {
        i = i - 1;
        assert(s@.subrange(i as int, n as int).reverse() =~= s@.subrange(
            i + 1,
            n as int,
        ).reverse().push(s@[i as int]));
        r.push(s[i]);
    }
    assert(s@.subrange(0, n as int) =~= s@);
    r
}

/// Drains a vector of capacity eight in several ways: everything but the
/// popped last item; then, after refilling it with `0..`, the positions
/// `1..4`; then `1..4` again, collected back to front into a vector of
/// capacity three; then everything. Returns the items after each step
/// and the collected vector.
pub fn test_drain() -> (r: (Vec<i32>, Vec<i32>, Vec<i32>, Vec<i32>, Vec<i32>))
    ensures
        r.0@ == Seq::<i32>::empty(),
        r.1@ == seq![0i32, 4, 5, 6, 7],
        r.2@ == seq![6i32, 5, 4],
        r.3@ == seq![0i32, 7],
        r.4@ == Seq::<i32>::empty(),
{
    let mut v = i32vec8_from([0; 8]);
    i32vec8_pop(&mut v);
    i32vec8_drain(&mut v, 0, 7);
    let emptied = to_vec(i32vec8_as_slice(&v));
    assert(emptied@ =~= Seq::<i32>::empty());
    i32vec8_extend_from(&mut v, 0);
    assert(i32vec8_items(v) =~= seq![0i32, 1, 2, 3, 4, 5, 6, 7]);
    i32vec8_drain(&mut v, 1, 4);
    let middle = to_vec(i32vec8_as_slice(&v));
    assert(middle@ =~= seq![0i32, 4, 5, 6, 7]);
    let taken_out = i32vec8_drain(&mut v, 1, 4);
    let u = i32vec3_from_iter(reversed(&taken_out));
    let collected = to_vec(i32vec3_as_slice(&u));
    assert(collected@ =~= seq![6i32, 5, 4]);
    let rest = to_vec(i32vec8_as_slice(&v));
    assert(rest@ =~= seq![0i32, 7]);
    let len = i32vec8_len(&v);
    i32vec8_drain(&mut v, 0, len);
    let cleared = to_vec(i32vec8_as_slice(&v));
    assert(cleared@ =~= Seq::<i32>::empty());
    (emptied, middle, collected, rest, cleared)
}

// ---------------------------------------------------------------------------
// taking the inner array out

/// An `arrayvec::ArrayVec<[i32; 2]>`.
#[verifier::external_body]
pub struct I32Vec2 {
    inner: arrayvec::ArrayVec<[i32; 2]>,
}

/// The items held by an `I32Vec2`, front to back.
pub uninterp spec fn i32vec2_items(v: I32Vec2) -> Seq<i32>;

/// Calls `ArrayVec::from` on an array: the vector holds the array's items.
#[verifier::external_body]
fn i32vec2_from(a: [i32; 2]) -> (r: I32Vec2)
    ensures
        i32vec2_items(r) == a@,
{
    I32Vec2 { inner: arrayvec::ArrayVec::from(a) }
}

/// Calls `ArrayVec::pop`: removes and returns the last item, if any.
#[verifier::external_body]
fn i32vec2_pop(v: &mut I32Vec2) -> (r: Option<i32>)
    ensures
        r == last_item(i32vec2_items(*old(v))),
        i32vec2_items(*final(v)) == popped(i32vec2_items(*old(v))),
{
    v.inner.pop()
}

/// Calls `ArrayVec::clone`: a vector with the same items.
#[verifier::external_body]
fn i32vec2_clone(v: &I32Vec2) -> (r: I32Vec2)
    ensures
        i32vec2_items(r) == i32vec2_items(*v),
{
    I32Vec2 { inner: v.inner.clone() }
}

/// Calls `ArrayVec::as_slice`: the items held, front to back.
#[verifier::external_body]
fn i32vec2_as_slice(v: &I32Vec2) -> (r: &[i32])
    ensures
        r@ == i32vec2_items(*v),
{
    v.inner.as_slice()
}

/// Calls `ArrayVec::into_inner`: the array when the vector is full,
/// otherwise the vector itself back.
#[verifier::external_body]
fn i32vec2_into_inner(v: I32Vec2) -> (r: Result<[i32; 2], I32Vec2>)
    ensures
        r is Ok <==> i32vec2_items(v).len() == 2,
        r matches Ok(a) ==> a@ == i32vec2_items(v),
        r matches Err(w) ==> i32vec2_items(w) == i32vec2_items(v),
{
    v.inner.into_inner().map_err(|w| I32Vec2 { inner: w })
}

/// Calls `ArrayVec::eq`: whether the two vectors hold the same items.
#[verifier::external_body]
fn i32vec2_eq(a: &I32Vec2, b: &I32Vec2) -> (r: bool)
    ensures
        r == (i32vec2_items(*a) == i32vec2_items(*b)),
{
    a.inner == b.inner
}

/// Pops one item off the full vector `[1, 2]`, clones it, and takes the
/// inner array out of the original. Returns whether that gave back the
/// vector itself (`Err`) equal to the clone, and the items of the clone.
pub fn test_into_inner_1() -> (r: (bool, Vec<i32>))
    ensures
        r.0,
        r.1@ == seq![1i32],
{
    let mut v = i32vec2_from([1, 2]);
    i32vec2_pop(&mut v);
    let u = i32vec2_clone(&v);
    let same_as_err_of_clone = match i32vec2_into_inner(v) {
        Ok(_) => false,
        Err(w) => i32vec2_eq(&w, &u),
    };
    let kept = to_vec(i32vec2_as_slice(&u));
    assert(kept@ =~= seq![1i32]);
    (same_as_err_of_clone, kept)
}

/// An `arrayvec::ArrayVec<[i32; 4]>`.
#[verifier::external_body]
#[derive(Debug)]
pub struct I32Vec4 {
    inner: arrayvec::ArrayVec<[i32; 4]>,
}

/// The items held by an `I32Vec4`, front to back.
pub uninterp spec fn i32vec4_items(v: I32Vec4) -> Seq<i32>;

/// Calls `ArrayVec::new`: the new vector holds nothing.
#[verifier::external_body]
fn i32vec4_new() -> (r: I32Vec4)
    ensures
        i32vec4_items(r) == Seq::<i32>::empty(),
{
    I32Vec4 { inner: arrayvec::ArrayVec::new() }
}

/// Calls `ArrayVec::extend` with the unbounded range `start..`: the vector
/// takes consecutive values from `start` until it is full.
#[verifier::external_body]
fn i32vec4_extend_from(v: &mut I32Vec4, start: i32)
    requires
        start + room(i32vec4_items(*old(v)).len(), 4) <= i32::MAX,
    ensures
        i32vec4_items(*final(v)) == i32vec4_items(*old(v)) + counting_from(
            start as int,
            room(i32vec4_items(*old(v)).len(), 4),
        ),
{
    v.inner.extend(start..)
}

/// Calls `ArrayVec::into_inner`: the array when the vector is full,
/// otherwise the vector itself back.
#[verifier::external_body]
fn i32vec4_into_inner(v: I32Vec4) -> (r: Result<[i32; 4], I32Vec4>)
    ensures
        r is Ok <==> i32vec4_items(v).len() == 4,
        r matches Ok(a) ==> a@ == i32vec4_items(v),
        r matches Err(w) ==> i32vec4_items(w) == i32vec4_items(v),
{
    v.inner.into_inner().map_err(|w| I32Vec4 { inner: w })
}

/// Fills an empty vector of capacity four from `1..` and takes the inner
/// array out, which succeeds because the vector is full.
pub fn test_into_inner_3_() -> (r: [i32; 4])
    ensures
        r@ == seq![1i32, 2, 3, 4],
{
    let mut v = i32vec4_new();
    i32vec4_extend_from(&mut v, 1);
    assert(i32vec4_items(v) =~= seq![1i32, 2, 3, 4]);
    i32vec4_into_inner(v).unwrap()
}

} // verus!
