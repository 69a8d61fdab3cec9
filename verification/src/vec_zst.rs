//! Vectors of a zero-sized type, filled from ranges.
use vstd::prelude::*;
use crate::model::{extended, taken};
use crate::vec_i32::range_items;
use std::ops::Range;

verus! {

broadcast use vstd::std_specs::range::group_range_axioms;

/// A type with a single value and no size.
#[derive(Copy, Clone, PartialEq, Eq, Debug, Structural)]
pub struct Z;

/// `n` copies of `Z`.
pub open spec fn zs(n: nat) -> Seq<Z> {
    Seq::new(n, |k: int| Z)
}

/// The `Z` that stands for any value of a range.
pub fn z_for(_k: i32) -> (r: Z)
    ensures
        r == Z,
{
    Z
}

/// A copy of the items of a slice, as a `Vec`.
fn to_vec(s: &[Z]) -> (r: Vec<Z>)
    ensures
        r@ == s@,
{
    vstd::slice::slice_to_vec(s)
}

/// An `arrayvec::ArrayVec<[Z; 5]>`.
#[verifier::external_body]
pub struct ZVec5 {
    inner: arrayvec::ArrayVec<[Z; 5]>,
}

/// The items held by a `ZVec5`, front to back.
pub uninterp spec fn zvec5_items(v: ZVec5) -> Seq<Z>;

/// Calls `ArrayVec::from_iter` on `range.by_ref().map(z_for)`: the vector
/// takes one `Z` per range value, as many as fit, and the range moves past
/// exactly the values taken.
#[verifier::external_body]
fn zvec5_collect_range(range: &mut Range<i32>) -> (r: ZVec5)
    ensures
        zvec5_items(r) == extended(
            Seq::<Z>::empty(),
            5,
            zs(range_items(*old(range)).len()),
        ),
        final(range).end == old(range).end,
        final(range).start == old(range).start + taken(0, 5, range_items(*old(range)).len()),
{
    ZVec5 { inner: range.by_ref().map(|k| z_for(k)).collect() }
}

/// Calls `ArrayVec::extend` with `range.by_ref().map(z_for)`: the vector
/// takes one `Z` per range value, as many as fit, and the range moves past
/// exactly the values taken.
#[verifier::external_body]
fn zvec5_extend_range(v: &mut ZVec5, range: &mut Range<i32>)
    ensures
        zvec5_items(*final(v)) == extended(
            zvec5_items(*old(v)),
            5,
            zs(range_items(*old(range)).len()),
        ),
        final(range).end == old(range).end,
        final(range).start == old(range).start + taken(
            zvec5_items(*old(v)).len(),
            5,
            range_items(*old(range)).len(),
        ),
{
    v.inner.extend(range.by_ref().map(|k| z_for(k)))
}

/// Calls `ArrayVec::as_slice`: the items held, front to back.
#[verifier::external_body]
fn zvec5_as_slice(v: &ZVec5) -> (r: &[Z])
    ensures
        r@ == zvec5_items(*v),
{
    v.inner.as_slice()
}

/// An `arrayvec::ArrayVec<[Z; 10]>`.
#[verifier::external_body]
pub struct ZVec10 {
    inner: arrayvec::ArrayVec<[Z; 10]>,
}

/// The items held by a `ZVec10`, front to back.
pub uninterp spec fn zvec10_items(v: ZVec10) -> Seq<Z>;

/// Calls `ArrayVec::from_iter` on `range.by_ref().map(z_for)`: the vector
/// takes one `Z` per range value, as many as fit, and the range moves past
/// exactly the values taken.
#[verifier::external_body]
fn zvec10_collect_range(range: &mut Range<i32>) -> (r: ZVec10)
    ensures
        zvec10_items(r) == extended(
            Seq::<Z>::empty(),
            10,
            zs(range_items(*old(range)).len()),
        ),
        final(range).end == old(range).end,
        final(range).start == old(range).start + taken(0, 10, range_items(*old(range)).len()),
{
    ZVec10 { inner: range.by_ref().map(|k| z_for(k)).collect() }
}

/// Calls `ArrayVec::extend` with `range.by_ref().map(z_for)`: the vector
/// takes one `Z` per range value, as many as fit, and the range moves past
/// exactly the values taken.
#[verifier::external_body]
fn zvec10_extend_range(v: &mut ZVec10, range: &mut Range<i32>)
    ensures
        zvec10_items(*final(v)) == extended(
            zvec10_items(*old(v)),
            10,
            zs(range_items(*old(range)).len()),
        ),
        final(range).end == old(range).end,
        final(range).start == old(range).start + taken(
            zvec10_items(*old(v)).len(),
            10,
            range_items(*old(range)).len(),
        ),
{
    v.inner.extend(range.by_ref().map(|k| z_for(k)))
}

/// Calls `ArrayVec::as_slice`: the items held, front to back.
#[verifier::external_body]
fn zvec10_as_slice(v: &ZVec10) -> (r: &[Z])
    ensures
        r@ == zvec10_items(*v),
{
    v.inner.as_slice()
}

/// Calls `ArrayVec::len`: the number of items held.
#[verifier::external_body]
fn zvec10_len(v: &ZVec10) -> (r: usize)
    ensures
        r == zvec10_items(*v).len(),
{
    v.inner.len()
}

/// The extension scenario of `test_extend` with zero-sized items: fills a
/// vector of capacity five from `0..10` and extends the full vector from
/// the rest of the range; fills a vector of capacity ten from `0..3` and
/// extends it with `3..5`. Returns the first vector's items, the range's
/// next value after the fill and after the extension, the second vector's
/// items before and after its extension, and its final length.
pub fn test_extend_zst() -> (r: (Vec<Z>, Option<i32>, Option<i32>, Vec<Z>, Vec<Z>, usize))
    ensures
        r.0@ == zs(5),
        r.1 == Some(5i32),
        r.2 == Some(6i32),
        r.3@ == zs(3),
        r.4@ == zs(5),
        r.5 == 5,
{
    let mut range: Range<i32> = 0..10;
    let mut array = zvec5_collect_range(&mut range);
    let first = to_vec(zvec5_as_slice(&array));
    assert(first@ =~= zs(5));
    let after_fill = range.next();
    zvec5_extend_range(&mut array, &mut range);
    let after_extend = range.next();
    let mut short: Range<i32> = 0..3;
    let mut array = zvec10_collect_range(&mut short);
    let before = to_vec(zvec10_as_slice(&array));
    assert(before@ =~= zs(3));
    let mut more: Range<i32> = 3..5;
    zvec10_extend_range(&mut array, &mut more);
    let after = to_vec(zvec10_as_slice(&array));
    assert(after@ =~= zs(5));
    (first, after_fill, after_extend, before, after, zvec10_len(&array))
}

} // verus!
