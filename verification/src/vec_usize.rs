//! Vectors of `usize`: remaining capacity, slice extension and retain.
use vstd::prelude::*;
use crate::model::{popped, last_item, pushed, retained, room};

verus! {

/// An `arrayvec::ArrayVec<[usize; 4]>`.
#[verifier::external_body]
pub struct UsizeVec4 {
    inner: arrayvec::ArrayVec<[usize; 4]>,
}

/// The items held by a `UsizeVec4`, front to back.
pub uninterp spec fn usize4_items(v: UsizeVec4) -> Seq<usize>;

/// Calls `ArrayVec::new`: the new vector holds nothing.
#[verifier::external_body]
fn usize4_new() -> (r: UsizeVec4)
    ensures
        usize4_items(r) == Seq::<usize>::empty(),
{
    UsizeVec4 { inner: arrayvec::ArrayVec::new() }
}

/// Calls `ArrayVec::push`, which panics on a full vector: the item is appended.
#[verifier::external_body]
fn usize4_push(v: &mut UsizeVec4, x: usize)
    requires
        usize4_items(*old(v)).len() < 4,
    ensures
        usize4_items(*final(v)) == pushed(usize4_items(*old(v)), 4, x),
{
    v.inner.push(x)
}

/// Calls `ArrayVec::remaining_capacity`: the capacity minus the length.
#[verifier::external_body]
fn usize4_remaining_capacity(v: &UsizeVec4) -> (r: usize)
    ensures
        r == room(usize4_items(*v).len(), 4),
{
    v.inner.remaining_capacity()
}

/// Pushes four items into an empty vector of capacity four and records the
/// remaining capacity before the first push and after each one.
pub fn test_capacity_left() -> (r: Vec<usize>)
    ensures
        r@ == seq![4usize, 3, 2, 1, 0],
{
    let mut seen: Vec<usize> = Vec::new();
    let mut vec = usize4_new();
    seen.push(usize4_remaining_capacity(&vec));
    usize4_push(&mut vec, 1);
    seen.push(usize4_remaining_capacity(&vec));
    usize4_push(&mut vec, 2);
    seen.push(usize4_remaining_capacity(&vec));
    usize4_push(&mut vec, 3);
    seen.push(usize4_remaining_capacity(&vec));
    usize4_push(&mut vec, 4);
    seen.push(usize4_remaining_capacity(&vec));
    seen
}


/// An `arrayvec::ArrayVec<[usize; 10]>`.
#[verifier::external_body]
pub struct UsizeVec10 {
    inner: arrayvec::ArrayVec<[usize; 10]>,
}

/// The items held by a `UsizeVec10`, front to back.
pub uninterp spec fn usize10_items(v: UsizeVec10) -> Seq<usize>;

/// Calls `ArrayVec::new`: the new vector holds nothing.
#[verifier::external_body]
fn usize10_new() -> (r: UsizeVec10)
    ensures
        usize10_items(r) == Seq::<usize>::empty(),
{
    UsizeVec10 { inner: arrayvec::ArrayVec::new() }
}

/// Calls `ArrayVec::try_extend_from_slice`: when the slice fits in the
/// remaining capacity it is appended and `Ok` comes back; otherwise the
/// vector is unchanged and an error comes back.
#[verifier::external_body]
fn usize10_try_extend_from_slice(v: &mut UsizeVec10, other: &[usize]) -> (r: Result<
    (),
    arrayvec::CapacityError,
>)
    ensures
        r is Ok <==> other@.len() <= room(usize10_items(*old(v)).len(), 10),
        r is Ok ==> usize10_items(*final(v)) == usize10_items(*old(v)) + other@,
        r is Err ==> usize10_items(*final(v)) == usize10_items(*old(v)),
{
    v.inner.try_extend_from_slice(other)
}

/// Calls `ArrayVec::len`: the number of items held.
#[verifier::external_body]
fn usize10_len(v: &UsizeVec10) -> (r: usize)
    ensures
        r == usize10_items(*v).len(),
{
    v.inner.len()
}

/// Calls `ArrayVec::as_slice`: the items held, front to back.
#[verifier::external_body]
fn usize10_as_slice(v: &UsizeVec10) -> (r: &[usize])
    ensures
        r@ == usize10_items(*v),
{
    v.inner.as_slice()
}

/// Calls `ArrayVec::pop`: removes and returns the last item, if any.
#[verifier::external_body]
fn usize10_pop(v: &mut UsizeVec10) -> (r: Option<usize>)
    ensures
        r == last_item(usize10_items(*old(v))),
        usize10_items(*final(v)) == popped(usize10_items(*old(v))),
{
    v.inner.pop()
}

/// Appends the slice `[1, 2, 3]` to an empty vector of capacity ten, then
/// pops the last item. Returns the length after the append, the items
/// after the append, the popped item and the items after the pop.
pub fn test_extend_from_slice() -> (r: (usize, Vec<usize>, Option<usize>, Vec<usize>))
    ensures
        r.0 == 3,
        r.1@ == seq![1usize, 2, 3],
        r.2 == Some(3usize),
        r.3@ == seq![1usize, 2],
{
    let mut vec = usize10_new();
    let src: [usize; 3] = [1, 2, 3];
    usize10_try_extend_from_slice(&mut vec, &src).unwrap();
    let len = usize10_len(&vec);
    let all = vstd::slice::slice_to_vec(usize10_as_slice(&vec));
    let last = usize10_pop(&mut vec);
    let rest = vstd::slice::slice_to_vec(usize10_as_slice(&vec));
    assert(all@ =~= seq![1usize, 2, 3]);
    assert(rest@ =~= seq![1usize, 2]);
    (len, all, last, rest)
}

/// An `arrayvec::ArrayVec<[usize; 8]>`.
#[verifier::external_body]
pub struct UsizeVec8 {
    inner: arrayvec::ArrayVec<[usize; 8]>,
}

/// The items held by a `UsizeVec8`, front to back.
pub uninterp spec fn usize8_items(v: UsizeVec8) -> Seq<usize>;

/// Calls `ArrayVec::from` on an array: the vector holds the array's items
/// and is full.
#[verifier::external_body]
fn usize8_from(a: [usize; 8]) -> (r: UsizeVec8)
    ensures
        usize8_items(r) == a@,
{
    UsizeVec8 { inner: arrayvec::ArrayVec::from(a) }
}

/// Calls `ArrayVec::as_mut_slice`: a mutable view of the items held; what
/// is written through it is what the vector holds afterwards.
#[verifier::external_body]
fn usize8_as_mut_slice(v: &mut UsizeVec8) -> (r: &mut [usize])
    ensures
        (*r)@ == usize8_items(*old(v)),
        usize8_items(*final(v)) == (*final(r))@,
{
    v.inner.as_mut_slice()
}

/// Calls `ArrayVec::as_slice`: the items held, front to back.
#[verifier::external_body]
fn usize8_as_slice(v: &UsizeVec8) -> (r: &[usize])
    ensures
        r@ == usize8_items(*v),
{
    v.inner.as_slice()
}

/// A retain predicate that keeps every item unchanged.
pub fn keep_every(x: &mut usize) -> (r: bool)
    ensures
        *final(x) == *old(x),
        r,
{
    true
}

/// A retain predicate that halves the item and keeps it when the halved
/// value is even.
pub fn halve_keep_even(x: &mut usize) -> (r: bool)
    ensures
        *final(x) == *old(x) / 2,
        r == (*final(x) % 2 == 0),
{
    *x = *x / 2;
    *x % 2 == 0
}

/// A retain predicate that keeps no item.
pub fn keep_none(x: &mut usize) -> (r: bool)
    ensures
        *final(x) == *old(x),
        !r,
{
    false
}

/// Calls `ArrayVec::retain` with `keep_every`: every item is visited once,
/// front to back, and the vector keeps the items the predicate keeps.
#[verifier::external_body]
fn usize8_retain_every(v: &mut UsizeVec8)
    ensures
        usize8_items(*final(v)) == retained(
            usize8_items(*old(v)),
            |x: usize| x,
            |x: usize| true,
        ),
{
    v.inner.retain(|x| keep_every(x))
}

/// Calls `ArrayVec::retain` with `halve_keep_even`: every item is visited
/// once, front to back, halved, and kept when the halved value is even.
#[verifier::external_body]
fn usize8_retain_halve_keep_even(v: &mut UsizeVec8)
    ensures
        usize8_items(*final(v)) == retained(
            usize8_items(*old(v)),
            |x: usize| (x / 2) as usize,
            |x: usize| x % 2 == 0,
        ),
{
    v.inner.retain(|x| halve_keep_even(x))
}

/// Calls `ArrayVec::retain` with `keep_none`: no item stays.
#[verifier::external_body]
fn usize8_retain_none(v: &mut UsizeVec8)
    ensures
        usize8_items(*final(v)) == retained(
            usize8_items(*old(v)),
            |x: usize| x,
            |x: usize| false,
        ),
{
    v.inner.retain(|x| keep_none(x))
}

/// Fills a full vector of capacity eight with `0..8`, then runs three
/// retain passes: keep everything; halve and keep the even results; keep
/// nothing. Returns the items after each pass.
pub fn test_retain() -> (r: (Vec<usize>, Vec<usize>, Vec<usize>))
    ensures
        r.0@ == seq![0usize, 1, 2, 3, 4, 5, 6, 7],
        r.1@ == seq![0usize, 0, 2, 2],
        r.2@ == Seq::<usize>::empty(),
{
    let mut v = usize8_from([0; 8]);
    {
        let s = usize8_as_mut_slice(&mut v);
        let n = s.len();
        let mut i: usize = 0;
        while i < n
            invariant
                n == s@.len(),
                i <= n,
                forall|k: int| 0 <= k < i ==> s@[k] == k,
            decreases n - i,
        {
            s[i] = i;
            i = i + 1;
        }
        assert(s@ =~= seq![0usize, 1, 2, 3, 4, 5, 6, 7]);
    }
    let ghost counted = seq![0usize, 1, 2, 3, 4, 5, 6, 7];
    assert(usize8_items(v) == counted);
    usize8_retain_every(&mut v);
    let first = vstd::slice::slice_to_vec(usize8_as_slice(&v));
    usize8_retain_halve_keep_even(&mut v);
    let second = vstd::slice::slice_to_vec(usize8_as_slice(&v));
    usize8_retain_none(&mut v);
    let third = vstd::slice::slice_to_vec(usize8_as_slice(&v));
    proof {
        lemma_retain_passes(counted);
    }
    (first, second, third)
}

/// What the three retain passes of `test_retain` compute on `0..8`.
proof fn lemma_retain_passes(s: Seq<usize>)
    requires
        s == seq![0usize, 1, 2, 3, 4, 5, 6, 7],
    ensures
        retained(s, |x: usize| x, |x: usize| true) == s,
        retained(s, |x: usize| (x / 2) as usize, |x: usize| x % 2 == 0) == seq![0usize, 0, 2, 2],
        retained(seq![0usize, 0, 2, 2], |x: usize| x, |x: usize| false) == Seq::<usize>::empty(),
{
    reveal_with_fuel(Seq::filter, 9);
    let id = |x: usize| x;
    let half = |x: usize| (x / 2) as usize;
    assert(s.map_values(id) =~= s);
    let h = s.map_values(half);
    assert(h =~= seq![0usize, 0, 1, 1, 2, 2, 3, 3]);
    assert(h.drop_last() =~= seq![0usize, 0, 1, 1, 2, 2, 3]);
    assert(s.drop_last() =~= seq![0usize, 1, 2, 3, 4, 5, 6]);
    assert(s.filter(|x: usize| true) =~= s);
    assert(h.filter(|x: usize| x % 2 == 0) =~= seq![0usize, 0, 2, 2]);
    let e = seq![0usize, 0, 2, 2];
    assert(e.map_values(id) =~= e);
    assert(e.drop_last() =~= seq![0usize, 0, 2]);
    assert(e.filter(|x: usize| false) =~= Seq::<usize>::empty());
}

} // verus!
