//! Vectors of owned and borrowed values: vectors of numbers, strings,
//! string slices and references.
use vstd::prelude::*;
use crate::model::{inserted, item_at, popped_at, pushed};

verus! {

/// The sum of a sequence of numbers.
pub open spec fn sum(s: Seq<i32>) -> int
    decreases s.len(),
{
    if s.len() == 0 {
        0
    } else {
        sum(s.drop_last()) + s.last()
    }
}

/// The sum of the items of a slice, added up front to back.
fn sum_of(s: &[i32]) -> (r: i64)
    requires
        s@.len() < 0x1_0000_0000,
    ensures
        r == sum(s@),
{
    let n = s.len();
    let mut acc: i64 = 0;
    let mut k: usize = 0;
    while k < n
        invariant
            n == s@.len(),
            n < 0x1_0000_0000,
            k <= n,
            acc == sum(s@.take(k as int)),
            -(k as int) * 0x8000_0000 <= acc <= (k as int) * 0x8000_0000,
        decreases n - k,
    {
        assert(s@.take(k + 1).drop_last() =~= s@.take(k as int));
        acc = acc + s[k] as i64;
        k = k + 1;
    }
    assert(s@.take(n as int) =~= s@);
    acc
}

/// The views of a sequence of vectors.
pub open spec fn views_of(s: Seq<Vec<i32>>) -> Seq<Seq<i32>> {
    s.map_values(|e: Vec<i32>| e@)
}

/// The views of a sequence of strings.
pub open spec fn texts_of(s: Seq<String>) -> Seq<Seq<char>> {
    s.map_values(|e: String| e@)
}

// ---------------------------------------------------------------------------
// vectors of number vectors, capacity 3

/// An `arrayvec::ArrayVec<[Vec<i32>; 3]>`.
#[verifier::external_body]
pub struct NumsVec3 {
    inner: arrayvec::ArrayVec<[Vec<i32>; 3]>,
}

/// The items held by a `NumsVec3`, each by its view, front to back.
pub uninterp spec fn nums3_items(v: NumsVec3) -> Seq<Seq<i32>>;

/// Calls `ArrayVec::new`: the new vector holds nothing.
#[verifier::external_body]
fn nums3_new() -> (r: NumsVec3)
    ensures
        nums3_items(r) == Seq::<Seq<i32>>::empty(),
{
    NumsVec3 { inner: arrayvec::ArrayVec::new() }
}

/// Calls `ArrayVec::push`, which panics on a full vector: the item is appended.
#[verifier::external_body]
fn nums3_push(v: &mut NumsVec3, x: Vec<i32>)
    requires
        nums3_items(*old(v)).len() < 3,
    ensures
        nums3_items(*final(v)) == pushed(nums3_items(*old(v)), 3, x@),
{
    v.inner.push(x)
}

/// Calls `ArrayVec::as_slice`: the items held, front to back.
#[verifier::external_body]
fn nums3_as_slice(v: &NumsVec3) -> (r: &[Vec<i32>])
    ensures
        views_of(r@) == nums3_items(*v),
{
    v.inner.as_slice()
}

/// An `arrayvec::IntoIter<[Vec<i32>; 3]>`, the by-value iterator of a `NumsVec3`.
#[verifier::external_body]
pub struct NumsIntoIter3 {
    inner: arrayvec::IntoIter<[Vec<i32>; 3]>,
}

/// The items a `NumsIntoIter3` has not yet handed out, by their views.
pub uninterp spec fn nums_iter3_rest(it: NumsIntoIter3) -> Seq<Seq<i32>>;

/// Calls `ArrayVec::into_iter`: the iterator has all the items still to give.
#[verifier::external_body]
fn nums3_into_iter(v: NumsVec3) -> (r: NumsIntoIter3)
    ensures
        nums_iter3_rest(r) == nums3_items(v),
{
    NumsIntoIter3 { inner: v.inner.into_iter() }
}

/// Calls `IntoIter::next`: hands out the front item, if any.
#[verifier::external_body]
fn nums_iter3_next(it: &mut NumsIntoIter3) -> (r: Option<Vec<i32>>)
    ensures
        nums_iter3_rest(*old(it)).len() > 0 ==> r is Some && r->0@ == nums_iter3_rest(
            *old(it),
        )[0] && nums_iter3_rest(*final(it)) == nums_iter3_rest(*old(it)).drop_first(),
        nums_iter3_rest(*old(it)).len() == 0 ==> r is None && nums_iter3_rest(*final(it))
            == nums_iter3_rest(*old(it)),
{
    it.inner.next()
}

/// The sums of `[1, 2, 3, 4]`, `[10]` and `[-1, 13, -2]`.
proof fn lemma_three_sums()
    ensures
        sum(seq![1i32, 2, 3, 4]) == 10,
        sum(seq![10i32]) == 10,
        sum(seq![-1i32, 13, -2i32]) == 10,
{
    reveal_with_fuel(sum, 5);
    assert(seq![1i32, 2, 3, 4].drop_last() =~= seq![1i32, 2, 3]);
    assert(seq![1i32, 2, 3].drop_last() =~= seq![1i32, 2]);
    assert(seq![1i32, 2].drop_last() =~= seq![1i32]);
    assert(seq![1i32].drop_last() =~= Seq::<i32>::empty());
    assert(seq![10i32].drop_last() =~= Seq::<i32>::empty());
    assert(seq![-1i32, 13, -2i32].drop_last() =~= seq![-1i32, 13]);
    assert(seq![-1i32, 13].drop_last() =~= seq![-1i32]);
    assert(seq![-1i32].drop_last() =~= Seq::<i32>::empty());
}

/// Pushes `[1, 2, 3, 4]`, `[10]` and `[-1, 13, -2]` into a vector of
/// capacity three, sums each item while borrowing the vector, then
/// consumes the vector adding up the items' lengths. Returns the sums and
/// the total length.
pub fn test_simple() -> (r: (Vec<i32>, usize))
    ensures
        r.0@ == seq![10i32, 10, 10],
        r.1 == 8,
{
    let mut vec = nums3_new();
    let a = vec![1, 2, 3, 4];
    let b = vec![10];
    let c = vec![-1, 13, -2];
    assert(a@ =~= seq![1i32, 2, 3, 4]);
    assert(b@ =~= seq![10i32]);
    assert(c@ =~= seq![-1i32, 13, -2i32]);
    let ghost held = seq![a@, b@, c@];
    assert(held =~= seq![seq![1i32, 2, 3, 4], seq![10i32], seq![-1i32, 13, -2i32]]);
    nums3_push(&mut vec, a);
    nums3_push(&mut vec, b);
    nums3_push(&mut vec, c);
    assert(nums3_items(vec) =~= held);
    proof {
        lemma_three_sums();
        assert(total_len(held.take(3)) == 8) by {
            reveal_with_fuel(total_len, 4);
            assert(held.take(3) =~= held);
            assert(held.drop_last() =~= seq![held[0], held[1]]);
            assert(held.drop_last().drop_last() =~= seq![held[0]]);
            assert(held.drop_last().drop_last().drop_last() =~= Seq::<Seq<i32>>::empty());
        }
    }
    assert(forall|k: int| 0 <= k < 3 ==> sum(#[trigger] held[k]) == 10 && held[k].len() <= 4);
    let mut sums: Vec<i32> = Vec::new();
    let items = nums3_as_slice(&vec);
    let n = items.len();
    let mut i: usize = 0;
    while i < n
        invariant
            n == items@.len(),
            n == 3,
            views_of(items@) == held,
            forall|k: int| 0 <= k < 3 ==> sum(#[trigger] held[k]) == 10 && held[k].len() <= 4,
            i <= n,
            sums@.len() == i,
            forall|k: int| 0 <= k < i ==> sums@[k] == 10,
        decreases n - i,
    {
        assert(views_of(items@)[i as int] == items@[i as int]@);
        let s = sum_of(items[i].as_slice());
        assert(s == 10);
        sums.push(s as i32);
        i = i + 1;
    }
    assert(sums@ =~= seq![10i32, 10, 10]);
    let mut iter = nums3_into_iter(vec);
    let mut sum_len: usize = 0;
    let mut taken: usize = 0;
    while taken < 3
        invariant
            taken <= 3,
            held.len() == 3,
            forall|k: int| 0 <= k < 3 ==> (#[trigger] held[k]).len() <= 4,
            nums_iter3_rest(iter) == held.skip(taken as int),
            sum_len == total_len(held.take(taken as int)),
            sum_len <= 4 * taken,
        decreases 3 - taken,
    {
        let next = nums_iter3_next(&mut iter);
        assert(held.skip(taken as int).drop_first() =~= held.skip(taken + 1));
        assert(held.take(taken + 1).drop_last() =~= held.take(taken as int));
        match next {
            Some(x) => {
                sum_len = sum_len + x.len();
            },
            None => {},
        }
        taken = taken + 1;
    }
    (sums, sum_len)
}

/// The total length of a sequence of sequences.
pub open spec fn total_len(s: Seq<Seq<i32>>) -> int
    decreases s.len(),
{
    if s.len() == 0 {
        0
    } else {
        total_len(s.drop_last()) + s.last().len()
    }
}

// ---------------------------------------------------------------------------
// vectors of number vectors, capacity 4, cloned into

/// An `arrayvec::ArrayVec<[Vec<i32>; 4]>`.
#[verifier::external_body]
pub struct NumsVec4 {
    inner: arrayvec::ArrayVec<[Vec<i32>; 4]>,
}

/// The items held by a `NumsVec4`, each by its view, front to back.
pub uninterp spec fn nums4_items(v: NumsVec4) -> Seq<Seq<i32>>;

/// Calls `ArrayVec::new`: the new vector holds nothing.
#[verifier::external_body]
fn nums4_new() -> (r: NumsVec4)
    ensures
        nums4_items(r) == Seq::<Seq<i32>>::empty(),
{
    NumsVec4 { inner: arrayvec::ArrayVec::new() }
}

/// Calls `ArrayVec::push`, which panics on a full vector: the item is appended.
#[verifier::external_body]
fn nums4_push(v: &mut NumsVec4, x: Vec<i32>)
    requires
        nums4_items(*old(v)).len() < 4,
    ensures
        nums4_items(*final(v)) == pushed(nums4_items(*old(v)), 4, x@),
{
    v.inner.push(x)
}

/// Calls `ArrayVec::as_slice`: the items held, front to back.
#[verifier::external_body]
fn nums4_as_slice(v: &NumsVec4) -> (r: &[Vec<i32>])
    ensures
        views_of(r@) == nums4_items(*v),
{
    v.inner.as_slice()
}

/// Calls `ArrayVec::clone_from`: afterwards `v` holds clones of the items
/// of `rhs`, whatever it held before.
#[verifier::external_body]
fn nums4_clone_from(v: &mut NumsVec4, rhs: &NumsVec4)
    ensures
        nums4_items(*final(v)) == nums4_items(*rhs),
{
    v.inner.clone_from(&rhs.inner)
}

/// Calls `ArrayVec::clear`: the vector holds nothing.
#[verifier::external_body]
fn nums4_clear(v: &mut NumsVec4)
    ensures
        nums4_items(*final(v)) == Seq::<Seq<i32>>::empty(),
{
    v.inner.clear()
}

/// Calls `ArrayVec`'s `PartialEq<[Vec<i32>]>`: whether the vector holds the
/// same items as the slice.
#[verifier::external_body]
fn nums4_eq_slice(v: &NumsVec4, s: &[Vec<i32>]) -> (r: bool)
    ensures
        r == (nums4_items(*v) == views_of(s@)),
{
    v.inner == *s
}

/// A copy of a slice of number vectors, item by item.
fn clone_all(s: &[Vec<i32>]) -> (r: Vec<Vec<i32>>)
    ensures
        views_of(r@) == views_of(s@),
{
    let mut r: Vec<Vec<i32>> = Vec::new();
    let n = s.len();
    let mut i: usize = 0;
    while i < n
        invariant
            n == s@.len(),
            i <= n,
            r@.len() == i,
            forall|k: int| 0 <= k < i ==> r@[k]@ == s@[k]@,
        decreases n - i,
    {
        let c = s[i].clone();
        assert(c@ =~= s@[i as int]@);
        r.push(c);
        i = i + 1;
    }
    assert(views_of(r@) =~= views_of(s@));
    r
}

/// Fills a vector of capacity four with three number vectors and copies
/// its items; then clones it into an empty vector, into a full vector
/// with other items, and into that vector again after clearing it.
/// Returns the copy and whether each target then equals it.
pub fn array_clone_from() -> (r: (Vec<Vec<i32>>, bool, bool, bool))
    ensures
        views_of(r.0@) == seq![seq![1i32, 2], seq![3i32, 4, 5], seq![6i32]],
        r.1,
        r.2,
        r.3,
{
    let mut v = nums4_new();
    let a = vec![1, 2];
    let b = vec![3, 4, 5];
    let c = vec![6];
    assert(a@ =~= seq![1i32, 2]);
    assert(b@ =~= seq![3i32, 4, 5]);
    assert(c@ =~= seq![6i32]);
    assert(seq![a@, b@, c@] =~= seq![seq![1i32, 2], seq![3i32, 4, 5], seq![6i32]]);
    nums4_push(&mut v, a);
    nums4_push(&mut v, b);
    nums4_push(&mut v, c);
    let reference = clone_all(nums4_as_slice(&v));
    assert(views_of(reference@) =~= seq![seq![1i32, 2], seq![3i32, 4, 5], seq![6i32]]);
    let mut u = nums4_new();
    nums4_clone_from(&mut u, &v);
    let first = nums4_eq_slice(&u, reference.as_slice());
    let mut t = nums4_new();
    nums4_push(&mut t, vec![97]);
    nums4_push(&mut t, vec![]);
    nums4_push(&mut t, vec![5, 6, 2]);
    nums4_push(&mut t, vec![2]);
    nums4_clone_from(&mut t, &v);
    let second = nums4_eq_slice(&t, reference.as_slice());
    nums4_clear(&mut t);
    nums4_clone_from(&mut t, &v);
    let third = nums4_eq_slice(&t, reference.as_slice());
    (reference, first, second, third)
}

// ---------------------------------------------------------------------------
// vectors of strings, capacity 4

/// An `arrayvec::ArrayVec<[String; 4]>`.
#[verifier::external_body]
#[derive(Debug)]
pub struct StringVec4 {
    inner: arrayvec::ArrayVec<[String; 4]>,
}

/// The items held by a `StringVec4`, each by its text, front to back.
pub uninterp spec fn strings4_items(v: StringVec4) -> Seq<Seq<char>>;

/// Calls `ArrayVec::new`: the new vector holds nothing.
#[verifier::external_body]
fn strings4_new() -> (r: StringVec4)
    ensures
        strings4_items(r) == Seq::<Seq<char>>::empty(),
{
    StringVec4 { inner: arrayvec::ArrayVec::new() }
}

/// Calls `ArrayVec::push`, which panics on a full vector: the item is appended.
#[verifier::external_body]
fn strings4_push(v: &mut StringVec4, x: String)
    requires
        strings4_items(*old(v)).len() < 4,
    ensures
        strings4_items(*final(v)) == pushed(strings4_items(*old(v)), 4, x@),
{
    v.inner.push(x)
}

/// Calls `ArrayVec::into_inner`: the array when the vector is full,
/// otherwise the vector itself back.
#[verifier::external_body]
fn strings4_into_inner(v: StringVec4) -> (r: Result<[String; 4], StringVec4>)
    ensures
        r is Ok <==> strings4_items(v).len() == 4,
        r matches Ok(a) ==> texts_of(a@) == strings4_items(v),
        r matches Err(w) ==> strings4_items(w) == strings4_items(v),
{
    v.inner.into_inner().map_err(|w| StringVec4 { inner: w })
}

/// Calls `ArrayVec::pop_at`: removes and returns the item at `index`, if
/// there is one, shifting the later items down.
#[verifier::external_body]
fn strings4_pop_at(v: &mut StringVec4, index: usize) -> (r: Option<String>)
    ensures
        r is Some <==> item_at(strings4_items(*old(v)), index as int) is Some,
        r matches Some(x) ==> Some(x@) == item_at(strings4_items(*old(v)), index as int),
        strings4_items(*final(v)) == popped_at(strings4_items(*old(v)), index as int),
{
    v.inner.pop_at(index)
}

/// Calls `ArrayVec::as_slice`: the items held, front to back.
#[verifier::external_body]
fn strings4_as_slice(v: &StringVec4) -> (r: &[String])
    ensures
        texts_of(r@) == strings4_items(*v),
{
    v.inner.as_slice()
}

/// A string holding the text of `s`.
fn owned(s: &str) -> (r: String)
    ensures
        r@ == s@,
{
    s.to_owned()
}

/// Fills a vector of capacity four with `"a"`, `"b"`, `"c"`, `"d"` and
/// takes the inner array out, which succeeds because the vector is full.
pub fn test_into_inner_2() -> (r: [String; 4])
    ensures
        texts_of(r@) == seq!["a"@, "b"@, "c"@, "d"@],
{
    let mut v = strings4_new();
    strings4_push(&mut v, owned("a"));
    strings4_push(&mut v, owned("b"));
    strings4_push(&mut v, owned("c"));
    strings4_push(&mut v, owned("d"));
    assert(strings4_items(v) =~= seq!["a"@, "b"@, "c"@, "d"@]);
    strings4_into_inner(v).unwrap()
}

/// Fills a vector of capacity four with `"a"`, `"b"`, `"c"`, `"d"` and
/// removes by position: 4 (past the end), 1, 1 again, and 2 (past the end
/// by then). Returns what each removal gave and the items left.
pub fn test_pop_at() -> (r: (Option<String>, Option<String>, Option<String>, Option<String>, Vec<String>))
    ensures
        r.0 is None,
        r.1 matches Some(x) && x@ == "b"@,
        r.2 matches Some(x) && x@ == "c"@,
        r.3 is None,
        texts_of(r.4@) == seq!["a"@, "d"@],
{
    let mut v = strings4_new();
    strings4_push(&mut v, owned("a"));
    strings4_push(&mut v, owned("b"));
    strings4_push(&mut v, owned("c"));
    strings4_push(&mut v, owned("d"));
    assert(strings4_items(v) =~= seq!["a"@, "b"@, "c"@, "d"@]);
    let p4 = strings4_pop_at(&mut v, 4);
    let p1 = strings4_pop_at(&mut v, 1);
    assert(strings4_items(v) =~= seq!["a"@, "c"@, "d"@]);
    let q1 = strings4_pop_at(&mut v, 1);
    assert(strings4_items(v) =~= seq!["a"@, "d"@]);
    let p2 = strings4_pop_at(&mut v, 2);
    let left = strings4_as_slice(&v);
    let mut rest: Vec<String> = Vec::new();
    let n = left.len();
    let mut i: usize = 0;
    while i < n
        invariant
            n == left@.len(),
            i <= n,
            rest@.len() == i,
            forall|k: int| 0 <= k < i ==> rest@[k]@ == left@[k]@,
        decreases n - i,
    {
        rest.push(left[i].clone());
        i = i + 1;
    }
    assert(texts_of(rest@) =~= texts_of(left@));
    (p4, p1, q1, p2, rest)
}

// ---------------------------------------------------------------------------
// vectors of string slices, capacity 8

/// An `arrayvec::ArrayVec<[&'static str; 8]>`.
#[verifier::external_body]
pub struct StrVec8 {
    inner: arrayvec::ArrayVec<[&'static str; 8]>,
}

/// The items held by a `StrVec8`, each by its text, front to back.
pub uninterp spec fn strs8_items(v: StrVec8) -> Seq<Seq<char>>;

/// Calls `ArrayVec::new`: the new vector holds nothing.
#[verifier::external_body]
fn strs8_new() -> (r: StrVec8)
    ensures
        strs8_items(r) == Seq::<Seq<char>>::empty(),
{
    StrVec8 { inner: arrayvec::ArrayVec::new() }
}

/// Calls `ArrayVec::try_insert`, which panics when `index` is past the
/// length: `Ok` and the item shifted in at `index` when there is room,
/// otherwise an error and the vector unchanged.
#[verifier::external_body]
fn strs8_try_insert(v: &mut StrVec8, index: usize, x: &'static str) -> (r: Result<
    (),
    arrayvec::CapacityError<&'static str>,
>)
    requires
        index <= strs8_items(*old(v)).len(),
    ensures
        r is Ok <==> strs8_items(*old(v)).len() < 8,
        strs8_items(*final(v)) == inserted(strs8_items(*old(v)), 8, index as int, x@),
{
    v.inner.try_insert(index, x)
}

/// Calls `ArrayVec::as_slice`: the items held, front to back.
#[verifier::external_body]
fn strs8_as_slice(v: &StrVec8) -> (r: &[&'static str])
    ensures
        r@.map_values(|e: &'static str| e@) == strs8_items(*v),
{
    v.inner.as_slice()
}

/// Inserts `"a"` at position 0 and `"b"` at position 1 (the length at that
/// point) into an empty vector of capacity eight. Returns whether both
/// insertions succeeded and the items.
pub fn test_insert_at_length() -> (r: (bool, Vec<&'static str>))
    ensures
        r.0,
        r.1@.map_values(|e: &'static str| e@) == seq!["a"@, "b"@],
{
    let mut v = strs8_new();
    let result1 = strs8_try_insert(&mut v, 0, "a");
    let result2 = strs8_try_insert(&mut v, 1, "b");
    assert(strs8_items(v) =~= seq!["a"@, "b"@]);
    let items = vstd::slice::slice_to_vec(strs8_as_slice(&v));
    (result1.is_ok() && result2.is_ok(), items)
}

// ---------------------------------------------------------------------------
// vectors of references, capacity 2

/// An `arrayvec::ArrayVec<[&'static i32; 2]>`.
#[verifier::external_body]
#[derive(Debug)]
pub struct RefVec2 {
    inner: arrayvec::ArrayVec<[&'static i32; 2]>,
}

/// The values referred to by the items of a `RefVec2`, front to back.
pub uninterp spec fn refs2_items(v: RefVec2) -> Seq<i32>;

/// Calls `ArrayVec::new`: the new vector holds nothing.
#[verifier::external_body]
fn refs2_new() -> (r: RefVec2)
    ensures
        refs2_items(r) == Seq::<i32>::empty(),
{
    RefVec2 { inner: arrayvec::ArrayVec::new() }
}

/// Calls `ArrayVec::len`: the number of items held.
#[verifier::external_body]
fn refs2_len(v: &RefVec2) -> (r: usize)
    ensures
        r == refs2_items(*v).len(),
{
    v.inner.len()
}

/// Wraps an empty vector of references in `Some`, which must still be told
/// apart from `None`. Returns the option and the length of what it holds.
pub fn test_still_works_with_option_arrayvec() -> (r: (Option<RefVec2>, usize))
    ensures
        r.0 matches Some(v) && refs2_items(v) == Seq::<i32>::empty(),
        r.1 == 0,
{
    let array = Some(refs2_new());
    let len = match &array {
        Some(v) => refs2_len(v),
        None => 0,
    };
    (array, len)
}

} // verus!
