//! Vectors of bytes: large capacities, the capacities that need the
//! optional array sizes, and writing bytes into a vector.
use vstd::prelude::*;
use crate::model::{extended, pushed, room, taken};
use std::io::Write;
use vstd::utf8::encode_utf8;

verus! {

/// A copy of the items of a slice, as a `Vec`.
fn to_vec(s: &[u8]) -> (r: Vec<u8>)
    ensures
        r@ == s@,
{
    vstd::slice::slice_to_vec(s)
}

// ---------------------------------------------------------------------------
// capacity 4096

/// An `arrayvec::ArrayVec<[u8; 4096]>`.
#[verifier::external_body]
pub struct U8Vec4096 {
    inner: arrayvec::ArrayVec<[u8; 4096]>,
}

/// The items held by a `U8Vec4096`, front to back.
pub uninterp spec fn u8vec4096_items(v: U8Vec4096) -> Seq<u8>;

/// Calls `ArrayVec::new`: the new vector holds nothing.
#[verifier::external_body]
fn u8vec4096_new() -> (r: U8Vec4096)
    ensures
        u8vec4096_items(r) == Seq::<u8>::empty(),
{
    U8Vec4096 { inner: arrayvec::ArrayVec::new() }
}

/// Calls `ArrayVec::try_push`: `Ok` and the item appended when there is
/// room, otherwise an error and the vector unchanged.
#[verifier::external_body]
fn u8vec4096_try_push(v: &mut U8Vec4096, x: u8) -> (r: Result<(), arrayvec::CapacityError<u8>>)
    ensures
        r is Ok <==> u8vec4096_items(*old(v)).len() < 4096,
        u8vec4096_items(*final(v)) == pushed(u8vec4096_items(*old(v)), 4096, x),
{
    v.inner.try_push(x)
}

/// Calls `ArrayVec::len`: the number of items held.
#[verifier::external_body]
fn u8vec4096_len(v: &U8Vec4096) -> (r: usize)
    ensures
        r == u8vec4096_items(*v).len(),
{
    v.inner.len()
}

/// Pushes into an empty vector of capacity 4096 (whose length needs more
/// than a byte to count) until it is full, then once more. Returns whether
/// every push up to the capacity succeeded, whether the extra push failed,
/// and the final length.
pub fn test_u16_index() -> (r: (bool, bool, usize))
    ensures
        r == (true, true, 4096usize),
{
    let n: usize = 4096;
    let mut vec = u8vec4096_new();
    let mut all_ok = true;
    let mut i: usize = 0;
    while i < n
        invariant
            n == 4096,
            i <= n,
            u8vec4096_items(vec).len() == i,
            all_ok,
        decreases n - i,
    {
        let pushed_one = u8vec4096_try_push(&mut vec, 1u8);
        all_ok = all_ok && pushed_one.is_ok();
        i = i + 1;
    }
    let extra = u8vec4096_try_push(&mut vec, 0);
    let rejected = extra.is_err();
    (all_ok, rejected, u8vec4096_len(&vec))
}

// ---------------------------------------------------------------------------
// capacity 1 << 16

/// An `arrayvec::ArrayVec<[u8; 65536]>`.
#[verifier::external_body]
pub struct U8Vec65536 {
    inner: arrayvec::ArrayVec<[u8; 65536]>,
}

/// The items held by a `U8Vec65536`, front to back.
pub uninterp spec fn u8vec65536_items(v: U8Vec65536) -> Seq<u8>;

/// Calls `ArrayVec::from` on an array: the vector holds the array's items.
#[verifier::external_body]
fn u8vec65536_from(a: [u8; 65536]) -> (r: U8Vec65536)
    ensures
        u8vec65536_items(r) == a@,
{
    U8Vec65536 { inner: arrayvec::ArrayVec::from(a) }
}

/// Calls `ArrayVec::len`: the number of items held.
#[verifier::external_body]
fn u8vec65536_len(v: &U8Vec65536) -> (r: usize)
    ensures
        r == u8vec65536_items(*v).len(),
{
    v.inner.len()
}

/// Calls `ArrayVec::as_slice`: the items held, front to back.
#[verifier::external_body]
fn u8vec65536_as_slice(v: &U8Vec65536) -> (r: &[u8])
    ensures
        r@ == u8vec65536_items(*v),
{
    v.inner.as_slice()
}

/// Builds a full vector from an array of `1 << 16` zero bytes. Returns its
/// length and its items.
pub fn test_sizes() -> (r: (usize, Vec<u8>))
    ensures
        r.0 == 65536,
        r.1@ == Seq::new(65536, |i: int| 0u8),
{
    let v = u8vec65536_from([0u8; 65536]);
    let items = to_vec(u8vec65536_as_slice(&v));
    assert(items@ =~= Seq::new(65536, |i: int| 0u8));
    (u8vec65536_len(&v), items)
}

// ---------------------------------------------------------------------------
// capacity 8, written into

/// `std::io::Error`: the error of a write that could not complete.
#[verifier::external_type_specification]
#[verifier::external_body]
pub struct ExIoError(std::io::Error);

/// An `arrayvec::ArrayVec<[u8; 8]>`.
#[verifier::external_body]
pub struct U8Vec8 {
    inner: arrayvec::ArrayVec<[u8; 8]>,
}

/// The items held by a `U8Vec8`, front to back.
pub uninterp spec fn u8vec8_items(v: U8Vec8) -> Seq<u8>;

/// Calls `ArrayVec::new`: the new vector holds nothing.
#[verifier::external_body]
fn u8vec8_new() -> (r: U8Vec8)
    ensures
        u8vec8_items(r) == Seq::<u8>::empty(),
{
    U8Vec8 { inner: arrayvec::ArrayVec::new() }
}

/// Calls `io::Write::write_fmt` (through `write!`) with the text `text`:
/// the text's UTF-8 bytes are written with `write_all`, which appends as
/// many as fit and fails when some are left over.
#[verifier::external_body]
fn u8vec8_write_text(v: &mut U8Vec8, text: &str) -> (r: Result<(), std::io::Error>)
    ensures
        r is Ok <==> encode_utf8(text@).len() <= room(u8vec8_items(*old(v)).len(), 8),
        u8vec8_items(*final(v)) == extended(u8vec8_items(*old(v)), 8, encode_utf8(text@)),
{
    write!(v.inner, "{}", text)
}

/// Calls `io::Write::write`: appends as many of the bytes as fit and
/// reports how many that was.
#[verifier::external_body]
fn u8vec8_write(v: &mut U8Vec8, data: &[u8]) -> (r: Result<usize, std::io::Error>)
    ensures
        r == Ok::<usize, std::io::Error>(
            taken(u8vec8_items(*old(v)).len(), 8, data@.len()) as usize,
        ),
        u8vec8_items(*final(v)) == extended(u8vec8_items(*old(v)), 8, data@),
{
    v.inner.write(data)
}

/// Calls `ArrayVec::as_slice`: the items held, front to back.
#[verifier::external_body]
fn u8vec8_as_slice(v: &U8Vec8) -> (r: &[u8])
    ensures
        r@ == u8vec8_items(*v),
{
    v.inner.as_slice()
}

/// Writes the three bytes `1, 2, 3` as text into an empty vector of
/// capacity eight, then writes sixteen bytes `9`, of which five fit.
/// Returns the items after the text, the count the second write reports,
/// and the final items.
pub fn test_write() -> (r: (Vec<u8>, usize, Vec<u8>))
    ensures
        r.0@ == seq![1u8, 2, 3],
        r.1 == 5,
        r.2@ == seq![1u8, 2, 3, 9, 9, 9, 9, 9],
{
    let mut v = u8vec8_new();
    let text = "\x01\x02\x03";
    proof {
        reveal_strlit("\x01\x02\x03");
        vstd::string::is_ascii_spec_bytes(text);
        assert(encode_utf8(text@) =~= seq![1u8, 2, 3]);
    }
    u8vec8_write_text(&mut v, text).unwrap();
    let first = to_vec(u8vec8_as_slice(&v));
    assert(first@ =~= seq![1u8, 2, 3]);
    let nines: [u8; 16] = [9; 16];
    let count = u8vec8_write(&mut v, &nines).unwrap();
    let last = to_vec(u8vec8_as_slice(&v));
    assert(last@ =~= seq![1u8, 2, 3, 9, 9, 9, 9, 9]);
    (first, count, last)
}

// ---------------------------------------------------------------------------
// capacities that need the optional array sizes

/// An `arrayvec::ArrayVec<[u8; 52]>`.
#[verifier::external_body]
pub struct U8Vec52 {
    inner: arrayvec::ArrayVec<[u8; 52]>,
}

/// The items held by a `U8Vec52`, front to back.
pub uninterp spec fn u8vec52_items(v: U8Vec52) -> Seq<u8>;

/// Calls `ArrayVec::from` on an array: the vector holds the array's items.
#[verifier::external_body]
fn u8vec52_from(a: [u8; 52]) -> (r: U8Vec52)
    ensures
        u8vec52_items(r) == a@,
{
    U8Vec52 { inner: arrayvec::ArrayVec::from(a) }
}

/// Calls `ArrayVec::len`: the number of items held.
#[verifier::external_body]
fn u8vec52_len(v: &U8Vec52) -> (r: usize)
    ensures
        r == u8vec52_items(*v).len(),
{
    v.inner.len()
}

/// An `arrayvec::ArrayVec<[u8; 127]>`.
#[verifier::external_body]
pub struct U8Vec127 {
    inner: arrayvec::ArrayVec<[u8; 127]>,
}

/// The items held by a `U8Vec127`, front to back.
pub uninterp spec fn u8vec127_items(v: U8Vec127) -> Seq<u8>;

/// Calls `ArrayVec::from` on an array: the vector holds the array's items.
#[verifier::external_body]
fn u8vec127_from(a: [u8; 127]) -> (r: U8Vec127)
    ensures
        u8vec127_items(r) == a@,
{
    U8Vec127 { inner: arrayvec::ArrayVec::from(a) }
}

/// Calls `ArrayVec::len`: the number of items held.
#[verifier::external_body]
fn u8vec127_len(v: &U8Vec127) -> (r: usize)
    ensures
        r == u8vec127_items(*v).len(),
{
    v.inner.len()
}

/// Builds full vectors from zeroed arrays of sizes between 33 and 128 that
/// only the optional array sizes provide. Returns their lengths.
pub fn test_sizes_33_128() -> (r: (usize, usize))
    ensures
        r == (52usize, 127usize),
{
    let a = u8vec52_from([0u8; 52]);
    let b = u8vec127_from([0u8; 127]);
    (u8vec52_len(&a), u8vec127_len(&b))
}

/// An `arrayvec::ArrayVec<[u8; 237]>`.
#[verifier::external_body]
pub struct U8Vec237 {
    inner: arrayvec::ArrayVec<[u8; 237]>,
}

/// The items held by a `U8Vec237`, front to back.
pub uninterp spec fn u8vec237_items(v: U8Vec237) -> Seq<u8>;

/// Calls `ArrayVec::from` on an array: the vector holds the array's items.
#[verifier::external_body]
fn u8vec237_from(a: [u8; 237]) -> (r: U8Vec237)
    ensures
        u8vec237_items(r) == a@,
{
    U8Vec237 { inner: arrayvec::ArrayVec::from(a) }
}

/// Calls `ArrayVec::len`: the number of items held.
#[verifier::external_body]
fn u8vec237_len(v: &U8Vec237) -> (r: usize)
    ensures
        r == u8vec237_items(*v).len(),
{
    v.inner.len()
}

/// An `arrayvec::ArrayVec<[u8; 255]>`.
#[verifier::external_body]
pub struct U8Vec255 {
    inner: arrayvec::ArrayVec<[u8; 255]>,
}

/// The items held by a `U8Vec255`, front to back.
pub uninterp spec fn u8vec255_items(v: U8Vec255) -> Seq<u8>;

/// Calls `ArrayVec::from` on an array: the vector holds the array's items.
#[verifier::external_body]
fn u8vec255_from(a: [u8; 255]) -> (r: U8Vec255)
    ensures
        u8vec255_items(r) == a@,
{
    U8Vec255 { inner: arrayvec::ArrayVec::from(a) }
}

/// Calls `ArrayVec::len`: the number of items held.
#[verifier::external_body]
fn u8vec255_len(v: &U8Vec255) -> (r: usize)
    ensures
        r == u8vec255_items(*v).len(),
{
    v.inner.len()
}

/// Builds full vectors from zeroed arrays of sizes between 129 and 255
/// that only the optional array sizes provide. Returns their lengths.
pub fn test_sizes_129_255() -> (r: (usize, usize))
    ensures
        r == (237usize, 255usize),
{
    let a = u8vec237_from([0u8; 237]);
    let b = u8vec255_from([0u8; 255]);
    (u8vec237_len(&a), u8vec255_len(&b))
}

} // verus!
