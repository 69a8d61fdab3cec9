//! Fixed-capacity strings: appending text and characters up to a byte
//! capacity, building from text and bytes, comparing and cloning.
use vstd::prelude::*;
use crate::model::{byte_len, lemma_ascii_byte_len, lemma_byte_len_push, text_pushed};
use vstd::utf8::{decode_utf8, encode_scalar, encode_utf8, valid_utf8};

verus! {

/// `std::str::Utf8Error`: the error of decoding bytes that are not UTF-8.
#[verifier::external_type_specification]
#[verifier::external_body]
pub struct ExUtf8Error(std::str::Utf8Error);

// ---------------------------------------------------------------------------
// capacity 16 and 2

/// An `arrayvec::ArrayString<[u8; 16]>`.
#[verifier::external_body]
pub struct Str16 {
    inner: arrayvec::ArrayString<[u8; 16]>,
}

/// The text held by a `Str16`.
pub uninterp spec fn str16_text(s: Str16) -> Seq<char>;

/// Calls `ArrayString::new`: the new string is empty.
#[verifier::external_body]
fn str16_new() -> (r: Str16)
    ensures
        str16_text(r) == Seq::<char>::empty(),
{
    Str16 { inner: arrayvec::ArrayString::new() }
}

/// Calls `ArrayString::try_push_str`: `Ok` and the text appended when its
/// bytes fit, otherwise an error and the string unchanged.
#[verifier::external_body]
fn str16_try_push_str<'a>(s: &mut Str16, t: &'a str) -> (r: Result<
    (),
    arrayvec::CapacityError<&'a str>,
>)
    ensures
        r is Ok <==> byte_len(str16_text(*old(s))) + byte_len(t@) <= 16,
        str16_text(*final(s)) == text_pushed(str16_text(*old(s)), 16, t@),
{
    s.inner.try_push_str(t)
}

/// Calls `ArrayString`'s `PartialEq<str>`: whether the string holds `t`.
#[verifier::external_body]
fn str16_eq_str(s: &Str16, t: &str) -> (r: bool)
    ensures
        r == (str16_text(*s) == t@),
{
    s.inner == *t
}

/// Calls `str`'s `PartialEq<ArrayString>`: whether `t` is the string's text.
#[verifier::external_body]
fn str_eq_str16(t: &str, s: &Str16) -> (r: bool)
    ensures
        r == (t@ == str16_text(*s)),
{
    *t == s.inner
}

/// An `arrayvec::ArrayString<[u8; 2]>`.
#[verifier::external_body]
pub struct Str2 {
    inner: arrayvec::ArrayString<[u8; 2]>,
}

/// The text held by a `Str2`.
pub uninterp spec fn str2_text(s: Str2) -> Seq<char>;

/// Calls `ArrayString::new`: the new string is empty.
#[verifier::external_body]
fn str2_new() -> (r: Str2)
    ensures
        str2_text(r) == Seq::<char>::empty(),
{
    Str2 { inner: arrayvec::ArrayString::new() }
}

/// Calls `ArrayString::try_push_str`: `Ok` and the text appended when its
/// bytes fit, otherwise an error and the string unchanged.
#[verifier::external_body]
fn str2_try_push_str<'a>(s: &mut Str2, t: &'a str) -> (r: Result<
    (),
    arrayvec::CapacityError<&'a str>,
>)
    ensures
        r is Ok <==> byte_len(str2_text(*old(s))) + byte_len(t@) <= 2,
        str2_text(*final(s)) == text_pushed(str2_text(*old(s)), 2, t@),
{
    s.inner.try_push_str(t)
}

/// Calls `ArrayString::push_str`, which panics when the bytes do not fit:
/// the text is appended.
#[verifier::external_body]
fn str2_push_str(s: &mut Str2, t: &str)
    requires
        byte_len(str2_text(*old(s))) + byte_len(t@) <= 2,
    ensures
        str2_text(*final(s)) == str2_text(*old(s)) + t@,
{
    s.inner.push_str(t)
}

/// Calls `ArrayString`'s `PartialEq<str>`: whether the string holds `t`.
#[verifier::external_body]
fn str2_eq_str(s: &Str2, t: &str) -> (r: bool)
    ensures
        r == (str2_text(*s) == t@),
{
    s.inner == *t
}

/// Calls `ArrayString`'s `DerefMut` and copies the `&mut str` it gives:
/// the text held, which the borrow leaves unchanged.
#[verifier::external_body]
fn str2_deref_mut_text(s: &mut Str2) -> (r: String)
    ensures
        r@ == str2_text(*old(s)),
        str2_text(*final(s)) == str2_text(*old(s)),
{
    let text: &mut str = &mut s.inner;
    text.to_owned()
}

/// Appends `"hello world"` to a string of capacity sixteen and compares
/// both ways; tries to append it to a string of capacity two, which fails
/// and leaves it empty; appends `"ab"` there and reads it through a
/// mutable borrow; then fails the same append inside a fallible block.
/// Returns the two comparisons, whether the failing append failed, whether
/// the small string was still empty, the text read through the borrow and
/// whether the fallible block failed.
pub fn test_string() -> (r: (bool, bool, bool, bool, String, bool))
    ensures
        r.0,
        r.1,
        r.2,
        r.3,
        r.4@ == "ab"@,
        r.5,
{
    let text = "hello world";
    proof {
        reveal_strlit("hello world");
        lemma_ascii_byte_len(text@);
        reveal_strlit("ab");
        lemma_ascii_byte_len("ab"@);
    }
    let mut s = str16_new();
    str16_try_push_str(&mut s, text).unwrap();
    assert(str16_text(s) =~= text@);
    let same = str16_eq_str(&s, text);
    let same_back = str_eq_str16(text, &s);
    let mut t = str2_new();
    let overflow = str2_try_push_str(&mut t, text).is_err();
    let empty = "";
    proof {
        reveal_strlit("");
    }
    assert(str2_text(t) =~= empty@);
    let still_empty = str2_eq_str(&t, empty);
    str2_push_str(&mut t, "ab");
    assert(str2_text(t) =~= "ab"@);
    let through_borrow = str2_deref_mut_text(&mut t);
    let fallible: Result<(), arrayvec::CapacityError<&str>> = {
        let mut t = str2_new();
        match str2_try_push_str(&mut t, text) {
            Ok(()) => Ok(()),
            Err(e) => Err(e),
        }
    };
    (same, same_back, overflow, still_empty, through_borrow, fallible.is_err())
}

// ---------------------------------------------------------------------------
// capacity 11, built whole

/// An `arrayvec::ArrayString<[u8; 11]>`.
#[verifier::external_body]
pub struct Str11 {
    inner: arrayvec::ArrayString<[u8; 11]>,
}

/// The text held by a `Str11`.
pub uninterp spec fn str11_text(s: Str11) -> Seq<char>;

/// Calls `ArrayString::from`: a string holding `t` when its bytes fit,
/// otherwise an error.
#[verifier::external_body]
fn str11_from<'a>(t: &'a str) -> (r: Result<Str11, arrayvec::CapacityError<&'a str>>)
    ensures
        r is Ok <==> byte_len(t@) <= 11,
        r matches Ok(s) ==> str11_text(s) == t@,
{
    arrayvec::ArrayString::from(t).map(|s| Str11 { inner: s })
}

/// Calls `str::parse`, that is `ArrayString`'s `FromStr`: a string holding
/// `t` when its bytes fit, otherwise an error.
#[verifier::external_body]
fn str11_parse(t: &str) -> (r: Result<Str11, arrayvec::CapacityError>)
    ensures
        r is Ok <==> byte_len(t@) <= 11,
        r matches Ok(s) ==> str11_text(s) == t@,
{
    t.parse::<arrayvec::ArrayString<[u8; 11]>>().map(|s| Str11 { inner: s })
}

/// Calls `ArrayString::from_byte_string`: a full string holding the text
/// the bytes encode when they are UTF-8, otherwise an error.
#[verifier::external_body]
fn str11_from_byte_string(b: &[u8; 11]) -> (r: Result<Str11, std::str::Utf8Error>)
    ensures
        r is Ok <==> valid_utf8(b@),
        r matches Ok(s) ==> str11_text(s) == decode_utf8(b@),
{
    arrayvec::ArrayString::from_byte_string(b).map(|s| Str11 { inner: s })
}

/// Calls `ArrayString`'s `PartialEq<str>`: whether the string holds `t`.
#[verifier::external_body]
fn str11_eq_str(s: &Str11, t: &str) -> (r: bool)
    ensures
        r == (str11_text(*s) == t@),
{
    s.inner == *t
}

/// Calls `ArrayString::len`: the byte length of the text held.
#[verifier::external_body]
fn str11_len(s: &Str11) -> (r: usize)
    ensures
        r == byte_len(str11_text(*s)),
{
    s.inner.len()
}

/// Builds a string of capacity eleven from `"hello world"`. Returns whether
/// it holds that text, its byte length and the text's byte length.
pub fn test_string_from() -> (r: (bool, usize, usize))
    ensures
        r == (true, 11usize, 11usize),
{
    let text = "hello world";
    proof {
        reveal_strlit("hello world");
        lemma_ascii_byte_len(text@);
    }
    let u = str11_from(text).unwrap();
    (str11_eq_str(&u, text), str11_len(&u), text.len())
}

/// Parses `"hello world"` into a string of capacity eleven. Returns whether
/// it holds that text, its byte length and the text's byte length.
pub fn test_string_parse_from_str() -> (r: (bool, usize, usize))
    ensures
        r == (true, 11usize, 11usize),
{
    let text = "hello world";
    proof {
        reveal_strlit("hello world");
        lemma_ascii_byte_len(text@);
    }
    let u = str11_parse(text).unwrap();
    (str11_eq_str(&u, text), str11_len(&u), text.len())
}

/// Builds a string of capacity eleven from the eleven bytes of
/// `"hello world"`. Returns whether it holds that text, its byte length and
/// the text's byte length.
pub fn test_string_from_bytes() -> (r: (bool, usize, usize))
    ensures
        r == (true, 11usize, 11usize),
{
    let text = "hello world";
    let bytes: [u8; 11] = [104, 101, 108, 108, 111, 32, 119, 111, 114, 108, 100];
    proof {
        reveal_strlit("hello world");
        lemma_ascii_byte_len(text@);
        vstd::utf8::is_ascii_chars_encode_utf8(text@);
        assert(bytes@ =~= encode_utf8(text@));
        vstd::utf8::encode_utf8_valid_utf8(text@);
        vstd::utf8::encode_utf8_decode_utf8(text@);
    }
    let u = str11_from_byte_string(&bytes).unwrap();
    (str11_eq_str(&u, text), str11_len(&u), text.len())
}

// ---------------------------------------------------------------------------
// capacity 4, cloned into

/// An `arrayvec::ArrayString<[u8; 4]>`.
#[verifier::external_body]
pub struct Str4 {
    inner: arrayvec::ArrayString<[u8; 4]>,
}

/// The text held by a `Str4`.
pub uninterp spec fn str4_text(s: Str4) -> Seq<char>;

/// Calls `ArrayString::new`: the new string is empty.
#[verifier::external_body]
fn str4_new() -> (r: Str4)
    ensures
        str4_text(r) == Seq::<char>::empty(),
{
    Str4 { inner: arrayvec::ArrayString::new() }
}

/// Calls `ArrayString::push_str`, which panics when the bytes do not fit:
/// the text is appended.
#[verifier::external_body]
fn str4_push_str(s: &mut Str4, t: &str)
    requires
        byte_len(str4_text(*old(s))) + byte_len(t@) <= 4,
    ensures
        str4_text(*final(s)) == str4_text(*old(s)) + t@,
{
    s.inner.push_str(t)
}

/// Calls `ArrayString::from`: a string holding `t` when its bytes fit,
/// otherwise an error.
#[verifier::external_body]
fn str4_from<'a>(t: &'a str) -> (r: Result<Str4, arrayvec::CapacityError<&'a str>>)
    ensures
        r is Ok <==> byte_len(t@) <= 4,
        r matches Ok(s) ==> str4_text(s) == t@,
{
    arrayvec::ArrayString::from(t).map(|s| Str4 { inner: s })
}

/// Calls `ArrayString::clone_from`: afterwards `s` holds the text of `rhs`.
#[verifier::external_body]
fn str4_clone_from(s: &mut Str4, rhs: &Str4)
    ensures
        str4_text(*final(s)) == str4_text(*rhs),
{
    s.inner.clone_from(&rhs.inner)
}

/// Calls `ArrayString`'s `PartialEq`: whether the two strings hold the
/// same text.
#[verifier::external_body]
fn str4_eq(a: &Str4, b: &Str4) -> (r: bool)
    ensures
        r == (str4_text(*a) == str4_text(*b)),
{
    a.inner == b.inner
}

/// Calls `ArrayString::as_str`: the text held.
#[verifier::external_body]
fn str4_as_str(s: &Str4) -> (r: &str)
    ensures
        r@ == str4_text(*s),
{
    s.inner.as_str()
}

/// Fills a string of capacity four with `"abcd"`, then clones into it a
/// string built from `"hi"`. Returns whether the two are then equal and
/// the text of the one cloned into.
pub fn test_string_clone() -> (r: (bool, String))
    ensures
        r.0,
        r.1@ == "hi"@,
{
    let text = "hi";
    proof {
        reveal_strlit("hi");
        lemma_ascii_byte_len(text@);
        reveal_strlit("abcd");
        lemma_ascii_byte_len("abcd"@);
    }
    let mut s = str4_new();
    str4_push_str(&mut s, "abcd");
    let t = str4_from(text).unwrap();
    str4_clone_from(&mut s, &t);
    (str4_eq(&t, &s), str4_as_str(&s).to_owned())
}

// ---------------------------------------------------------------------------
// capacity 8, filled by characters

/// An `arrayvec::ArrayString<[u8; 8]>`.
#[verifier::external_body]
pub struct Str8 {
    inner: arrayvec::ArrayString<[u8; 8]>,
}

/// The text held by a `Str8`.
pub uninterp spec fn str8_text(s: Str8) -> Seq<char>;

/// Calls `ArrayString::new`: the new string is empty.
#[verifier::external_body]
fn str8_new() -> (r: Str8)
    ensures
        str8_text(r) == Seq::<char>::empty(),
{
    Str8 { inner: arrayvec::ArrayString::new() }
}

/// Calls `ArrayString::try_push`: `Ok` and the character appended when its
/// encoding fits, otherwise an error and the string unchanged.
#[verifier::external_body]
fn str8_try_push(s: &mut Str8, c: char) -> (r: Result<(), arrayvec::CapacityError<char>>)
    ensures
        r is Ok <==> byte_len(str8_text(*old(s))) + encode_scalar(c as u32).len() <= 8,
        str8_text(*final(s)) == text_pushed(str8_text(*old(s)), 8, seq![c]),
{
    s.inner.try_push(c)
}

/// Calls `ArrayString::push`, which panics when the encoding does not fit:
/// the character is appended.
#[verifier::external_body]
fn str8_push(s: &mut Str8, c: char)
    requires
        byte_len(str8_text(*old(s))) + encode_scalar(c as u32).len() <= 8,
    ensures
        str8_text(*final(s)) == str8_text(*old(s)).push(c),
{
    s.inner.push(c)
}

/// Calls `ArrayString::as_str`: the text held.
#[verifier::external_body]
fn str8_as_str(s: &Str8) -> (r: &str)
    ensures
        r@ == str8_text(*s),
{
    s.inner.as_str()
}

/// Calls `str::chars` and collects the characters: the text's characters,
/// front to back.
#[verifier::external_body]
fn chars_of(t: &str) -> (r: Vec<char>)
    ensures
        r@ == t@,
{
    t.chars().collect()
}

/// The byte width of the character at position `k` of `"abcαβγ"`.
spec fn width_at(k: int) -> int {
    if k < 3 {
        1
    } else {
        2
    }
}

/// The byte length of the first `k` characters of `"abcαβγ"`.
spec fn fill_at(k: int) -> int {
    if k <= 3 {
        k
    } else {
        3 + 2 * (k - 3)
    }
}

/// Appends the characters of `"abcαβγ"` to a string of capacity eight, one
/// at a time, until one does not fit; then pushes `'x'`, which fits, and
/// tries `'x'` again, which does not. Returns the text after the loop,
/// the text after the push, and whether the last attempt failed.
pub fn test_string_push() -> (r: (String, String, bool))
    ensures
        r.0@ == "abc\u{3b1}\u{3b2}"@,
        r.1@ == "abc\u{3b1}\u{3b2}x"@,
        r.2,
{
    let text = "abc\u{3b1}\u{3b2}\u{3b3}";
    proof {
        reveal_strlit("abc\u{3b1}\u{3b2}\u{3b3}");
        reveal_strlit("abc\u{3b1}\u{3b2}");
        reveal_strlit("abc\u{3b1}\u{3b2}x");
    }
    let cs = chars_of(text);
    assert forall|k: int| 0 <= k < 6 implies encode_scalar(#[trigger] cs@[k] as u32).len()
        == width_at(k) by {
        vstd::utf8::char_is_scalar(cs@[k]);
    }
    let mut s = str8_new();
    let mut i: usize = 0;
    let mut stopped = false;
    while i < cs.len() && !stopped
        invariant
            cs@ == text@,
            cs@.len() == 6,
            forall|k: int| 0 <= k < 6 ==> encode_scalar(#[trigger] cs@[k] as u32).len()
                == width_at(k),
            !stopped ==> i <= 5 && str8_text(s) == cs@.take(i as int) && byte_len(str8_text(s))
                == fill_at(i as int),
            stopped ==> i == 5 && str8_text(s) == cs@.take(5) && byte_len(str8_text(s)) == 7,
        decreases 13 - 2 * i - (if stopped { 1int } else { 0int }),
    {
        proof {
            lemma_byte_len_push(str8_text(s), cs@[i as int]);
            assert(cs@.take(i as int).push(cs@[i as int]) =~= cs@.take(i + 1));
        }
        if str8_try_push(&mut s, cs[i]).is_err() {
            stopped = true;
        } else {
            i = i + 1;
        }
    }
    assert(cs@.take(5) =~= "abc\u{3b1}\u{3b2}"@);
    let after_loop = str8_as_str(&s).to_owned();
    proof {
        lemma_byte_len_push(str8_text(s), 'x');
        assert(encode_scalar('x' as u32).len() == 1);
    }
    str8_push(&mut s, 'x');
    assert(str8_text(s) =~= "abc\u{3b1}\u{3b2}x"@);
    let after_push = str8_as_str(&s).to_owned();
    proof {
        lemma_byte_len_push(str8_text(s), 'x');
    }
    let last = str8_try_push(&mut s, 'x').is_err();
    (after_loop, after_push, last)
}

} // verus!
