//! The mathematical model of a fixed-capacity vector and a fixed-capacity
//! string: what each operation does to the contents, written over `Seq`,
//! together with the laws that hold between the operations.
use vstd::prelude::*;
use vstd::utf8::encode_utf8;

verus! {

/// Free slots left when `len` items occupy a vector of capacity `cap`.
pub open spec fn room(len: nat, cap: nat) -> nat {
    if len <= cap {
        (cap - len) as nat
    } else {
        0
    }
}

/// How many of `offered` items an extension takes: all of them when they
/// fit, otherwise exactly as many as there is room for.
pub open spec fn taken(len: nat, cap: nat, offered: nat) -> nat {
    if offered <= room(len, cap) {
        offered
    } else {
        room(len, cap)
    }
}

/// Contents after an attempt to push `x`: appended when there is room,
/// unchanged when the vector is full.
pub open spec fn pushed<T>(s: Seq<T>, cap: nat, x: T) -> Seq<T> {
    if s.len() < cap {
        s.push(x)
    } else {
        s
    }
}

/// Contents after extending with the items `items` yields: the prefix that
/// fits is appended, the rest is not taken.
pub open spec fn extended<T>(s: Seq<T>, cap: nat, items: Seq<T>) -> Seq<T> {
    s + items.take(taken(s.len(), cap, items.len()) as int)
}

/// Contents after removing the positions `start..end`.
pub open spec fn drained<T>(s: Seq<T>, start: int, end: int) -> Seq<T> {
    s.take(start) + s.skip(end)
}

/// Contents after an attempt to insert `x` at position `i` (with `i <= len`):
/// shifted in when there is room, unchanged when the vector is full.
pub open spec fn inserted<T>(s: Seq<T>, cap: nat, i: int, x: T) -> Seq<T> {
    if s.len() < cap {
        s.insert(i, x)
    } else {
        s
    }
}

/// Contents after removing the item at position `i`, if there is one.
pub open spec fn popped_at<T>(s: Seq<T>, i: int) -> Seq<T> {
    if 0 <= i < s.len() {
        s.remove(i)
    } else {
        s
    }
}

/// The item that removing position `i` hands back, if there is one.
pub open spec fn item_at<T>(s: Seq<T>, i: int) -> Option<T> {
    if 0 <= i < s.len() {
        Some(s[i])
    } else {
        None
    }
}

/// The last item, if there is one.
pub open spec fn last_item<T>(s: Seq<T>) -> Option<T> {
    if s.len() > 0 {
        Some(s.last())
    } else {
        None
    }
}

/// Contents after removing the last item, if there is one.
pub open spec fn popped<T>(s: Seq<T>) -> Seq<T> {
    if s.len() > 0 {
        s.drop_last()
    } else {
        s
    }
}

/// Contents after a retain pass: every item is first passed through
/// `update`, and the updated item stays exactly when `keep` holds of it;
/// the order of the kept items is preserved.
pub open spec fn retained<T>(s: Seq<T>, update: spec_fn(T) -> T, keep: spec_fn(T) -> bool) -> Seq<T> {
    s.map_values(update).filter(keep)
}

/// The values `start, start + 1, ..., start + n - 1`.
pub open spec fn counting_from(start: int, n: nat) -> Seq<i32> {
    Seq::new(n, |k: int| (start + k) as i32)
}

/// The byte length of a text: the length of its UTF-8 encoding.
pub open spec fn byte_len(s: Seq<char>) -> nat {
    encode_utf8(s).len()
}

/// Text after an attempt to append `t` to a string of byte capacity `cap`:
/// appended when its bytes fit, unchanged otherwise.
pub open spec fn text_pushed(s: Seq<char>, cap: nat, t: Seq<char>) -> Seq<char> {
    if byte_len(s) + byte_len(t) <= cap {
        s + t
    } else {
        s
    }
}

/// The UTF-8 encoding of a concatenation is the concatenation of the encodings.
pub proof fn lemma_encode_concat(a: Seq<char>, b: Seq<char>)
    ensures
        encode_utf8(a + b) == encode_utf8(a) + encode_utf8(b),
    decreases a.len(),
{
    if a.len() == 0 {
        assert(a + b =~= b);
        assert(encode_utf8(a) =~= Seq::<u8>::empty());
        assert(encode_utf8(a) + encode_utf8(b) =~= encode_utf8(b));
    } else {
        lemma_encode_concat(a.drop_first(), b);
        assert((a + b).drop_first() =~= a.drop_first() + b);
        assert((a + b)[0] == a[0]);
        let e = vstd::utf8::encode_scalar(a[0] as u32);
        assert(e + (encode_utf8(a.drop_first()) + encode_utf8(b)) =~= (e + encode_utf8(
            a.drop_first(),
        )) + encode_utf8(b));
    }
}

/// Appending one character adds the length of its encoding.
pub proof fn lemma_byte_len_push(s: Seq<char>, c: char)
    ensures
        byte_len(s.push(c)) == byte_len(s) + vstd::utf8::encode_scalar(c as u32).len(),
        byte_len(seq![c]) == vstd::utf8::encode_scalar(c as u32).len(),
        s + seq![c] == s.push(c),
{
    lemma_encode_concat(s, seq![c]);
    assert(s + seq![c] =~= s.push(c));
    assert(seq![c].drop_first() =~= Seq::<char>::empty());
    assert(encode_utf8(Seq::<char>::empty()) =~= Seq::<u8>::empty());
    assert(seq![c][0] == c);
    assert(encode_utf8(seq![c]) =~= vstd::utf8::encode_scalar(c as u32) + encode_utf8(
        Seq::<char>::empty(),
    ));
}

/// An ASCII text takes one byte per character.
pub proof fn lemma_ascii_byte_len(s: Seq<char>)
    requires
        vstd::utf8::is_ascii_chars(s),
    ensures
        byte_len(s) == s.len(),
{
    vstd::utf8::is_ascii_chars_encode_utf8(s);
}

/// Law: pushing into a vector with room uses up one free slot, and then
/// popping gives back the pushed item and the original contents; pushing
/// into a full vector changes nothing.
pub proof fn law_push_then_pop<T>(s: Seq<T>, cap: nat, x: T)
    ensures
        s.len() < cap ==> room(pushed(s, cap, x).len(), cap) + 1 == room(s.len(), cap),
        s.len() < cap ==> last_item(pushed(s, cap, x)) == Some(x) && popped(pushed(s, cap, x))
            == s,
        s.len() >= cap ==> pushed(s, cap, x) == s,
{
    if s.len() < cap {
        assert(s.push(x).drop_last() =~= s);
    }
}

/// Law: no operation takes a vector past its capacity, and the remaining
/// capacity is the capacity minus the length.
pub proof fn law_capacity_respected<T>(
    s: Seq<T>,
    cap: nat,
    x: T,
    items: Seq<T>,
    i: int,
    start: int,
    end: int,
    update: spec_fn(T) -> T,
    keep: spec_fn(T) -> bool,
)
    requires
        s.len() <= cap,
    ensures
        room(s.len(), cap) + s.len() == cap,
        pushed(s, cap, x).len() <= cap,
        extended(s, cap, items).len() <= cap,
        0 <= i <= s.len() ==> inserted(s, cap, i, x).len() <= cap,
        popped_at(s, i).len() <= s.len(),
        popped(s).len() <= s.len(),
        0 <= start <= end <= s.len() ==> drained(s, start, end).len() == s.len() - (end - start),
        retained(s, update, keep).len() <= s.len(),
{
    s.map_values(update).lemma_filter_len(keep);
}

/// Law: an extension appends a prefix of what it is offered, exactly as
/// many items as fit; the items it does not take are the rest of the
/// offer, and a full vector takes nothing.
pub proof fn law_extend_takes_what_fits<T>(s: Seq<T>, cap: nat, items: Seq<T>)
    requires
        s.len() <= cap,
    ensures
        extended(s, cap, items).len() == s.len() + taken(s.len(), cap, items.len()),
        extended(s, cap, items).subrange(0, s.len() as int) == s,
        extended(s, cap, items).skip(s.len() as int) + items.skip(
            taken(s.len(), cap, items.len()) as int,
        ) == items,
        taken(s.len(), cap, items.len()) == items.len() || extended(s, cap, items).len() == cap,
        s.len() == cap ==> extended(s, cap, items) == s,
{
    let k = taken(s.len(), cap, items.len()) as int;
    let e = extended(s, cap, items);
    assert(e.subrange(0, s.len() as int) =~= s);
    assert(e.skip(s.len() as int) =~= items.take(k));
    assert(items.take(k) + items.skip(k) =~= items);
    if s.len() == cap {
        assert(e =~= s);
    }
}

/// Law: draining a range hands out exactly that range, and what is left
/// together with what was handed out is the original contents.
pub proof fn law_drain_reassembles<T>(s: Seq<T>, start: int, end: int)
    requires
        0 <= start <= end <= s.len(),
    ensures
        drained(s, start, end).take(start) + s.subrange(start, end) + drained(s, start, end).skip(
            start,
        ) == s,
        drained(s, 0, s.len() as int) == Seq::<T>::empty(),
{
    let d = drained(s, start, end);
    assert(d.take(start) =~= s.take(start));
    assert(d.skip(start) =~= s.skip(end));
    assert(s.take(start) + s.subrange(start, end) + s.skip(end) =~= s);
    assert(drained(s, 0, s.len() as int) =~= Seq::<T>::empty());
}

/// Law: removing the item at the position where an item was just inserted
/// hands that item back and restores the contents; inserting at the
/// length is pushing.
pub proof fn law_insert_then_pop_at<T>(s: Seq<T>, cap: nat, i: int, x: T)
    requires
        s.len() < cap,
        0 <= i <= s.len(),
    ensures
        item_at(inserted(s, cap, i, x), i) == Some(x),
        popped_at(inserted(s, cap, i, x), i) == s,
        inserted(s, cap, s.len() as int, x) == pushed(s, cap, x),
{
    assert(s.insert(i, x).remove(i) =~= s);
    assert(s.insert(s.len() as int, x) =~= s.push(x));
}

/// Law: removing at a position past the end hands nothing back and
/// changes nothing; removing at a position inside hands back that item and
/// shifts the later items down by one.
pub proof fn law_pop_at<T>(s: Seq<T>, i: int)
    ensures
        !(0 <= i < s.len()) ==> item_at(s, i) is None && popped_at(s, i) == s,
        0 <= i < s.len() ==> item_at(s, i) == Some(s[i]) && popped_at(s, i).len() + 1 == s.len()
            && popped_at(s, i).take(i) == s.take(i) && popped_at(s, i).skip(i) == s.skip(i + 1),
{
    if 0 <= i < s.len() {
        assert(s.remove(i).take(i) =~= s.take(i));
        assert(s.remove(i).skip(i) =~= s.skip(i + 1));
    }
}

/// Law: a retain pass that keeps everything and changes nothing leaves the
/// contents as they are; one that keeps nothing empties the vector.
pub proof fn law_retain_extremes<T>(s: Seq<T>, update: spec_fn(T) -> T)
    ensures
        retained(s, |x: T| x, |x: T| true) == s,
        retained(s, update, |x: T| false) == Seq::<T>::empty(),
{
    let id = |x: T| x;
    let all = |x: T| true;
    let none = |x: T| false;
    assert(s.map_values(id) =~= s);
    broadcast use vstd::seq_lib::group_filter_ensures;

    s.lemma_filter_len(all);
    assert forall|k: int| 0 <= k < s.len() implies s.filter(all).contains(#[trigger] s[k]) by {
        s.lemma_filter_contains(all, k);
    }
    lemma_filter_all(s);
    let m = s.map_values(update);
    if m.filter(none).len() > 0 {
        assert(m.filter(none).contains(m.filter(none)[0]));
    }
    assert(m.filter(none) =~= Seq::<T>::empty());
}

proof fn lemma_filter_all<T>(s: Seq<T>)
    ensures
        s.filter(|x: T| true) == s,
    decreases s.len(),
{
    let all = |x: T| true;
    reveal(Seq::filter);
    if s.len() == 0 {
        assert(s.filter(all) =~= s);
    } else {
        lemma_filter_all(s.drop_last());
        assert(s.drop_last().push(s.last()) =~= s);
    }
}

/// Law: the text of a fixed-capacity string never holds more bytes than its
/// capacity, and a successful append adds exactly the bytes of what was
/// appended.
pub proof fn law_text_capacity_respected(s: Seq<char>, cap: nat, t: Seq<char>)
    requires
        byte_len(s) <= cap,
    ensures
        byte_len(text_pushed(s, cap, t)) <= cap,
        byte_len(s) + byte_len(t) <= cap ==> byte_len(text_pushed(s, cap, t)) == byte_len(s)
            + byte_len(t),
{
    lemma_encode_concat(s, t);
}

} // verus!
