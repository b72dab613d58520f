//! The few operations on text that the keypad needs.

use vstd::prelude::*;
use vstd::std_specs::iter::IteratorSpec;
use vstd::string::StrSliceExecFns;
use vstd::utf8::{decode_utf8, encode_utf8, is_char_boundary, valid_utf8};

verus! {

/// Whether `c` is white space, as Unicode defines it.
pub uninterp spec fn is_whitespace(c: char) -> bool;

/// Whether `c` is white space.
///
/// Trusted: `char::is_whitespace`, which tells whether the character has the
/// Unicode property `White_Space`; that depends on the character alone.
#[verifier::external_body]
pub(crate) fn whitespace(c: char) -> (r: bool)
    ensures
        r == is_whitespace(c),
{
    c.is_whitespace()
}

/// Whether two strings hold the same characters.
///
/// Trusted: `str`'s `==`, which compares the two strings character by
/// character.
#[verifier::external_body]
pub(crate) fn same_text(a: &str, b: &str) -> (r: bool)
    ensures
        r == (a@ == b@),
{
    a == b
}

/// Appends one character to `text`.
///
/// Trusted: `String::push`, which adds the character at the end and leaves
/// what was there in place.
#[verifier::external_body]
pub(crate) fn push_char(text: &mut String, c: char)
    ensures
        final(text)@ == old(text)@.push(c),
{
    text.push(c)
}

/// How many characters of `s` are left once the white space at its end is
/// taken off.
pub open spec fn trimmed_len(s: Seq<char>) -> nat
    decreases s.len(),
{
    if s.len() == 0 {
        0
    } else if is_whitespace(s.last()) {
        trimmed_len(s.drop_last())
    } else {
        s.len()
    }
}

/// `s` without the white space at its end.
pub open spec fn trimmed(s: Seq<char>) -> Seq<char> {
    s.take(trimmed_len(s) as int)
}

/// The white space at the end of `s`.
pub open spec fn trailing_space(s: Seq<char>) -> Seq<char> {
    s.skip(trimmed_len(s) as int)
}

/// Trimming takes off white space only, all of it, and nothing else.
pub proof fn lemma_trimmed(s: Seq<char>)
    ensures
        trimmed_len(s) <= s.len(),
        trimmed(s) + trailing_space(s) == s,
        forall|i: int| 0 <= i < trailing_space(s).len() ==> is_whitespace(trailing_space(s)[i]),
        trimmed(s).len() > 0 ==> !is_whitespace(trimmed(s).last()),
    decreases s.len(),
{
    if s.len() > 0 && is_whitespace(s.last()) {
        lemma_trimmed(s.drop_last());
        let rest = s.drop_last();
        assert(trimmed(s) =~= trimmed(rest));
        assert(trailing_space(s) =~= trailing_space(rest).push(s.last()));
    }
    assert(trimmed(s) + trailing_space(s) =~= s);
}

/// Splits `s` where the white space at its end begins.
pub fn split_trailing_space(s: &str) -> (r: (&str, &str))
    ensures
        r.0@ == trimmed(s@),
        r.1@ == trailing_space(s@),
{
    let total = s.unicode_len();
    let mut seen: usize = 0;
    let mut kept: usize = 0;
    for c in it: s.chars()
        invariant
            it.seq() == s@,
            seen == it.index(),
            seen <= total,
            total == s@.len(),
            kept == trimmed_len(s@.take(seen as int)),
            kept <= seen,
    {
        proof {
            let upto = s@.take(seen + 1);
            assert(upto.drop_last() =~= s@.take(seen as int));
            assert(upto.last() == c);
        }
        seen += 1;
        if !whitespace(c) {
            kept = seen;
        }
    }
    proof {
        assert(s@.take(seen as int) =~= s@);
        assert(s@.subrange(0, kept as int) =~= trimmed(s@));
        assert(s@.subrange(kept as int, total as int) =~= trailing_space(s@));
    }
    (s.substring_char(0, kept), s.substring_char(kept, total))
}

/// Whether the bytes of `text` from `from` up to `to` hold whole characters.
pub open spec fn cuts_cleanly(text: Seq<char>, from: int, to: int) -> bool {
    let bytes = encode_utf8(text);
    &&& 0 <= from <= to <= bytes.len()
    &&& is_char_boundary(bytes, from)
    &&& is_char_boundary(bytes, to)
}

/// The characters that the bytes of `text` from `from` up to `to` hold.
pub open spec fn piece(text: Seq<char>, from: int, to: int) -> Seq<char> {
    decode_utf8(encode_utf8(text).subrange(from, to))
}

/// Whether the bytes of `text` from `from` up to `to` hold whole characters.
pub fn can_cut(text: &str, from: usize, to: usize) -> (r: bool)
    ensures
        r == cuts_cleanly(text@, from as int, to as int),
{
    proof {
        vstd::utf8::encode_utf8_valid_utf8(text@);
    }
    if from > to {
        return false;
    }
    if !text.is_char_boundary(to) {
        return false;
    }
    proof {
        // A boundary lies within the text.
        if to > encode_utf8(text@).len() {
            assert(!is_char_boundary(encode_utf8(text@), to as int)) by {
                lemma_boundary_in_range(encode_utf8(text@), to as int);
            }
        }
    }
    text.is_char_boundary(from)
}

/// A character boundary lies within the bytes or at their end.
proof fn lemma_boundary_in_range(bytes: Seq<u8>, index: int)
    requires
        valid_utf8(bytes),
        is_char_boundary(bytes, index),
    ensures
        0 <= index <= bytes.len(),
{
    reveal_with_fuel(is_char_boundary, 2);
}

/// A boundary of the whole is a boundary of every prefix that holds it and
/// ends on a boundary itself.
proof fn lemma_boundary_of_prefix(bytes: Seq<u8>, from: int, to: int)
    requires
        valid_utf8(bytes),
        0 <= from <= to <= bytes.len(),
        is_char_boundary(bytes, from),
        is_char_boundary(bytes, to),
    ensures
        valid_utf8(bytes.subrange(0, to)),
        is_char_boundary(bytes.subrange(0, to), from),
{
    vstd::utf8::valid_utf8_split(bytes, to);
    let prefix = bytes.subrange(0, to);
    if from == to {
        vstd::utf8::is_char_boundary_start_end_of_seq(prefix);
    } else {
        vstd::utf8::is_char_boundary_iff_not_is_continuation_byte(bytes, from);
        vstd::utf8::is_char_boundary_iff_not_is_continuation_byte(prefix, from);
        assert(prefix[from] == bytes[from]);
    }
}

/// The part of `text` that its bytes from `from` up to `to` hold.
pub fn cut(text: &str, from: usize, to: usize) -> (r: &str)
    requires
        cuts_cleanly(text@, from as int, to as int),
    ensures
        r@ == piece(text@, from as int, to as int),
{
    proof {
        vstd::utf8::encode_utf8_valid_utf8(text@);
        lemma_boundary_of_prefix(encode_utf8(text@), from as int, to as int);
    }
    let (upto, _) = text.split_at(to);
    let (_, part) = upto.split_at(from);
    proof {
        let bytes = encode_utf8(text@);
        assert(encode_utf8(part@) =~= bytes.subrange(from as int, to as int));
        vstd::utf8::encode_utf8_decode_utf8(part@);
    }
    part
}

} // verus!
