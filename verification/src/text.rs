//! Byte-addressed operations on UTF-8 text.
//!
//! Positions in this crate are byte offsets, as they are in `str`. A string
//! is viewed as its character sequence `s@`; its byte sequence is
//! `encode_utf8(s@)`, which for a `&str` is `s.spec_bytes()`.

use vstd::prelude::*;
use vstd::string::*;
use vstd::utf8::*;

verus! {

/// Number of bytes that the UTF-8 encoding of `s` takes.
pub open spec fn byte_len(s: Seq<char>) -> nat {
    encode_utf8(s).len()
}

/// `needle` occurs in `hay` starting at byte `at`.
pub open spec fn occurs_at(hay: Seq<u8>, needle: Seq<u8>, at: int) -> bool {
    &&& 0 <= at
    &&& at + needle.len() <= hay.len()
    &&& hay.subrange(at, at + needle.len()) == needle
}

/// The first byte offset at or after `from` at which `needle` occurs in
/// `hay`, if there is one.
pub open spec fn first_occurrence(hay: Seq<u8>, needle: Seq<u8>, from: int) -> Option<int>
    decreases hay.len() + 1 - from,
{
    if from < 0 || from + needle.len() > hay.len() {
        None
    } else if occurs_at(hay, needle, from) {
        Some(from)
    } else {
        first_occurrence(hay, needle, from + 1)
    }
}

/// The byte range `from..to` can be cut out of text with bytes `bytes`.
pub open spec fn cuttable(bytes: Seq<u8>, from: int, to: int) -> bool {
    &&& 0 <= from <= to <= bytes.len()
    &&& is_char_boundary(bytes, from)
    &&& is_char_boundary(bytes, to)
}

/// Encoding distributes over concatenation.
pub proof fn lemma_encode_concat(a: Seq<char>, b: Seq<char>)
    ensures
        encode_utf8(a + b) == encode_utf8(a) + encode_utf8(b),
    decreases a.len(),
{
    if a.len() == 0 {
        assert(a + b =~= b);
        assert(encode_utf8(a) + encode_utf8(b) =~= encode_utf8(b));
    } else {
        lemma_encode_concat(a.drop_first(), b);
        assert((a + b).drop_first() =~= a.drop_first() + b);
        assert((a + b)[0] == a[0]);
        assert(encode_utf8(a + b) =~= encode_utf8(a) + encode_utf8(b));
    }
}

/// Two texts with the same bytes are the same text.
pub proof fn lemma_bytes_injective(a: Seq<char>, b: Seq<char>)
    requires
        encode_utf8(a) == encode_utf8(b),
    ensures
        a == b,
{
    encode_utf8_decode_utf8(a);
    encode_utf8_decode_utf8(b);
}

/// The length of `s` in bytes.
pub fn text_len(s: &str) -> (n: usize)
    ensures
        n == byte_len(s@),
{
    s.as_bytes().len()
}

/// Cuts `s` in two at byte offset `mid`, when `mid` lies on a character
/// boundary within `s`.
pub fn split_text<'a>(s: &'a str, mid: usize) -> (r: Option<(&'a str, &'a str)>)
    ensures
        r is Some <==> (mid <= byte_len(s@) && is_char_boundary(encode_utf8(s@), mid as int)),
        r matches Some((head, tail)) ==> {
            &&& head@ + tail@ == s@
            &&& byte_len(head@) == mid
            &&& encode_utf8(head@) == encode_utf8(s@).subrange(0, mid as int)
            &&& encode_utf8(tail@) == encode_utf8(s@).subrange(mid as int, byte_len(s@) as int)
        },
{
    if mid <= text_len(s) && s.is_char_boundary(mid) {
        let (head, tail) = s.split_at(mid);
        proof {
            let bytes = encode_utf8(s@);
            encode_utf8_valid_utf8(s@);
            decode_utf8_split(bytes, mid as int);
            encode_utf8_decode_utf8(s@);
            encode_utf8_decode_utf8(head@);
            encode_utf8_decode_utf8(tail@);
        }
        Some((head, tail))
    } else {
        proof {
            encode_utf8_valid_utf8(s@);
        }
        None
    }
}

/// The text between byte offsets `from` and `to` of `s`, when both lie on
/// character boundaries and `from <= to <= len`.
pub fn cut_text<'a>(s: &'a str, from: usize, to: usize) -> (r: Option<&'a str>)
    ensures
        r is Some <==> cuttable(encode_utf8(s@), from as int, to as int),
        r matches Some(piece) ==> encode_utf8(piece@) == encode_utf8(s@).subrange(
            from as int,
            to as int,
        ),
{
    if from > to {
        return None;
    }
    match split_text(s, to) {
        None => None,
        Some((head, _)) => {
            proof {
                encode_utf8_valid_utf8(s@);
                lemma_boundary_of_prefix(encode_utf8(s@), to as int, from as int);
            }
            match split_text(head, from) {
                None => None,
                Some((_, piece)) => {
                    assert(encode_utf8(s@).subrange(0, to as int).subrange(from as int, to as int)
                        =~= encode_utf8(s@).subrange(from as int, to as int));
                    Some(piece)
                },
            }
        },
    }
}

/// Cuts `s` in three at the byte offsets `from` and `to`, when both lie on
/// character boundaries and `from <= to <= len`.
pub fn split_three<'a>(s: &'a str, from: usize, to: usize) -> (r: Option<
    (&'a str, &'a str, &'a str),
>)
    ensures
        r is Some <==> cuttable(encode_utf8(s@), from as int, to as int),
        r matches Some((before, piece, after)) ==> {
            &&& encode_utf8(before@) == encode_utf8(s@).subrange(0, from as int)
            &&& encode_utf8(piece@) == encode_utf8(s@).subrange(from as int, to as int)
            &&& encode_utf8(after@) == encode_utf8(s@).subrange(to as int, byte_len(s@) as int)
        },
{
    if from > to {
        return None;
    }
    match split_text(s, to) {
        None => None,
        Some((head, after)) => {
            proof {
                encode_utf8_valid_utf8(s@);
                lemma_boundary_of_prefix(encode_utf8(s@), to as int, from as int);
            }
            match split_text(head, from) {
                None => None,
                Some((before, piece)) => {
                    assert(encode_utf8(s@).subrange(0, to as int).subrange(from as int, to as int)
                        =~= encode_utf8(s@).subrange(from as int, to as int));
                    assert(encode_utf8(s@).subrange(0, to as int).subrange(0, from as int)
                        =~= encode_utf8(s@).subrange(0, from as int));
                    Some((before, piece, after))
                },
            }
        },
    }
}

/// Whether two texts are the same.
pub fn same_text(a: &str, b: &str) -> (r: bool)
    ensures
        r == (a@ == b@),
{
    let x = a.as_bytes();
    let y = b.as_bytes();
    if x.len() != y.len() {
        return false;
    }
    let r = occurs_in(x, y, 0);
    proof {
        assert(x@.subrange(0, x@.len() as int) =~= x@);
        if r {
            lemma_bytes_injective(a@, b@);
        }
    }
    r
}

/// Within a prefix that ends on a character boundary, the character
/// boundaries are those of the whole text.
pub proof fn lemma_boundary_of_prefix(bytes: Seq<u8>, cut: int, index: int)
    requires
        valid_utf8(bytes),
        is_char_boundary(bytes, cut),
        0 <= index <= cut <= bytes.len(),
    ensures
        is_char_boundary(bytes.subrange(0, cut), index) == is_char_boundary(bytes, index),
{
    valid_utf8_split(bytes, cut);
    let prefix = bytes.subrange(0, cut);
    if index == cut {
        is_char_boundary_start_end_of_seq(prefix);
    } else {
        is_char_boundary_iff_not_is_continuation_byte(bytes, index);
        is_char_boundary_iff_not_is_continuation_byte(prefix, index);
    }
}

/// What `first_occurrence` finds is an occurrence, and the earliest one.
pub proof fn lemma_first_occurrence(hay: Seq<u8>, needle: Seq<u8>, from: int)
    requires
        0 <= from,
    ensures
        first_occurrence(hay, needle, from) matches Some(at) ==> {
            &&& from <= at
            &&& occurs_at(hay, needle, at)
            &&& forall|j: int| from <= j < at ==> !occurs_at(hay, needle, j)
        },
        first_occurrence(hay, needle, from) is None ==> forall|j: int|
            from <= j ==> !occurs_at(hay, needle, j),
    decreases hay.len() + 1 - from,
{
    if from + needle.len() > hay.len() {
    } else if occurs_at(hay, needle, from) {
    } else {
        lemma_first_occurrence(hay, needle, from + 1);
    }
}

/// Whether the bytes of `needle` stand in `hay` at byte offset `at`.
pub fn occurs_in(hay: &[u8], needle: &[u8], at: usize) -> (r: bool)
    ensures
        r == occurs_at(hay@, needle@, at as int),
{
    if at > hay.len() || needle.len() > hay.len() - at {
        return false;
    }
    let mut k: usize = 0;
    while k < needle.len()
        invariant
            at + needle@.len() <= hay@.len() <= usize::MAX,
            k <= needle@.len(),
            forall|j: int| 0 <= j < k ==> hay@[at + j] == needle@[j],
        decreases needle@.len() - k,
    {
        if hay[at + k] != needle[k] {
            proof {
                let piece = hay@.subrange(at as int, at + needle@.len());
                assert(piece[k as int] == hay@[at + k]);
            }
            return false;
        }
        k += 1;
    }
    assert(hay@.subrange(at as int, at + needle@.len()) =~= needle@);
    true
}

/// Whether `s` begins with `prefix`.
pub fn starts_with_text(s: &str, prefix: &str) -> (r: bool)
    ensures
        r == occurs_at(encode_utf8(s@), encode_utf8(prefix@), 0),
{
    occurs_in(s.as_bytes(), prefix.as_bytes(), 0)
}

/// The byte offset of the first occurrence of `needle` in `s`.
pub fn find_text(s: &str, needle: &str) -> (r: Option<usize>)
    ensures
        r is Some <==> first_occurrence(encode_utf8(s@), encode_utf8(needle@), 0) is Some,
        r matches Some(at) ==> first_occurrence(encode_utf8(s@), encode_utf8(needle@), 0) == Some(
            at as int,
        ),
{
    let hay = s.as_bytes();
    let pat = needle.as_bytes();
    if pat.len() > hay.len() {
        return None;
    }
    let last: usize = hay.len() - pat.len();
    let mut at: usize = 0;
    loop
        invariant
            hay@ == encode_utf8(s@),
            pat@ == encode_utf8(needle@),
            last + pat@.len() == hay@.len(),
            at <= last,
            first_occurrence(hay@, pat@, 0) == first_occurrence(hay@, pat@, at as int),
        decreases last - at,
    {
        if occurs_in(hay, pat, at) {
            return Some(at);
        }
        if at == last {
            assert(first_occurrence(hay@, pat@, at + 1) is None);
            return None;
        }
        at += 1;
    }
}

/// The text `a` followed by the text `b`.
pub fn join_text(a: &str, b: &str) -> (r: String)
    ensures
        r@ == a@ + b@,
{
    let mut out = String::from_str(a);
    out.append(b);
    out
}

/// The upper case form of a text, as `str::to_uppercase` gives it.
pub uninterp spec fn uppercase_of(text: Seq<char>) -> Seq<char>;

/// The lower case form of a text, as `str::to_lowercase` gives it.
pub uninterp spec fn lowercase_of(text: Seq<char>) -> Seq<char>;

/// `str::to_uppercase`: the upper case form of the text, by the case
/// mappings of Unicode.
#[verifier::external_body]
pub(crate) fn to_upper(text: &str) -> (r: String)
    ensures
        r@ == uppercase_of(text@),
{
    text.to_uppercase()
}

/// `str::to_lowercase`: the lower case form of the text, by the case
/// mappings of Unicode.
#[verifier::external_body]
pub(crate) fn to_lower(text: &str) -> (r: String)
    ensures
        r@ == lowercase_of(text@),
{
    text.to_lowercase()
}

} // verus!
