//! Text as the session sees it: bytes decoded leniently, and parts of a text
//! addressed by byte offsets into its UTF-8 encoding.

use vstd::prelude::*;
use vstd::string::*;
use vstd::utf8::*;

verus! {

/// The text that `String::from_utf8_lossy` makes of `bytes`: each malformed
/// sequence is replaced, so every byte string has a text.
pub uninterp spec fn lossy_text(bytes: Seq<u8>) -> Seq<char>;

/// Calls `String::from_utf8_lossy`. Trusted: the text returned is the one
/// that `lossy_text` names.
#[verifier::external_body]
pub(crate) fn decode_lossy(bytes: &[u8]) -> (text: String)
    ensures
        text@ == lossy_text(bytes@),
{
    String::from_utf8_lossy(bytes).into_owned()
}

/// An optional string as the characters it holds.
pub open spec fn text_of(text: Option<String>) -> Option<Seq<char>> {
    match text {
        Some(t) => Some(t@),
        None => None,
    }
}

/// `start..end` is a range of whole characters in the UTF-8 encoding of `text`.
pub open spec fn is_span(text: Seq<char>, start: int, end: int) -> bool {
    let bytes = encode_utf8(text);
    &&& 0 <= start <= end <= bytes.len()
    &&& is_char_boundary(bytes, start)
    &&& is_char_boundary(bytes, end)
}

/// The characters whose encoding occupies the bytes `start..end` of the
/// encoding of `text`.
pub open spec fn span_text(text: Seq<char>, start: int, end: int) -> Seq<char> {
    decode_utf8(encode_utf8(text).subrange(start, end))
}

/// A character boundary of a byte string is still one in the suffix that
/// starts at an earlier boundary.
proof fn lemma_boundary_in_suffix(bytes: Seq<u8>, start: int, end: int)
    requires
        valid_utf8(bytes),
        0 <= start <= end <= bytes.len(),
        is_char_boundary(bytes, start),
        is_char_boundary(bytes, end),
    ensures
        valid_utf8(bytes.subrange(start, bytes.len() as int)),
        is_char_boundary(bytes.subrange(start, bytes.len() as int), end - start),
{
    let tail = bytes.subrange(start, bytes.len() as int);
    valid_utf8_split(bytes, start);
    if end == start {
    } else if end == bytes.len() {
        is_char_boundary_start_end_of_seq(tail);
    } else {
        is_char_boundary_iff_not_is_continuation_byte(bytes, end);
        is_char_boundary_iff_not_is_continuation_byte(tail, end - start);
        assert(tail[end - start] == bytes[end]);
    }
}

/// A span cuts its text in three: what stands before it, the span, and what
/// stands after it. So the span's text is a contiguous part of the text, made
/// of `span_text(..).len()` characters that follow the first
/// `span_text(text, 0, start).len()`.
pub proof fn lemma_span_is_part_of_text(text: Seq<char>, start: int, end: int)
    requires
        is_span(text, start, end),
    ensures
        text == span_text(text, 0, start) + span_text(text, start, end) + span_text(
            text,
            end,
            encode_utf8(text).len() as int,
        ),
        span_text(text, start, end) == text.subrange(
            span_text(text, 0, start).len() as int,
            (span_text(text, 0, start).len() + span_text(text, start, end).len()) as int,
        ),
{
    let bytes = encode_utf8(text);
    let len = bytes.len() as int;
    encode_utf8_valid_utf8(text);
    encode_utf8_decode_utf8(text);
    decode_utf8_split(bytes, start);
    let tail = bytes.subrange(start, len);
    lemma_boundary_in_suffix(bytes, start, end);
    decode_utf8_split(tail, end - start);
    assert(tail.subrange(0, end - start) =~= bytes.subrange(start, end));
    assert(tail.subrange(end - start, tail.len() as int) =~= bytes.subrange(end, len));
    let before = span_text(text, 0, start);
    let middle = span_text(text, start, end);
    let after = span_text(text, end, len);
    assert(text =~= before + middle + after);
    assert(middle =~= text.subrange(before.len() as int, (before.len() + middle.len()) as int));
}

/// The part of `text` between two byte offsets, if they delimit whole
/// characters; `None` if they do not.
pub fn slice_text(text: &str, start: usize, end: usize) -> (part: Option<String>)
    ensures
        is_span(text@, start as int, end as int) <==> part is Some,
        part matches Some(p) ==> p@ == span_text(text@, start as int, end as int),
{
    let len = text.as_bytes().len();
    if start <= end && end <= len && text.is_char_boundary(start) && text.is_char_boundary(end) {
        let ghost bytes = text.spec_bytes();
        proof {
            encode_utf8_valid_utf8(text@);
            lemma_boundary_in_suffix(bytes, start as int, end as int);
        }
        let (_, tail) = text.split_at(start);
        let (middle, _) = tail.split_at(end - start);
        let part = middle.to_owned();
        proof {
            assert(middle.spec_bytes() =~= bytes.subrange(start as int, end as int));
            encode_utf8_decode_utf8(part@);
        }
        Some(part)
    } else {
        None
    }
}

} // verus!
