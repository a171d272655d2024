//! The line buffer: the bytes received since the last line boundary.

use crate::text::{decode_lossy, is_span, lossy_text, slice_text, span_text, text_of};
use vstd::prelude::*;

verus! {

/// Line feed and carriage return end a line.
pub open spec fn is_terminator(byte: u8) -> bool {
    byte == 0x0A || byte == 0x0D
}

/// Some byte of `chunk` ends a line.
pub open spec fn has_terminator(chunk: Seq<u8>) -> bool {
    exists|i: int| 0 <= i < chunk.len() && is_terminator(#[trigger] chunk[i])
}

/// Whether some byte of `chunk` ends a line.
pub fn contains_terminator(chunk: &[u8]) -> (found: bool)
    ensures
        found == has_terminator(chunk@),
{
    let mut i: usize = 0;
    while i < chunk.len()
        invariant
            i <= chunk.len(),
            forall|j: int| 0 <= j < i ==> !is_terminator(#[trigger] chunk@[j]),
        decreases chunk.len() - i,
    {
        if chunk[i] == 0x0A || chunk[i] == 0x0D {
            return true;
        }
        i += 1;
    }
    false
}

/// The bytes accumulated since the last line boundary, or since the wait began.
pub struct LineBuffer {
    bytes: Vec<u8>,
}

impl View for LineBuffer {
    type V = Seq<u8>;

    closed spec fn view(&self) -> Seq<u8> {
        self.bytes@
    }
}

/// What a search result means for the text searched: the text of the span it
/// gives, or nothing where it gives none or the offsets delimit no span.
pub open spec fn reported(text: Seq<char>, found: Option<(int, int)>) -> Option<Seq<char>> {
    match found {
        Some((start, end)) => if is_span(text, start, end) {
            Some(span_text(text, start, end))
        } else {
            None
        },
        None => None,
    }
}

/// A pair of byte offsets as the integers they stand for.
pub open spec fn offsets_of(found: Option<(usize, usize)>) -> Option<(int, int)> {
    match found {
        Some((start, end)) => Some((start as int, end as int)),
        None => None,
    }
}

/// The buffer after a chunk was appended and searched: emptied by a match or
/// by a line terminator in the chunk, else kept.
pub open spec fn kept(window: Seq<u8>, chunk: Seq<u8>, matched: bool) -> Seq<u8> {
    if matched || has_terminator(chunk) {
        Seq::empty()
    } else {
        window
    }
}

impl LineBuffer {
    /// An empty buffer.
    pub fn new() -> (buffer: LineBuffer)
        ensures
            buffer@ == Seq::<u8>::empty(),
    {
        LineBuffer { bytes: Vec::new() }
    }

    /// The number of bytes held.
    pub fn len(&self) -> (n: usize)
        ensures
            n == self@.len(),
    {
        self.bytes.len()
    }

    /// Appends a chunk as it was received.
    pub fn absorb(&mut self, chunk: &[u8])
        ensures
            final(self)@ == old(self)@ + chunk@,
    {
        self.bytes.extend_from_slice(chunk);
        assert(self.bytes@ =~= old(self).bytes@ + chunk@);
    }

    /// Discards what is held.
    pub fn clear(&mut self)
        ensures
            final(self)@ == Seq::<u8>::empty(),
    {
        self.bytes.clear();
    }

    /// The whole buffer as text, decoded leniently.
    pub fn text(&self) -> (text: String)
        ensures
            text@ == lossy_text(self@),
    {
        decode_lossy(self.bytes.as_slice())
    }

    /// Acts on the result of searching `text`, the buffer's text after `chunk`
    /// was appended. A match is cut out of the text and ends the wait, so the
    /// buffer is discarded. Without a match, a line terminator in the chunk
    /// discards the buffer too; otherwise it is kept for the next chunk.
    pub fn settle(&mut self, chunk: &[u8], text: &str, found: Option<(usize, usize)>) -> (matched:
        Option<String>)
        ensures
            text_of(matched) == reported(text@, offsets_of(found)),
            final(self)@ == kept(old(self)@, chunk@, matched is Some),
    {
        let part = match found {
            Some((start, end)) => slice_text(text, start, end),
            None => None,
        };
        match part {
            Some(matched) => {
                self.bytes.clear();
                Some(matched)
            },
            None => {
                if contains_terminator(chunk) {
                    self.bytes.clear();
                }
                None
            },
        }
    }
}

} // verus!
