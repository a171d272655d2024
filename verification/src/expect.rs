//! One wait for a pattern, as a machine that is fed what the transport
//! delivers and says, for each event, what to echo, what to log, and whether
//! the wait is over.

use crate::buffer::{kept, reported, LineBuffer};
use crate::error::ExpectError;
use crate::pattern::{compile, compiled, find_first, first_match};
use crate::text::{decode_lossy, lemma_span_is_part_of_text, lossy_text, span_text, text_of};
use regex::Regex;
use vstd::prelude::*;
use vstd::slice::slice_to_vec;

verus! {

/// What the transport layer reports while a pattern is awaited.
#[derive(Debug, PartialEq, Eq)]
pub enum Event {
    /// Bytes were read, in the order received. No bytes: nothing was available.
    Data(Vec<u8>),
    /// The wait window closed.
    Expired,
    /// Reading failed.
    Broken,
}

/// Where a wait stands after an event.
#[derive(Debug, PartialEq, Eq)]
pub enum Verdict {
    /// Nothing matched yet: keep reading.
    Pending,
    /// The pattern matched; this is the matched text.
    Matched(String),
    /// The wait failed.
    Failed(ExpectError),
}

/// A verdict with the matched text as a sequence of characters.
pub enum Outcome {
    Pending,
    Matched(Seq<char>),
    Failed(ExpectError),
}

impl View for Verdict {
    type V = Outcome;

    open spec fn view(&self) -> Outcome {
        match *self {
            Verdict::Pending => Outcome::Pending,
            Verdict::Matched(text) => Outcome::Matched(text@),
            Verdict::Failed(error) => Outcome::Failed(error),
        }
    }
}

/// What to do after an event.
#[derive(Debug, PartialEq, Eq)]
pub struct Step {
    /// Text to write to the live display, if any.
    pub display: Option<String>,
    /// Bytes to append to the log, if any.
    pub log: Option<Vec<u8>>,
    /// Whether to go on reading.
    pub verdict: Verdict,
}

/// An optional byte string as the bytes it holds.
pub open spec fn bytes_of(bytes: Option<Vec<u8>>) -> Option<Seq<u8>> {
    match bytes {
        Some(b) => Some(b@),
        None => None,
    }
}

/// The event brought bytes.
pub open spec fn carries_data(event: Event) -> bool {
    event matches Event::Data(chunk) && chunk@.len() > 0
}

/// The bytes that the event brought.
pub open spec fn payload_of(event: Event) -> Seq<u8> {
    match event {
        Event::Data(chunk) => chunk@,
        _ => Seq::empty(),
    }
}

/// The text that the event's bytes show as on a display.
pub open spec fn echo_of(event: Event) -> Seq<char> {
    if carries_data(event) {
        lossy_text(payload_of(event))
    } else {
        Seq::empty()
    }
}

/// The text of the leftmost match of `re` in the window's bytes, decoded
/// leniently.
pub open spec fn found_in(re: Regex, window: Seq<u8>) -> Option<Seq<char>> {
    reported(lossy_text(window), first_match(re, lossy_text(window)))
}

/// The verdict on an event that arrives while `pending` is buffered: bytes
/// are appended and the whole buffer is searched; an idle read changes
/// nothing; a closed window or a failed read ends the wait.
pub open spec fn outcome_of(re: Regex, pending: Seq<u8>, event: Event) -> Outcome {
    match event {
        Event::Data(chunk) => if chunk@.len() == 0 {
            Outcome::Pending
        } else {
            match found_in(re, pending + chunk@) {
                Some(text) => Outcome::Matched(text),
                None => Outcome::Pending,
            }
        },
        Event::Expired => Outcome::Failed(ExpectError::Timeout),
        Event::Broken => Outcome::Failed(ExpectError::Transport),
    }
}

/// The buffer after an event that arrives while `pending` is buffered. The
/// search comes first: a line terminator discards the buffer only once the
/// chunk that holds it has been searched.
pub open spec fn pending_after(re: Regex, pending: Seq<u8>, event: Event) -> Seq<u8> {
    match event {
        Event::Data(chunk) => if chunk@.len() == 0 {
            pending
        } else {
            kept(pending + chunk@, chunk@, found_in(re, pending + chunk@) is Some)
        },
        _ => Seq::empty(),
    }
}

/// The matched text is a contiguous run of characters of the text searched:
/// the buffer with the chunk appended, decoded leniently. It is that run
/// alone, with nothing of what stands before or after it.
pub proof fn lemma_match_is_part_of_window(re: Regex, pending: Seq<u8>, event: Event)
    requires
        outcome_of(re, pending, event) is Matched,
    ensures
        carries_data(event),
        ({
            let text = lossy_text(pending + payload_of(event));
            let matched = outcome_of(re, pending, event)->Matched_0;
            exists|from: int, to: int|
                0 <= from <= to <= text.len() && matched == #[trigger] text.subrange(from, to)
        }),
{
    let text = lossy_text(pending + payload_of(event));
    let (start, end) = first_match(re, text)->Some_0;
    lemma_span_is_part_of_text(text, start, end);
    let from = span_text(text, 0, start).len() as int;
    let to = from + span_text(text, start, end).len();
    assert(span_text(text, start, end) == text.subrange(from, to));
}

/// A wait in progress: the compiled pattern, the line buffer, and the
/// session's settings as they were when the wait began.
pub struct Expect {
    re: Regex,
    buffer: LineBuffer,
    monitor: bool,
    logging: bool,
}

impl Expect {
    /// The compiled pattern.
    pub closed spec fn regex(&self) -> Regex {
        self.re
    }

    /// The bytes buffered since the last line boundary.
    pub closed spec fn pending(&self) -> Seq<u8> {
        self.buffer@
    }

    /// Whether incoming bytes are echoed to the display.
    pub closed spec fn monitor(&self) -> bool {
        self.monitor
    }

    /// Whether incoming bytes are logged.
    pub closed spec fn logging(&self) -> bool {
        self.logging
    }

    /// Begins a wait for a regex that is compiled already, with an empty
    /// buffer.
    pub fn with_regex(re: Regex, monitor: bool, logging: bool) -> (expect: Expect)
        ensures
            expect.regex() == re,
            expect.pending() == Seq::<u8>::empty(),
            expect.monitor() == monitor,
            expect.logging() == logging,
    {
        Expect { re, buffer: LineBuffer::new(), monitor, logging }
    }

    /// Begins a wait for `pattern` with an empty buffer. Fails, before any
    /// event is looked at, exactly when the pattern does not compile.
    pub fn new(pattern: &str, monitor: bool, logging: bool) -> (r: Result<Expect, ExpectError>)
        ensures
            (match r {
                Ok(expect) => {
                    &&& compiled(pattern@) == Some(expect.regex())
                    &&& expect.pending() == Seq::<u8>::empty()
                    &&& expect.monitor() == monitor
                    &&& expect.logging() == logging
                },
                Err(error) => compiled(pattern@) is None && error == ExpectError::Pattern,
            }),
    {
        match compile(pattern) {
            Ok(re) => Ok(Expect::with_regex(re, monitor, logging)),
            Err(_) => Err(ExpectError::Pattern),
        }
    }

    /// Takes one chunk of received bytes. An empty chunk changes nothing.
    /// Otherwise the chunk is echoed if monitoring is on and logged if
    /// logging is on, whatever the search then finds; it is appended to the
    /// buffer, and the whole buffer is decoded and searched.
    pub fn feed(&mut self, chunk: &[u8]) -> (step: Step)
        ensures
            text_of(step.display) == (if old(self).monitor() && chunk@.len() > 0 {
                Some(lossy_text(chunk@))
            } else {
                None
            }),
            bytes_of(step.log) == (if old(self).logging() && chunk@.len() > 0 {
                Some(chunk@)
            } else {
                None
            }),
            chunk@.len() == 0 ==> step.verdict@ == Outcome::Pending && final(self).pending() == old(
                self,
            ).pending(),
            chunk@.len() > 0 ==> ({
                let window = old(self).pending() + chunk@;
                let found = found_in(old(self).regex(), window);
                &&& step.verdict@ == (match found {
                    Some(text) => Outcome::Matched(text),
                    None => Outcome::Pending,
                })
                &&& final(self).pending() == kept(window, chunk@, found is Some)
            }),
            final(self).regex() == old(self).regex(),
            final(self).monitor() == old(self).monitor(),
            final(self).logging() == old(self).logging(),
    {
        if chunk.len() == 0 {
            return Step { display: None, log: None, verdict: Verdict::Pending };
        }
        let display = if self.monitor {
            Some(decode_lossy(chunk))
        } else {
            None
        };
        let log = if self.logging {
            Some(slice_to_vec(chunk))
        } else {
            None
        };
        self.buffer.absorb(chunk);
        let text = self.buffer.text();
        let found = find_first(&self.re, text.as_str());
        let verdict = match self.buffer.settle(chunk, text.as_str(), found) {
            Some(matched) => Verdict::Matched(matched),
            None => Verdict::Pending,
        };
        Step { display, log, verdict }
    }

    /// Takes one event and says what to do next.
    pub fn on_event(&mut self, event: &Event) -> (step: Step)
        ensures
            step.verdict@ == outcome_of(old(self).regex(), old(self).pending(), *event),
            final(self).pending() == pending_after(
                old(self).regex(),
                old(self).pending(),
                *event,
            ),
            text_of(step.display) == (if old(self).monitor() && carries_data(*event) {
                Some(echo_of(*event))
            } else {
                None
            }),
            bytes_of(step.log) == (if old(self).logging() && carries_data(*event) {
                Some(payload_of(*event))
            } else {
                None
            }),
            final(self).regex() == old(self).regex(),
            final(self).monitor() == old(self).monitor(),
            final(self).logging() == old(self).logging(),
    {
        match event {
            Event::Data(chunk) => self.feed(chunk.as_slice()),
            Event::Expired => {
                self.buffer.clear();
                Step { display: None, log: None, verdict: Verdict::Failed(ExpectError::Timeout) }
            },
            Event::Broken => {
                self.buffer.clear();
                Step { display: None, log: None, verdict: Verdict::Failed(ExpectError::Transport) }
            },
        }
    }
}

} // verus!
