//! The session controller's settings, and a whole wait for a pattern run
//! over the events that a transport delivered.

use crate::buffer::has_terminator;
use crate::error::ExpectError;
use crate::expect::{
    carries_data, echo_of, outcome_of, payload_of, pending_after, Event, Expect, Outcome, Verdict,
};
use crate::pattern::compiled;
use regex::Regex;
use vstd::prelude::*;
use vstd::string::*;
use vstd::utf8::*;

verus! {

/// The buffer as it stands before event `n` of a wait that began empty.
pub open spec fn pending_before(re: Regex, events: Seq<Event>, n: int) -> Seq<u8>
    decreases n,
{
    if n <= 0 {
        Seq::empty()
    } else {
        pending_after(re, pending_before(re, events, n - 1), events[n - 1])
    }
}

/// The verdict on event `i` of a wait that began empty.
pub open spec fn outcome_at(re: Regex, events: Seq<Event>, i: int) -> Outcome {
    outcome_of(re, pending_before(re, events, i), events[i])
}

/// None of the first `n` events ends the wait.
pub open spec fn undecided(re: Regex, events: Seq<Event>, n: int) -> bool {
    forall|i: int| 0 <= i < n ==> #[trigger] outcome_at(re, events, i) is Pending
}

/// A wait over `events` takes exactly the first `n` of them: it goes on
/// while the verdict is pending, and it stops short of the end only at an
/// event that decides.
pub open spec fn stops_at(re: Regex, events: Seq<Event>, n: int) -> bool {
    &&& 0 <= n <= events.len()
    &&& undecided(re, events, n - 1)
    &&& n < events.len() ==> n > 0 && !(outcome_at(re, events, n - 1) is Pending)
}

/// How a wait that took the first `n` events ends: as its last event
/// decided, or, where the events ran out undecided, by timing out.
pub open spec fn outcome_after(re: Regex, events: Seq<Event>, n: int) -> Outcome {
    if n > 0 && !(outcome_at(re, events, n - 1) is Pending) {
        outcome_at(re, events, n - 1)
    } else {
        Outcome::Failed(ExpectError::Timeout)
    }
}

/// The raw bytes that the first `n` events brought, in order.
pub open spec fn received(events: Seq<Event>, n: int) -> Seq<u8>
    decreases n,
{
    if n <= 0 {
        Seq::empty()
    } else {
        received(events, n - 1) + payload_of(events[n - 1])
    }
}

/// What the first `n` events show on a display: each chunk decoded by
/// itself, in order.
pub open spec fn echoed(events: Seq<Event>, n: int) -> Seq<char>
    decreases n,
{
    if n <= 0 {
        Seq::empty()
    } else {
        echoed(events, n - 1) + echo_of(events[n - 1])
    }
}

/// Only one count of events satisfies `stops_at`: a wait over given events
/// ends at one place.
pub proof fn lemma_stop_is_unique(re: Regex, events: Seq<Event>, n: int, m: int)
    requires
        stops_at(re, events, n),
        stops_at(re, events, m),
    ensures
        n == m,
{
    if n < m {
        assert(outcome_at(re, events, n - 1) is Pending);
    } else if m < n {
        assert(outcome_at(re, events, m - 1) is Pending);
    }
}

/// A line terminator in a chunk that brings no match discards everything
/// buffered so far. From then on the wait goes as one that begins with the
/// next event: the buffer before each later event, and the verdict on it,
/// are those of a wait over the later events alone. So a match that would
/// need text from both sides of the terminator is not found.
pub proof fn lemma_terminator_discards(re: Regex, events: Seq<Event>, k: int, n: int)
    requires
        0 <= k < events.len(),
        carries_data(events[k]),
        has_terminator(payload_of(events[k])),
        outcome_at(re, events, k) is Pending,
        0 <= n,
        k + 1 + n <= events.len(),
    ensures
        pending_before(re, events, k + 1) == Seq::<u8>::empty(),
        pending_before(re, events, k + 1 + n) == pending_before(re, events.skip(k + 1), n),
        k + 1 + n < events.len() ==> outcome_at(re, events, k + 1 + n) == outcome_at(
            re,
            events.skip(k + 1),
            n,
        ),
    decreases n,
{
    let later = events.skip(k + 1);
    if n > 0 {
        lemma_terminator_discards(re, events, k, n - 1);
        assert(later[n - 1] == events[k + n]);
    }
    if k + 1 + n < events.len() {
        assert(later[n] == events[k + 1 + n]);
    }
}

/// A finished wait's result with the matched text as a sequence of characters.
pub open spec fn outcome_view(result: Result<String, ExpectError>) -> Outcome {
    match result {
        Ok(text) => Outcome::Matched(text@),
        Err(error) => Outcome::Failed(error),
    }
}

/// A finished wait: how it ended and what it sent to the display and the log.
#[derive(Debug, PartialEq, Eq)]
pub struct Transcript {
    /// The matched text, or why there is none.
    pub result: Result<String, ExpectError>,
    /// How many of the events the wait took.
    pub consumed: usize,
    /// Everything written to the display, in order.
    pub display: String,
    /// Everything appended to the log, in order.
    pub log: Vec<u8>,
}

impl Transcript {
    /// This is the transcript of a wait over `events` for the pattern that
    /// compiled to `re`, or that did not compile. A pattern that does not
    /// compile fails the wait before any event is taken. Otherwise the wait
    /// ends at the first event that decides; the display got every chunk
    /// taken if monitoring is on, and nothing if it is off; the log got the
    /// raw bytes of every chunk taken if logging is on, and nothing if it is
    /// off.
    pub open spec fn describes(
        self,
        re: Option<Regex>,
        monitor: bool,
        logging: bool,
        events: Seq<Event>,
    ) -> bool {
        match re {
            None => {
                &&& self.result == Err::<String, ExpectError>(ExpectError::Pattern)
                &&& self.consumed == 0
                &&& self.display@ == Seq::<char>::empty()
                &&& self.log@ == Seq::<u8>::empty()
            },
            Some(re) => {
                &&& stops_at(re, events, self.consumed as int)
                &&& outcome_view(self.result) == outcome_after(re, events, self.consumed as int)
                &&& self.display@ == (if monitor {
                    echoed(events, self.consumed as int)
                } else {
                    Seq::empty()
                })
                &&& self.log@ == (if logging {
                    received(events, self.consumed as int)
                } else {
                    Seq::empty()
                })
            },
        }
    }
}

/// The settings of a session: where to log, and whether to echo.
#[derive(Debug, PartialEq, Eq)]
pub struct SerialComm {
    /// The log file's path; empty while nothing is logged.
    pub logpath: String,
    /// Whether incoming bytes are echoed to the live display.
    pub monitor: bool,
}

impl SerialComm {
    /// A log path is configured.
    pub open spec fn logging(&self) -> bool {
        self.logpath@.len() > 0
    }

    /// A session that echoes and does not log.
    pub fn new() -> (comm: SerialComm)
        ensures
            comm.monitor,
            comm.logpath@ == Seq::<char>::empty(),
            !comm.logging(),
    {
        SerialComm { logpath: String::new(), monitor: true }
    }

    /// Turns the echo on or off.
    pub fn set_monitoring(&mut self, monitor: bool)
        ensures
            final(self).monitor == monitor,
            final(self).logpath == old(self).logpath,
    {
        self.monitor = monitor;
    }

    /// Sets the log path; the empty path turns logging off.
    pub fn set_logpath(&mut self, logpath: &str)
        ensures
            final(self).logpath@ == logpath@,
            final(self).monitor == old(self).monitor,
    {
        self.logpath = logpath.to_owned();
    }

    /// Whether a log path is configured.
    pub fn is_logging(&self) -> (on: bool)
        ensures
            on == self.logging(),
    {
        !self.logpath.as_str().is_empty()
    }

    /// The bytes to put on the transport for `cmd`: its UTF-8 encoding, with
    /// nothing added.
    pub fn write(&self, cmd: &str) -> (bytes: Vec<u8>)
        ensures
            bytes@ == encode_utf8(cmd@),
    {
        cmd.as_bytes_vec()
    }

    /// Begins a wait for `target` under the current settings.
    pub fn expect(&self, target: &str) -> (r: Result<Expect, ExpectError>)
        ensures
            (match r {
                Ok(expect) => {
                    &&& compiled(target@) == Some(expect.regex())
                    &&& expect.pending() == Seq::<u8>::empty()
                    &&& expect.monitor() == self.monitor
                    &&& expect.logging() == self.logging()
                },
                Err(error) => compiled(target@) is None && error == ExpectError::Pattern,
            }),
    {
        Expect::new(target, self.monitor, self.is_logging())
    }

    /// Waits for `target` over the events that the transport delivered, in
    /// order, and reports how the wait ended together with what went to the
    /// display and to the log. Events after the one that ends the wait are
    /// not taken. Where the events run out before anything matched, nothing
    /// more arrived within the wait window: the wait times out.
    pub fn wait_for(&self, target: &str, events: &Vec<Event>) -> (transcript: Transcript)
        ensures
            transcript.describes(compiled(target@), self.monitor, self.logging(), events@),
    {
        let mut display = String::new();
        let mut log: Vec<u8> = Vec::new();
        let mut expect = match self.expect(target) {
            Ok(expect) => expect,
            Err(error) => {
                return Transcript { result: Err(error), consumed: 0, display, log };
            },
        };
        let ghost re = expect.regex();
        let mut i: usize = 0;
        while i < events.len()
            invariant
                i <= events.len(),
                compiled(target@) == Some(re),
                expect.regex() == re,
                expect.monitor() == self.monitor,
                expect.logging() == self.logging(),
                expect.pending() == pending_before(re, events@, i as int),
                undecided(re, events@, i as int),
                display@ == (if self.monitor {
                    echoed(events@, i as int)
                } else {
                    Seq::empty()
                }),
                log@ == (if self.logging() {
                    received(events@, i as int)
                } else {
                    Seq::empty()
                }),
            decreases events.len() - i,
        {
            let step = expect.on_event(&events[i]);
            if let Some(text) = step.display {
                display.append(text.as_str());
            }
            if let Some(mut bytes) = step.log {
                log.append(&mut bytes);
            }
            i += 1;
            match step.verdict {
                Verdict::Matched(text) => {
                    return Transcript { result: Ok(text), consumed: i, display, log };
                },
                Verdict::Failed(error) => {
                    return Transcript { result: Err(error), consumed: i, display, log };
                },
                Verdict::Pending => {},
            }
        }
        Transcript { result: Err(ExpectError::Timeout), consumed: i, display, log }
    }
}

} // verus!
