//! The ways in which a session can fail.

use vstd::prelude::*;

verus! {

/// Why a wait for a pattern ended without a match.
#[derive(Clone, Copy, Debug, PartialEq, Eq, Structural)]
pub enum ExpectError {
    /// The pattern is not a valid regular expression.
    Pattern,
    /// The wait window closed before anything matched.
    Timeout,
    /// The transport failed while reading.
    Transport,
}

/// Why no transport could be selected.
#[derive(Clone, Copy, Debug, PartialEq, Eq, Structural)]
pub enum SelectionError {
    /// No transport is available.
    NoneAvailable,
    /// More than one transport is available, and none is preferred.
    Ambiguous,
}

} // verus!
