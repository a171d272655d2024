//! The decision core of a send/expect session over a serial console:
//! incoming bytes are gathered into a line buffer, decoded, and searched for
//! a regular expression, while the caller is told what to echo and what to log.

pub mod buffer;
pub mod error;
pub mod expect;
pub mod pattern;
pub mod ports;
pub mod session;
pub mod text;
