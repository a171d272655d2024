//! Choosing the transport: a session is opened only where exactly one
//! candidate exists.

use crate::error::SelectionError;
use vstd::prelude::*;

verus! {

/// The names of the transports found. An enumeration that failed counts as
/// one that found nothing.
pub fn get_portlist(found: Option<Vec<String>>) -> (names: Vec<String>)
    ensures
        (match found {
            Some(list) => names == list,
            None => names@.len() == 0,
        }),
{
    match found {
        Some(list) => list,
        None => Vec::new(),
    }
}

/// The one transport of the list. With none, or with more than one, there
/// is no choice to report: the caller must not open anything.
pub fn get_port(portlist: &Vec<String>) -> (port: Result<String, SelectionError>)
    ensures
        (match port {
            Ok(name) => portlist@.len() == 1 && name == portlist@[0],
            Err(SelectionError::NoneAvailable) => portlist@.len() == 0,
            Err(SelectionError::Ambiguous) => portlist@.len() > 1,
        }),
{
    if portlist.len() == 1 {
        Ok(portlist[0].clone())
    } else if portlist.len() == 0 {
        Err(SelectionError::NoneAvailable)
    } else {
        Err(SelectionError::Ambiguous)
    }
}

impl SelectionError {
    /// The words in which the failure is reported to the user.
    pub fn message(&self) -> (words: &'static str)
        ensures
            words@ == (match *self {
                SelectionError::NoneAvailable => "serial is not alive!"@,
                SelectionError::Ambiguous => "many serials"@,
            }),
    {
        match self {
            SelectionError::NoneAvailable => "serial is not alive!",
            SelectionError::Ambiguous => "many serials",
        }
    }
}

} // verus!
