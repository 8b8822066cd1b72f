//! Error taxonomy of the lookup client.

use vstd::prelude::*;

use crate::parsing::CallsignParseError;

verus! {

/// Top-level error returned by the crate.
///
/// Parse errors and `NotFound` are expected, recoverable outcomes a caller
/// should branch on; `Http`, `Timeout` and `BodyParsing` indicate
/// infrastructure problems.
#[derive(Debug, Clone, PartialEq, Eq)]
pub enum Error {
    /// Invalid user input while parsing the callsign.
    CallsignParsing(CallsignParseError),
    /// Network failure when issuing the HTTP request.
    Http,
    /// The response body could not be decoded.
    BodyParsing,
    /// The request exceeded the fixed timeout.
    Timeout,
    /// The service reported the callsign as missing; carries the normalized
    /// base callsign.
    NotFound(String),
}

/// How a failed request is classified, from the two distinctions the
/// transport reports: a timeout is its own kind, a body that could not be
/// decoded is another, and everything else is a plain transport failure.
pub open spec fn classify_spec(is_timeout: bool, is_decode: bool) -> Error {
    if is_timeout {
        Error::Timeout
    } else if is_decode {
        Error::BodyParsing
    } else {
        Error::Http
    }
}

/// Classifies a failed request from the transport's own flags.
pub fn classify_request_error(is_timeout: bool, is_decode: bool) -> (r: Error)
    ensures
        r == classify_spec(is_timeout, is_decode),
{
    if is_timeout {
        Error::Timeout
    } else if is_decode {
        Error::BodyParsing
    } else {
        Error::Http
    }
}

} // verus!
