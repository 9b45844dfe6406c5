//! Outcomes of X11 requests.
//!
//! Every request travels as a cookie and is answered later, either by a
//! reply or by an asynchronous error carrying a small protocol error code.
//! The unverified shell reduces that answer to a plain `Option<u32>` (the
//! error code, if any) and the functions here turn it into a typed result.

use vstd::prelude::*;

verus! {

/// Everything that can go wrong between this library and an X11 server.
///
/// The first six variants are the documented closure codes reported when a
/// connection is opened; `ScreenNotFound` is raised when the default screen
/// index runs past the setup's screen list; `UnknownError` preserves any
/// other raw protocol error code; `EncodingError` is raised when the
/// server's vendor string is not valid UTF-8.
#[derive(Clone, Copy, Debug, PartialEq, Eq, Structural)]
pub enum Error {
    ConnectionFailed,
    UnsupportedExtension,
    InsufficientMemory,
    RequestLengthExceeded,
    DisplayParseError,
    InvalidScreen,
    UnknownError(u32),
    ScreenNotFound(u32),
    EncodingError,
}

/// What awaiting a request comes to once the server has answered: success
/// when no error was delivered, otherwise the raw error code preserved.
pub open spec fn spec_request_outcome(error_code: Option<u32>) -> Result<(), Error> {
    match error_code {
        None => Ok(()),
        Some(code) => Err(Error::UnknownError(code)),
    }
}

/// Turns the error half of an awaited request into a typed result: a
/// request succeeded if and only if no error was delivered for it, and a
/// delivered error keeps its protocol error code.
pub fn request_outcome(error_code: Option<u32>) -> (r: Result<(), Error>)
    ensures
        r == spec_request_outcome(error_code),
{
    match error_code {
        None => Ok(()),
        Some(code) => Err(Error::UnknownError(code)),
    }
}

} // verus!
