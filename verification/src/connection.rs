//! Decisions tied to the life of an X11 connection.
//!
//! Opening a connection yields a numeric status; grabbing the pointer
//! yields a numeric grab status.  The unverified shell makes those calls
//! and hands the raw numbers here to be classified.

use vstd::prelude::*;
use crate::event::{EventMask, spec_combine_masks};
use crate::result::Error;

verus! {

/// What a connection-open status code means.  Zero is success; the six
/// documented closure codes each map to their own error; any other
/// non-zero code is preserved as `UnknownError`.
pub open spec fn spec_connection_status(code: u32) -> Result<(), Error> {
    if code == 0 {
        Ok(())
    } else if code == 1 {
        Err(Error::ConnectionFailed)
    } else if code == 2 {
        Err(Error::UnsupportedExtension)
    } else if code == 3 {
        Err(Error::InsufficientMemory)
    } else if code == 4 {
        Err(Error::RequestLengthExceeded)
    } else if code == 5 {
        Err(Error::DisplayParseError)
    } else if code == 6 {
        Err(Error::InvalidScreen)
    } else {
        Err(Error::UnknownError(code))
    }
}

/// Classifies the status code reported just after a connection is opened.
///
/// Succeeds exactly on code 0.  Codes 1 through 6 are the documented
/// closure reasons — generic failure, unsupported extension, insufficient
/// memory, request length exceeded, display string parse error, invalid
/// screen — and every other code is surfaced unchanged.
pub fn connection_status(code: u32) -> (r: Result<(), Error>)
    ensures
        r == spec_connection_status(code),
{
    match code {
        0 => Ok(()),
        1 => Err(Error::ConnectionFailed),
        2 => Err(Error::UnsupportedExtension),
        3 => Err(Error::InsufficientMemory),
        4 => Err(Error::RequestLengthExceeded),
        5 => Err(Error::DisplayParseError),
        6 => Err(Error::InvalidScreen),
        _ => Err(Error::UnknownError(code)),
    }
}

/// Whether a pointer grab succeeded, judged from the status byte of the
/// grab reply: zero means the grab was granted, anything else is a refusal
/// (already grabbed, invalid time, not viewable, or frozen).
pub fn grab_succeeded(status: u8) -> (r: bool)
    ensures
        r == (status == 0),
{
    status == 0
}

/// The event classes a pointer grab for a drag selects: the motions that
/// move the frame and the release that ends the drag.
pub open spec fn spec_grab_classes() -> Seq<EventMask> {
    seq![EventMask::PointerMotion, EventMask::ButtonRelease]
}

/// The event-mask word of a drag's pointer grab, the combination of
/// [`spec_grab_classes`].
pub fn pointer_grab_mask() -> (r: u32)
    ensures
        r == spec_combine_masks(spec_grab_classes()),
{
    let masks: Vec<EventMask> = vec![EventMask::PointerMotion, EventMask::ButtonRelease];
    proof {
        assert(masks@ =~= spec_grab_classes());
    }
    EventMask::combine(&masks)
}

} // verus!
