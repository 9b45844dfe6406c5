//! A reparenting X11 window manager core, written for verification.
//!
//! The crate separates the window manager's decisions from the socket that
//! carries them.  Byte-level decoding of X11 events and replies, the event
//! mask algebra, the connection error taxonomy and the framing / drag state
//! machine all live here, fully specified; an unverified shell performs the
//! actual protocol I/O and feeds plain values in and out.

use vstd::prelude::*;

pub mod codec;
pub mod connection;
pub mod event;
pub mod result;
pub mod window;
pub mod wm;

verus! {

/// A window's position and extent as the X11 wire format carries them:
/// signed 16-bit position, unsigned 16-bit extent.  Zero-area rectangles
/// are representable; there is no further invariant.
#[derive(Clone, Copy, Debug, PartialEq, Eq, Structural)]
pub struct Rectangle {
    pub x: i16,
    pub y: i16,
    pub width: u16,
    pub height: u16,
}

} // verus!
