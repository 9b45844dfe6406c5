//! Inbound events, pointer buttons, and the event-mask algebra.

use vstd::prelude::*;
use crate::Rectangle;

verus! {

/// The pointer buttons the X11 core protocol reports, in the order of
/// their detail codes 1 through 5.
#[derive(Clone, Copy, Debug, PartialEq, Eq, Structural)]
pub enum MouseButton {
    Left,
    Middle,
    Right,
    ScrollUp,
    ScrollDown,
}

/// The button a press or release event's detail byte stands for, if any:
/// 1 through 5 name the five buttons, every other value none.
pub open spec fn spec_button_from_detail(detail: u8) -> Option<MouseButton> {
    if detail == 1 {
        Some(MouseButton::Left)
    } else if detail == 2 {
        Some(MouseButton::Middle)
    } else if detail == 3 {
        Some(MouseButton::Right)
    } else if detail == 4 {
        Some(MouseButton::ScrollUp)
    } else if detail == 5 {
        Some(MouseButton::ScrollDown)
    } else {
        None
    }
}

/// The detail code a button travels as on the wire.
pub open spec fn spec_button_detail(button: MouseButton) -> u8 {
    match button {
        MouseButton::Left => 1,
        MouseButton::Middle => 2,
        MouseButton::Right => 3,
        MouseButton::ScrollUp => 4,
        MouseButton::ScrollDown => 5,
    }
}

impl MouseButton {
    /// Decodes a press or release event's detail byte.  Returns the button
    /// for detail values 1 through 5 and `None` for every other value, so
    /// that a caller can fail fast on an unknown button.
    pub fn from_detail(detail: u8) -> (r: Option<MouseButton>)
        ensures
            r == spec_button_from_detail(detail),
    {
        match detail {
            1 => Some(MouseButton::Left),
            2 => Some(MouseButton::Middle),
            3 => Some(MouseButton::Right),
            4 => Some(MouseButton::ScrollUp),
            5 => Some(MouseButton::ScrollDown),
            _ => None,
        }
    }

    /// The detail code this button travels as on the wire.
    pub fn detail(self) -> (r: u8)
        ensures
            r == spec_button_detail(self),
    {
        match self {
            MouseButton::Left => 1,
            MouseButton::Middle => 2,
            MouseButton::Right => 3,
            MouseButton::ScrollUp => 4,
            MouseButton::ScrollDown => 5,
        }
    }
}

/// Encoding a button and decoding the result gives the button back, and a
/// detail byte that decodes at all decodes to the button that encodes to it:
/// the two directions of the wire mapping agree everywhere.
pub proof fn lemma_button_detail_round_trip(button: MouseButton, detail: u8)
    ensures
        spec_button_from_detail(spec_button_detail(button)) == Some(button),
        spec_button_from_detail(detail) matches Some(b) ==> spec_button_detail(b) == detail,
{
}

/// The 25 input-event classes a window can select, plus `NoEvent`.  Each
/// carries a distinct bit of the 32-bit event-mask word; a selection is
/// the bitwise OR of its classes' bits.
#[derive(Clone, Copy, Debug, PartialEq, Eq, Structural)]
pub enum EventMask {
    NoEvent,
    KeyPress,
    KeyRelease,
    ButtonPress,
    ButtonRelease,
    EnterWindow,
    LeaveWindow,
    PointerMotion,
    PointerMotionHint,
    Button1Motion,
    Button2Motion,
    Button3Motion,
    Button4Motion,
    Button5Motion,
    ButtonMotion,
    KeymapState,
    Exposure,
    VisibilityChange,
    StructureNotify,
    ResizeRedirect,
    SubstructureNotify,
    SubstructureRedirect,
    FocusChange,
    PropertyChange,
    ColorMapChange,
    OwnerGrabButton,
}

/// The mask bit of one event class: `NoEvent` is zero and each following
/// class carries the next power of two, up to `OwnerGrabButton` at 2^24.
pub open spec fn spec_mask_value(mask: EventMask) -> u32 {
    match mask {
        EventMask::NoEvent => 0,
        EventMask::KeyPress => 1,
        EventMask::KeyRelease => 2,
        EventMask::ButtonPress => 4,
        EventMask::ButtonRelease => 8,
        EventMask::EnterWindow => 16,
        EventMask::LeaveWindow => 32,
        EventMask::PointerMotion => 64,
        EventMask::PointerMotionHint => 128,
        EventMask::Button1Motion => 256,
        EventMask::Button2Motion => 512,
        EventMask::Button3Motion => 1024,
        EventMask::Button4Motion => 2048,
        EventMask::Button5Motion => 4096,
        EventMask::ButtonMotion => 8192,
        EventMask::KeymapState => 16384,
        EventMask::Exposure => 32768,
        EventMask::VisibilityChange => 65536,
        EventMask::StructureNotify => 131072,
        EventMask::ResizeRedirect => 262144,
        EventMask::SubstructureNotify => 524288,
        EventMask::SubstructureRedirect => 1048576,
        EventMask::FocusChange => 2097152,
        EventMask::PropertyChange => 4194304,
        EventMask::ColorMapChange => 8388608,
        EventMask::OwnerGrabButton => 16777216,
    }
}

/// The 32-bit mask word of a sequence of event classes: the bitwise OR of
/// their mask bits, zero for the empty sequence.
pub open spec fn spec_combine_masks(masks: Seq<EventMask>) -> u32
    decreases masks.len(),
{
    if masks.len() == 0 {
        0u32
    } else {
        spec_combine_masks(masks.drop_last()) | spec_mask_value(masks.last())
    }
}

impl EventMask {
    /// The mask bit of this event class.
    pub fn value(self) -> (r: u32)
        ensures
            r == spec_mask_value(self),
    {
        match self {
            EventMask::NoEvent => 0,
            EventMask::KeyPress => 1,
            EventMask::KeyRelease => 2,
            EventMask::ButtonPress => 4,
            EventMask::ButtonRelease => 8,
            EventMask::EnterWindow => 16,
            EventMask::LeaveWindow => 32,
            EventMask::PointerMotion => 64,
            EventMask::PointerMotionHint => 128,
            EventMask::Button1Motion => 256,
            EventMask::Button2Motion => 512,
            EventMask::Button3Motion => 1024,
            EventMask::Button4Motion => 2048,
            EventMask::Button5Motion => 4096,
            EventMask::ButtonMotion => 8192,
            EventMask::KeymapState => 16384,
            EventMask::Exposure => 32768,
            EventMask::VisibilityChange => 65536,
            EventMask::StructureNotify => 131072,
            EventMask::ResizeRedirect => 262144,
            EventMask::SubstructureNotify => 524288,
            EventMask::SubstructureRedirect => 1048576,
            EventMask::FocusChange => 2097152,
            EventMask::PropertyChange => 4194304,
            EventMask::ColorMapChange => 8388608,
            EventMask::OwnerGrabButton => 16777216,
        }
    }

    /// Folds a selection of event classes into the single 32-bit mask word
    /// that a change-window-attributes or grab request carries.
    pub fn combine(masks: &Vec<EventMask>) -> (r: u32)
        ensures
            r == spec_combine_masks(masks@),
    {
        let mut word: u32 = 0;
        let mut i: usize = 0;
        while i < masks.len()
            invariant
                i <= masks@.len(),
                word == spec_combine_masks(masks@.take(i as int)),
            decreases masks@.len() - i,
        {
            proof {
                assert(masks@.take(i + 1).drop_last() =~= masks@.take(i as int));
                assert(masks@.take(i + 1).last() == masks@[i as int]);
            }
            word = word | masks[i].value();
            i = i + 1;
        }
        proof {
            assert(masks@.take(masks@.len() as int) =~= masks@);
        }
        word
    }
}

/// A class already in a selection absorbs into its mask word: OR-ing its
/// bit once more changes nothing.
proof fn lemma_combine_absorbs(masks: Seq<EventMask>, mask: EventMask)
    requires
        masks.contains(mask),
    ensures
        spec_combine_masks(masks) | spec_mask_value(mask) == spec_combine_masks(masks),
    decreases masks.len(),
{
    let prefix = spec_combine_masks(masks.drop_last());
    let v = spec_mask_value(mask);
    let w = spec_mask_value(masks.last());
    if masks.last() == mask {
        assert((prefix | v) | v == prefix | v) by (bit_vector);
    } else {
        let i = choose|i: int| 0 <= i < masks.len() && masks[i] == mask;
        assert(masks.drop_last()[i] == mask);
        lemma_combine_absorbs(masks.drop_last(), mask);
        assert(prefix | v == prefix ==> (prefix | w) | v == prefix | w) by (bit_vector);
    }
}

/// Appending a class that a selection already contains leaves the combined
/// mask word unchanged: duplicates do not matter.
pub proof fn lemma_combine_duplicate(masks: Seq<EventMask>, mask: EventMask)
    requires
        masks.contains(mask),
    ensures
        spec_combine_masks(masks.push(mask)) == spec_combine_masks(masks),
{
    assert(masks.push(mask).drop_last() =~= masks);
    lemma_combine_absorbs(masks, mask);
}

/// One inbound X11 notification, lifted from its raw bytes into a tagged
/// value over plain window identifiers.
#[derive(Clone, Copy, Debug, PartialEq, Eq)]
pub enum Event {
    WindowCreated { window: u32 },
    WindowDestroyed { window: u32 },
    WindowConfigured { window: u32 },
    WindowMapped { window: u32 },
    WindowUnmapped { window: u32 },
    WindowConfigurationRequest { window: u32, rectangle: Rectangle },
    WindowMappingRequest { window: u32 },
    WindowReparented { window: u32 },
    MotionNotify { window: u32, x: i16, y: i16 },
    ButtonPressed { root_window: u32, child_window: Option<u32>, button: MouseButton },
    ButtonReleased { root_window: u32, child_window: Option<u32>, button: MouseButton },
    Unknown,
}

} // verus!
