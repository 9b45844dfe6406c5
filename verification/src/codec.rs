//! Byte-level codec for the X11 wire structures this crate consumes.
//!
//! Every event the server delivers is a 32-byte record whose first byte
//! carries the response code in its low seven bits; the high bit marks a
//! replayed event and is ignored.  The decoder lifts such a record into a
//! tagged [`Event`](crate::event::Event); the encoders build records that
//! decode back to a given event, which pins the decoder down and lets a
//! harness synthesise server traffic.  Get-geometry replies, 32-byte
//! records as well, are decoded the same way.

use vstd::prelude::*;
use crate::Rectangle;
use crate::event::{Event, MouseButton, spec_button_from_detail};
use crate::window::Geometry;

verus! {

/// The unsigned 16-bit value little-endian bytes `lo`, `hi` carry.
pub open spec fn spec_u16_le(lo: u8, hi: u8) -> u16 {
    (lo + 256 * hi) as u16
}

/// The signed 16-bit value little-endian bytes `lo`, `hi` carry, read as
/// two's complement.
pub open spec fn spec_i16_le(lo: u8, hi: u8) -> i16 {
    if hi < 128 {
        (lo + 256 * hi) as i16
    } else {
        (lo + 256 * hi - 65536) as i16
    }
}

/// The unsigned 32-bit value little-endian bytes `b0` through `b3` carry.
pub open spec fn spec_u32_le(b0: u8, b1: u8, b2: u8, b3: u8) -> u32 {
    (b0 + 256 * b1 + 65536 * b2 + 16777216 * b3) as u32
}

/// Reads an unsigned 16-bit little-endian field at offset `i`.
fn read_u16_le(raw: &[u8], i: usize) -> (r: u16)
    requires
        i + 2 <= raw@.len(),
    ensures
        r == spec_u16_le(raw@[i as int], raw@[i + 1]),
{
    raw[i] as u16 + 256 * (raw[i + 1] as u16)
}

/// Reads a signed 16-bit little-endian field at offset `i`.
fn read_i16_le(raw: &[u8], i: usize) -> (r: i16)
    requires
        i + 2 <= raw@.len(),
    ensures
        r == spec_i16_le(raw@[i as int], raw@[i + 1]),
{
    let v: u16 = read_u16_le(raw, i);
    if v < 32768 {
        v as i16
    } else {
        ((v as i32) - 65536) as i16
    }
}

/// Reads an unsigned 32-bit little-endian field at offset `i`.
fn read_u32_le(raw: &[u8], i: usize) -> (r: u32)
    requires
        i + 4 <= raw@.len(),
    ensures
        r == spec_u32_le(raw@[i as int], raw@[i + 1], raw@[i + 2], raw@[i + 3]),
{
    raw[i] as u32 + 256 * (raw[i + 1] as u32) + 65536 * (raw[i + 2] as u32) + 16777216 * (raw
        [i + 3] as u32)
}

/// The window identifier most notification records carry at offset 8.
pub open spec fn spec_window_field(raw: Seq<u8>) -> u32 {
    spec_u32_le(raw[8], raw[9], raw[10], raw[11])
}

/// The event a 32-byte raw record decodes to, or `None` when the record is
/// a button press or release whose detail byte names no known button.
///
/// The low seven bits of the first byte select the response type; records
/// whose type the window manager does not handle decode to `Unknown`.
pub open spec fn spec_decode_event(raw: Seq<u8>) -> Option<Event>
    recommends
        raw.len() == 32,
{
    let code = raw[0] & 0x7f;
    if code == 16 {
        Some(Event::WindowCreated { window: spec_window_field(raw) })
    } else if code == 17 {
        Some(Event::WindowDestroyed { window: spec_window_field(raw) })
    } else if code == 22 {
        Some(Event::WindowConfigured { window: spec_window_field(raw) })
    } else if code == 19 {
        Some(Event::WindowMapped { window: spec_window_field(raw) })
    } else if code == 18 {
        Some(Event::WindowUnmapped { window: spec_window_field(raw) })
    } else if code == 23 {
        Some(
            Event::WindowConfigurationRequest {
                window: spec_window_field(raw),
                rectangle: Rectangle {
                    x: spec_i16_le(raw[16], raw[17]),
                    y: spec_i16_le(raw[18], raw[19]),
                    width: spec_u16_le(raw[20], raw[21]),
                    height: spec_u16_le(raw[22], raw[23]),
                },
            },
        )
    } else if code == 20 {
        Some(Event::WindowMappingRequest { window: spec_window_field(raw) })
    } else if code == 21 {
        Some(Event::WindowReparented { window: spec_window_field(raw) })
    } else if code == 6 {
        Some(
            Event::MotionNotify {
                window: spec_u32_le(raw[12], raw[13], raw[14], raw[15]),
                x: spec_i16_le(raw[20], raw[21]),
                y: spec_i16_le(raw[22], raw[23]),
            },
        )
    } else if code == 4 || code == 5 {
        match spec_button_from_detail(raw[1]) {
            Some(button) => {
                let root_window = spec_window_field(raw);
                let child = spec_u32_le(raw[16], raw[17], raw[18], raw[19]);
                let child_window: Option<u32> = if child == 0 {
                    None
                } else {
                    Some(child)
                };
                if code == 4 {
                    Some(Event::ButtonPressed { root_window, child_window, button })
                } else {
                    Some(Event::ButtonReleased { root_window, child_window, button })
                }
            },
            None => None,
        }
    } else {
        Some(Event::Unknown)
    }
}

/// Decodes one 32-byte raw event record.
///
/// Returns the tagged event, with the record's fields preserved, for every
/// record except a button press or release whose detail byte names no
/// button 1 through 5; for those it returns `None`, on which a caller
/// fails fast, since an unknown button is a protocol error.
pub fn decode_event(raw: &[u8]) -> (r: Option<Event>)
    requires
        raw@.len() == 32,
    ensures
        r == spec_decode_event(raw@),
{
    let code: u8 = raw[0] & 0x7f;
    if code == 16 {
        Some(Event::WindowCreated { window: read_u32_le(raw, 8) })
    } else if code == 17 {
        Some(Event::WindowDestroyed { window: read_u32_le(raw, 8) })
    } else if code == 22 {
        Some(Event::WindowConfigured { window: read_u32_le(raw, 8) })
    } else if code == 19 {
        Some(Event::WindowMapped { window: read_u32_le(raw, 8) })
    } else if code == 18 {
        Some(Event::WindowUnmapped { window: read_u32_le(raw, 8) })
    } else if code == 23 {
        Some(
            Event::WindowConfigurationRequest {
                window: read_u32_le(raw, 8),
                rectangle: Rectangle {
                    x: read_i16_le(raw, 16),
                    y: read_i16_le(raw, 18),
                    width: read_u16_le(raw, 20),
                    height: read_u16_le(raw, 22),
                },
            },
        )
    } else if code == 20 {
        Some(Event::WindowMappingRequest { window: read_u32_le(raw, 8) })
    } else if code == 21 {
        Some(Event::WindowReparented { window: read_u32_le(raw, 8) })
    } else if code == 6 {
        Some(
            Event::MotionNotify {
                window: read_u32_le(raw, 12),
                x: read_i16_le(raw, 20),
                y: read_i16_le(raw, 22),
            },
        )
    } else if code == 4 || code == 5 {
        match MouseButton::from_detail(raw[1]) {
            Some(button) => {
                let root_window = read_u32_le(raw, 8);
                let child = read_u32_le(raw, 16);
                let child_window: Option<u32> = if child == 0 {
                    None
                } else {
                    Some(child)
                };
                if code == 4 {
                    Some(Event::ButtonPressed { root_window, child_window, button })
                } else {
                    Some(Event::ButtonReleased { root_window, child_window, button })
                }
            },
            None => None,
        }
    } else {
        Some(Event::Unknown)
    }
}

/// The geometry a 32-byte get-geometry reply record carries: position at
/// offsets 12 and 14, extent at 16 and 18.
pub open spec fn spec_decode_geometry_reply(raw: Seq<u8>) -> Geometry
    recommends
        raw.len() == 32,
{
    Geometry {
        rectangle: Rectangle {
            x: spec_i16_le(raw[12], raw[13]),
            y: spec_i16_le(raw[14], raw[15]),
            width: spec_u16_le(raw[16], raw[17]),
            height: spec_u16_le(raw[18], raw[19]),
        },
    }
}

/// Decodes a 32-byte get-geometry reply record into the window's geometry.
pub fn decode_geometry_reply(raw: &[u8]) -> (r: Geometry)
    requires
        raw@.len() == 32,
    ensures
        r == spec_decode_geometry_reply(raw@),
{
    Geometry {
        rectangle: Rectangle {
            x: read_i16_le(raw, 12),
            y: read_i16_le(raw, 14),
            width: read_u16_le(raw, 16),
            height: read_u16_le(raw, 18),
        },
    }
}

/// Splits an unsigned 16-bit value into little-endian bytes.
fn split_u16(v: u16) -> (r: (u8, u8))
    ensures
        spec_u16_le(r.0, r.1) == v,
{
    proof {
        assert(v == 256 * (v / 256) + (v % 256)) by (nonlinear_arith);
        assert(v % 256 < 256) by (nonlinear_arith);
        assert(v / 256 < 256) by (nonlinear_arith);
    }
    ((v % 256) as u8, (v / 256) as u8)
}

/// Splits a signed 16-bit value into little-endian two's-complement bytes.
fn split_i16(v: i16) -> (r: (u8, u8))
    ensures
        spec_i16_le(r.0, r.1) == v,
{
    let n: u16 = if v >= 0 {
        v as u16
    } else {
        ((v as i32) + 65536) as u16
    };
    let (lo, hi) = split_u16(n);
    proof {
        assert(lo + 256 * hi == n);
        if v >= 0 {
            assert(hi < 128);
        } else {
            assert(hi >= 128);
        }
    }
    (lo, hi)
}

/// Splits an unsigned 32-bit value into little-endian bytes.
fn split_u32(v: u32) -> (r: (u8, u8, u8, u8))
    ensures
        spec_u32_le(r.0, r.1, r.2, r.3) == v,
{
    let b0: u8 = (v % 256) as u8;
    let r1: u32 = v / 256;
    let b1: u8 = (r1 % 256) as u8;
    let r2: u32 = r1 / 256;
    let b2: u8 = (r2 % 256) as u8;
    let b3: u8 = (r2 / 256) as u8;
    proof {
        assert(v == 256 * (v / 256) + (v % 256) && v % 256 < 256 && v / 256 < 16777216)
            by (nonlinear_arith);
        assert(r1 == 256 * (r1 / 256) + (r1 % 256) && r1 % 256 < 256 && r1 / 256 < 65536)
            by (nonlinear_arith)
            requires
                r1 < 16777216,
        ;
        assert(r2 == 256 * (r2 / 256) + (r2 % 256) && r2 % 256 < 256 && r2 / 256 < 256)
            by (nonlinear_arith)
            requires
                r2 < 65536,
        ;
    }
    (b0, b1, b2, b3)
}

/// Appends `n` zero bytes.
fn push_zeros(buf: &mut Vec<u8>, n: usize)
    requires
        old(buf)@.len() + n <= usize::MAX,
    ensures
        final(buf)@.len() == old(buf)@.len() + n,
        forall|i: int| 0 <= i < old(buf)@.len() ==> final(buf)@[i] == old(buf)@[i],
        forall|i: int|
            old(buf)@.len() <= i < old(buf)@.len() + n ==> final(buf)@[i] == 0u8,
{
    let ghost base = buf@;
    let mut i: usize = 0;
    while i < n
        invariant
            i <= n,
            base.len() + n <= usize::MAX,
            buf@.len() == base.len() + i,
            forall|j: int| 0 <= j < base.len() ==> buf@[j] == base[j],
            forall|j: int| base.len() <= j < base.len() + i ==> buf@[j] == 0u8,
        decreases n - i,
    {
        buf.push(0u8);
        i = i + 1;
    }
}

/// Appends an unsigned 16-bit value as little-endian bytes.
fn push_u16_le(buf: &mut Vec<u8>, v: u16)
    requires
        old(buf)@.len() + 2 <= usize::MAX,
    ensures
        final(buf)@.len() == old(buf)@.len() + 2,
        forall|i: int| 0 <= i < old(buf)@.len() ==> final(buf)@[i] == old(buf)@[i],
        spec_u16_le(final(buf)@[old(buf)@.len() as int], final(buf)@[old(buf)@.len() as int + 1]) == v,
{
    let (lo, hi) = split_u16(v);
    buf.push(lo);
    buf.push(hi);
}

/// Appends a signed 16-bit value as little-endian two's-complement bytes.
fn push_i16_le(buf: &mut Vec<u8>, v: i16)
    requires
        old(buf)@.len() + 2 <= usize::MAX,
    ensures
        final(buf)@.len() == old(buf)@.len() + 2,
        forall|i: int| 0 <= i < old(buf)@.len() ==> final(buf)@[i] == old(buf)@[i],
        spec_i16_le(final(buf)@[old(buf)@.len() as int], final(buf)@[old(buf)@.len() as int + 1]) == v,
{
    let (lo, hi) = split_i16(v);
    buf.push(lo);
    buf.push(hi);
}

/// Appends an unsigned 32-bit value as little-endian bytes.
fn push_u32_le(buf: &mut Vec<u8>, v: u32)
    requires
        old(buf)@.len() + 4 <= usize::MAX,
    ensures
        final(buf)@.len() == old(buf)@.len() + 4,
        forall|i: int| 0 <= i < old(buf)@.len() ==> final(buf)@[i] == old(buf)@[i],
        spec_u32_le(
            final(buf)@[old(buf)@.len() as int],
            final(buf)@[old(buf)@.len() as int + 1],
            final(buf)@[old(buf)@.len() as int + 2],
            final(buf)@[old(buf)@.len() as int + 3],
        ) == v,
{
    let (b0, b1, b2, b3) = split_u32(v);
    buf.push(b0);
    buf.push(b1);
    buf.push(b2);
    buf.push(b3);
}

/// A 32-byte record of the common notification shape: the response code in
/// byte 0 and a window identifier at offset 8.
fn window_record(code: u8, window: u32) -> (r: Vec<u8>)
    ensures
        r@.len() == 32,
        r@[0] == code,
        spec_window_field(r@) == window,
{
    let mut buf: Vec<u8> = Vec::new();
    buf.push(code);
    push_zeros(&mut buf, 7);
    assert(buf@[0] == code);
    push_u32_le(&mut buf, window);
    assert(buf@[0] == code);
    push_zeros(&mut buf, 20);
    assert(buf@[0] == code);
    assert(spec_u32_le(buf@[8], buf@[9], buf@[10], buf@[11]) == window);
    buf
}

/// A 32-byte configure-request record: window at offset 8 and the
/// requested rectangle at offsets 16 through 23.
fn configure_request_record(window: u32, rectangle: Rectangle) -> (r: Vec<u8>)
    ensures
        r@.len() == 32,
        r@[0] == 23,
        spec_window_field(r@) == window,
        spec_i16_le(r@[16], r@[17]) == rectangle.x,
        spec_i16_le(r@[18], r@[19]) == rectangle.y,
        spec_u16_le(r@[20], r@[21]) == rectangle.width,
        spec_u16_le(r@[22], r@[23]) == rectangle.height,
{
    let mut buf: Vec<u8> = Vec::new();
    buf.push(23u8);
    push_zeros(&mut buf, 7);
    push_u32_le(&mut buf, window);
    assert(buf@[0] == 23);
    push_zeros(&mut buf, 4);
    push_i16_le(&mut buf, rectangle.x);
    push_i16_le(&mut buf, rectangle.y);
    push_u16_le(&mut buf, rectangle.width);
    push_u16_le(&mut buf, rectangle.height);
    assert(buf@[0] == 23 && spec_u32_le(buf@[8], buf@[9], buf@[10], buf@[11]) == window);
    push_zeros(&mut buf, 8);
    assert(buf@[0] == 23);
    assert(spec_u32_le(buf@[8], buf@[9], buf@[10], buf@[11]) == window);
    assert(spec_i16_le(buf@[16], buf@[17]) == rectangle.x);
    assert(spec_i16_le(buf@[18], buf@[19]) == rectangle.y);
    assert(spec_u16_le(buf@[20], buf@[21]) == rectangle.width);
    assert(spec_u16_le(buf@[22], buf@[23]) == rectangle.height);
    buf
}

/// A 32-byte motion record: the event window at offset 12 and the
/// root-relative pointer position at offsets 20 and 22.
fn motion_record(window: u32, x: i16, y: i16) -> (r: Vec<u8>)
    ensures
        r@.len() == 32,
        r@[0] == 6,
        spec_u32_le(r@[12], r@[13], r@[14], r@[15]) == window,
        spec_i16_le(r@[20], r@[21]) == x,
        spec_i16_le(r@[22], r@[23]) == y,
{
    let mut buf: Vec<u8> = Vec::new();
    buf.push(6u8);
    push_zeros(&mut buf, 11);
    push_u32_le(&mut buf, window);
    assert(buf@[0] == 6);
    push_zeros(&mut buf, 4);
    push_i16_le(&mut buf, x);
    push_i16_le(&mut buf, y);
    assert(buf@[0] == 6 && spec_u32_le(buf@[12], buf@[13], buf@[14], buf@[15]) == window);
    push_zeros(&mut buf, 8);
    assert(buf@[0] == 6);
    assert(spec_u32_le(buf@[12], buf@[13], buf@[14], buf@[15]) == window);
    assert(spec_i16_le(buf@[20], buf@[21]) == x);
    assert(spec_i16_le(buf@[22], buf@[23]) == y);
    buf
}

/// A 32-byte button record: the detail byte at offset 1, the root window
/// at offset 8 and the child window (zero for none) at offset 16.
fn button_record(code: u8, detail: u8, root_window: u32, child: u32) -> (r: Vec<u8>)
    ensures
        r@.len() == 32,
        r@[0] == code,
        r@[1] == detail,
        spec_window_field(r@) == root_window,
        spec_u32_le(r@[16], r@[17], r@[18], r@[19]) == child,
{
    let mut buf: Vec<u8> = Vec::new();
    buf.push(code);
    buf.push(detail);
    push_zeros(&mut buf, 6);
    push_u32_le(&mut buf, root_window);
    assert(buf@[0] == code && buf@[1] == detail);
    push_zeros(&mut buf, 4);
    push_u32_le(&mut buf, child);
    assert(buf@[0] == code && buf@[1] == detail);
    assert(spec_u32_le(buf@[8], buf@[9], buf@[10], buf@[11]) == root_window);
    push_zeros(&mut buf, 12);
    assert(buf@[0] == code && buf@[1] == detail);
    assert(spec_u32_le(buf@[8], buf@[9], buf@[10], buf@[11]) == root_window);
    assert(spec_u32_le(buf@[16], buf@[17], buf@[18], buf@[19]) == child);
    buf
}

/// Whether an event has a 32-byte record that decodes back to it.
///
/// `Unknown` does not: it stands for every record the decoder sets aside.
/// A button event whose child window is identifier zero does not either:
/// zero is the wire's encoding of "no child".
pub open spec fn spec_event_encodable(event: Event) -> bool {
    match event {
        Event::Unknown => false,
        Event::ButtonPressed { child_window, .. } => child_window != Some(0u32),
        Event::ButtonReleased { child_window, .. } => child_window != Some(0u32),
        _ => true,
    }
}

/// Builds a 32-byte raw record that decodes to the given event, field for
/// field, or `None` where no record can (see [`spec_event_encodable`]).
/// Together with [`decode_event`]'s contract this is the decoding round
/// trip: synthesising a record with known fields and decoding it yields
/// the event with the fields preserved.
pub fn encode_event(event: &Event) -> (r: Option<Vec<u8>>)
    ensures
        r is Some <==> spec_event_encodable(*event),
        r matches Some(buf) ==> buf@.len() == 32 && spec_decode_event(buf@) == Some(*event),
{
    proof {
        assert(16u8 & 0x7f == 16u8) by (bit_vector);
        assert(17u8 & 0x7f == 17u8) by (bit_vector);
        assert(22u8 & 0x7f == 22u8) by (bit_vector);
        assert(19u8 & 0x7f == 19u8) by (bit_vector);
        assert(18u8 & 0x7f == 18u8) by (bit_vector);
        assert(23u8 & 0x7f == 23u8) by (bit_vector);
        assert(20u8 & 0x7f == 20u8) by (bit_vector);
        assert(21u8 & 0x7f == 21u8) by (bit_vector);
        assert(6u8 & 0x7f == 6u8) by (bit_vector);
        assert(4u8 & 0x7f == 4u8) by (bit_vector);
        assert(5u8 & 0x7f == 5u8) by (bit_vector);
    }
    match event {
        Event::WindowCreated { window } => Some(window_record(16, *window)),
        Event::WindowDestroyed { window } => Some(window_record(17, *window)),
        Event::WindowConfigured { window } => Some(window_record(22, *window)),
        Event::WindowMapped { window } => Some(window_record(19, *window)),
        Event::WindowUnmapped { window } => Some(window_record(18, *window)),
        Event::WindowConfigurationRequest { window, rectangle } => Some(
            configure_request_record(*window, *rectangle),
        ),
        Event::WindowMappingRequest { window } => Some(window_record(20, *window)),
        Event::WindowReparented { window } => Some(window_record(21, *window)),
        Event::MotionNotify { window, x, y } => Some(motion_record(*window, *x, *y)),
        Event::ButtonPressed { root_window, child_window, button } => {
            let child: u32 = match child_window {
                None => 0,
                Some(c) => *c,
            };
            if child_window.is_some() && child == 0 {
                None
            } else {
                proof {
                    crate::event::lemma_button_detail_round_trip(*button, 0);
                }
                Some(button_record(4, button.detail(), *root_window, child))
            }
        },
        Event::ButtonReleased { root_window, child_window, button } => {
            let child: u32 = match child_window {
                None => 0,
                Some(c) => *c,
            };
            if child_window.is_some() && child == 0 {
                None
            } else {
                proof {
                    crate::event::lemma_button_detail_round_trip(*button, 0);
                }
                Some(button_record(5, button.detail(), *root_window, child))
            }
        },
        Event::Unknown => None,
    }
}

/// Builds a 32-byte get-geometry reply record that decodes to the given
/// geometry: the replies' decoding round trip.
pub fn encode_geometry_reply(geometry: &Geometry) -> (r: Vec<u8>)
    ensures
        r@.len() == 32,
        spec_decode_geometry_reply(r@) == *geometry,
{
    let mut buf: Vec<u8> = Vec::new();
    buf.push(1u8);
    push_zeros(&mut buf, 11);
    push_i16_le(&mut buf, geometry.rectangle.x);
    push_i16_le(&mut buf, geometry.rectangle.y);
    push_u16_le(&mut buf, geometry.rectangle.width);
    push_u16_le(&mut buf, geometry.rectangle.height);
    assert(spec_i16_le(buf@[12], buf@[13]) == geometry.rectangle.x);
    assert(spec_i16_le(buf@[14], buf@[15]) == geometry.rectangle.y);
    push_zeros(&mut buf, 12);
    assert(spec_i16_le(buf@[12], buf@[13]) == geometry.rectangle.x);
    assert(spec_i16_le(buf@[14], buf@[15]) == geometry.rectangle.y);
    assert(spec_u16_le(buf@[16], buf@[17]) == geometry.rectangle.width);
    assert(spec_u16_le(buf@[18], buf@[19]) == geometry.rectangle.height);
    buf
}

/// Masking the replay bit out of a record's first byte never changes what
/// the record decodes to: the decoder reads only the low seven bits.
pub proof fn lemma_decode_ignores_replay_bit(raw: Seq<u8>)
    requires
        raw.len() == 32,
    ensures
        spec_decode_event(raw.update(0, raw[0] | 0x80)) == spec_decode_event(raw),
{
    let b = raw[0];
    let marked = raw.update(0, b | 0x80);
    assert((b | 0x80) & 0x7f == b & 0x7f) by (bit_vector);
    assert(forall|i: int| 1 <= i < 32 ==> marked[i] == raw[i]);
}

} // verus!
