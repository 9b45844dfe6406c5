use xcbwm::codec::{decode_event, decode_geometry_reply, encode_event, encode_geometry_reply};
use xcbwm::event::{Event, MouseButton};
use xcbwm::window::Geometry;
use xcbwm::Rectangle;

/// A 32-byte record with the given response code and a little-endian
/// 32-bit value written at `offset`.
fn record_with_u32(code: u8, offset: usize, value: u32) -> Vec<u8> {
    let mut raw = vec![0u8; 32];
    raw[0] = code;
    raw[offset] = (value & 0xff) as u8;
    raw[offset + 1] = ((value >> 8) & 0xff) as u8;
    raw[offset + 2] = ((value >> 16) & 0xff) as u8;
    raw[offset + 3] = (value >> 24) as u8;
    raw
}

fn put_u16(raw: &mut [u8], offset: usize, value: u16) {
    raw[offset] = (value & 0xff) as u8;
    raw[offset + 1] = (value >> 8) as u8;
}

fn put_i16(raw: &mut [u8], offset: usize, value: i16) {
    put_u16(raw, offset, value as u16);
}

#[test]
fn decode_window_notifications() {
    let cases: [(u8, fn(u32) -> Event); 8] = [
        (16, |w| Event::WindowCreated { window: w }),
        (17, |w| Event::WindowDestroyed { window: w }),
        (22, |w| Event::WindowConfigured { window: w }),
        (19, |w| Event::WindowMapped { window: w }),
        (18, |w| Event::WindowUnmapped { window: w }),
        (20, |w| Event::WindowMappingRequest { window: w }),
        (21, |w| Event::WindowReparented { window: w }),
        (23, |w| Event::WindowConfigurationRequest {
            window: w,
            rectangle: Rectangle { x: 0, y: 0, width: 0, height: 0 },
        }),
    ];
    for (code, make) in cases {
        let raw = record_with_u32(code, 8, 0xdeadbeef);
        assert_eq!(decode_event(&raw), Some(make(0xdeadbeef)));
    }
}

#[test]
fn decode_ignores_replay_bit() {
    let mut raw = record_with_u32(20, 8, 42);
    raw[0] = 20 | 0x80;
    assert_eq!(decode_event(&raw), Some(Event::WindowMappingRequest { window: 42 }));
}

#[test]
fn decode_configure_request_fields() {
    let mut raw = record_with_u32(23, 8, 7);
    put_i16(&mut raw, 16, -5);
    put_i16(&mut raw, 18, 100);
    put_u16(&mut raw, 20, 640);
    put_u16(&mut raw, 22, 480);
    assert_eq!(
        decode_event(&raw),
        Some(Event::WindowConfigurationRequest {
            window: 7,
            rectangle: Rectangle { x: -5, y: 100, width: 640, height: 480 },
        })
    );
}

#[test]
fn decode_motion_fields() {
    let mut raw = record_with_u32(6, 12, 55);
    put_i16(&mut raw, 20, -300);
    put_i16(&mut raw, 22, 200);
    assert_eq!(decode_event(&raw), Some(Event::MotionNotify { window: 55, x: -300, y: 200 }));
}

#[test]
fn decode_button_press_details() {
    let buttons = [
        (1u8, MouseButton::Left),
        (2, MouseButton::Middle),
        (3, MouseButton::Right),
        (4, MouseButton::ScrollUp),
        (5, MouseButton::ScrollDown),
    ];
    for (detail, button) in buttons {
        let mut raw = record_with_u32(4, 8, 1);
        raw[1] = detail;
        assert_eq!(
            decode_event(&raw),
            Some(Event::ButtonPressed { root_window: 1, child_window: None, button })
        );
    }
}

#[test]
fn decode_button_release_with_child() {
    let mut raw = record_with_u32(5, 8, 1);
    raw[1] = 3;
    // child window at offset 16
    raw[16] = 9;
    assert_eq!(
        decode_event(&raw),
        Some(Event::ButtonReleased {
            root_window: 1,
            child_window: Some(9),
            button: MouseButton::Right,
        })
    );
}

#[test]
fn unknown_button_detail_fails_fast() {
    for detail in [0u8, 6, 7, 255] {
        let mut press = record_with_u32(4, 8, 1);
        press[1] = detail;
        assert_eq!(decode_event(&press), None);
        let mut release = record_with_u32(5, 8, 1);
        release[1] = detail;
        assert_eq!(decode_event(&release), None);
    }
}

#[test]
fn unhandled_response_codes_decode_to_unknown() {
    for code in [0u8, 2, 3, 12, 34, 127] {
        let raw = record_with_u32(code, 8, 5);
        assert_eq!(decode_event(&raw), Some(Event::Unknown));
    }
}

#[test]
fn mouse_button_detail_mapping() {
    assert_eq!(MouseButton::from_detail(1), Some(MouseButton::Left));
    assert_eq!(MouseButton::from_detail(2), Some(MouseButton::Middle));
    assert_eq!(MouseButton::from_detail(3), Some(MouseButton::Right));
    assert_eq!(MouseButton::from_detail(4), Some(MouseButton::ScrollUp));
    assert_eq!(MouseButton::from_detail(5), Some(MouseButton::ScrollDown));
    assert_eq!(MouseButton::from_detail(0), None);
    assert_eq!(MouseButton::from_detail(6), None);
    assert_eq!(MouseButton::Left.detail(), 1);
    assert_eq!(MouseButton::ScrollDown.detail(), 5);
}

#[test]
fn encode_decode_round_trip() {
    let events = [
        Event::WindowCreated { window: 1 },
        Event::WindowDestroyed { window: u32::MAX },
        Event::WindowConfigured { window: 0 },
        Event::WindowMapped { window: 77 },
        Event::WindowUnmapped { window: 0x01020304 },
        Event::WindowConfigurationRequest {
            window: 9,
            rectangle: Rectangle { x: -1, y: i16::MIN, width: u16::MAX, height: 1 },
        },
        Event::WindowMappingRequest { window: 42 },
        Event::WindowReparented { window: 3 },
        Event::MotionNotify { window: 8, x: i16::MAX, y: -2 },
        Event::ButtonPressed { root_window: 1, child_window: None, button: MouseButton::Left },
        Event::ButtonPressed {
            root_window: 6,
            child_window: Some(12),
            button: MouseButton::ScrollUp,
        },
        Event::ButtonReleased { root_window: 1, child_window: Some(2), button: MouseButton::Left },
    ];
    for event in events {
        let raw = encode_event(&event).expect("event should have a wire record");
        assert_eq!(raw.len(), 32);
        assert_eq!(decode_event(&raw), Some(event));
    }
}

#[test]
fn unknown_and_zero_child_have_no_record() {
    assert!(encode_event(&Event::Unknown).is_none());
    let zero_child = Event::ButtonPressed {
        root_window: 1,
        child_window: Some(0),
        button: MouseButton::Left,
    };
    assert!(encode_event(&zero_child).is_none());
}

#[test]
fn geometry_reply_decoding() {
    let mut raw = vec![0u8; 32];
    raw[0] = 1;
    put_i16(&mut raw, 12, 10);
    put_i16(&mut raw, 14, 20);
    put_u16(&mut raw, 16, 300);
    put_u16(&mut raw, 18, 200);
    let geometry = decode_geometry_reply(&raw);
    assert_eq!(geometry.rectangle, Rectangle { x: 10, y: 20, width: 300, height: 200 });
}

#[test]
fn geometry_reply_round_trip() {
    let geometry = Geometry {
        rectangle: Rectangle { x: -17, y: 32767, width: 0, height: 65535 },
    };
    let raw = encode_geometry_reply(&geometry);
    assert_eq!(raw.len(), 32);
    assert_eq!(decode_geometry_reply(&raw), geometry);
}
