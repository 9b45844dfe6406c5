use xcbwm::event::{Event, EventMask, MouseButton};
use xcbwm::window::Geometry;
use xcbwm::wm::{
    frame_rectangle, startup_event_mask, FramedClient, Request, WindowManager,
};
use xcbwm::Rectangle;

fn geometry(x: i16, y: i16, width: u16, height: u16) -> Geometry {
    Geometry { rectangle: Rectangle { x, y, width, height } }
}

#[test]
fn startup_mask_claims_substructure_and_buttons() {
    let word: u32 = EventMask::combine(&startup_event_mask());
    assert_eq!(word, 524_288 | 1_048_576 | 4 | 8);
}

#[test]
fn frame_adds_decoration_band() {
    let frame = frame_rectangle(Rectangle { x: -7, y: 3, width: 120, height: 80 });
    assert_eq!(frame, Rectangle { x: -7, y: 3, width: 120, height: 110 });
}

#[test]
fn map_request_emits_framing_sequence() {
    // A client asking to be mapped at (10, 20, 300, 200) is wrapped by a
    // frame at (10, 20, 300, 230) and reparented into it at (0, 30).
    let mut wm = WindowManager::new();
    let requests = wm.handle_map_request(42, geometry(10, 20, 300, 200), 99);
    assert_eq!(
        requests,
        vec![
            Request::CreateWindow {
                window: 99,
                rectangle: Rectangle { x: 10, y: 20, width: 300, height: 230 },
            },
            Request::MapWindow { window: 99 },
            Request::SetEventMask { window: 99, mask: 524_288 | 1_048_576 },
            Request::ReparentWindow { window: 42, parent: 99, x_offset: 0, y_offset: 30 },
            Request::MapWindow { window: 42 },
        ]
    );
    assert_eq!(wm.window_count(), 1);
    assert_eq!(wm.framed_client(0), FramedClient { frame: 99, client: 42 });
}

#[test]
fn configure_request_is_honored_verbatim() {
    let wm = WindowManager::new();
    let rectangle = Rectangle { x: 1, y: 2, width: 3, height: 4 };
    assert_eq!(
        wm.handle_configure_request(5, rectangle),
        Request::ConfigureWindow { window: 5, rectangle }
    );
}

#[test]
fn unmap_of_client_unmaps_its_frame() {
    let mut wm = WindowManager::new();
    wm.handle_map_request(42, geometry(0, 0, 10, 10), 99);
    assert_eq!(wm.handle_unmap(42), Some(Request::UnmapWindow { window: 99 }));
    // the pair stays in the table
    assert_eq!(wm.window_count(), 1);
}

#[test]
fn unmap_of_unmanaged_window_is_ignored() {
    let mut wm = WindowManager::new();
    wm.handle_map_request(42, geometry(0, 0, 10, 10), 99);
    // the frame itself unmapping is not a client unmap
    assert_eq!(wm.handle_unmap(99), None);
    assert_eq!(wm.handle_unmap(7), None);
}

#[test]
fn destroy_removes_pair_and_destroys_frame() {
    // [MapRequest c1; MapRequest c2; Destroy c1] leaves exactly the pair
    // of c2 and destroys the frame that wrapped c1.
    let mut wm = WindowManager::new();
    wm.handle_map_request(41, geometry(0, 0, 10, 10), 91);
    wm.handle_map_request(42, geometry(5, 5, 20, 20), 92);
    let requests = wm.handle_destroy(41);
    assert_eq!(requests, vec![Request::DestroyWindow { window: 91 }]);
    assert_eq!(wm.window_count(), 1);
    assert_eq!(wm.framed_client(0), FramedClient { frame: 92, client: 42 });
}

#[test]
fn destroy_of_unmanaged_window_changes_nothing() {
    let mut wm = WindowManager::new();
    wm.handle_map_request(41, geometry(0, 0, 10, 10), 91);
    let requests = wm.handle_destroy(7);
    assert!(requests.is_empty());
    assert_eq!(wm.window_count(), 1);
}

#[test]
fn left_press_grabs_and_records_frame() {
    let mut wm = WindowManager::new();
    wm.handle_map_request(42, geometry(0, 0, 10, 10), 99);
    let r = wm.handle_button_press(MouseButton::Left, Some(99));
    assert_eq!(r, Some(Request::GrabPointer));
    assert_eq!(wm.drag_target(), Some(99));
    assert_eq!(wm.drag_anchor(), None);
}

#[test]
fn other_button_press_is_ignored() {
    let mut wm = WindowManager::new();
    let r = wm.handle_button_press(MouseButton::Right, Some(5));
    assert_eq!(r, None);
    assert_eq!(wm.drag_target(), None);
}

#[test]
fn drag_moves_frame_by_pointer_delta() {
    // Frame at (100, 100, 200, 230): press, anchoring motion at
    // (150, 150), then motion to (160, 155) configures the frame to
    // (110, 105, 200, 230); the release clears the drag state.
    let mut wm = WindowManager::new();
    wm.handle_map_request(42, geometry(100, 100, 200, 200), 99);
    wm.handle_button_press(MouseButton::Left, Some(99));

    let first = wm.handle_motion(150, 150, None);
    assert_eq!(first, None);
    assert_eq!(wm.drag_anchor(), Some((150, 150)));

    let second = wm.handle_motion(160, 155, Some(geometry(100, 100, 200, 230)));
    assert_eq!(
        second,
        Some(Request::ConfigureWindow {
            window: 99,
            rectangle: Rectangle { x: 110, y: 105, width: 200, height: 230 },
        })
    );
    assert_eq!(wm.drag_anchor(), Some((160, 155)));

    let released = wm.handle_button_release(MouseButton::Left);
    assert_eq!(released, Some(Request::UngrabPointer));
    assert_eq!(wm.drag_anchor(), None);
    assert_eq!(wm.drag_target(), None);
}

#[test]
fn drag_produces_one_configure_per_moving_motion() {
    // Press on frameX, motion (100, 100), motion (105, 110): exactly one
    // configure, with position delta (+5, +10).
    let mut wm = WindowManager::new();
    wm.handle_map_request(7, geometry(0, 0, 50, 50), 33);
    wm.handle_button_press(MouseButton::Left, Some(33));
    let mut configures = Vec::new();
    if let Some(r) = wm.handle_motion(100, 100, None) {
        configures.push(r);
    }
    if let Some(r) = wm.handle_motion(105, 110, Some(geometry(0, 0, 50, 80))) {
        configures.push(r);
    }
    assert_eq!(
        configures,
        vec![Request::ConfigureWindow {
            window: 33,
            rectangle: Rectangle { x: 5, y: 10, width: 50, height: 80 },
        }]
    );
}

#[test]
fn motion_without_drag_configures_nothing() {
    let mut wm = WindowManager::new();
    let r = wm.handle_motion(100, 100, None);
    assert_eq!(r, None);
    // the anchor is still recorded
    assert_eq!(wm.drag_anchor(), Some((100, 100)));
}

#[test]
fn release_of_other_button_keeps_drag() {
    let mut wm = WindowManager::new();
    wm.handle_map_request(42, geometry(0, 0, 10, 10), 99);
    wm.handle_button_press(MouseButton::Left, Some(99));
    assert_eq!(wm.handle_button_release(MouseButton::Middle), None);
    assert_eq!(wm.drag_target(), Some(99));
}

#[test]
fn event_dispatch_matches_handlers() {
    let mut wm = WindowManager::new();

    let mapped = wm.handle_event(
        &Event::WindowMappingRequest { window: 42 },
        Some(geometry(10, 20, 300, 200)),
        Some(99),
    );
    assert_eq!(mapped.len(), 5);
    assert_eq!(
        mapped[0],
        Request::CreateWindow {
            window: 99,
            rectangle: Rectangle { x: 10, y: 20, width: 300, height: 230 },
        }
    );

    let configured = wm.handle_event(
        &Event::WindowConfigurationRequest {
            window: 42,
            rectangle: Rectangle { x: 0, y: 0, width: 5, height: 5 },
        },
        None,
        None,
    );
    assert_eq!(
        configured,
        vec![Request::ConfigureWindow {
            window: 42,
            rectangle: Rectangle { x: 0, y: 0, width: 5, height: 5 },
        }]
    );

    let ignored = wm.handle_event(&Event::WindowCreated { window: 1 }, None, None);
    assert!(ignored.is_empty());
    let unknown = wm.handle_event(&Event::Unknown, None, None);
    assert!(unknown.is_empty());

    let destroyed = wm.handle_event(&Event::WindowDestroyed { window: 42 }, None, None);
    assert_eq!(destroyed, vec![Request::DestroyWindow { window: 99 }]);
    assert_eq!(wm.window_count(), 0);
}
