use xcbwm::window::{configure_values, Geometry, WindowAttributes};
use xcbwm::Rectangle;

#[test]
fn configure_values_widen_in_protocol_order() {
    let values = configure_values(Rectangle { x: 1, y: 2, width: 3, height: 4 });
    assert_eq!(values, vec![1, 2, 3, 4]);
}

#[test]
fn configure_values_keep_two_complement_positions() {
    let values = configure_values(Rectangle { x: -1, y: -300, width: 65535, height: 0 });
    assert_eq!(values, vec![0xffff_ffff, (-300i32) as u32, 65535, 0]);
}

#[test]
fn attributes_are_a_placeholder() {
    let attributes = WindowAttributes {};
    assert_eq!(attributes, WindowAttributes {});
    let geometry = Geometry { rectangle: Rectangle { x: 0, y: 0, width: 1, height: 1 } };
    assert_eq!(geometry.rectangle.width, 1);
}
