use xcbwm::event::EventMask;

#[test]
fn mask_values_are_the_documented_bits() {
    assert_eq!(EventMask::NoEvent.value(), 0);
    assert_eq!(EventMask::KeyPress.value(), 1);
    assert_eq!(EventMask::KeyRelease.value(), 2);
    assert_eq!(EventMask::ButtonPress.value(), 4);
    assert_eq!(EventMask::ButtonRelease.value(), 8);
    assert_eq!(EventMask::EnterWindow.value(), 16);
    assert_eq!(EventMask::LeaveWindow.value(), 32);
    assert_eq!(EventMask::PointerMotion.value(), 64);
    assert_eq!(EventMask::PointerMotionHint.value(), 128);
    assert_eq!(EventMask::Button1Motion.value(), 256);
    assert_eq!(EventMask::Button2Motion.value(), 512);
    assert_eq!(EventMask::Button3Motion.value(), 1024);
    assert_eq!(EventMask::Button4Motion.value(), 2048);
    assert_eq!(EventMask::Button5Motion.value(), 4096);
    assert_eq!(EventMask::ButtonMotion.value(), 8192);
    assert_eq!(EventMask::KeymapState.value(), 16_384);
    assert_eq!(EventMask::Exposure.value(), 32_768);
    assert_eq!(EventMask::VisibilityChange.value(), 65_536);
    assert_eq!(EventMask::StructureNotify.value(), 131_072);
    assert_eq!(EventMask::ResizeRedirect.value(), 262_144);
    assert_eq!(EventMask::SubstructureNotify.value(), 524_288);
    assert_eq!(EventMask::SubstructureRedirect.value(), 1_048_576);
    assert_eq!(EventMask::FocusChange.value(), 2_097_152);
    assert_eq!(EventMask::PropertyChange.value(), 4_194_304);
    assert_eq!(EventMask::ColorMapChange.value(), 8_388_608);
    assert_eq!(EventMask::OwnerGrabButton.value(), 16_777_216);
}

#[test]
fn combine_is_bitwise_or() {
    assert_eq!(EventMask::combine(&vec![]), 0);
    assert_eq!(EventMask::combine(&vec![EventMask::NoEvent]), 0);
    assert_eq!(EventMask::combine(&vec![EventMask::KeyPress, EventMask::KeyRelease]), 3);
    assert_eq!(
        EventMask::combine(&vec![
            EventMask::SubstructureNotify,
            EventMask::SubstructureRedirect,
            EventMask::ButtonPress,
            EventMask::ButtonRelease,
        ]),
        524_288 | 1_048_576 | 4 | 8
    );
}

#[test]
fn combine_ignores_duplicates_and_order() {
    let once: u32 = EventMask::combine(&vec![EventMask::Exposure, EventMask::KeyPress]);
    let twice: u32 = EventMask::combine(&vec![
        EventMask::Exposure,
        EventMask::KeyPress,
        EventMask::Exposure,
        EventMask::Exposure,
    ]);
    let reversed: u32 = EventMask::combine(&vec![EventMask::KeyPress, EventMask::Exposure]);
    assert_eq!(once, twice);
    assert_eq!(once, reversed);
    assert_eq!(once, 32_768 | 1);
}
