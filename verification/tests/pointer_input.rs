use composition_session::pointer_input::DeviceKind;
use composition_session::pointer_input::POINTER_FLAG_CONFIDENCE;
use composition_session::pointer_input::POINTER_FLAG_INCONTACT;
use composition_session::pointer_input::POINTER_FLAG_PRIMARY;
use composition_session::pointer_input::PenAction;
use composition_session::pointer_input::PointerAction;
use composition_session::pointer_input::WM_POINTERDOWN;
use composition_session::pointer_input::WM_POINTERENTER;
use composition_session::pointer_input::WM_POINTERLEAVE;
use composition_session::pointer_input::WM_POINTERUP;
use composition_session::pointer_input::WM_POINTERUPDATE;
use composition_session::pointer_input::classify_device;
use composition_session::pointer_input::classify_pen_action;
use composition_session::pointer_input::classify_pointer_action;
use composition_session::pointer_input::pointer_has_confidence;
use composition_session::pointer_input::pointer_id_of_param;
use composition_session::pointer_input::pointer_in_contact;
use composition_session::pointer_input::pointer_is_primary;

#[test]
fn pointer_id_is_the_low_word() {
    assert_eq!(pointer_id_of_param(0x0003), 3);
    assert_eq!(pointer_id_of_param(0xABCD_1234), 0x1234);
    assert_eq!(pointer_id_of_param(0xFFFF_FFFF_FFFF_FFFF), 0xFFFF);
}

#[test]
fn flag_tests_read_their_bits() {
    assert!(pointer_in_contact(POINTER_FLAG_INCONTACT));
    assert!(!pointer_in_contact(0));
    assert!(pointer_is_primary(POINTER_FLAG_PRIMARY | POINTER_FLAG_INCONTACT));
    assert!(!pointer_is_primary(POINTER_FLAG_INCONTACT));
    assert!(pointer_has_confidence(POINTER_FLAG_CONFIDENCE));
    assert!(!pointer_has_confidence(POINTER_FLAG_PRIMARY));
}

#[test]
fn device_codes_classify() {
    assert_eq!(classify_device(2), DeviceKind::Touch);
    assert_eq!(classify_device(3), DeviceKind::Pen);
    assert_eq!(classify_device(4), DeviceKind::Mouse);
    assert_eq!(classify_device(5), DeviceKind::Touchpad);
    assert_eq!(classify_device(1), DeviceKind::Other);
    assert_eq!(classify_device(0), DeviceKind::Other);
}

#[test]
fn pointer_messages_classify() {
    assert_eq!(classify_pointer_action(WM_POINTERDOWN), PointerAction::Down);
    assert_eq!(classify_pointer_action(WM_POINTERUP), PointerAction::Up);
    assert_eq!(classify_pointer_action(WM_POINTERUPDATE), PointerAction::Update);
    assert_eq!(classify_pointer_action(WM_POINTERENTER), PointerAction::Enter);
    assert_eq!(classify_pointer_action(WM_POINTERLEAVE), PointerAction::Leave);
    assert_eq!(classify_pointer_action(0x0200), PointerAction::Other);
}

#[test]
fn pen_reading_refines_by_contact() {
    assert_eq!(classify_pen_action(WM_POINTERENTER, false), PenAction::HoverEntered);
    assert_eq!(classify_pen_action(WM_POINTERLEAVE, false), PenAction::HoverLeft);
    assert_eq!(classify_pen_action(WM_POINTERUPDATE, true), PenAction::Move);
    assert_eq!(classify_pen_action(WM_POINTERUPDATE, false), PenAction::Hover);
    assert_eq!(classify_pen_action(WM_POINTERDOWN, true), PenAction::Down);
    assert_eq!(classify_pen_action(WM_POINTERUP, false), PenAction::Up);
    // enter and leave while in contact fall through to the plain reading
    assert_eq!(classify_pen_action(WM_POINTERENTER, true), PenAction::Other);
    assert_eq!(classify_pen_action(WM_POINTERLEAVE, true), PenAction::Other);
}
