use rylus::enigo::{enigo_button_action, enigo_key, enigo_key_actions, enigo_scroll, EnigoButton, EnigoKey, KeyAction};
use rylus::protocol::{Button, KeyboardEvent, KeyboardEventType, KeyboardLocation, PointerEventType};
use rylus::wininput::{
    mouse_flags, pointer_flags, TouchContacts, MOUSEEVENTF_LEFTDOWN, MOUSEEVENTF_LEFTUP, MOUSEEVENTF_MIDDLEUP,
    POINTER_CHANGE_FIRSTBUTTON_DOWN, POINTER_CHANGE_NONE, POINTER_FLAG_CANCELED, POINTER_FLAG_DOWN,
    POINTER_FLAG_INCONTACT, POINTER_FLAG_INRANGE, POINTER_FLAG_PRIMARY, POINTER_FLAG_UP, POINTER_FLAG_UPDATE,
};

fn key_event(t: KeyboardEventType, code: &str, key: &str, ctrl: bool, shift: bool) -> KeyboardEvent {
    KeyboardEvent {
        event_type: t,
        code: code.to_string(),
        key: key.to_string(),
        location: KeyboardLocation::STANDARD,
        alt: false,
        ctrl,
        shift,
        meta: false,
    }
}

#[test]
fn enigo_key_map() {
    assert_eq!(enigo_key("Enter"), Some(EnigoKey::Return));
    assert_eq!(enigo_key("NumpadEnter"), Some(EnigoKey::Return));
    assert_eq!(enigo_key("MetaRight"), Some(EnigoKey::Meta));
    assert_eq!(enigo_key("AudioVolumeUp"), Some(EnigoKey::VolumeUp));
    assert_eq!(enigo_key("F24"), Some(EnigoKey::F24));
    assert_eq!(enigo_key("KeyA"), None);
}

#[test]
fn enigo_modifiers_then_key() {
    let actions = enigo_key_actions(&key_event(KeyboardEventType::UP, "Tab", "\t", true, true));
    assert_eq!(
        actions,
        vec![
            KeyAction { key: EnigoKey::Control, press: false },
            KeyAction { key: EnigoKey::Shift, press: false },
            KeyAction { key: EnigoKey::Tab, press: false },
        ]
    );
    let actions = enigo_key_actions(&key_event(KeyboardEventType::REPEAT, "Space", " ", false, false));
    assert_eq!(actions, vec![KeyAction { key: EnigoKey::Space, press: true }]);
}

#[test]
fn enigo_unmapped_key_types_its_text() {
    let actions = enigo_key_actions(&key_event(KeyboardEventType::DOWN, "KeyQ", "qé", true, false));
    assert_eq!(
        actions,
        vec![
            KeyAction { key: EnigoKey::Unicode('q'), press: true },
            KeyAction { key: EnigoKey::Unicode('é'), press: true },
        ]
    );
    assert!(enigo_key_actions(&key_event(KeyboardEventType::UP, "KeyQ", "q", false, false)).is_empty());
}

#[test]
fn enigo_buttons_and_scroll() {
    assert_eq!(enigo_button_action(Button::PRIMARY, Button::PRIMARY), Some((EnigoButton::Left, true)));
    assert_eq!(enigo_button_action(Button::SECONDARY, Button::NONE), Some((EnigoButton::Right, false)));
    assert_eq!(enigo_button_action(Button::AUXILARY, Button::from_bits(0b101).unwrap()), Some((EnigoButton::Middle, true)));
    assert_eq!(enigo_button_action(Button::ERASER, Button::ERASER), None);
    assert_eq!(enigo_scroll(0, 120), (Some(-120), None));
    assert_eq!(enigo_scroll(-3, 0), (None, Some(-3)));
    assert_eq!(enigo_scroll(0, 0), (None, None));
}

#[test]
fn windows_pointer_flags() {
    assert_eq!(
        pointer_flags(PointerEventType::DOWN, Button::PRIMARY, true),
        (POINTER_FLAG_INRANGE | POINTER_FLAG_INCONTACT | POINTER_FLAG_DOWN | POINTER_FLAG_PRIMARY, POINTER_CHANGE_FIRSTBUTTON_DOWN)
    );
    assert_eq!(pointer_flags(PointerEventType::UP, Button::NONE, false), (POINTER_FLAG_UP, POINTER_CHANGE_NONE));
    assert_eq!(
        pointer_flags(PointerEventType::MOVE, Button::PRIMARY, false),
        (POINTER_FLAG_INRANGE | POINTER_FLAG_UPDATE | POINTER_FLAG_INCONTACT, POINTER_CHANGE_FIRSTBUTTON_DOWN)
    );
    assert_eq!(
        pointer_flags(PointerEventType::LEAVE, Button::NONE, false).0,
        POINTER_FLAG_INRANGE | POINTER_FLAG_UPDATE | POINTER_FLAG_CANCELED
    );
}

#[test]
fn windows_mouse_flags() {
    assert_eq!(mouse_flags(PointerEventType::DOWN, Button::PRIMARY, Button::PRIMARY), MOUSEEVENTF_LEFTDOWN);
    assert_eq!(mouse_flags(PointerEventType::UP, Button::NONE, Button::AUXILARY), MOUSEEVENTF_MIDDLEUP);
    assert_eq!(mouse_flags(PointerEventType::MOVE, Button::PRIMARY, Button::PRIMARY), 0);
    assert_eq!(mouse_flags(PointerEventType::CANCEL, Button::NONE, Button::NONE), MOUSEEVENTF_LEFTUP);
}

#[test]
fn windows_touch_contacts() {
    let mut contacts: TouchContacts<u32> = TouchContacts::new();
    assert_eq!(contacts.update(1, 10, PointerEventType::DOWN), vec![10]);
    assert_eq!(contacts.update(2, 20, PointerEventType::DOWN), vec![10, 20]);
    assert_eq!(contacts.update(1, 11, PointerEventType::MOVE), vec![11, 20]);
    assert_eq!(contacts.update(1, 12, PointerEventType::UP), vec![12, 20]);
    assert_eq!(contacts.update(2, 21, PointerEventType::MOVE), vec![21]);
}
