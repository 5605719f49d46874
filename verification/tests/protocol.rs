use rylus::protocol::{location_from, Button, KeyboardLocation};

#[test]
fn button_from_bits_valid() {
    let b = Button::from_bits(0b0000_0001).unwrap();
    assert_eq!(b, Button::PRIMARY);
    let b = Button::from_bits(0b0000_0011).unwrap();
    assert!(b.contains(Button::PRIMARY));
    assert!(b.contains(Button::SECONDARY));
}

#[test]
fn button_from_bits_invalid() {
    let b = Button::from_bits(0b0100_0000);
    assert!(b.is_none());
}

#[test]
fn button_none_is_zero() {
    assert_eq!(Button::NONE.bits(), 0);
}

#[test]
fn button_eraser_flag() {
    let b = Button::ERASER;
    assert_eq!(b.bits(), 0b0010_0000);
    assert!(!b.contains(Button::PRIMARY));
}

#[test]
fn button_combination_keeps_bits() {
    let b = Button::from_bits(0b0010_0101).unwrap();
    assert_eq!(b.bits(), 0b0010_0101);
    assert!(b.contains(Button::AUXILARY));
    assert!(b.contains(Button::ERASER));
    assert!(!b.contains(Button::SECONDARY));
    assert!(b.contains(Button::NONE));
}

#[test]
fn keyboard_location_codes() {
    assert_eq!(location_from(0), Some(KeyboardLocation::STANDARD));
    assert_eq!(location_from(1), Some(KeyboardLocation::LEFT));
    assert_eq!(location_from(2), Some(KeyboardLocation::RIGHT));
    assert_eq!(location_from(3), Some(KeyboardLocation::NUMPAD));
    assert_eq!(location_from(4), None);
}
