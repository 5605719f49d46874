//! What the enigo input backend does for an event: the keys it presses and
//! releases, the mouse button it changes and the scrolling it sends.

use vstd::prelude::*;
use crate::protocol::{Button, KeyboardEvent, KeyboardEventType};
use crate::text::{chars_eq_str, chars_of};

verus! {

/// The keys of the enigo backend the library uses.
#[derive(Clone, Copy, Debug, PartialEq, Eq, Structural)]
pub enum EnigoKey {
    Escape,
    Return,
    Backspace,
    Tab,
    Space,
    CapsLock,
    F1,
    F2,
    F3,
    F4,
    F5,
    F6,
    F7,
    F8,
    F9,
    F10,
    F11,
    F12,
    F13,
    F14,
    F15,
    F16,
    F17,
    F18,
    F19,
    F20,
    F21,
    F22,
    F23,
    F24,
    Home,
    UpArrow,
    PageUp,
    LeftArrow,
    RightArrow,
    End,
    DownArrow,
    PageDown,
    Delete,
    Insert,
    PrintScr,
    Pause,
    Numlock,
    ScrollLock,
    Numpad0,
    Numpad1,
    Numpad2,
    Numpad3,
    Numpad4,
    Numpad5,
    Numpad6,
    Numpad7,
    Numpad8,
    Numpad9,
    Add,
    Subtract,
    Multiply,
    Divide,
    Decimal,
    LControl,
    RControl,
    Alt,
    Meta,
    LShift,
    RShift,
    VolumeMute,
    VolumeDown,
    VolumeUp,
    MediaNextTrack,
    MediaPlayPause,
    MediaPrevTrack,
    Control,
    Shift,
    /// A character typed as such.
    Unicode(char),
}

/// The key a `KeyboardEvent.code` names for the enigo backend, if any.
pub open spec fn spec_enigo_key(code: Seq<char>) -> Option<EnigoKey> {
    if code == "Escape"@ {
        Some(EnigoKey::Escape)
    } else if code == "Enter"@ {
        Some(EnigoKey::Return)
    } else if code == "Backspace"@ {
        Some(EnigoKey::Backspace)
    } else if code == "Tab"@ {
        Some(EnigoKey::Tab)
    } else if code == "Space"@ {
        Some(EnigoKey::Space)
    } else if code == "CapsLock"@ {
        Some(EnigoKey::CapsLock)
    } else if code == "F1"@ {
        Some(EnigoKey::F1)
    } else if code == "F2"@ {
        Some(EnigoKey::F2)
    } else if code == "F3"@ {
        Some(EnigoKey::F3)
    } else if code == "F4"@ {
        Some(EnigoKey::F4)
    } else if code == "F5"@ {
        Some(EnigoKey::F5)
    } else if code == "F6"@ {
        Some(EnigoKey::F6)
    } else if code == "F7"@ {
        Some(EnigoKey::F7)
    } else if code == "F8"@ {
        Some(EnigoKey::F8)
    } else if code == "F9"@ {
        Some(EnigoKey::F9)
    } else if code == "F10"@ {
        Some(EnigoKey::F10)
    } else if code == "F11"@ {
        Some(EnigoKey::F11)
    } else if code == "F12"@ {
        Some(EnigoKey::F12)
    } else if code == "F13"@ {
        Some(EnigoKey::F13)
    } else if code == "F14"@ {
        Some(EnigoKey::F14)
    } else if code == "F15"@ {
        Some(EnigoKey::F15)
    } else if code == "F16"@ {
        Some(EnigoKey::F16)
    } else if code == "F17"@ {
        Some(EnigoKey::F17)
    } else if code == "F18"@ {
        Some(EnigoKey::F18)
    } else if code == "F19"@ {
        Some(EnigoKey::F19)
    } else if code == "F20"@ {
        Some(EnigoKey::F20)
    } else if code == "F21"@ {
        Some(EnigoKey::F21)
    } else if code == "F22"@ {
        Some(EnigoKey::F22)
    } else if code == "F23"@ {
        Some(EnigoKey::F23)
    } else if code == "F24"@ {
        Some(EnigoKey::F24)
    } else if code == "Home"@ {
        Some(EnigoKey::Home)
    } else if code == "ArrowUp"@ {
        Some(EnigoKey::UpArrow)
    } else if code == "PageUp"@ {
        Some(EnigoKey::PageUp)
    } else if code == "ArrowLeft"@ {
        Some(EnigoKey::LeftArrow)
    } else if code == "ArrowRight"@ {
        Some(EnigoKey::RightArrow)
    } else if code == "End"@ {
        Some(EnigoKey::End)
    } else if code == "ArrowDown"@ {
        Some(EnigoKey::DownArrow)
    } else if code == "PageDown"@ {
        Some(EnigoKey::PageDown)
    } else if code == "Delete"@ {
        Some(EnigoKey::Delete)
    } else if code == "Insert"@ {
        Some(EnigoKey::Insert)
    } else if code == "PrintScreen"@ {
        Some(EnigoKey::PrintScr)
    } else if code == "Pause"@ {
        Some(EnigoKey::Pause)
    } else if code == "NumLock"@ {
        Some(EnigoKey::Numlock)
    } else if code == "ScrollLock"@ {
        Some(EnigoKey::ScrollLock)
    } else if code == "Numpad0"@ {
        Some(EnigoKey::Numpad0)
    } else if code == "Numpad1"@ {
        Some(EnigoKey::Numpad1)
    } else if code == "Numpad2"@ {
        Some(EnigoKey::Numpad2)
    } else if code == "Numpad3"@ {
        Some(EnigoKey::Numpad3)
    } else if code == "Numpad4"@ {
        Some(EnigoKey::Numpad4)
    } else if code == "Numpad5"@ {
        Some(EnigoKey::Numpad5)
    } else if code == "Numpad6"@ {
        Some(EnigoKey::Numpad6)
    } else if code == "Numpad7"@ {
        Some(EnigoKey::Numpad7)
    } else if code == "Numpad8"@ {
        Some(EnigoKey::Numpad8)
    } else if code == "Numpad9"@ {
        Some(EnigoKey::Numpad9)
    } else if code == "NumpadAdd"@ {
        Some(EnigoKey::Add)
    } else if code == "NumpadSubtract"@ {
        Some(EnigoKey::Subtract)
    } else if code == "NumpadMultiply"@ {
        Some(EnigoKey::Multiply)
    } else if code == "NumpadDivide"@ {
        Some(EnigoKey::Divide)
    } else if code == "NumpadDecimal"@ {
        Some(EnigoKey::Decimal)
    } else if code == "NumpadEnter"@ {
        Some(EnigoKey::Return)
    } else if code == "ControlLeft"@ {
        Some(EnigoKey::LControl)
    } else if code == "ControlRight"@ {
        Some(EnigoKey::RControl)
    } else if code == "AltLeft"@ {
        Some(EnigoKey::Alt)
    } else if code == "AltRight"@ {
        Some(EnigoKey::Alt)
    } else if code == "MetaLeft"@ {
        Some(EnigoKey::Meta)
    } else if code == "MetaRight"@ {
        Some(EnigoKey::Meta)
    } else if code == "ShiftLeft"@ {
        Some(EnigoKey::LShift)
    } else if code == "ShiftRight"@ {
        Some(EnigoKey::RShift)
    } else if code == "VolumeMute"@ {
        Some(EnigoKey::VolumeMute)
    } else if code == "AudioVolumeMute"@ {
        Some(EnigoKey::VolumeMute)
    } else if code == "VolumeDown"@ {
        Some(EnigoKey::VolumeDown)
    } else if code == "AudioVolumeDown"@ {
        Some(EnigoKey::VolumeDown)
    } else if code == "VolumeUp"@ {
        Some(EnigoKey::VolumeUp)
    } else if code == "AudioVolumeUp"@ {
        Some(EnigoKey::VolumeUp)
    } else if code == "MediaTrackNext"@ {
        Some(EnigoKey::MediaNextTrack)
    } else if code == "MediaPlayPause"@ {
        Some(EnigoKey::MediaPlayPause)
    } else if code == "MediaTrackPrevious"@ {
        Some(EnigoKey::MediaPrevTrack)
    } else {
        None
    }
}

/// Maps a `KeyboardEvent.code` to its enigo key.
#[verifier::rlimit(100)]
pub fn enigo_key(code: &str) -> (r: Option<EnigoKey>)
    ensures
        r == spec_enigo_key(code@),
{
    let c = chars_of(code);
    let c = c.as_slice();
    if chars_eq_str(c, "Escape") {
        Some(EnigoKey::Escape)
    } else if chars_eq_str(c, "Enter") {
        Some(EnigoKey::Return)
    } else if chars_eq_str(c, "Backspace") {
        Some(EnigoKey::Backspace)
    } else if chars_eq_str(c, "Tab") {
        Some(EnigoKey::Tab)
    } else if chars_eq_str(c, "Space") {
        Some(EnigoKey::Space)
    } else if chars_eq_str(c, "CapsLock") {
        Some(EnigoKey::CapsLock)
    } else if chars_eq_str(c, "F1") {
        Some(EnigoKey::F1)
    } else if chars_eq_str(c, "F2") {
        Some(EnigoKey::F2)
    } else if chars_eq_str(c, "F3") {
        Some(EnigoKey::F3)
    } else if chars_eq_str(c, "F4") {
        Some(EnigoKey::F4)
    } else if chars_eq_str(c, "F5") {
        Some(EnigoKey::F5)
    } else if chars_eq_str(c, "F6") {
        Some(EnigoKey::F6)
    } else if chars_eq_str(c, "F7") {
        Some(EnigoKey::F7)
    } else if chars_eq_str(c, "F8") {
        Some(EnigoKey::F8)
    } else if chars_eq_str(c, "F9") {
        Some(EnigoKey::F9)
    } else if chars_eq_str(c, "F10") {
        Some(EnigoKey::F10)
    } else if chars_eq_str(c, "F11") {
        Some(EnigoKey::F11)
    } else if chars_eq_str(c, "F12") {
        Some(EnigoKey::F12)
    } else if chars_eq_str(c, "F13") {
        Some(EnigoKey::F13)
    } else if chars_eq_str(c, "F14") {
        Some(EnigoKey::F14)
    } else if chars_eq_str(c, "F15") {
        Some(EnigoKey::F15)
    } else if chars_eq_str(c, "F16") {
        Some(EnigoKey::F16)
    } else if chars_eq_str(c, "F17") {
        Some(EnigoKey::F17)
    } else if chars_eq_str(c, "F18") {
        Some(EnigoKey::F18)
    } else if chars_eq_str(c, "F19") {
        Some(EnigoKey::F19)
    } else if chars_eq_str(c, "F20") {
        Some(EnigoKey::F20)
    } else if chars_eq_str(c, "F21") {
        Some(EnigoKey::F21)
    } else if chars_eq_str(c, "F22") {
        Some(EnigoKey::F22)
    } else if chars_eq_str(c, "F23") {
        Some(EnigoKey::F23)
    } else if chars_eq_str(c, "F24") {
        Some(EnigoKey::F24)
    } else if chars_eq_str(c, "Home") {
        Some(EnigoKey::Home)
    } else if chars_eq_str(c, "ArrowUp") {
        Some(EnigoKey::UpArrow)
    } else if chars_eq_str(c, "PageUp") {
        Some(EnigoKey::PageUp)
    } else if chars_eq_str(c, "ArrowLeft") {
        Some(EnigoKey::LeftArrow)
    } else if chars_eq_str(c, "ArrowRight") {
        Some(EnigoKey::RightArrow)
    } else if chars_eq_str(c, "End") {
        Some(EnigoKey::End)
    } else if chars_eq_str(c, "ArrowDown") {
        Some(EnigoKey::DownArrow)
    } else if chars_eq_str(c, "PageDown") {
        Some(EnigoKey::PageDown)
    } else if chars_eq_str(c, "Delete") {
        Some(EnigoKey::Delete)
    } else if chars_eq_str(c, "Insert") {
        Some(EnigoKey::Insert)
    } else if chars_eq_str(c, "PrintScreen") {
        Some(EnigoKey::PrintScr)
    } else if chars_eq_str(c, "Pause") {
        Some(EnigoKey::Pause)
    } else if chars_eq_str(c, "NumLock") {
        Some(EnigoKey::Numlock)
    } else if chars_eq_str(c, "ScrollLock") {
        Some(EnigoKey::ScrollLock)
    } else if chars_eq_str(c, "Numpad0") {
        Some(EnigoKey::Numpad0)
    } else if chars_eq_str(c, "Numpad1") {
        Some(EnigoKey::Numpad1)
    } else if chars_eq_str(c, "Numpad2") {
        Some(EnigoKey::Numpad2)
    } else if chars_eq_str(c, "Numpad3") {
        Some(EnigoKey::Numpad3)
    } else if chars_eq_str(c, "Numpad4") {
        Some(EnigoKey::Numpad4)
    } else if chars_eq_str(c, "Numpad5") {
        Some(EnigoKey::Numpad5)
    } else if chars_eq_str(c, "Numpad6") {
        Some(EnigoKey::Numpad6)
    } else if chars_eq_str(c, "Numpad7") {
        Some(EnigoKey::Numpad7)
    } else if chars_eq_str(c, "Numpad8") {
        Some(EnigoKey::Numpad8)
    } else if chars_eq_str(c, "Numpad9") {
        Some(EnigoKey::Numpad9)
    } else if chars_eq_str(c, "NumpadAdd") {
        Some(EnigoKey::Add)
    } else if chars_eq_str(c, "NumpadSubtract") {
        Some(EnigoKey::Subtract)
    } else if chars_eq_str(c, "NumpadMultiply") {
        Some(EnigoKey::Multiply)
    } else if chars_eq_str(c, "NumpadDivide") {
        Some(EnigoKey::Divide)
    } else if chars_eq_str(c, "NumpadDecimal") {
        Some(EnigoKey::Decimal)
    } else if chars_eq_str(c, "NumpadEnter") {
        Some(EnigoKey::Return)
    } else if chars_eq_str(c, "ControlLeft") {
        Some(EnigoKey::LControl)
    } else if chars_eq_str(c, "ControlRight") {
        Some(EnigoKey::RControl)
    } else if chars_eq_str(c, "AltLeft") {
        Some(EnigoKey::Alt)
    } else if chars_eq_str(c, "AltRight") {
        Some(EnigoKey::Alt)
    } else if chars_eq_str(c, "MetaLeft") {
        Some(EnigoKey::Meta)
    } else if chars_eq_str(c, "MetaRight") {
        Some(EnigoKey::Meta)
    } else if chars_eq_str(c, "ShiftLeft") {
        Some(EnigoKey::LShift)
    } else if chars_eq_str(c, "ShiftRight") {
        Some(EnigoKey::RShift)
    } else if chars_eq_str(c, "VolumeMute") {
        Some(EnigoKey::VolumeMute)
    } else if chars_eq_str(c, "AudioVolumeMute") {
        Some(EnigoKey::VolumeMute)
    } else if chars_eq_str(c, "VolumeDown") {
        Some(EnigoKey::VolumeDown)
    } else if chars_eq_str(c, "AudioVolumeDown") {
        Some(EnigoKey::VolumeDown)
    } else if chars_eq_str(c, "VolumeUp") {
        Some(EnigoKey::VolumeUp)
    } else if chars_eq_str(c, "AudioVolumeUp") {
        Some(EnigoKey::VolumeUp)
    } else if chars_eq_str(c, "MediaTrackNext") {
        Some(EnigoKey::MediaNextTrack)
    } else if chars_eq_str(c, "MediaPlayPause") {
        Some(EnigoKey::MediaPlayPause)
    } else if chars_eq_str(c, "MediaTrackPrevious") {
        Some(EnigoKey::MediaPrevTrack)
    } else {
        None
    }
}

/// A key press or release.
#[derive(Clone, Copy, Debug, PartialEq, Eq, Structural)]
pub struct KeyAction {
    pub key: EnigoKey,
    pub press: bool,
}

/// A press of each character of `s`, in order.
pub open spec fn unicode_presses(s: Seq<char>) -> Seq<KeyAction>
    decreases s.len(),
{
    if s.len() == 0 {
        seq![]
    } else {
        unicode_presses(s.drop_last()).push(KeyAction { key: EnigoKey::Unicode(s.last()), press: true })
    }
}

/// The key actions of a keyboard event: for a mapped key, the flagged modifiers
/// (control, alt, meta, shift) then the key, all pressed on key-down and repeat and
/// released on key-up; for an unmapped key on key-down, each character of its text
/// pressed; nothing otherwise.
pub open spec fn spec_key_actions(event: KeyboardEvent) -> Seq<KeyAction> {
    let press = !(event.event_type == KeyboardEventType::UP);
    match spec_enigo_key(event.code@) {
        Some(k) => (if event.ctrl { seq![KeyAction { key: EnigoKey::Control, press }] } else { seq![] })
            + (if event.alt { seq![KeyAction { key: EnigoKey::Alt, press }] } else { seq![] })
            + (if event.meta { seq![KeyAction { key: EnigoKey::Meta, press }] } else { seq![] })
            + (if event.shift { seq![KeyAction { key: EnigoKey::Shift, press }] } else { seq![] })
            + seq![KeyAction { key: k, press }],
        None => if event.event_type == KeyboardEventType::DOWN {
            unicode_presses(event.key@)
        } else {
            seq![]
        },
    }
}

/// The key actions the enigo backend performs for a keyboard event.
pub fn enigo_key_actions(event: &KeyboardEvent) -> (r: Vec<KeyAction>)
    ensures
        r@ == spec_key_actions(*event),
{
    let press = !(event.event_type == KeyboardEventType::UP);
    let mut out: Vec<KeyAction> = Vec::new();
    match enigo_key(event.code.as_str()) {
        Some(k) => {
            if event.ctrl {
                out.push(KeyAction { key: EnigoKey::Control, press });
            }
            if event.alt {
                out.push(KeyAction { key: EnigoKey::Alt, press });
            }
            if event.meta {
                out.push(KeyAction { key: EnigoKey::Meta, press });
            }
            if event.shift {
                out.push(KeyAction { key: EnigoKey::Shift, press });
            }
            out.push(KeyAction { key: k, press });
            assert(out@ =~= spec_key_actions(*event));
        },
        None => {
            if event.event_type == KeyboardEventType::DOWN {
                let cs = chars_of(event.key.as_str());
                let mut i: usize = 0;
                assert(cs@.take(0) =~= Seq::<char>::empty());
                while i < cs.len()
                    invariant
                        i <= cs@.len(),
                        cs@ == event.key@,
                        out@ == unicode_presses(cs@.take(i as int)),
                    decreases cs@.len() - i,
                {
                    out.push(KeyAction { key: EnigoKey::Unicode(cs[i]), press: true });
                    assert(cs@.take(i + 1).drop_last() =~= cs@.take(i as int));
                    i = i + 1;
                }
                assert(cs@.take(i as int) =~= cs@);
            } else {
                assert(out@ =~= spec_key_actions(*event));
            }
        },
    }
    out
}

/// The mouse buttons of the enigo backend.
#[derive(Clone, Copy, Debug, PartialEq, Eq, Structural)]
pub enum EnigoButton {
    Left,
    Middle,
    Right,
}

/// The button change of a pointer event: the primary, auxiliary and secondary
/// buttons map to left, middle and right, pressed when the event's button set holds
/// the button; other buttons change nothing.
pub fn enigo_button_action(button: Button, buttons: Button) -> (r: Option<(EnigoButton, bool)>)
    ensures
        r == match button {
            Button::PRIMARY => Some((EnigoButton::Left, buttons.spec_contains(button))),
            Button::AUXILARY => Some((EnigoButton::Middle, buttons.spec_contains(button))),
            Button::SECONDARY => Some((EnigoButton::Right, buttons.spec_contains(button))),
            _ => None,
        },
{
    let pressed = buttons.contains(button);
    match button {
        Button::PRIMARY => Some((EnigoButton::Left, pressed)),
        Button::AUXILARY => Some((EnigoButton::Middle, pressed)),
        Button::SECONDARY => Some((EnigoButton::Right, pressed)),
        _ => None,
    }
}

/// The scrolling of a wheel event: vertical by the negated vertical delta, then
/// horizontal by the horizontal delta, each only when non-zero.
pub fn enigo_scroll(dx: i32, dy: i32) -> (r: (Option<i32>, Option<i32>))
    requires
        dy != i32::MIN,
    ensures
        r.0 == if dy != 0 { Some((-dy) as i32) } else { None::<i32> },
        r.1 == if dx != 0 { Some(dx) } else { None::<i32> },
{
    (if dy != 0 { Some(-dy) } else { None }, if dx != 0 { Some(dx) } else { None })
}

} // verus!
