//! The kernel key code of a browser key code.

use vstd::prelude::*;
use crate::protocol::KeyboardLocation;
use crate::text::chars_eq_str;

verus! {

pub const KEY_0: i32 = 11;
pub const KEY_1: i32 = 2;
pub const KEY_102ND: i32 = 86;
pub const KEY_2: i32 = 3;
pub const KEY_3: i32 = 4;
pub const KEY_4: i32 = 5;
pub const KEY_5: i32 = 6;
pub const KEY_6: i32 = 7;
pub const KEY_7: i32 = 8;
pub const KEY_8: i32 = 9;
pub const KEY_9: i32 = 10;
pub const KEY_A: i32 = 30;
pub const KEY_AGAIN: i32 = 129;
pub const KEY_APOSTROPHE: i32 = 40;
pub const KEY_B: i32 = 48;
pub const KEY_BACKSLASH: i32 = 43;
pub const KEY_BACKSPACE: i32 = 14;
pub const KEY_C: i32 = 46;
pub const KEY_CANCEL: i32 = 223;
pub const KEY_CAPSLOCK: i32 = 58;
pub const KEY_COMMA: i32 = 51;
pub const KEY_COPY: i32 = 133;
pub const KEY_CUT: i32 = 137;
pub const KEY_D: i32 = 32;
pub const KEY_DELETE: i32 = 111;
pub const KEY_DOT: i32 = 52;
pub const KEY_DOWN: i32 = 108;
pub const KEY_E: i32 = 18;
pub const KEY_EJECTCD: i32 = 161;
pub const KEY_END: i32 = 107;
pub const KEY_ENTER: i32 = 28;
pub const KEY_EQUAL: i32 = 13;
pub const KEY_ESC: i32 = 1;
pub const KEY_F: i32 = 33;
pub const KEY_F1: i32 = 59;
pub const KEY_F10: i32 = 68;
pub const KEY_F11: i32 = 87;
pub const KEY_F12: i32 = 88;
pub const KEY_F13: i32 = 183;
pub const KEY_F14: i32 = 184;
pub const KEY_F15: i32 = 185;
pub const KEY_F16: i32 = 186;
pub const KEY_F17: i32 = 187;
pub const KEY_F18: i32 = 188;
pub const KEY_F19: i32 = 189;
pub const KEY_F2: i32 = 60;
pub const KEY_F20: i32 = 190;
pub const KEY_F21: i32 = 191;
pub const KEY_F22: i32 = 192;
pub const KEY_F23: i32 = 193;
pub const KEY_F24: i32 = 194;
pub const KEY_F3: i32 = 61;
pub const KEY_F4: i32 = 62;
pub const KEY_F5: i32 = 63;
pub const KEY_F6: i32 = 64;
pub const KEY_F7: i32 = 65;
pub const KEY_F8: i32 = 66;
pub const KEY_F9: i32 = 67;
pub const KEY_FIND: i32 = 136;
pub const KEY_G: i32 = 34;
pub const KEY_GRAVE: i32 = 41;
pub const KEY_H: i32 = 35;
pub const KEY_HANGUEL: i32 = 122;
pub const KEY_HANJA: i32 = 123;
pub const KEY_HELP: i32 = 138;
pub const KEY_HOME: i32 = 102;
pub const KEY_I: i32 = 23;
pub const KEY_INSERT: i32 = 110;
pub const KEY_J: i32 = 36;
pub const KEY_K: i32 = 37;
pub const KEY_KATAKANA: i32 = 90;
pub const KEY_KP0: i32 = 82;
pub const KEY_KP1: i32 = 79;
pub const KEY_KP2: i32 = 80;
pub const KEY_KP3: i32 = 81;
pub const KEY_KP4: i32 = 75;
pub const KEY_KP5: i32 = 76;
pub const KEY_KP6: i32 = 77;
pub const KEY_KP7: i32 = 71;
pub const KEY_KP8: i32 = 72;
pub const KEY_KP9: i32 = 73;
pub const KEY_KPASTERISK: i32 = 55;
pub const KEY_KPCOMMA: i32 = 121;
pub const KEY_KPENTER: i32 = 96;
pub const KEY_KPEQUAL: i32 = 117;
pub const KEY_KPLEFTPAREN: i32 = 179;
pub const KEY_KPMINUS: i32 = 74;
pub const KEY_KPPLUS: i32 = 78;
pub const KEY_KPRIGHTPAREN: i32 = 180;
pub const KEY_KPSLASH: i32 = 98;
pub const KEY_L: i32 = 38;
pub const KEY_LEFT: i32 = 105;
pub const KEY_LEFTALT: i32 = 56;
pub const KEY_LEFTBRACE: i32 = 26;
pub const KEY_LEFTCTRL: i32 = 29;
pub const KEY_LEFTMETA: i32 = 125;
pub const KEY_LEFTSHIFT: i32 = 42;
pub const KEY_M: i32 = 50;
pub const KEY_MAIL: i32 = 155;
pub const KEY_MEDIA: i32 = 226;
pub const KEY_MENU: i32 = 139;
pub const KEY_MINUS: i32 = 12;
pub const KEY_MUTE: i32 = 113;
pub const KEY_N: i32 = 49;
pub const KEY_NEXTSONG: i32 = 163;
pub const KEY_NUMLOCK: i32 = 69;
pub const KEY_O: i32 = 24;
pub const KEY_OPEN: i32 = 134;
pub const KEY_P: i32 = 25;
pub const KEY_PAGEDOWN: i32 = 109;
pub const KEY_PAGEUP: i32 = 104;
pub const KEY_PASTE: i32 = 135;
pub const KEY_PAUSE: i32 = 119;
pub const KEY_PLAYPAUSE: i32 = 164;
pub const KEY_POWER: i32 = 116;
pub const KEY_PREVIOUSSONG: i32 = 165;
pub const KEY_PROPS: i32 = 130;
pub const KEY_Q: i32 = 16;
pub const KEY_R: i32 = 19;
pub const KEY_RIGHT: i32 = 106;
pub const KEY_RIGHTALT: i32 = 100;
pub const KEY_RIGHTBRACE: i32 = 27;
pub const KEY_RIGHTCTRL: i32 = 97;
pub const KEY_RIGHTMETA: i32 = 126;
pub const KEY_RIGHTSHIFT: i32 = 54;
pub const KEY_RO: i32 = 89;
pub const KEY_S: i32 = 31;
pub const KEY_SCROLLLOCK: i32 = 70;
pub const KEY_SEMICOLON: i32 = 39;
pub const KEY_SLASH: i32 = 53;
pub const KEY_SLEEP: i32 = 142;
pub const KEY_SPACE: i32 = 57;
pub const KEY_STOPCD: i32 = 166;
pub const KEY_SYSRQ: i32 = 99;
pub const KEY_T: i32 = 20;
pub const KEY_TAB: i32 = 15;
pub const KEY_U: i32 = 22;
pub const KEY_UNDO: i32 = 131;
pub const KEY_UNKNOWN: i32 = 240;
pub const KEY_UP: i32 = 103;
pub const KEY_V: i32 = 47;
pub const KEY_VOLUMEDOWN: i32 = 114;
pub const KEY_VOLUMEUP: i32 = 115;
pub const KEY_W: i32 = 17;
pub const KEY_WAKEUP: i32 = 143;
pub const KEY_X: i32 = 45;
pub const KEY_Y: i32 = 21;
pub const KEY_YEN: i32 = 124;
pub const KEY_Z: i32 = 44;

/// The key a browser `KeyboardEvent.code` stands for; digits, minus, equal and
/// enter typed on the numeric keypad map to their keypad keys. Unknown codes give
/// `KEY_UNKNOWN`.
pub open spec fn spec_map_key(code: Seq<char>, loc: KeyboardLocation) -> i32 {
    if code == "Escape"@ {
        KEY_ESC
    } else
    if code == "Digit0"@ && loc is NUMPAD {
        KEY_KP0
    } else
    if code == "Digit1"@ && loc is NUMPAD {
        KEY_KP1
    } else
    if code == "Digit2"@ && loc is NUMPAD {
        KEY_KP2
    } else
    if code == "Digit3"@ && loc is NUMPAD {
        KEY_KP3
    } else
    if code == "Digit4"@ && loc is NUMPAD {
        KEY_KP4
    } else
    if code == "Digit5"@ && loc is NUMPAD {
        KEY_KP5
    } else
    if code == "Digit6"@ && loc is NUMPAD {
        KEY_KP6
    } else
    if code == "Digit7"@ && loc is NUMPAD {
        KEY_KP7
    } else
    if code == "Digit8"@ && loc is NUMPAD {
        KEY_KP8
    } else
    if code == "Digit9"@ && loc is NUMPAD {
        KEY_KP9
    } else
    if code == "Minus"@ && loc is NUMPAD {
        KEY_KPMINUS
    } else
    if code == "Equal"@ && loc is NUMPAD {
        KEY_KPEQUAL
    } else
    if code == "Enter"@ && loc is NUMPAD {
        KEY_KPENTER
    } else
    if code == "Digit0"@ {
        KEY_0
    } else
    if code == "Digit1"@ {
        KEY_1
    } else
    if code == "Digit2"@ {
        KEY_2
    } else
    if code == "Digit3"@ {
        KEY_3
    } else
    if code == "Digit4"@ {
        KEY_4
    } else
    if code == "Digit5"@ {
        KEY_5
    } else
    if code == "Digit6"@ {
        KEY_6
    } else
    if code == "Digit7"@ {
        KEY_7
    } else
    if code == "Digit8"@ {
        KEY_8
    } else
    if code == "Digit9"@ {
        KEY_9
    } else
    if code == "Minus"@ {
        KEY_MINUS
    } else
    if code == "Equal"@ {
        KEY_EQUAL
    } else
    if code == "Enter"@ {
        KEY_ENTER
    } else
    if code == "Backspace"@ {
        KEY_BACKSPACE
    } else
    if code == "Tab"@ {
        KEY_TAB
    } else
    if code == "KeyA"@ {
        KEY_A
    } else
    if code == "KeyB"@ {
        KEY_B
    } else
    if code == "KeyC"@ {
        KEY_C
    } else
    if code == "KeyD"@ {
        KEY_D
    } else
    if code == "KeyE"@ {
        KEY_E
    } else
    if code == "KeyF"@ {
        KEY_F
    } else
    if code == "KeyG"@ {
        KEY_G
    } else
    if code == "KeyH"@ {
        KEY_H
    } else
    if code == "KeyI"@ {
        KEY_I
    } else
    if code == "KeyJ"@ {
        KEY_J
    } else
    if code == "KeyK"@ {
        KEY_K
    } else
    if code == "KeyL"@ {
        KEY_L
    } else
    if code == "KeyM"@ {
        KEY_M
    } else
    if code == "KeyN"@ {
        KEY_N
    } else
    if code == "KeyO"@ {
        KEY_O
    } else
    if code == "KeyP"@ {
        KEY_P
    } else
    if code == "KeyQ"@ {
        KEY_Q
    } else
    if code == "KeyR"@ {
        KEY_R
    } else
    if code == "KeyS"@ {
        KEY_S
    } else
    if code == "KeyT"@ {
        KEY_T
    } else
    if code == "KeyU"@ {
        KEY_U
    } else
    if code == "KeyV"@ {
        KEY_V
    } else
    if code == "KeyW"@ {
        KEY_W
    } else
    if code == "KeyX"@ {
        KEY_X
    } else
    if code == "KeyY"@ {
        KEY_Y
    } else
    if code == "KeyZ"@ {
        KEY_Z
    } else
    if code == "BracketLeft"@ {
        KEY_LEFTBRACE
    } else
    if code == "BracketRight"@ {
        KEY_RIGHTBRACE
    } else
    if code == "Semicolon"@ {
        KEY_SEMICOLON
    } else
    if code == "Quote"@ {
        KEY_APOSTROPHE
    } else
    if code == "Backquote"@ {
        KEY_GRAVE
    } else
    if code == "Backslash"@ {
        KEY_BACKSLASH
    } else
    if code == "Comma"@ {
        KEY_COMMA
    } else
    if code == "Period"@ {
        KEY_DOT
    } else
    if code == "Slash"@ {
        KEY_SLASH
    } else
    if code == "Space"@ {
        KEY_SPACE
    } else
    if code == "CapsLock"@ {
        KEY_CAPSLOCK
    } else
    if code == "NumpadMultiply"@ {
        KEY_KPASTERISK
    } else
    if code == "F1"@ {
        KEY_F1
    } else
    if code == "F2"@ {
        KEY_F2
    } else
    if code == "F3"@ {
        KEY_F3
    } else
    if code == "F4"@ {
        KEY_F4
    } else
    if code == "F5"@ {
        KEY_F5
    } else
    if code == "F6"@ {
        KEY_F6
    } else
    if code == "F7"@ {
        KEY_F7
    } else
    if code == "F8"@ {
        KEY_F8
    } else
    if code == "F9"@ {
        KEY_F9
    } else
    if code == "F10"@ {
        KEY_F10
    } else
    if code == "F11"@ {
        KEY_F11
    } else
    if code == "F12"@ {
        KEY_F12
    } else
    if code == "F13"@ {
        KEY_F13
    } else
    if code == "F14"@ {
        KEY_F14
    } else
    if code == "F15"@ {
        KEY_F15
    } else
    if code == "F16"@ {
        KEY_F16
    } else
    if code == "F17"@ {
        KEY_F17
    } else
    if code == "F18"@ {
        KEY_F18
    } else
    if code == "F19"@ {
        KEY_F19
    } else
    if code == "F20"@ {
        KEY_F20
    } else
    if code == "F21"@ {
        KEY_F21
    } else
    if code == "F22"@ {
        KEY_F22
    } else
    if code == "F23"@ {
        KEY_F23
    } else
    if code == "F24"@ {
        KEY_F24
    } else
    if code == "NumLock"@ {
        KEY_NUMLOCK
    } else
    if code == "ScrollLock"@ {
        KEY_SCROLLLOCK
    } else
    if code == "Numpad0"@ {
        KEY_KP0
    } else
    if code == "Numpad1"@ {
        KEY_KP1
    } else
    if code == "Numpad2"@ {
        KEY_KP2
    } else
    if code == "Numpad3"@ {
        KEY_KP3
    } else
    if code == "Numpad4"@ {
        KEY_KP4
    } else
    if code == "Numpad5"@ {
        KEY_KP5
    } else
    if code == "Numpad6"@ {
        KEY_KP6
    } else
    if code == "Numpad7"@ {
        KEY_KP7
    } else
    if code == "Numpad8"@ {
        KEY_KP8
    } else
    if code == "Numpad9"@ {
        KEY_KP9
    } else
    if code == "NumpadSubtract"@ {
        KEY_KPMINUS
    } else
    if code == "NumpadAdd"@ {
        KEY_KPPLUS
    } else
    if code == "IntlBackslash"@ {
        KEY_102ND
    } else
    if code == "IntlRo"@ {
        KEY_RO
    } else
    if code == "NumpadEnter"@ {
        KEY_KPENTER
    } else
    if code == "NumpadDivide"@ {
        KEY_KPSLASH
    } else
    if code == "NumpadEqual"@ {
        KEY_KPEQUAL
    } else
    if code == "NumpadComma"@ {
        KEY_KPCOMMA
    } else
    if code == "NumpadParenLeft"@ {
        KEY_KPLEFTPAREN
    } else
    if code == "NumpadParenRight"@ {
        KEY_KPRIGHTPAREN
    } else
    if code == "KanaMode"@ {
        KEY_KATAKANA
    } else
    if code == "PrintScreen"@ {
        KEY_SYSRQ
    } else
    if code == "Home"@ {
        KEY_HOME
    } else
    if code == "ArrowUp"@ {
        KEY_UP
    } else
    if code == "PageUp"@ {
        KEY_PAGEUP
    } else
    if code == "ArrowLeft"@ {
        KEY_LEFT
    } else
    if code == "ArrowRight"@ {
        KEY_RIGHT
    } else
    if code == "End"@ {
        KEY_END
    } else
    if code == "ArrowDown"@ {
        KEY_DOWN
    } else
    if code == "PageDown"@ {
        KEY_PAGEDOWN
    } else
    if code == "Insert"@ {
        KEY_INSERT
    } else
    if code == "Delete"@ {
        KEY_DELETE
    } else
    if code == "VolumeMute"@ {
        KEY_MUTE
    } else
    if code == "AudioVolumeMute"@ {
        KEY_MUTE
    } else
    if code == "VolumeDown"@ {
        KEY_VOLUMEDOWN
    } else
    if code == "AudioVolumeDown"@ {
        KEY_VOLUMEDOWN
    } else
    if code == "VolumeUp"@ {
        KEY_VOLUMEUP
    } else
    if code == "AudioVolumeUp"@ {
        KEY_VOLUMEUP
    } else
    if code == "Pause"@ {
        KEY_PAUSE
    } else
    if code == "Lang1"@ {
        KEY_HANGUEL
    } else
    if code == "Lang2"@ {
        KEY_HANJA
    } else
    if code == "IntlYen"@ {
        KEY_YEN
    } else
    if code == "OSLeft"@ {
        KEY_LEFTMETA
    } else
    if code == "OSRight"@ {
        KEY_RIGHTMETA
    } else
    if code == "ContextMenu"@ {
        KEY_MENU
    } else
    if code == "Cancel"@ {
        KEY_CANCEL
    } else
    if code == "Again"@ {
        KEY_AGAIN
    } else
    if code == "Props"@ {
        KEY_PROPS
    } else
    if code == "Undo"@ {
        KEY_UNDO
    } else
    if code == "Copy"@ {
        KEY_COPY
    } else
    if code == "Open"@ {
        KEY_OPEN
    } else
    if code == "Paste"@ {
        KEY_PASTE
    } else
    if code == "Find"@ {
        KEY_FIND
    } else
    if code == "Cut"@ {
        KEY_CUT
    } else
    if code == "Help"@ {
        KEY_HELP
    } else
    if code == "LaunchMail"@ {
        KEY_MAIL
    } else
    if code == "Eject"@ {
        KEY_EJECTCD
    } else
    if code == "MediaTrackNext"@ {
        KEY_NEXTSONG
    } else
    if code == "MediaPlayPause"@ {
        KEY_PLAYPAUSE
    } else
    if code == "MediaTrackPrevious"@ {
        KEY_PREVIOUSSONG
    } else
    if code == "MediaStop"@ {
        KEY_STOPCD
    } else
    if code == "MediaSelect"@ {
        KEY_MEDIA
    } else
    if code == "LaunchMediaPlayer"@ {
        KEY_MEDIA
    } else
    if code == "Power"@ {
        KEY_POWER
    } else
    if code == "Sleep"@ {
        KEY_SLEEP
    } else
    if code == "WakeUp"@ {
        KEY_WAKEUP
    } else
    if code == "ControlLeft"@ {
        KEY_LEFTCTRL
    } else
    if code == "ControlRight"@ {
        KEY_RIGHTCTRL
    } else
    if code == "AltLeft"@ {
        KEY_LEFTALT
    } else
    if code == "AltRight"@ {
        KEY_RIGHTALT
    } else
    if code == "MetaLeft"@ {
        KEY_LEFTMETA
    } else
    if code == "MetaRight"@ {
        KEY_RIGHTMETA
    } else
    if code == "ShiftLeft"@ {
        KEY_LEFTSHIFT
    } else
    if code == "ShiftRight"@ {
        KEY_RIGHTSHIFT
    } else {
        KEY_UNKNOWN
    }
}

/// Maps a browser key code and location to the kernel key code.
#[verifier::rlimit(100)]
pub fn map_key(code: &[char], location: KeyboardLocation) -> (r: i32)
    ensures
        r == spec_map_key(code@, location),
{
    let is_numpad = location == KeyboardLocation::NUMPAD;
    if chars_eq_str(code, "Escape") {
        return KEY_ESC;
    }
    if is_numpad && chars_eq_str(code, "Digit0") {
        return KEY_KP0;
    }
    if is_numpad && chars_eq_str(code, "Digit1") {
        return KEY_KP1;
    }
    if is_numpad && chars_eq_str(code, "Digit2") {
        return KEY_KP2;
    }
    if is_numpad && chars_eq_str(code, "Digit3") {
        return KEY_KP3;
    }
    if is_numpad && chars_eq_str(code, "Digit4") {
        return KEY_KP4;
    }
    if is_numpad && chars_eq_str(code, "Digit5") {
        return KEY_KP5;
    }
    if is_numpad && chars_eq_str(code, "Digit6") {
        return KEY_KP6;
    }
    if is_numpad && chars_eq_str(code, "Digit7") {
        return KEY_KP7;
    }
    if is_numpad && chars_eq_str(code, "Digit8") {
        return KEY_KP8;
    }
    if is_numpad && chars_eq_str(code, "Digit9") {
        return KEY_KP9;
    }
    if is_numpad && chars_eq_str(code, "Minus") {
        return KEY_KPMINUS;
    }
    if is_numpad && chars_eq_str(code, "Equal") {
        return KEY_KPEQUAL;
    }
    if is_numpad && chars_eq_str(code, "Enter") {
        return KEY_KPENTER;
    }
    if chars_eq_str(code, "Digit0") {
        return KEY_0;
    }
    if chars_eq_str(code, "Digit1") {
        return KEY_1;
    }
    if chars_eq_str(code, "Digit2") {
        return KEY_2;
    }
    if chars_eq_str(code, "Digit3") {
        return KEY_3;
    }
    if chars_eq_str(code, "Digit4") {
        return KEY_4;
    }
    if chars_eq_str(code, "Digit5") {
        return KEY_5;
    }
    if chars_eq_str(code, "Digit6") {
        return KEY_6;
    }
    if chars_eq_str(code, "Digit7") {
        return KEY_7;
    }
    if chars_eq_str(code, "Digit8") {
        return KEY_8;
    }
    if chars_eq_str(code, "Digit9") {
        return KEY_9;
    }
    if chars_eq_str(code, "Minus") {
        return KEY_MINUS;
    }
    if chars_eq_str(code, "Equal") {
        return KEY_EQUAL;
    }
    if chars_eq_str(code, "Enter") {
        return KEY_ENTER;
    }
    if chars_eq_str(code, "Backspace") {
        return KEY_BACKSPACE;
    }
    if chars_eq_str(code, "Tab") {
        return KEY_TAB;
    }
    if chars_eq_str(code, "KeyA") {
        return KEY_A;
    }
    if chars_eq_str(code, "KeyB") {
        return KEY_B;
    }
    if chars_eq_str(code, "KeyC") {
        return KEY_C;
    }
    if chars_eq_str(code, "KeyD") {
        return KEY_D;
    }
    if chars_eq_str(code, "KeyE") {
        return KEY_E;
    }
    if chars_eq_str(code, "KeyF") {
        return KEY_F;
    }
    if chars_eq_str(code, "KeyG") {
        return KEY_G;
    }
    if chars_eq_str(code, "KeyH") {
        return KEY_H;
    }
    if chars_eq_str(code, "KeyI") {
        return KEY_I;
    }
    if chars_eq_str(code, "KeyJ") {
        return KEY_J;
    }
    if chars_eq_str(code, "KeyK") {
        return KEY_K;
    }
    if chars_eq_str(code, "KeyL") {
        return KEY_L;
    }
    if chars_eq_str(code, "KeyM") {
        return KEY_M;
    }
    if chars_eq_str(code, "KeyN") {
        return KEY_N;
    }
    if chars_eq_str(code, "KeyO") {
        return KEY_O;
    }
    if chars_eq_str(code, "KeyP") {
        return KEY_P;
    }
    if chars_eq_str(code, "KeyQ") {
        return KEY_Q;
    }
    if chars_eq_str(code, "KeyR") {
        return KEY_R;
    }
    if chars_eq_str(code, "KeyS") {
        return KEY_S;
    }
    if chars_eq_str(code, "KeyT") {
        return KEY_T;
    }
    if chars_eq_str(code, "KeyU") {
        return KEY_U;
    }
    if chars_eq_str(code, "KeyV") {
        return KEY_V;
    }
    if chars_eq_str(code, "KeyW") {
        return KEY_W;
    }
    if chars_eq_str(code, "KeyX") {
        return KEY_X;
    }
    if chars_eq_str(code, "KeyY") {
        return KEY_Y;
    }
    if chars_eq_str(code, "KeyZ") {
        return KEY_Z;
    }
    if chars_eq_str(code, "BracketLeft") {
        return KEY_LEFTBRACE;
    }
    if chars_eq_str(code, "BracketRight") {
        return KEY_RIGHTBRACE;
    }
    if chars_eq_str(code, "Semicolon") {
        return KEY_SEMICOLON;
    }
    if chars_eq_str(code, "Quote") {
        return KEY_APOSTROPHE;
    }
    if chars_eq_str(code, "Backquote") {
        return KEY_GRAVE;
    }
    if chars_eq_str(code, "Backslash") {
        return KEY_BACKSLASH;
    }
    if chars_eq_str(code, "Comma") {
        return KEY_COMMA;
    }
    if chars_eq_str(code, "Period") {
        return KEY_DOT;
    }
    if chars_eq_str(code, "Slash") {
        return KEY_SLASH;
    }
    if chars_eq_str(code, "Space") {
        return KEY_SPACE;
    }
    if chars_eq_str(code, "CapsLock") {
        return KEY_CAPSLOCK;
    }
    if chars_eq_str(code, "NumpadMultiply") {
        return KEY_KPASTERISK;
    }
    if chars_eq_str(code, "F1") {
        return KEY_F1;
    }
    if chars_eq_str(code, "F2") {
        return KEY_F2;
    }
    if chars_eq_str(code, "F3") {
        return KEY_F3;
    }
    if chars_eq_str(code, "F4") {
        return KEY_F4;
    }
    if chars_eq_str(code, "F5") {
        return KEY_F5;
    }
    if chars_eq_str(code, "F6") {
        return KEY_F6;
    }
    if chars_eq_str(code, "F7") {
        return KEY_F7;
    }
    if chars_eq_str(code, "F8") {
        return KEY_F8;
    }
    if chars_eq_str(code, "F9") {
        return KEY_F9;
    }
    if chars_eq_str(code, "F10") {
        return KEY_F10;
    }
    if chars_eq_str(code, "F11") {
        return KEY_F11;
    }
    if chars_eq_str(code, "F12") {
        return KEY_F12;
    }
    if chars_eq_str(code, "F13") {
        return KEY_F13;
    }
    if chars_eq_str(code, "F14") {
        return KEY_F14;
    }
    if chars_eq_str(code, "F15") {
        return KEY_F15;
    }
    if chars_eq_str(code, "F16") {
        return KEY_F16;
    }
    if chars_eq_str(code, "F17") {
        return KEY_F17;
    }
    if chars_eq_str(code, "F18") {
        return KEY_F18;
    }
    if chars_eq_str(code, "F19") {
        return KEY_F19;
    }
    if chars_eq_str(code, "F20") {
        return KEY_F20;
    }
    if chars_eq_str(code, "F21") {
        return KEY_F21;
    }
    if chars_eq_str(code, "F22") {
        return KEY_F22;
    }
    if chars_eq_str(code, "F23") {
        return KEY_F23;
    }
    if chars_eq_str(code, "F24") {
        return KEY_F24;
    }
    if chars_eq_str(code, "NumLock") {
        return KEY_NUMLOCK;
    }
    if chars_eq_str(code, "ScrollLock") {
        return KEY_SCROLLLOCK;
    }
    if chars_eq_str(code, "Numpad0") {
        return KEY_KP0;
    }
    if chars_eq_str(code, "Numpad1") {
        return KEY_KP1;
    }
    if chars_eq_str(code, "Numpad2") {
        return KEY_KP2;
    }
    if chars_eq_str(code, "Numpad3") {
        return KEY_KP3;
    }
    if chars_eq_str(code, "Numpad4") {
        return KEY_KP4;
    }
    if chars_eq_str(code, "Numpad5") {
        return KEY_KP5;
    }
    if chars_eq_str(code, "Numpad6") {
        return KEY_KP6;
    }
    if chars_eq_str(code, "Numpad7") {
        return KEY_KP7;
    }
    if chars_eq_str(code, "Numpad8") {
        return KEY_KP8;
    }
    if chars_eq_str(code, "Numpad9") {
        return KEY_KP9;
    }
    if chars_eq_str(code, "NumpadSubtract") {
        return KEY_KPMINUS;
    }
    if chars_eq_str(code, "NumpadAdd") {
        return KEY_KPPLUS;
    }
    if chars_eq_str(code, "IntlBackslash") {
        return KEY_102ND;
    }
    if chars_eq_str(code, "IntlRo") {
        return KEY_RO;
    }
    if chars_eq_str(code, "NumpadEnter") {
        return KEY_KPENTER;
    }
    if chars_eq_str(code, "NumpadDivide") {
        return KEY_KPSLASH;
    }
    if chars_eq_str(code, "NumpadEqual") {
        return KEY_KPEQUAL;
    }
    if chars_eq_str(code, "NumpadComma") {
        return KEY_KPCOMMA;
    }
    if chars_eq_str(code, "NumpadParenLeft") {
        return KEY_KPLEFTPAREN;
    }
    if chars_eq_str(code, "NumpadParenRight") {
        return KEY_KPRIGHTPAREN;
    }
    if chars_eq_str(code, "KanaMode") {
        return KEY_KATAKANA;
    }
    if chars_eq_str(code, "PrintScreen") {
        return KEY_SYSRQ;
    }
    if chars_eq_str(code, "Home") {
        return KEY_HOME;
    }
    if chars_eq_str(code, "ArrowUp") {
        return KEY_UP;
    }
    if chars_eq_str(code, "PageUp") {
        return KEY_PAGEUP;
    }
    if chars_eq_str(code, "ArrowLeft") {
        return KEY_LEFT;
    }
    if chars_eq_str(code, "ArrowRight") {
        return KEY_RIGHT;
    }
    if chars_eq_str(code, "End") {
        return KEY_END;
    }
    if chars_eq_str(code, "ArrowDown") {
        return KEY_DOWN;
    }
    if chars_eq_str(code, "PageDown") {
        return KEY_PAGEDOWN;
    }
    if chars_eq_str(code, "Insert") {
        return KEY_INSERT;
    }
    if chars_eq_str(code, "Delete") {
        return KEY_DELETE;
    }
    if chars_eq_str(code, "VolumeMute") {
        return KEY_MUTE;
    }
    if chars_eq_str(code, "AudioVolumeMute") {
        return KEY_MUTE;
    }
    if chars_eq_str(code, "VolumeDown") {
        return KEY_VOLUMEDOWN;
    }
    if chars_eq_str(code, "AudioVolumeDown") {
        return KEY_VOLUMEDOWN;
    }
    if chars_eq_str(code, "VolumeUp") {
        return KEY_VOLUMEUP;
    }
    if chars_eq_str(code, "AudioVolumeUp") {
        return KEY_VOLUMEUP;
    }
    if chars_eq_str(code, "Pause") {
        return KEY_PAUSE;
    }
    if chars_eq_str(code, "Lang1") {
        return KEY_HANGUEL;
    }
    if chars_eq_str(code, "Lang2") {
        return KEY_HANJA;
    }
    if chars_eq_str(code, "IntlYen") {
        return KEY_YEN;
    }
    if chars_eq_str(code, "OSLeft") {
        return KEY_LEFTMETA;
    }
    if chars_eq_str(code, "OSRight") {
        return KEY_RIGHTMETA;
    }
    if chars_eq_str(code, "ContextMenu") {
        return KEY_MENU;
    }
    if chars_eq_str(code, "Cancel") {
        return KEY_CANCEL;
    }
    if chars_eq_str(code, "Again") {
        return KEY_AGAIN;
    }
    if chars_eq_str(code, "Props") {
        return KEY_PROPS;
    }
    if chars_eq_str(code, "Undo") {
        return KEY_UNDO;
    }
    if chars_eq_str(code, "Copy") {
        return KEY_COPY;
    }
    if chars_eq_str(code, "Open") {
        return KEY_OPEN;
    }
    if chars_eq_str(code, "Paste") {
        return KEY_PASTE;
    }
    if chars_eq_str(code, "Find") {
        return KEY_FIND;
    }
    if chars_eq_str(code, "Cut") {
        return KEY_CUT;
    }
    if chars_eq_str(code, "Help") {
        return KEY_HELP;
    }
    if chars_eq_str(code, "LaunchMail") {
        return KEY_MAIL;
    }
    if chars_eq_str(code, "Eject") {
        return KEY_EJECTCD;
    }
    if chars_eq_str(code, "MediaTrackNext") {
        return KEY_NEXTSONG;
    }
    if chars_eq_str(code, "MediaPlayPause") {
        return KEY_PLAYPAUSE;
    }
    if chars_eq_str(code, "MediaTrackPrevious") {
        return KEY_PREVIOUSSONG;
    }
    if chars_eq_str(code, "MediaStop") {
        return KEY_STOPCD;
    }
    if chars_eq_str(code, "MediaSelect") {
        return KEY_MEDIA;
    }
    if chars_eq_str(code, "LaunchMediaPlayer") {
        return KEY_MEDIA;
    }
    if chars_eq_str(code, "Power") {
        return KEY_POWER;
    }
    if chars_eq_str(code, "Sleep") {
        return KEY_SLEEP;
    }
    if chars_eq_str(code, "WakeUp") {
        return KEY_WAKEUP;
    }
    if chars_eq_str(code, "ControlLeft") {
        return KEY_LEFTCTRL;
    }
    if chars_eq_str(code, "ControlRight") {
        return KEY_RIGHTCTRL;
    }
    if chars_eq_str(code, "AltLeft") {
        return KEY_LEFTALT;
    }
    if chars_eq_str(code, "AltRight") {
        return KEY_RIGHTALT;
    }
    if chars_eq_str(code, "MetaLeft") {
        return KEY_LEFTMETA;
    }
    if chars_eq_str(code, "MetaRight") {
        return KEY_RIGHTMETA;
    }
    if chars_eq_str(code, "ShiftLeft") {
        return KEY_LEFTSHIFT;
    }
    if chars_eq_str(code, "ShiftRight") {
        return KEY_RIGHTSHIFT;
    }
    KEY_UNKNOWN
}

} // verus!
