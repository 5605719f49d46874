//! Messages exchanged with the browser client, as the verified logic sees them.

use vstd::prelude::*;

verus! {

/// Current protocol version.
///
/// Clients and server negotiate on the minimum of their versions.
pub const PROTOCOL_VERSION: u32 = 3;

/// Oldest client protocol version the server still talks to.
pub const MIN_CLIENT_PROTOCOL_VERSION: u32 = 1;

#[derive(Clone, Copy, Debug, PartialEq, Eq, Structural)]
pub struct Hello {
    pub protocol_version: u32,
}

#[derive(Clone, Copy, Debug, PartialEq, Eq, Structural)]
pub enum PointerType {
    Unknown,
    Mouse,
    Pen,
    Touch,
}

#[derive(Clone, Copy, Debug, PartialEq, Eq, Structural)]
pub enum PointerEventType {
    DOWN,
    UP,
    CANCEL,
    MOVE,
    OVER,
    ENTER,
    LEAVE,
    OUT,
}

impl PointerEventType {
    /// Events that place or move a pointer (down, move, over, enter).
    pub open spec fn spec_is_contact(self) -> bool {
        self is DOWN || self is MOVE || self is OVER || self is ENTER
    }

    /// Whether the event places or moves a pointer rather than lifting it.
    pub fn is_contact(&self) -> (r: bool)
        ensures
            r == self.spec_is_contact(),
    {
        match self {
            PointerEventType::DOWN | PointerEventType::MOVE | PointerEventType::OVER
            | PointerEventType::ENTER => true,
            _ => false,
        }
    }
}

#[derive(Clone, Copy, Debug, PartialEq, Eq, Structural)]
pub enum KeyboardEventType {
    DOWN,
    UP,
    REPEAT,
}

#[derive(Clone, Copy, Debug, PartialEq, Eq, Structural)]
pub enum KeyboardLocation {
    STANDARD,
    LEFT,
    RIGHT,
    NUMPAD,
}

/// The location a browser reports as a number: 0 standard, 1 left, 2 right, 3 numpad.
pub open spec fn spec_location_from(code: u8) -> Option<KeyboardLocation> {
    if code == 0 {
        Some(KeyboardLocation::STANDARD)
    } else if code == 1 {
        Some(KeyboardLocation::LEFT)
    } else if code == 2 {
        Some(KeyboardLocation::RIGHT)
    } else if code == 3 {
        Some(KeyboardLocation::NUMPAD)
    } else {
        None
    }
}

/// Decodes a browser keyboard location code; every other code is refused.
pub fn location_from(code: u8) -> (r: Option<KeyboardLocation>)
    ensures
        r == spec_location_from(code),
{
    match code {
        0 => Some(KeyboardLocation::STANDARD),
        1 => Some(KeyboardLocation::LEFT),
        2 => Some(KeyboardLocation::RIGHT),
        3 => Some(KeyboardLocation::NUMPAD),
        _ => None,
    }
}

/// Pointer buttons as a set of flags: one of the named flags (or none), or a
/// combination of two or more of them.
#[derive(Clone, Copy, Debug, PartialEq, Eq, Structural)]
pub enum Button {
    NONE,
    PRIMARY,
    SECONDARY,
    AUXILARY,
    FOURTH,
    FIFTH,
    ERASER,
    /// Two or more of the flags above, by their bits.
    Combined(u8),
}

/// The flags that name a button; any other bit is unknown.
pub const BUTTON_ALL_BITS: u8 = 0b0011_1111;

/// The value of a flag set with at most one flag, by its bits; `None` for any other
/// value.
pub open spec fn spec_single_flag(bits: u8) -> Option<Button> {
    if bits == 0b0000_0000 {
        Some(Button::NONE)
    } else if bits == 0b0000_0001 {
        Some(Button::PRIMARY)
    } else if bits == 0b0000_0010 {
        Some(Button::SECONDARY)
    } else if bits == 0b0000_0100 {
        Some(Button::AUXILARY)
    } else if bits == 0b0000_1000 {
        Some(Button::FOURTH)
    } else if bits == 0b0001_0000 {
        Some(Button::FIFTH)
    } else if bits == 0b0010_0000 {
        Some(Button::ERASER)
    } else {
        None
    }
}

/// The button set with exactly the flags in `bits`.
pub open spec fn spec_button_of(bits: u8) -> Button {
    match spec_single_flag(bits) {
        Some(b) => b,
        None => Button::Combined(bits),
    }
}

impl Button {
    pub open spec fn spec_bits(self) -> u8 {
        match self {
            Button::NONE => 0b0000_0000,
            Button::PRIMARY => 0b0000_0001,
            Button::SECONDARY => 0b0000_0010,
            Button::AUXILARY => 0b0000_0100,
            Button::FOURTH => 0b0000_1000,
            Button::FIFTH => 0b0001_0000,
            Button::ERASER => 0b0010_0000,
            Button::Combined(b) => b,
        }
    }

    /// A set holds only known flags, and a combination is never a single flag.
    pub open spec fn wf(self) -> bool {
        &&& self.spec_bits() & !BUTTON_ALL_BITS == 0
        &&& self matches Button::Combined(b) ==> spec_single_flag(b) is None
    }

    /// The raw flag bits.
    pub fn bits(&self) -> (r: u8)
        ensures
            r == self.spec_bits(),
    {
        match self {
            Button::NONE => 0b0000_0000,
            Button::PRIMARY => 0b0000_0001,
            Button::SECONDARY => 0b0000_0010,
            Button::AUXILARY => 0b0000_0100,
            Button::FOURTH => 0b0000_1000,
            Button::FIFTH => 0b0001_0000,
            Button::ERASER => 0b0010_0000,
            Button::Combined(b) => *b,
        }
    }

    /// Accepts `bits` exactly when it sets no unknown flag.
    pub fn from_bits(bits: u8) -> (r: Option<Button>)
        ensures
            r is Some <==> bits & !BUTTON_ALL_BITS == 0,
            r matches Some(b) ==> b == spec_button_of(bits) && b.spec_bits() == bits && b.wf(),
    {
        if bits & !BUTTON_ALL_BITS != 0 {
            return None;
        }
        let b = match bits {
            0b0000_0000 => Button::NONE,
            0b0000_0001 => Button::PRIMARY,
            0b0000_0010 => Button::SECONDARY,
            0b0000_0100 => Button::AUXILARY,
            0b0000_1000 => Button::FOURTH,
            0b0001_0000 => Button::FIFTH,
            0b0010_0000 => Button::ERASER,
            _ => Button::Combined(bits),
        };
        Some(b)
    }

    pub open spec fn spec_contains(self, other: Button) -> bool {
        self.spec_bits() & other.spec_bits() == other.spec_bits()
    }

    /// Whether every flag of `other` is set in `self`.
    pub fn contains(&self, other: Button) -> (r: bool)
        ensures
            r == self.spec_contains(other),
    {
        let a = self.bits();
        let b = other.bits();
        a & b == b
    }
}

/// Law: two well-formed button sets are equal exactly when their bits are.
pub proof fn lemma_button_eq_iff_bits(a: Button, b: Button)
    requires
        a.wf(),
        b.wf(),
    ensures
        (a == b) <==> (a.spec_bits() == b.spec_bits()),
{
}

#[derive(Clone, Debug, PartialEq, Eq)]
pub struct KeyboardEvent {
    pub event_type: KeyboardEventType,
    pub code: String,
    pub key: String,
    pub location: KeyboardLocation,
    pub alt: bool,
    pub ctrl: bool,
    pub shift: bool,
    pub meta: bool,
}

#[derive(Clone, Copy, Debug, PartialEq, Eq, Structural)]
pub struct WheelEvent {
    pub dx: i32,
    pub dy: i32,
    pub timestamp: u64,
}

/// Messages the server sends to a client, apart from the input areas chosen in
/// the desktop window (which carry fractional coordinates).
#[derive(Clone, Debug, PartialEq, Eq)]
pub enum MessageOutbound {
    Hello(Hello),
    HelloNack { server_version: u32, min_client_version: u32, reason: String },
    HeartbeatAck { server_ts_ms: u64 },
    CapturableList(Vec<String>),
    NewVideo,
    VideoInit { codec_string: String },
    ConfigOk,
    ConfigError(String),
    Error(String),
}

} // verus!
