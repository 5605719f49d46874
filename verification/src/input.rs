//! Decisions of the virtual input devices (stylus, touch screen, mouse, keyboard):
//! which kernel input events a browser pointer, wheel or key event turns into.

use vstd::prelude::*;
use crate::keymap::{map_key, spec_map_key, KEY_0, KEY_1, KEY_2, KEY_3, KEY_4, KEY_5, KEY_6, KEY_7, KEY_8, KEY_9, KEY_A, KEY_B, KEY_C, KEY_D, KEY_E, KEY_F, KEY_LEFTALT, KEY_LEFTCTRL, KEY_LEFTMETA, KEY_LEFTSHIFT, KEY_U, KEY_UNKNOWN};
use crate::protocol::{Button, KeyboardEvent, KeyboardEventType, KeyboardLocation, PointerEventType, PointerType};
use crate::text::{chars_of, encode_utf16, hex_upper, spec_hex_upper, spec_utf16};

verus! {

/// Kernel event type of a key or button.
pub const EV_KEY: u16 = 1;
/// Kernel event type of a relative axis.
pub const EV_REL: u16 = 2;
/// Kernel event type of an absolute axis.
pub const EV_ABS: u16 = 3;

pub const EC_KEY_MOUSE_LEFT: i32 = 0x110;
pub const EC_KEY_MOUSE_RIGHT: i32 = 0x111;
pub const EC_KEY_MOUSE_MIDDLE: i32 = 0x112;
pub const EC_KEY_TOOL_PEN: i32 = 0x140;
pub const EC_KEY_TOOL_RUBBER: i32 = 0x141;
pub const EC_KEY_TOUCH: i32 = 0x14a;
pub const EC_KEY_TOOL_FINGER: i32 = 0x145;
pub const EC_KEY_TOOL_DOUBLETAP: i32 = 0x14d;
pub const EC_KEY_TOOL_TRIPLETAP: i32 = 0x14e;
pub const EC_KEY_TOOL_QUADTAP: i32 = 0x14f;
pub const EC_KEY_TOOL_QUINTTAP: i32 = 0x148;

pub const EC_REL_HWHEEL: i32 = 0x06;
pub const EC_REL_WHEEL: i32 = 0x08;
pub const EC_REL_WHEEL_HI_RES: i32 = 0x0b;
pub const EC_REL_HWHEEL_HI_RES: i32 = 0x0c;

pub const EC_ABSOLUTE_X: i32 = 0x00;
pub const EC_ABSOLUTE_Y: i32 = 0x01;
pub const EC_ABSOLUTE_PRESSURE: i32 = 0x18;
pub const EC_ABSOLUTE_DISTANCE: i32 = 0x19;
pub const EC_ABSOLUTE_TILT_X: i32 = 0x1a;
pub const EC_ABSOLUTE_TILT_Y: i32 = 0x1b;
pub const EC_ABS_MT_SLOT: i32 = 0x2f;
pub const EC_ABS_MT_TOUCH_MAJOR: i32 = 0x30;
pub const EC_ABS_MT_TOUCH_MINOR: i32 = 0x31;
pub const EC_ABS_MT_ORIENTATION: i32 = 0x34;
pub const EC_ABS_MT_POSITION_X: i32 = 0x35;
pub const EC_ABS_MT_POSITION_Y: i32 = 0x36;
pub const EC_ABS_MT_TRACKING_ID: i32 = 0x39;
pub const EC_ABS_MT_PRESSURE: i32 = 0x3a;

/// Largest value of every absolute axis; a pointer coordinate of 1.0 maps here.
pub const ABS_MAXVAL: i32 = 65535;

/// Number of simultaneous touches the touch device reports.
pub const TOUCH_SLOTS: usize = 5;

/// How many input events of each device trigger a mapping of the device to the
/// whole screen.
pub const MAX_SCREEN_MAPPING_TRIES: usize = 100;

/// A pen that hovers without news for longer than this (in nanoseconds) is
/// considered to have left proximity.
pub const PEN_HOVER_TIMEOUT_NS: u64 = 50_000_000;

/// One kernel input event.
#[derive(Clone, Copy, Debug, PartialEq, Eq, Structural)]
pub struct InputEventRecord {
    pub typ: u16,
    pub code: i32,
    pub value: i32,
}

pub open spec fn key(code: i32, value: i32) -> InputEventRecord {
    InputEventRecord { typ: EV_KEY, code, value }
}

pub open spec fn abs(code: i32, value: i32) -> InputEventRecord {
    InputEventRecord { typ: EV_ABS, code, value }
}

pub open spec fn rel(code: i32, value: i32) -> InputEventRecord {
    InputEventRecord { typ: EV_REL, code, value }
}

fn key_ev(code: i32, value: i32) -> (r: InputEventRecord)
    ensures
        r == key(code, value),
{
    InputEventRecord { typ: EV_KEY, code, value }
}

fn abs_ev(code: i32, value: i32) -> (r: InputEventRecord)
    ensures
        r == abs(code, value),
{
    InputEventRecord { typ: EV_ABS, code, value }
}

fn rel_ev(code: i32, value: i32) -> (r: InputEventRecord)
    ensures
        r == rel(code, value),
{
    InputEventRecord { typ: EV_REL, code, value }
}

/// The virtual devices the server creates.
#[derive(Clone, Copy, Debug, PartialEq, Eq, Structural)]
pub enum DeviceRole {
    Keyboard,
    Mouse,
    Stylus,
    Touch,
}

/// Kinds of input device a client session may drive.
#[derive(Clone, Copy, Debug, PartialEq, Eq, Structural)]
pub enum InputDeviceType {
    EnigoDevice,
    UInputDevice,
    WindowsInput,
}

/// What the device layer must do, in order.
#[derive(Clone, Debug, PartialEq, Eq)]
pub enum UInputAction {
    /// Write these events to the device, followed by a synchronisation report.
    Emit(DeviceRole, Vec<InputEventRecord>),
    /// Map the device to the entire screen (on X11), `pen` telling whether it is
    /// the stylus.
    MapToScreen(DeviceRole, bool),
}

/// The spec value of an action.
pub enum ActionSpec {
    Emit(DeviceRole, Seq<InputEventRecord>),
    MapToScreen(DeviceRole, bool),
}

impl UInputAction {
    pub open spec fn spec_view(&self) -> ActionSpec {
        match self {
            UInputAction::Emit(d, evs) => ActionSpec::Emit(*d, evs@),
            UInputAction::MapToScreen(d, pen) => ActionSpec::MapToScreen(*d, *pen),
        }
    }
}

pub open spec fn actions_view(v: Seq<UInputAction>) -> Seq<ActionSpec> {
    v.map_values(|a: UInputAction| a.spec_view())
}

/// The `BTN_TOOL_*` key of a count of touches on the screen; counts above five
/// saturate at the five-finger key.
pub open spec fn spec_tool_key_for_touch_count(count: int) -> i32 {
    if count == 1 {
        EC_KEY_TOOL_FINGER
    } else if count == 2 {
        EC_KEY_TOOL_DOUBLETAP
    } else if count == 3 {
        EC_KEY_TOOL_TRIPLETAP
    } else if count == 4 {
        EC_KEY_TOOL_QUADTAP
    } else {
        EC_KEY_TOOL_QUINTTAP
    }
}

/// Maps a live count of concurrently active touches to its `BTN_TOOL_*` key.
pub fn tool_key_for_touch_count(count: usize) -> (r: i32)
    ensures
        r == spec_tool_key_for_touch_count(count as int),
{
    match count {
        1 => EC_KEY_TOOL_FINGER,
        2 => EC_KEY_TOOL_DOUBLETAP,
        3 => EC_KEY_TOOL_TRIPLETAP,
        4 => EC_KEY_TOOL_QUADTAP,
        _ => EC_KEY_TOOL_QUINTTAP,
    }
}

/// Hover distance of the stylus: 0 while the pen presses, the axis maximum otherwise.
pub open spec fn spec_hover_distance(pressure_positive: bool) -> i32 {
    if pressure_positive { 0 } else { ABS_MAXVAL }
}

/// Hover distance of the stylus, given whether the reported pressure is positive.
pub fn compute_hover_distance(pressure_positive: bool) -> (r: i32)
    ensures
        r == spec_hover_distance(pressure_positive),
{
    if pressure_positive { 0 } else { ABS_MAXVAL }
}

/// Direction of a wheel delta: -1, 0 or 1.
pub open spec fn spec_direction(d: i32) -> i32 {
    if d == 0 { 0 } else if d < 0 { -1i32 } else { 1 }
}

/// The events one wheel step produces on the mouse.
pub open spec fn spec_wheel_events(dx: i32, dy: i32) -> Seq<InputEventRecord> {
    seq![
        rel(EC_REL_WHEEL, spec_direction(dy)),
        rel(EC_REL_HWHEEL, spec_direction(dx)),
        rel(EC_REL_WHEEL_HI_RES, dy),
        rel(EC_REL_HWHEEL_HI_RES, dx),
    ]
}

/// Translates a wheel event into the mouse events to emit.
pub fn wheel_events(dx: i32, dy: i32) -> (r: Vec<InputEventRecord>)
    ensures
        r@ == spec_wheel_events(dx, dy),
{
    let dir_y: i32 = if dy == 0 { 0 } else if dy < 0 { -1 } else { 1 };
    let dir_x: i32 = if dx == 0 { 0 } else if dx < 0 { -1 } else { 1 };
    let mut v: Vec<InputEventRecord> = Vec::new();
    v.push(rel_ev(EC_REL_WHEEL, dir_y));
    v.push(rel_ev(EC_REL_HWHEEL, dir_x));
    v.push(rel_ev(EC_REL_WHEEL_HI_RES, dy));
    v.push(rel_ev(EC_REL_HWHEEL_HI_RES, dx));
    v
}

/// A pointer event with its coordinates already scaled to the absolute axes
/// (0..=65535) of the devices.
#[derive(Clone, Copy, Debug, PartialEq, Eq, Structural)]
pub struct PointerInput {
    pub event_type: PointerEventType,
    pub pointer_type: PointerType,
    pub pointer_id: i64,
    pub button: Button,
    pub buttons: Button,
    /// Scaled horizontal position.
    pub x: i32,
    /// Scaled vertical position.
    pub y: i32,
    /// Scaled pressure.
    pub pressure: i32,
    /// Whether the reported pressure is above zero.
    pub pressure_positive: bool,
    pub tilt_x: i32,
    pub tilt_y: i32,
    /// Scaled larger side of the touch contact.
    pub touch_major: i32,
    /// Scaled smaller side of the touch contact.
    pub touch_minor: i32,
    /// 0 when the contact is at least as tall as wide, 1 otherwise.
    pub orientation: i32,
}

/// The abstract state of the virtual devices.
pub struct UInputModel {
    pub touches: Seq<Option<i64>>,
    pub tool_pen_active: bool,
    pub pen_touching: bool,
    pub last_pen_event_ns: u64,
    pub mouse_tries: nat,
    pub stylus_tries: nat,
    pub touch_tries: nat,
}

/// State of the virtual devices: the touch slots, the pen's proximity and contact,
/// and how often each device was mapped to the screen.
pub struct UInputState {
    touches: Vec<Option<i64>>,
    tool_pen_active: bool,
    pen_touching: bool,
    last_pen_event_ns: u64,
    mouse_tries: usize,
    stylus_tries: usize,
    touch_tries: usize,
}

/// Count of occupied slots.
pub open spec fn active_count(touches: Seq<Option<i64>>) -> nat
    decreases touches.len(),
{
    if touches.len() == 0 {
        0
    } else {
        active_count(touches.drop_last()) + if touches.last() is Some { 1nat } else { 0nat }
    }
}

/// The first slot, at `i` or later, that holds touch `id`.
pub open spec fn find_slot_from(touches: Seq<Option<i64>>, id: i64, i: int) -> Option<int>
    decreases touches.len() - i,
{
    if i < 0 || i >= touches.len() {
        None
    } else if touches[i] == Some(id) {
        Some(i)
    } else {
        find_slot_from(touches, id, i + 1)
    }
}

/// The first slot that holds touch `id`.
pub open spec fn find_slot(touches: Seq<Option<i64>>, id: i64) -> Option<int> {
    find_slot_from(touches, id, 0)
}

/// The first empty slot at `i` or later.
pub open spec fn first_free_from(touches: Seq<Option<i64>>, i: int) -> Option<int>
    decreases touches.len() - i,
{
    if i < 0 || i >= touches.len() {
        None
    } else if touches[i] is None {
        Some(i)
    } else {
        first_free_from(touches, i + 1)
    }
}

/// The first empty slot.
pub open spec fn first_free(touches: Seq<Option<i64>>) -> Option<int> {
    first_free_from(touches, 0)
}

/// Slot tables are five slots, with every touch id in at most one slot.
pub open spec fn slots_wf(touches: Seq<Option<i64>>) -> bool {
    &&& touches.len() == TOUCH_SLOTS
    &&& forall|i: int, j: int|
        0 <= i < touches.len() && 0 <= j < touches.len() && i != j && touches[i] is Some
            ==> touches[i] != touches[j]
}

/// The slot a touch is drawn in, and the slot table after allocating it: its own
/// slot when it has one, else the first empty slot; `None` when all slots are taken.
pub open spec fn spec_allocate_slot(touches: Seq<Option<i64>>, id: i64) -> Option<(int, Seq<Option<i64>>)> {
    match find_slot(touches, id) {
        Some(s) => Some((s, touches)),
        None => match first_free(touches) {
            Some(f) => Some((f, touches.update(f, Some(id)))),
            None => None,
        },
    }
}

impl UInputModel {
    pub open spec fn wf(self) -> bool {
        &&& slots_wf(self.touches)
        &&& self.mouse_tries <= MAX_SCREEN_MAPPING_TRIES
        &&& self.stylus_tries <= MAX_SCREEN_MAPPING_TRIES
        &&& self.touch_tries <= MAX_SCREEN_MAPPING_TRIES
    }
}

/// Time since `last`, zero when `last` lies ahead.
pub open spec fn elapsed_ns(now: u64, last: u64) -> u64 {
    if now >= last { (now - last) as u64 } else { 0 }
}

/// Releases a pen left in proximity by a browser that never reported it leaving:
/// after the hover timeout, the stylus gets a full release.
pub open spec fn spec_clear_stale_pen(m: UInputModel, now: u64) -> (UInputModel, Seq<ActionSpec>) {
    if m.tool_pen_active && !m.pen_touching && elapsed_ns(now, m.last_pen_event_ns) > PEN_HOVER_TIMEOUT_NS {
        (
            UInputModel { tool_pen_active: false, ..m },
            seq![ActionSpec::Emit(DeviceRole::Stylus, seq![
                key(EC_KEY_TOUCH, 0),
                key(EC_KEY_TOOL_PEN, 0),
                key(EC_KEY_TOOL_RUBBER, 0),
                abs(EC_ABSOLUTE_PRESSURE, 0),
            ])],
        )
    } else {
        (m, seq![])
    }
}

/// The tool keys of a touch that goes down while `count` touches (itself included)
/// are on the screen.
pub open spec fn spec_touch_down_keys(count: nat) -> Seq<InputEventRecord> {
    seq![key(EC_KEY_TOUCH, 1)] + (if count > 1 {
        seq![key(spec_tool_key_for_touch_count(count - 1), 0)]
    } else {
        seq![]
    }) + seq![key(spec_tool_key_for_touch_count(count as int), 1)]
}

/// The axis events of a touch contact in a slot.
pub open spec fn spec_touch_axes(inp: PointerInput) -> Seq<InputEventRecord> {
    seq![
        abs(EC_ABS_MT_PRESSURE, inp.pressure),
        abs(EC_ABS_MT_TOUCH_MAJOR, inp.touch_major),
        abs(EC_ABS_MT_TOUCH_MINOR, inp.touch_minor),
        abs(EC_ABS_MT_ORIENTATION, inp.orientation),
        abs(EC_ABS_MT_POSITION_X, inp.x),
        abs(EC_ABS_MT_POSITION_Y, inp.y),
        abs(EC_ABSOLUTE_X, inp.x),
        abs(EC_ABSOLUTE_Y, inp.y),
    ]
}

/// A touch event: contacts claim a slot and report position, pressure and size;
/// lifts free the slot; the tool key always follows the live count of touches.
pub open spec fn spec_touch_step(m: UInputModel, inp: PointerInput) -> (UInputModel, Seq<ActionSpec>) {
    if inp.event_type.spec_is_contact() {
        match spec_allocate_slot(m.touches, inp.pointer_id) {
            None => (m, seq![]),
            Some((s, t2)) => {
                let head = seq![abs(EC_ABS_MT_SLOT, s as i32), abs(EC_ABS_MT_TRACKING_ID, s as i32)];
                let keys = if inp.event_type is DOWN { spec_touch_down_keys(active_count(t2)) } else { seq![] };
                (
                    UInputModel { touches: t2, ..m },
                    seq![ActionSpec::Emit(DeviceRole::Touch, head + keys + spec_touch_axes(inp))],
                )
            },
        }
    } else {
        match find_slot(m.touches, inp.pointer_id) {
            None => (m, seq![]),
            Some(s) => {
                let before = active_count(m.touches);
                let evs = seq![
                    abs(EC_ABS_MT_SLOT, s as i32),
                    abs(EC_ABS_MT_TRACKING_ID, -1i32),
                    key(EC_KEY_TOUCH, 0),
                    key(spec_tool_key_for_touch_count(before as int), 0),
                ] + (if before - 1 >= 1 {
                    seq![key(spec_tool_key_for_touch_count(before - 1), 1)]
                } else {
                    seq![]
                });
                (
                    UInputModel { touches: m.touches.update(s, None), ..m },
                    seq![ActionSpec::Emit(DeviceRole::Touch, evs)],
                )
            },
        }
    }
}

/// A pen event: contact marks the pen as touching, tool keys follow proximity and
/// the eraser button, pressure is reported only while touching; lifts release all.
pub open spec fn spec_pen_step(m: UInputModel, inp: PointerInput) -> (UInputModel, Seq<ActionSpec>) {
    if inp.event_type.spec_is_contact() {
        let is_down = inp.event_type is DOWN;
        let touching = m.pen_touching || is_down;
        let ev1 = if is_down { seq![key(EC_KEY_TOUCH, 1)] } else { seq![] };
        let enter_pen = !m.tool_pen_active && !inp.buttons.spec_contains(Button::ERASER);
        let active1 = m.tool_pen_active || enter_pen;
        let ev2 = if enter_pen {
            seq![key(EC_KEY_TOOL_PEN, 1), key(EC_KEY_TOOL_RUBBER, 0)]
        } else {
            seq![]
        };
        let erasing = inp.button == Button::ERASER;
        let active2 = if erasing { false } else { active1 };
        let ev3 = if erasing {
            seq![key(EC_KEY_TOOL_PEN, 0), key(EC_KEY_TOOL_RUBBER, 1)]
        } else {
            seq![]
        };
        let pressure = if touching { inp.pressure } else { 0i32 };
        let ev4 = seq![
            abs(EC_ABSOLUTE_X, inp.x),
            abs(EC_ABSOLUTE_Y, inp.y),
            abs(EC_ABSOLUTE_PRESSURE, pressure),
            abs(EC_ABSOLUTE_TILT_X, inp.tilt_x),
            abs(EC_ABSOLUTE_TILT_Y, inp.tilt_y),
            abs(EC_ABSOLUTE_DISTANCE, spec_hover_distance(inp.pressure_positive)),
        ];
        (
            UInputModel { pen_touching: touching, tool_pen_active: active2, ..m },
            seq![ActionSpec::Emit(DeviceRole::Stylus, ev1 + ev2 + ev3 + ev4)],
        )
    } else {
        (
            UInputModel { pen_touching: false, tool_pen_active: false, ..m },
            seq![ActionSpec::Emit(DeviceRole::Stylus, seq![
                key(EC_KEY_TOUCH, 0),
                key(EC_KEY_TOOL_PEN, 0),
                key(EC_KEY_TOOL_RUBBER, 0),
                abs(EC_ABSOLUTE_PRESSURE, 0),
                abs(EC_ABSOLUTE_DISTANCE, ABS_MAXVAL),
            ])],
        )
    }
}

/// The mouse button key of a button, if it has one.
pub open spec fn spec_mouse_key(b: Button) -> Option<i32> {
    if b == Button::PRIMARY {
        Some(EC_KEY_MOUSE_LEFT)
    } else if b == Button::SECONDARY {
        Some(EC_KEY_MOUSE_RIGHT)
    } else if b == Button::AUXILARY {
        Some(EC_KEY_MOUSE_MIDDLE)
    } else {
        None
    }
}

/// A mouse event: a press reports its button, every contact the position; a lift
/// releases the button and emits nothing when there is no mouse button.
pub open spec fn spec_mouse_step(m: UInputModel, inp: PointerInput) -> (UInputModel, Seq<ActionSpec>) {
    if inp.event_type.spec_is_contact() {
        let press = if inp.event_type is DOWN {
            match spec_mouse_key(inp.button) {
                Some(k) => seq![key(k, 1)],
                None => seq![],
            }
        } else {
            seq![]
        };
        (m, seq![ActionSpec::Emit(DeviceRole::Mouse, press + seq![abs(EC_ABSOLUTE_X, inp.x), abs(EC_ABSOLUTE_Y, inp.y)])])
    } else {
        match spec_mouse_key(inp.button) {
            Some(k) => (m, seq![ActionSpec::Emit(DeviceRole::Mouse, seq![key(k, 0)])]),
            None => (m, seq![]),
        }
    }
}

/// The screen-mapping request of an event for a device, while tries remain.
pub open spec fn spec_map_request(tries: nat, role: DeviceRole, pen: bool) -> (nat, Seq<ActionSpec>) {
    if tries < MAX_SCREEN_MAPPING_TRIES {
        (tries + 1, seq![ActionSpec::MapToScreen(role, pen)])
    } else {
        (tries, seq![])
    }
}

/// One pointer event: the stale-pen check, the screen mapping of the device that
/// the pointer type selects, then that device's events.
pub open spec fn spec_pointer_step(m: UInputModel, inp: PointerInput, now: u64) -> (UInputModel, Seq<ActionSpec>) {
    let (m1, a1) = spec_clear_stale_pen(m, now);
    match inp.pointer_type {
        PointerType::Touch => {
            let (tries, a2) = spec_map_request(m1.touch_tries, DeviceRole::Touch, false);
            let (m3, a3) = spec_touch_step(UInputModel { touch_tries: tries, ..m1 }, inp);
            (m3, a1 + a2 + a3)
        },
        PointerType::Pen => {
            let (tries, a2) = spec_map_request(m1.stylus_tries, DeviceRole::Stylus, true);
            let (m3, a3) = spec_pen_step(UInputModel { stylus_tries: tries, last_pen_event_ns: now, ..m1 }, inp);
            (m3, a1 + a2 + a3)
        },
        _ => {
            let (tries, a2) = spec_map_request(m1.mouse_tries, DeviceRole::Mouse, false);
            let (m3, a3) = spec_mouse_step(UInputModel { mouse_tries: tries, ..m1 }, inp);
            (m3, a1 + a2 + a3)
        },
    }
}

proof fn lemma_active_count_bound(t: Seq<Option<i64>>)
    ensures
        active_count(t) <= t.len(),
    decreases t.len(),
{
    if t.len() > 0 {
        lemma_active_count_bound(t.drop_last());
    }
}

proof fn lemma_active_count_positive(t: Seq<Option<i64>>, i: int)
    requires
        0 <= i < t.len(),
        t[i] is Some,
    ensures
        active_count(t) >= 1,
    decreases t.len(),
{
    if i < t.len() - 1 {
        lemma_active_count_positive(t.drop_last(), i);
    }
}

proof fn lemma_find_slot_from_found(t: Seq<Option<i64>>, id: i64, i: int)
    requires
        0 <= i,
    ensures
        find_slot_from(t, id, i) matches Some(s) ==> i <= s < t.len() && t[s] == Some(id),
        find_slot_from(t, id, i) is None ==> forall|k: int| i <= k < t.len() ==> t[k] != Some(id),
    decreases t.len() - i,
{
    if i < t.len() && t[i] != Some(id) {
        lemma_find_slot_from_found(t, id, i + 1);
    }
}

proof fn lemma_first_free_from_found(t: Seq<Option<i64>>, i: int)
    requires
        0 <= i,
    ensures
        first_free_from(t, i) matches Some(s) ==> i <= s < t.len() && t[s] is None,
        first_free_from(t, i) matches Some(s) ==> forall|k: int| i <= k < s ==> t[k] is Some,
        first_free_from(t, i) is None ==> forall|k: int| i <= k < t.len() ==> t[k] is Some,
    decreases t.len() - i,
{
    if i < t.len() && t[i] is Some {
        lemma_first_free_from_found(t, i + 1);
    }
}

/// Law: every step keeps the slot table well formed: five slots, no touch twice.
pub proof fn lemma_step_keeps_wf(m: UInputModel, inp: PointerInput, now: u64)
    requires
        m.wf(),
    ensures
        spec_pointer_step(m, inp, now).0.wf(),
{
    lemma_find_slot_from_found(m.touches, inp.pointer_id, 0);
    lemma_first_free_from_found(m.touches, 0);
}

fn push_action(out: &mut Vec<UInputAction>, a: UInputAction)
    ensures
        actions_view(final(out)@) == actions_view(old(out)@).push(a.spec_view()),
{
    out.push(a);
    assert(actions_view(out@) =~= actions_view(old(out)@).push(a.spec_view()));
}

proof fn lemma_find_slot_from_unique(t: Seq<Option<i64>>, id: i64, f: int, i: int)
    requires
        0 <= i <= f < t.len(),
        t[f] == Some(id),
        forall|k: int| 0 <= k < t.len() && k != f ==> t[k] != Some(id),
    ensures
        find_slot_from(t, id, i) == Some(f),
    decreases f - i,
{
    if i < f {
        lemma_find_slot_from_unique(t, id, f, i + 1);
    }
}

/// Law: a touch that goes down on a free slot and then lifts leaves the slot table
/// exactly as it was before it went down.
pub proof fn lemma_touch_down_then_up_restores_slots(
    m: UInputModel,
    down: PointerInput,
    up: PointerInput,
    t1: u64,
    t2: u64,
)
    requires
        m.wf(),
        down.pointer_type is Touch,
        up.pointer_type is Touch,
        down.event_type is DOWN,
        up.event_type is UP,
        down.pointer_id == up.pointer_id,
        find_slot(m.touches, down.pointer_id) is None,
        first_free(m.touches) is Some,
    ensures
        spec_pointer_step(spec_pointer_step(m, down, t1).0, up, t2).0.touches == m.touches,
{
    let id = down.pointer_id;
    lemma_find_slot_from_found(m.touches, id, 0);
    lemma_first_free_from_found(m.touches, 0);
    let f = first_free(m.touches).unwrap();
    let m1 = spec_pointer_step(m, down, t1).0;
    assert(m1.touches == m.touches.update(f, Some(id)));
    lemma_find_slot_from_unique(m1.touches, id, f, 0);
    assert(m1.touches.update(f, None) =~= m.touches);
}

/// The events an action writes to a device, if it writes to that device.
pub open spec fn events_for(a: ActionSpec, role: DeviceRole) -> Option<Seq<InputEventRecord>> {
    match a {
        ActionSpec::Emit(d, evs) => if d == role { Some(evs) } else { None },
        ActionSpec::MapToScreen(_, _) => None,
    }
}

/// Whether no action writes to the touch screen.
pub open spec fn no_touch_emission(acts: Seq<ActionSpec>) -> bool {
    forall|k: int| 0 <= k < acts.len() ==> events_for(#[trigger] acts[k], DeviceRole::Touch) is None
}

/// Whether every slot and tracking id among some touch-screen events lies in
/// `0..=4` (a tracking id of -1 ends a contact).
pub open spec fn touch_events_in_range(evs: Seq<InputEventRecord>) -> bool {
    forall|i: int| 0 <= i < evs.len() && (#[trigger] evs[i]).typ == EV_ABS
        ==> (evs[i].code == EC_ABS_MT_SLOT ==> 0 <= evs[i].value < TOUCH_SLOTS)
            && (evs[i].code == EC_ABS_MT_TRACKING_ID ==> (0 <= evs[i].value < TOUCH_SLOTS || evs[i].value == -1))
}

/// Whether every slot and tracking id that the touch screen is sent lies in range.
pub open spec fn touch_ids_in_range(acts: Seq<ActionSpec>) -> bool {
    forall|k: int| 0 <= k < acts.len() && events_for(#[trigger] acts[k], DeviceRole::Touch) is Some
        ==> touch_events_in_range(events_for(acts[k], DeviceRole::Touch).unwrap())
}

/// The state after a sequence of pointer events, each with its time.
pub open spec fn run_steps(m: UInputModel, evs: Seq<(PointerInput, u64)>) -> UInputModel
    decreases evs.len(),
{
    if evs.len() == 0 {
        m
    } else {
        spec_pointer_step(run_steps(m, evs.drop_last()), evs.last().0, evs.last().1).0
    }
}

/// Whether the pen is down after a sequence of events: a pen `DOWN` puts it down, a
/// pen lift takes it up, other pen contacts and other pointers leave it.
pub open spec fn pen_down_after(down0: bool, evs: Seq<(PointerInput, u64)>) -> bool
    decreases evs.len(),
{
    if evs.len() == 0 {
        down0
    } else {
        let p = evs.last().0;
        let before = pen_down_after(down0, evs.drop_last());
        if p.pointer_type is Pen {
            p.event_type is DOWN || (p.event_type.spec_is_contact() && before)
        } else {
            before
        }
    }
}

proof fn lemma_touch_emission_shape(m: UInputModel, inp: PointerInput, now: u64)
    requires
        m.wf(),
        inp.pointer_type is Touch,
    ensures
        spec_pointer_step(m, inp, now).1 == spec_clear_stale_pen(m, now).1
            + spec_map_request(m.touch_tries, DeviceRole::Touch, false).1
            + spec_touch_step(UInputModel {
                touch_tries: spec_map_request(m.touch_tries, DeviceRole::Touch, false).0,
                ..spec_clear_stale_pen(m, now).0
            }, inp).1,
        spec_clear_stale_pen(m, now).0.touches == m.touches,
        no_touch_emission(spec_clear_stale_pen(m, now).1 + spec_map_request(m.touch_tries, DeviceRole::Touch, false).1),
        (spec_clear_stale_pen(m, now).1 + spec_map_request(m.touch_tries, DeviceRole::Touch, false).1).len() <= 2,
{
    let pre = spec_clear_stale_pen(m, now).1 + spec_map_request(m.touch_tries, DeviceRole::Touch, false).1;
    assert forall|k: int| 0 <= k < pre.len() implies events_for(#[trigger] pre[k], DeviceRole::Touch) is None by {
        if k < spec_clear_stale_pen(m, now).1.len() {
            assert(pre[k] == spec_clear_stale_pen(m, now).1[k]);
        } else {
            assert(pre[k] == spec_map_request(m.touch_tries, DeviceRole::Touch, false).1[k - spec_clear_stale_pen(m, now).1.len()]);
        }
    }
}

/// Law: a touch event sends the touch screen only slots and tracking ids in `0..=4`
/// (or -1 to end a contact), and leaves at most five touches tracked.
pub proof fn lemma_touch_ids_in_range(m: UInputModel, inp: PointerInput, now: u64)
    requires
        m.wf(),
        inp.pointer_type is Touch,
    ensures
        touch_ids_in_range(spec_pointer_step(m, inp, now).1),
        spec_pointer_step(m, inp, now).0.touches.len() == TOUCH_SLOTS,
        active_count(spec_pointer_step(m, inp, now).0.touches) <= TOUCH_SLOTS,
{
    lemma_step_keeps_wf(m, inp, now);
    lemma_active_count_bound(spec_pointer_step(m, inp, now).0.touches);
    lemma_touch_emission_shape(m, inp, now);
    let m1 = spec_clear_stale_pen(m, now).0;
    let pre = spec_clear_stale_pen(m, now).1 + spec_map_request(m.touch_tries, DeviceRole::Touch, false).1;
    let mt = UInputModel { touch_tries: spec_map_request(m.touch_tries, DeviceRole::Touch, false).0, ..m1 };
    let tail = spec_touch_step(mt, inp).1;
    let acts = spec_pointer_step(m, inp, now).1;
    assert(acts == pre + tail);
    lemma_find_slot_from_found(m.touches, inp.pointer_id, 0);
    lemma_first_free_from_found(m.touches, 0);
    assert forall|k: int| 0 <= k < acts.len() && events_for(#[trigger] acts[k], DeviceRole::Touch) is Some
        implies touch_events_in_range(events_for(acts[k], DeviceRole::Touch).unwrap()) by {
        if k < pre.len() {
            assert(acts[k] == pre[k]);
        } else {
            assert(acts[k] == tail[k - pre.len()]);
            let evs = events_for(acts[k], DeviceRole::Touch).unwrap();
            if inp.event_type.spec_is_contact() {
                let (sl, t2) = spec_allocate_slot(m.touches, inp.pointer_id).unwrap();
                assert(0 <= sl < TOUCH_SLOTS);
                let head = seq![abs(EC_ABS_MT_SLOT, sl as i32), abs(EC_ABS_MT_TRACKING_ID, sl as i32)];
                let keys = if inp.event_type is DOWN { spec_touch_down_keys(active_count(t2)) } else { seq![] };
                assert(evs == head + keys + spec_touch_axes(inp));
                assert forall|i: int| 0 <= i < evs.len() && (#[trigger] evs[i]).typ == EV_ABS
                    implies (evs[i].code == EC_ABS_MT_SLOT ==> 0 <= evs[i].value < TOUCH_SLOTS)
                        && (evs[i].code == EC_ABS_MT_TRACKING_ID ==> (0 <= evs[i].value < TOUCH_SLOTS || evs[i].value == -1)) by {
                    if i < 2 {
                        assert(evs[i] == head[i]);
                    } else if i < 2 + keys.len() {
                        assert(evs[i] == keys[i - 2]);
                        assert(keys[i - 2].typ == EV_KEY);
                    } else {
                        assert(evs[i] == spec_touch_axes(inp)[i - 2 - keys.len()]);
                    }
                }
            } else {
                let sl = find_slot(m.touches, inp.pointer_id).unwrap();
                assert(0 <= sl < TOUCH_SLOTS);
            }
        }
    }
}

/// Law: touch slots follow the pointer ids. A touch that holds a slot is drawn in it
/// and keeps it; a new touch takes the lowest free slot; a new touch finds nothing
/// when all five slots are taken, and a lift of a touch that holds no slot sends
/// nothing, both leaving the slots as they were.
pub proof fn lemma_touch_slot_assignment(m: UInputModel, inp: PointerInput, now: u64)
    requires
        m.wf(),
        inp.pointer_type is Touch,
    ensures
        ({
            let m2 = spec_pointer_step(m, inp, now).0;
            let acts = spec_pointer_step(m, inp, now).1;
            let found = find_slot(m.touches, inp.pointer_id);
            let free = first_free(m.touches);
            &&& (inp.event_type.spec_is_contact() && found is Some) ==> {
                &&& m2.touches == m.touches
                &&& events_for(acts.last(), DeviceRole::Touch) is Some
                &&& events_for(acts.last(), DeviceRole::Touch).unwrap()[0] == abs(EC_ABS_MT_SLOT, found.unwrap() as i32)
            }
            &&& (inp.event_type.spec_is_contact() && found is None && free is Some) ==> {
                &&& m2.touches == m.touches.update(free.unwrap(), Some(inp.pointer_id))
                &&& forall|k: int| 0 <= k < free.unwrap() ==> m.touches[k] is Some
                &&& events_for(acts.last(), DeviceRole::Touch) is Some
                &&& events_for(acts.last(), DeviceRole::Touch).unwrap()[0] == abs(EC_ABS_MT_SLOT, free.unwrap() as i32)
            }
            &&& (inp.event_type.spec_is_contact() && found is None && free is None)
                ==> m2.touches == m.touches && no_touch_emission(acts)
            &&& (!inp.event_type.spec_is_contact() && found is None)
                ==> m2.touches == m.touches && no_touch_emission(acts)
            &&& (!inp.event_type.spec_is_contact() && found is Some)
                ==> m2.touches == m.touches.update(found.unwrap(), None)
        }),
{
    lemma_touch_emission_shape(m, inp, now);
    lemma_first_free_from_found(m.touches, 0);
    lemma_find_slot_from_found(m.touches, inp.pointer_id, 0);
    let pre = spec_clear_stale_pen(m, now).1 + spec_map_request(m.touch_tries, DeviceRole::Touch, false).1;
    let acts = spec_pointer_step(m, inp, now).1;
    let mt = UInputModel {
        touch_tries: spec_map_request(m.touch_tries, DeviceRole::Touch, false).0,
        ..spec_clear_stale_pen(m, now).0
    };
    let tail = spec_touch_step(mt, inp).1;
    assert(mt.touches == m.touches);
    assert(acts == pre + tail);
    assert(spec_pointer_step(m, inp, now).0 == spec_touch_step(mt, inp).0);
    if tail.len() == 0 {
        assert(acts =~= pre);
    } else {
        assert(tail.len() == 1);
        assert(acts.last() == tail[0]);
    }
}

/// Law: the pen is down exactly when a pen `DOWN` came with no pen lift after it,
/// whatever other pointers did in between.
pub proof fn lemma_pen_down_tracks_events(m: UInputModel, evs: Seq<(PointerInput, u64)>)
    ensures
        run_steps(m, evs).pen_touching == pen_down_after(m.pen_touching, evs),
    decreases evs.len(),
{
    if evs.len() > 0 {
        lemma_pen_down_tracks_events(m, evs.drop_last());
    }
}

/// Law: a pen contact reports its pressure exactly while the pen is down, else zero;
/// a pen lift leaves the pen up and out of proximity, with a full release of the
/// stylus as the last thing sent.
pub proof fn lemma_pen_pressure_while_down(m: UInputModel, inp: PointerInput, now: u64)
    requires
        inp.pointer_type is Pen,
    ensures
        ({
            let m2 = spec_pointer_step(m, inp, now).0;
            let acts = spec_pointer_step(m, inp, now).1;
            let stylus = events_for(acts.last(), DeviceRole::Stylus);
            &&& m2.pen_touching == (inp.event_type is DOWN || (inp.event_type.spec_is_contact() && m.pen_touching))
            &&& inp.event_type.spec_is_contact() ==> {
                &&& stylus is Some
                &&& stylus.unwrap().len() >= 6
                &&& stylus.unwrap()[stylus.unwrap().len() - 4]
                    == abs(EC_ABSOLUTE_PRESSURE, if m2.pen_touching { inp.pressure } else { 0i32 })
            }
            &&& !inp.event_type.spec_is_contact() ==> {
                &&& !m2.pen_touching && !m2.tool_pen_active
                &&& stylus == Some(seq![
                    key(EC_KEY_TOUCH, 0),
                    key(EC_KEY_TOOL_PEN, 0),
                    key(EC_KEY_TOOL_RUBBER, 0),
                    abs(EC_ABSOLUTE_PRESSURE, 0),
                    abs(EC_ABSOLUTE_DISTANCE, ABS_MAXVAL),
                ])
            }
        }),
{
}

/// Law: whatever sequence of pointer events arrives, the slot table stays well
/// formed: five slots, at most five touches, no touch in two slots.
pub proof fn lemma_run_keeps_wf(m: UInputModel, evs: Seq<(PointerInput, u64)>)
    requires
        m.wf(),
    ensures
        run_steps(m, evs).wf(),
        active_count(run_steps(m, evs).touches) <= TOUCH_SLOTS,
    decreases evs.len(),
{
    if evs.len() > 0 {
        lemma_run_keeps_wf(m, evs.drop_last());
        lemma_step_keeps_wf(run_steps(m, evs.drop_last()), evs.last().0, evs.last().1);
    }
    lemma_active_count_bound(run_steps(m, evs).touches);
}

impl View for UInputState {
    type V = UInputModel;

    closed spec fn view(&self) -> UInputModel {
        UInputModel {
            touches: self.touches@,
            tool_pen_active: self.tool_pen_active,
            pen_touching: self.pen_touching,
            last_pen_event_ns: self.last_pen_event_ns,
            mouse_tries: self.mouse_tries as nat,
            stylus_tries: self.stylus_tries as nat,
            touch_tries: self.touch_tries as nat,
        }
    }
}

impl UInputState {
    /// Devices just created at time `now_ns`: no touches, no pen in proximity.
    pub fn new(now_ns: u64) -> (r: UInputState)
        ensures
            r@.wf(),
            r@.touches == Seq::new(TOUCH_SLOTS as nat, |i: int| None::<i64>),
            !r@.tool_pen_active,
            !r@.pen_touching,
            r@.last_pen_event_ns == now_ns,
            r@.mouse_tries == 0 && r@.stylus_tries == 0 && r@.touch_tries == 0,
    {
        let mut touches: Vec<Option<i64>> = Vec::new();
        let mut i: usize = 0;
        while i < TOUCH_SLOTS
            invariant
                i <= TOUCH_SLOTS,
                touches@ == Seq::new(i as nat, |k: int| None::<i64>),
            decreases TOUCH_SLOTS - i,
        {
            touches.push(None);
            i = i + 1;
        }
        UInputState {
            touches,
            tool_pen_active: false,
            pen_touching: false,
            last_pen_event_ns: now_ns,
            mouse_tries: 0,
            stylus_tries: 0,
            touch_tries: 0,
        }
    }

    pub open spec fn wf(&self) -> bool {
        self@.wf()
    }

    /// The slot holding touch `id`.
    pub fn find_slot(&self, id: i64) -> (r: Option<usize>)
        ensures
            r matches Some(s) ==> find_slot(self@.touches, id) == Some(s as int),
            r is None ==> find_slot(self@.touches, id) is None,
    {
        let mut i: usize = 0;
        while i < self.touches.len()
            invariant
                i <= self.touches@.len(),
                find_slot(self@.touches, id) == find_slot_from(self@.touches, id, i as int),
            decreases self.touches@.len() - i,
        {
            if self.touches[i] == Some(id) {
                return Some(i);
            }
            i = i + 1;
        }
        None
    }

    fn first_free(&self) -> (r: Option<usize>)
        ensures
            r matches Some(s) ==> first_free(self@.touches) == Some(s as int),
            r is None ==> first_free(self@.touches) is None,
    {
        let mut i: usize = 0;
        while i < self.touches.len()
            invariant
                i <= self.touches@.len(),
                first_free(self@.touches) == first_free_from(self@.touches, i as int),
            decreases self.touches@.len() - i,
        {
            if self.touches[i].is_none() {
                return Some(i);
            }
            i = i + 1;
        }
        None
    }

    /// Number of touches on the screen.
    pub fn active_count(&self) -> (r: usize)
        ensures
            r == active_count(self@.touches),
    {
        let mut n: usize = 0;
        let mut i: usize = 0;
        while i < self.touches.len()
            invariant
                i <= self.touches@.len(),
                n == active_count(self@.touches.take(i as int)),
                n <= i,
            decreases self.touches@.len() - i,
        {
            assert(self@.touches.take(i + 1).drop_last() == self@.touches.take(i as int));
            if self.touches[i].is_some() {
                n = n + 1;
            }
            i = i + 1;
        }
        assert(self@.touches.take(i as int) == self@.touches);
        n
    }

    /// Claims a slot for touch `id`: its own slot, else the first empty one.
    pub fn allocate_slot(&mut self, id: i64) -> (r: Option<usize>)
        requires
            old(self).wf(),
        ensures
            final(self).wf(),
            spec_allocate_slot(old(self)@.touches, id) matches Some((s, _)) ==> 0 <= s < TOUCH_SLOTS,
            match spec_allocate_slot(old(self)@.touches, id) {
                Some((s, t2)) => r == Some(s as usize) && final(self)@ == UInputModel { touches: t2, ..old(self)@ },
                None => r is None && final(self)@ == old(self)@,
            },
    {
        proof {
            lemma_find_slot_from_found(self@.touches, id, 0);
            lemma_first_free_from_found(self@.touches, 0);
        }
        match self.find_slot(id) {
            Some(s) => Some(s),
            None => match self.first_free() {
                Some(f) => {
                    self.touches.set(f, Some(id));
                    Some(f)
                },
                None => None,
            },
        }
    }

    fn clear_stale_pen(&mut self, now_ns: u64, out: &mut Vec<UInputAction>)
        requires
            old(self).wf(),
        ensures
            final(self).wf(),
            (final(self)@, actions_view(final(out)@)) == ({
                let (m, a) = spec_clear_stale_pen(old(self)@, now_ns);
                (m, actions_view(old(out)@) + a)
            }),
    {
        let elapsed: u64 = if now_ns >= self.last_pen_event_ns { now_ns - self.last_pen_event_ns } else { 0 };
        if self.tool_pen_active && !self.pen_touching && elapsed > PEN_HOVER_TIMEOUT_NS {
            self.tool_pen_active = false;
            let mut evs: Vec<InputEventRecord> = Vec::new();
            evs.push(key_ev(EC_KEY_TOUCH, 0));
            evs.push(key_ev(EC_KEY_TOOL_PEN, 0));
            evs.push(key_ev(EC_KEY_TOOL_RUBBER, 0));
            evs.push(abs_ev(EC_ABSOLUTE_PRESSURE, 0));
            assert(evs@ =~= seq![
                key(EC_KEY_TOUCH, 0),
                key(EC_KEY_TOOL_PEN, 0),
                key(EC_KEY_TOOL_RUBBER, 0),
                abs(EC_ABSOLUTE_PRESSURE, 0),
            ]);
            push_action(out, UInputAction::Emit(DeviceRole::Stylus, evs));
            assert(actions_view(out@) =~= actions_view(old(out)@) + spec_clear_stale_pen(old(self)@, now_ns).1);
        } else {
            assert(actions_view(out@) =~= actions_view(old(out)@) + spec_clear_stale_pen(old(self)@, now_ns).1);
        }
    }

    fn touch_step(&mut self, inp: &PointerInput, out: &mut Vec<UInputAction>)
        requires
            old(self).wf(),
        ensures
            final(self).wf(),
            (final(self)@, actions_view(final(out)@)) == ({
                let (m, a) = spec_touch_step(old(self)@, *inp);
                (m, actions_view(old(out)@) + a)
            }),
    {
        proof {
            lemma_find_slot_from_found(self@.touches, inp.pointer_id, 0);
        }
        if inp.event_type.is_contact() {
            let slot = match self.allocate_slot(inp.pointer_id) {
                Some(s) => s,
                None => {
                    assert(actions_view(out@) =~= actions_view(old(out)@) + spec_touch_step(old(self)@, *inp).1);
                    return;
                },
            };
            let mut evs: Vec<InputEventRecord> = Vec::new();
            evs.push(abs_ev(EC_ABS_MT_SLOT, slot as i32));
            evs.push(abs_ev(EC_ABS_MT_TRACKING_ID, slot as i32));
            let ghost head = evs@;
            if inp.event_type == PointerEventType::DOWN {
                evs.push(key_ev(EC_KEY_TOUCH, 1));
                let active = self.active_count();
                proof {
                    lemma_active_count_bound(self@.touches);
                }
                if active > 1 {
                    evs.push(key_ev(tool_key_for_touch_count(active - 1), 0));
                }
                evs.push(key_ev(tool_key_for_touch_count(active), 1));
                assert(evs@ =~= head + spec_touch_down_keys(active_count(self@.touches)));
            } else {
                assert(evs@ =~= head + Seq::<InputEventRecord>::empty());
            }
            let ghost with_keys = evs@;
            evs.push(abs_ev(EC_ABS_MT_PRESSURE, inp.pressure));
            evs.push(abs_ev(EC_ABS_MT_TOUCH_MAJOR, inp.touch_major));
            evs.push(abs_ev(EC_ABS_MT_TOUCH_MINOR, inp.touch_minor));
            evs.push(abs_ev(EC_ABS_MT_ORIENTATION, inp.orientation));
            evs.push(abs_ev(EC_ABS_MT_POSITION_X, inp.x));
            evs.push(abs_ev(EC_ABS_MT_POSITION_Y, inp.y));
            evs.push(abs_ev(EC_ABSOLUTE_X, inp.x));
            evs.push(abs_ev(EC_ABSOLUTE_Y, inp.y));
            assert(evs@ =~= with_keys + spec_touch_axes(*inp));
            proof {
                let (s, t2) = spec_allocate_slot(old(self)@.touches, inp.pointer_id).unwrap();
                assert(slot as int == s);
                assert(self@.touches == t2);
                assert(head =~= seq![abs(EC_ABS_MT_SLOT, s as i32), abs(EC_ABS_MT_TRACKING_ID, s as i32)]);
                assert(evs@ == spec_touch_step(old(self)@, *inp).1[0]->Emit_1);
            }
            push_action(out, UInputAction::Emit(DeviceRole::Touch, evs));
            assert(actions_view(out@) =~= actions_view(old(out)@) + spec_touch_step(old(self)@, *inp).1);
        } else {
            match self.find_slot(inp.pointer_id) {
                None => {
                    assert(actions_view(out@) =~= actions_view(old(out)@) + spec_touch_step(old(self)@, *inp).1);
                },
                Some(slot) => {
                    let before = self.active_count();
                    proof {
                        lemma_active_count_bound(self@.touches);
                        lemma_active_count_positive(self@.touches, slot as int);
                    }
                    let mut evs: Vec<InputEventRecord> = Vec::new();
                    evs.push(abs_ev(EC_ABS_MT_SLOT, slot as i32));
                    evs.push(abs_ev(EC_ABS_MT_TRACKING_ID, -1));
                    evs.push(key_ev(EC_KEY_TOUCH, 0));
                    evs.push(key_ev(tool_key_for_touch_count(before), 0));
                    let after = before - 1;
                    if after >= 1 {
                        evs.push(key_ev(tool_key_for_touch_count(after), 1));
                    }
                    let ghost t0 = self@.touches;
                    self.touches.set(slot, None);
                    proof {
                        assert forall|i: int, j: int|
                            0 <= i < self@.touches.len() && 0 <= j < self@.touches.len() && i != j
                                && self@.touches[i] is Some implies self@.touches[i] != self@.touches[j] by {
                            assert(t0[i] is Some);
                        }
                    }
                    assert(evs@ =~= spec_touch_step(old(self)@, *inp).1[0]->Emit_1);
                    push_action(out, UInputAction::Emit(DeviceRole::Touch, evs));
                    assert(actions_view(out@) =~= actions_view(old(out)@) + spec_touch_step(old(self)@, *inp).1);
                },
            }
        }
    }

    fn pen_step(&mut self, inp: &PointerInput, out: &mut Vec<UInputAction>)
        requires
            old(self).wf(),
        ensures
            final(self).wf(),
            (final(self)@, actions_view(final(out)@)) == ({
                let (m, a) = spec_pen_step(old(self)@, *inp);
                (m, actions_view(old(out)@) + a)
            }),
    {
        let mut evs: Vec<InputEventRecord> = Vec::new();
        if inp.event_type.is_contact() {
            if inp.event_type == PointerEventType::DOWN {
                self.pen_touching = true;
                evs.push(key_ev(EC_KEY_TOUCH, 1));
            }
            if !self.tool_pen_active && !inp.buttons.contains(Button::ERASER) {
                evs.push(key_ev(EC_KEY_TOOL_PEN, 1));
                evs.push(key_ev(EC_KEY_TOOL_RUBBER, 0));
                self.tool_pen_active = true;
            }
            if inp.button == Button::ERASER {
                evs.push(key_ev(EC_KEY_TOOL_PEN, 0));
                evs.push(key_ev(EC_KEY_TOOL_RUBBER, 1));
                self.tool_pen_active = false;
            }
            let pressure = if self.pen_touching { inp.pressure } else { 0 };
            evs.push(abs_ev(EC_ABSOLUTE_X, inp.x));
            evs.push(abs_ev(EC_ABSOLUTE_Y, inp.y));
            evs.push(abs_ev(EC_ABSOLUTE_PRESSURE, pressure));
            evs.push(abs_ev(EC_ABSOLUTE_TILT_X, inp.tilt_x));
            evs.push(abs_ev(EC_ABSOLUTE_TILT_Y, inp.tilt_y));
            evs.push(abs_ev(EC_ABSOLUTE_DISTANCE, compute_hover_distance(inp.pressure_positive)));
        } else {
            evs.push(key_ev(EC_KEY_TOUCH, 0));
            evs.push(key_ev(EC_KEY_TOOL_PEN, 0));
            evs.push(key_ev(EC_KEY_TOOL_RUBBER, 0));
            evs.push(abs_ev(EC_ABSOLUTE_PRESSURE, 0));
            evs.push(abs_ev(EC_ABSOLUTE_DISTANCE, ABS_MAXVAL));
            self.tool_pen_active = false;
            self.pen_touching = false;
        }
        assert(evs@ =~= spec_pen_step(old(self)@, *inp).1[0]->Emit_1);
        push_action(out, UInputAction::Emit(DeviceRole::Stylus, evs));
        assert(actions_view(out@) =~= actions_view(old(out)@) + spec_pen_step(old(self)@, *inp).1);
    }

    fn mouse_step(&self, inp: &PointerInput, out: &mut Vec<UInputAction>)
        ensures
            actions_view(final(out)@) == actions_view(old(out)@) + spec_mouse_step(self@, *inp).1,
    {
        let key_code: Option<i32> = if inp.button == Button::PRIMARY {
            Some(EC_KEY_MOUSE_LEFT)
        } else if inp.button == Button::SECONDARY {
            Some(EC_KEY_MOUSE_RIGHT)
        } else if inp.button == Button::AUXILARY {
            Some(EC_KEY_MOUSE_MIDDLE)
        } else {
            None
        };
        if inp.event_type.is_contact() {
            let mut evs: Vec<InputEventRecord> = Vec::new();
            if inp.event_type == PointerEventType::DOWN {
                if let Some(k) = key_code {
                    evs.push(key_ev(k, 1));
                }
            }
            evs.push(abs_ev(EC_ABSOLUTE_X, inp.x));
            evs.push(abs_ev(EC_ABSOLUTE_Y, inp.y));
            assert(evs@ =~= spec_mouse_step(self@, *inp).1[0]->Emit_1);
            push_action(out, UInputAction::Emit(DeviceRole::Mouse, evs));
            assert(actions_view(out@) =~= actions_view(old(out)@) + spec_mouse_step(self@, *inp).1);
        } else {
            match key_code {
                Some(k) => {
                    let mut evs: Vec<InputEventRecord> = Vec::new();
                    evs.push(key_ev(k, 0));
                    assert(evs@ =~= seq![key(k, 0)]);
                    push_action(out, UInputAction::Emit(DeviceRole::Mouse, evs));
                    assert(actions_view(out@) =~= actions_view(old(out)@) + spec_mouse_step(self@, *inp).1);
                },
                None => {
                    assert(actions_view(out@) =~= actions_view(old(out)@) + spec_mouse_step(self@, *inp).1);
                },
            }
        }
    }

    /// Handles one pointer event at time `now_ns` and returns, in order, what the
    /// device layer must do.
    pub fn pointer_event(&mut self, inp: &PointerInput, now_ns: u64) -> (r: Vec<UInputAction>)
        requires
            old(self).wf(),
        ensures
            final(self).wf(),
            (final(self)@, actions_view(r@)) == spec_pointer_step(old(self)@, *inp, now_ns),
    {
        let mut out: Vec<UInputAction> = Vec::new();
        assert(actions_view(out@) =~= Seq::<ActionSpec>::empty());
        self.clear_stale_pen(now_ns, &mut out);
        let ghost a1 = actions_view(out@);
        match inp.pointer_type {
            PointerType::Touch => {
                if self.touch_tries < MAX_SCREEN_MAPPING_TRIES {
                    self.touch_tries = self.touch_tries + 1;
                    push_action(&mut out, UInputAction::MapToScreen(DeviceRole::Touch, false));
                }
                let ghost a2 = actions_view(out@);
                self.touch_step(inp, &mut out);
                assert(actions_view(out@) =~= spec_pointer_step(old(self)@, *inp, now_ns).1);
            },
            PointerType::Pen => {
                self.last_pen_event_ns = now_ns;
                if self.stylus_tries < MAX_SCREEN_MAPPING_TRIES {
                    self.stylus_tries = self.stylus_tries + 1;
                    push_action(&mut out, UInputAction::MapToScreen(DeviceRole::Stylus, true));
                }
                self.pen_step(inp, &mut out);
                assert(actions_view(out@) =~= spec_pointer_step(old(self)@, *inp, now_ns).1);
            },
            _ => {
                if self.mouse_tries < MAX_SCREEN_MAPPING_TRIES {
                    self.mouse_tries = self.mouse_tries + 1;
                    push_action(&mut out, UInputAction::MapToScreen(DeviceRole::Mouse, false));
                }
                self.mouse_step(inp, &mut out);
                assert(actions_view(out@) =~= spec_pointer_step(old(self)@, *inp, now_ns).1);
            },
        }
        out
    }
}

/// The key state a keyboard event reports: 0 up, 1 down, 2 repeat.
pub open spec fn spec_key_state(t: KeyboardEventType) -> i32 {
    match t {
        KeyboardEventType::UP => 0,
        KeyboardEventType::DOWN => 1,
        KeyboardEventType::REPEAT => 2,
    }
}

/// The key that types a hexadecimal digit in unicode input mode.
pub open spec fn spec_hex_digit_key(c: char) -> i32 {
    if c == '0' { KEY_0 } else if c == '1' { KEY_1 } else if c == '2' { KEY_2 }
    else if c == '3' { KEY_3 } else if c == '4' { KEY_4 } else if c == '5' { KEY_5 }
    else if c == '6' { KEY_6 } else if c == '7' { KEY_7 } else if c == '8' { KEY_8 }
    else if c == '9' { KEY_9 } else if c == 'A' { KEY_A } else if c == 'B' { KEY_B }
    else if c == 'C' { KEY_C } else if c == 'D' { KEY_D } else if c == 'E' { KEY_E }
    else if c == 'F' { KEY_F } else { KEY_UNKNOWN }
}

fn hex_digit_key(c: char) -> (r: i32)
    ensures
        r == spec_hex_digit_key(c),
{
    if c == '0' { KEY_0 } else if c == '1' { KEY_1 } else if c == '2' { KEY_2 }
    else if c == '3' { KEY_3 } else if c == '4' { KEY_4 } else if c == '5' { KEY_5 }
    else if c == '6' { KEY_6 } else if c == '7' { KEY_7 } else if c == '8' { KEY_8 }
    else if c == '9' { KEY_9 } else if c == 'A' { KEY_A } else if c == 'B' { KEY_B }
    else if c == 'C' { KEY_C } else if c == 'D' { KEY_D } else if c == 'E' { KEY_E }
    else if c == 'F' { KEY_F } else { KEY_UNKNOWN }
}

/// The upper-case hexadecimal digits of each code unit, one after the other.
pub open spec fn spec_units_hex(units: Seq<u16>) -> Seq<char>
    decreases units.len(),
{
    if units.len() == 0 {
        seq![]
    } else {
        spec_units_hex(units.drop_last()) + spec_hex_upper(units.last() as nat)
    }
}

/// A press and a release of the key of each hexadecimal digit.
pub open spec fn spec_hex_key_presses(digits: Seq<char>) -> Seq<ActionSpec>
    decreases digits.len(),
{
    if digits.len() == 0 {
        seq![]
    } else {
        let k = spec_hex_digit_key(digits.last());
        spec_hex_key_presses(digits.drop_last()) + seq![
            ActionSpec::Emit(DeviceRole::Keyboard, seq![key(k, 1)]),
            ActionSpec::Emit(DeviceRole::Keyboard, seq![key(k, 0)]),
        ]
    }
}

/// The keyboard emissions of a key event. A known key is pressed, released or
/// repeated together with the modifiers the event holds (ctrl, alt, meta, shift, in
/// that order). A press of an unknown key with a non-empty text types that text as
/// its UTF-16 code units in hexadecimal between Ctrl+Shift+U and its release; any
/// other event of an unknown key is ignored.
pub open spec fn spec_keyboard_actions(
    code: Seq<char>,
    text: Seq<char>,
    loc: KeyboardLocation,
    t: KeyboardEventType,
    alt: bool,
    ctrl: bool,
    shift: bool,
    meta: bool,
) -> Seq<ActionSpec> {
    let kc = spec_map_key(code, loc);
    let st = spec_key_state(t);
    if kc == KEY_UNKNOWN {
        if t is DOWN && text.len() > 0 {
            seq![ActionSpec::Emit(DeviceRole::Keyboard, seq![key(KEY_LEFTCTRL, 1), key(KEY_LEFTSHIFT, 1), key(KEY_U, 1)])]
                + spec_hex_key_presses(spec_units_hex(spec_utf16(text)))
                + seq![ActionSpec::Emit(DeviceRole::Keyboard, seq![key(KEY_LEFTCTRL, 0), key(KEY_LEFTSHIFT, 0), key(KEY_U, 0)])]
        } else {
            seq![]
        }
    } else {
        (if ctrl { seq![ActionSpec::Emit(DeviceRole::Keyboard, seq![key(KEY_LEFTCTRL, st)])] } else { seq![] })
            + (if alt { seq![ActionSpec::Emit(DeviceRole::Keyboard, seq![key(KEY_LEFTALT, st)])] } else { seq![] })
            + (if meta { seq![ActionSpec::Emit(DeviceRole::Keyboard, seq![key(KEY_LEFTMETA, st)])] } else { seq![] })
            + (if shift { seq![ActionSpec::Emit(DeviceRole::Keyboard, seq![key(KEY_LEFTSHIFT, st)])] } else { seq![] })
            + seq![ActionSpec::Emit(DeviceRole::Keyboard, seq![key(kc, st)])]
    }
}

fn emit_one(out: &mut Vec<UInputAction>, role: DeviceRole, code: i32, value: i32)
    ensures
        actions_view(final(out)@) == actions_view(old(out)@).push(ActionSpec::Emit(role, seq![key(code, value)])),
{
    let mut evs: Vec<InputEventRecord> = Vec::new();
    evs.push(key_ev(code, value));
    assert(evs@ =~= seq![key(code, value)]);
    push_action(out, UInputAction::Emit(role, evs));
}

fn emit_three(out: &mut Vec<UInputAction>, a: i32, b: i32, c: i32, value: i32)
    ensures
        actions_view(final(out)@) == actions_view(old(out)@).push(
            ActionSpec::Emit(DeviceRole::Keyboard, seq![key(a, value), key(b, value), key(c, value)])),
{
    let mut evs: Vec<InputEventRecord> = Vec::new();
    evs.push(key_ev(a, value));
    evs.push(key_ev(b, value));
    evs.push(key_ev(c, value));
    assert(evs@ =~= seq![key(a, value), key(b, value), key(c, value)]);
    push_action(out, UInputAction::Emit(DeviceRole::Keyboard, evs));
}

/// Translates a browser keyboard event into the keyboard emissions.
pub fn keyboard_actions(event: &KeyboardEvent) -> (r: Vec<UInputAction>)
    ensures
        actions_view(r@) == spec_keyboard_actions(
            event.code@,
            event.key@,
            event.location,
            event.event_type,
            event.alt,
            event.ctrl,
            event.shift,
            event.meta,
        ),
{
    let code = chars_of(event.code.as_str());
    let kc = map_key(code.as_slice(), event.location);
    let st: i32 = match event.event_type {
        KeyboardEventType::UP => 0,
        KeyboardEventType::DOWN => 1,
        KeyboardEventType::REPEAT => 2,
    };
    let mut out: Vec<UInputAction> = Vec::new();
    assert(actions_view(out@) =~= Seq::<ActionSpec>::empty());
    if kc == KEY_UNKNOWN {
        let text = chars_of(event.key.as_str());
        if event.event_type == KeyboardEventType::DOWN && text.len() > 0 {
            emit_three(&mut out, KEY_LEFTCTRL, KEY_LEFTSHIFT, KEY_U, 1);
            let units = encode_utf16(text.as_slice());
            let mut digits: Vec<char> = Vec::new();
            let mut i: usize = 0;
            while i < units.len()
                invariant
                    i <= units@.len(),
                    digits@ == spec_units_hex(units@.take(i as int)),
                decreases units@.len() - i,
            {
                let h = hex_upper(units[i] as u64);
                let mut j: usize = 0;
                let ghost d0 = digits@;
                while j < h.len()
                    invariant
                        j <= h@.len(),
                        digits@ == d0 + h@.take(j as int),
                    decreases h@.len() - j,
                {
                    digits.push(h[j]);
                    assert(h@.take(j + 1) == h@.take(j as int).push(h@[j as int]));
                    j = j + 1;
                }
                assert(h@.take(j as int) == h@);
                assert(units@.take(i + 1).drop_last() == units@.take(i as int));
                i = i + 1;
            }
            assert(units@.take(i as int) == units@);
            let ghost pre = actions_view(out@);
            let mut k: usize = 0;
            while k < digits.len()
                invariant
                    k <= digits@.len(),
                    actions_view(out@) == pre + spec_hex_key_presses(digits@.take(k as int)),
                decreases digits@.len() - k,
            {
                let dk = hex_digit_key(digits[k]);
                emit_one(&mut out, DeviceRole::Keyboard, dk, 1);
                emit_one(&mut out, DeviceRole::Keyboard, dk, 0);
                assert(digits@.take(k + 1).drop_last() == digits@.take(k as int));
                assert(actions_view(out@) =~= pre + spec_hex_key_presses(digits@.take(k + 1)));
                k = k + 1;
            }
            assert(digits@.take(k as int) == digits@);
            emit_three(&mut out, KEY_LEFTCTRL, KEY_LEFTSHIFT, KEY_U, 0);
            assert(actions_view(out@) =~= spec_keyboard_actions(event.code@, event.key@, event.location,
                event.event_type, event.alt, event.ctrl, event.shift, event.meta));
        } else {
            assert(actions_view(out@) =~= spec_keyboard_actions(event.code@, event.key@, event.location,
                event.event_type, event.alt, event.ctrl, event.shift, event.meta));
        }
        return out;
    }
    if event.ctrl {
        emit_one(&mut out, DeviceRole::Keyboard, KEY_LEFTCTRL, st);
    }
    let ghost a1 = actions_view(out@);
    if event.alt {
        emit_one(&mut out, DeviceRole::Keyboard, KEY_LEFTALT, st);
    }
    let ghost a2 = actions_view(out@);
    if event.meta {
        emit_one(&mut out, DeviceRole::Keyboard, KEY_LEFTMETA, st);
    }
    let ghost a3 = actions_view(out@);
    if event.shift {
        emit_one(&mut out, DeviceRole::Keyboard, KEY_LEFTSHIFT, st);
    }
    emit_one(&mut out, DeviceRole::Keyboard, kc, st);
    assert(actions_view(out@) =~= spec_keyboard_actions(event.code@, event.key@, event.location,
        event.event_type, event.alt, event.ctrl, event.shift, event.meta));
    out
}

/// The name of a virtual device: `Rylus `, its kind, and ` - ` with the client's
/// name when there is one.
pub open spec fn spec_device_name(kind: Seq<char>, client: Option<Seq<char>>) -> Seq<char> {
    "Rylus "@ + kind + match client {
        Some(c) => " - "@ + c,
        None => Seq::<char>::empty(),
    }
}

/// Names the virtual device of a kind (`Stylus`, `Mouse`, `Touch`, `Keyboard`) for a
/// client.
pub fn device_name(kind: &str, client: Option<&str>) -> (r: String)
    ensures
        r@ == spec_device_name(kind@, match client {
            Some(c) => Some(c@),
            None => None,
        }),
{
    let mut v = chars_of("Rylus ");
    crate::text::extend_str(&mut v, kind);
    if let Some(c) = client {
        crate::text::extend_str(&mut v, " - ");
        crate::text::extend_str(&mut v, c);
    }
    let r = crate::text::string_from_chars(v.as_slice());
    assert(client is None ==> r@ =~= "Rylus "@ + kind@ + Seq::<char>::empty());
    r
}

/// A kernel event written out field by field: type, code, value.
pub open spec fn raw_event(typ: u16, code: i32, value: i32) -> InputEventRecord {
    InputEventRecord { typ, code, value }
}

/// The `BTN_*` code of a mouse button, by the kernel's numbering: left 0x110, right
/// 0x111, middle 0x112; other buttons have none.
pub open spec fn mouse_button_code(b: Button) -> Option<i32> {
    if b == Button::PRIMARY {
        Some(0x110i32)
    } else if b == Button::SECONDARY {
        Some(0x111i32)
    } else if b == Button::AUXILARY {
        Some(0x112i32)
    } else {
        None
    }
}

/// Law: a mouse event writes to the virtual mouse the button its button names
/// (left 0x110, right 0x111, middle 0x112): a `DOWN` presses it (value 1) before
/// the absolute position (ABS_X 0, ABS_Y 1), other contacts only move, and a lift
/// releases that same key (value 0); a lift of another button writes nothing to the
/// mouse.
pub proof fn lemma_mouse_buttons(m: UInputModel, inp: PointerInput, now: u64)
    requires
        inp.pointer_type is Mouse,
    ensures
        ({
            let acts = spec_pointer_step(m, inp, now).1;
            let mouse = events_for(acts.last(), DeviceRole::Mouse);
            let code = mouse_button_code(inp.button);
            let pos = seq![raw_event(3, 0, inp.x), raw_event(3, 1, inp.y)];
            &&& (inp.event_type is DOWN && code is Some) ==> mouse == Some(seq![raw_event(1, code.unwrap(), 1)] + pos)
            &&& (inp.event_type.spec_is_contact() && !(inp.event_type is DOWN && code is Some)) ==> mouse == Some(pos)
            &&& (!inp.event_type.spec_is_contact() && code is Some) ==> mouse == Some(seq![raw_event(1, code.unwrap(), 0)])
            &&& (!inp.event_type.spec_is_contact() && code is None) ==> forall|k: int| 0 <= k < acts.len()
                ==> events_for(#[trigger] acts[k], DeviceRole::Mouse) is None
        }),
{
    let m1 = spec_clear_stale_pen(m, now);
    let a2 = spec_map_request(m1.0.mouse_tries, DeviceRole::Mouse, false);
    let a3 = spec_mouse_step(UInputModel { mouse_tries: a2.0, ..m1.0 }, inp);
    let acts = spec_pointer_step(m, inp, now).1;
    assert(acts == m1.1 + a2.1 + a3.1);
    if a3.1.len() == 0 {
        assert(acts =~= m1.1 + a2.1);
        assert forall|k: int| 0 <= k < acts.len() implies events_for(#[trigger] acts[k], DeviceRole::Mouse) is None by {
            if k < m1.1.len() {
                assert(acts[k] == m1.1[k]);
            } else {
                assert(acts[k] == a2.1[k - m1.1.len()]);
            }
        }
    } else {
        assert(acts.last() == a3.1.last());
    }
    let pos = seq![raw_event(3, 0, inp.x), raw_event(3, 1, inp.y)];
    if inp.event_type.spec_is_contact() && !(inp.event_type is DOWN && mouse_button_code(inp.button) is Some) {
        assert(seq![] + pos =~= pos);
    }
}

/// The keyboard action that writes one key event with the given value.
pub open spec fn key_write(code: i32, value: i32) -> ActionSpec {
    ActionSpec::Emit(DeviceRole::Keyboard, seq![raw_event(1, code, value)])
}

proof fn lemma_key_write_injective(a: i32, b: i32, v: i32)
    ensures
        key_write(a, v) == key_write(b, v) ==> a == b,
{
    if key_write(a, v) == key_write(b, v) {
        assert(events_for(key_write(a, v), DeviceRole::Keyboard).unwrap()[0] == raw_event(1, a, v));
        assert(events_for(key_write(b, v), DeviceRole::Keyboard).unwrap()[0] == raw_event(1, b, v));
    }
}

/// Law: a key the key map knows is written with the event's state (up 0, down 1,
/// repeat 2), after one key write of the same state for each modifier the event
/// holds, each its own key: ctrl as KEY_LEFTCTRL (29), then alt as KEY_LEFTALT (56),
/// then meta as KEY_LEFTMETA (125), then shift as KEY_LEFTSHIFT (42). In particular
/// alt without meta never writes KEY_LEFTMETA before the key.
pub proof fn lemma_keyboard_modifiers(
    code: Seq<char>,
    text: Seq<char>,
    loc: KeyboardLocation,
    t: KeyboardEventType,
    alt: bool,
    ctrl: bool,
    shift: bool,
    meta: bool,
)
    requires
        spec_map_key(code, loc) != KEY_UNKNOWN,
    ensures
        ({
            let st: i32 = match t {
                KeyboardEventType::UP => 0,
                KeyboardEventType::DOWN => 1,
                KeyboardEventType::REPEAT => 2,
            };
            spec_keyboard_actions(code, text, loc, t, alt, ctrl, shift, meta)
                == (if ctrl { seq![key_write(29, st)] } else { seq![] })
                + (if alt { seq![key_write(56, st)] } else { seq![] })
                + (if meta { seq![key_write(125, st)] } else { seq![] })
                + (if shift { seq![key_write(42, st)] } else { seq![] })
                + seq![key_write(spec_map_key(code, loc), st)]
        }),
        (alt && !meta) ==> forall|k: int| 0 <= k < spec_keyboard_actions(code, text, loc, t, alt, ctrl, shift, meta).len() - 1
            ==> #[trigger] spec_keyboard_actions(code, text, loc, t, alt, ctrl, shift, meta)[k] != key_write(125, spec_key_state(t)),
{
    let st = spec_key_state(t);
    let acts = spec_keyboard_actions(code, text, loc, t, alt, ctrl, shift, meta);
    let expected = (if ctrl { seq![key_write(29, st)] } else { seq![] })
        + (if alt { seq![key_write(56, st)] } else { seq![] })
        + (if meta { seq![key_write(125, st)] } else { seq![] })
        + (if shift { seq![key_write(42, st)] } else { seq![] })
        + seq![key_write(spec_map_key(code, loc), st)];
    assert(acts =~= expected);
    if alt && !meta {
        let mods = (if ctrl { seq![key_write(29, st)] } else { seq![] })
            + seq![key_write(56, st)]
            + (if shift { seq![key_write(42, st)] } else { seq![] });
        assert(acts =~= mods + seq![key_write(spec_map_key(code, loc), st)]);
        lemma_key_write_injective(29, 125, st);
        lemma_key_write_injective(56, 125, st);
        lemma_key_write_injective(42, 125, st);
        assert forall|k: int| 0 <= k < acts.len() - 1 implies #[trigger] acts[k] != key_write(125, st) by {
            assert(acts[k] == mods[k]);
            if ctrl {
                if k == 0 {
                } else if k == 1 {
                } else {
                    assert(mods[k] == key_write(42, st));
                }
            } else if k == 0 {
            } else {
                assert(mods[k] == key_write(42, st));
            }
        }
    }
}

/// Law: a wheel event moves the mouse's wheels by direction and by amount: the
/// vertical wheel REL_WHEEL (0x08) by the sign of `dy`, the horizontal REL_HWHEEL
/// (0x06) by the sign of `dx`, then the high-resolution REL_WHEEL_HI_RES (0x0b) by
/// `dy` and REL_HWHEEL_HI_RES (0x0c) by `dx`.
pub proof fn lemma_wheel_axes(dx: i32, dy: i32)
    ensures
        spec_wheel_events(dx, dy) == seq![
            raw_event(2, 0x08, if dy > 0 { 1i32 } else if dy < 0 { -1i32 } else { 0i32 }),
            raw_event(2, 0x06, if dx > 0 { 1i32 } else if dx < 0 { -1i32 } else { 0i32 }),
            raw_event(2, 0x0b, dy),
            raw_event(2, 0x0c, dx),
        ],
{
}

/// Law: the tool key of a count of touches is BTN_TOOL_FINGER (0x145) for one,
/// BTN_TOOL_DOUBLETAP (0x14d) for two, BTN_TOOL_TRIPLETAP (0x14e) for three,
/// BTN_TOOL_QUADTAP (0x14f) for four and BTN_TOOL_QUINTTAP (0x148) from five on.
pub proof fn lemma_tool_keys(count: int)
    requires
        count >= 1,
    ensures
        spec_tool_key_for_touch_count(count) == if count == 1 {
            0x145i32
        } else if count == 2 {
            0x14di32
        } else if count == 3 {
            0x14ei32
        } else if count == 4 {
            0x14fi32
        } else {
            0x148i32
        },
{
}

} // verus!

