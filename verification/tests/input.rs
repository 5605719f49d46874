use rylus::input::{
    compute_hover_distance, keyboard_actions, tool_key_for_touch_count, wheel_events, DeviceRole, InputEventRecord,
    PointerInput, UInputAction, UInputState, ABS_MAXVAL, EC_ABS_MT_SLOT, EC_ABS_MT_TRACKING_ID, EC_KEY_TOOL_DOUBLETAP,
    EC_KEY_TOOL_FINGER, EC_KEY_TOOL_QUADTAP, EC_KEY_TOOL_QUINTTAP, EC_KEY_TOOL_TRIPLETAP, EC_REL_HWHEEL,
    EC_REL_HWHEEL_HI_RES, EC_REL_WHEEL, EC_REL_WHEEL_HI_RES, EV_ABS, EV_KEY, EV_REL,
};
use rylus::keymap::{KEY_A, KEY_LEFTCTRL};
use rylus::protocol::{Button, KeyboardEvent, KeyboardEventType, KeyboardLocation, PointerEventType, PointerType};

fn touch(event_type: PointerEventType, id: i64) -> PointerInput {
    PointerInput {
        event_type,
        pointer_type: PointerType::Touch,
        pointer_id: id,
        button: Button::PRIMARY,
        buttons: Button::PRIMARY,
        x: 100,
        y: 200,
        pressure: 300,
        pressure_positive: true,
        tilt_x: 0,
        tilt_y: 0,
        touch_major: 10,
        touch_minor: 5,
        orientation: 0,
    }
}

fn touch_events(actions: &[UInputAction]) -> Vec<InputEventRecord> {
    for a in actions {
        if let UInputAction::Emit(DeviceRole::Touch, evs) = a {
            return evs.clone();
        }
    }
    panic!("no touch events in {actions:?}");
}

#[test]
fn slot_allocation_sequential() {
    let mut touches = UInputState::new(0);
    assert_eq!(touches.allocate_slot(100), Some(0));
    assert_eq!(touches.allocate_slot(200), Some(1));
    assert_eq!(touches.allocate_slot(300), Some(2));
}

#[test]
fn slot_find_existing() {
    let mut touches = UInputState::new(0);
    touches.allocate_slot(42);
    touches.allocate_slot(99);
    assert_eq!(touches.allocate_slot(42), Some(0));
    assert_eq!(touches.allocate_slot(99), Some(1));
}

#[test]
fn slot_dealloc_and_reuse() {
    let mut touches = UInputState::new(0);
    touches.allocate_slot(1);
    touches.allocate_slot(2);
    touches.allocate_slot(3);
    // Touch 2 (slot 1) lifts.
    touches.pointer_event(&touch(PointerEventType::UP, 2), 0);
    assert_eq!(touches.find_slot(2), None);
    assert_eq!(touches.allocate_slot(99), Some(1));
}

#[test]
fn slot_limit_exhaustion() {
    let mut touches = UInputState::new(0);
    for i in 0..5 {
        assert_eq!(touches.allocate_slot(i), Some(i as usize));
    }
    assert_eq!(touches.allocate_slot(999), None);
}

#[test]
fn tool_key_for_touch_count_maps_one_through_five() {
    assert_eq!(tool_key_for_touch_count(1), EC_KEY_TOOL_FINGER);
    assert_eq!(tool_key_for_touch_count(2), EC_KEY_TOOL_DOUBLETAP);
    assert_eq!(tool_key_for_touch_count(3), EC_KEY_TOOL_TRIPLETAP);
    assert_eq!(tool_key_for_touch_count(4), EC_KEY_TOOL_QUADTAP);
    assert_eq!(tool_key_for_touch_count(5), EC_KEY_TOOL_QUINTTAP);
}

#[test]
fn tool_key_for_touch_count_saturates_at_quinttap() {
    assert_eq!(tool_key_for_touch_count(6), EC_KEY_TOOL_QUINTTAP);
}

#[test]
fn tool_transition_survives_out_of_fifo_release() {
    let mut touches = UInputState::new(0);
    touches.allocate_slot(1);
    touches.allocate_slot(2);
    touches.pointer_event(&touch(PointerEventType::UP, 1), 0);
    assert_eq!(touches.allocate_slot(3), Some(0));
    let active_count = touches.active_count();
    assert_eq!(active_count, 2);
    assert_eq!(tool_key_for_touch_count(active_count), EC_KEY_TOOL_DOUBLETAP);
}

#[test]
fn hover_distance_with_pressure_is_zero() {
    assert_eq!(compute_hover_distance(0.5f32 > 0.0), 0);
    assert_eq!(compute_hover_distance(1.0f32 > 0.0), 0);
}

#[test]
fn hover_distance_max_pressure_is_zero() {
    assert_eq!(compute_hover_distance(1.0f32 > 0.0), 0);
}

#[test]
fn hover_distance_no_pressure_is_max() {
    assert_eq!(compute_hover_distance(0.0f32 > 0.0), ABS_MAXVAL);
}

#[test]
fn hover_distance_clamps_negative_pressure() {
    assert_eq!(compute_hover_distance(-0.5f32 > 0.0), ABS_MAXVAL);
}

#[test]
fn wheel_step_events() {
    let evs = wheel_events(-3, 120);
    assert_eq!(
        evs,
        vec![
            InputEventRecord { typ: EV_REL, code: EC_REL_WHEEL, value: 1 },
            InputEventRecord { typ: EV_REL, code: EC_REL_HWHEEL, value: -1 },
            InputEventRecord { typ: EV_REL, code: EC_REL_WHEEL_HI_RES, value: 120 },
            InputEventRecord { typ: EV_REL, code: EC_REL_HWHEEL_HI_RES, value: -3 },
        ]
    );
}

#[test]
fn touch_down_then_up_frees_its_slot() {
    let mut st = UInputState::new(0);
    let actions = st.pointer_event(&touch(PointerEventType::DOWN, 7), 0);
    assert_eq!(st.find_slot(7), Some(0));
    // The first touch also maps the touch device to the screen.
    assert_eq!(actions[0], UInputAction::MapToScreen(DeviceRole::Touch, false));
    let evs = touch_events(&actions);
    assert_eq!(evs[0], InputEventRecord { typ: EV_ABS, code: EC_ABS_MT_SLOT, value: 0 });
    assert_eq!(evs[1], InputEventRecord { typ: EV_ABS, code: EC_ABS_MT_TRACKING_ID, value: 0 });
    let actions = st.pointer_event(&touch(PointerEventType::UP, 7), 0);
    assert_eq!(st.find_slot(7), None);
    assert_eq!(st.active_count(), 0);
    let evs = touch_events(&actions);
    assert_eq!(evs[1], InputEventRecord { typ: EV_ABS, code: EC_ABS_MT_TRACKING_ID, value: -1 });
}

#[test]
fn keyboard_ctrl_a_press() {
    let event = KeyboardEvent {
        event_type: KeyboardEventType::DOWN,
        code: "KeyA".to_string(),
        key: "a".to_string(),
        location: KeyboardLocation::STANDARD,
        alt: false,
        ctrl: true,
        shift: false,
        meta: false,
    };
    let actions = keyboard_actions(&event);
    assert_eq!(
        actions,
        vec![
            UInputAction::Emit(DeviceRole::Keyboard, vec![InputEventRecord { typ: EV_KEY, code: KEY_LEFTCTRL, value: 1 }]),
            UInputAction::Emit(DeviceRole::Keyboard, vec![InputEventRecord { typ: EV_KEY, code: KEY_A, value: 1 }]),
        ]
    );
}
