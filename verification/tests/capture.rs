use rylus::capture::{
    capture_failure, capture_method, composite_cursor, find_input_device, is_offscreen, monitor_name,
    needs_active_window, pipewire_name, pw_bytes_per_pixel, pw_chunk_frame, pw_frame_layout, request_path,
    test_sources, window_title, x11_init, CaptrsError, CaptureMethod, CursorImage, DBusError, PipeWireError,
    PwVideoFormat,
};
use rylus::pixel::PixelLayout;

#[test]
fn x11_init_does_nothing() {
    x11_init();
}

#[test]
fn backend_errors_display_their_message() {
    assert_eq!(CaptrsError("a".to_string()).to_display_string(), "a");
    assert_eq!(DBusError("b".to_string()).to_display_string(), "b");
    assert_eq!(PipeWireError("No buffer available!".to_string()).to_display_string(), "No buffer available!");
}

#[test]
fn offscreen_detection() {
    assert!(!is_offscreen(true, 0, 0, 100, 100, 1920, 1080));
    assert!(is_offscreen(true, -1, 0, 100, 100, 1920, 1080));
    assert!(is_offscreen(true, 1900, 0, 100, 100, 1920, 1080));
    assert!(!is_offscreen(true, 1820, 980, 100, 100, 1920, 1080));
    assert!(!is_offscreen(false, -1, -1, 100, 100, 1920, 1080));
}

#[test]
fn capture_method_choice() {
    assert_eq!(capture_method(false, false, false, false), CaptureMethod::RootArea);
    assert_eq!(capture_method(true, false, false, true), CaptureMethod::RootArea);
    assert_eq!(capture_method(true, false, false, false), CaptureMethod::WindowImage);
    assert_eq!(capture_method(true, true, false, true), CaptureMethod::WindowImage);
    assert_eq!(capture_method(true, false, true, true), CaptureMethod::Offscreen);
    assert!(needs_active_window(true, false, false));
    assert!(!needs_active_window(true, true, false));
}

#[test]
fn capture_failure_codes() {
    assert_eq!(capture_failure(true).code(), 1);
    assert_eq!(capture_failure(false).code(), 2);
    assert_eq!(capture_failure(true).to_display_string(), "CError: code: 1 message: XShmGetImage failed!");
}

#[test]
fn window_titles() {
    assert_eq!(window_title(Some("Net".to_string()), Some("Wm".to_string()), 1), "Net");
    assert_eq!(window_title(Some(String::new()), Some("Wm".to_string()), 1), "Wm");
    assert_eq!(window_title(None, Some(String::new()), 0x2a0001), "UNKNOWN 0x2a0001");
    assert_eq!(window_title(None, None, 0), "UNKNOWN 0x0");
    assert_eq!(monitor_name(Some("DP-1")), "Monitor: DP-1");
    assert_eq!(monitor_name(None), "Monitor: Unknown");
}

#[test]
fn input_device_lookup() {
    let names = vec!["Rylus Mouse".to_string(), "Rylus Stylus Pen (0)".to_string(), "Rylus Stylus".to_string()];
    assert_eq!(find_input_device(&names, "Rylus Stylus", true), Ok(1));
    assert_eq!(find_input_device(&names, "Rylus Stylus", false), Ok(2));
    assert_eq!(
        find_input_device(&names, "Rylus Touch", false),
        Err("Device with name: Rylus Touch not found!".to_string())
    );
}

#[test]
fn pipewire_names_and_layouts() {
    assert_eq!(pipewire_name(1, 42), "Pipewire Desktop, path: 42");
    assert_eq!(pipewire_name(2, 7), "Pipewire Window, path: 7");
    assert_eq!(pipewire_name(9, 0), "Pipewire Unknown, path: 0");
    assert_eq!(pw_bytes_per_pixel(PwVideoFormat::BGRA), 4);
    assert_eq!(pw_bytes_per_pixel(PwVideoFormat::Other), 0);
    assert_eq!(pw_frame_layout(PwVideoFormat::BGRx, 100, 400), Some(PixelLayout::BGR0));
    assert_eq!(pw_frame_layout(PwVideoFormat::BGRA, 100, 512), Some(PixelLayout::BGR0S));
    assert_eq!(pw_frame_layout(PwVideoFormat::RGBx, 100, 512), Some(PixelLayout::RGB0));
    assert_eq!(pw_frame_layout(PwVideoFormat::Other, 100, 400), None);
}

#[test]
fn pipewire_chunk_checks() {
    assert_eq!(pw_chunk_frame(400 * 10, 0, 0, 4000, 100, 10, 4), Some((0, 4000, 400)));
    assert_eq!(pw_chunk_frame(512 * 10, 16, 512, 6000, 100, 10, 4), Some((16, 5136, 512)));
    assert_eq!(pw_chunk_frame(0, 0, 0, 4000, 100, 10, 4), None);
    assert_eq!(pw_chunk_frame(4000, 1, 0, 4000, 100, 10, 4), None);
    assert_eq!(pw_chunk_frame(3999, 0, 0, 4000, 100, 10, 4), None);
    assert_eq!(pw_chunk_frame(4000, 0, 0, 4000, 100, 10, 0), None);
}

#[test]
fn portal_request_paths() {
    assert_eq!(request_path(":1.42", "rylus0"), "/org/freedesktop/portal/desktop/request/1_42/rylus0");
    assert_eq!(request_path("::a.b.c", "t"), "/org/freedesktop/portal/desktop/request/a_b_c/t");
}

#[test]
fn debug_test_sources() {
    let s = test_sources();
    assert_eq!(s.len(), 18);
    assert_eq!(s[0], (200, 200, PixelLayout::BGR0));
    assert_eq!(s[2], (200, 200, PixelLayout::RGB));
    assert_eq!(s[17], (15360, 2160, PixelLayout::RGB));
}

#[test]
fn cursor_is_blended_into_frame() {
    // 2x2 frame of white, cursor 1x1 half-transparent black at (1, 1).
    let mut frame = vec![0x00FF_FFFFu32; 4];
    let cursor = CursorImage { x: 1, y: 1, xhot: 0, yhot: 0, width: 1, height: 1, pixels: vec![0x8000_0000] };
    composite_cursor(&mut frame, 0, 0, 2, 2, &cursor);
    assert_eq!(frame[0], 0x00FF_FFFF);
    assert_eq!(frame[3], (127 << 16) | (127 << 8) | 127);
    // A fully transparent cursor leaves the frame alone.
    let mut frame2 = vec![0x0012_3456u32; 4];
    let clear = CursorImage { x: 0, y: 0, xhot: 0, yhot: 0, width: 2, height: 2, pixels: vec![0; 4] };
    composite_cursor(&mut frame2, 0, 0, 2, 2, &clear);
    assert_eq!(frame2, vec![0x0012_3456u32; 4]);
}
