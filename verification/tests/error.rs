use rylus::error::{map_io_error, CError, CErrorCode, IoErrorKind};

#[test]
fn new_cerror_is_not_err() {
    let e = CError::new();
    assert!(!e.is_err());
    assert_eq!(e.code(), 0);
}

#[test]
fn new_cerror_code_is_no_error() {
    let e = CError::new();
    assert!(matches!(e.to_enum(), CErrorCode::NoError));
}

#[test]
fn with_code_generic_error() {
    let e = CError::with_code(1, "generic failure");
    assert!(e.is_err());
    assert_eq!(e.code(), 1);
    assert!(matches!(e.to_enum(), CErrorCode::GenericError));
}

#[test]
fn with_code_uinput_not_accessible() {
    let e = CError::with_code(101, "permission denied");
    assert!(e.is_err());
    assert_eq!(e.code(), 101);
    assert!(matches!(e.to_enum(), CErrorCode::UInputNotAccessible));
}

#[test]
fn with_code_unknown_maps_to_generic() {
    let e = CError::with_code(999, "unknown");
    assert!(matches!(e.to_enum(), CErrorCode::GenericError));
}

#[test]
fn display_contains_code_and_message() {
    let e = CError::with_code(42, "test message");
    let display = e.to_display_string();
    assert!(display.contains("42"), "display should contain code: {}", display);
    assert!(display.contains("test message"), "display should contain message: {}", display);
    assert_eq!(display, "CError: code: 42 message: test message");
}

#[test]
fn display_empty_message() {
    let e = CError::new();
    let display = e.to_display_string();
    assert!(display.contains("0"));
}

#[test]
fn debug_matches_display() {
    let e = CError::with_code(5, "debug test");
    assert_eq!(e.to_display_string(), e.to_debug_string());
}

#[test]
fn with_code_truncates_long_message() {
    let long_msg = "x".repeat(2000);
    let e = CError::with_code(1, &long_msg);
    assert!(e.is_err());
    let display = e.to_display_string();
    assert!(display.contains(&"x".repeat(100)));
    assert!(!display.contains(&"x".repeat(2000)));
    assert!(display.contains(&"x".repeat(1023)));
    assert!(!display.contains(&"x".repeat(1024)));
}

#[test]
fn negative_code() {
    let e = CError::with_code(-1, "negative");
    assert!(e.is_err());
    assert_eq!(e.code(), -1);
    assert!(matches!(e.to_enum(), CErrorCode::GenericError));
    assert_eq!(e.to_display_string(), "CError: code: -1 message: negative");
}

#[test]
fn map_io_error_permission_denied() {
    let cerr = map_io_error(IoErrorKind::PermissionDenied, "ctx", "test");
    assert_eq!(cerr.code(), 101);
}

#[test]
fn map_io_error_not_found() {
    let cerr = map_io_error(IoErrorKind::NotFound, "ctx", "test");
    assert_eq!(cerr.code(), 101);
}

#[test]
fn map_io_error_other() {
    let cerr = map_io_error(IoErrorKind::Other, "ctx", "test");
    assert_eq!(cerr.code(), 1);
    assert_eq!(cerr.to_display_string(), "CError: code: 1 message: ctx: test");
}
