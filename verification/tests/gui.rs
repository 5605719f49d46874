use rylus::gui::{
    access_code_field, after_start, log_caption, log_severity, parse_port, port_error_text, qr_url, start_button,
    validate_port, LogRing, LogSeverity, PortError, ServerState, Web2UiMessage, LOG_RING_CAPACITY,
};

#[test]
fn log_ring_keeps_the_newest_lines() {
    let mut ring = LogRing::new();
    for i in 0..(LOG_RING_CAPACITY + 5) {
        ring.push(format!("line {i}"));
    }
    assert_eq!(ring.len(), LOG_RING_CAPACITY);
    assert_eq!(ring.line(0), "line 5");
    assert_eq!(ring.line(LOG_RING_CAPACITY - 1), &format!("line {}", LOG_RING_CAPACITY + 4));
    ring.clear();
    assert_eq!(ring.len(), 0);
}

#[test]
fn log_caption_text() {
    assert_eq!(log_caption(1), "1 line");
    assert_eq!(log_caption(3), "3 lines");
    assert_eq!(log_caption(0), "0 lines");
    assert_eq!(log_caption(2000), "2000 lines (oldest trimmed)");
}

#[test]
fn log_line_severity() {
    assert_eq!(log_severity("2024 ERROR boom"), LogSeverity::Error);
    assert_eq!(log_severity(" WARN careful"), LogSeverity::Warn);
    assert_eq!(log_severity("INFO hello ERROR"), LogSeverity::Error);
    assert_eq!(log_severity("INFO hi"), LogSeverity::Info);
    assert_eq!(log_severity("debug"), LogSeverity::Other);
    assert_eq!(log_severity(""), LogSeverity::Other);
}

#[test]
fn start_button_states() {
    assert_eq!(start_button(&ServerState::Stopped), ("Start", true, false));
    assert_eq!(start_button(&ServerState::Starting), ("Starting...", false, false));
    assert_eq!(start_button(&ServerState::Running), ("Stop", true, true));
    assert_eq!(start_button(&ServerState::Error("x".to_string())), ("Start", true, false));
    assert_eq!(after_start(true), ServerState::Running);
    assert_eq!(after_start(false), ServerState::Stopped);
}

#[test]
fn port_parsing_matches_integer_parser() {
    for s in ["1701", "+80", "0", "65535", "", "+", "-1", "65536", "12a", "99999x", " 80"] {
        let expected: Result<u16, PortError> = match s.parse::<u16>() {
            Ok(p) => Ok(p),
            Err(e) => Err(match e.kind() {
                std::num::IntErrorKind::Empty => PortError::Empty,
                std::num::IntErrorKind::PosOverflow => PortError::PosOverflow,
                _ => PortError::InvalidDigit,
            }),
        };
        assert_eq!(parse_port(s), expected, "input {s:?}");
        if let Err(e) = s.parse::<u16>() {
            assert_eq!(port_error_text(parse_port(s).unwrap_err()), e.to_string());
        }
    }
    assert_eq!(validate_port("abc"), Err("Invalid port: invalid digit found in string".to_string()));
    assert_eq!(validate_port("8080"), Ok(8080));
}

#[test]
fn access_code_field_empty_is_none() {
    assert_eq!(access_code_field(""), None);
    assert_eq!(access_code_field("abc").as_deref(), Some("abc"));
}

#[test]
fn qr_url_percent_encodes_code() {
    assert_eq!(qr_url("http://1.2.3.4:1701", None), "http://1.2.3.4:1701");
    assert_eq!(qr_url("http://h", Some("abc123")), "http://h?access_code=abc123");
    assert_eq!(qr_url("http://h", Some("a b&c")), "http://h?access_code=a%20b%26c");
    assert_eq!(qr_url("http://h", Some("é-_")), "http://h?access_code=%C3%A9%2D%5F");
}

#[test]
fn web_to_ui_message_exists() {
    assert_eq!(Web2UiMessage::UInputInaccessible, Web2UiMessage::UInputInaccessible);
}
