use rylus::bench::{make_bgr0_frame, mean_us, median_us, report, ENCODE_FRAME_US};
use rylus::config::TlsMode;
use rylus::encode::Codec;
use rylus::logging::{debug_enabled, log_level, LogLevel};
use rylus::server::{encoder_options_for, inbound_action, tls_source, FrameKind, InboundAction, TlsSource};
use rylus::tls::{build_server_config, generate_self_signed_cert};

#[test]
fn encoder_options_from_config() {
    let o = encoder_options_for(true, false);
    assert!(o.try_vaapi && !o.try_nvenc && !o.try_videotoolbox && !o.try_mediafoundation);
    assert_eq!(o.codec, Codec::H264);
    assert_eq!(o.avio_buffer_size, 1024 * 1024);
}

#[test]
fn rylus_tls_mode_resolved_from_config() {
    assert_eq!(tls_source(TlsMode::Disabled, Some("c"), Some("k")), TlsSource::Plain);
    assert_eq!(tls_source(TlsMode::Auto, None, None), TlsSource::Auto);
    assert_eq!(
        tls_source(TlsMode::Certified, Some("/cert.pem"), Some("/key.pem")),
        TlsSource::Files("/cert.pem".to_string(), "/key.pem".to_string())
    );
    assert_eq!(tls_source(TlsMode::Certified, Some(""), Some("/key.pem")), TlsSource::Plain);
    assert_eq!(tls_source(TlsMode::Certified, None, Some("/key.pem")), TlsSource::Plain);
}

#[test]
fn websocket_frame_handling() {
    assert_eq!(inbound_action(FrameKind::Close, 0), InboundAction::Close);
    assert_eq!(inbound_action(FrameKind::Text, 65536), InboundAction::Parse);
    assert_eq!(inbound_action(FrameKind::Text, 65537), InboundAction::DropOversized);
    assert_eq!(inbound_action(FrameKind::Binary, 10), InboundAction::Ignore);
    assert_eq!(inbound_action(FrameKind::Ping, 0), InboundAction::Ignore);
}

#[test]
fn generate_self_signed_cert_returns_non_empty_der() {
    let _ = rustls::crypto::ring::default_provider().install_default();
    let (cert, key) = generate_self_signed_cert().unwrap();
    assert!(!cert.is_empty(), "cert DER must not be empty");
    assert!(!key.is_empty(), "key DER must not be empty");
}

#[test]
fn generate_self_signed_cert_builds_valid_config() {
    let _ = rustls::crypto::ring::default_provider().install_default();
    let (cert, key) = generate_self_signed_cert().unwrap();
    let result = build_server_config(cert, key);
    assert!(result.is_ok(), "should build a valid ServerConfig");
}

#[test]
fn build_server_config_rejects_empty_inputs() {
    let _ = rustls::crypto::ring::default_provider().install_default();
    let result = build_server_config(vec![], vec![]);
    assert!(result.is_err(), "empty cert/key should fail");
}

#[test]
fn log_level_from_environment() {
    assert_eq!(log_level(true, None), LogLevel::Debug);
    assert_eq!(log_level(false, None), LogLevel::Info);
    assert_eq!(log_level(false, Some("TRACE")), LogLevel::Trace);
    assert_eq!(log_level(false, Some("Warn")), LogLevel::Warn);
    assert_eq!(log_level(false, Some("1")), LogLevel::Error);
    assert_eq!(log_level(false, Some("+4")), LogLevel::Debug);
    assert_eq!(log_level(true, Some("6")), LogLevel::Debug);
    assert_eq!(log_level(false, Some("verbose")), LogLevel::Info);
    assert!(debug_enabled(LogLevel::Trace));
    assert!(!debug_enabled(LogLevel::Info));
}

#[test]
fn bench_statistics() {
    assert_eq!(median_us(vec![]), 0);
    assert_eq!(median_us(vec![5, 1, 3]), 3);
    assert_eq!(median_us(vec![4, 1, 3, 2]), 2);
    assert_eq!(median_us(vec![10, 10, 1, 7]), 8);
    assert_eq!(mean_us(&[]), 0);
    assert_eq!(mean_us(&[1, 2, 4]), 2);
}

#[test]
fn bench_frame_and_report() {
    let frame = make_bgr0_frame(2, 1);
    assert_eq!(frame, vec![64, 128, 32, 255, 64, 128, 32, 255]);
    let (line, pass) = report("encode_frame", 35, 40, ENCODE_FRAME_US);
    assert!(pass);
    assert_eq!(
        line,
        format!("bench::{:30}  median={:7} µs  mean={:7} µs  budget={:7} µs  [PASS]", "encode_frame", 35, 40, 2000)
    );
    let (line, pass) = report("x", 3000, 1, 2000);
    assert!(!pass);
    assert!(line.ends_with("[FAIL]"));
}
