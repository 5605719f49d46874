use std::sync::Arc;

use rylus::error::CErrorCode;
use rylus::input::InputDeviceType;
use rylus::protocol::{Hello, MessageOutbound, MIN_CLIENT_PROTOCOL_VERSION, PROTOCOL_VERSION};
use rylus::session::{
    forward_event, frame_pacing, hello_reply, negotiated_version, plan_client_config, uinput_failure_reply, BufferLevel,
    ConfigPlan, DeviceAction, EncoderDims, Outgoing, PipelineLevel, QualityController, StreamEvent, VideoPipeline,
    MAX_CAPTURE_FAILURES, QP_DEFAULT, QP_MAX, QP_MIN,
};

#[test]
fn quality_controller_starts_at_default() {
    let qc = QualityController::new();
    assert_eq!(qc.current_qp(), QP_DEFAULT);
}

#[test]
fn quality_controller_reset_restores_default() {
    let mut qc = QualityController::new();
    qc.set_buffer_health(BufferLevel::Severe);
    qc.decide(Some(PipelineLevel::Neutral));
    qc.reset();
    assert_eq!(qc.current_qp(), QP_DEFAULT);
    // The reported buffer level is gone: a neutral decision changes nothing.
    assert_eq!(qc.decide(None), None);
}

#[test]
fn buffer_overloaded_raises_qp() {
    let mut qc = QualityController::new();
    qc.set_buffer_health(BufferLevel::Severe);
    let result = qc.decide(Some(PipelineLevel::Neutral));
    assert!(result.is_some());
    assert!(qc.current_qp() > QP_DEFAULT);
    assert_eq!(result, Some(QP_DEFAULT + 2));
}

#[test]
fn buffer_moderately_overloaded_raises_qp_by_one() {
    let mut qc = QualityController::new();
    qc.set_buffer_health(BufferLevel::Mild);
    let result = qc.decide(Some(PipelineLevel::Neutral));
    assert_eq!(result, Some(QP_DEFAULT + 1));
}

#[test]
fn buffer_healthy_lowers_qp() {
    let mut qc = QualityController::with_qp(30);
    qc.set_buffer_health(BufferLevel::Low);
    let result = qc.decide(Some(PipelineLevel::Neutral));
    assert_eq!(result, Some(29));
}

#[test]
fn buffer_at_minimum_qp_cannot_decrease() {
    let mut qc = QualityController::with_qp(QP_MIN);
    qc.set_buffer_health(BufferLevel::Low);
    let result = qc.decide(Some(PipelineLevel::Fast));
    assert!(result.is_none());
}

#[test]
fn pipeline_saturated_raises_qp() {
    let mut qc = QualityController::new();
    let result = qc.decide(Some(PipelineLevel::Saturated));
    assert!(result.is_some());
    assert!(qc.current_qp() > QP_DEFAULT);
}

#[test]
fn pipeline_fast_lowers_qp() {
    let mut qc = QualityController::with_qp(30);
    let result = qc.decide(Some(PipelineLevel::Fast));
    assert_eq!(result, Some(29));
}

#[test]
fn buffer_health_wins_over_pipeline() {
    let mut qc = QualityController::with_qp(30);
    qc.set_buffer_health(BufferLevel::Severe);
    let result = qc.decide(Some(PipelineLevel::Fast));
    assert!(result.is_some());
    assert!(qc.current_qp() > 30);
}

#[test]
fn neutral_buffer_defers_to_pipeline() {
    let mut qc = QualityController::with_qp(30);
    qc.set_buffer_health(BufferLevel::Neutral);
    let result = qc.decide(Some(PipelineLevel::Fast));
    assert_eq!(result, Some(29));
}

#[test]
fn no_signals_returns_none() {
    let mut qc = QualityController::new();
    let result = qc.decide(None);
    assert!(result.is_none());
}

#[test]
fn qp_clamped_at_max() {
    let mut qc = QualityController::with_qp(QP_MAX);
    qc.set_buffer_health(BufferLevel::Severe);
    let result = qc.decide(Some(PipelineLevel::Neutral));
    assert!(result.is_none());
    let mut qc = QualityController::with_qp(QP_MAX - 1);
    qc.set_buffer_health(BufferLevel::Severe);
    assert_eq!(qc.decide(None), Some(QP_MAX));
}

#[test]
fn buffer_signal_consumed_after_decide() {
    let mut qc = QualityController::new();
    qc.set_buffer_health(BufferLevel::Severe);
    qc.decide(Some(PipelineLevel::Neutral));
    let result = qc.decide(None);
    assert!(result.is_none());
}

#[test]
fn hello_from_current_client_is_answered() {
    let reply = hello_reply(Hello { protocol_version: PROTOCOL_VERSION });
    assert_eq!(reply, MessageOutbound::Hello(Hello { protocol_version: PROTOCOL_VERSION }));
    assert_eq!(negotiated_version(PROTOCOL_VERSION + 5), PROTOCOL_VERSION);
    assert_eq!(negotiated_version(1), 1);
}

#[test]
fn hello_from_old_client_is_refused() {
    let reply = hello_reply(Hello { protocol_version: MIN_CLIENT_PROTOCOL_VERSION - 1 });
    assert_eq!(
        reply,
        MessageOutbound::HelloNack {
            server_version: PROTOCOL_VERSION,
            min_client_version: MIN_CLIENT_PROTOCOL_VERSION,
            reason: "Client is too old — reload the page to pick up the new bundle.".to_string(),
        }
    );
}

#[test]
fn config_with_bad_capturable_is_rejected() {
    let mut name = None;
    let plan = plan_client_config(&mut name, None, 2, Some("tablet".to_string()), 2, true);
    assert_eq!(
        plan,
        ConfigPlan::Reject(MessageOutbound::ConfigError(
            "No capturable selected. Click \"Refresh List\" to request screen access.".to_string()
        ))
    );
    assert_eq!(name.as_deref(), Some("tablet"));
}

#[test]
fn config_chooses_input_device() {
    let mut name = Some("tablet".to_string());
    assert_eq!(
        plan_client_config(&mut name, Some(InputDeviceType::UInputDevice), 1, Some("tablet".to_string()), 0, true),
        ConfigPlan::Apply(DeviceAction::Retarget)
    );
    assert_eq!(
        plan_client_config(&mut name, Some(InputDeviceType::UInputDevice), 1, Some("phone".to_string()), 0, true),
        ConfigPlan::Apply(DeviceAction::CreateUInput)
    );
    assert_eq!(name.as_deref(), Some("phone"));
    assert_eq!(
        plan_client_config(&mut name, Some(InputDeviceType::UInputDevice), 1, Some("phone".to_string()), 0, false),
        ConfigPlan::Apply(DeviceAction::CreateEnigo)
    );
    assert_eq!(
        plan_client_config(&mut name, Some(InputDeviceType::EnigoDevice), 1, Some("phone".to_string()), 0, false),
        ConfigPlan::Apply(DeviceAction::Retarget)
    );
    assert_eq!(
        plan_client_config(&mut name, None, 1, Some("phone".to_string()), 0, true),
        ConfigPlan::Apply(DeviceAction::CreateUInput)
    );
}

#[test]
fn uinput_failure_notifies_only_when_inaccessible() {
    let (notify, msg) = uinput_failure_reply(CErrorCode::UInputNotAccessible);
    assert!(notify);
    assert_eq!(msg, MessageOutbound::ConfigError("Failed to create uinput device!".to_string()));
    let (notify, _) = uinput_failure_reply(CErrorCode::GenericError);
    assert!(!notify);
}

#[test]
fn capture_gives_up_after_thirty_failures() {
    let mut p = VideoPipeline::new();
    assert_eq!(p.start(true, 1280, 720), MessageOutbound::ConfigOk);
    assert!(p.recording);
    for _ in 0..(MAX_CAPTURE_FAILURES - 1) {
        assert_eq!(p.capture_failed(), None);
        assert!(p.recording);
    }
    assert_eq!(
        p.capture_failed(),
        Some(MessageOutbound::Error("Screen capture lost — please reconnect.".to_string()))
    );
    assert!(!p.recording);
}

#[test]
fn failed_start_keeps_size_limits() {
    let mut p = VideoPipeline::new();
    assert_eq!(p.start(false, 640, 480), MessageOutbound::Error("Failed to init screen cast!".to_string()));
    assert!(!p.recording);
    assert_eq!((p.max_width, p.max_height), (1920, 1080));
}

#[test]
fn encoder_restarts_only_on_new_sizes() {
    let mut p = VideoPipeline::new();
    p.start(true, 1920, 1080);
    let dims = EncoderDims { width_in: 1920, height_in: 1080, width_out: 1920, height_out: 1080 };
    assert_eq!(p.captured(1920, 1080, 1920, 1080), Some(dims));
    assert_eq!(p.captured(1920, 1080, 1920, 1080), None);
    p.restart();
    assert_eq!(p.captured(1920, 1080, 1920, 1080), Some(dims));
    p.consecutive_failures = 5;
    p.captured(1920, 1080, 1920, 1080);
    assert_eq!(p.consecutive_failures, 0);
}

#[test]
fn frame_statistics_reported_every_five_seconds() {
    let mut p = VideoPipeline::new();
    p.frames_skipped(2);
    p.frame_offered(true);
    p.frame_offered(false);
    assert_eq!(p.take_stats(1_000_000_000), None);
    assert_eq!(p.take_stats(5_000_000_000), Some((3, 4)));
    assert_eq!((p.frames_total, p.frames_dropped), (0, 0));
    assert_eq!(p.take_stats(5_000_000_000), None);
}

#[test]
fn pacing_skips_missed_frames() {
    // 10 ms frames, last frame at t=100 ms, now t=135 ms: three frames missed,
    // the next is due at 140 ms, 5 ms from now.
    assert_eq!(frame_pacing(135_000_000, 100_000_000, 10_000_000), (3, 140_000_000, 5_000_000));
    assert_eq!(frame_pacing(100_000_000, 100_000_000, 10_000_000), (0, 110_000_000, 10_000_000));
    assert_eq!(frame_pacing(50, 100, 10), (0, 110, 60));
}

#[test]
fn stream_event_clone_shared() {
    let data = Arc::new(vec![42u8, 43, 44]);
    let event = StreamEvent::VideoFrame(data.clone());
    match forward_event(event) {
        Outgoing::Video(d2) => assert!(Arc::ptr_eq(&data, &d2), "VideoFrame should share the Arc, not clone"),
        other => panic!("Expected video, got {other:?}"),
    }
}

#[test]
fn stream_events_map_to_messages() {
    assert!(matches!(forward_event(StreamEvent::NewVideo), Outgoing::Message(MessageOutbound::NewVideo)));
    assert!(matches!(forward_event(StreamEvent::ConfigOk), Outgoing::Message(MessageOutbound::ConfigOk)));
    match forward_event(StreamEvent::VideoInit { codec_string: "vp8".to_string() }) {
        Outgoing::Message(MessageOutbound::VideoInit { codec_string }) => assert_eq!(codec_string, "vp8"),
        other => panic!("unexpected {other:?}"),
    }
    match forward_event(StreamEvent::Error("test error".to_string())) {
        Outgoing::Message(MessageOutbound::Error(m)) => assert_eq!(m, "test error"),
        other => panic!("unexpected {other:?}"),
    }
}

#[test]
fn new_start_counts_capture_failures_afresh() {
    let mut p = VideoPipeline::new();
    p.start(true, 1920, 1080);
    for _ in 0..29 {
        assert_eq!(p.capture_failed(), None);
    }
    assert!(p.capture_failed().is_some());
    assert!(!p.recording);
    p.start(true, 1920, 1080);
    assert_eq!(p.consecutive_failures, 0);
    assert_eq!(p.capture_failed(), None);
    assert!(p.recording);
}
