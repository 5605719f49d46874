//! Decisions of a client session: the protocol handshake, how a client
//! configuration selects the input device, the adaptive quality controller, the
//! capture pipeline's state, and how stream events reach a client.

use std::sync::Arc;
use vstd::prelude::*;
use crate::encode::EncoderOptions;
use crate::error::CErrorCode;
use crate::input::InputDeviceType;
use crate::protocol::{Hello, MessageOutbound, MIN_CLIENT_PROTOCOL_VERSION, PROTOCOL_VERSION};

verus! {

// ---------------------------------------------------------------------------
// Handshake
// ---------------------------------------------------------------------------

/// Answers a client's Hello: a refusal naming the versions when the client is older
/// than the server still supports, else the server's own Hello.
pub fn hello_reply(hello: Hello) -> (r: MessageOutbound)
    ensures
        match r {
            MessageOutbound::HelloNack { server_version, min_client_version, reason } =>
                hello.protocol_version < MIN_CLIENT_PROTOCOL_VERSION
                && server_version == PROTOCOL_VERSION && min_client_version == MIN_CLIENT_PROTOCOL_VERSION
                && reason@ == "Client is too old — reload the page to pick up the new bundle."@,
            MessageOutbound::Hello(h) => hello.protocol_version >= MIN_CLIENT_PROTOCOL_VERSION
                && h.protocol_version == PROTOCOL_VERSION,
            _ => false,
        },
{
    if hello.protocol_version < MIN_CLIENT_PROTOCOL_VERSION {
        MessageOutbound::HelloNack {
            server_version: PROTOCOL_VERSION,
            min_client_version: MIN_CLIENT_PROTOCOL_VERSION,
            reason: "Client is too old — reload the page to pick up the new bundle.".to_owned(),
        }
    } else {
        MessageOutbound::Hello(Hello { protocol_version: PROTOCOL_VERSION })
    }
}

/// The protocol version both sides speak: the lower of the two.
pub fn negotiated_version(client_version: u32) -> (r: u32)
    ensures
        r == if client_version < PROTOCOL_VERSION { client_version } else { PROTOCOL_VERSION },
{
    if client_version < PROTOCOL_VERSION {
        client_version
    } else {
        PROTOCOL_VERSION
    }
}


/// What every client session of a server is set up with.
#[derive(Clone, Copy, Debug, PartialEq, Eq, Structural)]
pub struct RylusClientConfig {
    pub encoder_options: EncoderOptions,
    pub wayland_support: bool,
    pub no_gui: bool,
}

// ---------------------------------------------------------------------------
// Client configuration
// ---------------------------------------------------------------------------

/// How a configuration request treats the input device.
#[derive(Clone, Copy, Debug, PartialEq, Eq, Structural)]
pub enum DeviceAction {
    /// Create a new uinput device for the selected capturable.
    CreateUInput,
    /// Create a new enigo device for the selected capturable.
    CreateEnigo,
    /// Keep the current device and point it at the selected capturable.
    Retarget,
}

/// What a configuration request leads to.
#[derive(Clone, Debug, PartialEq, Eq)]
pub enum ConfigPlan {
    /// The capturable index is out of range: answer with this message.
    Reject(MessageOutbound),
    /// Set up the input device as said, then start the video.
    Apply(DeviceAction),
}

/// The text sent when a configuration names no valid capturable.
pub open spec fn no_capturable_text() -> Seq<char> {
    "No capturable selected. Click \"Refresh List\" to request screen access."@
}

/// The device decision: with uinput requested, a new uinput device unless the
/// current one is a uinput device and the client name did not change; without it, a
/// new enigo device unless the current one is an enigo device.
pub open spec fn spec_device_action(current: Option<InputDeviceType>, name_changed: bool, uinput: bool) -> DeviceAction {
    if uinput {
        if current == Some(InputDeviceType::UInputDevice) && !name_changed {
            DeviceAction::Retarget
        } else {
            DeviceAction::CreateUInput
        }
    } else if current == Some(InputDeviceType::EnigoDevice) {
        DeviceAction::Retarget
    } else {
        DeviceAction::CreateEnigo
    }
}

fn same_name(a: &Option<String>, b: &Option<String>) -> (r: bool)
    ensures
        r == (crate::web::string_opt(*a) == crate::web::string_opt(*b)),
{
    match (a, b) {
        (Some(x), Some(y)) => *x == *y,
        (None, None) => true,
        _ => false,
    }
}

/// Plans a client configuration: records the client's name, then checks the
/// capturable index against the list the client was sent and decides on the input
/// device.
pub fn plan_client_config(
    client_name: &mut Option<String>,
    current_device: Option<InputDeviceType>,
    capturables_len: usize,
    requested_name: Option<String>,
    capturable_id: usize,
    uinput_support: bool,
) -> (r: ConfigPlan)
    ensures
        crate::web::string_opt(*final(client_name)) == crate::web::string_opt(requested_name),
        capturable_id >= capturables_len ==> (r matches ConfigPlan::Reject(MessageOutbound::ConfigError(m))
            && m@ == no_capturable_text()),
        capturable_id < capturables_len ==> r == ConfigPlan::Apply(spec_device_action(
            current_device,
            crate::web::string_opt(*old(client_name)) != crate::web::string_opt(requested_name),
            uinput_support,
        )),
{
    let changed = !same_name(client_name, &requested_name);
    if changed {
        *client_name = requested_name;
    }
    if capturable_id >= capturables_len {
        return ConfigPlan::Reject(MessageOutbound::ConfigError(
            "No capturable selected. Click \"Refresh List\" to request screen access.".to_owned(),
        ));
    }
    let action = if uinput_support {
        if current_device == Some(InputDeviceType::UInputDevice) && !changed {
            DeviceAction::Retarget
        } else {
            DeviceAction::CreateUInput
        }
    } else if current_device == Some(InputDeviceType::EnigoDevice) {
        DeviceAction::Retarget
    } else {
        DeviceAction::CreateEnigo
    };
    ConfigPlan::Apply(action)
}

/// The answer when creating the uinput device failed with `code`: whether to tell
/// the user that uinput is not accessible, and the message for the client.
pub fn uinput_failure_reply(code: CErrorCode) -> (r: (bool, MessageOutbound))
    ensures
        r.0 == (code == CErrorCode::UInputNotAccessible),
        r.1 matches MessageOutbound::ConfigError(m) && m@ == "Failed to create uinput device!"@,
{
    (code == CErrorCode::UInputNotAccessible, MessageOutbound::ConfigError("Failed to create uinput device!".to_owned()))
}

// ---------------------------------------------------------------------------
// Adaptive quality
// ---------------------------------------------------------------------------

/// Lowest quantiser (highest quality).
pub const QP_MIN: u32 = 18;
/// Highest quantiser (lowest quality).
pub const QP_MAX: u32 = 45;
/// Quantiser on start and after an encoder restart.
pub const QP_DEFAULT: u32 = 23;

/// How much video the client has buffered, as reported.
#[derive(Clone, Copy, Debug, PartialEq, Eq, Structural)]
pub enum BufferLevel {
    /// More than three seconds: the client is severely behind.
    Severe,
    /// More than two seconds: the client is mildly behind.
    Mild,
    /// Less than half a second: there is headroom.
    Low,
    /// Anything else.
    Neutral,
}

/// How busy the encoder is: average encode time relative to the frame budget.
#[derive(Clone, Copy, Debug, PartialEq, Eq, Structural)]
pub enum PipelineLevel {
    /// Above 80% of the budget.
    Saturated,
    /// Below 40% of the budget.
    Fast,
    /// Anything else.
    Neutral,
}

/// The quantiser change the buffer level asks for.
pub open spec fn buffer_delta(b: BufferLevel, qp: u32) -> int {
    match b {
        BufferLevel::Severe => 2,
        BufferLevel::Mild => 1,
        BufferLevel::Low => if qp > QP_MIN { -1 } else { 0 },
        BufferLevel::Neutral => 0,
    }
}

/// The quantiser change the pipeline level asks for.
pub open spec fn pipeline_delta(p: PipelineLevel, qp: u32) -> int {
    match p {
        PipelineLevel::Saturated => if qp < QP_MAX { 1 } else { 0 },
        PipelineLevel::Fast => if qp > QP_MIN { -1 } else { 0 },
        PipelineLevel::Neutral => 0,
    }
}

/// The combined change: the buffer level wins whenever it asks for a change.
pub open spec fn combined_delta(b: Option<BufferLevel>, p: Option<PipelineLevel>, qp: u32) -> int {
    match (b, p) {
        (Some(b), Some(p)) => if buffer_delta(b, qp) != 0 { buffer_delta(b, qp) } else { pipeline_delta(p, qp) },
        (Some(b), None) => buffer_delta(b, qp),
        (None, Some(p)) => pipeline_delta(p, qp),
        (None, None) => 0,
    }
}

/// A quantiser clamped into `[QP_MIN, QP_MAX]`.
pub open spec fn clamp_qp(x: int) -> int {
    if x < QP_MIN {
        QP_MIN as int
    } else if x > QP_MAX {
        QP_MAX as int
    } else {
        x
    }
}

/// The quantiser after a decision.
pub open spec fn next_qp(qp: u32, b: Option<BufferLevel>, p: Option<PipelineLevel>) -> int {
    let d = combined_delta(b, p, qp);
    if d == 0 { qp as int } else { clamp_qp(qp + d) }
}

/// Controls the encoder's quantiser from the client's buffer level (a one-shot
/// signal) and the encoder's own load.
pub struct QualityController {
    current_qp: u32,
    buffer: Option<BufferLevel>,
}

impl QualityController {
    pub closed spec fn qp(&self) -> u32 {
        self.current_qp
    }

    /// The buffer level reported since the last decision.
    pub closed spec fn pending(&self) -> Option<BufferLevel> {
        self.buffer
    }

    pub open spec fn wf(&self) -> bool {
        QP_MIN <= self.qp() <= QP_MAX
    }

    pub fn new() -> (r: QualityController)
        ensures
            r.wf(),
            r.qp() == QP_DEFAULT,
            r.pending() is None,
    {
        QualityController { current_qp: QP_DEFAULT, buffer: None }
    }

    /// A controller at quantiser `qp`.
    pub fn with_qp(qp: u32) -> (r: QualityController)
        requires
            QP_MIN <= qp <= QP_MAX,
        ensures
            r.wf(),
            r.qp() == qp,
            r.pending() is None,
    {
        QualityController { current_qp: qp, buffer: None }
    }

    /// The current quantiser.
    pub fn current_qp(&self) -> (r: u32)
        ensures
            r == self.qp(),
    {
        self.current_qp
    }

    /// Back to the default quantiser, forgetting any reported buffer level.
    pub fn reset(&mut self)
        ensures
            final(self).wf(),
            final(self).qp() == QP_DEFAULT,
            final(self).pending() is None,
    {
        self.current_qp = QP_DEFAULT;
        self.buffer = None;
    }

    /// Records the client's latest buffer level.
    pub fn set_buffer_health(&mut self, level: BufferLevel)
        ensures
            final(self).qp() == old(self).qp(),
            final(self).pending() == Some(level),
    {
        self.buffer = Some(level);
    }

    /// Decides the quantiser from the pending buffer level and the pipeline level
    /// (`None` when the frame budget is not between zero and one second). Returns the
    /// new quantiser when it changed. The buffer level is consumed.
    pub fn decide(&mut self, pipeline: Option<PipelineLevel>) -> (r: Option<u32>)
        requires
            old(self).wf(),
        ensures
            final(self).wf(),
            final(self).qp() == next_qp(old(self).qp(), old(self).pending(), pipeline),
            final(self).pending() is None,
            r == if final(self).qp() != old(self).qp() { Some(final(self).qp()) } else { None },
    {
        let qp = self.current_qp;
        let bd: Option<i32> = match self.buffer {
            Some(BufferLevel::Severe) => Some(2),
            Some(BufferLevel::Mild) => Some(1),
            Some(BufferLevel::Low) => Some(if qp > QP_MIN { -1 } else { 0 }),
            Some(BufferLevel::Neutral) => Some(0),
            None => None,
        };
        let pd: Option<i32> = match pipeline {
            Some(PipelineLevel::Saturated) => Some(if qp < QP_MAX { 1 } else { 0 }),
            Some(PipelineLevel::Fast) => Some(if qp > QP_MIN { -1 } else { 0 }),
            Some(PipelineLevel::Neutral) => Some(0),
            None => None,
        };
        let delta: i32 = match (bd, pd) {
            (Some(b), Some(p)) => if b != 0 { b } else { p },
            (Some(b), None) => b,
            (None, Some(p)) => p,
            (None, None) => 0,
        };
        self.buffer = None;
        if delta == 0 {
            return None;
        }
        let x: i32 = qp as i32 + delta;
        let new_qp: u32 = if x < QP_MIN as i32 {
            QP_MIN
        } else if x > QP_MAX as i32 {
            QP_MAX
        } else {
            x as u32
        };
        if new_qp != qp {
            self.current_qp = new_qp;
            Some(new_qp)
        } else {
            None
        }
    }
}

/// Law: whatever the signals, the quantiser stays within `[QP_MIN, QP_MAX]`, moves by
/// at most two per decision, and a buffer level that asks for a change decides the
/// direction.
pub proof fn lemma_quality_bounds(qp: u32, b: Option<BufferLevel>, p: Option<PipelineLevel>)
    requires
        QP_MIN <= qp <= QP_MAX,
    ensures
        QP_MIN <= next_qp(qp, b, p) <= QP_MAX,
        -2 <= next_qp(qp, b, p) - qp <= 2,
        (b matches Some(bl) && buffer_delta(bl, qp) > 0) ==> next_qp(qp, b, p) >= qp,
        (b matches Some(bl) && buffer_delta(bl, qp) < 0) ==> next_qp(qp, b, p) < qp,
{
}

// ---------------------------------------------------------------------------
// Capture pipeline
// ---------------------------------------------------------------------------

/// Consecutive capture failures after which capturing stops.
pub const MAX_CAPTURE_FAILURES: u32 = 30;
/// Interval between frame statistics reports, in nanoseconds.
pub const STATS_INTERVAL_NS: u64 = 5_000_000_000;

/// Input and output sizes of the running encoder (zero input width: none yet).
#[derive(Clone, Copy, Debug, PartialEq, Eq, Structural)]
pub struct EncoderDims {
    pub width_in: usize,
    pub height_in: usize,
    pub width_out: usize,
    pub height_out: usize,
}

/// The state of the capture loop of a client's video.
pub struct VideoPipeline {
    pub paused: bool,
    /// Whether a recorder is running.
    pub recording: bool,
    pub max_width: usize,
    pub max_height: usize,
    pub encoder: EncoderDims,
    pub consecutive_failures: u32,
    pub frames_total: u64,
    pub frames_dropped: u64,
    pub quality: QualityController,
}

/// When the next frame is due: frames that passed since the last one at `last_ns`
/// are skipped, and the next one is due a whole number of frame durations later.
pub open spec fn spec_pacing(now_ns: u64, last_ns: u64, frame_ns: u64) -> (u64, int, int) {
    let elapsed = if now_ns >= last_ns { now_ns - last_ns } else { 0 };
    let passed = elapsed / frame_ns as int;
    let next = last_ns + (passed + 1) * frame_ns;
    (passed as u64, next, if next >= now_ns { next - now_ns } else { 0 })
}

/// Computes, at `now_ns`, the frames skipped since the last frame at `last_ns`, when
/// the next frame is due, and how long until then.
pub fn frame_pacing(now_ns: u64, last_ns: u64, frame_ns: u64) -> (r: (u64, u64, u64))
    requires
        frame_ns > 0,
        spec_pacing(now_ns, last_ns, frame_ns).1 <= u64::MAX,
    ensures
        r.0 == spec_pacing(now_ns, last_ns, frame_ns).0,
        r.1 == spec_pacing(now_ns, last_ns, frame_ns).1,
        r.2 == spec_pacing(now_ns, last_ns, frame_ns).2,
{
    let elapsed: u64 = if now_ns >= last_ns { now_ns - last_ns } else { 0 };
    let passed: u64 = elapsed / frame_ns;
    proof {
        assert(passed * frame_ns <= elapsed) by (nonlinear_arith)
            requires passed == elapsed / frame_ns, frame_ns > 0;
        assert((passed + 1) * frame_ns == passed * frame_ns + frame_ns) by (nonlinear_arith);
    }
    let next: u64 = last_ns + (passed * frame_ns + frame_ns);
    let timeout: u64 = if next >= now_ns { next - now_ns } else { 0 };
    (passed, next, timeout)
}

impl VideoPipeline {
    pub fn new() -> (r: VideoPipeline)
        ensures
            !r.paused && !r.recording,
            r.max_width == 1920 && r.max_height == 1080,
            r.encoder == (EncoderDims { width_in: 0, height_in: 0, width_out: 0, height_out: 0 }),
            r.consecutive_failures == 0 && r.frames_total == 0 && r.frames_dropped == 0,
            r.quality.wf() && r.quality.qp() == QP_DEFAULT && r.quality.pending() is None,
    {
        VideoPipeline {
            paused: false,
            recording: false,
            max_width: 1920,
            max_height: 1080,
            encoder: EncoderDims { width_in: 0, height_in: 0, width_out: 0, height_out: 0 },
            consecutive_failures: 0,
            frames_total: 0,
            frames_dropped: 0,
            quality: QualityController::new(),
        }
    }

    /// A capture was (re)started; `recorder_ok` tells whether the recorder came up.
    /// Failures are counted afresh from here; forces an encoder restart on the next
    /// frame and returns the client's answer.
    pub fn start(&mut self, recorder_ok: bool, max_width: usize, max_height: usize) -> (r: MessageOutbound)
        ensures
            final(self).recording == recorder_ok,
            final(self).encoder == (EncoderDims { width_in: 0, ..old(self).encoder }),
            recorder_ok ==> final(self).max_width == max_width && final(self).max_height == max_height
                && r == MessageOutbound::ConfigOk,
            !recorder_ok ==> final(self).max_width == old(self).max_width && final(self).max_height == old(self).max_height
                && (r matches MessageOutbound::Error(m) && m@ == "Failed to init screen cast!"@),
            final(self).paused == old(self).paused,
            final(self).consecutive_failures == 0,
            final(self).frames_total == old(self).frames_total,
            final(self).frames_dropped == old(self).frames_dropped,
            final(self).quality == old(self).quality,
    {
        self.recording = recorder_ok;
        self.consecutive_failures = 0;
        self.encoder.width_in = 0;
        if recorder_ok {
            self.max_width = max_width;
            self.max_height = max_height;
            MessageOutbound::ConfigOk
        } else {
            MessageOutbound::Error("Failed to init screen cast!".to_owned())
        }
    }

    /// The client asked for a restart: force an encoder restart and reset quality.
    pub fn restart(&mut self)
        ensures
            final(self).encoder == (EncoderDims { width_in: 0, ..old(self).encoder }),
            final(self).quality.wf() && final(self).quality.qp() == QP_DEFAULT && final(self).quality.pending() is None,
            final(self).recording == old(self).recording,
            final(self).paused == old(self).paused,
    {
        self.encoder.width_in = 0;
        self.quality.reset();
    }

    /// A capture failed. After `MAX_CAPTURE_FAILURES` in a row the recorder is given up
    /// and the client told so.
    pub fn capture_failed(&mut self) -> (r: Option<MessageOutbound>)
        requires
            old(self).consecutive_failures < u32::MAX,
        ensures
            final(self).consecutive_failures == old(self).consecutive_failures + 1,
            final(self).consecutive_failures >= MAX_CAPTURE_FAILURES ==> !final(self).recording
                && (r matches Some(MessageOutbound::Error(m)) && m@ == "Screen capture lost — please reconnect."@),
            final(self).consecutive_failures < MAX_CAPTURE_FAILURES ==> final(self).recording == old(self).recording
                && r is None,
            final(self).encoder == old(self).encoder,
    {
        self.consecutive_failures = self.consecutive_failures + 1;
        if self.consecutive_failures >= MAX_CAPTURE_FAILURES {
            self.recording = false;
            Some(MessageOutbound::Error("Screen capture lost — please reconnect.".to_owned()))
        } else {
            None
        }
    }

    /// A frame of `width_in` x `height_in` was captured, to be encoded at
    /// `width_out` x `height_out`. Returns the encoder sizes to restart with when
    /// they differ from the running encoder's.
    pub fn captured(&mut self, width_in: usize, height_in: usize, width_out: usize, height_out: usize) -> (r: Option<EncoderDims>)
        ensures
            final(self).consecutive_failures == 0,
            final(self).encoder == (EncoderDims { width_in, height_in, width_out, height_out }),
            r == if old(self).encoder == (EncoderDims { width_in, height_in, width_out, height_out }) {
                None
            } else {
                Some(EncoderDims { width_in, height_in, width_out, height_out })
            },
            final(self).recording == old(self).recording,
    {
        self.consecutive_failures = 0;
        let dims = EncoderDims { width_in, height_in, width_out, height_out };
        let needs_restart = self.encoder.width_in != width_in || self.encoder.height_in != height_in
            || self.encoder.width_out != width_out || self.encoder.height_out != height_out;
        if needs_restart {
            self.encoder = dims;
            Some(dims)
        } else {
            None
        }
    }

    /// Counts frames skipped by pacing as dropped.
    pub fn frames_skipped(&mut self, n: u64)
        requires
            old(self).frames_total + n <= u64::MAX,
            old(self).frames_dropped + n <= u64::MAX,
        ensures
            final(self).frames_total == old(self).frames_total + n,
            final(self).frames_dropped == old(self).frames_dropped + n,
    {
        self.frames_total = self.frames_total + n;
        self.frames_dropped = self.frames_dropped + n;
    }

    /// Counts a captured frame, dropped when the encoder was busy.
    pub fn frame_offered(&mut self, accepted: bool)
        requires
            old(self).frames_total < u64::MAX,
            old(self).frames_dropped < u64::MAX,
        ensures
            final(self).frames_total == old(self).frames_total + 1,
            final(self).frames_dropped == old(self).frames_dropped + if accepted { 0int } else { 1 },
    {
        self.frames_total = self.frames_total + 1;
        if !accepted {
            self.frames_dropped = self.frames_dropped + 1;
        }
    }

    /// When `since_report_ns` has reached the report interval and frames were counted,
    /// returns (dropped, total) and starts counting afresh.
    pub fn take_stats(&mut self, since_report_ns: u64) -> (r: Option<(u64, u64)>)
        ensures
            (since_report_ns >= STATS_INTERVAL_NS && old(self).frames_total > 0) ==> r == Some(
                (old(self).frames_dropped, old(self).frames_total))
                && final(self).frames_total == 0 && final(self).frames_dropped == 0,
            !(since_report_ns >= STATS_INTERVAL_NS && old(self).frames_total > 0) ==> r is None
                && final(self).frames_total == old(self).frames_total
                && final(self).frames_dropped == old(self).frames_dropped,
    {
        if since_report_ns >= STATS_INTERVAL_NS && self.frames_total > 0 {
            let r = (self.frames_dropped, self.frames_total);
            self.frames_total = 0;
            self.frames_dropped = 0;
            Some(r)
        } else {
            None
        }
    }
}

// ---------------------------------------------------------------------------
// Stream events
// ---------------------------------------------------------------------------

/// What the shared capture and encode pipeline announces to its subscribers.
#[derive(Clone, Debug)]
pub enum StreamEvent {
    VideoFrame(Arc<Vec<u8>>),
    NewVideo,
    VideoInit { codec_string: String },
    ConfigOk,
    Error(String),
}

/// What a subscriber sends its client for an event.
#[derive(Clone, Debug)]
pub enum Outgoing {
    Video(Arc<Vec<u8>>),
    Message(MessageOutbound),
}

/// Maps a stream event to what goes to the client: frames as video, the rest as the
/// message of the same name.
pub fn forward_event(event: StreamEvent) -> (r: Outgoing)
    ensures
        match event {
            StreamEvent::VideoFrame(d) => r == Outgoing::Video(d),
            StreamEvent::NewVideo => r == Outgoing::Message(MessageOutbound::NewVideo),
            StreamEvent::VideoInit { codec_string } => r == Outgoing::Message(MessageOutbound::VideoInit { codec_string }),
            StreamEvent::ConfigOk => r == Outgoing::Message(MessageOutbound::ConfigOk),
            StreamEvent::Error(m) => r == Outgoing::Message(MessageOutbound::Error(m)),
        },
{
    match event {
        StreamEvent::VideoFrame(d) => Outgoing::Video(d),
        StreamEvent::NewVideo => Outgoing::Message(MessageOutbound::NewVideo),
        StreamEvent::VideoInit { codec_string } => Outgoing::Message(MessageOutbound::VideoInit { codec_string }),
        StreamEvent::ConfigOk => Outgoing::Message(MessageOutbound::ConfigOk),
        StreamEvent::Error(m) => Outgoing::Message(MessageOutbound::Error(m)),
    }
}

} // verus!
