//! Start-up decisions of the server, and how the WebSocket reader treats a frame.

use vstd::prelude::*;
use crate::config::TlsMode;
use crate::encode::{Codec, EncoderOptions, DEFAULT_AVIO_BUFFER_SIZE};

verus! {

/// The encoder settings of a server on Linux: VA-API and NVENC as configured, the
/// other platforms' backends off, the rest at their defaults.
pub fn encoder_options_for(try_vaapi: bool, try_nvenc: bool) -> (r: EncoderOptions)
    ensures
        r.try_vaapi == try_vaapi && r.try_nvenc == try_nvenc,
        !r.try_videotoolbox && !r.try_mediafoundation,
        r.codec == Codec::H264 && r.avio_buffer_size == DEFAULT_AVIO_BUFFER_SIZE && !r.all_intra,
{
    EncoderOptions {
        try_vaapi,
        try_nvenc,
        try_videotoolbox: false,
        try_mediafoundation: false,
        codec: Codec::H264,
        avio_buffer_size: DEFAULT_AVIO_BUFFER_SIZE,
        all_intra: false,
    }
}

/// Where the server's TLS certificate comes from.
#[derive(Clone, Debug, PartialEq, Eq)]
pub enum TlsSource {
    /// No TLS: plain TCP.
    Plain,
    /// The self-signed certificate kept in the server's state directory.
    Auto,
    /// The configured certificate and key files.
    Files(String, String),
}

/// The file names of the self-signed certificate and its key.
pub const AUTO_CERT_FILE: &'static str = "cert-v2.der";
pub const AUTO_KEY_FILE: &'static str = "key-v2.der";

/// Decides the certificate source: none when TLS is off, the generated certificate
/// in auto mode, the configured files in certified mode (none when either path is
/// missing or empty).
pub fn tls_source(mode: TlsMode, cert_path: Option<&str>, key_path: Option<&str>) -> (r: TlsSource)
    ensures
        mode == TlsMode::Disabled ==> r == TlsSource::Plain,
        mode == TlsMode::Auto ==> r == TlsSource::Auto,
        mode == TlsMode::Certified ==> match (cert_path, key_path) {
            (Some(c), Some(k)) => if c@.len() > 0 && k@.len() > 0 {
                r matches TlsSource::Files(rc, rk) && rc@ == c@ && rk@ == k@
            } else {
                r == TlsSource::Plain
            },
            _ => r == TlsSource::Plain,
        },
{
    match mode {
        TlsMode::Disabled => TlsSource::Plain,
        TlsMode::Auto => TlsSource::Auto,
        TlsMode::Certified => match (cert_path, key_path) {
            (Some(c), Some(k)) => {
                if !c.is_empty() && !k.is_empty() {
                    TlsSource::Files(c.to_owned(), k.to_owned())
                } else {
                    TlsSource::Plain
                }
            },
            _ => TlsSource::Plain,
        },
    }
}

/// Largest text frame the server reads (64 KiB).
pub const MAX_TEXT_FRAME_SIZE: usize = 65536;
/// Seconds without a frame after which a connection is closed.
pub const IDLE_TIMEOUT_SECS: u64 = 120;

/// The kinds of WebSocket frame.
#[derive(Clone, Copy, Debug, PartialEq, Eq, Structural)]
pub enum FrameKind {
    Text,
    Binary,
    Ping,
    Pong,
    Close,
    Raw,
}

/// What the reader does with a frame.
#[derive(Clone, Copy, Debug, PartialEq, Eq, Structural)]
pub enum InboundAction {
    /// Stop reading: the client closed.
    Close,
    /// Drop a text frame over the size limit.
    DropOversized,
    /// Parse a text frame as a message.
    Parse,
    /// Ignore the frame.
    Ignore,
}

/// Decides what to do with a frame of `len` bytes.
pub fn inbound_action(kind: FrameKind, len: usize) -> (r: InboundAction)
    ensures
        r == match kind {
            FrameKind::Close => InboundAction::Close,
            FrameKind::Text => if len > MAX_TEXT_FRAME_SIZE { InboundAction::DropOversized } else { InboundAction::Parse },
            _ => InboundAction::Ignore,
        },
{
    match kind {
        FrameKind::Close => InboundAction::Close,
        FrameKind::Text => if len > MAX_TEXT_FRAME_SIZE { InboundAction::DropOversized } else { InboundAction::Parse },
        _ => InboundAction::Ignore,
    }
}

} // verus!
