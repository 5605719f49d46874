//! The video encoder's settings and the decisions it makes around FFmpeg: output
//! size, which backend to try, the MSE codec string, the quantiser, the scale filter,
//! input buffer checks, and frame timestamps and keyframes.

use vstd::prelude::*;
use crate::error::{signed_decimal, spec_signed_decimal};
use crate::pixel::{PixelLayout, PixelProvider};
use crate::text::{chars_of, extend_chars, extend_str, hex_padded, spec_hex_padded, string_from_chars};

verus! {

/// An encoder failure, with its message.
#[derive(Clone, Debug, PartialEq, Eq)]
pub struct EncodeError(pub String);

impl EncodeError {
    /// The message, as the error displays.
    pub fn to_display_string(&self) -> (r: String)
        ensures
            r@ == self.0@,
    {
        self.0.clone()
    }
}

/// The video codec.
#[derive(Clone, Copy, Debug, PartialEq, Eq, Structural)]
pub enum Codec {
    H264,
    Hevc,
}

impl Default for Codec {
    fn default() -> (r: Codec)
        ensures
            r == Codec::H264,
    {
        Codec::H264
    }
}

impl Codec {
    /// The FFmpeg software encoder of the codec.
    pub fn ffmpeg_codec_name(&self) -> (r: &'static str)
        ensures
            r@ == match self {
                Codec::H264 => "libx264"@,
                Codec::Hevc => "libx265"@,
            },
    {
        match self {
            Codec::H264 => "libx264",
            Codec::Hevc => "libx265",
        }
    }
}

/// Default size of the buffer FFmpeg writes its output through (1 MiB).
pub const DEFAULT_AVIO_BUFFER_SIZE: usize = 1048576;
/// Frames between keyframes.
pub const GOP_SIZE: i32 = 12;
/// Highest quantiser the encoders take.
pub const MAX_ENCODER_QP: u32 = 51;
/// FFmpeg's factor from quantiser to lambda (`FF_QP2LAMBDA`).
pub const FF_QP2LAMBDA: i32 = 118;

/// How the encoder is set up.
#[derive(Clone, Copy, Debug, PartialEq, Eq, Structural)]
pub struct EncoderOptions {
    pub try_vaapi: bool,
    pub try_nvenc: bool,
    pub try_videotoolbox: bool,
    pub try_mediafoundation: bool,
    pub codec: Codec,
    pub avio_buffer_size: usize,
    pub all_intra: bool,
}

impl Default for EncoderOptions {
    fn default() -> (r: EncoderOptions)
        ensures
            !r.try_vaapi && !r.try_nvenc && !r.try_videotoolbox && !r.try_mediafoundation,
            r.codec == Codec::H264,
            r.avio_buffer_size == DEFAULT_AVIO_BUFFER_SIZE,
            !r.all_intra,
    {
        EncoderOptions {
            try_vaapi: false,
            try_nvenc: false,
            try_videotoolbox: false,
            try_mediafoundation: false,
            codec: Codec::H264,
            avio_buffer_size: DEFAULT_AVIO_BUFFER_SIZE,
            all_intra: false,
        }
    }
}

/// Frames between keyframes: every frame is one when all-intra is set.
pub fn gop_size(options: &EncoderOptions) -> (r: i32)
    ensures
        r == if options.all_intra { 1 } else { GOP_SIZE },
{
    if options.all_intra { 1 } else { GOP_SIZE }
}

/// The encoder backends, in the order they are tried.
#[derive(Clone, Copy, Debug, PartialEq, Eq, Structural)]
pub enum Backend {
    Vaapi,
    Nvenc,
    Software,
}

/// The backends tried on Linux: VA-API, then NVENC when asked for, then the
/// software encoder, which is always last.
pub open spec fn spec_backend_order(options: EncoderOptions) -> Seq<Backend> {
    (if options.try_vaapi { seq![Backend::Vaapi] } else { seq![] })
        + (if options.try_nvenc { seq![Backend::Nvenc] } else { seq![] })
        + seq![Backend::Software]
}

/// The backends to try, in order.
pub fn backend_order(options: &EncoderOptions) -> (r: Vec<Backend>)
    ensures
        r@ == spec_backend_order(*options),
{
    let mut v: Vec<Backend> = Vec::new();
    if options.try_vaapi {
        v.push(Backend::Vaapi);
    }
    if options.try_nvenc {
        v.push(Backend::Nvenc);
    }
    v.push(Backend::Software);
    assert(v@ =~= spec_backend_order(*options));
    v
}

/// The text of the error for an output size that is too small.
pub open spec fn invalid_size_text(w: usize, h: usize) -> Seq<char> {
    "Invalid size for video: width = "@ + spec_signed_decimal(w as int) + ", height = "@ + spec_signed_decimal(h as int)
}

fn usize_decimal(n: usize) -> (r: Vec<char>)
    ensures
        r@ == spec_signed_decimal(n as int),
{
    crate::text::decimal(n as u64)
}

/// The output size the encoder uses: both sides rounded down to even; an error when
/// either is then at most one.
pub fn output_size(width_out: usize, height_out: usize) -> (r: Result<(usize, usize), EncodeError>)
    ensures
        ({
            let w = width_out - width_out % 2;
            let h = height_out - height_out % 2;
            match r {
                Ok(s) => w > 1 && h > 1 && s == (w as usize, h as usize),
                Err(e) => !(w > 1 && h > 1) && e.0@ == invalid_size_text(w as usize, h as usize),
            }
        }),
{
    let w = width_out - width_out % 2;
    let h = height_out - height_out % 2;
    if w <= 1 || h <= 1 {
        let mut v = chars_of("Invalid size for video: width = ");
        let dw = usize_decimal(w);
        extend_chars(&mut v, dw.as_slice());
        extend_str(&mut v, ", height = ");
        let dh = usize_decimal(h);
        extend_chars(&mut v, dh.as_slice());
        return Err(EncodeError(string_from_chars(v.as_slice())));
    }
    Ok((w, h))
}

/// The MSE codec string for the opened codec's profile and level: for H.264
/// `avc1.` with the profile, `00` and the level as two upper-case hex digits each,
/// for HEVC `hvc1.` profile `.0.L` level `.00`; fixed strings when either is
/// unknown (negative).
pub open spec fn spec_codec_string(codec: Codec, profile: i32, level: i32) -> Seq<char> {
    if profile >= 0 && level >= 0 {
        match codec {
            Codec::H264 => "avc1."@ + spec_hex_padded(profile as nat, 2) + "00"@ + spec_hex_padded(level as nat, 2),
            Codec::Hevc => "hvc1."@ + spec_hex_padded(profile as nat, 2) + ".0.L"@ + spec_hex_padded(level as nat, 2) + ".00"@,
        }
    } else {
        match codec {
            Codec::H264 => "avc1.4D0028"@,
            Codec::Hevc => "hvc1.0100.0.L93.00"@,
        }
    }
}

/// Builds the MSE codec string.
pub fn codec_string(codec: Codec, profile: i32, level: i32) -> (r: String)
    ensures
        r@ == spec_codec_string(codec, profile, level),
{
    if profile >= 0 && level >= 0 {
        let p = hex_padded(profile as u64, 2);
        let l = hex_padded(level as u64, 2);
        match codec {
            Codec::H264 => {
                let mut v = chars_of("avc1.");
                extend_chars(&mut v, p.as_slice());
                extend_str(&mut v, "00");
                extend_chars(&mut v, l.as_slice());
                string_from_chars(v.as_slice())
            },
            Codec::Hevc => {
                let mut v = chars_of("hvc1.");
                extend_chars(&mut v, p.as_slice());
                extend_str(&mut v, ".0.L");
                extend_chars(&mut v, l.as_slice());
                extend_str(&mut v, ".00");
                string_from_chars(v.as_slice())
            },
        }
    } else {
        match codec {
            Codec::H264 => "avc1.4D0028".to_owned(),
            Codec::Hevc => "hvc1.0100.0.L93.00".to_owned(),
        }
    }
}

/// The quantiser an encoder is set to, and FFmpeg's matching global quality:
/// the requested quantiser capped at 51.
pub fn quality_settings(qp: u32) -> (r: (u32, i32))
    ensures
        r.0 == if qp < MAX_ENCODER_QP { qp } else { MAX_ENCODER_QP },
        r.1 == r.0 * FF_QP2LAMBDA,
{
    let q = if qp < MAX_ENCODER_QP { qp } else { MAX_ENCODER_QP };
    (q, q as i32 * FF_QP2LAMBDA)
}

/// Where the scaled frames go.
#[derive(Clone, Copy, Debug, PartialEq, Eq, Structural)]
pub enum ScaleTarget {
    /// CUDA frames (NVENC).
    Cuda,
    /// VA-API surfaces.
    Vaapi,
    /// Software frames.
    Software,
}

/// The FFmpeg filter graph that scales frames to the output size: in software
/// before uploading when the input is RGB24, else on the GPU after uploading.
pub open spec fn spec_scale_filter(target: ScaleTarget, input_rgb24: bool, sw_format: Seq<char>, w: i32, h: i32) -> Seq<char> {
    let wd = spec_signed_decimal(w as int);
    let hd = spec_signed_decimal(h as int);
    match target {
        ScaleTarget::Cuda => if input_rgb24 {
            "scale=w="@ + wd + ":h="@ + hd + ":flags=fast_bilinear,hwupload_cuda"@
        } else {
            "hwupload_cuda,scale_cuda=w="@ + wd + ":h="@ + hd + ":format="@ + sw_format + ":interp_algo=nearest"@
        },
        ScaleTarget::Vaapi => if input_rgb24 {
            "scale=w="@ + wd + ":h="@ + hd + ":flags=fast_bilinear,hwupload"@
        } else {
            "hwupload,scale_vaapi=w="@ + wd + ":h="@ + hd + ":format="@ + sw_format + ":mode=fast"@
        },
        ScaleTarget::Software => "scale=w="@ + wd + ":h="@ + hd + ":flags=fast_bilinear"@,
    }
}

/// Builds the scale filter graph description; `sw_format` names the software pixel
/// format of the hardware frames.
pub fn build_scale_filter_str(target: ScaleTarget, input_rgb24: bool, sw_format: &str, width_out: i32, height_out: i32) -> (r: String)
    ensures
        r@ == spec_scale_filter(target, input_rgb24, sw_format@, width_out, height_out),
{
    let wd = signed_decimal(width_out);
    let hd = signed_decimal(height_out);
    let gpu_side = match target {
        ScaleTarget::Software => false,
        _ => !input_rgb24,
    };
    let mut v: Vec<char> = if gpu_side {
        match target {
            ScaleTarget::Cuda => chars_of("hwupload_cuda,scale_cuda=w="),
            _ => chars_of("hwupload,scale_vaapi=w="),
        }
    } else {
        chars_of("scale=w=")
    };
    extend_chars(&mut v, wd.as_slice());
    extend_str(&mut v, ":h=");
    extend_chars(&mut v, hd.as_slice());
    if gpu_side {
        extend_str(&mut v, ":format=");
        extend_str(&mut v, sw_format);
        match target {
            ScaleTarget::Cuda => extend_str(&mut v, ":interp_algo=nearest"),
            _ => extend_str(&mut v, ":mode=fast"),
        }
    } else {
        match target {
            ScaleTarget::Cuda => extend_str(&mut v, ":flags=fast_bilinear,hwupload_cuda"),
            ScaleTarget::Vaapi => extend_str(&mut v, ":flags=fast_bilinear,hwupload"),
            ScaleTarget::Software => extend_str(&mut v, ":flags=fast_bilinear"),
        }
    }
    let r = string_from_chars(v.as_slice());
    assert(r@ =~= spec_scale_filter(target, input_rgb24, sw_format@, width_out, height_out));
    r
}

/// Bytes a frame must hold: width x height x 3 for RGB, x 4 for RGB0 and BGR0, and
/// stride x height for BGR0S.
pub open spec fn required_len(p: PixelProvider) -> int {
    match p.spec_layout() {
        PixelLayout::RGB => p.spec_width() * p.spec_height() * 3,
        PixelLayout::BGR0S => p.spec_stride() * p.spec_height(),
        _ => p.spec_width() * p.spec_height() * 4,
    }
}

/// Bytes per row of a frame as handed to the scaler.
pub open spec fn row_bytes(p: PixelProvider) -> int {
    match p.spec_layout() {
        PixelLayout::RGB => p.spec_width() * 3,
        PixelLayout::BGR0S => p.spec_stride() as int,
        _ => p.spec_width() * 4,
    }
}

/// Which input scaler a frame goes to.
#[derive(Clone, Copy, Debug, PartialEq, Eq, Structural)]
pub enum InputScaler {
    Rgb,
    Rgb0,
    Bgr0,
}

/// The scaler a layout goes to: BGR0 and strided BGR0 share one.
pub open spec fn scaler_of(l: PixelLayout) -> InputScaler {
    match l {
        PixelLayout::RGB => InputScaler::Rgb,
        PixelLayout::RGB0 => InputScaler::Rgb0,
        _ => InputScaler::Bgr0,
    }
}

/// Checks a frame before encoding: `None` when its buffer is shorter than the frame
/// needs (the frame is skipped), else the scaler and the bytes per row.
pub fn frame_input(p: &PixelProvider) -> (r: Option<(InputScaler, usize)>)
    requires
        required_len(*p) <= usize::MAX,
        p.spec_width() * 4 <= usize::MAX,
    ensures
        p.spec_data().len() < required_len(*p) ==> r is None,
        p.spec_data().len() >= required_len(*p) ==> r == Some((scaler_of(p.spec_layout()), row_bytes(*p) as usize)),
{
    match p {
        PixelProvider::BGR0(w, h, d) => {
            let expected = *w * *h * 4;
            if d.len() < expected { None } else { Some((InputScaler::Bgr0, *w * 4)) }
        },
        PixelProvider::BGR0S(_, h, stride, d) => {
            let expected = *stride * *h;
            if d.len() < expected { None } else { Some((InputScaler::Bgr0, *stride)) }
        },
        PixelProvider::RGB(w, h, d) => {
            let expected = *w * *h * 3;
            if d.len() < expected { None } else { Some((InputScaler::Rgb, *w * 3)) }
        },
        PixelProvider::RGB0(w, h, d) => {
            let expected = *w * *h * 4;
            if d.len() < expected { None } else { Some((InputScaler::Rgb0, *w * 4)) }
        },
    }
}

/// The encoder's bookkeeping: the sizes it was made for, its codec, the timestamp
/// of the next frame when one was set, and whether the next frame must be a
/// keyframe.
pub struct EncoderState {
    pub width_in: usize,
    pub height_in: usize,
    pub width_out: usize,
    pub height_out: usize,
    pub codec: Codec,
    pub pending_pts: Option<i64>,
    pub force_keyframe: bool,
}

impl EncoderState {
    /// The state of a new encoder: the output size made even and checked, and the
    /// first frame a keyframe.
    pub fn new(width_in: usize, height_in: usize, width_out: usize, height_out: usize, codec: Codec) -> (r: Result<EncoderState, EncodeError>)
        ensures
            ({
                let w = width_out - width_out % 2;
                let h = height_out - height_out % 2;
                match r {
                    Ok(s) => w > 1 && h > 1 && s.width_in == width_in && s.height_in == height_in
                        && s.width_out == w && s.height_out == h && s.codec == codec
                        && s.pending_pts is None && s.force_keyframe,
                    Err(e) => !(w > 1 && h > 1) && e.0@ == invalid_size_text(w as usize, h as usize),
                }
            }),
    {
        match output_size(width_out, height_out) {
            Ok((w, h)) => Ok(EncoderState {
                width_in,
                height_in,
                width_out: w,
                height_out: h,
                codec,
                pending_pts: None,
                force_keyframe: true,
            }),
            Err(e) => Err(e),
        }
    }

    /// Whether the encoder was made for these sizes.
    pub fn check_size(&self, width_in: usize, height_in: usize, width_out: usize, height_out: usize) -> (r: bool)
        ensures
            r == (self.width_in == width_in && self.height_in == height_in && self.width_out == width_out
                && self.height_out == height_out),
    {
        self.width_in == width_in && self.height_in == height_in && self.width_out == width_out
            && self.height_out == height_out
    }

    /// Sets the timestamp of the next frame.
    pub fn set_next_pts(&mut self, pts: i64)
        ensures
            final(self).pending_pts == Some(pts),
            final(self).force_keyframe == old(self).force_keyframe,
    {
        self.pending_pts = Some(pts);
    }

    /// Makes the next frame a keyframe.
    pub fn request_keyframe(&mut self)
        ensures
            final(self).force_keyframe,
            final(self).pending_pts == old(self).pending_pts,
    {
        self.force_keyframe = true;
    }

    /// The timestamp and keyframe flag of the frame about to be encoded, `elapsed_ms`
    /// after the encoder started: the set timestamp if there is one, else the
    /// elapsed time. Both requests are consumed.
    pub fn next_frame(&mut self, elapsed_ms: i64) -> (r: (i64, bool))
        ensures
            r.0 == match old(self).pending_pts {
                Some(p) => p,
                None => elapsed_ms,
            },
            r.1 == old(self).force_keyframe,
            final(self).pending_pts is None,
            !final(self).force_keyframe,
            final(self).codec == old(self).codec,
            final(self).width_out == old(self).width_out && final(self).height_out == old(self).height_out,
    {
        let pts = match self.pending_pts {
            Some(p) => p,
            None => elapsed_ms,
        };
        let key = self.force_keyframe;
        self.pending_pts = None;
        self.force_keyframe = false;
        (pts, key)
    }
}

} // verus!
