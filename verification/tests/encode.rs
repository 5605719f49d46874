use rylus::encode::{
    backend_order, build_scale_filter_str, codec_string, frame_input, gop_size, output_size, quality_settings, Backend,
    Codec, EncoderOptions, EncoderState, InputScaler, ScaleTarget,
};
use rylus::pixel::PixelProvider;

#[test]
fn encoder_options_defaults() {
    let opts = EncoderOptions::default();
    assert_eq!(opts.codec, Codec::H264);
    assert!(!opts.all_intra);
    assert_eq!(opts.avio_buffer_size, 1024 * 1024);
}

#[test]
fn avio_buffer_size_used() {
    let opts = EncoderOptions { avio_buffer_size: 4096, ..Default::default() };
    assert_eq!(opts.avio_buffer_size, 4096);
}

#[test]
fn codec_field_accessible() {
    let opts = EncoderOptions { codec: Codec::Hevc, ..Default::default() };
    assert_eq!(opts.codec, Codec::Hevc);
}

#[test]
fn all_intra_sets_gop_one() {
    let opts = EncoderOptions { all_intra: true, ..Default::default() };
    assert!(opts.all_intra);
    assert_eq!(gop_size(&opts), 1);
    assert_eq!(gop_size(&EncoderOptions::default()), 12);
}

#[test]
fn codec_default_is_h264() {
    assert_eq!(Codec::default(), Codec::H264);
}

#[test]
fn codec_ffmpeg_names() {
    assert_eq!(Codec::H264.ffmpeg_codec_name(), "libx264");
    assert_eq!(Codec::Hevc.ffmpeg_codec_name(), "libx265");
}

#[test]
fn encoder_rejects_zero_dimensions() {
    let result = EncoderState::new(0, 0, 0, 0, Codec::H264);
    assert!(result.is_err());
}

#[test]
fn encoder_rejects_one_pixel() {
    let result = EncoderState::new(1, 1, 1, 1, Codec::H264);
    assert!(result.is_err());
    assert_eq!(result.err().unwrap().to_display_string(), "Invalid size for video: width = 0, height = 0");
}

#[test]
fn encoder_handles_odd_dimensions() {
    let s = EncoderState::new(65, 49, 65, 49, Codec::H264).unwrap();
    assert_eq!((s.width_out, s.height_out), (64, 48));
    assert_eq!(output_size(3, 5).unwrap(), (2, 4));
    assert_eq!(
        output_size(3, 1).err().unwrap().to_display_string(),
        "Invalid size for video: width = 2, height = 0"
    );
}

#[test]
fn encoder_check_size() {
    let s = EncoderState::new(64, 64, 64, 64, Codec::H264).unwrap();
    assert!(s.check_size(64, 64, 64, 64));
    assert!(!s.check_size(32, 32, 32, 32));
}

#[test]
fn pending_pts_overrides_auto_pts() {
    let mut s = EncoderState::new(64, 64, 64, 64, Codec::H264).unwrap();
    s.set_next_pts(999);
    assert_eq!(s.pending_pts, Some(999));
}

#[test]
fn pending_pts_none_uses_auto() {
    let s = EncoderState::new(64, 64, 64, 64, Codec::H264).unwrap();
    assert!(s.pending_pts.is_none());
}

#[test]
fn pending_pts_used_and_cleared() {
    let mut s = EncoderState::new(64, 64, 64, 64, Codec::H264).unwrap();
    s.set_next_pts(12345);
    assert_eq!(s.pending_pts, Some(12345));
    assert_eq!(s.next_frame(7), (12345, true));
    assert!(s.pending_pts.is_none());
    assert_eq!(s.next_frame(40), (40, false));
    s.request_keyframe();
    assert_eq!(s.next_frame(80), (80, true));
}

#[test]
fn hevc_codec_string_format() {
    assert!(codec_string(Codec::Hevc, 1, 93).starts_with("hvc1."));
    assert_eq!(codec_string(Codec::Hevc, 1, 93), "hvc1.01.0.L5D.00");
    assert_eq!(codec_string(Codec::H264, 77, 40), "avc1.4D0028");
    assert_eq!(codec_string(Codec::H264, 100, 31), "avc1.64001F");
    assert_eq!(codec_string(Codec::H264, -1, 40), "avc1.4D0028");
    assert_eq!(codec_string(Codec::Hevc, 1, -1), "hvc1.0100.0.L93.00");
}

#[test]
fn quality_is_capped_at_51() {
    assert_eq!(quality_settings(23), (23, 23 * 118));
    assert_eq!(quality_settings(60), (51, 51 * 118));
}

#[test]
fn scale_filters_for_each_target() {
    assert_eq!(
        build_scale_filter_str(ScaleTarget::Software, false, "nv12", 1280, 720),
        "scale=w=1280:h=720:flags=fast_bilinear"
    );
    assert_eq!(
        build_scale_filter_str(ScaleTarget::Cuda, true, "nv12", 640, 360),
        "scale=w=640:h=360:flags=fast_bilinear,hwupload_cuda"
    );
    assert_eq!(
        build_scale_filter_str(ScaleTarget::Cuda, false, "nv12", 640, 360),
        "hwupload_cuda,scale_cuda=w=640:h=360:format=nv12:interp_algo=nearest"
    );
    assert_eq!(
        build_scale_filter_str(ScaleTarget::Vaapi, false, "nv12", 640, 360),
        "hwupload,scale_vaapi=w=640:h=360:format=nv12:mode=fast"
    );
    assert_eq!(
        build_scale_filter_str(ScaleTarget::Vaapi, true, "nv12", 640, 360),
        "scale=w=640:h=360:flags=fast_bilinear,hwupload"
    );
}

#[test]
fn buffer_validation_wrong_size_doesnt_crash() {
    let small = vec![0u8; 100];
    assert_eq!(frame_input(&PixelProvider::BGR0(64, 64, &small)), None);
    let exact = vec![0u8; 64 * 64 * 4];
    assert_eq!(frame_input(&PixelProvider::BGR0(64, 64, &exact)), Some((InputScaler::Bgr0, 256)));
    let rgb = vec![0u8; 64 * 64 * 3];
    assert_eq!(frame_input(&PixelProvider::RGB(64, 64, &rgb)), Some((InputScaler::Rgb, 192)));
    assert_eq!(frame_input(&PixelProvider::RGB0(64, 64, &rgb)), None);
    assert_eq!(frame_input(&PixelProvider::BGR0S(60, 64, 256, &exact)), Some((InputScaler::Bgr0, 256)));
}

#[test]
fn backends_tried_in_order() {
    let opts = EncoderOptions { try_vaapi: true, try_nvenc: true, ..Default::default() };
    assert_eq!(backend_order(&opts), vec![Backend::Vaapi, Backend::Nvenc, Backend::Software]);
    assert_eq!(backend_order(&EncoderOptions::default()), vec![Backend::Software]);
}
