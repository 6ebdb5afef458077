use ffmpeg_nd::{
    Codec, Format, Framerate, Id, Level, Name, PacketIterator, PixelFormat, Rational,
    Resolution, VideoConfig, VideoConfigError, VideoContextBuilder,
};

#[test]
fn config_test() {
    let mut config = VideoConfig::default();
    config.change_codec_to_av1();
    config.change_resolution_to_hd();
    config.change_framerate_to_24();

    config.change_codec_to_h264();
    config.change_pixel_format_to_rgb24().unwrap_err();
}

#[test]
fn default_config_is_av1_yuv444p_qvga_30() {
    let config = VideoConfig::default();
    assert_eq!(config.codec, Codec::Av1);
    assert_eq!(config.pixel_format, PixelFormat::YUV444P);
    assert_eq!(config.resolution, Resolution::new(320, 240));
    assert_eq!(config.framerate, Framerate(30));
    assert_eq!(config.pixel_count(), 76800);
}

#[test]
fn codec_change_sets_pixel_format() {
    let mut config = VideoConfig::default();
    config.change_codec_to_h264();
    assert_eq!(config.codec, Codec::H264);
    assert_eq!(config.pixel_format, PixelFormat::YUV420P);
    config.change_codec_to_av1();
    assert_eq!(config.codec, Codec::Av1);
    assert_eq!(config.pixel_format, PixelFormat::YUV444P);
}

#[test]
fn pixel_format_changes_follow_codec() {
    let mut config = VideoConfig::default();
    config.change_codec_to_h264();
    assert_eq!(
        config.change_pixel_format_to_yuv444p(),
        Err(VideoConfigError::UnsupportedPixelFormat)
    );
    assert_eq!(config.pixel_format, PixelFormat::YUV420P);
    assert_eq!(config.change_pixel_format_to_yuv420p(), Ok(()));

    config.change_codec_to_av1();
    config.change_pixel_format_to_yuv420p().unwrap();
    assert_eq!(config.pixel_format, PixelFormat::YUV420P);
    assert_eq!(config.change_pixel_format_to_yuv444p(), Ok(()));
    assert_eq!(config.pixel_format, PixelFormat::YUV444P);
    assert!(config.change_pixel_format_to_rgb24().is_err());
    assert_eq!(config.pixel_format, PixelFormat::YUV444P);
    assert_eq!(
        VideoConfigError::UnsupportedPixelFormat.message(),
        "Unsupported pixel format"
    );
}

#[test]
fn resolution_presets() {
    let mut config = VideoConfig::default();
    config.change_resolution_to_vga();
    assert_eq!(config.resolution, Resolution::new(640, 480));
    config.change_resolution_to_hd();
    assert_eq!(config.resolution, Resolution::new(1280, 720));
    config.change_resolution_to_fhd();
    assert_eq!(config.resolution, Resolution::new(1920, 1080));
    config.change_resolution_to_uhd4k();
    assert_eq!(config.resolution, Resolution::new(3840, 2160));
    assert_eq!(config.pixel_count(), 8294400);
    config.change_resolution_to_qvga();
    assert_eq!(config.resolution, Resolution::qvga());
    assert_eq!(Resolution::default(), Resolution::qvga());
    assert_eq!(Resolution::new(65535, 65535).pixel_count(), 4294836225);
}

#[test]
fn framerate_presets_and_time_base() {
    let mut config = VideoConfig::default();
    config.change_framerate_to_24();
    assert_eq!(config.framerate.fps(), 24);
    config.change_framerate_to_60();
    assert_eq!(config.framerate, Framerate::f60());
    config.change_framerate_to_30();
    assert_eq!(config.framerate, Framerate::f30());
    let mut rate = Framerate::default();
    rate.change_to_24();
    assert_eq!(rate, Framerate::f24());
    let tb = rate.into_timebase().to_rational();
    assert_eq!((tb.num, tb.den), (1, 24));
    let r = rate.to_rational();
    assert_eq!((r.num, r.den), (24, 1));
}

#[test]
fn encoder_names_and_ids() {
    assert_eq!(Name::LibAomAv1.name(), "libaom-av1");
    assert_eq!(Name::LibX264.name(), "libx264");
    assert_eq!(Name::LibOpenH264.name(), "libopenh264");
    assert_eq!(Name::LibAomAv1.id(), Id::AV1);
    assert_eq!(Name::LibX264.id(), Id::H264);
    assert_eq!(Name::LibOpenH264.id(), Id::H264);
    assert_eq!(Codec::Av1.name(), Name::LibAomAv1);
    assert_eq!(Codec::H264.name(), Name::LibX264);
}

#[test]
fn container_formats() {
    assert_eq!(Format::default(), Format::Mp4);
    assert_eq!(Format::Mp4.short_name(), "mp4");
    assert_eq!(Format::Mp4.mime_type(), "video/mp4");
    assert_eq!(Format::WebM.short_name(), "webm");
    assert_eq!(Format::WebM.mime_type(), "video/webm");
}

#[test]
fn log_level_codes() {
    let all = [
        (Level::Quiet, -8),
        (Level::Panic, 0),
        (Level::Fatal, 8),
        (Level::Error, 16),
        (Level::Warning, 24),
        (Level::Info, 32),
        (Level::Verbose, 40),
        (Level::Debug, 48),
        (Level::Trace, 56),
    ];
    for (level, code) in all {
        assert_eq!(level.code(), code);
        assert_eq!(Level::from_code(code).unwrap(), level);
    }
    assert!(Level::from_code(7).is_err());
}

#[test]
fn encoder_settings_from_config() {
    let mut config = VideoConfig::default();
    config.change_codec_to_h264();
    config.change_framerate_to_60();
    config.change_resolution_to_vga();
    let b = VideoContextBuilder::from_config(&config);
    assert_eq!(b.codec, Name::LibX264);
    assert_eq!(b.width, Some(640));
    assert_eq!(b.height, Some(480));
    assert_eq!(b.framerate, Some(Rational::new(60, 1)));
    assert_eq!(b.time_base, Some(Rational::new(1, 60)));
    assert_eq!(b.gop_size, Some(120));
    assert_eq!(b.max_b_frames, Some(2));
    assert_eq!(b.bit_rate, None);
    assert_eq!(b.pix_fmt, Some(PixelFormat::YUV420P));
    let manual = VideoContextBuilder::new(Name::LibX264)
        .pix_fmt(PixelFormat::YUV420P)
        .width(640)
        .height(480)
        .framerate(Rational::from_integer(60))
        .time_base(Rational::from_pair([1, 60]))
        .gop_size(120)
        .max_b_frames(2);
    assert_eq!(manual, b);
    assert_eq!(manual.bit_rate(400000).bit_rate, Some(400000));
}

#[test]
fn pipeline_from_config() {
    let mut config = VideoConfig::default();
    config.change_framerate_to_24();
    let pipeline = PacketIterator::from_config(&config);
    assert_eq!(pipeline.time_base(), Rational::new(1, 24));
    assert_eq!(pipeline.format(), PixelFormat::YUV444P);
    assert_eq!(pipeline.next_pts(), 0);
    assert_eq!(pipeline.input_len(), 230400);
    assert_eq!(pipeline.frame().plane0.len(), 76800);
    assert!(!pipeline.is_finished());
}

#[test]
fn video_context_builder_test() {
    let settings = VideoContextBuilder::new(Name::LibAomAv1)
        .pix_fmt(PixelFormat::default())
        .width(320)
        .height(240)
        .framerate(Rational::from_integer(30))
        .time_base(Rational::from_pair([1, 30]))
        .gop_size(60)
        .max_b_frames(2);
    assert_eq!(settings.codec, Name::LibAomAv1);
    assert_eq!(settings.pix_fmt, Some(PixelFormat::YUV444P));
    assert_eq!(settings.width, Some(320));
    assert_eq!(settings.height, Some(240));
    assert_eq!(settings.framerate, Some(Rational::new(30, 1)));
    assert_eq!(settings.time_base, Some(Rational::new(1, 30)));
    assert_eq!(settings.gop_size, Some(60));
    assert_eq!(settings.max_b_frames, Some(2));
    assert_eq!(settings.bit_rate, None);
}
