use crate::codec_name::Name;
use crate::rational::Rational;
use crate::video_config::PixelFormat;
use crate::video_config::VideoConfig;
use vstd::prelude::*;

verus! {

/// The settings an encoding context is opened with; each one left unset
/// keeps the codec library's default.
#[derive(Clone, Copy, Debug, PartialEq, Eq, Structural)]
pub struct VideoContextBuilder {
    pub codec: Name,
    pub width: Option<u16>,
    pub height: Option<u16>,
    pub framerate: Option<Rational>,
    pub time_base: Option<Rational>,
    pub bit_rate: Option<u32>,
    pub gop_size: Option<u8>,
    pub max_b_frames: Option<u8>,
    pub pix_fmt: Option<PixelFormat>,
}

impl VideoContextBuilder {
    /// Settings for `codec` with nothing set.
    pub fn new(codec: Name) -> (r: VideoContextBuilder)
        ensures
            r == (VideoContextBuilder {
                codec,
                width: None,
                height: None,
                framerate: None,
                time_base: None,
                bit_rate: None,
                gop_size: None,
                max_b_frames: None,
                pix_fmt: None,
            }),
    {
        VideoContextBuilder {
            codec,
            width: None,
            height: None,
            framerate: None,
            time_base: None,
            bit_rate: None,
            gop_size: None,
            max_b_frames: None,
            pix_fmt: None,
        }
    }

    pub fn width(self, value: u16) -> (r: VideoContextBuilder)
        ensures
            r == (VideoContextBuilder { width: Some(value), ..self }),
    {
        VideoContextBuilder { width: Some(value), ..self }
    }

    pub fn height(self, value: u16) -> (r: VideoContextBuilder)
        ensures
            r == (VideoContextBuilder { height: Some(value), ..self }),
    {
        VideoContextBuilder { height: Some(value), ..self }
    }

    pub fn framerate(self, value: Rational) -> (r: VideoContextBuilder)
        ensures
            r == (VideoContextBuilder { framerate: Some(value), ..self }),
    {
        VideoContextBuilder { framerate: Some(value), ..self }
    }

    pub fn time_base(self, value: Rational) -> (r: VideoContextBuilder)
        ensures
            r == (VideoContextBuilder { time_base: Some(value), ..self }),
    {
        VideoContextBuilder { time_base: Some(value), ..self }
    }

    pub fn bit_rate(self, value: u32) -> (r: VideoContextBuilder)
        ensures
            r == (VideoContextBuilder { bit_rate: Some(value), ..self }),
    {
        VideoContextBuilder { bit_rate: Some(value), ..self }
    }

    pub fn gop_size(self, value: u8) -> (r: VideoContextBuilder)
        ensures
            r == (VideoContextBuilder { gop_size: Some(value), ..self }),
    {
        VideoContextBuilder { gop_size: Some(value), ..self }
    }

    pub fn max_b_frames(self, value: u8) -> (r: VideoContextBuilder)
        ensures
            r == (VideoContextBuilder { max_b_frames: Some(value), ..self }),
    {
        VideoContextBuilder { max_b_frames: Some(value), ..self }
    }

    pub fn pix_fmt(self, value: PixelFormat) -> (r: VideoContextBuilder)
        ensures
            r == (VideoContextBuilder { pix_fmt: Some(value), ..self }),
    {
        VideoContextBuilder { pix_fmt: Some(value), ..self }
    }

    /// The settings of an encoder for `config`: its codec, size and pixel
    /// format, its frame rate, one tick per frame, a key frame every two
    /// seconds, and at most two B-frames in a row.
    pub fn from_config(config: &VideoConfig) -> (r: VideoContextBuilder)
        requires
            config.framerate.0 <= 127,
        ensures
            r.codec == config.codec.name_spec(),
            r.width == Some(config.resolution.width),
            r.height == Some(config.resolution.height),
            r.framerate == Some(Rational { num: config.framerate.0 as u32, den: 1 }),
            r.time_base == Some(Rational { num: 1, den: config.framerate.0 as u32 }),
            r.bit_rate is None,
            r.gop_size == Some((config.framerate.0 * 2) as u8),
            r.max_b_frames == Some(2u8),
            r.pix_fmt == Some(config.pixel_format),
    {
        let fps = config.framerate.fps();
        VideoContextBuilder::new(config.codec.name())
            .framerate(config.framerate.to_rational())
            .time_base(config.framerate.into_timebase().to_rational())
            .width(config.resolution.width)
            .height(config.resolution.height)
            .gop_size(fps * 2)
            .pix_fmt(config.pixel_format)
            .max_b_frames(2)
    }
}

} // verus!
