use crate::codec_name::Name;
use crate::presets::{Framerate, Resolution};
use vstd::prelude::*;

verus! {

/// The encoders a video configuration can choose between.
#[derive(Clone, Copy, Debug, PartialEq, Eq, Structural)]
pub enum Codec {
    Av1,
    H264,
}

impl Default for Codec {
    fn default() -> (r: Codec)
        ensures
            r == Codec::Av1,
    {
        Codec::Av1
    }
}

impl Codec {
    pub fn change_to_av1(&mut self)
        ensures
            *final(self) == Codec::Av1,
    {
        *self = Codec::Av1;
    }

    pub fn change_to_h264(&mut self)
        ensures
            *final(self) == Codec::H264,
    {
        *self = Codec::H264;
    }

    pub open spec fn name_spec(self) -> Name {
        match self {
            Codec::Av1 => Name::LibAomAv1,
            Codec::H264 => Name::LibX264,
        }
    }

    /// The encoder used for this codec.
    pub fn name(self) -> (r: Name)
        ensures
            r == self.name_spec(),
    {
        match self {
            Codec::Av1 => Name::LibAomAv1,
            Codec::H264 => Name::LibX264,
        }
    }
}

/// Layout of one frame's pixel bytes.
#[derive(Clone, Copy, Debug, PartialEq, Eq, Structural)]
pub enum PixelFormat {
    /// Planar; three full-resolution planes.
    YUV444P,
    /// Planar; a full-resolution luma plane and two chroma planes of a
    /// quarter of its size each.
    YUV420P,
    /// Packed; three bytes per pixel.
    RGB24,
}

impl Default for PixelFormat {
    fn default() -> (r: PixelFormat)
        ensures
            r == PixelFormat::YUV444P,
    {
        PixelFormat::YUV444P
    }
}

impl PixelFormat {
    pub fn change_to_yuv444p(&mut self)
        ensures
            *final(self) == PixelFormat::YUV444P,
    {
        *self = PixelFormat::YUV444P;
    }

    pub fn change_to_yuv420p(&mut self)
        ensures
            *final(self) == PixelFormat::YUV420P,
    {
        *self = PixelFormat::YUV420P;
    }

    pub fn change_to_rgb24(&mut self)
        ensures
            *final(self) == PixelFormat::RGB24,
    {
        *self = PixelFormat::RGB24;
    }
}

/// A configuration change that the chosen codec cannot take.
#[derive(Clone, Copy, Debug, PartialEq, Eq, Structural)]
pub enum VideoConfigError {
    UnsupportedPixelFormat,
}

impl VideoConfigError {
    pub fn message(&self) -> (r: &'static str)
        ensures
            r@ == "Unsupported pixel format"@,
    {
        match self {
            VideoConfigError::UnsupportedPixelFormat => "Unsupported pixel format",
        }
    }
}

/// Everything an encoder is configured from.
#[derive(Clone, Copy, Debug, PartialEq, Eq, Structural)]
pub struct VideoConfig {
    pub codec: Codec,
    pub pixel_format: PixelFormat,
    pub resolution: Resolution,
    pub framerate: Framerate,
}

impl Default for VideoConfig {
    /// AV1 in YUV444P, 320 x 240 at 30 frames per second.
    fn default() -> (r: VideoConfig)
        ensures
            r.codec == Codec::Av1,
            r.pixel_format == PixelFormat::YUV444P,
            r.resolution.width == 320,
            r.resolution.height == 240,
            r.framerate.0 == 30,
    {
        VideoConfig {
            codec: Codec::default(),
            pixel_format: PixelFormat::default(),
            resolution: Resolution::default(),
            framerate: Framerate::default(),
        }
    }
}

impl VideoConfig {
    pub fn pixel_count(&self) -> (r: usize)
        ensures
            r == self.resolution.pixels(),
    {
        self.resolution.pixel_count()
    }

    /// Changes the codec to AV1 and the pixel format to YUV444P.
    pub fn change_codec_to_av1(&mut self)
        ensures
            *final(self) == (VideoConfig {
                codec: Codec::Av1,
                pixel_format: PixelFormat::YUV444P,
                ..*old(self)
            }),
    {
        self.codec.change_to_av1();
        self.pixel_format.change_to_yuv444p();
    }

    /// Changes the codec to H.264 and the pixel format to YUV420P.
    pub fn change_codec_to_h264(&mut self)
        ensures
            *final(self) == (VideoConfig {
                codec: Codec::H264,
                pixel_format: PixelFormat::YUV420P,
                ..*old(self)
            }),
    {
        self.codec.change_to_h264();
        self.pixel_format.change_to_yuv420p();
    }

    pub fn change_resolution_to_qvga(&mut self)
        ensures
            *final(self) == (VideoConfig { resolution: Resolution { width: 320, height: 240 }, ..*old(self) }),
    {
        self.resolution.change_to_qvga();
    }

    pub fn change_resolution_to_vga(&mut self)
        ensures
            *final(self) == (VideoConfig { resolution: Resolution { width: 640, height: 480 }, ..*old(self) }),
    {
        self.resolution.change_to_vga();
    }

    pub fn change_resolution_to_hd(&mut self)
        ensures
            *final(self) == (VideoConfig { resolution: Resolution { width: 1280, height: 720 }, ..*old(self) }),
    {
        self.resolution.change_to_hd();
    }

    pub fn change_resolution_to_fhd(&mut self)
        ensures
            *final(self) == (VideoConfig { resolution: Resolution { width: 1920, height: 1080 }, ..*old(self) }),
    {
        self.resolution.change_to_fhd();
    }

    pub fn change_resolution_to_uhd4k(&mut self)
        ensures
            *final(self) == (VideoConfig { resolution: Resolution { width: 3840, height: 2160 }, ..*old(self) }),
    {
        self.resolution.change_to_uhd4k();
    }

    pub fn change_framerate_to_24(&mut self)
        ensures
            *final(self) == (VideoConfig { framerate: Framerate(24), ..*old(self) }),
    {
        self.framerate.change_to_24();
    }

    pub fn change_framerate_to_30(&mut self)
        ensures
            *final(self) == (VideoConfig { framerate: Framerate(30), ..*old(self) }),
    {
        self.framerate.change_to_30();
    }

    pub fn change_framerate_to_60(&mut self)
        ensures
            *final(self) == (VideoConfig { framerate: Framerate(60), ..*old(self) }),
    {
        self.framerate.change_to_60();
    }

    /// YUV444P is refused under H.264.
    pub fn change_pixel_format_to_yuv444p(&mut self) -> (r: Result<(), VideoConfigError>)
        ensures
            old(self).codec == Codec::H264 ==> r is Err && *final(self) == *old(self),
            old(self).codec != Codec::H264 ==> r is Ok && *final(self) == (VideoConfig {
                pixel_format: PixelFormat::YUV444P,
                ..*old(self)
            }),
    {
        match self.codec {
            Codec::H264 => {
                return Err(VideoConfigError::UnsupportedPixelFormat);
            },
            _ => {},
        }
        self.pixel_format.change_to_yuv444p();
        Ok(())
    }

    /// YUV420P is accepted under every codec.
    pub fn change_pixel_format_to_yuv420p(&mut self) -> (r: Result<(), VideoConfigError>)
        ensures
            r is Ok,
            *final(self) == (VideoConfig { pixel_format: PixelFormat::YUV420P, ..*old(self) }),
    {
        self.pixel_format.change_to_yuv420p();
        Ok(())
    }

    /// RGB24 is refused under every codec.
    pub fn change_pixel_format_to_rgb24(&mut self) -> (r: Result<(), VideoConfigError>)
        ensures
            r is Err,
            *final(self) == *old(self),
    {
        match self.codec {
            Codec::Av1 | Codec::H264 => Err(VideoConfigError::UnsupportedPixelFormat),
        }
    }
}

} // verus!
