use crate::video_config::PixelFormat;
use vstd::prelude::*;

verus! {

/// Bytes in plane `k` (0, 1 or 2) of a frame of `pixels` pixels.
pub open spec fn plane_len(format: PixelFormat, pixels: nat, k: int) -> nat {
    match format {
        PixelFormat::RGB24 => if k == 0 { 3 * pixels } else { 0 },
        PixelFormat::YUV420P => if k == 0 { pixels } else { pixels / 4 },
        PixelFormat::YUV444P => pixels,
    }
}

/// Bytes in one raw frame buffer: all its planes, back to back.
pub open spec fn frame_len(format: PixelFormat, pixels: nat) -> nat {
    plane_len(format, pixels, 0) + plane_len(format, pixels, 1) + plane_len(format, pixels, 2)
}

/// Where plane `k` starts in a raw frame buffer.
pub open spec fn plane_offset(format: PixelFormat, pixels: nat, k: int) -> nat {
    if k == 0 {
        0
    } else if k == 1 {
        plane_len(format, pixels, 0)
    } else {
        plane_len(format, pixels, 0) + plane_len(format, pixels, 1)
    }
}

/// The bytes of plane `k` within a raw frame buffer.
pub open spec fn plane_slice(data: Seq<u8>, format: PixelFormat, pixels: nat, k: int) -> Seq<u8> {
    data.subrange(
        plane_offset(format, pixels, k) as int,
        (plane_offset(format, pixels, k) + plane_len(format, pixels, k)) as int,
    )
}

/// The number of bytes a raw frame buffer of `format` must hold at
/// `width` x `height` pixels; `None` where that number exceeds `usize`.
pub fn expected_len(format: PixelFormat, width: u16, height: u16) -> (r: Option<usize>)
    ensures
        match r {
            Some(n) => n == frame_len(format, width as nat * height as nat),
            None => frame_len(format, width as nat * height as nat) > usize::MAX,
        },
{
    let pixels = pixel_count(width, height);
    let wide = pixels as u64;
    let total: u64 = match format {
        PixelFormat::RGB24 => 3 * wide,
        PixelFormat::YUV420P => wide + 2 * (wide / 4),
        PixelFormat::YUV444P => 3 * wide,
    };
    if total > usize::MAX as u64 {
        None
    } else {
        Some(total as usize)
    }
}

fn pixel_count(width: u16, height: u16) -> (r: usize)
    ensures
        r == width as nat * height as nat,
        r <= 0xffff * 0xffff,
{
    assert(width as nat * height as nat <= 0xffff * 0xffff) by (nonlinear_arith)
        requires
            width <= 0xffff,
            height <= 0xffff,
    ;
    (width as usize) * (height as usize)
}

/// The codec-side frame: plane memory sized for one picture of the
/// configured format, and its presentation timestamp.
pub struct Frame {
    pub width: u16,
    pub height: u16,
    pub format: PixelFormat,
    pub pts: u32,
    pub plane0: Vec<u8>,
    pub plane1: Vec<u8>,
    pub plane2: Vec<u8>,
}

impl Frame {
    pub open spec fn pixels(&self) -> nat {
        self.width as nat * self.height as nat
    }

    pub open spec fn plane(&self, k: int) -> Seq<u8> {
        if k == 0 {
            self.plane0@
        } else if k == 1 {
            self.plane1@
        } else {
            self.plane2@
        }
    }

    /// Each plane holds exactly the bytes its format gives it.
    pub open spec fn wf(&self) -> bool {
        forall|k: int| 0 <= k < 3 ==> #[trigger] self.plane(k).len() == plane_len(self.format, self.pixels(), k)
    }

    /// All plane contents, back to back.
    pub open spec fn packed(&self) -> Seq<u8> {
        self.plane0@ + self.plane1@ + self.plane2@
    }

    /// A frame with zeroed planes of the right sizes and timestamp 0.
    pub fn new(width: u16, height: u16, format: PixelFormat) -> (r: Frame)
        requires
            frame_len(format, width as nat * height as nat) <= usize::MAX,
        ensures
            r.wf(),
            r.width == width,
            r.height == height,
            r.format == format,
            r.pts == 0,
    {
        let pixels = pixel_count(width, height);
        assert(plane_len(format, pixels as nat, 0) + plane_len(format, pixels as nat, 1)
            + plane_len(format, pixels as nat, 2) <= usize::MAX);
        let (n0, n1) = match format {
            PixelFormat::RGB24 => (3 * pixels, 0),
            PixelFormat::YUV420P => (pixels, pixels / 4),
            PixelFormat::YUV444P => (pixels, pixels),
        };
        let r = Frame {
            width,
            height,
            format,
            pts: 0,
            plane0: zeroed(n0),
            plane1: zeroed(n1),
            plane2: zeroed(n1),
        };
        assert(r.plane(0).len() == plane_len(format, r.pixels(), 0));
        assert(r.plane(1).len() == plane_len(format, r.pixels(), 1));
        assert(r.plane(2).len() == plane_len(format, r.pixels(), 2));
        r
    }

    pub fn pixel_count(&self) -> (r: usize)
        ensures
            r == self.pixels(),
    {
        pixel_count(self.width, self.height)
    }

    pub fn set_pts(&mut self, value: u32)
        ensures
            *final(self) == (Frame { pts: value, ..*old(self) }),
    {
        self.pts = value;
    }
}

fn zeroed(n: usize) -> (r: Vec<u8>)
    ensures
        r@.len() == n,
{
    let mut v: Vec<u8> = Vec::with_capacity(n);
    let mut i: usize = 0;
    while i < n
        invariant
            i <= n,
            v@.len() == i,
        decreases n - i,
    {
        v.push(0u8);
        i += 1;
    }
    v
}

/// Overwrites all of `dst` with the bytes of `src` from `start` on.
fn copy_plane(dst: &mut Vec<u8>, src: &Vec<u8>, start: usize)
    requires
        start + old(dst)@.len() <= src@.len(),
    ensures
        final(dst)@ == src@.subrange(start as int, start + old(dst)@.len()),
{
    let n = dst.len();
    let total = src.len();
    let mut i: usize = 0;
    while i < n
        invariant
            n == dst@.len(),
            total == src@.len(),
            start + n <= total,
            i <= n,
            forall|k: int| 0 <= k < i ==> dst@[k] == src@[start + k],
        decreases n - i,
    {
        dst.set(i, src[start + i]);
        i += 1;
    }
    assert(dst@ =~= src@.subrange(start as int, start + n));
}

/// One raw frame buffer, tagged with its pixel format.
pub enum FrameData {
    /// Packed: RGBRGB...
    RGB24(Vec<u8>),
    /// Planar: the Y plane, then the U and V planes of a quarter of its size.
    YUV420P(Vec<u8>),
    /// Planar: the Y, U and V planes, of equal size.
    YUV444P(Vec<u8>),
}

impl FrameData {
    pub open spec fn format_spec(&self) -> PixelFormat {
        match self {
            FrameData::RGB24(_) => PixelFormat::RGB24,
            FrameData::YUV420P(_) => PixelFormat::YUV420P,
            FrameData::YUV444P(_) => PixelFormat::YUV444P,
        }
    }

    pub open spec fn bytes(&self) -> Seq<u8> {
        match self {
            FrameData::RGB24(d) => d@,
            FrameData::YUV420P(d) => d@,
            FrameData::YUV444P(d) => d@,
        }
    }

    /// Tags `data` with `format`.
    pub fn new(format: PixelFormat, data: Vec<u8>) -> (r: FrameData)
        ensures
            r.format_spec() == format,
            r.bytes() == data@,
    {
        match format {
            PixelFormat::RGB24 => FrameData::RGB24(data),
            PixelFormat::YUV420P => FrameData::YUV420P(data),
            PixelFormat::YUV444P => FrameData::YUV444P(data),
        }
    }

    pub fn format(&self) -> (r: PixelFormat)
        ensures
            r == self.format_spec(),
    {
        match self {
            FrameData::RGB24(_) => PixelFormat::RGB24,
            FrameData::YUV420P(_) => PixelFormat::YUV420P,
            FrameData::YUV444P(_) => PixelFormat::YUV444P,
        }
    }

    fn data(&self) -> (r: &Vec<u8>)
        ensures
            r@ == self.bytes(),
    {
        match self {
            FrameData::RGB24(d) => d,
            FrameData::YUV420P(d) => d,
            FrameData::YUV444P(d) => d,
        }
    }

    /// Copies the buffer into the frame's planes, stamps the frame with the
    /// counter `pts`, and advances the counter by one.
    ///
    /// The buffer must hold exactly as many bytes as the frame's format and
    /// size call for.
    pub fn set_to_frame(&self, frame: &mut Frame, pts: &mut u32)
        requires
            old(frame).wf(),
            old(frame).format == self.format_spec(),
            self.bytes().len() == frame_len(old(frame).format, old(frame).pixels()),
            *old(pts) < u32::MAX,
        ensures
            final(frame).wf(),
            final(frame).width == old(frame).width,
            final(frame).height == old(frame).height,
            final(frame).format == old(frame).format,
            final(frame).plane0@ == plane_slice(self.bytes(), old(frame).format, old(frame).pixels(), 0),
            final(frame).plane1@ == plane_slice(self.bytes(), old(frame).format, old(frame).pixels(), 1),
            final(frame).plane2@ == plane_slice(self.bytes(), old(frame).format, old(frame).pixels(), 2),
            final(frame).packed() == self.bytes(),
            final(frame).pts == *old(pts),
            *final(pts) == *old(pts) + 1,
    {
        let data = self.data();
        let ghost f = frame.format;
        let ghost n = frame.pixels();
        assert(frame.plane(0).len() == plane_len(f, n, 0));
        assert(frame.plane(1).len() == plane_len(f, n, 1));
        assert(frame.plane(2).len() == plane_len(f, n, 2));
        let n0 = frame.plane0.len();
        let n1 = frame.plane1.len();
        let total = data.len();
        assert(n0 + n1 + frame.plane2@.len() == total);
        copy_plane(&mut frame.plane0, data, 0);
        copy_plane(&mut frame.plane1, data, n0);
        copy_plane(&mut frame.plane2, data, n0 + n1);
        assert(frame.plane(0) == frame.plane0@);
        assert(frame.plane(1) == frame.plane1@);
        assert(frame.plane(2) == frame.plane2@);
        assert(frame.packed() =~= data@);
        frame.set_pts(*pts);
        *pts = *pts + 1;
    }
}

} // verus!
