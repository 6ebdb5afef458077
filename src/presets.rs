use crate::rational::Rational;
use vstd::prelude::*;

verus! {

/// Frames per second.
#[derive(Clone, Copy, Debug, PartialEq, Eq, Structural)]
pub struct Framerate(pub u8);

/// The time base that belongs to a frame rate: one tick per frame.
#[derive(Clone, Copy, Debug, PartialEq, Eq, Structural)]
pub struct Timebase(pub u8);

impl Default for Framerate {
    /// 30 frames per second.
    fn default() -> (r: Framerate)
        ensures
            r.0 == 30,
    {
        Framerate(30)
    }
}

impl Framerate {
    pub fn into_timebase(&self) -> (r: Timebase)
        ensures
            r.0 == self.0,
    {
        Timebase(self.0)
    }

    /// The number of frames per second.
    pub fn fps(&self) -> (r: u8)
        ensures
            r == self.0,
    {
        self.0
    }

    /// The frame rate as a rational number: `fps / 1`.
    pub fn to_rational(&self) -> (r: Rational)
        ensures
            r.num == self.0,
            r.den == 1,
    {
        Rational::new(self.0 as u32, 1)
    }

    pub fn f24() -> (r: Framerate)
        ensures
            r.0 == 24,
    {
        Framerate(24)
    }

    pub fn f30() -> (r: Framerate)
        ensures
            r.0 == 30,
    {
        Framerate(30)
    }

    pub fn f60() -> (r: Framerate)
        ensures
            r.0 == 60,
    {
        Framerate(60)
    }

    pub fn change_to_24(&mut self)
        ensures
            final(self).0 == 24,
    {
        *self = Self::f24();
    }

    pub fn change_to_30(&mut self)
        ensures
            final(self).0 == 30,
    {
        *self = Self::f30();
    }

    pub fn change_to_60(&mut self)
        ensures
            final(self).0 == 60,
    {
        *self = Self::f60();
    }
}

impl Timebase {
    /// The time base as a rational number: `1 / fps`.
    pub fn to_rational(&self) -> (r: Rational)
        ensures
            r.num == 1,
            r.den == self.0,
    {
        Rational::new(1, self.0 as u32)
    }
}

/// A frame size in pixels.
#[derive(Clone, Copy, Debug, PartialEq, Eq, Structural)]
pub struct Resolution {
    pub width: u16,
    pub height: u16,
}

impl Default for Resolution {
    /// QVGA, 320 x 240.
    fn default() -> (r: Resolution)
        ensures
            r.width == 320,
            r.height == 240,
    {
        Resolution::qvga()
    }
}

impl Resolution {
    pub open spec fn pixels(self) -> nat {
        (self.width as nat * self.height as nat) as nat
    }

    /// The number of pixels in one frame.
    pub fn pixel_count(&self) -> (r: usize)
        ensures
            r == self.pixels(),
    {
        assert(self.width as nat * self.height as nat <= 0xffff * 0xffff) by (nonlinear_arith)
            requires
                self.width <= 0xffff,
                self.height <= 0xffff,
        ;
        (self.width as usize) * (self.height as usize)
    }

    pub fn new(width: u16, height: u16) -> (r: Resolution)
        ensures
            r.width == width,
            r.height == height,
    {
        Resolution { width, height }
    }

    pub fn qvga() -> (r: Resolution)
        ensures
            r.width == 320,
            r.height == 240,
    {
        Resolution::new(320, 240)
    }

    pub fn vga() -> (r: Resolution)
        ensures
            r.width == 640,
            r.height == 480,
    {
        Resolution::new(640, 480)
    }

    pub fn hd() -> (r: Resolution)
        ensures
            r.width == 1280,
            r.height == 720,
    {
        Resolution::new(1280, 720)
    }

    pub fn fhd() -> (r: Resolution)
        ensures
            r.width == 1920,
            r.height == 1080,
    {
        Resolution::new(1920, 1080)
    }

    pub fn uhd4k() -> (r: Resolution)
        ensures
            r.width == 3840,
            r.height == 2160,
    {
        Resolution::new(3840, 2160)
    }

    pub fn change_to_qvga(&mut self)
        ensures
            final(self).width == 320,
            final(self).height == 240,
    {
        *self = Self::qvga();
    }

    pub fn change_to_vga(&mut self)
        ensures
            final(self).width == 640,
            final(self).height == 480,
    {
        *self = Self::vga();
    }

    pub fn change_to_hd(&mut self)
        ensures
            final(self).width == 1280,
            final(self).height == 720,
    {
        *self = Self::hd();
    }

    pub fn change_to_fhd(&mut self)
        ensures
            final(self).width == 1920,
            final(self).height == 1080,
    {
        *self = Self::fhd();
    }

    pub fn change_to_uhd4k(&mut self)
        ensures
            final(self).width == 3840,
            final(self).height == 2160,
    {
        *self = Self::uhd4k();
    }
}

} // verus!
