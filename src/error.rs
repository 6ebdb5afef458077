use vstd::prelude::*;

verus! {

/// POSIX `EAGAIN` ("resource temporarily unavailable") on Linux.
pub const EAGAIN: i32 = 11;

/// The codec's "needs more input" signal: `averror(EAGAIN)`.
pub const AVERROR_EAGAIN: i32 = -11;

/// The codec's "end of stream" signal: `fferrtag(b'E', b'O', b'F', b' ')`.
pub const AVERROR_EOF: i32 = -541478725;

/// Failures of the codec or container layer, or of this library's checks.
#[derive(Debug)]
pub enum Error {
    /// A negative status code returned by the codec or container layer.
    Code(i32),
    /// A failure described in words.
    Message(String),
}

impl Error {
    pub open spec fn has_code(self, code: i32) -> bool {
        match self {
            Error::Code(c) => c == code,
            Error::Message(_) => false,
        }
    }

    /// The error is the "needs more input" signal.
    pub fn is_eagain(&self) -> (r: bool)
        ensures
            r == self.has_code(AVERROR_EAGAIN),
    {
        match self {
            Error::Code(c) => *c == AVERROR_EAGAIN,
            Error::Message(_) => false,
        }
    }

    /// The error is the "end of stream" signal.
    pub fn is_eof(&self) -> (r: bool)
        ensures
            r == self.has_code(AVERROR_EOF),
    {
        match self {
            Error::Code(c) => *c == AVERROR_EOF,
            Error::Message(_) => false,
        }
    }
}

/// The four bytes of a tag read as a little-endian 32-bit number.
pub open spec fn tag_value(a: u8, b: u8, c: u8, d: u8) -> int {
    a as int + 0x100 * b as int + 0x1_0000 * c as int + 0x100_0000 * d as int
}

/// The error code for a four-character tag: the tag as a 32-bit number,
/// reinterpreted as signed and negated.
pub fn fferrtag(a: u8, b: u8, c: u8, d: u8) -> (r: i32)
    requires
        tag_value(a, b, c, d) != 0x8000_0000,
    ensures
        tag_value(a, b, c, d) < 0x8000_0000 ==> r == -tag_value(a, b, c, d),
        tag_value(a, b, c, d) > 0x8000_0000 ==> r == 0x1_0000_0000 - tag_value(a, b, c, d),
{
    let (a32, b32, c32, d32) = (a as u32, b as u32, c as u32, d as u32);
    let tag: u32 = a32 | (b32 << 8u32) | (c32 << 16u32) | (d32 << 24u32);
    assert(tag == a32 + 0x100 * b32 + 0x1_0000 * c32 + 0x100_0000 * d32) by (bit_vector)
        requires
            a32 < 0x100,
            b32 < 0x100,
            c32 < 0x100,
            d32 < 0x100,
            tag == a32 | (b32 << 8u32) | (c32 << 16u32) | (d32 << 24u32),
    ;
    // The tag read as a signed number, negated.
    if tag < 0x8000_0000u32 {
        -(tag as i32)
    } else {
        (0x1_0000_0000u64 - tag as u64) as i32
    }
}

/// The error code for a POSIX error number: its negation.
pub fn averror(e: i32) -> (r: i32)
    requires
        e != i32::MIN,
    ensures
        r == -e,
{
    -e
}

} // verus!
