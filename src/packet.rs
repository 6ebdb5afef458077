use crate::error::Error;
use crate::rational::{Rational, rescale_ts, rescaled};
use vstd::prelude::*;

verus! {

/// One compressed unit from the encoder: its presentation timestamp, the
/// output stream it is bound for, and its bytes.
pub struct EncodedPacket {
    pub pts: i64,
    pub stream_index: u8,
    pub data: Vec<u8>,
}

impl EncodedPacket {
    /// A packet with timestamp `pts`, not yet bound to a stream (index 0).
    pub fn new(pts: i64, data: Vec<u8>) -> (r: EncodedPacket)
        ensures
            r.pts == pts,
            r.stream_index == 0,
            r.data@ == data@,
    {
        EncodedPacket { pts, stream_index: 0, data }
    }

    pub fn set_stream_index(&mut self, index: u8)
        ensures
            final(self).pts == old(self).pts,
            final(self).data@ == old(self).data@,
            final(self).stream_index == index,
    {
        self.stream_index = index;
    }

    /// Converts the timestamp from `tb_src` ticks to `tb_dst` ticks, rounding
    /// to the nearest tick. Fails, and leaves the packet as it was, where the
    /// result does not fit in an `i64`.
    pub fn rescale_ts(&mut self, tb_src: Rational, tb_dst: Rational) -> (r: Result<(), Error>)
        requires
            tb_src.valid(),
            tb_dst.valid(),
        ensures
            final(self).stream_index == old(self).stream_index,
            final(self).data@ == old(self).data@,
            match r {
                Ok(()) => final(self).pts as int == rescaled(old(self).pts as int, tb_src, tb_dst),
                Err(_) => final(self).pts == old(self).pts && !(i64::MIN <= rescaled(
                    old(self).pts as int,
                    tb_src,
                    tb_dst,
                ) <= i64::MAX),
            },
    {
        match rescale_ts(self.pts, tb_src, tb_dst) {
            Some(v) => {
                self.pts = v;
                Ok(())
            },
            None => Err(Error::Message(String::from_str("rescaled timestamp out of range"))),
        }
    }
}

} // verus!
