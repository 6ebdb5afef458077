use crate::error::{AVERROR_EAGAIN, AVERROR_EOF, Error};
use crate::frame::{Frame, FrameData, frame_len};
use crate::packet::EncodedPacket;
use crate::queue::{PacketQueue, queued};
use crate::rational::Rational;
use crate::video_config::{PixelFormat, VideoConfig};
use vstd::prelude::*;

verus! {

/// How many raw frame buffers a pipeline's input channel holds before a
/// producer's send blocks.
pub const INPUT_CAPACITY: usize = 8;

/// What a pull on the pipeline's packet sequence comes to.
pub enum Poll {
    /// The next packet, in the order the codec produced it.
    Packet(EncodedPacket),
    /// The sequence is over, for good.
    End,
    /// Nothing is queued: receive one item from the input channel and hand
    /// it to `on_input`.
    NeedInput,
}

/// What to submit to the codec after an input item.
pub enum Submit {
    /// The pipeline's frame, just packed and stamped.
    Frame,
    /// The end-of-input marker that flushes the codec.
    EndOfInput,
    /// End of input was submitted before: submit nothing, go on draining.
    Nothing,
}

/// What to do after a codec call in the drain cycle.
pub enum Drain {
    /// Ask the codec for one more packet and hand the outcome to `on_received`.
    Receive,
    /// Stop draining and pull again.
    Stop,
    /// The codec failed; the sequence ends with this error.
    Fail(Error),
}

/// The codec's non-fatal signals: "needs more input" and "end of stream".
pub open spec fn is_codec_signal(code: i32) -> bool {
    code == AVERROR_EAGAIN || code == AVERROR_EOF
}

/// Timestamps that never decrease along the sequence.
pub open spec fn non_decreasing(s: Seq<EncodedPacket>) -> bool {
    forall|i: int, j: int| 0 <= i <= j < s.len() ==> s[i].pts <= s[j].pts
}

/// One encoding stream: raw frame buffers go in, are packed into the
/// codec's frame and submitted; the codec's packets are queued and come out
/// one per pull, in the order the codec produced them.
pub struct PacketIterator {
    width: u16,
    height: u16,
    format: PixelFormat,
    time_base: Rational,
    frame: Frame,
    queue: PacketQueue,
    eof: bool,
    flushed: bool,
    done: bool,
    pts: u32,
    received: Ghost<Seq<EncodedPacket>>,
    emitted: Ghost<Seq<EncodedPacket>>,
    stamps: Ghost<Seq<u32>>,
}

impl PacketIterator {
    /// Packets queued and not yet handed out, oldest first.
    pub closed spec fn pending(&self) -> Seq<EncodedPacket> {
        queued(self.queue)
    }

    /// Every packet the codec has produced, in order.
    pub closed spec fn received(&self) -> Seq<EncodedPacket> {
        self.received@
    }

    /// Every packet handed out, in order.
    pub closed spec fn emitted(&self) -> Seq<EncodedPacket> {
        self.emitted@
    }

    /// The timestamp given to each submitted frame, in order.
    pub closed spec fn stamps(&self) -> Seq<u32> {
        self.stamps@
    }

    pub closed spec fn counter(&self) -> u32 {
        self.pts
    }

    /// The codec has reported end of stream.
    pub closed spec fn codec_ended(&self) -> bool {
        self.eof
    }

    /// The end-of-input marker has been submitted to the codec.
    pub closed spec fn input_ended(&self) -> bool {
        self.flushed
    }

    /// What no step changes: the pixel format, the time base, the size of an
    /// input buffer, and the frame's size and format, with its planes
    /// allocated for them.
    pub open spec fn keeps_setup(&self, before: &PacketIterator) -> bool {
        &&& self.format_spec() == before.format_spec()
        &&& self.time_base_spec() == before.time_base_spec()
        &&& self.input_len_spec() == before.input_len_spec()
        &&& self.frame_spec().width == before.frame_spec().width
        &&& self.frame_spec().height == before.frame_spec().height
        &&& self.frame_spec().format == before.frame_spec().format
        &&& self.frame_spec().wf()
    }

    /// The sequence is over: exhausted, or ended by an error.
    pub closed spec fn finished(&self) -> bool {
        self.done
    }

    pub closed spec fn frame_spec(&self) -> Frame {
        self.frame
    }

    pub closed spec fn format_spec(&self) -> PixelFormat {
        self.format
    }

    pub closed spec fn time_base_spec(&self) -> Rational {
        self.time_base
    }

    /// Bytes in one input buffer.
    pub closed spec fn input_len_spec(&self) -> nat {
        frame_len(self.format, self.width as nat * self.height as nat)
    }

    pub closed spec fn wf(&self) -> bool {
        &&& self.frame.wf()
        &&& self.frame.width == self.width
        &&& self.frame.height == self.height
        &&& self.frame.format == self.format
        &&& self.input_len_spec() <= usize::MAX
        &&& self.emitted@ + queued(self.queue) == self.received@
        &&& self.stamps@.len() == self.pts
        &&& forall|i: int| 0 <= i < self.stamps@.len() ==> self.stamps@[i] == i
    }

    /// A pipeline for frames of `width` x `height` pixels in `format`, whose
    /// codec counts time in `time_base`.
    pub fn new(width: u16, height: u16, format: PixelFormat, time_base: Rational) -> (r: PacketIterator)
        requires
            frame_len(format, width as nat * height as nat) <= usize::MAX,
        ensures
            r.wf(),
            r.pending().len() == 0,
            r.received().len() == 0,
            r.emitted().len() == 0,
            r.stamps().len() == 0,
            r.counter() == 0,
            !r.codec_ended(),
            !r.finished(),
            !r.input_ended(),
            r.format_spec() == format,
            r.time_base_spec() == time_base,
            r.frame_spec().width == width,
            r.frame_spec().height == height,
            r.frame_spec().format == format,
            r.frame_spec().pts == 0,
            r.frame_spec().wf(),
            r.input_len_spec() == frame_len(format, width as nat * height as nat),
    {
        PacketIterator {
            width,
            height,
            format,
            time_base,
            frame: Frame::new(width, height, format),
            queue: PacketQueue::new(),
            eof: false,
            flushed: false,
            done: false,
            pts: 0,
            received: Ghost(Seq::empty()),
            emitted: Ghost(Seq::empty()),
            stamps: Ghost(Seq::empty()),
        }
    }

    /// A pipeline for an encoder configured by `config`: its size and pixel
    /// format, and one tick per frame.
    pub fn from_config(config: &VideoConfig) -> (r: PacketIterator)
        requires
            frame_len(config.pixel_format, config.resolution.pixels()) <= usize::MAX,
        ensures
            r.wf(),
            r.pending().len() == 0,
            r.received().len() == 0,
            r.emitted().len() == 0,
            r.stamps().len() == 0,
            r.counter() == 0,
            !r.codec_ended(),
            !r.finished(),
            !r.input_ended(),
            r.format_spec() == config.pixel_format,
            r.time_base_spec() == (Rational { num: 1, den: config.framerate.0 as u32 }),
            r.frame_spec().width == config.resolution.width,
            r.frame_spec().height == config.resolution.height,
            r.frame_spec().format == config.pixel_format,
            r.frame_spec().pts == 0,
            r.frame_spec().wf(),
            r.input_len_spec() == frame_len(config.pixel_format, config.resolution.pixels()),
    {
        PacketIterator::new(
            config.resolution.width,
            config.resolution.height,
            config.pixel_format,
            config.framerate.into_timebase().to_rational(),
        )
    }

    /// The timestamp the next submitted frame gets.
    pub fn next_pts(&self) -> (r: u32)
        ensures
            r == self.counter(),
    {
        self.pts
    }

    /// The time base of the codec's timestamps.
    pub fn time_base(&self) -> (r: Rational)
        ensures
            r == self.time_base_spec(),
    {
        self.time_base
    }

    pub fn format(&self) -> (r: PixelFormat)
        ensures
            r == self.format_spec(),
    {
        self.format
    }

    /// The frame to submit after `on_input` returned `Submit::Frame`.
    pub fn frame(&self) -> (r: &Frame)
        ensures
            *r == self.frame_spec(),
    {
        &self.frame
    }

    /// The number of bytes every input buffer must hold.
    pub fn input_len(&self) -> (r: usize)
        requires
            self.wf(),
        ensures
            r == self.input_len_spec(),
    {
        let pixels = self.frame.pixel_count();
        match self.format {
            PixelFormat::RGB24 => 3 * pixels,
            PixelFormat::YUV420P => pixels + 2 * (pixels / 4),
            PixelFormat::YUV444P => 3 * pixels,
        }
    }

    pub fn is_input_ended(&self) -> (r: bool)
        ensures
            r == self.input_ended(),
    {
        self.flushed
    }

    pub fn is_finished(&self) -> (r: bool)
        ensures
            r == self.finished(),
    {
        self.done
    }

    /// One pull on the packet sequence. Once the sequence is over it stays
    /// over; otherwise the oldest queued packet comes out; with nothing
    /// queued, the sequence ends if the codec has reported end of stream,
    /// and asks for input if not.
    pub fn poll(&mut self) -> (r: Poll)
        requires
            old(self).wf(),
        ensures
            final(self).wf(),
            final(self).keeps_setup(old(self)),
            final(self).input_ended() == old(self).input_ended(),
            final(self).received() == old(self).received(),
            final(self).stamps() == old(self).stamps(),
            final(self).counter() == old(self).counter(),
            final(self).codec_ended() == old(self).codec_ended(),
            final(self).frame_spec() == old(self).frame_spec(),
            old(self).finished() ==> r is End && *final(self) == *old(self),
            !old(self).finished() && old(self).pending().len() > 0 ==> {
                &&& r == Poll::Packet(old(self).pending()[0])
                &&& final(self).pending() == old(self).pending().drop_first()
                &&& final(self).emitted() == old(self).emitted().push(old(self).pending()[0])
                &&& !final(self).finished()
            },
            !old(self).finished() && old(self).pending().len() == 0 && old(self).codec_ended() ==> {
                &&& r is End
                &&& final(self).finished()
                &&& final(self).pending() == old(self).pending()
                &&& final(self).emitted() == old(self).emitted()
            },
            !old(self).finished() && old(self).pending().len() == 0 && !old(self).codec_ended() ==> {
                &&& r is NeedInput
                &&& final(self).pending() == old(self).pending()
                &&& final(self).emitted() == old(self).emitted()
                &&& !final(self).finished()
            },
            r is End ==> final(self).finished(),
            r is End && !old(self).finished() ==> old(self).pending().len() == 0 && old(
                self,
            ).codec_ended() && final(self).emitted() == final(self).received(),
    {
        if self.done {
            return Poll::End;
        }
        let ghost before = queued(self.queue);
        match self.queue.pop() {
            Some(packet) => {
                proof {
                    self.emitted@ = self.emitted@.push(packet);
                    assert(self.emitted@ + queued(self.queue) =~= self.received@) by {
                        assert(before =~= seq![packet] + before.drop_first());
                    }
                }
                Poll::Packet(packet)
            },
            None => {
                if self.eof {
                    self.done = true;
                    Poll::End
                } else {
                    Poll::NeedInput
                }
            },
        }
    }

    /// Takes one item from the input channel (`None` once the producer has
    /// signalled the end, or the channel is closed). A buffer is packed into
    /// the frame, which is stamped with the counter; the counter advances.
    /// The first `None` marks the input as ended and flushes the codec; no
    /// buffer is taken after it.
    pub fn on_input(&mut self, input: Option<Vec<u8>>) -> (r: Submit)
        requires
            old(self).wf(),
            input matches Some(data) ==> data@.len() == old(self).input_len_spec() && old(self).counter()
                < u32::MAX && !old(self).input_ended(),
        ensures
            final(self).wf(),
            final(self).keeps_setup(old(self)),
            final(self).pending() == old(self).pending(),
            final(self).received() == old(self).received(),
            final(self).emitted() == old(self).emitted(),
            final(self).codec_ended() == old(self).codec_ended(),
            final(self).finished() == old(self).finished(),
            match input {
                Some(data) => {
                    &&& r is Frame
                    &&& final(self).frame_spec().packed() == data@
                    &&& final(self).frame_spec().pts == old(self).counter()
                    &&& final(self).counter() == old(self).counter() + 1
                    &&& final(self).stamps() == old(self).stamps().push(old(self).counter())
                    &&& !final(self).input_ended()
                },
                None => {
                    &&& final(self).input_ended()
                    &&& final(self).frame_spec() == old(self).frame_spec()
                    &&& final(self).counter() == old(self).counter()
                    &&& final(self).stamps() == old(self).stamps()
                    &&& !old(self).input_ended() ==> r is EndOfInput
                    &&& old(self).input_ended() ==> r is Nothing
                },
            },
    {
        match input {
            None => {
                if self.flushed {
                    Submit::Nothing
                } else {
                    self.flushed = true;
                    Submit::EndOfInput
                }
            },
            Some(data) => {
                let ghost stamp = self.pts;
                let frame_data = FrameData::new(self.format, data);
                frame_data.set_to_frame(&mut self.frame, &mut self.pts);
                proof {
                    self.stamps@ = self.stamps@.push(stamp);
                }
                Submit::Frame
            },
        }
    }

    /// Takes the codec's answer to a submission. "Needs more input" and
    /// "end of stream" are no failures; draining follows either way.
    pub fn on_submitted(&mut self, status: Result<(), i32>) -> (r: Drain)
        requires
            old(self).wf(),
        ensures
            final(self).wf(),
            final(self).keeps_setup(old(self)),
            final(self).input_ended() == old(self).input_ended(),
            final(self).pending() == old(self).pending(),
            final(self).received() == old(self).received(),
            final(self).emitted() == old(self).emitted(),
            final(self).stamps() == old(self).stamps(),
            final(self).counter() == old(self).counter(),
            final(self).codec_ended() == old(self).codec_ended(),
            match status {
                Err(code) if !is_codec_signal(code) => {
                    &&& r == Drain::Fail(Error::Code(code))
                    &&& final(self).finished()
                },
                _ => r is Receive && final(self).finished() == old(self).finished(),
            },
    {
        match status {
            Err(code) => {
                if code == AVERROR_EAGAIN || code == AVERROR_EOF {
                    Drain::Receive
                } else {
                    self.done = true;
                    Drain::Fail(Error::Code(code))
                }
            },
            Ok(()) => Drain::Receive,
        }
    }

    /// Takes the codec's answer to a request for a packet. A packet is
    /// queued and draining goes on; "needs more input" stops draining; "end
    /// of stream" stops it and marks the codec as ended; any other code
    /// ends the sequence with an error.
    pub fn on_received(&mut self, result: Result<EncodedPacket, i32>) -> (r: Drain)
        requires
            old(self).wf(),
        ensures
            final(self).wf(),
            final(self).keeps_setup(old(self)),
            final(self).input_ended() == old(self).input_ended(),
            final(self).emitted() == old(self).emitted(),
            final(self).stamps() == old(self).stamps(),
            final(self).counter() == old(self).counter(),
            final(self).frame_spec() == old(self).frame_spec(),
            match result {
                Ok(packet) => if old(self).pending().len() < usize::MAX {
                    &&& r is Receive
                    &&& final(self).pending() == old(self).pending().push(packet)
                    &&& final(self).received() == old(self).received().push(packet)
                    &&& final(self).codec_ended() == old(self).codec_ended()
                    &&& final(self).finished() == old(self).finished()
                } else {
                    r is Fail && final(self).finished() && final(self).pending() == old(
                        self,
                    ).pending()
                },
                Err(code) => {
                    &&& final(self).pending() == old(self).pending()
                    &&& final(self).received() == old(self).received()
                    &&& code == AVERROR_EAGAIN ==> r is Stop && *final(self) == *old(self)
                    &&& code == AVERROR_EOF ==> r is Stop && final(self).codec_ended()
                        && final(self).finished() == old(self).finished()
                    &&& !is_codec_signal(code) ==> r == Drain::Fail(Error::Code(code))
                        && final(self).finished() && final(self).codec_ended()
                        == old(self).codec_ended()
                },
            },
    {
        match result {
            Ok(packet) => {
                if self.queue.len() == usize::MAX {
                    self.done = true;
                    return Drain::Fail(Error::Message(String::from_str("packet queue is full")));
                }
                proof {
                    self.received@ = self.received@.push(packet);
                }
                let ghost before = queued(self.queue);
                self.queue.push(packet);
                assert(self.emitted@ + queued(self.queue) =~= self.received@) by {
                    assert(self.emitted@ + before =~= old(self).received@);
                }
                Drain::Receive
            },
            Err(code) => {
                if code == AVERROR_EAGAIN {
                    Drain::Stop
                } else if code == AVERROR_EOF {
                    self.eof = true;
                    Drain::Stop
                } else {
                    self.done = true;
                    Drain::Fail(Error::Code(code))
                }
            },
        }
    }
}

/// Packets leave a pipeline in exactly the order the codec produced them:
/// those handed out, followed by those still queued, are everything the codec
/// has produced.
pub proof fn lemma_codec_order_kept(p: &PacketIterator)
    requires
        p.wf(),
    ensures
        p.emitted() + p.pending() == p.received(),
        p.emitted().len() <= p.received().len(),
        forall|i: int| 0 <= i < p.emitted().len() ==> p.emitted()[i] == p.received()[i],
{
    assert forall|i: int| 0 <= i < p.emitted().len() implies p.emitted()[i] == p.received()[i] by {
        assert((p.emitted() + p.pending())[i] == p.emitted()[i]);
    }
}

/// Where the codec's timestamps never decrease, the timestamps of the
/// packets a pipeline hands out never decrease either.
pub proof fn lemma_emitted_timestamps_non_decreasing(p: &PacketIterator)
    requires
        p.wf(),
        non_decreasing(p.received()),
    ensures
        non_decreasing(p.emitted()),
{
    lemma_codec_order_kept(p);
}

/// Submitted frames are stamped 0, 1, 2, ... in turn, and the counter is
/// the number of frames submitted so far.
pub proof fn lemma_frame_stamps_count_from_zero(p: &PacketIterator)
    requires
        p.wf(),
    ensures
        forall|i: int| 0 <= i < p.stamps().len() ==> p.stamps()[i] == i,
        p.counter() == p.stamps().len(),
{
}

} // verus!
