use ffmpeg_nd::{
    AVERROR_EAGAIN, AVERROR_EOF, Drain, EncodedPacket, Error, INPUT_CAPACITY, MuxAction, Muxer,
    PacketIterator, PixelFormat, Poll, Rational, Stage, StreamBinding, Submit, expected_len,
};
use std::collections::VecDeque;

/// A stand-in for an encoder: one packet per frame, held back until
/// `delay` further frames have come in or the input has ended.
struct FakeCodec {
    held: VecDeque<u32>,
    delay: usize,
    flushing: bool,
    handed_out: usize,
    fail_on: Option<usize>,
}

impl FakeCodec {
    fn new(delay: usize) -> Self {
        FakeCodec { held: VecDeque::new(), delay, flushing: false, handed_out: 0, fail_on: None }
    }

    fn send_frame(&mut self, pts: u32) -> Result<(), i32> {
        self.held.push_back(pts);
        Ok(())
    }

    fn send_eof(&mut self) -> Result<(), i32> {
        self.flushing = true;
        Ok(())
    }

    fn receive(&mut self) -> Result<EncodedPacket, i32> {
        if self.held.len() > self.delay || (self.flushing && !self.held.is_empty()) {
            self.handed_out += 1;
            if self.fail_on == Some(self.handed_out) {
                return Err(-22);
            }
            let pts = self.held.pop_front().unwrap();
            Ok(EncodedPacket::new(pts as i64, vec![pts as u8]))
        } else if self.flushing {
            Err(AVERROR_EOF)
        } else {
            Err(AVERROR_EAGAIN)
        }
    }
}

struct Source {
    pipeline: PacketIterator,
    input: VecDeque<Option<Vec<u8>>>,
    codec: FakeCodec,
}

impl Source {
    fn new(width: u16, height: u16, format: PixelFormat, time_base: Rational, frames: usize, delay: usize) -> Self {
        let len = expected_len(format, width, height).unwrap();
        let mut input = VecDeque::new();
        for i in 0..frames {
            input.push_back(Some(vec![(i % 200) as u8; len]));
        }
        input.push_back(None);
        Source {
            pipeline: PacketIterator::new(width, height, format, time_base),
            input,
            codec: FakeCodec::new(delay),
        }
    }

    /// One item of the pipeline's packet sequence.
    fn pull(&mut self) -> Option<Result<EncodedPacket, Error>> {
        loop {
            match self.pipeline.poll() {
                Poll::Packet(p) => return Some(Ok(p)),
                Poll::End => return None,
                Poll::NeedInput => {
                    let item = if self.pipeline.is_input_ended() {
                        None
                    } else {
                        self.input.pop_front().flatten()
                    };
                    let status = match self.pipeline.on_input(item) {
                        Submit::Frame => self.codec.send_frame(self.pipeline.frame().pts),
                        Submit::EndOfInput => self.codec.send_eof(),
                        Submit::Nothing => Ok(()),
                    };
                    let mut step = self.pipeline.on_submitted(status);
                    loop {
                        match step {
                            Drain::Receive => step = self.pipeline.on_received(self.codec.receive()),
                            Drain::Stop => break,
                            Drain::Fail(e) => return Some(Err(e)),
                        }
                    }
                }
            }
        }
    }
}

#[derive(Debug)]
enum Written {
    Header,
    Packet(i64, u8),
    Trailer,
}

fn run(muxer: &mut Muxer, sources: &mut [Source], out: &mut Vec<Written>) -> Result<(), Error> {
    loop {
        match muxer.next_action() {
            MuxAction::WriteHeader => {
                out.push(Written::Header);
                muxer.on_written(Ok(()))?;
            }
            MuxAction::Pull(i) => {
                let item = sources[i].pull();
                muxer.on_pulled(i, item)?;
            }
            MuxAction::Write(p) => {
                out.push(Written::Packet(p.pts, p.stream_index));
                muxer.on_written(Ok(()))?;
            }
            MuxAction::WriteTrailer => {
                out.push(Written::Trailer);
                muxer.on_written(Ok(()))?;
            }
            MuxAction::Done => return Ok(()),
            MuxAction::Fail(e) => return Err(e),
        }
    }
}

fn two_streams(a_frames: usize, b_frames: usize) -> (Muxer, Vec<Source>, [Rational; 2]) {
    let a_tb = Rational::new(1, 24);
    let b_tb = Rational::new(1, 30);
    let out_tb = [Rational::new(1, 12288), Rational::new(1, 15360)];
    let sources = vec![
        Source::new(16, 8, PixelFormat::YUV420P, a_tb, a_frames, 2),
        Source::new(16, 8, PixelFormat::YUV444P, b_tb, b_frames, 1),
    ];
    let muxer = Muxer::new(vec![
        StreamBinding { stream_index: 0, stream_time_base: out_tb[0], codec_time_base: a_tb },
        StreamBinding { stream_index: 1, stream_time_base: out_tb[1], codec_time_base: b_tb },
    ]);
    (muxer, sources, out_tb)
}

fn not_later(a: i64, ta: Rational, b: i64, tb: Rational) -> bool {
    (a as i128) * (ta.num as i128) * (tb.den as i128) <= (b as i128) * (tb.num as i128) * (ta.den as i128)
}

#[test]
fn pipeline_stamps_frames_and_keeps_codec_order() {
    let mut source = Source::new(8, 8, PixelFormat::RGB24, Rational::new(1, 25), 10, 3);
    let mut seen = Vec::new();
    while let Some(item) = source.pull() {
        seen.push(item.unwrap().pts);
    }
    assert_eq!(seen, (0..10).collect::<Vec<i64>>());
    assert_eq!(source.pipeline.next_pts(), 10);
    assert!(source.pipeline.is_finished());
    assert!(source.pull().is_none());
    assert!(matches!(source.pipeline.poll(), Poll::End));
}

#[test]
fn end_of_input_drains_held_packets_first() {
    // The codec holds back five packets; all come out after the end marker.
    let mut source = Source::new(4, 4, PixelFormat::YUV444P, Rational::new(1, 30), 3, 5);
    let mut seen = Vec::new();
    while let Some(item) = source.pull() {
        seen.push(item.unwrap().pts);
    }
    assert_eq!(seen, vec![0, 1, 2]);
    assert!(source.input.is_empty());
}

#[test]
fn closed_input_counts_as_end() {
    let mut source = Source::new(4, 4, PixelFormat::YUV444P, Rational::new(1, 30), 2, 0);
    source.input.pop_back();
    let mut seen = Vec::new();
    while let Some(item) = source.pull() {
        seen.push(item.unwrap().pts);
    }
    assert_eq!(seen, vec![0, 1]);
}

#[test]
fn codec_failure_ends_the_sequence() {
    let mut pipeline = PacketIterator::new(2, 2, PixelFormat::RGB24, Rational::new(1, 30));
    assert!(matches!(pipeline.poll(), Poll::NeedInput));
    assert!(matches!(pipeline.on_input(Some(vec![0; 12])), Submit::Frame));
    assert_eq!(pipeline.next_pts(), 1);
    assert!(matches!(pipeline.on_submitted(Err(AVERROR_EAGAIN)), Drain::Receive));
    assert!(matches!(pipeline.on_received(Ok(EncodedPacket::new(0, vec![]))), Drain::Receive));
    match pipeline.on_received(Err(-5)) {
        Drain::Fail(Error::Code(c)) => assert_eq!(c, -5),
        _ => panic!("expected a failure"),
    }
    assert!(matches!(pipeline.poll(), Poll::End));
    let mut other = PacketIterator::new(2, 2, PixelFormat::RGB24, Rational::new(1, 30));
    match other.on_submitted(Err(-1)) {
        Drain::Fail(Error::Code(c)) => assert_eq!(c, -1),
        _ => panic!("expected a failure"),
    }
    assert!(other.is_finished());
}

#[test]
fn merge_is_in_time_order_and_stamped() {
    let (mut muxer, mut sources, out_tb) = two_streams(7, 9);
    let mut out = Vec::new();
    run(&mut muxer, &mut sources, &mut out).unwrap();
    let packets: Vec<(i64, u8)> = out
        .iter()
        .filter_map(|w| match w {
            Written::Packet(pts, s) => Some((*pts, *s)),
            _ => None,
        })
        .collect();
    assert_eq!(packets.len(), 16);
    for pair in packets.windows(2) {
        let (a, sa) = pair[0];
        let (b, sb) = pair[1];
        assert!(not_later(a, out_tb[sa as usize], b, out_tb[sb as usize]));
    }
    // 0 s ties go to the stream listed first; then 1/30 s comes before 1/24 s.
    assert_eq!(packets[0], (0, 0));
    assert_eq!(packets[1], (0, 1));
    assert_eq!(packets[2], (512, 1));
    assert_eq!(packets[3], (512, 0));
}

#[test]
fn two_streams_of_two_seconds() {
    let (mut muxer, mut sources, out_tb) = two_streams(48, 60);
    let mut out = Vec::new();
    run(&mut muxer, &mut sources, &mut out).unwrap();
    assert!(matches!(out.first(), Some(Written::Header)));
    assert!(matches!(out.last(), Some(Written::Trailer)));
    let headers = out.iter().filter(|w| matches!(w, Written::Header)).count();
    let trailers = out.iter().filter(|w| matches!(w, Written::Trailer)).count();
    assert_eq!((headers, trailers), (1, 1));
    let mut last: [Option<i64>; 2] = [None, None];
    let mut count = [0usize; 2];
    for w in &out {
        if let Written::Packet(pts, s) = w {
            let s = *s as usize;
            let o = 1 - s;
            // Nothing written so far from the other stream is later than this packet.
            if let Some(prev) = last[o] {
                assert!(not_later(prev, out_tb[o], *pts, out_tb[s]));
            }
            last[s] = Some(*pts);
            count[s] += 1;
        }
    }
    assert_eq!(count, [48, 60]);
    assert_eq!(count[0] + count[1], 108);
    assert_eq!(muxer.stage(), Stage::Finished);
    assert!(matches!(muxer.next_action(), MuxAction::Done));
    assert!(matches!(muxer.next_action(), MuxAction::Done));
}

#[test]
fn fatal_codec_error_stops_the_mux() {
    let (mut muxer, mut sources, _) = two_streams(48, 60);
    sources[0].codec.fail_on = Some(10);
    let mut out = Vec::new();
    match run(&mut muxer, &mut sources, &mut out) {
        Err(Error::Code(c)) => assert_eq!(c, -22),
        other => panic!("expected the codec's error, got {:?}", other),
    }
    let from_a = out.iter().filter(|w| matches!(w, Written::Packet(_, 0))).count();
    let from_b = out.iter().filter(|w| matches!(w, Written::Packet(_, 1))).count();
    assert_eq!(from_a, 9);
    assert!(from_b > 0);
    assert!(!out.iter().any(|w| matches!(w, Written::Trailer)));
    assert_eq!(muxer.stage(), Stage::Failed);
    assert!(matches!(muxer.next_action(), MuxAction::Done));
}

#[test]
fn container_failure_stops_the_mux() {
    let (mut muxer, _, _) = two_streams(1, 1);
    assert!(matches!(muxer.next_action(), MuxAction::WriteHeader));
    match muxer.on_written(Err(-5)) {
        Err(Error::Code(c)) => assert_eq!(c, -5),
        _ => panic!("expected the container's error"),
    }
    assert!(matches!(muxer.next_action(), MuxAction::Done));
}

#[test]
fn empty_mux_writes_header_and_trailer() {
    let mut muxer = Muxer::new(Vec::new());
    let mut out = Vec::new();
    run(&mut muxer, &mut [], &mut out).unwrap();
    assert_eq!(out.len(), 2);
    assert!(matches!(out[0], Written::Header));
    assert!(matches!(out[1], Written::Trailer));
}

#[test]
fn pulls_go_only_to_waiting_pipelines() {
    let mut muxer = Muxer::new(vec![StreamBinding {
        stream_index: 0,
        stream_time_base: Rational::new(1, 90000),
        codec_time_base: Rational::new(1, 30),
    }]);
    assert!(!muxer.awaits_pull(0));
    assert!(matches!(muxer.next_action(), MuxAction::WriteHeader));
    assert!(matches!(muxer.next_action(), MuxAction::Pull(0)));
    assert!(muxer.awaits_pull(0));
    assert!(!muxer.awaits_pull(1));
    muxer.on_pulled(0, Some(Ok(EncodedPacket::new(3, vec![9])))).unwrap();
    assert!(!muxer.awaits_pull(0));
    match muxer.next_action() {
        MuxAction::Write(p) => {
            assert_eq!(p.pts, 9000);
            assert_eq!(p.stream_index, 0);
            assert_eq!(p.data, vec![9]);
        }
        _ => panic!("expected a write"),
    }
    muxer.on_pulled(0, None).unwrap();
    assert!(matches!(muxer.next_action(), MuxAction::WriteTrailer));
    assert_eq!(muxer.stream_count(), 1);
}

#[test]
fn input_channel_applies_backpressure() {
    let (tx, rx) = kanal::bounded::<Option<Vec<u8>>>(INPUT_CAPACITY);
    for i in 0..INPUT_CAPACITY {
        assert!(tx.try_send(Some(vec![i as u8])).unwrap());
    }
    // A full channel refuses more until the consumer takes one.
    let mut extra = Some(Some(vec![99u8]));
    assert!(!tx.try_send_option(&mut extra).unwrap());
    assert!(extra.is_some());
    assert_eq!(rx.recv().unwrap(), Some(vec![0u8]));
    assert!(tx.try_send_option(&mut extra).unwrap());
    let mut rest = Vec::new();
    while let Ok(Some(item)) = rx.try_recv() {
        rest.push(item.unwrap()[0]);
    }
    assert_eq!(rest, vec![1, 2, 3, 4, 5, 6, 7, 99]);
}

#[test]
fn end_of_input_is_submitted_once() {
    let mut pipeline = PacketIterator::new(2, 2, PixelFormat::RGB24, Rational::new(1, 30));
    assert!(!pipeline.is_input_ended());
    assert!(matches!(pipeline.on_input(None), Submit::EndOfInput));
    assert!(pipeline.is_input_ended());
    assert!(matches!(pipeline.on_input(None), Submit::Nothing));
    assert!(matches!(pipeline.on_submitted(Ok(())), Drain::Receive));
    assert!(matches!(pipeline.on_received(Err(AVERROR_EOF)), Drain::Stop));
    assert!(matches!(pipeline.poll(), Poll::End));
    assert_eq!(pipeline.next_pts(), 0);
}
