use ffmpeg_nd::{
    AVERROR_EAGAIN, AVERROR_EOF, EAGAIN, EncodedPacket, Error, Rational, averror, compare_ts,
    fferrtag, output_url, rescale_ts,
};
use std::cmp::Ordering;

#[test]
fn error_codes() {
    assert_eq!(fferrtag(b'E', b'O', b'F', b' '), AVERROR_EOF);
    assert_eq!(AVERROR_EOF, -541478725);
    assert_eq!(averror(EAGAIN), AVERROR_EAGAIN);
    assert_eq!(averror(EAGAIN), -11);
    assert_eq!(fferrtag(0xff, 0xff, 0xff, 0xff), 1);
    assert!(Error::Code(AVERROR_EAGAIN).is_eagain());
    assert!(!Error::Code(AVERROR_EAGAIN).is_eof());
    assert!(Error::Code(AVERROR_EOF).is_eof());
    assert!(!Error::Message(String::from("x")).is_eof());
}

#[test]
fn compare_across_time_bases() {
    let tb24 = Rational::new(1, 24);
    let tb30 = Rational::new(1, 30);
    // 1 s in each base.
    assert_eq!(compare_ts(24, tb24, 30, tb30), Ordering::Equal);
    assert_eq!(compare_ts(23, tb24, 30, tb30), Ordering::Less);
    assert_eq!(compare_ts(25, tb24, 30, tb30), Ordering::Greater);
    // 4/24 s against 5/30 s: equal; 5/24 s against 6/30 s: later.
    assert_eq!(compare_ts(4, tb24, 5, tb30), Ordering::Equal);
    assert_eq!(compare_ts(5, tb24, 6, tb30), Ordering::Greater);
    assert_eq!(
        compare_ts(i64::MAX, Rational::new(u32::MAX, 1), i64::MIN, Rational::new(u32::MAX, 1)),
        Ordering::Greater
    );
}

#[test]
fn rescale_rounds_to_nearest() {
    let tb24 = Rational::new(1, 24);
    assert_eq!(rescale_ts(48, tb24, Rational::new(1, 90000)), Some(180000));
    assert_eq!(rescale_ts(1, Rational::new(1, 3), Rational::new(1, 2)), Some(1));
    assert_eq!(rescale_ts(1, Rational::new(1, 2), Rational::new(1, 1)), Some(1));
    assert_eq!(rescale_ts(-1, Rational::new(1, 2), Rational::new(1, 1)), Some(-1));
    assert_eq!(rescale_ts(1, Rational::new(1, 4), Rational::new(1, 1)), Some(0));
    assert_eq!(rescale_ts(i64::MAX, Rational::new(2, 1), Rational::new(1, 1)), None);
    assert_eq!(Rational::from_integer(7), Rational::new(7, 1));
    assert_eq!(Rational::from_pair([1, 30]), Rational::new(1, 30));
}

#[test]
fn packet_rescale_and_stamp() {
    let mut p = EncodedPacket::new(30, vec![1, 2, 3]);
    p.rescale_ts(Rational::new(1, 30), Rational::new(1, 15360)).unwrap();
    p.set_stream_index(3);
    assert_eq!(p.pts, 15360);
    assert_eq!(p.stream_index, 3);
    assert_eq!(p.data, vec![1, 2, 3]);
    let mut q = EncodedPacket::new(i64::MAX, vec![]);
    assert!(q.rescale_ts(Rational::new(2, 1), Rational::new(1, 1)).is_err());
    assert_eq!(q.pts, i64::MAX);
}

#[test]
fn output_address_is_checked() {
    assert_eq!(output_url("file:///tmp/out.mp4").unwrap(), "file:///tmp/out.mp4");
    assert_eq!(output_url("file:///tmp/a b.mp4").unwrap(), "file:///tmp/a%20b.mp4");
    assert!(output_url("not a url").is_err());
    assert!(output_url("").is_err());
}
