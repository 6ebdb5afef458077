use ffmpeg_nd::{Frame, FrameData, PixelFormat, expected_len};

fn pattern(n: usize) -> Vec<u8> {
    (0..n).map(|i| (i * 7 % 251) as u8).collect()
}

#[test]
fn expected_lengths() {
    assert_eq!(expected_len(PixelFormat::RGB24, 4, 2), Some(24));
    assert_eq!(expected_len(PixelFormat::YUV444P, 4, 2), Some(24));
    assert_eq!(expected_len(PixelFormat::YUV420P, 4, 2), Some(12));
    assert_eq!(expected_len(PixelFormat::YUV420P, 320, 240), Some(115200));
    assert_eq!(expected_len(PixelFormat::RGB24, 65535, 65535), Some(12884508675));
}

#[test]
fn pack_rgb24_into_one_plane() {
    let mut frame = Frame::new(4, 2, PixelFormat::RGB24);
    let data = pattern(24);
    let mut pts = 0u32;
    FrameData::new(PixelFormat::RGB24, data.clone()).set_to_frame(&mut frame, &mut pts);
    assert_eq!(frame.plane0, data);
    assert!(frame.plane1.is_empty());
    assert!(frame.plane2.is_empty());
    assert_eq!(frame.pts, 0);
    assert_eq!(pts, 1);
}

#[test]
fn pack_yuv420p_into_quarter_chroma_planes() {
    let mut frame = Frame::new(4, 4, PixelFormat::YUV420P);
    let data = pattern(24);
    let mut pts = 5u32;
    FrameData::YUV420P(data.clone()).set_to_frame(&mut frame, &mut pts);
    assert_eq!(frame.plane0, data[0..16].to_vec());
    assert_eq!(frame.plane1, data[16..20].to_vec());
    assert_eq!(frame.plane2, data[20..24].to_vec());
    assert_eq!(frame.pts, 5);
    assert_eq!(pts, 6);
}

#[test]
fn pack_yuv444p_into_three_equal_planes() {
    let mut frame = Frame::new(3, 2, PixelFormat::YUV444P);
    let data = pattern(18);
    let mut pts = 0u32;
    let packed = FrameData::new(PixelFormat::YUV444P, data.clone());
    assert_eq!(packed.format(), PixelFormat::YUV444P);
    packed.set_to_frame(&mut frame, &mut pts);
    packed.set_to_frame(&mut frame, &mut pts);
    assert_eq!(frame.plane0, data[0..6].to_vec());
    assert_eq!(frame.plane1, data[6..12].to_vec());
    assert_eq!(frame.plane2, data[12..18].to_vec());
    assert_eq!(frame.pts, 1);
    assert_eq!(pts, 2);
    assert_eq!(frame.pixel_count(), 6);
}
