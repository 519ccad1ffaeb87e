use bytes::BytesMut;
use mt::codec::error::{FrameError, MAX_FRAME_PAYLOAD};
use mt::codec::frame::{decode, encode, magic, FrameCodec, HEADER_LEN};

#[test]
fn magic_is_94_c3() {
    assert_eq!(magic(), [0x94, 0xC3]);
    assert_eq!(HEADER_LEN, 4);
}

#[test]
fn encode_writes_header_and_payload() {
    let out = encode(&[1, 2, 3]).unwrap();
    assert_eq!(out, vec![0x94, 0xC3, 0x00, 0x03, 1, 2, 3]);
}

#[test]
fn encode_length_is_big_endian() {
    let payload = vec![7u8; 300];
    let out = encode(&payload).unwrap();
    assert_eq!(&out[..4], &[0x94, 0xC3, 0x01, 0x2C]);
    assert_eq!(out.len(), 304);
}

#[test]
fn encode_refuses_oversized_payload() {
    let payload = vec![0u8; MAX_FRAME_PAYLOAD + 1];
    match encode(&payload) {
        Err(FrameError::TooLarge(n)) => assert_eq!(n, 513),
        other => panic!("unexpected {other:?}"),
    }
    assert!(encode(&vec![0u8; MAX_FRAME_PAYLOAD]).is_ok());
}

#[test]
fn decode_reads_back_what_encode_wrote() {
    let payload = b"hello mesh".to_vec();
    let framed = encode(&payload).unwrap();
    let (p, used) = decode(&framed).unwrap();
    assert_eq!(p, payload);
    assert_eq!(used, framed.len());
}

#[test]
fn decode_empty_payload_frame() {
    let (p, used) = decode(&[0x94, 0xC3, 0, 0, 9, 9]).unwrap();
    assert!(p.is_empty());
    assert_eq!(used, 4);
}

#[test]
fn decode_reports_bad_magic() {
    match decode(&[0x01, 0x02, 0, 0]) {
        Err(FrameError::BadMagic(a, b)) => assert_eq!((a, b), (0x01, 0x02)),
        other => panic!("unexpected {other:?}"),
    }
    match decode(&[0x94, 0x00, 0, 0]) {
        Err(FrameError::BadMagic(a, b)) => assert_eq!((a, b), (0x94, 0x00)),
        other => panic!("unexpected {other:?}"),
    }
}

#[test]
fn decode_asks_for_more_bytes() {
    match decode(&[]) {
        Err(FrameError::NeedMore(n)) => assert_eq!(n, 4),
        other => panic!("unexpected {other:?}"),
    }
    match decode(&[0x94, 0xC3, 0x00]) {
        Err(FrameError::NeedMore(n)) => assert_eq!(n, 1),
        other => panic!("unexpected {other:?}"),
    }
    match decode(&[0x94, 0xC3, 0x00, 0x05, 1, 2]) {
        Err(FrameError::NeedMore(n)) => assert_eq!(n, 3),
        other => panic!("unexpected {other:?}"),
    }
}

#[test]
fn decode_refuses_too_large_header() {
    match decode(&[0x94, 0xC3, 0x02, 0x01]) {
        Err(FrameError::TooLarge(n)) => assert_eq!(n, 513),
        other => panic!("unexpected {other:?}"),
    }
}

#[test]
fn stream_codec_skips_noise_and_splits_frames() {
    let mut codec = FrameCodec;
    let mut buf = BytesMut::new();
    buf.extend_from_slice(&[0x00, 0x42, 0x94]);
    buf.extend_from_slice(&encode(&[0xAA]).unwrap()[..]);
    buf.extend_from_slice(&encode(&[0xBB, 0xCC]).unwrap()[..]);
    // A lone 0x94 followed by something other than 0xC3 is noise too.
    let first = codec.decode_frame(&mut buf).unwrap();
    assert_eq!(first, Some(vec![0xAA]));
    let second = codec.decode_frame(&mut buf).unwrap();
    assert_eq!(second, Some(vec![0xBB, 0xCC]));
    assert_eq!(codec.decode_frame(&mut buf).unwrap(), None);
    assert!(buf.is_empty());
}

#[test]
fn stream_codec_waits_for_partial_frame() {
    let mut codec = FrameCodec;
    let mut buf = BytesMut::new();
    buf.extend_from_slice(&[0x94, 0xC3, 0x00, 0x02, 0x01]);
    assert_eq!(codec.decode_frame(&mut buf).unwrap(), None);
    assert_eq!(&buf[..], &[0x94, 0xC3, 0x00, 0x02, 0x01]);
    buf.extend_from_slice(&[0x02]);
    assert_eq!(codec.decode_frame(&mut buf).unwrap(), Some(vec![1, 2]));
}

#[test]
fn stream_codec_refuses_oversized_header() {
    let mut codec = FrameCodec;
    let mut buf = BytesMut::new();
    buf.extend_from_slice(&[0x94, 0xC3, 0xFF, 0xFF]);
    match codec.decode_frame(&mut buf) {
        Err(FrameError::TooLarge(n)) => assert_eq!(n, 0xFFFF),
        other => panic!("unexpected {other:?}"),
    }
}

#[test]
fn stream_codec_encode_appends_frame() {
    let mut codec = FrameCodec;
    let mut buf = BytesMut::new();
    buf.extend_from_slice(&[9]);
    codec.encode_frame(vec![5, 6], &mut buf).unwrap();
    assert_eq!(&buf[..], &[9, 0x94, 0xC3, 0, 2, 5, 6]);
    match codec.encode_frame(vec![0; 600], &mut buf) {
        Err(FrameError::TooLarge(n)) => assert_eq!(n, 600),
        other => panic!("unexpected {other:?}"),
    }
    assert_eq!(buf.len(), 7);
}
