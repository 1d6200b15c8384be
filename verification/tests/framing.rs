use krkr_tts::protocol::{decode_frame, encode_frame, le32_decode, FrameError};

#[test]
fn le32_reads_least_significant_byte_first() {
    assert_eq!(le32_decode(&[0x78, 0x56, 0x34, 0x12]), 0x1234_5678);
    assert_eq!(le32_decode(&[0, 0, 0, 0]), 0);
    assert_eq!(le32_decode(&[0xff, 0xff, 0xff, 0xff]), u32::MAX);
}

#[test]
fn frame_round_trip() {
    let body: Vec<u8> = b"{\"text\":\"hello\"}".to_vec();
    let framed = encode_frame(&body);
    assert_eq!(framed.len(), 4 + body.len());
    assert_eq!(framed[0] as usize, body.len());
    assert_eq!(&framed[1..4], &[0, 0, 0]);
    let decoded = decode_frame(&framed).unwrap();
    assert_eq!(decoded, body);
}

#[test]
fn empty_body_frames_and_decodes() {
    let body: Vec<u8> = Vec::new();
    let framed = encode_frame(&body);
    assert_eq!(framed, vec![0, 0, 0, 0]);
    assert_eq!(decode_frame(&framed).unwrap(), body);
}

#[test]
fn short_header_is_refused() {
    assert_eq!(decode_frame(&vec![]), Err(FrameError::ShortHeader));
    assert_eq!(decode_frame(&vec![5, 0, 0]), Err(FrameError::ShortHeader));
}

#[test]
fn declared_length_exceeding_received_bytes_is_refused() {
    // A client declares ten body bytes but the timeout strikes after three:
    // the frame is refused and no body — hence no artifact — comes of it.
    let mut buf: Vec<u8> = vec![10, 0, 0, 0];
    buf.extend_from_slice(b"abc");
    assert_eq!(decode_frame(&buf), Err(FrameError::ShortBody));
}

#[test]
fn trailing_bytes_beyond_declared_length_are_ignored() {
    let mut buf: Vec<u8> = vec![2, 0, 0, 0];
    buf.extend_from_slice(b"abXYZ");
    assert_eq!(decode_frame(&buf).unwrap(), b"ab".to_vec());
}
