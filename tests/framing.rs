use wallpaper_link::framing::{
    decode_header, encode_frame, encode_header, read_frame, PacketHeader, SocketError, HEADER_SIZE,
};

#[test]
fn header_of_zero_is_all_zero_bytes() {
    let bytes = encode_header(&PacketHeader::new(0)).unwrap();
    assert_eq!(bytes, vec![0u8; 8]);
    assert_eq!(bytes.len(), HEADER_SIZE);
}

#[test]
fn header_is_little_endian() {
    let bytes = encode_header(&PacketHeader::new(300)).unwrap();
    assert_eq!(bytes, vec![44, 1, 0, 0, 0, 0, 0, 0]);
}

#[test]
fn header_size_is_constant_for_every_size() {
    for size in [0usize, 1, 255, 256, 65_535, 1 << 32, usize::MAX] {
        let bytes = encode_header(&PacketHeader::new(size)).unwrap();
        assert_eq!(bytes.len(), HEADER_SIZE);
    }
    assert_eq!(encode_header(&PacketHeader::new(usize::MAX)).unwrap(), vec![255u8; 8]);
}

#[test]
fn header_round_trip() {
    for size in [0usize, 7, 300, 1 << 40, usize::MAX] {
        let bytes = encode_header(&PacketHeader::new(size)).unwrap();
        assert_eq!(decode_header(&bytes).unwrap().size, size);
    }
}

#[test]
fn decode_header_ignores_trailing_bytes() {
    let header = decode_header(&[5, 0, 0, 0, 0, 0, 0, 0, 9, 9, 9]).unwrap();
    assert_eq!(header.size, 5);
}

#[test]
fn decode_header_rejects_short_input() {
    assert!(matches!(decode_header(&[1, 2, 3]), Err(SocketError::Decoding(_))));
    assert!(matches!(decode_header(&[]), Err(SocketError::Decoding(_))));
}

#[test]
fn frame_is_header_then_payload() {
    let frame = encode_frame(&[1, 2, 3]).unwrap();
    assert_eq!(frame, vec![3, 0, 0, 0, 0, 0, 0, 0, 1, 2, 3]);
}

#[test]
fn empty_payload_frame_is_header_alone() {
    let frame = encode_frame(&[]).unwrap();
    assert_eq!(frame, vec![0u8; 8]);
    let (payload, used) = read_frame(&frame, false).unwrap();
    assert!(payload.is_empty());
    assert_eq!(used, HEADER_SIZE);
}

#[test]
fn frame_round_trip_consumes_exact_bytes() {
    let payload: Vec<u8> = (0..200u8).collect();
    let mut stream = encode_frame(&payload).unwrap();
    stream.extend_from_slice(&[42, 43]);
    let (got, used) = read_frame(&stream, false).unwrap();
    assert_eq!(got, payload);
    assert_eq!(used, HEADER_SIZE + payload.len());
}

#[test]
fn two_frames_back_to_back_read_in_order() {
    let mut stream = encode_frame(b"first").unwrap();
    stream.extend(encode_frame(b"second one").unwrap());
    let (a, used_a) = read_frame(&stream, false).unwrap();
    assert_eq!(a, b"first".to_vec());
    assert_eq!(used_a, HEADER_SIZE + 5);
    let (b, used_b) = read_frame(&stream[used_a..], true).unwrap();
    assert_eq!(b, b"second one".to_vec());
    assert_eq!(used_a + used_b, stream.len());
}

#[test]
fn no_bytes_on_open_stream_is_transient() {
    let r = read_frame(&[], false);
    assert!(matches!(r, Err(SocketError::WouldBlock)));
    assert!(r.unwrap_err().is_transient());
}

#[test]
fn no_bytes_on_closed_stream_is_fatal() {
    let r = read_frame(&[], true);
    assert!(matches!(r, Err(SocketError::Io(_))));
    assert!(!r.unwrap_err().is_transient());
}

#[test]
fn partial_frame_waits_while_open_and_fails_once_closed() {
    let frame = encode_frame(b"hello").unwrap();
    let short = &frame[..frame.len() - 1];
    assert!(matches!(read_frame(short, false), Err(SocketError::WouldBlock)));
    assert!(matches!(read_frame(short, true), Err(SocketError::Io(_))));
    let header_only = &frame[..4];
    assert!(matches!(read_frame(header_only, false), Err(SocketError::WouldBlock)));
    assert!(matches!(read_frame(header_only, true), Err(SocketError::Io(_))));
}

#[test]
fn string_payload_round_trips_through_a_frame() {
    for text in ["", "ping", "a longer message with several words"] {
        let payload = bincode::serialize(&text.to_string()).unwrap();
        let frame = encode_frame(&payload).unwrap();
        assert_eq!(frame.len(), HEADER_SIZE + payload.len());
        let (got, _) = read_frame(&frame, false).unwrap();
        let back: String = bincode::deserialize(&got).unwrap();
        assert_eq!(back, text);
    }
}
