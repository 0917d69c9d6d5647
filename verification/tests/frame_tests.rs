use relay::frame::{decode_frame, encode_frame, MESSAGE_SIZE};

#[test]
fn round_trip_short_message() {
    let msg = b"hi".to_vec();
    let frame = encode_frame(&msg, MESSAGE_SIZE).unwrap();
    assert_eq!(frame.len(), MESSAGE_SIZE);
    assert_eq!(decode_frame(&frame), msg);
}

#[test]
fn round_trip_longest_padded_message() {
    let msg = vec![b'a'; MESSAGE_SIZE - 1];
    let frame = encode_frame(&msg, MESSAGE_SIZE).unwrap();
    assert_eq!(frame.len(), MESSAGE_SIZE);
    assert_eq!(frame[MESSAGE_SIZE - 1], 0);
    assert_eq!(decode_frame(&frame), msg);
}

#[test]
fn round_trip_full_frame_message() {
    let msg = vec![b'z'; MESSAGE_SIZE];
    let frame = encode_frame(&msg, MESSAGE_SIZE).unwrap();
    assert_eq!(frame, msg);
    assert_eq!(decode_frame(&frame), msg);
}

#[test]
fn encode_pads_with_trailing_zeros() {
    let msg = vec![7u8, 9u8];
    let frame = encode_frame(&msg, 4).unwrap();
    assert_eq!(frame, vec![7u8, 9u8, 0u8, 0u8]);
}

#[test]
fn encode_rejects_oversize_message() {
    let msg = vec![b'x'; MESSAGE_SIZE + 1];
    assert_eq!(encode_frame(&msg, MESSAGE_SIZE), None);
}

#[test]
fn encode_empty_message_gives_all_zero_frame() {
    let msg: Vec<u8> = Vec::new();
    let frame = encode_frame(&msg, MESSAGE_SIZE).unwrap();
    assert_eq!(frame, vec![0u8; MESSAGE_SIZE]);
    assert_eq!(decode_frame(&frame), msg);
}

#[test]
fn decode_stops_at_first_zero() {
    let frame = vec![b'h', b'i', 0u8, b'x', b'y'];
    assert_eq!(decode_frame(&frame), b"hi".to_vec());
}

#[test]
fn decode_of_empty_frame_is_empty() {
    let frame: Vec<u8> = Vec::new();
    assert_eq!(decode_frame(&frame), Vec::<u8>::new());
}
