use sandstone::network::network_error::NetworkError;
use sandstone::network::{
    build_deserializer_buffer, build_frame, check_read_length, length_prefixed, read_length_prefix, LengthPrefix,
    PACKET_MAX_SIZE,
};
use sandstone::protocol::serialization::SerializingErr;

#[test]
fn length_prefix_empty_is_incomplete() {
    assert_eq!(read_length_prefix(&[], 3).unwrap(), LengthPrefix::Incomplete);
}

#[test]
fn length_prefix_single_byte() {
    assert_eq!(read_length_prefix(&[0x05], 3).unwrap(), LengthPrefix::Complete { prefix_len: 1, packet_len: 5 });
}

#[test]
fn length_prefix_continues() {
    assert_eq!(read_length_prefix(&[0x80], 3).unwrap(), LengthPrefix::Incomplete);
    assert_eq!(read_length_prefix(&[0x80, 0x80], 3).unwrap(), LengthPrefix::Incomplete);
}

#[test]
fn length_prefix_largest_packet() {
    assert_eq!(
        read_length_prefix(&[0xFF, 0xFF, 0x7F], 3).unwrap(),
        LengthPrefix::Complete { prefix_len: 3, packet_len: PACKET_MAX_SIZE }
    );
}

#[test]
fn length_prefix_too_many_bytes() {
    let r = read_length_prefix(&[0x80, 0x80, 0x80], 3);
    assert!(matches!(r, Err(NetworkError::SerializingErr(SerializingErr::VarTypeTooLong(_)))));
}

#[test]
fn length_prefix_too_large_packet() {
    let r = read_length_prefix(&[0x80, 0x80, 0x80, 0x01], 5);
    assert!(matches!(r, Err(NetworkError::PacketTooLarge)));
}

#[test]
fn read_length_checks() {
    assert!(matches!(check_read_length(0), Err(NetworkError::NoDataReceived)));
    assert!(matches!(check_read_length(PACKET_MAX_SIZE), Err(NetworkError::PacketTooLarge)));
    assert!(check_read_length(10).is_ok());
}

#[test]
fn length_prefixed_body() {
    assert_eq!(length_prefixed(&[1, 2, 3]), vec![3, 1, 2, 3]);
    let long = vec![7u8; 200];
    let out = length_prefixed(&long);
    assert_eq!(&out[0..2], &[0xC8, 0x01]);
    assert_eq!(out.len(), 202);
}

#[test]
fn frame_without_compression_is_the_packet() {
    let packet = vec![2u8, 0x00, 0x01];
    assert_eq!(build_frame(&packet, None).unwrap(), packet);
    assert_eq!(build_deserializer_buffer(None, &[0x00, 0x01]).unwrap(), packet);
}

#[test]
fn small_packet_below_threshold_is_sent_plain() {
    let packet = vec![2u8, 0x00, 0x01];
    let frame = build_frame(&packet, Some(256)).unwrap();
    assert_eq!(frame, vec![3u8, 0x00, 0x00, 0x01]);
    assert_eq!(build_deserializer_buffer(Some(256), &frame[1..]).unwrap(), packet);
}

#[test]
fn large_packet_is_compressed_and_reads_back() {
    let body = vec![0u8; 300];
    let packet = length_prefixed(&body);
    let frame = build_frame(&packet, Some(256)).unwrap();
    // 300 zero bytes compress to far fewer bytes.
    assert!(frame.len() < 100);
    // The data length is the uncompressed body length, 300.
    let prefix = match read_length_prefix(&frame[0..1], 3).unwrap() {
        LengthPrefix::Complete { prefix_len, packet_len } => (prefix_len, packet_len),
        LengthPrefix::Incomplete => panic!("frame length should fit one byte"),
    };
    assert_eq!(prefix.0, 1);
    assert_eq!(prefix.1, frame.len() - 1);
    assert_eq!(&frame[1..3], &[0xAC, 0x02]);
    let back = build_deserializer_buffer(Some(256), &frame[1..]).unwrap();
    assert_eq!(back, packet);
}

#[test]
fn compressed_frame_with_bad_stream_is_an_io_error() {
    let r = build_deserializer_buffer(Some(256), &[0x05, 1, 2, 3]);
    assert!(matches!(r, Err(NetworkError::IOError(_))));
}

#[test]
fn compressed_frame_with_huge_data_length_is_refused() {
    let r = build_deserializer_buffer(Some(256), &[0x80, 0x80, 0x80, 0x01, 0x00]);
    assert!(matches!(r, Err(NetworkError::PacketTooLarge)));
}

#[test]
fn frame_of_bad_prefix_is_refused() {
    let r = build_frame(&[0x80, 0x80, 0x80, 0x80, 0x80, 0x80], None);
    assert!(matches!(r, Err(NetworkError::SerializingErr(_))));
}

#[test]
fn body_as_long_as_the_threshold_is_sent_plain() {
    let body = vec![5u8; 256];
    let packet = length_prefixed(&body);
    let frame = build_frame(&packet, Some(256)).unwrap();
    // frame length (257 = 0x81 0x02), then data length 0, then the body as it is.
    assert_eq!(&frame[0..3], &[0x81, 0x02, 0x00]);
    assert_eq!(&frame[3..], &body[..]);
    assert_eq!(build_deserializer_buffer(Some(256), &frame[2..]).unwrap(), packet);
}

#[test]
fn body_one_past_the_threshold_is_compressed() {
    let body = vec![5u8; 257];
    let packet = length_prefixed(&body);
    let frame = build_frame(&packet, Some(256)).unwrap();
    assert!(frame.len() < 100);
    // data length 257 = 0x81 0x02 follows the one-byte frame length
    assert_eq!(&frame[1..3], &[0x81, 0x02]);
    assert_eq!(build_deserializer_buffer(Some(256), &frame[1..]).unwrap(), packet);
}
