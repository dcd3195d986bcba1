use baphonet::frame::{decode_message_size, encode_message_size};
use baphonet::{MAXIMUM_MESSAGE_SIZE, SIZE_OF_MESSAGE_SIZE};

#[test]
fn frame_encode_known_sizes() {
    assert_eq!(encode_message_size(0), [0, 0]);
    assert_eq!(encode_message_size(1), [1, 0]);
    assert_eq!(encode_message_size(256), [0, 1]);
    assert_eq!(encode_message_size(1024), [0, 4]);
    assert_eq!(encode_message_size(MAXIMUM_MESSAGE_SIZE), [255, 255]);
}

#[test]
fn frame_matches_std_little_endian() {
    for size in [0usize, 7, 255, 256, 4660, 65534, MAXIMUM_MESSAGE_SIZE] {
        assert_eq!(encode_message_size(size), (size as u16).to_le_bytes());
    }
}

#[test]
fn frame_decode_known_headers() {
    assert_eq!(decode_message_size(&[0x34, 0x12]), 0x1234);
    assert_eq!(decode_message_size(&[255, 255, 9]), MAXIMUM_MESSAGE_SIZE);
    assert_eq!(SIZE_OF_MESSAGE_SIZE, 2);
}

#[test]
fn frame_roundtrip_every_size() {
    for size in 0..=MAXIMUM_MESSAGE_SIZE {
        let header = encode_message_size(size);
        assert_eq!(decode_message_size(&header), size);
    }
}

#[test]
fn frame_roundtrip_every_header() {
    for low in 0..=255u8 {
        for high in 0..=255u8 {
            let size = decode_message_size(&[low, high]);
            assert_eq!(encode_message_size(size), [low, high]);
        }
    }
}
