use prism::transport::framing::{frame_message, frame_payload_len, u32_from_le_bytes, u32_to_le_bytes};

#[test]
fn frame_prefixes_little_endian_length() {
    assert_eq!(frame_message(&[1, 2, 3]), vec![3, 0, 0, 0, 1, 2, 3]);
    assert_eq!(frame_message(&[]), vec![0, 0, 0, 0]);
    let payload = vec![0xabu8; 300];
    let frame = frame_message(&payload);
    assert_eq!(&frame[..4], &[44, 1, 0, 0]);
    assert_eq!(&frame[4..], &payload[..]);
}

#[test]
fn header_announces_payload_length() {
    for len in [0usize, 1, 255, 256, 65_535, 65_536, 1_000_000] {
        let payload = vec![7u8; len];
        let frame = frame_message(&payload);
        let header = [frame[0], frame[1], frame[2], frame[3]];
        assert_eq!(frame_payload_len(header), len);
        assert_eq!(frame.len(), len + 4);
    }
}

#[test]
fn little_endian_matches_std() {
    for n in [0u32, 1, 0x0102_0304, 0xdead_beef, u32::MAX] {
        assert_eq!(u32_to_le_bytes(n), n.to_le_bytes());
        assert_eq!(u32_from_le_bytes(n.to_le_bytes()), n);
    }
    assert_eq!(u32_to_le_bytes(0x0102_0304), [4, 3, 2, 1]);
    assert_eq!(frame_payload_len([0xff, 0xff, 0xff, 0xff]), u32::MAX as usize);
}
