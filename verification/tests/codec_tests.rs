use delamain::codec::{decode_channel_id, encode_channel_id};

#[test]
fn encode_is_little_endian() {
    assert_eq!(encode_channel_id(0), vec![0u8; 8]);
    assert_eq!(
        encode_channel_id(0x0102030405060708),
        vec![0x08, 0x07, 0x06, 0x05, 0x04, 0x03, 0x02, 0x01]
    );
    assert_eq!(encode_channel_id(1), vec![1, 0, 0, 0, 0, 0, 0, 0]);
    assert_eq!(encode_channel_id(u64::MAX), vec![0xff; 8]);
}

#[test]
fn decode_reads_little_endian() {
    assert_eq!(decode_channel_id(&[1, 0, 0, 0, 0, 0, 0, 0]), 1);
    assert_eq!(
        decode_channel_id(&[0x08, 0x07, 0x06, 0x05, 0x04, 0x03, 0x02, 0x01]),
        0x0102030405060708
    );
}

#[test]
fn encode_decode_round_trip() {
    for id in [
        0u64,
        1,
        255,
        256,
        0xdead_beef,
        0x0102030405060708,
        u64::MAX - 1,
        u64::MAX,
    ] {
        assert_eq!(decode_channel_id(encode_channel_id(id).as_slice()), id);
    }
}
