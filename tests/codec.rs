use wormhole_guardian_adapter::guardian_message::GuardianMessage;
use wormhole_guardian_adapter::error::WormholeGuardiansAdapterError;
use wormhole_guardian_adapter::message::Message;

fn sample() -> GuardianMessage {
    GuardianMessage {
        src_addr: [0xaa; 32],
        sequence: 0x0102030405060708,
        dst_chain: 0x1234,
        dst_addr: [0xbb; 32],
        payload_hash: [0xcc; 32],
    }
}

#[test]
fn encode_lays_fields_out_big_endian() {
    let bytes = sample().encode();
    assert_eq!(bytes.len(), 106);
    assert_eq!(&bytes[0..32], &[0xaa; 32]);
    assert_eq!(&bytes[32..40], &[1, 2, 3, 4, 5, 6, 7, 8]);
    assert_eq!(&bytes[40..42], &[0x12, 0x34]);
    assert_eq!(&bytes[42..74], &[0xbb; 32]);
    assert_eq!(&bytes[74..106], &[0xcc; 32]);
}

#[test]
fn encode_matches_packed_encoding() {
    let m = GuardianMessage {
        src_addr: [0x01; 32],
        sequence: 42,
        dst_chain: 2,
        dst_addr: [0x02; 32],
        payload_hash: [0x03; 32],
    };
    let mut expected = Vec::new();
    expected.extend_from_slice(&[0x01; 32]);
    expected.extend_from_slice(&42u64.to_be_bytes());
    expected.extend_from_slice(&2u16.to_be_bytes());
    expected.extend_from_slice(&[0x02; 32]);
    expected.extend_from_slice(&[0x03; 32]);
    assert_eq!(m.encode(), expected);
}

#[test]
fn decode_of_encode_is_identity() {
    let m = sample();
    assert_eq!(GuardianMessage::decode(&m.encode()), Ok(m));
    let edge = GuardianMessage {
        src_addr: [0xff; 32],
        sequence: u64::MAX,
        dst_chain: u16::MAX,
        dst_addr: [0; 32],
        payload_hash: [0x80; 32],
    };
    assert_eq!(GuardianMessage::decode(&edge.encode()), Ok(edge));
}

#[test]
fn decode_refuses_every_other_length() {
    for len in [0usize, 1, 51, 105, 107, 200] {
        let bytes = vec![7u8; len];
        assert_eq!(
            GuardianMessage::decode(&bytes),
            Err(WormholeGuardiansAdapterError::InvalidPayloadLength)
        );
    }
}

#[test]
fn write_appends_after_existing_bytes() {
    let mut out = vec![9u8, 9u8];
    sample().write(&mut out);
    assert_eq!(out.len(), 108);
    assert_eq!(&out[0..2], &[9, 9]);
    assert_eq!(&out[2..], sample().encode().as_slice());
    assert_eq!(sample().written_size(), 106);
}

#[test]
fn message_view_reads_fields_in_place() {
    let bytes = sample().encode();
    let m = Message::parse(&bytes).unwrap();
    assert_eq!(m.src_addr(), [0xaa; 32]);
    assert_eq!(m.sequence(), 0x0102030405060708);
    assert_eq!(m.dst_chain(), 0x1234);
    assert_eq!(m.dst_addr(), [0xbb; 32]);
    assert_eq!(m.payload_hash(), [0xcc; 32]);
    assert_eq!(m.as_bytes(), bytes.as_slice());
}

#[test]
fn message_view_refuses_wrong_length() {
    let short = vec![0u8; 105];
    assert!(Message::parse(&short).is_err());
    let long = vec![0u8; 107];
    assert!(Message::parse(&long).is_err());
}
