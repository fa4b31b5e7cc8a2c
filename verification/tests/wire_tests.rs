use apex::serializer::header::{WireFlags, WireHeader, APEX_MAGIC, HEADER_SIZE};
use apex::shm::ring::{RingHeader, SlotHeader, MAX_SLOT_PAYLOAD};
use apex::tcp::codec::{decode_frame, encode_frame, ByteStream};
use apex::udp::frame::{topic_hash, FrameHeader};
use apex::udp::multicast::multicast_group_for_topic;

#[test]
fn round_trip_header() {
    let h = WireHeader {
        type_id: 42,
        schema_version: 3,
        schema_hash: 0xDEADBEEFCAFEBABE,
        flags: WireFlags::checksum(),
        payload_length: 256,
    };
    let encoded = h.encode();
    assert_eq!(encoded.len(), HEADER_SIZE);
    let decoded = WireHeader::decode(&encoded);
    assert!(decoded.is_some());
    let decoded = decoded.unwrap();
    assert_eq!(decoded.type_id, 42);
    assert_eq!(decoded.schema_version, 3);
    assert_eq!(decoded.schema_hash, 0xDEADBEEFCAFEBABE);
    assert!(decoded.flags.has_checksum());
    assert_eq!(decoded.payload_length, 256);
}

#[test]
fn decode_rejects_bad_magic() {
    let mut buf = [0u8; HEADER_SIZE];
    buf[0] = 0xFF;
    buf[1] = 0xFF;
    assert_eq!(WireHeader::decode(&buf), None);
}

#[test]
fn decode_rejects_wrong_version() {
    let mut buf = [0u8; HEADER_SIZE];
    buf[0..2].copy_from_slice(&APEX_MAGIC);
    buf[2] = 99; // wrong version
    assert_eq!(WireHeader::decode(&buf), None);
}

#[test]
fn wire_flags_composition() {
    let f = WireFlags::none()
        .set(WireFlags::checksum())
        .set(WireFlags::fragmented());
    assert!(f.has_checksum());
    assert!(f.is_fragmented());
    assert!(!f.has_compression());
}

#[test]
fn ring_header_size() {
    assert_eq!(std::mem::size_of::<RingHeader>(), 128);
}

#[test]
fn slot_header_layout() {
    assert!(std::mem::size_of::<SlotHeader>() < MAX_SLOT_PAYLOAD);
}

#[test]
fn encode_decode_round_trip() {
    let header = [0xAA_u8; 16];
    let payload = b"hello, APEX";
    let mut buf = Vec::new();
    encode_frame(&mut buf, &header, payload).unwrap();
    let mut cursor = ByteStream::new(buf);
    let (decoded_hdr, decoded_payload) = decode_frame(&mut cursor).unwrap();
    assert_eq!(decoded_hdr, header);
    assert_eq!(decoded_payload, payload);
}

#[test]
fn empty_payload_round_trip() {
    let header = [0x00_u8; 16];
    let payload: &[u8] = &[];
    let mut buf = Vec::new();
    encode_frame(&mut buf, &header, payload).unwrap();
    let mut cursor = ByteStream::new(buf);
    let (_, decoded_payload) = decode_frame(&mut cursor).unwrap();
    assert!(decoded_payload.is_empty());
}

#[test]
fn header_round_trip() {
    let hash = topic_hash("/sensors/lidar");
    let hdr = FrameHeader::new(hash, 512);
    let bytes = hdr.to_bytes();
    let decoded = FrameHeader::from_bytes(&bytes).expect("valid header");
    assert_eq!(decoded.topic_hash_host(), hash);
    assert_eq!(decoded.payload_len_host(), 512);
}

#[test]
fn bad_magic_rejected() {
    let mut bytes = FrameHeader::new(0, 0).to_bytes();
    bytes[0] = 0xFF;
    assert!(FrameHeader::from_bytes(&bytes).is_none());
}

#[test]
fn group_in_admin_scope() {
    let g = multicast_group_for_topic("/sensors/lidar");
    assert_eq!(g.octets()[0], 239, "First octet must be 239");
}

#[test]
fn deterministic_group() {
    let a = multicast_group_for_topic("/sensors/lidar");
    let b = multicast_group_for_topic("/sensors/lidar");
    assert_eq!(a, b);
}
