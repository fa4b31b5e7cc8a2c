use apex::serializer::header::{WireFlags, WireHeader, APEX_MAGIC, HEADER_SIZE};
use apex::shm::channel::{next_recv_backoff, segment_name, shm_name_for_topic};
use apex::shm::error::ShmError;
use apex::shm::ring::{
    claim_slot, plan_publish, slowest_reader, RecvCursor, RingHeader, EMPTY_SLOT_SEQ,
    LAYOUT_VERSION, MAGIC, MAX_SLOT_PAYLOAD, MAX_SUBSCRIBERS, READER_FREE, RING_SLOTS,
};
use apex::tcp::codec::{FrameDecoder, FrameStage};
use apex::tcp::timeout::timeout_parts;
use apex::tcp::codec::{decode_frame, encode_frame, parse_length_prefix, ByteStream, MAX_TCP_PAYLOAD};
use apex::tcp::error::TcpError;
use apex::udp::datagram::{accept_datagram, encode_datagram, MAX_UDP_PAYLOAD};
use apex::udp::frame::{topic_hash, FrameHeader, UDP_MAGIC};
use apex::udp::multicast::multicast_group_for_topic;

#[test]
fn wire_header_exact_layout() {
    let h = WireHeader {
        type_id: 0x0403_0201,
        schema_version: 0x0605,
        schema_hash: 0x0E0D_0C0B_0A09_0807,
        flags: WireFlags(0x0F),
        payload_length: 0x1312_1110,
    };
    let expected: [u8; HEADER_SIZE] = [
        0xAE, 0x58, 1, 1, 2, 3, 4, 5, 6, 7, 8, 9, 10, 11, 12, 13, 14, 15, 0x10, 0x11, 0x12, 0x13,
    ];
    assert_eq!(h.encode(), expected);
    assert_eq!(WireHeader::decode(&expected), Some(h));
}

#[test]
fn wire_header_decode_short_and_trailing() {
    let h = WireHeader {
        type_id: 7,
        schema_version: 1,
        schema_hash: 2,
        flags: WireFlags::none(),
        payload_length: 0,
    };
    let enc = h.encode();
    assert_eq!(WireHeader::decode(&enc[..HEADER_SIZE - 1]), None);
    let mut longer = enc.to_vec();
    longer.extend_from_slice(&[9, 9, 9]);
    assert_eq!(WireHeader::decode(&longer), Some(h));
    assert_eq!(APEX_MAGIC, [0xAE, 0x58]);
}

#[test]
fn wire_flags_each_bit() {
    let f = WireFlags::compressed().set(WireFlags::last_fragment());
    assert!(f.has_compression());
    assert!(f.is_last_fragment());
    assert!(!f.has_checksum());
    assert!(!f.is_fragmented());
    assert_eq!(f, WireFlags(0b1010));
}

#[test]
fn frame_header_exact_layout() {
    let bytes = FrameHeader::new(0x0807_0605_0403_0201, 0x0302).to_bytes();
    assert_eq!(
        bytes,
        [0x02, 0x00, 0xEE, 0xA9, 1, 0, 0x02, 0x03, 1, 2, 3, 4, 5, 6, 7, 8]
    );
    let h = FrameHeader::from_bytes(&bytes).unwrap();
    assert_eq!(h.magic, UDP_MAGIC);
    assert_eq!(h.version, 1);
    assert_eq!(h.flags, 0);
}

#[test]
fn frame_header_wrong_version_rejected() {
    let mut bytes = FrameHeader::new(1, 1).to_bytes();
    bytes[4] = 2;
    assert!(FrameHeader::from_bytes(&bytes).is_none());
}

#[test]
fn fnv1a_known_values() {
    assert_eq!(topic_hash(""), 0xcbf29ce484222325);
    assert_eq!(topic_hash("a"), 0xaf63dc4c8601ec8c);
    assert_eq!(topic_hash("foobar"), 0x85944171f73967e8);
}

#[test]
fn multicast_group_from_hash() {
    let h = topic_hash("/sensors/lidar") as u32;
    let g = multicast_group_for_topic("/sensors/lidar");
    assert_eq!(g.octets(), [239, (h >> 16) as u8, (h >> 8) as u8, h as u8]);
}

#[test]
fn datagram_round_trip_and_filtering() {
    let th = topic_hash("/t");
    let d = encode_datagram(th, b"payload").unwrap();
    assert_eq!(d.len(), 16 + 7);
    assert_eq!(accept_datagram(&d, th), Some(b"payload".to_vec()));
    assert_eq!(accept_datagram(&d, th ^ 1), None);
    assert_eq!(accept_datagram(&d[..d.len() - 1], th), None);
    assert_eq!(accept_datagram(&d[..15], th), None);
    let mut bad = d.clone();
    bad[0] ^= 0xFF;
    assert_eq!(accept_datagram(&bad, th), None);
    // Extra bytes after the announced payload are ignored.
    let mut longer = d.clone();
    longer.push(1);
    assert_eq!(accept_datagram(&longer, th), Some(b"payload".to_vec()));
}

#[test]
fn datagram_payload_limit() {
    let max = vec![0u8; MAX_UDP_PAYLOAD];
    assert!(encode_datagram(1, &max).is_some());
    let over = vec![0u8; MAX_UDP_PAYLOAD + 1];
    assert!(encode_datagram(1, &over).is_none());
}

#[test]
fn tcp_frames_back_to_back() {
    let mut buf = Vec::new();
    encode_frame(&mut buf, &[1u8; 16], b"one").unwrap();
    encode_frame(&mut buf, &[2u8; 16], b"").unwrap();
    assert_eq!(&buf[..4], &[19, 0, 0, 0]);
    let mut s = ByteStream::new(buf);
    let (h1, p1) = decode_frame(&mut s).unwrap();
    assert_eq!((h1, p1), ([1u8; 16], b"one".to_vec()));
    let (h2, p2) = decode_frame(&mut s).unwrap();
    assert_eq!((h2, p2), ([2u8; 16], Vec::new()));
    assert_eq!(s.remaining_len(), 0);
    assert!(matches!(decode_frame(&mut s), Err(TcpError::ConnectionClosed)));
}

#[test]
fn tcp_truncated_frame_is_closed() {
    let mut buf = Vec::new();
    encode_frame(&mut buf, &[3u8; 16], b"abcdef").unwrap();
    buf.truncate(buf.len() - 1);
    let mut s = ByteStream::new(buf);
    assert!(matches!(decode_frame(&mut s), Err(TcpError::ConnectionClosed)));
    assert_eq!(s.remaining_len(), 0);
}

#[test]
fn tcp_bad_length_prefix() {
    let too_big = ((16 + MAX_TCP_PAYLOAD + 1) as u32).to_le_bytes();
    let mut s = ByteStream::new([too_big.to_vec(), vec![0u8; 20]].concat());
    match decode_frame(&mut s) {
        Err(TcpError::FrameTooLarge { len }) => assert_eq!(len as usize, 16 + MAX_TCP_PAYLOAD + 1),
        other => panic!("unexpected {:?}", other.map(|_| ())),
    }
    assert_eq!(s.remaining_len(), 20);
    let too_small = 15u32.to_le_bytes();
    assert!(matches!(parse_length_prefix(&too_small), Err(TcpError::FrameTooLarge { len: 15 })));
    assert_eq!(parse_length_prefix(&16u32.to_le_bytes()).unwrap(), 0);
    assert_eq!(
        parse_length_prefix(&((16 + MAX_TCP_PAYLOAD) as u32).to_le_bytes()).unwrap(),
        MAX_TCP_PAYLOAD
    );
}

#[test]
fn tcp_payload_limit_leaves_writer_alone() {
    let mut buf = vec![7u8];
    let big = vec![0u8; MAX_TCP_PAYLOAD + 1];
    match encode_frame(&mut buf, &[0u8; 16], &big) {
        Err(TcpError::PayloadTooLarge { len }) => assert_eq!(len, MAX_TCP_PAYLOAD + 1),
        _ => panic!("expected PayloadTooLarge"),
    }
    assert_eq!(buf, vec![7u8]);
}

#[test]
fn tcp_error_messages() {
    assert_eq!(TcpError::ConnectionClosed.to_string(), "remote peer closed connection");
    assert_eq!(TcpError::FrameTooLarge { len: 3 }.to_string(), "frame too large: 3 bytes");
    assert_eq!(
        TcpError::PayloadTooLarge { len: 2_000_000 }.to_string(),
        "payload too large: 2000000 bytes (max 1048576)"
    );
    let e = TcpError::SockOpt {
        opt: "TCP_NODELAY",
        source: std::io::Error::new(std::io::ErrorKind::Other, "nope"),
    };
    assert_eq!(e.to_string(), "setsockopt(TCP_NODELAY) failed: nope");
    assert!(e.source().is_some());
    assert!(TcpError::ConnectionClosed.source().is_none());
}

#[test]
fn shm_segment_names() {
    let a = shm_name_for_topic("scan");
    assert_eq!(a.len(), "/apex_".len() + 16);
    assert!(a.starts_with("/apex_"));
    assert!(a["/apex_".len()..].chars().all(|c| c.is_ascii_hexdigit() && !c.is_ascii_uppercase()));
    assert_eq!(a, shm_name_for_topic("scan"));
    assert_ne!(a, shm_name_for_topic("scan2"));
    assert_eq!(segment_name("scan").unwrap(), a);
    let long = "t".repeat(129);
    assert!(matches!(segment_name(&long), Err(ShmError::TopicNameTooLong { len: 129 })));
    assert!(segment_name(&"t".repeat(128)).is_ok());
}

#[test]
fn ring_header_validation() {
    let h = RingHeader::init();
    assert_eq!((h.magic, h.version, h.slot_count, h.max_payload, h.write_seq), (MAGIC, LAYOUT_VERSION, 64, 65_536, 0));
    assert!(h.validate().is_ok());
    let mut bad = RingHeader::init();
    bad.magic = 1;
    bad.version = 9;
    assert!(matches!(bad.validate(), Err(ShmError::LayoutMismatch { found: 1, expected: MAGIC })));
    let mut bad = RingHeader::init();
    bad.version = 9;
    assert!(matches!(bad.validate(), Err(ShmError::LayoutMismatch { found: 9, expected: 2 })));
    let mut bad = RingHeader::init();
    bad.slot_count = 32;
    bad.max_payload = 1;
    assert!(matches!(bad.validate(), Err(ShmError::LayoutMismatch { found: 32, expected: 64 })));
    let mut bad = RingHeader::init();
    bad.max_payload = 4096;
    assert!(matches!(
        bad.validate(),
        Err(ShmError::LayoutMismatch { found: 4096, expected: 65_536 })
    ));
}

#[test]
fn ring_publish_decisions() {
    assert!(matches!(plan_publish(MAX_SLOT_PAYLOAD + 1, 0), Err(ShmError::PayloadTooLarge { len }) if len == MAX_SLOT_PAYLOAD + 1));
    let p = plan_publish(MAX_SLOT_PAYLOAD, 0).unwrap();
    assert_eq!((p.seq, p.slot), (1, 1));
    let p = plan_publish(0, 64).unwrap();
    assert_eq!((p.seq, p.slot), (65, 1));
    let p = plan_publish(0, u64::MAX).unwrap();
    assert_eq!((p.seq, p.slot), (0, 0));
    let p = plan_publish(1, 100).unwrap();
    let lap_old = p.seq - RING_SLOTS as u64;
    assert!(claim_slot(&p, EMPTY_SLOT_SEQ, 0).is_ok());
    assert!(claim_slot(&p, lap_old, lap_old).is_ok());
    assert!(claim_slot(&p, lap_old, 100).is_ok());
    // The slowest subscriber has not read the message the slot holds.
    assert!(matches!(claim_slot(&p, lap_old, lap_old - 1), Err(ShmError::RingFull)));
    assert!(matches!(claim_slot(&p, lap_old + 1, 100), Err(ShmError::RingFull)));
}

#[test]
fn ring_recv_decisions() {
    let mut c = RecvCursor::starting_at(0);
    let r = c.plan();
    assert_eq!((r.seq, r.slot), (1, 1));
    assert!(matches!(c.accept(&r, EMPTY_SLOT_SEQ), Err(ShmError::NoData)));
    assert!(matches!(c.accept(&r, 65), Err(ShmError::NoData)));
    assert_eq!(c.read_seq, 0);
    assert!(c.accept(&r, 1).is_ok());
    assert_eq!(c.read_seq, 1);
    let r = RecvCursor::starting_at(127).plan();
    assert_eq!((r.seq, r.slot), (128, 0));
    let r = RecvCursor::starting_at(u64::MAX).plan();
    assert_eq!((r.seq, r.slot), (0, 0));
}

#[test]
fn recv_backoff_doubles_to_a_millisecond() {
    assert_eq!(next_recv_backoff(1), 2);
    assert_eq!(next_recv_backoff(256), 512);
    assert_eq!(next_recv_backoff(512), 1000);
    assert_eq!(next_recv_backoff(1000), 1000);
    assert_eq!(next_recv_backoff(u64::MAX), 1000);
}

#[test]
fn shm_error_messages() {
    assert_eq!(ShmError::RingFull.to_string(), "ring buffer full: publisher must back off");
    assert_eq!(ShmError::NoData.to_string(), "no new data available (non-blocking)");
    assert_eq!(
        ShmError::TopicNameTooLong { len: 200 }.to_string(),
        "topic name too long: 200 bytes (max 128)"
    );
    assert_eq!(
        ShmError::LayoutMismatch { found: 2, expected: 1 }.to_string(),
        "SHM layout version mismatch: found 2, expected 1"
    );
    assert_eq!(
        ShmError::PayloadTooLarge { len: 70000 }.to_string(),
        "payload too large: 70000 bytes (max 65536)"
    );
    let e = ShmError::Mmap { source: std::io::Error::new(std::io::ErrorKind::Other, "no") };
    assert_eq!(e.to_string(), "mmap failed: no");
    assert!(e.source().is_some());
    assert!(ShmError::NoData.source().is_none());
}

#[test]
fn slowest_reader_ignores_free_entries() {
    assert_eq!(slowest_reader(50, &[]), 50);
    assert_eq!(slowest_reader(50, &[READER_FREE, READER_FREE]), 50);
    assert_eq!(slowest_reader(50, &[READER_FREE, 40, 45, READER_FREE]), 40);
    assert_eq!(slowest_reader(50, &[49, 12, 30]), 12);
}

#[test]
fn error_messages_with_given_source_text() {
    let e = TcpError::Bind {
        addr: "0.0.0.0:1".into(),
        source: std::io::Error::new(std::io::ErrorKind::Other, "ignored"),
    };
    assert_eq!(e.message_with_source("in use"), "bind to '0.0.0.0:1' failed: in use");
    assert_eq!(e.to_string(), "bind to '0.0.0.0:1' failed: ignored");
    let e = ShmError::ShmOpen {
        name: "/apex_x".into(),
        source: std::io::Error::new(std::io::ErrorKind::Other, "gone"),
    };
    assert_eq!(e.message_with_source("absent"), "shm_open failed for '/apex_x': absent");
    assert_eq!(e.to_string(), "shm_open failed for '/apex_x': gone");
    assert_eq!(ShmError::NoData.message_with_source("x"), "no new data available (non-blocking)");
    assert_eq!(
        ShmError::TooManySubscribers { max: MAX_SUBSCRIBERS }.to_string(),
        "too many subscribers attached (max 16)"
    );
}

#[test]
fn frame_decoder_steps() {
    let mut d = FrameDecoder::new();
    assert_eq!(d.need(), 4);
    assert!(d.feed(&19u32.to_le_bytes()).unwrap().is_none());
    assert_eq!(d.need(), 16);
    assert!(d.feed(&[5u8; 16]).unwrap().is_none());
    assert_eq!(d.need(), 3);
    assert_eq!(d.feed(b"abc").unwrap(), Some(([5u8; 16], b"abc".to_vec())));
    assert!(matches!(d.stage, FrameStage::Prefix));
    // A frame without payload is complete after its header.
    assert!(d.feed(&16u32.to_le_bytes()).unwrap().is_none());
    assert_eq!(d.feed(&[1u8; 16]).unwrap(), Some(([1u8; 16], Vec::new())));
    assert!(matches!(d.feed(&15u32.to_le_bytes()), Err(TcpError::FrameTooLarge { len: 15 })));
    assert_eq!(d.need(), 4);
}

#[test]
fn accept_timeout_parts() {
    assert_eq!(timeout_parts(0), (0, 0));
    assert_eq!(timeout_parts(1_500), (1, 500_000));
    assert_eq!(timeout_parts(999), (0, 999_000));
}
