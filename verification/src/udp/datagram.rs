//! The layout of an APEX UDP datagram and the rules by which a receiver
//! accepts one: a frame header followed by the payload it announces.
use vstd::prelude::*;
use crate::bytes::{append_bytes, copy_range};
use crate::udp::frame::{
    lemma_frame_round_trip, spec_frame_bytes, spec_frame_from_bytes, spec_new_frame, FrameHeader,
    HEADER_SIZE,
};

verus! {

/// Maximum UDP payload size: a conservative Ethernet MTU minus IP (20) and
/// UDP (8) headers.
pub const MAX_UDP_PAYLOAD: usize = 1_472;

/// Default TTL for multicast datagrams (LAN scope only).
pub const DEFAULT_MULTICAST_TTL: u32 = 1;

/// Default socket receive buffer size (bytes).
pub const SOCK_RCVBUF: usize = 4_194_304;

/// Default socket send buffer size (bytes).
pub const SOCK_SNDBUF: usize = 1_048_576;

/// The datagram that carries `payload` on the topic with hash
/// `topic_hash`, if the payload fits: header then payload.
pub open spec fn spec_datagram(topic_hash: u64, payload: Seq<u8>) -> Option<Seq<u8>> {
    if payload.len() > MAX_UDP_PAYLOAD {
        None
    } else {
        Some(spec_frame_bytes(spec_new_frame(topic_hash, payload.len() as u16)) + payload)
    }
}

/// The payload a receiver for `topic_hash` takes from `datagram`: none if
/// the datagram is shorter than a header, its header has a wrong magic or
/// version, it belongs to another topic, or it is shorter than the payload
/// length it announces; otherwise the announced payload.
pub open spec fn spec_accept(datagram: Seq<u8>, topic_hash: u64) -> Option<Seq<u8>> {
    if datagram.len() < HEADER_SIZE {
        None
    } else {
        match spec_frame_from_bytes(datagram.subrange(0, HEADER_SIZE as int)) {
            None => None,
            Some(h) => if h.topic_hash != topic_hash || datagram.len() < HEADER_SIZE
                + h.payload_len {
                None
            } else {
                Some(datagram.subrange(HEADER_SIZE as int, HEADER_SIZE + h.payload_len))
            },
        }
    }
}

/// Build the datagram that carries `payload` for the topic with hash
/// `topic_hash`; `None` when the payload exceeds [`MAX_UDP_PAYLOAD`].
pub fn encode_datagram(topic_hash: u64, payload: &[u8]) -> (r: Option<Vec<u8>>)
    ensures
        match r {
            Some(d) => spec_datagram(topic_hash, payload@) == Some(d@),
            None => spec_datagram(topic_hash, payload@) is None,
        },
{
    if payload.len() > MAX_UDP_PAYLOAD {
        return None;
    }
    let header = FrameHeader::new(topic_hash, payload.len() as u16);
    let header_bytes = header.to_bytes();
    let mut buf: Vec<u8> = Vec::new();
    append_bytes(&mut buf, header_bytes.as_slice());
    append_bytes(&mut buf, payload);
    Some(buf)
}

/// The payload of `datagram` if a receiver for `topic_hash` accepts it.
pub fn accept_datagram(datagram: &[u8], topic_hash: u64) -> (r: Option<Vec<u8>>)
    ensures
        match r {
            Some(p) => spec_accept(datagram@, topic_hash) == Some(p@),
            None => spec_accept(datagram@, topic_hash) is None,
        },
{
    let n = datagram.len();
    if n < HEADER_SIZE {
        return None;
    }
    let head = copy_range(datagram, 0, HEADER_SIZE);
    let header_bytes: [u8; HEADER_SIZE] = [
        head[0],
        head[1],
        head[2],
        head[3],
        head[4],
        head[5],
        head[6],
        head[7],
        head[8],
        head[9],
        head[10],
        head[11],
        head[12],
        head[13],
        head[14],
        head[15],
    ];
    assert(header_bytes@ =~= datagram@.subrange(0, HEADER_SIZE as int));
    let hdr = match FrameHeader::from_bytes(&header_bytes) {
        Some(h) => h,
        None => {
            return None;
        },
    };
    if hdr.topic_hash_host() != topic_hash {
        return None;
    }
    let plen = hdr.payload_len_host() as usize;
    if n < HEADER_SIZE + plen {
        return None;
    }
    Some(copy_range(datagram, HEADER_SIZE, HEADER_SIZE + plen))
}

/// A receiver for a topic accepts the datagram built for that topic and
/// takes from it exactly the payload that was sent.
pub proof fn lemma_datagram_round_trip(topic_hash: u64, payload: Seq<u8>)
    requires
        payload.len() <= MAX_UDP_PAYLOAD,
    ensures
        spec_accept(spec_datagram(topic_hash, payload)->0, topic_hash) == Some(payload),
{
    let h = spec_new_frame(topic_hash, payload.len() as u16);
    let d = spec_datagram(topic_hash, payload)->0;
    lemma_frame_round_trip(h);
    assert(d.subrange(0, HEADER_SIZE as int) =~= spec_frame_bytes(h));
    assert(d.subrange(HEADER_SIZE as int, HEADER_SIZE + payload.len()) =~= payload);
}

/// A receiver for one topic never accepts a datagram built for another.
pub proof fn lemma_datagram_other_topic(sent: u64, listening: u64, payload: Seq<u8>)
    requires
        payload.len() <= MAX_UDP_PAYLOAD,
        sent != listening,
    ensures
        spec_accept(spec_datagram(sent, payload)->0, listening) is None,
{
    let h = spec_new_frame(sent, payload.len() as u16);
    let d = spec_datagram(sent, payload)->0;
    lemma_frame_round_trip(h);
    assert(d.subrange(0, HEADER_SIZE as int) =~= spec_frame_bytes(h));
}

} // verus!
