//! The APEX UDP wire frame header: a fixed 16-byte header prepended to
//! every datagram.
//!
//! Layout (little-endian): magic (4 B), version (1 B), flags (1 B, reserved),
//! payload length (2 B), topic hash (8 B, FNV-1a of the topic name).
use vstd::prelude::*;
use vstd::string::*;
use crate::bytes::{
    lemma_u16_bytes_round_trip, lemma_u16_le_round_trip, lemma_u32_bytes_round_trip,
    lemma_u32_le_round_trip, lemma_u64_bytes_round_trip, lemma_u64_le_round_trip, read_u16_le,
    read_u32_le, read_u64_le, u16_from_le, u16_le_bytes, u32_from_le, u32_le_bytes, u64_from_le,
    u64_le_bytes,
};

verus! {

/// Wire magic for UDP frames.
pub const UDP_MAGIC: u32 = 0xA9EE_0002;

/// Wire format version.
pub const UDP_VERSION: u8 = 1;

/// Frame header size in bytes.
pub const HEADER_SIZE: usize = 16;

/// The FNV-1a offset basis.
pub const FNV_OFFSET: u64 = 14_695_981_039_346_656_037;

/// The FNV-1a prime.
pub const FNV_PRIME: u64 = 1_099_511_628_211;

/// Fixed-size UDP frame header.
#[derive(Debug, Clone, Copy, PartialEq, Eq, Structural)]
pub struct FrameHeader {
    /// Magic number.
    pub magic: u32,
    /// Format version.
    pub version: u8,
    /// Reserved flags (0 in every header this library builds).
    pub flags: u8,
    /// Length of the payload that follows (bytes).
    pub payload_len: u16,
    /// FNV-1a hash of the topic name.
    pub topic_hash: u64,
}

/// The 16 bytes that encode `h`.
pub open spec fn spec_frame_bytes(h: FrameHeader) -> Seq<u8> {
    u32_le_bytes(h.magic) + seq![h.version, h.flags] + u16_le_bytes(h.payload_len) + u64_le_bytes(
        h.topic_hash,
    )
}

/// The header that the 16 bytes `b` encode, if its magic and version are
/// the current ones (the flags byte is carried as it is).
pub open spec fn spec_frame_from_bytes(b: Seq<u8>) -> Option<FrameHeader> {
    let h = FrameHeader {
        magic: u32_from_le(b.subrange(0, 4)),
        version: b[4],
        flags: b[5],
        payload_len: u16_from_le(b.subrange(6, 8)),
        topic_hash: u64_from_le(b.subrange(8, 16)),
    };
    if h.magic != UDP_MAGIC || h.version != UDP_VERSION {
        None
    } else {
        Some(h)
    }
}

/// The header this library builds for a topic hash and payload length.
pub open spec fn spec_new_frame(topic_hash: u64, payload_len: u16) -> FrameHeader {
    FrameHeader {
        magic: UDP_MAGIC,
        version: UDP_VERSION,
        flags: 0,
        payload_len: payload_len,
        topic_hash: topic_hash,
    }
}

/// One step of FNV-1a: fold the byte `b` into the running hash `h`.
pub open spec fn fnv1a_step(h: u64, b: u8) -> u64 {
    (h ^ (b as u64)).wrapping_mul(FNV_PRIME)
}

/// The 64-bit FNV-1a hash of `bytes`.
pub open spec fn fnv1a(bytes: Seq<u8>) -> u64
    decreases bytes.len(),
{
    if bytes.len() == 0 {
        FNV_OFFSET
    } else {
        fnv1a_step(fnv1a(bytes.drop_last()), bytes.last())
    }
}

impl FrameHeader {
    /// Construct a valid header for the given topic hash and payload length.
    pub fn new(topic_hash: u64, payload_len: u16) -> (r: Self)
        ensures
            r == spec_new_frame(topic_hash, payload_len),
    {
        FrameHeader { magic: UDP_MAGIC, version: UDP_VERSION, flags: 0, payload_len, topic_hash }
    }

    /// Serialize to bytes.
    pub fn to_bytes(self) -> (r: [u8; HEADER_SIZE])
        ensures
            r@ == spec_frame_bytes(self),
    {
        let m = self.magic;
        let p = self.payload_len;
        let t = self.topic_hash;
        let r: [u8; HEADER_SIZE] = [
            m as u8,
            (m >> 8u32) as u8,
            (m >> 16u32) as u8,
            (m >> 24u32) as u8,
            self.version,
            self.flags,
            p as u8,
            (p >> 8u16) as u8,
            t as u8,
            (t >> 8u64) as u8,
            (t >> 16u64) as u8,
            (t >> 24u64) as u8,
            (t >> 32u64) as u8,
            (t >> 40u64) as u8,
            (t >> 48u64) as u8,
            (t >> 56u64) as u8,
        ];
        assert(r@ =~= spec_frame_bytes(self));
        r
    }

    /// Deserialize from bytes. Returns `None` if magic or version is wrong.
    pub fn from_bytes(bytes: &[u8; HEADER_SIZE]) -> (r: Option<Self>)
        ensures
            r == spec_frame_from_bytes(bytes@),
    {
        let b: &[u8] = bytes.as_slice();
        let magic = read_u32_le(b, 0);
        let version = b[4];
        let flags = b[5];
        let payload_len = read_u16_le(b, 6);
        let topic_hash = read_u64_le(b, 8);
        if magic != UDP_MAGIC || version != UDP_VERSION {
            return None;
        }
        Some(FrameHeader { magic, version, flags, payload_len, topic_hash })
    }

    /// Topic hash as a host value.
    pub fn topic_hash_host(&self) -> (r: u64)
        ensures
            r == self.topic_hash,
    {
        self.topic_hash
    }

    /// Payload length as a host value.
    pub fn payload_len_host(&self) -> (r: u16)
        ensures
            r == self.payload_len,
    {
        self.payload_len
    }
}

/// Compute the FNV-1a hash of a topic name's bytes.
pub fn topic_hash(topic: &str) -> (h: u64)
    ensures
        h == fnv1a(topic.spec_bytes()),
{
    let bytes = topic.as_bytes();
    let mut h: u64 = FNV_OFFSET;
    let mut i: usize = 0;
    while i < bytes.len()
        invariant
            i <= bytes@.len(),
            bytes@ == topic.spec_bytes(),
            h == fnv1a(bytes@.subrange(0, i as int)),
        decreases bytes@.len() - i,
    {
        let ghost prefix = bytes@.subrange(0, i + 1);
        assert(prefix.drop_last() =~= bytes@.subrange(0, i as int));
        h = h ^ (bytes[i] as u64);
        h = h.wrapping_mul(FNV_PRIME);
        i = i + 1;
    }
    assert(bytes@.subrange(0, i as int) =~= bytes@);
    h
}

/// A header that this library builds reads back as itself.
pub proof fn lemma_frame_round_trip(h: FrameHeader)
    requires
        h.magic == UDP_MAGIC,
        h.version == UDP_VERSION,
    ensures
        spec_frame_from_bytes(spec_frame_bytes(h)) == Some(h),
{
    let e = spec_frame_bytes(h);
    lemma_u32_le_round_trip(h.magic);
    lemma_u16_le_round_trip(h.payload_len);
    lemma_u64_le_round_trip(h.topic_hash);
    assert(e.subrange(0, 4) =~= u32_le_bytes(h.magic));
    assert(e.subrange(6, 8) =~= u16_le_bytes(h.payload_len));
    assert(e.subrange(8, 16) =~= u64_le_bytes(h.topic_hash));
}

/// Sixteen bytes that read as a header are exactly that header's bytes.
pub proof fn lemma_frame_bytes_canonical(b: Seq<u8>)
    requires
        b.len() == HEADER_SIZE,
        spec_frame_from_bytes(b) is Some,
    ensures
        spec_frame_bytes(spec_frame_from_bytes(b)->0) == b,
{
    let h = spec_frame_from_bytes(b)->0;
    lemma_u32_bytes_round_trip(b.subrange(0, 4));
    lemma_u16_bytes_round_trip(b.subrange(6, 8));
    lemma_u64_bytes_round_trip(b.subrange(8, 16));
    assert(spec_frame_bytes(h) =~= b);
}

} // verus!
