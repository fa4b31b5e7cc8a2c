//! The fixed-size, version-aware header that precedes every APEX message.
use vstd::prelude::*;
use crate::bytes::{
    lemma_u16_bytes_round_trip, lemma_u16_le_round_trip, lemma_u32_bytes_round_trip,
    lemma_u32_le_round_trip, lemma_u64_bytes_round_trip, lemma_u64_le_round_trip, read_u16_le,
    read_u32_le, read_u64_le, u16_from_le, u16_le_bytes, u32_from_le, u32_le_bytes, u64_from_le,
    u64_le_bytes,
};

verus! {

/// First byte of the magic that identifies an APEX wire frame.
pub const APEX_MAGIC_0: u8 = 0xAE;

/// Second byte of the magic that identifies an APEX wire frame ('X').
pub const APEX_MAGIC_1: u8 = 0x58;

/// Magic bytes that identify an APEX wire frame.
pub const APEX_MAGIC: [u8; 2] = [APEX_MAGIC_0, APEX_MAGIC_1];

/// Current wire protocol version.
pub const WIRE_VERSION: u8 = 1;

/// Total size of the wire header in bytes.
pub const HEADER_SIZE: usize = 22;

/// Bit flags in the wire header flags byte.
#[derive(Debug, Clone, Copy, PartialEq, Eq, Structural)]
pub struct WireFlags(pub u8);

impl WireFlags {
    /// The bit of the checksum flag: the payload is followed by a 4-byte CRC32 checksum.
    pub const CHECKSUM_BIT: u8 = 1;

    /// The bit of the compression flag (reserved, not yet active).
    pub const COMPRESSED_BIT: u8 = 2;

    /// The bit of the fragmentation flag: the message is part of a fragmented sequence.
    pub const FRAGMENTED_BIT: u8 = 4;

    /// The bit of the last-fragment flag: this is the last fragment in a sequence.
    pub const LAST_FRAGMENT_BIT: u8 = 8;

    /// No flags set.
    pub fn none() -> (r: WireFlags)
        ensures
            r.0 == 0,
    {
        WireFlags(0)
    }

    /// Only the checksum flag set.
    pub fn checksum() -> (r: WireFlags)
        ensures
            r.0 == Self::CHECKSUM_BIT,
    {
        WireFlags(Self::CHECKSUM_BIT)
    }

    /// Only the compression flag set.
    pub fn compressed() -> (r: WireFlags)
        ensures
            r.0 == Self::COMPRESSED_BIT,
    {
        WireFlags(Self::COMPRESSED_BIT)
    }

    /// Only the fragmentation flag set.
    pub fn fragmented() -> (r: WireFlags)
        ensures
            r.0 == Self::FRAGMENTED_BIT,
    {
        WireFlags(Self::FRAGMENTED_BIT)
    }

    /// Only the last-fragment flag set.
    pub fn last_fragment() -> (r: WireFlags)
        ensures
            r.0 == Self::LAST_FRAGMENT_BIT,
    {
        WireFlags(Self::LAST_FRAGMENT_BIT)
    }

    /// Whether any bit of `mask` is set in this flags byte.
    pub open spec fn spec_has(self, mask: u8) -> bool {
        self.0 & mask != 0
    }

    /// Whether the checksum bit is set.
    pub fn has_checksum(self) -> (r: bool)
        ensures
            r == self.spec_has(1),
    {
        (self.0 & 1) != 0
    }

    /// Whether the compression bit is set.
    pub fn has_compression(self) -> (r: bool)
        ensures
            r == self.spec_has(2),
    {
        (self.0 & 2) != 0
    }

    /// Whether the fragmented bit is set.
    pub fn is_fragmented(self) -> (r: bool)
        ensures
            r == self.spec_has(4),
    {
        (self.0 & 4) != 0
    }

    /// Whether the last-fragment bit is set.
    pub fn is_last_fragment(self) -> (r: bool)
        ensures
            r == self.spec_has(8),
    {
        (self.0 & 8) != 0
    }

    /// These flags together with those of `flag`.
    pub fn set(self, flag: WireFlags) -> (r: WireFlags)
        ensures
            r.0 == self.0 | flag.0,
    {
        WireFlags(self.0 | flag.0)
    }
}

/// Setting flags keeps every bit that was set and adds exactly the bits of
/// `flag`: a single-bit query on the result is true iff it was true on
/// either operand.
pub proof fn lemma_flags_set(f: WireFlags, flag: WireFlags, mask: u8)
    requires
        mask == 1 || mask == 2 || mask == 4 || mask == 8,
    ensures
        WireFlags(f.0 | flag.0).spec_has(mask) == (f.spec_has(mask) || flag.spec_has(mask)),
{
    let a = f.0;
    let b = flag.0;
    assert((mask == 1u8 || mask == 2u8 || mask == 4u8 || mask == 8u8) ==> (((a | b) & mask != 0)
        == ((a & mask != 0) || (b & mask != 0)))) by (bit_vector);
}

/// The APEX wire header.
#[derive(Debug, Clone, PartialEq, Eq, Structural)]
pub struct WireHeader {
    /// Identifies the message type.
    pub type_id: u32,
    /// Schema version of the message type at publish time.
    pub schema_version: u16,
    /// Fingerprint of the schema at publish time, for mismatch detection.
    pub schema_hash: u64,
    /// Behavioral flags for this frame.
    pub flags: WireFlags,
    /// Byte length of the payload that follows this header.
    pub payload_length: u32,
}

/// The 22 bytes that encode `h`.
pub open spec fn spec_encode_header(h: WireHeader) -> Seq<u8> {
    seq![APEX_MAGIC_0, APEX_MAGIC_1, WIRE_VERSION] + u32_le_bytes(h.type_id) + u16_le_bytes(
        h.schema_version,
    ) + u64_le_bytes(h.schema_hash) + seq![h.flags.0] + u32_le_bytes(h.payload_length)
}

/// The header that `buf` starts with, if it starts with a valid one:
/// at least 22 bytes, the magic, and the current wire version.
pub open spec fn spec_decode_header(buf: Seq<u8>) -> Option<WireHeader> {
    if buf.len() < HEADER_SIZE || buf[0] != APEX_MAGIC_0 || buf[1] != APEX_MAGIC_1 || buf[2]
        != WIRE_VERSION {
        None
    } else {
        Some(
            WireHeader {
                type_id: u32_from_le(buf.subrange(3, 7)),
                schema_version: u16_from_le(buf.subrange(7, 9)),
                schema_hash: u64_from_le(buf.subrange(9, 17)),
                flags: WireFlags(buf[17]),
                payload_length: u32_from_le(buf.subrange(18, 22)),
            },
        )
    }
}

impl WireHeader {
    /// Serialize this header into its fixed 22-byte form.
    pub fn encode(&self) -> (r: [u8; HEADER_SIZE])
        ensures
            r@ == spec_encode_header(*self),
    {
        let t = self.type_id;
        let v = self.schema_version;
        let s = self.schema_hash;
        let p = self.payload_length;
        let r: [u8; HEADER_SIZE] = [
            APEX_MAGIC_0,
            APEX_MAGIC_1,
            WIRE_VERSION,
            t as u8,
            (t >> 8u32) as u8,
            (t >> 16u32) as u8,
            (t >> 24u32) as u8,
            v as u8,
            (v >> 8u16) as u8,
            s as u8,
            (s >> 8u64) as u8,
            (s >> 16u64) as u8,
            (s >> 24u64) as u8,
            (s >> 32u64) as u8,
            (s >> 40u64) as u8,
            (s >> 48u64) as u8,
            (s >> 56u64) as u8,
            self.flags.0,
            p as u8,
            (p >> 8u32) as u8,
            (p >> 16u32) as u8,
            (p >> 24u32) as u8,
        ];
        assert(r@ =~= spec_encode_header(*self));
        r
    }

    /// Deserialize a header from the start of `buf`.
    ///
    /// Returns `None` if `buf` is shorter than the header, or the magic or
    /// version is invalid; callers treat `None` as a protocol violation.
    pub fn decode(buf: &[u8]) -> (r: Option<WireHeader>)
        ensures
            r == spec_decode_header(buf@),
    {
        if buf.len() < HEADER_SIZE {
            return None;
        }
        if buf[0] != APEX_MAGIC_0 || buf[1] != APEX_MAGIC_1 {
            return None;
        }
        if buf[2] != WIRE_VERSION {
            return None;
        }
        let type_id = read_u32_le(buf, 3);
        let schema_version = read_u16_le(buf, 7);
        let schema_hash = read_u64_le(buf, 9);
        let flags = WireFlags(buf[17]);
        let payload_length = read_u32_le(buf, 18);
        Some(WireHeader { type_id, schema_version, schema_hash, flags, payload_length })
    }
}

/// Decoding an encoded header gives the header back.
pub proof fn lemma_header_round_trip(h: WireHeader)
    ensures
        spec_decode_header(spec_encode_header(h)) == Some(h),
{
    let e = spec_encode_header(h);
    lemma_u32_le_round_trip(h.type_id);
    lemma_u16_le_round_trip(h.schema_version);
    lemma_u64_le_round_trip(h.schema_hash);
    lemma_u32_le_round_trip(h.payload_length);
    assert(e.subrange(3, 7) =~= u32_le_bytes(h.type_id));
    assert(e.subrange(7, 9) =~= u16_le_bytes(h.schema_version));
    assert(e.subrange(9, 17) =~= u64_le_bytes(h.schema_hash));
    assert(e.subrange(18, 22) =~= u32_le_bytes(h.payload_length));
}

/// A buffer that decodes to a header starts with that header's encoding:
/// the encoding is the only 22-byte form of each header.
pub proof fn lemma_decode_then_encode(buf: Seq<u8>)
    requires
        spec_decode_header(buf) is Some,
    ensures
        spec_encode_header(spec_decode_header(buf)->0) == buf.subrange(0, HEADER_SIZE as int),
{
    let h = spec_decode_header(buf)->0;
    lemma_u32_bytes_round_trip(buf.subrange(3, 7));
    lemma_u16_bytes_round_trip(buf.subrange(7, 9));
    lemma_u64_bytes_round_trip(buf.subrange(9, 17));
    lemma_u32_bytes_round_trip(buf.subrange(18, 22));
    assert(spec_encode_header(h) =~= buf.subrange(0, HEADER_SIZE as int));
}

} // verus!
