//! Length-prefix framing of APEX frames on a byte stream.
use vstd::prelude::*;
use crate::bytes::{append_bytes, copy_range, lemma_u32_le_round_trip, u32_from_le, u32_le_bytes};
use crate::tcp::error::TcpError;

verus! {

/// Maximum payload size per TCP frame (bytes).
pub const MAX_TCP_PAYLOAD: usize = 1_048_576;

/// Default read timeout for blocking TCP operations.
pub const DEFAULT_READ_TIMEOUT_MS: u64 = 5_000;

/// Default write timeout for blocking TCP operations.
pub const DEFAULT_WRITE_TIMEOUT_MS: u64 = 5_000;

/// TCP keepalive idle time in seconds.
pub const TCP_KEEPALIVE_IDLE_SECS: u64 = 10;

/// Size of the length prefix in bytes.
pub const LEN_PREFIX: usize = 4;

/// Size of the APEX frame header that every frame carries.
pub const FRAME_HEADER_SIZE: usize = 16;

/// The bytes of one frame: the length prefix (header plus payload length),
/// the 16 header bytes, then the payload.
pub open spec fn spec_frame(header: Seq<u8>, payload: Seq<u8>) -> Seq<u8> {
    u32_le_bytes((FRAME_HEADER_SIZE + payload.len()) as u32) + header + payload
}

/// The frame length announced by the prefix at the start of `input`.
pub open spec fn spec_declared_len(input: Seq<u8>) -> u32 {
    u32_from_le(input.subrange(0, LEN_PREFIX as int))
}

/// Whether a frame length is one that a reader accepts: room for the
/// header, and a payload of at most [`MAX_TCP_PAYLOAD`] bytes.
pub open spec fn spec_len_acceptable(len: u32) -> bool {
    FRAME_HEADER_SIZE <= len <= FRAME_HEADER_SIZE + MAX_TCP_PAYLOAD
}

/// How reading one frame from the stream whose remaining bytes are `input`
/// ends.
pub enum FrameStatus {
    /// A whole frame is there.
    Complete,
    /// The stream ends before the frame does.
    Closed,
    /// The prefix announces a length that is out of bounds.
    TooLarge,
}

/// How reading one frame from `input` ends.
pub open spec fn spec_frame_status(input: Seq<u8>) -> FrameStatus {
    if input.len() < LEN_PREFIX {
        FrameStatus::Closed
    } else if !spec_len_acceptable(spec_declared_len(input)) {
        FrameStatus::TooLarge
    } else if input.len() < LEN_PREFIX + spec_declared_len(input) {
        FrameStatus::Closed
    } else {
        FrameStatus::Complete
    }
}

/// A stream of bytes held in memory, read from the front.
pub struct ByteStream {
    data: Vec<u8>,
    pos: usize,
}

impl ByteStream {
    #[verifier::type_invariant]
    spec fn inv(&self) -> bool {
        self.pos <= self.data@.len()
    }

    /// The bytes not read yet.
    pub closed spec fn remaining(&self) -> Seq<u8> {
        self.data@.subrange(self.pos as int, self.data@.len() as int)
    }

    /// A stream that yields `data` from the start.
    pub fn new(data: Vec<u8>) -> (r: ByteStream)
        ensures
            r.remaining() == data@,
    {
        let r = ByteStream { data, pos: 0 };
        assert(r.remaining() =~= data@);
        r
    }

    /// Number of bytes not read yet.
    pub fn remaining_len(&self) -> (n: usize)
        ensures
            n == self.remaining().len(),
    {
        proof {
            use_type_invariant(self);
        }
        self.data.len() - self.pos
    }

    /// Read up to `n` bytes: all of them if there are that many left,
    /// otherwise whatever is left (nothing at the end of the stream).
    fn read_up_to(&mut self, n: usize) -> (r: Vec<u8>)
        ensures
            r@.len() == if n <= old(self).remaining().len() {
                n as int
            } else {
                old(self).remaining().len() as int
            },
            r@ == old(self).remaining().subrange(0, r@.len() as int),
            final(self).remaining() == old(self).remaining().subrange(
                r@.len() as int,
                old(self).remaining().len() as int,
            ),
    {
        proof {
            use_type_invariant(&*self);
        }
        let avail = self.data.len() - self.pos;
        let take = if n <= avail {
            n
        } else {
            avail
        };
        let r = copy_range(self.data.as_slice(), self.pos, self.pos + take);
        self.pos = self.pos + take;
        assert(r@ =~= old(self).remaining().subrange(0, r@.len() as int));
        assert(self.remaining() =~= old(self).remaining().subrange(
            r@.len() as int,
            old(self).remaining().len() as int,
        ));
        r
    }
}

/// Read exactly `n` bytes from `reader`.
///
/// Returns [`TcpError::ConnectionClosed`] when the stream ends first; the
/// bytes that were there are consumed.
fn read_exact(reader: &mut ByteStream, n: usize) -> (r: Result<Vec<u8>, TcpError>)
    ensures
        match r {
            Ok(bytes) => n <= old(reader).remaining().len() && bytes@ == old(reader).remaining().subrange(0, n as int) && final(reader).remaining() == old(reader).remaining().subrange(n as int, old(reader).remaining().len() as int),
            Err(e) => e is ConnectionClosed && n > old(reader).remaining().len()
                && final(reader).remaining() == Seq::<u8>::empty(),
        },
{
    let bytes = reader.read_up_to(n);
    if bytes.len() < n {
        assert(reader.remaining() =~= Seq::<u8>::empty());
        return Err(TcpError::ConnectionClosed);
    }
    Ok(bytes)
}

/// The payload length announced by a length prefix, if the frame length it
/// holds is acceptable; [`TcpError::FrameTooLarge`] otherwise.
pub fn parse_length_prefix(prefix: &[u8; 4]) -> (r: Result<usize, TcpError>)
    ensures
        match r {
            Ok(payload_len) => spec_len_acceptable(u32_from_le(prefix@)) && payload_len
                == u32_from_le(prefix@) - FRAME_HEADER_SIZE,
            Err(TcpError::FrameTooLarge { len }) => !spec_len_acceptable(u32_from_le(prefix@))
                && len == u32_from_le(prefix@),
            Err(_) => false,
        },
{
    let b: &[u8] = prefix.as_slice();
    let frame_len = crate::bytes::read_u32_le(b, 0);
    assert(b@.subrange(0, 4) =~= prefix@);
    if frame_len as usize > FRAME_HEADER_SIZE + MAX_TCP_PAYLOAD {
        return Err(TcpError::FrameTooLarge { len: frame_len });
    }
    if (frame_len as usize) < FRAME_HEADER_SIZE {
        return Err(TcpError::FrameTooLarge { len: frame_len });
    }
    Ok(frame_len as usize - FRAME_HEADER_SIZE)
}

/// Encode an APEX frame (header and payload) with its 4-byte length prefix
/// and append it to `writer`.
pub fn encode_frame(writer: &mut Vec<u8>, header_bytes: &[u8; 16], payload: &[u8]) -> (r: Result<
    (),
    TcpError,
>)
    ensures
        match r {
            Ok(()) => payload@.len() <= MAX_TCP_PAYLOAD && final(writer)@ == old(writer)@
                + spec_frame(header_bytes@, payload@),
            Err(TcpError::PayloadTooLarge { len }) => payload@.len() > MAX_TCP_PAYLOAD && len
                == payload@.len() && final(writer)@ == old(writer)@,
            Err(_) => false,
        },
{
    if payload.len() > MAX_TCP_PAYLOAD {
        return Err(TcpError::PayloadTooLarge { len: payload.len() });
    }
    let frame_len = (FRAME_HEADER_SIZE + payload.len()) as u32;
    let prefix: [u8; 4] = [
        frame_len as u8,
        (frame_len >> 8u32) as u8,
        (frame_len >> 16u32) as u8,
        (frame_len >> 24u32) as u8,
    ];
    let ghost start = writer@;
    append_bytes(writer, prefix.as_slice());
    append_bytes(writer, header_bytes.as_slice());
    append_bytes(writer, payload);
    assert(writer@ =~= start + spec_frame(header_bytes@, payload@));
    Ok(())
}

/// Where a decoder is in reading one frame.
pub enum FrameStage {
    /// Waiting for the 4-byte length prefix.
    Prefix,
    /// Waiting for the 16 header bytes of a frame with `payload_len` bytes
    /// of payload.
    Header { payload_len: usize },
    /// Waiting for the `payload_len` payload bytes of a frame whose header
    /// is `header`.
    Payload { header: [u8; 16], payload_len: usize },
}

/// The decoding of one frame from a byte stream, step by step: the caller
/// reads the number of bytes the decoder asks for and feeds them to it,
/// until it hands out a frame or an error.
pub struct FrameDecoder {
    /// Where the decoder is.
    pub stage: FrameStage,
}

/// How many bytes a decoder in `stage` needs next.
pub open spec fn spec_need(stage: FrameStage) -> usize {
    match stage {
        FrameStage::Prefix => LEN_PREFIX,
        FrameStage::Header { .. } => FRAME_HEADER_SIZE,
        FrameStage::Payload { payload_len, .. } => payload_len,
    }
}

impl FrameDecoder {
    /// A decoder at the start of a frame.
    pub fn new() -> (d: FrameDecoder)
        ensures
            d.stage is Prefix,
    {
        FrameDecoder { stage: FrameStage::Prefix }
    }

    /// How many bytes the decoder needs next.
    pub fn need(&self) -> (n: usize)
        ensures
            n == spec_need(self.stage),
    {
        match self.stage {
            FrameStage::Prefix => LEN_PREFIX,
            FrameStage::Header { .. } => FRAME_HEADER_SIZE,
            FrameStage::Payload { payload_len, .. } => payload_len,
        }
    }

    /// Feed the decoder the bytes it asked for.
    ///
    /// On the prefix: a frame length shorter than a header or longer than a
    /// header and [`MAX_TCP_PAYLOAD`] is [`TcpError::FrameTooLarge`] (and the
    /// decoder starts over); otherwise it waits for the header. On the
    /// header: a frame without payload is complete; otherwise it waits for
    /// the payload. On the payload: the frame is complete. A complete frame
    /// is handed out and the decoder starts over.
    pub fn feed(&mut self, bytes: &[u8]) -> (r: Result<Option<([u8; 16], Vec<u8>)>, TcpError>)
        requires
            bytes@.len() == spec_need(old(self).stage),
        ensures
            match old(self).stage {
                FrameStage::Prefix => {
                    let len = u32_from_le(bytes@);
                    if spec_len_acceptable(len) {
                        r matches Ok(None) && final(self).stage matches FrameStage::Header {
                            payload_len,
                        } && payload_len == len - FRAME_HEADER_SIZE
                    } else {
                        r matches Err(TcpError::FrameTooLarge { len: announced }) && announced
                            == len && final(self).stage is Prefix
                    }
                },
                FrameStage::Header { payload_len } => if payload_len == 0 {
                    r matches Ok(Some((header, payload))) && header@ == bytes@ && payload@
                        == Seq::<u8>::empty() && final(self).stage is Prefix
                } else {
                    r matches Ok(None) && final(self).stage matches FrameStage::Payload {
                        header,
                        payload_len: len,
                    } && header@ == bytes@ && len == payload_len
                },
                FrameStage::Payload { header, .. } => r matches Ok(Some((h, payload))) && h
                    == header && payload@ == bytes@ && final(self).stage is Prefix,
            },
    {
        match self.stage {
            FrameStage::Prefix => {
                let prefix: [u8; 4] = [bytes[0], bytes[1], bytes[2], bytes[3]];
                assert(prefix@ =~= bytes@);
                match parse_length_prefix(&prefix) {
                    Ok(payload_len) => {
                        self.stage = FrameStage::Header { payload_len };
                        Ok(None)
                    },
                    Err(e) => Err(e),
                }
            },
            FrameStage::Header { payload_len } => {
                let header: [u8; 16] = [
                    bytes[0],
                    bytes[1],
                    bytes[2],
                    bytes[3],
                    bytes[4],
                    bytes[5],
                    bytes[6],
                    bytes[7],
                    bytes[8],
                    bytes[9],
                    bytes[10],
                    bytes[11],
                    bytes[12],
                    bytes[13],
                    bytes[14],
                    bytes[15],
                ];
                assert(header@ =~= bytes@);
                if payload_len == 0 {
                    self.stage = FrameStage::Prefix;
                    Ok(Some((header, Vec::new())))
                } else {
                    self.stage = FrameStage::Payload { header, payload_len };
                    Ok(None)
                }
            },
            FrameStage::Payload { header, .. } => {
                let payload = copy_range(bytes, 0, bytes.len());
                assert(bytes@.subrange(0, bytes@.len() as int) =~= bytes@);
                self.stage = FrameStage::Prefix;
                Ok(Some((header, payload)))
            },
        }
    }
}

/// Decode one APEX frame from `reader`: returns the header bytes and the
/// payload.
///
/// Returns [`TcpError::ConnectionClosed`] when the stream ends before the
/// frame does (everything left is consumed), and
/// [`TcpError::FrameTooLarge`] when the prefix announces a frame length
/// shorter than a header or longer than a header and [`MAX_TCP_PAYLOAD`]
/// (only the prefix is consumed).
pub fn decode_frame(reader: &mut ByteStream) -> (r: Result<([u8; 16], Vec<u8>), TcpError>)
    ensures
        ({
            let input = old(reader).remaining();
            let len = spec_declared_len(input);
            match r {
                Ok((header, payload)) => spec_frame_status(input) is Complete && header@
                    == input.subrange(LEN_PREFIX as int, LEN_PREFIX + FRAME_HEADER_SIZE)
                    && payload@ == input.subrange(LEN_PREFIX + FRAME_HEADER_SIZE, LEN_PREFIX + len)
                    && final(reader).remaining() == input.subrange(
                    LEN_PREFIX + len,
                    input.len() as int,
                ),
                Err(TcpError::ConnectionClosed) => spec_frame_status(input) is Closed && final(reader).remaining() == Seq::<u8>::empty(),
                Err(TcpError::FrameTooLarge { len: announced }) => spec_frame_status(input) is TooLarge
                    && announced == len && final(reader).remaining() == input.subrange(
                    LEN_PREFIX as int,
                    input.len() as int,
                ),
                Err(_) => false,
            }
        }),
{
    let ghost input = reader.remaining();
    let mut decoder = FrameDecoder::new();
    let prefix = read_exact(reader, decoder.need())?;
    assert(prefix@ =~= input.subrange(0, LEN_PREFIX as int));
    match decoder.feed(prefix.as_slice()) {
        Ok(_) => {},
        Err(e) => {
            return Err(e);
        },
    }
    let header_bytes = read_exact(reader, decoder.need())?;
    let first = match decoder.feed(header_bytes.as_slice()) {
        Ok(f) => f,
        Err(e) => {
            return Err(e);
        },
    };
    let frame = match first {
        Some(f) => f,
        None => {
            let payload = read_exact(reader, decoder.need())?;
            match decoder.feed(payload.as_slice()) {
                Ok(Some(f)) => f,
                _ => {
                    // The payload stage always completes the frame.
                    proof {
                        assert(false);
                    }
                    return Err(TcpError::ConnectionClosed);
                },
            }
        },
    };
    assert(frame.0@ =~= input.subrange(LEN_PREFIX as int, LEN_PREFIX + FRAME_HEADER_SIZE));
    assert(frame.1@ =~= input.subrange(
        LEN_PREFIX + FRAME_HEADER_SIZE,
        LEN_PREFIX + spec_declared_len(input),
    ));
    assert(reader.remaining() =~= input.subrange(
        LEN_PREFIX + spec_declared_len(input),
        input.len() as int,
    ));
    Ok(frame)
}

/// A frame that was encoded decodes to the same header and payload, and
/// reading it consumes exactly its bytes: whatever follows is left for the
/// next read.
pub proof fn lemma_frame_round_trip(header: Seq<u8>, payload: Seq<u8>, rest: Seq<u8>)
    requires
        header.len() == FRAME_HEADER_SIZE,
        payload.len() <= MAX_TCP_PAYLOAD,
    ensures
        ({
            let input = spec_frame(header, payload) + rest;
            let len = spec_declared_len(input);
            &&& spec_frame_status(input) is Complete
            &&& len == FRAME_HEADER_SIZE + payload.len()
            &&& input.subrange(LEN_PREFIX as int, LEN_PREFIX + FRAME_HEADER_SIZE) == header
            &&& input.subrange(LEN_PREFIX + FRAME_HEADER_SIZE, LEN_PREFIX + len) == payload
            &&& input.subrange(LEN_PREFIX + len, input.len() as int) == rest
        }),
{
    let n = (FRAME_HEADER_SIZE + payload.len()) as u32;
    let input = spec_frame(header, payload) + rest;
    lemma_u32_le_round_trip(n);
    assert(input.subrange(0, LEN_PREFIX as int) =~= u32_le_bytes(n));
    assert(input.subrange(LEN_PREFIX as int, LEN_PREFIX + FRAME_HEADER_SIZE) =~= header);
    assert(input.subrange(LEN_PREFIX + FRAME_HEADER_SIZE, LEN_PREFIX + FRAME_HEADER_SIZE
        + payload.len()) =~= payload);
    assert(input.subrange(LEN_PREFIX + FRAME_HEADER_SIZE + payload.len(), input.len() as int)
        =~= rest);
}

} // verus!
