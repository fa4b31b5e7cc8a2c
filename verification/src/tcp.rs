//! Reliable ordered TCP framing for inter-host APEX communication.
//!
//! Each stream carries a sequence of length-prefixed APEX frames:
//! `[u32 frame_len_le] [FrameHeader (16 B)] [payload (frame_len - 16 B)]`,
//! where `frame_len` counts the header and payload but not the prefix.
pub mod codec;
pub mod error;
pub mod timeout;
