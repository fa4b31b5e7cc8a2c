//! Errors of the shared-memory transport.
use vstd::prelude::*;
use crate::shm::ring::{MAX_SLOT_PAYLOAD, MAX_TOPIC_LEN};
use crate::sys::io_error_text;
use crate::text::{dec_text, push_dec, push_str, text};

verus! {

/// All errors that can originate from the shared-memory transport.
#[derive(Debug)]
#[allow(inconsistent_fields)]
pub enum ShmError {
    /// The topic name exceeds [`MAX_TOPIC_LEN`] bytes.
    TopicNameTooLong { len: usize },
    /// Failed to open or create the POSIX shared memory object.
    ShmOpen { name: String, source: std::io::Error },
    /// `ftruncate` failed when sizing the segment.
    Truncate { source: std::io::Error },
    /// `mmap` returned an error.
    Mmap { source: std::io::Error },
    /// The segment exists but has an incompatible layout.
    LayoutMismatch { found: u32, expected: u32 },
    /// The ring buffer is full; the publisher must back off.
    RingFull,
    /// The subscriber has no new data (non-blocking read).
    NoData,
    /// The payload exceeds [`MAX_SLOT_PAYLOAD`] bytes.
    PayloadTooLarge { len: usize },
    /// An underlying OS error not covered by the variants above.
    Os { source: std::io::Error },
    /// Every subscriber position of the segment is held: no more
    /// subscribers can attach.
    TooManySubscribers { max: usize },
}

impl ShmError {
    /// The message of this error, where `source` stands for the rendering
    /// of its underlying I/O error (unused by the variants that have none).
    pub open spec fn spec_message(&self, source: Seq<char>) -> Seq<char> {
        match self {
            ShmError::TopicNameTooLong { len } => "topic name too long: "@ + dec_text(*len as nat)
                + " bytes (max "@ + dec_text(MAX_TOPIC_LEN as nat) + ")"@,
            ShmError::ShmOpen { name, .. } => "shm_open failed for '"@ + name@ + "': "@ + source,
            ShmError::Truncate { .. } => "ftruncate failed: "@ + source,
            ShmError::Mmap { .. } => "mmap failed: "@ + source,
            ShmError::LayoutMismatch { found, expected } => "SHM layout version mismatch: found "@
                + dec_text(*found as nat) + ", expected "@ + dec_text(*expected as nat),
            ShmError::RingFull => "ring buffer full: publisher must back off"@,
            ShmError::NoData => "no new data available (non-blocking)"@,
            ShmError::PayloadTooLarge { len } => "payload too large: "@ + dec_text(*len as nat)
                + " bytes (max "@ + dec_text(MAX_SLOT_PAYLOAD as nat) + ")"@,
            ShmError::Os { .. } => "OS error: "@ + source,
            ShmError::TooManySubscribers { max } => "too many subscribers attached (max "@
                + dec_text(*max as nat) + ")"@,
        }
    }

    /// The human-readable message of this error, given the text
    /// `source_text` of its underlying I/O error (unused by the variants
    /// that have none).
    pub fn message_with_source(&self, source_text: &str) -> (s: String)
        ensures
            s@ == self.spec_message(source_text@),
    {
        match self {
            ShmError::TopicNameTooLong { len } => {
                let mut s = text("topic name too long: ");
                push_dec(&mut s, *len as u128);
                push_str(&mut s, " bytes (max ");
                push_dec(&mut s, MAX_TOPIC_LEN as u128);
                push_str(&mut s, ")");
                s
            },
            ShmError::ShmOpen { name, .. } => {
                let mut s = text("shm_open failed for '");
                push_str(&mut s, name.as_str());
                push_str(&mut s, "': ");
                push_str(&mut s, source_text);
                s
            },
            ShmError::Truncate { .. } => {
                let mut s = text("ftruncate failed: ");
                push_str(&mut s, source_text);
                s
            },
            ShmError::Mmap { .. } => {
                let mut s = text("mmap failed: ");
                push_str(&mut s, source_text);
                s
            },
            ShmError::LayoutMismatch { found, expected } => {
                let mut s = text("SHM layout version mismatch: found ");
                push_dec(&mut s, *found as u128);
                push_str(&mut s, ", expected ");
                push_dec(&mut s, *expected as u128);
                s
            },
            ShmError::RingFull => {
                text("ring buffer full: publisher must back off")
            },
            ShmError::NoData => {
                text("no new data available (non-blocking)")
            },
            ShmError::PayloadTooLarge { len } => {
                let mut s = text("payload too large: ");
                push_dec(&mut s, *len as u128);
                push_str(&mut s, " bytes (max ");
                push_dec(&mut s, MAX_SLOT_PAYLOAD as u128);
                push_str(&mut s, ")");
                s
            },
            ShmError::Os { .. } => {
                let mut s = text("OS error: ");
                push_str(&mut s, source_text);
                s
            },
            ShmError::TooManySubscribers { max } => {
                let mut s = text("too many subscribers attached (max ");
                push_dec(&mut s, *max as u128);
                push_str(&mut s, ")");
                s
            },
        }
    }

    /// The human-readable message of this error: the message with the
    /// text of its underlying I/O error, as that error renders itself.
    pub fn to_string(&self) -> (s: String)
        ensures
            exists|source: Seq<char>| s@ == self.spec_message(source),
    {
        match self.source() {
            Some(e) => {
                let t = io_error_text(e);
                self.message_with_source(t.as_str())
            },
            None => self.message_with_source(""),
        }
    }

    /// The underlying I/O error, for the variants that carry one.
    pub fn source(&self) -> (r: Option<&std::io::Error>)
        ensures
            match self {
                ShmError::ShmOpen { source, .. } => r == Some(source),
                ShmError::Truncate { source } => r == Some(source),
                ShmError::Mmap { source } => r == Some(source),
                ShmError::Os { source } => r == Some(source),
                _ => r is None,
            },
    {
        match self {
            ShmError::ShmOpen { source, .. } => Some(source),
            ShmError::Truncate { source } => Some(source),
            ShmError::Mmap { source } => Some(source),
            ShmError::Os { source } => Some(source),
            _ => None,
        }
    }
}

} // verus!
