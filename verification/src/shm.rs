//! Shared-memory transport for intra-host communication: one ring buffer
//! of fixed-size slots per topic, written by a single publisher and read by
//! up to [`ring::MAX_SUBSCRIBERS`] subscribers, each of which tracks its own
//! position and shows it to the publisher, so that a slow subscriber holds
//! the publisher back instead of missing messages.
//!
//! The segment itself is mapped by the application; this module holds the
//! layout constants, the header validation, the naming of segments, and
//! every decision the publisher and the subscribers make on the ring.
pub mod channel;
pub mod error;
pub mod ring;
