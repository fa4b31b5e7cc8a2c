//! The APEX binary wire format.
//!
//! Every serialized message is preceded by a fixed 22-byte header:
//! magic (2 B), wire version (1 B), type id (4 B), schema version (2 B),
//! schema hash (8 B), flags (1 B) and payload length (4 B), all
//! multi-byte fields little-endian.
pub mod header;
