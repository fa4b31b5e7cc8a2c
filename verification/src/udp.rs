//! UDP unicast and multicast framing for inter-host APEX communication:
//! the fixed 16-byte frame header, the datagram layout and its acceptance
//! rules, and the derivation of multicast groups from topic names.
pub mod datagram;
pub mod frame;
pub mod multicast;
