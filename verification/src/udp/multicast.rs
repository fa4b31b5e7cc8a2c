//! Derivation of a multicast group from a topic name.
use vstd::prelude::*;
use vstd::string::*;
use crate::udp::frame::{fnv1a, topic_hash};

verus! {

/// The first octet of every group: 239.0.0.0/8 is administratively scoped
/// (RFC 2365).
pub const ADMIN_SCOPE_OCTET: u8 = 239;

/// An IPv4 multicast group address, by its four octets.
#[derive(Debug, Clone, Copy, PartialEq, Eq)]
pub struct GroupAddrV4 {
    /// The address octets, most significant first.
    pub addr: [u8; 4],
}

impl GroupAddrV4 {
    /// The four octets of the address.
    pub fn octets(&self) -> (r: [u8; 4])
        ensures
            r == self.addr,
    {
        self.addr
    }
}

/// The group of the topic whose bytes are `bytes`: 239 followed by the
/// three low bytes of the low 32 bits of the topic's FNV-1a hash, most
/// significant first.
pub open spec fn spec_group_octets(bytes: Seq<u8>) -> Seq<u8> {
    let h = fnv1a(bytes) as u32;
    seq![ADMIN_SCOPE_OCTET, (h >> 16u32) as u8, (h >> 8u32) as u8, h as u8]
}

/// Derive an administratively scoped multicast IPv4 address for `topic`.
pub fn multicast_group_for_topic(topic: &str) -> (g: GroupAddrV4)
    ensures
        g.addr@ == spec_group_octets(topic.spec_bytes()),
{
    let h = topic_hash(topic) as u32;
    let addr: [u8; 4] = [ADMIN_SCOPE_OCTET, (h >> 16u32) as u8, (h >> 8u32) as u8, h as u8];
    let g = GroupAddrV4 { addr };
    assert(g.addr@ =~= spec_group_octets(topic.spec_bytes()));
    g
}

} // verus!
