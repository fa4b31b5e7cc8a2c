//! Identity primitives: strongly typed identifiers for nodes, topics,
//! sessions, peers, hosts and messages, never raw strings or bare integers.
use vstd::prelude::*;
use crate::sys::unix_time_nanos;
use crate::text::{dec_text, push_dec, push_str, text};

verus! {

/// A globally unique node identifier: node name, process id and creation
/// time, never reused across restarts.
#[derive(Debug, Clone, PartialEq, Eq, Hash)]
pub struct NodeId(pub String);

/// The identifier of node `node_name` created by process `pid` at `ts`
/// nanoseconds since the Unix epoch.
pub open spec fn spec_node_id(node_name: Seq<char>, pid: u32, ts: u128) -> Seq<char> {
    node_name + "-"@ + dec_text(pid as nat) + "-"@ + dec_text(ts as nat)
}

impl NodeId {
    /// Create a new NodeId with the given raw string.
    pub fn new(raw: &str) -> (r: Self)
        ensures
            r.0@ == raw@,
    {
        NodeId(text(raw))
    }

    /// The identifier of node `node_name` created by process `pid` at `ts`
    /// nanoseconds since the Unix epoch: `{node_name}-{pid}-{ts}`.
    pub fn compose(node_name: &str, pid: u32, ts: u128) -> (r: Self)
        ensures
            r.0@ == spec_node_id(node_name@, pid, ts),
    {
        let mut s = text(node_name);
        push_str(&mut s, "-");
        push_dec(&mut s, pid as u128);
        push_str(&mut s, "-");
        push_dec(&mut s, ts);
        NodeId(s)
    }

    /// Returns the inner string representation.
    pub fn as_str(&self) -> (s: &str)
        ensures
            s@ == self.0@,
    {
        self.0.as_str()
    }

    /// The identifier as text.
    pub fn to_string(&self) -> (s: String)
        ensures
            s@ == self.0@,
    {
        self.0.clone()
    }
}

/// A globally unique topic identifier derived from the canonical topic name.
#[derive(Debug, Clone, PartialEq, Eq, Hash)]
pub struct TopicId(pub String);

impl TopicId {
    /// Derive a TopicId from a canonical topic name: `topic:{name}`.
    pub fn from_name(name: &str) -> (r: Self)
        ensures
            r.0@ == "topic:"@ + name@,
    {
        let mut s = text("topic:");
        push_str(&mut s, name);
        TopicId(s)
    }

    /// Returns the inner string representation.
    pub fn as_str(&self) -> (s: &str)
        ensures
            s@ == self.0@,
    {
        self.0.as_str()
    }

    /// The identifier as text.
    pub fn to_string(&self) -> (s: String)
        ensures
            s@ == self.0@,
    {
        self.0.clone()
    }
}

/// Session identifier, unique per node boot; changes on every restart.
#[derive(Debug, Clone, PartialEq, Eq, Hash)]
pub struct SessionId(pub String);

/// The session of node `node_id` that started at `ts` nanoseconds since the
/// Unix epoch.
pub open spec fn spec_session_id(node_id: Seq<char>, ts: u128) -> Seq<char> {
    "session-"@ + node_id + "-"@ + dec_text(ts as nat)
}

impl SessionId {
    /// The session of `node_id` that started at `ts` nanoseconds since the
    /// Unix epoch: `session-{node_id}-{ts}`.
    pub fn for_epoch(node_id: &NodeId, ts: u128) -> (r: Self)
        ensures
            r.0@ == spec_session_id(node_id.0@, ts),
    {
        let mut s = text("session-");
        push_str(&mut s, node_id.as_str());
        push_str(&mut s, "-");
        push_dec(&mut s, ts);
        SessionId(s)
    }

    /// A new session of `node_id`, stamped with the current system time.
    pub fn generate(node_id: &NodeId) -> (r: Self)
        ensures
            exists|ts: u128| r.0@ == spec_session_id(node_id.0@, ts),
    {
        let ts = unix_time_nanos();
        SessionId::for_epoch(node_id, ts)
    }

    /// Returns the inner string representation.
    pub fn as_str(&self) -> (s: &str)
        ensures
            s@ == self.0@,
    {
        self.0.as_str()
    }

    /// The identifier as text.
    pub fn to_string(&self) -> (s: String)
        ensures
            s@ == self.0@,
    {
        self.0.clone()
    }
}

/// Peer identifier: refers to a remote node found by discovery.
#[derive(Debug, Clone, PartialEq, Eq, Hash)]
pub struct PeerId(pub String);

impl PeerId {
    /// Create a PeerId with the given raw string.
    pub fn new(raw: &str) -> (r: Self)
        ensures
            r.0@ == raw@,
    {
        PeerId(text(raw))
    }

    /// Returns the inner string representation.
    pub fn as_str(&self) -> (s: &str)
        ensures
            s@ == self.0@,
    {
        self.0.as_str()
    }

    /// The identifier as text.
    pub fn to_string(&self) -> (s: String)
        ensures
            s@ == self.0@,
    {
        self.0.clone()
    }
}

/// Host identifier: fingerprint of the machine a node runs on.
#[derive(Debug, Clone, PartialEq, Eq, Hash)]
pub struct HostId(pub String);

impl HostId {
    /// The identifier of the host named `hostname`: `host:{hostname}`.
    pub fn for_hostname(hostname: &str) -> (r: Self)
        ensures
            r.0@ == "host:"@ + hostname@,
    {
        let mut s = text("host:");
        push_str(&mut s, hostname);
        HostId(s)
    }

    /// Returns the inner string representation.
    pub fn as_str(&self) -> (s: &str)
        ensures
            s@ == self.0@,
    {
        self.0.as_str()
    }

    /// The identifier as text.
    pub fn to_string(&self) -> (s: String)
        ensures
            s@ == self.0@,
    {
        self.0.clone()
    }
}

/// Message identifier, unique within a session and topic: enables
/// deduplication, ordering, and replay correlation.
#[derive(Debug, Clone, PartialEq, Eq, Hash)]
pub struct MessageId {
    /// Publisher node session epoch.
    pub session_id: SessionId,
    /// Monotonically increasing sequence number within the publisher session.
    pub sequence: u64,
}

impl MessageId {
    /// The identifier of message `sequence` of session `session_id`.
    pub fn new(session_id: SessionId, sequence: u64) -> (r: Self)
        ensures
            r.session_id == session_id,
            r.sequence == sequence,
    {
        MessageId { session_id, sequence }
    }

    /// The identifier as text: `{session}:{sequence}`.
    pub fn to_string(&self) -> (s: String)
        ensures
            s@ == self.session_id.0@ + ":"@ + dec_text(self.sequence as nat),
    {
        let mut s = self.session_id.to_string();
        push_str(&mut s, ":");
        push_dec(&mut s, self.sequence as u128);
        s
    }
}

} // verus!
