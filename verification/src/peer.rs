//! Peer records of adaptive discovery: every remote APEX node found by any
//! discovery strategy, with an explicit state machine.
//!
//! Transitions: Discovered -> Active (on successful capability
//! negotiation), Active -> Stale (on heartbeat timeout), Active ->
//! Quarantined (on repeated failures), Stale -> Active (on heartbeat
//! received), Stale -> Dead (on stale TTL exceeded), Quarantined -> Active
//! (on manual recovery or backoff), any -> Left (on an explicit leave).
use vstd::prelude::*;
use crate::sys::{elapsed_since, monotonic_now};

verus! {

/// The current operational state of a discovered peer.
#[derive(Debug, Clone, PartialEq, Eq)]
pub enum PeerState {
    /// Just discovered; negotiation in progress.
    Discovered,
    /// Fully negotiated and active.
    Active,
    /// Heartbeat missed. Monitoring closely.
    Stale,
    /// Repeated failures. Isolated from the hot path.
    Quarantined { reason: String },
    /// Explicitly said goodbye or cleanly disconnected.
    Left,
    /// Exceeded stale TTL. Presumed gone. Will be garbage collected.
    Dead,
}

impl PeerState {
    /// The short label of this state.
    pub open spec fn spec_label(&self) -> Seq<char> {
        match self {
            PeerState::Discovered => "discovered"@,
            PeerState::Active => "active"@,
            PeerState::Stale => "stale"@,
            PeerState::Quarantined { .. } => "quarantined"@,
            PeerState::Left => "left"@,
            PeerState::Dead => "dead"@,
        }
    }

    /// Whether the peer may carry traffic: only when active.
    pub fn is_usable(&self) -> (r: bool)
        ensures
            r == self is Active,
    {
        match self {
            PeerState::Active => true,
            _ => false,
        }
    }

    /// Returns a short string label for logging and metrics.
    pub fn label(&self) -> (s: &'static str)
        ensures
            s@ == self.spec_label(),
    {
        match self {
            PeerState::Discovered => "discovered",
            PeerState::Active => "active",
            PeerState::Stale => "stale",
            PeerState::Quarantined { .. } => "quarantined",
            PeerState::Left => "left",
            PeerState::Dead => "dead",
        }
    }
}

/// How visible a peer is in the current topology.
#[derive(Debug, Clone, Copy, PartialEq, Eq, Structural)]
pub enum PeerVisibility {
    /// Directly reachable on the same host (shared memory available).
    LocalProcess,
    /// Reachable on the same subnet.
    LocalNetwork,
    /// Reachable via a routed network.
    Remote,
    /// Reachability not yet determined.
    Unknown,
}

impl PeerVisibility {
    /// The short label of this visibility.
    pub open spec fn spec_label(&self) -> Seq<char> {
        match self {
            PeerVisibility::LocalProcess => "local_process"@,
            PeerVisibility::LocalNetwork => "local_network"@,
            PeerVisibility::Remote => "remote"@,
            PeerVisibility::Unknown => "unknown"@,
        }
    }

    /// Whether the shared-memory transport is eligible: only for a peer in
    /// another process of the same host.
    pub fn allows_shm(&self) -> (r: bool)
        ensures
            r == self is LocalProcess,
    {
        match self {
            PeerVisibility::LocalProcess => true,
            _ => false,
        }
    }

    /// Returns a short string label for logging and metrics.
    pub fn label(&self) -> (s: &'static str)
        ensures
            s@ == self.spec_label(),
    {
        match self {
            PeerVisibility::LocalProcess => "local_process",
            PeerVisibility::LocalNetwork => "local_network",
            PeerVisibility::Remote => "remote",
            PeerVisibility::Unknown => "unknown",
        }
    }
}

/// A network address of a peer: IP address and port.
#[derive(Debug, Clone, Copy, PartialEq, Eq)]
pub enum PeerAddress {
    /// An IPv4 address (octets, most significant first) and port.
    V4 { octets: [u8; 4], port: u16 },
    /// An IPv6 address (segments, most significant first) and port.
    V6 { segments: [u16; 8], port: u16 },
}

/// A complete record of a discovered peer: the source of truth for what
/// the local node knows about it.
#[derive(Debug, Clone)]
pub struct PeerRecord {
    /// Globally unique peer identifier.
    pub peer_id: String,
    /// Human-readable node name.
    pub node_name: String,
    /// Current state in the peer state machine.
    pub state: PeerState,
    /// How visible/reachable this peer is.
    pub visibility: PeerVisibility,
    /// Primary network address for this peer.
    pub address: Option<PeerAddress>,
    /// APEX runtime version reported by this peer.
    pub runtime_version: String,
    /// Names of the topics this peer publishes, each once.
    pub published_topics: Vec<String>,
    /// Names of the topics this peer subscribes to, each once.
    pub subscribed_topics: Vec<String>,
    /// When this record was first created.
    pub first_seen: std::time::Instant,
    /// When this record was last updated (heartbeat or message).
    pub last_seen: std::time::Instant,
    /// Number of consecutive heartbeat misses.
    pub missed_heartbeats: u32,
    /// Number of times this peer has been quarantined.
    pub quarantine_count: u32,
    /// How this peer was discovered.
    pub discovery_strategy: String,
}

/// The state after a heartbeat arrives in state `s`: a stale peer becomes
/// active again; every other state is kept.
pub open spec fn spec_after_heartbeat(s: PeerState) -> PeerState {
    if s is Stale {
        PeerState::Active
    } else {
        s
    }
}

/// Whether a heartbeat miss that brings the count of consecutive misses to
/// `missed` turns a peer in state `s` stale, with threshold `stale_after`.
pub open spec fn spec_miss_turns_stale(s: PeerState, missed: u32, stale_after: u32) -> bool {
    missed >= stale_after && s is Active
}

/// The state after a heartbeat miss that brings the count to `missed`.
pub open spec fn spec_after_miss(s: PeerState, missed: u32, stale_after: u32) -> PeerState {
    if spec_miss_turns_stale(s, missed, stale_after) {
        PeerState::Stale
    } else {
        s
    }
}

/// Whether no topic name occurs twice in `topics`.
pub open spec fn spec_topics_distinct(topics: Seq<String>) -> bool {
    forall|i: int, j: int| 0 <= i < j < topics.len() ==> topics[i]@ != topics[j]@
}

impl PeerRecord {
    /// Whether the record's topic lists are sets: no name occurs twice in
    /// either. Every record this library builds is so, and no operation on
    /// it changes the lists.
    pub open spec fn spec_topics_are_sets(&self) -> bool {
        spec_topics_distinct(self.published_topics@) && spec_topics_distinct(
            self.subscribed_topics@,
        )
    }

    /// Everything of the record but its state, miss count and last-seen
    /// time is as in `other`.
    pub open spec fn same_identity(&self, other: &PeerRecord) -> bool {
        &&& self.peer_id == other.peer_id
        &&& self.node_name == other.node_name
        &&& self.visibility == other.visibility
        &&& self.address == other.address
        &&& self.runtime_version == other.runtime_version
        &&& self.published_topics@ == other.published_topics@
        &&& self.subscribed_topics@ == other.subscribed_topics@
        &&& self.first_seen == other.first_seen
        &&& self.quarantine_count == other.quarantine_count
        &&& self.discovery_strategy == other.discovery_strategy
    }

    /// Create a new peer record in Discovered state, first and last seen at
    /// `now`.
    pub fn new_at(
        peer_id: String,
        node_name: String,
        address: Option<PeerAddress>,
        runtime_version: String,
        discovery_strategy: String,
        now: std::time::Instant,
    ) -> (r: Self)
        ensures
            r.peer_id == peer_id,
            r.node_name == node_name,
            r.state is Discovered,
            r.visibility is Unknown,
            r.address == address,
            r.runtime_version == runtime_version,
            r.published_topics@ == Seq::<String>::empty(),
            r.subscribed_topics@ == Seq::<String>::empty(),
            r.spec_topics_are_sets(),
            r.first_seen == now,
            r.last_seen == now,
            r.missed_heartbeats == 0,
            r.quarantine_count == 0,
            r.discovery_strategy == discovery_strategy,
    {
        PeerRecord {
            peer_id,
            node_name,
            state: PeerState::Discovered,
            visibility: PeerVisibility::Unknown,
            address,
            runtime_version,
            published_topics: Vec::new(),
            subscribed_topics: Vec::new(),
            first_seen: now,
            last_seen: now,
            missed_heartbeats: 0,
            quarantine_count: 0,
            discovery_strategy,
        }
    }

    /// Create a new peer record in Discovered state, first and last seen at
    /// the current monotonic time.
    pub fn new(
        peer_id: String,
        node_name: String,
        address: Option<PeerAddress>,
        runtime_version: String,
        discovery_strategy: String,
    ) -> (r: Self)
        ensures
            r.peer_id == peer_id,
            r.node_name == node_name,
            r.state is Discovered,
            r.visibility is Unknown,
            r.address == address,
            r.runtime_version == runtime_version,
            r.published_topics@ == Seq::<String>::empty(),
            r.subscribed_topics@ == Seq::<String>::empty(),
            r.spec_topics_are_sets(),
            r.first_seen == r.last_seen,
            r.missed_heartbeats == 0,
            r.quarantine_count == 0,
            r.discovery_strategy == discovery_strategy,
    {
        let now = monotonic_now();
        PeerRecord::new_at(peer_id, node_name, address, runtime_version, discovery_strategy, now)
    }

    /// Record a heartbeat heard at `now`: last_seen becomes `now`, the miss
    /// counter is reset, and a stale peer becomes active again.
    pub fn heartbeat_received_at(&mut self, now: std::time::Instant)
        ensures
            final(self).same_identity(old(self)),
            final(self).last_seen == now,
            final(self).missed_heartbeats == 0,
            final(self).state == spec_after_heartbeat(old(self).state),
            old(self).state is Active || old(self).state is Stale ==> final(self).state
                is Active,
            !(old(self).state is Active || old(self).state is Stale) ==> final(self).state
                == old(self).state,
    {
        self.last_seen = now;
        self.missed_heartbeats = 0;
        if let PeerState::Stale = self.state {
            self.state = PeerState::Active;
        }
    }

    /// Update last_seen to the current monotonic time and reset the
    /// heartbeat counter; a stale peer becomes active again.
    pub fn heartbeat_received(&mut self)
        ensures
            final(self).same_identity(old(self)),
            final(self).missed_heartbeats == 0,
            final(self).state == spec_after_heartbeat(old(self).state),
            old(self).state is Active || old(self).state is Stale ==> final(self).state
                is Active,
            !(old(self).state is Active || old(self).state is Stale) ==> final(self).state
                == old(self).state,
    {
        let now = monotonic_now();
        self.heartbeat_received_at(now);
    }

    /// Record a missed heartbeat. Returns true if the peer became stale: it
    /// was active and has now missed `stale_after` heartbeats in a row.
    pub fn heartbeat_missed(&mut self, stale_after: u32) -> (became_stale: bool)
        requires
            old(self).missed_heartbeats < u32::MAX,
        ensures
            final(self).same_identity(old(self)),
            final(self).last_seen == old(self).last_seen,
            final(self).missed_heartbeats == old(self).missed_heartbeats + 1,
            became_stale == spec_miss_turns_stale(
                old(self).state,
                final(self).missed_heartbeats,
                stale_after,
            ),
            final(self).state == spec_after_miss(
                old(self).state,
                final(self).missed_heartbeats,
                stale_after,
            ),
    {
        self.missed_heartbeats = self.missed_heartbeats + 1;
        if self.missed_heartbeats >= stale_after {
            if let PeerState::Active = self.state {
                self.state = PeerState::Stale;
                return true;
            }
        }
        false
    }

    /// Mark the peer as having sent a leave notice.
    pub fn mark_left(&mut self)
        ensures
            final(self).same_identity(old(self)),
            final(self).last_seen == old(self).last_seen,
            final(self).missed_heartbeats == old(self).missed_heartbeats,
            final(self).state is Left,
    {
        self.state = PeerState::Left;
    }

    /// Mark the peer as dead (TTL exceeded).
    pub fn mark_dead(&mut self)
        ensures
            final(self).same_identity(old(self)),
            final(self).last_seen == old(self).last_seen,
            final(self).missed_heartbeats == old(self).missed_heartbeats,
            final(self).state is Dead,
    {
        self.state = PeerState::Dead;
    }

    /// Elapsed time since the last heartbeat.
    pub fn elapsed_since_last_seen(&self) -> core::time::Duration {
        elapsed_since(&self.last_seen)
    }
}

/// A heartbeat undoes the staleness that missed heartbeats caused: a peer
/// that went from active to stale is active again after one heartbeat.
pub proof fn lemma_heartbeat_revives_stale(missed: u32, stale_after: u32)
    requires
        spec_miss_turns_stale(PeerState::Active, missed, stale_after),
    ensures
        spec_after_heartbeat(spec_after_miss(PeerState::Active, missed, stale_after))
            is Active,
{
}

/// Heartbeats, received or missed, never bring back a peer that left or
/// died, and never change a peer that is not active or stale.
pub proof fn lemma_heartbeats_keep_terminal(s: PeerState, missed: u32, stale_after: u32)
    requires
        !(s is Active) && !(s is Stale),
    ensures
        spec_after_heartbeat(s) == s,
        spec_after_miss(s, missed, stale_after) == s,
{
}

/// Only an active peer can turn stale, and a stale peer stays stale while
/// heartbeats keep being missed.
pub proof fn lemma_miss_only_stales_active(s: PeerState, missed: u32, stale_after: u32)
    ensures
        spec_after_miss(s, missed, stale_after) is Stale ==> (s is Active || s is Stale),
        s is Stale ==> spec_after_miss(s, missed, stale_after) is Stale,
{
}

/// A heartbeat leaves a peer active exactly when it was active or stale: an
/// active peer stays active, a stale one becomes active, and every other
/// state (discovered, quarantined, left, dead) is kept as it was.
pub proof fn lemma_heartbeat_keeps_or_restores_active(s: PeerState)
    ensures
        spec_after_heartbeat(s) is Active <==> (s is Active || s is Stale),
        s is Active ==> spec_after_heartbeat(s) == PeerState::Active,
        !(s is Stale) ==> spec_after_heartbeat(s) == s,
        !(spec_after_heartbeat(s) is Stale),
{
}

} // verus!
