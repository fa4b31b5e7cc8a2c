//! The APEX error taxonomy: typed, structured errors that carry enough
//! context for actionable diagnostics, each with a fixed message format.
use vstd::prelude::*;
use crate::sys::io_error_text;
use crate::text::{dec_text, hex_text, push_dec, push_hex, push_str, text};

verus! {

/// The canonical result type for all APEX operations.
pub type ApexResult<T> = Result<T, ApexError>;

/// Structured error taxonomy for the APEX runtime: each variant maps to a
/// distinct failure domain.
#[derive(Debug, Clone, PartialEq, Eq)]
#[allow(inconsistent_fields)]
pub enum ApexError {
    /// A node with the same ID or name already exists in the registry.
    NodeAlreadyRegistered { name: String },
    /// The referenced node was not found in the registry.
    NodeNotFound { id: String },
    /// A topic with the same canonical name already exists.
    TopicAlreadyRegistered { name: String },
    /// The referenced topic was not found.
    TopicNotFound { name: String },
    /// Transport initialization failed.
    TransportInitFailed { kind: String, reason: String },
    /// A transport operation exceeded its deadline.
    TransportTimeout { kind: String, elapsed_ms: u64 },
    /// The transport is not available or was closed.
    TransportUnavailable { kind: String },
    /// Connection to a peer was refused.
    PeerConnectionRefused { peer_id: String, reason: String },
    /// The payload could not be serialized.
    SerializeFailed { message_type: String, reason: String },
    /// The payload could not be deserialized.
    DeserializeFailed { message_type: String, reason: String },
    /// The received payload is malformed or truncated.
    MalformedPayload { reason: String },
    /// Schema hash or version mismatch detected.
    SchemaMismatch { expected_hash: u64, received_hash: u64 },
    /// Publisher and subscriber QoS are incompatible.
    QosMismatch { reason: String },
    /// A reliable message exceeded all retry attempts.
    DeliveryFailed { sequence: u64, reason: String },
    /// A queue reached its bounded limit and cannot accept more messages.
    QueueSaturated { topic: String, queue_limit: usize },
    /// The memory pool is exhausted; no buffers available.
    PoolExhausted { pool_name: String },
    /// A loaned buffer was held beyond its timeout.
    LoanTimeout { loan_id: String, timeout_ms: u64 },
    /// A buffer is in an invalid ownership state.
    InvalidBufferOwnership { reason: String },
    /// Peer discovery failed completely (all strategies exhausted).
    DiscoveryFailed { reason: String },
    /// A peer was marked as stale and removed from the active set.
    PeerStale { peer_id: String },
    /// Capability negotiation between two peers failed.
    CapabilityNegotiationFailed { reason: String },
    /// Configuration file could not be loaded.
    ConfigLoadFailed { path: String, reason: String },
    /// A required configuration field is missing.
    ConfigMissingField { field: String },
    /// A configuration value failed validation.
    ConfigInvalidValue { field: String, reason: String },
    /// An operation was attempted on a node that has not been initialized.
    NodeNotInitialized,
    /// An operation was attempted after shutdown was initiated.
    ShutdownInProgress,
    /// A node failed to reach ready state within the expected window.
    StartupTimeout { node_name: String, timeout_ms: u64 },
    /// A node identity could not be verified.
    IdentityVerificationFailed { reason: String },
    /// The caller does not have permission to perform this operation.
    Unauthorized { operation: String },
    /// An invariant was violated. This is always a bug.
    InvariantViolation { message: String },
    /// An I/O error from the OS layer.
    Io { reason: String },
}

impl ApexError {
    /// The message of this error.
    pub open spec fn spec_message(&self) -> Seq<char> {
        match self {
            ApexError::NodeAlreadyRegistered { name } => "node already registered: "@ + name@,
            ApexError::NodeNotFound { id } => "node not found: "@ + id@,
            ApexError::TopicAlreadyRegistered { name } => "topic already registered: "@ + name@,
            ApexError::TopicNotFound { name } => "topic not found: "@ + name@,
            ApexError::TransportInitFailed { kind, reason } => "transport init failed ["@ + kind@ + "]: "@ + reason@,
            ApexError::TransportTimeout { kind, elapsed_ms } => "transport timeout ["@ + kind@ + "] after "@ + dec_text(*elapsed_ms as nat) + "ms"@,
            ApexError::TransportUnavailable { kind } => "transport unavailable: "@ + kind@,
            ApexError::PeerConnectionRefused { peer_id, reason } => "peer connection refused ["@ + peer_id@ + "]: "@ + reason@,
            ApexError::SerializeFailed { message_type, reason } => "serialize failed ["@ + message_type@ + "]: "@ + reason@,
            ApexError::DeserializeFailed { message_type, reason } => "deserialize failed ["@ + message_type@ + "]: "@ + reason@,
            ApexError::MalformedPayload { reason } => "malformed payload: "@ + reason@,
            ApexError::SchemaMismatch { expected_hash, received_hash } => "schema mismatch: expected=0x"@ + hex_text(*expected_hash as nat) + " received=0x"@ + hex_text(*received_hash as nat),
            ApexError::QosMismatch { reason } => "QoS mismatch: "@ + reason@,
            ApexError::DeliveryFailed { sequence, reason } => "delivery failed [seq="@ + dec_text(*sequence as nat) + "]: "@ + reason@,
            ApexError::QueueSaturated { topic, queue_limit } => "queue saturated [topic="@ + topic@ + ", limit="@ + dec_text(*queue_limit as nat) + "]"@,
            ApexError::PoolExhausted { pool_name } => "memory pool exhausted: "@ + pool_name@,
            ApexError::LoanTimeout { loan_id, timeout_ms } => "buffer loan timeout [id="@ + loan_id@ + "] after "@ + dec_text(*timeout_ms as nat) + "ms"@,
            ApexError::InvalidBufferOwnership { reason } => "invalid buffer ownership: "@ + reason@,
            ApexError::DiscoveryFailed { reason } => "discovery failed: "@ + reason@,
            ApexError::PeerStale { peer_id } => "peer stale and removed: "@ + peer_id@,
            ApexError::CapabilityNegotiationFailed { reason } => "capability negotiation failed: "@ + reason@,
            ApexError::ConfigLoadFailed { path, reason } => "config load failed ["@ + path@ + "]: "@ + reason@,
            ApexError::ConfigMissingField { field } => "config missing required field: "@ + field@,
            ApexError::ConfigInvalidValue { field, reason } => "config invalid value ["@ + field@ + "]: "@ + reason@,
            ApexError::NodeNotInitialized => "node not initialized"@,
            ApexError::ShutdownInProgress => "shutdown in progress, operation rejected"@,
            ApexError::StartupTimeout { node_name, timeout_ms } => "startup timeout ["@ + node_name@ + "] after "@ + dec_text(*timeout_ms as nat) + "ms"@,
            ApexError::IdentityVerificationFailed { reason } => "identity verification failed: "@ + reason@,
            ApexError::Unauthorized { operation } => "unauthorized operation: "@ + operation@,
            ApexError::InvariantViolation { message } => "INVARIANT VIOLATION (bug): "@ + message@,
            ApexError::Io { reason } => "I/O error: "@ + reason@,
        }
    }

    /// The human-readable message of this error.
    pub fn to_string(&self) -> (s: String)
        ensures
            s@ == self.spec_message(),
    {
        match self {
            ApexError::NodeAlreadyRegistered { name } => {
                let mut s = text("node already registered: ");
                push_str(&mut s, name.as_str());
                s
            },
            ApexError::NodeNotFound { id } => {
                let mut s = text("node not found: ");
                push_str(&mut s, id.as_str());
                s
            },
            ApexError::TopicAlreadyRegistered { name } => {
                let mut s = text("topic already registered: ");
                push_str(&mut s, name.as_str());
                s
            },
            ApexError::TopicNotFound { name } => {
                let mut s = text("topic not found: ");
                push_str(&mut s, name.as_str());
                s
            },
            ApexError::TransportInitFailed { kind, reason } => {
                let mut s = text("transport init failed [");
                push_str(&mut s, kind.as_str());
                push_str(&mut s, "]: ");
                push_str(&mut s, reason.as_str());
                s
            },
            ApexError::TransportTimeout { kind, elapsed_ms } => {
                let mut s = text("transport timeout [");
                push_str(&mut s, kind.as_str());
                push_str(&mut s, "] after ");
                push_dec(&mut s, *elapsed_ms as u128);
                push_str(&mut s, "ms");
                s
            },
            ApexError::TransportUnavailable { kind } => {
                let mut s = text("transport unavailable: ");
                push_str(&mut s, kind.as_str());
                s
            },
            ApexError::PeerConnectionRefused { peer_id, reason } => {
                let mut s = text("peer connection refused [");
                push_str(&mut s, peer_id.as_str());
                push_str(&mut s, "]: ");
                push_str(&mut s, reason.as_str());
                s
            },
            ApexError::SerializeFailed { message_type, reason } => {
                let mut s = text("serialize failed [");
                push_str(&mut s, message_type.as_str());
                push_str(&mut s, "]: ");
                push_str(&mut s, reason.as_str());
                s
            },
            ApexError::DeserializeFailed { message_type, reason } => {
                let mut s = text("deserialize failed [");
                push_str(&mut s, message_type.as_str());
                push_str(&mut s, "]: ");
                push_str(&mut s, reason.as_str());
                s
            },
            ApexError::MalformedPayload { reason } => {
                let mut s = text("malformed payload: ");
                push_str(&mut s, reason.as_str());
                s
            },
            ApexError::SchemaMismatch { expected_hash, received_hash } => {
                let mut s = text("schema mismatch: expected=0x");
                push_hex(&mut s, *expected_hash);
                push_str(&mut s, " received=0x");
                push_hex(&mut s, *received_hash);
                s
            },
            ApexError::QosMismatch { reason } => {
                let mut s = text("QoS mismatch: ");
                push_str(&mut s, reason.as_str());
                s
            },
            ApexError::DeliveryFailed { sequence, reason } => {
                let mut s = text("delivery failed [seq=");
                push_dec(&mut s, *sequence as u128);
                push_str(&mut s, "]: ");
                push_str(&mut s, reason.as_str());
                s
            },
            ApexError::QueueSaturated { topic, queue_limit } => {
                let mut s = text("queue saturated [topic=");
                push_str(&mut s, topic.as_str());
                push_str(&mut s, ", limit=");
                push_dec(&mut s, *queue_limit as u128);
                push_str(&mut s, "]");
                s
            },
            ApexError::PoolExhausted { pool_name } => {
                let mut s = text("memory pool exhausted: ");
                push_str(&mut s, pool_name.as_str());
                s
            },
            ApexError::LoanTimeout { loan_id, timeout_ms } => {
                let mut s = text("buffer loan timeout [id=");
                push_str(&mut s, loan_id.as_str());
                push_str(&mut s, "] after ");
                push_dec(&mut s, *timeout_ms as u128);
                push_str(&mut s, "ms");
                s
            },
            ApexError::InvalidBufferOwnership { reason } => {
                let mut s = text("invalid buffer ownership: ");
                push_str(&mut s, reason.as_str());
                s
            },
            ApexError::DiscoveryFailed { reason } => {
                let mut s = text("discovery failed: ");
                push_str(&mut s, reason.as_str());
                s
            },
            ApexError::PeerStale { peer_id } => {
                let mut s = text("peer stale and removed: ");
                push_str(&mut s, peer_id.as_str());
                s
            },
            ApexError::CapabilityNegotiationFailed { reason } => {
                let mut s = text("capability negotiation failed: ");
                push_str(&mut s, reason.as_str());
                s
            },
            ApexError::ConfigLoadFailed { path, reason } => {
                let mut s = text("config load failed [");
                push_str(&mut s, path.as_str());
                push_str(&mut s, "]: ");
                push_str(&mut s, reason.as_str());
                s
            },
            ApexError::ConfigMissingField { field } => {
                let mut s = text("config missing required field: ");
                push_str(&mut s, field.as_str());
                s
            },
            ApexError::ConfigInvalidValue { field, reason } => {
                let mut s = text("config invalid value [");
                push_str(&mut s, field.as_str());
                push_str(&mut s, "]: ");
                push_str(&mut s, reason.as_str());
                s
            },
            ApexError::NodeNotInitialized => {
                let s = text("node not initialized");
                s
            },
            ApexError::ShutdownInProgress => {
                let s = text("shutdown in progress, operation rejected");
                s
            },
            ApexError::StartupTimeout { node_name, timeout_ms } => {
                let mut s = text("startup timeout [");
                push_str(&mut s, node_name.as_str());
                push_str(&mut s, "] after ");
                push_dec(&mut s, *timeout_ms as u128);
                push_str(&mut s, "ms");
                s
            },
            ApexError::IdentityVerificationFailed { reason } => {
                let mut s = text("identity verification failed: ");
                push_str(&mut s, reason.as_str());
                s
            },
            ApexError::Unauthorized { operation } => {
                let mut s = text("unauthorized operation: ");
                push_str(&mut s, operation.as_str());
                s
            },
            ApexError::InvariantViolation { message } => {
                let mut s = text("INVARIANT VIOLATION (bug): ");
                push_str(&mut s, message.as_str());
                s
            },
            ApexError::Io { reason } => {
                let mut s = text("I/O error: ");
                push_str(&mut s, reason.as_str());
                s
            },
        }
    }

    /// The error that reports an I/O failure whose text is `reason`.
    pub fn from_io_text(reason: String) -> (r: ApexError)
        ensures
            r == (ApexError::Io { reason }),
    {
        ApexError::Io { reason }
    }

    /// The error that reports an I/O failure of the OS layer, with the
    /// failure's own text as the reason.
    pub fn from_io_error(e: &std::io::Error) -> (r: ApexError)
        ensures
            r is Io,
    {
        let reason = io_error_text(e);
        ApexError::from_io_text(reason)
    }
}

} // verus!
