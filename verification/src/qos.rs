//! QoS as an operational contract: a publisher and a subscriber whose
//! policies are incompatible never connect silently; the mismatch is
//! reported with its reason.
//!
//! Every duration of a profile is held in milliseconds.
use vstd::prelude::*;
use crate::text::text;

verus! {

/// Delivery reliability mode.
#[derive(Debug, Clone, Copy, PartialEq, Eq, Hash, Structural)]
pub enum Reliability {
    /// No retransmission; messages may be dropped.
    BestEffort,
    /// Delivery guaranteed within the configured retries and ack timeout.
    Reliable,
}

/// History policy: how many messages the publisher queue retains.
#[derive(Debug, Clone, Copy, PartialEq, Eq, Hash, Structural)]
pub enum History {
    /// Retain only the last N messages.
    KeepLast(usize),
    /// Do not retain any messages.
    NoHistory,
}

impl History {
    /// The retention depth: N for `KeepLast(N)`, 0 without history.
    pub open spec fn spec_depth(&self) -> usize {
        match self {
            History::KeepLast(n) => *n,
            History::NoHistory => 0,
        }
    }

    /// Returns the retention depth.
    pub fn depth(&self) -> (d: usize)
        ensures
            d == self.spec_depth(),
    {
        match self {
            History::KeepLast(n) => *n,
            History::NoHistory => 0,
        }
    }
}

/// What a subscriber receives when it joins after messages were published.
#[derive(Debug, Clone, Copy, PartialEq, Eq, Hash, Structural)]
pub enum LateJoinPolicy {
    /// No historical messages; only future ones.
    FutureOnly,
    /// The most recent retained message, if any.
    Recent,
    /// All messages within the publisher's history window.
    BoundedWindow,
}

/// What happens when a bounded queue is full.
#[derive(Debug, Clone, Copy, PartialEq, Eq, Hash, Structural)]
pub enum DropPolicy {
    /// Drop the oldest message in the queue (sliding window).
    DropOldest,
    /// Reject the incoming message; the caller gets a saturation error.
    RejectNew,
}

/// What happens when a slow consumer creates backpressure.
#[derive(Debug, Clone, Copy, PartialEq, Eq, Hash, Structural)]
pub enum CongestPolicy {
    /// Drop messages destined for the slow consumer, log the drop.
    DropToSlowConsumer,
    /// Block the publisher briefly, then drop if the timeout is exceeded.
    BlockWithTimeout,
    /// Isolate the slow consumer from the hot path and mark it degraded.
    IsolateConsumer,
}

/// How a subscriber detects that a publisher has gone silent.
#[derive(Debug, Clone, Copy, PartialEq, Eq, Hash, Structural)]
pub enum Liveliness {
    /// Publisher sends explicit heartbeat messages.
    ManualAssertion,
    /// Runtime infers liveliness from message arrival times.
    AutomaticHeartbeat,
}

/// The complete QoS profile for a publisher or subscriber.
#[derive(Debug, Clone, PartialEq, Eq, Structural)]
pub struct Qos {
    /// Delivery reliability mode.
    pub reliability: Reliability,
    /// History retention policy.
    pub history: History,
    /// Late join policy.
    pub late_join_policy: LateJoinPolicy,
    /// Drop policy when the queue is at capacity.
    pub drop_policy: DropPolicy,
    /// Congestion policy for slow consumers.
    pub congestion_policy: CongestPolicy,
    /// Liveliness detection mode.
    pub liveliness: Liveliness,
    /// Maximum number of messages in the outbound queue.
    pub queue_limit: usize,
    /// How long to wait for an acknowledgment before retrying (Reliable
    /// only), in milliseconds.
    pub ack_timeout_ms: u64,
    /// Total delivery timeout (Reliable only), in milliseconds.
    pub delivery_timeout_ms: u64,
    /// Heartbeat interval, in milliseconds.
    pub heartbeat_interval_ms: u64,
    /// How long without a heartbeat before declaring a publisher dead, in
    /// milliseconds.
    pub liveliness_timeout_ms: u64,
    /// Maximum retry attempts for Reliable delivery.
    pub max_retries: u32,
    /// Message priority (0 = lowest, 255 = highest).
    pub priority: u8,
}

/// The best-effort sensor streaming profile.
pub open spec fn spec_sensor_streaming() -> Qos {
    Qos {
        reliability: Reliability::BestEffort,
        history: History::KeepLast(8),
        late_join_policy: LateJoinPolicy::FutureOnly,
        drop_policy: DropPolicy::DropOldest,
        congestion_policy: CongestPolicy::DropToSlowConsumer,
        liveliness: Liveliness::AutomaticHeartbeat,
        queue_limit: 32,
        ack_timeout_ms: 100,
        delivery_timeout_ms: 500,
        heartbeat_interval_ms: 500,
        liveliness_timeout_ms: 2_000,
        max_retries: 0,
        priority: 64,
    }
}

/// The reliable control signaling profile.
pub open spec fn spec_reliable_control() -> Qos {
    Qos {
        reliability: Reliability::Reliable,
        history: History::KeepLast(1),
        late_join_policy: LateJoinPolicy::Recent,
        drop_policy: DropPolicy::RejectNew,
        congestion_policy: CongestPolicy::IsolateConsumer,
        liveliness: Liveliness::ManualAssertion,
        queue_limit: 8,
        ack_timeout_ms: 200,
        delivery_timeout_ms: 2_000,
        heartbeat_interval_ms: 1_000,
        liveliness_timeout_ms: 5_000,
        max_retries: 5,
        priority: 192,
    }
}

impl Qos {
    /// Sensible defaults for best-effort sensor streaming.
    pub fn sensor_streaming() -> (q: Self)
        ensures
            q == spec_sensor_streaming(),
    {
        Qos {
            reliability: Reliability::BestEffort,
            history: History::KeepLast(8),
            late_join_policy: LateJoinPolicy::FutureOnly,
            drop_policy: DropPolicy::DropOldest,
            congestion_policy: CongestPolicy::DropToSlowConsumer,
            liveliness: Liveliness::AutomaticHeartbeat,
            queue_limit: 32,
            ack_timeout_ms: 100,
            delivery_timeout_ms: 500,
            heartbeat_interval_ms: 500,
            liveliness_timeout_ms: 2_000,
            max_retries: 0,
            priority: 64,
        }
    }

    /// Sensible defaults for reliable control signaling.
    pub fn reliable_control() -> (q: Self)
        ensures
            q == spec_reliable_control(),
    {
        Qos {
            reliability: Reliability::Reliable,
            history: History::KeepLast(1),
            late_join_policy: LateJoinPolicy::Recent,
            drop_policy: DropPolicy::RejectNew,
            congestion_policy: CongestPolicy::IsolateConsumer,
            liveliness: Liveliness::ManualAssertion,
            queue_limit: 8,
            ack_timeout_ms: 200,
            delivery_timeout_ms: 2_000,
            heartbeat_interval_ms: 1_000,
            liveliness_timeout_ms: 5_000,
            max_retries: 5,
            priority: 192,
        }
    }
}

impl Default for Qos {
    /// The default profile is the sensor streaming one.
    fn default() -> (q: Self)
        ensures
            q == spec_sensor_streaming(),
    {
        Qos::sensor_streaming()
    }
}

/// Result of the QoS compatibility check between publisher and subscriber.
#[derive(Debug, Clone, PartialEq, Eq)]
pub enum QosCompatibility {
    /// Fully compatible. Connection can proceed.
    Compatible,
    /// Incompatible. The reason describes which policy conflicted.
    Incompatible { reason: String },
}

/// Whether a publisher with profile `publisher` can serve a subscriber with
/// profile `subscriber`: everything but a reliable subscriber on a
/// best-effort publisher.
pub open spec fn spec_qos_compatible(publisher: Qos, subscriber: Qos) -> bool {
    !(publisher.reliability == Reliability::BestEffort && subscriber.reliability
        == Reliability::Reliable)
}

/// Check whether a publisher QoS and a subscriber QoS are compatible.
///
/// A Reliable subscriber cannot connect to a BestEffort publisher; queue
/// limits and priorities never make a pair incompatible.
pub fn check_qos_compatibility(publisher: &Qos, subscriber: &Qos) -> (r: QosCompatibility)
    ensures
        match r {
            QosCompatibility::Compatible => spec_qos_compatible(*publisher, *subscriber),
            QosCompatibility::Incompatible { reason } => !spec_qos_compatible(
                *publisher,
                *subscriber,
            ) && reason@ == "subscriber requires Reliable delivery but publisher offers BestEffort; this connection would violate the subscriber's delivery contract"@,
        },
        r is Incompatible <==> (publisher.reliability == Reliability::BestEffort
            && subscriber.reliability == Reliability::Reliable),
{
    if publisher.reliability == Reliability::BestEffort && subscriber.reliability
        == Reliability::Reliable {
        return QosCompatibility::Incompatible {
            reason: text(
                "subscriber requires Reliable delivery but publisher offers BestEffort; this connection would violate the subscriber's delivery contract",
            ),
        };
    }
    QosCompatibility::Compatible
}

/// Every profile is compatible with itself: endpoints that share a profile
/// always connect.
pub proof fn lemma_qos_self_compatible(q: Qos)
    ensures
        spec_qos_compatible(q, q),
{
}

/// A reliable publisher can serve every subscriber, and a best-effort
/// subscriber can be served by every publisher.
pub proof fn lemma_qos_compatible_extremes(publisher: Qos, subscriber: Qos)
    ensures
        publisher.reliability == Reliability::Reliable ==> spec_qos_compatible(
            publisher,
            subscriber,
        ),
        subscriber.reliability == Reliability::BestEffort ==> spec_qos_compatible(
            publisher,
            subscriber,
        ),
{
}

/// A Reliable subscriber never connects to a BestEffort publisher, whatever
/// the rest of either profile; and compatibility depends on the two
/// reliabilities alone: profiles that agree on them are equally compatible.
pub proof fn lemma_qos_reliability_decides(p1: Qos, s1: Qos, p2: Qos, s2: Qos)
    ensures
        p1.reliability == Reliability::BestEffort && s1.reliability == Reliability::Reliable
            ==> !spec_qos_compatible(p1, s1),
        !(p1.reliability == Reliability::BestEffort && s1.reliability == Reliability::Reliable)
            ==> spec_qos_compatible(p1, s1),
        p1.reliability == p2.reliability && s1.reliability == s2.reliability
            ==> spec_qos_compatible(p1, s1) == spec_qos_compatible(p2, s2),
{
}

} // verus!
