//! Observable health state of nodes and subsystems: not a binary alive/dead
//! flag but a set of states with meaningful labels.
use vstd::prelude::*;
use crate::sys::unix_time_nanos;

verus! {

/// The combined health status of a node or subsystem.
#[derive(Debug, Clone, PartialEq, Eq)]
pub enum HealthStatus {
    /// Node is fully operational.
    Healthy,
    /// Node is running but with reduced capability or higher latency.
    Degraded { reason: String },
    /// Node is temporarily unavailable but expected to recover.
    Recovering { reason: String },
    /// Node has failed and will not recover without intervention.
    Failed { reason: String },
    /// Node is shutting down cleanly.
    ShuttingDown,
    /// Health state has not yet been determined (startup).
    Unknown,
}

impl HealthStatus {
    /// Whether the node is usable: healthy or degraded.
    pub open spec fn spec_is_usable(&self) -> bool {
        self is Healthy || self is Degraded
    }

    /// The short label of this status.
    pub open spec fn spec_label(&self) -> Seq<char> {
        match self {
            HealthStatus::Healthy => "healthy"@,
            HealthStatus::Degraded { .. } => "degraded"@,
            HealthStatus::Recovering { .. } => "recovering"@,
            HealthStatus::Failed { .. } => "failed"@,
            HealthStatus::ShuttingDown => "shutting_down"@,
            HealthStatus::Unknown => "unknown"@,
        }
    }

    /// Returns true if the node is usable (healthy or degraded).
    pub fn is_usable(&self) -> (r: bool)
        ensures
            r == self.spec_is_usable(),
            r <==> (self is Healthy || self is Degraded),
    {
        match self {
            HealthStatus::Healthy => true,
            HealthStatus::Degraded { .. } => true,
            _ => false,
        }
    }

    /// Returns true if the node is operational at full capacity.
    pub fn is_healthy(&self) -> (r: bool)
        ensures
            r == self is Healthy,
    {
        match self {
            HealthStatus::Healthy => true,
            _ => false,
        }
    }

    /// Returns a short string label for logging and metrics.
    pub fn label(&self) -> (s: &'static str)
        ensures
            s@ == self.spec_label(),
    {
        match self {
            HealthStatus::Healthy => "healthy",
            HealthStatus::Degraded { .. } => "degraded",
            HealthStatus::Recovering { .. } => "recovering",
            HealthStatus::Failed { .. } => "failed",
            HealthStatus::ShuttingDown => "shutting_down",
            HealthStatus::Unknown => "unknown",
        }
    }
}

/// A node at full capacity is usable.
pub proof fn lemma_healthy_is_usable(s: HealthStatus)
    requires
        s is Healthy,
    ensures
        s.spec_is_usable(),
{
}

/// Only a healthy or degraded node is usable: a node that is recovering,
/// has failed, is shutting down or whose status is unknown is not.
pub proof fn lemma_usable_only_healthy_or_degraded(s: HealthStatus)
    ensures
        s.spec_is_usable() <==> (s is Healthy || s is Degraded),
        s is Recovering ==> !s.spec_is_usable(),
        s is Failed ==> !s.spec_is_usable(),
        s is ShuttingDown ==> !s.spec_is_usable(),
        s is Unknown ==> !s.spec_is_usable(),
        s is Degraded ==> s.spec_is_usable(),
{
}

/// Liveliness state of a node or publisher, separate from health.
#[derive(Debug, Clone, Copy, PartialEq, Eq, Structural)]
pub enum LivelinessState {
    /// Actively sending heartbeats or messages.
    Alive,
    /// No recent signal; may be paused or overloaded.
    Stale,
    /// Has explicitly announced it is leaving or shutting down.
    Left,
    /// No signal within the liveliness timeout. Presumed gone.
    Dead,
}

impl LivelinessState {
    /// The short label of this state.
    pub open spec fn spec_label(&self) -> Seq<char> {
        match self {
            LivelinessState::Alive => "alive"@,
            LivelinessState::Stale => "stale"@,
            LivelinessState::Left => "left"@,
            LivelinessState::Dead => "dead"@,
        }
    }

    /// Returns a short string label for logging and metrics.
    pub fn label(&self) -> (s: &'static str)
        ensures
            s@ == self.spec_label(),
    {
        match self {
            LivelinessState::Alive => "alive",
            LivelinessState::Stale => "stale",
            LivelinessState::Left => "left",
            LivelinessState::Dead => "dead",
        }
    }
}

/// Readiness state: whether the node is ready to process and route
/// messages (about capability, not liveness).
#[derive(Debug, Clone, Copy, PartialEq, Eq, Structural)]
pub enum ReadinessState {
    /// Fully ready to accept and process messages.
    Ready,
    /// Still initializing. Not ready to accept messages.
    Initializing,
    /// Discovery pending. Runtime partially initialized.
    DiscoveryPending,
    /// Not ready due to a recoverable condition.
    NotReady { code: u32 },
}

impl ReadinessState {
    /// The short label of this state.
    pub open spec fn spec_label(&self) -> Seq<char> {
        match self {
            ReadinessState::Ready => "ready"@,
            ReadinessState::Initializing => "initializing"@,
            ReadinessState::DiscoveryPending => "discovery_pending"@,
            ReadinessState::NotReady { .. } => "not_ready"@,
        }
    }

    /// Returns true if fully ready.
    pub fn is_ready(&self) -> (r: bool)
        ensures
            r == self is Ready,
    {
        match self {
            ReadinessState::Ready => true,
            _ => false,
        }
    }

    /// Returns a short string label for logging and metrics.
    pub fn label(&self) -> (s: &'static str)
        ensures
            s@ == self.spec_label(),
    {
        match self {
            ReadinessState::Ready => "ready",
            ReadinessState::Initializing => "initializing",
            ReadinessState::DiscoveryPending => "discovery_pending",
            ReadinessState::NotReady { .. } => "not_ready",
        }
    }
}

/// Snapshot of a node's health at a specific moment in time, for
/// diagnostics, dashboards, and audit trails.
#[derive(Debug, Clone)]
pub struct HealthSnapshot {
    /// Timestamp when the snapshot was taken (Unix nanoseconds).
    pub timestamp_ns: u128,
    /// Current health status.
    pub status: HealthStatus,
    /// Liveliness state.
    pub liveliness: LivelinessState,
    /// Readiness state.
    pub readiness: ReadinessState,
    /// Number of successful health checks since last reset.
    pub healthy_ticks: u64,
    /// Number of degraded or failed health checks since last reset.
    pub unhealthy_ticks: u64,
    /// Total uptime in seconds since node started.
    pub uptime_secs: u64,
}

impl HealthSnapshot {
    /// Create a snapshot stamped with `timestamp_ns` (Unix nanoseconds).
    pub fn at(
        timestamp_ns: u128,
        status: HealthStatus,
        liveliness: LivelinessState,
        readiness: ReadinessState,
        healthy_ticks: u64,
        unhealthy_ticks: u64,
        uptime_secs: u64,
    ) -> (r: Self)
        ensures
            r.timestamp_ns == timestamp_ns,
            r.status == status,
            r.liveliness == liveliness,
            r.readiness == readiness,
            r.healthy_ticks == healthy_ticks,
            r.unhealthy_ticks == unhealthy_ticks,
            r.uptime_secs == uptime_secs,
    {
        HealthSnapshot {
            timestamp_ns,
            status,
            liveliness,
            readiness,
            healthy_ticks,
            unhealthy_ticks,
            uptime_secs,
        }
    }

    /// Create a new snapshot stamped with the current system time.
    pub fn now(
        status: HealthStatus,
        liveliness: LivelinessState,
        readiness: ReadinessState,
        healthy_ticks: u64,
        unhealthy_ticks: u64,
        uptime_secs: u64,
    ) -> (r: Self)
        ensures
            r.status == status,
            r.liveliness == liveliness,
            r.readiness == readiness,
            r.healthy_ticks == healthy_ticks,
            r.unhealthy_ticks == unhealthy_ticks,
            r.uptime_secs == uptime_secs,
    {
        let timestamp_ns = unix_time_nanos();
        HealthSnapshot::at(
            timestamp_ns,
            status,
            liveliness,
            readiness,
            healthy_ticks,
            unhealthy_ticks,
            uptime_secs,
        )
    }
}

} // verus!
