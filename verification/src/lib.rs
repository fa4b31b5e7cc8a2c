//! Verified core of the APEX middleware runtime: wire formats, framing,
//! ring-buffer protocol decisions, QoS contracts, health and peer state
//! machines, and metric registration rules.

pub mod bytes;
pub mod error;
pub mod health;
pub mod identity;
pub mod observability;
pub mod peer;
pub mod qos;
pub mod serializer;
pub mod shm;
pub mod sys;
pub mod tcp;
pub mod text;
pub mod udp;

pub use error::{ApexError, ApexResult};
pub use health::{HealthStatus, LivelinessState, ReadinessState};
pub use identity::{HostId, MessageId, NodeId, PeerId, SessionId, TopicId};
pub use qos::{CongestPolicy, DropPolicy, History, LateJoinPolicy, Qos, Reliability};
