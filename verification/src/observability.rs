//! Structured metrics for the APEX runtime: labelled counters and gauges
//! updated lock-free, and a bounded registry of named metrics.
pub mod error;
pub mod metrics;
pub mod registry;

pub use error::ObsError;
pub use metrics::{Counter, Gauge, Label};
pub use registry::{MetricEntry, Registry, MAX_LABEL_LEN, MAX_METRICS, MAX_NAME_LEN};
