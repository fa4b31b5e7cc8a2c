//! Metric primitives: labels, counters and gauges.
//!
//! A counter or gauge is shared: every clone points to the same atomic
//! value, which any thread may update at any time.
use vstd::prelude::*;
use std::sync::Arc;
use std::sync::atomic::{AtomicI64, AtomicU64, Ordering};
use crate::observability::registry::MAX_LABEL_LEN;
use crate::text::text;

verus! {

/// A key-value label attached to a metric.
#[derive(Debug, Clone, PartialEq, Eq, Hash)]
pub struct Label {
    /// The label's key.
    pub key: String,
    /// The label's value.
    pub value: String,
}

impl Label {
    /// Create a new label, or `None` if either string exceeds
    /// [`MAX_LABEL_LEN`] bytes.
    pub fn new(key: &str, value: &str) -> (r: Option<Self>)
        ensures
            match r {
                Some(l) => key.len() <= MAX_LABEL_LEN && value.len() <= MAX_LABEL_LEN && l.key@
                    == key@ && l.value@ == value@,
                None => key.len() > MAX_LABEL_LEN || value.len() > MAX_LABEL_LEN,
            },
    {
        if key.len() > MAX_LABEL_LEN || value.len() > MAX_LABEL_LEN {
            return None;
        }
        Some(Label { key: text(key), value: text(value) })
    }
}

/// A monotonically increasing unsigned 64-bit counter, shared by all its
/// clones.
#[derive(Debug, Clone)]
pub struct Counter {
    inner: Arc<AtomicU64>,
    /// The labels of this counter.
    pub labels: Vec<Label>,
}

impl Counter {
    /// The labels of this counter.
    pub closed spec fn spec_labels(&self) -> Seq<Label> {
        self.labels@
    }

    /// Create a new counter initialised to zero.
    pub fn new(labels: Vec<Label>) -> (c: Self)
        ensures
            c.spec_labels() == labels@,
    {
        Counter { inner: Arc::new(AtomicU64::new(0)), labels }
    }

    /// Increment the counter by `delta` (wrapping past `u64::MAX`).
    pub fn inc_by(&self, delta: u64) {
        self.inner.fetch_add(delta, Ordering::Relaxed);
    }

    /// Increment the counter by one.
    pub fn inc(&self) {
        self.inc_by(1);
    }

    /// Read the current value.
    pub fn get(&self) -> u64 {
        self.inner.load(Ordering::Relaxed)
    }
}

/// A signed 64-bit gauge that can freely increase or decrease, shared by
/// all its clones.
#[derive(Debug, Clone)]
pub struct Gauge {
    inner: Arc<AtomicI64>,
    /// The labels of this gauge.
    pub labels: Vec<Label>,
}

impl Gauge {
    /// The labels of this gauge.
    pub closed spec fn spec_labels(&self) -> Seq<Label> {
        self.labels@
    }

    /// Create a new gauge initialised to zero.
    pub fn new(labels: Vec<Label>) -> (g: Self)
        ensures
            g.spec_labels() == labels@,
    {
        Gauge { inner: Arc::new(AtomicI64::new(0)), labels }
    }

    /// Set the gauge to an absolute value.
    pub fn set(&self, value: i64) {
        self.inner.store(value, Ordering::Relaxed);
    }

    /// Add `delta` to the current value (wrapping).
    pub fn add(&self, delta: i64) {
        self.inner.fetch_add(delta, Ordering::Relaxed);
    }

    /// Subtract `delta` from the current value (wrapping).
    pub fn sub(&self, delta: i64) {
        self.inner.fetch_sub(delta, Ordering::Relaxed);
    }

    /// Read the current value.
    pub fn get(&self) -> i64 {
        self.inner.load(Ordering::Relaxed)
    }
}

} // verus!
