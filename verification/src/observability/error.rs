//! Errors of the observability layer.
use vstd::prelude::*;
use crate::observability::registry::{MAX_LABEL_LEN, MAX_METRICS, MAX_NAME_LEN};
use crate::text::{dec_text, push_dec, push_str, text};

verus! {

/// All errors from the observability layer.
#[derive(Debug, Clone, PartialEq, Eq)]
pub enum ObsError {
    /// The metric registry has no remaining capacity.
    RegistryFull,
    /// The metric name exceeds [`MAX_NAME_LEN`] bytes.
    NameTooLong { len: usize },
    /// A label exceeds [`MAX_LABEL_LEN`] bytes.
    LabelTooLong { len: usize },
    /// A metric with this name already exists.
    DuplicateMetric { name: String },
    /// Histogram bucket boundaries are not strictly increasing.
    InvalidBuckets,
}

impl ObsError {
    /// The message of this error.
    pub open spec fn spec_message(&self) -> Seq<char> {
        match self {
            ObsError::RegistryFull => "metric registry full (max "@ + dec_text(MAX_METRICS as nat)
                + " entries)"@,
            ObsError::NameTooLong { len } => "metric name too long: "@ + dec_text(*len as nat)
                + " bytes (max "@ + dec_text(MAX_NAME_LEN as nat) + ")"@,
            ObsError::LabelTooLong { len } => "label too long: "@ + dec_text(*len as nat)
                + " bytes (max "@ + dec_text(MAX_LABEL_LEN as nat) + ")"@,
            ObsError::DuplicateMetric { name } => "metric '"@ + name@ + "' already registered"@,
            ObsError::InvalidBuckets => "histogram bucket boundaries must be strictly increasing"@,
        }
    }

    /// The human-readable message of this error.
    pub fn to_string(&self) -> (s: String)
        ensures
            s@ == self.spec_message(),
    {
        match self {
            ObsError::RegistryFull => {
                let mut s = text("metric registry full (max ");
                push_dec(&mut s, MAX_METRICS as u128);
                push_str(&mut s, " entries)");
                s
            },
            ObsError::NameTooLong { len } => {
                let mut s = text("metric name too long: ");
                push_dec(&mut s, *len as u128);
                push_str(&mut s, " bytes (max ");
                push_dec(&mut s, MAX_NAME_LEN as u128);
                push_str(&mut s, ")");
                s
            },
            ObsError::LabelTooLong { len } => {
                let mut s = text("label too long: ");
                push_dec(&mut s, *len as u128);
                push_str(&mut s, " bytes (max ");
                push_dec(&mut s, MAX_LABEL_LEN as u128);
                push_str(&mut s, ")");
                s
            },
            ObsError::DuplicateMetric { name } => {
                let mut s = text("metric '");
                push_str(&mut s, name.as_str());
                push_str(&mut s, "' already registered");
                s
            },
            ObsError::InvalidBuckets => text("histogram bucket boundaries must be strictly increasing"),
        }
    }
}

} // verus!
