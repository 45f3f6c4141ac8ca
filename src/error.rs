use vstd::prelude::*;

verus! {

/// What can go wrong at the boundary of the registry.
#[derive(Debug, PartialEq, Eq)]
pub enum MetricsError {
    /// A histogram with this name is already registered.
    DuplicateName(String),
    /// No histogram with this name is registered.
    UnknownMetric(String),
    /// The text encoder could not write its output.
    EncodeIO,
    /// The diagnostic severity level is not recognized.
    InvalidConfig(String),
}

} // verus!
