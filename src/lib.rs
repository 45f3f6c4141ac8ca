//! A registry of labeled histograms, with checked registration and lookup,
//! text encoding through `prometheus_client`, and the parsing of the
//! diagnostic severity level.

pub mod encoding;
pub mod error;
pub mod laws;
pub mod level;
pub mod metrics;
pub mod registry;
