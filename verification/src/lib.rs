//! Segment-optimization core of a vector-search storage engine.
//!
//! The crate keeps the index structures of a collection consistent with the
//! configuration the collection declares: it models the persisted
//! configuration, the registry of segments, the contract every optimizer
//! follows, and the strategy that finds the segment whose index no longer
//! matches the configuration.

pub mod config;
pub mod config_mismatch_optimizer;
pub mod names;
pub mod operations;
pub mod rebuild;
pub mod segment;
pub mod segment_holder;
pub mod segment_optimizer;
pub mod target;
pub mod telemetry;
pub mod types;
