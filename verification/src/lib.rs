//! Telemetry ingestion core.
//!
//! Events of many sources are validated at admission, grouped into batches
//! that are bounded in size and in time, run through a chain of processors
//! with retries, and folded into one aggregate for each source.
//!
//! The library holds the rules and the data. What needs a clock, a socket or a
//! task is left to its driver: the scheduler and the pipeline are state
//! machines that say what is due, and the driver does it and reports back.

pub mod config;
pub mod error;
pub mod event;
pub mod gateway;
pub mod metrics;
pub mod params;
pub mod plugins;
pub mod processing;
pub mod processor;
pub mod retry;
pub mod scheduler;
pub mod store;
pub mod sums;
pub mod text;
pub mod validation;
