//! Paced load generation against an update-check service: per-device attempt
//! scheduling, latency recording into bounded histograms, and run-level aggregation.

pub mod aggregate;
pub mod histogram;
pub mod identity;
pub mod pacing;
pub mod provisioning;
pub mod recorder;
pub mod worker;
