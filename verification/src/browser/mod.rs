//! Browser-side bookkeeping: errors and their categories, counters, retry
//! and IP rotation decisions, metadata normalization and QA recording.
pub mod discovery_loop;
pub mod automation;
pub mod error;
pub mod error_handler;
pub mod fingerprint;
pub mod human;
pub mod ip_rotator;
pub mod metadata;
pub mod metrics;
pub mod pbd;
pub mod profile;
pub mod qa;
pub mod retry;
pub mod searcher;
