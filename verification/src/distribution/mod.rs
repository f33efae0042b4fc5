//! Distribution to the edge: signed segment tokens, edge buffers, replication
//! and CDN command output.
pub mod cdn;
pub mod edge;
pub mod replicator;
pub mod security;
