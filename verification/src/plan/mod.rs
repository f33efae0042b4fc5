//! Plans: candidate content from discovery to broadcast, and their store.
pub mod models;
pub mod planner;
pub mod realizer;
pub mod selection;
pub mod store;
