//! Core library of an autonomous streaming station: content discovery
//! bookkeeping, compliance scanning, distribution security, incident
//! communication and the planning data model.
pub mod text;
pub mod time;
pub mod urls;
pub mod incident;
pub mod llm;
pub mod monitor;
pub mod compliance;
pub mod plan;
pub mod processor;
pub mod quality;
pub mod storage;
pub mod monetization;
pub mod queue;
pub mod business_logic;
pub mod chance;
pub mod config;
pub mod curation;
pub mod digest;
pub mod distribution;
pub mod pattern;
pub mod browser;
