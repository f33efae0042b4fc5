//! Monetization: the economy ledger and the audience store.
pub mod audience;
pub mod dashboard;
pub mod economy;
pub mod spots;
