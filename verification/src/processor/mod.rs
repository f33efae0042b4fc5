//! Turning captured media into masters: working directories, what was
//! downloaded, how it is mastered, and what can go wrong.
pub mod error;
pub mod playlist;
pub mod segments;
pub mod types;
