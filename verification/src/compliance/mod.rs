//! Compliance checks on media and licensing records.
use vstd::prelude::*;

pub mod audit;
pub mod csam;
pub mod drm;

verus! {

/// Why a compliance check could not run or complete.
#[derive(Clone, Debug)]
pub enum ComplianceError {
    /// A file or directory the scan needs does not exist.
    Missing(String),
    /// A line of a CSV hash database whose hash is not 64 hexadecimal digits.
    InvalidHash { line: usize, path: String },
    /// Reading a file failed.
    Io { path: String, message: String },
    /// A JSON document could not be parsed.
    Json { path: String, message: String },
    /// Walking a directory failed.
    Walk { path: String, message: String },
}

} // verus!
