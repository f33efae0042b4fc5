//! Why processing a plan failed.
use vstd::prelude::*;

verus! {

/// Why processing a plan failed.
#[derive(Clone, Debug)]
pub enum ProcessorError {
    MissingSourceUrl { plan_id: String },
    Capture(String),
    Download(String),
    InvalidMedia(String),
    /// An I/O error at a path, with the error's text.
    Io { message: String, path: String },
    Network(String),
    Serialization(String),
    Transcode(String),
    Qc(String),
    Database(String),
}

} // verus!
