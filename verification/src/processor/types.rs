//! Working directories of the processor and the values that describe
//! downloaded and mastered media.
use vstd::prelude::*;

use super::error::ProcessorError;
use crate::config::DownloadSection;
use crate::text::{owned, path_join, path_join_str};

verus! {

/// The staging tree of one plan: the root and its `source`, `remux` and
/// `logs` directories.
#[derive(Clone, Debug)]
pub struct StagingPaths {
    pub root: String,
    pub source: String,
    pub remux: String,
    pub logs: String,
}

impl StagingPaths {
    pub fn new(root: String) -> (r: Self)
        ensures
            r.root@ == root@,
            r.source@ == path_join(root@, "source"@),
            r.remux@ == path_join(root@, "remux"@),
            r.logs@ == path_join(root@, "logs"@),
    {
        let source = path_join_str(root.as_str(), "source");
        let remux = path_join_str(root.as_str(), "remux");
        let logs = path_join_str(root.as_str(), "logs");
        StagingPaths { root, source, remux, logs }
    }
}

/// A file downloaded in one piece.
#[derive(Clone, Debug)]
pub struct ProgressiveDownload {
    pub file_path: String,
    pub size_bytes: u64,
}

/// Whether a master was remuxed as it came or transcoded.
#[derive(Clone, Copy, Debug, PartialEq, Eq, Structural)]
pub enum MasteringStrategy {
    Remux,
    Transcode,
}

impl MasteringStrategy {
    pub open spec fn spec_as_str(self) -> Seq<char> {
        match self {
            MasteringStrategy::Remux => "remux"@,
            MasteringStrategy::Transcode => "transcode"@,
        }
    }

    /// The strategy's name in reports.
    pub fn as_str(&self) -> (r: String)
        ensures
            r@ == self.spec_as_str(),
    {
        match self {
            MasteringStrategy::Remux => owned("remux"),
            MasteringStrategy::Transcode => owned("transcode"),
        }
    }
}

/// The files that quality control leaves.
#[derive(Clone, Debug)]
pub struct QcArtifacts {
    pub qc_report: String,
    pub checksums: String,
    pub manifest: String,
}


/// How often a processing step is tried, and the range of the waits
/// between tries, in seconds.
#[derive(Clone, Copy, Debug)]
pub struct RetryPolicy {
    pub attempts: u32,
    pub delay_range: [u32; 2],
}

impl TryFrom<DownloadSection> for RetryPolicy {
    type Error = ProcessorError;

    /// The download settings' retries and delays; refused when no retry is
    /// allowed.
    fn try_from(section: DownloadSection) -> (r: Result<Self, Self::Error>)
        ensures
            section.max_retries == 0 ==> (r matches Err(ProcessorError::InvalidMedia(m)) && m@
                == "max_retries must be greater than zero"@),
            section.max_retries != 0 ==> (r matches Ok(p) && p.attempts == section.max_retries && p.delay_range
                == section.retry_delay_seconds),
    {
        if section.max_retries == 0 {
            return Err(ProcessorError::InvalidMedia(owned("max_retries must be greater than zero")));
        }
        Ok(RetryPolicy { attempts: section.max_retries, delay_range: section.retry_delay_seconds })
    }
}

/// The conversion's contract is the `ensures` of `try_from` above; the
/// trait-level description is not used.
impl vstd::std_specs::convert::TryFromSpecImpl<DownloadSection> for RetryPolicy {
    open spec fn obeys_try_from_spec() -> bool {
        false
    }

    open spec fn try_from_spec(v: DownloadSection) -> Result<Self, ProcessorError> {
        arbitrary()
    }
}

} // verus!
