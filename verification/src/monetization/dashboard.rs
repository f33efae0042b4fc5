//! The files of the monetization dashboard.
use vstd::prelude::*;

verus! {

/// Where the monetization dashboard and its data are written.
#[derive(Clone, Debug)]
pub struct DashboardArtifacts {
    pub html_path: String,
    pub finance_path: String,
    pub trends_path: String,
    pub heatmap_path: String,
}

} // verus!
