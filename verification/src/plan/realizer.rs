//! The realizer's decisions: what the plan store is told after a plan's
//! download ends, and how often a plan is retried.
use vstd::prelude::*;

use super::models::PlanStatus;
use crate::text::owned;

verus! {

/// How the realizer polls and how often it retries.
#[derive(Clone, Copy, Debug)]
pub struct RealizerConfig {
    pub poll_interval_secs: u64,
    pub max_attempts: usize,
}

impl Default for RealizerConfig {
    fn default() -> (r: Self)
        ensures
            r.poll_interval_secs == 10,
            r.max_attempts == 3,
    {
        RealizerConfig { poll_interval_secs: 10, max_attempts: 3 }
    }
}

/// How the download of a plan ended.
#[derive(Clone, Debug)]
pub enum RealizationOutcome {
    Downloaded { mark_ready: bool },
    Retry { note: String },
    Failed { note: String },
}

/// One change the realizer makes to the plan store.
#[derive(Clone, Debug)]
pub enum StoreUpdate {
    CompleteDownload,
    RecordAttempt { from: PlanStatus, to: PlanStatus, note: String },
    FinalizeReady,
    ResetFailures,
    IncrementFailure,
    FailPlan { note: String },
    UpdateStatus(PlanStatus),
}

/// A store update as plain values: its kind (0 to 6 in the order of the
/// variants), statuses and note.
pub open spec fn update_view(u: StoreUpdate) -> (int, Option<(PlanStatus, PlanStatus)>, Option<PlanStatus>, Seq<char>) {
    match u {
        StoreUpdate::CompleteDownload => (0, None, None, Seq::empty()),
        StoreUpdate::RecordAttempt { from, to, note } => (1, Some((from, to)), None, note@),
        StoreUpdate::FinalizeReady => (2, None, None, Seq::empty()),
        StoreUpdate::ResetFailures => (3, None, None, Seq::empty()),
        StoreUpdate::IncrementFailure => (4, None, None, Seq::empty()),
        StoreUpdate::FailPlan { note } => (5, None, None, note@),
        StoreUpdate::UpdateStatus(s) => (6, None, Some(s), Seq::empty()),
    }
}

pub open spec fn updates_view(v: Seq<StoreUpdate>) -> Seq<(int, Option<(PlanStatus, PlanStatus)>, Option<PlanStatus>, Seq<char>)> {
    v.map_values(|u: StoreUpdate| update_view(u))
}

/// The updates after an outcome. A download completes the plan, records
/// the attempt (in progress to downloaded), finalizes it when asked, and
/// clears its failures. A retry counts a failure, records the attempt (in
/// progress to selected), and fails the plan once this was its last allowed
/// attempt, or puts it back to selected. A failure fails the plan.
pub open spec fn outcome_updates(failure_count: i64, max_attempts: usize, outcome: RealizationOutcome) -> Seq<(int, Option<(PlanStatus, PlanStatus)>, Option<PlanStatus>, Seq<char>)> {
    match outcome {
        RealizationOutcome::Downloaded { mark_ready } => {
            let head = seq![
                (0int, None, None, Seq::empty()),
                (1int, Some((PlanStatus::InProgress, PlanStatus::Downloaded)), None, "download concluído"@),
            ];
            let ready = if mark_ready { seq![(2int, None, None, Seq::empty())] } else { Seq::empty() };
            head + ready + seq![(3int, None, None, Seq::empty())]
        },
        RealizationOutcome::Retry { note } => {
            let head = seq![
                (4int, None, None, Seq::empty()),
                (1int, Some((PlanStatus::InProgress, PlanStatus::Selected)), None, note@),
            ];
            if (failure_count as usize) + 1 >= max_attempts {
                head.push((5int, None, None, "limite de tentativas excedido"@))
            } else {
                head.push((6int, None, Some(PlanStatus::Selected), Seq::empty()))
            }
        },
        RealizationOutcome::Failed { note } => seq![(5int, None, None, note@)],
    }
}

/// The store updates after the download of a plan with `failure_count`
/// earlier failures ended with `outcome`.
pub fn outcome_updates_for(failure_count: i64, max_attempts: usize, outcome: RealizationOutcome) -> (r: Vec<StoreUpdate>)
    requires
        (failure_count as usize) < usize::MAX,
    ensures
        updates_view(r@) == outcome_updates(failure_count, max_attempts, outcome),
{
    let ghost o = outcome;
    let mut v: Vec<StoreUpdate> = Vec::new();
    match outcome {
        RealizationOutcome::Downloaded { mark_ready } => {
            v.push(StoreUpdate::CompleteDownload);
            v.push(StoreUpdate::RecordAttempt {
                from: PlanStatus::InProgress,
                to: PlanStatus::Downloaded,
                note: owned("download concluído"),
            });
            if mark_ready {
                v.push(StoreUpdate::FinalizeReady);
            }
            v.push(StoreUpdate::ResetFailures);
        },
        RealizationOutcome::Retry { note } => {
            v.push(StoreUpdate::IncrementFailure);
            v.push(StoreUpdate::RecordAttempt { from: PlanStatus::InProgress, to: PlanStatus::Selected, note });
            let count = failure_count as usize;
            if count + 1 >= max_attempts {
                v.push(StoreUpdate::FailPlan { note: owned("limite de tentativas excedido") });
            } else {
                v.push(StoreUpdate::UpdateStatus(PlanStatus::Selected));
            }
        },
        RealizationOutcome::Failed { note } => {
            v.push(StoreUpdate::FailPlan { note });
        },
    }
    assert(updates_view(v@) =~= outcome_updates(failure_count, max_attempts, o));
    v
}

/// A plan that keeps being retried is failed at the latest on its
/// `max_attempts`-th try: a retry whose failure count has reached
/// `max_attempts - 1` ends with the plan failed, never back in the queue.
pub proof fn law_retries_end_in_failure(failure_count: i64, max_attempts: usize, note: String)
    requires
        (failure_count as usize) + 1 >= max_attempts,
    ensures
        outcome_updates(failure_count, max_attempts, RealizationOutcome::Retry { note }).last().0 == 5,
        !outcome_updates(failure_count, max_attempts, RealizationOutcome::Retry { note }).contains(
            (6int, None, Some(PlanStatus::Selected), Seq::<char>::empty()),
        ),
{
    let s = outcome_updates(failure_count, max_attempts, RealizationOutcome::Retry { note });
    assert forall|k: int| 0 <= k < s.len() implies s[k] != (6int, None::<(PlanStatus, PlanStatus)>, Some(PlanStatus::Selected), Seq::<char>::empty()) by {
        if k == 0 {
            assert(s[k].0 == 4);
        } else if k == 1 {
            assert(s[k].0 == 1);
        } else {
            assert(s[k].0 == 5);
        }
    }
}

} // verus!
