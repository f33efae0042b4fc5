//! The discovery loop's bookkeeping: how many candidates it takes, when it
//! waits between them, what each outcome adds to the statistics, and when
//! an error stops the run.
use vstd::prelude::*;

use super::pbd::BrowserCaptureKind;
use crate::chance::random_between;
use crate::text::{concat2, owned};

verus! {

/// How a discovery run proceeds.
#[derive(Clone, Copy, Debug)]
pub struct DiscoveryConfig {
    pub max_plans_per_run: usize,
    pub candidate_delay_range_ms: (u64, u64),
    pub stop_on_first_error: bool,
    pub dry_run: bool,
    pub debug: bool,
}

/// What a discovery run did.
#[derive(Clone, Debug)]
pub struct DiscoveryStats {
    pub query: String,
    pub search_engine: String,
    pub candidates_found: usize,
    pub candidates_processed: usize,
    pub plans_created: usize,
    pub dry_run: bool,
    pub total_wait_ms: u64,
    pub duration_secs: u64,
    pub errors: Vec<String>,
}

/// How one candidate ended.
#[derive(Clone, Debug)]
pub enum CandidateOutcome {
    /// A plan was created from it.
    PlanCreated,
    /// It was played but, in a dry run, no plan was stored.
    DryRun,
    /// It failed, with the error's text.
    Failed { url: String, error: String },
}

/// What to do with a candidate once its page was played.
#[derive(Clone, Copy, Debug, PartialEq, Eq, Structural)]
pub enum CandidateStep {
    /// No playable manifest was captured: the candidate fails.
    Reject,
    /// Dry run: nothing is stored.
    Skip,
    /// Store a plan.
    CreatePlan,
}

/// The step after playing a candidate whose capture is of the given kind.
pub fn candidate_step(kind: BrowserCaptureKind, dry_run: bool) -> (r: CandidateStep)
    ensures
        r == if kind == BrowserCaptureKind::Unknown {
            CandidateStep::Reject
        } else if dry_run {
            CandidateStep::Skip
        } else {
            CandidateStep::CreatePlan
        },
{
    match kind {
        BrowserCaptureKind::Unknown => CandidateStep::Reject,
        _ => if dry_run {
            CandidateStep::Skip
        } else {
            CandidateStep::CreatePlan
        },
    }
}

impl DiscoveryStats {
    /// Fresh statistics for a run of `query` on `engine`.
    pub fn new(query: &str, engine: &str, dry_run: bool) -> (r: Self)
        ensures
            r.query@ == query@,
            r.search_engine@ == engine@,
            r.dry_run == dry_run,
            r.candidates_found == 0,
            r.candidates_processed == 0,
            r.plans_created == 0,
            r.total_wait_ms == 0,
            r.duration_secs == 0,
            r.errors@.len() == 0,
    {
        DiscoveryStats {
            query: owned(query),
            search_engine: owned(engine),
            candidates_found: 0,
            candidates_processed: 0,
            plans_created: 0,
            dry_run,
            total_wait_ms: 0,
            duration_secs: 0,
            errors: Vec::new(),
        }
    }

    /// Whether the run takes another candidate: it has created fewer plans
    /// than the configured maximum.
    pub fn has_room(&self, config: &DiscoveryConfig) -> (r: bool)
        ensures
            r == (self.plans_created < config.max_plans_per_run),
    {
        self.plans_created < config.max_plans_per_run
    }

    /// Whether the run waits before the next candidate: every candidate but
    /// the first is preceded by a wait.
    pub fn waits_before_next(&self) -> (r: bool)
        ensures
            r == (self.candidates_processed > 0),
    {
        self.candidates_processed > 0
    }

    /// Adds a wait to the total.
    pub fn record_wait(&mut self, waited_ms: u64)
        requires
            old(self).total_wait_ms + waited_ms <= u64::MAX,
        ensures
            *final(self) == (DiscoveryStats { total_wait_ms: (old(self).total_wait_ms + waited_ms) as u64, ..*old(self) }),
    {
        self.total_wait_ms = self.total_wait_ms + waited_ms;
    }

    /// Records how a candidate ended; `false` when the run stops there (a
    /// failure with `stop_on_first_error`), in which case the candidate is
    /// not counted as processed.
    pub fn record_candidate(&mut self, outcome: CandidateOutcome, stop_on_first_error: bool) -> (r: bool)
        requires
            old(self).candidates_processed < usize::MAX,
            old(self).plans_created < usize::MAX,
        ensures
            r == !(outcome is Failed && stop_on_first_error),
            final(self).query == old(self).query,
            final(self).search_engine == old(self).search_engine,
            final(self).candidates_found == old(self).candidates_found,
            final(self).dry_run == old(self).dry_run,
            final(self).total_wait_ms == old(self).total_wait_ms,
            final(self).duration_secs == old(self).duration_secs,
            final(self).plans_created == old(self).plans_created + if outcome is PlanCreated { 1int } else { 0 },
            final(self).candidates_processed == old(self).candidates_processed + if r { 1int } else { 0 },
            match outcome {
                CandidateOutcome::Failed { url, error } => final(self).errors@.len() == old(self).errors@.len() + 1
                    && final(self).errors@.take(old(self).errors@.len() as int) == old(self).errors@
                    && final(self).errors@.last()@ == url@ + ": "@ + error@,
                _ => final(self).errors@ == old(self).errors@,
            },
    {
        let mut go_on = true;
        match outcome {
            CandidateOutcome::PlanCreated => {
                self.plans_created = self.plans_created + 1;
            },
            CandidateOutcome::DryRun => {},
            CandidateOutcome::Failed { url, error } => {
                let mut message = concat2(url.as_str(), ": ");
                message.append(error.as_str());
                self.errors.push(message);
                if stop_on_first_error {
                    go_on = false;
                }
            },
        }
        if go_on {
            self.candidates_processed = self.candidates_processed + 1;
        }
        go_on
    }
}

/// Random waits between candidates.
#[derive(Clone, Copy, Debug)]
pub struct RateLimiter {
    range: (u64, u64),
}

impl RateLimiter {
    pub closed spec fn spec_range(self) -> (u64, u64) {
        self.range
    }

    pub fn new(range: (u64, u64)) -> (r: Self)
        ensures
            r.spec_range() == range,
    {
        RateLimiter { range }
    }

    /// The next wait in milliseconds: none when both bounds are zero,
    /// otherwise a random number between the smaller and the larger bound,
    /// inclusive.
    pub fn next_delay(&self) -> (r: u64)
        ensures
            self.spec_range().0 == 0 && self.spec_range().1 == 0 ==> r == 0,
            self.spec_range().0 <= self.spec_range().1 ==> self.spec_range().0 <= r <= self.spec_range().1,
            self.spec_range().1 < self.spec_range().0 ==> self.spec_range().1 <= r <= self.spec_range().0,
    {
        if self.range.0 == 0 && self.range.1 == 0 {
            return 0;
        }
        let lower = if self.range.0 <= self.range.1 { self.range.0 } else { self.range.1 };
        let upper = if self.range.0 <= self.range.1 { self.range.1 } else { self.range.0 };
        random_between(lower, upper)
    }
}

} // verus!
