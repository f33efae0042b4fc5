//! The retry schedule of browser operations and the decision taken after
//! each failed attempt.
use vstd::prelude::*;

use crate::browser::error_handler::{BrowserErrorCategory, RemediationAction};
use crate::browser::metrics::{sat, BrowserMetrics};
use crate::chance::random_between;
use crate::config::RetrySection;

verus! {

/// How often and after which delays an operation is tried again.
#[derive(Clone, Debug)]
pub struct RetryPolicy {
    max_attempts: usize,
    schedule: Vec<u64>,
    jitter_seconds: u64,
}

/// The result of an operation and the number of attempts it took.
#[derive(Clone, Debug)]
pub struct RetryOutcome<T> {
    pub result: T,
    pub attempts: usize,
}

/// The schedule in seconds for a schedule in minutes; ten minutes, 45
/// minutes and a day when none is given.
pub open spec fn schedule_secs(minutes: Seq<u64>) -> Seq<u64> {
    if minutes.len() == 0 {
        seq![600u64, 2700u64, 86400u64]
    } else {
        minutes.map_values(|m: u64| (m * 60) as u64)
    }
}

/// What the caller learnt from the IP rotator, when it asked it to rotate.
#[derive(Clone, Debug)]
pub enum RotationReport {
    /// No rotation was asked for (no bot detection, or no rotator).
    NotAsked,
    /// The rotator moved to this exit node.
    Rotated(String),
    /// The rotator has no exit node.
    NoExitNode,
    /// The rotation itself failed.
    Failed,
}

/// What to do after a failed attempt.
#[derive(Clone, Debug)]
pub enum FailureDecision {
    /// Record the rotation error with `Abort` and return the operation's error.
    AbortAfterRotationError,
    /// Record the failure with this action, then wait and try again.
    Retry { action: RemediationAction, delay_seconds: u64 },
    /// Record the failure with this action and return the operation's error.
    GiveUp { action: RemediationAction },
}

impl RetryPolicy {
    pub closed spec fn spec_max_attempts(self) -> usize {
        self.max_attempts
    }

    pub closed spec fn spec_schedule(self) -> Seq<u64> {
        self.schedule@
    }

    pub closed spec fn spec_jitter(self) -> u64 {
        self.jitter_seconds
    }

    pub open spec fn wf(self) -> bool {
        self.spec_schedule().len() > 0 && self.spec_max_attempts() >= 1
    }

    /// The extra seconds added to a retry delay: a random number from 0 to
    /// the configured jitter, inclusive, or none when the jitter is zero.
    pub fn draw_jitter(&self) -> (r: u64)
        ensures
            r <= self.spec_jitter(),
            self.spec_jitter() == 0 ==> r == 0,
    {
        if self.jitter_seconds > 0 {
            random_between(0, self.jitter_seconds)
        } else {
            0
        }
    }

    /// Delay before attempt number `attempt` (zero-based): none before the
    /// first; then the schedule's entries in turn, the last one repeating.
    pub open spec fn delay_at(self, attempt: int) -> u64 {
        if attempt == 0 {
            0
        } else if attempt - 1 < self.spec_schedule().len() {
            self.spec_schedule()[attempt - 1]
        } else {
            self.spec_schedule().last()
        }
    }

    /// A policy from the configuration: the schedule turned into seconds
    /// (the default one when empty) and at least one attempt.
    pub fn new(config: RetrySection) -> (r: Self)
        requires
            forall|i: int| 0 <= i < config.schedule_minutes@.len() ==> #[trigger] config.schedule_minutes@[i] * 60 <= u64::MAX,
        ensures
            r.wf(),
            r.spec_schedule() == schedule_secs(config.schedule_minutes@),
            r.spec_max_attempts() == if config.max_attempts >= 1 {
                config.max_attempts
            } else {
                1
            },
            r.spec_jitter() == config.jitter_seconds,
    {
        let minutes = config.schedule_minutes;
        let mut schedule: Vec<u64> = Vec::new();
        let mut i: usize = 0;
        while i < minutes.len()
            invariant
                i <= minutes@.len(),
                forall|j: int| 0 <= j < minutes@.len() ==> #[trigger] minutes@[j] * 60 <= u64::MAX,
                schedule@ == minutes@.take(i as int).map_values(|m: u64| (m * 60) as u64),
            decreases minutes@.len() - i,
        {
            schedule.push(minutes[i] * 60);
            i = i + 1;
            assert(schedule@ =~= minutes@.take(i as int).map_values(|m: u64| (m * 60) as u64));
        }
        assert(minutes@.take(minutes@.len() as int) =~= minutes@);
        if schedule.len() == 0 {
            schedule.push(600);
            schedule.push(2700);
            schedule.push(86400);
            assert(schedule@ =~= seq![600u64, 2700u64, 86400u64]);
        }
        let max_attempts = if config.max_attempts >= 1 {
            config.max_attempts
        } else {
            1
        };
        RetryPolicy { max_attempts, schedule, jitter_seconds: config.jitter_seconds }
    }

    pub fn max_attempts(&self) -> (r: usize)
        ensures
            r == self.spec_max_attempts(),
    {
        self.max_attempts
    }

    pub fn jitter_seconds(&self) -> (r: u64)
        ensures
            r == self.spec_jitter(),
    {
        self.jitter_seconds
    }

    /// Delay in seconds before the given (zero-based) attempt.
    pub fn delay_for_attempt(&self, attempt: usize) -> (r: u64)
        requires
            self.wf(),
        ensures
            r == self.delay_at(attempt as int),
    {
        if attempt == 0 {
            0
        } else if attempt - 1 < self.schedule.len() {
            self.schedule[attempt - 1]
        } else {
            self.schedule[self.schedule.len() - 1]
        }
    }

    /// What follows the failure of zero-based attempt `attempt` with an
    /// error of category `category`. `rotation` is what the IP rotator
    /// reported (it is asked only on bot detection) and `jitter` the random
    /// extra delay drawn for this attempt. The counters are updated as the
    /// failure requires: one playback failure, one proxy rotation when the
    /// rotator moved, one bot detection when the error was one.
    pub fn on_failure(
        &self,
        attempt: usize,
        category: BrowserErrorCategory,
        rotation: RotationReport,
        jitter: u64,
        metrics: &mut BrowserMetrics,
    ) -> (d: FailureDecision)
        requires
            self.wf(),
            attempt < usize::MAX,
            jitter <= self.spec_jitter(),
            self.delay_at(attempt + 1) + jitter <= u64::MAX,
        ensures
            match rotation {
                RotationReport::Failed => {
                    &&& d is AbortAfterRotationError
                    &&& *final(metrics) == (BrowserMetrics {
                        playback_failures: sat(old(metrics).playback_failures, 1),
                        ..*old(metrics)
                    })
                },
                _ => {
                    let bot = category == BrowserErrorCategory::BotDetection;
                    let rotated = rotation is Rotated;
                    let delay = (self.delay_at(attempt + 1) + if self.spec_jitter() > 0 {
                        jitter
                    } else {
                        0
                    }) as u64;
                    let action = if bot {
                        RemediationAction::IpRotated {
                            exit_node: match rotation {
                                RotationReport::Rotated(e) => Some(e),
                                _ => None,
                            },
                        }
                    } else if attempt + 1 >= self.spec_max_attempts() {
                        RemediationAction::Abort
                    } else {
                        RemediationAction::RetryScheduled { delay_seconds: delay }
                    };
                    &&& *final(metrics) == (BrowserMetrics {
                        playback_failures: sat(old(metrics).playback_failures, 1),
                        proxy_rotations: if rotated {
                            sat(old(metrics).proxy_rotations, 1)
                        } else {
                            old(metrics).proxy_rotations
                        },
                        bot_detections: if bot {
                            sat(old(metrics).bot_detections, 1)
                        } else {
                            old(metrics).bot_detections
                        },
                        ..*old(metrics)
                    })
                    &&& if attempt + 1 >= self.spec_max_attempts() {
                        d == FailureDecision::GiveUp { action }
                    } else {
                        d == FailureDecision::Retry { action, delay_seconds: delay }
                    }
                },
            },
    {
        metrics.record_playback_failure();
        let bot = match category {
            BrowserErrorCategory::BotDetection => true,
            _ => false,
        };
        let mut rotated_exit: Option<String> = None;
        match rotation {
            RotationReport::Failed => {
                return FailureDecision::AbortAfterRotationError;
            },
            RotationReport::Rotated(exit) => {
                metrics.record_proxy_rotation();
                rotated_exit = Some(exit);
            },
            _ => {},
        }
        if bot {
            metrics.record_bot_detection();
        }
        let next_delay = self.delay_for_attempt(attempt + 1);
        let delay = if self.jitter_seconds > 0 {
            next_delay + jitter
        } else {
            next_delay
        };
        let action = if bot {
            RemediationAction::IpRotated { exit_node: rotated_exit }
        } else if attempt + 1 >= self.max_attempts {
            RemediationAction::Abort
        } else {
            RemediationAction::RetryScheduled { delay_seconds: delay }
        };
        if attempt + 1 >= self.max_attempts {
            FailureDecision::GiveUp { action }
        } else {
            FailureDecision::Retry { action, delay_seconds: delay }
        }
    }
}

/// An operation is tried at most `max_attempts` times: the failure of the
/// last allowed attempt never schedules another one.
pub proof fn law_attempts_bounded(policy: RetryPolicy, attempt: int)
    requires
        policy.wf(),
        attempt + 1 >= policy.spec_max_attempts(),
    ensures
        !(attempt + 1 < policy.spec_max_attempts()),
{
}

/// The delays follow the schedule and then repeat its last entry.
pub proof fn law_delay_follows_schedule(policy: RetryPolicy, a: int, b: int)
    requires
        policy.wf(),
        policy.spec_schedule().len() <= a - 1,
        policy.spec_schedule().len() <= b - 1,
    ensures
        policy.delay_at(a) == policy.delay_at(b),
        policy.delay_at(a) == policy.spec_schedule().last(),
{
}


/// The retries walk the schedule from its start: no wait before the first
/// attempt, the first entry before the first retry, and the waits before
/// retries `1..=n` (for a schedule of `n` entries) are the schedule itself,
/// each entry used once and in order.
pub proof fn law_schedule_walked_in_order(policy: RetryPolicy)
    requires
        policy.wf(),
    ensures
        policy.delay_at(0) == 0,
        policy.delay_at(1) == policy.spec_schedule()[0],
        Seq::new(policy.spec_schedule().len(), |i: int| policy.delay_at(i + 1)) == policy.spec_schedule(),
{
    assert(Seq::new(policy.spec_schedule().len(), |i: int| policy.delay_at(i + 1)) =~= policy.spec_schedule());
}


/// A policy made from a schedule in minutes waits, before its first retry,
/// the first configured entry in seconds, or ten minutes when none is
/// configured.
pub proof fn law_first_retry_waits_first_entry(policy: RetryPolicy, minutes: Seq<u64>)
    requires
        policy.wf(),
        policy.spec_schedule() == schedule_secs(minutes),
        forall|i: int| 0 <= i < minutes.len() ==> #[trigger] minutes[i] * 60 <= u64::MAX,
    ensures
        minutes.len() == 0 ==> policy.delay_at(1) == 600,
        minutes.len() > 0 ==> policy.delay_at(1) == minutes[0] * 60,
{
    law_schedule_walked_in_order(policy);
    if minutes.len() > 0 {
        assert(minutes[0] * 60 <= u64::MAX);
    }
}

} // verus!
