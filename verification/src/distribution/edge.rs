//! Edge nodes: their configuration, the state of their segment buffer and
//! the command that initializes them.
use vstd::prelude::*;

use crate::text::{clone_strings, join, join_strings, views};

verus! {

/// How an edge node is initialized, probed and judged.
#[derive(Clone, Debug)]
pub struct EdgeConfig {
    pub init_command: String,
    pub init_args: Vec<String>,
    pub region: String,
    pub latency_targets: Vec<String>,
    pub latency_log_path: String,
    pub heatmap_output_path: String,
    pub buffer_seconds: u64,
    pub reload_threshold_seconds: u64,
}

/// A segment held at the edge: how old it is and how long it plays.
#[derive(Clone, Debug)]
pub struct SegmentSnapshot {
    pub path: String,
    pub age_seconds: u64,
    pub duration_seconds: u64,
}

/// The state of an edge buffer.
#[derive(Clone, Debug)]
pub struct EdgeBufferStatus {
    pub total_buffer_seconds: u64,
    pub newest_segment_age: u64,
    pub needs_reload: bool,
}

/// What an edge node reports about itself.
#[derive(Clone, Debug)]
pub struct EdgeSummary {
    pub region: String,
    pub targets: Vec<String>,
    pub buffer_seconds: u64,
    pub reload_threshold_seconds: u64,
}

/// The playing time of the segments, in seconds.
pub open spec fn buffered_seconds(segments: Seq<SegmentSnapshot>) -> int
    decreases segments.len(),
{
    if segments.len() == 0 {
        0
    } else {
        buffered_seconds(segments.drop_last()) + segments.last().duration_seconds
    }
}

/// The age of the newest segment, `u64::MAX` when there is none.
pub open spec fn newest_age(segments: Seq<SegmentSnapshot>) -> u64
    decreases segments.len(),
{
    if segments.len() == 0 {
        u64::MAX
    } else {
        let rest = newest_age(segments.drop_last());
        if segments.last().age_seconds < rest {
            segments.last().age_seconds
        } else {
            rest
        }
    }
}

/// The newest segment is the youngest one: the reported age is at most the
/// age of every segment, is the age of one of them when there is any, and is
/// `u64::MAX` for an empty buffer. So the order of the segments does not
/// matter.
pub proof fn law_newest_age_is_minimum(segments: Seq<SegmentSnapshot>)
    ensures
        forall|i: int| 0 <= i < segments.len() ==> newest_age(segments) <= #[trigger] segments[i].age_seconds,
        segments.len() > 0 ==> exists|i: int|
            0 <= i < segments.len() && newest_age(segments) == #[trigger] segments[i].age_seconds,
        segments.len() == 0 ==> newest_age(segments) == u64::MAX,
    decreases segments.len(),
{
    if segments.len() > 0 {
        let init = segments.drop_last();
        law_newest_age_is_minimum(init);
        assert forall|i: int| 0 <= i < segments.len() implies newest_age(segments) <= #[trigger] segments[i].age_seconds by {
            if i < segments.len() - 1 {
                assert(init[i] == segments[i]);
            }
        }
        if segments.last().age_seconds < newest_age(init) || init.len() == 0 {
            assert(newest_age(segments) == segments[segments.len() - 1].age_seconds);
        } else {
            let j = choose|j: int| 0 <= j < init.len() && newest_age(init) == #[trigger] init[j].age_seconds;
            assert(init[j] == segments[j]);
            assert(newest_age(segments) == segments[j].age_seconds);
        }
    }
}

/// The buffered time is the total of the segments' durations: one segment
/// gives its own duration, and two runs of segments together give the sum
/// of their times.
pub proof fn law_buffered_seconds_adds_up(a: Seq<SegmentSnapshot>, b: Seq<SegmentSnapshot>, x: SegmentSnapshot)
    ensures
        buffered_seconds(seq![x]) == x.duration_seconds,
        buffered_seconds(a + b) == buffered_seconds(a) + buffered_seconds(b),
    decreases b.len(),
{
    assert(seq![x].drop_last() =~= Seq::<SegmentSnapshot>::empty());
    assert(buffered_seconds(Seq::<SegmentSnapshot>::empty()) == 0);
    if b.len() == 0 {
        assert(a + b =~= a);
    } else {
        law_buffered_seconds_adds_up(a, b.drop_last(), x);
        assert((a + b).drop_last() =~= a + b.drop_last());
        assert((a + b).last() == b.last());
    }
}

/// The newest segment is older than a threshold exactly when every segment
/// is (an empty buffer counts as infinitely old).
pub proof fn law_newest_older_than_all(segments: Seq<SegmentSnapshot>, threshold: u64)
    ensures
        newest_age(segments) > threshold <==> (forall|i: int|
            0 <= i < segments.len() ==> #[trigger] segments[i].age_seconds > threshold) && (segments.len() > 0
            || threshold < u64::MAX),
{
    law_newest_age_is_minimum(segments);
}

proof fn lemma_buffered_prefix(segments: Seq<SegmentSnapshot>, i: int)
    requires
        0 <= i <= segments.len(),
    ensures
        buffered_seconds(segments.take(i)) <= buffered_seconds(segments),
    decreases segments.len() - i,
{
    if i < segments.len() {
        lemma_buffered_prefix(segments, i + 1);
        assert(segments.take(i + 1).drop_last() =~= segments.take(i));
    } else {
        assert(segments.take(i) =~= segments);
    }
}

/// Decisions about one edge node.
#[derive(Clone, Debug)]
pub struct EdgeOrchestrator {
    config: EdgeConfig,
}

impl EdgeOrchestrator {
    pub closed spec fn spec_config(self) -> EdgeConfig {
        self.config
    }

    pub fn new(config: EdgeConfig) -> (r: Self)
        ensures
            r.spec_config() == config,
    {
        EdgeOrchestrator { config }
    }

    pub fn config(&self) -> (r: &EdgeConfig)
        ensures
            *r == self.spec_config(),
    {
        &self.config
    }

    /// The buffer's playing time, the age of its newest segment (`u64::MAX`
    /// when empty), and whether to reload: less than the configured buffer
    /// is held and even the newest segment is older than the threshold.
    pub fn evaluate_buffer(&self, segments: &[SegmentSnapshot]) -> (r: EdgeBufferStatus)
        requires
            buffered_seconds(segments@) <= u64::MAX,
        ensures
            r.total_buffer_seconds == buffered_seconds(segments@),
            r.newest_segment_age == newest_age(segments@),
            r.needs_reload == (r.total_buffer_seconds < self.spec_config().buffer_seconds
                && r.newest_segment_age > self.spec_config().reload_threshold_seconds),
    {
        let mut total: u64 = 0;
        let mut newest: u64 = u64::MAX;
        let mut i: usize = 0;
        while i < segments.len()
            invariant
                i <= segments@.len(),
                buffered_seconds(segments@) <= u64::MAX,
                total == buffered_seconds(segments@.take(i as int)),
                newest == newest_age(segments@.take(i as int)),
            decreases segments@.len() - i,
        {
            assert(segments@.take(i + 1).drop_last() =~= segments@.take(i as int));
            proof {
                lemma_buffered_prefix(segments@, i + 1);
            }
            total = total + segments[i].duration_seconds;
            if segments[i].age_seconds < newest {
                newest = segments[i].age_seconds;
            }
            i = i + 1;
        }
        assert(segments@.take(segments@.len() as int) =~= segments@);
        let needs_reload = total < self.config.buffer_seconds && newest > self.config.reload_threshold_seconds;
        EdgeBufferStatus { total_buffer_seconds: total, newest_segment_age: newest, needs_reload }
    }

    /// The node's region, latency targets and buffer thresholds.
    pub fn summary(&self) -> (r: EdgeSummary)
        ensures
            r.region@ == self.spec_config().region@,
            views(r.targets@) == views(self.spec_config().latency_targets@),
            r.buffer_seconds == self.spec_config().buffer_seconds,
            r.reload_threshold_seconds == self.spec_config().reload_threshold_seconds,
    {
        EdgeSummary {
            region: self.config.region.clone(),
            targets: clone_strings(&self.config.latency_targets),
            buffer_seconds: self.config.buffer_seconds,
            reload_threshold_seconds: self.config.reload_threshold_seconds,
        }
    }

    /// The initialization command as words: the program, then its arguments.
    pub fn init_command_line(&self) -> (r: Vec<String>)
        ensures
            views(r@) == seq![self.spec_config().init_command@] + views(self.spec_config().init_args@),
    {
        let mut parts: Vec<String> = Vec::new();
        parts.push(self.config.init_command.clone());
        let mut args = clone_strings(&self.config.init_args);
        let ghost first = views(parts@);
        parts.append(&mut args);
        assert(views(parts@) =~= first + views(self.config.init_args@));
        parts
    }

    /// The initialization command as shown in errors: its words joined by
    /// spaces.
    pub fn init_command_text(&self) -> (r: String)
        ensures
            r@ == join(seq![self.spec_config().init_command@] + views(self.spec_config().init_args@), seq![' ']),
    {
        let parts = self.init_command_line();
        proof {
            reveal_strlit(" ");
            assert(" "@ =~= seq![' ']);
            assert(parts@.map_values(|x: String| x@) =~= views(parts@));
        }
        join_strings(&parts, " ")
    }
}

} // verus!
