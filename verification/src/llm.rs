//! The hooks through which a language model may assist, and what is done
//! with their answers.
use vstd::prelude::*;

use crate::text::{clone_strings, owned, views};

verus! {

/// Whether hook results are only advice or are applied.
#[derive(Clone, Copy, Debug, PartialEq, Eq, Structural)]
pub enum LlmResultMode {
    AdviceOnly,
    Apply,
}

impl Default for LlmResultMode {
    fn default() -> (r: Self)
        ensures
            r == LlmResultMode::AdviceOnly,
    {
        LlmResultMode::AdviceOnly
    }
}

/// The points at which a model may be consulted.
#[derive(Clone, Copy, Debug, PartialEq, Eq, Structural)]
pub enum LlmHookKind {
    ExpandQueries,
    SiteTactics,
    RerankCandidates,
    RecoveryPlan,
    EnrichMetadata,
}


impl LlmHookKind {
    /// The hook's name as it appears in advice: the variant's name.
    pub fn label(&self) -> (r: &'static str)
        ensures
            r@ == kind_label(*self),
    {
        match self {
            LlmHookKind::ExpandQueries => "ExpandQueries",
            LlmHookKind::SiteTactics => "SiteTactics",
            LlmHookKind::RerankCandidates => "RerankCandidates",
            LlmHookKind::RecoveryPlan => "RecoveryPlan",
            LlmHookKind::EnrichMetadata => "EnrichMetadata",
        }
    }
}

/// The name of each hook.
pub open spec fn kind_label(k: LlmHookKind) -> Seq<char> {
    match k {
        LlmHookKind::ExpandQueries => "ExpandQueries"@,
        LlmHookKind::SiteTactics => "SiteTactics"@,
        LlmHookKind::RerankCandidates => "RerankCandidates"@,
        LlmHookKind::RecoveryPlan => "RecoveryPlan"@,
        LlmHookKind::EnrichMetadata => "EnrichMetadata"@,
    }
}

/// When a hook's circuit opens and for how long. The failure threshold is a
/// rate in thousandths: the circuit opens when more than that share of the
/// calls in the window failed.
#[derive(Clone, Copy, Debug)]
pub struct CircuitBreakerConfig {
    pub window_size: usize,
    pub failure_threshold_permille: u32,
    pub open_for_ms: u64,
}

impl Default for CircuitBreakerConfig {
    fn default() -> (r: Self)
        ensures
            r.window_size == 50,
            r.failure_threshold_permille == 100,
            r.open_for_ms == 300_000,
    {
        CircuitBreakerConfig { window_size: 50, failure_threshold_permille: 100, open_for_ms: 300_000 }
    }
}

/// The three states of a circuit.
#[derive(Clone, Copy, Debug, PartialEq, Eq, Structural)]
pub enum CircuitState {
    Closed,
    HalfOpen,
    Open,
}

/// Whether a call may go ahead.
#[derive(Clone, Copy, Debug, PartialEq, Eq, Structural)]
pub enum CircuitDecision {
    Proceed,
    ShortCircuit,
}

/// What a breaker holds: its state, the outcomes of the recent calls (true
/// for a success), oldest first, and the time (in milliseconds) until which
/// an open circuit stays open.
pub type BreakerView = (CircuitState, Seq<bool>, Option<u64>);

/// The number of failures among the outcomes.
pub open spec fn failures(s: Seq<bool>) -> nat
    decreases s.len(),
{
    if s.len() == 0 {
        0
    } else {
        failures(s.drop_last()) + if s.last() {
            0nat
        } else {
            1nat
        }
    }
}

/// Whether the failure rate of the outcomes is above the threshold.
pub open spec fn over_threshold(s: Seq<bool>, permille: u32) -> bool {
    s.len() > 0 && failures(s) * 1000 > permille * s.len()
}

/// The outcomes after one more, the oldest dropped when the window is full.
pub open spec fn windowed(s: Seq<bool>, window: usize, success: bool) -> Seq<bool> {
    if s.len() == window && s.len() > 0 {
        s.drop_first().push(success)
    } else {
        s.push(success)
    }
}

/// Whether recording this outcome opens the circuit.
pub open spec fn trips_on(cfg: CircuitBreakerConfig, v: BreakerView, success: bool) -> bool {
    match v.0 {
        CircuitState::Closed => over_threshold(windowed(v.1, cfg.window_size, success), cfg.failure_threshold_permille),
        _ => !success,
    }
}

/// The breaker after the outcome of a call made at `now`: a half-open
/// circuit closes (forgetting its window) on a success and opens again on a
/// failure; a closed one adds the outcome to its window and opens when the
/// failure rate goes above the threshold; an open one becomes half-open on a
/// success and stays open, for a new period, on a failure.
pub open spec fn after_record(cfg: CircuitBreakerConfig, v: BreakerView, now: u64, success: bool) -> BreakerView {
    let reopen = Some((now + cfg.open_for_ms) as u64);
    match v.0 {
        CircuitState::HalfOpen => if success {
            (CircuitState::Closed, Seq::empty(), v.2)
        } else {
            (CircuitState::Open, v.1, reopen)
        },
        CircuitState::Closed => {
            let o = windowed(v.1, cfg.window_size, success);
            if over_threshold(o, cfg.failure_threshold_permille) {
                (CircuitState::Open, o, reopen)
            } else {
                (CircuitState::Closed, o, v.2)
            }
        },
        CircuitState::Open => if success {
            (CircuitState::HalfOpen, v.1, v.2)
        } else {
            (CircuitState::Open, v.1, reopen)
        },
    }
}

/// Whether a call at `now` may proceed, and the breaker afterwards: an open
/// circuit short-circuits until its period ends and then lets one call
/// through, half-open.
pub open spec fn decide(v: BreakerView, now: u64) -> (CircuitDecision, BreakerView) {
    match v.0 {
        CircuitState::Open => match v.2 {
            Some(until) => if now >= until {
                (CircuitDecision::Proceed, (CircuitState::HalfOpen, v.1, v.2))
            } else {
                (CircuitDecision::ShortCircuit, v)
            },
            None => (CircuitDecision::Proceed, v),
        },
        _ => (CircuitDecision::Proceed, v),
    }
}

/// Counts the failures and calls of a window against a threshold.
fn is_over_threshold(outcomes: &Vec<bool>, permille: u32) -> (r: bool)
    ensures
        r == over_threshold(outcomes@, permille),
{
    let mut count: usize = 0;
    let mut i: usize = 0;
    while i < outcomes.len()
        invariant
            i <= outcomes@.len(),
            count == failures(outcomes@.take(i as int)),
            count <= i,
        decreases outcomes@.len() - i,
    {
        assert(outcomes@.take(i as int + 1).drop_last() =~= outcomes@.take(i as int));
        if !outcomes[i] {
            count = count + 1;
        }
        i = i + 1;
    }
    assert(outcomes@.take(i as int) =~= outcomes@);
    if outcomes.len() == 0 {
        false
    } else {
        let n = outcomes.len() as u128;
        let p = permille as u128;
        assert(p * n <= 0xffff_ffffu128 * 0xffff_ffff_ffff_ffffu128) by (nonlinear_arith)
            requires
                p <= 0xffff_ffffu128,
                n <= 0xffff_ffff_ffff_ffffu128,
        ;
        (count as u128) * 1000 > p * n
    }
}

/// A circuit breaker over the outcomes of a hook's calls. Times are in
/// milliseconds on a clock of the caller's choosing.
pub struct CircuitBreaker {
    config: CircuitBreakerConfig,
    outcomes: Vec<bool>,
    state: CircuitState,
    open_until: Option<u64>,
}

impl View for CircuitBreaker {
    type V = BreakerView;

    closed spec fn view(&self) -> BreakerView {
        (self.state, self.outcomes@, self.open_until)
    }
}

impl CircuitBreaker {
    /// The settings the breaker was made with.
    pub closed spec fn spec_config(self) -> CircuitBreakerConfig {
        self.config
    }

    /// A closed circuit with no outcomes.
    pub fn new(config: CircuitBreakerConfig) -> (r: Self)
        ensures
            r.spec_config() == config,
            r@ == (CircuitState::Closed, Seq::<bool>::empty(), None::<u64>),
    {
        let r = CircuitBreaker { config, outcomes: Vec::new(), state: CircuitState::Closed, open_until: None };
        assert(r@.1 =~= Seq::<bool>::empty());
        r
    }

    /// The current state.
    pub fn state(&self) -> (r: CircuitState)
        ensures
            r == self@.0,
    {
        self.state
    }

    /// The time until which an open circuit stays open.
    pub fn open_until(&self) -> (r: Option<u64>)
        ensures
            r == self@.2,
    {
        self.open_until
    }

    /// The number of outcomes in the window.
    pub fn window_len(&self) -> (r: usize)
        ensures
            r == self@.1.len(),
    {
        self.outcomes.len()
    }

    /// Whether a call at `now` may go ahead; see [`decide`].
    pub fn before_call(&mut self, now: u64) -> (r: CircuitDecision)
        ensures
            (r, final(self)@) == decide(old(self)@, now),
            final(self).spec_config() == old(self).spec_config(),
    {
        match self.state {
            CircuitState::Open => match self.open_until {
                Some(until) => {
                    if now >= until {
                        self.state = CircuitState::HalfOpen;
                        CircuitDecision::Proceed
                    } else {
                        CircuitDecision::ShortCircuit
                    }
                },
                None => CircuitDecision::Proceed,
            },
            _ => CircuitDecision::Proceed,
        }
    }

    fn push_outcome(&mut self, success: bool)
        ensures
            final(self)@ == (old(self)@.0, windowed(old(self)@.1, old(self).spec_config().window_size, success), old(self)@.2),
            final(self).spec_config() == old(self).spec_config(),
    {
        if self.outcomes.len() == self.config.window_size && self.outcomes.len() > 0 {
            self.outcomes.remove(0);
            assert(old(self).outcomes@.remove(0) =~= old(self).outcomes@.drop_first());
        }
        self.outcomes.push(success);
    }

    fn trip(&mut self, now: u64)
        requires
            now + old(self).spec_config().open_for_ms <= u64::MAX,
        ensures
            final(self)@ == (CircuitState::Open, old(self)@.1, Some((now + old(self).spec_config().open_for_ms) as u64)),
            final(self).spec_config() == old(self).spec_config(),
    {
        self.state = CircuitState::Open;
        self.open_until = Some(now + self.config.open_for_ms);
    }

    /// Records the outcome of a call made at `now`; see [`after_record`].
    /// When the outcome opens the circuit, `now` plus the open period must
    /// be a time.
    pub fn record(&mut self, now: u64, success: bool)
        requires
            trips_on(old(self).spec_config(), old(self)@, success) ==> now + old(self).spec_config().open_for_ms
                <= u64::MAX,
        ensures
            final(self)@ == after_record(old(self).spec_config(), old(self)@, now, success),
            final(self).spec_config() == old(self).spec_config(),
    {
        match self.state {
            CircuitState::HalfOpen => {
                if success {
                    self.state = CircuitState::Closed;
                    self.outcomes.clear();
                } else {
                    self.trip(now);
                }
            },
            CircuitState::Closed => {
                self.push_outcome(success);
                if is_over_threshold(&self.outcomes, self.config.failure_threshold_permille) {
                    self.trip(now);
                }
            },
            CircuitState::Open => {
                if success {
                    self.state = CircuitState::HalfOpen;
                } else {
                    self.trip(now);
                }
            },
        }
        assert(self@.1 =~= after_record(old(self).spec_config(), old(self)@, now, success).1);
    }
}

/// A failed circuit stays shut: once a failure opens the circuit at `now`,
/// every call before the end of the open period is short-circuited.
pub proof fn law_open_circuit_short_circuits(cfg: CircuitBreakerConfig, v: BreakerView, now: u64, later: u64)
    requires
        trips_on(cfg, v, false),
        now + cfg.open_for_ms <= u64::MAX,
        now <= later < now + cfg.open_for_ms,
    ensures
        decide(after_record(cfg, v, now, false), later).0 == CircuitDecision::ShortCircuit,
{
}

/// Recovery: after the open period, the next call goes through, and its
/// success closes the circuit with an empty window.
pub proof fn law_success_after_open_period_closes(cfg: CircuitBreakerConfig, v: BreakerView, now: u64, until: u64)
    requires
        v.0 == CircuitState::Open,
        v.2 == Some(until),
        now >= until,
    ensures
        decide(v, now).0 == CircuitDecision::Proceed,
        after_record(cfg, decide(v, now).1, now, true) == (CircuitState::Closed, Seq::<bool>::empty(), v.2),
{
}

/// The window never holds more outcomes than its size.
pub proof fn law_window_bounded(cfg: CircuitBreakerConfig, v: BreakerView, now: u64, success: bool)
    requires
        cfg.window_size > 0,
        v.1.len() <= cfg.window_size,
    ensures
        after_record(cfg, v, now, success).1.len() <= cfg.window_size,
{
}

/// Advice given in place of a model's answer.
#[derive(Clone, Debug)]
pub struct LlmFallback {
    pub source: String,
    pub model: String,
    pub reason: String,
}

/// A call to hand to the hook's handler.
#[derive(Clone, Debug)]
pub struct HookCall {
    pub hook: LlmHookKind,
    pub deadline_ms: u64,
    pub allowed_actions: Vec<String>,
    pub budget_tokens: usize,
}

/// What a hook does with a request: call its handler, or answer at once
/// with advice.
#[derive(Clone, Debug)]
pub enum HookStep {
    Call(HookCall),
    Fallback(LlmFallback),
}

/// How a handler call ended.
#[derive(Clone, Copy, Debug, PartialEq, Eq, Structural)]
pub enum HookCallResult {
    Completed,
    Failed,
    TimedOut,
}

/// The advice of a hook of kind `kind` for `reason`.
pub open spec fn is_fallback(f: LlmFallback, kind: LlmHookKind, reason: Seq<char>) -> bool {
    f.source@ == kind_label(kind) && f.model@ == "fallback"@ && f.reason@ == reason
}

/// The reason given when a handler call ends in `result`, if it does not
/// complete.
pub open spec fn failure_reason(result: HookCallResult) -> Seq<char> {
    match result {
        HookCallResult::Completed => Seq::empty(),
        HookCallResult::Failed => "handler_error"@,
        HookCallResult::TimedOut => "timeout"@,
    }
}

/// One model hook: its kind, circuit breaker, the actions it may take, its
/// token budget and its deadline in milliseconds.
pub struct LlmHook {
    kind: LlmHookKind,
    breaker: CircuitBreaker,
    allowed_actions: Vec<String>,
    budget_tokens: usize,
    deadline_ms: u64,
}

impl LlmHook {
    pub closed spec fn spec_kind(self) -> LlmHookKind {
        self.kind
    }

    pub closed spec fn spec_breaker(self) -> CircuitBreaker {
        self.breaker
    }

    pub closed spec fn spec_allowed_actions(self) -> Seq<Seq<char>> {
        views(self.allowed_actions@)
    }

    pub closed spec fn spec_budget_tokens(self) -> usize {
        self.budget_tokens
    }

    pub closed spec fn spec_deadline_ms(self) -> u64 {
        self.deadline_ms
    }

    /// A hook with a closed circuit.
    pub fn new(
        kind: LlmHookKind,
        deadline_ms: u64,
        allowed_actions: Vec<String>,
        budget_tokens: usize,
        breaker: CircuitBreakerConfig,
    ) -> (r: Self)
        ensures
            r.spec_kind() == kind,
            r.spec_deadline_ms() == deadline_ms,
            r.spec_allowed_actions() == views(allowed_actions@),
            r.spec_budget_tokens() == budget_tokens,
            r.spec_breaker().spec_config() == breaker,
            r.spec_breaker()@ == (CircuitState::Closed, Seq::<bool>::empty(), None::<u64>),
    {
        LlmHook { kind, breaker: CircuitBreaker::new(breaker), allowed_actions, budget_tokens, deadline_ms }
    }

    /// The hook's kind.
    pub fn kind(&self) -> (r: LlmHookKind)
        ensures
            r == self.spec_kind(),
    {
        self.kind
    }

    /// The hook's circuit breaker.
    pub fn breaker(&self) -> (r: &CircuitBreaker)
        ensures
            *r == self.spec_breaker(),
    {
        &self.breaker
    }

    /// Records the outcome of a call on the hook's breaker.
    pub fn record_outcome(&mut self, now: u64, success: bool)
        requires
            trips_on(old(self).spec_breaker().spec_config(), old(self).spec_breaker()@, success) ==> now + old(
                self,
            ).spec_breaker().spec_config().open_for_ms <= u64::MAX,
        ensures
            final(self).spec_breaker()@ == after_record(
                old(self).spec_breaker().spec_config(),
                old(self).spec_breaker()@,
                now,
                success,
            ),
            final(self).spec_breaker().spec_config() == old(self).spec_breaker().spec_config(),
            final(self).spec_kind() == old(self).spec_kind(),
            final(self).spec_allowed_actions() == old(self).spec_allowed_actions(),
            final(self).spec_budget_tokens() == old(self).spec_budget_tokens(),
            final(self).spec_deadline_ms() == old(self).spec_deadline_ms(),
    {
        self.breaker.record(now, success);
    }

    fn fallback(&self, reason: &str) -> (r: LlmFallback)
        ensures
            is_fallback(r, self.spec_kind(), reason@),
    {
        LlmFallback { source: owned(self.kind.label()), model: owned("fallback"), reason: owned(reason) }
    }

    /// The first half of a call at `now`: when the circuit is open, advice
    /// for `circuit_open`; else the call to make, with the hook's actions and
    /// budget and its deadline (at least one millisecond).
    pub fn begin(&mut self, now: u64) -> (r: HookStep)
        ensures
            began(*old(self), *final(self), now, r),
    {
        let decision = self.breaker.before_call(now);
        match decision {
            CircuitDecision::ShortCircuit => HookStep::Fallback(self.fallback("circuit_open")),
            CircuitDecision::Proceed => {
                let actions = clone_strings(&self.allowed_actions);
                let deadline_ms = if self.deadline_ms < 1 {
                    1
                } else {
                    self.deadline_ms
                };
                HookStep::Call(
                    HookCall {
                        hook: self.kind,
                        deadline_ms,
                        allowed_actions: actions,
                        budget_tokens: self.budget_tokens,
                    },
                )
            },
        }
    }

    /// The second half of a call made at `now`: the outcome goes to the
    /// breaker, and a call that did not complete is answered with advice
    /// (`handler_error` or `timeout`). `None`: the handler's answer stands.
    pub fn finish(&mut self, now: u64, result: HookCallResult) -> (r: Option<LlmFallback>)
        requires
            trips_on(
                old(self).spec_breaker().spec_config(),
                old(self).spec_breaker()@,
                result == HookCallResult::Completed,
            ) ==> now + old(self).spec_breaker().spec_config().open_for_ms <= u64::MAX,
        ensures
            finished(*old(self), *final(self), now, result, r),
    {
        match result {
            HookCallResult::Completed => {
                self.breaker.record(now, true);
                None
            },
            HookCallResult::Failed => {
                self.breaker.record(now, false);
                Some(self.fallback("handler_error"))
            },
            HookCallResult::TimedOut => {
                self.breaker.record(now, false);
                Some(self.fallback("timeout"))
            },
        }
    }
}

/// The contract of [`LlmHook::begin`].
pub open spec fn began(old: LlmHook, new: LlmHook, now: u64, step: HookStep) -> bool {
    let (d, v) = decide(old.spec_breaker()@, now);
    &&& new.spec_breaker()@ == v
    &&& new.spec_breaker().spec_config() == old.spec_breaker().spec_config()
    &&& new.spec_kind() == old.spec_kind()
    &&& new.spec_allowed_actions() == old.spec_allowed_actions()
    &&& new.spec_budget_tokens() == old.spec_budget_tokens()
    &&& new.spec_deadline_ms() == old.spec_deadline_ms()
    &&& d == CircuitDecision::ShortCircuit ==> (step matches HookStep::Fallback(f) && is_fallback(
        f,
        old.spec_kind(),
        "circuit_open"@,
    ))
    &&& d == CircuitDecision::Proceed ==> (step matches HookStep::Call(c) && c.hook == old.spec_kind()
        && c.deadline_ms == (if old.spec_deadline_ms() < 1 {
        1
    } else {
        old.spec_deadline_ms()
    }) && views(c.allowed_actions@) == old.spec_allowed_actions() && c.budget_tokens == old.spec_budget_tokens())
}

/// The contract of [`LlmHook::finish`].
pub open spec fn finished(
    old: LlmHook,
    new: LlmHook,
    now: u64,
    result: HookCallResult,
    r: Option<LlmFallback>,
) -> bool {
    &&& new.spec_breaker()@ == after_record(
        old.spec_breaker().spec_config(),
        old.spec_breaker()@,
        now,
        result == HookCallResult::Completed,
    )
    &&& new.spec_breaker().spec_config() == old.spec_breaker().spec_config()
    &&& new.spec_kind() == old.spec_kind()
    &&& new.spec_allowed_actions() == old.spec_allowed_actions()
    &&& new.spec_budget_tokens() == old.spec_budget_tokens()
    &&& new.spec_deadline_ms() == old.spec_deadline_ms()
    &&& result == HookCallResult::Completed ==> r is None
    &&& result != HookCallResult::Completed ==> (r matches Some(f) && is_fallback(
        f,
        old.spec_kind(),
        failure_reason(result),
    ))
}


/// The hooks of an orchestrator: at most one of each kind.
pub open spec fn distinct_kinds(hooks: Seq<LlmHook>) -> bool {
    forall|i: int, j: int|
        0 <= i < j < hooks.len() ==> (#[trigger] hooks[i]).spec_kind() != (#[trigger] hooks[j]).spec_kind()
}

/// Whether some hook has this kind.
pub open spec fn has_kind(hooks: Seq<LlmHook>, kind: LlmHookKind) -> bool {
    exists|i: int| 0 <= i < hooks.len() && (#[trigger] hooks[i]).spec_kind() == kind
}

/// `h` is the last hook of its kind in `hooks`.
pub open spec fn last_of_kind(hooks: Seq<LlmHook>, h: LlmHook) -> bool {
    exists|i: int|
        0 <= i < hooks.len() && #[trigger] hooks[i] == h && forall|m: int|
            i < m < hooks.len() ==> (#[trigger] hooks[m]).spec_kind() != h.spec_kind()
}

/// The hooks by kind. Given several hooks of one kind, the last one counts.
pub struct LlmOrchestrator {
    hooks: Vec<LlmHook>,
}

impl LlmOrchestrator {
    #[verifier::type_invariant]
    spec fn one_per_kind(self) -> bool {
        distinct_kinds(self.hooks@)
    }

    /// The hooks held, one of each kind.
    pub closed spec fn spec_hooks(self) -> Seq<LlmHook> {
        self.hooks@
    }

    /// Keeps, of each kind, the last hook given.
    pub fn new(hooks: Vec<LlmHook>) -> (r: Self)
        ensures
            distinct_kinds(r.spec_hooks()),
            forall|k: LlmHookKind| has_kind(r.spec_hooks(), k) <==> has_kind(hooks@, k),
            forall|j: int| 0 <= j < r.spec_hooks().len() ==> last_of_kind(hooks@, #[trigger] r.spec_hooks()[j]),
    {
        let ghost given = hooks@;
        let total: usize = hooks.len();
        let mut rest = hooks;
        let mut kept: Vec<LlmHook> = Vec::new();
        let mut n: usize = 0;
        while rest.len() > 0
            invariant
                n + rest@.len() == given.len(),
                given.len() == total,
                rest@ == given.skip(n as int),
                distinct_kinds(kept@),
                forall|k: LlmHookKind| has_kind(kept@, k) <==> has_kind(given.take(n as int), k),
                forall|j: int| 0 <= j < kept@.len() ==> last_of_kind(given.take(n as int), #[trigger] kept@[j]),
            decreases rest@.len(),
        {
            let h = rest.remove(0);
            assert(given[n as int] == h);
            let ghost before = kept@;
            let ghost prefix = given.take(n as int + 1);
            assert(prefix == given.take(n as int).push(h));
            let mut j: usize = 0;
            let mut found = false;
            while j < kept.len()
                invariant_except_break
                    !found,
                invariant
                    kept@ == before,
                    j <= kept@.len(),
                    forall|m: int| 0 <= m < j ==> (#[trigger] kept@[m]).spec_kind() != h.spec_kind(),
                ensures
                    found ==> j < kept@.len() && kept@[j as int].spec_kind() == h.spec_kind(),
                    !found ==> j == kept@.len(),
                decreases kept@.len() - j,
            {
                if kept[j].kind() == h.kind() {
                    found = true;
                    break;
                }
                j = j + 1;
            }
            if found {
                kept.set(j, h);
            } else {
                kept.push(h);
            }
            proof {
                assert forall|k: LlmHookKind| has_kind(kept@, k) <==> has_kind(prefix, k) by {
                    if has_kind(prefix, k) {
                        let i = choose|i: int| 0 <= i < prefix.len() && (#[trigger] prefix[i]).spec_kind() == k;
                        if i < n {
                            assert(given.take(n as int)[i] == prefix[i]);
                            assert(has_kind(before, k));
                            let b = choose|b: int| 0 <= b < before.len() && (#[trigger] before[b]).spec_kind() == k;
                            if found && b == j {
                                assert(kept@[b].spec_kind() == k);
                            } else {
                                assert(kept@[b] == before[b]);
                            }
                        } else {
                            assert(prefix[i] == h);
                            let b: int = if found {
                                j as int
                            } else {
                                before.len() as int
                            };
                            assert(kept@[b] == h);
                        }
                    }
                    if has_kind(kept@, k) {
                        let b = choose|b: int| 0 <= b < kept@.len() && (#[trigger] kept@[b]).spec_kind() == k;
                        if kept@[b] == h {
                            assert(prefix[n as int] == h);
                        } else {
                            assert(kept@[b] == before[b]);
                            assert(has_kind(before, k));
                            let i = choose|i: int|
                                0 <= i < given.take(n as int).len() && (#[trigger] given.take(
                                    n as int,
                                )[i]).spec_kind() == k;
                            assert(prefix[i] == given.take(n as int)[i]);
                        }
                    }
                }
                assert forall|a: int, b: int|
                    0 <= a < b < kept@.len() implies (#[trigger] kept@[a]).spec_kind() != (#[trigger] kept@[
                        b
                    ]).spec_kind() by {
                    if !found && b == before.len() {
                        assert(kept@[a] == before[a]);
                        assert(before[a].spec_kind() != h.spec_kind());
                    } else if found && a == j {
                        assert(kept@[b] == before[b]);
                        assert(before[a].spec_kind() != before[b].spec_kind());
                    } else if found && b == j {
                        assert(kept@[a] == before[a]);
                        assert(before[a].spec_kind() != before[b].spec_kind());
                    } else {
                        assert(kept@[a] == before[a]);
                        assert(kept@[b] == before[b]);
                        assert(before[a].spec_kind() != before[b].spec_kind());
                    }
                }
                assert forall|q: int| 0 <= q < kept@.len() implies last_of_kind(prefix, #[trigger] kept@[q]) by {
                    if kept@[q] == h && ((found && q == j) || (!found && q == before.len())) {
                        assert(prefix[n as int] == h);
                    } else {
                        assert(kept@[q] == before[q]);
                        assert(last_of_kind(given.take(n as int), before[q]));
                        let i = choose|i: int|
                            0 <= i < given.take(n as int).len() && #[trigger] given.take(n as int)[i] == before[q]
                                && forall|m: int|
                                i < m < given.take(n as int).len() ==> (#[trigger] given.take(
                                    n as int,
                                )[m]).spec_kind() != before[q].spec_kind();
                        assert(prefix[i] == before[q]);
                        if found {
                            assert(q != j);
                            if q < j {
                                assert(before[q].spec_kind() != before[j as int].spec_kind());
                            } else {
                                assert(before[j as int].spec_kind() != before[q].spec_kind());
                            }
                        }
                        assert(before[q].spec_kind() != h.spec_kind());
                        assert forall|m: int| i < m < prefix.len() implies (#[trigger] prefix[m]).spec_kind()
                            != before[q].spec_kind() by {
                            if m < n {
                                assert(prefix[m] == given.take(n as int)[m]);
                            }
                        }
                    }
                }
            }
            n = n + 1;
        }
        assert(given.take(n as int) =~= given);
        LlmOrchestrator { hooks: kept }
    }

    fn find(&self, kind: LlmHookKind) -> (r: Option<usize>)
        ensures
            r is None <==> !has_kind(self.spec_hooks(), kind),
            r matches Some(j) ==> j < self.spec_hooks().len() && self.spec_hooks()[j as int].spec_kind() == kind,
    {
        let mut j: usize = 0;
        while j < self.hooks.len()
            invariant
                j <= self.hooks@.len(),
                forall|m: int| 0 <= m < j ==> (#[trigger] self.hooks@[m]).spec_kind() != kind,
            decreases self.hooks@.len() - j,
        {
            if self.hooks[j].kind() == kind {
                return Some(j);
            }
            j = j + 1;
        }
        None
    }

    /// [`LlmHook::begin`] on the hook of this kind; `None` when there is no
    /// such hook.
    pub fn begin(&mut self, kind: LlmHookKind, now: u64) -> (r: Option<HookStep>)
        ensures
            r is None <==> !has_kind(old(self).spec_hooks(), kind),
            final(self).spec_hooks().len() == old(self).spec_hooks().len(),
            forall|j: int|
                0 <= j < old(self).spec_hooks().len() ==> {
                    let h = #[trigger] old(self).spec_hooks()[j];
                    &&& h.spec_kind() != kind ==> final(self).spec_hooks()[j] == h
                    &&& h.spec_kind() == kind ==> (r matches Some(step) && began(
                        h,
                        final(self).spec_hooks()[j],
                        now,
                        step,
                    ))
                },
    {
        match self.find(kind) {
            None => None,
            Some(j) => {
                proof {
                    use_type_invariant(&*self);
                }
                let mut hooks: Vec<LlmHook> = Vec::new();
                std::mem::swap(&mut hooks, &mut self.hooks);
                let mut h = hooks.remove(j);
                let step = h.begin(now);
                hooks.insert(j, h);
                proof {
                    assert forall|m: int| 0 <= m < old(self).spec_hooks().len() && m != j implies #[trigger] hooks@[m]
                        == old(self).hooks@[m] by {
                        if m < j {
                        } else {
                        }
                    }
                    assert forall|a: int, b: int| 0 <= a < b < hooks@.len() implies (#[trigger] hooks@[a]).spec_kind()
                        != (#[trigger] hooks@[b]).spec_kind() by {
                        assert(old(self).hooks@[a].spec_kind() != old(self).hooks@[b].spec_kind());
                    }
                }
                self.hooks = hooks;
                Some(step)
            },
        }
    }

    /// [`LlmHook::finish`] on the hook of this kind; `None` when there is no
    /// such hook.
    pub fn finish(&mut self, kind: LlmHookKind, now: u64, result: HookCallResult) -> (r: Option<
        Option<LlmFallback>,
    >)
        requires
            forall|j: int|
                0 <= j < old(self).spec_hooks().len() && (#[trigger] old(self).spec_hooks()[j]).spec_kind() == kind
                    ==> (trips_on(
                    old(self).spec_hooks()[j].spec_breaker().spec_config(),
                    old(self).spec_hooks()[j].spec_breaker()@,
                    result == HookCallResult::Completed,
                ) ==> now + old(self).spec_hooks()[j].spec_breaker().spec_config().open_for_ms <= u64::MAX),
        ensures
            r is None <==> !has_kind(old(self).spec_hooks(), kind),
            final(self).spec_hooks().len() == old(self).spec_hooks().len(),
            forall|j: int|
                0 <= j < old(self).spec_hooks().len() ==> {
                    let h = #[trigger] old(self).spec_hooks()[j];
                    &&& h.spec_kind() != kind ==> final(self).spec_hooks()[j] == h
                    &&& h.spec_kind() == kind ==> (r matches Some(f) && finished(
                        h,
                        final(self).spec_hooks()[j],
                        now,
                        result,
                        f,
                    ))
                },
    {
        match self.find(kind) {
            None => None,
            Some(j) => {
                proof {
                    use_type_invariant(&*self);
                }
                let mut hooks: Vec<LlmHook> = Vec::new();
                std::mem::swap(&mut hooks, &mut self.hooks);
                let mut h = hooks.remove(j);
                assert(h == old(self).spec_hooks()[j as int]);
                let f = h.finish(now, result);
                hooks.insert(j, h);
                proof {
                    assert forall|m: int| 0 <= m < old(self).spec_hooks().len() && m != j implies #[trigger] hooks@[m]
                        == old(self).hooks@[m] by {
                        if m < j {
                        } else {
                        }
                    }
                    assert forall|a: int, b: int| 0 <= a < b < hooks@.len() implies (#[trigger] hooks@[a]).spec_kind()
                        != (#[trigger] hooks@[b]).spec_kind() by {
                        assert(old(self).hooks@[a].spec_kind() != old(self).hooks@[b].spec_kind());
                    }
                }
                self.hooks = hooks;
                Some(f)
            },
        }
    }

    /// The first half of a reranking at `now`: [`LlmOrchestrator::begin`] on
    /// the reranking hook, or, when there is none, advice for
    /// `hook_disabled`.
    pub fn begin_rerank(&mut self, now: u64) -> (r: HookStep)
        ensures
            !has_kind(old(self).spec_hooks(), LlmHookKind::RerankCandidates) ==> final(self).spec_hooks()
                == old(self).spec_hooks() && (r matches HookStep::Fallback(f) && is_fallback(
                f,
                LlmHookKind::RerankCandidates,
                "hook_disabled"@,
            )),
            final(self).spec_hooks().len() == old(self).spec_hooks().len(),
            forall|j: int|
                0 <= j < old(self).spec_hooks().len() ==> {
                    let h = #[trigger] old(self).spec_hooks()[j];
                    &&& h.spec_kind() != LlmHookKind::RerankCandidates ==> final(self).spec_hooks()[j] == h
                    &&& h.spec_kind() == LlmHookKind::RerankCandidates ==> began(h, final(self).spec_hooks()[j], now, r)
                },
    {
        match self.begin(LlmHookKind::RerankCandidates, now) {
            Some(step) => step,
            None => HookStep::Fallback(
                LlmFallback {
                    source: owned(LlmHookKind::RerankCandidates.label()),
                    model: owned("fallback"),
                    reason: owned("hook_disabled"),
                },
            ),
        }
    }

    /// Whether a hook of this kind is configured.
    pub fn is_enabled(&self, kind: LlmHookKind) -> (r: bool)
        ensures
            r == has_kind(self.spec_hooks(), kind),
    {
        let mut j: usize = 0;
        while j < self.hooks.len()
            invariant
                j <= self.hooks@.len(),
                forall|m: int| 0 <= m < j ==> (#[trigger] self.hooks@[m]).spec_kind() != kind,
            decreases self.hooks@.len() - j,
        {
            if self.hooks[j].kind() == kind {
                return true;
            }
            j = j + 1;
        }
        false
    }
}


/// The texts among the entries, in order.
pub open spec fn texts_of(entries: Seq<Option<String>>) -> Seq<Seq<char>>
    decreases entries.len(),
{
    if entries.len() == 0 {
        Seq::empty()
    } else {
        texts_of(entries.drop_last()) + match entries.last() {
            Some(t) => seq![t@],
            None => Seq::<Seq<char>>::empty(),
        }
    }
}

/// The order a reranking answer gives: the entries of its list that are
/// strings, in order; nothing when it has no list.
pub open spec fn order_of(entries: Option<Seq<Option<String>>>) -> Seq<Seq<char>> {
    match entries {
        Some(e) => texts_of(e),
        None => Seq::empty(),
    }
}

/// The order of a reranking answer from the entries of its `order` list
/// (each `Some` when it is a string), or from its absence.
pub fn order_from_entries(entries: Option<Vec<Option<String>>>) -> (r: Vec<String>)
    ensures
        views(r@) == order_of(
            match entries {
                Some(e) => Some(e@),
                None => None,
            },
        ),
{
    match entries {
        None => Vec::new(),
        Some(e) => {
            let mut r: Vec<String> = Vec::new();
            let mut i: usize = 0;
            while i < e.len()
                invariant
                    i <= e@.len(),
                    views(r@) == texts_of(e@.take(i as int)),
                decreases e@.len() - i,
            {
                assert(e@.take(i as int + 1).drop_last() =~= e@.take(i as int));
                match &e[i] {
                    Some(t) => {
                        r.push(t.clone());
                        assert(views(r@) =~= texts_of(e@.take(i as int)) + seq![t@]);
                    },
                    None => {
                        assert(texts_of(e@.take(i as int)) + Seq::<Seq<char>>::empty() =~= texts_of(
                            e@.take(i as int),
                        ));
                    },
                }
                i = i + 1;
            }
            assert(e@.take(i as int) =~= e@);
            r
        },
    }
}

/// The `order` member of a reranking answer: its entries, each `Some` when
/// it is a string, or `None` when the answer has no `order` list.
#[derive(Clone, Debug)]
pub struct RerankPayload {
    pub order: Option<Vec<Option<String>>>,
}

/// The entries of a payload by their views.
pub open spec fn payload_entries(p: RerankPayload) -> Option<Seq<Option<String>>> {
    match p.order {
        Some(e) => Some(e@),
        None => None,
    }
}

/// The order a reranking answer gives: the entries of its `order` list
/// that are strings, in order; nothing when it has no such list.
pub fn rerank_order(payload: &RerankPayload) -> (r: Vec<String>)
    ensures
        views(r@) == order_of(payload_entries(*payload)),
{
    order_from_entries(payload.order.clone())
}


/// The mode and order a reranking ends with.
#[derive(Clone, Debug)]
pub struct RerankOutcome {
    pub mode: LlmResultMode,
    pub order: Vec<String>,
}

/// The end of a reranking: with the hook's answer, its mode and the order
/// its payload gives; without a reranking hook, advice only and no order.
pub fn rerank_outcome(answer: Option<(LlmResultMode, &RerankPayload)>) -> (r: RerankOutcome)
    ensures
        match answer {
            Some((mode, payload)) => r.mode == mode && views(r.order@) == order_of(payload_entries(*payload)),
            None => r.mode == LlmResultMode::AdviceOnly && r.order@.len() == 0,
        },
{
    match answer {
        Some((mode, payload)) => RerankOutcome { mode, order: rerank_order(payload) },
        None => RerankOutcome { mode: LlmResultMode::AdviceOnly, order: Vec::new() },
    }
}

} // verus!
