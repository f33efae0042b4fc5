use vvtv_core::llm::{
    order_from_entries, rerank_order, rerank_outcome, LlmResultMode, RerankPayload, CircuitBreaker, CircuitBreakerConfig, CircuitDecision,
    CircuitState, HookCallResult, HookStep, LlmHook, LlmHookKind, LlmOrchestrator,
};

fn rerank_hook(budget: usize) -> LlmHook {
    LlmHook::new(
        LlmHookKind::RerankCandidates,
        10,
        vec!["apply".to_string()],
        budget,
        CircuitBreakerConfig::default(),
    )
}

fn payload(entries: Option<Vec<Option<&str>>>) -> RerankPayload {
    RerankPayload { order: entries.map(|e| e.into_iter().map(|x| x.map(|s| s.to_string())).collect()) }
}

#[test]
fn circuit_breaker_short_circuits() {
    let mut hook = rerank_hook(512);
    for _ in 0..60 {
        hook.record_outcome(1_000, false);
    }
    match hook.begin(1_000) {
        HookStep::Fallback(advice) => {
            assert_eq!(advice.reason, "circuit_open");
            assert_eq!(advice.model, "fallback");
            assert_eq!(advice.source, "RerankCandidates");
        }
        HookStep::Call(_) => panic!("the circuit should be open"),
    }
}

#[test]
fn orchestrator_rerank_parses_order() {
    let mut orchestrator = LlmOrchestrator::new(vec![rerank_hook(128)]);
    match orchestrator.begin_rerank(0) {
        HookStep::Call(call) => {
            assert_eq!(call.hook, LlmHookKind::RerankCandidates);
            assert_eq!(call.budget_tokens, 128);
            assert_eq!(call.deadline_ms, 10);
            assert_eq!(call.allowed_actions, vec!["apply".to_string()]);
        }
        HookStep::Fallback(_) => panic!("the hook is configured"),
    }
    assert_eq!(
        orchestrator.finish(LlmHookKind::RerankCandidates, 0, HookCallResult::Completed).map(|f| f.is_none()),
        Some(true)
    );
    let order = rerank_order(&payload(Some(vec![Some("b"), Some("a")])));
    assert_eq!(order, vec!["b", "a"]);
}

#[test]
fn default_breaker_settings() {
    let config = CircuitBreakerConfig::default();
    assert_eq!(config.window_size, 50);
    assert_eq!(config.failure_threshold_permille, 100);
    assert_eq!(config.open_for_ms, 300_000);
}

#[test]
fn breaker_opens_above_threshold_and_recovers() {
    let config = CircuitBreakerConfig { window_size: 10, failure_threshold_permille: 200, open_for_ms: 500 };
    let mut breaker = CircuitBreaker::new(config);
    for _ in 0..8 {
        breaker.record(100, true);
    }
    breaker.record(100, false);
    breaker.record(100, false);
    // 2 failures in 10 calls: not above 20%.
    assert_eq!(breaker.state(), CircuitState::Closed);
    breaker.record(100, false);
    // The oldest success leaves the window: 3 failures in 10.
    assert_eq!(breaker.window_len(), 10);
    assert_eq!(breaker.state(), CircuitState::Open);
    assert_eq!(breaker.open_until(), Some(600));
    assert_eq!(breaker.before_call(599), CircuitDecision::ShortCircuit);
    assert_eq!(breaker.state(), CircuitState::Open);
    assert_eq!(breaker.before_call(600), CircuitDecision::Proceed);
    assert_eq!(breaker.state(), CircuitState::HalfOpen);
    breaker.record(600, true);
    assert_eq!(breaker.state(), CircuitState::Closed);
    assert_eq!(breaker.window_len(), 0);
}

#[test]
fn half_open_failure_reopens() {
    let config = CircuitBreakerConfig { window_size: 2, failure_threshold_permille: 0, open_for_ms: 50 };
    let mut breaker = CircuitBreaker::new(config);
    breaker.record(10, false);
    assert_eq!(breaker.state(), CircuitState::Open);
    assert_eq!(breaker.before_call(60), CircuitDecision::Proceed);
    breaker.record(70, false);
    assert_eq!(breaker.state(), CircuitState::Open);
    assert_eq!(breaker.open_until(), Some(120));
}

#[test]
fn failed_and_timed_out_calls_give_advice() {
    let mut hook = LlmHook::new(LlmHookKind::SiteTactics, 0, vec![], 1, CircuitBreakerConfig::default());
    match hook.begin(5) {
        HookStep::Call(call) => assert_eq!(call.deadline_ms, 1),
        HookStep::Fallback(_) => panic!("closed circuit"),
    }
    let failed = hook.finish(5, HookCallResult::Failed).unwrap();
    assert_eq!(failed.reason, "handler_error");
    assert_eq!(failed.source, "SiteTactics");
    let timed_out = hook.finish(5, HookCallResult::TimedOut).unwrap();
    assert_eq!(timed_out.reason, "timeout");
    assert!(hook.finish(5, HookCallResult::Completed).is_none());
}

#[test]
fn orchestrator_keeps_last_hook_of_each_kind() {
    let first = LlmHook::new(LlmHookKind::RerankCandidates, 10, vec![], 1, CircuitBreakerConfig::default());
    let second = LlmHook::new(LlmHookKind::RerankCandidates, 10, vec![], 2, CircuitBreakerConfig::default());
    let mut orchestrator = LlmOrchestrator::new(vec![first, second]);
    assert!(orchestrator.is_enabled(LlmHookKind::RerankCandidates));
    assert!(!orchestrator.is_enabled(LlmHookKind::ExpandQueries));
    match orchestrator.begin(LlmHookKind::RerankCandidates, 0) {
        Some(HookStep::Call(call)) => assert_eq!(call.budget_tokens, 2),
        _ => panic!("the hook is configured"),
    }
    assert!(orchestrator.begin(LlmHookKind::ExpandQueries, 0).is_none());
}

#[test]
fn rerank_without_hook_is_disabled_advice() {
    let mut orchestrator = LlmOrchestrator::new(vec![]);
    match orchestrator.begin_rerank(0) {
        HookStep::Fallback(advice) => {
            assert_eq!(advice.reason, "hook_disabled");
            assert_eq!(advice.source, "RerankCandidates");
        }
        HookStep::Call(_) => panic!("no hook configured"),
    }
}

#[test]
fn rerank_order_skips_non_strings_and_missing_lists() {
    assert_eq!(rerank_order(&payload(Some(vec![Some("x"), None, None, Some("y")]))), vec!["x", "y"]);
    assert!(rerank_order(&payload(None)).is_empty());
    assert!(rerank_order(&payload(Some(vec![]))).is_empty());
    assert_eq!(
        order_from_entries(Some(vec![None, Some("a".to_string())])),
        vec!["a".to_string()]
    );
    assert!(order_from_entries(None).is_empty());
}

#[test]
fn rerank_outcome_keeps_the_mode_or_gives_advice() {
    let answer = payload(Some(vec![Some("b"), None, Some("a")]));
    let applied = rerank_outcome(Some((LlmResultMode::Apply, &answer)));
    assert_eq!(applied.mode, LlmResultMode::Apply);
    assert_eq!(applied.order, vec!["b", "a"]);
    let disabled = rerank_outcome(None);
    assert_eq!(disabled.mode, LlmResultMode::AdviceOnly);
    assert!(disabled.order.is_empty());
}
