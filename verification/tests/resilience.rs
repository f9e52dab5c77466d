use kestrel::alert::{Alert, Severity};
use kestrel::alert_sink::{
    aggregate_health, combine_emit_results, AlertSink, AlertSinkError, Backpressure, EmitStatus, SinkHealth,
};
use kestrel::budget::{BudgetStatus, BudgetTracker, RuleBudget, RuleConsumption, UsageRatio};
use kestrel::circuit_breaker::{
    CircuitBreaker, CircuitBreakerConfig, CircuitPhase, CircuitState, FailureKind, FailureRate,
    NoOpCircuitBreaker, SlidingWindowCircuitBreaker,
};

fn consumption(cpu_fuel: u64, memory_bytes: usize, eval_time_ms: u64, evaluations_this_sec: u64) -> RuleConsumption {
    RuleConsumption { cpu_fuel, memory_bytes, eval_time_ms, evaluations_this_sec }
}

fn budget(max_cpu_fuel: u64, max_memory_mb: usize, max_eval_time_ms: u64, max_evaluations_per_sec: u64) -> RuleBudget {
    RuleBudget { max_cpu_fuel, max_memory_mb, max_eval_time_ms, max_evaluations_per_sec }
}

#[test]
fn test_rule_budget_default() {
    let budget = RuleBudget::default();
    assert_eq!(budget.max_cpu_fuel, 10_000_000);
    assert_eq!(budget.max_memory_mb, 128);
    assert_eq!(budget.max_eval_time_ms, 100);
    assert_eq!(budget.max_evaluations_per_sec, 10_000);
}

#[test]
fn test_budget_status_helpers() {
    assert!(BudgetStatus::WithinBudget.is_ok());
    assert!(!BudgetStatus::WithinBudget.is_exceeded());
    assert!(BudgetStatus::NearLimit(UsageRatio { used: 85, limit: 100 }).is_ok());
    assert!(BudgetStatus::Exceeded.is_exceeded());
    assert!(!BudgetStatus::Exceeded.is_ok());
}

#[test]
fn test_budget_tracker_no_budget() {
    let mut tracker = BudgetTracker::new();
    let c = consumption(1_000_000_000, 1024 * 1024 * 1024, 10_000, 100_000);
    assert_eq!(tracker.check_budget("rule-1", c), BudgetStatus::WithinBudget);
}

#[test]
fn test_budget_tracker_within_budget() {
    let mut tracker = BudgetTracker::new();
    tracker.set_budget("rule-1", budget(1_000_000, 64, 50, 100));
    let c = consumption(100_000, 1024 * 1024, 10, 1);
    assert_eq!(tracker.check_budget("rule-1", c), BudgetStatus::WithinBudget);
}

#[test]
fn test_budget_tracker_cpu_exceeded() {
    let mut tracker = BudgetTracker::new();
    tracker.set_budget("rule-1", budget(1_000, 64, 50, 100));
    let c = consumption(2_000, 1024, 1, 1);
    assert_eq!(tracker.check_budget("rule-1", c), BudgetStatus::Exceeded);
}

#[test]
fn test_budget_tracker_memory_exceeded() {
    let mut tracker = BudgetTracker::new();
    tracker.set_budget("rule-1", budget(1_000_000, 1, 50, 100));
    let c = consumption(100, 2 * 1024 * 1024, 1, 1);
    assert_eq!(tracker.check_budget("rule-1", c), BudgetStatus::Exceeded);
}

#[test]
fn test_budget_tracker_time_exceeded() {
    let mut tracker = BudgetTracker::new();
    tracker.set_budget("rule-1", budget(1_000_000, 64, 10, 100));
    let c = consumption(100, 1024, 20, 1);
    assert_eq!(tracker.check_budget("rule-1", c), BudgetStatus::Exceeded);
}

#[test]
fn test_budget_tracker_near_limit() {
    let mut tracker = BudgetTracker::new();
    tracker.set_budget("rule-1", budget(1_000, 1, 10, 10));
    let c = consumption(900, 1024, 1, 1);
    assert_eq!(tracker.check_budget("rule-1", c), BudgetStatus::NearLimit(UsageRatio { used: 900, limit: 1000 }));
}

#[test]
fn test_budget_tracker_rate_limit() {
    let mut tracker = BudgetTracker::new();
    tracker.set_budget("rule-1", budget(1_000_000, 64, 50, 5));
    for _ in 0..5 {
        let status = tracker.check_budget("rule-1", consumption(100, 1024, 1, 0));
        assert!(!status.is_exceeded());
    }
    let status = tracker.check_budget("rule-1", consumption(100, 1024, 1, 0));
    assert!(status.is_exceeded());
}

#[test]
fn budget_rate_window_restarts_after_a_second() {
    let mut tracker = BudgetTracker::new();
    tracker.set_budget_at("rule-1", budget(1_000_000, 64, 50, 1), 0);
    assert!(!tracker.check_budget_at("rule-1", consumption(1, 1, 1, 0), 10).is_exceeded());
    assert!(tracker.check_budget_at("rule-1", consumption(1, 1, 1, 0), 20).is_exceeded());
    assert!(!tracker.check_budget_at("rule-1", consumption(1, 1, 1, 0), 2_000_000_000).is_exceeded());
}

#[test]
fn test_budget_tracker_reset() {
    let mut tracker = BudgetTracker::new();
    tracker.set_budget("rule-1", budget(1_000, 64, 50, 5));
    let _ = tracker.check_budget("rule-1", consumption(500, 1024 * 1024, 10, 1));
    let before = tracker.get_consumption("rule-1").unwrap();
    assert_eq!(before.cpu_fuel, 500);
    tracker.reset("rule-1");
    let after = tracker.get_consumption("rule-1").unwrap();
    assert_eq!(after.cpu_fuel, 0);
    assert_eq!(after.memory_bytes, 0);
}

#[test]
fn budget_reset_all_clears_every_rule() {
    let mut tracker = BudgetTracker::new();
    tracker.set_budget_at("rule-1", budget(1_000, 64, 50, 5), 0);
    tracker.set_budget_at("rule-2", budget(1_000, 64, 50, 5), 0);
    let _ = tracker.check_budget_at("rule-1", consumption(300, 2048, 1, 0), 5);
    let _ = tracker.check_budget_at("rule-2", consumption(400, 4096, 1, 0), 6);
    assert_eq!(tracker.get_consumption("rule-2").unwrap().cpu_fuel, 400);
    tracker.reset_all_at(100);
    for rule in ["rule-1", "rule-2"] {
        let c = tracker.get_consumption(rule).unwrap();
        assert_eq!((c.cpu_fuel, c.memory_bytes, c.evaluations_this_sec), (0, 0, 0));
    }
    assert!(tracker.get_consumption("rule-3").is_none());
}

#[test]
fn budget_remove_rule_forgets_it() {
    let mut tracker = BudgetTracker::new();
    tracker.set_budget("rule-1", budget(1, 1, 1, 1));
    tracker.remove_rule("rule-1");
    assert!(tracker.get_consumption("rule-1").is_none());
    assert_eq!(tracker.check_budget("rule-1", consumption(100, 0, 0, 0)), BudgetStatus::WithinBudget);
}

fn config(failure_threshold: u64, window_ms: u64, cooldown_ms: u64, degraded_permille: u32) -> CircuitBreakerConfig {
    CircuitBreakerConfig {
        failure_threshold,
        window_duration_ns: window_ms * 1_000_000,
        cooldown_duration_ns: cooldown_ms * 1_000_000,
        degraded_threshold_permille: degraded_permille,
    }
}

#[test]
fn test_circuit_state_equality() {
    assert_eq!(CircuitState::Healthy, CircuitState::Healthy);
    assert_ne!(CircuitState::Healthy, CircuitState::Degraded(FailureRate { failures: 1, total: 2 }));
    assert_eq!(CircuitState::Disabled("x".to_string()), CircuitState::Disabled("x".to_string()));
}

#[test]
fn test_noop_circuit_breaker() {
    let mut cb = NoOpCircuitBreaker;
    cb.record_failure("r1", "oops");
    cb.record_timeout("r1");
    cb.record_oom("r1");
    assert!(!cb.is_open("r1"));
    assert_eq!(cb.get_state("r1"), CircuitState::Healthy);
    assert!(cb.get_health_status("r1").is_none());
}

#[test]
fn test_sliding_window_starts_closed() {
    let mut cb = SlidingWindowCircuitBreaker::new(CircuitBreakerConfig::default_config());
    assert!(!cb.is_open("r1"));
    assert_eq!(cb.get_state("r1"), CircuitState::Healthy);
}

#[test]
fn test_sliding_window_opens_after_threshold() {
    let mut cb = SlidingWindowCircuitBreaker::new(config(3, 60_000, 30_000, 200));
    cb.record_failure("r1", "err1");
    assert!(!cb.is_open("r1"));
    cb.record_failure("r1", "err2");
    assert!(!cb.is_open("r1"));
    cb.record_failure("r1", "err3");
    assert!(cb.is_open("r1"));
    assert_eq!(cb.get_state("r1"), CircuitState::Disabled("circuit open: too many failures".to_string()));
}

#[test]
fn test_sliding_window_timeout_triggers() {
    let mut cb = SlidingWindowCircuitBreaker::new(config(2, 60_000, 30_000, 200));
    cb.record_timeout("r1");
    cb.record_timeout("r1");
    assert!(cb.is_open("r1"));
}

#[test]
fn test_sliding_window_oom_triggers() {
    let mut cb = SlidingWindowCircuitBreaker::new(config(1, 60_000, 30_000, 200));
    cb.record_oom("r1");
    assert!(cb.is_open("r1"));
}

#[test]
fn test_sliding_window_closes_on_success() {
    let mut cb = SlidingWindowCircuitBreaker::new(config(2, 60_000, 30_000, 200));
    cb.record_failure("r1", "err1");
    cb.record_failure("r1", "err2");
    assert!(cb.is_open("r1"));
    cb.states[0].1.phase = CircuitPhase::HalfOpen;
    cb.record_success("r1");
    assert!(!cb.is_open("r1"));
    assert_eq!(cb.get_state("r1"), CircuitState::Healthy);
}

#[test]
fn test_sliding_window_degraded_state() {
    let mut cb = SlidingWindowCircuitBreaker::new(config(10, 60_000, 30_000, 250));
    cb.record_success("r1");
    cb.record_failure("r1", "err");
    assert_eq!(cb.get_state("r1"), CircuitState::Degraded(FailureRate { failures: 1, total: 2 }));
}

#[test]
fn test_sliding_window_prunes_old_failures() {
    let mut cb = SlidingWindowCircuitBreaker::new(config(2, 50, 50, 200));
    cb.record_failure_at("r1", FailureKind::Failure, 1_000_000);
    cb.record_failure_at("r1", FailureKind::Failure, 2_000_000);
    assert!(cb.is_open_at("r1", 3_000_000));
    // 100 ms later both the window and the cool-down have passed.
    assert!(!cb.is_open_at("r1", 102_000_000));
    cb.record_success_at("r1");
    assert_eq!(cb.get_state_at("r1", 103_000_000), CircuitState::Healthy);
}

#[test]
fn test_health_status() {
    let mut cb = SlidingWindowCircuitBreaker::new(config(3, 60_000, 30_000, 200));
    let status = cb.get_health_status("r1");
    assert!(status.is_none());
    cb.record_failure("r1", "err");
    let status = cb.get_health_status("r1").unwrap();
    assert_eq!(status.rule_id, "r1");
    assert_eq!(status.failure_count, 1);
    assert!(status.last_failure.is_some());
    assert_eq!(status.state, CircuitState::Degraded(FailureRate { failures: 1, total: 1 }));
}

#[test]
fn test_halfopen_allows_probe() {
    let mut cb = SlidingWindowCircuitBreaker::new(config(1, 60_000, 10, 200));
    cb.record_failure_at("r1", FailureKind::Failure, 1_000_000);
    assert!(cb.is_open_at("r1", 2_000_000));
    // 50 ms later the cool-down is over: half-open.
    assert!(!cb.is_open_at("r1", 51_000_000));
    cb.record_failure_at("r1", FailureKind::Failure, 52_000_000);
    assert!(cb.is_open_at("r1", 53_000_000));
}

#[test]
fn test_sink_health_default() {
    let health = SinkHealth::default();
    assert!(health.healthy);
    assert_eq!(health.lag_ms, 0);
    assert_eq!(health.consecutive_errors, 0);
    assert_eq!(health.alerts_dropped, 0);
    assert_eq!(health.last_error, None);
}

fn test_alert() -> Alert {
    Alert {
        id: "alert-test-001".to_string(),
        rule_id: "rule-test-001".to_string(),
        rule_name: "Test Rule".to_string(),
        severity: Severity::High,
        timestamp_ns: 1_000_000_000,
        title: "Test Alert".to_string(),
        description: Some("A test alert for sinks".to_string()),
        events: vec![],
        context: serde_json::Value::Object(serde_json::Map::new()),
        entity_key: None,
    }
}

struct AckSink;

impl AlertSink for AckSink {
    fn emit(&self, _alert: &Alert) -> Result<(EmitStatus, Backpressure), AlertSinkError> {
        Ok((EmitStatus::Acknowledged, Backpressure::Normal))
    }
}

#[test]
fn test_emit_batch_default_impl() {
    let sink = AckSink;
    let alerts = vec![test_alert(), test_alert()];
    let (status, bp) = sink.emit_batch(&alerts).unwrap();
    assert_eq!(status, EmitStatus::Acknowledged);
    assert_eq!(bp, Backpressure::Normal);
}

#[test]
fn combine_results_keeps_last_drop_and_highest_pressure() {
    let results = vec![
        (EmitStatus::Dropped("a".to_string()), Backpressure::Elevated),
        (EmitStatus::Acknowledged, Backpressure::Critical),
        (EmitStatus::Dropped("b".to_string()), Backpressure::Normal),
    ];
    let (status, bp) = combine_emit_results(&results);
    assert_eq!(status, EmitStatus::Dropped("b".to_string()));
    assert_eq!(bp, Backpressure::Critical);
    assert_eq!(Backpressure::Elevated.max(Backpressure::Normal), Backpressure::Elevated);
}

#[test]
fn aggregate_health_of_sinks() {
    let a = SinkHealth { healthy: true, lag_ms: 5, consecutive_errors: 1, alerts_dropped: 2, last_error: None };
    let b = SinkHealth {
        healthy: false,
        lag_ms: 9,
        consecutive_errors: 3,
        alerts_dropped: 4,
        last_error: Some("x".to_string()),
    };
    let h = aggregate_health(&[a, b]);
    assert!(!h.healthy);
    assert_eq!(h.lag_ms, 9);
    assert_eq!(h.consecutive_errors, 4);
    assert_eq!(h.alerts_dropped, 6);
    assert!(h.last_error.is_none());
}

#[test]
fn sink_error_messages() {
    assert_eq!(AlertSinkError::Unavailable("x".to_string()).to_string(), "Unavailable: x");
    assert_eq!(AlertSinkError::Serialization("y".to_string()).to_string(), "Serialization failed: y");
    assert_eq!(AlertSinkError::Transport("z".to_string()).to_string(), "Transport failed: z");
}
