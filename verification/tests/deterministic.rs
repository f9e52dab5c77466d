use std::collections::HashMap;

use kestrel::alert::{Alert, Severity};
use kestrel::deterministic::{
    DeterministicTestRunner, DeterministicVerifier, ReplaySource, ReplayVerificationResult, VerificationMismatch,
};
use kestrel::event::{Event, FieldSchema, TypedValue};
use kestrel::json::json_empty_object;

fn create_test_schema() -> FieldSchema {
    FieldSchema::new()
}

fn event(i: usize, entity_key: u128, fields: Vec<(u32, TypedValue)>) -> Event {
    Event {
        event_id: (i + 1) as u64,
        event_type_id: 1,
        ts_mono_ns: (i as u64 + 1) * 1_000_000_000,
        ts_wall_ns: (i as u64 + 1) * 1_000_000_000,
        entity_key,
        source_id: None,
        fields,
    }
}

fn create_test_events(count: usize) -> Vec<Event> {
    (0..count)
        .map(|i| {
            event(
                i,
                i as u128 % 4,
                vec![(1, TypedValue::I64(i as i64)), (2, TypedValue::Text(format!("event_{}", i)))],
            )
        })
        .collect()
}

fn empty_alerts(_events: &[Event]) -> Vec<Alert> {
    vec![]
}

fn alert_for(event: &Event) -> Alert {
    Alert {
        id: format!("alert-{}", event.event_id),
        rule_id: "test-rule".to_string(),
        rule_name: "Test Rule".to_string(),
        severity: Severity::Medium,
        title: "Test alert".to_string(),
        description: None,
        timestamp_ns: event.ts_mono_ns,
        events: vec![],
        context: json_empty_object(),
        entity_key: None,
    }
}

fn run_detection(events: &[Event]) -> Vec<Alert> {
    let mut alerts = Vec::new();
    for event in events {
        if event.fields.iter().any(|(_, v)| matches!(v, TypedValue::I64(n) if *n > 50)) {
            alerts.push(alert_for(event));
        }
    }
    alerts
}

#[test]
fn test_deterministic_verifier() {
    let verifier = DeterministicVerifier::new(FieldSchema::new());
    let events = create_test_events(20);
    let result = verifier.verify_determinism(&events, |events: &[Event]| run_detection(events));
    assert!(result.is_ok());
    let result = result.unwrap();
    assert!(result.consistent, "Results should be deterministic: {:?}", result.mismatches);
    assert_eq!(result.total_runs, 5);
}

#[test]
fn deterministic_test_generate_test_sequence() {
    let verifier = DeterministicVerifier::new(create_test_schema());
    let events = verifier.generate_test_sequence(15, 2_000_000_000);
    assert_eq!(events.len(), 15);
    for (i, event) in events.iter().enumerate() {
        assert_eq!(event.event_id, (i + 1) as u64);
        assert_eq!(event.event_type_id, 1);
        assert_eq!(event.ts_mono_ns, 2_000_000_000 + (i as u64 * 1_000_000_000));
    }
    assert_eq!(events[3].get_field(1).and_then(|v| v.as_str()), Some("/bin/test_3"));
    assert_eq!(events[3].get_field(2).and_then(|v| v.as_i64()), Some(3));
}

#[test]
fn deterministic_test_deterministic_test_runner() {
    let mut runner = DeterministicTestRunner::new(create_test_schema());
    let events = create_test_events(10);
    let result = runner.run_deterministic_test("test_basic", &events, |events: &[Event]| {
        let _count = events
            .iter()
            .filter(|e| matches!(e.get_field(1), Some(TypedValue::I64(n)) if *n > 25))
            .count();
        vec![]
    });
    assert!(result.is_ok());
    let results = runner.get_results();
    assert_eq!(results.len(), 1);
    assert!(results[0].consistent);

    let events = create_test_events(25);
    let result = runner.run_deterministic_test("test_runner_basic", &events, empty_alerts);
    assert!(result.is_ok());
    let results = runner.get_results();
    assert_eq!(results.len(), 2);
    assert!(results[1].consistent);
}

#[test]
fn test_deterministic_verifier_basic() {
    let verifier = DeterministicVerifier::new(create_test_schema());
    let events = create_test_events(30);
    let result = verifier.verify_determinism(&events, empty_alerts);
    assert!(result.is_ok());
    let result = result.unwrap();
    assert!(result.consistent);
    assert_eq!(result.total_runs, 5);
}

#[test]
fn test_deterministic_verifier_empty_events() {
    let verifier = DeterministicVerifier::new(create_test_schema());
    let events: Vec<Event> = vec![];
    let result = verifier.verify_determinism(&events, empty_alerts);
    assert!(result.is_ok());
    let result = result.unwrap();
    assert!(result.consistent);
    assert_eq!(result.total_runs, 5);
}

#[test]
fn test_deterministic_test_runner_multiple_tests() {
    let mut runner = DeterministicTestRunner::new(create_test_schema());
    let events1 = create_test_events(10);
    let events2 = create_test_events(20);
    let result1 = runner.run_deterministic_test("test_small", &events1, empty_alerts);
    let result2 = runner.run_deterministic_test("test_large", &events2, empty_alerts);
    assert!(result1.is_ok());
    assert!(result2.is_ok());
    assert_eq!(runner.get_results().len(), 2);
}

#[test]
fn test_deterministic_test_runner_clear() {
    let mut runner = DeterministicTestRunner::new(create_test_schema());
    let events = create_test_events(10);
    let _ = runner.run_deterministic_test("test", &events, empty_alerts);
    assert_eq!(runner.get_results().len(), 1);
    runner.clear_results();
    assert_eq!(runner.get_results().len(), 0);
}

#[test]
fn test_replay_verification_result() {
    let result = ReplayVerificationResult {
        total_events: 50,
        total_alerts: 8,
        mismatches: Vec::new(),
        is_deterministic: true,
        execution_time_ms: 250,
        memory_peak_bytes: 1024 * 1024,
        cpu_time_ms: 200,
    };
    assert!(result.is_deterministic);
    assert_eq!(result.total_events, 50);
    assert_eq!(result.total_alerts, 8);
}

#[test]
fn test_verification_mismatch() {
    let mismatch = VerificationMismatch {
        event_id: 42,
        expected: 1,
        actual: 0,
        details: "Event 42 expected 1 alert, got 0".to_string(),
    };
    assert_eq!(mismatch.event_id, 42);
    assert_eq!(mismatch.expected, 1);
    assert_eq!(mismatch.actual, 0);
}

#[test]
fn test_deterministic_timing_consistency() {
    let verifier = DeterministicVerifier::new(create_test_schema());
    let events = create_test_events(50);
    let result = verifier.verify_determinism(&events, empty_alerts).unwrap();
    assert!(result.consistent);
}

#[test]
fn test_deterministic_alert_count_stability() {
    let verifier = DeterministicVerifier::new(create_test_schema());
    let events: Vec<Event> =
        (0..100).map(|i| event(i, i as u128 % 10, vec![(1, TypedValue::I64((i % 100) as i64))])).collect();
    let result = verifier.verify_determinism(&events, empty_alerts).unwrap();
    assert!(result.consistent);
}

#[test]
fn determinism_reports_differing_runs() {
    let verifier = DeterministicVerifier::new(create_test_schema());
    let events = create_test_events(3);
    let calls = std::cell::Cell::new(0usize);
    let result = verifier
        .verify_determinism(&events, |evs: &[Event]| {
            calls.set(calls.get() + 1);
            if calls.get() == 3 {
                vec![alert_for(&evs[0])]
            } else {
                vec![]
            }
        })
        .unwrap();
    assert!(!result.consistent);
    assert_eq!(result.total_alerts, vec![0, 0, 1, 0, 0]);
    assert_eq!(result.mismatches, vec!["Run 3 has different alert count: 1 vs 0".to_string()]);
    assert_eq!(result.execution_times_ms.len(), 5);
}

#[test]
fn verifier_replay_counts_alerts() {
    let verifier = DeterministicVerifier::new(create_test_schema());
    let events = create_test_events(80);
    let result = verifier
        .replay_and_verify(&events, |e: &Event| run_detection(std::slice::from_ref(e)))
        .unwrap();
    assert_eq!(result.total_events, 80);
    // Events 51 to 79 carry a value above 50.
    assert_eq!(result.total_alerts, 29);
    assert!(result.is_deterministic);
    assert!(result.mismatches.is_empty());

    let empty = verifier.replay_and_verify(&[], |e: &Event| vec![alert_for(e)]).unwrap();
    assert_eq!(empty.total_events, 0);
    assert_eq!(empty.execution_time_ms, 0);
}

#[test]
fn replay_source_checks_expected_counts() {
    let events = create_test_events(4);
    let mut expected: HashMap<u64, Vec<Alert>> = HashMap::new();
    expected.insert(1, vec![]);
    expected.insert(2, vec![alert_for(&events[1])]);
    expected.insert(3, vec![]);
    let mut source = ReplaySource::with_verification(events, expected);
    let result = source
        .replay_and_verify(|e: &Event| if e.event_id == 3 { vec![alert_for(e), alert_for(e)] } else { vec![] })
        .unwrap();
    assert_eq!(result.total_events, 4);
    assert_eq!(result.total_alerts, 2);
    assert!(!result.is_deterministic);
    assert_eq!(result.mismatches.len(), 2);
    assert_eq!(result.mismatches[0].event_id, 2);
    assert_eq!(result.mismatches[0].details, "Event 2: expected 1 alerts, got 0");
    assert_eq!(result.mismatches[1].event_id, 3);
    assert_eq!(result.mismatches[1].actual, 2);
    let recorded = source.get_recorded_results();
    assert_eq!(recorded.len(), 4);
    assert_eq!(recorded[2].0, 3);
    assert_eq!(recorded[2].1.len(), 2);
    assert!(source.next_event().is_none());
    source.reset();
    assert_eq!(source.next_event().map(|e| e.event_id), Some(1));
}
