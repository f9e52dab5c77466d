use kestrel::alert::{Alert, AlertError, AlertOutputConfig, Severity};
use kestrel::bench_stats::calculate_percentiles;
use kestrel::cli::{plan_collector, CollectorPlan, CollectorPlanError, plan_alert_sink, AlertOutputArgs, AlertOutputType, AlertSinkPlan, CliError};
use kestrel::deterministic::{compare_runtime_results, summarize_runs, verify_alert_counts};
use kestrel::eventbus::{PartitionBatcher, WorkerStep, 
    flush_due, DefaultPartitioner, SendOutcome, EventBusConfig, EventBusMetrics, PartitionStrategy, Partitioner, PublishError,
};

#[test]
fn event_bus_config_default() {
    let c = EventBusConfig::default();
    assert_eq!(c.channel_size, 10000);
    assert_eq!(c.batch_size, 100);
    assert_eq!(c.partitions, 4);
    assert_eq!(c.partition_strategy, PartitionStrategy::EntityKey);
    assert_eq!(c.batch_timeout_ms, 100);
    assert_eq!(c.backpressure.backpressure_timeout_ms, 5000);
    assert_eq!(c.partition_count(), 4);
    let zero = EventBusConfig { partitions: 0, ..EventBusConfig::default() };
    assert_eq!(zero.partition_count(), 1);
}

#[test]
fn partitioner_strategies() {
    let ev = |t: u16, k: u128| kestrel::event::Event {
        event_id: 1,
        event_type_id: t,
        ts_mono_ns: 0,
        ts_wall_ns: 0,
        entity_key: k,
        source_id: None,
        fields: vec![],
    };
    let p = DefaultPartitioner::new(PartitionStrategy::EntityKey);
    assert_eq!(p.partition(&ev(3, 10), 4), 2);
    assert_eq!(p.partition(&ev(3, 10), 1), 0);
    let p = DefaultPartitioner::new(PartitionStrategy::EventType);
    assert_eq!(p.partition(&ev(7, 10), 4), 3);
    let p = DefaultPartitioner::new(PartitionStrategy::Combined);
    assert_eq!(p.partition(&ev(1, 1), 3), (((1u128 << 64) | 1) % 3) as usize);
    let p = DefaultPartitioner::new(PartitionStrategy::ConsistentHash);
    let a = p.partition(&ev(5, 12345), 8);
    assert!(a < 8);
    assert_eq!(a, p.partition(&ev(5, 12345), 8));
    // The key and type are hashed as their little-endian bytes in turn.
    let mut h = std::collections::hash_map::DefaultHasher::new();
    std::hash::Hasher::write(&mut h, &12345u128.to_le_bytes());
    std::hash::Hasher::write(&mut h, &5u16.to_le_bytes());
    assert_eq!(a, (std::hash::Hasher::finish(&h) as usize) % 8);
}

#[test]
fn batch_flush_policy() {
    assert!(!flush_due(0, 100, 1000, 100));
    assert!(flush_due(100, 100, 0, 100));
    assert!(flush_due(1, 100, 100, 100));
    assert!(!flush_due(1, 100, 99, 100));
}

#[test]
fn event_bus_metrics_and_errors() {
    let m = EventBusMetrics { events_received: 3, events_processed: 2, events_dropped: 1, backpressure_count: 0 };
    let s = m.snapshot();
    assert_eq!((s.events_received, s.events_processed, s.events_dropped, s.backpressure_count), (3, 2, 1, 0));
    assert_eq!(PublishError::Closed.to_string(), "Event bus is closed");
    assert_eq!(PublishError::Full.to_string(), "Event bus is full");
    assert_eq!(PublishError::BackpressureTimeout.to_string(), "Backpressure timeout");
}

#[test]
fn deterministic_runs_summary() {
    let r = summarize_runs(vec![5, 5, 4, 5, 6], vec![1, 2, 3, 4, 5]);
    assert_eq!(r.total_runs, 5);
    assert!(!r.consistent);
    assert_eq!(r.mismatches, vec!["Run 3 has different alert count: 4 vs 5", "Run 5 has different alert count: 6 vs 5"]);
    let r = summarize_runs(vec![2, 2], vec![0, 0]);
    assert!(r.consistent);
    assert!(r.mismatches.is_empty());
    let r = summarize_runs(vec![], vec![]);
    assert!(r.consistent);
    assert_eq!(r.total_runs, 0);
}

#[test]
fn percentiles_of_samples() {
    let mut v: Vec<u128> = (1..=100).rev().collect();
    let (p50, p90, p99) = calculate_percentiles(&mut v);
    assert_eq!((p50, p90, p99), (51, 91, 100));
    assert_eq!(v[0], 1);
    let mut one = vec![7u128];
    assert_eq!(calculate_percentiles(&mut one), (7, 7, 7));
}

#[test]
fn alert_sink_plan_from_cli_settings() {
    let args = AlertOutputArgs { pretty_alerts: true, ..AlertOutputArgs::default() };
    assert!(matches!(plan_alert_sink(&args), Ok(AlertSinkPlan::Stdout { pretty: true })));
    let args = AlertOutputArgs { alert_output: AlertOutputType::File, ..AlertOutputArgs::default() };
    let err = plan_alert_sink(&args).unwrap_err();
    assert_eq!(err, CliError::MissingAlertFile);
    assert_eq!(err.to_string(), "--alert-file required when --alert-output=file");
    let args = AlertOutputArgs {
        alert_output: AlertOutputType::File,
        alert_file: Some("/tmp/a.jsonl".to_string()),
        ..AlertOutputArgs::default()
    };
    match plan_alert_sink(&args) {
        Ok(AlertSinkPlan::File { path }) => assert_eq!(path, "/tmp/a.jsonl"),
        other => panic!("unexpected {:?}", other),
    }
    let args = AlertOutputArgs { alert_output: AlertOutputType::Null, ..AlertOutputArgs::default() };
    assert!(matches!(plan_alert_sink(&args), Ok(AlertSinkPlan::Discard)));
}

fn alert_with_context(context: serde_json::Value) -> Alert {
    let entity_key = context.get("entity_key").and_then(|v| v.as_u64());
    Alert {
        id: "a".to_string(),
        rule_id: "r".to_string(),
        rule_name: "n".to_string(),
        severity: Severity::Low,
        timestamp_ns: 0,
        title: "t".to_string(),
        description: None,
        events: vec![],
        context,
        entity_key,
    }
}

#[test]
fn alert_entity_key_from_context() {
    let mut m = serde_json::Map::new();
    m.insert("entity_key".to_string(), serde_json::Value::from(4242u64));
    assert_eq!(alert_with_context(serde_json::Value::Object(m)).extract_entity_key(), 4242);
    assert_eq!(alert_with_context(serde_json::Value::Null).extract_entity_key(), 0);
    let mut m = serde_json::Map::new();
    m.insert("entity_key".to_string(), serde_json::Value::String("x".to_string()));
    assert_eq!(alert_with_context(serde_json::Value::Object(m)).extract_entity_key(), 0);
}

#[test]
fn alert_misc() {
    assert_eq!(Severity::Critical.rank(), 4);
    assert_eq!(Severity::Informational.rank(), 0);
    let c = AlertOutputConfig::default();
    assert!(c.stdout);
    assert!(c.file.is_none());
    assert_eq!(c.channel_size, 1000);
    assert_eq!(AlertError::OutputFull.to_string(), "Alert output is full");
    assert_eq!(AlertError::IoError("e".to_string()).to_string(), "IO error: e");
}

#[test]
fn worker_wait_time() {
    assert_eq!(kestrel::eventbus::timeout_remaining_ms(0, 30, 100), 100);
    assert_eq!(kestrel::eventbus::timeout_remaining_ms(3, 30, 100), 70);
    assert_eq!(kestrel::eventbus::timeout_remaining_ms(3, 100, 100), 100);
}

#[test]
fn publish_outcomes_are_counted() {
    let mut m = EventBusMetrics::default();
    assert!(m.record_publish(SendOutcome::Sent).is_ok());
    assert!(matches!(m.record_publish(SendOutcome::Full), Err(PublishError::Full)));
    assert!(matches!(m.record_publish(SendOutcome::Closed), Err(PublishError::Closed)));
    assert!(matches!(m.record_publish(SendOutcome::TimedOut), Err(PublishError::BackpressureTimeout)));
    m.record_backpressure();
    m.record_processed(5);
    assert_eq!((m.events_received, m.events_dropped, m.backpressure_count, m.events_processed), (1, 2, 1, 5));
}

#[test]
fn replay_verification_against_expected_counts() {
    let mut expected = std::collections::HashMap::new();
    expected.insert(1u64, 2usize);
    expected.insert(3u64, 0usize);
    let observed = vec![(1u64, 2usize), (2, 5), (3, 1)];
    let r = verify_alert_counts(&observed, Some(&expected), 12);
    assert_eq!(r.total_events, 3);
    assert_eq!(r.total_alerts, 8);
    assert!(!r.is_deterministic);
    assert_eq!(r.mismatches.len(), 1);
    assert_eq!(r.mismatches[0].event_id, 3);
    assert_eq!(r.mismatches[0].details, "Event 3: expected 0 alerts, got 1");
    let r = verify_alert_counts(&observed, None, 0);
    assert!(r.is_deterministic);
    assert!(r.mismatches.is_empty());
}

#[test]
fn runtime_consistency_comparison() {
    let ids = vec![10u64, 11, 12, 13];
    let r = compare_runtime_results(&ids, &[true, false, true], &[true, true, true, false], 5);
    assert_eq!(r.total_events, 4);
    assert!(!r.consistent);
    assert_eq!(r.mismatches.len(), 1);
    assert_eq!(r.mismatches[0].event_index, 1);
    assert_eq!(r.mismatches[0].details, "Event 11: Wasm=false, Lua=true");
    assert_eq!((r.wasm_alerts, r.lua_alerts), (2, 3));
    let r = compare_runtime_results(&ids, &[], &[], 0);
    assert!(r.consistent);
}

#[test]
fn collector_plan_for_each_type() {
    assert!(matches!(plan_collector("mock", None), Ok(CollectorPlan::Mock { count: 100 })));
    assert!(matches!(plan_collector("macos", None), Ok(CollectorPlan::MacOS)));
    match plan_collector("ebpf", Some("/opt/k.o".to_string())) {
        Ok(CollectorPlan::Ebpf { object }) => assert_eq!(object, "/opt/k.o"),
        other => panic!("unexpected: {:?}", other),
    }
    match plan_collector("replay", Some("events.log".to_string())) {
        Ok(CollectorPlan::Replay { path }) => assert_eq!(path, "events.log"),
        other => panic!("unexpected: {:?}", other),
    }
    let e = plan_collector("ebpf", None).unwrap_err();
    assert!(matches!(e, CollectorPlanError::MissingEbpfObject));
    assert_eq!(e.to_string(), "eBPF collector requires --ebpf-object path");
    let e = plan_collector("replay", None).unwrap_err();
    assert_eq!(e.to_string(), "Replay collector requires --ebpf-object as log path");
    let e = plan_collector("kafka", None).unwrap_err();
    assert_eq!(e.to_string(), "Unknown collector type: 'kafka'. Use 'ebpf', 'macos', 'mock', or 'replay'");
}

fn bus_event(id: u64) -> kestrel::event::Event {
    kestrel::event::Event {
        event_id: id,
        event_type_id: 1,
        ts_mono_ns: id,
        ts_wall_ns: id,
        entity_key: 7,
        source_id: None,
        fields: vec![],
    }
}

#[test]
fn partition_batcher_flushes_full_and_stale_batches() {
    let mut b = PartitionBatcher::new(3, 100, 1_000);
    assert!(b.receive(vec![bus_event(1), bus_event(2)]).is_none());
    // Still fresh: wait for the rest of the timeout.
    match b.poll(false, 1_040) {
        WorkerStep::Wait { timeout_ms } => assert_eq!(timeout_ms, 60),
        other => panic!("unexpected: {:?}", other),
    }
    // A third event fills the batch.
    let full = b.receive(vec![bus_event(3), bus_event(4)]).unwrap();
    assert_eq!(full.iter().map(|e| e.event_id).collect::<Vec<_>>(), vec![1, 2, 3, 4]);
    b.delivered(true, 1_050);
    assert!(b.receive(vec![bus_event(5)]).is_none());
    // The pending event waited as long as the timeout: it is delivered.
    match b.poll(false, 1_150) {
        WorkerStep::Deliver { batch, then_wait_ms } => {
            assert_eq!(batch.len(), 1);
            assert_eq!(batch[0].event_id, 5);
            assert_eq!(then_wait_ms, 100);
        },
        other => panic!("unexpected: {:?}", other),
    }
    // Nothing pending: wait the whole timeout.
    match b.poll(false, 1_300) {
        WorkerStep::Wait { timeout_ms } => assert_eq!(timeout_ms, 100),
        other => panic!("unexpected: {:?}", other),
    }
    assert!(b.receive(vec![bus_event(6)]).is_none());
    match b.poll(true, 1_301) {
        WorkerStep::Stop { remaining: Some(rest) } => assert_eq!(rest[0].event_id, 6),
        other => panic!("unexpected: {:?}", other),
    }
    assert!(b.finish().is_none());
}
