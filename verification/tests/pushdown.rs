use kestrel::ebpf::{EbpfEventType, RawEbpfEvent};
use kestrel::pushdown::{FilterOp, FilterValue, InterestPushdown, PredicateFilter};
use std::time::Instant;

fn create_mock_raw_event(event_type: u32, pid: u32, ts: u64) -> RawEbpfEvent {
    RawEbpfEvent {
        event_type,
        ts_mono_ns: ts,
        entity_key: pid as u64,
        pid,
        ppid: if pid > 0 { pid - 1 } else { 0 },
        uid: 1000,
        gid: 1000,
        path_len: 0,
        cmdline_len: 0,
        exit_code: 0,
    }
}

#[test]
fn test_interest_pushdown_creation() {
    let pushdown = InterestPushdown::new();
    assert!(!pushdown.is_event_type_interesting(EbpfEventType::ProcessExec));
}

#[test]
fn pushdown_test_update_event_types() {
    let mut pushdown = InterestPushdown::new();
    pushdown.update_event_types(vec![EbpfEventType::ProcessExec, EbpfEventType::ProcessExit]);
    assert!(pushdown.is_event_type_interesting(EbpfEventType::ProcessExec));
    assert!(pushdown.is_event_type_interesting(EbpfEventType::ProcessExit));
    assert!(!pushdown.is_event_type_interesting(EbpfEventType::FileOpen));
}

#[test]
fn pushdown_test_add_field_interest() {
    let mut pushdown = InterestPushdown::new();
    pushdown.add_field_interest(1, 10);
    pushdown.add_field_interest(1, 20);
    pushdown.add_field_interest(1, 10);
    let interests = pushdown.get_field_interests(1);
    assert_eq!(interests.len(), 2);
    assert!(interests.contains(&10));
    assert!(interests.contains(&20));
}

#[test]
fn update_event_types_replaces_and_dedups() {
    let mut pushdown = InterestPushdown::new();
    pushdown.update_event_types(vec![EbpfEventType::FileOpen, EbpfEventType::FileOpen]);
    pushdown.update_event_types(vec![EbpfEventType::NetworkSend]);
    assert!(!pushdown.is_event_type_interesting(EbpfEventType::FileOpen));
    assert!(pushdown.is_event_type_interesting(EbpfEventType::NetworkSend));
    assert_eq!(pushdown.get_field_interests(5).len(), 0);
}

#[test]
fn test_add_predicate_filter() {
    let mut pushdown = InterestPushdown::new();
    let filter = PredicateFilter { field_id: 10, op: FilterOp::Eq, value: FilterValue::U32(100) };
    pushdown.add_predicate_filter(1, filter.clone());
    let filters = pushdown.get_predicate_filters(1);
    assert_eq!(filters.len(), 1);
    assert_eq!(filters[0].field_id, 10);
    assert_eq!(pushdown.get_predicate_filters(2).len(), 0);
}

#[test]
fn test_clear() {
    let mut pushdown = InterestPushdown::new();
    pushdown.update_event_types(vec![EbpfEventType::ProcessExec]);
    pushdown.add_field_interest(1, 10);
    assert!(pushdown.is_event_type_interesting(EbpfEventType::ProcessExec));
    pushdown.clear();
    assert!(!pushdown.is_event_type_interesting(EbpfEventType::ProcessExec));
    assert_eq!(pushdown.get_field_interests(1).len(), 0);
}

#[test]
fn test_pushdown_creation() {
    let pushdown = InterestPushdown::new();
    assert!(!pushdown.is_event_type_interesting(EbpfEventType::ProcessExec));
}

#[test]
fn integration_test_test_update_event_types() {
    let mut pushdown = InterestPushdown::new();
    let types = vec![EbpfEventType::ProcessExec, EbpfEventType::ProcessExit, EbpfEventType::FileOpen];
    pushdown.update_event_types(types);
    assert!(pushdown.is_event_type_interesting(EbpfEventType::ProcessExec));
    assert!(pushdown.is_event_type_interesting(EbpfEventType::ProcessExit));
    assert!(pushdown.is_event_type_interesting(EbpfEventType::FileOpen));
}

#[test]
fn integration_test_test_add_field_interest() {
    let mut pushdown = InterestPushdown::new();
    pushdown.add_field_interest(1, 10);
    pushdown.add_field_interest(1, 11);
    let interests = pushdown.get_field_interests(1);
    assert_eq!(interests.len(), 2);
    assert!(interests.contains(&10));
    assert!(interests.contains(&11));
}

#[test]
fn benchmark_pushdown_creation() {
    let start = Instant::now();
    let iterations = 10_000;
    for _ in 0..iterations {
        let pushdown = InterestPushdown::new();
        let _ = pushdown;
    }
    let per_op_ns = start.elapsed().as_nanos() / iterations as u128;
    println!("Pushdown creation: {} ns/op", per_op_ns);
    assert!(per_op_ns < 1000, "Pushdown creation too slow: {} ns", per_op_ns);
}

#[test]
fn benchmark_update_event_types() {
    let mut pushdown = InterestPushdown::new();
    let types = vec![
        EbpfEventType::ProcessExec,
        EbpfEventType::ProcessExit,
        EbpfEventType::FileOpen,
        EbpfEventType::FileRename,
        EbpfEventType::NetworkConnect,
    ];
    let start = Instant::now();
    let iterations = 100_000;
    for _ in 0..iterations {
        pushdown.update_event_types(types.clone());
    }
    let per_op_ns = start.elapsed().as_nanos() / iterations as u128;
    println!("Update event types: {} ns/op", per_op_ns);
    assert!(per_op_ns < 50_000, "Update too slow: {} ns", per_op_ns);
}

#[test]
fn benchmark_add_field_interest() {
    let mut pushdown = InterestPushdown::new();
    let start = Instant::now();
    let iterations = 100_000;
    for i in 0..iterations {
        pushdown.add_field_interest(1, i % 1000);
    }
    let per_op_ns = start.elapsed().as_nanos() / iterations as u128;
    println!("Add field interest: {} ns/op", per_op_ns);
    assert!(per_op_ns < 50_000, "Add interest too slow: {} ns", per_op_ns);
}

#[test]
fn benchmark_is_event_type_interesting() {
    let mut pushdown = InterestPushdown::new();
    pushdown.update_event_types(vec![EbpfEventType::ProcessExec, EbpfEventType::ProcessExit]);
    let start = Instant::now();
    let iterations = 1_000_000;
    for i in 0..iterations {
        let event_type = if i % 2 == 0 { EbpfEventType::ProcessExec } else { EbpfEventType::ProcessExit };
        let _ = pushdown.is_event_type_interesting(event_type);
    }
    let per_op_ns = start.elapsed().as_nanos() / iterations as u128;
    println!("Is interesting check: {} ns/op", per_op_ns);
    assert!(per_op_ns < 1500, "Interest check too slow: {} ns", per_op_ns);
}

#[test]
fn benchmark_get_field_interests() {
    let mut pushdown = InterestPushdown::new();
    for i in 0..100 {
        pushdown.add_field_interest(1, i);
    }
    let start = Instant::now();
    let iterations = 100_000;
    for _ in 0..iterations {
        let _ = pushdown.get_field_interests(1);
    }
    let per_op_ns = start.elapsed().as_nanos() / iterations as u128;
    println!("Get field interests: {} ns/op", per_op_ns);
    assert!(per_op_ns < 10_000, "Get interests too slow: {} ns", per_op_ns);
}

#[test]
fn benchmark_event_allocation() {
    let start = Instant::now();
    let iterations = 100_000;
    let events: Vec<_> = (0..iterations).map(|i| create_mock_raw_event(1, i, i as u64 * 1000)).collect();
    let per_op_ns = start.elapsed().as_nanos() / iterations as u128;
    println!("Event allocation: {} ns/op", per_op_ns);
    println!("Total events: {}", events.len());
    assert!(per_op_ns < 1000, "Event allocation too slow: {} ns", per_op_ns);
}

#[test]
fn benchmark_vector_capacity_growth() {
    let start = Instant::now();
    let iterations = 10_000;
    let mut all_events = Vec::new();
    for i in 0..iterations {
        let event = create_mock_raw_event(1, i, i as u64 * 1000);
        all_events.push(event);
    }
    let per_op_ns = start.elapsed().as_nanos() / iterations as u128;
    println!("Vector push (with growth): {} ns/op", per_op_ns);
    println!("Final capacity: {}", all_events.capacity());
    assert!(per_op_ns < 500, "Vector push too slow: {} ns", per_op_ns);
}

#[test]
fn benchmark_large_field_interests() {
    let mut pushdown = InterestPushdown::new();
    let num_fields = 10_000;
    for i in 0..num_fields {
        pushdown.add_field_interest(1, i);
    }
    let start = Instant::now();
    let iterations = 10_000;
    for _ in 0..iterations {
        let _ = pushdown.get_field_interests(1);
    }
    let per_op_ns = start.elapsed().as_nanos() / iterations as u128;
    println!("Get interests ({} fields): {} ns/op", num_fields, per_op_ns);
    assert!(per_op_ns < 100_000, "Large lookup too slow: {} ns", per_op_ns);
}

#[test]
fn benchmark_multiple_event_types() {
    let mut pushdown = InterestPushdown::new();
    let all_types = vec![
        EbpfEventType::ProcessExec,
        EbpfEventType::ProcessExit,
        EbpfEventType::FileOpen,
        EbpfEventType::FileRename,
        EbpfEventType::FileUnlink,
        EbpfEventType::NetworkConnect,
        EbpfEventType::NetworkSend,
    ];
    pushdown.update_event_types(all_types.clone());
    let start = Instant::now();
    let iterations = 1_000_000;
    for i in 0..iterations {
        let event_type = all_types[i % all_types.len()];
        let _ = pushdown.is_event_type_interesting(event_type);
    }
    let per_op_ns = start.elapsed().as_nanos() / iterations as u128;
    println!("Interest check (7 types): {} ns/op", per_op_ns);
    assert!(per_op_ns < 1500, "Multi-type check too slow: {} ns", per_op_ns);
}
