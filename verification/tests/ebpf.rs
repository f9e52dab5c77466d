use kestrel::action::{ActionDecision, ActionPolicy, ActionTarget, ActionType, NoOpExecutor};
use kestrel::alert::Severity;
use kestrel::dynamic_probe::{attach_step, AttachStep, ProbeError, ProbeId, ProbeMetadata, ProbeRegistry, ProbeTarget, ProbeType};
use kestrel::ebpf::{EbpfError, EbpfEventType, EnforcementAction, EnforcementDecision, RawEbpfEvent};
use kestrel::executor::{
    determine_action_from_severity, enforcement_for, BlockStatus, DecisionCacheEntry, EbpfExecutor, EbpfExecutorConfig,
    EbpfExecutorError, RateLimiter, SequenceAlert,
};
use kestrel::health::{
    evaluate_health, EbpfHealthChecker, EbpfHealthStatus, HealthCheckConfig, HealthMetrics,
    HealthMetricsSnapshot,
};
use kestrel::lsm::{
    kernel_supports_lsm, BlockingAction, BlockingRule, LsmConfig, LsmError, LsmExecutor, LsmFallback, LsmHookType,
    LsmHooks,
};

fn decision(action: ActionType, pid: u32) -> ActionDecision {
    ActionDecision::new(
        "rule-001".to_string(),
        action,
        ActionPolicy::Inline,
        ActionTarget::ProcessExec { pid, executable: "/bin/test".to_string() },
        "Test".to_string(),
        vec![],
    )
}

#[test]
fn test_probe_id_creation() {
    let id = ProbeId("test_probe".to_string());
    assert_eq!(id.0, "test_probe");
}

#[test]
fn test_probe_id_clone_and_eq() {
    let id1 = ProbeId("probe_a".to_string());
    let id2 = id1.clone();
    assert_eq!(id1, id2);
}

#[test]
fn test_probe_type_equality() {
    assert_eq!(ProbeType::Kprobe, ProbeType::Kprobe);
    assert_ne!(ProbeType::Kprobe, ProbeType::Lsm);
    assert_ne!(ProbeType::Tracepoint, ProbeType::Uprobe);
}

#[test]
fn test_probe_target_kprobe() {
    let target = ProbeTarget::Kprobe { function: "do_sys_open".to_string() };
    match target {
        ProbeTarget::Kprobe { function } => assert_eq!(function, "do_sys_open"),
        _ => panic!("Expected Kprobe target"),
    }
}

#[test]
fn test_probe_target_tracepoint() {
    let target = ProbeTarget::Tracepoint { category: "syscalls".to_string(), name: "sys_enter_open".to_string() };
    match target {
        ProbeTarget::Tracepoint { category, name } => {
            assert_eq!(category, "syscalls");
            assert_eq!(name, "sys_enter_open");
        },
        _ => panic!("Expected Tracepoint target"),
    }
}

#[test]
fn test_probe_target_lsm() {
    let target = ProbeTarget::Lsm { hook: "bprm_check_security".to_string() };
    match target {
        ProbeTarget::Lsm { hook } => assert_eq!(hook, "bprm_check_security"),
        _ => panic!("Expected Lsm target"),
    }
}

#[test]
fn test_probe_target_uprobe() {
    let target = ProbeTarget::Uprobe { binary: "/bin/bash".to_string(), function: "main".to_string() };
    match target {
        ProbeTarget::Uprobe { binary, function } => {
            assert_eq!(binary, "/bin/bash");
            assert_eq!(function, "main");
        },
        _ => panic!("Expected Uprobe target"),
    }
}

#[test]
fn test_probe_error_display() {
    let err = ProbeError::ProgramNotFound("prog_x".to_string());
    assert_eq!(err.to_string(), "Program not found: prog_x");
    let err = ProbeError::AttachFailed("load failed".to_string());
    assert_eq!(err.to_string(), "Attach failed: load failed");
    let err = ProbeError::DetachFailed("not found".to_string());
    assert_eq!(err.to_string(), "Detach failed: not found");
    let err = ProbeError::Conflict("p".to_string());
    assert_eq!(err.to_string(), "Conflict with existing probe: p");
}

#[test]
fn test_probe_metadata_fields() {
    let metadata = ProbeMetadata {
        id: ProbeId("test".to_string()),
        probe_type: ProbeType::Kprobe,
        target: ProbeTarget::Kprobe { function: "foo".to_string() },
        attached_at: std::time::SystemTime::now(),
    };
    assert_eq!(metadata.id.0, "test");
    assert_eq!(metadata.probe_type, ProbeType::Kprobe);
}

#[test]
fn ebpf_error_messages_and_enforcement_decision() {
    assert_eq!(EbpfError::MapError("m".to_string()).to_string(), "Map error: m");
    assert_eq!(EbpfError::ProgramNotFound("p".to_string()).to_string(), "Program not found: p");
    let d = EnforcementDecision::new(7, EnforcementAction::Kill, 1_000);
    assert_eq!(d.pid, 7);
    assert_eq!(d.action, EnforcementAction::Kill);
    assert_eq!(d.ttl_ns, 1_000);
    assert!(d.timestamp_ns > 0);
}

#[test]
fn test_health_status_display() {
    assert_eq!(EbpfHealthStatus::Healthy.to_string(), "healthy");
    assert_eq!(EbpfHealthStatus::Degraded.to_string(), "degraded");
    assert_eq!(EbpfHealthStatus::Unhealthy.to_string(), "unhealthy");
    assert_eq!(EbpfHealthStatus::Fallback.to_string(), "fallback");
}

#[test]
fn test_health_metrics() {
    let mut metrics = HealthMetrics::default();
    metrics.record_event();
    assert_eq!(metrics.events_received, 1);
    metrics.record_dropped();
    assert_eq!(metrics.events_dropped, 1);
    metrics.record_failure();
    assert_eq!(metrics.consecutive_failures, 1);
    metrics.record_event();
    assert_eq!(metrics.consecutive_failures, 0);
}

#[test]
fn health_metrics_remember_the_last_event_time() {
    let mut metrics = HealthMetrics::default();
    metrics.record_failure();
    metrics.record_event_at(1_700_000_000);
    let snap = metrics.snapshot();
    assert_eq!(snap.last_event_time, 1_700_000_000);
    assert_eq!(snap.events_received, 1);
    assert_eq!(snap.consecutive_failures, 0);
    metrics.record_event();
    assert!(metrics.last_event_time > 1_700_000_000);
}

#[test]
fn test_health_checker_new() {
    let config = HealthCheckConfig::default();
    let checker = EbpfHealthChecker::new(config);
    assert_eq!(checker.status(), EbpfHealthStatus::Healthy);
}

fn snapshot(received: u64, dropped: u64, failures: usize) -> HealthMetricsSnapshot {
    HealthMetricsSnapshot {
        events_received: received,
        events_dropped: dropped,
        consecutive_failures: failures,
        last_event_time: 0,
        check_runs: 0,
    }
}

#[test]
fn health_evaluation_rules() {
    let config = HealthCheckConfig::default();
    assert_eq!(evaluate_health(&config, &snapshot(10, 0, 3), 0), EbpfHealthStatus::Unhealthy);
    assert_eq!(evaluate_health(&config, &snapshot(0, 0, 1), 30_001), EbpfHealthStatus::Degraded);
    assert_eq!(evaluate_health(&config, &snapshot(0, 0, 1), 30_000), EbpfHealthStatus::Healthy);
    assert_eq!(evaluate_health(&config, &snapshot(90, 11, 0), 0), EbpfHealthStatus::Degraded);
    assert_eq!(evaluate_health(&config, &snapshot(91, 10, 0), 0), EbpfHealthStatus::Healthy);
    assert_eq!(evaluate_health(&config, &snapshot(50, 10, 0), 0), EbpfHealthStatus::Healthy);
}

#[test]
fn health_checker_recovery_attempts() {
    let mut checker = EbpfHealthChecker::new(HealthCheckConfig::default());
    for _ in 0..3 {
        checker.metrics().record_failure();
    }
    assert!(checker.run_check(0));
    assert_eq!(checker.status(), EbpfHealthStatus::Unhealthy);
    // staying unhealthy is no new change: no new attempt
    assert!(!checker.run_check(0));
    checker.trigger_recovery().unwrap();
    assert_eq!(checker.status(), EbpfHealthStatus::Healthy);
    assert!(checker.run_check(0));
}

#[test]
fn test_lsm_config_default() {
    let config = LsmConfig::default();
    assert_eq!(config.fallback, LsmFallback::NoFallback);
    assert!(config.fanotify_fd.is_none());
    assert!(!config.enable_all_hooks);
    assert_eq!(config.fanotify_mask, 0x0003_0000);
}

#[test]
fn test_blocking_action_values() {
    assert_eq!(BlockingAction::Allow.as_u32(), 0);
    assert_eq!(BlockingAction::Block.as_u32(), 1);
    assert_eq!(BlockingAction::Kill.as_u32(), 2);
}

#[test]
fn test_lsm_hook_type_values() {
    assert_eq!(LsmHookType::BprmCheckSecurity.as_u32(), 1);
    assert_eq!(LsmHookType::FileOpen.as_u32(), 2);
    assert_eq!(LsmHookType::SocketConnect.as_u32(), 4);
}

#[test]
fn test_blocking_rule_new() {
    let rule = BlockingRule {
        entity_key: 0x1234,
        action: BlockingAction::Block,
        ttl_ns: 60_000_000_000,
        timestamp_ns: 1000,
        rule_id: 1,
    };
    assert_eq!(rule.entity_key, 0x1234);
    assert_eq!(rule.action, BlockingAction::Block);
    assert_eq!(rule.ttl_ns, 60_000_000_000);
}

#[test]
fn test_lsm_executor_extract_pid() {
    let target = ActionTarget::ProcessExec { pid: 1234, executable: "/bin/test".to_string() };
    assert_eq!(LsmExecutor::extract_pid(&target), 1234);
    let target = ActionTarget::FileOp { pid: 5678, path: "/etc/passwd".to_string() };
    assert_eq!(LsmExecutor::extract_pid(&target), 5678);
    let target = ActionTarget::NetworkOp { pid: 9999, addr: "1.2.3.4:80".to_string() };
    assert_eq!(LsmExecutor::extract_pid(&target), 9999);
}

#[test]
fn test_lsm_executor_convert_action() {
    assert_eq!(LsmExecutor::convert_action(ActionType::Block).unwrap(), BlockingAction::Block);
    assert_eq!(LsmExecutor::convert_action(ActionType::Kill).unwrap(), BlockingAction::Kill);
    assert_eq!(LsmExecutor::convert_action(ActionType::Allow).unwrap(), BlockingAction::Allow);
    assert_eq!(LsmExecutor::convert_action(ActionType::Alert).unwrap(), BlockingAction::Allow);
}

#[test]
fn test_path_hash() {
    let hooks = LsmHooks::new(LsmConfig::default());
    let hash1 = hooks.hash_path("/bin/ls");
    let hash2 = hooks.hash_path("/bin/cat");
    let hash3 = hooks.hash_path("/bin/ls");
    assert_ne!(hash1, hash2);
    assert_eq!(hash1, hash3);
}

#[test]
fn test_network_addr_hash() {
    let hooks = LsmHooks::new(LsmConfig::default());
    let hash1 = hooks.hash_network_addr("1.2.3.4", 80);
    let hash2 = hooks.hash_network_addr("1.2.3.4", 443);
    let hash3 = hooks.hash_network_addr("1.2.3.4", 80);
    assert_ne!(hash1, hash2);
    assert_eq!(hash1, hash3);
}

#[test]
fn test_lsm_hooks_new() {
    let hooks = LsmHooks::new(LsmConfig::default());
    assert!(!hooks.is_active());
}

#[test]
fn test_lsm_hooks_with_config() {
    let config = LsmConfig { fallback: LsmFallback::Fanotify, enable_all_hooks: true, ..Default::default() };
    let hooks = LsmHooks::new(config);
    assert_eq!(hooks.config().fallback, LsmFallback::Fanotify);
    assert!(hooks.config().enable_all_hooks);
}

#[test]
fn test_lsm_hooks_attach_detach() {
    let mut hooks = LsmHooks::new(LsmConfig::default());
    assert!(!hooks.is_active());
    hooks.attach().unwrap();
    assert!(hooks.is_active());
    hooks.detach();
    assert!(!hooks.is_active());
}

#[test]
fn test_lsm_hooks_block_pid() {
    let mut hooks = LsmHooks::new(LsmConfig::default());
    hooks.block_pid(1234).unwrap();
    assert!(hooks.is_pid_blocked(1234));
    assert!(!hooks.is_pid_blocked(5678));
    hooks.unblock_pid(1234).unwrap();
    assert!(!hooks.is_pid_blocked(1234));
}

#[test]
fn test_lsm_hooks_block_path() {
    let mut hooks = LsmHooks::new(LsmConfig::default());
    let hash = hooks.block_path("/etc/passwd").unwrap();
    assert!(hooks.is_path_blocked(hash));
    assert!(!hooks.is_path_blocked(0));
    hooks.unblock_path(hash).unwrap();
    assert!(!hooks.is_path_blocked(hash));
}

#[test]
fn test_lsm_hooks_block_network() {
    let mut hooks = LsmHooks::new(LsmConfig::default());
    let hash = hooks.block_network("1.2.3.4", 80).unwrap();
    assert!(hooks.is_network_blocked(hash));
    assert!(!hooks.is_network_blocked(0));
    hooks.unblock_network(hash).unwrap();
    assert!(!hooks.is_network_blocked(hash));
}

#[test]
fn test_lsm_hooks_blocking_rules() {
    let mut hooks = LsmHooks::new(LsmConfig::default());
    let rule = BlockingRule {
        entity_key: 0xdeadbeef,
        action: BlockingAction::Block,
        ttl_ns: 60_000_000_000,
        timestamp_ns: 1000,
        rule_id: 1,
    };
    hooks.add_blocking_rule(rule).unwrap();
    hooks.remove_blocking_rule(0xdeadbeef).unwrap();
}

#[test]
fn test_lsm_hooks_kernel_support() {
    assert_eq!(kernel_supports_lsm("5.15.0-91-generic\n").unwrap(), true);
    assert_eq!(kernel_supports_lsm("5.7.0").unwrap(), true);
    assert_eq!(kernel_supports_lsm("5.6.19").unwrap(), false);
    assert_eq!(kernel_supports_lsm("4.19.0").unwrap(), false);
    assert_eq!(kernel_supports_lsm("6").unwrap(), false);
    assert!(matches!(kernel_supports_lsm("6.1\n"), Err(LsmError::LsmNotSupported)));
    assert!(matches!(kernel_supports_lsm("x.1.0"), Err(LsmError::LsmNotSupported)));
}

#[test]
fn test_lsm_executor_offline_mode() {
    let hooks = LsmHooks::new(LsmConfig::default());
    let mut executor = LsmExecutor::new(hooks, ActionPolicy::Offline);
    let result = executor.execute(&decision(ActionType::Block, 1234)).unwrap();
    assert!(result.success);
    assert!(!executor.lsm_hooks().is_pid_blocked(1234));
}

#[test]
fn lsm_executor_inline_blocks_and_unblocks() {
    let mut executor = LsmExecutor::new(LsmHooks::new(LsmConfig::default()), ActionPolicy::Inline);
    executor.execute(&decision(ActionType::Block, 77)).unwrap();
    assert!(executor.lsm_hooks().is_pid_blocked(77));
    executor.execute(&decision(ActionType::Allow, 77)).unwrap();
    assert!(!executor.lsm_hooks().is_pid_blocked(77));
    assert_eq!(
        LsmError::LsmNotSupported.to_string(),
        "Kernel does not support eBPF LSM (requires 5.7+)"
    );
}

#[test]
fn test_severity_to_action() {
    assert_eq!(determine_action_from_severity(Severity::Critical), ActionType::Kill);
    assert_eq!(determine_action_from_severity(Severity::High), ActionType::Block);
    assert_eq!(determine_action_from_severity(Severity::Medium), ActionType::Alert);
    assert_eq!(determine_action_from_severity(Severity::Low), ActionType::Alert);
    assert_eq!(determine_action_from_severity(Severity::Informational), ActionType::Allow);
}

#[test]
fn test_metrics_snapshot() {
    let executor = EbpfExecutor::new(NoOpExecutor::default(), EbpfExecutorConfig::default());
    let snapshot = executor.metrics();
    assert_eq!(snapshot.decisions_total, 0);
}

#[test]
fn test_decision_cache_entry() {
    let decision = decision(ActionType::Block, 1234);
    let now = kestrel::clock::wall_clock_ns();
    let entry = DecisionCacheEntry { decision, expires_at_ns: now + 60_000_000_000, hit_count: 0 };
    assert!(entry.expires_at_ns > kestrel::clock::wall_clock_ns());
}

#[test]
fn test_executor_creation() {
    let executor = EbpfExecutor::new(NoOpExecutor::default(), EbpfExecutorConfig::default());
    assert_eq!(executor.config().policy, ActionPolicy::Inline);
    assert!(executor.config().decision_cache_size > 0);
}

#[test]
fn test_make_decision_no_rules() {
    let mut executor = EbpfExecutor::new(NoOpExecutor::default(), EbpfExecutorConfig::default());
    let result = executor.make_decision(42, &[]).unwrap();
    assert!(result.is_none());
}

#[test]
fn test_make_decision_with_rules() {
    let mut executor = EbpfExecutor::new(NoOpExecutor::default(), EbpfExecutorConfig::default());
    let rules = vec![("test-rule", Severity::High)];
    let result = executor.make_decision(42, &rules).unwrap();
    assert!(result.is_some());
    let decision = result.unwrap();
    assert_eq!(decision.action, ActionType::Block);
    assert_eq!(decision.rule_id, "test-rule");
    assert!(executor.should_block(42));
}

#[test]
fn make_decision_picks_strongest_rule() {
    let mut executor = EbpfExecutor::new(NoOpExecutor::default(), EbpfExecutorConfig::default());
    let rules = vec![("a", Severity::Medium), ("b", Severity::Critical), ("c", Severity::Critical)];
    let decision = executor.make_decision(7, &rules).unwrap().unwrap();
    assert_eq!(decision.rule_id, "b");
    assert_eq!(decision.action, ActionType::Kill);
    match executor.get_block_status(7) {
        BlockStatus::Blocked { action, .. } => assert_eq!(action, ActionType::Kill),
        BlockStatus::NotBlocked => panic!("expected a block"),
    }
}

#[test]
fn test_should_block_cached() {
    let mut executor = EbpfExecutor::new(NoOpExecutor::default(), EbpfExecutorConfig::default());
    assert!(!executor.should_block(42));
    let _ = executor.force_block(42, ActionType::Block, "test".to_string(), 60000);
    assert!(executor.should_block(42));
}

#[test]
fn test_should_not_block_allow() {
    let mut executor = EbpfExecutor::new(NoOpExecutor::default(), EbpfExecutorConfig::default());
    let _ = executor.force_block(42, ActionType::Allow, "test".to_string(), 60000);
    assert!(!executor.should_block(42));
}

#[test]
fn test_unblock() {
    let mut executor = EbpfExecutor::new(NoOpExecutor::default(), EbpfExecutorConfig::default());
    assert!(!executor.should_block(42));
    let _ = executor.force_block(42, ActionType::Block, "test".to_string(), 60000);
    assert!(executor.should_block(42));
    let removed = executor.unblock(42);
    assert!(removed);
    assert!(!executor.should_block(42));
    assert!(!executor.unblock(42));
}

#[test]
fn test_clear_cache() {
    let mut executor = EbpfExecutor::new(NoOpExecutor::default(), EbpfExecutorConfig::default());
    let _ = executor.force_block(42, ActionType::Block, "test".to_string(), 60000);
    let _ = executor.force_block(43, ActionType::Block, "test".to_string(), 60000);
    assert!(executor.should_block(42));
    assert!(executor.should_block(43));
    executor.clear_cache();
    assert!(!executor.should_block(42));
    assert!(!executor.should_block(43));
}

#[test]
fn cached_block_expires() {
    let mut executor = EbpfExecutor::new(NoOpExecutor::default(), EbpfExecutorConfig::default());
    executor.force_block_at(9, ActionType::Block, "t".to_string(), 1, 1_000).unwrap();
    assert!(executor.should_block_at(9, 1_000_999));
    assert!(!executor.should_block_at(9, 1_001_000));
}

#[test]
fn test_rate_limiter() {
    let mut limiter = RateLimiter::new(5);
    for _ in 0..5 {
        assert!(limiter.check_at(100).is_ok());
    }
    let err = limiter.check_at(100).unwrap_err();
    assert!(matches!(err, EbpfExecutorError::RateLimitExceeded(_)));
    assert_eq!(err.to_string(), "Rate limit exceeded: Exceeded 5 decisions per second");
    assert!(limiter.check_at(101).is_ok());
}

#[test]
fn process_detection_blocks_entity() {
    let mut executor = EbpfExecutor::new(NoOpExecutor::default(), EbpfExecutorConfig::default());
    let alert = SequenceAlert {
        rule_id: "seq-rule".to_string(),
        sequence_id: "s1".to_string(),
        entity_key: 4242,
        event_entity_keys: vec![4242, 4242],
    };
    let decisions = executor.process_detection(&alert).unwrap();
    assert_eq!(decisions.len(), 1);
    assert_eq!(decisions[0].rule_id, "seq-rule");
    assert!(executor.should_block(4242));
}

#[test]
fn test_event_type_conversions() {
    let types = vec![
        EbpfEventType::ProcessExec,
        EbpfEventType::ProcessExit,
        EbpfEventType::FileOpen,
        EbpfEventType::FileRename,
        EbpfEventType::FileUnlink,
        EbpfEventType::NetworkConnect,
        EbpfEventType::NetworkSend,
    ];
    for event_type in types {
        let _ = format!("{:?}", event_type);
    }
}

fn create_mock_raw_event(event_type: u32, pid: u32, ts: u64) -> RawEbpfEvent {
    RawEbpfEvent {
        event_type,
        ts_mono_ns: ts,
        entity_key: pid as u64,
        pid,
        ppid: if pid > 0 { pid - 1 } else { 0 },
        uid: 1000,
        gid: 1000,
        path_len: 0,
        cmdline_len: 0,
        exit_code: 0,
    }
}

#[test]
fn test_raw_event_creation() {
    let event = create_mock_raw_event(1, 1234, 1000000);
    assert_eq!(event.event_type, 1);
    assert_eq!(event.pid, 1234);
    assert_eq!(event.entity_key, 1234);
    assert_eq!(event.ts_mono_ns, 1000000);
}

#[test]
fn test_multiple_events() {
    let events: Vec<_> = (0..100).map(|i| create_mock_raw_event(1, i, (i * 1000) as u64)).collect();
    assert_eq!(events.len(), 100);
    assert_eq!(events[0].pid, 0);
    assert_eq!(events[99].pid, 99);
}

#[test]
fn test_program_manager_placeholder() {}

#[test]
fn probe_attach_steps() {
    let k = ProbeTarget::Kprobe { function: "do_sys_open".to_string() };
    assert!(matches!(attach_step(ProbeType::Kprobe, &k), Ok(AttachStep::Kprobe { function }) if function == "do_sys_open"));
    assert!(matches!(attach_step(ProbeType::Lsm, &k), Ok(AttachStep::Skip)));
    let err = attach_step(ProbeType::Uprobe, &k).unwrap_err();
    assert_eq!(err.to_string(), "Attach failed: Unsupported probe type");
    let t = ProbeTarget::Tracepoint { category: "syscalls".to_string(), name: "sys_enter_open".to_string() };
    assert!(matches!(attach_step(ProbeType::Tracepoint, &t), Ok(AttachStep::Tracepoint { .. })));
}

#[test]
fn probe_registry_attach_detach() {
    let mut registry = ProbeRegistry::new();
    let meta = |id: &str| ProbeMetadata {
        id: ProbeId(id.to_string()),
        probe_type: ProbeType::Kprobe,
        target: ProbeTarget::Kprobe { function: "f".to_string() },
        attached_at: std::time::SystemTime::now(),
    };
    registry.record(meta("a"));
    registry.record(meta("b"));
    registry.record(meta("a"));
    assert_eq!(registry.list_probes().len(), 2);
    registry.detach(&ProbeId("a".to_string())).unwrap();
    let err = registry.detach(&ProbeId("a".to_string())).unwrap_err();
    assert_eq!(err.to_string(), "Detach failed: Probe a not found");
    assert_eq!(registry.list_probes().len(), 1);
    registry.shutdown();
    assert!(registry.list_probes().is_empty());
}

#[test]
fn enforcement_entries_follow_the_action() {
    let d = enforcement_for(&decision(ActionType::Block, 42));
    assert_eq!(d.pid, 42);
    assert_eq!(d.action, EnforcementAction::Block);
    assert_eq!(d.ttl_ns, 60_000_000_000);
    let d = enforcement_for(&decision(ActionType::Kill, 7));
    assert_eq!(d.action, EnforcementAction::Kill);
    assert_eq!(d.ttl_ns, 0);
    assert_eq!(enforcement_for(&decision(ActionType::Quarantine, 7)).action, EnforcementAction::Block);
    assert_eq!(enforcement_for(&decision(ActionType::Alert, 7)).action, EnforcementAction::Allow);
}
