use kestrel::action::{
    ActionAudit, ActionAuditLog, ActionCapabilities, ActionDecision, ActionError, ActionEvidence,
    ActionExecutor, ActionPolicy, ActionResult, ActionTarget, ActionType, AlertActionExecutor,
    BlockActionConfig, BlockActionExecutor, CompositeActionExecutor, CompositePlan, KillActionExecutor,
    NoOpExecutor, QuarantineConfig, QuarantineExecutor,
};

fn exec_target(pid: u32, exe: &str) -> ActionTarget {
    ActionTarget::ProcessExec { pid, executable: exe.to_string() }
}

fn decision(rule: &str, action: ActionType, policy: ActionPolicy, pid: u32) -> ActionDecision {
    ActionDecision::new(rule.to_string(), action, policy, exec_target(pid, "/bin/test"), "Test".to_string(), vec![])
}

#[test]
fn test_action_type_display() {
    assert_eq!(ActionType::Block.to_string(), "block");
    assert_eq!(ActionType::Allow.to_string(), "allow");
    assert_eq!(ActionType::Kill.to_string(), "kill");
    assert_eq!(ActionType::Quarantine.to_string(), "quarantine");
    assert_eq!(ActionType::Alert.to_string(), "alert");
}

#[test]
fn test_action_policy_display() {
    assert_eq!(ActionPolicy::Inline.to_string(), "inline");
    assert_eq!(ActionPolicy::Async.to_string(), "async");
    assert_eq!(ActionPolicy::Offline.to_string(), "offline");
}

#[test]
fn test_action_capabilities() {
    let enforce = ActionCapabilities::enforce();
    assert!(enforce.can_block);
    assert!(enforce.can_allow);
    assert!(enforce.can_kill);
    assert!(enforce.can_quarantine);
    assert!(!enforce.alert_only);

    let alert_only = ActionCapabilities::alert_only();
    assert!(!alert_only.can_block);
    assert!(!alert_only.can_allow);
    assert!(!alert_only.can_kill);
    assert!(!alert_only.can_quarantine);
    assert!(alert_only.alert_only);
}

#[test]
fn test_action_capabilities_supports() {
    let caps = ActionCapabilities::enforce();
    assert!(caps.supports(ActionType::Block));
    assert!(caps.supports(ActionType::Allow));
    assert!(caps.supports(ActionType::Kill));
    assert!(caps.supports(ActionType::Quarantine));
    assert!(caps.supports(ActionType::Alert));

    let alert_only = ActionCapabilities::alert_only();
    assert!(!alert_only.supports(ActionType::Block));
    assert!(!alert_only.supports(ActionType::Allow));
    assert!(!alert_only.supports(ActionType::Kill));
    assert!(!alert_only.supports(ActionType::Quarantine));
    assert!(alert_only.supports(ActionType::Alert));
}

#[test]
fn test_action_target_pid() {
    let target = ActionTarget::ProcessExec { pid: 1234, executable: "/bin/test".to_string() };
    assert_eq!(target.pid(), 1234);
    let target = ActionTarget::FileOp { pid: 5678, path: "/etc/passwd".to_string() };
    assert_eq!(target.pid(), 5678);
    assert_eq!(ActionTarget::NetworkOp { pid: 9, addr: "1.2.3.4:80".to_string() }.pid(), 9);
    assert_eq!(ActionTarget::MemoryOp { pid: 10 }.pid(), 10);
}

#[test]
fn test_action_decision_new() {
    let decision = ActionDecision::new(
        "rule-001".to_string(),
        ActionType::Block,
        ActionPolicy::Inline,
        exec_target(1234, "/bin/suspicious"),
        "Suspicious process detected".to_string(),
        vec![],
    );
    assert_eq!(decision.rule_id, "rule-001");
    assert_eq!(decision.action, ActionType::Block);
    assert_eq!(decision.policy, ActionPolicy::Inline);
    assert!(!decision.id.is_empty());
    assert!(decision.timestamp_ns > 0);
}

#[test]
fn decision_ids_are_fresh() {
    let a = decision("r", ActionType::Alert, ActionPolicy::Async, 1);
    let b = decision("r", ActionType::Alert, ActionPolicy::Async, 1);
    assert_eq!(a.id.len(), 36);
    assert_ne!(a.id, b.id);
    let c: Vec<char> = a.id.chars().collect();
    assert_eq!((c[8], c[13], c[18], c[23], c[14]), ('-', '-', '-', '-', '4'));
}

#[test]
fn test_action_result_success() {
    let result = ActionResult::success("test-001".to_string(), ActionType::Block);
    assert!(result.success);
    assert!(result.error.is_none());
    assert_eq!(result.actual_action, Some(ActionType::Block));
}

#[test]
fn test_action_result_failure() {
    let result = ActionResult::failure("test-001".to_string(), "Target not found".to_string());
    assert!(!result.success);
    assert!(result.error.is_some());
    assert_eq!(result.error, Some("Target not found".to_string()));
}

#[test]
fn test_action_evidence_new() {
    let evidence = ActionEvidence::new(
        1001,
        1234567890,
        vec![("process.executable".to_string(), serde_json::Value::String("/bin/ls".to_string()))],
    );
    assert_eq!(evidence.event_type_id, 1001);
    assert_eq!(evidence.timestamp_ns, 1234567890);
    assert_eq!(evidence.fields.len(), 1);
}

#[test]
fn test_noop_executor() {
    let executor = NoOpExecutor::default();
    let decision = decision("rule-001", ActionType::Block, ActionPolicy::Inline, 1234);
    let result = executor.execute(&decision).unwrap();
    assert!(result.success);
    assert_eq!(result.decision_id, decision.id);
    assert_eq!(result.actual_action, Some(ActionType::Alert));
    let caps = executor.capabilities();
    assert!(caps.alert_only);
}

#[test]
fn test_block_action_executor() {
    let executor = BlockActionExecutor::new();
    let decision = decision("rule-001", ActionType::Block, ActionPolicy::Inline, 1234);
    let result = executor.execute(&decision).unwrap();
    assert!(result.success);
    assert_eq!(result.actual_action, Some(ActionType::Block));
}

#[test]
fn test_kill_action_executor() {
    let executor = KillActionExecutor::new();
    let decision = decision("rule-001", ActionType::Kill, ActionPolicy::Inline, 1234);
    let result = executor.execute(&decision).unwrap();
    assert!(result.success);
    assert_eq!(result.actual_action, Some(ActionType::Kill));
}

#[test]
fn test_alert_action_executor() {
    let executor = AlertActionExecutor::new();
    let decision = decision("rule-001", ActionType::Alert, ActionPolicy::Async, 1234);
    let result = executor.execute(&decision).unwrap();
    assert!(result.success);
    assert_eq!(result.actual_action, Some(ActionType::Alert));
}

#[test]
fn test_allow_action_via_composite() {
    let mut executor = CompositeActionExecutor::new(ActionPolicy::Inline);
    let decision = decision("rule-001", ActionType::Allow, ActionPolicy::Inline, 1234);
    let result = executor.execute_routed(&decision).unwrap().unwrap();
    assert!(result.success);
    assert_eq!(result.actual_action, Some(ActionType::Allow));
}

#[test]
fn test_offline_mode_simulation() {
    let mut executor = CompositeActionExecutor::new(ActionPolicy::Offline);
    let decision = decision("rule-001", ActionType::Kill, ActionPolicy::Inline, 1234);
    let result = executor.execute_routed(&decision).unwrap().unwrap();
    assert!(result.success);
    assert_eq!(result.actual_action, Some(ActionType::Kill));
}

#[test]
fn composite_async_refuses_inline_decisions() {
    let mut executor = CompositeActionExecutor::new(ActionPolicy::Async);
    let decision = decision("rule-001", ActionType::Block, ActionPolicy::Inline, 1234);
    assert_eq!(executor.plan(&decision), CompositePlan::RefuseInline);
    let err = executor.execute_routed(&decision).unwrap().unwrap_err();
    assert_eq!(err.to_string(), "Action not supported in current mode: Inline action not supported in async mode");
}

#[test]
fn composite_leaves_quarantine_to_caller_and_audits_routed_actions() {
    let mut executor = CompositeActionExecutor::with_audit_log(ActionPolicy::Inline, ActionAuditLog::new(10));
    let q = decision("rule-q", ActionType::Quarantine, ActionPolicy::Inline, 5);
    assert!(executor.execute_routed(&q).is_none());
    let b = decision("rule-b", ActionType::Block, ActionPolicy::Inline, 77);
    executor.execute_routed(&b).unwrap().unwrap();
    let log = executor.audit_log().unwrap();
    let records = log.get_records();
    assert_eq!(records.len(), 1);
    assert_eq!(records[0].rule_id, "rule-b");
    assert_eq!(records[0].entity_key, 77);
}

#[test]
fn composite_offline_logs_nothing() {
    for (own, decided) in [(ActionPolicy::Offline, ActionPolicy::Inline), (ActionPolicy::Inline, ActionPolicy::Offline)] {
        let mut executor = CompositeActionExecutor::with_audit_log(own, ActionAuditLog::new(10));
        let d = decision("rule-k", ActionType::Kill, decided, 9);
        let r = executor.execute_routed(&d).unwrap().unwrap();
        assert!(r.success);
        assert_eq!(r.decision_id, d.id);
        assert_eq!(r.actual_action, Some(ActionType::Kill));
        assert_eq!(executor.audit_log().unwrap().get_records().len(), 0);
    }
}

#[test]
fn test_action_audit_log() {
    let mut audit_log = ActionAuditLog::new(100);
    let decision = decision("rule-001", ActionType::Block, ActionPolicy::Inline, 1234);
    let result = ActionResult::success(decision.id.clone(), ActionType::Block);
    let audit = ActionAudit::from_decision(&decision, 0x1234, result);
    audit_log.log(audit.clone());
    assert_eq!(audit_log.total_audits(), 1);
    let records = audit_log.get_records();
    assert_eq!(records.len(), 1);
    assert_eq!(records[0].rule_id, "rule-001");
}

#[test]
fn test_action_audit_log_filter_by_entity() {
    let mut audit_log = ActionAuditLog::new(100);
    let d1 = decision("rule-001", ActionType::Block, ActionPolicy::Inline, 1234);
    let r1 = ActionResult::success(d1.id.clone(), ActionType::Block);
    audit_log.log(ActionAudit::from_decision(&d1, 0x1234, r1));
    let d2 = decision("rule-002", ActionType::Kill, ActionPolicy::Inline, 5678);
    let r2 = ActionResult::success(d2.id.clone(), ActionType::Kill);
    audit_log.log(ActionAudit::from_decision(&d2, 0x5678, r2));

    let records = audit_log.get_by_entity(0x1234);
    assert_eq!(records.len(), 1);
    assert_eq!(records[0].rule_id, "rule-001");
    let records = audit_log.get_by_entity(0x5678);
    assert_eq!(records.len(), 1);
    assert_eq!(records[0].rule_id, "rule-002");
    assert_eq!(audit_log.get_by_rule("rule-002").len(), 1);
    assert_eq!(audit_log.get_by_rule("rule-003").len(), 0);
}

#[test]
fn test_action_audit_log_max_records() {
    let mut audit_log = ActionAuditLog::new(3);
    for i in 0..5u32 {
        let d = ActionDecision::new(
            format!("rule-{:03}", i),
            ActionType::Block,
            ActionPolicy::Inline,
            exec_target(i, &format!("test{}", i)),
            format!("Test {}", i),
            vec![],
        );
        let result = ActionResult::success(d.id.clone(), ActionType::Block);
        audit_log.log(ActionAudit::from_decision(&d, i as u128, result));
    }
    let records = audit_log.get_records();
    assert_eq!(records.len(), 3);
    assert_eq!(records[0].rule_id, "rule-002");
    assert_eq!(records[1].rule_id, "rule-003");
    assert_eq!(records[2].rule_id, "rule-004");
    assert_eq!(audit_log.total_audits(), 5);
    audit_log.clear();
    assert_eq!(audit_log.get_records().len(), 0);
}

#[test]
fn test_quarantine_config_default() {
    let config = QuarantineConfig::default();
    assert_eq!(config.quarantine_dir, "/var/lib/kestrel/quarantine");
    assert_eq!(config.max_file_size, 100 * 1024 * 1024);
    assert!(config.compute_hash);
}

#[test]
fn quarantine_executor_defaults() {
    let e = QuarantineExecutor::new();
    assert_eq!(e.config.quarantine_dir, "/var/lib/kestrel/quarantine");
    let c = e.capabilities();
    assert!(c.can_quarantine);
    assert!(!c.can_block && !c.can_allow && !c.can_kill && !c.alert_only);
    assert_eq!(e.policy(), ActionPolicy::Async);
}

#[test]
fn quarantine_helpers() {
    let executor = QuarantineExecutor::new();
    assert!(executor.check_file_size(100 * 1024 * 1024).is_ok());
    let err = executor.check_file_size(100 * 1024 * 1024 + 1).unwrap_err();
    assert_eq!(err.to_string(), "Quarantine error: File too large to quarantine: 104857601 bytes");
    assert_eq!(QuarantineExecutor::quarantine_file_name("evil", 1700, 42, "quarantine"), "evil_1700_42.quarantine");
    let d = ActionDecision::new(
        "r".to_string(),
        ActionType::Quarantine,
        ActionPolicy::Async,
        ActionTarget::MemoryOp { pid: 3 },
        "x".to_string(),
        vec![],
    );
    let err = QuarantineExecutor::quarantine_target(&d).unwrap_err();
    assert_eq!(err.to_string(), "Invalid action: Quarantine not supported for this target type");
    let d = ActionDecision::new(
        "r".to_string(),
        ActionType::Quarantine,
        ActionPolicy::Async,
        ActionTarget::FileOp { pid: 3, path: "/tmp/x".to_string() },
        "x".to_string(),
        vec![],
    );
    assert_eq!(QuarantineExecutor::quarantine_target(&d).unwrap(), (3, "/tmp/x".to_string()));
}

#[test]
fn action_error_messages() {
    assert_eq!(ActionError::PermissionDenied("a".to_string()).to_string(), "Permission denied for action: a");
    assert_eq!(ActionError::TargetNotFound("b".to_string()).to_string(), "Target not found: b");
    assert_eq!(ActionError::ActionFailed("c".to_string()).to_string(), "Action failed: c");
    assert_eq!(ActionError::IoError("d".to_string()).to_string(), "IO error: d");
}

#[test]
fn test_block_action_config_default() {
    let config = BlockActionConfig::default();
    assert!(!config.use_ptrace);
    assert!(!config.use_seccomp);
    assert!(!config.use_fanotify);
    assert_eq!(config.kill_signal, 9);
}

#[test]
fn file_content_hash_is_sha256_of_joined_lines() {
    let lines = vec!["hello".to_string(), " world".to_string()];
    assert_eq!(
        QuarantineExecutor::compute_file_hash(&lines),
        "b94d27b9934d3e08a52e52d7da7dabfac484efe37a5380ee9088f7ace2efcde9"
    );
    assert_eq!(
        QuarantineExecutor::compute_file_hash(&[]),
        "e3b0c44298fc1c149afbf4c8996fb92427ae41e4649b934ca495991b7852b855"
    );
}
