use kestrel::ac_builder::{AcDfaBuilder, IrBinaryOp, IrFunction, IrLiteral, IrNode, IrPredicate, PatternExtractor};
use kestrel::ac_matcher::{AcMatcher, MatchType};
use kestrel::ac_pattern::{AcDfaConfig, AcDfaError, MatchPattern, PatternKind};

fn load(field_id: u32) -> IrNode {
    IrNode::LoadField { field_id }
}

fn lit(s: &str) -> IrNode {
    IrNode::Literal { value: IrLiteral::String(s.to_string()) }
}

fn predicate(root: IrNode) -> IrPredicate {
    IrPredicate { id: "pred1".to_string(), event_type: "process".to_string(), root }
}

#[test]
fn test_extractor_creation() {
    let extractor = PatternExtractor::new();
    assert_eq!(extractor.max_patterns(), 10_000);
}

#[test]
fn test_builder_creation() {
    let builder = AcDfaBuilder::new();
    assert_eq!(builder.pattern_count(), 0);
}

#[test]
fn test_extract_equality() {
    let predicate = predicate(IrNode::BinaryOp {
        op: IrBinaryOp::Eq,
        left: Box::new(load(1)),
        right: Box::new(lit("bash")),
    });
    let extractor = PatternExtractor::new();
    let patterns = extractor.extract_from_predicate(&predicate, "rule-1").unwrap();
    assert_eq!(patterns.len(), 1);
    assert_eq!(patterns[0].pattern, "bash");
    assert_eq!(patterns[0].kind, PatternKind::Equals);
}

#[test]
fn test_extract_contains() {
    let predicate = predicate(IrNode::FunctionCall { func: IrFunction::Contains, args: vec![load(1), lit("ssh")] });
    let extractor = PatternExtractor::new();
    let patterns = extractor.extract_from_predicate(&predicate, "rule-1").unwrap();
    assert_eq!(patterns.len(), 1);
    assert_eq!(patterns[0].pattern, "ssh");
    assert_eq!(patterns[0].kind, PatternKind::Contains);
}

#[test]
fn extract_literal_on_left_and_nested_and() {
    // `"ssh" == field` and `startswith(field, "/usr")` under an `and`
    let predicate = predicate(IrNode::BinaryOp {
        op: IrBinaryOp::And,
        left: Box::new(IrNode::BinaryOp { op: IrBinaryOp::Eq, left: Box::new(lit("ssh")), right: Box::new(load(3)) }),
        right: Box::new(IrNode::FunctionCall { func: IrFunction::StartsWith, args: vec![load(4), lit("/usr")] }),
    });
    let patterns = PatternExtractor::new().extract_from_predicate(&predicate, "rule-9").unwrap();
    assert_eq!(patterns.len(), 2);
    assert_eq!(patterns[0].pattern, "ssh");
    assert_eq!(patterns[0].field_id, 3);
    assert_eq!(patterns[0].kind, PatternKind::Equals);
    assert_eq!(patterns[0].rule_id, "rule-9");
    assert_eq!(patterns[1].pattern, "/usr");
    assert_eq!(patterns[1].field_id, 4);
    assert_eq!(patterns[1].kind, PatternKind::StartsWith);
}

#[test]
fn extract_in_list_gives_one_pattern_per_string() {
    let predicate = predicate(IrNode::In {
        value: Box::new(load(2)),
        values: vec![IrLiteral::String("a".to_string()), IrLiteral::Other, IrLiteral::String("b".to_string())],
    });
    let patterns = PatternExtractor::new().extract_from_predicate(&predicate, "r").unwrap();
    assert_eq!(patterns.len(), 2);
    assert_eq!(patterns[0].pattern, "a");
    assert_eq!(patterns[1].pattern, "b");
    assert!(patterns.iter().all(|p| p.kind == PatternKind::Equals && p.field_id == 2));
}

#[test]
fn extract_other_nodes_gives_nothing() {
    let predicate = predicate(IrNode::BinaryOp { op: IrBinaryOp::Other, left: Box::new(load(1)), right: Box::new(lit("x")) });
    let patterns = PatternExtractor::new().extract_from_predicate(&predicate, "r").unwrap();
    assert!(patterns.is_empty());
}

#[test]
fn builder_collects_predicates_and_builds() {
    let p1 = predicate(IrNode::BinaryOp { op: IrBinaryOp::Eq, left: Box::new(load(1)), right: Box::new(lit("bash")) });
    let p2 = predicate(IrNode::FunctionCall { func: IrFunction::EndsWith, args: vec![load(2), lit(".exe")] });
    let builder = AcDfaBuilder::new().add_predicate(&p1, "r1").unwrap().add_predicate(&p2, "r2").unwrap();
    assert_eq!(builder.pattern_count(), 2);
    let matcher = builder.build().unwrap();
    assert_eq!(matcher.pattern_count(), 2);
    let m = matcher.matches_field(2, "evil.exe");
    assert_eq!(m.len(), 1);
    assert_eq!(m[0].kind, MatchType::Suffix);
}

#[test]
fn builder_without_patterns_fails_to_build() {
    assert!(matches!(AcDfaBuilder::new().build(), Err(AcDfaError::NoPatterns)));
}

#[test]
fn test_config_default() {
    let config = AcDfaConfig::default();
    assert_eq!(config.max_patterns, 10_000);
    assert_eq!(config.max_pattern_length, 4096);
    assert!(!config.case_insensitive);
    assert!(config.validate_utf8);
}

#[test]
fn test_error_display() {
    let err = AcDfaError::InvalidPattern("test".to_string());
    assert!(err.to_string().contains("test"));
}

#[test]
fn error_messages() {
    assert_eq!(AcDfaError::InvalidPattern("x".to_string()).to_string(), "Invalid pattern: x");
    assert_eq!(AcDfaError::NoPatterns.to_string(), "No patterns provided");
    assert_eq!(
        AcDfaError::PatternTooLong { length: 12, max: 4 }.to_string(),
        "Pattern too long: 12 bytes (max: 4)"
    );
    assert_eq!(
        AcDfaError::TooManyPatterns { count: 3, max: 2 }.to_string(),
        "Too many patterns: 3 (max: 2)"
    );
}

#[test]
fn test_pattern_creation() {
    let pattern = MatchPattern::equals("bash".to_string(), 1, "rule-1".to_string()).unwrap();
    assert_eq!(pattern.pattern, "bash");
    assert_eq!(pattern.field_id, 1);
    assert_eq!(pattern.kind, PatternKind::Equals);
    assert_eq!(pattern.rule_id, "rule-1");
}

#[test]
fn test_pattern_empty() {
    let result = MatchPattern::equals("".to_string(), 1, "rule-1".to_string());
    assert!(result.is_err());
}

#[test]
fn test_pattern_validation() {
    let pattern = MatchPattern::equals("bash".to_string(), 1, "rule-1".to_string()).unwrap();
    assert!(pattern.validate(10).is_ok());
    assert!(pattern.validate(2).is_err());
}

#[test]
fn test_pattern_kinds() {
    assert_eq!(PatternKind::all().len(), 4);
}

#[test]
fn test_pattern_kind_display() {
    assert_eq!(PatternKind::Equals.to_string(), "==");
    assert_eq!(PatternKind::Contains.to_string(), "contains");
    assert_eq!(PatternKind::StartsWith.to_string(), "startswith");
    assert_eq!(PatternKind::EndsWith.to_string(), "endswith");
}

#[test]
fn test_matcher_creation() {
    let patterns = vec![MatchPattern::equals("bash".to_string(), 1, "rule-1".to_string()).unwrap()];
    let matcher = AcMatcher::new(patterns, AcDfaConfig::default()).unwrap();
    assert_eq!(matcher.pattern_count(), 1);
}

#[test]
fn test_matcher_no_patterns() {
    let result = AcMatcher::new(vec![], AcDfaConfig::default());
    assert!(result.is_err());
}

#[test]
fn matcher_rejects_too_many_and_too_long() {
    let config = AcDfaConfig { max_patterns: 1, max_pattern_length: 4096, case_insensitive: false, validate_utf8: true };
    let patterns = vec![
        MatchPattern::equals("a".to_string(), 1, "r".to_string()).unwrap(),
        MatchPattern::equals("b".to_string(), 1, "r".to_string()).unwrap(),
    ];
    assert!(matches!(AcMatcher::new(patterns, config), Err(AcDfaError::TooManyPatterns { count: 2, max: 1 })));
    let config = AcDfaConfig { max_patterns: 10, max_pattern_length: 3, case_insensitive: false, validate_utf8: true };
    let patterns = vec![MatchPattern::equals("abcd".to_string(), 1, "r".to_string()).unwrap()];
    assert!(matches!(AcMatcher::new(patterns, config), Err(AcDfaError::PatternTooLong { length: 4, max: 3 })));
}

#[test]
fn test_exact_match() {
    let patterns = vec![MatchPattern::equals("bash".to_string(), 1, "rule-1".to_string()).unwrap()];
    let matcher = AcMatcher::new(patterns, AcDfaConfig::default()).unwrap();
    let matches = matcher.matches_field(1, "bash");
    assert_eq!(matches.len(), 1);
    assert_eq!(matches[0].kind, MatchType::Exact);
}

#[test]
fn exact_pattern_does_not_match_longer_text() {
    let patterns = vec![MatchPattern::equals("bash".to_string(), 1, "rule-1".to_string()).unwrap()];
    let matcher = AcMatcher::new(patterns, AcDfaConfig::default()).unwrap();
    assert_eq!(matcher.matches_field(1, "/bin/bash").len(), 0);
}

#[test]
fn test_contains_match() {
    let patterns = vec![MatchPattern::contains("ssh".to_string(), 1, "rule-1".to_string()).unwrap()];
    let matcher = AcMatcher::new(patterns, AcDfaConfig::default()).unwrap();
    let matches = matcher.matches_field(1, "/usr/bin/ssh-server");
    assert_eq!(matches.len(), 1);
    assert_eq!(matches[0].kind, MatchType::Contains);
    assert_eq!(matches[0].start, 9);
    assert_eq!(matches[0].end, 12);
}

#[test]
fn test_prefix_match() {
    let patterns = vec![MatchPattern::starts_with("/usr/bin".to_string(), 1, "rule-1".to_string()).unwrap()];
    let matcher = AcMatcher::new(patterns, AcDfaConfig::default()).unwrap();
    let matches = matcher.matches_field(1, "/usr/bin/bash");
    assert_eq!(matches.len(), 1);
    assert_eq!(matches[0].kind, MatchType::Prefix);
}

#[test]
fn test_suffix_match() {
    let patterns = vec![MatchPattern::ends_with(".exe".to_string(), 1, "rule-1".to_string()).unwrap()];
    let matcher = AcMatcher::new(patterns, AcDfaConfig::default()).unwrap();
    let matches = matcher.matches_field(1, "malware.exe");
    assert_eq!(matches.len(), 1);
    assert_eq!(matches[0].kind, MatchType::Suffix);
}

#[test]
fn test_no_match_wrong_field() {
    let patterns = vec![MatchPattern::equals("bash".to_string(), 1, "rule-1".to_string()).unwrap()];
    let matcher = AcMatcher::new(patterns, AcDfaConfig::default()).unwrap();
    let matches = matcher.matches_field(2, "bash");
    assert_eq!(matches.len(), 0);
}

#[test]
fn validate_match_by_kind() {
    let p = MatchPattern::starts_with("ab".to_string(), 1, "r".to_string()).unwrap();
    assert_eq!(AcMatcher::validate_match(&p, "abc", 0, 2), Some(MatchType::Prefix));
    assert_eq!(AcMatcher::validate_match(&p, "cab", 1, 3), None);
    let p = MatchPattern::ends_with("ab".to_string(), 1, "r".to_string()).unwrap();
    assert_eq!(AcMatcher::validate_match(&p, "cab", 1, 3), Some(MatchType::Suffix));
    assert_eq!(AcMatcher::validate_match(&p, "abc", 0, 2), None);
}

#[test]
fn test_builder() {
    let patterns = vec![
        MatchPattern::equals("bash".to_string(), 1, "rule-1".to_string()).unwrap(),
        MatchPattern::contains("ssh".to_string(), 2, "rule-1".to_string()).unwrap(),
    ];
    let matcher = AcMatcher::builder().add_patterns(patterns).build().unwrap();
    assert_eq!(matcher.pattern_count(), 2);
}

#[test]
fn pattern_ids_tell_patterns_apart() {
    let a = MatchPattern::new("bash".to_string(), 1, PatternKind::Equals, "r".to_string()).unwrap();
    let b = MatchPattern::new("sh".to_string(), 1, PatternKind::Equals, "r".to_string()).unwrap();
    assert_ne!(a.pattern_id, b.pattern_id);
}

#[test]
fn zero_pattern_length_limit_means_unlimited() {
    let config = AcDfaConfig { max_patterns: 0, max_pattern_length: 0, case_insensitive: false, validate_utf8: true };
    let patterns = vec![MatchPattern::equals("a-rather-long-pattern".to_string(), 1, "r".to_string()).unwrap()];
    let matcher = AcMatcher::new(patterns, config).unwrap();
    assert_eq!(matcher.pattern_count(), 1);
}

#[test]
fn builder_keeps_within_the_pattern_limit() {
    let config = AcDfaConfig { max_patterns: 2, max_pattern_length: 4096, case_insensitive: false, validate_utf8: true };
    let two = predicate(IrNode::BinaryOp {
        op: IrBinaryOp::Or,
        left: Box::new(IrNode::BinaryOp { op: IrBinaryOp::Eq, left: Box::new(load(1)), right: Box::new(lit("a")) }),
        right: Box::new(IrNode::BinaryOp { op: IrBinaryOp::Eq, left: Box::new(load(1)), right: Box::new(lit("b")) }),
    });
    let one = predicate(IrNode::BinaryOp { op: IrBinaryOp::Eq, left: Box::new(load(2)), right: Box::new(lit("c")) });
    let b = AcDfaBuilder::with_config(config).add_predicate(&two, "r1").unwrap();
    assert_eq!(b.pattern_count(), 2);
    let b = b.add_predicate(&one, "r2").unwrap();
    assert_eq!(b.pattern_count(), 2);
    let b = b.add_predicate(&one, "r1").unwrap();
    assert_eq!(b.pattern_count(), 2);
}
