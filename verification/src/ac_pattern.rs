//! String patterns for the Aho-Corasick pre-filter: the patterns extracted
//! from predicates, their kinds, the filter's configuration and its errors.
use vstd::prelude::*;
use vstd::string::*;
use vstd::utf8::*;
use crate::decimal::{decimal, push_decimal};

verus! {

/// Errors that can occur in the AC-DFA
#[derive(Debug)]
pub enum AcDfaError {
    InvalidPattern(String),
    NoPatterns,
    PatternTooLong { length: usize, max: usize },
    TooManyPatterns { count: usize, max: usize },
}

/// The message of each AC-DFA error.
pub open spec fn ac_dfa_error_message(e: AcDfaError) -> Seq<char> {
    match e {
        AcDfaError::InvalidPattern(m) => "Invalid pattern: "@ + m@,
        AcDfaError::NoPatterns => "No patterns provided"@,
        AcDfaError::PatternTooLong { length, max } => "Pattern too long: "@ + decimal(length as nat) + " bytes (max: "@
            + decimal(max as nat) + ")"@,
        AcDfaError::TooManyPatterns { count, max } => "Too many patterns: "@ + decimal(count as nat) + " (max: "@
            + decimal(max as nat) + ")"@,
    }
}

impl AcDfaError {
    /// The error's message.
    pub fn to_string(&self) -> (r: String)
        ensures
            r@ == ac_dfa_error_message(*self),
    {
        match self {
            AcDfaError::InvalidPattern(m) => {
                let mut s = "Invalid pattern: ".to_owned();
                s.append(m.as_str());
                s
            },
            AcDfaError::NoPatterns => "No patterns provided".to_owned(),
            AcDfaError::PatternTooLong { length, max } => {
                let mut s = "Pattern too long: ".to_owned();
                push_decimal(&mut s, *length as u128);
                s.append(" bytes (max: ");
                push_decimal(&mut s, *max as u128);
                s.append(")");
                s
            },
            AcDfaError::TooManyPatterns { count, max } => {
                let mut s = "Too many patterns: ".to_owned();
                push_decimal(&mut s, *count as u128);
                s.append(" (max: ");
                push_decimal(&mut s, *max as u128);
                s.append(")");
                s
            },
        }
    }
}

/// Configuration for the AC-DFA
#[derive(Debug, Clone)]
pub struct AcDfaConfig {
    /// Maximum number of patterns (0 = unlimited)
    pub max_patterns: usize,
    /// Maximum pattern length in bytes (0 = unlimited)
    pub max_pattern_length: usize,
    /// Enable case-insensitive matching
    pub case_insensitive: bool,
    /// Enable UTF-8 validation
    pub validate_utf8: bool,
}

impl Default for AcDfaConfig {
    fn default() -> (c: Self)
        ensures
            c.max_patterns == 10_000,
            c.max_pattern_length == 4096,
            !c.case_insensitive,
            c.validate_utf8,
    {
        AcDfaConfig { max_patterns: 10_000, max_pattern_length: 4096, case_insensitive: false, validate_utf8: true }
    }
}

/// The type of pattern matching to perform
#[derive(Debug, Clone, Copy, PartialEq, Eq, Hash)]
pub enum PatternKind {
    /// Exact equality: `field == "pattern"`
    Equals,
    /// Contains: `field contains "pattern"`
    Contains,
    /// Starts with: `field startswith "pattern"`
    StartsWith,
    /// Ends with: `field endswith "pattern"`
    EndsWith,
}

/// How each pattern kind is written.
pub open spec fn pattern_kind_text(k: PatternKind) -> Seq<char> {
    match k {
        PatternKind::Equals => "=="@,
        PatternKind::Contains => "contains"@,
        PatternKind::StartsWith => "startswith"@,
        PatternKind::EndsWith => "endswith"@,
    }
}

impl PatternKind {
    /// All pattern kinds.
    pub fn all() -> (r: &'static [PatternKind])
        ensures
            r@ == seq![PatternKind::Equals, PatternKind::Contains, PatternKind::StartsWith, PatternKind::EndsWith],
    {
        let r: &'static [PatternKind] = &[
            PatternKind::Equals,
            PatternKind::Contains,
            PatternKind::StartsWith,
            PatternKind::EndsWith,
        ];
        assert(r@ =~= seq![PatternKind::Equals, PatternKind::Contains, PatternKind::StartsWith, PatternKind::EndsWith]);
        r
    }

    /// How the kind is written.
    pub fn as_str(&self) -> (r: &'static str)
        ensures
            r@ == pattern_kind_text(*self),
    {
        match self {
            PatternKind::Equals => "==",
            PatternKind::Contains => "contains",
            PatternKind::StartsWith => "startswith",
            PatternKind::EndsWith => "endswith",
        }
    }

    /// How the kind is written.
    pub fn to_string(&self) -> (r: String)
        ensures
            r@ == pattern_kind_text(*self),
    {
        self.as_str().to_owned()
    }
}

/// The length in bytes of a text.
pub open spec fn byte_len(s: Seq<char>) -> nat {
    encode_utf8(s).len()
}

/// The identifier of a pattern: `<rule>:<field>:<kind>:<pattern>`.
pub open spec fn pattern_id_text(rule_id: Seq<char>, field_id: u32, kind: PatternKind, pattern: Seq<char>) -> Seq<
    char,
> {
    rule_id + ":"@ + decimal(field_id as nat) + ":"@ + pattern_kind_text(kind) + ":"@ + pattern
}

/// Patterns of one rule, field and kind have distinct identifiers when
/// their texts differ.
pub proof fn law_pattern_id_distinguishes(rule_id: Seq<char>, field_id: u32, kind: PatternKind, a: Seq<char>, b: Seq<char>)
    requires
        a != b,
    ensures
        pattern_id_text(rule_id, field_id, kind, a) != pattern_id_text(rule_id, field_id, kind, b),
{
    let prefix = rule_id + ":"@ + decimal(field_id as nat) + ":"@ + pattern_kind_text(kind) + ":"@;
    assert(pattern_id_text(rule_id, field_id, kind, a) == prefix + a);
    assert(pattern_id_text(rule_id, field_id, kind, b) == prefix + b);
    if prefix + a == prefix + b {
        assert(a =~= (prefix + a).subrange(prefix.len() as int, (prefix + a).len() as int));
        assert(b =~= (prefix + b).subrange(prefix.len() as int, (prefix + b).len() as int));
    }
}

/// A string matching pattern extracted from a predicate
#[derive(Debug, Clone, PartialEq, Eq, Hash)]
pub struct MatchPattern {
    /// The pattern string to match
    pub pattern: String,
    /// Which field this pattern applies to
    pub field_id: u32,
    /// What kind of match operation to perform
    pub kind: PatternKind,
    /// Which predicate/rule this pattern belongs to
    pub rule_id: String,
    /// Unique identifier for this pattern
    pub pattern_id: String,
}

/// `p` is the pattern made from the given text, field, kind and rule.
pub open spec fn is_pattern(p: MatchPattern, pattern: Seq<char>, field_id: u32, kind: PatternKind, rule_id: Seq<char>) -> bool {
    &&& p.pattern@ == pattern
    &&& p.field_id == field_id
    &&& p.kind == kind
    &&& p.rule_id@ == rule_id
    &&& p.pattern_id@ == pattern_id_text(rule_id, field_id, kind, pattern)
}

impl MatchPattern {
    /// A match pattern; an empty pattern is invalid.
    pub fn new(pattern: String, field_id: u32, kind: PatternKind, rule_id: String) -> (r: Result<Self, AcDfaError>)
        ensures
            pattern@.len() == 0 ==> (r matches Err(AcDfaError::InvalidPattern(m)) && m@ == "Pattern cannot be empty"@),
            pattern@.len() > 0 ==> (r matches Ok(p) && is_pattern(p, pattern@, field_id, kind, rule_id@)),
    {
        if pattern.as_str().is_empty() {
            return Err(AcDfaError::InvalidPattern("Pattern cannot be empty".to_owned()));
        }
        let mut pattern_id = rule_id.clone();
        pattern_id.append(":");
        push_decimal(&mut pattern_id, field_id as u128);
        pattern_id.append(":");
        pattern_id.append(kind.as_str());
        pattern_id.append(":");
        pattern_id.append(pattern.as_str());
        Ok(MatchPattern { pattern, field_id, kind, rule_id, pattern_id })
    }

    /// A pattern for exact equality matching
    pub fn equals(pattern: String, field_id: u32, rule_id: String) -> (r: Result<Self, AcDfaError>)
        ensures
            pattern@.len() == 0 ==> (r matches Err(AcDfaError::InvalidPattern(m)) && m@ == "Pattern cannot be empty"@),
            pattern@.len() > 0 ==> (r matches Ok(p) && is_pattern(p, pattern@, field_id, PatternKind::Equals, rule_id@)),
    {
        Self::new(pattern, field_id, PatternKind::Equals, rule_id)
    }

    /// A pattern for contains matching
    pub fn contains(pattern: String, field_id: u32, rule_id: String) -> (r: Result<Self, AcDfaError>)
        ensures
            pattern@.len() == 0 ==> (r matches Err(AcDfaError::InvalidPattern(m)) && m@ == "Pattern cannot be empty"@),
            pattern@.len() > 0 ==> (r matches Ok(p) && is_pattern(p, pattern@, field_id, PatternKind::Contains, rule_id@)),
    {
        Self::new(pattern, field_id, PatternKind::Contains, rule_id)
    }

    /// A pattern for prefix matching
    pub fn starts_with(pattern: String, field_id: u32, rule_id: String) -> (r: Result<Self, AcDfaError>)
        ensures
            pattern@.len() == 0 ==> (r matches Err(AcDfaError::InvalidPattern(m)) && m@ == "Pattern cannot be empty"@),
            pattern@.len() > 0 ==> (r matches Ok(p) && is_pattern(p, pattern@, field_id, PatternKind::StartsWith, rule_id@)),
    {
        Self::new(pattern, field_id, PatternKind::StartsWith, rule_id)
    }

    /// A pattern for suffix matching
    pub fn ends_with(pattern: String, field_id: u32, rule_id: String) -> (r: Result<Self, AcDfaError>)
        ensures
            pattern@.len() == 0 ==> (r matches Err(AcDfaError::InvalidPattern(m)) && m@ == "Pattern cannot be empty"@),
            pattern@.len() > 0 ==> (r matches Ok(p) && is_pattern(p, pattern@, field_id, PatternKind::EndsWith, rule_id@)),
    {
        Self::new(pattern, field_id, PatternKind::EndsWith, rule_id)
    }

    /// Validate this pattern: it may be at most `max_length` bytes long.
    pub fn validate(&self, max_length: usize) -> (r: Result<(), AcDfaError>)
        ensures
            byte_len(self.pattern@) <= max_length ==> r is Ok,
            byte_len(self.pattern@) > max_length ==> (r matches Err(AcDfaError::PatternTooLong { length, max })
                && length == byte_len(self.pattern@) && max == max_length),
    {
        let length = self.pattern.as_str().as_bytes().len();
        if length > max_length {
            return Err(AcDfaError::PatternTooLong { length, max: max_length });
        }
        Ok(())
    }
}

} // verus!
