//! Pattern extraction for the Aho-Corasick pre-filter: walks predicate
//! trees for string comparisons, string functions and string sets, and
//! gathers the patterns of many rules into one matcher.
use vstd::prelude::*;
use vstd::string::*;
use crate::ac_matcher::{indexed, AcMatcher};
use crate::ac_pattern::{byte_len, is_pattern, pattern_id_text, AcDfaConfig, AcDfaError, MatchPattern, PatternKind};

verus! {

/// A literal in a predicate.
#[derive(Debug, Clone)]
pub enum IrLiteral {
    /// A string literal.
    String(String),
    /// Any literal that is not a string.
    Other,
}

/// A binary operator in a predicate.
#[derive(Debug, Clone, Copy, PartialEq, Eq)]
pub enum IrBinaryOp {
    And,
    Or,
    Eq,
    NotEq,
    /// Any other operator.
    Other,
}

/// A function called in a predicate.
#[derive(Debug, Clone, Copy, PartialEq, Eq)]
pub enum IrFunction {
    Contains,
    StartsWith,
    EndsWith,
    /// Any other function.
    Other,
}

/// A node of a predicate tree, as far as pattern extraction reads it.
#[derive(Debug)]
pub enum IrNode {
    BinaryOp { op: IrBinaryOp, left: Box<IrNode>, right: Box<IrNode> },
    FunctionCall { func: IrFunction, args: Vec<IrNode> },
    In { value: Box<IrNode>, values: Vec<IrLiteral> },
    UnaryOp { operand: Box<IrNode> },
    LoadField { field_id: u32 },
    Literal { value: IrLiteral },
    /// Any other node.
    Other,
}

/// A compiled predicate.
#[derive(Debug)]
pub struct IrPredicate {
    pub id: String,
    pub event_type: String,
    pub root: IrNode,
}

/// An extracted pattern: its text, field and kind.
pub type PatternItem = (Seq<char>, u32, PatternKind);

/// Whether a pattern text is short enough to be kept (0 means no limit).
pub open spec fn fits(s: Seq<char>, max_len: usize) -> bool {
    !(max_len > 0 && byte_len(s) > max_len)
}

/// The patterns one string literal gives: none when too long, an error when
/// empty, else the pattern itself.
pub open spec fn literal_items(s: Seq<char>, field_id: u32, kind: PatternKind, max_len: usize) -> Option<Seq<PatternItem>> {
    if !fits(s, max_len) {
        Some(Seq::empty())
    } else if s.len() == 0 {
        None
    } else {
        Some(seq![(s, field_id, kind)])
    }
}

/// The field and string of a field/string-literal pair, in either order.
pub open spec fn field_and_string(a: IrNode, b: IrNode) -> Option<(u32, Seq<char>)> {
    match (a, b) {
        (IrNode::LoadField { field_id }, IrNode::Literal { value: IrLiteral::String(s) }) => Some((field_id, s@)),
        (IrNode::Literal { value: IrLiteral::String(s) }, IrNode::LoadField { field_id }) => Some((field_id, s@)),
        _ => None,
    }
}

/// The patterns a comparison gives: an equality or inequality between a
/// field and a string literal gives an equality pattern.
pub open spec fn comparison_items(op: IrBinaryOp, left: IrNode, right: IrNode, max_len: usize) -> Option<Seq<PatternItem>> {
    if !(op is Eq || op is NotEq) {
        Some(Seq::empty())
    } else {
        match field_and_string(left, right) {
            Some((f, s)) => literal_items(s, f, PatternKind::Equals, max_len),
            None => Some(Seq::empty()),
        }
    }
}

/// The pattern kind of a string function, if it is one.
pub open spec fn function_kind(func: IrFunction) -> Option<PatternKind> {
    match func {
        IrFunction::Contains => Some(PatternKind::Contains),
        IrFunction::StartsWith => Some(PatternKind::StartsWith),
        IrFunction::EndsWith => Some(PatternKind::EndsWith),
        IrFunction::Other => None,
    }
}

/// The patterns a function call gives: a string function over a field and a
/// string literal gives a pattern of the function's kind.
pub open spec fn call_items(func: IrFunction, args: Seq<IrNode>, max_len: usize) -> Option<Seq<PatternItem>> {
    match function_kind(func) {
        None => Some(Seq::empty()),
        Some(kind) => if args.len() < 2 {
            Some(Seq::empty())
        } else {
            match field_and_string(args[0], args[1]) {
                Some((f, s)) => literal_items(s, f, kind, max_len),
                None => Some(Seq::empty()),
            }
        },
    }
}

/// The patterns the first `n` literals of a set give for a field: each
/// string literal that fits gives an equality pattern, an empty one an error.
pub open spec fn set_items(field_id: u32, values: Seq<IrLiteral>, n: int, max_len: usize) -> Option<Seq<PatternItem>>
    decreases n,
{
    if n <= 0 {
        Some(Seq::empty())
    } else {
        match set_items(field_id, values, n - 1, max_len) {
            None => None,
            Some(prev) => match values[n - 1] {
                IrLiteral::String(s) => if !fits(s@, max_len) {
                    Some(prev)
                } else if s@.len() == 0 {
                    None
                } else {
                    Some(prev.push((s@, field_id, PatternKind::Equals)))
                },
                IrLiteral::Other => Some(prev),
            },
        }
    }
}

/// The patterns a predicate tree gives, in order, or nothing when a string
/// literal to extract is empty.
pub open spec fn node_items(node: IrNode, max_len: usize) -> Option<Seq<PatternItem>>
    decreases node,
{
    match node {
        IrNode::BinaryOp { op, left, right } => if op is And || op is Or {
            match node_items(*left, max_len) {
                None => None,
                Some(l) => match node_items(*right, max_len) {
                    None => None,
                    Some(r) => Some(l + r),
                },
            }
        } else {
            comparison_items(op, *left, *right, max_len)
        },
        IrNode::FunctionCall { func, args } => call_items(func, args@, max_len),
        IrNode::In { value, values } => match *value {
            IrNode::LoadField { field_id } => set_items(field_id, values@, values@.len() as int, max_len),
            _ => Some(Seq::empty()),
        },
        IrNode::UnaryOp { operand } => node_items(*operand, max_len),
        _ => Some(Seq::empty()),
    }
}

/// Once a literal of a set gives an error, every longer part of the set does.
proof fn lemma_set_items_none(field_id: u32, values: Seq<IrLiteral>, i: int, n: int, max_len: usize)
    requires
        i <= n,
        set_items(field_id, values, i, max_len) is None,
    ensures
        set_items(field_id, values, n, max_len) is None,
    decreases n - i,
{
    if i < n {
        lemma_set_items_none(field_id, values, i, n - 1, max_len);
    }
}

/// `new` is `old` followed by the patterns for `items` of rule `rule_id`.
pub open spec fn extended(old: Seq<MatchPattern>, new: Seq<MatchPattern>, items: Seq<PatternItem>, rule_id: Seq<char>) -> bool {
    &&& new.len() == old.len() + items.len()
    &&& new.subrange(0, old.len() as int) == old
    &&& forall|k: int| 0 <= k < items.len() ==> #[trigger] is_pattern(
        new[old.len() + k],
        items[k].0,
        items[k].1,
        items[k].2,
        rule_id,
    )
}

/// A pattern as plain values: text, field, kind, rule and identifier.
pub open spec fn pattern_view(p: MatchPattern) -> (Seq<char>, u32, PatternKind, Seq<char>, Seq<char>) {
    (p.pattern@, p.field_id, p.kind, p.rule_id@, p.pattern_id@)
}

/// The patterns as plain values.
pub open spec fn pattern_views(ps: Seq<MatchPattern>) -> Seq<(Seq<char>, u32, PatternKind, Seq<char>, Seq<char>)> {
    ps.map_values(|p: MatchPattern| pattern_view(p))
}

/// The patterns, as plain values, that a rule's items give.
pub open spec fn item_views(items: Seq<PatternItem>, rule_id: Seq<char>) -> Seq<
    (Seq<char>, u32, PatternKind, Seq<char>, Seq<char>),
> {
    items.map_values(
        |it: PatternItem| (it.0, it.1, it.2, rule_id, pattern_id_text(rule_id, it.1, it.2, it.0)),
    )
}

/// Extending with items appends their patterns.
pub proof fn lemma_extended_views(old: Seq<MatchPattern>, new: Seq<MatchPattern>, items: Seq<PatternItem>, rule_id: Seq<char>)
    requires
        extended(old, new, items, rule_id),
    ensures
        pattern_views(new) == pattern_views(old) + item_views(items, rule_id),
{
    assert forall|k: int| 0 <= k < new.len() implies #[trigger] pattern_views(new)[k] == (pattern_views(old)
        + item_views(items, rule_id))[k] by {
        if k < old.len() {
            assert(new.subrange(0, old.len() as int)[k] == old[k]);
        } else {
            assert(is_pattern(new[old.len() + (k - old.len())], items[k - old.len()].0, items[k - old.len()].1, items[k - old.len()].2, rule_id));
        }
    }
    assert(pattern_views(new) =~= pattern_views(old) + item_views(items, rule_id));
}

/// What gathering the patterns of several rules comes to: the patterns (as
/// plain values) and rules gathered, or the first error.
pub enum GatherOutcome {
    Gathered(Seq<(Seq<char>, u32, PatternKind, Seq<char>, Seq<char>)>, Seq<Seq<char>>),
    EmptyPattern,
    TooMany(nat, usize),
}

/// Gathering the predicates of `preds` in order, from the patterns `pv` and
/// rules `rules`: a rule seen before is skipped, an extraction error stops
/// the gathering, and the patterns that fit under the limit are kept.
pub open spec fn gathered(
    config: AcDfaConfig,
    pv: Seq<(Seq<char>, u32, PatternKind, Seq<char>, Seq<char>)>,
    rules: Seq<Seq<char>>,
    preds: Seq<(String, IrPredicate)>,
) -> GatherOutcome
    decreases preds.len(),
{
    if preds.len() == 0 {
        GatherOutcome::Gathered(pv, rules)
    } else {
        match gathered(config, pv, rules, preds.drop_last()) {
            GatherOutcome::Gathered(p, r) => {
                let rid = preds.last().0@;
                if r.contains(rid) {
                    GatherOutcome::Gathered(p, r)
                } else {
                    match node_items(preds.last().1.root, config.max_pattern_length) {
                        None => GatherOutcome::EmptyPattern,
                        Some(items) => if config.max_patterns > 0 && items.len() > config.max_patterns {
                            GatherOutcome::TooMany(items.len(), config.max_patterns)
                        } else {
                            GatherOutcome::Gathered(
                                p + item_views(items.take(kept_count(config.max_patterns, p.len(), items.len())), rid),
                                r.push(rid),
                            )
                        },
                    }
                }
            },
            other => other,
        }
    }
}

/// Once gathering fails, it stays failed.
pub proof fn lemma_gathered_error_sticks(
    config: AcDfaConfig,
    pv: Seq<(Seq<char>, u32, PatternKind, Seq<char>, Seq<char>)>,
    rules: Seq<Seq<char>>,
    preds: Seq<(String, IrPredicate)>,
    i: int,
)
    requires
        0 <= i <= preds.len(),
        !(gathered(config, pv, rules, preds.take(i)) is Gathered),
    ensures
        gathered(config, pv, rules, preds) == gathered(config, pv, rules, preds.take(i)),
    decreases preds.len() - i,
{
    if i < preds.len() {
        assert(preds.take(i + 1).drop_last() =~= preds.take(i));
        lemma_gathered_error_sticks(config, pv, rules, preds, i + 1);
    } else {
        assert(preds.take(i) =~= preds);
    }
}

/// The outcome of extending `old` with a part that gives `items`.
pub open spec fn extraction_outcome(
    items: Option<Seq<PatternItem>>,
    old: Seq<MatchPattern>,
    new: Seq<MatchPattern>,
    rule_id: Seq<char>,
    r: Result<(), AcDfaError>,
) -> bool {
    match items {
        Some(its) => r is Ok && extended(old, new, its, rule_id),
        None => r matches Err(AcDfaError::InvalidPattern(m)) && m@ == "Pattern cannot be empty"@,
    }
}

/// Extracts string matching patterns from predicate trees.
pub struct PatternExtractor {
    max_patterns: usize,
    max_pattern_length: usize,
    case_insensitive: bool,
}

/// Extending by nothing, then by `a`, then by `b`, is extending by `a + b`.
proof fn lemma_extended_concat(
    s0: Seq<MatchPattern>,
    s1: Seq<MatchPattern>,
    s2: Seq<MatchPattern>,
    a: Seq<PatternItem>,
    b: Seq<PatternItem>,
    rule_id: Seq<char>,
)
    requires
        extended(s0, s1, a, rule_id),
        extended(s1, s2, b, rule_id),
    ensures
        extended(s0, s2, a + b, rule_id),
{
    assert(s2.subrange(0, s1.len() as int).subrange(0, s0.len() as int) =~= s2.subrange(0, s0.len() as int));
    assert forall|k: int| 0 <= k < (a + b).len() implies #[trigger] is_pattern(
        s2[s0.len() + k],
        (a + b)[k].0,
        (a + b)[k].1,
        (a + b)[k].2,
        rule_id,
    ) by {
        if k < a.len() {
            assert(s2[s0.len() + k] == s2.subrange(0, s1.len() as int)[s0.len() + k]);
            assert(is_pattern(s1[s0.len() + k], a[k].0, a[k].1, a[k].2, rule_id));
        } else {
            let k2 = k - a.len();
            assert(is_pattern(s2[s1.len() + k2], b[k2].0, b[k2].1, b[k2].2, rule_id));
        }
    }
}

impl PatternExtractor {
    /// The most patterns one predicate may give (0 = unlimited).
    pub closed spec fn max_patterns_spec(&self) -> usize {
        self.max_patterns
    }

    /// The longest pattern kept, in bytes (0 = unlimited).
    pub closed spec fn max_pattern_length_spec(&self) -> usize {
        self.max_pattern_length
    }

    /// An extractor with the default configuration.
    pub fn new() -> (e: Self)
        ensures
            e.max_patterns_spec() == 10_000,
            e.max_pattern_length_spec() == 4096,
    {
        Self::with_config(AcDfaConfig::default())
    }

    /// An extractor with the given configuration's limits.
    pub fn with_config(config: AcDfaConfig) -> (e: Self)
        ensures
            e.max_patterns_spec() == config.max_patterns,
            e.max_pattern_length_spec() == config.max_pattern_length,
    {
        PatternExtractor {
            max_patterns: config.max_patterns,
            max_pattern_length: config.max_pattern_length,
            case_insensitive: config.case_insensitive,
        }
    }

    /// The most patterns one predicate may give (0 = unlimited).
    pub fn max_patterns(&self) -> (n: usize)
        ensures
            n == self.max_patterns_spec(),
    {
        self.max_patterns
    }

    /// Extract the patterns of a predicate, in order: refused when a string
    /// literal to extract is empty, or when there are more patterns than the
    /// limit (when it is not 0).
    pub fn extract_from_predicate(&self, predicate: &IrPredicate, rule_id: &str) -> (r: Result<Vec<MatchPattern>, AcDfaError>)
        ensures
            match node_items(predicate.root, self.max_pattern_length_spec()) {
                None => r matches Err(AcDfaError::InvalidPattern(m)) && m@ == "Pattern cannot be empty"@,
                Some(items) => if self.max_patterns_spec() > 0 && items.len() > self.max_patterns_spec() {
                    r matches Err(AcDfaError::TooManyPatterns { count, max }) && count == items.len()
                        && max == self.max_patterns_spec()
                } else {
                    r matches Ok(ps) && extended(Seq::empty(), ps@, items, rule_id@)
                },
            },
    {
        let mut patterns: Vec<MatchPattern> = Vec::new();
        match self.extract_from_node(&predicate.root, rule_id, &mut patterns) {
            Err(e) => {
                return Err(e);
            },
            Ok(()) => {},
        }
        if self.max_patterns > 0 && patterns.len() > self.max_patterns {
            return Err(AcDfaError::TooManyPatterns { count: patterns.len(), max: self.max_patterns });
        }
        Ok(patterns)
    }

    /// Append the pattern of one string literal, unless it is too long.
    fn push_literal(&self, s: &String, field_id: u32, kind: PatternKind, rule_id: &str, patterns: &mut Vec<MatchPattern>) -> (r: Result<(), AcDfaError>)
        ensures
            extraction_outcome(literal_items(s@, field_id, kind, self.max_pattern_length_spec()), old(patterns)@, final(patterns)@, rule_id@, r),
    {
        if self.max_pattern_length > 0 && s.as_str().as_bytes().len() > self.max_pattern_length {
            assert(final(patterns)@.subrange(0, old(patterns)@.len() as int) =~= old(patterns)@);
            return Ok(());
        }
        match MatchPattern::new(s.clone(), field_id, kind, rule_id.to_owned()) {
            Ok(p) => {
                patterns.push(p);
                assert(patterns@.subrange(0, old(patterns)@.len() as int) =~= old(patterns)@);
                assert(is_pattern(patterns@[old(patterns)@.len() + 0int], s@, field_id, kind, rule_id@));
                Ok(())
            },
            Err(e) => Err(e),
        }
    }

    /// The field and string literal of a pair, in either order.
    fn field_and_string_of<'a>(a: &'a IrNode, b: &'a IrNode) -> (r: Option<(u32, &'a String)>)
        ensures
            match field_and_string(*a, *b) {
                Some((f, s)) => r matches Some((f2, s2)) && f2 == f && s2@ == s,
                None => r is None,
            },
    {
        match (a, b) {
            (IrNode::LoadField { field_id }, IrNode::Literal { value: IrLiteral::String(s) }) => Some((*field_id, s)),
            (IrNode::Literal { value: IrLiteral::String(s) }, IrNode::LoadField { field_id }) => Some((*field_id, s)),
            _ => None,
        }
    }

    /// Extract patterns from a node of a predicate tree.
    fn extract_from_node(&self, node: &IrNode, rule_id: &str, patterns: &mut Vec<MatchPattern>) -> (r: Result<(), AcDfaError>)
        ensures
            extraction_outcome(node_items(*node, self.max_pattern_length_spec()), old(patterns)@, final(patterns)@, rule_id@, r),
        decreases *node,
    {
        match node {
            IrNode::BinaryOp { op, left, right } => {
                match op {
                    IrBinaryOp::And | IrBinaryOp::Or => {
                        let ghost s0 = patterns@;
                        match self.extract_from_node(left, rule_id, patterns) {
                            Err(e) => {
                                return Err(e);
                            },
                            Ok(()) => {},
                        }
                        let ghost s1 = patterns@;
                        match self.extract_from_node(right, rule_id, patterns) {
                            Err(e) => {
                                return Err(e);
                            },
                            Ok(()) => {},
                        }
                        proof {
                            let a = node_items(**left, self.max_pattern_length_spec())->0;
                            let b = node_items(**right, self.max_pattern_length_spec())->0;
                            lemma_extended_concat(s0, s1, patterns@, a, b, rule_id@);
                        }
                        Ok(())
                    },
                    IrBinaryOp::Eq | IrBinaryOp::NotEq => {
                        match Self::field_and_string_of(left, right) {
                            Some((f, s)) => self.push_literal(s, f, PatternKind::Equals, rule_id, patterns),
                            None => {
                                assert(patterns@.subrange(0, old(patterns)@.len() as int) =~= old(patterns)@);
                                Ok(())
                            },
                        }
                    },
                    IrBinaryOp::Other => {
                        assert(patterns@.subrange(0, old(patterns)@.len() as int) =~= old(patterns)@);
                        Ok(())
                    },
                }
            },
            IrNode::FunctionCall { func, args } => {
                let kind = match func {
                    IrFunction::Contains => PatternKind::Contains,
                    IrFunction::StartsWith => PatternKind::StartsWith,
                    IrFunction::EndsWith => PatternKind::EndsWith,
                    IrFunction::Other => {
                        assert(patterns@.subrange(0, old(patterns)@.len() as int) =~= old(patterns)@);
                        return Ok(());
                    },
                };
                if args.len() < 2 {
                    assert(patterns@.subrange(0, old(patterns)@.len() as int) =~= old(patterns)@);
                    return Ok(());
                }
                match Self::field_and_string_of(&args[0], &args[1]) {
                    Some((f, s)) => self.push_literal(s, f, kind, rule_id, patterns),
                    None => {
                        assert(patterns@.subrange(0, old(patterns)@.len() as int) =~= old(patterns)@);
                        Ok(())
                    },
                }
            },
            IrNode::In { value, values } => {
                match &**value {
                    IrNode::LoadField { field_id } => self.extract_from_set(*field_id, values, rule_id, patterns),
                    _ => {
                        assert(patterns@.subrange(0, old(patterns)@.len() as int) =~= old(patterns)@);
                        Ok(())
                    },
                }
            },
            IrNode::UnaryOp { operand } => self.extract_from_node(operand, rule_id, patterns),
            _ => {
                assert(patterns@.subrange(0, old(patterns)@.len() as int) =~= old(patterns)@);
                Ok(())
            },
        }
    }

    /// Extract equality patterns from the string literals of a set.
    fn extract_from_set(&self, field_id: u32, values: &Vec<IrLiteral>, rule_id: &str, patterns: &mut Vec<MatchPattern>) -> (r: Result<(), AcDfaError>)
        ensures
            extraction_outcome(
                set_items(field_id, values@, values@.len() as int, self.max_pattern_length_spec()),
                old(patterns)@,
                final(patterns)@,
                rule_id@,
                r,
            ),
    {
        let mut i: usize = 0;
        assert(patterns@.subrange(0, old(patterns)@.len() as int) =~= old(patterns)@);
        while i < values.len()
            invariant
                i <= values@.len(),
                set_items(field_id, values@, i as int, self.max_pattern_length_spec()) is Some,
                extended(
                    old(patterns)@,
                    patterns@,
                    set_items(field_id, values@, i as int, self.max_pattern_length_spec())->0,
                    rule_id@,
                ),
            decreases values@.len() - i,
        {
            let ghost before = patterns@;
            let ghost prev = set_items(field_id, values@, i as int, self.max_pattern_length_spec())->0;
            match &values[i] {
                IrLiteral::String(s) => {
                    match self.push_literal(s, field_id, PatternKind::Equals, rule_id, patterns) {
                        Err(e) => {
                            proof {
                                lemma_set_items_none(field_id, values@, i + 1, values@.len() as int, self.max_pattern_length_spec());
                            }
                            return Err(e);
                        },
                        Ok(()) => {},
                    }
                    proof {
                        let one = literal_items(s@, field_id, PatternKind::Equals, self.max_pattern_length_spec())->0;
                        lemma_extended_concat(old(patterns)@, before, patterns@, prev, one, rule_id@);
                        if fits(s@, self.max_pattern_length_spec()) {
                            assert(prev + one =~= prev.push((s@, field_id, PatternKind::Equals)));
                        } else {
                            assert(prev + one =~= prev);
                        }
                    }
                },
                IrLiteral::Other => {},
            }
            i = i + 1;
        }
        Ok(())
    }
}

impl Default for PatternExtractor {
    fn default() -> (e: Self)
        ensures
            e.max_patterns_spec() == 10_000,
            e.max_pattern_length_spec() == 4096,
    {
        Self::new()
    }
}

/// Builder for constructing an AC-DFA matcher from predicates.
pub struct AcDfaBuilder {
    config: AcDfaConfig,
    patterns: Vec<MatchPattern>,
    rule_ids: Vec<String>,
}

impl AcDfaBuilder {
    /// A builder never holds more patterns than its limit allows.
    #[verifier::type_invariant]
    spec fn keeps_pattern_limit(self) -> bool {
        within_limit(self.config, self.patterns@.len())
    }

    /// The patterns gathered so far.
    pub closed spec fn patterns_spec(&self) -> Seq<MatchPattern> {
        self.patterns@
    }

    /// The rules whose patterns were gathered.
    pub closed spec fn rules_spec(&self) -> Seq<Seq<char>> {
        self.rule_ids@.map_values(|s: String| s@)
    }

    /// The configuration.
    pub closed spec fn config_spec(&self) -> AcDfaConfig {
        self.config
    }

    /// A builder with the default configuration and nothing gathered.
    pub fn new() -> (b: Self)
        ensures
            b.patterns_spec().len() == 0,
            b.rules_spec().len() == 0,
            b.config_spec().max_patterns == 10_000,
            b.config_spec().max_pattern_length == 4096,
            !b.config_spec().case_insensitive,
            b.config_spec().validate_utf8,
    {
        Self::with_config(AcDfaConfig::default())
    }

    /// A builder with the given configuration and nothing gathered.
    pub fn with_config(config: AcDfaConfig) -> (b: Self)
        ensures
            within_limit(b.config_spec(), b.patterns_spec().len()),
            b.patterns_spec().len() == 0,
            b.rules_spec().len() == 0,
            b.config_spec() == config,
    {
        let b = AcDfaBuilder { config, patterns: Vec::new(), rule_ids: Vec::new() };
        assert(b.rules_spec() =~= Seq::<Seq<char>>::empty());
        b
    }

    /// Whether a rule's patterns were gathered already.
    fn has_rule(&self, rule_id: &str) -> (r: bool)
        ensures
            r == self.rules_spec().contains(rule_id@),
    {
        let mut i: usize = 0;
        while i < self.rule_ids.len()
            invariant
                i <= self.rule_ids@.len(),
                forall|j: int| 0 <= j < i ==> (#[trigger] self.rule_ids@[j])@ != rule_id@,
            decreases self.rule_ids@.len() - i,
        {
            if self.rule_ids[i].as_str().as_bytes().len() == rule_id.as_bytes().len() && str_same(self.rule_ids[i].as_str(), rule_id) {
                assert(self.rules_spec()[i as int] == rule_id@);
                return true;
            }
            i = i + 1;
        }
        assert forall|j: int| 0 <= j < self.rules_spec().len() implies self.rules_spec()[j] != rule_id@ by {
            assert(self.rules_spec()[j] == self.rule_ids@[j]@);
        }
        false
    }

    /// Gather the patterns of a rule's predicate, once per rule: a rule seen
    /// before is skipped; extraction errors are passed on; the patterns that
    /// fit under the pattern limit (when it is not 0) are kept.
    pub fn add_predicate(self, predicate: &IrPredicate, rule_id: &str) -> (r: Result<Self, AcDfaError>)
        ensures
            self.rules_spec().contains(rule_id@) ==> (r matches Ok(b) && b.patterns_spec() == self.patterns_spec()
                && b.rules_spec() == self.rules_spec() && b.config_spec() == self.config_spec()),
            r matches Ok(b) ==> b.config_spec() == self.config_spec() && b.patterns_spec().subrange(
                0,
                self.patterns_spec().len() as int,
            ) == self.patterns_spec() && (self.config_spec().max_patterns > 0 ==> b.patterns_spec().len()
                <= self.config_spec().max_patterns || b.patterns_spec().len() == self.patterns_spec().len()),
            r matches Ok(b) ==> within_limit(b.config_spec(), b.patterns_spec().len()),
            !self.rules_spec().contains(rule_id@) ==> match node_items(predicate.root, self.config_spec().max_pattern_length) {
                None => r matches Err(AcDfaError::InvalidPattern(m)) && m@ == "Pattern cannot be empty"@,
                Some(items) => if self.config_spec().max_patterns > 0 && items.len() > self.config_spec().max_patterns {
                    r matches Err(AcDfaError::TooManyPatterns { count, max }) && count == items.len()
                        && max == self.config_spec().max_patterns
                } else {
                    r matches Ok(b) && b.rules_spec() == self.rules_spec().push(rule_id@) && extended(
                        self.patterns_spec(),
                        b.patterns_spec(),
                        items.take(kept_count(self.config_spec().max_patterns, self.patterns_spec().len(), items.len())),
                        rule_id@,
                    )
                },
            },
    {
        proof {
            use_type_invariant(&self);
        }
        if self.has_rule(rule_id) {
            return Ok(self);
        }
        let extractor = PatternExtractor::with_config(
            AcDfaConfig {
                max_patterns: self.config.max_patterns,
                max_pattern_length: self.config.max_pattern_length,
                case_insensitive: self.config.case_insensitive,
                validate_utf8: self.config.validate_utf8,
            },
        );
        let mut new_patterns = match extractor.extract_from_predicate(predicate, rule_id) {
            Ok(p) => p,
            Err(e) => {
                return Err(e);
            },
        };
        let ghost items = node_items(predicate.root, self.config.max_pattern_length)->0;
        let ghost found = new_patterns@;
        let remaining = if self.config.max_patterns > 0 {
            self.config.max_patterns.saturating_sub(self.patterns.len())
        } else {
            usize::MAX
        };
        if new_patterns.len() > remaining {
            new_patterns.truncate(remaining);
        }
        let ghost keep = new_patterns@.len();
        assert(keep == kept_count(self.config.max_patterns, self.patterns@.len(), items.len()));
        assert(new_patterns@ == found.take(keep as int));
        let ghost before = self.patterns@;
        let ghost old_rules = self.rules_spec();
        let AcDfaBuilder { config, mut patterns, mut rule_ids } = self;
        patterns.append(&mut new_patterns);
        rule_ids.push(rule_id.to_owned());
        let b = AcDfaBuilder { config, patterns, rule_ids };
        proof {
            assert(b.patterns@.subrange(0, before.len() as int) =~= before);
            assert forall|k: int| 0 <= k < items.take(keep as int).len() implies #[trigger] is_pattern(
                b.patterns@[before.len() + k],
                items.take(keep as int)[k].0,
                items.take(keep as int)[k].1,
                items.take(keep as int)[k].2,
                rule_id@,
            ) by {
                assert(is_pattern(found[0 + k], items[k].0, items[k].1, items[k].2, rule_id@));
            }
            assert(b.rules_spec() =~= old_rules.push(rule_id@));
        }
        Ok(b)
    }

    /// Gather the patterns of several rules' predicates, in order, as
    /// `add_predicate` does for each; the first error stops the gathering.
    pub fn add_predicates(self, predicates: &[(String, IrPredicate)]) -> (r: Result<Self, AcDfaError>)
        ensures
            r matches Ok(b) ==> b.config_spec() == self.config_spec() && b.patterns_spec().subrange(
                0,
                self.patterns_spec().len() as int,
            ) == self.patterns_spec(),
            r matches Ok(b) ==> within_limit(b.config_spec(), b.patterns_spec().len()),
            match gathered(self.config_spec(), pattern_views(self.patterns_spec()), self.rules_spec(), predicates@) {
                GatherOutcome::Gathered(pv, rules) => r matches Ok(b) && pattern_views(b.patterns_spec()) == pv
                    && b.rules_spec() == rules,
                GatherOutcome::EmptyPattern => r matches Err(AcDfaError::InvalidPattern(m)) && m@
                    == "Pattern cannot be empty"@,
                GatherOutcome::TooMany(count, max) => r matches Err(AcDfaError::TooManyPatterns { count: c, max: m })
                    && c == count && m == max,
            },
    {
        let ghost cfg = self.config_spec();
        let ghost pv0 = pattern_views(self.patterns_spec());
        let ghost r0 = self.rules_spec();
        proof {
            use_type_invariant(&self);
        }
        let mut b = self;
        let mut i: usize = 0;
        assert(predicates@.take(0) =~= Seq::<(String, IrPredicate)>::empty());
        while i < predicates.len()
            invariant
                i <= predicates@.len(),
                b.config_spec() == self.config_spec(),
                cfg == self.config_spec(),
                pv0 == pattern_views(self.patterns_spec()),
                r0 == self.rules_spec(),
                b.patterns_spec().len() >= self.patterns_spec().len(),
                b.patterns_spec().subrange(0, self.patterns_spec().len() as int) == self.patterns_spec(),
                within_limit(cfg, b.patterns_spec().len()),
                gathered(cfg, pv0, r0, predicates@.take(i as int)) == GatherOutcome::Gathered(
                    pattern_views(b.patterns_spec()),
                    b.rules_spec(),
                ),
            decreases predicates@.len() - i,
        {
            let (rule_id, predicate) = &predicates[i];
            let ghost prev = b.patterns_spec();
            let ghost prev_b = b;
            proof {
                assert(predicates@.take(i + 1).drop_last() =~= predicates@.take(i as int));
                assert(predicates@.take(i + 1).last() == predicates@[i as int]);
            }
            b = match b.add_predicate(predicate, rule_id.as_str()) {
                Ok(nb) => nb,
                Err(e) => {
                    proof {
                        lemma_gathered_error_sticks(cfg, pv0, r0, predicates@, i + 1);
                    }
                    return Err(e);
                },
            };
            proof {
                if !prev_b.rules_spec().contains(rule_id@) {
                    let items = node_items(predicate.root, cfg.max_pattern_length)->0;
                    lemma_extended_views(
                        prev,
                        b.patterns_spec(),
                        items.take(kept_count(cfg.max_patterns, prev.len(), items.len())),
                        rule_id@,
                    );
                }
            }
            assert(b.patterns_spec().subrange(0, self.patterns_spec().len() as int) =~= prev.subrange(
                0,
                self.patterns_spec().len() as int,
            ));
            i = i + 1;
        }
        assert(predicates@.take(i as int) =~= predicates@);
        Ok(b)
    }

    /// Build the matcher from the gathered patterns; nothing gathered is
    /// refused.
    pub fn build(self) -> (r: Result<AcMatcher, AcDfaError>)
        ensures
            self.patterns_spec().len() == 0 ==> r matches Err(AcDfaError::NoPatterns),
            r matches Ok(m) ==> m.wf() && m.pattern_map() == indexed(self.patterns_spec()) && m.config_spec()
                == self.config_spec(),
    {
        if self.patterns.len() == 0 {
            return Err(AcDfaError::NoPatterns);
        }
        AcMatcher::new(self.patterns, self.config)
    }

    /// Get the number of patterns gathered
    pub fn pattern_count(&self) -> (n: usize)
        ensures
            n == self.patterns_spec().len(),
            within_limit(self.config_spec(), n as nat),
    {
        proof {
            use_type_invariant(self);
        }
        self.patterns.len()
    }
}

impl Default for AcDfaBuilder {
    fn default() -> (b: Self)
        ensures
            b.patterns_spec().len() == 0,
            b.rules_spec().len() == 0,
    {
        Self::new()
    }
}

/// `count` patterns respect the pattern limit of `config` (0 = unlimited).
pub open spec fn within_limit(config: AcDfaConfig, count: nat) -> bool {
    config.max_patterns > 0 ==> count <= config.max_patterns
}

/// How many of `found` new patterns are kept with `have` gathered already:
/// as many as fit under the limit (when it is not 0).
pub open spec fn kept_count(max_patterns: usize, have: nat, found: nat) -> int {
    let remaining: int = if max_patterns > 0 {
        if max_patterns > have { max_patterns - have } else { 0 }
    } else {
        usize::MAX as int
    };
    if found > remaining { remaining } else { found as int }
}

/// Whether two strings hold the same text.
fn str_same(a: &str, b: &str) -> (r: bool)
    ensures
        r == (a@ == b@),
{
    let x = a.to_owned();
    let y = b.to_owned();
    x == y
}

} // verus!
