//! The Aho-Corasick pre-filter: finds pattern occurrences in a field value
//! with one pass of the automaton, then keeps those whose pattern belongs to
//! the field and whose position suits the pattern's kind.
use vstd::prelude::*;
use vstd::string::*;
use vstd::utf8::*;
use crate::ac_pattern::{byte_len, AcDfaConfig, AcDfaError, MatchPattern, PatternKind};

verus! {

/// An Aho-Corasick automaton of the `aho-corasick` crate.
#[verifier::external_type_specification]
#[verifier::external_body]
pub struct ExAhoCorasick(aho_corasick::AhoCorasick);

/// The error of building an automaton.
#[verifier::external_type_specification]
#[verifier::external_body]
pub struct ExAcBuildError(aho_corasick::BuildError);

/// A hash map of the `ahash` crate.
#[verifier::external_type_specification]
#[verifier::external_body]
#[verifier::reject_recursive_types(K)]
#[verifier::reject_recursive_types(V)]
#[verifier::reject_recursive_types(S)]
pub struct ExAHashMap<K, V, S>(ahash::AHashMap<K, V, S>);

/// The hasher state of an `ahash` map.
#[verifier::external_type_specification]
#[verifier::external_body]
pub struct ExAHashRandomState(ahash::RandomState);

/// The patterns an automaton was built from, in order.
pub uninterp spec fn ac_patterns(ac: aho_corasick::AhoCorasick) -> Seq<Seq<char>>;

/// Whether an automaton was built to match ASCII letters regardless of case.
pub uninterp spec fn ac_ascii_case_insensitive(ac: aho_corasick::AhoCorasick) -> bool;

/// Whether building a standard automaton from the patterns fails.
pub uninterp spec fn ac_build_rejects(patterns: Seq<Seq<char>>, case_insensitive: bool) -> bool;

/// The matches that a standard automaton over `patterns` reports in
/// `haystack`, in order: the pattern's index, and the start and end byte
/// offsets of the occurrence.
pub uninterp spec fn ac_standard_matches(patterns: Seq<Seq<char>>, case_insensitive: bool, haystack: Seq<char>) -> Seq<(usize, usize, usize)>;

/// The entries of a pattern map.
pub uninterp spec fn ahash_pattern_entries(m: ahash::AHashMap<usize, MatchPattern>) -> Map<usize, MatchPattern>;

/// The empty pattern map.
pub open spec fn no_patterns() -> Map<usize, MatchPattern> {
    Map::empty()
}

/// The texts of some strings.
pub open spec fn texts(v: Seq<String>) -> Seq<Seq<char>> {
    v.map_values(|s: String| s@)
}

/// Wraps `aho_corasick::AhoCorasickBuilder` with the standard match kind and
/// the given ASCII case-insensitivity, then `build`: an automaton over the
/// patterns, in order, or the crate's build error.
#[verifier::external_body]
fn ac_build(patterns: &Vec<String>, case_insensitive: bool) -> (r: Result<aho_corasick::AhoCorasick, aho_corasick::BuildError>)
    ensures
        r is Err <==> ac_build_rejects(texts(patterns@), case_insensitive),
        r matches Ok(ac) ==> ac_patterns(ac) == texts(patterns@) && ac_ascii_case_insensitive(ac) == case_insensitive,
{
    let mut builder = aho_corasick::AhoCorasickBuilder::new();
    builder.match_kind(aho_corasick::MatchKind::Standard);
    builder.ascii_case_insensitive(case_insensitive);
    builder.build(patterns)
}

/// Wraps the `Display` rendering of `aho_corasick::BuildError`: its text.
/// Nothing is stated of the text.
#[verifier::external_body]
fn ac_build_error_text(e: &aho_corasick::BuildError) -> String {
    e.to_string()
}

/// Wraps `aho_corasick::AhoCorasick::find_iter`: every match the automaton
/// reports in the text, as pattern index, start and end.
#[verifier::external_body]
fn ac_find(ac: &aho_corasick::AhoCorasick, text: &str) -> (r: Vec<(usize, usize, usize)>)
    ensures
        r@ == ac_standard_matches(ac_patterns(*ac), ac_ascii_case_insensitive(*ac), text@),
{
    ac.find_iter(text).map(|m| (m.pattern().as_usize(), m.start(), m.end())).collect()
}

/// Wraps `ahash::AHashMap::default`: an empty map.
#[verifier::external_body]
fn pattern_map_new() -> (r: ahash::AHashMap<usize, MatchPattern>)
    ensures
        ahash_pattern_entries(r) == no_patterns(),
{
    ahash::AHashMap::default()
}

/// Wraps `ahash::AHashMap::insert`: the map then holds `v` under `k`, and the
/// earlier value under `k`, if any, is returned.
#[verifier::external_body]
fn pattern_map_insert(m: &mut ahash::AHashMap<usize, MatchPattern>, k: usize, v: MatchPattern) -> (r: Option<MatchPattern>)
    ensures
        ahash_pattern_entries(*final(m)) == ahash_pattern_entries(*old(m)).insert(k, v),
        r == (if ahash_pattern_entries(*old(m)).contains_key(k) {
            Some(ahash_pattern_entries(*old(m))[k])
        } else {
            None
        }),
{
    m.insert(k, v)
}

/// Wraps `ahash::AHashMap::get`: the value under `k`, if any.
#[verifier::external_body]
fn pattern_map_get(m: &ahash::AHashMap<usize, MatchPattern>, k: usize) -> (r: Option<&MatchPattern>)
    ensures
        match r {
            Some(v) => ahash_pattern_entries(*m).contains_key(k) && *v == ahash_pattern_entries(*m)[k],
            None => !ahash_pattern_entries(*m).contains_key(k),
        },
{
    m.get(&k)
}

/// Wraps `len` of an `ahash::AHashMap`: the number of entries.
#[verifier::external_body]
fn pattern_map_len(m: &ahash::AHashMap<usize, MatchPattern>) -> (n: usize)
    ensures
        n == ahash_pattern_entries(*m).len(),
{
    m.len()
}

/// A match found by the AC-DFA
#[derive(Debug, Clone)]
pub struct StringMatch {
    /// The pattern that matched
    pub pattern_id: String,
    /// The field that was matched
    pub field_id: u32,
    /// The kind of match
    pub kind: MatchType,
    /// The start position of the match
    pub start: usize,
    /// The end position of the match
    pub end: usize,
}

/// The type of match that occurred
#[derive(Debug, Clone, Copy, PartialEq, Eq)]
pub enum MatchType {
    /// The entire text equals the pattern
    Exact,
    /// The text contains the pattern
    Contains,
    /// The text starts with the pattern
    Prefix,
    /// The text ends with the pattern
    Suffix,
}

/// Whether an occurrence from `start` to `end` in a text of `text_len`
/// bytes suits a pattern kind, and as what: an equality must span the whole
/// text, a prefix start at 0, a suffix end at the text's end, and any
/// occurrence is a containment.
pub open spec fn match_type_for(kind: PatternKind, start: usize, end: usize, text_len: nat) -> Option<MatchType> {
    match kind {
        PatternKind::Equals => if start == 0 && end == text_len { Some(MatchType::Exact) } else { None },
        PatternKind::Contains => Some(MatchType::Contains),
        PatternKind::StartsWith => if start == 0 { Some(MatchType::Prefix) } else { None },
        PatternKind::EndsWith => if end == text_len { Some(MatchType::Suffix) } else { None },
    }
}

/// A match as plain values: pattern id, field, kind, start and end.
pub open spec fn match_view(m: StringMatch) -> (Seq<char>, u32, MatchType, usize, usize) {
    (m.pattern_id@, m.field_id, m.kind, m.start, m.end)
}

/// The matches kept from the automaton's occurrences `found`, for field
/// `field_id` in a text of `text_len` bytes, with the patterns by index.
pub open spec fn kept_matches(
    found: Seq<(usize, usize, usize)>,
    patterns: Map<usize, MatchPattern>,
    field_id: u32,
    text_len: nat,
) -> Seq<(Seq<char>, u32, MatchType, usize, usize)>
    decreases found.len(),
{
    if found.len() == 0 {
        Seq::empty()
    } else {
        let prev = kept_matches(found.drop_last(), patterns, field_id, text_len);
        let (pid, start, end) = found.last();
        if patterns.contains_key(pid) && patterns[pid].field_id == field_id {
            match match_type_for(patterns[pid].kind, start, end, text_len) {
                Some(kind) => prev.push((patterns[pid].pattern_id@, field_id, kind, start, end)),
                None => prev,
            }
        } else {
            prev
        }
    }
}

/// The patterns as a map from their index.
pub open spec fn indexed(patterns: Seq<MatchPattern>) -> Map<usize, MatchPattern> {
    Map::new(|i: usize| i < patterns.len(), |i: usize| patterns[i as int])
}

/// The first pattern longer than `max` bytes, if any.
pub open spec fn first_too_long(patterns: Seq<MatchPattern>, max: usize) -> Option<int> {
    if exists|i: int| 0 <= i < patterns.len() && byte_len(#[trigger] patterns[i].pattern@) > max {
        Some(choose|i: int| 0 <= i < patterns.len() && byte_len(#[trigger] patterns[i].pattern@) > max
            && forall|j: int| 0 <= j < i ==> byte_len(#[trigger] patterns[j].pattern@) <= max)
    } else {
        None
    }
}

/// The AC-DFA matcher
pub struct AcMatcher {
    automaton: aho_corasick::AhoCorasick,
    patterns: ahash::AHashMap<usize, MatchPattern>,
    config: AcDfaConfig,
}

impl AcMatcher {
    /// The patterns, by index.
    pub closed spec fn pattern_map(&self) -> Map<usize, MatchPattern> {
        ahash_pattern_entries(self.patterns)
    }

    /// The configuration.
    pub closed spec fn config_spec(&self) -> AcDfaConfig {
        self.config
    }

    /// The automaton holds the patterns' texts in index order, with the
    /// configured case handling.
    pub closed spec fn wf(&self) -> bool {
        &&& ac_ascii_case_insensitive(self.automaton) == self.config.case_insensitive
        &&& self.pattern_map().dom() == Set::new(|i: usize| i < ac_patterns(self.automaton).len())
        &&& forall|i: usize| #[trigger] self.pattern_map().contains_key(i) ==> self.pattern_map()[i].pattern@
            == ac_patterns(self.automaton)[i as int]
    }

    /// The occurrences the automaton reports in a text.
    pub closed spec fn occurrences(&self, text: Seq<char>) -> Seq<(usize, usize, usize)> {
        ac_standard_matches(ac_patterns(self.automaton), ac_ascii_case_insensitive(self.automaton), text)
    }

    /// A matcher over the patterns: refused when there are none, more than
    /// the configured maximum (when it is not 0), one longer than the
    /// configured maximum length (when it is not 0), or when the automaton
    /// cannot be built.
    pub fn new(patterns: Vec<MatchPattern>, config: AcDfaConfig) -> (r: Result<Self, AcDfaError>)
        ensures
            patterns@.len() == 0 ==> r matches Err(AcDfaError::NoPatterns),
            patterns@.len() > 0 && config.max_patterns > 0 && patterns@.len() > config.max_patterns ==> (r matches Err(
                AcDfaError::TooManyPatterns { count, max },
            ) && count == patterns@.len() && max == config.max_patterns),
            ({
                let counted = patterns@.len() > 0 && !(config.max_patterns > 0 && patterns@.len() > config.max_patterns);
                let too_long = if config.max_pattern_length > 0 {
                    first_too_long(patterns@, config.max_pattern_length)
                } else {
                    None
                };
                let pats = patterns@.map_values(|p: MatchPattern| p.pattern@);
                &&& too_long matches Some(i) ==> (counted ==> (r matches Err(AcDfaError::PatternTooLong { length, max })
                    && length == byte_len(patterns@[i].pattern@) && max == config.max_pattern_length))
                &&& counted && too_long is None && ac_build_rejects(pats, config.case_insensitive) ==> (r matches Err(
                    AcDfaError::InvalidPattern(m),
                ) && m@.subrange(0, 27) == "Failed to build automaton: "@)
                &&& counted && too_long is None && !ac_build_rejects(pats, config.case_insensitive) ==> (r matches Ok(m)
                    && m.wf() && m.pattern_map() == indexed(patterns@) && m.config_spec() == config)
            }),
    {
        if patterns.len() == 0 {
            return Err(AcDfaError::NoPatterns);
        }
        if config.max_patterns > 0 && patterns.len() > config.max_patterns {
            return Err(AcDfaError::TooManyPatterns { count: patterns.len(), max: config.max_patterns });
        }
        let mut i: usize = 0;
        let limit = config.max_pattern_length > 0;
        while limit && i < patterns.len()
            invariant
                limit == (config.max_pattern_length > 0),
                i <= patterns@.len(),
                patterns@.len() > 0,
                !(config.max_patterns > 0 && patterns@.len() > config.max_patterns),
                forall|j: int| 0 <= j < i ==> byte_len(#[trigger] patterns@[j].pattern@) <= config.max_pattern_length,
            decreases patterns@.len() - i,
        {
            match patterns[i].validate(config.max_pattern_length) {
                Err(e) => {
                    proof {
                        let w = first_too_long(patterns@, config.max_pattern_length);
                        assert(byte_len(patterns@[i as int].pattern@) > config.max_pattern_length);
                        assert(w is Some);
                        let k = w->0;
                        assert(0 <= k < patterns@.len() && byte_len(patterns@[k].pattern@) > config.max_pattern_length);
                        if k < i {
                            assert(byte_len(patterns@[k].pattern@) <= config.max_pattern_length);
                        }
                        if k > i {
                            assert(byte_len(patterns@[i as int].pattern@) <= config.max_pattern_length);
                        }
                    }
                    return Err(e);
                },
                Ok(()) => {},
            }
            i = i + 1;
        }
        assert(limit ==> first_too_long(patterns@, config.max_pattern_length) is None);
        let mut texts_v: Vec<String> = Vec::new();
        let mut j: usize = 0;
        while j < patterns.len()
            invariant
                j <= patterns@.len(),
                texts_v@.len() == j,
                forall|k: int| 0 <= k < j ==> (#[trigger] texts_v@[k])@ == patterns@[k].pattern@,
            decreases patterns@.len() - j,
        {
            texts_v.push(patterns[j].pattern.clone());
            j = j + 1;
        }
        assert(texts(texts_v@) =~= patterns@.map_values(|p: MatchPattern| p.pattern@));
        let automaton = match ac_build(&texts_v, config.case_insensitive) {
            Ok(a) => a,
            Err(e) => {
                let mut m = "Failed to build automaton: ".to_owned();
                let t = ac_build_error_text(&e);
                m.append(t.as_str());
                proof {
                    reveal_strlit("Failed to build automaton: ");
                }
                assert(m@.subrange(0, 27) =~= "Failed to build automaton: "@);
                return Err(AcDfaError::InvalidPattern(m));
            },
        };
        let ghost all = patterns@;
        let mut rest = patterns;
        let mut map = pattern_map_new();
        while rest.len() > 0
            invariant
                rest@ == all.take(rest@.len() as int),
                rest@.len() <= all.len(),
                ahash_pattern_entries(map) == Map::new(
                    |k: usize| rest@.len() <= k < all.len(),
                    |k: usize| all[k as int],
                ),
            decreases rest@.len(),
        {
            let idx = rest.len() - 1;
            let p = rest.pop().unwrap();
            let ghost before = ahash_pattern_entries(map);
            pattern_map_insert(&mut map, idx, p);
            assert(ahash_pattern_entries(map) =~= Map::new(
                |k: usize| rest@.len() <= k < all.len(),
                |k: usize| all[k as int],
            ));
        }
        let m = AcMatcher { automaton, patterns: map, config };
        assert(m.pattern_map() =~= indexed(all));
        assert(m.pattern_map().dom() =~= Set::new(|i: usize| i < ac_patterns(m.automaton).len()));
        Ok(m)
    }

    /// How an occurrence suits a pattern's kind, if it does.
    pub fn validate_match(pattern: &MatchPattern, text: &str, start: usize, end: usize) -> (r: Option<MatchType>)
        ensures
            r == match_type_for(pattern.kind, start, end, byte_len(text@)),
    {
        let text_len = text.as_bytes().len();
        match pattern.kind {
            PatternKind::Equals => {
                if start == 0 && end == text_len {
                    Some(MatchType::Exact)
                } else {
                    None
                }
            },
            PatternKind::Contains => Some(MatchType::Contains),
            PatternKind::StartsWith => {
                if start == 0 {
                    Some(MatchType::Prefix)
                } else {
                    None
                }
            },
            PatternKind::EndsWith => {
                if end == text_len {
                    Some(MatchType::Suffix)
                } else {
                    None
                }
            },
        }
    }

    /// The matches of patterns for a field in a field value: each occurrence
    /// the automaton reports whose pattern belongs to the field and whose
    /// position suits the pattern's kind, in the automaton's order.
    pub fn matches_field(&self, field_id: u32, text: &str) -> (r: Vec<StringMatch>)
        ensures
            r@.map_values(|m: StringMatch| match_view(m)) == kept_matches(
                self.occurrences(text@),
                self.pattern_map(),
                field_id,
                byte_len(text@),
            ),
    {
        let found = ac_find(&self.automaton, text);
        let mut out: Vec<StringMatch> = Vec::new();
        let mut i: usize = 0;
        while i < found.len()
            invariant
                i <= found@.len(),
                found@ == self.occurrences(text@),
                out@.map_values(|m: StringMatch| match_view(m)) == kept_matches(
                    found@.take(i as int),
                    self.pattern_map(),
                    field_id,
                    byte_len(text@),
                ),
            decreases found@.len() - i,
        {
            let (pid, start, end) = found[i];
            assert(found@.take(i + 1).drop_last() =~= found@.take(i as int));
            let ghost before = out@;
            match pattern_map_get(&self.patterns, pid) {
                Some(pattern) => {
                    if pattern.field_id == field_id {
                        match Self::validate_match(pattern, text, start, end) {
                            Some(kind) => {
                                out.push(
                                    StringMatch {
                                        pattern_id: pattern.pattern_id.clone(),
                                        field_id: pattern.field_id,
                                        kind,
                                        start,
                                        end,
                                    },
                                );
                                assert(out@.map_values(|m: StringMatch| match_view(m)) =~= before.map_values(
                                    |m: StringMatch| match_view(m),
                                ).push((pattern.pattern_id@, field_id, kind, start, end)));
                            },
                            None => {},
                        }
                    }
                },
                None => {},
            }
            i = i + 1;
        }
        assert(found@.take(found@.len() as int) =~= found@);
        out
    }

    /// Get the number of patterns in this matcher
    pub fn pattern_count(&self) -> (n: usize)
        ensures
            n == self.pattern_map().len(),
    {
        pattern_map_len(&self.patterns)
    }

    /// Get a reference to the configuration
    pub fn config(&self) -> (c: &AcDfaConfig)
        ensures
            *c == self.config_spec(),
    {
        &self.config
    }

    /// A builder for constructing a matcher.
    pub fn builder() -> (b: AcMatcherBuilder)
        ensures
            b.patterns@.len() == 0,
            b.config.max_patterns == 10_000,
            b.config.max_pattern_length == 4096,
            !b.config.case_insensitive,
    {
        AcMatcherBuilder::default()
    }
}

/// A matcher made from patterns holds exactly as many patterns.
pub proof fn law_pattern_count(patterns: Seq<MatchPattern>)
    requires
        patterns.len() <= usize::MAX,
    ensures
        indexed(patterns).len() == patterns.len(),
{
    let s = Set::new(|i: usize| i < patterns.len());
    assert(indexed(patterns).dom() =~= s);
    lemma_index_set_len(patterns.len());
}

/// The indices below `n` are `n` in number.
proof fn lemma_index_set_len(n: nat)
    requires
        n <= usize::MAX + 1,
    ensures
        Set::new(|i: usize| i < n).len() == n,
        Set::new(|i: usize| i < n).finite(),
    decreases n,
{
    if n == 0 {
        assert(Set::new(|i: usize| i < n) =~= Set::<usize>::empty());
    } else {
        lemma_index_set_len((n - 1) as nat);
        assert(Set::new(|i: usize| i < n) =~= Set::new(|i: usize| i < (n - 1) as nat).insert((n - 1) as usize));
    }
}

/// Builder for constructing an AcMatcher
pub struct AcMatcherBuilder {
    pub patterns: Vec<MatchPattern>,
    pub config: AcDfaConfig,
}

impl Default for AcMatcherBuilder {
    fn default() -> (b: Self)
        ensures
            b.patterns@.len() == 0,
            b.config.max_patterns == 10_000,
            b.config.max_pattern_length == 4096,
            !b.config.case_insensitive,
    {
        AcMatcherBuilder { patterns: Vec::new(), config: AcDfaConfig::default() }
    }
}

impl AcMatcherBuilder {
    /// Add a pattern to the matcher
    pub fn add_pattern(self, pattern: MatchPattern) -> (b: Self)
        ensures
            b.patterns@ == self.patterns@.push(pattern),
            b.config == self.config,
    {
        let mut b = self;
        b.patterns.push(pattern);
        b
    }

    /// Add multiple patterns
    pub fn add_patterns(self, patterns: Vec<MatchPattern>) -> (b: Self)
        ensures
            b.patterns@ == self.patterns@ + patterns@,
            b.config == self.config,
    {
        let mut b = self;
        let mut more = patterns;
        b.patterns.append(&mut more);
        b
    }

    /// Set the configuration
    pub fn config(self, config: AcDfaConfig) -> (b: Self)
        ensures
            b.patterns@ == self.patterns@,
            b.config == config,
    {
        let mut b = self;
        b.config = config;
        b
    }

    /// Build the matcher, as `AcMatcher::new` does with the patterns added.
    pub fn build(self) -> (r: Result<AcMatcher, AcDfaError>)
        ensures
            self.patterns@.len() == 0 ==> r matches Err(AcDfaError::NoPatterns),
            r matches Ok(m) ==> m.wf() && m.pattern_map() == indexed(self.patterns@) && m.config_spec() == self.config,
    {
        AcMatcher::new(self.patterns, self.config)
    }
}

} // verus!
