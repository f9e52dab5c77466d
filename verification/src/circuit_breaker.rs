//! Circuit breaker for rule resilience.
//!
//! Detects rules that repeatedly fail, time out or run out of memory, and
//! disables them for a cool-down period before probing them again.
use std::collections::VecDeque;
use vstd::prelude::*;
use crate::table::{has_key, keys_distinct, lemma_key_pos_unique, lemma_table_push, lemma_table_update, table_map, value_of};

verus! {

/// Failures against all evaluations counted for a rule: the failure rate is
/// `failures / total`, or zero when nothing was counted.
#[derive(Debug, Clone, Copy, PartialEq, Eq)]
pub struct FailureRate {
    pub failures: u64,
    pub total: u128,
}

/// Health state of a rule from the circuit breaker perspective.
#[derive(Debug, Clone, PartialEq)]
pub enum CircuitState {
    /// Rule is operating normally.
    Healthy,
    /// Rule is experiencing elevated failures.
    Degraded(FailureRate),
    /// Rule has been disabled due to repeated failures.
    Disabled(String),
}

/// Snapshot of a rule's health.
#[derive(Debug, Clone)]
pub struct RuleHealthStatus {
    /// Rule identifier.
    pub rule_id: String,
    /// Current circuit state.
    pub state: CircuitState,
    /// Time of the most recent failure (nanoseconds on the breaker's clock).
    pub last_failure: Option<u64>,
    /// Total failures recorded in the current window.
    pub failure_count: u64,
}

/// Operations every circuit breaker offers to the engines that guard rule
/// evaluation with it.
pub trait CircuitBreaker {
    /// The breaker's own consistency condition, kept by every operation.
    spec fn inv(&self) -> bool;

    /// Record a successful evaluation for a rule.
    fn record_success(&mut self, rule_id: &str)
        requires
            old(self).inv(),
        ensures
            final(self).inv(),
    ;

    /// Record a failed evaluation for a rule.
    fn record_failure(&mut self, rule_id: &str, error: &str)
        requires
            old(self).inv(),
        ensures
            final(self).inv(),
    ;

    /// Record a timeout for a rule.
    fn record_timeout(&mut self, rule_id: &str)
        requires
            old(self).inv(),
        ensures
            final(self).inv(),
    ;

    /// Record an out-of-memory event for a rule.
    fn record_oom(&mut self, rule_id: &str)
        requires
            old(self).inv(),
        ensures
            final(self).inv(),
    ;

    /// Returns true if evaluations of this rule should be skipped.
    fn is_open(&mut self, rule_id: &str) -> (open: bool)
        requires
            old(self).inv(),
        ensures
            final(self).inv(),
    ;

    /// Get the current circuit state for a rule.
    fn get_state(&mut self, rule_id: &str) -> (state: CircuitState)
        requires
            old(self).inv(),
        ensures
            final(self).inv(),
    ;

    /// Get detailed health status for a rule.
    fn get_health_status(&mut self, rule_id: &str) -> (status: Option<RuleHealthStatus>)
        requires
            old(self).inv(),
        ensures
            final(self).inv(),
    ;
}

/// Phase of the circuit breaker state machine.
#[derive(Debug, Clone, Copy, PartialEq, Eq)]
pub enum CircuitPhase {
    /// Normal operation - requests pass through.
    Closed,
    /// Failure threshold exceeded - requests are blocked until `until`.
    Open { until: u64 },
    /// Probing - allowing a request to test recovery.
    HalfOpen,
}

/// Kind of a recorded failure.
#[derive(Debug, Clone, Copy, PartialEq, Eq)]
pub enum FailureKind {
    Failure,
    Timeout,
    OutOfMemory,
}

/// Configuration for the sliding-window circuit breaker.
#[derive(Debug, Clone, Copy)]
pub struct CircuitBreakerConfig {
    /// Number of failures within the window before opening the circuit.
    pub failure_threshold: u64,
    /// Length of the window over which failures are counted (nanoseconds).
    pub window_duration_ns: u64,
    /// How long the circuit stays open before a probe (nanoseconds).
    pub cooldown_duration_ns: u64,
    /// Failure rate, in thousandths, at which a closed rule is reported degraded.
    pub degraded_threshold_permille: u32,
}

impl CircuitBreakerConfig {
    /// The default configuration: five failures in a minute open the circuit
    /// for thirty seconds; a fifth of failures is reported as degraded.
    pub fn default_config() -> (c: Self)
        ensures
            c.failure_threshold == 5,
            c.window_duration_ns == 60_000_000_000,
            c.cooldown_duration_ns == 30_000_000_000,
            c.degraded_threshold_permille == 200,
    {
        CircuitBreakerConfig {
            failure_threshold: 5,
            window_duration_ns: 60_000_000_000,
            cooldown_duration_ns: 30_000_000_000,
            degraded_threshold_permille: 200,
        }
    }
}

/// Per-rule state of the sliding-window circuit breaker.
#[derive(Debug)]
pub struct RuleCircuitState {
    pub phase: CircuitPhase,
    /// Total successful evaluations (not windowed).
    pub success_count: u64,
    /// Total failures (not windowed).
    pub failure_count: u64,
    /// Total timeouts (not windowed).
    pub timeout_count: u64,
    /// Total out-of-memory events (not windowed).
    pub oom_count: u64,
    /// Times of recent failures of any kind, oldest first.
    pub failure_window: VecDeque<u64>,
    /// Time of the last failure of any kind.
    pub last_failure: Option<u64>,
}

/// Abstract value of a rule's circuit state.
pub struct CircuitView {
    pub phase: CircuitPhase,
    pub success_count: u64,
    pub failure_count: u64,
    pub timeout_count: u64,
    pub oom_count: u64,
    pub window: Seq<u64>,
    pub last_failure: Option<u64>,
}

impl RuleCircuitState {
    pub open spec fn view(&self) -> CircuitView {
        CircuitView {
            phase: self.phase,
            success_count: self.success_count,
            failure_count: self.failure_count,
            timeout_count: self.timeout_count,
            oom_count: self.oom_count,
            window: self.failure_window@,
            last_failure: self.last_failure,
        }
    }

    /// A fresh, closed state with nothing recorded.
    pub fn new() -> (s: Self)
        ensures
            s@ == fresh_view(),
    {
        RuleCircuitState {
            phase: CircuitPhase::Closed,
            success_count: 0,
            failure_count: 0,
            timeout_count: 0,
            oom_count: 0,
            failure_window: VecDeque::new(),
            last_failure: None,
        }
    }
}

/// State of a rule that nothing has been recorded for.
pub open spec fn fresh_view() -> CircuitView {
    CircuitView {
        phase: CircuitPhase::Closed,
        success_count: 0,
        failure_count: 0,
        timeout_count: 0,
        oom_count: 0,
        window: Seq::empty(),
        last_failure: None,
    }
}

/// Number of leading failure times that lie before `cutoff`.
pub open spec fn prune_len(w: Seq<u64>, cutoff: u64) -> nat
    decreases w.len(),
{
    if w.len() == 0 {
        0
    } else if w[0] < cutoff {
        1 + prune_len(w.drop_first(), cutoff)
    } else {
        0
    }
}

/// The window without its leading entries older than `cutoff`.
pub open spec fn pruned(w: Seq<u64>, cutoff: u64) -> Seq<u64> {
    w.skip(prune_len(w, cutoff) as int)
}

/// Oldest time still inside a window of length `window` ending at `now`.
pub open spec fn window_cutoff(now: u64, window: u64) -> u64 {
    if now >= window {
        (now - window) as u64
    } else {
        0
    }
}

/// Whether a failure rate reaches a threshold given in thousandths.
pub open spec fn rate_reaches(rate: FailureRate, permille: u32) -> bool {
    if rate.total == 0 {
        permille == 0
    } else {
        rate.failures * 1000 >= permille * rate.total
    }
}

/// An open circuit whose cool-down has passed moves to half-open.
pub open spec fn phase_at(phase: CircuitPhase, now: u64) -> CircuitPhase {
    match phase {
        CircuitPhase::Open { until } => if now >= until {
            CircuitPhase::HalfOpen
        } else {
            phase
        },
        _ => phase,
    }
}

/// State after a successful evaluation: a half-open circuit closes and
/// forgets its failure window.
pub open spec fn after_success(v: CircuitView) -> CircuitView {
    let counted = CircuitView { success_count: v.success_count.wrapping_add(1), ..v };
    if v.phase is HalfOpen {
        CircuitView { phase: CircuitPhase::Closed, window: Seq::empty(), ..counted }
    } else {
        counted
    }
}

/// State after a failure at time `now`: the failure enters the window, old
/// entries leave it, and a window holding at least the threshold opens the
/// circuit for the cool-down.
pub open spec fn after_failure(
    v: CircuitView,
    kind: FailureKind,
    now: u64,
    cfg: CircuitBreakerConfig,
) -> CircuitView {
    let counted = match kind {
        FailureKind::Failure => CircuitView { failure_count: v.failure_count.wrapping_add(1), ..v },
        FailureKind::Timeout => CircuitView { timeout_count: v.timeout_count.wrapping_add(1), ..v },
        FailureKind::OutOfMemory => CircuitView { oom_count: v.oom_count.wrapping_add(1), ..v },
    };
    let w = pruned(v.window.push(now), window_cutoff(now, cfg.window_duration_ns));
    let phase = if w.len() >= cfg.failure_threshold {
        CircuitPhase::Open { until: now.saturating_add(cfg.cooldown_duration_ns) }
    } else {
        v.phase
    };
    CircuitView { phase, window: w, last_failure: Some(now), ..counted }
}

/// The state recorded for `k`, or a fresh one.
pub open spec fn state_or_fresh(m: Map<Seq<char>, CircuitView>, k: Seq<char>) -> CircuitView {
    if m.contains_key(k) {
        m[k]
    } else {
        fresh_view()
    }
}

/// Abstract value of a reported circuit state.
pub enum StateView {
    Healthy,
    Degraded(FailureRate),
    Disabled(Seq<char>),
}

/// The circuit state reported for a rule with state `v` at time `now`.
pub open spec fn reported_state(v: CircuitView, now: u64, cfg: CircuitBreakerConfig) -> StateView {
    match phase_at(v.phase, now) {
        CircuitPhase::Open { .. } => StateView::Disabled("circuit open: too many failures"@),
        CircuitPhase::HalfOpen => StateView::Degraded(FailureRate { failures: 1, total: 1 }),
        CircuitPhase::Closed => {
            let failures = pruned(v.window, window_cutoff(now, cfg.window_duration_ns)).len();
            let rate = FailureRate {
                failures: failures as u64,
                total: (v.success_count + failures) as u128,
            };
            if rate_reaches(rate, cfg.degraded_threshold_permille) {
                StateView::Degraded(rate)
            } else {
                StateView::Healthy
            }
        },
    }
}

/// Two circuit states mean the same thing (the text of a disabled state
/// compared by its characters).
pub open spec fn same_state(a: CircuitState, b: StateView) -> bool {
    match (a, b) {
        (CircuitState::Healthy, StateView::Healthy) => true,
        (CircuitState::Degraded(x), StateView::Degraded(y)) => x == y,
        (CircuitState::Disabled(x), StateView::Disabled(y)) => x@ == y,
        _ => false,
    }
}

/// Drops the failure times older than `cutoff` from the front of the window.
fn prune_and_count(w: &mut VecDeque<u64>, cutoff: u64) -> (n: u64)
    ensures
        final(w)@ == pruned(old(w)@, cutoff),
        n == pruned(old(w)@, cutoff).len(),
{
    let ghost start = w@;
    let ghost mut k: int = 0;
    while w.len() > 0 && w[0] < cutoff
        invariant
            0 <= k <= start.len(),
            w@ == start.skip(k),
            prune_len(start, cutoff) == k + prune_len(w@, cutoff),
        decreases w@.len(),
    {
        let ghost before = w@;
        w.pop_front();
        proof {
            assert(before.drop_first() =~= w@);
            assert(start.skip(k + 1) =~= w@);
            k = k + 1;
        }
    }
    w.len() as u64
}

/// Sliding-window circuit breaker.
///
/// Tracks failures in a per-rule sliding time window and moves each rule
/// between `Closed`, `Open` and `HalfOpen`.
#[derive(Debug)]
pub struct SlidingWindowCircuitBreaker {
    pub config: CircuitBreakerConfig,
    pub states: Vec<(String, RuleCircuitState)>,
    pub epoch: std::time::Instant,
}

/// The rule states of a breaker, by rule name.
pub open spec fn rule_views(s: Seq<(String, RuleCircuitState)>) -> Map<Seq<char>, CircuitView> {
    Map::new(|k: Seq<char>| has_key(s, k), |k: Seq<char>| value_of(s, k)@)
}

proof fn lemma_views_update(s: Seq<(String, RuleCircuitState)>, i: int, v: RuleCircuitState)
    requires
        keys_distinct(s),
        0 <= i < s.len(),
    ensures
        keys_distinct(s.update(i, (s[i].0, v))),
        rule_views(s.update(i, (s[i].0, v))) == rule_views(s).insert(s[i].0@, v@),
{
    lemma_table_update(s, i, v);
    let t = s.update(i, (s[i].0, v));
    assert forall|k: Seq<char>| #[trigger] has_key(t, k) <==> (has_key(s, k) || k == s[i].0@) by {
        assert(table_map(t).dom().contains(k) == has_key(t, k));
        assert(table_map(s).dom().contains(k) == has_key(s, k));
    }
    assert forall|k: Seq<char>| has_key(t, k) implies #[trigger] value_of(t, k) == (if k == s[i].0@ {
        v
    } else {
        value_of(s, k)
    }) by {
        assert(table_map(t)[k] == value_of(t, k));
        if k != s[i].0@ {
            assert(table_map(s)[k] == value_of(s, k));
        }
    }
    assert(rule_views(t) =~= rule_views(s).insert(s[i].0@, v@));
}

proof fn lemma_views_push(s: Seq<(String, RuleCircuitState)>, name: String, v: RuleCircuitState)
    requires
        keys_distinct(s),
        !has_key(s, name@),
    ensures
        keys_distinct(s.push((name, v))),
        rule_views(s.push((name, v))) == rule_views(s).insert(name@, v@),
{
    lemma_table_push(s, name, v);
    let t = s.push((name, v));
    assert forall|k: Seq<char>| #[trigger] has_key(t, k) <==> (has_key(s, k) || k == name@) by {
        assert(table_map(t).dom().contains(k) == has_key(t, k));
        assert(table_map(s).dom().contains(k) == has_key(s, k));
    }
    assert forall|k: Seq<char>| has_key(t, k) implies #[trigger] value_of(t, k) == (if k == name@ {
        v
    } else {
        value_of(s, k)
    }) by {
        assert(table_map(t)[k] == value_of(t, k));
        if k != name@ {
            assert(table_map(s)[k] == value_of(s, k));
        }
    }
    assert(rule_views(t) =~= rule_views(s).insert(name@, v@));
}

impl SlidingWindowCircuitBreaker {
    /// The well-formedness of the breaker: one state per rule name.
    pub open spec fn wf(&self) -> bool {
        keys_distinct(self.states@)
    }

    /// Rule states by rule name.
    pub open spec fn rules(&self) -> Map<Seq<char>, CircuitView> {
        rule_views(self.states@)
    }

    /// Create a new circuit breaker with the given configuration.
    pub fn new(config: CircuitBreakerConfig) -> (cb: Self)
        ensures
            cb.wf(),
            cb.config == config,
            cb.rules() == Map::<Seq<char>, CircuitView>::empty(),
    {
        let cb = SlidingWindowCircuitBreaker {
            config,
            states: Vec::new(),
            epoch: crate::clock::instant_now(),
        };
        assert(cb.rules() =~= Map::<Seq<char>, CircuitView>::empty());
        cb
    }

    /// Position of the state of `rule_id`, created fresh when missing.
    fn get_or_create_state(&mut self, rule_id: &str) -> (i: usize)
        requires
            old(self).wf(),
        ensures
            final(self).wf(),
            final(self).config == old(self).config,
            i < final(self).states@.len(),
            final(self).states@[i as int].0@ == rule_id@,
            final(self).rules() == old(self).rules().insert(
                rule_id@,
                state_or_fresh(old(self).rules(), rule_id@),
            ),
    {
        match crate::table::find_key(&self.states, rule_id) {
            Some(i) => {
                proof {
                    lemma_key_pos_unique(self.states@, i as int);
                    assert(self.rules().contains_key(rule_id@));
                    assert(self.rules() =~= self.rules().insert(
                        rule_id@,
                        state_or_fresh(self.rules(), rule_id@),
                    ));
                }
                i
            },
            None => {
                let name = rule_id.to_owned();
                let st = RuleCircuitState::new();
                proof {
                    lemma_views_push(self.states@, name, st);
                    assert(!self.rules().contains_key(rule_id@));
                }
                self.states.push((name, st));
                self.states.len() - 1
            },
        }
    }

    /// Record a successful evaluation of `rule_id`.
    pub fn record_success_at(&mut self, rule_id: &str)
        requires
            old(self).wf(),
        ensures
            final(self).wf(),
            final(self).config == old(self).config,
            final(self).rules() == old(self).rules().insert(
                rule_id@,
                after_success(state_or_fresh(old(self).rules(), rule_id@)),
            ),
    {
        let ghost before = self.rules();
        let i = self.get_or_create_state(rule_id);
        let ghost s0 = self.states@;
        proof {
            lemma_key_pos_unique(s0, i as int);
            assert(rule_views(s0)[rule_id@] == s0[i as int].1@);
        }
        let entry = &mut self.states[i];
        let st = &mut entry.1;
        st.success_count = st.success_count.wrapping_add(1);
        if let CircuitPhase::HalfOpen = st.phase {
            st.phase = CircuitPhase::Closed;
            st.failure_window.clear();
        }
        proof {
            lemma_views_update(s0, i as int, self.states@[i as int].1);
            assert(self.states@ =~= s0.update(i as int, (s0[i as int].0, self.states@[i as int].1)));
            assert(self.states@[i as int].1@ == after_success(s0[i as int].1@));
            assert(self.rules() =~= before.insert(rule_id@, after_success(state_or_fresh(before, rule_id@))));
        }
    }

    /// Record a failure of `rule_id` at time `now` (nanoseconds).
    pub fn record_failure_at(&mut self, rule_id: &str, kind: FailureKind, now: u64)
        requires
            old(self).wf(),
        ensures
            final(self).wf(),
            final(self).config == old(self).config,
            final(self).rules() == old(self).rules().insert(
                rule_id@,
                after_failure(state_or_fresh(old(self).rules(), rule_id@), kind, now, old(self).config),
            ),
    {
        let cfg = self.config;
        let ghost before = self.rules();
        let i = self.get_or_create_state(rule_id);
        let ghost s0 = self.states@;
        proof {
            lemma_key_pos_unique(s0, i as int);
            assert(rule_views(s0)[rule_id@] == s0[i as int].1@);
        }
        let entry = &mut self.states[i];
        let st = &mut entry.1;
        match kind {
            FailureKind::Failure => {
                st.failure_count = st.failure_count.wrapping_add(1);
            },
            FailureKind::Timeout => {
                st.timeout_count = st.timeout_count.wrapping_add(1);
            },
            FailureKind::OutOfMemory => {
                st.oom_count = st.oom_count.wrapping_add(1);
            },
        }
        st.last_failure = Some(now);
        st.failure_window.push_back(now);
        let cutoff = if now >= cfg.window_duration_ns {
            now - cfg.window_duration_ns
        } else {
            0
        };
        let count = prune_and_count(&mut st.failure_window, cutoff);
        if count >= cfg.failure_threshold {
            st.phase = CircuitPhase::Open { until: now.saturating_add(cfg.cooldown_duration_ns) };
        }
        proof {
            lemma_views_update(s0, i as int, self.states@[i as int].1);
            assert(self.states@ =~= s0.update(i as int, (s0[i as int].0, self.states@[i as int].1)));
            assert(self.states@[i as int].1@ == after_failure(s0[i as int].1@, kind, now, cfg));
            assert(self.rules() =~= before.insert(
                rule_id@,
                after_failure(state_or_fresh(before, rule_id@), kind, now, cfg),
            ));
        }
    }

    /// Whether evaluations of `rule_id` are blocked at time `now`. An open
    /// circuit whose cool-down has passed moves to half-open first.
    pub fn is_open_at(&mut self, rule_id: &str, now: u64) -> (open: bool)
        requires
            old(self).wf(),
        ensures
            final(self).wf(),
            final(self).config == old(self).config,
            !old(self).rules().contains_key(rule_id@) ==> final(self).rules() == old(self).rules()
                && !open,
            old(self).rules().contains_key(rule_id@) ==> {
                let v = old(self).rules()[rule_id@];
                &&& final(self).rules() == old(self).rules().insert(
                    rule_id@,
                    CircuitView { phase: phase_at(v.phase, now), ..v },
                )
                &&& open == (phase_at(v.phase, now) is Open)
            },
    {
        match crate::table::find_key(&self.states, rule_id) {
            None => false,
            Some(i) => {
                let ghost s0 = self.states@;
                proof {
                    lemma_key_pos_unique(s0, i as int);
                }
                let entry = &mut self.states[i];
                let st = &mut entry.1;
                if let CircuitPhase::Open { until } = st.phase {
                    if now >= until {
                        st.phase = CircuitPhase::HalfOpen;
                    }
                }
                let open = match st.phase {
                    CircuitPhase::Open { .. } => true,
                    _ => false,
                };
                proof {
                    lemma_views_update(s0, i as int, self.states@[i as int].1);
                    assert(self.states@ =~= s0.update(
                        i as int,
                        (s0[i as int].0, self.states@[i as int].1),
                    ));
                }
                open
            },
        }
    }

    /// The circuit state of `rule_id` at time `now`. Entries of its failure
    /// window older than the window length are dropped, and an open circuit
    /// whose cool-down has passed moves to half-open.
    pub fn get_state_at(&mut self, rule_id: &str, now: u64) -> (r: CircuitState)
        requires
            old(self).wf(),
        ensures
            final(self).wf(),
            final(self).config == old(self).config,
            !old(self).rules().contains_key(rule_id@) ==> final(self).rules() == old(self).rules()
                && r == CircuitState::Healthy,
            old(self).rules().contains_key(rule_id@) ==> {
                let v = old(self).rules()[rule_id@];
                let p = phase_at(v.phase, now);
                &&& same_state(r, reported_state(v, now, old(self).config))
                &&& final(self).rules() == old(self).rules().insert(
                    rule_id@,
                    if p is Closed {
                        CircuitView {
                            phase: p,
                            window: pruned(v.window, window_cutoff(now, old(self).config.window_duration_ns)),
                            ..v
                        }
                    } else {
                        CircuitView { phase: p, ..v }
                    },
                )
            },
    {
        let cfg = self.config;
        match crate::table::find_key(&self.states, rule_id) {
            None => CircuitState::Healthy,
            Some(i) => {
                let ghost s0 = self.states@;
                proof {
                    lemma_key_pos_unique(s0, i as int);
                }
                let entry = &mut self.states[i];
                let st = &mut entry.1;
                if let CircuitPhase::Open { until } = st.phase {
                    if now >= until {
                        st.phase = CircuitPhase::HalfOpen;
                    }
                }
                let r = match st.phase {
                    CircuitPhase::Open { .. } => {
                        let msg = "circuit open: too many failures".to_owned();
                        CircuitState::Disabled(msg)
                    },
                    CircuitPhase::HalfOpen => CircuitState::Degraded(
                        FailureRate { failures: 1, total: 1 },
                    ),
                    CircuitPhase::Closed => {
                        let cutoff = if now >= cfg.window_duration_ns {
                            now - cfg.window_duration_ns
                        } else {
                            0
                        };
                        let failures = prune_and_count(&mut st.failure_window, cutoff);
                        let total: u128 = (st.success_count as u128) + (failures as u128);
                        let rate = FailureRate { failures, total };
                        let permille = cfg.degraded_threshold_permille as u128;
                        assert(permille * total <= 0xffff_ffffu128 * 0x2_0000_0000_0000_0000u128) by (nonlinear_arith)
                            requires
                                permille <= 0xffff_ffff,
                                total <= 0x2_0000_0000_0000_0000u128,
                        ;
                        let reaches = if total == 0 {
                            cfg.degraded_threshold_permille == 0
                        } else {
                            (failures as u128) * 1000 >= permille * total
                        };
                        if reaches {
                            CircuitState::Degraded(rate)
                        } else {
                            CircuitState::Healthy
                        }
                    },
                };
                proof {
                    lemma_views_update(s0, i as int, self.states@[i as int].1);
                    assert(self.states@ =~= s0.update(
                        i as int,
                        (s0[i as int].0, self.states@[i as int].1),
                    ));
                }
                r
            },
        }
    }

    /// Health of `rule_id` at time `now`, or nothing for a rule that has no
    /// recorded state.
    pub fn get_health_status_at(&mut self, rule_id: &str, now: u64) -> (r: Option<
        RuleHealthStatus,
    >)
        requires
            old(self).wf(),
        ensures
            final(self).wf(),
            final(self).config == old(self).config,
            r is None <==> !old(self).rules().contains_key(rule_id@),
            r matches Some(h) ==> {
                let v = old(self).rules()[rule_id@];
                let w = pruned(v.window, window_cutoff(now, old(self).config.window_duration_ns));
                &&& h.rule_id@ == rule_id@
                &&& h.failure_count == w.len()
                &&& h.last_failure == v.last_failure
                &&& same_state(h.state, reported_state(v, now, old(self).config))
            },
    {
        let cfg = self.config;
        match crate::table::find_key(&self.states, rule_id) {
            None => None,
            Some(i) => {
                let ghost s0 = self.states@;
                let ghost before = self.rules();
                proof {
                    lemma_key_pos_unique(s0, i as int);
                }
                let cutoff = if now >= cfg.window_duration_ns {
                    now - cfg.window_duration_ns
                } else {
                    0
                };
                let entry = &mut self.states[i];
                let st = &mut entry.1;
                let failure_count = prune_and_count(&mut st.failure_window, cutoff);
                let last_failure = st.last_failure;
                proof {
                    lemma_views_update(s0, i as int, self.states@[i as int].1);
                    assert(self.states@ =~= s0.update(
                        i as int,
                        (s0[i as int].0, self.states@[i as int].1),
                    ));
                    lemma_pruned_idempotent(before[rule_id@].window, cutoff);
                }
                let state = self.get_state_at(rule_id, now);
                Some(
                    RuleHealthStatus {
                        rule_id: rule_id.to_owned(),
                        state,
                        last_failure,
                        failure_count,
                    },
                )
            },
        }
    }
}

/// No more entries are dropped than the window holds.
pub proof fn lemma_prune_len_bound(w: Seq<u64>, cutoff: u64)
    ensures
        prune_len(w, cutoff) <= w.len(),
    decreases w.len(),
{
    if w.len() > 0 && w[0] < cutoff {
        lemma_prune_len_bound(w.drop_first(), cutoff);
    }
}

/// Pruning twice with the same cutoff is pruning once.
pub proof fn lemma_pruned_idempotent(w: Seq<u64>, cutoff: u64)
    ensures
        pruned(pruned(w, cutoff), cutoff) == pruned(w, cutoff),
        prune_len(pruned(w, cutoff), cutoff) == 0,
    decreases w.len(),
{
    if w.len() > 0 && w[0] < cutoff {
        lemma_pruned_idempotent(w.drop_first(), cutoff);
        lemma_prune_len_bound(w.drop_first(), cutoff);
        assert(prune_len(w, cutoff) == 1 + prune_len(w.drop_first(), cutoff));
        assert(pruned(w, cutoff) =~= pruned(w.drop_first(), cutoff));
    } else {
        assert(pruned(w, cutoff) =~= w);
    }
}

/// The rule states after a failure of `rule` of the given kind at time `now`.
pub open spec fn failure_at(
    before: Map<Seq<char>, CircuitView>,
    after: Map<Seq<char>, CircuitView>,
    rule: Seq<char>,
    kind: FailureKind,
    now: u64,
    cfg: CircuitBreakerConfig,
) -> bool {
    after == before.insert(rule, after_failure(state_or_fresh(before, rule), kind, now, cfg))
}

/// Whether `rule` is open at time `now`, with the rule states after the
/// check (a cool-down that has passed moves the rule to half-open).
pub open spec fn open_at(
    before: Map<Seq<char>, CircuitView>,
    after: Map<Seq<char>, CircuitView>,
    rule: Seq<char>,
    now: u64,
    open: bool,
) -> bool {
    if before.contains_key(rule) {
        let v = before[rule];
        &&& after == before.insert(rule, CircuitView { phase: phase_at(v.phase, now), ..v })
        &&& open == (phase_at(v.phase, now) is Open)
    } else {
        after == before && !open
    }
}

/// The state reported for `rule` at time `now`, with the rule states after
/// the check.
pub open spec fn state_at(
    before: Map<Seq<char>, CircuitView>,
    after: Map<Seq<char>, CircuitView>,
    rule: Seq<char>,
    now: u64,
    cfg: CircuitBreakerConfig,
    r: CircuitState,
) -> bool {
    if before.contains_key(rule) {
        let v = before[rule];
        let p = phase_at(v.phase, now);
        &&& same_state(r, reported_state(v, now, cfg))
        &&& after == before.insert(
            rule,
            if p is Closed {
                CircuitView { phase: p, window: pruned(v.window, window_cutoff(now, cfg.window_duration_ns)), ..v }
            } else {
                CircuitView { phase: p, ..v }
            },
        )
    } else {
        after == before && r == CircuitState::Healthy
    }
}

/// The health reported for `rule` at time `now`.
pub open spec fn health_at(
    before: Map<Seq<char>, CircuitView>,
    rule: Seq<char>,
    now: u64,
    cfg: CircuitBreakerConfig,
    r: Option<RuleHealthStatus>,
) -> bool {
    &&& (r is None <==> !before.contains_key(rule))
    &&& r matches Some(h) ==> {
        let v = before[rule];
        let w = pruned(v.window, window_cutoff(now, cfg.window_duration_ns));
        &&& h.rule_id@ == rule
        &&& h.failure_count == w.len()
        &&& h.last_failure == v.last_failure
        &&& same_state(h.state, reported_state(v, now, cfg))
    }
}

impl CircuitBreaker for SlidingWindowCircuitBreaker {
    open spec fn inv(&self) -> bool {
        self.wf()
    }

    fn record_success(&mut self, rule_id: &str)
        ensures
            final(self).config == old(self).config,
            final(self).rules() == old(self).rules().insert(
                rule_id@,
                after_success(state_or_fresh(old(self).rules(), rule_id@)),
            ),
    {
        self.record_success_at(rule_id);
    }

    fn record_failure(&mut self, rule_id: &str, _error: &str)
        ensures
            final(self).config == old(self).config,
            exists|now: u64| #[trigger] failure_at(old(self).rules(), final(self).rules(), rule_id@, FailureKind::Failure, now, old(self).config),
    {
        let now = crate::clock::elapsed_ns(&self.epoch);
        self.record_failure_at(rule_id, FailureKind::Failure, now);
        assert(failure_at(old(self).rules(), self.rules(), rule_id@, FailureKind::Failure, now, old(self).config));
    }

    fn record_timeout(&mut self, rule_id: &str)
        ensures
            final(self).config == old(self).config,
            exists|now: u64| #[trigger] failure_at(old(self).rules(), final(self).rules(), rule_id@, FailureKind::Timeout, now, old(self).config),
    {
        let now = crate::clock::elapsed_ns(&self.epoch);
        self.record_failure_at(rule_id, FailureKind::Timeout, now);
        assert(failure_at(old(self).rules(), self.rules(), rule_id@, FailureKind::Timeout, now, old(self).config));
    }

    fn record_oom(&mut self, rule_id: &str)
        ensures
            final(self).config == old(self).config,
            exists|now: u64| #[trigger] failure_at(old(self).rules(), final(self).rules(), rule_id@, FailureKind::OutOfMemory, now, old(self).config),
    {
        let now = crate::clock::elapsed_ns(&self.epoch);
        self.record_failure_at(rule_id, FailureKind::OutOfMemory, now);
        assert(failure_at(old(self).rules(), self.rules(), rule_id@, FailureKind::OutOfMemory, now, old(self).config));
    }

    fn is_open(&mut self, rule_id: &str) -> (open: bool)
        ensures
            final(self).config == old(self).config,
            exists|now: u64| #[trigger] open_at(old(self).rules(), final(self).rules(), rule_id@, now, open),
    {
        let now = crate::clock::elapsed_ns(&self.epoch);
        let open = self.is_open_at(rule_id, now);
        assert(open_at(old(self).rules(), self.rules(), rule_id@, now, open));
        open
    }

    fn get_state(&mut self, rule_id: &str) -> (state: CircuitState)
        ensures
            final(self).config == old(self).config,
            exists|now: u64| #[trigger] state_at(old(self).rules(), final(self).rules(), rule_id@, now, old(self).config, state),
    {
        let now = crate::clock::elapsed_ns(&self.epoch);
        let state = self.get_state_at(rule_id, now);
        assert(state_at(old(self).rules(), self.rules(), rule_id@, now, old(self).config, state));
        state
    }

    fn get_health_status(&mut self, rule_id: &str) -> (status: Option<RuleHealthStatus>)
        ensures
            final(self).config == old(self).config,
            exists|now: u64| #[trigger] health_at(old(self).rules(), rule_id@, now, old(self).config, status),
    {
        let now = crate::clock::elapsed_ns(&self.epoch);
        let status = self.get_health_status_at(rule_id, now);
        assert(health_at(old(self).rules(), rule_id@, now, old(self).config, status));
        status
    }
}

/// No-op circuit breaker that never trips.
#[derive(Debug, Clone, Default)]
pub struct NoOpCircuitBreaker;

impl CircuitBreaker for NoOpCircuitBreaker {
    open spec fn inv(&self) -> bool {
        true
    }

    fn record_success(&mut self, _rule_id: &str) {
    }

    fn record_failure(&mut self, _rule_id: &str, _error: &str) {
    }

    fn record_timeout(&mut self, _rule_id: &str) {
    }

    fn record_oom(&mut self, _rule_id: &str) {
    }

    fn is_open(&mut self, _rule_id: &str) -> (open: bool)
        ensures
            !open,
    {
        false
    }

    fn get_state(&mut self, _rule_id: &str) -> (state: CircuitState)
        ensures
            state == CircuitState::Healthy,
    {
        CircuitState::Healthy
    }

    fn get_health_status(&mut self, _rule_id: &str) -> (status: Option<RuleHealthStatus>)
        ensures
            status is None,
    {
        None
    }
}

} // verus!

verus! {

/// A failure that brings the number of failures inside the window to the
/// threshold opens the circuit, and the circuit stays open at that moment
/// (given a non-empty cool-down).
pub proof fn law_failures_at_threshold_open(
    v: CircuitView,
    kind: FailureKind,
    now: u64,
    cfg: CircuitBreakerConfig,
)
    requires
        cfg.cooldown_duration_ns > 0,
        now < u64::MAX,
        forall|j: int|
            0 <= j < v.window.len() ==> v.window[j] >= window_cutoff(now, cfg.window_duration_ns),
        v.window.len() + 1 >= cfg.failure_threshold,
    ensures
        after_failure(v, kind, now, cfg).window == v.window.push(now),
        after_failure(v, kind, now, cfg).phase is Open,
        phase_at(after_failure(v, kind, now, cfg).phase, now) is Open,
{
    let w = v.window.push(now);
    let c = window_cutoff(now, cfg.window_duration_ns);
    if w[0] < c {
        if v.window.len() > 0 {
            assert(w[0] == v.window[0]);
        }
    }
    assert(prune_len(w, c) == 0);
    assert(pruned(w, c) =~= w);
}

/// While the failures inside the window stay below the threshold, a failure
/// leaves the phase as it was.
pub proof fn law_below_threshold_keeps_phase(
    v: CircuitView,
    kind: FailureKind,
    now: u64,
    cfg: CircuitBreakerConfig,
)
    requires
        pruned(v.window.push(now), window_cutoff(now, cfg.window_duration_ns)).len()
            < cfg.failure_threshold,
    ensures
        after_failure(v, kind, now, cfg).phase == v.phase,
{
}

/// An open circuit blocks until its cool-down ends and becomes half-open from
/// then on.
pub proof fn law_cooldown_moves_to_half_open(until: u64, now: u64)
    ensures
        now < until ==> phase_at(CircuitPhase::Open { until }, now) == (CircuitPhase::Open { until }),
        now >= until ==> phase_at(CircuitPhase::Open { until }, now) == CircuitPhase::HalfOpen,
{
}

/// A success while half-open closes the circuit and forgets past failures;
/// a success in any other phase leaves the phase unchanged.
pub proof fn law_success_closes_half_open(v: CircuitView)
    ensures
        v.phase is HalfOpen ==> after_success(v).phase is Closed && after_success(v).window.len()
            == 0,
        !(v.phase is HalfOpen) ==> after_success(v).phase == v.phase && after_success(v).window
            == v.window,
{
}

/// Reporting the state never changes a rule's counters, and a rule that is
/// closed with no failures in its window is reported healthy unless the
/// degraded threshold is zero.
pub proof fn law_quiet_rule_is_healthy(v: CircuitView, now: u64, cfg: CircuitBreakerConfig)
    requires
        v.phase is Closed,
        pruned(v.window, window_cutoff(now, cfg.window_duration_ns)).len() == 0,
        cfg.degraded_threshold_permille > 0,
    ensures
        reported_state(v, now, cfg) == StateView::Healthy,
{
    let t = v.success_count as u128;
    let p = cfg.degraded_threshold_permille;
    if t > 0 {
        assert(p * t > 0) by (nonlinear_arith)
            requires
                p > 0,
                t > 0,
        ;
    }
}

} // verus!
