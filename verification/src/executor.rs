//! Enforcement decision engine for real-time blocking.
//!
//! Turns detections into action decisions by severity, keeps recent decisions
//! in a bounded cache with an expiry, limits the number of decisions per
//! second, and counts what it decided.
use vstd::prelude::*;
use vstd::string::*;
use crate::action::{same_decision, target_pid, ActionCapabilities, ActionDecision, ActionError, ActionExecutor, ActionPolicy, ActionResult, ActionTarget, ActionType};
use crate::alert::{Alert, Severity, severity_rank};
use crate::ebpf::{EnforcementAction, EnforcementDecision};
use crate::decimal::{decimal, push_decimal};
use crate::lru_cache::{lemma_pop_wf, lemma_push_wf, lru_after_push, lru_capacity, lru_clear, lru_entries, lru_new, lru_peek, lru_pop, lru_push, lru_wf, seq_has_key, seq_key_index, seq_lookup};

verus! {

/// Executor configuration
#[derive(Debug, Clone)]
pub struct EbpfExecutorConfig {
    pub policy: ActionPolicy,
    pub decision_cache_size: usize,
    pub decision_ttl_ms: u64,
    pub enable_rate_limiting: bool,
    pub max_decisions_per_second: u32,
    pub enable_audit: bool,
    pub audit_channel_size: usize,
}

impl Default for EbpfExecutorConfig {
    fn default() -> (c: Self)
        ensures
            c.policy == ActionPolicy::Inline,
            c.decision_cache_size == 1024,
            c.decision_ttl_ms == 60000,
            c.enable_rate_limiting,
            c.max_decisions_per_second == 100,
            c.enable_audit,
            c.audit_channel_size == 1000,
    {
        EbpfExecutorConfig {
            policy: ActionPolicy::Inline,
            decision_cache_size: 1024,
            decision_ttl_ms: 60000,
            enable_rate_limiting: true,
            max_decisions_per_second: 100,
            enable_audit: true,
            audit_channel_size: 1000,
        }
    }
}

/// Executor errors
#[derive(Debug)]
pub enum EbpfExecutorError {
    RateLimitExceeded(String),
    CacheError(String),
    ActionError(String),
    InvalidDecision(String),
}

/// The message of each executor error.
pub open spec fn executor_error_message(e: EbpfExecutorError) -> Seq<char> {
    match e {
        EbpfExecutorError::RateLimitExceeded(m) => "Rate limit exceeded: "@ + m@,
        EbpfExecutorError::CacheError(m) => "Cache error: "@ + m@,
        EbpfExecutorError::ActionError(m) => "Action execution error: "@ + m@,
        EbpfExecutorError::InvalidDecision(m) => "Invalid decision: "@ + m@,
    }
}

impl EbpfExecutorError {
    /// The error's message.
    pub fn to_string(&self) -> (r: String)
        ensures
            r@ == executor_error_message(*self),
    {
        let (prefix, m) = match self {
            EbpfExecutorError::RateLimitExceeded(m) => ("Rate limit exceeded: ", m),
            EbpfExecutorError::CacheError(m) => ("Cache error: ", m),
            EbpfExecutorError::ActionError(m) => ("Action execution error: ", m),
            EbpfExecutorError::InvalidDecision(m) => ("Invalid decision: ", m),
        };
        let mut s = prefix.to_owned();
        s.append(m.as_str());
        s
    }
}

/// Cached decision entry
#[derive(Debug)]
pub struct DecisionCacheEntry {
    pub decision: ActionDecision,
    pub expires_at_ns: u64,
    pub hit_count: u32,
}

/// Two cache entries with the same decision, expiry and hit count.
pub open spec fn same_entry(a: DecisionCacheEntry, b: DecisionCacheEntry) -> bool {
    &&& same_decision(a.decision, b.decision)
    &&& a.expires_at_ns == b.expires_at_ns
    &&& a.hit_count == b.hit_count
}

impl Clone for DecisionCacheEntry {
    fn clone(&self) -> (r: Self)
        ensures
            same_entry(r, *self),
    {
        DecisionCacheEntry {
            decision: self.decision.clone(),
            expires_at_ns: self.expires_at_ns,
            hit_count: self.hit_count,
        }
    }
}

/// The state of a rate limiter: its limit, the second it is counting and the
/// decisions admitted in that second.
pub struct RateWindow {
    pub max_per_second: u32,
    pub second: u64,
    pub count: u32,
}

/// Decisions already admitted in second `now`: the window's count if it is
/// counting `now`, else none.
pub open spec fn window_count(w: RateWindow, now: u64) -> u32 {
    if now != w.second {
        0
    } else {
        w.count
    }
}

/// Whether one more decision is admitted in second `now`.
pub open spec fn window_admits(w: RateWindow, now: u64) -> bool {
    window_count(w, now) < w.max_per_second
}

/// The window after a check in second `now`.
pub open spec fn window_after_check(w: RateWindow, now: u64) -> RateWindow {
    let c = window_count(w, now);
    RateWindow {
        max_per_second: w.max_per_second,
        second: now,
        count: if c < w.max_per_second { (c + 1) as u32 } else { c },
    }
}

/// Among `n` checks made in second `now` from window `w`, how many are admitted.
pub open spec fn admitted_in_second(w: RateWindow, now: u64, n: nat) -> nat
    decreases n,
{
    if n == 0 {
        0
    } else {
        (if window_admits(w, now) { 1nat } else { 0nat }) + admitted_in_second(window_after_check(w, now), now, (n - 1) as nat)
    }
}

/// The message of a refused check.
pub open spec fn rate_limit_message(max: u32) -> Seq<char> {
    "Exceeded "@ + decimal(max as nat) + " decisions per second"@
}

/// Rate limiter for decisions
#[derive(Debug)]
pub struct RateLimiter {
    max_per_second: u32,
    current_second: u64,
    current_count: u32,
}

impl View for RateLimiter {
    type V = RateWindow;

    closed spec fn view(&self) -> RateWindow {
        RateWindow { max_per_second: self.max_per_second, second: self.current_second, count: self.current_count }
    }
}

/// Current wall-clock time in whole seconds since the Unix epoch: the
/// nanosecond reading, which fits in 64 bits, divided by 10^9.
fn now_sec() -> (r: u64)
    ensures
        r <= u64::MAX / 1_000_000_000,
{
    crate::clock::wall_clock_ns() / 1_000_000_000
}

impl RateLimiter {
    /// A limiter admitting `max_per_second` decisions per second, counting the
    /// current second from zero.
    pub fn new(max_per_second: u32) -> (r: Self)
        ensures
            r@.max_per_second == max_per_second,
            r@.count == 0,
    {
        RateLimiter { max_per_second, current_second: now_sec(), current_count: 0 }
    }

    /// Admit one more decision in second `now`, or refuse it when the limit
    /// for that second is reached. A new second starts a new count.
    pub fn check_at(&mut self, now: u64) -> (r: Result<(), EbpfExecutorError>)
        ensures
            final(self)@ == window_after_check(old(self)@, now),
            r is Ok <==> window_admits(old(self)@, now),
            r matches Err(e) ==> e matches EbpfExecutorError::RateLimitExceeded(m) && m@ == rate_limit_message(old(self)@.max_per_second),
    {
        if now != self.current_second {
            self.current_second = now;
            self.current_count = 0;
        }
        let count = self.current_count;
        if count >= self.max_per_second {
            let mut m = "Exceeded ".to_owned();
            push_decimal(&mut m, self.max_per_second as u128);
            m.append(" decisions per second");
            return Err(EbpfExecutorError::RateLimitExceeded(m));
        }
        self.current_count = count + 1;
        Ok(())
    }

    /// Admit one more decision in the current wall-clock second, or refuse it
    /// when the limit for that second is reached.
    pub fn check(&mut self) -> (r: Result<(), EbpfExecutorError>)
        ensures
            final(self)@ == window_after_check(old(self)@, final(self)@.second),
            r is Ok <==> window_admits(old(self)@, final(self)@.second),
            r matches Err(e) ==> e matches EbpfExecutorError::RateLimitExceeded(m) && m@ == rate_limit_message(old(self)@.max_per_second),
    {
        let now = now_sec();
        self.check_at(now)
    }
}

/// No more decisions are admitted in one second than the limit allows: of any
/// number of checks made in the same second, starting from a window that has
/// not overrun its limit, at most `max_per_second` succeed.
pub proof fn law_rate_limit_per_second(w: RateWindow, now: u64, n: nat)
    requires
        w.count <= w.max_per_second,
    ensures
        admitted_in_second(w, now, n) + window_count(w, now) <= w.max_per_second,
    decreases n,
{
    if n > 0 {
        law_rate_limit_per_second(window_after_check(w, now), now, (n - 1) as nat);
    }
}

/// Audit record for enforcement decisions
#[derive(Debug)]
pub struct EnforcementAuditRecord {
    pub timestamp_ns: u64,
    pub decision_id: String,
    pub rule_id: String,
    pub action_type: ActionType,
    pub entity_key: u128,
    pub target: ActionTarget,
    pub severity: Severity,
    pub cached: bool,
    pub rate_limited: bool,
    pub latency_us: u64,
}

/// Executor metrics
#[derive(Debug)]
pub struct EbpfExecutorMetrics {
    pub decisions_total: u64,
    pub decisions_blocked: u64,
    pub decisions_allowed: u64,
    pub decisions_cached: u64,
    pub decisions_rate_limited: u64,
    pub decisions_audited: u64,
    pub decision_latency_us: u64,
    pub cache_hits: u64,
    pub cache_misses: u64,
    pub action_executions: u64,
    pub action_failures: u64,
}

/// Metrics with every counter at zero.
pub open spec fn zero_metrics() -> EbpfExecutorMetrics {
    EbpfExecutorMetrics {
        decisions_total: 0,
        decisions_blocked: 0,
        decisions_allowed: 0,
        decisions_cached: 0,
        decisions_rate_limited: 0,
        decisions_audited: 0,
        decision_latency_us: 0,
        cache_hits: 0,
        cache_misses: 0,
        action_executions: 0,
        action_failures: 0,
    }
}

/// Whether an action stops the target: block, kill and quarantine do.
pub open spec fn is_blocking_action(a: ActionType) -> bool {
    a is Block || a is Kill || a is Quarantine
}

/// The metrics after one decision of `action` is counted.
pub open spec fn after_decision(m: EbpfExecutorMetrics, action: ActionType, cached: bool) -> EbpfExecutorMetrics {
    EbpfExecutorMetrics {
        decisions_total: m.decisions_total.wrapping_add(1),
        decisions_blocked: if is_blocking_action(action) { m.decisions_blocked.wrapping_add(1) } else { m.decisions_blocked },
        decisions_allowed: if is_blocking_action(action) { m.decisions_allowed } else { m.decisions_allowed.wrapping_add(1) },
        decisions_cached: if cached { m.decisions_cached.wrapping_add(1) } else { m.decisions_cached },
        ..m
    }
}

/// The metrics after an action execution is counted.
pub open spec fn after_execution(m: EbpfExecutorMetrics, success: bool) -> EbpfExecutorMetrics {
    EbpfExecutorMetrics {
        action_executions: m.action_executions.wrapping_add(1),
        action_failures: if success { m.action_failures } else { m.action_failures.wrapping_add(1) },
        ..m
    }
}

/// The running latency figure after one more measurement: the first
/// measurement itself, then the mean of the previous figure and the new one.
pub open spec fn latency_after(old: u64, latency_us: u64) -> u64 {
    if old == 0 {
        latency_us
    } else {
        ((old + latency_us) / 2) as u64
    }
}

impl Default for EbpfExecutorMetrics {
    fn default() -> (m: Self)
        ensures
            m == zero_metrics(),
    {
        EbpfExecutorMetrics {
            decisions_total: 0,
            decisions_blocked: 0,
            decisions_allowed: 0,
            decisions_cached: 0,
            decisions_rate_limited: 0,
            decisions_audited: 0,
            decision_latency_us: 0,
            cache_hits: 0,
            cache_misses: 0,
            action_executions: 0,
            action_failures: 0,
        }
    }
}

impl EbpfExecutorMetrics {
    /// Count a decision: blocking actions (block, kill, quarantine) as
    /// blocked, the others as allowed, and cached ones once more as cached.
    pub fn record_decision(&mut self, action_type: ActionType, cached: bool)
        ensures
            *final(self) == after_decision(*old(self), action_type, cached),
    {
        self.decisions_total = self.decisions_total.wrapping_add(1);
        match action_type {
            ActionType::Block | ActionType::Kill => {
                self.decisions_blocked = self.decisions_blocked.wrapping_add(1);
            },
            ActionType::Allow | ActionType::Alert => {
                self.decisions_allowed = self.decisions_allowed.wrapping_add(1);
            },
            ActionType::Quarantine => {
                self.decisions_blocked = self.decisions_blocked.wrapping_add(1);
            },
        }
        if cached {
            self.decisions_cached = self.decisions_cached.wrapping_add(1);
        }
    }

    /// Count a rate-limited decision.
    pub fn record_rate_limited(&mut self)
        ensures
            *final(self) == (EbpfExecutorMetrics {
                decisions_rate_limited: old(self).decisions_rate_limited.wrapping_add(1),
                ..*old(self)
            }),
    {
        self.decisions_rate_limited = self.decisions_rate_limited.wrapping_add(1);
    }

    /// Count an audited decision.
    pub fn record_audited(&mut self)
        ensures
            *final(self) == (EbpfExecutorMetrics {
                decisions_audited: old(self).decisions_audited.wrapping_add(1),
                ..*old(self)
            }),
    {
        self.decisions_audited = self.decisions_audited.wrapping_add(1);
    }

    /// Fold a decision latency into the running latency figure.
    pub fn record_latency(&mut self, latency_us: u64)
        requires
            old(self).decision_latency_us + latency_us <= u64::MAX,
        ensures
            *final(self) == (EbpfExecutorMetrics {
                decision_latency_us: latency_after(old(self).decision_latency_us, latency_us),
                ..*old(self)
            }),
    {
        let old = self.decision_latency_us;
        let avg = if old == 0 {
            latency_us
        } else {
            (old + latency_us) / 2
        };
        self.decision_latency_us = avg;
    }

    /// Count a cache hit.
    pub fn record_cache_hit(&mut self)
        ensures
            *final(self) == (EbpfExecutorMetrics { cache_hits: old(self).cache_hits.wrapping_add(1), ..*old(self) }),
    {
        self.cache_hits = self.cache_hits.wrapping_add(1);
    }

    /// Count a cache miss.
    pub fn record_cache_miss(&mut self)
        ensures
            *final(self) == (EbpfExecutorMetrics { cache_misses: old(self).cache_misses.wrapping_add(1), ..*old(self) }),
    {
        self.cache_misses = self.cache_misses.wrapping_add(1);
    }

    /// Count an action execution, and a failure when it did not succeed.
    pub fn record_action_execution(&mut self, success: bool)
        ensures
            *final(self) == after_execution(*old(self), success),
    {
        self.action_executions = self.action_executions.wrapping_add(1);
        if !success {
            self.action_failures = self.action_failures.wrapping_add(1);
        }
    }
}

/// Metrics snapshot
#[derive(Debug, Clone)]
pub struct EbpfExecutorMetricsSnapshot {
    pub decisions_total: u64,
    pub decisions_blocked: u64,
    pub decisions_allowed: u64,
    pub decisions_cached: u64,
    pub decisions_rate_limited: u64,
    pub cache_hits: u64,
    pub cache_misses: u64,
    pub avg_latency_us: u64,
}

/// Block status for an entity
#[derive(Debug, Clone)]
pub enum BlockStatus {
    NotBlocked,
    Blocked { action: ActionType, reason: String, expires_at: u64 },
}

/// A detected sequence of events, as the decision engine reads it: the rule
/// and sequence that matched, the entity it concerns, and the entity key of
/// each matched event in order.
#[derive(Debug, Clone)]
pub struct SequenceAlert {
    pub rule_id: String,
    pub sequence_id: String,
    pub entity_key: u128,
    pub event_entity_keys: Vec<u128>,
}

/// The action a detection of the given severity calls for.
pub open spec fn action_for_severity(s: Severity) -> ActionType {
    match s {
        Severity::Critical => ActionType::Kill,
        Severity::High => ActionType::Block,
        Severity::Medium => ActionType::Alert,
        Severity::Low => ActionType::Alert,
        Severity::Informational => ActionType::Allow,
    }
}

/// The action a detection of the given severity calls for.
pub fn determine_action_from_severity(severity: Severity) -> (a: ActionType)
    ensures
        a == action_for_severity(severity),
{
    match severity {
        Severity::Critical => ActionType::Kill,
        Severity::High => ActionType::Block,
        Severity::Medium => ActionType::Alert,
        Severity::Low => ActionType::Alert,
        Severity::Informational => ActionType::Allow,
    }
}

/// The first matched rule of strictly highest severity, with that severity;
/// a rule must rank above `Low` to replace the starting point ("unknown", `Low`).
pub open spec fn strongest(rules: Seq<(&str, Severity)>) -> (Seq<char>, Severity)
    decreases rules.len(),
{
    if rules.len() == 0 {
        ("unknown"@, Severity::Low)
    } else {
        let acc = strongest(rules.drop_last());
        if severity_rank(rules.last().1) > severity_rank(acc.1) {
            (rules.last().0@, rules.last().1)
        } else {
            acc
        }
    }
}

/// The process target an entity stands for: the low 32 bits of its key as the
/// pid, and `entity_<key>` as the executable.
pub open spec fn is_entity_target(t: ActionTarget, key: u128) -> bool {
    t matches ActionTarget::ProcessExec { pid, executable } && pid == (key & 0xFFFF_FFFF) as u32
        && executable@ == "entity_"@ + decimal(key as nat)
}

/// The state an executor works on.
pub struct ExecutorView {
    pub config: EbpfExecutorConfig,
    pub cache: Seq<(u128, DecisionCacheEntry)>,
    pub capacity: nat,
    pub limiter: RateWindow,
    pub metrics: EbpfExecutorMetrics,
}

/// The cache entry for `key` that has not expired at time `now`, if any.
pub open spec fn live_entry(cache: Seq<(u128, DecisionCacheEntry)>, key: u128, now: u64) -> Option<DecisionCacheEntry> {
    match seq_lookup(cache, key) {
        Some(e) => if e.expires_at_ns > now { Some(e) } else { None },
        None => None,
    }
}

/// Expiry of a decision cached at time `now` for `ttl_ms` milliseconds.
pub open spec fn expiry(now: u64, ttl_ms: u64) -> int {
    now + ttl_ms * 1_000_000
}

/// `new` is `old` with decision `d` cached under `key`, expiring at `expires`.
pub open spec fn cached_after(old: ExecutorView, new: ExecutorView, key: u128, d: ActionDecision, expires: int) -> bool {
    exists|e: DecisionCacheEntry|
        #![trigger lru_after_push(old.cache, old.capacity, key, e)]
        new.cache == lru_after_push(old.cache, old.capacity, key, e) && same_decision(e.decision, d)
            && e.expires_at_ns == expires && e.hit_count == 0
}

/// The limiter after a decision request at second `now`: it counts only when
/// rate limiting is enabled.
pub open spec fn limiter_after(v: ExecutorView, now_sec: u64) -> RateWindow {
    if v.config.enable_rate_limiting {
        window_after_check(v.limiter, now_sec)
    } else {
        v.limiter
    }
}

/// Whether a decision request at second `now` passes the rate limit.
pub open spec fn admitted(v: ExecutorView, now_sec: u64) -> bool {
    !v.config.enable_rate_limiting || window_admits(v.limiter, now_sec)
}

/// The metrics after an audit record: counted only when auditing is enabled.
pub open spec fn audited(m: EbpfExecutorMetrics, enable_audit: bool) -> EbpfExecutorMetrics {
    if enable_audit {
        EbpfExecutorMetrics { decisions_audited: m.decisions_audited.wrapping_add(1), ..m }
    } else {
        m
    }
}

/// A time-to-live that the guard `ttl_ms > (u64::MAX - now) / 1_000_000`
/// refuses gives an expiry beyond 64 bits, and one it admits does not.
proof fn lemma_expiry_guard(now: u64, ttl_ms: u64)
    ensures
        ttl_ms > (u64::MAX - now) / 1_000_000 ==> expiry(now, ttl_ms) > u64::MAX,
        ttl_ms <= (u64::MAX - now) / 1_000_000 ==> expiry(now, ttl_ms) <= u64::MAX,
{
    let q = (u64::MAX - now) / 1_000_000;
    if ttl_ms > q {
        assert(ttl_ms * 1_000_000 > u64::MAX - now) by (nonlinear_arith)
            requires
                ttl_ms > q,
                q == (u64::MAX - now) / 1_000_000,
                now <= u64::MAX,
        ;
    } else {
        assert(ttl_ms * 1_000_000 <= u64::MAX - now) by (nonlinear_arith)
            requires
                ttl_ms <= q,
                q == (u64::MAX - now) / 1_000_000,
                now <= u64::MAX,
        ;
    }
}

/// eBPF enforcement executor: turns detections into enforcement decisions and
/// carries them out through an action executor.
pub struct EbpfExecutor<E: ActionExecutor> {
    action_executor: E,
    config: EbpfExecutorConfig,
    decision_cache: lru::LruCache<u128, DecisionCacheEntry>,
    rate_limiter: RateLimiter,
    metrics: EbpfExecutorMetrics,
}

impl<E: ActionExecutor> View for EbpfExecutor<E> {
    type V = ExecutorView;

    closed spec fn view(&self) -> ExecutorView {
        ExecutorView {
            config: self.config,
            cache: lru_entries(self.decision_cache),
            capacity: lru_capacity(self.decision_cache),
            limiter: self.rate_limiter@,
            metrics: self.metrics,
        }
    }
}

impl<E: ActionExecutor> EbpfExecutor<E> {
    /// The executor's consistency condition: the cache's keys are unique, it
    /// holds no more than its capacity, and that capacity is the configured one.
    pub open spec fn wf(&self) -> bool {
        &&& lru_wf(self@.cache, self@.capacity)
        &&& self@.capacity == self@.config.decision_cache_size
    }

    /// Create a new executor with an empty decision cache of the configured size.
    pub fn new(action_executor: E, config: EbpfExecutorConfig) -> (x: Self)
        requires
            config.decision_cache_size > 0,
        ensures
            x.wf(),
            x@.config == config,
            x@.cache == Seq::<(u128, DecisionCacheEntry)>::empty(),
            x@.limiter.max_per_second == config.max_decisions_per_second,
            x@.limiter.count == 0,
            x@.metrics == zero_metrics(),
            x.executor_spec() == action_executor,
    {
        let size = config.decision_cache_size;
        let max = config.max_decisions_per_second;
        EbpfExecutor {
            action_executor,
            config,
            decision_cache: lru_new(size),
            rate_limiter: RateLimiter::new(max),
            metrics: EbpfExecutorMetrics::default(),
        }
    }

    /// The executor's configuration.
    pub fn config(&self) -> (c: &EbpfExecutorConfig)
        ensures
            *c == self@.config,
    {
        &self.config
    }

    /// Get metrics snapshot
    pub fn metrics(&self) -> (s: EbpfExecutorMetricsSnapshot)
        ensures
            s.decisions_total == self@.metrics.decisions_total,
            s.decisions_blocked == self@.metrics.decisions_blocked,
            s.decisions_allowed == self@.metrics.decisions_allowed,
            s.decisions_cached == self@.metrics.decisions_cached,
            s.decisions_rate_limited == self@.metrics.decisions_rate_limited,
            s.cache_hits == self@.metrics.cache_hits,
            s.cache_misses == self@.metrics.cache_misses,
            s.avg_latency_us == self@.metrics.decision_latency_us,
    {
        EbpfExecutorMetricsSnapshot {
            decisions_total: self.metrics.decisions_total,
            decisions_blocked: self.metrics.decisions_blocked,
            decisions_allowed: self.metrics.decisions_allowed,
            decisions_cached: self.metrics.decisions_cached,
            decisions_rate_limited: self.metrics.decisions_rate_limited,
            cache_hits: self.metrics.cache_hits,
            cache_misses: self.metrics.cache_misses,
            avg_latency_us: self.metrics.decision_latency_us,
        }
    }

    /// The cached decision for `key` that has not expired at time `now`.
    fn check_cache(&self, entity_key: u128, now: u64) -> (r: Option<ActionDecision>)
        ensures
            match live_entry(self@.cache, entity_key, now) {
                Some(e) => r matches Some(d) && same_decision(d, e.decision),
                None => r is None,
            },
    {
        match lru_peek(&self.decision_cache, entity_key) {
            Some(entry) => {
                if entry.expires_at_ns > now {
                    Some(entry.decision.clone())
                } else {
                    None
                }
            },
            None => None,
        }
    }

    /// Check at time `now` whether an entity should be blocked: it has an
    /// unexpired cached decision to block, kill or quarantine.
    pub fn should_block_at(&self, entity_key: u128, now: u64) -> (r: bool)
        ensures
            r == (live_entry(self@.cache, entity_key, now) matches Some(e) && is_blocking_action(e.decision.action)),
    {
        match self.check_cache(entity_key, now) {
            Some(d) => match d.action {
                ActionType::Block | ActionType::Kill | ActionType::Quarantine => true,
                _ => false,
            },
            None => false,
        }
    }

    /// Check if an entity should be blocked now (fast path for LSM hooks).
    pub fn should_block(&self, entity_key: u128) -> (r: bool)
        ensures
            exists|now: u64| r == (#[trigger] live_entry(self@.cache, entity_key, now) matches Some(e) && is_blocking_action(e.decision.action)),
    {
        let now = crate::clock::wall_clock_ns();
        self.should_block_at(entity_key, now)
    }

    /// The block status of an entity at time `now`: its unexpired cached
    /// decision, or not blocked.
    pub fn get_block_status_at(&self, entity_key: u128, now: u64) -> (r: BlockStatus)
        ensures
            match live_entry(self@.cache, entity_key, now) {
                Some(e) => r == BlockStatus::Blocked {
                    action: e.decision.action,
                    reason: e.decision.reason,
                    expires_at: e.expires_at_ns,
                },
                None => r is NotBlocked,
            },
    {
        match lru_peek(&self.decision_cache, entity_key) {
            Some(entry) => {
                if entry.expires_at_ns > now {
                    BlockStatus::Blocked {
                        action: entry.decision.action,
                        reason: entry.decision.reason.clone(),
                        expires_at: entry.expires_at_ns,
                    }
                } else {
                    BlockStatus::NotBlocked
                }
            },
            None => BlockStatus::NotBlocked,
        }
    }

    /// Get the current block status for an entity.
    pub fn get_block_status(&self, entity_key: u128) -> (r: BlockStatus)
        ensures
            exists|now: u64| match #[trigger] live_entry(self@.cache, entity_key, now) {
                Some(e) => r == BlockStatus::Blocked {
                    action: e.decision.action,
                    reason: e.decision.reason,
                    expires_at: e.expires_at_ns,
                },
                None => r is NotBlocked,
            },
    {
        let now = crate::clock::wall_clock_ns();
        self.get_block_status_at(entity_key, now)
    }

    /// Cache a copy of `decision` under `key` until `now + ttl_ms`.
    fn cache_decision_with_ttl(&mut self, entity_key: u128, decision: &ActionDecision, ttl_ms: u64, now: u64)
        requires
            old(self).wf(),
            expiry(now, ttl_ms) <= u64::MAX,
        ensures
            final(self).executor_spec() == old(self).executor_spec(),
            final(self).wf(),
            cached_after(old(self)@, final(self)@, entity_key, *decision, expiry(now, ttl_ms)),
            final(self)@.config == old(self)@.config,
            final(self)@.capacity == old(self)@.capacity,
            final(self)@.limiter == old(self)@.limiter,
            final(self)@.metrics == old(self)@.metrics,
    {
        let ttl_ns = ttl_ms * 1_000_000;
        let entry = DecisionCacheEntry { decision: decision.clone(), expires_at_ns: now + ttl_ns, hit_count: 0 };
        proof {
            lemma_push_wf(self@.cache, self@.capacity, entity_key, entry);
        }
        let ghost e = entry;
        let _ = lru_push(&mut self.decision_cache, entity_key, entry);
        assert(self@.cache == lru_after_push(old(self)@.cache, old(self)@.capacity, entity_key, e));
    }

    /// The target standing for an entity: its low 32 bits as the pid and
    /// `entity_<key>` as the executable.
    fn extract_target_from_event(entity_key: u128) -> (t: ActionTarget)
        ensures
            is_entity_target(t, entity_key),
    {
        let mut executable = "entity_".to_owned();
        push_decimal(&mut executable, entity_key);
        ActionTarget::ProcessExec { pid: (entity_key & 0xFFFF_FFFF) as u32, executable }
    }

    /// Force a block decision for an entity at time `now`, cached for
    /// `ttl_ms` milliseconds.
    pub fn force_block_at(&mut self, entity_key: u128, action_type: ActionType, reason: String, ttl_ms: u64, now: u64) -> (r: Result<ActionDecision, EbpfExecutorError>)
        requires
            old(self).wf(),
            expiry(now, ttl_ms) <= u64::MAX,
        ensures
            final(self).executor_spec() == old(self).executor_spec(),
            final(self).wf(),
            r matches Ok(d) && d.rule_id@ == "manual"@ && d.action == action_type && d.policy == old(self)@.config.policy
                && is_entity_target(d.target, entity_key) && d.reason == reason && d.evidence@.len() == 0
                && cached_after(old(self)@, final(self)@, entity_key, d, expiry(now, ttl_ms)),
            final(self)@.config == old(self)@.config,
            final(self)@.limiter == old(self)@.limiter,
            final(self)@.metrics == old(self)@.metrics,
    {
        let decision = ActionDecision::new(
            "manual".to_owned(),
            action_type,
            self.config.policy,
            Self::extract_target_from_event(entity_key),
            reason,
            Vec::new(),
        );
        self.cache_decision_with_ttl(entity_key, &decision, ttl_ms, now);
        Ok(decision)
    }

    /// Force a block decision for an entity, cached for `ttl_ms` milliseconds
    /// from now. Refused as an invalid decision when the expiry would not fit
    /// in 64 bits of nanoseconds.
    pub fn force_block(&mut self, entity_key: u128, action_type: ActionType, reason: String, ttl_ms: u64) -> (r: Result<ActionDecision, EbpfExecutorError>)
        requires
            old(self).wf(),
        ensures
            final(self).executor_spec() == old(self).executor_spec(),
            final(self).wf(),
            final(self)@.config == old(self)@.config,
            final(self)@.limiter == old(self)@.limiter,
            final(self)@.metrics == old(self)@.metrics,
            match r {
                Ok(d) => d.rule_id@ == "manual"@ && d.action == action_type && d.policy == old(self)@.config.policy
                    && is_entity_target(d.target, entity_key) && d.reason == reason && d.evidence@.len() == 0
                    && exists|now: u64| expiry(now, ttl_ms) <= u64::MAX
                        && #[trigger] cached_after(old(self)@, final(self)@, entity_key, d, expiry(now, ttl_ms)),
                Err(e) => e is InvalidDecision && final(self)@ == old(self)@
                    && exists|now: u64| #[trigger] expiry(now, ttl_ms) > u64::MAX,
            },
    {
        let now = crate::clock::wall_clock_ns();
        proof {
            lemma_expiry_guard(now, ttl_ms);
        }
        if ttl_ms > (u64::MAX - now) / 1_000_000 {
            return Err(EbpfExecutorError::InvalidDecision("block expiry out of range".to_owned()));
        }
        self.force_block_at(entity_key, action_type, reason, ttl_ms, now)
    }

    /// Remove the cached decision for an entity, expired or not; true when
    /// there was one.
    pub fn unblock(&mut self, entity_key: u128) -> (removed: bool)
        requires
            old(self).wf(),
        ensures
            final(self).executor_spec() == old(self).executor_spec(),
            final(self).wf(),
            removed == seq_has_key(old(self)@.cache, entity_key),
            seq_lookup(final(self)@.cache, entity_key) is None,
            final(self)@.cache == (if removed {
                old(self)@.cache.remove(seq_key_index(old(self)@.cache, entity_key))
            } else {
                old(self)@.cache
            }),
            final(self)@.config == old(self)@.config,
            final(self)@.capacity == old(self)@.capacity,
            final(self)@.limiter == old(self)@.limiter,
            final(self)@.metrics == old(self)@.metrics,
    {
        proof {
            lemma_pop_wf(self@.cache, self@.capacity, entity_key);
        }
        let popped = lru_pop(&mut self.decision_cache, entity_key);
        popped.is_some()
    }

    /// Clear all cached decisions
    pub fn clear_cache(&mut self)
        requires
            old(self).wf(),
        ensures
            final(self).executor_spec() == old(self).executor_spec(),
            final(self).wf(),
            final(self)@.cache == Seq::<(u128, DecisionCacheEntry)>::empty(),
            final(self)@.config == old(self)@.config,
            final(self)@.capacity == old(self)@.capacity,
            final(self)@.limiter == old(self)@.limiter,
            final(self)@.metrics == old(self)@.metrics,
    {
        lru_clear(&mut self.decision_cache);
    }

    /// Make the enforcement decision at time `now_ns` (second `now_sec`) for
    /// an entity whose event matched the given rules: nothing when no rule
    /// matched; refused when rate limiting is enabled and the limit for the
    /// second is reached; the cached decision when there is an unexpired one;
    /// else a new decision for the strongest matched rule, which is cached.
    pub fn make_decision_at(&mut self, entity_key: u128, matched_rules: &[(&str, Severity)], now_ns: u64, now_sec: u64) -> (r: Result<Option<ActionDecision>, EbpfExecutorError>)
        requires
            old(self).wf(),
            expiry(now_ns, old(self)@.config.decision_ttl_ms) <= u64::MAX,
        ensures
            final(self).executor_spec() == old(self).executor_spec(),
            final(self).wf(),
            decision_outcome(old(self)@, final(self)@, entity_key, matched_rules@, now_ns, now_sec, r),
    {
        if matched_rules.len() == 0 {
            return Ok(None);
        }
        if self.config.enable_rate_limiting {
            match self.rate_limiter.check_at(now_sec) {
                Err(e) => {
                    return Err(e);
                },
                Ok(()) => {},
            }
        }
        match self.check_cache(entity_key, now_ns) {
            Some(d) => {
                self.metrics.record_cache_hit();
                return Ok(Some(d));
            },
            None => {},
        }
        self.metrics.record_cache_miss();
        let mut top: &str = "unknown";
        let mut severity = Severity::Low;
        let mut i: usize = 0;
        while i < matched_rules.len()
            invariant
                i <= matched_rules@.len(),
                (top@, severity) == strongest(matched_rules@.take(i as int)),
            decreases matched_rules@.len() - i,
        {
            let (rule, s) = matched_rules[i];
            if s.rank() > severity.rank() {
                top = rule;
                severity = s;
            }
            assert(matched_rules@.take(i + 1).drop_last() =~= matched_rules@.take(i as int));
            i = i + 1;
        }
        assert(matched_rules@.take(matched_rules@.len() as int) =~= matched_rules@);
        let action = determine_action_from_severity(severity);
        let mut reason = "Matched ".to_owned();
        push_decimal(&mut reason, matched_rules.len() as u128);
        reason.append(" rules");
        let decision = ActionDecision::new(
            top.to_owned(),
            action,
            self.config.policy,
            Self::extract_target_from_event(entity_key),
            reason,
            Vec::new(),
        );
        let ttl = self.config.decision_ttl_ms;
        self.cache_decision_with_ttl(entity_key, &decision, ttl, now_ns);
        Ok(Some(decision))
    }

    /// Make the enforcement decision now for an entity whose event matched the
    /// given rules, as `make_decision_at` does at the current time. Refused as
    /// an invalid decision when a cached decision's expiry would not fit in 64
    /// bits of nanoseconds.
    pub fn make_decision(&mut self, entity_key: u128, matched_rules: &[(&str, Severity)]) -> (r: Result<Option<ActionDecision>, EbpfExecutorError>)
        requires
            old(self).wf(),
        ensures
            final(self).executor_spec() == old(self).executor_spec(),
            final(self).wf(),
            r matches Err(EbpfExecutorError::InvalidDecision(_)) ==> final(self)@ == old(self)@
                && exists|now: u64| #[trigger] expiry(now, old(self)@.config.decision_ttl_ms) > u64::MAX,
            !(r matches Err(EbpfExecutorError::InvalidDecision(_))) ==> exists|now: u64|
                expiry(now, old(self)@.config.decision_ttl_ms) <= u64::MAX
                && #[trigger] decision_outcome(old(self)@, final(self)@, entity_key, matched_rules@, now, now / 1_000_000_000, r),
    {
        let now = crate::clock::wall_clock_ns();
        proof {
            lemma_expiry_guard(now, self.config.decision_ttl_ms);
        }
        if self.config.decision_ttl_ms > (u64::MAX - now) / 1_000_000 {
            return Err(EbpfExecutorError::InvalidDecision("decision expiry out of range".to_owned()));
        }
        self.make_decision_at(entity_key, matched_rules, now, now / 1_000_000_000)
    }

    /// Count an audit record when auditing is enabled.
    fn record_audit(&mut self)
        ensures
            final(self).executor_spec() == old(self).executor_spec(),
            final(self)@ == (ExecutorView { metrics: audited(old(self)@.metrics, old(self)@.config.enable_audit), ..old(self)@ }),
            final(self).wf() == old(self).wf(),
    {
        if self.config.enable_audit {
            self.metrics.record_audited();
        }
    }

    /// Pass a request at `now_sec` through the rate limiter when it is
    /// enabled; a refused request is counted and audited.
    fn admit_request(&mut self, now_sec: u64) -> (r: Result<(), EbpfExecutorError>)
        requires
            old(self).wf(),
        ensures
            final(self).executor_spec() == old(self).executor_spec(),
            final(self).wf(),
            r is Ok <==> admitted(old(self)@, now_sec),
            match r {
                Ok(()) => final(self)@ == (ExecutorView { limiter: limiter_after(old(self)@, now_sec), ..old(self)@ }),
                Err(e) => e matches EbpfExecutorError::RateLimitExceeded(m) && m@ == rate_limit_message(old(self)@.limiter.max_per_second)
                    && final(self)@ == (ExecutorView {
                        limiter: limiter_after(old(self)@, now_sec),
                        metrics: audited(
                            EbpfExecutorMetrics { decisions_rate_limited: old(self)@.metrics.decisions_rate_limited.wrapping_add(1), ..old(self)@.metrics },
                            old(self)@.config.enable_audit,
                        ),
                        ..old(self)@
                    }),
            },
    {
        if self.config.enable_rate_limiting {
            match self.rate_limiter.check_at(now_sec) {
                Err(e) => {
                    self.metrics.record_rate_limited();
                    self.record_audit();
                    return Err(e);
                },
                Ok(()) => {},
            }
        }
        Ok(())
    }

    /// Answer an admitted request for `key` at `now_ns` from the cache, or
    /// else cache `fresh` and answer with it; the decision is counted and
    /// audited either way.
    fn decide_cached_or(&mut self, entity_key: u128, fresh: ActionDecision, now_ns: u64) -> (r: Vec<ActionDecision>)
        requires
            old(self).wf(),
            expiry(now_ns, old(self)@.config.decision_ttl_ms) <= u64::MAX,
        ensures
            final(self).executor_spec() == old(self).executor_spec(),
            final(self).wf(),
            answered(old(self)@, final(self)@, entity_key, now_ns, r, fresh),
    {
        match self.check_cache(entity_key, now_ns) {
            Some(cached) => {
                self.metrics.record_decision(cached.action, true);
                self.record_audit();
                let mut v = Vec::new();
                v.push(cached);
                v
            },
            None => {
                let ttl = self.config.decision_ttl_ms;
                self.cache_decision_with_ttl(entity_key, &fresh, ttl, now_ns);
                self.metrics.record_decision(fresh.action, false);
                self.record_audit();
                let mut v = Vec::new();
                v.push(fresh);
                v
            },
        }
    }

    /// The target of a sequence detection: the entity of its first event, or
    /// pid 0 and `unknown` when it has no events.
    fn extract_target_from_events(alert: &SequenceAlert) -> (t: ActionTarget)
        ensures
            is_sequence_target(t, alert.event_entity_keys@),
    {
        if alert.event_entity_keys.len() > 0 {
            Self::extract_target_from_event(alert.event_entity_keys[0])
        } else {
            ActionTarget::ProcessExec { pid: 0, executable: "unknown".to_owned() }
        }
    }

    /// The decision for a sequence detection: block the entity of its first
    /// event, under the configured policy, with the sequence and entity as
    /// the reason.
    fn make_decision_from_alert(&self, alert: &SequenceAlert) -> (d: ActionDecision)
        ensures
            is_detection_decision(d, *alert, self@.config.policy),
    {
        let mut reason = "Sequence ".to_owned();
        reason.append(alert.sequence_id.as_str());
        reason.append(" matched for entity ");
        push_decimal(&mut reason, alert.entity_key);
        ActionDecision::new(
            alert.rule_id.clone(),
            determine_action_from_severity(Severity::High),
            self.config.policy,
            Self::extract_target_from_events(alert),
            reason,
            Vec::new(),
        )
    }

    /// The target of an alert about entity `entity_key`: the low 32 bits of
    /// the key as the pid, with `alert_<id>` as the executable.
    fn extract_target_from_alert(alert: &Alert, entity_key: u128) -> (t: ActionTarget)
        ensures
            t matches ActionTarget::ProcessExec { pid, executable } && pid == (entity_key & 0xFFFF_FFFF) as u32
                && executable@ == "alert_"@ + alert.id@,
    {
        let mut executable = "alert_".to_owned();
        executable.append(alert.id.as_str());
        ActionTarget::ProcessExec { pid: (entity_key & 0xFFFF_FFFF) as u32, executable }
    }

    /// Process a sequence detection at time `now_ns` (second `now_sec`):
    /// refused when rate limiting is enabled and the limit for the second is
    /// reached; the cached decision for its entity when there is an unexpired
    /// one; else a new decision to block, which is cached.
    pub fn process_detection_at(&mut self, alert: &SequenceAlert, now_ns: u64, now_sec: u64) -> (r: Result<Vec<ActionDecision>, EbpfExecutorError>)
        requires
            old(self).wf(),
            expiry(now_ns, old(self)@.config.decision_ttl_ms) <= u64::MAX,
        ensures
            final(self).executor_spec() == old(self).executor_spec(),
            final(self).wf(),
            detection_processed(old(self)@, final(self)@, *alert, now_ns, now_sec, r),
    {
        let entity_key = alert.entity_key;
        match self.admit_request(now_sec) {
            Err(e) => {
                return Err(e);
            },
            Ok(()) => {},
        }
        let fresh = self.make_decision_from_alert(alert);
        let ghost mid = self@;
        let ghost fresh_g = fresh;
        let v = self.decide_cached_or(entity_key, fresh, now_ns);
        assert(mid == ExecutorView { limiter: limiter_after(old(self)@, now_sec), ..old(self)@ });
        assert(is_detection_decision(fresh_g, *alert, old(self)@.config.policy));
        Ok(v)
    }

    /// Process a detection alert for entity `entity_key` at time `now_ns`
    /// (second `now_sec`): refused when rate limiting is enabled and the limit
    /// for the second is reached; the cached decision for the entity when
    /// there is an unexpired one; else a new decision with the action the
    /// alert's severity calls for, which is cached.
    pub fn process_alert_for(&mut self, alert: &Alert, entity_key: u128, now_ns: u64, now_sec: u64) -> (r: Result<Vec<ActionDecision>, EbpfExecutorError>)
        requires
            old(self).wf(),
            expiry(now_ns, old(self)@.config.decision_ttl_ms) <= u64::MAX,
        ensures
            final(self).executor_spec() == old(self).executor_spec(),
            final(self).wf(),
            alert_processed(old(self)@, final(self)@, *alert, entity_key, now_ns, now_sec, r),
    {
        let action_type = determine_action_from_severity(alert.severity);
        match self.admit_request(now_sec) {
            Err(e) => {
                return Err(e);
            },
            Ok(()) => {},
        }
        let target = Self::extract_target_from_alert(alert, entity_key);
        let mut reason = "Alert: ".to_owned();
        reason.append(alert.title.as_str());
        reason.append(" - ");
        match &alert.description {
            Some(d) => reason.append(d.as_str()),
            None => {},
        }
        let fresh = ActionDecision::new(alert.rule_id.clone(), action_type, self.config.policy, target, reason, Vec::new());
        let ghost mid = self@;
        let ghost fresh_g = fresh;
        let v = self.decide_cached_or(entity_key, fresh, now_ns);
        assert(mid == ExecutorView { limiter: limiter_after(old(self)@, now_sec), ..old(self)@ });
        assert(is_alert_decision(fresh_g, *alert, entity_key, old(self)@.config.policy));
        Ok(v)
    }

    /// Process a sequence detection now, as `process_detection_at` does at the
    /// current time. Refused as an invalid decision when a cached decision's
    /// expiry would not fit in 64 bits of nanoseconds.
    pub fn process_detection(&mut self, alert: &SequenceAlert) -> (r: Result<Vec<ActionDecision>, EbpfExecutorError>)
        requires
            old(self).wf(),
        ensures
            final(self).executor_spec() == old(self).executor_spec(),
            final(self).wf(),
            r matches Err(EbpfExecutorError::InvalidDecision(_)) ==> final(self)@ == old(self)@
                && exists|now: u64| #[trigger] expiry(now, old(self)@.config.decision_ttl_ms) > u64::MAX,
            !(r matches Err(EbpfExecutorError::InvalidDecision(_))) ==> exists|now: u64|
                expiry(now, old(self)@.config.decision_ttl_ms) <= u64::MAX
                && #[trigger] detection_processed(old(self)@, final(self)@, *alert, now, now / 1_000_000_000, r),
    {
        let now = crate::clock::wall_clock_ns();
        proof {
            lemma_expiry_guard(now, self.config.decision_ttl_ms);
        }
        if self.config.decision_ttl_ms > (u64::MAX - now) / 1_000_000 {
            return Err(EbpfExecutorError::InvalidDecision("decision expiry out of range".to_owned()));
        }
        self.process_detection_at(alert, now, now / 1_000_000_000)
    }

    /// Process a detection alert now for the entity named in its context, as
    /// `process_alert_for` does at the current time. Refused as an invalid
    /// decision when a cached decision's expiry would not fit in 64 bits of
    /// nanoseconds.
    pub fn process_alert(&mut self, alert: &Alert) -> (r: Result<Vec<ActionDecision>, EbpfExecutorError>)
        requires
            old(self).wf(),
        ensures
            final(self).executor_spec() == old(self).executor_spec(),
            final(self).wf(),
            r matches Err(EbpfExecutorError::InvalidDecision(_)) ==> final(self)@ == old(self)@
                && exists|now: u64| #[trigger] expiry(now, old(self)@.config.decision_ttl_ms) > u64::MAX,
            !(r matches Err(EbpfExecutorError::InvalidDecision(_))) ==> exists|now: u64, key: u128|
                key <= u64::MAX && expiry(now, old(self)@.config.decision_ttl_ms) <= u64::MAX
                && #[trigger] alert_processed(old(self)@, final(self)@, *alert, key, now, now / 1_000_000_000, r),
    {
        let entity_key = alert.extract_entity_key();
        let now = crate::clock::wall_clock_ns();
        proof {
            lemma_expiry_guard(now, self.config.decision_ttl_ms);
        }
        if self.config.decision_ttl_ms > (u64::MAX - now) / 1_000_000 {
            return Err(EbpfExecutorError::InvalidDecision("decision expiry out of range".to_owned()));
        }
        self.process_alert_for(alert, entity_key, now, now / 1_000_000_000)
    }

    /// Carry out a decision through the action executor, counting the
    /// execution and, when it fails, the failure.
    pub fn execute(&mut self, decision: &ActionDecision) -> (r: Result<ActionResult, ActionError>)
        requires
            old(self).wf(),
        ensures
            final(self).wf(),
            old(self).executor_spec().executes(*decision, r),
            final(self).executor_spec() == old(self).executor_spec(),
            final(self)@ == (ExecutorView { metrics: after_execution(old(self)@.metrics, r is Ok), ..old(self)@ }),
    {
        let result = self.action_executor.execute(decision);
        self.metrics.record_action_execution(result.is_ok());
        result
    }

    /// The action executor decisions are carried out by.
    pub closed spec fn executor_spec(&self) -> E {
        self.action_executor
    }

    /// The capabilities of the action executor decisions are carried out by.
    pub fn capabilities(&self) -> (c: ActionCapabilities)
        ensures
            c == self.executor_spec().capabilities_spec(),
    {
        self.action_executor.capabilities()
    }

    /// The configured enforcement policy.
    pub fn policy(&self) -> (p: ActionPolicy)
        ensures
            p == self@.config.policy,
    {
        self.config.policy
    }
}

/// The kernel enforcement entry that goes with carrying out `decision`
/// when a collector is attached: for the target's process, blocking for a
/// block or quarantine (a block lasting 60 s), killing for a kill, and
/// allowing otherwise.
pub fn enforcement_for(decision: &ActionDecision) -> (d: EnforcementDecision)
    ensures
        d.pid == target_pid(decision.target),
        d.action == enforcement_action_of(decision.action),
        d.ttl_ns == (if decision.action == ActionType::Block { 60_000_000_000u64 } else { 0u64 }),
{
    let pid = decision.target.pid();
    let action = match decision.action {
        ActionType::Block => EnforcementAction::Block,
        ActionType::Kill => EnforcementAction::Kill,
        ActionType::Alert => EnforcementAction::Allow,
        ActionType::Quarantine => EnforcementAction::Block,
        ActionType::Allow => EnforcementAction::Allow,
    };
    let ttl_ns: u64 = match decision.action {
        ActionType::Block => 60_000_000_000,
        _ => 0,
    };
    EnforcementDecision::new(pid, action, ttl_ns)
}

/// The kernel enforcement action for each action type.
pub open spec fn enforcement_action_of(a: ActionType) -> EnforcementAction {
    match a {
        ActionType::Block => EnforcementAction::Block,
        ActionType::Kill => EnforcementAction::Kill,
        ActionType::Alert => EnforcementAction::Allow,
        ActionType::Quarantine => EnforcementAction::Block,
        ActionType::Allow => EnforcementAction::Allow,
    }
}

/// The request at `key`, `now_ns` was admitted and answered with one decision:
/// the unexpired cached one, or else `fresh`, which is then cached; the
/// decision is counted and audited.
pub open spec fn answered(old: ExecutorView, new: ExecutorView, key: u128, now_ns: u64, r: Vec<ActionDecision>, fresh: ActionDecision) -> bool {
    &&& r@.len() == 1
    &&& new.config == old.config
    &&& new.capacity == old.capacity
    &&& new.limiter == old.limiter
    &&& match live_entry(old.cache, key, now_ns) {
        Some(e) => same_decision(r@[0], e.decision) && new.cache == old.cache
            && new.metrics == audited(after_decision(old.metrics, e.decision.action, true), old.config.enable_audit),
        None => r@[0] == fresh && cached_after(old, new, key, fresh, expiry(now_ns, old.config.decision_ttl_ms))
            && new.metrics == audited(after_decision(old.metrics, fresh.action, false), old.config.enable_audit),
    }
}

/// The outcome of a detection request for entity `key` at `now_ns` (second
/// `now_sec`): refused by the rate limiter, counted and audited; or answered
/// with the unexpired cached decision; or answered with a new decision that
/// meets `fresh_ok` and is then cached. The decision is counted and audited.
pub open spec fn processed(
    old: ExecutorView,
    new: ExecutorView,
    key: u128,
    now_ns: u64,
    now_sec: u64,
    r: Result<Vec<ActionDecision>, EbpfExecutorError>,
    fresh_ok: spec_fn(ActionDecision) -> bool,
) -> bool {
    if !admitted(old, now_sec) {
        &&& r matches Err(e) && e matches EbpfExecutorError::RateLimitExceeded(m) && m@ == rate_limit_message(old.limiter.max_per_second)
        &&& new == (ExecutorView {
            limiter: limiter_after(old, now_sec),
            metrics: audited(
                EbpfExecutorMetrics { decisions_rate_limited: old.metrics.decisions_rate_limited.wrapping_add(1), ..old.metrics },
                old.config.enable_audit,
            ),
            ..old
        })
    } else {
        let mid = ExecutorView { limiter: limiter_after(old, now_sec), ..old };
        r matches Ok(v) && answered(mid, new, key, now_ns, v, v@[0])
            && (live_entry(old.cache, key, now_ns) is None ==> fresh_ok(v@[0]))
    }
}

/// The outcome of processing a sequence detection at `now_ns` (second `now_sec`).
pub open spec fn detection_processed(
    old: ExecutorView,
    new: ExecutorView,
    alert: SequenceAlert,
    now_ns: u64,
    now_sec: u64,
    r: Result<Vec<ActionDecision>, EbpfExecutorError>,
) -> bool {
    processed(old, new, alert.entity_key, now_ns, now_sec, r, |d: ActionDecision| is_detection_decision(d, alert, old.config.policy))
}

/// The outcome of processing an alert about entity `key` at `now_ns` (second
/// `now_sec`).
pub open spec fn alert_processed(
    old: ExecutorView,
    new: ExecutorView,
    alert: Alert,
    key: u128,
    now_ns: u64,
    now_sec: u64,
    r: Result<Vec<ActionDecision>, EbpfExecutorError>,
) -> bool {
    processed(old, new, key, now_ns, now_sec, r, |d: ActionDecision| is_alert_decision(d, alert, key, old.config.policy))
}

/// A new decision for a sequence detection: its rule, an action to block,
/// the configured policy, the entity of its first event (or pid 0 and
/// `unknown`), and the reason `Sequence <id> matched for entity <key>`.
pub open spec fn is_detection_decision(d: ActionDecision, alert: SequenceAlert, policy: ActionPolicy) -> bool {
    &&& d.rule_id@ == alert.rule_id@
    &&& d.action == ActionType::Block
    &&& d.policy == policy
    &&& is_sequence_target(d.target, alert.event_entity_keys@)
    &&& d.reason@ == "Sequence "@ + alert.sequence_id@ + " matched for entity "@ + decimal(alert.entity_key as nat)
    &&& d.evidence@.len() == 0
}

/// A new decision for an alert about entity `key`: its rule, the action its
/// severity calls for, the configured policy, the low 32 bits of the key as
/// the pid with `alert_<id>` as the executable, and the reason
/// `Alert: <title> - <description>`.
pub open spec fn is_alert_decision(d: ActionDecision, alert: Alert, key: u128, policy: ActionPolicy) -> bool {
    &&& d.rule_id@ == alert.rule_id@
    &&& d.action == action_for_severity(alert.severity)
    &&& d.policy == policy
    &&& d.target matches ActionTarget::ProcessExec { pid, executable } && pid == (key & 0xFFFF_FFFF) as u32
        && executable@ == "alert_"@ + alert.id@
    &&& d.reason@ == "Alert: "@ + alert.title@ + " - "@ + match alert.description {
        Some(s) => s@,
        None => Seq::<char>::empty(),
    }
    &&& d.evidence@.len() == 0
}

/// The target of a sequence detection with the given event entities: the
/// entity of the first event, or pid 0 and `unknown`.
pub open spec fn is_sequence_target(t: ActionTarget, events: Seq<u128>) -> bool {
    if events.len() > 0 {
        is_entity_target(t, events[0])
    } else {
        t matches ActionTarget::ProcessExec { pid, executable } && pid == 0 && executable@ == "unknown"@
    }
}

/// The outcome of a decision request for entity `key` whose event matched
/// `rules`, at `now_ns` (second `now_sec`).
pub open spec fn decision_outcome(
    old: ExecutorView,
    new: ExecutorView,
    key: u128,
    rules: Seq<(&str, Severity)>,
    now_ns: u64,
    now_sec: u64,
    r: Result<Option<ActionDecision>, EbpfExecutorError>,
) -> bool {
    if rules.len() == 0 {
        r matches Ok(None) && new == old
    } else if !admitted(old, now_sec) {
        &&& r matches Err(e) && e matches EbpfExecutorError::RateLimitExceeded(m) && m@ == rate_limit_message(old.limiter.max_per_second)
        &&& new == (ExecutorView { limiter: limiter_after(old, now_sec), ..old })
    } else {
        match live_entry(old.cache, key, now_ns) {
            Some(e) => r matches Ok(Some(d)) && same_decision(d, e.decision) && new == (ExecutorView {
                limiter: limiter_after(old, now_sec),
                metrics: EbpfExecutorMetrics { cache_hits: old.metrics.cache_hits.wrapping_add(1), ..old.metrics },
                ..old
            }),
            None => r matches Ok(Some(d)) && d.rule_id@ == strongest(rules).0 && d.action == action_for_severity(strongest(rules).1)
                && d.policy == old.config.policy && is_entity_target(d.target, key)
                && d.reason@ == "Matched "@ + decimal(rules.len()) + " rules"@ && d.evidence@.len() == 0
                && new.config == old.config && new.capacity == old.capacity && new.limiter == limiter_after(old, now_sec)
                && new.metrics == (EbpfExecutorMetrics { cache_misses: old.metrics.cache_misses.wrapping_add(1), ..old.metrics })
                && cached_after(old, new, key, d, expiry(now_ns, old.config.decision_ttl_ms)),
        }
    }
}

/// A decision just cached for an entity is what the cache answers for it
/// until it expires.
pub proof fn law_cached_decision_is_live(old: ExecutorView, new: ExecutorView, key: u128, d: ActionDecision, expires: int, now: u64)
    requires
        lru_wf(old.cache, old.capacity),
        cached_after(old, new, key, d, expires),
        now < expires,
    ensures
        live_entry(new.cache, key, now) matches Some(e) && same_decision(e.decision, d),
{
    let e = choose|e: DecisionCacheEntry|
        #![trigger lru_after_push(old.cache, old.capacity, key, e)]
        new.cache == lru_after_push(old.cache, old.capacity, key, e) && same_decision(e.decision, d)
            && e.expires_at_ns == expires && e.hit_count == 0;
    lemma_push_wf(old.cache, old.capacity, key, e);
}

/// An entity with nothing cached is answered with nothing, at any time.
pub proof fn law_unblocked_entity_not_live(cache: Seq<(u128, DecisionCacheEntry)>, key: u128, now: u64)
    requires
        seq_lookup(cache, key) is None,
    ensures
        live_entry(cache, key, now) is None,
{
}

/// The strongest matched rule is one of the matched rules, or the starting
/// point ("unknown", `Low`), and no matched rule ranks above it unless it
/// ranks no higher than `Low`.
pub proof fn law_strongest_rule(rules: Seq<(&str, Severity)>)
    ensures
        strongest(rules) == ("unknown"@, Severity::Low)
            || exists|i: int| 0 <= i < rules.len() && strongest(rules) == (#[trigger] rules[i].0@, rules[i].1),
        forall|i: int| 0 <= i < rules.len() ==> #[trigger] severity_rank(rules[i].1) <= severity_rank(strongest(rules).1),
        severity_rank(strongest(rules).1) >= 1,
    decreases rules.len(),
{
    if rules.len() > 0 {
        let init = rules.drop_last();
        law_strongest_rule(init);
        assert forall|i: int| 0 <= i < rules.len() implies #[trigger] severity_rank(rules[i].1) <= severity_rank(strongest(rules).1) by {
            if i < rules.len() - 1 {
                assert(rules[i] == init[i]);
            }
        }
        if !(severity_rank(rules.last().1) > severity_rank(strongest(init).1)) && strongest(init) != ("unknown"@, Severity::Low) {
            let j = choose|j: int| 0 <= j < init.len() && strongest(init) == (#[trigger] init[j].0@, init[j].1);
            assert(rules[j] == init[j]);
        }
    }
}

/// When a high-severity rule matched and no critical one did, the strongest
/// matched rule is a high-severity one, and it calls for a block.
pub proof fn law_high_without_critical_blocks(rules: Seq<(&str, Severity)>, k: int)
    requires
        0 <= k < rules.len(),
        rules[k].1 == Severity::High,
        forall|i: int| 0 <= i < rules.len() ==> #[trigger] rules[i].1 != Severity::Critical,
    ensures
        strongest(rules).1 == Severity::High,
        exists|i: int| 0 <= i < rules.len() && strongest(rules) == (#[trigger] rules[i].0@, rules[i].1),
        action_for_severity(strongest(rules).1) == ActionType::Block,
{
    law_strongest_rule(rules);
    crate::alert::law_severity_order();
    assert(severity_rank(rules[k].1) <= severity_rank(strongest(rules).1));
    if strongest(rules) == ("unknown"@, Severity::Low) {
        assert(false);
    }
    let j = choose|j: int| 0 <= j < rules.len() && strongest(rules) == (#[trigger] rules[j].0@, rules[j].1);
    assert(rules[j].1 != Severity::Critical);
}

} // verus!
