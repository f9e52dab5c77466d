//! Resource budgeting for rule evaluation.
//!
//! Per-rule budget tracking keeps runaway rules from consuming excessive CPU,
//! memory or time.
use vstd::prelude::*;

verus! {

/// Budget constraints for a single rule.
#[derive(Debug, Clone, Copy, PartialEq, Eq)]
pub struct RuleBudget {
    /// Maximum CPU fuel (Wasm instruction count) per evaluation.
    pub max_cpu_fuel: u64,
    /// Maximum memory in megabytes per evaluation.
    pub max_memory_mb: usize,
    /// Maximum evaluation time in milliseconds.
    pub max_eval_time_ms: u64,
    /// Maximum evaluations per second (rate limit).
    pub max_evaluations_per_sec: u64,
}

impl Default for RuleBudget {
    fn default() -> (b: Self)
        ensures
            b.max_cpu_fuel == 10_000_000,
            b.max_memory_mb == 128,
            b.max_eval_time_ms == 100,
            b.max_evaluations_per_sec == 10_000,
    {
        RuleBudget {
            max_cpu_fuel: 10_000_000,
            max_memory_mb: 128,
            max_eval_time_ms: 100,
            max_evaluations_per_sec: 10_000,
        }
    }
}

/// Utilisation of one resource: `used / limit`.
#[derive(Debug, Clone, Copy, PartialEq, Eq)]
pub struct UsageRatio {
    pub used: u64,
    pub limit: u64,
}

/// Result of a budget check.
#[derive(Debug, Clone, Copy, PartialEq, Eq)]
pub enum BudgetStatus {
    /// Consumption is well within limits.
    WithinBudget,
    /// Consumption is approaching a limit (the highest utilisation, at least
    /// four fifths and at most one).
    NearLimit(UsageRatio),
    /// A budget limit has been exceeded.
    Exceeded,
}

impl BudgetStatus {
    /// Returns true if the budget has been exceeded.
    pub fn is_exceeded(&self) -> (r: bool)
        ensures
            r == (*self is Exceeded),
    {
        match self {
            BudgetStatus::Exceeded => true,
            _ => false,
        }
    }

    /// Returns true if the budget is within acceptable limits.
    pub fn is_ok(&self) -> (r: bool)
        ensures
            r == !(*self is Exceeded),
    {
        !self.is_exceeded()
    }
}

/// Consumption of one evaluation (or a snapshot of accumulated consumption).
#[derive(Debug, Clone, Copy, Default)]
pub struct RuleConsumption {
    /// CPU fuel consumed (instructions).
    pub cpu_fuel: u64,
    /// Memory consumed in bytes.
    pub memory_bytes: usize,
    /// Evaluation time in milliseconds.
    pub eval_time_ms: u64,
    /// Number of evaluations in the current second.
    pub evaluations_this_sec: u64,
}

/// Accumulated consumption of one rule.
#[derive(Debug, Clone, Copy)]
pub struct RuleConsumptionState {
    /// Total CPU fuel consumed.
    pub cpu_fuel: u64,
    /// Peak memory observed (bytes).
    pub memory_bytes: u64,
    /// Evaluations in the current second.
    pub evaluations_this_sec: u64,
    /// Time of the last evaluation (nanoseconds on the tracker's clock).
    pub last_eval_ns: u64,
    /// Time when the current second started.
    pub current_sec_start_ns: u64,
}

/// A rule's accumulated consumption right after a reset at `now`.
pub open spec fn reset_state(now: u64) -> RuleConsumptionState {
    RuleConsumptionState {
        cpu_fuel: 0,
        memory_bytes: 0,
        evaluations_this_sec: 0,
        last_eval_ns: now,
        current_sec_start_ns: now,
    }
}

/// One second in nanoseconds.
pub const NANOS_PER_SEC: u64 = 1_000_000_000;

/// Accumulated consumption after recording `c` at time `now`: fuel adds up,
/// memory keeps its peak, and the evaluation counter restarts at one when a
/// second has passed since the current second began.
pub open spec fn after_record(s: RuleConsumptionState, c: RuleConsumption, now: u64) -> RuleConsumptionState {
    let new_second = now >= s.current_sec_start_ns && now - s.current_sec_start_ns >= NANOS_PER_SEC;
    RuleConsumptionState {
        cpu_fuel: s.cpu_fuel.wrapping_add(c.cpu_fuel),
        memory_bytes: if (c.memory_bytes as u64) > s.memory_bytes {
            c.memory_bytes as u64
        } else {
            s.memory_bytes
        },
        evaluations_this_sec: if new_second {
            1
        } else {
            s.evaluations_this_sec.wrapping_add(1)
        },
        last_eval_ns: now,
        current_sec_start_ns: if new_second {
            now
        } else {
            s.current_sec_start_ns
        },
    }
}

/// Megabytes in bytes, saturating at the largest `usize`.
pub open spec fn mib_bytes_usize(mb: usize) -> usize {
    if mb * 1048576 > usize::MAX {
        usize::MAX
    } else {
        (mb * 1048576) as usize
    }
}

/// Megabytes in bytes, saturating at the largest `u64`.
pub open spec fn mib_bytes_u64(mb: u64) -> u64 {
    if mb * 1048576 > u64::MAX {
        u64::MAX
    } else {
        (mb * 1048576) as u64
    }
}

/// Memory limit of a budget in bytes (saturating).
pub open spec fn memory_limit_bytes(b: RuleBudget) -> usize {
    mib_bytes_usize(b.max_memory_mb)
}

fn mib_to_bytes_usize(mb: usize) -> (r: usize)
    ensures
        r == mib_bytes_usize(mb),
{
    if mb > usize::MAX / 1048576 {
        usize::MAX
    } else {
        mb * 1048576
    }
}

fn mib_to_bytes_u64(mb: u64) -> (r: u64)
    ensures
        r == mib_bytes_u64(mb),
{
    if mb > u64::MAX / 1048576 {
        u64::MAX
    } else {
        mb * 1048576
    }
}

/// `x` but at least one.
pub open spec fn at_least_one(x: u64) -> u64 {
    if x == 0 {
        1
    } else {
        x
    }
}

/// `a` is a strictly larger ratio than `b`.
pub open spec fn ratio_gt(a: UsageRatio, b: UsageRatio) -> bool {
    a.used * b.limit > b.used * a.limit
}

/// The larger of two ratios (the first on a tie).
pub open spec fn ratio_max(a: UsageRatio, b: UsageRatio) -> UsageRatio {
    if ratio_gt(b, a) {
        b
    } else {
        a
    }
}

/// Highest utilisation among fuel, peak memory, evaluation time and rate.
pub open spec fn highest_usage(b: RuleBudget, c: RuleConsumption, s: RuleConsumptionState) -> UsageRatio {
    let cpu = UsageRatio { used: s.cpu_fuel, limit: at_least_one(b.max_cpu_fuel) };
    let mem = UsageRatio {
        used: s.memory_bytes,
        limit: at_least_one(mib_bytes_u64(b.max_memory_mb as u64)),
    };
    let time = UsageRatio { used: c.eval_time_ms, limit: at_least_one(b.max_eval_time_ms) };
    let rate = UsageRatio {
        used: s.evaluations_this_sec,
        limit: at_least_one(b.max_evaluations_per_sec),
    };
    ratio_max(ratio_max(ratio_max(cpu, mem), time), rate)
}

/// The verdict for one evaluation `c` of a rule with budget `b`, its
/// accumulated consumption being `s` once `c` is recorded: any hard limit
/// passed by `c`, or a rate over the limit, exceeds the budget; otherwise the
/// highest utilisation decides (over one: exceeded; at least four fifths:
/// near the limit).
pub open spec fn budget_verdict(b: RuleBudget, c: RuleConsumption, s: RuleConsumptionState) -> BudgetStatus {
    let u = highest_usage(b, c, s);
    if c.cpu_fuel > b.max_cpu_fuel {
        BudgetStatus::Exceeded
    } else if c.memory_bytes > memory_limit_bytes(b) {
        BudgetStatus::Exceeded
    } else if c.eval_time_ms > b.max_eval_time_ms {
        BudgetStatus::Exceeded
    } else if s.evaluations_this_sec > b.max_evaluations_per_sec {
        BudgetStatus::Exceeded
    } else if u.used > u.limit {
        BudgetStatus::Exceeded
    } else if 5 * u.used >= 4 * u.limit {
        BudgetStatus::NearLimit(u)
    } else {
        BudgetStatus::WithinBudget
    }
}

/// Exact comparison of two ratios.
fn ratio_greater(a: UsageRatio, b: UsageRatio) -> (r: bool)
    ensures
        r == ratio_gt(a, b),
{
    let x = a.used as u128;
    let y = b.limit as u128;
    let z = b.used as u128;
    let w = a.limit as u128;
    assert(x * y <= 0xffff_ffff_ffff_ffffu128 * 0xffff_ffff_ffff_ffffu128 && z * w
        <= 0xffff_ffff_ffff_ffffu128 * 0xffff_ffff_ffff_ffffu128) by (nonlinear_arith)
        requires
            x <= 0xffff_ffff_ffff_ffff,
            y <= 0xffff_ffff_ffff_ffff,
            z <= 0xffff_ffff_ffff_ffff,
            w <= 0xffff_ffff_ffff_ffff,
    ;
    x * y > z * w
}

fn ratio_larger(a: UsageRatio, b: UsageRatio) -> (r: UsageRatio)
    ensures
        r == ratio_max(a, b),
{
    if ratio_greater(b, a) {
        b
    } else {
        a
    }
}

fn nonzero(x: u64) -> (r: u64)
    ensures
        r == at_least_one(x),
{
    if x == 0 {
        1
    } else {
        x
    }
}

/// Decides the status of one evaluation from the budget, the evaluation and
/// the accumulated consumption after it.
pub fn evaluate_budget(b: RuleBudget, c: RuleConsumption, s: RuleConsumptionState) -> (r: BudgetStatus)
    ensures
        r == budget_verdict(b, c, s),
{
    if c.cpu_fuel > b.max_cpu_fuel {
        return BudgetStatus::Exceeded;
    }
    let max_memory_bytes = mib_to_bytes_usize(b.max_memory_mb);
    if c.memory_bytes > max_memory_bytes {
        return BudgetStatus::Exceeded;
    }
    if c.eval_time_ms > b.max_eval_time_ms {
        return BudgetStatus::Exceeded;
    }
    if s.evaluations_this_sec > b.max_evaluations_per_sec {
        return BudgetStatus::Exceeded;
    }
    let cpu = UsageRatio { used: s.cpu_fuel, limit: nonzero(b.max_cpu_fuel) };
    let mem = UsageRatio {
        used: s.memory_bytes,
        limit: nonzero(mib_to_bytes_u64(b.max_memory_mb as u64)),
    };
    let time = UsageRatio { used: c.eval_time_ms, limit: nonzero(b.max_eval_time_ms) };
    let rate = UsageRatio { used: s.evaluations_this_sec, limit: nonzero(b.max_evaluations_per_sec) };
    let u = ratio_larger(ratio_larger(ratio_larger(cpu, mem), time), rate);
    if u.used > u.limit {
        BudgetStatus::Exceeded
    } else if 5 * (u.used as u128) >= 4 * (u.limit as u128) {
        BudgetStatus::NearLimit(u)
    } else {
        BudgetStatus::WithinBudget
    }
}

/// The budgets an `ahash` map of budgets holds, by rule name.
pub uninterp spec fn budget_entries(m: ahash::AHashMap<String, RuleBudget>) -> Map<Seq<char>, RuleBudget>;

/// The consumption states an `ahash` map of states holds, by rule name.
pub uninterp spec fn consumption_entries(m: ahash::AHashMap<String, RuleConsumptionState>) -> Map<
    Seq<char>,
    RuleConsumptionState,
>;

/// No budgets at all.
pub open spec fn no_budgets() -> Map<Seq<char>, RuleBudget> {
    Map::empty()
}

/// No consumption states at all.
pub open spec fn no_states() -> Map<Seq<char>, RuleConsumptionState> {
    Map::empty()
}

/// Wraps `ahash::AHashMap::new` for budgets: a map that holds nothing.
#[verifier::external_body]
fn budgets_new() -> (r: ahash::AHashMap<String, RuleBudget>)
    ensures
        budget_entries(r) == no_budgets(),
{
    ahash::AHashMap::new()
}

/// Wraps `ahash::AHashMap::insert` for budgets: the map then holds `v` under
/// the name `k`, and the earlier budget under it, if any, is returned.
#[verifier::external_body]
fn budgets_insert(m: &mut ahash::AHashMap<String, RuleBudget>, k: String, v: RuleBudget) -> (r: Option<RuleBudget>)
    ensures
        budget_entries(*final(m)) == budget_entries(*old(m)).insert(k@, v),
        r == (if budget_entries(*old(m)).contains_key(k@) {
            Some(budget_entries(*old(m))[k@])
        } else {
            None
        }),
{
    m.insert(k, v)
}

/// Wraps `ahash::AHashMap::get` for budgets, copying the budget found: the
/// budget held under the name `k`, if any.
#[verifier::external_body]
fn budgets_get(m: &ahash::AHashMap<String, RuleBudget>, k: &str) -> (r: Option<RuleBudget>)
    ensures
        r == (if budget_entries(*m).contains_key(k@) {
            Some(budget_entries(*m)[k@])
        } else {
            None
        }),
{
    m.get(k).copied()
}

/// Wraps `ahash::AHashMap::remove` for budgets: the map then holds nothing
/// under the name `k`.
#[verifier::external_body]
fn budgets_remove(m: &mut ahash::AHashMap<String, RuleBudget>, k: &str)
    ensures
        budget_entries(*final(m)) == budget_entries(*old(m)).remove(k@),
{
    m.remove(k);
}

/// Wraps `ahash::AHashMap::new` for consumption states: a map that holds nothing.
#[verifier::external_body]
fn states_new() -> (r: ahash::AHashMap<String, RuleConsumptionState>)
    ensures
        consumption_entries(r) == no_states(),
{
    ahash::AHashMap::new()
}

/// Wraps `ahash::AHashMap::insert` for consumption states: the map then holds
/// `v` under the name `k`, and the earlier state under it, if any, is returned.
#[verifier::external_body]
fn states_insert(m: &mut ahash::AHashMap<String, RuleConsumptionState>, k: String, v: RuleConsumptionState) -> (r: Option<RuleConsumptionState>)
    ensures
        consumption_entries(*final(m)) == consumption_entries(*old(m)).insert(k@, v),
        r == (if consumption_entries(*old(m)).contains_key(k@) {
            Some(consumption_entries(*old(m))[k@])
        } else {
            None
        }),
{
    m.insert(k, v)
}

/// Wraps `ahash::AHashMap::get` for consumption states, copying the state
/// found: the state held under the name `k`, if any.
#[verifier::external_body]
fn states_get(m: &ahash::AHashMap<String, RuleConsumptionState>, k: &str) -> (r: Option<RuleConsumptionState>)
    ensures
        r == (if consumption_entries(*m).contains_key(k@) {
            Some(consumption_entries(*m)[k@])
        } else {
            None
        }),
{
    m.get(k).copied()
}

/// Wraps `ahash::AHashMap::remove` for consumption states: the map then holds
/// nothing under the name `k`.
#[verifier::external_body]
fn states_remove(m: &mut ahash::AHashMap<String, RuleConsumptionState>, k: &str)
    ensures
        consumption_entries(*final(m)) == consumption_entries(*old(m)).remove(k@),
{
    m.remove(k);
}

/// The texts of a sequence of strings.
pub open spec fn texts_of(v: Seq<String>) -> Seq<Seq<char>> {
    v.map_values(|s: String| s@)
}

/// Wraps `keys` of the consumption map (`HashMap::keys`, reached through
/// `Deref`), cloning each name: every name the map holds, each once, in the
/// map's own order, which is left unsaid.
#[verifier::external_body]
fn state_names(m: &ahash::AHashMap<String, RuleConsumptionState>) -> (r: Vec<String>)
    ensures
        texts_of(r@).no_duplicates(),
        forall|k: Seq<char>|
            #![trigger consumption_entries(*m).contains_key(k)]
            #![trigger texts_of(r@).contains(k)]
            consumption_entries(*m).contains_key(k) <==> texts_of(r@).contains(k),
{
    m.keys().cloned().collect()
}

/// A rule's consumption right after a reset at `now`.
fn fresh_state(now: u64) -> (s: RuleConsumptionState)
    ensures
        s == reset_state(now),
{
    RuleConsumptionState {
        cpu_fuel: 0,
        memory_bytes: 0,
        evaluations_this_sec: 0,
        last_eval_ns: now,
        current_sec_start_ns: now,
    }
}

/// Tracks per-rule resource consumption against configured budgets.
#[derive(Debug)]
pub struct BudgetTracker {
    budgets: ahash::AHashMap<String, RuleBudget>,
    consumption: ahash::AHashMap<String, RuleConsumptionState>,
    epoch: std::time::Instant,
}

impl BudgetTracker {
    /// Configured budgets by rule name.
    pub closed spec fn budget_map(&self) -> Map<Seq<char>, RuleBudget> {
        budget_entries(self.budgets)
    }

    /// Accumulated consumption by rule name.
    pub closed spec fn state_map(&self) -> Map<Seq<char>, RuleConsumptionState> {
        consumption_entries(self.consumption)
    }

    /// Create a new `BudgetTracker` with no configured budgets.
    pub fn new() -> (t: Self)
        ensures
            t.budget_map() == Map::<Seq<char>, RuleBudget>::empty(),
            t.state_map() == Map::<Seq<char>, RuleConsumptionState>::empty(),
    {
        BudgetTracker { budgets: budgets_new(), consumption: states_new(), epoch: crate::clock::instant_now() }
    }

    /// Register a budget for a rule at time `now`; a rule seen for the first
    /// time starts with nothing consumed.
    pub fn set_budget_at(&mut self, rule_id: &str, budget: RuleBudget, now: u64)
        ensures
            final(self).budget_map() == old(self).budget_map().insert(rule_id@, budget),
            final(self).state_map() == if old(self).state_map().contains_key(rule_id@) {
                old(self).state_map()
            } else {
                old(self).state_map().insert(rule_id@, reset_state(now))
            },
    {
        budgets_insert(&mut self.budgets, rule_id.to_owned(), budget);
        if states_get(&self.consumption, rule_id).is_none() {
            states_insert(&mut self.consumption, rule_id.to_owned(), fresh_state(now));
        }
    }

    /// Register a budget for a specific rule.
    pub fn set_budget(&mut self, rule_id: &str, budget: RuleBudget)
        ensures
            final(self).budget_map() == old(self).budget_map().insert(rule_id@, budget),
            final(self).state_map().dom() == old(self).state_map().dom().insert(rule_id@),
            forall|k: Seq<char>| #[trigger]
                old(self).state_map().contains_key(k) ==> final(self).state_map()[k] == old(self).state_map()[k],
            !old(self).state_map().contains_key(rule_id@) ==> exists|now: u64|
                final(self).state_map() == old(self).state_map().insert(rule_id@, #[trigger] reset_state(now)),
    {
        let now = crate::clock::elapsed_ns(&self.epoch);
        self.set_budget_at(rule_id, budget, now);
        assert(!old(self).state_map().contains_key(rule_id@) ==> final(self).state_map()
            == old(self).state_map().insert(rule_id@, reset_state(now)));
        assert(old(self).state_map().contains_key(rule_id@) ==> old(self).state_map().dom().insert(rule_id@)
            =~= old(self).state_map().dom());
    }

    /// Remove a rule's budget and consumption tracking.
    pub fn remove_rule(&mut self, rule_id: &str)
        ensures
            final(self).budget_map() == old(self).budget_map().remove(rule_id@),
            final(self).state_map() == old(self).state_map().remove(rule_id@),
    {
        budgets_remove(&mut self.budgets, rule_id);
        states_remove(&mut self.consumption, rule_id);
    }

    /// Record the consumption `c` of one evaluation of a rule at time `now`
    /// and return the budget status. A rule without a budget (or without
    /// tracked consumption) is always within budget and nothing is recorded.
    pub fn check_budget_at(&mut self, rule_id: &str, c: RuleConsumption, now: u64) -> (r: BudgetStatus)
        ensures
            final(self).budget_map() == old(self).budget_map(),
            !(old(self).budget_map().contains_key(rule_id@) && old(self).state_map().contains_key(
                rule_id@,
            )) ==> r == BudgetStatus::WithinBudget && final(self).state_map() == old(self).state_map(),
            old(self).budget_map().contains_key(rule_id@) && old(self).state_map().contains_key(
                rule_id@,
            ) ==> {
                let s = after_record(old(self).state_map()[rule_id@], c, now);
                &&& final(self).state_map() == old(self).state_map().insert(rule_id@, s)
                &&& r == budget_verdict(old(self).budget_map()[rule_id@], c, s)
            },
    {
        let budget = match budgets_get(&self.budgets, rule_id) {
            Some(b) => b,
            None => {
                return BudgetStatus::WithinBudget;
            },
        };
        let old_state = match states_get(&self.consumption, rule_id) {
            Some(s) => s,
            None => {
                return BudgetStatus::WithinBudget;
            },
        };
        let mem = c.memory_bytes as u64;
        let new_second = now >= old_state.current_sec_start_ns && now
            - old_state.current_sec_start_ns >= NANOS_PER_SEC;
        let st = RuleConsumptionState {
            cpu_fuel: old_state.cpu_fuel.wrapping_add(c.cpu_fuel),
            memory_bytes: if mem > old_state.memory_bytes {
                mem
            } else {
                old_state.memory_bytes
            },
            evaluations_this_sec: if new_second {
                1
            } else {
                old_state.evaluations_this_sec.wrapping_add(1)
            },
            last_eval_ns: now,
            current_sec_start_ns: if new_second {
                now
            } else {
                old_state.current_sec_start_ns
            },
        };
        states_insert(&mut self.consumption, rule_id.to_owned(), st);
        evaluate_budget(budget, c, st)
    }

    /// Record consumption for a rule and return the current budget status.
    pub fn check_budget(&mut self, rule_id: &str, consumption: RuleConsumption) -> (r: BudgetStatus)
        ensures
            final(self).budget_map() == old(self).budget_map(),
            !(old(self).budget_map().contains_key(rule_id@) && old(self).state_map().contains_key(
                rule_id@,
            )) ==> r == BudgetStatus::WithinBudget,
            old(self).budget_map().contains_key(rule_id@) && old(self).state_map().contains_key(
                rule_id@,
            ) ==> final(self).state_map().contains_key(rule_id@) && r == budget_verdict(
                old(self).budget_map()[rule_id@],
                consumption,
                final(self).state_map()[rule_id@],
            ) && exists|now: u64|
                final(self).state_map() == old(self).state_map().insert(
                    rule_id@,
                    #[trigger] after_record(old(self).state_map()[rule_id@], consumption, now),
                ),
            !(old(self).budget_map().contains_key(rule_id@) && old(self).state_map().contains_key(
                rule_id@,
            )) ==> final(self).state_map() == old(self).state_map(),
    {
        let now = crate::clock::elapsed_ns(&self.epoch);
        let r = self.check_budget_at(rule_id, consumption, now);
        assert(old(self).budget_map().contains_key(rule_id@) && old(self).state_map().contains_key(rule_id@)
            ==> final(self).state_map() == old(self).state_map().insert(
            rule_id@,
            after_record(old(self).state_map()[rule_id@], consumption, now),
        ));
        r
    }

    /// Get the current consumption snapshot for a rule.
    pub fn get_consumption(&self, rule_id: &str) -> (r: Option<RuleConsumption>)
        ensures
            r is None <==> !self.state_map().contains_key(rule_id@),
            r matches Some(c) ==> {
                let s = self.state_map()[rule_id@];
                &&& c.cpu_fuel == s.cpu_fuel
                &&& c.memory_bytes == s.memory_bytes as usize
                &&& c.eval_time_ms == 0
                &&& c.evaluations_this_sec == s.evaluations_this_sec
            },
    {
        match states_get(&self.consumption, rule_id) {
            Some(s) => Some(
                RuleConsumption {
                    cpu_fuel: s.cpu_fuel,
                    memory_bytes: s.memory_bytes as usize,
                    eval_time_ms: 0,
                    evaluations_this_sec: s.evaluations_this_sec,
                },
            ),
            None => None,
        }
    }

    /// Reset all consumption counters of a rule at time `now`.
    pub fn reset_at(&mut self, rule_id: &str, now: u64)
        ensures
            final(self).budget_map() == old(self).budget_map(),
            final(self).state_map() == if old(self).state_map().contains_key(rule_id@) {
                old(self).state_map().insert(rule_id@, reset_state(now))
            } else {
                old(self).state_map()
            },
    {
        if states_get(&self.consumption, rule_id).is_some() {
            states_insert(&mut self.consumption, rule_id.to_owned(), fresh_state(now));
        }
    }

    /// Reset all consumption counters for a rule.
    pub fn reset(&mut self, rule_id: &str)
        ensures
            final(self).budget_map() == old(self).budget_map(),
            final(self).state_map().dom() == old(self).state_map().dom(),
            old(self).state_map().contains_key(rule_id@) ==> {
                let s = final(self).state_map()[rule_id@];
                s.cpu_fuel == 0 && s.memory_bytes == 0 && s.evaluations_this_sec == 0
            },
            forall|k: Seq<char>| #[trigger]
                old(self).state_map().contains_key(k) && k != rule_id@ ==> final(self).state_map()[k] == old(self).state_map()[k],
    {
        let now = crate::clock::elapsed_ns(&self.epoch);
        self.reset_at(rule_id, now);
        assert(old(self).state_map().contains_key(rule_id@) ==> old(self).state_map().dom().insert(rule_id@)
            =~= old(self).state_map().dom());
    }

    /// Reset all tracked consumption at time `now`.
    pub fn reset_all_at(&mut self, now: u64)
        ensures
            final(self).budget_map() == old(self).budget_map(),
            final(self).state_map().dom() == old(self).state_map().dom(),
            forall|k: Seq<char>| #[trigger]
                final(self).state_map().contains_key(k) ==> final(self).state_map()[k]
                    == reset_state(now),
    {
        let names = state_names(&self.consumption);
        let ghost nv = texts_of(names@);
        let ghost dom = self.state_map().dom();
        let mut i: usize = 0;
        while i < names.len()
            invariant
                i <= names@.len(),
                nv == texts_of(names@),
                forall|k: Seq<char>| dom.contains(k) <==> nv.contains(k),
                self.state_map().dom() == dom,
                self.budget_map() == old(self).budget_map(),
                forall|j: int| 0 <= j < i ==> #[trigger] self.state_map()[nv[j]] == reset_state(now),
            decreases names@.len() - i,
        {
            let name = names[i].clone();
            proof {
                assert(nv[i as int] == name@);
                assert(nv.contains(name@));
            }
            states_insert(&mut self.consumption, name, fresh_state(now));
            assert(self.state_map().dom() =~= dom);
            i = i + 1;
        }
        assert forall|k: Seq<char>| #[trigger] self.state_map().contains_key(k) implies self.state_map()[k]
            == reset_state(now) by {
            assert(nv.contains(k));
            let j = choose|j: int| 0 <= j < nv.len() && nv[j] == k;
            assert(self.state_map()[nv[j]] == reset_state(now));
        }
    }

    /// Reset all tracked consumption.
    pub fn reset_all(&mut self)
        ensures
            final(self).budget_map() == old(self).budget_map(),
            final(self).state_map().dom() == old(self).state_map().dom(),
            forall|k: Seq<char>| #[trigger]
                final(self).state_map().contains_key(k) ==> final(self).state_map()[k].cpu_fuel
                    == 0 && final(self).state_map()[k].memory_bytes == 0 && final(self).state_map()[k].evaluations_this_sec == 0,
    {
        let now = crate::clock::elapsed_ns(&self.epoch);
        self.reset_all_at(now);
    }
}

/// `a` is at least as large a ratio as `b`.
spec fn ratio_ge(a: UsageRatio, b: UsageRatio) -> bool {
    a.used * b.limit >= b.used * a.limit
}

proof fn lemma_ratio_max(a: UsageRatio, b: UsageRatio)
    ensures
        ratio_max(a, b) == a || ratio_max(a, b) == b,
        ratio_ge(ratio_max(a, b), a),
        ratio_ge(ratio_max(a, b), b),
{
}

proof fn lemma_ratio_ge_trans(x: UsageRatio, y: UsageRatio, z: UsageRatio)
    requires
        y.limit > 0,
        ratio_ge(x, y),
        ratio_ge(y, z),
    ensures
        ratio_ge(x, z),
{
    let (xu, xl, yu, yl, zu, zl) = (x.used as int, x.limit as int, y.used as int, y.limit as int, z.used as int, z.limit as int);
    assert(xu * zl >= zu * xl) by (nonlinear_arith)
        requires
            yl > 0,
            xl >= 0,
            zl >= 0,
            xu * yl >= yu * xl,
            yu * zl >= zu * yl,
    {
        assert(xu * yl * zl >= yu * xl * zl) by (nonlinear_arith)
            requires xu * yl >= yu * xl, zl >= 0;
        assert(yu * zl * xl >= zu * yl * xl) by (nonlinear_arith)
            requires yu * zl >= zu * yl, xl >= 0;
        assert(xu * zl * yl >= zu * xl * yl) by (nonlinear_arith)
            requires xu * yl * zl >= yu * xl * zl, yu * zl * xl >= zu * yl * xl;
        assert(xu * zl >= zu * xl) by (nonlinear_arith)
            requires xu * zl * yl >= zu * xl * yl, yl > 0;
    }
}

/// Below four fifths, at least as large a ratio keeps a smaller one below too.
proof fn lemma_below_four_fifths(u: UsageRatio, r: UsageRatio)
    requires
        u.limit > 0,
        r.limit > 0,
        ratio_ge(u, r),
        5 * u.used < 4 * u.limit,
    ensures
        5 * r.used < 4 * r.limit,
{
    let (uu, ul, ru, rl) = (u.used as int, u.limit as int, r.used as int, r.limit as int);
    assert(5 * ru < 4 * rl) by (nonlinear_arith)
        requires
            ul > 0,
            rl > 0,
            uu * rl >= ru * ul,
            5 * uu < 4 * ul,
    {
        assert(5 * uu * rl < 4 * ul * rl) by (nonlinear_arith)
            requires 5 * uu < 4 * ul, rl > 0;
        assert(5 * ru * ul < 4 * rl * ul) by (nonlinear_arith)
            requires 5 * uu * rl < 4 * ul * rl, uu * rl >= ru * ul;
        assert(5 * ru < 4 * rl) by (nonlinear_arith)
            requires 5 * ru * ul < 4 * rl * ul, ul > 0;
    }
}

/// Over one, at least as large a ratio is over one too.
proof fn lemma_over_one(u: UsageRatio, r: UsageRatio)
    requires
        u.limit > 0,
        r.limit > 0,
        ratio_ge(u, r),
        r.used > r.limit,
    ensures
        u.used > u.limit,
{
    let (uu, ul, ru, rl) = (u.used as int, u.limit as int, r.used as int, r.limit as int);
    assert(uu > ul) by (nonlinear_arith)
        requires
            ul > 0,
            rl > 0,
            uu * rl >= ru * ul,
            ru > rl,
    {
        assert(ru * ul > rl * ul) by (nonlinear_arith)
            requires ru > rl, ul > 0;
        assert(uu * rl > ul * rl) by (nonlinear_arith)
            requires uu * rl >= ru * ul, ru * ul > rl * ul;
        assert(uu > ul) by (nonlinear_arith)
            requires uu * rl > ul * rl, rl > 0;
    }
}

/// When an evaluation passes no hard limit, its verdict follows the four
/// utilisations, fuel `s.cpu_fuel / max_cpu_fuel`, peak memory
/// `s.memory_bytes / max_memory`, evaluation time `c.eval_time_ms /
/// max_eval_time_ms` and rate `s.evaluations_this_sec /
/// max_evaluations_per_sec` (each limit taken as at least one): within
/// budget exactly when every one is below four fifths, exceeded exactly when
/// one is over one, and a near-limit verdict carries a ratio at least as
/// large as each of them.
pub proof fn law_verdict_follows_every_utilisation(b: RuleBudget, c: RuleConsumption, s: RuleConsumptionState)
    requires
        c.cpu_fuel <= b.max_cpu_fuel,
        c.memory_bytes <= memory_limit_bytes(b),
        c.eval_time_ms <= b.max_eval_time_ms,
        s.evaluations_this_sec <= b.max_evaluations_per_sec,
    ensures
        (budget_verdict(b, c, s) is WithinBudget) <==> (5 * s.cpu_fuel < 4 * at_least_one(b.max_cpu_fuel)
            && 5 * s.memory_bytes < 4 * at_least_one(mib_bytes_u64(b.max_memory_mb as u64))
            && 5 * c.eval_time_ms < 4 * at_least_one(b.max_eval_time_ms)
            && 5 * s.evaluations_this_sec < 4 * at_least_one(b.max_evaluations_per_sec)),
        (budget_verdict(b, c, s) is Exceeded) <==> (s.cpu_fuel > at_least_one(b.max_cpu_fuel)
            || s.memory_bytes > at_least_one(mib_bytes_u64(b.max_memory_mb as u64))
            || c.eval_time_ms > at_least_one(b.max_eval_time_ms)
            || s.evaluations_this_sec > at_least_one(b.max_evaluations_per_sec)),
        budget_verdict(b, c, s) matches BudgetStatus::NearLimit(u) ==> {
            &&& u.limit > 0
            &&& u.used * at_least_one(b.max_cpu_fuel) >= s.cpu_fuel * u.limit
            &&& u.used * at_least_one(mib_bytes_u64(b.max_memory_mb as u64)) >= s.memory_bytes * u.limit
            &&& u.used * at_least_one(b.max_eval_time_ms) >= c.eval_time_ms * u.limit
            &&& u.used * at_least_one(b.max_evaluations_per_sec) >= s.evaluations_this_sec * u.limit
        },
{
    let cpu = UsageRatio { used: s.cpu_fuel, limit: at_least_one(b.max_cpu_fuel) };
    let mem = UsageRatio { used: s.memory_bytes, limit: at_least_one(mib_bytes_u64(b.max_memory_mb as u64)) };
    let time = UsageRatio { used: c.eval_time_ms, limit: at_least_one(b.max_eval_time_ms) };
    let rate = UsageRatio { used: s.evaluations_this_sec, limit: at_least_one(b.max_evaluations_per_sec) };
    let m1 = ratio_max(cpu, mem);
    let m2 = ratio_max(m1, time);
    let u = ratio_max(m2, rate);
    assert(u == highest_usage(b, c, s));
    lemma_ratio_max(cpu, mem);
    lemma_ratio_max(m1, time);
    lemma_ratio_max(m2, rate);
    assert(m1.limit > 0 && m2.limit > 0 && u.limit > 0);
    lemma_ratio_ge_trans(u, m2, m1);
    lemma_ratio_ge_trans(u, m1, cpu);
    lemma_ratio_ge_trans(u, m1, mem);
    lemma_ratio_ge_trans(u, m2, time);
    assert(ratio_ge(u, cpu) && ratio_ge(u, mem) && ratio_ge(u, time) && ratio_ge(u, rate));
    if 5 * u.used < 4 * u.limit {
        lemma_below_four_fifths(u, cpu);
        lemma_below_four_fifths(u, mem);
        lemma_below_four_fifths(u, time);
        lemma_below_four_fifths(u, rate);
    }
    if cpu.used > cpu.limit {
        lemma_over_one(u, cpu);
    }
    if mem.used > mem.limit {
        lemma_over_one(u, mem);
    }
    if time.used > time.limit {
        lemma_over_one(u, time);
    }
    if rate.used > rate.limit {
        lemma_over_one(u, rate);
    }
}

/// A rule without a configured budget is never over budget, whatever it
/// consumed.
pub proof fn law_no_budget_never_exceeds(t: BudgetTracker, k: Seq<char>)
    requires
        !t.budget_map().contains_key(k),
    ensures
        !(t.budget_map().contains_key(k) && t.state_map().contains_key(k)),
{
}

/// Any evaluation past a hard limit exceeds the budget, and a status other
/// than exceeded means every limit is kept and utilisation is at most one.
pub proof fn law_hard_limits_exceed(b: RuleBudget, c: RuleConsumption, s: RuleConsumptionState)
    ensures
        c.cpu_fuel > b.max_cpu_fuel ==> budget_verdict(b, c, s) == BudgetStatus::Exceeded,
        c.memory_bytes > memory_limit_bytes(b) ==> budget_verdict(b, c, s) == BudgetStatus::Exceeded,
        c.eval_time_ms > b.max_eval_time_ms ==> budget_verdict(b, c, s) == BudgetStatus::Exceeded,
        s.evaluations_this_sec > b.max_evaluations_per_sec ==> budget_verdict(b, c, s)
            == BudgetStatus::Exceeded,
        budget_verdict(b, c, s) matches BudgetStatus::NearLimit(u) ==> 4 * u.limit <= 5 * u.used
            && u.used <= u.limit,
{
}

/// Within one second a rule's evaluation counter grows by one per check, and
/// fuel accumulates (up to wrap-around) across checks.
pub proof fn law_counters_accumulate(s: RuleConsumptionState, c: RuleConsumption, now: u64)
    requires
        now >= s.current_sec_start_ns,
        now - s.current_sec_start_ns < NANOS_PER_SEC,
        s.evaluations_this_sec < u64::MAX,
        s.cpu_fuel + c.cpu_fuel <= u64::MAX,
    ensures
        after_record(s, c, now).evaluations_this_sec == s.evaluations_this_sec + 1,
        after_record(s, c, now).cpu_fuel == s.cpu_fuel + c.cpu_fuel,
        after_record(s, c, now).memory_bytes >= s.memory_bytes,
{
}

} // verus!
