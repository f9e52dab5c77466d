//! Determinism and runtime consistency checks: the results they report and
//! how the alert counts of repeated runs are compared.
use std::collections::HashMap;
use vstd::prelude::*;
use vstd::string::*;
use crate::alert::Alert;
use crate::clock::{elapsed_ns, instant_now};
use crate::decimal::{decimal, push_decimal};
use crate::event::{Event, FieldSchema, FieldVal, TypedValue};
use crate::replay::ReplayError;

verus! {

/// The outcome of running detection repeatedly over the same events.
#[derive(Debug, Clone)]
pub struct DeterministicResult {
    pub total_runs: usize,
    pub consistent: bool,
    pub mismatches: Vec<String>,
    pub total_alerts: Vec<usize>,
    pub execution_times_ms: Vec<u64>,
}

/// A mismatch found when replaying a log against expected results.
#[derive(Debug, Clone)]
pub struct VerificationMismatch {
    pub event_id: u64,
    pub expected: usize,
    pub actual: usize,
    pub details: String,
}

/// The outcome of replaying a log and checking its results.
#[derive(Debug, Clone)]
pub struct ReplayVerificationResult {
    pub total_events: usize,
    pub total_alerts: usize,
    pub mismatches: Vec<VerificationMismatch>,
    pub is_deterministic: bool,
    pub execution_time_ms: u64,
    pub memory_peak_bytes: usize,
    pub cpu_time_ms: u64,
}

/// The outcome of comparing two rule runtimes over the same events.
#[derive(Debug, Clone)]
pub struct ConsistencyResult {
    pub total_events: usize,
    pub consistent: bool,
    pub mismatches: Vec<ConsistencyMismatch>,
    pub wasm_alerts: usize,
    pub lua_alerts: usize,
    pub execution_time_ms: u64,
}

/// An event on which two rule runtimes disagreed.
#[derive(Debug, Clone)]
pub struct ConsistencyMismatch {
    pub event_index: usize,
    pub event_id: u64,
    pub wasm_result: bool,
    pub lua_result: bool,
    pub details: String,
}

/// The message for a run whose alert count differs from the first run's.
pub open spec fn run_mismatch_message(run: nat, count: nat, first: nat) -> Seq<char> {
    "Run "@ + decimal(run) + " has different alert count: "@ + decimal(count) + " vs "@ + decimal(first)
}

/// The messages for the runs (numbered from 1) among the first `n` whose
/// alert count differs from the first run's.
pub open spec fn run_mismatches(counts: Seq<usize>, n: int) -> Seq<Seq<char>>
    decreases n,
{
    if n <= 1 {
        Seq::empty()
    } else {
        let prev = run_mismatches(counts, n - 1);
        if counts[n - 1] != counts[0] {
            prev.push(run_mismatch_message(n as nat, counts[n - 1] as nat, counts[0] as nat))
        } else {
            prev
        }
    }
}

/// Compare the alert counts of repeated runs: each run after the first whose
/// count differs from the first run's is reported, and the runs are
/// consistent when none is.
pub fn summarize_runs(alert_counts: Vec<usize>, execution_times_ms: Vec<u64>) -> (r: DeterministicResult)
    requires
        alert_counts@.len() < usize::MAX,
    ensures
        r.total_runs == alert_counts@.len(),
        r.mismatches@.map_values(|m: String| m@) == run_mismatches(alert_counts@, alert_counts@.len() as int),
        r.consistent == (r.mismatches@.len() == 0),
        r.total_alerts == alert_counts,
        r.execution_times_ms == execution_times_ms,
{
    let mut mismatches: Vec<String> = Vec::new();
    let mut i: usize = 1;
    while i < alert_counts.len()
        invariant
            1 <= i,
            alert_counts@.len() < usize::MAX,
            i <= alert_counts@.len() || i == 1,
            mismatches@.map_values(|m: String| m@) == run_mismatches(alert_counts@, i as int),
        decreases alert_counts@.len() - i,
    {
        if alert_counts[i] != alert_counts[0] {
            let mut m = "Run ".to_owned();
            push_decimal(&mut m, (i + 1) as u128);
            m.append(" has different alert count: ");
            push_decimal(&mut m, alert_counts[i] as u128);
            m.append(" vs ");
            push_decimal(&mut m, alert_counts[0] as u128);
            let ghost before = mismatches@;
            mismatches.push(m);
            assert(mismatches@.map_values(|m: String| m@) =~= before.map_values(|m: String| m@).push(m@));
        }
        i = i + 1;
    }
    let total_runs = alert_counts.len();
    proof {
        if alert_counts@.len() <= 1 {
            assert(run_mismatches(alert_counts@, i as int) == Seq::<Seq<char>>::empty());
            assert(run_mismatches(alert_counts@, alert_counts@.len() as int) == Seq::<Seq<char>>::empty());
        } else {
            assert(i == alert_counts@.len());
        }
    }
    let consistent = mismatches.len() == 0;
    DeterministicResult {
        total_runs,
        consistent,
        mismatches,
        total_alerts: alert_counts,
        execution_times_ms,
    }
}

/// The message for an event whose alert count differs from the expected one.
pub open spec fn event_mismatch_message(id: u64, expected: usize, actual: usize) -> Seq<char> {
    "Event "@ + decimal(id as nat) + ": expected "@ + decimal(expected as nat) + " alerts, got "@ + decimal(
        actual as nat,
    )
}

/// A mismatch as plain values: event id, expected and actual counts, message.
pub open spec fn mismatch_view(m: VerificationMismatch) -> (u64, usize, usize, Seq<char>) {
    (m.event_id, m.expected, m.actual, m.details@)
}

/// The mismatches of the alert counts observed per event, in replay order,
/// against the expected counts: one for each event with an expected count
/// that differs from the observed one.
pub open spec fn count_mismatches(observed: Seq<(u64, usize)>, expected: Map<u64, usize>) -> Seq<
    (u64, usize, usize, Seq<char>),
>
    decreases observed.len(),
{
    if observed.len() == 0 {
        Seq::empty()
    } else {
        let prev = count_mismatches(observed.drop_last(), expected);
        let (id, n) = observed.last();
        if expected.contains_key(id) && expected[id] != n {
            prev.push((id, expected[id], n, event_mismatch_message(id, expected[id], n)))
        } else {
            prev
        }
    }
}

/// The number of alerts observed over all events.
pub open spec fn alert_total(observed: Seq<(u64, usize)>) -> nat
    decreases observed.len(),
{
    if observed.len() == 0 {
        0
    } else {
        alert_total(observed.drop_last()) + observed.last().1 as nat
    }
}

/// The alert total, or `usize::MAX` when it does not fit.
pub open spec fn capped_total(observed: Seq<(u64, usize)>) -> usize {
    if alert_total(observed) > usize::MAX {
        usize::MAX
    } else {
        alert_total(observed) as usize
    }
}

/// The result of replaying a log whose events (given by id, in replay
/// order) produced the observed numbers of alerts, checked against the
/// expected numbers when there are any; `elapsed_ms` is the time the replay
/// took. The replay is deterministic when nothing mismatched. The alert
/// total stops at `usize::MAX`.
pub fn verify_alert_counts(observed: &[(u64, usize)], expected: Option<&HashMap<u64, usize>>, elapsed_ms: u64) -> (r:
    ReplayVerificationResult)
    ensures
        r.total_events == observed@.len(),
        r.total_alerts == capped_total(observed@),
        r.mismatches@.map_values(|m: VerificationMismatch| mismatch_view(m)) == (match expected {
            Some(m) => count_mismatches(observed@, m@),
            None => Seq::empty(),
        }),
        r.is_deterministic == (r.mismatches@.len() == 0),
        r.execution_time_ms == elapsed_ms,
        r.cpu_time_ms == elapsed_ms,
        r.memory_peak_bytes == 0,
{
    broadcast use vstd::std_specs::hash::group_hash_axioms;
    let ghost exp: Map<u64, usize> = match expected {
        Some(m) => m@,
        None => Map::empty(),
    };
    let mut mismatches: Vec<VerificationMismatch> = Vec::new();
    let mut total: usize = 0;
    let mut i: usize = 0;
    while i < observed.len()
        invariant
            i <= observed@.len(),
            total == capped_total(observed@.take(i as int)),
            expected matches Some(m) ==> exp == m@,
            mismatches@.map_values(|m: VerificationMismatch| mismatch_view(m)) == (match expected {
                Some(m) => count_mismatches(observed@.take(i as int), m@),
                None => Seq::empty(),
            }),
        decreases observed@.len() - i,
    {
        let (id, n) = observed[i];
        proof {
            assert(observed@.take(i + 1).drop_last() =~= observed@.take(i as int));
        }
        total = total.saturating_add(n);
        let ghost before = mismatches@;
        match expected {
            Some(m) => {
                match m.get(&id) {
                    Some(e) => {
                        if *e != n {
                            let mut details = "Event ".to_owned();
                            push_decimal(&mut details, id as u128);
                            details.append(": expected ");
                            push_decimal(&mut details, *e as u128);
                            details.append(" alerts, got ");
                            push_decimal(&mut details, n as u128);
                            let mm = VerificationMismatch { event_id: id, expected: *e, actual: n, details };
                            mismatches.push(mm);
                            assert(mismatches@.map_values(|m: VerificationMismatch| mismatch_view(m)) =~= before.map_values(
                                |m: VerificationMismatch| mismatch_view(m),
                            ).push((id, *e, n, event_mismatch_message(id, *e, n))));
                        }
                    },
                    None => {},
                }
            },
            None => {},
        }
        i = i + 1;
    }
    assert(observed@.take(observed@.len() as int) =~= observed@);
    let is_deterministic = mismatches.len() == 0;
    ReplayVerificationResult {
        total_events: observed.len(),
        total_alerts: total,
        mismatches,
        is_deterministic,
        execution_time_ms: elapsed_ms,
        memory_peak_bytes: 0,
        cpu_time_ms: elapsed_ms,
    }
}

/// `true` or `false`.
pub open spec fn bool_text(b: bool) -> Seq<char> {
    if b {
        "true"@
    } else {
        "false"@
    }
}

/// The message for an event on which the two runtimes disagreed.
pub open spec fn runtime_mismatch_message(id: u64, wasm: bool, lua: bool) -> Seq<char> {
    "Event "@ + decimal(id as nat) + ": Wasm="@ + bool_text(wasm) + ", Lua="@ + bool_text(lua)
}

/// A runtime mismatch as plain values: index, event id, both results, message.
pub open spec fn consistency_view(m: ConsistencyMismatch) -> (usize, u64, bool, bool, Seq<char>) {
    (m.event_index, m.event_id, m.wasm_result, m.lua_result, m.details@)
}

/// The disagreements among the first `n` events, in event order.
pub open spec fn runtime_mismatches(ids: Seq<u64>, wasm: Seq<bool>, lua: Seq<bool>, n: int) -> Seq<
    (usize, u64, bool, bool, Seq<char>),
>
    decreases n,
{
    if n <= 0 {
        Seq::empty()
    } else {
        let prev = runtime_mismatches(ids, wasm, lua, n - 1);
        let i = n - 1;
        if wasm[i] != lua[i] {
            prev.push((i as usize, ids[i], wasm[i], lua[i], runtime_mismatch_message(ids[i], wasm[i], lua[i])))
        } else {
            prev
        }
    }
}

/// How many results matched.
pub open spec fn matched_count(rs: Seq<bool>) -> nat
    decreases rs.len(),
{
    if rs.len() == 0 {
        0
    } else {
        matched_count(rs.drop_last()) + if rs.last() { 1nat } else { 0nat }
    }
}

proof fn lemma_matched_count_bound(rs: Seq<bool>)
    ensures
        matched_count(rs) <= rs.len(),
    decreases rs.len(),
{
    if rs.len() > 0 {
        lemma_matched_count_bound(rs.drop_last());
    }
}

fn push_bool(out: &mut String, b: bool)
    ensures
        final(out)@ == old(out)@ + bool_text(b),
{
    if b {
        out.append("true");
    } else {
        out.append("false");
    }
}

/// Counts the results that matched.
fn count_matched(rs: &[bool]) -> (n: usize)
    ensures
        n == matched_count(rs@),
{
    let mut n: usize = 0;
    let mut i: usize = 0;
    while i < rs.len()
        invariant
            i <= rs@.len(),
            n == matched_count(rs@.take(i as int)),
        decreases rs@.len() - i,
    {
        proof {
            assert(rs@.take(i + 1).drop_last() =~= rs@.take(i as int));
            lemma_matched_count_bound(rs@.take(i + 1));
        }
        if rs[i] {
            n = n + 1;
        }
        i = i + 1;
    }
    assert(rs@.take(rs@.len() as int) =~= rs@);
    n
}

/// Compare the results of two rule runtimes on the same events (given by
/// id): every event, up to the shorter list of results, on which they
/// disagree is reported; the runtimes are consistent when none is.
pub fn compare_runtime_results(event_ids: &[u64], wasm: &[bool], lua: &[bool], elapsed_ms: u64) -> (r: ConsistencyResult)
    requires
        wasm@.len() <= event_ids@.len(),
        lua@.len() <= event_ids@.len(),
    ensures
        r.total_events == event_ids@.len(),
        r.mismatches@.map_values(|m: ConsistencyMismatch| consistency_view(m)) == runtime_mismatches(
            event_ids@,
            wasm@,
            lua@,
            if wasm@.len() < lua@.len() { wasm@.len() as int } else { lua@.len() as int },
        ),
        r.consistent == (r.mismatches@.len() == 0),
        r.wasm_alerts == matched_count(wasm@),
        r.lua_alerts == matched_count(lua@),
        r.execution_time_ms == elapsed_ms,
{
    let n = if wasm.len() < lua.len() { wasm.len() } else { lua.len() };
    let mut mismatches: Vec<ConsistencyMismatch> = Vec::new();
    let mut i: usize = 0;
    while i < n
        invariant
            i <= n,
            n <= wasm@.len(),
            n <= lua@.len(),
            n <= event_ids@.len(),
            mismatches@.map_values(|m: ConsistencyMismatch| consistency_view(m)) == runtime_mismatches(
                event_ids@,
                wasm@,
                lua@,
                i as int,
            ),
        decreases n - i,
    {
        let ghost before = mismatches@;
        if wasm[i] != lua[i] {
            let id = event_ids[i];
            let mut details = "Event ".to_owned();
            push_decimal(&mut details, id as u128);
            details.append(": Wasm=");
            push_bool(&mut details, wasm[i]);
            details.append(", Lua=");
            push_bool(&mut details, lua[i]);
            mismatches.push(
                ConsistencyMismatch { event_index: i, event_id: id, wasm_result: wasm[i], lua_result: lua[i], details },
            );
            assert(mismatches@.map_values(|m: ConsistencyMismatch| consistency_view(m)) =~= before.map_values(
                |m: ConsistencyMismatch| consistency_view(m),
            ).push((i, id, wasm@[i as int], lua@[i as int], runtime_mismatch_message(id, wasm@[i as int], lua@[i as int]))));
        }
        i = i + 1;
    }
    let consistent = mismatches.len() == 0;
    ConsistencyResult {
        total_events: event_ids.len(),
        consistent,
        mismatches,
        wasm_alerts: count_matched(wasm),
        lua_alerts: count_matched(lua),
        execution_time_ms: elapsed_ms,
    }
}

/// How many times detection is run over the same events.
pub const DETERMINISM_RUNS: usize = 5;

/// `counts` are the alert counts of runs of `run_detection` over `events`:
/// each is the length of something the detection can return for them.
pub open spec fn counts_of_runs<F: Fn(&[Event]) -> Vec<Alert>>(
    run_detection: F,
    events: &[Event],
    counts: Seq<usize>,
) -> bool {
    forall|i: int|
        #![trigger counts[i]]
        0 <= i < counts.len() ==> exists|alerts: Vec<Alert>|
            #[trigger] run_detection.ensures((events,), alerts) && alerts@.len() == counts[i]
}

/// The events of a generated test sequence: ids from 1, one second apart
/// from `base_time`, all for entity `0x12345`, with an executable path and
/// the index as fields 1 and 2.
pub open spec fn is_test_sequence(events: Seq<Event>, count: nat, base_time: u64) -> bool {
    &&& events.len() == count
    &&& forall|i: int|
        0 <= i < count ==> {
            let e = #[trigger] events[i];
            &&& e.event_id == i + 1
            &&& e.event_type_id == 1
            &&& e.ts_mono_ns == base_time + i * 1_000_000_000
            &&& e.ts_wall_ns == base_time + i * 1_000_000_000
            &&& e.entity_key == 0x12345
            &&& e.source_id is None
            &&& e.field_vals() == seq![
                (1u32, FieldVal::Text("/bin/test_"@ + decimal(i as nat))),
                (2u32, FieldVal::I64(i as i64)),
            ]
        }
}

/// Runs detection repeatedly over the same events and compares the runs.
pub struct DeterministicVerifier {
    schema: FieldSchema,
}

impl DeterministicVerifier {
    /// A verifier for events over `schema`.
    pub fn new(schema: FieldSchema) -> (v: Self)
        ensures
            v.schema_spec() == schema,
    {
        DeterministicVerifier { schema }
    }

    /// The schema the verified events use.
    pub closed spec fn schema_spec(&self) -> FieldSchema {
        self.schema
    }

    /// Runs `run_detection` over `events` five times and reports each run
    /// after the first whose alert count differs from the first run's; the
    /// runs are consistent when none does. It always succeeds.
    pub fn verify_determinism<F: Fn(&[Event]) -> Vec<Alert>>(&self, events: &[Event], run_detection: F) -> (r:
        Result<DeterministicResult, String>)
        requires
            run_detection.requires((events,)),
        ensures
            r matches Ok(res) && {
                &&& res.total_runs == DETERMINISM_RUNS
                &&& res.total_alerts@.len() == DETERMINISM_RUNS
                &&& counts_of_runs(run_detection, events, res.total_alerts@)
                &&& res.mismatches@.map_values(|m: String| m@) == run_mismatches(
                    res.total_alerts@,
                    DETERMINISM_RUNS as int,
                )
                &&& res.consistent == (res.mismatches@.len() == 0)
                &&& res.execution_times_ms@.len() == DETERMINISM_RUNS
            },
    {
        let mut counts: Vec<usize> = Vec::new();
        let mut times: Vec<u64> = Vec::new();
        let mut i: usize = 0;
        while i < DETERMINISM_RUNS
            invariant
                i <= DETERMINISM_RUNS,
                counts@.len() == i,
                times@.len() == i,
                run_detection.requires((events,)),
                counts_of_runs(run_detection, events, counts@),
            decreases DETERMINISM_RUNS - i,
        {
            let start = instant_now();
            let alerts = run_detection(events);
            let elapsed_ms = elapsed_ns(&start) / 1_000_000;
            let ghost before = counts@;
            counts.push(alerts.len());
            times.push(elapsed_ms);
            proof {
                assert forall|j: int| #![trigger counts@[j]] 0 <= j < counts@.len() implies exists|a: Vec<Alert>|
                    #[trigger] run_detection.ensures((events,), a) && a@.len() == counts@[j] by {
                    if j < before.len() {
                        assert(counts@[j] == before[j]);
                    } else {
                        assert(run_detection.ensures((events,), alerts));
                    }
                }
            }
            i = i + 1;
        }
        Ok(summarize_runs(counts, times))
    }

    /// Generates `count` test events one second apart from `base_time`.
    pub fn generate_test_sequence(&self, count: usize, base_time: u64) -> (r: Vec<Event>)
        requires
            count == 0 || base_time + (count - 1) * 1_000_000_000 <= u64::MAX,
        ensures
            is_test_sequence(r@, count as nat, base_time),
    {
        let mut events: Vec<Event> = Vec::new();
        let mut i: usize = 0;
        while i < count
            invariant
                i <= count,
                count == 0 || base_time + (count - 1) * 1_000_000_000 <= u64::MAX,
                is_test_sequence(events@, i as nat, base_time),
            decreases count - i,
        {
            assert(base_time + i * 1_000_000_000 <= u64::MAX) by (nonlinear_arith)
                requires
                    i < count,
                    base_time + (count - 1) * 1_000_000_000 <= u64::MAX,
            ;
            let ts = base_time + (i as u64) * 1_000_000_000;
            let mut path = "/bin/test_".to_owned();
            push_decimal(&mut path, i as u128);
            let mut fields: Vec<(u32, TypedValue)> = Vec::new();
            fields.push((1, TypedValue::Text(path)));
            fields.push((2, TypedValue::I64(i as i64)));
            let e = Event {
                event_id: (i + 1) as u64,
                event_type_id: 1,
                ts_mono_ns: ts,
                ts_wall_ns: ts,
                entity_key: 0x12345,
                source_id: None,
                fields,
            };
            assert(e.field_vals() =~= seq![
                (1u32, FieldVal::Text("/bin/test_"@ + decimal(i as nat))),
                (2u32, FieldVal::I64(i as i64)),
            ]);
            let ghost before = events@;
            events.push(e);
            proof {
                assert forall|j: int| 0 <= j < i + 1 implies {
                    let x = #[trigger] events@[j];
                    &&& x.event_id == j + 1
                    &&& x.event_type_id == 1
                    &&& x.ts_mono_ns == base_time + j * 1_000_000_000
                    &&& x.ts_wall_ns == base_time + j * 1_000_000_000
                    &&& x.entity_key == 0x12345
                    &&& x.source_id is None
                    &&& x.field_vals() == seq![
                        (1u32, FieldVal::Text("/bin/test_"@ + decimal(j as nat))),
                        (2u32, FieldVal::I64(j as i64)),
                    ]
                } by {
                    if j < i {
                        assert(events@[j] == before[j]);
                    }
                }
            }
            i = i + 1;
        }
        events
    }
}

/// Total number of alerts in `outs`.
pub open spec fn alerts_len_sum(outs: Seq<Vec<Alert>>) -> nat
    decreases outs.len(),
{
    if outs.len() == 0 {
        0
    } else {
        alerts_len_sum(outs.drop_last()) + outs.last()@.len()
    }
}

impl DeterministicVerifier {
    /// Runs `run_detection` once over every event of a replayed log and
    /// counts the alerts; nothing is compared, so the replay is reported
    /// deterministic. No events give an empty result without timing.
    pub fn replay_and_verify<F: Fn(&Event) -> Vec<Alert>>(&self, events: &[Event], run_detection: F) -> (r: Result<
        ReplayVerificationResult,
        String,
    >)
        requires
            forall|i: int| 0 <= i < events@.len() ==> run_detection.requires((&events@[i],)),
        ensures
            r matches Ok(res) && {
                &&& res.total_events == events@.len()
                &&& res.mismatches@.len() == 0
                &&& res.is_deterministic
                &&& res.memory_peak_bytes == 0
                &&& res.cpu_time_ms == res.execution_time_ms
                &&& events@.len() == 0 ==> res.total_alerts == 0 && res.execution_time_ms == 0
                &&& exists|outs: Seq<Vec<Alert>>| {
                    &&& outs.len() == events@.len()
                    &&& forall|i: int|
                        0 <= i < events@.len() ==> #[trigger] run_detection.ensures(
                            (&events@[i],),
                            outs[i],
                        )
                    &&& res.total_alerts == alerts_len_sum(outs)
                }
            },
    {
        if events.len() == 0 {
            let res = ReplayVerificationResult {
                total_events: 0,
                total_alerts: 0,
                mismatches: Vec::new(),
                is_deterministic: true,
                execution_time_ms: 0,
                memory_peak_bytes: 0,
                cpu_time_ms: 0,
            };
            assert(alerts_len_sum(Seq::<Vec<Alert>>::empty()) == 0);
            return Ok(res);
        }
        let start = instant_now();
        let mut all_alerts: Vec<Alert> = Vec::new();
        let ghost mut outs: Seq<Vec<Alert>> = Seq::empty();
        let mut i: usize = 0;
        while i < events.len()
            invariant
                i <= events@.len(),
                outs.len() == i,
                forall|j: int| 0 <= j < events@.len() ==> run_detection.requires((&events@[j],)),
                forall|j: int| 0 <= j < i ==> #[trigger] run_detection.ensures((&events@[j],), outs[j]),
                all_alerts@.len() == alerts_len_sum(outs),
            decreases events@.len() - i,
        {
            let mut alerts = run_detection(&events[i]);
            proof {
                let next = outs.push(alerts);
                assert(next.drop_last() =~= outs);
                outs = next;
            }
            all_alerts.append(&mut alerts);
            i = i + 1;
        }
        let elapsed_ms = elapsed_ns(&start) / 1_000_000;
        Ok(ReplayVerificationResult {
            total_events: events.len(),
            total_alerts: all_alerts.len(),
            mismatches: Vec::new(),
            is_deterministic: true,
            execution_time_ms: elapsed_ms,
            memory_peak_bytes: 0,
            cpu_time_ms: elapsed_ms,
        })
    }
}

/// `a` and `b` report the same runs.
pub open spec fn same_result(a: DeterministicResult, b: DeterministicResult) -> bool {
    &&& a.total_runs == b.total_runs
    &&& a.consistent == b.consistent
    &&& a.mismatches@.map_values(|m: String| m@) == b.mismatches@.map_values(|m: String| m@)
    &&& a.total_alerts@ == b.total_alerts@
    &&& a.execution_times_ms@ == b.execution_times_ms@
}

/// A copy of a determinism result.
fn copy_result(r: &DeterministicResult) -> (c: DeterministicResult)
    ensures
        same_result(c, *r),
{
    let mut mismatches: Vec<String> = Vec::new();
    let mut i: usize = 0;
    while i < r.mismatches.len()
        invariant
            i <= r.mismatches@.len(),
            mismatches@.map_values(|m: String| m@) =~= r.mismatches@.take(i as int).map_values(|m: String| m@),
        decreases r.mismatches@.len() - i,
    {
        let m = r.mismatches[i].clone();
        let ghost before = mismatches@;
        let ghost mv = m@;
        mismatches.push(m);
        proof {
            assert(r.mismatches@.take(i + 1) =~= r.mismatches@.take(i as int).push(r.mismatches@[i as int]));
            assert(mismatches@.map_values(|m: String| m@) =~= before.map_values(|m: String| m@).push(mv));
        }
        i = i + 1;
    }
    assert(r.mismatches@.take(r.mismatches@.len() as int) =~= r.mismatches@);
    let mut counts: Vec<usize> = Vec::new();
    let mut j: usize = 0;
    while j < r.total_alerts.len()
        invariant
            j <= r.total_alerts@.len(),
            counts@ =~= r.total_alerts@.take(j as int),
        decreases r.total_alerts@.len() - j,
    {
        counts.push(r.total_alerts[j]);
        j = j + 1;
    }
    let mut times: Vec<u64> = Vec::new();
    let mut k: usize = 0;
    while k < r.execution_times_ms.len()
        invariant
            k <= r.execution_times_ms@.len(),
            times@ =~= r.execution_times_ms@.take(k as int),
        decreases r.execution_times_ms@.len() - k,
    {
        times.push(r.execution_times_ms[k]);
        k = k + 1;
    }
    assert(r.total_alerts@.take(j as int) =~= r.total_alerts@);
    assert(r.execution_times_ms@.take(k as int) =~= r.execution_times_ms@);
    DeterministicResult {
        total_runs: r.total_runs,
        consistent: r.consistent,
        mismatches,
        total_alerts: counts,
        execution_times_ms: times,
    }
}

/// Runs named determinism tests and keeps their results.
pub struct DeterministicTestRunner {
    schema: FieldSchema,
    results: Vec<DeterministicResult>,
}

impl DeterministicTestRunner {
    /// The results kept so far, oldest first.
    pub closed spec fn results_spec(&self) -> Seq<DeterministicResult> {
        self.results@
    }

    /// The schema of the events the runner tests.
    pub closed spec fn schema_spec(&self) -> FieldSchema {
        self.schema
    }

    /// A runner with no results, for events over `schema`.
    pub fn new(schema: FieldSchema) -> (t: Self)
        ensures
            t.results_spec().len() == 0,
            t.schema_spec() == schema,
    {
        DeterministicTestRunner { schema, results: Vec::new() }
    }

    /// Runs a determinism test over `events` and keeps its result, as
    /// `DeterministicVerifier::verify_determinism` reports it. It always
    /// succeeds.
    pub fn run_deterministic_test<F: Fn(&[Event]) -> Vec<Alert>>(
        &mut self,
        name: &str,
        events: &[Event],
        run_detection: F,
    ) -> (r: Result<(), String>)
        requires
            run_detection.requires((events,)),
        ensures
            r is Ok,
            final(self).results_spec().len() == old(self).results_spec().len() + 1,
            final(self).results_spec().take(old(self).results_spec().len() as int) == old(
                self,
            ).results_spec(),
            ({
                let res = final(self).results_spec().last();
                &&& res.total_runs == DETERMINISM_RUNS
                &&& res.total_alerts@.len() == DETERMINISM_RUNS
                &&& counts_of_runs(run_detection, events, res.total_alerts@)
                &&& res.mismatches@.map_values(|m: String| m@) == run_mismatches(
                    res.total_alerts@,
                    DETERMINISM_RUNS as int,
                )
                &&& res.consistent == (res.mismatches@.len() == 0)
            }),
    {
        let verifier = DeterministicVerifier::new(self.schema.clone());
        match verifier.verify_determinism(events, run_detection) {
            Ok(result) => {
                let ghost before = self.results@;
                self.results.push(result);
                assert(self.results@.take(before.len() as int) =~= before);
                Ok(())
            },
            Err(e) => Err(e),
        }
    }

    /// Copies of the results kept so far, oldest first.
    pub fn get_results(&self) -> (r: Vec<DeterministicResult>)
        ensures
            r@.len() == self.results_spec().len(),
            forall|i: int| 0 <= i < r@.len() ==> same_result(#[trigger] r@[i], self.results_spec()[i]),
    {
        let mut out: Vec<DeterministicResult> = Vec::new();
        let mut i: usize = 0;
        while i < self.results.len()
            invariant
                i <= self.results@.len(),
                out@.len() == i,
                forall|j: int| 0 <= j < i ==> same_result(#[trigger] out@[j], self.results@[j]),
            decreases self.results@.len() - i,
        {
            let c = copy_result(&self.results[i]);
            out.push(c);
            i = i + 1;
        }
        out
    }

    /// Forgets every result.
    pub fn clear_results(&mut self)
        ensures
            final(self).results_spec().len() == 0,
    {
        self.results.clear();
    }
}

/// The expected number of alerts per event id, from the expected alerts.
pub open spec fn expected_counts(m: Map<u64, Vec<Alert>>) -> Map<u64, usize> {
    Map::new(|k: u64| m.contains_key(k), |k: u64| m[k]@.len() as usize)
}

/// The observed counts as event ids with numbers of alerts.
pub open spec fn observed_counts(rec: Seq<(u64, Vec<Alert>)>) -> Seq<(u64, usize)> {
    rec.map_values(|p: (u64, Vec<Alert>)| (p.0, p.1@.len() as usize))
}

/// Maps that agree on the ids observed give the same mismatches.
proof fn lemma_count_mismatches_agree(obs: Seq<(u64, usize)>, m1: Map<u64, usize>, m2: Map<u64, usize>)
    requires
        forall|j: int|
            0 <= j < obs.len() ==> (m1.contains_key(#[trigger] obs[j].0) <==> m2.contains_key(obs[j].0))
                && (m1.contains_key(obs[j].0) ==> m1[obs[j].0] == m2[obs[j].0]),
    ensures
        count_mismatches(obs, m1) == count_mismatches(obs, m2),
    decreases obs.len(),
{
    if obs.len() > 0 {
        let init = obs.drop_last();
        assert forall|j: int| 0 <= j < init.len() implies (m1.contains_key(#[trigger] init[j].0)
            <==> m2.contains_key(init[j].0)) && (m1.contains_key(init[j].0) ==> m1[init[j].0]
            == m2[init[j].0]) by {
            assert(init[j] == obs[j]);
        }
        lemma_count_mismatches_agree(init, m1, m2);
        assert(obs.last() == obs[obs.len() - 1]);
    }
}

/// Replays stored events one by one, records what evaluation gave for each,
/// and checks the numbers of alerts against expected results.
pub struct ReplaySource {
    events: Vec<Event>,
    current_index: usize,
    pub verification_enabled: bool,
    pub expected_results: Option<HashMap<u64, Vec<Alert>>>,
    recorded_results: Vec<(u64, Vec<Alert>)>,
}

impl ReplaySource {
    /// The events to replay.
    pub closed spec fn events_spec(&self) -> Seq<Event> {
        self.events@
    }

    /// The position of the next event.
    pub closed spec fn index_spec(&self) -> nat {
        self.current_index as nat
    }

    /// What evaluation gave so far, by event id, in replay order.
    pub closed spec fn recorded_spec(&self) -> Seq<(u64, Vec<Alert>)> {
        self.recorded_results@
    }

    /// Whether results are checked.
    pub closed spec fn enabled_spec(&self) -> bool {
        self.verification_enabled
    }

    /// The expected alerts by event id, if any.
    pub closed spec fn expected_spec(&self) -> Option<HashMap<u64, Vec<Alert>>> {
        self.expected_results
    }

    /// A source over `events` checked against `expected_results`.
    pub fn with_verification(events: Vec<Event>, expected_results: HashMap<u64, Vec<Alert>>) -> (s: Self)
        ensures
            s.events_spec() == events@,
            s.index_spec() == 0,
            s.recorded_spec().len() == 0,
            s.enabled_spec(),
            s.expected_spec() == Some(expected_results),
    {
        ReplaySource {
            events,
            current_index: 0,
            verification_enabled: true,
            expected_results: Some(expected_results),
            recorded_results: Vec::new(),
        }
    }

    /// The next event, if any is left.
    pub fn next_event(&mut self) -> (r: Option<&Event>)
        ensures
            final(self).events_spec() == old(self).events_spec(),
            final(self).recorded_spec() == old(self).recorded_spec(),
            final(self).expected_spec() == old(self).expected_spec(),
            old(self).index_spec() < old(self).events_spec().len() ==> final(self).index_spec()
                == old(self).index_spec() + 1 && r == Some(&old(self).events_spec()[old(
                self,
            ).index_spec() as int]),
            old(self).index_spec() >= old(self).events_spec().len() ==> final(self).index_spec()
                == old(self).index_spec() && r is None,
    {
        if self.current_index < self.events.len() {
            let i = self.current_index;
            self.current_index = i + 1;
            Some(&self.events[i])
        } else {
            None
        }
    }

    /// Starts over from the first event.
    pub fn reset(&mut self)
        ensures
            final(self).index_spec() == 0,
            final(self).events_spec() == old(self).events_spec(),
            final(self).recorded_spec() == old(self).recorded_spec(),
            final(self).expected_spec() == old(self).expected_spec(),
    {
        self.current_index = 0;
    }

    /// What evaluation gave so far, by event id, in replay order.
    pub fn get_recorded_results(&self) -> (r: &Vec<(u64, Vec<Alert>)>)
        ensures
            r@ == self.recorded_spec(),
    {
        &self.recorded_results
    }

    /// Evaluates every event left with `run_eval`, records what it gave, and
    /// checks the numbers of alerts against the expected results, if any:
    /// each event with an expected result whose number of alerts differs is
    /// a mismatch, and the replay is deterministic when there is none. The
    /// alert total stops at `usize::MAX`. It always succeeds.
    pub fn replay_and_verify<F: Fn(&Event) -> Vec<Alert>>(&mut self, run_eval: F) -> (r: Result<
        ReplayVerificationResult,
        ReplayError,
    >)
        requires
            forall|i: int| 0 <= i < old(self).events_spec().len() ==> run_eval.requires((&old(self).events_spec()[i],)),
        ensures
            final(self).events_spec() == old(self).events_spec(),
            final(self).expected_spec() == old(self).expected_spec(),
            final(self).index_spec() == if old(self).index_spec() < old(self).events_spec().len() {
                old(self).events_spec().len()
            } else {
                old(self).index_spec()
            },
            ({
                let old_len = old(self).recorded_spec().len();
                let rec = final(self).recorded_spec();
                let fresh = rec.subrange(old_len as int, rec.len() as int);
                let start = old(self).index_spec();
                &&& old_len <= rec.len()
                &&& rec.subrange(0, old_len as int) == old(self).recorded_spec()
                &&& fresh.len() == final(self).index_spec() - start
                &&& forall|j: int|
                    0 <= j < fresh.len() ==> (#[trigger] fresh[j]).0 == old(self).events_spec()[start + j].event_id
                        && run_eval.ensures((&old(self).events_spec()[start + j],), fresh[j].1)
                &&& r matches Ok(res) && {
                    let obs = observed_counts(fresh);
                    &&& res.total_events == fresh.len()
                    &&& res.total_alerts == capped_total(obs)
                    &&& res.mismatches@.map_values(|m: VerificationMismatch| mismatch_view(m)) == (
                    match old(self).expected_spec() {
                        Some(m) => count_mismatches(obs, expected_counts(m@)),
                        None => Seq::empty(),
                    })
                    &&& res.is_deterministic == (res.mismatches@.len() == 0)
                    &&& res.memory_peak_bytes == 0
                    &&& res.cpu_time_ms == res.execution_time_ms
                }
            }),
    {
        broadcast use vstd::std_specs::hash::group_hash_axioms;
        let start = instant_now();
        let expected = self.expected_results.take();
        let ghost exp: Map<u64, Vec<Alert>> = match &expected {
            Some(m) => m@,
            None => Map::empty(),
        };
        let ghost start_idx = self.current_index;
        let ghost old_rec = self.recorded_results@;
        let mut observed: Vec<(u64, usize)> = Vec::new();
        let mut counts: HashMap<u64, usize> = HashMap::new();
        while self.current_index < self.events.len()
            invariant
                start_idx <= self.current_index <= self.events@.len() || (self.current_index
                    == start_idx && start_idx >= self.events@.len()),
                self.events@ == old(self).events_spec(),
                start_idx == old(self).index_spec(),
                old_rec == old(self).recorded_spec(),
                expected == old(self).expected_results,
                expected matches Some(m) ==> exp == m@,
                expected is None ==> exp == Map::<u64, Vec<Alert>>::empty(),
                forall|i: int| 0 <= i < self.events@.len() ==> run_eval.requires((&self.events@[i],)),
                self.recorded_results@.len() == old_rec.len() + observed@.len(),
                self.recorded_results@.subrange(0, old_rec.len() as int) == old_rec,
                observed@ == observed_counts(
                    self.recorded_results@.subrange(old_rec.len() as int, self.recorded_results@.len() as int),
                ),
                start_idx <= self.events@.len() ==> observed@.len() == self.current_index - start_idx,
                start_idx > self.events@.len() ==> observed@.len() == 0,
                forall|j: int|
                    0 <= j < observed@.len() ==> (#[trigger] self.recorded_results@[old_rec.len() + j]).0
                        == self.events@[start_idx + j].event_id && run_eval.ensures(
                        (&self.events@[start_idx + j],),
                        self.recorded_results@[old_rec.len() + j].1,
                    ),
                forall|k: u64| #[trigger] counts@.contains_key(k) ==> exp.contains_key(k) && counts@[k]
                    == exp[k]@.len(),
                forall|j: int|
                    0 <= j < observed@.len() ==> (exp.contains_key(#[trigger] observed@[j].0)
                        ==> counts@.contains_key(observed@[j].0)),
            decreases self.events@.len() - self.current_index,
        {
            let i = self.current_index;
            let alerts = run_eval(&self.events[i]);
            let id = self.events[i].event_id;
            let n = alerts.len();
            let ghost counts_before = counts@;
            match &expected {
                Some(m) => match m.get(&id) {
                    Some(v) => {
                        counts.insert(id, v.len());
                    },
                    None => {},
                },
                None => {},
            }
            let ghost obs_before = observed@;
            let ghost rec_before = self.recorded_results@;
            observed.push((id, n));
            self.recorded_results.push((id, alerts));
            proof {
                assert(exp.contains_key(id) ==> counts@.contains_key(id));
                assert forall|k: u64| counts_before.contains_key(k) implies counts@.contains_key(k) by {}
                assert forall|j: int| 0 <= j < observed@.len() implies (exp.contains_key(
                    #[trigger] observed@[j].0,
                ) ==> counts@.contains_key(observed@[j].0)) by {
                    if j < obs_before.len() {
                        assert(observed@[j] == obs_before[j]);
                    }
                }
                let rec = self.recorded_results@;
                assert(rec.subrange(0, old_rec.len() as int) =~= rec_before.subrange(0, old_rec.len() as int));
                assert(rec.subrange(old_rec.len() as int, rec.len() as int) =~= rec_before.subrange(
                    old_rec.len() as int,
                    rec_before.len() as int,
                ).push((id, alerts)));
                assert(observed@ =~= observed_counts(rec.subrange(old_rec.len() as int, rec.len() as int)));
                assert forall|j: int| 0 <= j < observed@.len() implies (#[trigger] self.recorded_results@[
                    old_rec.len() + j]).0 == self.events@[start_idx + j].event_id && run_eval.ensures(
                    (&self.events@[start_idx + j],),
                    self.recorded_results@[old_rec.len() + j].1,
                ) by {
                    if j < obs_before.len() {
                        assert(self.recorded_results@[old_rec.len() + j] == rec_before[old_rec.len() + j]);
                    }
                }
            }
            self.current_index = i + 1;
        }
        self.expected_results = expected;
        let elapsed_ms = elapsed_ns(&start) / 1_000_000;
        let res = match &self.expected_results {
            Some(_) => verify_alert_counts(observed.as_slice(), Some(&counts), elapsed_ms),
            None => verify_alert_counts(observed.as_slice(), None, elapsed_ms),
        };
        proof {
            let rec = self.recorded_results@;
            let fresh = rec.subrange(old_rec.len() as int, rec.len() as int);
            assert forall|j: int| 0 <= j < fresh.len() implies (#[trigger] fresh[j]).0
                == old(self).events_spec()[start_idx + j].event_id && run_eval.ensures(
                (&old(self).events_spec()[start_idx + j],),
                fresh[j].1,
            ) by {
                assert(fresh[j] == rec[old_rec.len() + j]);
            }
            if self.expected_results is Some {
                let obs = observed@;
                assert forall|j: int| 0 <= j < obs.len() implies (counts@.contains_key(
                    #[trigger] obs[j].0,
                ) <==> expected_counts(exp).contains_key(obs[j].0)) && (counts@.contains_key(obs[j].0)
                    ==> counts@[obs[j].0] == expected_counts(exp)[obs[j].0]) by {}
                lemma_count_mismatches_agree(obs, counts@, expected_counts(exp));
            }
        }
        Ok(res)
    }
}

/// Repeated runs are reported consistent exactly when every run gave as
/// many alerts as the first.
pub proof fn law_consistent_iff_equal_counts(counts: Seq<usize>, n: int)
    requires
        1 <= n <= counts.len(),
    ensures
        (run_mismatches(counts, n).len() == 0) <==> (forall|i: int| 0 <= i < n ==> #[trigger] counts[i] == counts[0]),
    decreases n,
{
    if n > 1 {
        law_consistent_iff_equal_counts(counts, n - 1);
        if run_mismatches(counts, n).len() == 0 {
            assert(counts[n - 1] == counts[0]);
            assert forall|i: int| 0 <= i < n implies #[trigger] counts[i] == counts[0] by {
                if i < n - 1 {
                    assert(run_mismatches(counts, n - 1).len() == 0);
                }
            }
        }
    }
}

/// A replay is reported without mismatches exactly when every event that
/// has an expected number of alerts produced that number.
pub proof fn law_replay_agrees_iff_counts_match(observed: Seq<(u64, usize)>, expected: Map<u64, usize>)
    ensures
        (count_mismatches(observed, expected).len() == 0) <==> (forall|j: int|
            0 <= j < observed.len() && expected.contains_key(#[trigger] observed[j].0) ==> expected[observed[j].0]
                == observed[j].1),
    decreases observed.len(),
{
    if observed.len() > 0 {
        let init = observed.drop_last();
        law_replay_agrees_iff_counts_match(init, expected);
        let prev = count_mismatches(init, expected);
        let last = observed.last();
        assert(last == observed[observed.len() - 1]);
        if count_mismatches(observed, expected).len() == 0 {
            assert(!(expected.contains_key(last.0) && expected[last.0] != last.1));
            assert(prev.len() == 0);
            assert forall|j: int| 0 <= j < observed.len() && expected.contains_key(#[trigger] observed[j].0)
                implies expected[observed[j].0] == observed[j].1 by {
                if j < init.len() {
                    assert(init[j] == observed[j]);
                }
            }
        } else {
            if prev.len() == 0 {
                assert(expected.contains_key(last.0) && expected[last.0] != last.1);
            } else {
                let k = choose|j: int| 0 <= j < init.len() && expected.contains_key(#[trigger] init[j].0)
                    && expected[init[j].0] != init[j].1;
                assert(init[k] == observed[k]);
            }
        }
    }
}

} // verus!
