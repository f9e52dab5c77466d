//! Pluggable alert sinks: what a sink reports after emitting an alert, its
//! backpressure and health, and how the reports of several emissions or
//! several sinks combine.
use vstd::prelude::*;
use vstd::string::*;
use crate::alert::Alert;

verus! {

/// Status returned by a sink after emitting an alert.
#[derive(Debug, Clone, PartialEq, Eq)]
pub enum EmitStatus {
    /// The alert was successfully delivered.
    Acknowledged,
    /// The alert was buffered and will be delivered later.
    Buffered,
    /// The alert was dropped with a reason.
    Dropped(String),
}

/// Backpressure level reported by a sink.
#[derive(Debug, Clone, Copy, PartialEq, Eq, PartialOrd, Ord)]
pub enum Backpressure {
    /// Operating normally.
    Normal,
    /// Experiencing mild backpressure.
    Elevated,
    /// Critical backpressure; consider shedding load.
    Critical,
}

/// The order of backpressure levels, from `Normal` (0) to `Critical` (2).
pub open spec fn backpressure_rank(b: Backpressure) -> nat {
    match b {
        Backpressure::Normal => 0,
        Backpressure::Elevated => 1,
        Backpressure::Critical => 2,
    }
}

/// The higher of two backpressure levels.
pub open spec fn max_backpressure(a: Backpressure, b: Backpressure) -> Backpressure {
    if backpressure_rank(b) > backpressure_rank(a) {
        b
    } else {
        a
    }
}

impl Backpressure {
    /// The higher of two backpressure levels.
    pub fn max(self, other: Backpressure) -> (r: Backpressure)
        ensures
            r == max_backpressure(self, other),
    {
        let a: u8 = match self {
            Backpressure::Normal => 0,
            Backpressure::Elevated => 1,
            Backpressure::Critical => 2,
        };
        let b: u8 = match other {
            Backpressure::Normal => 0,
            Backpressure::Elevated => 1,
            Backpressure::Critical => 2,
        };
        if b > a {
            other
        } else {
            self
        }
    }
}

/// Health snapshot for a single sink.
#[derive(Debug, Clone)]
pub struct SinkHealth {
    /// Whether the sink is currently healthy.
    pub healthy: bool,
    /// Estimated lag in milliseconds.
    pub lag_ms: u64,
    /// Number of consecutive errors.
    pub consecutive_errors: u64,
    /// Number of alerts dropped since start.
    pub alerts_dropped: u64,
    /// Most recent error message, if any.
    pub last_error: Option<String>,
}

impl Default for SinkHealth {
    fn default() -> (h: Self)
        ensures
            h.healthy,
            h.lag_ms == 0,
            h.consecutive_errors == 0,
            h.alerts_dropped == 0,
            h.last_error is None,
    {
        SinkHealth { healthy: true, lag_ms: 0, consecutive_errors: 0, alerts_dropped: 0, last_error: None }
    }
}

/// Errors that can occur when emitting to a sink.
#[derive(Debug)]
pub enum AlertSinkError {
    Unavailable(String),
    Serialization(String),
    Transport(String),
}

/// The message of each sink error.
pub open spec fn sink_error_message(e: AlertSinkError) -> Seq<char> {
    match e {
        AlertSinkError::Unavailable(m) => "Unavailable: "@ + m@,
        AlertSinkError::Serialization(m) => "Serialization failed: "@ + m@,
        AlertSinkError::Transport(m) => "Transport failed: "@ + m@,
    }
}

impl AlertSinkError {
    /// The error's message.
    pub fn to_string(&self) -> (r: String)
        ensures
            r@ == sink_error_message(*self),
    {
        let (prefix, m) = match self {
            AlertSinkError::Unavailable(m) => ("Unavailable: ", m),
            AlertSinkError::Serialization(m) => ("Serialization failed: ", m),
            AlertSinkError::Transport(m) => ("Transport failed: ", m),
        };
        let mut s = prefix.to_owned();
        s.append(m.as_str());
        s
    }
}

/// The combined report of several emissions: the last drop if any alert was
/// dropped, else acknowledged; and the highest backpressure seen.
pub open spec fn combined(results: Seq<(EmitStatus, Backpressure)>) -> (EmitStatus, Backpressure)
    decreases results.len(),
{
    if results.len() == 0 {
        (EmitStatus::Acknowledged, Backpressure::Normal)
    } else {
        let acc = combined(results.drop_last());
        let (status, bp) = results.last();
        (if status is Dropped { status } else { acc.0 }, max_backpressure(acc.1, bp))
    }
}

/// Combine the reports of several emissions.
pub fn combine_emit_results(results: &[(EmitStatus, Backpressure)]) -> (r: (EmitStatus, Backpressure))
    ensures
        r == combined(results@),
{
    let mut overall = EmitStatus::Acknowledged;
    let mut max_bp = Backpressure::Normal;
    let mut i: usize = 0;
    while i < results.len()
        invariant
            i <= results@.len(),
            (overall, max_bp) == combined(results@.take(i as int)),
        decreases results@.len() - i,
    {
        let (status, bp) = &results[i];
        match status {
            EmitStatus::Dropped(m) => {
                overall = EmitStatus::Dropped(m.clone());
            },
            _ => {},
        }
        max_bp = max_bp.max(*bp);
        assert(results@.take(i + 1).drop_last() =~= results@.take(i as int));
        i = i + 1;
    }
    assert(results@.take(results@.len() as int) =~= results@);
    (overall, max_bp)
}

/// The health of several sinks together: healthy when all are, the
/// greatest lag, and the errors and drops added up (wrapping at 64 bits).
pub open spec fn aggregated(hs: Seq<SinkHealth>) -> (bool, u64, u64, u64)
    decreases hs.len(),
{
    if hs.len() == 0 {
        (true, 0, 0, 0)
    } else {
        let acc = aggregated(hs.drop_last());
        let h = hs.last();
        (
            acc.0 && h.healthy,
            if h.lag_ms > acc.1 { h.lag_ms } else { acc.1 },
            acc.2.wrapping_add(h.consecutive_errors),
            acc.3.wrapping_add(h.alerts_dropped),
        )
    }
}

/// The health of several sinks together, with no last error.
pub fn aggregate_health(hs: &[SinkHealth]) -> (r: SinkHealth)
    ensures
        (r.healthy, r.lag_ms, r.consecutive_errors, r.alerts_dropped) == aggregated(hs@),
        r.last_error is None,
{
    let mut healthy = true;
    let mut max_lag: u64 = 0;
    let mut total_errors: u64 = 0;
    let mut total_dropped: u64 = 0;
    let mut i: usize = 0;
    while i < hs.len()
        invariant
            i <= hs@.len(),
            (healthy, max_lag, total_errors, total_dropped) == aggregated(hs@.take(i as int)),
        decreases hs@.len() - i,
    {
        let h = &hs[i];
        healthy = healthy && h.healthy;
        if h.lag_ms > max_lag {
            max_lag = h.lag_ms;
        }
        total_errors = total_errors.wrapping_add(h.consecutive_errors);
        total_dropped = total_dropped.wrapping_add(h.alerts_dropped);
        assert(hs@.take(i + 1).drop_last() =~= hs@.take(i as int));
        i = i + 1;
    }
    assert(hs@.take(hs@.len() as int) =~= hs@);
    SinkHealth {
        healthy,
        lag_ms: max_lag,
        consecutive_errors: total_errors,
        alerts_dropped: total_dropped,
        last_error: None,
    }
}

/// Pluggable destination for alerts.
pub trait AlertSink {
    /// Emit a single alert.
    fn emit(&self, alert: &Alert) -> Result<(EmitStatus, Backpressure), AlertSinkError>;

    /// Emit a batch of alerts, stopping at the first error; the reports
    /// combine as `combine_emit_results` does.
    fn emit_batch(&self, alerts: &[Alert]) -> (r: Result<(EmitStatus, Backpressure), AlertSinkError>)
        default_ensures
            alerts@.len() == 0 ==> r == Ok::<(EmitStatus, Backpressure), AlertSinkError>(
                (EmitStatus::Acknowledged, Backpressure::Normal),
            ),
            r matches Ok(x) ==> exists|rs: Seq<(EmitStatus, Backpressure)>|
                rs.len() == alerts@.len() && x == #[trigger] combined(rs),
            r is Err ==> alerts@.len() > 0,
    {
        let mut results: Vec<(EmitStatus, Backpressure)> = Vec::new();
        let mut i: usize = 0;
        while i < alerts.len()
            invariant
                i <= alerts@.len(),
                results@.len() == i,
            decreases alerts@.len() - i,
        {
            match self.emit(&alerts[i]) {
                Ok(r) => results.push(r),
                Err(e) => {
                    return Err(e);
                },
            }
            i = i + 1;
        }
        let ghost rs = results@;
        let x = combine_emit_results(results.as_slice());
        assert(rs.len() == alerts@.len() && x == combined(rs));
        Ok(x)
    }

    /// Flush any buffered alerts.
    fn flush(&self) -> Result<(), AlertSinkError> {
        Ok(())
    }

    /// Return current health snapshot.
    fn health(&self) -> SinkHealth {
        SinkHealth::default()
    }

    /// Gracefully shut down the sink.
    fn shutdown(&self) -> Result<(), AlertSinkError> {
        self.flush()
    }
}

/// Sink writing alerts to standard output as JSON.
pub struct StdoutSink {
    pretty: bool,
}

impl StdoutSink {
    /// Create a new `StdoutSink`, pretty-printing or not.
    pub fn new(pretty: bool) -> (s: Self)
        ensures
            s.pretty_spec() == pretty,
    {
        StdoutSink { pretty }
    }

    /// Whether alerts are pretty-printed.
    pub closed spec fn pretty_spec(&self) -> bool {
        self.pretty
    }

    /// Whether alerts are pretty-printed.
    pub fn is_pretty(&self) -> (r: bool)
        ensures
            r == self.pretty_spec(),
    {
        self.pretty
    }
}

} // verus!
