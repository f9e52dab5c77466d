//! Health of the kernel event collection: event and drop counts, consecutive
//! failures, and the status they add up to, checked periodically.
use vstd::prelude::*;

verus! {

/// Health status of the kernel event subsystem
#[derive(Debug, Clone, Copy, PartialEq, Eq, Structural)]
pub enum EbpfHealthStatus {
    /// Healthy - events are flowing normally
    Healthy,
    /// Degraded - some events may be dropped
    Degraded,
    /// Unhealthy - ring buffer not accessible
    Unhealthy,
    /// Fallback mode - using fanotify or other alternative
    Fallback,
}

/// The lower-case name of each status.
pub open spec fn health_status_name(s: EbpfHealthStatus) -> Seq<char> {
    match s {
        EbpfHealthStatus::Healthy => "healthy"@,
        EbpfHealthStatus::Degraded => "degraded"@,
        EbpfHealthStatus::Unhealthy => "unhealthy"@,
        EbpfHealthStatus::Fallback => "fallback"@,
    }
}

impl EbpfHealthStatus {
    /// The status's lower-case name.
    pub fn to_string(&self) -> (r: String)
        ensures
            r@ == health_status_name(*self),
    {
        match self {
            EbpfHealthStatus::Healthy => "healthy".to_owned(),
            EbpfHealthStatus::Degraded => "degraded".to_owned(),
            EbpfHealthStatus::Unhealthy => "unhealthy".to_owned(),
            EbpfHealthStatus::Fallback => "fallback".to_owned(),
        }
    }
}

/// Health check configuration; durations in milliseconds.
#[derive(Debug, Clone)]
pub struct HealthCheckConfig {
    /// Interval between health checks
    pub check_interval_ms: u64,
    /// Maximum time without events before considered unhealthy
    pub max_event_gap_ms: u64,
    /// Number of consecutive failures before triggering fallback
    pub failure_threshold: usize,
    /// Enable automatic recovery attempts
    pub auto_recover: bool,
    /// Recovery backoff interval
    pub recovery_interval_ms: u64,
}

impl Default for HealthCheckConfig {
    fn default() -> (c: Self)
        ensures
            c.check_interval_ms == 5000,
            c.max_event_gap_ms == 30000,
            c.failure_threshold == 3,
            c.auto_recover,
            c.recovery_interval_ms == 10000,
    {
        HealthCheckConfig {
            check_interval_ms: 5000,
            max_event_gap_ms: 30000,
            failure_threshold: 3,
            auto_recover: true,
            recovery_interval_ms: 10000,
        }
    }
}

/// Health metrics for monitoring
#[derive(Debug, Default)]
pub struct HealthMetrics {
    /// Total events received
    pub events_received: u64,
    /// Total events dropped
    pub events_dropped: u64,
    /// Consecutive failures
    pub consecutive_failures: usize,
    /// Last event timestamp
    pub last_event_time: u64,
    /// Health check runs
    pub check_runs: u64,
}

impl HealthMetrics {
    /// Record an event received now; this ends a run of failures. The time
    /// of the event is the wall clock in whole seconds since the Unix epoch.
    pub fn record_event(&mut self)
        ensures
            final(self).events_received == old(self).events_received.wrapping_add(1),
            final(self).events_dropped == old(self).events_dropped,
            final(self).consecutive_failures == 0,
            final(self).check_runs == old(self).check_runs,
    {
        let now_secs = crate::clock::wall_clock_ns() / 1_000_000_000;
        self.record_event_at(now_secs);
    }

    /// Record an event received at `now_secs` (seconds since the Unix epoch);
    /// this ends a run of failures.
    pub fn record_event_at(&mut self, now_secs: u64)
        ensures
            *final(self) == (HealthMetrics {
                events_received: old(self).events_received.wrapping_add(1),
                consecutive_failures: 0,
                last_event_time: now_secs,
                ..*old(self)
            }),
    {
        self.events_received = self.events_received.wrapping_add(1);
        self.last_event_time = now_secs;
        self.consecutive_failures = 0;
    }

    /// Record an event dropped
    pub fn record_dropped(&mut self)
        ensures
            *final(self) == (HealthMetrics { events_dropped: old(self).events_dropped.wrapping_add(1), ..*old(self) }),
    {
        self.events_dropped = self.events_dropped.wrapping_add(1);
    }

    /// Record a failure
    pub fn record_failure(&mut self)
        ensures
            *final(self) == (HealthMetrics {
                consecutive_failures: old(self).consecutive_failures.wrapping_add(1),
                ..*old(self)
            }),
    {
        self.consecutive_failures = self.consecutive_failures.wrapping_add(1);
    }

    /// Get snapshot of metrics
    pub fn snapshot(&self) -> (s: HealthMetricsSnapshot)
        ensures
            s.events_received == self.events_received,
            s.events_dropped == self.events_dropped,
            s.consecutive_failures == self.consecutive_failures,
            s.last_event_time == self.last_event_time,
            s.check_runs == self.check_runs,
    {
        HealthMetricsSnapshot {
            events_received: self.events_received,
            events_dropped: self.events_dropped,
            consecutive_failures: self.consecutive_failures,
            last_event_time: self.last_event_time,
            check_runs: self.check_runs,
        }
    }
}

/// Snapshot of health metrics
#[derive(Debug, Clone)]
pub struct HealthMetricsSnapshot {
    pub events_received: u64,
    pub events_dropped: u64,
    pub consecutive_failures: usize,
    pub last_event_time: u64,
    pub check_runs: u64,
}

/// The health that metrics add up to, `since_last_check_ms` after the
/// previous check: unhealthy once failures reach the threshold; degraded when
/// nothing was received for longer than the allowed gap while failures
/// occurred, or when more than a tenth of over a hundred events were dropped;
/// else healthy.
pub open spec fn health_of(config: HealthCheckConfig, m: HealthMetricsSnapshot, since_last_check_ms: u64) -> EbpfHealthStatus {
    let total = m.events_received + m.events_dropped;
    if m.consecutive_failures >= config.failure_threshold {
        EbpfHealthStatus::Unhealthy
    } else if m.events_received == 0 && since_last_check_ms > config.max_event_gap_ms && m.consecutive_failures > 0 {
        EbpfHealthStatus::Degraded
    } else if total > 100 && 10 * m.events_dropped > total {
        EbpfHealthStatus::Degraded
    } else {
        EbpfHealthStatus::Healthy
    }
}

/// Evaluate the health status `since_last_check_ms` after the previous check.
pub fn evaluate_health(config: &HealthCheckConfig, metrics: &HealthMetricsSnapshot, since_last_check_ms: u64) -> (s: EbpfHealthStatus)
    ensures
        s == health_of(*config, *metrics, since_last_check_ms),
{
    if metrics.consecutive_failures >= config.failure_threshold {
        return EbpfHealthStatus::Unhealthy;
    }
    if metrics.events_received == 0 && since_last_check_ms > config.max_event_gap_ms {
        if metrics.consecutive_failures > 0 {
            return EbpfHealthStatus::Degraded;
        }
    }
    let total: u128 = metrics.events_received as u128 + metrics.events_dropped as u128;
    if total > 100 {
        if 10 * (metrics.events_dropped as u128) > total {
            return EbpfHealthStatus::Degraded;
        }
    }
    EbpfHealthStatus::Healthy
}

/// Health check errors
#[derive(Debug)]
pub enum HealthCheckError {
    AlreadyRunning,
    StatusUpdateFailed(String),
}

/// The message of each health check error.
pub open spec fn health_error_message(e: HealthCheckError) -> Seq<char> {
    match e {
        HealthCheckError::AlreadyRunning => "Health check already running"@,
        HealthCheckError::StatusUpdateFailed(m) => "Failed to update status: "@ + m@,
    }
}

impl HealthCheckError {
    /// The error's message.
    pub fn to_string(&self) -> (r: String)
        ensures
            r@ == health_error_message(*self),
    {
        match self {
            HealthCheckError::AlreadyRunning => "Health check already running".to_owned(),
            HealthCheckError::StatusUpdateFailed(m) => {
                let mut s = "Failed to update status: ".to_owned();
                s.append(m.as_str());
                s
            },
        }
    }
}

/// The most recovery attempts made in a row while unhealthy.
pub open spec fn max_recovery_attempts() -> u32 {
    3
}

/// Health checker: keeps the metrics, the current status and the count of
/// recovery attempts, and updates the status at each periodic check.
pub struct EbpfHealthChecker {
    config: HealthCheckConfig,
    metrics: HealthMetrics,
    status: EbpfHealthStatus,
    recovery_attempts: u32,
}

impl EbpfHealthChecker {
    /// The configuration.
    pub closed spec fn config_spec(&self) -> HealthCheckConfig {
        self.config
    }

    /// The current metrics.
    pub closed spec fn metrics_spec(&self) -> HealthMetrics {
        self.metrics
    }

    /// The current status.
    pub closed spec fn status_spec(&self) -> EbpfHealthStatus {
        self.status
    }

    /// Recovery attempts made since the subsystem was last healthy.
    pub closed spec fn recovery_attempts_spec(&self) -> u32 {
        self.recovery_attempts
    }

    /// A checker that starts healthy, with nothing counted.
    pub fn new(config: HealthCheckConfig) -> (c: Self)
        ensures
            c.config_spec() == config,
            c.status_spec() == EbpfHealthStatus::Healthy,
            c.recovery_attempts_spec() == 0,
            c.metrics_spec().events_received == 0,
            c.metrics_spec().events_dropped == 0,
            c.metrics_spec().consecutive_failures == 0,
            c.metrics_spec().check_runs == 0,
    {
        EbpfHealthChecker {
            config,
            metrics: HealthMetrics {
                events_received: 0,
                events_dropped: 0,
                consecutive_failures: 0,
                last_event_time: 0,
                check_runs: 0,
            },
            status: EbpfHealthStatus::Healthy,
            recovery_attempts: 0,
        }
    }

    /// The metrics, to record events, drops and failures in.
    pub fn metrics(&mut self) -> (m: &mut HealthMetrics)
        ensures
            *m == old(self).metrics_spec(),
            final(self).metrics_spec() == *final(m),
            final(self).config_spec() == old(self).config_spec(),
            final(self).status_spec() == old(self).status_spec(),
            final(self).recovery_attempts_spec() == old(self).recovery_attempts_spec(),
    {
        &mut self.metrics
    }

    /// Get current health status
    pub fn status(&self) -> (s: EbpfHealthStatus)
        ensures
            s == self.status_spec(),
    {
        self.status
    }

    /// One periodic check, `since_last_check_ms` after the previous one: the
    /// status becomes what the metrics add up to; a change to unhealthy, with
    /// automatic recovery on, counts a recovery attempt, up to three in a
    /// row; becoming or staying healthy resets the count. Returns whether a
    /// recovery should be attempted.
    pub fn run_check(&mut self, since_last_check_ms: u64) -> (recover: bool)
        ensures
            ({
                let snap = HealthMetricsSnapshot {
                    events_received: old(self).metrics_spec().events_received,
                    events_dropped: old(self).metrics_spec().events_dropped,
                    consecutive_failures: old(self).metrics_spec().consecutive_failures,
                    last_event_time: old(self).metrics_spec().last_event_time,
                    check_runs: old(self).metrics_spec().check_runs,
                };
                let s = health_of(old(self).config_spec(), snap, since_last_check_ms);
                &&& final(self).status_spec() == s
                &&& recover == (s != old(self).status_spec() && s == EbpfHealthStatus::Unhealthy
                    && old(self).config_spec().auto_recover && old(self).recovery_attempts_spec() < max_recovery_attempts())
                &&& final(self).recovery_attempts_spec() == (if s == EbpfHealthStatus::Healthy {
                    0
                } else if recover {
                    (old(self).recovery_attempts_spec() + 1) as u32
                } else {
                    old(self).recovery_attempts_spec()
                })
                &&& final(self).metrics_spec() == (HealthMetrics {
                    check_runs: old(self).metrics_spec().check_runs.wrapping_add(1),
                    ..old(self).metrics_spec()
                })
                &&& final(self).config_spec() == old(self).config_spec()
            }),
    {
        let snapshot = self.metrics.snapshot();
        self.metrics.check_runs = self.metrics.check_runs.wrapping_add(1);
        let new_status = evaluate_health(&self.config, &snapshot, since_last_check_ms);
        let mut recover = false;
        if new_status != self.status {
            self.status = new_status;
            if new_status == EbpfHealthStatus::Unhealthy && self.config.auto_recover && self.recovery_attempts < 3 {
                self.recovery_attempts = self.recovery_attempts + 1;
                recover = true;
            }
        }
        if new_status == EbpfHealthStatus::Healthy {
            self.recovery_attempts = 0;
        }
        recover
    }

    /// Manually trigger recovery: the status is reset to healthy.
    pub fn trigger_recovery(&mut self) -> (r: Result<(), HealthCheckError>)
        ensures
            r is Ok,
            final(self).status_spec() == EbpfHealthStatus::Healthy,
            final(self).metrics_spec() == old(self).metrics_spec(),
            final(self).config_spec() == old(self).config_spec(),
            final(self).recovery_attempts_spec() == old(self).recovery_attempts_spec(),
    {
        self.status = EbpfHealthStatus::Healthy;
        Ok(())
    }

    /// Stop the health checker; the periodic checks end with their task.
    pub fn stop(&self) {
    }
}

/// No more than three recovery attempts are made in a row: however many
/// checks run, the count of attempts never passes three.
pub proof fn law_recovery_attempts_bounded(attempts: u32, s: EbpfHealthStatus, changed: bool, auto_recover: bool)
    requires
        attempts <= max_recovery_attempts(),
    ensures
        ({
            let recover = changed && s == EbpfHealthStatus::Unhealthy && auto_recover && attempts < max_recovery_attempts();
            let next = if s == EbpfHealthStatus::Healthy {
                0
            } else if recover {
                attempts + 1
            } else {
                attempts as int
            };
            next <= max_recovery_attempts()
        }),
{
}

/// While failures stay below the threshold, events keep arriving and at most
/// a tenth of them are dropped (or at most a hundred were seen), the
/// collector is healthy however long ago the last check was.
pub proof fn law_flowing_events_are_healthy(config: HealthCheckConfig, m: HealthMetricsSnapshot, since_last_check_ms: u64)
    requires
        m.consecutive_failures < config.failure_threshold,
        m.events_received > 0,
        m.events_received + m.events_dropped <= 100 || 10 * m.events_dropped <= m.events_received + m.events_dropped,
    ensures
        health_of(config, m, since_last_check_ms) == EbpfHealthStatus::Healthy,
{
}

/// Below the failure threshold, the collector is degraded when more than a
/// tenth of over a hundred events were dropped, and when nothing was
/// received for longer than the allowed gap while failures occurred.
pub proof fn law_degraded_conditions(config: HealthCheckConfig, m: HealthMetricsSnapshot, since_last_check_ms: u64)
    requires
        m.consecutive_failures < config.failure_threshold,
    ensures
        m.events_received + m.events_dropped > 100 && 10 * m.events_dropped > m.events_received + m.events_dropped
            ==> health_of(config, m, since_last_check_ms) == EbpfHealthStatus::Degraded,
        m.events_received == 0 && since_last_check_ms > config.max_event_gap_ms && m.consecutive_failures > 0
            ==> health_of(config, m, since_last_check_ms) == EbpfHealthStatus::Degraded,
        m.consecutive_failures == 0 && m.events_dropped == 0 ==> health_of(config, m, since_last_check_ms)
            == EbpfHealthStatus::Healthy,
{
}

/// The collector is unhealthy exactly when failures reach the threshold.
pub proof fn law_unhealthy_iff_failures_reach_threshold(config: HealthCheckConfig, m: HealthMetricsSnapshot, since_last_check_ms: u64)
    ensures
        (health_of(config, m, since_last_check_ms) == EbpfHealthStatus::Unhealthy) <==> m.consecutive_failures
            >= config.failure_threshold,
{
}

} // verus!
