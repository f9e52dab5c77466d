//! Controllable time sources for testing and replay: the system clock, or a
//! mock clock whose readings are set and advanced by hand and shared by all
//! its clones.
use std::sync::atomic::AtomicU64;
use std::sync::Arc;
use std::time::Duration;
use vstd::prelude::*;

verus! {

/// Time provider: a source of monotonic and wall-clock readings.
pub trait TimeProvider {
    /// Get current monotonic timestamp in nanoseconds
    fn mono_ns(&self) -> u64;

    /// Get current wall clock timestamp in nanoseconds
    fn wall_ns(&self) -> u64;

    /// Advance time by a duration (for mock time); does nothing by default.
    fn advance(&self, duration: Duration) {
    }

    /// Set absolute time (for mock time); does nothing by default.
    fn set_time(&self, mono_ns: u64, wall_ns: u64) {
    }
}

/// Real time provider using the system clock
#[derive(Debug, Clone)]
pub struct RealTimeProvider;

impl TimeProvider for RealTimeProvider {
    /// Nanoseconds since the Unix epoch, standing in for a monotonic reading.
    fn mono_ns(&self) -> u64 {
        crate::clock::wall_clock_ns()
    }

    /// Nanoseconds since the Unix epoch.
    fn wall_ns(&self) -> u64 {
        crate::clock::wall_clock_ns()
    }
}

/// Wraps `std::time::Duration::as_nanos`, cut to 64 bits: the length of a
/// duration in nanoseconds. Nothing is stated of it, since a duration is
/// opaque here.
#[verifier::external_body]
fn duration_nanos(d: Duration) -> u64 {
    d.as_nanos() as u64
}

/// Mock time provider for testing and replay: its readings change only when
/// set or advanced, and all its clones share them.
#[derive(Debug, Clone)]
pub struct MockTimeProvider {
    mono: Arc<AtomicU64>,
    wall: Arc<AtomicU64>,
}

impl MockTimeProvider {
    /// A mock clock starting at zero.
    pub fn new() -> Self {
        Self::with_values(0, 0)
    }

    /// A mock clock starting at the given readings.
    pub fn with_values(mono_ns: u64, wall_ns: u64) -> Self {
        MockTimeProvider { mono: Arc::new(AtomicU64::new(mono_ns)), wall: Arc::new(AtomicU64::new(wall_ns)) }
    }

    /// Get the current monotonic time value
    pub fn get_mono(&self) -> u64 {
        self.mono.load(std::sync::atomic::Ordering::SeqCst)
    }

    /// Get the current wall clock time value
    pub fn get_wall(&self) -> u64 {
        self.wall.load(std::sync::atomic::Ordering::SeqCst)
    }
}

impl Default for MockTimeProvider {
    fn default() -> Self {
        Self::new()
    }
}

impl TimeProvider for MockTimeProvider {
    /// The current monotonic reading.
    fn mono_ns(&self) -> u64 {
        self.mono.load(std::sync::atomic::Ordering::SeqCst)
    }

    /// The current wall-clock reading.
    fn wall_ns(&self) -> u64 {
        self.wall.load(std::sync::atomic::Ordering::SeqCst)
    }

    /// Move both readings forward by the duration.
    fn advance(&self, duration: Duration) {
        let delta = duration_nanos(duration);
        self.mono.fetch_add(delta, std::sync::atomic::Ordering::SeqCst);
        self.wall.fetch_add(delta, std::sync::atomic::Ordering::SeqCst);
    }

    /// Set both readings.
    fn set_time(&self, mono_ns: u64, wall_ns: u64) {
        self.mono.store(mono_ns, std::sync::atomic::Ordering::SeqCst);
        self.wall.store(wall_ns, std::sync::atomic::Ordering::SeqCst);
    }
}

/// The time source a manager reads: the system clock or a mock clock.
#[derive(Debug, Clone)]
pub enum TimeSource {
    Real(RealTimeProvider),
    Mock(MockTimeProvider),
}

impl TimeProvider for TimeSource {
    fn mono_ns(&self) -> u64 {
        match self {
            TimeSource::Real(p) => p.mono_ns(),
            TimeSource::Mock(p) => p.mono_ns(),
        }
    }

    fn wall_ns(&self) -> u64 {
        match self {
            TimeSource::Real(p) => p.wall_ns(),
            TimeSource::Mock(p) => p.wall_ns(),
        }
    }

    fn advance(&self, duration: Duration) {
        match self {
            TimeSource::Real(p) => p.advance(duration),
            TimeSource::Mock(p) => p.advance(duration),
        }
    }

    fn set_time(&self, mono_ns: u64, wall_ns: u64) {
        match self {
            TimeSource::Real(p) => p.set_time(mono_ns, wall_ns),
            TimeSource::Mock(p) => p.set_time(mono_ns, wall_ns),
        }
    }
}

/// Time manager: switches between real and mock time; clones share the
/// same source.
#[derive(Debug, Clone)]
pub struct TimeManager {
    provider: TimeSource,
}

impl TimeManager {
    /// Whether the manager reads a mock clock.
    pub closed spec fn is_mock(&self) -> bool {
        self.provider is Mock
    }

    /// A manager reading the system clock.
    pub fn system_clock() -> (m: Self)
        ensures
            !m.is_mock(),
    {
        TimeManager { provider: TimeSource::Real(RealTimeProvider) }
    }

    /// A manager reading a new mock clock at zero.
    pub fn mock() -> (m: Self)
        ensures
            m.is_mock(),
    {
        TimeManager { provider: TimeSource::Mock(MockTimeProvider::new()) }
    }

    /// A manager reading the given mock clock.
    pub fn with_mock(mock: MockTimeProvider) -> (m: Self)
        ensures
            m.is_mock(),
    {
        TimeManager { provider: TimeSource::Mock(mock) }
    }

    /// Get current monotonic timestamp in nanoseconds
    pub fn mono_ns(&self) -> u64 {
        self.provider.mono_ns()
    }

    /// Get current wall clock timestamp in nanoseconds
    pub fn wall_ns(&self) -> u64 {
        self.provider.wall_ns()
    }

    /// The time source the manager reads.
    pub fn provider(&self) -> (p: &TimeSource)
        ensures
            p is Mock <==> self.is_mock(),
    {
        &self.provider
    }
}

} // verus!
