//! Event bus policy: how events are spread over worker partitions, how a
//! partition worker batches them, the bus and backpressure configuration,
//! its metrics and publishing errors.
use std::collections::hash_map::DefaultHasher;
use std::hash::Hasher;
use vstd::prelude::*;
use crate::event::Event;
use vstd::std_specs::hash::DefaultHasherAdditionalSpecFns;

verus! {

/// Configuration for backpressure handling
#[derive(Debug, Clone)]
pub struct BackpressureConfig {
    /// Maximum events in queue before applying backpressure
    pub queue_depth: usize,
    /// Timeout in milliseconds when waiting for backpressure to clear
    pub backpressure_timeout_ms: u64,
    /// Whether to drop events when queue is full (or block)
    pub drop_on_full: bool,
}

impl Default for BackpressureConfig {
    fn default() -> (c: Self)
        ensures
            c.queue_depth == 10000,
            c.backpressure_timeout_ms == 5000,
            !c.drop_on_full,
    {
        BackpressureConfig { queue_depth: 10000, backpressure_timeout_ms: 5000, drop_on_full: false }
    }
}

/// Metrics for monitoring
#[derive(Debug, Default)]
pub struct Metrics {
    pub events_received: u64,
    pub events_processed: u64,
    pub events_dropped: u64,
    pub backpressure_count: u64,
}

/// Partition strategy for distributing events across workers
#[derive(Debug, Clone, Copy, PartialEq, Eq)]
pub enum PartitionStrategy {
    /// Partition by entity key only (simple modulo)
    EntityKey,
    /// Partition by event type only
    EventType,
    /// Combined: event type first, then entity key within each type group
    Combined,
    /// Consistent hashing for better distribution
    ConsistentHash,
}

impl Default for PartitionStrategy {
    fn default() -> (s: Self)
        ensures
            s == PartitionStrategy::EntityKey,
    {
        PartitionStrategy::EntityKey
    }
}

/// The `n` lowest bytes of `v`, least significant first.
pub open spec fn le_seq(v: nat, n: nat) -> Seq<u8>
    decreases n,
{
    if n == 0 {
        Seq::empty()
    } else {
        seq![(v % 256) as u8] + le_seq(v / 256, (n - 1) as nat)
    }
}

/// The `n` lowest bytes of `v`, least significant first.
fn le_bytes(v: u128, n: usize) -> (r: Vec<u8>)
    ensures
        r@ == le_seq(v as nat, n as nat),
{
    let mut out: Vec<u8> = Vec::new();
    let mut x: u128 = v;
    let mut i: usize = 0;
    while i < n
        invariant
            i <= n,
            out@ + le_seq(x as nat, (n - i) as nat) == le_seq(v as nat, n as nat),
        decreases n - i,
    {
        let ghost rest = le_seq(x as nat, (n - i) as nat);
        let b = (x % 256) as u8;
        out.push(b);
        assert(rest == seq![b] + le_seq((x / 256) as nat, (n - i - 1) as nat));
        assert(out@ + le_seq((x / 256) as nat, (n - i - 1) as nat) =~= out@.drop_last() + rest);
        x = x / 256;
        i = i + 1;
    }
    assert(le_seq(x as nat, 0) =~= Seq::<u8>::empty());
    assert(out@ + le_seq(x as nat, 0) =~= out@);
    out
}

/// The hash of an event's entity key and type: the key's 16 bytes, then the
/// type's 2 bytes, each least significant first, written in turn into a
/// fresh `DefaultHasher`.
pub open spec fn event_hash(event_type_id: u16, entity_key: u128) -> u64 {
    DefaultHasher::spec_finish(seq![le_seq(entity_key as nat, 16), le_seq(event_type_id as nat, 2)])
}

/// The partition an event with the given type and entity goes to under a
/// strategy, among `count` partitions.
pub open spec fn partition_of(strategy: PartitionStrategy, event_type_id: u16, entity_key: u128, count: usize) -> usize {
    if count == 1 {
        0
    } else {
        match strategy {
            PartitionStrategy::EntityKey => (entity_key % (count as u128)) as usize,
            PartitionStrategy::EventType => ((event_type_id as usize) % count) as usize,
            PartitionStrategy::Combined => ((((event_type_id as u128) << 64u128) | entity_key) % (count as u128)) as usize,
            PartitionStrategy::ConsistentHash => ((event_hash(event_type_id, entity_key) as usize) % count) as usize,
        }
    }
}

/// Partitioner: picks the worker partition of an event.
pub trait Partitioner {
    /// Get partition index for an event.
    fn partition(&self, event: &Event, partition_count: usize) -> (p: usize)
        requires
            partition_count > 0,
        ensures
            p < partition_count,
    ;
}

/// Default partitioner using the configured strategy
pub struct DefaultPartitioner {
    strategy: PartitionStrategy,
}

impl DefaultPartitioner {
    /// A partitioner with the given strategy.
    pub fn new(strategy: PartitionStrategy) -> (p: Self)
        ensures
            p.strategy_spec() == strategy,
    {
        DefaultPartitioner { strategy }
    }

    /// The partitioner's strategy.
    pub closed spec fn strategy_spec(&self) -> PartitionStrategy {
        self.strategy
    }
}

impl Partitioner for DefaultPartitioner {
    fn partition(&self, event: &Event, partition_count: usize) -> (p: usize)
        ensures
            p == partition_of(self.strategy_spec(), event.event_type_id, event.entity_key, partition_count),
    {
        let event_type_id = event.event_type_id;
        let entity_key = event.entity_key;
        if partition_count == 1 {
            return 0;
        }
        match self.strategy {
            PartitionStrategy::EntityKey => (entity_key % partition_count as u128) as usize,
            PartitionStrategy::EventType => (event_type_id as usize) % partition_count,
            PartitionStrategy::Combined => {
                let combined = ((event_type_id as u128) << 64u128) | entity_key;
                (combined % partition_count as u128) as usize
            },
            PartitionStrategy::ConsistentHash => {
                let mut hasher = DefaultHasher::new();
                let key_bytes = le_bytes(entity_key, 16);
                hasher.write(key_bytes.as_slice());
                let type_bytes = le_bytes(event_type_id as u128, 2);
                hasher.write(type_bytes.as_slice());
                assert(hasher@ =~= seq![le_seq(entity_key as nat, 16), le_seq(event_type_id as nat, 2)]);
                let hash = std::hash::Hasher::finish(&hasher);
                (hash as usize) % partition_count
            },
        }
    }
}

/// Every strategy sends an event to one of the partitions there are.
pub proof fn law_partition_in_range(s: PartitionStrategy, t: u16, k: u128, count: usize)
    requires
        count > 0,
    ensures
        partition_of(s, t, k, count) < count,
{
}

/// Event bus configuration
#[derive(Debug, Clone)]
pub struct EventBusConfig {
    /// Channel buffer size per partition
    pub channel_size: usize,
    /// Batch size for worker delivery
    pub batch_size: usize,
    /// Number of worker partitions
    pub partitions: usize,
    /// Backpressure configuration
    pub backpressure: BackpressureConfig,
    /// Partition strategy
    pub partition_strategy: PartitionStrategy,
    /// Batch timeout - maximum time to wait before sending a partial batch
    pub batch_timeout_ms: u64,
}

impl Default for EventBusConfig {
    fn default() -> (c: Self)
        ensures
            c.channel_size == 10000,
            c.batch_size == 100,
            c.partitions == 4,
            c.backpressure.queue_depth == 10000,
            c.backpressure.backpressure_timeout_ms == 5000,
            !c.backpressure.drop_on_full,
            c.partition_strategy == PartitionStrategy::EntityKey,
            c.batch_timeout_ms == 100,
    {
        EventBusConfig {
            channel_size: 10000,
            batch_size: 100,
            partitions: 4,
            backpressure: BackpressureConfig::default(),
            partition_strategy: PartitionStrategy::default(),
            batch_timeout_ms: 100,
        }
    }
}

impl EventBusConfig {
    /// The number of partitions a bus with this configuration runs: the
    /// configured number, but at least one.
    pub fn partition_count(&self) -> (n: usize)
        ensures
            n == (if self.partitions > 1 { self.partitions } else { 1 }),
            n >= 1,
    {
        if self.partitions > 1 {
            self.partitions
        } else {
            1
        }
    }
}

/// What a bus worker does with its pending batch: send it when it is full
/// or when it waited as long as the batch timeout, else keep collecting.
pub open spec fn should_flush(batch_len: usize, batch_size: usize, since_last_send_ms: u64, batch_timeout_ms: u64) -> bool {
    batch_len > 0 && (batch_len >= batch_size || since_last_send_ms >= batch_timeout_ms)
}

/// Whether a bus worker sends its pending batch now.
pub fn flush_due(batch_len: usize, batch_size: usize, since_last_send_ms: u64, batch_timeout_ms: u64) -> (r: bool)
    ensures
        r == should_flush(batch_len, batch_size, since_last_send_ms, batch_timeout_ms),
{
    batch_len > 0 && (batch_len >= batch_size || since_last_send_ms >= batch_timeout_ms)
}

/// How long a bus worker waits for more events before checking its batch
/// again: what is left of the batch timeout while a pending batch has not
/// waited that long, else the whole timeout (a batch that has waited that
/// long is sent first, which restarts the wait).
pub fn timeout_remaining_ms(batch_len: usize, since_last_send_ms: u64, batch_timeout_ms: u64) -> (r: u64)
    ensures
        r == (if batch_len > 0 && since_last_send_ms < batch_timeout_ms {
            (batch_timeout_ms - since_last_send_ms) as u64
        } else {
            batch_timeout_ms
        }),
        r <= batch_timeout_ms,
{
    if batch_len > 0 && since_last_send_ms < batch_timeout_ms {
        batch_timeout_ms - since_last_send_ms
    } else {
        batch_timeout_ms
    }
}

/// Event bus metrics
#[derive(Debug, Default)]
pub struct EventBusMetrics {
    pub events_received: u64,
    pub events_processed: u64,
    pub events_dropped: u64,
    pub backpressure_count: u64,
}

impl EventBusMetrics {
    /// Get a snapshot of the metrics.
    pub fn snapshot(&self) -> (s: EventBusMetricsSnapshot)
        ensures
            s.events_received == self.events_received,
            s.events_processed == self.events_processed,
            s.events_dropped == self.events_dropped,
            s.backpressure_count == self.backpressure_count,
    {
        EventBusMetricsSnapshot {
            events_received: self.events_received,
            events_processed: self.events_processed,
            events_dropped: self.events_dropped,
            backpressure_count: self.backpressure_count,
        }
    }
}

/// What became of one attempt to hand an event to its partition's queue.
#[derive(Debug, Clone, Copy, PartialEq, Eq, Structural)]
pub enum SendOutcome {
    /// The event was queued.
    Sent,
    /// The queue was full (non-blocking sends only).
    Full,
    /// The queue was closed.
    Closed,
    /// Waiting for room timed out (sends with backpressure only).
    TimedOut,
}

impl EventBusMetrics {
    /// Count the outcome of publishing one event and report it: a queued
    /// event is received; any other outcome drops the event, except a
    /// backpressure timeout, which is counted only as backpressure.
    pub fn record_publish(&mut self, outcome: SendOutcome) -> (r: Result<(), PublishError>)
        ensures
            match outcome {
                SendOutcome::Sent => r is Ok && *final(self) == (EventBusMetrics {
                    events_received: old(self).events_received.wrapping_add(1),
                    ..*old(self)
                }),
                SendOutcome::Full => r matches Err(PublishError::Full) && *final(self) == (EventBusMetrics {
                    events_dropped: old(self).events_dropped.wrapping_add(1),
                    ..*old(self)
                }),
                SendOutcome::Closed => r matches Err(PublishError::Closed) && *final(self) == (EventBusMetrics {
                    events_dropped: old(self).events_dropped.wrapping_add(1),
                    ..*old(self)
                }),
                SendOutcome::TimedOut => r matches Err(PublishError::BackpressureTimeout) && *final(self) == *old(self),
            },
    {
        match outcome {
            SendOutcome::Sent => {
                self.events_received = self.events_received.wrapping_add(1);
                Ok(())
            },
            SendOutcome::Full => {
                self.events_dropped = self.events_dropped.wrapping_add(1);
                Err(PublishError::Full)
            },
            SendOutcome::Closed => {
                self.events_dropped = self.events_dropped.wrapping_add(1);
                Err(PublishError::Closed)
            },
            SendOutcome::TimedOut => Err(PublishError::BackpressureTimeout),
        }
    }

    /// Count a publish that found its queue without room and had to wait.
    pub fn record_backpressure(&mut self)
        ensures
            *final(self) == (EventBusMetrics {
                backpressure_count: old(self).backpressure_count.wrapping_add(1),
                ..*old(self)
            }),
    {
        self.backpressure_count = self.backpressure_count.wrapping_add(1);
    }

    /// Count the events of a batch delivered by a worker.
    pub fn record_processed(&mut self, batch_len: usize)
        ensures
            *final(self) == (EventBusMetrics {
                events_processed: old(self).events_processed.wrapping_add(batch_len as u64),
                ..*old(self)
            }),
    {
        self.events_processed = self.events_processed.wrapping_add(batch_len as u64);
    }
}

/// Snapshot of event bus metrics
#[derive(Debug, Clone)]
pub struct EventBusMetricsSnapshot {
    pub events_received: u64,
    pub events_processed: u64,
    pub events_dropped: u64,
    pub backpressure_count: u64,
}

/// Error publishing an event
#[derive(Debug)]
pub enum PublishError {
    Closed,
    Full,
    BackpressureTimeout,
}

/// The message of each publishing error.
pub open spec fn publish_error_message(e: PublishError) -> Seq<char> {
    match e {
        PublishError::Closed => "Event bus is closed"@,
        PublishError::Full => "Event bus is full"@,
        PublishError::BackpressureTimeout => "Backpressure timeout"@,
    }
}

impl PublishError {
    /// The error's message.
    pub fn to_string(&self) -> (r: String)
        ensures
            r@ == publish_error_message(*self),
    {
        match self {
            PublishError::Closed => "Event bus is closed".to_owned(),
            PublishError::Full => "Event bus is full".to_owned(),
            PublishError::BackpressureTimeout => "Backpressure timeout".to_owned(),
        }
    }
}

/// Milliseconds from `last` to `now`, or none when `now` is earlier.
pub open spec fn elapsed_since(last: u64, now: u64) -> u64 {
    if now >= last {
        (now - last) as u64
    } else {
        0
    }
}

/// How long a worker waits with `pending` events: what is left of the
/// timeout, or the whole timeout when nothing is pending.
pub open spec fn wait_time(pending: nat, timeout: u64, elapsed: u64) -> u64 {
    if pending > 0 {
        (timeout - elapsed) as u64
    } else {
        timeout
    }
}

/// The events of a batch handed out, if any.
pub open spec fn batch_events(b: Option<Vec<Event>>) -> Seq<Event> {
    match b {
        Some(v) => v@,
        None => Seq::empty(),
    }
}

/// The events a worker step hands out.
pub open spec fn step_events(s: WorkerStep) -> Seq<Event> {
    match s {
        WorkerStep::Stop { remaining } => batch_events(remaining),
        WorkerStep::Deliver { batch, .. } => batch@,
        WorkerStep::Wait { .. } => Seq::empty(),
    }
}

/// What a partition worker does next.
#[derive(Debug)]
pub enum WorkerStep {
    /// Stop; the pending batch, if there is one, is delivered first.
    Stop { remaining: Option<Vec<Event>> },
    /// Deliver this batch, which waited as long as the batch timeout, then
    /// wait for events for at most `then_wait_ms`.
    Deliver { batch: Vec<Event>, then_wait_ms: u64 },
    /// Wait for events for at most `timeout_ms`.
    Wait { timeout_ms: u64 },
}

/// The batch a partition worker collects for the sink.
pub struct PartitionBatcher {
    batch: Vec<Event>,
    batch_size: usize,
    batch_timeout_ms: u64,
    last_send_ms: u64,
}

impl PartitionBatcher {
    /// The events collected and not yet delivered.
    pub closed spec fn pending(&self) -> Seq<Event> {
        self.batch@
    }

    /// When the last batch left, in milliseconds.
    pub closed spec fn last_send(&self) -> u64 {
        self.last_send_ms
    }

    /// How many events make a full batch.
    pub closed spec fn size(&self) -> usize {
        self.batch_size
    }

    /// How long a batch may wait, in milliseconds.
    pub closed spec fn timeout(&self) -> u64 {
        self.batch_timeout_ms
    }

    /// An empty batch whose wait starts at `now_ms`.
    pub fn new(batch_size: usize, batch_timeout_ms: u64, now_ms: u64) -> (b: Self)
        ensures
            b.pending().len() == 0,
            b.size() == batch_size,
            b.timeout() == batch_timeout_ms,
            b.last_send() == now_ms,
    {
        PartitionBatcher { batch: Vec::new(), batch_size, batch_timeout_ms, last_send_ms: now_ms }
    }

    /// Hands out the pending batch and starts an empty one.
    fn take_batch(&mut self) -> (r: Vec<Event>)
        ensures
            r@ == old(self).pending(),
            final(self).pending().len() == 0,
            final(self).last_send() == old(self).last_send(),
            final(self).size() == old(self).size(),
            final(self).timeout() == old(self).timeout(),
    {
        let mut out: Vec<Event> = Vec::new();
        std::mem::swap(&mut out, &mut self.batch);
        out
    }

    /// The worker's next step at time `now_ms`: stop on shutdown, handing
    /// out what is pending; deliver a pending batch that waited as long as
    /// the batch timeout and restart the wait; else wait for what is left
    /// of the timeout.
    pub fn poll(&mut self, shutdown: bool, now_ms: u64) -> (r: WorkerStep)
        ensures
            step_events(r) + final(self).pending() == old(self).pending(),
            final(self).size() == old(self).size(),
            final(self).timeout() == old(self).timeout(),
            shutdown ==> final(self).pending().len() == 0 && final(self).last_send() == old(
                self,
            ).last_send() && match r {
                WorkerStep::Stop { remaining } => if old(self).pending().len() == 0 {
                    remaining is None
                } else {
                    remaining matches Some(b) && b@ == old(self).pending()
                },
                _ => false,
            },
            !shutdown && old(self).pending().len() > 0 && elapsed_since(old(self).last_send(), now_ms)
                >= old(self).timeout() ==> final(self).pending().len() == 0 && final(self).last_send() == now_ms
                && (r matches WorkerStep::Deliver { batch, then_wait_ms } && batch@ == old(
                self,
            ).pending() && then_wait_ms == old(self).timeout()),
            !shutdown && !(old(self).pending().len() > 0 && elapsed_since(old(self).last_send(), now_ms)
                >= old(self).timeout()) ==> (final(self).pending() == old(self).pending()
                && final(self).last_send() == old(self).last_send() && (r matches WorkerStep::Wait {
                timeout_ms,
            } && timeout_ms == wait_time(
                old(self).pending().len(),
                old(self).timeout(),
                elapsed_since(old(self).last_send(), now_ms),
            ))),
    {
        if shutdown {
            return WorkerStep::Stop { remaining: self.finish() };
        }
        let elapsed: u64 = if now_ms >= self.last_send_ms {
            now_ms - self.last_send_ms
        } else {
            0
        };
        if self.batch.len() > 0 && elapsed >= self.batch_timeout_ms {
            let batch = self.take_batch();
            self.last_send_ms = now_ms;
            WorkerStep::Deliver { batch, then_wait_ms: self.batch_timeout_ms }
        } else {
            WorkerStep::Wait { timeout_ms: timeout_remaining_ms(self.batch.len(), elapsed, self.batch_timeout_ms) }
        }
    }

    /// Adds received events to the batch; a batch that is now full is handed
    /// out for delivery.
    pub fn receive(&mut self, events: Vec<Event>) -> (r: Option<Vec<Event>>)
        ensures
            final(self).size() == old(self).size(),
            final(self).timeout() == old(self).timeout(),
            final(self).last_send() == old(self).last_send(),
            old(self).pending().len() + events@.len() >= old(self).size() ==> (r matches Some(b)
                && b@ == old(self).pending() + events@ && final(self).pending().len() == 0),
            old(self).pending().len() + events@.len() < old(self).size() ==> r is None
                && final(self).pending() == old(self).pending() + events@,
            batch_events(r) + final(self).pending() == old(self).pending() + events@,
    {
        let mut events = events;
        let ghost before = self.batch@;
        let ghost incoming = events@;
        let mut batch: Vec<Event> = Vec::new();
        std::mem::swap(&mut batch, &mut self.batch);
        batch.append(&mut events);
        assert(batch@ == before + incoming);
        if batch.len() >= self.batch_size {
            Some(batch)
        } else {
            self.batch = batch;
            None
        }
    }

    /// Records the outcome of delivering a full batch at `now_ms`: the wait
    /// restarts only when the sink took it.
    pub fn delivered(&mut self, accepted: bool, now_ms: u64)
        ensures
            final(self).pending() == old(self).pending(),
            final(self).size() == old(self).size(),
            final(self).timeout() == old(self).timeout(),
            final(self).last_send() == if accepted { now_ms } else { old(self).last_send() },
    {
        if accepted {
            self.last_send_ms = now_ms;
        }
    }

    /// The events left when the worker stops: the pending batch, if any.
    pub fn finish(&mut self) -> (r: Option<Vec<Event>>)
        ensures
            final(self).pending().len() == 0,
            final(self).size() == old(self).size(),
            final(self).timeout() == old(self).timeout(),
            final(self).last_send() == old(self).last_send(),
            old(self).pending().len() == 0 ==> r is None,
            old(self).pending().len() > 0 ==> (r matches Some(b) && b@ == old(self).pending()),
            batch_events(r) == old(self).pending(),
    {
        if self.batch.len() == 0 {
            None
        } else {
            Some(self.take_batch())
        }
    }
}

} // verus!
