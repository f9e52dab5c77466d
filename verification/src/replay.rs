//! Offline replay: the binary log header, replay errors and statistics.
use vstd::prelude::*;
use vstd::string::*;

verus! {

/// Replay error types
#[derive(Debug)]
pub enum ReplayError {
    Io(std::io::Error),
    Serialization(String),
    InvalidFormat(String),
    SchemaMismatch(String),
    PublishError(String),
}

/// The message of each replay error but an I/O error.
pub open spec fn replay_error_message(e: ReplayError) -> Seq<char> {
    match e {
        ReplayError::Io(_) => "IO error: "@,
        ReplayError::Serialization(m) => "Serialization error: "@ + m@,
        ReplayError::InvalidFormat(m) => "Invalid log format: "@ + m@,
        ReplayError::SchemaMismatch(m) => "Schema mismatch: "@ + m@,
        ReplayError::PublishError(m) => "Publish error: "@ + m@,
    }
}

impl ReplayError {
    /// The error's message; an I/O error's message continues with the
    /// operating system's text.
    pub fn to_string(&self) -> (r: String)
        ensures
            self is Io ==> r@.subrange(0, 10) == replay_error_message(*self),
            !(self is Io) ==> r@ == replay_error_message(*self),
    {
        let (prefix, m) = match self {
            ReplayError::Io(e) => {
                let mut s = "IO error: ".to_owned();
                let t = crate::platform::io_error_text(e);
                s.append(t.as_str());
                proof {
                    reveal_strlit("IO error: ");
                }
                assert(s@.subrange(0, 10) =~= "IO error: "@);
                return s;
            },
            ReplayError::Serialization(m) => ("Serialization error: ", m),
            ReplayError::InvalidFormat(m) => ("Invalid log format: ", m),
            ReplayError::SchemaMismatch(m) => ("Schema mismatch: ", m),
            ReplayError::PublishError(m) => ("Publish error: ", m),
        };
        let mut s = prefix.to_owned();
        s.append(m.as_str());
        s
    }
}

/// The magic bytes a replay log starts with: `KEST`.
pub const LOG_MAGIC: [u8; 4] = [75u8, 69u8, 83u8, 84u8];

/// The log format version written now.
pub const LOG_CURRENT_VERSION: u32 = 1;

/// The engine build written into new logs: this library's version.
pub const ENGINE_BUILD_ID: &'static str = "0.1.0";

/// Binary log header
#[derive(Debug, Clone)]
pub struct LogHeader {
    /// Magic bytes for validation
    pub magic: [u8; 4],
    /// Format version
    pub version: u32,
    /// Schema version (for compatibility)
    pub schema_version: u32,
    /// Engine build ID (for reproducibility)
    pub engine_build_id: String,
    /// Number of events in log
    pub event_count: u64,
    /// Start timestamp (monotonic)
    pub start_ts_mono_ns: u64,
    /// End timestamp (monotonic)
    pub end_ts_mono_ns: u64,
}

/// A header is valid when it carries the magic bytes and a version no newer
/// than the current one.
pub open spec fn header_valid(h: LogHeader) -> bool {
    h.magic@ == seq![75u8, 69u8, 83u8, 84u8] && h.version <= 1
}

impl LogHeader {
    /// A header for a log of `event_count` events between the given times,
    /// in the current format.
    pub fn new(event_count: u64, start_ts: u64, end_ts: u64) -> (h: Self)
        ensures
            h.magic@ == seq![75u8, 69u8, 83u8, 84u8],
            h.version == 1,
            h.schema_version == 1,
            h.event_count == event_count,
            h.start_ts_mono_ns == start_ts,
            h.end_ts_mono_ns == end_ts,
            header_valid(h),
    {
        let h = LogHeader {
            magic: [75u8, 69u8, 83u8, 84u8],
            version: LOG_CURRENT_VERSION,
            schema_version: 1,
            engine_build_id: ENGINE_BUILD_ID.to_owned(),
            event_count,
            start_ts_mono_ns: start_ts,
            end_ts_mono_ns: end_ts,
        };
        assert(h.magic@ =~= seq![75u8, 69u8, 83u8, 84u8]);
        h
    }

    /// Whether the header carries the magic bytes and a supported version.
    pub fn is_valid(&self) -> (r: bool)
        ensures
            r == header_valid(*self),
    {
        let ok = self.magic[0] == 75 && self.magic[1] == 69 && self.magic[2] == 83 && self.magic[3] == 84;
        assert(ok == (self.magic@ =~= seq![75u8, 69u8, 83u8, 84u8]));
        ok && self.version <= LOG_CURRENT_VERSION
    }
}

/// Replay statistics
#[derive(Debug, Clone)]
pub struct ReplayStats {
    pub events_processed: u64,
    pub current_ts_mono_ns: u64,
    pub current_ts_wall_ns: u64,
}

/// The header written for a log of events with the given monotonic
/// timestamps, in log order: their count and the first and last timestamps
/// (all zero for an empty log).
pub fn header_for_events(ts_mono: &[u64]) -> (h: LogHeader)
    ensures
        header_valid(h),
        h.event_count == ts_mono@.len(),
        h.start_ts_mono_ns == (if ts_mono@.len() == 0 { 0 } else { ts_mono@[0] }),
        h.end_ts_mono_ns == (if ts_mono@.len() == 0 { 0 } else { ts_mono@.last() }),
{
    let n = ts_mono.len();
    if n == 0 {
        LogHeader::new(0, 0, 0)
    } else {
        LogHeader::new(n as u64, ts_mono[0], ts_mono[n - 1])
    }
}

/// Checks the header read from a log: a header without the magic bytes or
/// with a newer version is an invalid format.
pub fn check_header(h: &LogHeader) -> (r: Result<(), ReplayError>)
    ensures
        r is Ok <==> header_valid(*h),
        r matches Err(e) ==> e matches ReplayError::InvalidFormat(m) && m@ == "Invalid magic bytes or version"@,
{
    if h.is_valid() {
        Ok(())
    } else {
        Err(ReplayError::InvalidFormat("Invalid magic bytes or version".to_owned()))
    }
}

/// The order in which replay delivers events: by monotonic time, then by
/// event id, then by position in the log.
pub open spec fn replay_key_le(a: (u64, u64, usize), b: (u64, u64, usize)) -> bool {
    a.0 < b.0 || (a.0 == b.0 && (a.1 < b.1 || (a.1 == b.1 && a.2 <= b.2)))
}

/// `s` is in replay order.
pub open spec fn replay_sorted(s: Seq<(u64, u64, usize)>) -> bool {
    forall|i: int, j: int| 0 <= i <= j < s.len() ==> replay_key_le(s[i], s[j])
}

/// The replay keys of logged events given as (monotonic time, event id):
/// each with its position in the log.
pub open spec fn replay_keys(events: Seq<(u64, u64)>) -> Seq<(u64, u64, usize)> {
    Seq::new(events.len(), |i: int| (events[i].0, events[i].1, i as usize))
}

/// How many of the keys carry no event id (id 0).
pub open spec fn unassigned(s: Seq<(u64, u64, usize)>) -> nat
    decreases s.len(),
{
    if s.len() == 0 {
        0
    } else {
        unassigned(s.drop_last()) + if s.last().1 == 0 { 1nat } else { 0nat }
    }
}

/// The id the `k`-th delivered event is published under: its own id, or,
/// when it has none, the next id to hand out after those given to the
/// events without one before it.
pub open spec fn published_id(s: Seq<(u64, u64, usize)>, k: int, next_event_id: u64) -> u64 {
    if s[k].1 != 0 {
        s[k].1
    } else {
        (next_event_id + unassigned(s.take(k))) as u64
    }
}

/// Wraps `slice::sort` on (time, id, position) triples. As the std
/// documentation states, the triples afterwards are the same ones in
/// ascending order; tuples compare field by field, left to right.
#[verifier::external_body]
fn sort_replay_keys(keys: &mut Vec<(u64, u64, usize)>)
    ensures
        final(keys)@.to_multiset() == old(keys)@.to_multiset(),
        replay_sorted(final(keys)@),
{
    keys.sort();
}

proof fn lemma_unassigned_bound(s: Seq<(u64, u64, usize)>)
    ensures
        unassigned(s) <= s.len(),
    decreases s.len(),
{
    if s.len() > 0 {
        lemma_unassigned_bound(s.drop_last());
    }
}

/// The schedule of a deterministic replay of logged events, given as
/// (monotonic time, event id) in log order: the position in the log of each
/// event in delivery order, which is sorted by time, then id, then position,
/// with the id it is published under (events without one get fresh ids from
/// `next_event_id` on, in delivery order); and the next id to hand out
/// afterwards.
pub fn replay_schedule(events: &[(u64, u64)], next_event_id: u64) -> (r: (Vec<(usize, u64)>, u64))
    requires
        next_event_id + events@.len() <= u64::MAX,
    ensures
        ({
            let s = r.0@.map_values(|x: (usize, u64)| (events@[x.0 as int].0, events@[x.0 as int].1, x.0));
            &&& r.0@.len() == events@.len()
            &&& forall|k: int| 0 <= k < r.0@.len() ==> #[trigger] r.0@[k].0 < events@.len()
            &&& s.to_multiset() == replay_keys(events@).to_multiset()
            &&& replay_sorted(s)
            &&& forall|k: int| 0 <= k < r.0@.len() ==> #[trigger] r.0@[k].1 == published_id(s, k, next_event_id)
            &&& r.1 == next_event_id + unassigned(s)
        }),
{
    let n = events.len();
    let mut keys: Vec<(u64, u64, usize)> = Vec::new();
    let mut i: usize = 0;
    while i < n
        invariant
            n == events@.len(),
            i <= n,
            keys@ == replay_keys(events@).take(i as int),
        decreases n - i,
    {
        keys.push((events[i].0, events[i].1, i));
        assert(keys@ =~= replay_keys(events@).take(i + 1));
        i = i + 1;
    }
    assert(keys@ =~= replay_keys(events@));
    let ghost unsorted = keys@;
    sort_replay_keys(&mut keys);
    proof {
        unsorted.to_multiset_ensures();
        keys@.to_multiset_ensures();
        assert forall|k: int| 0 <= k < keys@.len() implies #[trigger] keys@[k].2 < n && keys@[k].0 == events@[keys@[k].2 as int].0
            && keys@[k].1 == events@[keys@[k].2 as int].1 by {
            assert(keys@.contains(keys@[k]));
            assert(keys@.to_multiset().count(keys@[k]) > 0);
            assert(unsorted.contains(keys@[k]));
            let j = choose|j: int| 0 <= j < unsorted.len() && unsorted[j] == keys@[k];
            assert(unsorted[j] == replay_keys(events@)[j]);
        }
        assert(keys@.len() == n);
    }
    let mut out: Vec<(usize, u64)> = Vec::new();
    let mut next = next_event_id;
    let mut k: usize = 0;
    while k < n
        invariant
            n == events@.len(),
            n == keys@.len(),
            next_event_id + n <= u64::MAX,
            k <= n,
            forall|j: int| 0 <= j < n ==> #[trigger] keys@[j].2 < n && keys@[j].0 == events@[keys@[j].2 as int].0
                && keys@[j].1 == events@[keys@[j].2 as int].1,
            out@.len() == k,
            forall|j: int| 0 <= j < k ==> #[trigger] out@[j].0 == keys@[j].2,
            forall|j: int| 0 <= j < k ==> #[trigger] out@[j].1 == published_id(keys@, j, next_event_id),
            next == next_event_id + unassigned(keys@.take(k as int)),
        decreases n - k,
    {
        let (t, id, pos) = keys[k];
        proof {
            assert(keys@.take(k + 1).drop_last() =~= keys@.take(k as int));
            lemma_unassigned_bound(keys@.take(k as int));
        }
        if id == 0 {
            out.push((pos, next));
            next = next + 1;
        } else {
            out.push((pos, id));
        }
        k = k + 1;
    }
    proof {
        let s = out@.map_values(|x: (usize, u64)| (events@[x.0 as int].0, events@[x.0 as int].1, x.0));
        assert(s =~= keys@);
        assert(keys@.take(n as int) =~= keys@);
    }
    (out, next)
}

proof fn lemma_replay_sorted_unique(s1: Seq<(u64, u64, usize)>, s2: Seq<(u64, u64, usize)>)
    requires
        replay_sorted(s1),
        replay_sorted(s2),
        s1.to_multiset() == s2.to_multiset(),
    ensures
        s1 == s2,
    decreases s1.len(),
{
    s1.to_multiset_ensures();
    s2.to_multiset_ensures();
    if s1.len() == 0 {
        assert(s2.len() == 0);
        assert(s1 =~= s2);
    } else {
        assert(s1.contains(s1[0]));
        assert(s1.to_multiset().count(s1[0]) > 0);
        assert(s2.to_multiset().count(s1[0]) > 0);
        assert(s2.contains(s1[0]));
        let j = choose|j: int| 0 <= j < s2.len() && s2[j] == s1[0];
        assert(s2.contains(s2[0]));
        assert(s2.to_multiset().count(s2[0]) > 0);
        assert(s1.to_multiset().count(s2[0]) > 0);
        assert(s1.contains(s2[0]));
        let i = choose|i: int| 0 <= i < s1.len() && s1[i] == s2[0];
        assert(replay_key_le(s1[0], s1[i]));
        assert(replay_key_le(s2[0], s2[j]));
        assert(s1[0] == s2[0]);
        let r1 = s1.drop_first();
        let r2 = s2.drop_first();
        assert(s1.remove(0) =~= r1);
        assert(s2.remove(0) =~= r2);
        assert(r1.to_multiset() =~= r2.to_multiset());
        assert(replay_sorted(r1));
        assert(replay_sorted(r2));
        lemma_replay_sorted_unique(r1, r2);
        assert(s1 =~= s2) by {
            assert forall|k: int| 0 <= k < s1.len() implies s1[k] == s2[k] by {
                if k > 0 {
                    assert(s1[k] == r1[k - 1]);
                    assert(s2[k] == r2[k - 1]);
                }
            }
        }
    }
}

/// Replay is deterministic: any two delivery orders of the same logged
/// events that both follow the replay order (time, then id, then position)
/// are the same order.
pub proof fn law_replay_order_unique(events: Seq<(u64, u64)>, s1: Seq<(u64, u64, usize)>, s2: Seq<(u64, u64, usize)>)
    requires
        s1.to_multiset() == replay_keys(events).to_multiset(),
        s2.to_multiset() == replay_keys(events).to_multiset(),
        replay_sorted(s1),
        replay_sorted(s2),
    ensures
        s1 == s2,
{
    lemma_replay_sorted_unique(s1, s2);
}

} // verus!
