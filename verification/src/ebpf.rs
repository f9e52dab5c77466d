//! Kernel event collection: the event kinds the collector reports, its
//! errors, and the enforcement decisions it hands to the kernel.
use vstd::prelude::*;
use vstd::string::*;
use crate::event::{event_is, schema_fields, Event};
use crate::normalize::{execve_candidates, ne_bytes, EventNormalizer};

verus! {

/// Kinds of kernel events the collector can be interested in.
#[derive(Debug, Clone, Copy, PartialEq, Eq, Structural, Hash)]
pub enum EbpfEventType {
    ProcessExec,
    ProcessExit,
    FileOpen,
    FileRename,
    FileUnlink,
    NetworkConnect,
    NetworkSend,
}

/// Collector errors
#[derive(Debug)]
pub enum EbpfError {
    ProgramNotFound(String),
    ProgramError(String),
    MapError(String),
    AttachmentError(String),
    NormalizationError(String),
    CollectionError(String),
}

/// The message of each collector error.
pub open spec fn ebpf_error_message(e: EbpfError) -> Seq<char> {
    match e {
        EbpfError::ProgramNotFound(m) => "Program not found: "@ + m@,
        EbpfError::ProgramError(m) => "Program error: "@ + m@,
        EbpfError::MapError(m) => "Map error: "@ + m@,
        EbpfError::AttachmentError(m) => "Attachment error: "@ + m@,
        EbpfError::NormalizationError(m) => "Normalization error: "@ + m@,
        EbpfError::CollectionError(m) => "Collection error: "@ + m@,
    }
}

impl EbpfError {
    /// The error's message.
    pub fn to_string(&self) -> (r: String)
        ensures
            r@ == ebpf_error_message(*self),
    {
        let (prefix, m) = match self {
            EbpfError::ProgramNotFound(m) => ("Program not found: ", m),
            EbpfError::ProgramError(m) => ("Program error: ", m),
            EbpfError::MapError(m) => ("Map error: ", m),
            EbpfError::AttachmentError(m) => ("Attachment error: ", m),
            EbpfError::NormalizationError(m) => ("Normalization error: ", m),
            EbpfError::CollectionError(m) => ("Collection error: ", m),
        };
        let mut s = prefix.to_owned();
        s.append(m.as_str());
        s
    }
}

/// What the kernel does with a process's operations.
#[derive(Debug, Clone, Copy, PartialEq, Eq)]
pub enum EnforcementAction {
    Allow,
    Block,
    Kill,
}

/// An enforcement decision for one process, as written to the kernel.
#[derive(Debug, Clone, Copy)]
pub struct EnforcementDecision {
    pub pid: u32,
    pub action: EnforcementAction,
    pub ttl_ns: u64,
    pub timestamp_ns: u64,
}

impl EnforcementDecision {
    /// A decision for `pid`, stamped with the current wall-clock time.
    pub fn new(pid: u32, action: EnforcementAction, ttl_ns: u64) -> (d: Self)
        ensures
            d.pid == pid,
            d.action == action,
            d.ttl_ns == ttl_ns,
    {
        EnforcementDecision { pid, action, ttl_ns, timestamp_ns: crate::clock::wall_clock_ns() }
    }
}

/// A raw event record as the kernel programs emit it.
#[derive(Debug, Clone)]
pub struct RawEbpfEvent {
    pub event_type: u32,
    pub ts_mono_ns: u64,
    pub entity_key: u64,
    pub pid: u32,
    pub ppid: u32,
    pub uid: u32,
    pub gid: u32,
    pub path_len: u32,
    pub cmdline_len: u32,
    pub exit_code: i32,
}

/// A process execution record as the kernel programs emit it.
#[derive(Debug, Clone)]
pub struct ExecveEvent {
    pub ts_mono_ns: u64,
    pub pid: u32,
    pub ppid: u32,
    pub uid: u32,
    pub gid: u32,
    pub entity_key: u32,
    pub comm: [u8; 16],
    pub pathname: [u8; 256],
    pub args: [u8; 512],
}


/// Size in bytes of an execve record in the ring buffer: the fields above in
/// C layout, padded to the alignment of its 64-bit timestamp.
pub const EXECVE_RECORD_SIZE: usize = 816;

/// The unsigned value of four bytes, least significant first.
pub open spec fn u32_from_le(b0: u8, b1: u8, b2: u8, b3: u8) -> int {
    b0 + 256 * b1 + 65536 * b2 + 16777216 * b3
}

/// The 32-bit value stored at offset `i` of `b`, in little- or big-endian order.
pub open spec fn u32_at(b: Seq<u8>, i: int, little_endian: bool) -> int {
    if little_endian {
        u32_from_le(b[i], b[i + 1], b[i + 2], b[i + 3])
    } else {
        u32_from_le(b[i + 3], b[i + 2], b[i + 1], b[i])
    }
}

/// The 64-bit value stored at offset `i` of `b`, in little- or big-endian order.
pub open spec fn u64_at(b: Seq<u8>, i: int, little_endian: bool) -> int {
    if little_endian {
        u32_at(b, i, true) + 4294967296 * u32_at(b, i + 4, true)
    } else {
        u32_at(b, i + 4, false) + 4294967296 * u32_at(b, i, false)
    }
}

/// `e` is the execve record whose bytes are `b`: the integers at their C
/// offsets in the given byte order, then the name, path and argument buffers.
pub open spec fn execve_decodes(e: ExecveEvent, b: Seq<u8>, little_endian: bool) -> bool {
    &&& e.ts_mono_ns as int == u64_at(b, 0, little_endian)
    &&& e.pid as int == u32_at(b, 8, little_endian)
    &&& e.ppid as int == u32_at(b, 12, little_endian)
    &&& e.uid as int == u32_at(b, 16, little_endian)
    &&& e.gid as int == u32_at(b, 20, little_endian)
    &&& e.entity_key as int == u32_at(b, 24, little_endian)
    &&& e.comm@ == b.subrange(28, 44)
    &&& e.pathname@ == b.subrange(44, 300)
    &&& e.args@ == b.subrange(300, 812)
}

fn read_u32(b: &[u8], i: usize, little_endian: bool) -> (r: u32)
    requires
        b@.len() == EXECVE_RECORD_SIZE,
        i + 4 <= b@.len(),
    ensures
        r as int == u32_at(b@, i as int, little_endian),
{
    let (b0, b1, b2, b3) = if little_endian {
        (b[i], b[i + 1], b[i + 2], b[i + 3])
    } else {
        (b[i + 3], b[i + 2], b[i + 1], b[i])
    };
    b0 as u32 + (b1 as u32) * 256 + (b2 as u32) * 65536 + (b3 as u32) * 16777216
}

fn read_u64(b: &[u8], i: usize, little_endian: bool) -> (r: u64)
    requires
        b@.len() == EXECVE_RECORD_SIZE,
        i + 8 <= b@.len(),
    ensures
        r as int == u64_at(b@, i as int, little_endian),
{
    let (lo, hi) = if little_endian {
        (read_u32(b, i, true), read_u32(b, i + 4, true))
    } else {
        (read_u32(b, i + 4, false), read_u32(b, i, false))
    };
    lo as u64 + (hi as u64) * 4294967296
}

fn copy_bytes<const N: usize>(b: &[u8], start: usize) -> (r: [u8; N])
    requires
        b@.len() == EXECVE_RECORD_SIZE,
        start + N <= b@.len(),
    ensures
        r@ == b@.subrange(start as int, start + N),
{
    let mut r = [0u8; N];
    let mut k: usize = 0;
    while k < N
        invariant
            k <= N,
            b@.len() == EXECVE_RECORD_SIZE,
            start + N <= b@.len(),
            r@.len() == N,
            forall|j: int| 0 <= j < k ==> r@[j] == b@[start + j],
        decreases N - k,
    {
        r[k] = b[start + k];
        k += 1;
    }
    assert(r@ =~= b@.subrange(start as int, start + N));
    r
}

/// Decodes an execve record from its ring-buffer bytes in the given byte order.
pub fn decode_execve(bytes: &[u8], little_endian: bool) -> (e: ExecveEvent)
    requires
        bytes@.len() == EXECVE_RECORD_SIZE,
    ensures
        execve_decodes(e, bytes@, little_endian),
{
    ExecveEvent {
        ts_mono_ns: read_u64(bytes, 0, little_endian),
        pid: read_u32(bytes, 8, little_endian),
        ppid: read_u32(bytes, 12, little_endian),
        uid: read_u32(bytes, 16, little_endian),
        gid: read_u32(bytes, 20, little_endian),
        entity_key: read_u32(bytes, 24, little_endian),
        comm: copy_bytes(bytes, 28),
        pathname: copy_bytes(bytes, 44),
        args: copy_bytes(bytes, 300),
    }
}

/// Whether this machine stores integers least significant byte first, as
/// the kernel programs write their records in the machine's own order.
fn machine_is_little_endian() -> bool {
    let b = ne_bytes(1);
    b[0] == 1
}

/// What the polling loop does next, before reading the ring buffer.
#[derive(Debug, Clone, Copy, PartialEq, Eq, Structural)]
pub enum PollAction {
    /// Shutdown was requested: leave the loop.
    Stop,
    /// Nothing is wanted from the ring buffer now: sleep this long, then poll again.
    Sleep { millis: u64 },
    /// Read the next record from the ring buffer.
    Read,
}

/// What the polling loop does with what one read of the ring buffer gave.
#[derive(Debug)]
pub enum RecordAction {
    /// The ring buffer was empty: sleep this long, then poll again.
    Wait { millis: u64 },
    /// The record does not have the size of an execve record: skip it.
    SizeMismatch { expected: usize, actual: usize },
    /// Send this event to the event bus.
    Publish(Event),
}

/// The outcome of handing an event to the event bus without waiting.
#[derive(Debug, Clone, Copy, PartialEq, Eq, Structural)]
pub enum SendOutcome {
    Sent,
    /// The channel was full; the event was dropped.
    Full,
    /// The channel was closed.
    Closed,
}

/// Whether polling goes on after a send: it stops only once the event bus
/// channel is closed; a full channel drops the event and polling goes on.
pub fn polling_continues_after(outcome: SendOutcome) -> (r: bool)
    ensures
        r == !(outcome is Closed),
{
    match outcome {
        SendOutcome::Closed => false,
        _ => true,
    }
}

/// The state the kernel event collector keeps between polls of its ring
/// buffer: the event kinds it is interested in, the id of the next event,
/// the normalizer and the byte order of the records.
pub struct EbpfCollector {
    interests: Vec<EbpfEventType>,
    next_event_id: u64,
    normalizer: EventNormalizer,
    little_endian: bool,
}

impl EbpfCollector {
    #[verifier::type_invariant]
    spec fn interests_distinct(self) -> bool {
        self.interests@.no_duplicates()
    }

    /// The event kinds the collector is interested in.
    pub closed spec fn interests_spec(&self) -> Set<EbpfEventType> {
        Set::new(|t: EbpfEventType| self.interests@.contains(t))
    }

    /// The id the next published event gets.
    pub closed spec fn next_id(&self) -> u64 {
        self.next_event_id
    }

    /// The normalizer that turns records into events.
    pub closed spec fn normalizer_spec(&self) -> EventNormalizer {
        self.normalizer
    }

    /// Whether records are read least significant byte first.
    pub closed spec fn little_endian_spec(&self) -> bool {
        self.little_endian
    }

    /// A collector interested in nothing yet, whose first event gets id 1.
    /// Records are read in this machine's byte order.
    pub fn new(normalizer: EventNormalizer) -> (c: Self)
        ensures
            c.interests_spec() == Set::<EbpfEventType>::empty(),
            c.next_id() == 1,
            c.normalizer_spec() == normalizer,
    {
        let little_endian = machine_is_little_endian();
        let c = EbpfCollector { interests: Vec::new(), next_event_id: 1, normalizer, little_endian };
        assert(c.interests_spec() =~= Set::<EbpfEventType>::empty());
        c
    }

    /// Whether records are read least significant byte first.
    pub fn records_little_endian(&self) -> (r: bool)
        ensures
            r == self.little_endian_spec(),
    {
        self.little_endian
    }

    /// Replaces the event kinds of interest by those in `event_types`.
    pub fn update_interests(&mut self, event_types: &[EbpfEventType])
        ensures
            final(self).interests_spec() == Set::new(|t: EbpfEventType| event_types@.contains(t)),
            final(self).next_id() == old(self).next_id(),
            final(self).normalizer_spec() == old(self).normalizer_spec(),
            final(self).little_endian_spec() == old(self).little_endian_spec(),
    {
        let mut kept: Vec<EbpfEventType> = Vec::new();
        let mut i: usize = 0;
        while i < event_types.len()
            invariant
                i <= event_types@.len(),
                kept@.no_duplicates(),
                forall|t: EbpfEventType| kept@.contains(t) <==> event_types@.subrange(0, i as int).contains(t),
            decreases event_types@.len() - i,
        {
            let t = event_types[i];
            let mut seen = false;
            let mut j: usize = 0;
            while j < kept.len()
                invariant
                    j <= kept@.len(),
                    seen <==> kept@.subrange(0, j as int).contains(t),
                decreases kept@.len() - j,
            {
                if kept[j] == t {
                    seen = true;
                }
                proof {
                    broadcast use vstd::seq_lib::lemma_seq_contains_after_push;
                    assert(kept@.subrange(0, j + 1) =~= kept@.subrange(0, j as int).push(kept@[j as int]));
                }
                j += 1;
            }
            assert(kept@.subrange(0, kept@.len() as int) =~= kept@);
            let ghost before = kept@;
            if !seen {
                kept.push(t);
            }
            proof {
                broadcast use vstd::seq_lib::lemma_seq_contains_after_push;
                assert(event_types@.subrange(0, i + 1) =~= event_types@.subrange(0, i as int).push(t));
                assert forall|u: EbpfEventType| kept@.contains(u) <==> event_types@.subrange(0, i + 1).contains(u) by {
                    if !seen {
                        assert(kept@ == before.push(t));
                    }
                }
            }
            i += 1;
        }
        assert(event_types@.subrange(0, event_types@.len() as int) =~= event_types@);
        self.interests = kept;
        assert(self.interests_spec() =~= Set::new(|t: EbpfEventType| event_types@.contains(t)));
    }

    /// The event kinds of interest, each once.
    pub fn get_interests(&self) -> (r: Vec<EbpfEventType>)
        ensures
            r@.no_duplicates(),
            forall|t: EbpfEventType| r@.contains(t) <==> self.interests_spec().contains(t),
    {
        proof { use_type_invariant(self); }
        let mut r: Vec<EbpfEventType> = Vec::new();
        let mut i: usize = 0;
        while i < self.interests.len()
            invariant
                i <= self.interests@.len(),
                self.interests@.no_duplicates(),
                r@ == self.interests@.subrange(0, i as int),
            decreases self.interests@.len() - i,
        {
            r.push(self.interests[i]);
            proof {
                assert(self.interests@.subrange(0, i + 1) =~= self.interests@.subrange(0, i as int).push(self.interests@[i as int]));
            }
            i += 1;
        }
        assert(self.interests@.subrange(0, self.interests@.len() as int) =~= self.interests@);
        r
    }

    /// Whether events of kind `event_type` are of interest.
    pub fn is_interesting(&self, event_type: EbpfEventType) -> (r: bool)
        ensures
            r == self.interests_spec().contains(event_type),
    {
        let mut i: usize = 0;
        while i < self.interests.len()
            invariant
                i <= self.interests@.len(),
                !self.interests@.subrange(0, i as int).contains(event_type),
            decreases self.interests@.len() - i,
        {
            if self.interests[i] == event_type {
                return true;
            }
            proof {
                broadcast use vstd::seq_lib::lemma_seq_contains_after_push;
                assert(self.interests@.subrange(0, i + 1) =~= self.interests@.subrange(0, i as int).push(self.interests@[i as int]));
            }
            i += 1;
        }
        assert(self.interests@.subrange(0, self.interests@.len() as int) =~= self.interests@);
        false
    }

    /// What the polling loop does before reading: stop once shutdown is
    /// requested, sleep 100 ms while process executions are of no interest,
    /// else read the ring buffer.
    pub fn poll_action(&self, shutdown: bool) -> (a: PollAction)
        ensures
            shutdown ==> a == PollAction::Stop,
            !shutdown && !self.interests_spec().contains(EbpfEventType::ProcessExec) ==> (a
                matches PollAction::Sleep { millis } && millis == 100),
            !shutdown && self.interests_spec().contains(EbpfEventType::ProcessExec) ==> a
                == PollAction::Read,
    {
        if shutdown {
            PollAction::Stop
        } else if !self.is_interesting(EbpfEventType::ProcessExec) {
            PollAction::Sleep { millis: 100 }
        } else {
            PollAction::Read
        }
    }

    /// Handles one read of the ring buffer. Nothing read: wait 10 ms. A record
    /// of another size than an execve record: skip it. Else the record is
    /// decoded, normalized into an event with the next id, and published.
    pub fn on_record(&mut self, record: Option<&[u8]>) -> (a: RecordAction)
        ensures
            final(self).interests_spec() == old(self).interests_spec(),
            final(self).normalizer_spec() == old(self).normalizer_spec(),
            final(self).little_endian_spec() == old(self).little_endian_spec(),
            record is None ==> (a matches RecordAction::Wait { millis } && millis == 10),
            record is None ==> final(self).next_id() == old(self).next_id(),
            record matches Some(b) ==> b@.len() != EXECVE_RECORD_SIZE ==> (a matches RecordAction::SizeMismatch {
                expected,
                actual,
            } && expected == EXECVE_RECORD_SIZE && actual == b@.len()),
            record matches Some(b) ==> b@.len() != EXECVE_RECORD_SIZE ==> final(self).next_id() == old(
                self,
            ).next_id(),
            record matches Some(b) ==> b@.len() == EXECVE_RECORD_SIZE ==> final(self).next_id() == (if old(
                self,
            ).next_id() == u64::MAX {
                0
            } else {
                (old(self).next_id() + 1) as u64
            }),
            record matches Some(b) ==> b@.len() == EXECVE_RECORD_SIZE ==> (a matches RecordAction::Publish(e)
                && exists|x: ExecveEvent|
                #[trigger] execve_decodes(x, b@, old(self).little_endian_spec()) && event_is(
                    e,
                    old(self).next_id(),
                    1,
                    x.ts_mono_ns,
                    x.entity_key as u128,
                    "ebpf"@,
                    schema_fields(old(self).normalizer_spec().schema_spec(), execve_candidates(x)),
                )),
    {
        proof { use_type_invariant(&*self); }
        match record {
            None => RecordAction::Wait { millis: 10 },
            Some(bytes) => {
                if bytes.len() != EXECVE_RECORD_SIZE {
                    return RecordAction::SizeMismatch {
                        expected: EXECVE_RECORD_SIZE,
                        actual: bytes.len(),
                    };
                }
                let exec = decode_execve(bytes, self.little_endian);
                let event_id = self.next_event_id;
                self.next_event_id = self.next_event_id.wrapping_add(1);
                match self.normalizer.normalize_execve_event(&exec, event_id) {
                    Ok(event) => {
                        // `exec` witnesses the decoded record of the contract.
                        assert(execve_decodes(exec, bytes@, self.little_endian));
                        RecordAction::Publish(event)
                    },
                    Err(_) => {
                        // `normalize_execve_event` always succeeds.
                        proof { assert(false); }
                        RecordAction::Wait { millis: 10 }
                    },
                }
            },
        }
    }
}

} // verus!
