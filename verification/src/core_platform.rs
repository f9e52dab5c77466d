//! Platform description for event collection, its errors, the choice of
//! event collector from command-line arguments, and the mock collector.
use vstd::prelude::*;
use crate::event::Event;
use vstd::string::*;
pub use crate::platform::{capability_name, mock_capabilities, PlatformCapability};

verus! {

/// Platform information and capabilities
#[derive(Debug, Clone)]
pub struct PlatformInfo {
    /// Platform name (e.g., "linux", "macos", "mock")
    pub name: String,
    /// Platform version
    pub version: String,
    /// Kernel/OS version
    pub kernel_version: String,
    /// Supported capabilities
    pub capabilities: Vec<PlatformCapability>,
}

impl PlatformInfo {
    /// Check if a specific capability is supported
    pub fn has_capability(&self, cap: PlatformCapability) -> (r: bool)
        ensures
            r == self.capabilities@.contains(cap),
    {
        let mut i: usize = 0;
        while i < self.capabilities.len()
            invariant
                i <= self.capabilities@.len(),
                forall|j: int| 0 <= j < i ==> self.capabilities@[j] != cap,
            decreases self.capabilities@.len() - i,
        {
            if self.capabilities[i] == cap {
                assert(self.capabilities@[i as int] == cap);
                return true;
            }
            i = i + 1;
        }
        false
    }

    /// Mock platform info for testing
    pub fn mock() -> (p: Self)
        ensures
            p.name@ == "mock"@,
            p.version@ == "1.0"@,
            p.kernel_version@ == "5.15.0-mock"@,
            p.capabilities@ == mock_capabilities(),
    {
        let capabilities = vec![
            PlatformCapability::ProcessTracing,
            PlatformCapability::FileTracing,
            PlatformCapability::Kprobes,
            PlatformCapability::Tracepoints,
        ];
        assert(capabilities@ =~= mock_capabilities());
        PlatformInfo {
            name: "mock".to_owned(),
            version: "1.0".to_owned(),
            kernel_version: "5.15.0-mock".to_owned(),
            capabilities,
        }
    }
}

/// Platform-related errors
#[derive(Debug)]
pub enum PlatformError {
    CapabilityNotSupported(PlatformCapability),
    InitializationError(String),
    ShutdownError(String),
    IoError(std::io::Error),
    ChannelClosed,
    ReplayError(String),
}

/// The message of each platform error but an I/O error.
pub open spec fn core_platform_error_message(e: PlatformError) -> Seq<char> {
    match e {
        PlatformError::CapabilityNotSupported(c) => "Capability not supported: "@ + capability_name(c),
        PlatformError::InitializationError(m) => "Platform initialization failed: "@ + m@,
        PlatformError::ShutdownError(m) => "Platform shutdown failed: "@ + m@,
        PlatformError::IoError(_) => "IO error: "@,
        PlatformError::ChannelClosed => "Event channel closed"@,
        PlatformError::ReplayError(m) => "Replay error: "@ + m@,
    }
}

impl PlatformError {
    /// The error's message; an I/O error's message continues with the
    /// operating system's text.
    pub fn to_string(&self) -> (r: String)
        ensures
            self is IoError ==> r@.subrange(0, 10) == core_platform_error_message(*self),
            !(self is IoError) ==> r@ == core_platform_error_message(*self),
    {
        match self {
            PlatformError::CapabilityNotSupported(c) => {
                let mut s = "Capability not supported: ".to_owned();
                s.append(c.name());
                s
            },
            PlatformError::InitializationError(m) => {
                let mut s = "Platform initialization failed: ".to_owned();
                s.append(m.as_str());
                s
            },
            PlatformError::ShutdownError(m) => {
                let mut s = "Platform shutdown failed: ".to_owned();
                s.append(m.as_str());
                s
            },
            PlatformError::IoError(e) => {
                let mut s = "IO error: ".to_owned();
                let t = crate::platform::io_error_text(e);
                s.append(t.as_str());
                proof {
                    reveal_strlit("IO error: ");
                }
                assert(s@.subrange(0, 10) =~= "IO error: "@);
                s
            },
            PlatformError::ChannelClosed => "Event channel closed".to_owned(),
            PlatformError::ReplayError(m) => {
                let mut s = "Replay error: ".to_owned();
                s.append(m.as_str());
                s
            },
        }
    }
}

/// Which event collector to run.
#[derive(Debug, Clone)]
pub enum CollectorChoice {
    /// Synthetic events, this many.
    Mock { count: usize },
    /// Events replayed from the binary log at this path.
    Replay { path: String },
    /// Live kernel events from the eBPF collector.
    Ebpf,
}

/// Factory for choosing event collectors from command-line arguments.
pub struct CollectorFactory;

impl CollectorFactory {
    /// Choose the collector for a collector type: `mock` runs the given
    /// number of synthetic events (100 by default), `replay` needs a log
    /// path, `ebpf` collects live kernel events, and any other type is an
    /// initialization error.
    pub fn select(collector_type: &str, log_path: Option<String>, count: Option<usize>) -> (r: Result<
        CollectorChoice,
        PlatformError,
    >)
        ensures
            collector_type@ == "mock"@ ==> (r matches Ok(CollectorChoice::Mock { count: n }) && n == (match count {
                Some(c) => c,
                None => 100,
            })),
            collector_type@ == "replay"@ ==> match log_path {
                Some(p) => r matches Ok(CollectorChoice::Replay { path }) && path == p,
                None => r matches Err(PlatformError::ReplayError(m)) && m@ == "Replay requires --log path"@,
            },
            collector_type@ == "ebpf"@ ==> r matches Ok(CollectorChoice::Ebpf),
            collector_type@ != "mock"@ && collector_type@ != "replay"@ && collector_type@ != "ebpf"@ ==> (r matches Err(
                PlatformError::InitializationError(m),
            ) && m@ == "Unknown collector type: "@ + collector_type@),
    {
        proof {
            reveal_strlit("mock");
            reveal_strlit("replay");
            reveal_strlit("ebpf");
            assert("mock"@.len() == 4);
            assert("replay"@.len() == 6);
            assert("ebpf"@.len() == 4);
            assert("ebpf"@[0] != "mock"@[0]);
        }
        let t = collector_type.to_owned();
        if t == "mock".to_owned() {
            let n = match count {
                Some(c) => c,
                None => 100,
            };
            Ok(CollectorChoice::Mock { count: n })
        } else if t == "replay".to_owned() {
            match log_path {
                Some(p) => Ok(CollectorChoice::Replay { path: p }),
                None => Err(PlatformError::ReplayError("Replay requires --log path".to_owned())),
            }
        } else if t == "ebpf".to_owned() {
            Ok(CollectorChoice::Ebpf)
        } else {
            let mut m = "Unknown collector type: ".to_owned();
            m.append(collector_type);
            Err(PlatformError::InitializationError(m))
        }
    }
}

/// The events of the standard mock sequence: ids from 0, one millisecond
/// apart from time 0, entity keys cycling through 0 to 3, no fields.
pub open spec fn is_mock_sequence(events: Seq<Event>, count: nat) -> bool {
    &&& events.len() == count
    &&& forall|i: int|
        0 <= i < count ==> {
            let e = #[trigger] events[i];
            &&& e.event_id == i
            &&& e.event_type_id == 1
            &&& e.ts_mono_ns == i * 1_000_000
            &&& e.ts_wall_ns == i * 1_000_000
            &&& e.entity_key == i % 4
            &&& e.source_id is None
            &&& e.fields@.len() == 0
        }
}

/// Mock event collector: hands out a fixed list of synthetic events.
pub struct MockEventCollector {
    events: Vec<Event>,
    name: String,
}

impl MockEventCollector {
    /// The events still to be handed out.
    pub closed spec fn events_spec(&self) -> Seq<Event> {
        self.events@
    }

    /// The collector's name.
    pub closed spec fn name_spec(&self) -> Seq<char> {
        self.name@
    }

    /// A collector named `mock` over `events`.
    pub fn new(events: Vec<Event>) -> (c: Self)
        ensures
            c.events_spec() == events@,
            c.name_spec() == "mock"@,
    {
        MockEventCollector { events, name: "mock".to_owned() }
    }

    /// The same collector under another name.
    pub fn with_name(self, name: String) -> (c: Self)
        ensures
            c.events_spec() == self.events_spec(),
            c.name_spec() == name@,
    {
        MockEventCollector { events: self.events, name }
    }

    /// A collector over the standard sequence of `count` events.
    pub fn generate_test_events(count: usize) -> (c: Self)
        requires
            count == 0 || (count - 1) * 1_000_000 <= u64::MAX,
        ensures
            is_mock_sequence(c.events_spec(), count as nat),
            c.name_spec() == "mock"@,
    {
        let mut events: Vec<Event> = Vec::new();
        let mut i: usize = 0;
        while i < count
            invariant
                i <= count,
                count == 0 || (count - 1) * 1_000_000 <= u64::MAX,
                is_mock_sequence(events@, i as nat),
            decreases count - i,
        {
            assert(i * 1_000_000 <= u64::MAX) by (nonlinear_arith)
                requires
                    i < count,
                    (count - 1) * 1_000_000 <= u64::MAX,
            ;
            let ts = (i as u64) * 1_000_000;
            let e = Event {
                event_id: i as u64,
                event_type_id: 1,
                ts_mono_ns: ts,
                ts_wall_ns: ts,
                entity_key: (i as u128) % 4,
                source_id: None,
                fields: Vec::new(),
            };
            let ghost before = events@;
            events.push(e);
            proof {
                assert forall|j: int| 0 <= j < i + 1 implies {
                    let x = #[trigger] events@[j];
                    &&& x.event_id == j
                    &&& x.event_type_id == 1
                    &&& x.ts_mono_ns == j * 1_000_000
                    &&& x.ts_wall_ns == j * 1_000_000
                    &&& x.entity_key == j % 4
                    &&& x.source_id is None
                    &&& x.fields@.len() == 0
                } by {
                    if j < i {
                        assert(events@[j] == before[j]);
                    }
                }
            }
            i = i + 1;
        }
        Self::new(events)
    }

    /// The collector's name.
    pub fn name(&self) -> (r: &str)
        ensures
            r@ == self.name_spec(),
    {
        self.name.as_str()
    }

    /// Hands out the events, once: what starting the collector sends.
    pub fn take_events(&mut self) -> (r: Vec<Event>)
        ensures
            r@ == old(self).events_spec(),
            final(self).events_spec().len() == 0,
            final(self).name_spec() == old(self).name_spec(),
    {
        let mut out: Vec<Event> = Vec::new();
        std::mem::swap(&mut out, &mut self.events);
        out
    }
}

} // verus!
