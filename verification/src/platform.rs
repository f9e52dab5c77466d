//! Platform abstraction for kernel event collection: platform capabilities,
//! a registry of event type names and ids, a mock platform for testing, and a
//! manager that reaches the platform only through the abstraction.
use vstd::prelude::*;
use vstd::string::*;
use crate::table::{find_key, has_key, key_pos, keys_distinct, lemma_key_pos_unique, lemma_table_push, table_map};

verus! {

/// Platform capability flags
#[derive(Debug, Clone, Copy, PartialEq, Eq, Structural, Hash)]
pub enum PlatformCapability {
    /// Can trace process execution
    ProcessTracing,
    /// Can trace file operations
    FileTracing,
    /// Can trace network operations
    NetworkTracing,
    /// Can perform inline blocking
    InlineBlocking,
    /// Supports LSM hooks
    LsmHooks,
    /// Supports kprobes
    Kprobes,
    /// Supports tracepoints
    Tracepoints,
    /// Supports perf events
    PerfEvents,
}

/// The name of each capability.
pub open spec fn capability_name(c: PlatformCapability) -> Seq<char> {
    match c {
        PlatformCapability::ProcessTracing => "ProcessTracing"@,
        PlatformCapability::FileTracing => "FileTracing"@,
        PlatformCapability::NetworkTracing => "NetworkTracing"@,
        PlatformCapability::InlineBlocking => "InlineBlocking"@,
        PlatformCapability::LsmHooks => "LsmHooks"@,
        PlatformCapability::Kprobes => "Kprobes"@,
        PlatformCapability::Tracepoints => "Tracepoints"@,
        PlatformCapability::PerfEvents => "PerfEvents"@,
    }
}

impl PlatformCapability {
    /// The capability's name.
    pub fn name(&self) -> (r: &'static str)
        ensures
            r@ == capability_name(*self),
    {
        match self {
            PlatformCapability::ProcessTracing => "ProcessTracing",
            PlatformCapability::FileTracing => "FileTracing",
            PlatformCapability::NetworkTracing => "NetworkTracing",
            PlatformCapability::InlineBlocking => "InlineBlocking",
            PlatformCapability::LsmHooks => "LsmHooks",
            PlatformCapability::Kprobes => "Kprobes",
            PlatformCapability::Tracepoints => "Tracepoints",
            PlatformCapability::PerfEvents => "PerfEvents",
        }
    }
}

/// Platform information and capabilities
#[derive(Debug, Clone)]
pub struct PlatformInfo {
    /// Platform name (e.g., "linux", "mock")
    pub name: String,
    /// Platform version
    pub version: String,
    /// Kernel version
    pub kernel_version: String,
    /// Supported capabilities
    pub capabilities: Vec<PlatformCapability>,
    /// Platform-specific metadata, by distinct keys
    pub metadata: Vec<(String, String)>,
}

/// The capabilities of the mock platform.
pub open spec fn mock_capabilities() -> Seq<PlatformCapability> {
    seq![
        PlatformCapability::ProcessTracing,
        PlatformCapability::FileTracing,
        PlatformCapability::Kprobes,
        PlatformCapability::Tracepoints,
    ]
}

impl PlatformInfo {
    /// Check if a specific capability is supported
    pub fn has_capability(&self, cap: PlatformCapability) -> (r: bool)
        ensures
            r == self.capabilities@.contains(cap),
    {
        let mut i: usize = 0;
        while i < self.capabilities.len()
            invariant
                i <= self.capabilities@.len(),
                forall|j: int| 0 <= j < i ==> self.capabilities@[j] != cap,
            decreases self.capabilities@.len() - i,
        {
            if self.capabilities[i] == cap {
                assert(self.capabilities@[i as int] == cap);
                return true;
            }
            i = i + 1;
        }
        false
    }

    /// Mock platform info for testing
    pub fn mock() -> (p: Self)
        ensures
            p.name@ == "mock"@,
            p.version@ == "1.0"@,
            p.kernel_version@ == "5.15.0-mock"@,
            p.capabilities@ == mock_capabilities(),
            p.metadata@.len() == 0,
    {
        let capabilities = vec![
            PlatformCapability::ProcessTracing,
            PlatformCapability::FileTracing,
            PlatformCapability::Kprobes,
            PlatformCapability::Tracepoints,
        ];
        assert(capabilities@ =~= mock_capabilities());
        PlatformInfo {
            name: "mock".to_owned(),
            version: "1.0".to_owned(),
            kernel_version: "5.15.0-mock".to_owned(),
            capabilities,
            metadata: Vec::new(),
        }
    }
}

/// The first id handed out by a registry; lower ids belong to built-in types.
pub open spec fn first_custom_id() -> u16 {
    1000
}

/// Event type registry: a dynamic registry of event type names and ids,
/// handing out ids in order from 1000.
#[derive(Debug)]
pub struct EventTypeRegistry {
    entries: Vec<(String, u16)>,
    next_id: u16,
}

impl EventTypeRegistry {
    /// Registered names and their ids.
    pub closed spec fn names(&self) -> Map<Seq<char>, u16> {
        table_map(self.entries@)
    }

    /// Registered ids and their names.
    pub closed spec fn ids(&self) -> Map<u16, Seq<char>> {
        Map::new(
            |id: u16| 1000 <= id < self.next_id,
            |id: u16| self.entries@[id - 1000].0@,
        )
    }

    /// The id the next new name gets.
    pub closed spec fn next_id(&self) -> u16 {
        self.next_id
    }

    /// Names are distinct, the `i`-th registered name has id `1000 + i`,
    /// and the next id follows the last one handed out.
    pub closed spec fn wf(&self) -> bool {
        &&& keys_distinct(self.entries@)
        &&& forall|i: int| 0 <= i < self.entries@.len() ==> (#[trigger] self.entries@[i]).1 == 1000 + i
        &&& self.next_id == 1000 + self.entries@.len()
    }

    /// The default event types, registered in order from id 1000.
    pub fn new() -> (r: Self)
        ensures
            r.wf(),
            r.names() == default_event_types(),
            r.ids() == default_event_names(),
            r.next_id() == 1009,
    {
        let mut registry = Self::empty();
        proof {
            reveal_strlit("process_exec");
            reveal_strlit("process_exit");
            reveal_strlit("file_open");
            reveal_strlit("file_write");
            reveal_strlit("file_rename");
            reveal_strlit("file_unlink");
            reveal_strlit("network_connect");
            reveal_strlit("network_send");
            reveal_strlit("network_recv");
            assert("process_exec"@[10] != "process_exit"@[10]);
            assert("process_exec"@[0] != "network_send"@[0]);
            assert("process_exec"@[0] != "network_recv"@[0]);
            assert("process_exit"@[0] != "network_send"@[0]);
            assert("process_exit"@[0] != "network_recv"@[0]);
            assert("network_send"@[8] != "network_recv"@[8]);
            assert("file_rename"@[5] != "file_unlink"@[5]);
        }
        registry.register("process_exec");
        assert(!registry.names().contains_key("process_exit"@));
        registry.register("process_exit");
        assert(!registry.names().contains_key("file_open"@));
        registry.register("file_open");
        assert("file_open"@.len() == 9);
        assert("file_write"@.len() == 10);
        assert(!registry.names().contains_key("file_write"@));
        registry.register("file_write");
        assert(!registry.names().contains_key("file_rename"@));
        registry.register("file_rename");
        assert(!registry.names().contains_key("file_unlink"@));
        registry.register("file_unlink");
        assert("network_connect"@.len() == 15);
        assert(!registry.names().contains_key("network_connect"@));
        registry.register("network_connect");
        assert(!registry.names().contains_key("network_send"@));
        registry.register("network_send");
        assert(!registry.names().contains_key("network_recv"@));
        registry.register("network_recv");
        assert(registry.names() =~= default_event_types());
        assert(registry.ids() =~= default_event_names());
        registry
    }

    /// An empty registry.
    pub fn empty() -> (r: Self)
        ensures
            r.wf(),
            r.names() == Map::<Seq<char>, u16>::empty(),
            r.ids() == Map::<u16, Seq<char>>::empty(),
            r.next_id() == 1000,
    {
        let r = EventTypeRegistry { entries: Vec::new(), next_id: 1000 };
        assert(r.names() =~= Map::<Seq<char>, u16>::empty());
        assert(r.ids() =~= Map::<u16, Seq<char>>::empty());
        r
    }

    /// Register an event type name: its id if it is registered already,
    /// else the next id, which it then holds.
    pub fn register(&mut self, name: &str) -> (id: u16)
        requires
            old(self).wf(),
            old(self).names().contains_key(name@) || old(self).next_id() < u16::MAX,
        ensures
            final(self).wf(),
            old(self).names().contains_key(name@) ==> id == old(self).names()[name@] && final(self).names()
                == old(self).names() && final(self).ids() == old(self).ids() && final(self).next_id() == old(self).next_id(),
            !old(self).names().contains_key(name@) ==> !old(self).ids().contains_key(id),
            !old(self).names().contains_key(name@) ==> id == old(self).next_id() && final(self).names()
                == old(self).names().insert(name@, id) && final(self).ids() == old(self).ids().insert(id, name@)
                && final(self).next_id() == old(self).next_id() + 1,
    {
        match find_key(&self.entries, name) {
            Some(i) => {
                proof {
                    lemma_key_pos_unique(self.entries@, i as int);
                }
                return self.entries[i].1;
            },
            None => {},
        }
        let id = self.next_id;
        let ghost old_entries = self.entries@;
        let ghost old_ids = self.ids();
        let entry_name = name.to_owned();
        proof {
            lemma_table_push(old_entries, entry_name, id);
        }
        self.entries.push((entry_name, id));
        self.next_id = self.next_id + 1;
        assert(self.entries@ == old_entries.push((entry_name, id)));
        assert(self.ids() =~= old_ids.insert(id, name@)) by {
            assert forall|k: u16| 1000 <= k < self.next_id implies #[trigger] self.entries@[k - 1000].0@ == (if k == id {
                name@
            } else {
                old_ids[k]
            }) by {
                if k != id {
                    assert(self.entries@[k - 1000] == old_entries[k - 1000]);
                }
            }
        }
        id
    }

    /// Get event type ID by name
    pub fn get_id(&self, name: &str) -> (r: Option<u16>)
        requires
            self.wf(),
        ensures
            r == (if self.names().contains_key(name@) {
                Some(self.names()[name@])
            } else {
                None
            }),
    {
        match find_key(&self.entries, name) {
            Some(i) => {
                proof {
                    lemma_key_pos_unique(self.entries@, i as int);
                }
                Some(self.entries[i].1)
            },
            None => None,
        }
    }

    /// Get event type name by ID
    pub fn get_name(&self, id: u16) -> (r: Option<&str>)
        requires
            self.wf(),
        ensures
            match r {
                Some(s) => self.ids().contains_key(id) && s@ == self.ids()[id],
                None => !self.ids().contains_key(id),
            },
    {
        if id >= 1000 && id < self.next_id {
            Some(self.entries[(id - 1000) as usize].0.as_str())
        } else {
            None
        }
    }

    /// Check if an event type exists
    pub fn has_type(&self, name: &str) -> (r: bool)
        requires
            self.wf(),
        ensures
            r == self.names().contains_key(name@),
    {
        find_key(&self.entries, name).is_some()
    }

    /// List all registered event types, in order of registration.
    pub fn list_types(&self) -> (r: Vec<(u16, &str)>)
        requires
            self.wf(),
        ensures
            r@.len() == self.next_id() - 1000,
            forall|id: u16| #[trigger] self.ids().contains_key(id) <==> 1000 <= id < self.next_id(),
            forall|i: int| 0 <= i < r@.len() ==> (#[trigger] r@[i]).0 == 1000 + i && self.ids().contains_key(r@[i].0)
                && r@[i].1@ == self.ids()[r@[i].0],
    {
        let mut out: Vec<(u16, &str)> = Vec::new();
        let mut i: usize = 0;
        while i < self.entries.len()
            invariant
                self.wf(),
                i <= self.entries@.len(),
                out@.len() == i,
                forall|j: int| 0 <= j < i ==> (#[trigger] out@[j]).0 == 1000 + j && out@[j].1@ == self.entries@[j].0@,
            decreases self.entries@.len() - i,
        {
            out.push((self.entries[i].1, self.entries[i].0.as_str()));
            i = i + 1;
        }
        out
    }
}

/// The default event types and their ids.
pub open spec fn default_event_types() -> Map<Seq<char>, u16> {
    map![
        "process_exec"@ => 1000u16,
        "process_exit"@ => 1001u16,
        "file_open"@ => 1002u16,
        "file_write"@ => 1003u16,
        "file_rename"@ => 1004u16,
        "file_unlink"@ => 1005u16,
        "network_connect"@ => 1006u16,
        "network_send"@ => 1007u16,
        "network_recv"@ => 1008u16,
    ]
}

/// The names of the default event types by id.
pub open spec fn default_event_names() -> Map<u16, Seq<char>> {
    map![
        1000u16 => "process_exec"@,
        1001u16 => "process_exit"@,
        1002u16 => "file_open"@,
        1003u16 => "file_write"@,
        1004u16 => "file_rename"@,
        1005u16 => "file_unlink"@,
        1006u16 => "network_connect"@,
        1007u16 => "network_send"@,
        1008u16 => "network_recv"@,
    ]
}

/// Every id a registry has handed out names a registered name, which is
/// registered under that id.
pub proof fn law_registry_ids_lead_to_names(r: EventTypeRegistry, id: u16)
    requires
        r.wf(),
        r.ids().contains_key(id),
    ensures
        r.names().contains_key(r.ids()[id]),
        r.names()[r.ids()[id]] == id,
{
    let i = id - 1000;
    let n = r.entries@[i].0@;
    assert(has_key(r.entries@, n)) by {
        assert(r.entries@[i].0@ == n);
    }
    lemma_key_pos_unique(r.entries@, i);
}

/// Names and ids of a registry correspond one to one: the id registered
/// for a name leads back to that name, and distinct names get distinct ids.
pub proof fn law_registry_bijection(r: EventTypeRegistry, a: Seq<char>, b: Seq<char>)
    requires
        r.wf(),
        r.names().contains_key(a),
    ensures
        r.ids().contains_key(r.names()[a]),
        r.ids()[r.names()[a]] == a,
        r.names().contains_key(b) && a != b ==> r.names()[a] != r.names()[b],
{
    let i = key_pos(r.entries@, a);
    assert(has_key(r.entries@, a));
    assert(r.entries@[i].0@ == a);
    lemma_key_pos_unique(r.entries@, i);
    if r.names().contains_key(b) && a != b {
        let j = key_pos(r.entries@, b);
        assert(has_key(r.entries@, b));
        assert(r.entries@[j].0@ == b);
        lemma_key_pos_unique(r.entries@, j);
    }
}

impl Default for EventTypeRegistry {
    fn default() -> (r: Self)
        ensures
            r.wf(),
            r.names() == default_event_types(),
            r.ids() == default_event_names(),
            r.next_id() == 1009,
    {
        Self::new()
    }
}

/// Platform errors
#[derive(Debug)]
pub enum PlatformError {
    CapabilityNotSupported(PlatformCapability),
    InitializationError(String),
    ShutdownError(String),
    ProbeError(String),
    IoError(std::io::Error),
}

/// An I/O error of the standard library.
#[verifier::external_type_specification]
#[verifier::external_body]
pub struct ExIoError(std::io::Error);

/// Wraps the `Display` rendering of `std::io::Error`: its text. Nothing is
/// stated of the text, which comes from the operating system.
#[verifier::external_body]
pub(crate) fn io_error_text(e: &std::io::Error) -> String {
    e.to_string()
}

/// The message of each platform error but an I/O error.
pub open spec fn platform_error_message(e: PlatformError) -> Seq<char> {
    match e {
        PlatformError::CapabilityNotSupported(c) => "Capability not supported: "@ + capability_name(c),
        PlatformError::InitializationError(m) => "Platform initialization failed: "@ + m@,
        PlatformError::ShutdownError(m) => "Platform shutdown failed: "@ + m@,
        PlatformError::ProbeError(m) => "Capability probe failed: "@ + m@,
        PlatformError::IoError(_) => "IO error: "@,
    }
}

impl PlatformError {
    /// The error's message; an I/O error's message continues with the
    /// operating system's text.
    pub fn to_string(&self) -> (r: String)
        ensures
            self is IoError ==> r@.subrange(0, 10) == platform_error_message(*self),
            !(self is IoError) ==> r@ == platform_error_message(*self),
    {
        match self {
            PlatformError::CapabilityNotSupported(c) => {
                let mut s = "Capability not supported: ".to_owned();
                s.append(c.name());
                s
            },
            PlatformError::InitializationError(m) => {
                let mut s = "Platform initialization failed: ".to_owned();
                s.append(m.as_str());
                s
            },
            PlatformError::ShutdownError(m) => {
                let mut s = "Platform shutdown failed: ".to_owned();
                s.append(m.as_str());
                s
            },
            PlatformError::ProbeError(m) => {
                let mut s = "Capability probe failed: ".to_owned();
                s.append(m.as_str());
                s
            },
            PlatformError::IoError(e) => {
                let mut s = "IO error: ".to_owned();
                let t = io_error_text(e);
                s.append(t.as_str());
                proof {
                    reveal_strlit("IO error: ");
                }
                assert(s@.subrange(0, 10) =~= "IO error: "@);
                s
            },
        }
    }
}

/// Platform abstraction: the operations the engine needs from a platform,
/// so that it works the same on Linux and on a mock for testing.
pub trait Platform {
    /// The platform's information.
    spec fn info_spec(&self) -> PlatformInfo;

    /// The platform's event type registry.
    spec fn registry_spec(&self) -> EventTypeRegistry;

    /// Get platform information
    fn info(&self) -> (r: &PlatformInfo)
        ensures
            *r == self.info_spec(),
    ;

    /// Check if a capability is supported
    fn has_capability(&self, cap: PlatformCapability) -> (r: bool)
        ensures
            r == self.info_spec().capabilities@.contains(cap),
    {
        self.info().has_capability(cap)
    }

    /// Get the event type registry
    fn event_types(&self) -> (r: &EventTypeRegistry)
        ensures
            *r == self.registry_spec(),
            r.wf(),
    ;

    /// What probing `cap` may report on this platform.
    spec fn probes(&self, cap: PlatformCapability, r: Result<bool, PlatformError>) -> bool;

    /// Probe at run time whether a capability is actually available.
    fn probe_capability(&self, cap: PlatformCapability) -> (r: Result<bool, PlatformError>)
        ensures
            self.probes(cap, r),
    ;

    /// What initializing may do: report `r` and leave the platform as `after`.
    spec fn initializes(&self, after: &Self, r: Result<(), PlatformError>) -> bool;

    /// Initialize the platform
    fn initialize(&mut self) -> (r: Result<(), PlatformError>)
        ensures
            old(self).initializes(&*final(self), r),
    ;

    /// What shutting down may do: report `r` and leave the platform as `after`.
    spec fn shuts_down(&self, after: &Self, r: Result<(), PlatformError>) -> bool;

    /// Shutdown the platform
    fn shutdown(&mut self) -> (r: Result<(), PlatformError>)
        ensures
            old(self).shuts_down(&*final(self), r),
    ;
}

/// Mock platform for testing
pub struct MockPlatform {
    info: PlatformInfo,
    event_types: EventTypeRegistry,
    initialized: bool,
}

impl MockPlatform {
    /// The mock's registry stays well formed.
    #[verifier::type_invariant]
    spec fn registry_wf(self) -> bool {
        self.event_types.wf()
    }

    /// Whether the platform is initialized.
    pub closed spec fn initialized_spec(&self) -> bool {
        self.initialized
    }

    /// A mock platform with the mock capabilities and the default event types.
    pub fn new() -> (p: Self)
        ensures
            p.info_spec().capabilities@ == mock_capabilities(),
            p.info_spec().name@ == "mock"@,
            p.registry_spec().names() == default_event_types(),
            p.registry_spec().ids() == default_event_names(),
            !p.initialized_spec(),
    {
        MockPlatform { info: PlatformInfo::mock(), event_types: EventTypeRegistry::new(), initialized: false }
    }

    /// A mock platform with the given capabilities.
    pub fn with_capabilities(caps: Vec<PlatformCapability>) -> (p: Self)
        ensures
            p.info_spec().capabilities@ == caps@,
            p.info_spec().name@ == "mock"@,
            p.registry_spec().names() == default_event_types(),
            !p.initialized_spec(),
    {
        let mut info = PlatformInfo::mock();
        info.capabilities = caps;
        MockPlatform { info, event_types: EventTypeRegistry::new(), initialized: false }
    }

    /// Whether the platform is initialized.
    pub fn is_initialized(&self) -> (r: bool)
        ensures
            r == self.initialized_spec(),
    {
        self.initialized
    }
}

impl Default for MockPlatform {
    fn default() -> (p: Self)
        ensures
            p.info_spec().capabilities@ == mock_capabilities(),
            p.registry_spec().names() == default_event_types(),
            !p.initialized_spec(),
    {
        Self::new()
    }
}

impl Platform for MockPlatform {
    closed spec fn info_spec(&self) -> PlatformInfo {
        self.info
    }

    closed spec fn registry_spec(&self) -> EventTypeRegistry {
        self.event_types
    }

    fn info(&self) -> (r: &PlatformInfo) {
        &self.info
    }

    fn event_types(&self) -> (r: &EventTypeRegistry) {
        proof {
            use_type_invariant(self);
        }
        &self.event_types
    }

    /// The mock reports its capability list.
    open spec fn probes(&self, cap: PlatformCapability, r: Result<bool, PlatformError>) -> bool {
        r matches Ok(b) && b == self.info_spec().capabilities@.contains(cap)
    }

    fn probe_capability(&self, cap: PlatformCapability) -> (r: Result<bool, PlatformError>)
        ensures
            r matches Ok(b) && b == self.info_spec().capabilities@.contains(cap),
    {
        Ok(self.info.has_capability(cap))
    }

    /// Initializing the mock succeeds and only marks it initialized.
    open spec fn initializes(&self, after: &Self, r: Result<(), PlatformError>) -> bool {
        &&& r is Ok
        &&& after.initialized_spec()
        &&& after.info_spec() == self.info_spec()
        &&& after.registry_spec() == self.registry_spec()
    }

    fn initialize(&mut self) -> (r: Result<(), PlatformError>)
    {
        proof {
            use_type_invariant(&*self);
        }
        self.initialized = true;
        Ok(())
    }

    /// Shutting the mock down succeeds and only marks it uninitialized.
    open spec fn shuts_down(&self, after: &Self, r: Result<(), PlatformError>) -> bool {
        &&& r is Ok
        &&& !after.initialized_spec()
        &&& after.info_spec() == self.info_spec()
        &&& after.registry_spec() == self.registry_spec()
    }

    fn shutdown(&mut self) -> (r: Result<(), PlatformError>)
    {
        proof {
            use_type_invariant(&*self);
        }
        self.initialized = false;
        Ok(())
    }
}

/// Platform manager: reaches the platform only through the abstraction.
pub struct PlatformManager<P: Platform> {
    platform: P,
}

impl<P: Platform> PlatformManager<P> {
    /// The managed platform.
    pub closed spec fn platform_spec(&self) -> P {
        self.platform
    }

    /// A manager over the given platform.
    pub fn new(platform: P) -> (m: Self)
        ensures
            m.platform_spec() == platform,
    {
        PlatformManager { platform }
    }

    /// Initialize the platform
    pub fn initialize(&mut self) -> (r: Result<(), PlatformError>)
        ensures
            old(self).platform_spec().initializes(&final(self).platform_spec(), r),
    {
        self.platform.initialize()
    }

    /// Shutdown the platform
    pub fn shutdown(&mut self) -> (r: Result<(), PlatformError>)
        ensures
            old(self).platform_spec().shuts_down(&final(self).platform_spec(), r),
    {
        self.platform.shutdown()
    }

    /// Get platform information
    pub fn info(&self) -> (r: &PlatformInfo)
        ensures
            *r == self.platform_spec().info_spec(),
    {
        self.platform.info()
    }

    /// Check if a capability is supported
    pub fn has_capability(&self, cap: PlatformCapability) -> (r: bool)
        ensures
            r == self.platform_spec().info_spec().capabilities@.contains(cap),
    {
        self.platform.has_capability(cap)
    }

    /// Probe for a capability: what the platform reports.
    pub fn probe_capability(&self, cap: PlatformCapability) -> (r: Result<bool, PlatformError>)
        ensures
            self.platform_spec().probes(cap, r),
    {
        self.platform.probe_capability(cap)
    }

    /// Get event type registry
    pub fn event_types(&self) -> (r: &EventTypeRegistry)
        ensures
            *r == self.platform_spec().registry_spec(),
    {
        self.platform.event_types()
    }

    /// Get event type ID by name
    pub fn get_event_type_id(&self, name: &str) -> (r: Option<u16>)
        ensures
            r == (if self.platform_spec().registry_spec().names().contains_key(name@) {
                Some(self.platform_spec().registry_spec().names()[name@])
            } else {
                None
            }),
    {
        self.platform.event_types().get_id(name)
    }

    /// Get event type name by ID
    pub fn get_event_type_name(&self, id: u16) -> (r: Option<&str>)
        ensures
            match r {
                Some(s) => self.platform_spec().registry_spec().ids().contains_key(id)
                    && s@ == self.platform_spec().registry_spec().ids()[id],
                None => !self.platform_spec().registry_spec().ids().contains_key(id),
            },
    {
        self.platform.event_types().get_name(id)
    }
}

impl PlatformManager<MockPlatform> {
    /// A manager over a new mock platform (for testing).
    pub fn mock() -> (m: Self)
        ensures
            m.platform_spec().info_spec().capabilities@ == mock_capabilities(),
            m.platform_spec().registry_spec().names() == default_event_types(),
            m.platform_spec().registry_spec().ids() == default_event_names(),
            !m.platform_spec().initialized_spec(),
    {
        Self::new(MockPlatform::new())
    }
}

} // verus!
