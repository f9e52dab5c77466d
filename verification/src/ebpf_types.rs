//! Event layouts and event type identifiers shared with the eBPF programs.
use vstd::prelude::*;

verus! {

/// Process execution event type
pub const EVENT_TYPE_PROCESS_EXEC: u32 = 1;
/// Process exit event type
pub const EVENT_TYPE_PROCESS_EXIT: u32 = 2;
/// File open event type
pub const EVENT_TYPE_FILE_OPEN: u32 = 3;
/// File rename event type
pub const EVENT_TYPE_FILE_RENAME: u32 = 4;
/// File unlink event type
pub const EVENT_TYPE_FILE_UNLINK: u32 = 5;
/// Network connect event type
pub const EVENT_TYPE_NETWORK_CONNECT: u32 = 6;
/// Network send event type
pub const EVENT_TYPE_NETWORK_SEND: u32 = 7;

/// Raw eBPF event header (legacy format)
#[derive(Debug, Clone)]
pub struct RawEbpfEvent {
    pub event_type: u32,
    pub ts_mono_ns: u64,
    pub entity_key: u64,
    pub pid: u32,
    pub ppid: u32,
    pub uid: u32,
    pub gid: u32,
    pub path_len: u32,
    pub cmdline_len: u32,
    pub exit_code: i32,
}

/// Execve event as laid out by the kernel program.
#[derive(Debug, Clone)]
pub struct ExecveEvent {
    pub ts_mono_ns: u64,
    pub pid: u32,
    pub ppid: u32,
    pub uid: u32,
    pub gid: u32,
    pub entity_key: u32,
    pub comm: [u8; 16],
    pub pathname: [u8; 256],
    pub args: [u8; 512],
}

/// Unified event envelope read from the ring buffer.
#[derive(Debug, Clone, Copy)]
pub struct LiveEvent {
    pub event_type: u32,
    pub event_size: u32,
    pub ts_mono_ns: u64,
    pub pid: u32,
    pub ppid: u32,
    pub uid: u32,
    pub gid: u32,
    pub entity_key: u32,
    pub subtype: u32,
    pub aux_u32_1: u32,
    pub aux_u32_2: u32,
    pub aux_u64_1: u64,
    pub comm: [u8; 16],
    pub primary: [u8; 256],
    pub secondary: [u8; 256],
}

/// Supported eBPF event types
#[derive(Debug, Clone, Copy, PartialEq, Eq, Hash)]
pub enum EbpfEventType {
    ProcessExec,
    ProcessExit,
    FileOpen,
    FileRename,
    FileUnlink,
    NetworkConnect,
    NetworkSend,
}

/// Numeric identifier of each event type, as the kernel programs use it.
pub open spec fn ebpf_event_type_id(t: EbpfEventType) -> u32 {
    match t {
        EbpfEventType::ProcessExec => 1,
        EbpfEventType::ProcessExit => 2,
        EbpfEventType::FileOpen => 3,
        EbpfEventType::FileRename => 4,
        EbpfEventType::FileUnlink => 5,
        EbpfEventType::NetworkConnect => 6,
        EbpfEventType::NetworkSend => 7,
    }
}

/// Human-readable name of each event type.
pub open spec fn ebpf_event_type_name(t: EbpfEventType) -> Seq<char> {
    match t {
        EbpfEventType::ProcessExec => "process_exec"@,
        EbpfEventType::ProcessExit => "process_exit"@,
        EbpfEventType::FileOpen => "file_open"@,
        EbpfEventType::FileRename => "file_rename"@,
        EbpfEventType::FileUnlink => "file_unlink"@,
        EbpfEventType::NetworkConnect => "network_connect"@,
        EbpfEventType::NetworkSend => "network_send"@,
    }
}

impl EbpfEventType {
    /// Get the numeric event type ID
    pub fn as_u32(&self) -> (r: u32)
        ensures
            r == ebpf_event_type_id(*self),
    {
        match self {
            Self::ProcessExec => EVENT_TYPE_PROCESS_EXEC,
            Self::ProcessExit => EVENT_TYPE_PROCESS_EXIT,
            Self::FileOpen => EVENT_TYPE_FILE_OPEN,
            Self::FileRename => EVENT_TYPE_FILE_RENAME,
            Self::FileUnlink => EVENT_TYPE_FILE_UNLINK,
            Self::NetworkConnect => EVENT_TYPE_NETWORK_CONNECT,
            Self::NetworkSend => EVENT_TYPE_NETWORK_SEND,
        }
    }

    /// Create from numeric event type ID
    pub fn from_u32(value: u32) -> (r: Option<Self>)
        ensures
            r matches Some(t) ==> ebpf_event_type_id(t) == value,
            r is None ==> forall|t: EbpfEventType| ebpf_event_type_id(t) != value,
    {
        match value {
            1 => Some(Self::ProcessExec),
            2 => Some(Self::ProcessExit),
            3 => Some(Self::FileOpen),
            4 => Some(Self::FileRename),
            5 => Some(Self::FileUnlink),
            6 => Some(Self::NetworkConnect),
            7 => Some(Self::NetworkSend),
            _ => None,
        }
    }

    /// Get the event type name
    pub fn name(&self) -> (r: &'static str)
        ensures
            r@ == ebpf_event_type_name(*self),
    {
        match self {
            Self::ProcessExec => "process_exec",
            Self::ProcessExit => "process_exit",
            Self::FileOpen => "file_open",
            Self::FileRename => "file_rename",
            Self::FileUnlink => "file_unlink",
            Self::NetworkConnect => "network_connect",
            Self::NetworkSend => "network_send",
        }
    }
}

/// Converting an event type to its identifier and back gives the same type,
/// and distinct types have distinct identifiers.
pub proof fn law_ebpf_event_type_id_roundtrip(t: EbpfEventType, u: EbpfEventType)
    ensures
        1 <= ebpf_event_type_id(t) <= 7,
        ebpf_event_type_id(t) == ebpf_event_type_id(u) ==> t == u,
{
}

/// Parse null-terminated byte array into String.
///
/// Returns None if the array is empty, starts with a NUL byte, or the bytes
/// before the first NUL are not UTF-8.
pub fn parse_bytes(bytes: &[u8]) -> (r: Option<String>)
    ensures
        r matches Some(s) ==> crate::cstr::c_str_text(bytes@) == Some(s@),
        r is None ==> crate::cstr::c_str_text(bytes@) is None,
{
    crate::cstr::decode_c_str(bytes)
}

/// Create a standard entity key from process information
///
/// This creates a deterministic entity key from pid and start time,
/// which can be used for process tree correlation.
pub fn create_entity_key(pid: u32, ppid: u32, ts_mono_ns: u64) -> (r: u64)
    ensures
        r == pid + ppid * 100_000 + ts_mono_ns % 1_000_000,
{
    (pid as u64) + (ppid as u64) * 100_000 + (ts_mono_ns % 1_000_000)
}

} // verus!
