//! Endpoint security event types: the kinds of events the macOS collector
//! reports, their numeric ids and names, raw event records, process
//! information, and helpers for entity keys and byte buffers.
use vstd::prelude::*;
use vstd::string::*;
use vstd::utf8::*;
use crate::cstr::{c_str_text, decode_c_str, str_from_utf8};

verus! {

/// macOS event types that can be collected via the Endpoint Security Framework.
#[derive(Debug, Clone, Copy, PartialEq, Eq, Hash)]
pub enum EventType {
    // Process events
    ProcessExec,
    ProcessFork,
    ProcessExit,
    ProcessSignal,
    // File events
    FileCreate,
    FileOpen,
    FileWrite,
    FileRename,
    FileUnlink,
    FileLink,
    FileTruncate,
    // Permission events
    SetUid,
    SetGid,
    SetEuid,
    SetEgid,
    SetReuid,
    SetRegid,
    // Memory events
    Mmap,
    Mprotect,
    // IPC events
    UnixDomainSocketConnect,
    UnixDomainSocketBind,
    // Login events
    LoginLogin,
    LoginLogout,
    LoginAuthenticate,
    // Background task management events
    BtmLaunchItemAdd,
    BtmLaunchItemRemove,
    // XProtect events
    XpMalwareDetected,
    XpMalwareRemediated,
    // Other events
    IokitOpen,
    XpcConnect,
    Sudo,
}

/// The numeric id of each event type.
pub open spec fn event_type_id(t: EventType) -> u16 {
    match t {
        EventType::ProcessExec => 1,
        EventType::ProcessFork => 2,
        EventType::ProcessExit => 3,
        EventType::ProcessSignal => 4,
        EventType::FileCreate => 10,
        EventType::FileOpen => 11,
        EventType::FileWrite => 12,
        EventType::FileRename => 13,
        EventType::FileUnlink => 14,
        EventType::FileLink => 15,
        EventType::FileTruncate => 16,
        EventType::SetUid => 20,
        EventType::SetGid => 21,
        EventType::SetEuid => 22,
        EventType::SetEgid => 23,
        EventType::SetReuid => 24,
        EventType::SetRegid => 25,
        EventType::Mmap => 30,
        EventType::Mprotect => 31,
        EventType::UnixDomainSocketConnect => 40,
        EventType::UnixDomainSocketBind => 41,
        EventType::LoginLogin => 50,
        EventType::LoginLogout => 51,
        EventType::LoginAuthenticate => 52,
        EventType::BtmLaunchItemAdd => 60,
        EventType::BtmLaunchItemRemove => 61,
        EventType::XpMalwareDetected => 70,
        EventType::XpMalwareRemediated => 71,
        EventType::IokitOpen => 80,
        EventType::XpcConnect => 81,
        EventType::Sudo => 82,
    }
}

/// The human-readable name of each event type.
pub open spec fn event_type_name(t: EventType) -> Seq<char> {
    match t {
        EventType::ProcessExec => "process_exec"@,
        EventType::ProcessFork => "process_fork"@,
        EventType::ProcessExit => "process_exit"@,
        EventType::ProcessSignal => "process_signal"@,
        EventType::FileCreate => "file_create"@,
        EventType::FileOpen => "file_open"@,
        EventType::FileWrite => "file_write"@,
        EventType::FileRename => "file_rename"@,
        EventType::FileUnlink => "file_unlink"@,
        EventType::FileLink => "file_link"@,
        EventType::FileTruncate => "file_truncate"@,
        EventType::SetUid => "set_uid"@,
        EventType::SetGid => "set_gid"@,
        EventType::SetEuid => "set_euid"@,
        EventType::SetEgid => "set_egid"@,
        EventType::SetReuid => "set_reuid"@,
        EventType::SetRegid => "set_regid"@,
        EventType::Mmap => "mmap"@,
        EventType::Mprotect => "mprotect"@,
        EventType::UnixDomainSocketConnect => "unix_socket_connect"@,
        EventType::UnixDomainSocketBind => "unix_socket_bind"@,
        EventType::LoginLogin => "login"@,
        EventType::LoginLogout => "logout"@,
        EventType::LoginAuthenticate => "authenticate"@,
        EventType::BtmLaunchItemAdd => "launch_item_add"@,
        EventType::BtmLaunchItemRemove => "launch_item_remove"@,
        EventType::XpMalwareDetected => "malware_detected"@,
        EventType::XpMalwareRemediated => "malware_remediated"@,
        EventType::IokitOpen => "iokit_open"@,
        EventType::XpcConnect => "xpc_connect"@,
        EventType::Sudo => "sudo"@,
    }
}

impl EventType {
    /// Convert to a numeric ID for events.
    pub fn to_event_type_id(&self) -> (id: u16)
        ensures
            id == event_type_id(*self),
    {
        match self {
            EventType::ProcessExec => 1,
            EventType::ProcessFork => 2,
            EventType::ProcessExit => 3,
            EventType::ProcessSignal => 4,
            EventType::FileCreate => 10,
            EventType::FileOpen => 11,
            EventType::FileWrite => 12,
            EventType::FileRename => 13,
            EventType::FileUnlink => 14,
            EventType::FileLink => 15,
            EventType::FileTruncate => 16,
            EventType::SetUid => 20,
            EventType::SetGid => 21,
            EventType::SetEuid => 22,
            EventType::SetEgid => 23,
            EventType::SetReuid => 24,
            EventType::SetRegid => 25,
            EventType::Mmap => 30,
            EventType::Mprotect => 31,
            EventType::UnixDomainSocketConnect => 40,
            EventType::UnixDomainSocketBind => 41,
            EventType::LoginLogin => 50,
            EventType::LoginLogout => 51,
            EventType::LoginAuthenticate => 52,
            EventType::BtmLaunchItemAdd => 60,
            EventType::BtmLaunchItemRemove => 61,
            EventType::XpMalwareDetected => 70,
            EventType::XpMalwareRemediated => 71,
            EventType::IokitOpen => 80,
            EventType::XpcConnect => 81,
            EventType::Sudo => 82,
        }
    }

    /// Create from a numeric ID.
    pub fn from_event_type_id(id: u16) -> (r: Option<Self>)
        ensures
            r matches Some(t) ==> event_type_id(t) == id,
            r is None ==> forall|t: EventType| event_type_id(t) != id,
    {
        match id {
            1 => Some(EventType::ProcessExec),
            2 => Some(EventType::ProcessFork),
            3 => Some(EventType::ProcessExit),
            4 => Some(EventType::ProcessSignal),
            10 => Some(EventType::FileCreate),
            11 => Some(EventType::FileOpen),
            12 => Some(EventType::FileWrite),
            13 => Some(EventType::FileRename),
            14 => Some(EventType::FileUnlink),
            15 => Some(EventType::FileLink),
            16 => Some(EventType::FileTruncate),
            20 => Some(EventType::SetUid),
            21 => Some(EventType::SetGid),
            22 => Some(EventType::SetEuid),
            23 => Some(EventType::SetEgid),
            24 => Some(EventType::SetReuid),
            25 => Some(EventType::SetRegid),
            30 => Some(EventType::Mmap),
            31 => Some(EventType::Mprotect),
            40 => Some(EventType::UnixDomainSocketConnect),
            41 => Some(EventType::UnixDomainSocketBind),
            50 => Some(EventType::LoginLogin),
            51 => Some(EventType::LoginLogout),
            52 => Some(EventType::LoginAuthenticate),
            60 => Some(EventType::BtmLaunchItemAdd),
            61 => Some(EventType::BtmLaunchItemRemove),
            70 => Some(EventType::XpMalwareDetected),
            71 => Some(EventType::XpMalwareRemediated),
            80 => Some(EventType::IokitOpen),
            81 => Some(EventType::XpcConnect),
            82 => Some(EventType::Sudo),
            _ => None,
        }
    }

    /// Get the human-readable name.
    pub fn name(&self) -> (r: &'static str)
        ensures
            r@ == event_type_name(*self),
    {
        match self {
            EventType::ProcessExec => "process_exec",
            EventType::ProcessFork => "process_fork",
            EventType::ProcessExit => "process_exit",
            EventType::ProcessSignal => "process_signal",
            EventType::FileCreate => "file_create",
            EventType::FileOpen => "file_open",
            EventType::FileWrite => "file_write",
            EventType::FileRename => "file_rename",
            EventType::FileUnlink => "file_unlink",
            EventType::FileLink => "file_link",
            EventType::FileTruncate => "file_truncate",
            EventType::SetUid => "set_uid",
            EventType::SetGid => "set_gid",
            EventType::SetEuid => "set_euid",
            EventType::SetEgid => "set_egid",
            EventType::SetReuid => "set_reuid",
            EventType::SetRegid => "set_regid",
            EventType::Mmap => "mmap",
            EventType::Mprotect => "mprotect",
            EventType::UnixDomainSocketConnect => "unix_socket_connect",
            EventType::UnixDomainSocketBind => "unix_socket_bind",
            EventType::LoginLogin => "login",
            EventType::LoginLogout => "logout",
            EventType::LoginAuthenticate => "authenticate",
            EventType::BtmLaunchItemAdd => "launch_item_add",
            EventType::BtmLaunchItemRemove => "launch_item_remove",
            EventType::XpMalwareDetected => "malware_detected",
            EventType::XpMalwareRemediated => "malware_remediated",
            EventType::IokitOpen => "iokit_open",
            EventType::XpcConnect => "xpc_connect",
            EventType::Sudo => "sudo",
        }
    }
}

/// Distinct event types have distinct ids, so an id converts back to the
/// type it came from.
pub proof fn law_event_type_id_injective(t: EventType, u: EventType)
    ensures
        event_type_id(t) == event_type_id(u) ==> t == u,
{
}

/// Additional metadata for events.
#[derive(Debug, Clone, Default)]
pub struct EventMetadata {
    /// Exit code (for process exit)
    pub exit_code: Option<i32>,
    /// Signal number (for signal events)
    pub signal: Option<i32>,
    /// File mode/permissions
    pub mode: Option<u32>,
    /// Source path (for rename/link)
    pub source_path: Option<String>,
    /// Destination path (for rename/link)
    pub dest_path: Option<String>,
    /// Socket type (for socket events)
    pub socket_type: Option<u32>,
    /// Address family
    pub address_family: Option<u32>,
    /// Code signing flags
    pub cs_flags: Option<u32>,
    /// Is platform binary
    pub is_platform_binary: Option<bool>,
}

/// Raw event from the Endpoint Security Framework, before normalization.
#[derive(Debug, Clone)]
pub struct RawEsfEvent {
    /// Event type
    pub event_type: EventType,
    /// Timestamp in nanoseconds (monotonic)
    pub timestamp_ns: u64,
    /// Process ID
    pub pid: u32,
    /// Parent process ID
    pub ppid: u32,
    /// User ID
    pub uid: u32,
    /// Group ID
    pub gid: u32,
    /// Process name/comm
    pub comm: String,
    /// Primary data (path, socket address, etc.)
    pub primary: String,
    /// Secondary data (args, destination, etc.)
    pub secondary: String,
    /// Additional metadata
    pub metadata: EventMetadata,
}

/// Process information for enrichment.
#[derive(Debug, Clone)]
pub struct ProcessInfo {
    /// Process ID
    pub pid: u32,
    /// Parent process ID
    pub ppid: u32,
    /// User ID
    pub uid: u32,
    /// Group ID
    pub gid: u32,
    /// Process name
    pub name: String,
    /// Executable path
    pub executable: String,
    /// Command line arguments
    pub args: Vec<String>,
    /// Working directory
    pub cwd: String,
    /// Start time (nanoseconds since epoch)
    pub start_time_ns: u64,
}

/// Maximum length for process name
pub const MAX_COMM_LEN: usize = 16;

/// Maximum length for paths
pub const MAX_PATH_LEN: usize = 1024;

/// Maximum length for arguments
pub const MAX_ARGS_LEN: usize = 4096;

/// Create an entity key from process ID and timestamp: the pid in the high
/// 64 bits and the timestamp in the low 64 bits, a unique identifier for a
/// process instance.
pub fn create_entity_key(pid: u32, timestamp_ns: u64) -> (k: u128)
    ensures
        k == pid * 0x1_0000_0000_0000_0000 + timestamp_ns,
        k / 0x1_0000_0000_0000_0000 == pid,
        k % 0x1_0000_0000_0000_0000 == timestamp_ns,
{
    let p = pid as u128;
    let t = timestamp_ns as u128;
    let k = (p << 64) | t;
    assert(k == p * 0x1_0000_0000_0000_0000 + t) by (bit_vector)
        requires
            p < 0x1_0000_0000,
            t < 0x1_0000_0000_0000_0000,
            k == (p << 64) | t,
    ;
    k
}

/// Parse a NUL-terminated byte array into a String: nothing for an empty
/// string or for bytes that are not UTF-8.
pub fn parse_bytes(data: &[u8]) -> (r: Option<String>)
    ensures
        r matches Some(s) ==> c_str_text(data@) == Some(s@),
        r is None ==> c_str_text(data@) is None,
{
    decode_c_str(data)
}

/// Whether truncating `s` to `max_len` bytes is defined: it fits already,
/// or room is left for the `...` marker and the cut falls between characters.
pub open spec fn truncation_defined(s: &str, max_len: usize) -> bool {
    s.spec_bytes().len() > max_len ==> max_len >= 3 && valid_utf8(s.spec_bytes().take(max_len - 3))
}

/// Truncate a string to a maximum length in bytes: a string that fits is
/// kept, a longer one keeps its first `max_len - 3` bytes followed by `...`.
pub fn truncate_string(s: &str, max_len: usize) -> (r: String)
    requires
        truncation_defined(s, max_len),
    ensures
        s.spec_bytes().len() <= max_len ==> r@ == s@,
        s.spec_bytes().len() > max_len ==> r@ == decode_utf8(s.spec_bytes().take(max_len - 3)) + "..."@,
{
    let bytes = s.as_bytes();
    if bytes.len() <= max_len {
        return s.to_owned();
    }
    let (head, _tail) = bytes.split_at(max_len - 3);
    assert(head@ == s.spec_bytes().take(max_len - 3));
    match str_from_utf8(head) {
        Some(h) => {
            proof {
                decode_utf8_encode_utf8(head@);
                encode_utf8_decode_utf8(h@);
            }
            let mut r = h.to_owned();
            r.append("...");
            r
        },
        None => {
            assert(false);
            s.to_owned()
        },
    }
}

} // verus!
