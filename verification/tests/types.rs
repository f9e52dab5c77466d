use kestrel::ebpf_types;
use kestrel::ebpf_types::EbpfEventType;
use kestrel::macos_types::{self, EventMetadata, EventType, RawEsfEvent};

#[test]
fn types_test_event_type_conversion() {
    // macOS event types
    let event_type = EventType::ProcessExec;
    let id = event_type.to_event_type_id();
    assert_eq!(id, 1);
    let converted = EventType::from_event_type_id(id);
    assert_eq!(converted, Some(event_type));

    // eBPF event types
    assert_eq!(EbpfEventType::ProcessExec.as_u32(), 1);
    assert_eq!(EbpfEventType::FileOpen.as_u32(), 3);
    assert_eq!(EbpfEventType::NetworkConnect.as_u32(), 6);
}

#[test]
fn types_test_event_type_name() {
    assert_eq!(EventType::ProcessExec.name(), "process_exec");
    assert_eq!(EventType::FileOpen.name(), "file_open");
    assert_eq!(EventType::Sudo.name(), "sudo");

    assert_eq!(EbpfEventType::ProcessExec.name(), "process_exec");
    assert_eq!(EbpfEventType::FileOpen.name(), "file_open");
    assert_eq!(EbpfEventType::NetworkConnect.name(), "network_connect");
}

#[test]
fn test_event_type_roundtrip() {
    let all_types = vec![
        EventType::ProcessExec,
        EventType::ProcessFork,
        EventType::ProcessExit,
        EventType::FileCreate,
        EventType::FileOpen,
        EventType::FileWrite,
        EventType::SetUid,
        EventType::Mmap,
        EventType::LoginLogin,
        EventType::XpMalwareDetected,
        EventType::Sudo,
    ];
    for event_type in all_types {
        let id = event_type.to_event_type_id();
        let converted = EventType::from_event_type_id(id);
        assert_eq!(converted, Some(event_type), "Failed for {:?}", event_type);
    }
}

#[test]
fn macos_event_type_unknown_id() {
    assert_eq!(EventType::from_event_type_id(0), None);
    assert_eq!(EventType::from_event_type_id(60000), None);
}

#[test]
fn types_test_create_entity_key() {
    // macOS: pid in the high half, timestamp in the low half
    let pid = 1234;
    let timestamp = 1000000000;
    let key = macos_types::create_entity_key(pid, timestamp);
    assert_eq!((key >> 64) as u32, pid);
    assert_eq!(key as u64, timestamp);

    // eBPF: deterministic and sensitive to the pid
    let key1 = ebpf_types::create_entity_key(100, 1, 1000000);
    let key2 = ebpf_types::create_entity_key(100, 1, 1000000);
    let key3 = ebpf_types::create_entity_key(101, 1, 1000000);
    assert_eq!(key1, key2);
    assert_ne!(key1, key3);
}

#[test]
fn ebpf_entity_key_formula() {
    assert_eq!(ebpf_types::create_entity_key(7, 3, 2_500_123), 7 + 300_000 + 500_123);
}

#[test]
fn test_parse_bytes() {
    let data = b"hello\0";
    assert_eq!(macos_types::parse_bytes(data), Some("hello".to_string()));
    let data = b"\0";
    assert_eq!(macos_types::parse_bytes(data), None);
    let data = b"hello";
    assert_eq!(macos_types::parse_bytes(data), Some("hello".to_string()));
    let data = b"";
    assert_eq!(macos_types::parse_bytes(data), None);
}

#[test]
fn test_truncate_string() {
    let s = "hello world";
    assert_eq!(macos_types::truncate_string(s, 5), "he...");
    assert_eq!(macos_types::truncate_string(s, 20), "hello world");
    assert_eq!(macos_types::truncate_string(s, 11), "hello world");
}

#[test]
fn test_raw_esf_event_default() {
    let event = RawEsfEvent {
        event_type: EventType::ProcessExec,
        timestamp_ns: 1234567890,
        pid: 1000,
        ppid: 1,
        uid: 501,
        gid: 20,
        comm: "test".to_string(),
        primary: "/usr/bin/test".to_string(),
        secondary: "--arg1 --arg2".to_string(),
        metadata: EventMetadata::default(),
    };
    assert_eq!(event.event_type, EventType::ProcessExec);
    assert_eq!(event.pid, 1000);
    assert!(event.metadata.exit_code.is_none());
}

#[test]
fn test_event_type_from_u32() {
    assert_eq!(EbpfEventType::from_u32(1), Some(EbpfEventType::ProcessExec));
    assert_eq!(EbpfEventType::from_u32(3), Some(EbpfEventType::FileOpen));
    assert_eq!(EbpfEventType::from_u32(99), None);
}

#[test]
fn types_test_parse_bytes_valid() {
    let bytes = b"hello\0\0\0";
    assert_eq!(ebpf_types::parse_bytes(bytes), Some("hello".to_string()));
}

#[test]
fn types_test_parse_bytes_empty() {
    let bytes = [0u8; 16];
    assert_eq!(ebpf_types::parse_bytes(&bytes), None);
}

#[test]
fn test_parse_bytes_no_null() {
    let bytes = b"hello";
    assert_eq!(ebpf_types::parse_bytes(bytes), Some("hello".to_string()));
}

#[test]
fn test_parse_bytes_utf8_invalid() {
    let bytes = [0xFF, 0xFE, 0x00];
    assert_eq!(ebpf_types::parse_bytes(&bytes), None);
}
