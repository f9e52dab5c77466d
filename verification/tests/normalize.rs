use kestrel::ebpf::{
    decode_execve, polling_continues_after, EbpfCollector, EbpfError, EbpfEventType, ExecveEvent, PollAction,
    RawEbpfEvent, RecordAction, SendOutcome, EXECVE_RECORD_SIZE,
};
use kestrel::ebpf_types::LiveEvent;
use kestrel::event::{FieldSchema, TypedValue};
use kestrel::macos_normalize::EventNormalizer as EsfNormalizer;
use kestrel::macos_types::{EventMetadata, EventType, RawEsfEvent};
use kestrel::normalize::EventNormalizer;

/// A schema with the Linux field names the normalizer fills.
fn linux_schema() -> FieldSchema {
    let mut schema = FieldSchema::new();
    for name in [
        "process.entity_id",
        "process.operation",
        "process.pid",
        "process.ppid",
        "process.uid",
        "process.gid",
        "process.name",
        "process.executable",
        "process.command_line",
        "process.exit_code",
        "file.operation",
        "file.path",
        "file.directory",
        "file.name",
        "file.inode",
        "network.operation",
        "network.destination",
        "network.dest_port",
    ] {
        assert!(schema.register_field(name).is_some());
    }
    schema
}

fn live(event_type: u32, subtype: u32) -> LiveEvent {
    LiveEvent {
        event_type,
        event_size: 0,
        ts_mono_ns: 99,
        pid: 321,
        ppid: 0,
        uid: 1000,
        gid: 1000,
        entity_key: 88,
        subtype,
        aux_u32_1: 0,
        aux_u32_2: 0,
        aux_u64_1: 0,
        comm: [0; 16],
        primary: [0; 256],
        secondary: [0; 256],
    }
}

fn raw(event_type: u32) -> RawEbpfEvent {
    RawEbpfEvent {
        event_type,
        ts_mono_ns: 55,
        entity_key: 77,
        pid: 123,
        ppid: 122,
        uid: 1000,
        gid: 1000,
        path_len: 0,
        cmdline_len: 0,
        exit_code: 0,
    }
}

fn text_of<'a>(event: &'a kestrel::event::Event, schema: &FieldSchema, name: &str) -> Option<&'a str> {
    let id = schema.get_field_id(name).unwrap();
    event.get_field(id).and_then(|v| v.as_str())
}

#[test]
fn normalize_test_normalizer_creation() {
    let schema = FieldSchema::new();
    let normalizer = EventNormalizer::new(schema);
    // Schema starts with 0 fields
    assert_eq!(normalizer.schema().list_fields().len(), 0);
}

#[test]
fn test_parse_path_valid() {
    let normalizer = EventNormalizer::new(FieldSchema::new());
    let data = b"/usr/bin/bash\x00extra data";
    let path = normalizer.parse_path(data, 0, 14);
    assert_eq!(path, Some("/usr/bin/bash".to_string()));
}

#[test]
fn test_parse_path_offset() {
    let normalizer = EventNormalizer::new(FieldSchema::new());
    let data = b"/usr/bin/bash\x00/usr/bin/ls\x00extra";
    let path = normalizer.parse_path(data, 15, 11);
    assert_eq!(path, Some("usr/bin/ls".to_string()));
}

#[test]
fn test_parse_path_out_of_bounds() {
    let normalizer = EventNormalizer::new(FieldSchema::new());
    let data = b"/usr/bin/bash\x00";
    let path = normalizer.parse_path(data, 0, 100);
    assert_eq!(path, None);
}

#[test]
fn normalize_test_parse_bytes_valid() {
    let normalizer = EventNormalizer::new(FieldSchema::new());
    let data = [b'b', b'a', b's', b'h', 0, 0, 0, 0, 0, 0, 0, 0, 0, 0, 0, 0];
    let result = normalizer.parse_bytes(&data);
    assert_eq!(result, Some("bash".to_string()));
}

#[test]
fn normalize_test_parse_bytes_empty() {
    let normalizer = EventNormalizer::new(FieldSchema::new());
    let data = [0u8; 16];
    let result = normalizer.parse_bytes(&data);
    assert_eq!(result, None);
}

#[test]
fn test_normalize_execve_event() {
    let schema = linux_schema();
    let normalizer = EventNormalizer::new(linux_schema());

    let mut exec = ExecveEvent {
        ts_mono_ns: 1234567890000,
        pid: 1001,
        ppid: 1000,
        uid: 1000,
        gid: 1000,
        entity_key: 12345,
        comm: [0u8; 16],
        pathname: [0u8; 256],
        args: [0u8; 512],
    };
    exec.comm[..4].copy_from_slice(b"test");
    exec.pathname[..13].copy_from_slice(b"/usr/bin/test");
    exec.args[..4].copy_from_slice(b"test");

    let event = normalizer.normalize_execve_event(&exec, 1).unwrap();
    assert_eq!(event.event_id, 1);
    assert_eq!(event.event_type_id, 1);
    assert_eq!(event.ts_mono_ns, 1234567890000);
    assert_eq!(event.entity_key, 12345);
    assert_eq!(event.source_id.as_deref(), Some("ebpf"));
    assert_eq!(text_of(&event, &schema, "process.operation"), Some("exec"));
}

#[test]
fn test_normalize_file_event_uses_category_type_and_operation() {
    let schema = linux_schema();
    let normalizer = EventNormalizer::new(linux_schema());
    let event = normalizer.normalize(&raw(4), &[]).unwrap();
    assert_eq!(event.event_type_id, 3);
    assert_eq!(text_of(&event, &schema, "file.operation"), Some("rename"));
}

#[test]
fn test_normalize_live_file_open_event() {
    let schema = linux_schema();
    let normalizer = EventNormalizer::new(linux_schema());
    let mut ev = live(3, 1);
    ev.aux_u64_1 = 12345;
    ev.primary[..10].copy_from_slice(b"passwd.txt");
    ev.secondary[..4].copy_from_slice(b"etc/");

    let event = normalizer.normalize_live_event(&ev, 7).unwrap();
    assert_eq!(event.event_type_id, 3);
    assert_eq!(text_of(&event, &schema, "file.operation"), Some("open"));
    assert_eq!(text_of(&event, &schema, "file.directory"), Some("etc/"));
    assert_eq!(text_of(&event, &schema, "file.name"), Some("passwd.txt"));
    assert_eq!(text_of(&event, &schema, "file.path"), Some("etc/passwd.txt"));
    let inode_field = schema.get_field_id("file.inode").unwrap();
    assert_eq!(event.get_field(inode_field).and_then(|v| v.as_u64()), Some(12345));
}

#[test]
fn test_normalize_live_network_event_extracts_port_and_destination() {
    let schema = linux_schema();
    let normalizer = EventNormalizer::new(linux_schema());
    let mut ev = live(6, 1);
    ev.ts_mono_ns = 101;
    ev.pid = 123;
    ev.entity_key = 66;
    ev.aux_u32_1 = ((2u32) << 16) | 443;
    ev.aux_u32_2 = u32::from_ne_bytes([192, 168, 1, 10]);

    let event = normalizer.normalize_live_event(&ev, 8).unwrap();
    assert_eq!(event.event_type_id, 6);
    assert_eq!(text_of(&event, &schema, "network.destination"), Some("192.168.1.10"));
    let port_field = schema.get_field_id("network.dest_port").unwrap();
    assert_eq!(event.get_field(port_field).and_then(|v| v.as_u64()), Some(443));
}

#[test]
fn normalize_unknown_raw_type_is_error() {
    let normalizer = EventNormalizer::new(linux_schema());
    match normalizer.normalize(&raw(9), &[]) {
        Err(EbpfError::NormalizationError(m)) => assert_eq!(m, "Unknown event type: 9"),
        other => panic!("unexpected result: {:?}", other),
    }
}

#[test]
fn normalize_unsupported_live_type_is_error() {
    let normalizer = EventNormalizer::new(linux_schema());
    let err = normalizer.normalize_live_event(&live(2, 0), 1).unwrap_err();
    assert_eq!(err.to_string(), "Normalization error: Unsupported live event type: 2");
}

#[test]
fn normalize_raw_exec_reads_path_and_command_line() {
    let schema = linux_schema();
    let normalizer = EventNormalizer::new(linux_schema());
    let mut r = raw(1);
    r.path_len = 8;
    r.cmdline_len = 6;
    let data = b"/bin/ls\x00ls -la";
    let event = normalizer.normalize(&r, data).unwrap();
    assert_eq!(event.event_id, 0);
    assert_eq!(event.event_type_id, 1);
    assert_eq!(event.ts_wall_ns, 55);
    assert_eq!(text_of(&event, &schema, "process.executable"), Some("/bin/ls"));
    assert_eq!(text_of(&event, &schema, "process.command_line"), Some("ls -la"));
    let uid = schema.get_field_id("process.uid").unwrap();
    assert_eq!(event.get_field(uid).and_then(|v| v.as_u64()), Some(1000));
}

#[test]
fn normalize_raw_exit_keeps_negative_exit_code() {
    let schema = linux_schema();
    let normalizer = EventNormalizer::new(linux_schema());
    let mut r = raw(2);
    r.exit_code = -9;
    let event = normalizer.normalize(&r, &[]).unwrap();
    let id = schema.get_field_id("process.exit_code").unwrap();
    assert_eq!(event.get_field(id).and_then(|v| v.as_i64()), Some(-9));
    assert_eq!(text_of(&event, &schema, "process.operation"), Some("exit"));
}

#[test]
fn normalize_live_exit_code_is_signed() {
    let schema = linux_schema();
    let normalizer = EventNormalizer::new(linux_schema());
    let mut ev = live(1, 2);
    ev.aux_u32_1 = 0xFFFF_FFFF;
    ev.comm[..2].copy_from_slice(b"sh");
    let event = normalizer.normalize_live_event(&ev, 3).unwrap();
    let id = schema.get_field_id("process.exit_code").unwrap();
    assert_eq!(event.get_field(id).and_then(|v| v.as_i64()), Some(-1));
    assert_eq!(text_of(&event, &schema, "process.operation"), Some("exit"));
    assert_eq!(text_of(&event, &schema, "process.name"), Some("sh"));
}

#[test]
fn normalize_file_path_drops_trailing_slashes() {
    let schema = linux_schema();
    let normalizer = EventNormalizer::new(linux_schema());
    let mut ev = live(3, 7);
    ev.primary[..6].copy_from_slice(b"shadow");
    ev.secondary[..7].copy_from_slice(b"/etc///");
    let event = normalizer.normalize_live_event(&ev, 1).unwrap();
    assert_eq!(text_of(&event, &schema, "file.path"), Some("/etc/shadow"));
    assert_eq!(text_of(&event, &schema, "file.operation"), Some("unknown"));
    // No inode when the record carries none.
    let inode = schema.get_field_id("file.inode").unwrap();
    assert!(event.get_field(inode).is_none());
}

#[test]
fn normalize_file_without_directory_uses_name() {
    let schema = linux_schema();
    let normalizer = EventNormalizer::new(linux_schema());
    let mut ev = live(3, 1);
    ev.primary[..5].copy_from_slice(b"notes");
    let event = normalizer.normalize_live_event(&ev, 1).unwrap();
    assert_eq!(text_of(&event, &schema, "file.path"), Some("notes"));
    let dir = schema.get_field_id("file.directory").unwrap();
    assert!(event.get_field(dir).is_none());
}

#[test]
fn normalize_empty_schema_gives_no_fields() {
    let normalizer = EventNormalizer::new(FieldSchema::new());
    let event = normalizer.normalize(&raw(1), &[]).unwrap();
    assert!(event.fields.is_empty());
    assert_eq!(event.entity_key, 77);
}

#[test]
fn schema_register_keeps_ids() {
    let mut schema = FieldSchema::new();
    assert_eq!(schema.register_field("a"), Some(1));
    assert_eq!(schema.register_field("b"), Some(2));
    assert_eq!(schema.register_field("a"), Some(1));
    assert_eq!(schema.get_field_id("b"), Some(2));
    assert_eq!(schema.get_field_id("c"), None);
    assert_eq!(schema.list_fields(), vec!["a".to_string(), "b".to_string()]);
    assert!(matches!(TypedValue::U64(3).as_str(), None));
}

fn esf(event_type: EventType, comm: &str, primary: &str, secondary: &str, metadata: EventMetadata) -> RawEsfEvent {
    RawEsfEvent {
        event_type,
        timestamp_ns: 100,
        pid: 1,
        ppid: 0,
        uid: 0,
        gid: 0,
        comm: comm.to_string(),
        primary: primary.to_string(),
        secondary: secondary.to_string(),
        metadata,
    }
}

#[test]
fn test_normalize_exec() {
    let norm = EsfNormalizer::new(FieldSchema::new());
    let raw = esf(EventType::ProcessExec, "sh", "/bin/sh", "-c id", EventMetadata::default());
    assert!(norm.normalize(&raw).is_ok());
}

#[test]
fn test_normalize_file() {
    let norm = EsfNormalizer::new(FieldSchema::new());
    let mut raw = esf(EventType::FileOpen, "cat", "/etc/passwd", "", EventMetadata {
        mode: Some(0o644),
        ..Default::default()
    });
    raw.timestamp_ns = 200;
    raw.pid = 42;
    raw.ppid = 1;
    raw.uid = 501;
    raw.gid = 20;
    assert!(norm.normalize(&raw).is_ok());
}

#[test]
fn test_normalize_rename() {
    let norm = EsfNormalizer::new(FieldSchema::new());
    let mut raw = esf(EventType::FileRename, "mv", "/tmp/a", "/tmp/b", EventMetadata {
        source_path: Some("/tmp/a".into()),
        dest_path: Some("/tmp/b".into()),
        ..Default::default()
    });
    raw.timestamp_ns = 300;
    raw.pid = 99;
    raw.ppid = 1;
    assert!(norm.normalize(&raw).is_ok());
}

#[test]
fn esf_normalize_fills_known_fields() {
    let mut schema = FieldSchema::new();
    for name in ["process.pid", "process.comm", "file.path", "process.args", "file.mode", "file.dest_path"] {
        schema.register_field(name);
    }
    let norm = EsfNormalizer::new(schema);
    let raw = esf(EventType::FileWrite, "", "/var/log/x", "ignored", EventMetadata {
        mode: Some(0o600),
        dest_path: Some("/elsewhere".into()),
        ..Default::default()
    });
    let event = norm.normalize(&raw).unwrap();
    assert_eq!(event.event_type_id, EventType::FileWrite.to_event_type_id());
    assert_eq!(event.entity_key, (1u128 << 64) | 100);
    assert_eq!(event.source_id.as_deref(), Some("macos"));
    let s = norm.schema();
    // pid, path and mode; no comm (empty), no args (not a process exec), no dest path (not a rename).
    assert_eq!(event.fields.len(), 3);
    assert_eq!(event.get_field(s.get_field_id("file.mode").unwrap()).and_then(|v| v.as_u64()), Some(0o600));
    assert_eq!(event.get_field(s.get_field_id("file.path").unwrap()).and_then(|v| v.as_str()), Some("/var/log/x"));
    assert!(event.get_field(s.get_field_id("process.comm").unwrap()).is_none());
}

#[test]
fn esf_normalize_exit_and_signal() {
    let mut schema = FieldSchema::new();
    schema.register_field("process.exit_code");
    schema.register_field("process.signal");
    let norm = EsfNormalizer::new(schema);
    let exit = esf(EventType::ProcessExit, "p", "", "", EventMetadata { exit_code: Some(-2), ..Default::default() });
    let e = norm.normalize(&exit).unwrap();
    assert_eq!(e.fields.len(), 1);
    assert_eq!(e.get_field(1).and_then(|v| v.as_i64()), Some(-2));
    let sig = esf(EventType::ProcessSignal, "p", "", "", EventMetadata { signal: Some(9), ..Default::default() });
    let e = norm.normalize(&sig).unwrap();
    assert_eq!(e.get_field(2).and_then(|v| v.as_i64()), Some(9));
}

/// An execve record laid out as the kernel program writes it on this machine.
fn execve_record(pid: u32, entity_key: u32, comm: &[u8]) -> Vec<u8> {
    let mut b = vec![0u8; EXECVE_RECORD_SIZE];
    b[0..8].copy_from_slice(&777_000u64.to_ne_bytes());
    b[8..12].copy_from_slice(&pid.to_ne_bytes());
    b[12..16].copy_from_slice(&1u32.to_ne_bytes());
    b[16..20].copy_from_slice(&1000u32.to_ne_bytes());
    b[20..24].copy_from_slice(&1000u32.to_ne_bytes());
    b[24..28].copy_from_slice(&entity_key.to_ne_bytes());
    b[28..28 + comm.len()].copy_from_slice(comm);
    b[44..53].copy_from_slice(b"/bin/bash");
    b
}

#[test]
fn execve_record_decodes_in_both_byte_orders() {
    let mut b = vec![0u8; EXECVE_RECORD_SIZE];
    b[0..8].copy_from_slice(&0x0102030405060708u64.to_le_bytes());
    b[8..12].copy_from_slice(&4242u32.to_le_bytes());
    b[28..32].copy_from_slice(b"bash");
    let le = decode_execve(&b, true);
    assert_eq!(le.ts_mono_ns, 0x0102030405060708);
    assert_eq!(le.pid, 4242);
    assert_eq!(&le.comm[..4], b"bash");
    let be = decode_execve(&b, false);
    assert_eq!(be.ts_mono_ns, 0x0807060504030201);
    assert_eq!(be.pid, 4242u32.swap_bytes());
}

#[test]
fn collector_polls_only_while_process_exec_is_wanted() {
    let mut c = EbpfCollector::new(EventNormalizer::new(linux_schema()));
    assert!(c.get_interests().is_empty());
    assert_eq!(c.poll_action(false), PollAction::Sleep { millis: 100 });
    c.update_interests(&[EbpfEventType::FileOpen, EbpfEventType::ProcessExec, EbpfEventType::FileOpen]);
    assert_eq!(c.get_interests().len(), 2);
    assert!(c.is_interesting(EbpfEventType::ProcessExec));
    assert!(!c.is_interesting(EbpfEventType::NetworkSend));
    assert_eq!(c.poll_action(false), PollAction::Read);
    assert_eq!(c.poll_action(true), PollAction::Stop);
    c.update_interests(&[]);
    assert!(!c.is_interesting(EbpfEventType::ProcessExec));
}

#[test]
fn collector_numbers_published_records_and_skips_bad_sizes() {
    let schema = linux_schema();
    let mut c = EbpfCollector::new(EventNormalizer::new(linux_schema()));
    assert_eq!(c.records_little_endian(), cfg_little_endian());
    assert!(matches!(c.on_record(None), RecordAction::Wait { millis: 10 }));
    match c.on_record(Some(&[0u8; 100])) {
        RecordAction::SizeMismatch { expected, actual } => {
            assert_eq!(expected, 816);
            assert_eq!(actual, 100);
        },
        other => panic!("unexpected {:?}", other),
    }
    let first = execve_record(1001, 55, b"bash");
    match c.on_record(Some(&first)) {
        RecordAction::Publish(e) => {
            assert_eq!(e.event_id, 1);
            assert_eq!(e.event_type_id, 1);
            assert_eq!(e.ts_mono_ns, 777_000);
            assert_eq!(e.entity_key, 55);
            assert_eq!(text_of(&e, &schema, "process.name"), Some("bash"));
            assert_eq!(text_of(&e, &schema, "process.executable"), Some("/bin/bash"));
        },
        other => panic!("unexpected {:?}", other),
    }
    match c.on_record(Some(&execve_record(1002, 56, b"sh"))) {
        RecordAction::Publish(e) => assert_eq!(e.event_id, 2),
        other => panic!("unexpected {:?}", other),
    }
}

fn cfg_little_endian() -> bool {
    1u32.to_ne_bytes()[0] == 1
}

#[test]
fn polling_stops_only_on_a_closed_channel() {
    assert!(polling_continues_after(SendOutcome::Sent));
    assert!(polling_continues_after(SendOutcome::Full));
    assert!(!polling_continues_after(SendOutcome::Closed));
}
