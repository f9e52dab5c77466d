use kestrel::core_platform::{self, CollectorChoice, CollectorFactory, MockEventCollector};
use kestrel::platform::{self, EventTypeRegistry, MockPlatform, Platform, PlatformCapability, PlatformManager};

#[test]
fn test_event_type_registry() {
    let mut registry = EventTypeRegistry::empty();
    let id1 = registry.register("test_event");
    let id2 = registry.register("another_event");
    assert_ne!(id1, id2);
    assert_eq!(registry.get_id("test_event"), Some(id1));
    assert_eq!(registry.get_id("another_event"), Some(id2));
    assert_eq!(registry.get_id("unknown"), None);
    assert_eq!(registry.get_name(id1), Some("test_event"));
    assert_eq!(registry.get_name(id2), Some("another_event"));
    assert_eq!(registry.get_name(9999), None);
    let id1_again = registry.register("test_event");
    assert_eq!(id1, id1_again);
}

#[test]
fn default_registry_numbers_types_from_1000() {
    let registry = EventTypeRegistry::new();
    assert_eq!(registry.get_id("process_exec"), Some(1000));
    assert!(registry.has_type("file_open"));
    assert!(!registry.has_type("nope"));
    let listed = registry.list_types();
    assert_eq!(listed.len(), 9);
    assert_eq!(listed[0], (1000, "process_exec"));
    assert_eq!(registry.get_name(1002), Some("file_open"));
    assert_eq!(registry.get_id("network_recv"), Some(1008));
    assert_eq!(registry.get_id("unknown"), None);
}

#[test]
fn registry_ids_lead_back_to_their_names() {
    let registry = EventTypeRegistry::new();
    for (id, name) in registry.list_types() {
        assert_eq!(registry.get_id(name), Some(id));
    }
}

#[test]
fn test_mock_platform() {
    let mut platform = MockPlatform::new();
    assert!(!platform.is_initialized());
    platform.initialize().unwrap();
    assert!(platform.is_initialized());
    assert!(platform.has_capability(PlatformCapability::ProcessTracing));
    assert!(!platform.has_capability(PlatformCapability::InlineBlocking));
    assert!(platform.probe_capability(PlatformCapability::ProcessTracing).unwrap());
    platform.shutdown().unwrap();
    assert!(!platform.is_initialized());
}

#[test]
fn test_platform_manager() {
    let mut manager = PlatformManager::mock();
    manager.initialize().unwrap();
    assert!(manager.has_capability(PlatformCapability::ProcessTracing));
    let id = manager.get_event_type_id("process_exec");
    assert!(id.is_some());
    let name = manager.get_event_type_name(id.unwrap());
    assert_eq!(name, Some("process_exec"));
}

#[test]
fn platform_test_platform_info_mock() {
    let info = platform::PlatformInfo::mock();
    assert_eq!(info.name, "mock");
    assert!(info.has_capability(PlatformCapability::ProcessTracing));
    assert!(!info.has_capability(PlatformCapability::InlineBlocking));

    let info = core_platform::PlatformInfo::mock();
    assert_eq!(info.name, "mock");
    assert!(info.has_capability(PlatformCapability::ProcessTracing));
    assert!(!info.has_capability(PlatformCapability::InlineBlocking));
}

#[test]
fn test_platform_info_has_capability() {
    let info = core_platform::PlatformInfo {
        name: "test".into(),
        version: "1.0".into(),
        kernel_version: "5.15.0".into(),
        capabilities: vec![PlatformCapability::LsmHooks, PlatformCapability::Kprobes],
    };
    assert!(info.has_capability(PlatformCapability::LsmHooks));
    assert!(info.has_capability(PlatformCapability::Kprobes));
    assert!(!info.has_capability(PlatformCapability::InlineBlocking));
}

#[test]
fn collector_factory_choices() {
    match CollectorFactory::select("mock", None, None).unwrap() {
        CollectorChoice::Mock { count } => assert_eq!(count, 100),
        other => panic!("unexpected {:?}", other),
    }
    match CollectorFactory::select("mock", None, Some(7)).unwrap() {
        CollectorChoice::Mock { count } => assert_eq!(count, 7),
        other => panic!("unexpected {:?}", other),
    }
    match CollectorFactory::select("replay", Some("/tmp/x.log".to_string()), None).unwrap() {
        CollectorChoice::Replay { path } => assert_eq!(path, "/tmp/x.log"),
        other => panic!("unexpected {:?}", other),
    }
    let err = CollectorFactory::select("replay", None, None).unwrap_err();
    assert_eq!(err.to_string(), "Replay error: Replay requires --log path");
    assert!(matches!(CollectorFactory::select("ebpf", None, None), Ok(CollectorChoice::Ebpf)));
    let err = CollectorFactory::select("kafka", None, None).unwrap_err();
    assert_eq!(err.to_string(), "Platform initialization failed: Unknown collector type: kafka");
}

#[test]
fn test_mock_event_collector_with_name() {
    let collector = MockEventCollector::generate_test_events(5).with_name("test-collector".to_string());
    assert_eq!(collector.name(), "test-collector");
}

#[test]
fn mock_collector_hands_out_its_events_once() {
    let mut collector = MockEventCollector::generate_test_events(10);
    assert_eq!(collector.name(), "mock");
    let events = collector.take_events();
    assert_eq!(events.len(), 10);
    assert_eq!(events[6].event_id, 6);
    assert_eq!(events[6].entity_key, 2);
    assert_eq!(events[6].ts_mono_ns, 6_000_000);
    assert!(collector.take_events().is_empty());
}
