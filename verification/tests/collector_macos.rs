use kestrel::macos_types::EventType;
use kestrel::platform::PlatformCapability;
use kestrel::proc_info::{enumerate_processes, ProcessInfoProvider};

#[test]
fn test_process_info_provider_creation() {
    let provider = ProcessInfoProvider::new();
    assert_eq!(provider.cache_len(), 0);
}

#[test]
fn test_process_info_cache() {
    let mut provider = ProcessInfoProvider::new();
    let pid1 = provider.get_process_info(1).map(|i| i.pid);
    assert!(pid1.is_some());
    let pid2 = provider.get_process_info(1).map(|i| i.pid);
    assert!(pid2.is_some());
    assert_eq!(pid1, pid2);
}

#[test]
fn test_get_executable_path() {
    let mut provider = ProcessInfoProvider::new();
    let path = provider.get_executable_path(1);
    assert!(path.is_some());
}

#[test]
fn executable_path_and_name_of_resolved_process() {
    let mut provider = ProcessInfoProvider::new();
    assert_eq!(provider.get_executable_path(42), Some("/usr/bin/process_42".to_string()));
    let info = provider.get_process_info(42).unwrap();
    assert_eq!(info.name, "process_42");
    assert_eq!(info.ppid, 1);
    assert_eq!(info.uid, 501);
    assert_eq!(info.gid, 20);
    assert_eq!(info.cwd, "/");
}

#[test]
fn test_get_parent_pid() {
    let mut provider = ProcessInfoProvider::new();
    let ppid = provider.get_parent_pid(1);
    assert!(ppid.is_some());
}

#[test]
fn test_cache_operations() {
    let mut provider = ProcessInfoProvider::new();
    provider.get_process_info(1);
    assert_eq!(provider.cache_len(), 1);
    provider.remove_from_cache(1);
    assert_eq!(provider.cache_len(), 0);
    provider.get_process_info(1);
    assert_eq!(provider.cache_len(), 1);
    provider.clear_cache();
    assert_eq!(provider.cache_len(), 0);
}

#[test]
fn test_enumerate_processes() {
    let pids = enumerate_processes();
    assert!(!pids.is_empty());
}

#[test]
fn test_macos_collector_creation() {
    let collector = kestrel::macos_collector::MacOSEventCollector::new();
    assert!(collector.is_ok());
}

#[test]
fn test_supported_event_types() {
    let types = kestrel::macos_collector::MacOSEventCollector::supported_event_types();
    assert!(!types.is_empty());
    assert!(types.contains(&EventType::ProcessExec));
    assert!(types.contains(&EventType::FileOpen));
}

#[test]
fn test_platform_info() {
    let mut collector = kestrel::macos_collector::MacOSEventCollector::new().unwrap();
    let info = collector.platform_info().unwrap();
    assert_eq!(info.name, "macos");
    assert!(info.has_capability(PlatformCapability::ProcessTracing));
    assert!(info.has_capability(PlatformCapability::FileTracing));
    assert_eq!(collector.name(), "macos");
    collector.start().unwrap();
    assert!(collector.is_collecting());
    collector.stop().unwrap();
    assert!(!collector.is_collecting());
}
