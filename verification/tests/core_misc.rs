use kestrel::config_reload::{compute_hash, ConfigManager, ConfigReloadError, ConfigSnapshot, ConfigVersion};
use kestrel::metrics_reporter::{CounterRegistry, Label, MetricId, NoOpMetricsReporter};
use kestrel::object_pool::{EventVecPool, ObjectPool, PoolManager};
use kestrel::replay::{check_header, header_for_events, replay_schedule, LogHeader, ReplayError};
use kestrel::time::{MockTimeProvider, RealTimeProvider, TimeManager, TimeProvider};
use std::time::Duration;

#[test]
fn test_config_version() {
    let version = ConfigVersion::new(1, "abc123".to_string());
    assert_eq!(version.version, 1);
    assert_eq!(version.hash, "abc123");
}

#[test]
fn test_config_manager_new() {
    let manager = ConfigManager::new();
    assert!(!manager.reloadable_fields().is_empty());
}

#[test]
fn test_is_reloadable() {
    let manager = ConfigManager::new();
    assert!(manager.is_reloadable("log.level"));
    assert!(!manager.is_reloadable("nonexistent.field"));
}

#[test]
fn test_config_snapshot() {
    let mut snapshot = ConfigSnapshot::new(1);
    snapshot.set("key1".to_string(), "value1".to_string());
    snapshot.set("key2".to_string(), "value2".to_string());
    assert_eq!(snapshot.get("key1"), Some(&"value1".to_string()));
    assert_eq!(snapshot.version, 1);
    snapshot.set("key1".to_string(), "other".to_string());
    assert_eq!(snapshot.get("key1"), Some(&"other".to_string()));
    assert_eq!(snapshot.values.len(), 2);
    assert_eq!(snapshot.get("key3"), None);
}

#[test]
fn test_config_reload_manual() {
    let mut manager = ConfigManager::new();
    assert!(manager.reload(None).is_ok());
    assert_eq!(manager.current_version().version, 1);
}

#[test]
fn config_reload_refuses_unchanged_file() {
    let mut manager = ConfigManager::new().with_config_path("/etc/kestrel.toml");
    assert_eq!(manager.watch_path().unwrap(), "/etc/kestrel.toml");
    assert!(manager.has_changed("a = 1"));
    manager.mark_reloaded("a = 1");
    assert!(!manager.has_changed("a = 1"));
    assert!(matches!(manager.reload(Some("a = 1")), Err(ConfigReloadError::Unchanged)));
    assert_eq!(manager.current_version().version, 0);
    assert!(manager.reload(Some("a = 2")).is_ok());
    assert_eq!(manager.current_version().version, 1);
}

#[test]
fn config_watch_without_path() {
    let manager = ConfigManager::new();
    let err = manager.watch_path().unwrap_err();
    assert_eq!(err.to_string(), "Validation error: Config path not set");
    assert_eq!(ConfigReloadError::Unchanged.to_string(), "Configuration unchanged");
    assert_eq!(ConfigReloadError::Parse("p".to_string()).to_string(), "Parse error: p");
}

#[test]
fn test_compute_hash() {
    let hash1 = compute_hash("test content");
    let hash2 = compute_hash("test content");
    let hash3 = compute_hash("different content");
    assert_eq!(hash1, hash2);
    assert_ne!(hash1, hash3);
    assert!(hash1.chars().all(|c| c.is_ascii_hexdigit() && !c.is_ascii_uppercase()));
}

#[test]
fn compute_hash_is_the_std_str_hash_in_hex() {
    let mut h = std::collections::hash_map::DefaultHasher::new();
    std::hash::Hash::hash("max_events = 10", &mut h);
    assert_eq!(compute_hash("max_events = 10"), format!("{:x}", std::hash::Hasher::finish(&h)));
}

#[test]
fn test_metric_id_null() {
    assert_eq!(MetricId::null(), MetricId(u64::MAX));
    assert!(MetricId::null().is_null());
    assert!(!MetricId(3).is_null());
    assert_eq!(NoOpMetricsReporter.register_null(), MetricId::null());
    let l = Label::new("rule", "r1".to_string());
    assert_eq!(l.key, "rule");
    assert_eq!(l.value, "r1");
}

#[test]
fn test_pool_basic() {
    let pool = ObjectPool::<Vec<u32>>::new(2, 4);
    let obj1 = pool.acquire();
    assert_eq!(pool.available(), 1);
    let obj2 = pool.acquire();
    assert_eq!(pool.available(), 0);
    let obj3 = pool.acquire();
    assert_eq!(pool.available(), 0);
    drop(obj1);
    assert_eq!(pool.available(), 1);
    drop(obj2);
    drop(obj3);
    assert_eq!(pool.available(), 3);
    let metrics = pool.metrics();
    assert_eq!(metrics.current_size, 3);
    assert_eq!(metrics.max_size, 4);
    assert!(metrics.total_created >= 3);
}

#[test]
fn test_pooled_object_deref() {
    let pool = ObjectPool::<Vec<u32>>::new(1, 2);
    let mut obj = pool.acquire();
    obj.get_mut().push(42);
    assert_eq!(obj.get()[0], 42);
    assert_eq!(obj.get().len(), 1);
}

#[test]
fn pool_reuses_released_objects_reset() {
    let pool = ObjectPool::<Vec<u32>>::new(10, 20);
    for _ in 0..100 {
        let mut obj = pool.acquire();
        assert!(obj.get().is_empty());
        obj.get_mut().push(1);
        drop(obj);
    }
    let metrics = pool.metrics();
    assert_eq!(metrics.total_created, 10);
    assert_eq!(metrics.total_reused, 100);
    let taken = pool.acquire().take();
    assert!(taken.is_empty());
    assert_eq!(pool.available(), 9);
}

#[test]
fn test_log_header_validation() {
    let header = LogHeader::new(100, 0, 1000000);
    assert!(header.is_valid());
    let mut invalid = header.clone();
    invalid.magic = [0, 0, 0, 0];
    assert!(!invalid.is_valid());
    let mut newer = header.clone();
    newer.version = 2;
    assert!(!newer.is_valid());
    assert_eq!(header.engine_build_id, "0.1.0");
}

#[test]
fn replay_error_messages() {
    assert_eq!(ReplayError::InvalidFormat("x".to_string()).to_string(), "Invalid log format: x");
}

#[test]
fn test_real_time_provider() {
    let provider = RealTimeProvider;
    assert!(provider.mono_ns() > 0);
    assert!(provider.wall_ns() > 0);
}

#[test]
fn test_mock_time_provider_initial() {
    let provider = MockTimeProvider::new();
    assert_eq!(provider.mono_ns(), 0);
    assert_eq!(provider.wall_ns(), 0);
}

#[test]
fn test_mock_time_provider_with_values() {
    let provider = MockTimeProvider::with_values(1000, 2000);
    assert_eq!(provider.mono_ns(), 1000);
    assert_eq!(provider.wall_ns(), 2000);
}

#[test]
fn test_mock_time_provider_advance() {
    let provider = MockTimeProvider::new();
    provider.advance(Duration::from_nanos(500));
    assert_eq!(provider.mono_ns(), 500);
    assert_eq!(provider.wall_ns(), 500);
    provider.advance(Duration::from_nanos(300));
    assert_eq!(provider.mono_ns(), 800);
    assert_eq!(provider.wall_ns(), 800);
}

#[test]
fn test_mock_time_provider_set_time() {
    let provider = MockTimeProvider::new();
    provider.set_time(5000, 6000);
    assert_eq!(provider.mono_ns(), 5000);
    assert_eq!(provider.wall_ns(), 6000);
    provider.advance(Duration::from_nanos(1000));
    assert_eq!(provider.mono_ns(), 6000);
    assert_eq!(provider.wall_ns(), 7000);
}

#[test]
fn test_time_manager_real() {
    let manager = TimeManager::system_clock();
    assert!(manager.mono_ns() > 0);
    assert!(manager.wall_ns() > 0);
}

#[test]
fn test_time_manager_mock() {
    let manager = TimeManager::mock();
    assert_eq!(manager.mono_ns(), 0);
    assert_eq!(manager.wall_ns(), 0);
}

#[test]
fn test_time_manager_clone() {
    let manager1 = TimeManager::mock();
    let manager2 = manager1.clone();
    manager2.provider().advance(Duration::from_nanos(100));
    assert_eq!(manager1.mono_ns(), 100);
    assert_eq!(manager2.mono_ns(), 100);
}

#[test]
fn replay_schedule_orders_by_time_then_id_and_assigns_ids() {
    // (monotonic time, event id) in log order
    let events = vec![(3000, 0), (1000, 0), (2000, 9), (2000, 4), (1000, 0)];
    let (order, next) = replay_schedule(&events, 1);
    assert_eq!(order, vec![(1, 1), (4, 2), (3, 4), (2, 9), (0, 3)]);
    assert_eq!(next, 4);
    let (again, _) = replay_schedule(&events, 1);
    assert_eq!(order, again);
    let (empty, next) = replay_schedule(&[], 7);
    assert!(empty.is_empty());
    assert_eq!(next, 7);
}

#[test]
fn log_header_for_events_and_check() {
    let h = header_for_events(&[5, 9, 12]);
    assert_eq!((h.event_count, h.start_ts_mono_ns, h.end_ts_mono_ns), (3, 5, 12));
    assert!(check_header(&h).is_ok());
    let h = header_for_events(&[]);
    assert_eq!((h.event_count, h.start_ts_mono_ns, h.end_ts_mono_ns), (0, 0, 0));
    let mut bad = h.clone();
    bad.magic = *b"NOPE";
    let err = check_header(&bad).unwrap_err();
    assert_eq!(err.to_string(), "Invalid log format: Invalid magic bytes or version");
}

#[test]
fn test_in_memory_counter() {
    let mut reporter = CounterRegistry::new();
    let id = reporter.register("events_processed", "Number of events processed", vec![]);
    reporter.counter_inc(id, 1);
    reporter.counter_inc(id, 5);
    assert_eq!(reporter.counter_value("events_processed"), Some(6));
}

#[test]
fn test_in_memory_counter_null_id() {
    let mut reporter = CounterRegistry::new();
    reporter.counter_inc(MetricId::null(), 10);
    assert_eq!(reporter.counter_value("nonexistent"), None);
}

#[test]
fn test_prometheus_export_format() {
    let mut reporter = CounterRegistry::new();
    let _id = reporter.register("my_counter", "My counter help", vec![Label::new("env", "test".to_string())]);
    let prom = reporter.export_prometheus();
    assert!(prom.contains("# HELP my_counter My counter help"));
    assert!(prom.contains("# TYPE my_counter counter"));
    assert!(prom.contains("my_counter{env=\"test\"}"));
}

#[test]
fn test_prometheus_export_no_labels() {
    let mut reporter = CounterRegistry::new();
    let id = reporter.register("simple_counter", "Simple counter", vec![]);
    reporter.counter_inc(id, 7);
    let prom = reporter.export_prometheus();
    assert!(prom.contains("# HELP simple_counter Simple counter"));
    assert!(prom.contains("# TYPE simple_counter counter"));
    assert!(prom.contains("simple_counter 7"));
}

#[test]
fn test_multiple_counters() {
    let mut reporter = CounterRegistry::new();
    let id1 = reporter.register("counter_a", "Counter A", vec![]);
    let id2 = reporter.register("counter_b", "Counter B", vec![]);
    reporter.counter_inc(id1, 3);
    reporter.counter_inc(id2, 7);
    assert_eq!(reporter.counter_value("counter_a"), Some(3));
    assert_eq!(reporter.counter_value("counter_b"), Some(7));
}

#[test]
fn prometheus_export_exact_text() {
    let mut reporter = CounterRegistry::new();
    let a = reporter.register("a", "A", vec![Label::new("x", "1".to_string()), Label::new("y", "2".to_string())]);
    reporter.register("b", "B", vec![]);
    reporter.counter_inc(a, 2);
    // a histogram handle masks down to the counter at the same position
    reporter.counter_inc(MetricId(0x4000_0000_0000_0001), 4);
    assert_eq!(
        reporter.export_prometheus(),
        "# HELP a A\n# TYPE a counter\na{x=\"1\",y=\"2\"} 2\n\n# HELP b B\n# TYPE b counter\nb 4\n\n"
    );
}

#[test]
fn pool_manager_event_batches() {
    let manager = PoolManager::new();
    let pool = manager.event_batch_pool.as_ref().unwrap();
    assert_eq!(pool.metrics().max_size, 64);
    assert_eq!(pool.available(), 16);
    {
        let batch = pool.acquire();
        assert!(batch.get().is_empty());
        assert_eq!(pool.available(), 15);
    }
    assert_eq!(pool.available(), 16);
    assert!(PoolManager::empty().event_batch_pool.is_none());
    assert!(PoolManager::default().event_batch_pool.is_some());
    let small = EventVecPool::for_events(2, 3, 8);
    assert_eq!(small.available(), 2);
    assert_eq!(small.metrics().total_created, 2);
}
