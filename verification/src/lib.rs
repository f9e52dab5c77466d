//! Kestrel: endpoint behaviour detection engine, verified core.
pub mod cstr;
pub mod event;
pub mod normalize;
pub mod ebpf_types;
pub mod table;
pub mod clock;
pub mod circuit_breaker;
pub mod budget;
pub mod decimal;
pub mod json;
pub mod action;
pub mod alert;
pub mod lru_cache;
pub mod executor;
pub mod ebpf;
pub mod lsm;
pub mod platform;
pub mod pushdown;
pub mod health;
pub mod dynamic_probe;
pub mod time;
pub mod macos_types;
pub mod proc_info;
pub mod object_pool;
pub mod config_reload;
pub mod alert_sink;
pub mod eventbus;
pub mod core_platform;
pub mod replay;
pub mod metrics_reporter;
pub mod deterministic;
pub mod ac_pattern;
pub mod ac_matcher;
pub mod ac_builder;
pub mod bench_stats;
pub mod cli;
pub mod macos_collector;
pub mod macos_normalize;
