use haproxy_otel::setup::{build_env_filter, init_log_buffer, subscriber_filter, tracing_filter_level};
use std::collections::VecDeque;

#[test]
fn log_buffer_created_when_absent() {
    let mut buffer: Option<VecDeque<String>> = None;
    init_log_buffer(&mut buffer);
    assert_eq!(buffer, Some(VecDeque::new()));
}

#[test]
fn log_buffer_kept_when_present() {
    let mut q = VecDeque::new();
    q.push_back("queued".to_string());
    let mut buffer = Some(q.clone());
    init_log_buffer(&mut buffer);
    assert_eq!(buffer, Some(q.clone()));
    init_log_buffer(&mut buffer);
    assert_eq!(buffer, Some(q));
}

#[test]
fn log_buffer_init_twice_same_as_once() {
    let mut once: Option<VecDeque<String>> = None;
    init_log_buffer(&mut once);
    let mut twice: Option<VecDeque<String>> = None;
    init_log_buffer(&mut twice);
    init_log_buffer(&mut twice);
    assert_eq!(once, twice);
}

#[test]
fn filter_level_for_each_setting() {
    assert_eq!(tracing_filter_level(Some("debug")), Some("debug"));
    assert_eq!(tracing_filter_level(Some("info")), Some("info"));
    assert_eq!(tracing_filter_level(Some("warning")), Some("warn"));
    assert_eq!(tracing_filter_level(Some("warn")), Some("warn"));
    assert_eq!(tracing_filter_level(Some("error")), Some("error"));
}

#[test]
fn no_filter_level_without_known_setting() {
    assert_eq!(tracing_filter_level(None), None);
    assert_eq!(tracing_filter_level(Some("trace")), None);
    assert_eq!(tracing_filter_level(Some("Info")), None);
}

#[test]
fn env_filter_holds_level_and_exporter_directives() {
    let text = build_env_filter("error").to_string();
    for d in [
        "opentelemetry=debug",
        "opentelemetry_sdk=debug",
        "opentelemetry_otlp=debug",
        "opentelemetry_http=debug",
        "reqwest=debug",
        "hyper=info",
    ] {
        assert!(text.split(',').any(|p| p == d), "{} in {}", d, text);
    }
    assert!(text.split(',').any(|p| p == "error"), "{}", text);
    assert_eq!(text.split(',').count(), 7, "{}", text);
}

#[test]
fn env_filter_default_level_follows_setting() {
    for level in ["trace", "debug", "info", "warn", "off"] {
        let text = build_env_filter(level).to_string();
        assert!(text.split(',').any(|p| p == level), "{} in {}", level, text);
        assert!(!text.split(',').any(|p| p == "error"), "{}", text);
    }
}

#[test]
fn subscriber_filter_for_settings() {
    let f = subscriber_filter(Some("warning")).unwrap().to_string();
    assert!(f.split(',').any(|p| p == "warn"), "{}", f);
    assert!(f.split(',').any(|p| p == "hyper=info"), "{}", f);
    assert!(subscriber_filter(Some("debug")).is_some());
    assert!(subscriber_filter(Some("warn")).is_some());
    assert!(subscriber_filter(None).is_none());
    assert!(subscriber_filter(Some("verbose")).is_none());
}
