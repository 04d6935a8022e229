use haproxy_otel::config::{
    collect_headers, exporter_init_message, exporter_outcome_message, registration_message,
    resolve_options, HeaderMap,
};

fn pair(k: &str, v: &str) -> (String, String) {
    (k.to_string(), v.to_string())
}

#[test]
fn header_map_read_after_write() {
    let mut m = HeaderMap::new();
    assert!(m.is_empty());
    m.insert("api-key".to_string(), "test-api-key-12345".to_string());
    m.insert("X-Custom-Header".to_string(), "custom-value".to_string());
    assert_eq!(m.len(), 2);
    assert!(!m.is_empty());
    assert_eq!(m.get("api-key"), Some("test-api-key-12345"));
    assert_eq!(m.get("X-Custom-Header"), Some("custom-value"));
    assert_eq!(m.get("x-custom-header"), None);
}

#[test]
fn header_map_later_write_replaces() {
    let mut m = HeaderMap::new();
    m.insert("a".to_string(), "1".to_string());
    m.insert("b".to_string(), "2".to_string());
    m.insert("a".to_string(), "3".to_string());
    assert_eq!(m.len(), 2);
    assert_eq!(m.get("a"), Some("3"));
    assert_eq!(m.get("b"), Some("2"));
    assert_eq!(m.entry(0), ("a", "3"));
    assert_eq!(m.entry(1), ("b", "2"));
}

#[test]
fn no_pairs_give_no_headers() {
    assert!(collect_headers(&Vec::new()).is_none());
}

#[test]
fn pairs_give_headers_last_wins() {
    let h = collect_headers(&vec![pair("k", "v1"), pair("j", "w"), pair("k", "v2")]).unwrap();
    assert_eq!(h.len(), 2);
    assert_eq!(h.get("k"), Some("v2"));
    assert_eq!(h.get("j"), Some("w"));
}

#[test]
fn default_service_name_is_haproxy() {
    let o = resolve_options(None, None, None, None, None, None, None);
    assert_eq!(o.service_name, "haproxy");
    assert!(o.sampler.is_none());
    assert!(o.propagator.is_none());
    assert!(o.endpoint.is_none());
    assert!(o.protocol.is_none());
    assert!(o.log_level.is_none());
    assert!(o.headers.is_none());
}

#[test]
fn configured_options_are_kept() {
    let o = resolve_options(
        Some("loadbalancer".to_string()),
        Some("AlwaysOn".to_string()),
        Some("w3c".to_string()),
        Some("http://otel-collector:4317/v1/trace".to_string()),
        Some("json".to_string()),
        Some("debug".to_string()),
        Some(vec![pair("X-Custom-Header", "custom-value")]),
    );
    assert_eq!(o.service_name, "loadbalancer");
    assert_eq!(o.sampler.as_deref(), Some("AlwaysOn"));
    assert_eq!(o.propagator.as_deref(), Some("w3c"));
    assert_eq!(o.endpoint.as_deref(), Some("http://otel-collector:4317/v1/trace"));
    assert_eq!(o.protocol.as_deref(), Some("json"));
    assert_eq!(o.log_level.as_deref(), Some("debug"));
    assert_eq!(o.headers.as_ref().unwrap().get("X-Custom-Header"), Some("custom-value"));
}

#[test]
fn empty_headers_table_gives_no_headers() {
    let o = resolve_options(None, None, None, None, None, None, Some(Vec::new()));
    assert!(o.headers.is_none());
}

#[test]
fn registration_message_with_defaults() {
    let o = resolve_options(None, None, None, None, None, None, None);
    assert_eq!(
        registration_message(&o, 0),
        "[haproxy-otel] register called: service_name=haproxy endpoint=\"<default>\" protocol=\"<default>\" headers=0 thread=0"
    );
}

#[test]
fn registration_message_with_settings() {
    let o = resolve_options(
        Some("loadbalancer".to_string()),
        None,
        None,
        Some("http://otel-collector:4317/v1/trace".to_string()),
        Some("json".to_string()),
        None,
        Some(vec![pair("a", "1"), pair("b", "2")]),
    );
    assert_eq!(
        registration_message(&o, 12),
        "[haproxy-otel] register called: service_name=loadbalancer endpoint=\"http://otel-collector:4317/v1/trace\" protocol=\"json\" headers=2 thread=12"
    );
}

#[test]
fn registration_message_escapes_settings() {
    let o = resolve_options(None, None, None, Some("a\"b\\c\n".to_string()), None, None, None);
    let msg = registration_message(&o, 65535);
    assert!(msg.contains("endpoint=\"a\\\"b\\\\c\\n\" "), "{}", msg);
    assert!(msg.ends_with("thread=65535"), "{}", msg);
}

#[test]
fn exporter_messages() {
    assert_eq!(exporter_init_message(7), "[haproxy-otel] calling exporter::init on thread 7");
    assert_eq!(exporter_outcome_message(None), "[haproxy-otel] exporter init: SUCCESS");
    assert_eq!(
        exporter_outcome_message(Some("invalid endpoint")),
        "[haproxy-otel] exporter init: FAILED - invalid endpoint"
    );
}

#[test]
fn registration_line_from_parts() {
    assert_eq!(
        haproxy_otel::config::registration_line("svc", "\"e\"", "\"p\"", 3, 1),
        "[haproxy-otel] register called: service_name=svc endpoint=\"e\" protocol=\"p\" headers=3 thread=1"
    );
}
