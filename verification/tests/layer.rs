use haproxy_otel::layer::{
    event_target_prefix, EventLevel, FieldRecord, HaproxyTracingLayer, MessageVisitor,
};

fn layer(level: Option<&str>) -> HaproxyTracingLayer {
    HaproxyTracingLayer::new(level.map(|s| s.to_string()))
}

const ALL: [EventLevel; 5] = [
    EventLevel::Error,
    EventLevel::Warn,
    EventLevel::Info,
    EventLevel::Debug,
    EventLevel::Trace,
];

#[test]
fn known_levels_enable_logging() {
    for l in ["debug", "info", "warning", "error"] {
        assert!(layer(Some(l)).should_log(), "{}", l);
    }
}

#[test]
fn other_levels_disable_logging() {
    for l in ["warn", "trace", "DEBUG", "", "debug "] {
        assert!(!layer(Some(l)).should_log(), "{}", l);
    }
    assert!(!layer(None).should_log());
}

#[test]
fn debug_writes_every_event() {
    let l = layer(Some("debug"));
    for level in ALL {
        assert!(l.should_log_level(level));
    }
}

#[test]
fn info_writes_info_and_more_severe() {
    let l = layer(Some("info"));
    assert!(l.should_log_level(EventLevel::Error));
    assert!(l.should_log_level(EventLevel::Warn));
    assert!(l.should_log_level(EventLevel::Info));
    assert!(!l.should_log_level(EventLevel::Debug));
    assert!(!l.should_log_level(EventLevel::Trace));
}

#[test]
fn warning_writes_warnings_and_errors() {
    let l = layer(Some("warning"));
    assert!(l.should_log_level(EventLevel::Error));
    assert!(l.should_log_level(EventLevel::Warn));
    assert!(!l.should_log_level(EventLevel::Info));
    assert!(!l.should_log_level(EventLevel::Debug));
    assert!(!l.should_log_level(EventLevel::Trace));
}

#[test]
fn error_writes_only_errors() {
    let l = layer(Some("error"));
    assert!(l.should_log_level(EventLevel::Error));
    for level in &ALL[1..] {
        assert!(!l.should_log_level(*level));
    }
}

#[test]
fn absent_or_unknown_level_writes_nothing() {
    for l in [layer(None), layer(Some("warn")), layer(Some("verbose"))] {
        for level in ALL {
            assert!(!l.should_log_level(level));
        }
    }
}

#[test]
fn written_level_implies_enabled_and_more_severe_written() {
    for cfg in [None, Some("debug"), Some("info"), Some("warning"), Some("error"), Some("x")] {
        let l = layer(cfg);
        for (i, level) in ALL.iter().enumerate() {
            if l.should_log_level(*level) {
                assert!(l.should_log());
                for more in &ALL[..i] {
                    assert!(l.should_log_level(*more));
                }
            }
        }
    }
}

#[test]
fn format_log_names_each_level() {
    let l = layer(Some("debug"));
    assert_eq!(l.format_log(EventLevel::Error, "boom"), "[haproxy-otel] [ERROR] boom");
    assert_eq!(l.format_log(EventLevel::Warn, "w"), "[haproxy-otel] [WARN] w");
    assert_eq!(l.format_log(EventLevel::Info, "i"), "[haproxy-otel] [INFO] i");
    assert_eq!(l.format_log(EventLevel::Debug, "d"), "[haproxy-otel] [DEBUG] d");
    assert_eq!(l.format_log(EventLevel::Trace, "t"), "[haproxy-otel] [TRACE] t");
}

#[test]
fn every_line_carries_the_prefix() {
    let l = layer(Some("info"));
    for level in ALL {
        assert!(l.format_log(level, "").starts_with("[haproxy-otel] "));
    }
}

#[test]
fn event_line_skips_empty_message() {
    let l = layer(Some("debug"));
    assert_eq!(l.event_line(EventLevel::Info, ""), None);
    assert_eq!(
        l.event_line(EventLevel::Info, "sent 3 spans"),
        Some("[haproxy-otel] [INFO] sent 3 spans".to_string())
    );
}

#[test]
fn exporter_targets_get_a_prefix() {
    assert_eq!(
        event_target_prefix("opentelemetry_sdk::trace::span_processor"),
        "[opentelemetry_sdk::trace::span_processor] "
    );
    assert_eq!(event_target_prefix("opentelemetry_otlp::exporter"), "[opentelemetry_otlp::exporter] ");
    assert_eq!(event_target_prefix("my_otlp"), "[my_otlp] ");
    assert_eq!(event_target_prefix("reqwest::connect"), "[reqwest::connect] ");
    assert_eq!(event_target_prefix("hyper_util::client"), "[hyper_util::client] ");
}

#[test]
fn other_targets_get_no_prefix() {
    assert_eq!(event_target_prefix("haproxy_otel_module::span"), "");
    assert_eq!(event_target_prefix(""), "");
    assert_eq!(event_target_prefix("hype"), "");
    assert_eq!(event_target_prefix("OpenTelemetry"), "");
}

#[test]
fn message_field_is_appended_verbatim() {
    let mut v = MessageVisitor::new("[reqwest] ".to_string());
    v.record_debug("message", "connecting");
    assert_eq!(v.message(), "[reqwest] connecting");
}

#[test]
fn other_fields_are_comma_separated() {
    let mut v = MessageVisitor::new(String::new());
    v.record_str("status", "200");
    assert_eq!(v.message(), "status=200");
    v.record_debug("bytes", "17");
    assert_eq!(v.message(), "status=200, bytes=17");
    v.record_str("message", " done");
    assert_eq!(v.message(), "status=200, bytes=17 done");
}

#[test]
fn field_after_message_gets_separator() {
    let mut v = MessageVisitor::new(String::new());
    v.record_str("message", "export failed");
    v.record_debug("error", "\"timeout\"");
    assert_eq!(v.message(), "export failed, error=\"timeout\"");
}

fn dbg(n: &str, v: &str) -> FieldRecord {
    FieldRecord::Debug(n.to_string(), v.to_string())
}

fn txt(n: &str, v: &str) -> FieldRecord {
    FieldRecord::Str(n.to_string(), v.to_string())
}

#[test]
fn on_event_writes_admitted_event() {
    let l = layer(Some("debug"));
    let line = l.on_event(
        EventLevel::Debug,
        "opentelemetry_sdk::export",
        &vec![dbg("message", "exporting"), txt("spans", "2")],
    );
    assert_eq!(
        line,
        Some("[haproxy-otel] [DEBUG] [opentelemetry_sdk::export] exporting, spans=2".to_string())
    );
}

#[test]
fn on_event_skips_filtered_level() {
    let l = layer(Some("warning"));
    assert_eq!(l.on_event(EventLevel::Info, "reqwest", &vec![dbg("message", "x")]), None);
    assert_eq!(layer(None).on_event(EventLevel::Error, "reqwest", &vec![dbg("message", "x")]), None);
}

#[test]
fn on_event_skips_empty_message() {
    let l = layer(Some("debug"));
    assert_eq!(l.on_event(EventLevel::Error, "my_module", &vec![]), None);
    assert_eq!(l.on_event(EventLevel::Error, "my_module", &vec![txt("message", "")]), None);
    assert_eq!(
        l.on_event(EventLevel::Error, "hyper", &vec![]),
        Some("[haproxy-otel] [ERROR] [hyper] ".to_string())
    );
}

#[test]
fn on_event_other_target_fields_only() {
    let l = layer(Some("info"));
    assert_eq!(
        l.on_event(EventLevel::Warn, "my_module", &vec![txt("code", "7"), dbg("reason", "\"slow\"")]),
        Some("[haproxy-otel] [WARN] code=7, reason=\"slow\"".to_string())
    );
}
