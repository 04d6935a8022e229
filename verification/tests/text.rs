use haproxy_otel::text::{chars_of, decimal_string, str_contains, str_eq};

#[test]
fn chars_of_unicode() {
    assert_eq!(chars_of("aé€😀"), vec!['a', 'é', '€', '😀']);
    assert!(chars_of("").is_empty());
}

#[test]
fn str_eq_compares_characters() {
    assert!(str_eq("warning", "warning"));
    assert!(!str_eq("warning", "warn"));
    assert!(!str_eq("Debug", "debug"));
    assert!(str_eq("", ""));
}

#[test]
fn str_contains_finds_substrings() {
    assert!(str_contains("opentelemetry_sdk", "opentelemetry"));
    assert!(str_contains("tonic::otlp", "otlp"));
    assert!(str_contains("abc", ""));
    assert!(str_contains("hyper", "hyper"));
    assert!(!str_contains("hype", "hyper"));
    assert!(!str_contains("", "a"));
    assert!(!str_contains("aab", "abb"));
}

#[test]
fn decimal_string_matches_display() {
    for n in [0u64, 7, 10, 99, 100, 12345, u64::MAX] {
        assert_eq!(decimal_string(n), n.to_string());
    }
}
