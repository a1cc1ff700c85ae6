use waterfall::{
    contains_text, hash_from_bundle_text, node_running, parse_close_flag, probe_outcome,
    same_text, ui_url, unquote, BundleError, ConfigError, Probe, SessionGuard,
};

#[test]
fn teardown_once_when_enabled() {
    let mut g = SessionGuard::opened(true);
    assert!(g.close());
    assert!(!g.close());
    assert!(!g.close());
}

#[test]
fn teardown_skipped_when_disabled() {
    let mut g = SessionGuard::opened(false);
    assert!(!g.close());
    assert!(!g.close());
}

#[test]
fn probe_decisions() {
    assert_eq!(probe_outcome(true, 5000, 1000), Probe::Found);
    assert_eq!(probe_outcome(false, 999, 1000), Probe::Retry);
    assert_eq!(probe_outcome(false, 1000, 1000), Probe::TimedOut);
    assert_eq!(probe_outcome(false, 0, 0), Probe::TimedOut);
}

#[test]
fn url_default_and_override() {
    assert_eq!(ui_url(None, "/#/upload"), "https://paritytech.github.io/canvas-ui/#/upload");
    assert_eq!(ui_url(Some("http://localhost:3000"), ""), "http://localhost:3000");
}

#[test]
fn close_flag_values() {
    assert_eq!(parse_close_flag(None), Ok(true));
    assert_eq!(parse_close_flag(Some("true")), Ok(true));
    assert_eq!(parse_close_flag(Some("false")), Ok(false));
    assert_eq!(parse_close_flag(Some("no")), Err(ConfigError::InvalidCloseFlag));
    assert_eq!(parse_close_flag(Some("")), Err(ConfigError::InvalidCloseFlag));
}

#[test]
fn node_detection() {
    let procs = vec!["/usr/bin/bash".to_string(), "./canvas --dev --tmp".to_string()];
    assert!(node_running(&procs));
    assert!(!node_running(&vec!["/usr/bin/bash".to_string()]));
    assert!(!node_running(&Vec::new()));
}

#[test]
fn text_search() {
    assert!(contains_text("hello world", "o w"));
    assert!(contains_text("abc", ""));
    assert!(!contains_text("ab", "abc"));
    assert!(same_text("abc", "abc"));
    assert!(!same_text("abc", "abd"));
}

#[test]
fn unquote_strips_both_ends() {
    assert_eq!(unquote("\"0xab\""), "0xab");
    assert_eq!(unquote("\"\""), "");
    assert_eq!(unquote("a\"b"), "a\"b");
}

#[test]
fn bundle_hash() {
    let text = "{\"source\": {\"hash\": \"0x1234abcd\", \"language\": \"ink! 3\"}}";
    assert_eq!(hash_from_bundle_text(text), Ok("0x1234abcd".to_string()));
}

#[test]
fn bundle_errors() {
    assert_eq!(hash_from_bundle_text("{not json"), Err(BundleError::MalformedJson));
    assert_eq!(hash_from_bundle_text("{\"x\": 1}"), Err(BundleError::MissingSource));
    assert_eq!(
        hash_from_bundle_text("{\"source\": {\"wasm\": \"0x00\"}}"),
        Err(BundleError::MissingHash)
    );
}

#[test]
fn bundle_hash_of_number_is_its_json_text() {
    assert_eq!(hash_from_bundle_text("{\"source\": {\"hash\": 5}}"), Ok("5".to_string()));
}
