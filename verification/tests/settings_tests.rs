use rust_vector_logger::{Dispatch, LoggerSettings, Severity};

fn deliver(d: Dispatch) -> (rust_vector_logger::Message, String) {
    match d {
        Dispatch::Deliver { record, json } => (record, json),
        _ => panic!("expected a record to send"),
    }
}

#[test]
fn settings_keep_application_and_level() {
    let s = LoggerSettings::new("TestApp", "INFO");
    assert_eq!(s.application, "TestApp");
    assert_eq!(s.level, "INFO");
}

#[test]
fn reconnect_keeps_application_and_level() {
    let s = LoggerSettings::new("TestApp", "warn");
    let r = s.reconnect();
    assert_eq!(r.application, "TestApp");
    assert_eq!(r.level, "warn");
}

#[test]
fn settings_admit_as_the_level_says() {
    let s = LoggerSettings::new("TestApp", "ERROR");
    assert!(s.admits(Severity::Error));
    assert!(!s.admits(Severity::Info));
    assert!(!s.admits(Severity::Warn));
    assert!(s.admits(Severity::Trace));
}

#[test]
fn entry_stamps_the_record() {
    let s = LoggerSettings::new("TestApp", "INFO");
    let m = s.entry(Severity::Warn, "12345".to_string(), "This is a test message");
    assert_eq!(m.timestamp, "12345");
    assert_eq!(m.application, "TestApp");
    assert_eq!(m.level, "WARN");
    assert_eq!(m.message, "This is a test message");
}

#[test]
fn compose_delivers_an_info_record() {
    let s = LoggerSettings::new("TestApp", "INFO");
    let (record, json) = deliver(s.compose(Severity::Info, "12345".to_string(), "This is a test message"));
    assert_eq!(record.level, "INFO");
    assert_eq!(record.application, "TestApp");
    assert_eq!(
        json,
        "{\"timestamp\":\"12345\",\"application\":\"TestApp\",\"level\":\"INFO\",\"message\":\"This is a test message\"}"
    );
}

#[test]
fn compose_suppresses_filtered_calls() {
    let s = LoggerSettings::new("TestApp", "ERROR");
    assert!(matches!(s.compose(Severity::Info, "t".to_string(), "m"), Dispatch::Suppressed));
    assert!(matches!(s.compose(Severity::Warn, "t".to_string(), "m"), Dispatch::Suppressed));
    assert!(matches!(s.compose(Severity::Debug, "t".to_string(), "m"), Dispatch::Suppressed));
}

#[test]
fn compose_formatted_message_keeps_text() {
    let s = LoggerSettings::new("TestApp", "DEBUG");
    let text = format!("This is a test message {}", "dear tester");
    let (record, json) = deliver(s.compose(Severity::Debug, "t".to_string(), &text));
    assert_eq!(record.message, "This is a test message dear tester");
    let value: serde_json::Value = serde_json::from_str(&json).unwrap();
    assert_eq!(value["level"], "DEBUG");
    assert_eq!(value["message"], "This is a test message dear tester");
}

#[test]
fn prepare_stamps_with_the_present_time() {
    let s = LoggerSettings::new("TestApp", "TRACE");
    let (record, json) = deliver(s.prepare(Severity::Trace, "Test Message"));
    assert_eq!(record.level, "TRACE");
    assert_eq!(record.timestamp.len(), 30);
    assert!(record.timestamp.ends_with('Z'));
    assert!(json.contains("Test Message"));
    let value: serde_json::Value = serde_json::from_str(&json).unwrap();
    assert_eq!(value["timestamp"], record.timestamp.as_str());
    assert_eq!(value["application"], "TestApp");
}

#[test]
fn prepare_suppresses_debug_below_debug_level() {
    let s = LoggerSettings::new("TestApp", "INFO");
    assert!(matches!(s.prepare(Severity::Debug, "m"), Dispatch::Suppressed));
}

#[test]
fn errors_and_traces_pass_every_level() {
    for level in ["ERROR", "WARN", "INFO", "DEBUG", "TRACE", "none"] {
        let s = LoggerSettings::new("App", level);
        let (e, _) = deliver(s.prepare(Severity::Error, "e"));
        assert_eq!(e.level, "ERROR");
        let (t, _) = deliver(s.prepare(Severity::Trace, "t"));
        assert_eq!(t.level, "TRACE");
    }
}
