use rust_vector_logger::{admits, Severity};

const ALL: [Severity; 5] = [
    Severity::Error,
    Severity::Warn,
    Severity::Info,
    Severity::Debug,
    Severity::Trace,
];

fn admitted(level: &str) -> Vec<Severity> {
    ALL.iter().copied().filter(|s| admits(level, *s)).collect()
}

#[test]
fn labels_name_the_severities() {
    assert_eq!(Severity::Error.label(), "ERROR");
    assert_eq!(Severity::Warn.label(), "WARN");
    assert_eq!(Severity::Info.label(), "INFO");
    assert_eq!(Severity::Debug.label(), "DEBUG");
    assert_eq!(Severity::Trace.label(), "TRACE");
}

#[test]
fn error_level_keeps_errors_and_traces() {
    assert_eq!(admitted("ERROR"), vec![Severity::Error, Severity::Trace]);
}

#[test]
fn warn_level_drops_info_and_debug() {
    assert_eq!(admitted("WARN"), vec![Severity::Error, Severity::Warn, Severity::Trace]);
}

#[test]
fn info_level_drops_debug() {
    assert_eq!(
        admitted("INFO"),
        vec![Severity::Error, Severity::Warn, Severity::Info, Severity::Trace]
    );
}

#[test]
fn debug_level_sends_everything() {
    assert_eq!(admitted("DEBUG"), ALL.to_vec());
}

#[test]
fn trace_level_drops_debug() {
    assert_eq!(
        admitted("TRACE"),
        vec![Severity::Error, Severity::Warn, Severity::Info, Severity::Trace]
    );
}

#[test]
fn unknown_level_behaves_like_info() {
    assert_eq!(admitted("verbose"), admitted("INFO"));
    assert_eq!(admitted(""), admitted("INFO"));
}

#[test]
fn level_is_read_without_letter_case() {
    assert_eq!(admitted("debug"), admitted("DEBUG"));
    assert_eq!(admitted("Error"), admitted("ERROR"));
    assert_eq!(admitted("wArN"), admitted("WARN"));
}

#[test]
fn level_with_spaces_is_not_trimmed() {
    assert_eq!(admitted(" ERROR"), admitted("INFO"));
}

#[test]
fn every_level_is_a_threshold() {
    for level in ["ERROR", "WARN", "INFO", "DEBUG", "TRACE", "x", "debug"] {
        let a = |s| admits(level, s);
        assert!(!a(Severity::Debug) || a(Severity::Info));
        assert!(!a(Severity::Info) || a(Severity::Warn));
        assert!(a(Severity::Error));
        assert!(a(Severity::Trace));
    }
}

#[test]
fn non_ascii_level_goes_through_unicode_upper_case() {
    // U+0131 (dotless i) upper-cases to `I`, so this reads as `INFO`.
    assert_eq!(admitted("\u{131}nfo"), admitted("INFO"));
    // U+017F (long s) upper-cases to `S`; `ERROR` has none, so this stays unknown.
    assert_eq!(admitted("erro\u{17f}"), admitted("INFO"));
}
