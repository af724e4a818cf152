use helpful::layout::compose;

#[test]
fn compose_without_backtrace_ends_with_span_trace() {
    assert_eq!(
        compose("file not found", "   0: config::load_config", None),
        "Error: file not found\n\nSpan trace:\n   0: config::load_config"
    );
}

#[test]
fn compose_with_backtrace_appends_section() {
    assert_eq!(
        compose("file not found", "   0: config::load_config", Some("   0: main")),
        "Error: file not found\n\nSpan trace:\n   0: config::load_config\n\nBacktrace:\n   0: main"
    );
}

#[test]
fn compose_with_empty_span_trace_keeps_label() {
    assert_eq!(
        compose("file not found", "", None),
        "Error: file not found\n\nSpan trace:\n"
    );
}

#[test]
fn compose_with_empty_texts_keeps_all_labels() {
    assert_eq!(compose("", "", None), "Error: \n\nSpan trace:\n");
    assert_eq!(
        compose("", "", Some("")),
        "Error: \n\nSpan trace:\n\n\nBacktrace:\n"
    );
}

#[test]
fn compose_keeps_cause_verbatim() {
    let cause = "line one\nline two: \u{e9}\t\"quoted\"";
    let text = compose(cause, "", None);
    assert_eq!(&text[7..7 + cause.len()], cause);
    assert!(text.starts_with("Error: "));
}

#[test]
fn compose_is_a_function_of_its_parts() {
    let first = compose("a", "b", Some("c"));
    let second = compose("a", "b", Some("c"));
    assert_eq!(first, second);
    assert_ne!(first, compose("a", "b", None));
}

#[test]
fn compose_writes_backtrace_title_only_with_backtrace() {
    assert!(!compose("a", "b", None).contains("Backtrace:"));
    assert!(compose("a", "b", Some("c")).contains("\n\nBacktrace:\nc"));
}

#[test]
fn compose_cause_may_hold_the_title_itself() {
    let text = compose("see Backtrace: below", "", None);
    assert!(text.contains("Backtrace:"));
    assert!(text.ends_with("Span trace:\n"));
}
