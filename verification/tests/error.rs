use std::backtrace::Backtrace;
use std::fmt;
use std::sync::OnceLock;

use helpful::{CaptureStatus, Cause, Error};
use tracing::callsite::{Callsite, Identifier};
use tracing::field::{Field, FieldSet, Value};
use tracing::metadata::Kind;
use tracing::subscriber::{with_default, Interest};
use tracing::{Level, Metadata, Span};
use tracing_error::{ErrorLayer, SpanTrace};
use tracing_subscriber::layer::SubscriberExt;
use tracing_subscriber::Registry;

#[derive(Debug)]
struct NotFound;

impl fmt::Display for NotFound {
    fn fmt(&self, f: &mut fmt::Formatter<'_>) -> fmt::Result {
        f.write_str("file not found")
    }
}

struct Site {
    metadata: OnceLock<Metadata<'static>>,
}

impl Callsite for Site {
    fn set_interest(&self, _interest: Interest) {}

    fn metadata(&self) -> &Metadata<'_> {
        self.metadata.get().expect("the metadata is set before the span is made")
    }
}

fn span_named(name: &'static str) -> Span {
    let site: &'static Site = Box::leak(Box::new(Site { metadata: OnceLock::new() }));
    let fields = FieldSet::new(&[], Identifier(site));
    let metadata = Metadata::new(
        name,
        "config",
        Level::INFO,
        Some("src/config.rs"),
        Some(12),
        Some("config"),
        fields,
        Kind::SPAN,
    );
    assert!(site.metadata.set(metadata).is_ok());
    let metadata: &'static Metadata<'static> = site.metadata.get().unwrap();
    let no_values: [(&Field, Option<&dyn Value>); 0] = [];
    Span::new(metadata, &metadata.fields().value_set(&no_values))
}

fn shareable<T: Send + Sync + 'static>(_value: &T) {}

#[test]
fn new_keeps_the_display_text_of_the_cause() {
    let error = Error::new(NotFound);
    assert_eq!(error.source.message(), "file not found");
    let text = error.render();
    assert!(text.starts_with("Error: file not found\n\nSpan trace:\n"));
    assert!(text.contains("file not found"));
}

#[test]
fn new_takes_a_foreign_error() {
    let cause = "12a".parse::<u8>().unwrap_err();
    let message = cause.to_string();
    let error = Error::new(cause);
    assert_eq!(error.source.message(), message);
    assert!(error.render().starts_with("Error: invalid digit found in string\n\n"));
}

#[test]
fn without_subscriber_the_span_trace_section_is_empty() {
    let error = Error::from_parts(NotFound, SpanTrace::capture(), Backtrace::disabled());
    assert_eq!(error.span_trace.to_string(), "");
    assert_eq!(error.render(), "Error: file not found\n\nSpan trace:\n");
}

#[test]
fn without_subscriber_new_still_builds() {
    let error = Error::new(NotFound);
    let text = error.render();
    assert!(text.contains("\n\nSpan trace:\n"));
    if error.backtrace_status() != CaptureStatus::Captured {
        assert_eq!(text, "Error: file not found\n\nSpan trace:\n");
    }
}

#[test]
fn inside_a_span_the_rendering_names_it() {
    with_default(Registry::default().with(ErrorLayer::default()), || {
        let span = span_named("load_config");
        let _entered = span.enter();
        let error = Error::from_parts(NotFound, SpanTrace::capture(), Backtrace::disabled());
        assert_eq!(
            error.render(),
            "Error: file not found\n\nSpan trace:\n   0: config::load_config\n             at src/config.rs:12"
        );
    });
}

#[test]
fn new_captures_the_span_of_its_caller() {
    with_default(Registry::default().with(ErrorLayer::default()), || {
        let span = span_named("load_config");
        let _entered = span.enter();
        let error = Error::new(NotFound);
        let text = error.render();
        assert!(text.starts_with("Error: file not found"));
        let section = text.find("\n\nSpan trace:\n").expect("the section is there");
        assert!(text[section..].contains("load_config"));
        if error.backtrace_status() == CaptureStatus::Captured {
            let frames = error.backtrace.to_string();
            assert!(text.ends_with(&format!("\n\nBacktrace:\n{}", frames)));
        } else {
            assert!(text.ends_with("at src/config.rs:12"));
        }
    });
}

#[test]
fn nested_spans_are_listed_innermost_first() {
    with_default(Registry::default().with(ErrorLayer::default()), || {
        let outer = span_named("run");
        let _outer = outer.enter();
        let inner = span_named("load_config");
        let _inner = inner.enter();
        let error = Error::from_parts(NotFound, SpanTrace::capture(), Backtrace::disabled());
        assert_eq!(
            error.render(),
            "Error: file not found\n\nSpan trace:\n   0: config::load_config\n             at src/config.rs:12\n   1: config::run\n             at src/config.rs:12"
        );
    });
}

#[test]
fn the_span_trace_is_that_of_the_place_of_building() {
    with_default(Registry::default().with(ErrorLayer::default()), || {
        let error = {
            let span = span_named("load_config");
            let _entered = span.enter();
            Error::from_parts(NotFound, SpanTrace::capture(), Backtrace::disabled())
        };
        let later = span_named("report");
        let _entered = later.enter();
        let text = error.render();
        assert!(text.contains("load_config"));
        assert!(!text.contains("report"));
    });
}

#[test]
fn disabled_backtrace_gives_no_section() {
    let error = Error::from_parts(NotFound, SpanTrace::capture(), Backtrace::disabled());
    assert_eq!(error.backtrace_status(), CaptureStatus::Disabled);
    let text = error.render();
    assert!(!text.contains("Backtrace:"));
    assert!(text.ends_with("Span trace:\n"));
}

#[test]
fn captured_backtrace_gives_the_last_section() {
    let error = Error::from_parts(NotFound, SpanTrace::capture(), Backtrace::force_capture());
    assert_eq!(error.backtrace_status(), CaptureStatus::Captured);
    let frames = error.backtrace.to_string();
    assert!(!frames.is_empty());
    assert_eq!(
        error.render(),
        format!("Error: file not found\n\nSpan trace:\n\n\nBacktrace:\n{}", frames)
    );
}

#[test]
fn from_parts_keeps_what_it_is_given() {
    let error = Error::from_parts(NotFound, SpanTrace::capture(), Backtrace::force_capture());
    assert_eq!(error.source.message(), "file not found");
    assert_eq!(error.backtrace.status(), std::backtrace::BacktraceStatus::Captured);
    let error = Error::from_parts(NotFound, SpanTrace::capture(), Backtrace::disabled());
    assert_eq!(error.backtrace.status(), std::backtrace::BacktraceStatus::Disabled);
}

#[test]
fn rendering_twice_gives_the_same_text() {
    with_default(Registry::default().with(ErrorLayer::default()), || {
        let span = span_named("load_config");
        let _entered = span.enter();
        let error = Error::from_parts(NotFound, SpanTrace::capture(), Backtrace::force_capture());
        let first = error.render();
        let second = error.render();
        assert_eq!(first, second);
    });
}

#[test]
fn conversion_and_new_render_alike() {
    with_default(Registry::default().with(ErrorLayer::default()), || {
        let span = span_named("load_config");
        let _entered = span.enter();
        let built = Error::new(NotFound);
        let converted = Error::from(NotFound);
        assert_eq!(built.backtrace_status(), converted.backtrace_status());
        let built = built.render();
        let converted = converted.render();
        let upto = |text: &str| text.find("\n\nBacktrace:\n").unwrap_or(text.len());
        assert_eq!(built[..upto(&built)], converted[..upto(&converted)]);
        assert_eq!(
            built[..upto(&built)],
            *"Error: file not found\n\nSpan trace:\n   0: config::load_config\n             at src/config.rs:12"
        );
    });
}

#[test]
fn debug_is_field_by_field() {
    let error = Error::from_parts(NotFound, SpanTrace::capture(), Backtrace::disabled());
    let debug = format!("{:?}", error);
    assert!(debug.starts_with("Error { source: NotFound, span_trace: "));
    assert!(debug.contains("backtrace: "));
    assert_ne!(debug, error.render());
}

#[test]
fn error_can_be_shared_and_sent() {
    let error = Error::new(NotFound);
    shareable(&error);
    let boxed: Box<dyn std::any::Any + Send + Sync> = Box::new(error);
    assert!(boxed.downcast_ref::<Error>().is_some());
}
