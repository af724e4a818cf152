//! The error container: a cause of any type together with the span trace and
//! the backtrace that were current when it was built.

use vstd::prelude::*;
use vstd::std_specs::convert::FromSpecImpl;
use std::backtrace::Backtrace;
use std::fmt::{Debug, Display};
use tracing_error::SpanTrace;
use crate::capture::{captured_status, status_of, CaptureStatus};
use crate::cause::{displays_as, Cause};
use crate::layout::{
    backtrace_label, backtrace_title, cause_label, cause_start, compose, contains, head,
    lemma_backtrace_present, lemma_backtrace_title_iff_captured, lemma_empty_span_trace,
    lemma_rendering_holds_cause, lemma_rendering_holds_span_trace, occurs_at, rendering,
    section_break, span_trace_label, span_trace_start,
};

verus! {

/// An error of any displayable type, with the context it arose in.
///
/// It is built once, where a foreign error first meets this type, and is
/// handed on unchanged from there. It has no `Display` of its own: with one, a
/// conversion from every displayable type would include a conversion from
/// itself.
#[derive(Debug)]
pub struct Error {
    /// The underlying error, its type forgotten.
    pub source: Box<dyn Cause>,
    /// The spans that were entered when the error was built.
    pub span_trace: SpanTrace,
    /// The call stack at the point where the error was built, or a
    /// placeholder where none was captured.
    pub backtrace: Backtrace,
}

impl Error {
    /// This error holds `source` as its cause: the texts that its cause
    /// displays as are those that `source` displays as.
    pub open spec fn wraps<E: Display>(&self, source: &E) -> bool {
        forall|text: Seq<char>| self.source.is_message(text) <==> displays_as(source, text)
    }

    /// The backtrace of this error holds a captured stack.
    pub open spec fn captured(&self) -> bool {
        captured_status(self.backtrace) == CaptureStatus::Captured
    }

    /// `text` is a rendering of this error: the layout of a text that the cause
    /// displays as, one that the span trace displays as and, where the
    /// backtrace was captured and only there, one that the backtrace displays
    /// as.
    pub open spec fn renders_as(&self, text: Seq<char>) -> bool {
        exists|cause: Seq<char>, span_trace: Seq<char>, frames: Seq<char>|
            self.renders_from(text, cause, span_trace, frames)
    }

    /// `text` is the rendering of this error that is made of these three
    /// texts. Where no backtrace was captured `frames` plays no part.
    pub open spec fn renders_from(
        &self,
        text: Seq<char>,
        cause: Seq<char>,
        span_trace: Seq<char>,
        frames: Seq<char>,
    ) -> bool {
        &&& self.source.is_message(cause)
        &&& displays_as(&self.span_trace, span_trace)
        &&& if self.captured() {
            &&& displays_as(&self.backtrace, frames)
            &&& text == rendering(cause, span_trace, Some(frames))
        } else {
            text == rendering(cause, span_trace, None)
        }
    }

    /// Wraps `source`, capturing the span trace and the backtrace of the
    /// caller. This cannot fail: where a facility is switched off or missing
    /// its capture is empty.
    pub fn new<E: Display + Debug + Send + Sync + 'static>(source: E) -> (error: Error)
        ensures
            error.wraps(&source),
    {
        Error::from_parts(source, SpanTrace::capture(), Backtrace::capture())
    }

    /// Wraps `source` with a span trace and a backtrace that were captured
    /// before.
    pub fn from_parts<E: Display + Debug + Send + Sync + 'static>(
        source: E,
        span_trace: SpanTrace,
        backtrace: Backtrace,
    ) -> (error: Error)
        ensures
            error.wraps(&source),
            error.span_trace == span_trace,
            error.backtrace == backtrace,
    {
        Error { source: Box::new(source), span_trace, backtrace }
    }

    /// Renders the error for a reader: the cause, the span trace and, where
    /// one was captured, the backtrace.
    pub fn render(&self) -> (text: String)
        ensures
            self.renders_as(text@),
    {
        let cause = self.source.message();
        let span_trace = self.span_trace.to_string();
        match status_of(&self.backtrace) {
            CaptureStatus::Captured => {
                let frames = self.backtrace.to_string();
                let text = compose(cause.as_str(), span_trace.as_str(), Some(frames.as_str()));
                assert(self.renders_from(text@, cause@, span_trace@, frames@));
                text
            },
            _ => {
                let text = compose(cause.as_str(), span_trace.as_str(), None);
                assert(self.renders_from(text@, cause@, span_trace@, Seq::empty()));
                text
            },
        }
    }

    /// Whether the backtrace of this error was captured, as the backtrace
    /// itself answers.
    pub fn backtrace_status(&self) -> (status: CaptureStatus)
        ensures
            status == captured_status(self.backtrace),
    {
        status_of(&self.backtrace)
    }

    /// Each part that a rendering is made of displays in one way only: no
    /// `Display` impl behind it answers differently from call to call.
    pub open spec fn displays_one_way(&self) -> bool {
        &&& forall|a: Seq<char>, b: Seq<char>|
            self.source.is_message(a) && self.source.is_message(b) ==> a == b
        &&& forall|a: Seq<char>, b: Seq<char>|
            displays_as(&self.span_trace, a) && displays_as(&self.span_trace, b) ==> a == b
        &&& self.captured() ==> forall|
            a: Seq<char>,
            b: Seq<char>,
        |
            displays_as(&self.backtrace, a) && displays_as(&self.backtrace, b) ==> a == b
    }

    /// A rendering of an error opens with the leading label and then holds a
    /// display text of the value that the error was built from, verbatim and
    /// in one piece.
    pub proof fn lemma_rendering_holds_source<E: Display>(self, source: E, text: Seq<char>)
        requires
            self.wraps(&source),
            self.renders_as(text),
        ensures
            occurs_at(text, cause_label(), 0),
            exists|cause: Seq<char>|
                displays_as(&source, cause) && occurs_at(text, cause, cause_start()),
            exists|cause: Seq<char>| displays_as(&source, cause) && contains(text, cause),
    {
        let (cause, span_trace, frames) = choose|
            cause: Seq<char>,
            span_trace: Seq<char>,
            frames: Seq<char>,
        | self.renders_from(text, cause, span_trace, frames);
        lemma_rendering_holds_cause(cause, span_trace, Some(frames));
        lemma_rendering_holds_cause(cause, span_trace, None);
        assert(displays_as(&source, cause) && occurs_at(text, cause, cause_start()));
        assert(displays_as(&source, cause) && contains(text, cause));
    }

    /// This error and `other` were built in the same context: their span
    /// traces display alike, their backtraces were captured or not alike, and
    /// where they were captured they display alike.
    pub open spec fn same_context(&self, other: &Error) -> bool {
        &&& forall|text: Seq<char>|
            displays_as(&self.span_trace, text) <==> displays_as(&other.span_trace, text)
        &&& self.captured() == other.captured()
        &&& self.captured() ==> forall|text: Seq<char>|
            displays_as(&self.backtrace, text) <==> displays_as(&other.backtrace, text)
    }

    /// Two errors that wrap the same cause in the same context have the same
    /// renderings, whichever way each was built: by [`Error::new`] or by the
    /// conversion that `?` makes.
    pub proof fn lemma_same_context_same_renderings<E: Display>(
        self,
        other: Error,
        source: E,
        text: Seq<char>,
    )
        requires
            self.wraps(&source),
            other.wraps(&source),
            self.same_context(&other),
        ensures
            self.renders_as(text) <==> other.renders_as(text),
    {
        if self.renders_as(text) {
            let (cause, span_trace, frames) = choose|
                cause: Seq<char>,
                span_trace: Seq<char>,
                frames: Seq<char>,
            | self.renders_from(text, cause, span_trace, frames);
            assert(other.renders_from(text, cause, span_trace, frames));
        }
        if other.renders_as(text) {
            let (cause, span_trace, frames) = choose|
                cause: Seq<char>,
                span_trace: Seq<char>,
                frames: Seq<char>,
            | other.renders_from(text, cause, span_trace, frames);
            assert(self.renders_from(text, cause, span_trace, frames));
        }
    }

    /// Where each part displays in one way only, the error has one rendering:
    /// rendering it twice gives the same text twice.
    pub proof fn lemma_rendering_is_unique(self, first: Seq<char>, second: Seq<char>)
        requires
            self.displays_one_way(),
            self.renders_as(first),
            self.renders_as(second),
        ensures
            first == second,
    {
        let (cause_a, span_trace_a, frames_a) = choose|
            cause: Seq<char>,
            span_trace: Seq<char>,
            frames: Seq<char>,
        | self.renders_from(first, cause, span_trace, frames);
        let (cause_b, span_trace_b, frames_b) = choose|
            cause: Seq<char>,
            span_trace: Seq<char>,
            frames: Seq<char>,
        | self.renders_from(second, cause, span_trace, frames);
        assert(cause_a == cause_b);
        assert(span_trace_a == span_trace_b);
        if self.captured() {
            assert(frames_a == frames_b);
        }
    }

    /// Whether a rendering has a backtrace section goes by the capture status
    /// alone. Where no backtrace was captured the rendering ends with the span
    /// trace. Where one was, a blank line, the label and the backtrace follow.
    pub proof fn lemma_backtrace_section(self, text: Seq<char>)
        requires
            self.renders_as(text),
        ensures
            !self.captured() ==> exists|
                cause: Seq<char>,
                span_trace: Seq<char>,
            |
                self.source.is_message(cause) && displays_as(&self.span_trace, span_trace) && text
                    == #[trigger] head(cause, span_trace),
            self.captured() ==> exists|
                cause: Seq<char>,
                span_trace: Seq<char>,
                frames: Seq<char>,
            |
                self.renders_from(text, cause, span_trace, frames) && text == head(
                    cause,
                    span_trace,
                ) + (section_break() + backtrace_label()) + frames,
            self.captured() ==> contains(text, backtrace_title()),
    {
        let (cause, span_trace, frames) = choose|
            cause: Seq<char>,
            span_trace: Seq<char>,
            frames: Seq<char>,
        | self.renders_from(text, cause, span_trace, frames);
        if self.captured() {
            lemma_backtrace_present(cause, span_trace, frames);
        } else {
            assert(text == head(cause, span_trace));
        }
    }

    /// Where no text that the cause or the span trace displays as holds the
    /// word "Backtrace:", a rendering holds it exactly where the backtrace was
    /// captured.
    pub proof fn lemma_backtrace_title_iff_captured(self, text: Seq<char>)
        requires
            self.renders_as(text),
            forall|cause: Seq<char>|
                self.source.is_message(cause) ==> !contains(cause, backtrace_title()),
            forall|span_trace: Seq<char>|
                displays_as(&self.span_trace, span_trace) ==> !contains(
                    span_trace,
                    backtrace_title(),
                ),
        ensures
            contains(text, backtrace_title()) <==> self.captured(),
    {
        let (cause, span_trace, frames) = choose|
            cause: Seq<char>,
            span_trace: Seq<char>,
            frames: Seq<char>,
        | self.renders_from(text, cause, span_trace, frames);
        if self.captured() {
            lemma_backtrace_title_iff_captured(cause, span_trace, Some(frames));
        } else {
            lemma_backtrace_title_iff_captured(cause, span_trace, None);
        }
    }

    /// Every rendering has the span trace section right after the cause: a
    /// blank line, the label, and what the span trace displays as. Where that
    /// is the empty text, as it is with no subscriber in place, the label is
    /// there all the same.
    pub proof fn lemma_span_trace_section(self, text: Seq<char>)
        requires
            self.renders_as(text),
        ensures
            contains(text, span_trace_label()),
            exists|cause: Seq<char>, span_trace: Seq<char>|
                self.source.is_message(cause) && displays_as(&self.span_trace, span_trace)
                    && occurs_at(
                    text,
                    section_break() + span_trace_label(),
                    cause_start() + cause.len(),
                ) && #[trigger] occurs_at(text, span_trace, span_trace_start(cause)),
    {
        let (cause, span_trace, frames) = choose|
            cause: Seq<char>,
            span_trace: Seq<char>,
            frames: Seq<char>,
        | self.renders_from(text, cause, span_trace, frames);
        let backtrace = if self.captured() {
            Some(frames)
        } else {
            None
        };
        lemma_rendering_holds_span_trace(cause, span_trace, backtrace);
        assert(occurs_at(text, section_break() + span_trace_label(), cause_start() + cause.len())
            && occurs_at(text, span_trace, span_trace_start(cause)));
    }

    /// Where the span trace displays as the empty text only, as it does with
    /// no subscriber in place, the section is its label alone: without a
    /// backtrace the rendering ends with the label, and with one the backtrace
    /// section follows the label at once.
    pub proof fn lemma_empty_span_trace_section(self, text: Seq<char>)
        requires
            self.renders_as(text),
            forall|span_trace: Seq<char>|
                displays_as(&self.span_trace, span_trace) ==> span_trace == Seq::<char>::empty(),
        ensures
            exists|cause: Seq<char>|
                self.source.is_message(cause) && #[trigger] occurs_at(
                    text,
                    section_break() + span_trace_label(),
                    cause_start() + cause.len(),
                ) && if self.captured() {
                    occurs_at(text, section_break() + backtrace_label(), span_trace_start(cause))
                } else {
                    text == cause_label() + cause + section_break() + span_trace_label()
                },
    {
        let (cause, span_trace, frames) = choose|
            cause: Seq<char>,
            span_trace: Seq<char>,
            frames: Seq<char>,
        | self.renders_from(text, cause, span_trace, frames);
        assert(span_trace == Seq::<char>::empty());
        if self.captured() {
            lemma_rendering_holds_span_trace(cause, span_trace, Some(frames));
            lemma_backtrace_present(cause, span_trace, frames);
            assert(head(cause, span_trace).len() == span_trace_start(cause));
        } else {
            lemma_rendering_holds_span_trace(cause, span_trace, None);
            lemma_empty_span_trace(cause);
        }
        assert(self.source.is_message(cause) && occurs_at(
            text,
            section_break() + span_trace_label(),
            cause_start() + cause.len(),
        ));
    }
}

/// A result whose error side is an [`Error`].
pub type Result<T = ()> = std::result::Result<T, Error>;

impl<E: Display + Debug + Send + Sync + 'static> From<E> for Error {
    /// The conversion that `?` makes: the same as [`Error::new`], at the place
    /// where the foreign error is handed on.
    fn from(source: E) -> (error: Error)
        ensures
            error.wraps(&source),
    {
        Error::new(source)
    }
}

impl<E: Display + Debug + Send + Sync + 'static> FromSpecImpl<E> for Error {
    /// The conversion captures the context of its caller, so its result is no
    /// function of its argument.
    open spec fn obeys_from_spec() -> bool {
        false
    }

    open spec fn from_spec(source: E) -> Error {
        arbitrary()
    }
}

} // verus!
