//! The two facilities that a new error asks for its context: the span trace
//! of `tracing_error` and the backtrace of std. Both are opaque here: a
//! captured value is carried along and displayed, and of a backtrace only
//! its status is asked.

use vstd::prelude::*;
use std::backtrace::{Backtrace, BacktraceStatus};
use tracing_error::SpanTrace;

verus! {

/// `tracing_error::SpanTrace`, a captured chain of spans.
#[verifier::external_type_specification]
#[verifier::external_body]
pub struct ExSpanTrace(tracing_error::SpanTrace);

/// `std::backtrace::Backtrace`, a captured call stack.
#[verifier::external_type_specification]
#[verifier::external_body]
pub struct ExBacktrace(std::backtrace::Backtrace);

/// `SpanTrace::capture` takes the span that is current on this thread. What
/// comes back depends on the subscriber in place and on the spans entered, so
/// nothing is claimed of it.
pub assume_specification[ SpanTrace::capture ]() -> (span_trace: SpanTrace);

/// `Backtrace::capture` takes the call stack of this thread where the
/// process is set to capture backtraces (`RUST_LIB_BACKTRACE`,
/// `RUST_BACKTRACE`), and a placeholder where it is not. What comes back
/// depends on those settings and on the stack, so nothing is claimed of it.
pub assume_specification[ Backtrace::capture ]() -> (backtrace: Backtrace);

/// Whether a backtrace was captured when it was asked for.
#[derive(Clone, Copy, Debug, PartialEq, Eq, Structural)]
pub enum CaptureStatus {
    /// Capturing a backtrace is not supported on this platform.
    Unsupported,
    /// Capturing a backtrace is supported, and was switched off.
    Disabled,
    /// The call stack was captured.
    Captured,
}

/// What `Backtrace::status` answers for a backtrace, in the variants of
/// [`CaptureStatus`]. It is fixed when the backtrace is made and is the same
/// whenever it is asked.
pub uninterp spec fn captured_status(backtrace: Backtrace) -> CaptureStatus;

/// `Backtrace::status`, with std's variants turned into those of
/// [`CaptureStatus`] one for one; a variant that std may add later counts as
/// unsupported. The answer goes by the backtrace alone.
#[verifier::external_body]
pub(crate) fn status_of(backtrace: &Backtrace) -> (status: CaptureStatus)
    ensures
        status == captured_status(*backtrace),
{
    match backtrace.status() {
        BacktraceStatus::Unsupported => CaptureStatus::Unsupported,
        BacktraceStatus::Disabled => CaptureStatus::Disabled,
        BacktraceStatus::Captured => CaptureStatus::Captured,
        _ => CaptureStatus::Unsupported,
    }
}

} // verus!
