//! Trusted boundary to the capture collaborators: stack-trace capture and
//! formatting, span-trace capture, status inspection and colorizing. The
//! results depend on the execution environment (installed subscribers, the
//! actual call stack), so the wrappers promise nothing of the texts; the
//! store and the renderer are verified for every value they may hand back.

use vstd::prelude::*;

verus! {

/// `backtrace`'s captured stack, carried opaquely.
#[verifier::external_type_specification]
#[verifier::external_body]
pub struct ExBacktrace(backtrace::Backtrace);

/// `tracing_error`'s captured span trace, carried opaquely.
#[verifier::external_type_specification]
#[verifier::external_body]
pub struct ExSpanTrace(tracing_error::SpanTrace);

/// Relies on `backtrace::Backtrace::new`: captures and resolves the current
/// thread's stack. What it holds depends on the execution environment, so
/// nothing is promised of the value.
#[verifier::external_body]
pub(crate) fn capture_backtrace() -> backtrace::Backtrace {
    backtrace::Backtrace::new()
}

/// Relies on the `Debug` rendering of `backtrace::Backtrace`: a textual
/// listing of the captured frames. The text depends on the environment;
/// nothing is promised of it.
#[verifier::external_body]
pub(crate) fn format_backtrace(bt: &backtrace::Backtrace) -> String {
    format!("{:?}", bt)
}

/// Relies on `tracing_error::SpanTrace::capture`: records the spans that
/// were entered when the failure was represented. The result depends on
/// the installed subscriber, so nothing is promised of the value.
#[verifier::external_body]
pub(crate) fn capture_span_trace() -> tracing_error::SpanTrace {
    tracing_error::SpanTrace::capture()
}

/// The tri-state outcome of a span-trace capture.
#[derive(Clone, Copy, PartialEq, Eq, Structural, Debug)]
pub enum SpanStatus {
    /// Spans were recorded and the trace renders useful text.
    Captured,
    /// The subscriber cannot record spans (no error layer installed).
    Unsupported,
    /// No span was active, so there is nothing to render.
    Empty,
}

/// Relies on `tracing_error::SpanTrace::status` and the three constants of
/// `SpanTraceStatus`; the body only tells those three apart.
#[verifier::external_body]
pub(crate) fn span_trace_status(st: &tracing_error::SpanTrace) -> SpanStatus {
    let s = st.status();
    if s == tracing_error::SpanTraceStatus::CAPTURED {
        SpanStatus::Captured
    } else if s == tracing_error::SpanTraceStatus::UNSUPPORTED {
        SpanStatus::Unsupported
    } else {
        SpanStatus::Empty
    }
}

/// Relies on `color_spantrace::colorize`: the colored, human-readable
/// rendering of a span trace. The text depends on the trace and on the
/// process-wide theme, so nothing is promised of it.
#[verifier::external_body]
pub(crate) fn colorize_span_trace(st: &tracing_error::SpanTrace) -> String {
    format!("{}", color_spantrace::colorize(st))
}

} // verus!
