//! The header-gated writer — a sink adapter that emits a header once, just
//! before the first non-empty chunk of the current scope, so that a labeled
//! separator appears only when there is something to separate — and the
//! fixed texts of the diagnostics block: the backtrace hints, the
//! source-snippet hint, the span-trace warning and the indented span trace.

use vstd::prelude::*;
use crate::Verbosity;
use crate::text::{trim_end_spec, indent_spec, trim_end, indent};

verus! {

/// A text sink plus a pending header. While a scope is not `started`, the
/// first non-empty write emits the header first; empty writes leave the
/// sink untouched.
pub struct HeaderWriter {
    /// The sink written into.
    pub buf: String,
    /// The pending header text.
    pub header: String,
    /// Whether the current scope has already produced output.
    pub started: bool,
}

/// The mathematical value of a [`HeaderWriter`].
pub struct HeaderWriterView {
    pub buf: Seq<char>,
    pub header: Seq<char>,
    pub started: bool,
}

impl View for HeaderWriter {
    type V = HeaderWriterView;

    open spec fn view(&self) -> HeaderWriterView {
        HeaderWriterView { buf: self.buf@, header: self.header@, started: self.started }
    }
}

/// Extension trait that wraps a sink in a [`HeaderWriter`].
pub trait WriterExt: Sized {
    /// The text already in the sink.
    spec fn sink_spec(self) -> Seq<char>;

    /// Wrap this sink; `header` is pending until something non-empty is
    /// written.
    fn header(self, header: String) -> (w: HeaderWriter)
        ensures
            w@.buf == self.sink_spec(),
            w@.header == header@,
            !w@.started,
    ;
}

impl WriterExt for String {
    open spec fn sink_spec(self) -> Seq<char> {
        self@
    }

    fn header(self, header: String) -> (w: HeaderWriter) {
        HeaderWriter { buf: self, header, started: false }
    }
}

impl HeaderWriter {
    /// Begin a fresh gated scope: the header is pending again.
    pub fn ready(&mut self)
        ensures
            final(self)@ == (HeaderWriterView { started: false, ..old(self)@ }),
    {
        self.started = false;
    }

    /// Treat the current scope as already started, so no header will be
    /// emitted for it.
    pub fn in_progress(&mut self)
        ensures
            final(self)@ == (HeaderWriterView { started: true, ..old(self)@ }),
    {
        self.started = true;
    }

    /// Append `s` to the sink, emitting the pending header first if `s` is
    /// the scope's first non-empty chunk.
    pub fn write_str(&mut self, s: &str)
        ensures
            final(self)@.header == old(self)@.header,
            final(self)@.started == (old(self)@.started || s@.len() > 0),
            final(self)@.buf == old(self)@.buf + (if !old(self)@.started && s@.len() > 0 {
                old(self)@.header + s@
            } else {
                s@
            }),
    {
        if !self.started && !s.is_empty() {
            let h = self.header.clone();
            self.buf.append(h.as_str());
            self.started = true;
        }
        self.buf.append(s);
    }

    /// Hand back the underlying sink.
    pub fn into_inner(self) -> (r: String)
        ensures
            r@ == self@.buf,
    {
        self.buf
    }
}

/// When no stack trace shows, how to enable capture; when one shows, how
/// to disable frame filtering.
pub open spec fn backtrace_hint_spec(captured: bool) -> Seq<char> {
    if captured {
        "Run with COLORBT_SHOW_HIDDEN=1 environment variable to disable frame filtering."@
    } else {
        "Backtrace omitted.\nRun with RUST_BACKTRACE=1 environment variable to display it."@
    }
}

/// Render the backtrace hint.
pub fn backtrace_hint_text(captured: bool) -> (out: String)
    ensures
        out@ == backtrace_hint_spec(captured),
{
    if captured {
        "Run with COLORBT_SHOW_HIDDEN=1 environment variable to disable frame filtering."
            .to_owned()
    } else {
        "Backtrace omitted.\nRun with RUST_BACKTRACE=1 environment variable to display it."
            .to_owned()
    }
}

/// The hint that higher verbosity adds source snippets; empty at `Full`.
pub open spec fn source_snippets_spec(v: Verbosity) -> Seq<char> {
    if v == Verbosity::Full {
        Seq::empty()
    } else {
        "Run with RUST_BACKTRACE=full to include source snippets."@
    }
}

/// Render the source-snippet hint.
pub fn source_snippets_text(v: Verbosity) -> (out: String)
    ensures
        out@ == source_snippets_spec(v),
{
    if v == Verbosity::Full {
        String::new()
    } else {
        "Run with RUST_BACKTRACE=full to include source snippets.".to_owned()
    }
}

/// The warning emitted when span-trace capture was attempted but the
/// installed subscriber does not support it.
pub open spec fn span_warning_spec() -> Seq<char> {
    "Warning: SpanTrace capture is Unsupported.\nEnsure that you've setup an error layer and the versions match"@
}

/// Render the span-capture warning.
pub fn span_warning_text() -> (out: String)
    ensures
        out@ == span_warning_spec(),
{
    "Warning: SpanTrace capture is Unsupported.\nEnsure that you've setup an error layer and the versions match"
        .to_owned()
}

/// A captured span trace beneath its label, trimmed and indented by two
/// spaces; nothing when the trace text trims to nothing.
pub open spec fn formatted_span_trace_spec(text: Seq<char>) -> Seq<char> {
    let t = trim_end_spec(text);
    if t.len() == 0 {
        Seq::empty()
    } else {
        "Span Trace:\n"@ + indent_spec(t, "  "@)
    }
}

/// Render a captured span trace.
pub fn formatted_span_trace(text: &str) -> (out: String)
    ensures
        out@ == formatted_span_trace_spec(text@),
{
    let t = trim_end(text);
    if t.as_str().is_empty() {
        String::new()
    } else {
        let mut out = "Span Trace:\n".to_owned();
        let ind = indent(t.as_str(), "  ");
        out.append(ind.as_str());
        out
    }
}

} // verus!
