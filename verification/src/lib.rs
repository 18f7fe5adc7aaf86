//! An error-report aggregation and rendering core.
//!
//! A failure is represented as a [`Report`]: a chain of cause messages plus a
//! per-failure context store, the [`Handler`]. Aggregation methods (the
//! [`Help`] trait in [`help`]) append custom sections and pre-configured help
//! entries to the store on the error path only; [`Report::render`] then turns
//! the populated store into deterministic, optionally colorized text, gated
//! by a verbosity level.
//!
//! Reading the process environment, installing panic hooks and integrating
//! with foreign error types are configuration concerns that callers handle
//! outside this crate; they feed the result in through [`Config`] and the
//! plain-value constructors here.

use vstd::prelude::*;
use crate::capture::{capture_backtrace, format_backtrace, capture_span_trace, span_trace_status,
    colorize_span_trace};

pub use crate::capture::SpanStatus;
pub use crate::context_from::ContextFrom;
pub use crate::help::{Help, Sealed};
pub use crate::section::{Section, SectionExt, SectionView, Placement};

pub mod capture;
pub mod context_from;
pub mod fmt;
pub mod help;
pub mod render;
pub mod section;
pub mod text;
pub mod writers;

verus! {

/// How much diagnostic detail the renderer includes: `Minimal` and `Short`
/// reports end with a hint that higher verbosity adds source snippets,
/// `Full` reports do not.
#[derive(Clone, Copy, PartialEq, Eq, Structural, Debug)]
pub enum Verbosity {
    Minimal,
    Short,
    Full,
}

/// Whether help-entry labels are wrapped in ANSI color codes.
#[derive(Clone, Copy, PartialEq, Eq, Structural, Debug)]
pub enum Theme {
    Plain,
    Colored,
}

/// The configuration the capture step and the renderer read. Callers build
/// it once (usually from [`install`] plus their environment) and pass it in;
/// nothing in this crate reads ambient state.
#[derive(Clone, Copy, PartialEq, Eq, Structural, Debug)]
pub struct Config {
    /// Label styling used by the renderer.
    pub theme: Theme,
    /// Verbosity for ordinary error-path reports.
    pub verbosity: Verbosity,
    /// Verbosity for reports rendered while panicking.
    pub panic_verbosity: Verbosity,
    /// Capture a stack trace when a report is created.
    pub capture_backtrace: bool,
    /// Capture a span trace when a report is created.
    pub capture_span_trace: bool,
}

/// The environment-independent baseline configuration: colored labels,
/// minimal verbosity, span traces captured, stack traces not.
pub open spec fn default_config() -> Config {
    Config {
        theme: Theme::Colored,
        verbosity: Verbosity::Minimal,
        panic_verbosity: Verbosity::Minimal,
        capture_backtrace: false,
        capture_span_trace: true,
    }
}

/// Build the default hook configuration. Installing it process-wide (panic
/// hook, error-report hook) and overriding it from environment variables is
/// the embedding program's job.
pub fn install() -> (c: Config)
    ensures
        c == default_config(),
{
    Config {
        theme: Theme::Colored,
        verbosity: Verbosity::Minimal,
        panic_verbosity: Verbosity::Minimal,
        capture_backtrace: false,
        capture_span_trace: true,
    }
}

/// The outcome of one span-trace capture: its status and, when spans were
/// recorded, the colorized text produced at capture time.
#[derive(Clone, Debug)]
pub struct SpanTraceInfo {
    /// Whether the capture recorded spans, was unsupported, or found none.
    pub status: SpanStatus,
    /// The pre-rendered span-trace text; empty unless `status` is `Captured`.
    pub text: String,
}

/// The mathematical value of a [`SpanTraceInfo`].
#[verifier::ext_equal]
pub struct SpanTraceInfoView {
    pub status: SpanStatus,
    pub text: Seq<char>,
}

impl View for SpanTraceInfo {
    type V = SpanTraceInfoView;

    open spec fn view(&self) -> SpanTraceInfoView {
        SpanTraceInfoView { status: self.status, text: self.text@ }
    }
}

/// An auxiliary error attached to a report: its own chain of cause
/// messages, rendered right after the primary chain.
#[derive(Clone, Debug)]
pub struct AuxError {
    /// The error's display, then the displays of its causes, in order.
    pub messages: Vec<String>,
}

impl View for AuxError {
    type V = Seq<Seq<char>>;

    open spec fn view(&self) -> Seq<Seq<char>> {
        self.messages@.map_values(|m: String| m@)
    }
}

/// The per-failure context store: captured diagnostics plus the custom
/// sections, auxiliary errors and help entries appended so far, each in
/// insertion order. Owned by exactly one [`Report`].
#[derive(Clone, Debug)]
pub struct Handler {
    /// The stack trace formatted at capture time, when one was captured.
    pub backtrace: Option<String>,
    /// The span-trace capture outcome, when capture was attempted.
    pub span_trace: Option<SpanTraceInfo>,
    /// Auxiliary errors, in insertion order.
    pub aux_errors: Vec<AuxError>,
    /// Custom sections, in insertion order.
    pub sections: Vec<Section>,
    /// Help entries, in insertion order.
    pub help_entries: Vec<crate::help::HelpInfo>,
}

/// The mathematical value of a [`Handler`].
#[verifier::ext_equal]
pub struct HandlerView {
    pub backtrace: Option<Seq<char>>,
    pub span_trace: Option<SpanTraceInfoView>,
    pub aux_errors: Seq<Seq<Seq<char>>>,
    pub sections: Seq<SectionView>,
    pub help_entries: Seq<crate::help::HelpInfoView>,
}

impl View for Handler {
    type V = HandlerView;

    open spec fn view(&self) -> HandlerView {
        HandlerView {
            backtrace: match self.backtrace {
                Option::Some(b) => Option::Some(b@),
                Option::None => Option::None,
            },
            span_trace: match self.span_trace {
                Option::Some(s) => Option::Some(s@),
                Option::None => Option::None,
            },
            aux_errors: self.aux_errors@.map_values(|a: AuxError| a@),
            sections: self.sections@.map_values(|s: Section| s@),
            help_entries: self.help_entries@.map_values(|h: crate::help::HelpInfo| h@),
        }
    }
}

impl Handler {
    /// An explicitly assembled store with no sections or help entries yet;
    /// the captured artifacts are injected rather than captured here.
    pub fn new(backtrace: Option<String>, span_trace: Option<SpanTraceInfo>) -> (h: Handler)
        ensures
            h@.backtrace == (match backtrace {
                Option::Some(b) => Option::Some(b@),
                Option::None => Option::<Seq<char>>::None,
            }),
            h@.span_trace == (match span_trace {
                Option::Some(s) => Option::Some(s@),
                Option::None => Option::<SpanTraceInfoView>::None,
            }),
            h@.aux_errors == Seq::<Seq<Seq<char>>>::empty(),
            h@.sections == Seq::<SectionView>::empty(),
            h@.help_entries == Seq::<crate::help::HelpInfoView>::empty(),
    {
        let h = Handler {
            backtrace,
            span_trace,
            aux_errors: Vec::new(),
            sections: Vec::new(),
            help_entries: Vec::new(),
        };
        proof {
            assert(h@.aux_errors =~= Seq::<Seq<Seq<char>>>::empty());
            assert(h@.sections =~= Seq::<SectionView>::empty());
            assert(h@.help_entries =~= Seq::<crate::help::HelpInfoView>::empty());
        }
        h
    }

    /// Create the store for a new failure, capturing a stack trace and a
    /// span trace as `config` asks. The captured texts depend on the
    /// environment, so the contract fixes only the store's shape.
    pub fn capture(config: &Config) -> (h: Handler)
        ensures
            h@.backtrace is Some <==> config.capture_backtrace,
            h@.span_trace is Some <==> config.capture_span_trace,
            h@.span_trace matches Some(st) ==> (st.status != SpanStatus::Captured
                ==> st.text.len() == 0),
            h@.aux_errors == Seq::<Seq<Seq<char>>>::empty(),
            h@.sections == Seq::<SectionView>::empty(),
            h@.help_entries == Seq::<crate::help::HelpInfoView>::empty(),
    {
        let backtrace = if config.capture_backtrace {
            let bt = capture_backtrace();
            Option::Some(format_backtrace(&bt))
        } else {
            Option::None
        };
        let span_trace = if config.capture_span_trace {
            let st = capture_span_trace();
            let status = span_trace_status(&st);
            let text = if status == SpanStatus::Captured {
                colorize_span_trace(&st)
            } else {
                String::new()
            };
            Option::Some(SpanTraceInfo { status, text })
        } else {
            Option::None
        };
        Handler::new(backtrace, span_trace)
    }
}

/// The enriched representation of one failure: the chain of cause
/// messages (primary message first) and the context store that owns all
/// diagnostics accumulated for it.
#[derive(Clone, Debug)]
pub struct Report {
    /// The primary message, then the displays of its causes, in order.
    pub messages: Vec<String>,
    /// The context store owned by this failure.
    pub handler: Handler,
}

/// The mathematical value of a [`Report`].
#[verifier::ext_equal]
pub struct ReportView {
    pub messages: Seq<Seq<char>>,
    pub handler: HandlerView,
}

impl View for Report {
    type V = ReportView;

    open spec fn view(&self) -> ReportView {
        ReportView {
            messages: self.messages@.map_values(|m: String| m@),
            handler: self.handler@,
        }
    }
}

impl ReportView {
    /// This report with one help entry appended.
    pub open spec fn with_help(self, h: crate::help::HelpInfoView) -> ReportView {
        ReportView {
            handler: HandlerView {
                help_entries: self.handler.help_entries.push(h),
                ..self.handler
            },
            ..self
        }
    }

    /// This report with a custom section appended; a suppressed section is
    /// dropped and leaves the report unchanged.
    pub open spec fn with_section(self, s: SectionView) -> ReportView {
        if s.placement == Placement::Suppressed {
            self
        } else {
            ReportView {
                handler: HandlerView { sections: self.handler.sections.push(s), ..self.handler },
                ..self
            }
        }
    }

    /// This report with an auxiliary error chain appended.
    pub open spec fn with_aux_error(self, messages: Seq<Seq<char>>) -> ReportView {
        ReportView {
            handler: HandlerView {
                aux_errors: self.handler.aux_errors.push(messages),
                ..self.handler
            },
            ..self
        }
    }
}

impl Report {
    /// Represent a failure by a single message: an empty context store is
    /// created and capture runs immediately, gated by `config`.
    pub fn msg(message: String, config: &Config) -> (r: Report)
        ensures
            r@.messages == seq![message@],
            r@.handler.backtrace is Some <==> config.capture_backtrace,
            r@.handler.span_trace is Some <==> config.capture_span_trace,
            r@.handler.aux_errors == Seq::<Seq<Seq<char>>>::empty(),
            r@.handler.sections == Seq::<SectionView>::empty(),
            r@.handler.help_entries == Seq::<crate::help::HelpInfoView>::empty(),
    {
        let mut messages: Vec<String> = Vec::new();
        messages.push(message);
        let r = Report { messages, handler: Handler::capture(config) };
        proof {
            assert(r@.messages =~= seq![r.messages@[0]@]);
        }
        r
    }

    /// Represent a failure by its full cause chain, primary message first.
    pub fn from_chain(messages: Vec<String>, config: &Config) -> (r: Report)
        ensures
            r@.messages == messages@.map_values(|m: String| m@),
            r@.handler.backtrace is Some <==> config.capture_backtrace,
            r@.handler.span_trace is Some <==> config.capture_span_trace,
            r@.handler.aux_errors == Seq::<Seq<Seq<char>>>::empty(),
            r@.handler.sections == Seq::<SectionView>::empty(),
            r@.handler.help_entries == Seq::<crate::help::HelpInfoView>::empty(),
    {
        Report { messages, handler: Handler::capture(config) }
    }

    /// Assemble a report from explicit parts, without capturing anything.
    pub fn from_parts(messages: Vec<String>, handler: Handler) -> (r: Report)
        ensures
            r@.messages == messages@.map_values(|m: String| m@),
            r@.handler == handler@,
    {
        Report { messages, handler }
    }

    /// Append a custom section to this report's store; a suppressed
    /// section is dropped and the report returned unchanged.
    pub fn section(self, section: Section) -> (r: Report)
        ensures
            r@ == self@.with_section(section@),
    {
        let mut me = self;
        let ghost s0 = me;
        match section.placement {
            Placement::Suppressed => me,
            _ => {
                let ghost sv = section@;
                me.handler.sections.push(section);
                proof {
                    assert(me@ =~~= s0@.with_section(sv));
                }
                me
            },
        }
    }
}

} // verus!
