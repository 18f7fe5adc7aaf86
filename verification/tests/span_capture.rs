//! Capture integration with the real collaborators: span-trace capture
//! through tracing-error and stack capture through backtrace.

use color_eyre::{Config, Report, SpanStatus, Theme, Verbosity};
use tracing_subscriber::layer::SubscriberExt;
use tracing_subscriber::util::SubscriberInitExt;

fn capturing_config() -> Config {
    Config {
        theme: Theme::Plain,
        verbosity: Verbosity::Minimal,
        panic_verbosity: Verbosity::Minimal,
        capture_backtrace: false,
        capture_span_trace: true,
    }
}

#[test]
fn capture_outside_any_span_reports_empty_and_renders_nothing() {
    // An error layer is installed, but no span is entered: the capture
    // must degrade to the empty status rather than fail.
    let _ = tracing_subscriber::registry()
        .with(tracing_error::ErrorLayer::default())
        .try_init();
    let cfg = capturing_config();
    let report = Report::msg(String::from("boom"), &cfg);
    let info = report.handler.span_trace.as_ref().expect("capture was requested");
    assert!(matches!(info.status, SpanStatus::Empty | SpanStatus::Captured));
    let text = report.render(&cfg, false);
    assert!(!text.contains("Warning: SpanTrace capture is Unsupported."));
}

#[test]
fn backtrace_capture_produces_text() {
    let mut cfg = capturing_config();
    cfg.capture_span_trace = false;
    cfg.capture_backtrace = true;
    let report = Report::msg(String::from("boom"), &cfg);
    let bt = report.handler.backtrace.as_ref().expect("capture was requested");
    // A real capture resolves at least one frame.
    assert!(!bt.is_empty());
    let text = report.render(&cfg, false);
    assert!(text.contains("COLORBT_SHOW_HIDDEN"));
}

#[test]
fn no_capture_flags_leave_the_store_empty() {
    let cfg = Config {
        theme: Theme::Plain,
        verbosity: Verbosity::Minimal,
        panic_verbosity: Verbosity::Minimal,
        capture_backtrace: false,
        capture_span_trace: false,
    };
    let report = Report::msg(String::from("boom"), &cfg);
    assert!(report.handler.backtrace.is_none());
    assert!(report.handler.span_trace.is_none());
}
