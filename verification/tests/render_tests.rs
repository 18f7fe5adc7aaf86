//! The renderer: suppression, empty-body gating, determinism, the
//! end-to-end layout, verbosity gating, theming, and the diagnostics
//! variants.

use color_eyre::{
    Config, Handler, Help, Report, SectionExt, SpanStatus, SpanTraceInfo, Theme, Verbosity,
};

fn plain_config() -> Config {
    Config {
        theme: Theme::Plain,
        verbosity: Verbosity::Minimal,
        panic_verbosity: Verbosity::Minimal,
        capture_backtrace: false,
        capture_span_trace: false,
    }
}

fn base_report(cfg: &Config) -> Report {
    Report::msg(String::from("boom"), cfg)
}

#[test]
fn skip_if_true_contributes_zero_bytes() {
    let cfg = plain_config();
    let without = base_report(&cfg).render(&cfg, false);
    let r: Result<(), Report> = Err(base_report(&cfg));
    let r = r.section("Hidden:".skip_if(|| true).body(String::from("secret")));
    let with = r.unwrap_err().render(&cfg, false);
    assert_eq!(without, with);
}

#[test]
fn skip_if_false_renders_like_plain_section() {
    let cfg = plain_config();
    let r1: Result<(), Report> = Err(base_report(&cfg));
    let plain = r1
        .section("Extra:".body(String::from("details")))
        .unwrap_err()
        .render(&cfg, false);
    let r2: Result<(), Report> = Err(base_report(&cfg));
    let skipped_false = r2
        .section("Extra:".skip_if(|| false).body(String::from("details")))
        .unwrap_err()
        .render(&cfg, false);
    assert_eq!(plain, skipped_false);
}

#[test]
fn empty_body_suppresses_header() {
    let cfg = plain_config();
    let without = base_report(&cfg).render(&cfg, false);
    let r: Result<(), Report> = Err(base_report(&cfg));
    let with_empty = r
        .section("Stdout:".body(String::new()))
        .unwrap_err()
        .render(&cfg, false);
    assert_eq!(without, with_empty);
}

#[test]
fn whitespace_only_body_suppresses_header() {
    let cfg = plain_config();
    let without = base_report(&cfg).render(&cfg, false);
    let r: Result<(), Report> = Err(base_report(&cfg));
    let with_ws = r
        .section("Stdout:".body(String::from(" \t\n")))
        .unwrap_err()
        .render(&cfg, false);
    assert_eq!(without, with_ws);
}

#[test]
fn nonempty_body_prints_header_once_before_body() {
    let cfg = plain_config();
    let r: Result<(), Report> = Err(base_report(&cfg));
    let text = r
        .section("Extra:".body(String::from("line one\nline two\n")))
        .unwrap_err()
        .render(&cfg, false);
    assert!(text.contains("\n\nExtra:\n   line one\n   line two"));
    assert_eq!(text.matches("Extra:").count(), 1);
    // The trailing newline of the body is trimmed away.
    assert!(!text.contains("line two\n   \n"));
}

#[test]
fn rendering_twice_is_byte_identical() {
    let cfg = plain_config();
    let r: Result<(), Report> = Err(base_report(&cfg));
    let report = r
        .note(String::from("n1"))
        .section("Extra:".body(String::from("details")))
        .unwrap_err();
    let first = report.render(&cfg, false);
    let second = report.render(&cfg, false);
    assert_eq!(first, second);
}

#[test]
fn end_to_end_scenario_layout() {
    let cfg = plain_config();
    let r: Result<(), Report> = Err(base_report(&cfg));
    let text = r
        .section("Extra:".body(String::from("details")))
        .note(String::from("n1"))
        .warning(String::from("w1"))
        .suggestion(String::from("s1"))
        .unwrap_err()
        .render(&cfg, false);
    let expected = "boom\
                    \n\nExtra:\n   details\
                    \n\nNote: n1\nWarning: w1\nSuggestion: s1\
                    \n\nBacktrace omitted.\
                    \nRun with RUST_BACKTRACE=1 environment variable to display it.\
                    \nRun with RUST_BACKTRACE=full to include source snippets.";
    assert_eq!(text, expected);
}

#[test]
fn minimal_verbosity_shows_snippet_hint() {
    let cfg = plain_config();
    let text = base_report(&cfg).render(&cfg, false);
    assert!(text.contains("Run with RUST_BACKTRACE=full to include source snippets."));
}

#[test]
fn short_verbosity_shows_snippet_hint() {
    let mut cfg = plain_config();
    cfg.verbosity = Verbosity::Short;
    let text = base_report(&cfg).render(&cfg, false);
    assert!(text.contains("Run with RUST_BACKTRACE=full to include source snippets."));
}

#[test]
fn full_verbosity_omits_snippet_hint() {
    let mut cfg = plain_config();
    cfg.verbosity = Verbosity::Full;
    let text = base_report(&cfg).render(&cfg, false);
    assert!(!text.contains("Run with RUST_BACKTRACE=full to include source snippets."));
}

#[test]
fn panic_verbosity_branch_selects_other_level() {
    let mut cfg = plain_config();
    cfg.verbosity = Verbosity::Full;
    cfg.panic_verbosity = Verbosity::Minimal;
    let report = base_report(&cfg);
    let normal = report.render(&cfg, false);
    let panicking = report.render(&cfg, true);
    assert!(!normal.contains("Run with RUST_BACKTRACE=full to include source snippets."));
    assert!(panicking.contains("Run with RUST_BACKTRACE=full to include source snippets."));
}

#[test]
fn colored_labels_use_ansi_term_codes() {
    let mut cfg = plain_config();
    cfg.theme = Theme::Colored;
    let r: Result<(), Report> = Err(base_report(&cfg));
    let text = r
        .note(String::from("n1"))
        .warning(String::from("w1"))
        .unwrap_err()
        .render(&cfg, false);
    let cyan_note = format!("{}", ansi_term::Colour::Cyan.paint("Note"));
    let yellow_warning = format!("{}", ansi_term::Colour::Yellow.paint("Warning"));
    assert!(text.contains(&format!("{}: n1", cyan_note)));
    assert!(text.contains(&format!("{}: w1", yellow_warning)));
    assert!(text.contains("\u{1b}[36mNote\u{1b}[0m: n1"));
    assert!(text.contains("\u{1b}[33mWarning\u{1b}[0m: w1"));
}

#[test]
fn missing_backtrace_prints_capture_hint() {
    let cfg = plain_config();
    let text = base_report(&cfg).render(&cfg, false);
    assert!(text.contains(
        "Backtrace omitted.\nRun with RUST_BACKTRACE=1 environment variable to display it."
    ));
    assert!(!text.contains("COLORBT_SHOW_HIDDEN"));
}

#[test]
fn captured_backtrace_prints_filter_hint() {
    let mut cfg = plain_config();
    cfg.capture_backtrace = true;
    let text = base_report(&cfg).render(&cfg, false);
    assert!(text.contains(
        "Run with COLORBT_SHOW_HIDDEN=1 environment variable to disable frame filtering."
    ));
    assert!(!text.contains("Backtrace omitted."));
}

#[test]
fn injected_backtrace_text_appears_verbatim() {
    let cfg = plain_config();
    let handler = Handler::new(Some(String::from("frame one\nframe two")), None);
    let report = Report::from_parts(vec![String::from("boom")], handler);
    let text = report.render(&cfg, false);
    assert!(text.contains("\n\nframe one\nframe two\nRun with COLORBT_SHOW_HIDDEN=1"));
}

#[test]
fn captured_span_trace_renders_indented_under_label() {
    let cfg = plain_config();
    let info = SpanTraceInfo {
        status: SpanStatus::Captured,
        text: String::from("0: app::run\n1: app::main\n"),
    };
    let handler = Handler::new(None, Some(info));
    let report = Report::from_parts(vec![String::from("boom")], handler);
    let text = report.render(&cfg, false);
    assert!(text.contains("\n\nSpan Trace:\n  0: app::run\n  1: app::main"));
}

#[test]
fn empty_span_trace_text_renders_nothing() {
    let cfg = plain_config();
    let info = SpanTraceInfo { status: SpanStatus::Captured, text: String::new() };
    let handler = Handler::new(None, Some(info));
    let report = Report::from_parts(vec![String::from("boom")], handler);
    let with = report.render(&cfg, false);
    let without = base_report(&cfg).render(&cfg, false);
    assert_eq!(with, without);
}

#[test]
fn unsupported_span_capture_prints_warning() {
    let cfg = plain_config();
    let info = SpanTraceInfo { status: SpanStatus::Unsupported, text: String::new() };
    let handler = Handler::new(None, Some(info));
    let report = Report::from_parts(vec![String::from("boom")], handler);
    let text = report.render(&cfg, false);
    assert!(text.contains(
        "Warning: SpanTrace capture is Unsupported.\nEnsure that you've setup an error layer and the versions match"
    ));
    // The warning follows the preceding hint after exactly one newline.
    assert!(text.contains(
        "Run with RUST_BACKTRACE=full to include source snippets.\nWarning: SpanTrace capture is Unsupported."
    ));
}

#[test]
fn after_diagnostics_section_renders_last() {
    let cfg = plain_config();
    let mut section = color_eyre::Section::from(String::from("Trailer:"));
    section.body = Some(String::from("the very end"));
    section.placement = color_eyre::Placement::AfterDiagnostics;
    let r: Result<(), Report> = Err(base_report(&cfg));
    let text = r.section(section).unwrap_err().render(&cfg, false);
    assert!(text.ends_with("\n\nTrailer:\n   the very end"));
    let hint_pos = text.find("RUST_BACKTRACE=full").unwrap();
    let trailer_pos = text.find("Trailer:").unwrap();
    assert!(hint_pos < trailer_pos);
}

#[test]
fn header_only_section_renders_header_text() {
    let cfg = plain_config();
    let r: Result<(), Report> = Err(base_report(&cfg));
    let text = r
        .section(color_eyre::Section::from(String::from(
            "Please report bugs upstream",
        )))
        .unwrap_err()
        .render(&cfg, false);
    assert!(text.contains("\n\nPlease report bugs upstream\n\n"));
}
