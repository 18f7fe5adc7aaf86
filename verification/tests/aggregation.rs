//! The aggregation API: identity on success, laziness, append order.

use color_eyre::{AuxError, Config, Help, Report, SectionExt, Theme, Verbosity};

fn plain_config() -> Config {
    Config {
        theme: Theme::Plain,
        verbosity: Verbosity::Minimal,
        panic_verbosity: Verbosity::Minimal,
        capture_backtrace: false,
        capture_span_trace: false,
    }
}

fn render_of(r: Result<(), Report>) -> String {
    let cfg = plain_config();
    r.unwrap_err().render(&cfg, false)
}

#[test]
fn ok_passes_through_eager_ops() {
    let cfg = plain_config();
    let r: Result<i32, Report> = Ok(41);
    let r = r.note(String::from("n"));
    let r = r.warning(String::from("w"));
    let r = r.suggestion(String::from("s"));
    let r = r.section("Hdr:".body(String::from("b")));
    let r = r.error(AuxError { messages: vec![String::from("aux")] });
    assert_eq!(r.unwrap(), 41);
    // An untouched success renders nothing; only a failure carries a store.
    let untouched: Result<i32, Report> = Ok(41);
    assert!(untouched.is_ok());
    let _ = cfg;
}

#[test]
fn ok_never_runs_lazy_closures() {
    let mut calls = 0;
    let r: Result<i32, Report> = Ok(7);
    let r = r.with_note(|| {
        calls += 1;
        String::from("n")
    });
    let r = r.with_warning(|| {
        calls += 1;
        String::from("w")
    });
    let r = r.with_suggestion(|| {
        calls += 1;
        String::from("s")
    });
    let r = r.with_section(|| {
        calls += 1;
        "Hdr:".body(String::from("b"))
    });
    let r = r.with_error(|| {
        calls += 1;
        AuxError { messages: vec![String::from("aux")] }
    });
    assert_eq!(r.unwrap(), 7);
    assert_eq!(calls, 0);
}

#[test]
fn err_runs_lazy_closures_once() {
    let cfg = plain_config();
    let mut calls = 0;
    let r: Result<(), Report> = Err(Report::msg(String::from("boom"), &cfg));
    let r = r.with_note(|| {
        calls += 1;
        String::from("lazy note")
    });
    assert_eq!(calls, 1);
    let text = render_of(r);
    assert!(text.contains("Note: lazy note"));
}

#[test]
fn notes_render_in_insertion_order() {
    let cfg = plain_config();
    let r: Result<(), Report> = Err(Report::msg(String::from("boom"), &cfg));
    let r = r.note(String::from("a")).note(String::from("b"));
    let text = render_of(r);
    let pos_a = text.find("Note: a").expect("first note missing");
    let pos_b = text.find("Note: b").expect("second note missing");
    assert!(pos_a < pos_b);
}

#[test]
fn mixed_help_entries_keep_call_order() {
    let cfg = plain_config();
    let r: Result<(), Report> = Err(Report::msg(String::from("boom"), &cfg));
    let r = r
        .suggestion(String::from("s1"))
        .note(String::from("n1"))
        .warning(String::from("w1"));
    let text = render_of(r);
    let pos_s = text.find("Suggestion: s1").unwrap();
    let pos_n = text.find("Note: n1").unwrap();
    let pos_w = text.find("Warning: w1").unwrap();
    assert!(pos_s < pos_n && pos_n < pos_w);
    // Consecutive help entries are separated by a single newline.
    assert!(text.contains("Suggestion: s1\nNote: n1\nWarning: w1"));
}

#[test]
fn sections_render_in_insertion_order() {
    let cfg = plain_config();
    let r: Result<(), Report> = Err(Report::msg(String::from("boom"), &cfg));
    let r = r
        .section("First:".body(String::from("one")))
        .section("Second:".body(String::from("two")));
    let text = render_of(r);
    let p1 = text.find("First:").unwrap();
    let p2 = text.find("Second:").unwrap();
    assert!(p1 < p2);
}

#[test]
fn aux_error_renders_after_primary_chain() {
    let cfg = plain_config();
    let r: Result<(), Report> = Err(Report::msg(String::from("boom"), &cfg));
    let r = r.error(AuxError {
        messages: vec![String::from("first aux"), String::from("its cause")],
    });
    let text = render_of(r);
    assert!(text.starts_with("boom"));
    assert!(text.contains("\n\nError:\n   0: first aux\n   1: its cause"));
}

#[test]
fn with_error_keeps_chain_order() {
    let cfg = plain_config();
    let r: Result<(), Report> = Err(Report::msg(String::from("boom"), &cfg));
    let r = r
        .with_error(|| AuxError { messages: vec![String::from("e1")] })
        .with_error(|| AuxError { messages: vec![String::from("e2")] });
    let text = render_of(r);
    let p1 = text.find("0: e1").unwrap();
    let p2 = text.find("0: e2").unwrap();
    assert!(p1 < p2);
}

#[test]
fn cause_numbers_reach_two_digits() {
    let cfg = plain_config();
    let mut messages = vec![String::from("top")];
    for i in 0..11 {
        messages.push(format!("cause {}", i));
    }
    let report = Report::from_chain(messages, &cfg);
    let text = report.render(&cfg, false);
    assert!(text.contains("\n   9: cause 9"));
    assert!(text.contains("\n   10: cause 10"));
}

#[test]
fn caused_by_lists_causes_in_order() {
    let cfg = plain_config();
    let messages = vec![
        String::from("top"),
        String::from("middle"),
        String::from("root"),
    ];
    let report = Report::from_chain(messages, &cfg);
    let text = report.render(&cfg, false);
    assert!(text.starts_with("top\n\nCaused by:\n   0: middle\n   1: root"));
}
