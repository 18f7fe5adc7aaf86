//! The header-gated writer and the small formatting helpers.

use color_eyre::fmt::LocationInfo;
use color_eyre::writers::WriterExt;

#[test]
fn header_appears_before_first_nonempty_write() {
    let mut w = String::new().header(String::from("Label:\n"));
    w.ready();
    w.write_str("payload");
    assert_eq!(w.into_inner(), "Label:\npayload");
}

#[test]
fn empty_writes_emit_nothing() {
    let mut w = String::new().header(String::from("Label:\n"));
    w.ready();
    w.write_str("");
    w.write_str("");
    assert_eq!(w.into_inner(), "");
}

#[test]
fn header_emitted_once_per_scope() {
    let mut w = String::new().header(String::from("H"));
    w.ready();
    w.write_str("a");
    w.write_str("b");
    assert_eq!(w.into_inner(), "Hab");
}

#[test]
fn ready_starts_a_fresh_scope() {
    let mut w = String::new().header(String::from("|"));
    w.ready();
    w.write_str("a");
    w.ready();
    w.write_str("b");
    assert_eq!(w.into_inner(), "|a|b");
}

#[test]
fn in_progress_suppresses_the_header() {
    let mut w = String::new().header(String::from("|"));
    w.in_progress();
    w.write_str("a");
    assert_eq!(w.into_inner(), "a");
}

#[test]
fn known_location_renders_file_and_line() {
    let loc = LocationInfo { file: String::from("src/app.rs"), line: 42 };
    assert_eq!(color_eyre::fmt::location_text(Some(&loc)), "src/app.rs:42");
}

#[test]
fn unknown_location_renders_placeholder() {
    assert_eq!(color_eyre::fmt::location_text(None), "<unknown>");
}
