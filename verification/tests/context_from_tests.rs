//! The structured extractors: exit status, command line and process
//! output, including permissive stream decoding.

use color_eyre::context_from::{CommandInfo, ExitStatusInfo, OutputInfo};
use color_eyre::{Config, ContextFrom, Report, Theme, Verbosity};

fn plain_config() -> Config {
    Config {
        theme: Theme::Plain,
        verbosity: Verbosity::Minimal,
        panic_verbosity: Verbosity::Minimal,
        capture_backtrace: false,
        capture_span_trace: false,
    }
}

fn rendered_with_status(status: ExitStatusInfo) -> String {
    let cfg = plain_config();
    let r: Result<(), Report> = Err(Report::msg(String::from("boom"), &cfg));
    let r = r.context_from(&status);
    r.unwrap_err().render(&cfg, false)
}

#[test]
fn successful_status_with_code_zero() {
    let status = ExitStatusInfo { success: true, code: Some(0), signal: None };
    let text = rendered_with_status(status);
    assert!(text.contains("\n\nExit Status:\n   command exited successfully with status code 0"));
}

#[test]
fn failing_status_with_code_two() {
    let status = ExitStatusInfo { success: false, code: Some(2), signal: None };
    let text = rendered_with_status(status);
    assert!(
        text.contains("\n\nExit Status:\n   command exited unsuccessfully with status code 2")
    );
}

#[test]
fn negative_code_keeps_its_sign() {
    let status = ExitStatusInfo { success: false, code: Some(-3), signal: None };
    let text = rendered_with_status(status);
    assert!(text.contains("command exited unsuccessfully with status code -3"));
}

#[test]
fn code_takes_priority_over_signal() {
    let status = ExitStatusInfo { success: false, code: Some(1), signal: Some(9) };
    let text = rendered_with_status(status);
    assert!(text.contains("command exited unsuccessfully with status code 1"));
    assert!(!text.contains("by signal"));
}

#[test]
fn signal_form_when_no_code() {
    let status = ExitStatusInfo { success: false, code: None, signal: Some(9) };
    let text = rendered_with_status(status);
    assert!(text.contains("command terminated unsuccessfully by signal 9"));
}

#[test]
fn fallback_form_without_code_or_signal() {
    let status = ExitStatusInfo { success: false, code: None, signal: None };
    let text = rendered_with_status(status);
    assert!(text.contains("command exited unsuccessfully without a status code or signal"));
}

#[test]
fn command_section_holds_command_line() {
    let cfg = plain_config();
    let command = CommandInfo { line: String::from("\"ls\" \"-la\"") };
    let r: Result<(), Report> = Err(Report::msg(String::from("boom"), &cfg));
    let text = r.context_from(&command).unwrap_err().render(&cfg, false);
    assert!(text.contains("\n\nCommand:\n   \"ls\" \"-la\""));
}

#[test]
fn output_appends_status_stdout_and_stderr_in_order() {
    let cfg = plain_config();
    let output = OutputInfo {
        status: ExitStatusInfo { success: false, code: Some(2), signal: None },
        stdout: b"partial result".to_vec(),
        stderr: b"cannot open file".to_vec(),
    };
    let r: Result<(), Report> = Err(Report::msg(String::from("boom"), &cfg));
    let text = r.context_from(&output).unwrap_err().render(&cfg, false);
    let p_status = text.find("Exit Status:").unwrap();
    let p_out = text.find("Stdout:\n   partial result").unwrap();
    let p_err = text.find("Stderr:\n   cannot open file").unwrap();
    assert!(p_status < p_out && p_out < p_err);
}

#[test]
fn empty_streams_render_no_stream_sections() {
    let cfg = plain_config();
    let output = OutputInfo {
        status: ExitStatusInfo { success: true, code: Some(0), signal: None },
        stdout: Vec::new(),
        stderr: Vec::new(),
    };
    let r: Result<(), Report> = Err(Report::msg(String::from("boom"), &cfg));
    let text = r.context_from(&output).unwrap_err().render(&cfg, false);
    assert!(!text.contains("Stdout:"));
    assert!(!text.contains("Stderr:"));
    assert!(text.contains("Exit Status:"));
}

#[test]
fn invalid_bytes_decode_to_replacement_character() {
    let cfg = plain_config();
    let output = OutputInfo {
        status: ExitStatusInfo { success: false, code: Some(1), signal: None },
        stdout: vec![0x68, 0x69, 0xFF],
        stderr: Vec::new(),
    };
    let r: Result<(), Report> = Err(Report::msg(String::from("boom"), &cfg));
    let text = r.context_from(&output).unwrap_err().render(&cfg, false);
    assert!(text.contains(&format!("Stdout:\n   hi{}", '\u{FFFD}')));
}

#[test]
fn ok_passes_through_context_from() {
    let status = ExitStatusInfo { success: true, code: Some(0), signal: None };
    let r: Result<u8, Report> = Ok(3);
    let r = r.context_from(&status);
    assert_eq!(r.unwrap(), 3);
}
