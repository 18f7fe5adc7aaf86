//! Structured context extraction: turn a process invocation's command
//! line, exit status or captured output into custom sections on a report.
//! The process types themselves are represented by plain-value mirrors, so
//! the extraction rules are verified; the embedding program fills the
//! mirrors from whatever process API it uses.

use vstd::prelude::*;
use crate::Report;
use crate::section::{SectionView, Placement, SectionExt};
use crate::text::{dec_int, dec_i64};

verus! {

/// What the extractors read of a process exit status. `success` mirrors
/// the platform's notion of success; a present `code` takes priority over
/// a present `signal`.
#[derive(Clone, Copy, Debug)]
pub struct ExitStatusInfo {
    /// Whether the process terminated successfully.
    pub success: bool,
    /// The numeric exit code, when the platform reported one.
    pub code: Option<i32>,
    /// The terminating signal, on platforms that expose one.
    pub signal: Option<i32>,
}

/// The canonical textual form of a process command line.
#[derive(Clone, Debug)]
pub struct CommandInfo {
    /// The command's rendering, as the platform's process API displays it.
    pub line: String,
}

/// What the extractors read of a finished process: its exit status and
/// the raw bytes of the two captured streams.
#[derive(Clone, Debug)]
pub struct OutputInfo {
    /// The exit status of the process.
    pub status: ExitStatusInfo,
    /// The captured standard output bytes.
    pub stdout: Vec<u8>,
    /// The captured standard error bytes.
    pub stderr: Vec<u8>,
}

/// The characters `String::from_utf8_lossy` decodes `bytes` to.
pub uninterp spec fn utf8_lossy_of(bytes: Seq<u8>) -> Seq<char>;

/// Relies on `String::from_utf8_lossy`: decodes bytes permissively and
/// never fails; its documentation states that valid UTF-8 (so in
/// particular pure ASCII) is decoded unchanged.
#[verifier::external_body]
pub(crate) fn utf8_lossy(bytes: &Vec<u8>) -> (r: String)
    ensures
        r@ == utf8_lossy_of(bytes@),
        (forall|i: int| 0 <= i < bytes@.len() ==> bytes@[i] < 128) ==> r@ == bytes@.map_values(
            |b: u8| b as char,
        ),
{
    String::from_utf8_lossy(bytes.as_slice()).into_owned()
}

/// The body of the exit-status section: exactly one of the three forms,
/// the code-present form taking priority over the signal form.
pub open spec fn exit_status_text(st: ExitStatusInfo) -> Seq<char> {
    let how = if st.success {
        "successfully"@
    } else {
        "unsuccessfully"@
    };
    match st.code {
        Option::Some(c) => "command exited "@ + how + " with status code "@ + dec_int(c as int),
        Option::None => match st.signal {
            Option::Some(s) => "command terminated "@ + how + " by signal "@ + dec_int(s as int),
            Option::None => "command exited "@ + how + " without a status code or signal"@,
        },
    }
}

/// The section view the exit-status extractor appends.
pub open spec fn exit_status_section_view(st: ExitStatusInfo) -> SectionView {
    SectionView {
        header: "Exit Status:"@,
        body: Option::Some(exit_status_text(st)),
        placement: Placement::AfterPrimaryMessages,
    }
}

/// Build the exit-status section for `status`.
pub fn exit_status_section(status: &ExitStatusInfo) -> (s: crate::section::Section)
    ensures
        s@ == exit_status_section_view(*status),
{
    let how: &str = if status.success {
        "successfully"
    } else {
        "unsuccessfully"
    };
    let mut body: String;
    match status.code {
        Option::Some(code) => {
            body = "command exited ".to_owned();
            body.append(how);
            body.append(" with status code ");
            let d = dec_i64(code as i64);
            body.append(d.as_str());
        },
        Option::None => {
            match status.signal {
                Option::Some(sig) => {
                    body = "command terminated ".to_owned();
                    body.append(how);
                    body.append(" by signal ");
                    let d = dec_i64(sig as i64);
                    body.append(d.as_str());
                },
                Option::None => {
                    body = "command exited ".to_owned();
                    body.append(how);
                    body.append(" without a status code or signal");
                },
            }
        },
    }
    proof {
        assert(body@ =~= exit_status_text(*status));
    }
    "Exit Status:".body(body)
}

/// Insert context gathered from a source value into an error report.
pub trait ContextFrom<S>: Sized {
    /// The return type of the `context_from` combinator.
    type Return;

    /// How the result relates to the receiver and the source.
    spec fn context_from_post(self, source: S, r: Self::Return) -> bool;

    /// Insert context from `source` into `self`.
    fn context_from(self, source: S) -> (r: Self::Return)
        ensures
            self.context_from_post(source, r),
    ;
}

impl ContextFrom<&ExitStatusInfo> for Report {
    type Return = Report;

    /// One section is appended: header `Exit Status:`, body the
    /// exit-status text.
    open spec fn context_from_post(self, source: &ExitStatusInfo, r: Report) -> bool {
        r@ == self@.with_section(exit_status_section_view(*source))
    }

    fn context_from(self, source: &ExitStatusInfo) -> (r: Report) {
        let sec = exit_status_section(source);
        self.section(sec)
    }
}

impl ContextFrom<&CommandInfo> for Report {
    type Return = Report;

    /// One section is appended: header `Command:`, body the command's
    /// canonical textual form.
    open spec fn context_from_post(self, source: &CommandInfo, r: Report) -> bool {
        r@ == self@.with_section(
            SectionView {
                header: "Command:"@,
                body: Option::Some(source.line@),
                placement: Placement::AfterPrimaryMessages,
            },
        )
    }

    fn context_from(self, source: &CommandInfo) -> (r: Report) {
        let sec = "Command:".body(source.line.clone());
        self.section(sec)
    }
}

impl ContextFrom<&OutputInfo> for Report {
    type Return = Report;

    /// The exit-status section is appended first, then a `Stdout:` and a
    /// `Stderr:` section with the streams decoded permissively. Both are
    /// appended even when empty; the renderer hides a section whose body
    /// trims to nothing.
    open spec fn context_from_post(self, source: &OutputInfo, r: Report) -> bool {
        r@ == self@.with_section(exit_status_section_view(source.status)).with_section(
            SectionView {
                header: "Stdout:"@,
                body: Option::Some(utf8_lossy_of(source.stdout@)),
                placement: Placement::AfterPrimaryMessages,
            },
        ).with_section(
            SectionView {
                header: "Stderr:"@,
                body: Option::Some(utf8_lossy_of(source.stderr@)),
                placement: Placement::AfterPrimaryMessages,
            },
        )
    }

    fn context_from(self, source: &OutputInfo) -> (r: Report) {
        let r = self.context_from(&source.status);
        let out_sec = "Stdout:".body(utf8_lossy(&source.stdout));
        let r = r.section(out_sec);
        let err_sec = "Stderr:".body(utf8_lossy(&source.stderr));
        r.section(err_sec)
    }
}

impl<T> ContextFrom<&ExitStatusInfo> for Result<T, Report> {
    type Return = Result<T, Report>;

    /// A success passes through unchanged; a failure gains the
    /// exit-status section.
    open spec fn context_from_post(self, source: &ExitStatusInfo, r: Self::Return) -> bool {
        &&& self matches Ok(v) ==> r == Result::<T, Report>::Ok(v)
        &&& self matches Err(e) ==> r matches Err(e2) && e.context_from_post(source, e2)
    }

    fn context_from(self, source: &ExitStatusInfo) -> (r: Self::Return) {
        match self {
            Result::Ok(v) => Result::Ok(v),
            Result::Err(e) => Result::Err(e.context_from(source)),
        }
    }
}

impl<T> ContextFrom<&CommandInfo> for Result<T, Report> {
    type Return = Result<T, Report>;

    /// A success passes through unchanged; a failure gains the command
    /// section.
    open spec fn context_from_post(self, source: &CommandInfo, r: Self::Return) -> bool {
        &&& self matches Ok(v) ==> r == Result::<T, Report>::Ok(v)
        &&& self matches Err(e) ==> r matches Err(e2) && e.context_from_post(source, e2)
    }

    fn context_from(self, source: &CommandInfo) -> (r: Self::Return) {
        match self {
            Result::Ok(v) => Result::Ok(v),
            Result::Err(e) => Result::Err(e.context_from(source)),
        }
    }
}

impl<T> ContextFrom<&OutputInfo> for Result<T, Report> {
    type Return = Result<T, Report>;

    /// A success passes through unchanged; a failure gains the status,
    /// stdout and stderr sections.
    open spec fn context_from_post(self, source: &OutputInfo, r: Self::Return) -> bool {
        &&& self matches Ok(v) ==> r == Result::<T, Report>::Ok(v)
        &&& self matches Err(e) ==> r matches Err(e2) && e.context_from_post(source, e2)
    }

    fn context_from(self, source: &OutputInfo) -> (r: Self::Return) {
        match self {
            Result::Ok(v) => Result::Ok(v),
            Result::Err(e) => Result::Err(e.context_from(source)),
        }
    }
}

} // verus!
