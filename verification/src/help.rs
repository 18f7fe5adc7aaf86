//! Pre-configured help entries (notes, warnings, suggestions) and the
//! [`Help`] aggregation trait: the only way a caller attaches context to a
//! failure. Every operation is a no-op on a success value and appends to
//! the failure's context store on the error path; the lazy variants take a
//! closure that is only run on the error path.

use vstd::prelude::*;
use crate::{Report, Theme};
use crate::section::Section;
use crate::text::dec_int;

verus! {

/// A pre-configured help entry: one of three kinds, each wrapping a
/// pre-rendered payload, rendered as a labeled single block after all
/// custom sections.
#[derive(Clone, Debug)]
pub enum HelpInfo {
    /// Rendered with a `Note:` label.
    Note(String),
    /// Rendered with a `Warning:` label.
    Warning(String),
    /// Rendered with a `Suggestion:` label.
    Suggestion(String),
}

/// The mathematical value of a [`HelpInfo`].
pub enum HelpInfoView {
    Note(Seq<char>),
    Warning(Seq<char>),
    Suggestion(Seq<char>),
}

impl View for HelpInfo {
    type V = HelpInfoView;

    open spec fn view(&self) -> HelpInfoView {
        match self {
            HelpInfo::Note(p) => HelpInfoView::Note(p@),
            HelpInfo::Warning(p) => HelpInfoView::Warning(p@),
            HelpInfo::Suggestion(p) => HelpInfoView::Suggestion(p@),
        }
    }
}

/// The exact text `ansi_term` produces when a plain foreground colour
/// paints `s`: the escape prefix with the decimal colour code, the text,
/// then the reset suffix.
pub open spec fn ansi_painted(code: int, s: Seq<char>) -> Seq<char> {
    seq!['\u{1b}', '['] + dec_int(code) + seq!['m'] + s + seq!['\u{1b}', '[', '0', 'm']
}

/// Relies on `ansi_term::Colour::paint` and the `Display` of the painted
/// string: for a plain foreground colour (here yellow, code 33, or cyan,
/// code 36) the output is `ESC [ <code> m`, the text, then the reset code
/// `ESC [ 0 m`. The body only picks the colour the code stands for.
#[verifier::external_body]
fn paint(code: u8, text: &str) -> (r: String)
    requires
        code == 33 || code == 36,
    ensures
        r@ == ansi_painted(code as int, text@),
{
    let colour = if code == 33 {
        ansi_term::Colour::Yellow
    } else {
        ansi_term::Colour::Cyan
    };
    colour.paint(text).to_string()
}

/// The label name of a help entry.
pub open spec fn help_label_name(h: HelpInfoView) -> Seq<char> {
    match h {
        HelpInfoView::Note(_) => "Note"@,
        HelpInfoView::Warning(_) => "Warning"@,
        HelpInfoView::Suggestion(_) => "Suggestion"@,
    }
}

/// The colour code of a help entry's label: notes and suggestions are
/// cyan, warnings yellow.
pub open spec fn help_label_code(h: HelpInfoView) -> int {
    match h {
        HelpInfoView::Note(_) => 36,
        HelpInfoView::Warning(_) => 33,
        HelpInfoView::Suggestion(_) => 36,
    }
}

/// The payload of a help entry.
pub open spec fn help_payload(h: HelpInfoView) -> Seq<char> {
    match h {
        HelpInfoView::Note(p) => p,
        HelpInfoView::Warning(p) => p,
        HelpInfoView::Suggestion(p) => p,
    }
}

/// The line a help entry renders as: its label (colored under the colored
/// theme), a colon and a space, then the payload.
pub open spec fn help_entry_spec(h: HelpInfoView, theme: Theme) -> Seq<char> {
    let label = if theme == Theme::Colored {
        ansi_painted(help_label_code(h), help_label_name(h))
    } else {
        help_label_name(h)
    };
    label + ": "@ + help_payload(h)
}

/// Render one help entry.
pub fn help_entry_text(h: &HelpInfo, theme: Theme) -> (out: String)
    ensures
        out@ == help_entry_spec(h@, theme),
{
    let name: &str = match h {
        HelpInfo::Note(_) => "Note",
        HelpInfo::Warning(_) => "Warning",
        HelpInfo::Suggestion(_) => "Suggestion",
    };
    let code: u8 = match h {
        HelpInfo::Note(_) => 36,
        HelpInfo::Warning(_) => 33,
        HelpInfo::Suggestion(_) => 36,
    };
    let mut out: String = match theme {
        Theme::Colored => paint(code, name),
        Theme::Plain => name.to_owned(),
    };
    out.append(": ");
    let payload: &String = match h {
        HelpInfo::Note(p) => p,
        HelpInfo::Warning(p) => p,
        HelpInfo::Suggestion(p) => p,
    };
    out.append(payload.as_str());
    out
}

/// Supertrait that closes [`Help`] over the result shapes this crate
/// defines it for.
pub trait Sealed {}

impl<T> Sealed for core::result::Result<T, Report> {}

/// The aggregation surface: attach sections, help entries and auxiliary
/// errors to the failure inside a `Result`. On `Ok` every operation is the
/// identity and, in the lazy variants, the closure is never run; on `Err`
/// the context store of the report gains one entry and the same failure is
/// returned.
pub trait Help<T>: Sealed + Sized {
    /// The success value, when this is a success.
    spec fn spec_ok(self) -> Option<T>;

    /// The failure's report, when this is a failure.
    spec fn spec_err(self) -> Option<Report>;

    /// Append a custom section on the error path. A suppressed section is
    /// dropped, leaving the report exactly as it was.
    fn section(self, section: Section) -> (r: Result<T, Report>)
        ensures
            self.spec_ok() matches Some(v) ==> r == Result::<T, Report>::Ok(v),
            self.spec_err() matches Some(e) ==> r matches Err(e2) && e2@ == e@.with_section(
                section@,
            ),
    ;

    /// Append a custom section built only on the error path.
    fn with_section<F: FnOnce() -> Section>(self, section: F) -> (r: Result<T, Report>)
        requires
            self.spec_err() is Some ==> call_requires(section, ()),
        ensures
            self.spec_ok() matches Some(v) ==> r == Result::<T, Report>::Ok(v),
            self.spec_err() matches Some(e) ==> r matches Err(e2) && exists|sec: Section|
                #[trigger] call_ensures(section, (), sec) && e2@ == e@.with_section(sec@),
    ;

    /// Append a note on the error path.
    fn note(self, context: String) -> (r: Result<T, Report>)
        ensures
            self.spec_ok() matches Some(v) ==> r == Result::<T, Report>::Ok(v),
            self.spec_err() matches Some(e) ==> r matches Err(e2) && e2@ == e@.with_help(
                HelpInfoView::Note(context@),
            ),
    ;

    /// Append a note built only on the error path.
    fn with_note<F: FnOnce() -> String>(self, f: F) -> (r: Result<T, Report>)
        requires
            self.spec_err() is Some ==> call_requires(f, ()),
        ensures
            self.spec_ok() matches Some(v) ==> r == Result::<T, Report>::Ok(v),
            self.spec_err() matches Some(e) ==> r matches Err(e2) && exists|p: String|
                #[trigger] call_ensures(f, (), p) && e2@ == e@.with_help(HelpInfoView::Note(p@)),
    ;

    /// Append a warning on the error path.
    fn warning(self, context: String) -> (r: Result<T, Report>)
        ensures
            self.spec_ok() matches Some(v) ==> r == Result::<T, Report>::Ok(v),
            self.spec_err() matches Some(e) ==> r matches Err(e2) && e2@ == e@.with_help(
                HelpInfoView::Warning(context@),
            ),
    ;

    /// Append a warning built only on the error path.
    fn with_warning<F: FnOnce() -> String>(self, f: F) -> (r: Result<T, Report>)
        requires
            self.spec_err() is Some ==> call_requires(f, ()),
        ensures
            self.spec_ok() matches Some(v) ==> r == Result::<T, Report>::Ok(v),
            self.spec_err() matches Some(e) ==> r matches Err(e2) && exists|p: String|
                #[trigger] call_ensures(f, (), p) && e2@ == e@.with_help(
                    HelpInfoView::Warning(p@),
                ),
    ;

    /// Append a suggestion on the error path.
    fn suggestion(self, context: String) -> (r: Result<T, Report>)
        ensures
            self.spec_ok() matches Some(v) ==> r == Result::<T, Report>::Ok(v),
            self.spec_err() matches Some(e) ==> r matches Err(e2) && e2@ == e@.with_help(
                HelpInfoView::Suggestion(context@),
            ),
    ;

    /// Append a suggestion built only on the error path.
    fn with_suggestion<F: FnOnce() -> String>(self, f: F) -> (r: Result<T, Report>)
        requires
            self.spec_err() is Some ==> call_requires(f, ()),
        ensures
            self.spec_ok() matches Some(v) ==> r == Result::<T, Report>::Ok(v),
            self.spec_err() matches Some(e) ==> r matches Err(e2) && exists|p: String|
                #[trigger] call_ensures(f, (), p) && e2@ == e@.with_help(
                    HelpInfoView::Suggestion(p@),
                ),
    ;

    /// Append an auxiliary error chain on the error path; it renders right
    /// after the primary messages, keeping its own cause chain.
    fn error(self, error: crate::AuxError) -> (r: Result<T, Report>)
        ensures
            self.spec_ok() matches Some(v) ==> r == Result::<T, Report>::Ok(v),
            self.spec_err() matches Some(e) ==> r matches Err(e2) && e2@ == e@.with_aux_error(
                error@,
            ),
    ;

    /// Append an auxiliary error chain built only on the error path.
    fn with_error<F: FnOnce() -> crate::AuxError>(self, f: F) -> (r: Result<T, Report>)
        requires
            self.spec_err() is Some ==> call_requires(f, ()),
        ensures
            self.spec_ok() matches Some(v) ==> r == Result::<T, Report>::Ok(v),
            self.spec_err() matches Some(e) ==> r matches Err(e2) && exists|a: crate::AuxError|
                #[trigger] call_ensures(f, (), a) && e2@ == e@.with_aux_error(a@),
    ;
}

impl<T> Help<T> for Result<T, Report> {
    open spec fn spec_ok(self) -> Option<T> {
        match self {
            Result::Ok(v) => Option::Some(v),
            Result::Err(_) => Option::None,
        }
    }

    open spec fn spec_err(self) -> Option<Report> {
        match self {
            Result::Ok(_) => Option::None,
            Result::Err(e) => Option::Some(e),
        }
    }

    fn section(self, section: Section) -> (r: Result<T, Report>) {
        match self {
            Result::Ok(v) => Result::Ok(v),
            Result::Err(e) => Result::Err(e.section(section)),
        }
    }

    fn with_section<F: FnOnce() -> Section>(self, section: F) -> (r: Result<T, Report>) {
        match self {
            Result::Ok(v) => Result::Ok(v),
            Result::Err(e) => {
                let sec = section();
                Result::Err(e.section(sec))
            },
        }
    }

    fn note(self, context: String) -> (r: Result<T, Report>) {
        match self {
            Result::Ok(v) => Result::Ok(v),
            Result::Err(mut e) => {
                let ghost e0 = e;
                let ghost cv = context@;
                e.handler.help_entries.push(HelpInfo::Note(context));
                proof {
                    assert(e@ =~~= e0@.with_help(HelpInfoView::Note(cv)));
                }
                Result::Err(e)
            },
        }
    }

    fn with_note<F: FnOnce() -> String>(self, f: F) -> (r: Result<T, Report>) {
        match self {
            Result::Ok(v) => Result::Ok(v),
            Result::Err(mut e) => {
                let ghost e0 = e;
                let p = f();
                let ghost pv = p@;
                e.handler.help_entries.push(HelpInfo::Note(p));
                proof {
                    assert(e@ =~~= e0@.with_help(HelpInfoView::Note(pv)));
                }
                Result::Err(e)
            },
        }
    }

    fn warning(self, context: String) -> (r: Result<T, Report>) {
        match self {
            Result::Ok(v) => Result::Ok(v),
            Result::Err(mut e) => {
                let ghost e0 = e;
                let ghost cv = context@;
                e.handler.help_entries.push(HelpInfo::Warning(context));
                proof {
                    assert(e@ =~~= e0@.with_help(HelpInfoView::Warning(cv)));
                }
                Result::Err(e)
            },
        }
    }

    fn with_warning<F: FnOnce() -> String>(self, f: F) -> (r: Result<T, Report>) {
        match self {
            Result::Ok(v) => Result::Ok(v),
            Result::Err(mut e) => {
                let ghost e0 = e;
                let p = f();
                let ghost pv = p@;
                e.handler.help_entries.push(HelpInfo::Warning(p));
                proof {
                    assert(e@ =~~= e0@.with_help(HelpInfoView::Warning(pv)));
                }
                Result::Err(e)
            },
        }
    }

    fn suggestion(self, context: String) -> (r: Result<T, Report>) {
        match self {
            Result::Ok(v) => Result::Ok(v),
            Result::Err(mut e) => {
                let ghost e0 = e;
                let ghost cv = context@;
                e.handler.help_entries.push(HelpInfo::Suggestion(context));
                proof {
                    assert(e@ =~~= e0@.with_help(HelpInfoView::Suggestion(cv)));
                }
                Result::Err(e)
            },
        }
    }

    fn with_suggestion<F: FnOnce() -> String>(self, f: F) -> (r: Result<T, Report>) {
        match self {
            Result::Ok(v) => Result::Ok(v),
            Result::Err(mut e) => {
                let ghost e0 = e;
                let p = f();
                let ghost pv = p@;
                e.handler.help_entries.push(HelpInfo::Suggestion(p));
                proof {
                    assert(e@ =~~= e0@.with_help(HelpInfoView::Suggestion(pv)));
                }
                Result::Err(e)
            },
        }
    }

    fn error(self, error: crate::AuxError) -> (r: Result<T, Report>) {
        match self {
            Result::Ok(v) => Result::Ok(v),
            Result::Err(mut e) => {
                let ghost e0 = e;
                let ghost av = error@;
                e.handler.aux_errors.push(error);
                proof {
                    assert(e@ =~~= e0@.with_aux_error(av));
                }
                Result::Err(e)
            },
        }
    }

    fn with_error<F: FnOnce() -> crate::AuxError>(self, f: F) -> (r: Result<T, Report>) {
        match self {
            Result::Ok(v) => Result::Ok(v),
            Result::Err(mut e) => {
                let ghost e0 = e;
                let a = f();
                let ghost av = a@;
                e.handler.aux_errors.push(a);
                proof {
                    assert(e@ =~~= e0@.with_aux_error(av));
                }
                Result::Err(e)
            },
        }
    }
}

} // verus!
