//! Custom sections for an error report: a header, an optional body and a
//! placement class, together with the text a section contributes when the
//! report is rendered.

use vstd::prelude::*;
use crate::text::{trim_end_spec, indent_spec, trim_end, indent, lemma_indent_empty_iff};
use crate::writers::WriterExt;

verus! {

/// The render-order class a section belongs to. Within one class, sections
/// keep their insertion order; a `Suppressed` section is never emitted.
#[derive(Clone, Copy, PartialEq, Eq, Structural, Debug)]
pub enum Placement {
    /// Rendered after the primary failure chain, before the help entries.
    AfterPrimaryMessages,
    /// Rendered after the diagnostics block, at the very end of the report.
    AfterDiagnostics,
    /// Never rendered; indistinguishable from a section never added.
    Suppressed,
}

/// A custom section: pre-rendered header text, an optional pre-rendered
/// body, and its placement. Immutable once moved into a report.
#[derive(Clone, Debug)]
pub struct Section {
    /// Pre-rendered header text.
    pub header: String,
    /// Pre-rendered body text, if any.
    pub body: Option<String>,
    /// The render-order class.
    pub placement: Placement,
}

/// The mathematical value of a [`Section`].
#[verifier::ext_equal]
pub struct SectionView {
    pub header: Seq<char>,
    pub body: Option<Seq<char>>,
    pub placement: Placement,
}

impl View for Section {
    type V = SectionView;

    open spec fn view(&self) -> SectionView {
        SectionView {
            header: self.header@,
            body: match self.body {
                Option::Some(b) => Option::Some(b@),
                Option::None => Option::None,
            },
            placement: self.placement,
        }
    }
}

impl From<String> for Section {
    /// A header-only section placed after the primary messages.
    fn from(header: String) -> (s: Section) {
        Section { header, body: Option::None, placement: Placement::AfterPrimaryMessages }
    }
}

impl vstd::std_specs::convert::FromSpecImpl<String> for Section {
    open spec fn obeys_from_spec() -> bool {
        true
    }

    open spec fn from_spec(header: String) -> Section {
        Section { header, body: Option::None, placement: Placement::AfterPrimaryMessages }
    }
}

/// Extension trait for building and customizing a [`Section`] from any
/// value that already stands for one (a header text or a section itself).
pub trait SectionExt: Sized {
    /// The section this value stands for before any extension.
    spec fn section_spec(self) -> SectionView;

    /// Attach a body; placement and header are kept.
    fn body(self, body: String) -> (s: Section)
        ensures
            s@ == (SectionView { body: Option::Some(body@), ..self.section_spec() }),
    ;

    /// Evaluate `condition` now and, if it holds, suppress the section;
    /// otherwise leave it unchanged.
    fn skip_if<F: FnOnce() -> bool>(self, condition: F) -> (s: Section)
        requires
            call_requires(condition, ()),
        ensures
            exists|b: bool|
                #[trigger] call_ensures(condition, (), b) && s@ == (if b {
                    SectionView { placement: Placement::Suppressed, ..self.section_spec() }
                } else {
                    self.section_spec()
                }),
    ;
}

impl SectionExt for Section {
    open spec fn section_spec(self) -> SectionView {
        self@
    }

    fn body(self, body: String) -> (s: Section) {
        Section { body: Option::Some(body), ..self }
    }

    fn skip_if<F: FnOnce() -> bool>(self, condition: F) -> (s: Section) {
        let b = condition();
        if b {
            Section { placement: Placement::Suppressed, ..self }
        } else {
            self
        }
    }
}

impl SectionExt for String {
    open spec fn section_spec(self) -> SectionView {
        SectionView {
            header: self@,
            body: Option::None,
            placement: Placement::AfterPrimaryMessages,
        }
    }

    fn body(self, body: String) -> (s: Section) {
        Section {
            header: self,
            body: Option::Some(body),
            placement: Placement::AfterPrimaryMessages,
        }
    }

    fn skip_if<F: FnOnce() -> bool>(self, condition: F) -> (s: Section) {
        let b = condition();
        let placement = if b {
            Placement::Suppressed
        } else {
            Placement::AfterPrimaryMessages
        };
        Section { header: self, body: Option::None, placement }
    }
}

impl SectionExt for &str {
    open spec fn section_spec(self) -> SectionView {
        SectionView {
            header: self@,
            body: Option::None,
            placement: Placement::AfterPrimaryMessages,
        }
    }

    fn body(self, body: String) -> (s: Section) {
        let s = Section {
            header: self.to_owned(),
            body: Option::Some(body),
            placement: Placement::AfterPrimaryMessages,
        };
        proof {
            assert(s@ =~= (SectionView {
                body: s@.body,
                ..self.section_spec()
            }));
        }
        s
    }

    fn skip_if<F: FnOnce() -> bool>(self, condition: F) -> (s: Section) {
        let b = condition();
        let placement = if b {
            Placement::Suppressed
        } else {
            Placement::AfterPrimaryMessages
        };
        let s = Section { header: self.to_owned(), body: Option::None, placement };
        proof {
            if b {
                assert(s@ =~= (SectionView {
                    placement: Placement::Suppressed,
                    ..self.section_spec()
                }));
            } else {
                assert(s@ =~= self.section_spec());
            }
        }
        s
    }
}

/// The text a section contributes to a rendered report. A suppressed
/// section contributes nothing; a section whose body trims to nothing
/// contributes nothing, header included; otherwise the header stands on
/// its own line and the trimmed body follows, each line indented by three
/// spaces. A header-only section contributes its header text.
pub open spec fn section_text_spec(s: SectionView) -> Seq<char> {
    if s.placement == Placement::Suppressed {
        Seq::empty()
    } else {
        match s.body {
            Option::None => s.header,
            Option::Some(b) => {
                let t = trim_end_spec(b);
                if t.len() == 0 {
                    Seq::empty()
                } else {
                    s.header + "\n"@ + indent_spec(t, "   "@)
                }
            },
        }
    }
}

/// Render one section through the header-gated writer.
pub fn section_text(s: &Section) -> (out: String)
    ensures
        out@ == section_text_spec(s@),
{
    match s.placement {
        Placement::Suppressed => String::new(),
        _ => {
            match &s.body {
                Option::None => s.header.clone(),
                Option::Some(b) => {
                    let t = trim_end(b.as_str());
                    let mut hdr = s.header.clone();
                    hdr.append("\n");
                    let mut w = String::new().header(hdr);
                    w.ready();
                    let ind = indent(t.as_str(), "   ");
                    w.write_str(ind.as_str());
                    let out = w.into_inner();
                    proof {
                        lemma_indent_empty_iff(t@, "   "@);
                        assert(out@ =~= section_text_spec(s@));
                    }
                    out
                },
            }
        },
    }
}

/// A suppressed section renders as zero bytes, exactly as if it had never
/// been added.
pub proof fn lemma_suppressed_section_invisible(s: SectionView)
    requires
        s.placement == Placement::Suppressed,
    ensures
        section_text_spec(s) == Seq::<char>::empty(),
{
}

/// A section whose body trims to the empty text renders nothing at all,
/// its header included.
pub proof fn lemma_empty_body_hides_section(s: SectionView)
    requires
        s.body is Some,
        trim_end_spec(s.body.unwrap()).len() == 0,
    ensures
        section_text_spec(s) == Seq::<char>::empty(),
{
}

/// A section with a non-empty trimmed body prints its header first: the
/// rendered text starts with the header, and the body text follows it.
pub proof fn lemma_nonempty_body_prints_header_first(s: SectionView)
    requires
        s.placement != Placement::Suppressed,
        s.body is Some,
        trim_end_spec(s.body.unwrap()).len() != 0,
    ensures
        section_text_spec(s).len() > s.header.len(),
        section_text_spec(s).take(s.header.len() as int) == s.header,
{
    let b = s.body.unwrap();
    let t = trim_end_spec(b);
    lemma_indent_empty_iff(t, "   "@);
    reveal_strlit("\n");
    assert((s.header + "\n"@ + indent_spec(t, "   "@)).take(s.header.len() as int)
        =~= s.header);
}

} // verus!
