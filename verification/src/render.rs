//! The renderer: a pure function from a populated report, a verbosity
//! level and a theme to the final text. The layout is fixed: the primary
//! failure chain, auxiliary error chains, the custom sections placed after
//! the primary messages, the help entries, the diagnostics block (stack
//! hint or trace, source-snippet hint below `Full` verbosity, span-trace
//! part), and last the sections placed after the diagnostics. Blocks are
//! separated by one blank line; consecutive help entries by a single
//! newline. For fixed inputs the output is byte-identical on every call.

use vstd::prelude::*;
use crate::{Report, ReportView, HandlerView, Config, Verbosity, Theme, SpanTraceInfoView, AuxError};
use crate::capture::SpanStatus;
use crate::section::{Section, SectionView, Placement, section_text, section_text_spec};
use crate::help::{HelpInfo, HelpInfoView, help_entry_text, help_entry_spec};
use crate::writers::{backtrace_hint_spec, backtrace_hint_text, source_snippets_spec,
    source_snippets_text, span_warning_spec, span_warning_text, formatted_span_trace_spec,
    formatted_span_trace};
use crate::text::{dec_nat, dec_u64, contains_seq, lemma_concat_contains_middle};

verus! {

/// The numbered list the cause chains render as: each entry on its own
/// line, indented three spaces, numbered from zero in order.
pub open spec fn numbered_list_spec(ms: Seq<Seq<char>>) -> Seq<char>
    decreases ms.len(),
{
    if ms.len() == 0 {
        Seq::empty()
    } else {
        numbered_list_spec(ms.drop_last()) + "\n   "@ + dec_nat((ms.len() - 1) as nat) + ": "@
            + ms.last()
    }
}

/// The `Caused by:` block for the causes of the primary message; empty
/// when there are none.
pub open spec fn caused_by_spec(causes: Seq<Seq<char>>) -> Seq<char> {
    if causes.len() == 0 {
        Seq::empty()
    } else {
        "\n\nCaused by:"@ + numbered_list_spec(causes)
    }
}

/// The primary failure chain: the first message, then its causes.
pub open spec fn chain_block_spec(ms: Seq<Seq<char>>) -> Seq<char> {
    if ms.len() == 0 {
        Seq::empty()
    } else {
        ms[0] + caused_by_spec(ms.skip(1))
    }
}

/// The auxiliary errors, each as an `Error:` block with its own numbered
/// cause chain, in insertion order.
pub open spec fn aux_block_spec(aux: Seq<Seq<Seq<char>>>) -> Seq<char>
    decreases aux.len(),
{
    if aux.len() == 0 {
        Seq::empty()
    } else {
        aux_block_spec(aux.drop_last()) + "\n\nError:"@ + numbered_list_spec(aux.last())
    }
}

/// The sections of one placement class, in insertion order, each non-empty
/// one preceded by a blank line; suppressed or empty-rendering sections
/// contribute nothing.
pub open spec fn sections_block_spec(ss: Seq<SectionView>, placement: Placement) -> Seq<char>
    decreases ss.len(),
{
    if ss.len() == 0 {
        Seq::empty()
    } else {
        let rest = sections_block_spec(ss.drop_last(), placement);
        let t = section_text_spec(ss.last());
        rest + (if ss.last().placement == placement && t.len() > 0 {
            "\n\n"@ + t
        } else {
            Seq::empty()
        })
    }
}

/// The help entries in insertion order: a blank line before the first,
/// a single newline between consecutive entries.
pub open spec fn help_block_spec(hs: Seq<HelpInfoView>, theme: Theme) -> Seq<char>
    decreases hs.len(),
{
    if hs.len() == 0 {
        Seq::empty()
    } else {
        help_block_spec(hs.drop_last(), theme) + (if hs.len() == 1 {
            "\n\n"@
        } else {
            "\n"@
        }) + help_entry_spec(hs.last(), theme)
    }
}

/// The stack part of the diagnostics block: the capture hint when no
/// trace was captured, else the trace followed by the hidden-frames hint.
pub open spec fn backtrace_part_spec(bt: Option<Seq<char>>) -> Seq<char> {
    match bt {
        Option::None => backtrace_hint_spec(false),
        Option::Some(t) => t + "\n"@ + backtrace_hint_spec(true),
    }
}

/// The source-snippet part: a newline and the hint below `Full`, nothing
/// at `Full`.
pub open spec fn snippets_part_spec(v: Verbosity) -> Seq<char> {
    if v == Verbosity::Full {
        Seq::empty()
    } else {
        "\n"@ + source_snippets_spec(v)
    }
}

/// The span part of the diagnostics block: the labeled, indented trace
/// when one was captured with content, set off as its own block; the
/// warning when capture was unsupported, following the preceding hint
/// after a single newline; nothing otherwise.
pub open spec fn span_part_spec(st: Option<SpanTraceInfoView>) -> Seq<char> {
    match st {
        Option::None => Seq::empty(),
        Option::Some(info) => match info.status {
            SpanStatus::Captured => {
                let f = formatted_span_trace_spec(info.text);
                if f.len() == 0 {
                    Seq::empty()
                } else {
                    "\n\n"@ + f
                }
            },
            SpanStatus::Unsupported => "\n"@ + span_warning_spec(),
            SpanStatus::Empty => Seq::empty(),
        },
    }
}

/// The diagnostics block: stack part, snippet part, span part.
pub open spec fn diagnostics_spec(h: HandlerView, v: Verbosity) -> Seq<char> {
    backtrace_part_spec(h.backtrace) + snippets_part_spec(v) + span_part_spec(h.span_trace)
}

/// Everything a report renders before the source-snippet part.
pub open spec fn pre_snippets_spec(r: ReportView, theme: Theme) -> Seq<char> {
    chain_block_spec(r.messages) + aux_block_spec(r.handler.aux_errors) + sections_block_spec(
        r.handler.sections,
        Placement::AfterPrimaryMessages,
    ) + help_block_spec(r.handler.help_entries, theme) + "\n\n"@ + backtrace_part_spec(
        r.handler.backtrace,
    )
}

/// Everything a report renders after the source-snippet part.
pub open spec fn post_snippets_spec(r: ReportView, theme: Theme) -> Seq<char> {
    span_part_spec(r.handler.span_trace) + sections_block_spec(
        r.handler.sections,
        Placement::AfterDiagnostics,
    )
}

/// The full rendered report.
pub open spec fn render_spec(r: ReportView, v: Verbosity, theme: Theme) -> Seq<char> {
    chain_block_spec(r.messages) + aux_block_spec(r.handler.aux_errors) + sections_block_spec(
        r.handler.sections,
        Placement::AfterPrimaryMessages,
    ) + help_block_spec(r.handler.help_entries, theme) + "\n\n"@ + diagnostics_spec(r.handler, v)
        + sections_block_spec(r.handler.sections, Placement::AfterDiagnostics)
}

/// The verbosity the renderer works at: the panic level while panicking,
/// the library level otherwise.
pub open spec fn effective_verbosity(c: Config, is_panicking: bool) -> Verbosity {
    if is_panicking {
        c.panic_verbosity
    } else {
        c.verbosity
    }
}

/// Render a numbered cause list, numbering from zero.
fn numbered_list(ms: &Vec<String>) -> (out: String)
    ensures
        out@ == numbered_list_spec(ms@.map_values(|m: String| m@)),
{
    let ghost mvs = ms@.map_values(|m: String| m@);
    let mut out = String::new();
    let mut i: usize = 0;
    proof {
        assert(mvs.take(0) =~= Seq::<Seq<char>>::empty());
    }
    while i < ms.len()
        invariant
            i <= ms.len(),
            mvs == ms@.map_values(|m: String| m@),
            out@ == numbered_list_spec(mvs.take(i as int)),
        decreases ms.len() - i,
    {
        out.append("\n   ");
        let d = dec_u64(i as u64);
        out.append(d.as_str());
        out.append(": ");
        out.append(ms[i].as_str());
        proof {
            assert(mvs.take(i + 1).drop_last() =~= mvs.take(i as int));
            assert(mvs.take(i + 1).last() == mvs[i as int]);
            assert(mvs[i as int] == ms@[i as int]@);
            assert(out@ =~= numbered_list_spec(mvs.take(i + 1)));
        }
        i = i + 1;
    }
    proof {
        assert(mvs.take(ms.len() as int) =~= mvs);
    }
    out
}

/// Render the primary failure chain.
fn chain_block(ms: &Vec<String>) -> (out: String)
    ensures
        out@ == chain_block_spec(ms@.map_values(|m: String| m@)),
{
    let ghost mvs = ms@.map_values(|m: String| m@);
    if ms.len() == 0 {
        let out = String::new();
        proof {
            assert(out@ =~= chain_block_spec(mvs));
        }
        return out;
    }
    let mut out = ms[0].clone();
    if ms.len() > 1 {
        out.append("\n\nCaused by:");
        let ghost cvs = mvs.skip(1);
        let mut i: usize = 1;
        proof {
            assert(cvs.take(0) =~= Seq::<Seq<char>>::empty());
        }
        while i < ms.len()
            invariant
                1 <= i <= ms.len(),
                ms.len() > 1,
                mvs == ms@.map_values(|m: String| m@),
                cvs == mvs.skip(1),
                out@ == mvs[0] + "\n\nCaused by:"@ + numbered_list_spec(cvs.take(i - 1)),
            decreases ms.len() - i,
        {
            out.append("\n   ");
            let d = dec_u64((i - 1) as u64);
            out.append(d.as_str());
            out.append(": ");
            out.append(ms[i].as_str());
            proof {
                assert(cvs.take(i as int).drop_last() =~= cvs.take(i - 1));
                assert(cvs.take(i as int).last() == cvs[i - 1]);
                assert(cvs[i - 1] == mvs[i as int]);
                assert(mvs[i as int] == ms@[i as int]@);
                assert(out@ =~= mvs[0] + "\n\nCaused by:"@ + numbered_list_spec(
                    cvs.take(i as int),
                ));
            }
            i = i + 1;
        }
        proof {
            assert(cvs.take(ms.len() - 1) =~= cvs);
            assert(out@ =~= chain_block_spec(mvs));
        }
    } else {
        proof {
            assert(mvs.skip(1) =~= Seq::<Seq<char>>::empty());
            assert(out@ =~= chain_block_spec(mvs));
        }
    }
    out
}

/// Render the auxiliary error blocks.
fn aux_block(aux: &Vec<AuxError>) -> (out: String)
    ensures
        out@ == aux_block_spec(aux@.map_values(|a: AuxError| a@)),
{
    let ghost avs = aux@.map_values(|a: AuxError| a@);
    let mut out = String::new();
    let mut i: usize = 0;
    proof {
        assert(avs.take(0) =~= Seq::<Seq<Seq<char>>>::empty());
    }
    while i < aux.len()
        invariant
            i <= aux.len(),
            avs == aux@.map_values(|a: AuxError| a@),
            out@ == aux_block_spec(avs.take(i as int)),
        decreases aux.len() - i,
    {
        out.append("\n\nError:");
        let list = numbered_list(&aux[i].messages);
        out.append(list.as_str());
        proof {
            assert(avs.take(i + 1).drop_last() =~= avs.take(i as int));
            assert(avs.take(i + 1).last() == avs[i as int]);
            assert(avs[i as int] == aux@[i as int]@);
            assert(out@ =~= aux_block_spec(avs.take(i + 1)));
        }
        i = i + 1;
    }
    proof {
        assert(avs.take(aux.len() as int) =~= avs);
    }
    out
}

/// Render the sections of one placement class.
fn sections_block(sections: &Vec<Section>, placement: Placement) -> (out: String)
    ensures
        out@ == sections_block_spec(sections@.map_values(|s: Section| s@), placement),
{
    let ghost svs = sections@.map_values(|s: Section| s@);
    let mut out = String::new();
    let mut i: usize = 0;
    proof {
        assert(svs.take(0) =~= Seq::<SectionView>::empty());
    }
    while i < sections.len()
        invariant
            i <= sections.len(),
            svs == sections@.map_values(|s: Section| s@),
            out@ == sections_block_spec(svs.take(i as int), placement),
        decreases sections.len() - i,
    {
        let t = section_text(&sections[i]);
        if sections[i].placement == placement && !t.as_str().is_empty() {
            out.append("\n\n");
            out.append(t.as_str());
        }
        proof {
            assert(svs.take(i + 1).drop_last() =~= svs.take(i as int));
            assert(svs.take(i + 1).last() == svs[i as int]);
            assert(svs[i as int] == sections@[i as int]@);
            assert(out@ =~= sections_block_spec(svs.take(i + 1), placement));
        }
        i = i + 1;
    }
    proof {
        assert(svs.take(sections.len() as int) =~= svs);
    }
    out
}

/// Render the help entries.
fn help_block(entries: &Vec<HelpInfo>, theme: Theme) -> (out: String)
    ensures
        out@ == help_block_spec(entries@.map_values(|h: HelpInfo| h@), theme),
{
    let ghost hvs = entries@.map_values(|h: HelpInfo| h@);
    let mut out = String::new();
    let mut i: usize = 0;
    proof {
        assert(hvs.take(0) =~= Seq::<HelpInfoView>::empty());
    }
    while i < entries.len()
        invariant
            i <= entries.len(),
            hvs == entries@.map_values(|h: HelpInfo| h@),
            out@ == help_block_spec(hvs.take(i as int), theme),
        decreases entries.len() - i,
    {
        if i == 0 {
            out.append("\n\n");
        } else {
            out.append("\n");
        }
        let e = help_entry_text(&entries[i], theme);
        out.append(e.as_str());
        proof {
            assert(hvs.take(i + 1).drop_last() =~= hvs.take(i as int));
            assert(hvs.take(i + 1).last() == hvs[i as int]);
            assert(hvs[i as int] == entries@[i as int]@);
            assert(out@ =~= help_block_spec(hvs.take(i + 1), theme));
        }
        i = i + 1;
    }
    proof {
        assert(hvs.take(entries.len() as int) =~= hvs);
    }
    out
}

/// Render the diagnostics block.
fn diagnostics_text(h: &crate::Handler, v: Verbosity) -> (out: String)
    ensures
        out@ == diagnostics_spec(h@, v),
{
    let mut out: String;
    match &h.backtrace {
        Option::None => {
            out = backtrace_hint_text(false);
        },
        Option::Some(t) => {
            out = t.clone();
            out.append("\n");
            let hint = backtrace_hint_text(true);
            out.append(hint.as_str());
        },
    }
    if !matches!(v, Verbosity::Full) {
        out.append("\n");
        let snip = source_snippets_text(v);
        out.append(snip.as_str());
    }
    match &h.span_trace {
        Option::None => {},
        Option::Some(info) => {
            match info.status {
                SpanStatus::Captured => {
                    let f = formatted_span_trace(info.text.as_str());
                    if !f.as_str().is_empty() {
                        out.append("\n\n");
                        out.append(f.as_str());
                    }
                },
                SpanStatus::Unsupported => {
                    out.append("\n");
                    let w = span_warning_text();
                    out.append(w.as_str());
                },
                SpanStatus::Empty => {},
            }
        },
    }
    proof {
        assert(out@ =~= diagnostics_spec(h@, v));
    }
    out
}

impl Report {
    /// Render this report: the text is exactly [`render_spec`] of the
    /// report's value at the verbosity the configuration selects for the
    /// current execution context, so repeated calls on one report yield
    /// byte-identical text.
    pub fn render(&self, config: &Config, is_panicking: bool) -> (out: String)
        ensures
            out@ == render_spec(
                self@,
                effective_verbosity(*config, is_panicking),
                config.theme,
            ),
    {
        let v = if is_panicking {
            config.panic_verbosity
        } else {
            config.verbosity
        };
        let mut out = chain_block(&self.messages);
        let aux = aux_block(&self.handler.aux_errors);
        out.append(aux.as_str());
        let secs1 = sections_block(&self.handler.sections, Placement::AfterPrimaryMessages);
        out.append(secs1.as_str());
        let help = help_block(&self.handler.help_entries, config.theme);
        out.append(help.as_str());
        out.append("\n\n");
        let diag = diagnostics_text(&self.handler, v);
        out.append(diag.as_str());
        let secs2 = sections_block(&self.handler.sections, Placement::AfterDiagnostics);
        out.append(secs2.as_str());
        proof {
            assert(out@ =~= render_spec(
                self@,
                effective_verbosity(*config, is_panicking),
                config.theme,
            ));
        }
        out
    }
}

/// Rendering is deterministic: any two renders of one report value at one
/// verbosity and theme agree byte for byte.
pub proof fn lemma_render_deterministic(
    out1: Seq<char>,
    out2: Seq<char>,
    r: ReportView,
    v: Verbosity,
    theme: Theme,
)
    requires
        out1 == render_spec(r, v, theme),
        out2 == render_spec(r, v, theme),
    ensures
        out1 == out2,
{
}

/// Help entries render in insertion order: appending an entry appends its
/// line after everything rendered before, separated by a blank line when
/// it is the first entry and a single newline otherwise.
pub proof fn lemma_help_appends_last(hs: Seq<HelpInfoView>, h: HelpInfoView, theme: Theme)
    ensures
        help_block_spec(hs.push(h), theme) == help_block_spec(hs, theme) + (if hs.len() == 0 {
            "\n\n"@
        } else {
            "\n"@
        }) + help_entry_spec(h, theme),
{
    assert(hs.push(h).drop_last() =~= hs);
    assert(hs.push(h).last() == h);
}

/// Appending one help entry and then another renders the first strictly
/// before the second: the block gains the first entry's line, then the
/// second entry's line, after everything already rendered.
pub proof fn lemma_help_order_preserved(
    hs: Seq<HelpInfoView>,
    a: HelpInfoView,
    b: HelpInfoView,
    theme: Theme,
)
    ensures
        help_block_spec(hs.push(a).push(b), theme) == help_block_spec(hs, theme) + (
        if hs.len() == 0 {
            "\n\n"@
        } else {
            "\n"@
        }) + help_entry_spec(a, theme) + "\n"@ + help_entry_spec(b, theme),
{
    lemma_help_appends_last(hs, a, theme);
    lemma_help_appends_last(hs.push(a), b, theme);
    assert(help_block_spec(hs.push(a).push(b), theme) =~= help_block_spec(hs, theme) + (
    if hs.len() == 0 {
        "\n\n"@
    } else {
        "\n"@
    }) + help_entry_spec(a, theme) + "\n"@ + help_entry_spec(b, theme));
}

/// Sections render in insertion order: appending a section appends its
/// text (preceded by a blank line) after everything rendered before, and
/// appends nothing when the section renders empty or belongs to another
/// placement class.
pub proof fn lemma_section_appends_last(ss: Seq<SectionView>, s: SectionView, placement: Placement)
    ensures
        sections_block_spec(ss.push(s), placement) == sections_block_spec(ss, placement) + (
        if s.placement == placement && section_text_spec(s).len() > 0 {
            "\n\n"@ + section_text_spec(s)
        } else {
            Seq::empty()
        }),
{
    assert(ss.push(s).drop_last() =~= ss);
    assert(ss.push(s).last() == s);
}

/// A suppressed section in the store leaves the rendered report exactly
/// as it would be without that section, whatever else the report holds.
pub proof fn lemma_suppressed_section_invisible_in_report(
    r: ReportView,
    s: SectionView,
    v: Verbosity,
    theme: Theme,
)
    requires
        s.placement == Placement::Suppressed,
    ensures
        render_spec(
            ReportView {
                handler: HandlerView { sections: r.handler.sections.push(s), ..r.handler },
                ..r
            },
            v,
            theme,
        ) == render_spec(r, v, theme),
{
    let ss = r.handler.sections;
    lemma_section_appends_last(ss, s, Placement::AfterPrimaryMessages);
    lemma_section_appends_last(ss, s, Placement::AfterDiagnostics);
    assert(sections_block_spec(ss.push(s), Placement::AfterPrimaryMessages) =~= sections_block_spec(
        ss,
        Placement::AfterPrimaryMessages,
    ));
    assert(sections_block_spec(ss.push(s), Placement::AfterDiagnostics) =~= sections_block_spec(
        ss,
        Placement::AfterDiagnostics,
    ));
}

/// A section whose body trims to the empty text leaves the rendered
/// report exactly as it would be without that section, header included.
pub proof fn lemma_empty_body_section_invisible_in_report(
    r: ReportView,
    s: SectionView,
    v: Verbosity,
    theme: Theme,
)
    requires
        s.body is Some,
        crate::text::trim_end_spec(s.body.unwrap()).len() == 0,
    ensures
        render_spec(
            ReportView {
                handler: HandlerView { sections: r.handler.sections.push(s), ..r.handler },
                ..r
            },
            v,
            theme,
        ) == render_spec(r, v, theme),
{
    let ss = r.handler.sections;
    lemma_section_appends_last(ss, s, Placement::AfterPrimaryMessages);
    lemma_section_appends_last(ss, s, Placement::AfterDiagnostics);
    assert(sections_block_spec(ss.push(s), Placement::AfterPrimaryMessages) =~= sections_block_spec(
        ss,
        Placement::AfterPrimaryMessages,
    ));
    assert(sections_block_spec(ss.push(s), Placement::AfterDiagnostics) =~= sections_block_spec(
        ss,
        Placement::AfterDiagnostics,
    ));
}

/// Below `Full` verbosity the rendered report contains the source-snippet
/// hint.
pub proof fn lemma_snippet_hint_below_full(r: ReportView, v: Verbosity, theme: Theme)
    requires
        v != Verbosity::Full,
    ensures
        contains_seq(render_spec(r, v, theme), source_snippets_spec(v)),
{
    lemma_render_splits_at_snippets(r, v, theme);
    let pre = pre_snippets_spec(r, theme) + "\n"@;
    let post = post_snippets_spec(r, theme);
    lemma_concat_contains_middle(pre, source_snippets_spec(v), post);
}

/// The snippet hint is all that verbosity gates: below `Full` the report
/// is the pre part, a newline, the hint, then the post part; at `Full` it
/// is the pre part directly followed by the post part.
pub proof fn lemma_render_splits_at_snippets(r: ReportView, v: Verbosity, theme: Theme)
    ensures
        v != Verbosity::Full ==> render_spec(r, v, theme) == pre_snippets_spec(r, theme) + "\n"@
            + source_snippets_spec(v) + post_snippets_spec(r, theme),
        render_spec(r, Verbosity::Full, theme) == pre_snippets_spec(r, theme)
            + post_snippets_spec(r, theme),
{
    if v != Verbosity::Full {
        assert(render_spec(r, v, theme) =~= pre_snippets_spec(r, theme) + "\n"@
            + source_snippets_spec(v) + post_snippets_spec(r, theme));
    }
    assert(render_spec(r, Verbosity::Full, theme) =~= pre_snippets_spec(r, theme)
        + post_snippets_spec(r, theme));
}

/// Verbosity levels below `Full` render identically.
pub proof fn lemma_below_full_agree(r: ReportView, theme: Theme)
    ensures
        render_spec(r, Verbosity::Minimal, theme) == render_spec(r, Verbosity::Short, theme),
{
    assert(render_spec(r, Verbosity::Minimal, theme) =~= render_spec(
        r,
        Verbosity::Short,
        theme,
    ));
}

} // verus!
