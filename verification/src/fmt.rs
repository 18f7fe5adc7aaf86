//! Small formatting helpers that isolate awkward text shapes, such as the
//! `file:line` rendering of a panic location.

use vstd::prelude::*;
use crate::text::dec_nat;

verus! {

/// What a report reads of a panic location: the source file and line.
#[derive(Clone, Debug)]
pub struct LocationInfo {
    /// The source file the panic originated in.
    pub file: String,
    /// The line within that file.
    pub line: u32,
}

/// The mathematical value of a [`LocationInfo`].
#[verifier::ext_equal]
pub struct LocationInfoView {
    pub file: Seq<char>,
    pub line: u32,
}

impl View for LocationInfo {
    type V = LocationInfoView;

    open spec fn view(&self) -> LocationInfoView {
        LocationInfoView { file: self.file@, line: self.line }
    }
}

/// `file:line` when the location is known, `<unknown>` otherwise.
pub open spec fn location_text_spec(loc: Option<LocationInfoView>) -> Seq<char> {
    match loc {
        Option::Some(l) => l.file + ":"@ + dec_nat(l.line as nat),
        Option::None => "<unknown>"@,
    }
}

/// Render a panic location.
pub fn location_text(loc: Option<&LocationInfo>) -> (r: String)
    ensures
        r@ == location_text_spec(match loc {
            Option::Some(l) => Option::Some(l@),
            Option::None => Option::None,
        }),
{
    match loc {
        Option::Some(l) => {
            let mut out = l.file.clone();
            out.append(":");
            let d = crate::text::dec_u64(l.line as u64);
            out.append(d.as_str());
            out
        },
        Option::None => "<unknown>".to_owned(),
    }
}

} // verus!
