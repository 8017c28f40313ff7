//! The check for tab characters in doc comments, which are to be replaced by
//! four spaces each.

use crate::finding::{Applicability, Finding, FindingView, Lint, Suggestion};
use crate::scan::{get_chunks_of_tabs, tab_runs_of};
use crate::tree::{AttrKind, Attribute, Span};
use vstd::prelude::*;

verus! {

/// `n` spaces.
pub open spec fn spaces(n: nat) -> Seq<char> {
    Seq::new(n, |i: int| ' ')
}

/// Four spaces for each of `tabs` tabs.
pub fn four_spaces_per_tab(tabs: u32) -> (r: String)
    ensures
        r@ == spaces(4 * tabs as nat),
{
    let mut r = String::from_str("");
    let four = "    ";
    proof {
        reveal_strlit("");
        reveal_strlit("    ");
    }
    let mut k: u32 = 0;
    while k < tabs
        invariant
            k <= tabs,
            r@ == spaces(4 * k as nat),
            four@ == spaces(4),
        decreases tabs - k,
    {
        r.append(four);
        k = k + 1;
        assert(r@ =~= spaces(4 * k as nat));
    }
    r
}

/// The finding on the run of tabs `run` of a doc comment whose text starts at
/// `attr_span.lo`.
pub open spec fn tab_run_finding(attr_span: Span, run: (u32, u32)) -> FindingView {
    let span = Span { lo: (attr_span.lo + run.0) as u32, hi: (attr_span.lo + run.1) as u32, ..attr_span };
    FindingView {
        lint: Lint::TabsInDocComments,
        span,
        message: "using tabs in doc comments is not recommended"@,
        help: Some("consider using four spaces per tab"@),
        suggestions: seq![(span, spaces(4 * (run.1 - run.0) as nat))],
        applicability: Applicability::MaybeIncorrect,
    }
}

/// Whether the positions of a doc comment of `len` characters, counted from
/// `attr_span.lo`, stay within the range of a position.
pub open spec fn doc_fits(attr_span: Span, len: nat) -> bool {
    attr_span.lo + len <= u32::MAX
}

/// The pass that reports tabs in doc comments.
pub struct TabsInDocComments;

impl TabsInDocComments {
    /// One finding for each run of tabs in the doc comment `attr`, in order;
    /// none for any other attribute.
    pub fn warn_if_tabs_in_doc(attr: &Attribute) -> (r: Vec<Finding>)
        requires
            attr.kind matches AttrKind::DocComment(comment) ==> doc_fits(attr.span, comment@.len()),
        ensures
            match attr.kind {
                AttrKind::DocComment(comment) => exists|runs: Seq<(u32, u32)>|
                    #![trigger tab_runs_of(comment@, runs)]
                    {
                        &&& tab_runs_of(comment@, runs)
                        &&& r@.map_values(|f: Finding| f@) == runs.map_values(
                            |run: (u32, u32)| tab_run_finding(attr.span, run),
                        )
                    },
                AttrKind::Normal => r@.len() == 0,
            },
    {
        let mut findings: Vec<Finding> = Vec::new();
        let comment = match &attr.kind {
            AttrKind::DocComment(comment) => comment,
            AttrKind::Normal => return findings,
        };
        let chunks = get_chunks_of_tabs(comment.as_str());
        let mut i: usize = 0;
        while i < chunks.len()
            invariant
                i <= chunks.len(),
                tab_runs_of(comment@, chunks@),
                doc_fits(attr.span, comment@.len()),
                findings@.map_values(|f: Finding| f@) == chunks@.take(i as int).map_values(
                    |run: (u32, u32)| tab_run_finding(attr.span, run),
                ),
            decreases chunks.len() - i,
        {
            let (lo, hi) = chunks[i];
            assert(chunks@[i as int].0 < chunks@[i as int].1 <= comment@.len());
            let new_span = Span {
                lo: attr.span.lo + lo,
                hi: attr.span.lo + hi,
                ..attr.span
            };
            let mut suggestions: Vec<Suggestion> = Vec::new();
            suggestions.push(Suggestion { span: new_span, replacement: four_spaces_per_tab(hi - lo) });
            let f = Finding {
                lint: Lint::TabsInDocComments,
                span: new_span,
                message: String::from_str("using tabs in doc comments is not recommended"),
                help: Some(String::from_str("consider using four spaces per tab")),
                suggestions,
                applicability: Applicability::MaybeIncorrect,
            };
            assert(f@.suggestions =~= tab_run_finding(attr.span, chunks@[i as int]).suggestions);
            assert(f@ == tab_run_finding(attr.span, chunks@[i as int]));
            let ghost before = findings@;
            findings.push(f);
            assert(findings@.map_values(|f: Finding| f@) =~= before.map_values(|f: Finding| f@).push(
                tab_run_finding(attr.span, chunks@[i as int]),
            ));
            assert(chunks@.take(i + 1) == chunks@.take(i as int).push(chunks@[i as int]));
            i = i + 1;
            assert(findings@.map_values(|f: Finding| f@) =~= chunks@.take(i as int).map_values(
                |run: (u32, u32)| tab_run_finding(attr.span, run),
            ));
        }
        assert(chunks@.take(chunks.len() as int) == chunks@);
        findings
    }

    /// The findings on one attribute.
    pub fn check_attribute(&self, attribute: &Attribute) -> (r: Vec<Finding>)
        requires
            attribute.kind matches AttrKind::DocComment(comment) ==> doc_fits(
                attribute.span,
                comment@.len(),
            ),
        ensures
            match attribute.kind {
                AttrKind::DocComment(comment) => exists|runs: Seq<(u32, u32)>|
                    #![trigger tab_runs_of(comment@, runs)]
                    {
                        &&& tab_runs_of(comment@, runs)
                        &&& r@.map_values(|f: Finding| f@) == runs.map_values(
                            |run: (u32, u32)| tab_run_finding(attribute.span, run),
                        )
                    },
                AttrKind::Normal => r@.len() == 0,
            },
    {
        Self::warn_if_tabs_in_doc(attribute)
    }
}

} // verus!
