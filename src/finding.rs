//! What a check reports: a finding with its message and suggested edits.

use crate::tree::{Expr, Span};
use vstd::prelude::*;

verus! {

/// The checks that can report a finding.
#[derive(Clone, Copy, Debug, PartialEq, Eq, Structural)]
pub enum Lint {
    MemReplaceOptionWithNone,
    MemReplaceWithUninit,
    MemReplaceWithDefault,
    OptionMapUnwrapOr,
    TabsInDocComments,
}

/// How far a suggested edit can be trusted.
#[derive(Clone, Copy, Debug, PartialEq, Eq, Structural)]
pub enum Applicability {
    /// Safe to apply automatically.
    MachineApplicable,
    /// Probably correct, but to be checked by a person.
    MaybeIncorrect,
    /// Holds placeholders that a person has to fill in.
    HasPlaceholders,
    Unspecified,
}

/// An edit: the text of `span` is to be replaced by `replacement`.
#[derive(Debug)]
pub struct Suggestion {
    pub span: Span,
    pub replacement: String,
}

/// One finding of one check.
#[derive(Debug)]
pub struct Finding {
    pub lint: Lint,
    pub span: Span,
    pub message: String,
    /// The text that introduces the suggested edits, or a hint when there are none.
    pub help: Option<String>,
    /// The edits, in source order; empty when none is offered.
    pub suggestions: Vec<Suggestion>,
    pub applicability: Applicability,
}

pub struct FindingView {
    pub lint: Lint,
    pub span: Span,
    pub message: Seq<char>,
    pub help: Option<Seq<char>>,
    pub suggestions: Seq<(Span, Seq<char>)>,
    pub applicability: Applicability,
}

impl View for Finding {
    type V = FindingView;

    open spec fn view(&self) -> FindingView {
        FindingView {
            lint: self.lint,
            span: self.span,
            message: self.message@,
            help: match self.help {
                Some(h) => Some(h@),
                None => None,
            },
            suggestions: self.suggestions@.map_values(|s: Suggestion| (s.span, s.replacement@)),
            applicability: self.applicability,
        }
    }
}

pub open spec fn opt_view(f: Option<Finding>) -> Option<FindingView> {
    match f {
        Some(f) => Some(f@),
        None => None,
    }
}

/// The findings of `f` as a sequence of zero or one.
pub open spec fn opt_seq(f: Option<FindingView>) -> Seq<FindingView> {
    match f {
        Some(f) => seq![f],
        None => Seq::empty(),
    }
}

/// A finding with a hint and no edit.
pub open spec fn hint_finding(lint: Lint, span: Span, message: Seq<char>, help: Seq<char>) -> FindingView {
    FindingView {
        lint,
        span,
        message,
        help: Some(help),
        suggestions: Seq::empty(),
        applicability: Applicability::Unspecified,
    }
}

pub fn make_hint_finding(lint: Lint, span: Span, message: &str, help: &str) -> (r: Finding)
    ensures
        r@ == hint_finding(lint, span, message@, help@),
{
    let r = Finding {
        lint,
        span,
        message: String::from_str(message),
        help: Some(String::from_str(help)),
        suggestions: Vec::new(),
        applicability: Applicability::Unspecified,
    };
    assert(r@.suggestions =~= Seq::empty());
    r
}

/// The source text of `e`, or `default` where the source map has none.
pub open spec fn spec_snippet(e: Expr, default: Seq<char>) -> Seq<char> {
    match e.snippet {
        Some(s) => s@,
        None => default,
    }
}

pub fn snippet(e: &Expr, default: &str) -> (r: String)
    ensures
        r@ == spec_snippet(*e, default@),
{
    match &e.snippet {
        Some(s) => s.clone(),
        None => String::from_str(default),
    }
}

/// What becomes of the grade `app` of an edit that quotes the text of `e`: text
/// from a macro expansion makes the edit at most probably correct, and a missing
/// text, replaced by a placeholder, makes a safe edit one with placeholders.
pub open spec fn quoted_applicability(app: Applicability, e: Expr) -> Applicability {
    let app = if app != Applicability::Unspecified && e.span.ctxt != 0 {
        Applicability::MaybeIncorrect
    } else {
        app
    };
    if e.snippet is None && app == Applicability::MachineApplicable {
        Applicability::HasPlaceholders
    } else {
        app
    }
}

/// The source text of `e`, or `default`; lowers `applicability` as
/// `quoted_applicability` says.
pub fn snippet_with_applicability(e: &Expr, default: &str, applicability: &mut Applicability) -> (r:
    String)
    ensures
        r@ == spec_snippet(*e, default@),
        *final(applicability) == quoted_applicability(*old(applicability), *e),
{
    if *applicability != Applicability::Unspecified && e.span.from_expansion() {
        *applicability = Applicability::MaybeIncorrect;
    }
    match &e.snippet {
        Some(s) => s.clone(),
        None => {
            if *applicability == Applicability::MachineApplicable {
                *applicability = Applicability::HasPlaceholders;
            }
            String::from_str(default)
        },
    }
}

} // verus!
