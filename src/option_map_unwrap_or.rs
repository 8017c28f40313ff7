//! The check on `opt.map(f).unwrap_or(a)` for an `Option` `opt`, which is
//! better written `opt.map_or(a, f)`, or `opt.and_then(f)` where `a` is `None`.

use crate::finding::{
    opt_view, quoted_applicability, snippet_with_applicability, spec_snippet, Applicability,
    Finding, FindingView, Lint, Suggestion,
};
use crate::idents::{idents, shares_ident};
use crate::tree::{differing_macro_contexts, match_path, Expr, Paths, Span};
use vstd::prelude::*;

verus! {

/// Whether the type of `e` is the `Option` type.
pub open spec fn is_option_typed(e: Expr, paths: Paths) -> bool {
    match e.ty.def_path {
        Some(p) => p@ == paths.option@,
        None => false,
    }
}

/// Whether the default `default` may be moved into a `map_or` beside the
/// closure `f`: it is copied, or no name occurs in both.
pub open spec fn default_is_movable(default: Expr, f: Expr) -> bool {
    default.ty.is_copy || !(exists|s: u32| idents(default).contains(s) && idents(f).contains(s))
}

/// The finding on `expr`, which is `map_args[0].map(map_args[1])` followed by
/// `.unwrap_or(unwrap_args[1])`; `map_span` is the span of the name `map`.
pub open spec fn map_unwrap_or_finding(
    paths: Paths,
    expr_span: Span,
    map_args: Seq<Expr>,
    unwrap_args: Seq<Expr>,
    map_span: Span,
) -> Option<FindingView> {
    let f = map_args[1];
    let default = unwrap_args[1];
    if is_option_typed(map_args[0], paths) && default_is_movable(default, f) && default.span.ctxt
        == map_span.ctxt {
        let text = spec_snippet(default, ".."@);
        let drop_unwrap = (Span { lo: unwrap_args[0].span.hi, ..expr_span }, ""@);
        Some(
            FindingView {
                lint: Lint::OptionMapUnwrapOr,
                span: expr_span,
                message: if text == "None"@ {
                    "called `map(f).unwrap_or(None)` on an Option value. This can be done more directly by calling `and_then(f)` instead"@
                } else {
                    "called `map(f).unwrap_or(a)` on an Option value. This can be done more directly by calling `map_or(a, f)` instead"@
                },
                help: Some(
                    if text == "None"@ {
                        "use `and_then(f)` instead"@
                    } else {
                        "use `map_or(a, f)` instead"@
                    },
                ),
                suggestions: if text == "None"@ {
                    seq![(map_span, "and_then"@), drop_unwrap]
                } else {
                    seq![
                        (map_span, "map_or"@),
                        drop_unwrap,
                        (Span { hi: f.span.lo, ..f.span }, text + ", "@),
                    ]
                },
                applicability: quoted_applicability(Applicability::MachineApplicable, default),
            },
        )
    } else {
        None
    }
}

/// Checks `expr`, which is `map_args[0].map(map_args[1])` followed by
/// `.unwrap_or(unwrap_args[1])`; `map_span` is the span of the name `map`.
pub fn lint(
    paths: &Paths,
    expr_span: Span,
    map_args: &Vec<Expr>,
    unwrap_args: &Vec<Expr>,
    map_span: Span,
) -> (r: Option<Finding>)
    requires
        map_args.len() >= 2,
        unwrap_args.len() >= 2,
    ensures
        opt_view(r) == map_unwrap_or_finding(*paths, expr_span, map_args@, unwrap_args@, map_span),
{
    let recv = &map_args[0];
    let f = &map_args[1];
    let default = &unwrap_args[1];
    // only on an `Option`
    let is_option = match &recv.ty.def_path {
        Some(p) => match_path(p, &paths.option),
        None => false,
    };
    if !is_option {
        return None;
    }
    // a default that is moved must not share a name with the closure
    if !default.ty.is_copy && shares_ident(default, f) {
        return None;
    }
    if differing_macro_contexts(default.span, map_span) {
        return None;
    }
    let mut applicability = Applicability::MachineApplicable;
    let text = snippet_with_applicability(default, "..", &mut applicability);
    let none = String::from_str("None");
    let is_none = text == none;
    let message = if is_none {
        String::from_str(
            "called `map(f).unwrap_or(None)` on an Option value. This can be done more directly by calling `and_then(f)` instead",
        )
    } else {
        String::from_str(
            "called `map(f).unwrap_or(a)` on an Option value. This can be done more directly by calling `map_or(a, f)` instead",
        )
    };
    let help = if is_none {
        String::from_str("use `and_then(f)` instead")
    } else {
        String::from_str("use `map_or(a, f)` instead")
    };
    let mut suggestions: Vec<Suggestion> = Vec::new();
    suggestions.push(
        Suggestion {
            span: map_span,
            replacement: if is_none {
                String::from_str("and_then")
            } else {
                String::from_str("map_or")
            },
        },
    );
    suggestions.push(
        Suggestion { span: expr_span.with_lo(unwrap_args[0].span.hi), replacement: String::from_str("") },
    );
    if !is_none {
        let mut inserted = text.clone();
        inserted.append(", ");
        suggestions.push(Suggestion { span: f.span.with_hi(f.span.lo), replacement: inserted });
    }
    let r = Finding {
        lint: Lint::OptionMapUnwrapOr,
        span: expr_span,
        message,
        help: Some(help),
        suggestions,
        applicability,
    };
    assert(r@.suggestions =~= map_unwrap_or_finding(
        *paths,
        expr_span,
        map_args@,
        unwrap_args@,
        map_span,
    )->0.suggestions);
    Some(r)
}

} // verus!
