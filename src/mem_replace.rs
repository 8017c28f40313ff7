//! Checks on calls of `mem::replace`: replacing an `Option` with `None`, with
//! uninitialized or zeroed memory, or with the type's default value.

use crate::finding::{
    hint_finding, make_hint_finding, opt_seq, opt_view, quoted_applicability, snippet,
    snippet_with_applicability, spec_snippet, Applicability, Finding, FindingView, Lint,
    Suggestion,
};
use crate::tree::{
    is_path_to, is_simple_path, match_borrow_mut, match_call, match_simple_path,
    resolves_to, spec_resolved, Expr, ExprKind, Mutability, Paths, Span,
};
use vstd::prelude::*;

verus! {

/// The destination and the new value of `e`, when `e` is a call of
/// `mem::replace` with two arguments.
pub open spec fn replace_call_args(e: Expr, paths: Paths) -> Option<(Expr, Expr)> {
    match e.kind {
        ExprKind::Call(callee, args) => if resolves_to(&*callee, paths.mem_replace@) && args@.len()
            == 2 {
            Some((args@[0], args@[1]))
        } else {
            None
        },
        _ => None,
    }
}

/// The place named by the destination `dest`: a bare path, or a mutable borrow
/// of one.
pub open spec fn replaced_place(dest: Expr) -> Option<Expr> {
    match dest.kind {
        ExprKind::AddrOf(Mutability::Mut, inner) => if is_simple_path(&*inner) {
            Some(*inner)
        } else {
            None
        },
        ExprKind::Path(qpath) => if !qpath.qualified {
            Some(dest)
        } else {
            None
        },
        _ => None,
    }
}

/// The finding on `replace(dest, None)`: it becomes `dest.take()`.
pub open spec fn option_with_none_finding(src: Expr, dest: Expr, expr_span: Span, paths: Paths) -> Option<
    FindingView,
> {
    if resolves_to(&src, paths.option_none@) && replaced_place(dest) is Some {
        let place = replaced_place(dest)->0;
        Some(
            FindingView {
                lint: Lint::MemReplaceOptionWithNone,
                span: expr_span,
                message: "replacing an `Option` with `None`"@,
                help: Some("consider `Option::take()` instead"@),
                suggestions: seq![(expr_span, spec_snippet(place, ""@) + ".take()"@)],
                applicability: quoted_applicability(Applicability::MachineApplicable, place),
            },
        )
    } else {
        None
    }
}

/// The finding on `replace(_, mem::uninitialized())`, and on
/// `replace(_, mem::zeroed())` where the value is not of a primitive type.
pub open spec fn with_uninit_finding(src: Expr, expr_span: Span, paths: Paths) -> Option<FindingView> {
    match src.kind {
        ExprKind::Call(callee, args) => if args@.len() == 0 && spec_resolved(&*callee) is Some {
            let def = spec_resolved(&*callee)->0;
            if def == paths.mem_uninitialized@ {
                Some(
                    hint_finding(
                        Lint::MemReplaceWithUninit,
                        expr_span,
                        "replacing with `mem::uninitialized()`"@,
                        "consider using the `take_mut` crate instead"@,
                    ),
                )
            } else if def == paths.mem_zeroed@ && !src.ty.is_primitive {
                Some(
                    hint_finding(
                        Lint::MemReplaceWithUninit,
                        expr_span,
                        "replacing with `mem::zeroed()`"@,
                        "consider using a default value or the `take_mut` crate instead"@,
                    ),
                )
            } else {
                None
            }
        } else {
            None
        },
        _ => None,
    }
}

/// The finding on `replace(dest, T::default())` outside a macro of another
/// crate; the edit to `std::mem::take(dest)` is offered only outside any
/// macro expansion.
pub open spec fn with_default_finding(src: Expr, dest: Expr, expr_span: Span, paths: Paths) -> Option<
    FindingView,
> {
    match src.kind {
        ExprKind::Call(callee, _) => if !expr_span.external_macro && resolves_to(
            &*callee,
            paths.default_trait_method@,
        ) {
            let message =
                "replacing a value of type `T` with `T::default()` is better expressed using `std::mem::take`"@;
            if expr_span.ctxt == 0 {
                Some(
                    FindingView {
                        lint: Lint::MemReplaceWithDefault,
                        span: expr_span,
                        message,
                        help: Some("consider using"@),
                        suggestions: seq![
                            (expr_span, "std::mem::take("@ + spec_snippet(dest, ""@) + ")"@),
                        ],
                        applicability: Applicability::MachineApplicable,
                    },
                )
            } else {
                Some(
                    FindingView {
                        lint: Lint::MemReplaceWithDefault,
                        span: expr_span,
                        message,
                        help: None,
                        suggestions: Seq::empty(),
                        applicability: Applicability::Unspecified,
                    },
                )
            }
        } else {
            None
        },
        _ => None,
    }
}

/// All findings on `e`, in the order: `None`, uninitialized, default.
pub open spec fn mem_replace_findings(e: Expr, paths: Paths) -> Seq<FindingView> {
    match replace_call_args(e, paths) {
        Some((dest, src)) => opt_seq(option_with_none_finding(src, dest, e.span, paths)) + opt_seq(
            with_uninit_finding(src, e.span, paths),
        ) + opt_seq(with_default_finding(src, dest, e.span, paths)),
        None => Seq::empty(),
    }
}

fn check_replace_option_with_none(paths: &Paths, src: &Expr, dest: &Expr, expr_span: Span) -> (r:
    Option<Finding>)
    ensures
        opt_view(r) == option_with_none_finding(*src, *dest, expr_span, *paths),
{
    // the new value must be `Option::None`
    if !is_path_to(src, &paths.option_none) {
        return None;
    }
    let place: &Expr = match match_borrow_mut(dest) {
        Some(inner) => {
            if match_simple_path(inner).is_none() {
                return None;
            }
            inner
        },
        None => {
            if match_simple_path(dest).is_none() {
                return None;
            }
            dest
        },
    };
    let mut applicability = Applicability::MachineApplicable;
    let mut replacement = snippet_with_applicability(place, "", &mut applicability);
    replacement.append(".take()");
    let mut suggestions: Vec<Suggestion> = Vec::new();
    suggestions.push(Suggestion { span: expr_span, replacement });
    let r = Finding {
        lint: Lint::MemReplaceOptionWithNone,
        span: expr_span,
        message: String::from_str("replacing an `Option` with `None`"),
        help: Some(String::from_str("consider `Option::take()` instead")),
        suggestions,
        applicability,
    };
    assert(r@.suggestions =~= option_with_none_finding(*src, *dest, expr_span, *paths)->0.suggestions);
    Some(r)
}

fn check_replace_with_uninit(paths: &Paths, src: &Expr, expr_span: Span) -> (r: Option<Finding>)
    ensures
        opt_view(r) == with_uninit_finding(*src, expr_span, *paths),
{
    let (callee, args) = match match_call(src) {
        Some(call) => call,
        None => return None,
    };
    if args.len() != 0 {
        return None;
    }
    if is_path_to(callee, &paths.mem_uninitialized) {
        Some(
            make_hint_finding(
                Lint::MemReplaceWithUninit,
                expr_span,
                "replacing with `mem::uninitialized()`",
                "consider using the `take_mut` crate instead",
            ),
        )
    } else if is_path_to(callee, &paths.mem_zeroed) && !src.ty.is_primitive {
        Some(
            make_hint_finding(
                Lint::MemReplaceWithUninit,
                expr_span,
                "replacing with `mem::zeroed()`",
                "consider using a default value or the `take_mut` crate instead",
            ),
        )
    } else {
        None
    }
}

fn check_replace_with_default(paths: &Paths, src: &Expr, dest: &Expr, expr_span: Span) -> (r:
    Option<Finding>)
    ensures
        opt_view(r) == with_default_finding(*src, *dest, expr_span, *paths),
{
    let (callee, _) = match match_call(src) {
        Some(call) => call,
        None => return None,
    };
    if expr_span.external_macro || !is_path_to(callee, &paths.default_trait_method) {
        return None;
    }
    let message = String::from_str(
        "replacing a value of type `T` with `T::default()` is better expressed using `std::mem::take`",
    );
    if !expr_span.from_expansion() {
        let mut replacement = String::from_str("std::mem::take(");
        let dest_text = snippet(dest, "");
        replacement.append(dest_text.as_str());
        replacement.append(")");
        let mut suggestions: Vec<Suggestion> = Vec::new();
        suggestions.push(Suggestion { span: expr_span, replacement });
        let r = Finding {
            lint: Lint::MemReplaceWithDefault,
            span: expr_span,
            message,
            help: Some(String::from_str("consider using")),
            suggestions,
            applicability: Applicability::MachineApplicable,
        };
        assert(r@.suggestions =~= with_default_finding(*src, *dest, expr_span, *paths)->0.suggestions);
        Some(r)
    } else {
        let r = Finding {
            lint: Lint::MemReplaceWithDefault,
            span: expr_span,
            message,
            help: None,
            suggestions: Vec::new(),
            applicability: Applicability::Unspecified,
        };
        assert(r@.suggestions =~= Seq::empty());
        Some(r)
    }
}

/// The pass that runs the `mem::replace` checks.
pub struct MemReplace;

impl MemReplace {
    /// The findings on the call expression `expr`: none unless it calls
    /// `mem::replace` with two arguments.
    pub fn check_expr(&self, paths: &Paths, expr: &Expr) -> (r: Vec<Finding>)
        ensures
            r@.map_values(|f: Finding| f@) == mem_replace_findings(*expr, *paths),
    {
        let mut findings: Vec<Finding> = Vec::new();
        let (func, func_args) = match match_call(expr) {
            Some(call) => call,
            None => {
                assert(findings@.map_values(|f: Finding| f@) =~= Seq::empty());
                return findings;
            },
        };
        if !is_path_to(func, &paths.mem_replace) || func_args.len() != 2 {
            assert(findings@.map_values(|f: Finding| f@) =~= Seq::empty());
            return findings;
        }
        let dest = &func_args[0];
        let src = &func_args[1];
        let a = check_replace_option_with_none(paths, src, dest, expr.span);
        let b = check_replace_with_uninit(paths, src, expr.span);
        let c = check_replace_with_default(paths, src, dest, expr.span);
        let ghost fa = opt_view(a);
        let ghost fb = opt_view(b);
        let ghost fc = opt_view(c);
        if let Some(f) = a {
            findings.push(f);
        }
        assert(findings@.map_values(|f: Finding| f@) =~= opt_seq(fa));
        if let Some(f) = b {
            findings.push(f);
        }
        assert(findings@.map_values(|f: Finding| f@) =~= opt_seq(fa) + opt_seq(fb));
        if let Some(f) = c {
            findings.push(f);
        }
        assert(findings@.map_values(|f: Finding| f@) =~= opt_seq(fa) + opt_seq(fb) + opt_seq(fc));
        findings
    }
}

} // verus!
