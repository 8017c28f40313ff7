//! The set of names that a subtree refers to.
//!
//! The collection is purely syntactic: it records the last segment of every
//! path in the subtree, with no regard for scopes or bindings, so that it errs
//! only on the side of seeing a shared name where there is none.

use crate::tree::{Expr, ExprKind, Symbol};
use vstd::prelude::*;

verus! {

/// The names that the paths in `e` end with.
pub open spec fn idents(e: Expr) -> Set<Symbol>
    decreases e,
{
    match e.kind {
        ExprKind::Call(callee, args) => idents(*callee).union(idents_list(args@)),
        ExprKind::MethodCall(_, args) => idents_list(args@),
        ExprKind::Path(qpath) => if qpath.segments.len() > 0 {
            set![qpath.segments@.last()]
        } else {
            Set::empty()
        },
        ExprKind::AddrOf(_, inner) => idents(*inner),
        ExprKind::Closure(body) => idents(*body),
        ExprKind::Binary(l, r) => idents(*l).union(idents(*r)),
        ExprKind::Unary(inner) => idents(*inner),
        ExprKind::Field(base, _) => idents(*base),
        ExprKind::Index(base, index) => idents(*base).union(idents(*index)),
        ExprKind::Lit => Set::empty(),
    }
}

/// The names that the paths in any of `es` end with.
pub open spec fn idents_list(es: Seq<Expr>) -> Set<Symbol>
    decreases es,
{
    if es.len() == 0 {
        Set::empty()
    } else {
        idents_list(es.drop_last()).union(idents(es.last()))
    }
}

/// Adds to `ids` the names that the paths in `e` end with.
pub fn collect_idents(e: &Expr, ids: &mut Vec<Symbol>)
    ensures
        final(ids)@.to_set() == old(ids)@.to_set().union(idents(*e)),
    decreases e,
{
    match &e.kind {
        ExprKind::Call(callee, args) => {
            collect_idents(callee, ids);
            collect_idents_list(args, ids);
        },
        ExprKind::MethodCall(_, args) => {
            collect_idents_list(args, ids);
        },
        ExprKind::Path(qpath) => {
            if qpath.segments.len() > 0 {
                let ghost before = ids@;
                ids.push(qpath.segments[qpath.segments.len() - 1]);
                proof {
                    before.lemma_push_to_set_commute(qpath.segments@.last());
                }
            }
        },
        ExprKind::AddrOf(_, inner) => collect_idents(inner, ids),
        ExprKind::Closure(body) => collect_idents(body, ids),
        ExprKind::Binary(l, r) => {
            collect_idents(l, ids);
            collect_idents(r, ids);
        },
        ExprKind::Unary(inner) => collect_idents(inner, ids),
        ExprKind::Field(base, _) => collect_idents(base, ids),
        ExprKind::Index(base, index) => {
            collect_idents(base, ids);
            collect_idents(index, ids);
        },
        ExprKind::Lit => {},
    }
    assert(final(ids)@.to_set() =~= old(ids)@.to_set().union(idents(*e)));
}

fn collect_idents_list(es: &Vec<Expr>, ids: &mut Vec<Symbol>)
    ensures
        final(ids)@.to_set() == old(ids)@.to_set().union(idents_list(es@)),
    decreases es,
{
    let mut i: usize = 0;
    while i < es.len()
        invariant
            i <= es.len(),
            ids@.to_set() == old(ids)@.to_set().union(idents_list(es@.take(i as int))),
        decreases es.len() - i,
    {
        collect_idents(&es[i], ids);
        assert(es@.take(i + 1).drop_last() == es@.take(i as int));
        i = i + 1;
        assert(ids@.to_set() =~= old(ids)@.to_set().union(idents_list(es@.take(i as int))));
    }
    assert(es@.take(es.len() as int) == es@);
}

/// Whether some name is referred to both in `a` and in `b`.
pub fn shares_ident(a: &Expr, b: &Expr) -> (r: bool)
    ensures
        r == exists|s: Symbol| idents(*a).contains(s) && idents(*b).contains(s),
{
    let mut in_a: Vec<Symbol> = Vec::new();
    collect_idents(a, &mut in_a);
    let mut in_b: Vec<Symbol> = Vec::new();
    collect_idents(b, &mut in_b);
    assert(in_a@.to_set() =~= idents(*a));
    assert(in_b@.to_set() =~= idents(*b));
    let mut i: usize = 0;
    while i < in_a.len()
        invariant
            i <= in_a.len(),
            in_a@.to_set() == idents(*a),
            in_b@.to_set() == idents(*b),
            forall|k: int| 0 <= k < i ==> !in_b@.contains(#[trigger] in_a@[k]),
        decreases in_a.len() - i,
    {
        let mut j: usize = 0;
        while j < in_b.len()
            invariant
                j <= in_b.len(),
                in_a@.to_set() == idents(*a),
                in_b@.to_set() == idents(*b),
                i < in_a.len(),
                forall|k: int| 0 <= k < j ==> in_b@[k] != in_a@[i as int],
            decreases in_b.len() - j,
        {
            if in_a[i] == in_b[j] {
                let ghost x = in_a@[i as int];
                assert(in_a@.contains(x));
                assert(in_b@[j as int] == x);
                assert(in_b@.contains(x));
                assert(in_a@.to_set().contains(x));
                assert(in_b@.to_set().contains(x));
                assert(idents(*a).contains(x) && idents(*b).contains(x));
                return true;
            }
            j = j + 1;
        }
        i = i + 1;
    }
    assert forall|s: Symbol| idents(*a).contains(s) implies !idents(*b).contains(s) by {
        let k = in_a@.index_of(s);
    }
    false
}

} // verus!
