use clippy_lints::finding::{Applicability, Finding, Lint};
use clippy_lints::idents::shares_ident;
use clippy_lints::mem_replace::MemReplace;
use clippy_lints::option_map_unwrap_or::lint;
use clippy_lints::tabs_in_doc_comments::{four_spaces_per_tab, TabsInDocComments};
use clippy_lints::tree::{
    match_path, AttrKind, Attribute, Expr, ExprKind, Mutability, Paths, QPath, Span, Symbol, Ty,
};

const CORE: Symbol = 1;
const MEM: Symbol = 2;
const REPLACE: Symbol = 3;
const OPTION_MOD: Symbol = 4;
const OPTION: Symbol = 5;
const NONE: Symbol = 6;
const UNINITIALIZED: Symbol = 7;
const ZEROED: Symbol = 8;
const DEFAULT_MOD: Symbol = 9;
const DEFAULT: Symbol = 10;
const DEFAULT_FN: Symbol = 11;
const STRING: Symbol = 12;
const X: Symbol = 20;
const V: Symbol = 21;
const I: Symbol = 22;
const TEXT: Symbol = 23;
const OPT: Symbol = 24;
const DEFAULT_VAL: Symbol = 25;
const F: Symbol = 26;

fn paths() -> Paths {
    Paths {
        mem_replace: vec![CORE, MEM, REPLACE],
        mem_uninitialized: vec![CORE, MEM, UNINITIALIZED],
        mem_zeroed: vec![CORE, MEM, ZEROED],
        default_trait_method: vec![CORE, DEFAULT_MOD, DEFAULT, DEFAULT_FN],
        option_none: vec![CORE, OPTION_MOD, OPTION, NONE],
        option: vec![CORE, OPTION_MOD, OPTION],
    }
}

fn sp(lo: u32, hi: u32) -> Span {
    Span { lo, hi, ctxt: 0, external_macro: false }
}

fn ty() -> Ty {
    Ty { def_path: None, is_primitive: false, is_copy: false }
}

fn node(kind: ExprKind, span: Span, text: &str) -> Expr {
    Expr { kind, span, ty: ty(), snippet: Some(text.to_string()) }
}

fn path(segments: Vec<Symbol>, res: Option<Vec<Symbol>>, span: Span, text: &str) -> Expr {
    node(ExprKind::Path(QPath { segments, qualified: false, res }), span, text)
}

fn local(name: Symbol, span: Span, text: &str) -> Expr {
    path(vec![name], None, span, text)
}

fn borrow_mut(inner: Expr, span: Span, text: &str) -> Expr {
    node(ExprKind::AddrOf(Mutability::Mut, Box::new(inner)), span, text)
}

fn call(callee: Expr, args: Vec<Expr>, span: Span, text: &str) -> Expr {
    node(ExprKind::Call(Box::new(callee), args), span, text)
}

fn replace_call(dest: Expr, src: Expr, span: Span, text: &str) -> Expr {
    let callee = path(vec![MEM, REPLACE], Some(vec![CORE, MEM, REPLACE]), sp(0, 12), "mem::replace");
    call(callee, vec![dest, src], span, text)
}

/// Applies non-overlapping edits to an ASCII source text.
fn apply(source: &str, finding: &Finding) -> String {
    let mut edits: Vec<(u32, u32, String)> = finding
        .suggestions
        .iter()
        .map(|s| (s.span.lo, s.span.hi, s.replacement.clone()))
        .collect();
    edits.sort_by(|a, b| b.0.cmp(&a.0));
    let mut out = source.to_string();
    for (lo, hi, text) in edits {
        out.replace_range(lo as usize..hi as usize, &text);
    }
    out
}

#[test]
fn replace_option_with_none_on_a_local() {
    // mem::replace(&mut x, None)
    let source = "mem::replace(&mut x, None)";
    let dest = borrow_mut(local(X, sp(18, 19), "x"), sp(13, 19), "&mut x");
    let src = path(vec![NONE], Some(vec![CORE, OPTION_MOD, OPTION, NONE]), sp(21, 25), "None");
    let expr = replace_call(dest, src, sp(0, 26), source);
    let findings = MemReplace.check_expr(&paths(), &expr);
    assert_eq!(findings.len(), 1);
    let f = &findings[0];
    assert_eq!(f.lint, Lint::MemReplaceOptionWithNone);
    assert_eq!(f.span, sp(0, 26));
    assert_eq!(f.message, "replacing an `Option` with `None`");
    assert_eq!(f.help.as_deref(), Some("consider `Option::take()` instead"));
    assert_eq!(f.suggestions.len(), 1);
    assert_eq!(f.suggestions[0].span, sp(0, 26));
    assert_eq!(f.suggestions[0].replacement, "x.take()");
    assert_eq!(f.applicability, Applicability::MachineApplicable);
    assert_eq!(apply(source, f), "x.take()");
}

#[test]
fn replace_option_with_none_on_an_index_is_not_reported() {
    // mem::replace(&mut v[i], None)
    let place = node(
        ExprKind::Index(Box::new(local(V, sp(18, 19), "v")), Box::new(local(I, sp(20, 21), "i"))),
        sp(18, 22),
        "v[i]",
    );
    let dest = borrow_mut(place, sp(13, 22), "&mut v[i]");
    let src = path(vec![NONE], Some(vec![CORE, OPTION_MOD, OPTION, NONE]), sp(24, 28), "None");
    let expr = replace_call(dest, src, sp(0, 29), "mem::replace(&mut v[i], None)");
    assert!(MemReplace.check_expr(&paths(), &expr).is_empty());
}

#[test]
fn replace_option_with_none_without_source_text_has_placeholders() {
    let mut place = local(X, sp(18, 19), "x");
    place.snippet = None;
    let dest = borrow_mut(place, sp(13, 19), "&mut x");
    let src = path(vec![NONE], Some(vec![CORE, OPTION_MOD, OPTION, NONE]), sp(21, 25), "None");
    let expr = replace_call(dest, src, sp(0, 26), "mem::replace(&mut x, None)");
    let findings = MemReplace.check_expr(&paths(), &expr);
    assert_eq!(findings.len(), 1);
    assert_eq!(findings[0].suggestions[0].replacement, ".take()");
    assert_eq!(findings[0].applicability, Applicability::HasPlaceholders);
}

fn default_call() -> Expr {
    let callee = path(
        vec![STRING, DEFAULT_FN],
        Some(vec![CORE, DEFAULT_MOD, DEFAULT, DEFAULT_FN]),
        sp(24, 39),
        "String::default",
    );
    call(callee, vec![], sp(24, 41), "String::default()")
}

#[test]
fn replace_with_default_suggests_take() {
    // mem::replace(&mut text, String::default())
    let source = "mem::replace(&mut text, String::default())";
    let dest = borrow_mut(local(TEXT, sp(18, 22), "text"), sp(13, 22), "&mut text");
    let expr = replace_call(dest, default_call(), sp(0, 42), source);
    let findings = MemReplace.check_expr(&paths(), &expr);
    assert_eq!(findings.len(), 1);
    let f = &findings[0];
    assert_eq!(f.lint, Lint::MemReplaceWithDefault);
    assert_eq!(
        f.message,
        "replacing a value of type `T` with `T::default()` is better expressed using `std::mem::take`"
    );
    assert_eq!(f.suggestions.len(), 1);
    assert_eq!(f.suggestions[0].replacement, "std::mem::take(&mut text)");
    assert_eq!(f.applicability, Applicability::MachineApplicable);
    assert_eq!(apply(source, f), "std::mem::take(&mut text)");
}

#[test]
fn replace_with_default_in_a_macro_has_no_edit() {
    let dest = borrow_mut(local(TEXT, sp(18, 22), "text"), sp(13, 22), "&mut text");
    let span = Span { lo: 0, hi: 42, ctxt: 3, external_macro: false };
    let expr = replace_call(dest, default_call(), span, "mem::replace(&mut text, String::default())");
    let findings = MemReplace.check_expr(&paths(), &expr);
    assert_eq!(findings.len(), 1);
    assert_eq!(findings[0].lint, Lint::MemReplaceWithDefault);
    assert!(findings[0].suggestions.is_empty());
    assert_eq!(findings[0].help, None);
}

#[test]
fn replace_with_default_in_an_external_macro_is_not_reported() {
    let dest = borrow_mut(local(TEXT, sp(18, 22), "text"), sp(13, 22), "&mut text");
    let span = Span { lo: 0, hi: 42, ctxt: 3, external_macro: true };
    let expr = replace_call(dest, default_call(), span, "mem::replace(&mut text, String::default())");
    assert!(MemReplace.check_expr(&paths(), &expr).is_empty());
}

fn nullary(def: Symbol, primitive: bool) -> Expr {
    let callee = path(vec![MEM, def], Some(vec![CORE, MEM, def]), sp(24, 36), "mem::zeroed");
    let mut e = call(callee, vec![], sp(24, 38), "mem::zeroed()");
    e.ty.is_primitive = primitive;
    e
}

#[test]
fn replace_with_uninitialized_is_reported() {
    let dest = borrow_mut(local(X, sp(18, 19), "x"), sp(13, 19), "&mut x");
    let expr = replace_call(dest, nullary(UNINITIALIZED, true), sp(0, 39), "");
    let findings = MemReplace.check_expr(&paths(), &expr);
    assert_eq!(findings.len(), 1);
    assert_eq!(findings[0].lint, Lint::MemReplaceWithUninit);
    assert_eq!(findings[0].message, "replacing with `mem::uninitialized()`");
    assert_eq!(findings[0].help.as_deref(), Some("consider using the `take_mut` crate instead"));
    assert!(findings[0].suggestions.is_empty());
}

#[test]
fn replace_with_zeroed_is_reported_only_for_non_primitives() {
    let dest = borrow_mut(local(X, sp(18, 19), "x"), sp(13, 19), "&mut x");
    let expr = replace_call(dest, nullary(ZEROED, true), sp(0, 39), "");
    assert!(MemReplace.check_expr(&paths(), &expr).is_empty());

    let dest = borrow_mut(local(X, sp(18, 19), "x"), sp(13, 19), "&mut x");
    let expr = replace_call(dest, nullary(ZEROED, false), sp(0, 39), "");
    let findings = MemReplace.check_expr(&paths(), &expr);
    assert_eq!(findings.len(), 1);
    assert_eq!(findings[0].message, "replacing with `mem::zeroed()`");
}

#[test]
fn other_calls_are_not_reported() {
    let callee = path(vec![F], Some(vec![F]), sp(0, 1), "f");
    let dest = borrow_mut(local(X, sp(4, 5), "x"), sp(2, 5), "&mut x");
    let src = path(vec![NONE], Some(vec![CORE, OPTION_MOD, OPTION, NONE]), sp(7, 11), "None");
    let expr = call(callee, vec![dest, src], sp(0, 12), "f(&mut x, None)");
    assert!(MemReplace.check_expr(&paths(), &expr).is_empty());
}

fn option_local(name: Symbol, span: Span, text: &str) -> Expr {
    let mut e = local(name, span, text);
    e.ty.def_path = Some(vec![CORE, OPTION_MOD, OPTION]);
    e
}

/// `opt.map(<closure>).unwrap_or(<default>)`, with `opt` at 0..3, `map` at
/// 4..7, the closure from 8, and the default after `.unwrap_or(`.
fn map_unwrap_or(closure: Expr, default: Expr, source: &str) -> Option<Finding> {
    let recv = option_local(OPT, sp(0, 3), "opt");
    let map_end = closure.span.hi + 1;
    let map_args = vec![recv, closure];
    let map_call_text = &source[..map_end as usize];
    let map_call = node(ExprKind::Lit, sp(0, map_end), map_call_text);
    let unwrap_args = vec![map_call, default];
    lint(&paths(), sp(0, source.len() as u32), &map_args, &unwrap_args, sp(4, 7))
}

fn closure_v_plus_one() -> Expr {
    // |v| v + 1
    let body = node(
        ExprKind::Binary(Box::new(local(V, sp(12, 13), "v")), Box::new(node(ExprKind::Lit, sp(16, 17), "1"))),
        sp(12, 17),
        "v + 1",
    );
    node(ExprKind::Closure(Box::new(body)), sp(8, 17), "|v| v + 1")
}

#[test]
fn map_unwrap_or_with_a_copied_default() {
    let source = "opt.map(|v| v + 1).unwrap_or(0)";
    let mut zero = node(ExprKind::Lit, sp(29, 30), "0");
    zero.ty.is_copy = true;
    let f = map_unwrap_or(closure_v_plus_one(), zero, source).unwrap();
    assert_eq!(f.lint, Lint::OptionMapUnwrapOr);
    assert_eq!(
        f.message,
        "called `map(f).unwrap_or(a)` on an Option value. This can be done more directly by calling `map_or(a, f)` instead"
    );
    assert_eq!(f.help.as_deref(), Some("use `map_or(a, f)` instead"));
    assert_eq!(f.suggestions.len(), 3);
    assert_eq!(f.suggestions[0].replacement, "map_or");
    assert_eq!(f.suggestions[1].span, sp(18, 31));
    assert_eq!(f.suggestions[2].span, sp(8, 8));
    assert_eq!(f.suggestions[2].replacement, "0, ");
    assert_eq!(f.applicability, Applicability::MachineApplicable);
    assert_eq!(apply(source, &f), "opt.map_or(0, |v| v + 1)");
}

fn closure_identity() -> Expr {
    // |v| v
    node(ExprKind::Closure(Box::new(local(V, sp(12, 13), "v"))), sp(8, 13), "|v| v")
}

#[test]
fn map_unwrap_or_with_an_unrelated_moved_default() {
    let source = "opt.map(|v| v).unwrap_or(default_val)";
    let default = local(DEFAULT_VAL, sp(25, 36), "default_val");
    let f = map_unwrap_or(closure_identity(), default, source).unwrap();
    assert_eq!(apply(source, &f), "opt.map_or(default_val, |v| v)");
}

#[test]
fn map_unwrap_or_with_a_default_sharing_a_name_is_not_reported() {
    let source = "opt.map(|v| v).unwrap_or(v)";
    let default = local(V, sp(25, 26), "v");
    assert!(map_unwrap_or(closure_identity(), default, source).is_none());
}

#[test]
fn map_unwrap_or_with_a_copied_default_sharing_a_name() {
    let source = "opt.map(|v| v).unwrap_or(v)";
    let mut default = local(V, sp(25, 26), "v");
    default.ty.is_copy = true;
    let f = map_unwrap_or(closure_identity(), default, source).unwrap();
    assert_eq!(apply(source, &f), "opt.map_or(v, |v| v)");
}

#[test]
fn map_unwrap_or_none_becomes_and_then() {
    let source = "opt.map(f).unwrap_or(None)";
    let f_arg = local(F, sp(8, 9), "f");
    let none = path(vec![NONE], Some(vec![CORE, OPTION_MOD, OPTION, NONE]), sp(21, 25), "None");
    let f = map_unwrap_or(f_arg, none, source).unwrap();
    assert_eq!(
        f.message,
        "called `map(f).unwrap_or(None)` on an Option value. This can be done more directly by calling `and_then(f)` instead"
    );
    assert_eq!(f.suggestions.len(), 2);
    assert_eq!(f.suggestions[0].replacement, "and_then");
    assert_eq!(apply(source, &f), "opt.and_then(f)");
}

#[test]
fn map_unwrap_or_on_another_type_is_not_reported() {
    let recv = local(OPT, sp(0, 3), "opt");
    let map_args = vec![recv, local(F, sp(8, 9), "f")];
    let unwrap_args = vec![node(ExprKind::Lit, sp(0, 10), "opt.map(f)"), node(ExprKind::Lit, sp(21, 22), "0")];
    assert!(lint(&paths(), sp(0, 23), &map_args, &unwrap_args, sp(4, 7)).is_none());
}

#[test]
fn map_unwrap_or_across_macro_contexts_is_not_reported() {
    let source = "opt.map(f).unwrap_or(0)";
    let mut zero = node(ExprKind::Lit, sp(21, 22), "0");
    zero.ty.is_copy = true;
    zero.span.ctxt = 2;
    assert!(map_unwrap_or(local(F, sp(8, 9), "f"), zero, source).is_none());
}

#[test]
fn shared_names_are_found_in_nested_calls() {
    let a = call(local(F, sp(0, 1), "f"), vec![local(X, sp(2, 3), "x")], sp(0, 4), "f(x)");
    let b = node(ExprKind::Unary(Box::new(local(X, sp(5, 6), "x"))), sp(4, 6), "-x");
    let c = local(V, sp(7, 8), "v");
    assert!(shares_ident(&a, &b));
    assert!(!shares_ident(&a, &c));
}

#[test]
fn paths_compare_by_segments() {
    assert!(match_path(&vec![1, 2, 3], &vec![1, 2, 3]));
    assert!(!match_path(&vec![1, 2, 3], &vec![1, 2]));
    assert!(!match_path(&vec![1, 2, 3], &vec![1, 2, 4]));
}

#[test]
fn tabs_in_a_doc_comment_are_reported_per_run() {
    let attr = Attribute {
        kind: AttrKind::DocComment("a\tb\t\t".to_string()),
        span: Span { lo: 100, hi: 108, ctxt: 0, external_macro: false },
    };
    let findings = TabsInDocComments.check_attribute(&attr);
    assert_eq!(findings.len(), 2);
    assert_eq!(findings[0].span, sp(101, 102));
    assert_eq!(findings[0].suggestions[0].replacement, "    ");
    assert_eq!(findings[1].span, sp(103, 105));
    assert_eq!(findings[1].suggestions[0].replacement, "        ");
    assert_eq!(findings[1].message, "using tabs in doc comments is not recommended");
    assert_eq!(findings[1].applicability, Applicability::MaybeIncorrect);
}

#[test]
fn other_attributes_are_not_scanned() {
    let attr = Attribute { kind: AttrKind::Normal, span: sp(0, 10) };
    assert!(TabsInDocComments.check_attribute(&attr).is_empty());
}

#[test]
fn four_spaces_for_each_tab() {
    assert_eq!(four_spaces_per_tab(0), "");
    assert_eq!(four_spaces_per_tab(3), "            ");
}
