//! The resolved syntax tree that the checks read, and the shared matchers over it.

use vstd::prelude::*;

verus! {

/// An interned name.
pub type Symbol = u32;

/// A region of source text: the half-open byte range `[lo, hi)` and the syntax
/// context it was produced in.
#[derive(Clone, Copy, Debug, PartialEq, Eq, Structural)]
pub struct Span {
    pub lo: u32,
    pub hi: u32,
    /// `0` for text written in the source itself; any other value names the
    /// macro expansion that produced the text.
    pub ctxt: u32,
    /// Whether the text comes from the expansion of a macro defined in another crate.
    pub external_macro: bool,
}

impl Span {
    /// Whether the span was produced by a macro expansion.
    pub fn from_expansion(&self) -> (r: bool)
        ensures
            r == (self.ctxt != 0),
    {
        self.ctxt != 0
    }

    /// The same span, starting at `lo`.
    pub fn with_lo(&self, lo: u32) -> (r: Span)
        ensures
            r == (Span { lo, ..*self }),
    {
        Span { lo, ..*self }
    }

    /// The same span, ending at `hi`.
    pub fn with_hi(&self, hi: u32) -> (r: Span)
        ensures
            r == (Span { hi, ..*self }),
    {
        Span { hi, ..*self }
    }
}

/// Whether two spans come from different expansion contexts.
pub fn differing_macro_contexts(a: Span, b: Span) -> (r: bool)
    ensures
        r == (a.ctxt != b.ctxt),
{
    a.ctxt != b.ctxt
}

#[derive(Clone, Copy, Debug, PartialEq, Eq, Structural)]
pub enum Mutability {
    Not,
    Mut,
}

/// What the type queries of the front-end answer for the type of an expression.
#[derive(Clone, Debug)]
pub struct Ty {
    /// The canonical path of the type's definition, when it is a named type.
    pub def_path: Option<Vec<Symbol>>,
    /// A primitive numeric, `bool`, `char` or pointer-sized type.
    pub is_primitive: bool,
    /// Values of the type are duplicated by copying.
    pub is_copy: bool,
}

/// A name reference, as written and as resolved.
#[derive(Clone, Debug)]
pub struct QPath {
    /// The segments as written.
    pub segments: Vec<Symbol>,
    /// The path has a qualified self type or is relative to a type
    /// (`<T as Tr>::f`, `T::f`).
    pub qualified: bool,
    /// The canonical path of the declaration it resolves to, if it resolves.
    pub res: Option<Vec<Symbol>>,
}

#[derive(Debug)]
pub enum ExprKind {
    /// `callee(args)`
    Call(Box<Expr>, Vec<Expr>),
    /// `args[0].name(args[1..])`
    MethodCall(Symbol, Vec<Expr>),
    Path(QPath),
    /// `&inner` or `&mut inner`
    AddrOf(Mutability, Box<Expr>),
    /// A closure, with its body.
    Closure(Box<Expr>),
    Binary(Box<Expr>, Box<Expr>),
    Unary(Box<Expr>),
    Field(Box<Expr>, Symbol),
    Index(Box<Expr>, Box<Expr>),
    Lit,
}

/// An expression node: its shape, where it stands, its type, and the source
/// text of its span when the source map has it.
#[derive(Debug)]
pub struct Expr {
    pub kind: ExprKind,
    pub span: Span,
    pub ty: Ty,
    pub snippet: Option<String>,
}

#[derive(Debug)]
pub enum AttrKind {
    /// Any attribute but a doc comment.
    Normal,
    /// A doc comment, with its text.
    DocComment(String),
}

/// An attribute, with the span of its whole text.
#[derive(Debug)]
pub struct Attribute {
    pub kind: AttrKind,
    pub span: Span,
}

/// The canonical paths of the declarations that the checks look for.
#[derive(Clone, Debug)]
pub struct Paths {
    pub mem_replace: Vec<Symbol>,
    pub mem_uninitialized: Vec<Symbol>,
    pub mem_zeroed: Vec<Symbol>,
    pub default_trait_method: Vec<Symbol>,
    pub option_none: Vec<Symbol>,
    pub option: Vec<Symbol>,
}

/// Whether two canonical paths are the same.
pub fn match_path(a: &Vec<Symbol>, b: &Vec<Symbol>) -> (r: bool)
    ensures
        r == (a@ == b@),
{
    if a.len() != b.len() {
        return false;
    }
    let mut i: usize = 0;
    while i < a.len()
        invariant
            a.len() == b.len(),
            i <= a.len(),
            forall|k: int| 0 <= k < i ==> a@[k] == b@[k],
        decreases a.len() - i,
    {
        if a[i] != b[i] {
            return false;
        }
        i = i + 1;
    }
    assert(a@ =~= b@);
    true
}

/// The declaration that a path expression resolves to.
pub open spec fn spec_resolved(e: &Expr) -> Option<Seq<Symbol>> {
    match &e.kind {
        ExprKind::Path(qpath) => match &qpath.res {
            Some(d) => Some(d@),
            None => None,
        },
        _ => None,
    }
}

/// Whether `e` is a path that resolves to the declaration `def`.
pub open spec fn resolves_to(e: &Expr, def: Seq<Symbol>) -> bool {
    spec_resolved(e) == Some(def)
}

/// Whether `e` is a path that resolves to the declaration `def`.
pub fn is_path_to(e: &Expr, def: &Vec<Symbol>) -> (r: bool)
    ensures
        r == resolves_to(e, def@),
{
    match &e.kind {
        ExprKind::Path(qpath) => match &qpath.res {
            Some(d) => match_path(d, def),
            None => false,
        },
        _ => false,
    }
}

/// The callee and the arguments of a call expression.
pub fn match_call(e: &Expr) -> (r: Option<(&Expr, &Vec<Expr>)>)
    ensures
        match e.kind {
            ExprKind::Call(callee, args) => r == Some((&*callee, &args)),
            _ => r is None,
        },
{
    match &e.kind {
        ExprKind::Call(callee, args) => Some((&**callee, args)),
        _ => None,
    }
}

/// The operand of a mutable borrow.
pub fn match_borrow_mut(e: &Expr) -> (r: Option<&Expr>)
    ensures
        match e.kind {
            ExprKind::AddrOf(Mutability::Mut, inner) => r == Some(&*inner),
            _ => r is None,
        },
{
    match &e.kind {
        ExprKind::AddrOf(Mutability::Mut, inner) => Some(&**inner),
        _ => None,
    }
}

/// Whether `e` is a bare name reference: a path that is neither qualified nor a field.
pub open spec fn is_simple_path(e: &Expr) -> bool {
    e.kind matches ExprKind::Path(qpath) && !qpath.qualified
}

/// The bare name reference `e`, if it is one.
pub fn match_simple_path(e: &Expr) -> (r: Option<&QPath>)
    ensures
        is_simple_path(e) ==> r == Some(&e.kind->Path_0),
        !is_simple_path(e) ==> r is None,
{
    match &e.kind {
        ExprKind::Path(qpath) => if qpath.qualified {
            None
        } else {
            Some(qpath)
        },
        _ => None,
    }
}

} // verus!
