//! The explicit syntax model the scanner and rewriter walk.
//!
//! Annotations are plain data attached to each declaration node, scanned by
//! ordinary control flow: an attribute holds its namespace path, its raw
//! argument tokens and its span. A module declaration body is an ordered
//! statement sequence; statements that the transformer does not understand
//! are carried as opaque values and pass through rewriting untouched.

use vstd::prelude::*;
use crate::source::Span;
use crate::tokens::{Token, TokenV, tokens_view, clone_bytes, duplicate_tokens};
use crate::options::{ExportOptions, ExportOptionsV};
use crate::parser::Path;

verus! {

/// One attribute attached to a declaration: `#[<path>(<args>)]`.
#[derive(Clone, PartialEq, Eq, Debug)]
pub struct Attr {
    /// The attribute's name, e.g. `pyfn` or `pyo3`.
    pub path: Vec<u8>,
    /// The raw tokens between the attribute's parentheses.
    pub args: Vec<Token>,
    /// Where the whole attribute stands in the source.
    pub span: Span,
}

/// The mathematical value of an [`Attr`].
pub struct AttrV {
    pub path: Seq<u8>,
    pub args: Seq<TokenV>,
    pub span: Span,
}

impl View for Attr {
    type V = AttrV;

    open spec fn view(&self) -> AttrV {
        AttrV { path: self.path@, args: tokens_view(self.args@), span: self.span }
    }
}

impl Attr {
    /// An exact copy of the attribute.
    pub fn duplicate(&self) -> (r: Attr)
        ensures
            r@ == self@,
    {
        Attr { path: clone_bytes(&self.path), args: duplicate_tokens(&self.args), span: self.span }
    }
}

/// The view of an attribute list.
pub open spec fn attrs_view(s: Seq<Attr>) -> Seq<AttrV> {
    s.map_values(|a: Attr| a@)
}

/// Two attribute lists with elementwise equal views have equal views.
pub proof fn lemma_attrs_view_eq(s: Seq<Attr>, t: Seq<Attr>)
    requires
        s.len() == t.len(),
        forall|k: int| 0 <= k < s.len() ==> #[trigger] s[k]@ == t[k]@,
    ensures
        attrs_view(s) == attrs_view(t),
{
    let ms = attrs_view(s);
    let mt = attrs_view(t);
    assert forall|k: int| 0 <= k < ms.len() implies #[trigger] ms[k] == mt[k] by {
        assert(s[k]@ == t[k]@);
        assert(ms[k] == s[k]@);
        assert(mt[k] == t[k]@);
    }
    assert(ms =~= mt);
}

/// Appending one attribute appends its view.
pub proof fn lemma_attrs_view_push(s: Seq<Attr>, a: Attr)
    ensures
        attrs_view(s.push(a)) == attrs_view(s).push(a@),
{
    let lhs = attrs_view(s.push(a));
    let rhs = attrs_view(s).push(a@);
    assert forall|k: int| 0 <= k < lhs.len() implies #[trigger] lhs[k] == rhs[k] by {
        assert(lhs[k] == s.push(a)[k]@);
        if k < s.len() {
            assert(s.push(a)[k] == s[k]);
            assert(rhs[k] == attrs_view(s)[k]);
            assert(attrs_view(s)[k] == s[k]@);
        } else {
            assert(s.push(a)[k] == a);
        }
    }
    assert(lhs =~= rhs);
}

/// An exact copy of an attribute list.
pub fn duplicate_attrs(attrs: &Vec<Attr>) -> (r: Vec<Attr>)
    ensures
        attrs_view(r@) == attrs_view(attrs@),
{
    let mut r: Vec<Attr> = Vec::new();
    let mut i: usize = 0;
    while i < attrs.len()
        invariant
            i <= attrs.len(),
            r@.len() == i,
            forall|k: int| 0 <= k < i ==> #[trigger] r@[k]@ == attrs@[k]@,
        decreases attrs.len() - i,
    {
        r.push(attrs[i].duplicate());
        i = i + 1;
    }
    proof {
        lemma_attrs_view_eq(r@, attrs@);
    }
    r
}

/// A nested function declaration inside a module declaration body.
#[derive(Clone, PartialEq, Eq, Debug)]
pub struct FnDecl {
    /// The declared function's own name.
    pub name: Vec<u8>,
    /// Its attributes, in source order.
    pub attrs: Vec<Attr>,
}

/// The mathematical value of a [`FnDecl`].
pub struct FnDeclV {
    pub name: Seq<u8>,
    pub attrs: Seq<AttrV>,
}

impl View for FnDecl {
    type V = FnDeclV;

    open spec fn view(&self) -> FnDeclV {
        FnDeclV { name: self.name@, attrs: attrs_view(self.attrs@) }
    }
}

/// The synthesized registration statement spliced in front of an annotated
/// function: its structured form says which function, under which merged
/// options, is added as an attribute of which target module. The external
/// emitter renders it as "define the wrapper built for the function, then
/// add it to the target module, propagating any registration failure".
#[derive(Clone, PartialEq, Eq, Debug)]
pub struct Registration {
    /// The module object the function is registered into.
    pub target_module: Path,
    /// The annotated function the wrapper is built from.
    pub function_name: Vec<u8>,
    /// The merged export options handed to the wrapper builder.
    pub options: ExportOptions,
}

/// The mathematical value of a [`Registration`].
pub struct RegistrationV {
    pub target_module: Seq<Seq<u8>>,
    pub function_name: Seq<u8>,
    pub options: ExportOptionsV,
}

impl View for Registration {
    type V = RegistrationV;

    open spec fn view(&self) -> RegistrationV {
        RegistrationV {
            target_module: self.target_module@,
            function_name: self.function_name@,
            options: self.options@,
        }
    }
}

/// One statement of a declaration body.
#[derive(Clone, PartialEq, Eq, Debug)]
pub enum Stmt {
    /// A nested function declaration, the only statement kind the scanner
    /// inspects.
    Fn(FnDecl),
    /// Any other statement, carried through by identity.
    Other(u64),
    /// A synthesized registration statement.
    Registration(Registration),
}

/// The mathematical value of a [`Stmt`].
pub enum StmtV {
    Fn(FnDeclV),
    Other(u64),
    Registration(RegistrationV),
}

impl View for Stmt {
    type V = StmtV;

    open spec fn view(&self) -> StmtV {
        match self {
            Stmt::Fn(f) => StmtV::Fn(f@),
            Stmt::Other(id) => StmtV::Other(*id),
            Stmt::Registration(r) => StmtV::Registration(r@),
        }
    }
}

impl Stmt {
    /// An exact copy of the statement.
    pub fn duplicate(&self) -> (r: Stmt)
        ensures
            r@ == self@,
    {
        match self {
            Stmt::Fn(f) => Stmt::Fn(
                FnDecl { name: clone_bytes(&f.name), attrs: duplicate_attrs(&f.attrs) },
            ),
            Stmt::Other(id) => Stmt::Other(*id),
            Stmt::Registration(r) => Stmt::Registration(
                Registration {
                    target_module: r.target_module.duplicate(),
                    function_name: clone_bytes(&r.function_name),
                    options: r.options.duplicate(),
                },
            ),
        }
    }
}

/// The view of a statement sequence.
pub open spec fn stmts_view(s: Seq<Stmt>) -> Seq<StmtV> {
    s.map_values(|st: Stmt| st@)
}

/// Appending one statement appends its view.
pub proof fn lemma_stmts_view_push(s: Seq<Stmt>, st: Stmt)
    ensures
        stmts_view(s.push(st)) == stmts_view(s).push(st@),
{
    let lhs = stmts_view(s.push(st));
    let rhs = stmts_view(s).push(st@);
    assert forall|k: int| 0 <= k < lhs.len() implies #[trigger] lhs[k] == rhs[k] by {
        assert(lhs[k] == s.push(st)[k]@);
        if k < s.len() {
            assert(s.push(st)[k] == s[k]);
            assert(rhs[k] == stmts_view(s)[k]);
            assert(stmts_view(s)[k] == s[k]@);
        } else {
            assert(s.push(st)[k] == st);
        }
    }
    assert(lhs =~= rhs);
}

/// A module declaration: the function the user wrote, whose body the
/// rewriter walks.
#[derive(Clone, PartialEq, Eq, Debug)]
pub struct ItemFn {
    /// The declared module initializer's name.
    pub name: Vec<u8>,
    /// The statements of its body, in source order.
    pub stmts: Vec<Stmt>,
}

/// The mathematical value of an [`ItemFn`].
pub struct ItemFnV {
    pub name: Seq<u8>,
    pub stmts: Seq<StmtV>,
}

impl View for ItemFn {
    type V = ItemFnV;

    open spec fn view(&self) -> ItemFnV {
        ItemFnV { name: self.name@, stmts: stmts_view(self.stmts@) }
    }
}

} // verus!
