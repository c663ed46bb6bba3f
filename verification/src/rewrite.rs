//! The function-in-module scanner and rewriter.
//!
//! The rewriter walks the statement sequence of a module declaration body in
//! original order. For each nested function declaration carrying the export
//! annotation it parses and merges the annotation's arguments, strips the
//! annotations of this system's own namespace from the function, and splices
//! a synthesized registration statement immediately before the function.
//! Every other statement is carried through unchanged, in its original
//! relative order. Rewriting never mutates its input mid-iteration: it
//! builds a fresh output sequence, and on an error the input is untouched.

use vstd::prelude::*;
use crate::errors::Error;
use crate::tokens::clone_bytes;
use crate::options::{ExportOptions, ExportOptionsV, spec_parse_options, parse_options_from};
use crate::parser::{PyFnArgs, PyFnArgsV, spec_parse_pyfn_args};
use crate::ast::{
    Attr, AttrV, attrs_view, lemma_attrs_view_push, FnDecl, FnDeclV,
    Registration, RegistrationV, Stmt, StmtV, stmts_view, lemma_stmts_view_push, ItemFn,
    duplicate_attrs,
};

verus! {

/// The text of the export annotation's name.
pub open spec fn pyfn_kw() -> Seq<u8> {
    seq![('p' as u8), ('y' as u8), ('f' as u8), ('n' as u8)]
}

/// The text of this system's generic options annotation's name.
pub open spec fn pyo3_kw() -> Seq<u8> {
    seq![('p' as u8), ('y' as u8), ('o' as u8), ('3' as u8)]
}

/// Whether an attribute is the export annotation.
pub open spec fn is_pyfn_attr(a: AttrV) -> bool {
    a.path == pyfn_kw()
}

/// Whether an attribute belongs to this system's generic options namespace.
pub open spec fn is_pyo3_attr(a: AttrV) -> bool {
    a.path == pyo3_kw()
}

/// Decides whether a byte string is the export annotation's name.
pub fn is_pyfn_name(text: &Vec<u8>) -> (r: bool)
    ensures
        r == (text@ == pyfn_kw()),
{
    let r = text.len() == 4 && text[0] == ('p' as u8) && text[1] == ('y' as u8) && text[2] == ('f'
        as u8) && text[3] == ('n' as u8);
    proof {
        if r {
            assert(text@ =~= pyfn_kw());
        }
    }
    r
}

/// Decides whether a byte string is the generic options annotation's name.
pub fn is_pyo3_name(text: &Vec<u8>) -> (r: bool)
    ensures
        r == (text@ == pyo3_kw()),
{
    let r = text.len() == 4 && text[0] == ('p' as u8) && text[1] == ('y' as u8) && text[2] == ('o'
        as u8) && text[3] == ('3' as u8);
    proof {
        if r {
            assert(text@ =~= pyo3_kw());
        }
    }
    r
}

/// The position of the first export annotation in an attribute list.
pub open spec fn spec_find_pyfn(attrs: Seq<AttrV>) -> Option<int>
    decreases attrs.len(),
{
    if attrs.len() == 0 {
        None
    } else if is_pyfn_attr(attrs[0]) {
        Some(0)
    } else {
        match spec_find_pyfn(attrs.skip(1)) {
            None => None,
            Some(i) => Some(i + 1),
        }
    }
}

/// What folding the generic options annotations of an attribute list onto
/// an already-parsed name override yields, in source order.
pub open spec fn spec_apply_pyo3_attrs(attrs: Seq<AttrV>, name: Option<Seq<u8>>) -> Result<
    Option<Seq<u8>>,
    Error,
>
    decreases attrs.len(),
{
    if attrs.len() == 0 {
        Ok(name)
    } else {
        let next = if is_pyo3_attr(attrs[0]) {
            spec_parse_options(attrs[0].args, name)
        } else {
            Ok(name)
        };
        match next {
            Err(e) => Err(e),
            Ok(n2) => spec_apply_pyo3_attrs(attrs.skip(1), n2),
        }
    }
}

/// An attribute list with every annotation of this system's own namespace
/// removed; unrelated attributes stay, in order.
pub open spec fn spec_strip_attrs(attrs: Seq<AttrV>) -> Seq<AttrV>
    decreases attrs.len(),
{
    if attrs.len() == 0 {
        Seq::empty()
    } else {
        let rest = spec_strip_attrs(attrs.skip(1));
        if is_pyfn_attr(attrs[0]) || is_pyo3_attr(attrs[0]) {
            rest
        } else {
            seq![attrs[0]] + rest
        }
    }
}

/// What extracting the export annotation from a function's attribute list
/// yields: nothing when the annotation is absent; otherwise the merged
/// export descriptor together with the stripped attribute list. A second
/// occurrence of the annotation is an error at its own span, whatever
/// either occurrence's arguments hold.
pub open spec fn spec_get_pyfn(attrs: Seq<AttrV>) -> Result<
    Option<(PyFnArgsV, Seq<AttrV>)>,
    Error,
> {
    match spec_find_pyfn(attrs) {
        None => Ok(None),
        Some(i) => match spec_find_pyfn(attrs.skip(i + 1)) {
            Some(d) => Err(
                Error::DuplicateAnnotationError { span: attrs[i + 1 + d].span },
            ),
            None => match spec_parse_pyfn_args(attrs[i].args) {
                Err(e) => Err(e),
                Ok(args) => {
                    let others = attrs.take(i) + attrs.skip(i + 1);
                    match spec_apply_pyo3_attrs(others, args.options.name_override) {
                        Err(e) => Err(e),
                        Ok(name) => Ok(
                            Some(
                                (
                                    PyFnArgsV {
                                        modname: args.modname,
                                        options: ExportOptionsV {
                                            name_override: name,
                                            deprecations: args.options.deprecations,
                                        },
                                    },
                                    spec_strip_attrs(others),
                                ),
                            ),
                        ),
                    }
                },
            },
        },
    }
}

/// Finds the first export annotation at or after position `i`.
fn find_pyfn_from(attrs: &Vec<Attr>, i: usize) -> (r: Option<usize>)
    requires
        i <= attrs.len(),
    ensures
        (match r {
            Some(j) => {
                &&& i <= j < attrs.len()
                &&& spec_find_pyfn(attrs_view(attrs@).skip(i as int)) == Some(j - i)
                &&& is_pyfn_attr(attrs_view(attrs@)[j as int])
            },
            None => spec_find_pyfn(attrs_view(attrs@).skip(i as int)) is None,
        }),
    decreases attrs.len() - i,
{
    let ghost gattrs = attrs_view(attrs@).skip(i as int);
    proof {
        assert(forall|k: int| 0 <= k < gattrs.len() ==> #[trigger] gattrs[k] == attrs@[i + k]@);
    }
    if i == attrs.len() {
        return None;
    }
    if is_pyfn_name(&attrs[i].path) {
        return Some(i);
    }
    proof {
        assert(gattrs.skip(1) =~= attrs_view(attrs@).skip(i + 1));
    }
    find_pyfn_from(attrs, i + 1)
}

/// Folds the generic options annotations found from position `i` on onto
/// the override accumulated in `acc`.
fn apply_pyo3_from(attrs: &Vec<Attr>, i: usize, acc: Option<Vec<u8>>) -> (r: Result<
    Option<Vec<u8>>,
    Error,
>)
    requires
        i <= attrs.len(),
    ensures
        (match r {
            Ok(name) => {
                &&& spec_apply_pyo3_attrs(
                    attrs_view(attrs@).skip(i as int),
                    crate::options::opt_bytes_view(acc),
                ) matches Ok(n)
                &&& crate::options::opt_bytes_view(name) == n
            },
            Err(e) => spec_apply_pyo3_attrs(
                attrs_view(attrs@).skip(i as int),
                crate::options::opt_bytes_view(acc),
            ) == Err::<Option<Seq<u8>>, Error>(e),
        }),
    decreases attrs.len() - i,
{
    let ghost gattrs = attrs_view(attrs@).skip(i as int);
    proof {
        assert(forall|k: int| 0 <= k < gattrs.len() ==> #[trigger] gattrs[k] == attrs@[i + k]@);
    }
    if i == attrs.len() {
        return Ok(acc);
    }
    proof {
        assert(gattrs.skip(1) =~= attrs_view(attrs@).skip(i + 1));
    }
    let acc2 = if is_pyo3_name(&attrs[i].path) {
        match parse_options_from(&attrs[i].args, 0, acc) {
            Ok(n2) => n2,
            Err(e) => {
                proof {
                    assert(attrs@[i as int]@.args.skip(0) =~= attrs@[i as int]@.args);
                }
                return Err(e);
            },
        }
    } else {
        acc
    };
    proof {
        assert(attrs@[i as int]@.args.skip(0) =~= attrs@[i as int]@.args);
    }
    apply_pyo3_from(attrs, i + 1, acc2)
}

/// Copies the attributes from position `i` on into `out`, dropping those of
/// this system's own namespace.
fn strip_attrs_from(attrs: &Vec<Attr>, i: usize, out: &mut Vec<Attr>)
    requires
        i <= attrs.len(),
    ensures
        attrs_view(final(out)@) == attrs_view(old(out)@) + spec_strip_attrs(
            attrs_view(attrs@).skip(i as int),
        ),
    decreases attrs.len() - i,
{
    let ghost gattrs = attrs_view(attrs@).skip(i as int);
    proof {
        assert(forall|k: int| 0 <= k < gattrs.len() ==> #[trigger] gattrs[k] == attrs@[i + k]@);
    }
    if i == attrs.len() {
        proof {
            assert(attrs_view(out@) =~= attrs_view(out@) + spec_strip_attrs(gattrs));
        }
        return ;
    }
    proof {
        assert(gattrs.skip(1) =~= attrs_view(attrs@).skip(i + 1));
    }
    let keep = !is_pyfn_name(&attrs[i].path) && !is_pyo3_name(&attrs[i].path);
    if keep {
        out.push(attrs[i].duplicate());
        proof {
            lemma_attrs_view_push(old(out)@, out@.last());
        }
    }
    let ghost mid = out@;
    strip_attrs_from(attrs, i + 1, out);
    proof {
        if keep {
            assert(attrs_view(out@) =~= attrs_view(old(out)@) + (seq![gattrs[0]]
                + spec_strip_attrs(gattrs.skip(1))));
        } else {
            assert(attrs_view(out@) =~= attrs_view(old(out)@) + spec_strip_attrs(gattrs.skip(1)));
        }
    }
}

/// The attribute list with the element at position `i` removed.
fn remove_attr_at(attrs: &Vec<Attr>, i: usize) -> (r: Vec<Attr>)
    requires
        i < attrs.len(),
    ensures
        attrs_view(r@) == attrs_view(attrs@).take(i as int) + attrs_view(attrs@).skip(i + 1),
{
    let ghost av = attrs_view(attrs@);
    proof {
        assert(forall|m: int| 0 <= m < av.len() ==> #[trigger] av[m] == attrs@[m]@);
    }
    let mut r: Vec<Attr> = Vec::new();
    let mut k: usize = 0;
    while k < attrs.len()
        invariant
            i < attrs.len(),
            k <= attrs.len(),
            av == attrs_view(attrs@),
            av.len() == attrs@.len(),
            forall|m: int| 0 <= m < av.len() ==> #[trigger] av[m] == attrs@[m]@,
            k <= i ==> attrs_view(r@) == av.take(k as int),
            k > i ==> attrs_view(r@) == av.take(i as int) + av.subrange(i + 1, k as int),
        decreases attrs.len() - k,
    {
        if k != i {
            let ghost prev = r@;
            r.push(attrs[k].duplicate());
            proof {
                lemma_attrs_view_push(prev, r@.last());
                assert(r@ == prev.push(r@.last()));
                if k < i {
                    assert(attrs_view(r@) =~= av.take(k + 1));
                } else {
                    assert(attrs_view(r@) =~= av.take(i as int) + av.subrange(i + 1, k + 1));
                }
            }
        } else {
            proof {
                assert(av.take(i as int) + av.subrange(i + 1, k + 1) =~= av.take(i as int));
            }
        }
        k = k + 1;
    }
    proof {
        assert(av.subrange(i + 1, attrs@.len() as int) =~= av.skip(i + 1));
    }
    r
}

/// Extracts the export annotation from a function's attribute list.
///
/// When the annotation is present exactly once and its arguments parse, the
/// merged export descriptor is returned and the attribute list is replaced
/// by its stripped form, so no annotation of this system's namespace leaks
/// into emitted code. When the annotation is absent, or on any error, the
/// attribute list is left exactly as it was.
pub fn get_pyfn_attr(attrs: &mut Vec<Attr>) -> (r: Result<Option<PyFnArgs>, Error>)
    ensures
        (match r {
            Ok(found) => match found {
                None => {
                    &&& spec_get_pyfn(attrs_view(old(attrs)@)) matches Ok(o) && o is None
                    &&& final(attrs)@ == old(attrs)@
                },
                Some(args) => {
                    &&& spec_get_pyfn(attrs_view(old(attrs)@)) matches Ok(o)
                    &&& o matches Some((a, stripped))
                    &&& args@ == a
                    &&& attrs_view(final(attrs)@) == stripped
                },
            },
            Err(e) => {
                &&& spec_get_pyfn(attrs_view(old(attrs)@)) == Err::<
                    Option<(PyFnArgsV, Seq<AttrV>)>,
                    Error,
                >(e)
                &&& final(attrs)@ == old(attrs)@
            },
        }),
{
    let ghost av = attrs_view(attrs@);
    proof {
        assert(av.skip(0) =~= av);
        assert(forall|k: int| 0 <= k < av.len() ==> #[trigger] av[k] == attrs@[k]@);
    }
    let first = match find_pyfn_from(attrs, 0) {
        None => {
            return Ok(None);
        },
        Some(j) => j,
    };
    match find_pyfn_from(attrs, first + 1) {
        Some(second) => {
            return Err(Error::DuplicateAnnotationError { span: attrs[second].span });
        },
        None => {},
    }
    let args0 = match PyFnArgs::parse(&attrs[first].args) {
        Ok(a) => a,
        Err(e) => {
            return Err(e);
        },
    };
    // the attribute list without the export annotation itself
    let others = remove_attr_at(attrs, first);
    let ghost others_v = av.take(first as int) + av.skip(first + 1);
    proof {
        assert(attrs_view(others@) == others_v);
        assert(others_v.skip(0) =~= others_v);
    }
    let PyFnArgs { modname, options } = args0;
    let ExportOptions { name_override, deprecations } = options;
    let name = match apply_pyo3_from(&others, 0, name_override) {
        Ok(n) => n,
        Err(e) => {
            return Err(e);
        },
    };
    let mut stripped: Vec<Attr> = Vec::new();
    strip_attrs_from(&others, 0, &mut stripped);
    proof {
        assert(attrs_view(stripped@) =~= spec_strip_attrs(others_v));
    }
    *attrs = stripped;
    Ok(Some(PyFnArgs { modname, options: ExportOptions { name_override: name, deprecations } }))
}

/// What rewriting a statement sequence yields: each annotated function is
/// preceded by its synthesized registration statement and keeps its place
/// with its annotations stripped; every other statement is unchanged, in
/// original relative order; the first failing annotation aborts the pass.
pub open spec fn spec_rewrite(stmts: Seq<StmtV>) -> Result<Seq<StmtV>, Error>
    decreases stmts.len(),
{
    if stmts.len() == 0 {
        Ok(Seq::empty())
    } else {
        let head: Result<Seq<StmtV>, Error> = match stmts[0] {
            StmtV::Fn(f) => match spec_get_pyfn(f.attrs) {
                Err(e) => Err(e),
                Ok(found) => match found {
                    None => Ok(seq![stmts[0]]),
                    Some((args, stripped)) => Ok(
                        seq![
                            StmtV::Registration(
                                RegistrationV {
                                    target_module: args.modname,
                                    function_name: f.name,
                                    options: args.options,
                                },
                            ),
                            StmtV::Fn(FnDeclV { name: f.name, attrs: stripped }),
                        ],
                    ),
                },
            },
            _ => Ok(seq![stmts[0]]),
        };
        match head {
            Err(e) => Err(e),
            Ok(pre) => match spec_rewrite(stmts.skip(1)) {
                Err(e) => Err(e),
                Ok(rest) => Ok(pre + rest),
            },
        }
    }
}

/// Rewrites the statements from position `i` on, appending the result to
/// `out`.
fn rewrite_from(stmts: &Vec<Stmt>, i: usize, out: &mut Vec<Stmt>) -> (r: Result<(), Error>)
    requires
        i <= stmts.len(),
    ensures
        (match r {
            Ok(()) => {
                &&& spec_rewrite(stmts_view(stmts@).skip(i as int)) matches Ok(os)
                &&& stmts_view(final(out)@) == stmts_view(old(out)@) + os
            },
            Err(e) => spec_rewrite(stmts_view(stmts@).skip(i as int)) == Err::<Seq<StmtV>, Error>(
                e,
            ),
        }),
    decreases stmts.len() - i,
{
    let ghost gstmts = stmts_view(stmts@).skip(i as int);
    proof {
        assert(forall|k: int| 0 <= k < gstmts.len() ==> #[trigger] gstmts[k] == stmts@[i + k]@);
    }
    if i == stmts.len() {
        proof {
            assert(stmts_view(out@) =~= stmts_view(out@) + Seq::<StmtV>::empty());
        }
        return Ok(());
    }
    proof {
        assert(gstmts.skip(1) =~= stmts_view(stmts@).skip(i + 1));
    }
    match &stmts[i] {
        Stmt::Fn(f) => {
            let name2 = clone_bytes(&f.name);
            let mut attrs2 = duplicate_attrs(&f.attrs);
            match get_pyfn_attr(&mut attrs2) {
                Err(e) => {
                    return Err(e);
                },
                Ok(None) => {
                    out.push(Stmt::Fn(FnDecl { name: name2, attrs: attrs2 }));
                    proof {
                        lemma_stmts_view_push(old(out)@, out@.last());
                        assert(out@.last()@ == gstmts[0]);
                    }
                },
                Ok(Some(args)) => {
                    let reg = Registration {
                        target_module: args.modname,
                        function_name: clone_bytes(&name2),
                        options: args.options,
                    };
                    out.push(Stmt::Registration(reg));
                    proof {
                        lemma_stmts_view_push(old(out)@, out@.last());
                    }
                    let ghost mid = out@;
                    out.push(Stmt::Fn(FnDecl { name: name2, attrs: attrs2 }));
                    proof {
                        lemma_stmts_view_push(mid, out@.last());
                    }
                },
            }
        },
        _ => {
            out.push(stmts[i].duplicate());
            proof {
                lemma_stmts_view_push(old(out)@, out@.last());
                assert(out@.last()@ == gstmts[0]);
            }
        },
    }
    let ghost mid2 = out@;
    let r = rewrite_from(stmts, i + 1, out);
    proof {
        if r is Ok {
            let pre = match gstmts[0] {
                StmtV::Fn(f) => match spec_get_pyfn(f.attrs) {
                    Ok(found) => match found {
                        None => seq![gstmts[0]],
                        Some((args, stripped)) => seq![
                            StmtV::Registration(
                                RegistrationV {
                                    target_module: args.modname,
                                    function_name: f.name,
                                    options: args.options,
                                },
                            ),
                            StmtV::Fn(FnDeclV { name: f.name, attrs: stripped }),
                        ],
                    },
                    Err(e) => Seq::empty(),
                },
                _ => seq![gstmts[0]],
            };
            let rest = spec_rewrite(gstmts.skip(1)).unwrap();
            assert(stmts_view(out@) =~= stmts_view(old(out)@) + (pre + rest));
        }
    }
    r
}

/// Rewrites a statement sequence, leaving the input untouched.
pub fn rewrite_stmts(stmts: &Vec<Stmt>) -> (r: Result<Vec<Stmt>, Error>)
    ensures
        (match r {
            Ok(out) => {
                &&& spec_rewrite(stmts_view(stmts@)) matches Ok(os)
                &&& stmts_view(out@) == os
            },
            Err(e) => spec_rewrite(stmts_view(stmts@)) == Err::<Seq<StmtV>, Error>(e),
        }),
{
    proof {
        assert(stmts_view(stmts@).skip(0) =~= stmts_view(stmts@));
    }
    let mut out: Vec<Stmt> = Vec::new();
    match rewrite_from(stmts, 0, &mut out) {
        Ok(()) => {
            proof {
                assert(stmts_view(out@) =~= spec_rewrite(stmts_view(stmts@)).unwrap());
            }
            Ok(out)
        },
        Err(e) => Err(e),
    }
}

/// Finds and takes care of the export annotations in a module declaration:
/// the module's statement sequence is replaced by its rewritten form. The
/// rewrite happens atomically: on an error the declaration is unchanged.
pub fn process_functions_in_module(func: &mut ItemFn) -> (r: Result<(), Error>)
    ensures
        (match r {
            Ok(()) => {
                &&& spec_rewrite(stmts_view(old(func).stmts@)) matches Ok(os)
                &&& stmts_view(final(func).stmts@) == os
                &&& final(func).name@ == old(func).name@
            },
            Err(e) => {
                &&& spec_rewrite(stmts_view(old(func).stmts@)) == Err::<Seq<StmtV>, Error>(e)
                &&& final(func)@ == old(func)@
            },
        }),
{
    match rewrite_stmts(&func.stmts) {
        Ok(out) => {
            func.stmts = out;
            Ok(())
        },
        Err(e) => Err(e),
    }
}

} // verus!
