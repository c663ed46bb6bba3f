//! The attribute argument grammar parser.
//!
//! The grammar over the raw token list of an export annotation is, in order:
//! a mandatory module path; then, if input remains, a separating comma; then
//! an optional legacy positional name literal, again followed by a comma if
//! input remains; then the keyword options. A bare path is valid and yields
//! default options. Trailing commas beyond the final consumed group are
//! rejected.

use vstd::prelude::*;
use crate::source::Span;
use crate::errors::Error;
use crate::tokens::{Token, TokenV, clone_bytes, tokens_view, bytes_list_view, lemma_bytes_list_view_eq, lemma_bytes_list_view_push};
use crate::options::{
    ExportOptions, ExportOptionsV, spec_parse_options, parse_options_from, spec_merge_legacy,
    merge_legacy_name,
};

verus! {

/// The path of the module object that a function is registered into.
#[derive(Clone, PartialEq, Eq, Debug)]
pub struct Path {
    /// The `::`-separated segments, leftmost first. Never empty.
    pub segments: Vec<Vec<u8>>,
}

impl View for Path {
    type V = Seq<Seq<u8>>;

    open spec fn view(&self) -> Seq<Seq<u8>> {
        bytes_list_view(self.segments@)
    }
}

impl Path {
    /// An exact copy of the path.
    pub fn duplicate(&self) -> (r: Path)
        ensures
            r@ == self@,
    {
        let mut segments: Vec<Vec<u8>> = Vec::new();
        let mut i: usize = 0;
        while i < self.segments.len()
            invariant
                i <= self.segments.len(),
                segments@.len() == i,
                forall|k: int| 0 <= k < i ==> #[trigger] segments@[k]@ == self.segments@[k]@,
            decreases self.segments.len() - i,
        {
            segments.push(clone_bytes(&self.segments[i]));
            i = i + 1;
        }
        proof {
            lemma_bytes_list_view_eq(segments@, self.segments@);
        }
        Path { segments }
    }
}

/// The export descriptor parsed from one export annotation: the target
/// module path and the options, with the legacy name literal already merged.
#[derive(Clone, PartialEq, Eq, Debug)]
pub struct PyFnArgs {
    pub modname: Path,
    pub options: ExportOptions,
}

/// The mathematical value of a [`PyFnArgs`].
pub struct PyFnArgsV {
    pub modname: Seq<Seq<u8>>,
    pub options: ExportOptionsV,
}

impl View for PyFnArgs {
    type V = PyFnArgsV;

    open spec fn view(&self) -> PyFnArgsV {
        PyFnArgsV { modname: self.modname@, options: self.options@ }
    }
}

/// What parsing a module path at the head of `toks` yields: the segment
/// texts and the number of tokens consumed, or nothing when no path starts
/// there. A path is one or more identifiers separated by `::`, consumed
/// greedily.
pub open spec fn spec_parse_path(toks: Seq<TokenV>) -> Option<(Seq<Seq<u8>>, int)>
    decreases toks.len(),
{
    if toks.len() == 0 {
        None
    } else {
        match toks[0] {
            TokenV::Ident { text, .. } => {
                if toks.len() >= 2 && toks[1] is PathSep {
                    match spec_parse_path(toks.skip(2)) {
                        None => None,
                        Some((rest, n)) => Some((seq![text] + rest, n + 2)),
                    }
                } else {
                    Some((seq![text], 1))
                }
            },
            _ => None,
        }
    }
}

/// The span blamed when the mandatory path is missing or malformed: the
/// head of the argument list, or the call site when the list is empty.
pub open spec fn spec_head_span(toks: Seq<TokenV>) -> Span {
    if toks.len() == 0 {
        Span::spec_call_site()
    } else {
        toks[0].span()
    }
}

/// What the whole annotation argument grammar yields on a token list.
///
/// The legacy name literal, when present, is merged last, so it overwrites
/// a `name = "..."` keyword option (last-applied wins) and records its
/// deprecation diagnostic.
pub open spec fn spec_parse_pyfn_args(toks: Seq<TokenV>) -> Result<PyFnArgsV, Error> {
    match spec_parse_path(toks) {
        None => Err(Error::GrammarError { span: spec_head_span(toks) }),
        Some((segs, n)) => {
            let rest = toks.skip(n);
            if rest.len() == 0 {
                Ok(PyFnArgsV { modname: segs, options: ExportOptionsV::empty() })
            } else if !(rest[0] is Comma) {
                Err(Error::GrammarError { span: rest[0].span() })
            } else if rest.len() == 1 {
                Err(Error::GrammarError { span: rest[0].span() })
            } else {
                let rest2 = rest.skip(1);
                match rest2[0] {
                    TokenV::Str { value, span } => {
                        let after = rest2.skip(1);
                        if after.len() == 0 {
                            match spec_merge_legacy(ExportOptionsV::empty(), value, span) {
                                Ok(opts) => Ok(PyFnArgsV { modname: segs, options: opts }),
                                Err(e) => Err(e),
                            }
                        } else if !(after[0] is Comma) {
                            Err(Error::GrammarError { span: after[0].span() })
                        } else if after.len() == 1 {
                            Err(Error::GrammarError { span: after[0].span() })
                        } else {
                            match spec_parse_options(after.skip(1), None) {
                                Err(e) => Err(e),
                                Ok(name0) => match spec_merge_legacy(
                                    ExportOptionsV { name_override: name0, deprecations: Seq::empty() },
                                    value,
                                    span,
                                ) {
                                    Ok(opts) => Ok(PyFnArgsV { modname: segs, options: opts }),
                                    Err(e) => Err(e),
                                },
                            }
                        }
                    },
                    _ => match spec_parse_options(rest2, None) {
                        Err(e) => Err(e),
                        Ok(name0) => Ok(
                            PyFnArgsV {
                                modname: segs,
                                options: ExportOptionsV {
                                    name_override: name0,
                                    deprecations: Seq::empty(),
                                },
                            },
                        ),
                    },
                }
            }
        },
    }
}

/// Parses a module path starting at position `i`, appending its segments to
/// `segs`; returns the position just past the path.
fn parse_path_from(toks: &Vec<Token>, i: usize, segs: &mut Vec<Vec<u8>>) -> (r: Result<usize, ()>)
    requires
        i <= toks.len(),
    ensures
        (match r {
            Ok(j) => {
                &&& i < j <= toks.len()
                &&& spec_parse_path(tokens_view(toks@).skip(i as int)) matches Some((ss, n))
                &&& j == i + n
                &&& bytes_list_view(final(segs)@) == bytes_list_view(old(segs)@) + ss
            },
            Err(()) => {
                &&& spec_parse_path(tokens_view(toks@).skip(i as int)) is None
                &&& final(segs)@ == old(segs)@
            },
        }),
    decreases toks.len() - i,
{
    let ghost gtoks = tokens_view(toks@).skip(i as int);
    proof {
        assert(forall|k: int| 0 <= k < gtoks.len() ==> #[trigger] gtoks[k] == toks@[i + k]@);
    }
    if i == toks.len() {
        return Err(());
    }
    match &toks[i] {
        Token::Ident { text, .. } => {
            let seg = clone_bytes(text);
            let rem = toks.len() - i;
            if rem >= 2 && matches!(&toks[i + 1], Token::PathSep { .. }) {
                proof {
                    assert(gtoks.skip(2) =~= tokens_view(toks@).skip(i + 2));
                }
                segs.push(seg);
                let ghost mid = segs@;
                match parse_path_from(toks, i + 2, segs) {
                    Ok(j) => {
                        proof {
                            let ss = spec_parse_path(tokens_view(toks@).skip(i + 2)).unwrap().0;
                            assert(mid == old(segs)@.push(mid.last()));
                            lemma_bytes_list_view_push(old(segs)@, mid.last());
                            assert(bytes_list_view(segs@) =~= bytes_list_view(old(segs)@) + (seq![
                                text@,
                            ] + ss));
                        }
                        Ok(j)
                    },
                    Err(()) => {
                        // the trailing `::` has no path after it
                        segs.pop();
                        proof {
                            assert(segs@ =~= old(segs)@);
                        }
                        Err(())
                    },
                }
            } else {
                segs.push(seg);
                proof {
                    lemma_bytes_list_view_push(old(segs)@, segs@.last());
                    assert(bytes_list_view(segs@) =~= bytes_list_view(old(segs)@) + seq![text@]);
                }
                Ok(i + 1)
            }
        },
        _ => Err(()),
    }
}

impl PyFnArgs {
    /// Parses the raw token list of an export annotation's argument list
    /// into an export descriptor, or fails with the error the grammar
    /// assigns to the offending token.
    pub fn parse(toks: &Vec<Token>) -> (r: Result<PyFnArgs, Error>)
        ensures
            (match r {
                Ok(args) => {
                    &&& spec_parse_pyfn_args(tokens_view(toks@)) matches Ok(a)
                    &&& args@ == a
                },
                Err(e) => spec_parse_pyfn_args(tokens_view(toks@)) == Err::<PyFnArgsV, Error>(e),
            }),
    {
        let ghost gtoks = tokens_view(toks@);
        proof {
            assert(forall|k: int| 0 <= k < gtoks.len() ==> #[trigger] gtoks[k] == toks@[k]@);
            assert(gtoks.skip(0) =~= gtoks);
        }
        let mut segments: Vec<Vec<u8>> = Vec::new();
        let j = match parse_path_from(toks, 0, &mut segments) {
            Ok(j) => j,
            Err(()) => {
                let span = if toks.len() == 0 {
                    Span::call_site()
                } else {
                    toks[0].span()
                };
                return Err(Error::GrammarError { span });
            },
        };
        proof {
            assert(bytes_list_view(segments@) =~= spec_parse_path(gtoks).unwrap().0);
            assert(gtoks.skip(j as int).len() == toks.len() - j);
            assert(forall|k: int| 0 <= k < gtoks.skip(j as int).len() ==> #[trigger] gtoks.skip(
                j as int,
            )[k] == toks@[j + k]@);
        }
        let modname = Path { segments };
        if j == toks.len() {
            return Ok(PyFnArgs { modname, options: ExportOptions::new() });
        }
        if !matches!(&toks[j], Token::Comma { .. }) {
            return Err(Error::GrammarError { span: toks[j].span() });
        }
        if j + 1 == toks.len() {
            // trailing comma with nothing after it
            return Err(Error::GrammarError { span: toks[j].span() });
        }
        let k = j + 1;
        proof {
            assert(gtoks.skip(j as int).skip(1) =~= gtoks.skip(k as int));
            assert(forall|m: int| 0 <= m < gtoks.skip(k as int).len() ==> #[trigger] gtoks.skip(
                k as int,
            )[m] == toks@[k + m]@);
        }
        match &toks[k] {
            Token::Str { value: lit, span: lit_span } => {
                let lit_value = clone_bytes(lit);
                let lit_sp = *lit_span;
                proof {
                    assert(gtoks.skip(k as int).skip(1) =~= gtoks.skip(k + 1));
                }
                if k + 1 == toks.len() {
                    let mut options = ExportOptions::new();
                    match merge_legacy_name(&mut options, &lit_value, lit_sp) {
                        Ok(()) => Ok(PyFnArgs { modname, options }),
                        Err(e) => Err(e),
                    }
                } else if !matches!(&toks[k + 1], Token::Comma { .. }) {
                    Err(Error::GrammarError { span: toks[k + 1].span() })
                } else if k + 2 == toks.len() {
                    // trailing comma with nothing after it
                    Err(Error::GrammarError { span: toks[k + 1].span() })
                } else {
                    proof {
                        assert(gtoks.skip(k + 1).skip(1) =~= gtoks.skip(k + 2));
                    }
                    let name0 = match parse_options_from(toks, k + 2, None) {
                        Ok(name0) => name0,
                        Err(e) => {
                            return Err(e);
                        },
                    };
                    let mut options = ExportOptions { name_override: name0, deprecations: Vec::new() };
                    proof {
                        assert(options@.deprecations =~= Seq::<crate::options::Deprecation>::empty());
                    }
                    match merge_legacy_name(&mut options, &lit_value, lit_sp) {
                        Ok(()) => Ok(PyFnArgs { modname, options }),
                        Err(e) => Err(e),
                    }
                }
            },
            _ => {
                let name0 = match parse_options_from(toks, k, None) {
                    Ok(name0) => name0,
                    Err(e) => {
                        return Err(e);
                    },
                };
                let options = ExportOptions { name_override: name0, deprecations: Vec::new() };
                proof {
                    assert(options@.deprecations =~= Seq::<crate::options::Deprecation>::empty());
                }
                Ok(PyFnArgs { modname, options })
            },
        }
    }
}

} // verus!
