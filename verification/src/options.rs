//! Export options, the keyword-option grammar, and the legacy name merge.
//!
//! The options record travels with an export descriptor. The keyword grammar
//! here is the generic function-export options grammar shared with the
//! standalone-function export path; the only option it knows is
//! `name = "..."`, an explicit name override. The merge step folds the
//! deprecated positional name literal into the record and records a
//! deprecation diagnostic for the caller's warning-emission stage.

use vstd::prelude::*;
use crate::source::Span;
use crate::errors::Error;
use crate::tokens::{Token, TokenV, is_ident, is_valid_ident, clone_bytes, tokens_view};

verus! {

/// Which legacy form triggered a deprecation diagnostic.
#[derive(Clone, Copy, PartialEq, Eq, Structural, Debug)]
pub enum DeprecationKind {
    /// The positional name literal on the export annotation,
    /// superseded by the `name = "..."` keyword option.
    PyfnNameArgument,
}

/// One recorded deprecation diagnostic: the legacy form used and where.
#[derive(Clone, Copy, PartialEq, Eq, Structural, Debug)]
pub struct Deprecation {
    pub kind: DeprecationKind,
    pub span: Span,
}

/// The configuration an export annotation carries for one function.
#[derive(Clone, PartialEq, Eq, Debug)]
pub struct ExportOptions {
    /// The name under which the function is registered, when overridden.
    pub name_override: Option<Vec<u8>>,
    /// Deprecation diagnostics recorded while parsing, in source order.
    pub deprecations: Vec<Deprecation>,
}

/// The mathematical value of an [`ExportOptions`].
pub struct ExportOptionsV {
    pub name_override: Option<Seq<u8>>,
    pub deprecations: Seq<Deprecation>,
}

impl View for ExportOptions {
    type V = ExportOptionsV;

    open spec fn view(&self) -> ExportOptionsV {
        ExportOptionsV {
            name_override: match self.name_override {
                Some(n) => Some(n@),
                None => None,
            },
            deprecations: self.deprecations@,
        }
    }
}

impl ExportOptionsV {
    /// The default record: no override, no diagnostics.
    pub open spec fn empty() -> ExportOptionsV {
        ExportOptionsV { name_override: None, deprecations: Seq::empty() }
    }
}

impl ExportOptions {
    /// The default record: no override, no diagnostics.
    pub fn new() -> (r: ExportOptions)
        ensures
            r@ == ExportOptionsV::empty(),
    {
        let r = ExportOptions { name_override: None, deprecations: Vec::new() };
        proof {
            assert(r@.deprecations =~= Seq::<Deprecation>::empty());
        }
        r
    }

    /// An exact copy of the record.
    pub fn duplicate(&self) -> (r: ExportOptions)
        ensures
            r@ == self@,
    {
        let name_override = match &self.name_override {
            Some(n) => Some(clone_bytes(n)),
            None => None,
        };
        let mut deprecations: Vec<Deprecation> = Vec::new();
        let mut i: usize = 0;
        while i < self.deprecations.len()
            invariant
                i <= self.deprecations.len(),
                deprecations@ == self.deprecations@.take(i as int),
            decreases self.deprecations.len() - i,
        {
            deprecations.push(self.deprecations[i]);
            i = i + 1;
            proof {
                assert(deprecations@ =~= self.deprecations@.take(i as int));
            }
        }
        proof {
            assert(self.deprecations@.take(self.deprecations.len() as int) =~= self.deprecations@);
        }
        ExportOptions { name_override, deprecations }
    }
}

/// The text of the `name` option keyword.
pub open spec fn name_kw() -> Seq<u8> {
    seq![('n' as u8), ('a' as u8), ('m' as u8), ('e' as u8)]
}

/// Decides whether a byte string is the `name` keyword.
pub fn is_name_kw(text: &Vec<u8>) -> (r: bool)
    ensures
        r == (text@ == name_kw()),
{
    let r = text.len() == 4 && text[0] == ('n' as u8) && text[1] == ('a' as u8) && text[2] == ('m'
        as u8) && text[3] == ('e' as u8);
    proof {
        if r {
            assert(text@ =~= name_kw());
        }
    }
    r
}

/// What the keyword-option grammar yields on a token list, starting from the
/// name override accumulated so far. Options are `name = "..."` groups
/// separated by commas; a later `name` overwrites an earlier one
/// (last-applied wins); a trailing comma or an unknown keyword is an error.
pub open spec fn spec_parse_options(toks: Seq<TokenV>, acc: Option<Seq<u8>>) -> Result<
    Option<Seq<u8>>,
    Error,
>
    decreases toks.len(),
{
    if toks.len() == 0 {
        Ok(acc)
    } else if !(toks[0] matches TokenV::Ident { text, .. } && text == name_kw()) {
        Err(Error::GrammarError { span: toks[0].span() })
    } else if !(toks.len() >= 3 && toks[1] is Eq && toks[2] is Str) {
        Err(Error::GrammarError { span: toks[0].span() })
    } else if !is_ident(toks[2]->Str_value) {
        Err(Error::GrammarError { span: toks[2].span() })
    } else {
        let value = toks[2]->Str_value;
        let rest = toks.skip(3);
        if rest.len() == 0 {
            Ok(Some(value))
        } else if rest[0] is Comma && rest.len() >= 2 {
            spec_parse_options(rest.skip(1), Some(value))
        } else {
            Err(Error::GrammarError { span: rest[0].span() })
        }
    }
}

/// Parses the keyword options found in `toks` from position `i` on,
/// folding them onto the override accumulated in `acc`.
pub fn parse_options_from(toks: &Vec<Token>, i: usize, acc: Option<Vec<u8>>) -> (r: Result<
    Option<Vec<u8>>,
    Error,
>)
    requires
        i <= toks.len(),
    ensures
        (match r {
            Ok(name) => {
                &&& spec_parse_options(tokens_view(toks@).skip(i as int), opt_bytes_view(acc))
                    matches Ok(n)
                &&& opt_bytes_view(name) == n
            },
            Err(e) => spec_parse_options(tokens_view(toks@).skip(i as int), opt_bytes_view(acc))
                == Err::<Option<Seq<u8>>, Error>(e),
        }),
    decreases toks.len() - i,
{
    let ghost gtoks = tokens_view(toks@).skip(i as int);
    proof {
        assert(forall|k: int| 0 <= k < gtoks.len() ==> #[trigger] gtoks[k] == toks@[i + k]@);
    }
    if i == toks.len() {
        return Ok(acc);
    }
    let kw_ok = match &toks[i] {
        Token::Ident { text, .. } => is_name_kw(text),
        _ => false,
    };
    if !kw_ok {
        return Err(Error::GrammarError { span: toks[i].span() });
    }
    let rem = toks.len() - i;
    if rem < 3 {
        return Err(Error::GrammarError { span: toks[i].span() });
    }
    if !matches!(&toks[i + 1], Token::Eq { .. }) {
        return Err(Error::GrammarError { span: toks[i].span() });
    }
    match &toks[i + 2] {
        Token::Str { value: lit, span: lit_span } => {
            let value = clone_bytes(lit);
            if !is_valid_ident(&value) {
                return Err(Error::GrammarError { span: *lit_span });
            }
            proof {
                assert(gtoks.skip(3) =~= tokens_view(toks@).skip(i + 3));
            }
            if rem == 3 {
                return Ok(Some(value));
            }
            if matches!(&toks[i + 3], Token::Comma { .. }) && rem >= 5 {
                proof {
                    assert(gtoks.skip(3).skip(1) =~= tokens_view(toks@).skip(i + 4));
                }
                parse_options_from(toks, i + 4, Some(value))
            } else {
                Err(Error::GrammarError { span: toks[i + 3].span() })
            }
        },
        _ => Err(Error::GrammarError { span: toks[i].span() }),
    }
}

/// The view of an optional byte string.
pub open spec fn opt_bytes_view(o: Option<Vec<u8>>) -> Option<Seq<u8>> {
    match o {
        Some(v) => Some(v@),
        None => None,
    }
}

/// What merging the legacy positional name literal into an options record
/// yields: the deprecation is recorded unconditionally; the override is set
/// only when the literal's text is a valid identifier, and otherwise the
/// merge fails at the literal's location.
pub open spec fn spec_merge_legacy(
    options: ExportOptionsV,
    value: Seq<u8>,
    span: Span,
) -> Result<ExportOptionsV, Error> {
    if is_ident(value) {
        Ok(
            ExportOptionsV {
                name_override: Some(value),
                deprecations: options.deprecations.push(
                    Deprecation { kind: DeprecationKind::PyfnNameArgument, span },
                ),
            },
        )
    } else {
        Err(Error::LegacyNameParseError { span })
    }
}

/// Folds the legacy positional name literal into `options`.
///
/// The deprecation record is appended to `options` whether or not the
/// literal parses as an identifier, so the diagnostic stays available to the
/// caller even alongside the hard error; the override itself is set, and
/// overwrites any earlier value, only on success.
pub fn merge_legacy_name(options: &mut ExportOptions, value: &Vec<u8>, span: Span) -> (r: Result<
    (),
    Error,
>)
    ensures
        (match r {
            Ok(()) => spec_merge_legacy(old(options)@, value@, span) == Ok::<ExportOptionsV, Error>(
                final(options)@,
            ),
            Err(e) => {
                &&& spec_merge_legacy(old(options)@, value@, span) == Err::<
                    ExportOptionsV,
                    Error,
                >(e)
                &&& final(options)@ == (ExportOptionsV {
                    name_override: old(options)@.name_override,
                    deprecations: old(options)@.deprecations.push(
                        Deprecation { kind: DeprecationKind::PyfnNameArgument, span },
                    ),
                })
            },
        }),
{
    options.deprecations.push(Deprecation { kind: DeprecationKind::PyfnNameArgument, span });
    if is_valid_ident(value) {
        options.name_override = Some(clone_bytes(value));
        Ok(())
    } else {
        Err(Error::LegacyNameParseError { span })
    }
}

} // verus!
