//! The token model of an annotation's argument list, and identifier text.
//!
//! An export annotation carries a raw list of tokens between its
//! parentheses. The grammar parser consumes a sequence of these tokens.

use vstd::prelude::*;
use crate::source::Span;

verus! {

/// One raw token of an annotation's argument list.
#[derive(Clone, PartialEq, Eq, Debug)]
pub enum Token {
    /// An identifier, e.g. a path segment or an option keyword.
    Ident { text: Vec<u8>, span: Span },
    /// A string literal; `value` holds its contents without the quotes.
    Str { value: Vec<u8>, span: Span },
    /// A separating comma.
    Comma { span: Span },
    /// The `=` of a keyword option.
    Eq { span: Span },
    /// The `::` separating two path segments.
    PathSep { span: Span },
}

/// The mathematical value of a [`Token`].
pub enum TokenV {
    Ident { text: Seq<u8>, span: Span },
    Str { value: Seq<u8>, span: Span },
    Comma { span: Span },
    Eq { span: Span },
    PathSep { span: Span },
}

impl View for Token {
    type V = TokenV;

    open spec fn view(&self) -> TokenV {
        match self {
            Token::Ident { text, span } => TokenV::Ident { text: text@, span: *span },
            Token::Str { value, span } => TokenV::Str { value: value@, span: *span },
            Token::Comma { span } => TokenV::Comma { span: *span },
            Token::Eq { span } => TokenV::Eq { span: *span },
            Token::PathSep { span } => TokenV::PathSep { span: *span },
        }
    }
}

impl TokenV {
    /// The source span of a token value.
    pub open spec fn span(self) -> Span {
        match self {
            TokenV::Ident { span, .. } => span,
            TokenV::Str { span, .. } => span,
            TokenV::Comma { span } => span,
            TokenV::Eq { span } => span,
            TokenV::PathSep { span } => span,
        }
    }
}

impl Token {
    /// The source span of a token.
    pub fn span(&self) -> (s: Span)
        ensures
            s == self@.span(),
    {
        match self {
            Token::Ident { span, .. } => *span,
            Token::Str { span, .. } => *span,
            Token::Comma { span } => *span,
            Token::Eq { span } => *span,
            Token::PathSep { span } => *span,
        }
    }

    /// An exact copy of the token.
    pub fn duplicate(&self) -> (t: Token)
        ensures
            t@ == self@,
    {
        match self {
            Token::Ident { text, span } => Token::Ident { text: clone_bytes(text), span: *span },
            Token::Str { value, span } => Token::Str { value: clone_bytes(value), span: *span },
            Token::Comma { span } => Token::Comma { span: *span },
            Token::Eq { span } => Token::Eq { span: *span },
            Token::PathSep { span } => Token::PathSep { span: *span },
        }
    }
}

/// The view of a token list.
pub open spec fn tokens_view(toks: Seq<Token>) -> Seq<TokenV> {
    toks.map_values(|t: Token| t@)
}

/// An exact copy of a byte string.
pub fn clone_bytes(v: &Vec<u8>) -> (r: Vec<u8>)
    ensures
        r@ == v@,
{
    let mut r: Vec<u8> = Vec::new();
    let mut i: usize = 0;
    while i < v.len()
        invariant
            i <= v.len(),
            r@ == v@.take(i as int),
        decreases v.len() - i,
    {
        r.push(v[i]);
        i = i + 1;
        proof {
            assert(r@ =~= v@.take(i as int));
        }
    }
    proof {
        assert(v@.take(v.len() as int) =~= v@);
    }
    r
}

/// Two token lists with elementwise equal views have equal views.
pub proof fn lemma_tokens_view_eq(s: Seq<Token>, t: Seq<Token>)
    requires
        s.len() == t.len(),
        forall|k: int| 0 <= k < s.len() ==> #[trigger] s[k]@ == t[k]@,
    ensures
        tokens_view(s) == tokens_view(t),
{
    let ms = tokens_view(s);
    let mt = tokens_view(t);
    assert forall|k: int| 0 <= k < ms.len() implies #[trigger] ms[k] == mt[k] by {
        assert(s[k]@ == t[k]@);
        assert(ms[k] == s[k]@);
        assert(mt[k] == t[k]@);
    }
    assert(ms =~= mt);
}

/// An exact copy of a token list.
pub fn duplicate_tokens(toks: &Vec<Token>) -> (r: Vec<Token>)
    ensures
        tokens_view(r@) == tokens_view(toks@),
{
    let mut r: Vec<Token> = Vec::new();
    let mut i: usize = 0;
    while i < toks.len()
        invariant
            i <= toks.len(),
            r@.len() == i,
            forall|k: int| 0 <= k < i ==> #[trigger] r@[k]@ == toks@[k]@,
        decreases toks.len() - i,
    {
        r.push(toks[i].duplicate());
        i = i + 1;
    }
    proof {
        lemma_tokens_view_eq(r@, toks@);
    }
    r
}

/// The view of a list of byte strings.
pub open spec fn bytes_list_view(s: Seq<Vec<u8>>) -> Seq<Seq<u8>> {
    s.map_values(|v: Vec<u8>| v@)
}

/// Two lists of byte strings with elementwise equal views have equal views.
pub proof fn lemma_bytes_list_view_eq(s: Seq<Vec<u8>>, t: Seq<Vec<u8>>)
    requires
        s.len() == t.len(),
        forall|k: int| 0 <= k < s.len() ==> #[trigger] s[k]@ == t[k]@,
    ensures
        bytes_list_view(s) == bytes_list_view(t),
{
    let ms = bytes_list_view(s);
    let mt = bytes_list_view(t);
    assert forall|k: int| 0 <= k < ms.len() implies #[trigger] ms[k] == mt[k] by {
        assert(s[k]@ == t[k]@);
        assert(ms[k] == s[k]@);
        assert(mt[k] == t[k]@);
    }
    assert(ms =~= mt);
}

/// Appending one byte string appends its view.
pub proof fn lemma_bytes_list_view_push(s: Seq<Vec<u8>>, v: Vec<u8>)
    ensures
        bytes_list_view(s.push(v)) == bytes_list_view(s).push(v@),
{
    let lhs = bytes_list_view(s.push(v));
    let rhs = bytes_list_view(s).push(v@);
    assert forall|k: int| 0 <= k < lhs.len() implies #[trigger] lhs[k] == rhs[k] by {
        if k < s.len() {
            assert(lhs[k] == s.push(v)[k]@);
            assert(s.push(v)[k] == s[k]);
            assert(rhs[k] == bytes_list_view(s)[k]);
            assert(bytes_list_view(s)[k] == s[k]@);
        } else {
            assert(lhs[k] == s.push(v)[k]@);
            assert(s.push(v)[k] == v);
        }
    }
    assert(lhs =~= rhs);
}

/// Whether a byte may begin an identifier: an ASCII letter or underscore.
pub open spec fn is_ident_start(b: u8) -> bool {
    (('a' as u8) <= b && b <= ('z' as u8)) || (('A' as u8) <= b && b <= ('Z' as u8)) || b == ('_' as u8)
}

/// Whether a byte may continue an identifier: a start byte or an ASCII digit.
pub open spec fn is_ident_continue(b: u8) -> bool {
    is_ident_start(b) || (('0' as u8) <= b && b <= ('9' as u8))
}

/// Whether a byte string is a valid identifier-style name.
pub open spec fn is_ident(s: Seq<u8>) -> bool {
    &&& s.len() > 0
    &&& is_ident_start(s[0])
    &&& forall|i: int| 1 <= i < s.len() ==> is_ident_continue(#[trigger] s[i])
}

/// Decides [`is_ident`] on a byte string.
pub fn is_valid_ident(s: &Vec<u8>) -> (r: bool)
    ensures
        r == is_ident(s@),
{
    if s.len() == 0 {
        return false;
    }
    let b0 = s[0];
    if !((('a' as u8) <= b0 && b0 <= ('z' as u8)) || (('A' as u8) <= b0 && b0 <= ('Z' as u8)) || b0 == ('_' as u8)) {
        return false;
    }
    let mut i: usize = 1;
    while i < s.len()
        invariant
            1 <= i <= s.len(),
            is_ident_start(s@[0]),
            forall|k: int| 1 <= k < i ==> is_ident_continue(#[trigger] s@[k]),
        decreases s.len() - i,
    {
        let b = s[i];
        if !((('a' as u8) <= b && b <= ('z' as u8)) || (('A' as u8) <= b && b <= ('Z' as u8)) || b == ('_' as u8) || (('0' as u8) <= b && b
            <= ('9' as u8))) {
            return false;
        }
        i = i + 1;
    }
    true
}

} // verus!
