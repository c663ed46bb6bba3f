use pymodgen::source::Span;
use pymodgen::errors::Error;
use pymodgen::tokens::Token;
use pymodgen::options::DeprecationKind;
use pymodgen::parser::PyFnArgs;

fn sp(start: usize, end: usize) -> Span {
    Span { start, end }
}

fn ident(text: &str, start: usize) -> Token {
    Token::Ident { text: text.as_bytes().to_vec(), span: sp(start, start + text.len()) }
}

fn lit(value: &str, start: usize) -> Token {
    Token::Str { value: value.as_bytes().to_vec(), span: sp(start, start + value.len() + 2) }
}

fn comma(start: usize) -> Token {
    Token::Comma { span: sp(start, start + 1) }
}

fn eq(start: usize) -> Token {
    Token::Eq { span: sp(start, start + 1) }
}

fn path_sep(start: usize) -> Token {
    Token::PathSep { span: sp(start, start + 2) }
}

#[test]
fn bare_path_yields_default_options() {
    let toks = vec![ident("mymod", 0)];
    let args = PyFnArgs::parse(&toks).unwrap();
    assert_eq!(args.modname.segments, vec![b"mymod".to_vec()]);
    assert_eq!(args.options.name_override, None);
    assert_eq!(args.options.deprecations.len(), 0);
}

#[test]
fn multi_segment_path() {
    let toks = vec![ident("outer", 0), path_sep(5), ident("inner", 7)];
    let args = PyFnArgs::parse(&toks).unwrap();
    assert_eq!(args.modname.segments, vec![b"outer".to_vec(), b"inner".to_vec()]);
    assert_eq!(args.options.name_override, None);
    assert_eq!(args.options.deprecations.len(), 0);
}

#[test]
fn legacy_name_sets_override_and_records_deprecation() {
    let toks = vec![ident("mymod", 0), comma(5), lit("legacy_name", 7)];
    let args = PyFnArgs::parse(&toks).unwrap();
    assert_eq!(args.modname.segments, vec![b"mymod".to_vec()]);
    assert_eq!(args.options.name_override, Some(b"legacy_name".to_vec()));
    assert_eq!(args.options.deprecations.len(), 1);
    assert_eq!(args.options.deprecations[0].kind, DeprecationKind::PyfnNameArgument);
    assert_eq!(args.options.deprecations[0].span, sp(7, 20));
}

#[test]
fn legacy_name_overwrites_keyword_name() {
    // both forms present: the legacy literal is merged last, so it wins,
    // and its deprecation is still recorded
    let toks = vec![
        ident("mymod", 0),
        comma(5),
        lit("legacy_name", 7),
        comma(20),
        ident("name", 22),
        eq(27),
        lit("other", 29),
    ];
    let args = PyFnArgs::parse(&toks).unwrap();
    assert_eq!(args.options.name_override, Some(b"legacy_name".to_vec()));
    assert_eq!(args.options.deprecations.len(), 1);
    assert_eq!(args.options.deprecations[0].kind, DeprecationKind::PyfnNameArgument);
}

#[test]
fn keyword_name_alone() {
    let toks = vec![ident("mymod", 0), comma(5), ident("name", 7), eq(12), lit("other", 14)];
    let args = PyFnArgs::parse(&toks).unwrap();
    assert_eq!(args.options.name_override, Some(b"other".to_vec()));
    assert_eq!(args.options.deprecations.len(), 0);
}

#[test]
fn later_keyword_name_wins() {
    let toks = vec![
        ident("mymod", 0),
        comma(5),
        ident("name", 7),
        eq(12),
        lit("first", 14),
        comma(21),
        ident("name", 23),
        eq(28),
        lit("second", 30),
    ];
    let args = PyFnArgs::parse(&toks).unwrap();
    assert_eq!(args.options.name_override, Some(b"second".to_vec()));
}

#[test]
fn empty_arguments_are_a_grammar_error() {
    let toks: Vec<Token> = vec![];
    let err = PyFnArgs::parse(&toks).unwrap_err();
    assert_eq!(err, Error::GrammarError { span: sp(0, 0) });
}

#[test]
fn missing_path_is_a_grammar_error() {
    let toks = vec![lit("mymod", 0)];
    let err = PyFnArgs::parse(&toks).unwrap_err();
    assert_eq!(err, Error::GrammarError { span: sp(0, 7) });
}

#[test]
fn trailing_comma_is_a_grammar_error() {
    let toks = vec![ident("mymod", 0), comma(5)];
    let err = PyFnArgs::parse(&toks).unwrap_err();
    assert_eq!(err, Error::GrammarError { span: sp(5, 6) });
}

#[test]
fn trailing_comma_after_legacy_name_is_a_grammar_error() {
    let toks = vec![ident("mymod", 0), comma(5), lit("legacy_name", 7), comma(20)];
    let err = PyFnArgs::parse(&toks).unwrap_err();
    assert_eq!(err, Error::GrammarError { span: sp(20, 21) });
}

#[test]
fn dangling_path_separator_is_a_grammar_error() {
    let toks = vec![ident("outer", 0), path_sep(5)];
    let err = PyFnArgs::parse(&toks).unwrap_err();
    assert_eq!(err, Error::GrammarError { span: sp(0, 5) });
}

#[test]
fn malformed_legacy_name_is_a_legacy_name_parse_error() {
    let toks = vec![ident("mymod", 0), comma(5), lit("not an ident", 7)];
    let err = PyFnArgs::parse(&toks).unwrap_err();
    assert_eq!(err, Error::LegacyNameParseError { span: sp(7, 21) });
}

#[test]
fn unknown_keyword_is_a_grammar_error() {
    let toks = vec![ident("mymod", 0), comma(5), ident("wibble", 7), eq(14), lit("x", 16)];
    let err = PyFnArgs::parse(&toks).unwrap_err();
    assert_eq!(err, Error::GrammarError { span: sp(7, 13) });
}

#[test]
fn keyword_value_must_be_an_identifier() {
    let toks = vec![ident("mymod", 0), comma(5), ident("name", 7), eq(12), lit("4bad", 14)];
    let err = PyFnArgs::parse(&toks).unwrap_err();
    assert_eq!(err, Error::GrammarError { span: sp(14, 20) });
}

#[test]
fn error_messages() {
    let grammar = Error::GrammarError { span: sp(0, 0) };
    let duplicate = Error::DuplicateAnnotationError { span: sp(0, 0) };
    let legacy = Error::LegacyNameParseError { span: sp(0, 0) };
    assert_eq!(grammar.message(), "expected module as first argument");
    assert_eq!(duplicate.message(), "may only be specified once");
    assert_eq!(legacy.message(), "expected identifier");
}

#[test]
fn errors_carry_the_span_they_blame() {
    let err = Error::LegacyNameParseError { span: sp(7, 21) };
    assert_eq!(err.span(), sp(7, 21));
}
