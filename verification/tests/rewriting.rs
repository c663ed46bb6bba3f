use pymodgen::source::Span;
use pymodgen::errors::Error;
use pymodgen::tokens::Token;
use pymodgen::ast::{Attr, FnDecl, ItemFn, Stmt};
use pymodgen::rewrite::{get_pyfn_attr, process_functions_in_module, rewrite_stmts};

fn sp(start: usize, end: usize) -> Span {
    Span { start, end }
}

fn attr(name: &str, args: Vec<Token>, start: usize) -> Attr {
    Attr { path: name.as_bytes().to_vec(), args, span: sp(start, start + name.len() + 3) }
}

fn pyfn_attr(module: &str, start: usize) -> Attr {
    let args = vec![Token::Ident {
        text: module.as_bytes().to_vec(),
        span: sp(start + 7, start + 7 + module.len()),
    }];
    attr("pyfn", args, start)
}

fn plain_fn(name: &str, attrs: Vec<Attr>) -> Stmt {
    Stmt::Fn(FnDecl { name: name.as_bytes().to_vec(), attrs })
}

#[test]
fn rewriting_without_annotations_is_the_identity() {
    let stmts = vec![
        Stmt::Other(11),
        plain_fn("helper", vec![attr("inline", vec![], 0)]),
        Stmt::Other(12),
    ];
    let out = rewrite_stmts(&stmts).unwrap();
    assert_eq!(out, stmts);
}

#[test]
fn rewriting_an_empty_body_is_the_identity() {
    let stmts: Vec<Stmt> = vec![];
    let out = rewrite_stmts(&stmts).unwrap();
    assert_eq!(out, stmts);
}

#[test]
fn single_annotated_function_gets_one_registration_before_it() {
    let stmts = vec![
        Stmt::Other(21),
        plain_fn("speak", vec![attr("inline", vec![], 0), pyfn_attr("m", 10)]),
        Stmt::Other(22),
    ];
    let out = rewrite_stmts(&stmts).unwrap();
    assert_eq!(out.len(), 4);
    assert_eq!(out[0], Stmt::Other(21));
    match &out[1] {
        Stmt::Registration(reg) => {
            assert_eq!(reg.target_module.segments, vec![b"m".to_vec()]);
            assert_eq!(reg.function_name, b"speak".to_vec());
            assert_eq!(reg.options.name_override, None);
            assert_eq!(reg.options.deprecations.len(), 0);
        },
        other => panic!("expected a registration statement, got {:?}", other),
    }
    // the function keeps its place, with only the export annotation stripped
    assert_eq!(out[2], plain_fn("speak", vec![attr("inline", vec![], 0)]));
    assert_eq!(out[3], Stmt::Other(22));
}

#[test]
fn unrelated_statements_keep_their_relative_order() {
    let stmts = vec![
        Stmt::Other(1),
        Stmt::Other(2),
        plain_fn("f", vec![pyfn_attr("m", 0)]),
        Stmt::Other(3),
        plain_fn("g", vec![]),
    ];
    let out = rewrite_stmts(&stmts).unwrap();
    assert_eq!(out.len(), 6);
    assert_eq!(out[0], Stmt::Other(1));
    assert_eq!(out[1], Stmt::Other(2));
    assert!(matches!(out[2], Stmt::Registration(_)));
    assert_eq!(out[3], plain_fn("f", vec![]));
    assert_eq!(out[4], Stmt::Other(3));
    assert_eq!(out[5], plain_fn("g", vec![]));
}

#[test]
fn two_annotated_functions_each_get_their_registration() {
    let stmts = vec![
        plain_fn("f", vec![pyfn_attr("m", 0)]),
        plain_fn("g", vec![pyfn_attr("n", 50)]),
    ];
    let out = rewrite_stmts(&stmts).unwrap();
    assert_eq!(out.len(), 4);
    match (&out[0], &out[2]) {
        (Stmt::Registration(rf), Stmt::Registration(rg)) => {
            assert_eq!(rf.target_module.segments, vec![b"m".to_vec()]);
            assert_eq!(rf.function_name, b"f".to_vec());
            assert_eq!(rg.target_module.segments, vec![b"n".to_vec()]);
            assert_eq!(rg.function_name, b"g".to_vec());
        },
        other => panic!("expected two registration statements, got {:?}", other),
    }
    assert_eq!(out[1], plain_fn("f", vec![]));
    assert_eq!(out[3], plain_fn("g", vec![]));
}

#[test]
fn duplicate_annotation_is_an_error_at_the_second_occurrence() {
    let stmts = vec![plain_fn("f", vec![pyfn_attr("m", 0), pyfn_attr("n", 40)])];
    let err = rewrite_stmts(&stmts).unwrap_err();
    assert_eq!(err, Error::DuplicateAnnotationError { span: sp(40, 47) });
}

#[test]
fn duplicate_annotation_wins_over_malformed_arguments() {
    // both occurrences carry arguments that would not even parse: the
    // duplicate is still reported, whatever the arguments' content
    let bad_args = vec![Token::Comma { span: sp(0, 1) }];
    let stmts = vec![plain_fn(
        "f",
        vec![attr("pyfn", bad_args.clone(), 0), attr("pyfn", bad_args, 40)],
    )];
    let err = rewrite_stmts(&stmts).unwrap_err();
    assert_eq!(err, Error::DuplicateAnnotationError { span: sp(40, 47) });
}

#[test]
fn malformed_annotation_arguments_fail_the_rewrite() {
    let stmts = vec![plain_fn("f", vec![attr("pyfn", vec![], 0)])];
    let err = rewrite_stmts(&stmts).unwrap_err();
    assert_eq!(err, Error::GrammarError { span: sp(0, 0) });
}

#[test]
fn process_functions_in_module_rewrites_in_place() {
    let mut func = ItemFn {
        name: b"init".to_vec(),
        stmts: vec![plain_fn("f", vec![pyfn_attr("m", 0)])],
    };
    process_functions_in_module(&mut func).unwrap();
    assert_eq!(func.name, b"init".to_vec());
    assert_eq!(func.stmts.len(), 2);
    assert!(matches!(func.stmts[0], Stmt::Registration(_)));
    assert_eq!(func.stmts[1], plain_fn("f", vec![]));
}

#[test]
fn process_functions_in_module_leaves_module_unchanged_on_error() {
    let original = ItemFn {
        name: b"init".to_vec(),
        stmts: vec![
            Stmt::Other(7),
            plain_fn("f", vec![pyfn_attr("m", 0), pyfn_attr("n", 40)]),
        ],
    };
    let mut func = original.clone();
    let err = process_functions_in_module(&mut func).unwrap_err();
    assert_eq!(err, Error::DuplicateAnnotationError { span: sp(40, 47) });
    assert_eq!(func, original);
}

#[test]
fn generic_options_annotation_is_merged_and_stripped() {
    let name_args = vec![
        Token::Ident { text: b"name".to_vec(), span: sp(20, 24) },
        Token::Eq { span: sp(25, 26) },
        Token::Str { value: b"renamed".to_vec(), span: sp(27, 36) },
    ];
    let mut attrs = vec![
        pyfn_attr("m", 0),
        attr("pyo3", name_args, 20),
        attr("inline", vec![], 60),
    ];
    let args = get_pyfn_attr(&mut attrs).unwrap().unwrap();
    assert_eq!(args.modname.segments, vec![b"m".to_vec()]);
    assert_eq!(args.options.name_override, Some(b"renamed".to_vec()));
    assert_eq!(attrs, vec![attr("inline", vec![], 60)]);
}

#[test]
fn absent_annotation_leaves_attributes_untouched() {
    let original = vec![attr("inline", vec![], 0), attr("pyo3", vec![], 20)];
    let mut attrs = original.clone();
    let found = get_pyfn_attr(&mut attrs).unwrap();
    assert!(found.is_none());
    // without the export annotation nothing is taken, not even options
    assert_eq!(attrs, original);
}
