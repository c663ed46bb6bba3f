use pymodgen::init::{is_nul_terminated, py_init};

#[test]
fn entry_point_for_demo_module() {
    let fnname = b"init_demo".to_vec();
    let name = b"demo".to_vec();
    let doc = b"hello\0".to_vec();
    assert!(is_nul_terminated(&doc));
    let spec = py_init(&fnname, &name, &doc);
    assert_eq!(spec.generated_entry_symbol, b"PyInit_demo".to_vec());
    assert_eq!(spec.module_symbol_name, b"demo\0".to_vec());
    assert_eq!(spec.doc_string, b"hello\0".to_vec());
    assert_eq!(spec.init_function_name, b"init_demo".to_vec());
}

#[test]
fn unterminated_doc_string_fails_the_precondition_check() {
    // the doc-string invariant is a hard precondition of py_init, enforced
    // statically: no output exists for an unterminated string, and this is
    // the check a caller must make before calling
    let doc = b"hello".to_vec();
    assert!(!is_nul_terminated(&doc));
    let empty: Vec<u8> = Vec::new();
    assert!(!is_nul_terminated(&empty));
}

#[test]
fn nul_alone_is_a_valid_doc_string() {
    let fnname = b"init_empty".to_vec();
    let name = b"empty".to_vec();
    let doc = b"\0".to_vec();
    assert!(is_nul_terminated(&doc));
    let spec = py_init(&fnname, &name, &doc);
    assert_eq!(spec.generated_entry_symbol, b"PyInit_empty".to_vec());
    assert_eq!(spec.module_symbol_name, b"empty\0".to_vec());
    assert_eq!(spec.doc_string, b"\0".to_vec());
}
