//! The module initializer generator.
//!
//! Given the user-authored initializer function, the module's external name
//! and a NUL-terminated documentation string, this produces the structured
//! description of the single ABI entry point that the host's dynamic loader
//! looks up at import time. The entry point it describes takes no arguments,
//! returns an opaque native handle, constructs a process-wide module
//! descriptor lazily and exactly once (name and doc are its only dynamic
//! fields), and hands module construction to the panic-safety callback
//! together with the user initializer; this component never executes any of
//! that itself.

use vstd::prelude::*;
use crate::tokens::{is_ident, is_valid_ident, clone_bytes};

verus! {

/// The structured description of a generated module entry point.
pub struct ModuleInitSpec {
    /// The user-authored initializer function that the panic-safety
    /// callback invokes with the freshly constructed module.
    pub init_function_name: Vec<u8>,
    /// The NUL-terminated module name embedded in the once-initialized
    /// module descriptor of the generated code.
    pub module_symbol_name: Vec<u8>,
    /// The symbol the host loader resolves: the host prefix followed by the
    /// module's external name.
    pub generated_entry_symbol: Vec<u8>,
    /// The NUL-terminated documentation string embedded in the descriptor,
    /// exactly as the caller supplied it.
    pub doc_string: Vec<u8>,
}

/// Whether a byte string ends in the NUL terminator the host ABI requires.
pub open spec fn nul_terminated(s: Seq<u8>) -> bool {
    s.len() > 0 && s[s.len() - 1] == 0
}

/// Decides [`nul_terminated`] on a byte string, so a caller can establish
/// the documentation-string precondition of [`py_init`] before calling it.
pub fn is_nul_terminated(s: &Vec<u8>) -> (r: bool)
    ensures
        r == nul_terminated(s@),
{
    s.len() > 0 && s[s.len() - 1] == 0
}

/// The host-recognized symbol prefix, `PyInit_`, that the loader combines
/// with the module's external name.
pub open spec fn entry_symbol_prefix() -> Seq<u8> {
    seq![
        ('P' as u8),
        ('y' as u8),
        ('I' as u8),
        ('n' as u8),
        ('i' as u8),
        ('t' as u8),
        ('_' as u8),
    ]
}

/// Generates the entry-point description for one module.
///
/// `fnname` is the user initializer, `name` the module's external name and
/// `doc` its documentation string. That `doc` already carries its NUL
/// terminator is the caller's responsibility and a hard precondition, not a
/// recoverable error: no output exists for an unterminated string.
pub fn py_init(fnname: &Vec<u8>, name: &Vec<u8>, doc: &Vec<u8>) -> (r: ModuleInitSpec)
    requires
        is_ident(fnname@),
        is_ident(name@),
        nul_terminated(doc@),
    ensures
        r.init_function_name@ == fnname@,
        r.generated_entry_symbol@ == entry_symbol_prefix() + name@,
        r.module_symbol_name@ == name@ + seq![0u8],
        nul_terminated(r.module_symbol_name@),
        r.doc_string@ == doc@,
{
    let mut generated_entry_symbol: Vec<u8> = Vec::new();
    generated_entry_symbol.push('P' as u8);
    generated_entry_symbol.push('y' as u8);
    generated_entry_symbol.push('I' as u8);
    generated_entry_symbol.push('n' as u8);
    generated_entry_symbol.push('i' as u8);
    generated_entry_symbol.push('t' as u8);
    generated_entry_symbol.push('_' as u8);
    proof {
        assert(generated_entry_symbol@ =~= entry_symbol_prefix());
    }
    append_bytes(&mut generated_entry_symbol, name);
    let mut module_symbol_name = clone_bytes(name);
    module_symbol_name.push(0);
    proof {
        assert(module_symbol_name@ =~= name@ + seq![0u8]);
    }
    ModuleInitSpec {
        init_function_name: clone_bytes(fnname),
        module_symbol_name,
        generated_entry_symbol,
        doc_string: clone_bytes(doc),
    }
}

/// Appends `src` to `dst`.
pub fn append_bytes(dst: &mut Vec<u8>, src: &Vec<u8>)
    ensures
        final(dst)@ == old(dst)@ + src@,
{
    let mut i: usize = 0;
    while i < src.len()
        invariant
            i <= src.len(),
            dst@ == old(dst)@ + src@.take(i as int),
        decreases src.len() - i,
    {
        dst.push(src[i]);
        i = i + 1;
        proof {
            assert(dst@ =~= old(dst)@ + src@.take(i as int));
        }
    }
    proof {
        assert(old(dst)@ + src@.take(src.len() as int) =~= old(dst)@ + src@);
    }
}

} // verus!
