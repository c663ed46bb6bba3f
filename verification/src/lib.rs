//! Build-time transformer that turns export annotations on functions inside a
//! module declaration into the glue a host runtime needs: a registration
//! statement spliced in front of each annotated function, and a single
//! ABI-stable entry point definition for the module itself.

pub mod source;
pub mod errors;
pub mod tokens;
pub mod options;
pub mod parser;
pub mod init;
pub mod ast;
pub mod rewrite;
pub mod laws;
