//! A shell-flavored subprocess grammar extension for a Python-like host
//! language: inline subprocess capture (`$(...)`, `![...]`), pipes, I/O
//! redirection, backgrounding, environment-variable access and inline
//! interpolation, all desugared into ordinary call-expression nodes.
//!
//! The host tokenizer is external: callers hand the parser a token stream
//! (each token a kind plus a byte range into the source buffer) and the
//! source bytes; the parser produces plain AST values or structured errors,
//! each carrying an exact byte range.

pub mod text;
pub mod token;
pub mod errors;
pub mod ast;
pub mod cursor;
pub mod combinators;
pub mod subproc;
pub mod laws;
