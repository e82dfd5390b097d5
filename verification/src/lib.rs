//! A verified recursive-descent expression-grammar core.
//!
//! The library consumes a stream of lexical tokens through a peekable
//! [`cursor::Cursor`] and produces immutable abstract-syntax-tree nodes,
//! resolving grammar alternatives with bounded lookahead and threading
//! context parameters (`AllowIn`, `AllowAwait`) explicitly through the
//! recursive call graph. The representative production is the
//! `yield`-introduced expression, whose line-terminator sensitivity
//! exercises the automatic-termination rules of the grammar.

pub mod ast;
pub mod context;
pub mod cursor;
pub mod diagnostics;
pub mod laws;
pub mod parser;
pub mod token;
