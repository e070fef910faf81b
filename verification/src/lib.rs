//! Front end of a compiler for a small statically typed language: a symbol
//! interner, source spans, a lexical scanner, and a recursive-descent parser
//! that turns source text into type-definition syntax trees.

pub mod ast;
pub mod interner;
pub mod lexer;
pub mod parser;
pub mod pretty;
pub mod span;
pub mod token;
