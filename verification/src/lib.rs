//! A lexer, a recursive-descent parser and a tree-walking evaluator for a
//! small expression language: literals, grouping, unary negation and
//! logical not, and binary arithmetic, comparison and equality operators.
//!
//! Data flows one way: text, tokens, tree, value. Scanning and parsing are
//! exact functions of their input, specified by the spec functions
//! `scanner::rules::scan` and `parser::grammar::parse_expression`. Numbers
//! are IEEE-754 doubles, which verified code cannot compute with: every
//! operation on them is asked of a [`number::Arithmetic`] that the caller
//! supplies, and the contracts say how the result follows from the answers
//! it may give.

pub mod error;
pub mod interpreter;
pub mod number;
pub mod parser;
pub mod scanner;
pub mod text;
pub mod value;

pub use value::Value;
