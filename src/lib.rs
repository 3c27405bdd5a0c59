//! A small dynamically typed language: a lexer and a parser that build its
//! syntax tree, a tree-walking interpreter with lexically scoped closures, and
//! a translator of the tree into C++ text.
//!
//! The interpreter is specified by a big-step semantics (`semantics::eval`)
//! over a model of its scope arena, and every executable step is proved to
//! follow it. Integer arithmetic is checked: an overflow is a runtime error.

pub mod token;
pub mod error;
pub mod ast;
pub mod text;
pub mod number;
pub mod value;
pub mod builtin;
pub mod semantics;
pub mod interpreter;
pub mod laws;
pub mod lexer;
pub mod parser;
pub mod compiler;
