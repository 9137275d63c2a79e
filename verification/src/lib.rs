//! The lelang compiler as a library: the token cursor, the parser that turns
//! tokens into a syntax tree, and the decisions of the code generator.
use vstd::prelude::*;

pub mod error;
pub mod lexer;
pub mod text;
pub mod ast;
pub mod arg_parser;
pub mod code_generator;
pub mod code_gen;
