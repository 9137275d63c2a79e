pub mod nodes;
pub mod program;
pub mod tree;
pub mod parser;

pub use nodes::Ast;
