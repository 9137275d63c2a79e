//! The decisions of the code generator: which types are promoted, which
//! instructions and predicates an operator becomes, and the scoped table of
//! symbols. The instructions themselves are LLVM's.
pub mod le_type;
pub mod providence;
pub mod binary_operator_builder;
pub mod unary_operator_builder;
pub mod numeric_operator_builder;
pub mod symbol_table;
pub mod generator;
pub mod le_builder;
