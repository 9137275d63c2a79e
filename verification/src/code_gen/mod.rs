//! The first code generator: its table of symbols, which keeps variables,
//! types and functions apart, and its decisions, for integer code only.
pub mod symbol_table;
pub mod builder;
