//! The building of operators on values whose types agree.
pub mod traits;
pub mod number_builder;
pub mod generic_builder;
