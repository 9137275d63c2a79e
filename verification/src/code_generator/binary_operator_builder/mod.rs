//! The building of binary operators on values of the language.
pub mod traits;
pub mod number_builder;
pub mod generic_builder;
