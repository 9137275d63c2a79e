//! The parser: functions that read a syntax tree off a token cursor.
//!
//! Each function states that what it returns, and where it leaves the
//! cursor, is what the function of the same name in `grammar` describes.
use vstd::prelude::*;

use crate::lexer::{LELexer, Operator, PRes, SErr};

pub mod grammar;
pub mod common;
pub mod array;
pub mod type_declarator;
pub mod structure;
pub mod statement;
pub mod if_statement;
pub mod condition;
pub mod for_loop;
pub mod while_loop;
pub mod variable_parser;
pub mod function_parser;
pub mod laws;

pub use common::{
    parse_annotation, parse_binary_ops, parse_call_expression, parse_expression,
    parse_code_block, parse_identifier_expression, parse_little_par_expression, parse_number_expression,
    parse_primary_expression, parse_unary_ops,
};
pub use array::{parse_array_declarator, parse_array_initializer};
pub use type_declarator::parse_type_declarator;
pub use structure::{parse_structure, parse_structure_initializer};
pub use statement::parse_statement;
pub use if_statement::parse_if_statement;
pub use condition::parse_if_condition;
pub use for_loop::parse_for_loop;
pub use while_loop::parse_while_loop;
pub use variable_parser::parse_variable_declaration;
pub use function_parser::{
    parse_extern_function_prototype, parse_function, parse_function_params,
    parse_function_return_type, parse_type_list,
};

verus! {

/// The binding strength of a binary operator: a higher number binds tighter.
pub fn get_operator_precedence(op: &Operator) -> (r: usize)
    ensures
        r == grammar::spec_precedence(*op),
{
    match op {
        Operator::Plus => 20,
        Operator::Sub => 20,
        Operator::Mul => 40,
        Operator::Mod => 40,
        Operator::Div => 40,
        Operator::Assign => 10,
        Operator::Equal => 10,
        Operator::NotEqual => 10,
        Operator::GreaterThan => 10,
        Operator::LessThan => 10,
        Operator::GreaterOrEqualThan => 10,
        Operator::LessOrEqualThan => 10,
        Operator::Dot => 60,
        Operator::And => 5,
        Operator::Or => 5,
        Operator::Xor => 5,
        Operator::Not => 5,
        Operator::Rev => 5,
    }
}

/// The cursor is well formed after a parsing step and reads the same input.
pub open spec fn kept(before: LELexer, after: LELexer) -> bool {
    &&& after.wf()
    &&& after.stream() == before.stream()
}

/// A parsing step gave what `spec` describes: on success the same value,
/// on failure the same syntax error, and either way the cursor at the same
/// index.
pub open spec fn agrees<T>(spec: PRes<T>, index: nat, got: Result<T, Option<SErr>>) -> bool {
    match spec {
        Ok((t, j)) => got == Ok::<T, Option<SErr>>(t) && index == j,
        Err((e, j)) => got == Err::<T, Option<SErr>>(Some(e)) && index == j,
    }
}

} // verus!
