//! The checks of the builder of expressions: what may be read, assigned to
//! and accessed, the operands of a remainder, and the arguments of a call.
use vstd::prelude::*;

use crate::code_generator::generator::check_call_arguments;
use crate::code_generator::le_type::{has_vector, type_text, LEIntegerType, LEType};
use crate::error::{CompileError, SCompileError};
use crate::lexer::Operator;

verus! {

/// What an expression gives: a place (a pointer to a value), a value, or
/// nothing.
#[derive(Debug, Clone, Copy, PartialEq, Eq, Structural)]
pub enum ExpressionKind {
    Left,
    Right,
    Unit,
}

/// How the value of an expression is read: loaded from its place, or taken
/// as it is.
#[derive(Debug, Clone, Copy, PartialEq, Eq, Structural)]
pub enum ReadAction {
    Load,
    Value,
}

/// The checks of the builder of expressions.
pub struct LEBuilder;

impl LEBuilder {
    /// How an expression's value is read; one that gives nothing has none.
    pub fn read_expression(kind: ExpressionKind) -> (r: Result<ReadAction, CompileError>)
        ensures
            match kind {
                ExpressionKind::Left => r matches Ok(ReadAction::Load),
                ExpressionKind::Right => r matches Ok(ReadAction::Value),
                ExpressionKind::Unit => r matches Err(e) && e@ == SCompileError::ExpressionIsNotRightValueExpression,
            },
    {
        match kind {
            ExpressionKind::Left => Ok(ReadAction::Load),
            ExpressionKind::Right => Ok(ReadAction::Value),
            ExpressionKind::Unit => Err(CompileError::ExpressionIsNotRightValueExpression),
        }
    }

    /// Only a place can be assigned to.
    pub fn build_assign(target: ExpressionKind) -> (r: Result<(), CompileError>)
        ensures
            target == ExpressionKind::Left ==> r is Ok,
            target != ExpressionKind::Left ==> (r matches Err(e) && e@ == SCompileError::ExpressionIsNotLeftValueExpression),
    {
        match target {
            ExpressionKind::Left => Ok(()),
            _ => Err(CompileError::ExpressionIsNotLeftValueExpression),
        }
    }

    /// Only a place has members to access; the error that any other
    /// expression gives names a right value.
    pub fn build_dot(target: ExpressionKind) -> (r: Result<(), CompileError>)
        ensures
            target == ExpressionKind::Left ==> r is Ok,
            target != ExpressionKind::Left ==> (r matches Err(e) && e@ == SCompileError::ExpressionIsNotRightValueExpression),
    {
        match target {
            ExpressionKind::Left => Ok(()),
            _ => Err(CompileError::ExpressionIsNotRightValueExpression),
        }
    }

    /// The operands of a remainder must be integers; the error names the
    /// operator and both types.
    pub fn build_mod(left: &LEType, right: &LEType) -> (r: Result<(LEIntegerType, LEIntegerType), CompileError>)
        requires
            !has_vector(*left),
            !has_vector(*right),
        ensures
            match (*left, *right) {
                (LEType::Integer(a), LEType::Integer(b)) => r == Ok::<(LEIntegerType, LEIntegerType), CompileError>((a, b)),
                _ => r matches Err(e) && e@ == SCompileError::NoSuitableBinaryOperator(
                    Operator::Mod,
                    type_text(*left),
                    type_text(*right),
                ),
            },
    {
        match (left, right) {
            (LEType::Integer(a), LEType::Integer(b)) => Ok((*a, *b)),
            _ => Err(CompileError::NoSuitableBinaryOperator {
                op: Operator::Mod,
                left_type: left.to_text(),
                right_type: right.to_text(),
            }),
        }
    }

    /// The arguments of a call must have their parameters' types, pair by
    /// pair as far as both go; the error names the first parameter's type
    /// and the argument's type that differ.
    pub fn build_call(param_types: &Vec<LEType>, argument_types: &Vec<LEType>) -> (r: Result<(), CompileError>)
        requires
            forall|i: int| 0 <= i < param_types@.len() ==> !has_vector(#[trigger] param_types@[i]),
            forall|i: int| 0 <= i < argument_types@.len() ==> !has_vector(#[trigger] argument_types@[i]),
        ensures
            match r {
                Ok(()) => forall|j: int| 0 <= j < param_types@.len() && j < argument_types@.len() ==> #[trigger] param_types@[j] == argument_types@[j],
                Err(e) => exists|i: int| 0 <= i < param_types@.len() && i < argument_types@.len()
                    && param_types@[i] != argument_types@[i]
                    && (forall|j: int| 0 <= j < i ==> #[trigger] param_types@[j] == argument_types@[j])
                    && e@ == SCompileError::TypeMismatched(type_text(param_types@[i]), type_text(argument_types@[i])),
            },
    {
        match check_call_arguments(param_types, argument_types) {
            None => Ok(()),
            Some(i) => Err(CompileError::TypeMismatched {
                expect: param_types[i].to_text(),
                found: argument_types[i].to_text(),
            }),
        }
    }
}

} // verus!
