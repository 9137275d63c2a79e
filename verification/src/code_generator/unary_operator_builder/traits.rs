//! The comparison and logic operators between two values of one type.
use vstd::prelude::*;

verus! {

/// A comparison between two values.
#[derive(Debug, Clone, Copy, PartialEq, Eq, Structural)]
pub enum CompareBinaryOperator {
    Equal,
    NotEqual,
    GreaterThan,
    LessThan,
    GreaterOrEqualThan,
    LessOrEqualThan,
}

/// An arithmetic operator or a comparison between two values of one type.
#[derive(Debug, Clone, Copy, PartialEq, Eq, Structural)]
pub enum MathOperator {
    Add,
    Sub,
    Mul,
    Div,
    Compare(CompareBinaryOperator),
}

/// A logic operator between two booleans.
#[derive(Debug, Clone, Copy, PartialEq, Eq, Structural)]
pub enum LogicBinaryOperator {
    And,
    Or,
    Xor,
}

} // verus!
