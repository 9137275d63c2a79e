//! The comparison and logic operators between two values.
use vstd::prelude::*;

verus! {

/// A comparison between two values.
#[derive(Debug, Clone, Copy, PartialEq, Eq, Structural)]
pub enum CompareBinaryOperator {
    Equal,
    NotEqual,
    GreaterThan,
    LessThan,
    GreaterOrEqualThan,
    LessOrEqualThan,
}

/// A logic operator between two booleans.
#[derive(Debug, Clone, Copy, PartialEq, Eq, Structural)]
pub enum LogicBinaryOperator {
    LogicAnd,
    LogicOr,
    LogicXor,
}

} // verus!
