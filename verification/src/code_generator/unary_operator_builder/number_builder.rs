//! The instructions of operators on two integers, or two floating point
//! values, of one type.
use vstd::prelude::*;

use crate::code_generator::le_type::{FloatInstruction, FloatPredicate, IntInstruction, IntPredicate};
use crate::code_generator::unary_operator_builder::traits::{CompareBinaryOperator, MathOperator};

verus! {

pub open spec fn spec_int_predicate(op: CompareBinaryOperator, signed: bool) -> IntPredicate {
    match op {
        CompareBinaryOperator::Equal => IntPredicate::EQ,
        CompareBinaryOperator::NotEqual => IntPredicate::NE,
        CompareBinaryOperator::GreaterThan => if signed {
            IntPredicate::SGT
        } else {
            IntPredicate::UGT
        },
        CompareBinaryOperator::LessThan => if signed {
            IntPredicate::SLT
        } else {
            IntPredicate::ULT
        },
        CompareBinaryOperator::GreaterOrEqualThan => if signed {
            IntPredicate::SGE
        } else {
            IntPredicate::UGE
        },
        CompareBinaryOperator::LessOrEqualThan => if signed {
            IntPredicate::SLE
        } else {
            IntPredicate::ULE
        },
    }
}

/// The instruction of `op` on two integers of one type, signed or not.
pub open spec fn spec_int_instruction(op: MathOperator, signed: bool) -> IntInstruction {
    match op {
        MathOperator::Add => IntInstruction::Add,
        MathOperator::Sub => IntInstruction::Sub,
        MathOperator::Mul => IntInstruction::Mul,
        MathOperator::Div => if signed {
            IntInstruction::SignedDiv
        } else {
            IntInstruction::UnsignedDiv
        },
        MathOperator::Compare(c) => IntInstruction::Compare(spec_int_predicate(c, signed)),
    }
}

/// The instruction of `op` on two floating point values of one type.
pub open spec fn spec_float_instruction(op: MathOperator) -> FloatInstruction {
    match op {
        MathOperator::Add => FloatInstruction::Add,
        MathOperator::Sub => FloatInstruction::Sub,
        MathOperator::Mul => FloatInstruction::Mul,
        MathOperator::Div => FloatInstruction::Div,
        MathOperator::Compare(c) => FloatInstruction::Compare(
            match c {
                CompareBinaryOperator::Equal => FloatPredicate::OEQ,
                CompareBinaryOperator::NotEqual => FloatPredicate::ONE,
                CompareBinaryOperator::GreaterThan => FloatPredicate::OGT,
                CompareBinaryOperator::LessThan => FloatPredicate::OLT,
                CompareBinaryOperator::GreaterOrEqualThan => FloatPredicate::OGE,
                CompareBinaryOperator::LessOrEqualThan => FloatPredicate::OLE,
            },
        ),
    }
}

pub fn int_instruction(op: MathOperator, signed: bool) -> (r: IntInstruction)
    ensures
        r == spec_int_instruction(op, signed),
{
    match op {
        MathOperator::Add => IntInstruction::Add,
        MathOperator::Sub => IntInstruction::Sub,
        MathOperator::Mul => IntInstruction::Mul,
        MathOperator::Div => if signed {
            IntInstruction::SignedDiv
        } else {
            IntInstruction::UnsignedDiv
        },
        MathOperator::Compare(c) => {
            let p = match c {
                CompareBinaryOperator::Equal => IntPredicate::EQ,
                CompareBinaryOperator::NotEqual => IntPredicate::NE,
                CompareBinaryOperator::GreaterThan => if signed {
                    IntPredicate::SGT
                } else {
                    IntPredicate::UGT
                },
                CompareBinaryOperator::LessThan => if signed {
                    IntPredicate::SLT
                } else {
                    IntPredicate::ULT
                },
                CompareBinaryOperator::GreaterOrEqualThan => if signed {
                    IntPredicate::SGE
                } else {
                    IntPredicate::UGE
                },
                CompareBinaryOperator::LessOrEqualThan => if signed {
                    IntPredicate::SLE
                } else {
                    IntPredicate::ULE
                },
            };
            IntInstruction::Compare(p)
        },
    }
}

pub fn float_instruction(op: MathOperator) -> (r: FloatInstruction)
    ensures
        r == spec_float_instruction(op),
{
    match op {
        MathOperator::Add => FloatInstruction::Add,
        MathOperator::Sub => FloatInstruction::Sub,
        MathOperator::Mul => FloatInstruction::Mul,
        MathOperator::Div => FloatInstruction::Div,
        MathOperator::Compare(c) => {
            let p = match c {
                CompareBinaryOperator::Equal => FloatPredicate::OEQ,
                CompareBinaryOperator::NotEqual => FloatPredicate::ONE,
                CompareBinaryOperator::GreaterThan => FloatPredicate::OGT,
                CompareBinaryOperator::LessThan => FloatPredicate::OLT,
                CompareBinaryOperator::GreaterOrEqualThan => FloatPredicate::OGE,
                CompareBinaryOperator::LessOrEqualThan => FloatPredicate::OLE,
            };
            FloatInstruction::Compare(p)
        },
    }
}

/// The remainder of two integers of one type, signed or not.
pub fn mod_instruction(signed: bool) -> (r: IntInstruction)
    ensures
        r == (if signed {
            IntInstruction::SignedRem
        } else {
            IntInstruction::UnsignedRem
        }),
{
    if signed {
        IntInstruction::SignedRem
    } else {
        IntInstruction::UnsignedRem
    }
}

} // verus!
