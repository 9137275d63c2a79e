//! Operators on two values, which must be of one type.
use vstd::prelude::*;

use crate::code_generator::le_type::{
    Conversion, FloatInstruction, IntInstruction, LEBasicTypeKind, LEIntegerType,
};
use crate::code_generator::unary_operator_builder::number_builder::{
    float_instruction, int_instruction, mod_instruction, spec_float_instruction,
    spec_int_instruction,
};
use crate::code_generator::unary_operator_builder::traits::{LogicBinaryOperator, MathOperator};

verus! {

/// Builds operators on two values of one type.
pub struct MathOperateBuilder;

/// The instruction of an operator on two numbers of one type.
#[derive(Debug, Clone, Copy, PartialEq, Eq, Structural)]
pub enum SameTypeInstruction {
    Integer(IntInstruction),
    Float(FloatInstruction),
}

/// LLVM's bitwise instructions on booleans.
#[derive(Debug, Clone, Copy, PartialEq, Eq, Structural)]
pub enum LogicInstruction {
    And,
    Or,
    Xor,
}

/// The operator has no form for operands of these types.
#[derive(Debug, Clone, Copy, PartialEq, Eq, Structural)]
pub struct NoSuitableBinaryOperator;

/// The instruction of `op` on a `left` and a `right` value: there is one
/// where the two are integers of one type or floating point values of one
/// type.
pub open spec fn spec_same_type_instruction(op: MathOperator, left: LEBasicTypeKind, right: LEBasicTypeKind) -> Option<
    SameTypeInstruction,
> {
    if left != right {
        None
    } else {
        match left {
            LEBasicTypeKind::Integer(i) => Some(
                SameTypeInstruction::Integer(spec_int_instruction(op, i.signed)),
            ),
            LEBasicTypeKind::Float(_) => Some(SameTypeInstruction::Float(spec_float_instruction(op))),
            _ => None,
        }
    }
}

/// The conversion of a value of type `value` to the type `target`, where
/// `same` says whether the two types are equal: none where they are; from a
/// boolean only to an integer; none at all between other kinds.
pub open spec fn spec_cast(value: LEBasicTypeKind, target: LEBasicTypeKind, same: bool) -> Option<
    Conversion,
> {
    if same {
        Some(Conversion::Keep)
    } else {
        match (value, target) {
            (LEBasicTypeKind::Integer(_), LEBasicTypeKind::Integer(_)) => Some(Conversion::IntToInt),
            (LEBasicTypeKind::Float(_), LEBasicTypeKind::Float(_)) => Some(Conversion::FloatToFloat),
            (LEBasicTypeKind::Integer(v), LEBasicTypeKind::Float(_)) => Some(
                if v.signed {
                    Conversion::SignedIntToFloat
                } else {
                    Conversion::UnsignedIntToFloat
                },
            ),
            (LEBasicTypeKind::Float(_), LEBasicTypeKind::Integer(t)) => Some(
                if t.signed {
                    Conversion::FloatToSignedInt
                } else {
                    Conversion::FloatToUnsignedInt
                },
            ),
            (LEBasicTypeKind::Bool, LEBasicTypeKind::Integer(_)) => Some(Conversion::IntToInt),
            _ => None,
        }
    }
}

impl MathOperateBuilder {
    /// The instruction of `op` on a `left` and a `right` value, or the
    /// refusal where they are not numbers of one type.
    pub fn build_binary(op: MathOperator, left: LEBasicTypeKind, right: LEBasicTypeKind) -> (r: Result<
        SameTypeInstruction,
        NoSuitableBinaryOperator,
    >)
        ensures
            r matches Ok(i) ==> spec_same_type_instruction(op, left, right) == Some(i),
            r is Err <==> spec_same_type_instruction(op, left, right) is None,
    {
        if left != right {
            return Err(NoSuitableBinaryOperator);
        }
        match left {
            LEBasicTypeKind::Integer(i) => Ok(SameTypeInstruction::Integer(int_instruction(op, i.signed))),
            LEBasicTypeKind::Float(_) => Ok(SameTypeInstruction::Float(float_instruction(op))),
            _ => Err(NoSuitableBinaryOperator),
        }
    }

    /// The remainder of two integers, which must be of one type.
    pub fn build_mod(left: &LEIntegerType, right: &LEIntegerType) -> (r: Option<IntInstruction>)
        ensures
            r == (if *left == *right {
                Some(
                    if left.signed {
                        IntInstruction::SignedRem
                    } else {
                        IntInstruction::UnsignedRem
                    },
                )
            } else {
                None
            }),
    {
        if *left == *right {
            Some(mod_instruction(left.signed))
        } else {
            None
        }
    }

    /// The conversion of a value of type `value` to the type `target`; `same`
    /// is whether the two types are equal.
    pub fn build_cast(value: LEBasicTypeKind, target: LEBasicTypeKind, same: bool) -> (r: Option<
        Conversion,
    >)
        ensures
            r == spec_cast(value, target, same),
    {
        if same {
            return Some(Conversion::Keep);
        }
        match (value, target) {
            (LEBasicTypeKind::Integer(_), LEBasicTypeKind::Integer(_)) => Some(Conversion::IntToInt),
            (LEBasicTypeKind::Float(_), LEBasicTypeKind::Float(_)) => Some(Conversion::FloatToFloat),
            (LEBasicTypeKind::Integer(v), LEBasicTypeKind::Float(_)) => Some(
                if v.signed {
                    Conversion::SignedIntToFloat
                } else {
                    Conversion::UnsignedIntToFloat
                },
            ),
            (LEBasicTypeKind::Float(_), LEBasicTypeKind::Integer(t)) => Some(
                if t.signed {
                    Conversion::FloatToSignedInt
                } else {
                    Conversion::FloatToUnsignedInt
                },
            ),
            (LEBasicTypeKind::Bool, LEBasicTypeKind::Integer(_)) => Some(Conversion::IntToInt),
            _ => None,
        }
    }

    /// The instruction of a logic operator.
    pub fn build_logic(op: LogicBinaryOperator) -> (r: LogicInstruction)
        ensures
            r == match op {
                LogicBinaryOperator::And => LogicInstruction::And,
                LogicBinaryOperator::Or => LogicInstruction::Or,
                LogicBinaryOperator::Xor => LogicInstruction::Xor,
            },
    {
        match op {
            LogicBinaryOperator::And => LogicInstruction::And,
            LogicBinaryOperator::Or => LogicInstruction::Or,
            LogicBinaryOperator::Xor => LogicInstruction::Xor,
        }
    }
}

/// Operands of two different types are refused by every operator.
pub proof fn lemma_mismatched_types_refused(op: MathOperator, left: LEBasicTypeKind, right: LEBasicTypeKind)
    requires
        left != right,
    ensures
        spec_same_type_instruction(op, left, right) is None,
{
}

} // verus!
