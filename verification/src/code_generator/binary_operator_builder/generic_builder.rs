//! The building of binary operators on values of any kind: the right operand
//! is first converted to the kind of the left one.
use vstd::prelude::*;

use crate::code_generator::binary_operator_builder::number_builder::{
    crossed_plan, float_add, float_cmp, float_div, float_mul, float_promotion, float_sub,
    compare_binary_holds, integer_add, integer_cmp, integer_div, integer_div_instruction, integer_mod, integer_mul,
    compared_plan, integer_promotion, integer_sub, promoted_plan, spec_float_predicate, spec_int_predicate,
};
use crate::code_generator::binary_operator_builder::traits::{
    CompareBinaryOperator, LogicBinaryOperator,
};
use crate::code_generator::le_type::{
    float_instruction_value, instruction_value, truncated_div, BinaryPlan, Conversion, FloatInstruction, IntInstruction, LEBasicTypeKind, LEFloatType,
    LEIntegerType, ResultType,
};
use crate::code_generator::providence::{is_integer_width, Promotion};

verus! {

/// Builds binary operators on values of any kind.
pub struct GenericBuilder;

/// An arithmetic operator or a comparison.
#[derive(Debug, Clone, Copy, PartialEq, Eq, Structural)]
pub enum ArithmeticOperator {
    Add,
    Sub,
    Mul,
    Div,
    Compare(CompareBinaryOperator),
}

/// LLVM's bitwise instructions on booleans.
#[derive(Debug, Clone, Copy, PartialEq, Eq, Structural)]
pub enum LogicInstruction {
    And,
    Or,
    Xor,
}

/// How an operator on two numbers is built: the conversion of the right
/// operand to the kind of the left one, then the operation.
#[derive(Debug, Clone, Copy, PartialEq, Eq, Structural)]
pub enum GenericPlan {
    Integer { right: Conversion, plan: BinaryPlan<IntInstruction> },
    Float { right: Conversion, plan: BinaryPlan<FloatInstruction> },
}

/// A number of the language: an integer of one of its widths, or a floating
/// point value.
pub open spec fn is_number(k: LEBasicTypeKind) -> bool {
    match k {
        LEBasicTypeKind::Integer(i) => is_integer_width(i.width),
        LEBasicTypeKind::Float(_) => true,
        _ => false,
    }
}

pub open spec fn spec_integer_plan(op: ArithmeticOperator, l: LEIntegerType, r: LEIntegerType) -> BinaryPlan<
    IntInstruction,
> {
    match op {
        ArithmeticOperator::Add => crossed_plan(integer_promotion(l, r), IntInstruction::Add),
        ArithmeticOperator::Sub => promoted_plan(
            integer_promotion(l, r),
            IntInstruction::Sub,
            ResultType::Right,
        ),
        ArithmeticOperator::Mul => promoted_plan(
            integer_promotion(l, r),
            IntInstruction::Mul,
            ResultType::Left,
        ),
        ArithmeticOperator::Div => promoted_plan(
            integer_promotion(l, r),
            integer_div_instruction(l, r),
            ResultType::Left,
        ),
        ArithmeticOperator::Compare(c) => compared_plan(
            integer_promotion(l, r),
            IntInstruction::Compare(spec_int_predicate(c, l.signed)),
        ),
    }
}

pub open spec fn spec_float_plan(op: ArithmeticOperator) -> BinaryPlan<FloatInstruction> {
    match op {
        ArithmeticOperator::Add => promoted_plan(float_promotion(), FloatInstruction::Add, ResultType::Left),
        ArithmeticOperator::Sub => promoted_plan(float_promotion(), FloatInstruction::Sub, ResultType::Left),
        ArithmeticOperator::Mul => promoted_plan(float_promotion(), FloatInstruction::Mul, ResultType::Left),
        ArithmeticOperator::Div => promoted_plan(float_promotion(), FloatInstruction::Div, ResultType::Left),
        ArithmeticOperator::Compare(c) => compared_plan(
            float_promotion(),
            FloatInstruction::Compare(spec_float_predicate(c)),
        ),
    }
}

pub open spec fn float_to_integer(target: LEIntegerType) -> Conversion {
    if target.signed {
        Conversion::FloatToSignedInt
    } else {
        Conversion::FloatToUnsignedInt
    }
}

pub open spec fn integer_to_float(value: LEIntegerType) -> Conversion {
    if value.signed {
        Conversion::SignedIntToFloat
    } else {
        Conversion::UnsignedIntToFloat
    }
}

/// How `op` on a `left` and a `right` number is built: a floating point
/// right operand of an integer is converted to the integer's type, an
/// integer right operand of a floating point value to that value's type.
pub open spec fn spec_generic_plan(op: ArithmeticOperator, left: LEBasicTypeKind, right: LEBasicTypeKind) -> GenericPlan {
    match (left, right) {
        (LEBasicTypeKind::Integer(l), LEBasicTypeKind::Integer(r)) => GenericPlan::Integer {
            right: Conversion::Keep,
            plan: spec_integer_plan(op, l, r),
        },
        (LEBasicTypeKind::Float(_), LEBasicTypeKind::Float(_)) => GenericPlan::Float {
            right: Conversion::Keep,
            plan: spec_float_plan(op),
        },
        (LEBasicTypeKind::Integer(l), LEBasicTypeKind::Float(_)) => GenericPlan::Integer {
            right: float_to_integer(l),
            plan: spec_integer_plan(op, l, l),
        },
        (LEBasicTypeKind::Float(_), LEBasicTypeKind::Integer(r)) => GenericPlan::Float {
            right: integer_to_float(r),
            plan: spec_float_plan(op),
        },
        _ => GenericPlan::Float { right: Conversion::Keep, plan: spec_float_plan(op) },
    }
}

/// The conversion of a value of kind `value` to the kind `target`; a value
/// that is not a number, or a number converted to a kind that is not one,
/// is kept as it is.
pub open spec fn spec_cast(value: LEBasicTypeKind, target: LEBasicTypeKind) -> Conversion {
    match (value, target) {
        (LEBasicTypeKind::Integer(_), LEBasicTypeKind::Integer(_)) => Conversion::IntToInt,
        (LEBasicTypeKind::Float(_), LEBasicTypeKind::Float(_)) => Conversion::FloatToFloat,
        (LEBasicTypeKind::Integer(v), LEBasicTypeKind::Float(_)) => integer_to_float(v),
        (LEBasicTypeKind::Float(_), LEBasicTypeKind::Integer(t)) => float_to_integer(t),
        _ => Conversion::Keep,
    }
}

pub open spec fn spec_logic_instruction(op: LogicBinaryOperator) -> LogicInstruction {
    match op {
        LogicBinaryOperator::LogicAnd => LogicInstruction::And,
        LogicBinaryOperator::LogicOr => LogicInstruction::Or,
        LogicBinaryOperator::LogicXor => LogicInstruction::Xor,
    }
}

impl GenericBuilder {
    /// The conversion of a floating point value to the integer type `target`.
    pub fn build_float_to_integer(target: &LEIntegerType) -> (r: Conversion)
        ensures
            r == float_to_integer(*target),
    {
        if target.signed {
            Conversion::FloatToSignedInt
        } else {
            Conversion::FloatToUnsignedInt
        }
    }

    /// The conversion of an integer of type `value` to a floating point type.
    pub fn build_integer_to_float(value: &LEIntegerType) -> (r: Conversion)
        ensures
            r == integer_to_float(*value),
    {
        if value.signed {
            Conversion::SignedIntToFloat
        } else {
            Conversion::UnsignedIntToFloat
        }
    }

    fn integer_plan(op: ArithmeticOperator, l: &LEIntegerType, r: &LEIntegerType) -> (p: BinaryPlan<
        IntInstruction,
    >)
        requires
            is_integer_width(l.width),
            is_integer_width(r.width),
        ensures
            p == spec_integer_plan(op, *l, *r),
    {
        match op {
            ArithmeticOperator::Add => integer_add(l, r),
            ArithmeticOperator::Sub => integer_sub(l, r),
            ArithmeticOperator::Mul => integer_mul(l, r),
            ArithmeticOperator::Div => integer_div(l, r),
            ArithmeticOperator::Compare(c) => integer_cmp(l, r, c),
        }
    }

    fn float_plan(op: ArithmeticOperator, l: &LEFloatType, r: &LEFloatType) -> (p: BinaryPlan<
        FloatInstruction,
    >)
        ensures
            p == spec_float_plan(op),
    {
        match op {
            ArithmeticOperator::Add => float_add(l, r),
            ArithmeticOperator::Sub => float_sub(l, r),
            ArithmeticOperator::Mul => float_mul(l, r),
            ArithmeticOperator::Div => float_div(l, r),
            ArithmeticOperator::Compare(c) => float_cmp(l, r, c),
        }
    }

    /// How `op` is built on a `left` and a `right` number. Other kinds of
    /// operands are refused by a panic.
    pub fn build_binary(op: ArithmeticOperator, left: LEBasicTypeKind, right: LEBasicTypeKind) -> (r:
        GenericPlan)
        requires
            is_number(left),
            is_number(right),
        ensures
            r == spec_generic_plan(op, left, right),
    {
        match (left, right) {
            (LEBasicTypeKind::Integer(l), LEBasicTypeKind::Integer(r)) => GenericPlan::Integer {
                right: Conversion::Keep,
                plan: Self::integer_plan(op, &l, &r),
            },
            (LEBasicTypeKind::Float(l), LEBasicTypeKind::Float(r)) => GenericPlan::Float {
                right: Conversion::Keep,
                plan: Self::float_plan(op, &l, &r),
            },
            (LEBasicTypeKind::Integer(l), LEBasicTypeKind::Float(_)) => GenericPlan::Integer {
                right: Self::build_float_to_integer(&l),
                plan: Self::integer_plan(op, &l, &l),
            },
            (LEBasicTypeKind::Float(l), LEBasicTypeKind::Integer(r)) => GenericPlan::Float {
                right: Self::build_integer_to_float(&r),
                plan: Self::float_plan(op, &l, &l),
            },
            _ => GenericPlan::Float {
                right: Conversion::Keep,
                plan: float_add(&LEFloatType { width: 64 }, &LEFloatType { width: 64 }),
            },
        }
    }

    /// Addition.
    pub fn build_add(left: LEBasicTypeKind, right: LEBasicTypeKind) -> (r: GenericPlan)
        requires
            is_number(left),
            is_number(right),
        ensures
            r == spec_generic_plan(ArithmeticOperator::Add, left, right),
    {
        Self::build_binary(ArithmeticOperator::Add, left, right)
    }

    /// Subtraction.
    pub fn build_sub(left: LEBasicTypeKind, right: LEBasicTypeKind) -> (r: GenericPlan)
        requires
            is_number(left),
            is_number(right),
        ensures
            r == spec_generic_plan(ArithmeticOperator::Sub, left, right),
    {
        Self::build_binary(ArithmeticOperator::Sub, left, right)
    }

    /// Multiplication.
    pub fn build_mul(left: LEBasicTypeKind, right: LEBasicTypeKind) -> (r: GenericPlan)
        requires
            is_number(left),
            is_number(right),
        ensures
            r == spec_generic_plan(ArithmeticOperator::Mul, left, right),
    {
        Self::build_binary(ArithmeticOperator::Mul, left, right)
    }

    /// Division.
    pub fn build_div(left: LEBasicTypeKind, right: LEBasicTypeKind) -> (r: GenericPlan)
        requires
            is_number(left),
            is_number(right),
        ensures
            r == spec_generic_plan(ArithmeticOperator::Div, left, right),
    {
        Self::build_binary(ArithmeticOperator::Div, left, right)
    }

    /// Comparison.
    pub fn build_compare(left: LEBasicTypeKind, right: LEBasicTypeKind, op: CompareBinaryOperator) -> (r:
        GenericPlan)
        requires
            is_number(left),
            is_number(right),
        ensures
            r == spec_generic_plan(ArithmeticOperator::Compare(op), left, right),
    {
        Self::build_binary(ArithmeticOperator::Compare(op), left, right)
    }

    /// Integer remainder.
    pub fn build_mod(left: &LEIntegerType, right: &LEIntegerType) -> (r: BinaryPlan<IntInstruction>)
        requires
            is_integer_width(left.width),
            is_integer_width(right.width),
        ensures
            r == crossed_plan(
                integer_promotion(*left, *right),
                if left.signed {
                    IntInstruction::SignedRem
                } else {
                    IntInstruction::UnsignedRem
                },
            ),
    {
        integer_mod(left, right)
    }

    /// The conversion of a value of kind `value` to the kind `target`.
    pub fn build_cast(value: LEBasicTypeKind, target: LEBasicTypeKind) -> (r: Conversion)
        ensures
            r == spec_cast(value, target),
    {
        match (value, target) {
            (LEBasicTypeKind::Integer(_), LEBasicTypeKind::Integer(_)) => Conversion::IntToInt,
            (LEBasicTypeKind::Float(_), LEBasicTypeKind::Float(_)) => Conversion::FloatToFloat,
            (LEBasicTypeKind::Integer(v), LEBasicTypeKind::Float(_)) => Self::build_integer_to_float(&v),
            (LEBasicTypeKind::Float(_), LEBasicTypeKind::Integer(t)) => Self::build_float_to_integer(&t),
            _ => Conversion::Keep,
        }
    }

    /// The instruction of a logic operator on two booleans.
    pub fn build_logic(op: LogicBinaryOperator) -> (r: LogicInstruction)
        ensures
            r == spec_logic_instruction(op),
    {
        match op {
            LogicBinaryOperator::LogicAnd => LogicInstruction::And,
            LogicBinaryOperator::LogicOr => LogicInstruction::Or,
            LogicBinaryOperator::LogicXor => LogicInstruction::Xor,
        }
    }
}

/// A number of one kind converted to another kind and back is converted by
/// opposite conversions of the same signedness.
pub proof fn lemma_cast_round_trip(i: LEIntegerType, f: LEFloatType)
    ensures
        spec_cast(LEBasicTypeKind::Integer(i), LEBasicTypeKind::Float(f)) == integer_to_float(i),
        spec_cast(LEBasicTypeKind::Float(f), LEBasicTypeKind::Integer(i)) == float_to_integer(i),
        (integer_to_float(i) == Conversion::SignedIntToFloat) <==> (float_to_integer(i)
            == Conversion::FloatToSignedInt),
{
}


/// The value of an arithmetic operator on two numbers, a comparison giving
/// 1 where it holds and 0 where not; `/` rounds toward zero.
pub open spec fn arithmetic_value(op: ArithmeticOperator, x: int, y: int) -> int {
    match op {
        ArithmeticOperator::Add => x + y,
        ArithmeticOperator::Sub => x - y,
        ArithmeticOperator::Mul => x * y,
        ArithmeticOperator::Div => truncated_div(x, y),
        ArithmeticOperator::Compare(c) => if compare_binary_holds(c, x, y) { 1 } else { 0 },
    }
}

/// How an integer plan reads its operands: a comparison as the left
/// operand's type says, a division as the type both operands are brought to
/// says, and the other operators, which do not depend on it, as signed.
pub open spec fn integer_plan_reads_signed(op: ArithmeticOperator, l: LEIntegerType, r: LEIntegerType) -> bool {
    match op {
        ArithmeticOperator::Compare(_) => l.signed,
        ArithmeticOperator::Div => if integer_promotion(l, r) == Promotion::RightToLeft {
            l.signed
        } else {
            r.signed
        },
        _ => true,
    }
}

/// The instruction of an integer plan computes its operator: on any two
/// operands, read as the plan reads them, it gives what the operator means
/// (`-` subtracts, `/` divides, `>` holds where the left is greater, and so
/// on).
pub proof fn law_integer_plan_computes_operator(
    op: ArithmeticOperator,
    l: LEIntegerType,
    r: LEIntegerType,
    x: int,
    y: int,
)
    ensures
        instruction_value(spec_integer_plan(op, l, r).instruction, integer_plan_reads_signed(op, l, r), x, y)
            == Some(arithmetic_value(op, x, y)),
{
}

/// The instruction of a floating point plan computes its operator on any
/// two values that it computes exactly (a quotient only where it has no
/// fraction).
pub proof fn law_float_plan_computes_operator(op: ArithmeticOperator, x: int, y: int)
    requires
        op == ArithmeticOperator::Div ==> y != 0 && x % y == 0,
    ensures
        float_instruction_value(spec_float_plan(op).instruction, x, y) == Some(arithmetic_value(op, x, y)),
{
}

} // verus!
