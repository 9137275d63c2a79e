//! The arithmetic and comparisons of integer and floating point values: which
//! operand is cast to the other's type, which instruction is built on which
//! operands, and the type of the result.
use vstd::prelude::*;

use crate::code_generator::binary_operator_builder::traits::CompareBinaryOperator;
use crate::code_generator::le_type::{
    float_predicate_holds, int_predicate_holds, int_predicate_reads_signed,
    int_predicate_reads_unsigned,
    BinaryPlan, Cast, FloatInstruction, FloatPredicate, IntInstruction, IntPredicate, LEFloatType,
    LEIntegerType, Operand, ResultType, Side,
};
use crate::code_generator::providence::{
    get_integer_promotion_providence, integer_providence, is_integer_width, promotion,
    spec_promotion, Promotion,
};

verus! {

/// The providence this builder gives every floating point type: all are
/// equal, so no floating point operand is cast.
pub fn get_float_promotion_providence(ty: &LEFloatType) -> (r: u32)
    ensures
        r == 0,
{
    0
}

/// The integer predicate of a comparison, signed or unsigned.
pub open spec fn spec_int_predicate(op: CompareBinaryOperator, signed: bool) -> IntPredicate {
    match op {
        CompareBinaryOperator::Equal => IntPredicate::EQ,
        CompareBinaryOperator::NotEqual => IntPredicate::NE,
        CompareBinaryOperator::GreaterThan => if signed {
            IntPredicate::SGT
        } else {
            IntPredicate::UGT
        },
        CompareBinaryOperator::LessThan => if signed {
            IntPredicate::SLT
        } else {
            IntPredicate::ULT
        },
        CompareBinaryOperator::GreaterOrEqualThan => if signed {
            IntPredicate::SGE
        } else {
            IntPredicate::UGE
        },
        CompareBinaryOperator::LessOrEqualThan => if signed {
            IntPredicate::SLE
        } else {
            IntPredicate::ULE
        },
    }
}

/// The ordered floating point predicate of a comparison.
pub open spec fn spec_float_predicate(op: CompareBinaryOperator) -> FloatPredicate {
    match op {
        CompareBinaryOperator::Equal => FloatPredicate::OEQ,
        CompareBinaryOperator::NotEqual => FloatPredicate::ONE,
        CompareBinaryOperator::GreaterThan => FloatPredicate::OGT,
        CompareBinaryOperator::LessThan => FloatPredicate::OLT,
        CompareBinaryOperator::GreaterOrEqualThan => FloatPredicate::OGE,
        CompareBinaryOperator::LessOrEqualThan => FloatPredicate::OLE,
    }
}

pub fn int_predicate(op: CompareBinaryOperator, signed: bool) -> (r: IntPredicate)
    ensures
        r == spec_int_predicate(op, signed),
{
    match op {
        CompareBinaryOperator::Equal => IntPredicate::EQ,
        CompareBinaryOperator::NotEqual => IntPredicate::NE,
        CompareBinaryOperator::GreaterThan => if signed {
            IntPredicate::SGT
        } else {
            IntPredicate::UGT
        },
        CompareBinaryOperator::LessThan => if signed {
            IntPredicate::SLT
        } else {
            IntPredicate::ULT
        },
        CompareBinaryOperator::GreaterOrEqualThan => if signed {
            IntPredicate::SGE
        } else {
            IntPredicate::UGE
        },
        CompareBinaryOperator::LessOrEqualThan => if signed {
            IntPredicate::SLE
        } else {
            IntPredicate::ULE
        },
    }
}

pub fn float_predicate(op: CompareBinaryOperator) -> (r: FloatPredicate)
    ensures
        r == spec_float_predicate(op),
{
    match op {
        CompareBinaryOperator::Equal => FloatPredicate::OEQ,
        CompareBinaryOperator::NotEqual => FloatPredicate::ONE,
        CompareBinaryOperator::GreaterThan => FloatPredicate::OGT,
        CompareBinaryOperator::LessThan => FloatPredicate::OLT,
        CompareBinaryOperator::GreaterOrEqualThan => FloatPredicate::OGE,
        CompareBinaryOperator::LessOrEqualThan => FloatPredicate::OLE,
    }
}

/// The plan where the operand of the higher providence is cast to the
/// other's type and stands where it stood; the result has the left operand's
/// type, or `greater_result`'s where the left operand is the one cast.
pub open spec fn promoted_plan<I>(p: Promotion, instruction: I, greater_result: ResultType) -> BinaryPlan<
    I,
> {
    match p {
        Promotion::RightToLeft => BinaryPlan {
            cast: Some(Cast { from: Side::Right, to: Side::Left }),
            instruction,
            lhs: Operand::Left,
            rhs: Operand::Casted,
            result_type: ResultType::Left,
        },
        Promotion::LeftToRight => BinaryPlan {
            cast: Some(Cast { from: Side::Left, to: Side::Right }),
            instruction,
            lhs: Operand::Casted,
            rhs: Operand::Right,
            result_type: greater_result,
        },
        Promotion::Same => BinaryPlan {
            cast: None,
            instruction,
            lhs: Operand::Left,
            rhs: Operand::Right,
            result_type: ResultType::Left,
        },
    }
}

/// The plan of addition and remainder: where one operand is to be promoted,
/// it is the other operand that is cast, to the first one's type; the cast
/// value stands on the side of the operand that was to be promoted, and the
/// result has the left operand's type.
pub open spec fn crossed_plan<I>(p: Promotion, instruction: I) -> BinaryPlan<I> {
    match p {
        Promotion::RightToLeft => BinaryPlan {
            cast: Some(Cast { from: Side::Left, to: Side::Right }),
            instruction,
            lhs: Operand::Left,
            rhs: Operand::Casted,
            result_type: ResultType::Left,
        },
        Promotion::LeftToRight => BinaryPlan {
            cast: Some(Cast { from: Side::Right, to: Side::Left }),
            instruction,
            lhs: Operand::Casted,
            rhs: Operand::Right,
            result_type: ResultType::Left,
        },
        Promotion::Same => BinaryPlan {
            cast: None,
            instruction,
            lhs: Operand::Left,
            rhs: Operand::Right,
            result_type: ResultType::Left,
        },
    }
}

/// The plan of a comparison: the operands are promoted as in
/// `promoted_plan`, and the result is a `bool`.
pub open spec fn compared_plan<I>(p: Promotion, instruction: I) -> BinaryPlan<I> {
    BinaryPlan { result_type: ResultType::Bool, ..promoted_plan(p, instruction, ResultType::Left) }
}

/// The promotion between two integer types of the language.
pub open spec fn integer_promotion(left: LEIntegerType, right: LEIntegerType) -> Promotion {
    spec_promotion(integer_providence(left).unwrap(), integer_providence(right).unwrap())
}

fn integer_operands(left: &LEIntegerType, right: &LEIntegerType) -> (r: Promotion)
    requires
        is_integer_width(left.width),
        is_integer_width(right.width),
    ensures
        r == integer_promotion(*left, *right),
{
    promotion(get_integer_promotion_providence(left), get_integer_promotion_providence(right))
}

fn promoted<I: Copy>(p: Promotion, instruction: I, greater_result: ResultType) -> (r: BinaryPlan<I>)
    ensures
        r == promoted_plan(p, instruction, greater_result),
{
    match p {
        Promotion::RightToLeft => BinaryPlan {
            cast: Some(Cast { from: Side::Right, to: Side::Left }),
            instruction,
            lhs: Operand::Left,
            rhs: Operand::Casted,
            result_type: ResultType::Left,
        },
        Promotion::LeftToRight => BinaryPlan {
            cast: Some(Cast { from: Side::Left, to: Side::Right }),
            instruction,
            lhs: Operand::Casted,
            rhs: Operand::Right,
            result_type: greater_result,
        },
        Promotion::Same => BinaryPlan {
            cast: None,
            instruction,
            lhs: Operand::Left,
            rhs: Operand::Right,
            result_type: ResultType::Left,
        },
    }
}

fn compared<I: Copy>(p: Promotion, instruction: I) -> (r: BinaryPlan<I>)
    ensures
        r == compared_plan(p, instruction),
{
    let plan = promoted(p, instruction, ResultType::Left);
    BinaryPlan { result_type: ResultType::Bool, ..plan }
}

fn crossed<I: Copy>(p: Promotion, instruction: I) -> (r: BinaryPlan<I>)
    ensures
        r == crossed_plan(p, instruction),
{
    match p {
        Promotion::RightToLeft => BinaryPlan {
            cast: Some(Cast { from: Side::Left, to: Side::Right }),
            instruction,
            lhs: Operand::Left,
            rhs: Operand::Casted,
            result_type: ResultType::Left,
        },
        Promotion::LeftToRight => BinaryPlan {
            cast: Some(Cast { from: Side::Right, to: Side::Left }),
            instruction,
            lhs: Operand::Casted,
            rhs: Operand::Right,
            result_type: ResultType::Left,
        },
        Promotion::Same => BinaryPlan {
            cast: None,
            instruction,
            lhs: Operand::Left,
            rhs: Operand::Right,
            result_type: ResultType::Left,
        },
    }
}

/// Integer addition. Where the operands' types differ in rank, the plan is
/// the crossed one: the operand of the greater rank is cast and added to
/// itself, and the other operand does not reach the instruction.
pub fn integer_add(left: &LEIntegerType, right: &LEIntegerType) -> (r: BinaryPlan<IntInstruction>)
    requires
        is_integer_width(left.width),
        is_integer_width(right.width),
    ensures
        r == crossed_plan(integer_promotion(*left, *right), IntInstruction::Add),
{
    crossed(integer_operands(left, right), IntInstruction::Add)
}

/// Integer subtraction; where the left operand is cast, the result has the
/// right operand's type.
pub fn integer_sub(left: &LEIntegerType, right: &LEIntegerType) -> (r: BinaryPlan<IntInstruction>)
    requires
        is_integer_width(left.width),
        is_integer_width(right.width),
    ensures
        r == promoted_plan(integer_promotion(*left, *right), IntInstruction::Sub, ResultType::Right),
{
    promoted(integer_operands(left, right), IntInstruction::Sub, ResultType::Right)
}

/// Integer multiplication.
pub fn integer_mul(left: &LEIntegerType, right: &LEIntegerType) -> (r: BinaryPlan<IntInstruction>)
    requires
        is_integer_width(left.width),
        is_integer_width(right.width),
    ensures
        r == promoted_plan(integer_promotion(*left, *right), IntInstruction::Mul, ResultType::Left),
{
    promoted(integer_operands(left, right), IntInstruction::Mul, ResultType::Left)
}

/// The division of integers: signed by the left operand's type where the
/// right operand is cast, else by the right operand's type.
pub open spec fn integer_div_instruction(left: LEIntegerType, right: LEIntegerType) -> IntInstruction {
    let signed = if integer_promotion(left, right) == Promotion::RightToLeft {
        left.signed
    } else {
        right.signed
    };
    if signed {
        IntInstruction::SignedDiv
    } else {
        IntInstruction::UnsignedDiv
    }
}

/// Integer division.
pub fn integer_div(left: &LEIntegerType, right: &LEIntegerType) -> (r: BinaryPlan<IntInstruction>)
    requires
        is_integer_width(left.width),
        is_integer_width(right.width),
    ensures
        r == promoted_plan(
            integer_promotion(*left, *right),
            integer_div_instruction(*left, *right),
            ResultType::Left,
        ),
{
    let p = integer_operands(left, right);
    let signed = match p {
        Promotion::RightToLeft => left.signed,
        _ => right.signed,
    };
    let instruction = if signed {
        IntInstruction::SignedDiv
    } else {
        IntInstruction::UnsignedDiv
    };
    promoted(p, instruction, ResultType::Left)
}

/// Integer remainder, signed by the left operand's type. Where the
/// operands' types differ in rank, the plan is the crossed one: the operand
/// of the greater rank is cast and combined with itself, and the other
/// operand does not reach the instruction.
pub fn integer_mod(left: &LEIntegerType, right: &LEIntegerType) -> (r: BinaryPlan<IntInstruction>)
    requires
        is_integer_width(left.width),
        is_integer_width(right.width),
    ensures
        r == crossed_plan(
            integer_promotion(*left, *right),
            if left.signed {
                IntInstruction::SignedRem
            } else {
                IntInstruction::UnsignedRem
            },
        ),
{
    let instruction = if left.signed {
        IntInstruction::SignedRem
    } else {
        IntInstruction::UnsignedRem
    };
    crossed(integer_operands(left, right), instruction)
}

/// Integer comparison, signed or unsigned by the left operand's type; the
/// result is a `bool`.
pub fn integer_cmp(left: &LEIntegerType, right: &LEIntegerType, op: CompareBinaryOperator) -> (r:
    BinaryPlan<IntInstruction>)
    requires
        is_integer_width(left.width),
        is_integer_width(right.width),
    ensures
        r == compared_plan(
            integer_promotion(*left, *right),
            IntInstruction::Compare(spec_int_predicate(op, left.signed)),
        ),
        r.result_type == ResultType::Bool,
{
    let pred = int_predicate(op, left.signed);
    compared(integer_operands(left, right), IntInstruction::Compare(pred))
}

/// The promotion between floating point operands: none, as this builder
/// gives all floating point types one providence.
pub open spec fn float_promotion() -> Promotion {
    spec_promotion(0, 0)
}

fn float_operands(left: &LEFloatType, right: &LEFloatType) -> (r: Promotion)
    ensures
        r == float_promotion(),
{
    promotion(get_float_promotion_providence(left), get_float_promotion_providence(right))
}

/// Floating point addition.
pub fn float_add(left: &LEFloatType, right: &LEFloatType) -> (r: BinaryPlan<FloatInstruction>)
    ensures
        r == promoted_plan(float_promotion(), FloatInstruction::Add, ResultType::Left),
{
    promoted(float_operands(left, right), FloatInstruction::Add, ResultType::Left)
}

/// Floating point subtraction.
pub fn float_sub(left: &LEFloatType, right: &LEFloatType) -> (r: BinaryPlan<FloatInstruction>)
    ensures
        r == promoted_plan(float_promotion(), FloatInstruction::Sub, ResultType::Left),
{
    promoted(float_operands(left, right), FloatInstruction::Sub, ResultType::Left)
}

/// Floating point multiplication.
pub fn float_mul(left: &LEFloatType, right: &LEFloatType) -> (r: BinaryPlan<FloatInstruction>)
    ensures
        r == promoted_plan(float_promotion(), FloatInstruction::Mul, ResultType::Left),
{
    promoted(float_operands(left, right), FloatInstruction::Mul, ResultType::Left)
}

/// Floating point division.
pub fn float_div(left: &LEFloatType, right: &LEFloatType) -> (r: BinaryPlan<FloatInstruction>)
    ensures
        r == promoted_plan(float_promotion(), FloatInstruction::Div, ResultType::Left),
{
    promoted(float_operands(left, right), FloatInstruction::Div, ResultType::Left)
}

/// Floating point comparison, by an ordered predicate; the result is a
/// `bool`.
pub fn float_cmp(left: &LEFloatType, right: &LEFloatType, op: CompareBinaryOperator) -> (r:
    BinaryPlan<FloatInstruction>)
    ensures
        r == compared_plan(float_promotion(), FloatInstruction::Compare(spec_float_predicate(op))),
        r.result_type == ResultType::Bool,
{
    let pred = float_predicate(op);
    compared(float_operands(left, right), FloatInstruction::Compare(pred))
}

/// An ordering comparison of integers is signed exactly when the left
/// operand's type is signed; equality and inequality are the same either
/// way.
pub proof fn lemma_int_predicate_signedness(op: CompareBinaryOperator, signed: bool)
    ensures
        (op == CompareBinaryOperator::Equal || op == CompareBinaryOperator::NotEqual)
            ==> spec_int_predicate(op, signed) == spec_int_predicate(op, !signed),
        (op != CompareBinaryOperator::Equal && op != CompareBinaryOperator::NotEqual) ==> (
        signed <==> (spec_int_predicate(op, signed) == IntPredicate::SGT || spec_int_predicate(
            op,
            signed,
        ) == IntPredicate::SLT || spec_int_predicate(op, signed) == IntPredicate::SGE
            || spec_int_predicate(op, signed) == IntPredicate::SLE)),
{
}

/// Where the two integer types are the same, no operand is cast.
pub proof fn lemma_same_integer_type_no_cast(ty: LEIntegerType)
    requires
        is_integer_width(ty.width),
    ensures
        integer_promotion(ty, ty) == Promotion::Same,
{
}


/// What a comparison says of two values.
pub open spec fn compare_binary_holds(op: CompareBinaryOperator, x: int, y: int) -> bool {
    match op {
        CompareBinaryOperator::Equal => x == y,
        CompareBinaryOperator::NotEqual => x != y,
        CompareBinaryOperator::GreaterThan => x > y,
        CompareBinaryOperator::LessThan => x < y,
        CompareBinaryOperator::GreaterOrEqualThan => x >= y,
        CompareBinaryOperator::LessOrEqualThan => x <= y,
    }
}

/// The integer predicate of a comparison reads the operands with the
/// signedness it is given and holds exactly where the comparison does.
pub proof fn law_int_predicate_means_comparison(op: CompareBinaryOperator, signed: bool, x: int, y: int)
    ensures
        signed ==> int_predicate_reads_signed(spec_int_predicate(op, signed)),
        !signed ==> int_predicate_reads_unsigned(spec_int_predicate(op, signed)),
        int_predicate_holds(spec_int_predicate(op, signed), x, y) == compare_binary_holds(op, x, y),
{
}

/// The floating point predicate of a comparison holds, on any two values
/// that are not NaN, exactly where the comparison does.
pub proof fn law_float_predicate_means_comparison(op: CompareBinaryOperator, x: int, y: int)
    ensures
        float_predicate_holds(spec_float_predicate(op), x, y) == compare_binary_holds(op, x, y),
{
}

} // verus!
