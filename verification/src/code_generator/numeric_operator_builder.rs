//! Comparisons and conversions of numeric values.
use vstd::prelude::*;

use crate::code_generator::le_type::{
    float_instruction_value, float_predicate_holds, instruction_value, truncated_div, int_predicate_holds, int_predicate_reads_signed,
    int_predicate_reads_unsigned, Conversion, FloatInstruction, FloatPredicate, IntInstruction,
    IntPredicate, LEIntegerType, NumericTypeEnum, Operand, Side,
};
use crate::code_generator::providence::{
    get_number_providence, integer_providence, is_integer_width, number_providence, promotion, spec_promotion,
    Promotion,
};

verus! {

/// Builds operators on numeric values.
pub struct NumericOperatorBuilder;

/// A comparison between two numeric values.
#[derive(Debug, Clone, Copy, PartialEq, Eq, Structural)]
pub enum CompareOperator {
    Equal,
    GreaterThan,
    LessThan,
    GreaterOrEqualThan,
    LessOrEqualThan,
}

/// The integer predicate of a comparison. Unsigned, "greater or equal" is
/// built as "greater" and "less or equal" as "less".
pub open spec fn spec_integer_compare(op: CompareOperator, signed: bool) -> IntPredicate {
    match op {
        CompareOperator::Equal => IntPredicate::EQ,
        CompareOperator::GreaterThan => if signed {
            IntPredicate::SGT
        } else {
            IntPredicate::UGT
        },
        CompareOperator::LessThan => if signed {
            IntPredicate::SLT
        } else {
            IntPredicate::ULT
        },
        CompareOperator::GreaterOrEqualThan => if signed {
            IntPredicate::SGE
        } else {
            IntPredicate::UGT
        },
        CompareOperator::LessOrEqualThan => if signed {
            IntPredicate::SLE
        } else {
            IntPredicate::ULT
        },
    }
}

pub open spec fn spec_float_compare(op: CompareOperator) -> FloatPredicate {
    match op {
        CompareOperator::Equal => FloatPredicate::OEQ,
        CompareOperator::GreaterThan => FloatPredicate::OGT,
        CompareOperator::LessThan => FloatPredicate::OLT,
        CompareOperator::GreaterOrEqualThan => FloatPredicate::OGE,
        CompareOperator::LessOrEqualThan => FloatPredicate::OLE,
    }
}

/// The conversion of a number of type `from` to the type `to`.
pub open spec fn spec_numeric_cast(from: NumericTypeEnum, to: NumericTypeEnum) -> Conversion {
    if from == to {
        Conversion::Keep
    } else {
        match (from, to) {
            (NumericTypeEnum::IntegerType(_), NumericTypeEnum::IntegerType(_)) => Conversion::IntToInt,
            (NumericTypeEnum::IntegerType(f), NumericTypeEnum::FloatType(_)) => if f.signed {
                Conversion::SignedIntToFloat
            } else {
                Conversion::UnsignedIntToFloat
            },
            (NumericTypeEnum::FloatType(_), NumericTypeEnum::IntegerType(t)) => if t.signed {
                Conversion::FloatToSignedInt
            } else {
                Conversion::FloatToUnsignedInt
            },
            (NumericTypeEnum::FloatType(_), NumericTypeEnum::FloatType(_)) => Conversion::FloatToFloat,
        }
    }
}

impl NumericOperatorBuilder {
    /// The predicate of an integer comparison.
    pub fn build_integer_compare(op: CompareOperator, signed: bool) -> (r: IntPredicate)
        ensures
            r == spec_integer_compare(op, signed),
    {
        if signed {
            match op {
                CompareOperator::Equal => IntPredicate::EQ,
                CompareOperator::GreaterThan => IntPredicate::SGT,
                CompareOperator::LessThan => IntPredicate::SLT,
                CompareOperator::GreaterOrEqualThan => IntPredicate::SGE,
                CompareOperator::LessOrEqualThan => IntPredicate::SLE,
            }
        } else {
            match op {
                CompareOperator::Equal => IntPredicate::EQ,
                CompareOperator::GreaterThan => IntPredicate::UGT,
                CompareOperator::LessThan => IntPredicate::ULT,
                CompareOperator::GreaterOrEqualThan => IntPredicate::UGT,
                CompareOperator::LessOrEqualThan => IntPredicate::ULT,
            }
        }
    }

    /// The predicate of a floating point comparison.
    pub fn build_float_compare(op: CompareOperator) -> (r: FloatPredicate)
        ensures
            r == spec_float_compare(op),
    {
        match op {
            CompareOperator::Equal => FloatPredicate::OEQ,
            CompareOperator::GreaterThan => FloatPredicate::OGT,
            CompareOperator::LessThan => FloatPredicate::OLT,
            CompareOperator::GreaterOrEqualThan => FloatPredicate::OGE,
            CompareOperator::LessOrEqualThan => FloatPredicate::OLE,
        }
    }

    /// The conversion of a number of type `from` to the type `to`: none
    /// where the types are equal; an integer converted to floating point is
    /// read as signed or unsigned by its own type, a floating point value
    /// converted to an integer by the target type.
    pub fn build_numeric_cast(from: NumericTypeEnum, to: NumericTypeEnum) -> (r: Conversion)
        ensures
            r == spec_numeric_cast(from, to),
    {
        if from == to {
            return Conversion::Keep;
        }
        match (from, to) {
            (NumericTypeEnum::IntegerType(_), NumericTypeEnum::IntegerType(_)) => Conversion::IntToInt,
            (NumericTypeEnum::IntegerType(f), NumericTypeEnum::FloatType(_)) => if f.signed {
                Conversion::SignedIntToFloat
            } else {
                Conversion::UnsignedIntToFloat
            },
            (NumericTypeEnum::FloatType(_), NumericTypeEnum::IntegerType(t)) => if t.signed {
                Conversion::FloatToSignedInt
            } else {
                Conversion::FloatToUnsignedInt
            },
            (NumericTypeEnum::FloatType(_), NumericTypeEnum::FloatType(_)) => Conversion::FloatToFloat,
        }
    }
}

/// An arithmetic operator or a comparison on numbers.
#[derive(Debug, Clone, Copy, PartialEq, Eq, Structural)]
pub enum NumericOperator {
    Add,
    Sub,
    Mul,
    Div,
    Compare(CompareOperator),
}

/// A conversion of the operand `from` to the type of the operand `to`.
#[derive(Debug, Clone, Copy, PartialEq, Eq, Structural)]
pub struct NumericCast {
    pub from: Side,
    pub to: Side,
    pub conversion: Conversion,
}

/// An integer or a floating point instruction.
#[derive(Debug, Clone, Copy, PartialEq, Eq, Structural)]
pub enum NumericInstruction {
    Integer(IntInstruction),
    Float(FloatInstruction),
}

/// What an operation on numbers gives: an integer, signed or not, or a
/// floating point value.
#[derive(Debug, Clone, Copy, PartialEq, Eq, Structural)]
pub enum NumericResult {
    Integer(bool),
    Float,
}

/// How an operator on two numbers is built: an optional conversion of one
/// operand, the instruction, what stands in its operand slots, and what it
/// gives.
#[derive(Debug, Clone, Copy, PartialEq, Eq, Structural)]
pub struct NumericPlan {
    pub cast: Option<NumericCast>,
    pub instruction: NumericInstruction,
    pub lhs: Operand,
    pub rhs: Operand,
    pub result: NumericResult,
}

pub open spec fn to_float(signed: bool) -> Conversion {
    if signed {
        Conversion::SignedIntToFloat
    } else {
        Conversion::UnsignedIntToFloat
    }
}

pub open spec fn float_instruction(op: NumericOperator) -> FloatInstruction {
    match op {
        NumericOperator::Add => FloatInstruction::Add,
        NumericOperator::Sub => FloatInstruction::Sub,
        NumericOperator::Mul => FloatInstruction::Mul,
        NumericOperator::Div => FloatInstruction::Div,
        NumericOperator::Compare(c) => FloatInstruction::Compare(spec_float_compare(c)),
    }
}

pub open spec fn float_result(op: NumericOperator) -> NumericResult {
    match op {
        NumericOperator::Compare(_) => NumericResult::Integer(true),
        _ => NumericResult::Float,
    }
}

/// The plan on two integers, by the promotion `p` between their types.
pub open spec fn integer_plan(op: NumericOperator, p: Promotion, a: LEIntegerType, b: LEIntegerType) -> NumericPlan {
    let cast = match p {
        Promotion::RightToLeft => Some(
            NumericCast { from: Side::Right, to: Side::Left, conversion: Conversion::IntToInt },
        ),
        Promotion::LeftToRight => if op is Compare {
            Some(NumericCast { from: Side::Right, to: Side::Left, conversion: Conversion::IntToInt })
        } else {
            Some(NumericCast { from: Side::Left, to: Side::Right, conversion: Conversion::IntToInt })
        },
        Promotion::Same => None,
    };
    let operands: (Operand, Operand) = match p {
        Promotion::Same => (Operand::Left, Operand::Right),
        Promotion::RightToLeft => match op {
            NumericOperator::Sub => (Operand::Casted, Operand::Right),
            _ => (Operand::Left, Operand::Casted),
        },
        Promotion::LeftToRight => match op {
            NumericOperator::Div => (Operand::Left, Operand::Casted),
            NumericOperator::Compare(_) => (Operand::Left, Operand::Casted),
            _ => (Operand::Casted, Operand::Right),
        },
    };
    let signed = if p == Promotion::LeftToRight {
        b.signed
    } else {
        a.signed
    };
    let instruction = match op {
        NumericOperator::Add => IntInstruction::Add,
        NumericOperator::Sub => IntInstruction::Sub,
        NumericOperator::Mul => IntInstruction::Mul,
        NumericOperator::Div => if signed {
            IntInstruction::SignedDiv
        } else {
            IntInstruction::UnsignedDiv
        },
        NumericOperator::Compare(c) => IntInstruction::Compare(spec_integer_compare(c, signed)),
    };
    let result_signed = match op {
        NumericOperator::Div => if p == Promotion::LeftToRight && !b.signed {
            a.signed
        } else {
            signed
        },
        _ => signed,
    };
    NumericPlan {
        cast,
        instruction: NumericInstruction::Integer(instruction),
        lhs: operands.0,
        rhs: operands.1,
        result: NumericResult::Integer(result_signed),
    }
}

/// The plan on two floating point values, by the promotion `p`: the
/// operand to be promoted is converted, and the left operand stands first.
pub open spec fn float_plan(op: NumericOperator, p: Promotion) -> NumericPlan {
    let cast = match p {
        Promotion::RightToLeft => Some(
            NumericCast { from: Side::Right, to: Side::Left, conversion: Conversion::FloatToFloat },
        ),
        Promotion::LeftToRight => Some(
            NumericCast { from: Side::Left, to: Side::Right, conversion: Conversion::FloatToFloat },
        ),
        Promotion::Same => None,
    };
    let rhs = if p == Promotion::Same {
        Operand::Right
    } else {
        Operand::Casted
    };
    NumericPlan {
        cast,
        instruction: NumericInstruction::Float(float_instruction(op)),
        lhs: Operand::Left,
        rhs,
        result: float_result(op),
    }
}

/// How `op` on a number of type `left` and one of type `right` is built. A
/// floating point type always ranks above an integer one, so in a mixed
/// operation the integer is converted.
pub open spec fn spec_numeric_plan(op: NumericOperator, left: NumericTypeEnum, right: NumericTypeEnum) -> NumericPlan {
    let p = spec_promotion(number_providence(left), number_providence(right));
    match (left, right) {
        (NumericTypeEnum::IntegerType(a), NumericTypeEnum::IntegerType(b)) => integer_plan(op, p, a, b),
        (NumericTypeEnum::FloatType(_), NumericTypeEnum::FloatType(_)) => float_plan(op, p),
        (NumericTypeEnum::FloatType(_), NumericTypeEnum::IntegerType(b)) => NumericPlan {
            cast: Some(NumericCast { from: Side::Right, to: Side::Left, conversion: to_float(b.signed) }),
            instruction: NumericInstruction::Float(float_instruction(op)),
            lhs: if op is Compare {
                Operand::Casted
            } else {
                Operand::Left
            },
            rhs: if op is Compare {
                Operand::Left
            } else {
                Operand::Casted
            },
            result: float_result(op),
        },
        (NumericTypeEnum::IntegerType(a), NumericTypeEnum::FloatType(_)) => NumericPlan {
            cast: Some(NumericCast { from: Side::Left, to: Side::Right, conversion: to_float(a.signed) }),
            instruction: NumericInstruction::Float(float_instruction(op)),
            lhs: if op is Compare {
                Operand::Casted
            } else {
                Operand::Right
            },
            rhs: if op is Compare {
                Operand::Right
            } else {
                Operand::Casted
            },
            result: float_result(op),
        },
    }
}

/// A number type of the language: an integer of one of its widths, or a
/// floating point type.
pub open spec fn is_number_type(t: NumericTypeEnum) -> bool {
    t matches NumericTypeEnum::IntegerType(i) ==> is_integer_width(i.width)
}

impl NumericOperatorBuilder {
    fn float_instr(op: NumericOperator) -> (r: FloatInstruction)
        ensures
            r == float_instruction(op),
    {
        match op {
            NumericOperator::Add => FloatInstruction::Add,
            NumericOperator::Sub => FloatInstruction::Sub,
            NumericOperator::Mul => FloatInstruction::Mul,
            NumericOperator::Div => FloatInstruction::Div,
            NumericOperator::Compare(c) => FloatInstruction::Compare(Self::build_float_compare(c)),
        }
    }

    fn float_res(op: NumericOperator) -> (r: NumericResult)
        ensures
            r == float_result(op),
    {
        match op {
            NumericOperator::Compare(_) => NumericResult::Integer(true),
            _ => NumericResult::Float,
        }
    }

    fn integers(op: NumericOperator, p: Promotion, a: LEIntegerType, b: LEIntegerType) -> (r: NumericPlan)
        ensures
            r == integer_plan(op, p, a, b),
    {
        let is_compare = match op {
            NumericOperator::Compare(_) => true,
            _ => false,
        };
        let cast = match p {
            Promotion::RightToLeft => Some(
                NumericCast { from: Side::Right, to: Side::Left, conversion: Conversion::IntToInt },
            ),
            Promotion::LeftToRight => if is_compare {
                Some(NumericCast { from: Side::Right, to: Side::Left, conversion: Conversion::IntToInt })
            } else {
                Some(NumericCast { from: Side::Left, to: Side::Right, conversion: Conversion::IntToInt })
            },
            Promotion::Same => None,
        };
        let operands: (Operand, Operand) = match p {
            Promotion::Same => (Operand::Left, Operand::Right),
            Promotion::RightToLeft => match op {
                NumericOperator::Sub => (Operand::Casted, Operand::Right),
                _ => (Operand::Left, Operand::Casted),
            },
            Promotion::LeftToRight => match op {
                NumericOperator::Div => (Operand::Left, Operand::Casted),
                NumericOperator::Compare(_) => (Operand::Left, Operand::Casted),
                _ => (Operand::Casted, Operand::Right),
            },
        };
        let greater = match p {
            Promotion::LeftToRight => true,
            _ => false,
        };
        let signed = if greater {
            b.signed
        } else {
            a.signed
        };
        let instruction = match op {
            NumericOperator::Add => IntInstruction::Add,
            NumericOperator::Sub => IntInstruction::Sub,
            NumericOperator::Mul => IntInstruction::Mul,
            NumericOperator::Div => if signed {
                IntInstruction::SignedDiv
            } else {
                IntInstruction::UnsignedDiv
            },
            NumericOperator::Compare(c) => IntInstruction::Compare(Self::build_integer_compare(c, signed)),
        };
        let result_signed = match op {
            NumericOperator::Div => if greater && !b.signed {
                a.signed
            } else {
                signed
            },
            _ => signed,
        };
        NumericPlan {
            cast,
            instruction: NumericInstruction::Integer(instruction),
            lhs: operands.0,
            rhs: operands.1,
            result: NumericResult::Integer(result_signed),
        }
    }

    fn floats(op: NumericOperator, p: Promotion) -> (r: NumericPlan)
        ensures
            r == float_plan(op, p),
    {
        let cast = match p {
            Promotion::RightToLeft => Some(
                NumericCast { from: Side::Right, to: Side::Left, conversion: Conversion::FloatToFloat },
            ),
            Promotion::LeftToRight => Some(
                NumericCast { from: Side::Left, to: Side::Right, conversion: Conversion::FloatToFloat },
            ),
            Promotion::Same => None,
        };
        let rhs = match p {
            Promotion::Same => Operand::Right,
            _ => Operand::Casted,
        };
        NumericPlan {
            cast,
            instruction: NumericInstruction::Float(Self::float_instr(op)),
            lhs: Operand::Left,
            rhs,
            result: Self::float_res(op),
        }
    }

    /// How `op` on a number of type `left` and one of type `right` is
    /// built.
    pub fn build_numeric(op: NumericOperator, left: &NumericTypeEnum, right: &NumericTypeEnum) -> (r: NumericPlan)
        requires
            is_number_type(*left),
            is_number_type(*right),
        ensures
            r == spec_numeric_plan(op, *left, *right),
    {
        let p = promotion(get_number_providence(left), get_number_providence(right));
        let is_compare = match op {
            NumericOperator::Compare(_) => true,
            _ => false,
        };
        match (left, right) {
            (NumericTypeEnum::IntegerType(a), NumericTypeEnum::IntegerType(b)) => Self::integers(op, p, *a, *b),
            (NumericTypeEnum::FloatType(_), NumericTypeEnum::FloatType(_)) => Self::floats(op, p),
            (NumericTypeEnum::FloatType(_), NumericTypeEnum::IntegerType(b)) => NumericPlan {
                cast: Some(NumericCast {
                    from: Side::Right,
                    to: Side::Left,
                    conversion: if b.signed {
                        Conversion::SignedIntToFloat
                    } else {
                        Conversion::UnsignedIntToFloat
                    },
                }),
                instruction: NumericInstruction::Float(Self::float_instr(op)),
                lhs: if is_compare {
                    Operand::Casted
                } else {
                    Operand::Left
                },
                rhs: if is_compare {
                    Operand::Left
                } else {
                    Operand::Casted
                },
                result: Self::float_res(op),
            },
            (NumericTypeEnum::IntegerType(a), NumericTypeEnum::FloatType(_)) => NumericPlan {
                cast: Some(NumericCast {
                    from: Side::Left,
                    to: Side::Right,
                    conversion: if a.signed {
                        Conversion::SignedIntToFloat
                    } else {
                        Conversion::UnsignedIntToFloat
                    },
                }),
                instruction: NumericInstruction::Float(Self::float_instr(op)),
                lhs: if is_compare {
                    Operand::Casted
                } else {
                    Operand::Right
                },
                rhs: if is_compare {
                    Operand::Right
                } else {
                    Operand::Casted
                },
                result: Self::float_res(op),
            },
        }
    }

    /// Addition of two numbers.
    pub fn build_numeric_add(left: &NumericTypeEnum, right: &NumericTypeEnum) -> (r: NumericPlan)
        requires
            is_number_type(*left),
            is_number_type(*right),
        ensures
            r == spec_numeric_plan(NumericOperator::Add, *left, *right),
    {
        Self::build_numeric(NumericOperator::Add, left, right)
    }

    /// Subtraction of two numbers.
    pub fn build_numeric_sub(left: &NumericTypeEnum, right: &NumericTypeEnum) -> (r: NumericPlan)
        requires
            is_number_type(*left),
            is_number_type(*right),
        ensures
            r == spec_numeric_plan(NumericOperator::Sub, *left, *right),
    {
        Self::build_numeric(NumericOperator::Sub, left, right)
    }

    /// Multiplication of two numbers.
    pub fn build_numeric_mul(left: &NumericTypeEnum, right: &NumericTypeEnum) -> (r: NumericPlan)
        requires
            is_number_type(*left),
            is_number_type(*right),
        ensures
            r == spec_numeric_plan(NumericOperator::Mul, *left, *right),
    {
        Self::build_numeric(NumericOperator::Mul, left, right)
    }

    /// Division of two numbers.
    pub fn build_numeric_div(left: &NumericTypeEnum, right: &NumericTypeEnum) -> (r: NumericPlan)
        requires
            is_number_type(*left),
            is_number_type(*right),
        ensures
            r == spec_numeric_plan(NumericOperator::Div, *left, *right),
    {
        Self::build_numeric(NumericOperator::Div, left, right)
    }

    /// Comparison of two numbers.
    pub fn build_numeric_compare(left: &NumericTypeEnum, right: &NumericTypeEnum, op: CompareOperator) -> (r: NumericPlan)
        requires
            is_number_type(*left),
            is_number_type(*right),
        ensures
            r == spec_numeric_plan(NumericOperator::Compare(op), *left, *right),
    {
        Self::build_numeric(NumericOperator::Compare(op), left, right)
    }
}

/// The conversions of a call's numeric arguments to the types of the
/// function's parameters, pair by pair as far as both go: none where an
/// argument has its parameter's type.
pub fn call_argument_conversions(param_types: &Vec<NumericTypeEnum>, argument_types: &Vec<NumericTypeEnum>) -> (r: Vec<Conversion>)
    ensures
        r@.len() == if param_types@.len() < argument_types@.len() {
            param_types@.len()
        } else {
            argument_types@.len()
        },
        forall|i: int| 0 <= i < r@.len() ==> #[trigger] r@[i] == spec_numeric_cast(argument_types@[i], param_types@[i]),
{
    let mut r: Vec<Conversion> = Vec::new();
    let mut i: usize = 0;
    while i < param_types.len() && i < argument_types.len()
        invariant
            i <= param_types@.len(),
            i <= argument_types@.len(),
            r@.len() == i,
            forall|j: int| 0 <= j < i ==> #[trigger] r@[j] == spec_numeric_cast(argument_types@[j], param_types@[j]),
        decreases param_types@.len() - i,
    {
        r.push(NumericOperatorBuilder::build_numeric_cast(argument_types[i], param_types[i]));
        i = i + 1;
    }
    r
}

/// Every integer type of the language ranks below every floating point
/// type: in a mixed operation it is the integer that is converted.
pub proof fn law_floats_rank_above_integers(i: LEIntegerType, f: crate::code_generator::le_type::LEFloatType)
    requires
        is_integer_width(i.width),
    ensures
        spec_promotion(
            number_providence(NumericTypeEnum::IntegerType(i)),
            number_providence(NumericTypeEnum::FloatType(f)),
        ) == Promotion::LeftToRight,
        spec_promotion(
            number_providence(NumericTypeEnum::FloatType(f)),
            number_providence(NumericTypeEnum::IntegerType(i)),
        ) == Promotion::RightToLeft,
{
}


/// What a comparison says of two values.
pub open spec fn compare_holds(op: CompareOperator, x: int, y: int) -> bool {
    match op {
        CompareOperator::Equal => x == y,
        CompareOperator::GreaterThan => x > y,
        CompareOperator::LessThan => x < y,
        CompareOperator::GreaterOrEqualThan => x >= y,
        CompareOperator::LessOrEqualThan => x <= y,
    }
}

/// The floating point predicate of a comparison means that comparison: on
/// any two values that are not NaN, it holds exactly where the comparison
/// does (`x > y` is built as "ordered greater than", and so on).
pub proof fn law_float_compare_means_comparison(op: CompareOperator, x: int, y: int)
    ensures
        float_predicate_holds(spec_float_compare(op), x, y) == compare_holds(op, x, y),
{
}

/// The integer predicate of a comparison reads the operands with the
/// signedness it is given, and means the comparison: signed, for every
/// comparison; unsigned, for equality, "greater" and "less" (unsigned
/// "greater or equal" and "less or equal" are built as "greater" and
/// "less").
pub proof fn law_integer_compare_means_comparison(op: CompareOperator, signed: bool, x: int, y: int)
    ensures
        signed ==> int_predicate_reads_signed(spec_integer_compare(op, signed)),
        !signed ==> int_predicate_reads_unsigned(spec_integer_compare(op, signed)),
        signed || (op != CompareOperator::GreaterOrEqualThan && op != CompareOperator::LessOrEqualThan)
            ==> int_predicate_holds(spec_integer_compare(op, signed), x, y) == compare_holds(op, x, y),
{
}


/// The value of an operator on two numbers, a comparison giving 1 where it
/// holds and 0 where not; `/` rounds toward zero.
pub open spec fn numeric_value(op: NumericOperator, x: int, y: int) -> int {
    match op {
        NumericOperator::Add => x + y,
        NumericOperator::Sub => x - y,
        NumericOperator::Mul => x * y,
        NumericOperator::Div => truncated_div(x, y),
        NumericOperator::Compare(c) => if compare_holds(c, x, y) { 1 } else { 0 },
    }
}

/// Whether the type that two integer operands are brought to is signed:
/// that of the operand of lower providence, the left one where they rank
/// alike.
pub open spec fn common_signed(a: LEIntegerType, b: LEIntegerType) -> bool {
    if integer_providence(a).unwrap() > integer_providence(b).unwrap() {
        b.signed
    } else {
        a.signed
    }
}

/// The instruction of an operator on two integers computes the operator on
/// the operands read with the signedness of the type they are brought to:
/// `-` subtracts, `/` divides, `>` holds where the left is greater, and so
/// on. Unsigned "greater or equal" and "less or equal" are left out: they
/// are built as "greater" and "less".
pub proof fn law_numeric_integer_plan_computes_operator(
    op: NumericOperator,
    a: LEIntegerType,
    b: LEIntegerType,
    x: int,
    y: int,
)
    requires
        is_integer_width(a.width),
        is_integer_width(b.width),
        !common_signed(a, b) ==> op != NumericOperator::Compare(CompareOperator::GreaterOrEqualThan)
            && op != NumericOperator::Compare(CompareOperator::LessOrEqualThan),
    ensures
        spec_numeric_plan(op, NumericTypeEnum::IntegerType(a), NumericTypeEnum::IntegerType(b)).instruction
            matches NumericInstruction::Integer(i) && instruction_value(i, common_signed(a, b), x, y)
            == Some(numeric_value(op, x, y)),
{
}

/// Where either operand is a floating point value, the instruction is a
/// floating point one and computes the operator on any two values that it
/// computes exactly (a quotient only where it has no fraction).
pub proof fn law_numeric_float_plan_computes_operator(
    op: NumericOperator,
    left: NumericTypeEnum,
    right: NumericTypeEnum,
    x: int,
    y: int,
)
    requires
        left is FloatType || right is FloatType,
        is_number_type(left),
        is_number_type(right),
        op == NumericOperator::Div ==> y != 0 && x % y == 0,
    ensures
        spec_numeric_plan(op, left, right).instruction matches NumericInstruction::Float(f)
            && float_instruction_value(f, x, y) == Some(numeric_value(op, x, y)),
{
}

} // verus!
