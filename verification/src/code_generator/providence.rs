//! The order in which numeric types are promoted. Of two operands, the one
//! whose type has the lower providence decides the type of the operation.
use vstd::prelude::*;

use crate::code_generator::le_type::{LEFloatType, LEIntegerType, NumericTypeEnum};

verus! {

/// The providence of each integer type of the language: `i64` 11, `i32` 21,
/// `i16` 31, `i8` 41, `u64` 10, `u32` 20, `u16` 30, `u8` 40.
pub open spec fn integer_providence(ty: LEIntegerType) -> Option<u32> {
    if ty.signed {
        if ty.width == 64 {
            Some(11u32)
        } else if ty.width == 32 {
            Some(21u32)
        } else if ty.width == 16 {
            Some(31u32)
        } else if ty.width == 8 {
            Some(41u32)
        } else {
            None
        }
    } else {
        if ty.width == 64 {
            Some(10u32)
        } else if ty.width == 32 {
            Some(20u32)
        } else if ty.width == 16 {
            Some(30u32)
        } else if ty.width == 8 {
            Some(40u32)
        } else {
            None
        }
    }
}

/// A width that the language has integer types of.
pub open spec fn is_integer_width(width: u32) -> bool {
    width == 8 || width == 16 || width == 32 || width == 64
}

/// The providence of an integer type; there is none for a width other than
/// 8, 16, 32 or 64.
pub fn get_integer_promotion_providence(ty: &LEIntegerType) -> (r: u32)
    requires
        is_integer_width(ty.width),
    ensures
        integer_providence(*ty) == Some(r),
{
    let base: u32 = if ty.signed {
        1
    } else {
        0
    };
    if ty.width == 64 {
        10 + base
    } else if ty.width == 32 {
        20 + base
    } else if ty.width == 16 {
        30 + base
    } else {
        40 + base
    }
}

/// The providence of a floating point type: 2 for `f32`, 1 for any other.
pub fn get_float_promotion_providence(ty: &LEFloatType) -> (r: u32)
    ensures
        r == (if ty.width == 32 {
            2u32
        } else {
            1u32
        }),
{
    if ty.width == 32 {
        2
    } else {
        1
    }
}

pub open spec fn number_providence(ty: NumericTypeEnum) -> u32 {
    match ty {
        NumericTypeEnum::FloatType(f) => if f.width == 32 {
            2u32
        } else {
            1u32
        },
        NumericTypeEnum::IntegerType(i) => integer_providence(i).unwrap(),
    }
}

/// The providence of a numeric type.
pub fn get_number_providence(ty: &NumericTypeEnum) -> (r: u32)
    requires
        ty matches NumericTypeEnum::IntegerType(i) ==> is_integer_width(i.width),
    ensures
        r == number_providence(*ty),
{
    match ty {
        NumericTypeEnum::FloatType(f) => get_float_promotion_providence(f),
        NumericTypeEnum::IntegerType(i) => get_integer_promotion_providence(i),
    }
}

/// Which operand of a binary operator is converted to the other's type.
#[derive(Clone, Copy, PartialEq, Eq, Structural, Debug)]
pub enum Promotion {
    /// The left operand's providence is lower: the right operand is
    /// promoted to the left one's type.
    RightToLeft,
    /// The right operand's providence is lower.
    LeftToRight,
    /// The providences are equal.
    Same,
}

pub open spec fn spec_promotion(left: u32, right: u32) -> Promotion {
    if left < right {
        Promotion::RightToLeft
    } else if left > right {
        Promotion::LeftToRight
    } else {
        Promotion::Same
    }
}

/// The promotion between operands of the providences `left` and `right`.
pub fn promotion(left: u32, right: u32) -> (r: Promotion)
    ensures
        r == spec_promotion(left, right),
{
    if left < right {
        Promotion::RightToLeft
    } else if left > right {
        Promotion::LeftToRight
    } else {
        Promotion::Same
    }
}

/// Swapping the operands swaps the direction of the promotion.
pub proof fn lemma_promotion_swap(a: u32, b: u32)
    ensures
        spec_promotion(a, b) == Promotion::RightToLeft <==> spec_promotion(b, a)
            == Promotion::LeftToRight,
        spec_promotion(a, b) == Promotion::Same <==> spec_promotion(b, a) == Promotion::Same,
{
}

/// Of two integer types of the language, the one that is wider, or of equal
/// width and unsigned where the other is signed, has the lower providence;
/// so two integer types have equal providences exactly when they are the
/// same type.
pub proof fn lemma_integer_providence_order(a: LEIntegerType, b: LEIntegerType)
    requires
        is_integer_width(a.width),
        is_integer_width(b.width),
    ensures
        integer_providence(a) is Some,
        integer_providence(a).unwrap() < integer_providence(b).unwrap() <==> (a.width > b.width || (
        a.width == b.width && !a.signed && b.signed)),
        integer_providence(a) == integer_providence(b) <==> a == b,
{
}


/// Of two integer operands, the wider type decides the operation: the
/// narrower operand is promoted to it. Of two types of one width, the
/// unsigned one decides; two types with the same providence are the same
/// type.
pub proof fn law_wider_integer_decides(a: LEIntegerType, b: LEIntegerType)
    requires
        is_integer_width(a.width),
        is_integer_width(b.width),
    ensures
        a.width > b.width ==> spec_promotion(integer_providence(a).unwrap(), integer_providence(b).unwrap())
            == Promotion::RightToLeft,
        a.width == b.width && !a.signed && b.signed ==> spec_promotion(
            integer_providence(a).unwrap(),
            integer_providence(b).unwrap(),
        ) == Promotion::RightToLeft,
        integer_providence(a) == integer_providence(b) ==> a == b,
{
}

/// A 64-bit floating point operand decides over a 32-bit one.
pub proof fn law_wider_float_decides(a: LEFloatType, b: LEFloatType)
    requires
        a.width == 64,
        b.width == 32,
    ensures
        spec_promotion(
            number_providence(NumericTypeEnum::FloatType(a)),
            number_providence(NumericTypeEnum::FloatType(b)),
        ) == Promotion::RightToLeft,
{
}

} // verus!
