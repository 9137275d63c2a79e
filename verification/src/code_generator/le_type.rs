//! The types and instructions of LLVM that the code generator chooses
//! between, held as plain values.
use vstd::prelude::*;

use crate::text::{decimal_string, spec_decimal};

verus! {

/// An integer type: its signedness and its width in bits.
#[derive(Clone, Copy, PartialEq, Eq, Structural, Debug)]
pub struct LEIntegerType {
    pub signed: bool,
    pub width: u32,
}

/// A floating point type, by its width in bits.
#[derive(Clone, Copy, PartialEq, Eq, Structural, Debug)]
pub struct LEFloatType {
    pub width: u32,
}

/// A numeric type.
#[derive(Clone, Copy, PartialEq, Eq, Structural, Debug)]
pub enum NumericTypeEnum {
    IntegerType(LEIntegerType),
    FloatType(LEFloatType),
}

/// The kind of a value of the language.
#[derive(Clone, Copy, PartialEq, Eq, Structural, Debug)]
pub enum LEBasicTypeKind {
    Integer(LEIntegerType),
    Float(LEFloatType),
    Bool,
    Pointer,
    Array,
    Struct,
    Vector,
}

/// LLVM's integer comparison predicates.
#[derive(Clone, Copy, PartialEq, Eq, Structural, Debug)]
pub enum IntPredicate {
    EQ,
    NE,
    UGT,
    UGE,
    ULT,
    ULE,
    SGT,
    SGE,
    SLT,
    SLE,
}

/// LLVM's ordered floating point comparison predicates.
#[derive(Clone, Copy, PartialEq, Eq, Structural, Debug)]
pub enum FloatPredicate {
    OEQ,
    OGT,
    OGE,
    OLT,
    OLE,
    ONE,
}

/// An integer instruction of LLVM.
#[derive(Clone, Copy, PartialEq, Eq, Structural, Debug)]
pub enum IntInstruction {
    Add,
    Sub,
    Mul,
    SignedDiv,
    UnsignedDiv,
    SignedRem,
    UnsignedRem,
    Compare(IntPredicate),
}

/// A floating point instruction of LLVM.
#[derive(Clone, Copy, PartialEq, Eq, Structural, Debug)]
pub enum FloatInstruction {
    Add,
    Sub,
    Mul,
    Div,
    Compare(FloatPredicate),
}

/// What an integer predicate says of two operands, `x` and `y` being their
/// values as the predicate reads them: as signed numbers for the `S`
/// predicates, as unsigned ones for the `U` predicates, either way for
/// `EQ` and `NE`.
pub open spec fn int_predicate_holds(p: IntPredicate, x: int, y: int) -> bool {
    match p {
        IntPredicate::EQ => x == y,
        IntPredicate::NE => x != y,
        IntPredicate::UGT => x > y,
        IntPredicate::UGE => x >= y,
        IntPredicate::ULT => x < y,
        IntPredicate::ULE => x <= y,
        IntPredicate::SGT => x > y,
        IntPredicate::SGE => x >= y,
        IntPredicate::SLT => x < y,
        IntPredicate::SLE => x <= y,
    }
}

/// An integer predicate that reads its operands as signed numbers (or for
/// which the sign does not matter).
pub open spec fn int_predicate_reads_signed(p: IntPredicate) -> bool {
    !(p == IntPredicate::UGT || p == IntPredicate::UGE || p == IntPredicate::ULT || p
        == IntPredicate::ULE)
}

/// An integer predicate that reads its operands as unsigned numbers (or
/// for which the sign does not matter).
pub open spec fn int_predicate_reads_unsigned(p: IntPredicate) -> bool {
    !(p == IntPredicate::SGT || p == IntPredicate::SGE || p == IntPredicate::SLT || p
        == IntPredicate::SLE)
}

/// What an ordered floating point predicate says of two values that are
/// not NaN, `x` and `y` standing for them in their order.
pub open spec fn float_predicate_holds(p: FloatPredicate, x: int, y: int) -> bool {
    match p {
        FloatPredicate::OEQ => x == y,
        FloatPredicate::ONE => x != y,
        FloatPredicate::OGT => x > y,
        FloatPredicate::OGE => x >= y,
        FloatPredicate::OLT => x < y,
        FloatPredicate::OLE => x <= y,
    }
}

/// Division rounded toward zero.
pub open spec fn truncated_div(x: int, y: int) -> int {
    let q = (if x >= 0 { x } else { -x }) / (if y >= 0 { y } else { -y });
    if (x >= 0) == (y >= 0) { q } else { -q }
}

/// The value an integer instruction gives on two operands read as signed
/// numbers where `signed`, as unsigned ones where not, a comparison giving
/// 1 where it holds and 0 where not; none for an instruction that reads its
/// operands the other way.
pub open spec fn instruction_value(i: IntInstruction, signed: bool, x: int, y: int) -> Option<int> {
    match i {
        IntInstruction::Add => Some(x + y),
        IntInstruction::Sub => Some(x - y),
        IntInstruction::Mul => Some(x * y),
        IntInstruction::SignedDiv => if signed { Some(truncated_div(x, y)) } else { None },
        IntInstruction::UnsignedDiv => if !signed { Some(truncated_div(x, y)) } else { None },
        IntInstruction::SignedRem => if signed { Some(x - y * truncated_div(x, y)) } else { None },
        IntInstruction::UnsignedRem => if !signed { Some(x - y * truncated_div(x, y)) } else { None },
        IntInstruction::Compare(p) => if (signed && int_predicate_reads_signed(p)) || (!signed
            && int_predicate_reads_unsigned(p)) {
            Some(if int_predicate_holds(p, x, y) { 1 } else { 0 })
        } else {
            None
        },
    }
}

/// The value an integer instruction gives on two operands read as signed
/// numbers.
pub open spec fn signed_instruction_value(i: IntInstruction, x: int, y: int) -> Option<int> {
    instruction_value(i, true, x, y)
}

/// The value a floating point instruction gives on two values that it
/// computes exactly (`x` and `y` standing for values with no fraction, and a
/// quotient only where it has none), a comparison giving 1 where it holds
/// and 0 where not.
pub open spec fn float_instruction_value(i: FloatInstruction, x: int, y: int) -> Option<int> {
    match i {
        FloatInstruction::Add => Some(x + y),
        FloatInstruction::Sub => Some(x - y),
        FloatInstruction::Mul => Some(x * y),
        FloatInstruction::Div => if y != 0 && x % y == 0 { Some(truncated_div(x, y)) } else { None },
        FloatInstruction::Compare(p) => Some(if float_predicate_holds(p, x, y) { 1 } else { 0 }),
    }
}

/// A conversion of a value to another type.
#[derive(Clone, Copy, PartialEq, Eq, Structural, Debug)]
pub enum Conversion {
    /// The value is used as it is.
    Keep,
    IntToInt,
    FloatToFloat,
    SignedIntToFloat,
    UnsignedIntToFloat,
    FloatToSignedInt,
    FloatToUnsignedInt,
}

/// One of the two operands of a binary operator.
#[derive(Clone, Copy, PartialEq, Eq, Structural, Debug)]
pub enum Side {
    Left,
    Right,
}

/// What stands in an operand slot of an instruction: one of the two
/// operands as it is, or the operand that was cast.
#[derive(Clone, Copy, PartialEq, Eq, Structural, Debug)]
pub enum Operand {
    Left,
    Right,
    Casted,
}

/// A cast of the operand `from` to the type of the operand `to`.
#[derive(Clone, Copy, PartialEq, Eq, Structural, Debug)]
pub struct Cast {
    pub from: Side,
    pub to: Side,
}

/// The type that the result of a binary operator is given: that of one of
/// the operands, or `bool`.
#[derive(Clone, Copy, PartialEq, Eq, Structural, Debug)]
pub enum ResultType {
    Left,
    Right,
    Bool,
}

/// How a binary operator is built: an optional cast of one operand, the
/// instruction, what stands in its two operand slots, and the type the
/// result is given.
#[derive(Clone, Copy, PartialEq, Eq, Structural, Debug)]
pub struct BinaryPlan<I> {
    pub cast: Option<Cast>,
    pub instruction: I,
    pub lhs: Operand,
    pub rhs: Operand,
    pub result_type: ResultType,
}

/// A type of the language as LLVM holds it: structures are told apart by
/// an identity of their own.
#[derive(Debug)]
pub enum LEType {
    Integer(LEIntegerType),
    Float(LEFloatType),
    Bool,
    Pointer(Box<LEType>),
    Array(Box<LEType>, u32),
    Struct(u64),
    Vector(Box<LEType>, u32),
}

impl LEType {
    /// Whether the two types are the same.
    pub fn same(&self, other: &LEType) -> (r: bool)
        ensures
            r == (*self == *other),
        decreases self,
    {
        match (self, other) {
            (LEType::Integer(a), LEType::Integer(b)) => a.signed == b.signed && a.width == b.width,
            (LEType::Float(a), LEType::Float(b)) => a.width == b.width,
            (LEType::Bool, LEType::Bool) => true,
            (LEType::Pointer(a), LEType::Pointer(b)) => (**a).same(&**b),
            (LEType::Array(a, n), LEType::Array(b, m)) => *n == *m && (**a).same(&**b),
            (LEType::Struct(a), LEType::Struct(b)) => *a == *b,
            (LEType::Vector(a, n), LEType::Vector(b, m)) => *n == *m && (**a).same(&**b),
            _ => false,
        }
    }
}

/// Whether a type has a vector in it; a vector's text is LLVM's.
pub open spec fn has_vector(t: LEType) -> bool
    decreases t,
{
    match t {
        LEType::Pointer(p) => has_vector(*p),
        LEType::Array(e, _) => has_vector(*e),
        LEType::Vector(_, _) => true,
        _ => false,
    }
}

/// How a type is written in messages: `i32`, `u8`, `f32`, `f64`, `bool`,
/// `*` before the type pointed to, `[type;length]`, and `"Struct"` for a
/// structure.
pub open spec fn type_text(t: LEType) -> Seq<char>
    decreases t,
{
    match t {
        LEType::Integer(i) => (if i.signed {
            "i"@
        } else {
            "u"@
        }) + spec_decimal(i.width as nat),
        LEType::Float(f) => if f.width == 64 {
            "f64"@
        } else {
            "f32"@
        },
        LEType::Bool => "bool"@,
        LEType::Pointer(p) => "*"@ + type_text(*p),
        LEType::Array(e, n) => "["@ + type_text(*e) + ";"@ + spec_decimal(n as nat) + "]"@,
        LEType::Struct(_) => "\"Struct\""@,
        LEType::Vector(_, _) => Seq::empty(),
    }
}

/// The name of a type's kind.
pub open spec fn kind_name(t: LEType) -> Seq<char> {
    match t {
        LEType::Integer(_) => "Integer"@,
        LEType::Float(_) => "Float"@,
        LEType::Bool => "Bool"@,
        LEType::Pointer(_) => "Pointer"@,
        LEType::Array(_, _) => "Array"@,
        LEType::Struct(_) => "Struct"@,
        LEType::Vector(_, _) => "Vector"@,
    }
}

impl LEType {
    /// The type as messages write it.
    pub fn to_text(&self) -> (r: String)
        requires
            !has_vector(*self),
        ensures
            r@ == type_text(*self),
        decreases self,
    {
        match self {
            LEType::Integer(i) => {
                let mut r = if i.signed {
                    String::from_str("i")
                } else {
                    String::from_str("u")
                };
                let w = decimal_string(i.width as u64);
                r.append(w.as_str());
                r
            },
            LEType::Float(f) => if f.width == 64 {
                String::from_str("f64")
            } else {
                String::from_str("f32")
            },
            LEType::Bool => String::from_str("bool"),
            LEType::Pointer(p) => {
                let mut r = String::from_str("*");
                let inner = (**p).to_text();
                r.append(inner.as_str());
                r
            },
            LEType::Array(e, n) => {
                let mut r = String::from_str("[");
                let inner = (**e).to_text();
                r.append(inner.as_str());
                r.append(";");
                let len = decimal_string(*n as u64);
                r.append(len.as_str());
                r.append("]");
                r
            },
            LEType::Struct(_) => String::from_str("\"Struct\""),
            LEType::Vector(_, _) => String::new(),
        }
    }

    /// The name of the type's kind.
    pub fn name(&self) -> (r: &'static str)
        ensures
            r@ == kind_name(*self),
    {
        match self {
            LEType::Integer(_) => "Integer",
            LEType::Float(_) => "Float",
            LEType::Bool => "Bool",
            LEType::Pointer(_) => "Pointer",
            LEType::Array(_, _) => "Array",
            LEType::Struct(_) => "Struct",
            LEType::Vector(_, _) => "Vector",
        }
    }
}

} // verus!
