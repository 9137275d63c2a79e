use lelang::code_generator::binary_operator_builder::generic_builder::{GenericBuilder, GenericPlan};
use lelang::code_generator::binary_operator_builder::number_builder::{float_cmp, integer_add, integer_cmp, integer_div, integer_sub};
use lelang::code_generator::binary_operator_builder::traits::CompareBinaryOperator;
use lelang::code_generator::generator::{check_array_initializer, check_call_arguments, get_member_offset, structure_initializer_order, ArrayInitializerError};
use lelang::code_generator::le_type::{Cast, Conversion, FloatInstruction, FloatPredicate, IntInstruction, IntPredicate, LEBasicTypeKind, LEFloatType, LEIntegerType, LEType, NumericTypeEnum, Operand, ResultType, Side};
use lelang::code_generator::numeric_operator_builder::{call_argument_conversions, CompareOperator, NumericCast, NumericInstruction, NumericOperatorBuilder, NumericResult};
use lelang::code_generator::providence::{get_float_promotion_providence, get_integer_promotion_providence, get_number_providence, promotion, Promotion};
use lelang::code_generator::symbol_table::{LEBasicType, Symbol, SymbolTable};
use lelang::code_generator::unary_operator_builder::generic_builder::{MathOperateBuilder, SameTypeInstruction};
use lelang::code_generator::unary_operator_builder::traits::MathOperator;
use lelang::ast::nodes::{ArrayDeclarator, Identifier, TypeDeclarator};
use lelang::error::CompileError;
use lelang::lexer::Position;
use lelang::code_generator::le_builder::{ExpressionKind, LEBuilder, ReadAction};
use lelang::code_generator::generator::{binary_operator_action, BinaryOperatorAction};
use lelang::code_generator::binary_operator_builder::traits::LogicBinaryOperator;
use lelang::lexer::Operator;
use lelang::ast::nodes::{Expr, Statement};
use lelang::code_generator::generator::{code_block_extent, for_loop_shape, ForLoopShape};
use lelang::code_generator::generator::{declared_type_accepts, identifier_value, NameValue};

fn itype(signed: bool, width: u32) -> LEIntegerType {
    LEIntegerType { signed, width }
}

#[test]
fn integer_providence_table() {
    assert_eq!(get_integer_promotion_providence(&itype(true, 64)), 11);
    assert_eq!(get_integer_promotion_providence(&itype(true, 32)), 21);
    assert_eq!(get_integer_promotion_providence(&itype(true, 16)), 31);
    assert_eq!(get_integer_promotion_providence(&itype(true, 8)), 41);
    assert_eq!(get_integer_promotion_providence(&itype(false, 64)), 10);
    assert_eq!(get_integer_promotion_providence(&itype(false, 32)), 20);
    assert_eq!(get_integer_promotion_providence(&itype(false, 16)), 30);
    assert_eq!(get_integer_promotion_providence(&itype(false, 8)), 40);
}

#[test]
fn float_providence() {
    assert_eq!(get_float_promotion_providence(&LEFloatType { width: 32 }), 2);
    assert_eq!(get_float_promotion_providence(&LEFloatType { width: 64 }), 1);
}

#[test]
fn promotion_direction() {
    assert_eq!(promotion(11, 21), Promotion::RightToLeft);
    assert_eq!(promotion(21, 11), Promotion::LeftToRight);
    assert_eq!(promotion(20, 20), Promotion::Same);
}

#[test]
fn i32_plus_i64_casts_and_keeps_left_type() {
    // i32 has the higher providence: the i64 operand's type wins.
    let plan = integer_add(&itype(true, 32), &itype(true, 64));
    assert_eq!(plan.cast, Some(Cast { from: Side::Right, to: Side::Left }));
    assert_eq!(plan.instruction, IntInstruction::Add);
    assert_eq!(plan.lhs, Operand::Casted);
    assert_eq!(plan.rhs, Operand::Right);
    assert_eq!(plan.result_type, ResultType::Left);
}

#[test]
fn subtraction_promotes_to_the_right_type() {
    let plan = integer_sub(&itype(true, 8), &itype(true, 32));
    assert_eq!(plan.cast, Some(Cast { from: Side::Left, to: Side::Right }));
    assert_eq!(plan.result_type, ResultType::Right);
    let same = integer_sub(&itype(false, 16), &itype(false, 16));
    assert_eq!(same.cast, None);
}

#[test]
fn division_signedness() {
    assert_eq!(integer_div(&itype(true, 64), &itype(false, 8)).instruction, IntInstruction::SignedDiv);
    assert_eq!(integer_div(&itype(true, 8), &itype(false, 64)).instruction, IntInstruction::UnsignedDiv);
    // u32 ranks above i32: the left operand's signedness decides.
    assert_eq!(integer_div(&itype(false, 32), &itype(true, 32)).instruction, IntInstruction::UnsignedDiv);
    assert_eq!(integer_div(&itype(true, 16), &itype(true, 16)).instruction, IntInstruction::SignedDiv);
}

#[test]
fn comparison_predicates() {
    assert_eq!(integer_cmp(&itype(true, 32), &itype(true, 32), CompareBinaryOperator::LessThan).instruction, IntInstruction::Compare(IntPredicate::SLT));
    assert_eq!(integer_cmp(&itype(false, 32), &itype(true, 8), CompareBinaryOperator::GreaterOrEqualThan).instruction, IntInstruction::Compare(IntPredicate::UGE));
    assert_eq!(integer_cmp(&itype(false, 32), &itype(true, 8), CompareBinaryOperator::NotEqual).instruction, IntInstruction::Compare(IntPredicate::NE));
    assert_eq!(NumericOperatorBuilder::build_integer_compare(CompareOperator::GreaterOrEqualThan, false), IntPredicate::UGT);
    assert_eq!(NumericOperatorBuilder::build_integer_compare(CompareOperator::LessOrEqualThan, true), IntPredicate::SLE);
}

#[test]
fn generic_builder_converts_the_right_operand() {
    match GenericBuilder::build_add(LEBasicTypeKind::Integer(itype(false, 16)), LEBasicTypeKind::Float(LEFloatType { width: 64 })) {
        GenericPlan::Integer { right, plan } => {
            assert_eq!(right, Conversion::FloatToUnsignedInt);
            assert_eq!(plan.cast, None);
        }
        other => panic!("unexpected plan: {:?}", other),
    }
    match GenericBuilder::build_mul(LEBasicTypeKind::Float(LEFloatType { width: 32 }), LEBasicTypeKind::Integer(itype(true, 8))) {
        GenericPlan::Float { right, .. } => assert_eq!(right, Conversion::SignedIntToFloat),
        other => panic!("unexpected plan: {:?}", other),
    }
    assert_eq!(GenericBuilder::build_cast(LEBasicTypeKind::Bool, LEBasicTypeKind::Integer(itype(true, 8))), Conversion::Keep);
}

#[test]
fn same_type_operators() {
    let i = LEBasicTypeKind::Integer(itype(true, 32));
    assert_eq!(MathOperateBuilder::build_binary(MathOperator::Div, i, i), Ok(SameTypeInstruction::Integer(IntInstruction::SignedDiv)));
    assert!(MathOperateBuilder::build_binary(MathOperator::Add, i, LEBasicTypeKind::Integer(itype(true, 64))).is_err());
    assert!(MathOperateBuilder::build_binary(MathOperator::Add, LEBasicTypeKind::Bool, LEBasicTypeKind::Bool).is_err());
    assert_eq!(MathOperateBuilder::build_mod(&itype(false, 8), &itype(false, 8)), Some(IntInstruction::UnsignedRem));
    assert_eq!(MathOperateBuilder::build_mod(&itype(false, 8), &itype(true, 8)), None);
}

#[test]
fn array_initializer_checks() {
    assert_eq!(check_array_initializer(&vec![]), Err(ArrayInitializerError::NotAllowZeroLengthArray));
    let i32t = || LEType::Integer(itype(true, 32));
    assert_eq!(check_array_initializer(&vec![i32t(), i32t()]), Ok(()));
    assert_eq!(check_array_initializer(&vec![i32t(), i32t(), LEType::Bool]), Err(ArrayInitializerError::TypeMismatched(2)));
}

#[test]
fn call_argument_checks() {
    let ptr = |t: LEType| LEType::Pointer(Box::new(t));
    let params = vec![LEType::Integer(itype(true, 32)), ptr(LEType::Bool)];
    assert_eq!(check_call_arguments(&params, &vec![LEType::Integer(itype(true, 32)), ptr(LEType::Bool)]), None);
    assert_eq!(check_call_arguments(&params, &vec![LEType::Integer(itype(true, 32)), ptr(LEType::Struct(1))]), Some(1));
    assert_eq!(check_call_arguments(&params, &vec![LEType::Integer(itype(true, 32))]), None);
}

#[test]
fn structure_members() {
    let members = vec!["x".to_string(), "y".to_string(), "z".to_string()];
    assert_eq!(get_member_offset(&members, &"y".to_string()), Some(1));
    assert_eq!(get_member_offset(&members, &"w".to_string()), None);
    let init = vec!["z".to_string(), "x".to_string(), "y".to_string()];
    assert_eq!(structure_initializer_order(&members, &init), Some(vec![1, 2, 0]));
    assert_eq!(structure_initializer_order(&members, &vec!["x".to_string()]), None);
}

#[test]
fn symbol_table_builtins_and_scopes() {
    let mut t: SymbolTable<u32, u32, u32> = SymbolTable::new();
    assert!(matches!(t.get_symbol("i32"), Some(Symbol::Type(_))));
    match t.insert_global_type("i32".to_string(), LEBasicType::Bool, Position { start: 3, end: 4 }) {
        Err(CompileError::CanNotRedefineBuiltinTypes { identifier }) => assert_eq!(identifier, "i32"),
        other => panic!("unexpected result: {:?}", other),
    }
    t.insert_global_variable("g".to_string(), 7, Position { start: 5, end: 6 }).unwrap();
    match t.insert_global_function("g".to_string(), 1, Position { start: 9, end: 10 }) {
        Err(CompileError::IdentifierAlreadyDefined { identifier, defined_position }) => {
            assert_eq!(identifier, "g");
            assert_eq!(defined_position, Position { start: 5, end: 6 });
        }
        other => panic!("unexpected result: {:?}", other),
    }
    t.push_block_table();
    t.insert_local_variable("v".to_string(), 8, Position { start: 1, end: 2 }).unwrap();
    assert_eq!(t.get_variable("v").unwrap(), 8);
    assert_eq!(t.get_variable("g").unwrap(), 7);
    assert!(t.insert_local_variable("g".to_string(), 9, Position { start: 1, end: 2 }).is_err());
    assert!(matches!(t.get_variable("i8"), Err(CompileError::IdentifierIsNotType { .. })));
    t.pop_block_table();
    assert!(matches!(t.get_variable("v"), Err(CompileError::UnknownIdentifier { .. })));
    assert!(matches!(t.get_function("nothing"), Err(CompileError::UnknownIdentifier { .. })));
}

#[test]
fn symbol_table_resolves_declarators() {
    let t: SymbolTable<u32, u32, u32> = SymbolTable::new();
    let id = |n: &str| Identifier { name: n.to_string(), pos: Position { start: 0, end: 1 } };
    let arr = TypeDeclarator::Reference(Box::new(TypeDeclarator::Array(Box::new(ArrayDeclarator {
        element_type: TypeDeclarator::TypeIdentifier(id("u8")),
        len: 3,
        pos: Position { start: 0, end: 1 },
    }))));
    let r = t.get_type(&arr).unwrap();
    assert!(matches!(r.base, LEBasicType::Integer(LEIntegerType { signed: false, width: 8 })));
    assert_eq!(r.wrappers, vec![lelang::code_generator::symbol_table::TypeWrapper::Array(3), lelang::code_generator::symbol_table::TypeWrapper::Pointer]);
    assert!(matches!(t.get_type(&TypeDeclarator::TypeIdentifier(id("nope"))), Err(CompileError::UnknownIdentifier { .. })));
}

#[test]
fn binary_operator_actions() {
    assert_eq!(binary_operator_action(Operator::Plus), BinaryOperatorAction::Add);
    assert_eq!(binary_operator_action(Operator::Mod), BinaryOperatorAction::Mod);
    assert_eq!(binary_operator_action(Operator::Assign), BinaryOperatorAction::Assign);
    assert_eq!(binary_operator_action(Operator::LessOrEqualThan), BinaryOperatorAction::Compare(CompareBinaryOperator::LessOrEqualThan));
    assert_eq!(binary_operator_action(Operator::Xor), BinaryOperatorAction::Logic(LogicBinaryOperator::LogicXor));
    assert_eq!(binary_operator_action(Operator::Dot), BinaryOperatorAction::MemberAccess);
}

#[test]
fn code_block_stops_at_first_return() {
    let p = Position { start: 0, end: 1 };
    let name = || Box::new(Expr::Identifier(Identifier { name: "x".to_string(), pos: p }));
    let stmts = vec![Statement::Expressions(name()), Statement::Return(name()), Statement::Void(p), Statement::Return(name())];
    assert_eq!(code_block_extent(&stmts), (2, true));
    assert_eq!(code_block_extent(&vec![Statement::Void(p)]), (1, false));
    assert_eq!(code_block_extent(&vec![]), (0, false));
}

#[test]
fn boolean_constants_and_declared_types() {
    assert_eq!(identifier_value(&"true".to_string()), NameValue::True);
    assert_eq!(identifier_value(&"false".to_string()), NameValue::False);
    assert_eq!(identifier_value(&"truth".to_string()), NameValue::Variable);
    let i32t = LEType::Integer(itype(true, 32));
    assert!(declared_type_accepts(None, &i32t));
    assert!(declared_type_accepts(Some(&LEType::Integer(itype(true, 32))), &i32t));
    assert!(!declared_type_accepts(Some(&LEType::Integer(itype(false, 32))), &i32t));
}

#[test]
fn type_texts() {
    let i32t = LEType::Integer(itype(true, 32));
    assert_eq!(i32t.to_text(), "i32");
    assert_eq!(LEType::Integer(itype(false, 8)).to_text(), "u8");
    assert_eq!(LEType::Float(LEFloatType { width: 32 }).to_text(), "f32");
    assert_eq!(LEType::Float(LEFloatType { width: 64 }).to_text(), "f64");
    assert_eq!(LEType::Bool.to_text(), "bool");
    assert_eq!(LEType::Pointer(Box::new(LEType::Pointer(Box::new(LEType::Integer(itype(true, 64)))))).to_text(), "**i64");
    assert_eq!(LEType::Array(Box::new(LEType::Bool), 12).to_text(), "[bool;12]");
    assert_eq!(LEType::Struct(3).to_text(), "\"Struct\"");
    assert_eq!(LEType::Struct(3).name(), "Struct");
    assert_eq!(i32t.name(), "Integer");
}

#[test]
fn expression_builder_checks() {
    assert!(matches!(LEBuilder::read_expression(ExpressionKind::Left), Ok(ReadAction::Load)));
    assert!(matches!(LEBuilder::read_expression(ExpressionKind::Right), Ok(ReadAction::Value)));
    assert!(matches!(LEBuilder::read_expression(ExpressionKind::Unit), Err(CompileError::ExpressionIsNotRightValueExpression)));
    assert!(LEBuilder::build_assign(ExpressionKind::Left).is_ok());
    assert!(matches!(LEBuilder::build_assign(ExpressionKind::Right), Err(CompileError::ExpressionIsNotLeftValueExpression)));
    assert!(matches!(LEBuilder::build_dot(ExpressionKind::Unit), Err(CompileError::ExpressionIsNotRightValueExpression)));
    match LEBuilder::build_mod(&LEType::Integer(itype(true, 32)), &LEType::Float(LEFloatType { width: 64 })) {
        Err(CompileError::NoSuitableBinaryOperator { op, left_type, right_type }) => {
            assert_eq!(op, Operator::Mod);
            assert_eq!(left_type, "i32");
            assert_eq!(right_type, "f64");
        }
        other => panic!("unexpected result: {:?}", other),
    }
    assert!(LEBuilder::build_mod(&LEType::Integer(itype(true, 32)), &LEType::Integer(itype(false, 8))).is_ok());
}

#[test]
fn call_type_mismatch_message() {
    let params = vec![LEType::Integer(itype(true, 32)), LEType::Bool];
    match LEBuilder::build_call(&params, &vec![LEType::Integer(itype(true, 32)), LEType::Integer(itype(false, 16))]) {
        Err(CompileError::TypeMismatched { expect, found }) => {
            assert_eq!(expect, "bool");
            assert_eq!(found, "u16");
        }
        other => panic!("unexpected result: {:?}", other),
    }
    assert!(LEBuilder::build_call(&params, &vec![]).is_ok());
}

#[test]
fn numeric_types() {
    assert_eq!(get_number_providence(&NumericTypeEnum::IntegerType(itype(false, 16))), 30);
    assert_eq!(get_number_providence(&NumericTypeEnum::FloatType(LEFloatType { width: 32 })), 2);
    let i = NumericTypeEnum::IntegerType(itype(true, 8));
    let u = NumericTypeEnum::IntegerType(itype(false, 8));
    let f = NumericTypeEnum::FloatType(LEFloatType { width: 64 });
    assert_eq!(NumericOperatorBuilder::build_numeric_cast(i, i), Conversion::Keep);
    assert_eq!(NumericOperatorBuilder::build_numeric_cast(i, u), Conversion::IntToInt);
    assert_eq!(NumericOperatorBuilder::build_numeric_cast(u, f), Conversion::UnsignedIntToFloat);
    assert_eq!(NumericOperatorBuilder::build_numeric_cast(f, i), Conversion::FloatToSignedInt);
    assert_eq!(NumericOperatorBuilder::build_float_compare(CompareOperator::GreaterOrEqualThan), FloatPredicate::OGE);
}

#[test]
fn numeric_operator_plans() {
    let int = |s: bool, w: u32| NumericTypeEnum::IntegerType(itype(s, w));
    let float = |w: u32| NumericTypeEnum::FloatType(LEFloatType { width: w });
    // i32 ranks below i64: the left operand is cast.
    let p = NumericOperatorBuilder::build_numeric_add(&int(true, 32), &int(true, 64));
    assert_eq!(p.cast, Some(NumericCast { from: Side::Left, to: Side::Right, conversion: Conversion::IntToInt }));
    assert_eq!((p.lhs, p.rhs), (Operand::Casted, Operand::Right));
    assert_eq!(p.instruction, NumericInstruction::Integer(IntInstruction::Add));
    // Subtraction with the right operand cast subtracts it uncast.
    let p = NumericOperatorBuilder::build_numeric_sub(&int(true, 64), &int(true, 8));
    assert_eq!(p.cast, Some(NumericCast { from: Side::Right, to: Side::Left, conversion: Conversion::IntToInt }));
    assert_eq!((p.lhs, p.rhs), (Operand::Casted, Operand::Right));
    assert_eq!(p.result, NumericResult::Integer(true));
    // Division by a wider unsigned operand.
    let p = NumericOperatorBuilder::build_numeric_div(&int(true, 8), &int(false, 64));
    assert_eq!(p.instruction, NumericInstruction::Integer(IntInstruction::UnsignedDiv));
    assert_eq!((p.lhs, p.rhs), (Operand::Left, Operand::Casted));
    assert_eq!(p.result, NumericResult::Integer(true));
    // Comparison against a wider unsigned operand casts the right one.
    let p = NumericOperatorBuilder::build_numeric_compare(&int(true, 8), &int(false, 32), CompareOperator::LessThan);
    assert_eq!(p.cast, Some(NumericCast { from: Side::Right, to: Side::Left, conversion: Conversion::IntToInt }));
    assert_eq!(p.instruction, NumericInstruction::Integer(IntInstruction::Compare(IntPredicate::ULT)));
    assert_eq!(p.result, NumericResult::Integer(false));
    // Mixed operations convert the integer.
    let p = NumericOperatorBuilder::build_numeric_mul(&float(32), &int(true, 16));
    assert_eq!(p.cast, Some(NumericCast { from: Side::Right, to: Side::Left, conversion: Conversion::SignedIntToFloat }));
    assert_eq!((p.lhs, p.rhs), (Operand::Left, Operand::Casted));
    assert_eq!(p.result, NumericResult::Float);
    let p = NumericOperatorBuilder::build_numeric_compare(&int(false, 8), &float(64), CompareOperator::Equal);
    assert_eq!(p.cast, Some(NumericCast { from: Side::Left, to: Side::Right, conversion: Conversion::UnsignedIntToFloat }));
    assert_eq!((p.lhs, p.rhs), (Operand::Casted, Operand::Right));
    assert_eq!(p.instruction, NumericInstruction::Float(FloatInstruction::Compare(FloatPredicate::OEQ)));
    assert_eq!(p.result, NumericResult::Integer(true));
    // f32 ranks below f64.
    let p = NumericOperatorBuilder::build_numeric_div(&float(32), &float(64));
    assert_eq!(p.cast, Some(NumericCast { from: Side::Left, to: Side::Right, conversion: Conversion::FloatToFloat }));
    assert_eq!((p.lhs, p.rhs), (Operand::Left, Operand::Casted));
}

#[test]
fn call_arguments_are_converted() {
    let params = vec![NumericTypeEnum::IntegerType(itype(true, 64)), NumericTypeEnum::FloatType(LEFloatType { width: 64 })];
    let args = vec![NumericTypeEnum::IntegerType(itype(true, 64)), NumericTypeEnum::IntegerType(itype(false, 8)), NumericTypeEnum::IntegerType(itype(true, 8))];
    assert_eq!(call_argument_conversions(&params, &args), vec![Conversion::Keep, Conversion::UnsignedIntToFloat]);
}

#[test]
fn for_loop_parts() {
    let p = Position { start: 0, end: 1 };
    let e = || Box::new(Expr::Identifier(Identifier { name: "i".to_string(), pos: p }));
    assert_eq!(
        for_loop_shape(&Statement::Void(p), &Statement::Expressions(e()), &Statement::Expressions(e())),
        ForLoopShape { built: true, init: false, step: true }
    );
    assert_eq!(
        for_loop_shape(&Statement::Void(p), &Statement::Void(p), &Statement::Return(e())),
        ForLoopShape { built: false, init: false, step: false }
    );
}

#[test]
fn comparisons_give_a_bool() {
    let same = integer_cmp(&itype(true, 32), &itype(true, 32), CompareBinaryOperator::Equal);
    assert_eq!(same.result_type, ResultType::Bool);
    assert_eq!(same.cast, None);
    let wider_right = integer_cmp(&itype(true, 8), &itype(true, 32), CompareBinaryOperator::LessThan);
    assert_eq!(wider_right.result_type, ResultType::Bool);
    let wider_left = integer_cmp(&itype(true, 32), &itype(true, 8), CompareBinaryOperator::LessThan);
    assert_eq!(wider_left.result_type, ResultType::Bool);
    let floats = float_cmp(&LEFloatType { width: 64 }, &LEFloatType { width: 64 }, CompareBinaryOperator::NotEqual);
    assert_eq!(floats.result_type, ResultType::Bool);
    assert_eq!(floats.instruction, FloatInstruction::Compare(FloatPredicate::ONE));
    assert_eq!(integer_add(&itype(true, 32), &itype(true, 32)).result_type, ResultType::Left);
}
