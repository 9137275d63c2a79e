use lelang::code_gen::symbol_table::CompilerContext;
use lelang::error::CompileError;
use lelang::code_gen::builder::{assignment_target, module_binary_instruction, module_block_returns, BlockStep, BlockWalk, ModuleInstruction};
use lelang::code_generator::le_type::{IntInstruction, IntPredicate};
use lelang::ast::nodes::{CodeBlock, Expr, Identifier, IfStatement, NumberLiteral, Statement};
use lelang::lexer::{Number, Operator, Position};

#[test]
fn local_names_hide_global_ones() {
    let mut c: CompilerContext<u8, u16, u32> = CompilerContext::new();
    c.insert_global_variable("x".to_string(), 1).unwrap();
    assert_eq!(c.get_variable("x").unwrap(), 1);
    c.push_block_table();
    c.insert_local_variable("x".to_string(), 2).unwrap();
    assert_eq!(c.get_variable("x").unwrap(), 2);
    c.pop_block_table();
    assert_eq!(c.get_variable("x").unwrap(), 1);
}

#[test]
fn kinds_are_apart() {
    let mut c: CompilerContext<u8, u16, u32> = CompilerContext::new();
    c.insert_global_function("f".to_string(), 7).unwrap();
    c.insert_global_variable("f".to_string(), 8).unwrap();
    assert_eq!(c.get_function("f").unwrap(), 7);
    assert_eq!(c.get_variable("f").unwrap(), 8);
    match c.get_type("f") {
        Err(CompileError::IdentifierIsNotType { identifier }) => assert_eq!(identifier, "f"),
        other => panic!("unexpected result: {:?}", other),
    }
    assert!(matches!(c.get_variable("g"), Err(CompileError::IdentifierIsNotVariable { .. })));
    assert!(matches!(c.get_function("g"), Err(CompileError::IdentifierIsNotFunction { .. })));
}

#[test]
fn redefinitions_are_refused() {
    let mut c: CompilerContext<u8, u16, u32> = CompilerContext::new();
    c.insert_global_type("t".to_string(), 1).unwrap();
    match c.insert_global_type("t".to_string(), 2) {
        Err(CompileError::IdentifierAlreadyDefinedAs { identifier, kind }) => {
            assert_eq!(identifier, "t");
            assert_eq!(kind, "type");
        }
        other => panic!("unexpected result: {:?}", other),
    }
    assert_eq!(c.get_type("t").unwrap(), 1);
    c.insert_local_variable("v".to_string(), 3).unwrap();
    match c.insert_local_variable("v".to_string(), 4) {
        Err(CompileError::IdentifierAlreadyDefinedAs { kind, .. }) => assert_eq!(kind, "type"),
        other => panic!("unexpected result: {:?}", other),
    }
    c.insert_local_type("u".to_string(), 5).unwrap();
    match c.insert_local_type("u".to_string(), 6) {
        Err(CompileError::IdentifierAlreadyDefinedAs { kind, .. }) => assert_eq!(kind, "variable"),
        other => panic!("unexpected result: {:?}", other),
    }
}

#[test]
fn clearing_keeps_globals() {
    let mut c: CompilerContext<u8, u16, u32> = CompilerContext::new();
    c.insert_global_variable("g".to_string(), 1).unwrap();
    c.insert_local_variable("l".to_string(), 2).unwrap();
    c.push_block_table();
    c.clear_local_symbols();
    assert_eq!(c.get_variable("g").unwrap(), 1);
    assert!(c.get_variable("l").is_err());
    c.insert_local_function("h".to_string(), 9).unwrap();
    assert_eq!(c.get_function("h").unwrap(), 9);
}

#[test]
fn first_generator_decisions() {
    assert_eq!(module_binary_instruction(Operator::Div), ModuleInstruction::Integer(IntInstruction::SignedDiv));
    assert_eq!(module_binary_instruction(Operator::Assign), ModuleInstruction::Store);
    assert_eq!(module_binary_instruction(Operator::GreaterOrEqualThan), ModuleInstruction::Integer(IntInstruction::Compare(IntPredicate::SGE)));
    let p = Position { start: 0, end: 1 };
    let e = || Box::new(Expr::Identifier(Identifier { name: "x".to_string(), pos: p }));
    assert!(module_block_returns(&vec![Statement::Expressions(e()), Statement::Return(e())]));
    assert!(module_block_returns(&vec![Statement::Return(e()), Statement::Void(p)]));
    let if_stmt = Statement::If(IfStatement { cond: e(), then_block: CodeBlock { statements: vec![], pos: p }, else_block: None, pos: p });
    assert!(!module_block_returns(&vec![Statement::Return(e()), if_stmt]));
    assert!(!module_block_returns(&vec![]));
}

#[test]
fn a_block_walk_builds_each_statement_and_restores_the_scopes() {
    let p = Position { start: 0, end: 1 };
    let e = || Box::new(Expr::Identifier(Identifier { name: "x".to_string(), pos: p }));
    let statements = vec![Statement::Expressions(e()), Statement::Return(e()), Statement::Void(p)];
    let mut c: CompilerContext<u8, u16, u32> = CompilerContext::new();
    c.insert_local_variable("outer".to_string(), 1).unwrap();
    let mut walk = BlockWalk::enter(&mut c);
    assert_eq!(walk, BlockWalk { next: 0, returns: false });
    c.insert_local_variable("inner".to_string(), 2).unwrap();
    c.insert_local_variable("outer".to_string(), 3).unwrap();
    assert_eq!(c.get_variable("outer").unwrap(), 3);
    let mut built = Vec::new();
    loop {
        match walk.step(&statements) {
            BlockStep::Build(i) => built.push(i),
            BlockStep::Leave => break,
        }
    }
    assert_eq!(built, vec![0, 1, 2]);
    assert!(walk.leave(&mut c, &statements));
    assert_eq!(c.get_variable("outer").unwrap(), 1);
    assert!(matches!(c.get_variable("inner"), Err(CompileError::IdentifierIsNotVariable { .. })));
}

#[test]
fn an_if_after_a_return_unmarks_the_block() {
    let p = Position { start: 0, end: 1 };
    let e = || Box::new(Expr::Identifier(Identifier { name: "x".to_string(), pos: p }));
    let if_stmt = Statement::If(IfStatement { cond: e(), then_block: CodeBlock { statements: vec![], pos: p }, else_block: None, pos: p });
    let statements = vec![Statement::Return(e()), if_stmt];
    let mut c: CompilerContext<u8, u16, u32> = CompilerContext::new();
    let mut walk = BlockWalk::enter(&mut c);
    while let BlockStep::Build(_) = walk.step(&statements) {}
    assert!(!walk.leave(&mut c, &statements));
}

#[test]
fn only_a_name_is_assigned_to() {
    let p = Position { start: 0, end: 1 };
    let name = Expr::Identifier(Identifier { name: "x".to_string(), pos: p });
    assert_eq!(assignment_target(&name).unwrap(), "x");
    let number = Expr::NumberLiteral(NumberLiteral { number: Number::Integer(3), pos: p });
    match assignment_target(&number) {
        Err(CompileError::CanOnlyAssignVariable { target }) => assert_eq!(target, format!("{:?}", number)),
        other => panic!("unexpected result: {:?}", other),
    }
}
