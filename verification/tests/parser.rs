use lelang::ast::nodes::{Expr, Statement, TypeDeclarator};
use lelang::ast::parser::{parse_expression, parse_statement, parse_type_declarator};
use lelang::ast::Ast;
use lelang::error::{LEError, SyntaxError, TokenType};
use lelang::lexer::{KeyWord, LELexer, LEToken, Number, Operator, Position};

fn ident(name: &str) -> LEToken {
    LEToken::Identifier(name.to_string())
}

fn op(o: Operator) -> LEToken {
    LEToken::Operator(o)
}

fn lexer(tokens: Vec<LEToken>) -> LELexer {
    let n = tokens.len();
    let positions: Vec<Position> = (0..n).map(|i| Position { start: i, end: i + 1 }).collect();
    LELexer::new(tokens, positions, Position { start: n, end: n }).unwrap()
}

fn name_of(e: &Expr) -> String {
    match e {
        Expr::Identifier(i) => i.name.clone(),
        other => panic!("not a name: {:?}", other),
    }
}

fn binary(e: &Expr) -> (Operator, &Expr, &Expr) {
    match e {
        Expr::BinaryOperator(b) => (b.op, &*b.left, &*b.right),
        other => panic!("not a binary expression: {:?}", other),
    }
}

#[test]
fn multiplication_binds_tighter_than_addition() {
    let mut l = lexer(vec![ident("a"), op(Operator::Plus), ident("b"), op(Operator::Mul), ident("c"), LEToken::Semicolon]);
    let e = parse_expression(&mut l).unwrap();
    let (o, left, right) = binary(&e);
    assert_eq!(o, Operator::Plus);
    assert_eq!(name_of(left), "a");
    let (o2, l2, r2) = binary(right);
    assert_eq!(o2, Operator::Mul);
    assert_eq!(name_of(l2), "b");
    assert_eq!(name_of(r2), "c");
    assert_eq!(l.index(), 5);
}

#[test]
fn equal_precedence_associates_left() {
    let mut l = lexer(vec![ident("a"), op(Operator::Sub), ident("b"), op(Operator::Sub), ident("c"), LEToken::Semicolon]);
    let e = parse_expression(&mut l).unwrap();
    let (o, left, right) = binary(&e);
    assert_eq!(o, Operator::Sub);
    assert_eq!(name_of(right), "c");
    let (o2, l2, r2) = binary(left);
    assert_eq!(o2, Operator::Sub);
    assert_eq!(name_of(l2), "a");
    assert_eq!(name_of(r2), "b");
    assert_eq!(e.pos(), Position { start: 0, end: 5 });
}

#[test]
fn assignment_binds_loosest() {
    let mut l = lexer(vec![ident("x"), op(Operator::Assign), ident("y"), op(Operator::Plus), ident("z"), LEToken::Semicolon]);
    let e = parse_expression(&mut l).unwrap();
    let (o, left, right) = binary(&e);
    assert_eq!(o, Operator::Assign);
    assert_eq!(name_of(left), "x");
    let (o2, _, _) = binary(right);
    assert_eq!(o2, Operator::Plus);
}

#[test]
fn parenthesized_expression_groups() {
    let mut l = lexer(vec![
        LEToken::LeftPar, ident("a"), op(Operator::Plus), ident("b"), LEToken::RightPar,
        op(Operator::Mul), ident("c"), LEToken::Semicolon,
    ]);
    let e = parse_expression(&mut l).unwrap();
    let (o, left, right) = binary(&e);
    assert_eq!(o, Operator::Mul);
    assert_eq!(name_of(right), "c");
    let (o2, _, _) = binary(left);
    assert_eq!(o2, Operator::Plus);
}

#[test]
fn call_with_arguments() {
    let mut l = lexer(vec![
        ident("f"), LEToken::LeftPar, LEToken::NumberLiteral(Number::Integer(1)), LEToken::Comma,
        ident("x"), LEToken::RightPar, LEToken::Semicolon,
    ]);
    let e = parse_expression(&mut l).unwrap();
    match &*e {
        Expr::CallExpression(c) => {
            assert_eq!(c.function_name.name, "f");
            assert_eq!(c.params.len(), 2);
            assert!(matches!(&c.params[0], Expr::NumberLiteral(n) if matches!(n.number, Number::Integer(1))));
            assert_eq!(name_of(&c.params[1]), "x");
        }
        other => panic!("not a call: {:?}", other),
    }
}

#[test]
fn expression_at_end_of_input_is_an_error() {
    let mut l = lexer(vec![ident("a")]);
    match parse_expression(&mut l) {
        Err(LEError::SyntaxError { error: SyntaxError::MissingToken { expected }, pos }) => {
            assert_eq!(expected, vec![TokenType::LeftPar, TokenType::LeftBrace]);
            assert_eq!(pos, Position { start: 1, end: 1 });
        }
        other => panic!("unexpected result: {:?}", other),
    }
}

#[test]
fn unexpected_token_in_expression() {
    let mut l = lexer(vec![LEToken::Comma]);
    match parse_expression(&mut l) {
        Err(LEError::SyntaxError { error: SyntaxError::UnexpectToken { found, .. }, pos }) => {
            assert!(matches!(found, LEToken::Comma));
            assert_eq!(pos, Position { start: 0, end: 1 });
        }
        other => panic!("unexpected result: {:?}", other),
    }
}

#[test]
fn return_statement() {
    let mut l = lexer(vec![LEToken::KeyWord(KeyWord::Return), LEToken::NumberLiteral(Number::Integer(7)), LEToken::Semicolon]);
    match parse_statement(&mut l).unwrap() {
        Statement::Return(e) => assert!(matches!(&*e, Expr::NumberLiteral(_))),
        other => panic!("not a return: {:?}", other),
    }
    assert_eq!(l.index(), 3);
}

#[test]
fn lone_semicolon_is_a_void_statement() {
    let mut l = lexer(vec![LEToken::Semicolon]);
    assert!(matches!(parse_statement(&mut l).unwrap(), Statement::Void(_)));
}

#[test]
fn variable_definition_statement() {
    let mut l = lexer(vec![
        LEToken::KeyWord(KeyWord::VariableDeclare), ident("x"), LEToken::Colon, ident("i32"),
        op(Operator::Assign), LEToken::NumberLiteral(Number::Integer(3)), LEToken::Semicolon,
    ]);
    match parse_statement(&mut l).unwrap() {
        Statement::VariableDefinition(v) => {
            assert_eq!(v.prototype.identifier.name, "x");
            assert!(matches!(&v.prototype.type_declarator, Some(TypeDeclarator::TypeIdentifier(t)) if t.name == "i32"));
        }
        other => panic!("not a variable definition: {:?}", other),
    }
}

#[test]
fn variable_definition_needs_assignment() {
    let mut l = lexer(vec![
        LEToken::KeyWord(KeyWord::VariableDeclare), ident("x"), op(Operator::Plus),
        LEToken::NumberLiteral(Number::Integer(3)), LEToken::Semicolon,
    ]);
    assert!(matches!(parse_statement(&mut l), Err(LEError::SyntaxError { error: SyntaxError::UnexpectToken { .. }, .. })));
}

#[test]
fn array_type_declarator() {
    let mut l = lexer(vec![
        LEToken::LeftBracket, ident("i32"), LEToken::Semicolon, LEToken::NumberLiteral(Number::Integer(4)),
        LEToken::RightBracket,
    ]);
    match parse_type_declarator(&mut l).unwrap() {
        TypeDeclarator::Array(a) => {
            assert_eq!(a.len, 4);
            assert!(matches!(&a.element_type, TypeDeclarator::TypeIdentifier(t) if t.name == "i32"));
        }
        other => panic!("not an array type: {:?}", other),
    }
}

#[test]
fn program_with_declaration_and_function() {
    let tokens = vec![
        LEToken::KeyWord(KeyWord::Declare), LEToken::KeyWord(KeyWord::FunctionDeclare), ident("puts"),
        LEToken::LeftPar, ident("i32"), LEToken::RightPar, LEToken::SingleArrow, ident("i32"), LEToken::Semicolon,
        LEToken::KeyWord(KeyWord::FunctionDefine), ident("main"), LEToken::LeftPar, ident("a"), LEToken::Colon,
        ident("i32"), LEToken::RightPar, LEToken::SingleArrow, ident("i32"), LEToken::LeftBrace,
        LEToken::KeyWord(KeyWord::Return), ident("a"), LEToken::Semicolon, LEToken::RightBrace,
    ];
    let ast = Ast::from_lexer(lexer(tokens)).unwrap();
    assert_eq!(ast.extern_functions.len(), 1);
    assert_eq!(ast.extern_functions[0].identifier.name, "puts");
    assert_eq!(ast.extern_functions[0].param_types.len(), 1);
    assert_eq!(ast.function_definitions.len(), 1);
    let f = &ast.function_definitions[0];
    assert_eq!(f.prototype.identifier.name, "main");
    assert_eq!(f.param_names, vec!["a".to_string()]);
    assert_eq!(f.code_block.statements.len(), 1);
    assert!(ast.globals_variables.is_empty());
    assert!(ast.globals_structures.is_empty());
}

#[test]
fn program_refuses_a_stray_token() {
    match Ast::from_lexer(lexer(vec![ident("x")])) {
        Err(LEError::SyntaxError { error: SyntaxError::UnexpectToken { expected, .. }, .. }) => {
            assert_eq!(expected, vec![TokenType::FunctionDefine, TokenType::FunctionDeclare]);
        }
        other => panic!("unexpected result: {:?}", other),
    }
}

#[test]
fn empty_program() {
    let ast = Ast::from_lexer(lexer(vec![])).unwrap();
    assert!(ast.function_definitions.is_empty());
}

#[test]
fn lexer_needs_a_span_per_token() {
    assert!(LELexer::new(vec![ident("a")], vec![], Position { start: 0, end: 0 }).is_none());
}

#[test]
fn comparison_of_sums() {
    let mut l = lexer(vec![
        ident("a"), op(Operator::Plus), ident("b"), op(Operator::LessThan), ident("c"), op(Operator::Mul),
        ident("d"), LEToken::Semicolon,
    ]);
    let e = parse_expression(&mut l).unwrap();
    let (o, left, right) = binary(&e);
    assert_eq!(o, Operator::LessThan);
    assert_eq!(binary(left).0, Operator::Plus);
    assert_eq!(binary(right).0, Operator::Mul);
}

#[test]
fn statement_refusing_a_keyword_leaves_the_cursor_on_it() {
    let mut l = lexer(vec![LEToken::KeyWord(KeyWord::Else), LEToken::Semicolon]);
    match parse_statement(&mut l) {
        Err(LEError::SyntaxError { error: SyntaxError::UnexpectToken { expected, found }, .. }) => {
            assert_eq!(
                expected,
                vec![TokenType::Return, TokenType::VariableDeclare, TokenType::If, TokenType::For, TokenType::While]
            );
            assert!(matches!(found, LEToken::KeyWord(KeyWord::Else)));
        }
        other => panic!("unexpected result: {:?}", other),
    }
    assert_eq!(l.index(), 0);
}

#[test]
fn primary_expression_refusing_a_parenthesis_consumes_nothing() {
    let mut l = lexer(vec![LEToken::RightPar]);
    assert!(lelang::ast::parser::parse_primary_expression(&mut l).is_err());
    assert_eq!(l.index(), 0);
}

#[test]
fn type_declarator_refusing_a_token_consumes_nothing() {
    let mut l = lexer(vec![LEToken::Comma]);
    match parse_type_declarator(&mut l) {
        Err(LEError::SyntaxError { error: SyntaxError::UnexpectToken { expected, .. }, .. }) => {
            assert_eq!(expected, vec![TokenType::Identifier, TokenType::LeftBracket]);
        }
        other => panic!("unexpected result: {:?}", other),
    }
    assert_eq!(l.index(), 0);
}

#[test]
fn structure_refusing_a_member_token_stops_on_it() {
    let mut l = lexer(vec![
        LEToken::KeyWord(KeyWord::StructureDeclare), ident("S"), LEToken::LeftBrace,
        LEToken::NumberLiteral(Number::Integer(1)), LEToken::RightBrace,
    ]);
    match lelang::ast::parser::parse_structure(&mut l) {
        Err(LEError::SyntaxError { error: SyntaxError::UnexpectToken { expected, found }, pos }) => {
            assert_eq!(expected, vec![TokenType::RightPar, TokenType::Identifier, TokenType::Comma]);
            assert!(matches!(found, LEToken::NumberLiteral(Number::Integer(1))));
            assert_eq!(pos, Position { start: 3, end: 4 });
        }
        other => panic!("unexpected result: {:?}", other),
    }
    assert_eq!(l.index(), 3);
}

#[test]
fn variable_definition_without_assignment_stops_after_the_operator() {
    let mut l = lexer(vec![
        LEToken::KeyWord(KeyWord::VariableDeclare), ident("x"), op(Operator::Plus),
        LEToken::NumberLiteral(Number::Integer(3)), LEToken::Semicolon,
    ]);
    assert!(parse_statement(&mut l).is_err());
    assert_eq!(l.index(), 3);
}
