use lelang::ast::nodes::{BinaryOpExpression, Expr, Identifier, NumberLiteral, TypeDeclarator, ArrayDeclarator};

use lelang::ast::Ast;
use lelang::lexer::{KeyWord, LELexer, LEToken, Number, Operator, Position};
use ptree::item::StringItem;

fn flatten(item: &StringItem, depth: usize, out: &mut Vec<(usize, String)>) {
    out.push((depth, item.text.clone()));
    for c in &item.children {
        flatten(c, depth + 1, out);
    }
}

fn items(b: &mut ptree::TreeBuilder) -> Vec<(usize, String)> {
    let mut out = Vec::new();
    flatten(&b.build(), 0, &mut out);
    out
}

fn p() -> Position {
    Position { start: 0, end: 1 }
}

fn expect(v: &[(usize, &str)]) -> Vec<(usize, String)> {
    v.iter().map(|(d, t)| (*d, t.to_string())).collect()
}

#[test]
fn identifier_is_a_quoted_leaf() {
    let mut b = ptree::TreeBuilder::new("root".to_string());
    Identifier { name: "x".to_string(), pos: p() }.build_tree_format(&mut b);
    assert_eq!(items(&mut b), expect(&[(0, "root"), (1, "`x`")]));
}

#[test]
fn binary_expression_tree() {
    let e = Expr::BinaryOperator(BinaryOpExpression {
        op: Operator::Plus,
        left: Box::new(Expr::Identifier(Identifier { name: "a".to_string(), pos: p() })),
        right: Box::new(Expr::NumberLiteral(NumberLiteral { number: Number::Integer(42), pos: p() })),
        pos: p(),
    });
    let mut b = ptree::TreeBuilder::new("r".to_string());
    e.build_tree_format(&mut b);
    assert_eq!(
        items(&mut b),
        expect(&[
            (0, "r"),
            (1, "binary_op_expr"),
            (2, "left"),
            (3, "identifier"),
            (4, "`a`"),
            (2, "operator"),
            (3, "` + `"),
            (2, "right"),
            (3, "number_literal"),
            (4, "`42`"),
        ])
    );
}

#[test]
fn array_type_tree() {
    let t = TypeDeclarator::Array(Box::new(ArrayDeclarator {
        element_type: TypeDeclarator::TypeIdentifier(Identifier { name: "u8".to_string(), pos: p() }),
        len: 16,
        pos: p(),
    }));
    let mut b = ptree::TreeBuilder::new("r".to_string());
    t.build_tree_format(&mut b);
    assert_eq!(
        items(&mut b),
        expect(&[
            (0, "r"),
            (1, "array_type"),
            (2, "element_type"),
            (3, "type_identifier"),
            (4, "`u8`"),
            (2, "length"),
            (3, "16"),
        ])
    );
}

#[test]
fn program_tree_has_four_sections() {
    let tokens = vec![
        LEToken::KeyWord(KeyWord::Declare), LEToken::KeyWord(KeyWord::FunctionDeclare),
        LEToken::Identifier("f".to_string()), LEToken::LeftPar, LEToken::RightPar, LEToken::Semicolon,
    ];
    let n = tokens.len();
    let positions = (0..n).map(|i| Position { start: i, end: i + 1 }).collect();
    let l = LELexer::new(tokens, positions, Position { start: n, end: n }).unwrap();
    let ast = Ast::from_lexer(l).unwrap();
    let mut b = ast.tree_with_root_name("main.le".to_string());
    assert_eq!(
        items(&mut b),
        expect(&[
            (0, "main.le"),
            (1, "external functions"),
            (2, "0"),
            (3, "identifier"),
            (4, "`f`"),
            (3, "param_types"),
            (3, "return_type"),
            (4, "void"),
            (1, "function_definitions"),
            (1, "globals_structures"),
            (1, "globals_variables"),
        ])
    );
}
