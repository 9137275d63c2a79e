//! Expressions, and the `name : type` annotation.
use vstd::prelude::*;

use crate::ast::nodes::{
    lemma_view_stmts_push, view_block, view_stmts, CodeBlock, Statement, lemma_view_exprs_push, view_expr, view_exprs, view_type, view_members, BinaryOpExpression,
    Expr, FunctionCall, Identifier, NumberLiteral, SExpr, STypeDecl, StructureInitializer,
    TypeDeclarator, UnaryOpExpression,
};
use crate::ast::parser::array::parse_array_initializer;
use crate::ast::parser::statement::parse_statement;
use crate::ast::parser::grammar::{
    spec_parse_code_block, spec_statements_loop,
    spec_binary_ops_loop, spec_call_params_loop, spec_parse_annotation, spec_parse_binary_ops,
    spec_parse_call_expression, spec_parse_expression, spec_parse_identifier_expression,
    spec_parse_little_par_expression, spec_parse_number_expression,
    spec_parse_primary_expression, spec_parse_unary_ops,
};
use crate::ast::parser::structure::parse_structure_initializer;
use crate::ast::parser::type_declarator::parse_type_declarator;
use crate::ast::parser::{agrees, get_operator_precedence, kept};
use crate::error::{LEError, TokenType};
use crate::lexer::{LELexer, Operator, SErr};

verus! {

/// `name : type`
pub fn parse_annotation(lexer: &mut LELexer) -> (r: Result<(String, TypeDeclarator), LEError>)
    requires
        old(lexer).wf(),
    ensures
        kept(*old(lexer), *final(lexer)),
        agrees(
            spec_parse_annotation(old(lexer).stream(), old(lexer).spec_index()),
            final(lexer).spec_index(),
            match r {
                Ok(x) => Ok((x.0@, view_type(x.1))),
                Err(e) => Err(e.syntax_view()),
            },
        ),
        r is Ok ==> old(lexer).spec_index() < final(lexer).spec_index(),
    decreases old(lexer).spec_tokens().len() - old(lexer).spec_index(), 1nat,
{
    let identifier = match lexer.consume_identifier() {
        Ok(i) => i,
        Err(e) => return Err(e),
    };
    match lexer.consume_colon() {
        Ok(_) => {},
        Err(e) => return Err(e),
    }
    let type_declarator = match parse_type_declarator(lexer) {
        Ok(t) => t,
        Err(e) => return Err(e),
    };
    Ok((identifier, type_declarator))
}

/// The arguments of a call of `function_name`, from the `(` on.
pub fn parse_call_expression(lexer: &mut LELexer, function_name: Identifier) -> (r: Result<
    Box<Expr>,
    LEError,
>)
    requires
        old(lexer).wf(),
    ensures
        kept(*old(lexer), *final(lexer)),
        agrees(
            spec_parse_call_expression(
                old(lexer).stream(),
                old(lexer).spec_index(),
                function_name@,
            ),
            final(lexer).spec_index(),
            match r {
                Ok(x) => Ok(view_expr(*x)),
                Err(e) => Err(e.syntax_view()),
            },
        ),
        r is Ok ==> old(lexer).spec_index() < final(lexer).spec_index(),
    decreases old(lexer).spec_tokens().len() - old(lexer).spec_index(), 1nat,
{
    let ghost s = lexer.stream();
    let ghost i0 = lexer.spec_index();
    let start_pos = lexer.pos();
    if lexer.at_end() {
        return Err(lexer.error_here(vec![TokenType::RightPar, TokenType::Comma]));
    }
    lexer.consume();
    let mut params: Vec<Expr> = Vec::new();
    loop
        invariant
            lexer.wf(),
            lexer.stream() == s,
            s == old(lexer).stream(),
            i0 == old(lexer).spec_index(),
            i0 < lexer.spec_index(),
            start_pos == s.pos(i0),
            spec_call_params_loop(s, lexer.spec_index(), function_name@, start_pos, view_exprs(params@))
                == spec_parse_call_expression(s, i0, function_name@),
        decreases lexer.spec_tokens().len() - lexer.spec_index(),
    {
        if lexer.current_is(TokenType::RightPar) {
            lexer.consume();
            let pos = start_pos.sum(&lexer.pos());
            return Ok(Box::new(Expr::CallExpression(FunctionCall { function_name, params, pos })));
        } else if lexer.current_is(TokenType::Comma) {
            lexer.consume();
        } else if lexer.at_end() {
            return Err(lexer.error_here(vec![TokenType::RightPar, TokenType::Comma]));
        } else {
            let e = match parse_expression(lexer) {
                Ok(e) => e,
                Err(e) => return Err(e),
            };
            proof {
                lemma_view_exprs_push(params@, *e);
            }
            params.push(*e);
        }
    }
}

/// The binary operators after `lhs` that bind at least as tight as
/// `expression_precedence`, folded into `lhs` from the left.
pub fn parse_binary_ops(lexer: &mut LELexer, lhs: Box<Expr>, expression_precedence: usize) -> (r:
    Result<Box<Expr>, LEError>)
    requires
        old(lexer).wf(),
    ensures
        kept(*old(lexer), *final(lexer)),
        agrees(
            spec_parse_binary_ops(
                old(lexer).stream(),
                old(lexer).spec_index(),
                view_expr(*lhs),
                expression_precedence as nat,
            ),
            final(lexer).spec_index(),
            match r {
                Ok(x) => Ok(view_expr(*x)),
                Err(e) => Err(e.syntax_view()),
            },
        ),
        r is Ok ==> old(lexer).spec_index() <= final(lexer).spec_index(),
    decreases old(lexer).spec_tokens().len() - old(lexer).spec_index(), 4nat,
{
    let ghost s = lexer.stream();
    let ghost i0 = lexer.spec_index();
    let ghost lhs0 = view_expr(*lhs);
    let lhs_pos = lhs.pos();
    let mut acc = lhs;
    loop
        invariant
            lexer.wf(),
            lexer.stream() == s,
            s == old(lexer).stream(),
            i0 == old(lexer).spec_index(),
            i0 <= lexer.spec_index(),
            lhs_pos == lhs0.pos(),
            lhs0 == view_expr(*lhs),
            spec_binary_ops_loop(
                s,
                lexer.spec_index(),
                view_expr(*acc),
                expression_precedence as nat,
                lhs_pos,
            ) == spec_parse_binary_ops(s, i0, lhs0, expression_precedence as nat),
        decreases lexer.spec_tokens().len() - lexer.spec_index(),
    {
        if lexer.at_end() {
            let kinds = vec![TokenType::RightPar, TokenType::Comma];
            assert(kinds@ == seq![TokenType::RightPar, TokenType::Comma]);
            let e = lexer.error_here(kinds);
            return Err(e);
        }
        let op = match lexer.current_operator() {
            Some(op) => op,
            None => {
                return Ok(acc);
            },
        };
        let precedence = get_operator_precedence(&op);
        if precedence < expression_precedence {
            return Ok(acc);
        }
        lexer.consume();
        let rhs = match parse_primary_expression(lexer) {
            Ok(e) => e,
            Err(e) => return Err(e),
        };
        let rhs = match parse_binary_ops(lexer, rhs, precedence + 1) {
            Ok(e) => e,
            Err(e) => return Err(e),
        };
        let rhs_pos = rhs.pos();
        acc = Box::new(
            Expr::BinaryOperator(
                BinaryOpExpression { op, left: acc, right: rhs, pos: lhs_pos.sum(&rhs_pos) },
            ),
        );
    }
}

/// A name, and the call or the structure initializer that follows it, if one does.
pub fn parse_identifier_expression(lexer: &mut LELexer) -> (r: Result<Box<Expr>, LEError>)
    requires
        old(lexer).wf(),
    ensures
        kept(*old(lexer), *final(lexer)),
        agrees(
            spec_parse_identifier_expression(old(lexer).stream(), old(lexer).spec_index()),
            final(lexer).spec_index(),
            match r {
                Ok(x) => Ok(view_expr(*x)),
                Err(e) => Err(e.syntax_view()),
            },
        ),
        r is Ok ==> old(lexer).spec_index() < final(lexer).spec_index(),
    decreases old(lexer).spec_tokens().len() - old(lexer).spec_index(), 1nat,
{
    let start_pos = lexer.pos();
    let name = match lexer.consume_identifier() {
        Ok(n) => n,
        Err(e) => return Err(e),
    };
    let identifier = Identifier { name, pos: start_pos };
    if lexer.current_is(TokenType::LeftPar) {
        parse_call_expression(lexer, identifier)
    } else if lexer.current_is(TokenType::LeftBrace) {
        let (member_initial_values, pos) = match parse_structure_initializer(lexer) {
            Ok(x) => x,
            Err(e) => return Err(e),
        };
        Ok(
            Box::new(
                Expr::StructureInitializer(
                    StructureInitializer {
                        structure_name: identifier,
                        member_initial_values,
                        pos: start_pos.sum(&pos),
                    },
                ),
            ),
        )
    } else if lexer.at_end() {
        Err(lexer.error_here(vec![TokenType::LeftPar, TokenType::LeftBrace]))
    } else {
        Ok(Box::new(Expr::Identifier(identifier)))
    }
}

pub fn parse_number_expression(lexer: &mut LELexer) -> (r: Result<Box<Expr>, LEError>)
    requires
        old(lexer).wf(),
    ensures
        kept(*old(lexer), *final(lexer)),
        agrees(
            spec_parse_number_expression(old(lexer).stream(), old(lexer).spec_index()),
            final(lexer).spec_index(),
            match r {
                Ok(x) => Ok(view_expr(*x)),
                Err(e) => Err(e.syntax_view()),
            },
        ),
        r is Ok ==> old(lexer).spec_index() < final(lexer).spec_index(),
{
    let start_pos = lexer.pos();
    let number = match lexer.consume_number_literal() {
        Ok(n) => n,
        Err(e) => return Err(e),
    };
    Ok(Box::new(Expr::NumberLiteral(NumberLiteral { number, pos: start_pos })))
}

/// `( expression )`
pub fn parse_little_par_expression(lexer: &mut LELexer) -> (r: Result<Box<Expr>, LEError>)
    requires
        old(lexer).wf(),
    ensures
        kept(*old(lexer), *final(lexer)),
        agrees(
            spec_parse_little_par_expression(old(lexer).stream(), old(lexer).spec_index()),
            final(lexer).spec_index(),
            match r {
                Ok(x) => Ok(view_expr(*x)),
                Err(e) => Err(e.syntax_view()),
            },
        ),
        r is Ok ==> old(lexer).spec_index() < final(lexer).spec_index(),
    decreases old(lexer).spec_tokens().len() - old(lexer).spec_index(), 1nat,
{
    match lexer.consume_left_par() {
        Ok(_) => {},
        Err(e) => return Err(e),
    }
    let expression = match parse_expression(lexer) {
        Ok(e) => e,
        Err(e) => return Err(e),
    };
    match lexer.consume_right_par() {
        Ok(_) => {},
        Err(e) => return Err(e),
    }
    Ok(expression)
}

/// A prefix operator and the primary expression after it; the node built
/// is a negation whichever operator was written.
pub fn parse_unary_ops(lexer: &mut LELexer) -> (r: Result<Box<Expr>, LEError>)
    requires
        old(lexer).wf(),
    ensures
        kept(*old(lexer), *final(lexer)),
        agrees(
            spec_parse_unary_ops(old(lexer).stream(), old(lexer).spec_index()),
            final(lexer).spec_index(),
            match r {
                Ok(x) => Ok(view_expr(*x)),
                Err(e) => Err(e.syntax_view()),
            },
        ),
        r is Ok ==> old(lexer).spec_index() < final(lexer).spec_index(),
    decreases old(lexer).spec_tokens().len() - old(lexer).spec_index(), 1nat,
{
    let start_pos = lexer.pos();
    let _op = match lexer.consume_operator() {
        Ok(op) => op,
        Err(e) => return Err(e),
    };
    let expr = match parse_primary_expression(lexer) {
        Ok(e) => e,
        Err(e) => return Err(e),
    };
    Ok(
        Box::new(
            Expr::UnaryOperator(
                UnaryOpExpression { op: Operator::Sub, expr, pos: start_pos.sum(&lexer.pos()) },
            ),
        ),
    )
}

/// A unary operator, a number, a name, an array initializer, or a
/// parenthesized expression, chosen by the current token.
pub fn parse_primary_expression(lexer: &mut LELexer) -> (r: Result<Box<Expr>, LEError>)
    requires
        old(lexer).wf(),
    ensures
        kept(*old(lexer), *final(lexer)),
        agrees(
            spec_parse_primary_expression(old(lexer).stream(), old(lexer).spec_index()),
            final(lexer).spec_index(),
            match r {
                Ok(x) => Ok(view_expr(*x)),
                Err(e) => Err(e.syntax_view()),
            },
        ),
        r is Ok ==> old(lexer).spec_index() < final(lexer).spec_index(),
    decreases old(lexer).spec_tokens().len() - old(lexer).spec_index(), 2nat,
{
    if lexer.at_end() {
        Err(lexer.error_here(vec![TokenType::LeftPar, TokenType::LeftBrace]))
    } else if lexer.current_is(TokenType::Operator) {
        parse_unary_ops(lexer)
    } else if lexer.current_is(TokenType::NumberLiteral) {
        parse_number_expression(lexer)
    } else if lexer.current_is(TokenType::Identifier) {
        parse_identifier_expression(lexer)
    } else if lexer.current_is(TokenType::LeftBracket) {
        parse_array_initializer(lexer)
    } else if lexer.current_is(TokenType::LeftPar) {
        parse_little_par_expression(lexer)
    } else {
        Err(
            lexer.error_here(
                vec![
                    TokenType::Operator,
                    TokenType::NumberLiteral,
                    TokenType::Identifier,
                    TokenType::LeftBracket,
                    TokenType::LeftPar,
                ],
            ),
        )
    }
}

/// A primary expression and the binary operators after it.
pub fn parse_expression(lexer: &mut LELexer) -> (r: Result<Box<Expr>, LEError>)
    requires
        old(lexer).wf(),
    ensures
        kept(*old(lexer), *final(lexer)),
        agrees(
            spec_parse_expression(old(lexer).stream(), old(lexer).spec_index()),
            final(lexer).spec_index(),
            match r {
                Ok(x) => Ok(view_expr(*x)),
                Err(e) => Err(e.syntax_view()),
            },
        ),
        r is Ok ==> old(lexer).spec_index() < final(lexer).spec_index(),
    decreases old(lexer).spec_tokens().len() - old(lexer).spec_index(), 5nat,
{
    let primary = match parse_primary_expression(lexer) {
        Ok(e) => e,
        Err(e) => return Err(e),
    };
    parse_binary_ops(lexer, primary, 0)
}

/// `{ statement ... }`
pub fn parse_code_block(lexer: &mut LELexer) -> (r: Result<CodeBlock, LEError>)
    requires
        old(lexer).wf(),
    ensures
        kept(*old(lexer), *final(lexer)),
        agrees(
            spec_parse_code_block(old(lexer).stream(), old(lexer).spec_index()),
            final(lexer).spec_index(),
            match r {
                Ok(x) => Ok(view_block(x)),
                Err(e) => Err(e.syntax_view()),
            },
        ),
        r is Ok ==> old(lexer).spec_index() < final(lexer).spec_index(),
    decreases old(lexer).spec_tokens().len() - old(lexer).spec_index(), 8nat,
{
    let ghost s = lexer.stream();
    let ghost i0 = lexer.spec_index();
    let start_pos = lexer.pos();
    match lexer.consume_left_brace() {
        Ok(_) => {},
        Err(e) => return Err(e),
    }
    let mut statements: Vec<Statement> = Vec::new();
    loop
        invariant
            lexer.wf(),
            lexer.stream() == s,
            s == old(lexer).stream(),
            i0 == old(lexer).spec_index(),
            i0 < lexer.spec_index(),
            start_pos == s.pos(i0),
            spec_statements_loop(s, lexer.spec_index(), start_pos, view_stmts(statements@))
                == spec_parse_code_block(s, i0),
        decreases lexer.spec_tokens().len() - lexer.spec_index(),
    {
        if lexer.at_end() || lexer.current_is(TokenType::RightBrace) {
            match lexer.consume_right_brace() {
                Ok(_) => {},
                Err(e) => return Err(e),
            }
            return Ok(CodeBlock { statements, pos: start_pos.sum(&lexer.pos()) });
        }
        let statement = match parse_statement(lexer) {
            Ok(st) => st,
            Err(e) => return Err(e),
        };
        proof {
            lemma_view_stmts_push(statements@, statement);
        }
        statements.push(statement);
    }
}

} // verus!
