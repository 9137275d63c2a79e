//! Statements.
use vstd::prelude::*;

use crate::ast::nodes::{view_stmt, Statement};
use crate::ast::parser::common::parse_expression;
use crate::ast::parser::for_loop::parse_for_loop;
use crate::ast::parser::grammar::{spec_parse_statement, statement_kinds};
use crate::ast::parser::if_statement::parse_if_statement;
use crate::ast::parser::variable_parser::parse_variable_declaration;
use crate::ast::parser::while_loop::parse_while_loop;
use crate::ast::parser::{agrees, kept};
use crate::error::{LEError, TokenType};
use crate::lexer::{KeyWord, LELexer};

verus! {

fn statement_kind_list() -> (r: Vec<TokenType>)
    ensures
        r@ == statement_kinds(),
{
    let r = vec![
        TokenType::Return,
        TokenType::VariableDeclare,
        TokenType::If,
        TokenType::For,
        TokenType::While,
    ];
    assert(r@ =~= statement_kinds());
    r
}

/// A statement: `return e;`, a variable definition and `;`, an `if`, a
/// `for`, a `while`, a lone `;`, or an expression and `;`.
pub fn parse_statement(lexer: &mut LELexer) -> (r: Result<Statement, LEError>)
    requires
        old(lexer).wf(),
    ensures
        kept(*old(lexer), *final(lexer)),
        agrees(
            spec_parse_statement(old(lexer).stream(), old(lexer).spec_index()),
            final(lexer).spec_index(),
            match r {
                Ok(x) => Ok(view_stmt(x)),
                Err(e) => Err(e.syntax_view()),
            },
        ),
        r is Ok ==> old(lexer).spec_index() < final(lexer).spec_index(),
    decreases old(lexer).spec_tokens().len() - old(lexer).spec_index(), 7nat,
{
    if lexer.at_end() {
        return Err(lexer.error_here(statement_kind_list()));
    }
    match lexer.current_keyword() {
        Some(KeyWord::Return) => {
            match lexer.consume_keyword() {
                Ok(_) => {},
                Err(e) => return Err(e),
            }
            let return_expression = match parse_expression(lexer) {
                Ok(e) => e,
                Err(e) => return Err(e),
            };
            match lexer.consume_semicolon() {
                Ok(_) => {},
                Err(e) => return Err(e),
            }
            Ok(Statement::Return(return_expression))
        },
        Some(KeyWord::VariableDeclare) => {
            let variable_node = match parse_variable_declaration(lexer) {
                Ok(v) => v,
                Err(e) => return Err(e),
            };
            match lexer.consume_semicolon() {
                Ok(_) => {},
                Err(e) => return Err(e),
            }
            Ok(Statement::VariableDefinition(variable_node))
        },
        Some(KeyWord::If) => match parse_if_statement(lexer) {
            Ok(s) => Ok(Statement::If(s)),
            Err(e) => Err(e),
        },
        Some(KeyWord::For) => match parse_for_loop(lexer) {
            Ok(s) => Ok(Statement::ForLoop(s)),
            Err(e) => Err(e),
        },
        Some(KeyWord::While) => match parse_while_loop(lexer) {
            Ok(s) => Ok(Statement::WhileLoop(s)),
            Err(e) => Err(e),
        },
        Some(_) => Err(lexer.error_here(statement_kind_list())),
        None => {
            if lexer.current_is(TokenType::Semicolon) {
                match lexer.consume_semicolon() {
                    Ok(_) => {},
                    Err(e) => return Err(e),
                }
                Ok(Statement::Void(lexer.pos()))
            } else {
                let expr = match parse_expression(lexer) {
                    Ok(e) => e,
                    Err(e) => return Err(e),
                };
                match lexer.consume_semicolon() {
                    Ok(_) => {},
                    Err(e) => return Err(e),
                }
                Ok(Statement::Expressions(expr))
            }
        },
    }
}

} // verus!
