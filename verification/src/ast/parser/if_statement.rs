//! `if` statements.
use vstd::prelude::*;

use crate::ast::nodes::{view_stmt, IfStatement, Statement};
use crate::ast::parser::common::{parse_code_block, parse_little_par_expression};
use crate::ast::parser::grammar::spec_parse_if_statement;
use crate::ast::parser::{agrees, kept};
use crate::error::LEError;
use crate::lexer::{KeyWord, LELexer};

verus! {

/// `if ( expression ) block`, and `else block` where `else` follows; the
/// first token is taken to be `if` whatever it is.
pub fn parse_if_statement(lexer: &mut LELexer) -> (r: Result<IfStatement, LEError>)
    requires
        old(lexer).wf(),
    ensures
        kept(*old(lexer), *final(lexer)),
        agrees(
            spec_parse_if_statement(old(lexer).stream(), old(lexer).spec_index()),
            final(lexer).spec_index(),
            match r {
                Ok(x) => Ok(view_stmt(Statement::If(x))),
                Err(e) => Err(e.syntax_view()),
            },
        ),
        r is Ok ==> old(lexer).spec_index() < final(lexer).spec_index(),
    decreases old(lexer).spec_tokens().len() - old(lexer).spec_index(), 6nat,
{
    let start_pos = lexer.pos();
    lexer.consume();
    let cond_value = match parse_little_par_expression(lexer) {
        Ok(e) => e,
        Err(e) => return Err(e),
    };
    let then_block = match parse_code_block(lexer) {
        Ok(b) => b,
        Err(e) => return Err(e),
    };
    if lexer.current_keyword() == Some(KeyWord::Else) {
        lexer.consume();
        let else_block = match parse_code_block(lexer) {
            Ok(b) => b,
            Err(e) => return Err(e),
        };
        Ok(
            IfStatement {
                cond: cond_value,
                then_block,
                else_block: Some(else_block),
                pos: start_pos.sum(&lexer.pos()),
            },
        )
    } else {
        Ok(
            IfStatement {
                cond: cond_value,
                then_block,
                else_block: None,
                pos: start_pos.sum(&lexer.pos()),
            },
        )
    }
}

} // verus!
