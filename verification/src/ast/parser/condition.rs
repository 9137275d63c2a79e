//! The first form of `if`, whose span is that of the token after it.
use vstd::prelude::*;

use crate::ast::nodes::{view_stmt, IfStatement, Statement};
use crate::ast::parser::common::{parse_code_block, parse_little_par_expression};
use crate::ast::parser::grammar::spec_parse_if_condition;
use crate::ast::parser::{agrees, kept};
use crate::error::LEError;
use crate::lexer::{KeyWord, LEToken, LELexer};

verus! {

/// `if ( expression ) block`, then `else block` where `else` follows; the
/// first token must be there, whatever it is, and so must a token after the
/// first block.
pub fn parse_if_condition(lexer: &mut LELexer) -> (r: Result<IfStatement, LEError>)
    requires
        old(lexer).wf(),
    ensures
        kept(*old(lexer), *final(lexer)),
        agrees(
            spec_parse_if_condition(old(lexer).stream(), old(lexer).spec_index()),
            final(lexer).spec_index(),
            match r {
                Ok(x) => Ok(view_stmt(Statement::If(x))),
                Err(e) => Err(e.syntax_view()),
            },
        ),
        r is Ok ==> old(lexer).spec_index() < final(lexer).spec_index(),
    decreases old(lexer).spec_tokens().len() - old(lexer).spec_index(), 6nat,
{
    match lexer.next_result() {
        Ok(_) => {},
        Err(e) => return Err(e),
    }
    let cond_value = match parse_little_par_expression(lexer) {
        Ok(e) => e,
        Err(e) => return Err(e),
    };
    let then_block = match parse_code_block(lexer) {
        Ok(b) => b,
        Err(e) => return Err(e),
    };
    let is_else = match lexer.current_result() {
        Ok(LEToken::KeyWord(KeyWord::Else)) => true,
        Ok(_) => false,
        Err(e) => return Err(e),
    };
    if is_else {
        match lexer.next_result() {
            Ok(_) => {},
            Err(e) => return Err(e),
        }
        let else_block = match parse_code_block(lexer) {
            Ok(b) => b,
            Err(e) => return Err(e),
        };
        Ok(
            IfStatement {
                cond: cond_value,
                then_block,
                else_block: Some(else_block),
                pos: lexer.pos(),
            },
        )
    } else {
        Ok(IfStatement { cond: cond_value, then_block, else_block: None, pos: lexer.pos() })
    }
}

} // verus!
