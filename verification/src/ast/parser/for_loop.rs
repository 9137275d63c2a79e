//! `for` loops.
use vstd::prelude::*;

use crate::ast::nodes::{view_stmt, ForLoop, Statement};
use crate::ast::parser::common::parse_code_block;
use crate::ast::parser::grammar::spec_parse_for_loop;
use crate::ast::parser::statement::parse_statement;
use crate::ast::parser::{agrees, kept};
use crate::error::LEError;
use crate::lexer::LELexer;

verus! {

/// `for ( statement statement statement ) block`, the first token being
/// any keyword; the span is that of the token after the loop.
pub fn parse_for_loop(lexer: &mut LELexer) -> (r: Result<ForLoop, LEError>)
    requires
        old(lexer).wf(),
    ensures
        kept(*old(lexer), *final(lexer)),
        agrees(
            spec_parse_for_loop(old(lexer).stream(), old(lexer).spec_index()),
            final(lexer).spec_index(),
            match r {
                Ok(x) => Ok(view_stmt(Statement::ForLoop(x))),
                Err(e) => Err(e.syntax_view()),
            },
        ),
        r is Ok ==> old(lexer).spec_index() < final(lexer).spec_index(),
    decreases old(lexer).spec_tokens().len() - old(lexer).spec_index(), 6nat,
{
    match lexer.consume_keyword() {
        Ok(_) => {},
        Err(e) => return Err(e),
    }
    match lexer.consume_left_par() {
        Ok(_) => {},
        Err(e) => return Err(e),
    }
    let initial = match parse_statement(lexer) {
        Ok(s) => s,
        Err(e) => return Err(e),
    };
    let cond = match parse_statement(lexer) {
        Ok(s) => s,
        Err(e) => return Err(e),
    };
    let step = match parse_statement(lexer) {
        Ok(s) => s,
        Err(e) => return Err(e),
    };
    match lexer.consume_right_par() {
        Ok(_) => {},
        Err(e) => return Err(e),
    }
    let code_block = match parse_code_block(lexer) {
        Ok(b) => b,
        Err(e) => return Err(e),
    };
    Ok(
        ForLoop {
            init_statement: Box::new(initial),
            condition: Box::new(cond),
            iterate: Box::new(step),
            code_block,
            pos: lexer.pos(),
        },
    )
}

} // verus!
