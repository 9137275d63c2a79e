//! `while` loops.
use vstd::prelude::*;

use crate::ast::nodes::{view_stmt, Statement, WhileLoop};
use crate::ast::parser::common::{parse_code_block, parse_expression};
use crate::ast::parser::grammar::spec_parse_while_loop;
use crate::ast::parser::{agrees, kept};
use crate::error::LEError;
use crate::lexer::LELexer;

verus! {

/// `while ( expression ) block`, the first token being any keyword.
pub fn parse_while_loop(lexer: &mut LELexer) -> (r: Result<WhileLoop, LEError>)
    requires
        old(lexer).wf(),
    ensures
        kept(*old(lexer), *final(lexer)),
        agrees(
            spec_parse_while_loop(old(lexer).stream(), old(lexer).spec_index()),
            final(lexer).spec_index(),
            match r {
                Ok(x) => Ok(view_stmt(Statement::WhileLoop(x))),
                Err(e) => Err(e.syntax_view()),
            },
        ),
        r is Ok ==> old(lexer).spec_index() < final(lexer).spec_index(),
    decreases old(lexer).spec_tokens().len() - old(lexer).spec_index(), 6nat,
{
    let start_pos = lexer.pos();
    match lexer.consume_keyword() {
        Ok(_) => {},
        Err(e) => return Err(e),
    }
    match lexer.consume_left_par() {
        Ok(_) => {},
        Err(e) => return Err(e),
    }
    let cond = match parse_expression(lexer) {
        Ok(e) => e,
        Err(e) => return Err(e),
    };
    match lexer.consume_right_par() {
        Ok(_) => {},
        Err(e) => return Err(e),
    }
    let code_block = match parse_code_block(lexer) {
        Ok(b) => b,
        Err(e) => return Err(e),
    };
    Ok(WhileLoop { condition: cond, code_block, pos: start_pos.sum(&lexer.pos()) })
}

} // verus!
