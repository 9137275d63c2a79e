//! Array initializers and array types.
use vstd::prelude::*;

use crate::ast::nodes::{
    lemma_view_exprs_push, view_expr, view_exprs, view_type, ArrayDeclarator, ArrayInitializer,
    Expr, TypeDeclarator,
};
use crate::ast::parser::common::parse_expression;
use crate::ast::parser::grammar::{
    spec_array_elements_loop, spec_parse_array_declarator, spec_parse_array_initializer,
};
use crate::ast::parser::type_declarator::parse_type_declarator;
use crate::ast::parser::{agrees, kept};
use crate::error::{LEError, SyntaxError, TokenType};
use crate::lexer::{LELexer, LEToken, Number};

verus! {

/// `[ expression, ... ]`
pub fn parse_array_initializer(lexer: &mut LELexer) -> (r: Result<Box<Expr>, LEError>)
    requires
        old(lexer).wf(),
    ensures
        kept(*old(lexer), *final(lexer)),
        agrees(
            spec_parse_array_initializer(old(lexer).stream(), old(lexer).spec_index()),
            final(lexer).spec_index(),
            match r {
                Ok(x) => Ok(view_expr(*x)),
                Err(e) => Err(e.syntax_view()),
            },
        ),
        r is Ok ==> old(lexer).spec_index() < final(lexer).spec_index(),
    decreases old(lexer).spec_tokens().len() - old(lexer).spec_index(), 1nat,
{
    let ghost s = lexer.stream();
    let ghost i0 = lexer.spec_index();
    let start_pos = lexer.pos();
    match lexer.consume_left_bracket() {
        Ok(_) => {},
        Err(e) => return Err(e),
    }
    let mut elements: Vec<Expr> = Vec::new();
    loop
        invariant
            lexer.wf(),
            lexer.stream() == s,
            s == old(lexer).stream(),
            i0 == old(lexer).spec_index(),
            i0 < lexer.spec_index(),
            start_pos == s.pos(i0),
            spec_array_elements_loop(s, lexer.spec_index(), start_pos, view_exprs(elements@))
                == spec_parse_array_initializer(s, i0),
        decreases lexer.spec_tokens().len() - lexer.spec_index(),
    {
        if lexer.at_end() {
            let kinds = vec![TokenType::RightBracket];
            assert(kinds@ == seq![TokenType::RightBracket]);
            let e = lexer.error_here(kinds);
            assert(e.syntax_view() == Some(crate::lexer::missing(s, lexer.spec_index(), seq![TokenType::RightBracket])));
            return Err(e);
        } else if lexer.current_is(TokenType::RightBracket) {
            lexer.consume();
            let pos = start_pos.sum(&lexer.pos());
            return Ok(Box::new(Expr::ArrayInitializer(ArrayInitializer { elements, pos })));
        } else if lexer.current_is(TokenType::Comma) {
            lexer.consume();
        } else {
            let e = match parse_expression(lexer) {
                Ok(e) => e,
                Err(e) => return Err(e),
            };
            proof {
                lemma_view_exprs_push(elements@, *e);
            }
            elements.push(*e);
        }
    }
}

/// `[ type ; length ]`; the length must be an integer literal, and is cut
/// to 32 bits.
pub fn parse_array_declarator(lexer: &mut LELexer) -> (r: Result<ArrayDeclarator, LEError>)
    requires
        old(lexer).wf(),
    ensures
        kept(*old(lexer), *final(lexer)),
        agrees(
            spec_parse_array_declarator(old(lexer).stream(), old(lexer).spec_index()),
            final(lexer).spec_index(),
            match r {
                Ok(x) => Ok(view_type(TypeDeclarator::Array(Box::new(x)))),
                Err(e) => Err(e.syntax_view()),
            },
        ),
        r is Ok ==> old(lexer).spec_index() < final(lexer).spec_index(),
    decreases old(lexer).spec_tokens().len() - old(lexer).spec_index(), 1nat,
{
    let start_pos = lexer.pos();
    match lexer.consume_left_bracket() {
        Ok(_) => {},
        Err(e) => return Err(e),
    }
    let element_type = match parse_type_declarator(lexer) {
        Ok(t) => t,
        Err(e) => return Err(e),
    };
    match lexer.consume_semicolon() {
        Ok(_) => {},
        Err(e) => return Err(e),
    }
    let len = match lexer.consume_number_literal() {
        Ok(n) => n,
        Err(e) => return Err(e),
    };
    if let Number::Integer(len) = len {
        match lexer.consume_right_bracket() {
            Ok(_) => {},
            Err(e) => return Err(e),
        }
        Ok(ArrayDeclarator { element_type, len: len as u32, pos: start_pos.sum(&lexer.pos()) })
    } else {
        Err(
            LEError::new_syntax_error(
                SyntaxError::unexpect_token(
                    vec![TokenType::NumberLiteral, TokenType::Identifier],
                    LEToken::NumberLiteral(len),
                ),
                lexer.pos(),
            ),
        )
    }
}

} // verus!
