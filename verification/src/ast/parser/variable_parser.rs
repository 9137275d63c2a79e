//! Variable definitions.
use vstd::prelude::*;

use crate::ast::nodes::{Identifier, Variable, VariablePrototype};
use crate::ast::parser::common::parse_expression;
use crate::ast::parser::grammar::spec_parse_variable_declaration;
use crate::ast::parser::type_declarator::parse_type_declarator;
use crate::ast::parser::{agrees, kept};
use crate::error::{LEError, SyntaxError, TokenType};
use crate::lexer::{LELexer, LEToken, Operator};

verus! {

/// `let name = expression` or `let name : type = expression`, the first
/// token being any keyword.
pub fn parse_variable_declaration(lexer: &mut LELexer) -> (r: Result<Variable, LEError>)
    requires
        old(lexer).wf(),
    ensures
        kept(*old(lexer), *final(lexer)),
        agrees(
            spec_parse_variable_declaration(old(lexer).stream(), old(lexer).spec_index()),
            final(lexer).spec_index(),
            match r {
                Ok(x) => Ok(x@),
                Err(e) => Err(e.syntax_view()),
            },
        ),
        r is Ok ==> old(lexer).spec_index() < final(lexer).spec_index(),
    decreases old(lexer).spec_tokens().len() - old(lexer).spec_index(), 6nat,
{
    let start_pos = lexer.pos();
    match lexer.consume_keyword() {
        Ok(_) => {},
        Err(e) => return Err(e),
    }
    let prototype_start_pos = lexer.pos();
    let name = match lexer.consume_identifier() {
        Ok(n) => n,
        Err(e) => return Err(e),
    };
    let identifier = Identifier { name, pos: prototype_start_pos };
    if lexer.at_end() {
        let kinds = vec![TokenType::Colon];
        assert(kinds@ =~= seq![TokenType::Colon]);
        return Err(lexer.error_here(kinds));
    }
    let type_declarator = if lexer.current_is(TokenType::Colon) {
        match lexer.consume_colon() {
            Ok(_) => {},
            Err(e) => return Err(e),
        }
        match parse_type_declarator(lexer) {
            Ok(t) => Some(t),
            Err(e) => return Err(e),
        }
    } else {
        None
    };
    let prototype_end_pos = lexer.pos();
    let equal_op = match lexer.consume_operator() {
        Ok(op) => op,
        Err(e) => return Err(e),
    };
    if equal_op == Operator::Assign {
        let initial_value = match parse_expression(lexer) {
            Ok(e) => e,
            Err(e) => return Err(e),
        };
        Ok(
            Variable {
                prototype: VariablePrototype {
                    type_declarator,
                    identifier,
                    pos: prototype_start_pos.sum(&prototype_end_pos),
                },
                value: initial_value,
                pos: start_pos.sum(&lexer.pos()),
            },
        )
    } else {
        let kinds = vec![TokenType::Operator];
        assert(kinds@ =~= seq![TokenType::Operator]);
        Err(
            LEError::new_syntax_error(
                SyntaxError::unexpect_token(kinds, LEToken::Operator(equal_op)),
                lexer.pos(),
            ),
        )
    }
}

} // verus!
