//! Types: a type name, a reference type, or an array type.
use vstd::prelude::*;

use crate::ast::nodes::{view_type, Identifier, TypeDeclarator};
use crate::ast::parser::array::parse_array_declarator;
use crate::ast::parser::grammar::spec_parse_type_declarator;
use crate::ast::parser::{agrees, kept};
use crate::error::{LEError, TokenType};
use crate::lexer::{KeyWord, LELexer};

verus! {

pub fn parse_type_declarator(lexer: &mut LELexer) -> (r: Result<TypeDeclarator, LEError>)
    requires
        old(lexer).wf(),
    ensures
        kept(*old(lexer), *final(lexer)),
        agrees(
            spec_parse_type_declarator(old(lexer).stream(), old(lexer).spec_index()),
            final(lexer).spec_index(),
            match r {
                Ok(x) => Ok(view_type(x)),
                Err(e) => Err(e.syntax_view()),
            },
        ),
        r is Ok ==> old(lexer).spec_index() < final(lexer).spec_index(),
    decreases old(lexer).spec_tokens().len() - old(lexer).spec_index(), 2nat,
{
    if lexer.at_end() {
        Err(lexer.error_here(vec![TokenType::Identifier, TokenType::LeftBracket]))
    } else if lexer.current_is(TokenType::Identifier) {
        let pos = lexer.pos();
        let name = match lexer.consume_identifier() {
            Ok(n) => n,
            Err(e) => return Err(e),
        };
        Ok(TypeDeclarator::TypeIdentifier(Identifier { name, pos }))
    } else if lexer.current_keyword() == Some(KeyWord::Ref) {
        match lexer.consume_keyword() {
            Ok(_) => {},
            Err(e) => return Err(e),
        }
        let ref_type = match parse_type_declarator(lexer) {
            Ok(t) => t,
            Err(e) => return Err(e),
        };
        Ok(TypeDeclarator::Reference(Box::new(ref_type)))
    } else if lexer.current_is(TokenType::LeftBracket) {
        match parse_array_declarator(lexer) {
            Ok(a) => Ok(TypeDeclarator::Array(Box::new(a))),
            Err(e) => Err(e),
        }
    } else {
        Err(lexer.error_here(vec![TokenType::Identifier, TokenType::LeftBracket]))
    }
}

} // verus!
