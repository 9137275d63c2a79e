//! Structure declarations and structure initializers.
use vstd::prelude::*;

use crate::ast::nodes::{
    lemma_view_members_push, view_annotations, view_expr, view_members, view_type, Expr,
    Identifier, Structure, TypeDeclarator,
};
use crate::ast::parser::common::{parse_annotation, parse_expression};
use crate::ast::parser::grammar::{
    spec_parse_structure, spec_structure_members_loop,
    spec_member_initializers_loop, spec_parse_member_initializer,
    spec_parse_structure_initializer,
};
use crate::ast::parser::{agrees, kept};
use crate::error::{LEError, TokenType};
use crate::lexer::{LELexer, Position};

verus! {

/// The members of a structure after its `{`, and the `}`.
fn parse_structure_members(lexer: &mut LELexer) -> (r: Result<
    Vec<(String, TypeDeclarator)>,
    LEError,
>)
    requires
        old(lexer).wf(),
    ensures
        kept(*old(lexer), *final(lexer)),
        agrees(
            spec_structure_members_loop(old(lexer).stream(), old(lexer).spec_index(), Seq::empty()),
            final(lexer).spec_index(),
            match r {
                Ok(x) => Ok(view_annotations(x@)),
                Err(e) => Err(e.syntax_view()),
            },
        ),
        r is Ok ==> old(lexer).spec_index() < final(lexer).spec_index(),
{
    let ghost s = lexer.stream();
    let ghost i1 = lexer.spec_index();
    let mut members: Vec<(String, TypeDeclarator)> = Vec::new();
    assert(view_annotations(members@) =~= Seq::empty());
    loop
        invariant
            lexer.wf(),
            lexer.stream() == s,
            s == old(lexer).stream(),
            old(lexer).spec_index() == i1,
            i1 <= lexer.spec_index(),
            spec_structure_members_loop(s, lexer.spec_index(), view_annotations(members@))
                == spec_structure_members_loop(s, i1, Seq::empty()),
        decreases lexer.spec_tokens().len() - lexer.spec_index(),
    {
        if lexer.at_end() {
            return Err(
                lexer.error_here(
                    vec![TokenType::RightPar, TokenType::Identifier, TokenType::Comma],
                ),
            );
        } else if lexer.current_is(TokenType::RightBrace) {
            lexer.consume();
            return Ok(members);
        } else if lexer.current_is(TokenType::Identifier) {
            let a = match parse_annotation(lexer) {
                Ok(a) => a,
                Err(e) => return Err(e),
            };
            let ghost before = members@;
            members.push(a);
            proof {
                assert(view_annotations(members@) =~= view_annotations(before).push(
                    (a.0@, view_type(a.1)),
                ));
            }
        } else if lexer.current_is(TokenType::Comma) {
            lexer.consume();
        } else {
            return Err(
                lexer.error_here(
                    vec![TokenType::RightPar, TokenType::Identifier, TokenType::Comma],
                ),
            );
        }
    }
}

/// `struct name { name : type, ... }`, the first token being any keyword.
pub fn parse_structure(lexer: &mut LELexer) -> (r: Result<Structure, LEError>)
    requires
        old(lexer).wf(),
    ensures
        kept(*old(lexer), *final(lexer)),
        agrees(
            spec_parse_structure(old(lexer).stream(), old(lexer).spec_index()),
            final(lexer).spec_index(),
            match r {
                Ok(x) => Ok(x@),
                Err(e) => Err(e.syntax_view()),
            },
        ),
        r is Ok ==> old(lexer).spec_index() < final(lexer).spec_index(),
{
    let start_pos = lexer.pos();
    match lexer.consume_keyword() {
        Ok(_) => {},
        Err(e) => return Err(e),
    }
    let name_pos = lexer.pos();
    let structure_name = match lexer.consume_identifier() {
        Ok(n) => n,
        Err(e) => return Err(e),
    };
    match lexer.consume_left_brace() {
        Ok(_) => {},
        Err(e) => return Err(e),
    }
    let members = match parse_structure_members(lexer) {
        Ok(m) => m,
        Err(e) => return Err(e),
    };
    Ok(
        Structure {
            identifier: Identifier { name: structure_name, pos: name_pos },
            members,
            pos: start_pos.sum(&lexer.pos()),
        },
    )
}

/// `name : expression`
fn parse_member_initializer(lexer: &mut LELexer) -> (r: Result<(String, Box<Expr>), LEError>)
    requires
        old(lexer).wf(),
    ensures
        kept(*old(lexer), *final(lexer)),
        agrees(
            spec_parse_member_initializer(old(lexer).stream(), old(lexer).spec_index()),
            final(lexer).spec_index(),
            match r {
                Ok(x) => Ok((x.0@, view_expr(*x.1))),
                Err(e) => Err(e.syntax_view()),
            },
        ),
        r is Ok ==> old(lexer).spec_index() < final(lexer).spec_index(),
    decreases old(lexer).spec_tokens().len() - old(lexer).spec_index(), 1nat,
{
    let identifier = match lexer.consume_identifier() {
        Ok(i) => i,
        Err(e) => return Err(e),
    };
    match lexer.consume_colon() {
        Ok(_) => {},
        Err(e) => return Err(e),
    }
    let initial_value = match parse_expression(lexer) {
        Ok(e) => e,
        Err(e) => return Err(e),
    };
    Ok((identifier, initial_value))
}

/// `{ name : expression, ... }`, with the span of the token after it.
pub fn parse_structure_initializer(lexer: &mut LELexer) -> (r: Result<
    (Vec<(String, Box<Expr>)>, Position),
    LEError,
>)
    requires
        old(lexer).wf(),
    ensures
        kept(*old(lexer), *final(lexer)),
        agrees(
            spec_parse_structure_initializer(old(lexer).stream(), old(lexer).spec_index()),
            final(lexer).spec_index(),
            match r {
                Ok(x) => Ok((view_members(x.0@), x.1)),
                Err(e) => Err(e.syntax_view()),
            },
        ),
        r is Ok ==> old(lexer).spec_index() < final(lexer).spec_index(),
    decreases old(lexer).spec_tokens().len() - old(lexer).spec_index(), 2nat,
{
    let ghost s = lexer.stream();
    let ghost i0 = lexer.spec_index();
    match lexer.consume_left_brace() {
        Ok(_) => {},
        Err(e) => return Err(e),
    }
    let mut members: Vec<(String, Box<Expr>)> = Vec::new();
    loop
        invariant
            lexer.wf(),
            lexer.stream() == s,
            s == old(lexer).stream(),
            i0 == old(lexer).spec_index(),
            i0 < lexer.spec_index(),
            spec_member_initializers_loop(s, lexer.spec_index(), view_members(members@))
                == spec_parse_structure_initializer(s, i0),
        decreases lexer.spec_tokens().len() - lexer.spec_index(),
    {
        if lexer.at_end() {
            return Err(
                lexer.error_here(
                    vec![TokenType::RightPar, TokenType::Identifier, TokenType::Comma],
                ),
            );
        } else if lexer.current_is(TokenType::RightBrace) {
            lexer.consume();
            let pos = lexer.pos();
            return Ok((members, pos));
        } else if lexer.current_is(TokenType::Identifier) {
            let m = match parse_member_initializer(lexer) {
                Ok(m) => m,
                Err(e) => return Err(e),
            };
            proof {
                lemma_view_members_push(members@, m);
            }
            members.push(m);
        } else if lexer.current_is(TokenType::Comma) {
            lexer.consume();
        } else {
            return Err(
                lexer.error_here(
                    vec![TokenType::RightPar, TokenType::Identifier, TokenType::Comma],
                ),
            );
        }
    }
}

} // verus!
