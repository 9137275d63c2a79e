//! Function definitions and external function declarations.
use vstd::prelude::*;

use crate::ast::nodes::{
    view_annotations, view_block, view_opt_type, view_strings, view_type, view_types,
    FunctionDefinition, FunctionPrototype, Identifier, STypeDecl, TypeDeclarator,
};
use crate::ast::parser::common::{parse_annotation, parse_code_block};
use crate::ast::parser::grammar::{
    spec_params_loop, spec_parse_extern_function_prototype, spec_parse_function,
    spec_parse_function_params, spec_parse_function_return_type, spec_parse_type_list,
    spec_type_list_loop,
};
use crate::ast::parser::type_declarator::parse_type_declarator;
use crate::ast::parser::{agrees, kept};
use crate::error::{LEError, TokenType};
use crate::lexer::LELexer;

verus! {

/// `( name : type, ... )`
pub fn parse_function_params(lexer: &mut LELexer) -> (r: Result<
    Vec<(String, TypeDeclarator)>,
    LEError,
>)
    requires
        old(lexer).wf(),
    ensures
        kept(*old(lexer), *final(lexer)),
        agrees(
            spec_parse_function_params(old(lexer).stream(), old(lexer).spec_index()),
            final(lexer).spec_index(),
            match r {
                Ok(x) => Ok(view_annotations(x@)),
                Err(e) => Err(e.syntax_view()),
            },
        ),
        r is Ok ==> old(lexer).spec_index() < final(lexer).spec_index(),
{
    let ghost s = lexer.stream();
    let ghost i0 = lexer.spec_index();
    match lexer.consume_left_par() {
        Ok(_) => {},
        Err(e) => return Err(e),
    }
    let mut params: Vec<(String, TypeDeclarator)> = Vec::new();
    assert(view_annotations(params@) =~= Seq::empty());
    loop
        invariant
            lexer.wf(),
            lexer.stream() == s,
            s == old(lexer).stream(),
            i0 == old(lexer).spec_index(),
            i0 < lexer.spec_index(),
            spec_params_loop(s, lexer.spec_index(), view_annotations(params@))
                == spec_parse_function_params(s, i0),
        decreases lexer.spec_tokens().len() - lexer.spec_index(),
    {
        if lexer.at_end() {
            return Err(lexer.error_here(vec![TokenType::RightPar, TokenType::Comma]));
        } else if lexer.current_is(TokenType::RightPar) {
            lexer.consume();
            return Ok(params);
        } else if lexer.current_is(TokenType::Comma) {
            lexer.consume();
        } else {
            let a = match parse_annotation(lexer) {
                Ok(a) => a,
                Err(e) => return Err(e),
            };
            let ghost before = params@;
            params.push(a);
            proof {
                assert(view_annotations(params@) =~= view_annotations(before).push(
                    (a.0@, view_type(a.1)),
                ));
            }
        }
    }
}

/// `( type, ... )`
pub fn parse_type_list(lexer: &mut LELexer) -> (r: Result<Vec<TypeDeclarator>, LEError>)
    requires
        old(lexer).wf(),
    ensures
        kept(*old(lexer), *final(lexer)),
        agrees(
            spec_parse_type_list(old(lexer).stream(), old(lexer).spec_index()),
            final(lexer).spec_index(),
            match r {
                Ok(x) => Ok(view_types(x@)),
                Err(e) => Err(e.syntax_view()),
            },
        ),
        r is Ok ==> old(lexer).spec_index() < final(lexer).spec_index(),
{
    let ghost s = lexer.stream();
    let ghost i0 = lexer.spec_index();
    match lexer.consume_left_par() {
        Ok(_) => {},
        Err(e) => return Err(e),
    }
    let mut params: Vec<TypeDeclarator> = Vec::new();
    assert(view_types(params@) =~= Seq::empty());
    loop
        invariant
            lexer.wf(),
            lexer.stream() == s,
            s == old(lexer).stream(),
            i0 == old(lexer).spec_index(),
            i0 < lexer.spec_index(),
            spec_type_list_loop(s, lexer.spec_index(), view_types(params@))
                == spec_parse_type_list(s, i0),
        decreases lexer.spec_tokens().len() - lexer.spec_index(),
    {
        if lexer.at_end() {
            return Err(lexer.error_here(vec![TokenType::RightPar, TokenType::Comma]));
        } else if lexer.current_is(TokenType::RightPar) {
            lexer.consume();
            return Ok(params);
        } else if lexer.current_is(TokenType::Comma) {
            lexer.consume();
        } else {
            let t = match parse_type_declarator(lexer) {
                Ok(t) => t,
                Err(e) => return Err(e),
            };
            let ghost before = params@;
            params.push(t);
            proof {
                assert(view_types(params@) =~= view_types(before).push(view_type(t)));
            }
        }
    }
}

/// `fn name ( type, ... ) -> type`, the first token being any keyword.
pub fn parse_extern_function_prototype(lexer: &mut LELexer) -> (r: Result<
    FunctionPrototype,
    LEError,
>)
    requires
        old(lexer).wf(),
    ensures
        kept(*old(lexer), *final(lexer)),
        agrees(
            spec_parse_extern_function_prototype(old(lexer).stream(), old(lexer).spec_index()),
            final(lexer).spec_index(),
            match r {
                Ok(x) => Ok(x@),
                Err(e) => Err(e.syntax_view()),
            },
        ),
        r is Ok ==> old(lexer).spec_index() < final(lexer).spec_index(),
{
    let start_pos = lexer.pos();
    match lexer.consume_keyword() {
        Ok(_) => {},
        Err(e) => return Err(e),
    }
    let identifier_pos = lexer.pos();
    let name = match lexer.consume_identifier() {
        Ok(n) => n,
        Err(e) => return Err(e),
    };
    let identifier = Identifier { name, pos: identifier_pos };
    let param_types = match parse_type_list(lexer) {
        Ok(t) => t,
        Err(e) => return Err(e),
    };
    let return_type = match parse_function_return_type(lexer) {
        Ok(t) => t,
        Err(e) => return Err(e),
    };
    Ok(FunctionPrototype { identifier, param_types, return_type, pos: start_pos.sum(&lexer.pos()) })
}

/// `-> type`, or nothing where no arrow follows.
pub fn parse_function_return_type(lexer: &mut LELexer) -> (r: Result<
    Option<TypeDeclarator>,
    LEError,
>)
    requires
        old(lexer).wf(),
    ensures
        kept(*old(lexer), *final(lexer)),
        agrees(
            spec_parse_function_return_type(old(lexer).stream(), old(lexer).spec_index()),
            final(lexer).spec_index(),
            match r {
                Ok(x) => Ok(view_opt_type(x)),
                Err(e) => Err(e.syntax_view()),
            },
        ),
        r is Ok ==> old(lexer).spec_index() <= final(lexer).spec_index(),
{
    if lexer.at_end() {
        Err(lexer.error_here(vec![TokenType::RightPar, TokenType::Comma]))
    } else if lexer.current_is(TokenType::SingleArrow) {
        lexer.consume();
        match parse_type_declarator(lexer) {
            Ok(t) => Ok(Some(t)),
            Err(e) => Err(e),
        }
    } else {
        Ok(None)
    }
}

/// `fn name ( name : type, ... ) -> type block`, the first token being any
/// keyword.
pub fn parse_function(lexer: &mut LELexer) -> (r: Result<FunctionDefinition, LEError>)
    requires
        old(lexer).wf(),
    ensures
        kept(*old(lexer), *final(lexer)),
        agrees(
            spec_parse_function(old(lexer).stream(), old(lexer).spec_index()),
            final(lexer).spec_index(),
            match r {
                Ok(x) => Ok(x@),
                Err(e) => Err(e.syntax_view()),
            },
        ),
        r is Ok ==> old(lexer).spec_index() < final(lexer).spec_index(),
{
    let start_pos = lexer.pos();
    match lexer.consume_keyword() {
        Ok(_) => {},
        Err(e) => return Err(e),
    }
    let identifier_pos = lexer.pos();
    let name = match lexer.consume_identifier() {
        Ok(n) => n,
        Err(e) => return Err(e),
    };
    let identifier = Identifier { name, pos: identifier_pos };
    let params = match parse_function_params(lexer) {
        Ok(p) => p,
        Err(e) => return Err(e),
    };
    let return_type = match parse_function_return_type(lexer) {
        Ok(t) => t,
        Err(e) => return Err(e),
    };
    let proto_type_pos = start_pos.sum(&lexer.pos());
    let code_block = match parse_code_block(lexer) {
        Ok(b) => b,
        Err(e) => return Err(e),
    };
    let function_pos = start_pos.sum(&lexer.pos());
    let ghost all = view_annotations(params@);
    let mut param_names: Vec<String> = Vec::new();
    let mut param_types: Vec<TypeDeclarator> = Vec::new();
    let mut rest = params;
    let ghost total = rest@.len();
    while rest.len() > 0
        invariant
            all.len() == total,
            rest@.len() + param_names@.len() == total,
            param_names@.len() == param_types@.len(),
            view_annotations(rest@) == all.skip(param_names@.len() as int),
            forall|k: int| 0 <= k < param_names@.len() ==> #[trigger] param_names@[k]@ == all[k].0,
            forall|k: int|
                0 <= k < param_types@.len() ==> view_type(#[trigger] param_types@[k]) == all[k].1,
        decreases rest@.len(),
    {
        let ghost before = rest@;
        let (n, t) = rest.remove(0);
        proof {
            assert(view_annotations(before)[0] == (n@, view_type(t)));
            assert(view_annotations(rest@) =~= view_annotations(before).skip(1));
            assert(all.skip(param_names@.len() as int).skip(1) =~= all.skip(
                (param_names@.len() + 1) as int,
            ));
        }
        param_types.push(t);
        param_names.push(n);
    }
    proof {
        assert(view_strings(param_names@) =~= all.map_values(|a: (Seq<char>, STypeDecl)| a.0));
        assert(view_types(param_types@) =~= all.map_values(|a: (Seq<char>, STypeDecl)| a.1));
    }
    Ok(
        FunctionDefinition {
            prototype: FunctionPrototype {
                identifier,
                param_types,
                return_type,
                pos: proto_type_pos,
            },
            param_names,
            code_block,
            pos: function_pos,
        },
    )
}

} // verus!
