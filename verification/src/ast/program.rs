//! Whole programs.
use vstd::prelude::*;

use crate::ast::nodes::{Ast, SAst};
use crate::ast::parser::function_parser::{parse_extern_function_prototype, parse_function};
use crate::ast::parser::grammar::{empty_ast, spec_program_loop, top_level_kinds};
use crate::ast::parser::structure::parse_structure;
use crate::ast::parser::variable_parser::parse_variable_declaration;
use crate::error::{LEError, TokenType};
use crate::ast::parser::kept;
use crate::lexer::{KeyWord, LELexer};

verus! {

impl Ast {
    /// The program that the tokens from the cursor's index on spell: each
    /// `declare` of an external function (with its `;`), each function
    /// definition, each global variable (with no `;` after it) and each
    /// structure, in the order of the source.
    pub fn from_lexer(tokens: LELexer) -> (r: Result<Ast, LEError>)
        requires
            tokens.wf(),
        ensures
            match spec_program_loop(tokens.stream(), tokens.spec_index(), empty_ast()) {
                Ok(a) => r matches Ok(x) && x@ == a,
                Err((e, _)) => r matches Err(x) && x.syntax_view() == Some(e),
            },
    {
        let mut ast = Ast {
            globals_variables: Vec::new(),
            globals_structures: Vec::new(),
            function_definitions: Vec::new(),
            extern_functions: Vec::new(),
        };
        assert(ast@ =~= empty_ast());
        match ast.parse(tokens) {
            Ok(_) => Ok(ast),
            Err(e) => Err(e),
        }
    }

    /// Adds to `self` the items of the program that the tokens from the
    /// cursor's index on spell. On an error, `self` keeps the items added
    /// before the one that failed.
    fn parse(&mut self, tokens: LELexer) -> (r: Result<(), LEError>)
        requires
            tokens.wf(),
        ensures
            match spec_program_loop(tokens.stream(), tokens.spec_index(), old(self)@) {
                Ok(a) => r is Ok && final(self)@ == a,
                Err((e, a)) => r matches Err(x) && x.syntax_view() == Some(e) && final(self)@ == a,
            },
    {
        let mut lexer = tokens;
        let ghost s = lexer.stream();
        let ghost i0 = lexer.spec_index();
        loop
            invariant
                lexer.wf(),
                lexer.stream() == s,
                s == tokens.stream(),
                i0 == tokens.spec_index(),
                spec_program_loop(s, lexer.spec_index(), self@) == spec_program_loop(
                    s,
                    i0,
                    old(self)@,
                ),
            decreases lexer.spec_tokens().len() - lexer.spec_index(),
        {
            if lexer.at_end() {
                return Ok(());
            }
            match self.parse_item(&mut lexer) {
                Ok(_) => {},
                Err(e) => return Err(e),
            }
        }
    }

    /// Adds to `self` the one item at the cursor, which is not at the end.
    fn parse_item(&mut self, lexer: &mut LELexer) -> (r: Result<(), LEError>)
        requires
            old(lexer).wf(),
            old(lexer).stream().cur(old(lexer).spec_index()) is Some,
        ensures
            kept(*old(lexer), *final(lexer)),
            r is Ok ==> old(lexer).spec_index() < final(lexer).spec_index(),
            r is Ok ==> spec_program_loop(old(lexer).stream(), old(lexer).spec_index(), old(self)@)
                == spec_program_loop(old(lexer).stream(), final(lexer).spec_index(), final(self)@),
            r matches Err(x) ==> spec_program_loop(old(lexer).stream(), old(lexer).spec_index(), old(self)@)
                matches Err((e, a)) && x.syntax_view() == Some(e) && a == final(self)@,
    {
        let ghost before = self@;
        match lexer.current_keyword() {
            Some(KeyWord::Declare) => {
                match lexer.consume_keyword() {
                    Ok(_) => {},
                    Err(e) => return Err(e),
                }
                let function_prototype = match parse_extern_function_prototype(lexer) {
                    Ok(p) => p,
                    Err(e) => return Err(e),
                };
                match lexer.consume_semicolon() {
                    Ok(_) => {},
                    Err(e) => return Err(e),
                }
                self.extern_functions.push(function_prototype);
                assert(self@ =~= SAst {
                    extern_functions: before.extern_functions.push(function_prototype@),
                    ..before
                });
                Ok(())
            },
            Some(KeyWord::FunctionDefine) => {
                let function = match parse_function(lexer) {
                    Ok(f) => f,
                    Err(e) => return Err(e),
                };
                self.function_definitions.push(function);
                assert(self@ =~= SAst {
                    function_definitions: before.function_definitions.push(function@),
                    ..before
                });
                Ok(())
            },
            Some(KeyWord::VariableDeclare) => {
                let variable = match parse_variable_declaration(lexer) {
                    Ok(v) => v,
                    Err(e) => return Err(e),
                };
                self.globals_variables.push(variable);
                assert(self@ =~= SAst {
                    globals_variables: before.globals_variables.push(variable@),
                    ..before
                });
                Ok(())
            },
            Some(KeyWord::StructureDeclare) => {
                let structure = match parse_structure(lexer) {
                    Ok(st) => st,
                    Err(e) => return Err(e),
                };
                self.globals_structures.push(structure);
                assert(self@ =~= SAst {
                    globals_structures: before.globals_structures.push(structure@),
                    ..before
                });
                Ok(())
            },
            _ => {
                let kinds = vec![TokenType::FunctionDefine, TokenType::FunctionDeclare];
                assert(kinds@ =~= top_level_kinds());
                Err(lexer.error_here(kinds))
            },
        }
    }
}

} // verus!
