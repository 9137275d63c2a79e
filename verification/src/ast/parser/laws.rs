//! What the grammar promises: operators of higher precedence bind tighter,
//! those of equal precedence associate to the left, multiplication,
//! division and remainder bind tighter than addition and subtraction, an
//! `if` keeps its branches where they were written, and a program keeps each
//! of its structures.
use vstd::prelude::*;

use crate::ast::nodes::{SAst, SBlock, SExpr, SIdent, SStmt, STypeDecl};
use crate::ast::parser::grammar::{
    progressed, spec_binary_ops_loop, spec_parse_binary_ops, spec_parse_code_block,
    spec_parse_expression, spec_parse_extern_function_prototype, spec_parse_function,
    spec_parse_identifier_expression, spec_parse_if_statement, spec_parse_little_par_expression,
    spec_parse_for_loop, spec_parse_primary_expression, spec_parse_statement,
    spec_parse_structure, spec_parse_type_declarator, spec_parse_variable_declaration,
    spec_parse_while_loop, spec_position_sum, spec_precedence, spec_program_loop,
    spec_statements_loop, spec_call_params_loop, spec_parse_call_expression, spec_params_loop,
    spec_parse_annotation, spec_parse_function_params, spec_structure_members_loop,
};
use crate::error::TokenType;
use crate::lexer::{spec_expect, spec_identifier, KeyWord, Operator, PErr, Position, SStream, STok};

verus! {

/// The tokens from `i` on are `a o1 b o2 c`, three names and two binary
/// operators, followed by a token that ends an expression: none of an
/// operator, `(` or `{`.
pub open spec fn three_operands(
    s: SStream,
    i: nat,
    a: Seq<char>,
    o1: Operator,
    b: Seq<char>,
    o2: Operator,
    c: Seq<char>,
) -> bool {
    &&& i + 5 < s.tokens.len()
    &&& s.tokens[i as int] == STok::Identifier(a)
    &&& s.tokens[i + 1int] == STok::Operator(o1)
    &&& s.tokens[i + 2int] == STok::Identifier(b)
    &&& s.tokens[i + 3int] == STok::Operator(o2)
    &&& s.tokens[i + 4int] == STok::Identifier(c)
    &&& !(s.tokens[i + 5int] is Operator)
    &&& s.tokens[i + 5int] != STok::LeftPar
    &&& s.tokens[i + 5int] != STok::LeftBrace
}

/// The name at index `k` as an expression.
pub open spec fn name_at(s: SStream, k: nat, name: Seq<char>) -> SExpr {
    SExpr::Ident { ident: SIdent { name, pos: s.pos(k) } }
}

pub open spec fn binary(op: Operator, l: SExpr, r: SExpr) -> SExpr {
    SExpr::Binary { op, left: Box::new(l), right: Box::new(r), pos: spec_position_sum(l.pos(), r.pos()) }
}

proof fn lemma_name_operand(s: SStream, k: nat, name: Seq<char>)
    requires
        k + 1 < s.tokens.len(),
        s.tokens[k as int] == STok::Identifier(name),
        s.tokens[k + 1int] != STok::LeftPar,
        s.tokens[k + 1int] != STok::LeftBrace,
    ensures
        spec_parse_primary_expression(s, k) == Ok::<(SExpr, nat), PErr>((name_at(s, k, name), k + 1)),
{
    assert(spec_identifier(s, k) == Ok::<(Seq<char>, nat), PErr>((name, k + 1)));
    assert(spec_parse_identifier_expression(s, k) == Ok::<(SExpr, nat), PErr>((name_at(s, k, name), k + 1)));
}

/// In `a o1 b o2 c`, an `o1` that binds at least as tight as `o2` takes `a`
/// and `b`, and `o2` takes that and `c`; an `o1` that binds less tight takes
/// `a` and what `o2` makes of `b` and `c`. The expression ends after `c`.
pub proof fn law_precedence(
    s: SStream,
    i: nat,
    a: Seq<char>,
    o1: Operator,
    b: Seq<char>,
    o2: Operator,
    c: Seq<char>,
)
    requires
        three_operands(s, i, a, o1, b, o2, c),
    ensures
        spec_precedence(o1) >= spec_precedence(o2) ==> spec_parse_expression(s, i) == Ok::<
            (SExpr, nat),
            PErr,
        >(
            (
                binary(
                    o2,
                    binary(o1, name_at(s, i, a), name_at(s, i + 2, b)),
                    name_at(s, i + 4, c),
                ),
                i + 5,
            ),
        ),
        spec_precedence(o1) < spec_precedence(o2) ==> spec_parse_expression(s, i) == Ok::<
            (SExpr, nat),
            PErr,
        >(
            (
                binary(
                    o1,
                    name_at(s, i, a),
                    binary(o2, name_at(s, i + 2, b), name_at(s, i + 4, c)),
                ),
                i + 5,
            ),
        ),
{
    let ea = name_at(s, i, a);
    let eb = name_at(s, i + 2, b);
    let ec = name_at(s, i + 4, c);
    let p1 = spec_precedence(o1);
    let p2 = spec_precedence(o2);
    lemma_name_operand(s, i, a);
    lemma_name_operand(s, i + 2, b);
    lemma_name_operand(s, i + 4, c);
    assert(spec_parse_binary_ops(s, i + 5, ec, p2 + 1) == Ok::<(SExpr, nat), PErr>((ec, i + 5)));
    if p1 >= p2 {
        let ab = binary(o1, ea, eb);
        assert(spec_binary_ops_loop(s, i + 3, eb, p1 + 1, eb.pos()) == Ok::<(SExpr, nat), PErr>((eb, i + 3)));
        assert(spec_parse_binary_ops(s, i + 3, eb, p1 + 1) == Ok::<(SExpr, nat), PErr>((eb, i + 3)));
        let abc = binary(o2, ab, ec);
        assert(spec_binary_ops_loop(s, i + 5, abc, 0, ea.pos()) == Ok::<(SExpr, nat), PErr>((abc, i + 5)));
        assert(spec_binary_ops_loop(s, i + 3, ab, 0, ea.pos()) == Ok::<(SExpr, nat), PErr>((abc, i + 5)));
        assert(spec_binary_ops_loop(s, i + 1, ea, 0, ea.pos()) == Ok::<(SExpr, nat), PErr>((abc, i + 5)));
    } else {
        let bc = binary(o2, eb, ec);
        assert(spec_binary_ops_loop(s, i + 5, bc, p1 + 1, eb.pos()) == Ok::<(SExpr, nat), PErr>((bc, i + 5)));
        assert(spec_binary_ops_loop(s, i + 3, eb, p1 + 1, eb.pos()) == Ok::<(SExpr, nat), PErr>((bc, i + 5)));
        assert(spec_parse_binary_ops(s, i + 3, eb, p1 + 1) == Ok::<(SExpr, nat), PErr>((bc, i + 5)));
        let abc = binary(o1, ea, bc);
        assert(spec_binary_ops_loop(s, i + 5, abc, 0, ea.pos()) == Ok::<(SExpr, nat), PErr>((abc, i + 5)));
        assert(spec_binary_ops_loop(s, i + 1, ea, 0, ea.pos()) == Ok::<(SExpr, nat), PErr>((abc, i + 5)));
    }
}

/// `+` and `-`.
pub open spec fn is_additive(op: Operator) -> bool {
    op == Operator::Plus || op == Operator::Sub
}

/// `*`, `/` and `%`.
pub open spec fn is_multiplicative(op: Operator) -> bool {
    op == Operator::Mul || op == Operator::Div || op == Operator::Mod
}

/// In `a + b * c` (any of `+`, `-` first, any of `*`, `/`, `%` second), the
/// second operator takes `b` and `c`, and the first takes `a` and that.
pub proof fn law_multiplicative_binds_tighter(
    s: SStream,
    i: nat,
    a: Seq<char>,
    o1: Operator,
    b: Seq<char>,
    o2: Operator,
    c: Seq<char>,
)
    requires
        three_operands(s, i, a, o1, b, o2, c),
        is_additive(o1),
        is_multiplicative(o2),
    ensures
        spec_parse_expression(s, i) == Ok::<(SExpr, nat), PErr>(
            (binary(o1, name_at(s, i, a), binary(o2, name_at(s, i + 2, b), name_at(s, i + 4, c))), i + 5),
        ),
{
    law_precedence(s, i, a, o1, b, o2, c);
}

/// In `a * b + c` (any of `*`, `/`, `%` first, any of `+`, `-` second), the
/// first operator takes `a` and `b`, and the second takes that and `c`.
pub proof fn law_multiplicative_binds_first(
    s: SStream,
    i: nat,
    a: Seq<char>,
    o1: Operator,
    b: Seq<char>,
    o2: Operator,
    c: Seq<char>,
)
    requires
        three_operands(s, i, a, o1, b, o2, c),
        is_multiplicative(o1),
        is_additive(o2),
    ensures
        spec_parse_expression(s, i) == Ok::<(SExpr, nat), PErr>(
            (binary(o2, binary(o1, name_at(s, i, a), name_at(s, i + 2, b)), name_at(s, i + 4, c)), i + 5),
        ),
{
    law_precedence(s, i, a, o1, b, o2, c);
}

/// Two operators of one level, both additive or both multiplicative,
/// associate to the left: `a - b + c` is `(a - b) + c`, `a / b * c` is
/// `(a / b) * c`.
pub proof fn law_same_level_associates_left(
    s: SStream,
    i: nat,
    a: Seq<char>,
    o1: Operator,
    b: Seq<char>,
    o2: Operator,
    c: Seq<char>,
)
    requires
        three_operands(s, i, a, o1, b, o2, c),
        (is_additive(o1) && is_additive(o2)) || (is_multiplicative(o1) && is_multiplicative(o2)),
    ensures
        spec_parse_expression(s, i) == Ok::<(SExpr, nat), PErr>(
            (binary(o2, binary(o1, name_at(s, i, a), name_at(s, i + 2, b)), name_at(s, i + 4, c)), i + 5),
        ),
{
    law_precedence(s, i, a, o1, b, o2, c);
}

/// The branches of a parsed `if` are where they were written: the
/// condition is the parenthesized expression after the keyword, the `then`
/// block is the block right after the condition, and the `else` block, where
/// there is one, is the block after the `else` keyword that follows the
/// `then` block, the statement ending with it; without one, the statement
/// ends with the `then` block, which no `else` follows.
pub proof fn law_if_branches_in_place(s: SStream, i: nat)
    requires
        spec_parse_if_statement(s, i) is Ok,
    ensures
        match spec_parse_if_statement(s, i) {
            Ok((SStmt::If { cond, then_block, else_block, .. }, l)) => {
                &&& spec_parse_little_par_expression(s, s.adv(i)) matches Ok((c, j))
                &&& c == cond
                &&& spec_parse_code_block(s, j) matches Ok((tb, k))
                &&& tb == then_block
                &&& match else_block {
                    Some(eb) => s.cur(k) == Some(STok::KeyWord(KeyWord::Else))
                        && spec_parse_code_block(s, k + 1) == Ok::<(SBlock, nat), PErr>((eb, l)),
                    None => s.cur(k) != Some(STok::KeyWord(KeyWord::Else)) && l == k,
                }
            },
            _ => false,
        },
{
}

/// `small` stands, in order, at the front of `big`.
pub open spec fn prefix_of<X>(small: Seq<X>, big: Seq<X>) -> bool {
    small.len() <= big.len() && big.subrange(0, small.len() as int) == small
}

/// Each kind of item of `small` stands, in order, at the front of the
/// items of that kind in `big`.
pub open spec fn extends(big: SAst, small: SAst) -> bool {
    &&& prefix_of(small.globals_variables, big.globals_variables)
    &&& prefix_of(small.globals_structures, big.globals_structures)
    &&& prefix_of(small.function_definitions, big.function_definitions)
    &&& prefix_of(small.extern_functions, big.extern_functions)
}

proof fn lemma_prefix_refl<X>(x: Seq<X>)
    ensures
        prefix_of(x, x),
{
    assert(x.subrange(0, x.len() as int) =~= x);
}

proof fn lemma_prefix_push<X>(x: Seq<X>, e: X)
    ensures
        prefix_of(x, x.push(e)),
{
    assert(x.push(e).subrange(0, x.len() as int) =~= x);
}

proof fn lemma_prefix_trans<X>(a: Seq<X>, b: Seq<X>, c: Seq<X>)
    requires
        prefix_of(a, b),
        prefix_of(b, c),
    ensures
        prefix_of(a, c),
{
    assert(c.subrange(0, a.len() as int) =~= b.subrange(0, a.len() as int));
}

proof fn lemma_extends_refl(a: SAst)
    ensures
        extends(a, a),
{
    lemma_prefix_refl(a.globals_variables);
    lemma_prefix_refl(a.globals_structures);
    lemma_prefix_refl(a.function_definitions);
    lemma_prefix_refl(a.extern_functions);
}

proof fn lemma_extends_trans(a: SAst, b: SAst, c: SAst)
    requires
        extends(b, a),
        extends(c, b),
    ensures
        extends(c, a),
{
    lemma_prefix_trans(a.globals_variables, b.globals_variables, c.globals_variables);
    lemma_prefix_trans(a.globals_structures, b.globals_structures, c.globals_structures);
    lemma_prefix_trans(a.function_definitions, b.function_definitions, c.function_definitions);
    lemma_prefix_trans(a.extern_functions, b.extern_functions, c.extern_functions);
}

/// The program that the items from `i` on make of `ast` keeps every item
/// of `ast`, in order, at the front of its kind.
#[verifier::spinoff_prover]
#[verifier::rlimit(40)]
pub proof fn law_program_extends(s: SStream, i: nat, ast: SAst)
    requires
        spec_program_loop(s, i, ast) is Ok,
    ensures
        spec_program_loop(s, i, ast) matches Ok(a) && extends(a, ast),
    decreases s.tokens.len() - i,
{
    lemma_extends_refl(ast);
    lemma_prefix_refl(ast.globals_variables);
    lemma_prefix_refl(ast.globals_structures);
    lemma_prefix_refl(ast.function_definitions);
    lemma_prefix_refl(ast.extern_functions);
    match s.cur(i) {
        Some(STok::KeyWord(KeyWord::Declare)) => {
            if let Ok((p, j)) = spec_parse_extern_function_prototype(s, i + 1) {
                if let Ok((_, k)) = spec_expect(s, j, TokenType::Semicolon) {
                    if progressed(s, i, k) {
                        let next = SAst { extern_functions: ast.extern_functions.push(p), ..ast };
                        lemma_prefix_push(ast.extern_functions, p);
                        law_program_extends(s, k, next);
                        lemma_extends_trans(ast, next, spec_program_loop(s, k, next)->Ok_0);
                    }
                }
            }
        },
        Some(STok::KeyWord(KeyWord::FunctionDefine)) => {
            if let Ok((f, j)) = spec_parse_function(s, i) {
                if progressed(s, i, j) {
                    let next = SAst { function_definitions: ast.function_definitions.push(f), ..ast };
                    lemma_prefix_push(ast.function_definitions, f);
                    law_program_extends(s, j, next);
                    lemma_extends_trans(ast, next, spec_program_loop(s, j, next)->Ok_0);
                }
            }
        },
        Some(STok::KeyWord(KeyWord::VariableDeclare)) => {
            if let Ok((v, j)) = spec_parse_variable_declaration(s, i) {
                if progressed(s, i, j) {
                    let next = SAst { globals_variables: ast.globals_variables.push(v), ..ast };
                    lemma_prefix_push(ast.globals_variables, v);
                    law_program_extends(s, j, next);
                    lemma_extends_trans(ast, next, spec_program_loop(s, j, next)->Ok_0);
                }
            }
        },
        Some(STok::KeyWord(KeyWord::StructureDeclare)) => {
            if let Ok((st, j)) = spec_parse_structure(s, i) {
                if progressed(s, i, j) {
                    let next = SAst { globals_structures: ast.globals_structures.push(st), ..ast };
                    lemma_prefix_push(ast.globals_structures, st);
                    law_program_extends(s, j, next);
                    lemma_extends_trans(ast, next, spec_program_loop(s, j, next)->Ok_0);
                }
            }
        },
        _ => {},
    }
}

/// A structure declared at `i` is kept: it is parsed, and in the program
/// it stands right after the structures that came before it. So the
/// structures of a program are those it declares, in order.
#[verifier::spinoff_prover]
#[verifier::rlimit(40)]
pub proof fn law_program_keeps_structures(s: SStream, i: nat, ast: SAst)
    requires
        spec_program_loop(s, i, ast) is Ok,
        s.cur(i) == Some(STok::KeyWord(KeyWord::StructureDeclare)),
    ensures
        spec_parse_structure(s, i) matches Ok((st, _)) && spec_program_loop(s, i, ast) matches Ok(a)
            && ast.globals_structures.len() < a.globals_structures.len()
            && a.globals_structures[ast.globals_structures.len() as int] == st,
{
    let (st, j) = spec_parse_structure(s, i)->Ok_0;
    let next = SAst { globals_structures: ast.globals_structures.push(st), ..ast };
    law_program_extends(s, j, next);
    let a = spec_program_loop(s, j, next)->Ok_0;
    assert(a.globals_structures.subrange(0, next.globals_structures.len() as int)[ast.globals_structures.len() as int]
        == a.globals_structures[ast.globals_structures.len() as int]);
}

/// A `return` statement returns the expression written after the keyword,
/// and ends with the `;` that follows it.
pub proof fn law_return_in_place(s: SStream, i: nat)
    requires
        s.cur(i) == Some(STok::KeyWord(KeyWord::Return)),
        spec_parse_statement(s, i) is Ok,
    ensures
        match spec_parse_statement(s, i) {
            Ok((SStmt::Return(e), k)) => {
                &&& spec_parse_expression(s, i + 1) matches Ok((v, j))
                &&& v == e
                &&& s.cur(j) == Some(STok::Semicolon)
                &&& k == j + 1
            },
            _ => false,
        },
{
}

/// A `while` loop's condition is the expression inside the parentheses
/// after the keyword, and its body is the block right after them.
pub proof fn law_while_in_place(s: SStream, i: nat)
    requires
        spec_parse_while_loop(s, i) is Ok,
    ensures
        match spec_parse_while_loop(s, i) {
            Ok((SStmt::WhileLoop { cond, code_block, .. }, n)) => {
                &&& s.cur(i + 1) == Some(STok::LeftPar)
                &&& spec_parse_expression(s, i + 2) matches Ok((c, l))
                &&& c == cond
                &&& s.cur(l) == Some(STok::RightPar)
                &&& spec_parse_code_block(s, l + 1) == Ok::<(SBlock, nat), PErr>((code_block, n))
            },
            _ => false,
        },
{
}

/// A `for` loop's three statements are, in order, those inside the
/// parentheses after the keyword, the first being its initialization, the
/// second its condition and the third its step; its body is the block after
/// the parentheses.
pub proof fn law_for_in_place(s: SStream, i: nat)
    requires
        spec_parse_for_loop(s, i) is Ok,
    ensures
        match spec_parse_for_loop(s, i) {
            Ok((SStmt::ForLoop { init, cond, iterate, code_block, .. }, p)) => {
                &&& s.cur(i + 1) == Some(STok::LeftPar)
                &&& spec_parse_statement(s, i + 2) matches Ok((a, l))
                &&& a == *init
                &&& spec_parse_statement(s, l) matches Ok((b, m))
                &&& b == *cond
                &&& spec_parse_statement(s, m) matches Ok((c, n))
                &&& c == *iterate
                &&& s.cur(n) == Some(STok::RightPar)
                &&& spec_parse_code_block(s, n + 1) == Ok::<(SBlock, nat), PErr>((code_block, p))
            },
            _ => false,
        },
{
}

/// A variable declaration names the variable by the name after the
/// keyword, has the type written after a `:` that follows the name (none
/// without one), and is given the expression after the `=`.
pub proof fn law_variable_in_place(s: SStream, i: nat)
    requires
        spec_parse_variable_declaration(s, i) is Ok,
    ensures
        match spec_parse_variable_declaration(s, i) {
            Ok((v, n)) => {
                &&& s.cur(i + 1) == Some(STok::Identifier(v.identifier.name))
                &&& v.identifier.pos == s.pos(i + 1)
                &&& exists|l: nat| {
                    &&& #[trigger] s.cur(l) == Some(STok::Operator(Operator::Assign))
                    &&& spec_parse_expression(s, l + 1) == Ok::<(SExpr, nat), PErr>((v.value, n))
                    &&& if s.cur(i + 2) == Some(STok::Colon) {
                        spec_parse_type_declarator(s, i + 3) == Ok::<(STypeDecl, nat), PErr>((v.type_declarator->Some_0, l))
                            && v.type_declarator is Some
                    } else {
                        v.type_declarator is None && l == i + 2
                    }
                }
            },
            _ => false,
        },
{
    let (v, n) = spec_parse_variable_declaration(s, i)->Ok_0;
    let l: nat = if s.cur(i + 2) == Some(STok::Colon) {
        spec_parse_type_declarator(s, i + 3)->Ok_0.1
    } else {
        i + 2
    };
    assert(s.cur(l) == Some(STok::Operator(Operator::Assign)));
}

/// A function defined at `i` is kept: it is parsed, and in the program it
/// stands right after the functions that came before it.
#[verifier::spinoff_prover]
#[verifier::rlimit(40)]
pub proof fn law_program_keeps_functions(s: SStream, i: nat, ast: SAst)
    requires
        spec_program_loop(s, i, ast) is Ok,
        s.cur(i) == Some(STok::KeyWord(KeyWord::FunctionDefine)),
    ensures
        spec_parse_function(s, i) matches Ok((f, _)) && spec_program_loop(s, i, ast) matches Ok(a)
            && ast.function_definitions.len() < a.function_definitions.len()
            && a.function_definitions[ast.function_definitions.len() as int] == f,
{
    let (f, j) = spec_parse_function(s, i)->Ok_0;
    let next = SAst { function_definitions: ast.function_definitions.push(f), ..ast };
    law_program_extends(s, j, next);
    let a = spec_program_loop(s, j, next)->Ok_0;
    assert(a.function_definitions.subrange(0, next.function_definitions.len() as int)[ast.function_definitions.len() as int]
        == a.function_definitions[ast.function_definitions.len() as int]);
}

/// A global variable declared at `i` is kept: it is parsed, and in the
/// program it stands right after the globals that came before it.
#[verifier::spinoff_prover]
#[verifier::rlimit(40)]
pub proof fn law_program_keeps_globals(s: SStream, i: nat, ast: SAst)
    requires
        spec_program_loop(s, i, ast) is Ok,
        s.cur(i) == Some(STok::KeyWord(KeyWord::VariableDeclare)),
    ensures
        spec_parse_variable_declaration(s, i) matches Ok((v, _)) && spec_program_loop(s, i, ast) matches Ok(a)
            && ast.globals_variables.len() < a.globals_variables.len()
            && a.globals_variables[ast.globals_variables.len() as int] == v,
{
    let (v, j) = spec_parse_variable_declaration(s, i)->Ok_0;
    let next = SAst { globals_variables: ast.globals_variables.push(v), ..ast };
    law_program_extends(s, j, next);
    let a = spec_program_loop(s, j, next)->Ok_0;
    assert(a.globals_variables.subrange(0, next.globals_variables.len() as int)[ast.globals_variables.len() as int]
        == a.globals_variables[ast.globals_variables.len() as int]);
}

/// An external function declared at `i` (`declare`, its prototype, `;`) is
/// kept: its prototype is parsed, and in the program it stands right after
/// the external functions that came before it.
#[verifier::spinoff_prover]
#[verifier::rlimit(40)]
pub proof fn law_program_keeps_externs(s: SStream, i: nat, ast: SAst)
    requires
        spec_program_loop(s, i, ast) is Ok,
        s.cur(i) == Some(STok::KeyWord(KeyWord::Declare)),
    ensures
        spec_parse_extern_function_prototype(s, i + 1) matches Ok((p, _)) && spec_program_loop(s, i, ast) matches Ok(a)
            && ast.extern_functions.len() < a.extern_functions.len()
            && a.extern_functions[ast.extern_functions.len() as int] == p,
{
    let (p, j) = spec_parse_extern_function_prototype(s, i + 1)->Ok_0;
    let k = spec_expect(s, j, TokenType::Semicolon)->Ok_0.1;
    let next = SAst { extern_functions: ast.extern_functions.push(p), ..ast };
    law_program_extends(s, k, next);
    let a = spec_program_loop(s, k, next)->Ok_0;
    assert(a.extern_functions.subrange(0, next.extern_functions.len() as int)[ast.extern_functions.len() as int]
        == a.extern_functions[ast.extern_functions.len() as int]);
}

/// The statements gathered from index `i` on keep those gathered before,
/// in order, at the front.
pub proof fn law_block_keeps_earlier_statements(s: SStream, i: nat, start: Position, pre: Seq<SStmt>)
    requires
        spec_statements_loop(s, i, start, pre) is Ok,
    ensures
        spec_statements_loop(s, i, start, pre) matches Ok((b, _)) && prefix_of(pre, b.statements),
    decreases s.tokens.len() - i,
{
    lemma_prefix_refl(pre);
    match s.cur(i) {
        Some(STok::RightBrace) | None => {},
        Some(_) => {
            if let Ok((st, j)) = spec_parse_statement(s, i) {
                if progressed(s, i, j) {
                    lemma_prefix_push(pre, st);
                    law_block_keeps_earlier_statements(s, j, start, pre.push(st));
                    let b = spec_statements_loop(s, j, start, pre.push(st))->Ok_0.0;
                    lemma_prefix_trans(pre, pre.push(st), b.statements);
                }
            }
        },
    }
}

/// A block's statements are those written in it, in order: the first is
/// the statement right after the `{`, and each keeps the ones before it.
pub proof fn law_block_first_statement(s: SStream, i: nat)
    requires
        spec_parse_code_block(s, i) is Ok,
        s.cur(i + 1) is Some,
        s.cur(i + 1) != Some(STok::RightBrace),
    ensures
        spec_parse_statement(s, i + 1) matches Ok((st, _)) && spec_parse_code_block(s, i) matches Ok((b, _))
            && b.statements.len() > 0 && b.statements[0] == st,
{
    let (st, j) = spec_parse_statement(s, i + 1)->Ok_0;
    let first = Seq::<SStmt>::empty().push(st);
    assert(spec_parse_code_block(s, i) == spec_statements_loop(s, i + 1, s.pos(i), Seq::empty()));
    assert(spec_statements_loop(s, i + 1, s.pos(i), Seq::empty()) == spec_statements_loop(s, j, s.pos(i), first));
    law_block_keeps_earlier_statements(s, j, s.pos(i), first);
    let b = spec_statements_loop(s, j, s.pos(i), first)->Ok_0.0;
    assert(b.statements.subrange(0, 1)[0] == b.statements[0]);
}

/// The arguments gathered from index `i` on keep those gathered before, in
/// order, at the front.
pub proof fn law_call_keeps_earlier_arguments(
    s: SStream,
    i: nat,
    name: SIdent,
    start: Position,
    pre: Seq<SExpr>,
)
    requires
        spec_call_params_loop(s, i, name, start, pre) is Ok,
    ensures
        spec_call_params_loop(s, i, name, start, pre) matches Ok((SExpr::Call { params, .. }, _))
            && prefix_of(pre, params),
    decreases s.tokens.len() - i,
{
    lemma_prefix_refl(pre);
    match s.cur(i) {
        None | Some(STok::RightPar) => {},
        Some(STok::Comma) => {
            law_call_keeps_earlier_arguments(s, i + 1, name, start, pre);
        },
        Some(_) => {
            if let Ok((e, j)) = spec_parse_expression(s, i) {
                if progressed(s, i, j) {
                    lemma_prefix_push(pre, e);
                    law_call_keeps_earlier_arguments(s, j, name, start, pre.push(e));
                    if let Ok((SExpr::Call { params, .. }, _)) = spec_call_params_loop(s, j, name, start, pre.push(e)) {
                        lemma_prefix_trans(pre, pre.push(e), params);
                    }
                }
            }
        },
    }
}

/// A call's arguments are those written in it, in order: the first is the
/// expression right after the `(`, and each keeps the ones before it.
pub proof fn law_call_first_argument(s: SStream, i: nat, name: SIdent)
    requires
        spec_parse_call_expression(s, i, name) is Ok,
        s.cur(i + 1) is Some,
        s.cur(i + 1) != Some(STok::RightPar),
        s.cur(i + 1) != Some(STok::Comma),
    ensures
        spec_parse_expression(s, i + 1) matches Ok((e, _)) && spec_parse_call_expression(s, i, name)
            matches Ok((SExpr::Call { name: n, params, .. }, _)) && n == name && params.len() > 0 && params[0] == e,
{
    let (e, j) = spec_parse_expression(s, i + 1)->Ok_0;
    let first = Seq::<SExpr>::empty().push(e);
    assert(spec_parse_call_expression(s, i, name) == spec_call_params_loop(s, i + 1, name, s.pos(i), Seq::empty()));
    assert(spec_call_params_loop(s, i + 1, name, s.pos(i), Seq::empty()) == spec_call_params_loop(s, j, name, s.pos(i), first));
    law_call_keeps_earlier_arguments(s, j, name, s.pos(i), first);
    lemma_call_name(s, j, name, s.pos(i), first);
    if let Ok((SExpr::Call { params, .. }, _)) = spec_call_params_loop(s, j, name, s.pos(i), first) {
        assert(params.subrange(0, 1)[0] == params[0]);
    }
}

proof fn lemma_call_name(s: SStream, i: nat, name: SIdent, start: Position, pre: Seq<SExpr>)
    requires
        spec_call_params_loop(s, i, name, start, pre) is Ok,
    ensures
        spec_call_params_loop(s, i, name, start, pre) matches Ok((SExpr::Call { name: n, .. }, _)) && n == name,
    decreases s.tokens.len() - i,
{
    match s.cur(i) {
        None | Some(STok::RightPar) => {},
        Some(STok::Comma) => {
            lemma_call_name(s, i + 1, name, start, pre);
        },
        Some(_) => {
            if let Ok((e, j)) = spec_parse_expression(s, i) {
                if progressed(s, i, j) {
                    lemma_call_name(s, j, name, start, pre.push(e));
                }
            }
        },
    }
}

/// The parameters gathered from index `i` on keep those gathered before,
/// in order, at the front.
pub proof fn law_params_keep_earlier(s: SStream, i: nat, pre: Seq<(Seq<char>, STypeDecl)>)
    requires
        spec_params_loop(s, i, pre) is Ok,
    ensures
        spec_params_loop(s, i, pre) matches Ok((ps, _)) && prefix_of(pre, ps),
    decreases s.tokens.len() - i,
{
    lemma_prefix_refl(pre);
    match s.cur(i) {
        None | Some(STok::RightPar) => {},
        Some(STok::Comma) => {
            law_params_keep_earlier(s, i + 1, pre);
        },
        Some(_) => {
            if let Ok((a, j)) = spec_parse_annotation(s, i) {
                if progressed(s, i, j) {
                    lemma_prefix_push(pre, a);
                    law_params_keep_earlier(s, j, pre.push(a));
                    lemma_prefix_trans(pre, pre.push(a), spec_params_loop(s, j, pre.push(a))->Ok_0.0);
                }
            }
        },
    }
}

/// A function's parameters are those written after its name, in order:
/// the first is the `name : type` right after the `(`.
pub proof fn law_function_params_first(s: SStream, i: nat)
    requires
        spec_parse_function_params(s, i) is Ok,
        s.cur(i + 1) is Some,
        s.cur(i + 1) != Some(STok::RightPar),
        s.cur(i + 1) != Some(STok::Comma),
    ensures
        spec_parse_annotation(s, i + 1) matches Ok((a, _)) && spec_parse_function_params(s, i) matches Ok((ps, _))
            && ps.len() > 0 && ps[0] == a,
{
    let (a, j) = spec_parse_annotation(s, i + 1)->Ok_0;
    let first = Seq::<(Seq<char>, STypeDecl)>::empty().push(a);
    assert(spec_parse_function_params(s, i) == spec_params_loop(s, i + 1, Seq::empty()));
    assert(spec_params_loop(s, i + 1, Seq::empty()) == spec_params_loop(s, j, first));
    law_params_keep_earlier(s, j, first);
    let ps = spec_params_loop(s, j, first)->Ok_0.0;
    assert(ps.subrange(0, 1)[0] == ps[0]);
}

/// The members gathered from index `i` on keep those gathered before, in
/// order, at the front.
pub proof fn law_members_keep_earlier(s: SStream, i: nat, pre: Seq<(Seq<char>, STypeDecl)>)
    requires
        spec_structure_members_loop(s, i, pre) is Ok,
    ensures
        spec_structure_members_loop(s, i, pre) matches Ok((ms, _)) && prefix_of(pre, ms),
    decreases s.tokens.len() - i,
{
    lemma_prefix_refl(pre);
    match s.cur(i) {
        Some(STok::Comma) => {
            law_members_keep_earlier(s, i + 1, pre);
        },
        Some(STok::Identifier(_)) => {
            if let Ok((a, j)) = spec_parse_annotation(s, i) {
                if progressed(s, i, j) {
                    lemma_prefix_push(pre, a);
                    law_members_keep_earlier(s, j, pre.push(a));
                    lemma_prefix_trans(pre, pre.push(a), spec_structure_members_loop(s, j, pre.push(a))->Ok_0.0);
                }
            }
        },
        _ => {},
    }
}

/// A structure is named by the name after the keyword, and its members are
/// those written between its braces, in order: the first is the
/// `name : type` right after the `{`.
pub proof fn law_structure_in_place(s: SStream, i: nat)
    requires
        spec_parse_structure(s, i) is Ok,
    ensures
        spec_parse_structure(s, i) matches Ok((st, _)) && s.cur(i + 1) == Some(STok::Identifier(st.identifier.name))
            && s.cur(i + 2) == Some(STok::LeftBrace)
            && (s.cur(i + 3) matches Some(STok::Identifier(_)) ==> (spec_parse_annotation(s, i + 3) matches Ok((a, _))
                && st.members.len() > 0 && st.members[0] == a)),
{
    if let Some(STok::Identifier(_)) = s.cur(i + 3) {
        let (a, j) = spec_parse_annotation(s, i + 3)->Ok_0;
        let first = Seq::<(Seq<char>, STypeDecl)>::empty().push(a);
        assert(spec_structure_members_loop(s, i + 3, Seq::empty()) == spec_structure_members_loop(s, j, first));
        law_members_keep_earlier(s, j, first);
        let ms = spec_structure_members_loop(s, j, first)->Ok_0.0;
        assert(ms.subrange(0, 1)[0] == ms[0]);
    }
}

} // verus!
