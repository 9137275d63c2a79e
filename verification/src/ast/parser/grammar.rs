//! The grammar of lelang, as functions from a token stream and an index to
//! the syntax tree found there and the index after it, or to the syntax
//! error found on the way.
//!
//! Each parsing function of the library is proved to compute exactly what
//! the function of the same name here describes.
use vstd::prelude::*;

use crate::ast::nodes::{SAst, SBlock, SExpr, SFunction, SIdent, SProto, SStmt, SStructure, STypeDecl, SVariable};
use crate::error::TokenType;
use crate::lexer::{
    fail_missing, fail_unexpected, spec_expect, spec_identifier, spec_keyword, spec_next,
    spec_number, spec_operator, unexpected, KeyWord, Operator, PErr, PRes, Position, SErr,
    SNumber, SStream, STok,
};

verus! {

/// The binding strength of a binary operator: a higher number binds tighter.
pub open spec fn spec_precedence(op: Operator) -> nat {
    match op {
        Operator::Plus => 20,
        Operator::Sub => 20,
        Operator::Mul => 40,
        Operator::Mod => 40,
        Operator::Div => 40,
        Operator::Assign => 10,
        Operator::Equal => 10,
        Operator::NotEqual => 10,
        Operator::GreaterThan => 10,
        Operator::LessThan => 10,
        Operator::GreaterOrEqualThan => 10,
        Operator::LessOrEqualThan => 10,
        Operator::Dot => 60,
        Operator::And => 5,
        Operator::Or => 5,
        Operator::Xor => 5,
        Operator::Not => 5,
        Operator::Rev => 5,
    }
}

/// `j` lies past `i` and within the stream.
pub open spec fn progressed(s: SStream, i: nat, j: nat) -> bool {
    i < j <= s.tokens.len()
}

/// An error that no successful sub-parse can lead to: a sub-parse that
/// succeeds always consumes what the callers below need it to.
pub open spec fn stuck(s: SStream, i: nat) -> PErr {
    fail_missing(s, i, Seq::empty())
}

// ---------------------------------------------------------------------------
// Types.

/// `name : type`
pub open spec fn spec_parse_annotation(s: SStream, i: nat) -> PRes<(Seq<char>, STypeDecl)>
    decreases s.tokens.len() - i, 1nat,
{
    match spec_identifier(s, i) {
        Err(e) => Err(e),
        Ok((name, j)) => match spec_expect(s, j, TokenType::Colon) {
            Err(e) => Err(e),
            Ok((_, k)) => match spec_parse_type_declarator(s, k) {
                Err(e) => Err(e),
                Ok((t, l)) => Ok(((name, t), l)),
            },
        },
    }
}

/// A type: a type name, `ref` and a type, or an array type.
pub open spec fn spec_parse_type_declarator(s: SStream, i: nat) -> PRes<STypeDecl>
    decreases s.tokens.len() - i, 2nat,
{
    match s.cur(i) {
        None => Err(fail_missing(s, i, seq![TokenType::Identifier, TokenType::LeftBracket])),
        Some(STok::Identifier(name)) => Ok(
            (STypeDecl::TypeIdentifier(SIdent { name, pos: s.pos(i) }), i + 1),
        ),
        Some(STok::KeyWord(KeyWord::Ref)) => match spec_parse_type_declarator(s, i + 1) {
            Err(e) => Err(e),
            Ok((t, j)) => Ok((STypeDecl::Reference(Box::new(t)), j)),
        },
        Some(STok::LeftBracket) => spec_parse_array_declarator(s, i),
        Some(t) => Err(fail_unexpected(s, i, seq![TokenType::Identifier, TokenType::LeftBracket], t)),
    }
}

/// `[ type ; length ]`
pub open spec fn spec_parse_array_declarator(s: SStream, i: nat) -> PRes<STypeDecl>
    decreases s.tokens.len() - i, 1nat,
{
    let start = s.pos(i);
    match spec_expect(s, i, TokenType::LeftBracket) {
        Err(e) => Err(e),
        Ok((_, j)) => match spec_parse_type_declarator(s, j) {
            Err(e) => Err(e),
            Ok((element_type, k)) => match spec_expect(s, k, TokenType::Semicolon) {
                Err(e) => Err(e),
                Ok((_, l)) => match spec_number(s, l) {
                    Err(e) => Err(e),
                    Ok((SNumber::Integer(len), m)) => match spec_expect(
                        s,
                        m,
                        TokenType::RightBracket,
                    ) {
                        Err(e) => Err(e),
                        Ok((_, n)) => Ok(
                            (
                                STypeDecl::Array {
                                    element_type: Box::new(element_type),
                                    len: len as u32,
                                    pos: spec_position_sum(start, s.pos(n)),
                                },
                                n,
                            ),
                        ),
                    },
                    Ok((number, m)) => Err(
                        fail_unexpected(
                            s,
                            m,
                            seq![TokenType::NumberLiteral, TokenType::Identifier],
                            STok::NumberLiteral(number),
                        ),
                    ),
                },
            },
        },
    }
}

pub open spec fn spec_position_sum(a: Position, b: Position) -> Position {
    Position { start: a.start, end: b.end }
}

// ---------------------------------------------------------------------------
// Expressions.

/// A primary expression followed by binary operators.
pub open spec fn spec_parse_expression(s: SStream, i: nat) -> PRes<SExpr>
    decreases s.tokens.len() - i, 5nat,
{
    match spec_parse_primary_expression(s, i) {
        Err(e) => Err(e),
        Ok((primary, j)) => if j < i || j > s.tokens.len() {
            Err(stuck(s, j))
        } else {
            spec_parse_binary_ops(s, j, primary, 0)
        },
    }
}

/// The operators, each binding at least as tight as `min_prec`, that follow
/// `lhs`, folded into `lhs` from the left.
pub open spec fn spec_parse_binary_ops(s: SStream, i: nat, lhs: SExpr, min_prec: nat) -> PRes<SExpr>
    decreases s.tokens.len() - i, 4nat,
{
    spec_binary_ops_loop(s, i, lhs, min_prec, lhs.pos())
}

/// The loop of `spec_parse_binary_ops`; every node it builds starts at
/// `lhs_pos`, the span of the first left-hand side.
pub open spec fn spec_binary_ops_loop(
    s: SStream,
    i: nat,
    lhs: SExpr,
    min_prec: nat,
    lhs_pos: Position,
) -> PRes<SExpr>
    decreases s.tokens.len() - i, 3nat,
{
    match s.cur(i) {
        None => Err(fail_missing(s, i, seq![TokenType::RightPar, TokenType::Comma])),
        Some(STok::Operator(op)) => {
            let prec = spec_precedence(op);
            if prec < min_prec {
                Ok((lhs, i))
            } else {
                match spec_parse_primary_expression(s, i + 1) {
                    Err(e) => Err(e),
                    Ok((rhs, j)) => if !progressed(s, i, j) {
                        Err(stuck(s, j))
                    } else {
                        match spec_parse_binary_ops(s, j, rhs, prec + 1) {
                            Err(e) => Err(e),
                            Ok((rhs2, k)) => if !progressed(s, i, k) {
                                Err(stuck(s, k))
                            } else {
                                spec_binary_ops_loop(
                                    s,
                                    k,
                                    SExpr::Binary {
                                        op,
                                        left: Box::new(lhs),
                                        right: Box::new(rhs2),
                                        pos: spec_position_sum(lhs_pos, rhs2.pos()),
                                    },
                                    min_prec,
                                    lhs_pos,
                                )
                            },
                        }
                    },
                }
            }
        },
        Some(_) => Ok((lhs, i)),
    }
}

/// A unary operator, a number, a name (with a call or a structure
/// initializer after it), an array initializer, or a parenthesized
/// expression.
pub open spec fn spec_parse_primary_expression(s: SStream, i: nat) -> PRes<SExpr>
    decreases s.tokens.len() - i, 2nat,
{
    match s.cur(i) {
        None => Err(fail_missing(s, i, seq![TokenType::LeftPar, TokenType::LeftBrace])),
        Some(STok::Operator(_)) => spec_parse_unary_ops(s, i),
        Some(STok::NumberLiteral(_)) => spec_parse_number_expression(s, i),
        Some(STok::Identifier(_)) => spec_parse_identifier_expression(s, i),
        Some(STok::LeftBracket) => spec_parse_array_initializer(s, i),
        Some(STok::LeftPar) => spec_parse_little_par_expression(s, i),
        Some(t) => Err(
            fail_unexpected(
                s,
                i,
                seq![
                    TokenType::Operator,
                    TokenType::NumberLiteral,
                    TokenType::Identifier,
                    TokenType::LeftBracket,
                    TokenType::LeftPar,
                ],
                t,
            ),
        ),
    }
}

/// A prefix operator and a primary expression; the node is a negation
/// whichever operator is written.
pub open spec fn spec_parse_unary_ops(s: SStream, i: nat) -> PRes<SExpr>
    decreases s.tokens.len() - i, 1nat,
{
    let start = s.pos(i);
    match spec_operator(s, i) {
        Err(e) => Err(e),
        Ok((_, j)) => match spec_parse_primary_expression(s, j) {
            Err(e) => Err(e),
            Ok((e, k)) => Ok(
                (SExpr::Unary { op: Operator::Sub, expr: Box::new(e), pos: spec_position_sum(start, s.pos(k)) }, k),
            ),
        },
    }
}

pub open spec fn spec_parse_number_expression(s: SStream, i: nat) -> PRes<SExpr>
    decreases s.tokens.len() - i, 1nat,
{
    match spec_number(s, i) {
        Err(e) => Err(e),
        Ok((number, j)) => Ok((SExpr::Number { number, pos: s.pos(i) }, j)),
    }
}

/// A name, then a call, a structure initializer, or nothing more.
pub open spec fn spec_parse_identifier_expression(s: SStream, i: nat) -> PRes<SExpr>
    decreases s.tokens.len() - i, 1nat,
{
    let start = s.pos(i);
    match spec_identifier(s, i) {
        Err(e) => Err(e),
        Ok((name, j)) => {
            let ident = SIdent { name, pos: start };
            match s.cur(j) {
                None => Err(fail_missing(s, j, seq![TokenType::LeftPar, TokenType::LeftBrace])),
                Some(STok::LeftPar) => spec_parse_call_expression(s, j, ident),
                Some(STok::LeftBrace) => match spec_parse_structure_initializer(s, j) {
                    Err(e) => Err(e),
                    Ok(((members, p), k)) => Ok(
                        (SExpr::StructInit { name: ident, members, pos: spec_position_sum(start, p) }, k),
                    ),
                },
                Some(_) => Ok((SExpr::Ident { ident }, j)),
            }
        },
    }
}

/// `( expression, ... )` after the name of the called function; the first
/// token is consumed whatever it is.
pub open spec fn spec_parse_call_expression(s: SStream, i: nat, function_name: SIdent) -> PRes<
    SExpr,
>
    decreases s.tokens.len() - i, 1nat,
{
    match s.cur(i) {
        None => Err(fail_missing(s, i, seq![TokenType::RightPar, TokenType::Comma])),
        Some(_) => spec_call_params_loop(s, i + 1, function_name, s.pos(i), Seq::empty()),
    }
}

pub open spec fn spec_call_params_loop(
    s: SStream,
    i: nat,
    function_name: SIdent,
    start: Position,
    params: Seq<SExpr>,
) -> PRes<SExpr>
    decreases s.tokens.len() - i, 6nat,
{
    match s.cur(i) {
        None => Err(fail_missing(s, i, seq![TokenType::RightPar, TokenType::Comma])),
        Some(STok::RightPar) => Ok(
            (SExpr::Call { name: function_name, params, pos: spec_position_sum(start, s.pos(i + 1)) }, i + 1),
        ),
        Some(STok::Comma) => spec_call_params_loop(s, i + 1, function_name, start, params),
        Some(_) => match spec_parse_expression(s, i) {
            Err(e) => Err(e),
            Ok((e, j)) => if !progressed(s, i, j) {
                Err(stuck(s, j))
            } else {
                spec_call_params_loop(s, j, function_name, start, params.push(e))
            },
        },
    }
}

/// `( expression )`
pub open spec fn spec_parse_little_par_expression(s: SStream, i: nat) -> PRes<SExpr>
    decreases s.tokens.len() - i, 1nat,
{
    match spec_expect(s, i, TokenType::LeftPar) {
        Err(e) => Err(e),
        Ok((_, j)) => match spec_parse_expression(s, j) {
            Err(e) => Err(e),
            Ok((e, k)) => match spec_expect(s, k, TokenType::RightPar) {
                Err(err) => Err(err),
                Ok((_, l)) => Ok((e, l)),
            },
        },
    }
}

/// `[ expression, ... ]`
pub open spec fn spec_parse_array_initializer(s: SStream, i: nat) -> PRes<SExpr>
    decreases s.tokens.len() - i, 1nat,
{
    match spec_expect(s, i, TokenType::LeftBracket) {
        Err(e) => Err(e),
        Ok((_, j)) => spec_array_elements_loop(s, j, s.pos(i), Seq::empty()),
    }
}

pub open spec fn spec_array_elements_loop(
    s: SStream,
    i: nat,
    start: Position,
    elements: Seq<SExpr>,
) -> PRes<SExpr>
    decreases s.tokens.len() - i, 6nat,
{
    match s.cur(i) {
        None => Err(fail_missing(s, i, seq![TokenType::RightBracket])),
        Some(STok::RightBracket) => Ok(
            (SExpr::Array { elements, pos: spec_position_sum(start, s.pos(i + 1)) }, i + 1),
        ),
        Some(STok::Comma) => spec_array_elements_loop(s, i + 1, start, elements),
        Some(_) => match spec_parse_expression(s, i) {
            Err(e) => Err(e),
            Ok((e, j)) => if !progressed(s, i, j) {
                Err(stuck(s, j))
            } else {
                spec_array_elements_loop(s, j, start, elements.push(e))
            },
        },
    }
}

/// `name : expression`
pub open spec fn spec_parse_member_initializer(s: SStream, i: nat) -> PRes<(Seq<char>, SExpr)>
    decreases s.tokens.len() - i, 1nat,
{
    match spec_identifier(s, i) {
        Err(e) => Err(e),
        Ok((name, j)) => match spec_expect(s, j, TokenType::Colon) {
            Err(e) => Err(e),
            Ok((_, k)) => match spec_parse_expression(s, k) {
                Err(e) => Err(e),
                Ok((e, l)) => Ok(((name, e), l)),
            },
        },
    }
}

/// `{ name : expression, ... }`, with the span of the token after it.
pub open spec fn spec_parse_structure_initializer(s: SStream, i: nat) -> PRes<
    (Seq<(Seq<char>, SExpr)>, Position),
>
    decreases s.tokens.len() - i, 1nat,
{
    match spec_expect(s, i, TokenType::LeftBrace) {
        Err(e) => Err(e),
        Ok((_, j)) => spec_member_initializers_loop(s, j, Seq::empty()),
    }
}

pub open spec fn spec_member_initializers_loop(
    s: SStream,
    i: nat,
    members: Seq<(Seq<char>, SExpr)>,
) -> PRes<(Seq<(Seq<char>, SExpr)>, Position)>
    decreases s.tokens.len() - i, 6nat,
{
    match s.cur(i) {
        None => Err(
            fail_missing(s, i, seq![TokenType::RightPar, TokenType::Identifier, TokenType::Comma]),
        ),
        Some(STok::RightBrace) => Ok(((members, s.pos(i + 1)), i + 1)),
        Some(STok::Identifier(_)) => match spec_parse_member_initializer(s, i) {
            Err(e) => Err(e),
            Ok((m, j)) => if !progressed(s, i, j) {
                Err(stuck(s, j))
            } else {
                spec_member_initializers_loop(s, j, members.push(m))
            },
        },
        Some(STok::Comma) => spec_member_initializers_loop(s, i + 1, members),
        Some(t) => Err(
            fail_unexpected(s, i, seq![TokenType::RightPar, TokenType::Identifier, TokenType::Comma], t),
        ),
    }
}

// ---------------------------------------------------------------------------
// Statements.

/// `{ statement ... }`
pub open spec fn spec_parse_code_block(s: SStream, i: nat) -> PRes<SBlock>
    decreases s.tokens.len() - i, 8nat,
{
    match spec_expect(s, i, TokenType::LeftBrace) {
        Err(e) => Err(e),
        Ok((_, j)) => spec_statements_loop(s, j, s.pos(i), Seq::empty()),
    }
}

pub open spec fn spec_statements_loop(
    s: SStream,
    i: nat,
    start: Position,
    statements: Seq<SStmt>,
) -> PRes<SBlock>
    decreases s.tokens.len() - i, 8nat,
{
    match s.cur(i) {
        Some(STok::RightBrace) | None => match spec_expect(s, i, TokenType::RightBrace) {
            Err(e) => Err(e),
            Ok((_, j)) => Ok((SBlock { statements, pos: spec_position_sum(start, s.pos(j)) }, j)),
        },
        Some(_) => match spec_parse_statement(s, i) {
            Err(e) => Err(e),
            Ok((st, j)) => if !progressed(s, i, j) {
                Err(stuck(s, j))
            } else {
                spec_statements_loop(s, j, start, statements.push(st))
            },
        },
    }
}

pub open spec fn statement_kinds() -> Seq<TokenType> {
    seq![TokenType::Return, TokenType::VariableDeclare, TokenType::If, TokenType::For, TokenType::While]
}

/// A statement: `return e;`, a variable definition and `;`, an `if`, a
/// `for` or a `while`, a lone `;`, or an expression and `;`.
pub open spec fn spec_parse_statement(s: SStream, i: nat) -> PRes<SStmt>
    decreases s.tokens.len() - i, 7nat,
{
    match s.cur(i) {
        None => Err(fail_missing(s, i, statement_kinds())),
        Some(STok::KeyWord(KeyWord::Return)) => match spec_parse_expression(s, i + 1) {
            Err(e) => Err(e),
            Ok((e, j)) => match spec_expect(s, j, TokenType::Semicolon) {
                Err(err) => Err(err),
                Ok((_, k)) => Ok((SStmt::Return(e), k)),
            },
        },
        Some(STok::KeyWord(KeyWord::VariableDeclare)) => match spec_parse_variable_declaration(
            s,
            i,
        ) {
            Err(e) => Err(e),
            Ok((v, j)) => match spec_expect(s, j, TokenType::Semicolon) {
                Err(err) => Err(err),
                Ok((_, k)) => Ok((SStmt::VariableDefinition(v), k)),
            },
        },
        Some(STok::KeyWord(KeyWord::If)) => spec_parse_if_statement(s, i),
        Some(STok::KeyWord(KeyWord::For)) => spec_parse_for_loop(s, i),
        Some(STok::KeyWord(KeyWord::While)) => spec_parse_while_loop(s, i),
        Some(STok::KeyWord(k)) => Err(fail_unexpected(s, i, statement_kinds(), STok::KeyWord(k))),
        Some(STok::Semicolon) => Ok((SStmt::Void(s.pos(i + 1)), i + 1)),
        Some(_) => match spec_parse_expression(s, i) {
            Err(e) => Err(e),
            Ok((e, j)) => match spec_expect(s, j, TokenType::Semicolon) {
                Err(err) => Err(err),
                Ok((_, k)) => Ok((SStmt::Expressions(e), k)),
            },
        },
    }
}

/// `if ( expression ) block`, then `else block` where `else` follows; the
/// first token is consumed whatever it is.
pub open spec fn spec_parse_if_statement(s: SStream, i: nat) -> PRes<SStmt>
    decreases s.tokens.len() - i, 6nat,
{
    let start = s.pos(i);
    match spec_parse_little_par_expression(s, s.adv(i)) {
        Err(e) => Err(e),
        Ok((cond, j)) => if !progressed(s, i, j) {
            Err(stuck(s, j))
        } else {
            match spec_parse_code_block(s, j) {
                Err(e) => Err(e),
                Ok((then_block, k)) => if !progressed(s, i, k) {
                    Err(stuck(s, k))
                } else {
                    match s.cur(k) {
                        Some(STok::KeyWord(KeyWord::Else)) => match spec_parse_code_block(
                            s,
                            k + 1,
                        ) {
                            Err(e) => Err(e),
                            Ok((else_block, l)) => Ok(
                                (
                                    SStmt::If {
                                        cond,
                                        then_block,
                                        else_block: Some(else_block),
                                        pos: spec_position_sum(start, s.pos(l)),
                                    },
                                    l,
                                ),
                            ),
                        },
                        _ => Ok(
                            (
                                SStmt::If {
                                    cond,
                                    then_block,
                                    else_block: None,
                                    pos: spec_position_sum(start, s.pos(k)),
                                },
                                k,
                            ),
                        ),
                    }
                },
            }
        },
    }
}

/// The same as `if`, where the first token must be there, the token after
/// the block must be there too, and the span is that of the token after the
/// statement.
pub open spec fn spec_parse_if_condition(s: SStream, i: nat) -> PRes<SStmt>
    decreases s.tokens.len() - i, 6nat,
{
    match spec_next(s, i) {
        Err(e) => Err(e),
        Ok((_, j)) => match spec_parse_little_par_expression(s, j) {
            Err(e) => Err(e),
            Ok((cond, k)) => if !progressed(s, i, k) {
                Err(stuck(s, k))
            } else {
                match spec_parse_code_block(s, k) {
                    Err(e) => Err(e),
                    Ok((then_block, l)) => if !progressed(s, i, l) {
                        Err(stuck(s, l))
                    } else {
                        match s.cur(l) {
                            None => Err(fail_missing(s, l, Seq::empty())),
                            Some(STok::KeyWord(KeyWord::Else)) => match spec_parse_code_block(
                                s,
                                l + 1,
                            ) {
                                Err(e) => Err(e),
                                Ok((else_block, m)) => Ok(
                                    (
                                        SStmt::If {
                                            cond,
                                            then_block,
                                            else_block: Some(else_block),
                                            pos: s.pos(m),
                                        },
                                        m,
                                    ),
                                ),
                            },
                            Some(_) => Ok(
                                (
                                    SStmt::If {
                                        cond,
                                        then_block,
                                        else_block: None,
                                        pos: s.pos(l),
                                    },
                                    l,
                                ),
                            ),
                        }
                    },
                }
            },
        },
    }
}

/// `for ( statement statement statement ) block`
pub open spec fn spec_parse_for_loop(s: SStream, i: nat) -> PRes<SStmt>
    decreases s.tokens.len() - i, 6nat,
{
    match spec_keyword(s, i) {
        Err(e) => Err(e),
        Ok((_, j)) => match spec_expect(s, j, TokenType::LeftPar) {
            Err(e) => Err(e),
            Ok((_, k)) => match spec_parse_statement(s, k) {
                Err(e) => Err(e),
                Ok((init, l)) => if !progressed(s, i, l) {
                    Err(stuck(s, l))
                } else {
                    match spec_parse_statement(s, l) {
                        Err(e) => Err(e),
                        Ok((cond, m)) => if !progressed(s, i, m) {
                            Err(stuck(s, m))
                        } else {
                            match spec_parse_statement(s, m) {
                                Err(e) => Err(e),
                                Ok((iterate, n)) => if !progressed(s, i, n) {
                                    Err(stuck(s, n))
                                } else {
                                    match spec_expect(s, n, TokenType::RightPar) {
                                        Err(e) => Err(e),
                                        Ok((_, o)) => match spec_parse_code_block(s, o) {
                                            Err(e) => Err(e),
                                            Ok((code_block, p)) => Ok(
                                                (
                                                    SStmt::ForLoop {
                                                        init: Box::new(init),
                                                        cond: Box::new(cond),
                                                        iterate: Box::new(iterate),
                                                        code_block,
                                                        pos: s.pos(p),
                                                    },
                                                    p,
                                                ),
                                            ),
                                        },
                                    }
                                },
                            }
                        },
                    }
                },
            },
        },
    }
}

/// `while ( expression ) block`
pub open spec fn spec_parse_while_loop(s: SStream, i: nat) -> PRes<SStmt>
    decreases s.tokens.len() - i, 6nat,
{
    let start = s.pos(i);
    match spec_keyword(s, i) {
        Err(e) => Err(e),
        Ok((_, j)) => match spec_expect(s, j, TokenType::LeftPar) {
            Err(e) => Err(e),
            Ok((_, k)) => match spec_parse_expression(s, k) {
                Err(e) => Err(e),
                Ok((cond, l)) => if !progressed(s, i, l) {
                    Err(stuck(s, l))
                } else {
                    match spec_expect(s, l, TokenType::RightPar) {
                        Err(e) => Err(e),
                        Ok((_, m)) => match spec_parse_code_block(s, m) {
                            Err(e) => Err(e),
                            Ok((code_block, n)) => Ok(
                                (SStmt::WhileLoop { cond, code_block, pos: spec_position_sum(start, s.pos(n)) }, n),
                            ),
                        },
                    }
                },
            },
        },
    }
}

/// `let name = expression` or `let name : type = expression`
pub open spec fn spec_parse_variable_declaration(s: SStream, i: nat) -> PRes<SVariable>
    decreases s.tokens.len() - i, 6nat,
{
    let start = s.pos(i);
    match spec_keyword(s, i) {
        Err(e) => Err(e),
        Ok((_, j)) => {
            let proto_start = s.pos(j);
            match spec_identifier(s, j) {
                Err(e) => Err(e),
                Ok((name, k)) => {
                    let identifier = SIdent { name, pos: proto_start };
                    let typed: PRes<Option<STypeDecl>> = match s.cur(k) {
                        None => Err(fail_missing(s, k, seq![TokenType::Colon])),
                        Some(STok::Colon) => match spec_parse_type_declarator(s, k + 1) {
                            Err(e) => Err(e),
                            Ok((t, l)) => Ok((Some(t), l)),
                        },
                        Some(_) => Ok((None, k)),
                    };
                    match typed {
                        Err(e) => Err(e),
                        Ok((type_declarator, l)) => if l < i || l > s.tokens.len() {
                            Err(stuck(s, l))
                        } else { match spec_operator(s, l) {
                            Err(e) => Err(e),
                            Ok((op, m)) => if op == Operator::Assign {
                                match spec_parse_expression(s, m) {
                                    Err(e) => Err(e),
                                    Ok((value, n)) => Ok(
                                        (
                                            SVariable {
                                                type_declarator,
                                                identifier,
                                                prototype_pos: spec_position_sum(proto_start, s.pos(l)),
                                                value,
                                                pos: spec_position_sum(start, s.pos(n)),
                                            },
                                            n,
                                        ),
                                    ),
                                }
                            } else {
                                Err(
                                    fail_unexpected(
                                        s,
                                        m,
                                        seq![TokenType::Operator],
                                        STok::Operator(op),
                                    ),
                                )
                            },
                        } },
                    }
                },
            }
        },
    }
}

// ---------------------------------------------------------------------------
// Functions, structures, programs.

/// `( name : type, ... )`
pub open spec fn spec_parse_function_params(s: SStream, i: nat) -> PRes<
    Seq<(Seq<char>, STypeDecl)>,
>
    decreases s.tokens.len() - i, 1nat,
{
    match spec_expect(s, i, TokenType::LeftPar) {
        Err(e) => Err(e),
        Ok((_, j)) => spec_params_loop(s, j, Seq::empty()),
    }
}

pub open spec fn spec_params_loop(s: SStream, i: nat, params: Seq<(Seq<char>, STypeDecl)>) -> PRes<
    Seq<(Seq<char>, STypeDecl)>,
>
    decreases s.tokens.len() - i, 3nat,
{
    match s.cur(i) {
        None => Err(fail_missing(s, i, seq![TokenType::RightPar, TokenType::Comma])),
        Some(STok::RightPar) => Ok((params, i + 1)),
        Some(STok::Comma) => spec_params_loop(s, i + 1, params),
        Some(_) => match spec_parse_annotation(s, i) {
            Err(e) => Err(e),
            Ok((a, j)) => if !progressed(s, i, j) {
                Err(stuck(s, j))
            } else {
                spec_params_loop(s, j, params.push(a))
            },
        },
    }
}

/// `( type, ... )`
pub open spec fn spec_parse_type_list(s: SStream, i: nat) -> PRes<Seq<STypeDecl>>
    decreases s.tokens.len() - i, 1nat,
{
    match spec_expect(s, i, TokenType::LeftPar) {
        Err(e) => Err(e),
        Ok((_, j)) => spec_type_list_loop(s, j, Seq::empty()),
    }
}

pub open spec fn spec_type_list_loop(s: SStream, i: nat, types: Seq<STypeDecl>) -> PRes<
    Seq<STypeDecl>,
>
    decreases s.tokens.len() - i, 3nat,
{
    match s.cur(i) {
        None => Err(fail_missing(s, i, seq![TokenType::RightPar, TokenType::Comma])),
        Some(STok::RightPar) => Ok((types, i + 1)),
        Some(STok::Comma) => spec_type_list_loop(s, i + 1, types),
        Some(_) => match spec_parse_type_declarator(s, i) {
            Err(e) => Err(e),
            Ok((t, j)) => if !progressed(s, i, j) {
                Err(stuck(s, j))
            } else {
                spec_type_list_loop(s, j, types.push(t))
            },
        },
    }
}

/// `-> type`, or nothing where no arrow follows.
pub open spec fn spec_parse_function_return_type(s: SStream, i: nat) -> PRes<Option<STypeDecl>>
    decreases s.tokens.len() - i, 1nat,
{
    match s.cur(i) {
        None => Err(fail_missing(s, i, seq![TokenType::RightPar, TokenType::Comma])),
        Some(STok::SingleArrow) => match spec_parse_type_declarator(s, i + 1) {
            Err(e) => Err(e),
            Ok((t, j)) => Ok((Some(t), j)),
        },
        Some(_) => Ok((None, i)),
    }
}

/// `fn name ( type, ... ) -> type`, the keyword being any keyword.
pub open spec fn spec_parse_extern_function_prototype(s: SStream, i: nat) -> PRes<SProto>
    decreases s.tokens.len() - i, 1nat,
{
    let start = s.pos(i);
    match spec_keyword(s, i) {
        Err(e) => Err(e),
        Ok((_, j)) => match spec_identifier(s, j) {
            Err(e) => Err(e),
            Ok((name, k)) => match spec_parse_type_list(s, k) {
                Err(e) => Err(e),
                Ok((param_types, l)) => if !progressed(s, i, l) {
                    Err(stuck(s, l))
                } else {
                    match spec_parse_function_return_type(s, l) {
                        Err(e) => Err(e),
                        Ok((return_type, m)) => Ok(
                            (
                                SProto {
                                    identifier: SIdent { name, pos: s.pos(j) },
                                    param_types,
                                    return_type,
                                    pos: spec_position_sum(start, s.pos(m)),
                                },
                                m,
                            ),
                        ),
                    }
                },
            },
        },
    }
}

/// `fn name ( name : type, ... ) -> type block`
pub open spec fn spec_parse_function(s: SStream, i: nat) -> PRes<SFunction>
    decreases s.tokens.len() - i, 8nat,
{
    let start = s.pos(i);
    match spec_keyword(s, i) {
        Err(e) => Err(e),
        Ok((_, j)) => match spec_identifier(s, j) {
            Err(e) => Err(e),
            Ok((name, k)) => match spec_parse_function_params(s, k) {
                Err(e) => Err(e),
                Ok((params, l)) => if !progressed(s, i, l) {
                    Err(stuck(s, l))
                } else { match spec_parse_function_return_type(s, l) {
                    Err(e) => Err(e),
                    Ok((return_type, m)) => if !progressed(s, i, m) {
                        Err(stuck(s, m))
                    } else { match spec_parse_code_block(s, m) {
                        Err(e) => Err(e),
                        Ok((code_block, n)) => Ok(
                            (
                                SFunction {
                                    prototype: SProto {
                                        identifier: SIdent { name, pos: s.pos(j) },
                                        param_types: params.map_values(
                                            |a: (Seq<char>, STypeDecl)| a.1,
                                        ),
                                        return_type,
                                        pos: spec_position_sum(start, s.pos(m)),
                                    },
                                    param_names: params.map_values(
                                        |a: (Seq<char>, STypeDecl)| a.0,
                                    ),
                                    code_block,
                                    pos: spec_position_sum(start, s.pos(n)),
                                },
                                n,
                            ),
                        ),
                    } },
                } },
            },
        },
    }
}

/// `struct name { name : type, ... }`
pub open spec fn spec_parse_structure(s: SStream, i: nat) -> PRes<SStructure>
    decreases s.tokens.len() - i, 8nat,
{
    let start = s.pos(i);
    match spec_keyword(s, i) {
        Err(e) => Err(e),
        Ok((_, j)) => match spec_identifier(s, j) {
            Err(e) => Err(e),
            Ok((name, k)) => match spec_expect(s, k, TokenType::LeftBrace) {
                Err(e) => Err(e),
                Ok((_, l)) => match spec_structure_members_loop(s, l, Seq::empty()) {
                    Err(e) => Err(e),
                    Ok((members, m)) => Ok(
                        (
                            SStructure {
                                identifier: SIdent { name, pos: s.pos(j) },
                                members,
                                pos: spec_position_sum(start, s.pos(m)),
                            },
                            m,
                        ),
                    ),
                },
            },
        },
    }
}

pub open spec fn spec_structure_members_loop(
    s: SStream,
    i: nat,
    members: Seq<(Seq<char>, STypeDecl)>,
) -> PRes<Seq<(Seq<char>, STypeDecl)>>
    decreases s.tokens.len() - i, 3nat,
{
    match s.cur(i) {
        None => Err(
            fail_missing(s, i, seq![TokenType::RightPar, TokenType::Identifier, TokenType::Comma]),
        ),
        Some(STok::RightBrace) => Ok((members, i + 1)),
        Some(STok::Identifier(_)) => match spec_parse_annotation(s, i) {
            Err(e) => Err(e),
            Ok((a, j)) => if !progressed(s, i, j) {
                Err(stuck(s, j))
            } else {
                spec_structure_members_loop(s, j, members.push(a))
            },
        },
        Some(STok::Comma) => spec_structure_members_loop(s, i + 1, members),
        Some(t) => Err(
            fail_unexpected(s, i, seq![TokenType::RightPar, TokenType::Identifier, TokenType::Comma], t),
        ),
    }
}

pub open spec fn top_level_kinds() -> Seq<TokenType> {
    seq![TokenType::FunctionDefine, TokenType::FunctionDeclare]
}

/// The items of a program from index `i` on, added to `ast`; on an error,
/// the error and the items added before the one that failed.
pub open spec fn spec_program_loop(s: SStream, i: nat, ast: SAst) -> Result<SAst, (SErr, SAst)>
    decreases s.tokens.len() - i, 9nat,
{
    match s.cur(i) {
        None => Ok(ast),
        Some(STok::KeyWord(KeyWord::Declare)) => match spec_parse_extern_function_prototype(
            s,
            i + 1,
        ) {
            Err(e) => Err((e.0, ast)),
            Ok((p, j)) => match spec_expect(s, j, TokenType::Semicolon) {
                Err(e) => Err((e.0, ast)),
                Ok((_, k)) => if !progressed(s, i, k) {
                    Err((stuck(s, k).0, ast))
                } else {
                    spec_program_loop(
                        s,
                        k,
                        SAst { extern_functions: ast.extern_functions.push(p), ..ast },
                    )
                },
            },
        },
        Some(STok::KeyWord(KeyWord::FunctionDefine)) => match spec_parse_function(s, i) {
            Err(e) => Err((e.0, ast)),
            Ok((f, j)) => if !progressed(s, i, j) {
                Err((stuck(s, j).0, ast))
            } else {
                spec_program_loop(
                    s,
                    j,
                    SAst { function_definitions: ast.function_definitions.push(f), ..ast },
                )
            },
        },
        Some(STok::KeyWord(KeyWord::VariableDeclare)) => match spec_parse_variable_declaration(
            s,
            i,
        ) {
            Err(e) => Err((e.0, ast)),
            Ok((v, j)) => if !progressed(s, i, j) {
                Err((stuck(s, j).0, ast))
            } else {
                spec_program_loop(
                    s,
                    j,
                    SAst { globals_variables: ast.globals_variables.push(v), ..ast },
                )
            },
        },
        Some(STok::KeyWord(KeyWord::StructureDeclare)) => match spec_parse_structure(s, i) {
            Err(e) => Err((e.0, ast)),
            Ok((st, j)) => if !progressed(s, i, j) {
                Err((stuck(s, j).0, ast))
            } else {
                spec_program_loop(
                    s,
                    j,
                    SAst { globals_structures: ast.globals_structures.push(st), ..ast },
                )
            },
        },
        Some(t) => Err((unexpected(s, i, top_level_kinds(), t), ast)),
    }
}

pub open spec fn empty_ast() -> SAst {
    SAst {
        globals_variables: Seq::empty(),
        globals_structures: Seq::empty(),
        function_definitions: Seq::empty(),
        extern_functions: Seq::empty(),
    }
}

/// The program that the whole token stream spells.
pub open spec fn spec_parse_program(s: SStream) -> Result<SAst, (SErr, SAst)> {
    spec_program_loop(s, 0, empty_ast())
}

} // verus!
