//! Errors of the compiler: syntax errors of the parser and compile errors of
//! the code generator.
use vstd::prelude::*;

use crate::lexer::{LEToken, Operator, Position, STok};

verus! {

/// A kind of token, as named in error messages.
#[derive(Clone, Copy, Debug, PartialEq, Eq, Structural)]
pub enum TokenType {
    FunctionDeclare,
    FunctionDefine,
    VariableDeclare,
    Return,
    If,
    For,
    While,
    KeyWord,
    Operator,
    NumberLiteral,
    Identifier,
    LeftPar,
    RightPar,
    LeftBrace,
    RightBrace,
    LeftBracket,
    RightBracket,
    Comma,
    Colon,
    Semicolon,
    SingleArrow,
}

#[derive(Debug)]
pub enum SyntaxError {
    /// The input ended where a token of one of `expected` was needed.
    MissingToken { expected: Vec<TokenType> },
    /// `found` stood where a token of one of `expected` was needed.
    UnexpectToken { expected: Vec<TokenType>, found: LEToken },
}

pub enum SSyntaxError {
    MissingToken(Seq<TokenType>),
    UnexpectToken(Seq<TokenType>, STok),
}

impl View for SyntaxError {
    type V = SSyntaxError;

    open spec fn view(&self) -> SSyntaxError {
        match self {
            SyntaxError::MissingToken { expected } => SSyntaxError::MissingToken(expected@),
            SyntaxError::UnexpectToken { expected, found } => SSyntaxError::UnexpectToken(
                expected@,
                found@,
            ),
        }
    }
}

impl SyntaxError {
    pub fn missing_token(expected: Vec<TokenType>) -> (r: SyntaxError)
        ensures
            r@ == SSyntaxError::MissingToken(expected@),
    {
        SyntaxError::MissingToken { expected }
    }

    pub fn unexpect_token(expected: Vec<TokenType>, found: LEToken) -> (r: SyntaxError)
        ensures
            r@ == SSyntaxError::UnexpectToken(expected@, found@),
    {
        SyntaxError::UnexpectToken { expected, found }
    }

    pub fn to_leerror(self, pos: Position) -> (r: LEError)
        ensures
            r.syntax_view() == Some((self@, pos)),
    {
        LEError::SyntaxError { error: self, pos }
    }
}

/// An error found while turning the syntax tree into code.
#[derive(Debug)]
pub enum CompileError {
    UnknownIdentifier { identifier: String },
    IdentifierIsNotType { identifier: String },
    IdentifierIsNotVariable { identifier: String },
    IdentifierIsNotFunction { identifier: String },
    IdentifierAlreadyDefined { identifier: String, defined_position: Position },
    IdentifierAlreadyDefinedAs { identifier: String, kind: String },
    CanNotRedefineBuiltinTypes { identifier: String },
    TypeMismatched { expect: String, found: String },
    NotAllowZeroLengthArray,
    NoSuitableBinaryOperator { op: Operator, left_type: String, right_type: String },
    UnknownMember { member: String },
    ExpressionIsNotLeftValueExpression,
    ExpressionIsNotRightValueExpression,
    CanOnlyAssignVariable { target: String },
}

/// The model of a compile error, its texts as sequences of characters.
pub enum SCompileError {
    UnknownIdentifier(Seq<char>),
    IdentifierIsNotType(Seq<char>),
    IdentifierIsNotVariable(Seq<char>),
    IdentifierIsNotFunction(Seq<char>),
    IdentifierAlreadyDefined(Seq<char>, Position),
    IdentifierAlreadyDefinedAs(Seq<char>, Seq<char>),
    CanNotRedefineBuiltinTypes(Seq<char>),
    TypeMismatched(Seq<char>, Seq<char>),
    NotAllowZeroLengthArray,
    NoSuitableBinaryOperator(Operator, Seq<char>, Seq<char>),
    UnknownMember(Seq<char>),
    ExpressionIsNotLeftValueExpression,
    ExpressionIsNotRightValueExpression,
    CanOnlyAssignVariable(Seq<char>),
}

impl View for CompileError {
    type V = SCompileError;

    open spec fn view(&self) -> SCompileError {
        match self {
            CompileError::UnknownIdentifier { identifier } => SCompileError::UnknownIdentifier(
                identifier@,
            ),
            CompileError::IdentifierIsNotType { identifier } => SCompileError::IdentifierIsNotType(
                identifier@,
            ),
            CompileError::IdentifierIsNotVariable { identifier } =>
                SCompileError::IdentifierIsNotVariable(identifier@),
            CompileError::IdentifierIsNotFunction { identifier } =>
                SCompileError::IdentifierIsNotFunction(identifier@),
            CompileError::IdentifierAlreadyDefined { identifier, defined_position } =>
                SCompileError::IdentifierAlreadyDefined(identifier@, *defined_position),
            CompileError::IdentifierAlreadyDefinedAs { identifier, kind } =>
                SCompileError::IdentifierAlreadyDefinedAs(identifier@, kind@),
            CompileError::CanNotRedefineBuiltinTypes { identifier } =>
                SCompileError::CanNotRedefineBuiltinTypes(identifier@),
            CompileError::TypeMismatched { expect, found } => SCompileError::TypeMismatched(
                expect@,
                found@,
            ),
            CompileError::NotAllowZeroLengthArray => SCompileError::NotAllowZeroLengthArray,
            CompileError::NoSuitableBinaryOperator { op, left_type, right_type } =>
                SCompileError::NoSuitableBinaryOperator(*op, left_type@, right_type@),
            CompileError::UnknownMember { member } => SCompileError::UnknownMember(member@),
            CompileError::ExpressionIsNotLeftValueExpression =>
                SCompileError::ExpressionIsNotLeftValueExpression,
            CompileError::ExpressionIsNotRightValueExpression =>
                SCompileError::ExpressionIsNotRightValueExpression,
            CompileError::CanOnlyAssignVariable { target } => SCompileError::CanOnlyAssignVariable(
                target@,
            ),
        }
    }
}

#[derive(Debug)]
pub enum LEError {
    SyntaxError { error: SyntaxError, pos: Position },
    CompileError { error: CompileError, pos: Position },
}

impl LEError {
    /// The syntax error and its span, where this is a syntax error.
    pub open spec fn syntax_view(&self) -> Option<(SSyntaxError, Position)> {
        match self {
            LEError::SyntaxError { error, pos } => Some((error@, *pos)),
            LEError::CompileError { .. } => None,
        }
    }

    pub fn new_syntax_error(error: SyntaxError, pos: Position) -> (r: LEError)
        ensures
            r.syntax_view() == Some((error@, pos)),
    {
        LEError::SyntaxError { error, pos }
    }

    pub fn new_compile_error(error: CompileError, pos: Position) -> (r: LEError)
        ensures
            r == (LEError::CompileError { error, pos }),
    {
        LEError::CompileError { error, pos }
    }
}

} // verus!
