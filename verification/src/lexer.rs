//! Tokens of the lelang language and the token cursor that the parser reads.
//!
//! The cursor holds an already tokenized program: one `LEToken` per token,
//! the source span of each token, and the span that stands for the end of
//! the input.
use vstd::prelude::*;

use crate::error::{LEError, SyntaxError, TokenType};

verus! {

/// A span of the source text, from `start` to `end`.
#[derive(Clone, Copy, Debug, PartialEq, Eq, Structural)]
pub struct Position {
    pub start: usize,
    pub end: usize,
}

impl Position {
    /// The span that begins where `self` begins and ends where `other` ends.
    pub fn sum(&self, other: &Position) -> (r: Position)
        ensures
            r == (Position { start: self.start, end: other.end }),
    {
        Position { start: self.start, end: other.end }
    }
}

#[derive(Clone, Copy, Debug, PartialEq, Eq, Structural)]
pub enum KeyWord {
    FunctionDefine,
    FunctionDeclare,
    VariableDeclare,
    StructureDeclare,
    Declare,
    Return,
    If,
    Else,
    For,
    While,
    Ref,
}

#[derive(Clone, Copy, Debug, PartialEq, Eq, Structural)]
pub enum Operator {
    Plus,
    Sub,
    Mul,
    Div,
    Mod,
    Assign,
    Equal,
    NotEqual,
    GreaterThan,
    LessThan,
    GreaterOrEqualThan,
    LessOrEqualThan,
    Dot,
    And,
    Or,
    Xor,
    Not,
    Rev,
}

/// The text by which an operator is written.
pub open spec fn spec_operator_symbol(op: Operator) -> Seq<char> {
    match op {
        Operator::Plus => seq!['+'],
        Operator::Sub => seq!['-'],
        Operator::Mul => seq!['*'],
        Operator::Div => seq!['/'],
        Operator::Mod => seq!['%'],
        Operator::Assign => seq!['='],
        Operator::Equal => seq!['=', '='],
        Operator::NotEqual => seq!['!', '='],
        Operator::GreaterThan => seq!['>'],
        Operator::LessThan => seq!['<'],
        Operator::GreaterOrEqualThan => seq!['>', '='],
        Operator::LessOrEqualThan => seq!['<', '='],
        Operator::Dot => seq!['.'],
        Operator::And => seq!['&'],
        Operator::Or => seq!['|'],
        Operator::Xor => seq!['^'],
        Operator::Not => seq!['!'],
        Operator::Rev => seq!['~'],
    }
}

impl Operator {
    /// The text by which the operator is written.
    pub fn symbol(&self) -> (r: String)
        ensures
            r@ == spec_operator_symbol(*self),
    {
        let s: &str = match self {
            Operator::Plus => "+",
            Operator::Sub => "-",
            Operator::Mul => "*",
            Operator::Div => "/",
            Operator::Mod => "%",
            Operator::Assign => "=",
            Operator::Equal => "==",
            Operator::NotEqual => "!=",
            Operator::GreaterThan => ">",
            Operator::LessThan => "<",
            Operator::GreaterOrEqualThan => ">=",
            Operator::LessOrEqualThan => "<=",
            Operator::Dot => ".",
            Operator::And => "&",
            Operator::Or => "|",
            Operator::Xor => "^",
            Operator::Not => "!",
            Operator::Rev => "~",
        };
        proof {
            reveal_strlit("+");
            reveal_strlit("-");
            reveal_strlit("*");
            reveal_strlit("/");
            reveal_strlit("%");
            reveal_strlit("=");
            reveal_strlit("==");
            reveal_strlit("!=");
            reveal_strlit(">");
            reveal_strlit("<");
            reveal_strlit(">=");
            reveal_strlit("<=");
            reveal_strlit(".");
            reveal_strlit("&");
            reveal_strlit("|");
            reveal_strlit("^");
            reveal_strlit("!");
            reveal_strlit("~");
        }
        String::from_str(s)
    }
}

/// A number literal. A floating point literal is kept as the text it was
/// written with.
#[derive(Debug, Clone)]
pub enum Number {
    Integer(u64),
    Float(String),
}

pub enum SNumber {
    Integer(u64),
    Float(Seq<char>),
}

impl View for Number {
    type V = SNumber;

    open spec fn view(&self) -> SNumber {
        match self {
            Number::Integer(v) => SNumber::Integer(*v),
            Number::Float(t) => SNumber::Float(t@),
        }
    }
}

impl Number {
    pub fn copy(&self) -> (r: Number)
        ensures
            r@ == self@,
    {
        match self {
            Number::Integer(v) => Number::Integer(*v),
            Number::Float(t) => Number::Float(t.clone()),
        }
    }
}

#[derive(Debug, Clone)]
pub enum LEToken {
    KeyWord(KeyWord),
    Operator(Operator),
    NumberLiteral(Number),
    Identifier(String),
    StringLiteral(String),
    LeftPar,
    RightPar,
    LeftBrace,
    RightBrace,
    LeftBracket,
    RightBracket,
    Comma,
    Semicolon,
    Colon,
    SingleArrow,
}

/// The mathematical value of a token.
pub enum STok {
    KeyWord(KeyWord),
    Operator(Operator),
    NumberLiteral(SNumber),
    Identifier(Seq<char>),
    StringLiteral(Seq<char>),
    LeftPar,
    RightPar,
    LeftBrace,
    RightBrace,
    LeftBracket,
    RightBracket,
    Comma,
    Semicolon,
    Colon,
    SingleArrow,
}

impl View for LEToken {
    type V = STok;

    open spec fn view(&self) -> STok {
        match self {
            LEToken::KeyWord(k) => STok::KeyWord(*k),
            LEToken::Operator(o) => STok::Operator(*o),
            LEToken::NumberLiteral(n) => STok::NumberLiteral(n@),
            LEToken::Identifier(s) => STok::Identifier(s@),
            LEToken::StringLiteral(s) => STok::StringLiteral(s@),
            LEToken::LeftPar => STok::LeftPar,
            LEToken::RightPar => STok::RightPar,
            LEToken::LeftBrace => STok::LeftBrace,
            LEToken::RightBrace => STok::RightBrace,
            LEToken::LeftBracket => STok::LeftBracket,
            LEToken::RightBracket => STok::RightBracket,
            LEToken::Comma => STok::Comma,
            LEToken::Semicolon => STok::Semicolon,
            LEToken::Colon => STok::Colon,
            LEToken::SingleArrow => STok::SingleArrow,
        }
    }
}

/// Whether a token is of the kind that `kind` names.
pub open spec fn spec_token_is(t: STok, kind: TokenType) -> bool {
    match kind {
        TokenType::FunctionDeclare => t == STok::KeyWord(KeyWord::FunctionDeclare),
        TokenType::FunctionDefine => t == STok::KeyWord(KeyWord::FunctionDefine),
        TokenType::VariableDeclare => t == STok::KeyWord(KeyWord::VariableDeclare),
        TokenType::Return => t == STok::KeyWord(KeyWord::Return),
        TokenType::If => t == STok::KeyWord(KeyWord::If),
        TokenType::For => t == STok::KeyWord(KeyWord::For),
        TokenType::While => t == STok::KeyWord(KeyWord::While),
        TokenType::KeyWord => t is KeyWord,
        TokenType::Operator => t is Operator,
        TokenType::NumberLiteral => t is NumberLiteral,
        TokenType::Identifier => t is Identifier,
        TokenType::LeftPar => t is LeftPar,
        TokenType::RightPar => t is RightPar,
        TokenType::LeftBrace => t is LeftBrace,
        TokenType::RightBrace => t is RightBrace,
        TokenType::LeftBracket => t is LeftBracket,
        TokenType::RightBracket => t is RightBracket,
        TokenType::Comma => t is Comma,
        TokenType::Colon => t is Colon,
        TokenType::Semicolon => t is Semicolon,
        TokenType::SingleArrow => t is SingleArrow,
    }
}

impl LEToken {
    pub fn copy(&self) -> (r: LEToken)
        ensures
            r@ == self@,
    {
        match self {
            LEToken::KeyWord(k) => LEToken::KeyWord(*k),
            LEToken::Operator(o) => LEToken::Operator(*o),
            LEToken::NumberLiteral(n) => LEToken::NumberLiteral(n.copy()),
            LEToken::Identifier(s) => LEToken::Identifier(s.clone()),
            LEToken::StringLiteral(s) => LEToken::StringLiteral(s.clone()),
            LEToken::LeftPar => LEToken::LeftPar,
            LEToken::RightPar => LEToken::RightPar,
            LEToken::LeftBrace => LEToken::LeftBrace,
            LEToken::RightBrace => LEToken::RightBrace,
            LEToken::LeftBracket => LEToken::LeftBracket,
            LEToken::RightBracket => LEToken::RightBracket,
            LEToken::Comma => LEToken::Comma,
            LEToken::Semicolon => LEToken::Semicolon,
            LEToken::Colon => LEToken::Colon,
            LEToken::SingleArrow => LEToken::SingleArrow,
        }
    }

    /// Whether the token is of the kind that `kind` names.
    pub fn is(&self, kind: TokenType) -> (r: bool)
        ensures
            r == spec_token_is(self@, kind),
    {
        match kind {
            TokenType::FunctionDeclare => matches!(self, LEToken::KeyWord(KeyWord::FunctionDeclare)),
            TokenType::FunctionDefine => matches!(self, LEToken::KeyWord(KeyWord::FunctionDefine)),
            TokenType::VariableDeclare => matches!(self, LEToken::KeyWord(KeyWord::VariableDeclare)),
            TokenType::Return => matches!(self, LEToken::KeyWord(KeyWord::Return)),
            TokenType::If => matches!(self, LEToken::KeyWord(KeyWord::If)),
            TokenType::For => matches!(self, LEToken::KeyWord(KeyWord::For)),
            TokenType::While => matches!(self, LEToken::KeyWord(KeyWord::While)),
            TokenType::KeyWord => matches!(self, LEToken::KeyWord(_)),
            TokenType::Operator => matches!(self, LEToken::Operator(_)),
            TokenType::NumberLiteral => matches!(self, LEToken::NumberLiteral(_)),
            TokenType::Identifier => matches!(self, LEToken::Identifier(_)),
            TokenType::LeftPar => matches!(self, LEToken::LeftPar),
            TokenType::RightPar => matches!(self, LEToken::RightPar),
            TokenType::LeftBrace => matches!(self, LEToken::LeftBrace),
            TokenType::RightBrace => matches!(self, LEToken::RightBrace),
            TokenType::LeftBracket => matches!(self, LEToken::LeftBracket),
            TokenType::RightBracket => matches!(self, LEToken::RightBracket),
            TokenType::Comma => matches!(self, LEToken::Comma),
            TokenType::Colon => matches!(self, LEToken::Colon),
            TokenType::Semicolon => matches!(self, LEToken::Semicolon),
            TokenType::SingleArrow => matches!(self, LEToken::SingleArrow),
        }
    }
}

/// The mathematical value of a token cursor's input: the tokens, their
/// spans, and the span of the end of the input.
pub struct SStream {
    pub tokens: Seq<STok>,
    pub positions: Seq<Position>,
    pub eof: Position,
}

impl SStream {
    pub open spec fn len(self) -> nat {
        self.tokens.len()
    }

    /// The token at index `i`, if there is one.
    pub open spec fn cur(self, i: nat) -> Option<STok> {
        if i < self.tokens.len() {
            Some(self.tokens[i as int])
        } else {
            None
        }
    }

    /// The span of the token at index `i`, or the end span past the last token.
    pub open spec fn pos(self, i: nat) -> Position {
        if i < self.tokens.len() {
            self.positions[i as int]
        } else {
            self.eof
        }
    }

    /// The index after consuming the token at `i`, if there is one.
    pub open spec fn adv(self, i: nat) -> nat {
        if i < self.tokens.len() {
            i + 1
        } else {
            i
        }
    }
}

/// A syntax error together with the span at which it was found.
pub type SErr = (crate::error::SSyntaxError, Position);

/// A failed parsing step: the syntax error, and the index at which the
/// cursor stands when the error is given.
pub type PErr = (SErr, nat);

/// What a parsing step yields: a value and the index after it, or an error
/// and the index at which the step stopped.
pub type PRes<T> = Result<(T, nat), PErr>;

pub open spec fn missing(s: SStream, i: nat, kinds: Seq<TokenType>) -> SErr {
    (crate::error::SSyntaxError::MissingToken(kinds), s.pos(i))
}

pub open spec fn unexpected(s: SStream, i: nat, kinds: Seq<TokenType>, t: STok) -> SErr {
    (crate::error::SSyntaxError::UnexpectToken(kinds, t), s.pos(i))
}

/// A step that stops at index `i`, where no token of `kinds` is left.
pub open spec fn fail_missing(s: SStream, i: nat, kinds: Seq<TokenType>) -> PErr {
    (missing(s, i, kinds), i)
}

/// A step that stops at index `i`, on the token `t`, which is of none of `kinds`.
pub open spec fn fail_unexpected(s: SStream, i: nat, kinds: Seq<TokenType>, t: STok) -> PErr {
    (unexpected(s, i, kinds, t), i)
}

/// Consuming one token of the kind `kind` at index `i`.
pub open spec fn spec_expect(s: SStream, i: nat, kind: TokenType) -> PRes<()> {
    match s.cur(i) {
        None => Err(fail_missing(s, i, seq![kind])),
        Some(t) => if spec_token_is(t, kind) {
            Ok(((), i + 1))
        } else {
            Err(fail_unexpected(s, i, seq![kind], t))
        },
    }
}

/// Consuming an identifier at index `i`.
pub open spec fn spec_identifier(s: SStream, i: nat) -> PRes<Seq<char>> {
    match s.cur(i) {
        None => Err(fail_missing(s, i, seq![TokenType::Identifier])),
        Some(STok::Identifier(name)) => Ok((name, i + 1)),
        Some(t) => Err(fail_unexpected(s, i, seq![TokenType::Identifier], t)),
    }
}

/// Consuming a keyword at index `i`.
pub open spec fn spec_keyword(s: SStream, i: nat) -> PRes<KeyWord> {
    match s.cur(i) {
        None => Err(fail_missing(s, i, seq![TokenType::KeyWord])),
        Some(STok::KeyWord(k)) => Ok((k, i + 1)),
        Some(t) => Err(fail_unexpected(s, i, seq![TokenType::KeyWord], t)),
    }
}

/// Consuming an operator at index `i`.
pub open spec fn spec_operator(s: SStream, i: nat) -> PRes<Operator> {
    match s.cur(i) {
        None => Err(fail_missing(s, i, seq![TokenType::Operator])),
        Some(STok::Operator(o)) => Ok((o, i + 1)),
        Some(t) => Err(fail_unexpected(s, i, seq![TokenType::Operator], t)),
    }
}

/// Consuming a number literal at index `i`.
pub open spec fn spec_number(s: SStream, i: nat) -> PRes<SNumber> {
    match s.cur(i) {
        None => Err(fail_missing(s, i, seq![TokenType::NumberLiteral])),
        Some(STok::NumberLiteral(n)) => Ok((n, i + 1)),
        Some(t) => Err(fail_unexpected(s, i, seq![TokenType::NumberLiteral], t)),
    }
}

/// Consuming whatever token stands at index `i`.
pub open spec fn spec_next(s: SStream, i: nat) -> PRes<STok> {
    match s.cur(i) {
        None => Err(fail_missing(s, i, Seq::empty())),
        Some(t) => Ok((t, i + 1)),
    }
}

/// A cursor over the tokens of a program.
pub struct LELexer {
    tokens: Vec<LEToken>,
    positions: Vec<Position>,
    eof: Position,
    index: usize,
}

impl LELexer {
    /// The cursor is well formed: one span per token, and the index within bounds.
    pub open spec fn wf(&self) -> bool {
        &&& self.spec_tokens().len() == self.spec_positions().len()
        &&& self.spec_index() <= self.spec_tokens().len()
    }

    pub closed spec fn spec_tokens(&self) -> Seq<LEToken> {
        self.tokens@
    }

    pub closed spec fn spec_positions(&self) -> Seq<Position> {
        self.positions@
    }

    pub closed spec fn spec_eof(&self) -> Position {
        self.eof
    }

    /// The index of the current token.
    pub closed spec fn spec_index(&self) -> nat {
        self.index as nat
    }

    /// The input of the cursor, without its index.
    pub open spec fn stream(&self) -> SStream {
        SStream {
            tokens: self.spec_tokens().map_values(|t: LEToken| t@),
            positions: self.spec_positions(),
            eof: self.spec_eof(),
        }
    }

    /// A cursor at the first of `tokens`, whose spans are `positions`;
    /// `None` where there are not as many spans as tokens.
    pub fn new(tokens: Vec<LEToken>, positions: Vec<Position>, eof: Position) -> (r: Option<LELexer>)
        ensures
            r is Some <==> tokens@.len() == positions@.len(),
            r matches Some(l) ==> {
                &&& l.wf()
                &&& l.spec_tokens() == tokens@
                &&& l.spec_positions() == positions@
                &&& l.spec_eof() == eof
                &&& l.spec_index() == 0
            },
    {
        if tokens.len() == positions.len() {
            Some(LELexer { tokens, positions, eof, index: 0 })
        } else {
            None
        }
    }

    /// The number of tokens.
    pub fn len(&self) -> (r: usize)
        ensures
            r == self.spec_tokens().len(),
    {
        self.tokens.len()
    }

    /// The index of the current token.
    pub fn index(&self) -> (r: usize)
        ensures
            r == self.spec_index(),
    {
        self.index
    }

    /// The current token, if the input is not exhausted.
    pub fn current(&self) -> (r: Option<&LEToken>)
        requires
            self.wf(),
        ensures
            match r {
                Some(t) => self.stream().cur(self.spec_index()) == Some(t@),
                None => self.stream().cur(self.spec_index()) is None,
            },
    {
        if self.index < self.tokens.len() {
            Some(&self.tokens[self.index])
        } else {
            None
        }
    }

    /// The span of the current token, or the end span.
    pub fn pos(&self) -> (r: Position)
        requires
            self.wf(),
        ensures
            r == self.stream().pos(self.spec_index()),
    {
        if self.index < self.tokens.len() {
            self.positions[self.index]
        } else {
            self.eof
        }
    }

    /// Moves past the current token, if there is one.
    pub fn consume(&mut self)
        requires
            old(self).wf(),
        ensures
            final(self).wf(),
            final(self).stream() == old(self).stream(),
            final(self).spec_index() == old(self).stream().adv(old(self).spec_index()),
    {
        if self.index < self.tokens.len() {
            self.index = self.index + 1;
        }
    }

    /// Whether the current token is of the kind that `kind` names.
    pub fn current_is(&self, kind: TokenType) -> (r: bool)
        requires
            self.wf(),
        ensures
            r == (self.stream().cur(self.spec_index()) matches Some(t) && spec_token_is(t, kind)),
    {
        self.index < self.tokens.len() && self.tokens[self.index].is(kind)
    }

    /// The current operator, where the current token is an operator.
    pub fn current_operator(&self) -> (r: Option<Operator>)
        requires
            self.wf(),
        ensures
            match self.stream().cur(self.spec_index()) {
                Some(STok::Operator(o)) => r == Some(o),
                _ => r is None,
            },
    {
        if self.index < self.tokens.len() {
            if let LEToken::Operator(o) = &self.tokens[self.index] {
                return Some(*o);
            }
        }
        None
    }

    /// Whether the input is exhausted.
    pub fn at_end(&self) -> (r: bool)
        requires
            self.wf(),
        ensures
            r == (self.stream().cur(self.spec_index()) is None),
    {
        self.index >= self.tokens.len()
    }

    /// The current keyword, where the current token is a keyword.
    pub fn current_keyword(&self) -> (r: Option<KeyWord>)
        requires
            self.wf(),
        ensures
            match self.stream().cur(self.spec_index()) {
                Some(STok::KeyWord(k)) => r == Some(k),
                _ => r is None,
            },
    {
        if self.index < self.tokens.len() {
            if let LEToken::KeyWord(k) = &self.tokens[self.index] {
                return Some(*k);
            }
        }
        None
    }

    /// The error for a token of one of `kinds` that is not at the current index.
    pub fn error_here(&self, kinds: Vec<TokenType>) -> (e: LEError)
        requires
            self.wf(),
        ensures
            self.stream().cur(self.spec_index()) is None ==> e.syntax_view() == Some(
                missing(self.stream(), self.spec_index(), kinds@),
            ),
            self.stream().cur(self.spec_index()) matches Some(t) ==> e.syntax_view() == Some(
                unexpected(self.stream(), self.spec_index(), kinds@, t),
            ),
    {
        let pos = self.pos();
        if self.index < self.tokens.len() {
            LEError::new_syntax_error(
                SyntaxError::unexpect_token(kinds, self.tokens[self.index].copy()),
                pos,
            )
        } else {
            LEError::new_syntax_error(SyntaxError::missing_token(kinds), pos)
        }
    }

    /// Consumes one token of the kind `kind`.
    pub fn expect(&mut self, kind: TokenType) -> (r: Result<(), LEError>)
        requires
            old(self).wf(),
        ensures
            final(self).wf(),
            final(self).stream() == old(self).stream(),
            match spec_expect(old(self).stream(), old(self).spec_index(), kind) {
                Ok((_, j)) => r is Ok && final(self).spec_index() == j,
                Err((e, j)) => r matches Err(x) && x.syntax_view() == Some(e) && final(self).spec_index() == j,
            },
    {
        if self.index < self.tokens.len() && self.tokens[self.index].is(kind) {
            self.index = self.index + 1;
            Ok(())
        } else {
            let mut kinds = Vec::new();
            kinds.push(kind);
            proof {
                assert(kinds@ =~= seq![kind]);
            }
            Err(self.error_here(kinds))
        }
    }

    pub fn consume_left_par(&mut self) -> (r: Result<(), LEError>)
        requires
            old(self).wf(),
        ensures
            final(self).wf(),
            final(self).stream() == old(self).stream(),
            match spec_expect(old(self).stream(), old(self).spec_index(), TokenType::LeftPar) {
                Ok((_, j)) => r is Ok && final(self).spec_index() == j,
                Err((e, j)) => r matches Err(x) && x.syntax_view() == Some(e) && final(self).spec_index() == j,
            },
    {
        self.expect(TokenType::LeftPar)
    }

    pub fn consume_right_par(&mut self) -> (r: Result<(), LEError>)
        requires
            old(self).wf(),
        ensures
            final(self).wf(),
            final(self).stream() == old(self).stream(),
            match spec_expect(old(self).stream(), old(self).spec_index(), TokenType::RightPar) {
                Ok((_, j)) => r is Ok && final(self).spec_index() == j,
                Err((e, j)) => r matches Err(x) && x.syntax_view() == Some(e) && final(self).spec_index() == j,
            },
    {
        self.expect(TokenType::RightPar)
    }

    pub fn consume_left_brace(&mut self) -> (r: Result<(), LEError>)
        requires
            old(self).wf(),
        ensures
            final(self).wf(),
            final(self).stream() == old(self).stream(),
            match spec_expect(old(self).stream(), old(self).spec_index(), TokenType::LeftBrace) {
                Ok((_, j)) => r is Ok && final(self).spec_index() == j,
                Err((e, j)) => r matches Err(x) && x.syntax_view() == Some(e) && final(self).spec_index() == j,
            },
    {
        self.expect(TokenType::LeftBrace)
    }

    pub fn consume_right_brace(&mut self) -> (r: Result<(), LEError>)
        requires
            old(self).wf(),
        ensures
            final(self).wf(),
            final(self).stream() == old(self).stream(),
            match spec_expect(old(self).stream(), old(self).spec_index(), TokenType::RightBrace) {
                Ok((_, j)) => r is Ok && final(self).spec_index() == j,
                Err((e, j)) => r matches Err(x) && x.syntax_view() == Some(e) && final(self).spec_index() == j,
            },
    {
        self.expect(TokenType::RightBrace)
    }

    pub fn consume_left_bracket(&mut self) -> (r: Result<(), LEError>)
        requires
            old(self).wf(),
        ensures
            final(self).wf(),
            final(self).stream() == old(self).stream(),
            match spec_expect(old(self).stream(), old(self).spec_index(), TokenType::LeftBracket) {
                Ok((_, j)) => r is Ok && final(self).spec_index() == j,
                Err((e, j)) => r matches Err(x) && x.syntax_view() == Some(e) && final(self).spec_index() == j,
            },
    {
        self.expect(TokenType::LeftBracket)
    }

    pub fn consume_right_bracket(&mut self) -> (r: Result<(), LEError>)
        requires
            old(self).wf(),
        ensures
            final(self).wf(),
            final(self).stream() == old(self).stream(),
            match spec_expect(old(self).stream(), old(self).spec_index(), TokenType::RightBracket) {
                Ok((_, j)) => r is Ok && final(self).spec_index() == j,
                Err((e, j)) => r matches Err(x) && x.syntax_view() == Some(e) && final(self).spec_index() == j,
            },
    {
        self.expect(TokenType::RightBracket)
    }

    pub fn consume_colon(&mut self) -> (r: Result<(), LEError>)
        requires
            old(self).wf(),
        ensures
            final(self).wf(),
            final(self).stream() == old(self).stream(),
            match spec_expect(old(self).stream(), old(self).spec_index(), TokenType::Colon) {
                Ok((_, j)) => r is Ok && final(self).spec_index() == j,
                Err((e, j)) => r matches Err(x) && x.syntax_view() == Some(e) && final(self).spec_index() == j,
            },
    {
        self.expect(TokenType::Colon)
    }

    pub fn consume_semicolon(&mut self) -> (r: Result<(), LEError>)
        requires
            old(self).wf(),
        ensures
            final(self).wf(),
            final(self).stream() == old(self).stream(),
            match spec_expect(old(self).stream(), old(self).spec_index(), TokenType::Semicolon) {
                Ok((_, j)) => r is Ok && final(self).spec_index() == j,
                Err((e, j)) => r matches Err(x) && x.syntax_view() == Some(e) && final(self).spec_index() == j,
            },
    {
        self.expect(TokenType::Semicolon)
    }

    /// Consumes an identifier and gives its name.
    pub fn consume_identifier(&mut self) -> (r: Result<String, LEError>)
        requires
            old(self).wf(),
        ensures
            final(self).wf(),
            final(self).stream() == old(self).stream(),
            match spec_identifier(old(self).stream(), old(self).spec_index()) {
                Ok((n, j)) => r matches Ok(x) && x@ == n && final(self).spec_index() == j,
                Err((e, j)) => r matches Err(x) && x.syntax_view() == Some(e) && final(self).spec_index() == j,
            },
    {
        if self.index < self.tokens.len() {
            if let LEToken::Identifier(name) = &self.tokens[self.index] {
                let n = name.clone();
                self.index = self.index + 1;
                return Ok(n);
            }
        }
        let mut kinds = Vec::new();
        kinds.push(TokenType::Identifier);
        proof {
            assert(kinds@ =~= seq![TokenType::Identifier]);
        }
        Err(self.error_here(kinds))
    }

    /// Consumes a keyword and gives it.
    pub fn consume_keyword(&mut self) -> (r: Result<KeyWord, LEError>)
        requires
            old(self).wf(),
        ensures
            final(self).wf(),
            final(self).stream() == old(self).stream(),
            match spec_keyword(old(self).stream(), old(self).spec_index()) {
                Ok((k, j)) => r == Ok::<KeyWord, LEError>(k) && final(self).spec_index() == j,
                Err((e, j)) => r matches Err(x) && x.syntax_view() == Some(e) && final(self).spec_index() == j,
            },
    {
        if self.index < self.tokens.len() {
            if let LEToken::KeyWord(k) = &self.tokens[self.index] {
                let k = *k;
                self.index = self.index + 1;
                return Ok(k);
            }
        }
        let mut kinds = Vec::new();
        kinds.push(TokenType::KeyWord);
        proof {
            assert(kinds@ =~= seq![TokenType::KeyWord]);
        }
        Err(self.error_here(kinds))
    }

    /// Consumes an operator and gives it.
    pub fn consume_operator(&mut self) -> (r: Result<Operator, LEError>)
        requires
            old(self).wf(),
        ensures
            final(self).wf(),
            final(self).stream() == old(self).stream(),
            match spec_operator(old(self).stream(), old(self).spec_index()) {
                Ok((o, j)) => r == Ok::<Operator, LEError>(o) && final(self).spec_index() == j,
                Err((e, j)) => r matches Err(x) && x.syntax_view() == Some(e) && final(self).spec_index() == j,
            },
    {
        if self.index < self.tokens.len() {
            if let LEToken::Operator(o) = &self.tokens[self.index] {
                let o = *o;
                self.index = self.index + 1;
                return Ok(o);
            }
        }
        let mut kinds = Vec::new();
        kinds.push(TokenType::Operator);
        proof {
            assert(kinds@ =~= seq![TokenType::Operator]);
        }
        Err(self.error_here(kinds))
    }

    /// Consumes a number literal and gives it.
    pub fn consume_number_literal(&mut self) -> (r: Result<Number, LEError>)
        requires
            old(self).wf(),
        ensures
            final(self).wf(),
            final(self).stream() == old(self).stream(),
            match spec_number(old(self).stream(), old(self).spec_index()) {
                Ok((n, j)) => r matches Ok(x) && x@ == n && final(self).spec_index() == j,
                Err((e, j)) => r matches Err(x) && x.syntax_view() == Some(e) && final(self).spec_index() == j,
            },
    {
        if self.index < self.tokens.len() {
            if let LEToken::NumberLiteral(n) = &self.tokens[self.index] {
                let n = n.copy();
                self.index = self.index + 1;
                return Ok(n);
            }
        }
        let mut kinds = Vec::new();
        kinds.push(TokenType::NumberLiteral);
        proof {
            assert(kinds@ =~= seq![TokenType::NumberLiteral]);
        }
        Err(self.error_here(kinds))
    }

    /// Consumes whatever token is current and gives it; an error at the end
    /// of the input.
    pub fn next_result(&mut self) -> (r: Result<LEToken, LEError>)
        requires
            old(self).wf(),
        ensures
            final(self).wf(),
            final(self).stream() == old(self).stream(),
            match spec_next(old(self).stream(), old(self).spec_index()) {
                Ok((t, j)) => r matches Ok(x) && x@ == t && final(self).spec_index() == j,
                Err((e, j)) => r matches Err(x) && x.syntax_view() == Some(e) && final(self).spec_index() == j,
            },
    {
        if self.index < self.tokens.len() {
            let t = self.tokens[self.index].copy();
            self.index = self.index + 1;
            Ok(t)
        } else {
            let kinds = Vec::new();
            proof {
                assert(kinds@ =~= Seq::<TokenType>::empty());
            }
            Err(self.error_here(kinds))
        }
    }

    /// The current token; an error at the end of the input.
    pub fn current_result(&self) -> (r: Result<&LEToken, LEError>)
        requires
            self.wf(),
        ensures
            match self.stream().cur(self.spec_index()) {
                Some(t) => r matches Ok(x) && x@ == t,
                None => r matches Err(x) && x.syntax_view() == Some(
                    missing(self.stream(), self.spec_index(), Seq::empty()),
                ),
            },
    {
        if self.index < self.tokens.len() {
            Ok(&self.tokens[self.index])
        } else {
            let kinds = Vec::new();
            proof {
                assert(kinds@ =~= Seq::<TokenType>::empty());
            }
            Err(self.error_here(kinds))
        }
    }
}

} // verus!
