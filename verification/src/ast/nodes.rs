//! The syntax tree of a lelang program, its mathematical model, and the spans
//! of its nodes.
use vstd::prelude::*;

use crate::lexer::{Number, Operator, Position, SNumber};

verus! {

#[derive(Debug)]
pub struct Identifier {
    pub name: String,
    pub pos: Position,
}

#[derive(Debug)]
pub struct BinaryOpExpression {
    pub op: Operator,
    pub left: Box<Expr>,
    pub right: Box<Expr>,
    pub pos: Position,
}

#[derive(Debug)]
pub struct FunctionCall {
    pub function_name: Identifier,
    pub params: Vec<Expr>,
    pub pos: Position,
}

#[derive(Debug)]
pub struct NumberLiteral {
    pub number: Number,
    pub pos: Position,
}

#[derive(Debug)]
pub struct UnaryOpExpression {
    pub op: Operator,
    pub expr: Box<Expr>,
    pub pos: Position,
}

#[derive(Debug)]
pub struct ArrayInitializer {
    pub elements: Vec<Expr>,
    pub pos: Position,
}

#[derive(Debug)]
pub struct StructureInitializer {
    pub structure_name: Identifier,
    pub member_initial_values: Vec<(String, Box<Expr>)>,
    pub pos: Position,
}

#[derive(Debug)]
pub struct StringLiteral {
    pub content: String,
    pub pos: Position,
}

#[derive(Debug)]
pub enum Expr {
    BinaryOperator(BinaryOpExpression),
    UnaryOperator(UnaryOpExpression),
    NumberLiteral(NumberLiteral),
    ArrayInitializer(ArrayInitializer),
    StructureInitializer(StructureInitializer),
    StringLiteral(StringLiteral),
    Identifier(Identifier),
    CallExpression(FunctionCall),
}

#[derive(Debug)]
pub struct ArrayDeclarator {
    pub element_type: TypeDeclarator,
    pub len: u32,
    pub pos: Position,
}

#[derive(Debug)]
pub enum TypeDeclarator {
    TypeIdentifier(Identifier),
    Array(Box<ArrayDeclarator>),
    Reference(Box<TypeDeclarator>),
}

#[derive(Debug)]
pub struct FunctionPrototype {
    pub identifier: Identifier,
    pub param_types: Vec<TypeDeclarator>,
    pub return_type: Option<TypeDeclarator>,
    pub pos: Position,
}

#[derive(Debug)]
pub struct VariablePrototype {
    pub type_declarator: Option<TypeDeclarator>,
    pub identifier: Identifier,
    pub pos: Position,
}

#[derive(Debug)]
pub struct Variable {
    pub prototype: VariablePrototype,
    pub value: Box<Expr>,
    pub pos: Position,
}

#[derive(Debug)]
pub struct CodeBlock {
    pub statements: Vec<Statement>,
    pub pos: Position,
}

#[derive(Debug)]
pub struct IfStatement {
    pub cond: Box<Expr>,
    pub then_block: CodeBlock,
    pub else_block: Option<CodeBlock>,
    pub pos: Position,
}

#[derive(Debug)]
pub struct ForLoop {
    pub init_statement: Box<Statement>,
    pub condition: Box<Statement>,
    pub iterate: Box<Statement>,
    pub code_block: CodeBlock,
    pub pos: Position,
}

#[derive(Debug)]
pub struct WhileLoop {
    pub condition: Box<Expr>,
    pub code_block: CodeBlock,
    pub pos: Position,
}

#[derive(Debug)]
pub enum Statement {
    Expressions(Box<Expr>),
    VariableDefinition(Variable),
    Return(Box<Expr>),
    If(IfStatement),
    ForLoop(ForLoop),
    WhileLoop(WhileLoop),
    Void(Position),
}

#[derive(Debug)]
pub struct FunctionDefinition {
    pub prototype: FunctionPrototype,
    pub param_names: Vec<String>,
    pub code_block: CodeBlock,
    pub pos: Position,
}

#[derive(Debug)]
pub struct AnonymousFunction {
    pub prototype: FunctionPrototype,
    pub param_names: Vec<String>,
    pub code_block: CodeBlock,
    pub pos: Position,
}

#[derive(Debug)]
pub struct Structure {
    pub identifier: Identifier,
    pub members: Vec<(String, TypeDeclarator)>,
    pub pos: Position,
}

/// A whole program: its global variables, structures, function definitions
/// and external function declarations, each in the order of the source.
#[derive(Debug)]
pub struct Ast {
    pub globals_variables: Vec<Variable>,
    pub globals_structures: Vec<Structure>,
    pub function_definitions: Vec<FunctionDefinition>,
    pub extern_functions: Vec<FunctionPrototype>,
}

// ---------------------------------------------------------------------------
// The mathematical model of the tree.

pub struct SIdent {
    pub name: Seq<char>,
    pub pos: Position,
}

pub enum SExpr {
    Binary { op: Operator, left: Box<SExpr>, right: Box<SExpr>, pos: Position },
    Unary { op: Operator, expr: Box<SExpr>, pos: Position },
    Number { number: SNumber, pos: Position },
    Array { elements: Seq<SExpr>, pos: Position },
    StructInit { name: SIdent, members: Seq<(Seq<char>, SExpr)>, pos: Position },
    Str { content: Seq<char>, pos: Position },
    Ident { ident: SIdent },
    Call { name: SIdent, params: Seq<SExpr>, pos: Position },
}

pub enum STypeDecl {
    TypeIdentifier(SIdent),
    Array { element_type: Box<STypeDecl>, len: u32, pos: Position },
    Reference(Box<STypeDecl>),
}

pub struct SProto {
    pub identifier: SIdent,
    pub param_types: Seq<STypeDecl>,
    pub return_type: Option<STypeDecl>,
    pub pos: Position,
}

pub struct SVariable {
    pub type_declarator: Option<STypeDecl>,
    pub identifier: SIdent,
    pub prototype_pos: Position,
    pub value: SExpr,
    pub pos: Position,
}

pub struct SBlock {
    pub statements: Seq<SStmt>,
    pub pos: Position,
}

pub enum SStmt {
    Expressions(SExpr),
    VariableDefinition(SVariable),
    Return(SExpr),
    If { cond: SExpr, then_block: SBlock, else_block: Option<SBlock>, pos: Position },
    ForLoop { init: Box<SStmt>, cond: Box<SStmt>, iterate: Box<SStmt>, code_block: SBlock, pos: Position },
    WhileLoop { cond: SExpr, code_block: SBlock, pos: Position },
    Void(Position),
}

pub struct SFunction {
    pub prototype: SProto,
    pub param_names: Seq<Seq<char>>,
    pub code_block: SBlock,
    pub pos: Position,
}

pub struct SStructure {
    pub identifier: SIdent,
    pub members: Seq<(Seq<char>, STypeDecl)>,
    pub pos: Position,
}

#[verifier::ext_equal]
pub struct SAst {
    pub globals_variables: Seq<SVariable>,
    pub globals_structures: Seq<SStructure>,
    pub function_definitions: Seq<SFunction>,
    pub extern_functions: Seq<SProto>,
}

// ---------------------------------------------------------------------------
// Views.

impl View for Identifier {
    type V = SIdent;

    open spec fn view(&self) -> SIdent {
        SIdent { name: self.name@, pos: self.pos }
    }
}

pub open spec fn view_expr(e: Expr) -> SExpr
    decreases e, 2nat,
{
    match e {
        Expr::BinaryOperator(b) => SExpr::Binary {
            op: b.op,
            left: Box::new(view_expr(*b.left)),
            right: Box::new(view_expr(*b.right)),
            pos: b.pos,
        },
        Expr::UnaryOperator(u) => SExpr::Unary {
            op: u.op,
            expr: Box::new(view_expr(*u.expr)),
            pos: u.pos,
        },
        Expr::NumberLiteral(n) => SExpr::Number { number: n.number@, pos: n.pos },
        Expr::ArrayInitializer(a) => SExpr::Array {
            elements: view_exprs(a.elements@),
            pos: a.pos,
        },
        Expr::StructureInitializer(s) => SExpr::StructInit {
            name: s.structure_name@,
            members: view_members(s.member_initial_values@),
            pos: s.pos,
        },
        Expr::StringLiteral(s) => SExpr::Str { content: s.content@, pos: s.pos },
        Expr::Identifier(i) => SExpr::Ident { ident: i@ },
        Expr::CallExpression(c) => SExpr::Call {
            name: c.function_name@,
            params: view_exprs(c.params@),
            pos: c.pos,
        },
    }
}

pub open spec fn view_exprs(s: Seq<Expr>) -> Seq<SExpr>
    decreases s, 1nat,
{
    if s.len() == 0 {
        Seq::empty()
    } else {
        view_exprs(s.drop_last()).push(view_expr(s.last()))
    }
}

pub open spec fn view_members(s: Seq<(String, Box<Expr>)>) -> Seq<(Seq<char>, SExpr)>
    decreases s, 1nat,
{
    if s.len() == 0 {
        Seq::empty()
    } else {
        view_members(s.drop_last()).push((s.last().0@, view_expr(*s.last().1)))
    }
}

impl View for Expr {
    type V = SExpr;

    open spec fn view(&self) -> SExpr {
        view_expr(*self)
    }
}

pub open spec fn view_type(t: TypeDeclarator) -> STypeDecl
    decreases t,
{
    match t {
        TypeDeclarator::TypeIdentifier(i) => STypeDecl::TypeIdentifier(i@),
        TypeDeclarator::Array(a) => STypeDecl::Array {
            element_type: Box::new(view_type(a.element_type)),
            len: a.len,
            pos: a.pos,
        },
        TypeDeclarator::Reference(r) => STypeDecl::Reference(Box::new(view_type(*r))),
    }
}

impl View for TypeDeclarator {
    type V = STypeDecl;

    open spec fn view(&self) -> STypeDecl {
        view_type(*self)
    }
}

pub open spec fn view_opt_type(t: Option<TypeDeclarator>) -> Option<STypeDecl> {
    match t {
        Some(t) => Some(view_type(t)),
        None => None,
    }
}

pub open spec fn view_types(s: Seq<TypeDeclarator>) -> Seq<STypeDecl> {
    s.map_values(|t: TypeDeclarator| view_type(t))
}

pub open spec fn view_annotations(s: Seq<(String, TypeDeclarator)>) -> Seq<(Seq<char>, STypeDecl)> {
    s.map_values(|a: (String, TypeDeclarator)| (a.0@, view_type(a.1)))
}

pub open spec fn view_strings(s: Seq<String>) -> Seq<Seq<char>> {
    s.map_values(|n: String| n@)
}

impl View for FunctionPrototype {
    type V = SProto;

    open spec fn view(&self) -> SProto {
        SProto {
            identifier: self.identifier@,
            param_types: view_types(self.param_types@),
            return_type: view_opt_type(self.return_type),
            pos: self.pos,
        }
    }
}

impl View for Variable {
    type V = SVariable;

    open spec fn view(&self) -> SVariable {
        SVariable {
            type_declarator: view_opt_type(self.prototype.type_declarator),
            identifier: self.prototype.identifier@,
            prototype_pos: self.prototype.pos,
            value: view_expr(*self.value),
            pos: self.pos,
        }
    }
}

pub open spec fn view_stmt(s: Statement) -> SStmt
    decreases s, 2nat,
{
    match s {
        Statement::Expressions(e) => SStmt::Expressions(view_expr(*e)),
        Statement::VariableDefinition(v) => SStmt::VariableDefinition(v@),
        Statement::Return(e) => SStmt::Return(view_expr(*e)),
        Statement::If(i) => SStmt::If {
            cond: view_expr(*i.cond),
            then_block: view_block(i.then_block),
            else_block: match i.else_block {
                Some(b) => Some(view_block(b)),
                None => None,
            },
            pos: i.pos,
        },
        Statement::ForLoop(f) => SStmt::ForLoop {
            init: Box::new(view_stmt(*f.init_statement)),
            cond: Box::new(view_stmt(*f.condition)),
            iterate: Box::new(view_stmt(*f.iterate)),
            code_block: view_block(f.code_block),
            pos: f.pos,
        },
        Statement::WhileLoop(w) => SStmt::WhileLoop {
            cond: view_expr(*w.condition),
            code_block: view_block(w.code_block),
            pos: w.pos,
        },
        Statement::Void(p) => SStmt::Void(p),
    }
}

pub open spec fn view_block(b: CodeBlock) -> SBlock
    decreases b, 2nat,
{
    SBlock { statements: view_stmts(b.statements@), pos: b.pos }
}

pub open spec fn view_stmts(s: Seq<Statement>) -> Seq<SStmt>
    decreases s, 1nat,
{
    if s.len() == 0 {
        Seq::empty()
    } else {
        view_stmts(s.drop_last()).push(view_stmt(s.last()))
    }
}

impl View for Statement {
    type V = SStmt;

    open spec fn view(&self) -> SStmt {
        view_stmt(*self)
    }
}

impl View for CodeBlock {
    type V = SBlock;

    open spec fn view(&self) -> SBlock {
        view_block(*self)
    }
}

impl View for FunctionDefinition {
    type V = SFunction;

    open spec fn view(&self) -> SFunction {
        SFunction {
            prototype: self.prototype@,
            param_names: view_strings(self.param_names@),
            code_block: view_block(self.code_block),
            pos: self.pos,
        }
    }
}

impl View for Structure {
    type V = SStructure;

    open spec fn view(&self) -> SStructure {
        SStructure {
            identifier: self.identifier@,
            members: view_annotations(self.members@),
            pos: self.pos,
        }
    }
}

impl View for Ast {
    type V = SAst;

    open spec fn view(&self) -> SAst {
        SAst {
            globals_variables: self.globals_variables@.map_values(|v: Variable| v@),
            globals_structures: self.globals_structures@.map_values(|s: Structure| s@),
            function_definitions: self.function_definitions@.map_values(
                |f: FunctionDefinition| f@,
            ),
            extern_functions: self.extern_functions@.map_values(|p: FunctionPrototype| p@),
        }
    }
}

pub proof fn lemma_view_exprs_push(s: Seq<Expr>, e: Expr)
    ensures
        view_exprs(s.push(e)) == view_exprs(s).push(view_expr(e)),
{
    assert(s.push(e).drop_last() =~= s);
}

pub proof fn lemma_view_members_push(s: Seq<(String, Box<Expr>)>, m: (String, Box<Expr>))
    ensures
        view_members(s.push(m)) == view_members(s).push((m.0@, view_expr(*m.1))),
{
    assert(s.push(m).drop_last() =~= s);
}

pub proof fn lemma_view_stmts_push(s: Seq<Statement>, st: Statement)
    ensures
        view_stmts(s.push(st)) == view_stmts(s).push(view_stmt(st)),
{
    assert(s.push(st).drop_last() =~= s);
}

pub proof fn lemma_view_exprs_index(s: Seq<Expr>)
    ensures
        view_exprs(s).len() == s.len(),
        forall|i: int| 0 <= i < s.len() ==> #[trigger] view_exprs(s)[i] == view_expr(s[i]),
    decreases s.len(),
{
    if s.len() > 0 {
        lemma_view_exprs_index(s.drop_last());
    }
}

pub proof fn lemma_view_members_index(s: Seq<(String, Box<Expr>)>)
    ensures
        view_members(s).len() == s.len(),
        forall|i: int|
            0 <= i < s.len() ==> #[trigger] view_members(s)[i] == (s[i].0@, view_expr(*s[i].1)),
    decreases s.len(),
{
    if s.len() > 0 {
        lemma_view_members_index(s.drop_last());
    }
}

pub proof fn lemma_view_stmts_index(s: Seq<Statement>)
    ensures
        view_stmts(s).len() == s.len(),
        forall|i: int| 0 <= i < s.len() ==> #[trigger] view_stmts(s)[i] == view_stmt(s[i]),
    decreases s.len(),
{
    if s.len() > 0 {
        lemma_view_stmts_index(s.drop_last());
    }
}

// ---------------------------------------------------------------------------
// Spans.

impl SExpr {
    pub open spec fn pos(self) -> Position {
        match self {
            SExpr::Binary { pos, .. } => pos,
            SExpr::Unary { pos, .. } => pos,
            SExpr::Number { pos, .. } => pos,
            SExpr::Array { pos, .. } => pos,
            SExpr::StructInit { pos, .. } => pos,
            SExpr::Str { pos, .. } => pos,
            SExpr::Ident { ident } => ident.pos,
            SExpr::Call { pos, .. } => pos,
        }
    }
}

impl STypeDecl {
    pub open spec fn pos(self) -> Position
        decreases self,
    {
        match self {
            STypeDecl::TypeIdentifier(i) => i.pos,
            STypeDecl::Array { pos, .. } => pos,
            STypeDecl::Reference(r) => r.pos(),
        }
    }
}

impl SStmt {
    pub open spec fn pos(self) -> Position {
        match self {
            SStmt::Expressions(e) => e.pos(),
            SStmt::VariableDefinition(v) => v.pos,
            SStmt::Return(e) => e.pos(),
            SStmt::If { pos, .. } => pos,
            SStmt::ForLoop { pos, .. } => pos,
            SStmt::WhileLoop { pos, .. } => pos,
            SStmt::Void(p) => p,
        }
    }
}

impl Expr {
    /// The span of the expression.
    pub fn pos(&self) -> (r: Position)
        ensures
            r == self@.pos(),
    {
        match self {
            Expr::BinaryOperator(e) => e.pos,
            Expr::UnaryOperator(e) => e.pos,
            Expr::NumberLiteral(e) => e.pos,
            Expr::ArrayInitializer(e) => e.pos,
            Expr::StructureInitializer(e) => e.pos,
            Expr::StringLiteral(e) => e.pos,
            Expr::Identifier(e) => e.pos,
            Expr::CallExpression(e) => e.pos,
        }
    }
}

impl TypeDeclarator {
    /// The span of the type.
    pub fn pos(&self) -> (r: Position)
        ensures
            r == self@.pos(),
        decreases self,
    {
        match self {
            TypeDeclarator::TypeIdentifier(e) => e.pos,
            TypeDeclarator::Array(e) => e.pos,
            TypeDeclarator::Reference(e) => (**e).pos(),
        }
    }
}

impl Statement {
    /// The span of the statement.
    pub fn pos(&self) -> (r: Position)
        ensures
            r == self@.pos(),
    {
        match self {
            Statement::Expressions(e) => (**e).pos(),
            Statement::VariableDefinition(e) => e.pos,
            Statement::Return(e) => (**e).pos(),
            Statement::If(e) => e.pos,
            Statement::ForLoop(e) => e.pos,
            Statement::WhileLoop(e) => e.pos,
            Statement::Void(p) => *p,
        }
    }
}

} // verus!
