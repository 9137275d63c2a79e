//! The syntax tree as a printable tree of labels, built with ptree's
//! `TreeBuilder`.
//!
//! The contents of a builder are modelled as the labels of its items in
//! preorder, each with its depth (the root at depth 0). Each
//! `build_tree_format` adds, below the builder's current item, the items
//! that `tree_*` below describe, with depths relative to that item.
use vstd::prelude::*;

use ptree::TreeBuilder;

use crate::ast::nodes::{
    lemma_view_exprs_index, lemma_view_members_index, lemma_view_stmts_index, view_block,
    view_strings, view_expr, view_annotations, view_exprs, view_members, view_stmt, view_stmts, view_type, view_types,
    ArrayDeclarator, ArrayInitializer, Ast, BinaryOpExpression, CodeBlock, Expr, ForLoop,
    FunctionCall, FunctionDefinition, FunctionPrototype, Identifier, IfStatement, NumberLiteral,
    SAst, SBlock, SExpr, SFunction, SIdent, SProto, SStmt, SStructure, STypeDecl, SVariable,
    Statement, StringLiteral, Structure, StructureInitializer, TypeDeclarator, UnaryOpExpression,
    Variable, VariablePrototype, WhileLoop,
};
use crate::lexer::{spec_operator_symbol, Number, SNumber};
use crate::text::{decimal_string, spec_decimal};

verus! {

// ---------------------------------------------------------------------------
// ptree's builder.

#[verifier::external_type_specification]
#[verifier::external_body]
pub struct ExTreeBuilder(TreeBuilder);

/// The items of a builder's tree in preorder, each with its depth.
pub uninterp spec fn tree_items(b: TreeBuilder) -> Seq<(nat, Seq<char>)>;

/// The depth of a builder's current item.
pub uninterp spec fn tree_level(b: TreeBuilder) -> nat;

/// `TreeBuilder::new`: a tree of the one root item `text`, which is current.
#[verifier::external_body]
pub(crate) fn tree_builder_new(text: String) -> (b: TreeBuilder)
    ensures
        tree_items(b) == seq![(0nat, text@)],
        tree_level(b) == 0,
{
    TreeBuilder::new(text)
}

/// `TreeBuilder::begin_child`: a new last child `text` of the current item,
/// which becomes current. The current item lies on the path of last
/// children from the root, so the new item is the last one in preorder.
/// ptree panics where the current depth exceeds the depth of that path,
/// and the `u32` depth overflows at its maximum.
#[verifier::external_body]
fn begin_child(b: &mut TreeBuilder, text: String)
    requires
        tree_items(*old(b)).len() > 0,
        tree_level(*old(b)) <= tree_items(*old(b)).last().0,
        tree_level(*old(b)) < u32::MAX,
    ensures
        tree_items(*final(b)) == tree_items(*old(b)).push((tree_level(*old(b)) + 1, text@)),
        tree_level(*final(b)) == tree_level(*old(b)) + 1,
{
    b.begin_child(text);
}

/// `TreeBuilder::end_child`: the parent of the current item becomes
/// current; the `u32` depth would underflow at the root.
#[verifier::external_body]
fn end_child(b: &mut TreeBuilder)
    requires
        tree_level(*old(b)) > 0,
    ensures
        tree_items(*final(b)) == tree_items(*old(b)),
        tree_level(*final(b)) == tree_level(*old(b)) - 1,
{
    b.end_child();
}

/// `TreeBuilder::add_empty_child`: `begin_child` then `end_child`.
#[verifier::external_body]
fn add_empty_child(b: &mut TreeBuilder, text: String)
    requires
        tree_items(*old(b)).len() > 0,
        tree_level(*old(b)) <= tree_items(*old(b)).last().0,
        tree_level(*old(b)) < u32::MAX,
    ensures
        tree_items(*final(b)) == tree_items(*old(b)).push((tree_level(*old(b)) + 1, text@)),
        tree_level(*final(b)) == tree_level(*old(b)),
{
    b.add_empty_child(text);
}

// ---------------------------------------------------------------------------
// Item sequences.

pub type TreeItems = Seq<(nat, Seq<char>)>;

/// `s` with every depth raised by `k`.
pub open spec fn shift(s: TreeItems, k: nat) -> TreeItems {
    s.map_values(|x: (nat, Seq<char>)| (x.0 + k, x.1))
}

/// One item `t` with no children.
pub open spec fn leaf(t: Seq<char>) -> TreeItems {
    seq![(1nat, t)]
}

/// One item `t` with the children `inner`.
pub open spec fn nest(t: Seq<char>, inner: TreeItems) -> TreeItems {
    seq![(1nat, t)] + shift(inner, 1)
}

pub open spec fn quoted(t: Seq<char>) -> Seq<char> {
    "`"@ + t + "`"@
}

/// A builder that children can be added to, with room for `n` more levels.
pub open spec fn ready(b: TreeBuilder, n: nat) -> bool {
    &&& tree_items(b).len() > 0
    &&& tree_level(b) <= tree_items(b).last().0
    &&& tree_level(b) + n <= u32::MAX
}

/// `b` holds what `b0` held and `added`, one level below the current item
/// of `b0`, which is current again.
pub open spec fn added(b0: TreeBuilder, b: TreeBuilder, added: TreeItems) -> bool {
    &&& tree_items(b) == tree_items(b0) + shift(added, tree_level(b0))
    &&& tree_level(b) == tree_level(b0)
    &&& ready(b, 0)
}

pub proof fn lemma_shift_concat(a: TreeItems, c: TreeItems, k: nat)
    ensures
        shift(a + c, k) == shift(a, k) + shift(c, k),
{
    assert(shift(a + c, k) =~= shift(a, k) + shift(c, k));
}

pub proof fn lemma_shift_shift(a: TreeItems, j: nat, k: nat)
    ensures
        shift(shift(a, j), k) == shift(a, j + k),
{
    assert(shift(shift(a, j), k) =~= shift(a, j + k));
}

/// Adding `x` and then `y` adds `x + y`.
pub proof fn lemma_added_trans(
    b0: TreeBuilder,
    b1: TreeBuilder,
    b2: TreeBuilder,
    x: TreeItems,
    y: TreeItems,
)
    requires
        added(b0, b1, x),
        added(b1, b2, y),
    ensures
        added(b0, b2, x + y),
{
    lemma_shift_concat(x, y, tree_level(b0));
    assert(tree_items(b2) =~= tree_items(b0) + shift(x + y, tree_level(b0)));
}

/// Adding nothing.
pub proof fn lemma_added_nothing(b: TreeBuilder)
    requires
        ready(b, 0),
    ensures
        added(b, b, Seq::empty()),
{
    assert(tree_items(b) =~= tree_items(b) + shift(Seq::empty(), tree_level(b)));
}

/// Makes a new child `label` of the current item current.
fn open(b: &mut TreeBuilder, label: &str)
    requires
        ready(*old(b), 1),
    ensures
        tree_items(*final(b)) == tree_items(*old(b)).push((tree_level(*old(b)) + 1, label@)),
        tree_level(*final(b)) == tree_level(*old(b)) + 1,
        ready(*final(b), 0),
{
    begin_child(b, String::from_str(label));
}

/// Makes the parent of the current item current again, after `open` of
/// `label` on `b0` and the adding of `c` below it.
fn close(
    b: &mut TreeBuilder,
    Ghost(b0): Ghost<TreeBuilder>,
    Ghost(label): Ghost<Seq<char>>,
    Ghost(c): Ghost<TreeItems>,
)
    requires
        ready(b0, 0),
        tree_level(*old(b)) == tree_level(b0) + 1,
        tree_items(*old(b)) == tree_items(b0).push((tree_level(b0) + 1, label)) + shift(
            c,
            tree_level(b0) + 1,
        ),
        ready(*old(b), 0),
    ensures
        added(b0, *final(b), nest(label, c)),
{
    end_child(b);
    proof {
        lemma_shift_concat(seq![(1nat, label)], shift(c, 1), tree_level(b0));
        lemma_shift_shift(c, 1, tree_level(b0));
        assert(tree_items(*b) =~= tree_items(b0) + shift(nest(label, c), tree_level(b0)));
    }
}

/// Adds a child `text` with no children.
fn leaf_child(b: &mut TreeBuilder, text: String)
    requires
        ready(*old(b), 1),
    ensures
        added(*old(b), *final(b), leaf(text@)),
{
    let ghost b0 = *b;
    add_empty_child(b, text);
    assert(tree_items(*b) =~= tree_items(b0) + shift(leaf(text@), tree_level(b0)));
}

/// "`" + `s` + "`"
fn quote(s: &str) -> (r: String)
    ensures
        r@ == quoted(s@),
{
    let mut t = String::from_str("`");
    t.append(s);
    t.append("`");
    t
}

// ---------------------------------------------------------------------------
// What each node adds.

pub open spec fn tree_ident(i: SIdent) -> TreeItems {
    leaf(quoted(i.name))
}

pub open spec fn number_text(n: SNumber) -> Seq<char> {
    match n {
        SNumber::Integer(v) => spec_decimal(v as nat),
        SNumber::Float(t) => t,
    }
}

pub open spec fn expr_label(e: SExpr) -> Seq<char> {
    match e {
        SExpr::Binary { .. } => "binary_op_expr"@,
        SExpr::Unary { .. } => "unary_op_expr"@,
        SExpr::Number { .. } => "number_literal"@,
        SExpr::Array { .. } => "array_initializer"@,
        SExpr::StructInit { .. } => "struct_initializer"@,
        SExpr::Str { .. } => "string_literal"@,
        SExpr::Ident { .. } => "identifier"@,
        SExpr::Call { .. } => "call_expr"@,
    }
}

pub open spec fn tree_expr(e: SExpr) -> TreeItems
    decreases e, 1nat,
{
    nest(expr_label(e), tree_expr_body(e))
}

/// The children of an expression's item.
pub open spec fn tree_expr_body(e: SExpr) -> TreeItems
    decreases e, 0nat,
{
    match e {
        SExpr::Binary { op, left, right, .. } => nest("left"@, tree_expr(*left)) + nest(
            "operator"@,
            leaf("` "@ + spec_operator_symbol(op) + " `"@),
        ) + nest("right"@, tree_expr(*right)),
        SExpr::Unary { op, expr, .. } => nest("operator"@, leaf(spec_operator_symbol(op))) + nest(
            "expression"@,
            tree_expr(*expr),
        ),
        SExpr::Number { number, .. } => leaf(quoted(number_text(number))),
        SExpr::Array { elements, .. } => nest("elements"@, tree_exprs(elements)),
        SExpr::StructInit { name, members, .. } => nest("identifier"@, tree_ident(name)) + nest(
            "members"@,
            tree_members(members),
        ),
        SExpr::Str { content, .. } => leaf(quoted(content)),
        SExpr::Ident { ident } => tree_ident(ident),
        SExpr::Call { name, params, .. } => nest("function_name"@, tree_ident(name)) + nest(
            "right"@,
            tree_exprs(params),
        ),
    }
}

pub open spec fn tree_exprs(s: Seq<SExpr>) -> TreeItems
    decreases s, 2nat,
{
    if s.len() == 0 {
        Seq::empty()
    } else {
        tree_expr(s[0]) + tree_exprs(s.drop_first())
    }
}

pub open spec fn tree_members(s: Seq<(Seq<char>, SExpr)>) -> TreeItems
    decreases s, 2nat,
{
    if s.len() == 0 {
        Seq::empty()
    } else {
        nest(s[0].0, tree_expr(s[0].1)) + tree_members(s.drop_first())
    }
}

pub open spec fn type_label(t: STypeDecl) -> Seq<char> {
    match t {
        STypeDecl::TypeIdentifier(_) => "type_identifier"@,
        STypeDecl::Array { .. } => "array_type"@,
        STypeDecl::Reference(_) => "reference_type"@,
    }
}

pub open spec fn tree_type(t: STypeDecl) -> TreeItems
    decreases t, 1nat,
{
    nest(type_label(t), tree_type_body(t))
}

/// The children of a type's item.
pub open spec fn tree_type_body(t: STypeDecl) -> TreeItems
    decreases t, 0nat,
{
    match t {
        STypeDecl::TypeIdentifier(i) => tree_ident(i),
        STypeDecl::Array { element_type, len, .. } => nest("element_type"@, tree_type(*element_type))
            + nest("length"@, leaf(spec_decimal(len as nat))),
        STypeDecl::Reference(r) => tree_type(*r),
    }
}

pub open spec fn tree_types(s: Seq<STypeDecl>) -> TreeItems
    decreases s.len(),
{
    if s.len() == 0 {
        Seq::empty()
    } else {
        tree_type(s[0]) + tree_types(s.drop_first())
    }
}

pub open spec fn tree_annotations(s: Seq<(Seq<char>, STypeDecl)>) -> TreeItems
    decreases s.len(),
{
    if s.len() == 0 {
        Seq::empty()
    } else {
        nest(s[0].0, tree_type(s[0].1)) + tree_annotations(s.drop_first())
    }
}

pub open spec fn tree_names(s: Seq<Seq<char>>) -> TreeItems
    decreases s.len(),
{
    if s.len() == 0 {
        Seq::empty()
    } else {
        leaf(quoted(s[0])) + tree_names(s.drop_first())
    }
}

/// The children of a variable prototype's item; the name stands under
/// both labels.
pub open spec fn tree_variable_prototype(identifier: SIdent) -> TreeItems {
    nest("identifier"@, tree_ident(identifier)) + nest("type"@, tree_ident(identifier))
}

pub open spec fn tree_variable(v: SVariable) -> TreeItems {
    nest("prototype"@, tree_variable_prototype(v.identifier)) + nest("value"@, tree_expr(v.value))
}

pub open spec fn stmt_label(s: SStmt) -> Seq<char> {
    match s {
        SStmt::Expressions(_) => "expr"@,
        SStmt::VariableDefinition(_) => "variable_definition"@,
        SStmt::Return(_) => "return_expr"@,
        SStmt::If { .. } => "if_statement"@,
        SStmt::ForLoop { .. } => "for_loop"@,
        SStmt::WhileLoop { .. } => "while_loop"@,
        SStmt::Void(_) => "void statement"@,
    }
}

pub open spec fn tree_stmt(s: SStmt) -> TreeItems
    decreases s, 1nat,
{
    match s {
        SStmt::Void(_) => leaf(stmt_label(s)),
        _ => nest(stmt_label(s), tree_stmt_body(s)),
    }
}

/// The children of a statement's item.
pub open spec fn tree_stmt_body(s: SStmt) -> TreeItems
    decreases s, 0nat,
{
    match s {
        SStmt::Expressions(e) => tree_expr(e),
        SStmt::VariableDefinition(v) => tree_variable(v),
        SStmt::Return(e) => tree_expr(e),
        SStmt::If { cond, then_block, else_block, .. } => nest("condition"@, tree_expr(cond)) + nest(
            "then_block"@,
            tree_block(then_block),
        ) + match else_block {
            Some(b) => nest("else_block"@, tree_block(b)),
            None => Seq::empty(),
        },
        SStmt::ForLoop { init, cond, iterate, code_block, .. } => nest(
            "condition"@,
            tree_stmt(*cond),
        ) + nest("init"@, tree_stmt(*init)) + nest("iterate"@, tree_stmt(*iterate)) + nest(
            "code_block"@,
            tree_block(code_block),
        ),
        SStmt::WhileLoop { cond, code_block, .. } => nest("condition"@, tree_expr(cond)) + nest(
            "body"@,
            tree_block(code_block),
        ),
        SStmt::Void(_) => Seq::empty(),
    }
}

pub open spec fn tree_block(b: SBlock) -> TreeItems
    decreases b, 3nat,
{
    nest("statements"@, tree_stmts(b.statements))
}

pub open spec fn tree_stmts(s: Seq<SStmt>) -> TreeItems
    decreases s, 2nat,
{
    if s.len() == 0 {
        Seq::empty()
    } else {
        tree_stmt(s[0]) + tree_stmts(s.drop_first())
    }
}

pub open spec fn tree_return_type(t: Option<STypeDecl>) -> TreeItems {
    match t {
        Some(t) => tree_type(t),
        None => leaf("void"@),
    }
}

pub open spec fn tree_prototype(p: SProto) -> TreeItems {
    nest("identifier"@, tree_ident(p.identifier)) + nest("param_types"@, tree_types(p.param_types))
        + nest("return_type"@, tree_return_type(p.return_type))
}

pub open spec fn tree_function(f: SFunction) -> TreeItems {
    nest("prototype"@, tree_prototype(f.prototype)) + nest("param_names"@, tree_names(f.param_names))
        + nest("body"@, tree_block(f.code_block))
}

pub open spec fn tree_structure(st: SStructure) -> TreeItems {
    nest("identifier"@, tree_ident(st.identifier)) + nest("members"@, tree_annotations(st.members))
}

/// The items of `s`, from the `n`-th on, each under an item that is its index.
pub open spec fn tree_indexed<A>(s: Seq<A>, n: nat, f: spec_fn(A) -> TreeItems) -> TreeItems
    decreases s.len() - n,
{
    if n >= s.len() {
        Seq::empty()
    } else {
        nest(spec_decimal(n), f(s[n as int])) + tree_indexed(s, n + 1, f)
    }
}

pub open spec fn tree_ast(a: SAst) -> TreeItems {
    nest("external functions"@, tree_indexed(a.extern_functions, 0, |p: SProto| tree_prototype(p)))
        + nest(
        "function_definitions"@,
        tree_indexed(a.function_definitions, 0, |f: SFunction| tree_function(f)),
    ) + nest(
        "globals_structures"@,
        tree_indexed(a.globals_structures, 0, |st: SStructure| tree_structure(st)),
    ) + nest(
        "globals_variables"@,
        tree_indexed(a.globals_variables, 0, |v: SVariable| tree_variable(v)),
    )
}


// ---------------------------------------------------------------------------
// Building.

impl Identifier {
    pub fn build_tree_format(&self, builder: &mut TreeBuilder)
        requires
            ready(*old(builder), 1),
        ensures
            added(*old(builder), *final(builder), tree_ident(self@)),
    {
        leaf_child(builder, quote(self.name.as_str()));
    }
}

impl NumberLiteral {
    pub fn build_tree_format(&self, builder: &mut TreeBuilder)
        requires
            ready(*old(builder), 1),
        ensures
            added(*old(builder), *final(builder), leaf(quoted(number_text(self.number@)))),
    {
        let text = match &self.number {
            Number::Integer(v) => decimal_string(*v),
            Number::Float(t) => t.clone(),
        };
        leaf_child(builder, quote(text.as_str()));
    }
}

impl StringLiteral {
    pub fn build_tree_format(&self, builder: &mut TreeBuilder)
        requires
            ready(*old(builder), 1),
        ensures
            added(*old(builder), *final(builder), leaf(quoted(self.content@))),
    {
        leaf_child(builder, quote(self.content.as_str()));
    }
}

impl BinaryOpExpression {
    pub fn build_tree_format(&self, builder: &mut TreeBuilder)
        requires
            ready(*old(builder), tree_expr_body(view_expr(Expr::BinaryOperator(*self))).len()),
        ensures
            added(
                *old(builder),
                *final(builder),
                tree_expr_body(view_expr(Expr::BinaryOperator(*self))),
            ),
        decreases self,
    {
        let ghost b0 = *builder;
        let ghost l = tree_expr(view_expr(*self.left));
        let ghost r = tree_expr(view_expr(*self.right));
        open(builder, "left");
        self.left.build_tree_format(builder);
        close(builder, Ghost(b0), Ghost("left"@), Ghost(l));
        let ghost b1 = *builder;
        open(builder, "operator");
        let mut t = String::from_str("` ");
        t.append(self.op.symbol().as_str());
        t.append(" `");
        let ghost b2 = *builder;
        leaf_child(builder, t);
        close(builder, Ghost(b1), Ghost("operator"@), Ghost(leaf(t@)));
        let ghost b3 = *builder;
        open(builder, "right");
        self.right.build_tree_format(builder);
        close(builder, Ghost(b3), Ghost("right"@), Ghost(r));
        proof {
            lemma_added_trans(b0, b1, b3, nest("left"@, l), nest("operator"@, leaf(t@)));
            lemma_added_trans(
                b0,
                b3,
                *builder,
                nest("left"@, l) + nest("operator"@, leaf(t@)),
                nest("right"@, r),
            );
        }
    }
}

impl UnaryOpExpression {
    pub fn build_tree_format(&self, builder: &mut TreeBuilder)
        requires
            ready(*old(builder), tree_expr_body(view_expr(Expr::UnaryOperator(*self))).len()),
        ensures
            added(
                *old(builder),
                *final(builder),
                tree_expr_body(view_expr(Expr::UnaryOperator(*self))),
            ),
        decreases self,
    {
        let ghost b0 = *builder;
        open(builder, "operator");
        let t = self.op.symbol();
        leaf_child(builder, t);
        close(builder, Ghost(b0), Ghost("operator"@), Ghost(leaf(t@)));
        let ghost b1 = *builder;
        let ghost e = tree_expr(view_expr(*self.expr));
        open(builder, "expression");
        self.expr.build_tree_format(builder);
        close(builder, Ghost(b1), Ghost("expression"@), Ghost(e));
        proof {
            lemma_added_trans(b0, b1, *builder, nest("operator"@, leaf(t@)), nest("expression"@, e));
        }
    }
}

/// Adds the items of each of `elements`, in order.
fn build_exprs_tree_format(elements: &Vec<Expr>, builder: &mut TreeBuilder)
    requires
        ready(*old(builder), tree_exprs(view_exprs(elements@)).len()),
    ensures
        added(*old(builder), *final(builder), tree_exprs(view_exprs(elements@))),
    decreases elements,
{
    let ghost b0 = *builder;
    let ghost vs = view_exprs(elements@);
    let ghost mut done: TreeItems = Seq::empty();
    proof {
        lemma_view_exprs_index(elements@);
        lemma_added_nothing(b0);
        assert(vs.skip(0) =~= vs);
        assert(done + tree_exprs(vs.skip(0)) =~= tree_exprs(vs));
    }
    let mut k: usize = 0;
    while k < elements.len()
        invariant
            k <= elements@.len(),
            vs == view_exprs(elements@),
            vs.len() == elements@.len(),
            forall|i: int| 0 <= i < elements@.len() ==> #[trigger] vs[i] == view_expr(elements@[i]),
            added(b0, *builder, done),
            done + tree_exprs(vs.skip(k as int)) == tree_exprs(vs),
            tree_level(b0) + tree_exprs(vs).len() <= u32::MAX,
        decreases elements@.len() - k,
    {
        let ghost mid = *builder;
        proof {
            assert(vs.skip(k as int).drop_first() =~= vs.skip(k + 1));
            assert(vs.skip(k as int)[0] == vs[k as int]);
        }
        elements[k].build_tree_format(builder);
        proof {
            lemma_added_trans(b0, mid, *builder, done, tree_expr(vs[k as int]));
            assert((done + tree_expr(vs[k as int])) + tree_exprs(vs.skip(k + 1)) =~= done
                + tree_exprs(vs.skip(k as int)));
            done = done + tree_expr(vs[k as int]);
        }
        k = k + 1;
    }
    proof {
        assert(vs.skip(k as int) =~= Seq::<SExpr>::empty());
        assert(done =~= tree_exprs(vs));
    }
}

impl ArrayInitializer {
    pub fn build_tree_format(&self, builder: &mut TreeBuilder)
        requires
            ready(*old(builder), tree_expr_body(view_expr(Expr::ArrayInitializer(*self))).len()),
        ensures
            added(
                *old(builder),
                *final(builder),
                tree_expr_body(view_expr(Expr::ArrayInitializer(*self))),
            ),
        decreases self,
    {
        let ghost b0 = *builder;
        open(builder, "elements");
        build_exprs_tree_format(&self.elements, builder);
        close(builder, Ghost(b0), Ghost("elements"@), Ghost(tree_exprs(view_exprs(self.elements@))));
    }
}

impl FunctionCall {
    pub fn build_tree_format(&self, builder: &mut TreeBuilder)
        requires
            ready(*old(builder), tree_expr_body(view_expr(Expr::CallExpression(*self))).len()),
        ensures
            added(
                *old(builder),
                *final(builder),
                tree_expr_body(view_expr(Expr::CallExpression(*self))),
            ),
        decreases self,
    {
        let ghost b0 = *builder;
        open(builder, "function_name");
        self.function_name.build_tree_format(builder);
        close(builder, Ghost(b0), Ghost("function_name"@), Ghost(tree_ident(self.function_name@)));
        let ghost b1 = *builder;
        open(builder, "right");
        build_exprs_tree_format(&self.params, builder);
        close(builder, Ghost(b1), Ghost("right"@), Ghost(tree_exprs(view_exprs(self.params@))));
        proof {
            lemma_added_trans(
                b0,
                b1,
                *builder,
                nest("function_name"@, tree_ident(self.function_name@)),
                nest("right"@, tree_exprs(view_exprs(self.params@))),
            );
        }
    }
}

impl StructureInitializer {
    pub fn build_tree_format(&self, builder: &mut TreeBuilder)
        requires
            ready(
                *old(builder),
                tree_expr_body(view_expr(Expr::StructureInitializer(*self))).len(),
            ),
        ensures
            added(
                *old(builder),
                *final(builder),
                tree_expr_body(view_expr(Expr::StructureInitializer(*self))),
            ),
        decreases self,
    {
        let ghost b0 = *builder;
        open(builder, "identifier");
        self.structure_name.build_tree_format(builder);
        close(builder, Ghost(b0), Ghost("identifier"@), Ghost(tree_ident(self.structure_name@)));
        let ghost b1 = *builder;
        open(builder, "members");
        let ghost b2 = *builder;
        let ghost vs = view_members(self.member_initial_values@);
        let ghost mut done: TreeItems = Seq::empty();
        proof {
            lemma_view_members_index(self.member_initial_values@);
            lemma_added_nothing(b2);
            assert(vs.skip(0) =~= vs);
            assert(done + tree_members(vs.skip(0)) =~= tree_members(vs));
        }
        let mut k: usize = 0;
        while k < self.member_initial_values.len()
            invariant
                k <= self.member_initial_values@.len(),
                vs == view_members(self.member_initial_values@),
                vs.len() == self.member_initial_values@.len(),
                forall|i: int|
                    0 <= i < self.member_initial_values@.len() ==> #[trigger] vs[i] == (
                        self.member_initial_values@[i].0@,
                        view_expr(*self.member_initial_values@[i].1),
                    ),
                added(b2, *builder, done),
                done + tree_members(vs.skip(k as int)) == tree_members(vs),
                tree_level(b2) + tree_members(vs).len() <= u32::MAX,
            decreases self.member_initial_values@.len() - k,
        {
            let ghost mid = *builder;
            proof {
                assert(vs.skip(k as int).drop_first() =~= vs.skip(k + 1));
                assert(vs.skip(k as int)[0] == vs[k as int]);
            }
            let (member_name, value) = &self.member_initial_values[k];
            open(builder, member_name.as_str());
            value.build_tree_format(builder);
            close(
                builder,
                Ghost(mid),
                Ghost(member_name@),
                Ghost(tree_expr(view_expr(**value))),
            );
            proof {
                lemma_added_trans(
                    b2,
                    mid,
                    *builder,
                    done,
                    nest(vs[k as int].0, tree_expr(vs[k as int].1)),
                );
                assert((done + nest(vs[k as int].0, tree_expr(vs[k as int].1))) + tree_members(
                    vs.skip(k + 1),
                ) =~= done + tree_members(vs.skip(k as int)));
                done = done + nest(vs[k as int].0, tree_expr(vs[k as int].1));
            }
            k = k + 1;
        }
        proof {
            assert(vs.skip(k as int) =~= Seq::<(Seq<char>, SExpr)>::empty());
            assert(done =~= tree_members(vs));
        }
        close(builder, Ghost(b1), Ghost("members"@), Ghost(tree_members(vs)));
        proof {
            lemma_added_trans(
                b0,
                b1,
                *builder,
                nest("identifier"@, tree_ident(self.structure_name@)),
                nest("members"@, tree_members(vs)),
            );
        }
    }
}

impl Expr {
    pub fn build_tree_format(&self, builder: &mut TreeBuilder)
        requires
            ready(*old(builder), tree_expr(self@).len()),
        ensures
            added(*old(builder), *final(builder), tree_expr(self@)),
        decreases self,
    {
        let ghost b0 = *builder;
        match self {
            Expr::BinaryOperator(e) => {
                open(builder, "binary_op_expr");
                e.build_tree_format(builder);
            },
            Expr::UnaryOperator(e) => {
                open(builder, "unary_op_expr");
                e.build_tree_format(builder);
            },
            Expr::NumberLiteral(e) => {
                open(builder, "number_literal");
                e.build_tree_format(builder);
            },
            Expr::ArrayInitializer(e) => {
                open(builder, "array_initializer");
                e.build_tree_format(builder);
            },
            Expr::StructureInitializer(e) => {
                open(builder, "struct_initializer");
                e.build_tree_format(builder);
            },
            Expr::StringLiteral(e) => {
                open(builder, "string_literal");
                e.build_tree_format(builder);
            },
            Expr::Identifier(e) => {
                open(builder, "identifier");
                e.build_tree_format(builder);
            },
            Expr::CallExpression(e) => {
                open(builder, "call_expr");
                e.build_tree_format(builder);
            },
        }
        close(builder, Ghost(b0), Ghost(expr_label(self@)), Ghost(tree_expr_body(self@)));
    }
}

impl ArrayDeclarator {
    pub fn build_tree_format(&self, builder: &mut TreeBuilder)
        requires
            ready(*old(builder), tree_type_body(view_type(TypeDeclarator::Array(Box::new(*self)))).len()),
        ensures
            added(
                *old(builder),
                *final(builder),
                tree_type_body(view_type(TypeDeclarator::Array(Box::new(*self)))),
            ),
        decreases self,
    {
        let ghost b0 = *builder;
        let ghost e = tree_type(view_type(self.element_type));
        open(builder, "element_type");
        self.element_type.build_tree_format(builder);
        close(builder, Ghost(b0), Ghost("element_type"@), Ghost(e));
        let ghost b1 = *builder;
        open(builder, "length");
        let t = decimal_string(self.len as u64);
        leaf_child(builder, t);
        close(builder, Ghost(b1), Ghost("length"@), Ghost(leaf(t@)));
        proof {
            lemma_added_trans(b0, b1, *builder, nest("element_type"@, e), nest("length"@, leaf(t@)));
        }
    }
}

impl TypeDeclarator {
    pub fn build_tree_format(&self, builder: &mut TreeBuilder)
        requires
            ready(*old(builder), tree_type(self@).len()),
        ensures
            added(*old(builder), *final(builder), tree_type(self@)),
        decreases self,
    {
        let ghost b0 = *builder;
        match self {
            TypeDeclarator::TypeIdentifier(t) => {
                open(builder, "type_identifier");
                t.build_tree_format(builder);
            },
            TypeDeclarator::Array(t) => {
                open(builder, "array_type");
                (**t).build_tree_format(builder);
            },
            TypeDeclarator::Reference(t) => {
                open(builder, "reference_type");
                (**t).build_tree_format(builder);
            },
        }
        close(builder, Ghost(b0), Ghost(type_label(self@)), Ghost(tree_type_body(self@)));
    }
}

impl VariablePrototype {
    pub fn build_tree_format(&self, builder: &mut TreeBuilder)
        requires
            ready(*old(builder), tree_variable_prototype(self.identifier@).len()),
        ensures
            added(*old(builder), *final(builder), tree_variable_prototype(self.identifier@)),
    {
        let ghost b0 = *builder;
        let ghost i = tree_ident(self.identifier@);
        open(builder, "identifier");
        self.identifier.build_tree_format(builder);
        close(builder, Ghost(b0), Ghost("identifier"@), Ghost(i));
        let ghost b1 = *builder;
        open(builder, "type");
        self.identifier.build_tree_format(builder);
        close(builder, Ghost(b1), Ghost("type"@), Ghost(i));
        proof {
            lemma_added_trans(b0, b1, *builder, nest("identifier"@, i), nest("type"@, i));
        }
    }
}

impl Variable {
    pub fn build_tree_format(&self, builder: &mut TreeBuilder)
        requires
            ready(*old(builder), tree_variable(self@).len()),
        ensures
            added(*old(builder), *final(builder), tree_variable(self@)),
        decreases self,
    {
        let ghost b0 = *builder;
        let ghost p = tree_variable_prototype(self.prototype.identifier@);
        let ghost v = tree_expr(view_expr(*self.value));
        open(builder, "prototype");
        self.prototype.build_tree_format(builder);
        close(builder, Ghost(b0), Ghost("prototype"@), Ghost(p));
        let ghost b1 = *builder;
        open(builder, "value");
        self.value.build_tree_format(builder);
        close(builder, Ghost(b1), Ghost("value"@), Ghost(v));
        proof {
            lemma_added_trans(b0, b1, *builder, nest("prototype"@, p), nest("value"@, v));
        }
    }
}

/// Adds the items of each of `statements`, in order.
fn build_stmts_tree_format(statements: &Vec<Statement>, builder: &mut TreeBuilder)
    requires
        ready(*old(builder), tree_stmts(view_stmts(statements@)).len()),
    ensures
        added(*old(builder), *final(builder), tree_stmts(view_stmts(statements@))),
    decreases statements,
{
    let ghost b0 = *builder;
    let ghost vs = view_stmts(statements@);
    let ghost mut done: TreeItems = Seq::empty();
    proof {
        lemma_view_stmts_index(statements@);
        lemma_added_nothing(b0);
        assert(vs.skip(0) =~= vs);
        assert(done + tree_stmts(vs.skip(0)) =~= tree_stmts(vs));
    }
    let mut k: usize = 0;
    while k < statements.len()
        invariant
            k <= statements@.len(),
            vs == view_stmts(statements@),
            vs.len() == statements@.len(),
            forall|i: int| 0 <= i < statements@.len() ==> #[trigger] vs[i] == view_stmt(statements@[i]),
            added(b0, *builder, done),
            done + tree_stmts(vs.skip(k as int)) == tree_stmts(vs),
            tree_level(b0) + tree_stmts(vs).len() <= u32::MAX,
        decreases statements@.len() - k,
    {
        let ghost mid = *builder;
        proof {
            assert(vs.skip(k as int).drop_first() =~= vs.skip(k + 1));
            assert(vs.skip(k as int)[0] == vs[k as int]);
        }
        statements[k].build_tree_format(builder);
        proof {
            lemma_added_trans(b0, mid, *builder, done, tree_stmt(vs[k as int]));
            assert((done + tree_stmt(vs[k as int])) + tree_stmts(vs.skip(k + 1)) =~= done
                + tree_stmts(vs.skip(k as int)));
            done = done + tree_stmt(vs[k as int]);
        }
        k = k + 1;
    }
    proof {
        assert(vs.skip(k as int) =~= Seq::<SStmt>::empty());
        assert(done =~= tree_stmts(vs));
    }
}

impl CodeBlock {
    pub fn build_tree_format(&self, builder: &mut TreeBuilder)
        requires
            ready(*old(builder), tree_block(self@).len()),
        ensures
            added(*old(builder), *final(builder), tree_block(self@)),
        decreases self,
    {
        let ghost b0 = *builder;
        open(builder, "statements");
        build_stmts_tree_format(&self.statements, builder);
        close(
            builder,
            Ghost(b0),
            Ghost("statements"@),
            Ghost(tree_stmts(view_stmts(self.statements@))),
        );
    }
}

impl IfStatement {
    pub fn build_tree_format(&self, builder: &mut TreeBuilder)
        requires
            ready(*old(builder), tree_stmt_body(view_stmt(Statement::If(*self))).len()),
        ensures
            added(*old(builder), *final(builder), tree_stmt_body(view_stmt(Statement::If(*self)))),
        decreases self,
    {
        let ghost b0 = *builder;
        let ghost c = tree_expr(view_expr(*self.cond));
        let ghost t = tree_block(view_block(self.then_block));
        open(builder, "condition");
        self.cond.build_tree_format(builder);
        close(builder, Ghost(b0), Ghost("condition"@), Ghost(c));
        let ghost b1 = *builder;
        open(builder, "then_block");
        self.then_block.build_tree_format(builder);
        close(builder, Ghost(b1), Ghost("then_block"@), Ghost(t));
        proof {
            lemma_added_trans(b0, b1, *builder, nest("condition"@, c), nest("then_block"@, t));
        }
        let ghost b2 = *builder;
        if let Some(else_block) = &self.else_block {
            let ghost e = tree_block(view_block(*else_block));
            open(builder, "else_block");
            else_block.build_tree_format(builder);
            close(builder, Ghost(b2), Ghost("else_block"@), Ghost(e));
            proof {
                lemma_added_trans(
                    b0,
                    b2,
                    *builder,
                    nest("condition"@, c) + nest("then_block"@, t),
                    nest("else_block"@, e),
                );
            }
        } else {
            proof {
                assert(nest("condition"@, c) + nest("then_block"@, t) =~= nest("condition"@, c)
                    + nest("then_block"@, t) + Seq::<(nat, Seq<char>)>::empty());
            }
        }
    }
}

impl WhileLoop {
    pub fn build_tree_format(&self, builder: &mut TreeBuilder)
        requires
            ready(*old(builder), tree_stmt_body(view_stmt(Statement::WhileLoop(*self))).len()),
        ensures
            added(
                *old(builder),
                *final(builder),
                tree_stmt_body(view_stmt(Statement::WhileLoop(*self))),
            ),
        decreases self,
    {
        let ghost b0 = *builder;
        let ghost c = tree_expr(view_expr(*self.condition));
        let ghost t = tree_block(view_block(self.code_block));
        open(builder, "condition");
        self.condition.build_tree_format(builder);
        close(builder, Ghost(b0), Ghost("condition"@), Ghost(c));
        let ghost b1 = *builder;
        open(builder, "body");
        self.code_block.build_tree_format(builder);
        close(builder, Ghost(b1), Ghost("body"@), Ghost(t));
        proof {
            lemma_added_trans(b0, b1, *builder, nest("condition"@, c), nest("body"@, t));
        }
    }
}

impl ForLoop {
    pub fn build_tree_format(&self, builder: &mut TreeBuilder)
        requires
            ready(*old(builder), tree_stmt_body(view_stmt(Statement::ForLoop(*self))).len()),
        ensures
            added(
                *old(builder),
                *final(builder),
                tree_stmt_body(view_stmt(Statement::ForLoop(*self))),
            ),
        decreases self,
    {
        let ghost b0 = *builder;
        let ghost c = tree_stmt(view_stmt(*self.condition));
        let ghost i = tree_stmt(view_stmt(*self.init_statement));
        let ghost it = tree_stmt(view_stmt(*self.iterate));
        let ghost body = tree_block(view_block(self.code_block));
        open(builder, "condition");
        self.condition.build_tree_format(builder);
        close(builder, Ghost(b0), Ghost("condition"@), Ghost(c));
        let ghost b1 = *builder;
        open(builder, "init");
        self.init_statement.build_tree_format(builder);
        close(builder, Ghost(b1), Ghost("init"@), Ghost(i));
        let ghost b2 = *builder;
        open(builder, "iterate");
        self.iterate.build_tree_format(builder);
        close(builder, Ghost(b2), Ghost("iterate"@), Ghost(it));
        let ghost b3 = *builder;
        open(builder, "code_block");
        self.code_block.build_tree_format(builder);
        close(builder, Ghost(b3), Ghost("code_block"@), Ghost(body));
        proof {
            let x1 = nest("condition"@, c);
            let x2 = nest("init"@, i);
            let x3 = nest("iterate"@, it);
            let x4 = nest("code_block"@, body);
            lemma_added_trans(b0, b1, b2, x1, x2);
            lemma_added_trans(b0, b2, b3, x1 + x2, x3);
            lemma_added_trans(b0, b3, *builder, x1 + x2 + x3, x4);
        }
    }
}

impl Statement {
    pub fn build_tree_format(&self, builder: &mut TreeBuilder)
        requires
            ready(*old(builder), tree_stmt(self@).len()),
        ensures
            added(*old(builder), *final(builder), tree_stmt(self@)),
        decreases self,
    {
        let ghost b0 = *builder;
        match self {
            Statement::Void(_) => {
                leaf_child(builder, String::from_str("void statement"));
                return;
            },
            Statement::Expressions(s) => {
                open(builder, "expr");
                (**s).build_tree_format(builder);
            },
            Statement::VariableDefinition(s) => {
                open(builder, "variable_definition");
                s.build_tree_format(builder);
            },
            Statement::Return(s) => {
                open(builder, "return_expr");
                (**s).build_tree_format(builder);
            },
            Statement::If(s) => {
                open(builder, "if_statement");
                s.build_tree_format(builder);
            },
            Statement::ForLoop(s) => {
                open(builder, "for_loop");
                s.build_tree_format(builder);
            },
            Statement::WhileLoop(s) => {
                open(builder, "while_loop");
                s.build_tree_format(builder);
            },
        }
        close(builder, Ghost(b0), Ghost(stmt_label(self@)), Ghost(tree_stmt_body(self@)));
    }
}

/// Adds the items of each of `types`, in order.
fn build_types_tree_format(types: &Vec<TypeDeclarator>, builder: &mut TreeBuilder)
    requires
        ready(*old(builder), tree_types(view_types(types@)).len()),
    ensures
        added(*old(builder), *final(builder), tree_types(view_types(types@))),
{
    let ghost b0 = *builder;
    let ghost vs = view_types(types@);
    let ghost mut done: TreeItems = Seq::empty();
    proof {
        lemma_added_nothing(b0);
        assert(vs.skip(0) =~= vs);
        assert(done + tree_types(vs.skip(0)) =~= tree_types(vs));
    }
    let mut k: usize = 0;
    while k < types.len()
        invariant
            k <= types@.len(),
            vs == view_types(types@),
            vs.len() == types@.len(),
            added(b0, *builder, done),
            done + tree_types(vs.skip(k as int)) == tree_types(vs),
            tree_level(b0) + tree_types(vs).len() <= u32::MAX,
        decreases types@.len() - k,
    {
        let ghost mid = *builder;
        proof {
            assert(vs.skip(k as int).drop_first() =~= vs.skip(k + 1));
            assert(vs.skip(k as int)[0] == vs[k as int]);
        }
        types[k].build_tree_format(builder);
        proof {
            lemma_added_trans(b0, mid, *builder, done, tree_type(vs[k as int]));
            assert((done + tree_type(vs[k as int])) + tree_types(vs.skip(k + 1)) =~= done
                + tree_types(vs.skip(k as int)));
            done = done + tree_type(vs[k as int]);
        }
        k = k + 1;
    }
    proof {
        assert(vs.skip(k as int) =~= Seq::<STypeDecl>::empty());
        assert(done =~= tree_types(vs));
    }
}

impl FunctionPrototype {
    pub fn build_tree_format(&self, builder: &mut TreeBuilder)
        requires
            ready(*old(builder), tree_prototype(self@).len()),
        ensures
            added(*old(builder), *final(builder), tree_prototype(self@)),
    {
        let ghost b0 = *builder;
        let ghost i = tree_ident(self.identifier@);
        let ghost ts = tree_types(view_types(self.param_types@));
        let ghost r = tree_return_type(self@.return_type);
        open(builder, "identifier");
        self.identifier.build_tree_format(builder);
        close(builder, Ghost(b0), Ghost("identifier"@), Ghost(i));
        let ghost b1 = *builder;
        open(builder, "param_types");
        build_types_tree_format(&self.param_types, builder);
        close(builder, Ghost(b1), Ghost("param_types"@), Ghost(ts));
        let ghost b2 = *builder;
        open(builder, "return_type");
        match &self.return_type {
            Some(ret) => {
                ret.build_tree_format(builder);
            },
            None => {
                leaf_child(builder, String::from_str("void"));
            },
        }
        close(builder, Ghost(b2), Ghost("return_type"@), Ghost(r));
        proof {
            lemma_added_trans(b0, b1, b2, nest("identifier"@, i), nest("param_types"@, ts));
            lemma_added_trans(
                b0,
                b2,
                *builder,
                nest("identifier"@, i) + nest("param_types"@, ts),
                nest("return_type"@, r),
            );
        }
    }
}

impl FunctionDefinition {
    pub fn build_tree_format(&self, builder: &mut TreeBuilder)
        requires
            ready(*old(builder), tree_function(self@).len()),
        ensures
            added(*old(builder), *final(builder), tree_function(self@)),
    {
        let ghost b0 = *builder;
        let ghost p = tree_prototype(self.prototype@);
        let ghost names = view_strings(self.param_names@);
        let ghost ns = tree_names(names);
        let ghost body = tree_block(view_block(self.code_block));
        open(builder, "prototype");
        self.prototype.build_tree_format(builder);
        close(builder, Ghost(b0), Ghost("prototype"@), Ghost(p));
        let ghost b1 = *builder;
        open(builder, "param_names");
        let ghost b2 = *builder;
        let ghost mut done: TreeItems = Seq::empty();
        proof {
            lemma_added_nothing(b2);
            assert(names.skip(0) =~= names);
            assert(done + tree_names(names.skip(0)) =~= ns);
        }
        let mut k: usize = 0;
        while k < self.param_names.len()
            invariant
                k <= self.param_names@.len(),
                names == view_strings(self.param_names@),
                names.len() == self.param_names@.len(),
                ns == tree_names(names),
                added(b2, *builder, done),
                done + tree_names(names.skip(k as int)) == ns,
                tree_level(b2) + ns.len() <= u32::MAX,
            decreases self.param_names@.len() - k,
        {
            let ghost mid = *builder;
            proof {
                assert(names.skip(k as int).drop_first() =~= names.skip(k + 1));
                assert(names.skip(k as int)[0] == names[k as int]);
            }
            leaf_child(builder, quote(self.param_names[k].as_str()));
            proof {
                lemma_added_trans(b2, mid, *builder, done, leaf(quoted(names[k as int])));
                assert((done + leaf(quoted(names[k as int]))) + tree_names(names.skip(k + 1))
                    =~= done + tree_names(names.skip(k as int)));
                done = done + leaf(quoted(names[k as int]));
            }
            k = k + 1;
        }
        proof {
            assert(names.skip(k as int) =~= Seq::<Seq<char>>::empty());
            assert(done =~= ns);
        }
        close(builder, Ghost(b1), Ghost("param_names"@), Ghost(ns));
        let ghost b3 = *builder;
        open(builder, "body");
        self.code_block.build_tree_format(builder);
        close(builder, Ghost(b3), Ghost("body"@), Ghost(body));
        proof {
            lemma_added_trans(b0, b1, b3, nest("prototype"@, p), nest("param_names"@, ns));
            lemma_added_trans(
                b0,
                b3,
                *builder,
                nest("prototype"@, p) + nest("param_names"@, ns),
                nest("body"@, body),
            );
        }
    }
}

impl Structure {
    pub fn build_tree_format(&self, builder: &mut TreeBuilder)
        requires
            ready(*old(builder), tree_structure(self@).len()),
        ensures
            added(*old(builder), *final(builder), tree_structure(self@)),
    {
        let ghost b0 = *builder;
        let ghost i = tree_ident(self.identifier@);
        let ghost vs = view_annotations(self.members@);
        let ghost ms = tree_annotations(vs);
        open(builder, "identifier");
        self.identifier.build_tree_format(builder);
        close(builder, Ghost(b0), Ghost("identifier"@), Ghost(i));
        let ghost b1 = *builder;
        open(builder, "members");
        let ghost b2 = *builder;
        let ghost mut done: TreeItems = Seq::empty();
        proof {
            lemma_added_nothing(b2);
            assert(vs.skip(0) =~= vs);
            assert(done + tree_annotations(vs.skip(0)) =~= ms);
        }
        let mut k: usize = 0;
        while k < self.members.len()
            invariant
                k <= self.members@.len(),
                vs == view_annotations(self.members@),
                vs.len() == self.members@.len(),
                ms == tree_annotations(vs),
                added(b2, *builder, done),
                done + tree_annotations(vs.skip(k as int)) == ms,
                tree_level(b2) + ms.len() <= u32::MAX,
            decreases self.members@.len() - k,
        {
            let ghost mid = *builder;
            proof {
                assert(vs.skip(k as int).drop_first() =~= vs.skip(k + 1));
                assert(vs.skip(k as int)[0] == vs[k as int]);
            }
            let (member_name, member_type) = &self.members[k];
            open(builder, member_name.as_str());
            member_type.build_tree_format(builder);
            close(builder, Ghost(mid), Ghost(member_name@), Ghost(tree_type(view_type(*member_type))));
            proof {
                lemma_added_trans(
                    b2,
                    mid,
                    *builder,
                    done,
                    nest(vs[k as int].0, tree_type(vs[k as int].1)),
                );
                assert((done + nest(vs[k as int].0, tree_type(vs[k as int].1))) + tree_annotations(
                    vs.skip(k + 1),
                ) =~= done + tree_annotations(vs.skip(k as int)));
                done = done + nest(vs[k as int].0, tree_type(vs[k as int].1));
            }
            k = k + 1;
        }
        proof {
            assert(vs.skip(k as int) =~= Seq::<(Seq<char>, STypeDecl)>::empty());
            assert(done =~= ms);
        }
        close(builder, Ghost(b1), Ghost("members"@), Ghost(ms));
        proof {
            lemma_added_trans(b0, b1, *builder, nest("identifier"@, i), nest("members"@, ms));
        }
    }
}

/// Adds the external function declarations, each under its index.
fn build_protos(items: &Vec<FunctionPrototype>, builder: &mut TreeBuilder)
    requires
        ready(*old(builder), tree_indexed(items@.map_values(|p: FunctionPrototype| p@), 0, |p: SProto| tree_prototype(p)).len()),
    ensures
        added(*old(builder), *final(builder), tree_indexed(items@.map_values(|p: FunctionPrototype| p@), 0, |p: SProto| tree_prototype(p))),
{
    let ghost b0 = *builder;
    let ghost f = |p: SProto| tree_prototype(p);
    let ghost vs = items@.map_values(|p: FunctionPrototype| p@);
    let ghost all = tree_indexed(vs, 0, f);
    let ghost mut done: TreeItems = Seq::empty();
    proof {
        lemma_added_nothing(b0);
        assert(done + tree_indexed(vs, 0, f) =~= all);
    }
    let mut k: usize = 0;
    while k < items.len()
        invariant
            k <= items@.len(),
            vs == items@.map_values(|p: FunctionPrototype| p@),
            f == (|p: SProto| tree_prototype(p)),
            all == tree_indexed(vs, 0, f),
            added(b0, *builder, done),
            done + tree_indexed(vs, k as nat, f) == all,
            tree_level(b0) + all.len() <= u32::MAX,
        decreases items@.len() - k,
    {
        let ghost mid = *builder;
        let ghost item = nest(spec_decimal(k as nat), f(vs[k as int]));
        open(builder, decimal_string(k as u64).as_str());
        items[k].build_tree_format(builder);
        close(builder, Ghost(mid), Ghost(spec_decimal(k as nat)), Ghost(f(vs[k as int])));
        proof {
            lemma_added_trans(b0, mid, *builder, done, item);
            assert((done + item) + tree_indexed(vs, (k + 1) as nat, f) =~= done + tree_indexed(vs, k as nat, f));
            done = done + item;
        }
        k = k + 1;
    }
    proof {
        assert(done =~= all);
    }
}

/// Adds the function definitions, each under its index.
fn build_functions(items: &Vec<FunctionDefinition>, builder: &mut TreeBuilder)
    requires
        ready(*old(builder), tree_indexed(items@.map_values(|p: FunctionDefinition| p@), 0, |p: SFunction| tree_function(p)).len()),
    ensures
        added(*old(builder), *final(builder), tree_indexed(items@.map_values(|p: FunctionDefinition| p@), 0, |p: SFunction| tree_function(p))),
{
    let ghost b0 = *builder;
    let ghost f = |p: SFunction| tree_function(p);
    let ghost vs = items@.map_values(|p: FunctionDefinition| p@);
    let ghost all = tree_indexed(vs, 0, f);
    let ghost mut done: TreeItems = Seq::empty();
    proof {
        lemma_added_nothing(b0);
        assert(done + tree_indexed(vs, 0, f) =~= all);
    }
    let mut k: usize = 0;
    while k < items.len()
        invariant
            k <= items@.len(),
            vs == items@.map_values(|p: FunctionDefinition| p@),
            f == (|p: SFunction| tree_function(p)),
            all == tree_indexed(vs, 0, f),
            added(b0, *builder, done),
            done + tree_indexed(vs, k as nat, f) == all,
            tree_level(b0) + all.len() <= u32::MAX,
        decreases items@.len() - k,
    {
        let ghost mid = *builder;
        let ghost item = nest(spec_decimal(k as nat), f(vs[k as int]));
        open(builder, decimal_string(k as u64).as_str());
        items[k].build_tree_format(builder);
        close(builder, Ghost(mid), Ghost(spec_decimal(k as nat)), Ghost(f(vs[k as int])));
        proof {
            lemma_added_trans(b0, mid, *builder, done, item);
            assert((done + item) + tree_indexed(vs, (k + 1) as nat, f) =~= done + tree_indexed(vs, k as nat, f));
            done = done + item;
        }
        k = k + 1;
    }
    proof {
        assert(done =~= all);
    }
}

/// Adds the structure declarations, each under its index.
fn build_structures(items: &Vec<Structure>, builder: &mut TreeBuilder)
    requires
        ready(*old(builder), tree_indexed(items@.map_values(|p: Structure| p@), 0, |p: SStructure| tree_structure(p)).len()),
    ensures
        added(*old(builder), *final(builder), tree_indexed(items@.map_values(|p: Structure| p@), 0, |p: SStructure| tree_structure(p))),
{
    let ghost b0 = *builder;
    let ghost f = |p: SStructure| tree_structure(p);
    let ghost vs = items@.map_values(|p: Structure| p@);
    let ghost all = tree_indexed(vs, 0, f);
    let ghost mut done: TreeItems = Seq::empty();
    proof {
        lemma_added_nothing(b0);
        assert(done + tree_indexed(vs, 0, f) =~= all);
    }
    let mut k: usize = 0;
    while k < items.len()
        invariant
            k <= items@.len(),
            vs == items@.map_values(|p: Structure| p@),
            f == (|p: SStructure| tree_structure(p)),
            all == tree_indexed(vs, 0, f),
            added(b0, *builder, done),
            done + tree_indexed(vs, k as nat, f) == all,
            tree_level(b0) + all.len() <= u32::MAX,
        decreases items@.len() - k,
    {
        let ghost mid = *builder;
        let ghost item = nest(spec_decimal(k as nat), f(vs[k as int]));
        open(builder, decimal_string(k as u64).as_str());
        items[k].build_tree_format(builder);
        close(builder, Ghost(mid), Ghost(spec_decimal(k as nat)), Ghost(f(vs[k as int])));
        proof {
            lemma_added_trans(b0, mid, *builder, done, item);
            assert((done + item) + tree_indexed(vs, (k + 1) as nat, f) =~= done + tree_indexed(vs, k as nat, f));
            done = done + item;
        }
        k = k + 1;
    }
    proof {
        assert(done =~= all);
    }
}

/// Adds the global variables, each under its index.
fn build_variables(items: &Vec<Variable>, builder: &mut TreeBuilder)
    requires
        ready(*old(builder), tree_indexed(items@.map_values(|p: Variable| p@), 0, |p: SVariable| tree_variable(p)).len()),
    ensures
        added(*old(builder), *final(builder), tree_indexed(items@.map_values(|p: Variable| p@), 0, |p: SVariable| tree_variable(p))),
{
    let ghost b0 = *builder;
    let ghost f = |p: SVariable| tree_variable(p);
    let ghost vs = items@.map_values(|p: Variable| p@);
    let ghost all = tree_indexed(vs, 0, f);
    let ghost mut done: TreeItems = Seq::empty();
    proof {
        lemma_added_nothing(b0);
        assert(done + tree_indexed(vs, 0, f) =~= all);
    }
    let mut k: usize = 0;
    while k < items.len()
        invariant
            k <= items@.len(),
            vs == items@.map_values(|p: Variable| p@),
            f == (|p: SVariable| tree_variable(p)),
            all == tree_indexed(vs, 0, f),
            added(b0, *builder, done),
            done + tree_indexed(vs, k as nat, f) == all,
            tree_level(b0) + all.len() <= u32::MAX,
        decreases items@.len() - k,
    {
        let ghost mid = *builder;
        let ghost item = nest(spec_decimal(k as nat), f(vs[k as int]));
        open(builder, decimal_string(k as u64).as_str());
        items[k].build_tree_format(builder);
        close(builder, Ghost(mid), Ghost(spec_decimal(k as nat)), Ghost(f(vs[k as int])));
        proof {
            lemma_added_trans(b0, mid, *builder, done, item);
            assert((done + item) + tree_indexed(vs, (k + 1) as nat, f) =~= done + tree_indexed(vs, k as nat, f));
            done = done + item;
        }
        k = k + 1;
    }
    proof {
        assert(done =~= all);
    }
}

impl Ast {
    /// The tree of the program under a root item `root`: four items, for
    /// the external functions, the function definitions, the structures and
    /// the global variables, each with an item per declaration that is its
    /// index. The depth of a ptree builder is a `u32`.
    pub fn tree_with_root_name(&self, root: String) -> (b: TreeBuilder)
        requires
            tree_ast(self@).len() < u32::MAX,
        ensures
            tree_items(b) == seq![(0nat, root@)] + tree_ast(self@),
            tree_level(b) == 0,
    {
        let mut builder = tree_builder_new(root);
        let ghost b0 = builder;
        let ghost a = self@;
        let ghost x1 = nest("external functions"@, tree_indexed(a.extern_functions, 0, |p: SProto| tree_prototype(p)));
        let ghost x2 = nest("function_definitions"@, tree_indexed(a.function_definitions, 0, |f: SFunction| tree_function(f)));
        let ghost x3 = nest("globals_structures"@, tree_indexed(a.globals_structures, 0, |st: SStructure| tree_structure(st)));
        let ghost x4 = nest("globals_variables"@, tree_indexed(a.globals_variables, 0, |v: SVariable| tree_variable(v)));
        assert(tree_ast(a) == x1 + x2 + x3 + x4);
        open(&mut builder, "external functions");
        build_protos(&self.extern_functions, &mut builder);
        close(&mut builder, Ghost(b0), Ghost("external functions"@), Ghost(tree_indexed(a.extern_functions, 0, |p: SProto| tree_prototype(p))));
        let ghost b1 = builder;
        open(&mut builder, "function_definitions");
        build_functions(&self.function_definitions, &mut builder);
        close(&mut builder, Ghost(b1), Ghost("function_definitions"@), Ghost(tree_indexed(a.function_definitions, 0, |f: SFunction| tree_function(f))));
        let ghost b2 = builder;
        open(&mut builder, "globals_structures");
        build_structures(&self.globals_structures, &mut builder);
        close(&mut builder, Ghost(b2), Ghost("globals_structures"@), Ghost(tree_indexed(a.globals_structures, 0, |st: SStructure| tree_structure(st))));
        let ghost b3 = builder;
        open(&mut builder, "globals_variables");
        build_variables(&self.globals_variables, &mut builder);
        close(&mut builder, Ghost(b3), Ghost("globals_variables"@), Ghost(tree_indexed(a.globals_variables, 0, |v: SVariable| tree_variable(v))));
        proof {
            lemma_added_trans(b0, b1, b2, x1, x2);
            lemma_added_trans(b0, b2, b3, x1 + x2, x3);
            lemma_added_trans(b0, b3, builder, x1 + x2 + x3, x4);
            assert(shift(tree_ast(a), 0) =~= tree_ast(a));
        }
        builder
    }
}

} // verus!
