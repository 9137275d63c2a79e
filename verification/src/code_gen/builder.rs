//! The decisions of the first code generator, which built integer code
//! only: the instruction of each binary operator, the variable that an
//! assignment stores into, and the walk through a block, with its scope and
//! whether it ends in a return.
use vstd::prelude::*;

use crate::ast::nodes::{
    lemma_view_stmts_index, view_expr, view_stmt, view_stmts, Expr, SExpr, SStmt, Statement,
};
use crate::code_gen::symbol_table::CompilerContext;
use crate::error::{CompileError, SCompileError};
use crate::code_generator::le_type::{
    signed_instruction_value, truncated_div, IntInstruction, IntPredicate,
};
use crate::lexer::Operator;

verus! {

/// What a binary operator is built as: an integer instruction, or a store
/// into the variable on its left.
#[derive(Debug, Clone, Copy, PartialEq, Eq, Structural)]
pub enum ModuleInstruction {
    Integer(IntInstruction),
    Store,
}

/// The operators this generator builds: arithmetic, assignment and
/// comparison.
pub open spec fn is_module_operator(op: Operator) -> bool {
    op == Operator::Plus || op == Operator::Sub || op == Operator::Mul || op == Operator::Div
        || op == Operator::Assign || op == Operator::Equal || op == Operator::GreaterThan
        || op == Operator::LessThan || op == Operator::GreaterOrEqualThan || op
        == Operator::LessOrEqualThan
}

pub open spec fn spec_module_instruction(op: Operator) -> ModuleInstruction {
    match op {
        Operator::Plus => ModuleInstruction::Integer(IntInstruction::Add),
        Operator::Sub => ModuleInstruction::Integer(IntInstruction::Sub),
        Operator::Mul => ModuleInstruction::Integer(IntInstruction::Mul),
        Operator::Div => ModuleInstruction::Integer(IntInstruction::SignedDiv),
        Operator::Assign => ModuleInstruction::Store,
        Operator::Equal => ModuleInstruction::Integer(IntInstruction::Compare(IntPredicate::EQ)),
        Operator::GreaterThan => ModuleInstruction::Integer(IntInstruction::Compare(IntPredicate::SGT)),
        Operator::LessThan => ModuleInstruction::Integer(IntInstruction::Compare(IntPredicate::SLT)),
        Operator::GreaterOrEqualThan => ModuleInstruction::Integer(
            IntInstruction::Compare(IntPredicate::SGE),
        ),
        _ => ModuleInstruction::Integer(IntInstruction::Compare(IntPredicate::SLE)),
    }
}

/// The instruction of a binary operator: all integers are taken as signed.
pub fn module_binary_instruction(op: Operator) -> (r: ModuleInstruction)
    requires
        is_module_operator(op),
    ensures
        r == spec_module_instruction(op),
{
    match op {
        Operator::Plus => ModuleInstruction::Integer(IntInstruction::Add),
        Operator::Sub => ModuleInstruction::Integer(IntInstruction::Sub),
        Operator::Mul => ModuleInstruction::Integer(IntInstruction::Mul),
        Operator::Div => ModuleInstruction::Integer(IntInstruction::SignedDiv),
        Operator::Assign => ModuleInstruction::Store,
        Operator::Equal => ModuleInstruction::Integer(IntInstruction::Compare(IntPredicate::EQ)),
        Operator::GreaterThan => ModuleInstruction::Integer(IntInstruction::Compare(IntPredicate::SGT)),
        Operator::LessThan => ModuleInstruction::Integer(IntInstruction::Compare(IntPredicate::SLT)),
        Operator::GreaterOrEqualThan => ModuleInstruction::Integer(
            IntInstruction::Compare(IntPredicate::SGE),
        ),
        _ => ModuleInstruction::Integer(IntInstruction::Compare(IntPredicate::SLE)),
    }
}

/// Whether a block of `statements` counts as ending in a return: the last
/// `return` or `if` among them decides; a `return` makes it so, an `if`
/// undoes it.
pub open spec fn block_returns(statements: Seq<SStmt>) -> bool
    decreases statements.len(),
{
    if statements.len() == 0 {
        false
    } else {
        match statements.last() {
            SStmt::Return(_) => true,
            SStmt::If { .. } => false,
            _ => block_returns(statements.drop_last()),
        }
    }
}

/// Whether the generator counts a block as ending in a return; all of its
/// statements are built either way.
pub fn module_block_returns(statements: &Vec<Statement>) -> (r: bool)
    ensures
        r == block_returns(view_stmts(statements@)),
{
    let ghost vs = view_stmts(statements@);
    proof {
        lemma_view_stmts_index(statements@);
        assert(vs.subrange(0, 0) =~= Seq::<SStmt>::empty());
    }
    let mut is_return_block = false;
    let mut i: usize = 0;
    while i < statements.len()
        invariant
            i <= statements@.len(),
            vs == view_stmts(statements@),
            vs.len() == statements@.len(),
            forall|j: int| 0 <= j < statements@.len() ==> #[trigger] vs[j] == view_stmt(statements@[j]),
            is_return_block == block_returns(vs.subrange(0, i as int)),
        decreases statements@.len() - i,
    {
        proof {
            assert(vs.subrange(0, i + 1).drop_last() =~= vs.subrange(0, i as int));
            assert(vs.subrange(0, i + 1).last() == vs[i as int]);
        }
        match &statements[i] {
            Statement::Return(_) => {
                is_return_block = true;
            },
            Statement::If(_) => {
                is_return_block = false;
            },
            _ => {},
        }
        i = i + 1;
    }
    assert(vs.subrange(0, i as int) =~= vs);
    is_return_block
}

/// The text by which an expression is shown in messages: its `Debug` form.
pub uninterp spec fn expr_debug_text(e: SExpr) -> Seq<char>;

/// Shows an expression by its derived `Debug` form. The contract names that
/// text and says no more of it: it is a function of the expression alone.
#[verifier::external_body]
fn show_expr(e: &Expr) -> (r: String)
    ensures
        r@ == expr_debug_text(view_expr(*e)),
{
    format!("{:?}", e)
}

/// The variable that an assignment stores into: the left side must be a
/// name; any other expression is refused, and the error shows it.
pub fn assignment_target(left: &Expr) -> (r: Result<String, CompileError>)
    ensures
        match view_expr(*left) {
            SExpr::Ident { ident } => r matches Ok(name) && name@ == ident.name,
            other => r matches Err(e) && e@ == SCompileError::CanOnlyAssignVariable(
                expr_debug_text(other),
            ),
        },
{
    match left {
        Expr::Identifier(identifier) => Ok(identifier.name.clone()),
        _ => Err(CompileError::CanOnlyAssignVariable { target: show_expr(left) }),
    }
}

/// Where the generator stands in a block: the index of the next statement
/// to build, and whether the statements built so far end it in a return.
#[derive(Debug, Clone, Copy, PartialEq, Eq, Structural)]
pub struct BlockWalk {
    pub next: usize,
    pub returns: bool,
}

/// What the generator does next in a block: build the statement at an
/// index, or leave the block.
#[derive(Debug, Clone, Copy, PartialEq, Eq, Structural)]
pub enum BlockStep {
    Build(usize),
    Leave,
}

impl BlockWalk {
    /// The walk stands within `statements`, and `returns` says whether the
    /// statements before `next` end in a return.
    pub open spec fn tracks(self, statements: Seq<SStmt>) -> bool {
        &&& self.next <= statements.len()
        &&& self.returns == block_returns(statements.subrange(0, self.next as int))
    }

    /// Opens the block's scope and starts at its first statement.
    pub fn enter<T: Copy, V: Copy, F: Copy>(context: &mut CompilerContext<T, V, F>) -> (w: BlockWalk)
        requires
            old(context).wf(),
        ensures
            final(context).wf(),
            final(context).global() == old(context).global(),
            final(context).locals() == old(context).locals().push(final(context).locals().last()),
            final(context).locals().last().variables.view().len() == 0,
            final(context).locals().last().types.view().len() == 0,
            final(context).locals().last().functions.view().len() == 0,
            w == (BlockWalk { next: 0, returns: false }),
    {
        context.push_block_table();
        BlockWalk { next: 0, returns: false }
    }

    /// The next step: the statement at `next` is to be built, and the walk
    /// moves past it, a `return` marking the block as returning and an `if`
    /// unmarking it; after the last statement, the block is left.
    pub fn step(&mut self, statements: &Vec<Statement>) -> (r: BlockStep)
        requires
            old(self).tracks(view_stmts(statements@)),
        ensures
            final(self).tracks(view_stmts(statements@)),
            old(self).next < statements@.len() ==> r == BlockStep::Build(old(self).next)
                && final(self).next == old(self).next + 1,
            old(self).next >= statements@.len() ==> r == BlockStep::Leave && *final(self) == *old(self),
    {
        let ghost vs = view_stmts(statements@);
        proof {
            lemma_view_stmts_index(statements@);
        }
        if self.next >= statements.len() {
            return BlockStep::Leave;
        }
        let i = self.next;
        proof {
            assert(vs.subrange(0, i + 1).drop_last() =~= vs.subrange(0, i as int));
            assert(vs.subrange(0, i + 1).last() == vs[i as int]);
            assert(vs[i as int] == view_stmt(statements@[i as int]));
        }
        match &statements[i] {
            Statement::Return(_) => {
                self.returns = true;
            },
            Statement::If(_) => {
                self.returns = false;
            },
            _ => {},
        }
        self.next = i + 1;
        BlockStep::Build(i)
    }

    /// Closes the block's scope, after its last statement, and gives whether
    /// the block ends in a return.
    pub fn leave<T: Copy, V: Copy, F: Copy>(self, context: &mut CompilerContext<T, V, F>, statements: &Vec<Statement>) -> (r: bool)
        requires
            old(context).wf(),
            old(context).locals().len() >= 1,
            self.tracks(view_stmts(statements@)),
            self.next == statements@.len(),
        ensures
            final(context).wf(),
            final(context).global() == old(context).global(),
            final(context).locals() == old(context).locals().drop_last(),
            r == block_returns(view_stmts(statements@)),
    {
        proof {
            lemma_view_stmts_index(statements@);
            assert(view_stmts(statements@).subrange(0, self.next as int) =~= view_stmts(statements@));
        }
        context.pop_block_table();
        self.returns
    }
}

/// A block gives back the scopes it found: where building its statements
/// keeps the depth of the scopes, entering one scope and leaving it again
/// restores the depth, and the scopes outside the block are those it found
/// wherever the statements changed only the block's own scope.
pub proof fn law_block_keeps_scopes<X>(before: Seq<X>, entered: Seq<X>, built: Seq<X>, left: Seq<X>)
    requires
        entered == before.push(entered.last()),
        built.len() == entered.len(),
        left == built.drop_last(),
    ensures
        left.len() == before.len(),
        built.drop_last() == entered.drop_last() ==> left == before,
{
    assert(entered.drop_last() =~= before);
}


/// The value of a binary operator of this generator on two signed
/// integers, a comparison giving 1 where it holds and 0 where not; `/`
/// rounds toward zero.
pub open spec fn module_operator_value(op: Operator, x: int, y: int) -> int {
    match op {
        Operator::Plus => x + y,
        Operator::Sub => x - y,
        Operator::Mul => x * y,
        Operator::Div => truncated_div(x, y),
        Operator::Equal => if x == y { 1 } else { 0 },
        Operator::GreaterThan => if x > y { 1 } else { 0 },
        Operator::LessThan => if x < y { 1 } else { 0 },
        Operator::GreaterOrEqualThan => if x >= y { 1 } else { 0 },
        Operator::LessOrEqualThan => if x <= y { 1 } else { 0 },
        _ => 0,
    }
}

/// The instruction of each operator computes that operator: on any two
/// signed integers, the instruction chosen for `+`, `-`, `*`, `/` or a
/// comparison gives what the operator means (`a - b` is a subtraction, `/`
/// a signed division, `>` a signed "greater than"); `=` is a store.
pub proof fn law_module_instruction_computes_operator(op: Operator, x: int, y: int)
    requires
        is_module_operator(op),
    ensures
        op == Operator::Assign ==> spec_module_instruction(op) == ModuleInstruction::Store,
        op != Operator::Assign ==> (spec_module_instruction(op) matches ModuleInstruction::Integer(i)
            && signed_instruction_value(i, x, y) == Some(module_operator_value(op, x, y))),
{
}

} // verus!
