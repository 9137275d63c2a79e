//! The checks that the code generator makes of array and structure
//! initializers and of calls, and the order in which it lays out a
//! structure's initial values.
use vstd::prelude::*;

use crate::ast::nodes::{view_stmts, SStmt, Statement};
use crate::ast::parser::grammar::spec_precedence;
use crate::code_generator::binary_operator_builder::traits::{
    CompareBinaryOperator, LogicBinaryOperator,
};
use crate::code_generator::binary_operator_builder::number_builder::compare_binary_holds;
use crate::code_generator::le_type::{truncated_div, LEType};
use crate::lexer::Operator;

verus! {

/// Why an array initializer is refused.
#[derive(Debug, Clone, Copy, PartialEq, Eq, Structural)]
pub enum ArrayInitializerError {
    /// It has no element.
    NotAllowZeroLengthArray,
    /// The element at this index is not of the first element's type.
    TypeMismatched(usize),
}

/// Checks the types of an array initializer's elements: there must be one
/// at least, and all must be of the first one's type; the error names the
/// first element that is not.
pub fn check_array_initializer(element_types: &Vec<LEType>) -> (r: Result<(), ArrayInitializerError>)
    ensures
        element_types@.len() == 0 ==> r == Err::<(), ArrayInitializerError>(ArrayInitializerError::NotAllowZeroLengthArray),
        element_types@.len() > 0 ==> match r {
            Ok(()) => forall|i: int| 0 <= i < element_types@.len() ==> #[trigger] element_types@[i] == element_types@[0],
            Err(ArrayInitializerError::TypeMismatched(i)) => 0 < i < element_types@.len() && element_types@[i as int]
                != element_types@[0] && forall|j: int| 0 <= j < i ==> #[trigger] element_types@[j] == element_types@[0],
            Err(ArrayInitializerError::NotAllowZeroLengthArray) => false,
        },
{
    if element_types.len() == 0 {
        return Err(ArrayInitializerError::NotAllowZeroLengthArray);
    }
    let mut i: usize = 0;
    while i < element_types.len()
        invariant
            0 < element_types@.len(),
            i <= element_types@.len(),
            forall|j: int| 0 <= j < i ==> #[trigger] element_types@[j] == element_types@[0],
        decreases element_types@.len() - i,
    {
        if !element_types[i].same(&element_types[0]) {
            return Err(ArrayInitializerError::TypeMismatched(i));
        }
        i = i + 1;
    }
    Ok(())
}

/// Checks the types of a call's arguments against the function's
/// parameter types, pair by pair as far as both go: the index of the first
/// argument whose type is not its parameter's, if there is one.
pub fn check_call_arguments(param_types: &Vec<LEType>, argument_types: &Vec<LEType>) -> (r: Option<usize>)
    ensures
        match r {
            Some(i) => i < param_types@.len() && i < argument_types@.len() && param_types@[i as int]
                != argument_types@[i as int] && forall|j: int| 0 <= j < i ==> #[trigger] param_types@[j] == argument_types@[j],
            None => forall|j: int| 0 <= j < param_types@.len() && j < argument_types@.len() ==> #[trigger] param_types@[j] == argument_types@[j],
        },
{
    let mut i: usize = 0;
    while i < param_types.len() && i < argument_types.len()
        invariant
            i <= param_types@.len(),
            i <= argument_types@.len(),
            forall|j: int| 0 <= j < i ==> #[trigger] param_types@[j] == argument_types@[j],
        decreases param_types@.len() - i,
    {
        if !param_types[i].same(&argument_types[i]) {
            return Some(i);
        }
        i = i + 1;
    }
    None
}

/// The offset of the member `name` in a structure of the members `members`.
pub fn get_member_offset(members: &Vec<String>, name: &String) -> (r: Option<u32>)
    requires
        members@.len() <= u32::MAX,
    ensures
        match r {
            Some(k) => k < members@.len() && members@[k as int]@ == name@ && forall|j: int| 0 <= j < k ==> #[trigger] members@[j]@ != name@,
            None => forall|j: int| 0 <= j < members@.len() ==> #[trigger] members@[j]@ != name@,
        },
{
    let mut i: usize = 0;
    while i < members.len()
        invariant
            i <= members@.len(),
            members@.len() <= u32::MAX,
            forall|j: int| 0 <= j < i ==> #[trigger] members@[j]@ != name@,
        decreases members@.len() - i,
    {
        if members[i] == *name {
            return Some(i as u32);
        }
        i = i + 1;
    }
    None
}

/// `k` is the offset of the member `name`: the index of its first member of
/// that name.
pub open spec fn is_offset(members: Seq<String>, name: Seq<char>, k: int) -> bool {
    &&& 0 <= k < members.len()
    &&& members[k]@ == name
    &&& forall|j: int| 0 <= j < k ==> #[trigger] members[j]@ != name
}

/// Some member is named `name`.
pub open spec fn is_member(members: Seq<String>, name: Seq<char>) -> bool {
    exists|j: int| 0 <= j < members.len() && #[trigger] members[j]@ == name
}

/// `order` holds each of the indices below `n` once.
pub open spec fn is_permutation(order: Seq<usize>, n: nat) -> bool {
    &&& forall|p: int| 0 <= p < order.len() ==> #[trigger] order[p] < n
    &&& forall|p: int, q: int| 0 <= p < q < order.len() ==> #[trigger] order[p] != #[trigger] order[q]
    &&& forall|i: int| 0 <= i < n ==> #[trigger] order.contains(i as usize)
}

/// The offsets of the members that `initializer` names, in its order.
pub fn initializer_offsets(members: &Vec<String>, initializer: &Vec<String>) -> (r: Vec<u32>)
    requires
        members@.len() <= u32::MAX,
        forall|i: int| 0 <= i < initializer@.len() ==> is_member(members@, #[trigger] initializer@[i]@),
    ensures
        r@.len() == initializer@.len(),
        forall|i: int| 0 <= i < r@.len() ==> is_offset(members@, initializer@[i]@, #[trigger] r@[i] as int),
{
    let mut keys: Vec<u32> = Vec::new();
    let mut i: usize = 0;
    while i < initializer.len()
        invariant
            i <= initializer@.len(),
            keys@.len() == i,
            members@.len() <= u32::MAX,
            forall|x: int| 0 <= x < initializer@.len() ==> is_member(members@, #[trigger] initializer@[x]@),
            forall|x: int| 0 <= x < i ==> is_offset(members@, initializer@[x]@, #[trigger] keys@[x] as int),
        decreases initializer@.len() - i,
    {
        let k = get_member_offset(members, &initializer[i]);
        match k {
            Some(k) => {
                keys.push(k);
            },
            None => {
                proof {
                    assert(is_member(members@, initializer@[i as int]@));
                    let j = choose|j: int| 0 <= j < members@.len() && #[trigger] members@[j]@ == initializer@[i as int]@;
                    assert(members@[j]@ != initializer@[i as int]@);
                }
                keys.push(0);
            },
        }
        i = i + 1;
    }
    keys
}

/// The indices of `keys` in the order of their keys, which are all below
/// `bound`; of equal keys, the lower index first.
pub fn order_by_offset(keys: &Vec<u32>, bound: u32) -> (order: Vec<usize>)
    requires
        forall|i: int| 0 <= i < keys@.len() ==> #[trigger] keys@[i] < bound,
    ensures
        is_permutation(order@, keys@.len()),
        forall|p: int, q: int| 0 <= p < q < order@.len() ==> keys@[#[trigger] order@[p] as int] <= keys@[#[trigger] order@[q] as int],
{
    let n = keys.len();
    let mut order: Vec<usize> = Vec::new();
    let mut k: u32 = 0;
    while k < bound
        invariant
            n == keys@.len(),
            k <= bound,
            forall|i: int| 0 <= i < n ==> #[trigger] keys@[i] < bound,
            forall|p: int| 0 <= p < order@.len() ==> #[trigger] order@[p] < n,
            forall|p: int, q: int| 0 <= p < q < order@.len() ==> #[trigger] order@[p] != #[trigger] order@[q],
            forall|p: int| 0 <= p < order@.len() ==> keys@[#[trigger] order@[p] as int] < k,
            forall|p: int, q: int| 0 <= p < q < order@.len() ==> keys@[#[trigger] order@[p] as int] <= keys@[#[trigger] order@[q] as int],
            forall|i: int| 0 <= i < n ==> (#[trigger] order@.contains(i as usize) <==> keys@[i] < k),
        decreases bound - k,
    {
        let mut i: usize = 0;
        while i < n
            invariant
                n == keys@.len(),
                k < bound,
                i <= n,
                forall|p: int| 0 <= p < order@.len() ==> #[trigger] order@[p] < n,
                forall|p: int, q: int| 0 <= p < q < order@.len() ==> #[trigger] order@[p] != #[trigger] order@[q],
                forall|p: int| 0 <= p < order@.len() ==> keys@[#[trigger] order@[p] as int] <= k,
                forall|p: int, q: int| 0 <= p < q < order@.len() ==> keys@[#[trigger] order@[p] as int] <= keys@[#[trigger] order@[q] as int],
                forall|x: int| 0 <= x < n ==> (#[trigger] order@.contains(x as usize) <==> (keys@[x] < k || (keys@[x] == k && x < i))),
            decreases n - i,
        {
            if keys[i] == k {
                let ghost before = order@;
                proof {
                    let ii: int = i as int;
                    assert(order@.contains(ii as usize) == (keys@[ii] < k || (keys@[ii] == k && ii < i)));
                    assert(!before.contains(i));
                    assert forall|p: int| 0 <= p < before.len() implies before[p] != i by {
                        if before[p] == i {
                            assert(before.contains(before[p]));
                        }
                    }
                }
                order.push(i);
                proof {
                    assert forall|x: int| 0 <= x < n implies (#[trigger] order@.contains(x as usize) <==> (keys@[x] < k || (keys@[x] == k && x < i + 1))) by {
                        if x == i {
                            assert(order@[order@.len() - 1] == i);
                        } else {
                            if order@.contains(x as usize) {
                                let p = choose|p: int| 0 <= p < order@.len() && order@[p] == x as usize;
                                assert(before[p] == x as usize);
                                assert(before.contains(x as usize));
                            }
                            if before.contains(x as usize) {
                                let p = choose|p: int| 0 <= p < before.len() && before[p] == x as usize;
                                assert(order@[p] == x as usize);
                            }
                        }
                    }
                }
            }
            i = i + 1;
        }
        k = k + 1;
    }
    proof {
        assert forall|x: int| 0 <= x < n implies #[trigger] order@.contains(x as usize) by {
            assert(keys@[x] < bound);
        }
    }
    order
}

/// A name has at most one offset.
pub proof fn lemma_offset_unique(members: Seq<String>, name: Seq<char>, a: int, b: int)
    requires
        is_offset(members, name, a),
        is_offset(members, name, b),
    ensures
        a == b,
{
    if a < b {
        assert(members[a]@ != name);
    } else if b < a {
        assert(members[b]@ != name);
    }
}

/// How a structure initializer's values are laid out: none where there are
/// not as many of them as the structure has members; else the indices of
/// the values in the order of the offsets of the members that they name.
pub fn structure_initializer_order(members: &Vec<String>, initializer: &Vec<String>) -> (r: Option<Vec<usize>>)
    requires
        members@.len() <= u32::MAX,
        forall|i: int| 0 <= i < initializer@.len() ==> is_member(members@, #[trigger] initializer@[i]@),
    ensures
        initializer@.len() != members@.len() ==> r is None,
        initializer@.len() == members@.len() ==> (r matches Some(order) && is_permutation(order@, initializer@.len())
            && forall|p: int, q: int, kp: int, kq: int|
            0 <= p < q < order@.len() && #[trigger] is_offset(members@, initializer@[order@[p] as int]@, kp)
                && #[trigger] is_offset(members@, initializer@[order@[q] as int]@, kq) ==> kp <= kq),
{
    if initializer.len() != members.len() {
        return None;
    }
    let keys = initializer_offsets(members, initializer);
    let order = order_by_offset(&keys, members.len() as u32);
    proof {
        assert forall|p: int, q: int, kp: int, kq: int|
            0 <= p < q < order@.len() && #[trigger] is_offset(members@, initializer@[order@[p] as int]@, kp)
                && #[trigger] is_offset(members@, initializer@[order@[q] as int]@, kq) implies kp <= kq by {
            let a = order@[p] as int;
            let b = order@[q] as int;
            assert(is_offset(members@, initializer@[a]@, keys@[a] as int));
            assert(is_offset(members@, initializer@[b]@, keys@[b] as int));
            lemma_offset_unique(members@, initializer@[a]@, kp, keys@[a] as int);
            lemma_offset_unique(members@, initializer@[b]@, kq, keys@[b] as int);
        }
    }
    Some(order)
}

/// What a binary operator is built as.
#[derive(Debug, Clone, Copy, PartialEq, Eq, Structural)]
pub enum BinaryOperatorAction {
    Add,
    Sub,
    Mul,
    Div,
    Mod,
    /// A store of the right value into the left one.
    Assign,
    Compare(CompareBinaryOperator),
    Logic(LogicBinaryOperator),
    /// An access to the member that the right operand names.
    MemberAccess,
}

pub open spec fn spec_binary_operator_action(op: Operator) -> BinaryOperatorAction {
    match op {
        Operator::Plus => BinaryOperatorAction::Add,
        Operator::Sub => BinaryOperatorAction::Sub,
        Operator::Mul => BinaryOperatorAction::Mul,
        Operator::Div => BinaryOperatorAction::Div,
        Operator::Mod => BinaryOperatorAction::Mod,
        Operator::Assign => BinaryOperatorAction::Assign,
        Operator::Equal => BinaryOperatorAction::Compare(CompareBinaryOperator::Equal),
        Operator::NotEqual => BinaryOperatorAction::Compare(CompareBinaryOperator::NotEqual),
        Operator::GreaterThan => BinaryOperatorAction::Compare(CompareBinaryOperator::GreaterThan),
        Operator::LessThan => BinaryOperatorAction::Compare(CompareBinaryOperator::LessThan),
        Operator::GreaterOrEqualThan => BinaryOperatorAction::Compare(
            CompareBinaryOperator::GreaterOrEqualThan,
        ),
        Operator::LessOrEqualThan => BinaryOperatorAction::Compare(
            CompareBinaryOperator::LessOrEqualThan,
        ),
        Operator::Dot => BinaryOperatorAction::MemberAccess,
        Operator::And => BinaryOperatorAction::Logic(LogicBinaryOperator::LogicAnd),
        Operator::Or => BinaryOperatorAction::Logic(LogicBinaryOperator::LogicOr),
        _ => BinaryOperatorAction::Logic(LogicBinaryOperator::LogicXor),
    }
}

/// What a binary expression of the operator `op` is built as. `!` and `~`
/// have no binary form: the generator stops on them.
pub fn binary_operator_action(op: Operator) -> (r: BinaryOperatorAction)
    requires
        op != Operator::Not,
        op != Operator::Rev,
    ensures
        r == spec_binary_operator_action(op),
{
    match op {
        Operator::Plus => BinaryOperatorAction::Add,
        Operator::Sub => BinaryOperatorAction::Sub,
        Operator::Mul => BinaryOperatorAction::Mul,
        Operator::Div => BinaryOperatorAction::Div,
        Operator::Mod => BinaryOperatorAction::Mod,
        Operator::Assign => BinaryOperatorAction::Assign,
        Operator::Equal => BinaryOperatorAction::Compare(CompareBinaryOperator::Equal),
        Operator::NotEqual => BinaryOperatorAction::Compare(CompareBinaryOperator::NotEqual),
        Operator::GreaterThan => BinaryOperatorAction::Compare(CompareBinaryOperator::GreaterThan),
        Operator::LessThan => BinaryOperatorAction::Compare(CompareBinaryOperator::LessThan),
        Operator::GreaterOrEqualThan => BinaryOperatorAction::Compare(
            CompareBinaryOperator::GreaterOrEqualThan,
        ),
        Operator::LessOrEqualThan => BinaryOperatorAction::Compare(
            CompareBinaryOperator::LessOrEqualThan,
        ),
        Operator::Dot => BinaryOperatorAction::MemberAccess,
        Operator::And => BinaryOperatorAction::Logic(LogicBinaryOperator::LogicAnd),
        Operator::Or => BinaryOperatorAction::Logic(LogicBinaryOperator::LogicOr),
        _ => BinaryOperatorAction::Logic(LogicBinaryOperator::LogicXor),
    }
}

/// Every binary operator that the generator builds as a comparison binds
/// less tight than every arithmetic one, so `a + b < c * d` compares two
/// sums and products.
pub proof fn law_comparisons_bind_looser_than_arithmetic(cmp: Operator, arith: Operator)
    requires
        cmp != Operator::Not && cmp != Operator::Rev,
        arith != Operator::Not && arith != Operator::Rev,
        spec_binary_operator_action(cmp) is Compare,
        spec_binary_operator_action(arith) is Add || spec_binary_operator_action(arith) is Sub
            || spec_binary_operator_action(arith) is Mul || spec_binary_operator_action(arith) is Div
            || spec_binary_operator_action(arith) is Mod,
    ensures
        spec_precedence(cmp) < spec_precedence(arith),
{
}

/// The value of a binary operator of the language on two integers, a
/// comparison giving 1 where it holds and 0 where not; `/` and `%` round
/// toward zero. None for the operators that compute no number.
pub open spec fn operator_value(op: Operator, x: int, y: int) -> Option<int> {
    match op {
        Operator::Plus => Some(x + y),
        Operator::Sub => Some(x - y),
        Operator::Mul => Some(x * y),
        Operator::Div => Some(truncated_div(x, y)),
        Operator::Mod => Some(x - y * truncated_div(x, y)),
        Operator::Equal => Some(if x == y { 1 } else { 0 }),
        Operator::NotEqual => Some(if x != y { 1 } else { 0 }),
        Operator::GreaterThan => Some(if x > y { 1 } else { 0 }),
        Operator::LessThan => Some(if x < y { 1 } else { 0 }),
        Operator::GreaterOrEqualThan => Some(if x >= y { 1 } else { 0 }),
        Operator::LessOrEqualThan => Some(if x <= y { 1 } else { 0 }),
        _ => None,
    }
}

/// The value an action computes on two integers, as `operator_value` counts
/// it; none for the actions that compute no number.
pub open spec fn action_value(a: BinaryOperatorAction, x: int, y: int) -> Option<int> {
    match a {
        BinaryOperatorAction::Add => Some(x + y),
        BinaryOperatorAction::Sub => Some(x - y),
        BinaryOperatorAction::Mul => Some(x * y),
        BinaryOperatorAction::Div => Some(truncated_div(x, y)),
        BinaryOperatorAction::Mod => Some(x - y * truncated_div(x, y)),
        BinaryOperatorAction::Compare(c) => Some(if compare_binary_holds(c, x, y) { 1 } else { 0 }),
        _ => None,
    }
}

/// What a logic action says of two booleans.
pub open spec fn logic_holds(l: LogicBinaryOperator, p: bool, q: bool) -> bool {
    match l {
        LogicBinaryOperator::LogicAnd => p && q,
        LogicBinaryOperator::LogicOr => p || q,
        LogicBinaryOperator::LogicXor => p != q,
    }
}

/// Each binary operator is built as what it means: an arithmetic operator
/// or a comparison as the action that computes its value on any two
/// integers (`-` subtracts, `>` holds where the left is greater), `&`, `|`
/// and `^` as the logic actions "and", "or" and "exclusive or", `=` as a
/// store and `.` as a member access.
pub proof fn law_binary_action_computes_operator(op: Operator, x: int, y: int, p: bool, q: bool)
    requires
        op != Operator::Not && op != Operator::Rev,
    ensures
        operator_value(op, x, y) is Some ==> action_value(spec_binary_operator_action(op), x, y)
            == operator_value(op, x, y),
        op == Operator::And ==> (spec_binary_operator_action(op) matches BinaryOperatorAction::Logic(l)
            && logic_holds(l, p, q) == (p && q)),
        op == Operator::Or ==> (spec_binary_operator_action(op) matches BinaryOperatorAction::Logic(l)
            && logic_holds(l, p, q) == (p || q)),
        op == Operator::Xor ==> (spec_binary_operator_action(op) matches BinaryOperatorAction::Logic(l)
            && logic_holds(l, p, q) == (p != q)),
        op == Operator::Assign ==> spec_binary_operator_action(op) == BinaryOperatorAction::Assign,
        op == Operator::Dot ==> spec_binary_operator_action(op) == BinaryOperatorAction::MemberAccess,
{
}

/// How a prefix operator is built: `+` gives its operand as it is, `-`
/// negates it.
#[derive(Debug, Clone, Copy, PartialEq, Eq, Structural)]
pub enum UnaryOperatorAction {
    Keep,
    Negate,
}

/// What a prefix expression of the operator `op` is built as; only `+` and
/// `-` have a prefix form.
pub fn unary_operator_action(op: Operator) -> (r: UnaryOperatorAction)
    requires
        op == Operator::Plus || op == Operator::Sub,
    ensures
        r == (if op == Operator::Plus {
            UnaryOperatorAction::Keep
        } else {
            UnaryOperatorAction::Negate
        }),
{
    match op {
        Operator::Plus => UnaryOperatorAction::Keep,
        _ => UnaryOperatorAction::Negate,
    }
}

/// How many of `statements` a block is built from: those up to and with the
/// first `return`, or all where there is none.
pub open spec fn built_statements(statements: Seq<SStmt>) -> nat
    decreases statements.len(),
{
    if statements.len() == 0 {
        0
    } else if statements[0] is Return {
        1
    } else {
        1 + built_statements(statements.drop_first())
    }
}

/// Whether a block of `statements` ends in a `return`: it does where one of
/// them is a `return`.
pub open spec fn ends_in_return(statements: Seq<SStmt>) -> bool {
    exists|i: int| 0 <= i < statements.len() && (#[trigger] statements[i]) is Return
}

proof fn lemma_built_statements(statements: Seq<SStmt>, k: int)
    requires
        0 <= k <= statements.len(),
        forall|j: int| 0 <= j < k ==> !((#[trigger] statements[j]) is Return),
    ensures
        built_statements(statements) == k + built_statements(statements.subrange(k, statements.len() as int)),
    decreases k,
{
    if k > 0 {
        let t = statements.drop_first();
        assert forall|j: int| 0 <= j < k - 1 implies !((#[trigger] t[j]) is Return) by {
            assert(t[j] == statements[j + 1]);
        }
        lemma_built_statements(t, k - 1);
        assert(t.subrange(k - 1, t.len() as int) =~= statements.subrange(k, statements.len() as int));
    } else {
        assert(statements.subrange(0, statements.len() as int) =~= statements);
    }
}

/// The statements of a block that are built, and whether the block ends in
/// a `return`: the generator stops at the first `return` of a block, and
/// builds no branch to the block's successor after one.
pub fn code_block_extent(statements: &Vec<Statement>) -> (r: (usize, bool))
    ensures
        r.0 == built_statements(view_stmts(statements@)),
        r.1 == ends_in_return(view_stmts(statements@)),
{
    let ghost vs = view_stmts(statements@);
    proof {
        crate::ast::nodes::lemma_view_stmts_index(statements@);
    }
    let mut i: usize = 0;
    while i < statements.len()
        invariant
            i <= statements@.len(),
            vs == view_stmts(statements@),
            vs.len() == statements@.len(),
            forall|j: int| 0 <= j < statements@.len() ==> #[trigger] vs[j] == crate::ast::nodes::view_stmt(statements@[j]),
            forall|j: int| 0 <= j < i ==> !((#[trigger] vs[j]) is Return),
        decreases statements@.len() - i,
    {
        if let Statement::Return(_) = &statements[i] {
            proof {
                lemma_built_statements(vs, i as int);
                let rest = vs.subrange(i as int, vs.len() as int);
                assert(rest[0] == vs[i as int]);
            }
            return (i + 1, true);
        }
        i = i + 1;
    }
    proof {
        lemma_built_statements(vs, i as int);
        assert(vs.subrange(i as int, vs.len() as int).len() == 0);
    }
    (i, false)
}

/// What a name stands for as an expression.
#[derive(Debug, Clone, Copy, PartialEq, Eq, Structural)]
pub enum NameValue {
    True,
    False,
    Variable,
}

/// `true` and `false` are the boolean constants; any other name is a
/// variable.
pub fn identifier_value(name: &String) -> (r: NameValue)
    ensures
        r == (if name@ == "true"@ {
            NameValue::True
        } else if name@ == "false"@ {
            NameValue::False
        } else {
            NameValue::Variable
        }),
{
    let t = String::from_str("true");
    let f = String::from_str("false");
    if *name == t {
        NameValue::True
    } else if *name == f {
        NameValue::False
    } else {
        NameValue::Variable
    }
}

/// Whether a variable's initial value, of the type `initial`, may stand for
/// the type that the variable is declared with, if any: only where it is
/// the same type.
pub fn declared_type_accepts(declared: Option<&LEType>, initial: &LEType) -> (r: bool)
    ensures
        r == match declared {
            Some(t) => *t == *initial,
            None => true,
        },
{
    match declared {
        Some(t) => t.same(initial),
        None => true,
    }
}

/// Which parts of a `for` loop are built: the loop at all only where its
/// condition is an expression statement; its first statement only where it
/// defines a variable; its step only where it is an expression statement.
#[derive(Debug, Clone, Copy, PartialEq, Eq, Structural)]
pub struct ForLoopShape {
    pub built: bool,
    pub init: bool,
    pub step: bool,
}

pub fn for_loop_shape(init: &Statement, condition: &Statement, iterate: &Statement) -> (r: ForLoopShape)
    ensures
        r.built == (condition@ is Expressions),
        r.init == (init@ is VariableDefinition),
        r.step == (iterate@ is Expressions),
{
    ForLoopShape {
        built: match condition {
            Statement::Expressions(_) => true,
            _ => false,
        },
        init: match init {
            Statement::VariableDefinition(_) => true,
            _ => false,
        },
        step: match iterate {
            Statement::Expressions(_) => true,
            _ => false,
        },
    }
}

} // verus!
