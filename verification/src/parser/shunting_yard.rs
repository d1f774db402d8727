//! The operator-precedence parser.
//!
//! A binary expression is read as a flat run: operands with one operator
//! between each two of them. [`nest`] says which tree such a run stands
//! for. [`ShuntingYard`] builds that tree with two stacks, while the run is
//! being read.

use vstd::prelude::*;
use crate::instruction::{BinaryOp, forest, Instruction, Operator, Tree};

verus! {

/// The place, in a run of operators, of the one that is applied last: of
/// those that bind least, the rightmost.
pub open spec fn root_index(ops: Seq<Operator>) -> int
    decreases ops.len(),
{
    if ops.len() <= 1 {
        0
    } else {
        let before = root_index(ops.drop_last());
        if 0 <= before < ops.len() - 1 && ops[before].precedence() < ops.last().precedence() {
            before
        } else {
            ops.len() - 1
        }
    }
}

/// The tree that a run stands for: the operator that is applied last, over
/// the tree of what is written on its left and the tree of what is written
/// on its right. A single operand stands for itself.
pub open spec fn nest(operands: Seq<Tree>, ops: Seq<Operator>) -> Tree
    decreases ops.len(),
{
    if ops.len() == 0 || operands.len() != ops.len() + 1 {
        if operands.len() > 0 {
            operands[0]
        } else {
            Tree::Bool(false)
        }
    } else {
        let at = root_index(ops);
        if 0 <= at < ops.len() {
            Tree::BinaryOp {
                op: ops[at],
                lhs: Box::new(nest(operands.subrange(0, at + 1), ops.subrange(0, at))),
                rhs: Box::new(
                    nest(
                        operands.subrange(at + 1, operands.len() as int),
                        ops.subrange(at + 1, ops.len() as int),
                    ),
                ),
            }
        } else {
            operands[0]
        }
    }
}

/// How tightly the root of a tree binds: as its operator does, or tighter
/// than any operator if the tree is a single operand.
pub open spec fn binds(t: Tree) -> int {
    match t {
        Tree::BinaryOp { op, .. } => op.precedence() as int,
        _ => 11,
    }
}

/// The operands of an expression, from left to right.
pub open spec fn operands_of(t: Tree) -> Seq<Tree>
    decreases t,
{
    match t {
        Tree::BinaryOp { lhs, rhs, .. } => operands_of(*lhs) + operands_of(*rhs),
        _ => seq![t],
    }
}

/// The operators of an expression, from left to right.
pub open spec fn operators_of(t: Tree) -> Seq<Operator>
    decreases t,
{
    match t {
        Tree::BinaryOp { op, lhs, rhs } => operators_of(*lhs).push(op) + operators_of(*rhs),
        _ => Seq::empty(),
    }
}

/// Whether every operation of the expression has, on its left, nothing
/// that binds less than itself and, on its right, only what binds more.
pub open spec fn well_nested(t: Tree) -> bool
    decreases t,
{
    match t {
        Tree::BinaryOp { op, lhs, rhs } => binds(*lhs) >= op.precedence() && binds(*rhs)
            > op.precedence() && well_nested(*lhs) && well_nested(*rhs),
        _ => true,
    }
}

/// Whether `at` is the place of the operator that binds least, and of the
/// rightmost of those that do.
pub open spec fn is_last_least(ops: Seq<Operator>, at: int) -> bool {
    &&& 0 <= at < ops.len()
    &&& forall|j: int| 0 <= j < at ==> (#[trigger] ops[j]).precedence() >= ops[at].precedence()
    &&& forall|j: int| at < j < ops.len() ==> (#[trigger] ops[j]).precedence() > ops[at].precedence()
}

/// The root of a run is the rightmost of the operators that bind least.
pub proof fn root_is_last_least(ops: Seq<Operator>)
    requires
        ops.len() > 0,
    ensures
        is_last_least(ops, root_index(ops)),
    decreases ops.len(),
{
    if ops.len() > 1 {
        let front = ops.drop_last();
        root_is_last_least(front);
        let before = root_index(front);
        assert(forall|j: int| 0 <= j < front.len() ==> front[j] == ops[j]);
        if ops[before].precedence() < ops.last().precedence() {
            assert forall|j: int| before < j < ops.len() implies (#[trigger] ops[j]).precedence()
                > ops[before].precedence() by {
                if j < front.len() {
                    assert(front[j] == ops[j]);
                }
            }
        } else {
            assert forall|j: int| 0 <= j < ops.len() - 1 implies (#[trigger] ops[j]).precedence()
                >= ops.last().precedence() by {
                assert(front[j] == ops[j]);
                if j > before {
                } else if j < before {
                }
            }
        }
    }
}

/// No other place than the root is that of the rightmost operator that
/// binds least.
pub proof fn last_least_is_root(ops: Seq<Operator>, at: int)
    requires
        is_last_least(ops, at),
    ensures
        root_index(ops) == at,
{
    root_is_last_least(ops);
    let root = root_index(ops);
    if root < at {
        assert(ops[at].precedence() > ops[root].precedence());
        assert(ops[root].precedence() >= ops[at].precedence());
    } else if at < root {
        assert(ops[root].precedence() > ops[at].precedence());
        assert(ops[at].precedence() >= ops[root].precedence());
    }
}

/// An expression has one operand more than it has operators.
pub proof fn one_more_operand(t: Tree)
    ensures
        operands_of(t).len() == operators_of(t).len() + 1,
    decreases t,
{
    match t {
        Tree::BinaryOp { lhs, rhs, .. } => {
            one_more_operand(*lhs);
            one_more_operand(*rhs);
        },
        _ => {},
    }
}

/// In a well nested expression no operator binds less than the root.
pub proof fn root_binds_least(t: Tree)
    requires
        well_nested(t),
    ensures
        forall|j: int|
            0 <= j < operators_of(t).len() ==> (#[trigger] operators_of(t)[j]).precedence()
                >= binds(t),
    decreases t,
{
    match t {
        Tree::BinaryOp { op, lhs, rhs } => {
            root_binds_least(*lhs);
            root_binds_least(*rhs);
            let left = operators_of(*lhs);
            let right = operators_of(*rhs);
            assert forall|j: int| 0 <= j < operators_of(t).len() implies (
            #[trigger] operators_of(t)[j]).precedence() >= binds(t) by {
                if j < left.len() {
                    assert(operators_of(t)[j] == left[j]);
                } else if j == left.len() {
                } else {
                    assert(operators_of(t)[j] == right[j - left.len() - 1]);
                }
            }
        },
        _ => {},
    }
}

/// A well nested expression is the tree of its own run: the run and the
/// precedence of its operators decide how it is nested.
pub proof fn nesting_is_unique(t: Tree)
    requires
        well_nested(t),
    ensures
        t == nest(operands_of(t), operators_of(t)),
    decreases t,
{
    match t {
        Tree::BinaryOp { op, lhs, rhs } => {
            let left = operators_of(*lhs);
            let right = operators_of(*rhs);
            let ops = operators_of(t);
            let operands = operands_of(t);
            one_more_operand(*lhs);
            one_more_operand(*rhs);
            root_binds_least(*lhs);
            root_binds_least(*rhs);
            let at = left.len() as int;
            assert(ops[at] == op);
            assert forall|j: int| 0 <= j < at implies (#[trigger] ops[j]).precedence()
                >= ops[at].precedence() by {
                assert(ops[j] == left[j]);
            }
            assert forall|j: int| at < j < ops.len() implies (#[trigger] ops[j]).precedence()
                > ops[at].precedence() by {
                assert(ops[j] == right[j - at - 1]);
            }
            last_least_is_root(ops, at);
            assert(operands.subrange(0, at + 1) =~= operands_of(*lhs));
            assert(ops.subrange(0, at) =~= left);
            assert(operands.subrange(at + 1, operands.len() as int) =~= operands_of(*rhs));
            assert(ops.subrange(at + 1, ops.len() as int) =~= right);
            nesting_is_unique(*lhs);
            nesting_is_unique(*rhs);
        },
        _ => {
            assert(operands_of(t)[0] == t);
        },
    }
}

/// The tree of a run keeps the run and respects precedence: read from left
/// to right it gives back the operands and the operators in the order
/// written, and each operation has on its left nothing that binds less
/// than itself and on its right only what binds more. So in `a + b * c` the
/// addition is the root and the multiplication is its right child.
pub proof fn nest_keeps_the_run(operands: Seq<Tree>, ops: Seq<Operator>)
    requires
        operands.len() == ops.len() + 1,
        forall|i: int| 0 <= i < operands.len() ==> !((#[trigger] operands[i]) is BinaryOp),
    ensures
        operands_of(nest(operands, ops)) == operands,
        operators_of(nest(operands, ops)) == ops,
        well_nested(nest(operands, ops)),
        ops.len() > 0 ==> binds(nest(operands, ops)) == ops[root_index(ops)].precedence(),
        ops.len() == 0 ==> binds(nest(operands, ops)) == 11,
    decreases ops.len(),
{
    if ops.len() == 0 {
        assert(operands_of(operands[0]) =~= operands);
        assert(operators_of(operands[0]) =~= ops);
    } else {
        root_is_last_least(ops);
        let at = root_index(ops);
        let left_operands = operands.subrange(0, at + 1);
        let left_ops = ops.subrange(0, at);
        let right_operands = operands.subrange(at + 1, operands.len() as int);
        let right_ops = ops.subrange(at + 1, ops.len() as int);
        nest_keeps_the_run(left_operands, left_ops);
        nest_keeps_the_run(right_operands, right_ops);
        assert(left_operands + right_operands =~= operands);
        assert(left_ops.push(ops[at]) + right_ops =~= ops);
        if left_ops.len() > 0 {
            root_is_last_least(left_ops);
            assert(left_ops[root_index(left_ops)] == ops[root_index(left_ops)]);
        }
        if right_ops.len() > 0 {
            root_is_last_least(right_ops);
            assert(right_ops[root_index(right_ops)] == ops[root_index(right_ops) + at + 1]);
        }
    }
}

/// What a stack of expressions holds, read from the bottom up: the operands
/// of the lowest expression first.
pub open spec fn read_operands(trees: Seq<Tree>) -> Seq<Tree>
    decreases trees.len(),
{
    if trees.len() == 0 {
        Seq::empty()
    } else {
        read_operands(trees.drop_last()) + operands_of(trees.last())
    }
}

/// The operators of a stack of expressions with one operator between each
/// two of them, read from the bottom up.
pub open spec fn read_operators(trees: Seq<Tree>, ops: Seq<Operator>) -> Seq<Operator>
    decreases trees.len(),
{
    if trees.len() == 0 {
        Seq::empty()
    } else if trees.len() == 1 || ops.len() == 0 {
        operators_of(trees.last())
    } else {
        read_operators(trees.drop_last(), ops.drop_last()).push(ops.last()) + operators_of(
            trees.last(),
        )
    }
}

/// Whether the stacks are those of the shunting yard: one operator between
/// each two expressions, each expression well nested and fit to stand on
/// either side of the operators next to it, and the operators binding more
/// and more from the bottom up.
pub open spec fn ordered(trees: Seq<Tree>, ops: Seq<Operator>) -> bool {
    &&& trees.len() == ops.len() + 1
    &&& forall|i: int| 0 <= i < trees.len() ==> well_nested(#[trigger] trees[i])
    &&& forall|i: int|
        0 <= i < ops.len() ==> binds(trees[i]) >= (#[trigger] ops[i]).precedence() && binds(
            trees[i + 1],
        ) > ops[i].precedence()
    &&& forall|i: int|
        0 < i < ops.len() ==> ops[i - 1].precedence() < (#[trigger] ops[i]).precedence()
}

/// Putting the two expressions on top of the stack under the operator
/// between them changes nothing of what is read from the stack.
pub proof fn reduce_keeps_the_run(trees: Seq<Tree>, ops: Seq<Operator>)
    requires
        ordered(trees, ops),
        ops.len() > 0,
    ensures
        ({
            let reduced = trees.drop_last().drop_last().push(
                Tree::BinaryOp {
                    op: ops.last(),
                    lhs: Box::new(trees[trees.len() - 2]),
                    rhs: Box::new(trees.last()),
                },
            );
            &&& ordered(reduced, ops.drop_last())
            &&& read_operands(reduced) == read_operands(trees)
            &&& read_operators(reduced, ops.drop_last()) == read_operators(trees, ops)
        }),
{
    let lhs = trees[trees.len() - 2];
    let rhs = trees.last();
    let op = ops.last();
    let node = Tree::BinaryOp { op, lhs: Box::new(lhs), rhs: Box::new(rhs) };
    let below = trees.drop_last().drop_last();
    let reduced = below.push(node);
    let fewer = ops.drop_last();
    assert(reduced.drop_last() =~= below);
    assert(trees.drop_last().last() == lhs);
    assert(read_operands(trees) == read_operands(trees.drop_last()) + operands_of(rhs));
    assert(read_operands(trees.drop_last()) == read_operands(below) + operands_of(lhs));
    assert(read_operands(reduced) == read_operands(below) + operands_of(node));
    assert(read_operands(below) + (operands_of(lhs) + operands_of(rhs)) =~= (read_operands(below)
        + operands_of(lhs)) + operands_of(rhs));
    assert(read_operators(trees, ops) == read_operators(trees.drop_last(), fewer).push(op)
        + operators_of(rhs));
    if fewer.len() == 0 {
        assert(trees.drop_last().len() == 1);
        assert(read_operators(trees.drop_last(), fewer) == operators_of(lhs));
        assert(reduced.len() == 1);
        assert(read_operators(reduced, fewer) == operators_of(node));
    } else {
        let under = read_operators(below, fewer.drop_last()).push(fewer.last());
        assert(read_operators(trees.drop_last(), fewer) == under + operators_of(lhs));
        assert(read_operators(reduced, fewer) == under + operators_of(node));
        assert(under + (operators_of(lhs).push(op) + operators_of(rhs)) =~= (under + operators_of(
            lhs,
        )).push(op) + operators_of(rhs));
    }
    assert forall|i: int| 0 <= i < reduced.len() implies well_nested(#[trigger] reduced[i]) by {
        if i < below.len() {
            assert(reduced[i] == trees[i]);
        } else {
            assert(binds(lhs) >= ops[ops.len() - 1].precedence());
            assert(well_nested(lhs));
            assert(well_nested(rhs));
        }
    }
    assert forall|i: int| 0 <= i < fewer.len() implies binds(reduced[i]) >= (
    #[trigger] fewer[i]).precedence() && binds(reduced[i + 1]) > fewer[i].precedence() by {
        assert(fewer[i] == ops[i]);
        assert(reduced[i] == trees[i]);
        if i + 1 < below.len() {
            assert(reduced[i + 1] == trees[i + 1]);
        } else {
            assert(ops[i].precedence() < ops[i + 1].precedence());
        }
    }
    assert forall|i: int| 0 < i < fewer.len() implies fewer[i - 1].precedence() < (
    #[trigger] fewer[i]).precedence() by {
        assert(fewer[i] == ops[i]);
        assert(fewer[i - 1] == ops[i - 1]);
    }
}

/// The two stacks of the shunting yard: expressions that wait for their
/// right neighbour, and the operators between them.
pub struct ShuntingYard {
    operands: Vec<Instruction>,
    operators: Vec<Operator>,
}

impl ShuntingYard {
    /// The operands that were given to the yard, in the order given.
    pub closed spec fn operands(&self) -> Seq<Tree> {
        read_operands(forest(self.operands))
    }

    /// The operators that were given to the yard, in the order given.
    pub closed spec fn operators(&self) -> Seq<Operator> {
        read_operators(forest(self.operands), self.operators@)
    }

    /// Whether the yard is ready for the next operator.
    pub closed spec fn wf(&self) -> bool {
        &&& ordered(forest(self.operands), self.operators@)
        &&& binds(forest(self.operands).last()) == 11
    }

    /// Start a run with its first operand.
    pub fn new(first: Instruction) -> (yard: ShuntingYard)
        requires
            !(first@ is BinaryOp),
        ensures
            yard.wf(),
            yard.operands() == seq![first@],
            yard.operators() == Seq::<Operator>::empty(),
    {
        let mut operands: Vec<Instruction> = Vec::new();
        operands.push(first);
        let yard = ShuntingYard { operands, operators: Vec::new() };
        proof {
            let trees = forest(yard.operands);
            assert(trees =~= seq![first@]);
            assert(trees.drop_last() =~= Seq::empty());
            assert(read_operands(trees.drop_last()) =~= Seq::empty());
            assert(read_operands(trees) =~= seq![first@]);
            assert(operators_of(first@) =~= Seq::empty());
        }
        yard
    }

    /// Apply the operator on top of the stack to the two expressions on top
    /// of the stack.
    fn reduce_output(&mut self)
        requires
            ordered(forest(old(self).operands), old(self).operators@),
            old(self).operators@.len() > 0,
        ensures
            ordered(forest(final(self).operands), final(self).operators@),
            final(self).operators@ == old(self).operators@.drop_last(),
            final(self).operands() == old(self).operands(),
            final(self).operators() == old(self).operators(),
            binds(forest(final(self).operands).last()) == old(self).operators@.last().precedence(),
    {
        let ghost trees = forest(self.operands);
        let ghost ops = self.operators@;
        proof {
            reduce_keeps_the_run(trees, ops);
        }
        let rhs = self.operands.pop().unwrap();
        let lhs = self.operands.pop().unwrap();
        let op = self.operators.pop().unwrap();
        assert(rhs@ == trees.last());
        assert(lhs@ == trees[trees.len() - 2]);
        self.operands.push(Instruction::BinaryOp(BinaryOp::new(lhs, rhs, op)));
        assert(forest(self.operands) =~= trees.drop_last().drop_last().push(
            Tree::BinaryOp { op: ops.last(), lhs: Box::new(lhs@), rhs: Box::new(rhs@) },
        ));
    }

    /// Go on with the run: `op`, then `operand` on its right.
    pub fn push(&mut self, op: Operator, operand: Instruction)
        requires
            old(self).wf(),
            !(operand@ is BinaryOp),
        ensures
            final(self).wf(),
            final(self).operands() == old(self).operands().push(operand@),
            final(self).operators() == old(self).operators().push(op),
    {
        while self.operators.len() > 0 && self.operators[self.operators.len() - 1].precedence()
            >= op.precedence()
            invariant
                ordered(forest(self.operands), self.operators@),
                self.operands() == old(self).operands(),
                self.operators() == old(self).operators(),
                binds(forest(self.operands).last()) >= op.precedence(),
            decreases self.operators@.len(),
        {
            self.reduce_output();
        }
        let ghost trees = forest(self.operands);
        let ghost ops = self.operators@;
        self.operators.push(op);
        self.operands.push(operand);
        proof {
            let grown = forest(self.operands);
            let more = self.operators@;
            assert(grown =~= trees.push(operand@));
            assert(grown.drop_last() =~= trees);
            assert(more.drop_last() =~= ops);
            assert(operands_of(operand@) =~= seq![operand@]);
            assert(operators_of(operand@) =~= Seq::empty());
            assert(read_operands(grown) =~= read_operands(trees).push(operand@));
            assert(read_operators(grown, more) =~= read_operators(trees, ops).push(op));
            assert forall|i: int| 0 <= i < grown.len() implies well_nested(#[trigger] grown[i]) by {
                if i < trees.len() {
                    assert(grown[i] == trees[i]);
                }
            }
            assert forall|i: int| 0 <= i < more.len() implies binds(grown[i]) >= (
            #[trigger] more[i]).precedence() && binds(grown[i + 1]) > more[i].precedence() by {
                if i < ops.len() {
                    assert(more[i] == ops[i]);
                    assert(grown[i] == trees[i]);
                    assert(grown[i + 1] == trees[i + 1]);
                }
            }
            assert forall|i: int| 0 < i < more.len() implies more[i - 1].precedence() < (
            #[trigger] more[i]).precedence() by {
                if i < ops.len() {
                    assert(more[i] == ops[i]);
                    assert(more[i - 1] == ops[i - 1]);
                }
            }
        }
    }

    /// Tell whether the yard was given an operator.
    pub fn is_operation(&self) -> (r: bool)
        requires
            self.wf(),
        ensures
            r == (self.operators().len() > 0),
    {
        proof {
            let trees = forest(self.operands);
            let ops = self.operators@;
            if ops.len() > 0 {
                assert(read_operators(trees, ops) == read_operators(
                    trees.drop_last(),
                    ops.drop_last(),
                ).push(ops.last()) + operators_of(trees.last()));
            } else {
                assert(operators_of(trees.last()) =~= Seq::empty());
            }
        }
        self.operators.len() > 0
    }

    /// End the run and hand out its tree.
    pub fn finish(self) -> (t: Instruction)
        requires
            self.wf(),
        ensures
            t@ == nest(self.operands(), self.operators()),
    {
        let mut yard = self;
        while yard.operators.len() > 0
            invariant
                ordered(forest(yard.operands), yard.operators@),
                yard.operands() == self.operands(),
                yard.operators() == self.operators(),
            decreases yard.operators@.len(),
        {
            yard.reduce_output();
        }
        let ghost trees = forest(yard.operands);
        let t = yard.operands.pop().unwrap();
        proof {
            assert(trees.len() == 1);
            assert(t@ == trees.last());
            assert(trees.drop_last() =~= Seq::empty());
            assert(read_operands(trees.drop_last()) =~= Seq::empty());
            assert(read_operands(trees) =~= operands_of(t@));
            assert(read_operators(trees, Seq::empty()) == operators_of(t@));
            nesting_is_unique(t@);
        }
        t
    }
}

} // verus!
