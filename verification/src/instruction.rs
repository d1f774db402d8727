//! The nodes of the syntax tree.
//!
//! The set of nodes is closed: [`Instruction`] has one variant for each
//! construct of the language. A node owns its children, so a tree has no
//! sharing and no cycle.

use vstd::prelude::*;
use vstd::string::*;

pub mod audit;
pub mod binary_op;
pub mod block;
pub mod function_call;
pub mod function_declaration;
pub mod if_else;
pub mod incl;
pub mod jk_inst;
pub mod loop_block;
pub mod method_call;
pub mod render;
pub mod return_value;
pub mod tree;
pub mod type_declaration;
pub mod type_instantiation;
pub mod var;
pub mod var_assignment;

pub use audit::Audit;
pub use binary_op::{BinaryOp, Operator};
pub use block::Block;
pub use function_call::FunctionCall;
pub use function_declaration::{FunctionDec, FunctionDecArg, FunctionKind};
pub use if_else::IfElse;
pub use incl::Incl;
pub use jk_inst::JkInst;
pub use loop_block::{Loop, LoopKind};
pub use method_call::MethodCall;
pub use return_value::Return;
pub use tree::{BlockTree, CallTree, FunctionTree, LoopTree, Tree, TypedName};
pub use type_declaration::TypeDec;
pub use type_instantiation::TypeInstantiation;
pub use var::Var;
pub use var_assignment::VarAssign;

use crate::instruction::render::{each_ended, joined, render, render_each};
use crate::value::{JinkBool, JinkChar, JinkFloat, JinkInt, JinkString};

verus! {

/// The type of a value, once it is known.
#[derive(Clone, Copy, Debug, PartialEq, Eq, Structural)]
pub enum ValueType {
    Int,
    Float,
    Bool,
    Char,
    Str,
}

/// Whether a node yields a value that an enclosing node may use.
#[derive(Clone, Copy, Debug, PartialEq, Eq, Structural)]
pub enum InstrKind {
    /// The node is run for its effect.
    Statement,
    /// The node yields a value, whose type the parser leaves open.
    Expression(Option<ValueType>),
}

/// Any node of the syntax tree.
#[derive(Debug)]
pub enum Instruction {
    Int(JinkInt),
    Float(JinkFloat),
    Bool(JinkBool),
    Char(JinkChar),
    Str(JinkString),
    Var(Var),
    VarAssign(VarAssign),
    FunctionCall(FunctionCall),
    MethodCall(MethodCall),
    BinaryOp(BinaryOp),
    Block(Block),
    IfElse(IfElse),
    Loop(Loop),
    Audit(Audit),
    FunctionDec(FunctionDec),
    TypeDec(TypeDec),
    TypeInstantiation(TypeInstantiation),
    Incl(Incl),
    JkInst(JkInst),
    Return(Return),
}

/// What kind of tree each node has.
pub broadcast group group_shapes {
    var_assignment::var_assign_shape,
    method_call::method_call_shape,
    binary_op::binary_op_shape,
    if_else::if_else_shape,
    loop_block::loop_shape,
    type_declaration::type_dec_shape,
    type_instantiation::type_instantiation_shape,
    incl::incl_shape,
    return_value::return_shape,
}

/// The trees of a list of nodes, in the same order.
pub open spec fn forest(nodes: Vec<Instruction>) -> Seq<Tree>
    decreases nodes,
{
    Seq::new(
        nodes.len() as nat,
        |i: int|
            if 0 <= i < nodes.len() {
                nodes[i].tree()
            } else {
                Tree::Bool(false)
            },
    )
}

/// The kind of the node that a tree stands for.
///
/// Literals, variables, calls, operations and instantiations yield a value.
/// A block yields the value of its trailing node, if it has one; a
/// conditional and an audit are of the kind of their first block.
/// Everything else is a statement.
pub open spec fn kind_of(t: Tree) -> InstrKind
    decreases t,
{
    match t {
        Tree::Int(_) | Tree::Float(_) | Tree::Bool(_) | Tree::Char(_) | Tree::Str(_) => {
            InstrKind::Expression(None)
        },
        Tree::Var(_) => InstrKind::Expression(None),
        Tree::FunctionCall(_) => InstrKind::Expression(None),
        Tree::MethodCall { .. } => InstrKind::Expression(None),
        Tree::BinaryOp { .. } => InstrKind::Expression(None),
        Tree::TypeInstantiation { .. } => InstrKind::Expression(None),
        Tree::Block(b) => block_kind(b),
        Tree::IfElse { if_body, .. } => block_kind(if_body),
        Tree::Audit(b) => block_kind(b),
        _ => InstrKind::Statement,
    }
}

/// The kind of a block: that of its trailing node, or a statement.
pub open spec fn block_kind(b: BlockTree) -> InstrKind
    decreases b,
{
    match b.last {
        Some(last) => kind_of(*last),
        None => InstrKind::Statement,
    }
}

impl View for Instruction {
    type V = Tree;

    open spec fn view(&self) -> Tree {
        self.tree()
    }
}

impl Instruction {
    /// What the node is made of.
    pub open spec fn tree(&self) -> Tree
        decreases self,
    {
        match self {
            Instruction::Int(v) => Tree::Int(v@),
            Instruction::Float(v) => Tree::Float(v@),
            Instruction::Bool(v) => Tree::Bool(v@),
            Instruction::Char(v) => Tree::Char(v@),
            Instruction::Str(v) => Tree::Str(v@),
            Instruction::Var(v) => Tree::Var(v@),
            Instruction::VarAssign(v) => v@,
            Instruction::FunctionCall(v) => Tree::FunctionCall(v@),
            Instruction::MethodCall(v) => v@,
            Instruction::BinaryOp(v) => v@,
            Instruction::Block(v) => Tree::Block(v@),
            Instruction::IfElse(v) => v@,
            Instruction::Loop(v) => v@,
            Instruction::Audit(v) => Tree::Audit(v@),
            Instruction::FunctionDec(v) => Tree::FunctionDec(v@),
            Instruction::TypeDec(v) => v@,
            Instruction::TypeInstantiation(v) => v@,
            Instruction::Incl(v) => v@,
            Instruction::JkInst(v) => Tree::JkInst(*v),
            Instruction::Return(v) => v@,
        }
    }

    /// Tell whether the node is a return.
    pub fn is_return(&self) -> (r: bool)
        ensures
            r == (self@ is Return),
    {
        broadcast use group_shapes;

        match self {
            Instruction::Return(_) => true,
            _ => false,
        }
    }

    /// Write the node out behind what `out` holds.
    pub fn write(&self, out: &mut String)
        ensures
            final(out)@ == old(out)@ + render(self@),
        decreases self,
    {
        broadcast use group_shapes;

        match self {
            Instruction::Int(v) => v.write(out),
            Instruction::Float(v) => v.write(out),
            Instruction::Bool(v) => v.write(out),
            Instruction::Char(v) => v.write(out),
            Instruction::Str(v) => v.write(out),
            Instruction::Var(v) => v.write(out),
            Instruction::VarAssign(v) => v.write(out),
            Instruction::FunctionCall(v) => v.write(out),
            Instruction::MethodCall(v) => v.write(out),
            Instruction::BinaryOp(v) => v.write(out),
            Instruction::Block(v) => v.write(out),
            Instruction::IfElse(v) => v.write(out),
            Instruction::Loop(v) => v.write(out),
            Instruction::Audit(v) => v.write(out),
            Instruction::FunctionDec(v) => v.write(out),
            Instruction::TypeDec(v) => v.write(out),
            Instruction::TypeInstantiation(v) => v.write(out),
            Instruction::Incl(v) => v.write(out),
            Instruction::JkInst(v) => v.write(out),
            Instruction::Return(v) => v.write(out),
        }
    }

    /// The printable form of the node.
    pub fn print(&self) -> (s: String)
        ensures
            s@ == render(self@),
    {
        let mut s = String::new();
        self.write(&mut s);
        assert(s@ =~= render(self@));
        s
    }

    /// Report whether the node is a statement or an expression.
    pub fn kind(&self) -> (k: InstrKind)
        ensures
            k == kind_of(self@),
        decreases self,
    {
        match self {
            Instruction::Int(v) => v.kind(),
            Instruction::Float(v) => v.kind(),
            Instruction::Bool(v) => v.kind(),
            Instruction::Char(v) => v.kind(),
            Instruction::Str(v) => v.kind(),
            Instruction::Var(v) => v.kind(),
            Instruction::VarAssign(v) => v.kind(),
            Instruction::FunctionCall(v) => v.kind(),
            Instruction::MethodCall(v) => v.kind(),
            Instruction::BinaryOp(v) => v.kind(),
            Instruction::Block(v) => v.kind(),
            Instruction::IfElse(v) => v.kind(),
            Instruction::Loop(v) => v.kind(),
            Instruction::Audit(v) => v.kind(),
            Instruction::FunctionDec(v) => v.instr_kind(),
            Instruction::TypeDec(v) => v.kind(),
            Instruction::TypeInstantiation(v) => v.kind(),
            Instruction::Incl(v) => v.kind(),
            Instruction::JkInst(v) => v.kind(),
            Instruction::Return(v) => v.kind(),
        }
    }
}

/// Write the nodes out behind what `out` holds, with `, ` between each
/// two of them.
pub fn write_joined(nodes: &Vec<Instruction>, out: &mut String)
    ensures
        final(out)@ == old(out)@ + joined(render_each(forest(*nodes)), ", "@),
    decreases nodes,
{
    let ghost before = out@;
    let ghost parts = render_each(forest(*nodes));
    let mut i: usize = 0;
    assert(parts.take(0) =~= Seq::empty());
    assert(before + Seq::<char>::empty() =~= before);
    while i < nodes.len()
        invariant
            i <= nodes.len(),
            parts == render_each(forest(*nodes)),
            out@ == before + joined(parts.take(i as int), ", "@),
        decreases nodes.len() - i,
    {
        let ghost done = joined(parts.take(i as int), ", "@);
        if i > 0 {
            out.append(", ");
        }
        nodes[i].write(out);
        proof {
            assert(parts.take(i + 1).drop_last() =~= parts.take(i as int));
            assert(parts.take(i + 1).last() == render(nodes[i as int]@));
            if i == 0 {
                assert(parts.take(1)[0] == parts[0]);
                assert(out@ =~= before + joined(parts.take(1), ", "@));
            } else {
                assert(out@ =~= before + (done + ", "@ + render(nodes[i as int]@)));
            }
        }
        i += 1;
    }
    assert(parts.take(nodes.len() as int) =~= parts);
}

/// Write the nodes out behind what `out` holds, each followed by `; `.
pub fn write_each_ended(nodes: &Vec<Instruction>, out: &mut String)
    ensures
        final(out)@ == old(out)@ + each_ended(render_each(forest(*nodes)), "; "@),
    decreases nodes,
{
    let ghost before = out@;
    let ghost parts = render_each(forest(*nodes));
    let mut i: usize = 0;
    assert(parts.take(0) =~= Seq::empty());
    assert(before + Seq::<char>::empty() =~= before);
    while i < nodes.len()
        invariant
            i <= nodes.len(),
            parts == render_each(forest(*nodes)),
            out@ == before + each_ended(parts.take(i as int), "; "@),
        decreases nodes.len() - i,
    {
        let ghost done = each_ended(parts.take(i as int), "; "@);
        nodes[i].write(out);
        out.append("; ");
        proof {
            assert(parts.take(i + 1).drop_last() =~= parts.take(i as int));
            assert(parts.take(i + 1).last() == render(nodes[i as int]@));
            assert(out@ =~= before + (done + render(nodes[i as int]@) + "; "@));
        }
        i += 1;
    }
    assert(parts.take(nodes.len() as int) =~= parts);
}

} // verus!
