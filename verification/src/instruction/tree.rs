//! The mathematical model of a syntax tree.
//!
//! A [`Tree`] holds what a node is made of as plain values: names are
//! sequences of characters, children are trees. Every node type of this
//! crate has a view into this model, and the grammar is stated over it.

use vstd::prelude::*;
use crate::instruction::binary_op::Operator;
use crate::instruction::function_declaration::FunctionKind;
use crate::instruction::jk_inst::JkInst;

verus! {

/// A name followed by its type, as in `lhs: int`.
pub struct TypedName {
    pub name: Seq<char>,
    pub ty: Seq<char>,
}

/// A callee and its arguments, in the order written.
pub struct CallTree {
    pub name: Seq<char>,
    pub args: Seq<Tree>,
}

/// Statements run for their effect, then at most one node whose value the
/// block yields.
pub struct BlockTree {
    pub instructions: Seq<Tree>,
    pub last: Option<Box<Tree>>,
}

/// The three forms of a loop.
pub enum LoopTree {
    Loop,
    While(Box<Tree>),
    For(Seq<char>, Box<Tree>),
}

/// A function, test, mock or external declaration.
pub struct FunctionTree {
    pub name: Seq<char>,
    pub ty: Option<Seq<char>>,
    pub kind: FunctionKind,
    pub args: Seq<TypedName>,
    pub block: Option<BlockTree>,
}

/// What a node of the syntax tree is made of.
pub enum Tree {
    Int(i64),
    /// A floating point literal, as written.
    Float(Seq<char>),
    Bool(bool),
    Char(char),
    Str(Seq<char>),
    Var(Seq<char>),
    VarAssign { mutable: bool, symbol: Seq<char>, value: Box<Tree> },
    FunctionCall(CallTree),
    MethodCall { caller: Box<Tree>, method: CallTree },
    BinaryOp { op: Operator, lhs: Box<Tree>, rhs: Box<Tree> },
    Block(BlockTree),
    IfElse { condition: Box<Tree>, if_body: BlockTree, else_body: Option<BlockTree> },
    Loop { kind: LoopTree, block: BlockTree },
    Audit(BlockTree),
    FunctionDec(FunctionTree),
    TypeDec { name: Seq<char>, fields: Seq<TypedName> },
    TypeInstantiation { name: Seq<char>, values: Seq<Tree> },
    Incl { path: Seq<char>, alias: Option<Seq<char>> },
    JkInst(JkInst),
    Return(Option<Box<Tree>>),
}

} // verus!
