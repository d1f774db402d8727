//! The three loops of the language: `loop`, `while` and `for`.

use vstd::prelude::*;
use vstd::string::*;
use crate::instruction::{Block, InstrKind, Instruction, kind_of, LoopTree, Tree, Var};
use crate::instruction::render::render;

verus! {

/// What decides how often the body of a loop runs.
#[derive(Debug)]
pub enum LoopKind {
    /// `loop`: nothing, the body runs again and again.
    Loop,
    /// `while`: the body runs as long as the condition holds.
    While(Box<Instruction>),
    /// `for`: the body runs once for each value of the range, which the
    /// variable takes in turn.
    For(Var, Box<Instruction>),
}

impl View for LoopKind {
    type V = LoopTree;

    open spec fn view(&self) -> LoopTree
        decreases self,
    {
        match self {
            LoopKind::Loop => LoopTree::Loop,
            LoopKind::While(condition) => LoopTree::While(Box::new(condition.tree())),
            LoopKind::For(variable, range) => LoopTree::For(variable@, Box::new(range.tree())),
        }
    }
}

impl LoopKind {
}

/// A loop: what drives it, and its body.
#[derive(Debug)]
pub struct Loop {
    kind: LoopKind,
    block: Block,
}

impl View for Loop {
    type V = Tree;

    closed spec fn view(&self) -> Tree
        decreases self,
    {
        Tree::Loop { kind: self.kind@, block: self.block@ }
    }
}

impl Loop {
    /// Create a loop from what drives it and its body.
    pub fn new(kind: LoopKind, block: Block) -> (l: Loop)
        ensures
            l@ == (Tree::Loop { kind: kind@, block: block@ }),
    {
        Loop { kind, block }
    }

    /// What decides how often the body runs.
    pub fn loop_kind(&self) -> (k: &LoopKind)
        ensures
            self@ matches Tree::Loop { kind, .. } && k@ == kind,
    {
        &self.kind
    }

    /// The body of the loop.
    pub fn block(&self) -> (b: &Block)
        ensures
            self@ matches Tree::Loop { block, .. } && b@ == block,
    {
        &self.block
    }

    /// A loop is a statement.
    pub fn kind(&self) -> (k: InstrKind)
        ensures
            k == kind_of(self@),
    {
        InstrKind::Statement
    }

    /// Write the loop out behind what `out` holds.
    pub fn write(&self, out: &mut String)
        ensures
            final(out)@ == old(out)@ + render(self@),
        decreases self,
    {
        let ghost before = out@;
        match &self.kind {
            LoopKind::Loop => {
                out.append("loop ");
            },
            LoopKind::While(condition) => {
                out.append("while ");
                condition.write(out);
                out.append(" ");
            },
            LoopKind::For(variable, range) => {
                out.append("for ");
                out.append(variable.name());
                out.append(" in ");
                range.write(out);
                out.append(" ");
            },
        }
        self.block.write(out);
        assert(out@ =~= before + render(self@));
    }

    /// The printable form of the loop.
    pub fn print(&self) -> (s: String)
        ensures
            s@ == render(self@),
    {
        let mut s = String::new();
        self.write(&mut s);
        assert(s@ =~= render(self@));
        s
    }
}

/// The tree of a loop is a loop.
pub broadcast proof fn loop_shape(node: Loop)
    ensures
        (#[trigger] node@) is Loop,
{
}

} // verus!
