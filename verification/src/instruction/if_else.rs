//! A conditional: a condition, the block to run when it holds, and maybe the
//! block to run when it does not.

use vstd::prelude::*;
use vstd::string::*;
use crate::instruction::{Block, BlockTree, InstrKind, Instruction, kind_of, Tree};
use crate::instruction::render::render;

verus! {

/// A condition and the blocks that it chooses between.
#[derive(Debug)]
pub struct IfElse {
    condition: Box<Instruction>,
    if_body: Block,
    else_body: Option<Block>,
}

/// The tree of a block that may be absent.
pub open spec fn maybe_block(b: Option<Block>) -> Option<BlockTree> {
    match b {
        Some(b) => Some(b@),
        None => None,
    }
}

impl View for IfElse {
    type V = Tree;

    closed spec fn view(&self) -> Tree
        decreases self,
    {
        Tree::IfElse {
            condition: Box::new(self.condition.tree()),
            if_body: self.if_body@,
            else_body: match self.else_body {
                Some(b) => Some(b@),
                None => None,
            },
        }
    }
}

impl IfElse {
    /// Create a conditional from its parts.
    pub fn new(condition: Instruction, if_body: Block, else_body: Option<Block>) -> (i: IfElse)
        ensures
            i@ == (Tree::IfElse {
                condition: Box::new(condition@),
                if_body: if_body@,
                else_body: maybe_block(else_body),
            }),
    {
        IfElse { condition: Box::new(condition), if_body, else_body }
    }

    /// The node that decides which block runs.
    pub fn condition(&self) -> (i: &Instruction)
        ensures
            self@ matches Tree::IfElse { condition, .. } && i@ == *condition,
    {
        &self.condition
    }

    /// The block that runs when the condition holds.
    pub fn if_body(&self) -> (b: &Block)
        ensures
            self@ matches Tree::IfElse { if_body, .. } && b@ == if_body,
    {
        &self.if_body
    }

    /// The block that runs when the condition does not hold, if there is one.
    pub fn else_body(&self) -> (b: Option<&Block>)
        ensures
            self@ matches Tree::IfElse { else_body, .. } && match b {
                Some(b) => else_body == Some(b@),
                None => else_body is None,
            },
    {
        match &self.else_body {
            Some(b) => Some(b),
            None => None,
        }
    }

    /// A conditional is of the kind of its first block.
    pub fn kind(&self) -> (k: InstrKind)
        ensures
            k == kind_of(self@),
        decreases self,
    {
        self.if_body.kind()
    }

    /// Write the conditional out behind what `out` holds.
    pub fn write(&self, out: &mut String)
        ensures
            final(out)@ == old(out)@ + render(self@),
        decreases self,
    {
        let ghost before = out@;
        out.append("if ");
        self.condition.write(out);
        out.append(" ");
        self.if_body.write(out);
        match &self.else_body {
            Some(block) => {
                out.append(" else ");
                block.write(out);
            },
            None => {},
        }
        assert(out@ =~= before + render(self@));
    }

    /// The printable form of the conditional.
    pub fn print(&self) -> (s: String)
        ensures
            s@ == render(self@),
    {
        let mut s = String::new();
        self.write(&mut s);
        assert(s@ =~= render(self@));
        s
    }
}

/// The tree of a conditional is a conditional.
pub broadcast proof fn if_else_shape(node: IfElse)
    ensures
        (#[trigger] node@) is IfElse,
{
}

} // verus!
