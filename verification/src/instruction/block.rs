//! A block: statements between braces, and maybe a trailing node whose value
//! is the value of the block.

use vstd::prelude::*;
use vstd::string::*;
use crate::instruction::{block_kind, BlockTree, forest, InstrKind, Instruction, write_each_ended};
use crate::instruction::render::render_block;

verus! {

/// Statements, and maybe a trailing node that gives the block its value.
#[derive(Debug)]
pub struct Block {
    instructions: Vec<Instruction>,
    last: Option<Box<Instruction>>,
}

impl View for Block {
    type V = BlockTree;

    closed spec fn view(&self) -> BlockTree
        decreases self,
    {
        BlockTree {
            instructions: forest(self.instructions),
            last: match self.last {
                Some(l) => Some(Box::new(l.tree())),
                None => None,
            },
        }
    }
}

impl Block {
    /// Create an empty block.
    pub fn new() -> (b: Block)
        ensures
            b@ == (BlockTree { instructions: Seq::empty(), last: None }),
    {
        let b = Block { instructions: Vec::new(), last: None };
        assert(forest(b.instructions) =~= Seq::empty());
        b
    }

    /// Return the statements of the block, without its trailing node.
    pub fn instructions(&self) -> (i: &Vec<Instruction>)
        ensures
            forest(*i) == self@.instructions,
    {
        &self.instructions
    }

    /// Give the block its statements.
    pub fn set_instructions(&mut self, instructions: Vec<Instruction>)
        ensures
            final(self)@ == (BlockTree {
                instructions: forest(instructions),
                last: old(self)@.last,
            }),
    {
        self.instructions = instructions;
    }

    /// Add a statement behind those that the block has.
    pub fn add_instruction(&mut self, instruction: Instruction)
        ensures
            final(self)@ == (BlockTree {
                instructions: old(self)@.instructions.push(instruction@),
                last: old(self)@.last,
            }),
    {
        self.instructions.push(instruction);
        assert(forest(self.instructions) =~= forest(old(self).instructions).push(instruction@));
    }

    /// Return the trailing node, whose value the block yields.
    pub fn last(&self) -> (l: Option<&Instruction>)
        ensures
            l is Some <==> self@.last is Some,
            l matches Some(i) ==> i@ == *self@.last->0,
    {
        match &self.last {
            Some(b) => Some(&**b),
            None => None,
        }
    }

    /// Give the block its trailing node, or take it away.
    pub fn set_last(&mut self, last: Option<Instruction>)
        ensures
            final(self)@.instructions == old(self)@.instructions,
            last matches Some(i) ==> final(self)@.last == Some(Box::new(i@)),
            last is None ==> final(self)@.last is None,
    {
        self.last = match last {
            Some(i) => Some(Box::new(i)),
            None => None,
        };
    }

    /// A block yields the value of its trailing node, and nothing without one.
    pub fn kind(&self) -> (k: InstrKind)
        ensures
            k == block_kind(self@),
        decreases self,
    {
        match &self.last {
            Some(l) => l.kind(),
            None => InstrKind::Statement,
        }
    }

    /// Write the block out behind what `out` holds.
    pub fn write(&self, out: &mut String)
        ensures
            final(out)@ == old(out)@ + render_block(self@),
        decreases self,
    {
        let ghost before = out@;
        out.append("{ ");
        write_each_ended(&self.instructions, out);
        match &self.last {
            Some(last) => {
                last.write(out);
                out.append(" ");
            },
            None => {},
        }
        out.append("}");
        assert(out@ =~= before + render_block(self@));
    }

    /// The printable form of the block.
    pub fn print(&self) -> (s: String)
        ensures
            s@ == render_block(self@),
    {
        let mut s = String::new();
        self.write(&mut s);
        assert(s@ =~= render_block(self@));
        s
    }
}

} // verus!
