//! An audit block: a block in which the interpreter is less strict.

use vstd::prelude::*;
use vstd::string::*;
use crate::instruction::{Block, block_kind, BlockTree, InstrKind, Tree};
use crate::instruction::render::render;

verus! {

/// A block that runs under audit.
#[derive(Debug)]
pub struct Audit {
    block: Block,
}

impl View for Audit {
    type V = BlockTree;

    closed spec fn view(&self) -> BlockTree
        decreases self,
    {
        self.block@
    }
}

impl Audit {
    /// Put `block` under audit.
    pub fn new(block: Block) -> (a: Audit)
        ensures
            a@ == block@,
    {
        Audit { block }
    }

    /// The block under audit.
    pub fn block(&self) -> (b: &Block)
        ensures
            b@ == self@,
    {
        &self.block
    }

    /// An audit is of the kind of its block.
    pub fn kind(&self) -> (k: InstrKind)
        ensures
            k == block_kind(self@),
        decreases self,
    {
        self.block.kind()
    }

    /// Write the audit out behind what `out` holds.
    pub fn write(&self, out: &mut String)
        ensures
            final(out)@ == old(out)@ + render(Tree::Audit(self@)),
        decreases self,
    {
        let ghost before = out@;
        out.append("audit ");
        self.block.write(out);
        assert(out@ =~= before + render(Tree::Audit(self@)));
    }

    /// The printable form of the audit.
    pub fn print(&self) -> (s: String)
        ensures
            s@ == render(Tree::Audit(self@)),
    {
        let mut s = String::new();
        self.write(&mut s);
        assert(s@ =~= render(Tree::Audit(self@)));
        s
    }
}

} // verus!
