//! The assignment of a value to a variable, which declares the variable the
//! first time: `x = 12`, `mut n = f()`.

use vstd::prelude::*;
use vstd::string::*;
use crate::instruction::{InstrKind, Instruction, kind_of, Tree};
use crate::instruction::render::render;

verus! {

/// A variable, the value that it is given and whether it may change.
#[derive(Debug)]
pub struct VarAssign {
    mutable: bool,
    symbol: String,
    value: Box<Instruction>,
}

impl View for VarAssign {
    type V = Tree;

    closed spec fn view(&self) -> Tree
        decreases self,
    {
        Tree::VarAssign {
            mutable: self.mutable,
            symbol: self.symbol@,
            value: Box::new(self.value.tree()),
        }
    }
}

impl VarAssign {
    /// Assign `value` to the variable called `symbol`.
    pub fn new(mutable: bool, symbol: String, value: Instruction) -> (v: VarAssign)
        ensures
            v@ == (Tree::VarAssign { mutable, symbol: symbol@, value: Box::new(value@) }),
    {
        VarAssign { mutable, symbol, value: Box::new(value) }
    }

    /// Whether the variable may be assigned again.
    pub fn mutable(&self) -> (m: bool)
        ensures
            self@ matches Tree::VarAssign { mutable, .. } && m == mutable,
    {
        self.mutable
    }

    /// The name of the variable.
    pub fn symbol(&self) -> (s: &str)
        ensures
            self@ matches Tree::VarAssign { symbol, .. } && s@ == symbol,
    {
        self.symbol.as_str()
    }

    /// The node whose value is assigned.
    pub fn value(&self) -> (i: &Instruction)
        ensures
            self@ matches Tree::VarAssign { value, .. } && i@ == *value,
    {
        &self.value
    }

    /// An assignment is a statement.
    pub fn kind(&self) -> (k: InstrKind)
        ensures
            k == kind_of(self@),
    {
        InstrKind::Statement
    }

    /// Write the assignment out behind what `out` holds.
    pub fn write(&self, out: &mut String)
        ensures
            final(out)@ == old(out)@ + render(self@),
        decreases self,
    {
        let ghost before = out@;
        if self.mutable {
            out.append("mut ");
        }
        out.append(self.symbol.as_str());
        out.append(" = ");
        self.value.write(out);
        assert(out@ =~= before + render(self@));
    }

    /// The printable form of the assignment.
    pub fn print(&self) -> (s: String)
        ensures
            s@ == render(self@),
    {
        let mut s = String::new();
        self.write(&mut s);
        assert(s@ =~= render(self@));
        s
    }
}

/// The tree of an assignment is an assignment.
pub broadcast proof fn var_assign_shape(node: VarAssign)
    ensures
        (#[trigger] node@) is VarAssign,
{
}

} // verus!
