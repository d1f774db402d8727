//! A return, with or without a value.

use vstd::prelude::*;
use vstd::string::*;
use crate::instruction::{InstrKind, Instruction, kind_of, Tree};
use crate::instruction::render::render;

verus! {

/// A return and the value that it may carry.
#[derive(Debug)]
pub struct Return {
    value: Option<Box<Instruction>>,
}

impl View for Return {
    type V = Tree;

    closed spec fn view(&self) -> Tree
        decreases self,
    {
        Tree::Return(
            match self.value {
                Some(v) => Some(Box::new(v.tree())),
                None => None,
            },
        )
    }
}

impl Return {
    /// Return `value`, or nothing.
    pub fn new(value: Option<Instruction>) -> (r: Return)
        ensures
            value matches Some(v) ==> r@ == Tree::Return(Some(Box::new(v@))),
            value is None ==> r@ == Tree::Return(None),
    {
        Return {
            value: match value {
                Some(v) => Some(Box::new(v)),
                None => None,
            },
        }
    }

    /// The node whose value is returned.
    pub fn value(&self) -> (v: Option<&Instruction>)
        ensures
            self@ matches Tree::Return(value) && match v {
                Some(i) => value == Some(Box::new(i@)),
                None => value is None,
            },
    {
        match &self.value {
            Some(b) => Some(&**b),
            None => None,
        }
    }

    /// A return is a statement.
    pub fn kind(&self) -> (k: InstrKind)
        ensures
            k == kind_of(self@),
    {
        InstrKind::Statement
    }

    /// Write the return out behind what `out` holds.
    pub fn write(&self, out: &mut String)
        ensures
            final(out)@ == old(out)@ + render(self@),
        decreases self,
    {
        let ghost before = out@;
        out.append("return");
        match &self.value {
            Some(value) => {
                out.append(" ");
                value.write(out);
            },
            None => {},
        }
        assert(out@ =~= before + render(self@));
    }

    /// The printable form of the return.
    pub fn print(&self) -> (s: String)
        ensures
            s@ == render(self@),
    {
        let mut s = String::new();
        self.write(&mut s);
        assert(s@ =~= render(self@));
        s
    }
}

/// The tree of a return is a return.
pub broadcast proof fn return_shape(node: Return)
    ensures
        (#[trigger] node@) is Return,
{
}

} // verus!
