//! Represents a boolean in jinko.

use vstd::prelude::*;
use vstd::string::*;
use crate::instruction::{InstrKind, Tree};
use crate::instruction::render::render;

verus! {

/// A boolean literal.
#[derive(Clone, Debug)]
pub struct JinkBool(bool);

/// The truth value that the literal stands for.
impl View for JinkBool {
    type V = bool;

    closed spec fn view(&self) -> bool {
        self.0
    }
}

impl JinkBool {
    /// Create the literal that stands for `b`.
    pub fn from(b: bool) -> (v: Self)
        ensures
            v@ == b,
    {
        JinkBool(b)
    }

    /// The truth value that the literal stands for.
    pub fn value(&self) -> (b: bool)
        ensures
            b == self@,
    {
        self.0
    }

    /// A literal yields a value.
    pub fn kind(&self) -> (k: InstrKind)
        ensures
            k == InstrKind::Expression(None),
    {
        InstrKind::Expression(None)
    }

    /// Write the literal out behind what `out` holds.
    pub fn write(&self, out: &mut String)
        ensures
            final(out)@ == old(out)@ + render(Tree::Bool(self@)),
    {
        if self.0 {
            out.append("true");
        } else {
            out.append("false");
        }
    }

    /// The printable form of the literal.
    pub fn print(&self) -> (s: String)
        ensures
            s@ == render(Tree::Bool(self@)),
    {
        let mut s = String::new();
        self.write(&mut s);
        assert(s@ =~= render(Tree::Bool(self@)));
        s
    }
}

} // verus!
