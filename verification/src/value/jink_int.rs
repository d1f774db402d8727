//! Represents an integer in jinko. All integers are signed and 64 bits wide.

use vstd::prelude::*;
use vstd::string::*;
use crate::instruction::{InstrKind, Tree};
use crate::instruction::render::{int_to_string, render};

verus! {

/// An integer literal.
#[derive(Clone, Debug)]
pub struct JinkInt(i64);

/// The number that the literal stands for.
impl View for JinkInt {
    type V = i64;

    closed spec fn view(&self) -> i64 {
        self.0
    }
}

impl JinkInt {
    /// Create the literal that stands for `i`.
    pub fn from(i: i64) -> (v: Self)
        ensures
            v@ == i,
    {
        JinkInt(i)
    }

    /// The number that the literal stands for.
    pub fn value(&self) -> (i: i64)
        ensures
            i == self@,
    {
        self.0
    }

    /// A literal yields a value.
    pub fn kind(&self) -> (k: InstrKind)
        ensures
            k == InstrKind::Expression(None),
    {
        InstrKind::Expression(None)
    }

    /// Write the literal out behind what `out` holds.
    pub fn write(&self, out: &mut String)
        ensures
            final(out)@ == old(out)@ + render(Tree::Int(self@)),
    {
        let text = int_to_string(self.0);
        out.append(text.as_str());
    }

    /// The printable form of the literal.
    pub fn print(&self) -> (s: String)
        ensures
            s@ == render(Tree::Int(self@)),
    {
        let mut s = String::new();
        self.write(&mut s);
        assert(s@ =~= render(Tree::Int(self@)));
        s
    }
}

} // verus!
