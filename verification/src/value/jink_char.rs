//! Represents a single character in jinko.

use vstd::prelude::*;
use vstd::string::*;
use crate::instruction::{InstrKind, Tree};
use crate::instruction::render::render;

verus! {

/// A character literal.
#[derive(Clone, Debug)]
pub struct JinkChar(char);

/// The character that the literal stands for.
impl View for JinkChar {
    type V = char;

    closed spec fn view(&self) -> char {
        self.0
    }
}

impl JinkChar {
    /// Create the literal that stands for `c`.
    pub fn from(c: char) -> (v: Self)
        ensures
            v@ == c,
    {
        JinkChar(c)
    }

    /// The character that the literal stands for.
    pub fn value(&self) -> (c: char)
        ensures
            c == self@,
    {
        self.0
    }

    /// A literal yields a value.
    pub fn kind(&self) -> (k: InstrKind)
        ensures
            k == InstrKind::Expression(None),
    {
        InstrKind::Expression(None)
    }

    /// Write the literal out behind what `out` holds.
    pub fn write(&self, out: &mut String)
        ensures
            final(out)@ == old(out)@ + render(Tree::Char(self@)),
    {
        out.push(self.0);
    }

    /// The printable form of the literal.
    pub fn print(&self) -> (s: String)
        ensures
            s@ == render(Tree::Char(self@)),
    {
        let mut s = String::new();
        self.write(&mut s);
        assert(s@ =~= render(Tree::Char(self@)));
        s
    }
}

} // verus!
