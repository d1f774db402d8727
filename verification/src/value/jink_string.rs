//! Represents a resizeable string in jinko.

use vstd::prelude::*;
use vstd::string::*;
use crate::instruction::{InstrKind, Tree};
use crate::instruction::render::render;

verus! {

/// A string literal.
#[derive(Clone, Debug)]
pub struct JinkString(String);

/// The characters between the quotes.
impl View for JinkString {
    type V = Seq<char>;

    closed spec fn view(&self) -> Seq<char> {
        self.0@
    }
}

impl JinkString {
    /// Create the literal that holds the characters of `s`.
    pub fn from(s: &str) -> (v: Self)
        ensures
            v@ == s@,
    {
        JinkString(s.to_owned())
    }

    /// The characters between the quotes.
    pub fn value(&self) -> (s: &str)
        ensures
            s@ == self@,
    {
        self.0.as_str()
    }

    /// A literal yields a value.
    pub fn kind(&self) -> (k: InstrKind)
        ensures
            k == InstrKind::Expression(None),
    {
        InstrKind::Expression(None)
    }

    /// Write the literal out behind what `out` holds.
    pub fn write(&self, out: &mut String)
        ensures
            final(out)@ == old(out)@ + render(Tree::Str(self@)),
    {
        let ghost before = out@;
        out.append("\"");
        out.append(self.0.as_str());
        out.append("\"");
        assert(out@ =~= before + render(Tree::Str(self@)));
    }

    /// The printable form of the literal.
    pub fn print(&self) -> (s: String)
        ensures
            s@ == render(Tree::Str(self@)),
    {
        let mut s = String::new();
        self.write(&mut s);
        assert(s@ =~= render(Tree::Str(self@)));
        s
    }
}

} // verus!
