//! Represents a floating point number in jinko.
//!
//! The parser keeps the literal as it was written: an optional minus sign,
//! the digits of the whole part, a dot and the digits of the fraction.

use vstd::prelude::*;
use vstd::string::*;
use crate::instruction::{InstrKind, Tree};
use crate::instruction::render::render;

verus! {

/// A floating point literal, kept as it was written.
#[derive(Clone, Debug)]
pub struct JinkFloat(String);

/// The literal, as written.
impl View for JinkFloat {
    type V = Seq<char>;

    closed spec fn view(&self) -> Seq<char> {
        self.0@
    }
}

impl JinkFloat {
    /// Create the literal that is written as `s`.
    pub fn from(s: &str) -> (v: Self)
        ensures
            v@ == s@,
    {
        JinkFloat(s.to_owned())
    }

    /// The literal, as written.
    pub fn text(&self) -> (s: &str)
        ensures
            s@ == self@,
    {
        self.0.as_str()
    }

    /// A literal yields a value.
    pub fn kind(&self) -> (k: InstrKind)
        ensures
            k == InstrKind::Expression(None),
    {
        InstrKind::Expression(None)
    }

    /// Write the literal out behind what `out` holds.
    pub fn write(&self, out: &mut String)
        ensures
            final(out)@ == old(out)@ + render(Tree::Float(self@)),
    {
        out.append(self.0.as_str());
    }

    /// The printable form of the literal.
    pub fn print(&self) -> (s: String)
        ensures
            s@ == render(Tree::Float(self@)),
    {
        let mut s = String::new();
        self.write(&mut s);
        assert(s@ =~= render(Tree::Float(self@)));
        s
    }
}

} // verus!
