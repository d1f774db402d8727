//! A variable, used by its name.

use vstd::prelude::*;
use vstd::string::*;
use crate::instruction::{InstrKind, Tree};
use crate::instruction::render::render;

verus! {

/// The name of a variable.
#[derive(Debug)]
pub struct Var {
    name: String,
}

/// The name of the variable.
impl View for Var {
    type V = Seq<char>;

    closed spec fn view(&self) -> Seq<char> {
        self.name@
    }
}

impl Var {
    /// Create a reference to the variable called `name`.
    pub fn new(name: String) -> (v: Var)
        ensures
            v@ == name@,
    {
        Var { name }
    }

    /// Return the name of the variable.
    pub fn name(&self) -> (n: &str)
        ensures
            n@ == self@,
    {
        self.name.as_str()
    }

    /// A variable yields a value.
    pub fn kind(&self) -> (k: InstrKind)
        ensures
            k == InstrKind::Expression(None),
    {
        InstrKind::Expression(None)
    }

    /// Write the variable out behind what `out` holds.
    pub fn write(&self, out: &mut String)
        ensures
            final(out)@ == old(out)@ + render(Tree::Var(self@)),
    {
        let ghost before = out@;
        out.append(self.name.as_str());
        assert(out@ =~= before + render(Tree::Var(self@)));
    }

    /// The printable form of the variable.
    pub fn print(&self) -> (s: String)
        ensures
            s@ == render(Tree::Var(self@)),
    {
        let mut s = String::new();
        self.write(&mut s);
        assert(s@ =~= render(Tree::Var(self@)));
        s
    }
}

} // verus!
