//! The creation of a value of a declared type: `Point { 1, 2 }`.

use vstd::prelude::*;
use vstd::string::*;
use crate::instruction::{forest, InstrKind, Instruction, kind_of, Tree, write_joined};
use crate::instruction::render::render;

verus! {

/// The name of a type and the values of its fields.
#[derive(Debug)]
pub struct TypeInstantiation {
    name: String,
    fields: Vec<Instruction>,
}

impl View for TypeInstantiation {
    type V = Tree;

    closed spec fn view(&self) -> Tree
        decreases self,
    {
        Tree::TypeInstantiation { name: self.name@, values: forest(self.fields) }
    }
}

impl TypeInstantiation {
    /// Create an instantiation of the type `name` without any field.
    pub fn new(name: String) -> (t: TypeInstantiation)
        ensures
            t@ == (Tree::TypeInstantiation { name: name@, values: Seq::empty() }),
    {
        let t = TypeInstantiation { name, fields: Vec::new() };
        assert(forest(t.fields) =~= Seq::empty());
        t
    }

    /// Add the value of a field behind those that the instantiation has.
    pub fn add_field(&mut self, field: Instruction)
        ensures
            old(self)@ matches Tree::TypeInstantiation { name, values } && final(self)@ == (
            Tree::TypeInstantiation { name, values: values.push(field@) }),
    {
        self.fields.push(field);
        assert(forest(self.fields) =~= forest(old(self).fields).push(field@));
    }

    /// Give the instantiation all of its fields at once.
    pub fn set_fields(&mut self, fields: Vec<Instruction>)
        ensures
            old(self)@ matches Tree::TypeInstantiation { name, .. } && final(self)@ == (
            Tree::TypeInstantiation { name, values: forest(fields) }),
    {
        self.fields = fields;
    }

    /// The name of the type.
    pub fn name(&self) -> (n: &str)
        ensures
            self@ matches Tree::TypeInstantiation { name, .. } && n@ == name,
    {
        self.name.as_str()
    }

    /// The values of the fields, in the order written.
    pub fn fields(&self) -> (f: &Vec<Instruction>)
        ensures
            self@ matches Tree::TypeInstantiation { values, .. } && forest(*f) == values,
    {
        &self.fields
    }

    /// An instantiation yields a value.
    pub fn kind(&self) -> (k: InstrKind)
        ensures
            k == kind_of(self@),
    {
        InstrKind::Expression(None)
    }

    /// Write the instantiation out behind what `out` holds.
    pub fn write(&self, out: &mut String)
        ensures
            final(out)@ == old(out)@ + render(self@),
        decreases self,
    {
        let ghost before = out@;
        out.append(self.name.as_str());
        out.append(" { ");
        write_joined(&self.fields, out);
        out.append(" }");
        assert(out@ =~= before + render(self@));
    }

    /// The printable form of the instantiation.
    pub fn print(&self) -> (s: String)
        ensures
            s@ == render(self@),
    {
        let mut s = String::new();
        self.write(&mut s);
        assert(s@ =~= render(self@));
        s
    }
}

/// The tree of an instantiation is an instantiation.
pub broadcast proof fn type_instantiation_shape(node: TypeInstantiation)
    ensures
        (#[trigger] node@) is TypeInstantiation,
{
}

} // verus!
