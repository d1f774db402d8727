//! The declaration of a type by its fields: `type Point(x: int, y: int);`.

use vstd::prelude::*;
use vstd::string::*;
use crate::instruction::{InstrKind, kind_of, Tree};
use crate::instruction::function_declaration::{FunctionDecArg, typed_names, write_typed_list};
use crate::instruction::render::render;

verus! {

/// The name of a type and its fields.
#[derive(Debug)]
pub struct TypeDec {
    name: String,
    fields: Vec<FunctionDecArg>,
}

impl View for TypeDec {
    type V = Tree;

    closed spec fn view(&self) -> Tree {
        Tree::TypeDec { name: self.name@, fields: typed_names(self.fields) }
    }
}

impl TypeDec {
    /// Declare the type `name` with the given fields.
    pub fn new(name: String, fields: Vec<FunctionDecArg>) -> (t: TypeDec)
        ensures
            t@ == (Tree::TypeDec { name: name@, fields: typed_names(fields) }),
    {
        TypeDec { name, fields }
    }

    /// The name of the type.
    pub fn name(&self) -> (n: &str)
        ensures
            self@ matches Tree::TypeDec { name, .. } && n@ == name,
    {
        self.name.as_str()
    }

    /// The fields of the type, in the order declared.
    pub fn fields(&self) -> (f: &Vec<FunctionDecArg>)
        ensures
            self@ matches Tree::TypeDec { fields, .. } && typed_names(*f) == fields,
    {
        &self.fields
    }

    /// A type declaration is a statement.
    pub fn kind(&self) -> (k: InstrKind)
        ensures
            k == kind_of(self@),
    {
        InstrKind::Statement
    }

    /// Write the type declaration out behind what `out` holds.
    pub fn write(&self, out: &mut String)
        ensures
            final(out)@ == old(out)@ + render(self@),
    {
        let ghost before = out@;
        out.append("type ");
        out.append(self.name.as_str());
        out.append("(");
        write_typed_list(&self.fields, out);
        out.append(")");
        assert(out@ =~= before + render(self@));
    }

    /// The printable form of the type declaration.
    pub fn print(&self) -> (s: String)
        ensures
            s@ == render(self@),
    {
        let mut s = String::new();
        self.write(&mut s);
        assert(s@ =~= render(self@));
        s
    }
}

/// The tree of a type declaration is a type declaration.
pub broadcast proof fn type_dec_shape(node: TypeDec)
    ensures
        (#[trigger] node@) is TypeDec,
{
}

} // verus!
