//! Function declarations are used when adding a new function to the source.
//! They contain a name, a list of required arguments as well as an associated
//! code block.

use vstd::prelude::*;
use vstd::string::*;
use crate::instruction::{Block, FunctionTree, InstrKind, TypedName};
use crate::instruction::incl::maybe_text;
use crate::instruction::render::{
    joined, kind_words, render_block, render_function, render_typed, render_typed_list,
};

verus! {

/// What "kind" of function is defined. There are four kinds of functions:
/// the normal ones, the external ones, the unit tests and the mocks.
#[derive(Clone, Copy, Debug, PartialEq, Eq, Structural)]
pub enum FunctionKind {
    Unknown,
    Func,
    Ext,
    Test,
    Mock,
}

/// An argument of a declaration: its name and its type.
#[derive(Debug)]
pub struct FunctionDecArg {
    name: String,
    ty: String,
}

/// The declaration of a function, a test, a mock or an external function.
#[derive(Debug)]
pub struct FunctionDec {
    name: String,
    ty: Option<String>,
    kind: FunctionKind,
    args: Vec<FunctionDecArg>,
    block: Option<Block>,
}

/// The names and types of a list of declared arguments, in the same order.
pub open spec fn typed_names(args: Vec<FunctionDecArg>) -> Seq<TypedName> {
    args@.map_values(|a: FunctionDecArg| a@)
}

impl View for FunctionDecArg {
    type V = TypedName;

    closed spec fn view(&self) -> TypedName {
        TypedName { name: self.name@, ty: self.ty@ }
    }
}

impl FunctionDecArg {
    /// Create a new function declaration argument with a name and a type
    pub fn new(name: String, ty: String) -> (a: FunctionDecArg)
        ensures
            a@ == (TypedName { name: name@, ty: ty@ }),
    {
        FunctionDecArg { name, ty }
    }

    /// Return a reference to the argument's name
    pub fn name(&self) -> (n: &String)
        ensures
            n@ == self@.name,
    {
        &self.name
    }

    /// Return a reference to the argument's type
    pub fn ty(&self) -> (t: &String)
        ensures
            t@ == self@.ty,
    {
        &self.ty
    }
}

impl View for FunctionDec {
    type V = FunctionTree;

    closed spec fn view(&self) -> FunctionTree
        decreases self,
    {
        FunctionTree {
            name: self.name@,
            ty: maybe_text(self.ty),
            kind: self.kind,
            args: typed_names(self.args),
            block: match self.block {
                Some(b) => Some(b@),
                None => None,
            },
        }
    }
}

/// Write the declared arguments out behind what `out` holds, with `, `
/// between each two of them.
pub fn write_typed_list(args: &Vec<FunctionDecArg>, out: &mut String)
    ensures
        final(out)@ == old(out)@ + render_typed_list(typed_names(*args)),
{
    let ghost before = out@;
    let ghost parts = typed_names(*args).map_values(|arg: TypedName| render_typed(arg));
    let mut i: usize = 0;
    assert(parts.take(0) =~= Seq::empty());
    assert(before + Seq::<char>::empty() =~= before);
    while i < args.len()
        invariant
            i <= args.len(),
            parts == typed_names(*args).map_values(|arg: TypedName| render_typed(arg)),
            out@ == before + joined(parts.take(i as int), ", "@),
        decreases args.len() - i,
    {
        let ghost done = joined(parts.take(i as int), ", "@);
        if i > 0 {
            out.append(", ");
        }
        out.append(args[i].name.as_str());
        out.append(": ");
        out.append(args[i].ty.as_str());
        proof {
            assert(parts.take(i + 1).drop_last() =~= parts.take(i as int));
            assert(parts.take(i + 1).last() == render_typed(args[i as int]@));
            if i == 0 {
                assert(parts.take(1)[0] == parts[0]);
                assert(out@ =~= before + joined(parts.take(1), ", "@));
            } else {
                assert(out@ =~= before + (done + ", "@ + render_typed(args[i as int]@)));
            }
        }
        i += 1;
    }
    assert(parts.take(args.len() as int) =~= parts);
}

impl FunctionDec {
    /// Create a new function declaration with a given name, no args and no code block
    pub fn new(name: String, ty: Option<String>) -> (f: FunctionDec)
        ensures
            f@ == (FunctionTree {
                name: name@,
                ty: maybe_text(ty),
                kind: FunctionKind::Unknown,
                args: Seq::empty(),
                block: None,
            }),
    {
        let f = FunctionDec { name, ty, kind: FunctionKind::Unknown, args: Vec::new(), block: None };
        assert(typed_names(f.args) =~= Seq::empty());
        f
    }

    /// Set the block of a given function declaration. This is useful since parsing a
    /// function's block comes after the function signature.
    pub fn set_block(&mut self, block: Block)
        ensures
            final(self)@ == (FunctionTree { block: Some(block@), ..old(self)@ }),
    {
        self.block = Some(block)
    }

    /// Return a reference to the function's name
    pub fn name(&self) -> (n: &str)
        ensures
            n@ == self@.name,
    {
        self.name.as_str()
    }

    /// Return a reference to the function's return type
    pub fn ty(&self) -> (t: Option<&str>)
        ensures
            match t {
                Some(t) => self@.ty == Some(t@),
                None => self@.ty is None,
            },
    {
        match &self.ty {
            Some(ty) => Some(ty.as_str()),
            None => None,
        }
    }

    /// Return the kind of a function
    pub fn kind(&self) -> (k: FunctionKind)
        ensures
            k == self@.kind,
    {
        self.kind
    }

    /// Set the kind of a function. This cannot be done at initialization due to the
    /// parser's nature
    pub fn set_kind(&mut self, kind: FunctionKind)
        ensures
            final(self)@ == (FunctionTree { kind: kind, ..old(self)@ }),
    {
        self.kind = kind
    }

    /// Return a reference to the function's arguments
    pub fn args(&self) -> (a: &Vec<FunctionDecArg>)
        ensures
            typed_names(*a) == self@.args,
    {
        &self.args
    }

    /// Set the vector of arguments that the function should handle
    pub fn set_args(&mut self, args: Vec<FunctionDecArg>)
        ensures
            final(self)@ == (FunctionTree { args: typed_names(args), ..old(self)@ }),
    {
        self.args = args
    }

    /// Return a reference to the function's block
    pub fn block(&self) -> (b: Option<&Block>)
        ensures
            match b {
                Some(b) => self@.block == Some(b@),
                None => self@.block is None,
            },
    {
        match &self.block {
            Some(b) => Some(b),
            None => None,
        }
    }

    /// A declaration is a statement, whatever its kind.
    pub fn instr_kind(&self) -> (k: InstrKind)
        ensures
            k == InstrKind::Statement,
    {
        InstrKind::Statement
    }

    /// Write the declaration out behind what `out` holds.
    pub fn write(&self, out: &mut String)
        ensures
            final(out)@ == old(out)@ + render_function(self@),
        decreases self,
    {
        let ghost before = out@;
        let ghost words = kind_words(self.kind);
        match self.kind {
            FunctionKind::Unknown => {},
            FunctionKind::Func => out.append("func "),
            FunctionKind::Ext => out.append("ext func "),
            FunctionKind::Test => out.append("test "),
            FunctionKind::Mock => out.append("mock "),
        }
        assert(out@ =~= before + words);
        out.append(self.name.as_str());
        out.append("(");
        write_typed_list(&self.args, out);
        out.append(")");
        let ghost signature = words + self.name@ + "("@ + render_typed_list(typed_names(self.args))
            + ")"@;
        assert(out@ =~= before + signature);
        let ghost returned = match &self.ty {
            Some(ty) => " -> "@ + ty@,
            None => Seq::empty(),
        };
        match &self.ty {
            Some(ty) => {
                out.append(" -> ");
                out.append(ty.as_str());
            },
            None => {},
        }
        assert(out@ =~= before + (signature + returned));
        let ghost body = match &self.block {
            Some(block) => " "@ + render_block(block@),
            None => ";"@,
        };
        match &self.block {
            Some(block) => {
                out.append(" ");
                block.write(out);
            },
            None => {
                out.append(";");
            },
        }
        assert(out@ =~= before + (signature + returned + body));
        assert(render_function(self@) == signature + returned + body);
    }

    /// The printable form of the declaration.
    pub fn print(&self) -> (s: String)
        ensures
            s@ == render_function(self@),
    {
        let mut s = String::new();
        self.write(&mut s);
        assert(s@ =~= render_function(self@));
        s
    }
}

} // verus!
