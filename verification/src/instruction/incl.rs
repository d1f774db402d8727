//! The inclusion of another source: `incl path` or `incl path as alias`.
//!
//! The node only holds what was written. Finding and reading the source
//! behind the path is left to whoever consumes the tree.

use vstd::prelude::*;
use vstd::string::*;
use crate::instruction::{InstrKind, kind_of, Tree};
use crate::instruction::render::render;

verus! {

/// The path of a source to include and the name to include it under.
#[derive(Debug)]
pub struct Incl {
    path: String,
    alias: Option<String>,
}

/// The characters of a string that may be absent.
pub open spec fn maybe_text(s: Option<String>) -> Option<Seq<char>> {
    match s {
        Some(s) => Some(s@),
        None => None,
    }
}

impl View for Incl {
    type V = Tree;

    closed spec fn view(&self) -> Tree {
        Tree::Incl { path: self.path@, alias: maybe_text(self.alias) }
    }
}

impl Incl {
    /// Include `path`, under the name `alias` if there is one.
    pub fn new(path: String, alias: Option<String>) -> (i: Incl)
        ensures
            i@ == (Tree::Incl { path: path@, alias: maybe_text(alias) }),
    {
        Incl { path, alias }
    }

    /// The path of the source to include, as written.
    pub fn path(&self) -> (p: &str)
        ensures
            self@ matches Tree::Incl { path, .. } && p@ == path,
    {
        self.path.as_str()
    }

    /// The name under which the source is included, if one was given.
    pub fn alias(&self) -> (a: Option<&str>)
        ensures
            self@ matches Tree::Incl { alias, .. } && match a {
                Some(a) => alias == Some(a@),
                None => alias is None,
            },
    {
        match &self.alias {
            Some(a) => Some(a.as_str()),
            None => None,
        }
    }

    /// An inclusion is a statement.
    pub fn kind(&self) -> (k: InstrKind)
        ensures
            k == kind_of(self@),
    {
        InstrKind::Statement
    }

    /// Write the inclusion out behind what `out` holds.
    pub fn write(&self, out: &mut String)
        ensures
            final(out)@ == old(out)@ + render(self@),
    {
        let ghost before = out@;
        out.append("incl ");
        out.append(self.path.as_str());
        match &self.alias {
            Some(alias) => {
                out.append(" as ");
                out.append(alias.as_str());
            },
            None => {},
        }
        assert(out@ =~= before + render(self@));
    }

    /// The printable form of the inclusion.
    pub fn print(&self) -> (s: String)
        ensures
            s@ == render(self@),
    {
        let mut s = String::new();
        self.write(&mut s);
        assert(s@ =~= render(self@));
        s
    }
}

/// The tree of an inclusion is an inclusion.
pub broadcast proof fn incl_shape(node: Incl)
    ensures
        (#[trigger] node@) is Incl,
{
}

} // verus!
