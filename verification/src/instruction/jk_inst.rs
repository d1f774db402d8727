//! Directives to the interpreter, written with a leading `@`.

use vstd::prelude::*;
use vstd::string::*;
use crate::instruction::{InstrKind, Tree};
use crate::instruction::render::render;

verus! {

/// The directives that the interpreter knows. There is no other.
#[derive(Clone, Copy, Debug, PartialEq, Eq, Structural)]
pub enum JkInst {
    /// `@dump`: print the state of the interpreter.
    Dump,
    /// `@quit`: leave the interpreter.
    Quit,
}

impl View for JkInst {
    type V = JkInst;

    open spec fn view(&self) -> JkInst {
        *self
    }
}

impl JkInst {
    /// The name under which the directive is written.
    pub open spec fn name(self) -> Seq<char> {
        match self {
            JkInst::Dump => seq!['d', 'u', 'm', 'p'],
            JkInst::Quit => seq!['q', 'u', 'i', 't'],
        }
    }

    /// The directive that is written as `name`, if there is one.
    pub open spec fn named(name: Seq<char>) -> Option<JkInst> {
        if name == JkInst::Dump.name() {
            Some(JkInst::Dump)
        } else if name == JkInst::Quit.name() {
            Some(JkInst::Quit)
        } else {
            None
        }
    }

    /// Find the directive that is written as `name`.
    pub fn from_str(name: &str) -> (i: Option<JkInst>)
        ensures
            i == JkInst::named(name@),
    {
        proof {
            reveal_strlit("dump");
            reveal_strlit("quit");
            assert("dump"@ =~= JkInst::Dump.name());
            assert("quit"@ =~= JkInst::Quit.name());
        }
        if same_text(name, "dump") {
            Some(JkInst::Dump)
        } else if same_text(name, "quit") {
            Some(JkInst::Quit)
        } else {
            None
        }
    }

    /// The name of the directive, as it is written in a source.
    pub fn word(self) -> (w: &'static str)
        ensures
            w@ == self.name(),
    {
        match self {
            JkInst::Dump => {
                proof {
                    reveal_strlit("dump");
                }
                assert("dump"@ =~= self.name());
                "dump"
            },
            JkInst::Quit => {
                proof {
                    reveal_strlit("quit");
                }
                assert("quit"@ =~= self.name());
                "quit"
            },
        }
    }

    /// Write the directive out behind what `out` holds.
    pub fn write(&self, out: &mut String)
        ensures
            final(out)@ == old(out)@ + render(Tree::JkInst(*self)),
    {
        let ghost before = out@;
        out.append("@");
        out.append(self.word());
        out.append("()");
        assert(out@ =~= before + render(Tree::JkInst(*self)));
    }

    /// The printable form of the directive.
    pub fn print(&self) -> (s: String)
        ensures
            s@ == render(Tree::JkInst(*self)),
    {
        let mut s = String::new();
        self.write(&mut s);
        assert(s@ =~= render(Tree::JkInst(*self)));
        s
    }

    /// A directive is a statement.
    pub fn kind(&self) -> (k: InstrKind)
        ensures
            k == InstrKind::Statement,
    {
        InstrKind::Statement
    }
}

/// Compare two strings character by character.
pub fn same_text(a: &str, b: &str) -> (r: bool)
    ensures
        r == (a@ == b@),
{
    let n: usize = a.unicode_len();
    if n != b.unicode_len() {
        return false;
    }
    let mut i: usize = 0;
    while i < n
        invariant
            n == a@.len(),
            n == b@.len(),
            i <= n,
            a@.subrange(0, i as int) == b@.subrange(0, i as int),
        decreases n - i,
    {
        if a.get_char(i) != b.get_char(i) {
            return false;
        }
        assert(a@.subrange(0, i + 1) =~= a@.subrange(0, i as int).push(a@[i as int]));
        assert(b@.subrange(0, i + 1) =~= b@.subrange(0, i as int).push(b@[i as int]));
        i += 1;
    }
    assert(a@ =~= a@.subrange(0, n as int));
    assert(b@ =~= b@.subrange(0, n as int));
    true
}

} // verus!
