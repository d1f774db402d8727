//! The call of a function by its name: `f(1, x)`.

use vstd::prelude::*;
use vstd::string::*;
use crate::instruction::{CallTree, forest, InstrKind, Instruction, write_joined};
use crate::instruction::render::render_call;

verus! {

/// The name of a function and the arguments that it is called with.
#[derive(Debug)]
pub struct FunctionCall {
    fn_name: String,
    args: Vec<Instruction>,
}

impl View for FunctionCall {
    type V = CallTree;

    closed spec fn view(&self) -> CallTree
        decreases self,
    {
        CallTree { name: self.fn_name@, args: forest(self.args) }
    }
}

impl FunctionCall {
    /// Create a call of `fn_name` without arguments.
    pub fn new(fn_name: String) -> (c: FunctionCall)
        ensures
            c@ == (CallTree { name: fn_name@, args: Seq::empty() }),
    {
        let c = FunctionCall { fn_name, args: Vec::new() };
        assert(forest(c.args) =~= Seq::empty());
        c
    }

    /// Add an argument behind those that the call has.
    pub fn add_arg(&mut self, arg: Instruction)
        ensures
            final(self)@ == (CallTree { name: old(self)@.name, args: old(self)@.args.push(arg@) }),
    {
        self.args.push(arg);
        assert(forest(self.args) =~= forest(old(self).args).push(arg@));
    }

    /// Give the call all of `args` at once, in place of those that it has.
    pub fn set_args(&mut self, args: Vec<Instruction>)
        ensures
            final(self)@ == (CallTree { name: old(self)@.name, args: forest(args) }),
    {
        self.args = args;
    }

    /// Take the call apart into its name and its arguments.
    pub fn into_parts(self) -> (p: (String, Vec<Instruction>))
        ensures
            p.0@ == self@.name,
            forest(p.1) == self@.args,
    {
        (self.fn_name, self.args)
    }

    /// Return the name of the function that is called.
    pub fn name(&self) -> (n: &str)
        ensures
            n@ == self@.name,
    {
        self.fn_name.as_str()
    }

    /// Return the arguments, in the order written.
    pub fn args(&self) -> (a: &Vec<Instruction>)
        ensures
            forest(*a) == self@.args,
    {
        &self.args
    }

    /// A call yields a value.
    pub fn kind(&self) -> (k: InstrKind)
        ensures
            k == InstrKind::Expression(None),
    {
        InstrKind::Expression(None)
    }

    /// Write the call out behind what `out` holds.
    pub fn write(&self, out: &mut String)
        ensures
            final(out)@ == old(out)@ + render_call(self@),
        decreases self,
    {
        let ghost before = out@;
        out.append(self.fn_name.as_str());
        out.append("(");
        write_joined(&self.args, out);
        out.append(")");
        assert(out@ =~= before + render_call(self@));
    }

    /// The printable form of the call.
    pub fn print(&self) -> (s: String)
        ensures
            s@ == render_call(self@),
    {
        let mut s = String::new();
        self.write(&mut s);
        assert(s@ =~= render_call(self@));
        s
    }
}

} // verus!
