//! The call of a function in method form: `caller.method(args)`.
//!
//! The node keeps the two parts apart. To run it, the caller becomes the
//! first argument of the call: [`MethodCall::desugar`] does that.

use vstd::prelude::*;
use vstd::string::*;
use crate::instruction::{CallTree, forest, FunctionCall, InstrKind, Instruction, kind_of, Tree};
use crate::instruction::render::render;

verus! {

/// A caller and the call that is made on it.
#[derive(Debug)]
pub struct MethodCall {
    caller: Box<Instruction>,
    method: FunctionCall,
}

impl View for MethodCall {
    type V = Tree;

    closed spec fn view(&self) -> Tree
        decreases self,
    {
        Tree::MethodCall { caller: Box::new(self.caller.tree()), method: self.method@ }
    }
}

impl MethodCall {
    /// Create the call of `method` on `caller`.
    pub fn new(caller: Instruction, method: FunctionCall) -> (m: MethodCall)
        ensures
            m@ == (Tree::MethodCall { caller: Box::new(caller@), method: method@ }),
    {
        MethodCall { caller: Box::new(caller), method }
    }

    /// The node on which the method is called.
    pub fn caller(&self) -> (i: &Instruction)
        ensures
            self@ matches Tree::MethodCall { caller, .. } && i@ == *caller,
    {
        &self.caller
    }

    /// The call, without the caller among its arguments.
    pub fn method(&self) -> (c: &FunctionCall)
        ensures
            self@ matches Tree::MethodCall { method, .. } && c@ == method,
    {
        &self.method
    }

    /// Turn the node into the plain call that it stands for: the same
    /// function, with the caller in front of the arguments.
    pub fn desugar(self) -> (c: FunctionCall)
        ensures
            desugared(self@, c@),
    {
        let MethodCall { caller, method } = self;
        let ghost first = caller.view();
        let ghost written = method@.args;
        let (name, mut rest) = method.into_parts();
        let mut args: Vec<Instruction> = Vec::new();
        args.push(*caller);
        args.append(&mut rest);
        assert(forest(args) =~= seq![first] + written);
        let mut call = FunctionCall::new(name);
        call.set_args(args);
        call
    }

    /// A method call yields a value.
    pub fn kind(&self) -> (k: InstrKind)
        ensures
            k == kind_of(self@),
    {
        InstrKind::Expression(None)
    }

    /// Write the method call out behind what `out` holds.
    pub fn write(&self, out: &mut String)
        ensures
            final(out)@ == old(out)@ + render(self@),
        decreases self,
    {
        let ghost before = out@;
        self.caller.write(out);
        out.append(".");
        self.method.write(out);
        assert(out@ =~= before + render(self@));
    }

    /// The printable form of the method call.
    pub fn print(&self) -> (s: String)
        ensures
            s@ == render(self@),
    {
        let mut s = String::new();
        self.write(&mut s);
        assert(s@ =~= render(self@));
        s
    }
}

/// `call` is what `method_call` stands for: the callee of its method, and the
/// caller followed by the arguments of the method.
pub open spec fn desugared(method_call: Tree, call: CallTree) -> bool {
    method_call matches Tree::MethodCall { caller, method } && call == (CallTree {
        name: method.name,
        args: seq![*caller] + method.args,
    })
}

/// The tree of a method call is a method call.
pub broadcast proof fn method_call_shape(node: MethodCall)
    ensures
        (#[trigger] node@) is MethodCall,
{
}

} // verus!
