//! The printable form of a syntax tree.
//!
//! [`render`] says how a tree is written out. Every node has a `print`
//! method that writes its own tree that way.

use vstd::prelude::*;
use crate::instruction::{
    BlockTree, CallTree, FunctionKind, FunctionTree, JkInst, LoopTree, Tree, TypedName,
};

verus! {

/// The character that stands for a digit.
pub open spec fn digit_char(d: int) -> char {
    ((d + 48) as u8) as char
}

/// The digits of a number in base ten, without leading zeros.
pub open spec fn digits_of(n: nat) -> Seq<char>
    decreases n,
{
    if n < 10 {
        seq![digit_char(n as int)]
    } else {
        digits_of(n / 10).push(digit_char((n % 10) as int))
    }
}

/// The decimal form of a signed 64-bit integer: its digits, behind a
/// minus sign if it is negative.
pub open spec fn decimal_text(i: i64) -> Seq<char> {
    if i < 0 {
        seq!['-'] + digits_of((-i) as nat)
    } else {
        digits_of(i as nat)
    }
}

/// `i64::to_string`: the result is the number in base ten, without
/// leading zeros, behind a minus sign if it is negative.
#[verifier::external_body]
pub(crate) fn int_to_string(i: i64) -> (s: String)
    ensures
        s@ == decimal_text(i),
{
    i.to_string()
}

/// The texts of `parts`, each followed by `end`.
pub open spec fn each_ended(parts: Seq<Seq<char>>, end: Seq<char>) -> Seq<char>
    decreases parts.len(),
{
    if parts.len() == 0 {
        Seq::empty()
    } else {
        each_ended(parts.drop_last(), end) + parts.last() + end
    }
}

/// The texts of `parts` with `between` between each two of them.
pub open spec fn joined(parts: Seq<Seq<char>>, between: Seq<char>) -> Seq<char>
    decreases parts.len(),
{
    if parts.len() == 0 {
        Seq::empty()
    } else if parts.len() == 1 {
        parts[0]
    } else {
        joined(parts.drop_last(), between) + between + parts.last()
    }
}

/// `name: ty`
pub open spec fn render_typed(arg: TypedName) -> Seq<char> {
    arg.name + ": "@ + arg.ty
}

/// The declared arguments, separated by `, `.
pub open spec fn render_typed_list(args: Seq<TypedName>) -> Seq<char> {
    joined(args.map_values(|arg: TypedName| render_typed(arg)), ", "@)
}

/// The printable forms of `trees`, in the same order.
pub open spec fn render_each(trees: Seq<Tree>) -> Seq<Seq<char>>
    decreases trees,
{
    Seq::new(
        trees.len(),
        |i: int|
            if 0 <= i < trees.len() {
                render(trees[i])
            } else {
                Seq::empty()
            },
    )
}

/// `name(arg, arg)`
pub open spec fn render_call(call: CallTree) -> Seq<char>
    decreases call,
{
    call.name + "("@ + joined(render_each(call.args), ", "@) + ")"@
}

/// `{ statement; statement; last }`
pub open spec fn render_block(block: BlockTree) -> Seq<char>
    decreases block,
{
    "{ "@ + each_ended(render_each(block.instructions), "; "@) + (match block.last {
        Some(last) => render(*last) + " "@,
        None => Seq::empty(),
    }) + "}"@
}

/// The words in front of the name of a declaration.
pub open spec fn kind_words(kind: FunctionKind) -> Seq<char> {
    match kind {
        FunctionKind::Unknown => Seq::empty(),
        FunctionKind::Func => "func "@,
        FunctionKind::Ext => "ext func "@,
        FunctionKind::Test => "test "@,
        FunctionKind::Mock => "mock "@,
    }
}

/// `func name(arg: ty) -> ty { .. }`, or the same with `;` where the
/// declaration has no block.
pub open spec fn render_function(f: FunctionTree) -> Seq<char>
    decreases f,
{
    kind_words(f.kind) + f.name + "("@ + render_typed_list(f.args) + ")"@ + (match f.ty {
        Some(ty) => " -> "@ + ty,
        None => Seq::empty(),
    }) + (match f.block {
        Some(block) => " "@ + render_block(block),
        None => ";"@,
    })
}

/// How a tree is written out.
pub open spec fn render(t: Tree) -> Seq<char>
    decreases t,
{
    match t {
        Tree::Int(i) => decimal_text(i),
        Tree::Float(text) => text,
        Tree::Bool(b) => if b {
            "true"@
        } else {
            "false"@
        },
        Tree::Char(c) => seq![c],
        Tree::Str(text) => "\""@ + text + "\""@,
        Tree::Var(name) => name,
        Tree::VarAssign { mutable, symbol, value } => (if mutable {
            "mut "@
        } else {
            Seq::empty()
        }) + symbol + " = "@ + render(*value),
        Tree::FunctionCall(call) => render_call(call),
        Tree::MethodCall { caller, method } => render(*caller) + "."@ + render_call(method),
        Tree::BinaryOp { op, lhs, rhs } => render(*lhs) + " "@ + op.text() + " "@
            + render(*rhs),
        Tree::Block(block) => render_block(block),
        Tree::IfElse { condition, if_body, else_body } => "if "@ + render(*condition)
            + " "@ + render_block(if_body) + (match else_body {
            Some(block) => " else "@ + render_block(block),
            None => Seq::empty(),
        }),
        Tree::Loop { kind, block } => (match kind {
            LoopTree::Loop => "loop "@,
            LoopTree::While(condition) => "while "@ + render(*condition)
                + " "@,
            LoopTree::For(variable, range) => "for "@ + variable + " in "@ + render(*range) + " "@,
        }) + render_block(block),
        Tree::Audit(block) => "audit "@ + render_block(block),
        Tree::FunctionDec(f) => render_function(f),
        Tree::TypeDec { name, fields } => "type "@ + name + "("@
            + render_typed_list(fields) + ")"@,
        Tree::TypeInstantiation { name, values } => name + " { "@ + joined(
            render_each(values),
            ", "@,
        ) + " }"@,
        Tree::Incl { path, alias } => "incl "@ + path + (match alias {
            Some(alias) => " as "@ + alias,
            None => Seq::empty(),
        }),
        Tree::JkInst(inst) => "@"@ + inst.name() + "()"@,
        Tree::Return(value) => "return"@ + (match value {
            Some(value) => " "@ + render(*value),
            None => Seq::empty(),
        }),
    }
}

} // verus!
