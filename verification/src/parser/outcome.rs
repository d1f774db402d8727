//! What a rule answers, and how the answers of rules are combined.

use vstd::prelude::*;
use crate::error::ErrorKind;
use crate::instruction::{BlockTree, forest, Instruction, Operator, Tree, TypedName};
use crate::instruction::function_declaration::{FunctionDecArg, typed_names};
use crate::instruction::incl::maybe_text;
use crate::parser::source::Source;

verus! {

/// The outcome of a rule: the cursor behind what it accepted and what it
/// built, or the reason of its failure.
pub type Parsed<T> = Result<(int, T), ErrorKind>;

/// The outcome of a rule that started at `from`, kept only if the rule
/// moved the cursor forward and stayed inside the text.
pub open spec fn advanced<T>(s: Seq<char>, from: int, r: Parsed<T>) -> Parsed<T> {
    match r {
        Ok((end, _)) => if from < end <= s.len() {
            r
        } else {
            Err(ErrorKind::ConstructNotRecognized)
        },
        Err(_) => r,
    }
}

/// The first of two outcomes that is a success.
pub open spec fn or_else<T>(first: Parsed<T>, second: Parsed<T>) -> Parsed<T> {
    match first {
        Ok(_) => first,
        Err(_) => second,
    }
}

/// The outcome of an alternation: that of its parts, or the failure to
/// recognise any of them.
pub open spec fn one_of<T>(parts: Parsed<T>) -> Parsed<T> {
    match parts {
        Ok(_) => parts,
        Err(_) => Err(ErrorKind::ConstructNotRecognized),
    }
}

/// The outcome of a repetition of which `done` is already read and `rest`
/// is what the remainder gives.
pub open spec fn prefixed<T>(done: Seq<T>, rest: (int, Seq<T>)) -> (int, Seq<T>) {
    (rest.0, done + rest.1)
}

/// As [`prefixed`], for a repetition that may fail.
pub open spec fn prefixed_ok<T>(done: Seq<T>, rest: Parsed<Seq<T>>) -> Parsed<Seq<T>> {
    match rest {
        Ok((end, others)) => Ok((end, done + others)),
        Err(e) => Err(e),
    }
}

/// The content of a block of which the statements `done` are already read
/// and `rest` is what the remainder gives.
pub open spec fn after_statements(done: Seq<Tree>, rest: (int, BlockTree)) -> (int, BlockTree) {
    (rest.0, BlockTree { instructions: done + rest.1.instructions, last: rest.1.last })
}

/// The run of which the operators `ops` and the operands `values` are
/// already read and `rest` is what the remainder gives.
pub open spec fn continued(
    ops: Seq<Operator>,
    values: Seq<Tree>,
    rest: Parsed<(Seq<Operator>, Seq<Tree>)>,
) -> Parsed<(Seq<Operator>, Seq<Tree>)> {
    match rest {
        Ok((end, (more_ops, more_values))) => Ok((end, (ops + more_ops, values + more_values))),
        Err(e) => Err(e),
    }
}

/// What a parsing function answers: the cursor behind what it accepted
/// and the node that it built, or the reason of its failure.
pub type Outcome<T> = Result<(usize, T), ErrorKind>;

/// The answer `r` is the outcome `m`: the same cursor and a node of that
/// tree, or the same failure.
pub open spec fn agrees<T: View>(r: Outcome<T>, m: Parsed<T::V>) -> bool {
    match r {
        Ok((end, node)) => m == Ok::<(int, T::V), ErrorKind>((end as int, node@)),
        Err(e) => m == Err::<(int, T::V), ErrorKind>(e),
    }
}

/// As [`agrees`], for a list of nodes.
pub open spec fn agrees_forest(r: Outcome<Vec<Instruction>>, m: Parsed<Seq<Tree>>) -> bool {
    match r {
        Ok((end, nodes)) => m == Ok::<(int, Seq<Tree>), ErrorKind>((end as int, forest(nodes))),
        Err(e) => m == Err::<(int, Seq<Tree>), ErrorKind>(e),
    }
}

/// As [`agrees`], for a list of declared arguments.
pub open spec fn agrees_names(r: Outcome<Vec<FunctionDecArg>>, m: Parsed<Seq<TypedName>>) -> bool {
    match r {
        Ok((end, args)) => m == Ok::<(int, Seq<TypedName>), ErrorKind>(
            (end as int, typed_names(args)),
        ),
        Err(e) => m == Err::<(int, Seq<TypedName>), ErrorKind>(e),
    }
}

/// As [`agrees`], for a name that may be absent.
pub open spec fn agrees_name(r: Outcome<Option<String>>, m: Parsed<Option<Seq<char>>>) -> bool {
    match r {
        Ok((end, name)) => m == Ok::<(int, Option<Seq<char>>), ErrorKind>(
            (end as int, maybe_text(name)),
        ),
        Err(e) => m == Err::<(int, Option<Seq<char>>), ErrorKind>(e),
    }
}

/// A success of `r`, which started at `pos`, ends behind `pos` and inside
/// the text.
pub open spec fn forward<T>(src: &Source, pos: usize, r: Outcome<T>) -> bool {
    r matches Ok((end, _)) ==> pos < end <= src@.len()
}

/// Turn a lexeme that was looked for into an outcome: one that is not
/// there is a missing token.
pub fn need<T>(found: Option<T>) -> (r: Result<T, ErrorKind>)
    ensures
        r == match found {
            Some(t) => Ok::<T, ErrorKind>(t),
            None => Err::<T, ErrorKind>(ErrorKind::ExpectedTokenMissing),
        },
{
    match found {
        Some(t) => Ok(t),
        None => Err(ErrorKind::ExpectedTokenMissing),
    }
}

} // verus!
