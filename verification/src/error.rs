//! Parse failures.

use vstd::prelude::*;

verus! {

/// Why a rule did not accept its input.
#[derive(Clone, Copy, Debug, PartialEq, Eq, Structural)]
pub enum ErrorKind {
    /// The lexeme that the rule needs next is not at the cursor.
    ExpectedTokenMissing,
    /// None of the alternatives of the rule accepts the input.
    ConstructNotRecognized,
    /// The rule accepted a prefix of the input but has to consume all of it.
    UnexpectedTrailingInput,
    /// A literal starts at the cursor but cannot be given a value.
    MalformedLiteral,
    /// A directive was written with a name that the interpreter does not know.
    UnknownDirective,
}

/// A failed parse: the input that the rule was given, untouched, and the reason.
#[derive(Debug, PartialEq, Eq)]
pub struct ParseError<'i> {
    /// The input that was not accepted. A failure consumes nothing: this is
    /// the whole of what the rule was given.
    pub remaining: &'i str,
    /// The reason of the failure.
    pub kind: ErrorKind,
}

} // verus!
