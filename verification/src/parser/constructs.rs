//! A `Construct` is a complex set of tokens. For example, `fn()` is an identifier, a
//! left parenthesis and a right parenthesis. Together, they constitute a function call.
//! In the same vein, `x = 12;` is 4 tokens used to represent variable assignment.
//! Therefore, constructs use tokens while the parser only uses constructs. This is an
//! abstraction for all possible ways to parse a line in jinko.
//!
//! Each of the functions in that module contain the grammar they represent above their
//! name. The syntax used for the grammar is loosely based on regular instructions and
//! globbing. One can use * to indicate 0 or more, ? to indicate 1 or more, etc etc.
//! Optional parameters are included between brackets. For example,
//!
//! `[mut] <identifier> = <const> | <function_call> | <block> | <identifier>`
//!
//! is the grammar for a variable assignment.
//!
//! A construct takes the text that is left to parse. When it accepts a
//! prefix of it, it answers with the rest of the text and the node that it
//! built. When it does not, it answers with the text as it was given and
//! the reason: a failure consumes nothing.

use vstd::prelude::*;
use crate::error::{ErrorKind, ParseError};
use crate::instruction::{
    Audit, Block, forest, FunctionCall, FunctionDec, FunctionDecArg, IfElse, Incl, Instruction,
    JkInst, Loop, MethodCall, Return, TypeDec, TypedName, TypeInstantiation, Var, VarAssign,
};
use crate::instruction::function_declaration::typed_names;
use crate::instruction::incl::maybe_text;
use crate::parser::{grammar, rules, signature};
use crate::parser::outcome::{Outcome, Parsed};
use crate::parser::source::Source;

verus! {

/// What a construct answers: the rest of the input and the node that was
/// built, or a failure.
pub type ParseResult<'i, T> = Result<(&'i str, T), ParseError<'i>>;

/// The answer `out` to `input` is the outcome `m` of a rule at the start of
/// the text: on success the rest of the input, from the cursor on, and a
/// node of the tree; on failure the whole input and the reason.
pub open spec fn parses<T: View>(input: &str, out: ParseResult<T>, m: Parsed<T::V>) -> bool {
    match out {
        Ok((rest, node)) => m matches Ok((end, tree)) && 0 <= end <= input@.len() && rest@
            == input@.skip(end) && node@ == tree,
        Err(e) => m == Err::<(int, T::V), ErrorKind>(e.kind) && e.remaining@ == input@,
    }
}

/// As [`parses`], for a list of declared arguments.
pub open spec fn parses_names(
    input: &str,
    out: ParseResult<Vec<FunctionDecArg>>,
    m: Parsed<Seq<TypedName>>,
) -> bool {
    match out {
        Ok((rest, args)) => m matches Ok((end, names)) && 0 <= end <= input@.len() && rest@
            == input@.skip(end) && typed_names(args) == names,
        Err(e) => m == Err::<(int, Seq<TypedName>), ErrorKind>(e.kind) && e.remaining@ == input@,
    }
}

/// As [`parses`], for a name that may be absent.
pub open spec fn parses_name(
    input: &str,
    out: ParseResult<Option<String>>,
    m: Parsed<Option<Seq<char>>>,
) -> bool {
    match out {
        Ok((rest, name)) => m matches Ok((end, text)) && 0 <= end <= input@.len() && rest@
            == input@.skip(end) && maybe_text(name) == text,
        Err(e) => m == Err::<(int, Option<Seq<char>>), ErrorKind>(e.kind) && e.remaining@
            == input@,
    }
}

/// Turn the answer of a rule at the start of `src` into the answer of a
/// construct: the rest of the text in place of the cursor, the text itself
/// beside the reason of a failure.
pub fn conclude<'i, T>(src: &Source<'i>, r: Outcome<T>) -> (out: ParseResult<'i, T>)
    requires
        r matches Ok((end, _)) ==> end <= src@.len(),
    ensures
        match r {
            Ok((end, node)) => out matches Ok((rest, same)) && rest@ == src@.skip(end as int)
                && same == node,
            Err(kind) => out matches Err(e) && e.kind == kind && e.remaining@ == src@,
        },
{
    match r {
        Ok((end, node)) => Ok((src.rest(end), node)),
        Err(kind) => Err(ParseError { remaining: src.text(), kind }),
    }
}

/// The constructs of the language, each a parser of its own.
pub struct Construct;

impl Construct {
    /// Parse any valid jinko instruction. This can be a function call, a variable,
    /// a block declaration...
    pub fn instruction(input: &str) -> (out: ParseResult<'_, Instruction>)
        ensures
            parses(input, out, grammar::instruction(input@, 0)),
    {
        let src = Source::new(input);
        conclude(&src, rules::instruction(&src, 0))
    }

    /// Parse an instruction and maybe the semicolon that follows.
    ///
    /// `<instruction> [ ; ]`
    pub fn instruction_maybe_semicolon(input: &str) -> (out: ParseResult<'_, Instruction>)
        ensures
            parses(input, out, grammar::instruction_maybe_semicolon(input@, 0)),
    {
        let src = Source::new(input);
        conclude(&src, rules::instruction_maybe_semicolon(&src, 0))
    }

    /// Constants are raw values in the source code. For example, `"string"`, `12` and
    /// `0.5`.
    ///
    /// `'<any_char>' | "<any_char>*" | <num>? | <num>?.<num>?`
    pub fn constant(input: &str) -> (out: ParseResult<'_, Instruction>)
        ensures
            parses(input, out, grammar::constant(input@, 0)),
    {
        let src = Source::new(input);
        conclude(&src, rules::constant(&src, 0))
    }

    /// When a type is instantiated in the source code.
    ///
    /// `<identifier> { <arg_list> }`
    pub fn type_instantiation(input: &str) -> (out: ParseResult<'_, TypeInstantiation>)
        ensures
            parses(input, out, grammar::type_instantiation(input@, 0)),
    {
        let src = Source::new(input);
        conclude(&src, rules::type_instantiation(&src, 0))
    }

    /// When a function is called in the source code.
    ///
    /// `<arg_list> := [(<constant> | <variable> | <instruction>)*]`
    /// `<identifier> ( <arg_list> )`
    pub fn function_call(input: &str) -> (out: ParseResult<'_, FunctionCall>)
        ensures
            parses(input, out, grammar::function_call(input@, 0)),
    {
        let src = Source::new(input);
        conclude(&src, rules::function_call(&src, 0))
    }

    /// When a variable is assigned a value.
    ///
    /// `[mut] <identifier> = <instruction>`
    pub fn var_assignment(input: &str) -> (out: ParseResult<'_, VarAssign>)
        ensures
            parses(input, out, grammar::var_assignment(input@, 0)),
    {
        let src = Source::new(input);
        conclude(&src, rules::var_assignment(&src, 0))
    }

    /// Parse a valid variable name
    ///
    /// `<identifier>`
    pub fn variable(input: &str) -> (out: ParseResult<'_, Var>)
        ensures
            parses(input, out, grammar::variable(input@, 0)),
    {
        let src = Source::new(input);
        conclude(&src, rules::variable(&src, 0))
    }

    /// A block of code is a new inner scope that contains instructions. You can use
    /// them in If/Else blocks, in function declarations, or just as is.
    ///
    /// There can only be one returning instruction, and it must be the last one
    /// in the block.
    ///
    /// `{ [ <instruction> ; ]* [ <instruction> ] }`
    pub fn block(input: &str) -> (out: ParseResult<'_, Block>)
        ensures
            parses(input, out, grammar::block(input@, 0)),
    {
        let src = Source::new(input);
        conclude(&src, rules::block(&src, 0))
    }

    /// Parse an identifier then its type
    ///
    /// `<identifier> : <type>`
    pub fn identifier_type(input: &str) -> (out: ParseResult<'_, FunctionDecArg>)
        ensures
            parses(input, out, signature::identifier_type(input@, 0)),
    {
        let src = Source::new(input);
        conclude(&src, rules::identifier_type(&src, 0))
    }

    /// Parse a list (maybe empty) of argument declarations
    pub fn args_dec(input: &str) -> (out: ParseResult<'_, Vec<FunctionDecArg>>)
        ensures
            parses_names(input, out, signature::args_dec(input@, 0)),
    {
        let src = Source::new(input);
        conclude(&src, rules::args_dec(&src, 0))
    }

    /// Parse the return type of a function. Can be void
    pub fn return_type(input: &str) -> (out: ParseResult<'_, Option<String>>)
        ensures
            parses_name(input, out, signature::return_type(input@, 0)),
    {
        let src = Source::new(input);
        conclude(&src, rules::return_type(&src, 0))
    }

    /// Parse a function declaration. This includes the function's signature and the
    /// associated code block
    ///
    /// `<func> <identifier> ( <typed_arg_list> ) [ -> <type> ] <block>`
    pub fn function_declaration(input: &str) -> (out: ParseResult<'_, FunctionDec>)
        ensures
            parses(input, out, grammar::function_declaration(input@, 0)),
    {
        let src = Source::new(input);
        conclude(&src, rules::function_declaration(&src, 0))
    }

    /// Parse a test declaration. This returns a FunctionDec as well, but of
    /// kind `FunctionKind::Test`.
    ///
    /// `<test> <identifier> ( ) <block>`
    pub fn test_declaration(input: &str) -> (out: ParseResult<'_, FunctionDec>)
        ensures
            parses(input, out, grammar::test_declaration(input@, 0)),
    {
        let src = Source::new(input);
        conclude(&src, rules::test_declaration(&src, 0))
    }

    /// Parse a mock declaration. This returns a FunctionDec as well, but of
    /// kind `FunctionKind::Mock`.
    ///
    /// `<mock> <identifier> ( <typed_arg_list> ) [ -> <type> ] <block>`
    pub fn mock_declaration(input: &str) -> (out: ParseResult<'_, FunctionDec>)
        ensures
            parses(input, out, grammar::mock_declaration(input@, 0)),
    {
        let src = Source::new(input);
        conclude(&src, rules::mock_declaration(&src, 0))
    }

    /// Parse an external function declaration.
    ///
    /// External functions cannot have an associated block. The function's code resides
    /// in a native program, for example a shared C library or a Rust crate.
    ///
    /// `<ext> <func> <identifier> ( <typed_arg_list> ) [ -> <type> ] ;`
    pub fn ext_declaration(input: &str) -> (out: ParseResult<'_, FunctionDec>)
        ensures
            parses(input, out, grammar::ext_declaration(input@, 0)),
    {
        let src = Source::new(input);
        conclude(&src, rules::ext_declaration(&src, 0))
    }

    /// Parse an if/else construct. This parses the entirety of the if/else. Therefore
    /// consuming the first `if` and the remaining optional `else`.
    ///
    /// `<if> <instruction> <block> [ <else> <block> ]`
    pub fn if_else(input: &str) -> (out: ParseResult<'_, IfElse>)
        ensures
            parses(input, out, grammar::if_else(input@, 0)),
    {
        let src = Source::new(input);
        conclude(&src, rules::if_else(&src, 0))
    }

    /// Parse an audit block. This consists in the the audit keyword and the following
    /// block.
    ///
    /// `<audit> <block>`
    pub fn audit(input: &str) -> (out: ParseResult<'_, Audit>)
        ensures
            parses(input, out, grammar::audit(input@, 0)),
    {
        let src = Source::new(input);
        conclude(&src, rules::audit(&src, 0))
    }

    /// Parse a loop block, meaning the `loop` keyword and a corresponding block
    ///
    /// `<loop> <block>`
    pub fn loop_block(input: &str) -> (out: ParseResult<'_, Loop>)
        ensures
            parses(input, out, grammar::loop_block(input@, 0)),
    {
        let src = Source::new(input);
        conclude(&src, rules::loop_block(&src, 0))
    }

    /// Parse a while block. A while block consists of a high bound, or instruction, as
    /// well as a block
    ///
    /// `<while> <instruction> <block>`
    pub fn while_block(input: &str) -> (out: ParseResult<'_, Loop>)
        ensures
            parses(input, out, grammar::while_block(input@, 0)),
    {
        let src = Source::new(input);
        conclude(&src, rules::while_block(&src, 0))
    }

    /// Construct a for block, which consists of a variable, a range instruction, and
    /// a block to execute
    ///
    /// `<for> <variable> <in> <instruction> <block>`
    pub fn for_block(input: &str) -> (out: ParseResult<'_, Loop>)
        ensures
            parses(input, out, grammar::for_block(input@, 0)),
    {
        let src = Source::new(input);
        conclude(&src, rules::for_block(&src, 0))
    }

    /// Parse any loop construct: For, While or Loop
    pub fn any_loop(input: &str) -> (out: ParseResult<'_, Loop>)
        ensures
            parses(input, out, grammar::any_loop(input@, 0)),
    {
        let src = Source::new(input);
        conclude(&src, rules::any_loop(&src, 0))
    }

    /// Parse an interpreter directive. There are only a few of them, listed in
    /// the `JkInst` module
    ///
    /// `@<jinko_inst><args_list>`
    pub fn jinko_inst(input: &str) -> (out: ParseResult<'_, JkInst>)
        ensures
            parses(input, out, grammar::jinko_inst(input@, 0)),
    {
        let src = Source::new(input);
        conclude(&src, rules::jinko_inst(&src, 0))
    }

    /// Parse a binary operation. A binary operation is composed of an instruction, an
    /// operator and another instruction
    ///
    /// `<expr> <op> <expr>`
    pub fn binary_op(input: &str) -> (out: ParseResult<'_, Instruction>)
        ensures
            parses(input, out, grammar::binary_op(input@, 0)),
    {
        let src = Source::new(input);
        conclude(&src, rules::binary_op(&src, 0))
    }

    /// Parse a user-defined custom type
    ///
    /// `<type> <TypeName> ( <typed_arg_list> )`
    pub fn type_declaration(input: &str) -> (out: ParseResult<'_, TypeDec>)
        ensures
            parses(input, out, grammar::type_declaration(input@, 0)),
    {
        let src = Source::new(input);
        conclude(&src, rules::type_declaration(&src, 0))
    }

    /// Parse an include statement and its possible aliasing
    ///
    /// `<incl> <path> [ <as> <alias> ]`
    pub fn incl(input: &str) -> (out: ParseResult<'_, Incl>)
        ensures
            parses(input, out, grammar::incl(input@, 0)),
    {
        let src = Source::new(input);
        conclude(&src, rules::incl(&src, 0))
    }

    /// Parse a method like function call, that shall be desugared
    /// to a simple function call later on
    ///
    /// `<method_caller>.<identifier>()`
    pub fn method_call(input: &str) -> (out: ParseResult<'_, MethodCall>)
        ensures
            parses(input, out, grammar::method_call(input@, 0)),
    {
        let src = Source::new(input);
        conclude(&src, rules::method_call(&src, 0))
    }

    /// Parse a return and the value that it may carry
    ///
    /// `<return> [ <instruction> ]`
    pub fn return_expression(input: &str) -> (out: ParseResult<'_, Return>)
        ensures
            parses(input, out, grammar::return_expression(input@, 0)),
    {
        let src = Source::new(input);
        conclude(&src, rules::return_expression(&src, 0))
    }

    /// Parse as many instructions as possible
    pub fn many_instructions(input: &str) -> (out: ParseResult<'_, Vec<Instruction>>)
        ensures
            out matches Ok((rest, nodes)) && ({
                let (end, trees) = grammar::many_instructions(input@, 0);
                0 <= end <= input@.len() && rest@ == input@.skip(end) && forest(nodes) == trees
            }),
    {
        let src = Source::new(input);
        let (end, nodes) = rules::many_instructions(&src, 0);
        Ok((src.rest(end), nodes))
    }
}

} // verus!
