//! The rules of the grammar, computed.
//!
//! Each function parses what the function of the same name in
//! [`grammar`](crate::parser::grammar) or
//! [`signature`](crate::parser::signature) accepts, from a cursor into a
//! source, and answers with the outcome that is stated there.

use vstd::prelude::*;
use crate::error::ErrorKind;
use crate::instruction::{
    Audit, Block, forest, FunctionCall, FunctionDec, FunctionDecArg, FunctionKind, group_shapes,
    IfElse, Incl, Instruction, JkInst, Loop, LoopKind, MethodCall, Operator, Return, Tree, TypeDec,
    TypeInstantiation, Var, VarAssign,
};
use crate::instruction::function_declaration::typed_names;
use crate::parser::{grammar, signature};
use crate::parser::outcome::{
    after_statements, agrees, agrees_forest, agrees_name, agrees_names, continued, forward, need,
    Outcome, prefixed, prefixed_ok,
};
use crate::parser::shunting_yard::ShuntingYard;
use crate::parser::signature::group_signature_bounds;
use crate::parser::source::Source;
use crate::parser::tokens::{group_token_bounds, Keyword, Token};
use crate::value::{JinkBool, JinkChar, JinkFloat, JinkInt, JinkString};

verus! {

broadcast use {group_token_bounds, group_signature_bounds, group_shapes};

/// Parse a constant: a character, a string, a number or a boolean.
pub fn constant(src: &Source, pos: usize) -> (r: Outcome<Instruction>)
    ensures
        agrees(r, grammar::constant(src@, pos as int)),
        forward(src, pos, r),
        r matches Ok((_, value)) ==> !(value@ is BinaryOp),
{
    reveal(grammar::constant);
    if let Ok((end, c)) = Token::char_constant(src, pos) {
        return Ok((end, Instruction::Char(JinkChar::from(c))));
    }
    if let Ok((end, text)) = Token::string_constant(src, pos) {
        return Ok((end, Instruction::Str(JinkString::from(text.as_str()))));
    }
    if let Ok((end, text)) = Token::float_constant(src, pos) {
        return Ok((end, Instruction::Float(JinkFloat::from(text.as_str()))));
    }
    if let Ok((end, i)) = Token::int_constant(src, pos) {
        return Ok((end, Instruction::Int(JinkInt::from(i))));
    }
    if let Ok((end, b)) = Token::bool_constant(src, pos) {
        return Ok((end, Instruction::Bool(JinkBool::from(b))));
    }
    Err(ErrorKind::ConstructNotRecognized)
}

/// Parse a valid variable name.
pub fn variable(src: &Source, pos: usize) -> (r: Outcome<Var>)
    ensures
        agrees(r, grammar::variable(src@, pos as int)),
        forward(src, pos, r),
{
    let (end, name) = match need(Token::identifier(src, pos)) {
        Ok(found) => found,
        Err(e) => return Err(e),
    };
    Ok((end, Var::new(name)))
}

/// Parse a function call with no arguments.
pub fn function_call_no_args(src: &Source, pos: usize) -> (r: Outcome<FunctionCall>)
    ensures
        agrees(r, grammar::function_call_no_args(src@, pos as int)),
        forward(src, pos, r),
{
    reveal(grammar::function_call_no_args);
    let (named, name) = match need(Token::identifier(src, pos)) {
        Ok(found) => found,
        Err(e) => return Err(e),
    };
    let open = match need(Token::symbol(src, named, '(')) {
        Ok(found) => found,
        Err(e) => return Err(e),
    };
    let inside = Token::maybe_consume_extra(src, open);
    let end = match need(Token::symbol(src, inside, ')')) {
        Ok(found) => found,
        Err(e) => return Err(e),
    };
    Ok((end, FunctionCall::new(name)))
}

/// Parse an empty argument declaration list.
pub fn args_dec_empty(src: &Source, pos: usize) -> (r: Outcome<Vec<FunctionDecArg>>)
    ensures
        agrees_names(r, signature::args_dec_empty(src@, pos as int)),
        forward(src, pos, r),
{
    reveal(signature::args_dec_empty);
    let open = match need(Token::symbol(src, pos, '(')) {
        Ok(found) => found,
        Err(e) => return Err(e),
    };
    let inside = Token::maybe_consume_extra(src, open);
    let end = match need(Token::symbol(src, inside, ')')) {
        Ok(found) => found,
        Err(e) => return Err(e),
    };
    let args: Vec<FunctionDecArg> = Vec::new();
    assert(typed_names(args) =~= Seq::empty());
    Ok((end, args))
}

/// Parse an identifier then its type.
pub fn identifier_type(src: &Source, pos: usize) -> (r: Outcome<FunctionDecArg>)
    ensures
        agrees(r, signature::identifier_type(src@, pos as int)),
        forward(src, pos, r),
{
    reveal(signature::identifier_type);
    let (named, name) = match need(Token::identifier(src, pos)) {
        Ok(found) => found,
        Err(e) => return Err(e),
    };
    let before = Token::maybe_consume_extra(src, named);
    let colon = match need(Token::symbol(src, before, ':')) {
        Ok(found) => found,
        Err(e) => return Err(e),
    };
    let after = Token::maybe_consume_extra(src, colon);
    let (end, ty) = match need(Token::identifier(src, after)) {
        Ok(found) => found,
        Err(e) => return Err(e),
    };
    Ok((end, FunctionDecArg::new(name, ty)))
}

/// Parse an identifier as well as the type and the comma that follow.
pub fn identifier_type_comma(src: &Source, pos: usize) -> (r: Outcome<FunctionDecArg>)
    ensures
        agrees(r, signature::identifier_type_comma(src@, pos as int)),
        forward(src, pos, r),
{
    reveal(signature::identifier_type_comma);
    let start = Token::maybe_consume_extra(src, pos);
    let (typed, arg) = match identifier_type(src, start) {
        Ok(found) => found,
        Err(e) => return Err(e),
    };
    let before = Token::maybe_consume_extra(src, typed);
    let end = match need(Token::symbol(src, before, ',')) {
        Ok(found) => found,
        Err(e) => return Err(e),
    };
    Ok((end, arg))
}

/// Parse the arguments that are followed by a comma, as many as there are.
pub fn typed_args(src: &Source, pos: usize) -> (r: (usize, Vec<FunctionDecArg>))
    ensures
        signature::typed_args(src@, pos as int) == (r.0 as int, typed_names(r.1)),
        pos <= r.0,
        pos <= src@.len() ==> r.0 <= src@.len(),
{
    reveal(signature::typed_args);
    let mut args: Vec<FunctionDecArg> = Vec::new();
    let mut at = pos;
    assert(typed_names(args) + signature::typed_args(src@, pos as int).1
        =~= signature::typed_args(src@, pos as int).1);
    loop
        invariant
            pos <= at,
            pos <= src@.len() ==> at <= src@.len(),
            signature::typed_args(src@, pos as int) == prefixed(
                typed_names(args),
                signature::typed_args(src@, at as int),
            ),
        decreases src@.len() - at,
    {
        proof {
            reveal(signature::typed_args);
        }
        let ghost done = typed_names(args);
        match identifier_type_comma(src, at) {
            Ok((next, arg)) => {
                args.push(arg);
                proof {
                    let rest = signature::typed_args(src@, next as int);
                    assert(typed_names(args) =~= done.push(arg@));
                    assert(signature::typed_args(src@, at as int) == (rest.0, seq![arg@] + rest.1));
                    assert(done + (seq![arg@] + rest.1) =~= done.push(arg@) + rest.1);
                }
                at = next;
            },
            Err(_) => {
                assert(signature::typed_args(src@, at as int) == (at as int, Seq::<
                    crate::instruction::TypedName,
                >::empty()));
                assert(done + Seq::empty() =~= done);
                return (at, args);
            },
        }
    }
}

/// Parse a non empty argument declaration list.
pub fn args_dec_non_empty(src: &Source, pos: usize) -> (r: Outcome<Vec<FunctionDecArg>>)
    ensures
        agrees_names(r, signature::args_dec_non_empty(src@, pos as int)),
        forward(src, pos, r),
{
    reveal(signature::args_dec_non_empty);
    let open = match need(Token::symbol(src, pos, '(')) {
        Ok(found) => found,
        Err(e) => return Err(e),
    };
    let first = Token::maybe_consume_extra(src, open);
    let (listed, mut args) = typed_args(src, first);
    let last_at = Token::maybe_consume_extra(src, listed);
    let (typed, last) = match identifier_type(src, last_at) {
        Ok(found) => found,
        Err(e) => return Err(e),
    };
    let end = match need(Token::symbol(src, typed, ')')) {
        Ok(found) => found,
        Err(e) => return Err(e),
    };
    let ghost before = typed_names(args);
    args.push(last);
    assert(typed_names(args) =~= before.push(last@));
    Ok((end, args))
}

/// Parse a list (maybe empty) of argument declarations.
pub fn args_dec(src: &Source, pos: usize) -> (r: Outcome<Vec<FunctionDecArg>>)
    ensures
        agrees_names(r, signature::args_dec(src@, pos as int)),
        forward(src, pos, r),
{
    reveal(signature::args_dec);
    if let Ok(found) = args_dec_empty(src, pos) {
        return Ok(found);
    }
    if let Ok(found) = args_dec_non_empty(src, pos) {
        return Ok(found);
    }
    Err(ErrorKind::ConstructNotRecognized)
}

/// Recognise the arrow that announces a return type.
pub fn arrow(src: &Source, pos: usize) -> (end: Option<usize>)
    ensures
        signature::arrow(src@, pos as int) == match end {
            Some(e) => Some(e as int),
            None => None,
        },
{
    proof {
        reveal_strlit("->");
        assert("->"@ =~= seq!['-', '>']);
    }
    Token::tag(src, pos, "->")
}

/// Parse the void return type of a function, checking that no arrow is present.
pub fn return_type_void(src: &Source, pos: usize) -> (r: Outcome<Option<String>>)
    ensures
        agrees_name(r, signature::return_type_void(src@, pos as int)),
        r matches Ok((end, _)) ==> pos <= end && (pos <= src@.len() ==> end <= src@.len()),
{
    reveal(signature::return_type_void);
    let start = Token::maybe_consume_extra(src, pos);
    match arrow(src, start) {
        Some(_) => Err(ErrorKind::ConstructNotRecognized),
        None => Ok((start, None)),
    }
}

/// Parse a non-void return type.
pub fn return_type_non_void(src: &Source, pos: usize) -> (r: Outcome<Option<String>>)
    ensures
        agrees_name(r, signature::return_type_non_void(src@, pos as int)),
        forward(src, pos, r),
{
    reveal(signature::return_type_non_void);
    let start = Token::maybe_consume_extra(src, pos);
    let pointed = match need(arrow(src, start)) {
        Ok(found) => found,
        Err(e) => return Err(e),
    };
    let before = Token::maybe_consume_extra(src, pointed);
    let (typed, ty) = match need(Token::identifier(src, before)) {
        Ok(found) => found,
        Err(e) => return Err(e),
    };
    let end = Token::maybe_consume_extra(src, typed);
    Ok((end, Some(ty)))
}

/// Parse the return type of a function. Can be void.
pub fn return_type(src: &Source, pos: usize) -> (r: Outcome<Option<String>>)
    ensures
        agrees_name(r, signature::return_type(src@, pos as int)),
        r matches Ok((end, _)) ==> pos <= end && (pos <= src@.len() ==> end <= src@.len()),
{
    reveal(signature::return_type);
    if let Ok(found) = return_type_non_void(src, pos) {
        return Ok(found);
    }
    if let Ok(found) = return_type_void(src, pos) {
        return Ok(found);
    }
    Err(ErrorKind::ConstructNotRecognized)
}

/// Parse an external function declaration.
///
/// External functions cannot have an associated block. The function's code
/// resides in a native program.
pub fn ext_declaration(src: &Source, pos: usize) -> (r: Outcome<FunctionDec>)
    ensures
        agrees(r, grammar::ext_declaration(src@, pos as int)),
        forward(src, pos, r),
{
    reveal(grammar::ext_declaration);
    let start = match need(Token::keyword(src, pos, Keyword::Ext)) {
        Ok(found) => found,
        Err(e) => return Err(e),
    };
    let start = Token::maybe_consume_extra(src, start);
    let start = match need(Token::keyword(src, start, Keyword::Func)) {
        Ok(found) => found,
        Err(e) => return Err(e),
    };
    let start = Token::maybe_consume_extra(src, start);
    let (named, name) = match need(Token::identifier(src, start)) {
        Ok(found) => found,
        Err(e) => return Err(e),
    };
    let named = Token::maybe_consume_extra(src, named);
    let (listed, args) = match args_dec(src, named) {
        Ok(found) => found,
        Err(e) => return Err(e),
    };
    let (typed, ty) = match return_type(src, listed) {
        Ok(found) => found,
        Err(e) => return Err(e),
    };
    let typed = Token::maybe_consume_extra(src, typed);
    let end = match need(Token::symbol(src, typed, ';')) {
        Ok(found) => found,
        Err(e) => return Err(e),
    };
    let mut function = FunctionDec::new(name, ty);
    function.set_args(args);
    function.set_kind(FunctionKind::Ext);
    Ok((end, function))
}

/// Parse a user-defined custom type.
pub fn type_declaration(src: &Source, pos: usize) -> (r: Outcome<TypeDec>)
    ensures
        agrees(r, grammar::type_declaration(src@, pos as int)),
        forward(src, pos, r),
{
    reveal(grammar::type_declaration);
    let start = Token::maybe_consume_extra(src, pos);
    let start = match need(Token::keyword(src, start, Keyword::Type)) {
        Ok(found) => found,
        Err(e) => return Err(e),
    };
    let start = Token::maybe_consume_extra(src, start);
    let (named, name) = match need(Token::identifier(src, start)) {
        Ok(found) => found,
        Err(e) => return Err(e),
    };
    let named = Token::maybe_consume_extra(src, named);
    let (end, fields) = match args_dec_non_empty(src, named) {
        Ok(found) => found,
        Err(e) => return Err(e),
    };
    Ok((end, TypeDec::new(name, fields)))
}

/// Parse a path for code inclusion.
pub fn path(src: &Source, pos: usize) -> (r: Outcome<String>)
    ensures
        agrees(r, grammar::path(src@, pos as int)),
        forward(src, pos, r),
{
    reveal(grammar::path);
    let start = Token::maybe_consume_extra(src, pos);
    let (named, name) = match need(Token::identifier(src, start)) {
        Ok(found) => found,
        Err(e) => return Err(e),
    };
    let end = Token::maybe_consume_extra(src, named);
    Ok((end, name))
}

/// Parse the name under which a source is included, if one is given.
pub fn as_identifier(src: &Source, pos: usize) -> (r: Outcome<Option<String>>)
    ensures
        agrees_name(r, grammar::as_identifier(src@, pos as int)),
        r matches Ok((end, _)) ==> pos <= end && (pos <= src@.len() ==> end <= src@.len()),
{
    reveal(grammar::as_identifier);
    let start = Token::maybe_consume_extra(src, pos);
    match Token::keyword(src, start, Keyword::As) {
        Some(renamed) => {
            let before = Token::maybe_consume_extra(src, renamed);
            let (named, name) = match need(Token::identifier(src, before)) {
                Ok(found) => found,
                Err(e) => return Err(e),
            };
            let end = Token::maybe_consume_extra(src, named);
            Ok((end, Some(name)))
        },
        None => {
            let end = Token::maybe_consume_extra(src, start);
            Ok((end, None))
        },
    }
}

/// Parse an include statement and its possible aliasing.
pub fn incl(src: &Source, pos: usize) -> (r: Outcome<Incl>)
    ensures
        agrees(r, grammar::incl(src@, pos as int)),
        forward(src, pos, r),
{
    reveal(grammar::incl);
    let start = Token::maybe_consume_extra(src, pos);
    let start = match need(Token::keyword(src, start, Keyword::Incl)) {
        Ok(found) => found,
        Err(e) => return Err(e),
    };
    let (located, path) = match path(src, start) {
        Ok(found) => found,
        Err(e) => return Err(e),
    };
    let (renamed, alias) = match as_identifier(src, located) {
        Ok(found) => found,
        Err(e) => return Err(e),
    };
    let end = Token::maybe_consume_extra(src, renamed);
    Ok((end, Incl::new(path, alias)))
}

/// Parse an argument given to a function. Consumes the insignificant
/// input before and after the argument.
pub fn arg(src: &Source, pos: usize) -> (r: Outcome<Instruction>)
    ensures
        agrees(r, grammar::arg(src@, pos as int)),
        forward(src, pos, r),
    decreases src@.len() - pos, 6int,
{
    reveal(grammar::arg);
    reveal(grammar::instruction);
    let start = Token::maybe_consume_extra(src, pos);
    let (valued, value) = match instruction(src, start) {
        Ok(found) => found,
        Err(e) => return Err(e),
    };
    let end = Token::maybe_consume_extra(src, valued);
    Ok((end, value))
}

/// Parse an argument and the comma that follows it.
pub fn arg_and_comma(src: &Source, pos: usize) -> (r: Outcome<Instruction>)
    ensures
        agrees(r, grammar::arg_and_comma(src@, pos as int)),
        forward(src, pos, r),
    decreases src@.len() - pos, 6int,
{
    reveal(grammar::arg_and_comma);
    reveal(grammar::instruction);
    let (valued, value) = match instruction(src, pos) {
        Ok(found) => found,
        Err(e) => return Err(e),
    };
    let end = match need(Token::symbol(src, valued, ',')) {
        Ok(found) => found,
        Err(e) => return Err(e),
    };
    Ok((end, value))
}

/// Parse a list of arguments separated by commas.
pub fn args_list(src: &Source, pos: usize) -> (r: Outcome<Vec<Instruction>>)
    ensures
        agrees_forest(r, grammar::args_list(src@, pos as int)),
        forward(src, pos, r),
    decreases src@.len() - pos, 7int,
{
    reveal(grammar::args_list);
    reveal(grammar::arg);
    reveal(grammar::arg_and_comma);
    let mut args: Vec<Instruction> = Vec::new();
    let mut at = pos;
    proof {
        assert(forest(args) =~= Seq::empty());
        match grammar::args_list(src@, pos as int) {
            Ok((end, others)) => assert(forest(args) + others =~= others),
            Err(_) => {},
        }
    }
    loop
        invariant
            pos <= at,
            at == pos || at <= src@.len(),
            grammar::args_list(src@, pos as int) == prefixed_ok(
                forest(args),
                grammar::args_list(src@, at as int),
            ),
        decreases src@.len() - at,
    {
        proof {
            reveal(grammar::args_list);
            reveal(grammar::arg);
            reveal(grammar::arg_and_comma);
        }
        let ghost done = forest(args);
        match arg_and_comma(src, at) {
            Ok((next, value)) => {
                args.push(value);
                proof {
                    assert(forest(args) =~= done.push(value@));
                    match grammar::args_list(src@, next as int) {
                        Ok((end, others)) => {
                            assert(done + (seq![value@] + others) =~= done.push(value@) + others);
                        },
                        Err(_) => {},
                    }
                }
                at = next;
            },
            Err(_) => {
                let (end, last) = match arg(src, at) {
                    Ok(found) => found,
                    Err(e) => return Err(e),
                };
                args.push(last);
                proof {
                    assert(forest(args) =~= done.push(last@));
                    assert(done + seq![last@] =~= done.push(last@));
                }
                return Ok((end, args));
            },
        }
    }
}

/// Parse a function call with arguments.
pub fn function_call_args(src: &Source, pos: usize) -> (r: Outcome<FunctionCall>)
    ensures
        agrees(r, grammar::function_call_args(src@, pos as int)),
        forward(src, pos, r),
    decreases src@.len() - pos, 0int,
{
    reveal(grammar::function_call_args);
    reveal(grammar::args_list);
    let (named, name) = match need(Token::identifier(src, pos)) {
        Ok(found) => found,
        Err(e) => return Err(e),
    };
    let open = match need(Token::symbol(src, named, '(')) {
        Ok(found) => found,
        Err(e) => return Err(e),
    };
    let (listed, args) = match args_list(src, open) {
        Ok(found) => found,
        Err(e) => return Err(e),
    };
    let end = match need(Token::symbol(src, listed, ')')) {
        Ok(found) => found,
        Err(e) => return Err(e),
    };
    let mut call = FunctionCall::new(name);
    call.set_args(args);
    Ok((end, call))
}

/// Parse the call of a function, with or without arguments.
pub fn function_call(src: &Source, pos: usize) -> (r: Outcome<FunctionCall>)
    ensures
        agrees(r, grammar::function_call(src@, pos as int)),
        forward(src, pos, r),
    decreases src@.len() - pos, 1int,
{
    reveal(grammar::function_call);
    reveal(grammar::function_call_args);
    if let Ok(found) = function_call_no_args(src, pos) {
        return Ok(found);
    }
    if let Ok(found) = function_call_args(src, pos) {
        return Ok(found);
    }
    Err(ErrorKind::ConstructNotRecognized)
}

/// Parse the instantiation of a type: its name and, between braces, the
/// values of its fields.
pub fn type_instantiation(src: &Source, pos: usize) -> (r: Outcome<TypeInstantiation>)
    ensures
        agrees(r, grammar::type_instantiation(src@, pos as int)),
        forward(src, pos, r),
    decreases src@.len() - pos, 0int,
{
    reveal(grammar::type_instantiation);
    reveal(grammar::args_list);
    let (named, name) = match need(Token::identifier(src, pos)) {
        Ok(found) => found,
        Err(e) => return Err(e),
    };
    let before = Token::maybe_consume_extra(src, named);
    let open = match need(Token::symbol(src, before, '{')) {
        Ok(found) => found,
        Err(e) => return Err(e),
    };
    let (listed, fields) = match args_list(src, open) {
        Ok(found) => found,
        Err(e) => return Err(e),
    };
    let end = match need(Token::symbol(src, listed, '}')) {
        Ok(found) => found,
        Err(e) => return Err(e),
    };
    let mut instantiation = TypeInstantiation::new(name);
    instantiation.set_fields(fields);
    Ok((end, instantiation))
}

/// Parse the assignment of a value to a variable.
pub fn var_assignment(src: &Source, pos: usize) -> (r: Outcome<VarAssign>)
    ensures
        agrees(r, grammar::var_assignment(src@, pos as int)),
        forward(src, pos, r),
    decreases src@.len() - pos, 0int,
{
    reveal(grammar::var_assignment);
    reveal(grammar::instruction);
    let (mutable, after) = match Token::keyword(src, pos, Keyword::Mut) {
        Some(end) => (true, end),
        None => (false, pos),
    };
    let start = Token::maybe_consume_extra(src, after);
    let (named, symbol) = match need(Token::identifier(src, start)) {
        Ok(found) => found,
        Err(e) => return Err(e),
    };
    let before = Token::maybe_consume_whitespaces(src, named);
    let equal = match need(Token::symbol(src, before, '=')) {
        Ok(found) => found,
        Err(e) => return Err(e),
    };
    let from = Token::maybe_consume_whitespaces(src, equal);
    let (end, value) = match instruction(src, from) {
        Ok(found) => found,
        Err(e) => return Err(e),
    };
    Ok((end, VarAssign::new(mutable, symbol, value)))
}

/// Parse a statement and the semicolon that follows.
pub fn stmt_semicolon(src: &Source, pos: usize) -> (r: Outcome<Instruction>)
    ensures
        agrees(r, grammar::stmt_semicolon(src@, pos as int)),
        forward(src, pos, r),
    decreases src@.len() - pos, 6int,
{
    reveal(grammar::stmt_semicolon);
    reveal(grammar::instruction);
    let start = Token::maybe_consume_extra(src, pos);
    let (stated, statement) = match instruction(src, start) {
        Ok(found) => found,
        Err(e) => return Err(e),
    };
    let before = Token::maybe_consume_extra(src, stated);
    let ended = match need(Token::symbol(src, before, ';')) {
        Ok(found) => found,
        Err(e) => return Err(e),
    };
    let end = Token::maybe_consume_extra(src, ended);
    Ok((end, statement))
}

/// Parse multiple statements and a possible trailing instruction.
pub fn stmts_and_maybe_last(src: &Source, pos: usize) -> (r: (usize, Block))
    ensures
        grammar::stmts_and_maybe_last(src@, pos as int) == (r.0 as int, r.1@),
        pos <= r.0,
        pos <= src@.len() ==> r.0 <= src@.len(),
    decreases src@.len() - pos, 7int,
{
    reveal(grammar::stmts_and_maybe_last);
    reveal(grammar::instruction);
    reveal(grammar::stmt_semicolon);
    let mut block = Block::new();
    let mut at = pos;
    proof {
        let rest = grammar::stmts_and_maybe_last(src@, pos as int);
        assert(Seq::<Tree>::empty() + rest.1.instructions =~= rest.1.instructions);
    }
    loop
        invariant
            pos <= at,
            at == pos || at <= src@.len(),
            block@.last is None,
            grammar::stmts_and_maybe_last(src@, pos as int) == after_statements(
                block@.instructions,
                grammar::stmts_and_maybe_last(src@, at as int),
            ),
        decreases src@.len() - at,
    {
        proof {
            reveal(grammar::stmts_and_maybe_last);
            reveal(grammar::instruction);
            reveal(grammar::stmt_semicolon);
        }
        let ghost done = block@.instructions;
        match stmt_semicolon(src, at) {
            Ok((next, statement)) => {
                block.add_instruction(statement);
                proof {
                    let rest = grammar::stmts_and_maybe_last(src@, next as int);
                    assert(done + (seq![statement@] + rest.1.instructions) =~= done.push(
                        statement@,
                    ) + rest.1.instructions);
                }
                at = next;
            },
            Err(_) => {
                assert(done + Seq::<Tree>::empty() =~= done);
                match instruction(src, at) {
                    Ok((end, last)) => {
                        block.set_last(Some(last));
                        return (end, block);
                    },
                    Err(_) => {
                        return (at, block);
                    },
                }
            },
        }
    }
}

/// Parse a block of code: a new inner scope that contains instructions.
///
/// There can only be one trailing instruction, and it is the last one in
/// the block.
pub fn block(src: &Source, pos: usize) -> (r: Outcome<Block>)
    ensures
        agrees(r, grammar::block(src@, pos as int)),
        forward(src, pos, r),
    decreases src@.len() - pos, 0int,
{
    reveal(grammar::block);
    reveal(grammar::stmts_and_maybe_last);
    let open = match need(Token::symbol(src, pos, '{')) {
        Ok(found) => found,
        Err(e) => return Err(e),
    };
    let start = Token::maybe_consume_extra(src, open);
    let (listed, content) = stmts_and_maybe_last(src, start);
    let before = Token::maybe_consume_extra(src, listed);
    let end = match need(Token::symbol(src, before, '}')) {
        Ok(found) => found,
        Err(e) => return Err(e),
    };
    Ok((end, content))
}

/// Parse the content of a function declaration: what follows its keyword.
pub fn function_content(src: &Source, pos: usize) -> (r: Outcome<FunctionDec>)
    ensures
        agrees(r, grammar::function_content(src@, pos as int)),
        forward(src, pos, r),
    decreases src@.len() - pos, 0int,
{
    reveal(grammar::function_content);
    reveal(grammar::block);
    let start = Token::maybe_consume_extra(src, pos);
    let (named, name) = match need(Token::identifier(src, start)) {
        Ok(found) => found,
        Err(e) => return Err(e),
    };
    let named = Token::maybe_consume_extra(src, named);
    let (listed, args) = match args_dec(src, named) {
        Ok(found) => found,
        Err(e) => return Err(e),
    };
    let (typed, ty) = match return_type(src, listed) {
        Ok(found) => found,
        Err(e) => return Err(e),
    };
    let (end, body) = match block(src, typed) {
        Ok(found) => found,
        Err(e) => return Err(e),
    };
    let mut function = FunctionDec::new(name, ty);
    function.set_args(args);
    function.set_block(body);
    Ok((end, function))
}

/// Parse a function declaration. This includes the function's signature
/// and the associated code block.
pub fn function_declaration(src: &Source, pos: usize) -> (r: Outcome<FunctionDec>)
    ensures
        agrees(r, grammar::function_declaration(src@, pos as int)),
        forward(src, pos, r),
    decreases src@.len() - pos, 0int,
{
    reveal(grammar::function_declaration);
    reveal(grammar::function_content);
    let start = match need(Token::keyword(src, pos, Keyword::Func)) {
        Ok(found) => found,
        Err(e) => return Err(e),
    };
    let (end, mut function) = match function_content(src, start) {
        Ok(found) => found,
        Err(e) => return Err(e),
    };
    function.set_kind(FunctionKind::Func);
    Ok((end, function))
}

/// Parse a test declaration. Tests are not callable by the programmer:
/// only the interpreter can invoke them.
pub fn test_declaration(src: &Source, pos: usize) -> (r: Outcome<FunctionDec>)
    ensures
        agrees(r, grammar::test_declaration(src@, pos as int)),
        forward(src, pos, r),
    decreases src@.len() - pos, 0int,
{
    reveal(grammar::test_declaration);
    reveal(grammar::block);
    let start = match need(Token::keyword(src, pos, Keyword::Test)) {
        Ok(found) => found,
        Err(e) => return Err(e),
    };
    let start = Token::maybe_consume_extra(src, start);
    let (named, name) = match need(Token::identifier(src, start)) {
        Ok(found) => found,
        Err(e) => return Err(e),
    };
    let named = Token::maybe_consume_extra(src, named);
    let (listed, args) = match args_dec_empty(src, named) {
        Ok(found) => found,
        Err(e) => return Err(e),
    };
    let (typed, ty) = match return_type_void(src, listed) {
        Ok(found) => found,
        Err(e) => return Err(e),
    };
    let (end, body) = match block(src, typed) {
        Ok(found) => found,
        Err(e) => return Err(e),
    };
    let mut function = FunctionDec::new(name, ty);
    function.set_args(args);
    function.set_block(body);
    function.set_kind(FunctionKind::Test);
    Ok((end, function))
}

/// Parse a mock declaration.
pub fn mock_declaration(src: &Source, pos: usize) -> (r: Outcome<FunctionDec>)
    ensures
        agrees(r, grammar::mock_declaration(src@, pos as int)),
        forward(src, pos, r),
    decreases src@.len() - pos, 0int,
{
    reveal(grammar::mock_declaration);
    reveal(grammar::function_content);
    let start = match need(Token::keyword(src, pos, Keyword::Mock)) {
        Ok(found) => found,
        Err(e) => return Err(e),
    };
    let (end, mut function) = match function_content(src, start) {
        Ok(found) => found,
        Err(e) => return Err(e),
    };
    function.set_kind(FunctionKind::Mock);
    Ok((end, function))
}

/// Parse an `else` plus the associated block.
pub fn else_block(src: &Source, pos: usize) -> (r: Outcome<Block>)
    ensures
        agrees(r, grammar::else_block(src@, pos as int)),
        forward(src, pos, r),
    decreases src@.len() - pos, 0int,
{
    reveal(grammar::else_block);
    reveal(grammar::block);
    let start = Token::maybe_consume_extra(src, pos);
    let start = match need(Token::keyword(src, start, Keyword::Else)) {
        Ok(found) => found,
        Err(e) => return Err(e),
    };
    let start = Token::maybe_consume_extra(src, start);
    block(src, start)
}

/// Parse an if/else construct: the `if`, its condition and its block, and
/// the `else` with its block if there is one.
pub fn if_else(src: &Source, pos: usize) -> (r: Outcome<IfElse>)
    ensures
        agrees(r, grammar::if_else(src@, pos as int)),
        forward(src, pos, r),
    decreases src@.len() - pos, 0int,
{
    reveal(grammar::if_else);
    reveal(grammar::block);
    reveal(grammar::else_block);
    reveal(grammar::instruction);
    let start = Token::maybe_consume_extra(src, pos);
    let start = match need(Token::keyword(src, start, Keyword::If)) {
        Ok(found) => found,
        Err(e) => return Err(e),
    };
    let start = Token::maybe_consume_extra(src, start);
    let (tested, condition) = match instruction(src, start) {
        Ok(found) => found,
        Err(e) => return Err(e),
    };
    let tested = Token::maybe_consume_extra(src, tested);
    let (done, if_body) = match block(src, tested) {
        Ok(found) => found,
        Err(e) => return Err(e),
    };
    let (end, else_body) = match else_block(src, done) {
        Ok((end, body)) => (end, Some(body)),
        Err(_) => (done, None),
    };
    Ok((end, IfElse::new(condition, if_body, else_body)))
}

/// Parse an audit block: the audit keyword and the block that follows.
pub fn audit(src: &Source, pos: usize) -> (r: Outcome<Audit>)
    ensures
        agrees(r, grammar::audit(src@, pos as int)),
        forward(src, pos, r),
    decreases src@.len() - pos, 0int,
{
    reveal(grammar::audit);
    reveal(grammar::block);
    let start = Token::maybe_consume_extra(src, pos);
    let start = match need(Token::keyword(src, start, Keyword::Audit)) {
        Ok(found) => found,
        Err(e) => return Err(e),
    };
    let start = Token::maybe_consume_extra(src, start);
    let (end, body) = match block(src, start) {
        Ok(found) => found,
        Err(e) => return Err(e),
    };
    Ok((end, Audit::new(body)))
}

/// Parse a loop block: the `loop` keyword and the block that follows.
pub fn loop_block(src: &Source, pos: usize) -> (r: Outcome<Loop>)
    ensures
        agrees(r, grammar::loop_block(src@, pos as int)),
        forward(src, pos, r),
    decreases src@.len() - pos, 0int,
{
    reveal(grammar::loop_block);
    reveal(grammar::block);
    let start = Token::maybe_consume_extra(src, pos);
    let start = match need(Token::keyword(src, start, Keyword::Loop)) {
        Ok(found) => found,
        Err(e) => return Err(e),
    };
    let start = Token::maybe_consume_extra(src, start);
    let (end, body) = match block(src, start) {
        Ok(found) => found,
        Err(e) => return Err(e),
    };
    Ok((end, Loop::new(LoopKind::Loop, body)))
}

/// Parse a while block: a condition and the block to repeat.
pub fn while_block(src: &Source, pos: usize) -> (r: Outcome<Loop>)
    ensures
        agrees(r, grammar::while_block(src@, pos as int)),
        forward(src, pos, r),
    decreases src@.len() - pos, 0int,
{
    reveal(grammar::while_block);
    reveal(grammar::block);
    reveal(grammar::instruction);
    let start = Token::maybe_consume_extra(src, pos);
    let start = match need(Token::keyword(src, start, Keyword::While)) {
        Ok(found) => found,
        Err(e) => return Err(e),
    };
    let start = Token::maybe_consume_extra(src, start);
    let (tested, condition) = match instruction(src, start) {
        Ok(found) => found,
        Err(e) => return Err(e),
    };
    let tested = Token::maybe_consume_extra(src, tested);
    let (end, body) = match block(src, tested) {
        Ok(found) => found,
        Err(e) => return Err(e),
    };
    Ok((end, Loop::new(LoopKind::While(Box::new(condition)), body)))
}

/// Parse a for block: a variable, the range that it goes through and the
/// block to repeat.
pub fn for_block(src: &Source, pos: usize) -> (r: Outcome<Loop>)
    ensures
        agrees(r, grammar::for_block(src@, pos as int)),
        forward(src, pos, r),
    decreases src@.len() - pos, 0int,
{
    reveal(grammar::for_block);
    reveal(grammar::block);
    reveal(grammar::instruction);
    let start = Token::maybe_consume_extra(src, pos);
    let start = match need(Token::keyword(src, start, Keyword::For)) {
        Ok(found) => found,
        Err(e) => return Err(e),
    };
    let start = Token::maybe_consume_extra(src, start);
    let (named, name) = match variable(src, start) {
        Ok(found) => found,
        Err(e) => return Err(e),
    };
    let named = Token::maybe_consume_extra(src, named);
    let within = match need(Token::keyword(src, named, Keyword::In)) {
        Ok(found) => found,
        Err(e) => return Err(e),
    };
    let within = Token::maybe_consume_extra(src, within);
    let (ranged, range) = match instruction(src, within) {
        Ok(found) => found,
        Err(e) => return Err(e),
    };
    let ranged = Token::maybe_consume_extra(src, ranged);
    let (end, body) = match block(src, ranged) {
        Ok(found) => found,
        Err(e) => return Err(e),
    };
    Ok((end, Loop::new(LoopKind::For(name, Box::new(range)), body)))
}

/// Parse any loop construct: `loop`, `for` or `while`.
pub fn any_loop(src: &Source, pos: usize) -> (r: Outcome<Loop>)
    ensures
        agrees(r, grammar::any_loop(src@, pos as int)),
        forward(src, pos, r),
    decreases src@.len() - pos, 1int,
{
    reveal(grammar::any_loop);
    reveal(grammar::for_block);
    reveal(grammar::loop_block);
    reveal(grammar::while_block);
    if let Ok(found) = loop_block(src, pos) {
        return Ok(found);
    }
    if let Ok(found) = for_block(src, pos) {
        return Ok(found);
    }
    if let Ok(found) = while_block(src, pos) {
        return Ok(found);
    }
    Err(ErrorKind::ConstructNotRecognized)
}

/// Parse an interpreter directive. A name that is none of a directive is a
/// failure like any other.
pub fn jinko_inst(src: &Source, pos: usize) -> (r: Outcome<JkInst>)
    ensures
        agrees(r, grammar::jinko_inst(src@, pos as int)),
        forward(src, pos, r),
    decreases src@.len() - pos, 0int,
{
    reveal(grammar::jinko_inst);
    reveal(grammar::function_call);
    let start = match need(Token::symbol(src, pos, '@')) {
        Ok(found) => found,
        Err(e) => return Err(e),
    };
    let (end, call) = match function_call(src, start) {
        Ok(found) => found,
        Err(e) => return Err(e),
    };
    match JkInst::from_str(call.name()) {
        Some(inst) => Ok((end, inst)),
        None => Err(ErrorKind::UnknownDirective),
    }
}

/// Parse what stands on either side of an operator.
pub fn operand(src: &Source, pos: usize) -> (r: Outcome<Instruction>)
    ensures
        agrees(r, grammar::operand(src@, pos as int)),
        forward(src, pos, r),
        r matches Ok((_, value)) ==> !(value@ is BinaryOp),
    decreases src@.len() - pos, 2int,
{
    reveal(grammar::operand);
    reveal(grammar::function_call);
    let start = Token::maybe_consume_extra(src, pos);
    let (valued, value) = if let Ok((end, call)) = function_call(src, start) {
        (end, Instruction::FunctionCall(call))
    } else if let Ok((end, var)) = variable(src, start) {
        (end, Instruction::Var(var))
    } else if let Ok(found) = constant(src, start) {
        found
    } else {
        return Err(ErrorKind::ConstructNotRecognized);
    };
    let end = Token::maybe_consume_extra(src, valued);
    Ok((end, value))
}

/// Parse a binary operation: operands with an operator between each two
/// of them, nested by precedence.
pub fn binary_op(src: &Source, pos: usize) -> (r: Outcome<Instruction>)
    ensures
        agrees(r, grammar::binary_op(src@, pos as int)),
        forward(src, pos, r),
    decreases src@.len() - pos, 3int,
{
    reveal(grammar::binary_op);
    reveal(grammar::operand);
    reveal(grammar::operations);
    let (next, first) = match operand(src, pos) {
        Ok(found) => found,
        Err(e) => return Err(e),
    };
    let ghost head = first@;
    let mut yard = ShuntingYard::new(first);
    let mut at = next;
    proof {
        assert(seq![head].skip(1) =~= Seq::<Tree>::empty());
        match grammar::operations(src@, next as int) {
            Ok((end, (ops, values))) => {
                assert(Seq::<Operator>::empty() + ops =~= ops);
                assert(Seq::<Tree>::empty() + values =~= values);
            },
            Err(_) => {},
        }
    }
    loop
        invariant
            pos < next <= at <= src@.len(),
            yard.wf(),
            yard.operands().len() > 0,
            yard.operands()[0] == head,
            grammar::operand(src@, pos as int) == Ok::<(int, Tree), ErrorKind>((next as int, head)),
            grammar::operations(src@, next as int) == continued(
                yard.operators(),
                yard.operands().skip(1),
                grammar::operations(src@, at as int),
            ),
        decreases src@.len() - at,
    {
        proof {
            reveal(grammar::binary_op);
            reveal(grammar::operand);
            reveal(grammar::operations);
        }
        let ghost ops = yard.operators();
        let ghost values = yard.operands().skip(1);
        match Token::operator(src, at) {
            Some((applied, op)) => {
                match operand(src, applied) {
                    Ok((after, value)) => {
                        yard.push(op, value);
                        proof {
                            assert(yard.operands().skip(1) =~= values.push(value@));
                            grammar::operations_go_on(
                                src@,
                                at as int,
                                op,
                                applied as int,
                                value@,
                                after as int,
                                ops,
                                values,
                            );
                        }
                        at = after;
                    },
                    Err(e) => {
                        proof {
                            grammar::operations_fail(
                                src@,
                                at as int,
                                op,
                                applied as int,
                                e,
                                ops,
                                values,
                            );
                        }
                        return Err(e);
                    },
                }
            },
            None => {
                proof {
                    grammar::operations_end(src@, at as int, ops, values);
                    assert(seq![head] + values =~= yard.operands());
                }
                if Token::operator_char(src, at) {
                    return Err(ErrorKind::ConstructNotRecognized);
                }
                if !yard.is_operation() {
                    return Err(ErrorKind::ExpectedTokenMissing);
                }
                return Ok((at, yard.finish()));
            },
        }
    }
}

/// Parse a viable caller for a method call.
pub fn method_caller(src: &Source, pos: usize) -> (r: Outcome<Instruction>)
    ensures
        agrees(r, grammar::method_caller(src@, pos as int)),
        forward(src, pos, r),
    decreases src@.len() - pos, 2int,
{
    reveal(grammar::method_caller);
    reveal(grammar::any_loop);
    reveal(grammar::audit);
    reveal(grammar::block);
    reveal(grammar::function_call);
    reveal(grammar::if_else);
    reveal(grammar::jinko_inst);
    if let Ok((end, call)) = function_call(src, pos) {
        Ok((end, Instruction::FunctionCall(call)))
    } else if let Ok((end, var)) = variable(src, pos) {
        Ok((end, Instruction::Var(var)))
    } else if let Ok(found) = constant(src, pos) {
        Ok(found)
    } else if let Ok((end, node)) = if_else(src, pos) {
        Ok((end, Instruction::IfElse(node)))
    } else if let Ok((end, node)) = block(src, pos) {
        Ok((end, Instruction::Block(node)))
    } else if let Ok((end, node)) = any_loop(src, pos) {
        Ok((end, Instruction::Loop(node)))
    } else if let Ok((end, node)) = jinko_inst(src, pos) {
        Ok((end, Instruction::JkInst(node)))
    } else if let Ok((end, node)) = audit(src, pos) {
        Ok((end, Instruction::Audit(node)))
    } else {
        Err(ErrorKind::ConstructNotRecognized)
    }
}

/// Parse a method-like function call, which stands for a plain function
/// call with the caller as its first argument.
pub fn method_call(src: &Source, pos: usize) -> (r: Outcome<MethodCall>)
    ensures
        agrees(r, grammar::method_call(src@, pos as int)),
        forward(src, pos, r),
    decreases src@.len() - pos, 3int,
{
    reveal(grammar::method_call);
    reveal(grammar::function_call);
    reveal(grammar::method_caller);
    let (called, caller) = match method_caller(src, pos) {
        Ok(found) => found,
        Err(e) => return Err(e),
    };
    let dot = match need(Token::symbol(src, called, '.')) {
        Ok(found) => found,
        Err(e) => return Err(e),
    };
    let (end, method) = match function_call(src, dot) {
        Ok(found) => found,
        Err(e) => return Err(e),
    };
    Ok((end, MethodCall::new(caller, method)))
}

/// Parse a return and the value that it may carry. Nothing may follow.
pub fn return_expression(src: &Source, pos: usize) -> (r: Outcome<Return>)
    ensures
        agrees(r, grammar::return_expression(src@, pos as int)),
        forward(src, pos, r),
    decreases src@.len() - pos, 0int,
{
    reveal(grammar::return_expression);
    reveal(grammar::instruction);
    let start = match need(Token::keyword(src, pos, Keyword::Return)) {
        Ok(found) => found,
        Err(e) => return Err(e),
    };
    let from = Token::maybe_consume_extra(src, start);
    let (valued, value) = match instruction(src, from) {
        Ok((end, value)) => {
            if value.is_return() {
                return Err(ErrorKind::ConstructNotRecognized);
            }
            (end, Some(value))
        },
        Err(_) => (from, None),
    };
    let end = Token::maybe_consume_extra(src, valued);
    if end < src.len() {
        return Err(ErrorKind::UnexpectedTrailingInput);
    }
    Ok((end, Return::new(value)))
}

/// Parse what starts with an operand or a caller: a binary operation or a
/// method call.
pub fn operation(src: &Source, pos: usize) -> (r: Outcome<Instruction>)
    ensures
        agrees(r, grammar::operation(src@, pos as int)),
        forward(src, pos, r),
    decreases src@.len() - pos, 4int,
{
    reveal(grammar::operation);
    reveal(grammar::binary_op);
    reveal(grammar::method_call);
    if let Ok(found) = binary_op(src, pos) {
        Ok(found)
    } else {
        match method_call(src, pos) {
            Ok((end, node)) => Ok((end, Instruction::MethodCall(node))),
            Err(e) => Err(e),
        }
    }
}

/// Parse what is known by its keyword: the declaration of a function, a
/// type, an external function, a test or a mock.
pub fn declaration(src: &Source, pos: usize) -> (r: Outcome<Instruction>)
    ensures
        agrees(r, grammar::declaration(src@, pos as int)),
        forward(src, pos, r),
    decreases src@.len() - pos, 4int,
{
    reveal(grammar::declaration);
    reveal(grammar::function_declaration);
    reveal(grammar::test_declaration);
    reveal(grammar::mock_declaration);
    if let Ok((end, node)) = function_declaration(src, pos) {
        Ok((end, Instruction::FunctionDec(node)))
    } else if let Ok((end, node)) = type_declaration(src, pos) {
        Ok((end, Instruction::TypeDec(node)))
    } else if let Ok((end, node)) = ext_declaration(src, pos) {
        Ok((end, Instruction::FunctionDec(node)))
    } else if let Ok((end, node)) = test_declaration(src, pos) {
        Ok((end, Instruction::FunctionDec(node)))
    } else {
        match mock_declaration(src, pos) {
            Ok((end, node)) => Ok((end, Instruction::FunctionDec(node))),
            Err(e) => Err(e),
        }
    }
}

/// Parse what starts with a name and goes on: a type instantiation, a
/// function call or an inclusion.
pub fn named_construct(src: &Source, pos: usize) -> (r: Outcome<Instruction>)
    ensures
        agrees(r, grammar::named_construct(src@, pos as int)),
        forward(src, pos, r),
    decreases src@.len() - pos, 4int,
{
    reveal(grammar::named_construct);
    reveal(grammar::type_instantiation);
    reveal(grammar::function_call);
    if let Ok((end, node)) = type_instantiation(src, pos) {
        Ok((end, Instruction::TypeInstantiation(node)))
    } else if let Ok((end, node)) = function_call(src, pos) {
        Ok((end, Instruction::FunctionCall(node)))
    } else {
        match incl(src, pos) {
            Ok((end, node)) => Ok((end, Instruction::Incl(node))),
            Err(e) => Err(e),
        }
    }
}

/// Parse control flow, a directive or a block.
pub fn control(src: &Source, pos: usize) -> (r: Outcome<Instruction>)
    ensures
        agrees(r, grammar::control(src@, pos as int)),
        forward(src, pos, r),
    decreases src@.len() - pos, 4int,
{
    reveal(grammar::control);
    reveal(grammar::if_else);
    reveal(grammar::any_loop);
    reveal(grammar::jinko_inst);
    reveal(grammar::audit);
    reveal(grammar::block);
    if let Ok((end, node)) = if_else(src, pos) {
        Ok((end, Instruction::IfElse(node)))
    } else if let Ok((end, node)) = any_loop(src, pos) {
        Ok((end, Instruction::Loop(node)))
    } else if let Ok((end, node)) = jinko_inst(src, pos) {
        Ok((end, Instruction::JkInst(node)))
    } else if let Ok((end, node)) = audit(src, pos) {
        Ok((end, Instruction::Audit(node)))
    } else {
        match block(src, pos) {
            Ok((end, node)) => Ok((end, Instruction::Block(node))),
            Err(e) => Err(e),
        }
    }
}

/// Parse an assignment, a variable, a return or a constant.
pub fn simple(src: &Source, pos: usize) -> (r: Outcome<Instruction>)
    ensures
        agrees(r, grammar::simple(src@, pos as int)),
        forward(src, pos, r),
    decreases src@.len() - pos, 4int,
{
    reveal(grammar::simple);
    reveal(grammar::var_assignment);
    reveal(grammar::return_expression);
    if let Ok((end, node)) = var_assignment(src, pos) {
        Ok((end, Instruction::VarAssign(node)))
    } else if let Ok((end, node)) = variable(src, pos) {
        Ok((end, Instruction::Var(node)))
    } else if let Ok((end, node)) = return_expression(src, pos) {
        Ok((end, Instruction::Return(node)))
    } else {
        match constant(src, pos) {
            Ok(found) => Ok(found),
            Err(e) => Err(e),
        }
    }
}

/// Parse any valid jinko instruction. This can be a function call, a
/// variable, a block, a declaration...
pub fn instruction(src: &Source, pos: usize) -> (r: Outcome<Instruction>)
    ensures
        agrees(r, grammar::instruction(src@, pos as int)),
        forward(src, pos, r),
    decreases src@.len() - pos, 5int,
{
    reveal(grammar::instruction);
    reveal(grammar::operation);
    reveal(grammar::declaration);
    reveal(grammar::named_construct);
    reveal(grammar::control);
    reveal(grammar::simple);
    let start = Token::maybe_consume_extra(src, pos);
    let (valued, value) = if let Ok(found) = operation(src, start) {
        found
    } else if let Ok(found) = declaration(src, start) {
        found
    } else if let Ok(found) = named_construct(src, start) {
        found
    } else if let Ok(found) = control(src, start) {
        found
    } else if let Ok(found) = simple(src, start) {
        found
    } else {
        return Err(ErrorKind::ConstructNotRecognized);
    };
    let end = Token::maybe_consume_extra(src, valued);
    Ok((end, value))
}

/// Parse an instruction and maybe the semicolon that follows.
pub fn instruction_maybe_semicolon(src: &Source, pos: usize) -> (r: Outcome<Instruction>)
    ensures
        agrees(r, grammar::instruction_maybe_semicolon(src@, pos as int)),
        forward(src, pos, r),
{
    reveal(grammar::instruction_maybe_semicolon);
    let (valued, value) = match instruction(src, pos) {
        Ok(found) => found,
        Err(e) => return Err(e),
    };
    match Token::symbol(src, valued, ';') {
        Some(end) => Ok((end, value)),
        None => Ok((valued, value)),
    }
}

/// Parse as many instructions as possible.
pub fn many_instructions(src: &Source, pos: usize) -> (r: (usize, Vec<Instruction>))
    ensures
        grammar::many_instructions(src@, pos as int) == (r.0 as int, forest(r.1)),
        pos <= r.0,
        pos <= src@.len() ==> r.0 <= src@.len(),
{
    reveal(grammar::many_instructions);
    let mut nodes: Vec<Instruction> = Vec::new();
    let mut at = pos;
    proof {
        assert(forest(nodes) =~= Seq::empty());
        let rest = grammar::many_instructions(src@, pos as int);
        assert(forest(nodes) + rest.1 =~= rest.1);
    }
    loop
        invariant
            pos <= at,
            pos <= src@.len() ==> at <= src@.len(),
            grammar::many_instructions(src@, pos as int) == prefixed(
                forest(nodes),
                grammar::many_instructions(src@, at as int),
            ),
        decreases src@.len() - at,
    {
        proof {
            reveal(grammar::many_instructions);
        }
        let ghost done = forest(nodes);
        match instruction_maybe_semicolon(src, at) {
            Ok((next, node)) => {
                nodes.push(node);
                proof {
                    let rest = grammar::many_instructions(src@, next as int);
                    assert(forest(nodes) =~= done.push(node@));
                    assert(done + (seq![node@] + rest.1) =~= done.push(node@) + rest.1);
                }
                at = next;
            },
            Err(_) => {
                assert(done + Seq::<Tree>::empty() =~= done);
                return (at, nodes);
            },
        }
    }
}

} // verus!
