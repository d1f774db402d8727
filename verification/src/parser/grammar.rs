//! The grammar, stated over the characters of a text and a cursor.
//!
//! Each rule is a function from a cursor to an outcome: the cursor behind
//! what the rule accepts together with the tree that it builds, or the
//! reason why it accepts nothing. Rules are composed in two ways. In a
//! sequence each part starts where the one before it ended, and the first
//! failure is the failure of the whole. In an alternation the parts are
//! tried in the order written, all from the same cursor, and the first
//! that succeeds decides: their order is part of the language.

use vstd::prelude::*;
use crate::error::ErrorKind;
use crate::instruction::{
    BlockTree, CallTree, FunctionKind, FunctionTree, JkInst, LoopTree, Operator, Tree,
};
use crate::parser::outcome::{advanced, continued, one_of, or_else, Parsed};
use crate::parser::shunting_yard::nest;
use crate::parser::signature::{
    args_dec, args_dec_empty, args_dec_non_empty, group_signature_bounds, return_type,
    return_type_void,
};
use crate::parser::tokens::{
    bool_constant, char_constant, CharClass, float_constant, group_token_bounds, identifier,
    int_constant, is_operator_char, keyword, Keyword, operator_at, run_end, skip_extra,
    string_constant, symbol,
};

verus! {

broadcast use {group_token_bounds, group_signature_bounds};

/// The outcome of a call, as a node.
pub open spec fn as_call(r: Parsed<CallTree>) -> Parsed<Tree> {
    match r {
        Ok((end, call)) => Ok((end, Tree::FunctionCall(call))),
        Err(e) => Err(e),
    }
}

/// The outcome of a variable, as a node.
pub open spec fn as_var(r: Parsed<Seq<char>>) -> Parsed<Tree> {
    match r {
        Ok((end, name)) => Ok((end, Tree::Var(name))),
        Err(e) => Err(e),
    }
}

/// The outcome of a block, as a node.
pub open spec fn as_block(r: Parsed<BlockTree>) -> Parsed<Tree> {
    match r {
        Ok((end, block)) => Ok((end, Tree::Block(block))),
        Err(e) => Err(e),
    }
}

/// The outcome of an audit, as a node.
pub open spec fn as_audit(r: Parsed<BlockTree>) -> Parsed<Tree> {
    match r {
        Ok((end, block)) => Ok((end, Tree::Audit(block))),
        Err(e) => Err(e),
    }
}

/// The outcome of a declaration, as a node.
pub open spec fn as_declaration(r: Parsed<FunctionTree>) -> Parsed<Tree> {
    match r {
        Ok((end, function)) => Ok((end, Tree::FunctionDec(function))),
        Err(e) => Err(e),
    }
}

/// The outcome of a directive, as a node.
pub open spec fn as_directive(r: Parsed<JkInst>) -> Parsed<Tree> {
    match r {
        Ok((end, inst)) => Ok((end, Tree::JkInst(inst))),
        Err(e) => Err(e),
    }
}

/// A declaration like `declared`, of the kind `kind`.
pub open spec fn of_kind(declared: Parsed<FunctionTree>, kind: FunctionKind) -> Parsed<
    FunctionTree,
> {
    match declared {
        Ok((end, function)) => Ok((end, FunctionTree { kind, ..function })),
        Err(e) => Err(e),
    }
}

/// `'<char>' | "<chars>" | <digits>.<digits> | <digits> | true | false`
///
/// Constants are raw values in the source code.
#[verifier::opaque]
pub open spec fn constant(s: Seq<char>, pos: int) -> Parsed<Tree> {
    match char_constant(s, pos) {
        Ok((end, c)) => Ok((end, Tree::Char(c))),
        Err(_) => match string_constant(s, pos) {
            Ok((end, text)) => Ok((end, Tree::Str(text))),
            Err(_) => match float_constant(s, pos) {
                Ok((end, text)) => Ok((end, Tree::Float(text))),
                Err(_) => match int_constant(s, pos) {
                    Ok((end, i)) => Ok((end, Tree::Int(i))),
                    Err(_) => match bool_constant(s, pos) {
                        Ok((end, b)) => Ok((end, Tree::Bool(b))),
                        Err(_) => Err(ErrorKind::ConstructNotRecognized),
                    },
                },
            },
        },
    }
}

/// `<identifier>`
pub open spec fn variable(s: Seq<char>, pos: int) -> Parsed<Seq<char>> {
    match identifier(s, pos) {
        Some((end, name)) => Ok((end, name)),
        None => Err(ErrorKind::ExpectedTokenMissing),
    }
}

/// `<identifier> ( )`
#[verifier::opaque]
pub open spec fn function_call_no_args(s: Seq<char>, pos: int) -> Parsed<CallTree> {
    match identifier(s, pos) {
        None => Err(ErrorKind::ExpectedTokenMissing),
        Some((named, name)) => match symbol(s, named, '(') {
            None => Err(ErrorKind::ExpectedTokenMissing),
            Some(open) => match symbol(s, skip_extra(s, open), ')') {
                None => Err(ErrorKind::ExpectedTokenMissing),
                Some(end) => Ok((end, CallTree { name, args: Seq::empty() })),
            },
        },
    }
}

/// An argument, with the insignificant input around it.
#[verifier::opaque]
pub open spec fn arg(s: Seq<char>, pos: int) -> Parsed<Tree>
    decreases s.len() - pos, 6int,
{
    match instruction(s, skip_extra(s, pos)) {
        Ok((end, value)) => Ok((skip_extra(s, end), value)),
        Err(e) => Err(e),
    }
}

/// `<instruction> ,`
#[verifier::opaque]
pub open spec fn arg_and_comma(s: Seq<char>, pos: int) -> Parsed<Tree>
    decreases s.len() - pos, 6int,
{
    match instruction(s, pos) {
        Ok((end, value)) => match symbol(s, end, ',') {
            Some(end) => Ok((end, value)),
            None => Err(ErrorKind::ExpectedTokenMissing),
        },
        Err(e) => Err(e),
    }
}

/// `[ <instruction> , ]* <instruction>`
///
/// As many arguments with their comma as there are, then one argument
/// without a comma. So a list has at least one argument, and a comma never
/// ends it.
#[verifier::opaque]
pub open spec fn args_list(s: Seq<char>, pos: int) -> Parsed<Seq<Tree>>
    decreases s.len() - pos, 7int,
{
    match advanced(s, pos, arg_and_comma(s, pos)) {
        Ok((next, first)) => match args_list(s, next) {
            Ok((end, others)) => Ok((end, seq![first] + others)),
            Err(e) => Err(e),
        },
        Err(_) => match arg(s, pos) {
            Ok((end, last)) => Ok((end, seq![last])),
            Err(e) => Err(e),
        },
    }
}

/// `<identifier> ( <args_list> )`
#[verifier::opaque]
pub open spec fn function_call_args(s: Seq<char>, pos: int) -> Parsed<CallTree>
    decreases s.len() - pos, 0int,
{
    match identifier(s, pos) {
        None => Err(ErrorKind::ExpectedTokenMissing),
        Some((named, name)) => match symbol(s, named, '(') {
            None => Err(ErrorKind::ExpectedTokenMissing),
            Some(open) => match args_list(s, open) {
                Err(e) => Err(e),
                Ok((listed, args)) => match symbol(s, listed, ')') {
                    None => Err(ErrorKind::ExpectedTokenMissing),
                    Some(end) => Ok((end, CallTree { name, args })),
                },
            },
        },
    }
}

/// `<identifier> ( ) | <identifier> ( <args_list> )`
#[verifier::opaque]
pub open spec fn function_call(s: Seq<char>, pos: int) -> Parsed<CallTree>
    decreases s.len() - pos, 1int,
{
    one_of(or_else(function_call_no_args(s, pos), function_call_args(s, pos)))
}

/// `<identifier> { <args_list> }`
#[verifier::opaque]
pub open spec fn type_instantiation(s: Seq<char>, pos: int) -> Parsed<Tree>
    decreases s.len() - pos, 0int,
{
    match identifier(s, pos) {
        None => Err(ErrorKind::ExpectedTokenMissing),
        Some((named, name)) => match symbol(s, skip_extra(s, named), '{') {
            None => Err(ErrorKind::ExpectedTokenMissing),
            Some(open) => match args_list(s, open) {
                Err(e) => Err(e),
                Ok((listed, values)) => match symbol(s, listed, '}') {
                    None => Err(ErrorKind::ExpectedTokenMissing),
                    Some(end) => Ok((end, Tree::TypeInstantiation { name, values })),
                },
            },
        },
    }
}

/// The cursor behind the word `mut`, if it stands at `pos`.
pub open spec fn after_mut(s: Seq<char>, pos: int) -> int {
    match keyword(s, pos, Keyword::Mut) {
        Some(end) => end,
        None => pos,
    }
}

/// `[mut] <identifier> = <instruction>`
///
/// Whitespace may stand on either side of the equal sign, and need not.
#[verifier::opaque]
pub open spec fn var_assignment(s: Seq<char>, pos: int) -> Parsed<Tree>
    decreases s.len() - pos, 0int,
{
    let mutable = keyword(s, pos, Keyword::Mut) is Some;
    match identifier(s, skip_extra(s, after_mut(s, pos))) {
        None => Err(ErrorKind::ExpectedTokenMissing),
        Some((named, symbol_name)) => match symbol(
            s,
            run_end(s, named, CharClass::Whitespace),
            '=',
        ) {
            None => Err(ErrorKind::ExpectedTokenMissing),
            Some(equal) => match instruction(s, run_end(s, equal, CharClass::Whitespace)) {
                Err(e) => Err(e),
                Ok((end, value)) => Ok(
                    (end, Tree::VarAssign { mutable, symbol: symbol_name, value: Box::new(value) }),
                ),
            },
        },
    }
}

/// `<instruction> ;`
#[verifier::opaque]
pub open spec fn stmt_semicolon(s: Seq<char>, pos: int) -> Parsed<Tree>
    decreases s.len() - pos, 6int,
{
    match instruction(s, skip_extra(s, pos)) {
        Err(e) => Err(e),
        Ok((end, statement)) => match symbol(s, skip_extra(s, end), ';') {
            None => Err(ErrorKind::ExpectedTokenMissing),
            Some(end) => Ok((skip_extra(s, end), statement)),
        },
    }
}

/// `[ <instruction> ; ]* [ <instruction> ]`
///
/// As many statements with their semicolon as there are, then maybe one
/// node without a semicolon, which is the trailing node of the block.
#[verifier::opaque]
pub open spec fn stmts_and_maybe_last(s: Seq<char>, pos: int) -> (int, BlockTree)
    decreases s.len() - pos, 7int,
{
    match advanced(s, pos, stmt_semicolon(s, pos)) {
        Ok((next, first)) => {
            let (end, others) = stmts_and_maybe_last(s, next);
            (end, BlockTree { instructions: seq![first] + others.instructions, last: others.last })
        },
        Err(_) => match instruction(s, pos) {
            Ok((end, last)) => (
                end,
                BlockTree { instructions: Seq::empty(), last: Some(Box::new(last)) },
            ),
            Err(_) => (pos, BlockTree { instructions: Seq::empty(), last: None }),
        },
    }
}

/// `{ [ <instruction> ; ]* [ <instruction> ] }`
#[verifier::opaque]
pub open spec fn block(s: Seq<char>, pos: int) -> Parsed<BlockTree>
    decreases s.len() - pos, 0int,
{
    match symbol(s, pos, '{') {
        None => Err(ErrorKind::ExpectedTokenMissing),
        Some(open) => {
            let (listed, content) = stmts_and_maybe_last(s, skip_extra(s, open));
            match symbol(s, skip_extra(s, listed), '}') {
                None => Err(ErrorKind::ExpectedTokenMissing),
                Some(end) => Ok((end, content)),
            }
        },
    }
}

/// `<identifier> <args_dec> <return_type> <block>`
///
/// What `func` and `mock` declarations share. The kind is not known here.
#[verifier::opaque]
pub open spec fn function_content(s: Seq<char>, pos: int) -> Parsed<FunctionTree>
    decreases s.len() - pos, 0int,
{
    match identifier(s, skip_extra(s, pos)) {
        None => Err(ErrorKind::ExpectedTokenMissing),
        Some((named, name)) => match args_dec(s, skip_extra(s, named)) {
            Err(e) => Err(e),
            Ok((listed, args)) => match return_type(s, listed) {
                Err(e) => Err(e),
                Ok((typed, ty)) => match block(s, typed) {
                    Err(e) => Err(e),
                    Ok((end, body)) => Ok(
                        (
                            end,
                            FunctionTree {
                                name,
                                ty,
                                kind: FunctionKind::Unknown,
                                args,
                                block: Some(body),
                            },
                        ),
                    ),
                },
            },
        },
    }
}

/// `func <identifier> <args_dec> <return_type> <block>`
#[verifier::opaque]
pub open spec fn function_declaration(s: Seq<char>, pos: int) -> Parsed<FunctionTree>
    decreases s.len() - pos, 0int,
{
    match keyword(s, pos, Keyword::Func) {
        None => Err(ErrorKind::ExpectedTokenMissing),
        Some(start) => of_kind(function_content(s, start), FunctionKind::Func),
    }
}

/// `test <identifier> ( ) <block>`
///
/// A test takes no argument and returns nothing: an argument or an arrow
/// is a failure.
#[verifier::opaque]
pub open spec fn test_declaration(s: Seq<char>, pos: int) -> Parsed<FunctionTree>
    decreases s.len() - pos, 0int,
{
    match keyword(s, pos, Keyword::Test) {
        None => Err(ErrorKind::ExpectedTokenMissing),
        Some(start) => match identifier(s, skip_extra(s, start)) {
            None => Err(ErrorKind::ExpectedTokenMissing),
            Some((named, name)) => match args_dec_empty(s, skip_extra(s, named)) {
                Err(e) => Err(e),
                Ok((listed, args)) => match return_type_void(s, listed) {
                    Err(e) => Err(e),
                    Ok((typed, ty)) => match block(s, typed) {
                        Err(e) => Err(e),
                        Ok((end, body)) => Ok(
                            (
                                end,
                                FunctionTree {
                                    name,
                                    ty,
                                    kind: FunctionKind::Test,
                                    args,
                                    block: Some(body),
                                },
                            ),
                        ),
                    },
                },
            },
        },
    }
}

/// `mock <identifier> <args_dec> <return_type> <block>`
#[verifier::opaque]
pub open spec fn mock_declaration(s: Seq<char>, pos: int) -> Parsed<FunctionTree>
    decreases s.len() - pos, 0int,
{
    match keyword(s, pos, Keyword::Mock) {
        None => Err(ErrorKind::ExpectedTokenMissing),
        Some(start) => of_kind(function_content(s, start), FunctionKind::Mock),
    }
}

/// `ext func <identifier> <args_dec> <return_type> ;`
///
/// An external function has no block: its code is not written in jinko.
#[verifier::opaque]
pub open spec fn ext_declaration(s: Seq<char>, pos: int) -> Parsed<FunctionTree> {
    match keyword(s, pos, Keyword::Ext) {
        None => Err(ErrorKind::ExpectedTokenMissing),
        Some(start) => match keyword(s, skip_extra(s, start), Keyword::Func) {
            None => Err(ErrorKind::ExpectedTokenMissing),
            Some(start) => match identifier(s, skip_extra(s, start)) {
                None => Err(ErrorKind::ExpectedTokenMissing),
                Some((named, name)) => match args_dec(s, skip_extra(s, named)) {
                    Err(e) => Err(e),
                    Ok((listed, args)) => match return_type(s, listed) {
                        Err(e) => Err(e),
                        Ok((typed, ty)) => match symbol(s, skip_extra(s, typed), ';') {
                            None => Err(ErrorKind::ExpectedTokenMissing),
                            Some(end) => Ok(
                                (
                                    end,
                                    FunctionTree {
                                        name,
                                        ty,
                                        kind: FunctionKind::Ext,
                                        args,
                                        block: None,
                                    },
                                ),
                            ),
                        },
                    },
                },
            },
        },
    }
}

/// `else <block>`
#[verifier::opaque]
pub open spec fn else_block(s: Seq<char>, pos: int) -> Parsed<BlockTree>
    decreases s.len() - pos, 0int,
{
    match keyword(s, skip_extra(s, pos), Keyword::Else) {
        None => Err(ErrorKind::ExpectedTokenMissing),
        Some(start) => block(s, skip_extra(s, start)),
    }
}

/// The block of an `else`, if one follows.
pub open spec fn maybe_else(s: Seq<char>, pos: int, r: Parsed<BlockTree>) -> (
    int,
    Option<BlockTree>,
) {
    match r {
        Ok((end, body)) => (end, Some(body)),
        Err(_) => (pos, None),
    }
}

/// `if <instruction> <block> [ else <block> ]`
#[verifier::opaque]
pub open spec fn if_else(s: Seq<char>, pos: int) -> Parsed<Tree>
    decreases s.len() - pos, 0int,
{
    match keyword(s, skip_extra(s, pos), Keyword::If) {
        None => Err(ErrorKind::ExpectedTokenMissing),
        Some(start) => match advanced(s, pos, instruction(s, skip_extra(s, start))) {
            Err(e) => Err(e),
            Ok((tested, condition)) => match advanced(s, pos, block(s, skip_extra(s, tested))) {
                Err(e) => Err(e),
                Ok((done, if_body)) => {
                    let (end, else_body) = maybe_else(s, done, else_block(s, done));
                    Ok((end, Tree::IfElse { condition: Box::new(condition), if_body, else_body }))
                },
            },
        },
    }
}

/// `audit <block>`
#[verifier::opaque]
pub open spec fn audit(s: Seq<char>, pos: int) -> Parsed<BlockTree>
    decreases s.len() - pos, 0int,
{
    match keyword(s, skip_extra(s, pos), Keyword::Audit) {
        None => Err(ErrorKind::ExpectedTokenMissing),
        Some(start) => block(s, skip_extra(s, start)),
    }
}

/// `loop <block>`
#[verifier::opaque]
pub open spec fn loop_block(s: Seq<char>, pos: int) -> Parsed<Tree>
    decreases s.len() - pos, 0int,
{
    match keyword(s, skip_extra(s, pos), Keyword::Loop) {
        None => Err(ErrorKind::ExpectedTokenMissing),
        Some(start) => match block(s, skip_extra(s, start)) {
            Err(e) => Err(e),
            Ok((end, body)) => Ok((end, Tree::Loop { kind: LoopTree::Loop, block: body })),
        },
    }
}

/// `while <instruction> <block>`
#[verifier::opaque]
pub open spec fn while_block(s: Seq<char>, pos: int) -> Parsed<Tree>
    decreases s.len() - pos, 0int,
{
    match keyword(s, skip_extra(s, pos), Keyword::While) {
        None => Err(ErrorKind::ExpectedTokenMissing),
        Some(start) => match advanced(s, pos, instruction(s, skip_extra(s, start))) {
            Err(e) => Err(e),
            Ok((tested, condition)) => match block(s, skip_extra(s, tested)) {
                Err(e) => Err(e),
                Ok((end, body)) => Ok(
                    (end, Tree::Loop { kind: LoopTree::While(Box::new(condition)), block: body }),
                ),
            },
        },
    }
}

/// `for <variable> in <instruction> <block>`
#[verifier::opaque]
pub open spec fn for_block(s: Seq<char>, pos: int) -> Parsed<Tree>
    decreases s.len() - pos, 0int,
{
    match keyword(s, skip_extra(s, pos), Keyword::For) {
        None => Err(ErrorKind::ExpectedTokenMissing),
        Some(start) => match variable(s, skip_extra(s, start)) {
            Err(e) => Err(e),
            Ok((named, name)) => match keyword(s, skip_extra(s, named), Keyword::In) {
                None => Err(ErrorKind::ExpectedTokenMissing),
                Some(within) => match advanced(s, pos, instruction(s, skip_extra(s, within))) {
                    Err(e) => Err(e),
                    Ok((ranged, range)) => match block(s, skip_extra(s, ranged)) {
                        Err(e) => Err(e),
                        Ok((end, body)) => Ok(
                            (
                                end,
                                Tree::Loop {
                                    kind: LoopTree::For(name, Box::new(range)),
                                    block: body,
                                },
                            ),
                        ),
                    },
                },
            },
        },
    }
}

/// `<loop_block> | <for_block> | <while_block>`
#[verifier::opaque]
pub open spec fn any_loop(s: Seq<char>, pos: int) -> Parsed<Tree>
    decreases s.len() - pos, 1int,
{
    one_of(or_else(loop_block(s, pos), or_else(for_block(s, pos), while_block(s, pos))))
}

/// `@<function_call>`
///
/// A directive is written as a call. Its name has to be one that the
/// interpreter knows; its arguments are not kept.
#[verifier::opaque]
pub open spec fn jinko_inst(s: Seq<char>, pos: int) -> Parsed<JkInst>
    decreases s.len() - pos, 0int,
{
    match symbol(s, pos, '@') {
        None => Err(ErrorKind::ExpectedTokenMissing),
        Some(start) => match function_call(s, start) {
            Err(e) => Err(e),
            Ok((end, call)) => match JkInst::named(call.name) {
                Some(inst) => Ok((end, inst)),
                None => Err(ErrorKind::UnknownDirective),
            },
        },
    }
}

/// What may stand on either side of an operator: a call, a variable or a
/// constant, with the insignificant input around it.
#[verifier::opaque]
pub open spec fn operand(s: Seq<char>, pos: int) -> Parsed<Tree>
    decreases s.len() - pos, 2int,
{
    let start = skip_extra(s, pos);
    match one_of(
        or_else(as_call(function_call(s, start)), or_else(as_var(variable(s, start)), constant(s, start))),
    ) {
        Ok((end, value)) => Ok((skip_extra(s, end), value)),
        Err(e) => Err(e),
    }
}

/// `[ <operator> <operand> ]*`
///
/// What follows the first operand of a run: the operators with their
/// right-hand operands, as far as operators follow. An operator without an
/// operand behind it is a failure, and so is a character that is no
/// operator but is made for one.
#[verifier::opaque]
pub open spec fn operations(s: Seq<char>, pos: int) -> Parsed<(Seq<Operator>, Seq<Tree>)>
    decreases s.len() - pos, 0int,
{
    match operator_at(s, pos) {
        Some((applied, op)) => match advanced(s, pos, operand(s, applied)) {
            Err(e) => Err(e),
            Ok((next, value)) => match operations(s, next) {
                Err(e) => Err(e),
                Ok((end, (ops, values))) => Ok((end, (seq![op] + ops, seq![value] + values))),
            },
        },
        None => if 0 <= pos < s.len() && is_operator_char(s[pos]) {
            Err(ErrorKind::ConstructNotRecognized)
        } else {
            Ok((pos, (Seq::empty(), Seq::empty())))
        },
    }
}

/// A run goes on with each operator that an operand follows.
pub proof fn operations_go_on(
    s: Seq<char>,
    pos: int,
    op: Operator,
    applied: int,
    value: Tree,
    next: int,
    ops: Seq<Operator>,
    values: Seq<Tree>,
)
    requires
        operator_at(s, pos) == Some((applied, op)),
        operand(s, applied) == Ok::<(int, Tree), ErrorKind>((next, value)),
        pos < next <= s.len(),
    ensures
        continued(ops, values, operations(s, pos)) == continued(
            ops.push(op),
            values.push(value),
            operations(s, next),
        ),
{
    reveal(operations);
    reveal(operand);
    match operations(s, next) {
        Ok((end, (more_ops, more_values))) => {
            assert(ops + (seq![op] + more_ops) =~= ops.push(op) + more_ops);
            assert(values + (seq![value] + more_values) =~= values.push(value) + more_values);
        },
        Err(_) => {},
    }
}

/// A run fails where an operator is not followed by an operand.
pub proof fn operations_fail(
    s: Seq<char>,
    pos: int,
    op: Operator,
    applied: int,
    e: ErrorKind,
    ops: Seq<Operator>,
    values: Seq<Tree>,
)
    requires
        operator_at(s, pos) == Some((applied, op)),
        operand(s, applied) == Err::<(int, Tree), ErrorKind>(e),
    ensures
        continued(ops, values, operations(s, pos)) == Err::<(int, (Seq<Operator>, Seq<Tree>)), _>(
            e,
        ),
{
    reveal(operations);
    reveal(operand);
}

/// A run ends where no operator follows, and fails there if what follows
/// is made for an operator.
pub proof fn operations_end(s: Seq<char>, pos: int, ops: Seq<Operator>, values: Seq<Tree>)
    requires
        operator_at(s, pos) is None,
    ensures
        continued(ops, values, operations(s, pos)) == (if 0 <= pos < s.len() && is_operator_char(
            s[pos],
        ) {
            Err::<(int, (Seq<Operator>, Seq<Tree>)), _>(ErrorKind::ConstructNotRecognized)
        } else {
            Ok((pos, (ops, values)))
        }),
{
    reveal(operations);
    assert(ops + Seq::<Operator>::empty() =~= ops);
    assert(values + Seq::<Tree>::empty() =~= values);
}

/// `<operand> [ <operator> <operand> ]+`
///
/// A binary operation: a run of at least two operands, nested by the
/// precedence of the operators between them. An operand alone is none.
#[verifier::opaque]
pub open spec fn binary_op(s: Seq<char>, pos: int) -> Parsed<Tree>
    decreases s.len() - pos, 3int,
{
    match advanced(s, pos, operand(s, pos)) {
        Err(e) => Err(e),
        Ok((next, first)) => match operations(s, next) {
            Err(e) => Err(e),
            Ok((end, (ops, values))) => if ops.len() == 0 {
                Err(ErrorKind::ExpectedTokenMissing)
            } else {
                Ok((end, nest(seq![first] + values, ops)))
            },
        },
    }
}

/// `type <identifier> ( [ <identifier> : <type> , ]* <identifier> : <type> )`
///
/// A type has at least one field.
#[verifier::opaque]
pub open spec fn type_declaration(s: Seq<char>, pos: int) -> Parsed<Tree> {
    match keyword(s, skip_extra(s, pos), Keyword::Type) {
        None => Err(ErrorKind::ExpectedTokenMissing),
        Some(start) => match identifier(s, skip_extra(s, start)) {
            None => Err(ErrorKind::ExpectedTokenMissing),
            Some((named, name)) => match args_dec_non_empty(s, skip_extra(s, named)) {
                Err(e) => Err(e),
                Ok((end, fields)) => Ok((end, Tree::TypeDec { name, fields })),
            },
        },
    }
}

/// The path of an inclusion, with the insignificant input around it.
#[verifier::opaque]
pub open spec fn path(s: Seq<char>, pos: int) -> Parsed<Seq<char>> {
    match identifier(s, skip_extra(s, pos)) {
        None => Err(ErrorKind::ExpectedTokenMissing),
        Some((end, name)) => Ok((skip_extra(s, end), name)),
    }
}

/// `[ as <identifier> ]`
///
/// Nothing, or the word `as` and the name that has to follow it.
#[verifier::opaque]
pub open spec fn as_identifier(s: Seq<char>, pos: int) -> Parsed<Option<Seq<char>>> {
    let start = skip_extra(s, pos);
    match keyword(s, start, Keyword::As) {
        None => Ok((skip_extra(s, start), None)),
        Some(renamed) => match identifier(s, skip_extra(s, renamed)) {
            None => Err(ErrorKind::ExpectedTokenMissing),
            Some((end, name)) => Ok((skip_extra(s, end), Some(name))),
        },
    }
}

/// `incl <path> [ as <identifier> ]`
#[verifier::opaque]
pub open spec fn incl(s: Seq<char>, pos: int) -> Parsed<Tree> {
    match keyword(s, skip_extra(s, pos), Keyword::Incl) {
        None => Err(ErrorKind::ExpectedTokenMissing),
        Some(start) => match path(s, start) {
            Err(e) => Err(e),
            Ok((located, path)) => match as_identifier(s, located) {
                Err(e) => Err(e),
                Ok((end, alias)) => Ok((skip_extra(s, end), Tree::Incl { path, alias })),
            },
        },
    }
}

/// What a method may be called on.
///
/// A method call is not among the alternatives: a rule that started with
/// itself would never end.
#[verifier::opaque]
pub open spec fn method_caller(s: Seq<char>, pos: int) -> Parsed<Tree>
    decreases s.len() - pos, 2int,
{
    one_of(
        or_else(
            as_call(function_call(s, pos)),
            or_else(
                as_var(variable(s, pos)),
                or_else(
                    constant(s, pos),
                    or_else(
                        if_else(s, pos),
                        or_else(
                            as_block(block(s, pos)),
                            or_else(
                                any_loop(s, pos),
                                or_else(as_directive(jinko_inst(s, pos)), as_audit(audit(s, pos))),
                            ),
                        ),
                    ),
                ),
            ),
        ),
    )
}

/// `<method_caller> . <function_call>`
///
/// One call on one caller. A second call behind the first is not part of
/// the method call: `a.b().c()` is accepted up to `a.b()`.
#[verifier::opaque]
pub open spec fn method_call(s: Seq<char>, pos: int) -> Parsed<Tree>
    decreases s.len() - pos, 3int,
{
    match advanced(s, pos, method_caller(s, pos)) {
        Err(e) => Err(e),
        Ok((called, caller)) => match symbol(s, called, '.') {
            None => Err(ErrorKind::ExpectedTokenMissing),
            Some(dot) => match function_call(s, dot) {
                Err(e) => Err(e),
                Ok((end, method)) => Ok(
                    (end, Tree::MethodCall { caller: Box::new(caller), method }),
                ),
            },
        },
    }
}

/// The value of a return, if one follows: any instruction but a return.
pub open spec fn returned(s: Seq<char>, pos: int, r: Parsed<Tree>) -> Parsed<Option<Box<Tree>>> {
    match r {
        Ok((end, value)) => if value is Return {
            Err(ErrorKind::ConstructNotRecognized)
        } else {
            Ok((end, Some(Box::new(value))))
        },
        Err(_) => Ok((pos, None)),
    }
}

/// `return [ <instruction> ]`
///
/// A return ends the text: input behind it is a failure.
#[verifier::opaque]
pub open spec fn return_expression(s: Seq<char>, pos: int) -> Parsed<Tree>
    decreases s.len() - pos, 0int,
{
    match keyword(s, pos, Keyword::Return) {
        None => Err(ErrorKind::ExpectedTokenMissing),
        Some(start) => {
            let from = skip_extra(s, start);
            match returned(s, from, instruction(s, from)) {
                Err(e) => Err(e),
                Ok((valued, value)) => {
                    let end = skip_extra(s, valued);
                    if end < s.len() {
                        Err(ErrorKind::UnexpectedTrailingInput)
                    } else {
                        Ok((end, Tree::Return(value)))
                    }
                },
            }
        },
    }
}

/// `<binary_op> | <method_call>`
///
/// What starts with an operand or a caller. These come before everything
/// else, so that `a + b` is not taken for the variable `a`, nor `a.b()` for
/// it.
#[verifier::opaque]
pub open spec fn operation(s: Seq<char>, pos: int) -> Parsed<Tree>
    decreases s.len() - pos, 4int,
{
    or_else(binary_op(s, pos), method_call(s, pos))
}

/// `<function_declaration> | <type_declaration> | <ext_declaration> |
/// <test_declaration> | <mock_declaration>`
///
/// What is known by its keyword.
#[verifier::opaque]
pub open spec fn declaration(s: Seq<char>, pos: int) -> Parsed<Tree>
    decreases s.len() - pos, 4int,
{
    or_else(
        as_declaration(function_declaration(s, pos)),
        or_else(
            type_declaration(s, pos),
            or_else(
                as_declaration(ext_declaration(s, pos)),
                or_else(
                    as_declaration(test_declaration(s, pos)),
                    as_declaration(mock_declaration(s, pos)),
                ),
            ),
        ),
    )
}

/// `<type_instantiation> | <function_call> | <incl>`
///
/// What starts with a name and goes on.
#[verifier::opaque]
pub open spec fn named_construct(s: Seq<char>, pos: int) -> Parsed<Tree>
    decreases s.len() - pos, 4int,
{
    or_else(type_instantiation(s, pos), or_else(as_call(function_call(s, pos)), incl(s, pos)))
}

/// `<if_else> | <any_loop> | <jinko_inst> | <audit> | <block>`
///
/// Control flow, directives and blocks.
#[verifier::opaque]
pub open spec fn control(s: Seq<char>, pos: int) -> Parsed<Tree>
    decreases s.len() - pos, 4int,
{
    or_else(
        if_else(s, pos),
        or_else(
            any_loop(s, pos),
            or_else(
                as_directive(jinko_inst(s, pos)),
                or_else(as_audit(audit(s, pos)), as_block(block(s, pos))),
            ),
        ),
    )
}

/// `<var_assignment> | <variable> | <return_expression> | <constant>`
///
/// What is left when nothing longer starts at the cursor.
#[verifier::opaque]
pub open spec fn simple(s: Seq<char>, pos: int) -> Parsed<Tree>
    decreases s.len() - pos, 4int,
{
    or_else(
        var_assignment(s, pos),
        or_else(as_var(variable(s, pos)), or_else(return_expression(s, pos), constant(s, pos))),
    )
}

/// Any instruction, with the insignificant input around it.
///
/// The alternatives are tried in this order: a binary operation, a method
/// call, the declarations (`func`, `type`, `ext`, `test`, `mock`), a type
/// instantiation, a function call, an inclusion, a conditional, a loop, a
/// directive, an audit, a block, an assignment, a variable, a return, a
/// constant. The first that accepts the input decides.
#[verifier::opaque]
pub open spec fn instruction(s: Seq<char>, pos: int) -> Parsed<Tree>
    decreases s.len() - pos, 5int,
{
    let start = skip_extra(s, pos);
    match one_of(
        or_else(
            operation(s, start),
            or_else(
                declaration(s, start),
                or_else(named_construct(s, start), or_else(control(s, start), simple(s, start))),
            ),
        ),
    ) {
        Ok((end, value)) => Ok((skip_extra(s, end), value)),
        Err(e) => Err(e),
    }
}

/// `<instruction> [ ; ]`
#[verifier::opaque]
pub open spec fn instruction_maybe_semicolon(s: Seq<char>, pos: int) -> Parsed<Tree> {
    match instruction(s, pos) {
        Err(e) => Err(e),
        Ok((end, value)) => match symbol(s, end, ';') {
            Some(end) => Ok((end, value)),
            None => Ok((end, value)),
        },
    }
}

/// `[ <instruction> [ ; ] ]*`
///
/// As many instructions as there are, each with the semicolon that may
/// follow it.
#[verifier::opaque]
pub open spec fn many_instructions(s: Seq<char>, pos: int) -> (int, Seq<Tree>)
    decreases s.len() - pos,
{
    match advanced(s, pos, instruction_maybe_semicolon(s, pos)) {
        Ok((next, first)) => {
            let (end, others) = many_instructions(s, next);
            (end, seq![first] + others)
        },
        Err(_) => (pos, Seq::empty()),
    }
}

} // verus!
