//! Every rule moves forward.
//!
//! A rule that accepts something accepts at least one character, and ends
//! inside the text. So a repetition always comes to an end, and the rules
//! that call each other do so on less and less input.

use vstd::prelude::*;
use crate::parser::grammar::{
    any_loop, arg, arg_and_comma, args_list, as_identifier, audit, binary_op, block, constant,
    control, declaration, else_block, ext_declaration, for_block, function_call,
    function_call_args, function_call_no_args, function_content, function_declaration, if_else,
    incl, instruction, instruction_maybe_semicolon, jinko_inst, loop_block, many_instructions,
    method_call, method_caller, mock_declaration, named_construct, operand, operation,
    operations, path, return_expression, simple, stmt_semicolon, stmts_and_maybe_last,
    test_declaration, type_declaration, type_instantiation, var_assignment, variable, while_block,
};
use crate::parser::outcome::{advanced, Parsed};
use crate::parser::signature::group_signature_bounds;
use crate::parser::tokens::{
    group_token_bounds, identifier, keyword, operator_at, run_end, skip_extra, symbol, CharClass,
    Keyword,
};

verus! {

broadcast use {group_token_bounds, group_signature_bounds};

/// A success of `r`, which started at `pos`, ends behind `pos` and inside
/// the text.
pub open spec fn moves<T>(s: Seq<char>, pos: int, r: Parsed<T>) -> bool {
    r matches Ok((end, _)) ==> 0 <= pos < end <= s.len()
}

/// A constant has at least one character.
pub proof fn constant_moves(s: Seq<char>, pos: int)
    ensures
        moves(s, pos, constant(s, pos)),
{
    reveal(constant);
}

/// A name has at least one character.
pub proof fn variable_moves(s: Seq<char>, pos: int)
    ensures
        moves(s, pos, variable(s, pos)),
{
}

/// A call without arguments has at least its name and its parentheses.
pub proof fn function_call_no_args_moves(s: Seq<char>, pos: int)
    ensures
        moves(s, pos, function_call_no_args(s, pos)),
{
    reveal(function_call_no_args);
}

/// An argument has at least one character.
pub proof fn arg_moves(s: Seq<char>, pos: int)
    ensures
        moves(s, pos, arg(s, pos)),
    decreases s.len() - pos, 6int,
{
    reveal(arg);
    reveal(instruction);
    instruction_moves(s, skip_extra(s, pos));
}

/// An argument with its comma has at least two characters.
pub proof fn arg_and_comma_moves(s: Seq<char>, pos: int)
    ensures
        moves(s, pos, arg_and_comma(s, pos)),
    decreases s.len() - pos, 6int,
{
    reveal(arg_and_comma);
    reveal(instruction);
    instruction_moves(s, pos);
}

/// A list of arguments has at least one character.
pub proof fn args_list_moves(s: Seq<char>, pos: int)
    ensures
        moves(s, pos, args_list(s, pos)),
    decreases s.len() - pos, 7int,
{
    reveal(args_list);
    reveal(arg);
    reveal(arg_and_comma);
    arg_and_comma_moves(s, pos);
    match advanced(s, pos, arg_and_comma(s, pos)) {
        Ok((next, _)) => args_list_moves(s, next),
        Err(_) => arg_moves(s, pos),
    }
}

/// A call with arguments ends behind its closing parenthesis.
pub proof fn function_call_args_moves(s: Seq<char>, pos: int)
    ensures
        moves(s, pos, function_call_args(s, pos)),
    decreases s.len() - pos, 0int,
{
    reveal(function_call_args);
    reveal(args_list);
    if let Some((named, _)) = identifier(s, pos) {
        if let Some(open) = symbol(s, named, '(') {
            args_list_moves(s, open);
        }
    }
}

/// A call has at least its name and its parentheses.
pub proof fn function_call_moves(s: Seq<char>, pos: int)
    ensures
        moves(s, pos, function_call(s, pos)),
    decreases s.len() - pos, 1int,
{
    reveal(function_call);
    reveal(function_call_args);
    function_call_no_args_moves(s, pos);
    function_call_args_moves(s, pos);
}

/// An instantiation ends behind its closing brace.
pub proof fn type_instantiation_moves(s: Seq<char>, pos: int)
    ensures
        moves(s, pos, type_instantiation(s, pos)),
    decreases s.len() - pos, 0int,
{
    reveal(type_instantiation);
    reveal(args_list);
    if let Some((named, _)) = identifier(s, pos) {
        if let Some(open) = symbol(s, skip_extra(s, named), '{') {
            args_list_moves(s, open);
        }
    }
}

/// An assignment ends behind its value.
pub proof fn var_assignment_moves(s: Seq<char>, pos: int)
    ensures
        moves(s, pos, var_assignment(s, pos)),
    decreases s.len() - pos, 0int,
{
    reveal(var_assignment);
    reveal(instruction);
    if let Some((named, _)) = identifier(s, skip_extra(s, crate::parser::grammar::after_mut(s, pos))) {
        if let Some(equal) = symbol(s, run_end(s, named, CharClass::Whitespace), '=') {
            instruction_moves(s, run_end(s, equal, CharClass::Whitespace));
        }
    }
}

/// A statement ends behind its semicolon.
pub proof fn stmt_semicolon_moves(s: Seq<char>, pos: int)
    ensures
        moves(s, pos, stmt_semicolon(s, pos)),
    decreases s.len() - pos, 6int,
{
    reveal(stmt_semicolon);
    reveal(instruction);
    instruction_moves(s, skip_extra(s, pos));
}

/// The content of a block ends at or behind its cursor, inside the text.
pub proof fn stmts_and_maybe_last_moves(s: Seq<char>, pos: int)
    ensures
        pos <= stmts_and_maybe_last(s, pos).0,
        stmts_and_maybe_last(s, pos).0 == pos || (0 <= pos && stmts_and_maybe_last(s, pos).0
            <= s.len()),
    decreases s.len() - pos, 7int,
{
    reveal(stmts_and_maybe_last);
    reveal(instruction);
    reveal(stmt_semicolon);
    stmt_semicolon_moves(s, pos);
    match advanced(s, pos, stmt_semicolon(s, pos)) {
        Ok((next, _)) => stmts_and_maybe_last_moves(s, next),
        Err(_) => instruction_moves(s, pos),
    }
}

/// A block has at least its two braces.
pub proof fn block_moves(s: Seq<char>, pos: int)
    ensures
        moves(s, pos, block(s, pos)),
    decreases s.len() - pos, 0int,
{
    reveal(block);
    reveal(stmts_and_maybe_last);
    if let Some(open) = symbol(s, pos, '{') {
        stmts_and_maybe_last_moves(s, skip_extra(s, open));
    }
}

/// What follows the keyword of a declaration ends behind its block.
pub proof fn function_content_moves(s: Seq<char>, pos: int)
    ensures
        moves(s, pos, function_content(s, pos)),
    decreases s.len() - pos, 0int,
{
    reveal(function_content);
    reveal(block);
    if let Some((named, _)) = identifier(s, skip_extra(s, pos)) {
        if let Ok((listed, _)) = crate::parser::signature::args_dec(s, skip_extra(s, named)) {
            if let Ok((typed, _)) = crate::parser::signature::return_type(s, listed) {
                block_moves(s, typed);
            }
        }
    }
}

/// A function declaration ends behind its block.
pub proof fn function_declaration_moves(s: Seq<char>, pos: int)
    ensures
        moves(s, pos, function_declaration(s, pos)),
    decreases s.len() - pos, 0int,
{
    reveal(function_declaration);
    reveal(function_content);
    if let Some(start) = keyword(s, pos, Keyword::Func) {
        function_content_moves(s, start);
    }
}

/// A test declaration ends behind its block.
pub proof fn test_declaration_moves(s: Seq<char>, pos: int)
    ensures
        moves(s, pos, test_declaration(s, pos)),
    decreases s.len() - pos, 0int,
{
    reveal(test_declaration);
    reveal(block);
    if let Some(start) = keyword(s, pos, Keyword::Test) {
        if let Some((named, _)) = identifier(s, skip_extra(s, start)) {
            if let Ok((listed, _)) = crate::parser::signature::args_dec_empty(
                s,
                skip_extra(s, named),
            ) {
                if let Ok((typed, _)) = crate::parser::signature::return_type_void(s, listed) {
                    block_moves(s, typed);
                }
            }
        }
    }
}

/// A mock declaration ends behind its block.
pub proof fn mock_declaration_moves(s: Seq<char>, pos: int)
    ensures
        moves(s, pos, mock_declaration(s, pos)),
    decreases s.len() - pos, 0int,
{
    reveal(mock_declaration);
    reveal(function_content);
    if let Some(start) = keyword(s, pos, Keyword::Mock) {
        function_content_moves(s, start);
    }
}

/// An external declaration ends behind its semicolon.
pub proof fn ext_declaration_moves(s: Seq<char>, pos: int)
    ensures
        moves(s, pos, ext_declaration(s, pos)),
{
    reveal(ext_declaration);
}

/// An `else` ends behind its block.
pub proof fn else_block_moves(s: Seq<char>, pos: int)
    ensures
        moves(s, pos, else_block(s, pos)),
    decreases s.len() - pos, 0int,
{
    reveal(else_block);
    reveal(block);
    if let Some(start) = keyword(s, skip_extra(s, pos), Keyword::Else) {
        block_moves(s, skip_extra(s, start));
    }
}

/// A conditional ends behind its last block.
pub proof fn if_else_moves(s: Seq<char>, pos: int)
    ensures
        moves(s, pos, if_else(s, pos)),
    decreases s.len() - pos, 0int,
{
    reveal(if_else);
    reveal(block);
    reveal(else_block);
    reveal(instruction);
    if let Some(start) = keyword(s, skip_extra(s, pos), Keyword::If) {
        if let Ok((tested, _)) = advanced(s, pos, instruction(s, skip_extra(s, start))) {
            if let Ok((done, _)) = advanced(s, pos, block(s, skip_extra(s, tested))) {
                else_block_moves(s, done);
            }
        }
    }
}

/// An audit ends behind its block.
pub proof fn audit_moves(s: Seq<char>, pos: int)
    ensures
        moves(s, pos, audit(s, pos)),
    decreases s.len() - pos, 0int,
{
    reveal(audit);
    reveal(block);
    if let Some(start) = keyword(s, skip_extra(s, pos), Keyword::Audit) {
        block_moves(s, skip_extra(s, start));
    }
}

/// A `loop` ends behind its block.
pub proof fn loop_block_moves(s: Seq<char>, pos: int)
    ensures
        moves(s, pos, loop_block(s, pos)),
    decreases s.len() - pos, 0int,
{
    reveal(loop_block);
    reveal(block);
    if let Some(start) = keyword(s, skip_extra(s, pos), Keyword::Loop) {
        block_moves(s, skip_extra(s, start));
    }
}

/// A `while` ends behind its block.
pub proof fn while_block_moves(s: Seq<char>, pos: int)
    ensures
        moves(s, pos, while_block(s, pos)),
    decreases s.len() - pos, 0int,
{
    reveal(while_block);
    reveal(block);
    reveal(instruction);
    if let Some(start) = keyword(s, skip_extra(s, pos), Keyword::While) {
        if let Ok((tested, _)) = advanced(s, pos, instruction(s, skip_extra(s, start))) {
            block_moves(s, skip_extra(s, tested));
        }
    }
}

/// A `for` ends behind its block.
pub proof fn for_block_moves(s: Seq<char>, pos: int)
    ensures
        moves(s, pos, for_block(s, pos)),
    decreases s.len() - pos, 0int,
{
    reveal(for_block);
    reveal(block);
    reveal(instruction);
    if let Some(start) = keyword(s, skip_extra(s, pos), Keyword::For) {
        if let Ok((named, _)) = variable(s, skip_extra(s, start)) {
            if let Some(within) = keyword(s, skip_extra(s, named), Keyword::In) {
                if let Ok((ranged, _)) = advanced(s, pos, instruction(s, skip_extra(s, within))) {
                    block_moves(s, skip_extra(s, ranged));
                }
            }
        }
    }
}

/// A loop ends behind its block.
pub proof fn any_loop_moves(s: Seq<char>, pos: int)
    ensures
        moves(s, pos, any_loop(s, pos)),
    decreases s.len() - pos, 1int,
{
    reveal(any_loop);
    reveal(for_block);
    reveal(loop_block);
    reveal(while_block);
    loop_block_moves(s, pos);
    for_block_moves(s, pos);
    while_block_moves(s, pos);
}

/// A directive ends behind its call.
pub proof fn jinko_inst_moves(s: Seq<char>, pos: int)
    ensures
        moves(s, pos, jinko_inst(s, pos)),
    decreases s.len() - pos, 0int,
{
    reveal(jinko_inst);
    reveal(function_call);
    if let Some(start) = symbol(s, pos, '@') {
        function_call_moves(s, start);
    }
}

/// An operand has at least one character.
pub proof fn operand_moves(s: Seq<char>, pos: int)
    ensures
        moves(s, pos, operand(s, pos)),
    decreases s.len() - pos, 2int,
{
    reveal(operand);
    reveal(function_call);
    function_call_moves(s, skip_extra(s, pos));
    constant_moves(s, skip_extra(s, pos));
}

/// What follows the first operand of a run ends at or behind its cursor,
/// inside the text.
pub proof fn operations_moves(s: Seq<char>, pos: int)
    ensures
        operations(s, pos) matches Ok((end, _)) ==> pos <= end && (end == pos || (0 <= pos && end
            <= s.len())),
    decreases s.len() - pos, 0int,
{
    reveal(operations);
    reveal(operand);
    if let Some((applied, _)) = operator_at(s, pos) {
        if let Ok((next, _)) = advanced(s, pos, operand(s, applied)) {
            operations_moves(s, next);
        }
    }
}

/// A binary operation ends behind its last operand.
pub proof fn binary_op_moves(s: Seq<char>, pos: int)
    ensures
        moves(s, pos, binary_op(s, pos)),
    decreases s.len() - pos, 3int,
{
    reveal(binary_op);
    reveal(operand);
    reveal(operations);
    operand_moves(s, pos);
    if let Ok((next, _)) = advanced(s, pos, operand(s, pos)) {
        operations_moves(s, next);
    }
}

/// A type declaration ends behind its fields.
pub proof fn type_declaration_moves(s: Seq<char>, pos: int)
    ensures
        moves(s, pos, type_declaration(s, pos)),
{
    reveal(type_declaration);
}

/// A path has at least one character.
pub proof fn path_moves(s: Seq<char>, pos: int)
    ensures
        moves(s, pos, path(s, pos)),
{
    reveal(path);
}

/// An alias ends at or behind its cursor, inside the text.
pub proof fn as_identifier_moves(s: Seq<char>, pos: int)
    ensures
        as_identifier(s, pos) matches Ok((end, _)) ==> pos <= end && (end == pos || (0 <= pos
            && end <= s.len())),
{
    reveal(as_identifier);
}

/// An inclusion ends behind its path.
pub proof fn incl_moves(s: Seq<char>, pos: int)
    ensures
        moves(s, pos, incl(s, pos)),
{
    reveal(incl);
    if let Some(start) = keyword(s, skip_extra(s, pos), Keyword::Incl) {
        path_moves(s, start);
        if let Ok((located, _)) = path(s, start) {
            as_identifier_moves(s, located);
        }
    }
}

/// A caller has at least one character.
pub proof fn method_caller_moves(s: Seq<char>, pos: int)
    ensures
        moves(s, pos, method_caller(s, pos)),
    decreases s.len() - pos, 2int,
{
    reveal(method_caller);
    reveal(any_loop);
    reveal(audit);
    reveal(block);
    reveal(function_call);
    reveal(if_else);
    reveal(jinko_inst);
    function_call_moves(s, pos);
    constant_moves(s, pos);
    if_else_moves(s, pos);
    block_moves(s, pos);
    any_loop_moves(s, pos);
    jinko_inst_moves(s, pos);
    audit_moves(s, pos);
}

/// A method call ends behind its call.
pub proof fn method_call_moves(s: Seq<char>, pos: int)
    ensures
        moves(s, pos, method_call(s, pos)),
    decreases s.len() - pos, 3int,
{
    reveal(method_call);
    reveal(function_call);
    reveal(method_caller);
    method_caller_moves(s, pos);
    if let Ok((called, _)) = advanced(s, pos, method_caller(s, pos)) {
        if let Some(dot) = symbol(s, called, '.') {
            function_call_moves(s, dot);
        }
    }
}

/// A return has at least its keyword.
pub proof fn return_expression_moves(s: Seq<char>, pos: int)
    ensures
        moves(s, pos, return_expression(s, pos)),
    decreases s.len() - pos, 0int,
{
    reveal(return_expression);
    reveal(instruction);
    if let Some(start) = keyword(s, pos, Keyword::Return) {
        instruction_moves(s, skip_extra(s, start));
    }
}

/// A binary operation or a method call has at least one character.
pub proof fn operation_moves(s: Seq<char>, pos: int)
    ensures
        moves(s, pos, operation(s, pos)),
    decreases s.len() - pos, 4int,
{
    reveal(operation);
    reveal(binary_op);
    reveal(method_call);
    binary_op_moves(s, pos);
    method_call_moves(s, pos);
}

/// A declaration has at least one character.
pub proof fn declaration_moves(s: Seq<char>, pos: int)
    ensures
        moves(s, pos, declaration(s, pos)),
    decreases s.len() - pos, 4int,
{
    reveal(declaration);
    reveal(function_declaration);
    reveal(mock_declaration);
    reveal(test_declaration);
    function_declaration_moves(s, pos);
    type_declaration_moves(s, pos);
    ext_declaration_moves(s, pos);
    test_declaration_moves(s, pos);
    mock_declaration_moves(s, pos);
}

/// An instantiation, a call or an inclusion has at least one character.
pub proof fn named_construct_moves(s: Seq<char>, pos: int)
    ensures
        moves(s, pos, named_construct(s, pos)),
    decreases s.len() - pos, 4int,
{
    reveal(named_construct);
    reveal(function_call);
    reveal(type_instantiation);
    type_instantiation_moves(s, pos);
    function_call_moves(s, pos);
    incl_moves(s, pos);
}

/// Control flow, a directive or a block has at least one character.
pub proof fn control_moves(s: Seq<char>, pos: int)
    ensures
        moves(s, pos, control(s, pos)),
    decreases s.len() - pos, 4int,
{
    reveal(control);
    reveal(any_loop);
    reveal(audit);
    reveal(block);
    reveal(if_else);
    reveal(jinko_inst);
    if_else_moves(s, pos);
    any_loop_moves(s, pos);
    jinko_inst_moves(s, pos);
    audit_moves(s, pos);
    block_moves(s, pos);
}

/// An assignment, a variable, a return or a constant has at least one character.
pub proof fn simple_moves(s: Seq<char>, pos: int)
    ensures
        moves(s, pos, simple(s, pos)),
    decreases s.len() - pos, 4int,
{
    reveal(simple);
    reveal(return_expression);
    reveal(var_assignment);
    var_assignment_moves(s, pos);
    return_expression_moves(s, pos);
    constant_moves(s, pos);
}

/// An instruction has at least one character: a rule never succeeds on nothing.
pub proof fn instruction_moves(s: Seq<char>, pos: int)
    ensures
        moves(s, pos, instruction(s, pos)),
    decreases s.len() - pos, 5int,
{
    reveal(instruction);
    reveal(control);
    reveal(declaration);
    reveal(named_construct);
    reveal(operation);
    reveal(simple);
    let start = skip_extra(s, pos);
    operation_moves(s, start);
    declaration_moves(s, start);
    named_construct_moves(s, start);
    control_moves(s, start);
    simple_moves(s, start);
}

/// An instruction with its semicolon has at least one character.
pub proof fn instruction_maybe_semicolon_moves(s: Seq<char>, pos: int)
    ensures
        moves(s, pos, instruction_maybe_semicolon(s, pos)),
{
    reveal(instruction_maybe_semicolon);
    instruction_moves(s, pos);
}

/// A sequence of instructions ends at or behind its cursor, inside the
/// text.
pub proof fn many_instructions_moves(s: Seq<char>, pos: int)
    ensures
        pos <= many_instructions(s, pos).0,
        many_instructions(s, pos).0 == pos || (0 <= pos && many_instructions(s, pos).0 <= s.len()),
    decreases s.len() - pos,
{
    reveal(many_instructions);
    instruction_maybe_semicolon_moves(s, pos);
    match advanced(s, pos, instruction_maybe_semicolon(s, pos)) {
        Ok((next, _)) => many_instructions_moves(s, next),
        Err(_) => {},
    }
}

/// Where a rule asks another for progress, it always gets it: the outcome
/// of a rule that starts at or behind a cursor, which the grammar keeps
/// only if it ends behind that cursor and inside the text, is always kept.
pub proof fn progress_is_never_missing(s: Seq<char>, from: int, pos: int)
    requires
        from <= pos,
    ensures
        advanced(s, from, instruction(s, pos)) == instruction(s, pos),
        advanced(s, from, block(s, pos)) == block(s, pos),
        advanced(s, from, operand(s, pos)) == operand(s, pos),
        advanced(s, from, method_caller(s, pos)) == method_caller(s, pos),
        advanced(s, from, arg_and_comma(s, pos)) == arg_and_comma(s, pos),
        advanced(s, from, stmt_semicolon(s, pos)) == stmt_semicolon(s, pos),
        advanced(s, from, instruction_maybe_semicolon(s, pos)) == instruction_maybe_semicolon(
            s,
            pos,
        ),
{
    instruction_moves(s, pos);
    block_moves(s, pos);
    operand_moves(s, pos);
    method_caller_moves(s, pos);
    arg_and_comma_moves(s, pos);
    stmt_semicolon_moves(s, pos);
    instruction_maybe_semicolon_moves(s, pos);
}

} // verus!
