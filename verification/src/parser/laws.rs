//! What holds of every parse.
//!
//! The grammar says what each rule accepts. The lemmas of this module say
//! what follows for every input: that an answer is decided by the input,
//! that a failure leaves the input whole, and which shapes a declaration, a
//! type or a list can have.

use vstd::prelude::*;
use crate::error::ErrorKind;
use crate::instruction::{FunctionKind, FunctionTree, Tree};
use crate::instruction::render::{decimal_text, digit_char, digits_of};
use crate::parser::constructs::{ParseResult, parses};
use crate::parser::grammar::{
    args_list, declaration, ext_declaration, function_call, function_call_args,
    function_call_no_args, function_content, function_declaration, mock_declaration,
    test_declaration, type_declaration, type_instantiation,
};
use crate::parser::outcome::{advanced, Parsed};
use crate::parser::signature::{
    args_dec_empty_bounds, args_dec_non_empty_bounds, return_type_void_bounds,
};
use crate::parser::tokens::{
    after_sign, CharClass, decimal, digit_value, int_constant, is_decimal_digit, run_is_determined,
};

verus! {

/// Two answers are the same: the same rest and a node of the same tree, or
/// the same input left and the same reason.
pub open spec fn same_answer<T: View>(first: ParseResult<T>, second: ParseResult<T>) -> bool {
    match (first, second) {
        (Ok((rest, node)), Ok((other_rest, other_node))) => rest@ == other_rest@ && node@
            == other_node@,
        (Err(e), Err(f)) => e.remaining@ == f.remaining@ && e.kind == f.kind,
        _ => false,
    }
}

/// Parsing is a function of the input: two answers of one rule to the same
/// text are the same.
pub proof fn parse_is_deterministic<T: View>(
    input: &str,
    first: ParseResult<T>,
    second: ParseResult<T>,
    rule: Parsed<T::V>,
)
    requires
        parses(input, first, rule),
        parses(input, second, rule),
    ensures
        same_answer(first, second),
{
}

/// A failure consumes nothing: the input that comes back with it is the
/// input that the rule was given, whatever the rule accepted on its way.
pub proof fn failure_leaves_input_whole<T: View>(
    input: &str,
    out: ParseResult<T>,
    rule: Parsed<T::V>,
)
    requires
        parses(input, out, rule),
    ensures
        out matches Err(e) ==> e.remaining@ == input@,
        out matches Ok((rest, _)) ==> exists|end: int|
            0 <= end <= input@.len() && rest@ == #[trigger] input@.skip(end),
{
}

/// Whether a declaration has the shape that goes with its kind: an external
/// function has no block and every other function has one; a test takes no
/// argument and returns nothing.
pub open spec fn well_formed(f: FunctionTree) -> bool {
    &&& f.kind != FunctionKind::Unknown
    &&& f.block is None <==> f.kind == FunctionKind::Ext
    &&& f.kind == FunctionKind::Test ==> f.args.len() == 0 && f.ty is None
}

/// The keyword decides the kind of a declaration, and every declaration
/// that is accepted has the shape that goes with its kind.
pub proof fn declarations_are_well_formed(s: Seq<char>, pos: int)
    ensures
        function_declaration(s, pos) matches Ok((_, f)) ==> f.kind == FunctionKind::Func
            && well_formed(f),
        ext_declaration(s, pos) matches Ok((_, f)) ==> f.kind == FunctionKind::Ext && well_formed(f),
        test_declaration(s, pos) matches Ok((_, f)) ==> f.kind == FunctionKind::Test
            && well_formed(f),
        mock_declaration(s, pos) matches Ok((_, f)) ==> f.kind == FunctionKind::Mock
            && well_formed(f),
        declaration(s, pos) matches Ok((_, Tree::FunctionDec(f))) ==> well_formed(f),
{
    broadcast use {args_dec_empty_bounds, return_type_void_bounds};

    reveal(function_declaration);
    reveal(ext_declaration);
    reveal(test_declaration);
    reveal(mock_declaration);
    reveal(function_content);
    reveal(declaration);
    reveal(type_declaration);
}

/// A type that is accepted has at least one field.
pub proof fn types_have_fields(s: Seq<char>, pos: int)
    ensures
        type_declaration(s, pos) matches Ok((_, Tree::TypeDec { fields, .. })) ==> fields.len()
            > 0,
        type_declaration(s, pos) matches Ok((_, t)) ==> t is TypeDec,
{
    broadcast use args_dec_non_empty_bounds;

    reveal(type_declaration);
}

/// A list of arguments that is accepted has at least one argument.
pub proof fn lists_are_not_empty(s: Seq<char>, pos: int)
    ensures
        args_list(s, pos) matches Ok((_, args)) ==> args.len() > 0,
    decreases s.len() - pos,
{
    reveal(args_list);
    match advanced(s, pos, crate::parser::grammar::arg_and_comma(s, pos)) {
        Ok((next, _)) => lists_are_not_empty(s, next),
        Err(_) => {},
    }
}

/// A call has no argument exactly when it is written with nothing between
/// its parentheses, and an instantiation always has a value.
pub proof fn calls_and_their_arguments(s: Seq<char>, pos: int)
    ensures
        function_call(s, pos) matches Ok((_, call)) ==> (call.args.len() == 0
            <==> function_call_no_args(s, pos) is Ok),
        type_instantiation(s, pos) matches Ok((_, Tree::TypeInstantiation { values, .. }))
            ==> values.len() > 0,
{
    reveal(function_call);
    reveal(function_call_no_args);
    reveal(function_call_args);
    reveal(type_instantiation);
    if let Some((named, _)) = crate::parser::tokens::identifier(s, pos) {
        if let Some(open) = crate::parser::tokens::symbol(s, named, '(') {
            lists_are_not_empty(s, open);
        }
        if let Some(open) = crate::parser::tokens::symbol(
            s,
            crate::parser::tokens::skip_extra(s, named),
            '{',
        ) {
            lists_are_not_empty(s, open);
        }
    }
}

/// The digits of a number are digits, and they denote the number.
pub proof fn digits_denote_their_number(n: nat)
    ensures
        digits_of(n).len() > 0,
        forall|i: int| 0 <= i < digits_of(n).len() ==> is_decimal_digit(#[trigger] digits_of(n)[i]),
        decimal(digits_of(n)) == n,
    decreases n,
{
    if n < 10 {
        let digits = digits_of(n);
        assert(digits.drop_last() =~= Seq::<char>::empty());
        assert(decimal(digits.drop_last()) == 0);
        assert(digit_value(digit_char(n as int)) == n);
    } else {
        digits_denote_their_number(n / 10);
        let digits = digits_of(n);
        assert(digits.drop_last() =~= digits_of(n / 10));
        assert(digit_value(digit_char((n % 10) as int)) == n % 10);
    }
}

/// An integer that is written out is read back as itself: the lexer
/// accepts the whole of its decimal form and gives it the same value.
pub proof fn integers_are_read_back(i: i64)
    ensures
        int_constant(decimal_text(i), 0) == Ok::<(int, i64), ErrorKind>(
            (decimal_text(i).len() as int, i),
        ),
{
    reveal(int_constant);
    let s = decimal_text(i);
    let magnitude: nat = if i < 0 {
        (-i) as nat
    } else {
        i as nat
    };
    digits_denote_their_number(magnitude);
    let digits = digits_of(magnitude);
    let start = after_sign(s, 0);
    if i < 0 {
        assert(s[0] == '-');
        assert(start == 1);
        assert(s.subrange(1, s.len() as int) =~= digits);
        assert forall|j: int| 1 <= j < s.len() implies CharClass::Digit.has(#[trigger] s[j]) by {
            assert(s[j] == digits[j - 1]);
        }
    } else {
        assert(s =~= digits);
        assert(is_decimal_digit(s[0]));
        assert(start == 0);
        assert(s.subrange(0, s.len() as int) =~= digits);
    }
    run_is_determined(s, start, CharClass::Digit, s.len() as int);
}

} // verus!
