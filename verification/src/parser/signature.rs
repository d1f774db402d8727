//! The signature of a declaration: typed arguments and a return type.

use vstd::prelude::*;
use crate::error::ErrorKind;
use crate::instruction::TypedName;
use crate::parser::outcome::{advanced, one_of, or_else, Parsed};
use crate::parser::tokens::{group_token_bounds, identifier, skip_extra, symbol, tag};

verus! {

broadcast use group_token_bounds;

/// `( )`
#[verifier::opaque]
pub open spec fn args_dec_empty(s: Seq<char>, pos: int) -> Parsed<Seq<TypedName>> {
    match symbol(s, pos, '(') {
        None => Err(ErrorKind::ExpectedTokenMissing),
        Some(open) => match symbol(s, skip_extra(s, open), ')') {
            None => Err(ErrorKind::ExpectedTokenMissing),
            Some(end) => Ok((end, Seq::empty())),
        },
    }
}

/// `<identifier> : <type>`
#[verifier::opaque]
pub open spec fn identifier_type(s: Seq<char>, pos: int) -> Parsed<TypedName> {
    match identifier(s, pos) {
        None => Err(ErrorKind::ExpectedTokenMissing),
        Some((named, name)) => match symbol(s, skip_extra(s, named), ':') {
            None => Err(ErrorKind::ExpectedTokenMissing),
            Some(colon) => match identifier(s, skip_extra(s, colon)) {
                None => Err(ErrorKind::ExpectedTokenMissing),
                Some((end, ty)) => Ok((end, TypedName { name, ty })),
            },
        },
    }
}

/// `<identifier> : <type> ,`
#[verifier::opaque]
pub open spec fn identifier_type_comma(s: Seq<char>, pos: int) -> Parsed<TypedName> {
    match identifier_type(s, skip_extra(s, pos)) {
        Err(e) => Err(e),
        Ok((typed, arg)) => match symbol(s, skip_extra(s, typed), ',') {
            None => Err(ErrorKind::ExpectedTokenMissing),
            Some(end) => Ok((end, arg)),
        },
    }
}

/// `[ <identifier> : <type> , ]*`
#[verifier::opaque]
pub open spec fn typed_args(s: Seq<char>, pos: int) -> (int, Seq<TypedName>)
    decreases s.len() - pos,
{
    match advanced(s, pos, identifier_type_comma(s, pos)) {
        Ok((next, first)) => {
            let (end, others) = typed_args(s, next);
            (end, seq![first] + others)
        },
        Err(_) => (pos, Seq::empty()),
    }
}

/// `( [ <identifier> : <type> , ]* <identifier> : <type> )`
#[verifier::opaque]
pub open spec fn args_dec_non_empty(s: Seq<char>, pos: int) -> Parsed<Seq<TypedName>> {
    match symbol(s, pos, '(') {
        None => Err(ErrorKind::ExpectedTokenMissing),
        Some(open) => {
            let (listed, args) = typed_args(s, skip_extra(s, open));
            match identifier_type(s, skip_extra(s, listed)) {
                Err(e) => Err(e),
                Ok((typed, last)) => match symbol(s, typed, ')') {
                    None => Err(ErrorKind::ExpectedTokenMissing),
                    Some(end) => Ok((end, args.push(last))),
                },
            }
        },
    }
}

/// `( ) | ( [ <identifier> : <type> , ]* <identifier> : <type> )`
#[verifier::opaque]
pub open spec fn args_dec(s: Seq<char>, pos: int) -> Parsed<Seq<TypedName>> {
    one_of(or_else(args_dec_empty(s, pos), args_dec_non_empty(s, pos)))
}

/// The arrow `->`.
pub open spec fn arrow(s: Seq<char>, pos: int) -> Option<int> {
    tag(s, pos, seq!['-', '>'])
}

/// No return type: no arrow follows.
#[verifier::opaque]
pub open spec fn return_type_void(s: Seq<char>, pos: int) -> Parsed<Option<Seq<char>>> {
    let start = skip_extra(s, pos);
    if arrow(s, start) is Some {
        Err(ErrorKind::ConstructNotRecognized)
    } else {
        Ok((start, None))
    }
}

/// `-> <type>`
#[verifier::opaque]
pub open spec fn return_type_non_void(s: Seq<char>, pos: int) -> Parsed<Option<Seq<char>>> {
    match arrow(s, skip_extra(s, pos)) {
        None => Err(ErrorKind::ExpectedTokenMissing),
        Some(pointed) => match identifier(s, skip_extra(s, pointed)) {
            None => Err(ErrorKind::ExpectedTokenMissing),
            Some((typed, ty)) => Ok((skip_extra(s, typed), Some(ty))),
        },
    }
}

/// `[ -> <type> ]`
#[verifier::opaque]
pub open spec fn return_type(s: Seq<char>, pos: int) -> Parsed<Option<Seq<char>>> {
    one_of(or_else(return_type_non_void(s, pos), return_type_void(s, pos)))
}

/// The arguments with a comma end at or behind their cursor, inside the
/// text.
pub broadcast proof fn typed_args_bounds(s: Seq<char>, pos: int)
    ensures
        pos <= (#[trigger] typed_args(s, pos)).0,
        typed_args(s, pos).0 == pos || (0 <= pos && typed_args(s, pos).0 <= s.len()),
    decreases s.len() - pos,
{
    reveal(typed_args);
    reveal(identifier_type_comma);
    identifier_type_bounds(s, skip_extra(s, pos));
    match advanced(s, pos, identifier_type_comma(s, pos)) {
        Ok((next, _)) => typed_args_bounds(s, next),
        Err(_) => {},
    }
}

/// A list of declared arguments ends behind its parentheses, inside the
/// text.
pub broadcast proof fn args_dec_bounds(s: Seq<char>, pos: int)
    ensures
        (#[trigger] args_dec(s, pos)) matches Ok((end, _)) ==> 0 <= pos < end <= s.len(),
{
    reveal(args_dec);
    args_dec_empty_bounds(s, pos);
    args_dec_non_empty_bounds(s, pos);
}

/// An empty list of declared arguments ends behind its parentheses, inside
/// the text, and declares nothing.
pub broadcast proof fn args_dec_empty_bounds(s: Seq<char>, pos: int)
    ensures
        (#[trigger] args_dec_empty(s, pos)) matches Ok((end, args)) ==> 0 <= pos < end <= s.len()
            && args.len() == 0,
{
    reveal(args_dec_empty);
}

/// A list of declared arguments that is not empty ends behind its
/// parentheses, inside the text, and declares at least one argument.
pub broadcast proof fn args_dec_non_empty_bounds(s: Seq<char>, pos: int)
    ensures
        (#[trigger] args_dec_non_empty(s, pos)) matches Ok((end, args)) ==> 0 <= pos < end <= s.len()
            && args.len() > 0,
{
    reveal(args_dec_non_empty);
    reveal(identifier_type);
    if let Some(open) = symbol(s, pos, '(') {
        typed_args_bounds(s, skip_extra(s, open));
    }
}

/// A return type ends at or behind its cursor, inside the text.
pub broadcast proof fn return_type_bounds(s: Seq<char>, pos: int)
    ensures
        (#[trigger] return_type(s, pos)) matches Ok((end, _)) ==> pos <= end && (end == pos || (0
            <= pos && end <= s.len())),
{
    reveal(return_type);
    reveal(return_type_void);
    reveal(return_type_non_void);
}

/// The absence of a return type ends at or behind its cursor, inside the
/// text, and names no type.
pub broadcast proof fn return_type_void_bounds(s: Seq<char>, pos: int)
    ensures
        (#[trigger] return_type_void(s, pos)) matches Ok((end, ty)) ==> pos <= end && (end == pos
            || (0 <= pos && end <= s.len())) && ty is None,
{
    reveal(return_type_void);
}

/// A declared argument ends behind its cursor, inside the text.
pub broadcast proof fn identifier_type_bounds(s: Seq<char>, pos: int)
    ensures
        (#[trigger] identifier_type(s, pos)) matches Ok((end, _)) ==> 0 <= pos < end <= s.len(),
{
    reveal(identifier_type);
}

pub broadcast group group_signature_bounds {
    args_dec_bounds,
    args_dec_empty_bounds,
    args_dec_non_empty_bounds,
    return_type_bounds,
    return_type_void_bounds,
    identifier_type_bounds,
}

} // verus!
