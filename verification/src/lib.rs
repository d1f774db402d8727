//! Front end of the jinko scripting language: a lexer, an operator-precedence
//! parser and a recursive grammar that turn source text into a syntax tree.
//!
//! Every rule of the grammar is stated twice. The functions of
//! [`parser::grammar`] say, over a sequence of characters and a cursor, what a
//! rule accepts and which tree it builds. The functions of
//! [`parser::Construct`] compute it, and are proved to agree.

pub mod error;
pub mod instruction;
pub mod parser;
pub mod value;
