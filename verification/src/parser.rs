//! From text to syntax tree.
//!
//! [`source`] holds the text under a cursor and [`tokens`] recognises
//! lexemes. [`signature`] and [`grammar`] state what each rule accepts and
//! builds, with [`shunting_yard`] saying how binary operations nest, and
//! [`outcome`] what an answer is. [`rules`] computes each rule from a
//! cursor, and [`constructs`] is the parser that callers use. [`laws`] and
//! [`progress`] hold what is proved of every parse.

pub mod constructs;
pub mod grammar;
pub mod laws;
pub mod outcome;
pub mod progress;
pub mod rules;
pub mod shunting_yard;
pub mod signature;
pub mod source;
pub mod tokens;

pub use constructs::{Construct, ParseResult};
pub use source::Source;
pub use tokens::Token;
