//! Literal values: the leaves of the syntax tree.

pub mod jink_bool;
pub mod jink_char;
pub mod jink_float;
pub mod jink_int;
pub mod jink_string;

pub use jink_bool::JinkBool;
pub use jink_char::JinkChar;
pub use jink_float::JinkFloat;
pub use jink_int::JinkInt;
pub use jink_string::JinkString;
