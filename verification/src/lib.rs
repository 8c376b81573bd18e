//! A lexical scanner for a small expression language: unsigned integer
//! literals, the `+` operator, and in-band error tokens.

pub mod laws;
pub mod lexer;
