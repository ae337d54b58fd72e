//! Parsing: lexing, documentation-comment parsing, statement interpretation
//! and declaration construction.

pub mod ast;
pub mod builders;
pub mod docparse;
pub mod lexer;
