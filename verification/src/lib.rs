//! Extraction of structured documentation from Java source text: a
//! hand-built lexer, a statement-level classifier, a documentation-comment
//! parser and a declaration constructor turn raw text into a normalized
//! declaration model, which the renderers turn into markdown and the lint
//! pass checks for missing documentation. Every function is specified and
//! verified; the surrounding program supplies file contents and writes the
//! rendered pages out.

pub mod document;
pub mod grammar;
pub mod laws;
pub mod lint;
pub mod model;
pub mod parse;
pub mod strutil;
