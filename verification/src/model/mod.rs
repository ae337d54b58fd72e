//! The declaration model: the data structures that parsing produces and the
//! renderers consume.

pub mod class;
pub mod contents;
pub mod doc;
pub mod enumeration;
pub mod exception;
pub mod interface;
pub mod member;
pub mod method;
pub mod object;
pub mod options;
pub mod param;
pub mod project;
pub mod spring_data;
