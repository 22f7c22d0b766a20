//! A generic template language kernel: expressions evaluated against a
//! host-defined "self" type, whose fields are exposed as named keywords.
pub mod keywords;
pub mod language;
pub mod parser;
pub mod property;
