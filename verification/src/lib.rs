//! A small library that compiles a declarative text language describing a
//! record schema into a typed schema tree, synthesizes pseudo-random tuples
//! conforming to that schema, and screens the schema against the structural
//! capabilities an output backend declares in advance.

pub mod data_gen;
pub mod data_repr;
pub mod gen;
pub mod parser;
pub mod schema;
pub mod text;
pub mod writer;

