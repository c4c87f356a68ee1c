//! Syntax-tree nodes for a small interpreted language: the values a parser
//! builds and an evaluator walks, with a mathematical model of each node and
//! contracts that tie every operation to that model.

pub mod ast;
pub mod token;
