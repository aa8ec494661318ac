//! Semantic core of the `ln` compiler: a type store with numeric inference,
//! a scoped symbol environment with borrow accounting, a checker that walks
//! the syntax tree, and a builder that lowers checked trees to a linear
//! register-based intermediate representation.

pub mod ast;
pub mod builder;
pub mod checker;
pub mod diag;
pub mod disassembler;
pub mod ir;
pub mod loader;
pub mod range;
pub mod text;
