//! A bytecode virtual machine for a query language: a stack-based instruction
//! interpreter with lexically scoped storage, closures as bare code addresses,
//! and a LIFO scheduler of suspended execution states that realizes
//! multiple-solution (backtracking) semantics.

pub mod arith;
pub mod bytecode;
pub mod errors;
pub mod laws;
pub mod machine;
pub mod state;
pub mod value;
