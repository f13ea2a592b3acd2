//! Core of a WebAssembly engine with a register-based internal bytecode:
//! a single-pass translator from stack-machine operators to register
//! instructions, and an interpreter for the translated code.

pub mod branches;
pub mod code_map;
pub mod const_pool;
pub mod control;
pub mod copies;
pub mod encoder;
pub mod encodings;
pub mod engine;
pub mod error;
pub mod identities;
pub mod executor;
pub mod float;
pub mod module;
pub mod numeric;
pub mod instr;
pub mod integer;
pub mod laws;
pub mod ops;
pub mod printer;
pub mod regfile;
pub mod register;
pub mod simplify;
pub mod stack;
pub mod translator;
pub mod value;
pub mod visit_branch;
pub mod visit_call;
pub mod visit_control;
pub mod visit_memory;
pub mod visit_numeric;
pub mod visit_variable;
pub mod visit_table;
