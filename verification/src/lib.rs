//! Front-end and back-end pieces of a small compiler: the abstract syntax
//! tree and its tree rendering, static evaluation of constant expressions,
//! conversion of declared types to IR data types, and the aarch64
//! instruction model with its register use/def sets and control-flow edges.
pub mod ast;
pub mod ir;
pub mod backend;
