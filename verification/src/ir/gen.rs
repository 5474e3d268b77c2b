//! Generation of IR from the syntax tree.
pub mod conversions;
pub mod static_eval;
