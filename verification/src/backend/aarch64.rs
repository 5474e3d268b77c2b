//! aarch64 instructions and their operands.
pub mod inst;
pub mod types;
