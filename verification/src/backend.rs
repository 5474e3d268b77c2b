//! The aarch64 back end: instructions, operands and back-end errors.
use vstd::prelude::*;

use crate::ir::Dtype;

pub mod aarch64;

verus! {

/// Errors of assembly generation.
#[derive(Debug, PartialEq, Eq)]
pub enum Error {
    /// An IR data type that has no register representation.
    UnsupportedDtype { dtype: Dtype },
}

} // verus!
