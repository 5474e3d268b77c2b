//! The intermediate representation: data types and the generator's errors.
use vstd::prelude::*;

use crate::ast::ExprUnit;

pub mod gen;

verus! {

/// A data type of the intermediate representation.
#[derive(Debug, PartialEq, Eq)]
pub enum Dtype {
    /// A one-bit boolean.
    I1,
    /// A 32-bit signed integer.
    I32,
    /// A single-precision float.
    F32,
    Pointer { pointee: Box<Dtype> },
    /// An array; `length` is `None` for an array of unknown size (behind a reference).
    Array { element: Box<Dtype>, length: Option<usize> },
    Struct { struct_name: String },
}

impl Dtype {
    /// A pointer to `pointee`.
    pub fn ptr_to(pointee: Dtype) -> (d: Dtype)
        ensures
            d == (Dtype::Pointer { pointee: Box::new(pointee) }),
    {
        Dtype::Pointer { pointee: Box::new(pointee) }
    }

    /// An array of `length` elements of type `element`.
    pub fn array_of(element: Dtype, length: usize) -> (d: Dtype)
        ensures
            d == (Dtype::Array { element: Box::new(element), length: Some(length) }),
    {
        Dtype::Array { element: Box::new(element), length: Some(length) }
    }

    /// A copy of this data type.
    pub fn copy(&self) -> (d: Dtype)
        ensures
            d == *self,
        decreases self,
    {
        match self {
            Dtype::I1 => Dtype::I1,
            Dtype::I32 => Dtype::I32,
            Dtype::F32 => Dtype::F32,
            Dtype::Pointer { pointee } => Dtype::Pointer { pointee: Box::new(pointee.copy()) },
            Dtype::Array { element, length } => Dtype::Array {
                element: Box::new(element.copy()),
                length: *length,
            },
            Dtype::Struct { struct_name } => Dtype::Struct { struct_name: struct_name.clone() },
        }
    }
}

/// Errors of IR generation.
#[derive(Debug, PartialEq)]
pub enum Error {
    /// A cast to a type other than `int` in a constant expression.
    InvalidCast,
    /// A constant expression whose value does not fit in an `i32`.
    IntegerOverflow,
    /// A constant division by zero, or one whose quotient does not fit in an `i32`.
    DivisionByZero,
    /// A unit that cannot be evaluated at compile time (a variable, a call, ...).
    InvalidExprUnit { expr_unit: ExprUnit },
    /// A variable of struct type with an initializer.
    StructInitialization,
}

/// The IR generator; its static evaluation needs no state.
pub struct IrGenerator;

} // verus!
