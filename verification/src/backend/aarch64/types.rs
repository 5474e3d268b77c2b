//! Registers, operands and operators of aarch64 instructions.
use vstd::prelude::*;

use crate::backend::Error;
use crate::ir::Dtype;

verus! {

/// A register: a virtual one (numbered, before allocation), a physical one,
/// or the stack pointer.
#[derive(Debug, Clone, Copy, PartialEq, Eq, Hash)]
pub enum Register {
    Virtual(usize),
    Physical(u8),
    StackPointer,
}

/// The hardware register class a virtual or physical register belongs to.
///
/// aarch64 keeps integer (`Gpr` — `w_`/`x_`) and floating-point/SIMD
/// (`Fpr` — `s_`/`d_`/`v_`) register banks completely independent: no
/// instruction can simultaneously source one operand from each bank.
/// The register allocator uses this class to split vregs into two
/// interference graphs that are coloured against disjoint pools.
#[derive(Debug, Clone, Copy, PartialEq, Eq, Hash)]
pub enum RegClass {
    /// General-purpose integer (`x0`–`x30`, `sp`).
    Gpr,
    /// Floating-point / SIMD (`s0`–`s31`, alternatively `d`/`v`).
    Fpr,
}

/// The width of a register operand.
#[derive(Debug, Clone, Copy, PartialEq, Eq)]
pub enum RegSize {
    /// 32-bit general-purpose: `w0`–`w30`, also used for `i1` operands.
    W32,
    /// 64-bit general-purpose: `x0`–`x30`, also used for pointer-typed
    /// operands.
    X64,
    /// 32-bit single-precision floating-point: `s0`–`s31`.
    S32,
}

/// The register class of a width: the general-purpose bank for `W32` and
/// `X64`, the floating-point bank for `S32`.
pub open spec fn spec_class(size: RegSize) -> RegClass {
    match size {
        RegSize::W32 | RegSize::X64 => RegClass::Gpr,
        RegSize::S32 => RegClass::Fpr,
    }
}

impl RegSize {
    /// The register class implied by this width.  `W32`/`X64` live in
    /// the general-purpose bank; `S32` is a floating-point register.
    pub fn class(&self) -> (c: RegClass)
        ensures
            c == spec_class(*self),
    {
        match self {
            RegSize::W32 | RegSize::X64 => RegClass::Gpr,
            RegSize::S32 => RegClass::Fpr,
        }
    }
}

/// Integer binary operators.
#[derive(Debug, Clone, Copy, PartialEq, Eq)]
pub enum BinOp {
    Add,
    Sub,
    Mul,
    SDiv,
}

/// Single-precision floating-point binary operators corresponding 1:1
/// to the aarch64 `fadd`/`fsub`/`fmul`/`fdiv` instructions.
#[derive(Debug, Clone, Copy, PartialEq, Eq)]
pub enum FBinOp {
    FAdd,
    FSub,
    FMul,
    FDiv,
}

/// Branch conditions.
#[derive(Debug, Clone, Copy, PartialEq, Eq)]
pub enum Cond {
    Eq,
    Ne,
    Lt,
    Le,
    Gt,
    Ge,
}

/// A source operand: a register or an immediate.
#[derive(Debug, Clone, Copy, PartialEq, Eq)]
pub enum Operand {
    Register(Register),
    Immediate(i64),
}

/// A memory address: base register plus offset, or a global symbol.
#[derive(Debug, Clone, PartialEq, Eq)]
pub enum Addr {
    BaseOff { base: Register, offset: i64 },
    Global(String),
}

/// The index of an address computation: a register or an immediate.
#[derive(Debug, Clone, Copy, PartialEq, Eq)]
pub enum IndexOperand {
    Reg(Register),
    Imm(i64),
}

/// The register width that holds values of an IR type, if any: `i1` and
/// `i32` live in `w` registers, pointers in `x` registers.
pub open spec fn spec_dtype_to_regsize(dtype: Dtype) -> Option<RegSize> {
    match dtype {
        Dtype::I1 | Dtype::I32 => Some(RegSize::W32),
        Dtype::Pointer { .. } => Some(RegSize::X64),
        _ => None,
    }
}

/// The register width for values of `dtype`; other types are refused with
/// the type itself.
pub fn dtype_to_regsize(dtype: &Dtype) -> (res: Result<RegSize, Error>)
    ensures
        match spec_dtype_to_regsize(*dtype) {
            Some(size) => res == Ok::<RegSize, Error>(size),
            None => res == Err::<RegSize, Error>(Error::UnsupportedDtype { dtype: *dtype }),
        },
{
    match dtype {
        Dtype::I1 | Dtype::I32 => Ok(RegSize::W32),
        Dtype::Pointer { .. } => Ok(RegSize::X64),
        _ => Err(Error::UnsupportedDtype { dtype: dtype.copy() }),
    }
}

/// Every width that `dtype_to_regsize` gives is in the general-purpose bank.
pub proof fn lemma_regsize_of_dtype_is_gpr(dtype: Dtype)
    ensures
        spec_dtype_to_regsize(dtype) matches Some(size) ==> spec_class(size) == RegClass::Gpr,
{
}

/// Registers of 32 and 64 bits are general-purpose; only `S32` is a
/// floating-point register.
pub proof fn lemma_class_of_sizes(size: RegSize)
    ensures
        spec_class(size) == RegClass::Fpr <==> size == RegSize::S32,
        spec_class(size) == RegClass::Gpr <==> (size == RegSize::W32 || size == RegSize::X64),
{
}

/// Booleans and 32-bit integers live in `w` registers, pointers in `x`
/// registers, and no other IR type has a register width.
pub proof fn lemma_regsize_of_dtypes(dtype: Dtype)
    ensures
        spec_dtype_to_regsize(dtype) == Some(RegSize::W32) <==> (dtype is I1 || dtype is I32),
        spec_dtype_to_regsize(dtype) == Some(RegSize::X64) <==> dtype is Pointer,
        spec_dtype_to_regsize(dtype) is None <==> (dtype is F32 || dtype is Array || dtype is Struct),
        spec_dtype_to_regsize(dtype) != Some(RegSize::S32),
{
}

} // verus!
