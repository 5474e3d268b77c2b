//! Conversions between AST types and IR types.
//!
//! This module converts AST-level type representations (`TypeSpecifier`,
//! `VarDecl`, `VarDef`, `VarDeclStmt`) into their corresponding IR-level
//! data types (`Dtype`).
use vstd::prelude::*;

use vstd::std_specs::convert::{FromSpecImpl, TryFromSpecImpl};

use crate::ast::{
    BuiltIn, TypeSpecifier, TypeSpecifierInner, VarDecl, VarDeclInner, VarDeclStmt,
    VarDeclStmtInner, VarDef, VarDefInner,
};
use crate::ir::{Dtype, Error};

verus! {

/// The IR data type of a written type: `int` is `i32`, `float` is `f32`, a
/// struct name a struct type, `&[T]` a pointer to an array of unknown length
/// of `T`, and `[T; n]` an array of `n` elements of `T`.
pub open spec fn spec_dtype_of(ts: TypeSpecifier) -> Dtype
    decreases ts,
{
    match ts.inner {
        TypeSpecifierInner::BuiltIn(BuiltIn::Int) => Dtype::I32,
        TypeSpecifierInner::BuiltIn(BuiltIn::Float) => Dtype::F32,
        TypeSpecifierInner::Composite(name) => Dtype::Struct { struct_name: name },
        TypeSpecifierInner::Reference(inner) => Dtype::Pointer {
            pointee: Box::new(
                Dtype::Array { element: Box::new(spec_dtype_of(*inner)), length: None },
            ),
        },
        TypeSpecifierInner::Array(inner, len) => Dtype::Array {
            element: Box::new(spec_dtype_of(*inner)),
            length: Some(len as usize),
        },
    }
}

/// The base type of a declaration: its written type, `i32` when none is written.
pub open spec fn spec_base_dtype(type_specifier: Option<TypeSpecifier>) -> Dtype {
    match type_specifier {
        Some(ts) => spec_dtype_of(ts),
        None => Dtype::I32,
    }
}

/// The storage type of a declaration of shape `inner` with element type `base`.
pub open spec fn spec_var_decl_dtype(base: Dtype, inner: VarDeclInner) -> Dtype {
    match inner {
        VarDeclInner::Scalar => base,
        VarDeclInner::Array(arr) => Dtype::Array { element: Box::new(base), length: Some(arr.len) },
    }
}

/// The storage type of a definition of shape `inner` with element type `base`.
pub open spec fn spec_var_def_dtype(base: Dtype, inner: VarDefInner) -> Dtype {
    match inner {
        VarDefInner::Scalar(_) => base,
        VarDefInner::Array(arr) => Dtype::Array { element: Box::new(base), length: Some(arr.len) },
    }
}

/// The type of a declaration.
pub open spec fn spec_decl_dtype(decl: VarDecl) -> Dtype {
    spec_var_decl_dtype(spec_base_dtype(decl.type_specifier), decl.inner)
}

/// The type of a definition; variables of struct type cannot be initialized.
pub open spec fn spec_def_dtype(def: VarDef) -> Result<Dtype, Error> {
    let base = spec_base_dtype(def.type_specifier);
    if base is Struct {
        Err(Error::StructInitialization)
    } else {
        Ok(spec_var_def_dtype(base, def.inner))
    }
}

/// The type of a declaration statement.
pub open spec fn spec_decl_stmt_dtype(stmt: VarDeclStmt) -> Result<Dtype, Error> {
    match stmt.inner {
        VarDeclStmtInner::Decl(d) => Ok(spec_decl_dtype(*d)),
        VarDeclStmtInner::Def(d) => spec_def_dtype(*d),
    }
}

/// Converts a written type to its IR data type.
pub fn dtype_of(ts: &TypeSpecifier) -> (d: Dtype)
    ensures
        d == spec_dtype_of(*ts),
    decreases ts,
{
    match &ts.inner {
        TypeSpecifierInner::BuiltIn(BuiltIn::Int) => Dtype::I32,
        TypeSpecifierInner::BuiltIn(BuiltIn::Float) => Dtype::F32,
        TypeSpecifierInner::Composite(name) => Dtype::Struct { struct_name: name.clone() },
        TypeSpecifierInner::Reference(inner) => Dtype::ptr_to(
            Dtype::Array { element: Box::new(dtype_of(inner)), length: None },
        ),
        TypeSpecifierInner::Array(inner, len) => Dtype::array_of(dtype_of(inner), *len as usize),
    }
}

/// Converts an optional AST type specifier into the corresponding base IR
/// data type: the converted specifier when one is present, `Dtype::I32`
/// when absent.
///
/// This is used for global variables and function parameters, where an
/// absent type annotation defaults to `i32`.
pub fn base_dtype(type_specifier: Option<&TypeSpecifier>) -> (d: Dtype)
    ensures
        d == match type_specifier {
            Some(ts) => spec_dtype_of(*ts),
            None => Dtype::I32,
        },
{
    match type_specifier {
        Some(ts) => dtype_of(ts),
        None => Dtype::I32,
    }
}

/// Combines a scalar element type with an AST declaration shape (scalar vs.
/// array) to produce the storage `Dtype` for that declaration.
pub fn compose_var_decl_dtype(base: Dtype, inner: &VarDeclInner) -> (d: Dtype)
    ensures
        d == spec_var_decl_dtype(base, *inner),
{
    match inner {
        VarDeclInner::Scalar => base,
        VarDeclInner::Array(arr) => Dtype::array_of(base, arr.len),
    }
}

/// Analogue of `compose_var_decl_dtype` for `VarDef`s.
pub fn compose_var_def_dtype(base: Dtype, inner: &VarDefInner) -> (d: Dtype)
    ensures
        d == spec_var_def_dtype(base, *inner),
{
    match inner {
        VarDefInner::Scalar(_) => base,
        VarDefInner::Array(arr) => Dtype::array_of(base, arr.len),
    }
}

impl From<TypeSpecifier> for Dtype {
    fn from(a: TypeSpecifier) -> (d: Self) {
        dtype_of(&a)
    }
}

impl FromSpecImpl<TypeSpecifier> for Dtype {
    open spec fn obeys_from_spec() -> bool {
        true
    }

    open spec fn from_spec(v: TypeSpecifier) -> Dtype {
        spec_dtype_of(v)
    }
}

impl<'a> From<&'a TypeSpecifier> for Dtype {
    fn from(a: &'a TypeSpecifier) -> (d: Self) {
        dtype_of(a)
    }
}

impl<'a> FromSpecImpl<&'a TypeSpecifier> for Dtype {
    open spec fn obeys_from_spec() -> bool {
        true
    }

    open spec fn from_spec(v: &'a TypeSpecifier) -> Dtype {
        spec_dtype_of(*v)
    }
}

impl<'a> TryFrom<&'a VarDecl> for Dtype {
    type Error = Error;

    fn try_from(decl: &'a VarDecl) -> (res: Result<Self, Self::Error>) {
        let base = base_dtype(decl.type_specifier.as_ref());
        Ok(compose_var_decl_dtype(base, &decl.inner))
    }
}

impl<'a> TryFromSpecImpl<&'a VarDecl> for Dtype {
    open spec fn obeys_try_from_spec() -> bool {
        true
    }

    open spec fn try_from_spec(v: &'a VarDecl) -> Result<Dtype, Error> {
        Ok(spec_decl_dtype(*v))
    }
}

impl<'a> TryFrom<&'a VarDef> for Dtype {
    type Error = Error;

    fn try_from(def: &'a VarDef) -> (res: Result<Self, Self::Error>) {
        let base = base_dtype(def.type_specifier.as_ref());
        if let Dtype::Struct { .. } = &base {
            return Err(Error::StructInitialization);
        }
        Ok(compose_var_def_dtype(base, &def.inner))
    }
}

impl<'a> TryFromSpecImpl<&'a VarDef> for Dtype {
    open spec fn obeys_try_from_spec() -> bool {
        true
    }

    open spec fn try_from_spec(v: &'a VarDef) -> Result<Dtype, Error> {
        spec_def_dtype(*v)
    }
}

impl<'a> TryFrom<&'a VarDeclStmt> for Dtype {
    type Error = Error;

    fn try_from(value: &'a VarDeclStmt) -> (res: Result<Self, Self::Error>) {
        match &value.inner {
            VarDeclStmtInner::Decl(d) => Dtype::try_from(&**d),
            VarDeclStmtInner::Def(d) => Dtype::try_from(&**d),
        }
    }
}

impl<'a> TryFromSpecImpl<&'a VarDeclStmt> for Dtype {
    open spec fn obeys_try_from_spec() -> bool {
        true
    }

    open spec fn try_from_spec(v: &'a VarDeclStmt) -> Result<Dtype, Error> {
        spec_decl_stmt_dtype(*v)
    }
}

/// Written types map to IR types shape for shape: `int` to `i32`, `float`
/// to `f32`, a struct name to that struct, a reference `&[T]` to a pointer to
/// an array of unknown length of the type of `T`, and `[T; n]` to an array
/// of `n` elements of the type of `T`.
pub proof fn lemma_dtype_of_shapes(ts: TypeSpecifier)
    ensures
        ts.inner == TypeSpecifierInner::BuiltIn(BuiltIn::Int) ==> spec_dtype_of(ts) == Dtype::I32,
        ts.inner == TypeSpecifierInner::BuiltIn(BuiltIn::Float) ==> spec_dtype_of(ts) == Dtype::F32,
        ts.inner matches TypeSpecifierInner::Composite(name) ==> spec_dtype_of(ts) == (Dtype::Struct {
            struct_name: name,
        }),
        ts.inner matches TypeSpecifierInner::Reference(t) ==> spec_dtype_of(ts) matches Dtype::Pointer {
            pointee,
        } && *pointee matches Dtype::Array { element, length } && length is None && *element
            == spec_dtype_of(*t),
        ts.inner matches TypeSpecifierInner::Array(t, n) ==> spec_dtype_of(ts) matches Dtype::Array {
            element,
            length,
        } && length == Some(n as usize) && *element == spec_dtype_of(*t),
{
}

/// A declaration always has a type: its written base type (`i32` when none
/// is written), wrapped in an array of the declared length for an array.  A
/// definition has the same type, except that a variable of struct type
/// cannot be initialized.
pub proof fn lemma_declaration_types(decl: VarDecl, def: VarDef)
    ensures
        decl.inner is Scalar ==> spec_decl_dtype(decl) == spec_base_dtype(decl.type_specifier),
        decl.inner matches VarDeclInner::Array(arr) ==> spec_decl_dtype(decl) == (Dtype::Array {
            element: Box::new(spec_base_dtype(decl.type_specifier)),
            length: Some(arr.len),
        }),
        decl.type_specifier is None ==> spec_base_dtype(decl.type_specifier) == Dtype::I32,
        spec_def_dtype(def) is Err <==> spec_base_dtype(def.type_specifier) is Struct,
        spec_def_dtype(def) is Err ==> spec_def_dtype(def) == Err::<Dtype, Error>(
            Error::StructInitialization,
        ),
        def.inner is Scalar && !(spec_base_dtype(def.type_specifier) is Struct) ==> spec_def_dtype(def)
            == Ok::<Dtype, Error>(spec_base_dtype(def.type_specifier)),
        def.inner matches VarDefInner::Array(arr) ==> (!(spec_base_dtype(def.type_specifier) is Struct)
            ==> spec_def_dtype(def) == Ok::<Dtype, Error>(
            Dtype::Array { element: Box::new(spec_base_dtype(def.type_specifier)), length: Some(arr.len) },
        )),
{
}

} // verus!
