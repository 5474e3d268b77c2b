use teac::ast::{
    ArithExpr, ArithExprInner, ArrayInitializer, BuiltIn, CastExpr,
    CastExprInner, ExprUnit, ExprUnitInner, RightVal, RightValInner, TypeSpecifier,
    TypeSpecifierInner, VarDecl, VarDeclArray, VarDeclInner, VarDeclStmt, VarDeclStmtInner, VarDef,
    VarDefArray, VarDefInner, VarDefScalar,
};
use teac::ir::gen::conversions::{base_dtype, compose_var_decl_dtype, compose_var_def_dtype};
use teac::ir::{Dtype, Error};

fn ts(inner: TypeSpecifierInner) -> TypeSpecifier {
    TypeSpecifier { inner }
}

fn int_ty() -> TypeSpecifier {
    ts(TypeSpecifierInner::BuiltIn(BuiltIn::Int))
}

fn rv(n: i32) -> RightVal {
    RightVal {
        inner: RightValInner::ArithExpr(Box::new(ArithExpr {
            inner: ArithExprInner::CastExpr(Box::new(CastExpr {
                inner: CastExprInner::ExprUnit(Box::new(ExprUnit { inner: ExprUnitInner::Num(n) })),
            })),
        })),
    }
}

#[test]
fn type_specifiers_to_dtypes() {
    assert_eq!(Dtype::from(&int_ty()), Dtype::I32);
    assert_eq!(Dtype::from(ts(TypeSpecifierInner::BuiltIn(BuiltIn::Float))), Dtype::F32);
    assert_eq!(
        Dtype::from(&ts(TypeSpecifierInner::Composite("Point".to_string()))),
        Dtype::Struct { struct_name: "Point".to_string() }
    );
    // `&[int]` is a pointer to an int array of unknown length.
    assert_eq!(
        Dtype::from(&ts(TypeSpecifierInner::Reference(Box::new(int_ty())))),
        Dtype::Pointer {
            pointee: Box::new(Dtype::Array { element: Box::new(Dtype::I32), length: None })
        }
    );
    // `[[int; 4]; 3]` is an array of 3 arrays of 4 ints.
    let nested = ts(TypeSpecifierInner::Array(
        Box::new(ts(TypeSpecifierInner::Array(Box::new(int_ty()), 4))),
        3,
    ));
    assert_eq!(
        Dtype::from(&nested),
        Dtype::Array {
            element: Box::new(Dtype::Array { element: Box::new(Dtype::I32), length: Some(4) }),
            length: Some(3),
        }
    );
}

#[test]
fn base_type_defaults_to_i32() {
    assert_eq!(base_dtype(None), Dtype::I32);
    let f = ts(TypeSpecifierInner::BuiltIn(BuiltIn::Float));
    assert_eq!(base_dtype(Some(&f)), Dtype::F32);
}

#[test]
fn composing_declaration_shapes() {
    assert_eq!(compose_var_decl_dtype(Dtype::I32, &VarDeclInner::Scalar), Dtype::I32);
    assert_eq!(
        compose_var_decl_dtype(Dtype::F32, &VarDeclInner::Array(Box::new(VarDeclArray { len: 8 }))),
        Dtype::Array { element: Box::new(Dtype::F32), length: Some(8) }
    );
    let scalar = VarDefInner::Scalar(Box::new(VarDefScalar { val: Box::new(rv(1)) }));
    assert_eq!(compose_var_def_dtype(Dtype::I32, &scalar), Dtype::I32);
    let arr = VarDefInner::Array(Box::new(VarDefArray {
        len: 2,
        initializer: ArrayInitializer::ExplicitList(vec![rv(1), rv(2)]),
    }));
    assert_eq!(
        compose_var_def_dtype(Dtype::I32, &arr),
        Dtype::Array { element: Box::new(Dtype::I32), length: Some(2) }
    );
}

#[test]
fn declarations_and_definitions() {
    let decl = VarDecl {
        identifier: "a".to_string(),
        type_specifier: None,
        inner: VarDeclInner::Array(Box::new(VarDeclArray { len: 5 })),
    };
    assert_eq!(
        Dtype::try_from(&decl),
        Ok(Dtype::Array { element: Box::new(Dtype::I32), length: Some(5) })
    );
    let struct_decl = VarDecl {
        identifier: "p".to_string(),
        type_specifier: Some(ts(TypeSpecifierInner::Composite("P".to_string()))),
        inner: VarDeclInner::Scalar,
    };
    assert_eq!(Dtype::try_from(&struct_decl), Ok(Dtype::Struct { struct_name: "P".to_string() }));

    let def = VarDef {
        identifier: "x".to_string(),
        type_specifier: Some(int_ty()),
        inner: VarDefInner::Scalar(Box::new(VarDefScalar { val: Box::new(rv(3)) })),
    };
    assert_eq!(Dtype::try_from(&def), Ok(Dtype::I32));

    let struct_def = VarDef {
        identifier: "p".to_string(),
        type_specifier: Some(ts(TypeSpecifierInner::Composite("P".to_string()))),
        inner: VarDefInner::Scalar(Box::new(VarDefScalar { val: Box::new(rv(3)) })),
    };
    assert_eq!(Dtype::try_from(&struct_def), Err(Error::StructInitialization));

    let stmt = VarDeclStmt { inner: VarDeclStmtInner::Def(Box::new(struct_def)) };
    assert_eq!(Dtype::try_from(&stmt), Err(Error::StructInitialization));
    let stmt = VarDeclStmt { inner: VarDeclStmtInner::Decl(Box::new(decl)) };
    assert_eq!(
        Dtype::try_from(&stmt),
        Ok(Dtype::Array { element: Box::new(Dtype::I32), length: Some(5) })
    );
    let fill = VarDef {
        identifier: "z".to_string(),
        type_specifier: None,
        inner: VarDefInner::Array(Box::new(VarDefArray {
            len: 4,
            initializer: ArrayInitializer::Fill { val: Box::new(rv(0)), count: 4 },
        })),
    };
    assert_eq!(
        Dtype::try_from(&fill),
        Ok(Dtype::Array { element: Box::new(Dtype::I32), length: Some(4) })
    );
}

#[test]
fn dtype_helpers() {
    assert_eq!(Dtype::ptr_to(Dtype::I1), Dtype::Pointer { pointee: Box::new(Dtype::I1) });
    assert_eq!(
        Dtype::array_of(Dtype::I32, 10),
        Dtype::Array { element: Box::new(Dtype::I32), length: Some(10) }
    );
    let d = Dtype::Pointer { pointee: Box::new(Dtype::Struct { struct_name: "T".to_string() }) };
    assert_eq!(d.copy(), d);
}
