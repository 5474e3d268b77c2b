use teac::ast::{
    ArithBiOp, ArithBiOpExpr, ArithExpr, ArithExprInner, BoolBiOp, BoolBiOpExpr, BoolExpr,
    BoolExprInner, BoolUOp, BoolUOpExpr, BoolUnit, BoolUnitInner, BuiltIn, CastExpr,
    CastExprInner, CastOpExpr, ComExpr, ComOp, ExprUnit, ExprUnitInner, FnCall, RightVal,
    RightValInner, TypeSpecifier, TypeSpecifierInner,
};
use teac::ir::{Error, IrGenerator};

fn unit(n: i32) -> ExprUnit {
    ExprUnit { inner: ExprUnitInner::Num(n) }
}

fn id_unit(name: &str) -> ExprUnit {
    ExprUnit { inner: ExprUnitInner::Id(name.to_string()) }
}

fn from_unit(u: ExprUnit) -> ArithExpr {
    ArithExpr {
        inner: ArithExprInner::CastExpr(Box::new(CastExpr {
            inner: CastExprInner::ExprUnit(Box::new(u)),
        })),
    }
}

fn num(n: i32) -> ArithExpr {
    from_unit(unit(n))
}

fn bin(op: ArithBiOp, left: ArithExpr, right: ArithExpr) -> ArithExpr {
    ArithExpr {
        inner: ArithExprInner::ArithBiOpExpr(Box::new(ArithBiOpExpr {
            op,
            left: Box::new(left),
            right: Box::new(right),
        })),
    }
}

fn cast(u: ExprUnit, target: Option<BuiltIn>) -> ArithExpr {
    ArithExpr {
        inner: ArithExprInner::CastExpr(Box::new(CastExpr {
            inner: CastExprInner::CastOpExpr(Box::new(CastOpExpr {
                expr: Box::new(u),
                type_specifier: target.map(|b| TypeSpecifier { inner: TypeSpecifierInner::BuiltIn(b) }),
            })),
        })),
    }
}

fn com(op: ComOp, l: ExprUnit, r: ExprUnit) -> BoolUnit {
    BoolUnit {
        inner: BoolUnitInner::ComExpr(Box::new(ComExpr { op, left: Box::new(l), right: Box::new(r) })),
    }
}

fn bexpr(u: BoolUnit) -> BoolExpr {
    BoolExpr { inner: BoolExprInner::BoolUnit(Box::new(u)) }
}

fn bbin(op: BoolBiOp, l: BoolExpr, r: BoolExpr) -> BoolExpr {
    BoolExpr {
        inner: BoolExprInner::BoolBiOpExpr(Box::new(BoolBiOpExpr {
            op,
            left: Box::new(l),
            right: Box::new(r),
        })),
    }
}

fn not(u: BoolUnit) -> BoolUnit {
    BoolUnit {
        inner: BoolUnitInner::BoolUOpExpr(Box::new(BoolUOpExpr { op: BoolUOp::Not, cond: Box::new(u) })),
    }
}

#[test]
fn arith_add_sub_mul_div() {
    let e = bin(ArithBiOp::Add, num(2), num(3));
    assert_eq!(IrGenerator::handle_arith_expr_static(&e), Ok(5));
    let e = bin(ArithBiOp::Sub, num(7), num(10));
    assert_eq!(IrGenerator::handle_arith_expr_static(&e), Ok(-3));
    let e = bin(ArithBiOp::Mul, num(6), num(7));
    assert_eq!(IrGenerator::handle_arith_expr_static(&e), Ok(42));
    let e = bin(ArithBiOp::Div, num(7), num(2));
    assert_eq!(IrGenerator::handle_arith_expr_static(&e), Ok(3));
}

#[test]
fn arith_division_truncates_toward_zero() {
    let e = bin(ArithBiOp::Div, num(-7), num(2));
    assert_eq!(IrGenerator::handle_arith_expr_static(&e), Ok(-3));
    let e = bin(ArithBiOp::Div, num(7), num(-2));
    assert_eq!(IrGenerator::handle_arith_expr_static(&e), Ok(-3));
    let e = bin(ArithBiOp::Div, num(-7), num(-2));
    assert_eq!(IrGenerator::handle_arith_expr_static(&e), Ok(3));
}

#[test]
fn arith_nested_is_exact() {
    // (1 + 2) * (10 - 4) / 3 == 6
    let e = bin(
        ArithBiOp::Div,
        bin(ArithBiOp::Mul, bin(ArithBiOp::Add, num(1), num(2)), bin(ArithBiOp::Sub, num(10), num(4))),
        num(3),
    );
    assert_eq!(IrGenerator::handle_arith_expr_static(&e), Ok(6));
}

#[test]
fn arith_parenthesised_unit() {
    let inner = bin(ArithBiOp::Add, num(20), num(22));
    let u = ExprUnit { inner: ExprUnitInner::ArithExpr(Box::new(inner)) };
    assert_eq!(IrGenerator::handle_expr_unit_static(&u), Ok(42));
}

#[test]
fn arith_overflow_is_refused() {
    let e = bin(ArithBiOp::Add, num(i32::MAX), num(1));
    assert_eq!(IrGenerator::handle_arith_expr_static(&e), Err(Error::IntegerOverflow));
    let e = bin(ArithBiOp::Sub, num(i32::MIN), num(1));
    assert_eq!(IrGenerator::handle_arith_expr_static(&e), Err(Error::IntegerOverflow));
    let e = bin(ArithBiOp::Mul, num(65536), num(65536));
    assert_eq!(IrGenerator::handle_arith_expr_static(&e), Err(Error::IntegerOverflow));
    let e = bin(ArithBiOp::Add, num(i32::MAX), num(0));
    assert_eq!(IrGenerator::handle_arith_expr_static(&e), Ok(i32::MAX));
}

#[test]
fn arith_division_by_zero() {
    let e = bin(ArithBiOp::Div, num(5), num(0));
    assert_eq!(IrGenerator::handle_arith_expr_static(&e), Err(Error::DivisionByZero));
    let e = bin(ArithBiOp::Div, num(i32::MIN), num(-1));
    assert_eq!(IrGenerator::handle_arith_expr_static(&e), Err(Error::DivisionByZero));
}

#[test]
fn first_error_wins() {
    // Left side overflows, right side divides by zero: the left error is returned.
    let e = bin(
        ArithBiOp::Add,
        bin(ArithBiOp::Mul, num(i32::MAX), num(2)),
        bin(ArithBiOp::Div, num(1), num(0)),
    );
    assert_eq!(IrGenerator::handle_arith_expr_static(&e), Err(Error::IntegerOverflow));
}

#[test]
fn cast_to_int_and_other_types() {
    assert_eq!(IrGenerator::handle_arith_expr_static(&cast(unit(9), Some(BuiltIn::Int))), Ok(9));
    assert_eq!(
        IrGenerator::handle_arith_expr_static(&cast(unit(9), Some(BuiltIn::Float))),
        Err(Error::InvalidCast)
    );
    let c = CastOpExpr {
        expr: Box::new(unit(4)),
        type_specifier: Some(TypeSpecifier { inner: TypeSpecifierInner::Composite("S".to_string()) }),
    };
    assert_eq!(IrGenerator::handle_cast_op_expr_static(&c), Err(Error::InvalidCast));
    let c = CastExpr { inner: CastExprInner::ExprUnit(Box::new(unit(11))) };
    assert_eq!(IrGenerator::handle_cast_expr_static(&c), Ok(11));
}

#[test]
fn cast_operand_error_comes_first() {
    // The operand is evaluated before the target type is looked at.
    let e = cast(id_unit("x"), Some(BuiltIn::Float));
    assert_eq!(
        IrGenerator::handle_arith_expr_static(&e),
        Err(Error::InvalidExprUnit { expr_unit: id_unit("x") })
    );
}

#[test]
fn non_constant_units_are_refused_with_a_copy() {
    let u = id_unit("a");
    assert_eq!(
        IrGenerator::handle_expr_unit_static(&u),
        Err(Error::InvalidExprUnit { expr_unit: id_unit("a") })
    );
    let call = ExprUnit {
        inner: ExprUnitInner::FnCall(Box::new(FnCall {
            module_prefix: Some("m".to_string()),
            name: "f".to_string(),
            vals: vec![RightVal { inner: RightValInner::ArithExpr(Box::new(num(1))) }],
        })),
    };
    let expected = ExprUnit {
        inner: ExprUnitInner::FnCall(Box::new(FnCall {
            module_prefix: Some("m".to_string()),
            name: "f".to_string(),
            vals: vec![RightVal { inner: RightValInner::ArithExpr(Box::new(num(1))) }],
        })),
    };
    assert_eq!(
        IrGenerator::handle_expr_unit_static(&call),
        Err(Error::InvalidExprUnit { expr_unit: expected })
    );
    let r = ExprUnit { inner: ExprUnitInner::Reference("arr".to_string()) };
    assert!(matches!(
        IrGenerator::handle_expr_unit_static(&r),
        Err(Error::InvalidExprUnit { .. })
    ));
    let fl = ExprUnit { inner: ExprUnitInner::Float("1.5".to_string()) };
    assert!(matches!(
        IrGenerator::handle_expr_unit_static(&fl),
        Err(Error::InvalidExprUnit { .. })
    ));
}

#[test]
fn comparisons_give_truth_values() {
    let cases = [
        (ComOp::Lt, 1, 2, 1),
        (ComOp::Lt, 2, 2, 0),
        (ComOp::Eq, 3, 3, 1),
        (ComOp::Eq, 3, 4, 0),
        (ComOp::Ge, 2, 2, 1),
        (ComOp::Ge, 1, 2, 0),
        (ComOp::Gt, 3, 2, 1),
        (ComOp::Gt, 2, 2, 0),
        (ComOp::Le, 2, 2, 1),
        (ComOp::Le, 3, 2, 0),
        (ComOp::Ne, 3, 2, 1),
        (ComOp::Ne, 2, 2, 0),
    ];
    for (op, l, r, expected) in cases {
        let c = ComExpr { op, left: Box::new(unit(l)), right: Box::new(unit(r)) };
        assert_eq!(IrGenerator::handle_com_op_expr_static(&c), Ok(expected));
    }
}

#[test]
fn boolean_connectives_and_negation() {
    let t = || bexpr(com(ComOp::Lt, unit(1), unit(2)));
    let f = || bexpr(com(ComOp::Gt, unit(1), unit(2)));
    assert_eq!(IrGenerator::handle_bool_expr_static(&bbin(BoolBiOp::And, t(), t())), Ok(1));
    assert_eq!(IrGenerator::handle_bool_expr_static(&bbin(BoolBiOp::And, t(), f())), Ok(0));
    assert_eq!(IrGenerator::handle_bool_expr_static(&bbin(BoolBiOp::Or, f(), t())), Ok(1));
    assert_eq!(IrGenerator::handle_bool_expr_static(&bbin(BoolBiOp::Or, f(), f())), Ok(0));
    let n = not(com(ComOp::Eq, unit(1), unit(1)));
    assert_eq!(IrGenerator::handle_bool_unit_static(&n), Ok(0));
    let nn = BoolUOpExpr { op: BoolUOp::Not, cond: Box::new(not(com(ComOp::Eq, unit(1), unit(1)))) };
    assert_eq!(IrGenerator::handle_bool_uop_expr_static(&nn), Ok(1));
    let paren = BoolUnit { inner: BoolUnitInner::BoolExpr(Box::new(t())) };
    assert_eq!(IrGenerator::handle_bool_unit_static(&paren), Ok(1));
}

#[test]
fn boolean_connectives_do_not_short_circuit() {
    // `false && (x < 1)`: the right side is still evaluated and its error returned.
    let f = bexpr(com(ComOp::Gt, unit(1), unit(2)));
    let bad = bexpr(com(ComOp::Lt, id_unit("x"), unit(1)));
    let e = BoolBiOpExpr { op: BoolBiOp::And, left: Box::new(f), right: Box::new(bad) };
    assert_eq!(
        IrGenerator::handle_bool_biop_expr_static(&e),
        Err(Error::InvalidExprUnit { expr_unit: id_unit("x") })
    );
}

#[test]
fn right_values() {
    let a = RightVal { inner: RightValInner::ArithExpr(Box::new(bin(ArithBiOp::Mul, num(-4), num(5)))) };
    assert_eq!(IrGenerator::handle_right_val_static(&a), Ok(-20));
    let b = RightVal {
        inner: RightValInner::BoolExpr(Box::new(bexpr(com(ComOp::Ne, unit(-4), unit(5))))),
    };
    assert_eq!(IrGenerator::handle_right_val_static(&b), Ok(1));
}

#[test]
fn biop_entry_point() {
    let b = ArithBiOpExpr { op: ArithBiOp::Sub, left: Box::new(num(1)), right: Box::new(num(i32::MIN)) };
    assert_eq!(IrGenerator::handle_arith_biop_expr_static(&b), Err(Error::IntegerOverflow));
    let b = ArithBiOpExpr { op: ArithBiOp::Sub, left: Box::new(num(-1)), right: Box::new(num(i32::MIN)) };
    assert_eq!(IrGenerator::handle_arith_biop_expr_static(&b), Ok(i32::MAX));
}
