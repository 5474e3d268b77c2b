//! Compile-time evaluation of constant expressions.
//!
//! Booleans evaluate to `1` (true) and `0` (false); arithmetic is checked
//! `i32` arithmetic.  Both operands of a binary operator are evaluated, left
//! first, and the first error met is the result.
use vstd::prelude::*;

use crate::ast::copies::{copy_expr_unit, unit_equiv};
use crate::ast::{
    ArithBiOp, ArithBiOpExpr, ArithExpr, ArithExprInner, BoolBiOp, BoolBiOpExpr, BoolExpr,
    BoolExprInner, BoolUOp, BoolUOpExpr, BoolUnit, BoolUnitInner, BuiltIn, CastExpr,
    CastExprInner, CastOpExpr, ComExpr, ComOp, ExprUnit, ExprUnitInner, RightVal, RightValInner,
    TypeSpecifier, TypeSpecifierInner,
};
use crate::ir::{Error, IrGenerator};

verus! {

/// The outcome of evaluating an expression: `None` where evaluation reaches a
/// cast that carries no target type (a malformed tree, on which evaluation
/// stops), otherwise the value or the first error.
pub type Outcome = Option<Result<i32, Error>>;

/// The value of a boolean as an integer.
pub open spec fn bool_value(b: bool) -> i32 {
    if b {
        1
    } else {
        0
    }
}

/// `checked` as a result, with `err` for `None`.
pub open spec fn checked_or(checked: Option<i32>, err: Error) -> Result<i32, Error> {
    match checked {
        Some(v) => Ok(v),
        None => Err(err),
    }
}

/// The result of applying an arithmetic operator to two values.
pub open spec fn arith_op_result(op: ArithBiOp, l: i32, r: i32) -> Result<i32, Error> {
    match op {
        ArithBiOp::Add => checked_or(l.checked_add(r), Error::IntegerOverflow),
        ArithBiOp::Sub => checked_or(l.checked_sub(r), Error::IntegerOverflow),
        ArithBiOp::Mul => checked_or(l.checked_mul(r), Error::IntegerOverflow),
        ArithBiOp::Div => checked_or(l.checked_div(r), Error::DivisionByZero),
    }
}

/// The result of a comparison.
pub open spec fn com_op_holds(op: ComOp, l: i32, r: i32) -> bool {
    match op {
        ComOp::Lt => l < r,
        ComOp::Eq => l == r,
        ComOp::Ge => l >= r,
        ComOp::Gt => l > r,
        ComOp::Le => l <= r,
        ComOp::Ne => l != r,
    }
}

/// The result of a boolean connective on two truth values.
pub open spec fn bool_op_holds(op: BoolBiOp, l: bool, r: bool) -> bool {
    match op {
        BoolBiOp::And => l && r,
        BoolBiOp::Or => l || r,
    }
}

/// Value of a right value.
pub open spec fn eval_right_val(r: RightVal) -> Outcome
    decreases r, 0nat,
{
    match r.inner {
        RightValInner::ArithExpr(e) => eval_arith(*e),
        RightValInner::BoolExpr(e) => eval_bool(*e),
    }
}

/// Value of a (possibly cast) unit.
pub open spec fn eval_cast(c: CastExpr) -> Outcome
    decreases c, 0nat,
{
    match c.inner {
        CastExprInner::CastOpExpr(op) => eval_cast_op(*op),
        CastExprInner::ExprUnit(u) => eval_unit(*u),
    }
}

/// Value of an arithmetic expression.
pub open spec fn eval_arith(e: ArithExpr) -> Outcome
    decreases e, 0nat,
{
    match e.inner {
        ArithExprInner::ArithBiOpExpr(b) => eval_arith_biop(*b),
        ArithExprInner::CastExpr(c) => eval_cast(*c),
    }
}

/// Value of a boolean expression.
pub open spec fn eval_bool(e: BoolExpr) -> Outcome
    decreases e, 0nat,
{
    match e.inner {
        BoolExprInner::BoolBiOpExpr(b) => eval_bool_biop(*b),
        BoolExprInner::BoolUnit(u) => eval_bool_unit(*u),
    }
}

/// Value of a cast: the operand first, then the target, which must be `int`.
pub open spec fn eval_cast_op(c: CastOpExpr) -> Outcome
    decreases c, 0nat,
{
    match eval_unit(*c.expr) {
        Some(Ok(v)) => match c.type_specifier {
            Some(ts) => if ts.inner == TypeSpecifierInner::BuiltIn(BuiltIn::Int) {
                Some(Ok(v))
            } else {
                Some(Err(Error::InvalidCast))
            },
            None => None,
        },
        other => other,
    }
}

/// Value of a binary arithmetic operation.
pub open spec fn eval_arith_biop(b: ArithBiOpExpr) -> Outcome
    decreases b, 0nat,
{
    match eval_arith(*b.left) {
        Some(Ok(l)) => match eval_arith(*b.right) {
            Some(Ok(r)) => Some(arith_op_result(b.op, l, r)),
            other => other,
        },
        other => other,
    }
}

/// Value of a unit: a literal, or a parenthesised arithmetic expression.
pub open spec fn eval_unit(u: ExprUnit) -> Outcome
    decreases u, 0nat,
{
    match u.inner {
        ExprUnitInner::Num(n) => Some(Ok(n)),
        ExprUnitInner::ArithExpr(e) => eval_arith(*e),
        _ => Some(Err(Error::InvalidExprUnit { expr_unit: u })),
    }
}

/// Value of a binary boolean operation; both sides are evaluated.
pub open spec fn eval_bool_biop(b: BoolBiOpExpr) -> Outcome
    decreases b, 0nat,
{
    match eval_bool(*b.left) {
        Some(Ok(l)) => match eval_bool(*b.right) {
            Some(Ok(r)) => Some(Ok(bool_value(bool_op_holds(b.op, l != 0, r != 0)))),
            other => other,
        },
        other => other,
    }
}

/// Value of a boolean unit.
pub open spec fn eval_bool_unit(u: BoolUnit) -> Outcome
    decreases u, 0nat,
{
    match u.inner {
        BoolUnitInner::ComExpr(c) => eval_com(*c),
        BoolUnitInner::BoolExpr(e) => eval_bool(*e),
        BoolUnitInner::BoolUOpExpr(n) => eval_bool_uop(*n),
    }
}

/// Value of a comparison.
pub open spec fn eval_com(c: ComExpr) -> Outcome
    decreases c, 0nat,
{
    match eval_unit(*c.left) {
        Some(Ok(l)) => match eval_unit(*c.right) {
            Some(Ok(r)) => Some(Ok(bool_value(com_op_holds(c.op, l, r)))),
            other => other,
        },
        other => other,
    }
}

/// Value of a negation.
pub open spec fn eval_bool_uop(n: BoolUOpExpr) -> Outcome
    decreases n, 0nat,
{
    match eval_bool_unit(*n.cond) {
        Some(Ok(v)) => match n.op {
            BoolUOp::Not => Some(Ok(bool_value(v == 0))),
        },
        other => other,
    }
}

/// An error returned by evaluation agrees with the expected one; a unit carried
/// by the error is a copy of the expected unit.
pub open spec fn error_equiv(got: Error, expected: Error) -> bool {
    match expected {
        Error::InvalidExprUnit { expr_unit } => got matches Error::InvalidExprUnit { expr_unit: u }
            && unit_equiv(expr_unit, u),
        _ => got == expected,
    }
}

/// `res` is what `outcome` describes.
pub open spec fn matches_outcome(res: Result<i32, Error>, outcome: Outcome) -> bool {
    match outcome {
        Some(Ok(v)) => res == Ok::<i32, Error>(v),
        Some(Err(e)) => res matches Err(got) && error_equiv(got, e),
        None => false,
    }
}

/// Integer division truncating toward zero.
pub open spec fn trunc_div(x: int, d: int) -> int {
    let q = if x >= 0 { x } else { -x } / if d >= 0 { d } else { -d };
    if (x >= 0) == (d > 0) || x == 0 {
        q
    } else {
        -q
    }
}

/// The exact value over the integers of an arithmetic expression made of
/// literals, with division truncating toward zero (units that are not
/// literals count as zero; evaluation refuses them anyway).
pub open spec fn exact_arith(e: ArithExpr) -> int
    decreases e, 0nat,
{
    match e.inner {
        ArithExprInner::ArithBiOpExpr(b) => {
            let l = exact_arith(*b.left);
            let r = exact_arith(*b.right);
            match b.op {
                ArithBiOp::Add => l + r,
                ArithBiOp::Sub => l - r,
                ArithBiOp::Mul => l * r,
                ArithBiOp::Div => trunc_div(l, r),
            }
        },
        ArithExprInner::CastExpr(c) => exact_cast(*c),
    }
}

/// The exact value of a (possibly cast) unit.
pub open spec fn exact_cast(c: CastExpr) -> int
    decreases c, 0nat,
{
    match c.inner {
        CastExprInner::CastOpExpr(op) => exact_unit(*op.expr),
        CastExprInner::ExprUnit(u) => exact_unit(*u),
    }
}

/// The exact value of a unit.
pub open spec fn exact_unit(u: ExprUnit) -> int
    decreases u, 0nat,
{
    match u.inner {
        ExprUnitInner::Num(n) => n as int,
        ExprUnitInner::ArithExpr(e) => exact_arith(*e),
        _ => 0,
    }
}

/// Static evaluation never wraps around: whenever it succeeds, its value is
/// the exact integer value of the expression.
pub proof fn lemma_eval_arith_is_exact(e: ArithExpr)
    ensures
        eval_arith(e) matches Some(Ok(v)) ==> v == exact_arith(e),
    decreases e, 0nat,
{
    match e.inner {
        ArithExprInner::ArithBiOpExpr(b) => {
            lemma_eval_arith_is_exact(*b.left);
            lemma_eval_arith_is_exact(*b.right);
            if let (Some(Ok(l)), Some(Ok(r))) = (eval_arith(*b.left), eval_arith(*b.right)) {
                if b.op == ArithBiOp::Div && r != 0 {
                    let x = l as int;
                    let d = r as int;
                    if x < 0 && d < 0 {
                        assert((x * -1) / (d * -1) == (-x) / (-d));
                    } else if x < 0 && d > 0 {
                        assert(((x * -1) / d) * -1 == -((-x) / d));
                    } else if x > 0 && d < 0 {
                        assert((x / (d * -1)) * -1 == -(x / (-d)));
                    }
                }
            }
        },
        ArithExprInner::CastExpr(c) => lemma_eval_cast_is_exact(*c),
    }
}

/// Evaluation of a (possibly cast) unit never wraps around.
pub proof fn lemma_eval_cast_is_exact(c: CastExpr)
    ensures
        eval_cast(c) matches Some(Ok(v)) ==> v == exact_cast(c),
    decreases c, 0nat,
{
    match c.inner {
        CastExprInner::CastOpExpr(op) => lemma_eval_unit_is_exact(*op.expr),
        CastExprInner::ExprUnit(u) => lemma_eval_unit_is_exact(*u),
    }
}

/// Evaluation of a unit never wraps around.
pub proof fn lemma_eval_unit_is_exact(u: ExprUnit)
    ensures
        eval_unit(u) matches Some(Ok(v)) ==> v == exact_unit(u),
    decreases u, 0nat,
{
    if let ExprUnitInner::ArithExpr(e) = u.inner {
        lemma_eval_arith_is_exact(*e);
    }
}

/// A boolean expression evaluates to a truth value: `0` or `1`.
pub proof fn lemma_eval_bool_is_truth_value(e: BoolExpr)
    ensures
        eval_bool(e) matches Some(Ok(v)) ==> v == 0 || v == 1,
    decreases e, 0nat,
{
    if let BoolExprInner::BoolUnit(u) = e.inner {
        lemma_eval_bool_unit_is_truth_value(*u);
    }
}

/// A boolean unit evaluates to a truth value: `0` or `1`.
pub proof fn lemma_eval_bool_unit_is_truth_value(u: BoolUnit)
    ensures
        eval_bool_unit(u) matches Some(Ok(v)) ==> v == 0 || v == 1,
    decreases u, 0nat,
{
    if let BoolUnitInner::BoolExpr(e) = u.inner {
        lemma_eval_bool_is_truth_value(*e);
    }
}

/// Comparisons are of signed integers: when both operands evaluate, the
/// comparison evaluates to `1` when the relation holds between the operands'
/// integer values and to `0` when it does not.
pub proof fn lemma_comparison_is_signed(c: ComExpr, l: i32, r: i32)
    requires
        eval_unit(*c.left) == Some(Ok::<i32, Error>(l)),
        eval_unit(*c.right) == Some(Ok::<i32, Error>(r)),
    ensures
        eval_com(c) == Some(Ok::<i32, Error>(0)) || eval_com(c) == Some(Ok::<i32, Error>(1)),
        eval_com(c) == Some(Ok::<i32, Error>(1)) <==> match c.op {
            ComOp::Lt => (l as int) < (r as int),
            ComOp::Le => (l as int) <= (r as int),
            ComOp::Gt => (l as int) > (r as int),
            ComOp::Ge => (l as int) >= (r as int),
            ComOp::Eq => (l as int) == (r as int),
            ComOp::Ne => (l as int) != (r as int),
        },
{
}

/// The boolean connectives treat a nonzero value as true: when both sides
/// evaluate, `and` gives `1` exactly when both are nonzero, `or` exactly when
/// either is, and `0` otherwise.
pub proof fn lemma_connectives_on_truth(b: BoolBiOpExpr, l: i32, r: i32)
    requires
        eval_bool(*b.left) == Some(Ok::<i32, Error>(l)),
        eval_bool(*b.right) == Some(Ok::<i32, Error>(r)),
    ensures
        eval_bool_biop(b) == Some(Ok::<i32, Error>(0)) || eval_bool_biop(b) == Some(
            Ok::<i32, Error>(1),
        ),
        eval_bool_biop(b) == Some(Ok::<i32, Error>(1)) <==> match b.op {
            BoolBiOp::And => l != 0 && r != 0,
            BoolBiOp::Or => l != 0 || r != 0,
        },
{
}

/// Negation gives `1` exactly when its operand evaluates to `0`, and `0`
/// otherwise.
pub proof fn lemma_negation_on_truth(n: BoolUOpExpr, v: i32)
    requires
        eval_bool_unit(*n.cond) == Some(Ok::<i32, Error>(v)),
    ensures
        eval_bool_uop(n) == Some(Ok::<i32, Error>(if v == 0 { 1i32 } else { 0i32 })),
{
}

/// Arithmetic on two evaluated operands: the exact integer result when it
/// fits in an `i32`; otherwise `IntegerOverflow` for `+`, `-`, `*`, and
/// `DivisionByZero` for a division by zero or whose quotient does not fit.
pub proof fn lemma_arith_biop_on_values(b: ArithBiOpExpr, l: i32, r: i32)
    requires
        eval_arith(*b.left) == Some(Ok::<i32, Error>(l)),
        eval_arith(*b.right) == Some(Ok::<i32, Error>(r)),
    ensures
        ({
            let exact: int = match b.op {
                ArithBiOp::Add => l + r,
                ArithBiOp::Sub => l - r,
                ArithBiOp::Mul => l * r,
                ArithBiOp::Div => trunc_div(l as int, r as int),
            };
            let fits = i32::MIN <= exact <= i32::MAX;
            &&& (b.op == ArithBiOp::Div && r == 0) ==> eval_arith_biop(b) == Some(
                Err::<i32, Error>(Error::DivisionByZero),
            )
            &&& !(b.op == ArithBiOp::Div && r == 0) && fits ==> eval_arith_biop(b) == Some(
                Ok::<i32, Error>(exact as i32),
            )
            &&& !(b.op == ArithBiOp::Div && r == 0) && !fits ==> eval_arith_biop(b) == Some(
                Err::<i32, Error>(
                    if b.op == ArithBiOp::Div {
                        Error::DivisionByZero
                    } else {
                        Error::IntegerOverflow
                    },
                ),
            )
        }),
{
    if b.op == ArithBiOp::Div && r != 0 {
        let x = l as int;
        let d = r as int;
        if x < 0 && d < 0 {
            assert((x * -1) / (d * -1) == (-x) / (-d));
        } else if x < 0 && d > 0 {
            assert(((x * -1) / d) * -1 == -((-x) / d));
        } else if x > 0 && d < 0 {
            assert((x / (d * -1)) * -1 == -(x / (-d)));
        }
    }
}

/// The first error wins: an error of the left operand is the result whatever
/// the right operand is, and an error of the right operand is the result
/// when the left operand evaluates.
pub proof fn lemma_first_error_wins(b: ArithBiOpExpr, c: ComExpr, d: BoolBiOpExpr)
    ensures
        (eval_arith(*b.left) matches Some(Err(_))) ==> eval_arith_biop(b) == eval_arith(*b.left),
        (eval_arith(*b.left) matches Some(Ok(_))) && (eval_arith(*b.right) matches Some(Err(_)))
            ==> eval_arith_biop(b) == eval_arith(*b.right),
        (eval_unit(*c.left) matches Some(Err(_))) ==> eval_com(c) == eval_unit(*c.left),
        (eval_unit(*c.left) matches Some(Ok(_))) && (eval_unit(*c.right) matches Some(Err(_)))
            ==> eval_com(c) == eval_unit(*c.right),
        (eval_bool(*d.left) matches Some(Err(_))) ==> eval_bool_biop(d) == eval_bool(*d.left),
        (eval_bool(*d.left) matches Some(Ok(_))) && (eval_bool(*d.right) matches Some(Err(_)))
            ==> eval_bool_biop(d) == eval_bool(*d.right),
{
    if let Some(Ok(l)) = eval_arith(*b.left) {
        assert(eval_arith_biop(b) == match eval_arith(*b.right) {
            Some(Ok(r)) => Some(arith_op_result(b.op, l, r)),
            other => other,
        });
    }
    if let Some(Ok(l)) = eval_unit(*c.left) {
        assert(eval_com(c) == match eval_unit(*c.right) {
            Some(Ok(r)) => Some(Ok(bool_value(com_op_holds(c.op, l, r)))),
            other => other,
        });
    }
}

/// Units: a literal is its own value, a parenthesised expression has the
/// value of the expression, and any other unit is refused with itself as
/// the error.
pub proof fn lemma_unit_values(u: ExprUnit)
    ensures
        u.inner matches ExprUnitInner::Num(n) ==> eval_unit(u) == Some(Ok::<i32, Error>(n)),
        u.inner matches ExprUnitInner::ArithExpr(e) ==> eval_unit(u) == eval_arith(*e),
        !(u.inner is Num || u.inner is ArithExpr) ==> eval_unit(u) == Some(
            Err::<i32, Error>(Error::InvalidExprUnit { expr_unit: u }),
        ),
{
}

/// Casts: when the operand evaluates, a cast to `int` keeps its value and a
/// cast to any other written type is refused with `InvalidCast`.
pub proof fn lemma_cast_values(c: CastOpExpr, v: i32, ts: TypeSpecifier)
    requires
        eval_unit(*c.expr) == Some(Ok::<i32, Error>(v)),
        c.type_specifier == Some(ts),
    ensures
        ts.inner == TypeSpecifierInner::BuiltIn(BuiltIn::Int) ==> eval_cast_op(c) == Some(
            Ok::<i32, Error>(v),
        ),
        ts.inner != TypeSpecifierInner::BuiltIn(BuiltIn::Int) ==> eval_cast_op(c) == Some(
            Err::<i32, Error>(Error::InvalidCast),
        ),
{
}

/// Wrappers add nothing: a right value has the value of its expression, a
/// boolean expression made of one unit the value of that unit, a
/// parenthesised boolean unit the value of its expression, and an uncast
/// unit its own value.
pub proof fn lemma_wrappers_keep_values(r: RightVal, e: BoolExpr, u: BoolUnit, c: CastExpr)
    ensures
        r.inner matches RightValInner::ArithExpr(x) ==> eval_right_val(r) == eval_arith(*x),
        r.inner matches RightValInner::BoolExpr(x) ==> eval_right_val(r) == eval_bool(*x),
        e.inner matches BoolExprInner::BoolUnit(x) ==> eval_bool(e) == eval_bool_unit(*x),
        e.inner matches BoolExprInner::BoolBiOpExpr(x) ==> eval_bool(e) == eval_bool_biop(*x),
        u.inner matches BoolUnitInner::BoolExpr(x) ==> eval_bool_unit(u) == eval_bool(*x),
        u.inner matches BoolUnitInner::ComExpr(x) ==> eval_bool_unit(u) == eval_com(*x),
        u.inner matches BoolUnitInner::BoolUOpExpr(x) ==> eval_bool_unit(u) == eval_bool_uop(*x),
        c.inner matches CastExprInner::ExprUnit(x) ==> eval_cast(c) == eval_unit(*x),
        c.inner matches CastExprInner::CastOpExpr(x) ==> eval_cast(c) == eval_cast_op(*x),
{
}

/// Static evaluation methods for the IR generator.
impl IrGenerator {
    /// Statically evaluates a right-hand-side value.
    pub fn handle_right_val_static(r: &RightVal) -> (res: Result<i32, Error>)
        requires
            eval_right_val(*r) is Some,
        ensures
            matches_outcome(res, eval_right_val(*r)),
        decreases r, 0nat,
    {
        match &r.inner {
            RightValInner::ArithExpr(expr) => Self::handle_arith_expr_static(expr),
            RightValInner::BoolExpr(expr) => Self::handle_bool_expr_static(expr),
        }
    }

    pub fn handle_cast_expr_static(expr: &CastExpr) -> (res: Result<i32, Error>)
        requires
            eval_cast(*expr) is Some,
        ensures
            matches_outcome(res, eval_cast(*expr)),
        decreases expr, 0nat,
    {
        match &expr.inner {
            CastExprInner::CastOpExpr(expr) => Self::handle_cast_op_expr_static(expr),
            CastExprInner::ExprUnit(unit) => Self::handle_expr_unit_static(unit),
        }
    }

    pub fn handle_arith_expr_static(expr: &ArithExpr) -> (res: Result<i32, Error>)
        requires
            eval_arith(*expr) is Some,
        ensures
            matches_outcome(res, eval_arith(*expr)),
            res matches Ok(v) ==> v == exact_arith(*expr),
        decreases expr, 0nat,
    {
        proof {
            lemma_eval_arith_is_exact(*expr);
        }
        match &expr.inner {
            ArithExprInner::ArithBiOpExpr(expr) => Self::handle_arith_biop_expr_static(expr),
            ArithExprInner::CastExpr(cast) => Self::handle_cast_expr_static(cast),
        }
    }

    pub fn handle_bool_expr_static(expr: &BoolExpr) -> (res: Result<i32, Error>)
        requires
            eval_bool(*expr) is Some,
        ensures
            matches_outcome(res, eval_bool(*expr)),
            res matches Ok(v) ==> v == 0 || v == 1,
        decreases expr, 0nat,
    {
        proof {
            lemma_eval_bool_is_truth_value(*expr);
        }
        match &expr.inner {
            BoolExprInner::BoolBiOpExpr(expr) => Self::handle_bool_biop_expr_static(expr),
            BoolExprInner::BoolUnit(unit) => Self::handle_bool_unit_static(unit),
        }
    }

    pub fn handle_cast_op_expr_static(expr: &CastOpExpr) -> (res: Result<i32, Error>)
        requires
            eval_cast_op(*expr) is Some,
        ensures
            matches_outcome(res, eval_cast_op(*expr)),
        decreases expr, 0nat,
    {
        let src = Self::handle_expr_unit_static(&expr.expr)?;
        let target_ts = expr.type_specifier.as_ref().expect("cast missing type");
        match &target_ts.inner {
            TypeSpecifierInner::BuiltIn(BuiltIn::Int) => Ok(src),
            _ => Err(Error::InvalidCast),
        }
    }

    pub fn handle_arith_biop_expr_static(expr: &ArithBiOpExpr) -> (res: Result<i32, Error>)
        requires
            eval_arith_biop(*expr) is Some,
        ensures
            matches_outcome(res, eval_arith_biop(*expr)),
        decreases expr, 0nat,
    {
        let left = Self::handle_arith_expr_static(&expr.left)?;
        let right = Self::handle_arith_expr_static(&expr.right)?;
        match &expr.op {
            ArithBiOp::Add => match left.checked_add(right) {
                Some(v) => Ok(v),
                None => Err(Error::IntegerOverflow),
            },
            ArithBiOp::Sub => match left.checked_sub(right) {
                Some(v) => Ok(v),
                None => Err(Error::IntegerOverflow),
            },
            ArithBiOp::Mul => match left.checked_mul(right) {
                Some(v) => Ok(v),
                None => Err(Error::IntegerOverflow),
            },
            ArithBiOp::Div => match left.checked_div(right) {
                Some(v) => Ok(v),
                None => Err(Error::DivisionByZero),
            },
        }
    }

    pub fn handle_expr_unit_static(expr: &ExprUnit) -> (res: Result<i32, Error>)
        requires
            eval_unit(*expr) is Some,
        ensures
            matches_outcome(res, eval_unit(*expr)),
        decreases expr, 0nat,
    {
        match &expr.inner {
            ExprUnitInner::Num(num) => Ok(*num),
            ExprUnitInner::ArithExpr(expr) => Self::handle_arith_expr_static(expr),
            _ => Err(Error::InvalidExprUnit { expr_unit: copy_expr_unit(expr) }),
        }
    }

    pub fn handle_bool_biop_expr_static(expr: &BoolBiOpExpr) -> (res: Result<i32, Error>)
        requires
            eval_bool_biop(*expr) is Some,
        ensures
            matches_outcome(res, eval_bool_biop(*expr)),
        decreases expr, 0nat,
    {
        let left = Self::handle_bool_expr_static(&expr.left)? != 0;
        let right = Self::handle_bool_expr_static(&expr.right)? != 0;
        let holds = match expr.op {
            BoolBiOp::And => left && right,
            BoolBiOp::Or => left || right,
        };
        Ok(if holds { 1 } else { 0 })
    }

    pub fn handle_bool_unit_static(unit: &BoolUnit) -> (res: Result<i32, Error>)
        requires
            eval_bool_unit(*unit) is Some,
        ensures
            matches_outcome(res, eval_bool_unit(*unit)),
            res matches Ok(v) ==> v == 0 || v == 1,
        decreases unit, 0nat,
    {
        proof {
            lemma_eval_bool_unit_is_truth_value(*unit);
        }
        match &unit.inner {
            BoolUnitInner::ComExpr(expr) => Self::handle_com_op_expr_static(expr),
            BoolUnitInner::BoolExpr(expr) => Self::handle_bool_expr_static(expr),
            BoolUnitInner::BoolUOpExpr(expr) => Self::handle_bool_uop_expr_static(expr),
        }
    }

    pub fn handle_com_op_expr_static(expr: &ComExpr) -> (res: Result<i32, Error>)
        requires
            eval_com(*expr) is Some,
        ensures
            matches_outcome(res, eval_com(*expr)),
        decreases expr, 0nat,
    {
        let left = Self::handle_expr_unit_static(&expr.left)?;
        let right = Self::handle_expr_unit_static(&expr.right)?;
        let holds = match expr.op {
            ComOp::Lt => left < right,
            ComOp::Eq => left == right,
            ComOp::Ge => left >= right,
            ComOp::Gt => left > right,
            ComOp::Le => left <= right,
            ComOp::Ne => left != right,
        };
        Ok(if holds { 1 } else { 0 })
    }

    pub fn handle_bool_uop_expr_static(expr: &BoolUOpExpr) -> (res: Result<i32, Error>)
        requires
            eval_bool_uop(*expr) is Some,
        ensures
            matches_outcome(res, eval_bool_uop(*expr)),
        decreases expr, 0nat,
    {
        match expr.op {
            BoolUOp::Not => Ok(if Self::handle_bool_unit_static(&expr.cond)? == 0 { 1 } else { 0 }),
        }
    }
}

} // verus!
