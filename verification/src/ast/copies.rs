//! Deep copies of expression trees.
//!
//! The syntax trees hold vectors, and a copied vector is known to agree with
//! its source element by element only; `*_equiv` says that two trees agree
//! in every node, comparing vectors element-wise and everything else by value.
use vstd::prelude::*;

use crate::ast::{
    ArithBiOpExpr, ArithExpr, ArithExprInner, ArrayExpr, BoolBiOpExpr, BoolExpr, BoolExprInner,
    BoolUOpExpr, BoolUnit, BoolUnitInner, CastExpr, CastExprInner, CastOpExpr, ComExpr, ExprUnit,
    ExprUnitInner, FnCall, IndexExpr, IndexExprInner, LeftVal, LeftValInner, MemberExpr, RightVal,
    RightValInner, TypeSpecifier, TypeSpecifierInner,
};
use crate::ast::tree::{
    arith_biop_text, arith_text, bool_biop_text, bool_text, bool_uop_text, bool_unit_text, cast_op_text,
    cast_text, com_text, fn_call_text, right_val_text, right_vals_text, unit_text,
};

verus! {

broadcast use vstd::std_specs::vec::group_vec_axioms;

/// Two expression units agree in every node.
pub open spec fn unit_equiv(a: ExprUnit, b: ExprUnit) -> bool
    decreases a, 0nat,
{
    match a.inner {
        ExprUnitInner::Num(x) => b.inner matches ExprUnitInner::Num(y) && x == y,
        ExprUnitInner::Float(x) => b.inner matches ExprUnitInner::Float(y) && x == y,
        ExprUnitInner::Id(x) => b.inner matches ExprUnitInner::Id(y) && x == y,
        ExprUnitInner::ArithExpr(x) => b.inner matches ExprUnitInner::ArithExpr(y) && arith_equiv(*x, *y),
        ExprUnitInner::FnCall(x) => b.inner matches ExprUnitInner::FnCall(y) && call_equiv(*x, *y),
        ExprUnitInner::ArrayExpr(x) => b.inner matches ExprUnitInner::ArrayExpr(y) && x == y,
        ExprUnitInner::MemberExpr(x) => b.inner matches ExprUnitInner::MemberExpr(y) && x == y,
        ExprUnitInner::Reference(x) => b.inner matches ExprUnitInner::Reference(y) && x == y,
    }
}

/// Two arithmetic expressions agree in every node.
pub open spec fn arith_equiv(a: ArithExpr, b: ArithExpr) -> bool
    decreases a, 0nat,
{
    match a.inner {
        ArithExprInner::ArithBiOpExpr(x) => b.inner matches ArithExprInner::ArithBiOpExpr(y) && {
            &&& x.op == y.op
            &&& arith_equiv(*x.left, *y.left)
            &&& arith_equiv(*x.right, *y.right)
        },
        ArithExprInner::CastExpr(x) => b.inner matches ArithExprInner::CastExpr(y) && cast_equiv(*x, *y),
    }
}

/// Two (possibly cast) units agree in every node.
pub open spec fn cast_equiv(a: CastExpr, b: CastExpr) -> bool
    decreases a, 0nat,
{
    match a.inner {
        CastExprInner::CastOpExpr(x) => b.inner matches CastExprInner::CastOpExpr(y) && {
            &&& x.type_specifier == y.type_specifier
            &&& unit_equiv(*x.expr, *y.expr)
        },
        CastExprInner::ExprUnit(x) => b.inner matches CastExprInner::ExprUnit(y) && unit_equiv(*x, *y),
    }
}

/// Two calls agree in their names and, argument by argument, in every node.
pub open spec fn call_equiv(a: FnCall, b: FnCall) -> bool
    decreases a, 0nat,
{
    &&& a.module_prefix == b.module_prefix
    &&& a.name == b.name
    &&& a.vals@.len() == b.vals@.len()
    &&& right_vals_equiv(a.vals@, b.vals@, a.vals@.len())
}

/// The first `n` right values of two sequences agree pairwise in every node.
pub open spec fn right_vals_equiv(a: Seq<RightVal>, b: Seq<RightVal>, n: nat) -> bool
    decreases a, n,
{
    if n == 0 || n > a.len() {
        true
    } else {
        right_vals_equiv(a, b, (n - 1) as nat) && right_val_equiv(a[n - 1], b[n - 1])
    }
}

/// Two right values agree in every node.
pub open spec fn right_val_equiv(a: RightVal, b: RightVal) -> bool
    decreases a, 0nat,
{
    match a.inner {
        RightValInner::ArithExpr(x) => b.inner matches RightValInner::ArithExpr(y) && arith_equiv(*x, *y),
        RightValInner::BoolExpr(x) => b.inner matches RightValInner::BoolExpr(y) && bool_equiv(*x, *y),
    }
}

/// Two boolean expressions agree in every node.
pub open spec fn bool_equiv(a: BoolExpr, b: BoolExpr) -> bool
    decreases a, 0nat,
{
    match a.inner {
        BoolExprInner::BoolBiOpExpr(x) => b.inner matches BoolExprInner::BoolBiOpExpr(y) && {
            &&& x.op == y.op
            &&& bool_equiv(*x.left, *y.left)
            &&& bool_equiv(*x.right, *y.right)
        },
        BoolExprInner::BoolUnit(x) => b.inner matches BoolExprInner::BoolUnit(y) && bool_unit_equiv(*x, *y),
    }
}

/// Two boolean units agree in every node.
pub open spec fn bool_unit_equiv(a: BoolUnit, b: BoolUnit) -> bool
    decreases a, 0nat,
{
    match a.inner {
        BoolUnitInner::ComExpr(x) => b.inner matches BoolUnitInner::ComExpr(y) && {
            &&& x.op == y.op
            &&& unit_equiv(*x.left, *y.left)
            &&& unit_equiv(*x.right, *y.right)
        },
        BoolUnitInner::BoolExpr(x) => b.inner matches BoolUnitInner::BoolExpr(y) && bool_equiv(*x, *y),
        BoolUnitInner::BoolUOpExpr(x) => b.inner matches BoolUnitInner::BoolUOpExpr(y) && {
            &&& x.op == y.op
            &&& bool_unit_equiv(*x.cond, *y.cond)
        },
    }
}

/// Pointwise agreement of the first `n` elements gives `right_vals_equiv`.
proof fn lemma_right_vals_equiv_pointwise(a: Seq<RightVal>, b: Seq<RightVal>, n: nat)
    requires
        n <= a.len(),
        forall|j: int| 0 <= j < n ==> #[trigger] right_val_equiv(a[j], b[j]),
    ensures
        right_vals_equiv(a, b, n),
    decreases n,
{
    if n > 0 {
        lemma_right_vals_equiv_pointwise(a, b, (n - 1) as nat);
        assert(right_val_equiv(a[n - 1], b[n - 1]));
    }
}

fn copy_string(s: &String) -> (r: String)
    ensures
        r == *s,
{
    s.clone()
}

fn copy_opt_string(s: &Option<String>) -> (r: Option<String>)
    ensures
        r == *s,
{
    match s {
        Some(x) => Some(x.clone()),
        None => None,
    }
}

/// A copy of a written type.
pub fn copy_type_specifier(t: &TypeSpecifier) -> (r: TypeSpecifier)
    ensures
        r == *t,
    decreases t,
{
    let inner = match &t.inner {
        TypeSpecifierInner::BuiltIn(b) => TypeSpecifierInner::BuiltIn(*b),
        TypeSpecifierInner::Composite(name) => TypeSpecifierInner::Composite(copy_string(name)),
        TypeSpecifierInner::Reference(x) => TypeSpecifierInner::Reference(
            Box::new(copy_type_specifier(x)),
        ),
        TypeSpecifierInner::Array(x, n) => TypeSpecifierInner::Array(
            Box::new(copy_type_specifier(x)),
            *n,
        ),
    };
    TypeSpecifier { inner }
}

/// A copy of an assignable place.
pub fn copy_left_val(l: &LeftVal) -> (r: LeftVal)
    ensures
        r == *l,
    decreases l,
{
    let inner = match &l.inner {
        LeftValInner::Id(id) => LeftValInner::Id(copy_string(id)),
        LeftValInner::ArrayExpr(a) => LeftValInner::ArrayExpr(Box::new(copy_array_expr(a))),
        LeftValInner::MemberExpr(m) => LeftValInner::MemberExpr(
            Box::new(
                MemberExpr {
                    struct_id: Box::new(copy_left_val(&m.struct_id)),
                    member_id: copy_string(&m.member_id),
                },
            ),
        ),
    };
    LeftVal { inner }
}

/// A copy of an array element expression.
pub fn copy_array_expr(a: &ArrayExpr) -> (r: ArrayExpr)
    ensures
        r == *a,
    decreases a,
{
    let idx = match &a.idx.inner {
        IndexExprInner::Num(n) => IndexExpr { inner: IndexExprInner::Num(*n) },
        IndexExprInner::Id(id) => IndexExpr { inner: IndexExprInner::Id(copy_string(id)) },
    };
    ArrayExpr { arr: Box::new(copy_left_val(&a.arr)), idx }
}

/// A copy of an expression unit.
pub fn copy_expr_unit(u: &ExprUnit) -> (r: ExprUnit)
    ensures
        unit_equiv(*u, r),
    decreases u, 0nat,
{
    let inner = match &u.inner {
        ExprUnitInner::Num(n) => ExprUnitInner::Num(*n),
        ExprUnitInner::Float(s) => ExprUnitInner::Float(copy_string(s)),
        ExprUnitInner::Id(s) => ExprUnitInner::Id(copy_string(s)),
        ExprUnitInner::ArithExpr(e) => ExprUnitInner::ArithExpr(Box::new(copy_arith_expr(e))),
        ExprUnitInner::FnCall(c) => ExprUnitInner::FnCall(Box::new(copy_fn_call(c))),
        ExprUnitInner::ArrayExpr(a) => ExprUnitInner::ArrayExpr(Box::new(copy_array_expr(a))),
        ExprUnitInner::MemberExpr(m) => ExprUnitInner::MemberExpr(
            Box::new(
                MemberExpr {
                    struct_id: Box::new(copy_left_val(&m.struct_id)),
                    member_id: copy_string(&m.member_id),
                },
            ),
        ),
        ExprUnitInner::Reference(s) => ExprUnitInner::Reference(copy_string(s)),
    };
    ExprUnit { inner }
}

/// A copy of an arithmetic expression.
pub fn copy_arith_expr(e: &ArithExpr) -> (r: ArithExpr)
    ensures
        arith_equiv(*e, r),
    decreases e, 0nat,
{
    let inner = match &e.inner {
        ArithExprInner::ArithBiOpExpr(b) => ArithExprInner::ArithBiOpExpr(
            Box::new(
                ArithBiOpExpr {
                    op: b.op,
                    left: Box::new(copy_arith_expr(&b.left)),
                    right: Box::new(copy_arith_expr(&b.right)),
                },
            ),
        ),
        ArithExprInner::CastExpr(c) => ArithExprInner::CastExpr(Box::new(copy_cast_expr(c))),
    };
    ArithExpr { inner }
}

/// A copy of a (possibly cast) unit.
pub fn copy_cast_expr(c: &CastExpr) -> (r: CastExpr)
    ensures
        cast_equiv(*c, r),
    decreases c, 0nat,
{
    let inner = match &c.inner {
        CastExprInner::CastOpExpr(op) => {
            let ts = match &op.type_specifier {
                Some(t) => Some(copy_type_specifier(t)),
                None => None,
            };
            CastExprInner::CastOpExpr(
                Box::new(CastOpExpr { expr: Box::new(copy_expr_unit(&op.expr)), type_specifier: ts }),
            )
        },
        CastExprInner::ExprUnit(u) => CastExprInner::ExprUnit(Box::new(copy_expr_unit(u))),
    };
    CastExpr { inner }
}

/// A copy of a call.
pub fn copy_fn_call(c: &FnCall) -> (r: FnCall)
    ensures
        call_equiv(*c, r),
    decreases c, 0nat,
{
    let mut vals: Vec<RightVal> = Vec::new();
    let n = c.vals.len();
    let mut i: usize = 0;
    while i < n
        invariant
            n == c.vals@.len(),
            0 <= i <= n,
            vals@.len() == i,
            forall|j: int| 0 <= j < i ==> #[trigger] right_val_equiv(c.vals@[j], vals@[j]),
        decreases n - i,
    {
        proof {
            assert(decreases_to!(c.vals => c.vals[i as int]));
        }
        let v = copy_right_val(&c.vals[i]);
        vals.push(v);
        i = i + 1;
    }
    proof {
        lemma_right_vals_equiv_pointwise(c.vals@, vals@, n as nat);
    }
    let r = FnCall {
        module_prefix: copy_opt_string(&c.module_prefix),
        name: copy_string(&c.name),
        vals,
    };

    r
}

/// A copy of a right value.
pub fn copy_right_val(v: &RightVal) -> (r: RightVal)
    ensures
        right_val_equiv(*v, r),
    decreases v, 0nat,
{
    let inner = match &v.inner {
        RightValInner::ArithExpr(e) => RightValInner::ArithExpr(Box::new(copy_arith_expr(e))),
        RightValInner::BoolExpr(e) => RightValInner::BoolExpr(Box::new(copy_bool_expr(e))),
    };
    RightVal { inner }
}

/// A copy of a boolean expression.
pub fn copy_bool_expr(e: &BoolExpr) -> (r: BoolExpr)
    ensures
        bool_equiv(*e, r),
    decreases e, 0nat,
{
    let inner = match &e.inner {
        BoolExprInner::BoolBiOpExpr(b) => BoolExprInner::BoolBiOpExpr(
            Box::new(
                BoolBiOpExpr {
                    op: b.op,
                    left: Box::new(copy_bool_expr(&b.left)),
                    right: Box::new(copy_bool_expr(&b.right)),
                },
            ),
        ),
        BoolExprInner::BoolUnit(u) => BoolExprInner::BoolUnit(Box::new(copy_bool_unit(u))),
    };
    BoolExpr { inner }
}

/// A copy of a boolean unit.
pub fn copy_bool_unit(u: &BoolUnit) -> (r: BoolUnit)
    ensures
        bool_unit_equiv(*u, r),
    decreases u, 0nat,
{
    let inner = match &u.inner {
        BoolUnitInner::ComExpr(c) => BoolUnitInner::ComExpr(
            Box::new(
                ComExpr {
                    op: c.op,
                    left: Box::new(copy_expr_unit(&c.left)),
                    right: Box::new(copy_expr_unit(&c.right)),
                },
            ),
        ),
        BoolUnitInner::BoolExpr(e) => BoolUnitInner::BoolExpr(Box::new(copy_bool_expr(e))),
        BoolUnitInner::BoolUOpExpr(n) => BoolUnitInner::BoolUOpExpr(
            Box::new(BoolUOpExpr { op: n.op, cond: Box::new(copy_bool_unit(&n.cond)) }),
        ),
    };
    BoolUnit { inner }
}

/// Units that agree in every node render alike.
pub proof fn lemma_equiv_units_render_alike(a: ExprUnit, b: ExprUnit, lv: Seq<bool>, last: bool)
    requires
        unit_equiv(a, b),
    ensures
        unit_text(a, lv, last) == unit_text(b, lv, last),
    decreases a, 0nat,
{
    let next = lv.push(last);
    match a.inner {
        ExprUnitInner::ArithExpr(x) => {
            if let ExprUnitInner::ArithExpr(y) = b.inner {
                lemma_equiv_arith_render_alike(*x, *y, next, true);
            }
        },
        ExprUnitInner::FnCall(x) => {
            if let ExprUnitInner::FnCall(y) = b.inner {
                lemma_equiv_calls_render_alike(*x, *y, next, true);
            }
        },
        _ => {},
    }
}

/// Arithmetic expressions that agree in every node render alike.
pub proof fn lemma_equiv_arith_render_alike(a: ArithExpr, b: ArithExpr, lv: Seq<bool>, last: bool)
    requires
        arith_equiv(a, b),
    ensures
        arith_text(a, lv, last) == arith_text(b, lv, last),
    decreases a, 0nat,
{
    let next = lv.push(last);
    match a.inner {
        ArithExprInner::ArithBiOpExpr(x) => {
            if let ArithExprInner::ArithBiOpExpr(y) = b.inner {
                let nn = next.push(true);
                lemma_equiv_arith_render_alike(*x.left, *y.left, nn, false);
                lemma_equiv_arith_render_alike(*x.right, *y.right, nn, true);
                assert(arith_biop_text(*x, next, true) == arith_biop_text(*y, next, true));
            }
        },
        ArithExprInner::CastExpr(x) => {
            if let ArithExprInner::CastExpr(y) = b.inner {
                lemma_equiv_casts_render_alike(*x, *y, next, true);
            }
        },
    }
}

/// Possibly cast units that agree in every node render alike.
pub proof fn lemma_equiv_casts_render_alike(a: CastExpr, b: CastExpr, lv: Seq<bool>, last: bool)
    requires
        cast_equiv(a, b),
    ensures
        cast_text(a, lv, last) == cast_text(b, lv, last),
    decreases a, 0nat,
{
    match a.inner {
        CastExprInner::CastOpExpr(x) => {
            if let CastExprInner::CastOpExpr(y) = b.inner {
                lemma_equiv_units_render_alike(*x.expr, *y.expr, lv.push(last), false);
                assert(cast_op_text(*x, lv, last) == cast_op_text(*y, lv, last));
            }
        },
        CastExprInner::ExprUnit(x) => {
            if let CastExprInner::ExprUnit(y) = b.inner {
                lemma_equiv_units_render_alike(*x, *y, lv, last);
            }
        },
    }
}

/// Calls that agree in every node render alike.
pub proof fn lemma_equiv_calls_render_alike(a: FnCall, b: FnCall, lv: Seq<bool>, last: bool)
    requires
        call_equiv(a, b),
    ensures
        fn_call_text(a, lv, last) == fn_call_text(b, lv, last),
    decreases a, 0nat,
{
    lemma_equiv_right_vals_render_alike(a.vals@, b.vals@, lv.push(last), a.vals@.len());
}

/// The first `k` of two sequences of right values that agree pairwise render alike.
proof fn lemma_equiv_right_vals_render_alike(s: Seq<RightVal>, t: Seq<RightVal>, lv: Seq<bool>, k: nat)
    requires
        s.len() == t.len(),
        right_vals_equiv(s, t, k),
    ensures
        right_vals_text(s, lv, k) == right_vals_text(t, lv, k),
    decreases s, k,
{
    if k > 0 && k <= s.len() {
        lemma_equiv_right_vals_render_alike(s, t, lv, (k - 1) as nat);
        lemma_equiv_right_vals_render_alike_one(s[k - 1], t[k - 1], lv, k == s.len());
    }
}

proof fn lemma_equiv_right_vals_render_alike_one(a: RightVal, b: RightVal, lv: Seq<bool>, last: bool)
    requires
        right_val_equiv(a, b),
    ensures
        right_val_text(a, lv, last) == right_val_text(b, lv, last),
    decreases a, 0nat,
{
    let next = lv.push(last);
    match a.inner {
        RightValInner::ArithExpr(x) => {
            if let RightValInner::ArithExpr(y) = b.inner {
                lemma_equiv_arith_render_alike(*x, *y, next, true);
            }
        },
        RightValInner::BoolExpr(x) => {
            if let RightValInner::BoolExpr(y) = b.inner {
                lemma_equiv_bools_render_alike(*x, *y, next, true);
            }
        },
    }
}

/// Boolean expressions that agree in every node render alike.
pub proof fn lemma_equiv_bools_render_alike(a: BoolExpr, b: BoolExpr, lv: Seq<bool>, last: bool)
    requires
        bool_equiv(a, b),
    ensures
        bool_text(a, lv, last) == bool_text(b, lv, last),
    decreases a, 0nat,
{
    let next = lv.push(last);
    match a.inner {
        BoolExprInner::BoolBiOpExpr(x) => {
            if let BoolExprInner::BoolBiOpExpr(y) = b.inner {
                let nn = next.push(true);
                lemma_equiv_bools_render_alike(*x.left, *y.left, nn, false);
                lemma_equiv_bools_render_alike(*x.right, *y.right, nn, true);
                assert(bool_biop_text(*x, next, true) == bool_biop_text(*y, next, true));
            }
        },
        BoolExprInner::BoolUnit(x) => {
            if let BoolExprInner::BoolUnit(y) = b.inner {
                lemma_equiv_bool_units_render_alike(*x, *y, next, true);
            }
        },
    }
}

/// Boolean units that agree in every node render alike.
pub proof fn lemma_equiv_bool_units_render_alike(a: BoolUnit, b: BoolUnit, lv: Seq<bool>, last: bool)
    requires
        bool_unit_equiv(a, b),
    ensures
        bool_unit_text(a, lv, last) == bool_unit_text(b, lv, last),
    decreases a, 0nat,
{
    let next = lv.push(last);
    match a.inner {
        BoolUnitInner::ComExpr(x) => {
            if let BoolUnitInner::ComExpr(y) = b.inner {
                let nn = next.push(true);
                lemma_equiv_units_render_alike(*x.left, *y.left, nn, false);
                lemma_equiv_units_render_alike(*x.right, *y.right, nn, true);
                assert(com_text(*x, next, true) == com_text(*y, next, true));
            }
        },
        BoolUnitInner::BoolExpr(x) => {
            if let BoolUnitInner::BoolExpr(y) = b.inner {
                lemma_equiv_bools_render_alike(*x, *y, next, true);
            }
        },
        BoolUnitInner::BoolUOpExpr(x) => {
            if let BoolUnitInner::BoolUOpExpr(y) = b.inner {
                lemma_equiv_bool_units_render_alike(*x.cond, *y.cond, next.push(true), true);
                assert(bool_uop_text(*x, next, true) == bool_uop_text(*y, next, true));
            }
        },
    }
}

} // verus!
