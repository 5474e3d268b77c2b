//! Rendering of syntax trees as indented text, one node per line.
//!
//! A node's line starts with one three-character column per ancestor level
//! (blank when that ancestor was the last child of its parent, `|  `
//! otherwise), then the connector `` `-- `` for a last child or `|--` for
//! any other, then the node's description.  The children follow, one level
//! deeper.
use vstd::prelude::*;

use crate::ast::{
    ArithBiOp, ArithBiOpExpr, ArithExpr, ArithExprInner, ArrayExpr, BoolBiOp, BoolBiOpExpr,
    BoolExpr, BoolExprInner, BoolUOp, BoolUOpExpr, BoolUnit, BoolUnitInner, BuiltIn, CastExpr,
    CastExprInner, CastOpExpr, ComExpr, ComOp, ExprUnit, ExprUnitInner, FnCall, IndexExpr,
    IndexExprInner, LeftVal, LeftValInner, MemberExpr, RightVal, RightValInner, TypeSpecifier,
    TypeSpecifierInner, ArrayInitializer, AssignmentStmt, BreakStmt, CallStmt, CodeBlockStmt,
    CodeBlockStmtInner, ContinueStmt, FnDecl, FnDeclStmt, FnDef, IfStmt, NullStmt, Program,
    ProgramElement, ProgramElementInner, ReturnStmt, StructDef, VarDecl, VarDeclStmt,
    VarDeclStmtInner, VarDef, VarDefInner, WhileStmt,
};

verus! {

broadcast use vstd::std_specs::vec::group_vec_axioms;

/// The text drawn for the ancestor columns of a node: three characters per
/// ancestor level, blank when that ancestor was the last child of its parent,
/// and a vertical bar otherwise.
pub open spec fn levels_text(levels: Seq<bool>) -> Seq<char>
    decreases levels.len(),
{
    if levels.len() == 0 {
        Seq::empty()
    } else {
        levels_text(levels.drop_last()) + if levels.last() {
            "   "@
        } else {
            "|  "@
        }
    }
}

/// The prefix of a node's line: the ancestor columns, then the branch
/// connector of the node itself.
pub open spec fn indent_text(levels: Seq<bool>, is_last: bool) -> Seq<char> {
    levels_text(levels) + if is_last {
        "`--"@
    } else {
        "|--"@
    }
}

/// A node's line: its prefix, its description and a line break.
pub open spec fn line_text(levels: Seq<bool>, is_last: bool, text: Seq<char>) -> Seq<char> {
    indent_text(levels, is_last) + text + "\n"@
}

/// The levels of a node's children.
pub open spec fn child_levels(levels: Seq<bool>, is_last: bool) -> Seq<bool> {
    levels.push(is_last)
}

/// The decimal digit `d`.
pub open spec fn digit_text(d: nat) -> Seq<char> {
    if d == 0 {
        "0"@
    } else if d == 1 {
        "1"@
    } else if d == 2 {
        "2"@
    } else if d == 3 {
        "3"@
    } else if d == 4 {
        "4"@
    } else if d == 5 {
        "5"@
    } else if d == 6 {
        "6"@
    } else if d == 7 {
        "7"@
    } else if d == 8 {
        "8"@
    } else {
        "9"@
    }
}

/// The decimal numeral of `n`, without leading zeros.
pub open spec fn nat_text(n: nat) -> Seq<char>
    decreases n,
{
    if n < 10 {
        digit_text(n)
    } else {
        nat_text(n / 10) + digit_text(n % 10)
    }
}

/// The decimal numeral of `n`, with a minus sign when negative.
pub open spec fn int_text(n: int) -> Seq<char> {
    if n < 0 {
        "-"@ + nat_text((-n) as nat)
    } else {
        nat_text(n as nat)
    }
}

/// The written form of a type: `int`, `float`, a struct name, `&[T]` or `[T; n]`.
pub open spec fn type_text(ts: TypeSpecifier) -> Seq<char>
    decreases ts,
{
    match ts.inner {
        TypeSpecifierInner::BuiltIn(BuiltIn::Int) => "int"@,
        TypeSpecifierInner::BuiltIn(BuiltIn::Float) => "float"@,
        TypeSpecifierInner::Composite(name) => name@,
        TypeSpecifierInner::Reference(inner) => "&["@ + type_text(*inner) + "]"@,
        TypeSpecifierInner::Array(inner, len) => "["@ + type_text(*inner) + "; "@ + nat_text(
            len as nat,
        ) + "]"@,
    }
}

/// The written form of an optional type; `unknown` when absent.
pub open spec fn opt_type_text(ts: Option<TypeSpecifier>) -> Seq<char> {
    match ts {
        Some(t) => type_text(t),
        None => "unknown"@,
    }
}

/// The name of a call: `prefix::name`, or `name` without a prefix.
pub open spec fn qualified_name_text(call: FnCall) -> Seq<char> {
    match call.module_prefix {
        Some(prefix) => prefix@ + "::"@ + call.name@,
        None => call.name@,
    }
}

pub open spec fn arith_op_text(op: ArithBiOp) -> Seq<char> {
    match op {
        ArithBiOp::Add => "Add"@,
        ArithBiOp::Sub => "Sub"@,
        ArithBiOp::Mul => "Mul"@,
        ArithBiOp::Div => "Div"@,
    }
}

pub open spec fn bool_op_text(op: BoolBiOp) -> Seq<char> {
    match op {
        BoolBiOp::And => "And"@,
        BoolBiOp::Or => "Or"@,
    }
}

pub open spec fn com_op_text(op: ComOp) -> Seq<char> {
    match op {
        ComOp::Lt => "Lt"@,
        ComOp::Eq => "Eq"@,
        ComOp::Ge => "Ge"@,
        ComOp::Gt => "Gt"@,
        ComOp::Le => "Le"@,
        ComOp::Ne => "Ne"@,
    }
}

pub open spec fn uop_text(op: BoolUOp) -> Seq<char> {
    match op {
        BoolUOp::Not => "Not"@,
    }
}

/// Every line prefix is three characters per ancestor level plus three for
/// the connector.
pub proof fn lemma_indent_width(levels: Seq<bool>, is_last: bool)
    ensures
        indent_text(levels, is_last).len() == 3 * (levels.len() + 1),
    decreases levels.len(),
{
    reveal_strlit("   ");
    reveal_strlit("|  ");
    reveal_strlit("`--");
    reveal_strlit("|--");
    if levels.len() > 0 {
        lemma_indent_width(levels.drop_last(), is_last);
    }
}

/// A child's line prefix repeats its parent's columns, adds one column that
/// is blank exactly when the parent is a last child, then its own connector.
pub proof fn lemma_child_prefix(levels: Seq<bool>, is_last: bool, child_is_last: bool)
    ensures
        indent_text(child_levels(levels, is_last), child_is_last) == levels_text(levels) + (if is_last {
            "   "@
        } else {
            "|  "@
        }) + (if child_is_last {
            "`--"@
        } else {
            "|--"@
        }),
{
    assert(child_levels(levels, is_last).drop_last() =~= levels);
}

/// The number a string of decimal digits denotes.
pub open spec fn decimal_value(s: Seq<char>) -> int
    decreases s.len(),
{
    if s.len() == 0 {
        0
    } else {
        decimal_value(s.drop_last()) * 10 + (s.last() as int - '0' as int)
    }
}

/// Whether every character is a decimal digit.
pub open spec fn all_digits(s: Seq<char>) -> bool {
    forall|i: int| 0 <= i < s.len() ==> '0' <= #[trigger] s[i] <= '9'
}

proof fn lemma_digit_text(d: nat)
    requires
        d < 10,
    ensures
        digit_text(d).len() == 1,
        digit_text(d)[0] as int == '0' as int + d,
{
    reveal_strlit("0");
    reveal_strlit("1");
    reveal_strlit("2");
    reveal_strlit("3");
    reveal_strlit("4");
    reveal_strlit("5");
    reveal_strlit("6");
    reveal_strlit("7");
    reveal_strlit("8");
    reveal_strlit("9");
}

/// The numeral of `n` is a nonempty string of decimal digits that denotes
/// `n` and starts with `0` only when it is `0` itself.
pub proof fn lemma_nat_text_denotes(n: nat)
    ensures
        nat_text(n).len() >= 1,
        all_digits(nat_text(n)),
        decimal_value(nat_text(n)) == n,
        nat_text(n)[0] == '0' <==> n == 0,
        nat_text(n)[0] == '0' ==> nat_text(n).len() == 1,
    decreases n,
{
    if n < 10 {
        lemma_digit_text(n);
        assert(nat_text(n).drop_last() =~= Seq::<char>::empty());
        assert(decimal_value(nat_text(n).drop_last()) == 0);
    } else {
        lemma_nat_text_denotes(n / 10);
        lemma_digit_text(n % 10);
        let t = nat_text(n);
        assert(t.drop_last() =~= nat_text(n / 10));
        assert(t.last() == digit_text(n % 10)[0]);
        assert(decimal_value(t) == decimal_value(nat_text(n / 10)) * 10 + (n % 10));
        assert((n / 10) * 10 + n % 10 == n);
        assert(t[0] == nat_text(n / 10)[0]);
        assert forall|i: int| 0 <= i < t.len() implies '0' <= #[trigger] t[i] <= '9' by {
            if i < t.len() - 1 {
                assert(t[i] == nat_text(n / 10)[i]);
            }
        }
    }
}

/// The decimal rendering of an integer: a minus sign exactly for negative
/// numbers, followed by the numeral of the magnitude.
pub proof fn lemma_int_text_denotes(n: int)
    ensures
        int_text(n).len() >= 1,
        int_text(n)[0] == '-' <==> n < 0,
        n < 0 ==> decimal_value(int_text(n).drop_first()) == -n && all_digits(
            int_text(n).drop_first(),
        ),
        n >= 0 ==> decimal_value(int_text(n)) == n && all_digits(int_text(n)),
{
    reveal_strlit("-");
    if n < 0 {
        lemma_nat_text_denotes((-n) as nat);
        assert(int_text(n).drop_first() =~= nat_text((-n) as nat));
    } else {
        lemma_nat_text_denotes(n as nat);
    }
}

// ---------------------------------------------------------------------------
// Text of expression nodes.
/// The rendering of a right value.
pub open spec fn right_val_text(r: RightVal, lv: Seq<bool>, last: bool) -> Seq<char>
    decreases r, 0nat,
{
    let next = child_levels(lv, last);
    line_text(lv, last, "RightVal"@) + match r.inner {
        RightValInner::ArithExpr(e) => arith_text(*e, next, true),
        RightValInner::BoolExpr(e) => bool_text(*e, next, true),
    }
}

/// The rendering of the first `n` of a sequence of right values; only the
/// final element of the whole sequence is drawn as a last child.
pub open spec fn right_vals_text(s: Seq<RightVal>, lv: Seq<bool>, n: nat) -> Seq<char>
    decreases s, n,
{
    if n == 0 || n > s.len() {
        Seq::empty()
    } else {
        right_vals_text(s, lv, (n - 1) as nat) + right_val_text(s[n - 1], lv, n == s.len())
    }
}

/// The rendering of an assignable place.
pub open spec fn left_val_text(l: LeftVal, lv: Seq<bool>, last: bool) -> Seq<char>
    decreases l, 0nat,
{
    let next = child_levels(lv, last);
    line_text(lv, last, "LeftVal"@) + match l.inner {
        LeftValInner::Id(id) => line_text(next, true, "Id("@ + id@ + ")"@),
        LeftValInner::ArrayExpr(a) => array_expr_text(*a, next, true),
        LeftValInner::MemberExpr(m) => member_expr_text(*m, next, true),
    }
}

/// The rendering of an array element expression.
pub open spec fn array_expr_text(a: ArrayExpr, lv: Seq<bool>, last: bool) -> Seq<char>
    decreases a, 0nat,
{
    let next = child_levels(lv, last);
    line_text(lv, last, "ArrayExpr"@) + left_val_text(*a.arr, next, false) + index_expr_text(
        a.idx,
        next,
        true,
    )
}

/// The rendering of a member expression.
pub open spec fn member_expr_text(m: MemberExpr, lv: Seq<bool>, last: bool) -> Seq<char>
    decreases m, 0nat,
{
    let next = child_levels(lv, last);
    line_text(lv, last, "MemberExpr "@ + m.member_id@) + left_val_text(*m.struct_id, next, true)
}

/// The rendering of an array index.
pub open spec fn index_expr_text(i: IndexExpr, lv: Seq<bool>, last: bool) -> Seq<char> {
    match i.inner {
        IndexExprInner::Num(n) => line_text(lv, last, "IndexExpr Num("@ + nat_text(n as nat) + ")"@),
        IndexExprInner::Id(id) => line_text(lv, last, "IndexExpr Id("@ + id@ + ")"@),
    }
}

/// The rendering of an arithmetic expression.
pub open spec fn arith_text(e: ArithExpr, lv: Seq<bool>, last: bool) -> Seq<char>
    decreases e, 0nat,
{
    let next = child_levels(lv, last);
    line_text(lv, last, "ArithExpr"@) + match e.inner {
        ArithExprInner::ArithBiOpExpr(b) => arith_biop_text(*b, next, true),
        ArithExprInner::CastExpr(c) => cast_text(*c, next, true),
    }
}

/// The rendering of a binary arithmetic operation.
pub open spec fn arith_biop_text(b: ArithBiOpExpr, lv: Seq<bool>, last: bool) -> Seq<char>
    decreases b, 0nat,
{
    let next = child_levels(lv, last);
    line_text(lv, last, "ArithBiOpExpr "@ + arith_op_text(b.op)) + arith_text(*b.left, next, false)
        + arith_text(*b.right, next, true)
}

/// The rendering of a possibly cast unit: that of the cast or of the unit.
pub open spec fn cast_text(c: CastExpr, lv: Seq<bool>, last: bool) -> Seq<char>
    decreases c, 0nat,
{
    match c.inner {
        CastExprInner::CastOpExpr(op) => cast_op_text(*op, lv, last),
        CastExprInner::ExprUnit(u) => unit_text(*u, lv, last),
    }
}

/// The rendering of a cast: its operand, then its target type.
pub open spec fn cast_op_text(c: CastOpExpr, lv: Seq<bool>, last: bool) -> Seq<char>
    decreases c, 0nat,
{
    let next = child_levels(lv, last);
    line_text(lv, last, "CastExpr"@) + unit_text(*c.expr, next, false) + line_text(
        next,
        true,
        "target: "@ + opt_type_text(c.type_specifier),
    )
}

/// The rendering of an expression unit.
pub open spec fn unit_text(u: ExprUnit, lv: Seq<bool>, last: bool) -> Seq<char>
    decreases u, 0nat,
{
    let next = child_levels(lv, last);
    line_text(lv, last, "ExprUnit"@) + match u.inner {
        ExprUnitInner::Num(n) => line_text(next, true, "Num("@ + int_text(n as int) + ")"@),
        ExprUnitInner::Float(v) => line_text(next, true, "Float("@ + v@ + ")"@),
        ExprUnitInner::Id(id) => line_text(next, true, "Id("@ + id@ + ")"@),
        ExprUnitInner::ArithExpr(e) => arith_text(*e, next, true),
        ExprUnitInner::FnCall(c) => fn_call_text(*c, next, true),
        ExprUnitInner::ArrayExpr(a) => array_expr_text(*a, next, true),
        ExprUnitInner::MemberExpr(m) => member_expr_text(*m, next, true),
        ExprUnitInner::Reference(id) => line_text(next, true, "Ref("@ + id@ + ")"@),
    }
}

/// The rendering of a call with its arguments.
pub open spec fn fn_call_text(c: FnCall, lv: Seq<bool>, last: bool) -> Seq<char>
    decreases c, 0nat,
{
    let next = child_levels(lv, last);
    line_text(lv, last, "FnCall "@ + qualified_name_text(c)) + right_vals_text(
        c.vals@,
        next,
        c.vals@.len(),
    )
}

/// The rendering of a boolean expression.
pub open spec fn bool_text(e: BoolExpr, lv: Seq<bool>, last: bool) -> Seq<char>
    decreases e, 0nat,
{
    let next = child_levels(lv, last);
    line_text(lv, last, "BoolExpr"@) + match e.inner {
        BoolExprInner::BoolBiOpExpr(b) => bool_biop_text(*b, next, true),
        BoolExprInner::BoolUnit(u) => bool_unit_text(*u, next, true),
    }
}

/// The rendering of a binary boolean operation.
pub open spec fn bool_biop_text(b: BoolBiOpExpr, lv: Seq<bool>, last: bool) -> Seq<char>
    decreases b, 0nat,
{
    let next = child_levels(lv, last);
    line_text(lv, last, "BoolBiOpExpr "@ + bool_op_text(b.op)) + bool_text(*b.left, next, false)
        + bool_text(*b.right, next, true)
}

/// The rendering of a boolean unit.
pub open spec fn bool_unit_text(u: BoolUnit, lv: Seq<bool>, last: bool) -> Seq<char>
    decreases u, 0nat,
{
    let next = child_levels(lv, last);
    line_text(lv, last, "BoolUnit"@) + match u.inner {
        BoolUnitInner::ComExpr(c) => com_text(*c, next, true),
        BoolUnitInner::BoolExpr(e) => bool_text(*e, next, true),
        BoolUnitInner::BoolUOpExpr(n) => bool_uop_text(*n, next, true),
    }
}

/// The rendering of a comparison.
pub open spec fn com_text(c: ComExpr, lv: Seq<bool>, last: bool) -> Seq<char>
    decreases c, 0nat,
{
    let next = child_levels(lv, last);
    line_text(lv, last, "ComExpr "@ + com_op_text(c.op)) + unit_text(*c.left, next, false)
        + unit_text(*c.right, next, true)
}

/// The rendering of a negation.
pub open spec fn bool_uop_text(n: BoolUOpExpr, lv: Seq<bool>, last: bool) -> Seq<char>
    decreases n, 0nat,
{
    let next = child_levels(lv, last);
    line_text(lv, last, "BoolUOpExpr "@ + uop_text(n.op)) + bool_unit_text(*n.cond, next, true)
}

// ---------------------------------------------------------------------------
// Text of declarations, statements and programs.
/// The rendering of a declaration: `identifier: type`.
pub open spec fn var_decl_text(d: VarDecl, lv: Seq<bool>, last: bool) -> Seq<char> {
    line_text(lv, last, d.identifier@ + ": "@ + opt_type_text(d.type_specifier))
}

/// The rendering of the first `n` of a sequence of declarations; the final
/// element of the whole sequence is drawn as a last child when `last_ok`.
pub open spec fn var_decls_text(s: Seq<VarDecl>, lv: Seq<bool>, n: nat, last_ok: bool) -> Seq<
    char,
>
    decreases n,
{
    if n == 0 || n > s.len() {
        Seq::empty()
    } else {
        var_decls_text(s, lv, (n - 1) as nat, last_ok) + var_decl_text(
            s[n - 1],
            lv,
            last_ok && n == s.len(),
        )
    }
}

/// The rendering of a list of declarations.
pub open spec fn var_decl_list_text(v: Seq<VarDecl>, lv: Seq<bool>, last: bool) -> Seq<char> {
    line_text(lv, last, "VarDeclList"@) + var_decls_text(
        v,
        child_levels(lv, last),
        v.len(),
        true,
    )
}

/// The rendering of a definition with its initializer.
pub open spec fn var_def_text(d: VarDef, lv: Seq<bool>, last: bool) -> Seq<char> {
    let next = child_levels(lv, last);
    line_text(lv, last, "VarDef "@ + d.identifier@) + match d.inner {
        VarDefInner::Scalar(sc) => right_val_text(*sc.val, next, true),
        VarDefInner::Array(arr) => match arr.initializer {
            ArrayInitializer::ExplicitList(vals) => right_vals_text(vals@, next, vals@.len()),
            ArrayInitializer::Fill { val, count } => line_text(
                next,
                false,
                "fill x"@ + nat_text(count as nat),
            ) + right_val_text(*val, next, true),
        },
    }
}

/// The rendering of a declaration statement.
pub open spec fn var_decl_stmt_text(d: VarDeclStmt, lv: Seq<bool>, last: bool) -> Seq<char> {
    line_text(lv, last, "VarDeclStmt"@) + var_decl_stmt_inner_text(
        d.inner,
        child_levels(lv, last),
        true,
    )
}

/// The rendering of a declaration or definition.
pub open spec fn var_decl_stmt_inner_text(d: VarDeclStmtInner, lv: Seq<bool>, last: bool) -> Seq<
    char,
> {
    match d {
        VarDeclStmtInner::Decl(v) => var_decl_text(*v, lv, last),
        VarDeclStmtInner::Def(v) => var_def_text(*v, lv, last),
    }
}

/// The rendering of a function signature: its parameters, then its return type.
pub open spec fn fn_decl_text(d: FnDecl, lv: Seq<bool>, last: bool) -> Seq<char> {
    let next = child_levels(lv, last);
    line_text(lv, last, "FnDecl "@ + d.identifier@) + match d.param_decl {
        Some(params) => var_decls_text(
            params.decls@,
            next,
            params.decls@.len(),
            d.return_dtype is None,
        ),
        None => Seq::empty(),
    } + match d.return_dtype {
        Some(ret) => line_text(next, true, "return: "@ + type_text(ret)),
        None => Seq::empty(),
    }
}

/// The rendering of a struct definition.
pub open spec fn struct_def_text(d: StructDef, lv: Seq<bool>, last: bool) -> Seq<char> {
    line_text(lv, last, "StructDef "@ + d.identifier@) + var_decl_list_text(
        d.decls@,
        child_levels(lv, last),
        true,
    )
}

/// The rendering of an assignment.
pub open spec fn assignment_text(a: AssignmentStmt, lv: Seq<bool>, last: bool) -> Seq<char> {
    let next = child_levels(lv, last);
    line_text(lv, last, "AssignmentStmt"@) + left_val_text(*a.left_val, next, false)
        + right_val_text(*a.right_val, next, true)
}

/// The rendering of a call statement with its arguments.
pub open spec fn call_stmt_text(c: CallStmt, lv: Seq<bool>, last: bool) -> Seq<char> {
    line_text(lv, last, "CallStmt "@ + qualified_name_text(*c.fn_call)) + right_vals_text(
        c.fn_call.vals@,
        child_levels(lv, last),
        c.fn_call.vals@.len(),
    )
}

/// The rendering of a return statement.
pub open spec fn return_text(r: ReturnStmt, lv: Seq<bool>, last: bool) -> Seq<char> {
    line_text(lv, last, "ReturnStmt"@) + match r.val {
        Some(v) => right_val_text(*v, child_levels(lv, last), true),
        None => Seq::empty(),
    }
}

/// The rendering of a statement.
pub open spec fn stmt_text(c: CodeBlockStmt, lv: Seq<bool>, last: bool) -> Seq<char>
    decreases c, 0nat,
{
    stmt_inner_text(c.inner, lv, last)
}

/// The rendering of a statement, by its kind.
pub open spec fn stmt_inner_text(c: CodeBlockStmtInner, lv: Seq<bool>, last: bool) -> Seq<char>
    decreases c, 0nat,
{
    match c {
        CodeBlockStmtInner::VarDecl(s) => var_decl_stmt_text(*s, lv, last),
        CodeBlockStmtInner::Assignment(s) => assignment_text(*s, lv, last),
        CodeBlockStmtInner::Call(s) => call_stmt_text(*s, lv, last),
        CodeBlockStmtInner::If(s) => if_text(*s, lv, last),
        CodeBlockStmtInner::While(s) => while_text(*s, lv, last),
        CodeBlockStmtInner::Return(s) => return_text(*s, lv, last),
        CodeBlockStmtInner::Continue(_) => line_text(lv, last, "ContinueStmt"@),
        CodeBlockStmtInner::Break(_) => line_text(lv, last, "BreakStmt"@),
        CodeBlockStmtInner::Null(_) => line_text(lv, last, "NullStmt"@),
    }
}

/// The rendering of the first `n` of a sequence of statements; the final
/// element of the whole sequence is drawn as a last child when `last_ok`.
pub open spec fn stmts_text(s: Seq<CodeBlockStmt>, lv: Seq<bool>, n: nat, last_ok: bool) -> Seq<
    char,
>
    decreases s, n,
{
    if n == 0 || n > s.len() {
        Seq::empty()
    } else {
        stmts_text(s, lv, (n - 1) as nat, last_ok) + stmt_text(s[n - 1], lv, last_ok && n == s.len())
    }
}

/// The rendering of a conditional: its condition, then branch, then the
/// else branch, whose final statement alone is drawn as a last child.
pub open spec fn if_text(i: IfStmt, lv: Seq<bool>, last: bool) -> Seq<char>
    decreases i, 0nat,
{
    let next = child_levels(lv, last);
    line_text(lv, last, "IfStmt"@) + bool_unit_text(*i.bool_unit, next, false) + stmts_text(
        i.if_stmts@,
        next,
        i.if_stmts@.len(),
        false,
    ) + match i.else_stmts {
        Some(es) => stmts_text(es@, next, es@.len(), true),
        None => Seq::empty(),
    }
}

/// The rendering of a loop: its condition, then its body.
pub open spec fn while_text(w: WhileStmt, lv: Seq<bool>, last: bool) -> Seq<char>
    decreases w, 0nat,
{
    let next = child_levels(lv, last);
    line_text(lv, last, "WhileStmt"@) + bool_unit_text(*w.bool_unit, next, false) + stmts_text(
        w.stmts@,
        next,
        w.stmts@.len(),
        true,
    )
}

/// The rendering of a function definition: its signature, then its body.
pub open spec fn fn_def_text(d: FnDef, lv: Seq<bool>, last: bool) -> Seq<char> {
    let next = child_levels(lv, last);
    line_text(lv, last, "FnDef "@ + d.fn_decl.identifier@) + fn_decl_text(
        *d.fn_decl,
        next,
        d.stmts@.len() == 0,
    ) + stmts_text(d.stmts@, next, d.stmts@.len(), true)
}

/// The rendering of a top-level item.
pub open spec fn program_element_text(e: ProgramElement, lv: Seq<bool>, last: bool) -> Seq<char> {
    match e.inner {
        ProgramElementInner::VarDeclStmt(v) => var_decl_stmt_text(*v, lv, last),
        ProgramElementInner::StructDef(s) => struct_def_text(*s, lv, last),
        ProgramElementInner::FnDeclStmt(d) => fn_decl_text(*d.fn_decl, lv, last),
        ProgramElementInner::FnDef(d) => fn_def_text(*d, lv, last),
    }
}

/// The rendering of the first `n` top-level items.
pub open spec fn program_elements_text(s: Seq<ProgramElement>, lv: Seq<bool>, n: nat) -> Seq<char>
    decreases n,
{
    if n == 0 || n > s.len() {
        Seq::empty()
    } else {
        program_elements_text(s, lv, (n - 1) as nat) + program_element_text(
            s[n - 1],
            lv,
            n == s.len(),
        )
    }
}

/// The rendering of a program.
pub open spec fn program_text(p: Program, lv: Seq<bool>, last: bool) -> Seq<char> {
    line_text(lv, last, "Program"@) + program_elements_text(
        p.elements@,
        child_levels(lv, last),
        p.elements@.len(),
    )
}

// ---------------------------------------------------------------------------
// Laws: a node with a list of children renders its own line followed by the
// renderings of all its children, in order, one level deeper.
/// The renderings of the first `k` right values are those of the values one
/// after another, the final value of the sequence drawn as a last child.
proof fn lemma_right_vals_text_flat(s: Seq<RightVal>, lv: Seq<bool>, k: nat)
    requires
        k <= s.len(),
    ensures
        right_vals_text(s, lv, k) == Seq::new(
            k,
            |i: int| right_val_text(s[i], lv, i + 1 == s.len()),
        ).flatten(),
    decreases k,
{
    broadcast use Seq::lemma_flatten_push;

    let parts = Seq::new(k, |i: int| right_val_text(s[i], lv, i + 1 == s.len()));
    if k == 0 {
        assert(parts =~= Seq::empty());
    } else {
        lemma_right_vals_text_flat(s, lv, (k - 1) as nat);
        let prev = Seq::new((k - 1) as nat, |i: int| right_val_text(s[i], lv, i + 1 == s.len()));
        assert(parts =~= prev.push(right_val_text(s[k - 1], lv, k == s.len())));
    }
}

/// The renderings of the first `k` statements one after another; only the
/// final statement of the sequence may be a last child, when `last_ok`.
proof fn lemma_stmts_text_flat(s: Seq<CodeBlockStmt>, lv: Seq<bool>, k: nat, last_ok: bool)
    requires
        k <= s.len(),
    ensures
        stmts_text(s, lv, k, last_ok) == Seq::new(
            k,
            |i: int| stmt_text(s[i], lv, last_ok && i + 1 == s.len()),
        ).flatten(),
    decreases k,
{
    broadcast use Seq::lemma_flatten_push;

    let parts = Seq::new(k, |i: int| stmt_text(s[i], lv, last_ok && i + 1 == s.len()));
    if k == 0 {
        assert(parts =~= Seq::empty());
    } else {
        lemma_stmts_text_flat(s, lv, (k - 1) as nat, last_ok);
        let prev = Seq::new(
            (k - 1) as nat,
            |i: int| stmt_text(s[i], lv, last_ok && i + 1 == s.len()),
        );
        assert(parts =~= prev.push(stmt_text(s[k - 1], lv, last_ok && k == s.len())));
    }
}

/// The renderings of the first `k` declarations one after another; only the
/// final declaration of the sequence may be a last child, when `last_ok`.
proof fn lemma_var_decls_text_flat(s: Seq<VarDecl>, lv: Seq<bool>, k: nat, last_ok: bool)
    requires
        k <= s.len(),
    ensures
        var_decls_text(s, lv, k, last_ok) == Seq::new(
            k,
            |i: int| var_decl_text(s[i], lv, last_ok && i + 1 == s.len()),
        ).flatten(),
    decreases k,
{
    broadcast use Seq::lemma_flatten_push;

    let parts = Seq::new(k, |i: int| var_decl_text(s[i], lv, last_ok && i + 1 == s.len()));
    if k == 0 {
        assert(parts =~= Seq::empty());
    } else {
        lemma_var_decls_text_flat(s, lv, (k - 1) as nat, last_ok);
        let prev = Seq::new(
            (k - 1) as nat,
            |i: int| var_decl_text(s[i], lv, last_ok && i + 1 == s.len()),
        );
        assert(parts =~= prev.push(var_decl_text(s[k - 1], lv, last_ok && k == s.len())));
    }
}

/// The renderings of the first `k` top-level items one after another.
proof fn lemma_program_elements_text_flat(s: Seq<ProgramElement>, lv: Seq<bool>, k: nat)
    requires
        k <= s.len(),
    ensures
        program_elements_text(s, lv, k) == Seq::new(
            k,
            |i: int| program_element_text(s[i], lv, i + 1 == s.len()),
        ).flatten(),
    decreases k,
{
    broadcast use Seq::lemma_flatten_push;

    let parts = Seq::new(k, |i: int| program_element_text(s[i], lv, i + 1 == s.len()));
    if k == 0 {
        assert(parts =~= Seq::empty());
    } else {
        lemma_program_elements_text_flat(s, lv, (k - 1) as nat);
        let prev = Seq::new(
            (k - 1) as nat,
            |i: int| program_element_text(s[i], lv, i + 1 == s.len()),
        );
        assert(parts =~= prev.push(program_element_text(s[k - 1], lv, k == s.len())));
    }
}

/// A call renders as its own line, `FnCall` and its qualified name, followed
/// by each of its arguments one level deeper, in order, only the final
/// argument drawn as a last child.
pub proof fn lemma_call_renders_its_arguments(c: FnCall, lv: Seq<bool>, is_last: bool)
    ensures
        fn_call_text(c, lv, is_last) == indent_text(lv, is_last) + "FnCall "@ + qualified_name_text(c)
            + "\n"@ + Seq::new(
            c.vals@.len(),
            |i: int| right_val_text(c.vals@[i], lv.push(is_last), i + 1 == c.vals@.len()),
        ).flatten(),
{
    lemma_right_vals_text_flat(c.vals@, lv.push(is_last), c.vals@.len());
    assert(fn_call_text(c, lv, is_last) =~= indent_text(lv, is_last) + "FnCall "@
        + qualified_name_text(c) + "\n"@ + right_vals_text(
        c.vals@,
        lv.push(is_last),
        c.vals@.len(),
    ));
}

/// A call statement renders as its own line, `CallStmt` and the qualified
/// name, followed by each argument one level deeper, only the final one a
/// last child.
pub proof fn lemma_call_stmt_renders_its_arguments(c: CallStmt, lv: Seq<bool>, is_last: bool)
    ensures
        call_stmt_text(c, lv, is_last) == indent_text(lv, is_last) + "CallStmt "@
            + qualified_name_text(*c.fn_call) + "\n"@ + Seq::new(
            c.fn_call.vals@.len(),
            |i: int|
                right_val_text(c.fn_call.vals@[i], lv.push(is_last), i + 1 == c.fn_call.vals@.len()),
        ).flatten(),
{
    lemma_right_vals_text_flat(c.fn_call.vals@, lv.push(is_last), c.fn_call.vals@.len());
    assert(call_stmt_text(c, lv, is_last) =~= indent_text(lv, is_last) + "CallStmt "@
        + qualified_name_text(*c.fn_call) + "\n"@ + right_vals_text(
        c.fn_call.vals@,
        lv.push(is_last),
        c.fn_call.vals@.len(),
    ));
}

/// A loop renders as its own line, then its condition and each statement of
/// its body one level deeper, only the final statement a last child.
pub proof fn lemma_while_renders_its_body(w: WhileStmt, lv: Seq<bool>, is_last: bool)
    ensures
        while_text(w, lv, is_last) == indent_text(lv, is_last) + "WhileStmt\n"@ + bool_unit_text(
            *w.bool_unit,
            lv.push(is_last),
            false,
        ) + Seq::new(
            w.stmts@.len(),
            |i: int| stmt_text(w.stmts@[i], lv.push(is_last), i + 1 == w.stmts@.len()),
        ).flatten(),
{
    reveal_strlit("WhileStmt\n");
    reveal_strlit("WhileStmt");
    reveal_strlit("\n");
    let last_ok = true;
    let s = w.stmts@;
    let next = lv.push(is_last);
    lemma_stmts_text_flat(s, next, s.len(), last_ok);
    assert(Seq::new(s.len(), |i: int| stmt_text(s[i], next, last_ok && i + 1 == s.len())) =~= Seq::new(
        w.stmts@.len(),
        |i: int| stmt_text(w.stmts@[i], lv.push(is_last), i + 1 == w.stmts@.len()),
    ));
    assert("WhileStmt"@ + "\n"@ =~= "WhileStmt\n"@);
    assert(while_text(w, lv, is_last) =~= indent_text(lv, is_last) + "WhileStmt\n"@
        + bool_unit_text(*w.bool_unit, lv.push(is_last), false) + stmts_text(
        w.stmts@,
        lv.push(is_last),
        w.stmts@.len(),
        true,
    ));
}

/// A conditional renders as its own line, then its condition, every
/// statement of the branch taken (none of them a last child), then every
/// statement of the else branch, whose final statement alone is a last child.
pub proof fn lemma_if_renders_both_branches(s: IfStmt, lv: Seq<bool>, is_last: bool)
    ensures
        if_text(s, lv, is_last) == indent_text(lv, is_last) + "IfStmt\n"@ + bool_unit_text(
            *s.bool_unit,
            lv.push(is_last),
            false,
        ) + Seq::new(
            s.if_stmts@.len(),
            |i: int| stmt_text(s.if_stmts@[i], lv.push(is_last), false),
        ).flatten() + match s.else_stmts {
            Some(es) => Seq::new(
                es@.len(),
                |i: int| stmt_text(es@[i], lv.push(is_last), i + 1 == es@.len()),
            ).flatten(),
            None => Seq::empty(),
        },
{
    reveal_strlit("IfStmt\n");
    reveal_strlit("IfStmt");
    reveal_strlit("\n");
    let no_last = false;
    let ifs = s.if_stmts@;
    let next = lv.push(is_last);
    lemma_stmts_text_flat(ifs, next, ifs.len(), no_last);
    assert(Seq::new(ifs.len(), |i: int| stmt_text(ifs[i], next, no_last && i + 1 == ifs.len())) =~= Seq::new(
        s.if_stmts@.len(),
        |i: int| stmt_text(s.if_stmts@[i], lv.push(is_last), false),
    ));
    if let Some(es) = s.else_stmts {
        let last_ok = true;
        let e = es@;
        lemma_stmts_text_flat(e, next, e.len(), last_ok);
        assert(Seq::new(e.len(), |i: int| stmt_text(e[i], next, last_ok && i + 1 == e.len())) =~= Seq::new(
            es@.len(),
            |i: int| stmt_text(es@[i], lv.push(is_last), i + 1 == es@.len()),
        ));
    }
    assert("IfStmt"@ + "\n"@ =~= "IfStmt\n"@);
    assert(if_text(s, lv, is_last) =~= indent_text(lv, is_last) + "IfStmt\n"@ + bool_unit_text(
        *s.bool_unit,
        lv.push(is_last),
        false,
    ) + stmts_text(s.if_stmts@, lv.push(is_last), s.if_stmts@.len(), false) + match s.else_stmts {
        Some(es) => stmts_text(es@, lv.push(is_last), es@.len(), true),
        None => Seq::empty(),
    });
}

/// A function definition renders as its own line, then its signature (a last
/// child only when the body is empty), then each statement of its body, only
/// the final one a last child.
pub proof fn lemma_fn_def_renders_its_body(d: FnDef, lv: Seq<bool>, is_last: bool)
    ensures
        fn_def_text(d, lv, is_last) == indent_text(lv, is_last) + "FnDef "@ + d.fn_decl.identifier@
            + "\n"@ + fn_decl_text(*d.fn_decl, lv.push(is_last), d.stmts@.len() == 0) + Seq::new(
            d.stmts@.len(),
            |i: int| stmt_text(d.stmts@[i], lv.push(is_last), i + 1 == d.stmts@.len()),
        ).flatten(),
{
    let last_ok = true;
    let s = d.stmts@;
    let next = lv.push(is_last);
    lemma_stmts_text_flat(s, next, s.len(), last_ok);
    assert(Seq::new(s.len(), |i: int| stmt_text(s[i], next, last_ok && i + 1 == s.len())) =~= Seq::new(
        d.stmts@.len(),
        |i: int| stmt_text(d.stmts@[i], lv.push(is_last), i + 1 == d.stmts@.len()),
    ));
    assert(fn_def_text(d, lv, is_last) =~= indent_text(lv, is_last) + "FnDef "@
        + d.fn_decl.identifier@ + "\n"@ + fn_decl_text(
        *d.fn_decl,
        lv.push(is_last),
        d.stmts@.len() == 0,
    ) + stmts_text(d.stmts@, lv.push(is_last), d.stmts@.len(), true));
}

/// A list of declarations renders as its own line, then each declaration one
/// level deeper, only the final one a last child.
pub proof fn lemma_decl_list_renders_each_decl(v: Seq<VarDecl>, lv: Seq<bool>, is_last: bool)
    ensures
        var_decl_list_text(v, lv, is_last) == indent_text(lv, is_last) + "VarDeclList\n"@ + Seq::new(
            v.len(),
            |i: int| var_decl_text(v[i], lv.push(is_last), i + 1 == v.len()),
        ).flatten(),
{
    reveal_strlit("VarDeclList\n");
    reveal_strlit("VarDeclList");
    reveal_strlit("\n");
    let last_ok = true;
    let next = lv.push(is_last);
    lemma_var_decls_text_flat(v, next, v.len(), last_ok);
    assert(Seq::new(v.len(), |i: int| var_decl_text(v[i], next, last_ok && i + 1 == v.len()))
        =~= Seq::new(v.len(), |i: int| var_decl_text(v[i], lv.push(is_last), i + 1 == v.len())));
    assert("VarDeclList"@ + "\n"@ =~= "VarDeclList\n"@);
    assert(var_decl_list_text(v, lv, is_last) =~= indent_text(lv, is_last) + "VarDeclList\n"@
        + var_decls_text(v, lv.push(is_last), v.len(), true));
}

/// A program renders as its own line, then each top-level item one level
/// deeper, only the final one a last child.
pub proof fn lemma_program_renders_each_item(p: Program, lv: Seq<bool>, is_last: bool)
    ensures
        program_text(p, lv, is_last) == indent_text(lv, is_last) + "Program\n"@ + Seq::new(
            p.elements@.len(),
            |i: int| program_element_text(p.elements@[i], lv.push(is_last), i + 1 == p.elements@.len()),
        ).flatten(),
{
    reveal_strlit("Program\n");
    reveal_strlit("Program");
    reveal_strlit("\n");
    lemma_program_elements_text_flat(p.elements@, lv.push(is_last), p.elements@.len());
    assert("Program"@ + "\n"@ =~= "Program\n"@);
    assert(program_text(p, lv, is_last) =~= indent_text(lv, is_last) + "Program\n"@
        + program_elements_text(p.elements@, lv.push(is_last), p.elements@.len()));
}

/// Nodes with two operands render their own line, then the first operand,
/// then the second one as the last child, both one level deeper.
pub proof fn lemma_binary_nodes_render_both_operands(
    b: ArithBiOpExpr,
    c: BoolBiOpExpr,
    d: ComExpr,
    a: AssignmentStmt,
    x: ArrayExpr,
    lv: Seq<bool>,
    is_last: bool,
)
    ensures
        arith_biop_text(b, lv, is_last) == indent_text(lv, is_last) + "ArithBiOpExpr "@ + arith_op_text(
            b.op,
        ) + "\n"@ + arith_text(*b.left, lv.push(is_last), false) + arith_text(
            *b.right,
            lv.push(is_last),
            true,
        ),
        bool_biop_text(c, lv, is_last) == indent_text(lv, is_last) + "BoolBiOpExpr "@ + bool_op_text(
            c.op,
        ) + "\n"@ + bool_text(*c.left, lv.push(is_last), false) + bool_text(
            *c.right,
            lv.push(is_last),
            true,
        ),
        com_text(d, lv, is_last) == indent_text(lv, is_last) + "ComExpr "@ + com_op_text(d.op) + "\n"@
            + unit_text(*d.left, lv.push(is_last), false) + unit_text(*d.right, lv.push(is_last), true),
        assignment_text(a, lv, is_last) == indent_text(lv, is_last) + "AssignmentStmt"@ + "\n"@
            + left_val_text(*a.left_val, lv.push(is_last), false) + right_val_text(
            *a.right_val,
            lv.push(is_last),
            true,
        ),
        array_expr_text(x, lv, is_last) == indent_text(lv, is_last) + "ArrayExpr"@ + "\n"@
            + left_val_text(*x.arr, lv.push(is_last), false) + index_expr_text(
            x.idx,
            lv.push(is_last),
            true,
        ),
{
    assert(arith_biop_text(b, lv, is_last) =~= indent_text(lv, is_last) + "ArithBiOpExpr "@
        + arith_op_text(b.op) + "\n"@ + arith_text(*b.left, lv.push(is_last), false) + arith_text(
        *b.right,
        lv.push(is_last),
        true,
    ));
    assert(bool_biop_text(c, lv, is_last) =~= indent_text(lv, is_last) + "BoolBiOpExpr "@
        + bool_op_text(c.op) + "\n"@ + bool_text(*c.left, lv.push(is_last), false) + bool_text(
        *c.right,
        lv.push(is_last),
        true,
    ));
    assert(com_text(d, lv, is_last) =~= indent_text(lv, is_last) + "ComExpr "@ + com_op_text(d.op)
        + "\n"@ + unit_text(*d.left, lv.push(is_last), false) + unit_text(
        *d.right,
        lv.push(is_last),
        true,
    ));
    assert(assignment_text(a, lv, is_last) =~= indent_text(lv, is_last) + "AssignmentStmt"@ + "\n"@
        + left_val_text(*a.left_val, lv.push(is_last), false) + right_val_text(
        *a.right_val,
        lv.push(is_last),
        true,
    ));
    assert(array_expr_text(x, lv, is_last) =~= indent_text(lv, is_last) + "ArrayExpr"@ + "\n"@
        + left_val_text(*x.arr, lv.push(is_last), false) + index_expr_text(
        x.idx,
        lv.push(is_last),
        true,
    ));
}

/// A definition renders its own line, then its initializer one level
/// deeper: the scalar value as the last child, each value of an explicit
/// list in order (only the final one last), or a `fill x<count>` line
/// followed by the filling value as the last child.
#[verifier::rlimit(60)]
pub proof fn lemma_var_def_renders_its_initializer(d: VarDef, lv: Seq<bool>, is_last: bool)
    ensures
        ({
            let next = lv.push(is_last);
            let head = indent_text(lv, is_last) + "VarDef "@ + d.identifier@ + "\n"@;
            &&& d.inner matches VarDefInner::Scalar(sc) ==> var_def_text(d, lv, is_last) == head
                + right_val_text(*sc.val, next, true)
            &&& d.inner matches VarDefInner::Array(arr) ==> (arr.initializer matches ArrayInitializer::ExplicitList(
                vals,
            ) ==> var_def_text(d, lv, is_last) == head + Seq::new(
                vals@.len(),
                |i: int| right_val_text(vals@[i], next, i + 1 == vals@.len()),
            ).flatten())
            &&& d.inner matches VarDefInner::Array(arr) ==> (arr.initializer matches ArrayInitializer::Fill {
                val,
                count,
            } ==> var_def_text(d, lv, is_last) == head + indent_text(next, false) + "fill x"@
                + nat_text(count as nat) + "\n"@ + right_val_text(*val, next, true))
        }),
{
    let next = lv.push(is_last);
    let head = indent_text(lv, is_last) + "VarDef "@ + d.identifier@ + "\n"@;
    match d.inner {
        VarDefInner::Scalar(sc) => {
            assert(var_def_text(d, lv, is_last) =~= head + right_val_text(*sc.val, next, true));
        },
        VarDefInner::Array(arr) => match arr.initializer {
            ArrayInitializer::ExplicitList(vals) => {
                lemma_right_vals_text_flat(vals@, next, vals@.len());
                assert(var_def_text(d, lv, is_last) =~= head + right_vals_text(
                    vals@,
                    next,
                    vals@.len(),
                ));
            },
            ArrayInitializer::Fill { val, count } => {
                assert(var_def_text(d, lv, is_last) =~= head + indent_text(next, false) + "fill x"@
                    + nat_text(count as nat) + "\n"@ + right_val_text(*val, next, true));
            },
        },
    }
}

/// A signature renders its own line, then each parameter one level deeper
/// in order, then a `return:` line with the return type; the final line of
/// the node is its last child.
pub proof fn lemma_fn_decl_renders_params_and_return(d: FnDecl, lv: Seq<bool>, is_last: bool)
    ensures
        ({
            let next = lv.push(is_last);
            let params = match d.param_decl {
                Some(p) => Seq::new(
                    p.decls@.len(),
                    |i: int| var_decl_text(
                        p.decls@[i],
                        next,
                        d.return_dtype is None && i + 1 == p.decls@.len(),
                    ),
                ).flatten(),
                None => Seq::empty(),
            };
            let ret = match d.return_dtype {
                Some(t) => indent_text(next, true) + "return: "@ + type_text(t) + "\n"@,
                None => Seq::empty(),
            };
            fn_decl_text(d, lv, is_last) == indent_text(lv, is_last) + "FnDecl "@ + d.identifier@
                + "\n"@ + params + ret
        }),
{
    let next = lv.push(is_last);
    if let Some(p) = d.param_decl {
        let last_ok = d.return_dtype is None;
        let ds = p.decls@;
        lemma_var_decls_text_flat(ds, next, ds.len(), last_ok);
        assert(Seq::new(ds.len(), |i: int| var_decl_text(ds[i], next, last_ok && i + 1 == ds.len()))
            =~= Seq::new(
            p.decls@.len(),
            |i: int| var_decl_text(p.decls@[i], next, d.return_dtype is None && i + 1 == p.decls@.len()),
        ));
    }
    let params = match d.param_decl {
        Some(p) => Seq::new(
            p.decls@.len(),
            |i: int| var_decl_text(p.decls@[i], next, d.return_dtype is None && i + 1 == p.decls@.len()),
        ).flatten(),
        None => Seq::empty(),
    };
    let ret = match d.return_dtype {
        Some(t) => indent_text(next, true) + "return: "@ + type_text(t) + "\n"@,
        None => Seq::empty(),
    };
    assert(fn_decl_text(d, lv, is_last) =~= indent_text(lv, is_last) + "FnDecl "@ + d.identifier@
        + "\n"@ + params + ret);
}

/// Nodes with one child render their own line, then that child one level
/// deeper as the last child; a return without value renders its line alone.
pub proof fn lemma_single_child_nodes(
    r: RightVal,
    e: ArithExpr,
    be: BoolExpr,
    bu: BoolUnit,
    n: BoolUOpExpr,
    m: MemberExpr,
    st: StructDef,
    ret: ReturnStmt,
    vs: VarDeclStmt,
    lv: Seq<bool>,
    is_last: bool,
)
    ensures
        ({
            let next = lv.push(is_last);
            &&& right_val_text(r, lv, is_last) == indent_text(lv, is_last) + "RightVal"@ + "\n"@
                + match r.inner {
                RightValInner::ArithExpr(x) => arith_text(*x, next, true),
                RightValInner::BoolExpr(x) => bool_text(*x, next, true),
            }
            &&& arith_text(e, lv, is_last) == indent_text(lv, is_last) + "ArithExpr"@ + "\n"@
                + match e.inner {
                ArithExprInner::ArithBiOpExpr(x) => arith_biop_text(*x, next, true),
                ArithExprInner::CastExpr(x) => cast_text(*x, next, true),
            }
            &&& bool_text(be, lv, is_last) == indent_text(lv, is_last) + "BoolExpr"@ + "\n"@
                + match be.inner {
                BoolExprInner::BoolBiOpExpr(x) => bool_biop_text(*x, next, true),
                BoolExprInner::BoolUnit(x) => bool_unit_text(*x, next, true),
            }
            &&& bool_unit_text(bu, lv, is_last) == indent_text(lv, is_last) + "BoolUnit"@ + "\n"@
                + match bu.inner {
                BoolUnitInner::ComExpr(x) => com_text(*x, next, true),
                BoolUnitInner::BoolExpr(x) => bool_text(*x, next, true),
                BoolUnitInner::BoolUOpExpr(x) => bool_uop_text(*x, next, true),
            }
            &&& bool_uop_text(n, lv, is_last) == indent_text(lv, is_last) + "BoolUOpExpr "@ + uop_text(
                n.op,
            ) + "\n"@ + bool_unit_text(*n.cond, next, true)
            &&& member_expr_text(m, lv, is_last) == indent_text(lv, is_last) + "MemberExpr "@
                + m.member_id@ + "\n"@ + left_val_text(*m.struct_id, next, true)
            &&& struct_def_text(st, lv, is_last) == indent_text(lv, is_last) + "StructDef "@
                + st.identifier@ + "\n"@ + var_decl_list_text(st.decls@, next, true)
            &&& return_text(ret, lv, is_last) == indent_text(lv, is_last) + "ReturnStmt"@ + "\n"@
                + match ret.val {
                Some(v) => right_val_text(*v, next, true),
                None => Seq::empty(),
            }
            &&& var_decl_stmt_text(vs, lv, is_last) == indent_text(lv, is_last) + "VarDeclStmt"@
                + "\n"@ + match vs.inner {
                VarDeclStmtInner::Decl(x) => var_decl_text(*x, next, true),
                VarDeclStmtInner::Def(x) => var_def_text(*x, next, true),
            }
        }),
{
    let next = lv.push(is_last);
    assert(right_val_text(r, lv, is_last) =~= indent_text(lv, is_last) + "RightVal"@ + "\n"@
        + match r.inner {
        RightValInner::ArithExpr(x) => arith_text(*x, next, true),
        RightValInner::BoolExpr(x) => bool_text(*x, next, true),
    });
    assert(arith_text(e, lv, is_last) =~= indent_text(lv, is_last) + "ArithExpr"@ + "\n"@
        + match e.inner {
        ArithExprInner::ArithBiOpExpr(x) => arith_biop_text(*x, next, true),
        ArithExprInner::CastExpr(x) => cast_text(*x, next, true),
    });
    assert(bool_text(be, lv, is_last) =~= indent_text(lv, is_last) + "BoolExpr"@ + "\n"@
        + match be.inner {
        BoolExprInner::BoolBiOpExpr(x) => bool_biop_text(*x, next, true),
        BoolExprInner::BoolUnit(x) => bool_unit_text(*x, next, true),
    });
    assert(bool_unit_text(bu, lv, is_last) =~= indent_text(lv, is_last) + "BoolUnit"@ + "\n"@
        + match bu.inner {
        BoolUnitInner::ComExpr(x) => com_text(*x, next, true),
        BoolUnitInner::BoolExpr(x) => bool_text(*x, next, true),
        BoolUnitInner::BoolUOpExpr(x) => bool_uop_text(*x, next, true),
    });
    assert(bool_uop_text(n, lv, is_last) =~= indent_text(lv, is_last) + "BoolUOpExpr "@ + uop_text(
        n.op,
    ) + "\n"@ + bool_unit_text(*n.cond, next, true));
    assert(member_expr_text(m, lv, is_last) =~= indent_text(lv, is_last) + "MemberExpr "@
        + m.member_id@ + "\n"@ + left_val_text(*m.struct_id, next, true));
    assert(struct_def_text(st, lv, is_last) =~= indent_text(lv, is_last) + "StructDef "@
        + st.identifier@ + "\n"@ + var_decl_list_text(st.decls@, next, true));
    assert(return_text(ret, lv, is_last) =~= indent_text(lv, is_last) + "ReturnStmt"@ + "\n"@
        + match ret.val {
        Some(v) => right_val_text(*v, next, true),
        None => Seq::empty(),
    });
    assert(var_decl_stmt_text(vs, lv, is_last) =~= indent_text(lv, is_last) + "VarDeclStmt"@ + "\n"@
        + match vs.inner {
        VarDeclStmtInner::Decl(x) => var_decl_text(*x, next, true),
        VarDeclStmtInner::Def(x) => var_def_text(*x, next, true),
    });
}

// ---------------------------------------------------------------------------
// Writers of text pieces.
pub fn tree_indent(indent_levels: &[bool], is_last: bool) -> (s: String)
    ensures
        s@ == indent_text(indent_levels@, is_last),
{
    let mut s = String::new();
    let mut i: usize = 0;
    while i < indent_levels.len()
        invariant
            0 <= i <= indent_levels@.len(),
            s@ == levels_text(indent_levels@.take(i as int)),
        decreases indent_levels@.len() - i,
    {
        let last = indent_levels[i];
        if last {
            s.append("   ");
        } else {
            s.append("|  ");
        }
        assert(indent_levels@.take(i + 1).drop_last() =~= indent_levels@.take(i as int));
        i = i + 1;
    }
    assert(indent_levels@.take(i as int) =~= indent_levels@);
    if is_last {
        s.append("`--");
    } else {
        s.append("|--");
    }
    s
}

/// The levels of a node's children.
fn next_levels(indent_levels: &[bool], is_last: bool) -> (v: Vec<bool>)
    ensures
        v@ == child_levels(indent_levels@, is_last),
{
    let mut v = vstd::slice::slice_to_vec(indent_levels);
    v.push(is_last);
    v
}

/// Writes a node's line with description `text`.
fn write_line(f: &mut String, indent_levels: &[bool], is_last: bool, text: &str)
    ensures
        final(f)@ == old(f)@ + line_text(indent_levels@, is_last, text@),
{
    let prefix = tree_indent(indent_levels, is_last);
    f.append(prefix.as_str());
    f.append(text);
    f.append("\n");
    assert(f@ =~= old(f)@ + line_text(indent_levels@, is_last, text@));
}

/// Writes a node's line with description `a` followed by `b`.
fn write_line2(f: &mut String, indent_levels: &[bool], is_last: bool, a: &str, b: &str)
    ensures
        final(f)@ == old(f)@ + line_text(indent_levels@, is_last, a@ + b@),
{
    let prefix = tree_indent(indent_levels, is_last);
    f.append(prefix.as_str());
    f.append(a);
    f.append(b);
    f.append("\n");
    assert(f@ =~= old(f)@ + line_text(indent_levels@, is_last, a@ + b@));
}

/// Appends the decimal digit `d`.
fn append_digit(s: &mut String, d: u64)
    requires
        d < 10,
    ensures
        final(s)@ == old(s)@ + digit_text(d as nat),
{
    if d == 0 {
        s.append("0");
    } else if d == 1 {
        s.append("1");
    } else if d == 2 {
        s.append("2");
    } else if d == 3 {
        s.append("3");
    } else if d == 4 {
        s.append("4");
    } else if d == 5 {
        s.append("5");
    } else if d == 6 {
        s.append("6");
    } else if d == 7 {
        s.append("7");
    } else if d == 8 {
        s.append("8");
    } else {
        s.append("9");
    }
}

/// Appends the decimal numeral of `n`.
pub fn append_nat(s: &mut String, n: u64)
    ensures
        final(s)@ == old(s)@ + nat_text(n as nat),
    decreases n,
{
    if n >= 10 {
        append_nat(s, n / 10);
        append_digit(s, n % 10);
        assert(s@ =~= old(s)@ + nat_text(n as nat));
    } else {
        append_digit(s, n);
    }
}

/// Appends the decimal numeral of `n`, with a minus sign when negative.
pub fn append_int(s: &mut String, n: i32)
    ensures
        final(s)@ == old(s)@ + int_text(n as int),
{
    if n < 0 {
        s.append("-");
        let magnitude: i64 = -(n as i64);
        append_nat(s, magnitude as u64);
        assert(s@ =~= old(s)@ + int_text(n as int));
    } else {
        append_nat(s, n as u64);
    }
}

/// Appends the written form of a type.
pub fn append_type(s: &mut String, ts: &TypeSpecifier)
    ensures
        final(s)@ == old(s)@ + type_text(*ts),
    decreases ts,
{
    match &ts.inner {
        TypeSpecifierInner::BuiltIn(BuiltIn::Int) => s.append("int"),
        TypeSpecifierInner::BuiltIn(BuiltIn::Float) => s.append("float"),
        TypeSpecifierInner::Composite(name) => s.append(name.as_str()),
        TypeSpecifierInner::Reference(inner) => {
            s.append("&[");
            append_type(s, inner);
            s.append("]");
        },
        TypeSpecifierInner::Array(inner, len) => {
            s.append("[");
            append_type(s, inner);
            s.append("; ");
            append_nat(s, *len as u64);
            s.append("]");
        },
    }
    assert(s@ =~= old(s)@ + type_text(*ts));
}

/// Appends the written form of an optional type.
fn append_opt_type(s: &mut String, ts: &Option<TypeSpecifier>)
    ensures
        final(s)@ == old(s)@ + opt_type_text(*ts),
{
    match ts {
        Some(t) => append_type(s, t),
        None => s.append("unknown"),
    }
}

impl FnCall {
    /// The name of the called function, with its module prefix if any.
    pub fn qualified_name(&self) -> (s: String)
        ensures
            s@ == qualified_name_text(*self),
    {
        let mut s = String::new();
        if let Some(prefix) = &self.module_prefix {
            s.append(prefix.as_str());
            s.append("::");
        }
        s.append(self.name.as_str());
        assert(s@ =~= qualified_name_text(*self));
        s
    }
}

fn arith_op_str(op: ArithBiOp) -> (s: &'static str)
    ensures
        s@ == arith_op_text(op),
{
    match op {
        ArithBiOp::Add => "Add",
        ArithBiOp::Sub => "Sub",
        ArithBiOp::Mul => "Mul",
        ArithBiOp::Div => "Div",
    }
}

fn bool_op_str(op: BoolBiOp) -> (s: &'static str)
    ensures
        s@ == bool_op_text(op),
{
    match op {
        BoolBiOp::And => "And",
        BoolBiOp::Or => "Or",
    }
}

fn com_op_str(op: ComOp) -> (s: &'static str)
    ensures
        s@ == com_op_text(op),
{
    match op {
        ComOp::Lt => "Lt",
        ComOp::Eq => "Eq",
        ComOp::Ge => "Ge",
        ComOp::Gt => "Gt",
        ComOp::Le => "Le",
        ComOp::Ne => "Ne",
    }
}

fn uop_str(op: BoolUOp) -> (s: &'static str)
    ensures
        s@ == uop_text(op),
{
    match op {
        BoolUOp::Not => "Not",
    }
}

// ---------------------------------------------------------------------------
// Writers of expression nodes.
fn write_right_val(r: &RightVal, f: &mut String, indent_levels: &[bool], is_last: bool)
    ensures
        final(f)@ == old(f)@ + right_val_text(*r, indent_levels@, is_last),
    decreases r, 0nat,
{
    write_line(f, indent_levels, is_last, "RightVal");
    let next = next_levels(indent_levels, is_last);
    match &r.inner {
        RightValInner::ArithExpr(expr) => write_arith_expr(expr, f, next.as_slice(), true),
        RightValInner::BoolExpr(expr) => write_bool_expr(expr, f, next.as_slice(), true),
    }
    assert(f@ =~= old(f)@ + right_val_text(*r, indent_levels@, is_last));
}

fn write_left_val(l: &LeftVal, f: &mut String, indent_levels: &[bool], is_last: bool)
    ensures
        final(f)@ == old(f)@ + left_val_text(*l, indent_levels@, is_last),
    decreases l, 0nat,
{
    write_line(f, indent_levels, is_last, "LeftVal");
    let next = next_levels(indent_levels, is_last);
    match &l.inner {
        LeftValInner::Id(id) => {
            let mut t = String::new();
            t.append("Id(");
            t.append(id.as_str());
            t.append(")");
            write_line(f, next.as_slice(), true, t.as_str());
        },
        LeftValInner::ArrayExpr(expr) => write_array_expr(expr, f, next.as_slice(), true),
        LeftValInner::MemberExpr(expr) => write_member_expr(expr, f, next.as_slice(), true),
    }
    assert(f@ =~= old(f)@ + left_val_text(*l, indent_levels@, is_last));
}

fn write_array_expr(a: &ArrayExpr, f: &mut String, indent_levels: &[bool], is_last: bool)
    ensures
        final(f)@ == old(f)@ + array_expr_text(*a, indent_levels@, is_last),
    decreases a, 0nat,
{
    write_line(f, indent_levels, is_last, "ArrayExpr");
    let next = next_levels(indent_levels, is_last);
    write_left_val(&a.arr, f, next.as_slice(), false);
    write_index_expr(&a.idx, f, next.as_slice(), true);
    assert(f@ =~= old(f)@ + array_expr_text(*a, indent_levels@, is_last));
}

fn write_member_expr(m: &MemberExpr, f: &mut String, indent_levels: &[bool], is_last: bool)
    ensures
        final(f)@ == old(f)@ + member_expr_text(*m, indent_levels@, is_last),
    decreases m, 0nat,
{
    write_line2(f, indent_levels, is_last, "MemberExpr ", m.member_id.as_str());
    let next = next_levels(indent_levels, is_last);
    write_left_val(&m.struct_id, f, next.as_slice(), true);
    assert(f@ =~= old(f)@ + member_expr_text(*m, indent_levels@, is_last));
}

fn write_index_expr(i: &IndexExpr, f: &mut String, indent_levels: &[bool], is_last: bool)
    ensures
        final(f)@ == old(f)@ + index_expr_text(*i, indent_levels@, is_last),
{
    let mut t = String::new();
    match &i.inner {
        IndexExprInner::Num(n) => {
            t.append("IndexExpr Num(");
            append_nat(&mut t, *n as u64);
        },
        IndexExprInner::Id(id) => {
            t.append("IndexExpr Id(");
            t.append(id.as_str());
        },
    }
    t.append(")");
    write_line(f, indent_levels, is_last, t.as_str());
    assert(f@ =~= old(f)@ + index_expr_text(*i, indent_levels@, is_last));
}

fn write_arith_expr(e: &ArithExpr, f: &mut String, indent_levels: &[bool], is_last: bool)
    ensures
        final(f)@ == old(f)@ + arith_text(*e, indent_levels@, is_last),
    decreases e, 0nat,
{
    write_line(f, indent_levels, is_last, "ArithExpr");
    let next = next_levels(indent_levels, is_last);
    match &e.inner {
        ArithExprInner::ArithBiOpExpr(expr) => write_arith_biop_expr(expr, f, next.as_slice(), true),
        ArithExprInner::CastExpr(cast) => write_cast_expr(cast, f, next.as_slice(), true),
    }
    assert(f@ =~= old(f)@ + arith_text(*e, indent_levels@, is_last));
}

fn write_arith_biop_expr(b: &ArithBiOpExpr, f: &mut String, indent_levels: &[bool], is_last: bool)
    ensures
        final(f)@ == old(f)@ + arith_biop_text(*b, indent_levels@, is_last),
    decreases b, 0nat,
{
    write_line2(f, indent_levels, is_last, "ArithBiOpExpr ", arith_op_str(b.op));
    let next = next_levels(indent_levels, is_last);
    write_arith_expr(&b.left, f, next.as_slice(), false);
    write_arith_expr(&b.right, f, next.as_slice(), true);
    assert(f@ =~= old(f)@ + arith_biop_text(*b, indent_levels@, is_last));
}

fn write_cast_expr(c: &CastExpr, f: &mut String, indent_levels: &[bool], is_last: bool)
    ensures
        final(f)@ == old(f)@ + cast_text(*c, indent_levels@, is_last),
    decreases c, 0nat,
{
    match &c.inner {
        CastExprInner::CastOpExpr(op) => write_cast_op_expr(op, f, indent_levels, is_last),
        CastExprInner::ExprUnit(unit) => write_expr_unit(unit, f, indent_levels, is_last),
    }
}

fn write_cast_op_expr(c: &CastOpExpr, f: &mut String, indent_levels: &[bool], is_last: bool)
    ensures
        final(f)@ == old(f)@ + cast_op_text(*c, indent_levels@, is_last),
    decreases c, 0nat,
{
    write_line(f, indent_levels, is_last, "CastExpr");
    let next = next_levels(indent_levels, is_last);
    write_expr_unit(&c.expr, f, next.as_slice(), false);
    let mut t = String::new();
    t.append("target: ");
    append_opt_type(&mut t, &c.type_specifier);
    write_line(f, next.as_slice(), true, t.as_str());
    assert(f@ =~= old(f)@ + cast_op_text(*c, indent_levels@, is_last));
}

fn write_expr_unit(u: &ExprUnit, f: &mut String, indent_levels: &[bool], is_last: bool)
    ensures
        final(f)@ == old(f)@ + unit_text(*u, indent_levels@, is_last),
    decreases u, 0nat,
{
    write_line(f, indent_levels, is_last, "ExprUnit");
    let next = next_levels(indent_levels, is_last);
    match &u.inner {
        ExprUnitInner::Num(n) => {
            let mut t = String::new();
            t.append("Num(");
            append_int(&mut t, *n);
            t.append(")");
            write_line(f, next.as_slice(), true, t.as_str());
        },
        ExprUnitInner::Float(v) => {
            let mut t = String::new();
            t.append("Float(");
            t.append(v.as_str());
            t.append(")");
            write_line(f, next.as_slice(), true, t.as_str());
        },
        ExprUnitInner::Id(id) => {
            let mut t = String::new();
            t.append("Id(");
            t.append(id.as_str());
            t.append(")");
            write_line(f, next.as_slice(), true, t.as_str());
        },
        ExprUnitInner::ArithExpr(expr) => write_arith_expr(expr, f, next.as_slice(), true),
        ExprUnitInner::FnCall(call) => write_fn_call(call, f, next.as_slice(), true),
        ExprUnitInner::ArrayExpr(expr) => write_array_expr(expr, f, next.as_slice(), true),
        ExprUnitInner::MemberExpr(expr) => write_member_expr(expr, f, next.as_slice(), true),
        ExprUnitInner::Reference(id) => {
            let mut t = String::new();
            t.append("Ref(");
            t.append(id.as_str());
            t.append(")");
            write_line(f, next.as_slice(), true, t.as_str());
        },
    }
    assert(f@ =~= old(f)@ + unit_text(*u, indent_levels@, is_last));
}

fn write_fn_call(c: &FnCall, f: &mut String, indent_levels: &[bool], is_last: bool)
    ensures
        final(f)@ == old(f)@ + fn_call_text(*c, indent_levels@, is_last),
    decreases c, 0nat,
{
    let name = c.qualified_name();
    write_line2(f, indent_levels, is_last, "FnCall ", name.as_str());
    let next = next_levels(indent_levels, is_last);
    write_right_vals(&c.vals, f, next.as_slice());
    assert(f@ =~= old(f)@ + fn_call_text(*c, indent_levels@, is_last));
}

fn write_bool_expr(e: &BoolExpr, f: &mut String, indent_levels: &[bool], is_last: bool)
    ensures
        final(f)@ == old(f)@ + bool_text(*e, indent_levels@, is_last),
    decreases e, 0nat,
{
    write_line(f, indent_levels, is_last, "BoolExpr");
    let next = next_levels(indent_levels, is_last);
    match &e.inner {
        BoolExprInner::BoolBiOpExpr(expr) => write_bool_biop_expr(expr, f, next.as_slice(), true),
        BoolExprInner::BoolUnit(unit) => write_bool_unit(unit, f, next.as_slice(), true),
    }
    assert(f@ =~= old(f)@ + bool_text(*e, indent_levels@, is_last));
}

fn write_bool_biop_expr(b: &BoolBiOpExpr, f: &mut String, indent_levels: &[bool], is_last: bool)
    ensures
        final(f)@ == old(f)@ + bool_biop_text(*b, indent_levels@, is_last),
    decreases b, 0nat,
{
    write_line2(f, indent_levels, is_last, "BoolBiOpExpr ", bool_op_str(b.op));
    let next = next_levels(indent_levels, is_last);
    write_bool_expr(&b.left, f, next.as_slice(), false);
    write_bool_expr(&b.right, f, next.as_slice(), true);
    assert(f@ =~= old(f)@ + bool_biop_text(*b, indent_levels@, is_last));
}

fn write_bool_unit(u: &BoolUnit, f: &mut String, indent_levels: &[bool], is_last: bool)
    ensures
        final(f)@ == old(f)@ + bool_unit_text(*u, indent_levels@, is_last),
    decreases u, 0nat,
{
    write_line(f, indent_levels, is_last, "BoolUnit");
    let next = next_levels(indent_levels, is_last);
    match &u.inner {
        BoolUnitInner::ComExpr(expr) => write_com_expr(expr, f, next.as_slice(), true),
        BoolUnitInner::BoolExpr(expr) => write_bool_expr(expr, f, next.as_slice(), true),
        BoolUnitInner::BoolUOpExpr(expr) => write_bool_uop_expr(expr, f, next.as_slice(), true),
    }
    assert(f@ =~= old(f)@ + bool_unit_text(*u, indent_levels@, is_last));
}

fn write_com_expr(c: &ComExpr, f: &mut String, indent_levels: &[bool], is_last: bool)
    ensures
        final(f)@ == old(f)@ + com_text(*c, indent_levels@, is_last),
    decreases c, 0nat,
{
    write_line2(f, indent_levels, is_last, "ComExpr ", com_op_str(c.op));
    let next = next_levels(indent_levels, is_last);
    write_expr_unit(&c.left, f, next.as_slice(), false);
    write_expr_unit(&c.right, f, next.as_slice(), true);
    assert(f@ =~= old(f)@ + com_text(*c, indent_levels@, is_last));
}

fn write_bool_uop_expr(n: &BoolUOpExpr, f: &mut String, indent_levels: &[bool], is_last: bool)
    ensures
        final(f)@ == old(f)@ + bool_uop_text(*n, indent_levels@, is_last),
    decreases n, 0nat,
{
    write_line2(f, indent_levels, is_last, "BoolUOpExpr ", uop_str(n.op));
    let next = next_levels(indent_levels, is_last);
    write_bool_unit(&n.cond, f, next.as_slice(), true);
    assert(f@ =~= old(f)@ + bool_uop_text(*n, indent_levels@, is_last));
}

/// Writes a sequence of right values; only the final one is a last child.
fn write_right_vals(vals: &Vec<RightVal>, f: &mut String, indent_levels: &[bool])
    ensures
        final(f)@ == old(f)@ + right_vals_text(vals@, indent_levels@, vals@.len()),
    decreases vals, 0nat,
{
    let n = vals.len();
    let mut i: usize = 0;
    while i < n
        invariant
            n == vals@.len(),
            0 <= i <= n,
            f@ == old(f)@ + right_vals_text(vals@, indent_levels@, i as nat),
        decreases n - i,
    {
        proof {
            assert(decreases_to!(vals => vals[i as int]));
        }
        write_right_val(&vals[i], f, indent_levels, i + 1 == n);
        i = i + 1;
        assert(f@ =~= old(f)@ + right_vals_text(vals@, indent_levels@, i as nat));
    }
}

// ---------------------------------------------------------------------------
// Writers of declarations, statements and programs.
fn write_var_decl(d: &VarDecl, f: &mut String, indent_levels: &[bool], is_last: bool)
    ensures
        final(f)@ == old(f)@ + var_decl_text(*d, indent_levels@, is_last),
{
    let mut t = String::new();
    t.append(d.identifier.as_str());
    t.append(": ");
    append_opt_type(&mut t, &d.type_specifier);
    write_line(f, indent_levels, is_last, t.as_str());
    assert(f@ =~= old(f)@ + var_decl_text(*d, indent_levels@, is_last));
}

/// Writes a sequence of declarations; the final one is a last child when `last_ok`.
fn write_var_decls(decls: &Vec<VarDecl>, f: &mut String, indent_levels: &[bool], last_ok: bool)
    ensures
        final(f)@ == old(f)@ + var_decls_text(decls@, indent_levels@, decls@.len(), last_ok),
{
    let n = decls.len();
    let mut i: usize = 0;
    while i < n
        invariant
            n == decls@.len(),
            0 <= i <= n,
            f@ == old(f)@ + var_decls_text(decls@, indent_levels@, i as nat, last_ok),
        decreases n - i,
    {
        write_var_decl(&decls[i], f, indent_levels, last_ok && i + 1 == n);
        i = i + 1;
        assert(f@ =~= old(f)@ + var_decls_text(decls@, indent_levels@, i as nat, last_ok));
    }
}

fn write_var_decl_list(v: &Vec<VarDecl>, f: &mut String, indent_levels: &[bool], is_last: bool)
    ensures
        final(f)@ == old(f)@ + var_decl_list_text(v@, indent_levels@, is_last),
{
    write_line(f, indent_levels, is_last, "VarDeclList");
    let next = next_levels(indent_levels, is_last);
    write_var_decls(v, f, next.as_slice(), true);
    assert(f@ =~= old(f)@ + var_decl_list_text(v@, indent_levels@, is_last));
}

fn write_var_def(d: &VarDef, f: &mut String, indent_levels: &[bool], is_last: bool)
    ensures
        final(f)@ == old(f)@ + var_def_text(*d, indent_levels@, is_last),
{
    write_line2(f, indent_levels, is_last, "VarDef ", d.identifier.as_str());
    let next = next_levels(indent_levels, is_last);
    match &d.inner {
        VarDefInner::Scalar(sc) => write_right_val(&sc.val, f, next.as_slice(), true),
        VarDefInner::Array(arr) => match &arr.initializer {
            ArrayInitializer::ExplicitList(vals) => write_right_vals(vals, f, next.as_slice()),
            ArrayInitializer::Fill { val, count } => {
                let mut t = String::new();
                t.append("fill x");
                append_nat(&mut t, *count as u64);
                write_line(f, next.as_slice(), false, t.as_str());
                write_right_val(val, f, next.as_slice(), true);
            },
        },
    }
    assert(f@ =~= old(f)@ + var_def_text(*d, indent_levels@, is_last));
}

fn write_var_decl_stmt_inner(
    d: &VarDeclStmtInner,
    f: &mut String,
    indent_levels: &[bool],
    is_last: bool,
)
    ensures
        final(f)@ == old(f)@ + var_decl_stmt_inner_text(*d, indent_levels@, is_last),
{
    match d {
        VarDeclStmtInner::Decl(v) => write_var_decl(v, f, indent_levels, is_last),
        VarDeclStmtInner::Def(v) => write_var_def(v, f, indent_levels, is_last),
    }
}

fn write_var_decl_stmt(d: &VarDeclStmt, f: &mut String, indent_levels: &[bool], is_last: bool)
    ensures
        final(f)@ == old(f)@ + var_decl_stmt_text(*d, indent_levels@, is_last),
{
    write_line(f, indent_levels, is_last, "VarDeclStmt");
    let next = next_levels(indent_levels, is_last);
    write_var_decl_stmt_inner(&d.inner, f, next.as_slice(), true);
    assert(f@ =~= old(f)@ + var_decl_stmt_text(*d, indent_levels@, is_last));
}

fn write_fn_decl(d: &FnDecl, f: &mut String, indent_levels: &[bool], is_last: bool)
    ensures
        final(f)@ == old(f)@ + fn_decl_text(*d, indent_levels@, is_last),
{
    write_line2(f, indent_levels, is_last, "FnDecl ", d.identifier.as_str());
    let next = next_levels(indent_levels, is_last);
    if let Some(params) = &d.param_decl {
        write_var_decls(&params.decls, f, next.as_slice(), d.return_dtype.is_none());
    }
    if let Some(ret) = &d.return_dtype {
        let mut t = String::new();
        t.append("return: ");
        append_type(&mut t, ret);
        write_line(f, next.as_slice(), true, t.as_str());
    }
    assert(f@ =~= old(f)@ + fn_decl_text(*d, indent_levels@, is_last));
}

fn write_struct_def(d: &StructDef, f: &mut String, indent_levels: &[bool], is_last: bool)
    ensures
        final(f)@ == old(f)@ + struct_def_text(*d, indent_levels@, is_last),
{
    write_line2(f, indent_levels, is_last, "StructDef ", d.identifier.as_str());
    let next = next_levels(indent_levels, is_last);
    write_var_decl_list(&d.decls, f, next.as_slice(), true);
    assert(f@ =~= old(f)@ + struct_def_text(*d, indent_levels@, is_last));
}

fn write_assignment(a: &AssignmentStmt, f: &mut String, indent_levels: &[bool], is_last: bool)
    ensures
        final(f)@ == old(f)@ + assignment_text(*a, indent_levels@, is_last),
{
    write_line(f, indent_levels, is_last, "AssignmentStmt");
    let next = next_levels(indent_levels, is_last);
    write_left_val(&a.left_val, f, next.as_slice(), false);
    write_right_val(&a.right_val, f, next.as_slice(), true);
    assert(f@ =~= old(f)@ + assignment_text(*a, indent_levels@, is_last));
}

fn write_call_stmt(c: &CallStmt, f: &mut String, indent_levels: &[bool], is_last: bool)
    ensures
        final(f)@ == old(f)@ + call_stmt_text(*c, indent_levels@, is_last),
{
    let name = c.fn_call.qualified_name();
    write_line2(f, indent_levels, is_last, "CallStmt ", name.as_str());
    let next = next_levels(indent_levels, is_last);
    write_right_vals(&c.fn_call.vals, f, next.as_slice());
    assert(f@ =~= old(f)@ + call_stmt_text(*c, indent_levels@, is_last));
}

fn write_return(r: &ReturnStmt, f: &mut String, indent_levels: &[bool], is_last: bool)
    ensures
        final(f)@ == old(f)@ + return_text(*r, indent_levels@, is_last),
{
    write_line(f, indent_levels, is_last, "ReturnStmt");
    if let Some(v) = &r.val {
        let next = next_levels(indent_levels, is_last);
        write_right_val(v, f, next.as_slice(), true);
    }
    assert(f@ =~= old(f)@ + return_text(*r, indent_levels@, is_last));
}

fn write_stmt(c: &CodeBlockStmt, f: &mut String, indent_levels: &[bool], is_last: bool)
    ensures
        final(f)@ == old(f)@ + stmt_text(*c, indent_levels@, is_last),
    decreases c, 0nat,
{
    write_stmt_inner(&c.inner, f, indent_levels, is_last)
}

fn write_stmt_inner(c: &CodeBlockStmtInner, f: &mut String, indent_levels: &[bool], is_last: bool)
    ensures
        final(f)@ == old(f)@ + stmt_inner_text(*c, indent_levels@, is_last),
    decreases c, 0nat,
{
    match c {
        CodeBlockStmtInner::VarDecl(stmt) => write_var_decl_stmt(stmt, f, indent_levels, is_last),
        CodeBlockStmtInner::Assignment(stmt) => write_assignment(stmt, f, indent_levels, is_last),
        CodeBlockStmtInner::Call(stmt) => write_call_stmt(stmt, f, indent_levels, is_last),
        CodeBlockStmtInner::If(stmt) => write_if(stmt, f, indent_levels, is_last),
        CodeBlockStmtInner::While(stmt) => write_while(stmt, f, indent_levels, is_last),
        CodeBlockStmtInner::Return(stmt) => write_return(stmt, f, indent_levels, is_last),
        CodeBlockStmtInner::Continue(_) => write_line(f, indent_levels, is_last, "ContinueStmt"),
        CodeBlockStmtInner::Break(_) => write_line(f, indent_levels, is_last, "BreakStmt"),
        CodeBlockStmtInner::Null(_) => write_line(f, indent_levels, is_last, "NullStmt"),
    }
}

/// Writes a sequence of statements; the final one is a last child when `last_ok`.
fn write_stmts(stmts: &Vec<CodeBlockStmt>, f: &mut String, indent_levels: &[bool], last_ok: bool)
    ensures
        final(f)@ == old(f)@ + stmts_text(stmts@, indent_levels@, stmts@.len(), last_ok),
    decreases stmts, 0nat,
{
    let n = stmts.len();
    let mut i: usize = 0;
    while i < n
        invariant
            n == stmts@.len(),
            0 <= i <= n,
            f@ == old(f)@ + stmts_text(stmts@, indent_levels@, i as nat, last_ok),
        decreases n - i,
    {
        proof {
            assert(decreases_to!(stmts => stmts[i as int]));
        }
        write_stmt(&stmts[i], f, indent_levels, last_ok && i + 1 == n);
        i = i + 1;
        assert(f@ =~= old(f)@ + stmts_text(stmts@, indent_levels@, i as nat, last_ok));
    }
}

fn write_if(s: &IfStmt, f: &mut String, indent_levels: &[bool], is_last: bool)
    ensures
        final(f)@ == old(f)@ + if_text(*s, indent_levels@, is_last),
    decreases s, 0nat,
{
    write_line(f, indent_levels, is_last, "IfStmt");
    let next = next_levels(indent_levels, is_last);
    write_bool_unit(&s.bool_unit, f, next.as_slice(), false);
    write_stmts(&s.if_stmts, f, next.as_slice(), false);
    if let Some(else_stmts) = &s.else_stmts {
        write_stmts(else_stmts, f, next.as_slice(), true);
    }
    assert(f@ =~= old(f)@ + if_text(*s, indent_levels@, is_last));
}

fn write_while(s: &WhileStmt, f: &mut String, indent_levels: &[bool], is_last: bool)
    ensures
        final(f)@ == old(f)@ + while_text(*s, indent_levels@, is_last),
    decreases s, 0nat,
{
    write_line(f, indent_levels, is_last, "WhileStmt");
    let next = next_levels(indent_levels, is_last);
    write_bool_unit(&s.bool_unit, f, next.as_slice(), false);
    write_stmts(&s.stmts, f, next.as_slice(), true);
    assert(f@ =~= old(f)@ + while_text(*s, indent_levels@, is_last));
}

fn write_fn_def(d: &FnDef, f: &mut String, indent_levels: &[bool], is_last: bool)
    ensures
        final(f)@ == old(f)@ + fn_def_text(*d, indent_levels@, is_last),
{
    write_line2(f, indent_levels, is_last, "FnDef ", d.fn_decl.identifier.as_str());
    let next = next_levels(indent_levels, is_last);
    write_fn_decl(&d.fn_decl, f, next.as_slice(), d.stmts.len() == 0);
    write_stmts(&d.stmts, f, next.as_slice(), true);
    assert(f@ =~= old(f)@ + fn_def_text(*d, indent_levels@, is_last));
}

fn write_program_element(e: &ProgramElement, f: &mut String, indent_levels: &[bool], is_last: bool)
    ensures
        final(f)@ == old(f)@ + program_element_text(*e, indent_levels@, is_last),
{
    match &e.inner {
        ProgramElementInner::VarDeclStmt(v) => write_var_decl_stmt(v, f, indent_levels, is_last),
        ProgramElementInner::StructDef(s) => write_struct_def(s, f, indent_levels, is_last),
        ProgramElementInner::FnDeclStmt(d) => write_fn_decl(&d.fn_decl, f, indent_levels, is_last),
        ProgramElementInner::FnDef(def) => write_fn_def(def, f, indent_levels, is_last),
    }
}

fn write_program(p: &Program, f: &mut String, indent_levels: &[bool], is_last: bool)
    ensures
        final(f)@ == old(f)@ + program_text(*p, indent_levels@, is_last),
{
    write_line(f, indent_levels, is_last, "Program");
    let next = next_levels(indent_levels, is_last);
    let ghost start = f@;
    let n = p.elements.len();
    let mut i: usize = 0;
    while i < n
        invariant
            n == p.elements@.len(),
            0 <= i <= n,
            next@ == child_levels(indent_levels@, is_last),
            f@ == start + program_elements_text(p.elements@, next@, i as nat),
        decreases n - i,
    {
        write_program_element(&p.elements[i], f, next.as_slice(), i + 1 == n);
        i = i + 1;
        assert(f@ =~= start + program_elements_text(p.elements@, next@, i as nat));
    }
    assert(f@ =~= old(f)@ + program_text(*p, indent_levels@, is_last));
}

// ---------------------------------------------------------------------------
// The rendering interface.
/// A syntax-tree node that can render itself, and its subtree, as indented text.
pub trait DisplayAsTree {
    /// The rendering of this node at the given ancestor levels, drawn as a
    /// last child when `is_last`.
    spec fn tree_text(&self, indent_levels: Seq<bool>, is_last: bool) -> Seq<char>;

    /// Appends the rendering of this node to `f`.
    fn fmt_tree(&self, f: &mut String, indent_levels: &[bool], is_last: bool)
        ensures
            final(f)@ == old(f)@ + self.tree_text(indent_levels@, is_last),
    ;

    /// Appends the rendering of this node as the root of a tree.
    fn fmt_tree_root(&self, f: &mut String)
        ensures
            final(f)@ == old(f)@ + self.tree_text(Seq::empty(), true),
    {
        let root: Vec<bool> = Vec::new();
        self.fmt_tree(f, root.as_slice(), true)
    }
}

impl<T: DisplayAsTree> DisplayAsTree for Box<T> {
    open spec fn tree_text(&self, indent_levels: Seq<bool>, is_last: bool) -> Seq<char> {
        (**self).tree_text(indent_levels, is_last)
    }

    fn fmt_tree(&self, f: &mut String, indent_levels: &[bool], is_last: bool) {
        (**self).fmt_tree(f, indent_levels, is_last)
    }
}

impl DisplayAsTree for Vec<VarDecl> {
    open spec fn tree_text(&self, indent_levels: Seq<bool>, is_last: bool) -> Seq<char> {
        var_decl_list_text(self@, indent_levels, is_last)
    }

    fn fmt_tree(&self, f: &mut String, indent_levels: &[bool], is_last: bool) {
        write_var_decl_list(self, f, indent_levels, is_last)
    }
}

impl DisplayAsTree for FnDeclStmt {
    open spec fn tree_text(&self, indent_levels: Seq<bool>, is_last: bool) -> Seq<char> {
        fn_decl_text(*self.fn_decl, indent_levels, is_last)
    }

    fn fmt_tree(&self, f: &mut String, indent_levels: &[bool], is_last: bool) {
        write_fn_decl(&self.fn_decl, f, indent_levels, is_last)
    }
}

impl DisplayAsTree for ContinueStmt {
    open spec fn tree_text(&self, indent_levels: Seq<bool>, is_last: bool) -> Seq<char> {
        line_text(indent_levels, is_last, "ContinueStmt"@)
    }

    fn fmt_tree(&self, f: &mut String, indent_levels: &[bool], is_last: bool) {
        write_line(f, indent_levels, is_last, "ContinueStmt")
    }
}

impl DisplayAsTree for BreakStmt {
    open spec fn tree_text(&self, indent_levels: Seq<bool>, is_last: bool) -> Seq<char> {
        line_text(indent_levels, is_last, "BreakStmt"@)
    }

    fn fmt_tree(&self, f: &mut String, indent_levels: &[bool], is_last: bool) {
        write_line(f, indent_levels, is_last, "BreakStmt")
    }
}

impl DisplayAsTree for NullStmt {
    open spec fn tree_text(&self, indent_levels: Seq<bool>, is_last: bool) -> Seq<char> {
        line_text(indent_levels, is_last, "NullStmt"@)
    }

    fn fmt_tree(&self, f: &mut String, indent_levels: &[bool], is_last: bool) {
        write_line(f, indent_levels, is_last, "NullStmt")
    }
}

impl DisplayAsTree for Program {
    open spec fn tree_text(&self, indent_levels: Seq<bool>, is_last: bool) -> Seq<char> {
        program_text(*self, indent_levels, is_last)
    }

    fn fmt_tree(&self, f: &mut String, indent_levels: &[bool], is_last: bool) {
        write_program(self, f, indent_levels, is_last)
    }
}

impl DisplayAsTree for ProgramElement {
    open spec fn tree_text(&self, indent_levels: Seq<bool>, is_last: bool) -> Seq<char> {
        program_element_text(*self, indent_levels, is_last)
    }

    fn fmt_tree(&self, f: &mut String, indent_levels: &[bool], is_last: bool) {
        write_program_element(self, f, indent_levels, is_last)
    }
}

impl DisplayAsTree for VarDeclStmt {
    open spec fn tree_text(&self, indent_levels: Seq<bool>, is_last: bool) -> Seq<char> {
        var_decl_stmt_text(*self, indent_levels, is_last)
    }

    fn fmt_tree(&self, f: &mut String, indent_levels: &[bool], is_last: bool) {
        write_var_decl_stmt(self, f, indent_levels, is_last)
    }
}

impl DisplayAsTree for VarDeclStmtInner {
    open spec fn tree_text(&self, indent_levels: Seq<bool>, is_last: bool) -> Seq<char> {
        var_decl_stmt_inner_text(*self, indent_levels, is_last)
    }

    fn fmt_tree(&self, f: &mut String, indent_levels: &[bool], is_last: bool) {
        write_var_decl_stmt_inner(self, f, indent_levels, is_last)
    }
}

impl DisplayAsTree for VarDecl {
    open spec fn tree_text(&self, indent_levels: Seq<bool>, is_last: bool) -> Seq<char> {
        var_decl_text(*self, indent_levels, is_last)
    }

    fn fmt_tree(&self, f: &mut String, indent_levels: &[bool], is_last: bool) {
        write_var_decl(self, f, indent_levels, is_last)
    }
}

impl DisplayAsTree for VarDef {
    open spec fn tree_text(&self, indent_levels: Seq<bool>, is_last: bool) -> Seq<char> {
        var_def_text(*self, indent_levels, is_last)
    }

    fn fmt_tree(&self, f: &mut String, indent_levels: &[bool], is_last: bool) {
        write_var_def(self, f, indent_levels, is_last)
    }
}

impl DisplayAsTree for FnDecl {
    open spec fn tree_text(&self, indent_levels: Seq<bool>, is_last: bool) -> Seq<char> {
        fn_decl_text(*self, indent_levels, is_last)
    }

    fn fmt_tree(&self, f: &mut String, indent_levels: &[bool], is_last: bool) {
        write_fn_decl(self, f, indent_levels, is_last)
    }
}

impl DisplayAsTree for FnDef {
    open spec fn tree_text(&self, indent_levels: Seq<bool>, is_last: bool) -> Seq<char> {
        fn_def_text(*self, indent_levels, is_last)
    }

    fn fmt_tree(&self, f: &mut String, indent_levels: &[bool], is_last: bool) {
        write_fn_def(self, f, indent_levels, is_last)
    }
}

impl DisplayAsTree for StructDef {
    open spec fn tree_text(&self, indent_levels: Seq<bool>, is_last: bool) -> Seq<char> {
        struct_def_text(*self, indent_levels, is_last)
    }

    fn fmt_tree(&self, f: &mut String, indent_levels: &[bool], is_last: bool) {
        write_struct_def(self, f, indent_levels, is_last)
    }
}

impl DisplayAsTree for CodeBlockStmtInner {
    open spec fn tree_text(&self, indent_levels: Seq<bool>, is_last: bool) -> Seq<char> {
        stmt_inner_text(*self, indent_levels, is_last)
    }

    fn fmt_tree(&self, f: &mut String, indent_levels: &[bool], is_last: bool) {
        write_stmt_inner(self, f, indent_levels, is_last)
    }
}

impl DisplayAsTree for CodeBlockStmt {
    open spec fn tree_text(&self, indent_levels: Seq<bool>, is_last: bool) -> Seq<char> {
        stmt_text(*self, indent_levels, is_last)
    }

    fn fmt_tree(&self, f: &mut String, indent_levels: &[bool], is_last: bool) {
        write_stmt(self, f, indent_levels, is_last)
    }
}

impl DisplayAsTree for AssignmentStmt {
    open spec fn tree_text(&self, indent_levels: Seq<bool>, is_last: bool) -> Seq<char> {
        assignment_text(*self, indent_levels, is_last)
    }

    fn fmt_tree(&self, f: &mut String, indent_levels: &[bool], is_last: bool) {
        write_assignment(self, f, indent_levels, is_last)
    }
}

impl DisplayAsTree for CallStmt {
    open spec fn tree_text(&self, indent_levels: Seq<bool>, is_last: bool) -> Seq<char> {
        call_stmt_text(*self, indent_levels, is_last)
    }

    fn fmt_tree(&self, f: &mut String, indent_levels: &[bool], is_last: bool) {
        write_call_stmt(self, f, indent_levels, is_last)
    }
}

impl DisplayAsTree for IfStmt {
    open spec fn tree_text(&self, indent_levels: Seq<bool>, is_last: bool) -> Seq<char> {
        if_text(*self, indent_levels, is_last)
    }

    fn fmt_tree(&self, f: &mut String, indent_levels: &[bool], is_last: bool) {
        write_if(self, f, indent_levels, is_last)
    }
}

impl DisplayAsTree for WhileStmt {
    open spec fn tree_text(&self, indent_levels: Seq<bool>, is_last: bool) -> Seq<char> {
        while_text(*self, indent_levels, is_last)
    }

    fn fmt_tree(&self, f: &mut String, indent_levels: &[bool], is_last: bool) {
        write_while(self, f, indent_levels, is_last)
    }
}

impl DisplayAsTree for ReturnStmt {
    open spec fn tree_text(&self, indent_levels: Seq<bool>, is_last: bool) -> Seq<char> {
        return_text(*self, indent_levels, is_last)
    }

    fn fmt_tree(&self, f: &mut String, indent_levels: &[bool], is_last: bool) {
        write_return(self, f, indent_levels, is_last)
    }
}

impl DisplayAsTree for LeftVal {
    open spec fn tree_text(&self, indent_levels: Seq<bool>, is_last: bool) -> Seq<char> {
        left_val_text(*self, indent_levels, is_last)
    }

    fn fmt_tree(&self, f: &mut String, indent_levels: &[bool], is_last: bool) {
        write_left_val(self, f, indent_levels, is_last)
    }
}

impl DisplayAsTree for RightVal {
    open spec fn tree_text(&self, indent_levels: Seq<bool>, is_last: bool) -> Seq<char> {
        right_val_text(*self, indent_levels, is_last)
    }

    fn fmt_tree(&self, f: &mut String, indent_levels: &[bool], is_last: bool) {
        write_right_val(self, f, indent_levels, is_last)
    }
}

impl DisplayAsTree for ArrayExpr {
    open spec fn tree_text(&self, indent_levels: Seq<bool>, is_last: bool) -> Seq<char> {
        array_expr_text(*self, indent_levels, is_last)
    }

    fn fmt_tree(&self, f: &mut String, indent_levels: &[bool], is_last: bool) {
        write_array_expr(self, f, indent_levels, is_last)
    }
}

impl DisplayAsTree for MemberExpr {
    open spec fn tree_text(&self, indent_levels: Seq<bool>, is_last: bool) -> Seq<char> {
        member_expr_text(*self, indent_levels, is_last)
    }

    fn fmt_tree(&self, f: &mut String, indent_levels: &[bool], is_last: bool) {
        write_member_expr(self, f, indent_levels, is_last)
    }
}

impl DisplayAsTree for IndexExpr {
    open spec fn tree_text(&self, indent_levels: Seq<bool>, is_last: bool) -> Seq<char> {
        index_expr_text(*self, indent_levels, is_last)
    }

    fn fmt_tree(&self, f: &mut String, indent_levels: &[bool], is_last: bool) {
        write_index_expr(self, f, indent_levels, is_last)
    }
}

impl DisplayAsTree for ArithExpr {
    open spec fn tree_text(&self, indent_levels: Seq<bool>, is_last: bool) -> Seq<char> {
        arith_text(*self, indent_levels, is_last)
    }

    fn fmt_tree(&self, f: &mut String, indent_levels: &[bool], is_last: bool) {
        write_arith_expr(self, f, indent_levels, is_last)
    }
}

impl DisplayAsTree for ArithBiOpExpr {
    open spec fn tree_text(&self, indent_levels: Seq<bool>, is_last: bool) -> Seq<char> {
        arith_biop_text(*self, indent_levels, is_last)
    }

    fn fmt_tree(&self, f: &mut String, indent_levels: &[bool], is_last: bool) {
        write_arith_biop_expr(self, f, indent_levels, is_last)
    }
}

impl DisplayAsTree for CastExpr {
    open spec fn tree_text(&self, indent_levels: Seq<bool>, is_last: bool) -> Seq<char> {
        cast_text(*self, indent_levels, is_last)
    }

    fn fmt_tree(&self, f: &mut String, indent_levels: &[bool], is_last: bool) {
        write_cast_expr(self, f, indent_levels, is_last)
    }
}

impl DisplayAsTree for CastOpExpr {
    open spec fn tree_text(&self, indent_levels: Seq<bool>, is_last: bool) -> Seq<char> {
        cast_op_text(*self, indent_levels, is_last)
    }

    fn fmt_tree(&self, f: &mut String, indent_levels: &[bool], is_last: bool) {
        write_cast_op_expr(self, f, indent_levels, is_last)
    }
}

impl DisplayAsTree for ExprUnit {
    open spec fn tree_text(&self, indent_levels: Seq<bool>, is_last: bool) -> Seq<char> {
        unit_text(*self, indent_levels, is_last)
    }

    fn fmt_tree(&self, f: &mut String, indent_levels: &[bool], is_last: bool) {
        write_expr_unit(self, f, indent_levels, is_last)
    }
}

impl DisplayAsTree for BoolExpr {
    open spec fn tree_text(&self, indent_levels: Seq<bool>, is_last: bool) -> Seq<char> {
        bool_text(*self, indent_levels, is_last)
    }

    fn fmt_tree(&self, f: &mut String, indent_levels: &[bool], is_last: bool) {
        write_bool_expr(self, f, indent_levels, is_last)
    }
}

impl DisplayAsTree for BoolBiOpExpr {
    open spec fn tree_text(&self, indent_levels: Seq<bool>, is_last: bool) -> Seq<char> {
        bool_biop_text(*self, indent_levels, is_last)
    }

    fn fmt_tree(&self, f: &mut String, indent_levels: &[bool], is_last: bool) {
        write_bool_biop_expr(self, f, indent_levels, is_last)
    }
}

impl DisplayAsTree for BoolUnit {
    open spec fn tree_text(&self, indent_levels: Seq<bool>, is_last: bool) -> Seq<char> {
        bool_unit_text(*self, indent_levels, is_last)
    }

    fn fmt_tree(&self, f: &mut String, indent_levels: &[bool], is_last: bool) {
        write_bool_unit(self, f, indent_levels, is_last)
    }
}

impl DisplayAsTree for ComExpr {
    open spec fn tree_text(&self, indent_levels: Seq<bool>, is_last: bool) -> Seq<char> {
        com_text(*self, indent_levels, is_last)
    }

    fn fmt_tree(&self, f: &mut String, indent_levels: &[bool], is_last: bool) {
        write_com_expr(self, f, indent_levels, is_last)
    }
}

impl DisplayAsTree for BoolUOpExpr {
    open spec fn tree_text(&self, indent_levels: Seq<bool>, is_last: bool) -> Seq<char> {
        bool_uop_text(*self, indent_levels, is_last)
    }

    fn fmt_tree(&self, f: &mut String, indent_levels: &[bool], is_last: bool) {
        write_bool_uop_expr(self, f, indent_levels, is_last)
    }
}

impl DisplayAsTree for FnCall {
    open spec fn tree_text(&self, indent_levels: Seq<bool>, is_last: bool) -> Seq<char> {
        fn_call_text(*self, indent_levels, is_last)
    }

    fn fmt_tree(&self, f: &mut String, indent_levels: &[bool], is_last: bool) {
        write_fn_call(self, f, indent_levels, is_last)
    }
}

} // verus!
