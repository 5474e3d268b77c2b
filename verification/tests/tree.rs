use teac::ast::tree::{append_int, append_nat, tree_indent, DisplayAsTree};
use teac::ast::{
    ArithBiOp, ArithBiOpExpr, ArithExpr, ArithExprInner, ArrayExpr, ArrayInitializer,
    AssignmentStmt, BoolBiOp, BoolBiOpExpr, BoolExpr, BoolExprInner, BoolUOp, BoolUOpExpr,
    BoolUnit, BoolUnitInner, BreakStmt, BuiltIn, CallStmt, CastExpr, CastExprInner, CastOpExpr,
    CodeBlockStmt, CodeBlockStmtInner, ComExpr, ComOp, ContinueStmt, ExprUnit, ExprUnitInner,
    FnCall, FnDecl, FnDeclStmt, FnDef, IfStmt, IndexExpr, IndexExprInner, LeftVal, LeftValInner,
    MemberExpr, NullStmt, ParamDecl, Program, ProgramElement, ProgramElementInner, ReturnStmt,
    RightVal, RightValInner, StructDef, TypeSpecifier, TypeSpecifierInner, VarDecl, VarDeclInner,
    VarDeclStmt, VarDeclStmtInner, VarDef, VarDefArray, VarDefInner, VarDefScalar, WhileStmt,
};

fn render<T: DisplayAsTree>(node: &T) -> String {
    let mut s = String::new();
    node.fmt_tree_root(&mut s);
    s
}

fn lines(v: &[&str]) -> String {
    let mut s = String::new();
    for l in v {
        s.push_str(l);
        s.push('\n');
    }
    s
}

fn int_ty() -> TypeSpecifier {
    TypeSpecifier { inner: TypeSpecifierInner::BuiltIn(BuiltIn::Int) }
}

fn float_ty() -> TypeSpecifier {
    TypeSpecifier { inner: TypeSpecifierInner::BuiltIn(BuiltIn::Float) }
}

fn unit(inner: ExprUnitInner) -> ArithExpr {
    ArithExpr {
        inner: ArithExprInner::CastExpr(Box::new(CastExpr {
            inner: CastExprInner::ExprUnit(Box::new(ExprUnit { inner })),
        })),
    }
}

fn num(n: i32) -> ArithExpr {
    unit(ExprUnitInner::Num(n))
}

fn rv(e: ArithExpr) -> RightVal {
    RightVal { inner: RightValInner::ArithExpr(Box::new(e)) }
}

fn decl(name: &str, t: Option<TypeSpecifier>) -> VarDecl {
    VarDecl { identifier: name.to_string(), type_specifier: t, inner: VarDeclInner::Scalar }
}

fn stmt(inner: CodeBlockStmtInner) -> CodeBlockStmt {
    CodeBlockStmt { inner }
}

#[test]
fn indent_prefixes() {
    assert_eq!(tree_indent(&[], true), "`--");
    assert_eq!(tree_indent(&[], false), "|--");
    assert_eq!(tree_indent(&[true, false], false), "   |  |--");
    assert_eq!(tree_indent(&[false, true], true), "|     `--");
    assert_eq!(tree_indent(&[true, true, false], true).len(), 3 * 4);
}

#[test]
fn numerals() {
    let mut s = String::new();
    append_int(&mut s, -2147483648);
    s.push(' ');
    append_int(&mut s, 0);
    s.push(' ');
    append_nat(&mut s, 1200);
    assert_eq!(s, "-2147483648 0 1200");
}

#[test]
fn whole_program() {
    let add = ArithExpr {
        inner: ArithExprInner::ArithBiOpExpr(Box::new(ArithBiOpExpr {
            op: ArithBiOp::Add,
            left: Box::new(num(1)),
            right: Box::new(num(2)),
        })),
    };
    let program = Program {
        elements: vec![
            ProgramElement {
                inner: ProgramElementInner::StructDef(Box::new(StructDef {
                    identifier: "P".to_string(),
                    decls: vec![decl("x", Some(int_ty())), decl("y", Some(float_ty()))],
                })),
            },
            ProgramElement {
                inner: ProgramElementInner::FnDef(Box::new(FnDef {
                    fn_decl: Box::new(FnDecl {
                        identifier: "main".to_string(),
                        param_decl: Some(Box::new(ParamDecl { decls: vec![decl("a", Some(int_ty()))] })),
                        return_dtype: Some(int_ty()),
                    }),
                    stmts: vec![
                        stmt(CodeBlockStmtInner::VarDecl(Box::new(VarDeclStmt {
                            inner: VarDeclStmtInner::Def(Box::new(VarDef {
                                identifier: "v".to_string(),
                                type_specifier: Some(int_ty()),
                                inner: VarDefInner::Scalar(Box::new(VarDefScalar { val: Box::new(rv(add)) })),
                            })),
                        }))),
                        stmt(CodeBlockStmtInner::Return(Box::new(ReturnStmt { val: Some(Box::new(rv(num(-5)))) }))),
                    ],
                })),
            },
        ],
    };
    let expected = lines(&[
        "`--Program",
        "   |--StructDef P",
        "   |  `--VarDeclList",
        "   |     |--x: int",
        "   |     `--y: float",
        "   `--FnDef main",
        "      |--FnDecl main",
        "      |  |--a: int",
        "      |  `--return: int",
        "      |--VarDeclStmt",
        "      |  `--VarDef v",
        "      |     `--RightVal",
        "      |        `--ArithExpr",
        "      |           `--ArithBiOpExpr Add",
        "      |              |--ArithExpr",
        "      |              |  `--ExprUnit",
        "      |              |     `--Num(1)",
        "      |              `--ArithExpr",
        "      |                 `--ExprUnit",
        "      |                    `--Num(2)",
        "      `--ReturnStmt",
        "         `--RightVal",
        "            `--ArithExpr",
        "               `--ExprUnit",
        "                  `--Num(-5)",
    ]);
    assert_eq!(render(&program), expected);
}

#[test]
fn if_with_else() {
    let cond = BoolUnit {
        inner: BoolUnitInner::ComExpr(Box::new(ComExpr {
            op: ComOp::Lt,
            left: Box::new(ExprUnit { inner: ExprUnitInner::Id("i".to_string()) }),
            right: Box::new(ExprUnit { inner: ExprUnitInner::Num(10) }),
        })),
    };
    let s = IfStmt {
        bool_unit: Box::new(cond),
        if_stmts: vec![stmt(CodeBlockStmtInner::Continue(Box::new(ContinueStmt {})))],
        else_stmts: Some(vec![stmt(CodeBlockStmtInner::Break(Box::new(BreakStmt {})))]),
    };
    let expected = lines(&[
        "`--IfStmt",
        "   |--BoolUnit",
        "   |  `--ComExpr Lt",
        "   |     |--ExprUnit",
        "   |     |  `--Id(i)",
        "   |     `--ExprUnit",
        "   |        `--Num(10)",
        "   |--ContinueStmt",
        "   `--BreakStmt",
    ]);
    assert_eq!(render(&s), expected);
}

#[test]
fn if_branch_statements_are_never_last() {
    let cond = BoolUnit {
        inner: BoolUnitInner::BoolUOpExpr(Box::new(BoolUOpExpr {
            op: BoolUOp::Not,
            cond: Box::new(BoolUnit {
                inner: BoolUnitInner::BoolExpr(Box::new(BoolExpr {
                    inner: BoolExprInner::BoolBiOpExpr(Box::new(BoolBiOpExpr {
                        op: BoolBiOp::Or,
                        left: Box::new(BoolExpr {
                            inner: BoolExprInner::BoolUnit(Box::new(BoolUnit {
                                inner: BoolUnitInner::ComExpr(Box::new(ComExpr {
                                    op: ComOp::Eq,
                                    left: Box::new(ExprUnit { inner: ExprUnitInner::Num(1) }),
                                    right: Box::new(ExprUnit { inner: ExprUnitInner::Num(2) }),
                                })),
                            })),
                        }),
                        right: Box::new(BoolExpr {
                            inner: BoolExprInner::BoolUnit(Box::new(BoolUnit {
                                inner: BoolUnitInner::ComExpr(Box::new(ComExpr {
                                    op: ComOp::Ne,
                                    left: Box::new(ExprUnit { inner: ExprUnitInner::Num(3) }),
                                    right: Box::new(ExprUnit { inner: ExprUnitInner::Num(4) }),
                                })),
                            })),
                        }),
                    })),
                })),
            }),
        })),
    };
    let s = IfStmt {
        bool_unit: Box::new(cond),
        if_stmts: vec![stmt(CodeBlockStmtInner::Null(Box::new(NullStmt {})))],
        else_stmts: None,
    };
    let expected = lines(&[
        "`--IfStmt",
        "   |--BoolUnit",
        "   |  `--BoolUOpExpr Not",
        "   |     `--BoolUnit",
        "   |        `--BoolExpr",
        "   |           `--BoolBiOpExpr Or",
        "   |              |--BoolExpr",
        "   |              |  `--BoolUnit",
        "   |              |     `--ComExpr Eq",
        "   |              |        |--ExprUnit",
        "   |              |        |  `--Num(1)",
        "   |              |        `--ExprUnit",
        "   |              |           `--Num(2)",
        "   |              `--BoolExpr",
        "   |                 `--BoolUnit",
        "   |                    `--ComExpr Ne",
        "   |                       |--ExprUnit",
        "   |                       |  `--Num(3)",
        "   |                       `--ExprUnit",
        "   |                          `--Num(4)",
        "   |--NullStmt",
    ]);
    assert_eq!(render(&s), expected);
}

#[test]
fn assignment_with_places() {
    let a = AssignmentStmt {
        left_val: Box::new(LeftVal {
            inner: LeftValInner::ArrayExpr(Box::new(ArrayExpr {
                arr: Box::new(LeftVal { inner: LeftValInner::Id("a".to_string()) }),
                idx: IndexExpr { inner: IndexExprInner::Id("i".to_string()) },
            })),
        }),
        right_val: Box::new(rv(unit(ExprUnitInner::MemberExpr(Box::new(MemberExpr {
            struct_id: Box::new(LeftVal { inner: LeftValInner::Id("s".to_string()) }),
            member_id: "f".to_string(),
        }))))),
    };
    let expected = lines(&[
        "`--AssignmentStmt",
        "   |--LeftVal",
        "   |  `--ArrayExpr",
        "   |     |--LeftVal",
        "   |     |  `--Id(a)",
        "   |     `--IndexExpr Id(i)",
        "   `--RightVal",
        "      `--ArithExpr",
        "         `--ExprUnit",
        "            `--MemberExpr f",
        "               `--LeftVal",
        "                  `--Id(s)",
    ]);
    assert_eq!(render(&a), expected);
    let idx = IndexExpr { inner: IndexExprInner::Num(42) };
    assert_eq!(render(&idx), "`--IndexExpr Num(42)\n");
}

#[test]
fn calls_and_loops() {
    let call = FnCall {
        module_prefix: Some("std".to_string()),
        name: "print".to_string(),
        vals: vec![rv(unit(ExprUnitInner::Id("x".to_string()))), rv(num(3))],
    };
    assert_eq!(call.qualified_name(), "std::print");
    let w = WhileStmt {
        bool_unit: Box::new(BoolUnit {
            inner: BoolUnitInner::ComExpr(Box::new(ComExpr {
                op: ComOp::Gt,
                left: Box::new(ExprUnit { inner: ExprUnitInner::Reference("r".to_string()) }),
                right: Box::new(ExprUnit { inner: ExprUnitInner::Float("0.5".to_string()) }),
            })),
        }),
        stmts: vec![stmt(CodeBlockStmtInner::Call(Box::new(CallStmt { fn_call: Box::new(call) })))],
    };
    let expected = lines(&[
        "`--WhileStmt",
        "   |--BoolUnit",
        "   |  `--ComExpr Gt",
        "   |     |--ExprUnit",
        "   |     |  `--Ref(r)",
        "   |     `--ExprUnit",
        "   |        `--Float(0.5)",
        "   `--CallStmt std::print",
        "      |--RightVal",
        "      |  `--ArithExpr",
        "      |     `--ExprUnit",
        "      |        `--Id(x)",
        "      `--RightVal",
        "         `--ArithExpr",
        "            `--ExprUnit",
        "               `--Num(3)",
    ]);
    assert_eq!(render(&w), expected);
    let local = FnCall { module_prefix: None, name: "f".to_string(), vals: vec![] };
    assert_eq!(render(&local), "`--FnCall f\n");
}

#[test]
fn casts_and_types() {
    let c = CastOpExpr {
        expr: Box::new(ExprUnit { inner: ExprUnitInner::Id("x".to_string()) }),
        type_specifier: Some(float_ty()),
    };
    assert_eq!(render(&c), lines(&["`--CastExpr", "   |--ExprUnit", "   |  `--Id(x)", "   `--target: float"]));
    let untyped = CastOpExpr { expr: Box::new(ExprUnit { inner: ExprUnitInner::Num(1) }), type_specifier: None };
    assert_eq!(
        render(&untyped),
        lines(&["`--CastExpr", "   |--ExprUnit", "   |  `--Num(1)", "   `--target: unknown"])
    );
    let r = TypeSpecifier { inner: TypeSpecifierInner::Reference(Box::new(int_ty())) };
    let m = TypeSpecifier {
        inner: TypeSpecifierInner::Array(
            Box::new(TypeSpecifier { inner: TypeSpecifierInner::Array(Box::new(int_ty()), 4) }),
            3,
        ),
    };
    let p = TypeSpecifier { inner: TypeSpecifierInner::Composite("Point".to_string()) };
    let list = vec![decl("r", Some(r)), decl("m", Some(m)), decl("p", Some(p)), decl("u", None)];
    assert_eq!(
        render(&list),
        lines(&[
            "`--VarDeclList",
            "   |--r: &[int]",
            "   |--m: [[int; 4]; 3]",
            "   |--p: Point",
            "   `--u: unknown",
        ])
    );
}

#[test]
fn array_definitions() {
    let fill = VarDef {
        identifier: "z".to_string(),
        type_specifier: None,
        inner: VarDefInner::Array(Box::new(VarDefArray {
            len: 4,
            initializer: ArrayInitializer::Fill { val: Box::new(rv(num(0))), count: 4 },
        })),
    };
    assert_eq!(
        render(&fill),
        lines(&[
            "`--VarDef z",
            "   |--fill x4",
            "   `--RightVal",
            "      `--ArithExpr",
            "         `--ExprUnit",
            "            `--Num(0)",
        ])
    );
    let list = VarDef {
        identifier: "l".to_string(),
        type_specifier: Some(int_ty()),
        inner: VarDefInner::Array(Box::new(VarDefArray {
            len: 2,
            initializer: ArrayInitializer::ExplicitList(vec![rv(num(7)), rv(num(8))]),
        })),
    };
    let mut s = String::new();
    list.fmt_tree(&mut s, &[false], false);
    assert_eq!(
        s,
        lines(&[
            "|  |--VarDef l",
            "|  |  |--RightVal",
            "|  |  |  `--ArithExpr",
            "|  |  |     `--ExprUnit",
            "|  |  |        `--Num(7)",
            "|  |  `--RightVal",
            "|  |     `--ArithExpr",
            "|  |        `--ExprUnit",
            "|  |           `--Num(8)",
        ])
    );
}

#[test]
fn declarations_and_root_rendering() {
    let fd = FnDeclStmt {
        fn_decl: Box::new(FnDecl {
            identifier: "f".to_string(),
            param_decl: Some(Box::new(ParamDecl { decls: vec![decl("a", Some(int_ty())), decl("b", None)] })),
            return_dtype: None,
        }),
    };
    assert_eq!(render(&fd), lines(&["`--FnDecl f", "   |--a: int", "   `--b: unknown"]));
    // Rendering as a root is rendering with no ancestors as a last child.
    let mut a = String::new();
    fd.fmt_tree(&mut a, &[], true);
    assert_eq!(a, render(&fd));
    let boxed: Box<FnDeclStmt> = Box::new(fd);
    assert_eq!(render(&boxed), a);
    let def = FnDef {
        fn_decl: Box::new(FnDecl { identifier: "g".to_string(), param_decl: None, return_dtype: None }),
        stmts: vec![],
    };
    assert_eq!(render(&def), lines(&["`--FnDef g", "   `--FnDecl g"]));
    let vs = VarDeclStmt { inner: VarDeclStmtInner::Decl(Box::new(decl("k", Some(int_ty())))) };
    assert_eq!(render(&vs), lines(&["`--VarDeclStmt", "   `--k: int"]));
    let ret = ReturnStmt { val: None };
    assert_eq!(render(&ret), "`--ReturnStmt\n");
}
