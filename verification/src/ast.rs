//! Abstract syntax tree of the source language.
use vstd::prelude::*;

pub mod copies;
pub mod tree;

verus! {

/// Binary arithmetic operators.
#[derive(Debug, Clone, Copy, PartialEq, Eq)]
pub enum ArithBiOp {
    Add,
    Sub,
    Mul,
    Div,
}

/// Binary boolean connectives.
#[derive(Debug, Clone, Copy, PartialEq, Eq)]
pub enum BoolBiOp {
    And,
    Or,
}

/// Unary boolean operators.
#[derive(Debug, Clone, Copy, PartialEq, Eq)]
pub enum BoolUOp {
    Not,
}

/// Comparison operators.
#[derive(Debug, Clone, Copy, PartialEq, Eq)]
pub enum ComOp {
    Lt,
    Eq,
    Ge,
    Gt,
    Le,
    Ne,
}

/// Built-in scalar types.
#[derive(Debug, Clone, Copy, PartialEq, Eq)]
pub enum BuiltIn {
    Int,
    Float,
}

/// A written type: `int`, `float`, a struct name, a reference `&[T]` or an
/// array `[T; n]`.
#[derive(Debug, PartialEq, Eq)]
pub struct TypeSpecifier {
    pub inner: TypeSpecifierInner,
}

#[derive(Debug, PartialEq, Eq)]
pub enum TypeSpecifierInner {
    BuiltIn(BuiltIn),
    Composite(String),
    Reference(Box<TypeSpecifier>),
    Array(Box<TypeSpecifier>, u32),
}

/// A value that can be assigned or passed: an arithmetic or a boolean expression.
#[derive(Debug, PartialEq)]
pub struct RightVal {
    pub inner: RightValInner,
}

#[derive(Debug, PartialEq)]
pub enum RightValInner {
    ArithExpr(Box<ArithExpr>),
    BoolExpr(Box<BoolExpr>),
}

/// An assignable place: a variable, an array element or a struct member.
#[derive(Debug, PartialEq, Eq)]
pub struct LeftVal {
    pub inner: LeftValInner,
}

#[derive(Debug, PartialEq, Eq)]
pub enum LeftValInner {
    Id(String),
    ArrayExpr(Box<ArrayExpr>),
    MemberExpr(Box<MemberExpr>),
}

/// `arr[idx]`.
#[derive(Debug, PartialEq, Eq)]
pub struct ArrayExpr {
    pub arr: Box<LeftVal>,
    pub idx: IndexExpr,
}

/// `struct_id.member_id`.
#[derive(Debug, PartialEq, Eq)]
pub struct MemberExpr {
    pub struct_id: Box<LeftVal>,
    pub member_id: String,
}

/// An array index: a literal or a variable.
#[derive(Debug, PartialEq, Eq)]
pub struct IndexExpr {
    pub inner: IndexExprInner,
}

#[derive(Debug, PartialEq, Eq)]
pub enum IndexExprInner {
    Num(usize),
    Id(String),
}

/// An arithmetic expression: a binary operation or a (possibly cast) unit.
#[derive(Debug, PartialEq)]
pub struct ArithExpr {
    pub inner: ArithExprInner,
}

#[derive(Debug, PartialEq)]
pub enum ArithExprInner {
    ArithBiOpExpr(Box<ArithBiOpExpr>),
    CastExpr(Box<CastExpr>),
}

/// `left op right`.
#[derive(Debug, PartialEq)]
pub struct ArithBiOpExpr {
    pub op: ArithBiOp,
    pub left: Box<ArithExpr>,
    pub right: Box<ArithExpr>,
}

/// A unit, either as it stands or under a type cast.
#[derive(Debug, PartialEq)]
pub struct CastExpr {
    pub inner: CastExprInner,
}

#[derive(Debug, PartialEq)]
pub enum CastExprInner {
    CastOpExpr(Box<CastOpExpr>),
    ExprUnit(Box<ExprUnit>),
}

/// `expr as type_specifier`.
#[derive(Debug, PartialEq)]
pub struct CastOpExpr {
    pub expr: Box<ExprUnit>,
    pub type_specifier: Option<TypeSpecifier>,
}

/// The operand of an arithmetic expression or of a comparison.
#[derive(Debug, PartialEq)]
pub struct ExprUnit {
    pub inner: ExprUnitInner,
}

/// `Float` holds the literal as it is written out.
#[derive(Debug, PartialEq)]
pub enum ExprUnitInner {
    Num(i32),
    Float(String),
    Id(String),
    ArithExpr(Box<ArithExpr>),
    FnCall(Box<FnCall>),
    ArrayExpr(Box<ArrayExpr>),
    MemberExpr(Box<MemberExpr>),
    Reference(String),
}

/// A call `prefix::name(vals...)`.
#[derive(Debug, PartialEq)]
pub struct FnCall {
    pub module_prefix: Option<String>,
    pub name: String,
    pub vals: Vec<RightVal>,
}

/// A boolean expression: a binary connective or a unit.
#[derive(Debug, PartialEq)]
pub struct BoolExpr {
    pub inner: BoolExprInner,
}

#[derive(Debug, PartialEq)]
pub enum BoolExprInner {
    BoolBiOpExpr(Box<BoolBiOpExpr>),
    BoolUnit(Box<BoolUnit>),
}

/// `left op right` over booleans.
#[derive(Debug, PartialEq)]
pub struct BoolBiOpExpr {
    pub op: BoolBiOp,
    pub left: Box<BoolExpr>,
    pub right: Box<BoolExpr>,
}

/// A comparison, a parenthesised boolean expression or a negation.
#[derive(Debug, PartialEq)]
pub struct BoolUnit {
    pub inner: BoolUnitInner,
}

#[derive(Debug, PartialEq)]
pub enum BoolUnitInner {
    ComExpr(Box<ComExpr>),
    BoolExpr(Box<BoolExpr>),
    BoolUOpExpr(Box<BoolUOpExpr>),
}

/// `left op right` comparing two units.
#[derive(Debug, PartialEq)]
pub struct ComExpr {
    pub op: ComOp,
    pub left: Box<ExprUnit>,
    pub right: Box<ExprUnit>,
}

/// `op cond`.
#[derive(Debug, PartialEq)]
pub struct BoolUOpExpr {
    pub op: BoolUOp,
    pub cond: Box<BoolUnit>,
}

/// The declared shape of a variable without initializer.
#[derive(Debug, PartialEq)]
pub enum VarDeclInner {
    Scalar,
    Array(Box<VarDeclArray>),
}

/// An array declaration `[len]`.
#[derive(Debug, PartialEq)]
pub struct VarDeclArray {
    pub len: usize,
}

/// A declaration `identifier: type` (the type may be omitted).
#[derive(Debug, PartialEq)]
pub struct VarDecl {
    pub identifier: String,
    pub type_specifier: Option<TypeSpecifier>,
    pub inner: VarDeclInner,
}

/// The shape and initializer of a variable definition.
#[derive(Debug, PartialEq)]
pub enum VarDefInner {
    Scalar(Box<VarDefScalar>),
    Array(Box<VarDefArray>),
}

/// A scalar initializer.
#[derive(Debug, PartialEq)]
pub struct VarDefScalar {
    pub val: Box<RightVal>,
}

/// An array of `len` elements and its initializer.
#[derive(Debug, PartialEq)]
pub struct VarDefArray {
    pub len: usize,
    pub initializer: ArrayInitializer,
}

/// The initializer of an array: an explicit list, or `count` copies of `val`.
#[derive(Debug, PartialEq)]
pub enum ArrayInitializer {
    ExplicitList(Vec<RightVal>),
    Fill { val: Box<RightVal>, count: usize },
}

/// A definition `identifier: type = initializer`.
#[derive(Debug, PartialEq)]
pub struct VarDef {
    pub identifier: String,
    pub type_specifier: Option<TypeSpecifier>,
    pub inner: VarDefInner,
}

/// A variable declaration statement.
#[derive(Debug, PartialEq)]
pub struct VarDeclStmt {
    pub inner: VarDeclStmtInner,
}

#[derive(Debug, PartialEq)]
pub enum VarDeclStmtInner {
    Decl(Box<VarDecl>),
    Def(Box<VarDef>),
}

/// A struct definition.
#[derive(Debug, PartialEq)]
pub struct StructDef {
    pub identifier: String,
    pub decls: Vec<VarDecl>,
}

/// The parameter list of a function.
#[derive(Debug, PartialEq)]
pub struct ParamDecl {
    pub decls: Vec<VarDecl>,
}

/// A function signature.
#[derive(Debug, PartialEq)]
pub struct FnDecl {
    pub identifier: String,
    pub param_decl: Option<Box<ParamDecl>>,
    pub return_dtype: Option<TypeSpecifier>,
}

/// A function declaration statement.
#[derive(Debug, PartialEq)]
pub struct FnDeclStmt {
    pub fn_decl: Box<FnDecl>,
}

/// A function definition: its signature and body.
#[derive(Debug, PartialEq)]
pub struct FnDef {
    pub fn_decl: Box<FnDecl>,
    pub stmts: Vec<CodeBlockStmt>,
}

/// A statement in a code block.
#[derive(Debug, PartialEq)]
pub struct CodeBlockStmt {
    pub inner: CodeBlockStmtInner,
}

#[derive(Debug, PartialEq)]
pub enum CodeBlockStmtInner {
    VarDecl(Box<VarDeclStmt>),
    Assignment(Box<AssignmentStmt>),
    Call(Box<CallStmt>),
    If(Box<IfStmt>),
    While(Box<WhileStmt>),
    Return(Box<ReturnStmt>),
    Continue(Box<ContinueStmt>),
    Break(Box<BreakStmt>),
    Null(Box<NullStmt>),
}

/// `left_val = right_val;`
#[derive(Debug, PartialEq)]
pub struct AssignmentStmt {
    pub left_val: Box<LeftVal>,
    pub right_val: Box<RightVal>,
}

/// A call used as a statement.
#[derive(Debug, PartialEq)]
pub struct CallStmt {
    pub fn_call: Box<FnCall>,
}

/// `if bool_unit { if_stmts } else { else_stmts }`.
#[derive(Debug, PartialEq)]
pub struct IfStmt {
    pub bool_unit: Box<BoolUnit>,
    pub if_stmts: Vec<CodeBlockStmt>,
    pub else_stmts: Option<Vec<CodeBlockStmt>>,
}

/// `while bool_unit { stmts }`.
#[derive(Debug, PartialEq)]
pub struct WhileStmt {
    pub bool_unit: Box<BoolUnit>,
    pub stmts: Vec<CodeBlockStmt>,
}

/// `return val;`
#[derive(Debug, PartialEq)]
pub struct ReturnStmt {
    pub val: Option<Box<RightVal>>,
}

/// `continue;`
#[derive(Debug, PartialEq)]
pub struct ContinueStmt {}

/// `break;`
#[derive(Debug, PartialEq)]
pub struct BreakStmt {}

/// `;`
#[derive(Debug, PartialEq)]
pub struct NullStmt {}

/// A top-level item of a program.
#[derive(Debug, PartialEq)]
pub struct ProgramElement {
    pub inner: ProgramElementInner,
}

#[derive(Debug, PartialEq)]
pub enum ProgramElementInner {
    VarDeclStmt(Box<VarDeclStmt>),
    StructDef(Box<StructDef>),
    FnDeclStmt(Box<FnDeclStmt>),
    FnDef(Box<FnDef>),
}

/// A whole program.
#[derive(Debug, PartialEq)]
pub struct Program {
    pub elements: Vec<ProgramElement>,
}

} // verus!
