//! The syntax tree of a script, as handed over by the parser.
use vstd::prelude::*;

use crate::span::Spanned;

verus! {

/// A whole script: its items in source order.
#[derive(Debug, PartialEq, Eq)]
pub struct AST(pub Vec<Spanned<Item>>);

/// One top-level item: its kind and its body.
#[derive(Debug, PartialEq, Eq)]
pub struct Item {
    pub block: Spanned<Block>,
    pub item: ItemKind,
}

/// The kinds of top-level item.
#[derive(Debug, PartialEq, Eq, Clone, Copy, Structural)]
pub enum ItemKind {
    Image,
}

/// A braced block: statements, then an optional trailing expression.
#[derive(Debug, PartialEq, Eq)]
pub struct Block {
    pub stmts: Vec<Spanned<Stmt>>,
    pub expr: Option<Spanned<Expr>>,
}

#[derive(Debug, PartialEq, Eq)]
pub enum Stmt {
    Assignment(String, Spanned<Expr>),
    Return(Spanned<Expr>),
    Expr(ExprStmt),
}

#[derive(Debug, PartialEq, Eq)]
pub enum Expr {
    KeyVar(KeyVar),
    Literal(String),
    Bool(bool),
    Var(String),
    Vec2(Box<(Spanned<Expr>, Spanned<Expr>)>),
    Vec3(Box<(Spanned<Expr>, Spanned<Expr>, Spanned<Expr>)>),
    BinOp(OpKind, Box<(Spanned<Expr>, Spanned<Expr>)>),
    Stmt(ExprStmt),
}

/// The builtin inputs of an item, each a float.
#[derive(Debug, PartialEq, Eq, Clone, Copy, Structural)]
pub enum KeyVar {
    XPos,
    YPos,
    Time,
    MouseX,
    MouseY,
}

/// A control-flow construct written where an expression may stand.
#[derive(Debug, PartialEq, Eq)]
pub enum ExprStmt {
    ITE(Box<(Spanned<Expr>, Spanned<Block>, Option<Spanned<Block>>)>),
}

#[derive(Debug, PartialEq, Eq, Clone, Copy, Structural)]
pub enum OpKind {
    ArithOp(ArithOpKind),
    CmpOp(CmpOpKind),
}

#[derive(Debug, PartialEq, Eq, Clone, Copy, Structural)]
pub enum ArithOpKind {
    Add,
    Sub,
    Mul,
    Div,
}

#[derive(Debug, PartialEq, Eq, Clone, Copy, Structural)]
pub enum CmpOpKind {
    Lt,
    Gt,
    Eq,
}

pub fn image(block: Spanned<Block>) -> (r: Item)
    ensures
        r == (Item { block, item: ItemKind::Image }),
{
    Item { block: block, item: ItemKind::Image }
}

pub fn block(stmts: Vec<Spanned<Stmt>>, expr: Option<Spanned<Expr>>) -> (r: Block)
    ensures
        r == (Block { stmts, expr }),
{
    Block { stmts: stmts, expr: expr }
}

/// The statement `name = expr`.
pub fn ass(name: &str, expr: Spanned<Expr>) -> (r: Stmt)
    ensures
        r matches Stmt::Assignment(n, e) && n@ == name@ && e == expr,
{
    Stmt::Assignment(String::from_str(name), expr)
}

pub fn ret(expr: Spanned<Expr>) -> (r: Stmt)
    ensures
        r == Stmt::Return(expr),
{
    Stmt::Return(expr)
}

/// A numeric literal, kept as its source text.
pub fn lit(s: &str) -> (r: Expr)
    ensures
        r matches Expr::Literal(l) && l@ == s@,
{
    Expr::Literal(String::from_str(s))
}

pub fn var(s: &str) -> (r: Expr)
    ensures
        r matches Expr::Var(n) && n@ == s@,
{
    Expr::Var(String::from_str(s))
}

pub fn vec2(a: Spanned<Expr>, b: Spanned<Expr>) -> (r: Expr)
    ensures
        r == Expr::Vec2(Box::new((a, b))),
{
    Expr::Vec2(Box::new((a, b)))
}

pub fn vec3(a: Spanned<Expr>, b: Spanned<Expr>, c: Spanned<Expr>) -> (r: Expr)
    ensures
        r == Expr::Vec3(Box::new((a, b, c))),
{
    Expr::Vec3(Box::new((a, b, c)))
}

pub fn add(a: Spanned<Expr>, b: Spanned<Expr>) -> (r: Expr)
    ensures
        r == Expr::BinOp(OpKind::ArithOp(ArithOpKind::Add), Box::new((a, b))),
{
    Expr::BinOp(OpKind::ArithOp(ArithOpKind::Add), Box::new((a, b)))
}

pub fn sub(a: Spanned<Expr>, b: Spanned<Expr>) -> (r: Expr)
    ensures
        r == Expr::BinOp(OpKind::ArithOp(ArithOpKind::Sub), Box::new((a, b))),
{
    Expr::BinOp(OpKind::ArithOp(ArithOpKind::Sub), Box::new((a, b)))
}

pub fn mul(a: Spanned<Expr>, b: Spanned<Expr>) -> (r: Expr)
    ensures
        r == Expr::BinOp(OpKind::ArithOp(ArithOpKind::Mul), Box::new((a, b))),
{
    Expr::BinOp(OpKind::ArithOp(ArithOpKind::Mul), Box::new((a, b)))
}

pub fn div(a: Spanned<Expr>, b: Spanned<Expr>) -> (r: Expr)
    ensures
        r == Expr::BinOp(OpKind::ArithOp(ArithOpKind::Div), Box::new((a, b))),
{
    Expr::BinOp(OpKind::ArithOp(ArithOpKind::Div), Box::new((a, b)))
}

pub fn lt(a: Spanned<Expr>, b: Spanned<Expr>) -> (r: Expr)
    ensures
        r == Expr::BinOp(OpKind::CmpOp(CmpOpKind::Lt), Box::new((a, b))),
{
    Expr::BinOp(OpKind::CmpOp(CmpOpKind::Lt), Box::new((a, b)))
}

pub fn gt(a: Spanned<Expr>, b: Spanned<Expr>) -> (r: Expr)
    ensures
        r == Expr::BinOp(OpKind::CmpOp(CmpOpKind::Gt), Box::new((a, b))),
{
    Expr::BinOp(OpKind::CmpOp(CmpOpKind::Gt), Box::new((a, b)))
}

pub fn eq(a: Spanned<Expr>, b: Spanned<Expr>) -> (r: Expr)
    ensures
        r == Expr::BinOp(OpKind::CmpOp(CmpOpKind::Eq), Box::new((a, b))),
{
    Expr::BinOp(OpKind::CmpOp(CmpOpKind::Eq), Box::new((a, b)))
}

/// `if i { t } else { e }`, the `else` part optional.
pub fn ite(i: Spanned<Expr>, t: Spanned<Block>, e: Option<Spanned<Block>>) -> (r: ExprStmt)
    ensures
        r == ExprStmt::ITE(Box::new((i, t, e))),
{
    ExprStmt::ITE(Box::new((i, t, e)))
}

pub fn t() -> (r: Expr)
    ensures
        r == Expr::Bool(true),
{
    Expr::Bool(true)
}

pub fn f() -> (r: Expr)
    ensures
        r == Expr::Bool(false),
{
    Expr::Bool(false)
}

} // verus!
