//! The type checker: from a syntax tree to checked, typed code.
use vstd::prelude::*;

use crate::ast;
use crate::ast::{ExprStmt, ItemKind, KeyVar, OpKind, Stmt};
use crate::instr;
use crate::instr::{block_view, instr_view, instrs_view, item_view, lemma_instrs_view_push, BlockV, ExprKind, Instr, InstrV, ItemV, Type};
use crate::span::{span_between, Span, Spanned};
use crate::Shady;

verus! {

/// Why a script was rejected; each carries the span of the construct at fault.
#[derive(Debug, PartialEq, Eq, Clone, Copy, Structural)]
pub enum AnalyseError {
    IncorrectReturnType(Span),
    IncorrectTupleTypes(Span),
    IncorrectBinOpTypes(Span),
    IncorrectAssignmentType(Span),
    UndefinedName(Span),
    ExpectedReturn(Span),
    ExpectedBoolean(Span),
    ExpectedVoidExprStmt(Span),
}

/// The type bound to `n`: the binding made last wins.
pub open spec fn lookup(names: Seq<(String, Type)>, n: Seq<char>) -> Option<Type>
    decreases names.len(),
{
    if names.len() == 0 {
        None
    } else if names.last().0@ == n {
        Some(names.last().1)
    } else {
        lookup(names.drop_last(), n)
    }
}

/// The type of an arithmetic operation on operands of types `a` and `b`:
/// a float scales the other operand, equal types combine to themselves.
pub open spec fn arith_type(a: Type, b: Type) -> Option<Type> {
    if a == Type::Float {
        Some(b)
    } else if b == Type::Float {
        Some(a)
    } else if a == b {
        Some(a)
    } else {
        None
    }
}

/// The builtin inputs that an expression mentions.
pub open spec fn vars_of(e: ast::Expr) -> Set<KeyVar>
    decreases e,
{
    match e {
        ast::Expr::KeyVar(k) => set![k],
        ast::Expr::Vec2(p) => vars_of(p.0.data) + vars_of(p.1.data),
        ast::Expr::Vec3(p) => vars_of(p.0.data) + vars_of(p.1.data) + vars_of(p.2.data),
        ast::Expr::BinOp(_, p) => vars_of(p.0.data) + vars_of(p.1.data),
        _ => Set::empty(),
    }
}

/// The checked form of an expression under the bindings `names`, or the
/// first error met, left to right. A conditional has no value: written
/// inside an expression it is rejected.
pub open spec fn expr_result(names: Seq<(String, Type)>, e: Spanned<ast::Expr>) -> Result<instr::Expr, AnalyseError>
    decreases e,
{
    match e.data {
        ast::Expr::KeyVar(k) => Ok(instr::Expr { ty: Type::Float, expr: ExprKind::KeyVar(k) }),
        ast::Expr::Literal(l) => Ok(instr::Expr { ty: Type::Float, expr: ExprKind::Literal(l) }),
        ast::Expr::Bool(b) => Ok(instr::Expr { ty: Type::Bool, expr: ExprKind::Bool(b) }),
        ast::Expr::Var(n) => match lookup(names, n@) {
            Some(t) => Ok(instr::Expr { ty: t, expr: ExprKind::Var(n) }),
            None => Err(AnalyseError::UndefinedName(e.span)),
        },
        ast::Expr::Vec2(p) => match (expr_result(names, p.0), expr_result(names, p.1)) {
            (Err(x), _) => Err(x),
            (Ok(_), Err(x)) => Err(x),
            (Ok(a), Ok(b)) => if a.ty == b.ty {
                Ok(instr::Expr { ty: Type::Vec2, expr: ExprKind::Vec2(Box::new((a.expr, b.expr))) })
            } else {
                Err(AnalyseError::IncorrectTupleTypes(span_between(p.0.span, p.1.span)))
            },
        },
        ast::Expr::Vec3(p) => match (expr_result(names, p.0), expr_result(names, p.1), expr_result(names, p.2)) {
            (Err(x), _, _) => Err(x),
            (Ok(_), Err(x), _) => Err(x),
            (Ok(_), Ok(_), Err(x)) => Err(x),
            (Ok(a), Ok(b), Ok(c)) => if a.ty == b.ty && a.ty == c.ty {
                Ok(instr::Expr { ty: Type::Vec3, expr: ExprKind::Vec3(Box::new((a.expr, b.expr, c.expr))) })
            } else {
                Err(AnalyseError::IncorrectTupleTypes(span_between(p.0.span, p.2.span)))
            },
        },
        ast::Expr::BinOp(op, p) => match (expr_result(names, p.0), expr_result(names, p.1)) {
            (Err(x), _) => Err(x),
            (Ok(_), Err(x)) => Err(x),
            (Ok(a), Ok(b)) => {
                let ty = match op {
                    OpKind::ArithOp(_) => arith_type(a.ty, b.ty),
                    OpKind::CmpOp(_) => if a.ty == b.ty { Some(Type::Bool) } else { None },
                };
                match ty {
                    Some(t) => Ok(instr::Expr { ty: t, expr: ExprKind::BinOp(op, Box::new((a.expr, b.expr))) }),
                    None => Err(AnalyseError::IncorrectBinOpTypes(span_between(p.0.span, p.1.span))),
                }
            },
        },
        ast::Expr::Stmt(_) => Err(AnalyseError::ExpectedVoidExprStmt(e.span)),
    }
}

/// Adds the return type `t` of one path to the type `ret` that a block's
/// paths agree on so far; `span` is blamed when they disagree.
pub open spec fn join_ret(ret: Option<Type>, t: Option<Type>, span: Span) -> Result<Option<Type>, AnalyseError> {
    match (ret, t) {
        (_, None) => Ok(ret),
        (None, Some(_)) => Ok(t),
        (Some(a), Some(b)) => if a == b { Ok(ret) } else { Err(AnalyseError::IncorrectReturnType(span)) },
    }
}

/// The state of checking a block: bindings in scope, builtins used so far,
/// the agreed return type, and the code emitted.
pub struct Check {
    pub names: Seq<(String, Type)>,
    pub used: Set<KeyVar>,
    pub ret: Option<Type>,
    pub instrs: Seq<InstrV>,
}

/// Checks `return e`, blaming `span` for a return type that disagrees: the
/// builtins used after it, the return type agreed after it, and its checked
/// form.
pub open spec fn return_result(
    names: Seq<(String, Type)>,
    used: Set<KeyVar>,
    ret: Option<Type>,
    e: Spanned<ast::Expr>,
    span: Span,
) -> Result<(Set<KeyVar>, Option<Type>, InstrV), AnalyseError> {
    match expr_result(names, e) {
        Err(x) => Err(x),
        Ok(v) => match join_ret(ret, Some(v.ty), span) {
            Err(x) => Err(x),
            Ok(r) => Ok((used + vars_of(e.data), r, InstrV::Return(v))),
        },
    }
}

/// Applies the outcome of checking a return or a conditional to the state.
pub open spec fn emit(st: Check, r: Result<(Set<KeyVar>, Option<Type>, InstrV), AnalyseError>) -> Result<Check, AnalyseError> {
    match r {
        Err(x) => Err(x),
        Ok((u, t, i)) => Ok(Check { names: st.names, used: u, ret: t, instrs: st.instrs.push(i) }),
    }
}

/// Checks a conditional: the builtins used after it, the return type agreed
/// after it, and its checked form.
pub open spec fn ite_result(
    names: Seq<(String, Type)>,
    used: Set<KeyVar>,
    ret: Option<Type>,
    p: (Spanned<ast::Expr>, Spanned<ast::Block>, Option<Spanned<ast::Block>>),
) -> Result<(Set<KeyVar>, Option<Type>, InstrV), AnalyseError>
    decreases p,
{
    match expr_result(names, p.0) {
        Err(x) => Err(x),
        Ok(c) => if c.ty != Type::Bool {
            Err(AnalyseError::ExpectedBoolean(p.0.span))
        } else {
            match block_result(names, used + vars_of(p.0.data), p.1, false) {
                Err(x) => Err(x),
                Ok((u1, tb)) => match join_ret(ret, tb.ret, p.1.span) {
                    Err(x) => Err(x),
                    Ok(r1) => match p.2 {
                        None => Ok((u1, r1, InstrV::ITE(c.expr, tb, None))),
                        Some(eb) => match block_result(names, u1, eb, false) {
                            Err(x) => Err(x),
                            Ok((u2, ebv)) => match join_ret(r1, ebv.ret, eb.span) {
                                Err(x) => Err(x),
                                Ok(r2) => Ok((u2, r2, InstrV::ITE(c.expr, tb, Some(ebv)))),
                            },
                        },
                    },
                },
            }
        },
    }
}

/// Checks one statement.
pub open spec fn stmt_result(st: Check, s: Spanned<Stmt>) -> Result<Check, AnalyseError>
    decreases s,
{
    match s.data {
        Stmt::Assignment(n, e) => match expr_result(st.names, e) {
            Err(x) => Err(x),
            Ok(v) => match lookup(st.names, n@) {
                Some(t) => if v.ty == t {
                    Ok(Check {
                        names: st.names,
                        used: st.used + vars_of(e.data),
                        ret: st.ret,
                        instrs: st.instrs.push(InstrV::Assignment(n, v)),
                    })
                } else {
                    Err(AnalyseError::IncorrectAssignmentType(s.span))
                },
                None => Ok(Check {
                    names: st.names.push((n, v.ty)),
                    used: st.used + vars_of(e.data),
                    ret: st.ret,
                    instrs: st.instrs.push(InstrV::Decl(n, v.ty, Some(v.expr))),
                }),
            },
        },
        Stmt::Return(e) => emit(st, return_result(st.names, st.used, st.ret, e, s.span)),
        Stmt::Expr(ExprStmt::ITE(p)) => emit(st, ite_result(st.names, st.used, st.ret, *p)),
    }
}

/// Checks statements in order, stopping at the first error.
pub open spec fn stmts_result(st: Check, stmts: Seq<Spanned<Stmt>>) -> Result<Check, AnalyseError>
    decreases stmts,
{
    if stmts.len() == 0 {
        Ok(st)
    } else {
        match stmt_result(st, stmts[0]) {
            Err(x) => Err(x),
            Ok(st1) => stmts_result(st1, stmts.drop_first()),
        }
    }
}

/// Checks the trailing expression of a block. Only an item's own block
/// (`top`) may have one: a conditional there is a statement, any other
/// expression is returned. In a nested block every trailing expression,
/// a conditional included, is an error.
pub open spec fn tail_result(st: Check, e: Option<Spanned<ast::Expr>>, top: bool) -> Result<Check, AnalyseError>
    decreases e,
{
    match e {
        None => Ok(st),
        Some(x) => if !top {
            Err(AnalyseError::ExpectedVoidExprStmt(x.span))
        } else {
            match x.data {
                ast::Expr::Stmt(ExprStmt::ITE(p)) => emit(st, ite_result(st.names, st.used, st.ret, *p)),
                _ => emit(st, return_result(st.names, st.used, st.ret, x, x.span)),
            }
        },
    }
}

/// Checks a block in its own scope: what it binds is gone after it. Gives
/// the builtins used after it and its checked form.
pub open spec fn block_result(names: Seq<(String, Type)>, used: Set<KeyVar>, b: Spanned<ast::Block>, top: bool) -> Result<(Set<KeyVar>, BlockV), AnalyseError>
    decreases b,
{
    let st0 = Check { names, used, ret: None, instrs: Seq::empty() };
    match stmts_result(st0, b.data.stmts@) {
        Err(x) => Err(x),
        Ok(st1) => match tail_result(st1, b.data.expr, top) {
            Err(x) => Err(x),
            Ok(st2) => Ok((st2.used, BlockV { ret: st2.ret, instrs: st2.instrs })),
        },
    }
}

/// Checks an item: its body, with its trailing expression returned, must
/// return a `vec3` on the paths that return.
pub open spec fn item_result(item: ast::Item) -> Result<ItemV, AnalyseError> {
    match block_result(Seq::empty(), Set::empty(), item.block, true) {
        Err(x) => Err(x),
        Ok((u, b)) => match item.item {
            ItemKind::Image => match b.ret {
                Some(Type::Vec3) => Ok(ItemV { ret: Type::Vec3, kind: ItemKind::Image, instrs: b.instrs, vars: u }),
                Some(_) => Err(AnalyseError::IncorrectReturnType(item.block.span)),
                None => Err(AnalyseError::ExpectedReturn(item.block.span)),
            },
        },
    }
}

/// The bindings in scope, innermost last, and the builtins used so far.
struct Env {
    names: Vec<(String, Type)>,
    used: instr::KeyVarSet,
}

impl Env {
    fn new() -> (r: Env)
        ensures
            r.names@ == Seq::<(String, Type)>::empty(),
            r.used@ == Set::<KeyVar>::empty(),
    {
        Env { names: Vec::new(), used: instr::KeyVarSet::new() }
    }

    fn lookup(&self, name: &String) -> (r: Option<Type>)
        ensures
            r == lookup(self.names@, name@),
    {
        let mut i: usize = self.names.len();
        assert(self.names@.subrange(0, i as int) =~= self.names@);
        while i > 0
            invariant
                i <= self.names@.len(),
                lookup(self.names@, name@) == lookup(self.names@.subrange(0, i as int), name@),
            decreases i,
        {
            let ghost prefix = self.names@.subrange(0, i as int);
            assert(prefix.drop_last() =~= self.names@.subrange(0, i - 1));
            if self.names[i - 1].0 == *name {
                return Some(self.names[i - 1].1);
            }
            i = i - 1;
        }
        None
    }

    fn insert(&mut self, name: String, ty: Type)
        ensures
            final(self).names@ == old(self).names@.push((name, ty)),
            final(self).used == old(self).used,
    {
        self.names.push((name, ty));
    }

    fn use_var(&mut self, var: KeyVar)
        ensures
            final(self).names@ == old(self).names@,
            final(self).used@ == old(self).used@.insert(var),
    {
        self.used.insert(var);
    }
}

fn arith_result_type(a: Type, b: Type) -> (r: Option<Type>)
    ensures
        r == arith_type(a, b),
{
    if a == Type::Float {
        Some(b)
    } else if b == Type::Float {
        Some(a)
    } else if a == b {
        Some(a)
    } else {
        None
    }
}

/// Checks an expression; the builtins it mentions are marked used.
fn analyse_expr(env: &mut Env, e: &Spanned<ast::Expr>) -> (r: Result<instr::Expr, AnalyseError>)
    ensures
        r == expr_result(old(env).names@, *e),
        final(env).names@ == old(env).names@,
        r is Ok ==> final(env).used@ == old(env).used@ + vars_of(e.data),
        old(env).used@.subset_of(final(env).used@),
        final(env).used@.subset_of(old(env).used@ + vars_of(e.data)),
    decreases e,
{
    match &e.data {
        ast::Expr::KeyVar(k) => {
            env.use_var(*k);
            assert(env.used@ =~= old(env).used@ + vars_of(e.data));
            Ok(instr::Expr { ty: Type::Float, expr: ExprKind::KeyVar(*k) })
        },
        ast::Expr::Literal(l) => {
            assert(env.used@ =~= old(env).used@ + vars_of(e.data));
            Ok(instr::Expr { ty: Type::Float, expr: ExprKind::Literal(l.clone()) })
        },
        ast::Expr::Bool(b) => {
            assert(env.used@ =~= old(env).used@ + vars_of(e.data));
            Ok(instr::Expr { ty: Type::Bool, expr: ExprKind::Bool(*b) })
        },
        ast::Expr::Var(n) => {
            assert(env.used@ =~= old(env).used@ + vars_of(e.data));
            match env.lookup(n) {
                Some(t) => Ok(instr::Expr { ty: t, expr: ExprKind::Var(n.clone()) }),
                None => Err(AnalyseError::UndefinedName(e.span)),
            }
        },
        ast::Expr::Vec2(p) => {
            let a = match analyse_expr(env, &p.0) {
                Ok(a) => a,
                Err(x) => return Err(x),
            };
            let b = match analyse_expr(env, &p.1) {
                Ok(b) => b,
                Err(x) => return Err(x),
            };
            assert(env.used@ =~= old(env).used@ + vars_of(e.data));
            if a.ty == b.ty {
                Ok(instr::Expr { ty: Type::Vec2, expr: ExprKind::Vec2(Box::new((a.expr, b.expr))) })
            } else {
                Err(AnalyseError::IncorrectTupleTypes(Span { begin: p.0.span.begin, end: p.1.span.end }))
            }
        },
        ast::Expr::Vec3(p) => {
            let a = match analyse_expr(env, &p.0) {
                Ok(a) => a,
                Err(x) => return Err(x),
            };
            let b = match analyse_expr(env, &p.1) {
                Ok(b) => b,
                Err(x) => return Err(x),
            };
            let c = match analyse_expr(env, &p.2) {
                Ok(c) => c,
                Err(x) => return Err(x),
            };
            assert(env.used@ =~= old(env).used@ + vars_of(e.data));
            if a.ty == b.ty && a.ty == c.ty {
                Ok(instr::Expr { ty: Type::Vec3, expr: ExprKind::Vec3(Box::new((a.expr, b.expr, c.expr))) })
            } else {
                Err(AnalyseError::IncorrectTupleTypes(Span { begin: p.0.span.begin, end: p.2.span.end }))
            }
        },
        ast::Expr::BinOp(op, p) => {
            let a = match analyse_expr(env, &p.0) {
                Ok(a) => a,
                Err(x) => return Err(x),
            };
            let b = match analyse_expr(env, &p.1) {
                Ok(b) => b,
                Err(x) => return Err(x),
            };
            assert(env.used@ =~= old(env).used@ + vars_of(e.data));
            let ty = match op {
                OpKind::ArithOp(_) => arith_result_type(a.ty, b.ty),
                OpKind::CmpOp(_) => if a.ty == b.ty { Some(Type::Bool) } else { None },
            };
            match ty {
                Some(t) => Ok(instr::Expr { ty: t, expr: ExprKind::BinOp(*op, Box::new((a.expr, b.expr))) }),
                None => Err(AnalyseError::IncorrectBinOpTypes(Span { begin: p.0.span.begin, end: p.1.span.end })),
            }
        },
        ast::Expr::Stmt(_) => Err(AnalyseError::ExpectedVoidExprStmt(e.span)),
    }
}

fn join_return(ret: Option<Type>, t: Option<Type>, span: Span) -> (r: Result<Option<Type>, AnalyseError>)
    ensures
        r == join_ret(ret, t, span),
{
    match (ret, t) {
        (_, None) => Ok(ret),
        (None, Some(_)) => Ok(t),
        (Some(a), Some(b)) => if a == b { Ok(ret) } else { Err(AnalyseError::IncorrectReturnType(span)) },
    }
}

/// Checks `return e`; `ret` is the return type agreed so far.
fn analyse_return(env: &mut Env, ret: &mut Option<Type>, e: &Spanned<ast::Expr>, span: Span) -> (r: Result<Instr, AnalyseError>)
    ensures
        final(env).names@ == old(env).names@,
        old(env).used@.subset_of(final(env).used@),
        match r {
            Ok(i) => return_result(old(env).names@, old(env).used@, *old(ret), *e, span) matches Ok((u, t, v))
                && u == final(env).used@ && t == *final(ret) && v == instr_view(i),
            Err(x) => return_result(old(env).names@, old(env).used@, *old(ret), *e, span) matches Err(y) && y == x,
        },
{
    let v = match analyse_expr(env, e) {
        Ok(v) => v,
        Err(x) => return Err(x),
    };
    match join_return(*ret, Some(v.ty), span) {
        Ok(t) => {
            *ret = t;
            Ok(Instr::Return(v))
        },
        Err(x) => Err(x),
    }
}

/// Checks a conditional; `ret` is the return type agreed so far.
fn analyse_ite(
    env: &mut Env,
    ret: &mut Option<Type>,
    p: &(Spanned<ast::Expr>, Spanned<ast::Block>, Option<Spanned<ast::Block>>),
) -> (r: Result<Instr, AnalyseError>)
    ensures
        match r {
            Ok(i) => ite_result(old(env).names@, old(env).used@, *old(ret), *p) matches Ok((u, t, v))
                && u == final(env).used@ && t == *final(ret) && v == instr_view(i),
            Err(x) => ite_result(old(env).names@, old(env).used@, *old(ret), *p) matches Err(y) && y == x,
        },
        final(env).names@ == old(env).names@,
        old(env).used@.subset_of(final(env).used@),
    decreases p, 2int,
{
    let c = match analyse_expr(env, &p.0) {
        Ok(c) => c,
        Err(x) => return Err(x),
    };
    if c.ty != Type::Bool {
        return Err(AnalyseError::ExpectedBoolean(p.0.span));
    }
    let tb = match analyse_block(env, &p.1, false) {
        Ok(b) => b,
        Err(x) => return Err(x),
    };
    match join_return(*ret, tb.ret, p.1.span) {
        Ok(t) => *ret = t,
        Err(x) => return Err(x),
    }
    match &p.2 {
        None => Ok(Instr::ITE(c.expr, tb, None)),
        Some(eb) => {
            let ebb = match analyse_block(env, eb, false) {
                Ok(b) => b,
                Err(x) => return Err(x),
            };
            match join_return(*ret, ebb.ret, eb.span) {
                Ok(t) => *ret = t,
                Err(x) => return Err(x),
            }
            Ok(Instr::ITE(c.expr, tb, Some(ebb)))
        },
    }
}

/// Checks a block in a scope of its own; `top` says whether a trailing
/// expression is returned.
fn analyse_block(env: &mut Env, b: &Spanned<ast::Block>, top: bool) -> (r: Result<instr::Block, AnalyseError>)
    ensures
        match r {
            Ok(ib) => block_result(old(env).names@, old(env).used@, *b, top) matches Ok((u, bv))
                && u == final(env).used@ && bv == block_view(ib),
            Err(x) => block_result(old(env).names@, old(env).used@, *b, top) matches Err(y) && y == x,
        },
        final(env).names@ == old(env).names@,
        old(env).used@.subset_of(final(env).used@),
    decreases b, 1int,
{
    let depth = env.names.len();
    let r = analyse_scope(env, b, top);
    env.names.truncate(depth);
    r
}

/// The work of `analyse_block`: leaves the block's own bindings after the
/// enclosing ones, for the caller to drop.
fn analyse_scope(env: &mut Env, b: &Spanned<ast::Block>, top: bool) -> (r: Result<instr::Block, AnalyseError>)
    ensures
        match r {
            Ok(ib) => block_result(old(env).names@, old(env).used@, *b, top) matches Ok((u, bv))
                && u == final(env).used@ && bv == block_view(ib),
            Err(x) => block_result(old(env).names@, old(env).used@, *b, top) matches Err(y) && y == x,
        },
        final(env).names@.len() >= old(env).names@.len(),
        final(env).names@.subrange(0, old(env).names@.len() as int) == old(env).names@,
        old(env).used@.subset_of(final(env).used@),
    decreases b, 0int,
{
    let depth = env.names.len();
    let ghost names0 = env.names@;
    let ghost st0 = Check { names: env.names@, used: env.used@, ret: None, instrs: Seq::empty() };
    let mut ret: Option<Type> = None;
    let mut instrs: Vec<Instr> = Vec::new();
    let stmts = &b.data.stmts;
    let n = stmts.len();
    let mut i: usize = 0;
    assert(stmts@.subrange(0, n as int) =~= stmts@);
    while i < n
        invariant
            n == stmts@.len(),
            i <= n,
            stmts == &b.data.stmts,
            depth == names0.len(),
            env.names@.len() >= depth,
            env.names@.subrange(0, depth as int) == names0,
            st0.names == names0,
            names0 == old(env).names@,
            st0.used == old(env).used@,
            old(env).used@.subset_of(env.used@),
            st0.ret is None,
            st0.instrs == Seq::<InstrV>::empty(),
            stmts_result(st0, stmts@) == stmts_result(
                Check { names: env.names@, used: env.used@, ret, instrs: instrs_view(instrs@) },
                stmts@.subrange(i as int, n as int),
            ),
        decreases n - i,
    {
        let s = &stmts[i];
        let ghost cur = Check { names: env.names@, used: env.used@, ret, instrs: instrs_view(instrs@) };
        let ghost rest = stmts@.subrange(i as int, n as int);
        assert(rest[0] == *s);
        assert(rest.drop_first() =~= stmts@.subrange(i + 1, n as int));
        assert(stmts_result(cur, rest) == match stmt_result(cur, *s) {
            Err(x) => Err(x),
            Ok(st1) => stmts_result(st1, stmts@.subrange(i + 1, n as int)),
        });
        assert(st0 == Check { names: old(env).names@, used: old(env).used@, ret: None, instrs: Seq::empty() });
        match &s.data {
            Stmt::Assignment(name, e) => {
                let v = match analyse_expr(env, e) {
                    Ok(v) => v,
                    Err(x) => return Err(x),
                };
                match env.lookup(name) {
                    Some(t) => {
                        if v.ty != t {
                            return Err(AnalyseError::IncorrectAssignmentType(s.span));
                        }
                        let ins = Instr::Assignment(name.clone(), v);
                        proof {
                            lemma_instrs_view_push(instrs@, ins);
                        }
                        instrs.push(ins);
                    },
                    None => {
                        env.insert(name.clone(), v.ty);
                        assert(env.names@.subrange(0, depth as int) =~= names0);
                        let ins = Instr::Decl(name.clone(), v.ty, Some(v.expr));
                        proof {
                            lemma_instrs_view_push(instrs@, ins);
                        }
                        instrs.push(ins);
                    },
                }
            },
            Stmt::Return(e) => {
                let ins = match analyse_return(env, &mut ret, e, s.span) {
                    Ok(ins) => ins,
                    Err(x) => return Err(x),
                };
                proof {
                    lemma_instrs_view_push(instrs@, ins);
                }
                instrs.push(ins);
            },
            Stmt::Expr(ExprStmt::ITE(p)) => {
                let ins = match analyse_ite(env, &mut ret, &**p) {
                    Ok(ins) => ins,
                    Err(x) => return Err(x),
                };
                proof {
                    lemma_instrs_view_push(instrs@, ins);
                }
                instrs.push(ins);
            },
        }
        i = i + 1;
    }
    assert(stmts@.subrange(n as int, n as int) =~= Seq::<Spanned<Stmt>>::empty());
    match &b.data.expr {
        None => {},
        Some(x) => match &x.data {
            _ if !top => return Err(AnalyseError::ExpectedVoidExprStmt(x.span)),
            ast::Expr::Stmt(ExprStmt::ITE(p)) => {
                let ins = match analyse_ite(env, &mut ret, &**p) {
                    Ok(ins) => ins,
                    Err(x) => return Err(x),
                };
                proof {
                    lemma_instrs_view_push(instrs@, ins);
                }
                instrs.push(ins);
            },
            _ => {
                let ins = match analyse_return(env, &mut ret, x, x.span) {
                    Ok(ins) => ins,
                    Err(x) => return Err(x),
                };
                proof {
                    lemma_instrs_view_push(instrs@, ins);
                }
                instrs.push(ins);
            },
        },
    }
    Ok(instr::Block { ret, instrs })
}

/// Checks a whole script, item by item, stopping at the first error.
pub open spec fn ast_result(items: Seq<Spanned<ast::Item>>) -> Result<Seq<ItemV>, AnalyseError>
    decreases items.len(),
{
    if items.len() == 0 {
        Ok(Seq::empty())
    } else {
        match ast_result(items.drop_last()) {
            Err(x) => Err(x),
            Ok(vs) => match item_result(items.last().data) {
                Err(x) => Err(x),
                Ok(v) => Ok(vs.push(v)),
            },
        }
    }
}

fn analyse_item(item: &Spanned<ast::Item>) -> (r: Result<instr::Item, AnalyseError>)
    ensures
        match r {
            Ok(it) => item_result(item.data) == Ok::<ItemV, AnalyseError>(item_view(it)),
            Err(x) => item_result(item.data) == Err::<ItemV, AnalyseError>(x),
        },
{
    let mut env = Env::new();
    let b = match analyse_block(&mut env, &item.data.block, true) {
        Ok(b) => b,
        Err(x) => return Err(x),
    };
    match item.data.item {
        ItemKind::Image => match b.ret {
            Some(Type::Vec3) => Ok(instr::Item { ret: Type::Vec3, kind: ItemKind::Image, instrs: b.instrs, vars: env.used }),
            Some(_) => Err(AnalyseError::IncorrectReturnType(item.data.block.span)),
            None => Err(AnalyseError::ExpectedReturn(item.data.block.span)),
        },
    }
}

impl ast::AST {
    /// Checks every item of the script, in order; the first error found is
    /// the result.
    pub fn analyse(&self) -> (r: Result<Shady, AnalyseError>)
        ensures
            match r {
                Ok(sh) => ast_result(self.0@) == Ok::<Seq<ItemV>, AnalyseError>(sh@),
                Err(x) => ast_result(self.0@) == Err::<Seq<ItemV>, AnalyseError>(x),
            },
    {
        let mut shady = Shady::new();
        let n = self.0.len();
        let mut i: usize = 0;
        while i < n
            invariant
                n == self.0@.len(),
                i <= n,
                ast_result(self.0@.subrange(0, i as int)) == Ok::<Seq<ItemV>, AnalyseError>(shady@),
            decreases n - i,
        {
            assert(self.0@.subrange(0, i + 1).drop_last() =~= self.0@.subrange(0, i as int));
            let it = match analyse_item(&self.0[i]) {
                Ok(it) => it,
                Err(x) => {
                    proof {
                        lemma_ast_result_prefix_err(self.0@, i as int + 1, x);
                    }
                    return Err(x);
                },
            };
            shady.push_item(it);
            i = i + 1;
        }
        assert(self.0@.subrange(0, n as int) =~= self.0@);
        Ok(shady)
    }
}

/// An error in a prefix of the items is the error of the whole script.
proof fn lemma_ast_result_prefix_err(items: Seq<Spanned<ast::Item>>, k: int, x: AnalyseError)
    requires
        0 <= k <= items.len(),
        ast_result(items.subrange(0, k)) == Err::<Seq<ItemV>, AnalyseError>(x),
    ensures
        ast_result(items) == Err::<Seq<ItemV>, AnalyseError>(x),
    decreases items.len() - k,
{
    if k < items.len() {
        assert(items.subrange(0, k + 1).drop_last() =~= items.subrange(0, k));
        lemma_ast_result_prefix_err(items, k + 1, x);
    } else {
        assert(items.subrange(0, k) =~= items);
    }
}

} // verus!
