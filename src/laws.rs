//! Properties of the checker and the code generator, proved over the
//! models that their contracts use.
use vstd::prelude::*;

use crate::analyse::{
    block_result, emit, expr_result, item_result, ite_result, join_ret, lookup, return_result, stmt_result, stmts_result,
    tail_result, vars_of, AnalyseError, Check,
};
use crate::ast;
use crate::ast::{ArithOpKind, CmpOpKind, ExprStmt, KeyVar, OpKind, Stmt};
use crate::image::{shader_text, uniforms_of};
use crate::instr;
use crate::instr::{BlockV, InstrV, ItemV, Type};
use crate::span::{span_between, Span, Spanned};

verus! {

/// A pair `(a, b)` checks exactly when both components have the same type;
/// it is then a `vec2`, and otherwise the error blames the span from `a` to `b`.
pub proof fn lemma_vec2_typing(names: Seq<(String, Type)>, a: Spanned<ast::Expr>, b: Spanned<ast::Expr>, span: Span)
    requires
        expr_result(names, a) is Ok,
        expr_result(names, b) is Ok,
    ensures
        ({
            let ta = expr_result(names, a)->Ok_0.ty;
            let tb = expr_result(names, b)->Ok_0.ty;
            let r = expr_result(names, Spanned { span, data: ast::Expr::Vec2(Box::new((a, b))) });
            &&& r is Ok <==> ta == tb
            &&& r is Ok ==> r->Ok_0.ty == Type::Vec2
            &&& ta != tb ==> r == Err::<instr::Expr, AnalyseError>(AnalyseError::IncorrectTupleTypes(span_between(a.span, b.span)))
        }),
{
}

/// A triple `(a, b, c)` checks exactly when all three components have the
/// same type; it is then a `vec3`, and otherwise the error blames the span
/// from `a` to `c`.
pub proof fn lemma_vec3_typing(
    names: Seq<(String, Type)>,
    a: Spanned<ast::Expr>,
    b: Spanned<ast::Expr>,
    c: Spanned<ast::Expr>,
    span: Span,
)
    requires
        expr_result(names, a) is Ok,
        expr_result(names, b) is Ok,
        expr_result(names, c) is Ok,
    ensures
        ({
            let ta = expr_result(names, a)->Ok_0.ty;
            let tb = expr_result(names, b)->Ok_0.ty;
            let tc = expr_result(names, c)->Ok_0.ty;
            let r = expr_result(names, Spanned { span, data: ast::Expr::Vec3(Box::new((a, b, c))) });
            &&& r is Ok <==> (ta == tb && tb == tc)
            &&& r is Ok ==> r->Ok_0.ty == Type::Vec3
            &&& !(ta == tb && tb == tc) ==> r == Err::<instr::Expr, AnalyseError>(
                AnalyseError::IncorrectTupleTypes(span_between(a.span, c.span)),
            )
        }),
{
}

/// An arithmetic operation with a float operand has the type of the other
/// operand; otherwise it needs two operands of one type, which it keeps,
/// and fails on the span of its operands.
pub proof fn lemma_arith_typing(
    names: Seq<(String, Type)>,
    k: ArithOpKind,
    a: Spanned<ast::Expr>,
    b: Spanned<ast::Expr>,
    span: Span,
)
    requires
        expr_result(names, a) is Ok,
        expr_result(names, b) is Ok,
    ensures
        ({
            let ta = expr_result(names, a)->Ok_0.ty;
            let tb = expr_result(names, b)->Ok_0.ty;
            let r = expr_result(names, Spanned { span, data: ast::Expr::BinOp(OpKind::ArithOp(k), Box::new((a, b))) });
            &&& ta == Type::Float ==> r is Ok && r->Ok_0.ty == tb
            &&& tb == Type::Float ==> r is Ok && r->Ok_0.ty == ta
            &&& ta == tb ==> r is Ok && r->Ok_0.ty == ta
            &&& (ta != Type::Float && tb != Type::Float && ta != tb) ==> r == Err::<instr::Expr, AnalyseError>(
                AnalyseError::IncorrectBinOpTypes(span_between(a.span, b.span)),
            )
        }),
{
}

/// A comparison checks exactly when its operands have one type, whatever
/// that type; its own type is then `bool`.
pub proof fn lemma_cmp_typing(
    names: Seq<(String, Type)>,
    k: CmpOpKind,
    a: Spanned<ast::Expr>,
    b: Spanned<ast::Expr>,
    span: Span,
)
    requires
        expr_result(names, a) is Ok,
        expr_result(names, b) is Ok,
    ensures
        ({
            let ta = expr_result(names, a)->Ok_0.ty;
            let tb = expr_result(names, b)->Ok_0.ty;
            let r = expr_result(names, Spanned { span, data: ast::Expr::BinOp(OpKind::CmpOp(k), Box::new((a, b))) });
            &&& r is Ok <==> ta == tb
            &&& r is Ok ==> r->Ok_0.ty == Type::Bool
            &&& ta != tb ==> r == Err::<instr::Expr, AnalyseError>(
                AnalyseError::IncorrectBinOpTypes(span_between(a.span, b.span)),
            )
        }),
{
}

/// Assigning to a name in scope: a value of another type fails on the
/// statement's span; one of the same type gives an assignment, never a
/// second declaration, and binds nothing new.
pub proof fn lemma_rebinding(st: Check, n: String, e: Spanned<ast::Expr>, span: Span)
    requires
        lookup(st.names, n@) is Some,
        expr_result(st.names, e) is Ok,
    ensures
        ({
            let t0 = lookup(st.names, n@)->Some_0;
            let v = expr_result(st.names, e)->Ok_0;
            let r = stmt_result(st, Spanned { span, data: Stmt::Assignment(n, e) });
            &&& v.ty != t0 ==> r == Err::<Check, AnalyseError>(AnalyseError::IncorrectAssignmentType(span))
            &&& v.ty == t0 ==> r is Ok && r->Ok_0.names == st.names && r->Ok_0.instrs == st.instrs.push(InstrV::Assignment(n, v))
        }),
{
}

/// A name with no binding in scope fails at the span of its use.
pub proof fn lemma_undefined_name(names: Seq<(String, Type)>, n: String, span: Span)
    ensures
        lookup(names, n@) is None <==> expr_result(names, Spanned { span, data: ast::Expr::Var(n) }) == Err::<instr::Expr, AnalyseError>(
            AnalyseError::UndefinedName(span),
        ),
{
}

/// Rendering is a function of the checked item: equal items give the same
/// shader text and the same uniforms in the same order.
pub proof fn lemma_render_deterministic(a: ItemV, b: ItemV)
    requires
        a == b,
    ensures
        shader_text(a) == shader_text(b),
        uniforms_of(a.vars) == uniforms_of(b.vars),
{
}

/// Every return among `instrs`, nested branches included, returns a value
/// of type `ret`; with `ret` none there is no return at all.
pub open spec fn returns_agree(instrs: Seq<InstrV>, ret: Option<Type>) -> bool
    decreases instrs,
{
    if instrs.len() == 0 {
        true
    } else {
        returns_agree(instrs.drop_last(), ret) && instr_returns_agree(instrs.last(), ret)
    }
}

pub open spec fn instr_returns_agree(i: InstrV, ret: Option<Type>) -> bool
    decreases i,
{
    match i {
        InstrV::Return(e) => ret == Some(e.ty),
        InstrV::ITE(_, t, e) => returns_agree(t.instrs, ret) && match e {
            Some(b) => returns_agree(b.instrs, ret),
            None => true,
        },
        _ => true,
    }
}

/// `r2` refines `r1`: a return type once agreed is kept.
pub open spec fn refines(r1: Option<Type>, r2: Option<Type>) -> bool {
    r1 is None || r1 == r2
}

proof fn lemma_agree_weaken(s: Seq<InstrV>, r1: Option<Type>, r2: Option<Type>)
    requires
        returns_agree(s, r1),
        refines(r1, r2),
    ensures
        returns_agree(s, r2),
    decreases s,
{
    if s.len() > 0 {
        lemma_agree_weaken(s.drop_last(), r1, r2);
        lemma_instr_agree_weaken(s.last(), r1, r2);
    }
}

proof fn lemma_instr_agree_weaken(i: InstrV, r1: Option<Type>, r2: Option<Type>)
    requires
        instr_returns_agree(i, r1),
        refines(r1, r2),
    ensures
        instr_returns_agree(i, r2),
    decreases i,
{
    match i {
        InstrV::ITE(_, t, e) => {
            lemma_agree_weaken(t.instrs, r1, r2);
            match e {
                Some(b) => lemma_agree_weaken(b.instrs, r1, r2),
                None => {},
            }
        },
        _ => {},
    }
}

proof fn lemma_emit_agree(st: Check, r: Result<(Set<KeyVar>, Option<Type>, InstrV), AnalyseError>)
    requires
        returns_agree(st.instrs, st.ret),
        r matches Ok((_, t, i)) && refines(st.ret, t) && instr_returns_agree(i, t),
    ensures
        emit(st, r) matches Ok(st1) && returns_agree(st1.instrs, st1.ret) && refines(st.ret, st1.ret),
{
    let (_, t, i) = r->Ok_0;
    lemma_agree_weaken(st.instrs, st.ret, t);
    assert(st.instrs.push(i).drop_last() =~= st.instrs);
}

proof fn lemma_ite_agree(
    names: Seq<(String, Type)>,
    used: Set<KeyVar>,
    ret: Option<Type>,
    p: (Spanned<ast::Expr>, Spanned<ast::Block>, Option<Spanned<ast::Block>>),
)
    requires
        ite_result(names, used, ret, p) is Ok,
    ensures
        ite_result(names, used, ret, p) matches Ok((_, t, i)) && refines(ret, t) && instr_returns_agree(i, t),
    decreases p,
{
    let c = expr_result(names, p.0)->Ok_0;
    lemma_block_agree(names, used + vars_of(p.0.data), p.1, false);
    let (u1, tb) = block_result(names, used + vars_of(p.0.data), p.1, false)->Ok_0;
    let r1 = join_ret(ret, tb.ret, p.1.span)->Ok_0;
    lemma_agree_weaken(tb.instrs, tb.ret, r1);
    match p.2 {
        None => {},
        Some(eb) => {
            lemma_block_agree(names, u1, eb, false);
            let (u2, ebv) = block_result(names, u1, eb, false)->Ok_0;
            let r2 = join_ret(r1, ebv.ret, eb.span)->Ok_0;
            lemma_agree_weaken(tb.instrs, r1, r2);
            lemma_agree_weaken(ebv.instrs, ebv.ret, r2);
        },
    }
}

proof fn lemma_stmt_agree(st: Check, s: Spanned<Stmt>)
    requires
        stmt_result(st, s) is Ok,
        returns_agree(st.instrs, st.ret),
    ensures
        stmt_result(st, s) matches Ok(st1) && returns_agree(st1.instrs, st1.ret) && refines(st.ret, st1.ret),
    decreases s,
{
    match s.data {
        Stmt::Assignment(n, e) => {
            let v = expr_result(st.names, e)->Ok_0;
            let i = match lookup(st.names, n@) {
                Some(_) => InstrV::Assignment(n, v),
                None => InstrV::Decl(n, v.ty, Some(v.expr)),
            };
            assert(st.instrs.push(i).drop_last() =~= st.instrs);
            assert(instr_returns_agree(i, st.ret));
            assert(returns_agree(st.instrs.push(i), st.ret));
        },
        Stmt::Return(e) => {
            lemma_emit_agree(st, return_result(st.names, st.used, st.ret, e, s.span));
        },
        Stmt::Expr(ExprStmt::ITE(p)) => {
            lemma_ite_agree(st.names, st.used, st.ret, *p);
            lemma_emit_agree(st, ite_result(st.names, st.used, st.ret, *p));
        },
    }
}

proof fn lemma_stmts_agree(st: Check, stmts: Seq<Spanned<Stmt>>)
    requires
        stmts_result(st, stmts) is Ok,
        returns_agree(st.instrs, st.ret),
    ensures
        stmts_result(st, stmts) matches Ok(st1) && returns_agree(st1.instrs, st1.ret) && refines(st.ret, st1.ret),
    decreases stmts,
{
    if stmts.len() > 0 {
        lemma_stmt_agree(st, stmts[0]);
        let st1 = stmt_result(st, stmts[0])->Ok_0;
        lemma_stmts_agree(st1, stmts.drop_first());
    }
}

proof fn lemma_tail_agree(st: Check, e: Option<Spanned<ast::Expr>>, top: bool)
    requires
        tail_result(st, e, top) is Ok,
        returns_agree(st.instrs, st.ret),
    ensures
        tail_result(st, e, top) matches Ok(st1) && returns_agree(st1.instrs, st1.ret) && refines(st.ret, st1.ret),
    decreases e,
{
    match e {
        None => {},
        Some(x) => match x.data {
            ast::Expr::Stmt(ExprStmt::ITE(p)) => {
                lemma_ite_agree(st.names, st.used, st.ret, *p);
                lemma_emit_agree(st, ite_result(st.names, st.used, st.ret, *p));
            },
            _ => {
                lemma_emit_agree(st, return_result(st.names, st.used, st.ret, x, x.span));
            },
        },
    }
}

proof fn lemma_block_agree(names: Seq<(String, Type)>, used: Set<KeyVar>, b: Spanned<ast::Block>, top: bool)
    requires
        block_result(names, used, b, top) is Ok,
    ensures
        block_result(names, used, b, top) matches Ok((_, bv)) && returns_agree(bv.instrs, bv.ret),
    decreases b,
{
    let st0 = Check { names, used, ret: None, instrs: Seq::empty() };
    lemma_stmts_agree(st0, b.data.stmts@);
    let st1 = stmts_result(st0, b.data.stmts@)->Ok_0;
    lemma_tail_agree(st1, b.data.expr, top);
}

/// In a checked item every return, the trailing expression and the returns
/// inside conditional branches included, returns a `vec3`.
pub proof fn lemma_item_returns_agree(item: ast::Item)
    requires
        item_result(item) is Ok,
    ensures
        returns_agree(item_result(item)->Ok_0.instrs, Some(Type::Vec3)),
{
    lemma_block_agree(Seq::empty(), Set::empty(), item.block, true);
}

/// A return whose type differs from the one agreed so far fails on the
/// span of that return.
pub proof fn lemma_return_disagreement(st: Check, e: Spanned<ast::Expr>, span: Span)
    requires
        st.ret is Some,
        expr_result(st.names, e) is Ok,
        expr_result(st.names, e)->Ok_0.ty != st.ret->Some_0,
    ensures
        stmt_result(st, Spanned { span, data: Stmt::Return(e) }) == Err::<Check, AnalyseError>(
            AnalyseError::IncorrectReturnType(span),
        ),
{
}

} // verus!
