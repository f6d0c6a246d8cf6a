use shady_script::analyse::AnalyseError;
use shady_script::ast;
use shady_script::ast::{Expr, KeyVar, Stmt, AST};
use shady_script::functions::find_function;
use shady_script::instr::{ExprKind, Instr, Type};
use shady_script::span::{spanned, Span, Spanned};
use shady_script::Shady;

fn at<T>(begin: usize, end: usize, data: T) -> Spanned<T> {
    spanned(begin, end, data)
}

fn s<T>(data: T) -> Spanned<T> {
    spanned(0, 0, data)
}

fn num(text: &str) -> Spanned<Expr> {
    s(ast::lit(text))
}

fn key(k: KeyVar) -> Spanned<Expr> {
    s(Expr::KeyVar(k))
}

fn red() -> Spanned<Expr> {
    s(ast::vec3(num("1.0"), num("0.0"), num("0.0")))
}

fn script(stmts: Vec<Spanned<Stmt>>, tail: Option<Spanned<Expr>>) -> AST {
    AST(vec![s(ast::image(at(0, 100, ast::block(stmts, tail))))])
}

fn check(stmts: Vec<Spanned<Stmt>>, tail: Option<Spanned<Expr>>) -> Result<Shady, AnalyseError> {
    script(stmts, tail).analyse()
}

/// Checks `c = e; return red` and gives the type that `c` was declared with.
fn declared_type(e: Spanned<Expr>) -> Result<Type, AnalyseError> {
    let sh = check(vec![s(ast::ass("c", e))], Some(red()))?;
    match &sh.get(0).instrs[0] {
        Instr::Decl(_, t, _) => Ok(*t),
        other => panic!("expected a declaration, found {:?}", other),
    }
}

#[test]
fn test() {
    let body = ast::block(
        vec![
            s(ast::ass("c", s(ast::vec3(key(KeyVar::XPos), key(KeyVar::YPos), num("0.5"))))),
            s(ast::ass("c", s(ast::mul(s(ast::var("c")), key(KeyVar::Time))))),
        ],
        Some(s(ast::var("c"))),
    );
    let tree = AST(vec![s(ast::image(s(body)))]);
    println!("{:?}", tree);
    let sdy = tree.analyse();
    println!("{:?}", sdy);
    assert!(sdy.is_ok());
}

#[test]
fn vec2_of_equal_types_is_vec2() {
    assert_eq!(declared_type(s(ast::vec2(num("1.0"), key(KeyVar::XPos)))), Ok(Type::Vec2));
}

#[test]
fn vec2_of_mixed_types_fails() {
    let e = s(ast::vec2(at(3, 6, ast::lit("1.0")), at(8, 12, ast::t())));
    assert_eq!(declared_type(e), Err(AnalyseError::IncorrectTupleTypes(Span { begin: 3, end: 12 })));
}

#[test]
fn vec3_of_equal_types_is_vec3() {
    assert_eq!(declared_type(red()), Ok(Type::Vec3));
}

#[test]
fn vec3_of_mixed_types_fails() {
    let e = s(ast::vec3(at(1, 2, ast::lit("1")), at(4, 5, ast::lit("2")), at(7, 11, ast::f())));
    assert_eq!(declared_type(e), Err(AnalyseError::IncorrectTupleTypes(Span { begin: 1, end: 11 })));
}

#[test]
fn float_scales_vectors_on_either_side() {
    assert_eq!(declared_type(s(ast::mul(num("2.0"), red()))), Ok(Type::Vec3));
    assert_eq!(declared_type(s(ast::div(s(ast::vec2(num("1"), num("2"))), num("2.0")))), Ok(Type::Vec2));
    assert_eq!(declared_type(s(ast::add(num("2.0"), num("3.0")))), Ok(Type::Float));
    assert_eq!(declared_type(s(ast::sub(s(ast::t()), num("3.0")))), Ok(Type::Bool));
}

#[test]
fn arithmetic_on_equal_vectors_keeps_the_type() {
    assert_eq!(declared_type(s(ast::add(red(), red()))), Ok(Type::Vec3));
}

#[test]
fn arithmetic_on_different_vectors_fails() {
    let e = s(ast::add(at(2, 4, ast::vec2(num("1"), num("2"))), at(6, 9, ast::vec3(num("1"), num("2"), num("3")))));
    assert_eq!(declared_type(e), Err(AnalyseError::IncorrectBinOpTypes(Span { begin: 2, end: 9 })));
}

#[test]
fn comparison_of_equal_types_is_bool() {
    assert_eq!(declared_type(s(ast::lt(num("1.0"), key(KeyVar::XPos)))), Ok(Type::Bool));
    assert_eq!(declared_type(s(ast::eq(red(), red()))), Ok(Type::Bool));
    assert_eq!(declared_type(s(ast::gt(s(ast::t()), s(ast::f())))), Ok(Type::Bool));
}

#[test]
fn comparison_of_different_types_fails() {
    let e = s(ast::gt(at(5, 8, ast::lit("1.0")), at(11, 20, ast::vec2(num("1"), num("2")))));
    assert_eq!(declared_type(e), Err(AnalyseError::IncorrectBinOpTypes(Span { begin: 5, end: 20 })));
}

#[test]
fn rebinding_with_another_type_fails() {
    let r = check(
        vec![s(ast::ass("c", num("1.0"))), at(10, 30, ast::ass("c", red()))],
        Some(red()),
    );
    assert_eq!(r, Err(AnalyseError::IncorrectAssignmentType(Span { begin: 10, end: 30 })));
}

#[test]
fn rebinding_with_the_same_type_assigns() {
    let sh = check(vec![s(ast::ass("c", red())), s(ast::ass("c", red()))], Some(s(ast::var("c")))).unwrap();
    let instrs = &sh.get(0).instrs;
    assert_eq!(instrs.len(), 3);
    assert!(matches!(&instrs[0], Instr::Decl(n, Type::Vec3, Some(_)) if n == "c"));
    assert!(matches!(&instrs[1], Instr::Assignment(n, e) if n == "c" && e.ty == Type::Vec3));
}

#[test]
fn returns_that_disagree_fail() {
    let r = check(vec![s(ast::ret(red())), at(40, 52, ast::ret(num("1.0")))], None);
    assert_eq!(r, Err(AnalyseError::IncorrectReturnType(Span { begin: 40, end: 52 })));
}

#[test]
fn trailing_expression_must_agree_with_returns() {
    let r = check(vec![s(ast::ret(red()))], Some(at(60, 63, ast::lit("1.0"))));
    assert_eq!(r, Err(AnalyseError::IncorrectReturnType(Span { begin: 60, end: 63 })));
}

#[test]
fn undefined_name_fails_at_its_use() {
    let r = check(vec![s(ast::ret(at(17, 18, ast::var("q"))))], None);
    assert_eq!(r, Err(AnalyseError::UndefinedName(Span { begin: 17, end: 18 })));
}

#[test]
fn example_literal_colour() {
    let sh = check(vec![s(ast::ret(red()))], None).unwrap();
    let item = sh.get(0);
    assert_eq!(item.ret, Type::Vec3);
    assert_eq!(item.instrs.len(), 1);
    assert!(matches!(&item.instrs[0], Instr::Return(e) if e.ty == Type::Vec3));
}

#[test]
fn example_inferred_local() {
    let c = s(ast::vec3(key(KeyVar::XPos), key(KeyVar::YPos), num("0.0")));
    let sh = check(vec![s(ast::ass("c", c)), s(ast::ret(s(ast::var("c"))))], None).unwrap();
    let instrs = &sh.get(0).instrs;
    assert_eq!(instrs.len(), 2);
    match &instrs[0] {
        Instr::Decl(n, t, Some(ExprKind::Vec3(_))) => {
            assert_eq!(n, "c");
            assert_eq!(*t, Type::Vec3);
        },
        other => panic!("expected the declaration of c, found {:?}", other),
    }
    match &instrs[1] {
        Instr::Return(e) => {
            assert_eq!(e.ty, Type::Vec3);
            assert_eq!(e.expr, ExprKind::Var("c".to_string()));
        },
        other => panic!("expected a return, found {:?}", other),
    }
}

fn branches(else_value: Spanned<Expr>) -> Result<Shady, AnalyseError> {
    let cond = s(ast::lt(key(KeyVar::XPos), num("0.5")));
    let then_b = at(20, 40, ast::block(vec![s(ast::ret(s(ast::vec3(num("1"), num("0"), num("0")))))], None));
    let else_b = at(46, 66, ast::block(vec![s(ast::ret(else_value))], None));
    let ite = ast::ite(cond, then_b, Some(else_b));
    check(vec![], Some(s(Expr::Stmt(ite))))
}

#[test]
fn example_conditional_returns() {
    let sh = branches(s(ast::vec3(num("0"), num("1"), num("0")))).unwrap();
    assert_eq!(sh.get(0).ret, Type::Vec3);
    assert!(matches!(&sh.get(0).instrs[0], Instr::ITE(_, _, Some(_))));
}

#[test]
fn example_conditional_returns_disagree() {
    assert_eq!(branches(num("0.0")), Err(AnalyseError::IncorrectReturnType(Span { begin: 46, end: 66 })));
}

#[test]
fn conditional_statement_then_return() {
    let cond = s(ast::gt(key(KeyVar::YPos), num("0.5")));
    let then_b = s(ast::block(vec![s(ast::ret(red()))], None));
    let ite = ast::ite(cond, then_b, None);
    let sh = check(vec![s(Stmt::Expr(ite))], Some(red())).unwrap();
    assert_eq!(sh.get(0).instrs.len(), 2);
}

#[test]
fn no_return_fails() {
    let r = check(vec![s(ast::ass("c", red()))], None);
    assert_eq!(r, Err(AnalyseError::ExpectedReturn(Span { begin: 0, end: 100 })));
}

#[test]
fn image_must_return_vec3() {
    let r = check(vec![], Some(num("1.0")));
    assert_eq!(r, Err(AnalyseError::IncorrectReturnType(Span { begin: 0, end: 100 })));
}

#[test]
fn condition_must_be_boolean() {
    let then_b = s(ast::block(vec![s(ast::ret(red()))], None));
    let ite = ast::ite(at(3, 6, ast::lit("1.0")), then_b, None);
    let r = check(vec![s(Stmt::Expr(ite))], Some(red()));
    assert_eq!(r, Err(AnalyseError::ExpectedBoolean(Span { begin: 3, end: 6 })));
}

#[test]
fn trailing_value_in_branch_fails() {
    let then_b = s(ast::block(vec![], Some(at(9, 12, ast::lit("1.0")))));
    let ite = ast::ite(s(ast::t()), then_b, None);
    let r = check(vec![s(Stmt::Expr(ite))], Some(red()));
    assert_eq!(r, Err(AnalyseError::ExpectedVoidExprStmt(Span { begin: 9, end: 12 })));
}

#[test]
fn conditional_inside_an_expression_fails() {
    let then_b = s(ast::block(vec![s(ast::ret(red()))], None));
    let inner = at(4, 30, Expr::Stmt(ast::ite(s(ast::t()), then_b, None)));
    let r = check(vec![s(ast::ass("c", s(ast::vec2(inner, num("1.0")))))], Some(red()));
    assert_eq!(r, Err(AnalyseError::ExpectedVoidExprStmt(Span { begin: 4, end: 30 })));
}

#[test]
fn branch_declarations_stay_in_the_branch() {
    let then_b = s(ast::block(vec![s(ast::ass("d", red()))], None));
    let ite = ast::ite(s(ast::t()), then_b, None);
    let r = check(vec![s(Stmt::Expr(ite))], Some(at(50, 51, ast::var("d"))));
    assert_eq!(r, Err(AnalyseError::UndefinedName(Span { begin: 50, end: 51 })));
}

#[test]
fn branch_may_assign_an_outer_name() {
    let then_b = s(ast::block(vec![s(ast::ass("c", s(ast::mul(num("0.5"), s(ast::var("c"))))))], None));
    let ite = ast::ite(s(ast::t()), then_b, None);
    let sh = check(vec![s(ast::ass("c", red())), s(Stmt::Expr(ite))], Some(s(ast::var("c")))).unwrap();
    match &sh.get(0).instrs[1] {
        Instr::ITE(_, b, None) => assert!(matches!(&b.instrs[0], Instr::Assignment(n, _) if n == "c")),
        other => panic!("expected a conditional, found {:?}", other),
    }
}

#[test]
fn first_failing_item_is_reported() {
    let good = s(ast::image(s(ast::block(vec![], Some(red())))));
    let bad = s(ast::image(at(7, 9, ast::block(vec![], None))));
    let tree = AST(vec![good, bad]);
    assert_eq!(tree.analyse(), Err(AnalyseError::ExpectedReturn(Span { begin: 7, end: 9 })));
}

#[test]
fn every_item_becomes_an_image() {
    let one = s(ast::image(s(ast::block(vec![], Some(red())))));
    let two = s(ast::image(s(ast::block(vec![], Some(red())))));
    let sh = AST(vec![one, two]).analyse().unwrap();
    assert_eq!(sh.with_images().len(), 2);
}

#[test]
fn builtin_functions_are_found_by_name_and_arguments() {
    assert_eq!(find_function("sin", &[Type::Float]), Some(Type::Float));
    assert_eq!(find_function("tan", &[Type::Float]), Some(Type::Float));
    assert_eq!(find_function("cos", &[Type::Vec2]), None);
    assert_eq!(find_function("cos", &[Type::Float, Type::Float]), None);
    assert_eq!(find_function("exp", &[Type::Float]), None);
}

#[test]
fn trailing_conditional_in_branch_fails() {
    let inner_then = s(ast::block(vec![s(ast::ret(red()))], None));
    let inner = at(14, 40, Expr::Stmt(ast::ite(s(ast::t()), inner_then, None)));
    let then_b = s(ast::block(vec![], Some(inner)));
    let ite = ast::ite(s(ast::t()), then_b, None);
    let r = check(vec![s(Stmt::Expr(ite))], Some(red()));
    assert_eq!(r, Err(AnalyseError::ExpectedVoidExprStmt(Span { begin: 14, end: 40 })));
}

#[test]
fn nested_conditional_statement_in_branch_is_accepted() {
    let inner_then = s(ast::block(vec![s(ast::ret(red()))], None));
    let inner = s(Stmt::Expr(ast::ite(s(ast::t()), inner_then, None)));
    let then_b = s(ast::block(vec![inner], None));
    let ite = ast::ite(s(ast::f()), then_b, None);
    assert!(check(vec![s(Stmt::Expr(ite))], Some(red())).is_ok());
}
