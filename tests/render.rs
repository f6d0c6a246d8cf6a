use shady_script::ast;
use shady_script::ast::{Expr, KeyVar, Stmt, AST};
use shady_script::span::{spanned, Spanned};
use shady_script::{Image, Shady, Uniform};

fn s<T>(data: T) -> Spanned<T> {
    spanned(0, 0, data)
}

fn num(text: &str) -> Spanned<Expr> {
    s(ast::lit(text))
}

fn key(k: KeyVar) -> Spanned<Expr> {
    s(Expr::KeyVar(k))
}

fn checked(stmts: Vec<Spanned<Stmt>>, tail: Option<Spanned<Expr>>) -> Shady {
    AST(vec![s(ast::image(s(ast::block(stmts, tail))))]).analyse().unwrap()
}

fn shader(sh: &Shady) -> String {
    sh.with_images()[0].standalone_shader()
}

fn uniforms(sh: &Shady) -> Vec<Uniform> {
    sh.with_images()[0].standalone_uniforms()
}

fn red() -> Spanned<Expr> {
    s(ast::vec3(num("1.0"), num("0.0"), num("0.0")))
}

#[test]
fn literal_colour_renders_one_return() {
    let sh = checked(vec![s(ast::ret(red()))], None);
    assert!(uniforms(&sh).is_empty());
    let text = shader(&sh);
    assert!(text.contains("vec3 image(float x, float y) {\n    return vec3(1.0, 0.0, 0.0);\n}"));
}

#[test]
fn whole_program_text() {
    let sh = checked(vec![s(ast::ret(red()))], None);
    let expected = "#version 330 core\n\nin vec2 uv;\n\nout vec3 colour;\n\n\nvec3 image(float x, float y) {\n    return vec3(1.0, 0.0, 0.0);\n}\n\nvoid main() {\n    colour = image(uv.x, uv.y);\n}";
    assert_eq!(shader(&sh), expected);
}

#[test]
fn inferred_local_renders_declaration() {
    let c = s(ast::vec3(key(KeyVar::XPos), key(KeyVar::YPos), num("0.0")));
    let sh = checked(vec![s(ast::ass("c", c)), s(ast::ret(s(ast::var("c"))))], None);
    let text = shader(&sh);
    assert!(text.contains("    vec3 c = vec3(x, y, 0.0);\n    return c;\n"));
}

#[test]
fn time_becomes_a_uniform() {
    let e = s(ast::mul(key(KeyVar::Time), red()));
    let sh = checked(vec![], Some(e));
    assert_eq!(uniforms(&sh), vec![Uniform::Time]);
    let text = shader(&sh);
    assert!(text.contains("uniform float time;\n"));
    assert!(text.contains("vec3 image(float x, float y, float t) {\n"));
    assert!(text.contains("colour = image(uv.x, uv.y, time);"));
    assert!(text.contains("    return (t) * (vec3(1.0, 0.0, 0.0));\n"));
}

#[test]
fn uniforms_keep_their_fixed_order() {
    let e = s(ast::vec3(key(KeyVar::MouseY), key(KeyVar::Time), key(KeyVar::MouseX)));
    let sh = checked(vec![], Some(e));
    assert_eq!(uniforms(&sh), vec![Uniform::Time, Uniform::MouseX, Uniform::MouseY]);
    let text = shader(&sh);
    assert!(text.contains("uniform float time;\nuniform float mouse_x;\nuniform float mouse_y;\n"));
    assert!(text.contains("vec3 image(float x, float y, float t, float mx, float my) {\n"));
    assert!(text.contains("colour = image(uv.x, uv.y, time, mouse_x, mouse_y);"));
    assert!(text.contains("    return vec3(my, t, mx);\n"));
}

#[test]
fn pixel_position_is_never_a_uniform() {
    let e = s(ast::vec3(key(KeyVar::XPos), key(KeyVar::YPos), num("0.0")));
    let sh = checked(vec![], Some(e));
    assert!(uniforms(&sh).is_empty());
    assert!(!shader(&sh).contains("uniform"));
}

#[test]
fn rendering_twice_gives_the_same_text() {
    let e = s(ast::add(s(ast::mul(key(KeyVar::MouseX), red())), s(ast::div(red(), key(KeyVar::Time)))));
    let sh = checked(vec![], Some(e));
    let images = sh.with_images();
    assert_eq!(images[0].standalone_shader(), images[0].standalone_shader());
    assert_eq!(images[0].standalone_uniforms(), images[0].standalone_uniforms());
    assert_eq!(shader(&sh), shader(&sh));
}

#[test]
fn operators_render_with_their_parentheses() {
    let sum = s(ast::sub(s(ast::add(num("1.0"), num("2.0"))), num("3.0")));
    let prod = s(ast::div(s(ast::mul(num("1.0"), num("2.0"))), num("3.0")));
    let e = s(ast::mul(sum, s(ast::vec3(prod, num("0.0"), num("0.0")))));
    let sh = checked(vec![], Some(e));
    assert!(shader(&sh).contains("    return (1.0 + 2.0 - 3.0) * (vec3(((1.0) * (2.0)) / (3.0), 0.0, 0.0));\n"));
}

#[test]
fn conditional_renders_as_if_else() {
    let cond = s(ast::lt(key(KeyVar::XPos), num("0.5")));
    let then_b = s(ast::block(vec![s(ast::ret(s(ast::vec3(num("1"), num("0"), num("0")))))], None));
    let else_b = s(ast::block(vec![s(ast::ret(s(ast::vec3(num("0"), num("1"), num("0")))))], None));
    let ite = ast::ite(cond, then_b, Some(else_b));
    let sh = checked(vec![], Some(s(Expr::Stmt(ite))));
    let expected = "vec3 image(float x, float y) {\n    if ((x) < (0.5)) {\n        return vec3(1, 0, 0);\n    } else {\n        return vec3(0, 1, 0);\n    }\n}";
    assert!(shader(&sh).contains(expected));
}

#[test]
fn conditional_without_else_and_comparisons() {
    let cond = s(ast::eq(s(ast::t()), s(ast::gt(key(KeyVar::YPos), num("0.5")))));
    let then_b = s(ast::block(vec![s(ast::ret(red()))], None));
    let ite = ast::ite(cond, then_b, None);
    let sh = checked(vec![s(Stmt::Expr(ite))], Some(red()));
    let expected = "    if ((true) == ((y) > (0.5))) {\n        return vec3(1.0, 0.0, 0.0);\n    }\n    return vec3(1.0, 0.0, 0.0);\n";
    assert!(shader(&sh).contains(expected));
}

#[test]
fn assignment_and_booleans_render() {
    let sh = checked(
        vec![
            s(ast::ass("b", s(ast::f()))),
            s(ast::ass("b", s(ast::t()))),
            s(ast::ass("c", red())),
        ],
        Some(s(ast::var("c"))),
    );
    let text = shader(&sh);
    assert!(text.contains("    bool b = false;\n    b = true;\n    vec3 c = vec3(1.0, 0.0, 0.0);\n    return c;\n"));
}

#[test]
fn shader_function_lists_the_given_uniforms() {
    let sh = checked(vec![], Some(red()));
    let f = sh.get(0).shader_function(&[Uniform::MouseY]);
    assert_eq!(f, "vec3 image(float x, float y, float my) {\n    return vec3(1.0, 0.0, 0.0);\n}");
}

#[test]
fn image_of_an_index_renders_that_item() {
    let one = s(ast::image(s(ast::block(vec![], Some(red())))));
    let two = s(ast::image(s(ast::block(vec![], Some(s(ast::mul(key(KeyVar::MouseX), red())))))));
    let sh = AST(vec![one, two]).analyse().unwrap();
    let second = Image::new(&sh, 1);
    assert_eq!(second.standalone_uniforms(), vec![Uniform::MouseX]);
    assert_eq!(second.standalone_shader(), sh.with_images()[1].standalone_shader());
    assert!(!Image::new(&sh, 0).standalone_shader().contains("mouse_x"));
}
