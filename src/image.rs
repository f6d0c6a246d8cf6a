//! Rendering of checked items as GLSL fragment-shader source.
use vstd::prelude::*;

use crate::ast::{ArithOpKind, CmpOpKind, KeyVar, OpKind};
use crate::instr;
use crate::instr::{instr_view, instrs_view, item_view, lemma_instrs_view_push, ExprKind, Instr, InstrV, ItemV, Type};
use crate::Shady;

verus! {

/// An input that the host supplies to a shader each frame.
#[derive(Debug, PartialEq, Eq, Clone, Copy, PartialOrd, Ord, Structural)]
pub enum Uniform {
    Time,
    MouseX,
    MouseY,
}

/// The uniforms that an item reading the builtins `vars` needs, in the
/// fixed order time, mouse x, mouse y. The pixel position is never one.
pub open spec fn uniforms_of(vars: Set<KeyVar>) -> Seq<Uniform> {
    (if vars.contains(KeyVar::Time) { seq![Uniform::Time] } else { Seq::empty() })
        + (if vars.contains(KeyVar::MouseX) { seq![Uniform::MouseX] } else { Seq::empty() })
        + (if vars.contains(KeyVar::MouseY) { seq![Uniform::MouseY] } else { Seq::empty() })
}

pub open spec fn type_text(t: Type) -> Seq<char> {
    match t {
        Type::Void => "void"@,
        Type::Bool => "bool"@,
        Type::Float => "float"@,
        Type::Vec2 => "vec2"@,
        Type::Vec3 => "vec3"@,
    }
}

/// The parameter names of the builtins inside the generated function.
pub open spec fn keyvar_text(k: KeyVar) -> Seq<char> {
    match k {
        KeyVar::XPos => "x"@,
        KeyVar::YPos => "y"@,
        KeyVar::Time => "t"@,
        KeyVar::MouseX => "mx"@,
        KeyVar::MouseY => "my"@,
    }
}

/// Multiplicative and comparison operators put their operands in
/// parentheses; additive ones do not.
pub open spec fn expr_text(e: ExprKind) -> Seq<char>
    decreases e,
{
    match e {
        ExprKind::KeyVar(k) => keyvar_text(k),
        ExprKind::Literal(s) => s@,
        ExprKind::Bool(b) => if b { "true"@ } else { "false"@ },
        ExprKind::Var(s) => s@,
        ExprKind::Vec2(p) => "vec2("@ + expr_text(p.0) + ", "@ + expr_text(p.1) + ")"@,
        ExprKind::Vec3(p) => "vec3("@ + expr_text(p.0) + ", "@ + expr_text(p.1) + ", "@ + expr_text(p.2) + ")"@,
        ExprKind::BinOp(op, p) => match op {
            OpKind::ArithOp(ArithOpKind::Add) => expr_text(p.0) + " + "@ + expr_text(p.1),
            OpKind::ArithOp(ArithOpKind::Sub) => expr_text(p.0) + " - "@ + expr_text(p.1),
            OpKind::ArithOp(ArithOpKind::Mul) => "("@ + expr_text(p.0) + ") * ("@ + expr_text(p.1) + ")"@,
            OpKind::ArithOp(ArithOpKind::Div) => "("@ + expr_text(p.0) + ") / ("@ + expr_text(p.1) + ")"@,
            OpKind::CmpOp(CmpOpKind::Lt) => "("@ + expr_text(p.0) + ") < ("@ + expr_text(p.1) + ")"@,
            OpKind::CmpOp(CmpOpKind::Gt) => "("@ + expr_text(p.0) + ") > ("@ + expr_text(p.1) + ")"@,
            OpKind::CmpOp(CmpOpKind::Eq) => "("@ + expr_text(p.0) + ") == ("@ + expr_text(p.1) + ")"@,
        },
    }
}

/// One instruction as lines of text, each starting with `pad`; nested
/// blocks are indented four spaces more.
pub open spec fn instr_text(i: InstrV, pad: Seq<char>) -> Seq<char>
    decreases i,
{
    match i {
        InstrV::Decl(n, t, Some(e)) => pad + type_text(t) + " "@ + n@ + " = "@ + expr_text(e) + ";\n"@,
        InstrV::Decl(n, t, None) => pad + type_text(t) + " "@ + n@ + ";\n"@,
        InstrV::Assignment(n, e) => pad + n@ + " = "@ + expr_text(e.expr) + ";\n"@,
        InstrV::Return(e) => pad + "return "@ + expr_text(e.expr) + ";\n"@,
        InstrV::ITE(c, t, None) => pad + "if ("@ + expr_text(c) + ") {\n"@ + instrs_text(t.instrs, pad + "    "@) + pad
            + "}\n"@,
        InstrV::ITE(c, t, Some(e)) => pad + "if ("@ + expr_text(c) + ") {\n"@ + instrs_text(t.instrs, pad + "    "@) + pad
            + "} else {\n"@ + instrs_text(e.instrs, pad + "    "@) + pad + "}\n"@,
    }
}

pub open spec fn instrs_text(s: Seq<InstrV>, pad: Seq<char>) -> Seq<char>
    decreases s,
{
    if s.len() == 0 {
        Seq::empty()
    } else {
        instrs_text(s.drop_last(), pad) + instr_text(s.last(), pad)
    }
}

/// The name of a uniform in the program template.
pub open spec fn uniform_name(u: Uniform) -> Seq<char> {
    match u {
        Uniform::Time => "time"@,
        Uniform::MouseX => "mouse_x"@,
        Uniform::MouseY => "mouse_y"@,
    }
}

/// The name of a uniform's parameter in the generated function.
pub open spec fn param_name(u: Uniform) -> Seq<char> {
    match u {
        Uniform::Time => "t"@,
        Uniform::MouseX => "mx"@,
        Uniform::MouseY => "my"@,
    }
}

/// A uniform declaration line for each uniform.
pub open spec fn decls_text(us: Seq<Uniform>) -> Seq<char>
    decreases us.len(),
{
    if us.len() == 0 {
        Seq::empty()
    } else {
        decls_text(us.drop_last()) + "uniform float "@ + uniform_name(us.last()) + ";\n"@
    }
}

/// The extra parameters of the generated function, one float per uniform.
pub open spec fn params_text(us: Seq<Uniform>) -> Seq<char>
    decreases us.len(),
{
    if us.len() == 0 {
        Seq::empty()
    } else {
        params_text(us.drop_last()) + ", float "@ + param_name(us.last())
    }
}

/// The extra arguments with which the program calls the generated function.
pub open spec fn args_text(us: Seq<Uniform>) -> Seq<char>
    decreases us.len(),
{
    if us.len() == 0 {
        Seq::empty()
    } else {
        args_text(us.drop_last()) + ", "@ + uniform_name(us.last())
    }
}

/// The generated function: the pixel position, then one float per uniform.
pub open spec fn function_text(instrs: Seq<InstrV>, us: Seq<Uniform>) -> Seq<char> {
    "vec3 image("@ + "float x, float y"@ + params_text(us) + ") {\n"@ + instrs_text(instrs, "    "@) + "}"@
}

/// The whole fragment shader for a checked item.
pub open spec fn shader_text(it: ItemV) -> Seq<char> {
    let us = uniforms_of(it.vars);
    "#version 330 core\n\nin vec2 uv;\n\nout vec3 colour;\n\n"@
        + decls_text(us) + "\n"@
        + function_text(it.instrs, us) + "\n\nvoid main() {\n    colour = image("@ + "uv.x, uv.y"@
        + args_text(us) + ");\n}"@
}

fn glsl_type(t: Type) -> (r: &'static str)
    ensures
        r@ == type_text(t),
{
    match t {
        Type::Void => "void",
        Type::Bool => "bool",
        Type::Float => "float",
        Type::Vec2 => "vec2",
        Type::Vec3 => "vec3",
    }
}

fn keyvar_name(k: KeyVar) -> (r: &'static str)
    ensures
        r@ == keyvar_text(k),
{
    match k {
        KeyVar::XPos => "x",
        KeyVar::YPos => "y",
        KeyVar::Time => "t",
        KeyVar::MouseX => "mx",
        KeyVar::MouseY => "my",
    }
}

fn write_expr(out: &mut String, e: &ExprKind)
    ensures
        final(out)@ == old(out)@ + expr_text(*e),
    decreases e,
{
    let ghost start = out@;
    match e {
        ExprKind::KeyVar(k) => out.append(keyvar_name(*k)),
        ExprKind::Literal(s) => out.append(s.as_str()),
        ExprKind::Bool(b) => if *b {
            out.append("true")
        } else {
            out.append("false")
        },
        ExprKind::Var(s) => out.append(s.as_str()),
        ExprKind::Vec2(p) => {
            out.append("vec2(");
            write_expr(out, &p.0);
            out.append(", ");
            write_expr(out, &p.1);
            out.append(")");
        },
        ExprKind::Vec3(p) => {
            out.append("vec3(");
            write_expr(out, &p.0);
            out.append(", ");
            write_expr(out, &p.1);
            out.append(", ");
            write_expr(out, &p.2);
            out.append(")");
        },
        ExprKind::BinOp(op, p) => {
            let (open, mid, close) = match op {
                OpKind::ArithOp(ArithOpKind::Add) => ("", " + ", ""),
                OpKind::ArithOp(ArithOpKind::Sub) => ("", " - ", ""),
                OpKind::ArithOp(ArithOpKind::Mul) => ("(", ") * (", ")"),
                OpKind::ArithOp(ArithOpKind::Div) => ("(", ") / (", ")"),
                OpKind::CmpOp(CmpOpKind::Lt) => ("(", ") < (", ")"),
                OpKind::CmpOp(CmpOpKind::Gt) => ("(", ") > (", ")"),
                OpKind::CmpOp(CmpOpKind::Eq) => ("(", ") == (", ")"),
            };
            out.append(open);
            write_expr(out, &p.0);
            out.append(mid);
            write_expr(out, &p.1);
            out.append(close);
            proof {
                reveal_strlit("");
            }
        },
    }
    assert(out@ =~= start + expr_text(*e));
}

proof fn lemma_instrs_text_push(s: Seq<InstrV>, i: InstrV, pad: Seq<char>)
    ensures
        instrs_text(s.push(i), pad) == instrs_text(s, pad) + instr_text(i, pad),
{
    assert(s.push(i).drop_last() =~= s);
}

fn write_instr(out: &mut String, i: &Instr, pad: &str)
    ensures
        final(out)@ == old(out)@ + instr_text(instr_view(*i), pad@),
    decreases i,
{
    let ghost start = out@;
    match i {
        Instr::Decl(n, t, e) => {
            out.append(pad);
            out.append(glsl_type(*t));
            out.append(" ");
            out.append(n.as_str());
            match e {
                Some(e) => {
                    out.append(" = ");
                    write_expr(out, e);
                },
                None => {},
            }
            out.append(";\n");
        },
        Instr::Assignment(n, e) => {
            out.append(pad);
            out.append(n.as_str());
            out.append(" = ");
            write_expr(out, &e.expr);
            out.append(";\n");
        },
        Instr::Return(e) => {
            out.append(pad);
            out.append("return ");
            write_expr(out, &e.expr);
            out.append(";\n");
        },
        Instr::ITE(c, t, e) => {
            let mut inner = String::from_str(pad);
            inner.append("    ");
            out.append(pad);
            out.append("if (");
            write_expr(out, c);
            out.append(") {\n");
            write_instrs(out, &t.instrs, inner.as_str());
            out.append(pad);
            match e {
                Some(e) => {
                    out.append("} else {\n");
                    write_instrs(out, &e.instrs, inner.as_str());
                    out.append(pad);
                },
                None => {},
            }
            out.append("}\n");
        },
    }
    assert(out@ =~= start + instr_text(instr_view(*i), pad@));
}

fn write_instrs(out: &mut String, instrs: &Vec<Instr>, pad: &str)
    ensures
        final(out)@ == old(out)@ + instrs_text(instrs_view(instrs@), pad@),
    decreases instrs,
{
    let ghost start = out@;
    let n = instrs.len();
    let mut k: usize = 0;
    assert(instrs@.subrange(0, 0) =~= Seq::<Instr>::empty());
    while k < n
        invariant
            n == instrs@.len(),
            k <= n,
            out@ == start + instrs_text(instrs_view(instrs@.subrange(0, k as int)), pad@),
        decreases n - k,
    {
        proof {
            assert(instrs@.subrange(0, k + 1) =~= instrs@.subrange(0, k as int).push(instrs@[k as int]));
            lemma_instrs_view_push(instrs@.subrange(0, k as int), instrs@[k as int]);
            lemma_instrs_text_push(instrs_view(instrs@.subrange(0, k as int)), instr_view(instrs@[k as int]), pad@);
        }
        write_instr(out, &instrs[k], pad);
        k = k + 1;
        assert(out@ =~= start + instrs_text(instrs_view(instrs@.subrange(0, k as int)), pad@));
    }
    assert(instrs@.subrange(0, n as int) =~= instrs@);
}

fn uniform_str(u: Uniform) -> (r: &'static str)
    ensures
        r@ == uniform_name(u),
{
    match u {
        Uniform::Time => "time",
        Uniform::MouseX => "mouse_x",
        Uniform::MouseY => "mouse_y",
    }
}

fn param_str(u: Uniform) -> (r: &'static str)
    ensures
        r@ == param_name(u),
{
    match u {
        Uniform::Time => "t",
        Uniform::MouseX => "mx",
        Uniform::MouseY => "my",
    }
}

fn write_uniform_decls(out: &mut String, us: &[Uniform])
    ensures
        final(out)@ == old(out)@ + decls_text(us@),
{
    let ghost start = out@;
    let mut k: usize = 0;
    assert(us@.subrange(0, 0) =~= Seq::<Uniform>::empty());
    while k < us.len()
        invariant
            k <= us@.len(),
            out@ == start + decls_text(us@.subrange(0, k as int)),
        decreases us@.len() - k,
    {
        assert(us@.subrange(0, k + 1).drop_last() =~= us@.subrange(0, k as int));
        out.append("uniform float ");
        out.append(uniform_str(us[k]));
        out.append(";\n");
        k = k + 1;
        assert(out@ =~= start + decls_text(us@.subrange(0, k as int)));
    }
    assert(us@.subrange(0, us@.len() as int) =~= us@);
}

fn write_params(out: &mut String, us: &[Uniform])
    ensures
        final(out)@ == old(out)@ + params_text(us@),
{
    let ghost start = out@;
    let mut k: usize = 0;
    assert(us@.subrange(0, 0) =~= Seq::<Uniform>::empty());
    while k < us.len()
        invariant
            k <= us@.len(),
            out@ == start + params_text(us@.subrange(0, k as int)),
        decreases us@.len() - k,
    {
        assert(us@.subrange(0, k + 1).drop_last() =~= us@.subrange(0, k as int));
        out.append(", float ");
        out.append(param_str(us[k]));
        k = k + 1;
        assert(out@ =~= start + params_text(us@.subrange(0, k as int)));
    }
    assert(us@.subrange(0, us@.len() as int) =~= us@);
}

fn write_args(out: &mut String, us: &[Uniform])
    ensures
        final(out)@ == old(out)@ + args_text(us@),
{
    let ghost start = out@;
    let mut k: usize = 0;
    assert(us@.subrange(0, 0) =~= Seq::<Uniform>::empty());
    while k < us.len()
        invariant
            k <= us@.len(),
            out@ == start + args_text(us@.subrange(0, k as int)),
        decreases us@.len() - k,
    {
        assert(us@.subrange(0, k + 1).drop_last() =~= us@.subrange(0, k as int));
        out.append(", ");
        out.append(uniform_str(us[k]));
        k = k + 1;
        assert(out@ =~= start + args_text(us@.subrange(0, k as int)));
    }
    assert(us@.subrange(0, us@.len() as int) =~= us@);
}

impl instr::Item {
    /// The generated function, taking one extra float per uniform of
    /// `uniforms`, in that order.
    pub fn shader_function(&self, uniforms: &[Uniform]) -> (r: String)
        ensures
            r@ == function_text(instrs_view(self.instrs@), uniforms@),
    {
        let mut out = String::from_str("vec3 image(");
        out.append("float x, float y");
        write_params(&mut out, uniforms);
        out.append(") {\n");
        write_instrs(&mut out, &self.instrs, "    ");
        out.append("}");
        out
    }
}

/// One checked image item of a script.
pub struct Image<'a>(&'a Shady, usize);

impl<'a> Image<'a> {
    #[verifier::type_invariant]
    spec fn inv(&self) -> bool {
        self.1 < self.0@.len()
    }

    /// The checked item that this image renders.
    pub closed spec fn item(&self) -> ItemV {
        self.0@[self.1 as int]
    }

    pub fn new(shady: &'a Shady, idx: usize) -> (r: Image<'a>)
        requires
            idx < shady@.len(),
        ensures
            r.item() == shady@[idx as int],
    {
        Image(shady, idx)
    }

    /// The uniforms that the host must supply, in their fixed order.
    pub fn standalone_uniforms(&self) -> (r: Vec<Uniform>)
        ensures
            r@ == uniforms_of(self.item().vars),
    {
        proof {
            use_type_invariant(self);
        }
        let vars = self.0.get(self.1).vars;
        let mut r: Vec<Uniform> = Vec::new();
        if vars.contains(KeyVar::Time) {
            r.push(Uniform::Time);
        }
        if vars.contains(KeyVar::MouseX) {
            r.push(Uniform::MouseX);
        }
        if vars.contains(KeyVar::MouseY) {
            r.push(Uniform::MouseY);
        }
        assert(r@ =~= uniforms_of(self.item().vars));
        r
    }

    /// The complete fragment shader of this image.
    pub fn standalone_shader(&self) -> (r: String)
        ensures
            r@ == shader_text(self.item()),
    {
        proof {
            use_type_invariant(self);
        }
        let us = self.standalone_uniforms();
        let mut out = String::from_str("#version 330 core\n\nin vec2 uv;\n\nout vec3 colour;\n\n");
        write_uniform_decls(&mut out, us.as_slice());
        out.append("\n");
        let f = self.0.get(self.1).shader_function(us.as_slice());
        out.append(f.as_str());
        out.append("\n\nvoid main() {\n    colour = image(");
        out.append("uv.x, uv.y");
        write_args(&mut out, us.as_slice());
        out.append(");\n}");
        out
    }
}

} // verus!
