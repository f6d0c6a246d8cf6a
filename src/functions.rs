//! The table of builtin functions, searched by name and argument types.
use vstd::prelude::*;

use crate::instr::Type;

verus! {

/// A builtin function: its name, its parameter types and its result type.
pub struct Function {
    pub name: &'static str,
    pub args: &'static [Type],
    pub ret: Type,
}

/// The builtins, in table order: name, parameter types, result type.
pub open spec fn builtin_table() -> Seq<(Seq<char>, Seq<Type>, Type)> {
    seq![
        ("sin"@, seq![Type::Float], Type::Float),
        ("cos"@, seq![Type::Float], Type::Float),
        ("tan"@, seq![Type::Float], Type::Float),
    ]
}

/// The result type of the first entry of `table` whose name and parameter
/// types are `name` and `args`.
pub open spec fn find_in(table: Seq<(Seq<char>, Seq<Type>, Type)>, name: Seq<char>, args: Seq<Type>) -> Option<Type>
    decreases table.len(),
{
    if table.len() == 0 {
        None
    } else if table[0].0 == name && table[0].1 == args {
        Some(table[0].2)
    } else {
        find_in(table.drop_first(), name, args)
    }
}

pub open spec fn function_view(f: Function) -> (Seq<char>, Seq<Type>, Type) {
    (f.name@, f.args@, f.ret)
}

fn functions() -> (r: Vec<Function>)
    ensures
        r@.map_values(|f: Function| function_view(f)) == builtin_table(),
{
    let r = vec![
        Function { name: "sin", args: &[Type::Float], ret: Type::Float },
        Function { name: "cos", args: &[Type::Float], ret: Type::Float },
        Function { name: "tan", args: &[Type::Float], ret: Type::Float },
    ];
    assert(r@[0].args@ =~= seq![Type::Float]);
    assert(r@[1].args@ =~= seq![Type::Float]);
    assert(r@[2].args@ =~= seq![Type::Float]);
    assert(r@.map_values(|f: Function| function_view(f)) =~= builtin_table());
    r
}

fn same_types(a: &[Type], b: &[Type]) -> (r: bool)
    ensures
        r == (a@ == b@),
{
    if a.len() != b.len() {
        return false;
    }
    let mut i: usize = 0;
    while i < a.len()
        invariant
            a@.len() == b@.len(),
            i <= a@.len(),
            forall|j: int| 0 <= j < i ==> a@[j] == b@[j],
        decreases a@.len() - i,
    {
        if a[i] != b[i] {
            return false;
        }
        i = i + 1;
    }
    assert(a@ =~= b@);
    true
}

/// The result type of the builtin `name` applied to arguments of types
/// `args`, if there is such a builtin.
pub fn find_function(name: &str, args: &[Type]) -> (r: Option<Type>)
    ensures
        r == find_in(builtin_table(), name@, args@),
{
    let table = functions();
    let ghost view = table@.map_values(|f: Function| function_view(f));
    let wanted = String::from_str(name);
    let mut i: usize = 0;
    assert(view.subrange(0, view.len() as int) =~= view);
    while i < table.len()
        invariant
            view == table@.map_values(|f: Function| function_view(f)),
            view == builtin_table(),
            i <= table@.len(),
            wanted@ == name@,
            find_in(builtin_table(), name@, args@) == find_in(view.subrange(i as int, view.len() as int), name@, args@),
        decreases table@.len() - i,
    {
        let ghost rest = view.subrange(i as int, view.len() as int);
        assert(rest.drop_first() =~= view.subrange(i + 1, view.len() as int));
        let f = &table[i];
        assert(rest[0] == function_view(*f));
        if String::from_str(f.name) == wanted && same_types(f.args, args) {
            return Some(f.ret);
        }
        i = i + 1;
    }
    None
}

} // verus!
