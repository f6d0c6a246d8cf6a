//! The typed intermediate form that the checker produces and the code
//! generator renders, with its mathematical view.
use vstd::prelude::*;

use crate::ast::{ItemKind, KeyVar, OpKind};

verus! {

/// The value types of the language.
#[derive(Debug, PartialEq, Eq, Clone, Copy, Structural)]
pub enum Type {
    Void,
    Float,
    Bool,
    Vec2,
    Vec3,
}

/// The set of builtin inputs that an item reads, one flag per input.
#[derive(Debug, PartialEq, Eq, Clone, Copy, Structural)]
pub struct KeyVarSet {
    pub x_pos: bool,
    pub y_pos: bool,
    pub time: bool,
    pub mouse_x: bool,
    pub mouse_y: bool,
}

impl KeyVarSet {
    pub open spec fn has(&self, k: KeyVar) -> bool {
        match k {
            KeyVar::XPos => self.x_pos,
            KeyVar::YPos => self.y_pos,
            KeyVar::Time => self.time,
            KeyVar::MouseX => self.mouse_x,
            KeyVar::MouseY => self.mouse_y,
        }
    }

    /// The empty set.
    pub fn new() -> (r: KeyVarSet)
        ensures
            r@ == Set::<KeyVar>::empty(),
    {
        let r = KeyVarSet { x_pos: false, y_pos: false, time: false, mouse_x: false, mouse_y: false };
        assert(r@ =~= Set::<KeyVar>::empty());
        r
    }

    pub fn insert(&mut self, k: KeyVar)
        ensures
            final(self)@ == old(self)@.insert(k),
    {
        match k {
            KeyVar::XPos => self.x_pos = true,
            KeyVar::YPos => self.y_pos = true,
            KeyVar::Time => self.time = true,
            KeyVar::MouseX => self.mouse_x = true,
            KeyVar::MouseY => self.mouse_y = true,
        }
        assert(final(self)@ =~= old(self)@.insert(k));
    }

    pub fn contains(&self, k: KeyVar) -> (r: bool)
        ensures
            r == self@.contains(k),
    {
        match k {
            KeyVar::XPos => self.x_pos,
            KeyVar::YPos => self.y_pos,
            KeyVar::Time => self.time,
            KeyVar::MouseX => self.mouse_x,
            KeyVar::MouseY => self.mouse_y,
        }
    }
}

impl View for KeyVarSet {
    type V = Set<KeyVar>;

    open spec fn view(&self) -> Set<KeyVar> {
        Set::new(|k: KeyVar| self.has(k))
    }
}

/// A typed expression shape; names are resolved and operators tagged.
#[derive(Debug, PartialEq, Eq)]
pub enum ExprKind {
    KeyVar(KeyVar),
    Literal(String),
    Bool(bool),
    Var(String),
    Vec2(Box<(ExprKind, ExprKind)>),
    Vec3(Box<(ExprKind, ExprKind, ExprKind)>),
    BinOp(OpKind, Box<(ExprKind, ExprKind)>),
}

/// An expression with the one type that checking gave it.
#[derive(Debug, PartialEq, Eq)]
pub struct Expr {
    pub ty: Type,
    pub expr: ExprKind,
}

#[derive(Debug, PartialEq, Eq)]
pub enum Instr {
    Decl(String, Type, Option<ExprKind>),
    Assignment(String, Expr),
    Return(Expr),
    ITE(ExprKind, Block, Option<Block>),
}

/// A checked block: the type its returns agree on, if any, and its code.
#[derive(Debug, PartialEq, Eq)]
pub struct Block {
    pub ret: Option<Type>,
    pub instrs: Vec<Instr>,
}

/// A checked item, ready to be rendered.
#[derive(Debug, PartialEq, Eq)]
pub struct Item {
    pub ret: Type,
    pub kind: ItemKind,
    pub instrs: Vec<Instr>,
    pub vars: KeyVarSet,
}

/// The mathematical view of an instruction: nested blocks become sequences.
pub enum InstrV {
    Decl(String, Type, Option<ExprKind>),
    Assignment(String, Expr),
    Return(Expr),
    ITE(ExprKind, BlockV, Option<BlockV>),
}

/// The mathematical view of a block.
pub struct BlockV {
    pub ret: Option<Type>,
    pub instrs: Seq<InstrV>,
}

pub open spec fn instr_view(i: Instr) -> InstrV
    decreases i,
{
    match i {
        Instr::Decl(n, t, e) => InstrV::Decl(n, t, e),
        Instr::Assignment(n, e) => InstrV::Assignment(n, e),
        Instr::Return(e) => InstrV::Return(e),
        Instr::ITE(c, t, e) => InstrV::ITE(
            c,
            block_view(t),
            match e {
                Some(b) => Some(block_view(b)),
                None => None,
            },
        ),
    }
}

pub open spec fn block_view(b: Block) -> BlockV
    decreases b,
{
    BlockV { ret: b.ret, instrs: instrs_view(b.instrs@) }
}

pub open spec fn instrs_view(s: Seq<Instr>) -> Seq<InstrV>
    decreases s,
{
    if s.len() == 0 {
        Seq::empty()
    } else {
        instrs_view(s.drop_last()).push(instr_view(s.last()))
    }
}

/// The mathematical view of a checked item.
pub struct ItemV {
    pub ret: Type,
    pub kind: ItemKind,
    pub instrs: Seq<InstrV>,
    pub vars: Set<KeyVar>,
}

pub open spec fn item_view(it: Item) -> ItemV {
    ItemV { ret: it.ret, kind: it.kind, instrs: instrs_view(it.instrs@), vars: it.vars@ }
}

/// Appending an instruction appends its view.
pub proof fn lemma_instrs_view_push(s: Seq<Instr>, i: Instr)
    ensures
        instrs_view(s.push(i)) == instrs_view(s).push(instr_view(i)),
{
    assert(s.push(i).drop_last() =~= s);
}

} // verus!
