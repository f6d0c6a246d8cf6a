//! Type checking and GLSL generation for a small shader-definition language.
use vstd::prelude::*;

pub mod analyse;
pub mod ast;
pub mod functions;
pub mod image;
pub mod instr;
pub mod laws;
pub mod span;

pub use analyse::AnalyseError;
pub use image::{Image, Uniform};

use instr::{item_view, ItemV};

verus! {

/// A checked script: its items, in source order.
#[derive(Debug, PartialEq, Eq)]
pub struct Shady {
    items: Vec<instr::Item>,
}

impl View for Shady {
    type V = Seq<ItemV>;

    closed spec fn view(&self) -> Seq<ItemV> {
        self.items@.map_values(|it: instr::Item| item_view(it))
    }
}

impl Shady {
    fn new() -> (r: Shady)
        ensures
            r@ == Seq::<ItemV>::empty(),
    {
        let r = Shady { items: Vec::new() };
        assert(r@ =~= Seq::<ItemV>::empty());
        r
    }

    /// The checked item at position `idx`.
    pub fn get(&self, idx: usize) -> (r: &instr::Item)
        requires
            idx < self@.len(),
        ensures
            item_view(*r) == self@[idx as int],
    {
        &self.items[idx]
    }

    /// The image items of the script, in source order.
    pub fn with_images(&self) -> (r: Vec<Image<'_>>)
        ensures
            r@.len() == self@.len(),
            forall|i: int| 0 <= i < r@.len() ==> #[trigger] r@[i].item() == self@[i],
    {
        let mut r: Vec<Image<'_>> = Vec::new();
        let n = self.items.len();
        let mut i: usize = 0;
        while i < n
            invariant
                n == self@.len(),
                i <= n,
                r@.len() == i,
                forall|j: int| 0 <= j < i ==> #[trigger] r@[j].item() == self@[j],
            decreases n - i,
        {
            match self.items[i].kind {
                ast::ItemKind::Image => r.push(Image::new(self, i)),
            }
            i = i + 1;
        }
        r
    }

    fn push_item(&mut self, item: instr::Item)
        ensures
            final(self)@ == old(self)@.push(item_view(item)),
    {
        self.items.push(item);
        assert(final(self)@ =~= old(self)@.push(item_view(item)));
    }
}

} // verus!
