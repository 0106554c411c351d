//! Accessors for a struct whose focused field is a dynamic sequence, the
//! shape the index-addressed operations extend.

use vstd::prelude::*;
use crate::accessor::Accessor;
use crate::accessor::Projection;

verus! {

/// A struct holding a dynamic sequence of elements.
pub struct Bag {
    pub items: Vec<i32>,
}

/// A struct holding a `Bag`, for projecting through one level.
pub struct Wrapper {
    pub bag: Bag,
}

/// Projection to the `items` field of `Bag`.
#[derive(Clone, Copy)]
pub struct BagItems;

impl Projection for BagItems {
    type Whole = Bag;

    type Part = Vec<i32>;

    open spec fn wf(self) -> bool {
        true
    }

    open spec fn focus(self, t: Bag) -> Vec<i32> {
        t.items
    }

    open spec fn store(self, t: Bag, f: Vec<i32>) -> Bag {
        Bag { items: f }
    }

    proof fn lemma_focus_store(self, t: Bag, f: Vec<i32>) {
    }

    proof fn lemma_store_focus(self, t: Bag) {
    }

    proof fn lemma_store_store(self, t: Bag, f1: Vec<i32>, f2: Vec<i32>) {
    }

    fn project<'a>(&self, root: &'a Bag) -> (r: &'a Vec<i32>) {
        &root.items
    }

    fn project_mut<'a>(&self, root: &'a mut Bag) -> (r: &'a mut Vec<i32>) {
        &mut root.items
    }
}

/// Projection to the `bag` field of `Wrapper`.
#[derive(Clone, Copy)]
pub struct WrapperBag;

impl Projection for WrapperBag {
    type Whole = Wrapper;

    type Part = Bag;

    open spec fn wf(self) -> bool {
        true
    }

    open spec fn focus(self, t: Wrapper) -> Bag {
        t.bag
    }

    open spec fn store(self, t: Wrapper, f: Bag) -> Wrapper {
        Wrapper { bag: f }
    }

    proof fn lemma_focus_store(self, t: Wrapper, f: Bag) {
    }

    proof fn lemma_store_focus(self, t: Wrapper) {
    }

    proof fn lemma_store_store(self, t: Wrapper, f1: Bag, f2: Bag) {
    }

    fn project<'a>(&self, root: &'a Wrapper) -> (r: &'a Bag) {
        &root.bag
    }

    fn project_mut<'a>(&self, root: &'a mut Wrapper) -> (r: &'a mut Bag) {
        &mut root.bag
    }
}

impl Bag {
    /// Accessor to the `items` field.
    pub fn acc_items() -> (a: Accessor<BagItems>)
        ensures
            a.wf(),
            forall|t: Bag| #[trigger] a.focus(t) == t.items,
            forall|t: Bag, v: Vec<i32>| #[trigger] a.store(t, v) == (Bag { items: v }),
    {
        Accessor::from_fns(BagItems)
    }

    /// Return a new value with `items` replaced by `new_val`.
    pub fn with_items(self, new_val: Vec<i32>) -> (r: Bag)
        ensures
            r == (Bag { items: new_val }),
    {
        Bag { items: new_val }
    }
}

impl Wrapper {
    /// Accessor to the `bag` field.
    pub fn acc_bag() -> (a: Accessor<WrapperBag>)
        ensures
            a.wf(),
            forall|t: Wrapper| #[trigger] a.focus(t) == t.bag,
            forall|t: Wrapper, v: Bag| #[trigger] a.store(t, v) == (Wrapper { bag: v }),
    {
        Accessor::from_fns(WrapperBag)
    }

    /// Return a new value with `bag` replaced by `new_val`.
    pub fn with_bag(self, new_val: Bag) -> (r: Wrapper)
        ensures
            r == (Wrapper { bag: new_val }),
    {
        Wrapper { bag: new_val }
    }
}

} // verus!
